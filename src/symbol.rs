use vstd::prelude::*;
use vstd::string::*;

use crate::text::text_eq;

verus! {

/// The generic weather icons that the panel can show.
#[derive(Clone, Copy, Debug, PartialEq, Eq, Structural)]
pub enum IconName {
    Clear,
    ClearNight,
    FewClouds,
    FewCloudsNight,
    Overcast,
    Fog,
    Showers,
    ShowersScattered,
    Snow,
    Storm,
}

/// The identifier of each icon.
pub open spec fn icon_id(icon: IconName) -> Seq<char> {
    match icon {
        IconName::Clear => "clear"@,
        IconName::ClearNight => "clear-night"@,
        IconName::FewClouds => "few-clouds"@,
        IconName::FewCloudsNight => "few-clouds-night"@,
        IconName::Overcast => "overcast"@,
        IconName::Fog => "fog"@,
        IconName::Showers => "showers"@,
        IconName::ShowersScattered => "showers-scattered"@,
        IconName::Snow => "snow"@,
        IconName::Storm => "storm"@,
    }
}

impl IconName {
    /// The icon's identifier, such as `clear-night`.
    pub fn name(&self) -> (r: &'static str)
        ensures
            r@ == icon_id(*self),
    {
        match self {
            IconName::Clear => "clear",
            IconName::ClearNight => "clear-night",
            IconName::FewClouds => "few-clouds",
            IconName::FewCloudsNight => "few-clouds-night",
            IconName::Overcast => "overcast",
            IconName::Fog => "fog",
            IconName::Showers => "showers",
            IconName::ShowersScattered => "showers-scattered",
            IconName::Snow => "snow",
            IconName::Storm => "storm",
        }
    }
}

/// `s` ends with `suffix`.
pub open spec fn ends_with(s: Seq<char>, suffix: Seq<char>) -> bool {
    suffix.len() <= s.len() && s.subrange(s.len() - suffix.len(), s.len() as int) == suffix
}

/// `s` without its last `k` characters.
pub open spec fn drop_last(s: Seq<char>, k: int) -> Seq<char> {
    s.subrange(0, s.len() - k)
}

/// A symbol code split into its base token and whether its time-of-day
/// suffix means night: `_night` and `_polartwilight` do, `_day` and no
/// suffix do not.
pub open spec fn split_time_of_day(code: Seq<char>) -> (Seq<char>, bool) {
    if ends_with(code, "_night"@) {
        (drop_last(code, "_night"@.len() as int), true)
    } else if ends_with(code, "_polartwilight"@) {
        (drop_last(code, "_polartwilight"@.len() as int), true)
    } else if ends_with(code, "_day"@) {
        (drop_last(code, "_day"@.len() as int), false)
    } else {
        (code, false)
    }
}

/// Rain without showers or thunder.
pub open spec fn is_rain(base: Seq<char>) -> bool {
    base == "lightrain"@ || base == "rain"@ || base == "heavyrain"@
}

/// Rain showers without thunder.
pub open spec fn is_rain_showers(base: Seq<char>) -> bool {
    base == "lightrainshowers"@ || base == "rainshowers"@ || base == "heavyrainshowers"@
}

/// Snow and sleet, steady or in showers, without thunder.
pub open spec fn is_snow_or_sleet(base: Seq<char>) -> bool {
    base == "lightsnow"@ || base == "snow"@ || base == "heavysnow"@
        || base == "lightsnowshowers"@ || base == "snowshowers"@ || base == "heavysnowshowers"@
        || base == "lightsleet"@ || base == "sleet"@ || base == "heavysleet"@
        || base == "lightsleetshowers"@ || base == "sleetshowers"@ || base == "heavysleetshowers"@
}

/// Rain, rain showers, sleet, sleet showers, snow or snow showers, with thunder.
/// The vendor spells two light shower codes with a doubled `s`; both
/// spellings are accepted.
pub open spec fn is_thunder(base: Seq<char>) -> bool {
    base == "lightrainandthunder"@ || base == "rainandthunder"@ || base == "heavyrainandthunder"@
        || base == "lightrainshowersandthunder"@ || base == "rainshowersandthunder"@
        || base == "heavyrainshowersandthunder"@
        || base == "lightsleetandthunder"@ || base == "sleetandthunder"@
        || base == "heavysleetandthunder"@
        || base == "lightsleetshowersandthunder"@ || base == "lightssleetshowersandthunder"@
        || base == "sleetshowersandthunder"@ || base == "heavysleetshowersandthunder"@
        || base == "lightsnowandthunder"@ || base == "snowandthunder"@
        || base == "heavysnowandthunder"@
        || base == "lightsnowshowersandthunder"@ || base == "lightssnowshowersandthunder"@
        || base == "snowshowersandthunder"@ || base == "heavysnowshowersandthunder"@
}

/// The daytime icon of a known base token; `None` for an unknown one.
pub open spec fn day_icon_of_base(base: Seq<char>) -> Option<IconName> {
    if base == "clearsky"@ {
        Some(IconName::Clear)
    } else if base == "fair"@ || base == "partlycloudy"@ {
        Some(IconName::FewClouds)
    } else if base == "cloudy"@ {
        Some(IconName::Overcast)
    } else if base == "fog"@ {
        Some(IconName::Fog)
    } else if is_rain(base) {
        Some(IconName::Showers)
    } else if is_rain_showers(base) {
        Some(IconName::ShowersScattered)
    } else if is_snow_or_sleet(base) {
        Some(IconName::Snow)
    } else if is_thunder(base) {
        Some(IconName::Storm)
    } else {
        None
    }
}

/// The night form of an icon: only the clear and few-clouds icons have one.
pub open spec fn night_form(icon: IconName) -> IconName {
    match icon {
        IconName::Clear => IconName::ClearNight,
        IconName::FewClouds => IconName::FewCloudsNight,
        other => other,
    }
}

/// The icon for a vendor symbol code; an unknown base token gives `Clear`.
pub open spec fn icon_of(code: Seq<char>) -> IconName {
    let (base, night) = split_time_of_day(code);
    match day_icon_of_base(base) {
        Some(icon) => if night {
            night_form(icon)
        } else {
            icon
        },
        None => IconName::Clear,
    }
}

/// The known base tokens whose icon has a night form.
pub open spec fn has_night_icon(base: Seq<char>) -> bool {
    base == "clearsky"@ || base == "fair"@ || base == "partlycloudy"@
}

/// No known base token holds an underscore.
proof fn lemma_known_base_has_no_underscore(base: Seq<char>, i: int)
    requires
        day_icon_of_base(base) is Some,
        0 <= i < base.len(),
    ensures
        base[i] != '_',
{
    reveal_strlit("clearsky");
    reveal_strlit("fair");
    reveal_strlit("partlycloudy");
    reveal_strlit("cloudy");
    reveal_strlit("fog");
    reveal_strlit("lightrain");
    reveal_strlit("rain");
    reveal_strlit("heavyrain");
    reveal_strlit("lightrainshowers");
    reveal_strlit("rainshowers");
    reveal_strlit("heavyrainshowers");
    reveal_strlit("lightsnow");
    reveal_strlit("snow");
    reveal_strlit("heavysnow");
    reveal_strlit("lightsnowshowers");
    reveal_strlit("snowshowers");
    reveal_strlit("heavysnowshowers");
    reveal_strlit("lightsleet");
    reveal_strlit("sleet");
    reveal_strlit("heavysleet");
    reveal_strlit("lightsleetshowers");
    reveal_strlit("sleetshowers");
    reveal_strlit("heavysleetshowers");
    reveal_strlit("lightrainandthunder");
    reveal_strlit("rainandthunder");
    reveal_strlit("heavyrainandthunder");
    reveal_strlit("lightrainshowersandthunder");
    reveal_strlit("rainshowersandthunder");
    reveal_strlit("heavyrainshowersandthunder");
    reveal_strlit("lightsleetandthunder");
    reveal_strlit("sleetandthunder");
    reveal_strlit("heavysleetandthunder");
    reveal_strlit("lightsleetshowersandthunder");
    reveal_strlit("lightssleetshowersandthunder");
    reveal_strlit("sleetshowersandthunder");
    reveal_strlit("heavysleetshowersandthunder");
    reveal_strlit("lightsnowandthunder");
    reveal_strlit("snowandthunder");
    reveal_strlit("heavysnowandthunder");
    reveal_strlit("lightsnowshowersandthunder");
    reveal_strlit("lightssnowshowersandthunder");
    reveal_strlit("snowshowersandthunder");
    reveal_strlit("heavysnowshowersandthunder");
}

/// A known base token carries no time-of-day suffix, so on its own it reads
/// as a daytime code.
proof fn lemma_known_base_splits_to_itself(base: Seq<char>)
    requires
        day_icon_of_base(base) is Some,
    ensures
        split_time_of_day(base) == (base, false),
{
    reveal_strlit("_night");
    reveal_strlit("_polartwilight");
    reveal_strlit("_day");
    if ends_with(base, "_night"@) {
        lemma_known_base_has_no_underscore(base, base.len() - 6);
        assert(base.subrange(base.len() - 6, base.len() as int)[0] == base[base.len() - 6]);
    }
    if ends_with(base, "_polartwilight"@) {
        lemma_known_base_has_no_underscore(base, base.len() - 14);
        assert(base.subrange(base.len() - 14, base.len() as int)[0] == base[base.len() - 14]);
    }
    if ends_with(base, "_day"@) {
        lemma_known_base_has_no_underscore(base, base.len() - 4);
        assert(base.subrange(base.len() - 4, base.len() as int)[0] == base[base.len() - 4]);
    }
}

/// Appending `_day`, `_night` or `_polartwilight` to a known base token whose
/// icon has no night form gives the same icon as the bare token.
pub proof fn lemma_suffix_keeps_icon_without_night_form(base: Seq<char>, suffix: Seq<char>)
    requires
        day_icon_of_base(base) is Some,
        !has_night_icon(base),
        suffix == "_day"@ || suffix == "_night"@ || suffix == "_polartwilight"@,
    ensures
        icon_of(base + suffix) == icon_of(base),
{
    reveal_strlit("_night");
    reveal_strlit("_polartwilight");
    reveal_strlit("_day");
    lemma_known_base_splits_to_itself(base);
    let code = base + suffix;
    let n = code.len();
    assert(code.subrange(n - suffix.len(), n as int) =~= suffix);
    assert(drop_last(code, suffix.len() as int) =~= base);
    if suffix == "_day"@ {
        assert(code[n - 1] == 'y');
        assert(!ends_with(code, "_night"@)) by {
            if ends_with(code, "_night"@) {
                assert(code.subrange(n - 6, n as int)[5] == code[n - 1]);
            }
        }
        assert(!ends_with(code, "_polartwilight"@)) by {
            if ends_with(code, "_polartwilight"@) {
                assert(code.subrange(n - 14, n as int)[13] == code[n - 1]);
            }
        }
    }
    if suffix == "_polartwilight"@ {
        assert(code[n - 6] == 'i');
        assert(!ends_with(code, "_night"@)) by {
            if ends_with(code, "_night"@) {
                assert(code.subrange(n - 6, n as int)[0] == code[n - 6]);
            }
        }
    }
}

fn ends_with_text(s: &str, suffix: &str) -> (r: bool)
    ensures
        r == ends_with(s@, suffix@),
{
    let n = s.unicode_len();
    let k = suffix.unicode_len();
    if k > n {
        return false;
    }
    text_eq(s.substring_char(n - k, n), suffix)
}

fn split_time_of_day_text(code: &str) -> (r: (&str, bool))
    ensures
        (r.0@, r.1) == split_time_of_day(code@),
{
    let n = code.unicode_len();
    if ends_with_text(code, "_night") {
        (code.substring_char(0, n - "_night".unicode_len()), true)
    } else if ends_with_text(code, "_polartwilight") {
        (code.substring_char(0, n - "_polartwilight".unicode_len()), true)
    } else if ends_with_text(code, "_day") {
        (code.substring_char(0, n - "_day".unicode_len()), false)
    } else {
        (code, false)
    }
}

fn day_icon_of_base_text(b: &str) -> (r: Option<IconName>)
    ensures
        r == day_icon_of_base(b@),
{
    if text_eq(b, "clearsky") {
        Some(IconName::Clear)
    } else if text_eq(b, "fair") || text_eq(b, "partlycloudy") {
        Some(IconName::FewClouds)
    } else if text_eq(b, "cloudy") {
        Some(IconName::Overcast)
    } else if text_eq(b, "fog") {
        Some(IconName::Fog)
    } else if text_eq(b, "lightrain") || text_eq(b, "rain") || text_eq(b, "heavyrain") {
        Some(IconName::Showers)
    } else if text_eq(b, "lightrainshowers") || text_eq(b, "rainshowers") || text_eq(
        b,
        "heavyrainshowers",
    ) {
        Some(IconName::ShowersScattered)
    } else if text_eq(b, "lightsnow") || text_eq(b, "snow") || text_eq(b, "heavysnow")
        || text_eq(b, "lightsnowshowers") || text_eq(b, "snowshowers") || text_eq(
        b,
        "heavysnowshowers",
    ) || text_eq(b, "lightsleet") || text_eq(b, "sleet") || text_eq(b, "heavysleet")
        || text_eq(b, "lightsleetshowers") || text_eq(b, "sleetshowers") || text_eq(
        b,
        "heavysleetshowers",
    ) {
        Some(IconName::Snow)
    } else if text_eq(b, "lightrainandthunder") || text_eq(b, "rainandthunder") || text_eq(
        b,
        "heavyrainandthunder",
    ) || text_eq(b, "lightrainshowersandthunder") || text_eq(b, "rainshowersandthunder")
        || text_eq(b, "heavyrainshowersandthunder") || text_eq(b, "lightsleetandthunder")
        || text_eq(b, "sleetandthunder") || text_eq(b, "heavysleetandthunder") || text_eq(
        b,
        "lightsleetshowersandthunder",
    ) || text_eq(b, "lightssleetshowersandthunder") || text_eq(b, "sleetshowersandthunder")
        || text_eq(b, "heavysleetshowersandthunder") || text_eq(b, "lightsnowandthunder")
        || text_eq(b, "snowandthunder") || text_eq(b, "heavysnowandthunder") || text_eq(
        b,
        "lightsnowshowersandthunder",
    ) || text_eq(b, "lightssnowshowersandthunder") || text_eq(b, "snowshowersandthunder")
        || text_eq(b, "heavysnowshowersandthunder") {
        Some(IconName::Storm)
    } else {
        None
    }
}

/// Maps a vendor symbol code, such as `partlycloudy_night`, to a generic icon.
/// The time-of-day suffix only matters for the clear and few-clouds icons;
/// an unknown code gives `Clear`.
pub fn map_symbol_to_icon(code: &str) -> (r: IconName)
    ensures
        r == icon_of(code@),
{
    let (base, night) = split_time_of_day_text(code);
    match day_icon_of_base_text(base) {
        Some(icon) => {
            if night {
                match icon {
                    IconName::Clear => IconName::ClearNight,
                    IconName::FewClouds => IconName::FewCloudsNight,
                    other => other,
                }
            } else {
                icon
            }
        },
        None => IconName::Clear,
    }
}

} // verus!
