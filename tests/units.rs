use weather_applet::{celsius_to_fahrenheit, decimal_text, display_temperature};

#[test]
fn twenty_celsius_is_sixty_eight_fahrenheit() {
    assert_eq!(celsius_to_fahrenheit(20), 68);
    assert_eq!(display_temperature(20, true), "68°F");
}

#[test]
fn twenty_one_celsius_rounds_to_seventy_fahrenheit() {
    assert_eq!(celsius_to_fahrenheit(21), 70);
    assert_eq!(display_temperature(21, true), "70°F");
}

#[test]
fn fahrenheit_rounds_to_nearest() {
    assert_eq!(celsius_to_fahrenheit(0), 32);
    assert_eq!(celsius_to_fahrenheit(-40), -40);
    assert_eq!(celsius_to_fahrenheit(-1), 30);
    assert_eq!(celsius_to_fahrenheit(-18), 0);
    assert_eq!(celsius_to_fahrenheit(37), 99);
    assert_eq!(celsius_to_fahrenheit(100), 212);
    assert_eq!(celsius_to_fahrenheit(i32::MAX), 3865470597);
    assert_eq!(celsius_to_fahrenheit(i32::MIN), -3865470534);
}

#[test]
fn celsius_display() {
    assert_eq!(display_temperature(20, false), "20°C");
    assert_eq!(display_temperature(0, false), "0°C");
    assert_eq!(display_temperature(-7, false), "-7°C");
    assert_eq!(display_temperature(-7, true), "19°F");
}

#[test]
fn decimal_texts() {
    assert_eq!(decimal_text(0), "0");
    assert_eq!(decimal_text(9), "9");
    assert_eq!(decimal_text(10), "10");
    assert_eq!(decimal_text(-5), "-5");
    assert_eq!(decimal_text(1234567890), "1234567890");
    assert_eq!(decimal_text(i64::MAX), i64::MAX.to_string());
    assert_eq!(decimal_text(i64::MIN), i64::MIN.to_string());
}
