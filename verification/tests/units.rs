use resources::settings::{Base, TemperatureUnit};
use resources::units::{
    celsius_to_fahrenheit, celsius_to_kelvin, convert_frequency, convert_power, convert_speed,
    convert_storage, convert_temperature, to_largest_prefix, Prefix,
};

#[test]
fn scale_just_below_decimal_base_keeps_plain_prefix() {
    assert_eq!(to_largest_prefix(999, Base::Decimal), (99900, Prefix::Plain));
}

#[test]
fn scale_at_decimal_base_reaches_kilo() {
    assert_eq!(to_largest_prefix(1000, Base::Decimal), (100, Prefix::Kilo));
}

#[test]
fn scale_at_binary_base_reaches_kilo() {
    assert_eq!(to_largest_prefix(1024, Base::Binary), (100, Prefix::Kilo));
}

#[test]
fn scale_just_below_binary_base_keeps_plain_prefix() {
    assert_eq!(to_largest_prefix(1023, Base::Binary), (102300, Prefix::Plain));
}

#[test]
fn scale_steps_through_two_prefixes() {
    assert_eq!(to_largest_prefix(1_500_000, Base::Decimal), (150, Prefix::Mega));
}

#[test]
fn scale_of_largest_magnitude_stays_on_ladder() {
    let (centi, prefix) = to_largest_prefix(u64::MAX, Base::Decimal);
    assert_eq!(prefix, Prefix::Exa);
    assert!(centi < 100_000);
    let (centi_b, prefix_b) = to_largest_prefix(u64::MAX, Base::Binary);
    assert_eq!(prefix_b, Prefix::Exa);
    assert!(centi_b < 102_400);
}

#[test]
fn frequency_of_one_and_a_half_megahertz() {
    assert_eq!(convert_frequency(1_500_000), "1.50 MHz");
}

#[test]
fn frequency_below_base_rounds_to_whole_hertz() {
    assert_eq!(convert_frequency(999), "999 Hz");
}

#[test]
fn frequency_rounds_at_the_displayed_precision() {
    assert_eq!(convert_frequency(1_999_999), "2.00 MHz");
    assert_eq!(convert_frequency(999_995), "1000.00 kHz");
}

#[test]
fn frequency_of_gigahertz_clock() {
    assert_eq!(convert_frequency(1_500_000_000), "1.50 GHz");
}

#[test]
fn storage_precise_decimal() {
    assert_eq!(convert_storage(1_500_000, false, Base::Decimal), "1.50 MB");
}

#[test]
fn storage_integer_decimal_rounds() {
    assert_eq!(convert_storage(1_500_000, true, Base::Decimal), "2 MB");
}

#[test]
fn storage_plain_prefix_is_rounded_even_in_precise_mode() {
    assert_eq!(convert_storage(999, false, Base::Decimal), "999 B");
}

#[test]
fn storage_binary_symbols() {
    assert_eq!(convert_storage(1536, false, Base::Binary), "1.50 KiB");
    assert_eq!(convert_storage(1_073_741_824, false, Base::Binary), "1.00 GiB");
}

#[test]
fn storage_of_zero_bytes() {
    assert_eq!(convert_storage(0, false, Base::Decimal), "0 B");
    assert_eq!(convert_storage(0, true, Base::Binary), "0 B");
}

#[test]
fn speed_in_bytes_per_second() {
    assert_eq!(convert_speed(1000, false, Base::Decimal, false), "1.00 kB/s");
    assert_eq!(convert_speed(500, false, Base::Decimal, true), "500 B/s");
}

#[test]
fn speed_network_bits_multiplies_by_eight() {
    assert_eq!(convert_speed(1000, true, Base::Decimal, true), "8.00 kb/s");
}

#[test]
fn speed_network_bytes_when_bits_not_asked() {
    assert_eq!(convert_speed(1000, true, Base::Decimal, false), "1.00 kB/s");
}

#[test]
fn speed_binary_bit_symbols() {
    assert_eq!(convert_speed(1024, true, Base::Binary, true), "8.00 Kib/s");
}

#[test]
fn power_plain_watts_round_to_whole_watts() {
    assert_eq!(convert_power(523), "5 W");
    assert_eq!(convert_power(12345), "123 W");
}

#[test]
fn power_scaled_takes_two_decimals() {
    assert_eq!(convert_power(150_000), "1.50 kW");
}

#[test]
fn power_of_zero() {
    assert_eq!(convert_power(0), "0 W");
}

#[test]
fn celsius_to_kelvin_shifts_zero_point() {
    assert_eq!(celsius_to_kelvin(0), 27315);
    assert_eq!(celsius_to_kelvin(10000), 37315);
}

#[test]
fn celsius_to_fahrenheit_scales_and_shifts() {
    assert_eq!(celsius_to_fahrenheit(0), 3200);
    assert_eq!(celsius_to_fahrenheit(10000), 21200);
    assert_eq!(celsius_to_fahrenheit(-4000), -4000);
}

#[test]
fn temperature_display_rounds_per_unit() {
    assert_eq!(convert_temperature(0, TemperatureUnit::Celsius), "0 °C");
    assert_eq!(convert_temperature(0, TemperatureUnit::Kelvin), "273 K");
    assert_eq!(convert_temperature(0, TemperatureUnit::Fahrenheit), "32 °F");
}

#[test]
fn temperature_display_of_negative_reading() {
    assert_eq!(convert_temperature(-2050, TemperatureUnit::Celsius), "-21 °C");
    assert_eq!(convert_temperature(-2050, TemperatureUnit::Kelvin), "253 K");
}

#[test]
fn temperature_display_of_warm_core() {
    assert_eq!(convert_temperature(6550, TemperatureUnit::Celsius), "66 °C");
    assert_eq!(convert_temperature(6550, TemperatureUnit::Fahrenheit), "150 °F");
}
