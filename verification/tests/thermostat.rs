use aht20_thermostat::thermostat::{
    TemperatureUnits, ThermostatBuilder, ThermostatCommand, ThermostatMode,
};

#[test]
fn test_thermostat_builder_defaults() {
    let thermostat = ThermostatBuilder::new().build();
    assert_eq!(thermostat.target_temperature, 2000);
    assert_eq!(thermostat.mode, ThermostatMode::Off);
}

#[test]
fn test_thermostat_builder_with_units() {
    let thermostat = ThermostatBuilder::new()
        .with_units(TemperatureUnits::Fahrenheit)
        .build();
    assert_eq!(thermostat.temperature_units, TemperatureUnits::Fahrenheit);
}

#[test]
fn test_convert_temperature_to_std_units() {
    // Standard temperature units for the thermostat are Celsius
    let mut thermostat = ThermostatBuilder::new()
        .with_units(TemperatureUnits::Fahrenheit)
        .build();

    // when units are Fahrenheit, the temperature should be converted to Celsius
    assert_eq!(thermostat.convert_temperature_to_std_units(6800), 2000);

    // when units are Celsius, the temperature should be returned as is
    thermostat.temperature_units = TemperatureUnits::Celsius;
    assert_eq!(thermostat.convert_temperature_to_std_units(2000), 2000);
}

#[test]
fn test_convert_temperature_from_std_units() {
    // Standard temperature units for the thermostat are Celsius
    let mut thermostat = ThermostatBuilder::new()
        .with_units(TemperatureUnits::Fahrenheit)
        .build();

    // when units are Fahrenheit, the temperature should be to Fahrenheit
    assert_eq!(thermostat.convert_temperature_from_std_units(2000), 6800);

    // when units are Celsius, the temperature should be returned as is
    thermostat.temperature_units = TemperatureUnits::Celsius;
    assert_eq!(thermostat.convert_temperature_from_std_units(2000), 2000);
}

#[test]
fn test_thermostat_command_parse() {
    let command = ThermostatCommand::parse("temperature 20.0").unwrap();
    assert_eq!(ThermostatCommand::SetTemperature(2000), command);

    let command = ThermostatCommand::parse("temperature");
    assert_eq!(Err(()), command);

    let command = ThermostatCommand::parse("temperature one");
    assert_eq!(Err(()), command);

    let command = ThermostatCommand::parse("temperature 20.0 30.0");
    assert_eq!(Err(()), command);
}

#[test]
fn parse_accepts_whitespace_signs_and_precision() {
    assert_eq!(
        ThermostatCommand::parse("  temperature \t 7.5  "),
        Ok(ThermostatCommand::SetTemperature(750))
    );
    assert_eq!(
        ThermostatCommand::parse("temperature 20"),
        Ok(ThermostatCommand::SetTemperature(2000))
    );
    assert_eq!(
        ThermostatCommand::parse("temperature -3.25"),
        Ok(ThermostatCommand::SetTemperature(-325))
    );
    assert_eq!(
        ThermostatCommand::parse("temperature 0.07"),
        Ok(ThermostatCommand::SetTemperature(7))
    );
}

#[test]
fn parse_rejects_malformed_commands() {
    assert_eq!(ThermostatCommand::parse(""), Err(()));
    assert_eq!(ThermostatCommand::parse("temp 20"), Err(()));
    assert_eq!(ThermostatCommand::parse("temperatures 20"), Err(()));
    assert_eq!(ThermostatCommand::parse("temperature 20."), Err(()));
    assert_eq!(ThermostatCommand::parse("temperature 20..5"), Err(()));
    assert_eq!(ThermostatCommand::parse("temperature 20.123"), Err(()));
    assert_eq!(ThermostatCommand::parse("temperature 12345678"), Err(()));
    assert_eq!(ThermostatCommand::parse("temperature -"), Err(()));
    assert_eq!(ThermostatCommand::parse("temperature --5"), Err(()));
}

#[test]
fn execute_sets_target_and_keeps_mode_and_units() {
    let mut thermostat = ThermostatBuilder::new().build();
    thermostat.execute(ThermostatCommand::SetTemperature(2500));
    assert_eq!(thermostat.target_temperature, 2500);
    assert_eq!(thermostat.mode, ThermostatMode::Off);
    assert_eq!(thermostat.temperature_units, TemperatureUnits::Celsius);
    assert!(thermostat.run().is_ok());
    assert_eq!(thermostat.target_temperature, 2500);
}

#[test]
fn defaults_are_celsius_and_off() {
    assert_eq!(TemperatureUnits::default(), TemperatureUnits::Celsius);
    assert_eq!(ThermostatMode::default(), ThermostatMode::Off);
    ThermostatBuilder::new().with_sensor();
}

#[test]
fn conversions_round_toward_zero_on_inexact_values() {
    let thermostat = ThermostatBuilder::new()
        .with_units(TemperatureUnits::Fahrenheit)
        .build();
    // 0.01 C is 0.018 F; scaled by hundredths the quotient truncates
    assert_eq!(thermostat.convert_temperature_from_std_units(1), 3201);
    assert_eq!(thermostat.convert_temperature_from_std_units(-1), 3199);
    // 32.01 F is 0.00555.. C
    assert_eq!(thermostat.convert_temperature_to_std_units(3201), 0);
    assert_eq!(thermostat.convert_temperature_to_std_units(3199), 0);
}
