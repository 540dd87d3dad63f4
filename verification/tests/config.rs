use typewinner::commands::{update_err_rate, update_type_speed};
use typewinner::config::{ConfigError, TypeConfig, UpdateSpeedArgs, MAX_DELAY};

#[test]
fn default_config_has_the_initial_values() {
    let config = TypeConfig::default();
    assert_eq!(config.min_delay(), 20);
    assert_eq!(config.max_delay(), 25);
    assert_eq!(config.error_rate(), 0);
}

#[test]
fn max_delay_is_400() {
    assert_eq!(MAX_DELAY, 400);
}

#[test]
fn speed_is_mirrored_into_delays() {
    let mut config = TypeConfig::default();
    assert!(config.set_speed(UpdateSpeedArgs { min: 10, max: 30 }).is_ok());
    assert_eq!(config.min_delay(), 370);
    assert_eq!(config.max_delay(), 390);
    assert!(config.min_delay() <= config.max_delay());
}

#[test]
fn speed_bounds_at_the_edges() {
    let mut config = TypeConfig::default();
    assert!(config.set_speed(UpdateSpeedArgs { min: 0, max: 400 }).is_ok());
    assert_eq!((config.min_delay(), config.max_delay()), (0, 400));
    assert!(config.set_speed(UpdateSpeedArgs { min: 400, max: 400 }).is_ok());
    assert_eq!((config.min_delay(), config.max_delay()), (0, 0));
    assert!(config.set_speed(UpdateSpeedArgs { min: 0, max: 0 }).is_ok());
    assert_eq!((config.min_delay(), config.max_delay()), (400, 400));
}

#[test]
fn every_speed_range_in_range_is_mirrored() {
    let mut min = 0;
    while min <= 400 {
        let mut max = min;
        while max <= 400 {
            let mut config = TypeConfig::default();
            assert!(config.set_speed(UpdateSpeedArgs { min, max }).is_ok());
            assert_eq!(config.min_delay(), 400 - max);
            assert_eq!(config.max_delay(), 400 - min);
            assert!(config.min_delay() <= config.max_delay());
            max += 37;
        }
        min += 41;
    }
}

#[test]
fn speed_above_max_delay_is_refused() {
    let mut config = TypeConfig::default();
    let res = config.set_speed(UpdateSpeedArgs { min: 10, max: 401 });
    assert_eq!(res, Err(ConfigError::SpeedOutOfRange { min: 10, max: 401 }));
    assert_eq!(config, TypeConfig::default());
}

#[test]
fn speed_with_min_above_max_is_refused() {
    let mut config = TypeConfig::default();
    let res = config.set_speed(UpdateSpeedArgs { min: 30, max: 10 });
    assert_eq!(res, Err(ConfigError::SpeedOutOfRange { min: 30, max: 10 }));
    assert_eq!(config, TypeConfig::default());
}

#[test]
fn refused_speed_command_changes_nothing() {
    let mut config = TypeConfig::new(5, 7, 9).unwrap();
    let res = update_type_speed(UpdateSpeedArgs { min: 0, max: u32::MAX }, &mut config);
    assert_eq!(res, Err(ConfigError::SpeedOutOfRange { min: 0, max: u32::MAX }));
    assert_eq!(config, TypeConfig::new(5, 7, 9).unwrap());
}

#[test]
fn error_rate_is_stored_verbatim() {
    let mut config = TypeConfig::default();
    config.set_error_rate(55);
    assert_eq!(config.error_rate(), 55);
    config.set_error_rate(u32::MAX);
    assert_eq!(config.error_rate(), u32::MAX);
    assert_eq!((config.min_delay(), config.max_delay()), (20, 25));
}

#[test]
fn error_rate_survives_a_speed_update() {
    let mut config = TypeConfig::default();
    assert!(update_err_rate(55, &mut config).is_ok());
    assert!(update_type_speed(UpdateSpeedArgs { min: 10, max: 30 }, &mut config).is_ok());
    assert_eq!(config.error_rate(), 55);
    assert_eq!(config.min_delay(), 370);
    assert_eq!(config.max_delay(), 390);
}

#[test]
fn speed_survives_an_error_rate_update() {
    let mut config = TypeConfig::default();
    assert!(update_type_speed(UpdateSpeedArgs { min: 10, max: 30 }, &mut config).is_ok());
    assert!(update_err_rate(7, &mut config).is_ok());
    assert_eq!(config, TypeConfig::new(370, 390, 7).unwrap());
}

#[test]
fn new_checks_the_delay_bounds() {
    assert!(TypeConfig::new(0, 0, 0).is_some());
    assert!(TypeConfig::new(400, 400, 1).is_some());
    assert!(TypeConfig::new(3, 2, 0).is_none());
    assert!(TypeConfig::new(0, 401, 0).is_none());
    let config = TypeConfig::new(1, 2, 3).unwrap();
    assert_eq!((config.min_delay(), config.max_delay(), config.error_rate()), (1, 2, 3));
}
