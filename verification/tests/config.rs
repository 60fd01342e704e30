use thumbvol::config::{Config, ConfigError, GeneralConfig, LinuxConfig, WheelConfig};

#[test]
fn sensitivity_defaults_to_two() {
    assert_eq!(Config::default().wheel.sensitivity, 2);
}

#[test]
fn defaults_of_every_section() {
    let config = Config::default();
    assert_eq!(config.wheel.notches_per_step, 1);
    assert!(!config.wheel.invert);
    assert!(config.general.autostart);
    assert_eq!(config.linux.device_path, None);
    assert_eq!(
        config,
        Config {
            wheel: WheelConfig::default(),
            general: GeneralConfig::default(),
            linux: LinuxConfig::default(),
        }
    );
}

fn with_wheel(notches_per_step: i32, sensitivity: i32) -> Config {
    let mut config = Config::default();
    config.wheel.notches_per_step = notches_per_step;
    config.wheel.sensitivity = sensitivity;
    config
}

#[test]
fn valid_config_is_accepted_unchanged() {
    let mut config = with_wheel(3, 4);
    config.linux.device_path = Some("/dev/input/event7".to_string());
    assert_eq!(config.validate(), Ok(()));
    assert_eq!(config.clone().validated(), Ok(config));
}

#[test]
fn non_positive_notches_are_rejected() {
    assert_eq!(
        with_wheel(0, 2).validated(),
        Err(ConfigError::InvalidNotchesPerStep(0))
    );
    assert_eq!(
        with_wheel(-2, 2).validate(),
        Err(ConfigError::InvalidNotchesPerStep(-2))
    );
}

#[test]
fn non_positive_sensitivity_is_rejected() {
    assert_eq!(
        with_wheel(1, 0).validated(),
        Err(ConfigError::InvalidSensitivity(0))
    );
    assert_eq!(
        with_wheel(1, -3).validate(),
        Err(ConfigError::InvalidSensitivity(-3))
    );
}

#[test]
fn notches_are_checked_before_sensitivity() {
    assert_eq!(
        with_wheel(-1, -1).validate(),
        Err(ConfigError::InvalidNotchesPerStep(-1))
    );
}

#[test]
fn config_error_messages() {
    assert_eq!(
        ConfigError::InvalidNotchesPerStep(-2).to_string(),
        "wheel.notches_per_step must be positive, got -2"
    );
    assert_eq!(
        ConfigError::InvalidSensitivity(i32::MIN).to_string(),
        "wheel.sensitivity must be positive, got -2147483648"
    );
    assert_eq!(
        ConfigError::Read("denied".to_string()).to_string(),
        "cannot read config file: denied"
    );
    assert_eq!(
        ConfigError::Write("full".to_string()).to_string(),
        "cannot write config file: full"
    );
    assert_eq!(
        ConfigError::Parse("bad".to_string()).to_string(),
        "invalid config syntax: bad"
    );
    assert_eq!(
        ConfigError::Serialize("x".to_string()).to_string(),
        "cannot serialize config: x"
    );
}
