use thumbvol::config::Config;
use thumbvol::platform::windows::{
    current_wheel_config, decode_notches, hook_intercepts, menu_command, quote_run_value,
    sensitivity_menu_items, to_wide_fixed, to_wide_null, volume_key_strokes, wheel_step_batch,
    window_action, KeyStroke, LiveSettings, MenuCommand, StepBatch, WindowAction,
    KEYEVENTF_KEYUP, VK_VOLUME_DOWN, VK_VOLUME_UP, WM_COMMAND, WM_DESTROY, WM_LBUTTONUP,
    WM_MOUSEHWHEEL, WM_RBUTTONUP, WM_TRAYICON, WM_VOLUME_STEPS,
};
use thumbvol::platform::windows::{
    tray_menu_items, TrayMenuItem, ID_MENU_ABOUT, ID_MENU_EXIT, ID_MENU_INVERT, ID_MENU_RELOAD,
};
use thumbvol::wheel::{VolumeStep, WheelAccumulator, WheelConfigError};

fn pack(delta: i16) -> u32 {
    (delta as u16 as u32) << 16
}

// --- correctness ---

#[test]
fn one_notch_forward_decodes_to_positive_one() {
    assert_eq!(decode_notches(pack(120)), 1);
}

#[test]
fn one_notch_backward_decodes_to_negative_one() {
    assert_eq!(decode_notches(pack(-120)), -1);
}

#[test]
fn fast_spin_decodes_to_multiple_notches() {
    assert_eq!(decode_notches(pack(360)), 3);
    assert_eq!(decode_notches(pack(-240)), -2);
}

// --- misuse: degenerate mouseData ---

#[test]
fn zero_delta_decodes_to_zero() {
    assert_eq!(decode_notches(pack(0)), 0);
}

#[test]
fn low_word_bits_are_ignored() {
    assert_eq!(decode_notches(pack(120) | 0xBEEF), 1);
}

// --- further cases ---

#[test]
fn partial_notches_round_toward_zero() {
    assert_eq!(decode_notches(pack(119)), 0);
    assert_eq!(decode_notches(pack(-119)), 0);
    assert_eq!(decode_notches(pack(-250)), -2);
    assert_eq!(decode_notches(pack(i16::MIN)), -273);
    assert_eq!(decode_notches(pack(i16::MAX) | 0xFFFF), 273);
}

#[test]
fn hook_intercepts_only_horizontal_wheel_messages() {
    assert!(hook_intercepts(0, WM_MOUSEHWHEEL as usize));
    assert!(!hook_intercepts(-1, WM_MOUSEHWHEEL as usize));
    assert!(!hook_intercepts(0, 0x020A)); // vertical wheel
}

#[test]
fn hook_batches_the_steps_of_one_feed() {
    let mut acc = WheelAccumulator::new(1, false, 2).unwrap();
    assert_eq!(
        wheel_step_batch(&mut acc, pack(240)),
        Some(StepBatch { up: true, count: 4 })
    );
    assert_eq!(
        wheel_step_batch(&mut acc, pack(-120)),
        Some(StepBatch { up: false, count: 2 })
    );
    assert_eq!(wheel_step_batch(&mut acc, pack(60)), None);
    let mut slow = WheelAccumulator::new(2, false, 1).unwrap();
    assert_eq!(wheel_step_batch(&mut slow, pack(120)), None);
    assert_eq!(
        wheel_step_batch(&mut slow, pack(120)),
        Some(StepBatch { up: true, count: 1 })
    );
}

#[test]
fn tray_window_messages() {
    assert_eq!(
        window_action(WM_TRAYICON, 1, WM_RBUTTONUP as isize),
        WindowAction::ShowTrayMenu
    );
    assert_eq!(
        window_action(WM_TRAYICON, 1, WM_LBUTTONUP as isize),
        WindowAction::ShowTrayMenu
    );
    assert_eq!(window_action(WM_TRAYICON, 1, 0x0200), WindowAction::Handled);
    assert_eq!(
        window_action(WM_VOLUME_STEPS, 1, 4),
        WindowAction::SendVolumeKeys { step: VolumeStep::Up, count: 4 }
    );
    assert_eq!(
        window_action(WM_VOLUME_STEPS, 0, 2),
        WindowAction::SendVolumeKeys { step: VolumeStep::Down, count: 2 }
    );
    assert_eq!(
        window_action(WM_VOLUME_STEPS, 0, -3),
        WindowAction::SendVolumeKeys { step: VolumeStep::Down, count: 0 }
    );
    assert_eq!(
        window_action(WM_COMMAND, 0x0001_0004, 0),
        WindowAction::Command(MenuCommand::ToggleInvert)
    );
    assert_eq!(window_action(WM_COMMAND, 99, 0), WindowAction::Handled);
    assert_eq!(window_action(WM_DESTROY, 0, 0), WindowAction::PostQuit);
    assert_eq!(window_action(0x000F, 0, 0), WindowAction::Default);
}

#[test]
fn menu_ids() {
    assert_eq!(menu_command(1), Some(MenuCommand::Reload));
    assert_eq!(menu_command(2), Some(MenuCommand::About));
    assert_eq!(menu_command(3), Some(MenuCommand::Exit));
    assert_eq!(menu_command(4), Some(MenuCommand::ToggleInvert));
    assert_eq!(menu_command(10), None);
    assert_eq!(menu_command(11), Some(MenuCommand::SetSensitivity(1)));
    assert_eq!(menu_command(15), Some(MenuCommand::SetSensitivity(5)));
    assert_eq!(menu_command(16), None);
    assert_eq!(menu_command(0xABCD_000C), Some(MenuCommand::SetSensitivity(2)));
}

#[test]
fn sensitivity_submenu_checks_the_current_level() {
    let items = sensitivity_menu_items(3);
    assert_eq!(items.len(), 5);
    for (i, item) in items.iter().enumerate() {
        assert_eq!(item.level, i as i32 + 1);
        assert_eq!(item.id, 11 + i);
        assert_eq!(item.label, (i + 1).to_string());
        assert_eq!(item.checked, i == 2);
    }
    assert!(sensitivity_menu_items(9).iter().all(|item| !item.checked));
}

#[test]
fn volume_step_keystrokes() {
    assert_eq!(
        volume_key_strokes(VolumeStep::Up),
        vec![
            KeyStroke { virtual_key: VK_VOLUME_UP, flags: 0 },
            KeyStroke { virtual_key: VK_VOLUME_UP, flags: KEYEVENTF_KEYUP },
        ]
    );
    assert_eq!(volume_key_strokes(VolumeStep::Down)[1].virtual_key, VK_VOLUME_DOWN);
}

#[test]
fn run_value_is_quoted() {
    let value = quote_run_value("C:\\Program Files\\thumbvol\\thumbvol.exe");
    assert_eq!(value, "\"C:\\Program Files\\thumbvol\\thumbvol.exe\"");
    assert!(value.starts_with('"') && value.ends_with('"'));
}

#[test]
fn wide_strings() {
    assert_eq!(to_wide_null("ab"), vec![97, 98, 0]);
    assert_eq!(to_wide_null("\u{1F50A}"), vec![0xD83D, 0xDD0A, 0]);
    assert_eq!(to_wide_fixed("thumbvol", 4), vec![116, 104, 117, 0]);
    assert_eq!(to_wide_fixed("ab", 5), vec![97, 98, 0, 0, 0]);
    assert_eq!(to_wide_fixed("ab", 1), vec![0]);
}

#[test]
fn live_settings_start_from_a_valid_config() {
    let mut bad = Config::default();
    bad.wheel.sensitivity = 0;
    assert_eq!(
        LiveSettings::new(bad).err(),
        Some(WheelConfigError::InvalidPressesPerStep(0))
    );
    let live = LiveSettings::new(Config::default()).unwrap();
    assert_eq!(live.config(), &Config::default());
    assert_eq!(current_wheel_config(Some(&live)), (false, 2));
    assert_eq!(current_wheel_config(None), (false, 2));
}

#[test]
fn toggling_invert_applies_and_returns_the_config_to_save() {
    let mut config = Config::default();
    config.linux.device_path = Some("/dev/input/event3".to_string());
    let mut live = LiveSettings::new(config.clone()).unwrap();
    let (saved, applied) = live.toggle_invert();
    assert_eq!(applied, Ok(()));
    assert!(saved.wheel.invert);
    assert_eq!(saved.linux.device_path.as_deref(), Some("/dev/input/event3"));
    assert_eq!(live.config(), &saved);
    // The live accumulator now runs inverted: a forward notch lowers volume.
    assert_eq!(
        live.wheel_step_batch(pack(120)),
        Some(StepBatch { up: false, count: 2 })
    );
    let (saved_again, _) = live.toggle_invert();
    assert_eq!(saved_again, config);
}

#[test]
fn invalid_settings_are_saved_but_not_applied() {
    let mut live = LiveSettings::new(Config::default()).unwrap();
    assert_eq!(live.set_sensitivity(4).1, Ok(()));
    assert_eq!(current_wheel_config(Some(&live)), (false, 4));
    let (saved, applied) = live.set_sensitivity(0);
    assert_eq!(applied, Err(WheelConfigError::InvalidPressesPerStep(0)));
    assert_eq!(saved.wheel.sensitivity, 0);
    assert_eq!(live.config().wheel.sensitivity, 4);
    assert_eq!(
        live.wheel_step_batch(pack(-120)),
        Some(StepBatch { up: false, count: 4 })
    );
}

#[test]
fn applying_a_bad_config_keeps_the_previous_one() {
    let mut live = LiveSettings::new(Config::default()).unwrap();
    let mut bad = Config::default();
    bad.wheel.notches_per_step = -1;
    assert_eq!(
        live.apply_config(bad),
        Err(WheelConfigError::InvalidNotchesPerStep(-1))
    );
    assert_eq!(live.config(), &Config::default());
    let mut good = Config::default();
    good.wheel.notches_per_step = 2;
    assert_eq!(live.apply_config(good.clone()), Ok(()));
    assert_eq!(live.config(), &good);
    assert_eq!(live.wheel_step_batch(pack(120)), None);
}

#[test]
fn tray_menu_layout() {
    let entry = |id: usize, label: &str, checked: bool| TrayMenuItem::Entry {
        id,
        label: label.to_string(),
        checked,
    };
    assert_eq!(
        tray_menu_items(true),
        vec![
            TrayMenuItem::Submenu { label: "Sensitivity".to_string() },
            entry(ID_MENU_INVERT, "Invert direction", true),
            TrayMenuItem::Separator,
            entry(ID_MENU_RELOAD, "Reload", false),
            entry(ID_MENU_ABOUT, "About", false),
            TrayMenuItem::Separator,
            entry(ID_MENU_EXIT, "Exit", false),
        ]
    );
    assert_eq!(tray_menu_items(false)[1], entry(ID_MENU_INVERT, "Invert direction", false));
}
