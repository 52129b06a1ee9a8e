use pixelbuds::anc;
use pixelbuds::protocol::{
    anc_wire, apply_runtime_info, apply_setting, bud_from, case_from, setting_for_verb,
    settings_to_seed, AncState, BatteryInfo, DeviceBatteryInfo, PlacementInfo, RuntimeInfo,
    SettingId, SettingValue,
};
use pixelbuds::status::{BudStatus, CaseStatus, Status, SCHEMA_VERSION};
use pixelbuds::verb::Verb;

fn reading(level: i32, state: i32) -> Option<DeviceBatteryInfo> {
    Some(DeviceBatteryInfo { level, state })
}

#[test]
fn unknown_readings_are_unavailable() {
    assert_eq!(
        BudStatus::unknown(),
        BudStatus { available: false, level: -1, charging: false, in_case: false }
    );
    assert_eq!(CaseStatus::unknown(), CaseStatus { available: false, level: -1, charging: false });
    assert_eq!(
        BudStatus::default(),
        BudStatus { available: false, level: 0, charging: false, in_case: false }
    );
    assert_eq!(CaseStatus::default(), CaseStatus { available: false, level: 0, charging: false });
}

#[test]
fn default_status_is_disconnected_and_unknown() {
    let s = Status::default();
    assert_eq!(s.schema_version, SCHEMA_VERSION);
    assert_eq!(s.schema_version, 1);
    assert!(!s.connected);
    assert_eq!(s.device_name, "");
    assert_eq!(s.model_name, "");
    assert_eq!(s.anc_mode, anc::UNKNOWN);
    assert!(!s.multipoint_enabled);
    assert!(!s.on_head_detection_enabled);
    assert!(!s.speech_detection_enabled);
    assert!(!s.volume_exposure_notifications_enabled);
    assert_eq!(s.left, BudStatus::unknown());
    assert_eq!(s.right, BudStatus::unknown());
    assert_eq!(s.case, CaseStatus::unknown());
}

#[test]
fn attempt_names_the_device() {
    let mut s = Status::default();
    s.anc_mode = anc::AWARE;
    s.begin_attempt(Some("Test Buds".to_string()));
    assert_eq!(s.device_name, "Test Buds");
    assert_eq!(s.model_name, "Pixel Buds Pro 2");
    assert_eq!(s.anc_mode, anc::AWARE);
    s.begin_attempt(None);
    assert_eq!(s.device_name, "");
    s.set_connected(true);
    assert!(s.connected);
    s.set_connected(false);
    assert!(!s.connected);
    assert_eq!(s.model_name, "Pixel Buds Pro 2");
}

#[test]
fn anc_states_keep_their_wire_numbers() {
    assert_eq!(anc_wire(AncState::Off), 1);
    assert_eq!(anc_wire(AncState::Active), 2);
    assert_eq!(anc_wire(AncState::Aware), 3);
    assert_eq!(anc_wire(AncState::Adaptive), 4);
    assert_eq!(anc_wire(AncState::Unknown(7)), 0);
}

#[test]
fn settings_update_their_own_field() {
    let mut s = Status::default();
    apply_setting(&mut s, SettingValue::CurrentAncrState(AncState::Adaptive));
    assert_eq!(s.anc_mode, anc::ADAPTIVE);
    apply_setting(&mut s, SettingValue::MultipointEnable(true));
    assert!(s.multipoint_enabled);
    apply_setting(&mut s, SettingValue::OhdEnable(true));
    assert!(s.on_head_detection_enabled);
    apply_setting(&mut s, SettingValue::SpeechDetection(true));
    assert!(s.speech_detection_enabled);
    apply_setting(&mut s, SettingValue::VolumeExposureNotifications(true));
    assert!(s.volume_exposure_notifications_enabled);
    let before = s.clone();
    apply_setting(&mut s, SettingValue::Other);
    assert_eq!(s, before);
    apply_setting(&mut s, SettingValue::CurrentAncrState(AncState::Unknown(9)));
    assert_eq!(s.anc_mode, anc::UNKNOWN);
    assert_eq!(s.left, BudStatus::unknown());
}

#[test]
fn reapplying_a_setting_changes_nothing() {
    let mut s = Status::default();
    apply_setting(&mut s, SettingValue::OhdEnable(true));
    let once = s.clone();
    apply_setting(&mut s, SettingValue::OhdEnable(true));
    assert_eq!(s, once);
}

#[test]
fn battery_readings_become_statuses() {
    assert_eq!(
        bud_from(reading(74, 2), true),
        BudStatus { available: true, level: 74, charging: true, in_case: true }
    );
    assert_eq!(
        bud_from(reading(50, 1), false),
        BudStatus { available: true, level: 50, charging: false, in_case: false }
    );
    assert_eq!(bud_from(None, true), BudStatus::unknown());
    assert_eq!(case_from(reading(88, 2)), CaseStatus { available: true, level: 88, charging: true });
    assert_eq!(case_from(reading(88, 3)), CaseStatus { available: true, level: 88, charging: false });
    assert_eq!(case_from(None), CaseStatus::unknown());
}

#[test]
fn runtime_info_updates_battery_and_placement() {
    let mut s = Status::default();
    let info = RuntimeInfo {
        battery_info: Some(BatteryInfo { case: reading(60, 2), left: reading(74, 2), right: None }),
        placement: Some(PlacementInfo { left_bud_in_case: true, right_bud_in_case: false }),
    };
    apply_runtime_info(&mut s, info);
    assert_eq!(s.left, BudStatus { available: true, level: 74, charging: true, in_case: true });
    assert_eq!(s.right, BudStatus::unknown());
    assert_eq!(s.case, CaseStatus { available: true, level: 60, charging: true });
    assert_eq!(s.anc_mode, anc::UNKNOWN);
}

#[test]
fn undocked_case_keeps_last_reading() {
    let mut s = Status::default();
    s.case = CaseStatus { available: true, level: 60, charging: false };
    let info = RuntimeInfo {
        battery_info: Some(BatteryInfo { case: None, left: reading(70, 1), right: reading(71, 1) }),
        placement: None,
    };
    apply_runtime_info(&mut s, info);
    assert_eq!(s.case, CaseStatus { available: true, level: 60, charging: false });
    assert_eq!(s.left, BudStatus { available: true, level: 70, charging: false, in_case: false });
    assert_eq!(s.right, BudStatus { available: true, level: 71, charging: false, in_case: false });
}

#[test]
fn runtime_info_without_battery_changes_nothing() {
    let mut s = Status::default();
    s.left = BudStatus { available: true, level: 10, charging: false, in_case: false };
    let before = s.clone();
    let info = RuntimeInfo {
        battery_info: None,
        placement: Some(PlacementInfo { left_bud_in_case: true, right_bud_in_case: true }),
    };
    apply_runtime_info(&mut s, info);
    assert_eq!(s, before);
}

#[test]
fn verbs_map_onto_settings() {
    assert_eq!(
        setting_for_verb(Verb::Anc(anc::OFF)),
        Some(SettingValue::CurrentAncrState(AncState::Off))
    );
    assert_eq!(
        setting_for_verb(Verb::Anc(anc::ACTIVE)),
        Some(SettingValue::CurrentAncrState(AncState::Active))
    );
    assert_eq!(
        setting_for_verb(Verb::Anc(anc::AWARE)),
        Some(SettingValue::CurrentAncrState(AncState::Aware))
    );
    assert_eq!(
        setting_for_verb(Verb::Anc(anc::ADAPTIVE)),
        Some(SettingValue::CurrentAncrState(AncState::Adaptive))
    );
    assert_eq!(setting_for_verb(Verb::Anc(anc::UNKNOWN)), None);
    assert_eq!(setting_for_verb(Verb::Anc(17)), None);
    assert_eq!(setting_for_verb(Verb::Multipoint(true)), Some(SettingValue::MultipointEnable(true)));
    assert_eq!(setting_for_verb(Verb::OnHeadDetection(false)), Some(SettingValue::OhdEnable(false)));
    assert_eq!(setting_for_verb(Verb::SpeechDetection(true)), Some(SettingValue::SpeechDetection(true)));
    assert_eq!(
        setting_for_verb(Verb::VolumeExposureNotifications(false)),
        Some(SettingValue::VolumeExposureNotifications(false))
    );
    assert_eq!(setting_for_verb(Verb::Refresh), None);
}

#[test]
fn written_setting_shows_in_status() {
    let mut s = Status::default();
    let setting = setting_for_verb(Verb::Anc(anc::AWARE)).unwrap();
    apply_setting(&mut s, setting);
    assert_eq!(s.anc_mode, anc::AWARE);
    let setting = setting_for_verb(Verb::SpeechDetection(true)).unwrap();
    apply_setting(&mut s, setting);
    assert!(s.speech_detection_enabled);
}

#[test]
fn seeds_the_five_panel_settings() {
    assert_eq!(
        settings_to_seed(),
        vec![
            SettingId::CurrentAncrState,
            SettingId::MultipointEnable,
            SettingId::OhdEnable,
            SettingId::SpeechDetection,
            SettingId::VolumeExposureNotifications,
        ]
    );
}
