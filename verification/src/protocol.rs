//! What the daemon reads from and writes to the buds over the Maestro
//! protocol, held as plain values, and how each message changes the
//! published status.

use vstd::prelude::*;

use crate::anc;
use crate::status::{BudStatus, CaseStatus, Status};
use crate::verb::Verb;

verus! {

/// `BatteryState::BATTERY_CHARGING` on the wire.
pub const BATTERY_CHARGING: i32 = 2;

/// ANC mode as the Maestro protocol reports and writes it.
#[derive(Debug, Clone, Copy, PartialEq, Eq, Structural)]
pub enum AncState {
    Unknown(i32),
    Off,
    Active,
    Aware,
    Adaptive,
}

/// A Maestro setting value. The settings that have a row in the panel are
/// held as themselves; every other setting (EQ, gestures, mono output, ...)
/// is `Other`.
#[derive(Debug, Clone, Copy, PartialEq, Eq, Structural)]
pub enum SettingValue {
    CurrentAncrState(AncState),
    MultipointEnable(bool),
    OhdEnable(bool),
    SpeechDetection(bool),
    VolumeExposureNotifications(bool),
    Other,
}

/// The identifiers of the settings the panel shows.
#[derive(Debug, Clone, Copy, PartialEq, Eq, Structural)]
pub enum SettingId {
    CurrentAncrState,
    MultipointEnable,
    OhdEnable,
    SpeechDetection,
    VolumeExposureNotifications,
}

/// One component's battery reading: a level and a `BatteryState` number.
#[derive(Debug, Clone, Copy, PartialEq, Eq, Structural)]
pub struct DeviceBatteryInfo {
    pub level: i32,
    pub state: i32,
}

/// Battery readings of the case and the two buds; each may be absent.
#[derive(Debug, Clone, Copy, PartialEq, Eq, Structural)]
pub struct BatteryInfo {
    pub case: Option<DeviceBatteryInfo>,
    pub left: Option<DeviceBatteryInfo>,
    pub right: Option<DeviceBatteryInfo>,
}

/// Whether each bud sits in the case.
#[derive(Debug, Clone, Copy, PartialEq, Eq, Structural)]
pub struct PlacementInfo {
    pub left_bud_in_case: bool,
    pub right_bud_in_case: bool,
}

/// The parts of a runtime-info message the panel uses.
#[derive(Debug, Clone, Copy, PartialEq, Eq, Structural)]
pub struct RuntimeInfo {
    pub battery_info: Option<BatteryInfo>,
    pub placement: Option<PlacementInfo>,
}

/// The panel's number for an ANC state.
pub open spec fn spec_anc_wire(state: AncState) -> i32 {
    match state {
        AncState::Off => anc::OFF,
        AncState::Active => anc::ACTIVE,
        AncState::Aware => anc::AWARE,
        AncState::Adaptive => anc::ADAPTIVE,
        AncState::Unknown(_) => anc::UNKNOWN,
    }
}

/// The status after the buds report setting `value`: the field of that
/// setting takes its value, and a setting without a panel row changes
/// nothing.
pub open spec fn spec_apply_setting(s: Status, value: SettingValue) -> Status {
    match value {
        SettingValue::CurrentAncrState(state) => Status { anc_mode: spec_anc_wire(state), ..s },
        SettingValue::MultipointEnable(v) => Status { multipoint_enabled: v, ..s },
        SettingValue::OhdEnable(v) => Status { on_head_detection_enabled: v, ..s },
        SettingValue::SpeechDetection(v) => Status { speech_detection_enabled: v, ..s },
        SettingValue::VolumeExposureNotifications(v) => Status {
            volume_exposure_notifications_enabled: v,
            ..s
        },
        SettingValue::Other => s,
    }
}

/// A bud's status from its battery reading: unknown when there is none.
pub open spec fn spec_bud_from(info: Option<DeviceBatteryInfo>, in_case: bool) -> BudStatus {
    match info {
        Some(d) => BudStatus {
            available: true,
            level: d.level,
            charging: d.state == BATTERY_CHARGING,
            in_case,
        },
        None => BudStatus::spec_unknown(),
    }
}

/// The case's status from its battery reading: unknown when there is none.
pub open spec fn spec_case_from(info: Option<DeviceBatteryInfo>) -> CaseStatus {
    match info {
        Some(d) => CaseStatus {
            available: true,
            level: d.level,
            charging: d.state == BATTERY_CHARGING,
        },
        None => CaseStatus::spec_unknown(),
    }
}

/// The status after a runtime-info message. Without battery readings
/// nothing changes. With them, both buds take their readings (a bud counts
/// as out of the case when placement is missing), and the case takes its
/// reading only when one is present: the buds learn the case's charge only
/// while docked, so the last known reading stays otherwise.
pub open spec fn spec_apply_runtime_info(s: Status, info: RuntimeInfo) -> Status {
    let in_case_left = match info.placement {
        Some(p) => p.left_bud_in_case,
        None => false,
    };
    let in_case_right = match info.placement {
        Some(p) => p.right_bud_in_case,
        None => false,
    };
    match info.battery_info {
        Some(battery) => {
            let buds = Status {
                left: spec_bud_from(battery.left, in_case_left),
                right: spec_bud_from(battery.right, in_case_right),
                ..s
            };
            match battery.case {
                Some(c) => Status { case: spec_case_from(Some(c)), ..buds },
                None => buds,
            }
        },
        None => s,
    }
}

/// The setting a verb writes; `Refresh`, and an ANC number that names no
/// mode, write none.
pub open spec fn spec_setting_for_verb(verb: Verb) -> Option<SettingValue> {
    match verb {
        Verb::Anc(mode) => if mode == anc::OFF {
            Some(SettingValue::CurrentAncrState(AncState::Off))
        } else if mode == anc::ACTIVE {
            Some(SettingValue::CurrentAncrState(AncState::Active))
        } else if mode == anc::AWARE {
            Some(SettingValue::CurrentAncrState(AncState::Aware))
        } else if mode == anc::ADAPTIVE {
            Some(SettingValue::CurrentAncrState(AncState::Adaptive))
        } else {
            None
        },
        Verb::Multipoint(v) => Some(SettingValue::MultipointEnable(v)),
        Verb::OnHeadDetection(v) => Some(SettingValue::OhdEnable(v)),
        Verb::SpeechDetection(v) => Some(SettingValue::SpeechDetection(v)),
        Verb::VolumeExposureNotifications(v) => Some(SettingValue::VolumeExposureNotifications(v)),
        Verb::Refresh => None,
    }
}

/// The settings read once when a session starts, in this order, so the
/// panel has values before the first change arrives.
pub open spec fn spec_settings_to_seed() -> Seq<SettingId> {
    seq![
        SettingId::CurrentAncrState,
        SettingId::MultipointEnable,
        SettingId::OhdEnable,
        SettingId::SpeechDetection,
        SettingId::VolumeExposureNotifications,
    ]
}

pub fn anc_wire(state: AncState) -> (r: i32)
    ensures
        r == spec_anc_wire(state),
{
    match state {
        AncState::Off => anc::OFF,
        AncState::Active => anc::ACTIVE,
        AncState::Aware => anc::AWARE,
        AncState::Adaptive => anc::ADAPTIVE,
        AncState::Unknown(_) => anc::UNKNOWN,
    }
}

/// Applies a setting the buds reported.
pub fn apply_setting(status: &mut Status, value: SettingValue)
    ensures
        *final(status) == spec_apply_setting(*old(status), value),
{
    match value {
        SettingValue::CurrentAncrState(state) => status.anc_mode = anc_wire(state),
        SettingValue::MultipointEnable(v) => status.multipoint_enabled = v,
        SettingValue::OhdEnable(v) => status.on_head_detection_enabled = v,
        SettingValue::SpeechDetection(v) => status.speech_detection_enabled = v,
        SettingValue::VolumeExposureNotifications(v) => status.volume_exposure_notifications_enabled =
        v,
        SettingValue::Other => {},
    }
}

pub fn bud_from(info: Option<DeviceBatteryInfo>, in_case: bool) -> (r: BudStatus)
    ensures
        r == spec_bud_from(info, in_case),
{
    match info {
        Some(d) => BudStatus {
            available: true,
            level: d.level,
            charging: d.state == BATTERY_CHARGING,
            in_case,
        },
        None => BudStatus::unknown(),
    }
}

pub fn case_from(info: Option<DeviceBatteryInfo>) -> (r: CaseStatus)
    ensures
        r == spec_case_from(info),
{
    match info {
        Some(d) => CaseStatus {
            available: true,
            level: d.level,
            charging: d.state == BATTERY_CHARGING,
        },
        None => CaseStatus::unknown(),
    }
}

/// Applies a runtime-info message the buds sent.
pub fn apply_runtime_info(status: &mut Status, info: RuntimeInfo)
    ensures
        *final(status) == spec_apply_runtime_info(*old(status), info),
{
    let in_case_left = match info.placement {
        Some(p) => p.left_bud_in_case,
        None => false,
    };
    let in_case_right = match info.placement {
        Some(p) => p.right_bud_in_case,
        None => false,
    };
    if let Some(battery) = info.battery_info {
        status.left = bud_from(battery.left, in_case_left);
        status.right = bud_from(battery.right, in_case_right);
        if let Some(c) = battery.case {
            status.case = case_from(Some(c));
        }
    }
}

/// Maps a control verb onto the setting it writes.
pub fn setting_for_verb(verb: Verb) -> (r: Option<SettingValue>)
    ensures
        r == spec_setting_for_verb(verb),
{
    match verb {
        Verb::Anc(mode) => {
            let state = if mode == anc::OFF {
                AncState::Off
            } else if mode == anc::ACTIVE {
                AncState::Active
            } else if mode == anc::AWARE {
                AncState::Aware
            } else if mode == anc::ADAPTIVE {
                AncState::Adaptive
            } else {
                return None;
            };
            Some(SettingValue::CurrentAncrState(state))
        },
        Verb::Multipoint(v) => Some(SettingValue::MultipointEnable(v)),
        Verb::OnHeadDetection(v) => Some(SettingValue::OhdEnable(v)),
        Verb::SpeechDetection(v) => Some(SettingValue::SpeechDetection(v)),
        Verb::VolumeExposureNotifications(v) => Some(SettingValue::VolumeExposureNotifications(v)),
        Verb::Refresh => None,
    }
}

/// The settings to read when a session starts.
pub fn settings_to_seed() -> (r: Vec<SettingId>)
    ensures
        r@ == spec_settings_to_seed(),
{
    let r = vec![
        SettingId::CurrentAncrState,
        SettingId::MultipointEnable,
        SettingId::OhdEnable,
        SettingId::SpeechDetection,
        SettingId::VolumeExposureNotifications,
    ];
    assert(r@ =~= spec_settings_to_seed());
    r
}

} // verus!
