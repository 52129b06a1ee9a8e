//! The status the daemon publishes: per-bud and case battery, ANC mode and
//! the four toggles, plus the transitions the connection loop applies to it.

use vstd::prelude::*;

use crate::anc;

verus! {

/// Highest schema version this crate writes.
pub const SCHEMA_VERSION: u32 = 1;

/// The model name every published status carries; the protocol has no
/// on-wire product name to read instead.
pub open spec fn model_name_spec() -> Seq<char> {
    "Pixel Buds Pro 2"@
}

/// Battery state of one bud.
#[derive(Debug, Clone, Copy, PartialEq, Eq, Structural)]
pub struct BudStatus {
    pub available: bool,
    pub level: i32,
    pub charging: bool,
    pub in_case: bool,
}

impl BudStatus {
    /// The reading of a bud nothing has been heard from.
    pub open spec fn spec_unknown() -> BudStatus {
        BudStatus { available: false, level: -1i32, charging: false, in_case: false }
    }

    pub fn unknown() -> (r: Self)
        ensures
            r == Self::spec_unknown(),
    {
        BudStatus { available: false, level: -1, charging: false, in_case: false }
    }
}

impl Default for BudStatus {
    fn default() -> (r: Self)
        ensures
            r == (BudStatus { available: false, level: 0i32, charging: false, in_case: false }),
    {
        BudStatus { available: false, level: 0, charging: false, in_case: false }
    }
}

/// Battery state of the case.
#[derive(Debug, Clone, Copy, PartialEq, Eq, Structural)]
pub struct CaseStatus {
    pub available: bool,
    pub level: i32,
    pub charging: bool,
}

impl CaseStatus {
    /// The reading of a case nothing has been heard from.
    pub open spec fn spec_unknown() -> CaseStatus {
        CaseStatus { available: false, level: -1i32, charging: false }
    }

    pub fn unknown() -> (r: Self)
        ensures
            r == Self::spec_unknown(),
    {
        CaseStatus { available: false, level: -1, charging: false }
    }
}

impl Default for CaseStatus {
    fn default() -> (r: Self)
        ensures
            r == (CaseStatus { available: false, level: 0i32, charging: false }),
    {
        CaseStatus { available: false, level: 0, charging: false }
    }
}

/// Everything the panel draws, published as one line of JSON.
#[derive(Debug, Clone, PartialEq)]
pub struct Status {
    pub schema_version: u32,
    pub connected: bool,
    pub device_name: String,
    pub model_name: String,
    pub anc_mode: i32,
    pub multipoint_enabled: bool,
    pub on_head_detection_enabled: bool,
    pub speech_detection_enabled: bool,
    pub volume_exposure_notifications_enabled: bool,
    pub left: BudStatus,
    pub right: BudStatus,
    pub case: CaseStatus,
}

impl Status {
    /// The status of a daemon that has not heard from any device yet.
    pub open spec fn is_initial(self) -> bool {
        &&& self.schema_version == SCHEMA_VERSION
        &&& !self.connected
        &&& self.device_name@ == Seq::<char>::empty()
        &&& self.model_name@ == Seq::<char>::empty()
        &&& self.anc_mode == anc::UNKNOWN
        &&& !self.multipoint_enabled
        &&& !self.on_head_detection_enabled
        &&& !self.speech_detection_enabled
        &&& !self.volume_exposure_notifications_enabled
        &&& self.left == BudStatus::spec_unknown()
        &&& self.right == BudStatus::spec_unknown()
        &&& self.case == CaseStatus::spec_unknown()
    }

    /// Called before each connection attempt: names the device by its
    /// Bluetooth alias (empty when the alias could not be read) and sets the
    /// fixed model name. Nothing else changes.
    pub fn begin_attempt(&mut self, alias: Option<String>)
        ensures
            final(self).device_name@ == (match alias {
                Some(a) => a@,
                None => Seq::<char>::empty(),
            }),
            final(self).model_name@ == model_name_spec(),
            final(self).schema_version == old(self).schema_version,
            final(self).connected == old(self).connected,
            final(self).anc_mode == old(self).anc_mode,
            final(self).multipoint_enabled == old(self).multipoint_enabled,
            final(self).on_head_detection_enabled == old(self).on_head_detection_enabled,
            final(self).speech_detection_enabled == old(self).speech_detection_enabled,
            final(self).volume_exposure_notifications_enabled
                == old(self).volume_exposure_notifications_enabled,
            final(self).left == old(self).left,
            final(self).right == old(self).right,
            final(self).case == old(self).case,
    {
        self.device_name = match alias {
            Some(a) => a,
            None => String::new(),
        };
        self.model_name = String::from_str("Pixel Buds Pro 2");
    }

    /// Records whether the Maestro session is up. On a session that ended,
    /// `connected` is whether the Bluetooth link itself is still there, so a
    /// mid-air handoff between the buds does not report a disconnect.
    pub fn set_connected(&mut self, connected: bool)
        ensures
            *final(self) == (Status { connected, ..*old(self) }),
    {
        self.connected = connected;
    }
}

impl Default for Status {
    fn default() -> (r: Self)
        ensures
            r.is_initial(),
    {
        Status {
            schema_version: SCHEMA_VERSION,
            connected: false,
            device_name: String::new(),
            model_name: String::new(),
            anc_mode: anc::UNKNOWN,
            multipoint_enabled: false,
            on_head_detection_enabled: false,
            speech_detection_enabled: false,
            volume_exposure_notifications_enabled: false,
            left: BudStatus::unknown(),
            right: BudStatus::unknown(),
            case: CaseStatus::unknown(),
        }
    }
}

} // verus!
