//! Properties that relate the verb grammar, the settings the verbs write and
//! the status the buds' messages produce.

use vstd::prelude::*;

use crate::anc;
use crate::protocol::{
    spec_apply_runtime_info, spec_apply_setting, spec_setting_for_verb, AncState, RuntimeInfo,
    SettingValue,
};
use crate::status::{BudStatus, Status};
use crate::text::{trim_spec, white_space};
use crate::verb::{spec_parse_verb, spec_verb_from_parts, Verb};

verus! {

/// Whether `s` shows the value that `verb` asks for.
pub open spec fn shows_verb(s: Status, verb: Verb) -> bool {
    match verb {
        Verb::Anc(mode) => s.anc_mode == mode,
        Verb::Multipoint(b) => s.multipoint_enabled == b,
        Verb::OnHeadDetection(b) => s.on_head_detection_enabled == b,
        Verb::SpeechDetection(b) => s.speech_detection_enabled == b,
        Verb::VolumeExposureNotifications(b) => s.volume_exposure_notifications_enabled == b,
        Verb::Refresh => true,
    }
}

/// Whether an ANC number names one of the four modes a verb can set.
pub open spec fn is_settable_anc_mode(mode: i32) -> bool {
    mode == anc::OFF || mode == anc::ACTIVE || mode == anc::AWARE || mode == anc::ADAPTIVE
}

/// Every verb other than `refresh` that carries a settable value names a
/// setting, and once the buds report that setting back, the status shows
/// exactly the value the verb asked for.
pub proof fn lemma_written_setting_shows_in_status(s: Status, verb: Verb)
    requires
        verb != Verb::Refresh,
        verb matches Verb::Anc(mode) ==> is_settable_anc_mode(mode),
    ensures
        spec_setting_for_verb(verb) matches Some(v) && shows_verb(spec_apply_setting(s, v), verb),
{
}

/// Every verb that parses, other than `refresh`, names a setting to write.
pub proof fn lemma_parsed_verbs_name_a_setting(raw: Seq<char>)
    ensures
        spec_parse_verb(raw) matches Ok(verb) ==> (verb == Verb::Refresh || spec_setting_for_verb(
            verb,
        ) is Some),
{
}

/// Reporting the same setting twice leaves the status as the first report
/// left it.
pub proof fn lemma_setting_reapplied_is_unchanged(s: Status, v: SettingValue)
    ensures
        spec_apply_setting(spec_apply_setting(s, v), v) == spec_apply_setting(s, v),
{
}

/// A setting report changes only the setting fields: battery, connection
/// and names stay as they were.
pub proof fn lemma_setting_leaves_battery_and_link(s: Status, v: SettingValue)
    ensures
        ({
            let t = spec_apply_setting(s, v);
            &&& t.left == s.left
            &&& t.right == s.right
            &&& t.case == s.case
            &&& t.connected == s.connected
            &&& t.device_name == s.device_name
            &&& t.model_name == s.model_name
            &&& t.schema_version == s.schema_version
        }),
{
}

/// A runtime-info message changes only battery and placement: the ANC mode,
/// the toggles, the connection and the names stay as they were.
pub proof fn lemma_runtime_info_leaves_settings(s: Status, info: RuntimeInfo)
    ensures
        ({
            let t = spec_apply_runtime_info(s, info);
            &&& t.anc_mode == s.anc_mode
            &&& t.multipoint_enabled == s.multipoint_enabled
            &&& t.on_head_detection_enabled == s.on_head_detection_enabled
            &&& t.speech_detection_enabled == s.speech_detection_enabled
            &&& t.volume_exposure_notifications_enabled == s.volume_exposure_notifications_enabled
            &&& t.connected == s.connected
            &&& t.device_name == s.device_name
            &&& t.model_name == s.model_name
            &&& t.schema_version == s.schema_version
        }),
{
}

/// When the buds report battery without a case reading (they were taken
/// out of the case), the last known case reading stays.
pub proof fn lemma_undocked_case_keeps_reading(s: Status, info: RuntimeInfo)
    requires
        info.battery_info matches Some(b) && b.case is None,
    ensures
        spec_apply_runtime_info(s, info).case == s.case,
{
}

/// Each verb names the setting of its own kind, carrying the verb's own
/// value; the four ANC modes keep their protocol numbers.
pub proof fn lemma_verbs_name_their_own_setting(b: bool)
    ensures
        spec_setting_for_verb(Verb::Multipoint(b)) == Some(SettingValue::MultipointEnable(b)),
        spec_setting_for_verb(Verb::OnHeadDetection(b)) == Some(SettingValue::OhdEnable(b)),
        spec_setting_for_verb(Verb::SpeechDetection(b)) == Some(SettingValue::SpeechDetection(b)),
        spec_setting_for_verb(Verb::VolumeExposureNotifications(b)) == Some(
            SettingValue::VolumeExposureNotifications(b),
        ),
        spec_setting_for_verb(Verb::Anc(1)) == Some(SettingValue::CurrentAncrState(AncState::Off)),
        spec_setting_for_verb(Verb::Anc(2)) == Some(
            SettingValue::CurrentAncrState(AncState::Active),
        ),
        spec_setting_for_verb(Verb::Anc(3)) == Some(SettingValue::CurrentAncrState(AncState::Aware)),
        spec_setting_for_verb(Verb::Anc(4)) == Some(
            SettingValue::CurrentAncrState(AncState::Adaptive),
        ),
        spec_setting_for_verb(Verb::Refresh) is None,
{
}

/// An ANC number outside the four modes names no setting.
pub proof fn lemma_unknown_anc_numbers_name_no_setting(mode: i32)
    requires
        mode < 1 || mode > 4,
    ensures
        spec_setting_for_verb(Verb::Anc(mode)) is None,
{
}

/// A setting report sets its own field to the reported value and leaves the
/// ANC mode and every other toggle as it was; a report of a setting
/// without a panel row changes nothing at all.
pub proof fn lemma_setting_changes_only_its_own_field(s: Status, v: SettingValue)
    ensures
        ({
            let t = spec_apply_setting(s, v);
            &&& match v {
                SettingValue::CurrentAncrState(a) => t.anc_mode == match a {
                    AncState::Off => 1i32,
                    AncState::Active => 2i32,
                    AncState::Aware => 3i32,
                    AncState::Adaptive => 4i32,
                    AncState::Unknown(_) => 0i32,
                },
                _ => t.anc_mode == s.anc_mode,
            }
            &&& match v {
                SettingValue::MultipointEnable(b) => t.multipoint_enabled == b,
                _ => t.multipoint_enabled == s.multipoint_enabled,
            }
            &&& match v {
                SettingValue::OhdEnable(b) => t.on_head_detection_enabled == b,
                _ => t.on_head_detection_enabled == s.on_head_detection_enabled,
            }
            &&& match v {
                SettingValue::SpeechDetection(b) => t.speech_detection_enabled == b,
                _ => t.speech_detection_enabled == s.speech_detection_enabled,
            }
            &&& match v {
                SettingValue::VolumeExposureNotifications(b) => t.volume_exposure_notifications_enabled
                    == b,
                _ => t.volume_exposure_notifications_enabled
                    == s.volume_exposure_notifications_enabled,
            }
            &&& v is Other ==> t == s
        }),
{
}

/// Whether `placement` says a bud is in the case, `left` choosing which;
/// a bud counts as out of the case when placement is missing.
pub open spec fn placed_in_case(info: RuntimeInfo, left: bool) -> bool {
    match info.placement {
        Some(p) => if left {
            p.left_bud_in_case
        } else {
            p.right_bud_in_case
        },
        None => false,
    }
}

/// With battery readings present, each bud's status is built from its own
/// reading and its own placement flag: a present reading shows as
/// available with that level, charging exactly when its state is
/// `BATTERY_CHARGING` (2), and in the case exactly when that bud's
/// placement says so; an absent reading shows as unknown (unavailable,
/// level -1), never as the previous reading.
pub proof fn lemma_runtime_info_reports_each_bud(s: Status, info: RuntimeInfo)
    requires
        info.battery_info is Some,
    ensures
        ({
            let t = spec_apply_runtime_info(s, info);
            let b = info.battery_info.unwrap();
            &&& t.left == match b.left {
                Some(d) => BudStatus {
                    available: true,
                    level: d.level,
                    charging: d.state == 2,
                    in_case: placed_in_case(info, true),
                },
                None => BudStatus { available: false, level: -1i32, charging: false, in_case: false },
            }
            &&& t.right == match b.right {
                Some(d) => BudStatus {
                    available: true,
                    level: d.level,
                    charging: d.state == 2,
                    in_case: placed_in_case(info, false),
                },
                None => BudStatus { available: false, level: -1i32, charging: false, in_case: false },
            }
            &&& b.case matches Some(c) ==> t.case.available && t.case.level == c.level
                && t.case.charging == (c.state == 2)
        }),
{
}

/// A runtime-info message without battery readings changes nothing.
pub proof fn lemma_runtime_info_without_battery_is_ignored(s: Status, info: RuntimeInfo)
    requires
        info.battery_info is None,
    ensures
        spec_apply_runtime_info(s, info) == s,
{
}

/// Among ASCII characters, exactly tab, line feed, vertical tab, form feed,
/// carriage return and space are whitespace; no letter, digit or
/// punctuation mark (the colon among them) is ever trimmed.
pub proof fn lemma_ascii_whitespace(c: char)
    requires
        (c as u32) < 0x80,
    ensures
        white_space(c) <==> (c == '\t' || c == '\n' || c == '\u{b}' || c == '\u{c}' || c == '\r'
            || c == ' '),
{
}

/// Whitespace before a verb does not change how it parses.
pub proof fn lemma_leading_whitespace_is_ignored(c: char, raw: Seq<char>)
    requires
        white_space(c),
    ensures
        spec_parse_verb(seq![c] + raw) == spec_parse_verb(raw),
{
    assert((seq![c] + raw).drop_first() =~= raw);
}

proof fn lemma_trim_drops_trailing_whitespace(raw: Seq<char>, c: char)
    requires
        white_space(c),
    ensures
        trim_spec(raw.push(c)) == trim_spec(raw),
    decreases raw.len(),
{
    if raw.len() == 0 {
        assert(raw.push(c).drop_first() =~= raw);
    } else if white_space(raw[0]) {
        assert(raw.push(c).drop_first() =~= raw.drop_first().push(c));
        lemma_trim_drops_trailing_whitespace(raw.drop_first(), c);
    } else {
        assert(raw.push(c).drop_last() =~= raw);
    }
}

/// Whitespace after a verb does not change how it parses.
pub proof fn lemma_trailing_whitespace_is_ignored(raw: Seq<char>, c: char)
    requires
        white_space(c),
    ensures
        spec_parse_verb(raw.push(c)) == spec_parse_verb(raw),
{
    lemma_trim_drops_trailing_whitespace(raw, c);
}

/// A toggle verb is accepted exactly with the payloads `on` and `off`, and
/// then asks for its own toggle: on for `on`, off for `off`. An accepted
/// `anc` verb always carries one of the four settable modes.
pub proof fn lemma_verb_names_pick_their_verb(payload: Seq<char>)
    ensures
        spec_verb_from_parts("multipoint"@, payload) is Ok <==> (payload == "on"@ || payload
            == "off"@),
        spec_verb_from_parts("multipoint"@, payload) matches Ok(v) ==> v == Verb::Multipoint(
            payload == "on"@,
        ),
        spec_verb_from_parts("ohd"@, payload) is Ok <==> (payload == "on"@ || payload == "off"@),
        spec_verb_from_parts("ohd"@, payload) matches Ok(v) ==> v == Verb::OnHeadDetection(
            payload == "on"@,
        ),
        spec_verb_from_parts("speech"@, payload) is Ok <==> (payload == "on"@ || payload
            == "off"@),
        spec_verb_from_parts("speech"@, payload) matches Ok(v) ==> v == Verb::SpeechDetection(
            payload == "on"@,
        ),
        spec_verb_from_parts("volumeexposure"@, payload) is Ok <==> (payload == "on"@ || payload
            == "off"@),
        spec_verb_from_parts("volumeexposure"@, payload) matches Ok(v) ==> v
            == Verb::VolumeExposureNotifications(payload == "on"@),
        spec_verb_from_parts("anc"@, payload) matches Ok(v) ==> (v matches Verb::Anc(m)
            && is_settable_anc_mode(m)),
        spec_verb_from_parts("refresh"@, payload) == Ok::<Verb, Seq<char>>(Verb::Refresh),
{
    reveal_strlit("on");
    reveal_strlit("off");
    reveal_strlit("anc");
    reveal_strlit("multipoint");
    reveal_strlit("ohd");
    reveal_strlit("speech");
    reveal_strlit("volumeexposure");
    reveal_strlit("refresh");
    assert("on"@[1] != "off"@[1]);
    assert("anc"@.len() != "multipoint"@.len());
    assert("anc"@[0] != "ohd"@[0]);
    assert("anc"@.len() != "speech"@.len());
    assert("anc"@.len() != "volumeexposure"@.len());
    assert("anc"@.len() != "refresh"@.len());
    assert("multipoint"@.len() != "ohd"@.len());
    assert("multipoint"@.len() != "speech"@.len());
    assert("multipoint"@.len() != "volumeexposure"@.len());
    assert("multipoint"@.len() != "refresh"@.len());
    assert("ohd"@.len() != "speech"@.len());
    assert("ohd"@.len() != "volumeexposure"@.len());
    assert("ohd"@.len() != "refresh"@.len());
    assert("speech"@.len() != "volumeexposure"@.len());
    assert("speech"@[0] != "refresh"@[0]);
    assert("volumeexposure"@.len() != "refresh"@.len());
}

} // verus!
