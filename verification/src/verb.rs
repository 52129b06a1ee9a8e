//! The control verbs the daemon's socket accepts, one per line, and their
//! grammar: `anc:off|active|aware|adaptive`, `multipoint:on|off`,
//! `ohd:on|off`, `speech:on|off`, `volumeexposure:on|off` and `refresh`.

use vstd::prelude::*;

use crate::anc;
use crate::text::{debug_quoted, debug_str, find_char, str_eq, trim, trim_spec};

verus! {

/// A verb sent over the control socket.
#[derive(Debug, Clone, Copy, PartialEq, Eq, Structural)]
pub enum Verb {
    Anc(i32),
    Multipoint(bool),
    OnHeadDetection(bool),
    SpeechDetection(bool),
    VolumeExposureNotifications(bool),
    Refresh,
}

/// A result whose error is taken by its characters.
pub open spec fn view_result<T>(r: Result<T, String>) -> Result<T, Seq<char>> {
    match r {
        Ok(v) => Ok(v),
        Err(e) => Err(e@),
    }
}

/// The value of an `on`/`off` payload, or the message that rejects it.
pub open spec fn spec_parse_bool(payload: Seq<char>) -> Result<bool, Seq<char>> {
    if payload == "on"@ {
        Ok(true)
    } else if payload == "off"@ {
        Ok(false)
    } else {
        Err("expected \"on\" or \"off\", got "@ + debug_str(payload))
    }
}

/// The verb a toggle payload gives, built by `make` from its value.
pub open spec fn toggle_verb(payload: Seq<char>, make: spec_fn(bool) -> Verb) -> Result<
    Verb,
    Seq<char>,
> {
    match spec_parse_bool(payload) {
        Ok(b) => Ok(make(b)),
        Err(e) => Err(e),
    }
}

/// The verb named `name` with payload `payload`, or the message that
/// rejects them.
pub open spec fn spec_verb_from_parts(name: Seq<char>, payload: Seq<char>) -> Result<
    Verb,
    Seq<char>,
> {
    if name == "anc"@ {
        if payload == "off"@ {
            Ok(Verb::Anc(anc::OFF))
        } else if payload == "active"@ {
            Ok(Verb::Anc(anc::ACTIVE))
        } else if payload == "aware"@ {
            Ok(Verb::Anc(anc::AWARE))
        } else if payload == "adaptive"@ {
            Ok(Verb::Anc(anc::ADAPTIVE))
        } else {
            Err("unknown anc mode: "@ + debug_str(payload))
        }
    } else if name == "multipoint"@ {
        toggle_verb(payload, |b: bool| Verb::Multipoint(b))
    } else if name == "ohd"@ {
        toggle_verb(payload, |b: bool| Verb::OnHeadDetection(b))
    } else if name == "speech"@ {
        toggle_verb(payload, |b: bool| Verb::SpeechDetection(b))
    } else if name == "volumeexposure"@ {
        toggle_verb(payload, |b: bool| Verb::VolumeExposureNotifications(b))
    } else if name == "refresh"@ {
        Ok(Verb::Refresh)
    } else {
        Err("unknown verb: "@ + debug_str(name))
    }
}

/// What a verb whose surrounding whitespace is already gone parses to:
/// `refresh` stands alone, every other verb is `name:payload` split at the
/// first colon.
pub open spec fn spec_parse_trimmed_verb(t: Seq<char>) -> Result<Verb, Seq<char>> {
    if t == "refresh"@ {
        Ok(Verb::Refresh)
    } else {
        match t.index_of_first(':') {
            None => Err("malformed verb (expected \"name:value\"): "@ + debug_str(t)),
            Some(i) => spec_verb_from_parts(t.subrange(0, i), t.subrange(i + 1, t.len() as int)),
        }
    }
}

/// What `parse_verb` makes of `raw`: surrounding whitespace is ignored.
pub open spec fn spec_parse_verb(raw: Seq<char>) -> Result<Verb, Seq<char>> {
    spec_parse_trimmed_verb(trim_spec(raw))
}

/// An error message: `prefix` followed by the already quoted text `quoted`.
pub fn quoted_message(prefix: &str, quoted: String) -> (r: String)
    ensures
        r@ == prefix@ + quoted@,
{
    let mut msg = String::from_str(prefix);
    msg.append(quoted.as_str());
    msg
}

/// `prefix` followed by the quoted rendering of `s`.
fn message(prefix: &str, s: &str) -> (r: String)
    ensures
        r@ == prefix@ + debug_str(s@),
{
    quoted_message(prefix, debug_quoted(s))
}

/// Parses an `on`/`off` payload.
pub fn parse_bool(payload: &str) -> (r: Result<bool, String>)
    ensures
        view_result(r) == spec_parse_bool(payload@),
{
    if str_eq(payload, "on") {
        Ok(true)
    } else if str_eq(payload, "off") {
        Ok(false)
    } else {
        Err(message("expected \"on\" or \"off\", got ", payload))
    }
}

fn verb_from_parts(name: &str, payload: &str) -> (r: Result<Verb, String>)
    ensures
        view_result(r) == spec_verb_from_parts(name@, payload@),
{
    if str_eq(name, "anc") {
        if str_eq(payload, "off") {
            Ok(Verb::Anc(anc::OFF))
        } else if str_eq(payload, "active") {
            Ok(Verb::Anc(anc::ACTIVE))
        } else if str_eq(payload, "aware") {
            Ok(Verb::Anc(anc::AWARE))
        } else if str_eq(payload, "adaptive") {
            Ok(Verb::Anc(anc::ADAPTIVE))
        } else {
            Err(message("unknown anc mode: ", payload))
        }
    } else if str_eq(name, "multipoint") {
        match parse_bool(payload) {
            Ok(b) => Ok(Verb::Multipoint(b)),
            Err(e) => Err(e),
        }
    } else if str_eq(name, "ohd") {
        match parse_bool(payload) {
            Ok(b) => Ok(Verb::OnHeadDetection(b)),
            Err(e) => Err(e),
        }
    } else if str_eq(name, "speech") {
        match parse_bool(payload) {
            Ok(b) => Ok(Verb::SpeechDetection(b)),
            Err(e) => Err(e),
        }
    } else if str_eq(name, "volumeexposure") {
        match parse_bool(payload) {
            Ok(b) => Ok(Verb::VolumeExposureNotifications(b)),
            Err(e) => Err(e),
        }
    } else if str_eq(name, "refresh") {
        Ok(Verb::Refresh)
    } else {
        Err(message("unknown verb: ", name))
    }
}

/// Parses a verb that has no surrounding whitespace.
pub fn parse_trimmed_verb(raw: &str) -> (r: Result<Verb, String>)
    ensures
        view_result(r) == spec_parse_trimmed_verb(raw@),
{
    if str_eq(raw, "refresh") {
        return Ok(Verb::Refresh);
    }
    match find_char(raw, ':') {
        None => Err(message("malformed verb (expected \"name:value\"): ", raw)),
        Some(i) => {
            proof {
                raw@.index_of_first_ensures(':');
            }
            let n = raw.unicode_len();
            let name = raw.substring_char(0, i);
            let payload = raw.substring_char(i + 1, n);
            verb_from_parts(name, payload)
        },
    }
}

/// Parses a verb like `anc:aware` or `multipoint:on`.
pub fn parse_verb(raw: &str) -> (r: Result<Verb, String>)
    ensures
        view_result(r) == spec_parse_verb(raw@),
{
    parse_trimmed_verb(trim(raw))
}

} // verus!
