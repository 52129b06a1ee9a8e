//! What the control socket does with one request line: read the verb,
//! decide between republishing the status, writing a setting to the buds,
//! or answering at once, and word the one-line reply.

use vstd::prelude::*;

use crate::protocol::{setting_for_verb, spec_setting_for_verb, SettingValue};
use crate::verb::{parse_verb, spec_parse_verb, Verb};

verus! {

/// What serving a verb takes.
#[derive(Debug, Clone, PartialEq)]
pub enum VerbPlan {
    /// Publish the current status again, then answer as for a write that
    /// succeeded.
    Republish,
    /// Answer with this line, touching nothing.
    Reply(String),
    /// Write this setting to the buds, then answer with `write_reply` of
    /// the outcome.
    Write(SettingValue),
}

/// The reply when no session with the buds is up.
pub open spec fn not_connected_reply() -> Seq<char> {
    "error: not connected to Pixel Buds Pro 2"@
}

/// The reply for a verb that names no setting.
pub open spec fn no_setting_reply() -> Seq<char> {
    "error: refresh has no setting to write"@
}

/// Whether `plan` is how `verb` is served, `connected` telling whether a
/// session with the buds is up: `refresh` republishes whether or not one
/// is, every other verb needs one, and then writes its setting.
pub open spec fn plan_for(plan: VerbPlan, verb: Verb, connected: bool) -> bool {
    if verb == Verb::Refresh {
        plan is Republish
    } else if !connected {
        plan matches VerbPlan::Reply(m) && m@ == not_connected_reply()
    } else {
        match spec_setting_for_verb(verb) {
            Some(s) => plan == VerbPlan::Write(s),
            None => plan matches VerbPlan::Reply(m) && m@ == no_setting_reply(),
        }
    }
}

/// A write is planned only while a session is up, and only of one of the
/// panel's own settings.
pub proof fn lemma_writes_need_a_session(plan: VerbPlan, verb: Verb, connected: bool)
    requires
        plan_for(plan, verb, connected),
        plan matches VerbPlan::Write(_),
    ensures
        connected,
        plan matches VerbPlan::Write(s) && s != SettingValue::Other,
{
}

/// Decides how to serve `verb`.
pub fn plan_verb(verb: Verb, connected: bool) -> (r: VerbPlan)
    ensures
        plan_for(r, verb, connected),
{
    if verb == Verb::Refresh {
        return VerbPlan::Republish;
    }
    if !connected {
        return VerbPlan::Reply(String::from_str("error: not connected to Pixel Buds Pro 2"));
    }
    match setting_for_verb(verb) {
        Some(setting) => VerbPlan::Write(setting),
        None => VerbPlan::Reply(String::from_str("error: refresh has no setting to write")),
    }
}

/// The reply to a request line that did not parse.
pub open spec fn parse_error_reply(msg: Seq<char>) -> Seq<char> {
    "error: "@ + msg
}

/// Reads one request line: the verb it names, or, for a line that does not
/// parse, the reply that answers it.
pub fn parse_request(line: &str) -> (r: Result<Verb, String>)
    ensures
        match spec_parse_verb(line@) {
            Ok(verb) => r == Ok::<Verb, String>(verb),
            Err(msg) => r matches Err(m) && m@ == parse_error_reply(msg),
        },
{
    match parse_verb(line) {
        Ok(verb) => Ok(verb),
        Err(msg) => {
            let mut reply = String::from_str("error: ");
            reply.append(msg.as_str());
            Err(reply)
        },
    }
}

/// Whether serving `verb` depends on a session with the buds being up:
/// `refresh` is served the same way whether or not one is.
pub fn needs_session(verb: Verb) -> (r: bool)
    ensures
        r == (verb != Verb::Refresh),
        !r ==> forall|plan: VerbPlan, connected: bool|
            plan_for(plan, verb, connected) <==> plan is Republish,
{
    verb != Verb::Refresh
}

/// The reply after a write to the buds: `ok`, or the error's text after
/// `error: `.
pub fn write_reply(outcome: Result<(), String>) -> (r: String)
    ensures
        r@ == match outcome {
            Ok(()) => "ok"@,
            Err(e) => "error: "@ + e@,
        },
{
    match outcome {
        Ok(()) => String::from_str("ok"),
        Err(e) => {
            let mut reply = String::from_str("error: ");
            reply.append(e.as_str());
            reply
        },
    }
}

} // verus!
