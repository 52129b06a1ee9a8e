//! Decisions of the connection loop: which paired device to talk to, and
//! how often to retry connecting the Maestro profile.

use vstd::prelude::*;

verus! {

/// The Maestro service UUID (`25e97ff7-24ce-4c4c-8951-f764a708f7b5`) as a
/// 128-bit number, most significant byte first.
pub const MAESTRO_UUID: u128 = 0x25e97ff7_24ce_4c4c_8951_f764a708f7b5u128;

/// Connecting the profile is retried this many times after a first failure.
pub const MAX_CONNECT_RETRIES: u32 = 3;

/// Whether a paired device whose advertised service UUIDs are `uuids` speaks
/// Maestro.
pub fn advertises_maestro(uuids: &Vec<u128>) -> (r: bool)
    ensures
        r == uuids@.contains(MAESTRO_UUID),
{
    let mut i: usize = 0;
    while i < uuids.len()
        invariant
            i <= uuids@.len(),
            forall|k: int| 0 <= k < i ==> uuids@[k] != MAESTRO_UUID,
        decreases uuids@.len() - i,
    {
        if uuids[i] == MAESTRO_UUID {
            assert(uuids@[i as int] == MAESTRO_UUID);
            return true;
        }
        i = i + 1;
    }
    false
}

/// What to do after one attempt at connecting the Maestro profile.
#[derive(Debug, Clone, Copy, PartialEq, Eq, Structural)]
pub enum ConnectStep {
    /// The profile is connected.
    Connected,
    /// Wait a second, then try again; the payload is the number of retries
    /// made so far, this one included.
    Retry(u32),
    /// Report the failure.
    GiveUp,
}

/// The step after an attempt, given how many retries preceded it.
pub open spec fn spec_next_connect_step(retries: u32, succeeded: bool) -> ConnectStep {
    if succeeded {
        ConnectStep::Connected
    } else if retries < MAX_CONNECT_RETRIES {
        ConnectStep::Retry((retries + 1) as u32)
    } else {
        ConnectStep::GiveUp
    }
}

pub fn next_connect_step(retries: u32, succeeded: bool) -> (r: ConnectStep)
    ensures
        r == spec_next_connect_step(retries, succeeded),
{
    if succeeded {
        ConnectStep::Connected
    } else if retries < MAX_CONNECT_RETRIES {
        ConnectStep::Retry(retries + 1)
    } else {
        ConnectStep::GiveUp
    }
}

/// A successful attempt means connected, however many retries preceded it;
/// a failed one is retried, counting one more retry, until three retries
/// have been made, and then the loop gives up.
pub proof fn lemma_connect_step_follows_the_outcome(retries: u32)
    ensures
        spec_next_connect_step(retries, true) == ConnectStep::Connected,
        retries < 3 ==> spec_next_connect_step(retries, false) == ConnectStep::Retry(
            (retries + 1) as u32,
        ),
        retries >= 3 ==> spec_next_connect_step(retries, false) == ConnectStep::GiveUp,
{
}

/// The step after `failures` failed attempts in a row: `Retry(n)` when the
/// next attempt is still to be made, `n` being the retries made so far.
pub open spec fn step_after_failures(failures: nat) -> ConnectStep
    decreases failures,
{
    if failures == 0 {
        ConnectStep::Retry(0)
    } else {
        match step_after_failures((failures - 1) as nat) {
            ConnectStep::Retry(n) => spec_next_connect_step(n, false),
            other => other,
        }
    }
}

/// Connecting the profile is attempted at most `MAX_CONNECT_RETRIES + 1`
/// times: after that many failures in a row the loop gives up, and never
/// before.
pub proof fn lemma_connect_attempts_bounded(failures: nat)
    ensures
        failures <= MAX_CONNECT_RETRIES ==> step_after_failures(failures) == ConnectStep::Retry(
            failures as u32,
        ),
        failures > MAX_CONNECT_RETRIES ==> step_after_failures(failures) == ConnectStep::GiveUp,
    decreases failures,
{
    if failures > 0 {
        lemma_connect_attempts_bounded((failures - 1) as nat);
    }
}

} // verus!
