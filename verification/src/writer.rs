//! The decision half of publishing the status file: a line is written only
//! when it differs from the last line written, so an idle daemon stays
//! idle. Rendering the line and writing the file are the caller's.

use vstd::prelude::*;

verus! {

/// Whether `rendered` must be written, `last` being the last line written.
pub open spec fn spec_needs_write(last: Option<Seq<char>>, rendered: Seq<char>) -> bool {
    last != Some(rendered)
}

/// The last line written after an attempt to write `rendered`: a failed
/// write leaves it as it was.
pub open spec fn spec_after_write(last: Option<Seq<char>>, rendered: Seq<char>, written: bool) -> Option<
    Seq<char>,
> {
    if written {
        Some(rendered)
    } else {
        last
    }
}

/// Publishes the status to the file at `path`, one line per change.
pub struct StatusWriter {
    path: Vec<u8>,
    last: Option<String>,
}

impl StatusWriter {
    /// The path of the state file.
    pub closed spec fn spec_path(&self) -> Seq<u8> {
        self.path@
    }

    /// The last line written, if any.
    pub closed spec fn last_written(&self) -> Option<Seq<char>> {
        match self.last {
            Some(l) => Some(l@),
            None => None,
        }
    }

    /// A writer for the state file at `path` that has written nothing yet.
    pub fn new(path: Vec<u8>) -> (r: Self)
        ensures
            r.spec_path() == path@,
            r.last_written() is None,
    {
        StatusWriter { path, last: None }
    }

    pub fn path(&self) -> (r: &Vec<u8>)
        ensures
            r@ == self.spec_path(),
    {
        &self.path
    }

    /// Whether the line `rendered` differs from the last line written.
    pub fn needs_write(&self, rendered: &String) -> (r: bool)
        ensures
            r == spec_needs_write(self.last_written(), rendered@),
    {
        match &self.last {
            Some(l) => !(*l == *rendered),
            None => true,
        }
    }

    /// Records the outcome of writing `rendered`.
    pub fn record_write(&mut self, rendered: String, written: bool)
        ensures
            final(self).last_written() == spec_after_write(
                old(self).last_written(),
                rendered@,
                written,
            ),
            final(self).spec_path() == old(self).spec_path(),
    {
        if written {
            self.last = Some(rendered);
        }
    }
}

/// Once a line has been written, publishing the same line again writes
/// nothing.
pub proof fn lemma_unchanged_status_is_not_rewritten(last: Option<Seq<char>>, rendered: Seq<char>)
    ensures
        !spec_needs_write(spec_after_write(last, rendered, true), rendered),
{
}

/// A line whose write failed is written again the next time it is
/// published.
pub proof fn lemma_failed_write_is_retried(last: Option<Seq<char>>, rendered: Seq<char>)
    requires
        spec_needs_write(last, rendered),
    ensures
        spec_needs_write(spec_after_write(last, rendered, false), rendered),
{
}

/// A line that differs from the last one written is always written.
pub proof fn lemma_changed_status_is_written(last: Seq<char>, rendered: Seq<char>)
    requires
        last != rendered,
    ensures
        spec_needs_write(Some(last), rendered),
{
}

} // verus!
