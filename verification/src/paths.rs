//! Where the status file and the control socket live. The environment is
//! read by the caller; these functions compute the paths from what it held,
//! as the raw bytes of a Unix path.

use vstd::prelude::*;
use vstd::string::StringSliceAdditionalSpecFns;

verus! {

/// The byte `/`.
pub open spec fn separator() -> u8 {
    47u8
}

/// The bytes of an optional path.
pub open spec fn bytes_view(p: Option<Vec<u8>>) -> Option<Seq<u8>> {
    match p {
        Some(v) => Some(v@),
        None => None,
    }
}

/// `base` with the relative path `rel` appended, as `PathBuf::join` does on
/// Unix: a separator goes between them unless `base` is empty or already
/// ends in one.
pub open spec fn join_spec(base: Seq<u8>, rel: Seq<u8>) -> Seq<u8> {
    if base.len() == 0 || base.last() == separator() {
        base + rel
    } else {
        base + seq![separator()] + rel
    }
}

/// Whether `XDG_STATE_HOME` names a directory: the XDG base directory
/// specification treats an empty value like an unset one.
pub open spec fn names_state_home(state_home: Option<Seq<u8>>) -> bool {
    state_home matches Some(dir) && dir.len() > 0
}

/// `$XDG_STATE_HOME/pixelbudspro2/status.json`, with `$HOME/.local/state`
/// standing in for an unset or empty `XDG_STATE_HOME`.
pub open spec fn spec_state_path(state_home: Option<Seq<u8>>, home: Option<Seq<u8>>) -> Seq<u8> {
    let base = if names_state_home(state_home) {
        state_home.unwrap()
    } else {
        join_spec(home.unwrap(), ".local/state".spec_bytes())
    };
    join_spec(join_spec(base, "pixelbudspro2".spec_bytes()), "status.json".spec_bytes())
}

/// `$XDG_RUNTIME_DIR/pixelbudspro2.sock`, and nothing when that variable is
/// unset or empty.
pub open spec fn spec_socket_path(runtime_dir: Option<Seq<u8>>) -> Option<Seq<u8>> {
    match runtime_dir {
        Some(dir) => if dir.len() == 0 {
            None
        } else {
            Some(join_spec(dir, "pixelbudspro2.sock".spec_bytes()))
        },
        None => None,
    }
}

/// Appends the relative path `rel` to `base`.
fn join(base: Vec<u8>, rel: &str) -> (r: Vec<u8>)
    ensures
        r@ == join_spec(base@, rel.spec_bytes()),
{
    let mut out = base;
    let n = out.len();
    if n > 0 && out[n - 1] != 47u8 {
        out.push(47u8);
    }
    let mut tail = rel.as_bytes_vec();
    out.append(&mut tail);
    out
}

/// Joining keeps `base` as a prefix and `rel` as a suffix, with exactly
/// one separator between them when `base` is not empty: one is added only
/// when `base` does not already end in one.
pub proof fn lemma_join_places_one_separator(base: Seq<u8>, rel: Seq<u8>)
    ensures
        ({
            let j = join_spec(base, rel);
            &&& j.subrange(0, base.len() as int) == base
            &&& j.subrange(j.len() - rel.len(), j.len() as int) == rel
            &&& base.len() == 0 ==> j == rel
            &&& base.len() > 0 ==> j[j.len() - rel.len() - 1] == separator()
            &&& j.len() == base.len() + rel.len() + (if base.len() > 0 && base.last()
                != separator() {
                1int
            } else {
                0int
            })
        }),
{
    let j = join_spec(base, rel);
    assert(j.subrange(0, base.len() as int) =~= base);
    assert(j.subrange(j.len() - rel.len(), j.len() as int) =~= rel);
    if base.len() == 0 {
        assert(j =~= rel);
    }
}

/// The state file lies under `XDG_STATE_HOME` when that names a directory,
/// and under `HOME` otherwise; the socket exists exactly when
/// `XDG_RUNTIME_DIR` is set and not empty, and lies under it.
pub proof fn lemma_paths_lie_under_their_directories(
    state_home: Option<Seq<u8>>,
    home: Option<Seq<u8>>,
    runtime_dir: Option<Seq<u8>>,
)
    requires
        names_state_home(state_home) || home is Some,
    ensures
        ({
            let p = spec_state_path(state_home, home);
            let dir = if names_state_home(state_home) {
                state_home.unwrap()
            } else {
                home.unwrap()
            };
            p.len() >= dir.len() && p.subrange(0, dir.len() as int) == dir
        }),
        spec_socket_path(runtime_dir) is Some <==> (runtime_dir matches Some(d) && d.len() > 0),
        spec_socket_path(runtime_dir) matches Some(p) ==> p.subrange(
            0,
            runtime_dir.unwrap().len() as int,
        ) == runtime_dir.unwrap(),
{
    let base = if names_state_home(state_home) {
        state_home.unwrap()
    } else {
        join_spec(home.unwrap(), ".local/state".spec_bytes())
    };
    if !names_state_home(state_home) {
        lemma_join_places_one_separator(home.unwrap(), ".local/state".spec_bytes());
    }
    let a = join_spec(base, "pixelbudspro2".spec_bytes());
    lemma_join_places_one_separator(base, "pixelbudspro2".spec_bytes());
    lemma_join_places_one_separator(a, "status.json".spec_bytes());
    let p = spec_state_path(state_home, home);
    let dir = if names_state_home(state_home) {
        state_home.unwrap()
    } else {
        home.unwrap()
    };
    assert(p.subrange(0, dir.len() as int) =~= a.subrange(0, base.len() as int).subrange(
        0,
        dir.len() as int,
    ));
    if let Some(d) = runtime_dir {
        if d.len() > 0 {
            lemma_join_places_one_separator(d, "pixelbudspro2.sock".spec_bytes());
        }
    }
}

/// The state file's path, from the values of `XDG_STATE_HOME` and `HOME`.
/// `HOME` is only consulted when `XDG_STATE_HOME` is unset or empty, and
/// must then be set.
pub fn state_path(state_home: Option<Vec<u8>>, home: Option<Vec<u8>>) -> (r: Vec<u8>)
    requires
        names_state_home(bytes_view(state_home)) || home is Some,
    ensures
        r@ == spec_state_path(bytes_view(state_home), bytes_view(home)),
{
    let base = match state_home {
        Some(dir) if dir.len() > 0 => dir,
        _ => join(home.unwrap(), ".local/state"),
    };
    join(join(base, "pixelbudspro2"), "status.json")
}

/// The control socket's path, from the value of `XDG_RUNTIME_DIR`. There is
/// no fallback location: an unset or empty variable gives `None`.
pub fn socket_path(runtime_dir: Option<Vec<u8>>) -> (r: Option<Vec<u8>>)
    ensures
        bytes_view(r) == spec_socket_path(bytes_view(runtime_dir)),
{
    match runtime_dir {
        Some(dir) => if dir.len() == 0 {
            None
        } else {
            Some(join(dir, "pixelbudspro2.sock"))
        },
        None => None,
    }
}

} // verus!
