//! Deriving the runtime-startup descriptor.
//!
//! After a container's filesystem is exported, the conversion inspects the
//! container's resolved configuration (the runtime-merged view of image
//! defaults and container-level overrides) and derives, deterministically,
//! the descriptor that tells a downstream boot mechanism how to execute the
//! image's default process.
//!
//! Precedence:
//! - if an entrypoint is declared and non-empty, the command is its first
//!   element; the remaining elements are the arguments, except that a
//!   single-element entrypoint (an exec wrapper) takes the declared command
//!   list in full as its arguments;
//! - otherwise the command is the first element of the declared command list
//!   and the rest are the arguments;
//! - each declared `KEY=VALUE` environment string is split on the first `=`
//!   only, so values may themselves contain `=`; colliding keys resolve to
//!   the last write;
//! - the working directory defaults to `/` when unset.
//!
//! A configuration that declares neither an entrypoint nor a command cannot
//! name a process to start and is rejected with `InspectError`.

use vstd::prelude::*;
use vstd::string::StrSliceExecFns;
use vstd::string::StringExecFns;

use crate::error::ConversionError;

verus! {

// ---------------------------------------------------------------------------
// Environment entries
// ---------------------------------------------------------------------------

/// Position `i` holds the first `=` of the entry.
pub open spec fn first_eq_at(s: Seq<char>, i: int) -> bool {
    &&& 0 <= i < s.len()
    &&& s[i] == '='
    &&& forall|j: int| 0 <= j < i ==> s[j] != '='
}

/// The entry contains an `=` separator at all.
pub open spec fn has_eq(s: Seq<char>) -> bool {
    exists|i: int| 0 <= i < s.len() && s[i] == '='
}

/// Split an environment entry on its first `=`: key before, value after.
/// An entry with no `=` is all key, with an empty value.
pub open spec fn env_split(e: Seq<char>) -> (Seq<char>, Seq<char>) {
    if has_eq(e) {
        let i = choose|i: int| first_eq_at(e, i);
        (e.take(i), e.skip(i + 1))
    } else {
        (e, Seq::<char>::empty())
    }
}

/// No two pairs share a key.
pub open spec fn keys_unique(ps: Seq<(Seq<char>, Seq<char>)>) -> bool {
    forall|i: int, j: int| 0 <= i < j < ps.len() ==> (#[trigger] ps[i]).0 != (#[trigger] ps[j]).0
}

/// Pair `i` holds key `k`.
pub open spec fn key_at(ps: Seq<(Seq<char>, Seq<char>)>, k: Seq<char>, i: int) -> bool {
    0 <= i < ps.len() && ps[i].0 == k
}

/// Record `k = v`: overwrite the pair already holding `k`, or append a new
/// pair. The position of a key is fixed by its first write, its value by the
/// last.
pub open spec fn env_insert(
    ps: Seq<(Seq<char>, Seq<char>)>,
    k: Seq<char>,
    v: Seq<char>,
) -> Seq<(Seq<char>, Seq<char>)> {
    if exists|i: int| key_at(ps, k, i) {
        ps.update(choose|i: int| key_at(ps, k, i), (k, v))
    } else {
        ps.push((k, v))
    }
}

/// The key-value mapping declared by a list of `KEY=VALUE` entries,
/// processed in order, colliding keys resolved last-write-wins.
pub open spec fn env_pairs(entries: Seq<Seq<char>>) -> Seq<(Seq<char>, Seq<char>)>
    decreases entries.len(),
{
    if entries.len() == 0 {
        Seq::<(Seq<char>, Seq<char>)>::empty()
    } else {
        let (k, v) = env_split(entries.last());
        env_insert(env_pairs(entries.drop_last()), k, v)
    }
}

// ---------------------------------------------------------------------------
// Command and arguments
// ---------------------------------------------------------------------------

/// The command started by the packed image, under the entrypoint-first
/// precedence.
pub open spec fn chosen_command(ep: Seq<Seq<char>>, cmd: Seq<Seq<char>>) -> Seq<char>
    recommends
        ep.len() > 0 || cmd.len() > 0,
{
    if ep.len() > 0 {
        ep[0]
    } else {
        cmd[0]
    }
}

/// The arguments handed to the command, under the entrypoint-first
/// precedence.
pub open spec fn chosen_args(ep: Seq<Seq<char>>, cmd: Seq<Seq<char>>) -> Seq<Seq<char>> {
    if ep.len() > 1 {
        ep.drop_first()
    } else if ep.len() == 1 {
        cmd
    } else if cmd.len() > 0 {
        cmd.drop_first()
    } else {
        Seq::<Seq<char>>::empty()
    }
}

/// The declared working directory, or `/` when unset.
pub open spec fn working_dir_or_root(wd: Option<String>) -> Seq<char> {
    match wd {
        Some(w) => w@,
        None => "/"@,
    }
}

/// View of an optional string list: the declared list, or empty when absent.
pub open spec fn opt_list_view(o: Option<Vec<String>>) -> Seq<Seq<char>> {
    match o {
        Some(v) => v.deep_view(),
        None => Seq::<Seq<char>>::empty(),
    }
}

// ---------------------------------------------------------------------------
// The descriptor
// ---------------------------------------------------------------------------

/// The runtime-startup descriptor written into the snapshot: how to execute
/// the original container's default process. Its document encoding carries
/// the fixed entry name `core.system` (see `encode`).
#[derive(Debug, Clone)]
pub struct RuntimeDescriptor {
    pub command: String,
    pub args: Vec<String>,
    pub env: Vec<(String, String)>,
    pub working_dir: String,
}

fn find_first_eq(s: &str) -> (r: Option<usize>)
    ensures
        match r {
            Some(i) => first_eq_at(s@, i as int),
            None => !has_eq(s@),
        },
{
    let n = s.unicode_len();
    let mut i: usize = 0;
    while i < n
        invariant
            n == s@.len(),
            i <= n,
            forall|j: int| 0 <= j < i ==> s@[j] != '=',
        decreases n - i,
    {
        if s.get_char(i) == '=' {
            return Some(i);
        }
        i = i + 1;
    }
    None
}

/// Split one `KEY=VALUE` entry on its first `=`.
pub fn split_env_entry(e: &str) -> (kv: (String, String))
    ensures
        (kv.0@, kv.1@) == env_split(e@),
{
    let n = e.unicode_len();
    match find_first_eq(e) {
        Some(i) => {
            let k = e.substring_char(0, i).to_owned();
            let v = e.substring_char(i + 1, n).to_owned();
            proof {
                let i0 = choose|j: int| first_eq_at(e@, j);
                assert(has_eq(e@));
                assert(i0 == i as int);
                assert(k@ =~= e@.take(i as int));
                assert(v@ =~= e@.skip(i as int + 1));
            }
            (k, v)
        },
        None => (e.to_owned(), String::new()),
    }
}

fn find_key(ps: &Vec<(String, String)>, k: &String) -> (r: Option<usize>)
    ensures
        match r {
            Some(j) => j < ps@.len() && ps.deep_view()[j as int].0 == k@,
            None => forall|j: int| 0 <= j < ps@.len() ==> (#[trigger] ps.deep_view()[j]).0 != k@,
        },
{
    let mut j: usize = 0;
    while j < ps.len()
        invariant
            j <= ps@.len(),
            forall|l: int| 0 <= l < j ==> (#[trigger] ps.deep_view()[l]).0 != k@,
        decreases ps@.len() - j,
    {
        if ps[j].0 == *k {
            return Some(j);
        }
        j = j + 1;
    }
    None
}

/// Fold a declared environment list into its key-value mapping, in
/// declaration order, colliding keys resolved last-write-wins.
pub fn build_env(entries: &Vec<String>) -> (ps: Vec<(String, String)>)
    ensures
        ps.deep_view() == env_pairs(entries.deep_view()),
        keys_unique(ps.deep_view()),
{
    let mut ps: Vec<(String, String)> = Vec::new();
    let mut i: usize = 0;
    while i < entries.len()
        invariant
            i <= entries@.len(),
            ps.deep_view() == env_pairs(entries.deep_view().take(i as int)),
            keys_unique(ps.deep_view()),
        decreases entries@.len() - i,
    {
        let ghost pre = ps.deep_view();
        let ghost taken = entries.deep_view().take(i as int);
        let (k, v) = split_env_entry(entries[i].as_str());
        match find_key(&ps, &k) {
            Some(j) => {
                proof {
                    assert(key_at(pre, k@, j as int));
                    let j0 = choose|l: int| key_at(pre, k@, l);
                    assert(j0 == j as int);
                }
                ps.remove(j);
                ps.insert(j, (k, v));
                proof {
                    assert(ps.deep_view() =~= env_insert(pre, k@, v@));
                }
            },
            None => {
                proof {
                    assert(!exists|l: int| key_at(pre, k@, l));
                }
                ps.push((k, v));
                proof {
                    assert(ps.deep_view() =~= env_insert(pre, k@, v@));
                }
            },
        }
        proof {
            let next = entries.deep_view().take(i + 1int);
            assert(next.drop_last() =~= taken);
            assert(next.last() == entries.deep_view()[i as int]);
            assert(ps.deep_view() == env_pairs(next));
        }
        i = i + 1;
    }
    proof {
        assert(entries.deep_view().take(entries@.len() as int) =~= entries.deep_view());
    }
    ps
}

fn clone_strings_from(v: &Vec<String>, from: usize) -> (r: Vec<String>)
    requires
        from <= v@.len(),
    ensures
        r.deep_view() == v.deep_view().skip(from as int),
{
    let mut r: Vec<String> = Vec::new();
    let mut i: usize = from;
    while i < v.len()
        invariant
            from <= i <= v@.len(),
            r@.len() == i - from,
            forall|l: int| 0 <= l < r@.len() ==> (#[trigger] r@[l])@ == v@[from + l]@,
        decreases v@.len() - i,
    {
        r.push(v[i].clone());
        i = i + 1;
    }
    proof {
        assert forall|l: int| 0 <= l < r.deep_view().len() implies r.deep_view()[l]
            == v.deep_view().skip(from as int)[l] by {
            assert(r.deep_view()[l] == r@[l]@);
            assert(v.deep_view()[from + l] == v@[from + l]@);
        }
        assert(r.deep_view() =~= v.deep_view().skip(from as int));
    }
    r
}

/// Derive the runtime-startup descriptor from a container's resolved
/// configuration.
///
/// Succeeds if and only if the configuration declares a non-empty entrypoint
/// or a non-empty command list; a configuration declaring neither is rejected
/// with `InspectError`.
pub fn derive_descriptor(
    entrypoint: &Option<Vec<String>>,
    cmd: &Option<Vec<String>>,
    env: &Option<Vec<String>>,
    working_dir: &Option<String>,
) -> (r: Result<RuntimeDescriptor, ConversionError>)
    ensures
        r is Ok <==> opt_list_view(*entrypoint).len() > 0 || opt_list_view(*cmd).len() > 0,
        match r {
            Ok(d) => {
                &&& d.command@ == chosen_command(opt_list_view(*entrypoint), opt_list_view(*cmd))
                &&& d.args.deep_view() == chosen_args(
                    opt_list_view(*entrypoint),
                    opt_list_view(*cmd),
                )
                &&& d.env.deep_view() == env_pairs(opt_list_view(*env))
                &&& keys_unique(d.env.deep_view())
                &&& d.working_dir@ == working_dir_or_root(*working_dir)
            },
            Err(e) => e == ConversionError::InspectError,
        },
{
    let no_strings: Vec<String> = Vec::new();
    let ep: &Vec<String> = match entrypoint {
        Some(v) => v,
        None => &no_strings,
    };
    let cm: &Vec<String> = match cmd {
        Some(v) => v,
        None => &no_strings,
    };
    proof {
        assert(ep.deep_view() =~= opt_list_view(*entrypoint));
        assert(cm.deep_view() =~= opt_list_view(*cmd));
    }
    if ep.len() == 0 && cm.len() == 0 {
        return Err(ConversionError::InspectError);
    }
    let command = if ep.len() > 0 {
        ep[0].clone()
    } else {
        cm[0].clone()
    };
    let args = if ep.len() > 1 {
        clone_strings_from(ep, 1)
    } else if ep.len() == 1 {
        clone_strings_from(cm, 0)
    } else {
        clone_strings_from(cm, 1)
    };
    proof {
        if ep.deep_view().len() == 1 {
            assert(cm.deep_view().skip(0) =~= cm.deep_view());
        }
    }
    let no_entries: Vec<String> = Vec::new();
    let entries: &Vec<String> = match env {
        Some(v) => v,
        None => &no_entries,
    };
    proof {
        assert(entries.deep_view() =~= opt_list_view(*env));
    }
    let env_map = build_env(entries);
    let wd = match working_dir {
        Some(w) => w.clone(),
        None => String::from_str("/"),
    };
    Ok(RuntimeDescriptor { command, args, env: env_map, working_dir: wd })
}

} // verus!
