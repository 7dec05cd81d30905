//! Configuration and request shaping for the conversion service.
//!
//! The network-facing facade and the command-line front end both normalize
//! an image reference, derive the archive's file name and path, and bundle
//! optional registry credentials before a conversion starts. Those
//! derivations are deterministic string work and live here; reading the
//! configuration file, HTTP handling and logging stay with the host program.

use vstd::prelude::*;
use vstd::string::StrSliceExecFns;
use vstd::string::StringExecFns;

use crate::ledger::JobLedger;

verus! {

/// The string contains a `:`, as an image reference with a tag does.
pub open spec fn has_colon(s: Seq<char>) -> bool {
    exists|i: int| 0 <= i < s.len() && s[i] == ':'
}

fn contains_colon(s: &str) -> (b: bool)
    ensures
        b == has_colon(s@),
{
    let n = s.unicode_len();
    let mut i: usize = 0;
    while i < n
        invariant
            n == s@.len(),
            i <= n,
            forall|j: int| 0 <= j < i ==> s@[j] != ':',
        decreases n - i,
    {
        if s.get_char(i) == ':' {
            return true;
        }
        i = i + 1;
    }
    false
}

/// The service configuration, as loaded from its configuration file.
#[derive(Debug, Clone)]
pub struct Config {
    pub host: String,
    pub port: i16,
    pub store_url: Vec<String>,
    pub flist_dir: String,
    pub version: String,
    pub tokens_file_path: String,
}

/// The service's shared state: its configuration and the job ledger.
pub struct State {
    pub config: Config,
    pub jobs_state: JobLedger,
}

/// An optional bundle of registry credentials, handed through opaquely to
/// the runtime that pulls the image.
#[derive(Debug, Clone)]
pub struct Credentials {
    pub username: Option<String>,
    pub password: Option<String>,
    pub auth: Option<String>,
    pub email: Option<String>,
    pub server_address: Option<String>,
    pub identity_token: Option<String>,
    pub registry_token: Option<String>,
}

/// The body of a conversion request: the image to convert and optional
/// registry credentials.
#[derive(Debug, Clone)]
pub struct FlistInputs {
    pub image_name: String,
    pub username: Option<String>,
    pub password: Option<String>,
    pub auth: Option<String>,
    pub email: Option<String>,
    pub server_address: Option<String>,
    pub identity_token: Option<String>,
    pub registry_token: Option<String>,
}

/// Everything a queued conversion needs once the worker picks it up: the
/// job's id, the normalized image reference, where the archive is to be
/// written, and the registry credentials. The archive writer and the store
/// handles belong to the host program, which keeps them alongside.
pub struct ConvertFlistRequirements {
    pub job_id: crate::ledger::JobID,
    pub docker_image: String,
    pub fl_path: String,
    pub docker_credentials: Option<Credentials>,
}

fn clone_opt_string(o: &Option<String>) -> (r: Option<String>)
    ensures
        r == *o,
{
    match o {
        Some(s) => Some(s.clone()),
        None => None,
    }
}

impl FlistInputs {
    /// The credential bundle of this request, field for field.
    pub fn credentials(&self) -> (c: Credentials)
        ensures
            c.username == self.username,
            c.password == self.password,
            c.auth == self.auth,
            c.email == self.email,
            c.server_address == self.server_address,
            c.identity_token == self.identity_token,
            c.registry_token == self.registry_token,
    {
        Credentials {
            username: clone_opt_string(&self.username),
            password: clone_opt_string(&self.password),
            auth: clone_opt_string(&self.auth),
            email: clone_opt_string(&self.email),
            server_address: clone_opt_string(&self.server_address),
            identity_token: clone_opt_string(&self.identity_token),
            registry_token: clone_opt_string(&self.registry_token),
        }
    }
}

/// An image reference with a tag: the reference itself when it carries a
/// `:` already, otherwise the reference with `:latest` appended.
pub fn normalize_image_name(name: &str) -> (r: String)
    ensures
        r@ == if has_colon(name@) {
            name@
        } else {
            name@ + ":latest"@
        },
{
    if contains_colon(name) {
        name.to_owned()
    } else {
        let mut r = name.to_owned();
        r.append(":latest");
        r
    }
}

/// One character of the archive's file name: path and tag separators become
/// `-`, everything else stands.
pub open spec fn flist_name_char(c: char) -> char {
    if c == ':' || c == '/' {
        '-'
    } else {
        c
    }
}

/// The archive file name derived from an image reference: `:` and `/`
/// replaced by `-`, then `.fl` appended.
pub fn flist_name(image: &str) -> (r: String)
    ensures
        r@ == image@.map_values(|c: char| flist_name_char(c)) + ".fl"@,
{
    let n = image.unicode_len();
    let mut out = String::new();
    let mut i: usize = 0;
    while i < n
        invariant
            n == image@.len(),
            i <= n,
            out@ == image@.take(i as int).map_values(|c: char| flist_name_char(c)),
        decreases n - i,
    {
        let c = image.get_char(i);
        if c == ':' || c == '/' {
            out.append("-");
            proof {
                reveal_strlit("-");
            }
        } else {
            let piece = image.substring_char(i, i + 1);
            out.append(piece);
            proof {
                assert(piece@ =~= seq![image@[i as int]]);
            }
        }
        proof {
            assert(out@ =~= image@.take(i + 1).map_values(|c: char| flist_name_char(c)));
        }
        i = i + 1;
    }
    proof {
        assert(image@.take(n as int) =~= image@);
    }
    out.append(".fl");
    out
}

/// Where the archive of a conversion lives: `dir/username/name`.
pub fn flist_path(dir: &str, username: &str, name: &str) -> (r: String)
    ensures
        r@ == dir@ + "/"@ + username@ + "/"@ + name@,
{
    let mut r = dir.to_owned();
    r.append("/");
    r.append(username);
    r.append("/");
    r.append(name);
    r
}

} // verus!
