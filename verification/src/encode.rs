//! Encoding the runtime-startup descriptor as a structured text document.
//!
//! The descriptor is written into the snapshot at a fixed, well-known path
//! ([`STARTUP_FILE_NAME`]) with a fixed shape that a downstream boot
//! mechanism consumes: `startup.entry.name = "core.system"` and
//! `startup.entry.args = { name, args, env, dir }`. The encoding is a TOML
//! document; every string is emitted as a basic (double-quoted) string with
//! quotes, backslashes and control characters escaped, and environment keys
//! are quoted so arbitrary keys stay well-formed.

use vstd::prelude::*;
use vstd::string::StrSliceExecFns;
use vstd::string::StringSliceAdditionalSpecFns;

use crate::descriptor::RuntimeDescriptor;

verus! {

/// The well-known path of the descriptor document inside the snapshot.
pub const STARTUP_FILE_NAME: &'static str = ".startup.toml";

// ---------------------------------------------------------------------------
// Escaping
// ---------------------------------------------------------------------------

/// Lowercase hexadecimal digit of a value below 16.
pub open spec fn spec_hex_digit(d: u8) -> u8
    recommends
        d < 16,
{
    if d < 10 {
        (0x30 + d) as u8
    } else {
        (0x57 + d) as u8
    }
}

/// How one byte of a string's UTF-8 encoding is emitted inside a
/// double-quoted string: quote and backslash are escaped, the named control
/// characters use their short escapes, other control bytes (and DEL) use
/// `\u00XX`, and everything else - multi-byte UTF-8 sequences included -
/// passes through unchanged.
pub open spec fn escape_byte(b: u8) -> Seq<u8> {
    if b == 0x22 {  // "
        seq![0x5c, 0x22]
    } else if b == 0x5c {  // backslash
        seq![0x5c, 0x5c]
    } else if b == 0x08 {
        seq![0x5c, 0x62]  // \b
    } else if b == 0x09 {
        seq![0x5c, 0x74]  // \t
    } else if b == 0x0a {
        seq![0x5c, 0x6e]  // \n
    } else if b == 0x0c {
        seq![0x5c, 0x66]  // \f
    } else if b == 0x0d {
        seq![0x5c, 0x72]  // \r
    } else if b < 0x20 || b == 0x7f {
        seq![0x5c, 0x75, 0x30, 0x30, spec_hex_digit(b / 16), spec_hex_digit(b % 16)]
    } else {
        seq![b]
    }
}

/// Byte-wise escaping of a whole UTF-8 byte sequence.
pub open spec fn escape_bytes(s: Seq<u8>) -> Seq<u8>
    decreases s.len(),
{
    if s.len() == 0 {
        Seq::<u8>::empty()
    } else {
        escape_byte(s[0]) + escape_bytes(s.drop_first())
    }
}

proof fn lemma_escape_bytes_snoc(s: Seq<u8>, b: u8)
    ensures
        escape_bytes(s.push(b)) == escape_bytes(s) + escape_byte(b),
    decreases s.len(),
{
    if s.len() == 0 {
        assert(s.push(b)[0] == b);
        assert(s.push(b).drop_first() =~= Seq::<u8>::empty());
        assert(escape_bytes(Seq::<u8>::empty()) == Seq::<u8>::empty());
        assert(escape_bytes(s.push(b)) == escape_byte(b) + escape_bytes(Seq::<u8>::empty()));
        assert(escape_bytes(s.push(b)) =~= escape_bytes(s) + escape_byte(b));
    } else {
        assert(s.push(b).drop_first() =~= s.drop_first().push(b));
        lemma_escape_bytes_snoc(s.drop_first(), b);
        assert(escape_bytes(s.push(b)) =~= escape_bytes(s) + escape_byte(b));
    }
}

/// A string as it stands between double quotes: its UTF-8 encoding, escaped.
pub open spec fn quoted(s: Seq<char>) -> Seq<u8> {
    seq![0x22u8] + escape_bytes(vstd::utf8::encode_utf8(s)) + seq![0x22u8]
}

// ---------------------------------------------------------------------------
// Document shape
// ---------------------------------------------------------------------------

/// The comma-separated quoted items of the argument array, from index `i` on.
pub open spec fn args_items_from(args: Seq<Seq<char>>, i: int) -> Seq<u8>
    decreases args.len() - i,
{
    if i < 0 || i >= args.len() {
        Seq::<u8>::empty()
    } else if i == args.len() - 1 {
        quoted(args[i])
    } else {
        quoted(args[i]) + (", ").spec_bytes() + args_items_from(args, i + 1)
    }
}

/// The `"key" = "value"` lines of the environment table, from index `i` on.
pub open spec fn env_lines_from(env: Seq<(Seq<char>, Seq<char>)>, i: int) -> Seq<u8>
    decreases env.len() - i,
{
    if i < 0 || i >= env.len() {
        Seq::<u8>::empty()
    } else {
        quoted(env[i].0) + (" = ").spec_bytes() + quoted(env[i].1) + ("\n").spec_bytes()
            + env_lines_from(env, i + 1)
    }
}

/// The whole descriptor document, byte for byte.
pub open spec fn spec_document(
    command: Seq<char>,
    args: Seq<Seq<char>>,
    env: Seq<(Seq<char>, Seq<char>)>,
    dir: Seq<char>,
) -> Seq<u8> {
    ("[startup.entry]\nname = \"core.system\"\n\n[startup.entry.args]\nname = ").spec_bytes()
        + quoted(command) + ("\nargs = [").spec_bytes() + args_items_from(args, 0) + (
    "]\ndir = ").spec_bytes() + quoted(dir) + ("\n\n[startup.entry.args.env]\n").spec_bytes()
        + env_lines_from(env, 0)
}

// ---------------------------------------------------------------------------
// Emission
// ---------------------------------------------------------------------------

fn hex_digit(d: u8) -> (r: u8)
    requires
        d < 16,
    ensures
        r == spec_hex_digit(d),
{
    if d < 10 {
        0x30 + d
    } else {
        0x57 + d
    }
}

fn push_escaped_byte(out: &mut Vec<u8>, b: u8)
    ensures
        final(out)@ == old(out)@ + escape_byte(b),
{
    if b == 0x22 {
        out.push(0x5c);
        out.push(0x22);
    } else if b == 0x5c {
        out.push(0x5c);
        out.push(0x5c);
    } else if b == 0x08 {
        out.push(0x5c);
        out.push(0x62);
    } else if b == 0x09 {
        out.push(0x5c);
        out.push(0x74);
    } else if b == 0x0a {
        out.push(0x5c);
        out.push(0x6e);
    } else if b == 0x0c {
        out.push(0x5c);
        out.push(0x66);
    } else if b == 0x0d {
        out.push(0x5c);
        out.push(0x72);
    } else if b < 0x20 || b == 0x7f {
        out.push(0x5c);
        out.push(0x75);
        out.push(0x30);
        out.push(0x30);
        out.push(hex_digit(b / 16));
        out.push(hex_digit(b % 16));
    } else {
        out.push(b);
    }
    proof {
        assert(out@ =~= old(out)@ + escape_byte(b));
    }
}

fn push_str_bytes(out: &mut Vec<u8>, s: &str)
    ensures
        final(out)@ == old(out)@ + s.spec_bytes(),
{
    let bytes = s.as_bytes_vec();
    let mut i: usize = 0;
    while i < bytes.len()
        invariant
            i <= bytes@.len(),
            bytes@ == s.spec_bytes(),
            out@ == old(out)@ + bytes@.take(i as int),
        decreases bytes@.len() - i,
    {
        out.push(bytes[i]);
        proof {
            assert(bytes@.take(i as int).push(bytes@[i as int]) =~= bytes@.take(i + 1));
            assert(out@ =~= old(out)@ + bytes@.take(i + 1));
        }
        i = i + 1;
    }
    proof {
        assert(bytes@.take(bytes@.len() as int) =~= bytes@);
    }
}

fn push_quoted(out: &mut Vec<u8>, s: &str)
    ensures
        final(out)@ == old(out)@ + quoted(s@),
{
    out.push(0x22);
    let bytes = s.as_bytes_vec();
    let mut i: usize = 0;
    while i < bytes.len()
        invariant
            i <= bytes@.len(),
            bytes@ == s.spec_bytes(),
            out@ == old(out)@ + seq![0x22u8] + escape_bytes(bytes@.take(i as int)),
        decreases bytes@.len() - i,
    {
        push_escaped_byte(out, bytes[i]);
        proof {
            assert(bytes@.take(i as int).push(bytes@[i as int]) =~= bytes@.take(i + 1));
            lemma_escape_bytes_snoc(bytes@.take(i as int), bytes@[i as int]);
            assert(out@ =~= old(out)@ + seq![0x22u8] + escape_bytes(bytes@.take(i + 1)));
        }
        i = i + 1;
    }
    out.push(0x22);
    proof {
        assert(bytes@.take(bytes@.len() as int) =~= bytes@);
        assert(out@ =~= old(out)@ + quoted(s@));
    }
}

fn push_args_items(out: &mut Vec<u8>, args: &Vec<String>, i: usize)
    requires
        i <= args@.len(),
    ensures
        final(out)@ == old(out)@ + args_items_from(args.deep_view(), i as int),
    decreases args@.len() - i,
{
    if i < args.len() {
        push_quoted(out, args[i].as_str());
        if i + 1 < args.len() {
            push_str_bytes(out, ", ");
            push_args_items(out, args, i + 1);
            proof {
                assert(out@ =~= old(out)@ + args_items_from(args.deep_view(), i as int));
            }
        } else {
            proof {
                assert(out@ =~= old(out)@ + args_items_from(args.deep_view(), i as int));
            }
        }
    } else {
        proof {
            assert(out@ =~= old(out)@ + args_items_from(args.deep_view(), i as int));
        }
    }
}

fn push_env_lines(out: &mut Vec<u8>, env: &Vec<(String, String)>, i: usize)
    requires
        i <= env@.len(),
    ensures
        final(out)@ == old(out)@ + env_lines_from(env.deep_view(), i as int),
    decreases env@.len() - i,
{
    if i < env.len() {
        push_quoted(out, env[i].0.as_str());
        push_str_bytes(out, " = ");
        push_quoted(out, env[i].1.as_str());
        push_str_bytes(out, "\n");
        push_env_lines(out, env, i + 1);
        proof {
            assert(out@ =~= old(out)@ + env_lines_from(env.deep_view(), i as int));
        }
    } else {
        proof {
            assert(out@ =~= old(out)@ + env_lines_from(env.deep_view(), i as int));
        }
    }
}

/// Encode a descriptor as the startup document, byte for byte as
/// [`spec_document`] lays it out. The host program writes these bytes to
/// [`STARTUP_FILE_NAME`] inside the exported snapshot.
pub fn descriptor_document(d: &RuntimeDescriptor) -> (out: Vec<u8>)
    ensures
        out@ == spec_document(d.command@, d.args.deep_view(), d.env.deep_view(), d.working_dir@),
{
    let mut out: Vec<u8> = Vec::new();
    push_str_bytes(&mut out, "[startup.entry]\nname = \"core.system\"\n\n[startup.entry.args]\nname = ");
    push_quoted(&mut out, d.command.as_str());
    push_str_bytes(&mut out, "\nargs = [");
    push_args_items(&mut out, &d.args, 0);
    push_str_bytes(&mut out, "]\ndir = ");
    push_quoted(&mut out, d.working_dir.as_str());
    push_str_bytes(&mut out, "\n\n[startup.entry.args.env]\n");
    push_env_lines(&mut out, &d.env, 0);
    proof {
        assert(out@ =~= spec_document(
            d.command@,
            d.args.deep_view(),
            d.env.deep_view(),
            d.working_dir@,
        ));
    }
    out
}

} // verus!
