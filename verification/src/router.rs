//! The sharded store router.
//!
//! A conversion writes content-addressed blobs to one or more backing stores.
//! The router partitions the content-hash byte space 0x00-0xFF across those
//! stores: each registered range is an inclusive byte interval mapped to one
//! store handle, and a fingerprint's leading byte is routed to the first
//! registered range that contains it (first-match-wins; later overlapping
//! ranges are shadowed).
//!
//! Store specification grammar. A specification string is either
//! - a sharded entry `hh-hh=url` (two two-digit lowercase hexadecimal bytes,
//!   an inclusive interval, then `=` and a non-empty backend URL), or
//! - a bare backend URL, which is assigned the full range 0x00-0xFF.
//!
//! A string whose first `=` has no `:` before it is taken as an attempted
//! sharded entry - the text before that `=` is its range token, and a URL's
//! scheme would have put a `:` there first. Such a string must be a
//! well-formed sharded entry: if its range token is not two lowercase hex
//! bytes joined by `-`, or the URL part is empty, parsing fails with
//! `InvalidRangeFormat`. Every other string - with no `=`, or with a `:`
//! before the first `=`, as in a query string - is a bare URL. Constructing
//! the store handle for a parsed URL is the external store factory's job;
//! its failures, a scheme-less or unknown-scheme URL among them, surface as
//! `StoreInitError`.

use vstd::prelude::*;
use vstd::string::StrSliceExecFns;

use crate::error::ConversionError;

verus! {

// ---------------------------------------------------------------------------
// Specification grammar
// ---------------------------------------------------------------------------

/// A lowercase hexadecimal digit of the range token.
pub open spec fn is_hex_digit(c: char) -> bool {
    ('0' <= c && c <= '9') || ('a' <= c && c <= 'f')
}

/// Numeric value of a lowercase hexadecimal digit.
pub open spec fn hex_value(c: char) -> int
    recommends
        is_hex_digit(c),
{
    if '0' <= c && c <= '9' {
        c as int - '0' as int
    } else {
        c as int - 'a' as int + 10
    }
}

/// Value of a two-digit hexadecimal byte `hl`.
pub open spec fn hex_byte(h: char, l: char) -> int {
    16 * hex_value(h) + hex_value(l)
}

/// The text before position `i` is the string's range token: `i` holds the
/// string's first `=`, and no `:` stands before it (a URL's scheme would
/// have put one there).
pub open spec fn attempt_at(s: Seq<char>, i: int) -> bool {
    &&& 0 <= i < s.len()
    &&& s[i] == '='
    &&& forall|j: int| 0 <= j < i ==> s[j] != '=' && s[j] != ':'
}

/// The string is an attempted sharded entry: it carries a range token.
pub open spec fn sharded_attempt(s: Seq<char>) -> bool {
    exists|i: int| attempt_at(s, i)
}

/// The string is a well-formed sharded entry `hh-hh=url`: its range token is
/// exactly two lowercase hex bytes joined by `-`, and the URL after the `=`
/// is non-empty.
pub open spec fn sharded_entry(s: Seq<char>) -> bool {
    &&& attempt_at(s, 5)
    &&& s.len() > 6
    &&& s[2] == '-'
    &&& is_hex_digit(s[0])
    &&& is_hex_digit(s[1])
    &&& is_hex_digit(s[3])
    &&& is_hex_digit(s[4])
}

/// What a specification string parses to: `Some((low, high, url))`, or `None`
/// when the string is a malformed sharded entry (`InvalidRangeFormat`).
pub open spec fn spec_parse_store_spec(s: Seq<char>) -> Option<(int, int, Seq<char>)> {
    if sharded_attempt(s) {
        if sharded_entry(s) {
            Some((hex_byte(s[0], s[1]), hex_byte(s[3], s[4]), s.skip(6)))
        } else {
            None
        }
    } else {
        Some((0x00, 0xff, s))
    }
}

// ---------------------------------------------------------------------------
// Parsing
// ---------------------------------------------------------------------------

/// A parsed store specification: an inclusive byte range and the backend URL
/// whose store handle the external factory is to build.
#[derive(Debug, Clone)]
pub struct RangeSpec {
    pub low: u8,
    pub high: u8,
    pub url: String,
}

fn is_hex_digit_exec(c: char) -> (b: bool)
    ensures
        b == is_hex_digit(c),
{
    ('0' <= c && c <= '9') || ('a' <= c && c <= 'f')
}

fn hex_byte_exec(h: char, l: char) -> (b: u8)
    requires
        is_hex_digit(h),
        is_hex_digit(l),
    ensures
        b as int == hex_byte(h, l),
{
    let hv: u8 = if '0' <= h && h <= '9' {
        (h as u8) - ('0' as u8)
    } else {
        (h as u8) - ('a' as u8) + 10
    };
    let lv: u8 = if '0' <= l && l <= '9' {
        (l as u8) - ('0' as u8)
    } else {
        (l as u8) - ('a' as u8) + 10
    };
    16 * hv + lv
}

/// The position of the string's first `=` when no `:` precedes it: where
/// the string carries a range token, its end; `None` for every other
/// string, which the grammar reads as a bare URL.
fn find_range_token_end(s: &str) -> (r: Option<usize>)
    ensures
        match r {
            Some(p) => attempt_at(s@, p as int),
            None => !sharded_attempt(s@),
        },
{
    let n = s.unicode_len();
    let mut j: usize = 0;
    while j < n
        invariant
            n == s@.len(),
            j <= n,
            forall|l: int| 0 <= l < j ==> s@[l] != '=' && s@[l] != ':',
        decreases n - j,
    {
        let c = s.get_char(j);
        if c == '=' {
            return Some(j);
        }
        if c == ':' {
            proof {
                assert forall|i: int| !#[trigger] attempt_at(s@, i) by {
                    if attempt_at(s@, i) {
                        assert(s@[i] == '=');
                        assert(i > j);
                        assert(s@[j as int] != ':');
                    }
                }
            }
            return None;
        }
        j = j + 1;
    }
    proof {
        assert forall|i: int| !#[trigger] attempt_at(s@, i) by {
            if attempt_at(s@, i) {
                assert(s@[i] == '=');
            }
        }
    }
    None
}

/// Parse one store specification string against the grammar above.
///
/// Returns the inclusive byte range and backend URL of the entry; a bare URL
/// gets the full range 0x00-0xFF. Fails with `InvalidRangeFormat` exactly on
/// the strings that the grammar rejects: an attempted sharded entry - one
/// whose first `=` has no `:` before it - whose range token is not two
/// lowercase hex bytes joined by `-`, or whose URL part is empty.
pub fn parse_store_spec(s: &str) -> (r: Result<RangeSpec, ConversionError>)
    ensures
        match r {
            Ok(rs) => spec_parse_store_spec(s@) == Some(
                (rs.low as int, rs.high as int, rs.url@),
            ),
            Err(e) => spec_parse_store_spec(s@) is None && e
                == ConversionError::InvalidRangeFormat,
        },
{
    let n = s.unicode_len();
    match find_range_token_end(s) {
        None => Ok(RangeSpec { low: 0x00, high: 0xff, url: s.to_owned() }),
        Some(p) => {
            if p == 5 && n > 6 && s.get_char(2) == '-' {
                let c0 = s.get_char(0);
                let c1 = s.get_char(1);
                let c3 = s.get_char(3);
                let c4 = s.get_char(4);
                if is_hex_digit_exec(c0) && is_hex_digit_exec(c1) && is_hex_digit_exec(c3)
                    && is_hex_digit_exec(c4) {
                    let low = hex_byte_exec(c0, c1);
                    let high = hex_byte_exec(c3, c4);
                    let url = s.substring_char(6, n).to_owned();
                    Ok(RangeSpec { low, high, url })
                } else {
                    Err(ConversionError::InvalidRangeFormat)
                }
            } else {
                proof {
                    if p != 5 && attempt_at(s@, 5) {
                        if p < 5 {
                            assert(s@[p as int] == '=');
                        } else {
                            assert(s@[5] == '=');
                        }
                        assert(false);
                    }
                }
                Err(ConversionError::InvalidRangeFormat)
            }
        },
    }
}

/// Parse an ordered list of store specification strings.
///
/// Succeeds if and only if every specification is accepted by the grammar;
/// the parsed ranges keep the input order. The first malformed specification
/// aborts parsing with `InvalidRangeFormat`.
pub fn parse_store_specs(specs: &Vec<String>) -> (r: Result<Vec<RangeSpec>, ConversionError>)
    ensures
        match r {
            Ok(v) => {
                &&& v@.len() == specs@.len()
                &&& forall|i: int|
                    0 <= i < specs@.len() ==> spec_parse_store_spec(specs@[i]@) == Some(
                        (#[trigger] v@[i].low as int, v@[i].high as int, v@[i].url@),
                    )
            },
            Err(e) => {
                &&& e == ConversionError::InvalidRangeFormat
                &&& exists|i: int|
                    0 <= i < specs@.len() && #[trigger] spec_parse_store_spec(specs@[i]@) is None
            },
        },
{
    let mut out: Vec<RangeSpec> = Vec::new();
    let mut i: usize = 0;
    while i < specs.len()
        invariant
            i <= specs@.len(),
            out@.len() == i,
            forall|j: int|
                0 <= j < i ==> spec_parse_store_spec(specs@[j]@) == Some(
                    (#[trigger] out@[j].low as int, out@[j].high as int, out@[j].url@),
                ),
        decreases specs@.len() - i,
    {
        match parse_store_spec(specs[i].as_str()) {
            Ok(rs) => {
                out.push(rs);
            },
            Err(e) => {
                return Err(e);
            },
        }
        i = i + 1;
    }
    Ok(out)
}

// ---------------------------------------------------------------------------
// The router
// ---------------------------------------------------------------------------

/// One registered shard: an inclusive byte interval mapped to a store handle.
pub struct StoreRange<S> {
    pub low: u8,
    pub high: u8,
    pub store: S,
}

/// The byte in the range's inclusive interval.
pub open spec fn in_range<S>(rg: StoreRange<S>, b: u8) -> bool {
    rg.low <= b && b <= rg.high
}

/// Index `i` is the first registered range containing `b`.
pub open spec fn first_match_at<S>(ranges: Seq<StoreRange<S>>, b: u8, i: int) -> bool {
    &&& 0 <= i < ranges.len()
    &&& in_range(ranges[i], b)
    &&& forall|j: int| 0 <= j < i ==> !in_range(#[trigger] ranges[j], b)
}

/// Routes the leading byte of a content fingerprint to the store of the first
/// registered range that contains it. Insertion order is preserved; overlaps
/// are resolved first-match-wins.
pub struct Router<S> {
    ranges: Vec<StoreRange<S>>,
}

impl<S> View for Router<S> {
    type V = Seq<StoreRange<S>>;

    closed spec fn view(&self) -> Seq<StoreRange<S>> {
        self.ranges@
    }
}

impl<S> Router<S> {
    /// A router with no registered ranges.
    pub fn new() -> (r: Router<S>)
        ensures
            r@ == Seq::<StoreRange<S>>::empty(),
    {
        Router { ranges: Vec::new() }
    }

    /// Register the inclusive range `low..=high` for `store`, after every
    /// range registered so far.
    pub fn add(&mut self, low: u8, high: u8, store: S)
        ensures
            final(self)@ == old(self)@.push((StoreRange { low, high, store })),
    {
        self.ranges.push(StoreRange { low, high, store });
    }

    /// Route byte `b` to the store of the first registered range containing
    /// it; `RouteNotFound` when no registered range contains `b`.
    pub fn route(&self, b: u8) -> (r: Result<&S, ConversionError>)
        ensures
            match r {
                Ok(s) => exists|i: int| #[trigger] first_match_at(self@, b, i) && *s == self@[i].store,
                Err(e) => {
                    &&& e == ConversionError::RouteNotFound
                    &&& forall|i: int| 0 <= i < self@.len() ==> !in_range(#[trigger] self@[i], b)
                },
            },
    {
        let mut i: usize = 0;
        while i < self.ranges.len()
            invariant
                i <= self@.len(),
                forall|j: int| 0 <= j < i ==> !in_range(#[trigger] self@[j], b),
            decreases self@.len() - i,
        {
            if self.ranges[i].low <= b && b <= self.ranges[i].high {
                assert(first_match_at(self@, b, i as int));
                return Ok(&self.ranges[i].store);
            }
            i = i + 1;
        }
        Err(ConversionError::RouteNotFound)
    }

    /// How many ranges are registered.
    pub fn len(&self) -> (n: usize)
        ensures
            n == self@.len(),
    {
        self.ranges.len()
    }

    /// The range registered at position `i`.
    pub fn range_at(&self, i: usize) -> (r: &StoreRange<S>)
        requires
            i < self@.len(),
        ensures
            *r == self@[i as int],
    {
        &self.ranges[i]
    }

    /// Build a router from parsed range specifications and the store handles
    /// the external factory produced for them, one handle per specification,
    /// in order.
    pub fn from_parts(specs: &Vec<RangeSpec>, mut stores: Vec<S>) -> (r: Router<S>)
        requires
            specs@.len() == stores@.len(),
        ensures
            r@.len() == specs@.len(),
            forall|i: int|
                0 <= i < specs@.len() ==> {
                    &&& (#[trigger] r@[i]).low == specs@[i].low
                    &&& r@[i].high == specs@[i].high
                    &&& r@[i].store == stores@[i]
                },
    {
        let ghost all_stores = stores@;
        let mut router: Router<S> = Router::new();
        let mut i: usize = 0;
        while i < specs.len()
            invariant
                i <= specs@.len(),
                specs@.len() == all_stores.len(),
                stores@ == all_stores.skip(i as int),
                router@.len() == i,
                forall|j: int|
                    0 <= j < i ==> {
                        &&& (#[trigger] router@[j]).low == specs@[j].low
                        &&& router@[j].high == specs@[j].high
                        &&& router@[j].store == all_stores[j]
                    },
            decreases specs@.len() - i,
        {
            let store = stores.remove(0);
            router.add(specs[i].low, specs[i].high, store);
            i = i + 1;
        }
        router
    }
}

// ---------------------------------------------------------------------------
// Resolution laws
// ---------------------------------------------------------------------------

/// First-match resolution is a function: a byte resolves to at most one
/// registered range. Together with `lemma_covered_byte_resolves` this gives
/// exactly one store for every byte that some registered range contains.
pub proof fn lemma_first_match_unique<S>(ranges: Seq<StoreRange<S>>, b: u8, i: int, j: int)
    requires
        first_match_at(ranges, b, i),
        first_match_at(ranges, b, j),
    ensures
        i == j,
{
}

/// Every byte contained in some registered range resolves: there is a first
/// registered range containing it, so `route` cannot return `RouteNotFound`.
pub proof fn lemma_covered_byte_resolves<S>(ranges: Seq<StoreRange<S>>, b: u8)
    requires
        exists|k: int| 0 <= k < ranges.len() && in_range(#[trigger] ranges[k], b),
    ensures
        exists|i: int| #[trigger] first_match_at(ranges, b, i),
    decreases ranges.len(),
{
    if in_range(ranges[0], b) {
        assert(first_match_at(ranges, b, 0));
    } else {
        let k = choose|k: int| 0 <= k < ranges.len() && in_range(#[trigger] ranges[k], b);
        let rest = ranges.drop_first();
        assert(in_range(rest[k - 1], b));
        lemma_covered_byte_resolves(rest, b);
        let i = choose|i: int| #[trigger] first_match_at(rest, b, i);
        assert forall|j: int| 0 <= j < i + 1 implies !in_range(#[trigger] ranges[j], b) by {
            if j > 0 {
                assert(rest[j - 1] == ranges[j]);
            }
        }
        assert(first_match_at(ranges, b, i + 1));
    }
}

/// A router whose one registered range is the full interval 0x00-0xFF — as a
/// router built from a single bare URL is — resolves every byte to that one
/// store.
pub proof fn lemma_single_full_range_resolves_all<S>(ranges: Seq<StoreRange<S>>)
    requires
        ranges.len() == 1,
        ranges[0].low == 0x00,
        ranges[0].high == 0xff,
    ensures
        forall|b: u8| first_match_at(ranges, b, 0),
{
}

} // verus!
