//! Distributed trace-context extraction.
//!
//! An inbound request may carry a trace-context header of the form
//! `00-<32 hex digits>-<16 hex digits>-<2 hex digits>` (version, trace
//! id, parent span id, flags; trace id and span id nonzero) and a
//! baggage header of comma-separated `key=value` entries. Malformed
//! input never fails a request: each portion parses independently and
//! a malformed portion is simply absent.

use vstd::prelude::*;

verus! {

/// A well-formed inbound trace parent: the identifiers under which the
/// request's root span joins an externally started trace.
#[derive(Debug, Clone, Copy, PartialEq, Eq, Structural)]
pub struct TraceParent {
    pub trace_id: u128,
    pub parent_span_id: u64,
    pub flags: u8,
}

/// A best-effort combination of the two context headers.
#[derive(Debug, Clone)]
pub struct TraceContext {
    /// Present when the trace-context header was well formed.
    pub parent: Option<TraceParent>,
    /// Baggage entries, in header order; empty when absent or malformed.
    pub baggage: Vec<(String, String)>,
}

pub open spec fn is_hex_digit(c: char) -> bool {
    ('0' <= c && c <= '9') || ('a' <= c && c <= 'f')
}

/// Value of one lowercase hex digit; zero on any other character.
pub open spec fn hex_digit_val(c: char) -> int {
    if '0' <= c && c <= '9' {
        c as u32 - 48
    } else if 'a' <= c && c <= 'f' {
        c as u32 - 87
    } else {
        0
    }
}

/// Value of a big-endian run of hex digits.
pub open spec fn hex_seq_val(s: Seq<char>) -> int
    decreases s.len(),
{
    if s.len() == 0 {
        0
    } else {
        hex_seq_val(s.drop_last()) * 16 + hex_digit_val(s.last())
    }
}

/// Sixteen to the `n`th power.
pub open spec fn pow16(n: nat) -> int
    decreases n,
{
    if n == 0 {
        1
    } else {
        16 * pow16((n - 1) as nat)
    }
}

pub proof fn lemma_pow16_pos(n: nat)
    ensures
        pow16(n) >= 1,
    decreases n,
{
    if n > 0 {
        lemma_pow16_pos((n - 1) as nat);
    }
}

pub proof fn lemma_pow16_monotonic(a: nat, b: nat)
    requires
        a <= b,
    ensures
        pow16(a) <= pow16(b),
    decreases b,
{
    if a < b {
        lemma_pow16_monotonic(a, (b - 1) as nat);
        lemma_pow16_pos((b - 1) as nat);
    }
}

/// A run of hex digits of length `n` denotes a value below `16^n`.
pub proof fn lemma_hex_seq_val_bound(s: Seq<char>)
    ensures
        0 <= hex_seq_val(s) < pow16(s.len()),
    decreases s.len(),
{
    if s.len() > 0 {
        lemma_hex_seq_val_bound(s.drop_last());
    }
}

/// The trace-context header grammar: version `00`, then 32 hex digits
/// of trace id, 16 of parent span id and 2 of flags, dash-separated;
/// trace id and span id must not be all zero.
pub open spec fn well_formed_traceparent(s: Seq<char>) -> bool {
    &&& s.len() == 55
    &&& s[0] == '0' && s[1] == '0'
    &&& s[2] == '-' && s[35] == '-' && s[52] == '-'
    &&& (forall|j: int| 3 <= j < 35 ==> is_hex_digit(#[trigger] s[j]))
    &&& (forall|j: int| 36 <= j < 52 ==> is_hex_digit(#[trigger] s[j]))
    &&& is_hex_digit(s[53]) && is_hex_digit(s[54])
    &&& hex_seq_val(s.subrange(3, 35)) != 0
    &&& hex_seq_val(s.subrange(36, 52)) != 0
}

/// What a trace-context header denotes: the decoded identifiers when it
/// is well formed, nothing otherwise.
pub open spec fn traceparent_of(s: Seq<char>) -> Option<TraceParent> {
    if well_formed_traceparent(s) {
        Some(
            TraceParent {
                trace_id: hex_seq_val(s.subrange(3, 35)) as u128,
                parent_span_id: hex_seq_val(s.subrange(36, 52)) as u64,
                flags: hex_seq_val(s.subrange(53, 55)) as u8,
            },
        )
    } else {
        None
    }
}

/// Decode one lowercase hex digit.
fn hex_digit_value(c: char) -> (r: Option<u8>)
    ensures
        match r {
            Some(v) => is_hex_digit(c) && v == hex_digit_val(c),
            None => !is_hex_digit(c),
        },
{
    let n = c as u32;
    if '0' <= c && c <= '9' {
        Some((n - 48) as u8)
    } else if 'a' <= c && c <= 'f' {
        Some((n - 87) as u8)
    } else {
        None
    }
}

/// Decode the hex digits of `s` at positions `from..to` (at most 32 of
/// them, so the value fits).
fn parse_hex_run(s: &str, from: usize, to: usize) -> (r: Option<u128>)
    requires
        from <= to <= s@.len(),
        to - from <= 32,
    ensures
        match r {
            Some(v) => (forall|j: int| from <= j < to ==> is_hex_digit(#[trigger] s@[j])) && v
                == hex_seq_val(s@.subrange(from as int, to as int)),
            None => !(forall|j: int| from <= j < to ==> is_hex_digit(#[trigger] s@[j])),
        },
{
    let mut v: u128 = 0;
    let mut i: usize = from;
    proof {
        assert(s@.subrange(from as int, from as int) =~= Seq::<char>::empty());
    }
    while i < to
        invariant
            from <= i <= to <= s@.len(),
            to - from <= 32,
            forall|j: int| from <= j < i ==> is_hex_digit(#[trigger] s@[j]),
            v == hex_seq_val(s@.subrange(from as int, i as int)),
            v < pow16((i - from) as nat),
        decreases to - i,
    {
        let c = s.get_char(i);
        let ghost prefix = s@.subrange(from as int, i as int);
        match hex_digit_value(c) {
            None => {
                return None;
            },
            Some(d) => {
                proof {
                    lemma_pow16_monotonic((i - from + 1) as nat, 32);
                    assert(pow16(32) == 0x100000000000000000000000000000000) by {
                        reveal_with_fuel(pow16, 33);
                    }
                    assert(s@.subrange(from as int, i + 1).drop_last() =~= prefix);
                    assert(s@.subrange(from as int, i + 1).last() == s@[i as int]);
                }
                v = v * 16 + (d as u128);
                i = i + 1;
            },
        }
    }
    proof {
        assert(s@.subrange(from as int, to as int) =~= s@.subrange(from as int, i as int));
    }
    Some(v)
}

/// Index of the first occurrence of `c` in `s`, or `s.len()` if absent.
pub open spec fn sep_index(s: Seq<char>, c: char) -> int
    decreases s.len(),
{
    if s.len() == 0 {
        0
    } else if s[0] == c {
        0
    } else {
        1 + sep_index(s.drop_first(), c)
    }
}

/// Links a forward scan to `sep_index`: if nothing matches before `i`
/// and `i` matches (or the end was reached), `i` is the first occurrence.
pub proof fn lemma_sep_index_at(s: Seq<char>, c: char, i: int)
    requires
        0 <= i <= s.len(),
        forall|j: int| 0 <= j < i ==> s[j] != c,
        i < s.len() ==> s[i] == c,
    ensures
        sep_index(s, c) == i,
    decreases s.len(),
{
    if s.len() > 0 && i > 0 {
        lemma_sep_index_at(s.drop_first(), c, i - 1);
    }
}

/// The entries denoted by one baggage list member: a single key/value
/// pair split on the first `=`, or nothing when no `=` is present.
pub open spec fn entry_of(s: Seq<char>) -> Seq<(Seq<char>, Seq<char>)> {
    let j = sep_index(s, '=');
    if 0 <= j < s.len() {
        seq![(s.take(j), s.skip(j + 1))]
    } else {
        Seq::empty()
    }
}

/// The entries denoted by a baggage header: comma-separated members,
/// each parsed independently; a member without `=` contributes nothing.
pub open spec fn baggage_of(s: Seq<char>) -> Seq<(Seq<char>, Seq<char>)>
    decreases s.len(),
{
    let i = sep_index(s, ',');
    if 0 <= i < s.len() {
        entry_of(s.take(i)) + baggage_of(s.skip(i + 1))
    } else {
        entry_of(s)
    }
}

/// View of parsed baggage entries.
pub open spec fn pairs_view(v: Seq<(String, String)>) -> Seq<(Seq<char>, Seq<char>)> {
    v.map_values(|p: (String, String)| (p.0@, p.1@))
}

/// First index of `c` in `s`, or the length of `s` if absent.
fn find_char(s: &str, c: char) -> (r: usize)
    ensures
        r == sep_index(s@, c),
        r <= s@.len(),
{
    let n = s.unicode_len();
    let mut i: usize = 0;
    while i < n
        invariant
            i <= n == s@.len(),
            forall|j: int| 0 <= j < i ==> s@[j] != c,
        decreases n - i,
    {
        if s.get_char(i) == c {
            proof {
                lemma_sep_index_at(s@, c, i as int);
            }
            return i;
        }
        i = i + 1;
    }
    proof {
        lemma_sep_index_at(s@, c, n as int);
    }
    n
}

/// Parse one baggage list member.
fn parse_baggage_entry(s: &str) -> (r: Option<(String, String)>)
    ensures
        match r {
            Some(p) => entry_of(s@) == seq![(p.0@, p.1@)],
            None => entry_of(s@) == Seq::<(Seq<char>, Seq<char>)>::empty(),
        },
{
    let n = s.unicode_len();
    let j = find_char(s, '=');
    if j >= n {
        None
    } else {
        let key = s.substring_char(0, j);
        let value = s.substring_char(j + 1, n);
        proof {
            assert(s@.subrange(0, j as int) =~= s@.take(j as int));
            assert(s@.subrange(j + 1, n as int) =~= s@.skip(j + 1));
        }
        Some((String::from_str(key), String::from_str(value)))
    }
}

/// Parse a baggage header into its entries, in order. Malformed members
/// are dropped, never an error.
pub fn parse_baggage(s: &str) -> (r: Vec<(String, String)>)
    ensures
        pairs_view(r@) == baggage_of(s@),
    decreases s@.len(),
{
    let n = s.unicode_len();
    let i = find_char(s, ',');
    let mut r: Vec<(String, String)> = Vec::new();
    if i >= n {
        match parse_baggage_entry(s) {
            Some(p) => {
                r.push(p);
                proof {
                    assert(pairs_view(r@) =~= baggage_of(s@));
                }
            },
            None => {
                proof {
                    assert(pairs_view(r@) =~= baggage_of(s@));
                }
            },
        }
        r
    } else {
        let head = s.substring_char(0, i);
        let tail = s.substring_char(i + 1, n);
        proof {
            assert(s@.subrange(0, i as int) =~= s@.take(i as int));
            assert(s@.subrange(i + 1, n as int) =~= s@.skip(i + 1));
        }
        match parse_baggage_entry(head) {
            Some(p) => {
                r.push(p);
            },
            None => {},
        }
        let mut rest = parse_baggage(tail);
        r.append(&mut rest);
        proof {
            assert(pairs_view(r@) =~= baggage_of(s@));
        }
        r
    }
}

/// Combine the two context headers, best effort: the parent is present
/// exactly when the trace-context header is well formed, the baggage
/// holds whatever entries parsed, and the whole context is absent only
/// when neither header yielded anything.
pub fn extract(traceparent: Option<&str>, baggage: Option<&str>) -> (r: Option<TraceContext>)
    ensures
        ({
            let p = match traceparent {
                Some(t) => traceparent_of(t@),
                None => None,
            };
            let b = match baggage {
                Some(bs) => baggage_of(bs@),
                None => Seq::<(Seq<char>, Seq<char>)>::empty(),
            };
            match r {
                Some(c) => (p is Some || b.len() > 0) && c.parent == p && pairs_view(c.baggage@)
                    == b,
                None => p is None && b.len() == 0,
            }
        }),
{
    let parent = match traceparent {
        Some(t) => parse_traceparent(t),
        None => None,
    };
    let entries = match baggage {
        Some(bs) => parse_baggage(bs),
        None => {
            let empty: Vec<(String, String)> = Vec::new();
            proof {
                assert(pairs_view(empty@) =~= Seq::<(Seq<char>, Seq<char>)>::empty());
            }
            empty
        },
    };
    if parent.is_none() && entries.len() == 0 {
        None
    } else {
        Some(TraceContext { parent, baggage: entries })
    }
}

/// Parse a trace-context header. Returns the decoded identifiers exactly
/// when the header is well formed.
pub fn parse_traceparent(s: &str) -> (r: Option<TraceParent>)
    ensures
        r == traceparent_of(s@),
        r is Some <==> well_formed_traceparent(s@),
{
    if s.unicode_len() != 55 {
        return None;
    }
    if !(s.get_char(0) == '0' && s.get_char(1) == '0') {
        return None;
    }
    if !(s.get_char(2) == '-' && s.get_char(35) == '-' && s.get_char(52) == '-') {
        return None;
    }
    let trace_id = match parse_hex_run(s, 3, 35) {
        Some(v) => v,
        None => {
            return None;
        },
    };
    let span_run = match parse_hex_run(s, 36, 52) {
        Some(v) => v,
        None => {
            return None;
        },
    };
    let flags_run = match parse_hex_run(s, 53, 55) {
        Some(v) => v,
        None => {
            return None;
        },
    };
    if trace_id == 0 || span_run == 0 {
        return None;
    }
    proof {
        lemma_hex_seq_val_bound(s@.subrange(36, 52));
        lemma_hex_seq_val_bound(s@.subrange(53, 55));
        lemma_pow16_monotonic(16, 32);
        lemma_pow16_monotonic(2, 32);
        assert(pow16(16) == 0x10000000000000000) by {
            reveal_with_fuel(pow16, 17);
        }
        assert(pow16(2) == 256) by {
            reveal_with_fuel(pow16, 3);
        }
    }
    Some(
        TraceParent {
            trace_id,
            parent_span_id: span_run as u64,
            flags: flags_run as u8,
        },
    )
}

} // verus!
