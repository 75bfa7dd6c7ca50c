use vstd::prelude::*;

use crate::errors::OrchestratorError;

verus! {

/// The ASCII whitespace bytes that surrounding a bytecode payload are
/// ignored: space, tab, line feed, vertical tab, form feed, carriage
/// return.
pub open spec fn is_space(b: u8) -> bool {
    b == 0x20 || b == 0x09 || b == 0x0a || b == 0x0b || b == 0x0c || b == 0x0d
}

/// The bytes that may appear in a hex payload: `0-9`, `a-f`, `A-F`.
pub open spec fn is_hex_digit(b: u8) -> bool {
    (0x30 <= b && b <= 0x39) || (0x61 <= b && b <= 0x66) || (0x41 <= b && b <= 0x46)
}

/// The numeric value of a hex digit (meaningful only when `is_hex_digit(b)`).
pub open spec fn hex_val(b: u8) -> u8 {
    if 0x30 <= b && b <= 0x39 {
        (b - 0x30) as u8
    } else if 0x61 <= b && b <= 0x66 {
        ((b - 0x61) + 10) as u8
    } else {
        ((b - 0x41) + 10) as u8
    }
}

pub open spec fn is_hex_seq(s: Seq<u8>) -> bool {
    forall|i: int| 0 <= i < s.len() ==> is_hex_digit(#[trigger] s[i])
}

/// The byte payload denoted by a sequence of hex digits, two digits per byte.
pub open spec fn decoded_hex(s: Seq<u8>) -> Seq<u8> {
    Seq::new(s.len() / 2, |i: int| (hex_val(s[2 * i]) * 16 + hex_val(s[2 * i + 1])) as u8)
}

/// What remains of `s` once leading whitespace is removed.
pub open spec fn trim_front(s: Seq<u8>) -> Seq<u8>
    decreases s.len(),
{
    if s.len() > 0 && is_space(s[0]) {
        trim_front(s.drop_first())
    } else {
        s
    }
}

/// What remains of `s` once trailing whitespace is removed.
pub open spec fn trim_back(s: Seq<u8>) -> Seq<u8>
    decreases s.len(),
{
    if s.len() > 0 && is_space(s.last()) {
        trim_back(s.drop_last())
    } else {
        s
    }
}

pub open spec fn trimmed(s: Seq<u8>) -> Seq<u8> {
    trim_back(trim_front(s))
}

/// Removes one optional leading `"0x"`.
pub open spec fn strip_hex_prefix(s: Seq<u8>) -> Seq<u8> {
    if s.len() >= 2 && s[0] == 0x30 && s[1] == 0x78 {
        s.skip(2)
    } else {
        s
    }
}

/// The canonical byte payload of a bytecode text: surrounding whitespace and
/// an optional `"0x"` prefix are dropped, and the remaining text must be an
/// even-length sequence of hex digits; otherwise the text is malformed.
pub open spec fn bytecode_payload(s: Seq<u8>) -> Option<Seq<u8>> {
    let c = strip_hex_prefix(trimmed(s));
    if c.len() % 2 == 0 && is_hex_seq(c) {
        Some(decoded_hex(c))
    } else {
        None::<Seq<u8>>
    }
}

fn hex_digit_value(b: u8) -> (r: Option<u8>)
    ensures
        r == (if is_hex_digit(b) {
            Some(hex_val(b))
        } else {
            None::<u8>
        }),
{
    if 0x30 <= b && b <= 0x39 {
        Some(b - 0x30)
    } else if 0x61 <= b && b <= 0x66 {
        Some(b - 0x61 + 10)
    } else if 0x41 <= b && b <= 0x46 {
        Some(b - 0x41 + 10)
    } else {
        None
    }
}

fn is_space_byte(b: u8) -> (r: bool)
    ensures
        r == is_space(b),
{
    b == 0x20 || b == 0x09 || b == 0x0a || b == 0x0b || b == 0x0c || b == 0x0d
}

/// Decodes an even-length sequence of hex digits into bytes; `None` exactly
/// when the input has odd length or holds a byte that is no hex digit.
pub fn decode_hex_bytes(s: &[u8]) -> (r: Option<Vec<u8>>)
    ensures
        r is Some <==> (s@.len() % 2 == 0 && is_hex_seq(s@)),
        r matches Some(v) ==> v@ == decoded_hex(s@),
{
    if s.len() % 2 != 0 {
        return None;
    }
    let mut out: Vec<u8> = Vec::new();
    let mut i: usize = 0;
    while i < s.len()
        invariant
            s@.len() % 2 == 0,
            i % 2 == 0,
            i <= s@.len(),
            out@.len() == i / 2,
            forall|j: int| 0 <= j < i ==> is_hex_digit(#[trigger] s@[j]),
            forall|j: int| 0 <= j < i / 2 ==> out@[j] == decoded_hex(s@)[j],
        decreases s@.len() - i,
    {
        let hi = match hex_digit_value(s[i]) {
            Some(v) => v,
            None => {
                return None;
            },
        };
        let lo = match hex_digit_value(s[i + 1]) {
            Some(v) => v,
            None => {
                return None;
            },
        };
        out.push(hi * 16 + lo);
        i += 2;
    }
    proof {
        assert(out@ =~= decoded_hex(s@));
    }
    Some(out)
}

proof fn lemma_trim_front_skip(s: Seq<u8>, k: int)
    requires
        0 <= k <= s.len(),
        forall|j: int| 0 <= j < k ==> is_space(#[trigger] s[j]),
        k < s.len() ==> !is_space(s[k]),
    ensures
        trim_front(s) == s.skip(k),
    decreases k,
{
    if k == 0 {
        assert(s.skip(0) =~= s);
    } else {
        lemma_trim_front_skip(s.drop_first(), k - 1);
        assert(s.drop_first().skip(k - 1) =~= s.skip(k));
    }
}

proof fn lemma_trim_back_take(s: Seq<u8>, k: int)
    requires
        0 <= k <= s.len(),
        forall|j: int| k <= j < s.len() ==> is_space(#[trigger] s[j]),
        k > 0 ==> !is_space(s[k - 1]),
    ensures
        trim_back(s) == s.take(k),
    decreases s.len() - k,
{
    if k == s.len() {
        assert(s.take(k) =~= s);
    } else {
        lemma_trim_back_take(s.drop_last(), k);
        assert(s.drop_last().take(k) =~= s.take(k));
    }
}

/// Copies `s` without its surrounding whitespace.
pub fn trim_bytes(s: &[u8]) -> (r: Vec<u8>)
    ensures
        r@ == trimmed(s@),
{
    let mut start: usize = 0;
    while start < s.len() && is_space_byte(s[start])
        invariant
            start <= s@.len(),
            forall|j: int| 0 <= j < start ==> is_space(#[trigger] s@[j]),
        decreases s@.len() - start,
    {
        start += 1;
    }
    let mut end: usize = s.len();
    while end > start && is_space_byte(s[end - 1])
        invariant
            start <= end <= s@.len(),
            forall|j: int| end <= j < s@.len() ==> is_space(#[trigger] s@[j]),
        decreases end,
    {
        end -= 1;
    }
    proof {
        lemma_trim_front_skip(s@, start as int);
        lemma_trim_back_take(s@.skip(start as int), end - start);
    }
    let mut out: Vec<u8> = Vec::new();
    let mut i: usize = start;
    while i < end
        invariant
            start <= i <= end <= s@.len(),
            out@ == s@.subrange(start as int, i as int),
        decreases end - i,
    {
        out.push(s[i]);
        proof {
            assert(out@ =~= s@.subrange(start as int, i + 1));
        }
        i += 1;
    }
    proof {
        assert(s@.skip(start as int).take(end - start) =~= s@.subrange(
            start as int,
            end as int,
        ));
    }
    out
}

fn tail_from(v: &Vec<u8>, from: usize) -> (r: Vec<u8>)
    requires
        from <= v@.len(),
    ensures
        r@ == v@.skip(from as int),
{
    let mut out: Vec<u8> = Vec::new();
    let mut i: usize = from;
    while i < v.len()
        invariant
            from <= i <= v@.len(),
            out@ == v@.subrange(from as int, i as int),
        decreases v@.len() - i,
    {
        out.push(v[i]);
        proof {
            assert(out@ =~= v@.subrange(from as int, i + 1));
        }
        i += 1;
    }
    proof {
        assert(v@.subrange(from as int, v@.len() as int) =~= v@.skip(from as int));
    }
    out
}

/// Turns the text of a bytecode file into its canonical byte payload:
/// surrounding whitespace is stripped, one optional `"0x"` prefix is
/// removed, and the rest is decoded as hex. A text whose remainder is not an
/// even-length sequence of hex digits is rejected as `ArtifactMalformed`.
pub fn parse_bytecode(s: &[u8]) -> (r: Result<Vec<u8>, OrchestratorError>)
    ensures
        r is Ok <==> bytecode_payload(s@) is Some,
        r matches Ok(v) ==> Some(v@) == bytecode_payload(s@),
        r matches Err(e) ==> e == OrchestratorError::ArtifactMalformed,
{
    let t = trim_bytes(s);
    let stripped: Vec<u8> = if t.len() >= 2 && t[0] == 0x30 && t[1] == 0x78 {
        tail_from(&t, 2)
    } else {
        t
    };
    match decode_hex_bytes(stripped.as_slice()) {
        Some(v) => Ok(v),
        None => Err(OrchestratorError::ArtifactMalformed),
    }
}

/// Loader round-trip law: a bytecode text made of optional surrounding
/// whitespace, the `"0x"` prefix and an even-length sequence of hex digits
/// parses successfully, and its payload is exactly the decoding of those
/// digits.
pub proof fn lemma_bytecode_round_trip(lead: Seq<u8>, h: Seq<u8>, tail: Seq<u8>)
    requires
        forall|i: int| 0 <= i < lead.len() ==> is_space(#[trigger] lead[i]),
        forall|i: int| 0 <= i < tail.len() ==> is_space(#[trigger] tail[i]),
        h.len() % 2 == 0,
        is_hex_seq(h),
    ensures
        bytecode_payload(lead + seq![0x30, 0x78] + h + tail) == Some(decoded_hex(h)),
{
    let s = lead + seq![0x30, 0x78] + h + tail;
    lemma_trim_front_skip(s, lead.len() as int);
    let u = s.skip(lead.len() as int);
    assert(u =~= seq![0x30, 0x78] + h + tail);
    lemma_trim_back_take(u, 2 + h.len() as int);
    assert(trimmed(s) =~= seq![0x30, 0x78] + h);
    assert(strip_hex_prefix(trimmed(s)) =~= h);
}

} // verus!
