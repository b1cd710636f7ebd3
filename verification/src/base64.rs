//! Base64 decoding of uploads: the standard alphabet of RFC 4648 with
//! canonical padding. The text is whole groups of four symbols; only the
//! last group may end in `=` or `==`, and then the bits that the padding
//! leaves over must be zero. Anything else is refused.
use vstd::prelude::*;
#[allow(unused_imports)]
use vstd::string::StringSliceAdditionalSpecFns;

verus! {

/// The six-bit value of a character of the standard Base64 alphabet.
pub open spec fn b64_value(c: u8) -> Option<u8> {
    if 0x41 <= c && c <= 0x5a {
        Some((c - 0x41) as u8)
    } else if 0x61 <= c && c <= 0x7a {
        Some((c - 0x61 + 26) as u8)
    } else if 0x30 <= c && c <= 0x39 {
        Some((c - 0x30 + 52) as u8)
    } else if c == 0x2b {
        Some(62u8)
    } else if c == 0x2f {
        Some(63u8)
    } else {
        None
    }
}

/// The first byte of a group: all six bits of `v0`, the top two of `v1`.
pub open spec fn first_byte(v0: u8, v1: u8) -> u8 {
    (v0 * 4 + v1 / 16) as u8
}

/// The second byte of a group: the low four bits of `v1`, the top four of `v2`.
pub open spec fn second_byte(v1: u8, v2: u8) -> u8 {
    ((v1 % 16) * 16 + v2 / 4) as u8
}

/// The third byte of a group: the low two bits of `v2`, all six of `v3`.
pub open spec fn third_byte(v2: u8, v3: u8) -> u8 {
    ((v2 % 4) * 64 + v3) as u8
}

/// The bytes of one group of four symbols `q`, or `None` when the group is
/// not well formed. Padding (`xyz=` or `xy==`) is allowed only in the
/// `last` group, and then the bits it leaves over must be zero.
#[verifier::opaque]
pub open spec fn b64_group(q: Seq<u8>, last: bool) -> Option<Seq<u8>> {
    match (b64_value(q[0]), b64_value(q[1]), b64_value(q[2]), b64_value(q[3])) {
        (Some(v0), Some(v1), Some(v2), Some(v3)) => Some(
            seq![first_byte(v0, v1), second_byte(v1, v2), third_byte(v2, v3)],
        ),
        (Some(v0), Some(v1), Some(v2), None) => if last && q[3] == 0x3d && v2 % 4 == 0 {
            Some(seq![first_byte(v0, v1), second_byte(v1, v2)])
        } else {
            None
        },
        (Some(v0), Some(v1), None, None) => if last && q[2] == 0x3d && q[3] == 0x3d && v1 % 16
            == 0 {
            Some(seq![first_byte(v0, v1)])
        } else {
            None
        },
        _ => None,
    }
}

/// What `decode_b64` gives for the bytes of a text: the bytes it encodes,
/// group by group, or `Err` when it is not a canonical standard encoding.
pub open spec fn b64_decoded(s: Seq<u8>) -> Result<Seq<u8>, ()>
    decreases s.len(),
{
    if s.len() == 0 {
        Ok(Seq::empty())
    } else if s.len() < 4 {
        Err(())
    } else {
        match b64_group(s.take(4), s.len() == 4) {
            None => Err(()),
            Some(head) => match b64_decoded(s.skip(4)) {
                Ok(tail) => Ok(head + tail),
                Err(()) => Err(()),
            },
        }
    }
}

/// `head` put in front of a decoding result.
pub open spec fn prefixed(head: Seq<u8>, r: Result<Seq<u8>, ()>) -> Result<Seq<u8>, ()> {
    match r {
        Ok(t) => Ok(head + t),
        Err(()) => Err(()),
    }
}

/// The six-bit value of one byte.
fn b64_val(c: u8) -> (r: Option<u8>)
    ensures
        r == b64_value(c),
{
    if 0x41 <= c && c <= 0x5a {
        Some(c - 0x41)
    } else if 0x61 <= c && c <= 0x7a {
        Some(c - 0x61 + 26)
    } else if 0x30 <= c && c <= 0x39 {
        Some(c - 0x30 + 52)
    } else if c == 0x2b {
        Some(62)
    } else if c == 0x2f {
        Some(63)
    } else {
        None
    }
}

proof fn lemma_value_small(c: u8)
    ensures
        b64_value(c) matches Some(v) ==> v < 64,
{
}

/// Decode the group of four bytes at `i`, appending its bytes to `out`.
fn decode_group(bytes: &[u8], i: usize, last: bool, out: &mut Vec<u8>) -> (ok: bool)
    requires
        i + 4 <= bytes.len(),
    ensures
        ok == (b64_group(bytes@.subrange(i as int, i + 4), last) is Some),
        ok ==> final(out)@ == old(out)@ + b64_group(bytes@.subrange(i as int, i + 4), last)->0,
{
    reveal(b64_group);
    let ghost q = bytes@.subrange(i as int, i + 4);
    assert(q[0] == bytes@[i as int] && q[1] == bytes@[i + 1] && q[2] == bytes@[i + 2] && q[3]
        == bytes@[i + 3]);
    let c2 = bytes[i + 2];
    let c3 = bytes[i + 3];
    let v0 = match b64_val(bytes[i]) {
        Some(v) => v,
        None => return false,
    };
    let v1 = match b64_val(bytes[i + 1]) {
        Some(v) => v,
        None => return false,
    };
    proof {
        lemma_value_small(bytes@[i as int]);
        lemma_value_small(bytes@[i + 1]);
        lemma_value_small(c2);
        lemma_value_small(c3);
    }
    let b0 = v0 * 4 + v1 / 16;
    match (b64_val(c2), b64_val(c3)) {
        (Some(v2), Some(v3)) => {
            out.push(b0);
            out.push((v1 % 16) * 16 + v2 / 4);
            out.push((v2 % 4) * 64 + v3);
            assert(final(out)@ =~= old(out)@ + b64_group(q, last)->0);
            true
        },
        (Some(v2), None) => {
            if last && c3 == 0x3d && v2 % 4 == 0 {
                out.push(b0);
                out.push((v1 % 16) * 16 + v2 / 4);
                assert(final(out)@ =~= old(out)@ + b64_group(q, last)->0);
                true
            } else {
                false
            }
        },
        (None, None) => {
            if last && c2 == 0x3d && c3 == 0x3d && v1 % 16 == 0 {
                out.push(b0);
                assert(final(out)@ =~= old(out)@ + b64_group(q, last)->0);
                true
            } else {
                false
            }
        },
        (None, Some(_)) => false,
    }
}

/// Decode a Base64 upload: the standard alphabet with canonical padding.
pub fn decode_b64(s: &str) -> (r: Result<Vec<u8>, ()>)
    ensures
        match b64_decoded(s.spec_bytes()) {
            Err(()) => r is Err,
            Ok(bytes) => r matches Ok(out) && out@ == bytes,
        },
{
    let bytes = s.as_bytes();
    let n = bytes.len();
    let mut out: Vec<u8> = Vec::new();
    let mut i: usize = 0;
    assert(bytes@.skip(0) =~= bytes@);
    assert(out@ + Seq::<u8>::empty() =~= Seq::<u8>::empty());
    assert(b64_decoded(bytes@) == prefixed(out@, b64_decoded(bytes@.skip(0)))) by {
        match b64_decoded(bytes@) {
            Ok(t) => assert(out@ + t =~= t),
            Err(()) => {},
        }
    }
    while i < n
        invariant
            n == bytes@.len(),
            bytes@ == s.spec_bytes(),
            i <= n,
            b64_decoded(bytes@) == prefixed(out@, b64_decoded(bytes@.skip(i as int))),
        decreases n - i,
    {
        let ghost rest = bytes@.skip(i as int);
        if n - i < 4 {
            return Err(());
        }
        let last = n - i == 4;
        assert(rest.take(4) =~= bytes@.subrange(i as int, i + 4));
        assert(rest.skip(4) =~= bytes@.skip(i + 4));
        let ghost before = out@;
        if !decode_group(bytes, i, last, &mut out) {
            return Err(());
        }
        proof {
            let head = b64_group(bytes@.subrange(i as int, i + 4), last)->0;
            match b64_decoded(bytes@.skip(i + 4)) {
                Ok(t) => assert(before + (head + t) =~= out@ + t),
                Err(()) => {},
            }
        }
        i = i + 4;
    }
    assert(bytes@.skip(n as int) =~= Seq::<u8>::empty());
    assert(out@ + Seq::<u8>::empty() =~= out@);
    Ok(out)
}

// ---------------------------------------------------------------------------
// Laws.
// ---------------------------------------------------------------------------

/// How many symbols of the alphabet the text holds.
pub open spec fn b64_symbol_count(s: Seq<u8>) -> nat
    decreases s.len(),
{
    if s.len() == 0 {
        0
    } else {
        (if b64_value(s[0]) is Some {
            1nat
        } else {
            0nat
        }) + b64_symbol_count(s.drop_first())
    }
}

proof fn lemma_symbol_count_split(s: Seq<u8>, k: int)
    requires
        0 <= k <= s.len(),
    ensures
        b64_symbol_count(s) == b64_symbol_count(s.take(k)) + b64_symbol_count(s.skip(k)),
    decreases k,
{
    if k == 0 {
        assert(s.skip(0) =~= s);
        assert(s.take(0) =~= Seq::<u8>::empty());
    } else {
        lemma_symbol_count_split(s.drop_first(), k - 1);
        assert(s.take(k).drop_first() =~= s.drop_first().take(k - 1));
        assert(s.drop_first().skip(k - 1) =~= s.skip(k));
    }
}

/// Each symbol carries six bits: a text that decodes gives
/// `⌊6k/8⌋` bytes for its `k` symbols.
pub proof fn lemma_decoded_length(s: Seq<u8>)
    requires
        b64_decoded(s) is Ok,
    ensures
        b64_decoded(s)->Ok_0.len() == (6 * b64_symbol_count(s)) / 8,
{
    lemma_decoded_length_bounds(s);
}

proof fn lemma_group_symbol_count(q: Seq<u8>)
    requires
        q.len() == 4,
    ensures
        b64_symbol_count(q) == (if b64_value(q[0]) is Some { 1int } else { 0 }) + (if b64_value(
            q[1],
        ) is Some { 1int } else { 0 }) + (if b64_value(q[2]) is Some { 1int } else { 0 }) + (
        if b64_value(q[3]) is Some { 1int } else { 0 }),
{
    let q1 = q.drop_first();
    let q2 = q1.drop_first();
    let q3 = q2.drop_first();
    let q4 = q3.drop_first();
    assert(q4.len() == 0);
    assert(b64_symbol_count(q4) == 0);
    assert(q3[0] == q[3] && q2[0] == q[2] && q1[0] == q[1]);
    assert(b64_symbol_count(q3) == (if b64_value(q3[0]) is Some { 1nat } else { 0nat })
        + b64_symbol_count(q4));
    assert(b64_symbol_count(q2) == (if b64_value(q2[0]) is Some { 1nat } else { 0nat })
        + b64_symbol_count(q3));
    assert(b64_symbol_count(q1) == (if b64_value(q1[0]) is Some { 1nat } else { 0nat })
        + b64_symbol_count(q2));
    assert(b64_symbol_count(q) == (if b64_value(q[0]) is Some { 1nat } else { 0nat })
        + b64_symbol_count(q1));
}

proof fn lemma_decoded_length_bounds(s: Seq<u8>)
    requires
        b64_decoded(s) is Ok,
    ensures
        8 * b64_decoded(s)->Ok_0.len() <= 6 * b64_symbol_count(s),
        6 * b64_symbol_count(s) < 8 * b64_decoded(s)->Ok_0.len() + 8,
    decreases s.len(),
{
    if s.len() > 0 {
        reveal(b64_group);
        let q = s.take(4);
        lemma_symbol_count_split(s, 4);
        lemma_group_symbol_count(q);
        let rest = s.skip(4);
        lemma_decoded_length_bounds(rest);
        if s.len() == 4 {
            assert(rest.len() == 0);
        }
    }
}

/// The symbol for a six-bit value.
pub open spec fn b64_symbol(v: u8) -> u8 {
    if v < 26 {
        (0x41 + v) as u8
    } else if v < 52 {
        (0x61 + v - 26) as u8
    } else if v < 62 {
        (0x30 + v - 52) as u8
    } else if v == 62 {
        0x2b
    } else {
        0x2f
    }
}

/// The standard Base64 encoding of bytes, with `=` padding.
pub open spec fn b64_encode(x: Seq<u8>) -> Seq<u8>
    decreases x.len(),
{
    if x.len() == 0 {
        Seq::empty()
    } else if x.len() == 1 {
        seq![b64_symbol(x[0] / 4), b64_symbol(((x[0] % 4) * 16) as u8), 0x3d, 0x3d]
    } else if x.len() == 2 {
        seq![
            b64_symbol(x[0] / 4),
            b64_symbol(((x[0] % 4) * 16 + x[1] / 16) as u8),
            b64_symbol(((x[1] % 16) * 4) as u8),
            0x3d,
        ]
    } else {
        seq![
            b64_symbol(x[0] / 4),
            b64_symbol(((x[0] % 4) * 16 + x[1] / 16) as u8),
            b64_symbol(((x[1] % 16) * 4 + x[2] / 64) as u8),
            b64_symbol(x[2] % 64),
        ] + b64_encode(x.skip(3))
    }
}

proof fn lemma_symbol_value(v: u8)
    requires
        v < 64,
    ensures
        b64_value(b64_symbol(v)) == Some(v),
{
}

proof fn lemma_full_group(x0: u8, x1: u8, x2: u8, last: bool)
    ensures
        b64_group(
            seq![
                b64_symbol(x0 / 4),
                b64_symbol(((x0 % 4) * 16 + x1 / 16) as u8),
                b64_symbol(((x1 % 16) * 4 + x2 / 64) as u8),
                b64_symbol(x2 % 64),
            ],
            last,
        ) == Some(seq![x0, x1, x2]),
{
    reveal(b64_group);
    let v0 = (x0 / 4) as u8;
    let v1 = ((x0 % 4) * 16 + x1 / 16) as u8;
    let v2 = ((x1 % 16) * 4 + x2 / 64) as u8;
    let v3 = (x2 % 64) as u8;
    lemma_symbol_value(v0);
    lemma_symbol_value(v1);
    lemma_symbol_value(v2);
    lemma_symbol_value(v3);
    assert(first_byte(v0, v1) == x0);
    assert(second_byte(v1, v2) == x1);
    assert(third_byte(v2, v3) == x2);
    assert(seq![first_byte(v0, v1), second_byte(v1, v2), third_byte(v2, v3)] =~= seq![x0, x1, x2]);
}

proof fn lemma_two_byte_group(x0: u8, x1: u8)
    ensures
        b64_group(
            seq![
                b64_symbol(x0 / 4),
                b64_symbol(((x0 % 4) * 16 + x1 / 16) as u8),
                b64_symbol(((x1 % 16) * 4) as u8),
                0x3d,
            ],
            true,
        ) == Some(seq![x0, x1]),
{
    reveal(b64_group);
    let v0 = (x0 / 4) as u8;
    let v1 = ((x0 % 4) * 16 + x1 / 16) as u8;
    let v2 = ((x1 % 16) * 4) as u8;
    lemma_symbol_value(v0);
    lemma_symbol_value(v1);
    lemma_symbol_value(v2);
    assert(b64_value(0x3d) is None);
    assert(first_byte(v0, v1) == x0);
    assert(second_byte(v1, v2) == x1);
    assert(seq![first_byte(v0, v1), second_byte(v1, v2)] =~= seq![x0, x1]);
}

proof fn lemma_one_byte_group(x0: u8)
    ensures
        b64_group(
            seq![b64_symbol(x0 / 4), b64_symbol(((x0 % 4) * 16) as u8), 0x3d, 0x3d],
            true,
        ) == Some(seq![x0]),
{
    reveal(b64_group);
    let v0 = (x0 / 4) as u8;
    let v1 = ((x0 % 4) * 16) as u8;
    lemma_symbol_value(v0);
    lemma_symbol_value(v1);
    assert(b64_value(0x3d) is None);
    assert(first_byte(v0, v1) == x0);
}

/// Decoding undoes encoding: the standard encoding of any bytes decodes back
/// to those bytes.
pub proof fn lemma_encode_decode(x: Seq<u8>)
    ensures
        b64_decoded(b64_encode(x)) == Ok::<Seq<u8>, ()>(x),
    decreases x.len(),
{
    let e = b64_encode(x);
    if x.len() == 0 {
        assert(x =~= Seq::<u8>::empty());
    } else if x.len() == 1 {
        lemma_one_byte_group(x[0]);
        assert(e == seq![b64_symbol(x[0] / 4), b64_symbol(((x[0] % 4) * 16) as u8), 0x3d, 0x3d]);
        assert(e.take(4) =~= e);
        assert(e.skip(4) =~= Seq::<u8>::empty());
        assert(b64_decoded(e.skip(4)) == Ok::<Seq<u8>, ()>(Seq::empty()));
        assert(seq![x[0]] + Seq::<u8>::empty() =~= x);
    } else if x.len() == 2 {
        lemma_two_byte_group(x[0], x[1]);
        assert(e == seq![
            b64_symbol(x[0] / 4),
            b64_symbol(((x[0] % 4) * 16 + x[1] / 16) as u8),
            b64_symbol(((x[1] % 16) * 4) as u8),
            0x3d,
        ]);
        assert(e.take(4) =~= e);
        assert(e.skip(4) =~= Seq::<u8>::empty());
        assert(b64_decoded(e.skip(4)) == Ok::<Seq<u8>, ()>(Seq::empty()));
        assert(seq![x[0], x[1]] + Seq::<u8>::empty() =~= x);
    } else if x.len() >= 3 {
        let rest = b64_encode(x.skip(3));
        let quad = seq![
            b64_symbol(x[0] / 4),
            b64_symbol(((x[0] % 4) * 16 + x[1] / 16) as u8),
            b64_symbol(((x[1] % 16) * 4 + x[2] / 64) as u8),
            b64_symbol(x[2] % 64),
        ];
        assert(e == quad + rest);
        lemma_full_group(x[0], x[1], x[2], rest.len() == 0);
        assert(e.take(4) =~= quad);
        assert(e.skip(4) =~= rest);
        lemma_encode_decode(x.skip(3));
        assert(seq![x[0], x[1], x[2]] + x.skip(3) =~= x);
    }
}

} // verus!
