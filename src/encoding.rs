//! The canonical byte layout of transaction values: little-endian integers,
//! length-prefixed byte strings, tagged options and variants.
use vstd::prelude::*;
use vstd::arithmetic::power::pow;
use vstd::utf8::encode_utf8;

verus! {

/// The `n` low-order bytes of `x`, least significant first.
pub open spec fn le(x: nat, n: nat) -> Seq<u8>
    decreases n,
{
    if n == 0 {
        Seq::empty()
    } else {
        seq![(x % 256) as u8] + le(x / 256, (n - 1) as nat)
    }
}

pub proof fn lemma_le_len(x: nat, n: nat)
    ensures
        le(x, n).len() == n,
    decreases n,
{
    if n > 0 {
        lemma_le_len(x / 256, (n - 1) as nat);
    }
}

/// Two numbers below `256^n` with the same `n` low-order bytes are equal.
pub proof fn lemma_le_injective(x: nat, y: nat, n: nat)
    requires
        x < pow(256, n),
        y < pow(256, n),
        le(x, n) == le(y, n),
    ensures
        x == y,
    decreases n,
{
    reveal(pow);
    if n == 0 {
        assert(pow(256, 0) == 1);
    } else {
        let p = pow(256, (n - 1) as nat);
        assert(pow(256, n) == 256 * p);
        let tx = le(x / 256, (n - 1) as nat);
        let ty = le(y / 256, (n - 1) as nat);
        assert(le(x, n) == seq![(x % 256) as u8] + tx);
        assert(le(y, n) == seq![(y % 256) as u8] + ty);
        assert((seq![(x % 256) as u8] + tx)[0] == (x % 256) as u8);
        assert((seq![(y % 256) as u8] + ty)[0] == (y % 256) as u8);
        assert((x % 256) as u8 == (y % 256) as u8);
        assert(x % 256 == y % 256);
        assert(le(x / 256, (n - 1) as nat) =~= le(x, n).drop_first());
        assert(le(y / 256, (n - 1) as nat) =~= le(y, n).drop_first());
        assert(x / 256 < p) by (nonlinear_arith)
            requires
                x < 256 * p,
        ;
        assert(y / 256 < p) by (nonlinear_arith)
            requires
                y < 256 * p,
        ;
        lemma_le_injective(x / 256, y / 256, (n - 1) as nat);
        assert(x == 256 * (x / 256) + x % 256);
        assert(y == 256 * (y / 256) + y % 256);
    }
}

/// A byte string prefixed by its length as four little-endian bytes.
pub open spec fn enc_bytes(b: Seq<u8>) -> Seq<u8> {
    le(b.len(), 4) + b
}

/// A string as its UTF-8 bytes, prefixed by their count.
pub open spec fn enc_str(s: Seq<char>) -> Seq<u8> {
    enc_bytes(encode_utf8(s))
}

/// An optional string: a zero byte when absent, else a one byte and the string.
pub open spec fn enc_opt_str(o: Option<Seq<char>>) -> Seq<u8> {
    match o {
        None => seq![0u8],
        Some(s) => seq![1u8] + enc_str(s),
    }
}

/// The characters of an optional string.
pub open spec fn opt_str_view(o: Option<String>) -> Option<Seq<char>> {
    match o {
        None => None,
        Some(s) => Some(s@),
    }
}

/// An optional 64-bit integer, tagged as `enc_opt_str` is.
pub open spec fn enc_opt_u64(o: Option<u64>) -> Seq<u8> {
    match o {
        None => seq![0u8],
        Some(x) => seq![1u8] + le(x as nat, 8),
    }
}

/// Appends the `n` low-order bytes of `x`, least significant first.
pub fn put_le(out: &mut Vec<u8>, x: u128, n: usize)
    ensures
        final(out)@ == old(out)@ + le(x as nat, n as nat),
{
    let mut v: u128 = x;
    let mut i: usize = 0;
    assert(out@ =~= old(out)@ + Seq::<u8>::empty());
    while i < n
        invariant
            i <= n,
            out@ + le(v as nat, (n - i) as nat) == old(out)@ + le(x as nat, n as nat),
        decreases n - i,
    {
        let ghost pre = out@;
        out.push((v % 256) as u8);
        assert(out@ + le((v / 256) as nat, (n - i - 1) as nat) =~= pre + le(v as nat, (n - i) as nat));
        v = v / 256;
        i = i + 1;
    }
    assert(le(v as nat, 0) =~= Seq::<u8>::empty());
    assert(out@ =~= out@ + le(v as nat, 0));
}

/// Appends raw bytes with no prefix.
pub fn put_raw(out: &mut Vec<u8>, b: &[u8])
    ensures
        final(out)@ == old(out)@ + b@,
{
    let mut i: usize = 0;
    assert(out@ =~= old(out)@ + b@.subrange(0, 0));
    while i < b.len()
        invariant
            i <= b@.len(),
            out@ == old(out)@ + b@.subrange(0, i as int),
        decreases b@.len() - i,
    {
        out.push(b[i]);
        assert(b@.subrange(0, i + 1) =~= b@.subrange(0, i as int).push(b@[i as int]));
        i = i + 1;
    }
    assert(b@.subrange(0, b@.len() as int) =~= b@);
}

/// Appends a length-prefixed byte string.
pub fn put_bytes(out: &mut Vec<u8>, b: &[u8])
    ensures
        final(out)@ == old(out)@ + enc_bytes(b@),
{
    put_le(out, b.len() as u128, 4);
    put_raw(out, b);
    assert(final(out)@ =~= old(out)@ + enc_bytes(b@));
}

/// Appends a length-prefixed UTF-8 string.
pub fn put_str(out: &mut Vec<u8>, s: &String)
    ensures
        final(out)@ == old(out)@ + enc_str(s@),
{
    put_bytes(out, s.as_str().as_bytes());
}

/// Appends an optional string.
pub fn put_opt_str(out: &mut Vec<u8>, o: &Option<String>)
    ensures
        final(out)@ == old(out)@ + enc_opt_str(opt_str_view(*o)),
{
    match o {
        None => {
            out.push(0);
            assert(final(out)@ =~= old(out)@ + seq![0u8]);
        },
        Some(s) => {
            out.push(1);
            put_str(out, s);
            assert(final(out)@ =~= old(out)@ + (seq![1u8] + enc_str(s@)));
        },
    }
}

/// Appends an optional 64-bit integer.
pub fn put_opt_u64(out: &mut Vec<u8>, o: Option<u64>)
    ensures
        final(out)@ == old(out)@ + enc_opt_u64(o),
{
    match o {
        None => {
            out.push(0);
            assert(final(out)@ =~= old(out)@ + seq![0u8]);
        },
        Some(x) => {
            out.push(1);
            put_le(out, x as u128, 8);
            assert(final(out)@ =~= old(out)@ + (seq![1u8] + le(x as nat, 8)));
        },
    }
}

} // verus!
