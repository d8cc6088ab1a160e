//! Little-endian integer framing shared by the binary wire layouts.

use vstd::prelude::*;

verus! {

/// `256^n`.
pub open spec fn pow256(n: nat) -> nat
    decreases n,
{
    if n == 0 {
        1
    } else {
        256 * pow256((n - 1) as nat)
    }
}

/// The `n` little-endian bytes of `x` (its low `n` bytes when `x` is wider).
pub open spec fn le_bytes(x: nat, n: nat) -> Seq<u8>
    decreases n,
{
    if n == 0 {
        Seq::empty()
    } else {
        seq![(x % 256) as u8] + le_bytes(x / 256, (n - 1) as nat)
    }
}

/// The number that a little-endian byte string denotes.
pub open spec fn le_value(s: Seq<u8>) -> nat
    decreases s.len(),
{
    if s.len() == 0 {
        0
    } else {
        s[0] as nat + 256 * le_value(s.drop_first())
    }
}

pub proof fn lemma_pow256_16()
    ensures
        pow256(16) == 0x1_0000_0000_0000_0000_0000_0000_0000_0000,
        pow256(8) == 0x1_0000_0000_0000_0000,
        pow256(4) == 0x1_0000_0000,
        pow256(1) == 256,
{
    reveal_with_fuel(pow256, 17);
}

pub proof fn lemma_pow256_mono(a: nat, b: nat)
    requires
        a <= b,
    ensures
        pow256(a) <= pow256(b),
        pow256(a) >= 1,
    decreases b,
{
    if b > a {
        lemma_pow256_mono(a, (b - 1) as nat);
    } else if a > 0 {
        lemma_pow256_mono((a - 1) as nat, (a - 1) as nat);
    }
}

pub proof fn lemma_le_bytes_len(x: nat, n: nat)
    ensures
        le_bytes(x, n).len() == n,
    decreases n,
{
    if n > 0 {
        lemma_le_bytes_len(x / 256, (n - 1) as nat);
    }
}

pub proof fn lemma_le_value_bound(s: Seq<u8>)
    ensures
        le_value(s) < pow256(s.len()),
    decreases s.len(),
{
    if s.len() > 0 {
        let t = s.drop_first();
        lemma_le_value_bound(t);
        let v = le_value(t);
        let p = pow256(t.len());
        assert(s[0] as nat + 256 * v < 256 * p) by (nonlinear_arith)
            requires
                v < p,
                s[0] < 256,
        ;
    }
}

/// Reading back the bytes of `x` gives `x`.
pub proof fn lemma_le_round_trip(x: nat, n: nat)
    requires
        x < pow256(n),
    ensures
        le_bytes(x, n).len() == n,
        le_value(le_bytes(x, n)) == x,
    decreases n,
{
    lemma_le_bytes_len(x, n);
    if n > 0 {
        let p = pow256((n - 1) as nat);
        assert(x / 256 < p) by (nonlinear_arith)
            requires
                x < 256 * p,
        ;
        lemma_le_round_trip(x / 256, (n - 1) as nat);
        let s = le_bytes(x, n);
        assert(s.drop_first() =~= le_bytes(x / 256, (n - 1) as nat));
    }
}

/// Writing the value of a byte string gives the byte string back.
pub proof fn lemma_le_value_bytes(s: Seq<u8>)
    ensures
        le_bytes(le_value(s), s.len()) == s,
    decreases s.len(),
{
    if s.len() > 0 {
        let t = s.drop_first();
        lemma_le_value_bytes(t);
        let v = le_value(t);
        let x = s[0] as nat + 256 * v;
        assert(x % 256 == s[0] as nat && x / 256 == v) by (nonlinear_arith)
            requires
                x == s[0] as nat + 256 * v,
                s[0] < 256,
        ;
        assert(le_bytes(x, s.len()) =~= s);
    }
}

/// Appends the `n` little-endian bytes of `x`.
pub fn write_le(out: &mut Vec<u8>, x: u128, n: usize)
    requires
        n <= 16,
        x < pow256(n as nat),
    ensures
        final(out)@ == old(out)@ + le_bytes(x as nat, n as nat),
{
    let mut v: u128 = x;
    let mut i: usize = 0;
    while i < n
        invariant
            i <= n,
            out@ + le_bytes(v as nat, (n - i) as nat) == old(out)@ + le_bytes(x as nat, n as nat),
        decreases n - i,
    {
        let ghost before = out@;
        let b: u8 = (v % 256) as u8;
        out.push(b);
        assert(le_bytes(v as nat, (n - i) as nat) == seq![b] + le_bytes((v / 256) as nat, (n - i
            - 1) as nat));
        assert(out@ + le_bytes((v / 256) as nat, (n - i - 1) as nat) =~= before + le_bytes(
            v as nat,
            (n - i) as nat,
        ));
        v = v / 256;
        i = i + 1;
    }
    assert(out@ + le_bytes(v as nat, 0) =~= out@);
}

/// Reads the `n` little-endian bytes at `pos`.
pub fn read_le(bytes: &[u8], pos: usize, n: usize) -> (r: u128)
    requires
        n <= 16,
        pos + n <= bytes@.len(),
    ensures
        r as nat == le_value(bytes@.subrange(pos as int, pos + n)),
{
    let total: usize = bytes.len();
    let mut acc: u128 = 0;
    let mut i: usize = n;
    proof {
        lemma_pow256_16();
    }
    while i > 0
        invariant
            i <= n <= 16,
            pos + n <= bytes@.len() == total,
            pow256(16) == 0x1_0000_0000_0000_0000_0000_0000_0000_0000,
            acc as nat == le_value(bytes@.subrange(pos + i, pos + n)),
        decreases i,
    {
        i = i - 1;
        let ghost s = bytes@.subrange(pos + i, pos + n);
        assert(s.drop_first() =~= bytes@.subrange(pos + i + 1, pos + n));
        proof {
            lemma_le_value_bound(s.drop_first());
            lemma_pow256_mono(s.drop_first().len(), 15);
            let p = pow256(15);
            assert(pow256(16) == 256 * p);
            assert(bytes[pos + i] + 256 * acc < pow256(16)) by (nonlinear_arith)
                requires
                    acc < p,
                    bytes[pos + i] < 256,
                    pow256(16) == 256 * p,
            ;
        }
        acc = bytes[pos + i] as u128 + 256 * acc;
    }
    acc
}

/// Appends a byte string.
pub fn write_bytes(out: &mut Vec<u8>, b: &[u8])
    ensures
        final(out)@ == old(out)@ + b@,
{
    let mut i: usize = 0;
    while i < b.len()
        invariant
            i <= b@.len(),
            out@ == old(out)@ + b@.subrange(0, i as int),
        decreases b@.len() - i,
    {
        out.push(b[i]);
        assert(b@.subrange(0, i + 1) =~= b@.subrange(0, i as int).push(b@[i as int]));
        i = i + 1;
    }
    assert(b@.subrange(0, b@.len() as int) =~= b@);
}

/// Copies a byte string into a new vector.
pub fn bytes_to_vec(b: &[u8]) -> (r: Vec<u8>)
    ensures
        r@ == b@,
{
    let mut r: Vec<u8> = Vec::new();
    write_bytes(&mut r, b);
    r
}

/// Copies `len` bytes starting at `pos`.
pub fn read_bytes(bytes: &[u8], pos: usize, len: usize) -> (r: Vec<u8>)
    requires
        pos + len <= bytes@.len(),
    ensures
        r@ == bytes@.subrange(pos as int, pos + len),
{
    let total: usize = bytes.len();
    let mut r: Vec<u8> = Vec::new();
    let mut i: usize = 0;
    while i < len
        invariant
            i <= len,
            pos + len <= bytes@.len() == total,
            r@ == bytes@.subrange(pos as int, pos + i),
        decreases len - i,
    {
        r.push(bytes[pos + i]);
        assert(bytes@.subrange(pos as int, pos + i + 1) =~= bytes@.subrange(pos as int, pos + i).push(
            bytes@[pos + i],
        ));
        i = i + 1;
    }
    r
}

} // verus!
