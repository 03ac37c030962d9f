use vstd::prelude::*;

verus! {

/// `256` raised to the power `n`: the number of values that `n` bytes can hold.
pub open spec fn pow256(n: nat) -> nat
    decreases n,
{
    if n == 0 {
        1
    } else {
        256 * pow256((n - 1) as nat)
    }
}

/// The number that `s` writes in big-endian order (most significant byte first).
pub open spec fn be_nat(s: Seq<u8>) -> nat
    decreases s.len(),
{
    if s.len() == 0 {
        0
    } else {
        be_nat(s.drop_last()) * 256 + s.last() as nat
    }
}

/// The number that `s` writes in little-endian order (least significant byte first).
pub open spec fn le_nat(s: Seq<u8>) -> nat
    decreases s.len(),
{
    if s.len() == 0 {
        0
    } else {
        s[0] as nat + 256 * le_nat(s.subrange(1, s.len() as int))
    }
}

/// The `n` low-order bytes of `v`, most significant first.
pub open spec fn be_bytes(v: nat, n: nat) -> Seq<u8>
    decreases n,
{
    if n == 0 {
        Seq::empty()
    } else {
        be_bytes(v / 256, (n - 1) as nat).push((v % 256) as u8)
    }
}

pub proof fn lemma_pow256_monotone(a: nat, b: nat)
    requires
        a <= b,
    ensures
        pow256(a) <= pow256(b),
    decreases b,
{
    if a < b {
        lemma_pow256_monotone(a, (b - 1) as nat);
    }
}

pub proof fn lemma_pow256_values()
    ensures
        pow256(2) == 0x1_0000,
        pow256(4) == 0x1_0000_0000,
        pow256(8) == 0x1_0000_0000_0000_0000,
        pow256(16) == 0x1_0000_0000_0000_0000_0000_0000_0000_0000,
{
    reveal_with_fuel(pow256, 17);
}

pub proof fn lemma_be_nat_bound(s: Seq<u8>)
    ensures
        be_nat(s) < pow256(s.len()),
    decreases s.len(),
{
    if s.len() > 0 {
        let t = s.drop_last();
        lemma_be_nat_bound(t);
        let a = be_nat(t);
        let p = pow256(t.len());
        let b = s.last() as nat;
        assert(a * 256 + b < 256 * p) by (nonlinear_arith)
            requires
                a < p,
                b < 256,
        ;
    }
}

pub proof fn lemma_le_nat_bound(s: Seq<u8>)
    ensures
        le_nat(s) < pow256(s.len()),
    decreases s.len(),
{
    if s.len() > 0 {
        let t = s.subrange(1, s.len() as int);
        lemma_le_nat_bound(t);
        let a = le_nat(t);
        let p = pow256(t.len());
        let b = s[0] as nat;
        assert(b + 256 * a < 256 * p) by (nonlinear_arith)
            requires
                a < p,
                b < 256,
        ;
    }
}

pub proof fn lemma_be_bytes_len(v: nat, n: nat)
    ensures
        be_bytes(v, n).len() == n,
    decreases n,
{
    if n > 0 {
        lemma_be_bytes_len(v / 256, (n - 1) as nat);
    }
}

/// Reading back the bytes that `be_bytes` writes gives the number modulo `256^n`.
pub proof fn lemma_be_round_trip(v: nat, n: nat)
    ensures
        be_nat(be_bytes(v, n)) == v % pow256(n),
    decreases n,
{
    if n > 0 {
        let m = (n - 1) as nat;
        lemma_be_round_trip(v / 256, m);
        lemma_be_bytes_len(v / 256, m);
        let s = be_bytes(v, n);
        assert(s.drop_last() =~= be_bytes(v / 256, m));
        let p = pow256(m);
        assert(p > 0) by {
            lemma_pow256_monotone(0, m);
        }
        assert(((v / 256) % p) * 256 + v % 256 == v % (256 * p)) by (nonlinear_arith)
            requires
                p > 0,
        {
            vstd::arithmetic::div_mod::lemma_mod_breakdown(v as int, 256, p as int);
        }
    }
}

/// A number below `256^n` survives being written in `n` bytes and read back.
pub proof fn lemma_be_round_trip_small(v: nat, n: nat)
    requires
        v < pow256(n),
    ensures
        be_nat(be_bytes(v, n)) == v,
        be_bytes(v, n).len() == n,
{
    lemma_be_round_trip(v, n);
    lemma_be_bytes_len(v, n);
    vstd::arithmetic::div_mod::lemma_small_mod(v, pow256(n));
}

/// Reads the bytes `data[lo..hi]` as a big-endian number.
pub fn read_be(data: &[u8], lo: usize, hi: usize) -> (r: u128)
    requires
        lo <= hi <= data@.len(),
        hi - lo <= 16,
    ensures
        r as nat == be_nat(data@.subrange(lo as int, hi as int)),
    decreases hi - lo,
{
    if hi == lo {
        0
    } else {
        let a = read_be(data, lo, hi - 1);
        let ghost s = data@.subrange(lo as int, hi as int);
        proof {
            assert(s.drop_last() =~= data@.subrange(lo as int, hi - 1));
            lemma_be_nat_bound(s);
            lemma_pow256_monotone(s.len(), 16);
            lemma_pow256_values();
        }
        a * 256 + data[hi - 1] as u128
    }
}

/// Reads the bytes `data[lo..hi]` as a little-endian number.
pub fn read_le(data: &[u8], lo: usize, hi: usize) -> (r: u128)
    requires
        lo <= hi <= data@.len(),
        hi - lo <= 16,
    ensures
        r as nat == le_nat(data@.subrange(lo as int, hi as int)),
    decreases hi - lo,
{
    if hi == lo {
        0
    } else {
        let a = read_le(data, lo + 1, hi);
        let ghost s = data@.subrange(lo as int, hi as int);
        proof {
            assert(s.subrange(1, s.len() as int) =~= data@.subrange(lo + 1, hi as int));
            lemma_le_nat_bound(s);
            lemma_pow256_monotone(s.len(), 16);
            lemma_pow256_values();
        }
        data[lo] as u128 + 256 * a
    }
}

/// Appends the `n` low-order bytes of `v` to `buf`, most significant first.
pub fn push_be(buf: &mut Vec<u8>, v: u128, n: usize)
    ensures
        final(buf)@ == old(buf)@ + be_bytes(v as nat, n as nat),
    decreases n,
{
    if n > 0 {
        push_be(buf, v / 256, n - 1);
        buf.push((v % 256) as u8);
        proof {
            assert(final(buf)@ =~= old(buf)@ + be_bytes(v as nat, n as nat));
        }
    }
}

/// Copies the 32 bytes `data[start..start + 32]` into an array.
pub fn copy_bytes32(data: &[u8], start: usize) -> (r: [u8; 32])
    requires
        start + 32 <= data@.len(),
    ensures
        r@ == data@.subrange(start as int, start + 32),
{
    let len: usize = data.len();
    let mut r = [0u8; 32];
    let mut i: usize = 0;
    while i < 32
        invariant
            i <= 32,
            start + 32 <= len,
            len == data@.len(),
            r@.len() == 32,
            forall|j: int| 0 <= j < i ==> r@[j] == data@[start + j],
        decreases 32 - i,
    {
        r[i] = data[start + i];
        i = i + 1;
    }
    assert(r@ =~= data@.subrange(start as int, start + 32));
    r
}

} // verus!
