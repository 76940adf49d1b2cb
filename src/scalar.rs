use vstd::prelude::*;

verus! {

/// The unsigned integer that a byte string denotes, most significant byte first.
pub open spec fn be_nat(s: Seq<u8>) -> nat
    decreases s.len(),
{
    if s.len() == 0 {
        0
    } else {
        s[0] as nat * pow256((s.len() - 1) as nat) + be_nat(s.subrange(1, s.len() as int))
    }
}

/// `256` raised to the power `n`.
pub open spec fn pow256(n: nat) -> nat
    decreases n,
{
    if n == 0 {
        1
    } else {
        256 * pow256((n - 1) as nat)
    }
}

/// A string of `n` bytes denotes a number below `256^n`.
pub proof fn lemma_be_nat_bound(s: Seq<u8>)
    ensures
        be_nat(s) < pow256(s.len()),
    decreases s.len(),
{
    if s.len() > 0 {
        let n = (s.len() - 1) as nat;
        let t = s.subrange(1, s.len() as int);
        lemma_be_nat_bound(t);
        assert(s[0] as nat * pow256(n) <= 255 * pow256(n)) by (nonlinear_arith)
            requires
                s[0] <= 255,
        ;
    }
}

/// A string of zero bytes denotes zero.
pub proof fn lemma_be_nat_zeros(s: Seq<u8>)
    requires
        forall|i: int| 0 <= i < s.len() ==> s[i] == 0,
    ensures
        be_nat(s) == 0,
    decreases s.len(),
{
    if s.len() > 0 {
        lemma_be_nat_zeros(s.subrange(1, s.len() as int));
    }
}

/// Two strings of one length that differ first at their head are ordered by
/// that head byte.
pub proof fn lemma_head_decides(a: Seq<u8>, b: Seq<u8>)
    requires
        a.len() == b.len(),
        a.len() > 0,
        a[0] < b[0],
    ensures
        be_nat(a) < be_nat(b),
{
    let n = (a.len() - 1) as nat;
    let p = pow256(n);
    let ta = a.subrange(1, a.len() as int);
    let tb = b.subrange(1, b.len() as int);
    lemma_be_nat_bound(ta);
    assert(a[0] as nat * p + p <= b[0] as nat * p) by (nonlinear_arith)
        requires
            a[0] < b[0],
    ;
}

/// Whether the number that `a` denotes is less than the one that `b` denotes.
pub fn be_less(a: &[u8; 32], b: &[u8; 32]) -> (r: bool)
    ensures
        r == (be_nat(a@) < be_nat(b@)),
{
    let mut i: usize = 0;
    proof {
        assert(a@.subrange(0, 32) =~= a@);
        assert(b@.subrange(0, 32) =~= b@);
    }
    while i < 32
        invariant
            0 <= i <= 32,
            a@.subrange(0, i as int) == b@.subrange(0, i as int),
            (be_nat(a@) < be_nat(b@)) == (be_nat(a@.subrange(i as int, 32)) < be_nat(
                b@.subrange(i as int, 32),
            )),
        decreases 32 - i,
    {
        let x = a[i];
        let y = b[i];
        let ghost ta = a@.subrange(i as int, 32);
        let ghost tb = b@.subrange(i as int, 32);
        if x < y {
            proof {
                lemma_head_decides(ta, tb);
            }
            return true;
        }
        if y < x {
            proof {
                lemma_head_decides(tb, ta);
            }
            return false;
        }
        proof {
            assert(ta.subrange(1, ta.len() as int) =~= a@.subrange(i + 1, 32));
            assert(tb.subrange(1, tb.len() as int) =~= b@.subrange(i + 1, 32));
            assert(a@.subrange(0, i + 1) =~= a@.subrange(0, i as int).push(x));
            assert(b@.subrange(0, i + 1) =~= b@.subrange(0, i as int).push(y));
        }
        i = i + 1;
    }
    false
}

/// Whether `a` denotes zero.
pub fn is_zero(a: &[u8; 32]) -> (r: bool)
    ensures
        r == (be_nat(a@) == 0),
{
    let zero: [u8; 32] = [0u8; 32];
    proof {
        lemma_be_nat_zeros(zero@);
    }
    !be_less(&zero, a)
}

} // verus!
