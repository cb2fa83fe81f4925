//! Byte strings read as numbers.
use vstd::prelude::*;

verus! {

/// The number that the first `n` bytes of `s` write, most significant first.
pub open spec fn be_prefix(s: Seq<u8>, n: nat) -> int
    decreases n,
{
    if n == 0 {
        0
    } else {
        be_prefix(s, (n - 1) as nat) * 256 + s[n - 1]
    }
}

/// The number that `s` writes, most significant byte first.
pub open spec fn be_value(s: Seq<u8>) -> int {
    be_prefix(s, s.len())
}

/// Prefixes are natural numbers, and depend on the bytes of the prefix alone.
pub proof fn lemma_prefix(s: Seq<u8>, t: Seq<u8>, n: nat)
    requires
        forall|i: int| 0 <= i < n ==> s[i] == t[i],
    ensures
        be_prefix(s, n) == be_prefix(t, n),
        be_prefix(s, n) >= 0,
    decreases n,
{
    if n > 0 {
        lemma_prefix(s, t, (n - 1) as nat);
    }
}

/// Equal numbers are written by equal bytes.
pub proof fn lemma_prefix_injective(s: Seq<u8>, t: Seq<u8>, n: nat)
    requires
        be_prefix(s, n) == be_prefix(t, n),
    ensures
        forall|i: int| 0 <= i < n ==> s[i] == t[i],
    decreases n,
{
    if n > 0 {
        let m = (n - 1) as nat;
        assert(be_prefix(s, m) == be_prefix(t, m) && s[n - 1] == t[n - 1]);
        lemma_prefix_injective(s, t, m);
    }
}

/// Byte strings of one length that write the same number are equal.
pub proof fn lemma_be_injective(s: Seq<u8>, t: Seq<u8>)
    requires
        s.len() == t.len(),
        be_value(s) == be_value(t),
    ensures
        s == t,
{
    lemma_prefix_injective(s, t, s.len());
    assert(s =~= t);
}

/// A byte string in reverse order.
pub fn reversed(bytes: [u8; 32]) -> (out: [u8; 32])
    ensures
        out@ == bytes@.reverse(),
{
    let mut out: [u8; 32] = [0u8; 32];
    let mut i: usize = 0;
    while i < 32
        invariant
            i <= 32,
            forall|j: int| 0 <= j < i ==> out@[j] == bytes@[31 - j],
        decreases 32 - i,
    {
        out[i] = bytes[31 - i];
        i = i + 1;
    }
    assert(out@ =~= bytes@.reverse());
    out
}

/// 32 bytes of `bytes`, from `start` on.
pub fn window(bytes: &[u8], start: usize) -> (out: [u8; 32])
    requires
        start + 32 <= bytes@.len(),
    ensures
        out@ == bytes@.subrange(start as int, start + 32),
{
    let len: usize = bytes.len();
    let mut out: [u8; 32] = [0u8; 32];
    let mut i: usize = 0;
    while i < 32
        invariant
            i <= 32,
            len == bytes@.len(),
            start + 32 <= len,
            forall|j: int| 0 <= j < i ==> out@[j] == bytes@[start + j],
        decreases 32 - i,
    {
        out[i] = bytes[start + i];
        i = i + 1;
    }
    assert(out@ =~= bytes@.subrange(start as int, start + 32));
    out
}

} // verus!
