use vstd::prelude::*;

use crate::ledger::{AccountId, Nonce};

verus! {

/// The `n` low bytes of `x`, least significant first.
pub open spec fn le_bytes(x: nat, n: nat) -> Seq<u8>
    decreases n,
{
    if n == 0 {
        Seq::empty()
    } else {
        seq![(x % 256) as u8] + le_bytes(x / 256, (n - 1) as nat)
    }
}

/// The canonical tag of the slot `(who, nonce)`: the SCALE encoding of the
/// pair, which is each integer as eight little-endian bytes, account first.
pub open spec fn tag_of(who: AccountId, nonce: Nonce) -> Seq<u8> {
    le_bytes(who as nat, 8) + le_bytes(nonce as nat, 8)
}

/// The number that the little-endian bytes `s` stand for.
pub open spec fn from_le_bytes(s: Seq<u8>) -> nat
    decreases s.len(),
{
    if s.len() == 0 {
        0
    } else {
        s[0] as nat + 256 * from_le_bytes(s.drop_first())
    }
}

/// `256` to the power `n`.
pub open spec fn pow256(n: nat) -> nat
    decreases n,
{
    if n == 0 {
        1
    } else {
        256 * pow256((n - 1) as nat)
    }
}

/// `le_bytes` gives `n` bytes, and reading them back gives `x` when `x` fits.
pub proof fn lemma_le_bytes_round_trip(x: nat, n: nat)
    requires
        x < pow256(n),
    ensures
        le_bytes(x, n).len() == n,
        from_le_bytes(le_bytes(x, n)) == x,
    decreases n,
{
    if n > 0 {
        let rest = pow256((n - 1) as nat);
        assert(x / 256 < rest) by (nonlinear_arith)
            requires
                x < 256 * rest,
        ;
        lemma_le_bytes_round_trip(x / 256, (n - 1) as nat);
        let s = le_bytes(x, n);
        assert(s.drop_first() =~= le_bytes(x / 256, (n - 1) as nat));
        assert(s[0] as nat == x % 256);
        assert(x == x % 256 + 256 * (x / 256)) by (nonlinear_arith);
    }
}

/// Distinct slots have distinct tags: the tag of `(who, nonce)` determines
/// both the account and the nonce.
pub proof fn lemma_tag_injective(a: AccountId, m: Nonce, b: AccountId, n: Nonce)
    requires
        tag_of(a, m) == tag_of(b, n),
    ensures
        a == b,
        m == n,
{
    assert(pow256(8) == 0x1_0000_0000_0000_0000) by {
        reveal_with_fuel(pow256, 9);
    }
    lemma_le_bytes_round_trip(a as nat, 8);
    lemma_le_bytes_round_trip(m as nat, 8);
    lemma_le_bytes_round_trip(b as nat, 8);
    lemma_le_bytes_round_trip(n as nat, 8);
    let t = tag_of(a, m);
    assert(t.subrange(0, 8) =~= le_bytes(a as nat, 8));
    assert(t.subrange(8, 16) =~= le_bytes(m as nat, 8));
    assert(tag_of(b, n).subrange(0, 8) =~= le_bytes(b as nat, 8));
    assert(tag_of(b, n).subrange(8, 16) =~= le_bytes(n as nat, 8));
}

/// Relies on `parity_scale_codec::Encode::encode` for a pair of `u64`: a tuple
/// encodes as its fields one after the other, and a `u64` as its eight
/// little-endian bytes.
#[verifier::external_body]
pub(crate) fn encode_tag(who: AccountId, nonce: Nonce) -> (r: Vec<u8>)
    ensures
        r@ == tag_of(who, nonce),
{
    parity_scale_codec::Encode::encode(&(&who, nonce))
}

} // verus!
