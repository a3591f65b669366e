use vstd::prelude::*;

use crate::ledger::{nonce_of, with_nonce, AccountId, AccountInfo, Ledger, Nonce};
use crate::tags::{encode_tag, tag_of};
use crate::validity::{permissive_validity, InvalidTransaction, ValidTransaction, ValidityView};
use crate::weight::Weight;

verus! {

/// The nonce check of one transaction: the nonce its signer claims is next.
#[derive(Clone, Copy, PartialEq, Eq, Debug, Structural)]
pub struct CheckNonce(pub Nonce);

/// What `validate` hands to `prepare`.
#[derive(Clone, Copy, PartialEq, Eq, Debug)]
pub enum Val {
    /// The signer and the nonce the ledger held for it at validation.
    CheckNonce((AccountId, Nonce)),
    /// No signer: the check was skipped and its weight is to be refunded.
    Refund(Weight),
}

/// What `prepare` hands to `post_dispatch_details`.
#[derive(Clone, Copy, PartialEq, Eq, Debug)]
pub enum Pre {
    /// The nonce was checked and advanced; nothing is refunded.
    NonceChecked,
    /// The check was skipped; this weight is refunded.
    Refund(Weight),
}

/// The outcome of validation, with the validity seen through its view.
pub open spec fn validation_view(r: Result<(ValidTransaction, Val), InvalidTransaction>) -> Result<
    (ValidityView, Val),
    InvalidTransaction,
> {
    match r {
        Ok((v, val)) => Ok((v@, val)),
        Err(e) => Err(e),
    }
}

/// The tags a transaction of `who` claiming `claimed` depends on, when the
/// ledger holds `current`: the slot just before the claim if there is a gap,
/// none otherwise.
pub open spec fn required_tags(who: AccountId, claimed: Nonce, current: Nonce) -> Seq<Seq<u8>> {
    if current < claimed {
        seq![tag_of(who, (claimed - 1) as Nonce)]
    } else {
        Seq::empty()
    }
}

/// What validation of a claim of `claimed` from `origin` decides against the
/// ledger `accounts`, where the check itself weighs `check_weight`.
pub open spec fn validate_spec(
    claimed: Nonce,
    origin: Option<AccountId>,
    accounts: Map<AccountId, AccountInfo>,
    check_weight: Weight,
) -> Result<(ValidityView, Val), InvalidTransaction> {
    match origin {
        None => Ok((permissive_validity(), Val::Refund(check_weight))),
        Some(who) => {
            let current = nonce_of(accounts, who);
            if claimed < current {
                Err(InvalidTransaction::Stale)
            } else {
                Ok(
                    (
                        ValidityView {
                            priority: 0,
                            requires: required_tags(who, claimed, current),
                            provides: seq![tag_of(who, claimed)],
                            longevity: u64::MAX,
                            propagate: true,
                        },
                        Val::CheckNonce((who, current)),
                    ),
                )
            }
        },
    }
}

/// Whether `prepare` can run on `val` without the nonce overflowing.
pub open spec fn prepare_fits(claimed: Nonce, val: Val) -> bool {
    match val {
        Val::CheckNonce((_, current)) => claimed <= current ==> current < u64::MAX,
        Val::Refund(_) => true,
    }
}

/// What preparation of a claim of `claimed` with `val` returns, and the ledger
/// it leaves behind.
pub open spec fn prepare_spec(claimed: Nonce, val: Val, accounts: Map<AccountId, AccountInfo>) -> (
    Result<Pre, InvalidTransaction>,
    Map<AccountId, AccountInfo>,
) {
    match val {
        Val::Refund(w) => (Ok(Pre::Refund(w)), accounts),
        Val::CheckNonce((who, current)) => {
            if claimed > current {
                (Err(InvalidTransaction::Future), accounts)
            } else {
                (Ok(Pre::NonceChecked), with_nonce(accounts, who, (current + 1) as Nonce))
            }
        },
    }
}

/// The weight handed back after dispatch for `pre`.
pub open spec fn refund_of(pre: Pre) -> Weight {
    match pre {
        Pre::NonceChecked => Weight { ref_time: 0, proof_size: 0 },
        Pre::Refund(w) => w,
    }
}

impl CheckNonce {
    /// The check for a transaction claiming `nonce`.
    pub fn from(nonce: Nonce) -> (r: CheckNonce)
        ensures
            r.0 == nonce,
    {
        CheckNonce(nonce)
    }

    /// Read-only admission check against a possibly stale ledger snapshot.
    ///
    /// `origin` is the signer, `None` for a transaction without one; such a
    /// transaction is let through untouched and the check's weight
    /// `check_weight` is marked for refund. A signed claim below the signer's
    /// nonce is `Stale`. Otherwise the transaction provides the tag of its own
    /// slot and, when it claims beyond the ledger's nonce, requires the tag of
    /// the slot just before.
    pub fn validate(&self, origin: Option<AccountId>, ledger: &Ledger, check_weight: Weight) -> (r:
        Result<(ValidTransaction, Val), InvalidTransaction>)
        ensures
            validation_view(r) == validate_spec(self.0, origin, ledger@, check_weight),
            origin is None ==> validation_view(r) == Ok::<(ValidityView, Val), InvalidTransaction>(
                (permissive_validity(), Val::Refund(check_weight)),
            ),
            origin matches Some(who) ==> (r is Err <==> self.0 < nonce_of(ledger@, who)),
            r matches Err(e) ==> e == InvalidTransaction::Stale,
            origin matches Some(who) ==> (r matches Ok((v, _)) ==> {
                &&& v@.provides == seq![tag_of(who, self.0)]
                &&& v@.requires == required_tags(who, self.0, nonce_of(ledger@, who))
            }),
    {
        let who = match origin {
            Some(who) => who,
            None => {
                return Ok((ValidTransaction::default(), Val::Refund(check_weight)));
            },
        };
        let account = ledger.get(who);
        if account.providers == 0 && account.sufficients == 0 {
            // An account that nothing keeps alive has not paid for its nonce
            // storage. Refusing it is deliberately not enforced: such an
            // account may still transact.
        }
        if self.0 < account.nonce {
            return Err(InvalidTransaction::Stale);
        }
        let own = encode_tag(who, self.0);
        assert(own.deep_view() =~= own@);
        let mut provides: Vec<Vec<u8>> = Vec::new();
        provides.push(own);
        let mut required: Vec<Vec<u8>> = Vec::new();
        if account.nonce < self.0 {
            let previous = encode_tag(who, self.0 - 1);
            assert(previous.deep_view() =~= previous@);
            required.push(previous);
        }
        let validity = ValidTransaction {
            priority: 0,
            requires: required,
            provides,
            longevity: u64::MAX,
            propagate: true,
        };
        assert(validity@.provides =~= seq![tag_of(who, self.0)]);
        assert(validity@.requires =~= required_tags(who, self.0, account.nonce));
        Ok((validity, Val::CheckNonce((who, account.nonce))))
    }

    /// The commit-time check: the single place where the signer's nonce
    /// advances.
    ///
    /// A skipped check passes its refund on. Otherwise a claim beyond the
    /// nonce seen at validation is `Future` and leaves the ledger untouched;
    /// on success the signer's nonce becomes that nonce plus one.
    pub fn prepare(self, val: Val, ledger: &mut Ledger) -> (r: Result<Pre, InvalidTransaction>)
        requires
            prepare_fits(self.0, val),
        ensures
            (r, final(ledger)@) == prepare_spec(self.0, val, old(ledger)@),
            r matches Err(e) ==> e == InvalidTransaction::Future && final(ledger)@ == old(ledger)@,
    {
        let (who, nonce) = match val {
            Val::CheckNonce((who, nonce)) => (who, nonce),
            Val::Refund(weight) => {
                return Ok(Pre::Refund(weight));
            },
        };
        // A claim below `nonce` was refused by `validate`.
        if self.0 > nonce {
            return Err(InvalidTransaction::Future);
        }
        let next: Nonce = nonce + 1;
        ledger.set_nonce(who, next);
        Ok(Pre::NonceChecked)
    }

    /// After dispatch: the weight to refund for `pre`, nothing for a checked
    /// nonce and the reserved weight for a skipped check.
    pub fn post_dispatch_details(pre: Pre) -> (r: Result<Weight, InvalidTransaction>)
        ensures
            r == Ok::<Weight, InvalidTransaction>(refund_of(pre)),
    {
        match pre {
            Pre::NonceChecked => Ok(Weight::zero()),
            Pre::Refund(weight) => Ok(weight),
        }
    }
}

} // verus!
