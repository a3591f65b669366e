use vstd::prelude::*;

use crate::ledger::{nonce_of, record_of, AccountId, AccountInfo, Nonce};
use crate::nonce::{
    prepare_fits, prepare_spec, refund_of, validate_spec, Pre, Val,
};
use crate::validity::{permissive_validity, InvalidTransaction, ValidityView};
use crate::weight::Weight;

verus! {

/// Whether a transaction of `who` claiming `claimed`, validated and then
/// prepared against the same ledger `accounts`, is applied.
pub open spec fn commits(
    claimed: Nonce,
    who: AccountId,
    accounts: Map<AccountId, AccountInfo>,
    check_weight: Weight,
) -> bool {
    match validate_spec(claimed, Some(who), accounts, check_weight) {
        Ok((_, val)) => prepare_fits(claimed, val) && prepare_spec(claimed, val, accounts).0 is Ok,
        Err(_) => false,
    }
}

/// The ledger after a transaction of `who` claiming `claimed` is validated and
/// prepared against `accounts`.
pub open spec fn ledger_after(
    claimed: Nonce,
    who: AccountId,
    accounts: Map<AccountId, AccountInfo>,
    check_weight: Weight,
) -> Map<AccountId, AccountInfo> {
    match validate_spec(claimed, Some(who), accounts, check_weight) {
        Ok((_, val)) => prepare_spec(claimed, val, accounts).1,
        Err(_) => accounts,
    }
}

/// A signed transaction is applied exactly when it claims the signer's
/// current nonce (and that nonce can still grow). Once applied, the signer's
/// nonce is the claim plus one, the rest of its record is kept, and no other
/// account changes.
pub proof fn lemma_commit_sets_next_nonce(
    claimed: Nonce,
    who: AccountId,
    accounts: Map<AccountId, AccountInfo>,
    check_weight: Weight,
)
    ensures
        commits(claimed, who, accounts, check_weight) <==> (claimed == nonce_of(accounts, who)
            && claimed < u64::MAX),
        commits(claimed, who, accounts, check_weight) ==> {
            let after = ledger_after(claimed, who, accounts, check_weight);
            &&& nonce_of(after, who) == claimed + 1
            &&& record_of(after, who) == (AccountInfo {
                nonce: (claimed + 1) as Nonce,
                ..record_of(accounts, who)
            })
            &&& after.remove(who) == accounts.remove(who)
        },
{
    if commits(claimed, who, accounts, check_weight) {
        let after = ledger_after(claimed, who, accounts, check_weight);
        assert(after.remove(who) =~= accounts.remove(who));
    }
}

/// Replaying an applied transaction fails: once `(who, claimed)` has been
/// applied, validating the same claim against the resulting ledger is `Stale`,
/// so it can never be applied again.
pub proof fn lemma_replay_is_stale(
    claimed: Nonce,
    who: AccountId,
    accounts: Map<AccountId, AccountInfo>,
    check_weight: Weight,
)
    requires
        commits(claimed, who, accounts, check_weight),
    ensures
        validate_spec(claimed, Some(who), ledger_after(claimed, who, accounts, check_weight), check_weight)
            == Err::<(ValidityView, Val), InvalidTransaction>(InvalidTransaction::Stale),
        !commits(claimed, who, ledger_after(claimed, who, accounts, check_weight), check_weight),
{
    lemma_commit_sets_next_nonce(claimed, who, accounts, check_weight);
}

/// A transaction without a signer passes all three phases untouched: it is
/// valid with no tags whatever the ledger holds, preparing it leaves the
/// ledger as it was, and after dispatch the check's reserved weight comes back
/// unchanged.
pub proof fn lemma_unsigned_is_refunded(
    claimed: Nonce,
    accounts: Map<AccountId, AccountInfo>,
    check_weight: Weight,
)
    ensures
        validate_spec(claimed, None, accounts, check_weight) == Ok::<
            (ValidityView, Val),
            InvalidTransaction,
        >((permissive_validity(), Val::Refund(check_weight))),
        prepare_spec(claimed, Val::Refund(check_weight), accounts) == (
            Ok::<Pre, InvalidTransaction>(Pre::Refund(check_weight)),
            accounts,
        ),
        refund_of(Pre::Refund(check_weight)) == check_weight,
{
}

/// Validation reads nothing of the ledger but the signer's record, and
/// nothing at all without a signer: two ledgers that agree there give the
/// same outcome, so repeating it against an unchanged snapshot repeats the
/// outcome.
pub proof fn lemma_validate_reads_only_signer(
    claimed: Nonce,
    origin: Option<AccountId>,
    a: Map<AccountId, AccountInfo>,
    b: Map<AccountId, AccountInfo>,
    check_weight: Weight,
)
    requires
        origin matches Some(who) ==> record_of(a, who) == record_of(b, who),
    ensures
        validate_spec(claimed, origin, a, check_weight) == validate_spec(
            claimed,
            origin,
            b,
            check_weight,
        ),
{
}

} // verus!
