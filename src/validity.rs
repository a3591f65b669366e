use vstd::prelude::*;

verus! {

/// Why a transaction is refused.
#[derive(Clone, Copy, PartialEq, Eq, Debug, Structural)]
pub enum InvalidTransaction {
    /// The claimed nonce is below the account's nonce: the slot was already
    /// used, and this claim can never become valid.
    Stale,
    /// The claimed nonce is above the account's nonce at commit time: the
    /// transactions in between have not been applied yet.
    Future,
}

/// How a transaction pool may treat an accepted transaction.
#[derive(Clone, Debug, PartialEq, Eq)]
pub struct ValidTransaction {
    /// Ordering priority among transactions of equal standing.
    pub priority: u64,
    /// Tags that must be provided before this transaction can be included.
    pub requires: Vec<Vec<u8>>,
    /// Tags this transaction provides once included.
    pub provides: Vec<Vec<u8>>,
    /// Number of blocks for which the validity holds.
    pub longevity: u64,
    /// Whether the transaction may be gossiped to other nodes.
    pub propagate: bool,
}

/// The mathematical value of a [`ValidTransaction`].
pub struct ValidityView {
    pub priority: u64,
    pub requires: Seq<Seq<u8>>,
    pub provides: Seq<Seq<u8>>,
    pub longevity: u64,
    pub propagate: bool,
}

impl View for ValidTransaction {
    type V = ValidityView;

    open spec fn view(&self) -> ValidityView {
        ValidityView {
            priority: self.priority,
            requires: self.requires.deep_view(),
            provides: self.provides.deep_view(),
            longevity: self.longevity,
            propagate: self.propagate,
        }
    }
}

/// The validity that constrains nothing: no tags, lowest priority, longest
/// lifetime, propagated.
pub open spec fn permissive_validity() -> ValidityView {
    ValidityView {
        priority: 0,
        requires: Seq::empty(),
        provides: Seq::empty(),
        longevity: u64::MAX,
        propagate: true,
    }
}

impl Default for ValidTransaction {
    fn default() -> (r: ValidTransaction)
        ensures
            r@ == permissive_validity(),
    {
        let r = ValidTransaction {
            priority: 0,
            requires: Vec::new(),
            provides: Vec::new(),
            longevity: u64::MAX,
            propagate: true,
        };
        assert(r.requires.deep_view() =~= Seq::<Seq<u8>>::empty());
        assert(r.provides.deep_view() =~= Seq::<Seq<u8>>::empty());
        r
    }
}

} // verus!
