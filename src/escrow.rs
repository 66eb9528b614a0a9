use vstd::prelude::*;
use std::collections::HashMap;
use crate::error::LedgerError;
use crate::identity::Identity;

verus! {

broadcast use vstd::std_specs::hash::group_hash_axioms;

/// Lifecycle state of a trade: `Created -> Funded -> Completed`, or
/// `Created -> Cancelled`.
#[derive(Clone, Copy, Debug, PartialEq, Eq, Structural)]
pub enum TradeStatus {
    Created,
    Funded,
    Completed,
    Cancelled,
}

/// `to` is `from` itself or one edge of the lifecycle away from it.
pub open spec fn status_step(from: TradeStatus, to: TradeStatus) -> bool {
    ||| from == to
    ||| (from == TradeStatus::Created && to == TradeStatus::Funded)
    ||| (from == TradeStatus::Funded && to == TradeStatus::Completed)
    ||| (from == TradeStatus::Created && to == TradeStatus::Cancelled)
}

/// `to` can be reached from `from` by following lifecycle edges.
pub open spec fn status_reachable(from: TradeStatus, to: TradeStatus) -> bool {
    ||| from == to
    ||| from == TradeStatus::Created
    ||| (from == TradeStatus::Funded && to == TradeStatus::Completed)
}

/// No edge leaves these states.
pub open spec fn is_terminal(s: TradeStatus) -> bool {
    s == TradeStatus::Completed || s == TradeStatus::Cancelled
}

/// An asset-for-payment exchange between a seller and a buyer.
#[derive(Debug)]
pub struct Trade {
    pub trade_id: u64,
    pub seller: Identity,
    pub buyer: Identity,
    pub asset_desc: String,
    pub price: i128,
    pub status: TradeStatus,
}

/// Outcome of the buyer's funding of `t`: the new status, or why it is refused.
pub open spec fn funding_outcome(t: Trade, caller: Seq<u8>) -> Result<TradeStatus, LedgerError> {
    if caller != t.buyer@ {
        Err(LedgerError::Unauthorized)
    } else if t.status != TradeStatus::Created {
        Err(LedgerError::InvalidState)
    } else {
        Ok(TradeStatus::Funded)
    }
}

/// Outcome of the seller's confirmation of delivery. The state is checked
/// before the caller.
pub open spec fn delivery_outcome(t: Trade, caller: Seq<u8>) -> Result<TradeStatus, LedgerError> {
    if t.status != TradeStatus::Funded {
        Err(LedgerError::InvalidState)
    } else if caller != t.seller@ {
        Err(LedgerError::Unauthorized)
    } else {
        Ok(TradeStatus::Completed)
    }
}

/// Outcome of the seller's cancellation of `t`.
pub open spec fn cancel_outcome(t: Trade, caller: Seq<u8>) -> Result<TradeStatus, LedgerError> {
    if caller != t.seller@ {
        Err(LedgerError::Unauthorized)
    } else if t.status != TradeStatus::Created {
        Err(LedgerError::InvalidState)
    } else {
        Ok(TradeStatus::Cancelled)
    }
}

impl Trade {
    /// The same trade in status `s`.
    pub open spec fn with_status(self, s: TradeStatus) -> Trade {
        Trade {
            trade_id: self.trade_id,
            seller: self.seller,
            buyer: self.buyer,
            asset_desc: self.asset_desc,
            price: self.price,
            status: s,
        }
    }

    /// `self` and `other` hold the same record: equal ids, parties,
    /// description, price and status.
    pub open spec fn same_record(self, other: Trade) -> bool {
        &&& self.trade_id == other.trade_id
        &&& self.seller@ == other.seller@
        &&& self.buyer@ == other.buyer@
        &&& self.asset_desc@ == other.asset_desc@
        &&& self.price == other.price
        &&& self.status == other.status
    }

    /// A copy of this record.
    pub fn duplicate(&self) -> (r: Trade)
        ensures
            r.same_record(*self),
    {
        Trade {
            trade_id: self.trade_id,
            seller: self.seller.duplicate(),
            buyer: self.buyer.duplicate(),
            asset_desc: self.asset_desc.clone(),
            price: self.price,
            status: self.status,
        }
    }

    /// A fresh trade in status `Created`; the price must be positive.
    pub fn new(
        trade_id: u64,
        seller: Identity,
        buyer: Identity,
        asset_desc: String,
        price: i128,
    ) -> (r: Result<Trade, LedgerError>)
        ensures
            price <= 0 ==> r == Err::<Trade, LedgerError>(LedgerError::InvalidArgument),
            price > 0 ==> r == Ok::<Trade, LedgerError>(
                Trade { trade_id, seller, buyer, asset_desc, price, status: TradeStatus::Created },
            ),
    {
        if price <= 0 {
            return Err(LedgerError::InvalidArgument);
        }
        Ok(Trade { trade_id, seller, buyer, asset_desc, price, status: TradeStatus::Created })
    }

    /// The status after `caller` marks this trade funded.
    pub fn funding(&self, caller: &Identity) -> (r: Result<TradeStatus, LedgerError>)
        ensures
            r == funding_outcome(*self, caller@),
    {
        if !caller.same_as(&self.buyer) {
            return Err(LedgerError::Unauthorized);
        }
        match self.status {
            TradeStatus::Created => Ok(TradeStatus::Funded),
            TradeStatus::Funded | TradeStatus::Completed | TradeStatus::Cancelled => Err(
                LedgerError::InvalidState,
            ),
        }
    }

    /// The status after `caller` confirms delivery of this trade.
    pub fn delivery(&self, caller: &Identity) -> (r: Result<TradeStatus, LedgerError>)
        ensures
            r == delivery_outcome(*self, caller@),
    {
        match self.status {
            TradeStatus::Funded => {},
            TradeStatus::Created | TradeStatus::Completed | TradeStatus::Cancelled => {
                return Err(LedgerError::InvalidState);
            },
        }
        if !caller.same_as(&self.seller) {
            return Err(LedgerError::Unauthorized);
        }
        Ok(TradeStatus::Completed)
    }

    /// The status after `caller` cancels this trade.
    pub fn cancellation(&self, caller: &Identity) -> (r: Result<TradeStatus, LedgerError>)
        ensures
            r == cancel_outcome(*self, caller@),
    {
        if !caller.same_as(&self.seller) {
            return Err(LedgerError::Unauthorized);
        }
        match self.status {
            TradeStatus::Created => Ok(TradeStatus::Cancelled),
            TradeStatus::Funded | TradeStatus::Completed | TradeStatus::Cancelled => Err(
                LedgerError::InvalidState,
            ),
        }
    }
}

/// Each trade is stored under its own id.
pub open spec fn trades_keyed(m: Map<u64, Trade>) -> bool {
    forall|k: u64| #[trigger] m.contains_key(k) ==> m[k].trade_id == k
}

/// The store after applying a computed step to the trade under `id`.
pub open spec fn apply_step(
    m: Map<u64, Trade>,
    id: u64,
    step: Result<TradeStatus, LedgerError>,
) -> (Map<u64, Trade>, Result<(), LedgerError>) {
    match step {
        Ok(s) => (m.insert(id, m[id].with_status(s)), Ok(())),
        Err(e) => (m, Err(e)),
    }
}

/// The store and result of `create_trade`.
pub open spec fn after_create(
    m: Map<u64, Trade>,
    id: u64,
    seller: Identity,
    buyer: Identity,
    asset_desc: String,
    price: i128,
) -> (Map<u64, Trade>, Result<(), LedgerError>) {
    if price <= 0 {
        (m, Err(LedgerError::InvalidArgument))
    } else if m.contains_key(id) {
        (m, Err(LedgerError::DuplicateId))
    } else {
        (
            m.insert(
                id,
                Trade { trade_id: id, seller, buyer, asset_desc, price, status: TradeStatus::Created },
            ),
            Ok(()),
        )
    }
}

/// The store and result of `mark_funded`.
pub open spec fn after_fund(m: Map<u64, Trade>, id: u64, caller: Seq<u8>) -> (
    Map<u64, Trade>,
    Result<(), LedgerError>,
) {
    if !m.contains_key(id) {
        (m, Err(LedgerError::NotFound))
    } else {
        apply_step(m, id, funding_outcome(m[id], caller))
    }
}

/// The store and result of `confirm_delivery`.
pub open spec fn after_delivery(m: Map<u64, Trade>, id: u64, caller: Seq<u8>) -> (
    Map<u64, Trade>,
    Result<(), LedgerError>,
) {
    if !m.contains_key(id) {
        (m, Err(LedgerError::NotFound))
    } else {
        apply_step(m, id, delivery_outcome(m[id], caller))
    }
}

/// The store and result of `cancel_trade`.
pub open spec fn after_cancel(m: Map<u64, Trade>, id: u64, caller: Seq<u8>) -> (
    Map<u64, Trade>,
    Result<(), LedgerError>,
) {
    if !m.contains_key(id) {
        (m, Err(LedgerError::NotFound))
    } else {
        apply_step(m, id, cancel_outcome(m[id], caller))
    }
}

/// Every trade of `before` is still in `after`, at most one lifecycle edge
/// further on, and a trade that `after` adds starts out `Created`.
pub open spec fn follows_lifecycle(before: Map<u64, Trade>, after: Map<u64, Trade>) -> bool {
    &&& forall|k: u64| #[trigger]
        before.contains_key(k) ==> after.contains_key(k) && status_step(
            before[k].status,
            after[k].status,
        )
    &&& forall|k: u64| #[trigger]
        after.contains_key(k) && !before.contains_key(k) ==> after[k].status
            == TradeStatus::Created
}

/// No operation on the escrow moves a trade off the lifecycle: each one
/// either leaves a trade alone or takes it along a single edge
/// `Created -> Funded`, `Funded -> Completed` or `Created -> Cancelled`.
pub proof fn lemma_operations_follow_lifecycle(
    m: Map<u64, Trade>,
    id: u64,
    caller: Seq<u8>,
    seller: Identity,
    buyer: Identity,
    asset_desc: String,
    price: i128,
)
    ensures
        follows_lifecycle(m, after_create(m, id, seller, buyer, asset_desc, price).0),
        follows_lifecycle(m, after_fund(m, id, caller).0),
        follows_lifecycle(m, after_delivery(m, id, caller).0),
        follows_lifecycle(m, after_cancel(m, id, caller).0),
{
}

/// Over any run of steps, a trade never returns to `Created` and never
/// leaves `Completed` or `Cancelled`.
pub proof fn lemma_lifecycle_is_forward(a: TradeStatus, b: TradeStatus, c: TradeStatus)
    ensures
        status_step(a, b) ==> status_reachable(a, b),
        status_reachable(a, b) && status_reachable(b, c) ==> status_reachable(a, c),
        status_reachable(a, TradeStatus::Created) ==> a == TradeStatus::Created,
        is_terminal(a) && status_reachable(a, b) ==> b == a,
{
}

/// Only the stored buyer can fund a trade: anyone else is refused with
/// `Unauthorized`, whatever the trade's state, and nothing changes.
pub proof fn lemma_only_buyer_funds(m: Map<u64, Trade>, id: u64, caller: Seq<u8>)
    requires
        m.contains_key(id),
        caller != m[id].buyer@,
    ensures
        after_fund(m, id, caller) == (m, Err::<(), LedgerError>(LedgerError::Unauthorized)),
{
}

/// Delivery can be confirmed only on a funded trade: otherwise it is refused
/// with `InvalidState`, whoever calls, and nothing changes.
pub proof fn lemma_delivery_needs_funding(m: Map<u64, Trade>, id: u64, caller: Seq<u8>)
    requires
        m.contains_key(id),
        m[id].status != TradeStatus::Funded,
    ensures
        after_delivery(m, id, caller) == (m, Err::<(), LedgerError>(LedgerError::InvalidState)),
{
}

/// The trade escrow: every trade, keyed by its id.
pub struct SecureTradingBooth {
    trades: HashMap<u64, Trade>,
}

impl View for SecureTradingBooth {
    type V = Map<u64, Trade>;

    closed spec fn view(&self) -> Map<u64, Trade> {
        self.trades@
    }
}

impl SecureTradingBooth {
    /// An escrow that holds no trade.
    pub fn new() -> (r: SecureTradingBooth)
        ensures
            r@ == Map::<u64, Trade>::empty(),
            trades_keyed(r@),
    {
        SecureTradingBooth { trades: HashMap::new() }
    }

    /// The seller offers a trade to a specific buyer.
    pub fn create_trade(
        &mut self,
        trade_id: u64,
        seller: Identity,
        buyer: Identity,
        asset_desc: String,
        price: i128,
    ) -> (r: Result<(), LedgerError>)
        requires
            trades_keyed(old(self)@),
        ensures
            (final(self)@, r) == after_create(old(self)@, trade_id, seller, buyer, asset_desc, price),
            trades_keyed(final(self)@),
    {
        let trade = match Trade::new(trade_id, seller, buyer, asset_desc, price) {
            Ok(t) => t,
            Err(e) => return Err(e),
        };
        if self.trades.contains_key(&trade_id) {
            return Err(LedgerError::DuplicateId);
        }
        self.trades.insert(trade_id, trade);
        Ok(())
    }

    /// Writes a computed step back to the trade under `id`.
    fn commit(&mut self, id: u64, step: Result<TradeStatus, LedgerError>) -> (r: Result<
        (),
        LedgerError,
    >)
        requires
            old(self)@.contains_key(id),
            trades_keyed(old(self)@),
        ensures
            (final(self)@, r) == apply_step(old(self)@, id, step),
            trades_keyed(final(self)@),
    {
        match step {
            Err(e) => Err(e),
            Ok(s) => {
                if let Some(mut t) = self.trades.remove(&id) {
                    t.status = s;
                    self.trades.insert(id, t);
                }
                assert(self.trades@ =~= old(self)@.insert(id, old(self)@[id].with_status(s)));
                Ok(())
            },
        }
    }

    /// The buyer marks the trade funded.
    pub fn mark_funded(&mut self, trade_id: u64, caller: &Identity) -> (r: Result<(), LedgerError>)
        requires
            trades_keyed(old(self)@),
        ensures
            (final(self)@, r) == after_fund(old(self)@, trade_id, caller@),
            trades_keyed(final(self)@),
    {
        let step = match self.trades.get(&trade_id) {
            None => return Err(LedgerError::NotFound),
            Some(t) => t.funding(caller),
        };
        self.commit(trade_id, step)
    }

    /// The seller confirms delivery and completes the trade.
    pub fn confirm_delivery(&mut self, trade_id: u64, caller: &Identity) -> (r: Result<
        (),
        LedgerError,
    >)
        requires
            trades_keyed(old(self)@),
        ensures
            (final(self)@, r) == after_delivery(old(self)@, trade_id, caller@),
            trades_keyed(final(self)@),
    {
        let step = match self.trades.get(&trade_id) {
            None => return Err(LedgerError::NotFound),
            Some(t) => t.delivery(caller),
        };
        self.commit(trade_id, step)
    }

    /// The seller cancels the trade before it is funded.
    pub fn cancel_trade(&mut self, trade_id: u64, caller: &Identity) -> (r: Result<
        (),
        LedgerError,
    >)
        requires
            trades_keyed(old(self)@),
        ensures
            (final(self)@, r) == after_cancel(old(self)@, trade_id, caller@),
            trades_keyed(final(self)@),
    {
        let step = match self.trades.get(&trade_id) {
            None => return Err(LedgerError::NotFound),
            Some(t) => t.cancellation(caller),
        };
        self.commit(trade_id, step)
    }

    /// A copy of the trade stored under `trade_id`, if any.
    pub fn get_trade(&self, trade_id: u64) -> (r: Option<Trade>)
        ensures
            match r {
                Some(t) => self@.contains_key(trade_id) && t.same_record(self@[trade_id]),
                None => !self@.contains_key(trade_id),
            },
    {
        match self.trades.get(&trade_id) {
            Some(t) => Some(t.duplicate()),
            None => None,
        }
    }
}

} // verus!
