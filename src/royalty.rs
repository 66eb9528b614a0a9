use vstd::prelude::*;
use std::collections::HashMap;
use vstd::arithmetic::div_mod::{
    lemma_div_is_ordered,
    lemma_div_multiples_vanish,
    lemma_fundamental_div_mod,
    lemma_hoist_over_denominator,
};
use crate::error::LedgerError;
use crate::identity::Identity;

verus! {

broadcast use vstd::std_specs::hash::group_hash_axioms;

/// The whole of an amount, in basis points.
pub const FULL_BPS: u32 = 10000;

/// One recipient of a stream and its part of every amount, in basis points.
#[derive(Debug)]
pub struct RecipientShare {
    pub recipient: Identity,
    pub bps: u32,
}

/// A royalty stream: who owns it, and whether it currently pays out.
#[derive(Debug)]
pub struct RoyaltyStream {
    pub stream_id: u64,
    pub owner: Identity,
    pub total_bps: u32,
    pub active: bool,
}

/// The sum of the basis points of `s`.
pub open spec fn bps_sum(s: Seq<RecipientShare>) -> int
    decreases s.len(),
{
    if s.len() == 0 {
        0
    } else {
        bps_sum(s.drop_last()) + s.last().bps
    }
}

/// A recipient's part of `amount`: `bps / 10000` of it, rounded down.
pub open spec fn share_of(amount: int, bps: int) -> int {
    amount * bps / FULL_BPS as int
}

/// `out` pays each recipient of `recipients`, in order, its part of `amount`.
pub open spec fn shares_match(
    out: Seq<(Identity, i128)>,
    recipients: Seq<RecipientShare>,
    amount: int,
) -> bool {
    &&& out.len() == recipients.len()
    &&& forall|i: int|
        0 <= i < out.len() ==> (#[trigger] out[i]).0@ == recipients[i].recipient@ && out[i].1
            == share_of(amount, recipients[i].bps as int)
}

/// Streams and their recipient lists, both keyed by stream id.
pub type RegistryModel = (Map<u64, RoyaltyStream>, Map<u64, Vec<RecipientShare>>);

/// Each stream is stored under its own id, beside a recipient list whose
/// shares make up the whole.
pub open spec fn registry_wf(v: RegistryModel) -> bool {
    forall|k: u64|
        #![trigger v.0.contains_key(k)]
        #![trigger v.1.contains_key(k)]
        (v.0.contains_key(k) <==> v.1.contains_key(k)) && (v.0.contains_key(k) ==> {
            &&& v.0[k].stream_id == k
            &&& v.0[k].total_bps == FULL_BPS
            &&& bps_sum(v.1[k]@) == FULL_BPS as int
        })
}

/// The registry and result of `create_stream`.
pub open spec fn after_create_stream(
    v: RegistryModel,
    id: u64,
    owner: Identity,
    recipients: Vec<RecipientShare>,
) -> (RegistryModel, Result<(), LedgerError>) {
    if v.0.contains_key(id) {
        (v, Err(LedgerError::DuplicateId))
    } else if bps_sum(recipients@) > u32::MAX as int {
        (v, Err(LedgerError::ArithmeticOverflow))
    } else if bps_sum(recipients@) != FULL_BPS as int {
        (v, Err(LedgerError::InvalidArgument))
    } else {
        (
            (
                v.0.insert(
                    id,
                    RoyaltyStream { stream_id: id, owner, total_bps: FULL_BPS, active: true },
                ),
                v.1.insert(id, recipients),
            ),
            Ok(()),
        )
    }
}

/// The same stream with its flag set to `active`.
pub open spec fn with_active(s: RoyaltyStream, active: bool) -> RoyaltyStream {
    RoyaltyStream { stream_id: s.stream_id, owner: s.owner, total_bps: s.total_bps, active }
}

/// The registry and result of `toggle_stream`.
pub open spec fn after_toggle(v: RegistryModel, id: u64, caller: Seq<u8>, active: bool) -> (
    RegistryModel,
    Result<(), LedgerError>,
) {
    if !v.0.contains_key(id) {
        (v, Err(LedgerError::NotFound))
    } else if caller != v.0[id].owner@ {
        (v, Err(LedgerError::Unauthorized))
    } else {
        ((v.0.insert(id, with_active(v.0[id], active)), v.1), Ok(()))
    }
}

/// The basis points of a prefix never exceed those of a longer prefix.
proof fn lemma_prefix_sum_grows(s: Seq<RecipientShare>, j: int, k: int)
    requires
        0 <= j <= k <= s.len(),
    ensures
        bps_sum(s.subrange(0, j)) <= bps_sum(s.subrange(0, k)),
    decreases k - j,
{
    if j < k {
        lemma_prefix_sum_grows(s, j, k - 1);
        assert(s.subrange(0, k).drop_last() =~= s.subrange(0, k - 1));
    }
}

/// No single share exceeds the sum of all of them.
proof fn lemma_share_within_sum(s: Seq<RecipientShare>, i: int)
    requires
        0 <= i < s.len(),
    ensures
        s[i].bps <= bps_sum(s),
{
    lemma_prefix_sum_grows(s, 0, i);
    lemma_prefix_sum_grows(s, i + 1, s.len() as int);
    assert(s.subrange(0, 0) =~= Seq::<RecipientShare>::empty());
    assert(s.subrange(0, i + 1).drop_last() =~= s.subrange(0, i));
    assert(s.subrange(0, s.len() as int) =~= s);
}

/// Splitting `amount` into whole ten-thousandths and a remainder gives the
/// same rounded-down share, with every part small enough for `i128`.
proof fn lemma_share_split(amount: int, bps: int)
    requires
        amount >= 0,
        0 <= bps <= FULL_BPS,
    ensures
        share_of(amount, bps) == (amount / 10000) * bps + (amount % 10000) * bps / 10000,
        0 <= (amount / 10000) * bps <= amount,
        0 <= (amount % 10000) * bps < 100000000,
        0 <= share_of(amount, bps) <= amount,
{
    let q = amount / 10000;
    let r = amount % 10000;
    lemma_fundamental_div_mod(amount, 10000);
    assert(0 <= r < 10000);
    assert(q >= 0);
    assert(amount * bps == r * bps + (q * bps) * 10000) by (nonlinear_arith)
        requires
            amount == 10000 * q + r,
    ;
    lemma_hoist_over_denominator(r * bps, q * bps, 10000);
    assert(0 <= amount * bps <= amount * 10000) by (nonlinear_arith)
        requires
            amount >= 0,
            0 <= bps <= 10000,
    ;
    lemma_div_is_ordered(0, amount * bps, 10000);
    lemma_div_is_ordered(amount * bps, amount * 10000, 10000);
    lemma_div_multiples_vanish(amount, 10000);
    assert(0 <= q * bps <= q * 10000) by (nonlinear_arith)
        requires
            q >= 0,
            0 <= bps <= 10000,
    ;
    assert(0 <= r * bps < 100000000) by (nonlinear_arith)
        requires
            0 <= r < 10000,
            0 <= bps <= 10000,
    ;
}

/// A stream whose shares do not add up to exactly the whole is refused and
/// nothing is stored: where the id was free before, it stays free.
pub proof fn lemma_unbalanced_stream_refused(
    v: RegistryModel,
    id: u64,
    owner: Identity,
    recipients: Vec<RecipientShare>,
)
    requires
        bps_sum(recipients@) != FULL_BPS as int,
    ensures
        after_create_stream(v, id, owner, recipients).1 is Err,
        after_create_stream(v, id, owner, recipients).0 == v,
        !v.0.contains_key(id) ==> !after_create_stream(v, id, owner, recipients).0.0.contains_key(
            id,
        ),
{
}

/// Toggling a stream twice with the same flag leaves the registry, and the
/// result, as toggling it once does.
pub proof fn lemma_toggle_idempotent(v: RegistryModel, id: u64, caller: Seq<u8>, active: bool)
    ensures
        after_toggle(after_toggle(v, id, caller, active).0, id, caller, active) == after_toggle(
            v,
            id,
            caller,
            active,
        ),
{
    let once = after_toggle(v, id, caller, active);
    if v.0.contains_key(id) && caller == v.0[id].owner@ {
        assert(once.0.0.insert(id, with_active(once.0.0[id], active)) =~= once.0.0);
    }
}


/// The sum of every recipient's part of `amount`.
pub open spec fn shares_total(amount: int, s: Seq<RecipientShare>) -> int
    decreases s.len(),
{
    if s.len() == 0 {
        0
    } else {
        shares_total(amount, s.drop_last()) + share_of(amount, s.last().bps as int)
    }
}

/// Rounding down loses less than one unit per recipient.
proof fn lemma_shares_total_scaled(amount: int, s: Seq<RecipientShare>)
    requires
        amount >= 0,
    ensures
        amount * bps_sum(s) - 9999 * s.len() <= 10000 * shares_total(amount, s) <= amount
            * bps_sum(s),
    decreases s.len(),
{
    if s.len() > 0 {
        let rest = s.drop_last();
        let b = s.last().bps as int;
        lemma_shares_total_scaled(amount, rest);
        lemma_fundamental_div_mod(amount * b, 10000);
        assert(amount * bps_sum(s) == amount * bps_sum(rest) + amount * b) by (nonlinear_arith)
            requires
                bps_sum(s) == bps_sum(rest) + b,
        ;
    }
}

/// The parts that a balanced stream pays out never add up to more than the
/// amount, and fall short of it by at most one unit less than the number of
/// recipients.
pub proof fn lemma_shares_within_amount(amount: int, recipients: Seq<RecipientShare>)
    requires
        amount > 0,
        bps_sum(recipients) == FULL_BPS as int,
    ensures
        shares_total(amount, recipients) <= amount,
        recipients.len() > 0 ==> amount - shares_total(amount, recipients) <= recipients.len()
            - 1,
{
    lemma_shares_total_scaled(amount, recipients);
}

/// `bps / 10000` of a positive `amount`, rounded down, without overflow.
fn compute_share(amount: i128, bps: u32) -> (r: i128)
    requires
        amount > 0,
        bps <= FULL_BPS,
    ensures
        r == share_of(amount as int, bps as int),
{
    proof {
        lemma_share_split(amount as int, bps as int);
    }
    let whole = (amount / 10000) * (bps as i128);
    let part = (amount % 10000) * (bps as i128) / 10000;
    whole + part
}

/// The royalty registry: streams and their recipient lists.
pub struct RoyaltyRegistry {
    streams: HashMap<u64, RoyaltyStream>,
    recipients: HashMap<u64, Vec<RecipientShare>>,
}

impl View for RoyaltyRegistry {
    type V = RegistryModel;

    closed spec fn view(&self) -> RegistryModel {
        (self.streams@, self.recipients@)
    }
}

impl RoyaltyRegistry {
    /// A registry with no stream.
    pub fn new() -> (r: RoyaltyRegistry)
        ensures
            r@.0 == Map::<u64, RoyaltyStream>::empty(),
            r@.1 == Map::<u64, Vec<RecipientShare>>::empty(),
            registry_wf(r@),
    {
        RoyaltyRegistry { streams: HashMap::new(), recipients: HashMap::new() }
    }

    /// The sum of the shares' basis points, or `None` where it overflows `u32`.
    fn checked_total(recipients: &Vec<RecipientShare>) -> (r: Option<u32>)
        ensures
            match r {
                Some(t) => t == bps_sum(recipients@),
                None => bps_sum(recipients@) > u32::MAX,
            },
    {
        let mut total: u32 = 0;
        let mut i: usize = 0;
        while i < recipients.len()
            invariant
                0 <= i <= recipients@.len(),
                total == bps_sum(recipients@.subrange(0, i as int)),
            decreases recipients@.len() - i,
        {
            proof {
                assert(recipients@.subrange(0, i + 1).drop_last() =~= recipients@.subrange(
                    0,
                    i as int,
                ));
            }
            match total.checked_add(recipients[i].bps) {
                Some(t) => total = t,
                None => {
                    proof {
                        lemma_prefix_sum_grows(recipients@, i + 1, recipients@.len() as int);
                        assert(recipients@.subrange(0, recipients@.len() as int) =~= recipients@);
                    }
                    return None;
                },
            }
            i = i + 1;
        }
        assert(recipients@.subrange(0, i as int) =~= recipients@);
        Some(total)
    }

    /// Registers a stream whose recipients' shares must make up exactly the
    /// whole; the stream starts out active.
    pub fn create_stream(
        &mut self,
        stream_id: u64,
        owner: Identity,
        recipients: Vec<RecipientShare>,
    ) -> (r: Result<(), LedgerError>)
        requires
            registry_wf(old(self)@),
        ensures
            (final(self)@, r) == after_create_stream(old(self)@, stream_id, owner, recipients),
            registry_wf(final(self)@),
    {
        if self.streams.contains_key(&stream_id) {
            return Err(LedgerError::DuplicateId);
        }
        let total = match Self::checked_total(&recipients) {
            Some(t) => t,
            None => return Err(LedgerError::ArithmeticOverflow),
        };
        if total != FULL_BPS {
            return Err(LedgerError::InvalidArgument);
        }
        let stream = RoyaltyStream { stream_id, owner, total_bps: total, active: true };
        self.streams.insert(stream_id, stream);
        self.recipients.insert(stream_id, recipients);
        Ok(())
    }

    /// The owner switches the stream on or off.
    pub fn toggle_stream(&mut self, stream_id: u64, caller: &Identity, active: bool) -> (r: Result<
        (),
        LedgerError,
    >)
        requires
            registry_wf(old(self)@),
        ensures
            (final(self)@, r) == after_toggle(old(self)@, stream_id, caller@, active),
            registry_wf(final(self)@),
    {
        match self.streams.get(&stream_id) {
            None => return Err(LedgerError::NotFound),
            Some(s) => {
                if !caller.same_as(&s.owner) {
                    return Err(LedgerError::Unauthorized);
                }
            },
        }
        if let Some(mut s) = self.streams.remove(&stream_id) {
            s.active = active;
            self.streams.insert(stream_id, s);
        }
        assert(self.streams@ =~= old(self)@.0.insert(
            stream_id,
            with_active(old(self)@.0[stream_id], active),
        ));
        Ok(())
    }

    /// Each recipient's part of `amount`, in the recipients' order. Parts are
    /// rounded down, so they may add up to less than `amount`.
    pub fn calc_shares(&self, stream_id: u64, amount: i128) -> (r: Result<
        Vec<(Identity, i128)>,
        LedgerError,
    >)
        requires
            registry_wf(self@),
        ensures
            amount <= 0 ==> r == Err::<Vec<(Identity, i128)>, LedgerError>(
                LedgerError::InvalidArgument,
            ),
            amount > 0 && !(self@.0.contains_key(stream_id) && self@.1.contains_key(stream_id))
                ==> r == Err::<Vec<(Identity, i128)>, LedgerError>(LedgerError::NotFound),
            amount > 0 && self@.0.contains_key(stream_id) && self@.1.contains_key(stream_id)
                && !self@.0[stream_id].active ==> r == Err::<Vec<(Identity, i128)>, LedgerError>(
                LedgerError::InactiveResource,
            ),
            amount > 0 && self@.0.contains_key(stream_id) && self@.1.contains_key(stream_id)
                && self@.0[stream_id].active ==> r is Ok && shares_match(
                r->Ok_0@,
                self@.1[stream_id]@,
                amount as int,
            ),
    {
        if amount <= 0 {
            return Err(LedgerError::InvalidArgument);
        }
        let stream = match self.streams.get(&stream_id) {
            None => return Err(LedgerError::NotFound),
            Some(s) => s,
        };
        let list = match self.recipients.get(&stream_id) {
            None => return Err(LedgerError::NotFound),
            Some(l) => l,
        };
        if !stream.active {
            return Err(LedgerError::InactiveResource);
        }
        assert(self@.0.contains_key(stream_id));
        assert(bps_sum(list@) == FULL_BPS as int);
        let mut out: Vec<(Identity, i128)> = Vec::new();
        let mut i: usize = 0;
        while i < list.len()
            invariant
                0 <= i <= list@.len(),
                amount > 0,
                bps_sum(list@) == FULL_BPS as int,
                out@.len() == i,
                forall|j: int|
                    0 <= j < i ==> (#[trigger] out@[j]).0@ == list@[j].recipient@ && out@[j].1
                        == share_of(amount as int, list@[j].bps as int),
            decreases list@.len() - i,
        {
            proof {
                lemma_share_within_sum(list@, i as int);
            }
            let entry = &list[i];
            let share = compute_share(amount, entry.bps);
            out.push((entry.recipient.duplicate(), share));
            i = i + 1;
        }
        Ok(out)
    }

    /// The stream stored under `stream_id`, if any.
    pub fn get_stream(&self, stream_id: u64) -> (r: Option<&RoyaltyStream>)
        ensures
            match r {
                Some(s) => self@.0.contains_key(stream_id) && *s == self@.0[stream_id],
                None => !self@.0.contains_key(stream_id),
            },
    {
        self.streams.get(&stream_id)
    }

    /// The recipient list of the stream under `stream_id`, if any.
    pub fn get_recipients(&self, stream_id: u64) -> (r: Option<&Vec<RecipientShare>>)
        ensures
            match r {
                Some(l) => self@.1.contains_key(stream_id) && *l == self@.1[stream_id],
                None => !self@.1.contains_key(stream_id),
            },
    {
        self.recipients.get(&stream_id)
    }
}

} // verus!
