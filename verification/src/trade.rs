use vstd::prelude::*;
use crate::identity::Identity;

verus! {

/// How many distinct approvers make a trade approved.
pub const APPROVAL_THRESHOLD: usize = 2;

/// Where a trade proposal stands.
///
/// A proposal starts `Pending`. The coordinator moves it to `Approved` and
/// nowhere else. `Rejected` and `Completed` are final and are set by the
/// operator, outside the coordinator.
#[derive(Clone, Copy, Debug, PartialEq, Eq, Structural)]
pub enum TradeStatus {
    Pending,
    Approved,
    Rejected,
    Completed,
}

/// One trade proposal as it is stored.
#[derive(Clone, Debug, PartialEq, Eq)]
pub struct MultisigTrade {
    /// The asset the proposal is about: a reference by number, not a link.
    pub asset_id: u64,
    pub initiator: Identity,
    pub trade_amount: u64,
    pub status: TradeStatus,
    /// Who approved so far, in the order in which they did.
    pub approvers: Vec<Identity>,
    pub created_at: i64,
}

/// A trade proposal as a mathematical value.
pub struct MultisigTradeView {
    pub asset_id: u64,
    pub initiator: Identity,
    pub trade_amount: u64,
    pub status: TradeStatus,
    pub approvers: Seq<Identity>,
    pub created_at: i64,
}

impl View for MultisigTrade {
    type V = MultisigTradeView;

    open spec fn view(&self) -> MultisigTradeView {
        MultisigTradeView {
            asset_id: self.asset_id,
            initiator: self.initiator,
            trade_amount: self.trade_amount,
            status: self.status,
            approvers: self.approvers@,
            created_at: self.created_at,
        }
    }
}

impl MultisigTradeView {
    /// No approver is counted twice, and the status agrees with the count: a
    /// pending trade is short of the threshold, an approved one has reached it.
    pub open spec fn well_formed(self) -> bool {
        &&& self.approvers.no_duplicates()
        &&& (self.status == TradeStatus::Pending ==> self.approvers.len() < APPROVAL_THRESHOLD)
        &&& (self.status == TradeStatus::Approved ==> self.approvers.len() >= APPROVAL_THRESHOLD)
    }

    /// The proposal that a creation opens: pending, with nobody's approval.
    pub open spec fn opened(
        asset_id: u64,
        initiator: Identity,
        trade_amount: u64,
        now: i64,
    ) -> MultisigTradeView {
        MultisigTradeView {
            asset_id,
            initiator,
            trade_amount,
            status: TradeStatus::Pending,
            approvers: Seq::empty(),
            created_at: now,
        }
    }

    /// Who approved so far, as a set.
    pub open spec fn approver_set(self) -> Set<Identity> {
        self.approvers.to_set()
    }

    /// The approvers once `approver` has approved: as before if they already
    /// had, else with them added at the end.
    pub open spec fn approvers_with(self, approver: Identity) -> Seq<Identity> {
        if self.approvers.contains(approver) {
            self.approvers
        } else {
            self.approvers.push(approver)
        }
    }

    /// This proposal once `approver` has approved it.
    ///
    /// A pending proposal becomes approved when the approvers reach the
    /// threshold. No other status ever changes.
    pub open spec fn approved_by(self, approver: Identity) -> MultisigTradeView {
        let approvers = self.approvers_with(approver);
        MultisigTradeView {
            approvers,
            status: if self.status == TradeStatus::Pending && approvers.len()
                >= APPROVAL_THRESHOLD {
                TradeStatus::Approved
            } else {
                self.status
            },
            ..self
        }
    }
}

impl MultisigTrade {
    /// Whether `who` is among the approvers.
    pub fn has_approved(&self, who: &Identity) -> (found: bool)
        ensures
            found == self@.approvers.contains(*who),
    {
        let mut i: usize = 0;
        while i < self.approvers.len()
            invariant
                i <= self.approvers.len(),
                forall|j: int| 0 <= j < i ==> self.approvers@[j] != *who,
            decreases self.approvers.len() - i,
        {
            if self.approvers[i] == *who {
                return true;
            }
            i += 1;
        }
        false
    }
}

} // verus!
