use vstd::prelude::*;
use crate::asset::record_view;
use crate::error::WellswapError;
use crate::event::{MultisigTradeApproved, MultisigTradeCreated};
use crate::identity::Identity;
use crate::trade::{MultisigTrade, MultisigTradeView, TradeStatus, APPROVAL_THRESHOLD};

verus! {

/// What the coordinator looks at when a trade proposal is opened.
#[derive(Clone, Debug, PartialEq, Eq)]
pub struct CreateMultisigTrade {
    /// The key of the slot that the new proposal is to fill.
    pub trade_id: Identity,
    /// What that slot holds now.
    pub multisig_trade: Option<MultisigTrade>,
    /// Who opens the proposal.
    pub initiator: Identity,
}

/// The proposal that a creation opens, or the failure that it ends in.
pub open spec fn creation_outcome(
    slot: Option<MultisigTradeView>,
    initiator: Identity,
    asset_id: u64,
    trade_amount: u64,
    now: i64,
) -> Result<MultisigTradeView, WellswapError> {
    if slot is Some {
        Err(WellswapError::RecordAlreadyExists)
    } else {
        Ok(MultisigTradeView::opened(asset_id, initiator, trade_amount, now))
    }
}

/// Opens a trade proposal about the asset numbered `asset_id`.
///
/// An occupied slot fails with `RecordAlreadyExists` and stays as it was.
/// Otherwise the slot is filled with a pending proposal that nobody has
/// approved, created at `now`. The asset number is taken as given: whether
/// such an asset exists is not looked into.
pub fn create_multisig_trade(
    ctx: &mut CreateMultisigTrade,
    asset_id: u64,
    trade_amount: u64,
    now: i64,
) -> (result: Result<MultisigTradeCreated, WellswapError>)
    ensures
        creation_outcome(
            record_view(old(ctx).multisig_trade),
            old(ctx).initiator,
            asset_id,
            trade_amount,
            now,
        ) matches Err(failure) ==> {
            &&& result == Err::<MultisigTradeCreated, _>(failure)
            &&& *final(ctx) == *old(ctx)
        },
        creation_outcome(
            record_view(old(ctx).multisig_trade),
            old(ctx).initiator,
            asset_id,
            trade_amount,
            now,
        ) matches Ok(trade) ==> {
            &&& final(ctx).trade_id == old(ctx).trade_id
            &&& final(ctx).initiator == old(ctx).initiator
            &&& record_view(final(ctx).multisig_trade) == Some(trade)
            &&& result == Ok::<_, WellswapError>(
                MultisigTradeCreated {
                    trade: old(ctx).trade_id,
                    asset_id,
                    initiator: old(ctx).initiator,
                    trade_amount,
                },
            )
        },
{
    if ctx.multisig_trade.is_some() {
        return Err(WellswapError::RecordAlreadyExists);
    }
    ctx.multisig_trade = Some(
        MultisigTrade {
            asset_id,
            initiator: ctx.initiator,
            trade_amount,
            status: TradeStatus::Pending,
            approvers: Vec::new(),
            created_at: now,
        },
    );
    Ok(
        MultisigTradeCreated {
            trade: ctx.trade_id,
            asset_id,
            initiator: ctx.initiator,
            trade_amount,
        },
    )
}

/// What the coordinator looks at when a trade proposal is approved.
#[derive(Clone, Debug, PartialEq, Eq)]
pub struct ApproveMultisigTrade {
    /// The key of the slot that holds the proposal.
    pub trade_id: Identity,
    /// What that slot holds now.
    pub multisig_trade: Option<MultisigTrade>,
    /// Who approves.
    pub approver: Identity,
}

/// The proposal as an approval by `approver` leaves it, or the failure that
/// the approval ends in.
pub open spec fn approval_outcome(
    slot: Option<MultisigTradeView>,
    approver: Identity,
) -> Result<MultisigTradeView, WellswapError> {
    match slot {
        None => Err(WellswapError::RecordNotFound),
        Some(trade) => Ok(trade.approved_by(approver)),
    }
}

/// Records an approval of a trade proposal.
///
/// A missing record fails with `RecordNotFound`. Otherwise the approver is
/// added at the end of the approvers unless already among them, and a pending
/// proposal whose approvers have reached the threshold becomes approved. The
/// notice carries the count and the status that the approval left.
pub fn approve_multisig_trade(ctx: &mut ApproveMultisigTrade) -> (result: Result<
    MultisigTradeApproved,
    WellswapError,
>)
    ensures
        approval_outcome(record_view(old(ctx).multisig_trade), old(ctx).approver)
            matches Err(failure) ==> {
            &&& result == Err::<MultisigTradeApproved, _>(failure)
            &&& *final(ctx) == *old(ctx)
        },
        approval_outcome(record_view(old(ctx).multisig_trade), old(ctx).approver)
            matches Ok(trade) ==> {
            &&& final(ctx).trade_id == old(ctx).trade_id
            &&& final(ctx).approver == old(ctx).approver
            &&& record_view(final(ctx).multisig_trade) == Some(trade)
            &&& result matches Ok(notice)
            &&& notice.trade == old(ctx).trade_id
            &&& notice.approver == old(ctx).approver
            &&& notice.approvers_count == trade.approvers.len()
            &&& notice.status == trade.status
        },
{
    match ctx.multisig_trade.take() {
        None => Err(WellswapError::RecordNotFound),
        Some(mut trade) => {
            if !trade.has_approved(&ctx.approver) {
                trade.approvers.push(ctx.approver);
            }
            if trade.status == TradeStatus::Pending && trade.approvers.len()
                >= APPROVAL_THRESHOLD {
                trade.status = TradeStatus::Approved;
            }
            let notice = MultisigTradeApproved {
                trade: ctx.trade_id,
                approver: ctx.approver,
                approvers_count: trade.approvers.len(),
                status: trade.status,
            };
            ctx.multisig_trade = Some(trade);
            Ok(notice)
        },
    }
}

} // verus!
