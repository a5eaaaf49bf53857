use vstd::prelude::*;
use crate::asset::{InsuranceAssetDataView, InsuranceAssetView};
use crate::coordinator::{approval_outcome, creation_outcome};
use crate::error::WellswapError;
use crate::event::{InsuranceAssetPurchased, InsuranceAssetRegistered};
use crate::identity::Identity;
use crate::registry::{
    cancellation_outcome, listing_outcome, purchase_outcome, purchase_request,
    PurchaseInsuranceAsset, RegisterInsuranceAsset,
};
use crate::trade::{MultisigTradeView, TradeStatus, APPROVAL_THRESHOLD};
use crate::transfer::{TransferInstruction, TransferReply};

verus! {

/// A registration that succeeds leaves an asset that belongs to the caller,
/// is open to purchase, has no asking price, and records as its fee exactly
/// the amount that the ledger was told to move, and did move, from the caller
/// to the platform.
pub proof fn registration_creates_callers_asset(
    before: RegisterInsuranceAsset,
    policy: InsuranceAssetDataView,
    registration_fee: u64,
    now: i64,
    reply: TransferReply,
    after: RegisterInsuranceAsset,
    result: Result<InsuranceAssetRegistered, WellswapError>,
)
    requires
        before.settles(policy, registration_fee, now, reply, after, result),
        result is Ok,
    ensures
        reply is Ok,
        before.insurance_asset is None,
        before.request(registration_fee) == Ok::<_, WellswapError>(
            TransferInstruction {
                from: before.user,
                to: before.platform,
                authority: before.user,
                amount: registration_fee,
            },
        ),
        after.insurance_asset is Some,
        after.insurance_asset->0@.owner == before.user,
        after.insurance_asset->0@.is_for_sale,
        after.insurance_asset->0@.sale_price is None,
        after.insurance_asset->0@.registration_fee == registration_fee,
        after.insurance_asset->0@.policy == policy,
        after.insurance_asset->0@.created_at == now,
{
}

/// Registration is all or nothing: whenever it fails, whether because the slot
/// was taken or because the ledger refused the fee, nothing has changed and no
/// record was created.
pub proof fn failed_registration_changes_nothing(
    before: RegisterInsuranceAsset,
    policy: InsuranceAssetDataView,
    registration_fee: u64,
    now: i64,
    reply: TransferReply,
    after: RegisterInsuranceAsset,
    result: Result<InsuranceAssetRegistered, WellswapError>,
)
    requires
        before.settles(policy, registration_fee, now, reply, after, result),
        reply is Err || before.insurance_asset is Some,
    ensures
        result is Err,
        after == before,
        before.insurance_asset is Some ==> result == Err::<InsuranceAssetRegistered, _>(
            WellswapError::RecordAlreadyExists,
        ),
        before.insurance_asset is None ==> result == Err::<InsuranceAssetRegistered, _>(
            WellswapError::of_transfer(reply->Err_0),
        ),
{
}

/// Listing an asset at any price and then withdrawing the listing leaves it
/// off the market with no asking price: exactly the asset as it was, unlisted.
pub proof fn listing_then_cancelling_unlists(
    asset: InsuranceAssetView,
    caller: Identity,
    sale_price: u64,
)
    requires
        asset.owner == caller,
    ensures
        listing_outcome(Some(asset), caller, sale_price) == Ok::<_, WellswapError>(
            asset.listed(sale_price),
        ),
        cancellation_outcome(Some(asset.listed(sale_price)), caller) == Ok::<_, WellswapError>(
            asset.unlisted(),
        ),
        !asset.unlisted().is_for_sale,
        asset.unlisted().sale_price is None,
{
}

/// Nobody but the recorded owner can list an asset or withdraw its listing.
pub proof fn only_the_owner_lists_and_cancels(
    asset: InsuranceAssetView,
    caller: Identity,
    sale_price: u64,
)
    ensures
        listing_outcome(Some(asset), caller, sale_price) is Ok <==> caller == asset.owner,
        cancellation_outcome(Some(asset), caller) is Ok <==> caller == asset.owner,
        caller != asset.owner ==> listing_outcome(Some(asset), caller, sale_price) == Err::<
            InsuranceAssetView,
            _,
        >(WellswapError::NotOwner),
        caller != asset.owner ==> cancellation_outcome(Some(asset), caller) == Err::<
            InsuranceAssetView,
            _,
        >(WellswapError::NotOwner),
{
}

/// A purchase of an asset that is not for sale fails with `AssetNotForSale`,
/// asks nothing of the ledger, and leaves the record exactly as it was,
/// whatever the price, the buyer, or anything the ledger might have said.
pub proof fn unlisted_asset_cannot_be_bought(
    before: PurchaseInsuranceAsset,
    purchase_price: u64,
    reply: TransferReply,
    after: PurchaseInsuranceAsset,
    result: Result<InsuranceAssetPurchased, WellswapError>,
)
    requires
        before.insurance_asset is Some,
        !before.insurance_asset->0@.is_for_sale,
        before.settles(purchase_price, reply, after, result),
    ensures
        before.request(purchase_price) == Err::<TransferInstruction, _>(
            WellswapError::AssetNotForSale,
        ),
        result == Err::<InsuranceAssetPurchased, _>(WellswapError::AssetNotForSale),
        after == before,
{
}

/// A purchase that succeeds leaves the asset with the buyer and off the
/// market, and the one payment that the ledger was told to make, and did
/// make, moved exactly the purchase price from the buyer to whoever owned the
/// asset before.
pub proof fn purchase_pays_the_previous_owner(
    before: PurchaseInsuranceAsset,
    purchase_price: u64,
    reply: TransferReply,
    after: PurchaseInsuranceAsset,
    result: Result<InsuranceAssetPurchased, WellswapError>,
)
    requires
        before.settles(purchase_price, reply, after, result),
        result is Ok,
    ensures
        reply is Ok,
        before.insurance_asset is Some,
        before.insurance_asset->0@.is_for_sale,
        before.insurance_asset->0@.accepts_price(purchase_price),
        before.request(purchase_price) == Ok::<_, WellswapError>(
            TransferInstruction {
                from: before.buyer,
                to: before.insurance_asset->0.owner,
                authority: before.buyer,
                amount: purchase_price,
            },
        ),
        after.insurance_asset is Some,
        after.insurance_asset->0@.owner == before.buyer,
        !after.insurance_asset->0@.is_for_sale,
        after.insurance_asset->0@.sale_price is None,
        result->Ok_0.previous_owner == before.insurance_asset->0.owner,
        result->Ok_0.new_owner == before.buyer,
        result->Ok_0.purchase_price == purchase_price,
{
}

/// Ownership never moves without payment: when the ledger refuses the
/// payment, the purchase fails with that refusal and the asset keeps its
/// owner and its listing.
pub proof fn refused_payment_leaves_asset_with_owner(
    before: PurchaseInsuranceAsset,
    purchase_price: u64,
    reply: TransferReply,
    after: PurchaseInsuranceAsset,
    result: Result<InsuranceAssetPurchased, WellswapError>,
)
    requires
        reply is Err,
        before.settles(purchase_price, reply, after, result),
    ensures
        result is Err,
        after == before,
        before.request(purchase_price) is Ok ==> result == Err::<InsuranceAssetPurchased, _>(
            WellswapError::of_transfer(reply->Err_0),
        ),
{
}

/// An asset that was just sold cannot be sold again until its new owner lists
/// it: a second purchase fails with `AssetNotForSale`, so no second payment
/// is ever asked for.
pub proof fn sold_asset_is_not_sold_twice(
    asset: InsuranceAssetView,
    buyer: Identity,
    purchase_price: u64,
    later_buyer: Identity,
    later_price: u64,
)
    requires
        purchase_outcome(Some(asset), buyer, purchase_price, Ok(())) is Ok,
    ensures
        purchase_request(
            Some(purchase_outcome(Some(asset), buyer, purchase_price, Ok(()))->Ok_0),
            later_buyer,
            later_price,
        ) == Err::<TransferInstruction, _>(WellswapError::AssetNotForSale),
{
}

/// No operation of the registry puts an asking price on an asset that is not
/// for sale: a new asset is well formed, and listing, withdrawing and selling
/// keep it so.
pub proof fn registry_keeps_assets_well_formed(
    asset: InsuranceAssetView,
    party: Identity,
    policy: InsuranceAssetDataView,
    amount: u64,
    now: i64,
)
    ensures
        InsuranceAssetView::registered(party, policy, amount, now).well_formed(),
        asset.listed(amount).well_formed(),
        asset.unlisted().well_formed(),
        asset.sold_to(party).well_formed(),
{
}

/// Once an asset exists, only its owner, its listing flag and its asking
/// price ever change. The policy's description, the fee paid and the time of
/// creation stay, and the owner changes by sale alone.
pub proof fn registry_changes_only_owner_and_listing(
    asset: InsuranceAssetView,
    party: Identity,
    amount: u64,
)
    ensures
        asset.listed(amount).policy == asset.policy,
        asset.listed(amount).registration_fee == asset.registration_fee,
        asset.listed(amount).created_at == asset.created_at,
        asset.listed(amount).owner == asset.owner,
        asset.unlisted().policy == asset.policy,
        asset.unlisted().registration_fee == asset.registration_fee,
        asset.unlisted().created_at == asset.created_at,
        asset.unlisted().owner == asset.owner,
        asset.sold_to(party).policy == asset.policy,
        asset.sold_to(party).registration_fee == asset.registration_fee,
        asset.sold_to(party).created_at == asset.created_at,
{
}

/// A proposal that was just opened is pending, has no approvers, and is well
/// formed.
pub proof fn opened_trade_is_pending_and_empty(
    initiator: Identity,
    asset_id: u64,
    trade_amount: u64,
    now: i64,
)
    ensures
        creation_outcome(None, initiator, asset_id, trade_amount, now) == Ok::<_, WellswapError>(
            MultisigTradeView::opened(asset_id, initiator, trade_amount, now),
        ),
        MultisigTradeView::opened(asset_id, initiator, trade_amount, now).status
            == TradeStatus::Pending,
        MultisigTradeView::opened(asset_id, initiator, trade_amount, now).approvers.len() == 0,
        MultisigTradeView::opened(asset_id, initiator, trade_amount, now).well_formed(),
{
}

/// Approving twice with the same identity is the same as approving once: the
/// second approval changes neither the approvers nor the status.
pub proof fn approval_is_idempotent(trade: MultisigTradeView, approver: Identity)
    ensures
        trade.approved_by(approver).approved_by(approver) == trade.approved_by(approver),
        trade.approved_by(approver).approved_by(approver).approver_set() == trade.approved_by(
            approver,
        ).approver_set(),
        approval_outcome(Some(trade.approved_by(approver)), approver) == approval_outcome(
            Some(trade),
            approver,
        ),
{
    let once = trade.approved_by(approver);
    assert(once.approvers.contains(approver)) by {
        if !trade.approvers.contains(approver) {
            assert(trade.approvers.push(approver)[trade.approvers.len() as int] == approver);
        }
    }
    assert(once.approvers_with(approver) == once.approvers);
}

/// Once a proposal is approved, no approval takes that status away.
pub proof fn approved_trade_stays_approved(trade: MultisigTradeView, approver: Identity)
    requires
        trade.status == TradeStatus::Approved,
    ensures
        trade.approved_by(approver).status == TradeStatus::Approved,
{
}

/// The only step that an approval ever makes in the status is from pending to
/// approved, and it makes it exactly when the approvers reach the threshold.
/// Rejected and completed proposals keep their status.
pub proof fn approval_moves_status_forward_only(trade: MultisigTradeView, approver: Identity)
    ensures
        trade.status != TradeStatus::Pending ==> trade.approved_by(approver).status
            == trade.status,
        trade.status == TradeStatus::Pending ==> (trade.approved_by(approver).status
            == TradeStatus::Approved <==> trade.approvers_with(approver).len()
            >= APPROVAL_THRESHOLD),
        trade.status == TradeStatus::Pending ==> (trade.approved_by(approver).status
            == TradeStatus::Pending <==> trade.approvers_with(approver).len()
            < APPROVAL_THRESHOLD),
{
}

/// An approval never removes an approver and never reorders them: the
/// approvers before are the first of the approvers after. As a set, the
/// approvers after are those before, and the one who approved.
pub proof fn approval_keeps_earlier_approvers(trade: MultisigTradeView, approver: Identity)
    ensures
        trade.approvers.is_prefix_of(trade.approved_by(approver).approvers),
        trade.approved_by(approver).approver_set() == trade.approver_set().insert(approver),
        trade.approved_by(approver).approvers.len() == if trade.approvers.contains(approver) {
            trade.approvers.len()
        } else {
            trade.approvers.len() + 1
        },
{
    let after = trade.approved_by(approver).approvers;
    if trade.approvers.contains(approver) {
        assert(trade.approvers.to_set() =~= trade.approvers.to_set().insert(approver));
    } else {
        assert forall|who: Identity|
            after.to_set().contains(who) <==> trade.approvers.to_set().insert(approver).contains(
                who,
            ) by {
            if after.contains(who) {
                let i = choose|i: int| 0 <= i < after.len() && after[i] == who;
                if i < trade.approvers.len() {
                    assert(trade.approvers[i] == who);
                }
            }
            if trade.approvers.contains(who) {
                let i = choose|i: int| 0 <= i < trade.approvers.len() && trade.approvers[i] == who;
                assert(after[i] == who);
            }
            if who == approver {
                assert(after[trade.approvers.len() as int] == who);
            }
        }
        assert(after.to_set() =~= trade.approvers.to_set().insert(approver));
    }
}

/// An approval keeps a well-formed proposal well formed: nobody is counted
/// twice, a pending proposal stays short of the threshold, and an approved
/// one has at least as many distinct approvers as the threshold asks for.
pub proof fn approval_keeps_trade_well_formed(trade: MultisigTradeView, approver: Identity)
    requires
        trade.well_formed(),
    ensures
        trade.approved_by(approver).well_formed(),
{
    let after = trade.approved_by(approver).approvers;
    if !trade.approvers.contains(approver) {
        assert forall|i: int, j: int| 0 <= i < after.len() && 0 <= j < after.len() && i != j
            implies after[i] != after[j] by {
            if i < trade.approvers.len() {
                assert(trade.approvers[i] == after[i]);
            }
            if j < trade.approvers.len() {
                assert(trade.approvers[j] == after[j]);
            }
        }
    }
}

/// On a well-formed proposal, an approval by someone who already approved is
/// no change at all.
pub proof fn repeated_approval_changes_nothing(trade: MultisigTradeView, approver: Identity)
    requires
        trade.well_formed(),
        trade.approvers.contains(approver),
    ensures
        trade.approved_by(approver) == trade,
{
}

} // verus!
