use vstd::prelude::*;
use crate::asset::{record_view, InsuranceAsset, InsuranceAssetData, InsuranceAssetDataView, InsuranceAssetView};
use crate::error::WellswapError;
use crate::event::{
    InsuranceAssetListedForSale, InsuranceAssetPurchased, InsuranceAssetRegistered,
    InsuranceAssetRegisteredView, InsuranceAssetSaleCancelled,
};
use crate::identity::Identity;
use crate::transfer::{TransferInstruction, TransferReply};

verus! {

/// What the registry looks at when an asset is registered.
#[derive(Clone, Debug, PartialEq, Eq)]
pub struct RegisterInsuranceAsset {
    /// The key of the slot that the new record is to fill.
    pub asset_id: Identity,
    /// What that slot holds now.
    pub insurance_asset: Option<InsuranceAsset>,
    /// Who registers, and pays the fee.
    pub user: Identity,
    /// Who collects registration fees.
    pub platform: Identity,
}

/// What a registration asks of the ledger, or why it asks nothing.
///
/// An occupied slot refuses the registration before any payment. An empty one
/// has the user pay the fee to the platform.
pub open spec fn registration_request(
    slot: Option<InsuranceAssetView>,
    user: Identity,
    platform: Identity,
    registration_fee: u64,
) -> Result<TransferInstruction, WellswapError> {
    if slot is Some {
        Err(WellswapError::RecordAlreadyExists)
    } else {
        Ok(TransferInstruction::payment(user, platform, registration_fee))
    }
}

/// The asset that a registration creates once the ledger has answered, or the
/// failure that it ends in.
pub open spec fn registration_outcome(
    slot: Option<InsuranceAssetView>,
    user: Identity,
    platform: Identity,
    policy: InsuranceAssetDataView,
    registration_fee: u64,
    now: i64,
    reply: TransferReply,
) -> Result<InsuranceAssetView, WellswapError> {
    match registration_request(slot, user, platform, registration_fee) {
        Err(failure) => Err(failure),
        Ok(_) => match reply {
            Err(refusal) => Err(WellswapError::of_transfer(refusal)),
            Ok(_) => Ok(InsuranceAssetView::registered(user, policy, registration_fee, now)),
        },
    }
}

impl RegisterInsuranceAsset {
    /// What this registration asks of the ledger.
    pub open spec fn request(self, registration_fee: u64) -> Result<
        TransferInstruction,
        WellswapError,
    > {
        registration_request(
            record_view(self.insurance_asset),
            self.user,
            self.platform,
            registration_fee,
        )
    }

    /// Whether `after` and `result` are what this registration leaves once the
    /// ledger has answered `reply`.
    ///
    /// On success the slot holds the new asset and the notice names it. On any
    /// failure nothing has changed.
    pub open spec fn settles(
        self,
        policy: InsuranceAssetDataView,
        registration_fee: u64,
        now: i64,
        reply: TransferReply,
        after: RegisterInsuranceAsset,
        result: Result<InsuranceAssetRegistered, WellswapError>,
    ) -> bool {
        match registration_outcome(
            record_view(self.insurance_asset),
            self.user,
            self.platform,
            policy,
            registration_fee,
            now,
            reply,
        ) {
            Ok(asset) => {
                &&& after.asset_id == self.asset_id
                &&& after.user == self.user
                &&& after.platform == self.platform
                &&& record_view(after.insurance_asset) == Some(asset)
                &&& result matches Ok(notice)
                &&& notice@ == InsuranceAssetRegisteredView {
                    asset: self.asset_id,
                    owner: self.user,
                    insurance_company: policy.insurance_company,
                    registration_fee,
                }
            },
            Err(failure) => after == self && result == Err::<InsuranceAssetRegistered, _>(failure),
        }
    }
}

/// Decides whether a registration may go ahead, and names the fee payment
/// that the ledger is to make for it.
pub fn registration_transfer(ctx: &RegisterInsuranceAsset, registration_fee: u64) -> (request:
    Result<TransferInstruction, WellswapError>)
    ensures
        request == ctx.request(registration_fee),
{
    if ctx.insurance_asset.is_some() {
        Err(WellswapError::RecordAlreadyExists)
    } else {
        Ok(
            TransferInstruction {
                from: ctx.user,
                to: ctx.platform,
                authority: ctx.user,
                amount: registration_fee,
            },
        )
    }
}

/// Finishes a registration with the ledger's answer to the fee payment.
///
/// The asset is created only if the payment went through. A refused payment,
/// or a slot that was occupied all along, leaves everything as it was.
pub fn complete_registration(
    ctx: &mut RegisterInsuranceAsset,
    asset_data: InsuranceAssetData,
    registration_fee: u64,
    now: i64,
    reply: TransferReply,
) -> (result: Result<InsuranceAssetRegistered, WellswapError>)
    ensures
        old(ctx).settles(asset_data@, registration_fee, now, reply, *final(ctx), result),
{
    if ctx.insurance_asset.is_some() {
        return Err(WellswapError::RecordAlreadyExists);
    }
    match reply {
        Err(refusal) => Err(WellswapError::from_transfer(refusal)),
        Ok(_) => {
            let notice = InsuranceAssetRegistered {
                asset: ctx.asset_id,
                owner: ctx.user,
                insurance_company: asset_data.insurance_company.clone(),
                registration_fee,
            };
            ctx.insurance_asset = Some(
                InsuranceAsset {
                    owner: ctx.user,
                    insurance_company: asset_data.insurance_company,
                    product_category: asset_data.product_category,
                    product_name: asset_data.product_name,
                    contract_date: asset_data.contract_date,
                    contract_period: asset_data.contract_period,
                    paid_period: asset_data.paid_period,
                    annual_premium: asset_data.annual_premium,
                    total_paid: asset_data.total_paid,
                    is_for_sale: true,
                    registration_fee,
                    sale_price: None,
                    created_at: now,
                },
            );
            Ok(notice)
        },
    }
}

/// Registers a policy as a tradeable asset against a flat fee.
///
/// An occupied slot fails with `RecordAlreadyExists` and the ledger is not
/// asked for anything. Otherwise `transfer` is called once, with the payment
/// of `registration_fee` from the user to the platform. If it reports
/// success, the slot is filled with the new asset: owned by the user, open to
/// purchase, without an asking price, created at `now`. If it reports a
/// refusal, that refusal is the failure and no record is created.
pub fn register_insurance_asset<F: FnOnce(TransferInstruction) -> TransferReply>(
    ctx: &mut RegisterInsuranceAsset,
    asset_data: InsuranceAssetData,
    registration_fee: u64,
    now: i64,
    transfer: F,
) -> (result: Result<InsuranceAssetRegistered, WellswapError>)
    requires
        old(ctx).request(registration_fee) matches Ok(instruction) ==> call_requires(
            transfer,
            (instruction,),
        ),
    ensures
        old(ctx).request(registration_fee) matches Err(failure) ==> {
            &&& result == Err::<InsuranceAssetRegistered, _>(failure)
            &&& *final(ctx) == *old(ctx)
        },
        old(ctx).request(registration_fee) matches Ok(instruction) ==> exists|reply: TransferReply|
            {
                &&& #[trigger] call_ensures(transfer, (instruction,), reply)
                &&& old(ctx).settles(
                    asset_data@,
                    registration_fee,
                    now,
                    reply,
                    *final(ctx),
                    result,
                )
            },
{
    match registration_transfer(ctx, registration_fee) {
        Err(failure) => Err(failure),
        Ok(instruction) => {
            let reply = transfer(instruction);
            complete_registration(ctx, asset_data, registration_fee, now, reply)
        },
    }
}

/// What the registry looks at when an asset is bought.
#[derive(Clone, Debug, PartialEq, Eq)]
pub struct PurchaseInsuranceAsset {
    /// The key of the slot that holds the asset.
    pub asset_id: Identity,
    /// What that slot holds now.
    pub insurance_asset: Option<InsuranceAsset>,
    /// Who buys, and pays the price.
    pub buyer: Identity,
}

/// What a purchase asks of the ledger, or why it asks nothing.
///
/// The asset must exist, be listed, and be offered the price its owner asks,
/// if the owner named one. Then the buyer pays the price to whoever owns the
/// asset now.
pub open spec fn purchase_request(
    slot: Option<InsuranceAssetView>,
    buyer: Identity,
    purchase_price: u64,
) -> Result<TransferInstruction, WellswapError> {
    match slot {
        None => Err(WellswapError::RecordNotFound),
        Some(asset) => if !asset.is_for_sale {
            Err(WellswapError::AssetNotForSale)
        } else if !asset.accepts_price(purchase_price) {
            Err(WellswapError::PriceMismatch)
        } else {
            Ok(TransferInstruction::payment(buyer, asset.owner, purchase_price))
        },
    }
}

/// The asset as a purchase leaves it once the ledger has answered, or the
/// failure that the purchase ends in.
pub open spec fn purchase_outcome(
    slot: Option<InsuranceAssetView>,
    buyer: Identity,
    purchase_price: u64,
    reply: TransferReply,
) -> Result<InsuranceAssetView, WellswapError> {
    match purchase_request(slot, buyer, purchase_price) {
        Err(failure) => Err(failure),
        Ok(_) => match reply {
            Err(refusal) => Err(WellswapError::of_transfer(refusal)),
            Ok(_) => Ok(slot->0.sold_to(buyer)),
        },
    }
}

impl PurchaseInsuranceAsset {
    /// What this purchase asks of the ledger.
    pub open spec fn request(self, purchase_price: u64) -> Result<
        TransferInstruction,
        WellswapError,
    > {
        purchase_request(record_view(self.insurance_asset), self.buyer, purchase_price)
    }

    /// Whether `after` and `result` are what this purchase leaves once the
    /// ledger has answered `reply`.
    ///
    /// On success the asset belongs to the buyer and is off the market, and
    /// the notice names both owners and the price. On any failure nothing has
    /// changed.
    pub open spec fn settles(
        self,
        purchase_price: u64,
        reply: TransferReply,
        after: PurchaseInsuranceAsset,
        result: Result<InsuranceAssetPurchased, WellswapError>,
    ) -> bool {
        match purchase_outcome(
            record_view(self.insurance_asset),
            self.buyer,
            purchase_price,
            reply,
        ) {
            Ok(asset) => {
                &&& after.asset_id == self.asset_id
                &&& after.buyer == self.buyer
                &&& record_view(after.insurance_asset) == Some(asset)
                &&& result == Ok::<_, WellswapError>(
                    InsuranceAssetPurchased {
                        asset: self.asset_id,
                        previous_owner: self.insurance_asset->0.owner,
                        new_owner: self.buyer,
                        purchase_price,
                    },
                )
            },
            Err(failure) => after == self && result == Err::<InsuranceAssetPurchased, _>(failure),
        }
    }
}

/// Decides whether a purchase may go ahead, and names the payment that the
/// ledger is to make for it.
pub fn purchase_transfer(ctx: &PurchaseInsuranceAsset, purchase_price: u64) -> (request: Result<
    TransferInstruction,
    WellswapError,
>)
    ensures
        request == ctx.request(purchase_price),
{
    match &ctx.insurance_asset {
        None => Err(WellswapError::RecordNotFound),
        Some(asset) => {
            if !asset.is_for_sale {
                return Err(WellswapError::AssetNotForSale);
            }
            if let Some(asked) = asset.sale_price {
                if asked != purchase_price {
                    return Err(WellswapError::PriceMismatch);
                }
            }
            Ok(
                TransferInstruction {
                    from: ctx.buyer,
                    to: asset.owner,
                    authority: ctx.buyer,
                    amount: purchase_price,
                },
            )
        },
    }
}

/// Finishes a purchase with the ledger's answer to the payment.
///
/// Ownership moves only if the payment went through. A refused payment, or a
/// purchase that was never admitted, leaves the asset listed as it was, with
/// the same owner.
pub fn complete_purchase(
    ctx: &mut PurchaseInsuranceAsset,
    purchase_price: u64,
    reply: TransferReply,
) -> (result: Result<InsuranceAssetPurchased, WellswapError>)
    ensures
        old(ctx).settles(purchase_price, reply, *final(ctx), result),
{
    if let Err(failure) = purchase_transfer(ctx, purchase_price) {
        return Err(failure);
    }
    if let Err(refusal) = reply {
        return Err(WellswapError::from_transfer(refusal));
    }
    let mut asset = ctx.insurance_asset.take().unwrap();
    let previous_owner = asset.owner;
    asset.owner = ctx.buyer;
    asset.is_for_sale = false;
    asset.sale_price = None;
    ctx.insurance_asset = Some(asset);
    Ok(
        InsuranceAssetPurchased {
            asset: ctx.asset_id,
            previous_owner,
            new_owner: ctx.buyer,
            purchase_price,
        },
    )
}

/// Sells a listed asset to the buyer against payment, as one step.
///
/// A missing record fails with `RecordNotFound`, an unlisted asset with
/// `AssetNotForSale`, a price other than the one asked with `PriceMismatch`;
/// in each case the ledger is not asked for anything. Otherwise `transfer` is
/// called once, with the payment of `purchase_price` from the buyer to the
/// owner of the moment. Only if it reports success does the asset pass to the
/// buyer and leave the market. If it reports a refusal, that refusal is the
/// failure and the asset stays listed with its owner.
pub fn purchase_insurance_asset<F: FnOnce(TransferInstruction) -> TransferReply>(
    ctx: &mut PurchaseInsuranceAsset,
    purchase_price: u64,
    transfer: F,
) -> (result: Result<InsuranceAssetPurchased, WellswapError>)
    requires
        old(ctx).request(purchase_price) matches Ok(instruction) ==> call_requires(
            transfer,
            (instruction,),
        ),
    ensures
        old(ctx).request(purchase_price) matches Err(failure) ==> {
            &&& result == Err::<InsuranceAssetPurchased, _>(failure)
            &&& *final(ctx) == *old(ctx)
        },
        old(ctx).request(purchase_price) matches Ok(instruction) ==> exists|reply: TransferReply|
            {
                &&& #[trigger] call_ensures(transfer, (instruction,), reply)
                &&& old(ctx).settles(purchase_price, reply, *final(ctx), result)
            },
{
    match purchase_transfer(ctx, purchase_price) {
        Err(failure) => Err(failure),
        Ok(instruction) => {
            let reply = transfer(instruction);
            complete_purchase(ctx, purchase_price, reply)
        },
    }
}

/// What the registry looks at when an owner lists an asset.
#[derive(Clone, Debug, PartialEq, Eq)]
pub struct ListInsuranceAssetForSale {
    /// The key of the slot that holds the asset.
    pub asset_id: Identity,
    /// What that slot holds now.
    pub insurance_asset: Option<InsuranceAsset>,
    /// Who asks for the listing.
    pub owner: Identity,
}

/// The asset as a listing by `caller` leaves it, or the failure that the
/// listing ends in.
pub open spec fn listing_outcome(
    slot: Option<InsuranceAssetView>,
    caller: Identity,
    sale_price: u64,
) -> Result<InsuranceAssetView, WellswapError> {
    match slot {
        None => Err(WellswapError::RecordNotFound),
        Some(asset) => if asset.owner != caller {
            Err(WellswapError::NotOwner)
        } else {
            Ok(asset.listed(sale_price))
        },
    }
}

/// Lists an asset at `sale_price`.
///
/// A missing record fails with `RecordNotFound`, a caller who is not the
/// recorded owner with `NotOwner`; both leave everything as it was. Otherwise
/// the asset is for sale at that price, whatever its state was before.
pub fn list_insurance_asset_for_sale(ctx: &mut ListInsuranceAssetForSale, sale_price: u64) -> (result:
    Result<InsuranceAssetListedForSale, WellswapError>)
    ensures
        listing_outcome(record_view(old(ctx).insurance_asset), old(ctx).owner, sale_price)
            matches Err(failure) ==> {
            &&& result == Err::<InsuranceAssetListedForSale, _>(failure)
            &&& *final(ctx) == *old(ctx)
        },
        listing_outcome(record_view(old(ctx).insurance_asset), old(ctx).owner, sale_price)
            matches Ok(asset) ==> {
            &&& final(ctx).asset_id == old(ctx).asset_id
            &&& final(ctx).owner == old(ctx).owner
            &&& record_view(final(ctx).insurance_asset) == Some(asset)
            &&& result == Ok::<_, WellswapError>(
                InsuranceAssetListedForSale {
                    asset: old(ctx).asset_id,
                    owner: old(ctx).owner,
                    sale_price,
                },
            )
        },
{
    match ctx.insurance_asset.take() {
        None => Err(WellswapError::RecordNotFound),
        Some(mut asset) => {
            if asset.owner != ctx.owner {
                ctx.insurance_asset = Some(asset);
                return Err(WellswapError::NotOwner);
            }
            asset.is_for_sale = true;
            asset.sale_price = Some(sale_price);
            ctx.insurance_asset = Some(asset);
            Ok(InsuranceAssetListedForSale { asset: ctx.asset_id, owner: ctx.owner, sale_price })
        },
    }
}

/// What the registry looks at when an owner withdraws a listing.
#[derive(Clone, Debug, PartialEq, Eq)]
pub struct CancelInsuranceAssetSale {
    /// The key of the slot that holds the asset.
    pub asset_id: Identity,
    /// What that slot holds now.
    pub insurance_asset: Option<InsuranceAsset>,
    /// Who asks for the withdrawal.
    pub owner: Identity,
}

/// The asset as a withdrawal by `caller` leaves it, or the failure that the
/// withdrawal ends in.
pub open spec fn cancellation_outcome(
    slot: Option<InsuranceAssetView>,
    caller: Identity,
) -> Result<InsuranceAssetView, WellswapError> {
    match slot {
        None => Err(WellswapError::RecordNotFound),
        Some(asset) => if asset.owner != caller {
            Err(WellswapError::NotOwner)
        } else {
            Ok(asset.unlisted())
        },
    }
}

/// Takes an asset off the market.
///
/// A missing record fails with `RecordNotFound`, a caller who is not the
/// recorded owner with `NotOwner`; both leave everything as it was. Otherwise
/// the asset is not for sale and has no asking price, whatever its state was
/// before.
pub fn cancel_insurance_asset_sale(ctx: &mut CancelInsuranceAssetSale) -> (result: Result<
    InsuranceAssetSaleCancelled,
    WellswapError,
>)
    ensures
        cancellation_outcome(record_view(old(ctx).insurance_asset), old(ctx).owner)
            matches Err(failure) ==> {
            &&& result == Err::<InsuranceAssetSaleCancelled, _>(failure)
            &&& *final(ctx) == *old(ctx)
        },
        cancellation_outcome(record_view(old(ctx).insurance_asset), old(ctx).owner)
            matches Ok(asset) ==> {
            &&& final(ctx).asset_id == old(ctx).asset_id
            &&& final(ctx).owner == old(ctx).owner
            &&& record_view(final(ctx).insurance_asset) == Some(asset)
            &&& result == Ok::<_, WellswapError>(
                InsuranceAssetSaleCancelled { asset: old(ctx).asset_id, owner: old(ctx).owner },
            )
        },
{
    match ctx.insurance_asset.take() {
        None => Err(WellswapError::RecordNotFound),
        Some(mut asset) => {
            if asset.owner != ctx.owner {
                ctx.insurance_asset = Some(asset);
                return Err(WellswapError::NotOwner);
            }
            asset.is_for_sale = false;
            asset.sale_price = None;
            ctx.insurance_asset = Some(asset);
            Ok(InsuranceAssetSaleCancelled { asset: ctx.asset_id, owner: ctx.owner })
        },
    }
}

} // verus!
