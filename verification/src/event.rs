use vstd::prelude::*;
use crate::identity::Identity;
use crate::trade::TradeStatus;

verus! {

/// Notice that an asset was registered.
#[derive(Clone, Debug, PartialEq, Eq)]
pub struct InsuranceAssetRegistered {
    pub asset: Identity,
    pub owner: Identity,
    pub insurance_company: String,
    pub registration_fee: u64,
}

/// What a registration notice says, with its text as a sequence of characters.
pub struct InsuranceAssetRegisteredView {
    pub asset: Identity,
    pub owner: Identity,
    pub insurance_company: Seq<char>,
    pub registration_fee: u64,
}

impl View for InsuranceAssetRegistered {
    type V = InsuranceAssetRegisteredView;

    open spec fn view(&self) -> InsuranceAssetRegisteredView {
        InsuranceAssetRegisteredView {
            asset: self.asset,
            owner: self.owner,
            insurance_company: self.insurance_company@,
            registration_fee: self.registration_fee,
        }
    }
}

/// Notice that an asset changed hands against payment.
#[derive(Clone, Copy, Debug, PartialEq, Eq)]
pub struct InsuranceAssetPurchased {
    pub asset: Identity,
    pub previous_owner: Identity,
    pub new_owner: Identity,
    pub purchase_price: u64,
}

/// Notice that a trade proposal was opened.
#[derive(Clone, Copy, Debug, PartialEq, Eq)]
pub struct MultisigTradeCreated {
    pub trade: Identity,
    pub asset_id: u64,
    pub initiator: Identity,
    pub trade_amount: u64,
}

/// Notice that an approval was handled, with the count and status it left.
#[derive(Clone, Copy, Debug, PartialEq, Eq)]
pub struct MultisigTradeApproved {
    pub trade: Identity,
    pub approver: Identity,
    pub approvers_count: usize,
    pub status: TradeStatus,
}

/// Notice that an owner listed an asset.
#[derive(Clone, Copy, Debug, PartialEq, Eq)]
pub struct InsuranceAssetListedForSale {
    pub asset: Identity,
    pub owner: Identity,
    pub sale_price: u64,
}

/// Notice that an owner withdrew a listing.
#[derive(Clone, Copy, Debug, PartialEq, Eq)]
pub struct InsuranceAssetSaleCancelled {
    pub asset: Identity,
    pub owner: Identity,
}

} // verus!
