use vstd::prelude::*;
use crate::identity::Identity;

verus! {

/// What a caller tells the registry about a policy when registering it.
#[derive(Clone, Debug, PartialEq, Eq)]
pub struct InsuranceAssetData {
    pub insurance_company: String,
    pub product_category: String,
    pub product_name: String,
    /// When the underlying contract started.
    pub contract_date: i64,
    /// Length of the contract, in time units.
    pub contract_period: u32,
    /// How much of that length has been paid for, in time units.
    pub paid_period: u32,
    /// Yearly premium, in the smallest token unit.
    pub annual_premium: u64,
    /// Sum paid so far, in the smallest token unit.
    pub total_paid: u64,
}

/// The description of a policy as a mathematical value.
pub struct InsuranceAssetDataView {
    pub insurance_company: Seq<char>,
    pub product_category: Seq<char>,
    pub product_name: Seq<char>,
    pub contract_date: i64,
    pub contract_period: u32,
    pub paid_period: u32,
    pub annual_premium: u64,
    pub total_paid: u64,
}

impl View for InsuranceAssetData {
    type V = InsuranceAssetDataView;

    open spec fn view(&self) -> InsuranceAssetDataView {
        InsuranceAssetDataView {
            insurance_company: self.insurance_company@,
            product_category: self.product_category@,
            product_name: self.product_name@,
            contract_date: self.contract_date,
            contract_period: self.contract_period,
            paid_period: self.paid_period,
            annual_premium: self.annual_premium,
            total_paid: self.total_paid,
        }
    }
}

/// One registered policy as it is stored.
#[derive(Clone, Debug, PartialEq, Eq)]
pub struct InsuranceAsset {
    /// Who controls the asset now.
    pub owner: Identity,
    pub insurance_company: String,
    pub product_category: String,
    pub product_name: String,
    pub contract_date: i64,
    pub contract_period: u32,
    pub paid_period: u32,
    pub annual_premium: u64,
    pub total_paid: u64,
    /// Whether a purchase is admitted.
    pub is_for_sale: bool,
    /// The asking price, if the owner named one.
    pub sale_price: Option<u64>,
    /// What was paid to register the asset.
    pub registration_fee: u64,
    pub created_at: i64,
}

/// A registered policy as a mathematical value: the policy's description,
/// which never changes, and the few fields that do.
pub struct InsuranceAssetView {
    pub owner: Identity,
    pub policy: InsuranceAssetDataView,
    pub is_for_sale: bool,
    pub sale_price: Option<u64>,
    pub registration_fee: u64,
    pub created_at: i64,
}

impl View for InsuranceAsset {
    type V = InsuranceAssetView;

    open spec fn view(&self) -> InsuranceAssetView {
        InsuranceAssetView {
            owner: self.owner,
            policy: InsuranceAssetDataView {
                insurance_company: self.insurance_company@,
                product_category: self.product_category@,
                product_name: self.product_name@,
                contract_date: self.contract_date,
                contract_period: self.contract_period,
                paid_period: self.paid_period,
                annual_premium: self.annual_premium,
                total_paid: self.total_paid,
            },
            is_for_sale: self.is_for_sale,
            sale_price: self.sale_price,
            registration_fee: self.registration_fee,
            created_at: self.created_at,
        }
    }
}

impl InsuranceAssetView {
    /// An asking price is on record only while the asset is listed.
    pub open spec fn well_formed(self) -> bool {
        self.sale_price is Some ==> self.is_for_sale
    }

    /// The asset that a registration creates: owned by `owner`, open to
    /// purchase, with no asking price yet.
    pub open spec fn registered(
        owner: Identity,
        policy: InsuranceAssetDataView,
        registration_fee: u64,
        now: i64,
    ) -> InsuranceAssetView {
        InsuranceAssetView {
            owner,
            policy,
            is_for_sale: true,
            sale_price: None,
            registration_fee,
            created_at: now,
        }
    }

    /// This asset, listed at `sale_price`.
    pub open spec fn listed(self, sale_price: u64) -> InsuranceAssetView {
        InsuranceAssetView { is_for_sale: true, sale_price: Some(sale_price), ..self }
    }

    /// This asset, taken off the market.
    pub open spec fn unlisted(self) -> InsuranceAssetView {
        InsuranceAssetView { is_for_sale: false, sale_price: None, ..self }
    }

    /// This asset after `buyer` bought it: theirs, and off the market.
    pub open spec fn sold_to(self, buyer: Identity) -> InsuranceAssetView {
        InsuranceAssetView { owner: buyer, is_for_sale: false, sale_price: None, ..self }
    }

    /// Whether `price` is what the owner asks. Any price is, while the owner
    /// has named none.
    pub open spec fn accepts_price(self, price: u64) -> bool {
        self.sale_price matches Some(asked) ==> asked == price
    }
}

/// What a record slot holds, as a mathematical value.
pub open spec fn record_view<T: View>(slot: Option<T>) -> Option<T::V> {
    match slot {
        Some(record) => Some(record@),
        None => None,
    }
}

} // verus!
