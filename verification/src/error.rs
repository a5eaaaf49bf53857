use vstd::prelude::*;

verus! {

/// Why the value-transfer ledger refused a payment.
#[derive(Clone, Copy, Debug, PartialEq, Eq, Structural)]
pub enum TransferError {
    /// The paying account does not hold the amount.
    InsufficientBalance,
    /// The ledger turned the transfer down for any other reason.
    Rejected,
}

/// Every way a marketplace operation can fail.
///
/// Each failure is final for the call that met it, and each leaves the record
/// it was aimed at exactly as it was.
#[derive(Clone, Copy, Debug, PartialEq, Eq, Structural)]
pub enum WellswapError {
    /// A purchase was attempted on an asset that is not listed.
    AssetNotForSale,
    /// Someone other than the recorded owner tried to list or unlist an asset.
    NotOwner,
    /// The ledger found too little in the paying account.
    InsufficientBalance,
    /// The ledger turned the payment down for another reason.
    TransferRejected,
    /// The price offered differs from the price the asset is listed at.
    PriceMismatch,
    /// A record already occupies the slot that a creation was aimed at.
    RecordAlreadyExists,
    /// The slot that an operation was aimed at holds no record.
    RecordNotFound,
}

impl WellswapError {
    /// The marketplace failure that a refused payment turns into.
    pub open spec fn of_transfer(refusal: TransferError) -> WellswapError {
        match refusal {
            TransferError::InsufficientBalance => WellswapError::InsufficientBalance,
            TransferError::Rejected => WellswapError::TransferRejected,
        }
    }

    /// Carries a refusal by the ledger over into a marketplace failure.
    pub fn from_transfer(refusal: TransferError) -> (failure: WellswapError)
        ensures
            failure == WellswapError::of_transfer(refusal),
    {
        match refusal {
            TransferError::InsufficientBalance => WellswapError::InsufficientBalance,
            TransferError::Rejected => WellswapError::TransferRejected,
        }
    }
}

} // verus!
