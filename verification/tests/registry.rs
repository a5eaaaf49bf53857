use wellswap::asset::{InsuranceAsset, InsuranceAssetData};
use wellswap::error::{TransferError, WellswapError};
use wellswap::event::{
    InsuranceAssetListedForSale, InsuranceAssetPurchased, InsuranceAssetRegistered,
    InsuranceAssetSaleCancelled,
};
use wellswap::identity::Identity;
use wellswap::registry::{
    cancel_insurance_asset_sale, complete_purchase, complete_registration,
    list_insurance_asset_for_sale, purchase_insurance_asset, purchase_transfer,
    register_insurance_asset, registration_transfer, CancelInsuranceAssetSale,
    ListInsuranceAssetForSale, PurchaseInsuranceAsset, RegisterInsuranceAsset,
};
use wellswap::transfer::TransferInstruction;

fn id(n: u8) -> Identity {
    Identity { bytes: [n; 32] }
}

fn slot() -> Identity {
    id(200)
}

fn platform() -> Identity {
    id(250)
}

fn policy() -> InsuranceAssetData {
    InsuranceAssetData {
        insurance_company: String::from("Northwind Life"),
        product_category: String::from("Whole life"),
        product_name: String::from("Evergreen 30"),
        contract_date: 1_600_000_000,
        contract_period: 30,
        paid_period: 12,
        annual_premium: 2_400,
        total_paid: 28_800,
    }
}

fn asset_of(owner: Identity, is_for_sale: bool, sale_price: Option<u64>) -> InsuranceAsset {
    InsuranceAsset {
        owner,
        insurance_company: String::from("Northwind Life"),
        product_category: String::from("Whole life"),
        product_name: String::from("Evergreen 30"),
        contract_date: 1_600_000_000,
        contract_period: 30,
        paid_period: 12,
        annual_premium: 2_400,
        total_paid: 28_800,
        is_for_sale,
        sale_price,
        registration_fee: 100,
        created_at: 1_700_000_000,
    }
}

fn registering(user: Identity) -> RegisterInsuranceAsset {
    RegisterInsuranceAsset { asset_id: slot(), insurance_asset: None, user, platform: platform() }
}

fn purchasing(asset: Option<InsuranceAsset>, buyer: Identity) -> PurchaseInsuranceAsset {
    PurchaseInsuranceAsset { asset_id: slot(), insurance_asset: asset, buyer }
}

fn listing(asset: Option<InsuranceAsset>, owner: Identity) -> ListInsuranceAssetForSale {
    ListInsuranceAssetForSale { asset_id: slot(), insurance_asset: asset, owner }
}

fn cancelling(asset: Option<InsuranceAsset>, owner: Identity) -> CancelInsuranceAssetSale {
    CancelInsuranceAssetSale { asset_id: slot(), insurance_asset: asset, owner }
}

#[test]
fn register_list_purchase_scenario() {
    let seller = id(1);
    let buyer = id(2);

    let mut register = registering(seller);
    let registered = register_insurance_asset(&mut register, policy(), 100, 1_700_000_000, |_| Ok(()));
    assert!(registered.is_ok());
    let asset = register.insurance_asset.expect("asset created");
    assert!(asset.is_for_sale);
    assert_eq!(asset.owner, seller);

    let mut list = listing(Some(asset), seller);
    assert!(list_insurance_asset_for_sale(&mut list, 500).is_ok());
    let asset = list.insurance_asset.expect("asset kept");
    assert!(asset.is_for_sale);
    assert_eq!(asset.sale_price, Some(500));

    let mut purchase = purchasing(Some(asset), buyer);
    let bought = purchase_insurance_asset(&mut purchase, 500, |_| Ok(()));
    assert_eq!(
        bought,
        Ok(InsuranceAssetPurchased {
            asset: slot(),
            previous_owner: seller,
            new_owner: buyer,
            purchase_price: 500,
        })
    );
    let asset = purchase.insurance_asset.expect("asset kept");
    assert_eq!(asset.owner, buyer);
    assert!(!asset.is_for_sale);
    assert_eq!(asset.sale_price, None);
}

#[test]
fn purchase_with_insufficient_balance_changes_nothing() {
    let seller = id(1);
    let buyer = id(2);
    let before = purchasing(Some(asset_of(seller, true, Some(500))), buyer);
    let mut ctx = before.clone();
    let result =
        purchase_insurance_asset(&mut ctx, 500, |_| Err(TransferError::InsufficientBalance));
    assert_eq!(result, Err(WellswapError::InsufficientBalance));
    assert_eq!(ctx, before);
    let asset = ctx.insurance_asset.expect("asset kept");
    assert_eq!(asset.owner, seller);
    assert!(asset.is_for_sale);
    assert_eq!(asset.sale_price, Some(500));
}

#[test]
fn registration_creates_asset_owned_by_caller() {
    let user = id(11);
    let mut seen: Vec<TransferInstruction> = Vec::new();
    let mut ctx = registering(user);
    let result = register_insurance_asset(&mut ctx, policy(), 100, 1_700_000_123, |instruction| {
        seen.push(instruction);
        Ok(())
    });
    assert_eq!(
        result,
        Ok(InsuranceAssetRegistered {
            asset: slot(),
            owner: user,
            insurance_company: String::from("Northwind Life"),
            registration_fee: 100,
        })
    );
    assert_eq!(
        seen,
        vec![TransferInstruction { from: user, to: platform(), authority: user, amount: 100 }]
    );
    assert_eq!(
        ctx.insurance_asset,
        Some(InsuranceAsset {
            owner: user,
            insurance_company: String::from("Northwind Life"),
            product_category: String::from("Whole life"),
            product_name: String::from("Evergreen 30"),
            contract_date: 1_600_000_000,
            contract_period: 30,
            paid_period: 12,
            annual_premium: 2_400,
            total_paid: 28_800,
            is_for_sale: true,
            sale_price: None,
            registration_fee: 100,
            created_at: 1_700_000_123,
        })
    );
    assert_eq!(ctx.asset_id, slot());
    assert_eq!(ctx.user, user);
    assert_eq!(ctx.platform, platform());
}

#[test]
fn registration_with_zero_fee_still_asks_the_ledger() {
    let user = id(11);
    let mut calls = 0;
    let mut ctx = registering(user);
    let result = register_insurance_asset(&mut ctx, policy(), 0, 5, |instruction| {
        calls += 1;
        assert_eq!(instruction.amount, 0);
        Ok(())
    });
    assert!(result.is_ok());
    assert_eq!(calls, 1);
    assert_eq!(ctx.insurance_asset.expect("asset created").registration_fee, 0);
}

#[test]
fn registration_with_largest_fee_and_extreme_times() {
    let user = id(11);
    let mut ctx = registering(user);
    let result = register_insurance_asset(&mut ctx, policy(), u64::MAX, i64::MIN, |instruction| {
        assert_eq!(instruction.amount, u64::MAX);
        Ok(())
    });
    assert!(result.is_ok());
    let asset = ctx.insurance_asset.expect("asset created");
    assert_eq!(asset.registration_fee, u64::MAX);
    assert_eq!(asset.created_at, i64::MIN);
}

#[test]
fn registration_into_occupied_slot_fails_before_payment() {
    let user = id(11);
    let mut called = false;
    let before = RegisterInsuranceAsset {
        asset_id: slot(),
        insurance_asset: Some(asset_of(id(3), false, None)),
        user,
        platform: platform(),
    };
    let mut ctx = before.clone();
    let result = register_insurance_asset(&mut ctx, policy(), 100, 7, |_| {
        called = true;
        Ok(())
    });
    assert_eq!(result, Err(WellswapError::RecordAlreadyExists));
    assert!(!called);
    assert_eq!(ctx, before);
}

#[test]
fn registration_with_insufficient_balance_creates_nothing() {
    let before = registering(id(11));
    let mut ctx = before.clone();
    let result = register_insurance_asset(&mut ctx, policy(), 100, 7, |_| {
        Err(TransferError::InsufficientBalance)
    });
    assert_eq!(result, Err(WellswapError::InsufficientBalance));
    assert_eq!(ctx, before);
    assert_eq!(ctx.insurance_asset, None);
}

#[test]
fn registration_with_rejected_transfer_creates_nothing() {
    let before = registering(id(11));
    let mut ctx = before.clone();
    let result =
        register_insurance_asset(&mut ctx, policy(), 100, 7, |_| Err(TransferError::Rejected));
    assert_eq!(result, Err(WellswapError::TransferRejected));
    assert_eq!(ctx, before);
}

#[test]
fn registration_in_two_steps() {
    let user = id(11);
    let mut ctx = registering(user);
    assert_eq!(
        registration_transfer(&ctx, 42),
        Ok(TransferInstruction { from: user, to: platform(), authority: user, amount: 42 })
    );
    let result = complete_registration(&mut ctx, policy(), 42, 9, Ok(()));
    assert!(result.is_ok());
    assert_eq!(registration_transfer(&ctx, 42), Err(WellswapError::RecordAlreadyExists));
    let before = ctx.clone();
    let again = complete_registration(&mut ctx, policy(), 42, 10, Ok(()));
    assert_eq!(again, Err(WellswapError::RecordAlreadyExists));
    assert_eq!(ctx, before);
}

#[test]
fn listing_then_cancelling_unlists_at_any_price() {
    let owner = id(1);
    for price in [0u64, 1, 500, u64::MAX] {
        for start in [
            asset_of(owner, true, None),
            asset_of(owner, true, Some(77)),
            asset_of(owner, false, None),
        ] {
            let mut list = listing(Some(start.clone()), owner);
            assert_eq!(
                list_insurance_asset_for_sale(&mut list, price),
                Ok(InsuranceAssetListedForSale { asset: slot(), owner, sale_price: price })
            );
            let listed = list.insurance_asset.expect("asset kept");
            assert!(listed.is_for_sale);
            assert_eq!(listed.sale_price, Some(price));

            let mut cancel = cancelling(Some(listed), owner);
            assert_eq!(
                cancel_insurance_asset_sale(&mut cancel),
                Ok(InsuranceAssetSaleCancelled { asset: slot(), owner })
            );
            let end = cancel.insurance_asset.expect("asset kept");
            assert!(!end.is_for_sale);
            assert_eq!(end.sale_price, None);
            assert_eq!(end, InsuranceAsset { is_for_sale: false, sale_price: None, ..start });
        }
    }
}

#[test]
fn listing_by_a_stranger_fails() {
    let before = listing(Some(asset_of(id(1), false, None)), id(2));
    let mut ctx = before.clone();
    assert_eq!(list_insurance_asset_for_sale(&mut ctx, 500), Err(WellswapError::NotOwner));
    assert_eq!(ctx, before);
}

#[test]
fn listing_by_an_identity_that_differs_in_one_byte_fails() {
    let owner = id(1);
    let mut bytes = [1u8; 32];
    bytes[31] = 2;
    let before = listing(Some(asset_of(owner, false, None)), Identity { bytes });
    let mut ctx = before.clone();
    assert_eq!(list_insurance_asset_for_sale(&mut ctx, 500), Err(WellswapError::NotOwner));
    assert_eq!(ctx, before);
}

#[test]
fn listing_a_missing_record_fails() {
    let before = listing(None, id(1));
    let mut ctx = before.clone();
    assert_eq!(list_insurance_asset_for_sale(&mut ctx, 500), Err(WellswapError::RecordNotFound));
    assert_eq!(ctx, before);
}

#[test]
fn listing_again_replaces_the_price() {
    let owner = id(1);
    let mut ctx = listing(Some(asset_of(owner, true, Some(500))), owner);
    assert!(list_insurance_asset_for_sale(&mut ctx, 750).is_ok());
    assert_eq!(ctx.insurance_asset, Some(asset_of(owner, true, Some(750))));
}

#[test]
fn cancelling_by_a_stranger_fails() {
    let before = cancelling(Some(asset_of(id(1), true, Some(500))), id(2));
    let mut ctx = before.clone();
    assert_eq!(cancel_insurance_asset_sale(&mut ctx), Err(WellswapError::NotOwner));
    assert_eq!(ctx, before);
}

#[test]
fn cancelling_a_missing_record_fails() {
    let before = cancelling(None, id(1));
    let mut ctx = before.clone();
    assert_eq!(cancel_insurance_asset_sale(&mut ctx), Err(WellswapError::RecordNotFound));
    assert_eq!(ctx, before);
}

#[test]
fn cancelling_an_unlisted_asset_keeps_it_unlisted() {
    let owner = id(1);
    let mut ctx = cancelling(Some(asset_of(owner, false, None)), owner);
    assert!(cancel_insurance_asset_sale(&mut ctx).is_ok());
    assert_eq!(ctx.insurance_asset, Some(asset_of(owner, false, None)));
}

#[test]
fn purchase_of_unlisted_asset_fails_and_changes_nothing() {
    let mut called = false;
    let before = purchasing(Some(asset_of(id(1), false, None)), id(2));
    let mut ctx = before.clone();
    let result = purchase_insurance_asset(&mut ctx, 500, |_| {
        called = true;
        Ok(())
    });
    assert_eq!(result, Err(WellswapError::AssetNotForSale));
    assert!(!called);
    assert_eq!(ctx, before);
}

#[test]
fn purchase_pays_price_from_buyer_to_previous_owner_once() {
    let seller = id(1);
    let buyer = id(2);
    let mut seen: Vec<TransferInstruction> = Vec::new();
    let mut ctx = purchasing(Some(asset_of(seller, true, Some(500))), buyer);
    let result = purchase_insurance_asset(&mut ctx, 500, |instruction| {
        seen.push(instruction);
        Ok(())
    });
    assert!(result.is_ok());
    assert_eq!(
        seen,
        vec![TransferInstruction { from: buyer, to: seller, authority: buyer, amount: 500 }]
    );
    assert_eq!(ctx.insurance_asset, Some(asset_of(buyer, false, None)));
    assert_eq!(ctx.asset_id, slot());
    assert_eq!(ctx.buyer, buyer);
}

#[test]
fn purchase_at_another_price_than_asked_fails() {
    let mut called = false;
    let before = purchasing(Some(asset_of(id(1), true, Some(500))), id(2));
    for offered in [0u64, 499, 501, u64::MAX] {
        let mut ctx = before.clone();
        let result = purchase_insurance_asset(&mut ctx, offered, |_| {
            called = true;
            Ok(())
        });
        assert_eq!(result, Err(WellswapError::PriceMismatch));
        assert_eq!(ctx, before);
    }
    assert!(!called);
}

#[test]
fn purchase_of_fresh_asset_without_asking_price_takes_any_price() {
    let seller = id(1);
    let buyer = id(2);
    let mut register = registering(seller);
    assert!(register_insurance_asset(&mut register, policy(), 100, 3, |_| Ok(())).is_ok());
    let mut ctx = purchasing(register.insurance_asset, buyer);
    let result = purchase_insurance_asset(&mut ctx, 321, |instruction| {
        assert_eq!(instruction.amount, 321);
        assert_eq!(instruction.to, seller);
        Ok(())
    });
    assert!(result.is_ok());
    assert_eq!(ctx.insurance_asset.expect("asset kept").owner, buyer);
}

#[test]
fn purchase_with_rejected_transfer_changes_nothing() {
    let before = purchasing(Some(asset_of(id(1), true, Some(500))), id(2));
    let mut ctx = before.clone();
    let result = purchase_insurance_asset(&mut ctx, 500, |_| Err(TransferError::Rejected));
    assert_eq!(result, Err(WellswapError::TransferRejected));
    assert_eq!(ctx, before);
}

#[test]
fn purchase_of_missing_record_fails() {
    let mut called = false;
    let before = purchasing(None, id(2));
    let mut ctx = before.clone();
    let result = purchase_insurance_asset(&mut ctx, 500, |_| {
        called = true;
        Ok(())
    });
    assert_eq!(result, Err(WellswapError::RecordNotFound));
    assert!(!called);
    assert_eq!(ctx, before);
}

#[test]
fn failed_purchase_can_be_tried_again() {
    let seller = id(1);
    let buyer = id(2);
    let mut ctx = purchasing(Some(asset_of(seller, true, Some(500))), buyer);
    assert!(purchase_insurance_asset(&mut ctx, 500, |_| Err(TransferError::InsufficientBalance))
        .is_err());
    assert!(purchase_insurance_asset(&mut ctx, 500, |_| Ok(())).is_ok());
    assert_eq!(ctx.insurance_asset.expect("asset kept").owner, buyer);
}

#[test]
fn sold_asset_is_not_sold_a_second_time() {
    let mut calls = 0;
    let mut ctx = purchasing(Some(asset_of(id(1), true, Some(500))), id(2));
    assert!(purchase_insurance_asset(&mut ctx, 500, |_| {
        calls += 1;
        Ok(())
    })
    .is_ok());
    let mut second = purchasing(ctx.insurance_asset, id(3));
    let result = purchase_insurance_asset(&mut second, 500, |_| {
        calls += 1;
        Ok(())
    });
    assert_eq!(result, Err(WellswapError::AssetNotForSale));
    assert_eq!(calls, 1);
    assert_eq!(second.insurance_asset.expect("asset kept").owner, id(2));
}

#[test]
fn new_owner_can_list_and_sell_on() {
    let first = id(1);
    let second = id(2);
    let third = id(3);
    let mut ctx = purchasing(Some(asset_of(first, true, Some(500))), second);
    assert!(purchase_insurance_asset(&mut ctx, 500, |_| Ok(())).is_ok());

    let mut by_old_owner = listing(ctx.insurance_asset.clone(), first);
    assert_eq!(
        list_insurance_asset_for_sale(&mut by_old_owner, 900),
        Err(WellswapError::NotOwner)
    );

    let mut by_new_owner = listing(ctx.insurance_asset, second);
    assert!(list_insurance_asset_for_sale(&mut by_new_owner, 900).is_ok());

    let mut resale = purchasing(by_new_owner.insurance_asset, third);
    let result = purchase_insurance_asset(&mut resale, 900, |instruction| {
        assert_eq!(
            instruction,
            TransferInstruction { from: third, to: second, authority: third, amount: 900 }
        );
        Ok(())
    });
    assert!(result.is_ok());
    assert_eq!(resale.insurance_asset, Some(asset_of(third, false, None)));
}

#[test]
fn owner_may_buy_their_own_listing() {
    let owner = id(1);
    let mut ctx = purchasing(Some(asset_of(owner, true, Some(5))), owner);
    let result = purchase_insurance_asset(&mut ctx, 5, |instruction| {
        assert_eq!(instruction.from, owner);
        assert_eq!(instruction.to, owner);
        Ok(())
    });
    assert_eq!(
        result,
        Ok(InsuranceAssetPurchased {
            asset: slot(),
            previous_owner: owner,
            new_owner: owner,
            purchase_price: 5,
        })
    );
    assert_eq!(ctx.insurance_asset, Some(asset_of(owner, false, None)));
}

#[test]
fn purchase_in_two_steps() {
    let seller = id(1);
    let buyer = id(2);
    let mut ctx = purchasing(Some(asset_of(seller, true, Some(500))), buyer);
    assert_eq!(
        purchase_transfer(&ctx, 500),
        Ok(TransferInstruction { from: buyer, to: seller, authority: buyer, amount: 500 })
    );
    assert_eq!(purchase_transfer(&ctx, 1), Err(WellswapError::PriceMismatch));
    let before = ctx.clone();
    assert_eq!(
        complete_purchase(&mut ctx, 500, Err(TransferError::Rejected)),
        Err(WellswapError::TransferRejected)
    );
    assert_eq!(ctx, before);
    assert!(complete_purchase(&mut ctx, 500, Ok(())).is_ok());
    assert_eq!(ctx.insurance_asset, Some(asset_of(buyer, false, None)));
    assert_eq!(purchase_transfer(&ctx, 500), Err(WellswapError::AssetNotForSale));
}

#[test]
fn completing_a_purchase_that_was_never_admitted_changes_nothing() {
    let unlisted = purchasing(Some(asset_of(id(1), false, None)), id(2));
    let mut ctx = unlisted.clone();
    assert_eq!(complete_purchase(&mut ctx, 500, Ok(())), Err(WellswapError::AssetNotForSale));
    assert_eq!(ctx, unlisted);

    let mispriced = purchasing(Some(asset_of(id(1), true, Some(500))), id(2));
    let mut ctx = mispriced.clone();
    assert_eq!(complete_purchase(&mut ctx, 400, Ok(())), Err(WellswapError::PriceMismatch));
    assert_eq!(ctx, mispriced);

    let missing = purchasing(None, id(2));
    let mut ctx = missing.clone();
    assert_eq!(
        complete_purchase(&mut ctx, 400, Err(TransferError::Rejected)),
        Err(WellswapError::RecordNotFound)
    );
    assert_eq!(ctx, missing);
}

#[test]
fn policy_description_survives_every_operation() {
    let seller = id(1);
    let buyer = id(2);
    let mut register = registering(seller);
    assert!(register_insurance_asset(&mut register, policy(), 100, 3, |_| Ok(())).is_ok());
    let mut list = listing(register.insurance_asset, seller);
    assert!(list_insurance_asset_for_sale(&mut list, 10).is_ok());
    let mut cancel = cancelling(list.insurance_asset, seller);
    assert!(cancel_insurance_asset_sale(&mut cancel).is_ok());
    let mut list = listing(cancel.insurance_asset, seller);
    assert!(list_insurance_asset_for_sale(&mut list, 20).is_ok());
    let mut purchase = purchasing(list.insurance_asset, buyer);
    assert!(purchase_insurance_asset(&mut purchase, 20, |_| Ok(())).is_ok());
    let asset = purchase.insurance_asset.expect("asset kept");
    let described = policy();
    assert_eq!(asset.insurance_company, described.insurance_company);
    assert_eq!(asset.product_category, described.product_category);
    assert_eq!(asset.product_name, described.product_name);
    assert_eq!(asset.contract_date, described.contract_date);
    assert_eq!(asset.contract_period, described.contract_period);
    assert_eq!(asset.paid_period, described.paid_period);
    assert_eq!(asset.annual_premium, described.annual_premium);
    assert_eq!(asset.total_paid, described.total_paid);
    assert_eq!(asset.registration_fee, 100);
    assert_eq!(asset.created_at, 3);
}

#[test]
fn refusals_by_the_ledger_map_to_their_own_failures() {
    assert_eq!(
        WellswapError::from_transfer(TransferError::InsufficientBalance),
        WellswapError::InsufficientBalance
    );
    assert_eq!(
        WellswapError::from_transfer(TransferError::Rejected),
        WellswapError::TransferRejected
    );
}

#[test]
fn identities_are_equal_when_all_bytes_are() {
    assert!(id(5) == id(5));
    assert!(id(5) != id(6));
    for i in 0..32 {
        let mut bytes = [5u8; 32];
        bytes[i] = 6;
        assert!(Identity { bytes } != id(5));
        assert!(id(5) != Identity { bytes });
    }
}
