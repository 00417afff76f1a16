use draco_protocol::airdrop::Airdrop;
use draco_protocol::authority::{enforce_protocol_authority, ProtocolAuthority};
use draco_protocol::cliff::SixMonthCliff;
use draco_protocol::constants::{SIX_MONTHS, SIX_MONTH_CLIFF_AMOUNT, TREASURY_INITIAL_AMOUNT};
use draco_protocol::errors::ErrorCode;
use draco_protocol::escrow::get_scaled_amount;
use draco_protocol::keys::AccountKey;
use draco_protocol::protocol::{
    claim_airdrop, create_airdrop, initialize_authority, initialize_treasury,
    transfer_out_from_six_month_cliff,
};

fn authority() -> ProtocolAuthority {
    ProtocolAuthority { authority: AccountKey { id: 42 } }
}

#[test]
fn scaling_multiplies_by_the_decimal_power_of_ten() {
    assert_eq!(get_scaled_amount(5, 2), Ok(500));
    assert_eq!(get_scaled_amount(0, 9), Ok(0));
    assert_eq!(get_scaled_amount(1, 0), Ok(1));
    assert_eq!(get_scaled_amount(1, 19), Ok(10_000_000_000_000_000_000));
}

#[test]
fn scaling_past_64_bits_overflows() {
    assert_eq!(get_scaled_amount(2, 19), Err(ErrorCode::ArithmeticOverflow));
    assert_eq!(get_scaled_amount(u64::MAX, 1), Err(ErrorCode::ArithmeticOverflow));
    assert_eq!(get_scaled_amount(1, 20), Err(ErrorCode::ArithmeticOverflow));
}

#[test]
fn the_installed_authority_gates_privileged_calls() {
    let mut pa = ProtocolAuthority { authority: AccountKey { id: 0 } };
    initialize_authority(&mut pa, AccountKey { id: 42 }).unwrap();
    assert_eq!(pa.authority, AccountKey { id: 42 });
    assert_eq!(enforce_protocol_authority(pa.authority, AccountKey { id: 42 }), Ok(()));
    assert_eq!(
        enforce_protocol_authority(pa.authority, AccountKey { id: 41 }),
        Err(ErrorCode::InvalidAuthority)
    );
}

#[test]
fn treasury_initialization_funds_both_vaults_and_stamps_the_cliff() {
    let mut cliff = SixMonthCliff { last_transfer_out_datetime: 0, transfers_performed: 9 };
    let (treasury, cliff_fund) =
        initialize_treasury(&authority(), AccountKey { id: 42 }, &mut cliff, 1_234, 2).unwrap();
    assert_eq!(treasury, TREASURY_INITIAL_AMOUNT * 100);
    assert_eq!(cliff_fund, SIX_MONTH_CLIFF_AMOUNT * 3 * 100);
    assert_eq!(cliff.last_transfer_out_datetime, 1_234);
    assert_eq!(cliff.transfers_performed, 0);

    let mut untouched = SixMonthCliff { last_transfer_out_datetime: 0, transfers_performed: 9 };
    assert_eq!(
        initialize_treasury(&authority(), AccountKey { id: 1 }, &mut untouched, 1_234, 2),
        Err(ErrorCode::InvalidAuthority)
    );
    assert_eq!(untouched.transfers_performed, 9);
}

#[test]
fn cliff_releases_only_after_six_months_and_counts_transfers() {
    let pa = authority();
    let payer = AccountKey { id: 42 };
    let mut cliff = SixMonthCliff { last_transfer_out_datetime: 0, transfers_performed: 0 };
    assert_eq!(
        transfer_out_from_six_month_cliff(&pa, payer, &mut cliff, SIX_MONTHS - 1, 2),
        Err(ErrorCode::NotEnoughTimePassed)
    );
    let scaled =
        transfer_out_from_six_month_cliff(&pa, payer, &mut cliff, SIX_MONTHS, 2).unwrap();
    assert_eq!(scaled, SIX_MONTH_CLIFF_AMOUNT * 100);
    assert_eq!(cliff.last_transfer_out_datetime, SIX_MONTHS);
    assert_eq!(cliff.transfers_performed, 1);

    // The clock restarts from the last release.
    assert_eq!(
        transfer_out_from_six_month_cliff(&pa, payer, &mut cliff, SIX_MONTHS + 10, 2),
        Err(ErrorCode::NotEnoughTimePassed)
    );
    transfer_out_from_six_month_cliff(&pa, payer, &mut cliff, 2 * SIX_MONTHS, 2).unwrap();
    transfer_out_from_six_month_cliff(&pa, payer, &mut cliff, 3 * SIX_MONTHS, 2).unwrap();
    // After the per-period allowance is exhausted, releases stop.
    assert_eq!(cliff.transfers_performed, 3);
    assert_eq!(
        transfer_out_from_six_month_cliff(&pa, payer, &mut cliff, 4 * SIX_MONTHS, 2),
        Err(ErrorCode::MaxTransfersPerformed)
    );
}

#[test]
fn airdrop_creation_validates_window_supply_and_claim_amount() {
    let pa = authority();
    let payer = AccountKey { id: 42 };
    assert_eq!(
        create_airdrop(&pa, AccountKey { id: 1 }, 5, "drop".to_string(), 100, 10, 0, 10)
            .unwrap_err(),
        ErrorCode::InvalidAuthority
    );
    assert_eq!(
        create_airdrop(&pa, payer, 5, "drop".to_string(), 100, 10, 10, 10).unwrap_err(),
        ErrorCode::InvalidAirdropStartEndDatetime
    );
    assert_eq!(
        create_airdrop(&pa, payer, 5, "drop".to_string(), 0, 10, 0, 10).unwrap_err(),
        ErrorCode::InvalidAirdropSupply
    );
    assert_eq!(
        create_airdrop(&pa, payer, 5, "drop".to_string(), 100, 0, 0, 10).unwrap_err(),
        ErrorCode::InvalidAmount
    );
    assert_eq!(
        create_airdrop(&pa, payer, 5, "drop".to_string(), 9, 10, 0, 10).unwrap_err(),
        ErrorCode::InvalidAirdropSupply
    );
    let airdrop =
        create_airdrop(&pa, payer, 5, "drop".to_string(), 100, 10, 0, 10).unwrap();
    assert_eq!(airdrop.supply, 100);
    assert_eq!(airdrop.supplied, 0);
}

#[test]
fn airdrop_claims_respect_the_window_and_exhaust_the_supply() {
    let mut airdrop = Airdrop {
        airdrop_id: 5,
        name: "drop".to_string(),
        supply: 25,
        supplied: 0,
        amount_per_claim: 10,
        start_datetime: 100,
        end_datetime: 200,
    };
    let claimer = AccountKey { id: 8 };
    assert_eq!(
        claim_airdrop(&mut airdrop, 5, claimer, 99, 2),
        Err(ErrorCode::AirdropNotStarted)
    );
    assert_eq!(claim_airdrop(&mut airdrop, 5, claimer, 201, 2), Err(ErrorCode::AirdropEnded));

    let (scaled, record) = claim_airdrop(&mut airdrop, 5, claimer, 100, 2).unwrap();
    assert_eq!(scaled, 1_000);
    assert_eq!(record.airdrop_id, 5);
    assert_eq!(record.claimer, claimer);
    assert_eq!(airdrop.supplied, 10);

    claim_airdrop(&mut airdrop, 5, AccountKey { id: 9 }, 150, 2).unwrap();
    assert_eq!(airdrop.supplied, 20);
    // A third claim would need 30 of the 25-token supply.
    assert_eq!(
        claim_airdrop(&mut airdrop, 5, AccountKey { id: 10 }, 150, 2),
        Err(ErrorCode::AirdropSupplyExhausted)
    );
    assert_eq!(airdrop.supplied, 20);
}
