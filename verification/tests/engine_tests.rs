use pool_signal::engine::{handle_message, HandleOutcome, UpdateEnvelope};
use pool_signal::errors::DecodeError;
use pool_signal::monitor::{ArbitrageMonitor, Venue};
use pool_signal::orca::{sol_mint_raw, usdc_mint_raw};
use pool_signal::tx::TransactionUpdateInput;

const ORCA_POOL_BYTES: [u8; 32] = [
    178, 54, 144, 215, 208, 117, 141, 29, 93, 139, 137, 80, 206, 199, 169, 180, 215, 199, 154,
    232, 255, 181, 198, 186, 13, 189, 98, 161, 152, 55, 147, 91,
];

const METEORA_POOL_BYTES: [u8; 32] = [
    2, 161, 160, 112, 166, 140, 20, 121, 206, 128, 82, 105, 216, 97, 27, 132, 154, 224, 198, 230,
    14, 116, 21, 225, 177, 132, 210, 234, 93, 185, 164, 183,
];

fn orca_account_data(sqrt_price: u128) -> Vec<u8> {
    let mut data = vec![0u8; 653];
    data[65..81].copy_from_slice(&sqrt_price.to_le_bytes());
    data[101..133].copy_from_slice(&sol_mint_raw());
    data[181..213].copy_from_slice(&usdc_mint_raw());
    data
}

fn meteora_account_data(reserve_x: u64, reserve_y: u64) -> Vec<u8> {
    let mut data = vec![0u8; 48];
    data[8..16].copy_from_slice(&reserve_x.to_le_bytes());
    data[16..24].copy_from_slice(&reserve_y.to_le_bytes());
    data
}

#[test]
fn ping_and_other_are_ignored() {
    let mut monitor = ArbitrageMonitor::new();
    assert_eq!(handle_message(&mut monitor, &UpdateEnvelope::Ping), HandleOutcome::Ignored);
    assert_eq!(handle_message(&mut monitor, &UpdateEnvelope::Other), HandleOutcome::Ignored);
    assert_eq!(monitor, ArbitrageMonitor::new());
}

#[test]
fn untracked_account_is_ignored() {
    let mut monitor = ArbitrageMonitor::new();
    let msg = UpdateEnvelope::Account { pubkey: vec![7u8; 32], data: vec![0u8; 653], slot: 1 };
    assert_eq!(handle_message(&mut monitor, &msg), HandleOutcome::Ignored);
    assert_eq!(monitor, ArbitrageMonitor::new());
}

#[test]
fn orca_account_publishes_price_without_signal() {
    let mut monitor = ArbitrageMonitor::new();
    let msg = UpdateEnvelope::Account {
        pubkey: ORCA_POOL_BYTES.to_vec(),
        data: orca_account_data(1u128 << 63),
        slot: 1,
    };
    let outcome = handle_message(&mut monitor, &msg);
    match outcome {
        HandleOutcome::OrcaPrice { price_micro, signal } => {
            assert_eq!(price_micro, 250);
            assert_eq!(signal, None);
        },
        other => panic!("unexpected outcome: {:?}", other),
    }
    assert_eq!(monitor.orca_micro, 250);
    assert_eq!(monitor.meteora_micro, 0);
}

#[test]
fn second_venue_triggers_comparison_signal() {
    let mut monitor = ArbitrageMonitor::new();
    let orca_msg = UpdateEnvelope::Account {
        pubkey: ORCA_POOL_BYTES.to_vec(),
        data: orca_account_data(1u128 << 63),
        slot: 1,
    };
    handle_message(&mut monitor, &orca_msg);
    let meteora_msg = UpdateEnvelope::Account {
        pubkey: METEORA_POOL_BYTES.to_vec(),
        data: meteora_account_data(2_000_000_000, 500_000_000),
        slot: 2,
    };
    let outcome = handle_message(&mut monitor, &meteora_msg);
    match outcome {
        HandleOutcome::MeteoraPrice { reserve_x, reserve_y, price_micro, signal } => {
            assert_eq!(reserve_x, 2_000_000_000);
            assert_eq!(reserve_y, 500_000_000);
            assert_eq!(price_micro, 250_000_000);
            let signal = signal.unwrap();
            assert_eq!(signal.orca_micro, 250);
            assert_eq!(signal.meteora_micro, 250_000_000);
            assert_eq!(signal.diff_micro, 249_999_750);
            assert!(signal.opportunity);
        },
        other => panic!("unexpected outcome: {:?}", other),
    }
}

#[test]
fn orca_decode_failure_leaves_monitor_untouched() {
    let mut monitor = ArbitrageMonitor::new();
    monitor.record(Venue::Orca, 42);
    let msg = UpdateEnvelope::Account {
        pubkey: ORCA_POOL_BYTES.to_vec(),
        data: vec![0u8; 10],
        slot: 1,
    };
    let outcome = handle_message(&mut monitor, &msg);
    assert_eq!(
        outcome,
        HandleOutcome::DecodeFailed { venue: Venue::Orca, error: DecodeError::MalformedBuffer }
    );
    assert_eq!(monitor.orca_micro, 42);
}

#[test]
fn orca_zero_price_is_rejected_not_published() {
    let mut monitor = ArbitrageMonitor::new();
    monitor.record(Venue::Orca, 42);
    let msg = UpdateEnvelope::Account {
        pubkey: ORCA_POOL_BYTES.to_vec(),
        data: orca_account_data(0),
        slot: 1,
    };
    let outcome = handle_message(&mut monitor, &msg);
    assert_eq!(outcome, HandleOutcome::PriceRejected { venue: Venue::Orca });
    assert_eq!(monitor.orca_micro, 42);
}

#[test]
fn meteora_without_plausible_reserves_warns_and_keeps_price() {
    let mut monitor = ArbitrageMonitor::new();
    monitor.record(Venue::Meteora, 99);
    let msg = UpdateEnvelope::Account {
        pubkey: METEORA_POOL_BYTES.to_vec(),
        data: vec![0u8; 64],
        slot: 1,
    };
    let outcome = handle_message(&mut monitor, &msg);
    assert_eq!(
        outcome,
        HandleOutcome::DecodeFailed { venue: Venue::Meteora, error: DecodeError::ImplausibleValue }
    );
    assert_eq!(monitor.meteora_micro, 99);
}

#[test]
fn transaction_update_is_decoded() {
    let mut monitor = ArbitrageMonitor::new();
    let update = TransactionUpdateInput {
        slot: 9,
        is_vote: false,
        signature: vec![1, 2, 3],
        account_keys: vec![vec![0u8; 32]],
        recent_blockhash: vec![],
        instructions: vec![],
        has_error: false,
        fee: 5000,
        pre_token_balances: vec![],
        post_token_balances: vec![],
        inner_instructions: vec![],
        log_messages: vec![],
        loaded_writable_addresses: vec![],
        loaded_readonly_addresses: vec![],
    };
    let outcome = handle_message(&mut monitor, &UpdateEnvelope::Transaction { update });
    match outcome {
        HandleOutcome::Transaction { parsed } => {
            assert_eq!(parsed.signature, "Ldp");
            assert_eq!(parsed.slot, 9);
            assert!(parsed.success);
            assert_eq!(parsed.fee, 5000);
            assert_eq!(parsed.account_keys, vec!["11111111111111111111111111111111".to_string()]);
        },
        other => panic!("unexpected outcome: {:?}", other),
    }
    assert_eq!(monitor, ArbitrageMonitor::new());
}

#[test]
fn meteora_short_buffer_warns_malformed() {
    let mut monitor = ArbitrageMonitor::new();
    let msg = UpdateEnvelope::Account {
        pubkey: METEORA_POOL_BYTES.to_vec(),
        data: vec![1u8; 16],
        slot: 1,
    };
    let outcome = handle_message(&mut monitor, &msg);
    assert_eq!(
        outcome,
        HandleOutcome::DecodeFailed { venue: Venue::Meteora, error: DecodeError::MalformedBuffer }
    );
    assert_eq!(monitor, ArbitrageMonitor::new());
}
