use pool_signal::classify::RaydiumInstructionType;
use pool_signal::engine::raydium_launchpad_program;
use pool_signal::scan::{find_target_instructions, ClassifiedInstruction, InstructionSite};
use pool_signal::tx::{
    decode_transaction, InnerInstructionsInput, InstructionInput, TokenBalanceInput,
    TransactionUpdateInput,
};

const SOL_MINT_BYTES: [u8; 32] = [
    6, 155, 136, 87, 254, 171, 129, 132, 251, 104, 127, 99, 70, 24, 192, 53, 218, 196, 57, 220,
    26, 235, 59, 85, 152, 160, 240, 0, 0, 0, 0, 1,
];

const RAYDIUM_PROGRAM_BYTES: [u8; 32] = [
    5, 4, 59, 149, 77, 202, 38, 225, 239, 145, 181, 44, 79, 143, 137, 175, 138, 111, 90, 200, 198,
    33, 86, 241, 113, 207, 15, 33, 172, 81, 201, 34,
];

fn empty_input() -> TransactionUpdateInput {
    TransactionUpdateInput {
        slot: 0,
        is_vote: false,
        signature: vec![],
        account_keys: vec![],
        recent_blockhash: vec![],
        instructions: vec![],
        has_error: false,
        fee: 0,
        pre_token_balances: vec![],
        post_token_balances: vec![],
        inner_instructions: vec![],
        log_messages: vec![],
        loaded_writable_addresses: vec![],
        loaded_readonly_addresses: vec![],
    }
}

#[test]
fn account_table_is_concatenated_in_order() {
    let mut input = empty_input();
    input.account_keys = vec![SOL_MINT_BYTES.to_vec(), vec![0u8; 32]];
    input.loaded_writable_addresses = vec![vec![1u8, 2, 3]];
    input.loaded_readonly_addresses = vec![RAYDIUM_PROGRAM_BYTES.to_vec()];
    let parsed = decode_transaction(&input);
    assert_eq!(parsed.account_keys.len(), 4);
    assert_eq!(parsed.account_keys[0], "So11111111111111111111111111111111111111112");
    assert_eq!(parsed.account_keys[1], "11111111111111111111111111111111");
    assert_eq!(parsed.account_keys[2], "Ldp");
    assert_eq!(parsed.account_keys[3], "LanMV9sAd7wArD4vJFi2qDdfnVhFxYSUg6eADduJ3uj");
}

#[test]
fn signature_and_blockhash_are_base58() {
    let mut input = empty_input();
    input.signature = vec![1, 2, 3];
    input.recent_blockhash = vec![0u8; 32];
    let parsed = decode_transaction(&input);
    assert_eq!(parsed.signature, "Ldp");
    assert_eq!(parsed.recent_blockhash, "11111111111111111111111111111111");
}

#[test]
fn out_of_range_program_index_resolves_to_unknown() {
    let mut input = empty_input();
    input.account_keys = vec![vec![0u8; 32]];
    input.instructions = vec![InstructionInput {
        program_id_index: 5,
        accounts: vec![],
        data: vec![],
    }];
    let parsed = decode_transaction(&input);
    assert_eq!(parsed.instructions[0].program_id, "unknown");
    assert_eq!(parsed.instructions[0].program_id_index, 5);
}

#[test]
fn out_of_range_account_indices_are_dropped() {
    let mut input = empty_input();
    input.account_keys = vec![vec![0u8; 32], SOL_MINT_BYTES.to_vec()];
    input.instructions = vec![InstructionInput {
        program_id_index: 0,
        accounts: vec![1, 200, 0, 77],
        data: vec![9, 9],
    }];
    let parsed = decode_transaction(&input);
    let accounts = &parsed.instructions[0].accounts;
    assert_eq!(accounts.len(), 2);
    assert_eq!(accounts[0].0, 1);
    assert_eq!(accounts[0].1, "So11111111111111111111111111111111111111112");
    assert_eq!(accounts[1].0, 0);
    assert_eq!(accounts[1].1, "11111111111111111111111111111111");
    assert_eq!(parsed.instructions[0].data, vec![9, 9]);
}

#[test]
fn scalar_fields_and_logs_carry_over() {
    let mut input = empty_input();
    input.slot = 77;
    input.is_vote = true;
    input.has_error = true;
    input.fee = 5000;
    input.log_messages = vec!["Program log: hello".to_string(), "done".to_string()];
    let parsed = decode_transaction(&input);
    assert_eq!(parsed.slot, 77);
    assert!(parsed.is_vote);
    assert!(!parsed.success);
    assert_eq!(parsed.fee, 5000);
    assert_eq!(parsed.logs, vec!["Program log: hello".to_string(), "done".to_string()]);
}

#[test]
fn balances_without_display_amount_are_left_out() {
    let mut input = empty_input();
    input.pre_token_balances = vec![
        TokenBalanceInput {
            account_index: 1,
            mint: "m1".to_string(),
            owner: "o1".to_string(),
            ui_amount: Some("1.5".to_string()),
        },
        TokenBalanceInput {
            account_index: 2,
            mint: "m2".to_string(),
            owner: "o2".to_string(),
            ui_amount: None,
        },
    ];
    input.post_token_balances = vec![TokenBalanceInput {
        account_index: 2,
        mint: "m2".to_string(),
        owner: "o2".to_string(),
        ui_amount: Some("0.25".to_string()),
    }];
    let parsed = decode_transaction(&input);
    assert_eq!(parsed.pre_token_balances.len(), 1);
    assert_eq!(parsed.pre_token_balances[0].account_index, 1);
    assert_eq!(parsed.pre_token_balances[0].mint, "m1");
    assert_eq!(parsed.pre_token_balances[0].ui_amount, "1.5");
    assert_eq!(parsed.post_token_balances.len(), 1);
    assert_eq!(parsed.post_token_balances[0].ui_amount, "0.25");
}

#[test]
fn inner_groups_keep_their_tag() {
    let mut input = empty_input();
    input.account_keys = vec![vec![0u8; 32]];
    input.inner_instructions = vec![InnerInstructionsInput {
        index: 3,
        instructions: vec![InstructionInput {
            program_id_index: 0,
            accounts: vec![0],
            data: vec![1],
        }],
    }];
    let parsed = decode_transaction(&input);
    assert_eq!(parsed.inner_instructions.len(), 1);
    assert_eq!(parsed.inner_instructions[0].index, 3);
    let inner = &parsed.inner_instructions[0].instructions;
    assert_eq!(inner.len(), 1);
    assert_eq!(inner[0].program_id, "11111111111111111111111111111111");
}

#[test]
fn scan_reports_target_program_hits_in_order() {
    let mut input = empty_input();
    input.account_keys = vec![RAYDIUM_PROGRAM_BYTES.to_vec(), vec![0u8; 32]];
    input.instructions = vec![
        InstructionInput {
            program_id_index: 1,
            accounts: vec![],
            data: vec![250, 234, 13, 123, 213, 156, 19, 236],
        },
        InstructionInput {
            program_id_index: 0,
            accounts: vec![],
            data: vec![250, 234, 13, 123, 213, 156, 19, 236],
        },
    ];
    input.inner_instructions = vec![InnerInstructionsInput {
        index: 0,
        instructions: vec![InstructionInput {
            program_id_index: 0,
            accounts: vec![],
            data: vec![149, 39, 222, 155, 211, 124, 152, 26],
        }],
    }];
    let parsed = decode_transaction(&input);
    let target = raydium_launchpad_program().to_string();
    let hits = find_target_instructions(&parsed, &target, &vec![]);
    assert_eq!(
        hits,
        vec![
            ClassifiedInstruction {
                kind: RaydiumInstructionType::BuyExactIn,
                site: InstructionSite::TopLevel { index: 1 },
            },
            ClassifiedInstruction {
                kind: RaydiumInstructionType::SellExactIn,
                site: InstructionSite::Inner { group: 0, index: 0 },
            },
        ]
    );
}

#[test]
fn scan_kind_filter_narrows_hits() {
    let mut input = empty_input();
    input.account_keys = vec![RAYDIUM_PROGRAM_BYTES.to_vec()];
    input.instructions = vec![
        InstructionInput {
            program_id_index: 0,
            accounts: vec![],
            data: vec![250, 234, 13, 123, 213, 156, 19, 236],
        },
        InstructionInput {
            program_id_index: 0,
            accounts: vec![],
            data: vec![149, 39, 222, 155, 211, 124, 152, 26],
        },
    ];
    let parsed = decode_transaction(&input);
    let target = raydium_launchpad_program().to_string();
    let kinds = vec![RaydiumInstructionType::SellExactIn];
    let hits = find_target_instructions(&parsed, &target, &kinds);
    assert_eq!(hits.len(), 1);
    assert_eq!(hits[0].kind, RaydiumInstructionType::SellExactIn);
    assert_eq!(hits[0].site, InstructionSite::TopLevel { index: 1 });
}

#[test]
fn scan_skips_other_programs() {
    let mut input = empty_input();
    input.account_keys = vec![vec![0u8; 32]];
    input.instructions = vec![InstructionInput {
        program_id_index: 0,
        accounts: vec![],
        data: vec![250, 234, 13, 123, 213, 156, 19, 236],
    }];
    let parsed = decode_transaction(&input);
    let target = raydium_launchpad_program().to_string();
    let hits = find_target_instructions(&parsed, &target, &vec![]);
    assert!(hits.is_empty());
}
