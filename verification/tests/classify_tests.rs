use pool_signal::classify::{classify_instruction, kind_eq, RaydiumInstructionType};

#[test]
fn empty_buffer_is_unknown_all_zero() {
    let empty: [u8; 0] = [];
    assert_eq!(
        classify_instruction(&empty),
        RaydiumInstructionType::Unknown([0, 0, 0, 0, 0, 0, 0, 0])
    );
}

#[test]
fn seven_byte_buffer_is_unknown_all_zero() {
    let short = [250u8, 234, 13, 123, 213, 156, 19];
    assert_eq!(
        classify_instruction(&short),
        RaydiumInstructionType::Unknown([0, 0, 0, 0, 0, 0, 0, 0])
    );
}

#[test]
fn all_sixteen_known_discriminators_classify() {
    let cases: [([u8; 8], RaydiumInstructionType); 16] = [
        ([175, 175, 109, 31, 13, 152, 155, 237], RaydiumInstructionType::Initialize),
        ([250, 234, 13, 123, 213, 156, 19, 236], RaydiumInstructionType::BuyExactIn),
        ([24, 211, 116, 40, 105, 3, 153, 56], RaydiumInstructionType::BuyExactOut),
        ([149, 39, 222, 155, 211, 124, 152, 26], RaydiumInstructionType::SellExactIn),
        ([95, 200, 71, 34, 8, 9, 11, 166], RaydiumInstructionType::SellExactOut),
        ([156, 39, 208, 135, 76, 237, 61, 72], RaydiumInstructionType::ClaimPlatformFee),
        ([49, 33, 104, 30, 189, 157, 79, 35], RaydiumInstructionType::ClaimVestedToken),
        ([60, 173, 247, 103, 4, 93, 130, 48], RaydiumInstructionType::CollectFee),
        ([255, 186, 150, 223, 235, 118, 201, 186], RaydiumInstructionType::CollectMigrateFee),
        ([201, 207, 243, 114, 75, 111, 47, 189], RaydiumInstructionType::CreateConfig),
        ([176, 90, 196, 175, 253, 113, 220, 20], RaydiumInstructionType::CreatePlatformConfig),
        ([129, 178, 2, 13, 217, 172, 230, 218], RaydiumInstructionType::CreateVestingAccount),
        ([207, 82, 192, 145, 254, 207, 145, 223], RaydiumInstructionType::MigrateToAmm),
        ([136, 92, 200, 103, 28, 218, 144, 140], RaydiumInstructionType::MigrateToCpswap),
        ([29, 158, 252, 191, 10, 83, 219, 99], RaydiumInstructionType::UpdateConfig),
        ([195, 60, 76, 129, 146, 45, 67, 143], RaydiumInstructionType::UpdatePlatformConfig),
    ];
    for (disc, kind) in cases.iter() {
        assert_eq!(classify_instruction(disc), *kind);
    }
}

#[test]
fn known_discriminator_with_payload_still_classifies() {
    let mut data = vec![250u8, 234, 13, 123, 213, 156, 19, 236];
    data.extend_from_slice(&[1, 2, 3, 4, 5]);
    assert_eq!(classify_instruction(&data), RaydiumInstructionType::BuyExactIn);
}

#[test]
fn unknown_discriminator_round_trips_exact_bytes() {
    let data = [9u8, 8, 7, 6, 5, 4, 3, 2, 1, 0];
    assert_eq!(
        classify_instruction(&data),
        RaydiumInstructionType::Unknown([9, 8, 7, 6, 5, 4, 3, 2])
    );
}

#[test]
fn kind_eq_compares_unknown_bytes() {
    let a = RaydiumInstructionType::Unknown([1, 2, 3, 4, 5, 6, 7, 8]);
    let b = RaydiumInstructionType::Unknown([1, 2, 3, 4, 5, 6, 7, 8]);
    let c = RaydiumInstructionType::Unknown([1, 2, 3, 4, 5, 6, 7, 9]);
    assert!(kind_eq(&a, &b));
    assert!(!kind_eq(&a, &c));
    assert!(!kind_eq(&a, &RaydiumInstructionType::BuyExactIn));
    assert!(kind_eq(&RaydiumInstructionType::CollectFee, &RaydiumInstructionType::CollectFee));
}
