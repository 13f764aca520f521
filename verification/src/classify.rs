use vstd::prelude::*;

verus! {

/// The classified kind of one instruction of the launch-pad program, read off
/// the 8-byte discriminator that prefixes its data. `Unknown` carries the raw
/// discriminator that did not match: the actual first 8 bytes, or all zero
/// when the data held fewer than 8 bytes.
#[derive(Clone, Copy, Debug, PartialEq, Eq)]
pub enum RaydiumInstructionType {
    Initialize,
    BuyExactIn,
    BuyExactOut,
    SellExactIn,
    SellExactOut,
    ClaimPlatformFee,
    ClaimVestedToken,
    CollectFee,
    CollectMigrateFee,
    CreateConfig,
    CreatePlatformConfig,
    CreateVestingAccount,
    MigrateToAmm,
    MigrateToCpswap,
    UpdateConfig,
    UpdatePlatformConfig,
    Unknown([u8; 8]),
}

/// The instruction kind a discriminator maps to under the fixed table of the
/// 16 known instructions, or `None` when it matches no entry.
pub open spec fn spec_known_kind(d: Seq<u8>) -> Option<RaydiumInstructionType> {
    if d[0] == 175 && d[1] == 175 && d[2] == 109 && d[3] == 31 && d[4] == 13 && d[5] == 152 && d[6] == 155 && d[7] == 237 {
        Some(RaydiumInstructionType::Initialize)
    } else if d[0] == 250 && d[1] == 234 && d[2] == 13 && d[3] == 123 && d[4] == 213 && d[5] == 156 && d[6] == 19 && d[7] == 236 {
        Some(RaydiumInstructionType::BuyExactIn)
    } else if d[0] == 24 && d[1] == 211 && d[2] == 116 && d[3] == 40 && d[4] == 105 && d[5] == 3 && d[6] == 153 && d[7] == 56 {
        Some(RaydiumInstructionType::BuyExactOut)
    } else if d[0] == 149 && d[1] == 39 && d[2] == 222 && d[3] == 155 && d[4] == 211 && d[5] == 124 && d[6] == 152 && d[7] == 26 {
        Some(RaydiumInstructionType::SellExactIn)
    } else if d[0] == 95 && d[1] == 200 && d[2] == 71 && d[3] == 34 && d[4] == 8 && d[5] == 9 && d[6] == 11 && d[7] == 166 {
        Some(RaydiumInstructionType::SellExactOut)
    } else if d[0] == 156 && d[1] == 39 && d[2] == 208 && d[3] == 135 && d[4] == 76 && d[5] == 237 && d[6] == 61 && d[7] == 72 {
        Some(RaydiumInstructionType::ClaimPlatformFee)
    } else if d[0] == 49 && d[1] == 33 && d[2] == 104 && d[3] == 30 && d[4] == 189 && d[5] == 157 && d[6] == 79 && d[7] == 35 {
        Some(RaydiumInstructionType::ClaimVestedToken)
    } else if d[0] == 60 && d[1] == 173 && d[2] == 247 && d[3] == 103 && d[4] == 4 && d[5] == 93 && d[6] == 130 && d[7] == 48 {
        Some(RaydiumInstructionType::CollectFee)
    } else if d[0] == 255 && d[1] == 186 && d[2] == 150 && d[3] == 223 && d[4] == 235 && d[5] == 118 && d[6] == 201 && d[7] == 186 {
        Some(RaydiumInstructionType::CollectMigrateFee)
    } else if d[0] == 201 && d[1] == 207 && d[2] == 243 && d[3] == 114 && d[4] == 75 && d[5] == 111 && d[6] == 47 && d[7] == 189 {
        Some(RaydiumInstructionType::CreateConfig)
    } else if d[0] == 176 && d[1] == 90 && d[2] == 196 && d[3] == 175 && d[4] == 253 && d[5] == 113 && d[6] == 220 && d[7] == 20 {
        Some(RaydiumInstructionType::CreatePlatformConfig)
    } else if d[0] == 129 && d[1] == 178 && d[2] == 2 && d[3] == 13 && d[4] == 217 && d[5] == 172 && d[6] == 230 && d[7] == 218 {
        Some(RaydiumInstructionType::CreateVestingAccount)
    } else if d[0] == 207 && d[1] == 82 && d[2] == 192 && d[3] == 145 && d[4] == 254 && d[5] == 207 && d[6] == 145 && d[7] == 223 {
        Some(RaydiumInstructionType::MigrateToAmm)
    } else if d[0] == 136 && d[1] == 92 && d[2] == 200 && d[3] == 103 && d[4] == 28 && d[5] == 218 && d[6] == 144 && d[7] == 140 {
        Some(RaydiumInstructionType::MigrateToCpswap)
    } else if d[0] == 29 && d[1] == 158 && d[2] == 252 && d[3] == 191 && d[4] == 10 && d[5] == 83 && d[6] == 219 && d[7] == 99 {
        Some(RaydiumInstructionType::UpdateConfig)
    } else if d[0] == 195 && d[1] == 60 && d[2] == 76 && d[3] == 129 && d[4] == 146 && d[5] == 45 && d[6] == 67 && d[7] == 143 {
        Some(RaydiumInstructionType::UpdatePlatformConfig)
    } else {
        None
    }
}

/// Whether the first 8 bytes of `data` are exactly the given discriminator.
fn disc_matches(
    data: &[u8],
    b0: u8,
    b1: u8,
    b2: u8,
    b3: u8,
    b4: u8,
    b5: u8,
    b6: u8,
    b7: u8,
) -> (r: bool)
    requires
        data@.len() >= 8,
    ensures
        r == (data@[0] == b0 && data@[1] == b1 && data@[2] == b2 && data@[3] == b3 && data@[4]
            == b4 && data@[5] == b5 && data@[6] == b6 && data@[7] == b7),
{
    data[0] == b0 && data[1] == b1 && data[2] == b2 && data[3] == b3 && data[4] == b4 && data[5]
        == b5 && data[6] == b6 && data[7] == b7
}

/// Maps an instruction-data buffer to its kind: fewer than 8 bytes is the
/// insufficient-data sentinel, `Unknown` with an all-zero discriminator;
/// otherwise the first 8 bytes verbatim are looked up in the fixed table, and
/// a miss is `Unknown` carrying those exact bytes. Total: never fails.
pub fn classify_instruction(data: &[u8]) -> (t: RaydiumInstructionType)
    ensures
        data@.len() < 8 ==> (t matches RaydiumInstructionType::Unknown(d) && d@ == Seq::new(
            8,
            |i: int| 0u8,
        )),
        data@.len() >= 8 ==> match spec_known_kind(data@.take(8)) {
            Some(k) => t == k,
            None => t matches RaydiumInstructionType::Unknown(d) && d@ == data@.take(8),
        },
{
    if data.len() < 8 {
        let zero: [u8; 8] = [0, 0, 0, 0, 0, 0, 0, 0];
        proof {
            assert(zero@ =~= Seq::new(8, |i: int| 0u8));
        }
        return RaydiumInstructionType::Unknown(zero);
    }
    proof {
        assert(forall|i: int| 0 <= i < 8 ==> data@.take(8)[i] == data@[i]);
    }
    if disc_matches(data, 175, 175, 109, 31, 13, 152, 155, 237) {
        return RaydiumInstructionType::Initialize;
    }
    if disc_matches(data, 250, 234, 13, 123, 213, 156, 19, 236) {
        return RaydiumInstructionType::BuyExactIn;
    }
    if disc_matches(data, 24, 211, 116, 40, 105, 3, 153, 56) {
        return RaydiumInstructionType::BuyExactOut;
    }
    if disc_matches(data, 149, 39, 222, 155, 211, 124, 152, 26) {
        return RaydiumInstructionType::SellExactIn;
    }
    if disc_matches(data, 95, 200, 71, 34, 8, 9, 11, 166) {
        return RaydiumInstructionType::SellExactOut;
    }
    if disc_matches(data, 156, 39, 208, 135, 76, 237, 61, 72) {
        return RaydiumInstructionType::ClaimPlatformFee;
    }
    if disc_matches(data, 49, 33, 104, 30, 189, 157, 79, 35) {
        return RaydiumInstructionType::ClaimVestedToken;
    }
    if disc_matches(data, 60, 173, 247, 103, 4, 93, 130, 48) {
        return RaydiumInstructionType::CollectFee;
    }
    if disc_matches(data, 255, 186, 150, 223, 235, 118, 201, 186) {
        return RaydiumInstructionType::CollectMigrateFee;
    }
    if disc_matches(data, 201, 207, 243, 114, 75, 111, 47, 189) {
        return RaydiumInstructionType::CreateConfig;
    }
    if disc_matches(data, 176, 90, 196, 175, 253, 113, 220, 20) {
        return RaydiumInstructionType::CreatePlatformConfig;
    }
    if disc_matches(data, 129, 178, 2, 13, 217, 172, 230, 218) {
        return RaydiumInstructionType::CreateVestingAccount;
    }
    if disc_matches(data, 207, 82, 192, 145, 254, 207, 145, 223) {
        return RaydiumInstructionType::MigrateToAmm;
    }
    if disc_matches(data, 136, 92, 200, 103, 28, 218, 144, 140) {
        return RaydiumInstructionType::MigrateToCpswap;
    }
    if disc_matches(data, 29, 158, 252, 191, 10, 83, 219, 99) {
        return RaydiumInstructionType::UpdateConfig;
    }
    if disc_matches(data, 195, 60, 76, 129, 146, 45, 67, 143) {
        return RaydiumInstructionType::UpdatePlatformConfig;
    }
    let d: [u8; 8] = [data[0], data[1], data[2], data[3], data[4], data[5], data[6], data[7]];
    proof {
        assert(d@ =~= data@.take(8));
    }
    RaydiumInstructionType::Unknown(d)
}

/// Equality of two instruction kinds: variant identity, and for two `Unknown`
/// values equality of the carried discriminator bytes.
pub fn kind_eq(a: &RaydiumInstructionType, b: &RaydiumInstructionType) -> (r: bool)
    ensures
        r == (a == b),
{
    match (a, b) {
        (RaydiumInstructionType::Initialize, RaydiumInstructionType::Initialize) => true,
        (RaydiumInstructionType::BuyExactIn, RaydiumInstructionType::BuyExactIn) => true,
        (RaydiumInstructionType::BuyExactOut, RaydiumInstructionType::BuyExactOut) => true,
        (RaydiumInstructionType::SellExactIn, RaydiumInstructionType::SellExactIn) => true,
        (RaydiumInstructionType::SellExactOut, RaydiumInstructionType::SellExactOut) => true,
        (RaydiumInstructionType::ClaimPlatformFee, RaydiumInstructionType::ClaimPlatformFee) => true,
        (RaydiumInstructionType::ClaimVestedToken, RaydiumInstructionType::ClaimVestedToken) => true,
        (RaydiumInstructionType::CollectFee, RaydiumInstructionType::CollectFee) => true,
        (RaydiumInstructionType::CollectMigrateFee, RaydiumInstructionType::CollectMigrateFee) => true,
        (RaydiumInstructionType::CreateConfig, RaydiumInstructionType::CreateConfig) => true,
        (RaydiumInstructionType::CreatePlatformConfig, RaydiumInstructionType::CreatePlatformConfig) => true,
        (RaydiumInstructionType::CreateVestingAccount, RaydiumInstructionType::CreateVestingAccount) => true,
        (RaydiumInstructionType::MigrateToAmm, RaydiumInstructionType::MigrateToAmm) => true,
        (RaydiumInstructionType::MigrateToCpswap, RaydiumInstructionType::MigrateToCpswap) => true,
        (RaydiumInstructionType::UpdateConfig, RaydiumInstructionType::UpdateConfig) => true,
        (RaydiumInstructionType::UpdatePlatformConfig, RaydiumInstructionType::UpdatePlatformConfig) => true,
        (RaydiumInstructionType::Unknown(x), RaydiumInstructionType::Unknown(y)) => {
            let e = x[0] == y[0] && x[1] == y[1] && x[2] == y[2] && x[3] == y[3] && x[4] == y[4]
                && x[5] == y[5] && x[6] == y[6] && x[7] == y[7];
            proof {
                if e {
                    assert(*x =~= *y);
                }
            }
            e
        },
        _ => false,
    }
}

} // verus!
