//! The addresses of programs and of the accounts of the runtime.
use vstd::prelude::*;

use crate::address::Address;

verus! {

/// The system program.
/// `11111111111111111111111111111111`
pub const SYSTEM_PROGRAM: Address = [
    0, 0, 0, 0, 0, 0, 0, 0, 0, 0, 0, 0, 0, 0, 0, 0,
    0, 0, 0, 0, 0, 0, 0, 0, 0, 0, 0, 0, 0, 0, 0, 0,
];

/// The stake program.
/// `Stake11111111111111111111111111111111111111`
pub const STAKE_PROGRAM: Address = [
    6, 161, 216, 23, 145, 55, 84, 42, 152, 52, 55, 189, 254, 42, 122, 178,
    85, 127, 83, 92, 138, 120, 114, 43, 104, 164, 157, 192, 0, 0, 0, 0,
];

/// The token program.
/// `TokenkegQfeZyiNwAJbNbGKPFXCWuBvf9Ss623VQ5DA`
pub const TOKEN_PROGRAM: Address = [
    6, 221, 246, 225, 215, 101, 161, 147, 217, 203, 225, 70, 206, 235, 121, 172,
    28, 180, 133, 237, 95, 91, 55, 145, 58, 140, 245, 133, 126, 255, 0, 169,
];

/// The token program with extensions.
/// `TokenzQdBNbLqP5VEhdkAS6EPFLC1PHnBqCXEpPxuEb`
pub const TOKEN_2022_PROGRAM: Address = [
    6, 221, 246, 225, 238, 117, 143, 222, 24, 66, 93, 188, 228, 108, 205, 218,
    182, 26, 252, 77, 131, 185, 13, 39, 254, 189, 249, 40, 216, 161, 139, 252,
];

/// The associated token account program.
/// `ATokenGPvbdGVxr1b2hvZbsiqW5xWH25efTNsLJA8knL`
pub const ASSOCIATED_TOKEN_PROGRAM: Address = [
    140, 151, 37, 143, 78, 36, 137, 241, 187, 61, 16, 41, 20, 142, 13, 131,
    11, 90, 19, 153, 218, 255, 16, 132, 4, 142, 123, 216, 219, 233, 248, 89,
];

/// The compute budget program.
/// `ComputeBudget111111111111111111111111111111`
pub const COMPUTE_BUDGET_PROGRAM: Address = [
    3, 6, 70, 111, 229, 33, 23, 50, 255, 236, 173, 186, 114, 195, 155, 231,
    188, 140, 229, 187, 197, 247, 18, 107, 44, 67, 155, 58, 64, 0, 0, 0,
];

/// The stake pool program on the main cluster.
/// `SPoo1Ku8WFXoNDMHPsrGSTSG1Y47rzgn41SLUNakuHy`
pub const STAKE_POOL_PROGRAM: Address = [
    6, 129, 78, 212, 202, 246, 138, 23, 70, 114, 253, 172, 134, 3, 26, 99,
    232, 78, 161, 94, 250, 29, 68, 183, 34, 147, 246, 219, 219, 0, 22, 80,
];

/// The stake pool program on the development cluster.
/// `DPoo15wWDqpPJJtS2MUZ49aRxqz5ZaaJCJP4z8bLuib`
pub const STAKE_POOL_DEVNET_PROGRAM: Address = [
    3, 44, 193, 229, 244, 147, 104, 86, 90, 217, 172, 54, 132, 195, 254, 171,
    202, 127, 228, 56, 170, 164, 31, 64, 158, 24, 93, 79, 72, 162, 144, 244,
];

/// The account that holds the rent parameters.
/// `SysvarRent111111111111111111111111111111111`
pub const RENT_SYSVAR: Address = [
    6, 167, 213, 23, 25, 44, 92, 81, 33, 140, 201, 76, 61, 74, 241, 127,
    88, 218, 238, 8, 155, 161, 253, 68, 227, 219, 217, 138, 0, 0, 0, 0,
];

/// The account that holds the clock.
/// `SysvarC1ock11111111111111111111111111111111`
pub const CLOCK_SYSVAR: Address = [
    6, 167, 213, 23, 24, 199, 116, 201, 40, 86, 99, 152, 105, 29, 94, 182,
    139, 94, 184, 163, 155, 75, 109, 92, 115, 85, 91, 33, 0, 0, 0, 0,
];

/// The account that holds the history of stakes.
/// `SysvarStakeHistory1111111111111111111111111`
pub const STAKE_HISTORY_SYSVAR: Address = [
    6, 167, 213, 23, 25, 53, 132, 208, 254, 237, 155, 179, 67, 29, 19, 32,
    107, 229, 68, 40, 27, 87, 184, 86, 108, 197, 55, 95, 244, 0, 0, 0,
];

/// The account that held the parameters of stakes.
/// `StakeConfig11111111111111111111111111111111`
pub const STAKE_CONFIG: Address = [
    6, 161, 216, 23, 165, 2, 5, 11, 104, 7, 145, 230, 206, 109, 184, 142,
    30, 91, 113, 80, 246, 31, 198, 121, 10, 78, 180, 209, 0, 0, 0, 0,
];

/// The program that holds the metadata of tokens.
/// `metaqbxxUerdq28cj1RbAWkYQm3ybzjb6a8bt518x1s`
pub const TOKEN_METADATA_PROGRAM: Address = [
    11, 112, 101, 177, 227, 209, 124, 69, 56, 157, 82, 127, 107, 4, 195, 205,
    88, 184, 108, 115, 26, 160, 253, 181, 73, 182, 209, 188, 3, 248, 41, 70,
];

} // verus!
