//! The programs and accounts that the library names, each as the text that
//! operators read and as the 32 bytes that the ledger uses.

use vstd::prelude::*;

verus! {

pub const METEORA_PROGRAM_ADDR: &'static str = "Eo7WjKq67rjJQSZxS6z3YkapzY3eMj6Xy8X5EQVn5UaB";

pub const PUMP_FUN_PROGRAM_ADDR: &'static str = "6EF8rrecthR5Dkzon8Nwu78hRvfCKubJ14M5uBEwF6P";

pub const WSOL_ACCOUNT_ADDR: &'static str = "So11111111111111111111111111111111111111112";

pub const SYSTEM_PROGRAM_ADDR: &'static str = "11111111111111111111111111111111";

pub const TOKEN_PROGRAM_ADDR: &'static str = "TokenkegQfeZyiNwAJbNbGKPFXCWuBvf9Ss623VQ5DA";

pub const ASSOCIATED_TOKEN_PROGRAM_ADDR: &'static str = "ATokenGPvbdGVxr1b2hvZbsiqW5xWH25efTNsLJA8knL";

pub const COMPUTE_BUDGET_PROGRAM_ADDR: &'static str = "ComputeBudget111111111111111111111111111111";

pub const RENT_ADDR: &'static str = "SysvarRent111111111111111111111111111111111";

pub const JITO_TIP_ADDR: &'static str = "96gYZGLnJYVFmbjzopPSU6QiEV5fGqZNyN9nmNhvrZU5";

pub const BLOXROUTE_TIP_ADDR: &'static str = "HWEoBxYs7ssKuudEjzjmpfJVX7Dvi7wescFsVx2L5yoY";

pub const NEXTBLOCK_BLOCK_TIP_ADDR: &'static str = "NextbLoCkVtMGcV47JzewQdvBpLqT9TxQFozQkN98pE";

/// The pool program.
pub const METEORA_PROGRAM_ID: [u8; 32] = [
    204, 248, 2, 212, 204, 204, 132, 215, 251, 33, 181, 247, 59, 73, 216, 26,
    22, 197, 180, 200, 142, 227, 35, 148, 225, 201, 29, 53, 136, 204, 64, 128,
];

/// The bonding-curve program.
pub const PUMPFUN_PROGRAM_ID: [u8; 32] = [
    1, 86, 224, 246, 147, 102, 90, 207, 68, 219, 21, 104, 191, 23, 91, 170,
    81, 137, 203, 151, 245, 210, 255, 59, 101, 93, 43, 182, 253, 109, 24, 176,
];

/// The mint of the wrapped native token.
pub const WSOL_ACCOUNT_ID: [u8; 32] = [
    6, 155, 136, 87, 254, 171, 129, 132, 251, 104, 127, 99, 70, 24, 192, 53,
    218, 196, 57, 220, 26, 235, 59, 85, 152, 160, 240, 0, 0, 0, 0, 1,
];

/// The system program.
pub const SYSTEM_PROGRAM_ID: [u8; 32] = [
    0, 0, 0, 0, 0, 0, 0, 0, 0, 0, 0, 0, 0, 0, 0, 0,
    0, 0, 0, 0, 0, 0, 0, 0, 0, 0, 0, 0, 0, 0, 0, 0,
];

/// The token program.
pub const TOKEN_PROGRAM_ID: [u8; 32] = [
    6, 221, 246, 225, 215, 101, 161, 147, 217, 203, 225, 70, 206, 235, 121, 172,
    28, 180, 133, 237, 95, 91, 55, 145, 58, 140, 245, 133, 126, 255, 0, 169,
];

/// The program that owns the token accounts derived for a wallet.
pub const ASSOCIATED_TOKEN_PROGRAM_ID: [u8; 32] = [
    140, 151, 37, 143, 78, 36, 137, 241, 187, 61, 16, 41, 20, 142, 13, 131,
    11, 90, 19, 153, 218, 255, 16, 132, 4, 142, 123, 216, 219, 233, 248, 89,
];

/// The compute-budget program.
pub const COMPUTE_BUDGET_PROGRAM_ID: [u8; 32] = [
    3, 6, 70, 111, 229, 33, 23, 50, 255, 236, 173, 186, 114, 195, 155, 231,
    188, 140, 229, 187, 197, 247, 18, 107, 44, 67, 155, 58, 64, 0, 0, 0,
];

/// The account that takes the tip of the bundle relay.
pub const JITO_TIP_ID: [u8; 32] = [
    120, 82, 28, 177, 121, 206, 187, 133, 137, 181, 86, 162, 213, 236, 148, 210,
    73, 134, 130, 253, 249, 187, 42, 245, 173, 100, 228, 145, 204, 65, 83, 218,
];

/// The account that takes the tip of the first content relay.
pub const BLOXROUTE_TIP_ID: [u8; 32] = [
    245, 56, 111, 18, 189, 151, 85, 159, 134, 228, 110, 186, 19, 120, 123, 40,
    248, 211, 194, 66, 104, 230, 185, 241, 3, 102, 126, 31, 160, 85, 40, 155,
];

/// The account that takes the tip of the second content relay.
pub const NEXTBLOCK_BLOCK_TIP_ID: [u8; 32] = [
    5, 140, 31, 97, 169, 139, 148, 66, 188, 231, 112, 168, 39, 137, 75, 107,
    120, 93, 138, 204, 221, 68, 73, 236, 240, 93, 176, 21, 1, 76, 224, 95,
];

} // verus!
