//! Safe, verified core of a token fundraiser program: the byte layout of the
//! runtime's input buffer, the fundraiser and contributor records, and the
//! decisions of the four instructions.
use vstd::prelude::*;

pub mod asm_ops;
pub mod account;
pub mod constants;
pub mod instructions;
pub mod entry;
pub mod laws;
pub mod state;

pub use asm_ops::{
    branchless_max, copy32, keys_equal, keys_equal_asm, read_clock_timestamp, read_i64_at,
    read_mint_decimals, read_token_amount, read_u64_at, sub_unchecked, validate_ata, write_u64_at,
};
pub use state::contributor::Contributor;
pub use state::fundraiser::Fundraiser;
pub use account::Account;
pub use entry::entrypoint;
pub use instructions::initialize::process_initialize_instruction;
pub use instructions::contribute::process_contribute_instruction;
pub use instructions::checker::process_checker_instruction;
pub use instructions::refund::process_refund_instruction;

verus! {

/// The program's own address.
pub const ID_BYTES: [u8; 32] = [
    120, 67, 22, 98, 110, 201, 187, 203, 87, 237, 248, 37, 203, 199, 49, 23, 134, 97, 209, 76,
    143, 200, 135, 105, 239, 131, 29, 202, 149, 43, 214, 117,
];

} // verus!
