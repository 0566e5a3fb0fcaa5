//! The program's entry: parse the input, pick the instruction by the first
//! byte of the instruction data and run its first stage.
use vstd::prelude::*;
use vstd::slice::{slice_subrange, slice_to_vec};
use crate::account::{
    Account, parse_input, input_well_formed, dup_markers_in_range, parsed_count, parsed_account,
    ix_len_offset, ix_len,
};
use crate::instructions::Step;
use crate::instructions::initialize::{
    process_initialize_instruction, initialize_requires, initialize_ensures,
    initialize_requirements_hold,
};
use crate::instructions::contribute::{
    process_contribute_instruction, contribute_requires, contribute_ensures,
    contribute_requirements_hold,
};
use crate::instructions::checker::{
    process_checker_instruction, checker_requires, checker_ensures, checker_requirements_hold,
};
use crate::instructions::refund::{
    process_refund_instruction, refund_requires, refund_ensures, refund_requirements_hold,
};

verus! {

/// The accounts array before parsing: every entry null.
pub open spec fn null_accounts() -> Seq<Account> {
    Seq::new(10, |i: int| Account(0))
}

/// The accounts array the instructions receive.
pub open spec fn entry_accounts(s: Seq<u8>) -> Seq<Account> {
    Seq::new(
        10,
        |i: int|
            if i < parsed_count(s) {
                parsed_account(s, i as nat, null_accounts())
            } else {
                Account(0)
            },
    )
}

/// The instruction data: the discriminator byte followed by the
/// instruction's own data.
pub open spec fn ix_data_of(s: Seq<u8>) -> Seq<u8> {
    s.subrange(ix_len_offset(s) + 8, ix_len_offset(s) + 8 + ix_len(s))
}

/// What the selected instruction needs of the input.
pub open spec fn entry_requires(s: Seq<u8>) -> bool {
    let ix = ix_data_of(s);
    let accounts = entry_accounts(s);
    let data = ix.drop_first();
    ix.len() > 0 ==> {
        &&& ix[0] == 0 ==> initialize_requires(s, accounts, data)
        &&& ix[0] == 1 ==> contribute_requires(s, accounts, data)
        &&& ix[0] == 2 ==> checker_requires(s, accounts.take(9), data)
        &&& ix[0] == 3 ==> refund_requires(s, accounts, data)
    }
}

/// What the entry does: error 4 for empty instruction data or an unknown
/// discriminator, and otherwise what the selected instruction does.
pub open spec fn entry_ensures(s: Seq<u8>, r: Step, t: Seq<u8>) -> bool {
    let ix = ix_data_of(s);
    let accounts = entry_accounts(s);
    let data = ix.drop_first();
    if ix.len() == 0 {
        r == Step::Done(Err(4)) && t == s
    } else if ix[0] == 0 {
        initialize_ensures(s, accounts, data, r, t)
    } else if ix[0] == 1 {
        contribute_ensures(s, accounts, data, r, t)
    } else if ix[0] == 2 {
        checker_ensures(s, accounts.take(9), data, r, t)
    } else if ix[0] == 3 {
        refund_ensures(s, accounts, data, r, t)
    } else {
        r == Step::Done(Err(4)) && t == s
    }
}

/// The accounts and instruction data of a well-formed input.
fn parse_entry(input: &[u8]) -> (r: ([Account; 10], Vec<u8>))
    requires
        input_well_formed(input@),
        dup_markers_in_range(input@),
    ensures
        r.0@ == entry_accounts(input@),
        r.1@ == ix_data_of(input@),
{
    let mut accounts = [
        Account(0),
        Account(0),
        Account(0),
        Account(0),
        Account(0),
        Account(0),
        Account(0),
        Account(0),
        Account(0),
        Account(0),
    ];
    proof {
        assert(accounts@ =~= null_accounts());
    }
    let (ix_off, ix_len, _program_id) = parse_input(input, &mut accounts);
    let ix_data = slice_to_vec(slice_subrange(input, ix_off, ix_off + ix_len));
    proof {
        assert(accounts@ =~= entry_accounts(input@));
    }
    (accounts, ix_data)
}

/// The first nine entries of the accounts array.
fn first_nine(accounts: &[Account; 10]) -> (r: [Account; 9])
    ensures
        r@ == accounts@.take(9),
{
    let r = [
        accounts[0],
        accounts[1],
        accounts[2],
        accounts[3],
        accounts[4],
        accounts[5],
        accounts[6],
        accounts[7],
        accounts[8],
    ];
    proof {
        assert(r@ =~= accounts@.take(9));
    }
    r
}

/// Whether the input meets what the selected instruction needs.
pub fn entry_requirements_hold(input: &[u8]) -> (r: bool)
    requires
        input_well_formed(input@),
        dup_markers_in_range(input@),
    ensures
        r == entry_requires(input@),
{
    let (accounts, ix_data) = parse_entry(input);
    if ix_data.len() == 0 {
        return true;
    }
    let data = slice_subrange(ix_data.as_slice(), 1, ix_data.len());
    proof {
        assert(data@ =~= ix_data@.drop_first());
    }
    match ix_data[0] {
        0 => initialize_requirements_hold(&accounts, input, data),
        1 => contribute_requirements_hold(&accounts, input, data),
        2 => checker_requirements_hold(&first_nine(&accounts), input, data),
        3 => refund_requirements_hold(&accounts, input, data),
        _ => true,
    }
}

/// Parses the input and runs the first stage of the instruction that the
/// first byte of the instruction data selects: 0 initialize, 1 contribute,
/// 2 checker, 3 refund. Empty instruction data and any other byte give
/// error 4.
pub fn entrypoint(input: &mut [u8]) -> (r: Step)
    requires
        input_well_formed(old(input)@),
        dup_markers_in_range(old(input)@),
        entry_requires(old(input)@),
    ensures
        entry_ensures(old(input)@, r, final(input)@),
{
    let (accounts, ix_data) = parse_entry(input);
    if ix_data.len() == 0 {
        return Step::Done(Err(4));
    }
    let discriminator = ix_data[0];
    let data = slice_subrange(ix_data.as_slice(), 1, ix_data.len());
    proof {
        assert(data@ =~= ix_data@.drop_first());
    }
    match discriminator {
        0 => process_initialize_instruction(&accounts, input, data),
        1 => process_contribute_instruction(&accounts, input, data),
        2 => process_checker_instruction(&first_nine(&accounts), input, data),
        3 => process_refund_instruction(&accounts, input, data),
        _ => Step::Done(Err(4)),
    }
}

/// The value the program returns to the runtime: 0 for success, the error
/// code otherwise.
pub fn exit_code(result: Result<(), u32>) -> (r: u64)
    ensures
        match result {
            Ok(()) => r == 0,
            Err(e) => r == e,
        },
{
    match result {
        Ok(()) => 0,
        Err(e) => e as u64,
    }
}

} // verus!
