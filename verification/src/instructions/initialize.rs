//! Initialize: create the fundraiser account and its vault.
use vstd::prelude::*;
use crate::account::Account;
use crate::asm_ops::{read_u64_at, read_i64_at, read_key, read_mint_decimals, u64_at, i64_at};
use crate::constants::{MIN_AMOUNT_TO_RAISE, FUNDRAISER_RENT_EXEMPT};
use crate::state::fundraiser::Fundraiser;
use crate::instructions::{Cpi, SeedLabel, SignerSeeds, Stage, Step, owned_by_program, account_fits};
use crate::ID_BYTES;

verus! {

/// `10` to the power `n`.
pub open spec fn pow10(n: nat) -> nat
    decreases n,
{
    if n == 0 {
        1
    } else {
        10 * pow10((n - 1) as nat)
    }
}

/// Powers of ten for the decimals a mint may have here.
pub const POWERS_OF_10: [u64; 10] = [
    1,
    10,
    100,
    1_000,
    10_000,
    100_000,
    1_000_000,
    10_000_000,
    100_000_000,
    1_000_000_000,
];

/// The table holds the powers of ten.
proof fn lemma_powers_of_10(d: int)
    requires
        0 <= d < 10,
    ensures
        POWERS_OF_10@[d] == pow10(d as nat),
{
    reveal_with_fuel(pow10, 11);
}

/// The decimals of the mint account.
pub open spec fn decimals_of(s: Seq<u8>, mint: Account) -> u8 {
    s[mint.spec_data() + 44]
}

/// The smallest target the fundraiser accepts: `MIN_AMOUNT_TO_RAISE` whole
/// tokens of the mint.
pub open spec fn min_target(s: Seq<u8>, mint: Account) -> int {
    MIN_AMOUNT_TO_RAISE * pow10(decimals_of(s, mint) as nat)
}

/// Accounts: maker, mint, fundraiser, vault, system program, token program.
/// Data: target (`u64`), start time (`i64`), duration in days, bump.
pub open spec fn initialize_requires(s: Seq<u8>, accounts: Seq<Account>, data: Seq<u8>) -> bool {
    let maker = accounts[0];
    let mint_to_raise = accounts[1];
    let fundraiser = accounts[2];
    &&& fundraiser.is_valid(s)
    &&& !owned_by_program(s, fundraiser) ==> {
        &&& data.len() >= 18
        &&& maker.is_valid(s)
        &&& mint_to_raise.is_valid(s)
        &&& decimals_of(s, mint_to_raise) < 10
    }
}

/// What the instruction does, relating the input `s` before it to the input
/// `t` after it and the step `r` it returns.
pub open spec fn initialize_ensures(
    s: Seq<u8>,
    accounts: Seq<Account>,
    data: Seq<u8>,
    r: Step,
    t: Seq<u8>,
) -> bool {
    &&& t == s
    &&& {
        let maker = accounts[0];
        let mint_to_raise = accounts[1];
        let fundraiser = accounts[2];
        let vault = accounts[3];
        let system_program = accounts[4];
        let token_program = accounts[5];
        if owned_by_program(s, fundraiser) {
            r == Step::Done(Err(11))
        } else if u64_at(data, 0) < min_target(s, mint_to_raise) {
            r == Step::Done(Err(20))
        } else {
            &&& r matches Step::Invoke(
                Cpi::CreateAccount { from, to, lamports, space, owner, signer },
                next,
            )
            &&& from == maker
            &&& to == fundraiser
            &&& lamports == FUNDRAISER_RENT_EXEMPT
            &&& space == Fundraiser::LEN
            &&& owner@ == ID_BYTES@
            &&& signer.label == SeedLabel::Fundraiser
            &&& signer.key@ == maker.spec_key(s)
            &&& signer.bump == data[17]
            &&& next == Stage::FundraiserCreated {
                maker,
                mint_to_raise,
                fundraiser,
                vault,
                system_program,
                token_program,
                amount_to_raise: u64_at(data, 0),
                time_started: i64_at(data, 8),
                duration: data[16],
                bump: data[17],
            }
        }
    }
}

/// Checks that the fundraiser account is not already the program's and that
/// the target is at least the minimum for the mint's decimals, then asks for
/// the fundraiser account to be created, signed by its address (seeds: the
/// maker's key and the bump); its record is written next.
///
/// Errors: 11 when the fundraiser account already belongs to the program;
/// 20 when the target is below the minimum.
pub fn process_initialize_instruction(accounts: &[Account; 10], input: &mut [u8], data: &[u8]) -> (r: Step)
    requires
        initialize_requires(old(input)@, accounts@, data@),
    ensures
        initialize_ensures(old(input)@, accounts@, data@, r, final(input)@),
{
    let maker = accounts[0];
    let mint_to_raise = accounts[1];
    let fundraiser = accounts[2];
    let vault = accounts[3];
    let system_program = accounts[4];
    let token_program = accounts[5];
    let len = input.len();

    if fundraiser.owned_by(input, &ID_BYTES) {
        return Step::Done(Err(11));
    }

    let amount_to_raise = read_u64_at::<0>(data, 0);
    let time_started = read_i64_at::<8>(data, 0);
    let duration = data[16];
    let bump = data[17];

    let decimals = read_mint_decimals(input, mint_to_raise.data());
    let scale = POWERS_OF_10[decimals as usize];
    proof {
        lemma_powers_of_10(decimals as int);
    }
    let scaled_min = MIN_AMOUNT_TO_RAISE * scale;
    if amount_to_raise < scaled_min {
        return Step::Done(Err(20));
    }

    let key = read_key(input, maker.key());
    Step::Invoke(
        Cpi::CreateAccount {
            from: maker,
            to: fundraiser,
            lamports: FUNDRAISER_RENT_EXEMPT,
            space: Fundraiser::LEN as u64,
            owner: ID_BYTES,
            signer: SignerSeeds { label: SeedLabel::Fundraiser, key, bump },
        },
        Stage::FundraiserCreated {
            maker,
            mint_to_raise,
            fundraiser,
            vault,
            system_program,
            token_program,
            amount_to_raise,
            time_started,
            duration,
            bump,
        },
    )
}

/// Whether the input meets what the instruction needs to run.
pub fn initialize_requirements_hold(accounts: &[Account; 10], input: &[u8], data: &[u8]) -> (r: bool)
    ensures
        r == initialize_requires(input@, accounts@, data@),
{
    let maker = accounts[0];
    let mint_to_raise = accounts[1];
    let fundraiser = accounts[2];
    let len = input.len();
    if !account_fits(fundraiser, len) {
        return false;
    }
    if fundraiser.owned_by(input, &ID_BYTES) {
        return true;
    }
    data.len() >= 18 && account_fits(maker, len) && account_fits(mint_to_raise, len)
        && read_mint_decimals(input, mint_to_raise.data()) < 10
}

} // verus!
