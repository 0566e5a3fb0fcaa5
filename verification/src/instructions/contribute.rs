//! Contribute: move tokens into the vault, recording them for the
//! contributor and the fundraiser.
use vstd::prelude::*;
use crate::account::Account;
use crate::asm_ops::{read_u64_at, read_i64_at, read_key, validate_ata, read_clock_timestamp, with_u64_at, u64_at};
use crate::constants::{CONTRIBUTOR_RENT_EXEMPT, MAX_CONTRIBUTION_DENOMINATOR, SECONDS_TO_DAYS};
use crate::state::contributor::Contributor;
use crate::state::fundraiser::Fundraiser;
use crate::instructions::{
    Cpi, SeedLabel, SignerSeeds, Stage, Step, ata_matches, owned_by_program, max_contribution,
    elapsed_days, elapsed_fits, duration_of, contributed_of, account_fits,
};
use crate::ID_BYTES;

verus! {

/// The amount the instruction data offers.
pub open spec fn offered_amount(data: Seq<u8>) -> u64 {
    u64_at(data, 0)
}

/// Accounts: contributor, mint, fundraiser, contributor account, the
/// contributor's token account, vault, clock.
pub open spec fn contribute_requires(s: Seq<u8>, accounts: Seq<Account>, data: Seq<u8>) -> bool {
    let contributor = accounts[0];
    let mint_to_raise = accounts[1];
    let fundraiser = accounts[2];
    let contributor_account = accounts[3];
    let contributor_ata = accounts[4];
    let clock = accounts[6];
    let amount = offered_amount(data);
    &&& contributor.is_valid(s)
    &&& mint_to_raise.is_valid(s)
    &&& contributor_ata.is_valid(s)
    &&& ata_matches(s, contributor_ata, mint_to_raise, contributor) ==> {
        &&& data.len() >= 9
        &&& fundraiser.is_valid(s)
        &&& (0 < amount <= max_contribution(s, fundraiser)) ==> {
            &&& clock.is_valid(s)
            &&& elapsed_fits(s, clock, fundraiser)
            &&& elapsed_days(s, clock, fundraiser) < duration_of(s, fundraiser) ==> {
                &&& contributor_account.is_valid(s)
                &&& owned_by_program(s, contributor_account) ==> contributed_of(
                    s,
                    contributor_account,
                ) + amount <= u64::MAX
            }
        }
    }
}

/// What the instruction does, relating the input `s` before it to the input
/// `t` after it and the step `r` it returns.
pub open spec fn contribute_ensures(
    s: Seq<u8>,
    accounts: Seq<Account>,
    data: Seq<u8>,
    r: Step,
    t: Seq<u8>,
) -> bool {
    let contributor = accounts[0];
    let mint_to_raise = accounts[1];
    let fundraiser = accounts[2];
    let contributor_account = accounts[3];
    let contributor_ata = accounts[4];
    let vault = accounts[5];
    let clock = accounts[6];
    let amount = offered_amount(data);
    let max = max_contribution(s, fundraiser);
    if !ata_matches(s, contributor_ata, mint_to_raise, contributor) {
        r == Step::Done(Err(21)) && t == s
    } else if amount == 0 || amount > max {
        r == Step::Done(Err(20)) && t == s
    } else if elapsed_days(s, clock, fundraiser) >= duration_of(s, fundraiser) {
        r == Step::Done(Err(20)) && t == s
    } else if !owned_by_program(s, contributor_account) {
        &&& t == s
        &&& r matches Step::Invoke(
            Cpi::CreateAccount { from, to, lamports, space, owner, signer },
            next,
        )
        &&& from == contributor
        &&& to == contributor_account
        &&& lamports == CONTRIBUTOR_RENT_EXEMPT
        &&& space == Contributor::LEN
        &&& owner@ == ID_BYTES@
        &&& signer.label == SeedLabel::Contributor
        &&& signer.key@ == contributor.spec_key(s)
        &&& signer.bump == data[8]
        &&& next == Stage::ContributorCreated {
            contributor,
            contributor_account,
            contributor_ata,
            vault,
            fundraiser,
            amount,
        }
    } else if contributed_of(s, contributor_account) + amount > max {
        r == Step::Done(Err(20)) && t == s
    } else {
        &&& t == with_u64_at(
            s,
            contributor_account.spec_data(),
            (contributed_of(s, contributor_account) + amount) as u64,
        )
        &&& r == Step::Invoke(
            Cpi::Transfer {
                from: contributor_ata,
                to: vault,
                authority: contributor,
                amount,
                signers: None,
            },
            Stage::ContributionTransferred { fundraiser, amount },
        )
    }
}

/// Checks the contribution in `data` (amount, then bump) against the
/// fundraiser and, when the contributor account already exists, adds the
/// amount to it; then asks for the contributor account to be created or for
/// the tokens to be transferred.
///
/// Errors: 21 when the contributor's token account is not for this mint and
/// contributor; 20 when the amount is zero or above the per-contributor
/// maximum, when the fundraiser has ended, or when the contributor's total
/// would pass the maximum.
pub fn process_contribute_instruction(accounts: &[Account; 10], input: &mut [u8], data: &[u8]) -> (r: Step)
    requires
        contribute_requires(old(input)@, accounts@, data@),
    ensures
        contribute_ensures(old(input)@, accounts@, data@, r, final(input)@),
{
    let contributor = accounts[0];
    let mint_to_raise = accounts[1];
    let fundraiser = accounts[2];
    let contributor_account = accounts[3];
    let contributor_ata = accounts[4];
    let vault = accounts[5];
    let clock_sysvar = accounts[6];
    let len = input.len();

    if !validate_ata(
        input,
        contributor_ata.data(),
        input,
        mint_to_raise.key(),
        input,
        contributor.key(),
    ) {
        return Step::Done(Err(21));
    }
    let amount = read_u64_at::<0>(data, 0);
    let bump = data[8];

    let fundraiser_data = Fundraiser::from_ptr(input, fundraiser.data());
    proof {
        fundraiser_data.lemma_len();
        fundraiser_data.lemma_tail_fields();
        assert(fundraiser_data@.subrange(64, 72) =~= old(input)@.subrange(
            fundraiser.spec_data() + 64,
            fundraiser.spec_data() + 72,
        ));
        assert(fundraiser_data@.subrange(80, 88) =~= old(input)@.subrange(
            fundraiser.spec_data() + 80,
            fundraiser.spec_data() + 88,
        ));
    }
    let max_contribution = fundraiser_data.amount_to_raise() / MAX_CONTRIBUTION_DENOMINATOR;

    if amount == 0 || amount > max_contribution {
        return Step::Done(Err(20));
    }

    let current_time = read_clock_timestamp(input, clock_sysvar.data());
    let days = (current_time - fundraiser_data.time_started()) / SECONDS_TO_DAYS;

    if days >= fundraiser_data.duration as i64 {
        return Step::Done(Err(20));
    }

    if !contributor_account.owned_by(input, &ID_BYTES) {
        let key = read_key(input, contributor.key());
        Step::Invoke(
            Cpi::CreateAccount {
                from: contributor,
                to: contributor_account,
                lamports: CONTRIBUTOR_RENT_EXEMPT,
                space: Contributor::LEN as u64,
                owner: ID_BYTES,
                signer: SignerSeeds { label: SeedLabel::Contributor, key, bump },
            },
            Stage::ContributorCreated {
                contributor,
                contributor_account,
                contributor_ata,
                vault,
                fundraiser,
                amount,
            },
        )
    } else {
        let mut contributor_data = Contributor::from_ptr(input, contributor_account.data());
        let fund_amount = contributor_data.amount();
        proof {
            contributor_data.lemma_len();
            assert(contributor_data@.subrange(0, 8) =~= contributor_data@);
        }
        if fund_amount + amount > max_contribution {
            return Step::Done(Err(20));
        }
        contributor_data.set_amount(fund_amount + amount);
        contributor_data.write_to(input, contributor_account.data());
        proof {
            assert(with_u64_at(
                old(input)@,
                contributor_account.spec_data(),
                (fund_amount + amount) as u64,
            ) =~= final(input)@);
        }
        Step::Invoke(
            Cpi::Transfer {
                from: contributor_ata,
                to: vault,
                authority: contributor,
                amount,
                signers: None,
            },
            Stage::ContributionTransferred { fundraiser, amount },
        )
    }
}

/// Whether the input meets what the instruction needs to run.
pub fn contribute_requirements_hold(accounts: &[Account; 10], input: &[u8], data: &[u8]) -> (r: bool)
    ensures
        r == contribute_requires(input@, accounts@, data@),
{
    let contributor = accounts[0];
    let mint_to_raise = accounts[1];
    let fundraiser = accounts[2];
    let contributor_account = accounts[3];
    let contributor_ata = accounts[4];
    let clock_sysvar = accounts[6];
    let len = input.len();
    if !(account_fits(contributor, len) && account_fits(mint_to_raise, len) && account_fits(
        contributor_ata,
        len,
    )) {
        return false;
    }
    if !validate_ata(
        input,
        contributor_ata.data(),
        input,
        mint_to_raise.key(),
        input,
        contributor.key(),
    ) {
        return true;
    }
    if data.len() < 9 || !account_fits(fundraiser, len) {
        return false;
    }
    let amount = read_u64_at::<0>(data, 0);
    let max_contribution = read_u64_at::<64>(input, fundraiser.data())
        / MAX_CONTRIBUTION_DENOMINATOR;
    if amount == 0 || amount > max_contribution {
        return true;
    }
    if !account_fits(clock_sysvar, len) {
        return false;
    }
    let current_time = read_clock_timestamp(input, clock_sysvar.data());
    let time_started = read_i64_at::<80>(input, fundraiser.data());
    let elapsed = match current_time.checked_sub(time_started) {
        Some(e) => e,
        None => {
            return false;
        },
    };
    let days = elapsed / SECONDS_TO_DAYS;
    if days >= input[fundraiser.data() + 88] as i64 {
        return true;
    }
    if !account_fits(contributor_account, len) {
        return false;
    }
    if !contributor_account.owned_by(input, &ID_BYTES) {
        return true;
    }
    read_u64_at::<0>(input, contributor_account.data()) <= u64::MAX - amount
}

} // verus!
