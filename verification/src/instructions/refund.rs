//! Refund: once the fundraiser has ended short of its target, give a
//! contributor's tokens back and close its contributor account.
use vstd::prelude::*;
use crate::account::Account;
use crate::asm_ops::{read_u64_at, read_i64_at, validate_ata, read_token_amount, read_clock_timestamp, read_key, with_u64_at};
use crate::constants::SECONDS_TO_DAYS;
use crate::state::contributor::Contributor;
use crate::state::fundraiser::Fundraiser;
use crate::instructions::{
    Cpi, SeedLabel, SignerSeeds, Stage, Step, ata_matches, target_of, raised_of, elapsed_days,
    elapsed_fits, duration_of, contributed_of, account_fits,
};
use crate::instructions::checker::token_amount_of;
use crate::asm_ops::lemma_splice_word;

verus! {

/// Accounts: contributor, maker, mint, fundraiser, contributor account, the
/// contributor's token account, vault, clock.
pub open spec fn refund_requires(s: Seq<u8>, accounts: Seq<Account>, data: Seq<u8>) -> bool {
    let contributor = accounts[0];
    let maker = accounts[1];
    let mint_to_raise = accounts[2];
    let fundraiser = accounts[3];
    let contributor_account = accounts[4];
    let contributor_ata = accounts[5];
    let vault = accounts[6];
    let clock = accounts[7];
    &&& contributor.is_valid(s)
    &&& mint_to_raise.is_valid(s)
    &&& contributor_ata.is_valid(s)
    &&& ata_matches(s, contributor_ata, mint_to_raise, contributor) ==> {
        &&& data.len() >= 1
        &&& fundraiser.is_valid(s)
        &&& clock.is_valid(s)
        &&& elapsed_fits(s, clock, fundraiser)
        &&& elapsed_days(s, clock, fundraiser) >= duration_of(s, fundraiser) ==> {
            &&& vault.is_valid(s)
            &&& token_amount_of(s, vault) < target_of(s, fundraiser) ==> {
                &&& contributor_account.is_valid(s)
                &&& maker.is_valid(s)
                &&& contributed_of(s, contributor_account) <= raised_of(s, fundraiser)
            }
        }
    }
}

/// What the instruction does, relating the input `s` before it to the input
/// `t` after it and the step `r` it returns.
pub open spec fn refund_ensures(
    s: Seq<u8>,
    accounts: Seq<Account>,
    data: Seq<u8>,
    r: Step,
    t: Seq<u8>,
) -> bool {
    let contributor = accounts[0];
    let maker = accounts[1];
    let mint_to_raise = accounts[2];
    let fundraiser = accounts[3];
    let contributor_account = accounts[4];
    let contributor_ata = accounts[5];
    let vault = accounts[6];
    let clock = accounts[7];
    if !ata_matches(s, contributor_ata, mint_to_raise, contributor) {
        r == Step::Done(Err(21)) && t == s
    } else if elapsed_days(s, clock, fundraiser) < duration_of(s, fundraiser) {
        r == Step::Done(Err(20)) && t == s
    } else if token_amount_of(s, vault) >= target_of(s, fundraiser) {
        r == Step::Done(Err(20)) && t == s
    } else {
        &&& t == with_u64_at(
            s,
            fundraiser.spec_data() + 72,
            (raised_of(s, fundraiser) - contributed_of(s, contributor_account)) as u64,
        )
        &&& r matches Step::Invoke(
            Cpi::Transfer { from, to, authority, amount, signers: Some(signer) },
            next,
        )
        &&& from == vault
        &&& to == contributor_ata
        &&& authority == fundraiser
        &&& amount == contributed_of(s, contributor_account)
        &&& signer.label == SeedLabel::Fundraiser
        &&& signer.key@ == maker.spec_key(t)
        &&& signer.bump == data[0]
        &&& next == Stage::Refunded { contributor, contributor_account }
    }
}

/// Checks that the fundraiser has ended and that the vault holds less than
/// the target, takes the contributor's recorded amount off the fundraiser's
/// total, and asks for that amount to be transferred from the vault back to
/// the contributor's token account, signed by the fundraiser address (seeds:
/// the maker's key and the bump in `data`); the contributor account's
/// lamports then go to the contributor.
///
/// Errors: 21 when the contributor's token account is not for this mint and
/// contributor; 20 when the fundraiser has not yet ended or when the vault
/// holds the target.
pub fn process_refund_instruction(accounts: &[Account; 10], input: &mut [u8], data: &[u8]) -> (r: Step)
    requires
        refund_requires(old(input)@, accounts@, data@),
    ensures
        refund_ensures(old(input)@, accounts@, data@, r, final(input)@),
{
    let contributor = accounts[0];
    let maker = accounts[1];
    let mint_to_raise = accounts[2];
    let fundraiser = accounts[3];
    let contributor_account = accounts[4];
    let contributor_ata = accounts[5];
    let vault = accounts[6];
    let clock_sysvar = accounts[7];
    let len = input.len();

    if !validate_ata(
        input,
        contributor_ata.data(),
        input,
        mint_to_raise.key(),
        input,
        contributor.key(),
    ) {
        return Step::Done(Err(21));
    }

    let bump = data[0];
    let mut fundraiser_data = Fundraiser::from_ptr(input, fundraiser.data());
    proof {
        fundraiser_data.lemma_len();
        fundraiser_data.lemma_tail_fields();
        assert(fundraiser_data@.subrange(64, 72) =~= old(input)@.subrange(
            fundraiser.spec_data() + 64,
            fundraiser.spec_data() + 72,
        ));
        assert(fundraiser_data@.subrange(72, 80) =~= old(input)@.subrange(
            fundraiser.spec_data() + 72,
            fundraiser.spec_data() + 80,
        ));
        assert(fundraiser_data@.subrange(80, 88) =~= old(input)@.subrange(
            fundraiser.spec_data() + 80,
            fundraiser.spec_data() + 88,
        ));
    }

    let current_time = read_clock_timestamp(input, clock_sysvar.data());
    let days = (current_time - fundraiser_data.time_started()) / SECONDS_TO_DAYS;

    if days < fundraiser_data.duration as i64 {
        return Step::Done(Err(20));
    }

    let vault_amount = read_token_amount(input, vault.data());

    if vault_amount >= fundraiser_data.amount_to_raise() {
        return Step::Done(Err(20));
    }

    let contributor_data = Contributor::from_ptr(input, contributor_account.data());
    proof {
        contributor_data.lemma_len();
        assert(contributor_data@.subrange(0, 8) =~= contributor_data@);
    }
    let refunded = contributor_data.amount();
    let raised = fundraiser_data.current_amount();
    fundraiser_data.set_current_amount(raised - refunded);
    fundraiser_data.write_to(input, fundraiser.data());
    proof {
        lemma_splice_word(old(input)@, fundraiser.spec_data(), 90, 72, (raised - refunded) as u64);
    }

    let key = read_key(input, maker.key());
    Step::Invoke(
        Cpi::Transfer {
            from: vault,
            to: contributor_ata,
            authority: fundraiser,
            amount: refunded,
            signers: Some(SignerSeeds { label: SeedLabel::Fundraiser, key, bump }),
        },
        Stage::Refunded { contributor, contributor_account },
    )
}

/// Whether the input meets what the instruction needs to run.
pub fn refund_requirements_hold(accounts: &[Account; 10], input: &[u8], data: &[u8]) -> (r: bool)
    ensures
        r == refund_requires(input@, accounts@, data@),
{
    let contributor = accounts[0];
    let maker = accounts[1];
    let mint_to_raise = accounts[2];
    let fundraiser = accounts[3];
    let contributor_account = accounts[4];
    let contributor_ata = accounts[5];
    let vault = accounts[6];
    let clock_sysvar = accounts[7];
    let len = input.len();
    if !(account_fits(contributor, len) && account_fits(mint_to_raise, len) && account_fits(
        contributor_ata,
        len,
    )) {
        return false;
    }
    if !validate_ata(
        input,
        contributor_ata.data(),
        input,
        mint_to_raise.key(),
        input,
        contributor.key(),
    ) {
        return true;
    }
    if data.len() < 1 || !account_fits(fundraiser, len) || !account_fits(clock_sysvar, len) {
        return false;
    }
    let current_time = read_clock_timestamp(input, clock_sysvar.data());
    let time_started = read_i64_at::<80>(input, fundraiser.data());
    let elapsed = match current_time.checked_sub(time_started) {
        Some(e) => e,
        None => {
            return false;
        },
    };
    let days = elapsed / SECONDS_TO_DAYS;
    if days < input[fundraiser.data() + 88] as i64 {
        return true;
    }
    if !account_fits(vault, len) {
        return false;
    }
    if read_token_amount(input, vault.data()) >= read_u64_at::<64>(input, fundraiser.data()) {
        return true;
    }
    account_fits(contributor_account, len) && account_fits(maker, len) && read_u64_at::<0>(
        input,
        contributor_account.data(),
    ) <= read_u64_at::<72>(input, fundraiser.data())
}

} // verus!
