//! Checker: once the target is met, pay the vault out to the maker and close
//! the fundraiser account.
use vstd::prelude::*;
use crate::account::Account;
use crate::asm_ops::{validate_ata, read_token_amount, key_at, u64_at};
use crate::state::fundraiser::Fundraiser;
use crate::instructions::{
    Cpi, SeedLabel, SignerSeeds, Stage, Step, ata_matches, target_of, account_fits,
};

verus! {

/// The token balance of a token account.
pub open spec fn token_amount_of(s: Seq<u8>, token_account: Account) -> u64 {
    u64_at(s, token_account.spec_data() + 64)
}

/// Accounts: maker, mint, fundraiser, vault, the maker's token account.
pub open spec fn checker_requires(s: Seq<u8>, accounts: Seq<Account>, data: Seq<u8>) -> bool {
    let maker = accounts[0];
    let mint_to_raise = accounts[1];
    let fundraiser = accounts[2];
    let vault = accounts[3];
    let maker_ata = accounts[4];
    &&& maker.is_valid(s)
    &&& mint_to_raise.is_valid(s)
    &&& maker_ata.is_valid(s)
    &&& ata_matches(s, maker_ata, mint_to_raise, maker) ==> {
        &&& data.len() >= 1
        &&& fundraiser.is_valid(s)
        &&& vault.is_valid(s)
    }
}

/// What the instruction does, relating the input `s` before it to the input
/// `t` after it and the step `r` it returns.
pub open spec fn checker_ensures(
    s: Seq<u8>,
    accounts: Seq<Account>,
    data: Seq<u8>,
    r: Step,
    t: Seq<u8>,
) -> bool {
    &&& t == s
    &&& {
        let maker = accounts[0];
        let mint_to_raise = accounts[1];
        let fundraiser = accounts[2];
        let vault = accounts[3];
        let maker_ata = accounts[4];
        if !ata_matches(s, maker_ata, mint_to_raise, maker) {
            r == Step::Done(Err(21))
        } else if token_amount_of(s, vault) < target_of(s, fundraiser) {
            r == Step::Done(Err(20))
        } else {
            &&& r matches Step::Invoke(
                Cpi::Transfer { from, to, authority, amount, signers: Some(signer) },
                next,
            )
            &&& from == vault
            &&& to == maker_ata
            &&& authority == fundraiser
            &&& amount == token_amount_of(s, vault)
            &&& signer.label == SeedLabel::Fundraiser
            &&& signer.key@ == key_at(s, fundraiser.spec_data())
            &&& signer.bump == data[0]
            &&& next == Stage::VaultClaimed { maker, fundraiser }
        }
    }
}

/// Checks that the vault holds at least the target and asks for all of it
/// to be transferred to the maker's token account, signed by the fundraiser
/// address (seeds: the recorded maker and the bump in `data`); the fundraiser
/// account's lamports then go to the maker.
///
/// Errors: 21 when the maker's token account is not for this mint and
/// maker; 20 when the vault holds less than the target.
pub fn process_checker_instruction(accounts: &[Account; 9], input: &mut [u8], data: &[u8]) -> (r: Step)
    requires
        checker_requires(old(input)@, accounts@, data@),
    ensures
        checker_ensures(old(input)@, accounts@, data@, r, final(input)@),
{
    let maker = accounts[0];
    let mint_to_raise = accounts[1];
    let fundraiser = accounts[2];
    let vault = accounts[3];
    let maker_ata = accounts[4];
    let len = input.len();

    if !validate_ata(input, maker_ata.data(), input, mint_to_raise.key(), input, maker.key()) {
        return Step::Done(Err(21));
    }

    let bump = data[0];
    let fundraiser_data = Fundraiser::from_ptr(input, fundraiser.data());
    proof {
        fundraiser_data.lemma_len();
        assert(fundraiser_data@.subrange(64, 72) =~= old(input)@.subrange(
            fundraiser.spec_data() + 64,
            fundraiser.spec_data() + 72,
        ));
        assert(key_at(fundraiser_data@, 0) =~= key_at(old(input)@, fundraiser.spec_data()));
    }
    let vault_amount = read_token_amount(input, vault.data());

    if vault_amount < fundraiser_data.amount_to_raise() {
        return Step::Done(Err(20));
    }

    let key = *fundraiser_data.maker();
    Step::Invoke(
        Cpi::Transfer {
            from: vault,
            to: maker_ata,
            authority: fundraiser,
            amount: vault_amount,
            signers: Some(SignerSeeds { label: SeedLabel::Fundraiser, key, bump }),
        },
        Stage::VaultClaimed { maker, fundraiser },
    )
}

/// Whether the input meets what the instruction needs to run.
pub fn checker_requirements_hold(accounts: &[Account; 9], input: &[u8], data: &[u8]) -> (r: bool)
    ensures
        r == checker_requires(input@, accounts@, data@),
{
    let maker = accounts[0];
    let mint_to_raise = accounts[1];
    let fundraiser = accounts[2];
    let vault = accounts[3];
    let maker_ata = accounts[4];
    let len = input.len();
    if !(account_fits(maker, len) && account_fits(mint_to_raise, len) && account_fits(
        maker_ata,
        len,
    )) {
        return false;
    }
    if !validate_ata(input, maker_ata.data(), input, mint_to_raise.key(), input, maker.key()) {
        return true;
    }
    data.len() >= 1 && account_fits(fundraiser, len) && account_fits(vault, len)
}

} // verus!
