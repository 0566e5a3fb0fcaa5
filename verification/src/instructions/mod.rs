//! The program's instructions as steps between cross-program invocations.
//!
//! Each instruction runs in stages: a stage checks and writes what it can,
//! then either finishes or names one cross-program invocation to perform and
//! the stage that continues once it has been performed. The invocations
//! themselves are made by the caller of this library.
use vstd::prelude::*;
use crate::account::Account;
use crate::asm_ops::{lemma_splice_word, read_key, with_u64_at, with_bytes_at, key_at, u64_at};
use crate::state::contributor::Contributor;
use crate::state::fundraiser::{Fundraiser, fundraiser_bytes};

pub mod initialize;
pub mod contribute;
pub mod checker;
pub mod refund;


verus! {

/// The first seed of a program-derived address.
#[derive(Clone, Copy, Debug, PartialEq, Eq, Structural)]
pub enum SeedLabel {
    /// The seed `b"fundraiser"`.
    Fundraiser,
    /// The seed `b"contributor"`.
    Contributor,
}

/// The bytes of the seed `b"fundraiser"`.
pub const FUNDRAISER_SEED: [u8; 10] = [102, 117, 110, 100, 114, 97, 105, 115, 101, 114];

/// The bytes of the seed `b"contributor"`.
pub const CONTRIBUTOR_SEED: [u8; 11] = [99, 111, 110, 116, 114, 105, 98, 117, 116, 111, 114];

impl SeedLabel {
    /// The seed's bytes: `b"fundraiser"` or `b"contributor"`.
    pub fn bytes(self) -> (r: &'static [u8])
        ensures
            r@ == match self {
                SeedLabel::Fundraiser => seq![102u8, 117, 110, 100, 114, 97, 105, 115, 101, 114],
                SeedLabel::Contributor => seq![99u8, 111, 110, 116, 114, 105, 98, 117, 116, 111, 114],
            },
    {
        match self {
            SeedLabel::Fundraiser => {
                let r: &'static [u8] = &FUNDRAISER_SEED;
                proof {
                    assert(r@ =~= seq![102u8, 117, 110, 100, 114, 97, 105, 115, 101, 114]);
                }
                r
            },
            SeedLabel::Contributor => {
                let r: &'static [u8] = &CONTRIBUTOR_SEED;
                proof {
                    assert(r@ =~= seq![99u8, 111, 110, 116, 114, 105, 98, 117, 116, 111, 114]);
                }
                r
            },
        }
    }
}

/// The seeds with which the program signs for one of its addresses:
/// the label, a 32-byte key and the bump.
#[derive(Clone, Copy)]
pub struct SignerSeeds {
    pub label: SeedLabel,
    pub key: [u8; 32],
    pub bump: u8,
}

/// A cross-program invocation the program asks for.
#[derive(Clone, Copy)]
pub enum Cpi {
    /// System program: create `to`, funded by `from`, with `space` bytes of
    /// data, owned by `owner`.
    CreateAccount {
        from: Account,
        to: Account,
        lamports: u64,
        space: u64,
        owner: [u8; 32],
        signer: SignerSeeds,
    },
    /// Associated token account program: create `account`, the token account
    /// of `wallet` for `mint`, funded by `funding_account`.
    CreateAssociatedTokenAccount {
        funding_account: Account,
        account: Account,
        wallet: Account,
        mint: Account,
        token_program: Account,
        system_program: Account,
    },
    /// Token program: move `amount` tokens from `from` to `to` on the
    /// authority of `authority`, signed by the program when `signer` is given.
    Transfer {
        from: Account,
        to: Account,
        authority: Account,
        amount: u64,
        signers: Option<SignerSeeds>,
    },
}

/// What remains of an instruction once an invocation has been performed.
#[derive(Clone, Copy)]
pub enum Stage {
    /// Initialize: the fundraiser account exists; its record is written next.
    FundraiserCreated {
        maker: Account,
        mint_to_raise: Account,
        fundraiser: Account,
        vault: Account,
        system_program: Account,
        token_program: Account,
        amount_to_raise: u64,
        time_started: i64,
        duration: u8,
        bump: u8,
    },
    /// Contribute: the contributor account exists; its first amount is
    /// written next.
    ContributorCreated {
        contributor: Account,
        contributor_account: Account,
        contributor_ata: Account,
        vault: Account,
        fundraiser: Account,
        amount: u64,
    },
    /// Contribute: the tokens have moved; the fundraiser's total grows next.
    ContributionTransferred { fundraiser: Account, amount: u64 },
    /// Checker: the vault has been paid out; the fundraiser account's
    /// lamports go to the maker next.
    VaultClaimed { maker: Account, fundraiser: Account },
    /// Refund: the contribution has gone back; the contributor account's
    /// lamports go to the contributor next.
    Refunded { contributor: Account, contributor_account: Account },
    /// Nothing is left to do.
    Finished,
}

/// The outcome of a stage.
#[derive(Clone, Copy)]
pub enum Step {
    /// The instruction is over, with this result.
    Done(Result<(), u32>),
    /// Perform this invocation, then continue with this stage.
    Invoke(Cpi, Stage),
}

/// `a / b` rounded toward zero, as integer division in Rust rounds.
pub open spec fn trunc_div(a: int, b: int) -> int {
    if a >= 0 {
        a / b
    } else {
        -((-a) / b)
    }
}

/// The token account `ata` holds tokens of `mint` for `owner`: its data
/// starts with the mint's key, followed by the owner's key.
pub open spec fn ata_matches(s: Seq<u8>, ata: Account, mint: Account, owner: Account) -> bool {
    &&& key_at(s, ata.spec_data()) == mint.spec_key(s)
    &&& key_at(s, ata.spec_data() + 32) == owner.spec_key(s)
}

/// The account is owned by this program.
pub open spec fn owned_by_program(s: Seq<u8>, a: Account) -> bool {
    key_at(s, a.0 + 40) == crate::ID_BYTES@
}

/// The target recorded by the fundraiser account.
pub open spec fn target_of(s: Seq<u8>, fundraiser: Account) -> u64 {
    u64_at(s, fundraiser.spec_data() + 64)
}

/// The total recorded as contributed to the fundraiser account.
pub open spec fn raised_of(s: Seq<u8>, fundraiser: Account) -> u64 {
    u64_at(s, fundraiser.spec_data() + 72)
}

/// The start time recorded by the fundraiser account.
pub open spec fn started_of(s: Seq<u8>, fundraiser: Account) -> i64 {
    crate::asm_ops::i64_at(s, fundraiser.spec_data() + 80)
}

/// The duration in days recorded by the fundraiser account.
pub open spec fn duration_of(s: Seq<u8>, fundraiser: Account) -> u8 {
    s[fundraiser.spec_data() + 88]
}

/// The most a single contributor may give: the target divided by
/// `MAX_CONTRIBUTION_DENOMINATOR`.
pub open spec fn max_contribution(s: Seq<u8>, fundraiser: Account) -> u64 {
    (target_of(s, fundraiser) / crate::constants::MAX_CONTRIBUTION_DENOMINATOR) as u64
}

/// The clock's timestamp.
pub open spec fn now_of(s: Seq<u8>, clock: Account) -> i64 {
    crate::asm_ops::i64_at(s, clock.spec_data() + 32)
}

/// Time since the start can be taken without overflow.
pub open spec fn elapsed_fits(s: Seq<u8>, clock: Account, fundraiser: Account) -> bool {
    i64::MIN <= now_of(s, clock) - started_of(s, fundraiser) <= i64::MAX
}

/// Whole days since the start, rounded toward zero (negative before the
/// start).
pub open spec fn elapsed_days(s: Seq<u8>, clock: Account, fundraiser: Account) -> int {
    trunc_div(now_of(s, clock) - started_of(s, fundraiser), crate::constants::SECONDS_TO_DAYS as int)
}

/// The amount recorded by a contributor account.
pub open spec fn contributed_of(s: Seq<u8>, contributor_account: Account) -> u64 {
    u64_at(s, contributor_account.spec_data())
}

/// `s` with the lamports of `from` added to those of `to`, and `from` left
/// with none.
pub open spec fn with_lamports_moved(s: Seq<u8>, to: Account, from: Account) -> Seq<u8> {
    let s1 = with_u64_at(s, to.0 + 72, (to.spec_lamports(s) + from.spec_lamports(s)) as u64);
    with_u64_at(s1, from.0 + 72, 0)
}

/// What a stage needs of the input to run.
pub open spec fn resume_requires(stage: Stage, s: Seq<u8>) -> bool {
    match stage {
        Stage::FundraiserCreated { maker, mint_to_raise, fundraiser, .. } => {
            &&& maker.is_valid(s)
            &&& mint_to_raise.is_valid(s)
            &&& fundraiser.is_valid(s)
        },
        Stage::ContributorCreated { contributor_account, .. } => contributor_account.is_valid(s),
        Stage::ContributionTransferred { fundraiser, amount } => {
            &&& fundraiser.is_valid(s)
            &&& u64_at(s, fundraiser.spec_data() + 72) + amount <= u64::MAX
        },
        Stage::VaultClaimed { maker, fundraiser } => {
            &&& maker.is_valid(s)
            &&& fundraiser.is_valid(s)
            &&& maker.spec_lamports(s) + fundraiser.spec_lamports(s) <= u64::MAX
        },
        Stage::Refunded { contributor, contributor_account } => {
            &&& contributor.is_valid(s)
            &&& contributor_account.is_valid(s)
            &&& contributor.spec_lamports(s) + contributor_account.spec_lamports(s) <= u64::MAX
        },
        Stage::Finished => true,
    }
}

/// Whether `a` is a parsed account that lies in a buffer of `len` bytes.
pub fn account_fits(a: Account, len: usize) -> (r: bool)
    ensures
        r == (8 <= a.0 && a.0 + 88 + crate::account::MAX_PERMITTED_DATA_INCREASE <= len),
{
    8 <= a.0 && len >= 10_328 && a.0 <= len - 10_328
}

impl Stage {
    /// Whether the input meets what this stage needs to run.
    pub fn can_resume(&self, input: &[u8]) -> (r: bool)
        ensures
            r == resume_requires(*self, input@),
    {
        let len = input.len();
        match *self {
            Stage::FundraiserCreated { maker, mint_to_raise, fundraiser, .. } => {
                account_fits(maker, len) && account_fits(mint_to_raise, len) && account_fits(
                    fundraiser,
                    len,
                )
            },
            Stage::ContributorCreated { contributor_account, .. } => account_fits(
                contributor_account,
                len,
            ),
            Stage::ContributionTransferred { fundraiser, amount } => {
                if !account_fits(fundraiser, len) {
                    return false;
                }
                let current = crate::asm_ops::read_u64_at::<160>(input, fundraiser.0);
                current <= u64::MAX - amount
            },
            Stage::VaultClaimed { maker, fundraiser } => {
                if !(account_fits(maker, len) && account_fits(fundraiser, len)) {
                    return false;
                }
                maker.lamports(input) <= u64::MAX - fundraiser.lamports(input)
            },
            Stage::Refunded { contributor, contributor_account } => {
                if !(account_fits(contributor, len) && account_fits(contributor_account, len)) {
                    return false;
                }
                contributor.lamports(input) <= u64::MAX - contributor_account.lamports(input)
            },
            Stage::Finished => true,
        }
    }
}

/// What a stage does, relating the input `s` before it to the input `t`
/// after it and the step `r` it returns.
pub open spec fn resume_ensures(stage: Stage, s: Seq<u8>, r: Step, t: Seq<u8>) -> bool {
    match stage {
        Stage::FundraiserCreated {
            maker,
            mint_to_raise,
            fundraiser,
            vault,
            system_program,
            token_program,
            amount_to_raise,
            time_started,
            duration,
            bump,
        } => {
            &&& t == with_bytes_at(
                s,
                fundraiser.spec_data(),
                fundraiser_bytes(
                    maker.spec_key(s),
                    mint_to_raise.spec_key(s),
                    amount_to_raise,
                    0,
                    time_started,
                    duration,
                    bump,
                ),
            )
            &&& r == Step::Invoke(
                Cpi::CreateAssociatedTokenAccount {
                    funding_account: maker,
                    account: vault,
                    wallet: fundraiser,
                    mint: mint_to_raise,
                    token_program,
                    system_program,
                },
                Stage::Finished,
            )
        },
        Stage::ContributorCreated {
            contributor,
            contributor_account,
            contributor_ata,
            vault,
            fundraiser,
            amount,
        } => {
            &&& t == with_u64_at(s, contributor_account.spec_data(), amount)
            &&& r == Step::Invoke(
                Cpi::Transfer {
                    from: contributor_ata,
                    to: vault,
                    authority: contributor,
                    amount,
                    signers: None,
                },
                Stage::ContributionTransferred { fundraiser, amount },
            )
        },
        Stage::ContributionTransferred { fundraiser, amount } => {
            &&& t == with_u64_at(
                s,
                fundraiser.spec_data() + 72,
                (u64_at(s, fundraiser.spec_data() + 72) + amount) as u64,
            )
            &&& r == Step::Done(Ok(()))
        },
        Stage::VaultClaimed { maker, fundraiser } => {
            &&& t == with_lamports_moved(s, maker, fundraiser)
            &&& r == Step::Done(Ok(()))
        },
        Stage::Refunded { contributor, contributor_account } => {
            &&& t == with_lamports_moved(s, contributor, contributor_account)
            &&& r == Step::Done(Ok(()))
        },
        Stage::Finished => {
            &&& t == s
            &&& r == Step::Done(Ok(()))
        },
    }
}

/// Runs the stage that follows a performed invocation.
pub fn resume(stage: Stage, input: &mut [u8]) -> (r: Step)
    requires
        resume_requires(stage, old(input)@),
    ensures
        resume_ensures(stage, old(input)@, r, final(input)@),
{
    let len = input.len();
    match stage {
        Stage::FundraiserCreated {
            maker,
            mint_to_raise,
            fundraiser,
            vault,
            system_program,
            token_program,
            amount_to_raise,
            time_started,
            duration,
            bump,
        } => {
            let maker_key = read_key(input, maker.key());
            let mint_key = read_key(input, mint_to_raise.key());
            Fundraiser::initialize_from(
                input,
                fundraiser.data(),
                &maker_key,
                0,
                &mint_key,
                0,
                amount_to_raise,
                time_started,
                duration,
                bump,
            );
            proof {
                assert(key_at(maker_key@, 0) =~= maker_key@);
                assert(key_at(mint_key@, 0) =~= mint_key@);
            }
            Step::Invoke(
                Cpi::CreateAssociatedTokenAccount {
                    funding_account: maker,
                    account: vault,
                    wallet: fundraiser,
                    mint: mint_to_raise,
                    token_program,
                    system_program,
                },
                Stage::Finished,
            )
        },
        Stage::ContributorCreated {
            contributor,
            contributor_account,
            contributor_ata,
            vault,
            fundraiser,
            amount,
        } => {
            let mut contributor_data = Contributor::from_ptr(input, contributor_account.data());
            contributor_data.set_amount(amount);
            contributor_data.write_to(input, contributor_account.data());
            Step::Invoke(
                Cpi::Transfer {
                    from: contributor_ata,
                    to: vault,
                    authority: contributor,
                    amount,
                    signers: None,
                },
                Stage::ContributionTransferred { fundraiser, amount },
            )
        },
        Stage::ContributionTransferred { fundraiser, amount } => {
            let mut fundraiser_data = Fundraiser::from_ptr(input, fundraiser.data());
            let fund_amount = fundraiser_data.current_amount();
            proof {
                fundraiser_data.lemma_len();
                assert(fundraiser_data@.subrange(72, 80) =~= old(input)@.subrange(
                    fundraiser.spec_data() + 72,
                    fundraiser.spec_data() + 80,
                ));
            }
            fundraiser_data.set_current_amount(fund_amount + amount);
            fundraiser_data.write_to(input, fundraiser.data());
            proof {
                lemma_splice_word(
                    old(input)@,
                    fundraiser.spec_data(),
                    90,
                    72,
                    (fund_amount + amount) as u64,
                );
            }
            Step::Done(Ok(()))
        },
        Stage::VaultClaimed { maker, fundraiser } => {
            let total = maker.lamports(input) + fundraiser.lamports(input);
            maker.set_lamport(input, total);
            fundraiser.set_lamport(input, 0);
            Step::Done(Ok(()))
        },
        Stage::Refunded { contributor, contributor_account } => {
            let total = contributor.lamports(input) + contributor_account.lamports(input);
            contributor.set_lamport(input, total);
            contributor_account.set_lamport(input, 0);
            Step::Done(Ok(()))
        },
        Stage::Finished => Step::Done(Ok(())),
    }
}

} // verus!
