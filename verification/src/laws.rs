//! Properties that span several functions of the program.
use vstd::prelude::*;
use vstd::bytes::{spec_u64_to_le_bytes, spec_u64_from_le_bytes, lemma_auto_spec_u64_to_from_le_bytes};
use vstd::arithmetic::power::pow;
use crate::account::Account;
use crate::asm_ops::{with_u64_at, lemma_u64_read_after_write};
use crate::entry::{entry_ensures, ix_data_of};
use crate::instructions::{
    Cpi, Stage, Step, with_lamports_moved, resume_requires, resume_ensures, raised_of, target_of, contributed_of, max_contribution,
};
use crate::instructions::contribute::{contribute_ensures, offered_amount};
use crate::instructions::checker::{checker_ensures, token_amount_of};
use crate::instructions::refund::{refund_requires, refund_ensures};
use crate::instructions::initialize::{initialize_requires, initialize_ensures, pow10};
use crate::instructions::contribute::contribute_requires;
use crate::instructions::checker::checker_requires;
use crate::instructions::owned_by_program;
use crate::constants::{MAX_CONTRIBUTION_DENOMINATOR, MIN_AMOUNT_TO_RAISE};
use crate::state::fundraiser::fundraiser_bytes;
use crate::asm_ops::{u64_at, i64_at};
use crate::account::{
    input_well_formed, dup_markers_in_range, parsed_count, parsed_account, slot_start, slot_fits,
    NON_DUP_MARKER,
};

verus! {

/// An instruction that is refused leaves the input exactly as it was.
pub proof fn lemma_refusal_changes_nothing(s: Seq<u8>, r: Step, t: Seq<u8>, e: u32)
    requires
        entry_ensures(s, r, t),
        r == Step::Done(Err(e)),
    ensures
        t == s,
{
}

/// Moving the lamports of one account onto another keeps their sum and
/// leaves the first with none, when the two accounts are different slots
/// (slots of different accounts start at least eight bytes apart).
pub proof fn lemma_lamports_moved(s: Seq<u8>, to: Account, from: Account)
    requires
        to.is_valid(s),
        from.is_valid(s),
        to.0 + 8 <= from.0 || from.0 + 8 <= to.0,
        to.spec_lamports(s) + from.spec_lamports(s) <= u64::MAX,
    ensures
        with_lamports_moved(s, to, from).len() == s.len(),
        to.spec_lamports(with_lamports_moved(s, to, from)) == to.spec_lamports(s)
            + from.spec_lamports(s),
        from.spec_lamports(with_lamports_moved(s, to, from)) == 0,
{
    let total = (to.spec_lamports(s) + from.spec_lamports(s)) as u64;
    let s1 = with_u64_at(s, to.0 + 72, total);
    lemma_u64_read_after_write(s, to.0 + 72, total);
    lemma_u64_read_after_write(s1, from.0 + 72, 0);
    let s2 = with_u64_at(s1, from.0 + 72, 0);
    assert(s2.subrange(to.0 + 72, to.0 + 80) =~= s1.subrange(to.0 + 72, to.0 + 80));
}

/// The deadline splits time in two: for one fundraiser and one clock, a
/// contribution and a refund never both get past their time checks.
pub proof fn lemma_deadline_separates_contribute_and_refund(
    s: Seq<u8>,
    contribute_accounts: Seq<Account>,
    contribute_data: Seq<u8>,
    contribute_step: Step,
    after_contribute: Seq<u8>,
    refund_accounts: Seq<Account>,
    refund_data: Seq<u8>,
    refund_step: Step,
    after_refund: Seq<u8>,
)
    requires
        contribute_ensures(
            s,
            contribute_accounts,
            contribute_data,
            contribute_step,
            after_contribute,
        ),
        refund_ensures(s, refund_accounts, refund_data, refund_step, after_refund),
        contribute_accounts[2] == refund_accounts[3],
        contribute_accounts[6] == refund_accounts[7],
    ensures
        !(contribute_step is Invoke && refund_step is Invoke),
{
}

/// The vault is paid out to the maker only when it holds the target, and a
/// refund goes ahead only when it holds less: for one fundraiser and vault
/// the two never both proceed.
pub proof fn lemma_claim_and_refund_exclusive(
    s: Seq<u8>,
    checker_accounts: Seq<Account>,
    checker_data: Seq<u8>,
    checker_step: Step,
    after_checker: Seq<u8>,
    refund_accounts: Seq<Account>,
    refund_data: Seq<u8>,
    refund_step: Step,
    after_refund: Seq<u8>,
)
    requires
        checker_ensures(s, checker_accounts, checker_data, checker_step, after_checker),
        refund_ensures(s, refund_accounts, refund_data, refund_step, after_refund),
        checker_accounts[2] == refund_accounts[3],
        checker_accounts[3] == refund_accounts[6],
    ensures
        checker_step is Invoke ==> token_amount_of(s, checker_accounts[3]) >= target_of(
            s,
            checker_accounts[2],
        ),
        refund_step is Invoke ==> token_amount_of(s, refund_accounts[6]) < target_of(
            s,
            refund_accounts[3],
        ),
        !(checker_step is Invoke && refund_step is Invoke),
{
}

/// A contribution that goes ahead never takes a contributor's recorded
/// total past the cap (the target divided by the contribution denominator).
/// A further contribution is recorded at once as the previous total plus the
/// amount; a first one asks for the contributor account to be created, and
/// the stage after that creation (run on whatever input `u` the creation left)
/// records the amount alone. Either way the recorded total is at most the
/// cap.
pub proof fn lemma_contribution_within_cap(
    s: Seq<u8>,
    accounts: Seq<Account>,
    data: Seq<u8>,
    r: Step,
    t: Seq<u8>,
    u: Seq<u8>,
    r2: Step,
    t2: Seq<u8>,
)
    requires
        accounts.len() == 10,
        contribute_ensures(s, accounts, data, r, t),
        r is Invoke,
        accounts[3].is_valid(s),
    ensures
        0 < offered_amount(data) <= max_contribution(s, accounts[2]),
        r matches Step::Invoke(Cpi::Transfer { .. }, _) ==> {
            &&& contributed_of(t, accounts[3]) == contributed_of(s, accounts[3]) + offered_amount(
                data,
            )
            &&& contributed_of(t, accounts[3]) <= max_contribution(s, accounts[2])
        },
        r matches Step::Invoke(Cpi::CreateAccount { .. }, stage) ==> (resume_requires(stage, u)
            && resume_ensures(stage, u, r2, t2) ==> {
            &&& contributed_of(t2, accounts[3]) == offered_amount(data)
            &&& contributed_of(t2, accounts[3]) <= max_contribution(s, accounts[2])
        }),
{
    let ca = accounts[3];
    if r matches Step::Invoke(Cpi::Transfer { .. }, _) {
        lemma_u64_read_after_write(
            s,
            ca.spec_data(),
            (contributed_of(s, ca) + offered_amount(data)) as u64,
        );
    }
    if let Step::Invoke(Cpi::CreateAccount { .. }, stage) = r {
        if resume_requires(stage, u) && resume_ensures(stage, u, r2, t2) {
            lemma_u64_read_after_write(u, ca.spec_data(), offered_amount(data));
        }
    }
}

/// A refund that goes ahead ends, once its transfer has been performed
/// (leaving the input `u`), with the contributor account's lamports moved to
/// the contributor: their sum is kept, the contributor account has none, and
/// the instruction succeeds. The two accounts must be different slots.
pub proof fn lemma_refund_closes_record(
    s: Seq<u8>,
    accounts: Seq<Account>,
    data: Seq<u8>,
    r: Step,
    t: Seq<u8>,
    u: Seq<u8>,
    r2: Step,
    t2: Seq<u8>,
)
    requires
        accounts.len() == 10,
        refund_ensures(s, accounts, data, r, t),
        r matches Step::Invoke(_, stage) && resume_requires(stage, u) && resume_ensures(
            stage,
            u,
            r2,
            t2,
        ),
        accounts[0].0 + 8 <= accounts[4].0 || accounts[4].0 + 8 <= accounts[0].0,
    ensures
        r2 == Step::Done(Ok(())),
        accounts[0].spec_lamports(t2) == accounts[0].spec_lamports(u) + accounts[4].spec_lamports(
            u,
        ),
        accounts[4].spec_lamports(t2) == 0,
{
    lemma_lamports_moved(u, accounts[0], accounts[4]);
}

/// A refund that goes ahead takes off the fundraiser's total exactly the
/// amount it asks to transfer back.
pub proof fn lemma_refund_accounting(
    s: Seq<u8>,
    accounts: Seq<Account>,
    data: Seq<u8>,
    r: Step,
    t: Seq<u8>,
)
    requires
        accounts.len() == 10,
        refund_requires(s, accounts, data),
        refund_ensures(s, accounts, data, r, t),
        r is Invoke,
    ensures
        r matches Step::Invoke(Cpi::Transfer { amount, .. }, _) && raised_of(t, accounts[3])
            + amount == raised_of(s, accounts[3]),
{
    let f = accounts[3];
    lemma_u64_read_after_write(
        s,
        f.spec_data() + 72,
        (raised_of(s, f) - contributed_of(s, accounts[4])) as u64,
    );
}

/// The eight bytes at `off` encode `v` little-endian: the word read there
/// is `v`.
proof fn lemma_word_encodes(s: Seq<u8>, off: int, v: u64)
    requires
        0 <= off,
        off + 8 <= s.len(),
        s.subrange(off, off + 8) == spec_u64_to_le_bytes(v),
    ensures
        u64_at(s, off) == v,
{
    lemma_auto_spec_u64_to_from_le_bytes();
}

/// Storing `v` at `off` leaves there the little-endian encoding of `v`.
proof fn lemma_word_stored(s: Seq<u8>, off: int, v: u64)
    requires
        0 <= off,
        off + 8 <= s.len(),
    ensures
        with_u64_at(s, off, v).subrange(off, off + 8) == spec_u64_to_le_bytes(v),
{
    lemma_auto_spec_u64_to_from_le_bytes();
    assert(with_u64_at(s, off, v).subrange(off, off + 8) =~= spec_u64_to_le_bytes(v));
}

/// The amount of a contribution is the whole number whose little-endian
/// encoding is the first eight bytes of the instruction data. A contribution
/// that goes ahead moves exactly that amount (or, for a first contribution,
/// hands exactly that amount to the stage that records it), is not zero,
/// and keeps the contributor's total, which grows by exactly that amount,
/// at most the target recorded in the fundraiser divided by
/// `MAX_CONTRIBUTION_DENOMINATOR`.
pub proof fn lemma_contribution_amount_is_the_data_word(
    s: Seq<u8>,
    accounts: Seq<Account>,
    data: Seq<u8>,
    r: Step,
    t: Seq<u8>,
    amount: u64,
    target: u64,
    recorded: u64,
)
    requires
        accounts.len() == 10,
        contribute_requires(s, accounts, data),
        contribute_ensures(s, accounts, data, r, t),
        r is Invoke,
        data.subrange(0, 8) == spec_u64_to_le_bytes(amount),
        s.subrange(accounts[2].spec_data() + 64, accounts[2].spec_data() + 72)
            == spec_u64_to_le_bytes(target),
        accounts[3].is_valid(s) ==> s.subrange(
            accounts[3].spec_data(),
            accounts[3].spec_data() + 8,
        ) == spec_u64_to_le_bytes(recorded),
    ensures
        0 < amount <= target / MAX_CONTRIBUTION_DENOMINATOR,
        r matches Step::Invoke(Cpi::CreateAccount { .. }, Stage::ContributorCreated { amount: a, .. })
            ==> a == amount,
        r matches Step::Invoke(Cpi::Transfer { amount: a, .. }, _) ==> {
            &&& a == amount
            &&& recorded + amount <= target / MAX_CONTRIBUTION_DENOMINATOR
            &&& t.subrange(accounts[3].spec_data(), accounts[3].spec_data() + 8)
                == spec_u64_to_le_bytes((recorded + amount) as u64)
        },
{
    let f = accounts[2];
    let ca = accounts[3];
    assert(data.len() >= 9);
    lemma_word_encodes(data, 0, amount);
    lemma_word_encodes(s, f.spec_data() + 64, target);
    if r matches Step::Invoke(Cpi::Transfer { .. }, _) {
        lemma_word_encodes(s, ca.spec_data(), recorded);
        lemma_word_stored(s, ca.spec_data(), (recorded + amount) as u64);
    }
}

/// A refund goes ahead only when the vault's balance (the number encoded in
/// bytes 64..72 of its data) is below the target the fundraiser records;
/// it sends back exactly the number the contributor record encodes, and
/// lowers the fundraiser's total by exactly that much.
pub proof fn lemma_refund_only_below_target(
    s: Seq<u8>,
    accounts: Seq<Account>,
    data: Seq<u8>,
    r: Step,
    t: Seq<u8>,
    vault_balance: u64,
    target: u64,
    raised: u64,
    recorded: u64,
)
    requires
        accounts.len() == 10,
        refund_requires(s, accounts, data),
        refund_ensures(s, accounts, data, r, t),
        r is Invoke,
        s.subrange(accounts[6].spec_data() + 64, accounts[6].spec_data() + 72)
            == spec_u64_to_le_bytes(vault_balance),
        s.subrange(accounts[3].spec_data() + 64, accounts[3].spec_data() + 72)
            == spec_u64_to_le_bytes(target),
        s.subrange(accounts[3].spec_data() + 72, accounts[3].spec_data() + 80)
            == spec_u64_to_le_bytes(raised),
        s.subrange(accounts[4].spec_data(), accounts[4].spec_data() + 8)
            == spec_u64_to_le_bytes(recorded),
    ensures
        vault_balance < target,
        r matches Step::Invoke(Cpi::Transfer { amount, .. }, _) && amount == recorded,
        recorded <= raised,
        t.subrange(accounts[3].spec_data() + 72, accounts[3].spec_data() + 80)
            == spec_u64_to_le_bytes((raised - recorded) as u64),
{
    let f = accounts[3];
    lemma_word_encodes(s, accounts[6].spec_data() + 64, vault_balance);
    lemma_word_encodes(s, f.spec_data() + 64, target);
    lemma_word_encodes(s, f.spec_data() + 72, raised);
    lemma_word_encodes(s, accounts[4].spec_data(), recorded);
    lemma_word_stored(s, f.spec_data() + 72, (raised - recorded) as u64);
}

/// Past the check of the maker's token account, the checker pays out
/// exactly when the vault's balance (the number encoded in bytes 64..72 of
/// its data) is at least the target the fundraiser records, and then moves
/// the whole balance; otherwise it refuses with error 20.
pub proof fn lemma_checker_pays_out_exactly_at_target(
    s: Seq<u8>,
    accounts: Seq<Account>,
    data: Seq<u8>,
    r: Step,
    t: Seq<u8>,
    vault_balance: u64,
    target: u64,
)
    requires
        accounts.len() == 9,
        checker_requires(s, accounts, data),
        checker_ensures(s, accounts, data, r, t),
        r != Step::Done(Err(21)),
        s.subrange(accounts[3].spec_data() + 64, accounts[3].spec_data() + 72)
            == spec_u64_to_le_bytes(vault_balance),
        s.subrange(accounts[2].spec_data() + 64, accounts[2].spec_data() + 72)
            == spec_u64_to_le_bytes(target),
    ensures
        r is Invoke <==> vault_balance >= target,
        r == Step::Done(Err(20)) <==> vault_balance < target,
        r matches Step::Invoke(Cpi::Transfer { amount, .. }, _) ==> amount == vault_balance,
        t == s,
{
    lemma_word_encodes(s, accounts[3].spec_data() + 64, vault_balance);
    lemma_word_encodes(s, accounts[2].spec_data() + 64, target);
}

/// `pow10` is the power of ten of the arithmetic library.
proof fn lemma_pow10_is_pow(n: nat)
    ensures
        pow10(n) == pow(10, n),
    decreases n,
{
    reveal(pow);
    if n > 0 {
        lemma_pow10_is_pow((n - 1) as nat);
    }
}

/// Initialize, on a fundraiser account that is not yet the program's,
/// refuses (error 20) exactly the targets below `MIN_AMOUNT_TO_RAISE` whole
/// tokens, a whole token being `10` to the mint's decimals (byte 44 of the
/// mint's data); the target is the number encoded by the first eight bytes
/// of the instruction data. Once the account is created, the stage that
/// follows stores those same eight bytes as the record's target and a total
/// of zero.
pub proof fn lemma_initialize_minimum_and_stored_target(
    s: Seq<u8>,
    accounts: Seq<Account>,
    data: Seq<u8>,
    r: Step,
    t: Seq<u8>,
    target: u64,
    u: Seq<u8>,
    r2: Step,
    t2: Seq<u8>,
)
    requires
        accounts.len() == 10,
        initialize_requires(s, accounts, data),
        initialize_ensures(s, accounts, data, r, t),
        r != Step::Done(Err(11)),
        data.subrange(0, 8) == spec_u64_to_le_bytes(target),
    ensures
        r == Step::Done(Err(20)) <==> target < MIN_AMOUNT_TO_RAISE * pow(
            10,
            s[accounts[1].spec_data() + 44] as nat,
        ),
        r is Invoke <==> target >= MIN_AMOUNT_TO_RAISE * pow(
            10,
            s[accounts[1].spec_data() + 44] as nat,
        ),
        r matches Step::Invoke(_, stage) ==> (resume_requires(stage, u) && resume_ensures(
            stage,
            u,
            r2,
            t2,
        ) ==> {
            &&& t2.subrange(accounts[2].spec_data() + 64, accounts[2].spec_data() + 72)
                == data.subrange(0, 8)
            &&& t2.subrange(accounts[2].spec_data() + 72, accounts[2].spec_data() + 80)
                == spec_u64_to_le_bytes(0)
            &&& t2.subrange(accounts[2].spec_data(), accounts[2].spec_data() + 32) == u.subrange(
                accounts[0].0 + 8,
                accounts[0].0 + 40,
            )
            &&& t2.subrange(accounts[2].spec_data() + 32, accounts[2].spec_data() + 64)
                == u.subrange(accounts[1].0 + 8, accounts[1].0 + 40)
            &&& t2.subrange(accounts[2].spec_data() + 80, accounts[2].spec_data() + 88)
                == data.subrange(8, 16)
            &&& t2[accounts[2].spec_data() + 88] == data[16]
            &&& t2[accounts[2].spec_data() + 89] == data[17]
        }),
{
    lemma_auto_spec_u64_to_from_le_bytes();
    assert(!owned_by_program(s, accounts[2]));
    lemma_word_encodes(data, 0, target);
    lemma_pow10_is_pow(s[accounts[1].spec_data() + 44] as nat);
    if let Step::Invoke(_, stage) = r {
        if resume_requires(stage, u) && resume_ensures(stage, u, r2, t2) {
            let f = accounts[2];
            let b = fundraiser_bytes(
                accounts[0].spec_key(u),
                accounts[1].spec_key(u),
                target,
                0,
                i64_at(data, 8),
                data[16],
                data[17],
            );
            assert(b.subrange(64, 72) =~= spec_u64_to_le_bytes(target));
            assert(b.subrange(72, 80) =~= spec_u64_to_le_bytes(0));
            assert(t2.subrange(f.spec_data() + 64, f.spec_data() + 72) =~= b.subrange(64, 72));
            assert(t2.subrange(f.spec_data() + 72, f.spec_data() + 80) =~= b.subrange(72, 80));
            assert(t2.subrange(f.spec_data(), f.spec_data() + 32) =~= b.subrange(0, 32));
            assert(t2.subrange(f.spec_data() + 32, f.spec_data() + 64) =~= b.subrange(32, 64));
            assert(t2.subrange(f.spec_data() + 80, f.spec_data() + 88) =~= b.subrange(80, 88));
            let w = u64_at(data, 8);
            assert((w as i64) as u64 == w) by (bit_vector);
            assert(spec_u64_to_le_bytes(spec_u64_from_le_bytes(data.subrange(8, 16)))
                == data.subrange(8, 16));
            assert(b.subrange(80, 88) =~= spec_u64_to_le_bytes(i64_at(data, 8) as u64));
        }
    }
}

/// Walking the input, a new account's slot that follows another new
/// account's slot starts `10 328` bytes plus that account's whole data
/// length (the number encoded in bytes 80..88 of its slot) rounded up to a
/// multiple of eight after it; the first slot starts right after the
/// account count.
pub proof fn lemma_parse_stride(s: Seq<u8>, init: Seq<Account>, i: nat, data_len: u64)
    requires
        s.len() <= usize::MAX,
        input_well_formed(s),
        dup_markers_in_range(s),
        i + 1 < parsed_count(s),
        init.len() == 10,
        s[slot_start(s, i)] == NON_DUP_MARKER,
        s[slot_start(s, i + 1)] == NON_DUP_MARKER,
        s.subrange(
            parsed_account(s, i, init).0 + 80,
            parsed_account(s, i, init).0 + 88,
        ) == spec_u64_to_le_bytes(data_len),
    ensures
        parsed_account(s, 0, init).0 == 8 || s[8] != NON_DUP_MARKER,
        parsed_account(s, i + 1, init).0 == parsed_account(s, i, init).0 + 10_328 + ((
        (data_len as usize) + 7) / 8) * 8,
{
    let p = slot_start(s, i);
    assert(slot_fits(s, p));
    assert(slot_fits(s, slot_start(s, (i + 1) as nat)));
    lemma_word_encodes(s, p + 80, data_len);
}

/// The eight bytes at `off` encode the two's-complement `i64` `v`: the
/// signed word read there is `v`.
proof fn lemma_signed_word_encodes(s: Seq<u8>, off: int, v: i64)
    requires
        0 <= off,
        off + 8 <= s.len(),
        s.subrange(off, off + 8) == spec_u64_to_le_bytes(#[verifier::truncate] (v as u64)),
    ensures
        i64_at(s, off) == v,
{
    lemma_word_encodes(s, off, v as u64);
    assert((v as u64) as i64 == v) by (bit_vector);
}

/// A contribution goes ahead only while fewer than `duration` whole days
/// have passed since the recorded start: the clock's timestamp (bytes
/// 32..40 of its data) minus the start (bytes 80..88 of the record) is less
/// than `duration * 86 400` seconds, `duration` being byte 88 of the record.
pub proof fn lemma_contribution_window(
    s: Seq<u8>,
    accounts: Seq<Account>,
    data: Seq<u8>,
    r: Step,
    t: Seq<u8>,
    now: i64,
    start: i64,
)
    requires
        accounts.len() == 10,
        contribute_requires(s, accounts, data),
        contribute_ensures(s, accounts, data, r, t),
        r is Invoke,
        s.subrange(accounts[6].spec_data() + 32, accounts[6].spec_data() + 40)
            == spec_u64_to_le_bytes(#[verifier::truncate] (now as u64)),
        s.subrange(accounts[2].spec_data() + 80, accounts[2].spec_data() + 88)
            == spec_u64_to_le_bytes(#[verifier::truncate] (start as u64)),
    ensures
        now - start < s[accounts[2].spec_data() + 88] * 86_400,
{
    lemma_signed_word_encodes(s, accounts[6].spec_data() + 32, now);
    lemma_signed_word_encodes(s, accounts[2].spec_data() + 80, start);
}

/// A refund goes ahead only once at least `duration` whole days have passed
/// since the recorded start: the clock's timestamp minus the start is more
/// than minus one day, and, for a duration of at least one day, at least
/// `duration * 86 400` seconds.
pub proof fn lemma_refund_window(
    s: Seq<u8>,
    accounts: Seq<Account>,
    data: Seq<u8>,
    r: Step,
    t: Seq<u8>,
    now: i64,
    start: i64,
)
    requires
        accounts.len() == 10,
        refund_requires(s, accounts, data),
        refund_ensures(s, accounts, data, r, t),
        r is Invoke,
        s.subrange(accounts[7].spec_data() + 32, accounts[7].spec_data() + 40)
            == spec_u64_to_le_bytes(#[verifier::truncate] (now as u64)),
        s.subrange(accounts[3].spec_data() + 80, accounts[3].spec_data() + 88)
            == spec_u64_to_le_bytes(#[verifier::truncate] (start as u64)),
    ensures
        s[accounts[3].spec_data() + 88] > 0 ==> now - start >= s[accounts[3].spec_data() + 88]
            * 86_400,
        now - start > -86_400,
{
    lemma_signed_word_encodes(s, accounts[7].spec_data() + 32, now);
    lemma_signed_word_encodes(s, accounts[3].spec_data() + 80, start);
    let x = now - start;
    let d = s[accounts[3].spec_data() + 88] as int;
    if x >= 0 {
        assert(x >= d * 86_400) by (nonlinear_arith)
            requires
                x >= 0,
                x / 86_400 >= d,
        ;
    }
}

/// The stage after a first contribution's account creation stores exactly
/// the contributed amount, and the stage after the transfer raises the
/// fundraiser's total (bytes 72..80 of its record) by exactly the amount.
pub proof fn lemma_contribution_stages_record_the_amount(
    stage: Stage,
    u: Seq<u8>,
    r: Step,
    t: Seq<u8>,
    raised: u64,
)
    requires
        resume_requires(stage, u),
        resume_ensures(stage, u, r, t),
    ensures
        stage matches Stage::ContributorCreated { contributor_account, amount, .. } ==> t.subrange(
            contributor_account.spec_data(),
            contributor_account.spec_data() + 8,
        ) == spec_u64_to_le_bytes(amount),
        stage matches Stage::ContributionTransferred { fundraiser, amount } ==> (u.subrange(
            fundraiser.spec_data() + 72,
            fundraiser.spec_data() + 80,
        ) == spec_u64_to_le_bytes(raised) ==> {
            &&& raised + amount <= u64::MAX
            &&& r == Step::Done(Ok(()))
            &&& t.subrange(fundraiser.spec_data() + 72, fundraiser.spec_data() + 80)
                == spec_u64_to_le_bytes((raised + amount) as u64)
        }),
{
    if let Stage::ContributorCreated { contributor_account, amount, .. } = stage {
        lemma_word_stored(u, contributor_account.spec_data(), amount);
    }
    if let Stage::ContributionTransferred { fundraiser, amount } = stage {
        if u.subrange(fundraiser.spec_data() + 72, fundraiser.spec_data() + 80)
            == spec_u64_to_le_bytes(raised) {
            lemma_word_encodes(u, fundraiser.spec_data() + 72, raised);
            lemma_word_stored(u, fundraiser.spec_data() + 72, (raised + amount) as u64);
        }
    }
}

/// The token-account check: an instruction that checks a token account
/// against a mint and an owner refuses with error 21 exactly when the first
/// 32 bytes of the token account's data are not the mint's key or the next
/// 32 are not the owner's key (keys at bytes 8..40 of their slots).
pub open spec fn token_account_is_for(s: Seq<u8>, ata: Account, mint: Account, owner: Account) -> bool {
    &&& s.subrange(ata.0 + 88, ata.0 + 120) == s.subrange(mint.0 + 8, mint.0 + 40)
    &&& s.subrange(ata.0 + 120, ata.0 + 152) == s.subrange(owner.0 + 8, owner.0 + 40)
}

/// Contribute, checker and refund refuse with error 21 exactly when the
/// token account they check is not for the mint and its owner.
pub proof fn lemma_token_account_check(
    s: Seq<u8>,
    contribute_accounts: Seq<Account>,
    contribute_data: Seq<u8>,
    contribute_step: Step,
    after_contribute: Seq<u8>,
    checker_accounts: Seq<Account>,
    checker_data: Seq<u8>,
    checker_step: Step,
    after_checker: Seq<u8>,
    refund_accounts: Seq<Account>,
    refund_data: Seq<u8>,
    refund_step: Step,
    after_refund: Seq<u8>,
)
    requires
        contribute_accounts.len() == 10,
        checker_accounts.len() == 9,
        refund_accounts.len() == 10,
        contribute_ensures(
            s,
            contribute_accounts,
            contribute_data,
            contribute_step,
            after_contribute,
        ),
        checker_ensures(s, checker_accounts, checker_data, checker_step, after_checker),
        refund_ensures(s, refund_accounts, refund_data, refund_step, after_refund),
    ensures
        contribute_step == Step::Done(Err(21)) <==> !token_account_is_for(
            s,
            contribute_accounts[4],
            contribute_accounts[1],
            contribute_accounts[0],
        ),
        checker_step == Step::Done(Err(21)) <==> !token_account_is_for(
            s,
            checker_accounts[4],
            checker_accounts[1],
            checker_accounts[0],
        ),
        refund_step == Step::Done(Err(21)) <==> !token_account_is_for(
            s,
            refund_accounts[5],
            refund_accounts[2],
            refund_accounts[0],
        ),
{
}

/// The parser resolves a repeated account to the entry its marker names:
/// when that entry comes earlier, to the account parsed there.
pub proof fn lemma_parse_duplicates(s: Seq<u8>, init: Seq<Account>, i: nat)
    requires
        s[slot_start(s, i)] != NON_DUP_MARKER,
        (s[slot_start(s, i)] as nat) < i,
    ensures
        parsed_account(s, i, init) == parsed_account(s, s[slot_start(s, i)] as nat, init),
{
}

/// The first byte of the instruction data picks the instruction, and each
/// instruction asks only for its own kind of invocation: initialize for the
/// creation of a 90-byte account, contribute for the creation of an 8-byte
/// account or an unsigned transfer, checker for a signed transfer after
/// which the fundraiser's lamports go to the maker, refund for a signed
/// transfer after which the contributor account's lamports go to the
/// contributor. Each refuses only with its own errors, and any other first
/// byte, or no instruction data, gives error 4.
pub proof fn lemma_dispatch_by_discriminator(s: Seq<u8>, r: Step, t: Seq<u8>)
    requires
        entry_ensures(s, r, t),
    ensures
        ix_data_of(s).len() == 0 || ix_data_of(s)[0] > 3 ==> r == Step::Done(Err(4)),
        ix_data_of(s).len() > 0 && ix_data_of(s)[0] == 0 ==> {
            ||| r == Step::Done(Err(11))
            ||| r == Step::Done(Err(20))
            ||| r matches Step::Invoke(Cpi::CreateAccount { space, .. }, Stage::FundraiserCreated { .. })
                && space == 90
        },
        ix_data_of(s).len() > 0 && ix_data_of(s)[0] == 1 ==> {
            ||| r == Step::Done(Err(20))
            ||| r == Step::Done(Err(21))
            ||| r matches Step::Invoke(Cpi::CreateAccount { space, .. }, Stage::ContributorCreated { .. })
                && space == 8
            ||| r matches Step::Invoke(
                Cpi::Transfer { signers: None, .. },
                Stage::ContributionTransferred { .. },
            )
        },
        ix_data_of(s).len() > 0 && ix_data_of(s)[0] == 2 ==> {
            ||| r == Step::Done(Err(20))
            ||| r == Step::Done(Err(21))
            ||| r matches Step::Invoke(
                Cpi::Transfer { signers: Some(_), .. },
                Stage::VaultClaimed { .. },
            )
        },
        ix_data_of(s).len() > 0 && ix_data_of(s)[0] == 3 ==> {
            ||| r == Step::Done(Err(20))
            ||| r == Step::Done(Err(21))
            ||| r matches Step::Invoke(Cpi::Transfer { signers: Some(_), .. }, Stage::Refunded { .. })
        },
{
}

} // verus!
