use token_fundraiser::account::{input_layout_holds, next_slot_offset, parse_input, Account};
use token_fundraiser::constants::{CONTRIBUTOR_RENT_EXEMPT, FUNDRAISER_RENT_EXEMPT};
use token_fundraiser::entry::{entry_requirements_hold, entrypoint, exit_code};
use token_fundraiser::instructions::{resume, Cpi, SeedLabel, Stage, Step};
use token_fundraiser::state::fundraiser::Fundraiser;
use token_fundraiser::ID_BYTES;

const DAY: i64 = 86_400;
const START: i64 = 1_700_000_000;

fn key(fill: u8) -> [u8; 32] {
    let mut k = [0u8; 32];
    for (i, b) in k.iter_mut().enumerate() {
        *b = fill.wrapping_add(i as u8);
    }
    k
}

struct NewAccount {
    key: [u8; 32],
    owner: [u8; 32],
    lamports: u64,
    data: Vec<u8>,
}

enum Slot {
    New(NewAccount),
    Dup(u8),
}

fn plain(k: [u8; 32]) -> Slot {
    Slot::New(NewAccount { key: k, owner: [0u8; 32], lamports: 1_000_000, data: vec![] })
}

fn with_data(k: [u8; 32], owner: [u8; 32], lamports: u64, data: Vec<u8>) -> Slot {
    Slot::New(NewAccount { key: k, owner, lamports, data })
}

/// Lays out the runtime input; returns it and the offset of every slot.
fn build(slots: Vec<Slot>, ix: &[u8]) -> (Vec<u8>, Vec<usize>) {
    let mut buf = (slots.len() as u64).to_le_bytes().to_vec();
    let mut offsets = vec![];
    for slot in slots {
        offsets.push(buf.len());
        match slot {
            Slot::New(a) => {
                buf.extend([0xff, 1, 1, 0, 0, 0, 0, 0]);
                buf.extend(a.key);
                buf.extend(a.owner);
                buf.extend(a.lamports.to_le_bytes());
                buf.extend((a.data.len() as u64).to_le_bytes());
                buf.extend(&a.data);
                while buf.len() % 8 != 0 {
                    buf.push(0);
                }
                buf.extend(vec![0u8; 10_240]);
            }
            Slot::Dup(i) => buf.extend([i, 0, 0, 0, 0, 0, 0, 0]),
        }
    }
    buf.extend((ix.len() as u64).to_le_bytes());
    buf.extend(ix);
    buf.extend(ID_BYTES);
    (buf, offsets)
}

fn mint_data(decimals: u8) -> Vec<u8> {
    let mut d = vec![0u8; 82];
    d[44] = decimals;
    d
}

fn token_data(mint: [u8; 32], owner: [u8; 32], amount: u64) -> Vec<u8> {
    let mut d = mint.to_vec();
    d.extend(owner);
    d.extend(amount.to_le_bytes());
    d.resize(165, 0);
    d
}

fn clock_data(now: i64) -> Vec<u8> {
    let mut d = vec![0u8; 32];
    d.extend(now.to_le_bytes());
    d
}

fn fundraiser_data(maker: [u8; 32], mint: [u8; 32], target: u64, raised: u64, duration: u8) -> Vec<u8> {
    let mut d = maker.to_vec();
    d.extend(mint);
    d.extend(target.to_le_bytes());
    d.extend(raised.to_le_bytes());
    d.extend(START.to_le_bytes());
    d.push(duration);
    d.push(253);
    d
}

fn u64_in(buf: &[u8], off: usize) -> u64 {
    u64::from_le_bytes(buf[off..off + 8].try_into().unwrap())
}

const MAKER: u8 = 10;
const MINT: u8 = 20;
const FUND: u8 = 30;
const VAULT: u8 = 40;
const ATA: u8 = 50;
const CONTRIB: u8 = 60;
const CACC: u8 = 70;
const CLOCK: u8 = 80;

// ---------------------------------------------------------------- layout

#[test]
fn next_slot_offset_aligns_to_eight() {
    assert_eq!(next_slot_offset(8, 0xff, 0), 8 + 10_328);
    assert_eq!(next_slot_offset(8, 0xff, 1), 8 + 10_328 + 8);
    assert_eq!(next_slot_offset(8, 0xff, 8), 8 + 10_328 + 8);
    assert_eq!(next_slot_offset(8, 0xff, 9), 8 + 10_328 + 16);
    assert_eq!(next_slot_offset(16, 3, 999), 24);
}

#[test]
fn second_slot_follows_the_documented_stride() {
    let (buf, offs) = build(vec![with_data(key(1), [0u8; 32], 1, vec![7; 13]), plain(key(2))], &[]);
    assert_eq!(offs[1], 8 + 10_328 + 16);
    let mut out = [Account(0); 10];
    parse_input(&buf, &mut out);
    assert_eq!(out[1].0, offs[1]);
    assert_eq!(&buf[out[1].0 + 8..out[1].0 + 40], &key(2));
}

#[test]
fn input_layout_is_checked() {
    let (buf, _) = build(vec![plain(key(1)), Slot::Dup(0)], &[1, 2, 3]);
    assert!(input_layout_holds(&buf));
    assert!(!input_layout_holds(&buf[..buf.len() - 1]));
    let (buf, _) = build(vec![plain(key(1)), Slot::Dup(12)], &[]);
    assert!(!input_layout_holds(&buf));
    assert!(!input_layout_holds(&[1, 0, 0]));
}

#[test]
fn parse_input_resolves_duplicates() {
    let (buf, offs) = build(vec![plain(key(1)), plain(key(2)), Slot::Dup(0), Slot::Dup(1)], &[9, 8, 7]);
    let mut out = [Account(0); 10];
    let (ix_off, ix_len, program_id) = parse_input(&buf, &mut out);
    assert_eq!(out[0].0, offs[0]);
    assert_eq!(out[1].0, offs[1]);
    assert_eq!(out[2].0, offs[0]);
    assert_eq!(out[3].0, offs[1]);
    assert_eq!(out[4].0, 0);
    assert_eq!(ix_len, 3);
    assert_eq!(&buf[ix_off..ix_off + ix_len], &[9, 8, 7]);
    assert_eq!(program_id, ix_off + 3);
    assert_eq!(&buf[program_id..program_id + 32], &ID_BYTES);
}

#[test]
fn parse_input_fills_at_most_nine() {
    let slots = (0..11u8).map(|i| plain(key(i))).collect();
    let (buf, offs) = build(slots, &[]);
    let mut out = [Account(0); 10];
    parse_input(&buf, &mut out);
    for i in 0..9 {
        assert_eq!(out[i].0, offs[i]);
    }
    assert_eq!(out[9].0, 0);
}

#[test]
fn parse_input_keeps_forward_duplicate_as_given() {
    let (buf, offs) = build(vec![plain(key(1)), Slot::Dup(5)], &[]);
    let mut out = [Account(7); 10];
    parse_input(&buf, &mut out);
    assert_eq!(out[0].0, offs[0]);
    assert_eq!(out[1].0, 7);
}

#[test]
fn account_fields_are_read_at_their_offsets() {
    let (mut buf, offs) = build(vec![with_data(key(5), ID_BYTES, 77, vec![1, 2, 3, 4, 5, 6, 7, 8, 9])], &[]);
    let a = Account(offs[0]);
    assert_eq!(a.key(), offs[0] + 8);
    assert_eq!(a.owner(), offs[0] + 40);
    assert_eq!(a.data(), offs[0] + 88);
    assert_eq!(&buf[a.key()..a.key() + 32], &key(5));
    assert_eq!(a.lamports(&buf), 77);
    assert_eq!(a.data_len(&buf), 9);
    assert_eq!(a.is_signer(&buf), 1);
    assert_eq!(a.is_writable(&buf), 1);
    assert!(a.owned_by(&buf, &ID_BYTES));
    assert!(!a.owned_by(&buf, &key(5)));
    assert_eq!(a.read_u8(&buf, 8), 9);
    assert_eq!(a.read_u64(&buf, 0), u64::from_le_bytes([1, 2, 3, 4, 5, 6, 7, 8]));
    a.set_lamport(&mut buf, 5);
    assert_eq!(a.lamports(&buf), 5);
    a.write_u64(&mut buf, 16, 0xdead);
    assert_eq!(a.read_u64(&buf, 16), 0xdead);
    a.write_u8(&mut buf, 1, 0x42);
    assert_eq!(a.read_u8(&buf, 1), 0x42);
    assert_eq!(a.read_u8(&buf, 0), 1);
}

// ---------------------------------------------------------------- entry

#[test]
fn empty_instruction_data_gives_error_4() {
    let (mut buf, _) = build(vec![plain(key(1))], &[]);
    let before = buf.clone();
    assert!(entry_requirements_hold(&buf));
    assert!(matches!(entrypoint(&mut buf), Step::Done(Err(4))));
    assert_eq!(buf, before);
}

#[test]
fn unknown_discriminator_gives_error_4() {
    let (mut buf, _) = build(vec![plain(key(1))], &[9, 1, 2]);
    let before = buf.clone();
    assert!(matches!(entrypoint(&mut buf), Step::Done(Err(4))));
    assert_eq!(buf, before);
}

#[test]
fn exit_code_is_zero_or_the_error() {
    assert_eq!(exit_code(Ok(())), 0);
    assert_eq!(exit_code(Err(20)), 20);
    assert_eq!(exit_code(Err(21)), 21);
}

// ---------------------------------------------------------------- initialize

fn initialize_input(fundraiser_owner: [u8; 32], target: u64, decimals: u8) -> (Vec<u8>, Vec<usize>) {
    let mut ix = vec![0u8];
    ix.extend(target.to_le_bytes());
    ix.extend(START.to_le_bytes());
    ix.push(14);
    ix.push(251);
    build(
        vec![
            plain(key(MAKER)),
            with_data(key(MINT), [0u8; 32], 1, mint_data(decimals)),
            with_data(key(FUND), fundraiser_owner, 0, vec![]),
            plain(key(VAULT)),
            plain(key(1)),
            plain(key(2)),
            plain(key(3)),
        ],
        &ix,
    )
}

#[test]
fn initialize_refuses_an_existing_fundraiser() {
    let (mut buf, _) = initialize_input(ID_BYTES, 1_000_000_000, 6);
    let before = buf.clone();
    assert!(entry_requirements_hold(&buf));
    assert!(matches!(entrypoint(&mut buf), Step::Done(Err(11))));
    assert_eq!(buf, before);
}

#[test]
fn initialize_refuses_a_target_below_three_tokens() {
    let (mut buf, _) = initialize_input([0u8; 32], 2_999_999, 6);
    assert!(matches!(entrypoint(&mut buf), Step::Done(Err(20))));
    let (mut buf, _) = initialize_input([0u8; 32], 2, 0);
    assert!(matches!(entrypoint(&mut buf), Step::Done(Err(20))));
}

#[test]
fn initialize_requires_known_decimals() {
    let (buf, _) = initialize_input([0u8; 32], 3_000_000, 12);
    assert!(!entry_requirements_hold(&buf));
}

#[test]
fn initialize_creates_fundraiser_then_vault() {
    let (mut buf, offs) = initialize_input([0u8; 32], 3_000_000, 6);
    assert!(entry_requirements_hold(&buf));
    let stage = match entrypoint(&mut buf) {
        Step::Invoke(Cpi::CreateAccount { from, to, lamports, space, owner, signer }, stage) => {
            assert_eq!(from.0, offs[0]);
            assert_eq!(to.0, offs[2]);
            assert_eq!(lamports, FUNDRAISER_RENT_EXEMPT);
            assert_eq!(space, 90);
            assert_eq!(owner, ID_BYTES);
            assert_eq!(signer.label, SeedLabel::Fundraiser);
            assert_eq!(signer.key, key(MAKER));
            assert_eq!(signer.bump, 251);
            stage
        }
        _ => panic!("expected the fundraiser account to be created"),
    };
    assert!(stage.can_resume(&buf));
    let stage = match resume(stage, &mut buf) {
        Step::Invoke(
            Cpi::CreateAssociatedTokenAccount { funding_account, account, wallet, mint, token_program, system_program },
            stage,
        ) => {
            assert_eq!(funding_account.0, offs[0]);
            assert_eq!(account.0, offs[3]);
            assert_eq!(wallet.0, offs[2]);
            assert_eq!(mint.0, offs[1]);
            assert_eq!(system_program.0, offs[4]);
            assert_eq!(token_program.0, offs[5]);
            stage
        }
        _ => panic!("expected the vault to be created"),
    };
    let f = Fundraiser::from_ptr(&buf, offs[2] + 88);
    assert_eq!(f.maker(), &key(MAKER));
    assert_eq!(f.mint_to_raise(), &key(MINT));
    assert_eq!(f.amount_to_raise(), 3_000_000);
    assert_eq!(f.current_amount(), 0);
    assert_eq!(f.time_started(), START);
    assert_eq!(f.duration, 14);
    assert_eq!(f.bump, 251);
    assert!(matches!(stage, Stage::Finished));
    assert!(matches!(resume(stage, &mut buf), Step::Done(Ok(()))));
}

// ---------------------------------------------------------------- contribute

fn contribute_input(
    ata_owner: [u8; 32],
    amount: u64,
    now: i64,
    existing: Option<u64>,
) -> (Vec<u8>, Vec<usize>) {
    let mut ix = vec![1u8];
    ix.extend(amount.to_le_bytes());
    ix.push(249);
    let contributor_account = match existing {
        Some(total) => with_data(key(CACC), ID_BYTES, 500, total.to_le_bytes().to_vec()),
        None => with_data(key(CACC), [0u8; 32], 0, vec![]),
    };
    build(
        vec![
            plain(key(CONTRIB)),
            with_data(key(MINT), [0u8; 32], 1, mint_data(6)),
            with_data(key(FUND), ID_BYTES, 9, fundraiser_data(key(MAKER), key(MINT), 1_000, 100, 10)),
            contributor_account,
            with_data(key(ATA), [0u8; 32], 1, token_data(key(MINT), ata_owner, 5_000)),
            with_data(key(VAULT), [0u8; 32], 1, token_data(key(MINT), key(FUND), 100)),
            with_data(key(CLOCK), [0u8; 32], 1, clock_data(now)),
            plain(key(1)),
            plain(key(2)),
            plain(key(3)),
        ],
        &ix,
    )
}

#[test]
fn contribute_refuses_a_foreign_token_account() {
    let (mut buf, _) = contribute_input(key(99), 50, START, None);
    let before = buf.clone();
    assert!(entry_requirements_hold(&buf));
    assert!(matches!(entrypoint(&mut buf), Step::Done(Err(21))));
    assert_eq!(buf, before);
}

#[test]
fn contribute_refuses_zero_and_too_much() {
    let (mut buf, _) = contribute_input(key(CONTRIB), 0, START, None);
    assert!(matches!(entrypoint(&mut buf), Step::Done(Err(20))));
    let (mut buf, _) = contribute_input(key(CONTRIB), 101, START, None);
    assert!(matches!(entrypoint(&mut buf), Step::Done(Err(20))));
}

#[test]
fn contribute_refuses_after_the_deadline() {
    let (mut buf, _) = contribute_input(key(CONTRIB), 50, START + 10 * DAY, None);
    let before = buf.clone();
    assert!(matches!(entrypoint(&mut buf), Step::Done(Err(20))));
    assert_eq!(buf, before);
    let (mut buf, _) = contribute_input(key(CONTRIB), 50, START + 10 * DAY - 1, None);
    assert!(matches!(entrypoint(&mut buf), Step::Invoke(..)));
}

#[test]
fn contribute_refuses_long_after_the_deadline() {
    let (mut buf, _) = contribute_input(key(CONTRIB), 50, START + 260 * DAY, None);
    assert!(entry_requirements_hold(&buf));
    assert!(matches!(entrypoint(&mut buf), Step::Done(Err(20))));
}

#[test]
fn first_contribution_creates_the_contributor_account() {
    let (mut buf, offs) = contribute_input(key(CONTRIB), 100, START + DAY, None);
    let before = buf.clone();
    assert!(entry_requirements_hold(&buf));
    let stage = match entrypoint(&mut buf) {
        Step::Invoke(Cpi::CreateAccount { from, to, lamports, space, owner, signer }, stage) => {
            assert_eq!(from.0, offs[0]);
            assert_eq!(to.0, offs[3]);
            assert_eq!(lamports, CONTRIBUTOR_RENT_EXEMPT);
            assert_eq!(space, 8);
            assert_eq!(owner, ID_BYTES);
            assert_eq!(signer.label, SeedLabel::Contributor);
            assert_eq!(signer.key, key(CONTRIB));
            assert_eq!(signer.bump, 249);
            stage
        }
        _ => panic!("expected the contributor account to be created"),
    };
    assert_eq!(buf, before);
    assert!(stage.can_resume(&buf));
    let stage = match resume(stage, &mut buf) {
        Step::Invoke(Cpi::Transfer { from, to, authority, amount, signers }, stage) => {
            assert_eq!(from.0, offs[4]);
            assert_eq!(to.0, offs[5]);
            assert_eq!(authority.0, offs[0]);
            assert_eq!(amount, 100);
            assert!(signers.is_none());
            stage
        }
        _ => panic!("expected a transfer"),
    };
    assert_eq!(u64_in(&buf, offs[3] + 88), 100);
    assert!(stage.can_resume(&buf));
    assert!(matches!(resume(stage, &mut buf), Step::Done(Ok(()))));
    assert_eq!(u64_in(&buf, offs[2] + 88 + 72), 200);
}

#[test]
fn further_contribution_adds_to_the_record() {
    let (mut buf, offs) = contribute_input(key(CONTRIB), 30, START, Some(60));
    let stage = match entrypoint(&mut buf) {
        Step::Invoke(Cpi::Transfer { amount, signers, .. }, stage) => {
            assert_eq!(amount, 30);
            assert!(signers.is_none());
            stage
        }
        _ => panic!("expected a transfer"),
    };
    assert_eq!(u64_in(&buf, offs[3] + 88), 90);
    assert!(matches!(resume(stage, &mut buf), Step::Done(Ok(()))));
    assert_eq!(u64_in(&buf, offs[2] + 88 + 72), 130);
}

#[test]
fn contribution_past_the_cap_is_refused() {
    let (mut buf, _) = contribute_input(key(CONTRIB), 41, START, Some(60));
    let before = buf.clone();
    assert!(matches!(entrypoint(&mut buf), Step::Done(Err(20))));
    assert_eq!(buf, before);
}

#[test]
fn contribution_that_would_overflow_is_out_of_contract() {
    let (buf, _) = contribute_input(key(CONTRIB), 50, START, Some(u64::MAX - 10));
    assert!(!entry_requirements_hold(&buf));
}

// ---------------------------------------------------------------- checker

fn checker_input(ata_owner: [u8; 32], vault_amount: u64) -> (Vec<u8>, Vec<usize>) {
    build(
        vec![
            with_data(key(MAKER), [0u8; 32], 1_000, vec![]),
            with_data(key(MINT), [0u8; 32], 1, mint_data(6)),
            with_data(key(FUND), ID_BYTES, 2_000, fundraiser_data(key(MAKER), key(MINT), 1_000, 1_000, 10)),
            with_data(key(VAULT), [0u8; 32], 1, token_data(key(MINT), key(FUND), vault_amount)),
            with_data(key(ATA), [0u8; 32], 1, token_data(key(MINT), ata_owner, 0)),
            plain(key(1)),
            plain(key(2)),
        ],
        &[2, 252],
    )
}

#[test]
fn checker_refuses_a_foreign_token_account() {
    let (mut buf, _) = checker_input(key(99), 1_000);
    assert!(matches!(entrypoint(&mut buf), Step::Done(Err(21))));
}

#[test]
fn checker_refuses_before_the_target() {
    let (mut buf, _) = checker_input(key(MAKER), 999);
    let before = buf.clone();
    assert!(matches!(entrypoint(&mut buf), Step::Done(Err(20))));
    assert_eq!(buf, before);
}

#[test]
fn checker_pays_out_the_vault_and_closes_the_fundraiser() {
    let (mut buf, offs) = checker_input(key(MAKER), 1_200);
    assert!(entry_requirements_hold(&buf));
    let stage = match entrypoint(&mut buf) {
        Step::Invoke(Cpi::Transfer { from, to, authority, amount, signers }, stage) => {
            assert_eq!(from.0, offs[3]);
            assert_eq!(to.0, offs[4]);
            assert_eq!(authority.0, offs[2]);
            assert_eq!(amount, 1_200);
            let s = signers.unwrap();
            assert_eq!(s.label, SeedLabel::Fundraiser);
            assert_eq!(s.key, key(MAKER));
            assert_eq!(s.bump, 252);
            stage
        }
        _ => panic!("expected a transfer"),
    };
    assert!(stage.can_resume(&buf));
    assert!(matches!(resume(stage, &mut buf), Step::Done(Ok(()))));
    assert_eq!(Account(offs[0]).lamports(&buf), 3_000);
    assert_eq!(Account(offs[2]).lamports(&buf), 0);
}

// ---------------------------------------------------------------- refund

fn refund_input(ata_owner: [u8; 32], now: i64, vault_amount: u64) -> (Vec<u8>, Vec<usize>) {
    build(
        vec![
            with_data(key(CONTRIB), [0u8; 32], 100, vec![]),
            plain(key(MAKER)),
            with_data(key(MINT), [0u8; 32], 1, mint_data(6)),
            with_data(key(FUND), ID_BYTES, 9, fundraiser_data(key(MAKER), key(MINT), 1_000, 300, 10)),
            with_data(key(CACC), ID_BYTES, 946_560, 80u64.to_le_bytes().to_vec()),
            with_data(key(ATA), [0u8; 32], 1, token_data(key(MINT), ata_owner, 0)),
            with_data(key(VAULT), [0u8; 32], 1, token_data(key(MINT), key(FUND), vault_amount)),
            with_data(key(CLOCK), [0u8; 32], 1, clock_data(now)),
            plain(key(1)),
        ],
        &[3, 250],
    )
}

#[test]
fn refund_refuses_a_foreign_token_account() {
    let (mut buf, _) = refund_input(key(99), START + 20 * DAY, 300);
    assert!(matches!(entrypoint(&mut buf), Step::Done(Err(21))));
}

#[test]
fn refund_refuses_before_the_deadline() {
    let (mut buf, _) = refund_input(key(CONTRIB), START + 9 * DAY, 300);
    let before = buf.clone();
    assert!(matches!(entrypoint(&mut buf), Step::Done(Err(20))));
    assert_eq!(buf, before);
}

#[test]
fn refund_refuses_before_the_start() {
    let (mut buf, _) = refund_input(key(CONTRIB), START - DAY, 300);
    assert!(entry_requirements_hold(&buf));
    assert!(matches!(entrypoint(&mut buf), Step::Done(Err(20))));
    let (mut buf, _) = refund_input(key(CONTRIB), START + 300 * DAY, 300);
    assert!(matches!(entrypoint(&mut buf), Step::Invoke(..)));
}

#[test]
fn seed_labels_give_their_bytes() {
    assert_eq!(SeedLabel::Fundraiser.bytes(), b"fundraiser");
    assert_eq!(SeedLabel::Contributor.bytes(), b"contributor");
}

#[test]
fn refund_refuses_when_the_target_was_met() {
    let (mut buf, _) = refund_input(key(CONTRIB), START + 20 * DAY, 1_000);
    assert!(matches!(entrypoint(&mut buf), Step::Done(Err(20))));
}

#[test]
fn refund_returns_the_contribution_and_closes_the_record() {
    let (mut buf, offs) = refund_input(key(CONTRIB), START + 10 * DAY, 300);
    assert!(entry_requirements_hold(&buf));
    let stage = match entrypoint(&mut buf) {
        Step::Invoke(Cpi::Transfer { from, to, authority, amount, signers }, stage) => {
            assert_eq!(from.0, offs[6]);
            assert_eq!(to.0, offs[5]);
            assert_eq!(authority.0, offs[3]);
            assert_eq!(amount, 80);
            let s = signers.unwrap();
            assert_eq!(s.label, SeedLabel::Fundraiser);
            assert_eq!(s.key, key(MAKER));
            assert_eq!(s.bump, 250);
            stage
        }
        _ => panic!("expected a transfer"),
    };
    assert_eq!(u64_in(&buf, offs[3] + 88 + 72), 220);
    assert!(stage.can_resume(&buf));
    assert!(matches!(resume(stage, &mut buf), Step::Done(Ok(()))));
    assert_eq!(Account(offs[0]).lamports(&buf), 100 + 946_560);
    assert_eq!(Account(offs[4]).lamports(&buf), 0);
}

#[test]
fn contribute_and_refund_windows_do_not_overlap() {
    for days in [-1i64, 0, 5, 9, 10, 11, 30, 255, 256, 260] {
        let now = START + days * DAY;
        let (mut c, _) = contribute_input(key(CONTRIB), 50, now, None);
        let (mut r, _) = refund_input(key(CONTRIB), now, 300);
        let contributes = matches!(entrypoint(&mut c), Step::Invoke(..));
        let refunds = matches!(entrypoint(&mut r), Step::Invoke(..));
        assert!(contributes != refunds, "day {}", days);
    }
}

#[test]
fn stage_can_resume_detects_lamport_overflow() {
    let (buf, offs) = checker_input(key(MAKER), 1_200);
    let ok = Stage::VaultClaimed { maker: Account(offs[0]), fundraiser: Account(offs[2]) };
    assert!(ok.can_resume(&buf));
    let mut big = buf.clone();
    Account(offs[0]).set_lamport(&mut big, u64::MAX);
    assert!(!ok.can_resume(&big));
    let null = Stage::VaultClaimed { maker: Account(0), fundraiser: Account(offs[2]) };
    assert!(!null.can_resume(&buf));
}
