use token_fundraiser::state::contributor::Contributor;
use token_fundraiser::state::fundraiser::Fundraiser;

fn key(fill: u8) -> Vec<u8> {
    (0..32u8).map(|i| fill.wrapping_add(i)).collect()
}

#[test]
fn contributor_set_amount_then_amount() {
    let mut c = Contributor::default();
    assert_eq!(c.amount(), 0);
    c.set_amount(42);
    assert_eq!(c.amount(), 42);
    c.set_amount(u64::MAX);
    assert_eq!(c.amount(), u64::MAX);
}

#[test]
fn contributor_reads_and_writes_its_bytes() {
    let mut buf = vec![0u8; 12];
    buf[2..10].copy_from_slice(&777u64.to_le_bytes());
    let mut c = Contributor::from_ptr(&buf, 2);
    assert_eq!(c.amount(), 777);
    c.set_amount(778);
    c.write_to(&mut buf, 2);
    assert_eq!(&buf[2..10], &778u64.to_le_bytes());
    assert_eq!(&buf[10..12], &[0, 0]);
}

#[test]
fn contributor_from_ptr_checked_rejects_wrong_length() {
    let buf = 5u64.to_le_bytes().to_vec();
    assert_eq!(Contributor::from_ptr_checked(&buf, 0, 7), Err(2));
    assert_eq!(Contributor::from_ptr_checked(&buf, 0, 9), Err(2));
    assert_eq!(Contributor::from_ptr_checked(&buf, 0, 8).unwrap().amount(), 5);
}

fn record() -> Vec<u8> {
    let mut b = key(1);
    b.extend(key(100));
    b.extend(1_000u64.to_le_bytes());
    b.extend(250u64.to_le_bytes());
    b.extend((-7i64).to_le_bytes());
    b.push(30);
    b.push(254);
    b
}

#[test]
fn fundraiser_reads_its_fields() {
    let buf = record();
    let f = Fundraiser::from_ptr(&buf, 0);
    assert_eq!(&f.maker()[..], &key(1)[..]);
    assert_eq!(&f.mint_to_raise()[..], &key(100)[..]);
    assert_eq!(f.amount_to_raise(), 1_000);
    assert_eq!(f.current_amount(), 250);
    assert_eq!(f.time_started(), -7);
    assert_eq!(f.duration, 30);
    assert_eq!(f.bump, 254);
}

#[test]
fn fundraiser_setters_change_one_field() {
    let buf = record();
    let mut f = Fundraiser::from_ptr(&buf, 0);
    f.set_current_amount(999);
    assert_eq!(f.current_amount(), 999);
    assert_eq!(f.amount_to_raise(), 1_000);
    assert_eq!(f.time_started(), -7);
    f.set_amount_to_raise(5);
    assert_eq!(f.amount_to_raise(), 5);
    assert_eq!(f.current_amount(), 999);
    f.set_time_started(123);
    assert_eq!(f.time_started(), 123);
    let other = key(50);
    f.set_maker(&other, 0);
    assert_eq!(&f.maker()[..], &other[..]);
    assert_eq!(&f.mint_to_raise()[..], &key(100)[..]);
    f.set_mint_to_raise(&other, 0);
    assert_eq!(&f.mint_to_raise()[..], &other[..]);
    assert_eq!(f.duration, 30);
    assert_eq!(f.bump, 254);
}

#[test]
fn fundraiser_write_to_then_from_ptr_roundtrip() {
    let buf = record();
    let mut f = Fundraiser::from_ptr(&buf, 0);
    f.set_current_amount(1);
    let mut out = vec![0xeeu8; 94];
    f.write_to(&mut out, 2);
    let g = Fundraiser::from_ptr(&out, 2);
    assert_eq!(g.current_amount(), 1);
    assert_eq!(g.amount_to_raise(), 1_000);
    assert_eq!(&out[0..2], &[0xee, 0xee]);
    assert_eq!(&out[92..94], &[0xee, 0xee]);
    let mut same = vec![0u8; 90];
    Fundraiser::from_ptr(&buf, 0).write_to(&mut same, 0);
    assert_eq!(same, buf);
}

#[test]
fn fundraiser_initialize_from_reads_back() {
    let maker = key(3);
    let mint = key(4);
    let mut dst = vec![0xffu8; 100];
    Fundraiser::initialize_from(&mut dst, 5, &maker, 0, &mint, 0, 5_000, 1_700_000_000, 7, 200);
    let f = Fundraiser::from_ptr(&dst, 5);
    assert_eq!(&f.maker()[..], &maker[..]);
    assert_eq!(&f.mint_to_raise()[..], &mint[..]);
    assert_eq!(f.amount_to_raise(), 5_000);
    assert_eq!(f.current_amount(), 0);
    assert_eq!(f.time_started(), 1_700_000_000);
    assert_eq!(f.duration, 7);
    assert_eq!(f.bump, 200);
    assert_eq!(&dst[0..5], &[0xff; 5]);
    assert_eq!(&dst[95..100], &[0xff; 5]);
}

#[test]
fn fundraiser_from_ptr_checked_rejects_wrong_length() {
    let buf = record();
    assert!(matches!(Fundraiser::from_ptr_checked(&buf, 0, 89), Err(2)));
    assert!(matches!(Fundraiser::from_ptr_checked(&buf, 0, 91), Err(2)));
    assert_eq!(Fundraiser::from_ptr_checked(&buf, 0, 90).ok().unwrap().amount_to_raise(), 1_000);
}
