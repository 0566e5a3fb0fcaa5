//! The fundraiser record: who raises, which mint, how much, since when and
//! for how long.
use vstd::prelude::*;
use vstd::bytes::*;
use crate::asm_ops::{
    read_u64_at, read_i64_at, write_u64_at, copy32, with_bytes_at, with_u64_at, u64_at, i64_at,
    key_at, lemma_u64_read_after_write,
};

verus! {

/// The 90-byte encoding of a fundraiser record with the given fields, in the
/// order in which they lie in account data.
pub open spec fn fundraiser_bytes(
    maker: Seq<u8>,
    mint_to_raise: Seq<u8>,
    amount_to_raise: u64,
    current_amount: u64,
    time_started: i64,
    duration: u8,
    bump: u8,
) -> Seq<u8> {
    maker + mint_to_raise + spec_u64_to_le_bytes(amount_to_raise) + spec_u64_to_le_bytes(
        current_amount,
    ) + spec_u64_to_le_bytes(time_started as u64) + seq![duration, bump]
}

/// A fundraiser record, laid out as it is stored in account data.
pub struct Fundraiser {
    pub(crate) maker: [u8; 32],
    pub(crate) mint_to_raise: [u8; 32],
    pub(crate) amount_to_raise: [u8; 8],
    pub(crate) current_amount: [u8; 8],
    pub(crate) time_started: [u8; 8],
    pub duration: u8,
    pub bump: u8,
}

impl View for Fundraiser {
    type V = Seq<u8>;

    /// The record's encoding: the bytes it occupies in account data.
    closed spec fn view(&self) -> Seq<u8> {
        self.maker@ + self.mint_to_raise@ + self.amount_to_raise@ + self.current_amount@
            + self.time_started@ + seq![self.duration, self.bump]
    }
}

/// Two encodings that agree outside `[lo, hi)` agree on every field that
/// lies outside it.
proof fn lemma_fields_outside(a: Seq<u8>, b: Seq<u8>, lo: int, hi: int)
    requires
        a.len() == 90,
        b.len() == 90,
        forall|j: int| 0 <= j < 90 && !(lo <= j < hi) ==> #[trigger] b[j] == a[j],
    ensures
        (hi <= 0 || lo >= 32) ==> key_at(b, 0) == key_at(a, 0),
        (hi <= 32 || lo >= 64) ==> key_at(b, 32) == key_at(a, 32),
        (hi <= 64 || lo >= 72) ==> u64_at(b, 64) == u64_at(a, 64),
        (hi <= 72 || lo >= 80) ==> u64_at(b, 72) == u64_at(a, 72),
        (hi <= 80 || lo >= 88) ==> i64_at(b, 80) == i64_at(a, 80),
        (hi <= 88 || lo >= 89) ==> b[88] == a[88],
        (hi <= 89 || lo >= 90) ==> b[89] == a[89],
{
    if hi <= 0 || lo >= 32 {
        assert(key_at(b, 0) =~= key_at(a, 0));
    }
    if hi <= 32 || lo >= 64 {
        assert(key_at(b, 32) =~= key_at(a, 32));
    }
    if hi <= 64 || lo >= 72 {
        assert(b.subrange(64, 72) =~= a.subrange(64, 72));
    }
    if hi <= 72 || lo >= 80 {
        assert(b.subrange(72, 80) =~= a.subrange(72, 80));
    }
    if hi <= 80 || lo >= 88 {
        assert(b.subrange(80, 88) =~= a.subrange(80, 88));
    }
}

impl Fundraiser {
    /// Size of the record in account data.
    pub const LEN: usize = 90;

    pub const MAKER_OFFSET: usize = 0;

    pub const MINT_OFFSET: usize = 32;

    pub const AMOUNT_TO_RAISE_OFFSET: usize = 64;

    pub const CURRENT_AMOUNT_OFFSET: usize = 72;

    pub const TIME_STARTED_OFFSET: usize = 80;

    pub const DURATION_OFFSET: usize = 88;

    pub const BUMP_OFFSET: usize = 89;

    /// The maker's key.
    pub open spec fn spec_maker(self) -> Seq<u8> {
        key_at(self@, 0)
    }

    /// The mint the fundraiser collects.
    pub open spec fn spec_mint_to_raise(self) -> Seq<u8> {
        key_at(self@, 32)
    }

    /// The target amount.
    pub open spec fn spec_amount_to_raise(self) -> u64 {
        u64_at(self@, 64)
    }

    /// The amount contributed so far.
    pub open spec fn spec_current_amount(self) -> u64 {
        u64_at(self@, 72)
    }

    /// When the fundraiser started (Unix time).
    pub open spec fn spec_time_started(self) -> i64 {
        i64_at(self@, 80)
    }

    /// How many days the fundraiser runs.
    pub open spec fn spec_duration(self) -> u8 {
        self@[88]
    }

    /// The bump of the fundraiser's program address.
    pub open spec fn spec_bump(self) -> u8 {
        self@[89]
    }

    /// All fields of the record, in layout order.
    pub open spec fn spec_fields(self) -> (Seq<u8>, Seq<u8>, u64, u64, i64, u8, u8) {
        (
            self.spec_maker(),
            self.spec_mint_to_raise(),
            self.spec_amount_to_raise(),
            self.spec_current_amount(),
            self.spec_time_started(),
            self.spec_duration(),
            self.spec_bump(),
        )
    }

    /// The public fields are the last two bytes of the encoding.
    pub(crate) proof fn lemma_tail_fields(self)
        ensures
            self.duration == self@[88],
            self.bump == self@[89],
    {
    }

    /// A record's encoding is `LEN` bytes long.
    pub proof fn lemma_len(self)
        ensures
            self@.len() == Self::LEN,
    {
    }

    /// A copy of the record stored at `off` in `data`. The setters change
    /// only this copy; the account data changes when the copy is stored back
    /// with `write_to`.
    pub fn from_ptr(data: &[u8], off: usize) -> (r: Self)
        requires
            off + Self::LEN <= data@.len(),
        ensures
            r@ == data@.subrange(off as int, off + Self::LEN),
    {
        let len = data.len();
        let mut maker = [0u8; 32];
        let mut mint_to_raise = [0u8; 32];
        let mut amount_to_raise = [0u8; 8];
        let mut current_amount = [0u8; 8];
        let mut time_started = [0u8; 8];
        copy32(&mut maker, 0, data, off);
        copy32(&mut mint_to_raise, 0, data, off + 32);
        write_u64_at::<0>(&mut amount_to_raise, 0, read_u64_at::<64>(data, off));
        write_u64_at::<0>(&mut current_amount, 0, read_u64_at::<72>(data, off));
        write_u64_at::<0>(&mut time_started, 0, read_u64_at::<80>(data, off));
        let duration = data[off + 88];
        let bump = data[off + 89];
        let r = Fundraiser { maker, mint_to_raise, amount_to_raise, current_amount, time_started, duration, bump };
        proof {
            lemma_auto_spec_u64_to_from_le_bytes();
            let s = data@;
            let o = off as int;
            assert(maker@ =~= s.subrange(o, o + 32));
            assert(mint_to_raise@ =~= s.subrange(o + 32, o + 64));
            assert(amount_to_raise@ =~= s.subrange(o + 64, o + 72));
            assert(current_amount@ =~= s.subrange(o + 72, o + 80));
            assert(time_started@ =~= s.subrange(o + 80, o + 88));
            assert(r@ =~= s.subrange(o, o + 90));
        }
        r
    }

    /// A copy of the record stored at `off` in `data` (see `from_ptr`),
    /// after checking that the account data is exactly `LEN` bytes long (error 2 otherwise).
    pub fn from_ptr_checked(data: &[u8], off: usize, len: usize) -> (r: Result<Self, u32>)
        requires
            len == Self::LEN ==> off + Self::LEN <= data@.len(),
        ensures
            len != Self::LEN ==> r is Err && r->Err_0 == 2,
            len == Self::LEN ==> (r matches Ok(f) && f@ == data@.subrange(off as int, off + Self::LEN)),
    {
        if len != Self::LEN {
            return Err(0x2);
        }
        Ok(Self::from_ptr(data, off))
    }

    /// The maker's key.
    pub fn maker(&self) -> (r: &[u8; 32])
        ensures
            r@ == self.spec_maker(),
    {
        proof {
            assert(self.maker@ =~= key_at(self@, 0));
        }
        &self.maker
    }

    /// Replaces the maker's key with the 32 bytes at `maker_off` in `maker`.
    pub fn set_maker(&mut self, maker: &[u8], maker_off: usize)
        requires
            maker_off + 32 <= maker@.len(),
        ensures
            final(self)@ == with_bytes_at(old(self)@, 0, key_at(maker@, maker_off as int)),
            final(self).spec_fields() == (
                key_at(maker@, maker_off as int),
                old(self).spec_mint_to_raise(),
                old(self).spec_amount_to_raise(),
                old(self).spec_current_amount(),
                old(self).spec_time_started(),
                old(self).spec_duration(),
                old(self).spec_bump(),
            ),
    {
        copy32(&mut self.maker, 0, maker, maker_off);
        proof {
            assert(self@ =~= with_bytes_at(old(self)@, 0, key_at(maker@, maker_off as int)));
            lemma_fields_outside(old(self)@, self@, 0, 32);
            assert(key_at(self@, 0) =~= key_at(maker@, maker_off as int));
        }
    }

    /// The mint the fundraiser collects.
    pub fn mint_to_raise(&self) -> (r: &[u8; 32])
        ensures
            r@ == self.spec_mint_to_raise(),
    {
        proof {
            assert(self.mint_to_raise@ =~= key_at(self@, 32));
        }
        &self.mint_to_raise
    }

    /// Replaces the mint with the 32 bytes at `mint_off` in `mint`.
    pub fn set_mint_to_raise(&mut self, mint: &[u8], mint_off: usize)
        requires
            mint_off + 32 <= mint@.len(),
        ensures
            final(self)@ == with_bytes_at(old(self)@, 32, key_at(mint@, mint_off as int)),
            final(self).spec_fields() == (
                old(self).spec_maker(),
                key_at(mint@, mint_off as int),
                old(self).spec_amount_to_raise(),
                old(self).spec_current_amount(),
                old(self).spec_time_started(),
                old(self).spec_duration(),
                old(self).spec_bump(),
            ),
    {
        copy32(&mut self.mint_to_raise, 0, mint, mint_off);
        proof {
            assert(self@ =~= with_bytes_at(old(self)@, 32, key_at(mint@, mint_off as int)));
            lemma_fields_outside(old(self)@, self@, 32, 64);
            assert(key_at(self@, 32) =~= key_at(mint@, mint_off as int));
        }
    }

    /// The target amount.
    pub fn amount_to_raise(&self) -> (r: u64)
        ensures
            r == self.spec_amount_to_raise(),
    {
        proof {
            assert(self.amount_to_raise@.subrange(0, 8) =~= self@.subrange(64, 72));
        }
        read_u64_at::<0>(&self.amount_to_raise, 0)
    }

    /// Replaces the target amount.
    pub fn set_amount_to_raise(&mut self, amount: u64)
        ensures
            final(self)@ == with_u64_at(old(self)@, 64, amount),
            final(self).spec_fields() == (
                old(self).spec_maker(),
                old(self).spec_mint_to_raise(),
                amount,
                old(self).spec_current_amount(),
                old(self).spec_time_started(),
                old(self).spec_duration(),
                old(self).spec_bump(),
            ),
    {
        write_u64_at::<0>(&mut self.amount_to_raise, 0, amount);
        proof {
            lemma_auto_spec_u64_to_from_le_bytes();
            assert(self@ =~= with_u64_at(old(self)@, 64, amount));
            lemma_u64_read_after_write(old(self)@, 64, amount);
            lemma_fields_outside(old(self)@, self@, 64, 72);
        }
    }

    /// The amount contributed so far.
    pub fn current_amount(&self) -> (r: u64)
        ensures
            r == self.spec_current_amount(),
    {
        proof {
            assert(self.current_amount@.subrange(0, 8) =~= self@.subrange(72, 80));
        }
        read_u64_at::<0>(&self.current_amount, 0)
    }

    /// Replaces the amount contributed so far.
    pub fn set_current_amount(&mut self, amount: u64)
        ensures
            final(self)@ == with_u64_at(old(self)@, 72, amount),
            final(self).spec_fields() == (
                old(self).spec_maker(),
                old(self).spec_mint_to_raise(),
                old(self).spec_amount_to_raise(),
                amount,
                old(self).spec_time_started(),
                old(self).spec_duration(),
                old(self).spec_bump(),
            ),
    {
        write_u64_at::<0>(&mut self.current_amount, 0, amount);
        proof {
            lemma_auto_spec_u64_to_from_le_bytes();
            assert(self@ =~= with_u64_at(old(self)@, 72, amount));
            lemma_u64_read_after_write(old(self)@, 72, amount);
            lemma_fields_outside(old(self)@, self@, 72, 80);
        }
    }

    /// When the fundraiser started (Unix time).
    pub fn time_started(&self) -> (r: i64)
        ensures
            r == self.spec_time_started(),
    {
        proof {
            assert(self.time_started@.subrange(0, 8) =~= self@.subrange(80, 88));
        }
        read_i64_at::<0>(&self.time_started, 0)
    }

    /// Replaces the start time.
    pub fn set_time_started(&mut self, time: i64)
        ensures
            final(self)@ == with_u64_at(old(self)@, 80, time as u64),
            final(self).spec_time_started() == time,
            final(self).spec_fields() == (
                old(self).spec_maker(),
                old(self).spec_mint_to_raise(),
                old(self).spec_amount_to_raise(),
                old(self).spec_current_amount(),
                time,
                old(self).spec_duration(),
                old(self).spec_bump(),
            ),
    {
        write_u64_at::<0>(&mut self.time_started, 0, time as u64);
        proof {
            lemma_auto_spec_u64_to_from_le_bytes();
            assert(self@ =~= with_u64_at(old(self)@, 80, time as u64));
            lemma_u64_read_after_write(old(self)@, 80, time as u64);
            assert((time as u64) as i64 == time) by (bit_vector);
            lemma_fields_outside(old(self)@, self@, 80, 88);
        }
    }

    /// Stores the record at `off` in `dst`.
    pub fn write_to(&self, dst: &mut [u8], off: usize)
        requires
            off + Self::LEN <= old(dst)@.len(),
        ensures
            final(dst)@ == with_bytes_at(old(dst)@, off as int, self@),
    {
        let len = dst.len();
        copy32(dst, off, &self.maker, 0);
        copy32(dst, off + 32, &self.mint_to_raise, 0);
        write_u64_at::<64>(dst, off, read_u64_at::<0>(&self.amount_to_raise, 0));
        write_u64_at::<72>(dst, off, read_u64_at::<0>(&self.current_amount, 0));
        write_u64_at::<80>(dst, off, read_u64_at::<0>(&self.time_started, 0));
        dst[off + 88] = self.duration;
        dst[off + 89] = self.bump;
        proof {
            lemma_auto_spec_u64_to_from_le_bytes();
            assert(self.maker@.subrange(0, 32) =~= self.maker@);
            assert(self.mint_to_raise@.subrange(0, 32) =~= self.mint_to_raise@);
            assert(self.amount_to_raise@.subrange(0, 8) =~= self.amount_to_raise@);
            assert(self.current_amount@.subrange(0, 8) =~= self.current_amount@);
            assert(self.time_started@.subrange(0, 8) =~= self.time_started@);
            assert(dst@ =~= with_bytes_at(old(dst)@, off as int, self@));
        }
    }

    /// Writes a fresh record at `dst_off` in `dst`: the keys at `maker_off`
    /// in `maker` and `mint_off` in `mint`, the target, the start time, the
    /// duration and the bump, with nothing contributed yet.
    pub fn initialize_from(
        dst: &mut [u8],
        dst_off: usize,
        maker: &[u8],
        maker_off: usize,
        mint_to_raise: &[u8],
        mint_off: usize,
        amount_to_raise: u64,
        time_started: i64,
        duration: u8,
        bump: u8,
    )
        requires
            dst_off + Self::LEN <= old(dst)@.len(),
            maker_off + 32 <= maker@.len(),
            mint_off + 32 <= mint_to_raise@.len(),
        ensures
            final(dst)@ == with_bytes_at(
                old(dst)@,
                dst_off as int,
                fundraiser_bytes(
                    key_at(maker@, maker_off as int),
                    key_at(mint_to_raise@, mint_off as int),
                    amount_to_raise,
                    0,
                    time_started,
                    duration,
                    bump,
                ),
            ),
    {
        let len = dst.len();
        copy32(dst, dst_off, maker, maker_off);
        copy32(dst, dst_off + 32, mint_to_raise, mint_off);
        write_u64_at::<64>(dst, dst_off, amount_to_raise);
        write_u64_at::<72>(dst, dst_off, 0u64);
        write_u64_at::<80>(dst, dst_off, time_started as u64);
        dst[dst_off + 88] = duration;
        dst[dst_off + 89] = bump;
        proof {
            lemma_auto_spec_u64_to_from_le_bytes();
            assert(dst@ =~= with_bytes_at(
                old(dst)@,
                dst_off as int,
                fundraiser_bytes(
                    key_at(maker@, maker_off as int),
                    key_at(mint_to_raise@, mint_off as int),
                    amount_to_raise,
                    0,
                    time_started,
                    duration,
                    bump,
                ),
            ));
        }
    }
}

/// A record written by `initialize_from` reads back as what was written: the
/// two keys, the target, nothing contributed yet, the start time, the
/// duration and the bump.
pub proof fn lemma_initialized_fields(
    maker: Seq<u8>,
    mint_to_raise: Seq<u8>,
    amount_to_raise: u64,
    time_started: i64,
    duration: u8,
    bump: u8,
)
    requires
        maker.len() == 32,
        mint_to_raise.len() == 32,
    ensures
        ({
            let b = fundraiser_bytes(
                maker,
                mint_to_raise,
                amount_to_raise,
                0,
                time_started,
                duration,
                bump,
            );
            &&& b.len() == Fundraiser::LEN
            &&& key_at(b, 0) == maker
            &&& key_at(b, 32) == mint_to_raise
            &&& u64_at(b, 64) == amount_to_raise
            &&& u64_at(b, 72) == 0
            &&& i64_at(b, 80) == time_started
            &&& b[88] == duration
            &&& b[89] == bump
        }),
{
    lemma_auto_spec_u64_to_from_le_bytes();
    let b = fundraiser_bytes(maker, mint_to_raise, amount_to_raise, 0, time_started, duration, bump);
    assert(key_at(b, 0) =~= maker);
    assert(key_at(b, 32) =~= mint_to_raise);
    assert(b.subrange(64, 72) =~= spec_u64_to_le_bytes(amount_to_raise));
    assert(b.subrange(72, 80) =~= spec_u64_to_le_bytes(0));
    assert(b.subrange(80, 88) =~= spec_u64_to_le_bytes(time_started as u64));
    assert((time_started as u64) as i64 == time_started) by (bit_vector);
}

} // verus!
