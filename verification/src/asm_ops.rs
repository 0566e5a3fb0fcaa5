//! Word-sized primitives over byte buffers.
//!
//! A location in memory is written as a buffer together with an offset into
//! it; every primitive states what it reads or writes in terms of the
//! buffer's byte sequence.
use vstd::prelude::*;
use vstd::bytes::*;
use vstd::slice::*;

verus! {

/// The little-endian `u64` held by the eight bytes of `s` that start at `off`.
pub open spec fn u64_at(s: Seq<u8>, off: int) -> u64 {
    spec_u64_from_le_bytes(s.subrange(off, off + 8))
}

/// The little-endian `i64` (two's complement) held by the eight bytes at `off`.
pub open spec fn i64_at(s: Seq<u8>, off: int) -> i64 {
    u64_at(s, off) as i64
}

/// The 32-byte key that starts at `off`.
pub open spec fn key_at(s: Seq<u8>, off: int) -> Seq<u8> {
    s.subrange(off, off + 32)
}

/// `s` with the bytes starting at `off` replaced by `b`.
pub open spec fn with_bytes_at(s: Seq<u8>, off: int, b: Seq<u8>) -> Seq<u8> {
    s.subrange(0, off) + b + s.subrange(off + b.len(), s.len() as int)
}

/// `s` with the little-endian encoding of `v` stored at `off`.
pub open spec fn with_u64_at(s: Seq<u8>, off: int, v: u64) -> Seq<u8> {
    with_bytes_at(s, off, spec_u64_to_le_bytes(v))
}

/// Decoding a little-endian word is injective on eight-byte sequences.
pub proof fn lemma_u64_decode_injective(a: Seq<u8>, b: Seq<u8>)
    requires
        a.len() == 8,
        b.len() == 8,
    ensures
        spec_u64_from_le_bytes(a) == spec_u64_from_le_bytes(b) <==> a == b,
{
    lemma_auto_spec_u64_to_from_le_bytes();
    if spec_u64_from_le_bytes(a) == spec_u64_from_le_bytes(b) {
        assert(spec_u64_to_le_bytes(spec_u64_from_le_bytes(a)) == a);
        assert(spec_u64_to_le_bytes(spec_u64_from_le_bytes(b)) == b);
    }
}

/// A word read back from where it was stored is the word stored, the buffer
/// keeps its length, and no byte outside the eight written ones changes.
pub proof fn lemma_u64_read_after_write(s: Seq<u8>, off: int, v: u64)
    requires
        0 <= off,
        off + 8 <= s.len(),
    ensures
        with_u64_at(s, off, v).len() == s.len(),
        u64_at(with_u64_at(s, off, v), off) == v,
        forall|j: int|
            0 <= j < s.len() && !(off <= j < off + 8) ==> #[trigger] with_u64_at(s, off, v)[j]
                == s[j],
{
    lemma_auto_spec_u64_to_from_le_bytes();
    let t = with_u64_at(s, off, v);
    assert(t.subrange(off, off + 8) =~= spec_u64_to_le_bytes(v));
}

/// Storing the word that is already at `off` leaves the buffer as it was.
pub proof fn lemma_u64_write_same(s: Seq<u8>, off: int)
    requires
        0 <= off,
        off + 8 <= s.len(),
    ensures
        with_u64_at(s, off, u64_at(s, off)) == s,
{
    lemma_auto_spec_u64_to_from_le_bytes();
    assert(spec_u64_to_le_bytes(spec_u64_from_le_bytes(s.subrange(off, off + 8))) == s.subrange(
        off,
        off + 8,
    ));
    assert(with_u64_at(s, off, u64_at(s, off)) =~= s);
}

/// Storing back a record read from `off`, after changing one word of it,
/// is the same as storing that word in place.
pub proof fn lemma_splice_word(s: Seq<u8>, off: int, n: int, k: int, v: u64)
    requires
        0 <= off,
        off + n <= s.len(),
        0 <= k,
        k + 8 <= n,
    ensures
        with_bytes_at(s, off, with_u64_at(s.subrange(off, off + n), k, v)) == with_u64_at(
            s,
            off + k,
            v,
        ),
{
    lemma_auto_spec_u64_to_from_le_bytes();
    assert(with_bytes_at(s, off, with_u64_at(s.subrange(off, off + n), k, v)) =~= with_u64_at(
        s,
        off + k,
        v,
    ));
}

/// Bytes stored at `off` read back as stored, and the buffer keeps its
/// length.
pub proof fn lemma_bytes_read_after_write(s: Seq<u8>, off: int, b: Seq<u8>)
    requires
        0 <= off,
        off + b.len() <= s.len(),
    ensures
        with_bytes_at(s, off, b).len() == s.len(),
        with_bytes_at(s, off, b).subrange(off, off + b.len()) == b,
{
    assert(with_bytes_at(s, off, b).subrange(off, off + b.len()) =~= b);
}

/// Storing back the bytes that are already at `off` changes nothing.
pub proof fn lemma_splice_same(s: Seq<u8>, off: int, n: int)
    requires
        0 <= off,
        0 <= n,
        off + n <= s.len(),
    ensures
        with_bytes_at(s, off, s.subrange(off, off + n)) == s,
{
    assert(with_bytes_at(s, off, s.subrange(off, off + n)) =~= s);
}

/// Reads the little-endian `u64` at `base_off + OFFSET` in `base`.
pub fn read_u64_at<const OFFSET: usize>(base: &[u8], base_off: usize) -> (r: u64)
    requires
        base_off + OFFSET + 8 <= base@.len(),
    ensures
        r == u64_at(base@, base_off + OFFSET),
{
    let len = base.len();
    let start = base_off + OFFSET;
    u64_from_le_bytes(slice_subrange(base, start, start + 8))
}

/// Stores `data` little-endian at `base_off + OFFSET` in `base`.
pub fn write_u64_at<const OFFSET: usize>(base: &mut [u8], base_off: usize, data: u64)
    requires
        base_off + OFFSET + 8 <= old(base)@.len(),
    ensures
        final(base)@ == with_u64_at(old(base)@, base_off + OFFSET, data),
{
    let p = base_off + OFFSET;
    base[p] = (data & 0xff) as u8;
    base[p + 1] = ((data >> 8) & 0xff) as u8;
    base[p + 2] = ((data >> 16) & 0xff) as u8;
    base[p + 3] = ((data >> 24) & 0xff) as u8;
    base[p + 4] = ((data >> 32) & 0xff) as u8;
    base[p + 5] = ((data >> 40) & 0xff) as u8;
    base[p + 6] = ((data >> 48) & 0xff) as u8;
    base[p + 7] = ((data >> 56) & 0xff) as u8;
    proof {
        spec_u64_to_le_bytes_to_open(data);
        assert(base@ =~= with_u64_at(old(base)@, p as int, data));
    }
}

/// Reads the little-endian `i64` at `base_off + OFFSET` in `base`.
pub fn read_i64_at<const OFFSET: usize>(base: &[u8], base_off: usize) -> (r: i64)
    requires
        base_off + OFFSET + 8 <= base@.len(),
    ensures
        r == i64_at(base@, base_off + OFFSET),
{
    read_u64_at::<OFFSET>(base, base_off) as i64
}


/// The 32 bytes at `off` are the four eight-byte chunks at `off`, `off + 8`,
/// `off + 16` and `off + 24`, in order.
proof fn lemma_key_chunks(s: Seq<u8>, off: int)
    requires
        0 <= off,
        off + 32 <= s.len(),
    ensures
        key_at(s, off) =~= s.subrange(off, off + 8) + s.subrange(off + 8, off + 16) + s.subrange(
            off + 16,
            off + 24,
        ) + s.subrange(off + 24, off + 32),
{
}

/// Two keys are equal exactly when their four words are pairwise equal.
proof fn lemma_keys_equal_by_words(a: Seq<u8>, a_off: int, b: Seq<u8>, b_off: int)
    requires
        0 <= a_off,
        a_off + 32 <= a.len(),
        0 <= b_off,
        b_off + 32 <= b.len(),
    ensures
        (key_at(a, a_off) == key_at(b, b_off)) <==> (u64_at(a, a_off) == u64_at(b, b_off) && u64_at(
            a,
            a_off + 8,
        ) == u64_at(b, b_off + 8) && u64_at(a, a_off + 16) == u64_at(b, b_off + 16) && u64_at(
            a,
            a_off + 24,
        ) == u64_at(b, b_off + 24)),
{
    lemma_key_chunks(a, a_off);
    lemma_key_chunks(b, b_off);
    lemma_u64_decode_injective(a.subrange(a_off, a_off + 8), b.subrange(b_off, b_off + 8));
    lemma_u64_decode_injective(
        a.subrange(a_off + 8, a_off + 16),
        b.subrange(b_off + 8, b_off + 16),
    );
    lemma_u64_decode_injective(
        a.subrange(a_off + 16, a_off + 24),
        b.subrange(b_off + 16, b_off + 24),
    );
    lemma_u64_decode_injective(
        a.subrange(a_off + 24, a_off + 32),
        b.subrange(b_off + 24, b_off + 32),
    );
    let ka = key_at(a, a_off);
    let kb = key_at(b, b_off);
    if ka == kb {
        assert(a.subrange(a_off, a_off + 8) =~= ka.subrange(0, 8));
        assert(b.subrange(b_off, b_off + 8) =~= kb.subrange(0, 8));
        assert(a.subrange(a_off + 8, a_off + 16) =~= ka.subrange(8, 16));
        assert(b.subrange(b_off + 8, b_off + 16) =~= kb.subrange(8, 16));
        assert(a.subrange(a_off + 16, a_off + 24) =~= ka.subrange(16, 24));
        assert(b.subrange(b_off + 16, b_off + 24) =~= kb.subrange(16, 24));
        assert(a.subrange(a_off + 24, a_off + 32) =~= ka.subrange(24, 32));
        assert(b.subrange(b_off + 24, b_off + 32) =~= kb.subrange(24, 32));
    }
}

/// Compares the 32-byte key at `a_off` in `a` with the one at `b_off` in `b`,
/// a word at a time, without branching on the data.
pub fn keys_equal(a: &[u8], a_off: usize, b: &[u8], b_off: usize) -> (r: bool)
    requires
        a_off + 32 <= a@.len(),
        b_off + 32 <= b@.len(),
    ensures
        r == (key_at(a@, a_off as int) == key_at(b@, b_off as int)),
{
    let a0 = read_u64_at::<0>(a, a_off);
    let b0 = read_u64_at::<0>(b, b_off);
    let a1 = read_u64_at::<8>(a, a_off);
    let b1 = read_u64_at::<8>(b, b_off);
    let a2 = read_u64_at::<16>(a, a_off);
    let b2 = read_u64_at::<16>(b, b_off);
    let a3 = read_u64_at::<24>(a, a_off);
    let b3 = read_u64_at::<24>(b, b_off);
    proof {
        lemma_keys_equal_by_words(a@, a_off as int, b@, b_off as int);
        assert(((a0 ^ b0) | (a1 ^ b1) | (a2 ^ b2) | (a3 ^ b3)) == 0 <==> (a0 == b0 && a1 == b1
            && a2 == b2 && a3 == b3)) by (bit_vector);
    }
    ((a0 ^ b0) | (a1 ^ b1) | (a2 ^ b2) | (a3 ^ b3)) == 0
}

/// The same comparison as [`keys_equal`], accumulated in the order of the
/// hand-scheduled instruction sequence: the running difference is kept in one
/// register and each further word difference is or-ed into it.
pub fn keys_equal_asm(a: &[u8], a_off: usize, b: &[u8], b_off: usize) -> (r: bool)
    requires
        a_off + 32 <= a@.len(),
        b_off + 32 <= b@.len(),
    ensures
        r == (key_at(a@, a_off as int) == key_at(b@, b_off as int)),
{
    let mut r0 = read_u64_at::<0>(a, a_off);
    let mut r1 = read_u64_at::<0>(b, b_off);
    r0 = r0 ^ r1;
    r1 = read_u64_at::<8>(a, a_off);
    let mut r2 = read_u64_at::<8>(b, b_off);
    r1 = r1 ^ r2;
    let acc1 = r0 | r1;
    r1 = read_u64_at::<16>(a, a_off);
    r2 = read_u64_at::<16>(b, b_off);
    r1 = r1 ^ r2;
    let acc2 = acc1 | r1;
    r1 = read_u64_at::<24>(a, a_off);
    r2 = read_u64_at::<24>(b, b_off);
    r1 = r1 ^ r2;
    let result = acc2 | r1;
    proof {
        lemma_keys_equal_by_words(a@, a_off as int, b@, b_off as int);
        let (a0, a1, a2, a3) = (
            u64_at(a@, a_off as int),
            u64_at(a@, a_off + 8),
            u64_at(a@, a_off + 16),
            u64_at(a@, a_off + 24),
        );
        let (b0, b1, b2, b3) = (
            u64_at(b@, b_off as int),
            u64_at(b@, b_off + 8),
            u64_at(b@, b_off + 16),
            u64_at(b@, b_off + 24),
        );
        assert(result == (((a0 ^ b0) | (a1 ^ b1)) | (a2 ^ b2)) | (a3 ^ b3));
        assert(((((a0 ^ b0) | (a1 ^ b1)) | (a2 ^ b2)) | (a3 ^ b3)) == 0 <==> (a0 == b0 && a1
            == b1 && a2 == b2 && a3 == b3)) by (bit_vector);
    }
    result == 0
}

/// Copies the 32 bytes at `src_off` in `src` to `dst_off` in `dst`, a word at
/// a time.
pub fn copy32(dst: &mut [u8], dst_off: usize, src: &[u8], src_off: usize)
    requires
        dst_off + 32 <= old(dst)@.len(),
        src_off + 32 <= src@.len(),
    ensures
        final(dst)@ == with_bytes_at(old(dst)@, dst_off as int, key_at(src@, src_off as int)),
{
    let w0 = read_u64_at::<0>(src, src_off);
    let w1 = read_u64_at::<8>(src, src_off);
    let w2 = read_u64_at::<16>(src, src_off);
    let w3 = read_u64_at::<24>(src, src_off);
    write_u64_at::<0>(dst, dst_off, w0);
    write_u64_at::<8>(dst, dst_off, w1);
    write_u64_at::<16>(dst, dst_off, w2);
    write_u64_at::<24>(dst, dst_off, w3);
    proof {
        lemma_auto_spec_u64_to_from_le_bytes();
        let s = src@;
        let o = src_off as int;
        assert(spec_u64_to_le_bytes(w0) == s.subrange(o, o + 8));
        assert(spec_u64_to_le_bytes(w1) == s.subrange(o + 8, o + 16));
        assert(spec_u64_to_le_bytes(w2) == s.subrange(o + 16, o + 24));
        assert(spec_u64_to_le_bytes(w3) == s.subrange(o + 24, o + 32));
        assert(dst@ =~= with_bytes_at(old(dst)@, dst_off as int, key_at(s, o)));
    }
}

/// A copy of the 32-byte key at `off` in `buf`.
pub fn read_key(buf: &[u8], off: usize) -> (r: [u8; 32])
    requires
        off + 32 <= buf@.len(),
    ensures
        r@ == key_at(buf@, off as int),
{
    let mut key = [0u8; 32];
    copy32(&mut key, 0, buf, off);
    proof {
        assert(key@ =~= key_at(buf@, off as int));
    }
    key
}

/// Reads the wrapping difference `a - b`.
pub fn sub_unchecked(a: u64, b: u64) -> (r: u64)
    ensures
        r as int == (a as int - b as int) % 0x1_0000_0000_0000_0000,
{
    a.wrapping_sub(b)
}

/// The larger of `a` and `b`, selected by a mask rather than a branch.
pub fn branchless_max(a: u64, b: u64) -> (r: u64)
    ensures
        r == if a >= b {
            a
        } else {
            b
        },
{
    let mask: u64 = if b > a { 1 } else { 0 };
    let mask = 0u64.wrapping_sub(mask);
    proof {
        assert(mask == if b > a { 0xffff_ffff_ffff_ffffu64 } else { 0u64 });
        assert(a ^ ((a ^ b) & 0xffff_ffff_ffff_ffffu64) == b) by (bit_vector);
        assert(a ^ ((a ^ b) & 0u64) == a) by (bit_vector);
    }
    a ^ ((a ^ b) & mask)
}

/// Checks a token account's first two fields against an expected mint and
/// owner: the mint is the key at the start of its data, the owner the key
/// right after it. Both comparisons are always made.
pub fn validate_ata(
    ata_data: &[u8],
    ata_off: usize,
    mint: &[u8],
    mint_off: usize,
    owner: &[u8],
    owner_off: usize,
) -> (r: bool)
    requires
        ata_off + 64 <= ata_data@.len(),
        mint_off + 32 <= mint@.len(),
        owner_off + 32 <= owner@.len(),
    ensures
        r == (key_at(ata_data@, ata_off as int) == key_at(mint@, mint_off as int) && key_at(
            ata_data@,
            ata_off + 32,
        ) == key_at(owner@, owner_off as int)),
{
    let len = ata_data.len();
    let mint_ok = keys_equal(ata_data, ata_off, mint, mint_off);
    let owner_ok = keys_equal(ata_data, ata_off + 32, owner, owner_off);
    mint_ok && owner_ok
}

/// The Unix timestamp of a clock sysvar: the `i64` at byte 32 of its data.
pub fn read_clock_timestamp(clock_data: &[u8], clock_off: usize) -> (r: i64)
    requires
        clock_off + 40 <= clock_data@.len(),
    ensures
        r == i64_at(clock_data@, clock_off + 32),
{
    read_i64_at::<32>(clock_data, clock_off)
}

/// The balance of a token account: the `u64` at byte 64 of its data.
pub fn read_token_amount(token_account_data: &[u8], token_off: usize) -> (r: u64)
    requires
        token_off + 72 <= token_account_data@.len(),
    ensures
        r == u64_at(token_account_data@, token_off + 64),
{
    read_u64_at::<64>(token_account_data, token_off)
}

/// The decimals of a mint: the byte at offset 44 of its data.
pub fn read_mint_decimals(mint_data: &[u8], mint_off: usize) -> (r: u8)
    requires
        mint_off + 45 <= mint_data@.len(),
    ensures
        r == mint_data@[mint_off + 44],
{
    let len = mint_data.len();
    mint_data[mint_off + 44]
}

} // verus!
