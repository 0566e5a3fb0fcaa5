//! The runtime's serialized input: account slots, instruction data and
//! program id, all addressed by offsets into one byte buffer.
//!
//! Layout of the buffer:
//!
//! ```text
//! [u64 number of accounts]
//! per account, a slot:
//!   [u8 dup marker]   0xff: a new account; otherwise the index of an earlier one
//!   new account:
//!     [u8 is_signer] [u8 is_writable] [u8 executable] [4 bytes padding]
//!     [32 bytes key]    at +8
//!     [32 bytes owner]  at +40
//!     [u64 lamports]    at +72
//!     [u64 data length] at +80
//!     [data]            at +88, then the 10 240-byte realloc headroom and
//!                       padding to an 8-byte boundary: the next slot starts
//!                       10 328 + (data length rounded up to 8) bytes on
//!   repeated account: 7 more bytes of padding
//! [u64 instruction data length] [instruction data] [32 bytes program id]
//! ```
use vstd::prelude::*;
use crate::asm_ops::{
    read_u64_at, write_u64_at, keys_equal, u64_at, key_at, with_u64_at,
};

verus! {

/// Room the runtime leaves after each account's data for it to grow.
pub const MAX_PERMITTED_DATA_INCREASE: usize = 10_240;

/// Dup marker of a slot that holds a new account.
pub const NON_DUP_MARKER: u8 = 0xff;

/// An account of the input, given by the offset of its slot in the input
/// buffer. Every field of the account lies at a fixed offset from there.
#[derive(Clone, Copy)]
pub struct Account(pub usize);

/// `x` rounded up to a multiple of eight.
pub open spec fn align8(x: int) -> int {
    (x + 7) / 8 * 8
}

/// The data length recorded in the slot at `p`.
pub open spec fn slot_data_len(s: Seq<u8>, p: int) -> int {
    (u64_at(s, p + 80) as usize) as int
}

/// Where the slot after the one at `p` starts.
pub open spec fn next_slot(s: Seq<u8>, p: int) -> int {
    if s[p] == NON_DUP_MARKER {
        p + 88 + MAX_PERMITTED_DATA_INCREASE + align8(slot_data_len(s, p))
    } else {
        p + 8
    }
}

/// Where the slot of account `k` starts.
pub open spec fn slot_start(s: Seq<u8>, k: nat) -> int
    decreases k,
{
    if k == 0 {
        8
    } else {
        next_slot(s, slot_start(s, (k - 1) as nat))
    }
}

/// The slot at `p` lies in the buffer, and so does the word after it.
pub open spec fn slot_fits(s: Seq<u8>, p: int) -> bool {
    &&& 8 <= p < s.len()
    &&& s[p] == NON_DUP_MARKER ==> p + 88 <= s.len()
    &&& next_slot(s, p) + 8 <= s.len()
}

/// The number of accounts the input announces.
pub open spec fn spec_num_accounts(s: Seq<u8>) -> int {
    (u64_at(s, 0) as usize) as int
}

/// Where the instruction data length lies: right after the last slot.
pub open spec fn ix_len_offset(s: Seq<u8>) -> int {
    slot_start(s, spec_num_accounts(s) as nat)
}

/// The length of the instruction data.
pub open spec fn ix_len(s: Seq<u8>) -> int {
    (u64_at(s, ix_len_offset(s)) as usize) as int
}

/// The input is laid out as described above: every slot, the instruction
/// data and the program id lie within the buffer.
pub open spec fn input_well_formed(s: Seq<u8>) -> bool {
    &&& 8 <= s.len()
    &&& forall|k: nat| k < spec_num_accounts(s) ==> slot_fits(s, #[trigger] slot_start(s, k))
    &&& ix_len_offset(s) + 8 + ix_len(s) + 32 <= s.len()
}

/// How many slots of the accounts array the parser fills.
pub open spec fn parsed_count(s: Seq<u8>) -> int {
    if spec_num_accounts(s) < 9 {
        spec_num_accounts(s)
    } else {
        9
    }
}

/// Every repeated account among the parsed ones names a slot of the accounts
/// array.
pub open spec fn dup_markers_in_range(s: Seq<u8>) -> bool {
    forall|k: nat|
        k < parsed_count(s) && s[slot_start(s, k)] != NON_DUP_MARKER ==> s[#[trigger] slot_start(
            s,
            k,
        )] < 10
}

/// The account that the parser puts in slot `i` of the accounts array, where
/// `init` is what that array held before: a new account is its own slot; a
/// repeated one is what the named entry held at that moment.
pub open spec fn parsed_account(s: Seq<u8>, i: nat, init: Seq<Account>) -> Account
    decreases i,
{
    let p = slot_start(s, i);
    if s[p] == NON_DUP_MARKER {
        Account(p as usize)
    } else if (s[p] as nat) < i {
        parsed_account(s, s[p] as nat, init)
    } else {
        init[s[p] as int]
    }
}

/// Every account the parser puts in the accounts array is either a slot that
/// lies in the input with its data and headroom, or an entry of the array it
/// started from; so when the array starts out null, every parsed account is
/// null or lies in the input.
pub proof fn lemma_parsed_accounts_fit(s: Seq<u8>, i: nat, init: Seq<Account>)
    requires
        s.len() <= usize::MAX,
        input_well_formed(s),
        dup_markers_in_range(s),
        i < parsed_count(s),
        init.len() == 10,
        forall|j: int| 0 <= j < 10 ==> #[trigger] init[j].0 == 0 || init[j].is_valid(s),
    ensures
        parsed_account(s, i, init).0 == 0 || parsed_account(s, i, init).is_valid(s),
    decreases i,
{
    let p = slot_start(s, i);
    assert(slot_fits(s, p));
    if s[p] == NON_DUP_MARKER {
        let x = slot_data_len(s, p);
        assert(align8(x) >= x);
    } else if (s[p] as nat) < i {
        lemma_parsed_accounts_fit(s, s[p] as nat, init);
    } else {
        assert(s[slot_start(s, i)] < 10);
        assert(init[s[p] as int].0 == 0 || init[s[p] as int].is_valid(s));
    }
}

/// The offset of the slot that follows one at `p`, given its dup marker and
/// recorded data length.
pub fn next_slot_offset(p: usize, dup: u8, data_len: u64) -> (r: usize)
    requires
        dup == NON_DUP_MARKER ==> p + 88 + MAX_PERMITTED_DATA_INCREASE + (data_len as usize) + 7
            <= usize::MAX,
        dup != NON_DUP_MARKER ==> p + 8 <= usize::MAX,
    ensures
        r == if dup == NON_DUP_MARKER {
            p + 88 + MAX_PERMITTED_DATA_INCREASE + align8(data_len as usize as int)
        } else {
            p + 8
        },
{
    if dup == NON_DUP_MARKER {
        let y = (data_len as usize) + 7;
        proof {
            assert(y & !7usize == (y / 8) * 8) by (bit_vector);
        }
        p + 88 + MAX_PERMITTED_DATA_INCREASE + (y & !7usize)
    } else {
        p + 8
    }
}

/// Walks the input: fills the first `min(number of accounts, 9)` entries of
/// `out` with the accounts, resolving repeated ones to the entry they name,
/// and returns the offset and length of the instruction data and the offset
/// of the program id.
pub fn parse_input(input: &[u8], out: &mut [Account; 10]) -> (r: (usize, usize, usize))
    requires
        input_well_formed(input@),
        dup_markers_in_range(input@),
    ensures
        r.0 == ix_len_offset(input@) + 8,
        r.1 == ix_len(input@),
        r.2 == r.0 + r.1,
        forall|i: int|
            0 <= i < 10 ==> #[trigger] final(out)@[i] == if i < parsed_count(input@) {
                parsed_account(input@, i as nat, old(out)@)
            } else {
                old(out)@[i]
            },
{
    let ghost s = input@;
    let ghost init = out@;
    let len = input.len();
    let num_accounts = read_u64_at::<0>(input, 0) as usize;
    let mut ptr: usize = 8;
    let count = if num_accounts < 9 {
        num_accounts
    } else {
        9
    };
    let mut i: usize = 0;
    while i < num_accounts
        invariant
            s == input@,
            len == s.len(),
            input_well_formed(s),
            dup_markers_in_range(s),
            num_accounts == spec_num_accounts(s),
            count == parsed_count(s),
            i <= num_accounts,
            ptr == slot_start(s, i as nat),
            forall|j: int|
                0 <= j < 10 ==> #[trigger] out@[j] == if j < i && j < count {
                    parsed_account(s, j as nat, init)
                } else {
                    init[j]
                },
        decreases num_accounts - i,
    {
        proof {
            assert(slot_fits(s, slot_start(s, i as nat)));
        }
        let dup = input[ptr];
        if dup == NON_DUP_MARKER {
            let data_len = read_u64_at::<80>(input, ptr);
            if i < count {
                out[i] = Account(ptr);
            }
            ptr = next_slot_offset(ptr, dup, data_len);
        } else {
            if i < count {
                let a = out[dup as usize];
                out[i] = a;
            }
            ptr = next_slot_offset(ptr, dup, 0);
        }
        i = i + 1;
    }
    let ix_len = read_u64_at::<0>(input, ptr) as usize;
    ptr = ptr + 8;
    (ptr, ix_len, ptr + ix_len)
}

/// Whether `input` is laid out as described above and every repeated
/// account among the parsed ones names an entry of the accounts array.
pub fn input_layout_holds(input: &[u8]) -> (r: bool)
    ensures
        r == (input_well_formed(input@) && dup_markers_in_range(input@)),
{
    let ghost s = input@;
    let len = input.len();
    if len < 8 {
        return false;
    }
    let num_accounts = read_u64_at::<0>(input, 0) as usize;
    let count = if num_accounts < 9 {
        num_accounts
    } else {
        9
    };
    let mut ptr: usize = 8;
    let mut i: usize = 0;
    while i < num_accounts
        invariant
            s == input@,
            len == s.len(),
            8 <= len,
            num_accounts == spec_num_accounts(s),
            count == parsed_count(s),
            i <= num_accounts,
            8 <= ptr <= len,
            ptr == slot_start(s, i as nat),
            forall|k: nat| k < i ==> slot_fits(s, #[trigger] slot_start(s, k)),
            forall|k: nat|
                k < i && k < count && s[slot_start(s, k)] != NON_DUP_MARKER ==> s[#[trigger] slot_start(
                    s,
                    k,
                )] < 10,
        decreases num_accounts - i,
    {
        if ptr >= len {
            proof {
                assert(!slot_fits(s, slot_start(s, i as nat)));
            }
            return false;
        }
        let rest = len - ptr;
        let dup = input[ptr];
        let next;
        if dup == NON_DUP_MARKER {
            if rest < 88 {
                proof {
                    assert(!slot_fits(s, slot_start(s, i as nat)));
                }
                return false;
            }
            let data_len = read_u64_at::<80>(input, ptr) as usize;
            let padded = match data_len.checked_add(7) {
                Some(y) => {
                    proof {
                        assert(y & !7usize == (y / 8) * 8) by (bit_vector);
                    }
                    y & !7usize
                },
                None => {
                    proof {
                        assert(!slot_fits(s, slot_start(s, i as nat)));
                    }
                    return false;
                },
            };
            if padded > rest || rest - padded < 88 + MAX_PERMITTED_DATA_INCREASE + 8 {
                proof {
                    assert(!slot_fits(s, slot_start(s, i as nat)));
                }
                return false;
            }
            next = ptr + 88 + MAX_PERMITTED_DATA_INCREASE + padded;
        } else {
            if rest < 16 {
                proof {
                    assert(!slot_fits(s, slot_start(s, i as nat)));
                }
                return false;
            }
            if i < count && dup >= 10 {
                proof {
                    assert(s[slot_start(s, i as nat)] >= 10);
                }
                return false;
            }
            next = ptr + 8;
        }
        proof {
            assert(next == next_slot(s, ptr as int));
            assert(slot_fits(s, slot_start(s, i as nat)));
        }
        ptr = next;
        i = i + 1;
    }
    if len - ptr < 8 + 32 {
        return false;
    }
    let ix_len = read_u64_at::<0>(input, ptr) as usize;
    ix_len <= len - ptr - 8 - 32
}

impl Account {
    /// The account is a parsed slot whose header, data and realloc headroom
    /// all lie in the input `s`.
    pub open spec fn is_valid(self, s: Seq<u8>) -> bool {
        8 <= self.0 && self.0 + 88 + MAX_PERMITTED_DATA_INCREASE <= s.len()
    }

    /// Offset of the account's data.
    pub open spec fn spec_data(self) -> int {
        self.0 + 88
    }

    /// The account's key.
    pub open spec fn spec_key(self, s: Seq<u8>) -> Seq<u8> {
        key_at(s, self.0 + 8)
    }

    /// The account's lamports.
    pub open spec fn spec_lamports(self, s: Seq<u8>) -> u64 {
        u64_at(s, self.0 + 72)
    }

    /// Offset of the account's key.
    pub fn key(self) -> (r: usize)
        requires
            self.0 + 8 <= usize::MAX,
        ensures
            r == self.0 + 8,
    {
        self.0 + 8
    }

    /// Offset of the key of the program that owns the account.
    pub fn owner(self) -> (r: usize)
        requires
            self.0 + 40 <= usize::MAX,
        ensures
            r == self.0 + 40,
    {
        self.0 + 40
    }

    /// The account's lamports.
    pub fn lamports(self, input: &[u8]) -> (r: u64)
        requires
            self.0 + 80 <= input@.len(),
        ensures
            r == self.spec_lamports(input@),
    {
        let len = input.len();
        read_u64_at::<72>(input, self.0)
    }

    /// Sets the account's lamports.
    pub fn set_lamport(self, input: &mut [u8], lamports: u64)
        requires
            self.0 + 80 <= old(input)@.len(),
        ensures
            final(input)@ == with_u64_at(old(input)@, self.0 + 72, lamports),
    {
        let len = input.len();
        write_u64_at::<72>(input, self.0, lamports)
    }

    /// The length of the account's data.
    pub fn data_len(self, input: &[u8]) -> (r: usize)
        requires
            self.0 + 88 <= input@.len(),
        ensures
            r == slot_data_len(input@, self.0 as int),
    {
        let len = input.len();
        read_u64_at::<80>(input, self.0) as usize
    }

    /// Offset of the account's data.
    pub fn data(self) -> (r: usize)
        requires
            self.0 + 88 <= usize::MAX,
        ensures
            r == self.spec_data(),
    {
        self.0 + 88
    }

    /// The `u64` at `data_offset` in the account's data.
    pub fn read_u64(self, input: &[u8], data_offset: usize) -> (r: u64)
        requires
            self.0 + 88 + data_offset + 8 <= input@.len(),
        ensures
            r == u64_at(input@, self.0 + 88 + data_offset),
    {
        let len = input.len();
        read_u64_at::<88>(input, self.0 + data_offset)
    }

    /// Stores `data` at `data_offset` in the account's data.
    pub fn write_u64(self, input: &mut [u8], data_offset: usize, data: u64)
        requires
            self.0 + 88 + data_offset + 8 <= old(input)@.len(),
        ensures
            final(input)@ == with_u64_at(old(input)@, self.0 + 88 + data_offset, data),
    {
        let len = input.len();
        write_u64_at::<88>(input, self.0 + data_offset, data)
    }

    /// The byte at `data_offset` in the account's data.
    pub fn read_u8(self, input: &[u8], data_offset: usize) -> (r: u8)
        requires
            self.0 + 88 + data_offset < input@.len(),
        ensures
            r == input@[self.0 + 88 + data_offset],
    {
        let len = input.len();
        input[self.0 + 88 + data_offset]
    }

    /// Stores `data` at `data_offset` in the account's data.
    pub fn write_u8(self, input: &mut [u8], data_offset: usize, data: u8)
        requires
            self.0 + 88 + data_offset < old(input)@.len(),
        ensures
            final(input)@ == old(input)@.update(self.0 + 88 + data_offset, data),
    {
        let len = input.len();
        input[self.0 + 88 + data_offset] = data;
    }

    /// Whether the program with key `program_id` owns the account.
    pub fn owned_by(self, input: &[u8], program_id: &[u8; 32]) -> (r: bool)
        requires
            self.0 + 72 <= input@.len(),
        ensures
            r == (key_at(input@, self.0 + 40) == program_id@),
    {
        let len = input.len();
        proof {
            assert(key_at(program_id@, 0) =~= program_id@);
        }
        keys_equal(input, self.0 + 40, program_id, 0)
    }

    /// The account's signer flag.
    pub fn is_signer(self, input: &[u8]) -> (r: u8)
        requires
            self.0 + 1 < input@.len(),
        ensures
            r == input@[self.0 + 1],
    {
        let len = input.len();
        input[self.0 + 1]
    }

    /// The account's writable flag.
    pub fn is_writable(self, input: &[u8]) -> (r: u8)
        requires
            self.0 + 2 < input@.len(),
        ensures
            r == input@[self.0 + 2],
    {
        let len = input.len();
        input[self.0 + 2]
    }
}

} // verus!
