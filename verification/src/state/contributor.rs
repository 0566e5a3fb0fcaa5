//! The record kept for each contributor: the total it has contributed.
use vstd::prelude::*;
use vstd::bytes::*;
use crate::asm_ops::{read_u64_at, write_u64_at, with_bytes_at};

verus! {

/// A contributor record, stored as its eight little-endian bytes.
#[derive(Clone, Copy, Debug, Default, PartialEq)]
pub struct Contributor {
    amount: [u8; 8],
}

impl View for Contributor {
    type V = Seq<u8>;

    /// The record's encoding: the bytes it occupies in account data.
    closed spec fn view(&self) -> Seq<u8> {
        self.amount@
    }
}

impl Contributor {
    /// Size of the record in account data.
    pub const LEN: usize = 8;

    /// The amount held by the record.
    pub open spec fn spec_amount(self) -> u64 {
        spec_u64_from_le_bytes(self@)
    }

    /// A record's encoding is always `LEN` bytes long.
    pub proof fn lemma_len(self)
        ensures
            self@.len() == Self::LEN,
    {
    }

    /// A copy of the record stored at `off` in `data`. The setters change
    /// only this copy; the account data changes when the copy is stored back
    /// with `write_to`.
    pub fn from_ptr(data: &[u8], off: usize) -> (r: Self)
        requires
            off + Self::LEN <= data@.len(),
        ensures
            r@ == data@.subrange(off as int, off + Self::LEN),
    {
        let mut amount = [0u8; 8];
        let v = read_u64_at::<0>(data, off);
        write_u64_at::<0>(&mut amount, 0, v);
        proof {
            lemma_auto_spec_u64_to_from_le_bytes();
            assert(amount@ =~= data@.subrange(off as int, off + 8));
        }
        Contributor { amount }
    }

    /// A copy of the record stored at `off` in `data` (see `from_ptr`),
    /// after checking that the account data is exactly `LEN` bytes long (error 2 otherwise).
    pub fn from_ptr_checked(data: &[u8], off: usize, len: usize) -> (r: Result<Self, u32>)
        requires
            len == Self::LEN ==> off + Self::LEN <= data@.len(),
        ensures
            len != Self::LEN ==> r == Err::<Self, u32>(2),
            len == Self::LEN ==> (r matches Ok(c) && c@ == data@.subrange(off as int, off + Self::LEN)),
    {
        if len != Self::LEN {
            return Err(0x2);
        }
        Ok(Self::from_ptr(data, off))
    }

    /// The amount held by the record.
    pub fn amount(&self) -> (r: u64)
        ensures
            r == self.spec_amount(),
    {
        proof {
            assert(self.amount@.subrange(0, 8) =~= self.amount@);
        }
        read_u64_at::<0>(&self.amount, 0)
    }

    /// Replaces the amount held by the record.
    pub fn set_amount(&mut self, amount: u64)
        ensures
            final(self)@ == spec_u64_to_le_bytes(amount),
            final(self).spec_amount() == amount,
    {
        write_u64_at::<0>(&mut self.amount, 0, amount);
        proof {
            lemma_auto_spec_u64_to_from_le_bytes();
            assert(self.amount@ =~= spec_u64_to_le_bytes(amount));
        }
    }

    /// Stores the record at `off` in `dst`.
    pub fn write_to(&self, dst: &mut [u8], off: usize)
        requires
            off + Self::LEN <= old(dst)@.len(),
        ensures
            final(dst)@ == with_bytes_at(old(dst)@, off as int, self@),
    {
        let v = read_u64_at::<0>(&self.amount, 0);
        write_u64_at::<0>(dst, off, v);
        proof {
            lemma_auto_spec_u64_to_from_le_bytes();
            assert(self.amount@.subrange(0, 8) =~= self.amount@);
        }
    }
}

} // verus!
