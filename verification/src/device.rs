//! Devices: storage that is read and written one byte or one word at a
//! time, and the plain block of memory that is the first of them.

use crate::word::{in_bounds, put_word, word_at, word_from_bytes, word_to_bytes};
use vstd::prelude::*;

verus! {

/// The largest length a [`MemoryStick`] can have: every byte must have a
/// sixteen-bit address.
pub const MAX_LENGTH: usize = 0x1_0000;

/// The code with which a [`MemoryStick`] refuses a write that is out of
/// bounds.
pub const OUT_OF_BOUNDS: u16 = 1;

/// A device that can be plugged into the processor, or into another device.
///
/// A device is a run of bytes of fixed length, addressed from zero. A word
/// is two neighbouring bytes, the most significant first. Reading outside
/// the bytes is the caller's fault, so the reads demand an address within
/// them. A write may be refused: then it returns a code that is not zero and
/// stores nothing. Which writes a device refuses is the device's to say,
/// through `accepts`.
pub trait Device {
    /// The bytes of the device, in address order.
    spec fn bytes(&self) -> Seq<u8>;

    /// Whether the device takes a write of `width` bytes at `index`.
    spec fn accepts(&self, index: int, width: int) -> bool;

    /// The byte at `index`.
    fn read_u8(&self, index: usize) -> (val: u8)
        requires
            in_bounds(self.bytes().len(), index as int, 1),
        ensures
            val == self.bytes()[index as int],
    ;

    /// The word at `index` and `index + 1`.
    fn read_u16(&self, index: usize) -> (val: u16)
        requires
            in_bounds(self.bytes().len(), index as int, 2),
        ensures
            val == word_at(self.bytes(), index as int),
    ;

    /// Stores `val` at `index`, if the device accepts the write.
    fn write_u8(&mut self, index: usize, val: u8) -> (res: Result<(), u16>)
        ensures
            res is Ok <==> old(self).accepts(index as int, 1),
            res is Ok ==> in_bounds(old(self).bytes().len(), index as int, 1),
            res is Ok ==> final(self).bytes() == old(self).bytes().update(index as int, val),
            res matches Err(code) ==> code != 0 && final(self).bytes() == old(self).bytes(),
    ;

    /// Stores `val` at `index` and `index + 1`, most significant byte first,
    /// if the device accepts the write.
    fn write_u16(&mut self, index: usize, val: u16) -> (res: Result<(), u16>)
        ensures
            res is Ok <==> old(self).accepts(index as int, 2),
            res is Ok ==> in_bounds(old(self).bytes().len(), index as int, 2),
            res is Ok ==> final(self).bytes() == put_word(old(self).bytes(), index as int, val),
            res matches Err(code) ==> code != 0 && final(self).bytes() == old(self).bytes(),
    ;
}

/// Whether `n` is even.
pub fn is_even(n: usize) -> (even: bool)
    ensures
        even <==> n % 2 == 0,
{
    n % 2 == 0
}

/// Whether a [`MemoryStick`] can have `length` bytes: the length must be
/// even, since the bytes are also read as words of two, and every byte must
/// have a sixteen-bit address.
pub open spec fn valid_length(length: int) -> bool {
    length % 2 == 0 && 0 <= length <= MAX_LENGTH
}

/// The plainest device: a block of memory. Its length is fixed when it is
/// made; it accepts every write that lies within it and refuses the others
/// with [`OUT_OF_BOUNDS`].
pub struct MemoryStick {
    internal_mem: Vec<u8>,
}

impl MemoryStick {
    #[verifier::type_invariant]
    spec fn well_formed(self) -> bool {
        valid_length(self.internal_mem@.len() as int)
    }

    /// A block of `length` zero bytes, or why there is none: the length is
    /// odd or more than [`MAX_LENGTH`].
    pub fn try_new(length: usize) -> (res: Result<MemoryStick, &'static str>)
        ensures
            res is Ok <==> valid_length(length as int),
            res matches Ok(stick) ==> stick.bytes() == Seq::new(length as nat, |i: int| 0u8),
            res matches Err(message) ==> message@
                == "length must be even and less than or equal to (u16::MAX)+1"@,
    {
        if is_even(length) && length <= MAX_LENGTH {
            Ok(MemoryStick { internal_mem: vec![0u8; length] })
        } else {
            Err("length must be even and less than or equal to (u16::MAX)+1")
        }
    }

    /// A block of `length` zero bytes, for a caller who knows already that
    /// the length is valid.
    pub fn new_unchecked(length: usize) -> (stick: MemoryStick)
        requires
            valid_length(length as int),
        ensures
            stick.bytes() == Seq::new(length as nat, |i: int| 0u8),
    {
        MemoryStick { internal_mem: vec![0u8; length] }
    }

    /// How many bytes the block has.
    pub fn len(&self) -> (length: usize)
        ensures
            length == self.bytes().len(),
            valid_length(length as int),
    {
        proof {
            use_type_invariant(self);
        }
        self.internal_mem.len()
    }

    /// The bytes of the block in address order, one at a time.
    pub fn iter_u8(&self) -> (iter: core::slice::Iter<'_, u8>)
        ensures
            vstd::std_specs::slice::into_iter_elts(iter) == self.bytes(),
    {
        self.internal_mem.iter()
    }
}

impl Device for MemoryStick {
    closed spec fn bytes(&self) -> Seq<u8> {
        self.internal_mem@
    }

    open spec fn accepts(&self, index: int, width: int) -> bool {
        in_bounds(self.bytes().len(), index, width)
    }

    fn read_u8(&self, offset: usize) -> (val: u8) {
        self.internal_mem[offset]
    }

    fn read_u16(&self, offset: usize) -> (val: u16) {
        proof {
            use_type_invariant(self);
        }
        word_from_bytes(self.internal_mem[offset], self.internal_mem[offset + 1])
    }

    fn write_u8(&mut self, offset: usize, val: u8) -> (res: Result<(), u16>)
        ensures
            res matches Err(code) ==> code == OUT_OF_BOUNDS,
    {
        proof {
            use_type_invariant(&*self);
        }
        if offset >= self.internal_mem.len() {
            return Err(OUT_OF_BOUNDS);
        }
        self.internal_mem[offset] = val;
        Ok(())
    }

    fn write_u16(&mut self, offset: usize, val: u16) -> (res: Result<(), u16>)
        ensures
            res matches Err(code) ==> code == OUT_OF_BOUNDS,
    {
        proof {
            use_type_invariant(&*self);
        }
        if offset >= self.internal_mem.len() || offset + 1 >= self.internal_mem.len() {
            return Err(OUT_OF_BOUNDS);
        }
        let bytes = word_to_bytes(val);
        self.internal_mem[offset] = bytes.0;
        self.internal_mem[offset + 1] = bytes.1;
        Ok(())
    }
}

} // verus!
