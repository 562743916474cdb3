//! Typed access to a byte store: bytes, half words, words and double words.

use vstd::prelude::*;
use crate::bus::MemIntf;
use crate::exceptions::Exception;
use crate::ram::{access_ok, le_read, le_write, lemma_read_bound, Ram};

verus! {

/// A byte store with typed little-endian access.
///
/// An access that does not lie within the store is refused and leaves the store
/// as it was.
pub trait Memory {
    /// The bytes that the store holds.
    spec fn contents(&self) -> Seq<u8>;

    /// The number of bytes.
    fn get_size(&self) -> (n: u64)
        ensures
            n == self.contents().len(),
    ;

    /// Sets every byte to zero and keeps the length.
    fn reset(&mut self)
        ensures
            final(self).contents() == Seq::new(old(self).contents().len(), |i: int| 0u8),
    ;

    fn get_byte(&self, addr: u64) -> (r: Result<u8, Exception>)
        ensures
            r is Ok <==> access_ok(self.contents().len(), addr, 8),
            r is Ok ==> r->Ok_0 == le_read(self.contents(), addr as int, 8),
            r is Err ==> r->Err_0 == Exception::LoadAccessFault(addr),
    ;

    fn get_half_word(&self, addr: u64) -> (r: Result<u16, Exception>)
        ensures
            r is Ok <==> access_ok(self.contents().len(), addr, 16),
            r is Ok ==> r->Ok_0 == le_read(self.contents(), addr as int, 16),
            r is Err ==> r->Err_0 == Exception::LoadAccessFault(addr),
    ;

    fn get_word(&self, addr: u64) -> (r: Result<u32, Exception>)
        ensures
            r is Ok <==> access_ok(self.contents().len(), addr, 32),
            r is Ok ==> r->Ok_0 == le_read(self.contents(), addr as int, 32),
            r is Err ==> r->Err_0 == Exception::LoadAccessFault(addr),
    ;

    fn get_double_word(&self, addr: u64) -> (r: Result<u64, Exception>)
        ensures
            r is Ok <==> access_ok(self.contents().len(), addr, 64),
            r is Ok ==> r->Ok_0 == le_read(self.contents(), addr as int, 64),
            r is Err ==> r->Err_0 == Exception::LoadAccessFault(addr),
    ;

    fn set_byte(&mut self, addr: u64, val: u8) -> (r: Result<(), Exception>)
        ensures
            r is Ok <==> access_ok(old(self).contents().len(), addr, 8),
            r is Ok ==> final(self).contents() == le_write(
                old(self).contents(),
                addr as int,
                val as u64,
                8,
            ),
            r is Err ==> final(self).contents() == old(self).contents(),
            r is Err ==> r->Err_0 == Exception::StoreAMOAccessFault(addr),
    ;

    fn set_half_word(&mut self, addr: u64, val: u16) -> (r: Result<(), Exception>)
        ensures
            r is Ok <==> access_ok(old(self).contents().len(), addr, 16),
            r is Ok ==> final(self).contents() == le_write(
                old(self).contents(),
                addr as int,
                val as u64,
                16,
            ),
            r is Err ==> final(self).contents() == old(self).contents(),
            r is Err ==> r->Err_0 == Exception::StoreAMOAccessFault(addr),
    ;

    fn set_word(&mut self, addr: u64, val: u32) -> (r: Result<(), Exception>)
        ensures
            r is Ok <==> access_ok(old(self).contents().len(), addr, 32),
            r is Ok ==> final(self).contents() == le_write(
                old(self).contents(),
                addr as int,
                val as u64,
                32,
            ),
            r is Err ==> final(self).contents() == old(self).contents(),
            r is Err ==> r->Err_0 == Exception::StoreAMOAccessFault(addr),
    ;

    fn set_double_word(&mut self, addr: u64, val: u64) -> (r: Result<(), Exception>)
        ensures
            r is Ok <==> access_ok(old(self).contents().len(), addr, 64),
            r is Ok ==> final(self).contents() == le_write(
                old(self).contents(),
                addr as int,
                val,
                64,
            ),
            r is Err ==> final(self).contents() == old(self).contents(),
            r is Err ==> r->Err_0 == Exception::StoreAMOAccessFault(addr),
    ;
}

impl Memory for Ram {
    open spec fn contents(&self) -> Seq<u8> {
        self.mem@
    }

    fn get_size(&self) -> (n: u64) {
        self.mem.len() as u64
    }

    fn reset(&mut self) {
        MemIntf::reset(self)
    }

    fn get_byte(&self, addr: u64) -> (r: Result<u8, Exception>) {
        proof {
            if access_ok(self.mem@.len(), addr, 8) {
                lemma_read_bound(self.mem@, addr, 8);
            }
        }
        match self.read(addr, 8) {
            Ok(v) => Ok(v as u8),
            Err(e) => Err(e),
        }
    }

    fn get_half_word(&self, addr: u64) -> (r: Result<u16, Exception>) {
        proof {
            if access_ok(self.mem@.len(), addr, 16) {
                lemma_read_bound(self.mem@, addr, 16);
            }
        }
        match self.read(addr, 16) {
            Ok(v) => Ok(v as u16),
            Err(e) => Err(e),
        }
    }

    fn get_word(&self, addr: u64) -> (r: Result<u32, Exception>) {
        proof {
            if access_ok(self.mem@.len(), addr, 32) {
                lemma_read_bound(self.mem@, addr, 32);
            }
        }
        match self.read(addr, 32) {
            Ok(v) => Ok(v as u32),
            Err(e) => Err(e),
        }
    }

    fn get_double_word(&self, addr: u64) -> (r: Result<u64, Exception>) {
        self.read(addr, 64)
    }

    fn set_byte(&mut self, addr: u64, val: u8) -> (r: Result<(), Exception>) {
        self.store(addr, val as u64, 8)
    }

    fn set_half_word(&mut self, addr: u64, val: u16) -> (r: Result<(), Exception>) {
        self.store(addr, val as u64, 16)
    }

    fn set_word(&mut self, addr: u64, val: u32) -> (r: Result<(), Exception>) {
        self.store(addr, val as u64, 32)
    }

    fn set_double_word(&mut self, addr: u64, val: u64) -> (r: Result<(), Exception>) {
        self.store(addr, val, 64)
    }
}

/// A memory unit over a byte store. Addresses pass through as they are.
pub struct MMU<M: Memory> {
    /// The number of bytes that the store held when the unit was made.
    pub size: u64,
    pub mem: M,
}

impl<M: Memory> MMU<M> {
    pub fn new(mem: M) -> (r: Self)
        ensures
            r.mem.contents() == mem.contents(),
            r.size == mem.contents().len(),
    {
        MMU { size: mem.get_size(), mem }
    }

    /// Zeroes the store, and hands the unit back.
    pub fn reset(&mut self) -> (r: &mut Self)
        ensures
            r.mem.contents() == Seq::new(old(self).mem.contents().len(), |i: int| 0u8),
            r.size == old(self).size,
            *final(self) == *final(r),
    {
        self.mem.reset();
        self
    }

    pub fn get_byte(&self, addr: u64) -> (r: Result<u8, Exception>)
        ensures
            r is Ok <==> access_ok(self.mem.contents().len(), addr, 8),
            r is Ok ==> r->Ok_0 == le_read(self.mem.contents(), addr as int, 8),
            r is Err ==> r->Err_0 == Exception::LoadAccessFault(addr),
    {
        self.mem.get_byte(addr)
    }

    pub fn get_half_word(&self, addr: u64) -> (r: Result<u16, Exception>)
        ensures
            r is Ok <==> access_ok(self.mem.contents().len(), addr, 16),
            r is Ok ==> r->Ok_0 == le_read(self.mem.contents(), addr as int, 16),
            r is Err ==> r->Err_0 == Exception::LoadAccessFault(addr),
    {
        self.mem.get_half_word(addr)
    }

    pub fn get_word(&self, addr: u64) -> (r: Result<u32, Exception>)
        ensures
            r is Ok <==> access_ok(self.mem.contents().len(), addr, 32),
            r is Ok ==> r->Ok_0 == le_read(self.mem.contents(), addr as int, 32),
            r is Err ==> r->Err_0 == Exception::LoadAccessFault(addr),
    {
        self.mem.get_word(addr)
    }

    pub fn get_double_word(&self, addr: u64) -> (r: Result<u64, Exception>)
        ensures
            r is Ok <==> access_ok(self.mem.contents().len(), addr, 64),
            r is Ok ==> r->Ok_0 == le_read(self.mem.contents(), addr as int, 64),
            r is Err ==> r->Err_0 == Exception::LoadAccessFault(addr),
    {
        self.mem.get_double_word(addr)
    }

    pub fn set_byte(&mut self, addr: u64, val: u8) -> (r: Result<(), Exception>)
        ensures
            r is Ok <==> access_ok(old(self).mem.contents().len(), addr, 8),
            r is Ok ==> final(self).mem.contents() == le_write(
                old(self).mem.contents(),
                addr as int,
                val as u64,
                8,
            ),
            r is Err ==> final(self).mem.contents() == old(self).mem.contents(),
            r is Err ==> r->Err_0 == Exception::StoreAMOAccessFault(addr),
            final(self).size == old(self).size,
    {
        self.mem.set_byte(addr, val)
    }
}

} // verus!
