//! Guest memory: a linear store of bytes with little-endian sized access.

use vstd::prelude::*;
use crate::bus::MemIntf;
use crate::exceptions::Exception;

verus! {

/// An access is 8, 16, 32 or 64 bits wide.
pub open spec fn size_ok(size: u64) -> bool {
    size == 8 || size == 16 || size == 32 || size == 64
}

/// An access of `size` bits at offset `addr` lies within a store of `len` bytes.
pub open spec fn access_ok(len: nat, addr: u64, size: u64) -> bool {
    size_ok(size) && addr + size / 8 <= len
}

/// The bits of a value that an access of `size` bits carries.
pub open spec fn size_mask(size: u64) -> u64 {
    if size == 8 {
        0xff
    } else if size == 16 {
        0xffff
    } else if size == 32 {
        0xffff_ffff
    } else {
        0xffff_ffff_ffff_ffff
    }
}

/// The value of the `size / 8` bytes at offset `a`, least significant byte
/// first.
pub open spec fn le_read(m: Seq<u8>, a: int, size: u64) -> u64 {
    if size == 8 {
        m[a] as u64
    } else if size == 16 {
        (m[a] as u64) | ((m[a + 1] as u64) << 8)
    } else if size == 32 {
        (m[a] as u64) | ((m[a + 1] as u64) << 8) | ((m[a + 2] as u64) << 16) | ((m[a + 3] as u64)
            << 24)
    } else {
        (m[a] as u64) | ((m[a + 1] as u64) << 8) | ((m[a + 2] as u64) << 16) | ((m[a + 3] as u64)
            << 24) | ((m[a + 4] as u64) << 32) | ((m[a + 5] as u64) << 40) | ((m[a + 6] as u64)
            << 48) | ((m[a + 7] as u64) << 56)
    }
}

/// The store after the low `size` bits of `v` are written at offset `a`, least
/// significant byte first.
pub open spec fn le_write(m: Seq<u8>, a: int, v: u64, size: u64) -> Seq<u8> {
    if size == 8 {
        m.update(a, v as u8)
    } else if size == 16 {
        m.update(a, v as u8).update(a + 1, (v >> 8) as u8)
    } else if size == 32 {
        m.update(a, v as u8).update(a + 1, (v >> 8) as u8).update(a + 2, (v >> 16) as u8).update(
            a + 3,
            (v >> 24) as u8,
        )
    } else {
        m.update(a, v as u8).update(a + 1, (v >> 8) as u8).update(a + 2, (v >> 16) as u8).update(
            a + 3,
            (v >> 24) as u8,
        ).update(a + 4, (v >> 32) as u8).update(a + 5, (v >> 40) as u8).update(
            a + 6,
            (v >> 48) as u8,
        ).update(a + 7, (v >> 56) as u8)
    }
}

/// The bytes of a value, put together again least significant first, give the
/// value's low bits.
proof fn lemma_bytes_compose(v: u64)
    by (bit_vector)
    ensures
        (v as u8) as u64 == v & 0xff,
        ((v as u8) as u64) | ((((v >> 8) as u8) as u64) << 8) == v & 0xffff,
        ((v as u8) as u64) | ((((v >> 8) as u8) as u64) << 8) | ((((v >> 16) as u8) as u64) << 16)
            | ((((v >> 24) as u8) as u64) << 24) == v & 0xffff_ffff,
        ((v as u8) as u64) | ((((v >> 8) as u8) as u64) << 8) | ((((v >> 16) as u8) as u64) << 16)
            | ((((v >> 24) as u8) as u64) << 24) | ((((v >> 32) as u8) as u64) << 32) | ((((v
            >> 40) as u8) as u64) << 40) | ((((v >> 48) as u8) as u64) << 48) | ((((v >> 56) as u8)
            as u64) << 56) == v & 0xffff_ffff_ffff_ffff,
{
}

/// Bytes put together least significant first stay below two to the number of
/// their bits.
proof fn lemma_compose_bound(b0: u8, b1: u8, b2: u8, b3: u8)
    by (bit_vector)
    ensures
        (b0 as u64) | ((b1 as u64) << 8) < 0x1_0000,
        (b0 as u64) | ((b1 as u64) << 8) | ((b2 as u64) << 16) | ((b3 as u64) << 24)
            < 0x1_0000_0000,
{
}

/// A value of `size` bits is below two to the `size`.
pub proof fn lemma_read_bound(m: Seq<u8>, addr: u64, size: u64)
    requires
        access_ok(m.len(), addr, size),
    ensures
        size == 8 ==> le_read(m, addr as int, size) < 0x100,
        size == 16 ==> le_read(m, addr as int, size) < 0x1_0000,
        size == 32 ==> le_read(m, addr as int, size) < 0x1_0000_0000,
{
    let a = addr as int;
    if size >= 32 {
        lemma_compose_bound(m[a], m[a + 1], m[a + 2], m[a + 3]);
    } else if size == 16 {
        lemma_compose_bound(m[a], m[a + 1], 0, 0);
    }
}

/// Bytes joined by shifts are the digits of the value in base 256.
proof fn lemma_compose_positional(
    b0: u8,
    b1: u8,
    b2: u8,
    b3: u8,
    b4: u8,
    b5: u8,
    b6: u8,
    b7: u8,
)
    by (bit_vector)
    ensures
        (b0 as u64) | ((b1 as u64) << 8) == b0 + 0x100 * b1,
        (b0 as u64) | ((b1 as u64) << 8) | ((b2 as u64) << 16) | ((b3 as u64) << 24) == b0 + 0x100
            * b1 + 0x1_0000 * b2 + 0x100_0000 * b3,
        (b0 as u64) | ((b1 as u64) << 8) | ((b2 as u64) << 16) | ((b3 as u64) << 24) | ((b4 as u64)
            << 32) | ((b5 as u64) << 40) | ((b6 as u64) << 48) | ((b7 as u64) << 56) == b0 + 0x100
            * b1 + 0x1_0000 * b2 + 0x100_0000 * b3 + 0x1_0000_0000 * b4 + 0x100_0000_0000 * b5
            + 0x1_0000_0000_0000 * b6 + 0x100_0000_0000_0000 * b7,
{
}

/// The value read is the number whose digits in base 256 are the bytes, the
/// least significant first.
pub proof fn lemma_read_is_positional(m: Seq<u8>, addr: u64, size: u64)
    requires
        access_ok(m.len(), addr, size),
    ensures
        size == 8 ==> le_read(m, addr as int, size) == m[addr as int],
        size == 16 ==> le_read(m, addr as int, size) == m[addr as int] + 0x100 * m[addr + 1],
        size == 32 ==> le_read(m, addr as int, size) == m[addr as int] + 0x100 * m[addr + 1]
            + 0x1_0000 * m[addr + 2] + 0x100_0000 * m[addr + 3],
        size == 64 ==> le_read(m, addr as int, size) == m[addr as int] + 0x100 * m[addr + 1]
            + 0x1_0000 * m[addr + 2] + 0x100_0000 * m[addr + 3] + 0x1_0000_0000 * m[addr + 4]
            + 0x100_0000_0000 * m[addr + 5] + 0x1_0000_0000_0000 * m[addr + 6]
            + 0x100_0000_0000_0000 * m[addr + 7],
{
    let a = addr as int;
    if size == 16 {
        lemma_compose_positional(m[a], m[a + 1], 0, 0, 0, 0, 0, 0);
    } else if size == 32 {
        lemma_compose_positional(m[a], m[a + 1], m[a + 2], m[a + 3], 0, 0, 0, 0);
    } else if size == 64 {
        lemma_compose_positional(
            m[a],
            m[a + 1],
            m[a + 2],
            m[a + 3],
            m[a + 4],
            m[a + 5],
            m[a + 6],
            m[a + 7],
        );
    }
}

/// A value that is stored and then loaded at the same place and width comes
/// back with the bits that the width carries.
pub proof fn lemma_store_then_load(m: Seq<u8>, addr: u64, val: u64, size: u64)
    requires
        access_ok(m.len(), addr, size),
    ensures
        le_write(m, addr as int, val, size).len() == m.len(),
        le_read(le_write(m, addr as int, val, size), addr as int, size) == val & size_mask(size),
{
    lemma_bytes_compose(val);
}

/// A store leaves every byte outside its span as it was.
pub proof fn lemma_store_frame(m: Seq<u8>, addr: u64, val: u64, size: u64, i: int)
    requires
        access_ok(m.len(), addr, size),
        0 <= i < m.len(),
        i < addr || i >= addr + size / 8,
    ensures
        le_write(m, addr as int, val, size)[i] == m[i],
{
}

/// Guest memory held in a vector of bytes.
pub struct Ram {
    pub mem: Vec<u8>,
}

impl Ram {
    /// Memory that holds the given bytes.
    pub fn new(mem: Vec<u8>) -> (r: Self)
        ensures
            r.bytes() == mem@,
    {
        Ram { mem }
    }

    /// The number of bytes.
    pub fn len(&self) -> (n: usize)
        ensures
            n == self.bytes().len(),
    {
        self.mem.len()
    }

    /// Whether an access of `size` bits at `addr` lies within the memory.
    fn in_range(&self, addr: u64, size: u64) -> (r: bool)
        ensures
            r == access_ok(self.mem@.len(), addr, size),
            r ==> addr + size / 8 <= usize::MAX,
    {
        let n = self.mem.len() as u64;
        (size == 8 || size == 16 || size == 32 || size == 64) && addr <= n && n - addr >= size / 8
    }

    /// Reads `size` bits at offset `addr`, least significant byte first. An
    /// access that does not lie within the memory is a load access fault at
    /// `addr`.
    pub fn read(&self, addr: u64, size: u64) -> (r: Result<u64, Exception>)
        ensures
            r is Ok <==> access_ok(self.bytes().len(), addr, size),
            r is Ok ==> r->Ok_0 == le_read(self.bytes(), addr as int, size),
            r is Err ==> r == Err::<u64, Exception>(Exception::LoadAccessFault(addr)),
    {
        if !self.in_range(addr, size) {
            return Err(Exception::LoadAccessFault(addr));
        }
        let a = addr as usize;
        let m = &self.mem;
        if size == 8 {
            Ok(m[a] as u64)
        } else if size == 16 {
            Ok((m[a] as u64) | ((m[a + 1] as u64) << 8))
        } else if size == 32 {
            Ok(
                (m[a] as u64) | ((m[a + 1] as u64) << 8) | ((m[a + 2] as u64) << 16) | ((m[a
                    + 3] as u64) << 24),
            )
        } else {
            Ok(
                (m[a] as u64) | ((m[a + 1] as u64) << 8) | ((m[a + 2] as u64) << 16) | ((m[a
                    + 3] as u64) << 24) | ((m[a + 4] as u64) << 32) | ((m[a + 5] as u64) << 40) | ((
                m[a + 6] as u64) << 48) | ((m[a + 7] as u64) << 56),
            )
        }
    }
}

impl MemIntf for Ram {
    open spec fn bytes(&self) -> Seq<u8> {
        self.mem@
    }

    fn reset(&mut self) {
        let n = self.mem.len();
        let mut i: usize = 0;
        while i < n
            invariant
                i <= n,
                self.mem@.len() == n,
                forall|j: int| 0 <= j < i ==> self.mem@[j] == 0,
            decreases n - i,
        {
            self.mem[i] = 0;
            i += 1;
        }
    }

    fn load(&mut self, addr: u64, size: u64) -> (r: Result<u64, Exception>) {
        self.read(addr, size)
    }

    fn store(&mut self, addr: u64, val: u64, size: u64) -> (r: Result<(), Exception>) {
        if !self.in_range(addr, size) {
            return Err(Exception::StoreAMOAccessFault(addr));
        }
        let a = addr as usize;
        self.mem[a] = #[verifier::truncate]
        (val as u8);
        if size >= 16 {
            self.mem[a + 1] = #[verifier::truncate]
            ((val >> 8) as u8);
        }
        if size >= 32 {
            self.mem[a + 2] = #[verifier::truncate]
            ((val >> 16) as u8);
            self.mem[a + 3] = #[verifier::truncate]
            ((val >> 24) as u8);
        }
        if size == 64 {
            self.mem[a + 4] = #[verifier::truncate]
            ((val >> 32) as u8);
            self.mem[a + 5] = #[verifier::truncate]
            ((val >> 40) as u8);
            self.mem[a + 6] = #[verifier::truncate]
            ((val >> 48) as u8);
            self.mem[a + 7] = #[verifier::truncate]
            ((val >> 56) as u8);
        }
        Ok(())
    }
}

} // verus!
