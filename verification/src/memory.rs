use crate::exception::Exception;
use vstd::prelude::*;

verus! {

/// Base address of the backing memory region; the reset program counter.
pub const MEM_BASE: u32 = 0x8000_0000;

/// Size of the backing memory region in bytes.
pub const MEM_SIZE: u32 = 0x1_0000;

/// True when every byte of an access of `nbytes` bytes at `addr` lies inside
/// the backing region.
pub open spec fn in_mem_range(addr: u32, nbytes: u32) -> bool {
    MEM_BASE <= addr && addr + nbytes <= MEM_BASE + MEM_SIZE
}

/// The byte stored at address `addr`, as an unsigned 32-bit value.
pub open spec fn byte_at(mem: Seq<u8>, addr: u32) -> u32 {
    mem[addr - MEM_BASE] as u32
}

/// The 16-bit little-endian value stored at `addr`, zero-extended.
pub open spec fn load_half(mem: Seq<u8>, addr: u32) -> u32 {
    (byte_at(mem, addr) + byte_at(mem, (addr + 1) as u32) * 0x100) as u32
}

/// The 32-bit little-endian value stored at `addr`.
pub open spec fn load_word(mem: Seq<u8>, addr: u32) -> u32 {
    (byte_at(mem, addr) + byte_at(mem, (addr + 1) as u32) * 0x100 + byte_at(
        mem,
        (addr + 2) as u32,
    ) * 0x1_0000 + byte_at(mem, (addr + 3) as u32) * 0x100_0000) as u32
}

/// The memory after the low 8 bits of `val` are written at `addr`.
pub open spec fn store_byte(mem: Seq<u8>, addr: u32, val: u32) -> Seq<u8> {
    mem.update(addr - MEM_BASE, (val % 0x100) as u8)
}

/// The memory after the low 16 bits of `val` are written at `addr`,
/// little-endian.
pub open spec fn store_half(mem: Seq<u8>, addr: u32, val: u32) -> Seq<u8> {
    store_byte(store_byte(mem, addr, val), (addr + 1) as u32, val / 0x100)
}

/// The memory after all 32 bits of `val` are written at `addr`,
/// little-endian.
pub open spec fn store_word(mem: Seq<u8>, addr: u32, val: u32) -> Seq<u8> {
    store_byte(
        store_byte(
            store_byte(store_byte(mem, addr, val), (addr + 1) as u32, val / 0x100),
            (addr + 2) as u32,
            val / 0x1_0000,
        ),
        (addr + 3) as u32,
        val / 0x100_0000,
    )
}

/// The memory bus: a contiguous byte-addressable region of `MEM_SIZE` bytes
/// starting at `MEM_BASE`, in little-endian byte order.  Accesses outside the
/// region fail with `MemoryFault`; nothing is clamped.
#[derive(Clone, Debug)]
pub struct BUS {
    mem: Vec<u8>,
}

impl View for BUS {
    type V = Seq<u8>;

    closed spec fn view(&self) -> Seq<u8> {
        self.mem@
    }
}

impl BUS {
    pub open spec fn wf(&self) -> bool {
        self@.len() == MEM_SIZE
    }

    pub fn new() -> (r: BUS)
        ensures
            r.wf(),
            forall|i: int| 0 <= i < MEM_SIZE ==> r@[i] == 0,
    {
        let mut mem: Vec<u8> = Vec::new();
        let mut i: u32 = 0;
        while i < MEM_SIZE
            invariant
                i <= MEM_SIZE,
                mem@.len() == i,
                forall|j: int| 0 <= j < i ==> mem@[j] == 0,
            decreases MEM_SIZE - i,
        {
            mem.push(0);
            i = i + 1;
        }
        BUS { mem }
    }

    /// Reads the unsigned value of the given bit width (8, 16 or 32) at
    /// `addr`, little-endian.
    pub fn load(&self, addr: u32, width: u32) -> (r: Result<u32, Exception>)
        requires
            self.wf(),
            width == 8 || width == 16 || width == 32,
        ensures
            match r {
                Ok(v) => in_mem_range(addr, width / 8) && v == (if width == 8 {
                    byte_at(self@, addr)
                } else if width == 16 {
                    load_half(self@, addr)
                } else {
                    load_word(self@, addr)
                }),
                Err(e) => e == Exception::MemoryFault && !in_mem_range(addr, width / 8),
            },
    {
        let nbytes: u32 = width / 8;
        if addr < MEM_BASE || addr - MEM_BASE > MEM_SIZE - nbytes {
            return Err(Exception::MemoryFault);
        }
        let i: usize = (addr - MEM_BASE) as usize;
        if width == 8 {
            Ok(self.mem[i] as u32)
        } else if width == 16 {
            Ok(self.mem[i] as u32 + (self.mem[i + 1] as u32) * 0x100)
        } else {
            Ok(
                self.mem[i] as u32 + (self.mem[i + 1] as u32) * 0x100 + (self.mem[i + 2] as u32)
                    * 0x1_0000 + (self.mem[i + 3] as u32) * 0x100_0000,
            )
        }
    }

    /// Writes the low `width` bits (8, 16 or 32) of `value` at `addr`,
    /// little-endian.
    pub fn store(&mut self, addr: u32, width: u32, value: u32) -> (r: Result<(), Exception>)
        requires
            old(self).wf(),
            width == 8 || width == 16 || width == 32,
        ensures
            final(self).wf(),
            match r {
                Ok(u) => in_mem_range(addr, width / 8) && final(self)@ == (if width == 8 {
                    store_byte(old(self)@, addr, value)
                } else if width == 16 {
                    store_half(old(self)@, addr, value)
                } else {
                    store_word(old(self)@, addr, value)
                }),
                Err(e) => e == Exception::MemoryFault && !in_mem_range(addr, width / 8)
                    && final(self)@ == old(self)@,
            },
    {
        let nbytes: u32 = width / 8;
        if addr < MEM_BASE || addr - MEM_BASE > MEM_SIZE - nbytes {
            return Err(Exception::MemoryFault);
        }
        let i: usize = (addr - MEM_BASE) as usize;
        self.mem[i] = (value % 0x100) as u8;
        if width >= 16 {
            self.mem[i + 1] = ((value / 0x100) % 0x100) as u8;
        }
        if width == 32 {
            self.mem[i + 2] = ((value / 0x1_0000) % 0x100) as u8;
            self.mem[i + 3] = ((value / 0x100_0000) % 0x100) as u8;
        }
        Ok(())
    }
}

/// Store-then-load round trip: a full word written at an in-range address is
/// read back exactly, for every 32-bit value.
pub proof fn lemma_store_load_word(mem: Seq<u8>, addr: u32, v: u32)
    requires
        mem.len() == MEM_SIZE,
        in_mem_range(addr, 4),
    ensures
        load_word(store_word(mem, addr, v), addr) == v,
{
    assert(v % 0x100 + ((v / 0x100) % 0x100) * 0x100 + ((v / 0x1_0000) % 0x100) * 0x1_0000 + ((v
        / 0x100_0000) % 0x100) * 0x100_0000 == v) by (bit_vector);
}

} // verus!
