use vstd::prelude::*;
use vstd::array::spec_array_update;

verus! {

/// Address of the little-endian reset vector.
pub const RESET_VECTOR: u16 = 0xFFFC;

/// The word made of a low and a high byte.
pub open spec fn word(low: u8, high: u8) -> u16 {
    (high as int * 256 + low as int) as u16
}

pub fn make_word(low: u8, high: u8) -> (r: u16)
    ensures
        r == word(low, high),
{
    (high as u16) * 256 + (low as u16)
}

/// The word that two successive reads at `address` and `address + 1` observe.
pub open spec fn read_word_spec<B: Bus16>(bus: B, address: u16) -> u16 {
    word(bus.read_spec(address), bus.after_read(address).read_spec(address.wrapping_add(1)))
}

/// The bus after two successive reads at `address` and `address + 1`.
pub open spec fn after_read_word<B: Bus16>(bus: B, address: u16) -> B {
    bus.after_read(address).after_read(address.wrapping_add(1))
}

/// A 16-bit address space of bytes.
///
/// Each implementation describes itself as a deterministic state machine:
/// what a read returns and leaves behind, what a write leaves behind, and what
/// a side-effect-free peek observes.
pub trait Bus16: Sized {
    spec fn peek_spec(&self, address: u16) -> u8;

    spec fn read_spec(&self, address: u16) -> u8;

    spec fn after_read(&self, address: u16) -> Self;

    spec fn after_write(&self, address: u16, value: u8) -> Self;

    fn peek_byte(&self, address: u16) -> (r: u8)
        ensures
            r == self.peek_spec(address),
    ;

    fn read_byte(&mut self, address: u16) -> (r: u8)
        ensures
            r == old(self).read_spec(address),
            *final(self) == old(self).after_read(address),
    ;

    fn write_byte(&mut self, address: u16, value: u8)
        ensures
            *final(self) == old(self).after_write(address, value),
    ;

    fn read_word(&mut self, address: u16) -> (r: u16)
        ensures
            r == word(
                old(self).read_spec(address),
                old(self).after_read(address).read_spec(address.wrapping_add(1)),
            ),
            *final(self) == old(self).after_read(address).after_read(address.wrapping_add(1)),
    {
        let low = self.read_byte(address);
        let high = self.read_byte(address.wrapping_add(1));
        make_word(low, high)
    }

    fn write_word(&mut self, address: u16, value: u16)
        ensures
            *final(self) == old(self).after_write(address, (value % 256) as u8).after_write(
                address.wrapping_add(1),
                (value / 256) as u8,
            ),
    {
        self.write_byte(address, (value % 256) as u8);
        self.write_byte(address.wrapping_add(1), (value / 256) as u8);
    }

    fn peek_word(&self, address: u16) -> (r: u16)
        ensures
            r == word(self.peek_spec(address), self.peek_spec(address.wrapping_add(1))),
    {
        let low = self.peek_byte(address);
        let high = self.peek_byte(address.wrapping_add(1));
        make_word(low, high)
    }
}

/// Size of the 16-bit address space.
pub const MEMORY_SIZE: usize = 0x10000;

/// The byte that `load_code` leaves at `address`.
pub open spec fn loaded_byte(
    before: Seq<u8>,
    code: Seq<u8>,
    base_address: u16,
    reset_vector: Option<u16>,
    address: int,
) -> u8 {
    let offset = (address - base_address) % 0x10000;
    match reset_vector {
        Some(v) if address == RESET_VECTOR as int => (v % 256) as u8,
        Some(v) if address == RESET_VECTOR as int + 1 => (v / 256) as u8,
        _ => if offset < code.len() { code[offset] } else { before[address] },
    }
}

/// A full 64 KiB address space of plain RAM, without mirroring or mapping.
pub struct FlatMemory {
    pub bytes: [u8; 0x10000],
}

impl FlatMemory {
    pub fn new() -> (r: FlatMemory)
        ensures
            forall|a: u16| r.peek_spec(a) == 0,
    {
        FlatMemory { bytes: [0u8; 0x10000] }
    }

    /// Copies `code` to consecutive addresses from `base_address` (wrapping),
    /// then stores `reset_vector`, if given, at the reset vector.
    pub fn load_code(&mut self, code: &[u8], base_address: u16, reset_vector: Option<u16>)
        requires
            code@.len() <= MEMORY_SIZE,
        ensures
            forall|a: int|
                0 <= a < MEMORY_SIZE ==> #[trigger] final(self).bytes@[a] == loaded_byte(
                    old(self).bytes@,
                    code@,
                    base_address,
                    reset_vector,
                    a,
                ),
    {
        let mut i: usize = 0;
        while i < code.len()
            invariant
                code@.len() <= MEMORY_SIZE,
                0 <= i <= code@.len(),
                forall|a: int|
                    0 <= a < MEMORY_SIZE ==> #[trigger] self.bytes@[a] == (if (a - base_address)
                        % 0x10000 < i {
                        code@[(a - base_address) % 0x10000]
                    } else {
                        old(self).bytes@[a]
                    }),
            decreases code@.len() - i,
        {
            let address = base_address.wrapping_add(i as u16);
            self.bytes.set(address as usize, code[i]);
            i = i + 1;
        }
        match reset_vector {
            Some(v) => {
                self.bytes.set(RESET_VECTOR as usize, (v % 256) as u8);
                self.bytes.set(RESET_VECTOR as usize + 1, (v / 256) as u8);
            },
            None => {},
        }
    }
}

impl Bus16 for FlatMemory {
    open spec fn peek_spec(&self, address: u16) -> u8 {
        self.bytes@[address as int]
    }

    open spec fn read_spec(&self, address: u16) -> u8 {
        self.bytes@[address as int]
    }

    open spec fn after_read(&self, address: u16) -> Self {
        *self
    }

    open spec fn after_write(&self, address: u16, value: u8) -> Self {
        FlatMemory { bytes: spec_array_update(self.bytes, address as int, value) }
    }

    fn peek_byte(&self, address: u16) -> (r: u8) {
        self.bytes[address as usize]
    }

    fn read_byte(&mut self, address: u16) -> (r: u8) {
        self.bytes[address as usize]
    }

    fn write_byte(&mut self, address: u16, value: u8) {
        self.bytes.set(address as usize, value);
        proof {
            assert(self.bytes =~= spec_array_update(old(self).bytes, address as int, value));
        }
    }
}

} // verus!
