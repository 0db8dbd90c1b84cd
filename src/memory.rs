use vstd::prelude::*;
use vstd::array::{spec_array_fill_for_copy_type, spec_array_update};

verus! {

/// The byte a mirrored memory of `bytes` holds at `index`: indices wrap
/// around the memory's length.
pub open spec fn mirrored(bytes: Seq<u8>, index: u16) -> u8 {
    if bytes.len() == 0 {
        0
    } else {
        bytes[index as int % (bytes.len() as int)]
    }
}

/// `bytes` after writing `value` at the mirrored `index`.
pub open spec fn mirrored_update(bytes: Seq<u8>, index: u16, value: u8) -> Seq<u8> {
    if bytes.len() == 0 {
        bytes
    } else {
        bytes.update(index as int % (bytes.len() as int), value)
    }
}

/// Read-write memory of `SIZE` bytes, mirrored over the whole index range.
pub struct Ram<const SIZE: usize> {
    pub bytes: [u8; SIZE],
}

impl<const SIZE: usize> View for Ram<SIZE> {
    type V = Seq<u8>;

    open spec fn view(&self) -> Seq<u8> {
        self.bytes@
    }
}

impl<const SIZE: usize> Ram<SIZE> {
    /// The memory after writing `value` at the mirrored `index`.
    pub open spec fn updated(self, index: u16, value: u8) -> Self {
        if SIZE == 0 {
            self
        } else {
            Ram { bytes: spec_array_update(self.bytes, index as int % (SIZE as int), value) }
        }
    }

    pub fn new() -> (r: Self)
        ensures
            r@ == Seq::new(SIZE as nat, |i: int| 0u8),
    {
        let r = Ram { bytes: [0u8; SIZE] };
        proof {
            assert(r@ =~= Seq::new(SIZE as nat, |i: int| 0u8));
        }
        r
    }

    pub fn get(&self, index: u16) -> (r: u8)
        ensures
            r == mirrored(self@, index),
    {
        if SIZE == 0 {
            0
        } else {
            self.bytes[index as usize % SIZE]
        }
    }

    pub fn set(&mut self, index: u16, value: u8)
        ensures
            *final(self) == old(self).updated(index, value),
            final(self)@ == mirrored_update(old(self)@, index, value),
    {
        if SIZE != 0 {
            let i = index as usize % SIZE;
            self.bytes.set(i, value);
            proof {
                assert(self.bytes =~= spec_array_update(old(self).bytes, i as int, value));
            }
        }
    }

    /// Overwrites the whole memory with `slice`, which must have its length.
    pub fn copy_from_slice(&mut self, slice: &[u8])
        requires
            slice@.len() == SIZE,
        ensures
            final(self)@ == slice@,
    {
        let mut i: usize = 0;
        while i < slice.len()
            invariant
                slice@.len() == SIZE,
                0 <= i <= SIZE,
                forall|j: int| 0 <= j < i ==> self.bytes@[j] == slice@[j],
            decreases SIZE - i,
        {
            self.bytes.set(i, slice[i]);
            i = i + 1;
        }
        proof {
            assert(self.bytes@ =~= slice@);
        }
    }

    pub fn as_slice(&self) -> (r: &[u8])
        ensures
            r@ == self@,
    {
        self.bytes.as_slice()
    }
}

/// The RAM whose contents are `bytes`.
pub open spec fn ram_with<const SIZE: usize>(bytes: Seq<u8>) -> Ram<SIZE> {
    choose|r: Ram<SIZE>| r@ == bytes
}

pub proof fn lemma_ram_with<const SIZE: usize>(r: Ram<SIZE>)
    ensures
        ram_with::<SIZE>(r@) == r,
{
    let c = ram_with::<SIZE>(r@);
    assert(c@ == r@);
    assert(c.bytes =~= r.bytes);
}

/// An array whose first `n` bytes are those of `s`, the rest zero.
pub open spec fn array_prefix<const N: usize>(s: Seq<u8>, n: nat) -> [u8; N]
    decreases n,
{
    if n == 0 {
        spec_array_fill_for_copy_type::<u8, N>(0u8)
    } else {
        spec_array_update(array_prefix::<N>(s, (n - 1) as nat), n - 1, s[n - 1])
    }
}

proof fn lemma_array_prefix<const N: usize>(s: Seq<u8>, n: nat)
    requires
        n <= N,
        s.len() == N,
    ensures
        forall|i: int| 0 <= i < n ==> array_prefix::<N>(s, n)@[i] == s[i],
        array_prefix::<N>(s, n)@.len() == N,
    decreases n,
{
    broadcast use vstd::array::group_array_axioms;
    if n > 0 {
        lemma_array_prefix::<N>(s, (n - 1) as nat);
    }
}

/// Every byte sequence of the right length is the contents of some RAM.
pub proof fn lemma_ram_exists<const SIZE: usize>(s: Seq<u8>)
    requires
        s.len() == SIZE,
    ensures
        ram_with::<SIZE>(s)@ == s,
{
    lemma_array_prefix::<SIZE>(s, SIZE as nat);
    let w = Ram::<SIZE> { bytes: array_prefix::<SIZE>(s, SIZE as nat) };
    assert(w@ =~= s);
}

/// Read-only memory of `SIZE` bytes, mirrored over the whole index range.
pub struct Rom<const SIZE: usize> {
    pub bytes: [u8; SIZE],
}

impl<const SIZE: usize> View for Rom<SIZE> {
    type V = Seq<u8>;

    open spec fn view(&self) -> Seq<u8> {
        self.bytes@
    }
}

impl<const SIZE: usize> Rom<SIZE> {
    pub fn from_slice(slice: &[u8]) -> (r: Self)
        requires
            slice@.len() == SIZE,
        ensures
            r@ == slice@,
    {
        let mut bytes = [0u8; SIZE];
        let mut i: usize = 0;
        while i < slice.len()
            invariant
                slice@.len() == SIZE,
                0 <= i <= SIZE,
                forall|j: int| 0 <= j < i ==> bytes@[j] == slice@[j],
            decreases SIZE - i,
        {
            bytes.set(i, slice[i]);
            i = i + 1;
        }
        proof {
            assert(bytes@ =~= slice@);
        }
        Rom { bytes }
    }

    pub fn get(&self, index: u16) -> (r: u8)
        ensures
            r == mirrored(self@, index),
    {
        if SIZE == 0 {
            0
        } else {
            self.bytes[index as usize % SIZE]
        }
    }
}

/// Size of the palette memory.
pub const PALETTE_RAM_SIZE: usize = 32;

/// The palette slot that `address` designates: addresses repeat every 32
/// bytes, and the background-colour entries $10, $14, $18 and $1C share
/// storage with $00, $04, $08 and $0C.
pub open spec fn palette_slot(address: u16) -> int {
    let m = address % 32;
    if m >= 16 && m % 4 == 0 { m - 16 } else { m as int }
}

/// The 32 bytes of palette memory.
pub struct PaletteRam {
    pub bytes: [u8; 32],
}

impl View for PaletteRam {
    type V = Seq<u8>;

    open spec fn view(&self) -> Seq<u8> {
        self.bytes@
    }
}

impl PaletteRam {
    /// The byte that a read at `address` observes.
    pub open spec fn at(&self, address: u16) -> u8 {
        self@[palette_slot(address)]
    }

    pub open spec fn updated(self, address: u16, value: u8) -> Self {
        PaletteRam { bytes: spec_array_update(self.bytes, palette_slot(address), value) }
    }

    pub fn new() -> (r: Self)
        ensures
            forall|a: u16| r.at(a) == 0,
    {
        PaletteRam { bytes: [0u8; 32] }
    }

    fn mirror(address: u16) -> (r: usize)
        ensures
            r == palette_slot(address),
            r < 32,
    {
        let m = address % 32;
        (if m >= 16 && m % 4 == 0 {
            m - 16
        } else {
            m
        }) as usize
    }

    pub fn get(&self, address: u16) -> (r: u8)
        ensures
            r == self.at(address),
    {
        self.bytes[Self::mirror(address)]
    }

    pub fn set(&mut self, address: u16, value: u8)
        ensures
            *final(self) == old(self).updated(address, value),
            final(self)@ == old(self)@.update(palette_slot(address), value),
    {
        let i = Self::mirror(address);
        self.bytes.set(i, value);
        proof {
            assert(self.bytes =~= spec_array_update(old(self).bytes, i as int, value));
        }
    }
}

} // verus!
