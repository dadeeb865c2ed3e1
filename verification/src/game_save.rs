use vstd::prelude::*;

verus! {

/// Size of the cartridge work RAM window at CPU `$6000-$7FFF`.
pub const SAVE_RAM_SIZE: usize = 0x2000;

/// Battery-backed work RAM of a cartridge, mapped at CPU `$6000-$7FFF`.
///
/// The bytes are kept here; storing them between sessions is left to the
/// caller, which can take them with [`GameSave::bytes`] and bring them back
/// with [`GameSave::from_bytes`].
pub struct GameSave {
    data: Vec<u8>,
}

impl View for GameSave {
    type V = Seq<u8>;

    closed spec fn view(&self) -> Seq<u8> {
        self.data@
    }
}

/// Index in the save RAM of the CPU address `addr`.
pub open spec fn save_index(addr: u16) -> int {
    addr - 0x6000
}

impl GameSave {
    /// A save RAM filled with zeros.
    pub fn new() -> (s: Self)
        ensures
            s@ == Seq::new(SAVE_RAM_SIZE as nat, |i: int| 0u8),
    {
        let data: Vec<u8> = vec![0u8; SAVE_RAM_SIZE];
        proof {
            assert(data@ =~= Seq::new(SAVE_RAM_SIZE as nat, |i: int| 0u8));
        }
        GameSave { data }
    }

    /// A save RAM holding `bytes`, when there are exactly 8 KiB of them.
    pub fn from_bytes(bytes: Vec<u8>) -> (s: Option<Self>)
        ensures
            bytes@.len() == SAVE_RAM_SIZE ==> (s matches Some(save) && save@ == bytes@),
            bytes@.len() != SAVE_RAM_SIZE ==> s is None,
    {
        if bytes.len() == SAVE_RAM_SIZE {
            Some(GameSave { data: bytes })
        } else {
            None
        }
    }

    /// The bytes of the save RAM.
    pub fn bytes(&self) -> (b: &[u8])
        ensures
            b@ == self@,
    {
        self.data.as_slice()
    }

    /// Reads the byte at CPU address `addr`.
    pub fn read(&self, addr: u16) -> (r: u8)
        requires
            self@.len() == SAVE_RAM_SIZE,
            0x6000 <= addr <= 0x7FFF,
        ensures
            r == self@[save_index(addr)],
    {
        self.data[(addr - 0x6000) as usize]
    }

    /// Writes `val` at CPU address `addr`.
    pub fn write(&mut self, addr: u16, val: u8)
        requires
            old(self)@.len() == SAVE_RAM_SIZE,
            0x6000 <= addr <= 0x7FFF,
        ensures
            final(self)@ == old(self)@.update(save_index(addr), val),
    {
        let i = (addr - 0x6000) as usize;
        self.data.set(i, val);
    }
}

/// The 8 KiB at $6000-$7FFF map one to one onto the save RAM, in order:
/// $6000 is its first byte, $7FFF its last, and two addresses never share a
/// byte; so a read gives back the last write to the same address and
/// nothing else.
pub proof fn law_save_addresses(a: u16, b: u16, bytes: Seq<u8>, v: u8)
    requires
        0x6000 <= a <= 0x7FFF,
        0x6000 <= b <= 0x7FFF,
        bytes.len() == SAVE_RAM_SIZE,
    ensures
        0 <= save_index(a) < SAVE_RAM_SIZE,
        save_index(0x6000) == 0,
        save_index(0x7FFF) == SAVE_RAM_SIZE - 1,
        a < b ==> save_index(a) < save_index(b),
        bytes.update(save_index(a), v)[save_index(b)] == (if a == b { v } else { bytes[save_index(b)] }),
{
}

} // verus!
