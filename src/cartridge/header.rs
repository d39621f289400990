use vstd::prelude::*;

verus! {

pub const TITLE_START: usize = 0x134;

pub const TITLE_END: usize = 0x143;

/// The cartridge header: its bytes from 0x0100 and the title.
pub struct CartridgeHeader {
    pub data: Vec<u8>,
    /// The title bytes at 0x0134..=0x0143, each byte that is not ASCII
    /// replaced by `_`.
    pub title: Vec<u8>,
}

pub open spec fn title_char(b: u8) -> u8 {
    if b < 128 { b } else { 0x5F }
}

impl CartridgeHeader {
    /// The header of a ROM image that reaches past the title.
    pub fn new(rom: &Vec<u8>) -> (r: Self)
        requires
            rom@.len() > TITLE_END,
        ensures
            r.data@ == rom@.subrange(0x100, rom@.len() as int),
            r.title@.len() == 16,
            forall|i: int| 0 <= i < 16 ==> #[trigger] r.title@[i] == title_char(rom@[0x134 + i]),
    {
        let mut data: Vec<u8> = Vec::new();
        let mut i: usize = 0x100;
        while i < rom.len()
            invariant
                0x100 <= i <= rom@.len(),
                data@ == rom@.subrange(0x100, i as int),
            decreases rom@.len() - i,
        {
            data.push(rom[i]);
            i = i + 1;
            assert(data@ =~= rom@.subrange(0x100, i as int));
        }
        let mut title: Vec<u8> = Vec::new();
        let mut j: usize = TITLE_START;
        while j <= TITLE_END
            invariant
                TITLE_START <= j <= TITLE_END + 1,
                rom@.len() > TITLE_END,
                title@.len() == j - TITLE_START,
                forall|k: int| 0 <= k < title@.len() ==> #[trigger] title@[k] == title_char(rom@[0x134 + k]),
            decreases TITLE_END + 1 - j,
        {
            let b = rom[j];
            let c = if b < 128 {
                b
            } else {
                0x5F
            };
            title.push(c);
            j = j + 1;
        }
        CartridgeHeader { data, title }
    }
}

} // verus!
