use vstd::prelude::*;

use self::header::CartridgeHeader;

pub mod header;

verus! {

pub const BANK_SIZE: usize = 0x4000;

/// The read surface of a cartridge without a bank controller: bank 0 at
/// 0x0000..0x3FFF and bank n at 0x4000..0x7FFF.
pub struct Cartridge {
    pub header: CartridgeHeader,
    pub data: Vec<u8>,
    pub bank0: Vec<u8>,
    pub bankn: Vec<u8>,
}

/// The bytes of `data` from `start` on, `len` of them.
fn copy_range(data: &Vec<u8>, start: usize, len: usize) -> (r: Vec<u8>)
    requires
        start + len <= data@.len(),
    ensures
        r@ == data@.subrange(start as int, start + len),
{
    let mut out: Vec<u8> = Vec::new();
    let n = data.len();
    let mut i: usize = 0;
    while i < len
        invariant
            n == data@.len(),
            start + len <= n,
            i <= len,
            out@ == data@.subrange(start as int, start + i),
        decreases len - i,
    {
        assert(start + i < data@.len());
        out.push(data[start + i]);
        i = i + 1;
        assert(out@ =~= data@.subrange(start as int, start + i));
    }
    out
}

impl Cartridge {
    pub const BANK_N_START: u16 = 0x4000;

    pub open spec fn wf(self) -> bool {
        self.bank0@.len() == BANK_SIZE && self.bankn@.len() == BANK_SIZE
    }

    pub open spec fn read_spec(self, address: u16) -> u8 {
        if address < 0x4000 {
            self.bank0@[address as int]
        } else {
            self.bankn@[address - 0x4000]
        }
    }

    /// A cartridge from a ROM image of at least 32 KiB.
    pub fn new(data: Vec<u8>) -> (r: Self)
        requires
            data@.len() >= 2 * BANK_SIZE,
        ensures
            r.wf(),
            r.bank0@ == data@.subrange(0, 0x4000),
            r.bankn@ == data@.subrange(0x4000, 0x8000),
            r.data@ == data@,
            forall|a: u16| a < 0x8000 ==> #[trigger] r.read_spec(a) == data@[a as int],
    {
        let header = CartridgeHeader::new(&data);
        let bank0 = copy_range(&data, 0, BANK_SIZE);
        let bankn = copy_range(&data, BANK_SIZE, BANK_SIZE);
        Cartridge { header, data, bank0, bankn }
    }

    pub fn read(&self, address: u16) -> (r: u8)
        requires
            self.wf(),
            address < 0x8000,
        ensures
            r == self.read_spec(address),
    {
        if address < 0x4000 {
            self.bank0[address as usize]
        } else {
            self.bankn[(address - 0x4000) as usize]
        }
    }

    /// Writes to the cartridge are ignored: it has no bank controller.
    pub fn write(&mut self, _address: u16, _byte: u8)
        ensures
            *final(self) == *old(self),
    {
    }
}

} // verus!
