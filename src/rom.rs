use vstd::prelude::*;

verus! {

/// A cartridge image as read from disk.
pub struct Rom {
    pub data: Vec<u8>,
}

impl Rom {
    pub fn from_data(data: Vec<u8>) -> (r: Self)
        ensures
            r.data@ == data@,
    {
        Rom { data }
    }

    /// The image size in bytes.
    pub fn size(&self) -> (r: usize)
        ensures
            r == self.data@.len(),
    {
        self.data.len()
    }
}

} // verus!
