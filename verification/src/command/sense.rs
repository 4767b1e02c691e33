//! The diagnostic record a device hands back beside a failed command.
//!
//! What the bytes of a sense record mean is not decided here: the record is
//! kept as the bytes the device wrote, for whoever reads them.

use vstd::prelude::*;

verus! {

/// The size of the buffer that is offered to a device for its sense data.
pub const MAX_SENSE_BUFFER_LENGTH: usize = 252;

/// What a device wrote into the sense buffer.
#[derive(Debug)]
pub enum SenseData {
    /// The device wrote nothing.
    Absent,
    /// The bytes the device wrote.
    Present(Vec<u8>),
}

impl SenseData {
    /// The bytes of the record, if there is one.
    pub open spec fn bytes(&self) -> Option<Seq<u8>> {
        match self {
            SenseData::Absent => None,
            SenseData::Present(bytes) => Some(bytes@),
        }
    }

    /// What `parse` makes of a buffer of which `written` bytes were written:
    /// nothing where none was written, else the bytes written, as far as the
    /// buffer goes.
    pub open spec fn parsed(buffer: Seq<u8>, written: nat) -> Option<Seq<u8>> {
        if written == 0 || buffer.len() == 0 {
            None
        } else if written <= buffer.len() {
            Some(buffer.take(written as int))
        } else {
            Some(buffer)
        }
    }

    /// Reads the sense record out of a buffer of which the device wrote the
    /// first `written` bytes.
    pub fn parse(buffer: &[u8], written: usize) -> (r: SenseData)
        ensures
            r.bytes() == Self::parsed(buffer@, written as nat),
    {
        if written == 0 || buffer.len() == 0 {
            SenseData::Absent
        } else {
            let end = if written <= buffer.len() {
                written
            } else {
                buffer.len()
            };
            let bytes = vstd::slice::slice_to_vec(vstd::slice::slice_subrange(buffer, 0, end));
            assert(buffer@.subrange(0, buffer@.len() as int) =~= buffer@);
            SenseData::Present(bytes)
        }
    }

    /// Whether the device wrote a record.
    pub fn is_present(&self) -> (r: bool)
        ensures
            r == self.bytes().is_some(),
    {
        match self {
            SenseData::Absent => false,
            SenseData::Present(_) => true,
        }
    }

    /// A copy of the record.
    pub fn duplicate(&self) -> (r: SenseData)
        ensures
            r.bytes() == self.bytes(),
    {
        match self {
            SenseData::Absent => SenseData::Absent,
            SenseData::Present(bytes) => {
                let copy = bytes.clone();
                assert(copy@ =~= bytes@);
                SenseData::Present(copy)
            },
        }
    }
}

} // verus!
