//! REASSIGN BLOCKS: have the device move logical blocks to spare sectors.

use vstd::prelude::*;
use crate::bitfield::{pack_vec, packed, width_upto, Field};
use crate::command::{bitfield_bound_check, Bound, Command};
use crate::data_direction::DataDirection;
use crate::data_wrapper::{be_bytes, wire_concat, Wire};
use crate::error::Error;
use crate::result_data::ResultData;
use crate::scsi::Scsi;

verus! {

pub const OPERATION_CODE: u8 = 0x07;

/// The options and the list of addresses of a reassign blocks.
#[derive(Debug)]
pub struct ReassignBlocksCommand {
    /// Whether the list holds addresses of eight bytes. Set by the parameter
    /// builder.
    pub long_lba: bool,
    /// Whether the header of the list is long. Set by the parameter builder.
    pub long_list: bool,
    pub control: u8,
    /// The packed list of addresses. Set by the parameter builder.
    pub data_buffer: Vec<u8>,
}

impl Clone for ReassignBlocksCommand {
    /// A copy with the same options and the same bytes.
    fn clone(&self) -> (r: Self)
        ensures
            r.long_lba == self.long_lba,
            r.long_list == self.long_list,
            r.control == self.control,
            r.data_buffer@ == self.data_buffer@,
    {
        ReassignBlocksCommand {
            long_lba: self.long_lba,
            long_list: self.long_list,
            control: self.control,
            data_buffer: crate::command::duplicate(self.data_buffer.as_slice()),
        }
    }
}

impl ReassignBlocksCommand {
    /// A reassign blocks with no list.
    pub fn new() -> (r: Self)
        ensures
            r.long_lba == false,
            r.long_list == false,
            r.control == 0,
            r.data_buffer@ == Seq::<u8>::empty(),
    {
        ReassignBlocksCommand {
            long_lba: false,
            long_list: false,
            control: 0,
            data_buffer: Vec::new(),
        }
    }

    /// Sets the control byte.
    pub fn control(&mut self, value: u8) -> (r: &mut Self)
        ensures
            *r == (ReassignBlocksCommand { control: value, ..*old(self) }),
            *final(self) == *final(r),
    {
        self.control = value;
        self
    }

    /// Starts the list of addresses for this command. Nothing of the command
    /// changes before the builder is done.
    pub fn parameter<'a>(&'a mut self) -> (r: ParameterBuilder<'a>)
        ensures
            *r.parent == *old(self),
            *final(r.parent) == *final(self),
            r.data_buffer@ == Seq::<u8>::empty(),
            r.data_length == 0,
            r.long_lba_list == false,
    {
        ParameterBuilder {
            parent: self,
            data_buffer: Vec::new(),
            data_length: 0,
            long_lba_list: false,
        }
    }

    /// The descriptor block of REASSIGN BLOCKS: six bytes.
    pub open spec fn layout(&self) -> Seq<Field> {
        seq![
            Field { width: 8, value: OPERATION_CODE as u64 },
            Field { width: 6, value: 0 },
            Field { width: 1, value: self.long_lba as u64 },
            Field { width: 1, value: self.long_list as u64 },
            Field { width: 24, value: 0 },
            Field { width: 8, value: self.control as u64 },
        ]
    }

    /// Packs the descriptor block. The list was checked when its builder was
    /// done.
    pub fn issue(&self) -> (r: Result<ThisCommand, Error>)
        ensures
            r matches Ok(c) && c.command_buffer@ == packed(self.layout())
                && c.data_buffer@ == self.data_buffer@,
    {
        reveal_with_fuel(width_upto, 7);
        let command_buffer = pack_vec::<6>(
            &[
                Field { width: 8, value: OPERATION_CODE as u64 },
                Field { width: 6, value: 0 },
                Field { width: 1, value: self.long_lba as u64 },
                Field { width: 1, value: self.long_list as u64 },
                Field { width: 24, value: 0 },
                Field { width: 8, value: self.control as u64 },
            ],
        );
        Ok(
            ThisCommand {
                command_buffer,
                data_buffer: crate::command::duplicate(self.data_buffer.as_slice()),
            },
        )
    }
}

impl<H> Scsi<H> {
    /// A reassign blocks with its options at their defaults.
    pub fn reassign_blocks(&self) -> (r: ReassignBlocksCommand)
        ensures
            r.long_lba == false,
            r.long_list == false,
            r.control == 0,
            r.data_buffer@ == Seq::<u8>::empty(),
    {
        ReassignBlocksCommand::new()
    }
}

/// A number as far as sixty-four bits hold it.
pub open spec fn saturated(n: nat) -> u64 {
    if n > u64::MAX {
        u64::MAX
    } else {
        n as u64
    }
}

/// The list of addresses of a reassign blocks, while it is put together.
#[derive(Debug)]
pub struct ParameterBuilder<'a> {
    pub parent: &'a mut ReassignBlocksCommand,
    /// The packed list.
    pub data_buffer: Vec<u8>,
    /// The number of bytes that the addresses take.
    pub data_length: u64,
    /// Whether the addresses take eight bytes each.
    pub long_lba_list: bool,
}

impl<'a> ParameterBuilder<'a> {
    /// Takes a list of addresses of four bytes each: the list travels as four
    /// bytes of length and the addresses, big-endian.
    pub fn short_lba_list(&mut self, value: &[u32]) -> (r: &mut Self)
        ensures
            r.long_lba_list == false,
            r.data_length == saturated(value@.len() * 4),
            r.data_buffer@ == be_bytes(r.data_length, 32) + wire_concat(value@),
            r.parent == old(self).parent,
            *final(self) == *final(r),
    {
        self.long_lba_list = false;
        let wide = value.len() as u128 * 4;
        self.data_length = if wide > u64::MAX as u128 {
            u64::MAX
        } else {
            wide as u64
        };
        reveal_with_fuel(width_upto, 2);
        let fields = [Field { width: 32, value: self.data_length }];
        assert(fields@ =~= seq![Field { width: 32, value: self.data_length }]);
        let mut data_buffer = pack_vec::<4>(&fields);
        let ghost header = data_buffer@;
        let mut i: usize = 0;
        assert(value@.take(0) =~= Seq::<u32>::empty());
        while i < value.len()
            invariant
                i <= value@.len(),
                data_buffer@ == header + wire_concat(value@.take(i as int)),
            decreases value@.len() - i,
        {
            let bytes = value[i].to_wire();
            crate::command::append(&mut data_buffer, bytes.as_slice());
            proof {
                assert(value@.take(i + 1).drop_last() =~= value@.take(i as int));
                assert(data_buffer@ =~= header + wire_concat(value@.take(i + 1)));
            }
            i = i + 1;
        }
        assert(value@.take(i as int) =~= value@);
        self.data_buffer = data_buffer;
        self
    }

    /// Takes a list of addresses of eight bytes each: the list travels as four
    /// bytes of length and the addresses, big-endian.
    pub fn long_lba_list(&mut self, value: &[u64]) -> (r: &mut Self)
        ensures
            r.long_lba_list == true,
            r.data_length == saturated(value@.len() * 8),
            r.data_buffer@ == be_bytes(r.data_length, 32) + wire_concat(value@),
            r.parent == old(self).parent,
            *final(self) == *final(r),
    {
        self.long_lba_list = true;
        let wide = value.len() as u128 * 8;
        self.data_length = if wide > u64::MAX as u128 {
            u64::MAX
        } else {
            wide as u64
        };
        reveal_with_fuel(width_upto, 2);
        let fields = [Field { width: 32, value: self.data_length }];
        assert(fields@ =~= seq![Field { width: 32, value: self.data_length }]);
        let mut data_buffer = pack_vec::<4>(&fields);
        let ghost header = data_buffer@;
        let mut i: usize = 0;
        assert(value@.take(0) =~= Seq::<u64>::empty());
        while i < value.len()
            invariant
                i <= value@.len(),
                data_buffer@ == header + wire_concat(value@.take(i as int)),
            decreases value@.len() - i,
        {
            let bytes = value[i].to_wire();
            crate::command::append(&mut data_buffer, bytes.as_slice());
            proof {
                assert(value@.take(i + 1).drop_last() =~= value@.take(i as int));
                assert(data_buffer@ =~= header + wire_concat(value@.take(i + 1)));
            }
            i = i + 1;
        }
        assert(value@.take(i as int) =~= value@);
        self.data_buffer = data_buffer;
        self
    }

    /// The check on the length of the list: a list of long addresses may
    /// declare its length in thirty-two bits, a list of short addresses in
    /// sixteen.
    pub open spec fn length_bound(&self) -> Bound {
        Bound {
            value: self.data_length,
            bits: if self.long_lba_list { 32 } else { 16 },
            name: "parameter length",
        }
    }

    /// Checks the length of the list and hands the list to the command,
    /// which then has the form of list and header that the addresses ask
    /// for. Where the check fails, the command stays as it was.
    pub fn done(self) -> (r: Result<&'a mut ReassignBlocksCommand, Error>)
        ensures
            if !self.length_bound().holds() {
                r matches Err(err) && err == self.length_bound().error() && *final(self.parent)
                    == *old(self.parent)
            } else {
                r matches Ok(command) && *command == (ReassignBlocksCommand {
                    long_lba: self.long_lba_list,
                    long_list: self.long_lba_list,
                    data_buffer: self.data_buffer,
                    ..*old(self.parent)
                }) && *final(command) == *final(self.parent)
            },
    {
        let data_length_bits: u32 = if self.long_lba_list {
            32
        } else {
            16
        };
        bitfield_bound_check(self.data_length, data_length_bits, "parameter length")?;
        self.parent.long_lba = self.long_lba_list;
        self.parent.long_list = self.long_lba_list;
        self.parent.data_buffer = self.data_buffer;
        Ok(self.parent)
    }
}

/// A reassign blocks: the packed descriptor block and the packed list of
/// addresses.
#[derive(Debug)]
pub struct ThisCommand {
    pub command_buffer: Vec<u8>,
    pub data_buffer: Vec<u8>,
}

impl Command for ThisCommand {
    type ReturnType = Result<(), Error>;

    open spec fn direction_spec(&self) -> DataDirection {
        DataDirection::ToDevice
    }

    open spec fn command_spec(&self) -> Seq<u8> {
        self.command_buffer@
    }

    open spec fn data_spec(&self) -> Seq<u8> {
        self.data_buffer@
    }

    open spec fn data_size_spec(&self) -> u32 {
        (self.data_buffer@.len() % 0x1_0000_0000) as u32
    }

    fn direction(&self) -> (r: DataDirection) {
        DataDirection::ToDevice
    }

    fn command(&self) -> (r: Vec<u8>) {
        let r = self.command_buffer.clone();
        assert(r@ =~= self.command_buffer@);
        r
    }

    fn data(&self) -> (r: Vec<u8>) {
        let r = self.data_buffer.clone();
        assert(r@ =~= self.data_buffer@);
        r
    }

    fn data_size(&self) -> (r: u32) {
        (self.data_buffer.len() as u64 % 0x1_0000_0000) as u32
    }

    /// Nothing, unless the transport or the device reported a failure.
    fn process_result(&self, result: ResultData) -> (r: Result<(), Error>)
        ensures
            match r {
                Ok(()) => result.passes(),
                Err(e) => result.checked(Err(e)),
            },
    {
        result.check_errors()
    }
}

} // verus!
