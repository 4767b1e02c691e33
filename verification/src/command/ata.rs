//! ATA PASS-THROUGH (12) and (16): hand an ATA command to a device behind a
//! SCSI to ATA translation layer.

use vstd::prelude::*;
use crate::bitfield::{pack_vec, packed, width_upto, Field};
use crate::command::{check_bounds, chunk, first_failure, Bound, Command};
use crate::data_direction::DataDirection;
use crate::error::Error;
use crate::result_data::ResultData;
use crate::scsi::Scsi;

verus! {

pub const OPERATION_CODE_12: u8 = 0xA1;

pub const OPERATION_CODE_16: u8 = 0x85;

/// The direction of the data between the translation layer and the ATA
/// device.
#[derive(Clone, Copy, Debug, PartialEq, Eq, Structural)]
pub enum SatDirection {
    /// T_DIR = 0.
    ToDevice,
    /// T_DIR = 1.
    FromDevice,
}

impl SatDirection {
    /// The direction of the data phase of the command that carries the ATA
    /// command.
    pub open spec fn to_data_direction_spec(&self) -> DataDirection {
        match self {
            SatDirection::ToDevice => DataDirection::ToDevice,
            SatDirection::FromDevice => DataDirection::FromDevice,
        }
    }

    /// The direction of the data phase of the command that carries the ATA
    /// command.
    #[verifier::when_used_as_spec(to_data_direction_spec)]
    pub fn to_data_direction(&self) -> (r: DataDirection)
        ensures
            r == self.to_data_direction_spec(),
    {
        match self {
            SatDirection::ToDevice => DataDirection::ToDevice,
            SatDirection::FromDevice => DataDirection::FromDevice,
        }
    }

    /// The T_DIR bit.
    pub open spec fn code_spec(&self) -> u8 {
        match self {
            SatDirection::ToDevice => 0,
            SatDirection::FromDevice => 1,
        }
    }

    /// The T_DIR bit.
    #[verifier::when_used_as_spec(code_spec)]
    pub fn code(&self) -> (r: u8)
        ensures
            r == self.code_spec(),
    {
        match self {
            SatDirection::ToDevice => 0,
            SatDirection::FromDevice => 1,
        }
    }
}

/// The protocol that the translation layer is to use with the ATA device.
#[derive(Clone, Copy, Debug, PartialEq, Eq, Structural)]
pub enum AtaProtocol {
    /// Device management: ATA hardware reset.
    HardwareReset,
    /// Device management: ATA software reset.
    SoftwareReset,
    /// Reserved.
    Reserved02,
    /// Non-data.
    NonData,
    /// PIO data-in.
    PioDataIn,
    /// PIO data-out.
    PioDataOut,
    /// DMA.
    Dma,
    /// Reserved.
    Reserved07,
    /// Execute device diagnostic.
    ExecuteDeviceDiagnostic,
    /// Non-data command: device reset.
    DeviceReset,
    /// UDMA data-in.
    UdmaDataIn,
    /// UDMA data-out.
    UdmaDataOut,
    /// NCQ.
    Ncq,
    /// Reserved.
    Reserved0D,
    /// Reserved.
    Reserved0E,
    /// Return response information.
    ReturnResponseInformation,
}

impl AtaProtocol {
    /// The code of the protocol in the descriptor block: four bits.
    pub open spec fn code_spec(&self) -> u8 {
        match self {
            AtaProtocol::HardwareReset => 0x00,
            AtaProtocol::SoftwareReset => 0x01,
            AtaProtocol::Reserved02 => 0x02,
            AtaProtocol::NonData => 0x03,
            AtaProtocol::PioDataIn => 0x04,
            AtaProtocol::PioDataOut => 0x05,
            AtaProtocol::Dma => 0x06,
            AtaProtocol::Reserved07 => 0x07,
            AtaProtocol::ExecuteDeviceDiagnostic => 0x08,
            AtaProtocol::DeviceReset => 0x09,
            AtaProtocol::UdmaDataIn => 0x0A,
            AtaProtocol::UdmaDataOut => 0x0B,
            AtaProtocol::Ncq => 0x0C,
            AtaProtocol::Reserved0D => 0x0D,
            AtaProtocol::Reserved0E => 0x0E,
            AtaProtocol::ReturnResponseInformation => 0x0F,
        }
    }

    /// The code of the protocol in the descriptor block.
    #[verifier::when_used_as_spec(code_spec)]
    pub fn code(&self) -> (r: u8)
        ensures
            r == self.code_spec(),
    {
        match self {
            AtaProtocol::HardwareReset => 0x00,
            AtaProtocol::SoftwareReset => 0x01,
            AtaProtocol::Reserved02 => 0x02,
            AtaProtocol::NonData => 0x03,
            AtaProtocol::PioDataIn => 0x04,
            AtaProtocol::PioDataOut => 0x05,
            AtaProtocol::Dma => 0x06,
            AtaProtocol::Reserved07 => 0x07,
            AtaProtocol::ExecuteDeviceDiagnostic => 0x08,
            AtaProtocol::DeviceReset => 0x09,
            AtaProtocol::UdmaDataIn => 0x0A,
            AtaProtocol::UdmaDataOut => 0x0B,
            AtaProtocol::Ncq => 0x0C,
            AtaProtocol::Reserved0D => 0x0D,
            AtaProtocol::Reserved0E => 0x0E,
            AtaProtocol::ReturnResponseInformation => 0x0F,
        }
    }
}

/// The registers and the data of an ATA command. They are checked when a form
/// of the pass-through is chosen, not when they are set.
#[derive(Debug)]
pub struct AtaPassThroughCommand {
    pub dir: SatDirection,
    pub protocol: AtaProtocol,
    /// Must fit eight bits for the twelve-byte form.
    pub features: u16,
    /// Must fit twenty-four bits.
    pub lba: u64,
    /// The number of bytes to move; where it is not set, the length of the
    /// data.
    pub count: Option<u16>,
    pub device: u8,
    pub command: u8,
    pub control: u8,
    pub data_buffer: Vec<u8>,
}

impl AtaPassThroughCommand {
    /// A pass-through of a PIO data-out command with every register zero and no
    /// data.
    pub fn new() -> (r: Self)
        ensures
            r.dir == SatDirection::ToDevice,
            r.protocol == AtaProtocol::PioDataOut,
            r.features == 0,
            r.lba == 0,
            r.count is None,
            r.device == 0,
            r.command == 0,
            r.control == 0,
            r.data_buffer@ == Seq::<u8>::empty(),
    {
        AtaPassThroughCommand {
            dir: SatDirection::ToDevice,
            protocol: AtaProtocol::PioDataOut,
            features: 0,
            lba: 0,
            count: None,
            device: 0,
            command: 0,
            control: 0,
            data_buffer: Vec::new(),
        }
    }

    /// Sets the direction, the protocol and the ATA command.
    pub fn command(
        &mut self,
        dir: SatDirection,
        protocol: AtaProtocol,
        command: u8,
    ) -> (r: &mut Self)
        ensures
            *r == (AtaPassThroughCommand { dir, protocol, command, ..*old(self) }),
            *final(self) == *final(r),
    {
        self.dir = dir;
        self.protocol = protocol;
        self.command = command;
        self
    }

    /// Sets the device register.
    pub fn device(&mut self, device: u8) -> (r: &mut Self)
        ensures
            *r == (AtaPassThroughCommand { device: device, ..*old(self) }),
            *final(self) == *final(r),
    {
        self.device = device;
        self
    }

    /// Sets the control byte.
    pub fn control(&mut self, control: u8) -> (r: &mut Self)
        ensures
            *r == (AtaPassThroughCommand { control: control, ..*old(self) }),
            *final(self) == *final(r),
    {
        self.control = control;
        self
    }

    /// Sets the features register: below 0x100 for the twelve-byte form.
    pub fn features(&mut self, features: u16) -> (r: &mut Self)
        ensures
            *r == (AtaPassThroughCommand { features: features, ..*old(self) }),
            *final(self) == *final(r),
    {
        self.features = features;
        self
    }

    /// Sets the logical block address: below 0x100_0000.
    pub fn lba(&mut self, lba: u64) -> (r: &mut Self)
        ensures
            *r == (AtaPassThroughCommand { lba: lba, ..*old(self) }),
            *final(self) == *final(r),
    {
        self.lba = lba;
        self
    }

    /// Sets the number of bytes to move: a multiple of 512.
    pub fn count(&mut self, count: u16) -> (r: &mut Self)
        ensures
            *r == (AtaPassThroughCommand { count: Some(count), ..*old(self) }),
            *final(self) == *final(r),
    {
        self.count = Some(count);
        self
    }

    /// Sets the data to send.
    pub fn parameter(&mut self, value: &[u8]) -> (r: &mut Self)
        ensures
            r.data_buffer@ == value@,
            r.dir == old(self).dir,
            r.protocol == old(self).protocol,
            r.features == old(self).features,
            r.lba == old(self).lba,
            r.count == old(self).count,
            r.device == old(self).device,
            r.command == old(self).command,
            r.control == old(self).control,
            *final(self) == *final(r),
    {
        self.data_buffer = crate::command::duplicate(value);
        self
    }

    /// The number of bytes to move: the count that was set or, where none
    /// was, the length of the data.
    pub open spec fn byte_count_spec(&self) -> usize {
        match self.count {
            Some(count) => count as usize,
            None => self.data_buffer.len(),
        }
    }

    /// The number of bytes to move.
    #[verifier::when_used_as_spec(byte_count_spec)]
    pub fn byte_count(&self) -> (r: usize)
        ensures
            r == self.byte_count_spec(),
    {
        match self.count {
            Some(count) => count as usize,
            None => self.data_buffer.len(),
        }
    }

    /// The descriptor block of ATA PASS-THROUGH (12): twelve bytes. The logical
    /// block address travels low byte first.
    pub open spec fn layout_12(&self) -> Seq<Field> {
        seq![
            Field { width: 8, value: OPERATION_CODE_12 as u64 },
            Field { width: 3, value: 0 },
            Field { width: 4, value: self.protocol.code() as u64 },
            Field { width: 1, value: 0 },
            Field { width: 2, value: 0 },
            Field { width: 1, value: 0 },
            Field { width: 1, value: 0 },
            Field { width: 1, value: self.dir.code() as u64 },
            Field { width: 1, value: 1 },
            Field { width: 2, value: 2 },
            Field { width: 8, value: self.features as u64 },
            Field { width: 8, value: (self.byte_count() / 512) as u64 },
            Field { width: 8, value: self.lba },
            Field { width: 8, value: (self.lba / 0x100) as u64 },
            Field { width: 8, value: (self.lba / 0x1_0000) as u64 },
            Field { width: 8, value: self.device as u64 },
            Field { width: 8, value: self.command as u64 },
            Field { width: 8, value: 0 },
            Field { width: 8, value: self.control as u64 },
        ]
    }

    /// The descriptor block of ATA PASS-THROUGH (16): sixteen bytes. Features,
    /// count and logical block address travel as pairs of a high and a low
    /// byte.
    pub open spec fn layout_16(&self) -> Seq<Field> {
        seq![
            Field { width: 8, value: OPERATION_CODE_16 as u64 },
            Field { width: 3, value: 0 },
            Field { width: 4, value: self.protocol.code() as u64 },
            Field { width: 1, value: 0 },
            Field { width: 2, value: 0 },
            Field { width: 1, value: 0 },
            Field { width: 1, value: 0 },
            Field { width: 1, value: self.dir.code() as u64 },
            Field { width: 1, value: 1 },
            Field { width: 2, value: 2 },
            Field { width: 8, value: (self.features / 0x100) as u64 },
            Field { width: 8, value: self.features as u64 },
            Field { width: 8, value: (self.byte_count() / 512 / 0x100) as u64 },
            Field { width: 8, value: (self.byte_count() / 512) as u64 },
            Field { width: 8, value: (self.lba / 0x100_0000) as u64 },
            Field { width: 8, value: self.lba },
            Field { width: 8, value: (self.lba / 0x1_0000_0000) as u64 },
            Field { width: 8, value: (self.lba / 0x100) as u64 },
            Field { width: 8, value: (self.lba / 0x100_0000_0000) as u64 },
            Field { width: 8, value: (self.lba / 0x1_0000) as u64 },
            Field { width: 8, value: self.device as u64 },
            Field { width: 8, value: self.command as u64 },
            Field { width: 8, value: self.control as u64 },
        ]
    }

    /// The bound checks that `issue_12` makes, in their order.
    pub open spec fn issue_12_bounds(&self) -> Seq<Bound> {
        seq![
            Bound { value: self.features as u64, bits: 8, name: "features" },
            Bound { value: self.lba, bits: 24, name: "lba" },
            Bound { value: (self.byte_count() / 512) as u64, bits: 8, name: "count" },
        ]
    }

    /// What `issue_12` finds wrong with the options, if anything: the first
    /// bound that fails.
    pub open spec fn issue_12_check(&self) -> Option<Error> {
        match first_failure(self.issue_12_bounds()) {
            Some(e) => Some(e),
            None => {
                None
            },
        }
    }

    /// Checks the options against the twelve-byte form and packs its descriptor
    /// block. The data is cut or filled up with zeros to the number of bytes to
    /// move, which must be a whole number of blocks of 512 bytes; more blocks
    /// than the count field holds are refused. The descriptor block tells the
    /// translation layer to take the number of blocks from the count field.
    pub fn issue_12(&self) -> (r: Result<ThisCommand, Error>)
        requires
            self.byte_count() % 512 == 0,
        ensures
            match self.issue_12_check() {
                Some(e) => r == Err::<ThisCommand, Error>(e),
                None => r matches Ok(c) && c.command_buffer@ == packed(self.layout_12())
                    && c.dir == self.dir && c.data_buffer@ == chunk(
                    self.data_buffer@,
                    self.byte_count() as nat,
                    0,
                ),
            },
    {
        check_bounds(
            &[
                Bound { value: self.features as u64, bits: 8, name: "features" },
                Bound { value: self.lba, bits: 24, name: "lba" },
                Bound { value: (self.byte_count() / 512) as u64, bits: 8, name: "count" },
            ],
        )?;
        reveal_with_fuel(width_upto, 20);
        let command_buffer = pack_vec::<12>(
            &[
                Field { width: 8, value: OPERATION_CODE_12 as u64 },
                Field { width: 3, value: 0 },
                Field { width: 4, value: self.protocol.code() as u64 },
                Field { width: 1, value: 0 },
                Field { width: 2, value: 0 },
                Field { width: 1, value: 0 },
                Field { width: 1, value: 0 },
                Field { width: 1, value: self.dir.code() as u64 },
                Field { width: 1, value: 1 },
                Field { width: 2, value: 2 },
                Field { width: 8, value: self.features as u64 },
                Field { width: 8, value: (self.byte_count() / 512) as u64 },
                Field { width: 8, value: self.lba },
                Field { width: 8, value: (self.lba / 0x100) as u64 },
                Field { width: 8, value: (self.lba / 0x1_0000) as u64 },
                Field { width: 8, value: self.device as u64 },
                Field { width: 8, value: self.command as u64 },
                Field { width: 8, value: 0 },
                Field { width: 8, value: self.control as u64 },
            ],
        );
        let mut data_buffer = crate::command::duplicate(self.data_buffer.as_slice());
        data_buffer.resize(self.byte_count(), 0);
        assert(data_buffer@ =~= chunk(self.data_buffer@, self.byte_count() as nat, 0)) by {
            assert(data_buffer@.len() == self.byte_count());
            if self.byte_count() > self.data_buffer@.len() {
                assert forall|i: int| 0 <= i < self.data_buffer@.len() implies data_buffer@[i]
                    == self.data_buffer@[i] by {
                    assert(data_buffer@.subrange(0, self.data_buffer@.len() as int)[i]
                        == self.data_buffer@[i]);
                }
            }
        }
        Ok(ThisCommand { command_buffer, dir: self.dir, data_buffer })
    }

    /// The bound checks that `issue_16` makes, in their order.
    pub open spec fn issue_16_bounds(&self) -> Seq<Bound> {
        seq![
            Bound { value: self.features as u64, bits: 16, name: "features" },
            Bound { value: self.lba, bits: 24, name: "lba" },
            Bound { value: (self.byte_count() / 512) as u64, bits: 8, name: "count" },
        ]
    }

    /// What `issue_16` finds wrong with the options, if anything: the first
    /// bound that fails.
    pub open spec fn issue_16_check(&self) -> Option<Error> {
        match first_failure(self.issue_16_bounds()) {
            Some(e) => Some(e),
            None => {
                None
            },
        }
    }

    /// Checks the options against the sixteen-byte form and packs its
    /// descriptor block. The data is cut or filled up with zeros to the number
    /// of bytes to move, which must be a whole number of blocks of 512 bytes;
    /// more than 255 blocks are refused. The descriptor block tells the
    /// translation layer to take the number of blocks from the count field.
    pub fn issue_16(&self) -> (r: Result<ThisCommand, Error>)
        requires
            self.byte_count() % 512 == 0,
        ensures
            match self.issue_16_check() {
                Some(e) => r == Err::<ThisCommand, Error>(e),
                None => r matches Ok(c) && c.command_buffer@ == packed(self.layout_16())
                    && c.dir == self.dir && c.data_buffer@ == chunk(
                    self.data_buffer@,
                    self.byte_count() as nat,
                    0,
                ),
            },
    {
        check_bounds(
            &[
                Bound { value: self.features as u64, bits: 16, name: "features" },
                Bound { value: self.lba, bits: 24, name: "lba" },
                Bound { value: (self.byte_count() / 512) as u64, bits: 8, name: "count" },
            ],
        )?;
        reveal_with_fuel(width_upto, 24);
        let command_buffer = pack_vec::<16>(
            &[
                Field { width: 8, value: OPERATION_CODE_16 as u64 },
                Field { width: 3, value: 0 },
                Field { width: 4, value: self.protocol.code() as u64 },
                Field { width: 1, value: 0 },
                Field { width: 2, value: 0 },
                Field { width: 1, value: 0 },
                Field { width: 1, value: 0 },
                Field { width: 1, value: self.dir.code() as u64 },
                Field { width: 1, value: 1 },
                Field { width: 2, value: 2 },
                Field { width: 8, value: (self.features / 0x100) as u64 },
                Field { width: 8, value: self.features as u64 },
                Field { width: 8, value: (self.byte_count() / 512 / 0x100) as u64 },
                Field { width: 8, value: (self.byte_count() / 512) as u64 },
                Field { width: 8, value: (self.lba / 0x100_0000) as u64 },
                Field { width: 8, value: self.lba },
                Field { width: 8, value: (self.lba / 0x1_0000_0000) as u64 },
                Field { width: 8, value: (self.lba / 0x100) as u64 },
                Field { width: 8, value: (self.lba / 0x100_0000_0000) as u64 },
                Field { width: 8, value: (self.lba / 0x1_0000) as u64 },
                Field { width: 8, value: self.device as u64 },
                Field { width: 8, value: self.command as u64 },
                Field { width: 8, value: self.control as u64 },
            ],
        );
        let mut data_buffer = crate::command::duplicate(self.data_buffer.as_slice());
        data_buffer.resize(self.byte_count(), 0);
        assert(data_buffer@ =~= chunk(self.data_buffer@, self.byte_count() as nat, 0)) by {
            assert(data_buffer@.len() == self.byte_count());
            if self.byte_count() > self.data_buffer@.len() {
                assert forall|i: int| 0 <= i < self.data_buffer@.len() implies data_buffer@[i]
                    == self.data_buffer@[i] by {
                    assert(data_buffer@.subrange(0, self.data_buffer@.len() as int)[i]
                        == self.data_buffer@[i]);
                }
            }
        }
        Ok(ThisCommand { command_buffer, dir: self.dir, data_buffer })
    }
}

impl<H> Scsi<H> {
    /// An ATA pass-through with its options at their defaults.
    pub fn ata_passthru(&self) -> (r: AtaPassThroughCommand)
        ensures
            r.dir == SatDirection::ToDevice,
            r.protocol == AtaProtocol::PioDataOut,
            r.features == 0,
            r.lba == 0,
            r.count is None,
            r.device == 0,
            r.command == 0,
            r.control == 0,
            r.data_buffer@ == Seq::<u8>::empty(),
    {
        AtaPassThroughCommand::new()
    }
}

/// An ATA pass-through that passed its checks: the packed descriptor block, the
/// direction, and the data.
#[derive(Debug)]
pub struct ThisCommand {
    pub command_buffer: Vec<u8>,
    pub dir: SatDirection,
    pub data_buffer: Vec<u8>,
}

impl Command for ThisCommand {
    type ReturnType = Result<Option<Vec<u8>>, Error>;

    open spec fn direction_spec(&self) -> DataDirection {
        self.dir.to_data_direction()
    }

    open spec fn command_spec(&self) -> Seq<u8> {
        self.command_buffer@
    }

    open spec fn data_spec(&self) -> Seq<u8> {
        self.data_buffer@
    }

    open spec fn data_size_spec(&self) -> u32 {
        (self.data_buffer@.len() % 0x1_0000_0000) as u32
    }

    fn direction(&self) -> (r: DataDirection) {
        self.dir.to_data_direction()
    }

    fn command(&self) -> (r: Vec<u8>) {
        crate::command::duplicate(self.command_buffer.as_slice())
    }

    fn data(&self) -> (r: Vec<u8>) {
        crate::command::duplicate(self.data_buffer.as_slice())
    }

    fn data_size(&self) -> (r: u32) {
        (self.data_buffer.len() as u64 % 0x1_0000_0000) as u32
    }

    /// Nothing for a command that sent data, the data that came back for one
    /// that fetched data, unless the transport or the device reported a
    /// failure.
    fn process_result(&self, result: ResultData) -> (r: Result<Option<Vec<u8>>, Error>)
        ensures
            match r {
                Ok(data) => result.passes() && match self.dir {
                    SatDirection::ToDevice => data is None,
                    SatDirection::FromDevice => data == Some(result.data),
                },
                Err(e) => result.checked(Err(e)),
            },
    {
        result.check_errors()?;
        match self.dir {
            SatDirection::ToDevice => Ok(None),
            SatDirection::FromDevice => Ok(Some(result.data)),
        }
    }
}

} // verus!
