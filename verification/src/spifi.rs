//! SPIFI controller used as an SPI device for SPI NOR flash.
//!
//! SPIFI is not a general-purpose SPI master. It runs the transaction forms
//! normally used by SPI NOR flash: a one-byte command, a command with a
//! 24-bit address, reading data, and writing data. This module recognizes
//! those forms in a list of SPI operations and encodes the `CMD` register.

use vstd::prelude::*;

verus! {

/// `CMD.DATALEN` is a 14-bit field, so its largest value is 16383 bytes.
pub const MAX_DATA_LENGTH: usize = 0x3fff;

/// SPIFI settings.
#[derive(Clone, Copy, Debug, PartialEq, Eq, Structural)]
pub struct Config {
    /// Maximum idle time in memory mode, in SCK periods.
    pub timeout: u16,
    /// Time between commands, in SCK periods minus one.
    pub cs_high: u8,
    /// SCK divider: `F_SCK = F_HCLK / 2^(sck_div + 1)`.
    pub sck_div: u8,
    /// Use SPI mode 3. If false, mode 0 is used.
    pub mode3: bool,
    /// How many times to check whether an operation has finished.
    pub poll_limit: u32,
}

impl Default for Config {
    fn default() -> (r: Self)
        ensures
            r == (Config {
                timeout: u16::MAX,
                cs_high: 0x0f,
                sck_div: 3,
                mode3: false,
                poll_limit: 100_000,
            }),
    {
        Config { timeout: u16::MAX, cs_high: 0x0f, sck_div: 3, mode3: false, poll_limit: 100_000 }
    }
}

impl Config {
    /// Checks the four-bit `CSHIGH` and three-bit `SCK_DIV` fields.
    pub fn validate(&self) -> (r: Result<(), Error>)
        ensures
            self.cs_high > 0x0f || self.sck_div > 0x07 ==> r == Err::<(), Error>(
                Error::InvalidCommand,
            ),
            self.cs_high <= 0x0f && self.sck_div <= 0x07 ==> r is Ok,
    {
        if self.cs_high > 0x0f || self.sck_div > 0x07 {
            return Err(Error::InvalidCommand);
        }
        Ok(())
    }
}

/// Error returned by SPIFI.
#[derive(Clone, Copy, Debug, PartialEq, Eq, Structural)]
pub enum Error {
    /// The operation took too long.
    Timeout,
    /// SPIFI cannot run this kind of SPI transaction.
    UnsupportedTransaction,
    /// The command has a wrong format.
    InvalidCommand,
    /// The transfer is longer than 16383 bytes.
    TransferTooLong,
}

/// The first byte of a command.
pub fn command_opcode(command: &[u8]) -> (r: Result<u8, Error>)
    ensures
        command@.len() == 0 ==> r == Err::<u8, Error>(Error::InvalidCommand),
        command@.len() > 0 ==> r == Ok::<u8, Error>(command@[0]),
{
    if command.len() == 0 {
        return Err(Error::InvalidCommand);
    }
    Ok(command[0])
}

/// The 24-bit address of a four-byte command, most significant byte first.
pub open spec fn spec_address(command: Seq<u8>) -> u32 {
    (command[1] * 0x1_0000 + command[2] * 0x100 + command[3]) as u32
}

/// The address of a command made of an opcode and three address bytes.
pub fn parse_address(command: &[u8]) -> (r: Result<u32, Error>)
    ensures
        command@.len() != 4 ==> r == Err::<u32, Error>(Error::InvalidCommand),
        command@.len() == 4 ==> r == Ok::<u32, Error>(spec_address(command@)),
{
    if command.len() != 4 {
        return Err(Error::InvalidCommand);
    }
    Ok((command[1] as u32) * 0x1_0000 + (command[2] as u32) * 0x100 + command[3] as u32)
}

/// The shape of one SPI operation, as far as SPIFI needs it.
#[derive(Clone, Debug, PartialEq, Eq)]
pub enum Operation {
    /// Read this many bytes.
    Read(usize),
    /// Write these bytes.
    Write(Vec<u8>),
    /// A full-duplex transfer with separate buffers.
    Transfer,
    /// A transfer in place over these bytes.
    TransferInPlace(Vec<u8>),
    /// A delay.
    DelayNs,
}

/// Where the data of a read goes.
#[derive(Clone, Copy, Debug, PartialEq, Eq, Structural)]
pub enum ReadTarget {
    /// Into the in-place buffer, after its opcode byte.
    InPlaceAfterOpcode,
    /// Into the buffer of the second operation.
    SecondOperation,
}

/// The SPIFI command that runs a transaction.
#[derive(Clone, Copy, Debug, PartialEq, Eq, Structural)]
pub enum Command {
    /// An opcode, with an address if the command has one.
    Plain { opcode: u8, address: Option<u32> },
    /// An opcode with an optional address, followed by a data read.
    Read { opcode: u8, address: Option<u32>, len: usize, target: ReadTarget },
    /// An opcode with an address, followed by a data write.
    Write { opcode: u8, address: u32, len: usize },
}

/// The command of a transaction, or why SPIFI cannot run it.
pub open spec fn spec_plan(ops: Seq<Operation>) -> Result<Command, Error> {
    if ops.len() == 1 && ops[0] is Write {
        let c = ops[0]->Write_0@;
        if c.len() == 1 {
            Ok(Command::Plain { opcode: c[0], address: None })
        } else if c.len() == 4 {
            Ok(Command::Plain { opcode: c[0], address: Some(spec_address(c)) })
        } else {
            Err(Error::InvalidCommand)
        }
    } else if ops.len() == 1 && ops[0] is TransferInPlace && ops[0]->TransferInPlace_0@.len() > 0 {
        let b = ops[0]->TransferInPlace_0@;
        Ok(
            Command::Read {
                opcode: b[0],
                address: None,
                len: (b.len() - 1) as usize,
                target: ReadTarget::InPlaceAfterOpcode,
            },
        )
    } else if ops.len() == 2 && ops[0] is Write && (ops[1] is Read || ops[1] is Write) {
        let c = ops[0]->Write_0@;
        if c.len() != 4 {
            Err(Error::InvalidCommand)
        } else if ops[1] is Read {
            Ok(
                Command::Read {
                    opcode: c[0],
                    address: Some(spec_address(c)),
                    len: ops[1]->Read_0,
                    target: ReadTarget::SecondOperation,
                },
            )
        } else {
            Ok(
                Command::Write {
                    opcode: c[0],
                    address: spec_address(c),
                    len: ops[1]->Write_0@.len() as usize,
                },
            )
        }
    } else {
        Err(Error::UnsupportedTransaction)
    }
}

/// Recognizes the SPI NOR transaction forms:
/// - a one-byte write: a command without address;
/// - a four-byte write: a command with a 24-bit address;
/// - a nonempty in-place transfer: the first byte is the opcode and the rest
///   is read;
/// - a four-byte command write followed by a read or a write: an addressed
///   data read or write.
///
/// Any other shape is unsupported.
pub fn plan_transaction(ops: &Vec<Operation>) -> (r: Result<Command, Error>)
    ensures
        r == spec_plan(ops@),
{
    if ops.len() == 1 {
        match &ops[0] {
            Operation::Write(command) => {
                if command.len() == 1 {
                    return Ok(Command::Plain { opcode: command[0], address: None });
                } else if command.len() == 4 {
                    let address = parse_address(command.as_slice())?;
                    return Ok(Command::Plain { opcode: command[0], address: Some(address) });
                } else {
                    return Err(Error::InvalidCommand);
                }
            },
            Operation::TransferInPlace(buffer) => {
                if buffer.len() > 0 {
                    return Ok(
                        Command::Read {
                            opcode: buffer[0],
                            address: None,
                            len: buffer.len() - 1,
                            target: ReadTarget::InPlaceAfterOpcode,
                        },
                    );
                }
                return Err(Error::UnsupportedTransaction);
            },
            _ => {
                return Err(Error::UnsupportedTransaction);
            },
        }
    }
    if ops.len() == 2 {
        match (&ops[0], &ops[1]) {
            (Operation::Write(command), Operation::Read(len)) => {
                let opcode = command_opcode(command.as_slice())?;
                let address = parse_address(command.as_slice())?;
                return Ok(
                    Command::Read {
                        opcode,
                        address: Some(address),
                        len: *len,
                        target: ReadTarget::SecondOperation,
                    },
                );
            },
            (Operation::Write(command), Operation::Write(bytes)) => {
                let opcode = command_opcode(command.as_slice())?;
                let address = parse_address(command.as_slice())?;
                return Ok(Command::Write { opcode, address, len: bytes.len() });
            },
            _ => {
                return Err(Error::UnsupportedTransaction);
            },
        }
    }
    Err(Error::UnsupportedTransaction)
}

/// The `CMD` register value: opcode in bits 24..=31, frame form in bits
/// 21..=23 (1: opcode only, 4: opcode and three address bytes), the data
/// direction in bit 15 (1: output) and the data length in bits 0..=13.
pub open spec fn spec_command_word(opcode: u8, frame: u32, length: usize, output: bool) -> u32 {
    ((opcode as u32) << 24) | (frame << 21) | (if output {
        0x8000u32
    } else {
        0u32
    }) | (length as u32)
}

/// Encodes a command; data longer than the 14-bit length field is refused.
pub fn command_word(opcode: u8, frame: u32, length: usize, output: bool) -> (r: Result<u32, Error>)
    ensures
        length > MAX_DATA_LENGTH ==> r == Err::<u32, Error>(Error::TransferTooLong),
        length <= MAX_DATA_LENGTH ==> r == Ok::<u32, Error>(
            spec_command_word(opcode, frame, length, output),
        ),
{
    if length > MAX_DATA_LENGTH {
        return Err(Error::TransferTooLong);
    }
    let direction: u32 = if output {
        0x8000
    } else {
        0
    };
    Ok(((opcode as u32) << 24) | (frame << 21) | direction | (length as u32))
}

/// The frame form of a command: 1 without address, 4 with one.
pub fn frame_for(address: Option<u32>) -> (r: (u32, u32))
    ensures
        address is None ==> r == (0u32, 1u32),
        address is Some ==> r == (address->Some_0, 4u32),
{
    match address {
        Some(a) => (a, 4),
        None => (0, 1),
    }
}

/// The data length field of an encoded command is the length given.
pub proof fn lemma_command_length_field(opcode: u8, frame: u32, length: usize, output: bool)
    requires
        length <= MAX_DATA_LENGTH,
        frame < 8,
    ensures
        spec_command_word(opcode, frame, length, output) & 0x3fff == length,
        (spec_command_word(opcode, frame, length, output) >> 24) == opcode,
        (spec_command_word(opcode, frame, length, output) & 0x8000 != 0) == output,
{
    let l = length as u32;
    let o = opcode as u32;
    if output {
        assert((((o << 24) | (frame << 21) | 0x8000u32 | l) & 0x3fff == l) && (((o << 24) | (frame
            << 21) | 0x8000u32 | l) >> 24 == o) && (((o << 24) | (frame << 21) | 0x8000u32 | l)
            & 0x8000 != 0)) by (bit_vector)
            requires
                l <= 0x3fff,
                frame < 8,
                o < 256,
        ;
    } else {
        assert((((o << 24) | (frame << 21) | 0u32 | l) & 0x3fff == l) && (((o << 24) | (frame << 21)
            | 0u32 | l) >> 24 == o) && (((o << 24) | (frame << 21) | 0u32 | l) & 0x8000 == 0))
            by (bit_vector)
            requires
                l <= 0x3fff,
                frame < 8,
                o < 256,
        ;
    }
}

} // verus!
