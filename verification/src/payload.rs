//! The protocol encoder: from a command to the 20-byte frame that the
//! firmware parses at fixed offsets, and to the hex payload that stands for it.

use vstd::prelude::*;
use crate::color::{RgbColor, Speed};
use crate::command::{Argument, Command, CommandError, CommandResult, MAX_SECTOR, MIN_SPEED};
use crate::hexfmt::{hex_of_byte, hex_of_bytes, lemma_hex_field, to_hex};

verus! {

/// The length of every frame, in bytes.
pub const FRAME_LEN: usize = 20;

/// The sector selector of a frame: 0 addresses all sectors, any other value
/// the sector with the index one below it.
pub open spec fn sector_byte(sector: Option<u8>) -> u8 {
    match sector {
        None => 0,
        Some(index) => (index + 1) as u8,
    }
}

/// A 16-bit value as two bytes, the high one first.
pub open spec fn big_endian(value: u16) -> Seq<u8> {
    seq![(value / 256) as u8, (value % 256) as u8]
}

/// What `check_sector` answers.
pub open spec fn sector_check(sector: Option<u8>) -> CommandResult<u8> {
    match sector {
        Some(index) if index > MAX_SECTOR => Err(
            CommandError::InvalidArgument(Argument::Sector, index as u16),
        ),
        _ => Ok(sector_byte(sector)),
    }
}

/// What `check_speed` answers.
pub open spec fn speed_check(speed: Speed) -> CommandResult<()> {
    if speed.0 < MIN_SPEED {
        Err(CommandError::InvalidArgument(Argument::Speed, speed.0))
    } else {
        Ok(())
    }
}

impl Command {
    /// Why the command is refused; `None` for a command that can be sent.
    pub open spec fn rejection(self) -> Option<CommandError> {
        match self {
            Command::SetSectorColor(_, sector) => match sector_check(sector) {
                Ok(_) => None,
                Err(e) => Some(e),
            },
            Command::Breathe(_, speed) => match speed_check(speed) {
                Ok(_) => None,
                Err(e) => Some(e),
            },
            Command::Cycle(speed) => match speed_check(speed) {
                Ok(_) => None,
                Err(e) => Some(e),
            },
        }
    }

    /// The frame of the command, byte by byte.
    pub open spec fn frame(self) -> Seq<u8> {
        match self {
            Command::SetSectorColor(color, sector) => seq![
                0x11u8, 0xff, 0x0c, 0x3a, sector_byte(sector), 0x01, color.0, color.1,
                color.2, 0x02, 0, 0, 0, 0, 0, 0, 0, 0, 0, 0,
            ],
            Command::Breathe(color, speed) => seq![
                0x11u8, 0xff, 0x0c, 0x3a, 0x00, 0x02, color.0, color.1, color.2,
                (speed.0 / 256) as u8, (speed.0 % 256) as u8, 0x00, 0x64, 0, 0, 0, 0, 0, 0,
                0,
            ],
            Command::Cycle(speed) => seq![
                0x11u8, 0xff, 0x0c, 0x3a, 0x00, 0x03, 0xff, 0xff, 0xff, 0x00, 0x00,
                (speed.0 / 256) as u8, (speed.0 % 256) as u8, 0x64, 0, 0, 0, 0, 0, 0,
            ],
        }
    }

    /// The payload of the command: its frame as hex text.
    pub open spec fn payload(self) -> Seq<char> {
        hex_of_bytes(self.frame())
    }
}

/// Whether `result` is what encoding `cmd` as a frame gives.
pub open spec fn encodes_frame(cmd: Command, result: CommandResult<Vec<u8>>) -> bool {
    match result {
        Ok(frame) => cmd.rejection() is None && frame@ == cmd.frame(),
        Err(e) => cmd.rejection() == Some(e),
    }
}

/// Whether `result` is what encoding `cmd` as a payload gives.
pub open spec fn encodes(cmd: Command, result: CommandResult<String>) -> bool {
    match result {
        Ok(payload) => cmd.rejection() is None && payload@ == cmd.payload(),
        Err(e) => cmd.rejection() == Some(e),
    }
}

/// Accepts a speed of at least `MIN_SPEED`.
pub fn check_speed(speed: Speed) -> (checked: CommandResult<()>)
    ensures
        checked == speed_check(speed),
{
    if speed.0 < MIN_SPEED {
        Err(CommandError::InvalidArgument(Argument::Speed, speed.0))
    } else {
        Ok(())
    }
}

/// Accepts "all sectors" and a sector index up to `MAX_SECTOR`, and gives the
/// sector selector of the frame.
pub fn check_sector(sector: Option<u8>) -> (checked: CommandResult<u8>)
    ensures
        checked == sector_check(sector),
{
    match sector {
        None => Ok(0),
        Some(index) => {
            if index > MAX_SECTOR {
                Err(CommandError::InvalidArgument(Argument::Sector, index as u16))
            } else {
                Ok(index + 1)
            }
        },
    }
}

/// Validates `cmd` and lays out its frame.
pub fn encode_frame(cmd: &Command) -> (result: CommandResult<Vec<u8>>)
    ensures
        encodes_frame(*cmd, result),
{
    match *cmd {
        Command::SetSectorColor(color, sector) => {
            let selector: u8 = match check_sector(sector) {
                Ok(selector) => selector,
                Err(e) => {
                    return Err(e);
                },
            };
            let frame: Vec<u8> = vec![
                0x11, 0xff, 0x0c, 0x3a, selector, 0x01, color.0, color.1, color.2, 0x02, 0,
                0, 0, 0, 0, 0, 0, 0, 0, 0,
            ];
            Ok(frame)
        },
        Command::Breathe(color, speed) => {
            match check_speed(speed) {
                Ok(_) => {},
                Err(e) => {
                    return Err(e);
                },
            }
            let high: u8 = (speed.0 / 256) as u8;
            let low: u8 = (speed.0 % 256) as u8;
            let frame: Vec<u8> = vec![
                0x11, 0xff, 0x0c, 0x3a, 0x00, 0x02, color.0, color.1, color.2, high, low,
                0x00, 0x64, 0, 0, 0, 0, 0, 0, 0,
            ];
            Ok(frame)
        },
        Command::Cycle(speed) => {
            match check_speed(speed) {
                Ok(_) => {},
                Err(e) => {
                    return Err(e);
                },
            }
            let high: u8 = (speed.0 / 256) as u8;
            let low: u8 = (speed.0 % 256) as u8;
            let frame: Vec<u8> = vec![
                0x11, 0xff, 0x0c, 0x3a, 0x00, 0x03, 0xff, 0xff, 0xff, 0x00, 0x00, high,
                low, 0x64, 0, 0, 0, 0, 0, 0,
            ];
            Ok(frame)
        },
    }
}

/// Validates `cmd` and renders its frame as the hex payload.
pub fn encode_command(cmd: &Command) -> (result: CommandResult<String>)
    ensures
        encodes(*cmd, result),
{
    match encode_frame(cmd) {
        Ok(frame) => Ok(to_hex(&frame)),
        Err(e) => Err(e),
    }
}

/// Encoding is a function of the command: two results of encoding one
/// command are both payloads, and then the same text, or both the same
/// rejection.
pub proof fn lemma_encoding_is_deterministic(
    cmd: Command,
    first: CommandResult<String>,
    second: CommandResult<String>,
)
    requires
        encodes(cmd, first),
        encodes(cmd, second),
    ensures
        first is Ok <==> second is Ok,
        first matches Ok(a) ==> second matches Ok(b) && a@ == b@,
        first matches Err(a) ==> second matches Err(b) && a == b,
{
}

/// Every frame has `FRAME_LEN` bytes, and every payload two digits for each.
pub proof fn lemma_frame_len(cmd: Command)
    ensures
        cmd.frame().len() == FRAME_LEN,
        cmd.payload().len() == 2 * FRAME_LEN,
{
}

/// The sector field. Without a sector the command is accepted and byte 4 of
/// its frame is 0; with a sector index up to `MAX_SECTOR` it is accepted and
/// the byte is the index plus one; with any higher index it is refused as an
/// invalid sector. In the payload the byte stands at characters 8 and 9.
pub proof fn lemma_sector_field(color: RgbColor, sector: Option<u8>)
    ensures
        ({
            let cmd = Command::SetSectorColor(color, sector);
            match sector {
                None => cmd.rejection() is None && cmd.frame()[4] == 0,
                Some(index) => if index <= MAX_SECTOR {
                    cmd.rejection() is None && cmd.frame()[4] == index + 1
                } else {
                    cmd.rejection() == Some(
                        CommandError::InvalidArgument(Argument::Sector, index as u16),
                    )
                },
            }
        }),
        Command::SetSectorColor(color, sector).payload().subrange(8, 10) == hex_of_byte(
            sector_byte(sector),
        ),
{
    let cmd = Command::SetSectorColor(color, sector);
    lemma_hex_field(cmd.frame(), 4, 5);
}

/// The speed field. A command with a speed below `MIN_SPEED` is refused as an
/// invalid speed. Any other speed is accepted, and stands in the frame as two
/// bytes, the high one first: at bytes 9 and 10 for `Breathe` and at bytes 11
/// and 12 for `Cycle`, so at characters 18 to 21 and 22 to 25 of the payload.
pub proof fn lemma_speed_field(color: RgbColor, speed: Speed)
    ensures
        speed.0 < MIN_SPEED ==> Command::Breathe(color, speed).rejection() == Some(
            CommandError::InvalidArgument(Argument::Speed, speed.0),
        ) && Command::Cycle(speed).rejection() == Some(
            CommandError::InvalidArgument(Argument::Speed, speed.0),
        ),
        speed.0 >= MIN_SPEED ==> Command::Breathe(color, speed).rejection() is None
            && Command::Cycle(speed).rejection() is None,
        Command::Breathe(color, speed).frame().subrange(9, 11) == big_endian(speed.0),
        Command::Breathe(color, speed).payload().subrange(18, 22) == hex_of_bytes(
            big_endian(speed.0),
        ),
        Command::Cycle(speed).frame().subrange(11, 13) == big_endian(speed.0),
        Command::Cycle(speed).payload().subrange(22, 26) == hex_of_bytes(big_endian(speed.0)),
{
    let breathe = Command::Breathe(color, speed);
    let cycle = Command::Cycle(speed);
    lemma_hex_field(breathe.frame(), 9, 11);
    lemma_hex_field(cycle.frame(), 11, 13);
}

/// The colour field. Both commands that carry a colour have its three
/// channels at bytes 6 to 8 of the frame, so its six hex digits at characters
/// 12 to 17 of the payload.
pub proof fn lemma_color_field(color: RgbColor, sector: Option<u8>, speed: Speed)
    ensures
        Command::SetSectorColor(color, sector).frame().subrange(6, 9) == color.channels(),
        Command::SetSectorColor(color, sector).payload().subrange(12, 18) == hex_of_bytes(
            color.channels(),
        ),
        Command::Breathe(color, speed).frame().subrange(6, 9) == color.channels(),
        Command::Breathe(color, speed).payload().subrange(12, 18) == hex_of_bytes(
            color.channels(),
        ),
{
    let set = Command::SetSectorColor(color, sector);
    let breathe = Command::Breathe(color, speed);
    lemma_hex_field(set.frame(), 6, 9);
    lemma_hex_field(breathe.frame(), 6, 9);
}

} // verus!
