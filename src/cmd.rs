use vstd::prelude::*;

use crate::error::Error;

verus! {

/// Offset of the channel byte in a frame.
pub const CH_INDEX: usize = 4;

/// Offset of the opcode byte in a frame.
pub const CMD_INDEX: usize = 5;

/// Offset of the checksum byte in a frame.
pub const CRC_INDEX: usize = 15;

/// Length of every frame, request or response.
pub const MESSAGE_LENGTH: usize = 17;

/// Start marker of a request frame.
pub const REQUEST_ST: u8 = 171;

/// Stop marker of a request frame.
pub const REQUEST_SP: u8 = 172;

/// Start marker of a response frame.
pub const RESPONSE_ST: u8 = 173;

/// Stop marker of a response frame.
pub const RESPONSE_SP: u8 = 174;

/// Operating mode of the base unit.
#[derive(Debug, Clone, Copy, PartialEq, Eq, Structural)]
pub enum Mode {
    TX,
    RX,
    TxF,
    RxF,
    Service,
    FirmwareUpdate,
}

impl Mode {
    /// The byte that stands for this mode on the wire.
    pub open spec fn code(self) -> u8 {
        match self {
            Mode::TX => 0,
            Mode::RX => 1,
            Mode::TxF => 2,
            Mode::RxF => 3,
            Mode::Service => 4,
            Mode::FirmwareUpdate => 5,
        }
    }

    pub fn as_u8(&self) -> (r: u8)
        ensures
            r == self.code(),
    {
        match self {
            Mode::TX => 0,
            Mode::RX => 1,
            Mode::TxF => 2,
            Mode::RxF => 3,
            Mode::Service => 4,
            Mode::FirmwareUpdate => 5,
        }
    }
}

/// The mode a byte stands for; bytes above 5 are rejected.
pub open spec fn mode_from_byte(b: u8) -> Result<Mode, Error> {
    match b {
        0u8 => Ok(Mode::TX),
        1u8 => Ok(Mode::RX),
        2u8 => Ok(Mode::TxF),
        3u8 => Ok(Mode::RxF),
        4u8 => Ok(Mode::Service),
        5u8 => Ok(Mode::FirmwareUpdate),
        _ => Err(Error::InvalidMode(b)),
    }
}

impl TryFrom<u8> for Mode {
    type Error = Error;

    fn try_from(value: u8) -> (r: Result<Mode, Error>) {
        match value {
            0u8 => Ok(Mode::TX),
            1u8 => Ok(Mode::RX),
            2u8 => Ok(Mode::TxF),
            3u8 => Ok(Mode::RxF),
            4u8 => Ok(Mode::Service),
            5u8 => Ok(Mode::FirmwareUpdate),
            _ => Err(Error::InvalidMode(value)),
        }
    }
}

impl vstd::std_specs::convert::TryFromSpecImpl<u8> for Mode {
    open spec fn obeys_try_from_spec() -> bool {
        true
    }

    open spec fn try_from_spec(v: u8) -> Result<Mode, Error> {
        mode_from_byte(v)
    }
}

impl Default for Mode {
    fn default() -> (r: Mode)
        ensures
            r == Mode::TX,
    {
        Mode::TX
    }
}

/// What a request asks the base unit to do with its command.
#[derive(Debug, Clone, Copy, PartialEq, Eq, Structural)]
pub enum CtrRequest {
    SendCommand,
    SendBroadcastCommand,
    ReadResponse,
    BindModeOn,
    BindModeOff,
    ClearChannel,
    ClearMemory,
    UnbindAddressFromChannel,
    SendCommandToIdInChannel,
    SendCommandToId,
}

impl CtrRequest {
    /// The byte that stands for this control kind on the wire.
    pub open spec fn code(self) -> u8 {
        match self {
            CtrRequest::SendCommand => 0,
            CtrRequest::SendBroadcastCommand => 1,
            CtrRequest::ReadResponse => 2,
            CtrRequest::BindModeOn => 3,
            CtrRequest::BindModeOff => 4,
            CtrRequest::ClearChannel => 5,
            CtrRequest::ClearMemory => 6,
            CtrRequest::UnbindAddressFromChannel => 7,
            CtrRequest::SendCommandToIdInChannel => 8,
            CtrRequest::SendCommandToId => 9,
        }
    }

    pub fn as_u8(&self) -> (r: u8)
        ensures
            r == self.code(),
    {
        match self {
            CtrRequest::SendCommand => 0,
            CtrRequest::SendBroadcastCommand => 1,
            CtrRequest::ReadResponse => 2,
            CtrRequest::BindModeOn => 3,
            CtrRequest::BindModeOff => 4,
            CtrRequest::ClearChannel => 5,
            CtrRequest::ClearMemory => 6,
            CtrRequest::UnbindAddressFromChannel => 7,
            CtrRequest::SendCommandToIdInChannel => 8,
            CtrRequest::SendCommandToId => 9,
        }
    }
}

impl Default for CtrRequest {
    fn default() -> (r: CtrRequest)
        ensures
            r == CtrRequest::SendCommand,
    {
        CtrRequest::SendCommand
    }
}

/// The outcome that a response reports.
#[derive(Debug, Clone, Copy, PartialEq, Eq, Structural)]
pub enum CtrResponse {
    Success,
    NoResponse,
    Error,
    BindSuccess,
}

impl CtrResponse {
    /// The byte that stands for this outcome on the wire.
    pub open spec fn code(self) -> u8 {
        match self {
            CtrResponse::Success => 0,
            CtrResponse::NoResponse => 1,
            CtrResponse::Error => 2,
            CtrResponse::BindSuccess => 3,
        }
    }
}

/// The outcome a byte stands for; bytes above 3 are rejected.
pub open spec fn ctr_response_from_byte(b: u8) -> Result<CtrResponse, Error> {
    match b {
        0u8 => Ok(CtrResponse::Success),
        1u8 => Ok(CtrResponse::NoResponse),
        2u8 => Ok(CtrResponse::Error),
        3u8 => Ok(CtrResponse::BindSuccess),
        _ => Err(Error::InvalidControl(b)),
    }
}

impl TryFrom<u8> for CtrResponse {
    type Error = Error;

    fn try_from(value: u8) -> (r: Result<CtrResponse, Error>) {
        match value {
            0u8 => Ok(CtrResponse::Success),
            1u8 => Ok(CtrResponse::NoResponse),
            2u8 => Ok(CtrResponse::Error),
            3u8 => Ok(CtrResponse::BindSuccess),
            _ => Err(Error::InvalidControl(value)),
        }
    }
}

impl vstd::std_specs::convert::TryFromSpecImpl<u8> for CtrResponse {
    open spec fn obeys_try_from_spec() -> bool {
        true
    }

    open spec fn try_from_spec(v: u8) -> Result<CtrResponse, Error> {
        ctr_response_from_byte(v)
    }
}

/// Payload of Set-Brightness: a one-byte level or a three-byte extended level.
#[derive(Debug, Clone, Copy, PartialEq, Eq)]
pub enum SetBrightness {
    Fmt1(u8),
    Fmt3([u8; 3]),
}

/// Decodes a Set-Brightness payload from its format byte `b[0]` and the data after it.
pub open spec fn brightness_from_bytes(b: Seq<u8>) -> Result<SetBrightness, Error>
    recommends
        b.len() >= 4,
{
    if b[0] == 1 {
        Ok(SetBrightness::Fmt1(b[1]))
    } else if b[0] == 3 {
        Ok(SetBrightness::Fmt3([b[1], b[2], b[3]]))
    } else {
        Err(Error::InvalidBrightnessFormat(b[0]))
    }
}

impl SetBrightness {
    pub fn from_bytes(value: &[u8]) -> (r: Result<SetBrightness, Error>)
        requires
            value@.len() >= 4,
        ensures
            r == brightness_from_bytes(value@),
    {
        if value[0] == 1 {
            Ok(SetBrightness::Fmt1(value[1]))
        } else if value[0] == 3 {
            Ok(SetBrightness::Fmt3([value[1], value[2], value[3]]))
        } else {
            Err(Error::InvalidBrightnessFormat(value[0]))
        }
    }

    /// The level as the device reads it: the data bytes taken little-endian.
    pub open spec fn level_spec(self) -> u32 {
        match self {
            SetBrightness::Fmt1(v) => v as u32,
            SetBrightness::Fmt3(a) => (a[0] as int + 256 * a[1] as int + 65536 * a[2] as int) as u32,
        }
    }

    pub fn level(&self) -> (r: u32)
        ensures
            r == self.level_spec(),
            r < 16777216,
    {
        match self {
            SetBrightness::Fmt1(v) => *v as u32,
            SetBrightness::Fmt3(a) => a[0] as u32 + 256 * (a[1] as u32) + 65536 * (a[2] as u32),
        }
    }
}

/// Payload of Temporary-On: a one-byte duration or a two-byte extended duration.
#[derive(Debug, Clone, Copy, PartialEq, Eq)]
pub enum TemporaryOn {
    Fmt1(u8),
    Fmt2([u8; 2]),
}

/// Decodes a Temporary-On payload from its format byte `b[0]` and the data after it.
/// The two-byte form is announced by format byte 3 on the wire, as the device does it.
pub open spec fn temporary_on_from_bytes(b: Seq<u8>) -> Result<TemporaryOn, Error>
    recommends
        b.len() >= 3,
{
    if b[0] == 1 {
        Ok(TemporaryOn::Fmt1(b[1]))
    } else if b[0] == 3 {
        Ok(TemporaryOn::Fmt2([b[1], b[2]]))
    } else {
        Err(Error::InvalidTemporaryOnFormat(b[0]))
    }
}

impl TemporaryOn {
    pub fn from_bytes(value: &[u8]) -> (r: Result<TemporaryOn, Error>)
        requires
            value@.len() >= 3,
        ensures
            r == temporary_on_from_bytes(value@),
    {
        if value[0] == 1 {
            Ok(TemporaryOn::Fmt1(value[1]))
        } else if value[0] == 3 {
            Ok(TemporaryOn::Fmt2([value[1], value[2]]))
        } else {
            Err(Error::InvalidTemporaryOnFormat(value[0]))
        }
    }

    /// The duration as the device reads it: the data bytes taken little-endian.
    pub open spec fn duration_spec(self) -> u32 {
        match self {
            TemporaryOn::Fmt1(v) => v as u32,
            TemporaryOn::Fmt2(a) => (a[0] as int + 256 * a[1] as int) as u32,
        }
    }

    pub fn duration(&self) -> (r: u32)
        ensures
            r == self.duration_spec(),
            r < 65536,
    {
        match self {
            TemporaryOn::Fmt1(v) => *v as u32,
            TemporaryOn::Fmt2(a) => a[0] as u32 + 256 * (a[1] as u32),
        }
    }
}

/// A command for a receiver, with its payload where the command has one.
#[derive(Debug, Clone, Copy, PartialEq, Eq)]
pub enum Cmd {
    Off,
    BrightDown,
    On,
    BrightUp,
    Switch,
    BrightBack,
    SetBrightness(SetBrightness),
    LoadPreset,
    SavePreset,
    Unbind,
    StopBright,
    BrightStepDown,
    BrightStepUp,
    BrightReg(u8),
    Bind,
    RollColor,
    SwitchColor,
    SwitchMode,
    SpeedMode,
    BatteryLow,
    SensTempHumi,
    TemporaryOn(TemporaryOn),
    Modes,
    ReadState,
    WriteState,
    SendState,
    Service(bool),
    ClearMemory,
}

impl Cmd {
    /// The opcode of this command's kind; the payload plays no part.
    pub open spec fn opcode(self) -> u8 {
        match self {
            Cmd::Off => 0,
            Cmd::BrightDown => 1,
            Cmd::On => 2,
            Cmd::BrightUp => 3,
            Cmd::Switch => 4,
            Cmd::BrightBack => 5,
            Cmd::SetBrightness(_) => 6,
            Cmd::LoadPreset => 7,
            Cmd::SavePreset => 8,
            Cmd::Unbind => 9,
            Cmd::StopBright => 10,
            Cmd::BrightStepDown => 11,
            Cmd::BrightStepUp => 12,
            Cmd::BrightReg(_) => 13,
            Cmd::Bind => 15,
            Cmd::RollColor => 16,
            Cmd::SwitchColor => 17,
            Cmd::SwitchMode => 18,
            Cmd::SpeedMode => 19,
            Cmd::BatteryLow => 20,
            Cmd::SensTempHumi => 21,
            Cmd::TemporaryOn(_) => 25,
            Cmd::Modes => 26,
            Cmd::ReadState => 128,
            Cmd::WriteState => 129,
            Cmd::SendState => 130,
            Cmd::Service(_) => 131,
            Cmd::ClearMemory => 132,
        }
    }

    /// The command's kind: the command with any payload replaced by a fixed one.
    pub open spec fn kind(self) -> Cmd {
        match self {
            Cmd::SetBrightness(_) => Cmd::SetBrightness(SetBrightness::Fmt1(0)),
            Cmd::BrightReg(_) => Cmd::BrightReg(0),
            Cmd::TemporaryOn(_) => Cmd::TemporaryOn(TemporaryOn::Fmt1(0)),
            Cmd::Service(_) => Cmd::Service(false),
            _ => self,
        }
    }

    /// Bytes 6..=10 of a frame that carries this command: the format byte and
    /// four data bytes.
    pub open spec fn payload(self) -> Seq<u8> {
        match self {
            Cmd::SetBrightness(SetBrightness::Fmt1(d)) => seq![1u8, d, 0u8, 0u8, 0u8],
            Cmd::SetBrightness(SetBrightness::Fmt3(a)) => seq![3u8, a[0], a[1], a[2], 0u8],
            Cmd::BrightReg(r) => seq![1u8, r, 0u8, 0u8, 0u8],
            Cmd::TemporaryOn(TemporaryOn::Fmt1(d)) => seq![1u8, d, 0u8, 0u8, 0u8],
            Cmd::TemporaryOn(TemporaryOn::Fmt2(a)) => seq![2u8, a[0], a[1], 0u8, 0u8],
            Cmd::Service(on) => seq![0u8, if on { 1u8 } else { 0u8 }, 0u8, 0u8, 0u8],
            Cmd::ClearMemory => seq![4u8, 170u8, 85u8, 170u8, 85u8],
            _ => seq![0u8, 0u8, 0u8, 0u8, 0u8],
        }
    }

    pub fn as_u8(&self) -> (r: u8)
        ensures
            r == self.opcode(),
    {
        match self {
            Cmd::Off => 0,
            Cmd::BrightDown => 1,
            Cmd::On => 2,
            Cmd::BrightUp => 3,
            Cmd::Switch => 4,
            Cmd::BrightBack => 5,
            Cmd::SetBrightness(_) => 6,
            Cmd::LoadPreset => 7,
            Cmd::SavePreset => 8,
            Cmd::Unbind => 9,
            Cmd::StopBright => 10,
            Cmd::BrightStepDown => 11,
            Cmd::BrightStepUp => 12,
            Cmd::BrightReg(_) => 13,
            Cmd::Bind => 15,
            Cmd::RollColor => 16,
            Cmd::SwitchColor => 17,
            Cmd::SwitchMode => 18,
            Cmd::SpeedMode => 19,
            Cmd::BatteryLow => 20,
            Cmd::SensTempHumi => 21,
            Cmd::TemporaryOn(_) => 25,
            Cmd::Modes => 26,
            Cmd::ReadState => 128,
            Cmd::WriteState => 129,
            Cmd::SendState => 130,
            Cmd::Service(_) => 131,
            Cmd::ClearMemory => 132,
        }
    }
}

/// Decodes a command from frame bytes 5 onwards: `b[0]` is the opcode, `b[1]` the
/// format byte, and the data bytes follow.
pub open spec fn cmd_from_bytes(b: Seq<u8>) -> Result<Cmd, Error>
    recommends
        b.len() >= 5,
{
    match b[0] {
        0u8 => Ok(Cmd::Off),
        1u8 => Ok(Cmd::BrightDown),
        2u8 => Ok(Cmd::On),
        3u8 => Ok(Cmd::BrightUp),
        4u8 => Ok(Cmd::Switch),
        5u8 => Ok(Cmd::BrightBack),
        6u8 => match brightness_from_bytes(b.drop_first()) {
            Ok(br) => Ok(Cmd::SetBrightness(br)),
            Err(e) => Err(e),
        },
        7u8 => Ok(Cmd::LoadPreset),
        8u8 => Ok(Cmd::SavePreset),
        9u8 => Ok(Cmd::Unbind),
        10u8 => Ok(Cmd::StopBright),
        11u8 => Ok(Cmd::BrightStepDown),
        12u8 => Ok(Cmd::BrightStepUp),
        13u8 => Ok(Cmd::BrightReg(b[2])),
        15u8 => Ok(Cmd::Bind),
        16u8 => Ok(Cmd::RollColor),
        17u8 => Ok(Cmd::SwitchColor),
        18u8 => Ok(Cmd::SwitchMode),
        19u8 => Ok(Cmd::SpeedMode),
        20u8 => Ok(Cmd::BatteryLow),
        21u8 => Ok(Cmd::SensTempHumi),
        25u8 => match temporary_on_from_bytes(b.drop_first()) {
            Ok(t) => Ok(Cmd::TemporaryOn(t)),
            Err(e) => Err(e),
        },
        26u8 => Ok(Cmd::Modes),
        128u8 => Ok(Cmd::ReadState),
        129u8 => Ok(Cmd::WriteState),
        130u8 => Ok(Cmd::SendState),
        131u8 => Ok(Cmd::Service(b[2] == 1)),
        132u8 => Ok(Cmd::ClearMemory),
        _ => Err(Error::UnknownCommand(b[0])),
    }
}

impl Cmd {
    pub fn from_bytes(value: &[u8]) -> (r: Result<Cmd, Error>)
        requires
            value@.len() >= 5,
        ensures
            r == cmd_from_bytes(value@),
    {
        let len = value.len();
        match value[0] {
            0u8 => Ok(Cmd::Off),
            1u8 => Ok(Cmd::BrightDown),
            2u8 => Ok(Cmd::On),
            3u8 => Ok(Cmd::BrightUp),
            4u8 => Ok(Cmd::Switch),
            5u8 => Ok(Cmd::BrightBack),
            6u8 => {
                let rest = &value[1..len];
                assert(rest@ == value@.drop_first());
                match SetBrightness::from_bytes(rest) {
                    Ok(br) => Ok(Cmd::SetBrightness(br)),
                    Err(e) => Err(e),
                }
            },
            7u8 => Ok(Cmd::LoadPreset),
            8u8 => Ok(Cmd::SavePreset),
            9u8 => Ok(Cmd::Unbind),
            10u8 => Ok(Cmd::StopBright),
            11u8 => Ok(Cmd::BrightStepDown),
            12u8 => Ok(Cmd::BrightStepUp),
            13u8 => Ok(Cmd::BrightReg(value[2])),
            15u8 => Ok(Cmd::Bind),
            16u8 => Ok(Cmd::RollColor),
            17u8 => Ok(Cmd::SwitchColor),
            18u8 => Ok(Cmd::SwitchMode),
            19u8 => Ok(Cmd::SpeedMode),
            20u8 => Ok(Cmd::BatteryLow),
            21u8 => Ok(Cmd::SensTempHumi),
            25u8 => {
                let rest = &value[1..len];
                assert(rest@ == value@.drop_first());
                match TemporaryOn::from_bytes(rest) {
                    Ok(t) => Ok(Cmd::TemporaryOn(t)),
                    Err(e) => Err(e),
                }
            },
            26u8 => Ok(Cmd::Modes),
            128u8 => Ok(Cmd::ReadState),
            129u8 => Ok(Cmd::WriteState),
            130u8 => Ok(Cmd::SendState),
            131u8 => Ok(Cmd::Service(value[2] == 1)),
            132u8 => Ok(Cmd::ClearMemory),
            _ => Err(Error::UnknownCommand(value[0])),
        }
    }
}

impl Default for Cmd {
    fn default() -> (r: Cmd)
        ensures
            r == Cmd::Off,
    {
        Cmd::Off
    }
}

/// Two commands share an opcode exactly when they are of the same kind, whatever
/// their payloads.
pub proof fn lemma_opcode_identifies_kind(a: Cmd, b: Cmd)
    ensures
        (a.opcode() == b.opcode()) <==> (a.kind() == b.kind()),
{
}

/// A command decoded from bytes is of the kind that the opcode it was decoded
/// from names.
pub proof fn lemma_decode_same_kind(c: Cmd, b: Seq<u8>)
    requires
        b.len() >= 5,
        b[0] == c.opcode(),
        cmd_from_bytes(b) is Ok,
    ensures
        cmd_from_bytes(b)->Ok_0.opcode() == c.opcode(),
        cmd_from_bytes(b)->Ok_0.kind() == c.kind(),
{
    lemma_opcode_identifies_kind(cmd_from_bytes(b)->Ok_0, c);
}

} // verus!
