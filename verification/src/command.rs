//! The chip's commands and the payloads of the requests that this driver makes.

use vstd::prelude::*;

verus! {

/// The commands that the chip understands.
#[derive(Clone, Copy, Debug, PartialEq, Eq, Structural)]
pub enum Command {
    Diagnose,
    GetFirmwareVersion,
    GetGeneralStatus,
    ReadRegister,
    WriteRegister,
    ReadGPIO,
    WriteGPIO,
    SetSerialBaudRate,
    SetParameters,
    SAMConfiguration,
    PowerDown,
    RFConfiguration,
    RFRegulationTest,
    InJumpForDEP,
    InJumpForPSL,
    InListPassiveTarget,
    InATR,
    InPSL,
    InDataExchange,
    InCommunicateThru,
    InDeselect,
    InRelease,
    InSelect,
    InAutoPoll,
    TgInitAsTarget,
    TgSetGeneralBytes,
    TgGetData,
    TgSetData,
    TgSetMetaData,
    TgGetInitiatorCommand,
    TgResponseToInitiator,
    TgGetTargetStatus,
}

impl Command {
    /// The byte that stands for this command on the wire.
    pub open spec fn spec_opcode(self) -> u8 {
        match self {
            Command::Diagnose => 0x00,
            Command::GetFirmwareVersion => 0x02,
            Command::GetGeneralStatus => 0x04,
            Command::ReadRegister => 0x06,
            Command::WriteRegister => 0x08,
            Command::ReadGPIO => 0x0C,
            Command::WriteGPIO => 0x0E,
            Command::SetSerialBaudRate => 0x10,
            Command::SetParameters => 0x12,
            Command::SAMConfiguration => 0x14,
            Command::PowerDown => 0x16,
            Command::RFConfiguration => 0x32,
            Command::RFRegulationTest => 0x58,
            Command::InJumpForDEP => 0x56,
            Command::InJumpForPSL => 0x46,
            Command::InListPassiveTarget => 0x4A,
            Command::InATR => 0x50,
            Command::InPSL => 0x4E,
            Command::InDataExchange => 0x40,
            Command::InCommunicateThru => 0x42,
            Command::InDeselect => 0x44,
            Command::InRelease => 0x52,
            Command::InSelect => 0x54,
            Command::InAutoPoll => 0x60,
            Command::TgInitAsTarget => 0x8C,
            Command::TgSetGeneralBytes => 0x92,
            Command::TgGetData => 0x86,
            Command::TgSetData => 0x8E,
            Command::TgSetMetaData => 0x94,
            Command::TgGetInitiatorCommand => 0x88,
            Command::TgResponseToInitiator => 0x90,
            Command::TgGetTargetStatus => 0x8A,
        }
    }

    /// The byte that stands for this command on the wire.
    pub fn opcode(self) -> (b: u8)
        ensures
            b == self.spec_opcode(),
    {
        match self {
            Command::Diagnose => 0x00,
            Command::GetFirmwareVersion => 0x02,
            Command::GetGeneralStatus => 0x04,
            Command::ReadRegister => 0x06,
            Command::WriteRegister => 0x08,
            Command::ReadGPIO => 0x0C,
            Command::WriteGPIO => 0x0E,
            Command::SetSerialBaudRate => 0x10,
            Command::SetParameters => 0x12,
            Command::SAMConfiguration => 0x14,
            Command::PowerDown => 0x16,
            Command::RFConfiguration => 0x32,
            Command::RFRegulationTest => 0x58,
            Command::InJumpForDEP => 0x56,
            Command::InJumpForPSL => 0x46,
            Command::InListPassiveTarget => 0x4A,
            Command::InATR => 0x50,
            Command::InPSL => 0x4E,
            Command::InDataExchange => 0x40,
            Command::InCommunicateThru => 0x42,
            Command::InDeselect => 0x44,
            Command::InRelease => 0x52,
            Command::InSelect => 0x54,
            Command::InAutoPoll => 0x60,
            Command::TgInitAsTarget => 0x8C,
            Command::TgSetGeneralBytes => 0x92,
            Command::TgGetData => 0x86,
            Command::TgSetData => 0x8E,
            Command::TgSetMetaData => 0x94,
            Command::TgGetInitiatorCommand => 0x88,
            Command::TgResponseToInitiator => 0x90,
            Command::TgGetTargetStatus => 0x8A,
        }
    }
}

/// No two commands share an opcode.
pub proof fn lemma_opcodes_differ(a: Command, b: Command)
    ensures
        a.spec_opcode() == b.spec_opcode() ==> a == b,
{
}

/// The kinds of card that a listing can ask for.
#[derive(Clone, Copy, Debug, PartialEq, Eq, Structural)]
pub enum CardType {
    IsoTypeA,
    FeliCa212,
    FeliCa424,
    IsoTypeB,
    Jewel,
}

impl CardType {
    /// The byte that selects this kind of card in a listing request.
    pub open spec fn spec_code(self) -> u8 {
        match self {
            CardType::IsoTypeA => 0x00,
            CardType::FeliCa212 => 0x01,
            CardType::FeliCa424 => 0x02,
            CardType::IsoTypeB => 0x03,
            CardType::Jewel => 0x04,
        }
    }

    /// The byte that selects this kind of card in a listing request.
    pub fn code(self) -> (b: u8)
        ensures
            b == self.spec_code(),
    {
        match self {
            CardType::IsoTypeA => 0x00,
            CardType::FeliCa212 => 0x01,
            CardType::FeliCa424 => 0x02,
            CardType::IsoTypeB => 0x03,
            CardType::Jewel => 0x04,
        }
    }
}

/// The wake-up sources that a power-down leaves armed: I2C, SPI, HSU and the
/// RF level detector.
pub const WAKEUP_SOURCES: u8 = 0x83;

/// The mode of the secure access module in which it is not used.
pub const SAM_NORMAL_MODE: u8 = 0x01;

/// The most targets that one listing asks for; the chip handles no more.
pub const MAX_TARGETS: u8 = 0x02;

/// What this driver can ask of the chip.
#[derive(Clone, Copy, Debug, PartialEq, Eq, Structural)]
pub enum Operation {
    /// Ask for the firmware identity.
    GetFirmwareVersion,
    /// Send the chip to sleep.
    PowerDown,
    /// Put the secure access module into normal mode.
    Setup,
    /// List the ISO type A tags in the field.
    List,
}

impl Operation {
    /// The payload of the request that starts this operation: the opcode,
    /// then the parameters.
    pub open spec fn spec_request(self) -> Seq<u8> {
        match self {
            Operation::GetFirmwareVersion => seq![Command::GetFirmwareVersion.spec_opcode()],
            Operation::PowerDown => seq![Command::PowerDown.spec_opcode(), WAKEUP_SOURCES],
            Operation::Setup => seq![Command::SAMConfiguration.spec_opcode(), SAM_NORMAL_MODE],
            Operation::List => seq![
                Command::InListPassiveTarget.spec_opcode(),
                MAX_TARGETS,
                CardType::IsoTypeA.spec_code(),
            ],
        }
    }

    /// Builds the payload of the request that starts this operation.
    pub fn request(self) -> (payload: Vec<u8>)
        ensures
            payload@ == self.spec_request(),
    {
        let mut payload: Vec<u8> = Vec::new();
        match self {
            Operation::GetFirmwareVersion => {
                payload.push(Command::GetFirmwareVersion.opcode());
            },
            Operation::PowerDown => {
                payload.push(Command::PowerDown.opcode());
                payload.push(WAKEUP_SOURCES);
            },
            Operation::Setup => {
                payload.push(Command::SAMConfiguration.opcode());
                payload.push(SAM_NORMAL_MODE);
            },
            Operation::List => {
                payload.push(Command::InListPassiveTarget.opcode());
                payload.push(MAX_TARGETS);
                payload.push(CardType::IsoTypeA.code());
            },
        }
        assert(payload@ =~= self.spec_request());
        payload
    }
}

} // verus!
