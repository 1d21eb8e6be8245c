use vstd::prelude::*;

verus! {

/// One decoded instruction, carrying only the operands its form uses:
/// 4-bit register numbers, 8-bit literals, 12-bit addresses and 4-bit
/// sprite heights.
#[derive(Debug, Clone, Copy, PartialEq, Eq, Structural)]
pub enum Opcode {
    ClearScreen,
    ReturnFromSubroutine,
    JumpToAddress { address: u16 },
    CallAddress { address: u16 },
    SkipIfEqual { register: u8, byte: u8 },
    SkipIfNotEqual { register: u8, byte: u8 },
    SkipIfRegistersEqual { register1: u8, register2: u8 },
    SetRegisterToByte { register: u8, byte: u8 },
    AddByteToRegister { register: u8, byte: u8 },
    SetRegisterToRegister { register1: u8, register2: u8 },
    SetRegisterToRegisterOrRegister { register1: u8, register2: u8 },
    SetRegisterToRegisterAndRegister { register1: u8, register2: u8 },
    SetRegisterToRegisterXorRegister { register1: u8, register2: u8 },
    AddRegisterToRegister { register1: u8, register2: u8 },
    SubtractRegisterFromRegister { register1: u8, register2: u8 },
    ShiftRegisterRight { register: u8 },
    SetRegisterToRegisterMinusRegister { register1: u8, register2: u8 },
    ShiftRegisterLeft { register: u8 },
    SkipIfRegisterNotEqualRegister { register1: u8, register2: u8 },
    SetIndexToAddress { address: u16 },
    JumpToAddressPlusRegister0 { address: u16 },
    SetRegisterToRandAndByte { register: u8, byte: u8 },
    DrawSprite { register1: u8, register2: u8, size: u8 },
    SkipIfKeyPressed { key: u8 },
    SkipIfKeyNotPressed { key: u8 },
    SetRegisterToDelayTimer { register: u8 },
    WaitForKeyPress { key: u8 },
    SetDelayTimerToRegister { register: u8 },
    SetSoundTimerToRegister { register: u8 },
    AddRegisterToIndex { register: u8 },
    SetIndexToSpriteLocation { register: u8 },
    StoreBCD { register: u8 },
    StoreRegisters { last_index: u8 },
    LoadRegisters { last_memory_address: u8 },
}

/// The register number in bits 8-11 of an instruction word.
pub open spec fn op_x(w: u16) -> u8 {
    ((w & 0x0F00) >> 8) as u8
}

/// The register number in bits 4-7 of an instruction word.
pub open spec fn op_y(w: u16) -> u8 {
    ((w & 0x00F0) >> 4) as u8
}

/// The low nibble of an instruction word.
pub open spec fn op_n(w: u16) -> u8 {
    (w & 0x000F) as u8
}

/// The low byte of an instruction word.
pub open spec fn op_kk(w: u16) -> u8 {
    (w & 0x00FF) as u8
}

/// The 12-bit address in an instruction word.
pub open spec fn op_addr(w: u16) -> u16 {
    w & 0x0FFF
}

/// The instruction a 16-bit word denotes: dispatch on the top nibble,
/// with the 0x0, 0x8, 0xE and 0xF groups keyed further by the low byte
/// or low nibble; a word matching no documented form denotes nothing.
pub open spec fn spec_decode(w: u16) -> Option<Opcode> {
    if w & 0xF000 == 0x0000 {
        if w & 0x00FF == 0x00E0 {
            Some(Opcode::ClearScreen)
        } else if w & 0x00FF == 0x00EE {
            Some(Opcode::ReturnFromSubroutine)
        } else {
            None
        }
    } else if w & 0xF000 == 0x1000 {
        Some(Opcode::JumpToAddress { address: op_addr(w) })
    } else if w & 0xF000 == 0x2000 {
        Some(Opcode::CallAddress { address: op_addr(w) })
    } else if w & 0xF000 == 0x3000 {
        Some(Opcode::SkipIfEqual { register: op_x(w), byte: op_kk(w) })
    } else if w & 0xF000 == 0x4000 {
        Some(Opcode::SkipIfNotEqual { register: op_x(w), byte: op_kk(w) })
    } else if w & 0xF000 == 0x5000 {
        Some(Opcode::SkipIfRegistersEqual { register1: op_x(w), register2: op_y(w) })
    } else if w & 0xF000 == 0x6000 {
        Some(Opcode::SetRegisterToByte { register: op_x(w), byte: op_kk(w) })
    } else if w & 0xF000 == 0x7000 {
        Some(Opcode::AddByteToRegister { register: op_x(w), byte: op_kk(w) })
    } else if w & 0xF000 == 0x8000 {
        if w & 0x000F == 0x0000 {
            Some(Opcode::SetRegisterToRegister { register1: op_x(w), register2: op_y(w) })
        } else if w & 0x000F == 0x0001 {
            Some(Opcode::SetRegisterToRegisterOrRegister { register1: op_x(w), register2: op_y(w) })
        } else if w & 0x000F == 0x0002 {
            Some(
                Opcode::SetRegisterToRegisterAndRegister { register1: op_x(w), register2: op_y(w) },
            )
        } else if w & 0x000F == 0x0003 {
            Some(
                Opcode::SetRegisterToRegisterXorRegister { register1: op_x(w), register2: op_y(w) },
            )
        } else if w & 0x000F == 0x0004 {
            Some(Opcode::AddRegisterToRegister { register1: op_x(w), register2: op_y(w) })
        } else if w & 0x000F == 0x0005 {
            Some(Opcode::SubtractRegisterFromRegister { register1: op_x(w), register2: op_y(w) })
        } else if w & 0x000F == 0x0006 {
            Some(Opcode::ShiftRegisterRight { register: op_x(w) })
        } else if w & 0x000F == 0x0007 {
            Some(
                Opcode::SetRegisterToRegisterMinusRegister {
                    register1: op_x(w),
                    register2: op_y(w),
                },
            )
        } else if w & 0x000F == 0x000E {
            Some(Opcode::ShiftRegisterLeft { register: op_x(w) })
        } else {
            None
        }
    } else if w & 0xF000 == 0x9000 {
        Some(Opcode::SkipIfRegisterNotEqualRegister { register1: op_x(w), register2: op_y(w) })
    } else if w & 0xF000 == 0xA000 {
        Some(Opcode::SetIndexToAddress { address: op_addr(w) })
    } else if w & 0xF000 == 0xB000 {
        Some(Opcode::JumpToAddressPlusRegister0 { address: op_addr(w) })
    } else if w & 0xF000 == 0xC000 {
        Some(Opcode::SetRegisterToRandAndByte { register: op_x(w), byte: op_kk(w) })
    } else if w & 0xF000 == 0xD000 {
        Some(Opcode::DrawSprite { register1: op_x(w), register2: op_y(w), size: op_n(w) })
    } else if w & 0xF000 == 0xE000 {
        if w & 0x00FF == 0x009E {
            Some(Opcode::SkipIfKeyPressed { key: op_x(w) })
        } else if w & 0x00FF == 0x00A1 {
            Some(Opcode::SkipIfKeyNotPressed { key: op_x(w) })
        } else {
            None
        }
    } else if w & 0xF000 == 0xF000 {
        if w & 0x00FF == 0x0007 {
            Some(Opcode::SetRegisterToDelayTimer { register: op_x(w) })
        } else if w & 0x00FF == 0x000A {
            Some(Opcode::WaitForKeyPress { key: op_x(w) })
        } else if w & 0x00FF == 0x0015 {
            Some(Opcode::SetDelayTimerToRegister { register: op_x(w) })
        } else if w & 0x00FF == 0x0018 {
            Some(Opcode::SetSoundTimerToRegister { register: op_x(w) })
        } else if w & 0x00FF == 0x001E {
            Some(Opcode::AddRegisterToIndex { register: op_x(w) })
        } else if w & 0x00FF == 0x0029 {
            Some(Opcode::SetIndexToSpriteLocation { register: op_x(w) })
        } else if w & 0x00FF == 0x0033 {
            Some(Opcode::StoreBCD { register: op_x(w) })
        } else if w & 0x00FF == 0x0055 {
            Some(Opcode::StoreRegisters { last_index: op_x(w) })
        } else if w & 0x00FF == 0x0065 {
            Some(Opcode::LoadRegisters { last_memory_address: op_x(w) })
        } else {
            None
        }
    } else {
        None
    }
}

/// Every operand of the instruction lies in the range its 4- or 12-bit
/// instruction field can hold.
pub open spec fn opcode_wf(op: Opcode) -> bool {
    match op {
        Opcode::ClearScreen => true,
        Opcode::ReturnFromSubroutine => true,
        Opcode::JumpToAddress { address } => address <= 0xFFF,
        Opcode::CallAddress { address } => address <= 0xFFF,
        Opcode::SkipIfEqual { register, byte } => register <= 0xF,
        Opcode::SkipIfNotEqual { register, byte } => register <= 0xF,
        Opcode::SkipIfRegistersEqual { register1, register2 } => register1 <= 0xF && register2
            <= 0xF,
        Opcode::SetRegisterToByte { register, byte } => register <= 0xF,
        Opcode::AddByteToRegister { register, byte } => register <= 0xF,
        Opcode::SetRegisterToRegister { register1, register2 } => register1 <= 0xF && register2
            <= 0xF,
        Opcode::SetRegisterToRegisterOrRegister { register1, register2 } => register1 <= 0xF
            && register2 <= 0xF,
        Opcode::SetRegisterToRegisterAndRegister { register1, register2 } => register1 <= 0xF
            && register2 <= 0xF,
        Opcode::SetRegisterToRegisterXorRegister { register1, register2 } => register1 <= 0xF
            && register2 <= 0xF,
        Opcode::AddRegisterToRegister { register1, register2 } => register1 <= 0xF && register2
            <= 0xF,
        Opcode::SubtractRegisterFromRegister { register1, register2 } => register1 <= 0xF
            && register2 <= 0xF,
        Opcode::ShiftRegisterRight { register } => register <= 0xF,
        Opcode::SetRegisterToRegisterMinusRegister { register1, register2 } => register1 <= 0xF
            && register2 <= 0xF,
        Opcode::ShiftRegisterLeft { register } => register <= 0xF,
        Opcode::SkipIfRegisterNotEqualRegister { register1, register2 } => register1 <= 0xF
            && register2 <= 0xF,
        Opcode::SetIndexToAddress { address } => address <= 0xFFF,
        Opcode::JumpToAddressPlusRegister0 { address } => address <= 0xFFF,
        Opcode::SetRegisterToRandAndByte { register, byte } => register <= 0xF,
        Opcode::DrawSprite { register1, register2, size } => register1 <= 0xF && register2 <= 0xF
            && size <= 0xF,
        Opcode::SkipIfKeyPressed { key } => key <= 0xF,
        Opcode::SkipIfKeyNotPressed { key } => key <= 0xF,
        Opcode::SetRegisterToDelayTimer { register } => register <= 0xF,
        Opcode::WaitForKeyPress { key } => key <= 0xF,
        Opcode::SetDelayTimerToRegister { register } => register <= 0xF,
        Opcode::SetSoundTimerToRegister { register } => register <= 0xF,
        Opcode::AddRegisterToIndex { register } => register <= 0xF,
        Opcode::SetIndexToSpriteLocation { register } => register <= 0xF,
        Opcode::StoreBCD { register } => register <= 0xF,
        Opcode::StoreRegisters { last_index } => last_index <= 0xF,
        Opcode::LoadRegisters { last_memory_address } => last_memory_address <= 0xF,
    }
}

/// The canonical 16-bit word for an instruction: the form's selector
/// nibbles with the operand fields filled in. Unused nibbles are zero.
pub open spec fn spec_encode(op: Opcode) -> u16 {
    match op {
        Opcode::ClearScreen => 0x00E0,
        Opcode::ReturnFromSubroutine => 0x00EE,
        Opcode::JumpToAddress { address } => 0x1000 | address,
        Opcode::CallAddress { address } => 0x2000 | address,
        Opcode::SkipIfEqual { register, byte } => 0x3000 | ((register as u16) << 8) | (
        byte as u16),
        Opcode::SkipIfNotEqual { register, byte } => 0x4000 | ((register as u16) << 8) | (
        byte as u16),
        Opcode::SkipIfRegistersEqual { register1, register2 } => 0x5000 | ((register1 as u16) << 8)
            | ((register2 as u16) << 4) | 0x0000,
        Opcode::SetRegisterToByte { register, byte } => 0x6000 | ((register as u16) << 8) | (
        byte as u16),
        Opcode::AddByteToRegister { register, byte } => 0x7000 | ((register as u16) << 8) | (
        byte as u16),
        Opcode::SetRegisterToRegister { register1, register2 } => 0x8000 | ((register1 as u16) << 8)
            | ((register2 as u16) << 4) | 0x0000,
        Opcode::SetRegisterToRegisterOrRegister { register1, register2 } => 0x8000 | ((
        register1 as u16) << 8) | ((register2 as u16) << 4) | 0x0001,
        Opcode::SetRegisterToRegisterAndRegister { register1, register2 } => 0x8000 | ((
        register1 as u16) << 8) | ((register2 as u16) << 4) | 0x0002,
        Opcode::SetRegisterToRegisterXorRegister { register1, register2 } => 0x8000 | ((
        register1 as u16) << 8) | ((register2 as u16) << 4) | 0x0003,
        Opcode::AddRegisterToRegister { register1, register2 } => 0x8000 | ((register1 as u16) << 8)
            | ((register2 as u16) << 4) | 0x0004,
        Opcode::SubtractRegisterFromRegister { register1, register2 } => 0x8000 | ((
        register1 as u16) << 8) | ((register2 as u16) << 4) | 0x0005,
        Opcode::ShiftRegisterRight { register } => 0x8000 | ((register as u16) << 8) | ((0u16) << 4)
            | 0x0006,
        Opcode::SetRegisterToRegisterMinusRegister { register1, register2 } => 0x8000 | ((
        register1 as u16) << 8) | ((register2 as u16) << 4) | 0x0007,
        Opcode::ShiftRegisterLeft { register } => 0x8000 | ((register as u16) << 8) | ((0u16) << 4)
            | 0x000E,
        Opcode::SkipIfRegisterNotEqualRegister { register1, register2 } => 0x9000 | ((
        register1 as u16) << 8) | ((register2 as u16) << 4) | 0x0000,
        Opcode::SetIndexToAddress { address } => 0xA000 | address,
        Opcode::JumpToAddressPlusRegister0 { address } => 0xB000 | address,
        Opcode::SetRegisterToRandAndByte { register, byte } => 0xC000 | ((register as u16) << 8) | (
        byte as u16),
        Opcode::DrawSprite { register1, register2, size } => 0xD000 | ((register1 as u16) << 8) | ((
        register2 as u16) << 4) | (size as u16),
        Opcode::SkipIfKeyPressed { key } => 0xE09E | ((key as u16) << 8),
        Opcode::SkipIfKeyNotPressed { key } => 0xE0A1 | ((key as u16) << 8),
        Opcode::SetRegisterToDelayTimer { register } => 0xF007 | ((register as u16) << 8),
        Opcode::WaitForKeyPress { key } => 0xF00A | ((key as u16) << 8),
        Opcode::SetDelayTimerToRegister { register } => 0xF015 | ((register as u16) << 8),
        Opcode::SetSoundTimerToRegister { register } => 0xF018 | ((register as u16) << 8),
        Opcode::AddRegisterToIndex { register } => 0xF01E | ((register as u16) << 8),
        Opcode::SetIndexToSpriteLocation { register } => 0xF029 | ((register as u16) << 8),
        Opcode::StoreBCD { register } => 0xF033 | ((register as u16) << 8),
        Opcode::StoreRegisters { last_index } => 0xF055 | ((last_index as u16) << 8),
        Opcode::LoadRegisters { last_memory_address } => 0xF065 | ((last_memory_address as u16)
            << 8),
    }
}

/// Each operand field of an instruction word fits the range of its
/// width.
proof fn lemma_nibble_bounds(w: u16)
    by (bit_vector)
    ensures
        w & 0x0FFF <= 0xFFF,
        ((w & 0x0F00) >> 8) <= 0xF,
        ((w & 0x00F0) >> 4) <= 0xF,
        (w & 0x000F) <= 0xF,
        (w & 0x00FF) <= 0xFF,
{
}

/// Filling a 12-bit address into an address-form selector leaves the
/// selector readable and the address recoverable.
proof fn lemma_encode_addr(t: u16, a: u16)
    by (bit_vector)
    requires
        a <= 0xFFF,
        t == 0x1000 || t == 0x2000 || t == 0xA000 || t == 0xB000,
    ensures
        (t | a) & 0xF000 == t,
        (t | a) & 0x0FFF == a,
{
}

/// Filling a register number and a literal byte into a register-byte
/// selector leaves all three fields recoverable.
proof fn lemma_encode_xkk(t: u16, x: u16, kk: u16)
    by (bit_vector)
    requires
        x <= 0xF,
        kk <= 0xFF,
        t == 0x3000 || t == 0x4000 || t == 0x6000 || t == 0x7000 || t == 0xC000,
    ensures
        (t | (x << 8) | kk) & 0xF000 == t,
        ((t | (x << 8) | kk) & 0x0F00) >> 8 == x,
        (t | (x << 8) | kk) & 0x00FF == kk,
{
}

/// Filling two register numbers and a low nibble into a two-register
/// selector leaves all four fields recoverable.
proof fn lemma_encode_xyn(t: u16, x: u16, y: u16, n: u16)
    by (bit_vector)
    requires
        x <= 0xF,
        y <= 0xF,
        n <= 0xF,
        t == 0x5000 || t == 0x8000 || t == 0x9000 || t == 0xD000,
    ensures
        (t | (x << 8) | (y << 4) | n) & 0xF000 == t,
        ((t | (x << 8) | (y << 4) | n) & 0x0F00) >> 8 == x,
        ((t | (x << 8) | (y << 4) | n) & 0x00F0) >> 4 == y,
        (t | (x << 8) | (y << 4) | n) & 0x000F == n,
{
}

/// Filling a register number into a selector whose register nibble is
/// clear leaves the selector's nibbles and the register recoverable.
proof fn lemma_encode_xsel(t: u16, x: u16)
    by (bit_vector)
    requires
        x <= 0xF,
        t & 0x0F00 == 0,
    ensures
        (t | (x << 8)) & 0xF000 == t & 0xF000,
        ((t | (x << 8)) & 0x0F00) >> 8 == x,
        (t | (x << 8)) & 0x00FF == t & 0x00FF,
{
}

/// The nibble and byte fields of the fixed selector words used by the
/// screen, key and timer instruction groups.
proof fn lemma_selector_constants()
    by (bit_vector)
    ensures
        0x00E0u16 & 0xF000 == 0x0000 && 0x00E0u16 & 0x00FF == 0x00E0,
        0x00EEu16 & 0xF000 == 0x0000 && 0x00EEu16 & 0x00FF == 0x00EE,
        0xE09Eu16 & 0x0F00 == 0 && 0xE09Eu16 & 0xF000 == 0xE000 && 0xE09Eu16 & 0x00FF == 0x009E,
        0xE0A1u16 & 0x0F00 == 0 && 0xE0A1u16 & 0xF000 == 0xE000 && 0xE0A1u16 & 0x00FF == 0x00A1,
        0xF007u16 & 0x0F00 == 0 && 0xF007u16 & 0xF000 == 0xF000 && 0xF007u16 & 0x00FF == 0x0007,
        0xF00Au16 & 0x0F00 == 0 && 0xF00Au16 & 0xF000 == 0xF000 && 0xF00Au16 & 0x00FF == 0x000A,
        0xF015u16 & 0x0F00 == 0 && 0xF015u16 & 0xF000 == 0xF000 && 0xF015u16 & 0x00FF == 0x0015,
        0xF018u16 & 0x0F00 == 0 && 0xF018u16 & 0xF000 == 0xF000 && 0xF018u16 & 0x00FF == 0x0018,
        0xF01Eu16 & 0x0F00 == 0 && 0xF01Eu16 & 0xF000 == 0xF000 && 0xF01Eu16 & 0x00FF == 0x001E,
        0xF029u16 & 0x0F00 == 0 && 0xF029u16 & 0xF000 == 0xF000 && 0xF029u16 & 0x00FF == 0x0029,
        0xF033u16 & 0x0F00 == 0 && 0xF033u16 & 0xF000 == 0xF000 && 0xF033u16 & 0x00FF == 0x0033,
        0xF055u16 & 0x0F00 == 0 && 0xF055u16 & 0xF000 == 0xF000 && 0xF055u16 & 0x00FF == 0x0055,
        0xF065u16 & 0x0F00 == 0 && 0xF065u16 & 0xF000 == 0xF000 && 0xF065u16 & 0x00FF == 0x0065,
{
}

/// Decoding is complete over the documented instruction forms: the
/// canonical word of any well-formed instruction decodes back to that
/// instruction, operands included.
pub proof fn lemma_decode_encode(op: Opcode)
    requires
        opcode_wf(op),
    ensures
        spec_decode(spec_encode(op)) == Some(op),
{
    lemma_selector_constants();
    match op {
        Opcode::ClearScreen => {},
        Opcode::ReturnFromSubroutine => {},
        Opcode::JumpToAddress { address } => {
            lemma_encode_addr(0x1000, address);
        },
        Opcode::CallAddress { address } => {
            lemma_encode_addr(0x2000, address);
        },
        Opcode::SkipIfEqual { register, byte } => {
            lemma_encode_xkk(0x3000, register as u16, byte as u16);
        },
        Opcode::SkipIfNotEqual { register, byte } => {
            lemma_encode_xkk(0x4000, register as u16, byte as u16);
        },
        Opcode::SkipIfRegistersEqual { register1, register2 } => {
            lemma_encode_xyn(0x5000, register1 as u16, register2 as u16, 0x0000);
        },
        Opcode::SetRegisterToByte { register, byte } => {
            lemma_encode_xkk(0x6000, register as u16, byte as u16);
        },
        Opcode::AddByteToRegister { register, byte } => {
            lemma_encode_xkk(0x7000, register as u16, byte as u16);
        },
        Opcode::SetRegisterToRegister { register1, register2 } => {
            lemma_encode_xyn(0x8000, register1 as u16, register2 as u16, 0x0000);
        },
        Opcode::SetRegisterToRegisterOrRegister { register1, register2 } => {
            lemma_encode_xyn(0x8000, register1 as u16, register2 as u16, 0x0001);
        },
        Opcode::SetRegisterToRegisterAndRegister { register1, register2 } => {
            lemma_encode_xyn(0x8000, register1 as u16, register2 as u16, 0x0002);
        },
        Opcode::SetRegisterToRegisterXorRegister { register1, register2 } => {
            lemma_encode_xyn(0x8000, register1 as u16, register2 as u16, 0x0003);
        },
        Opcode::AddRegisterToRegister { register1, register2 } => {
            lemma_encode_xyn(0x8000, register1 as u16, register2 as u16, 0x0004);
        },
        Opcode::SubtractRegisterFromRegister { register1, register2 } => {
            lemma_encode_xyn(0x8000, register1 as u16, register2 as u16, 0x0005);
        },
        Opcode::ShiftRegisterRight { register } => {
            lemma_encode_xyn(0x8000, register as u16, 0u16, 0x0006);
        },
        Opcode::SetRegisterToRegisterMinusRegister { register1, register2 } => {
            lemma_encode_xyn(0x8000, register1 as u16, register2 as u16, 0x0007);
        },
        Opcode::ShiftRegisterLeft { register } => {
            lemma_encode_xyn(0x8000, register as u16, 0u16, 0x000E);
        },
        Opcode::SkipIfRegisterNotEqualRegister { register1, register2 } => {
            lemma_encode_xyn(0x9000, register1 as u16, register2 as u16, 0x0000);
        },
        Opcode::SetIndexToAddress { address } => {
            lemma_encode_addr(0xA000, address);
        },
        Opcode::JumpToAddressPlusRegister0 { address } => {
            lemma_encode_addr(0xB000, address);
        },
        Opcode::SetRegisterToRandAndByte { register, byte } => {
            lemma_encode_xkk(0xC000, register as u16, byte as u16);
        },
        Opcode::DrawSprite { register1, register2, size } => {
            lemma_encode_xyn(0xD000, register1 as u16, register2 as u16, size as u16);
        },
        Opcode::SkipIfKeyPressed { key } => {
            lemma_encode_xsel(0xE09E, key as u16);
        },
        Opcode::SkipIfKeyNotPressed { key } => {
            lemma_encode_xsel(0xE0A1, key as u16);
        },
        Opcode::SetRegisterToDelayTimer { register } => {
            lemma_encode_xsel(0xF007, register as u16);
        },
        Opcode::WaitForKeyPress { key } => {
            lemma_encode_xsel(0xF00A, key as u16);
        },
        Opcode::SetDelayTimerToRegister { register } => {
            lemma_encode_xsel(0xF015, register as u16);
        },
        Opcode::SetSoundTimerToRegister { register } => {
            lemma_encode_xsel(0xF018, register as u16);
        },
        Opcode::AddRegisterToIndex { register } => {
            lemma_encode_xsel(0xF01E, register as u16);
        },
        Opcode::SetIndexToSpriteLocation { register } => {
            lemma_encode_xsel(0xF029, register as u16);
        },
        Opcode::StoreBCD { register } => {
            lemma_encode_xsel(0xF033, register as u16);
        },
        Opcode::StoreRegisters { last_index } => {
            lemma_encode_xsel(0xF055, last_index as u16);
        },
        Opcode::LoadRegisters { last_memory_address } => {
            lemma_encode_xsel(0xF065, last_memory_address as u16);
        },
    }
}

impl Opcode {
    /// Decodes a 16-bit instruction word into its tagged instruction,
    /// or nothing for a word that matches no documented form.
    pub fn decode(opcode: u16) -> (r: Option<Opcode>)
        ensures
            r == spec_decode(opcode),
            (r matches Some(op) ==> opcode_wf(op)),
    {
        proof {
            lemma_nibble_bounds(opcode);
        }
        let x = ((opcode & 0x0F00) >> 8) as u8;
        let y = ((opcode & 0x00F0) >> 4) as u8;
        let n = (opcode & 0x000F) as u8;
        let kk = (opcode & 0x00FF) as u8;
        let addr = opcode & 0x0FFF;
        let top = opcode & 0xF000;
        if top == 0x0000 {
            if kk == 0xE0 {
                Some(Opcode::ClearScreen)
            } else if kk == 0xEE {
                Some(Opcode::ReturnFromSubroutine)
            } else {
                None
            }
        } else if top == 0x1000 {
            Some(Opcode::JumpToAddress { address: addr })
        } else if top == 0x2000 {
            Some(Opcode::CallAddress { address: addr })
        } else if top == 0x3000 {
            Some(Opcode::SkipIfEqual { register: x, byte: kk })
        } else if top == 0x4000 {
            Some(Opcode::SkipIfNotEqual { register: x, byte: kk })
        } else if top == 0x5000 {
            Some(Opcode::SkipIfRegistersEqual { register1: x, register2: y })
        } else if top == 0x6000 {
            Some(Opcode::SetRegisterToByte { register: x, byte: kk })
        } else if top == 0x7000 {
            Some(Opcode::AddByteToRegister { register: x, byte: kk })
        } else if top == 0x8000 {
            if n == 0x0 {
                Some(Opcode::SetRegisterToRegister { register1: x, register2: y })
            } else if n == 0x1 {
                Some(Opcode::SetRegisterToRegisterOrRegister { register1: x, register2: y })
            } else if n == 0x2 {
                Some(Opcode::SetRegisterToRegisterAndRegister { register1: x, register2: y })
            } else if n == 0x3 {
                Some(Opcode::SetRegisterToRegisterXorRegister { register1: x, register2: y })
            } else if n == 0x4 {
                Some(Opcode::AddRegisterToRegister { register1: x, register2: y })
            } else if n == 0x5 {
                Some(Opcode::SubtractRegisterFromRegister { register1: x, register2: y })
            } else if n == 0x6 {
                Some(Opcode::ShiftRegisterRight { register: x })
            } else if n == 0x7 {
                Some(Opcode::SetRegisterToRegisterMinusRegister { register1: x, register2: y })
            } else if n == 0xE {
                Some(Opcode::ShiftRegisterLeft { register: x })
            } else {
                None
            }
        } else if top == 0x9000 {
            Some(Opcode::SkipIfRegisterNotEqualRegister { register1: x, register2: y })
        } else if top == 0xA000 {
            Some(Opcode::SetIndexToAddress { address: addr })
        } else if top == 0xB000 {
            Some(Opcode::JumpToAddressPlusRegister0 { address: addr })
        } else if top == 0xC000 {
            Some(Opcode::SetRegisterToRandAndByte { register: x, byte: kk })
        } else if top == 0xD000 {
            Some(Opcode::DrawSprite { register1: x, register2: y, size: n })
        } else if top == 0xE000 {
            if kk == 0x9E {
                Some(Opcode::SkipIfKeyPressed { key: x })
            } else if kk == 0xA1 {
                Some(Opcode::SkipIfKeyNotPressed { key: x })
            } else {
                None
            }
        } else if top == 0xF000 {
            if kk == 0x07 {
                Some(Opcode::SetRegisterToDelayTimer { register: x })
            } else if kk == 0x0A {
                Some(Opcode::WaitForKeyPress { key: x })
            } else if kk == 0x15 {
                Some(Opcode::SetDelayTimerToRegister { register: x })
            } else if kk == 0x18 {
                Some(Opcode::SetSoundTimerToRegister { register: x })
            } else if kk == 0x1E {
                Some(Opcode::AddRegisterToIndex { register: x })
            } else if kk == 0x29 {
                Some(Opcode::SetIndexToSpriteLocation { register: x })
            } else if kk == 0x33 {
                Some(Opcode::StoreBCD { register: x })
            } else if kk == 0x55 {
                Some(Opcode::StoreRegisters { last_index: x })
            } else if kk == 0x65 {
                Some(Opcode::LoadRegisters { last_memory_address: x })
            } else {
                None
            }
        } else {
            None
        }
    }
}

} // verus!
