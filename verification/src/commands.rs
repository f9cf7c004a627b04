//! The command vocabulary understood by the device firmware: routing targets,
//! top-level command categories, firmware opcodes, and the payload layouts of
//! the erase, write-memory and write-validity-flag commands.

use vstd::prelude::*;

use crate::codec::le_bytes_of;

verus! {

/// The on-device recipient (or sender) of a command.
#[derive(Debug, Copy, Clone, PartialEq, Eq, Structural)]
pub enum AP2Target {
    UsbHost,
    BleHost,
    McuMain,
    McuLed,
    McuBle,
}

/// Top-level command class, encoded as a single byte.
#[derive(Debug, Copy, Clone, PartialEq, Eq, Structural)]
pub enum L2Command {
    GLOBAL,
    FW,
    KEYBOARD,
    LED,
    MACRO,
    BLE,
}

/// Sub-opcodes under the firmware (`FW`) command category.
#[derive(Debug, Copy, Clone, PartialEq, Eq, Structural)]
pub enum KeyCommand {
    Reserved,
    IapMode,
    IapGetMode,
    IapGetFwVersion,
    IapWirteMemory,
    IapWriteApFlag,
    IapEraseMemory,
}

/// Everything that can go wrong during a flashing run.
#[derive(Debug, Copy, Clone, PartialEq, Eq, Structural)]
pub enum AP2FlashError {
    NoDeviceFound,
    MultipleDeviceFound,
    USBError,
    EraseError,
    FlashError,
    OtherError,
}

/// Wire value of a routing target.
pub open spec fn target_value(t: AP2Target) -> u8 {
    match t {
        AP2Target::UsbHost => 1,
        AP2Target::BleHost => 2,
        AP2Target::McuMain => 3,
        AP2Target::McuLed => 4,
        AP2Target::McuBle => 5,
    }
}

/// Wire value of a command category.
pub open spec fn command_value(c: L2Command) -> u8 {
    match c {
        L2Command::GLOBAL => 1,
        L2Command::FW => 2,
        L2Command::KEYBOARD => 16,
        L2Command::LED => 32,
        L2Command::MACRO => 48,
        L2Command::BLE => 64,
    }
}

/// Wire value of a firmware opcode.
pub open spec fn key_command_value(k: KeyCommand) -> u8 {
    match k {
        KeyCommand::Reserved => 0,
        KeyCommand::IapMode => 1,
        KeyCommand::IapGetMode => 2,
        KeyCommand::IapGetFwVersion => 3,
        KeyCommand::IapWirteMemory => 0x31,
        KeyCommand::IapWriteApFlag => 0x32,
        KeyCommand::IapEraseMemory => 0x43,
    }
}

pub fn target_byte(t: AP2Target) -> (r: u8)
    ensures
        r == target_value(t),
{
    match t {
        AP2Target::UsbHost => 1,
        AP2Target::BleHost => 2,
        AP2Target::McuMain => 3,
        AP2Target::McuLed => 4,
        AP2Target::McuBle => 5,
    }
}

pub fn command_byte(c: L2Command) -> (r: u8)
    ensures
        r == command_value(c),
{
    match c {
        L2Command::GLOBAL => 1,
        L2Command::FW => 2,
        L2Command::KEYBOARD => 16,
        L2Command::LED => 32,
        L2Command::MACRO => 48,
        L2Command::BLE => 64,
    }
}

pub fn key_command_byte(k: KeyCommand) -> (r: u8)
    ensures
        r == key_command_value(k),
{
    match k {
        KeyCommand::Reserved => 0,
        KeyCommand::IapMode => 1,
        KeyCommand::IapGetMode => 2,
        KeyCommand::IapGetFwVersion => 3,
        KeyCommand::IapWirteMemory => 0x31,
        KeyCommand::IapWriteApFlag => 0x32,
        KeyCommand::IapEraseMemory => 0x43,
    }
}

/// Payload of a write-memory command: opcode pair, four-byte little-endian
/// destination address, then the raw chunk bytes.
pub open spec fn write_memory_payload_bytes(addr: u32, chunk: Seq<u8>) -> Seq<u8> {
    seq![
        command_value(L2Command::FW),
        key_command_value(KeyCommand::IapWirteMemory),
    ] + le_bytes_of(addr) + chunk
}

/// Payload of an erase-memory command: opcode pair and the four-byte
/// little-endian address, no data.
pub open spec fn erase_payload_bytes(addr: u32) -> Seq<u8> {
    seq![
        command_value(L2Command::FW),
        key_command_value(KeyCommand::IapEraseMemory),
    ] + le_bytes_of(addr)
}

/// Payload of a write-validity-flag command: opcode pair and the flag byte.
pub open spec fn ap_flag_payload_bytes(flag: u8) -> Seq<u8> {
    seq![command_value(L2Command::FW), key_command_value(KeyCommand::IapWriteApFlag), flag]
}

pub fn write_memory_payload(addr: u32, chunk: &Vec<u8>) -> (r: Vec<u8>)
    ensures
        r@ == write_memory_payload_bytes(addr, chunk@),
        r@.len() == 6 + chunk@.len(),
{
    let mut r: Vec<u8> = Vec::new();
    r.push(command_byte(L2Command::FW));
    r.push(key_command_byte(KeyCommand::IapWirteMemory));
    let a = crate::codec::encode_addr(addr);
    r.push(a[0]);
    r.push(a[1]);
    r.push(a[2]);
    r.push(a[3]);
    let ghost prefix: Seq<u8> = r@;
    proof {
        assert(prefix =~= seq![
            command_value(L2Command::FW),
            key_command_value(KeyCommand::IapWirteMemory),
        ] + le_bytes_of(addr));
    }
    let mut i: usize = 0;
    while i < chunk.len()
        invariant
            i <= chunk@.len(),
            r@ == prefix + chunk@.take(i as int),
        decreases chunk@.len() - i,
    {
        r.push(chunk[i]);
        proof {
            assert(r@ =~= prefix + chunk@.take(i + 1));
        }
        i = i + 1;
    }
    proof {
        assert(chunk@.take(chunk@.len() as int) =~= chunk@);
        assert(r@ =~= write_memory_payload_bytes(addr, chunk@));
    }
    r
}

pub fn erase_payload(addr: u32) -> (r: Vec<u8>)
    ensures
        r@ == erase_payload_bytes(addr),
        r@.len() == 6,
{
    let mut r: Vec<u8> = Vec::new();
    r.push(command_byte(L2Command::FW));
    r.push(key_command_byte(KeyCommand::IapEraseMemory));
    let a = crate::codec::encode_addr(addr);
    r.push(a[0]);
    r.push(a[1]);
    r.push(a[2]);
    r.push(a[3]);
    proof {
        assert(r@ =~= erase_payload_bytes(addr));
    }
    r
}

pub fn ap_flag_payload(flag: u8) -> (r: Vec<u8>)
    ensures
        r@ == ap_flag_payload_bytes(flag),
        r@.len() == 3,
{
    let mut r: Vec<u8> = Vec::new();
    r.push(command_byte(L2Command::FW));
    r.push(key_command_byte(KeyCommand::IapWriteApFlag));
    r.push(flag);
    proof {
        assert(r@ =~= ap_flag_payload_bytes(flag));
    }
    r
}

} // verus!
