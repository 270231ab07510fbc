//! What identifies the board: texts and numbers made from its MAC address,
//! and the name of the reason for its last reset.
//!
//! Texts are ASCII, one byte per character, and are held without allocation
//! in strings of fixed capacity.

use vstd::prelude::*;

verus! {

/// ASCII code of the digit zero.
pub const ASCII_ZERO: u8 = 48;

/// ASCII code of the capital letter A.
pub const ASCII_UPPER_A: u8 = 65;

/// ASCII code of the small letter a.
pub const ASCII_LOWER_A: u8 = 97;

/// ASCII code of the colon.
pub const ASCII_COLON: u8 = 58;

/// The hexadecimal digit for a value below sixteen, with capital or small
/// letters.
pub open spec fn hex_digit(value: int, upper: bool) -> u8 {
    if value < 10 {
        (ASCII_ZERO + value) as u8
    } else if upper {
        (ASCII_UPPER_A + value - 10) as u8
    } else {
        (ASCII_LOWER_A + value - 10) as u8
    }
}

/// A MAC address as text: six pairs of capital hexadecimal digits with colons
/// between them, as in `00:11:22:AA:BB:CC`.
pub open spec fn mac_address_text(mac: Seq<u8>) -> Seq<u8> {
    Seq::new(
        17,
        |i: int|
            if i % 3 == 0 {
                hex_digit(mac[i / 3] as int / 16, true)
            } else if i % 3 == 1 {
                hex_digit(mac[i / 3] as int % 16, true)
            } else {
                ASCII_COLON
            },
    )
}

/// The device id of a MAC address: its twelve hexadecimal digits, small
/// letters, nothing between them.
pub open spec fn device_id_text(mac: Seq<u8>) -> Seq<u8> {
    Seq::new(
        12,
        |i: int|
            if i % 2 == 0 {
                hex_digit(mac[i / 2] as int / 16, false)
            } else {
                hex_digit(mac[i / 2] as int % 16, false)
            },
    )
}

/// A number in decimal digits, without leading zeros.
pub open spec fn decimal_text(n: nat) -> Seq<u8>
    decreases n,
{
    if n < 10 {
        seq![(ASCII_ZERO + n) as u8]
    } else {
        decimal_text(n / 10).push((ASCII_ZERO + n % 10) as u8)
    }
}

/// The chip id of a board with this MAC address: the last three bytes of the
/// address, the last one least significant.
pub open spec fn chip_id(mac: Seq<u8>) -> int {
    mac[5] as int + mac[4] as int * 256 + mac[3] as int * 65536
}

fn hex_char(value: u8, upper: bool) -> (digit: u8)
    requires
        value < 16,
    ensures
        digit == hex_digit(value as int, upper),
        digit < 128,
{
    if value < 10 {
        ASCII_ZERO + value
    } else if upper {
        ASCII_UPPER_A + (value - 10)
    } else {
        ASCII_LOWER_A + (value - 10)
    }
}

/// A text of at most `N` bytes in a `heapless::String<N>`. What it holds is
/// named by [`mac_text_of`], [`device_id_of`] and [`chip_text_of`]; the string
/// itself is in `text`.
#[verifier::external_body]
#[derive(Debug, PartialEq, Eq)]
pub struct Text<const N: usize> {
    pub text: heapless::String<N>,
}

/// The bytes that a text of capacity 17 holds, first to last.
pub uninterp spec fn mac_text_of(text: Text<17>) -> Seq<u8>;

/// The bytes that a text of capacity 12 holds, first to last.
pub uninterp spec fn device_id_of(text: Text<12>) -> Seq<u8>;

/// The bytes that a text of capacity 10 holds, first to last.
pub uninterp spec fn chip_text_of(text: Text<10>) -> Seq<u8>;

/// `heapless::String::<17>::new`: a string that holds nothing.
#[verifier::external_body]
fn new_mac_text() -> (text: Text<17>)
    ensures
        mac_text_of(text) == Seq::<u8>::empty(),
{
    Text { text: heapless::String::new() }
}

/// `heapless::String::<17>::push`, for one ASCII character on a string that
/// is not full: the character is appended and nothing else changes.
#[verifier::external_body]
fn push_mac_text(text: &mut Text<17>, c: u8)
    requires
        c < 128,
        mac_text_of(*old(text)).len() < 17,
    ensures
        mac_text_of(*final(text)) == mac_text_of(*old(text)).push(c),
{
    let _ = text.text.push(char::from(c));
}

/// `heapless::String::<12>::new`: a string that holds nothing.
#[verifier::external_body]
fn new_device_id() -> (text: Text<12>)
    ensures
        device_id_of(text) == Seq::<u8>::empty(),
{
    Text { text: heapless::String::new() }
}

/// `heapless::String::<12>::push`, for one ASCII character on a string that
/// is not full: the character is appended and nothing else changes.
#[verifier::external_body]
fn push_device_id(text: &mut Text<12>, c: u8)
    requires
        c < 128,
        device_id_of(*old(text)).len() < 12,
    ensures
        device_id_of(*final(text)) == device_id_of(*old(text)).push(c),
{
    let _ = text.text.push(char::from(c));
}

/// `heapless::String::<10>::new`: a string that holds nothing.
#[verifier::external_body]
fn new_chip_text() -> (text: Text<10>)
    ensures
        chip_text_of(text) == Seq::<u8>::empty(),
{
    Text { text: heapless::String::new() }
}

/// `heapless::String::<10>::push`, for one ASCII character on a string that
/// is not full: the character is appended and nothing else changes.
#[verifier::external_body]
fn push_chip_text(text: &mut Text<10>, c: u8)
    requires
        c < 128,
        chip_text_of(*old(text)).len() < 10,
    ensures
        chip_text_of(*final(text)) == chip_text_of(*old(text)).push(c),
{
    let _ = text.text.push(char::from(c));
}

/// The MAC address as text, as in `00:11:22:AA:BB:CC`.
pub fn get_mac_address_str(mac: &[u8; 6]) -> (text: Text<17>)
    ensures
        mac_text_of(text) == mac_address_text(mac@),
{
    let mut text: Text<17> = new_mac_text();
    let mut i: usize = 0;
    while i < 6
        invariant
            i <= 6,
            mac_text_of(text).len() == if i == 0 {
                0
            } else {
                3 * i - 1
            },
            forall|k: int|
                0 <= k < mac_text_of(text).len() ==> mac_text_of(text)[k] == mac_address_text(
                    mac@,
                )[k],
        decreases 6 - i,
    {
        if i > 0 {
            push_mac_text(&mut text, ASCII_COLON);
        }
        push_mac_text(&mut text, hex_char(mac[i] / 16, true));
        push_mac_text(&mut text, hex_char(mac[i] % 16, true));
        i = i + 1;
    }
    proof {
        assert(mac_text_of(text) =~= mac_address_text(mac@));
    }
    text
}

/// The device id: the MAC address in twelve small hexadecimal digits.
pub fn get_device_id(mac: &[u8; 6]) -> (text: Text<12>)
    ensures
        device_id_of(text) == device_id_text(mac@),
{
    let mut text: Text<12> = new_device_id();
    let mut i: usize = 0;
    while i < 6
        invariant
            i <= 6,
            device_id_of(text).len() == 2 * i,
            forall|k: int|
                0 <= k < device_id_of(text).len() ==> device_id_of(text)[k] == device_id_text(
                    mac@,
                )[k],
        decreases 6 - i,
    {
        push_device_id(&mut text, hex_char(mac[i] / 16, false));
        push_device_id(&mut text, hex_char(mac[i] % 16, false));
        i = i + 1;
    }
    proof {
        assert(device_id_of(text) =~= device_id_text(mac@));
    }
    text
}

/// The chip id of a board with this MAC address, a 24-bit number.
pub fn get_chip_id_u32(mac: &[u8; 6]) -> (id: u32)
    ensures
        id == chip_id(mac@),
        id < 0x100_0000,
{
    (mac[5] as u32) + (mac[4] as u32) * 256 + (mac[3] as u32) * 65536
}

/// A number below 100 000 000 has at most eight decimal digits, and every
/// number has at least one.
pub proof fn lemma_decimal_text_len(n: nat)
    ensures
        decimal_text(n).len() >= 1,
        n < 10 ==> decimal_text(n).len() == 1,
        n < 100 ==> decimal_text(n).len() <= 2,
        n < 1_000 ==> decimal_text(n).len() <= 3,
        n < 10_000 ==> decimal_text(n).len() <= 4,
        n < 100_000 ==> decimal_text(n).len() <= 5,
        n < 1_000_000 ==> decimal_text(n).len() <= 6,
        n < 10_000_000 ==> decimal_text(n).len() <= 7,
        n < 100_000_000 ==> decimal_text(n).len() <= 8,
    decreases n,
{
    if n >= 10 {
        lemma_decimal_text_len(n / 10);
    }
}

fn push_decimal(text: &mut Text<10>, n: u32)
    requires
        chip_text_of(*old(text)).len() + decimal_text(n as nat).len() <= 10,
    ensures
        chip_text_of(*final(text)) == chip_text_of(*old(text)) + decimal_text(n as nat),
    decreases n,
{
    proof {
        lemma_decimal_text_len((n / 10) as nat);
    }
    if n >= 10 {
        push_decimal(text, n / 10);
    }
    push_chip_text(text, ASCII_ZERO + (n % 10) as u8);
    proof {
        assert(chip_text_of(*text) =~= chip_text_of(*old(text)) + decimal_text(n as nat));
    }
}

/// The chip id in decimal digits.
pub fn get_chip_id(mac: &[u8; 6]) -> (text: Text<10>)
    ensures
        chip_text_of(text) == decimal_text(chip_id(mac@) as nat),
{
    let mut text: Text<10> = new_chip_text();
    let id: u32 = get_chip_id_u32(mac);
    proof {
        lemma_decimal_text_len(id as nat);
    }
    push_decimal(&mut text, id);
    proof {
        assert(Seq::<u8>::empty() + decimal_text(id as nat) =~= decimal_text(id as nat));
    }
    text
}

/// The texts that identify a board.
#[derive(Debug, PartialEq, Eq)]
pub struct DeviceInfo {
    /// The MAC address, as in `00:11:22:AA:BB:CC`.
    pub mac_address: Text<17>,
    /// The chip id in decimal digits.
    pub chip_id: Text<10>,
}

impl DeviceInfo {
    /// The texts that identify the board with this MAC address.
    pub fn get(mac: &[u8; 6]) -> (info: DeviceInfo)
        ensures
            mac_text_of(info.mac_address) == mac_address_text(mac@),
            chip_text_of(info.chip_id) == decimal_text(chip_id(mac@) as nat),
    {
        DeviceInfo { mac_address: get_mac_address_str(mac), chip_id: get_chip_id(mac) }
    }
}

/// Why the chip was last reset.
#[derive(Debug, Clone, Copy, PartialEq, Eq, Structural)]
pub enum ResetReason {
    ChipPowerOn,
    CoreEfuseCrc,
    CoreMwdt0,
    CoreMwdt1,
    CoreRtcWdt,
    CoreSw,
    SysBrownOut,
    SysSuperWdt,
    SysClkGlitch,
    SysRtcWdt,
    CoreUsbUart,
    CoreUsbJtag,
    CorePwrGlitch,
    CoreDeepSleep,
    Cpu0Mwdt0,
    Cpu0Mwdt1,
    Cpu0Sw,
    Cpu0RtcWdt,
}

/// The name that metrics report for a reset reason: the reason's own name, or
/// `None` where the chip gave no reason.
pub open spec fn reset_reason_name(reset_reason: Option<ResetReason>) -> Seq<char> {
    match reset_reason {
        Some(ResetReason::ChipPowerOn) => "ChipPowerOn"@,
        Some(ResetReason::CoreEfuseCrc) => "CoreEfuseCrc"@,
        Some(ResetReason::CoreMwdt0) => "CoreMwdt0"@,
        Some(ResetReason::CoreMwdt1) => "CoreMwdt1"@,
        Some(ResetReason::CoreRtcWdt) => "CoreRtcWdt"@,
        Some(ResetReason::CoreSw) => "CoreSw"@,
        Some(ResetReason::SysBrownOut) => "SysBrownOut"@,
        Some(ResetReason::SysSuperWdt) => "SysSuperWdt"@,
        Some(ResetReason::SysClkGlitch) => "SysClkGlitch"@,
        Some(ResetReason::SysRtcWdt) => "SysRtcWdt"@,
        Some(ResetReason::CoreUsbUart) => "CoreUsbUart"@,
        Some(ResetReason::CoreUsbJtag) => "CoreUsbJtag"@,
        Some(ResetReason::CorePwrGlitch) => "CorePwrGlitch"@,
        Some(ResetReason::CoreDeepSleep) => "CoreDeepSleep"@,
        Some(ResetReason::Cpu0Mwdt0) => "Cpu0Mwdt0"@,
        Some(ResetReason::Cpu0Mwdt1) => "Cpu0Mwdt1"@,
        Some(ResetReason::Cpu0Sw) => "Cpu0Sw"@,
        Some(ResetReason::Cpu0RtcWdt) => "Cpu0RtcWdt"@,
        None => "None"@,
    }
}

/// The name that metrics report for a reset reason.
pub fn resolve_reset_reason(reset_reason: Option<ResetReason>) -> (name: &'static str)
    ensures
        name@ == reset_reason_name(reset_reason),
{
    match reset_reason {
        Some(ResetReason::ChipPowerOn) => "ChipPowerOn",
        Some(ResetReason::CoreEfuseCrc) => "CoreEfuseCrc",
        Some(ResetReason::CoreMwdt0) => "CoreMwdt0",
        Some(ResetReason::CoreMwdt1) => "CoreMwdt1",
        Some(ResetReason::CoreRtcWdt) => "CoreRtcWdt",
        Some(ResetReason::CoreSw) => "CoreSw",
        Some(ResetReason::SysBrownOut) => "SysBrownOut",
        Some(ResetReason::SysSuperWdt) => "SysSuperWdt",
        Some(ResetReason::SysClkGlitch) => "SysClkGlitch",
        Some(ResetReason::SysRtcWdt) => "SysRtcWdt",
        Some(ResetReason::CoreUsbUart) => "CoreUsbUart",
        Some(ResetReason::CoreUsbJtag) => "CoreUsbJtag",
        Some(ResetReason::CorePwrGlitch) => "CorePwrGlitch",
        Some(ResetReason::CoreDeepSleep) => "CoreDeepSleep",
        Some(ResetReason::Cpu0Mwdt0) => "Cpu0Mwdt0",
        Some(ResetReason::Cpu0Mwdt1) => "Cpu0Mwdt1",
        Some(ResetReason::Cpu0Sw) => "Cpu0Sw",
        Some(ResetReason::Cpu0RtcWdt) => "Cpu0RtcWdt",
        None => "None",
    }
}

} // verus!
