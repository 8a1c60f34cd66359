//! Saturn XDMA register rules: the hardware identity and its compatibility
//! check, exclusive-ownership status from the service manager, and the
//! receive-safe register state that every register session forces and checks.
use vstd::prelude::*;

use crate::text::{dec, dec_signed, hex_padded, push_dec, push_dec_i64, push_hex_padded, push_str};

verus! {

pub const USER_VERSION_REGISTER: u64 = 0x4004;
pub const SOFTWARE_VERSION_REGISTER: u64 = 0xC000;
pub const PRODUCT_VERSION_REGISTER: u64 = 0xC004;
pub const KEYER_CONFIG_REGISTER: u64 = 0x2000;
pub const TX_CONFIG_REGISTER: u64 = 0x2008;
pub const RF_GPIO_REGISTER: u64 = 0x2014;

pub const SATURN_PRODUCT_ID: u16 = 1;
pub const GOLDEN_SOFTWARE_ID: u8 = 3;
pub const PRIMARY_SOFTWARE_ID: u8 = 4;
pub const REQUIRED_FIRMWARE_MAJOR: u8 = 1;
pub const REQUIRED_CLOCK_MASK: u8 = 0x0F;

pub const MOX_BIT: u32 = 0x0100_0000;
pub const TX_ENABLE_BIT: u32 = 0x0200_0000;
pub const TX_RELAY_DISABLE_BIT: u32 = 0x0800_0000;
pub const CW_KEYER_ENABLE_BIT: u32 = 0x8000_0000;
pub const TX_WATCHDOG_OVERRIDE_BIT: u32 = 0x1000_0000;
pub const TX_MODULATION_SOURCE_MASK: u32 = 0b11;
pub const TX_OUTPUT_GATE_BIT: u32 = 0b100;
pub const TX_PROTOCOL_P2_BIT: u32 = 0b1000;
pub const TX_AMPLITUDE_MASK: u32 = 0x003f_fff0;
pub const DUC_MUX_RESET_BIT: u32 = 0x2000_0000;
pub const TX_IQ_DEINTERLEAVE_BIT: u32 = 0x4000_0000;
pub const DUC_STREAM_ENABLE_BIT: u32 = 0x8000_0000;

/// TX configuration bits that must be clear in the receive-safe state.
pub const UNSAFE_TX_BITS: u32 = 0xf03f_fff7;

/// Why an XDMA operation failed.
#[derive(Clone, Debug, PartialEq, Eq)]
pub enum XdmaError {
    Io { action: String, detail: String },
    Incompatible(String),
    Ownership(String),
}

/// Identity registers of a Saturn board.
#[derive(Clone, Copy, Debug, PartialEq, Eq, Structural)]
pub struct SaturnIdentity {
    pub product_id: u16,
    pub pcb_version: u16,
    pub software_id: u8,
    pub firmware_major: u8,
    pub firmware_minor: u16,
    pub clock_mask: u8,
    pub user_version: u32,
}

/// Which compatibility rule an identity breaks first, if any.
pub open spec fn identity_fault(id: SaturnIdentity) -> Option<u8> {
    if id.product_id != SATURN_PRODUCT_ID {
        Some(0u8)
    } else if id.software_id != GOLDEN_SOFTWARE_ID && id.software_id != PRIMARY_SOFTWARE_ID {
        Some(1u8)
    } else if id.clock_mask != REQUIRED_CLOCK_MASK {
        Some(2u8)
    } else if id.firmware_major != REQUIRED_FIRMWARE_MAJOR {
        Some(3u8)
    } else {
        None
    }
}

impl SaturnIdentity {
    /// Fields of the software and product version registers: product id and
    /// PCB in the product register's halves; software id in bits 20..25,
    /// firmware major in bits 25..32, minor in bits 4..20, clocks in bits 0..4.
    pub fn decode(software: u32, product: u32, user_version: u32) -> (id: Self)
        ensures
            id.product_id as nat == product as nat / 0x1_0000,
            id.pcb_version as nat == product as nat % 0x1_0000,
            id.software_id as nat == (software as nat / 0x10_0000) % 32,
            id.firmware_major as nat == (software as nat / 0x200_0000) % 128,
            id.firmware_minor as nat == (software as nat / 16) % 0x1_0000,
            id.clock_mask as nat == software as nat % 16,
            id.user_version == user_version,
    {
        SaturnIdentity {
            product_id: (product / 0x1_0000) as u16,
            pcb_version: (product % 0x1_0000) as u16,
            software_id: ((software / 0x10_0000) % 32) as u8,
            firmware_major: ((software / 0x200_0000) % 128) as u8,
            firmware_minor: ((software / 16) % 0x1_0000) as u16,
            clock_mask: (software % 16) as u8,
            user_version,
        }
    }

    /// The golden (fallback) image is running.
    pub fn is_fallback(&self) -> (b: bool)
        ensures
            b == (self.software_id == GOLDEN_SOFTWARE_ID),
    {
        self.software_id == GOLDEN_SOFTWARE_ID
    }

    /// Accepts a Saturn product running the golden or primary image with all
    /// four clocks and firmware major 1; otherwise names the first broken rule.
    pub fn validate(&self) -> (r: Result<(), XdmaError>)
        ensures
            r is Ok <==> identity_fault(*self) is None,
            r matches Err(e) ==> e is Incompatible,
            r matches Err(XdmaError::Incompatible(m)) ==> m@ == identity_message(*self),
    {
        let mut m = String::new();
        if self.product_id != SATURN_PRODUCT_ID {
            push_str(&mut m, "XDMA product ID ");
            push_dec(&mut m, self.product_id as u64);
            push_str(&mut m, " is not Saturn product ID 1");
            return Err(XdmaError::Incompatible(m));
        }
        if self.software_id != GOLDEN_SOFTWARE_ID && self.software_id != PRIMARY_SOFTWARE_ID {
            push_str(&mut m, "Saturn software ID ");
            push_dec(&mut m, self.software_id as u64);
            push_str(&mut m, " is neither golden (3) nor primary (4)");
            return Err(XdmaError::Incompatible(m));
        }
        if self.clock_mask != REQUIRED_CLOCK_MASK {
            push_str(&mut m, "Saturn clock mask is 0x");
            push_hex_padded(&mut m, self.clock_mask as u64, 2);
            push_str(&mut m, "; expected 0x0f");
            return Err(XdmaError::Incompatible(m));
        }
        if self.firmware_major != REQUIRED_FIRMWARE_MAJOR {
            push_str(&mut m, "Saturn FPGA firmware major ");
            push_dec(&mut m, self.firmware_major as u64);
            push_str(&mut m, " is incompatible; expected 1");
            return Err(XdmaError::Incompatible(m));
        }
        Ok(())
    }
}

/// The message for the first compatibility rule an identity breaks.
pub open spec fn identity_message(id: SaturnIdentity) -> Seq<char> {
    match identity_fault(id) {
        Some(0u8) => "XDMA product ID "@ + dec(id.product_id as nat) + " is not Saturn product ID 1"@,
        Some(1u8) => "Saturn software ID "@ + dec(id.software_id as nat)
            + " is neither golden (3) nor primary (4)"@,
        Some(2u8) => "Saturn clock mask is 0x"@ + hex_padded(id.clock_mask as nat, 2)
            + "; expected 0x0f"@,
        _ => "Saturn FPGA firmware major "@ + dec(id.firmware_major as nat)
            + " is incompatible; expected 1"@,
    }
}

/// Exit status of `systemctl is-active p2app.service`: 3 or 4 (inactive or
/// unknown) grants exclusive ownership; 0 (active), any other code, or a
/// signal refuses it.
pub open spec fn p2app_inactive(status: Option<i32>) -> bool {
    status == Some(3i32) || status == Some(4i32)
}

pub fn classify_p2app_status(status_code: Option<i32>) -> (r: Result<(), XdmaError>)
    ensures
        r is Ok <==> p2app_inactive(status_code),
        r matches Err(e) ==> e is Ownership,
        r matches Err(XdmaError::Ownership(m)) ==> m@ == (match status_code {
            Some(0i32) => "p2app.service is active; stop it before running the direct XDMA probe"@,
            Some(code) => "cannot verify exclusive XDMA ownership because systemctl exited with status "@
                + dec_signed(code as int),
            None => "cannot verify exclusive XDMA ownership because systemctl was terminated"@,
        }),
{
    let mut m = String::new();
    match status_code {
        Some(0) => {
            push_str(&mut m, "p2app.service is active; stop it before running the direct XDMA probe");
            Err(XdmaError::Ownership(m))
        },
        Some(3) | Some(4) => Ok(()),
        Some(code) => {
            push_str(&mut m, "cannot verify exclusive XDMA ownership because systemctl exited with status ");
            push_dec_i64(&mut m, code as i64);
            Err(XdmaError::Ownership(m))
        },
        None => {
            push_str(&mut m, "cannot verify exclusive XDMA ownership because systemctl was terminated");
            Err(XdmaError::Ownership(m))
        },
    }
}

/// RF GPIO in receive state: MOX and TX enable cleared, PA relay disabled,
/// every other bit kept.
pub open spec fn safe_rf_gpio_spec(v: u32) -> u32 {
    (v & !(MOX_BIT | TX_ENABLE_BIT)) | TX_RELAY_DISABLE_BIT
}

/// Keyer configuration with the CW keyer disabled, every other bit kept.
pub open spec fn safe_keyer_spec(v: u32) -> u32 {
    v & !CW_KEYER_ENABLE_BIT
}

/// TX configuration with the whole transmit data path disabled.
pub open spec fn safe_tx_config_spec(v: u32) -> u32 {
    v & !UNSAFE_TX_BITS
}

/// Register values of a receive-safe Saturn.
pub open spec fn receive_safe(gpio: u32, keyer: u32, tx: u32) -> bool {
    &&& gpio & (MOX_BIT | TX_ENABLE_BIT) == 0
    &&& gpio & TX_RELAY_DISABLE_BIT != 0
    &&& keyer & CW_KEYER_ENABLE_BIT == 0
    &&& tx & UNSAFE_TX_BITS == 0
}

pub fn safe_rf_gpio(v: u32) -> (r: u32)
    ensures
        r == safe_rf_gpio_spec(v),
{
    (v & !(MOX_BIT | TX_ENABLE_BIT)) | TX_RELAY_DISABLE_BIT
}

pub fn safe_keyer(v: u32) -> (r: u32)
    ensures
        r == safe_keyer_spec(v),
{
    v & !CW_KEYER_ENABLE_BIT
}

pub fn safe_tx_config(v: u32) -> (r: u32)
    ensures
        r == safe_tx_config_spec(v),
{
    v & !UNSAFE_TX_BITS
}

/// A register write is needed only when the value changes.
pub fn register_write_needed(current: u32, next: u32) -> (b: bool)
    ensures
        b == (current != next),
{
    current != next
}

/// The message of a failed receive-safe readback.
pub open spec fn readback_message(gpio: u32, keyer: u32, tx: u32) -> Seq<char> {
    "Saturn receive-safe readback failed: gpio=0x"@ + hex_padded(gpio as nat, 8) + " keyer=0x"@
        + hex_padded(keyer as nat, 8) + " tx=0x"@ + hex_padded(tx as nat, 8)
}

/// Checks the three registers read back after forcing the receive state.
pub fn verify_safe_receive_state(gpio: u32, keyer: u32, tx: u32) -> (r: Result<(), XdmaError>)
    ensures
        r is Ok <==> receive_safe(gpio, keyer, tx),
        r matches Err(e) ==> e is Incompatible,
        r matches Err(XdmaError::Incompatible(m)) ==> m@ == readback_message(gpio, keyer, tx),
{
    if gpio & (MOX_BIT | TX_ENABLE_BIT) != 0 || gpio & TX_RELAY_DISABLE_BIT == 0 || keyer
        & CW_KEYER_ENABLE_BIT != 0 || tx & UNSAFE_TX_BITS != 0 {
        let mut m = String::new();
        push_str(&mut m, "Saturn receive-safe readback failed: gpio=0x");
        push_hex_padded(&mut m, gpio as u64, 8);
        push_str(&mut m, " keyer=0x");
        push_hex_padded(&mut m, keyer as u64, 8);
        push_str(&mut m, " tx=0x");
        push_hex_padded(&mut m, tx as u64, 8);
        return Err(XdmaError::Incompatible(m));
    }
    Ok(())
}

/// The short-transfer I/O error of an XDMA stream.
pub fn short_io_error(action: &str, actual: usize, expected: usize) -> (e: XdmaError)
    ensures
        e matches XdmaError::Io { action: a, detail: d } && a@ == action@ && d@ == "transferred "@
            + dec(actual as nat) + " of "@ + dec(expected as nat) + " bytes"@,
{
    let mut d = String::new();
    push_str(&mut d, "transferred ");
    push_dec(&mut d, actual as u64);
    push_str(&mut d, " of ");
    push_dec(&mut d, expected as u64);
    push_str(&mut d, " bytes");
    XdmaError::Io { action: String::from_str(action), detail: d }
}

} // verus!
