use vstd::prelude::*;

verus! {

/// Interrupt flags of the 16-bit IRQ register.
pub const TX_DONE: u16 = 0x0001;
pub const RX_DONE: u16 = 0x0002;
pub const SYNC_WORD_VALID: u16 = 0x0004;
pub const SYNC_WORD_ERROR: u16 = 0x0008;
pub const HEADER_VALID: u16 = 0x0010;
pub const HEADER_ERROR: u16 = 0x0020;
pub const CRC_ERROR: u16 = 0x0040;
pub const RX_TX_TIMEOUT: u16 = 0x4000;
pub const PREAMBLE_DETECTED: u16 = 0x8000;

/// The flags that end a transmission: done, timed out, or CRC error.
pub const TX_COMPLETION: u16 = 0x4041;

/// The flags that end a reception: done, CRC error, or timed out.
pub const RX_COMPLETION: u16 = 0x4042;

/// No flag.
pub const NONE: u16 = 0x0000;

/// The completion masks are the unions of their flags.
pub proof fn completion_masks()
    ensures
        TX_COMPLETION == TX_DONE | RX_TX_TIMEOUT | CRC_ERROR,
        RX_COMPLETION == RX_DONE | CRC_ERROR | RX_TX_TIMEOUT,
{
    assert(0x4041u16 == 0x0001u16 | 0x4000u16 | 0x0040u16) by (bit_vector);
    assert(0x4042u16 == 0x0002u16 | 0x0040u16 | 0x4000u16) by (bit_vector);
}

} // verus!
