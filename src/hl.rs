use vstd::prelude::*;

pub mod irq;
pub mod lora;
pub mod sequencer;

pub use crate::ll::RampTime;

verus! {

/// Frequency of the crystal that clocks the synthesizer, in Hz.
pub const CRYSTAL_FREQ_HZ: u64 = 52_000_000;

/// Number of synthesizer steps per crystal period (2^18).
pub const PLL_STEPS: u64 = 262_144;

/// The largest frequency, in Hz, whose step count is computed without overflow.
pub const MAX_FREQ_HZ: u64 = 70_368_744_177_663;

/// Number of synthesizer steps for a frequency: `floor(hz * 2^18 / 52 MHz)`.
pub open spec fn pll_steps(hz: int) -> int {
    hz * PLL_STEPS as int / CRYSTAL_FREQ_HZ as int
}

/// The low three bytes of `v` in big-endian order (anything above 24 bits dropped).
pub open spec fn be24(v: int) -> Seq<u8> {
    seq![((v / 65536) % 256) as u8, ((v / 256) % 256) as u8, (v % 256) as u8]
}

/// An RF frequency as the radio takes it: three raw bytes of synthesizer steps.
#[derive(Copy, Clone, PartialEq, Eq, Debug)]
pub struct Frequency {
    raw: [u8; 3],
}

impl View for Frequency {
    type V = Seq<u8>;

    closed spec fn view(&self) -> Seq<u8> {
        self.raw@
    }
}

impl Frequency {
    /// Converts a frequency in Hz into synthesizer steps.
    pub fn new(freq_hz: u64) -> (r: Frequency)
        requires
            freq_hz <= MAX_FREQ_HZ,
        ensures
            r@ == be24(pll_steps(freq_hz as int)),
    {
        assert(freq_hz * PLL_STEPS <= u64::MAX) by (nonlinear_arith)
            requires
                freq_hz <= MAX_FREQ_HZ,
        ;
        let steps: u64 = freq_hz * PLL_STEPS / CRYSTAL_FREQ_HZ;
        let raw: [u8; 3] = [
            ((steps / 65536) % 256) as u8,
            ((steps / 256) % 256) as u8,
            (steps % 256) as u8,
        ];
        proof {
            assert(raw@ =~= be24(pll_steps(freq_hz as int)));
        }
        Frequency { raw }
    }

    /// Takes precomputed synthesizer steps as they are.
    pub fn from_bytes(raw: [u8; 3]) -> (r: Frequency)
        ensures
            r@ == raw@,
    {
        Frequency { raw }
    }

    /// The three bytes of the set-frequency command.
    pub fn as_bytes(&self) -> (r: [u8; 3])
        ensures
            r@ == self@,
    {
        self.raw
    }
}

impl Default for Frequency {
    /// 2.44 GHz, the middle of the band.
    fn default() -> (r: Frequency)
        ensures
            r@ == be24(pll_steps(2_440_000_000)),
    {
        Frequency::new(2_440_000_000)
    }
}

/// Output power and power-amplifier ramp time.
#[derive(Copy, Clone, Default, PartialEq, Eq, Debug)]
pub struct TxParams {
    pub power: u8,
    pub ramp_time: RampTime,
}

} // verus!
