use vstd::prelude::*;

use super::{Frequency, TxParams};

verus! {

/// LoRa spreading factor.
#[derive(Copy, Clone, Default, PartialEq, Eq, Debug)]
pub enum LoRaSpreadingFactor {
    Sf5,
    Sf6,
    Sf7,
    #[default]
    Sf8,
    Sf9,
    Sf10,
    Sf11,
    Sf12,
}

impl LoRaSpreadingFactor {
    /// The wire code of the spreading factor.
    pub open spec fn spec_code(self) -> u8 {
        match self {
            LoRaSpreadingFactor::Sf5 => 0x50,
            LoRaSpreadingFactor::Sf6 => 0x60,
            LoRaSpreadingFactor::Sf7 => 0x70,
            LoRaSpreadingFactor::Sf8 => 0x80,
            LoRaSpreadingFactor::Sf9 => 0x90,
            LoRaSpreadingFactor::Sf10 => 0xA0,
            LoRaSpreadingFactor::Sf11 => 0xB0,
            LoRaSpreadingFactor::Sf12 => 0xC0,
        }
    }

    #[verifier::when_used_as_spec(spec_code)]
    pub fn code(self) -> (r: u8)
        ensures
            r == self.spec_code(),
    {
        match self {
            LoRaSpreadingFactor::Sf5 => 0x50,
            LoRaSpreadingFactor::Sf6 => 0x60,
            LoRaSpreadingFactor::Sf7 => 0x70,
            LoRaSpreadingFactor::Sf8 => 0x80,
            LoRaSpreadingFactor::Sf9 => 0x90,
            LoRaSpreadingFactor::Sf10 => 0xA0,
            LoRaSpreadingFactor::Sf11 => 0xB0,
            LoRaSpreadingFactor::Sf12 => 0xC0,
        }
    }
}

/// LoRa signal bandwidth.
#[derive(Copy, Clone, Default, PartialEq, Eq, Debug)]
pub enum LoRaBandwidth {
    #[default]
    Bw200kHz,
    Bw400kHz,
    Bw800kHz,
    Bw1600kHz,
}

impl LoRaBandwidth {
    /// The wire code of the bandwidth.
    pub open spec fn spec_code(self) -> u8 {
        match self {
            LoRaBandwidth::Bw200kHz => 0x34,
            LoRaBandwidth::Bw400kHz => 0x26,
            LoRaBandwidth::Bw800kHz => 0x18,
            LoRaBandwidth::Bw1600kHz => 0x0A,
        }
    }

    #[verifier::when_used_as_spec(spec_code)]
    pub fn code(self) -> (r: u8)
        ensures
            r == self.spec_code(),
    {
        match self {
            LoRaBandwidth::Bw200kHz => 0x34,
            LoRaBandwidth::Bw400kHz => 0x26,
            LoRaBandwidth::Bw800kHz => 0x18,
            LoRaBandwidth::Bw1600kHz => 0x0A,
        }
    }
}

/// LoRa coding rate, with or without long interleaving.
#[derive(Copy, Clone, Default, PartialEq, Eq, Debug)]
pub enum LoRaCodingRate {
    #[default]
    Cr4_5,
    Cr4_6,
    Cr4_7,
    Cr4_8,
    CrLi4_5,
    CrLi4_6,
    CrLi4_7,
}

impl LoRaCodingRate {
    /// The wire code of the coding rate.
    pub open spec fn spec_code(self) -> u8 {
        match self {
            LoRaCodingRate::Cr4_5 => 0x01,
            LoRaCodingRate::Cr4_6 => 0x02,
            LoRaCodingRate::Cr4_7 => 0x03,
            LoRaCodingRate::Cr4_8 => 0x04,
            LoRaCodingRate::CrLi4_5 => 0x05,
            LoRaCodingRate::CrLi4_6 => 0x06,
            LoRaCodingRate::CrLi4_7 => 0x07,
        }
    }

    #[verifier::when_used_as_spec(spec_code)]
    pub fn code(self) -> (r: u8)
        ensures
            r == self.spec_code(),
    {
        match self {
            LoRaCodingRate::Cr4_5 => 0x01,
            LoRaCodingRate::Cr4_6 => 0x02,
            LoRaCodingRate::Cr4_7 => 0x03,
            LoRaCodingRate::Cr4_8 => 0x04,
            LoRaCodingRate::CrLi4_5 => 0x05,
            LoRaCodingRate::CrLi4_6 => 0x06,
            LoRaCodingRate::CrLi4_7 => 0x07,
        }
    }
}

/// Modulation of a LoRa link.
#[derive(Copy, Clone, Default, PartialEq, Eq, Debug)]
pub struct LoRaModulationParams {
    pub spreading_factor: LoRaSpreadingFactor,
    pub bandwidth: LoRaBandwidth,
    pub coding_rate: LoRaCodingRate,
}

impl LoRaModulationParams {
    /// The three bytes of the set-modulation-params command.
    pub open spec fn spec_bytes(self) -> Seq<u8> {
        seq![self.spreading_factor.spec_code(), self.bandwidth.spec_code(), self.coding_rate.spec_code()]
    }

    /// Encodes the modulation as `[spreading factor, bandwidth, coding rate]`.
    pub fn as_bytes(&self) -> (r: [u8; 3])
        ensures
            r@ == self.spec_bytes(),
    {
        let r: [u8; 3] = [self.spreading_factor.code(), self.bandwidth.code(), self.coding_rate.code()];
        assert(r@ =~= self.spec_bytes());
        r
    }
}

/// Whether the packet carries a CRC.
#[derive(Copy, Clone, Default, PartialEq, Eq, Debug)]
pub enum LoRaCrc {
    #[default]
    Enabled,
    Disabled,
}

impl LoRaCrc {
    /// The wire code of the CRC mode.
    pub open spec fn spec_code(self) -> u8 {
        match self {
            LoRaCrc::Enabled => 0x20,
            LoRaCrc::Disabled => 0x00,
        }
    }

    #[verifier::when_used_as_spec(spec_code)]
    pub fn code(self) -> (r: u8)
        ensures
            r == self.spec_code(),
    {
        match self {
            LoRaCrc::Enabled => 0x20,
            LoRaCrc::Disabled => 0x00,
        }
    }
}

/// Whether the IQ signals are swapped.
#[derive(Copy, Clone, Default, PartialEq, Eq, Debug)]
pub enum LoRaIq {
    #[default]
    Normal,
    Inverted,
}

impl LoRaIq {
    /// The wire code of the IQ mode.
    pub open spec fn spec_code(self) -> u8 {
        match self {
            LoRaIq::Normal => 0x40,
            LoRaIq::Inverted => 0x00,
        }
    }

    #[verifier::when_used_as_spec(spec_code)]
    pub fn code(self) -> (r: u8)
        ensures
            r == self.spec_code(),
    {
        match self {
            LoRaIq::Normal => 0x40,
            LoRaIq::Inverted => 0x00,
        }
    }
}

/// Whether the packet length travels in an explicit header.
#[derive(Copy, Clone, Default, PartialEq, Eq, Debug)]
pub enum LoRaHeader {
    #[default]
    Explicit,
    Implicit,
}

impl LoRaHeader {
    /// The wire code of the header type.
    pub open spec fn spec_code(self) -> u8 {
        match self {
            LoRaHeader::Explicit => 0x00,
            LoRaHeader::Implicit => 0x80,
        }
    }

    #[verifier::when_used_as_spec(spec_code)]
    pub fn code(self) -> (r: u8)
        ensures
            r == self.spec_code(),
    {
        match self {
            LoRaHeader::Explicit => 0x00,
            LoRaHeader::Implicit => 0x80,
        }
    }
}

/// Preamble length as `mantissa * 2^exponent` symbols, four bits each.
#[derive(Copy, Clone, PartialEq, Eq, Debug)]
pub struct LoRaPreambleLength {
    pub mantissa: u8,
    pub exponenta: u8,
}

impl LoRaPreambleLength {
    /// The preamble byte: the mantissa's low nibble below the exponent.
    pub open spec fn spec_value(&self) -> u8 {
        (self.mantissa & 0x0f) | (self.exponenta << 4u8)
    }

    #[verifier::when_used_as_spec(spec_value)]
    pub fn value(&self) -> (r: u8)
        ensures
            r == self.spec_value(),
            r as int == self.mantissa as int % 16 + 16 * (self.exponenta as int % 16),
    {
        let m = self.mantissa;
        let e = self.exponenta;
        let r = (m & 0x0f) | (e << 4u8);
        assert(r as int == m as int % 16 + 16 * (e as int % 16)) by (bit_vector)
            requires
                r == (m & 0x0f) | (e << 4u8),
        ;
        r
    }
}

impl Default for LoRaPreambleLength {
    /// Eight preamble symbols.
    fn default() -> (r: LoRaPreambleLength)
        ensures
            r.mantissa == 1,
            r.exponenta == 3,
    {
        LoRaPreambleLength { mantissa: 1, exponenta: 3 }
    }
}

/// Layout of a LoRa packet.
#[derive(Copy, Clone, Default, PartialEq, Eq, Debug)]
pub struct LoRaPacketParams {
    pub preamble_length: LoRaPreambleLength,
    pub header_type: LoRaHeader,
    pub payload_length: u8,
    pub crc_mode: LoRaCrc,
    pub invert_iq: LoRaIq,
    pub sync_word: u8,
}

impl LoRaPacketParams {
    /// The seven bytes of the set-packet-params command.
    pub open spec fn spec_bytes(self) -> Seq<u8> {
        seq![
            self.preamble_length.spec_value(),
            self.header_type.spec_code(),
            self.payload_length,
            self.crc_mode.spec_code(),
            self.invert_iq.spec_code(),
            0u8,
            0u8,
        ]
    }

    /// Encodes the layout as `[preamble, header, length, crc, iq, 0, 0]`.
    pub fn as_bytes(&self) -> (r: [u8; 7])
        ensures
            r@ == self.spec_bytes(),
    {
        let r: [u8; 7] = [
            self.preamble_length.value(),
            self.header_type.code(),
            self.payload_length,
            self.crc_mode.code(),
            self.invert_iq.code(),
            0x00,
            0x00,
        ];
        assert(r@ =~= self.spec_bytes());
        r
    }
}

/// Everything `configure` programs into the radio.
#[derive(Copy, Clone, Default, PartialEq, Eq, Debug)]
pub struct LoRaModemParams {
    pub frequency: Frequency,
    pub tx_params: TxParams,
    pub modulation_params: LoRaModulationParams,
    pub packet_params: LoRaPacketParams,
}

} // verus!
