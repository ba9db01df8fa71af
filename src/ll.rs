use vstd::prelude::*;

verus! {

/// Ramp time of the power amplifier.
#[derive(Copy, Clone, Default, PartialEq, Eq, Debug)]
pub enum RampTime {
    #[default]
    RadioRamp02Us,
    RadioRamp04Us,
    RadioRamp06Us,
    RadioRamp08Us,
    RadioRamp10Us,
    RadioRamp12Us,
    RadioRamp16Us,
    RadioRamp20Us,
}

impl RampTime {
    /// The wire code of the ramp time.
    pub open spec fn spec_code(self) -> u8 {
        match self {
            RampTime::RadioRamp02Us => 0x00,
            RampTime::RadioRamp04Us => 0x20,
            RampTime::RadioRamp06Us => 0x40,
            RampTime::RadioRamp08Us => 0x60,
            RampTime::RadioRamp10Us => 0x80,
            RampTime::RadioRamp12Us => 0xA0,
            RampTime::RadioRamp16Us => 0xC0,
            RampTime::RadioRamp20Us => 0xE0,
        }
    }

    #[verifier::when_used_as_spec(spec_code)]
    pub fn code(self) -> (r: u8)
        ensures
            r == self.spec_code(),
    {
        match self {
            RampTime::RadioRamp02Us => 0x00,
            RampTime::RadioRamp04Us => 0x20,
            RampTime::RadioRamp06Us => 0x40,
            RampTime::RadioRamp08Us => 0x60,
            RampTime::RadioRamp10Us => 0x80,
            RampTime::RadioRamp12Us => 0xA0,
            RampTime::RadioRamp16Us => 0xC0,
            RampTime::RadioRamp20Us => 0xE0,
        }
    }
}


/// One operation inside a bus transaction, as a mathematical value.
pub ghost enum OpSpec {
    Write(Seq<u8>),
    Read(nat),
}

/// One operation inside a bus transaction: bytes to send, or a number of bytes to receive.
#[derive(Clone, PartialEq, Eq, Debug)]
pub enum Op {
    Write(Vec<u8>),
    Read(usize),
}

impl View for Op {
    type V = OpSpec;

    open spec fn view(&self) -> OpSpec {
        match self {
            Op::Write(b) => OpSpec::Write(b@),
            Op::Read(n) => OpSpec::Read(*n as nat),
        }
    }
}

/// The high byte of a register address.
pub open spec fn addr_hi(addr: u16) -> u8 {
    (addr / 256) as u8
}

/// The low byte of a register address.
pub open spec fn addr_lo(addr: u16) -> u8 {
    (addr % 256) as u8
}

/// Command: the opcode, its input bytes, then `out_len` bytes read back.
pub open spec fn command_spec(opcode: u8, input: Seq<u8>, out_len: nat) -> Seq<OpSpec> {
    seq![OpSpec::Write(seq![opcode]), OpSpec::Write(input), OpSpec::Read(out_len)]
}

/// Register write: `[0x18, addr_hi, addr_lo]`, then the data.
pub open spec fn register_write_spec(addr: u16, data: Seq<u8>) -> Seq<OpSpec> {
    seq![OpSpec::Write(seq![WRITE_REGISTER, addr_hi(addr), addr_lo(addr)]), OpSpec::Write(data)]
}

/// Register read: `[0x19, addr_hi, addr_lo, 0x00]`, then `len` bytes read back.
pub open spec fn register_read_spec(addr: u16, len: nat) -> Seq<OpSpec> {
    seq![OpSpec::Write(seq![READ_REGISTER, addr_hi(addr), addr_lo(addr), 0u8]), OpSpec::Read(len)]
}

/// Buffer write: `[0x1A, offset]`, then the data.
pub open spec fn buffer_write_spec(offset: u8, data: Seq<u8>) -> Seq<OpSpec> {
    seq![OpSpec::Write(seq![WRITE_BUFFER, offset]), OpSpec::Write(data)]
}

/// Buffer read: `[0x1B, offset]`, then `len` bytes read back.
pub open spec fn buffer_read_spec(offset: u8, len: nat) -> Seq<OpSpec> {
    seq![OpSpec::Write(seq![READ_BUFFER, offset]), OpSpec::Read(len)]
}

/// Opcode that frames a register write.
pub const WRITE_REGISTER: u8 = 0x18;
/// Opcode that frames a register read.
pub const READ_REGISTER: u8 = 0x19;
/// Opcode that frames a buffer write.
pub const WRITE_BUFFER: u8 = 0x1A;
/// Opcode that frames a buffer read.
pub const READ_BUFFER: u8 = 0x1B;

/// One SPI transaction: everything between asserting and releasing chip select.
#[derive(Clone, PartialEq, Eq, Debug)]
pub struct Transaction {
    pub ops: Vec<Op>,
}

impl View for Transaction {
    type V = Seq<OpSpec>;

    open spec fn view(&self) -> Seq<OpSpec> {
        self.ops@.map_values(|o: Op| o@)
    }
}

impl Transaction {
    /// Frames a command: opcode, input, and the bytes it answers with.
    pub fn command(opcode: u8, input: Vec<u8>, out_len: usize) -> (r: Transaction)
        ensures
            r@ == command_spec(opcode, input@, out_len as nat),
    {
        let head = vec![opcode];
        assert(head@ =~= seq![opcode]);
        let r = Transaction { ops: vec![Op::Write(head), Op::Write(input), Op::Read(out_len)] };
        assert(r@ =~= command_spec(opcode, input@, out_len as nat));
        r
    }

    /// Frames a write of `data` into the registers from `addr` on.
    pub fn write_register(addr: u16, data: Vec<u8>) -> (r: Transaction)
        ensures
            r@ == register_write_spec(addr, data@),
    {
        let head = vec![WRITE_REGISTER, (addr / 256) as u8, (addr % 256) as u8];
        let r = Transaction { ops: vec![Op::Write(head), Op::Write(data)] };
        assert(r@ =~= register_write_spec(addr, data@));
        r
    }

    /// Frames a read of `len` bytes from the registers from `addr` on.
    pub fn read_register(addr: u16, len: usize) -> (r: Transaction)
        ensures
            r@ == register_read_spec(addr, len as nat),
    {
        let head = vec![READ_REGISTER, (addr / 256) as u8, (addr % 256) as u8, 0x00];
        let r = Transaction { ops: vec![Op::Write(head), Op::Read(len)] };
        assert(r@ =~= register_read_spec(addr, len as nat));
        r
    }

    /// Frames a write of `data` into the data buffer at `offset`.
    pub fn write_buffer(offset: u8, data: Vec<u8>) -> (r: Transaction)
        ensures
            r@ == buffer_write_spec(offset, data@),
    {
        let head = vec![WRITE_BUFFER, offset];
        let r = Transaction { ops: vec![Op::Write(head), Op::Write(data)] };
        assert(r@ =~= buffer_write_spec(offset, data@));
        r
    }

    /// Frames a read of `len` bytes from the data buffer at `offset`.
    pub fn read_buffer(offset: u8, len: usize) -> (r: Transaction)
        ensures
            r@ == buffer_read_spec(offset, len as nat),
    {
        let head = vec![READ_BUFFER, offset];
        let r = Transaction { ops: vec![Op::Write(head), Op::Read(len)] };
        assert(r@ =~= buffer_read_spec(offset, len as nat));
        r
    }
}

/// The two bytes of a 16-bit value, most significant first.
pub open spec fn be16(v: u16) -> Seq<u8> {
    seq![(v / 256) as u8, (v % 256) as u8]
}

/// Opcodes of the radio's commands.
pub const GET_STATUS: u8 = 0xC0;
pub const SET_STANDBY: u8 = 0x80;
pub const SET_SLEEP: u8 = 0x84;
pub const SET_TX: u8 = 0x83;
pub const SET_RX: u8 = 0x82;
pub const SET_RF_FREQUENCY: u8 = 0x86;
pub const CALIBRATE: u8 = 0x89;
pub const SET_PACKET_TYPE: u8 = 0x8A;
pub const SET_MODULATION_PARAMS: u8 = 0x8B;
pub const SET_PACKET_PARAMS: u8 = 0x8C;
pub const SET_DIO_IRQ_PARAMS: u8 = 0x8D;
pub const SET_TX_PARAMS: u8 = 0x8E;
pub const SET_BUFFER_BASE_ADDRESS: u8 = 0x8F;
pub const SET_REGULATOR_MODE: u8 = 0x96;
pub const GET_IRQ_STATUS: u8 = 0x15;
pub const GET_RX_BUFFER_STATUS: u8 = 0x17;
pub const GET_PACKET_STATUS: u8 = 0x1D;
pub const CLR_IRQ_STATUS: u8 = 0x97;

/// Register holding the firmware version (two bytes).
pub const FIRMWARE_VERSIONS: u16 = 0x0153;
/// Register that tunes the modem to the spreading factor in use.
pub const SF_ADDITIONAL_CONFIGURATION: u16 = 0x0925;
/// Register that switches the frequency error correction on.
pub const FREQUENCY_ERROR_CORRECTION: u16 = 0x093C;

/// Calibration enable bits: 64 kHz RC, 13 MHz RC, PLL, ADC pulse, ADC bulk N, ADC bulk P.
pub const CALIBRATE_RC64K: u8 = 0x01;
pub const CALIBRATE_RC13M: u8 = 0x02;
pub const CALIBRATE_PLL: u8 = 0x04;
pub const CALIBRATE_ADC_PULSE: u8 = 0x08;
pub const CALIBRATE_ADC_BULK_N: u8 = 0x10;
pub const CALIBRATE_ADC_BULK_P: u8 = 0x20;

/// The byte that a status-reading command sends while the radio answers.
pub const NOP: u8 = 0x00;

/// Clock that the radio runs on in standby.
#[derive(Copy, Clone, PartialEq, Eq, Debug)]
pub enum StandbyConfig {
    StdbyRc,
    StdbyXosc,
}

/// Modem that the radio uses.
#[derive(Copy, Clone, PartialEq, Eq, Debug)]
pub enum PacketType {
    Gfsk,
    LoRa,
    Ranging,
    Flrc,
    Ble,
}

/// Power regulator of the radio.
#[derive(Copy, Clone, PartialEq, Eq, Debug)]
pub enum RegulatorType {
    Ldo,
    DcDc,
}

impl StandbyConfig {
    pub open spec fn spec_code(self) -> u8 {
        match self {
            StandbyConfig::StdbyRc => 0,
            StandbyConfig::StdbyXosc => 1,
        }
    }
}

impl PacketType {
    pub open spec fn spec_code(self) -> u8 {
        match self {
            PacketType::Gfsk => 0,
            PacketType::LoRa => 1,
            PacketType::Ranging => 2,
            PacketType::Flrc => 3,
            PacketType::Ble => 4,
        }
    }
}

impl RegulatorType {
    pub open spec fn spec_code(self) -> u8 {
        match self {
            RegulatorType::Ldo => 0,
            RegulatorType::DcDc => 1,
        }
    }
}

/// Reads the status byte.
pub fn get_status() -> (r: Transaction)
    ensures
        r@ == command_spec(GET_STATUS, seq![NOP], 1),
{
    let input = vec![NOP];
    assert(input@ =~= seq![NOP]);
    Transaction::command(GET_STATUS, input, 1)
}

/// The sleep configuration byte: bit 0 keeps the data RAM, bit 1 the data buffer.
pub open spec fn sleep_config(data_ram: bool, buffer: bool) -> u8 {
    ((if data_ram { 1int } else { 0 }) + (if buffer { 2int } else { 0 })) as u8
}

/// Puts the radio to sleep, keeping what the flags ask for.
pub fn set_sleep(data_ram_retention: bool, buffer_retention: bool) -> (r: Transaction)
    ensures
        r@ == command_spec(SET_SLEEP, seq![sleep_config(data_ram_retention, buffer_retention)], 0),
{
    let config: u8 = (if data_ram_retention { 1u8 } else { 0u8 }) + (if buffer_retention { 2u8 } else { 0u8 });
    let input = vec![config];
    assert(input@ =~= seq![config]);
    Transaction::command(SET_SLEEP, input, 0)
}

/// Puts the radio in standby on the given clock.
pub fn set_standby(config: StandbyConfig) -> (r: Transaction)
    ensures
        r@ == command_spec(SET_STANDBY, seq![config.spec_code()], 0),
{
    let code: u8 = match config {
        StandbyConfig::StdbyRc => 0,
        StandbyConfig::StdbyXosc => 1,
    };
    let input = vec![code];
    assert(input@ =~= seq![code]);
    Transaction::command(SET_STANDBY, input, 0)
}

/// Selects the modem.
pub fn set_packet_type(packet_type: PacketType) -> (r: Transaction)
    ensures
        r@ == command_spec(SET_PACKET_TYPE, seq![packet_type.spec_code()], 0),
{
    let code: u8 = match packet_type {
        PacketType::Gfsk => 0,
        PacketType::LoRa => 1,
        PacketType::Ranging => 2,
        PacketType::Flrc => 3,
        PacketType::Ble => 4,
    };
    let input = vec![code];
    assert(input@ =~= seq![code]);
    Transaction::command(SET_PACKET_TYPE, input, 0)
}

/// Selects the power regulator.
pub fn set_regulator_mode(regulator: RegulatorType) -> (r: Transaction)
    ensures
        r@ == command_spec(SET_REGULATOR_MODE, seq![regulator.spec_code()], 0),
{
    let code: u8 = match regulator {
        RegulatorType::Ldo => 0,
        RegulatorType::DcDc => 1,
    };
    let input = vec![code];
    assert(input@ =~= seq![code]);
    Transaction::command(SET_REGULATOR_MODE, input, 0)
}

/// Sets the RF frequency from its three bytes of synthesizer steps.
pub fn set_rf_frequency(steps: [u8; 3]) -> (r: Transaction)
    ensures
        r@ == command_spec(SET_RF_FREQUENCY, steps@, 0),
{
    let input = vec![steps[0], steps[1], steps[2]];
    assert(input@ =~= steps@);
    Transaction::command(SET_RF_FREQUENCY, input, 0)
}

/// Sets the three modulation parameters.
pub fn set_modulation_params(params: [u8; 3]) -> (r: Transaction)
    ensures
        r@ == command_spec(SET_MODULATION_PARAMS, params@, 0),
{
    let input = vec![params[0], params[1], params[2]];
    assert(input@ =~= params@);
    Transaction::command(SET_MODULATION_PARAMS, input, 0)
}

/// Sets the seven packet parameters.
pub fn set_packet_params(params: [u8; 7]) -> (r: Transaction)
    ensures
        r@ == command_spec(SET_PACKET_PARAMS, params@, 0),
{
    let input = vec![params[0], params[1], params[2], params[3], params[4], params[5], params[6]];
    assert(input@ =~= params@);
    Transaction::command(SET_PACKET_PARAMS, input, 0)
}

/// Sets the output power and the ramp time.
pub fn set_tx_params(power: u8, ramp_time: RampTime) -> (r: Transaction)
    ensures
        r@ == command_spec(SET_TX_PARAMS, seq![power, ramp_time.spec_code()], 0),
{
    Transaction::command(SET_TX_PARAMS, vec![power, ramp_time.code()], 0)
}

/// Calibrates the blocks whose enable bits are set.
pub fn calibrate(enable: u8) -> (r: Transaction)
    ensures
        r@ == command_spec(CALIBRATE, seq![enable], 0),
{
    let input = vec![enable];
    assert(input@ =~= seq![enable]);
    Transaction::command(CALIBRATE, input, 0)
}

/// Sets where transmitted and received payloads start in the data buffer.
pub fn set_buffer_base_address(tx_base: u8, rx_base: u8) -> (r: Transaction)
    ensures
        r@ == command_spec(SET_BUFFER_BASE_ADDRESS, seq![tx_base, rx_base], 0),
{
    Transaction::command(SET_BUFFER_BASE_ADDRESS, vec![tx_base, rx_base], 0)
}

/// Enables interrupts and routes them to the three DIO lines.
pub fn set_dio_irq_params(irq: u16, dio1: u16, dio2: u16, dio3: u16) -> (r: Transaction)
    ensures
        r@ == command_spec(SET_DIO_IRQ_PARAMS, be16(irq) + be16(dio1) + be16(dio2) + be16(dio3), 0),
{
    let input = vec![
        (irq / 256) as u8, (irq % 256) as u8,
        (dio1 / 256) as u8, (dio1 % 256) as u8,
        (dio2 / 256) as u8, (dio2 % 256) as u8,
        (dio3 / 256) as u8, (dio3 % 256) as u8,
    ];
    assert(input@ =~= be16(irq) + be16(dio1) + be16(dio2) + be16(dio3));
    Transaction::command(SET_DIO_IRQ_PARAMS, input, 0)
}

/// Starts a transmission with the given timeout (a count of 0 means single shot).
pub fn set_tx(period_base: u8, count: u16) -> (r: Transaction)
    ensures
        r@ == command_spec(SET_TX, seq![period_base] + be16(count), 0),
{
    let input = vec![period_base, (count / 256) as u8, (count % 256) as u8];
    assert(input@ =~= seq![period_base] + be16(count));
    Transaction::command(SET_TX, input, 0)
}

/// Starts a reception with the given timeout (0 single shot, 0xFFFF continuous).
pub fn set_rx(period_base: u8, count: u16) -> (r: Transaction)
    ensures
        r@ == command_spec(SET_RX, seq![period_base] + be16(count), 0),
{
    let input = vec![period_base, (count / 256) as u8, (count % 256) as u8];
    assert(input@ =~= seq![period_base] + be16(count));
    Transaction::command(SET_RX, input, 0)
}

/// Reads the two bytes of pending interrupt flags.
pub fn get_irq_status() -> (r: Transaction)
    ensures
        r@ == command_spec(GET_IRQ_STATUS, seq![NOP], 2),
{
    let input = vec![NOP];
    assert(input@ =~= seq![NOP]);
    Transaction::command(GET_IRQ_STATUS, input, 2)
}

/// Clears the interrupt flags given as two bytes, most significant first.
pub fn clr_irq_status(flags: Vec<u8>) -> (r: Transaction)
    ensures
        r@ == command_spec(CLR_IRQ_STATUS, flags@, 0),
{
    Transaction::command(CLR_IRQ_STATUS, flags, 0)
}

/// Reads the five bytes of the last packet's status (signal strength, SNR).
pub fn get_packet_status() -> (r: Transaction)
    ensures
        r@ == command_spec(GET_PACKET_STATUS, seq![NOP], 5),
{
    let input = vec![NOP];
    assert(input@ =~= seq![NOP]);
    Transaction::command(GET_PACKET_STATUS, input, 5)
}

/// Reads the length and the start offset of the received payload.
pub fn get_rx_buffer_status() -> (r: Transaction)
    ensures
        r@ == command_spec(GET_RX_BUFFER_STATUS, seq![NOP], 2),
{
    let input = vec![NOP];
    assert(input@ =~= seq![NOP]);
    Transaction::command(GET_RX_BUFFER_STATUS, input, 2)
}

/// Operating mode of the radio, as the status byte reports it.
#[derive(Copy, Clone, PartialEq, Eq, Debug)]
pub enum CircuitMode {
    StdbyRc,
    StdbyXosc,
    Fs,
    Rx,
    Tx,
}

/// The status byte that the radio answers with.
#[derive(Copy, Clone, PartialEq, Eq, Debug)]
pub struct Status {
    pub raw: u8,
}

/// The circuit mode named by the three top bits of a status byte, if any.
pub open spec fn circuit_mode_of(raw: u8) -> Option<CircuitMode> {
    let m = raw / 32;
    if m == 2 {
        Some(CircuitMode::StdbyRc)
    } else if m == 3 {
        Some(CircuitMode::StdbyXosc)
    } else if m == 4 {
        Some(CircuitMode::Fs)
    } else if m == 5 {
        Some(CircuitMode::Rx)
    } else if m == 6 {
        Some(CircuitMode::Tx)
    } else {
        None
    }
}

impl Status {
    /// Decodes the circuit mode; `None` for a code that names no mode.
    pub fn circuit_mode(&self) -> (r: Option<CircuitMode>)
        ensures
            r == circuit_mode_of(self.raw),
    {
        let m = self.raw / 32;
        if m == 2 {
            Some(CircuitMode::StdbyRc)
        } else if m == 3 {
            Some(CircuitMode::StdbyXosc)
        } else if m == 4 {
            Some(CircuitMode::Fs)
        } else if m == 5 {
            Some(CircuitMode::Rx)
        } else if m == 6 {
            Some(CircuitMode::Tx)
        } else {
            None
        }
    }
}

/// The bus and the busy line of one radio, owned together.
pub struct Interface<SPI, BUSY> {
    spi: SPI,
    busy: BUSY,
}

impl<SPI, BUSY> Interface<SPI, BUSY> {
    pub closed spec fn spec_spi(&self) -> SPI {
        self.spi
    }

    pub closed spec fn spec_busy(&self) -> BUSY {
        self.busy
    }

    pub fn new(spi: SPI, busy: BUSY) -> (r: Self)
        ensures
            r.spec_spi() == spi,
            r.spec_busy() == busy,
    {
        Interface { spi, busy }
    }

    /// Gives the bus and the busy line back.
    pub fn take(self) -> (r: (SPI, BUSY))
        ensures
            r == (self.spec_spi(), self.spec_busy()),
    {
        (self.spi, self.busy)
    }

    /// The bus, to run a transaction on.
    pub fn spi_mut(&mut self) -> (r: &mut SPI)
        ensures
            *r == old(self).spec_spi(),
            final(self).spec_spi() == *final(r),
            final(self).spec_busy() == old(self).spec_busy(),
    {
        &mut self.spi
    }

    /// The busy line, to wait on.
    pub fn busy_mut(&mut self) -> (r: &mut BUSY)
        ensures
            *r == old(self).spec_busy(),
            final(self).spec_busy() == *final(r),
            final(self).spec_spi() == old(self).spec_spi(),
    {
        &mut self.busy
    }
}

} // verus!
