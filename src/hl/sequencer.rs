use vstd::prelude::*;

use crate::hl::irq::{NONE, RX_COMPLETION, TX_COMPLETION};
use crate::hl::lora::{LoRaModemParams, LoRaSpreadingFactor};
use crate::ll::{
    calibrate, get_irq_status, get_packet_status, get_rx_buffer_status, get_status,
    set_buffer_base_address, set_dio_irq_params, set_modulation_params, set_packet_params,
    set_packet_type, set_rf_frequency, set_rx, set_standby, set_tx, set_tx_params,
    be16, buffer_read_spec, buffer_write_spec, clr_irq_status, command_spec, register_read_spec,
    register_write_spec, Op, OpSpec, PacketType, StandbyConfig, Transaction, CALIBRATE,
    CALIBRATE_ADC_BULK_N, CALIBRATE_ADC_BULK_P, CALIBRATE_ADC_PULSE, CALIBRATE_PLL,
    CALIBRATE_RC13M, CALIBRATE_RC64K, CLR_IRQ_STATUS, FREQUENCY_ERROR_CORRECTION,
    GET_IRQ_STATUS, GET_PACKET_STATUS, GET_RX_BUFFER_STATUS, GET_STATUS, NOP,
    SET_BUFFER_BASE_ADDRESS, SET_DIO_IRQ_PARAMS, SET_MODULATION_PARAMS, SET_PACKET_PARAMS,
    SET_PACKET_TYPE, SET_RF_FREQUENCY, SET_RX, SET_STANDBY, SET_TX, SET_TX_PARAMS,
    SF_ADDITIONAL_CONFIGURATION,
};

verus! {

/// One step of a procedure, as a mathematical value.
pub ghost enum StepSpec {
    /// A transaction fixed in advance.
    Bus(Seq<OpSpec>),
    /// Suspend until the interrupt line goes high.
    AwaitInterrupt,
    /// Clear exactly the interrupt flags read back by the given earlier step.
    EchoIrq(nat),
    /// Read the payload whose length and offset the given earlier step read back.
    FetchPayload(nat),
}

/// One step of a procedure.
pub enum Step {
    Bus(Transaction),
    AwaitInterrupt,
    EchoIrq(usize),
    FetchPayload(usize),
}

impl View for Step {
    type V = StepSpec;

    open spec fn view(&self) -> StepSpec {
        match self {
            Step::Bus(t) => StepSpec::Bus(t@),
            Step::AwaitInterrupt => StepSpec::AwaitInterrupt,
            Step::EchoIrq(k) => StepSpec::EchoIrq(*k as nat),
            Step::FetchPayload(k) => StepSpec::FetchPayload(*k as nat),
        }
    }
}

/// What the sequencer asks its caller to do next, as a mathematical value.
pub ghost enum ActionSpec {
    Transact(Seq<OpSpec>),
    AwaitInterrupt,
    Finish,
    Abort,
}

/// What the sequencer asks its caller to do next.
#[derive(Debug)]
pub enum Action {
    /// Wait for the busy line to go low, run the transaction, wait again.
    Transact(Transaction),
    /// Suspend until the interrupt line goes high.
    AwaitInterrupt,
    /// The procedure is complete.
    Finish,
    /// A bus call failed: report its error.
    Abort,
}

impl View for Action {
    type V = ActionSpec;

    open spec fn view(&self) -> ActionSpec {
        match self {
            Action::Transact(t) => ActionSpec::Transact(t@),
            Action::AwaitInterrupt => ActionSpec::AwaitInterrupt,
            Action::Finish => ActionSpec::Finish,
            Action::Abort => ActionSpec::Abort,
        }
    }
}

/// How the last action went, as a mathematical value.
pub ghost enum OutcomeSpec {
    Completed(Seq<u8>),
    Failed,
}

/// How the last action went: done, with the bytes its read operations
/// received (none for a write-only transaction or for the interrupt wait);
/// or a bus failure.
pub enum Outcome {
    Completed(Vec<u8>),
    Failed,
}

impl View for Outcome {
    type V = OutcomeSpec;

    open spec fn view(&self) -> OutcomeSpec {
        match self {
            Outcome::Completed(r) => OutcomeSpec::Completed(r@),
            Outcome::Failed => OutcomeSpec::Failed,
        }
    }
}

/// The state of a running procedure: its steps, the bytes read by each step
/// done so far (one entry per step), and whether a bus call failed.
pub ghost struct SequencerView {
    pub steps: Seq<StepSpec>,
    pub reads: Seq<Seq<u8>>,
    pub aborted: bool,
}

/// The bytes read by step `k`, or nothing where step `k` has not run.
pub open spec fn read_at(reads: Seq<Seq<u8>>, k: nat) -> Seq<u8> {
    if k < reads.len() {
        reads[k as int]
    } else {
        seq![]
    }
}

/// Byte `i` of `s`, or zero past its end.
pub open spec fn byte_at(s: Seq<u8>, i: int) -> u8 {
    if 0 <= i < s.len() {
        s[i]
    } else {
        0
    }
}

/// The action that a step stands for, given what earlier steps read.
pub open spec fn resolve(step: StepSpec, reads: Seq<Seq<u8>>) -> ActionSpec {
    match step {
        StepSpec::Bus(t) => ActionSpec::Transact(t),
        StepSpec::AwaitInterrupt => ActionSpec::AwaitInterrupt,
        StepSpec::EchoIrq(k) => ActionSpec::Transact(
            command_spec(CLR_IRQ_STATUS, read_at(reads, k), 0),
        ),
        StepSpec::FetchPayload(k) => ActionSpec::Transact(
            buffer_read_spec(byte_at(read_at(reads, k), 1), byte_at(read_at(reads, k), 0) as nat),
        ),
    }
}

/// The action asked for in a state: abort after a failure, finish after the
/// last step, else the next step.
pub open spec fn action_of(v: SequencerView) -> ActionSpec {
    if v.aborted {
        ActionSpec::Abort
    } else if v.reads.len() >= v.steps.len() {
        ActionSpec::Finish
    } else {
        resolve(v.steps[v.reads.len() as int], v.reads)
    }
}

/// The state after the outcome of the action asked for; a finished or
/// aborted procedure stays as it is.
pub open spec fn resume_spec(v: SequencerView, o: OutcomeSpec) -> SequencerView {
    if v.aborted || v.reads.len() >= v.steps.len() {
        v
    } else {
        match o {
            OutcomeSpec::Completed(r) => SequencerView { reads: v.reads.push(r), ..v },
            OutcomeSpec::Failed => SequencerView { aborted: true, ..v },
        }
    }
}

/// The state after a series of outcomes, in order.
pub open spec fn run(v: SequencerView, o: Seq<OutcomeSpec>) -> SequencerView
    decreases o.len(),
{
    if o.len() == 0 {
        v
    } else {
        resume_spec(run(v, o.drop_last()), o.last())
    }
}

/// A procedure that has not begun.
pub open spec fn start(steps: Seq<StepSpec>) -> SequencerView {
    SequencerView { steps, reads: seq![], aborted: false }
}

/// The value of the spreading-factor register for a spreading factor.
pub open spec fn fec_code(sf: LoRaSpreadingFactor) -> u8 {
    match sf {
        LoRaSpreadingFactor::Sf5 | LoRaSpreadingFactor::Sf6 => 0x1E,
        LoRaSpreadingFactor::Sf7 | LoRaSpreadingFactor::Sf8 => 0x37,
        _ => 0x32,
    }
}

/// Picks the spreading-factor register value.
fn fec_for(sf: LoRaSpreadingFactor) -> (r: u8)
    ensures
        r == fec_code(sf),
{
    match sf {
        LoRaSpreadingFactor::Sf5 | LoRaSpreadingFactor::Sf6 => 0x1E,
        LoRaSpreadingFactor::Sf7 | LoRaSpreadingFactor::Sf8 => 0x37,
        _ => 0x32,
    }
}

/// Value that switches the frequency error correction on.
pub const FREQUENCY_ERROR_CORRECTION_ON: u8 = 0x01;

/// All six calibration enable bits.
pub const CALIBRATE_ALL: u8 = 0x3F;

/// Calibrating with `CALIBRATE_ALL` enables each of the six blocks.
pub proof fn calibrate_all_bits()
    ensures
        CALIBRATE_ALL == CALIBRATE_RC64K | CALIBRATE_RC13M | CALIBRATE_PLL | CALIBRATE_ADC_PULSE
            | CALIBRATE_ADC_BULK_N | CALIBRATE_ADC_BULK_P,
{
    assert(0x3Fu8 == 0x01u8 | 0x02u8 | 0x04u8 | 0x08u8 | 0x10u8 | 0x20u8) by (bit_vector);
}

/// Timeout base of a transmission or reception (15.625 us).
pub const PERIOD_BASE_15_US: u8 = 0x00;

/// Timeout count of a single-shot transmission or reception.
pub const SINGLE_MODE: u16 = 0x0000;

/// Timeout count of a continuous reception.
pub const CONTINUOUS_MODE: u16 = 0xFFFF;

/// Index of the step of `receive` that reads the payload.
pub const RECEIVED_PAYLOAD: usize = 6;

/// Index of the step of `receive` that reads the signal strength and SNR.
pub const RECEIVED_PACKET_STATUS: usize = 4;

/// Configuration: standby on the RC clock, frequency, LoRa modem, modulation
/// with the spreading-factor and error-correction registers, packet layout,
/// output power.
pub open spec fn configure_steps(m: LoRaModemParams) -> Seq<StepSpec> {
    seq![
        StepSpec::Bus(command_spec(SET_STANDBY, seq![StandbyConfig::StdbyRc.spec_code()], 0)),
        StepSpec::Bus(command_spec(SET_RF_FREQUENCY, m.frequency@, 0)),
        StepSpec::Bus(command_spec(SET_PACKET_TYPE, seq![PacketType::LoRa.spec_code()], 0)),
        StepSpec::Bus(command_spec(SET_MODULATION_PARAMS, m.modulation_params.spec_bytes(), 0)),
        StepSpec::Bus(register_read_spec(SF_ADDITIONAL_CONFIGURATION, 1)),
        StepSpec::Bus(register_write_spec(SF_ADDITIONAL_CONFIGURATION, seq![fec_code(m.modulation_params.spreading_factor)])),
        StepSpec::Bus(register_write_spec(FREQUENCY_ERROR_CORRECTION, seq![FREQUENCY_ERROR_CORRECTION_ON])),
        StepSpec::Bus(command_spec(SET_PACKET_PARAMS, m.packet_params.spec_bytes(), 0)),
        StepSpec::Bus(command_spec(SET_TX_PARAMS, seq![m.tx_params.power, m.tx_params.ramp_time.spec_code()], 0)),
    ]
}

/// Calibration of all six blocks in one command.
pub open spec fn calibrate_steps() -> Seq<StepSpec> {
    seq![StepSpec::Bus(command_spec(CALIBRATE, seq![CALIBRATE_ALL], 0))]
}

/// Transmission of `payload`: buffer base addresses, payload, status,
/// interrupt routing, transmit, status, wait, interrupt flags, clear them.
pub open spec fn send_steps(payload: Seq<u8>) -> Seq<StepSpec> {
    seq![
        StepSpec::Bus(command_spec(SET_BUFFER_BASE_ADDRESS, seq![0u8, 0u8], 0)),
        StepSpec::Bus(buffer_write_spec(0, payload)),
        StepSpec::Bus(command_spec(GET_STATUS, seq![NOP], 1)),
        StepSpec::Bus(command_spec(SET_DIO_IRQ_PARAMS, be16(TX_COMPLETION) + be16(TX_COMPLETION) + be16(NONE) + be16(NONE), 0)),
        StepSpec::Bus(command_spec(SET_TX, seq![PERIOD_BASE_15_US] + be16(SINGLE_MODE), 0)),
        StepSpec::Bus(command_spec(GET_STATUS, seq![NOP], 1)),
        StepSpec::AwaitInterrupt,
        StepSpec::Bus(command_spec(GET_IRQ_STATUS, seq![NOP], 2)),
        StepSpec::EchoIrq(7),
    ]
}

/// Reception: interrupt routing, receive, wait, interrupt flags, packet
/// status, buffer status, payload, clear the flags.
pub open spec fn receive_steps(continuous: bool) -> Seq<StepSpec> {
    seq![
        StepSpec::Bus(command_spec(SET_DIO_IRQ_PARAMS, be16(RX_COMPLETION) + be16(RX_COMPLETION) + be16(NONE) + be16(NONE), 0)),
        StepSpec::Bus(command_spec(SET_RX, seq![PERIOD_BASE_15_US] + be16(if continuous { CONTINUOUS_MODE } else { SINGLE_MODE }), 0)),
        StepSpec::AwaitInterrupt,
        StepSpec::Bus(command_spec(GET_IRQ_STATUS, seq![NOP], 2)),
        StepSpec::Bus(command_spec(GET_PACKET_STATUS, seq![NOP], 5)),
        StepSpec::Bus(command_spec(GET_RX_BUFFER_STATUS, seq![NOP], 2)),
        StepSpec::FetchPayload(5),
        StepSpec::EchoIrq(3),
    ]
}

/// Every outcome in the series is a completion.
pub open spec fn all_completed(o: Seq<OutcomeSpec>) -> bool {
    forall|i: int| 0 <= i < o.len() ==> #[trigger] o[i] is Completed
}

/// Some outcome in the series is a bus failure.
pub open spec fn some_failed(o: Seq<OutcomeSpec>) -> bool {
    exists|i: int| 0 <= i < o.len() && #[trigger] o[i] is Failed
}

/// The bytes that an outcome carries.
pub open spec fn read_of(o: OutcomeSpec) -> Seq<u8> {
    match o {
        OutcomeSpec::Completed(r) => r,
        OutcomeSpec::Failed => seq![],
    }
}

/// The bytes that each outcome of a series carries.
pub open spec fn reads_of(o: Seq<OutcomeSpec>) -> Seq<Seq<u8>> {
    o.map_values(|x: OutcomeSpec| read_of(x))
}

/// The actions of a transmission, in order, when every bus call succeeds and
/// the interrupt flags read back are `irq`.
pub open spec fn send_plan(payload: Seq<u8>, irq: Seq<u8>) -> Seq<ActionSpec> {
    seq![
        ActionSpec::Transact(command_spec(SET_BUFFER_BASE_ADDRESS, seq![0u8, 0u8], 0)),
        ActionSpec::Transact(buffer_write_spec(0, payload)),
        ActionSpec::Transact(command_spec(GET_STATUS, seq![NOP], 1)),
        ActionSpec::Transact(command_spec(SET_DIO_IRQ_PARAMS, be16(TX_COMPLETION) + be16(TX_COMPLETION) + be16(NONE) + be16(NONE), 0)),
        ActionSpec::Transact(command_spec(SET_TX, seq![PERIOD_BASE_15_US] + be16(SINGLE_MODE), 0)),
        ActionSpec::Transact(command_spec(GET_STATUS, seq![NOP], 1)),
        ActionSpec::AwaitInterrupt,
        ActionSpec::Transact(command_spec(GET_IRQ_STATUS, seq![NOP], 2)),
        ActionSpec::Transact(command_spec(CLR_IRQ_STATUS, irq, 0)),
        ActionSpec::Finish,
    ]
}

proof fn lemma_run_completed(steps: Seq<StepSpec>, o: Seq<OutcomeSpec>)
    requires
        all_completed(o),
        o.len() <= steps.len(),
    ensures
        run(start(steps), o) == (SequencerView { steps, reads: reads_of(o), aborted: false }),
    decreases o.len(),
{
    if o.len() == 0 {
        assert(reads_of(o) =~= Seq::<Seq<u8>>::empty());
    } else {
        let prefix = o.drop_last();
        assert forall|i: int| 0 <= i < prefix.len() implies #[trigger] prefix[i] is Completed by {
            assert(o[i] is Completed);
        }
        lemma_run_completed(steps, prefix);
        assert(o[o.len() - 1] is Completed);
        assert(reads_of(prefix).push(read_of(o.last())) =~= reads_of(o));
    }
}

/// A bus failure ends a procedure: once an outcome is a failure, the
/// sequencer asks for nothing but `Abort`, so no later step is issued.
pub proof fn failure_aborts(steps: Seq<StepSpec>, o: Seq<OutcomeSpec>)
    requires
        o.len() <= steps.len(),
        some_failed(o),
    ensures
        run(start(steps), o).aborted,
        action_of(run(start(steps), o)) == ActionSpec::Abort,
    decreases o.len(),
{
    let prefix = o.drop_last();
    if some_failed(prefix) {
        failure_aborts(steps, prefix);
    } else {
        assert forall|i: int| 0 <= i < prefix.len() implies #[trigger] prefix[i] is Completed by {
            if prefix[i] is Failed {
                assert(some_failed(prefix));
            }
        }
        lemma_run_completed(steps, prefix);
        let k = choose|i: int| 0 <= i < o.len() && #[trigger] o[i] is Failed;
        if k < o.len() - 1 {
            assert(prefix[k] is Failed);
        }
        assert(o.last() is Failed);
    }
}

/// A transmission issues, in this order and nothing else: buffer base
/// addresses, the payload, a status read, the interrupt routing, transmit,
/// a status read, the wait for the interrupt line, the interrupt flags read,
/// and a clear of exactly the flags read; and after a failed bus call it
/// issues nothing more.
pub proof fn send_protocol(payload: Seq<u8>, o: Seq<OutcomeSpec>)
    requires
        o.len() <= send_steps(payload).len(),
    ensures
        all_completed(o) ==> action_of(run(start(send_steps(payload)), o))
            == send_plan(payload, read_at(reads_of(o), 7))[o.len() as int],
        some_failed(o) ==> action_of(run(start(send_steps(payload)), o)) == ActionSpec::Abort,
{
    if some_failed(o) {
        failure_aborts(send_steps(payload), o);
    }
    if all_completed(o) {
        lemma_run_completed(send_steps(payload), o);
    }
}

/// Configuring twice with the same parameters issues byte-identical
/// transactions, whatever the radio answers to the reads among them.
pub proof fn configure_repeatable(modem: LoRaModemParams, o1: Seq<OutcomeSpec>, o2: Seq<OutcomeSpec>)
    requires
        all_completed(o1),
        all_completed(o2),
        o1.len() == o2.len(),
        o1.len() <= configure_steps(modem).len(),
    ensures
        action_of(run(start(configure_steps(modem)), o1))
            == action_of(run(start(configure_steps(modem)), o2)),
{
    lemma_run_completed(configure_steps(modem), o1);
    lemma_run_completed(configure_steps(modem), o2);
}

/// A procedure in progress, stepped by its caller: ask for the `action`,
/// perform it, and `resume` with its outcome.
pub struct Sequencer {
    steps: Vec<Step>,
    reads: Vec<Vec<u8>>,
    aborted: bool,
}

impl View for Sequencer {
    type V = SequencerView;

    closed spec fn view(&self) -> SequencerView {
        SequencerView {
            steps: self.steps@.map_values(|s: Step| s@),
            reads: self.reads@.map_values(|r: Vec<u8>| r@),
            aborted: self.aborted,
        }
    }
}

fn copy_bytes(v: &Vec<u8>) -> (r: Vec<u8>)
    ensures
        r@ == v@,
{
    let mut r: Vec<u8> = Vec::new();
    let mut i: usize = 0;
    while i < v.len()
        invariant
            i <= v.len(),
            r@ == v@.take(i as int),
        decreases v.len() - i,
    {
        r.push(v[i]);
        i = i + 1;
        assert(r@ =~= v@.take(i as int));
    }
    assert(v@.take(i as int) =~= v@);
    r
}

fn copy_transaction(t: &Transaction) -> (r: Transaction)
    ensures
        r@ == t@,
{
    let mut ops: Vec<Op> = Vec::new();
    let mut i: usize = 0;
    while i < t.ops.len()
        invariant
            i <= t.ops.len(),
            ops@.len() == i,
            forall|j: int| 0 <= j < i ==> #[trigger] ops@[j]@ == t.ops@[j]@,
        decreases t.ops.len() - i,
    {
        let op = match &t.ops[i] {
            Op::Write(b) => Op::Write(copy_bytes(b)),
            Op::Read(n) => Op::Read(*n),
        };
        ops.push(op);
        i = i + 1;
    }
    let r = Transaction { ops };
    assert(r@ =~= t@);
    r
}

impl Sequencer {
    fn from_steps(steps: Vec<Step>) -> (r: Sequencer)
        ensures
            r@ == start(steps@.map_values(|s: Step| s@)),
    {
        let r = Sequencer { steps, reads: Vec::new(), aborted: false };
        assert(r@.reads =~= Seq::<Seq<u8>>::empty());
        r
    }

    /// Configures the radio for LoRa with the given parameters.
    pub fn configure(modem: &LoRaModemParams) -> (r: Sequencer)
        ensures
            r@ == start(configure_steps(*modem)),
    {
        let fec = fec_for(modem.modulation_params.spreading_factor);
        let fec_value = vec![fec];
        assert(fec_value@ =~= seq![fec]);
        let correction = vec![FREQUENCY_ERROR_CORRECTION_ON];
        assert(correction@ =~= seq![FREQUENCY_ERROR_CORRECTION_ON]);
        let steps = vec![
            Step::Bus(set_standby(StandbyConfig::StdbyRc)),
            Step::Bus(set_rf_frequency(modem.frequency.as_bytes())),
            Step::Bus(set_packet_type(PacketType::LoRa)),
            Step::Bus(set_modulation_params(modem.modulation_params.as_bytes())),
            Step::Bus(Transaction::read_register(SF_ADDITIONAL_CONFIGURATION, 1)),
            Step::Bus(Transaction::write_register(SF_ADDITIONAL_CONFIGURATION, fec_value)),
            Step::Bus(Transaction::write_register(FREQUENCY_ERROR_CORRECTION, correction)),
            Step::Bus(set_packet_params(modem.packet_params.as_bytes())),
            Step::Bus(set_tx_params(modem.tx_params.power, modem.tx_params.ramp_time)),
        ];
        assert(steps@.map_values(|s: Step| s@) =~= configure_steps(*modem));
        Sequencer::from_steps(steps)
    }

    /// Calibrates all six blocks: both RC oscillators, the PLL and the three ADC stages.
    pub fn calibrate() -> (r: Sequencer)
        ensures
            r@ == start(calibrate_steps()),
    {
        let all = CALIBRATE_RC64K | CALIBRATE_RC13M | CALIBRATE_PLL | CALIBRATE_ADC_PULSE
            | CALIBRATE_ADC_BULK_N | CALIBRATE_ADC_BULK_P;
        proof {
            calibrate_all_bits();
        }
        let steps = vec![Step::Bus(calibrate(all))];
        assert(steps@.map_values(|s: Step| s@) =~= calibrate_steps());
        Sequencer::from_steps(steps)
    }

    /// Transmits `payload` once and waits for the radio to report completion.
    pub fn send(payload: Vec<u8>) -> (r: Sequencer)
        ensures
            r@ == start(send_steps(payload@)),
    {
        let steps = vec![
            Step::Bus(set_buffer_base_address(0, 0)),
            Step::Bus(Transaction::write_buffer(0, payload)),
            Step::Bus(get_status()),
            Step::Bus(set_dio_irq_params(TX_COMPLETION, TX_COMPLETION, NONE, NONE)),
            Step::Bus(set_tx(PERIOD_BASE_15_US, SINGLE_MODE)),
            Step::Bus(get_status()),
            Step::AwaitInterrupt,
            Step::Bus(get_irq_status()),
            Step::EchoIrq(7),
        ];
        assert(steps@.map_values(|s: Step| s@) =~= send_steps(payload@));
        Sequencer::from_steps(steps)
    }

    /// Receives one packet, once or continuously armed, and reads its payload.
    pub fn receive(continuous: bool) -> (r: Sequencer)
        ensures
            r@ == start(receive_steps(continuous)),
    {
        let count = if continuous { CONTINUOUS_MODE } else { SINGLE_MODE };
        let steps = vec![
            Step::Bus(set_dio_irq_params(RX_COMPLETION, RX_COMPLETION, NONE, NONE)),
            Step::Bus(set_rx(PERIOD_BASE_15_US, count)),
            Step::AwaitInterrupt,
            Step::Bus(get_irq_status()),
            Step::Bus(get_packet_status()),
            Step::Bus(get_rx_buffer_status()),
            Step::FetchPayload(5),
            Step::EchoIrq(3),
        ];
        assert(steps@.map_values(|s: Step| s@) =~= receive_steps(continuous));
        Sequencer::from_steps(steps)
    }

    /// The bytes read by step `k`; empty where it has not run.
    pub fn read(&self, k: usize) -> (r: Vec<u8>)
        ensures
            r@ == read_at(self@.reads, k as nat),
    {
        if k < self.reads.len() {
            copy_bytes(&self.reads[k])
        } else {
            Vec::new()
        }
    }

    /// What to do next.
    pub fn action(&self) -> (r: Action)
        ensures
            r@ == action_of(self@),
    {
        if self.aborted {
            return Action::Abort;
        }
        let n = self.reads.len();
        if n >= self.steps.len() {
            return Action::Finish;
        }
        match &self.steps[n] {
            Step::Bus(t) => Action::Transact(copy_transaction(t)),
            Step::AwaitInterrupt => Action::AwaitInterrupt,
            Step::EchoIrq(k) => Action::Transact(clr_irq_status(self.read(*k))),
            Step::FetchPayload(k) => {
                let s = self.read(*k);
                let len: u8 = if s.len() > 0 { s[0] } else { 0 };
                let offset: u8 = if s.len() > 1 { s[1] } else { 0 };
                Action::Transact(Transaction::read_buffer(offset, len as usize))
            },
        }
    }

    /// Records how the action asked for went.
    pub fn resume(&mut self, outcome: Outcome)
        ensures
            final(self)@ == resume_spec(old(self)@, outcome@),
    {
        if self.aborted || self.reads.len() >= self.steps.len() {
            return;
        }
        match outcome {
            Outcome::Completed(r) => {
                self.reads.push(r);
                assert(self@.reads =~= old(self)@.reads.push(r@));
            },
            Outcome::Failed => {
                self.aborted = true;
            },
        }
    }
}

} // verus!
