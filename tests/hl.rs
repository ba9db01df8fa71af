use sx128x::hl::lora::{
    LoRaBandwidth, LoRaCodingRate, LoRaCrc, LoRaHeader, LoRaIq, LoRaModemParams,
    LoRaModulationParams, LoRaPacketParams, LoRaPreambleLength, LoRaSpreadingFactor,
};
use sx128x::hl::sequencer::{Action, Outcome, Sequencer};
use sx128x::hl::{Frequency, TxParams};
use sx128x::ll::{
    get_status, CircuitMode, Op, RampTime, Status, Transaction, FIRMWARE_VERSIONS,
};

fn cmd_g(cmd: u8, input: &[u8], out_len: usize) -> Transaction {
    Transaction {
        ops: vec![Op::Write(vec![cmd]), Op::Write(input.to_vec()), Op::Read(out_len)],
    }
}

fn cmd_w(cmd: u8, input: &[u8]) -> (Transaction, Vec<u8>) {
    (cmd_g(cmd, input, 0), Vec::new())
}

fn cmd_r(cmd: u8, out: &[u8]) -> (Transaction, Vec<u8>) {
    (cmd_g(cmd, &[0x00], out.len()), out.to_vec())
}

fn reg_r(reg: u16, out: &[u8]) -> (Transaction, Vec<u8>) {
    let head = vec![0x19, (reg >> 8) as u8, reg as u8, 0x00];
    (Transaction { ops: vec![Op::Write(head), Op::Read(out.len())] }, out.to_vec())
}

fn reg_w(reg: u16, input: &[u8]) -> (Transaction, Vec<u8>) {
    let head = vec![0x18, (reg >> 8) as u8, reg as u8];
    (Transaction { ops: vec![Op::Write(head), Op::Write(input.to_vec())] }, Vec::new())
}

fn buf_w(offset: u8, input: &[u8]) -> (Transaction, Vec<u8>) {
    let head = vec![0x1A, offset];
    (Transaction { ops: vec![Op::Write(head), Op::Write(input.to_vec())] }, Vec::new())
}

/// Steps a procedure against a scripted bus; returns whether it finished.
fn drive(mut s: Sequencer, script: &[(Transaction, Vec<u8>)], pos: &mut usize) -> bool {
    loop {
        match s.action() {
            Action::Transact(t) => {
                let (expected, reply) = &script[*pos];
                assert_eq!(&t, expected, "transaction {}", *pos);
                *pos += 1;
                s.resume(Outcome::Completed(reply.clone()));
            }
            Action::AwaitInterrupt => s.resume(Outcome::Completed(Vec::new())),
            Action::Finish => return true,
            Action::Abort => return false,
        }
    }
}

fn freq_reference(freq: u32) -> [u8; 3] {
    let val = freq as f64 / 198.3642578125;
    let val = val as u32;
    [(val >> 16) as u8, (val >> 8) as u8, val as u8]
}

#[test]
fn frequency() {
    assert_eq!(Frequency::new(2_400_000_000).as_bytes(), freq_reference(2_400_000_000));
    assert_eq!(Frequency::new(2_440_000_000).as_bytes(), freq_reference(2_440_000_000));
    assert_eq!(Frequency::new(2_485_000_000).as_bytes(), freq_reference(2_485_000_000));
    assert_eq!(Frequency::new(2_405_000_000).as_bytes(), &0xB90000u32.to_be_bytes()[1..]);
    assert_eq!(freq_reference(2_405_000_000), &0xB90000u32.to_be_bytes()[1..]);
}

fn capture_params() -> LoRaModemParams {
    LoRaModemParams {
        frequency: Frequency::new(2_405_000_000),
        tx_params: TxParams { power: 22, ramp_time: RampTime::RadioRamp20Us },
        modulation_params: LoRaModulationParams {
            spreading_factor: LoRaSpreadingFactor::Sf12,
            bandwidth: LoRaBandwidth::Bw200kHz,
            coding_rate: LoRaCodingRate::Cr4_5,
        },
        packet_params: LoRaPacketParams {
            preamble_length: LoRaPreambleLength { mantissa: 8, exponenta: 0 },
            header_type: LoRaHeader::Explicit,
            payload_length: 32,
            crc_mode: LoRaCrc::Enabled,
            invert_iq: LoRaIq::Normal,
            sync_word: 0x42,
        },
    }
}

fn configure_script() -> Vec<(Transaction, Vec<u8>)> {
    vec![
        cmd_w(0x80, &[0x00]),
        cmd_w(0x86, &[0xB9, 0x00, 0x00]),
        cmd_w(0x8A, &[0x01]),
        cmd_w(0x8B, &[0xC0, 0x34, 0x01]),
        reg_r(0x925, &[0x00]),
        reg_w(0x925, &[0x32]),
        reg_w(0x93C, &[0x01]),
        cmd_w(0x8C, &[0x08, 0x00, 0x20, 0x20, 0x40, 0x00, 0x00]),
        cmd_w(0x8E, &[0x16, 0xE0]),
    ]
}

/// Based on a capture of another driver working on a test device.
#[test]
fn hl_capture_tx() {
    let mut script = vec![
        reg_r(0x153, &[0xA9, 0xB7]),
        cmd_w(0x80, &[0x00]),
        cmd_w(0x96, &[0x01]),
    ];
    script.extend(configure_script());
    script.push(cmd_w(0x89, &[0x3F]));
    script.extend(configure_script());
    script.extend(vec![
        cmd_w(0x8F, &[0x00, 0x00]),
        buf_w(0x00, &[0x00; 16]),
        cmd_r(0xC0, &[0xC3]),
        cmd_w(0x8D, &[0x40, 0x41, 0x40, 0x41, 0x00, 0x00, 0x00, 0x00]),
        cmd_w(0x83, &[0x00, 0x00, 0x00]),
        cmd_r(0xC0, &[0xC3]),
        cmd_r(0x15, &[0x00, 0x01]),
        cmd_w(0x97, &[0x00, 0x01]),
        cmd_r(0xC0, &[0x43]),
    ]);

    assert_eq!(Transaction::read_register(FIRMWARE_VERSIONS, 2), script[0].0);
    assert_eq!(
        sx128x::ll::set_standby(sx128x::ll::StandbyConfig::StdbyRc),
        script[1].0
    );
    assert_eq!(
        sx128x::ll::set_regulator_mode(sx128x::ll::RegulatorType::DcDc),
        script[2].0
    );
    let mut pos = 3;

    let params = capture_params();
    assert!(drive(Sequencer::configure(&params), &script, &mut pos));
    assert!(drive(Sequencer::calibrate(), &script, &mut pos));
    assert!(drive(Sequencer::configure(&params), &script, &mut pos));
    assert!(drive(Sequencer::send(vec![0x00; 16]), &script, &mut pos));

    assert_eq!(get_status(), script[pos].0);
    let status = Status { raw: script[pos].1[0] };
    assert_eq!(status.circuit_mode(), Some(CircuitMode::StdbyRc));
    assert_eq!(pos + 1, script.len());
}

#[test]
fn frequency_exact_steps() {
    // 2_405_000_000 * 2^18 / 52_000_000 = 12_124_160 = 0xB90000
    assert_eq!(Frequency::new(2_405_000_000).as_bytes(), [0xB9, 0x00, 0x00]);
    assert_eq!(Frequency::new(0).as_bytes(), [0x00, 0x00, 0x00]);
    // 198 Hz is below one step, 199 Hz is one step.
    assert_eq!(Frequency::new(198).as_bytes(), [0x00, 0x00, 0x00]);
    assert_eq!(Frequency::new(199).as_bytes(), [0x00, 0x00, 0x01]);
    // 2^24 steps wraps to zero in three bytes: 3_328_000_000 Hz.
    assert_eq!(Frequency::new(3_328_000_000).as_bytes(), [0x00, 0x00, 0x00]);
    assert_eq!(Frequency::new(70_368_744_177_663).as_bytes(), [0x74, 0x52, 0x44]);
}

#[test]
fn frequency_from_bytes_and_default() {
    assert_eq!(Frequency::from_bytes([1, 2, 3]).as_bytes(), [1, 2, 3]);
    assert_eq!(Frequency::default(), Frequency::new(2_440_000_000));
    assert_eq!(Frequency::default().as_bytes(), [0xBB, 0xB1, 0x3B]);
}

#[test]
fn modulation_bytes() {
    let m = LoRaModulationParams {
        spreading_factor: LoRaSpreadingFactor::Sf12,
        bandwidth: LoRaBandwidth::Bw200kHz,
        coding_rate: LoRaCodingRate::Cr4_5,
    };
    assert_eq!(m.as_bytes(), [0xC0, 0x34, 0x01]);
    let m = LoRaModulationParams {
        spreading_factor: LoRaSpreadingFactor::Sf5,
        bandwidth: LoRaBandwidth::Bw1600kHz,
        coding_rate: LoRaCodingRate::CrLi4_7,
    };
    assert_eq!(m.as_bytes(), [0x50, 0x0A, 0x07]);
}

#[test]
fn packet_bytes() {
    let p = capture_params().packet_params;
    assert_eq!(p.as_bytes(), [0x08, 0x00, 0x20, 0x20, 0x40, 0x00, 0x00]);
    let p = LoRaPacketParams {
        preamble_length: LoRaPreambleLength { mantissa: 12, exponenta: 2 },
        header_type: LoRaHeader::Implicit,
        payload_length: 255,
        crc_mode: LoRaCrc::Disabled,
        invert_iq: LoRaIq::Inverted,
        sync_word: 0x12,
    };
    assert_eq!(p.as_bytes(), [0x2C, 0x80, 0xFF, 0x00, 0x00, 0x00, 0x00]);
}

#[test]
fn preamble_value() {
    assert_eq!(LoRaPreambleLength { mantissa: 8, exponenta: 0 }.value(), 0x08);
    assert_eq!(LoRaPreambleLength { mantissa: 0x1F, exponenta: 0x13 }.value(), 0x3F);
    assert_eq!(LoRaPreambleLength::default().value(), 0x31);
}

#[test]
fn calibrate_single_command() {
    let mut pos = 0;
    assert!(drive(Sequencer::calibrate(), &[cmd_w(0x89, &[0x3F])], &mut pos));
    assert_eq!(pos, 1);
}

fn send_script(irq: &[u8]) -> Vec<(Transaction, Vec<u8>)> {
    vec![
        cmd_w(0x8F, &[0x00, 0x00]),
        buf_w(0x00, &[1, 2, 3]),
        cmd_r(0xC0, &[0xC3]),
        cmd_w(0x8D, &[0x40, 0x41, 0x40, 0x41, 0x00, 0x00, 0x00, 0x00]),
        cmd_w(0x83, &[0x00, 0x00, 0x00]),
        cmd_r(0xC0, &[0xC3]),
        cmd_r(0x15, irq),
        cmd_w(0x97, irq),
    ]
}

#[test]
fn send_order() {
    let mut s = Sequencer::send(vec![1, 2, 3]);
    let script = send_script(&[0x40, 0x40]);
    let mut seen = Vec::new();
    loop {
        match s.action() {
            Action::Transact(t) => {
                let reply = script[seen.len()].1.clone();
                seen.push(Some(t));
                s.resume(Outcome::Completed(reply));
            }
            Action::AwaitInterrupt => {
                // The interrupt wait falls between the status read and the flags read.
                assert_eq!(seen.len(), 6);
                s.resume(Outcome::Completed(Vec::new()));
            }
            Action::Finish => break,
            Action::Abort => panic!("aborted"),
        }
    }
    let expected: Vec<Option<Transaction>> = script.into_iter().map(|(t, _)| Some(t)).collect();
    assert_eq!(seen, expected);
}

#[test]
fn send_aborts_on_failure() {
    for failing in 0..8 {
        let script = send_script(&[0x00, 0x01]);
        let mut s = Sequencer::send(vec![1, 2, 3]);
        let mut issued = 0;
        loop {
            match s.action() {
                Action::Transact(t) => {
                    assert_eq!(t, script[issued].0);
                    issued += 1;
                    if issued - 1 == failing {
                        s.resume(Outcome::Failed);
                    } else {
                        s.resume(Outcome::Completed(script[issued - 1].1.clone()));
                    }
                }
                Action::AwaitInterrupt => s.resume(Outcome::Completed(Vec::new())),
                Action::Finish => panic!("finished after a failure"),
                Action::Abort => break,
            }
        }
        assert_eq!(issued, failing + 1);
        assert!(matches!(s.action(), Action::Abort));
        s.resume(Outcome::Completed(Vec::new()));
        assert!(matches!(s.action(), Action::Abort));
    }
}

#[test]
fn configure_twice_identical() {
    let params = capture_params();
    let mut first = configure_script();
    let mut second = configure_script();
    // The radio's answer to the register read does not change what is written.
    first[4].1 = vec![0x00];
    second[4].1 = vec![0xFF];
    let mut pos = 0;
    assert!(drive(Sequencer::configure(&params), &first, &mut pos));
    assert_eq!(pos, 9);
    pos = 0;
    assert!(drive(Sequencer::configure(&params), &second, &mut pos));
    assert_eq!(pos, 9);
}

#[test]
fn configure_fec_register() {
    let mut params = capture_params();
    for (sf, code) in [
        (LoRaSpreadingFactor::Sf5, 0x1E),
        (LoRaSpreadingFactor::Sf6, 0x1E),
        (LoRaSpreadingFactor::Sf7, 0x37),
        (LoRaSpreadingFactor::Sf8, 0x37),
        (LoRaSpreadingFactor::Sf9, 0x32),
        (LoRaSpreadingFactor::Sf11, 0x32),
    ] {
        params.modulation_params.spreading_factor = sf;
        let mut script = configure_script();
        script[3] = cmd_w(0x8B, &[sf.code(), 0x34, 0x01]);
        script[5] = reg_w(0x925, &[code]);
        let mut pos = 0;
        assert!(drive(Sequencer::configure(&params), &script, &mut pos));
    }
}

#[test]
fn configure_aborts_on_failure() {
    let params = capture_params();
    let mut s = Sequencer::configure(&params);
    assert!(matches!(s.action(), Action::Transact(_)));
    s.resume(Outcome::Completed(Vec::new()));
    assert!(matches!(s.action(), Action::Transact(_)));
    s.resume(Outcome::Failed);
    assert!(matches!(s.action(), Action::Abort));
}

#[test]
fn receive_reads_reported_payload() {
    let script = vec![
        cmd_w(0x8D, &[0x40, 0x42, 0x40, 0x42, 0x00, 0x00, 0x00, 0x00]),
        cmd_w(0x82, &[0x00, 0xFF, 0xFF]),
        cmd_r(0x15, &[0x00, 0x02]),
        cmd_r(0x1D, &[0x11, 0x22, 0x33, 0x44, 0x55]),
        cmd_r(0x17, &[0x04, 0x10]),
        (
            Transaction { ops: vec![Op::Write(vec![0x1B, 0x10]), Op::Read(4)] },
            vec![9, 8, 7, 6],
        ),
        cmd_w(0x97, &[0x00, 0x02]),
    ];
    let mut s = Sequencer::receive(true);
    let mut pos = 0;
    let mut waited = false;
    loop {
        match s.action() {
            Action::Transact(t) => {
                assert_eq!(t, script[pos].0);
                s.resume(Outcome::Completed(script[pos].1.clone()));
                pos += 1;
            }
            Action::AwaitInterrupt => {
                assert_eq!(pos, 2);
                waited = true;
                s.resume(Outcome::Completed(Vec::new()));
            }
            Action::Finish => break,
            Action::Abort => panic!("aborted"),
        }
    }
    assert!(waited);
    assert_eq!(pos, script.len());
    assert_eq!(s.read(sx128x::hl::sequencer::RECEIVED_PAYLOAD), vec![9, 8, 7, 6]);
    assert_eq!(
        s.read(sx128x::hl::sequencer::RECEIVED_PACKET_STATUS),
        vec![0x11, 0x22, 0x33, 0x44, 0x55]
    );
}

#[test]
fn receive_single_shot() {
    let s = Sequencer::receive(false);
    let mut s = s;
    s.resume(Outcome::Completed(Vec::new()));
    match s.action() {
        Action::Transact(t) => assert_eq!(t, cmd_g(0x82, &[0x00, 0x00, 0x00], 0)),
        _ => panic!("expected a transaction"),
    }
}
