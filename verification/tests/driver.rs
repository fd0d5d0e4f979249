use mpu6050::codec::{AccelRange, ClockSource, GyroRange};
use mpu6050::driver::{BusEvent, BusOp, Mpu6050, Progress};
use mpu6050::errors::DroneError;
use mpu6050::regs::{ACCEL_CONFIG, GYRO_CONFIG, PWR_MGMT_1, WHO_AM_I};

/// Drives the machine to the end of its current operation against a stub
/// transport, recording every bus transaction the machine asked for.
fn drive<F: FnMut(&BusOp) -> BusEvent>(
    m: &mut Mpu6050,
    mut respond: F,
) -> (Vec<BusOp>, Progress) {
    let mut ops: Vec<BusOp> = Vec::new();
    loop {
        match m.next_op() {
            Some(op) => {
                let ev = respond(&op);
                ops.push(op);
                match m.on_event(ev) {
                    Progress::Advanced => continue,
                    done => return (ops, done),
                }
            }
            None => panic!("machine went idle before the operation finished"),
        }
    }
}

/// A stub device that acknowledges every write and pause and answers every
/// read with the given identity byte.
fn stub_with_identity(identity: u8) -> impl FnMut(&BusOp) -> BusEvent {
    move |op: &BusOp| match op {
        BusOp::WriteReg { .. } => BusEvent::Completed,
        BusOp::Pause { .. } => BusEvent::Completed,
        BusOp::ReadReg { .. } => BusEvent::Returned(identity),
    }
}

#[test]
fn wake_issues_exactly_one_write_then_pauses() {
    let mut m = Mpu6050::new_async();
    m.wake(1500);
    let (ops, done) = drive(&mut m, stub_with_identity(0x68));
    assert_eq!(
        ops,
        vec![
            BusOp::WriteReg { reg: PWR_MGMT_1, value: 0x00 },
            BusOp::Pause { ticks: 1500 },
        ]
    );
    let writes = ops
        .iter()
        .filter(|op| matches!(op, BusOp::WriteReg { .. }))
        .count();
    assert_eq!(writes, 1);
    assert!(matches!(done, Progress::Complete(None)));
}

#[test]
fn id_yields_the_raw_identity_byte() {
    let mut m = Mpu6050::new_async();
    m.id();
    let (ops, done) = drive(&mut m, stub_with_identity(0xAB));
    assert_eq!(ops, vec![BusOp::ReadReg { reg: WHO_AM_I }]);
    assert!(matches!(done, Progress::Complete(Some(0xAB))));
}

#[test]
fn verify_accepts_the_expected_identity() {
    let mut m = Mpu6050::new_async();
    m.verify();
    let (ops, done) = drive(&mut m, stub_with_identity(0x68));
    assert_eq!(ops, vec![BusOp::ReadReg { reg: WHO_AM_I }]);
    assert!(matches!(done, Progress::Complete(None)));
}

#[test]
fn verify_rejects_any_other_identity_with_the_observed_byte() {
    for bad in [0x00u8, 0x69u8] {
        let mut m = Mpu6050::new_async();
        m.verify();
        let (_, done) = drive(&mut m, stub_with_identity(bad));
        match done {
            Progress::Failed(DroneError::InvalidChipId(b)) => assert_eq!(b, bad),
            other => panic!("expected an identity mismatch, got {:?}", other),
        }
    }
}

#[test]
fn verify_wraps_a_bus_fault_opaquely() {
    let mut m = Mpu6050::new_async();
    m.verify();
    let (_, done) = drive(&mut m, |_op: &BusOp| BusEvent::Fault(String::from("nack")));
    match done {
        Progress::Failed(DroneError::I2c(msg)) => assert_eq!(msg, "nack"),
        other => panic!("expected a wrapped bus fault, got {:?}", other),
    }
}

#[test]
fn set_accel_range_writes_the_range_with_self_test_clear() {
    let mut m = Mpu6050::new_async();
    m.set_accel_range(AccelRange::G16);
    let (ops, done) = drive(&mut m, stub_with_identity(0x68));
    assert_eq!(ops, vec![BusOp::WriteReg { reg: ACCEL_CONFIG, value: 0b0001_1000 }]);
    assert!(matches!(done, Progress::Complete(None)));
}

#[test]
fn set_accel_range_with_self_test_sets_bits_5_to_7() {
    let mut m = Mpu6050::new_async();
    m.set_accel_range_with_self_test(AccelRange::G8);
    let (ops, done) = drive(&mut m, stub_with_identity(0x68));
    assert_eq!(ops.len(), 1);
    match ops[0] {
        BusOp::WriteReg { reg, value } => {
            assert_eq!(reg, ACCEL_CONFIG);
            assert_eq!(value, 0b1111_0000);
            assert_eq!(value & 0b1110_0000, 0b1110_0000, "self-test bits 5-7 all set");
            assert_eq!((value >> 3) & 0b11, 0b10, "bits 3-4 hold the G8 encoding");
            assert_eq!(value & 0b111, 0, "reserved bits 0-2 are zero");
        }
        other => panic!("expected a register write, got {:?}", other),
    }
    assert!(matches!(done, Progress::Complete(None)));
}

#[test]
fn set_gyro_range_writes_the_range_with_self_test_clear() {
    let mut m = Mpu6050::new_async();
    m.set_gyro_range(GyroRange::D2000);
    let (ops, _) = drive(&mut m, stub_with_identity(0x68));
    assert_eq!(ops, vec![BusOp::WriteReg { reg: GYRO_CONFIG, value: 0b0001_1000 }]);
}

#[test]
fn set_gyro_range_with_self_test_sets_bits_5_to_7() {
    let mut m = Mpu6050::new_async();
    m.set_gyro_range_with_self_test(GyroRange::D500);
    let (ops, _) = drive(&mut m, stub_with_identity(0x68));
    assert_eq!(ops, vec![BusOp::WriteReg { reg: GYRO_CONFIG, value: 0b1110_1000 }]);
}

#[test]
fn set_clock_source_writes_only_the_clock_bits() {
    let mut m = Mpu6050::new_async();
    m.set_clock_source(ClockSource::PllZAxis);
    let (ops, done) = drive(&mut m, stub_with_identity(0x68));
    assert_eq!(ops, vec![BusOp::WriteReg { reg: PWR_MGMT_1, value: 0b0000_0011 }]);
    assert!(matches!(done, Progress::Complete(None)));
}

#[test]
fn init_sequences_wake_verify_and_both_ranges_in_order() {
    let mut m = Mpu6050::new_async();
    m.init_with_gyro_accel_range(250, AccelRange::G4, GyroRange::D1000);
    let (ops, done) = drive(&mut m, stub_with_identity(0x68));
    assert_eq!(
        ops,
        vec![
            BusOp::WriteReg { reg: PWR_MGMT_1, value: 0x00 },
            BusOp::Pause { ticks: 250 },
            BusOp::ReadReg { reg: WHO_AM_I },
            BusOp::WriteReg { reg: ACCEL_CONFIG, value: 0b0000_1000 },
            BusOp::WriteReg { reg: GYRO_CONFIG, value: 0b0001_0000 },
        ]
    );
    assert!(matches!(done, Progress::Complete(None)));
}

#[test]
fn init_uses_the_default_ranges() {
    let mut m = Mpu6050::new_async();
    m.init(100);
    let (ops, done) = drive(&mut m, stub_with_identity(0x68));
    assert_eq!(
        ops,
        vec![
            BusOp::WriteReg { reg: PWR_MGMT_1, value: 0x00 },
            BusOp::Pause { ticks: 100 },
            BusOp::ReadReg { reg: WHO_AM_I },
            BusOp::WriteReg { reg: ACCEL_CONFIG, value: 0x00 },
            BusOp::WriteReg { reg: GYRO_CONFIG, value: 0x00 },
        ]
    );
    assert!(matches!(done, Progress::Complete(None)));
}

#[test]
fn init_stops_at_a_failed_verify_and_never_configures_ranges() {
    let mut m = Mpu6050::new_async();
    m.init_with_gyro_accel_range(50, AccelRange::G8, GyroRange::D500);
    let (ops, done) = drive(&mut m, stub_with_identity(0x42));
    assert_eq!(
        ops,
        vec![
            BusOp::WriteReg { reg: PWR_MGMT_1, value: 0x00 },
            BusOp::Pause { ticks: 50 },
            BusOp::ReadReg { reg: WHO_AM_I },
        ]
    );
    assert!(
        !ops.iter().any(|op| matches!(
            op,
            BusOp::WriteReg { reg, .. } if *reg == ACCEL_CONFIG || *reg == GYRO_CONFIG
        ))
    );
    match done {
        Progress::Failed(DroneError::InvalidChipId(b)) => assert_eq!(b, 0x42),
        other => panic!("expected the injected identity mismatch, got {:?}", other),
    }
    assert!(m.next_op().is_none(), "the rest of the plan is abandoned");
}

#[test]
fn init_stops_at_a_wake_fault() {
    let mut m = Mpu6050::new_async();
    m.init(10);
    let (ops, done) = drive(&mut m, |_op: &BusOp| BusEvent::Fault(String::from("timeout")));
    assert_eq!(ops, vec![BusOp::WriteReg { reg: PWR_MGMT_1, value: 0x00 }]);
    match done {
        Progress::Failed(DroneError::I2c(msg)) => assert_eq!(msg, "timeout"),
        other => panic!("expected a wrapped bus fault, got {:?}", other),
    }
}
