//! The driver facade as a verified state machine.
//!
//! The sensor is driven through a transport the driver does not own: an
//! outer harness holds the bus handle and the timer. The [`Mpu6050`] machine
//! makes every decision. Each public operation loads a *plan*, the exact
//! ordered sequence of bus transactions the operation requires; the harness
//! then repeatedly asks [`Mpu6050::next_op`] what to do, performs it, and
//! reports back through [`Mpu6050::on_event`]. The machine judges each
//! response: a bus fault aborts the whole plan with a wrapped transport
//! error, an identity read is compared against the fixed expected constant,
//! and only a fully consumed plan completes the operation. No step is
//! retried and nothing is rolled back.
//!
//! The contracts pin the plans down byte for byte, and [`run_steps`] gives
//! the same semantics as one mathematical function, so that laws about whole
//! sequences (such as initialization stopping at a failed identity check)
//! can be stated and proved.

use vstd::prelude::*;

use crate::codec::{AccelConfig, AccelRange, ClockSource, GyroConfig, GyroRange, PwrMgmt1};
use crate::errors::DroneError;
use crate::regs::{ACCEL_CONFIG, DEFAULT_SLAVE_ADDR, GYRO_CONFIG, PWR_MGMT_1, WHO_AM_I};

verus! {

/// One bus transaction for the harness that owns the bus handle to perform.
/// Every transaction addresses the device at [`crate::regs::ADDR`].
#[derive(Clone, Copy, Debug, PartialEq, Eq, Structural)]
pub enum BusOp {
    /// Write `[reg, value]` to the device in one combined transaction.
    WriteReg { reg: u8, value: u8 },
    /// Write `[reg]` then read one byte back, as one atomic transaction
    /// with no other bus traffic between the two phases.
    ReadReg { reg: u8 },
    /// Suspend for no less than `ticks` of the harness's timer.
    Pause { ticks: u64 },
}

/// What the harness reports after performing a [`BusOp`].
#[derive(Debug)]
pub enum BusEvent {
    /// A write or a pause finished.
    Completed,
    /// A read finished and returned this byte.
    Returned(u8),
    /// The transaction failed on the bus, with the transport's description
    /// of the fault. A pause cannot fault.
    Fault(String),
}

/// One step of an operation's plan: a bus transaction together with what the
/// driver does with its outcome.
#[derive(Clone, Copy, Debug, PartialEq, Eq, Structural)]
pub enum Step {
    /// Write `value` into `reg`.
    SetReg { reg: u8, value: u8 },
    /// Read `reg`; the byte becomes the operation's result.
    FetchReg { reg: u8 },
    /// Read `reg`; the byte must equal [`DEFAULT_SLAVE_ADDR`], anything else
    /// aborts with an identity-mismatch error carrying the byte observed.
    CheckId { reg: u8 },
    /// Let the device settle for no less than `ticks`.
    Settle { ticks: u64 },
}

/// The bus transaction a step asks the harness to perform.
pub open spec fn spec_step_op(s: Step) -> BusOp {
    match s {
        Step::SetReg { reg, value } => BusOp::WriteReg { reg, value },
        Step::FetchReg { reg } => BusOp::ReadReg { reg },
        Step::CheckId { reg } => BusOp::ReadReg { reg },
        Step::Settle { ticks } => BusOp::Pause { ticks },
    }
}

/// Whether an event is a possible outcome of a step's transaction: writes
/// and pauses finish or fault, reads return a byte or fault, and a pause
/// cannot fault.
pub open spec fn event_fits(s: Step, ev: BusEvent) -> bool {
    match s {
        Step::SetReg { .. } => ev is Completed || ev is Fault,
        Step::FetchReg { .. } => ev is Returned || ev is Fault,
        Step::CheckId { .. } => ev is Returned || ev is Fault,
        Step::Settle { .. } => ev is Completed,
    }
}

/// How one step ends.
pub enum StepOutcome {
    /// The step succeeded; a fetched byte, if the step fetched one.
    Passed(Option<u8>),
    /// The step aborts the operation with this error.
    Stopped(DroneError),
}

/// The driver's judgement of one step's event: a fault is wrapped and stops
/// the plan, an identity byte other than [`DEFAULT_SLAVE_ADDR`] stops the
/// plan carrying that byte, and everything else passes.
pub open spec fn step_result(s: Step, ev: BusEvent) -> StepOutcome {
    match ev {
        BusEvent::Fault(msg) => StepOutcome::Stopped(DroneError::I2c(msg)),
        BusEvent::Returned(b) => match s {
            Step::FetchReg { .. } => StepOutcome::Passed(Some(b)),
            Step::CheckId { .. } => if b == DEFAULT_SLAVE_ADDR {
                StepOutcome::Passed(None)
            } else {
                StepOutcome::Stopped(DroneError::InvalidChipId(b))
            },
            _ => StepOutcome::Passed(None),
        },
        BusEvent::Completed => StepOutcome::Passed(None),
    }
}

/// The plan of `id`: read the identity register and yield the byte.
pub open spec fn id_steps() -> Seq<Step> {
    seq![Step::FetchReg { reg: WHO_AM_I }]
}

/// The plan of `wake`: one full overwrite of power management 1 with zero
/// (clears sleep, selects the internal clock, clears everything else), then
/// a settle pause of no less than `delay` for the oscillator to stabilize.
pub open spec fn wake_steps(delay: u64) -> Seq<Step> {
    seq![Step::SetReg { reg: PWR_MGMT_1, value: 0x00 }, Step::Settle { ticks: delay }]
}

/// The plan of `verify`: read the identity register and compare against the
/// fixed expected constant.
pub open spec fn verify_steps() -> Seq<Step> {
    seq![Step::CheckId { reg: WHO_AM_I }]
}

/// The byte the accelerometer configuration register is overwritten with:
/// the chosen range, and either all three self-test bits or none.
pub open spec fn accel_config_value(accel_range: AccelRange, self_test: bool) -> u8 {
    (AccelConfig {
        afs_sel: accel_range,
        za_st: self_test,
        ya_st: self_test,
        xa_st: self_test,
    }).spec_encode()
}

/// The byte the gyroscope configuration register is overwritten with.
pub open spec fn gyro_config_value(gyro_range: GyroRange, self_test: bool) -> u8 {
    (GyroConfig {
        fs_sel: gyro_range,
        zg_st: self_test,
        yg_st: self_test,
        xg_st: self_test,
    }).spec_encode()
}

/// The plan of `set_accel_range` (self-test off) and of
/// `set_accel_range_with_self_test` (self-test on every axis).
pub open spec fn set_accel_range_steps(accel_range: AccelRange, self_test: bool) -> Seq<Step> {
    seq![Step::SetReg { reg: ACCEL_CONFIG, value: accel_config_value(accel_range, self_test) }]
}

/// The plan of `set_gyro_range` and of `set_gyro_range_with_self_test`.
pub open spec fn set_gyro_range_steps(gyro_range: GyroRange, self_test: bool) -> Seq<Step> {
    seq![Step::SetReg { reg: GYRO_CONFIG, value: gyro_config_value(gyro_range, self_test) }]
}

/// The plan of `set_clock_source`: a full overwrite of power management 1
/// with only `clksel` set, which as a side effect clears temp_dis, cycle,
/// sleep and device_reset.
pub open spec fn set_clock_source_steps(source: ClockSource) -> Seq<Step> {
    seq![
        Step::SetReg {
            reg: PWR_MGMT_1,
            value: (PwrMgmt1 {
                clksel: source,
                temp_dis: false,
                cycle: false,
                sleep: false,
                device_reset: false,
            }).spec_encode(),
        },
    ]
}

/// The plan of `init_with_gyro_accel_range`: wake, verify identity, set the
/// accelerometer range, set the gyroscope range, in that exact order.
pub open spec fn init_with_gyro_accel_range_steps(
    delay: u64,
    accel_range: AccelRange,
    gyro_range: GyroRange,
) -> Seq<Step> {
    wake_steps(delay) + verify_steps() + set_accel_range_steps(accel_range, false)
        + set_gyro_range_steps(gyro_range, false)
}

/// The plan of `init`: initialization with the default ranges, +-2g and
/// +-250 deg/s.
pub open spec fn init_steps(delay: u64) -> Seq<Step> {
    init_with_gyro_accel_range_steps(delay, AccelRange::G2, GyroRange::D250)
}

/// What [`Mpu6050::on_event`] reports back to the harness.
#[derive(Debug)]
pub enum Progress {
    /// The step passed and more steps remain; ask [`Mpu6050::next_op`]
    /// again.
    Advanced,
    /// The plan is fully consumed: the operation succeeded, with the byte it
    /// fetched if it fetched one.
    Complete(Option<u8>),
    /// The operation aborted with this error; the rest of the plan is
    /// abandoned, nothing is rolled back.
    Failed(DroneError),
}

/// The driver facade. It owns no bus handle and no cached register shadow:
/// only the remaining plan of the operation in flight, empty when idle.
pub struct Mpu6050 {
    plan: Vec<Step>,
}

impl Mpu6050 {
    /// The steps still to perform, in order.
    pub closed spec fn pending(self) -> Seq<Step> {
        self.plan@
    }

    /// No operation is in flight.
    pub open spec fn idle(self) -> bool {
        self.pending().len() == 0
    }

    /// A fresh, idle driver. The bus handle stays with the harness.
    pub fn new_async() -> (m: Mpu6050)
        ensures
            m.idle(),
    {
        Mpu6050 { plan: Vec::new() }
    }

    /// Begin `id`: read the identity register and yield the raw byte.
    pub fn id(&mut self)
        ensures
            final(self).pending() == id_steps(),
    {
        let mut plan: Vec<Step> = Vec::new();
        plan.push(Step::FetchReg { reg: WHO_AM_I });
        self.plan = plan;
        proof {
            assert(self.plan@ =~= id_steps());
        }
    }

    /// Begin `wake`: overwrite power management 1 with zero, then settle for
    /// no less than `delay`.
    pub fn wake(&mut self, delay: u64)
        ensures
            final(self).pending() == wake_steps(delay),
    {
        let mut plan: Vec<Step> = Vec::new();
        plan.push(Step::SetReg { reg: PWR_MGMT_1, value: 0x00 });
        plan.push(Step::Settle { ticks: delay });
        self.plan = plan;
        proof {
            assert(self.plan@ =~= wake_steps(delay));
        }
    }

    /// Begin `verify`: read the identity register and succeed exactly when
    /// it holds [`DEFAULT_SLAVE_ADDR`].
    pub fn verify(&mut self)
        ensures
            final(self).pending() == verify_steps(),
    {
        let mut plan: Vec<Step> = Vec::new();
        plan.push(Step::CheckId { reg: WHO_AM_I });
        self.plan = plan;
        proof {
            assert(self.plan@ =~= verify_steps());
        }
    }

    /// Begin `set_accel_range`: overwrite the accelerometer configuration
    /// with the chosen range and every self-test bit clear.
    pub fn set_accel_range(&mut self, accel_range: AccelRange)
        ensures
            final(self).pending() == set_accel_range_steps(accel_range, false),
    {
        let value: u8 = AccelConfig::new().with_afs_sel(accel_range).encode();
        let mut plan: Vec<Step> = Vec::new();
        plan.push(Step::SetReg { reg: ACCEL_CONFIG, value });
        self.plan = plan;
        proof {
            assert(self.plan@ =~= set_accel_range_steps(accel_range, false));
        }
    }

    /// Begin `set_accel_range_with_self_test`: the chosen range and every
    /// self-test bit set.
    pub fn set_accel_range_with_self_test(&mut self, accel_range: AccelRange)
        ensures
            final(self).pending() == set_accel_range_steps(accel_range, true),
    {
        let value: u8 = AccelConfig::new().with_afs_sel(accel_range).with_xa_st(true).with_ya_st(
            true,
        ).with_za_st(true).encode();
        let mut plan: Vec<Step> = Vec::new();
        plan.push(Step::SetReg { reg: ACCEL_CONFIG, value });
        self.plan = plan;
        proof {
            assert(self.plan@ =~= set_accel_range_steps(accel_range, true));
        }
    }

    /// Begin `set_gyro_range`: overwrite the gyroscope configuration with
    /// the chosen range and every self-test bit clear.
    pub fn set_gyro_range(&mut self, gyro_range: GyroRange)
        ensures
            final(self).pending() == set_gyro_range_steps(gyro_range, false),
    {
        let value: u8 = GyroConfig::new().with_fs_sel(gyro_range).encode();
        let mut plan: Vec<Step> = Vec::new();
        plan.push(Step::SetReg { reg: GYRO_CONFIG, value });
        self.plan = plan;
        proof {
            assert(self.plan@ =~= set_gyro_range_steps(gyro_range, false));
        }
    }

    /// Begin `set_gyro_range_with_self_test`: the chosen range and every
    /// self-test bit set.
    pub fn set_gyro_range_with_self_test(&mut self, gyro_range: GyroRange)
        ensures
            final(self).pending() == set_gyro_range_steps(gyro_range, true),
    {
        let value: u8 = GyroConfig::new().with_fs_sel(gyro_range).with_xg_st(true).with_yg_st(
            true,
        ).with_zg_st(true).encode();
        let mut plan: Vec<Step> = Vec::new();
        plan.push(Step::SetReg { reg: GYRO_CONFIG, value });
        self.plan = plan;
        proof {
            assert(self.plan@ =~= set_gyro_range_steps(gyro_range, true));
        }
    }

    /// Begin `set_clock_source`: overwrite power management 1 with only the
    /// clock selection set. Any sleep or cycle state set elsewhere is
    /// cleared by the full-byte write.
    pub fn set_clock_source(&mut self, source: ClockSource)
        ensures
            final(self).pending() == set_clock_source_steps(source),
    {
        let value: u8 = PwrMgmt1::new().with_clksel(source).encode();
        let mut plan: Vec<Step> = Vec::new();
        plan.push(Step::SetReg { reg: PWR_MGMT_1, value });
        self.plan = plan;
        proof {
            assert(self.plan@ =~= set_clock_source_steps(source));
        }
    }

    /// Begin `init_with_gyro_accel_range`: wake with `delay`, verify the
    /// identity, set the accelerometer range, set the gyroscope range, each
    /// step gated on the previous succeeding.
    pub fn init_with_gyro_accel_range(
        &mut self,
        delay: u64,
        accel_range: AccelRange,
        gyro_range: GyroRange,
    )
        ensures
            final(self).pending() == init_with_gyro_accel_range_steps(
                delay,
                accel_range,
                gyro_range,
            ),
    {
        let accel_value: u8 = AccelConfig::new().with_afs_sel(accel_range).encode();
        let gyro_value: u8 = GyroConfig::new().with_fs_sel(gyro_range).encode();
        let mut plan: Vec<Step> = Vec::new();
        plan.push(Step::SetReg { reg: PWR_MGMT_1, value: 0x00 });
        plan.push(Step::Settle { ticks: delay });
        plan.push(Step::CheckId { reg: WHO_AM_I });
        plan.push(Step::SetReg { reg: ACCEL_CONFIG, value: accel_value });
        plan.push(Step::SetReg { reg: GYRO_CONFIG, value: gyro_value });
        self.plan = plan;
        proof {
            assert(self.plan@ =~= init_with_gyro_accel_range_steps(delay, accel_range, gyro_range));
        }
    }

    /// Begin `init`: initialization with the default ranges, +-2g and
    /// +-250 deg/s.
    pub fn init(&mut self, delay: u64)
        ensures
            final(self).pending() == init_steps(delay),
    {
        self.init_with_gyro_accel_range(delay, AccelRange::G2, GyroRange::D250);
    }

    /// The bus transaction the harness must perform next, or nothing when
    /// idle.
    pub fn next_op(&self) -> (r: Option<BusOp>)
        ensures
            self.idle() ==> r is None,
            !self.idle() ==> r == Some(spec_step_op(self.pending()[0])),
    {
        if self.plan.len() == 0 {
            None
        } else {
            let op: BusOp = match self.plan[0] {
                Step::SetReg { reg, value } => BusOp::WriteReg { reg, value },
                Step::FetchReg { reg } => BusOp::ReadReg { reg },
                Step::CheckId { reg } => BusOp::ReadReg { reg },
                Step::Settle { ticks } => BusOp::Pause { ticks },
            };
            Some(op)
        }
    }

    /// Drop the step just performed, completing the operation if it was the
    /// last one.
    fn advance(&mut self, fetched: Option<u8>) -> (p: Progress)
        requires
            !old(self).idle(),
        ensures
            old(self).pending().len() == 1 ==> p == Progress::Complete(fetched)
                && final(self).idle(),
            old(self).pending().len() > 1 ==> p == Progress::Advanced && final(self).pending()
                == old(self).pending().skip(1),
    {
        if self.plan.len() == 1 {
            self.plan = Vec::new();
            Progress::Complete(fetched)
        } else {
            self.plan.remove(0);
            proof {
                assert(self.plan@ =~= old(self).pending().skip(1));
            }
            Progress::Advanced
        }
    }

    /// Judge the event the harness reports for the head step of the plan: a
    /// fault aborts with a wrapped transport error, an identity byte other
    /// than the expected constant aborts carrying that byte, and a passing
    /// step advances the plan or completes the operation.
    pub fn on_event(&mut self, ev: BusEvent) -> (p: Progress)
        requires
            !old(self).idle(),
            event_fits(old(self).pending()[0], ev),
        ensures
            ({
                let outcome = step_result(old(self).pending()[0], ev);
                match outcome {
                    StepOutcome::Stopped(e) => p == Progress::Failed(e) && final(self).idle(),
                    StepOutcome::Passed(fetched) => if old(self).pending().len() == 1 {
                        p == Progress::Complete(fetched) && final(self).idle()
                    } else {
                        p == Progress::Advanced && final(self).pending()
                            == old(self).pending().skip(1)
                    },
                }
            }),
    {
        let step: Step = self.plan[0];
        match ev {
            BusEvent::Completed => self.advance(None),
            BusEvent::Fault(msg) => {
                self.plan = Vec::new();
                Progress::Failed(DroneError::I2c(msg))
            },
            BusEvent::Returned(b) => match step {
                Step::CheckId { .. } => {
                    if b == DEFAULT_SLAVE_ADDR {
                        self.advance(None)
                    } else {
                        self.plan = Vec::new();
                        Progress::Failed(DroneError::InvalidChipId(b))
                    }
                },
                Step::FetchReg { .. } => self.advance(Some(b)),
                _ => self.advance(None),
            },
        }
    }
}

/// The result of performing a plan in order against a sequence of events,
/// judging each step by [`step_result`] and stopping at the first step that
/// aborts: how many steps were performed, and the operation's outcome. This
/// is the mathematical shape of driving [`Mpu6050`] with [`Mpu6050::on_event`]
/// once per step.
pub open spec fn run_steps(steps: Seq<Step>, evs: Seq<BusEvent>) -> (int, Result<
    Option<u8>,
    DroneError,
>)
    decreases steps.len(),
{
    if steps.len() == 0 || evs.len() == 0 {
        (0, Ok(None))
    } else {
        match step_result(steps[0], evs[0]) {
            StepOutcome::Stopped(e) => (1, Err(e)),
            StepOutcome::Passed(fetched) => if steps.len() == 1 {
                (1, Ok(fetched))
            } else {
                let rest = run_steps(steps.skip(1), evs.skip(1));
                (1 + rest.0, rest.1)
            },
        }
    }
}

/// Law: `verify` is decided by the identity byte alone. Against a transport
/// that returns the expected constant it succeeds; against any other byte it
/// fails with an identity mismatch carrying exactly that byte.
pub proof fn lemma_verify_decides_identity(b: u8)
    ensures
        b == DEFAULT_SLAVE_ADDR ==> run_steps(verify_steps(), seq![BusEvent::Returned(b)]) == (
        1int,
        Ok::<Option<u8>, DroneError>(None),
        ),
        b != DEFAULT_SLAVE_ADDR ==> run_steps(verify_steps(), seq![BusEvent::Returned(b)]) == (
        1int,
        Err::<Option<u8>, DroneError>(DroneError::InvalidChipId(b)),
        ),
{
}

/// Law: when the identity read of an initialization returns a byte other
/// than the expected constant, the run performs exactly the wake write, the
/// settle pause and the identity read — never a range-configuration write —
/// and ends in exactly the identity-mismatch error carrying that byte.
pub proof fn lemma_init_stops_at_failed_verify(
    delay: u64,
    accel_range: AccelRange,
    gyro_range: GyroRange,
    evs: Seq<BusEvent>,
    b: u8,
)
    requires
        evs.len() >= 3,
        evs[0] == BusEvent::Completed,
        evs[1] == BusEvent::Completed,
        evs[2] == BusEvent::Returned(b),
        b != DEFAULT_SLAVE_ADDR,
    ensures
        ({
            let steps = init_with_gyro_accel_range_steps(delay, accel_range, gyro_range);
            let run = run_steps(steps, evs);
            &&& run.0 == 3
            &&& run.1 == Err::<Option<u8>, DroneError>(DroneError::InvalidChipId(b))
            &&& steps[0] == (Step::SetReg { reg: PWR_MGMT_1, value: 0x00 })
            &&& steps[1] == (Step::Settle { ticks: delay })
            &&& steps[2] == (Step::CheckId { reg: WHO_AM_I })
            &&& forall|i: int|
                0 <= i < run.0 ==> (#[trigger] steps[i] matches Step::SetReg { reg, .. } ==> reg
                    != ACCEL_CONFIG && reg != GYRO_CONFIG)
        }),
{
    let steps = init_with_gyro_accel_range_steps(delay, accel_range, gyro_range);
    assert(steps.len() == 5);
    assert(steps[0] == (Step::SetReg { reg: PWR_MGMT_1, value: 0x00 }));
    assert(steps[1] == (Step::Settle { ticks: delay }));
    assert(steps[2] == (Step::CheckId { reg: WHO_AM_I }));
    let steps1 = steps.skip(1);
    let steps2 = steps1.skip(1);
    let evs1 = evs.skip(1);
    let evs2 = evs1.skip(1);
    assert(steps1[0] == steps[1] && steps1.len() == 4);
    assert(steps2[0] == steps[2] && steps2.len() == 3);
    assert(evs1[0] == evs[1]);
    assert(evs2[0] == evs[2]);
    assert(run_steps(steps2, evs2) == (1int, Err::<Option<u8>, DroneError>(
        DroneError::InvalidChipId(b),
    )));
    assert(run_steps(steps1, evs1) == (2int, Err::<Option<u8>, DroneError>(
        DroneError::InvalidChipId(b),
    )));
}

/// Law: against a transport that completes every transaction and holds the
/// expected identity, initialization performs all five of its transactions
/// and succeeds — the sequence reaches its configured terminal state.
pub proof fn lemma_init_completes_on_expected_identity(
    delay: u64,
    accel_range: AccelRange,
    gyro_range: GyroRange,
    evs: Seq<BusEvent>,
)
    requires
        evs.len() >= 5,
        evs[0] == BusEvent::Completed,
        evs[1] == BusEvent::Completed,
        evs[2] == BusEvent::Returned(DEFAULT_SLAVE_ADDR),
        evs[3] == BusEvent::Completed,
        evs[4] == BusEvent::Completed,
    ensures
        run_steps(init_with_gyro_accel_range_steps(delay, accel_range, gyro_range), evs) == (
        5int,
        Ok::<Option<u8>, DroneError>(None),
        ),
{
    let steps = init_with_gyro_accel_range_steps(delay, accel_range, gyro_range);
    assert(steps.len() == 5);
    let steps1 = steps.skip(1);
    let steps2 = steps1.skip(1);
    let steps3 = steps2.skip(1);
    let steps4 = steps3.skip(1);
    let evs1 = evs.skip(1);
    let evs2 = evs1.skip(1);
    let evs3 = evs2.skip(1);
    let evs4 = evs3.skip(1);
    assert(steps1[0] == steps[1] && steps1.len() == 4 && evs1[0] == evs[1]);
    assert(steps2[0] == steps[2] && steps2.len() == 3 && evs2[0] == evs[2]);
    assert(steps3[0] == steps[3] && steps3.len() == 2 && evs3[0] == evs[3]);
    assert(steps4[0] == steps[4] && steps4.len() == 1 && evs4[0] == evs[4]);
    assert(run_steps(steps4, evs4) == (1int, Ok::<Option<u8>, DroneError>(None)));
    assert(run_steps(steps3, evs3) == (2int, Ok::<Option<u8>, DroneError>(None)));
    assert(run_steps(steps2, evs2) == (3int, Ok::<Option<u8>, DroneError>(None)));
    assert(run_steps(steps1, evs1) == (4int, Ok::<Option<u8>, DroneError>(None)));
}

} // verus!
