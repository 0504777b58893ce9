use vstd::prelude::*;
use crate::imu::{BOOT_STEPS, boot_plan};

verus! {

/// A step of the node's program: the IMU boot configuration and the startup
/// of the other devices once, then the acquisition cycle for ever.
#[derive(Clone, Copy, Debug, PartialEq, Eq, Structural)]
pub enum Step {
    /// Apply the boot setting with this index.
    Configure(usize),
    /// Reset the barometer and set its oversampling and power mode.
    BarometerSetup,
    /// Build the fuel-gauge driver, which applies the default compensation.
    GaugeSetup,
    /// Read the fuel gauge's version register as a liveness check.
    GaugeIdentity,
    ImuTemperature,
    Gyroscope,
    Accelerometer,
    Barometer,
    BatteryVoltage,
    /// Hand the serialized sample to the broadcast transport.
    Send,
    /// Wait the fixed interval before the next cycle.
    Sleep,
}

/// What a failed step means for the program.
#[derive(Clone, Copy, Debug, PartialEq, Eq, Structural)]
pub enum Policy {
    /// Stop: no meaningful sample can be produced.
    Fatal,
    /// Drop this sample's transmission and go on.
    Recoverable,
}

/// What the program does after a step.
#[derive(Clone, Copy, Debug, PartialEq, Eq, Structural)]
pub enum Next {
    Go(Step),
    /// Terminate with a diagnostic naming the step that failed.
    Abort(Step),
}

pub open spec fn valid_step(s: Step) -> bool {
    s matches Step::Configure(i) ==> i < BOOT_STEPS
}

/// The step that follows `s` when `s` succeeded.
pub open spec fn successor(s: Step) -> Step {
    match s {
        Step::Configure(i) => if i + 1 < BOOT_STEPS { Step::Configure((i + 1) as usize) } else { Step::BarometerSetup },
        Step::BarometerSetup => Step::GaugeSetup,
        Step::GaugeSetup => Step::GaugeIdentity,
        Step::GaugeIdentity => Step::ImuTemperature,
        Step::ImuTemperature => Step::Gyroscope,
        Step::Gyroscope => Step::Accelerometer,
        Step::Accelerometer => Step::Barometer,
        Step::Barometer => Step::BatteryVoltage,
        Step::BatteryVoltage => Step::Send,
        Step::Send => Step::Sleep,
        Step::Sleep => Step::ImuTemperature,
    }
}

/// Only a transport failure is recoverable; a failed bus transaction during
/// boot, startup or acquisition is fatal.
pub open spec fn spec_policy(s: Step) -> Policy {
    if s == Step::Send { Policy::Recoverable } else { Policy::Fatal }
}

/// What follows step `s`, given whether it succeeded.
pub open spec fn spec_advance(s: Step, succeeded: bool) -> Next {
    if succeeded || spec_policy(s) == Policy::Recoverable {
        Next::Go(successor(s))
    } else {
        Next::Abort(s)
    }
}

/// The first step of the program.
pub fn first_step() -> (r: Step)
    ensures
        r == Step::Configure(0),
        valid_step(r),
{
    Step::Configure(0)
}

pub fn failure_policy(s: Step) -> (r: Policy)
    ensures
        r == spec_policy(s),
{
    match s {
        Step::Send => Policy::Recoverable,
        _ => Policy::Fatal,
    }
}

/// Decides what follows step `s`, given whether it succeeded.
pub fn advance(s: Step, succeeded: bool) -> (r: Next)
    requires
        valid_step(s),
    ensures
        r == spec_advance(s, succeeded),
        r matches Next::Go(t) ==> valid_step(t),
{
    if !succeeded {
        match failure_policy(s) {
            Policy::Fatal => {
                return Next::Abort(s);
            },
            Policy::Recoverable => {},
        }
    }
    let t = match s {
        Step::Configure(i) => if i + 1 < BOOT_STEPS { Step::Configure(i + 1) } else { Step::BarometerSetup },
        Step::BarometerSetup => Step::GaugeSetup,
        Step::GaugeSetup => Step::GaugeIdentity,
        Step::GaugeIdentity => Step::ImuTemperature,
        Step::ImuTemperature => Step::Gyroscope,
        Step::Gyroscope => Step::Accelerometer,
        Step::Accelerometer => Step::Barometer,
        Step::Barometer => Step::BatteryVoltage,
        Step::BatteryVoltage => Step::Send,
        Step::Send => Step::Sleep,
        Step::Sleep => Step::ImuTemperature,
    };
    Next::Go(t)
}

/// Whatever the transport answers, a send is followed by the sleep and then
/// by a new acquisition: the loop never ends on a transmit failure.
pub proof fn lemma_send_never_stops(sent: bool)
    ensures
        spec_advance(Step::Send, sent) == Next::Go(Step::Sleep),
        spec_advance(Step::Sleep, true) == Next::Go(Step::ImuTemperature),
{
}

/// A failed sensor read during acquisition ends the program at that step:
/// no zeroed or partial sample is ever sent.
pub proof fn lemma_acquisition_failure_is_fatal(s: Step)
    requires
        s == Step::ImuTemperature || s == Step::Gyroscope || s == Step::Accelerometer
            || s == Step::Barometer || s == Step::BatteryVoltage,
    ensures
        spec_advance(s, false) == Next::Abort(s),
{
}

/// The devices are brought up in order before the first acquisition, and a
/// failure of any of them, the fuel gauge's identity check included, ends the
/// program before the loop is entered.
pub proof fn lemma_startup_failure_is_fatal(s: Step)
    requires
        s == Step::BarometerSetup || s == Step::GaugeSetup || s == Step::GaugeIdentity,
    ensures
        spec_advance(s, false) == Next::Abort(s),
        spec_advance(Step::BarometerSetup, true) == Next::Go(Step::GaugeSetup),
        spec_advance(Step::GaugeSetup, true) == Next::Go(Step::GaugeIdentity),
        spec_advance(Step::GaugeIdentity, true) == Next::Go(Step::ImuTemperature),
{
}

/// The boot configuration is applied setting by setting in plan order, any
/// failure in it is fatal, and the device startup follows only after its
/// last setting succeeded.
pub proof fn lemma_boot_in_order(i: usize)
    requires
        i < BOOT_STEPS,
    ensures
        i + 1 < BOOT_STEPS ==> spec_advance(Step::Configure(i), true) == Next::Go(Step::Configure((i + 1) as usize)),
        i + 1 == BOOT_STEPS ==> spec_advance(Step::Configure(i), true) == Next::Go(Step::BarometerSetup),
        spec_advance(Step::Configure(i), false) == Next::Abort(Step::Configure(i)),
        boot_plan().len() == BOOT_STEPS,
{
}

} // verus!
