use sensor_node::imu::{boot_sequence, boot_setting, ImuSetting, BOOT_STEPS};
use sensor_node::telemetry::{advance, failure_policy, first_step, Next, Policy, Step};

/// Runs the program's decisions over a list of step outcomes, returning the
/// steps taken and how it ended.
fn run(outcomes: &[bool]) -> (Vec<Step>, Option<Step>) {
    let mut step = first_step();
    let mut taken = Vec::new();
    for &ok in outcomes {
        taken.push(step);
        match advance(step, ok) {
            Next::Go(next) => step = next,
            Next::Abort(at) => return (taken, Some(at)),
        }
    }
    (taken, None)
}

/// Steps before the first acquisition: the boot settings and three device startups.
const STARTUP: usize = BOOT_STEPS + 3;

const CYCLE: [Step; 7] = [
    Step::ImuTemperature,
    Step::Gyroscope,
    Step::Accelerometer,
    Step::Barometer,
    Step::BatteryVoltage,
    Step::Send,
    Step::Sleep,
];

#[test]
fn boot_sequence_order() {
    let plan = boot_sequence();
    assert_eq!(plan.len(), BOOT_STEPS);
    assert_eq!(plan[0], ImuSetting::Boot);
    assert_eq!(plan[1], ImuSetting::BlockDataUpdate);
    assert_eq!(plan[2], ImuSetting::AutoIncrement);
    assert_eq!(plan[6], ImuSetting::DeviceConf);
    assert_eq!(plan[7], ImuSetting::AccelDataRate52Hz);
    assert_eq!(plan[10], ImuSetting::GyroDataRate52Hz);
    assert_eq!(plan[12], ImuSetting::GyroHighPerformance);
    for i in 0..BOOT_STEPS {
        assert_eq!(boot_setting(i), plan[i]);
    }
}

#[test]
fn boot_then_cycle() {
    let (taken, end) = run(&[true; STARTUP + 14]);
    assert_eq!(end, None);
    for i in 0..BOOT_STEPS {
        assert_eq!(taken[i], Step::Configure(i));
    }
    assert_eq!(&taken[BOOT_STEPS..STARTUP], &[Step::BarometerSetup, Step::GaugeSetup, Step::GaugeIdentity]);
    assert_eq!(&taken[STARTUP..STARTUP + 7], &CYCLE);
    assert_eq!(&taken[STARTUP + 7..], &CYCLE);
}

#[test]
fn boot_failure_is_fatal() {
    let mut outcomes = vec![true; 4];
    outcomes.push(false);
    let (_, end) = run(&outcomes);
    assert_eq!(end, Some(Step::Configure(4)));
}

#[test]
fn send_failure_keeps_looping() {
    let mut outcomes = vec![true; STARTUP + 5];
    outcomes.push(false);
    outcomes.extend([true; 8]);
    let (taken, end) = run(&outcomes);
    assert_eq!(end, None);
    assert_eq!(taken[STARTUP + 5], Step::Send);
    assert_eq!(taken[STARTUP + 6], Step::Sleep);
    assert_eq!(taken[STARTUP + 7], Step::ImuTemperature);
    assert_eq!(advance(Step::Send, false), Next::Go(Step::Sleep));
    assert_eq!(failure_policy(Step::Send), Policy::Recoverable);
}

#[test]
fn accelerometer_failure_is_fatal() {
    let mut outcomes = vec![true; STARTUP + 2];
    outcomes.push(false);
    outcomes.extend([true; 5]);
    let (taken, end) = run(&outcomes);
    assert_eq!(end, Some(Step::Accelerometer));
    assert!(!taken.contains(&Step::Send));
    assert_eq!(advance(Step::Accelerometer, false), Next::Abort(Step::Accelerometer));
}

#[test]
fn every_read_failure_is_fatal() {
    for s in [Step::ImuTemperature, Step::Gyroscope, Step::Barometer, Step::BatteryVoltage, Step::Configure(0)] {
        assert_eq!(failure_policy(s), Policy::Fatal);
        assert_eq!(advance(s, false), Next::Abort(s));
    }
}

#[test]
fn gauge_identity_failure_is_fatal_before_the_loop() {
    let mut outcomes = vec![true; STARTUP - 1];
    outcomes.push(false);
    outcomes.extend([true; 7]);
    let (taken, end) = run(&outcomes);
    assert_eq!(end, Some(Step::GaugeIdentity));
    assert!(!taken.contains(&Step::ImuTemperature));
    for s in [Step::BarometerSetup, Step::GaugeSetup, Step::GaugeIdentity] {
        assert_eq!(advance(s, false), Next::Abort(s));
    }
}
