//! Register-protocol layer and telemetry loop of a battery-powered sensor node:
//! a shared two-wire bus contract, a fuel-gauge driver, the IMU boot sequence,
//! the fixed binary sample record and the acquisition loop's decisions.
pub mod bus;
pub mod max17048;
pub mod sample;
pub mod imu;
pub mod telemetry;
