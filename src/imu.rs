use vstd::prelude::*;

verus! {

/// One setting of the inertial sensor's boot configuration.
#[derive(Clone, Copy, Debug, PartialEq, Eq, Structural)]
pub enum ImuSetting {
    /// CTRL3_C: reboot memory content.
    Boot,
    /// CTRL3_C: block data update, so no value is read mid-update.
    BlockDataUpdate,
    /// CTRL3_C: register address increment for burst reads.
    AutoIncrement,
    /// CTRL9_XL: data-enable on the X axis.
    DataEnableX,
    /// CTRL9_XL: data-enable on the Y axis.
    DataEnableY,
    /// CTRL9_XL: data-enable on the Z axis.
    DataEnableZ,
    /// CTRL9_XL: the configuration bit that data-enable needs.
    DeviceConf,
    /// CTRL1_XL: accelerometer output data rate 52 Hz.
    AccelDataRate52Hz,
    /// CTRL1_XL: accelerometer full scale ±4 g.
    AccelFullScale4g,
    /// CTRL1_XL: accelerometer second-stage low-pass filter.
    AccelLowPass2,
    /// CTRL2_G: gyroscope output data rate 52 Hz.
    GyroDataRate52Hz,
    /// CTRL2_G: gyroscope full scale ±500 °/s.
    GyroFullScale500Dps,
    /// CTRL7_G: gyroscope high-performance mode.
    GyroHighPerformance,
}

/// The boot configuration, in the order in which it must be applied.
pub open spec fn boot_plan() -> Seq<ImuSetting> {
    seq![
        ImuSetting::Boot,
        ImuSetting::BlockDataUpdate,
        ImuSetting::AutoIncrement,
        ImuSetting::DataEnableX,
        ImuSetting::DataEnableY,
        ImuSetting::DataEnableZ,
        ImuSetting::DeviceConf,
        ImuSetting::AccelDataRate52Hz,
        ImuSetting::AccelFullScale4g,
        ImuSetting::AccelLowPass2,
        ImuSetting::GyroDataRate52Hz,
        ImuSetting::GyroFullScale500Dps,
        ImuSetting::GyroHighPerformance,
    ]
}

/// Number of settings in the boot configuration.
pub const BOOT_STEPS: usize = 13;

/// The boot configuration as an ordered list.
pub fn boot_sequence() -> (r: Vec<ImuSetting>)
    ensures
        r@ == boot_plan(),
        r@.len() == BOOT_STEPS,
{
    let r = vec![
        ImuSetting::Boot,
        ImuSetting::BlockDataUpdate,
        ImuSetting::AutoIncrement,
        ImuSetting::DataEnableX,
        ImuSetting::DataEnableY,
        ImuSetting::DataEnableZ,
        ImuSetting::DeviceConf,
        ImuSetting::AccelDataRate52Hz,
        ImuSetting::AccelFullScale4g,
        ImuSetting::AccelLowPass2,
        ImuSetting::GyroDataRate52Hz,
        ImuSetting::GyroFullScale500Dps,
        ImuSetting::GyroHighPerformance,
    ];
    assert(r@ =~= boot_plan());
    r
}

/// The `i`-th setting of the boot configuration.
pub fn boot_setting(i: usize) -> (r: ImuSetting)
    requires
        i < BOOT_STEPS,
    ensures
        r == boot_plan()[i as int],
{
    let plan = boot_sequence();
    plan[i]
}

} // verus!
