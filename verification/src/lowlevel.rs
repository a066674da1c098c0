//! Low-level register programming of the ESP32-S3 touch sensor. Each function
//! appends to a [`TouchBus`] exactly the field stores and reads it performs; values
//! that the hardware reports are taken as arguments, read by the caller before the
//! call.
use vstd::prelude::*;

use crate::regs::{bit, bit_of, st, BusOp, Field, Reg, TouchBus};

verus! {

/// Number of touch sensor channels.
pub const SOC_TOUCH_SENSOR_NUM: u8 = 14;

/// `sar_touch_data_sel` value that selects raw data.
pub const TOUCH_LL_READ_RAW: u8 = 0x00;
/// `sar_touch_data_sel` value that selects the benchmark.
pub const TOUCH_LL_READ_BENCHMARK: u8 = 0x02;
/// `sar_touch_data_sel` value that selects smoothed data.
pub const TOUCH_LL_READ_SMOOTH: u8 = 0x03;

/// `touch_timer_force_done` value that forces the timer done.
pub const TOUCH_LL_TIMER_FORCE_DONE: u8 = 0x3;
/// `touch_timer_force_done` value that releases the timer.
pub const TOUCH_LL_TIMER_DONE: u8 = 0x0;
/// Waiting cycles between TOUCH_START and TOUCH_XPD.
pub const TOUCH_LL_PAD_MEASURE_WAIT_MAX: u8 = 0xFF;

/// Threshold at which a pad is never triggered.
pub const TOUCH_PAD_THRESHOLD_MAX: u32 = 0x1FFFFF;
/// Default charge and discharge times of a measurement.
pub const TOUCH_PAD_MEASURE_CYCLE_DEFAULT: u16 = 500;
/// Default sleep cycles between measurements.
pub const TOUCH_PAD_SLEEP_CYCLE_DEFAULT: u16 = 0xF;
/// Pad index that stands for all pads.
pub const TOUCH_PAD_MAX: u8 = 14;
/// `(1 << SOC_TOUCH_SENSOR_NUM) - 1`: the channel bits that masks are limited to.
pub const TOUCH_PAD_BIT_MASK_ALL: u16 = 0x3fff;
/// `TouchCntSlope::TOUCH_PAD_SLOPE_7`.
pub const TOUCH_PAD_SLOPE_DEFAULT: u8 = 7;
/// Default initial charge level.
pub const TOUCH_PAD_TIE_OPT_DEFAULT: TouchTieOption = TouchTieOption::TOUCH_PAD_TIE_OPT_LOW;
/// `TouchHighVolt::TOUCH_HVOLT_2V7`.
pub const TOUCH_PAD_HIGH_VOLTAGE_THRESHOLD: u8 = 3;
/// `TouchLowVolt::TOUCH_LVOLT_0V5`.
pub const TOUCH_PAD_LOW_VOLTAGE_THRESHOLD: u8 = 0;
/// `TouchHVoltAtten::TOUCH_HVOLT_ATTEN_0V5`.
pub const TOUCH_PAD_ATTEN_VOLTAGE_THRESHOLD: u8 = 2;
/// `TouchPadConnType::TOUCH_PAD_CONN_GND` is connection type 1.
pub const TOUCH_PAD_IDLE_CH_CONNECT_DEFAULT: bool = true;

/// Touch sensor low reference voltage.
#[allow(non_camel_case_types)]
#[derive(Clone, Copy, PartialEq, Eq, Structural, Debug)]
pub enum TouchLowVolt {
    /// No change (-1)
    TOUCH_LVOLT_KEEP,
    /// 0.5V (0)
    TOUCH_LVOLT_0V5,
    /// 0.6V (1)
    TOUCH_LVOLT_0V6,
    /// 0.7V (2)
    TOUCH_LVOLT_0V7,
    /// 0.8V (3)
    TOUCH_LVOLT_0V8,
}

/// Touch sensor high reference voltage.
#[allow(non_camel_case_types)]
#[derive(Clone, Copy, PartialEq, Eq, Structural, Debug)]
pub enum TouchHighVolt {
    /// No change (-1)
    TOUCH_HVOLT_KEEP,
    /// 2.4V (0)
    TOUCH_HVOLT_2V4,
    /// 2.5V (1)
    TOUCH_HVOLT_2V5,
    /// 2.6V (2)
    TOUCH_HVOLT_2V6,
    /// 2.7V (3)
    TOUCH_HVOLT_2V7,
}

/// Touch sensor high reference voltage attenuation.
#[allow(non_camel_case_types)]
#[derive(Clone, Copy, PartialEq, Eq, Structural, Debug)]
pub enum TouchHVoltAtten {
    /// No change (-1)
    TOUCH_HVOLT_ATTEN_KEEP,
    /// 1.5V attenuation (0)
    TOUCH_HVOLT_ATTEN_1V5,
    /// 1.0V attenuation (1)
    TOUCH_HVOLT_ATTEN_1V,
    /// 0.5V attenuation (2)
    TOUCH_HVOLT_ATTEN_0V5,
    /// 0V attenuation (3)
    TOUCH_HVOLT_ATTEN_0V,
}

/// Touch channel idle state configuration.
#[allow(non_camel_case_types)]
#[derive(Clone, Copy, PartialEq, Eq, Structural, Debug)]
pub enum TouchPadConnType {
    /// High resistance state (0)
    TOUCH_PAD_CONN_HIGHZ,
    /// Ground connection (1)
    TOUCH_PAD_CONN_GND,
}

/// Touch sensor FSM mode.
#[allow(non_camel_case_types)]
#[derive(Clone, Copy, PartialEq, Eq, Structural, Debug)]
pub enum TouchFSMMode {
    /// Start the FSM by timer (0)
    TOUCH_FSM_MODE_TIMER,
    /// Start the FSM by software trigger (1)
    TOUCH_FSM_MODE_SW,
}

/// Touch sensor charge/discharge speed.
#[allow(non_camel_case_types)]
#[derive(Clone, Copy, PartialEq, Eq, Structural, Debug)]
pub enum TouchCntSlope {
    TOUCH_PAD_SLOPE_0,
    TOUCH_PAD_SLOPE_1,
    TOUCH_PAD_SLOPE_2,
    TOUCH_PAD_SLOPE_3,
    TOUCH_PAD_SLOPE_4,
    TOUCH_PAD_SLOPE_5,
    TOUCH_PAD_SLOPE_6,
    TOUCH_PAD_SLOPE_7,
}

/// Touch sensor initial charge level.
#[allow(non_camel_case_types)]
#[derive(Clone, Copy, PartialEq, Eq, Structural, Debug)]
pub enum TouchTieOption {
    /// Low level (0)
    TOUCH_PAD_TIE_OPT_LOW,
    /// High level (1)
    TOUCH_PAD_TIE_OPT_HIGH,
}

impl TouchLowVolt {
    pub open spec fn code(self) -> i8 {
        match self {
            TouchLowVolt::TOUCH_LVOLT_KEEP => -1i8,
            TouchLowVolt::TOUCH_LVOLT_0V5 => 0,
            TouchLowVolt::TOUCH_LVOLT_0V6 => 1,
            TouchLowVolt::TOUCH_LVOLT_0V7 => 2,
            TouchLowVolt::TOUCH_LVOLT_0V8 => 3,
        }
    }

    /// The register encoding of the voltage.
    pub fn value(&self) -> (v: i8)
        ensures
            v == self.code(),
    {
        match self {
            TouchLowVolt::TOUCH_LVOLT_KEEP => -1i8,
            TouchLowVolt::TOUCH_LVOLT_0V5 => 0,
            TouchLowVolt::TOUCH_LVOLT_0V6 => 1,
            TouchLowVolt::TOUCH_LVOLT_0V7 => 2,
            TouchLowVolt::TOUCH_LVOLT_0V8 => 3,
        }
    }
}

impl TouchHighVolt {
    pub open spec fn code(self) -> i8 {
        match self {
            TouchHighVolt::TOUCH_HVOLT_KEEP => -1i8,
            TouchHighVolt::TOUCH_HVOLT_2V4 => 0,
            TouchHighVolt::TOUCH_HVOLT_2V5 => 1,
            TouchHighVolt::TOUCH_HVOLT_2V6 => 2,
            TouchHighVolt::TOUCH_HVOLT_2V7 => 3,
        }
    }

    /// The register encoding of the voltage.
    pub fn value(&self) -> (v: i8)
        ensures
            v == self.code(),
    {
        match self {
            TouchHighVolt::TOUCH_HVOLT_KEEP => -1i8,
            TouchHighVolt::TOUCH_HVOLT_2V4 => 0,
            TouchHighVolt::TOUCH_HVOLT_2V5 => 1,
            TouchHighVolt::TOUCH_HVOLT_2V6 => 2,
            TouchHighVolt::TOUCH_HVOLT_2V7 => 3,
        }
    }
}

impl TouchHVoltAtten {
    pub open spec fn code(self) -> i8 {
        match self {
            TouchHVoltAtten::TOUCH_HVOLT_ATTEN_KEEP => -1i8,
            TouchHVoltAtten::TOUCH_HVOLT_ATTEN_1V5 => 0,
            TouchHVoltAtten::TOUCH_HVOLT_ATTEN_1V => 1,
            TouchHVoltAtten::TOUCH_HVOLT_ATTEN_0V5 => 2,
            TouchHVoltAtten::TOUCH_HVOLT_ATTEN_0V => 3,
        }
    }

    /// The register encoding of the attenuation.
    pub fn value(&self) -> (v: i8)
        ensures
            v == self.code(),
    {
        match self {
            TouchHVoltAtten::TOUCH_HVOLT_ATTEN_KEEP => -1i8,
            TouchHVoltAtten::TOUCH_HVOLT_ATTEN_1V5 => 0,
            TouchHVoltAtten::TOUCH_HVOLT_ATTEN_1V => 1,
            TouchHVoltAtten::TOUCH_HVOLT_ATTEN_0V5 => 2,
            TouchHVoltAtten::TOUCH_HVOLT_ATTEN_0V => 3,
        }
    }
}

impl TouchPadConnType {
    pub open spec fn code(self) -> i8 {
        match self {
            TouchPadConnType::TOUCH_PAD_CONN_HIGHZ => 0,
            TouchPadConnType::TOUCH_PAD_CONN_GND => 1,
        }
    }

    /// The register encoding of the connection type.
    pub fn value(&self) -> (v: i8)
        ensures
            v == self.code(),
    {
        match self {
            TouchPadConnType::TOUCH_PAD_CONN_HIGHZ => 0,
            TouchPadConnType::TOUCH_PAD_CONN_GND => 1,
        }
    }
}

impl TouchFSMMode {
    pub open spec fn code(self) -> i8 {
        match self {
            TouchFSMMode::TOUCH_FSM_MODE_TIMER => 0,
            TouchFSMMode::TOUCH_FSM_MODE_SW => 1,
        }
    }

    /// The register encoding of the mode.
    pub fn value(&self) -> (v: i8)
        ensures
            v == self.code(),
    {
        match self {
            TouchFSMMode::TOUCH_FSM_MODE_TIMER => 0,
            TouchFSMMode::TOUCH_FSM_MODE_SW => 1,
        }
    }
}

impl TouchCntSlope {
    pub open spec fn code(self) -> i8 {
        match self {
            TouchCntSlope::TOUCH_PAD_SLOPE_0 => 0,
            TouchCntSlope::TOUCH_PAD_SLOPE_1 => 1,
            TouchCntSlope::TOUCH_PAD_SLOPE_2 => 2,
            TouchCntSlope::TOUCH_PAD_SLOPE_3 => 3,
            TouchCntSlope::TOUCH_PAD_SLOPE_4 => 4,
            TouchCntSlope::TOUCH_PAD_SLOPE_5 => 5,
            TouchCntSlope::TOUCH_PAD_SLOPE_6 => 6,
            TouchCntSlope::TOUCH_PAD_SLOPE_7 => 7,
        }
    }

    /// The register encoding of the slope.
    pub fn value(&self) -> (v: i8)
        ensures
            v == self.code(),
    {
        match self {
            TouchCntSlope::TOUCH_PAD_SLOPE_0 => 0,
            TouchCntSlope::TOUCH_PAD_SLOPE_1 => 1,
            TouchCntSlope::TOUCH_PAD_SLOPE_2 => 2,
            TouchCntSlope::TOUCH_PAD_SLOPE_3 => 3,
            TouchCntSlope::TOUCH_PAD_SLOPE_4 => 4,
            TouchCntSlope::TOUCH_PAD_SLOPE_5 => 5,
            TouchCntSlope::TOUCH_PAD_SLOPE_6 => 6,
            TouchCntSlope::TOUCH_PAD_SLOPE_7 => 7,
        }
    }
}

impl TouchTieOption {
    pub open spec fn code(self) -> i8 {
        match self {
            TouchTieOption::TOUCH_PAD_TIE_OPT_LOW => 0,
            TouchTieOption::TOUCH_PAD_TIE_OPT_HIGH => 1,
        }
    }

    /// The register encoding of the option.
    pub fn value(&self) -> (v: i8)
        ensures
            v == self.code(),
    {
        match self {
            TouchTieOption::TOUCH_PAD_TIE_OPT_LOW => 0,
            TouchTieOption::TOUCH_PAD_TIE_OPT_HIGH => 1,
        }
    }
}

/// The default constants are the encodings of the enum variants they are named after.
pub proof fn lemma_default_encodings()
    ensures
        TOUCH_PAD_SLOPE_DEFAULT == TouchCntSlope::TOUCH_PAD_SLOPE_7.code(),
        TOUCH_PAD_HIGH_VOLTAGE_THRESHOLD == TouchHighVolt::TOUCH_HVOLT_2V7.code(),
        TOUCH_PAD_LOW_VOLTAGE_THRESHOLD == TouchLowVolt::TOUCH_LVOLT_0V5.code(),
        TOUCH_PAD_ATTEN_VOLTAGE_THRESHOLD == TouchHVoltAtten::TOUCH_HVOLT_ATTEN_0V5.code(),
        TOUCH_PAD_IDLE_CH_CONNECT_DEFAULT == (TouchPadConnType::TOUCH_PAD_CONN_GND.code() == 1),
        TOUCH_PAD_BIT_MASK_ALL == (1u16 << SOC_TOUCH_SENSOR_NUM) - 1,
        TOUCH_PAD_TIE_OPT_DEFAULT.code() == 0,
{
    assert((1u16 << 14u8) - 1 == 0x3fff) by (bit_vector);
}

// ---------------------------------------------------------------------------
// Plans: the accesses of each function
// ---------------------------------------------------------------------------

pub open spec fn stop_fsm_plan() -> Seq<BusOp> {
    seq![
        st(Reg::RtcTouchCtrl2, Field::StartEn, 0),
        st(Reg::RtcTouchCtrl2, Field::SlpTimerEn, 0),
        st(Reg::RtcTouchCtrl2, Field::TimerForceDone, TOUCH_LL_TIMER_FORCE_DONE as u32),
        st(Reg::RtcTouchCtrl2, Field::TimerForceDone, TOUCH_LL_TIMER_DONE as u32),
    ]
}

/// One store of 1 to each of the six touch interrupt bits of register `r`.
pub open spec fn touch_intr_plan(r: Reg) -> Seq<BusOp> {
    seq![
        st(r, Field::TouchDone, 1),
        st(r, Field::TouchActive, 1),
        st(r, Field::TouchInactive, 1),
        st(r, Field::TouchScanDone, 1),
        st(r, Field::TouchTimeout, 1),
        st(r, Field::TouchApproachLoopDone, 1),
    ]
}

pub open spec fn intr_disable_plan() -> Seq<BusOp> {
    touch_intr_plan(Reg::RtcIntEnaW1tc)
}

pub open spec fn intr_clear_plan() -> Seq<BusOp> {
    touch_intr_plan(Reg::RtcIntClr)
}

pub open spec fn clear_channel_mask_plan() -> Seq<BusOp> {
    seq![st(Reg::SensTouchConf, Field::Outen, 0), st(Reg::RtcTouchScanCtrl, Field::ScanPadMap, 0)]
}

pub open spec fn clear_trigger_status_mask_plan() -> Seq<BusOp> {
    seq![st(Reg::SensTouchConf, Field::StatusClr, 1)]
}

pub open spec fn set_meas_times_plan(meas_time: u16) -> Seq<BusOp> {
    seq![
        st(Reg::RtcTouchCtrl1, Field::MeasNum, meas_time as u32),
        st(Reg::RtcTouchCtrl2, Field::XpdWait, TOUCH_LL_PAD_MEASURE_WAIT_MAX as u32),
    ]
}

pub open spec fn set_sleep_time_plan(sleep_time: u16) -> Seq<BusOp> {
    seq![st(Reg::RtcTouchCtrl1, Field::SleepCycles, sleep_time as u32)]
}

/// A plan of a single field store.
pub open spec fn one_store_plan(r: Reg, f: Field, v: u32) -> Seq<BusOp> {
    seq![st(r, f, v)]
}

/// The channel bits stored by a benchmark reset of pad `touch_num`.
pub open spec fn benchmark_clear_bits(touch_num: u8) -> u16
    recommends
        touch_num < 16,
{
    if touch_num == TOUCH_PAD_MAX {
        TOUCH_PAD_BIT_MASK_ALL
    } else {
        (1u16 << touch_num)
    }
}

pub open spec fn fsm_mode_bit(mode: TouchFSMMode) -> u32 {
    bit(mode == TouchFSMMode::TOUCH_FSM_MODE_SW)
}

/// The mode that a `touch_start_force` bit stands for.
pub open spec fn fsm_mode_of(start_force: bool) -> TouchFSMMode {
    if start_force {
        TouchFSMMode::TOUCH_FSM_MODE_SW
    } else {
        TouchFSMMode::TOUCH_FSM_MODE_TIMER
    }
}

/// The status register that holds the data of pad `touch_num` (pads 1 to 14).
pub open spec fn status_reg(touch_num: u8) -> Reg {
    Reg::SensTouchStatus((touch_num - 1) as u8)
}

pub open spec fn read_raw_data_plan(touch_num: u8) -> Seq<BusOp> {
    seq![
        st(Reg::SensTouchConf, Field::DataSel, TOUCH_LL_READ_RAW as u32),
        BusOp::Read(status_reg(touch_num), Field::Data),
    ]
}

pub open spec fn start_sw_meas_plan() -> Seq<BusOp> {
    seq![st(Reg::RtcTouchCtrl2, Field::StartEn, 0), st(Reg::RtcTouchCtrl2, Field::StartEn, 1)]
}

/// The two stores that pulse the timer's force-done signal.
pub open spec fn timer_pulse_plan() -> Seq<BusOp> {
    seq![
        st(Reg::RtcTouchCtrl2, Field::TimerForceDone, TOUCH_LL_TIMER_FORCE_DONE as u32),
        st(Reg::RtcTouchCtrl2, Field::TimerForceDone, TOUCH_LL_TIMER_DONE as u32),
    ]
}

/// `start_force` is the `touch_ctrl2.touch_start_force` bit as read; the sleep timer
/// runs exactly in timer mode.
pub open spec fn start_fsm_plan(start_force: bool) -> Seq<BusOp> {
    timer_pulse_plan() + one_store_plan(
        Reg::RtcTouchCtrl2,
        Field::SlpTimerEn,
        bit(fsm_mode_of(start_force) == TouchFSMMode::TOUCH_FSM_MODE_TIMER),
    )
}

/// The register that holds the slope of pad `touch_number`.
pub open spec fn slope_reg(touch_number: u8) -> Reg {
    if touch_number < 10 {
        Reg::RtcTouchDac
    } else {
        Reg::RtcTouchDac1
    }
}

/// A channel map after enabling `enable_mask` on top of `current`.
pub open spec fn channel_mask_after(current: u16, enable_mask: u16) -> u16 {
    current | (enable_mask & TOUCH_PAD_BIT_MASK_ALL)
}

/// `current_map` and `current_outen` are `touch_scan_pad_map` and
/// `sar_touch_outen` as read.
pub open spec fn set_channel_mask_plan(current_map: u16, current_outen: u16, enable_mask: u16) -> Seq<BusOp> {
    seq![
        st(Reg::RtcTouchScanCtrl, Field::ScanPadMap, channel_mask_after(current_map, enable_mask) as u32),
        st(Reg::SensTouchConf, Field::Outen, channel_mask_after(current_outen, enable_mask) as u32),
    ]
}

// ---------------------------------------------------------------------------
// Functions
// ---------------------------------------------------------------------------

/// Stops the touch sensor FSM timer: clears `touch_start_en` and
/// `touch_slp_timer_en`, then pulses `touch_timer_force_done`
/// (`TOUCH_LL_TIMER_FORCE_DONE`, then `TOUCH_LL_TIMER_DONE`).
pub fn touch_ll_stop_fsm(bus: &mut TouchBus)
    ensures
        final(bus)@ == old(bus)@ + stop_fsm_plan(),
{
    bus.store(Reg::RtcTouchCtrl2, Field::StartEn, 0);
    bus.store(Reg::RtcTouchCtrl2, Field::SlpTimerEn, 0);
    bus.store(Reg::RtcTouchCtrl2, Field::TimerForceDone, TOUCH_LL_TIMER_FORCE_DONE as u32);
    bus.store(Reg::RtcTouchCtrl2, Field::TimerForceDone, TOUCH_LL_TIMER_DONE as u32);
    assert(bus@ =~= old(bus)@ + stop_fsm_plan());
}

fn store_touch_intr_bits(bus: &mut TouchBus, r: Reg)
    ensures
        final(bus)@ == old(bus)@ + touch_intr_plan(r),
{
    bus.store(r, Field::TouchDone, 1);
    bus.store(r, Field::TouchActive, 1);
    bus.store(r, Field::TouchInactive, 1);
    bus.store(r, Field::TouchScanDone, 1);
    bus.store(r, Field::TouchTimeout, 1);
    bus.store(r, Field::TouchApproachLoopDone, 1);
    assert(bus@ =~= old(bus)@ + touch_intr_plan(r));
}

/// Disables the six touch interrupts (write-one-to-clear enable register).
pub fn touch_ll_intr_disable(bus: &mut TouchBus)
    ensures
        final(bus)@ == old(bus)@ + intr_disable_plan(),
{
    store_touch_intr_bits(bus, Reg::RtcIntEnaW1tc);
}

/// Clears the six pending touch interrupts.
pub fn touch_ll_intr_clear(bus: &mut TouchBus)
    ensures
        final(bus)@ == old(bus)@ + intr_clear_plan(),
{
    store_touch_intr_bits(bus, Reg::RtcIntClr);
}

/// Disables every channel: zeroes `sar_touch_outen` and `touch_scan_pad_map`.
pub fn touch_ll_clear_channel_mask(bus: &mut TouchBus)
    ensures
        final(bus)@ == old(bus)@ + clear_channel_mask_plan(),
{
    bus.store(Reg::SensTouchConf, Field::Outen, 0);
    bus.store(Reg::RtcTouchScanCtrl, Field::ScanPadMap, 0);
    assert(bus@ =~= old(bus)@ + clear_channel_mask_plan());
}

/// Clears all touch sensor status.
pub fn touch_ll_clear_trigger_status_mask(bus: &mut TouchBus)
    ensures
        final(bus)@ == old(bus)@ + clear_trigger_status_mask_plan(),
{
    bus.store(Reg::SensTouchConf, Field::StatusClr, 1);
    assert(bus@ =~= old(bus)@ + clear_trigger_status_mask_plan());
}

/// Sets the charge/discharge times of a measurement, then the wait before
/// TOUCH_XPD to `TOUCH_LL_PAD_MEASURE_WAIT_MAX`.
pub fn touch_ll_set_meas_times(bus: &mut TouchBus, meas_time: u16)
    ensures
        final(bus)@ == old(bus)@ + set_meas_times_plan(meas_time),
{
    bus.store(Reg::RtcTouchCtrl1, Field::MeasNum, meas_time as u32);
    bus.store(Reg::RtcTouchCtrl2, Field::XpdWait, TOUCH_LL_PAD_MEASURE_WAIT_MAX as u32);
    assert(bus@ =~= old(bus)@ + set_meas_times_plan(meas_time));
}

/// Sets the sleep cycles between measurements.
pub fn touch_ll_set_sleep_time(bus: &mut TouchBus, sleep_time: u16)
    ensures
        final(bus)@ == old(bus)@ + set_sleep_time_plan(sleep_time),
{
    bus.store(Reg::RtcTouchCtrl1, Field::SleepCycles, sleep_time as u32);
    assert(bus@ =~= old(bus)@ + set_sleep_time_plan(sleep_time));
}

/// Selects the sensor dbias for low power in sleep.
pub fn touch_ll_sleep_low_power(bus: &mut TouchBus, is_low_power: bool)
    ensures
        final(bus)@ == old(bus)@ + one_store_plan(Reg::RtcTouchCtrl2, Field::Dbias, bit(is_low_power)),
{
    bus.store(Reg::RtcTouchCtrl2, Field::Dbias, bit_of(is_low_power));
    assert(bus@ =~= old(bus)@ + one_store_plan(Reg::RtcTouchCtrl2, Field::Dbias, bit(is_low_power)));
}

/// Sets the high voltage threshold of charge.
pub fn touch_ll_set_voltage_high(bus: &mut TouchBus, reph: u8)
    ensures
        final(bus)@ == old(bus)@ + one_store_plan(Reg::RtcTouchCtrl2, Field::Drefh, reph as u32),
{
    bus.store(Reg::RtcTouchCtrl2, Field::Drefh, reph as u32);
    assert(bus@ =~= old(bus)@ + one_store_plan(Reg::RtcTouchCtrl2, Field::Drefh, reph as u32));
}

/// Sets the low voltage threshold of discharge.
pub fn touch_ll_set_voltage_low(bus: &mut TouchBus, refl: u8)
    ensures
        final(bus)@ == old(bus)@ + one_store_plan(Reg::RtcTouchCtrl2, Field::Drefl, refl as u32),
{
    bus.store(Reg::RtcTouchCtrl2, Field::Drefl, refl as u32);
    assert(bus@ =~= old(bus)@ + one_store_plan(Reg::RtcTouchCtrl2, Field::Drefl, refl as u32));
}

/// Sets the high voltage attenuation of charge.
pub fn touch_ll_set_voltage_attenuation(bus: &mut TouchBus, atten: u8)
    ensures
        final(bus)@ == old(bus)@ + one_store_plan(Reg::RtcTouchCtrl2, Field::Drange, atten as u32),
{
    bus.store(Reg::RtcTouchCtrl2, Field::Drange, atten as u32);
    assert(bus@ =~= old(bus)@ + one_store_plan(Reg::RtcTouchCtrl2, Field::Drange, atten as u32));
}

/// Sets the connection of idle channels: `true` grounds them, `false` leaves them
/// in high resistance.
pub fn touch_ll_set_idle_channel_connect(bus: &mut TouchBus, conn_type: bool)
    ensures
        final(bus)@ == old(bus)@ + one_store_plan(
            Reg::RtcTouchScanCtrl,
            Field::InactiveConnection,
            bit(conn_type),
        ),
{
    bus.store(Reg::RtcTouchScanCtrl, Field::InactiveConnection, bit_of(conn_type));
    assert(bus@ =~= old(bus)@ + one_store_plan(
        Reg::RtcTouchScanCtrl,
        Field::InactiveConnection,
        bit(conn_type),
    ));
}

/// Enables or disables the clock gate of the sensor.
pub fn touch_ll_clkgate(bus: &mut TouchBus, enable: bool)
    ensures
        final(bus)@ == old(bus)@ + one_store_plan(Reg::RtcTouchCtrl2, Field::ClkgateEn, bit(enable)),
{
    bus.store(Reg::RtcTouchCtrl2, Field::ClkgateEn, bit_of(enable));
    assert(bus@ =~= old(bus)@ + one_store_plan(Reg::RtcTouchCtrl2, Field::ClkgateEn, bit(enable)));
}

/// Resets the benchmark of pad `touch_num`, or of every pad when `touch_num` is
/// `TOUCH_PAD_MAX`. The channel bit is a `u16` shift, so `touch_num` is below 16.
pub fn touch_ll_reset_benchmark(bus: &mut TouchBus, touch_num: u8)
    requires
        touch_num < 16,
    ensures
        final(bus)@ == old(bus)@ + one_store_plan(
            Reg::SensTouchChnSt,
            Field::ChannelClr,
            benchmark_clear_bits(touch_num) as u32,
        ),
{
    if touch_num == TOUCH_PAD_MAX {
        bus.store(Reg::SensTouchChnSt, Field::ChannelClr, TOUCH_PAD_BIT_MASK_ALL as u32);
    } else {
        let b: u16 = 1u16 << touch_num;
        bus.store(Reg::SensTouchChnSt, Field::ChannelClr, b as u32);
    }
    assert(bus@ =~= old(bus)@ + one_store_plan(
        Reg::SensTouchChnSt,
        Field::ChannelClr,
        benchmark_clear_bits(touch_num) as u32,
    ));
}

/// Resets the sleep channel's benchmark.
pub fn touch_ll_sleep_reset_benchmark(bus: &mut TouchBus)
    ensures
        final(bus)@ == old(bus)@ + one_store_plan(Reg::RtcTouchApproach, Field::SlpChannelClr, 1),
{
    bus.store(Reg::RtcTouchApproach, Field::SlpChannelClr, 1);
    assert(bus@ =~= old(bus)@ + one_store_plan(Reg::RtcTouchApproach, Field::SlpChannelClr, 1));
}

/// Sets the FSM mode: `touch_start_force` is 1 for the software mode.
pub fn touch_ll_set_fsm_mode(bus: &mut TouchBus, mode: TouchFSMMode)
    ensures
        final(bus)@ == old(bus)@ + one_store_plan(Reg::RtcTouchCtrl2, Field::StartForce, fsm_mode_bit(mode)),
{
    bus.store(Reg::RtcTouchCtrl2, Field::StartForce, bit_of(mode.value() == 1));
    assert(bus@ =~= old(bus)@ + one_store_plan(Reg::RtcTouchCtrl2, Field::StartForce, fsm_mode_bit(mode)));
}

/// The FSM mode that the `touch_ctrl2.touch_start_force` bit, as read, stands for.
pub fn touch_ll_get_fsm_mode(start_force: bool) -> (mode: TouchFSMMode)
    ensures
        mode == fsm_mode_of(start_force),
        (mode == TouchFSMMode::TOUCH_FSM_MODE_SW) == start_force,
{
    if start_force {
        TouchFSMMode::TOUCH_FSM_MODE_SW
    } else {
        TouchFSMMode::TOUCH_FSM_MODE_TIMER
    }
}

/// Selects raw data output, then reads the data of pad `touch_num` from status
/// register `touch_num - 1`; the read is the last access of the log, and its value
/// is the pad's raw data.
pub fn touch_ll_read_raw_data(bus: &mut TouchBus, touch_num: u8)
    requires
        1 <= touch_num <= 14,
    ensures
        final(bus)@ == old(bus)@ + read_raw_data_plan(touch_num),
{
    bus.store(Reg::SensTouchConf, Field::DataSel, TOUCH_LL_READ_RAW as u32);
    bus.read(Reg::SensTouchStatus(touch_num - 1), Field::Data);
    assert(bus@ =~= old(bus)@ + read_raw_data_plan(touch_num));
}

/// Triggers a software measurement: `touch_start_en` is stored 0, then 1.
pub fn touch_ll_start_sw_meas(bus: &mut TouchBus)
    ensures
        final(bus)@ == old(bus)@ + start_sw_meas_plan(),
{
    bus.store(Reg::RtcTouchCtrl2, Field::StartEn, 0);
    bus.store(Reg::RtcTouchCtrl2, Field::StartEn, 1);
    assert(bus@ =~= old(bus)@ + start_sw_meas_plan());
}

/// Whether the measurement is done, given the `sar_touch_meas_done` bit as read.
pub fn touch_ll_is_measure_done(meas_done: bool) -> (done: bool)
    ensures
        done == meas_done,
{
    meas_done
}

/// Starts the FSM timer: pulses `touch_timer_force_done` so that the timer always
/// gets the measurement-done signal, then enables the sleep timer exactly when the
/// FSM is in timer mode. `start_force` is `touch_ctrl2.touch_start_force` as read;
/// the pulse does not change it.
pub fn touch_ll_start_fsm(bus: &mut TouchBus, start_force: bool)
    ensures
        final(bus)@ == old(bus)@ + start_fsm_plan(start_force),
{
    bus.store(Reg::RtcTouchCtrl2, Field::TimerForceDone, TOUCH_LL_TIMER_FORCE_DONE as u32);
    bus.store(Reg::RtcTouchCtrl2, Field::TimerForceDone, TOUCH_LL_TIMER_DONE as u32);
    if touch_ll_get_fsm_mode(start_force) == TouchFSMMode::TOUCH_FSM_MODE_TIMER {
        bus.store(Reg::RtcTouchCtrl2, Field::SlpTimerEn, 1);
    } else {
        bus.store(Reg::RtcTouchCtrl2, Field::SlpTimerEn, 0);
    }
    assert(bus@ =~= old(bus)@ + start_fsm_plan(start_force));
}

/// Sets the trigger threshold of pad `touch_number`, in threshold register
/// `touch_number - 1`; the SENS block holds 14 threshold registers, for pads 1 to 14.
pub fn touch_ll_set_threshold(bus: &mut TouchBus, touch_number: u8, threshold: u32)
    requires
        1 <= touch_number <= 14,
    ensures
        final(bus)@ == old(bus)@ + one_store_plan(
            Reg::SensTouchThres((touch_number - 1) as u8),
            Field::Bits,
            threshold,
        ),
{
    bus.store(Reg::SensTouchThres(touch_number - 1), Field::Bits, threshold);
    assert(bus@ =~= old(bus)@ + one_store_plan(
        Reg::SensTouchThres((touch_number - 1) as u8),
        Field::Bits,
        threshold,
    ));
}

/// Sets the charge/discharge speed of pad `touch_number`: pads 0 to 9 in
/// `touch_dac`, pads 10 to 14 in `touch_dac1`. Other pad numbers have no slope
/// field.
pub fn touch_ll_set_slope(bus: &mut TouchBus, touch_number: u8, slope: u8)
    requires
        touch_number <= 14,
    ensures
        final(bus)@ == old(bus)@ + one_store_plan(
            slope_reg(touch_number),
            Field::PadDac(touch_number),
            slope as u32,
        ),
{
    if touch_number < 10 {
        bus.store(Reg::RtcTouchDac, Field::PadDac(touch_number), slope as u32);
    } else {
        bus.store(Reg::RtcTouchDac1, Field::PadDac(touch_number), slope as u32);
    }
    assert(bus@ =~= old(bus)@ + one_store_plan(
        slope_reg(touch_number),
        Field::PadDac(touch_number),
        slope as u32,
    ));
}

/// Sets the initial charge level of pad `touch_number`; the RTC IO block holds 15
/// touch pad registers.
pub fn touch_ll_set_tie_option(bus: &mut TouchBus, touch_number: u8, tie_option: TouchTieOption)
    requires
        touch_number < 15,
    ensures
        final(bus)@ == old(bus)@ + one_store_plan(
            Reg::RtcIoTouchPad(touch_number),
            Field::TieOpt,
            tie_option.code() as u32,
        ),
{
    match tie_option {
        TouchTieOption::TOUCH_PAD_TIE_OPT_LOW => {
            bus.store(Reg::RtcIoTouchPad(touch_number), Field::TieOpt, 0);
        },
        TouchTieOption::TOUCH_PAD_TIE_OPT_HIGH => {
            bus.store(Reg::RtcIoTouchPad(touch_number), Field::TieOpt, 1);
        },
    }
    assert(bus@ =~= old(bus)@ + one_store_plan(
        Reg::RtcIoTouchPad(touch_number),
        Field::TieOpt,
        tie_option.code() as u32,
    ));
}

/// Adds the channels of `enable_mask` (limited to `TOUCH_PAD_BIT_MASK_ALL`) to the
/// scan map and to the channel outputs. `current_map` and `current_outen` are
/// `touch_scan_pad_map` and `sar_touch_outen` as read.
pub fn touch_ll_set_channel_mask(bus: &mut TouchBus, enable_mask: u16, current_map: u16, current_outen: u16)
    ensures
        final(bus)@ == old(bus)@ + set_channel_mask_plan(current_map, current_outen, enable_mask),
{
    let enable: u16 = enable_mask & TOUCH_PAD_BIT_MASK_ALL;
    let map: u16 = current_map | enable;
    let outen: u16 = current_outen | enable;
    bus.store(Reg::RtcTouchScanCtrl, Field::ScanPadMap, map as u32);
    bus.store(Reg::SensTouchConf, Field::Outen, outen as u32);
    assert(bus@ =~= old(bus)@ + set_channel_mask_plan(current_map, current_outen, enable_mask));
}

} // verus!
