//! The common touch sensor HAL layer built on the low-level functions.
use vstd::prelude::*;

use crate::lowlevel::{
    clear_channel_mask_plan, clear_trigger_status_mask_plan, fsm_mode_bit, intr_clear_plan,
    intr_disable_plan, one_store_plan, read_raw_data_plan, set_channel_mask_plan,
    set_meas_times_plan, set_sleep_time_plan, slope_reg, start_fsm_plan, start_sw_meas_plan,
    stop_fsm_plan, touch_ll_clear_channel_mask, touch_ll_clear_trigger_status_mask,
    touch_ll_clkgate, touch_ll_intr_clear, touch_ll_intr_disable, touch_ll_is_measure_done,
    touch_ll_read_raw_data, touch_ll_reset_benchmark, touch_ll_set_channel_mask,
    touch_ll_set_fsm_mode, touch_ll_set_idle_channel_connect, touch_ll_set_meas_times,
    touch_ll_set_sleep_time, touch_ll_set_slope, touch_ll_set_threshold, touch_ll_set_tie_option,
    touch_ll_set_voltage_attenuation, touch_ll_set_voltage_high, touch_ll_set_voltage_low,
    touch_ll_sleep_low_power, touch_ll_sleep_reset_benchmark, touch_ll_start_fsm,
    touch_ll_start_sw_meas, touch_ll_stop_fsm, TouchFSMMode, TOUCH_PAD_ATTEN_VOLTAGE_THRESHOLD,
    TOUCH_PAD_BIT_MASK_ALL, TOUCH_PAD_HIGH_VOLTAGE_THRESHOLD, TOUCH_PAD_IDLE_CH_CONNECT_DEFAULT,
    TOUCH_PAD_LOW_VOLTAGE_THRESHOLD, TOUCH_PAD_MAX, TOUCH_PAD_MEASURE_CYCLE_DEFAULT,
    TOUCH_PAD_SLEEP_CYCLE_DEFAULT, TOUCH_PAD_SLOPE_DEFAULT, TOUCH_PAD_THRESHOLD_MAX,
    TOUCH_PAD_TIE_OPT_DEFAULT,
};
use crate::regs::{BusOp, Field, Reg, TouchBus};

verus! {

/// The accesses of [`touch_init_hal`].
pub open spec fn init_hal_plan() -> Seq<BusOp> {
    stop_fsm_plan() + intr_disable_plan() + intr_clear_plan() + clear_channel_mask_plan()
        + clear_trigger_status_mask_plan() + set_meas_times_plan(TOUCH_PAD_MEASURE_CYCLE_DEFAULT)
        + set_sleep_time_plan(TOUCH_PAD_SLEEP_CYCLE_DEFAULT) + one_store_plan(
        Reg::RtcTouchCtrl2,
        Field::Dbias,
        1,
    ) + one_store_plan(Reg::RtcTouchCtrl2, Field::Drefh, TOUCH_PAD_HIGH_VOLTAGE_THRESHOLD as u32)
        + one_store_plan(Reg::RtcTouchCtrl2, Field::Drefl, TOUCH_PAD_LOW_VOLTAGE_THRESHOLD as u32)
        + one_store_plan(Reg::RtcTouchCtrl2, Field::Drange, TOUCH_PAD_ATTEN_VOLTAGE_THRESHOLD as u32)
        + one_store_plan(Reg::RtcTouchScanCtrl, Field::InactiveConnection, 1) + one_store_plan(
        Reg::RtcTouchCtrl2,
        Field::ClkgateEn,
        1,
    ) + one_store_plan(Reg::SensTouchChnSt, Field::ChannelClr, TOUCH_PAD_BIT_MASK_ALL as u32)
        + one_store_plan(Reg::RtcTouchApproach, Field::SlpChannelClr, 1)
}

/// The accesses of [`touch_hal_config`].
pub open spec fn hal_config_plan(touch_number: u8) -> Seq<BusOp>
    recommends
        1 <= touch_number <= 14,
{
    one_store_plan(
        Reg::SensTouchThres((touch_number - 1) as u8),
        Field::Bits,
        TOUCH_PAD_THRESHOLD_MAX,
    ) + one_store_plan(
        slope_reg(touch_number),
        Field::PadDac(touch_number),
        TOUCH_PAD_SLOPE_DEFAULT as u32,
    ) + one_store_plan(
        Reg::RtcIoTouchPad(touch_number),
        Field::TieOpt,
        TOUCH_PAD_TIE_OPT_DEFAULT.code() as u32,
    )
}

/// The channel mask of pad `touch_number`: bit `touch_number` of an `i32`, cut to
/// 16 bits.
pub open spec fn pad_mask(touch_number: u8) -> u16
    recommends
        touch_number < 32,
{
    (1i32 << touch_number) as u16
}

/// Initializes the touch module with the default parameters: stops the FSM,
/// disables and clears the interrupts, disables all channels, clears the status,
/// sets the default measure and sleep times, self-bias, reference voltages,
/// attenuation and idle connection, enables the clock gate and resets the benchmarks
/// of all channels and of the sleep channel.
pub fn touch_init_hal(bus: &mut TouchBus)
    ensures
        final(bus)@ == old(bus)@ + init_hal_plan(),
{
    touch_ll_stop_fsm(bus);
    touch_ll_intr_disable(bus);
    touch_ll_intr_clear(bus);
    touch_ll_clear_channel_mask(bus);
    touch_ll_clear_trigger_status_mask(bus);
    touch_ll_set_meas_times(bus, TOUCH_PAD_MEASURE_CYCLE_DEFAULT);
    touch_ll_set_sleep_time(bus, TOUCH_PAD_SLEEP_CYCLE_DEFAULT);
    touch_ll_sleep_low_power(bus, true);
    touch_ll_set_voltage_high(bus, TOUCH_PAD_HIGH_VOLTAGE_THRESHOLD);
    touch_ll_set_voltage_low(bus, TOUCH_PAD_LOW_VOLTAGE_THRESHOLD);
    touch_ll_set_voltage_attenuation(bus, TOUCH_PAD_ATTEN_VOLTAGE_THRESHOLD);
    touch_ll_set_idle_channel_connect(bus, TOUCH_PAD_IDLE_CH_CONNECT_DEFAULT);
    touch_ll_clkgate(bus, true);
    touch_ll_reset_benchmark(bus, TOUCH_PAD_MAX);
    touch_ll_sleep_reset_benchmark(bus);
    assert(bus@ =~= old(bus)@ + init_hal_plan());
}

/// Sets the FSM mode.
pub fn touch_pad_set_fsm_mode(bus: &mut TouchBus, mode: TouchFSMMode)
    ensures
        final(bus)@ == old(bus)@ + one_store_plan(Reg::RtcTouchCtrl2, Field::StartForce, fsm_mode_bit(mode)),
{
    touch_ll_set_fsm_mode(bus, mode);
}

/// Starts the FSM; `start_force` is `touch_ctrl2.touch_start_force` as read (see
/// [`touch_ll_start_fsm`]).
pub fn touch_pad_fsm_start(bus: &mut TouchBus, start_force: bool)
    ensures
        final(bus)@ == old(bus)@ + start_fsm_plan(start_force),
{
    touch_ll_start_fsm(bus, start_force);
}

/// Stops the FSM.
pub fn touch_pad_fsm_stop(bus: &mut TouchBus)
    ensures
        final(bus)@ == old(bus)@ + stop_fsm_plan(),
{
    touch_ll_stop_fsm(bus);
}

/// Triggers a software measurement.
pub fn touch_pad_sw_start(bus: &mut TouchBus)
    ensures
        final(bus)@ == old(bus)@ + start_sw_meas_plan(),
{
    touch_ll_start_sw_meas(bus);
}

/// Whether the measurement is done, given the `sar_touch_meas_done` bit as read.
pub fn touch_pad_meas_is_done(meas_done: bool) -> (done: bool)
    ensures
        done == meas_done,
{
    touch_ll_is_measure_done(meas_done)
}

/// Configures pad `touch_number`: its threshold, slope and tie option, then adds it
/// to the channel mask; `current_map` and `current_outen` are `touch_scan_pad_map`
/// and `sar_touch_outen` as read (the configuration stores do not change them).
pub fn touch_pad_config(bus: &mut TouchBus, touch_number: u8, current_map: u16, current_outen: u16)
    requires
        1 <= touch_number <= 14,
    ensures
        final(bus)@ == old(bus)@ + hal_config_plan(touch_number) + set_channel_mask_plan(
            current_map,
            current_outen,
            pad_mask(touch_number),
        ),
{
    touch_pad_io_init(touch_number);
    touch_hal_config(bus, touch_number);
    touch_hal_set_channel_mask(bus, touch_number, current_map, current_outen);
}

/// Adds pad `touch_number` to the channel mask; `current_map` and `current_outen`
/// are `touch_scan_pad_map` and `sar_touch_outen` as read. The mask is an `i32`
/// shift, so `touch_number` is below 32.
pub fn touch_hal_set_channel_mask(bus: &mut TouchBus, touch_number: u8, current_map: u16, current_outen: u16)
    requires
        touch_number < 32,
    ensures
        final(bus)@ == old(bus)@ + set_channel_mask_plan(current_map, current_outen, pad_mask(touch_number)),
{
    let mask: i32 = 1i32 << touch_number;
    touch_ll_set_channel_mask(bus, mask as u16, current_map, current_outen);
}

/// Reads the raw data of pad `touch_number` (see [`touch_ll_read_raw_data`]).
pub fn touch_pad_read_raw_data(bus: &mut TouchBus, touch_number: u8)
    requires
        1 <= touch_number <= 14,
    ensures
        final(bus)@ == old(bus)@ + read_raw_data_plan(touch_number),
{
    touch_ll_read_raw_data(bus, touch_number);
}

/// The pad's IO is configured by the GPIO driver; nothing is done here.
pub fn touch_pad_io_init(touch_number: u8) {
}

/// Sets the default threshold, slope and tie option of pad `touch_number`.
pub fn touch_hal_config(bus: &mut TouchBus, touch_number: u8)
    requires
        1 <= touch_number <= 14,
    ensures
        final(bus)@ == old(bus)@ + hal_config_plan(touch_number),
{
    touch_ll_set_threshold(bus, touch_number, TOUCH_PAD_THRESHOLD_MAX);
    touch_ll_set_slope(bus, touch_number, TOUCH_PAD_SLOPE_DEFAULT);
    touch_ll_set_tie_option(bus, touch_number, TOUCH_PAD_TIE_OPT_DEFAULT);
    assert(bus@ =~= old(bus)@ + hal_config_plan(touch_number));
}

} // verus!
