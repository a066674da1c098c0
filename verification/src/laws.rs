//! Properties of the driver over the register file model of [`crate::regs`]: what the
//! registers hold after each operation, and how operations relate.
use vstd::prelude::*;

use crate::common::{init_hal_plan, pad_mask};
use crate::lowlevel::{
    benchmark_clear_bits, channel_mask_after, clear_channel_mask_plan, fsm_mode_bit, fsm_mode_of,
    one_store_plan, read_raw_data_plan, set_channel_mask_plan, set_meas_times_plan,
    set_sleep_time_plan, slope_reg, start_fsm_plan,
    start_sw_meas_plan, status_reg, stop_fsm_plan, TouchFSMMode, TouchTieOption,
    TOUCH_LL_TIMER_DONE, TOUCH_LL_TIMER_FORCE_DONE, TOUCH_PAD_BIT_MASK_ALL, TOUCH_PAD_MAX,
};
use crate::regs::{
    apply_all, bit, field_limit, lemma_keeps, lemma_last_effect, read_back, touches, BusOp,
    Field, Reg, RegFile,
};
use crate::touch::{
    blocking_read_plan, channels_set, clear_interrupt_plan, continuous_sleep_cycles,
    initialize_common_continuous_plan, initialize_common_plan, listen_plan, measurement_duration,
    pin_touched, software_mode_plan, unlisten_plan, TouchConfig, NUM_TOUCH_PINS,
};

verus! {

/// Whether the six touch interrupt bits of register `r` all read 0.
pub open spec fn touch_intr_zero(rf: RegFile, r: Reg) -> bool {
    &&& read_back(rf, r, Field::TouchDone) == Some(0u32)
    &&& read_back(rf, r, Field::TouchActive) == Some(0u32)
    &&& read_back(rf, r, Field::TouchInactive) == Some(0u32)
    &&& read_back(rf, r, Field::TouchScanDone) == Some(0u32)
    &&& read_back(rf, r, Field::TouchTimeout) == Some(0u32)
    &&& read_back(rf, r, Field::TouchApproachLoopDone) == Some(0u32)
}

/// Whether a register is one of the write-one-to-clear interrupt registers.
pub open spec fn is_w1c(r: Reg) -> bool {
    r == Reg::RtcIntEnaW1tc || r == Reg::RtcIntClr
}

proof fn lemma_intr_zero(rf: RegFile, ops: Seq<BusOp>, start: int, src: Reg, dst: Reg)
    requires
        0 <= start,
        start + 6 <= ops.len(),
        src == Reg::RtcIntEnaW1tc && dst == Reg::RtcIntEna || src == Reg::RtcIntClr && dst == Reg::RtcIntRaw,
        ops[start] == BusOp::Store(src, Field::TouchDone, 1),
        ops[start + 1] == BusOp::Store(src, Field::TouchActive, 1),
        ops[start + 2] == BusOp::Store(src, Field::TouchInactive, 1),
        ops[start + 3] == BusOp::Store(src, Field::TouchScanDone, 1),
        ops[start + 4] == BusOp::Store(src, Field::TouchTimeout, 1),
        ops[start + 5] == BusOp::Store(src, Field::TouchApproachLoopDone, 1),
        forall|j: int, f: Field| start + 6 <= j < ops.len() ==> !#[trigger] touches(ops[j], (dst, f)),
    ensures
        touch_intr_zero(apply_all(rf, ops), dst),
{
    let fs = seq![
        Field::TouchDone,
        Field::TouchActive,
        Field::TouchInactive,
        Field::TouchScanDone,
        Field::TouchTimeout,
        Field::TouchApproachLoopDone,
    ];
    assert forall|m: int| 0 <= m < 6 implies read_back(apply_all(rf, ops), dst, #[trigger] fs[m]) == Some(0u32) by {
        let f = fs[m];
        assert forall|j: int| start + m < j < ops.len() implies !touches(#[trigger] ops[j], (dst, f)) by {
            if j >= start + 6 {
                assert(!touches(ops[j], (dst, f)));
            }
        }
        lemma_last_effect(rf, ops, start + m, (dst, f), 0);
    }
    assert(fs[0] == Field::TouchDone);
    assert(fs[1] == Field::TouchActive);
    assert(fs[2] == Field::TouchInactive);
    assert(fs[3] == Field::TouchScanDone);
    assert(fs[4] == Field::TouchTimeout);
    assert(fs[5] == Field::TouchApproachLoopDone);
}

/// Reading the FSM mode after setting it gives the mode back: the store of
/// `touch_ll_set_fsm_mode` leaves `touch_start_force` holding the mode's bit, and
/// `touch_ll_get_fsm_mode` decodes that bit to the same mode.
pub proof fn law_fsm_mode_round_trip(rf: RegFile, mode: TouchFSMMode)
    ensures
        read_back(
            apply_all(rf, one_store_plan(Reg::RtcTouchCtrl2, Field::StartForce, fsm_mode_bit(mode))),
            Reg::RtcTouchCtrl2,
            Field::StartForce,
        ) == Some(fsm_mode_bit(mode)),
        fsm_mode_of(fsm_mode_bit(mode) == 1) == mode,
{
    let p = one_store_plan(Reg::RtcTouchCtrl2, Field::StartForce, fsm_mode_bit(mode));
    assert(p[0] == BusOp::Store(Reg::RtcTouchCtrl2, Field::StartForce, fsm_mode_bit(mode)));
    lemma_last_effect(rf, p, 0, (Reg::RtcTouchCtrl2, Field::StartForce), fsm_mode_bit(mode));
}

/// A store to a field of an ordinary register sets that field (to the value's low
/// bits) and leaves every other field as it was.
pub proof fn law_single_store(rf: RegFile, r: Reg, f: Field, v: u32, r2: Reg, f2: Field)
    requires
        !is_w1c(r),
    ensures
        read_back(apply_all(rf, one_store_plan(r, f, v)), r, f) == Some(((v as nat) % field_limit(f)) as u32),
        (r2, f2) != (r, f) ==> read_back(apply_all(rf, one_store_plan(r, f, v)), r2, f2) == read_back(rf, r2, f2),
        v < field_limit(f) ==> read_back(apply_all(rf, one_store_plan(r, f, v)), r, f) == Some(v),
{
    let p = one_store_plan(r, f, v);
    lemma_last_effect(rf, p, 0, (r, f), ((v as nat) % field_limit(f)) as u32);
    if (r2, f2) != (r, f) {
        lemma_keeps(rf, p, r2, f2);
    }
}

/// Stopping the FSM clears `touch_start_en` and `touch_slp_timer_en` and pulses
/// `touch_timer_force_done`: it holds `TOUCH_LL_TIMER_FORCE_DONE` after the third
/// store and `TOUCH_LL_TIMER_DONE` at the end. Every other field keeps its value.
pub proof fn law_stop_fsm_state(rf: RegFile, r2: Reg, f2: Field)
    ensures
        ({
            let f = apply_all(rf, stop_fsm_plan());
            &&& read_back(apply_all(rf, stop_fsm_plan().take(3)), Reg::RtcTouchCtrl2, Field::TimerForceDone)
                == Some(TOUCH_LL_TIMER_FORCE_DONE as u32)
            &&& read_back(f, Reg::RtcTouchCtrl2, Field::TimerForceDone) == Some(TOUCH_LL_TIMER_DONE as u32)
            &&& read_back(f, Reg::RtcTouchCtrl2, Field::StartEn) == Some(0u32)
            &&& read_back(f, Reg::RtcTouchCtrl2, Field::SlpTimerEn) == Some(0u32)
            &&& (r2 != Reg::RtcTouchCtrl2 || (f2 != Field::StartEn && f2 != Field::SlpTimerEn && f2
                != Field::TimerForceDone)) ==> read_back(f, r2, f2) == read_back(rf, r2, f2)
        }),
{
    let p = stop_fsm_plan();
    assert(p[3] == BusOp::Store(Reg::RtcTouchCtrl2, Field::TimerForceDone, 0));
    lemma_last_effect(rf, p, 3, (Reg::RtcTouchCtrl2, Field::TimerForceDone), 0);
    assert(p[0] == BusOp::Store(Reg::RtcTouchCtrl2, Field::StartEn, 0));
    lemma_last_effect(rf, p, 0, (Reg::RtcTouchCtrl2, Field::StartEn), 0);
    assert(p[1] == BusOp::Store(Reg::RtcTouchCtrl2, Field::SlpTimerEn, 0));
    lemma_last_effect(rf, p, 1, (Reg::RtcTouchCtrl2, Field::SlpTimerEn), 0);
    lemma_last_effect(rf, p.take(3), 2, (Reg::RtcTouchCtrl2, Field::TimerForceDone), 3);
    if r2 != Reg::RtcTouchCtrl2 || (f2 != Field::StartEn && f2 != Field::SlpTimerEn && f2
        != Field::TimerForceDone) {
        lemma_keeps(rf, p, r2, f2);
    }
}

/// Starting the FSM enables the sleep timer exactly when the mode read is the
/// timer mode, and keeps the mode.
pub proof fn law_start_fsm_state(rf: RegFile, start_force: bool)
    ensures
        read_back(apply_all(rf, start_fsm_plan(start_force)), Reg::RtcTouchCtrl2, Field::SlpTimerEn)
            == Some(bit(fsm_mode_of(start_force) == TouchFSMMode::TOUCH_FSM_MODE_TIMER)),
        read_back(apply_all(rf, start_fsm_plan(start_force)), Reg::RtcTouchCtrl2, Field::StartForce)
            == read_back(rf, Reg::RtcTouchCtrl2, Field::StartForce),
        read_back(apply_all(rf, start_fsm_plan(start_force)), Reg::RtcTouchCtrl2, Field::TimerForceDone)
            == Some(TOUCH_LL_TIMER_DONE as u32),
{
    let p = start_fsm_plan(start_force);
    let v = bit(fsm_mode_of(start_force) == TouchFSMMode::TOUCH_FSM_MODE_TIMER);
    assert(p[2] == BusOp::Store(Reg::RtcTouchCtrl2, Field::SlpTimerEn, v));
    lemma_last_effect(rf, p, 2, (Reg::RtcTouchCtrl2, Field::SlpTimerEn), v);
    assert(p[1] == BusOp::Store(Reg::RtcTouchCtrl2, Field::TimerForceDone, 0));
    lemma_last_effect(rf, p, 1, (Reg::RtcTouchCtrl2, Field::TimerForceDone), 0);
    lemma_keeps(rf, p, Reg::RtcTouchCtrl2, Field::StartForce);
}

/// Setting the timer mode and then starting the FSM (with the mode bit read back)
/// leaves the FSM in timer mode with the sleep timer enabled, so the hardware timer
/// triggers the measurements; in software mode the sleep timer is off.
pub proof fn law_set_mode_then_start(rf: RegFile, mode: TouchFSMMode)
    ensures
        ({
            let set = one_store_plan(Reg::RtcTouchCtrl2, Field::StartForce, fsm_mode_bit(mode));
            let after_set = apply_all(rf, set);
            let read = fsm_mode_bit(mode) == 1;
            let f = apply_all(after_set, start_fsm_plan(read));
            &&& read_back(after_set, Reg::RtcTouchCtrl2, Field::StartForce) == Some(fsm_mode_bit(mode))
            &&& read_back(f, Reg::RtcTouchCtrl2, Field::StartForce) == Some(fsm_mode_bit(mode))
            &&& read_back(f, Reg::RtcTouchCtrl2, Field::SlpTimerEn) == Some(
                bit(mode == TouchFSMMode::TOUCH_FSM_MODE_TIMER),
            )
        }),
{
    law_fsm_mode_round_trip(rf, mode);
    let set = one_store_plan(Reg::RtcTouchCtrl2, Field::StartForce, fsm_mode_bit(mode));
    law_start_fsm_state(apply_all(rf, set), fsm_mode_bit(mode) == 1);
}

/// A software measurement trigger stores `touch_start_en` 0, then 1 (a rising edge,
/// also when it was already 1), and keeps every other field.
pub proof fn law_sw_meas_state(rf: RegFile, r2: Reg, f2: Field)
    ensures
        read_back(apply_all(rf, start_sw_meas_plan().take(1)), Reg::RtcTouchCtrl2, Field::StartEn) == Some(0u32),
        read_back(apply_all(rf, start_sw_meas_plan()), Reg::RtcTouchCtrl2, Field::StartEn) == Some(1u32),
        (r2, f2) != (Reg::RtcTouchCtrl2, Field::StartEn) ==> read_back(
            apply_all(rf, start_sw_meas_plan()),
            r2,
            f2,
        ) == read_back(rf, r2, f2),
{
    let p = start_sw_meas_plan();
    assert(p[1] == BusOp::Store(Reg::RtcTouchCtrl2, Field::StartEn, 1));
    lemma_last_effect(rf, p, 1, (Reg::RtcTouchCtrl2, Field::StartEn), 1);
    lemma_last_effect(rf, p.take(1), 0, (Reg::RtcTouchCtrl2, Field::StartEn), 0);
    if (r2, f2) != (Reg::RtcTouchCtrl2, Field::StartEn) {
        lemma_keeps(rf, p, r2, f2);
    }
}

/// After the HAL initialization the sensor holds its defaults: measure and sleep
/// times, wait cycles, self-bias, reference voltages and attenuation, grounded idle
/// channels, the clock gate enabled, the FSM stopped, all channels disabled, the
/// status and all benchmarks cleared, and the six touch interrupts disabled and not
/// pending.
pub proof fn law_init_hal_state(rf: RegFile)
    ensures
        ({
            let f = apply_all(rf, init_hal_plan());
            &&& read_back(f, Reg::RtcTouchCtrl1, Field::MeasNum) == Some(500u32)
            &&& read_back(f, Reg::RtcTouchCtrl1, Field::SleepCycles) == Some(0xFu32)
            &&& read_back(f, Reg::RtcTouchCtrl2, Field::XpdWait) == Some(0xFFu32)
            &&& read_back(f, Reg::RtcTouchCtrl2, Field::Dbias) == Some(1u32)
            &&& read_back(f, Reg::RtcTouchCtrl2, Field::Drefh) == Some(3u32)
            &&& read_back(f, Reg::RtcTouchCtrl2, Field::Drefl) == Some(0u32)
            &&& read_back(f, Reg::RtcTouchCtrl2, Field::Drange) == Some(2u32)
            &&& read_back(f, Reg::RtcTouchCtrl2, Field::ClkgateEn) == Some(1u32)
            &&& read_back(f, Reg::RtcTouchCtrl2, Field::StartEn) == Some(0u32)
            &&& read_back(f, Reg::RtcTouchCtrl2, Field::SlpTimerEn) == Some(0u32)
            &&& read_back(f, Reg::RtcTouchCtrl2, Field::TimerForceDone) == Some(0u32)
            &&& read_back(f, Reg::RtcTouchScanCtrl, Field::InactiveConnection) == Some(1u32)
            &&& read_back(f, Reg::RtcTouchScanCtrl, Field::ScanPadMap) == Some(0u32)
            &&& read_back(f, Reg::SensTouchConf, Field::Outen) == Some(0u32)
            &&& read_back(f, Reg::SensTouchConf, Field::StatusClr) == Some(1u32)
            &&& read_back(f, Reg::SensTouchChnSt, Field::ChannelClr) == Some(TOUCH_PAD_BIT_MASK_ALL as u32)
            &&& read_back(f, Reg::RtcTouchApproach, Field::SlpChannelClr) == Some(1u32)
            &&& touch_intr_zero(f, Reg::RtcIntEna)
            &&& touch_intr_zero(f, Reg::RtcIntRaw)
        }),
{
    let p = init_hal_plan();
    assert(p.len() == 30);
    assert(p[19] == BusOp::Store(Reg::RtcTouchCtrl1, Field::MeasNum, 500));
    lemma_last_effect(rf, p, 19, (Reg::RtcTouchCtrl1, Field::MeasNum), 500);
    assert(p[21] == BusOp::Store(Reg::RtcTouchCtrl1, Field::SleepCycles, 0xF));
    lemma_last_effect(rf, p, 21, (Reg::RtcTouchCtrl1, Field::SleepCycles), 0xF);
    assert(p[20] == BusOp::Store(Reg::RtcTouchCtrl2, Field::XpdWait, 0xFF));
    lemma_last_effect(rf, p, 20, (Reg::RtcTouchCtrl2, Field::XpdWait), 0xFF);
    assert(p[22] == BusOp::Store(Reg::RtcTouchCtrl2, Field::Dbias, 1));
    lemma_last_effect(rf, p, 22, (Reg::RtcTouchCtrl2, Field::Dbias), 1);
    assert(p[23] == BusOp::Store(Reg::RtcTouchCtrl2, Field::Drefh, 3));
    lemma_last_effect(rf, p, 23, (Reg::RtcTouchCtrl2, Field::Drefh), 3);
    assert(p[24] == BusOp::Store(Reg::RtcTouchCtrl2, Field::Drefl, 0));
    lemma_last_effect(rf, p, 24, (Reg::RtcTouchCtrl2, Field::Drefl), 0);
    assert(p[25] == BusOp::Store(Reg::RtcTouchCtrl2, Field::Drange, 2));
    lemma_last_effect(rf, p, 25, (Reg::RtcTouchCtrl2, Field::Drange), 2);
    assert(p[27] == BusOp::Store(Reg::RtcTouchCtrl2, Field::ClkgateEn, 1));
    lemma_last_effect(rf, p, 27, (Reg::RtcTouchCtrl2, Field::ClkgateEn), 1);
    assert(p[0] == BusOp::Store(Reg::RtcTouchCtrl2, Field::StartEn, 0));
    lemma_last_effect(rf, p, 0, (Reg::RtcTouchCtrl2, Field::StartEn), 0);
    assert(p[1] == BusOp::Store(Reg::RtcTouchCtrl2, Field::SlpTimerEn, 0));
    lemma_last_effect(rf, p, 1, (Reg::RtcTouchCtrl2, Field::SlpTimerEn), 0);
    assert(p[3] == BusOp::Store(Reg::RtcTouchCtrl2, Field::TimerForceDone, 0));
    lemma_last_effect(rf, p, 3, (Reg::RtcTouchCtrl2, Field::TimerForceDone), 0);
    assert(p[26] == BusOp::Store(Reg::RtcTouchScanCtrl, Field::InactiveConnection, 1));
    lemma_last_effect(rf, p, 26, (Reg::RtcTouchScanCtrl, Field::InactiveConnection), 1);
    assert(p[17] == BusOp::Store(Reg::RtcTouchScanCtrl, Field::ScanPadMap, 0));
    lemma_last_effect(rf, p, 17, (Reg::RtcTouchScanCtrl, Field::ScanPadMap), 0);
    assert(p[16] == BusOp::Store(Reg::SensTouchConf, Field::Outen, 0));
    lemma_last_effect(rf, p, 16, (Reg::SensTouchConf, Field::Outen), 0);
    assert(p[18] == BusOp::Store(Reg::SensTouchConf, Field::StatusClr, 1));
    lemma_last_effect(rf, p, 18, (Reg::SensTouchConf, Field::StatusClr), 1);
    assert(p[28] == BusOp::Store(Reg::SensTouchChnSt, Field::ChannelClr, 0x3fff));
    lemma_last_effect(rf, p, 28, (Reg::SensTouchChnSt, Field::ChannelClr), 0x3fff);
    assert(p[29] == BusOp::Store(Reg::RtcTouchApproach, Field::SlpChannelClr, 1));
    lemma_last_effect(rf, p, 29, (Reg::RtcTouchApproach, Field::SlpChannelClr), 1);
    lemma_intr_zero(rf, p, 4, Reg::RtcIntEnaW1tc, Reg::RtcIntEna);
    lemma_intr_zero(rf, p, 10, Reg::RtcIntClr, Reg::RtcIntRaw);
}

/// After the continuous-mode initialization the configured measurement duration
/// (`0x7fff` by default) and sleep cycles (`0x100` by default) are set, the FSM is
/// handed to the timer (so its mode reads back as the timer mode) with the sleep
/// timer enabled, denoising is on, raw data is selected and all channels are off.
pub proof fn law_continuous_init_state(rf: RegFile, config: Option<TouchConfig>)
    ensures
        ({
            let f = apply_all(rf, initialize_common_continuous_plan(config));
            &&& read_back(f, Reg::RtcTouchCtrl1, Field::MeasNum) == Some(measurement_duration(config) as u32)
            &&& read_back(f, Reg::RtcTouchCtrl1, Field::SleepCycles) == Some(
                continuous_sleep_cycles(config) as u32,
            )
            &&& read_back(f, Reg::RtcTouchCtrl2, Field::StartForce) == Some(0u32)
            &&& fsm_mode_of(false) == TouchFSMMode::TOUCH_FSM_MODE_TIMER
            &&& read_back(f, Reg::RtcTouchCtrl2, Field::SlpTimerEn) == Some(1u32)
            &&& read_back(f, Reg::RtcTouchCtrl2, Field::StartFsmEn) == Some(0u32)
            &&& read_back(f, Reg::RtcTouchScanCtrl, Field::DenoiseEn) == Some(1u32)
            &&& read_back(f, Reg::SensTouchConf, Field::DataSel) == Some(0u32)
            &&& read_back(f, Reg::SensTouchConf, Field::Outen) == Some(0u32)
            &&& read_back(f, Reg::RtcTouchScanCtrl, Field::ScanPadMap) == Some(0u32)
        }),
{
    let p = initialize_common_continuous_plan(config);
    assert(p.len() == 29);
    assert(p[20] == BusOp::Store(Reg::RtcTouchCtrl1, Field::MeasNum, measurement_duration(config) as u32));
    lemma_last_effect(rf, p, 20, (Reg::RtcTouchCtrl1, Field::MeasNum), measurement_duration(config) as u32);
    assert(p[28] == BusOp::Store(Reg::RtcTouchCtrl1, Field::SleepCycles, continuous_sleep_cycles(config) as u32));
    lemma_last_effect(rf, p, 28, (Reg::RtcTouchCtrl1, Field::SleepCycles), continuous_sleep_cycles(config) as u32);
    assert(p[26] == BusOp::Store(Reg::RtcTouchCtrl2, Field::StartForce, 0));
    lemma_last_effect(rf, p, 26, (Reg::RtcTouchCtrl2, Field::StartForce), 0);
    assert(p[27] == BusOp::Store(Reg::RtcTouchCtrl2, Field::SlpTimerEn, 1));
    lemma_last_effect(rf, p, 27, (Reg::RtcTouchCtrl2, Field::SlpTimerEn), 1);
    assert(p[25] == BusOp::Store(Reg::RtcTouchCtrl2, Field::StartFsmEn, 0));
    lemma_last_effect(rf, p, 25, (Reg::RtcTouchCtrl2, Field::StartFsmEn), 0);
    assert(p[22] == BusOp::Store(Reg::RtcTouchScanCtrl, Field::DenoiseEn, 1));
    lemma_last_effect(rf, p, 22, (Reg::RtcTouchScanCtrl, Field::DenoiseEn), 1);
    assert(p[0] == BusOp::Store(Reg::SensTouchConf, Field::DataSel, 0));
    lemma_last_effect(rf, p, 0, (Reg::SensTouchConf, Field::DataSel), 0);
    assert(p[17] == BusOp::Store(Reg::SensTouchConf, Field::Outen, 0));
    lemma_last_effect(rf, p, 17, (Reg::SensTouchConf, Field::Outen), 0);
    assert(p[18] == BusOp::Store(Reg::RtcTouchScanCtrl, Field::ScanPadMap, 0));
    lemma_last_effect(rf, p, 18, (Reg::RtcTouchScanCtrl, Field::ScanPadMap), 0);
}

/// After the one-shot initialization the configured measurement duration is set, all
/// channels are off and the FSM is handed to software triggers: its mode reads back
/// as the software mode and no measurement is started yet.
pub proof fn law_one_shot_state(rf: RegFile, config: Option<TouchConfig>)
    ensures
        ({
            let f = apply_all(rf, initialize_common_plan(config) + software_mode_plan());
            &&& read_back(f, Reg::RtcTouchCtrl1, Field::MeasNum) == Some(measurement_duration(config) as u32)
            &&& read_back(f, Reg::RtcTouchCtrl2, Field::StartForce) == Some(1u32)
            &&& fsm_mode_of(true) == TouchFSMMode::TOUCH_FSM_MODE_SW
            &&& read_back(f, Reg::RtcTouchCtrl2, Field::StartFsmEn) == Some(1u32)
            &&& read_back(f, Reg::RtcTouchCtrl2, Field::StartEn) == Some(0u32)
            &&& read_back(f, Reg::RtcTouchCtrl2, Field::SlpTimerEn) == Some(0u32)
            &&& read_back(f, Reg::SensTouchConf, Field::Outen) == Some(0u32)
            &&& read_back(f, Reg::RtcTouchScanCtrl, Field::ScanPadMap) == Some(0u32)
        }),
{
    let p = initialize_common_plan(config) + software_mode_plan();
    assert(p[16] == BusOp::Store(Reg::SensTouchConf, Field::Outen, 0));
    lemma_last_effect(rf, p, 16, (Reg::SensTouchConf, Field::Outen), 0);
    assert(p[17] == BusOp::Store(Reg::RtcTouchScanCtrl, Field::ScanPadMap, 0));
    lemma_last_effect(rf, p, 17, (Reg::RtcTouchScanCtrl, Field::ScanPadMap), 0);
    assert(p.len() == 24);
    assert(p[19] == BusOp::Store(Reg::RtcTouchCtrl1, Field::MeasNum, measurement_duration(config) as u32));
    lemma_last_effect(rf, p, 19, (Reg::RtcTouchCtrl1, Field::MeasNum), measurement_duration(config) as u32);
    assert(p[23] == BusOp::Store(Reg::RtcTouchCtrl2, Field::StartForce, 1));
    lemma_last_effect(rf, p, 23, (Reg::RtcTouchCtrl2, Field::StartForce), 1);
    assert(p[21] == BusOp::Store(Reg::RtcTouchCtrl2, Field::StartFsmEn, 1));
    lemma_last_effect(rf, p, 21, (Reg::RtcTouchCtrl2, Field::StartFsmEn), 1);
    assert(p[22] == BusOp::Store(Reg::RtcTouchCtrl2, Field::StartEn, 0));
    lemma_last_effect(rf, p, 22, (Reg::RtcTouchCtrl2, Field::StartEn), 0);
    assert(p[1] == BusOp::Store(Reg::RtcTouchCtrl2, Field::SlpTimerEn, 0));
    lemma_last_effect(rf, p, 1, (Reg::RtcTouchCtrl2, Field::SlpTimerEn), 0);
}

/// The initializations depend on the configuration only through its measurement
/// duration and (in continuous mode) its sleep cycles: the threshold mode takes no
/// part.
pub proof fn law_init_uses_only_durations(c1: Option<TouchConfig>, c2: Option<TouchConfig>)
    requires
        measurement_duration(c1) == measurement_duration(c2),
    ensures
        initialize_common_plan(c1) == initialize_common_plan(c2),
        continuous_sleep_cycles(c1) == continuous_sleep_cycles(c2) ==> initialize_common_continuous_plan(c1)
            == initialize_common_continuous_plan(c2),
{
}

/// Enabling channels on top of a map keeps every channel already in it, adds only
/// channels of `TOUCH_PAD_BIT_MASK_ALL`, adds exactly the enabled ones among those,
/// is idempotent, and two enables amount to one enable of both masks.
pub proof fn law_channel_mask(current: u16, enable: u16, enable2: u16)
    ensures
        channel_mask_after(current, enable) & current == current,
        channel_mask_after(current, enable) & !TOUCH_PAD_BIT_MASK_ALL == current & !TOUCH_PAD_BIT_MASK_ALL,
        channel_mask_after(current, enable) & TOUCH_PAD_BIT_MASK_ALL == (current | enable) & TOUCH_PAD_BIT_MASK_ALL,
        channel_mask_after(channel_mask_after(current, enable), enable) == channel_mask_after(current, enable),
        channel_mask_after(channel_mask_after(current, enable), enable2) == channel_mask_after(
            current,
            enable | enable2,
        ),
        channel_mask_after(0, enable) == enable & TOUCH_PAD_BIT_MASK_ALL,
        current < 0x8000 ==> channel_mask_after(current, enable) < 0x8000,
{
    assert((current | (enable & 0x3fffu16)) & current == current) by (bit_vector);
    assert((current | (enable & 0x3fffu16)) & !0x3fffu16 == current & !0x3fffu16) by (bit_vector);
    assert((current | (enable & 0x3fffu16)) & 0x3fffu16 == (current | enable) & 0x3fffu16) by (bit_vector);
    assert(((current | (enable & 0x3fffu16)) | (enable & 0x3fffu16)) == (current | (enable & 0x3fffu16))) by (bit_vector);
    assert(((current | (enable & 0x3fffu16)) | (enable2 & 0x3fffu16)) == (current | ((enable | enable2) & 0x3fffu16))) by (bit_vector);
    assert((0u16 | (enable & 0x3fffu16)) == enable & 0x3fffu16) by (bit_vector);
    assert(current < 0x8000 ==> (current | (enable & 0x3fffu16)) < 0x8000) by (bit_vector);
}

/// Enabling channels adds them to the scan map and to the channel outputs as they
/// were read: each keeps its own channels.
pub proof fn law_channel_mask_registers(rf: RegFile, map: u16, outen: u16, enable: u16)
    requires
        map < 0x8000,
        outen < 0x8000,
    ensures
        read_back(apply_all(rf, set_channel_mask_plan(map, outen, enable)), Reg::RtcTouchScanCtrl, Field::ScanPadMap)
            == Some(channel_mask_after(map, enable) as u32),
        read_back(apply_all(rf, set_channel_mask_plan(map, outen, enable)), Reg::SensTouchConf, Field::Outen)
            == Some(channel_mask_after(outen, enable) as u32),
{
    law_channel_mask(map, enable, enable);
    law_channel_mask(outen, enable, enable);
    let p = set_channel_mask_plan(map, outen, enable);
    assert(p[0] == BusOp::Store(Reg::RtcTouchScanCtrl, Field::ScanPadMap, channel_mask_after(map, enable) as u32));
    lemma_last_effect(rf, p, 0, (Reg::RtcTouchScanCtrl, Field::ScanPadMap), channel_mask_after(map, enable) as u32);
    assert(p[1] == BusOp::Store(Reg::SensTouchConf, Field::Outen, channel_mask_after(outen, enable) as u32));
    lemma_last_effect(rf, p, 1, (Reg::SensTouchConf, Field::Outen), channel_mask_after(outen, enable) as u32);
}

/// Clearing the channel mask leaves the scan map and the outputs at 0, so enabling a
/// mask right after (with those values read back) gives exactly its channels within
/// `TOUCH_PAD_BIT_MASK_ALL`.
pub proof fn law_clear_then_enable(rf: RegFile, enable: u16)
    ensures
        read_back(apply_all(rf, clear_channel_mask_plan()), Reg::RtcTouchScanCtrl, Field::ScanPadMap)
            == Some(0u32),
        read_back(apply_all(rf, clear_channel_mask_plan()), Reg::SensTouchConf, Field::Outen) == Some(0u32),
        read_back(
            apply_all(apply_all(rf, clear_channel_mask_plan()), set_channel_mask_plan(0, 0, enable)),
            Reg::RtcTouchScanCtrl,
            Field::ScanPadMap,
        ) == Some((enable & TOUCH_PAD_BIT_MASK_ALL) as u32),
        read_back(
            apply_all(apply_all(rf, clear_channel_mask_plan()), set_channel_mask_plan(0, 0, enable)),
            Reg::SensTouchConf,
            Field::Outen,
        ) == Some((enable & TOUCH_PAD_BIT_MASK_ALL) as u32),
{
    let p = clear_channel_mask_plan();
    assert(p[1] == BusOp::Store(Reg::RtcTouchScanCtrl, Field::ScanPadMap, 0));
    lemma_last_effect(rf, p, 1, (Reg::RtcTouchScanCtrl, Field::ScanPadMap), 0);
    assert(p[0] == BusOp::Store(Reg::SensTouchConf, Field::Outen, 0));
    lemma_last_effect(rf, p, 0, (Reg::SensTouchConf, Field::Outen), 0);
    law_channel_mask_registers(apply_all(rf, p), 0, 0, enable);
    law_channel_mask(0, enable, enable);
}

/// Configuring pad `n` enables its channel bit when `n` is below 14; the channel
/// bits of pads 14 to 31 fall outside `TOUCH_PAD_BIT_MASK_ALL` (or outside 16 bits),
/// so for them the maps stay as they were.
pub proof fn law_pad_mask(current: u16, n: u8)
    requires
        n < 32,
    ensures
        n < 14 ==> channel_mask_after(current, pad_mask(n)) == current | (1u16 << n),
        n >= 14 ==> channel_mask_after(current, pad_mask(n)) == current,
{
    if n < 14 {
        assert(((1i32 << n) as u16) == (1u16 << n) && (1u16 << n) & 0x3fffu16 == (1u16 << n)) by (bit_vector)
            requires
                n < 14,
        ;
    } else {
        assert(((1i32 << n) as u16) & 0x3fffu16 == 0) by (bit_vector)
            requires
                14 <= n < 32,
        ;
        assert((current | 0u16) == current) by (bit_vector);
    }
}

/// Resetting the benchmark of all pads clears, among others, every single pad's
/// channel: each bit that a single-pad reset stores is in the all-pads mask.
pub proof fn law_reset_all_covers_each(n: u8)
    requires
        n < 14,
    ensures
        benchmark_clear_bits(TOUCH_PAD_MAX) & benchmark_clear_bits(n) == benchmark_clear_bits(n),
        benchmark_clear_bits(n) != 0,
{
    assert((0x3fffu16 & (1u16 << n)) == (1u16 << n) && (1u16 << n) != 0) by (bit_vector)
        requires
            n < 14,
    ;
}

/// Setting the slope of pad `n` stores it in the pad's 3-bit DAC field and keeps
/// every other field, the other pads' slopes included.
pub proof fn law_slope(rf: RegFile, n: u8, slope: u8, r2: Reg, f2: Field)
    requires
        n <= 14,
    ensures
        read_back(
            apply_all(rf, one_store_plan(slope_reg(n), Field::PadDac(n), slope as u32)),
            slope_reg(n),
            Field::PadDac(n),
        ) == Some((slope % 8) as u32),
        (r2, f2) != (slope_reg(n), Field::PadDac(n)) ==> read_back(
            apply_all(rf, one_store_plan(slope_reg(n), Field::PadDac(n), slope as u32)),
            r2,
            f2,
        ) == read_back(rf, r2, f2),
{
    law_single_store(rf, slope_reg(n), Field::PadDac(n), slope as u32, r2, f2);
}

/// Setting the tie option of pad `n` stores it in the pad's `tie_opt` and keeps
/// every other field, of that pad and of the others.
pub proof fn law_tie_option(rf: RegFile, n: u8, opt: TouchTieOption, r2: Reg, f2: Field)
    ensures
        read_back(
            apply_all(rf, one_store_plan(Reg::RtcIoTouchPad(n), Field::TieOpt, opt.code() as u32)),
            Reg::RtcIoTouchPad(n),
            Field::TieOpt,
        ) == Some(bit(opt == TouchTieOption::TOUCH_PAD_TIE_OPT_HIGH)),
        (r2, f2) != (Reg::RtcIoTouchPad(n), Field::TieOpt) ==> read_back(
            apply_all(rf, one_store_plan(Reg::RtcIoTouchPad(n), Field::TieOpt, opt.code() as u32)),
            r2,
            f2,
        ) == read_back(rf, r2, f2),
{
    law_single_store(rf, Reg::RtcIoTouchPad(n), Field::TieOpt, opt.code() as u32, r2, f2);
}

/// Reading raw data first selects raw data output, then reads the status register
/// of pad `n`, number `n - 1`.
pub proof fn law_read_raw_data(rf: RegFile, n: u8)
    requires
        1 <= n <= 14,
    ensures
        read_back(apply_all(rf, read_raw_data_plan(n)), Reg::SensTouchConf, Field::DataSel) == Some(0u32),
        read_raw_data_plan(n).last() == BusOp::Read(Reg::SensTouchStatus((n - 1) as u8), Field::Data),
{
    lemma_last_effect(rf, read_raw_data_plan(n), 0, (Reg::SensTouchConf, Field::DataSel), 0);
}

/// A blocking read returns data only once the measurement is done: the data read
/// comes after the done bit shows 1.
pub proof fn law_blocking_read(rf: RegFile, n: u8)
    ensures
        read_back(apply_all(rf, blocking_read_plan(n).take(1)), Reg::SensTouchChnSt, Field::MeasDone) == Some(1u32),
        blocking_read_plan(n).last() == BusOp::Read(status_reg(n), Field::Data),
{
    lemma_last_effect(rf, blocking_read_plan(n).take(1), 0, (Reg::SensTouchChnSt, Field::MeasDone), 1);
}

/// Listening on channel `n` enables the touch interrupt and adds the channel to the
/// outputs; unlistening then (with the outputs read back) removes it again, and
/// disables the touch interrupt exactly when no other channel was listening.
pub proof fn law_listen_unlisten(rf: RegFile, n: u8, outen: u16)
    requires
        n < 15,
        outen < 0x8000,
        !pin_touched(outen, n),
    ensures
        ({
            let l = apply_all(rf, listen_plan(n, outen));
            let back = outen | (1u16 << n);
            let u = apply_all(l, unlisten_plan(n, back));
            &&& read_back(l, Reg::RtcIntEna, Field::TouchActive) == Some(1u32)
            &&& read_back(l, Reg::SensTouchConf, Field::Outen) == Some(back as u32)
            &&& pin_touched(back, n)
            &&& read_back(u, Reg::SensTouchConf, Field::Outen) == Some(outen as u32)
            &&& read_back(u, Reg::RtcIntEna, Field::TouchActive) == Some(bit(outen != 0))
        }),
{
    let b = 1u16 << n;
    assert((outen | b) < 0x8000 && (outen | b) & b != 0 && ((outen | b) & !b) == outen
        && ((((outen | b) & !b) & 0x7fffu16 == 0) == (outen == 0))) by (bit_vector)
        requires
            n < 15,
            outen < 0x8000,
            b == 1u16 << n,
            outen & b == 0,
    ;
    let lp = listen_plan(n, outen);
    lemma_last_effect(rf, lp, 0, (Reg::RtcIntEna, Field::TouchActive), 1);
    assert(lp[1] == BusOp::Store(Reg::SensTouchConf, Field::Outen, (outen | b) as u32));
    lemma_last_effect(rf, lp, 1, (Reg::SensTouchConf, Field::Outen), (outen | b) as u32);
    let l = apply_all(rf, lp);
    let up = unlisten_plan(n, outen | b);
    assert(up[0] == BusOp::Store(Reg::SensTouchConf, Field::Outen, outen as u32));
    lemma_last_effect(l, up, 0, (Reg::SensTouchConf, Field::Outen), outen as u32);
    if outen == 0 {
        assert(up.len() == 2);
        lemma_last_effect(l, up, 1, (Reg::RtcIntEna, Field::TouchActive), 0);
    } else {
        assert(up.len() == 1);
        lemma_keeps(l, up, Reg::RtcIntEna, Field::TouchActive);
    }
}

/// Clearing the interrupt clears the pending touch interrupt and the touch status.
pub proof fn law_clear_interrupt(rf: RegFile)
    ensures
        read_back(apply_all(rf, clear_interrupt_plan()), Reg::RtcIntRaw, Field::TouchActive) == Some(0u32),
        read_back(apply_all(rf, clear_interrupt_plan()), Reg::SensTouchConf, Field::StatusClr) == Some(1u32),
{
    lemma_last_effect(rf, clear_interrupt_plan(), 0, (Reg::RtcIntRaw, Field::TouchActive), 0);
    lemma_last_effect(rf, clear_interrupt_plan(), 1, (Reg::SensTouchConf, Field::StatusClr), 1);
}

/// Marking a channel handled clears its bit and keeps every other channel's bit.
pub proof fn law_handled_mask(pins: u16, nr: u8, other: u8)
    requires
        nr < 16,
        other < 16,
    ensures
        !pin_touched(pins & !(1u16 << nr), nr),
        other != nr ==> pin_touched(pins & !(1u16 << nr), other) == pin_touched(pins, other),
{
    assert((pins & !(1u16 << nr)) & (1u16 << nr) == 0) by (bit_vector)
        requires
            nr < 16,
    ;
    assert(other != nr ==> ((pins & !(1u16 << nr)) & (1u16 << other)) == (pins & (1u16 << other)))
        by (bit_vector)
        requires
            nr < 16,
            other < 16,
    ;
}

/// A channel is woken exactly when it is below the bound and its bit is set.
pub proof fn law_channels_set(pads: u16, n: nat, c: usize)
    requires
        n <= 16,
    ensures
        channels_set(pads, n).contains(c) <==> (c < n && pads & (1u16 << (c as u16)) != 0),
    decreases n,
{
    if n > 0 {
        law_channels_set(pads, (n - 1) as nat, c);
        let rest = channels_set(pads, (n - 1) as nat);
        if pads & (1u16 << ((n - 1) as u16)) != 0 {
            assert(rest.push((n - 1) as usize).contains(c) <==> (rest.contains(c) || c == n - 1)) by {
                let ps = rest.push((n - 1) as usize);
                if c == n - 1 {
                    assert(ps[rest.len() as int] == c);
                }
                if rest.contains(c) {
                    let k = choose|k: int| 0 <= k < rest.len() && #[trigger] rest[k] == c;
                    assert(ps[k] == c);
                }
                if ps.contains(c) && c != n - 1 {
                    let j = choose|j: int| 0 <= j < ps.len() && #[trigger] ps[j] == c;
                    assert(rest[j] == c);
                }
            }
        }
    }
}

/// The touch interrupt wakes the waker of channel `c` (below `NUM_TOUCH_PINS`)
/// exactly when the pad of channel `c` reports its interrupt set.
pub proof fn law_wake_iff_interrupt_set(pads: u16, c: u8)
    requires
        (c as usize) < NUM_TOUCH_PINS,
    ensures
        channels_set(pads, NUM_TOUCH_PINS as nat).contains(c as usize) == pin_touched(pads, c),
{
    law_channels_set(pads, NUM_TOUCH_PINS as nat, c as usize);
    let c16: u16 = c as u16;
    assert((1u16 << c16) == (1u16 << c)) by (bit_vector)
        requires
            c16 == c as u16,
            c < 10,
    ;
    assert(((c as usize) as u16) == c16);
}

/// A pad future of channel `n` completes on the interrupt that reports its pad: the
/// handler records the active pads `pad_active` and wakes the waker of `n` exactly
/// when the future's poll finds bit `n` set in them; the completing poll then
/// clears bit `n` and keeps every other channel's bit.
pub proof fn law_touch_future_completion(pad_active: u16, n: u8, other: u8)
    requires
        (n as usize) < NUM_TOUCH_PINS,
        other < 16,
    ensures
        channels_set(pad_active, NUM_TOUCH_PINS as nat).contains(n as usize) == pin_touched(pad_active, n),
        !pin_touched(pad_active & !(1u16 << n), n),
        other != n ==> pin_touched(pad_active & !(1u16 << n), other) == pin_touched(pad_active, other),
{
    law_wake_iff_interrupt_set(pad_active, n);
    law_handled_mask(pad_active, n, other);
}

/// The continuous-mode initialization sets `touch_sleep_cycles` to the configured
/// sleep cycles, whatever their value, and to `0x100` when none is configured.
pub proof fn law_continuous_sleep_cycles(rf: RegFile, c: TouchConfig, s: u16)
    ensures
        c.sleep_cycles == Some(s) ==> read_back(
            apply_all(rf, initialize_common_continuous_plan(Some(c))),
            Reg::RtcTouchCtrl1,
            Field::SleepCycles,
        ) == Some(s as u32),
        c.sleep_cycles is None ==> read_back(
            apply_all(rf, initialize_common_continuous_plan(Some(c))),
            Reg::RtcTouchCtrl1,
            Field::SleepCycles,
        ) == Some(0x100u32),
        read_back(apply_all(rf, initialize_common_continuous_plan(None)), Reg::RtcTouchCtrl1, Field::SleepCycles)
            == Some(0x100u32),
{
    law_continuous_init_state(rf, Some(c));
    law_continuous_init_state(rf, None);
}

/// Every initialization sets `touch_meas_num` to the configured measurement
/// duration, whatever its value, and to `0x7fff` when none is configured: the common
/// initialization, the one-shot mode and the continuous mode alike.
pub proof fn law_measurement_duration(rf: RegFile, c: TouchConfig, d: u16)
    ensures
        c.measurement_duration == Some(d) ==> {
            &&& read_back(apply_all(rf, initialize_common_plan(Some(c))), Reg::RtcTouchCtrl1, Field::MeasNum)
                == Some(d as u32)
            &&& read_back(
                apply_all(rf, initialize_common_plan(Some(c)) + software_mode_plan()),
                Reg::RtcTouchCtrl1,
                Field::MeasNum,
            ) == Some(d as u32)
            &&& read_back(
                apply_all(rf, initialize_common_continuous_plan(Some(c))),
                Reg::RtcTouchCtrl1,
                Field::MeasNum,
            ) == Some(d as u32)
        },
        c.measurement_duration is None ==> read_back(
            apply_all(rf, initialize_common_plan(Some(c))),
            Reg::RtcTouchCtrl1,
            Field::MeasNum,
        ) == Some(0x7fffu32),
        read_back(apply_all(rf, initialize_common_plan(None)), Reg::RtcTouchCtrl1, Field::MeasNum) == Some(0x7fffu32),
{
    law_one_shot_state(rf, Some(c));
    law_continuous_init_state(rf, Some(c));
    law_common_measurement(rf, Some(c));
    law_common_measurement(rf, None);
}

proof fn law_common_measurement(rf: RegFile, config: Option<TouchConfig>)
    ensures
        read_back(apply_all(rf, initialize_common_plan(config)), Reg::RtcTouchCtrl1, Field::MeasNum) == Some(
            measurement_duration(config) as u32,
        ),
{
    let p = initialize_common_plan(config);
    assert(p.len() == 21);
    assert(p[19] == BusOp::Store(Reg::RtcTouchCtrl1, Field::MeasNum, measurement_duration(config) as u32));
    lemma_last_effect(rf, p, 19, (Reg::RtcTouchCtrl1, Field::MeasNum), measurement_duration(config) as u32);
}

/// The slope of pads 0 to 9 goes to their field in `touch_dac`, that of pads 10 to
/// 14 to their field in `touch_dac1`; the other of the two registers is untouched.
pub proof fn law_slope_register(rf: RegFile, n: u8, slope: u8, f2: Field)
    requires
        n <= 14,
        slope < 8,
    ensures
        ({
            let after = apply_all(rf, one_store_plan(slope_reg(n), Field::PadDac(n), slope as u32));
            &&& n < 10 ==> read_back(after, Reg::RtcTouchDac, Field::PadDac(n)) == Some(slope as u32)
            &&& n < 10 ==> read_back(after, Reg::RtcTouchDac1, f2) == read_back(rf, Reg::RtcTouchDac1, f2)
            &&& n >= 10 ==> read_back(after, Reg::RtcTouchDac1, Field::PadDac(n)) == Some(slope as u32)
            &&& n >= 10 ==> read_back(after, Reg::RtcTouchDac, f2) == read_back(rf, Reg::RtcTouchDac, f2)
        }),
{
    if n < 10 {
        law_single_store(rf, Reg::RtcTouchDac, Field::PadDac(n), slope as u32, Reg::RtcTouchDac1, f2);
    } else {
        law_single_store(rf, Reg::RtcTouchDac1, Field::PadDac(n), slope as u32, Reg::RtcTouchDac, f2);
    }
}

/// Listening on channel `n` sets the channel's output bit and keeps every other
/// channel's bit, whether or not the channel was already listening, and enables the
/// touch interrupt; listening again (with the outputs read back) changes nothing.
pub proof fn law_listen(rf: RegFile, n: u8, outen: u16, m: u8)
    requires
        n < 15,
        outen < 0x8000,
        m < 16,
    ensures
        ({
            let l = apply_all(rf, listen_plan(n, outen));
            &&& read_back(l, Reg::RtcIntEna, Field::TouchActive) == Some(1u32)
            &&& l.contains_key((Reg::SensTouchConf, Field::Outen))
            &&& pin_touched(l[(Reg::SensTouchConf, Field::Outen)] as u16, n)
            &&& m != n ==> pin_touched(l[(Reg::SensTouchConf, Field::Outen)] as u16, m) == pin_touched(outen, m)
            &&& read_back(
                apply_all(l, listen_plan(n, l[(Reg::SensTouchConf, Field::Outen)] as u16)),
                Reg::SensTouchConf,
                Field::Outen,
            ) == read_back(l, Reg::SensTouchConf, Field::Outen)
        }),
{
    let b = 1u16 << n;
    let o = outen | b;
    assert(o < 0x8000 && o & b != 0 && (o | b) == o) by (bit_vector)
        requires
            n < 15,
            outen < 0x8000,
            b == 1u16 << n,
            o == outen | b,
    ;
    assert(m != n ==> (o & (1u16 << m)) == (outen & (1u16 << m))) by (bit_vector)
        requires
            n < 15,
            m < 16,
            b == 1u16 << n,
            o == outen | b,
    ;
    let lp = listen_plan(n, outen);
    lemma_last_effect(rf, lp, 0, (Reg::RtcIntEna, Field::TouchActive), 1);
    lemma_last_effect(rf, lp, 1, (Reg::SensTouchConf, Field::Outen), o as u32);
    let l = apply_all(rf, lp);
    assert(l[(Reg::SensTouchConf, Field::Outen)] as u16 == o);
    lemma_last_effect(l, listen_plan(n, o), 1, (Reg::SensTouchConf, Field::Outen), o as u32);
}

/// Setting the sleep time stores it in `touch_sleep_cycles`, whatever its value, and
/// keeps every other field.
pub proof fn law_sleep_time(rf: RegFile, s: u16, r2: Reg, f2: Field)
    ensures
        read_back(apply_all(rf, set_sleep_time_plan(s)), Reg::RtcTouchCtrl1, Field::SleepCycles) == Some(s as u32),
        (r2, f2) != (Reg::RtcTouchCtrl1, Field::SleepCycles) ==> read_back(
            apply_all(rf, set_sleep_time_plan(s)),
            r2,
            f2,
        ) == read_back(rf, r2, f2),
{
    law_single_store(rf, Reg::RtcTouchCtrl1, Field::SleepCycles, s as u32, r2, f2);
    assert(set_sleep_time_plan(s) == one_store_plan(Reg::RtcTouchCtrl1, Field::SleepCycles, s as u32));
}

/// Setting the measure times stores them in `touch_meas_num`, whatever their value,
/// and the wait before TOUCH_XPD in `touch_xpd_wait`.
pub proof fn law_meas_times(rf: RegFile, t: u16)
    ensures
        read_back(apply_all(rf, set_meas_times_plan(t)), Reg::RtcTouchCtrl1, Field::MeasNum) == Some(t as u32),
        read_back(apply_all(rf, set_meas_times_plan(t)), Reg::RtcTouchCtrl2, Field::XpdWait) == Some(0xFFu32),
{
    let p = set_meas_times_plan(t);
    lemma_last_effect(rf, p, 0, (Reg::RtcTouchCtrl1, Field::MeasNum), t as u32);
    lemma_last_effect(rf, p, 1, (Reg::RtcTouchCtrl2, Field::XpdWait), 0xFF);
}

/// Pad `n` (1 to 14) has its threshold and its data in registers of the same
/// number, `n - 1`, and different pads use different registers.
pub proof fn law_pad_register_index(rf: RegFile, n: u8, n2: u8, threshold: u32)
    requires
        1 <= n <= 14,
        1 <= n2 <= 14,
    ensures
        read_back(
            apply_all(rf, one_store_plan(Reg::SensTouchThres((n - 1) as u8), Field::Bits, threshold)),
            Reg::SensTouchThres((n - 1) as u8),
            Field::Bits,
        ) == Some(threshold),
        status_reg(n) == Reg::SensTouchStatus((n - 1) as u8),
        ((n - 1) as u8) < 14,
        n != n2 ==> ((n - 1) as u8) != ((n2 - 1) as u8),
{
    law_single_store(rf, Reg::SensTouchThres((n - 1) as u8), Field::Bits, threshold, Reg::SensTouchThres((n - 1) as u8), Field::Bits);
}

} // verus!
