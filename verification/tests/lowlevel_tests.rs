use std::collections::HashMap;

use lib::common::{
    touch_hal_config, touch_hal_set_channel_mask, touch_init_hal, touch_pad_config,
    touch_pad_fsm_start, touch_pad_fsm_stop, touch_pad_io_init, touch_pad_meas_is_done,
    touch_pad_read_raw_data, touch_pad_set_fsm_mode, touch_pad_sw_start,
};
use lib::lowlevel::{
    touch_ll_clear_channel_mask, touch_ll_clear_trigger_status_mask, touch_ll_clkgate,
    touch_ll_get_fsm_mode, touch_ll_intr_clear, touch_ll_intr_disable, touch_ll_is_measure_done,
    touch_ll_read_raw_data, touch_ll_reset_benchmark, touch_ll_set_channel_mask,
    touch_ll_set_fsm_mode, touch_ll_set_idle_channel_connect, touch_ll_set_meas_times,
    touch_ll_set_sleep_time, touch_ll_set_slope, touch_ll_set_threshold, touch_ll_set_tie_option,
    touch_ll_set_voltage_attenuation, touch_ll_set_voltage_high, touch_ll_set_voltage_low,
    touch_ll_sleep_low_power, touch_ll_sleep_reset_benchmark, touch_ll_start_fsm,
    touch_ll_start_sw_meas, touch_ll_stop_fsm, TouchCntSlope, TouchFSMMode, TouchHVoltAtten,
    TouchHighVolt, TouchLowVolt, TouchPadConnType, TouchTieOption, TOUCH_PAD_BIT_MASK_ALL,
    TOUCH_PAD_SLOPE_DEFAULT,
};
use lib::regs::{BusOp, Field, Reg, TouchBus};

fn s(reg: Reg, field: Field, v: u32) -> BusOp {
    BusOp::Store(reg, field, v)
}

fn run(f: impl FnOnce(&mut TouchBus)) -> Vec<BusOp> {
    let mut bus = TouchBus::new();
    f(&mut bus);
    bus.ops
}

fn limit(f: Field) -> u64 {
    match f {
        Field::MeasNum | Field::SleepCycles => 0x10000,
        Field::TimerForceDone | Field::Drefh | Field::Drefl | Field::Drange | Field::DataSel => 4,
        Field::XpdWait => 0x100,
        Field::ScanPadMap | Field::Outen | Field::ChannelClr | Field::PadActive => 0x8000,
        Field::PadDac(_) => 8,
        Field::Data => 0x400000,
        Field::Bits => 0x1_0000_0000,
        _ => 2,
    }
}

type Regs = HashMap<(Reg, Field), u32>;

/// Applies the accesses as the hardware does: a store sets one field to the value's
/// low bits; a 1 stored to a write-one-to-clear register clears the bit it names.
fn apply(rf: &mut Regs, ops: &[BusOp]) {
    for op in ops {
        match *op {
            BusOp::Store(Reg::RtcIntEnaW1tc, f, v) => {
                if v % 2 == 1 {
                    rf.insert((Reg::RtcIntEna, f), 0);
                }
            }
            BusOp::Store(Reg::RtcIntClr, f, v) => {
                if v % 2 == 1 {
                    rf.insert((Reg::RtcIntRaw, f), 0);
                }
            }
            BusOp::Store(r, f, v) => {
                rf.insert((r, f), (v as u64 % limit(f)) as u32);
            }
            BusOp::WaitUntil(r, f, v) => {
                rf.insert((r, f), v);
            }
            _ => {}
        }
    }
}

fn state(ops: &[BusOp]) -> Regs {
    let mut rf = Regs::new();
    apply(&mut rf, ops);
    rf
}

const INTR: [Field; 6] = [
    Field::TouchDone,
    Field::TouchActive,
    Field::TouchInactive,
    Field::TouchScanDone,
    Field::TouchTimeout,
    Field::TouchApproachLoopDone,
];

#[test]
fn stop_fsm_pulses_force_done() {
    let ops = run(touch_ll_stop_fsm);
    assert_eq!(
        ops,
        vec![
            s(Reg::RtcTouchCtrl2, Field::StartEn, 0),
            s(Reg::RtcTouchCtrl2, Field::SlpTimerEn, 0),
            s(Reg::RtcTouchCtrl2, Field::TimerForceDone, 3),
            s(Reg::RtcTouchCtrl2, Field::TimerForceDone, 0),
        ]
    );
    assert_eq!(state(&ops[..3])[&(Reg::RtcTouchCtrl2, Field::TimerForceDone)], 3);
    let mut rf = Regs::new();
    rf.insert((Reg::RtcTouchCtrl2, Field::ClkgateEn), 1);
    apply(&mut rf, &ops);
    assert_eq!(rf[&(Reg::RtcTouchCtrl2, Field::TimerForceDone)], 0);
    assert_eq!(rf[&(Reg::RtcTouchCtrl2, Field::ClkgateEn)], 1);
    assert_eq!(run(touch_pad_fsm_stop), ops);
}

#[test]
fn interrupts_disabled_and_cleared() {
    let dis = run(touch_ll_intr_disable);
    assert_eq!(dis, INTR.iter().map(|f| s(Reg::RtcIntEnaW1tc, *f, 1)).collect::<Vec<_>>());
    let clr = run(touch_ll_intr_clear);
    assert_eq!(clr, INTR.iter().map(|f| s(Reg::RtcIntClr, *f, 1)).collect::<Vec<_>>());
    let mut rf = Regs::new();
    for f in INTR {
        rf.insert((Reg::RtcIntEna, f), 1);
        rf.insert((Reg::RtcIntRaw, f), 1);
    }
    apply(&mut rf, &dis);
    apply(&mut rf, &clr);
    for f in INTR {
        assert_eq!(rf[&(Reg::RtcIntEna, f)], 0);
        assert_eq!(rf[&(Reg::RtcIntRaw, f)], 0);
    }
}

#[test]
fn channel_mask_cleared() {
    assert_eq!(
        run(touch_ll_clear_channel_mask),
        vec![s(Reg::SensTouchConf, Field::Outen, 0), s(Reg::RtcTouchScanCtrl, Field::ScanPadMap, 0)]
    );
    assert_eq!(run(touch_ll_clear_trigger_status_mask), vec![s(Reg::SensTouchConf, Field::StatusClr, 1)]);
}

#[test]
fn single_field_setters_keep_other_fields() {
    assert_eq!(
        run(|b| touch_ll_set_meas_times(b, 1234)),
        vec![s(Reg::RtcTouchCtrl1, Field::MeasNum, 1234), s(Reg::RtcTouchCtrl2, Field::XpdWait, 0xFF)]
    );
    assert_eq!(run(|b| touch_ll_set_sleep_time(b, 77)), vec![s(Reg::RtcTouchCtrl1, Field::SleepCycles, 77)]);
    assert_eq!(run(|b| touch_ll_sleep_low_power(b, true)), vec![s(Reg::RtcTouchCtrl2, Field::Dbias, 1)]);
    assert_eq!(run(|b| touch_ll_sleep_low_power(b, false)), vec![s(Reg::RtcTouchCtrl2, Field::Dbias, 0)]);
    assert_eq!(run(|b| touch_ll_set_voltage_high(b, 2)), vec![s(Reg::RtcTouchCtrl2, Field::Drefh, 2)]);
    assert_eq!(run(|b| touch_ll_set_voltage_low(b, 1)), vec![s(Reg::RtcTouchCtrl2, Field::Drefl, 1)]);
    assert_eq!(run(|b| touch_ll_set_voltage_attenuation(b, 3)), vec![s(Reg::RtcTouchCtrl2, Field::Drange, 3)]);
    assert_eq!(
        run(|b| touch_ll_set_idle_channel_connect(b, false)),
        vec![s(Reg::RtcTouchScanCtrl, Field::InactiveConnection, 0)]
    );
    assert_eq!(run(|b| touch_ll_clkgate(b, true)), vec![s(Reg::RtcTouchCtrl2, Field::ClkgateEn, 1)]);
    assert_eq!(run(touch_ll_sleep_reset_benchmark), vec![s(Reg::RtcTouchApproach, Field::SlpChannelClr, 1)]);
    // the meas times survive the later stores of touch_ctrl1 and touch_ctrl2
    let mut bus = TouchBus::new();
    touch_ll_set_meas_times(&mut bus, 600);
    touch_ll_set_sleep_time(&mut bus, 9);
    touch_ll_clkgate(&mut bus, true);
    let rf = state(&bus.ops);
    assert_eq!(rf[&(Reg::RtcTouchCtrl1, Field::MeasNum)], 600);
    assert_eq!(rf[&(Reg::RtcTouchCtrl1, Field::SleepCycles)], 9);
    assert_eq!(rf[&(Reg::RtcTouchCtrl2, Field::XpdWait)], 0xFF);
}

#[test]
fn benchmark_reset_bits() {
    assert_eq!(run(|b| touch_ll_reset_benchmark(b, 14)), vec![s(Reg::SensTouchChnSt, Field::ChannelClr, 0x3fff)]);
    assert_eq!(run(|b| touch_ll_reset_benchmark(b, 2)), vec![s(Reg::SensTouchChnSt, Field::ChannelClr, 4)]);
    for n in 0..14u16 {
        assert_eq!(TOUCH_PAD_BIT_MASK_ALL & (1 << n), 1 << n);
    }
}

#[test]
fn fsm_mode_round_trip() {
    for mode in [TouchFSMMode::TOUCH_FSM_MODE_TIMER, TouchFSMMode::TOUCH_FSM_MODE_SW] {
        let ops = run(|b| touch_ll_set_fsm_mode(b, mode));
        let bit = state(&ops)[&(Reg::RtcTouchCtrl2, Field::StartForce)];
        assert_eq!(touch_ll_get_fsm_mode(bit == 1), mode);
        assert_eq!(run(|b| touch_pad_set_fsm_mode(b, mode)), ops);
    }
    assert_eq!(touch_ll_get_fsm_mode(false), TouchFSMMode::TOUCH_FSM_MODE_TIMER);
}

#[test]
fn start_fsm_runs_sleep_timer_in_timer_mode() {
    let pulse = vec![s(Reg::RtcTouchCtrl2, Field::TimerForceDone, 3), s(Reg::RtcTouchCtrl2, Field::TimerForceDone, 0)];
    let mut timer = pulse.clone();
    timer.push(s(Reg::RtcTouchCtrl2, Field::SlpTimerEn, 1));
    let mut sw = pulse.clone();
    sw.push(s(Reg::RtcTouchCtrl2, Field::SlpTimerEn, 0));
    assert_eq!(run(|b| touch_ll_start_fsm(b, false)), timer);
    assert_eq!(run(|b| touch_ll_start_fsm(b, true)), sw);
    assert_eq!(run(|b| touch_pad_fsm_start(b, false)), timer);
    // set the timer mode, read it back, start: the hardware timer runs
    let mut rf = Regs::new();
    apply(&mut rf, &run(|b| touch_pad_set_fsm_mode(b, TouchFSMMode::TOUCH_FSM_MODE_TIMER)));
    let read = rf[&(Reg::RtcTouchCtrl2, Field::StartForce)] == 1;
    apply(&mut rf, &run(|b| touch_pad_fsm_start(b, read)));
    assert_eq!(rf[&(Reg::RtcTouchCtrl2, Field::SlpTimerEn)], 1);
    assert_eq!(rf[&(Reg::RtcTouchCtrl2, Field::StartForce)], 0);
}

#[test]
fn raw_data_read_selects_raw_first() {
    assert_eq!(
        run(|b| touch_ll_read_raw_data(b, 3)),
        vec![s(Reg::SensTouchConf, Field::DataSel, 0), BusOp::Read(Reg::SensTouchStatus(2), Field::Data)]
    );
    assert_eq!(run(|b| touch_ll_read_raw_data(b, 14))[1], BusOp::Read(Reg::SensTouchStatus(13), Field::Data));
    assert_eq!(run(|b| touch_pad_read_raw_data(b, 3)), run(|b| touch_ll_read_raw_data(b, 3)));
}

#[test]
fn software_measurement_pulses_start_enable() {
    let ops = run(touch_ll_start_sw_meas);
    assert_eq!(ops, vec![s(Reg::RtcTouchCtrl2, Field::StartEn, 0), s(Reg::RtcTouchCtrl2, Field::StartEn, 1)]);
    let mut rf = Regs::new();
    rf.insert((Reg::RtcTouchCtrl2, Field::StartForce), 1);
    apply(&mut rf, &ops);
    assert_eq!(rf[&(Reg::RtcTouchCtrl2, Field::StartEn)], 1);
    assert_eq!(rf[&(Reg::RtcTouchCtrl2, Field::StartForce)], 1);
    assert_eq!(run(touch_pad_sw_start), ops);
    assert!(touch_ll_is_measure_done(true));
    assert!(!touch_ll_is_measure_done(false));
    assert!(touch_pad_meas_is_done(true));
    assert!(!touch_pad_meas_is_done(false));
}

#[test]
fn threshold_slope_and_tie_option() {
    assert_eq!(run(|b| touch_ll_set_threshold(b, 1, 100)), vec![s(Reg::SensTouchThres(0), Field::Bits, 100)]);
    assert_eq!(run(|b| touch_ll_set_threshold(b, 14, 7)), vec![s(Reg::SensTouchThres(13), Field::Bits, 7)]);
    assert_eq!(run(|b| touch_ll_set_slope(b, 9, 5)), vec![s(Reg::RtcTouchDac, Field::PadDac(9), 5)]);
    assert_eq!(run(|b| touch_ll_set_slope(b, 10, 6)), vec![s(Reg::RtcTouchDac1, Field::PadDac(10), 6)]);
    assert_eq!(
        run(|b| touch_ll_set_tie_option(b, 4, TouchTieOption::TOUCH_PAD_TIE_OPT_HIGH)),
        vec![s(Reg::RtcIoTouchPad(4), Field::TieOpt, 1)]
    );
    assert_eq!(
        run(|b| touch_ll_set_tie_option(b, 14, TouchTieOption::TOUCH_PAD_TIE_OPT_LOW)),
        vec![s(Reg::RtcIoTouchPad(14), Field::TieOpt, 0)]
    );
    // a slope store keeps the other pads' slopes
    let mut bus = TouchBus::new();
    touch_ll_set_slope(&mut bus, 1, 3);
    touch_ll_set_slope(&mut bus, 2, 4);
    touch_ll_set_slope(&mut bus, 3, 9);
    let rf = state(&bus.ops);
    assert_eq!(rf[&(Reg::RtcTouchDac, Field::PadDac(1))], 3);
    assert_eq!(rf[&(Reg::RtcTouchDac, Field::PadDac(2))], 4);
    assert_eq!(rf[&(Reg::RtcTouchDac, Field::PadDac(3))], 1);
}

#[test]
fn channel_mask_added_to_each_map() {
    assert_eq!(
        run(|b| touch_ll_set_channel_mask(b, 0xffff, 0x0001, 0x0010)),
        vec![s(Reg::RtcTouchScanCtrl, Field::ScanPadMap, 0x3fff), s(Reg::SensTouchConf, Field::Outen, 0x3fff)]
    );
    assert_eq!(
        run(|b| touch_ll_set_channel_mask(b, 0b100, 0b1, 0b1000)),
        vec![s(Reg::RtcTouchScanCtrl, Field::ScanPadMap, 0b101), s(Reg::SensTouchConf, Field::Outen, 0b1100)]
    );
    // idempotent
    assert_eq!(
        run(|b| touch_ll_set_channel_mask(b, 0b100, 0b101, 0b1100)),
        run(|b| touch_ll_set_channel_mask(b, 0b100, 0b1, 0b1000))
    );
}

#[test]
fn pad_channel_mask() {
    assert_eq!(run(|b| touch_hal_set_channel_mask(b, 3, 0, 1)), run(|b| touch_ll_set_channel_mask(b, 8, 0, 1)));
    // pad 14 and up fall outside the channel mask
    assert_eq!(run(|b| touch_hal_set_channel_mask(b, 14, 2, 2)), run(|b| touch_ll_set_channel_mask(b, 0, 2, 2)));
    assert_eq!(run(|b| touch_hal_set_channel_mask(b, 31, 2, 2)), run(|b| touch_ll_set_channel_mask(b, 0, 2, 2)));
}

#[test]
fn pad_config_sequence() {
    let ops = run(|b| touch_pad_config(b, 5, 0b10, 0b10));
    assert_eq!(
        ops,
        vec![
            s(Reg::SensTouchThres(4), Field::Bits, 0x1FFFFF),
            s(Reg::RtcTouchDac, Field::PadDac(5), 7),
            s(Reg::RtcIoTouchPad(5), Field::TieOpt, 0),
            s(Reg::RtcTouchScanCtrl, Field::ScanPadMap, 0b100010),
            s(Reg::SensTouchConf, Field::Outen, 0b100010),
        ]
    );
    assert_eq!(run(|b| touch_hal_config(b, 5)), ops[0..3].to_vec());
    touch_pad_io_init(5);
}

#[test]
fn init_hal_state() {
    let ops = run(touch_init_hal);
    assert_eq!(ops.len(), 30);
    let rf = state(&ops);
    let ctrl = |r: Reg, f: Field| rf[&(r, f)];
    assert_eq!(ctrl(Reg::RtcTouchCtrl1, Field::MeasNum), 500);
    assert_eq!(ctrl(Reg::RtcTouchCtrl1, Field::SleepCycles), 0xF);
    assert_eq!(ctrl(Reg::RtcTouchCtrl2, Field::XpdWait), 0xFF);
    assert_eq!(ctrl(Reg::RtcTouchCtrl2, Field::Dbias), 1);
    assert_eq!(ctrl(Reg::RtcTouchCtrl2, Field::Drefh), 3);
    assert_eq!(ctrl(Reg::RtcTouchCtrl2, Field::Drefl), 0);
    assert_eq!(ctrl(Reg::RtcTouchCtrl2, Field::Drange), 2);
    assert_eq!(ctrl(Reg::RtcTouchCtrl2, Field::ClkgateEn), 1);
    assert_eq!(ctrl(Reg::RtcTouchCtrl2, Field::TimerForceDone), 0);
    assert_eq!(ctrl(Reg::RtcTouchScanCtrl, Field::InactiveConnection), 1);
    assert_eq!(ctrl(Reg::RtcTouchScanCtrl, Field::ScanPadMap), 0);
    assert_eq!(ctrl(Reg::SensTouchConf, Field::Outen), 0);
    assert_eq!(ctrl(Reg::SensTouchChnSt, Field::ChannelClr), 0x3fff);
    assert_eq!(ctrl(Reg::RtcTouchApproach, Field::SlpChannelClr), 1);
    for f in INTR {
        assert_eq!(ctrl(Reg::RtcIntEna, f), 0);
        assert_eq!(ctrl(Reg::RtcIntRaw, f), 0);
    }
}

#[test]
fn enum_encodings() {
    assert_eq!(TouchLowVolt::TOUCH_LVOLT_KEEP.value(), -1);
    assert_eq!(TouchLowVolt::TOUCH_LVOLT_0V8.value(), 3);
    assert_eq!(TouchHighVolt::TOUCH_HVOLT_2V7.value(), 3);
    assert_eq!(TouchHighVolt::TOUCH_HVOLT_KEEP.value(), -1);
    assert_eq!(TouchHVoltAtten::TOUCH_HVOLT_ATTEN_0V5.value(), 2);
    assert_eq!(TouchPadConnType::TOUCH_PAD_CONN_GND.value(), 1);
    assert_eq!(TouchFSMMode::TOUCH_FSM_MODE_SW.value(), 1);
    assert_eq!(TouchCntSlope::TOUCH_PAD_SLOPE_7.value() as u8, TOUCH_PAD_SLOPE_DEFAULT);
    assert_eq!(TouchTieOption::TOUCH_PAD_TIE_OPT_HIGH.value(), 1);
}
