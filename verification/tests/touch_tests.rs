use std::collections::HashMap;

use lib::lowlevel::{touch_ll_clear_channel_mask, touch_ll_set_channel_mask};
use lib::regs::{BusOp, Field, Reg, TouchBus};
use lib::touch::{
    handle_touch_interrupt, internal_clear_interrupt, internal_is_interrupt_set,
    internal_pins_touched, internal_unlisten, listen, pads_to_wake, unlisten, Async, Blocking,
    Continuous, OneShot, ThresholdMode, Touch, TouchConfig, TouchFuture, TouchGpio, TouchPad,
    TouchPeripheral, TouchPin,
};

fn s(reg: Reg, field: Field, v: u32) -> BusOp {
    BusOp::Store(reg, field, v)
}

struct MockPin {
    nr: u8,
}

impl TouchPin for MockPin {
    fn channel_of(&self) -> u8 {
        self.nr
    }

    fn touch_nr(&self) -> u8 {
        self.nr
    }
}

type Regs = HashMap<(Reg, Field), u32>;

fn apply(rf: &mut Regs, ops: &[BusOp]) {
    for op in ops {
        match *op {
            BusOp::Store(Reg::RtcIntEnaW1tc, f, 1) => {
                rf.insert((Reg::RtcIntEna, f), 0);
            }
            BusOp::Store(Reg::RtcIntClr, f, 1) => {
                rf.insert((Reg::RtcIntRaw, f), 0);
            }
            BusOp::Store(r, f, v) | BusOp::WaitUntil(r, f, v) => {
                rf.insert((r, f), v);
            }
            _ => {}
        }
    }
}

fn state(ops: &[BusOp]) -> Regs {
    let mut rf = Regs::new();
    apply(&mut rf, ops);
    rf
}

fn common_ops(meas: u32) -> Vec<BusOp> {
    let intr = [
        Field::TouchDone,
        Field::TouchActive,
        Field::TouchInactive,
        Field::TouchScanDone,
        Field::TouchTimeout,
        Field::TouchApproachLoopDone,
    ];
    let mut ops = vec![
        s(Reg::RtcTouchCtrl2, Field::StartEn, 0),
        s(Reg::RtcTouchCtrl2, Field::SlpTimerEn, 0),
        s(Reg::RtcTouchCtrl2, Field::TimerForceDone, 3),
        s(Reg::RtcTouchCtrl2, Field::TimerForceDone, 0),
    ];
    ops.extend(intr.iter().map(|f| s(Reg::RtcIntEnaW1tc, *f, 1)));
    ops.extend(intr.iter().map(|f| s(Reg::RtcIntClr, *f, 1)));
    ops.extend([
        s(Reg::SensTouchConf, Field::Outen, 0),
        s(Reg::RtcTouchScanCtrl, Field::ScanPadMap, 0),
        s(Reg::SensTouchConf, Field::StatusClr, 1),
        s(Reg::RtcTouchCtrl1, Field::MeasNum, meas),
        s(Reg::RtcTouchCtrl2, Field::XpdWait, 0xFF),
    ]);
    ops
}

fn continuous_ops(sleep: u32, meas: u32) -> Vec<BusOp> {
    let mut ops = vec![s(Reg::SensTouchConf, Field::DataSel, 0)];
    ops.extend(common_ops(meas));
    ops.extend([
        s(Reg::RtcTouchScanCtrl, Field::DenoiseEn, 1),
        s(Reg::RtcTouchCtrl2, Field::TimerForceDone, 3),
        s(Reg::RtcTouchCtrl2, Field::TimerForceDone, 0),
        s(Reg::RtcTouchCtrl2, Field::StartFsmEn, 0),
        s(Reg::RtcTouchCtrl2, Field::StartForce, 0),
        s(Reg::RtcTouchCtrl2, Field::SlpTimerEn, 1),
        s(Reg::RtcTouchCtrl1, Field::SleepCycles, sleep),
    ]);
    ops
}

fn software_ops() -> Vec<BusOp> {
    vec![
        s(Reg::RtcTouchCtrl2, Field::StartFsmEn, 1),
        s(Reg::RtcTouchCtrl2, Field::StartEn, 0),
        s(Reg::RtcTouchCtrl2, Field::StartForce, 1),
    ]
}

#[test]
fn one_shot_mode_software_fsm() {
    let mut bus = TouchBus::new();
    let cfg = TouchConfig {
        threshold_mode: Some(ThresholdMode::GreaterThan),
        measurement_duration: Some(0x2000),
        sleep_cycles: Some(5),
    };
    let _touch = Touch::one_shot_mode(TouchPeripheral, &mut bus, Some(cfg));
    let mut expected = common_ops(0x2000);
    expected.extend(software_ops());
    assert_eq!(bus.ops, expected);
    let rf = state(&bus.ops);
    assert_eq!(rf[&(Reg::RtcTouchCtrl2, Field::StartForce)], 1);
    assert_eq!(rf[&(Reg::RtcTouchCtrl1, Field::MeasNum)], 0x2000);

    let mut bus2 = TouchBus::new();
    let _touch2 = Touch::one_shot_mode(TouchPeripheral, &mut bus2, None);
    let mut expected2 = common_ops(0x7fff);
    expected2.extend(software_ops());
    assert_eq!(bus2.ops, expected2);

    let mut bus3 = TouchBus::new();
    Touch::<OneShot, Blocking>::initialize_common(&mut bus3, Some(TouchConfig::default()));
    assert_eq!(bus3.ops, common_ops(0x7fff));
}

#[test]
fn continuous_mode_sleep_cycles() {
    let mut bus = TouchBus::new();
    let _t = Touch::continuous_mode(TouchPeripheral, &mut bus, None);
    assert_eq!(bus.ops, continuous_ops(0x100, 0x7fff));

    let mut bus = TouchBus::new();
    let cfg = TouchConfig { sleep_cycles: Some(0x20), ..Default::default() };
    let _t = Touch::continuous_mode(TouchPeripheral, &mut bus, Some(cfg));
    assert_eq!(bus.ops, continuous_ops(0x20, 0x7fff));

    let mut bus = TouchBus::new();
    let cfg = TouchConfig { measurement_duration: Some(0x3000), ..Default::default() };
    let _t = Touch::async_mode(TouchPeripheral, &mut bus, Some(cfg));
    assert_eq!(bus.ops, continuous_ops(0x100, 0x3000));

    let mut bus = TouchBus::new();
    Touch::<Continuous, Async>::initialize_common_continuous(
        &mut bus,
        Some(TouchConfig { sleep_cycles: Some(9), ..Default::default() }),
    );
    assert_eq!(bus.ops, continuous_ops(9, 0x7fff));
}

#[test]
fn continuous_mode_leaves_timer_fsm() {
    let mut bus = TouchBus::new();
    let cfg = TouchConfig { sleep_cycles: Some(0x40), measurement_duration: Some(0x1234), ..Default::default() };
    let _t = Touch::continuous_mode(TouchPeripheral, &mut bus, Some(cfg));
    let rf = state(&bus.ops);
    assert_eq!(rf[&(Reg::RtcTouchCtrl2, Field::StartForce)], 0);
    assert_eq!(rf[&(Reg::RtcTouchCtrl2, Field::SlpTimerEn)], 1);
    assert_eq!(rf[&(Reg::RtcTouchCtrl2, Field::StartFsmEn)], 0);
    assert_eq!(rf[&(Reg::RtcTouchCtrl1, Field::SleepCycles)], 0x40);
    assert_eq!(rf[&(Reg::RtcTouchCtrl1, Field::MeasNum)], 0x1234);
    assert_eq!(rf[&(Reg::RtcTouchScanCtrl, Field::DenoiseEn)], 1);
}

#[test]
fn config_defaults() {
    let c = TouchConfig::default();
    assert!(c.threshold_mode.is_none());
    assert!(c.measurement_duration.is_none());
    assert!(c.sleep_cycles.is_none());
}

#[test]
fn pad_routes_pin_and_reads() {
    let mut bus = TouchBus::new();
    let touch = Touch::one_shot_mode(TouchPeripheral, &mut bus, None);
    let mut bus = TouchBus::new();
    let mut pad = TouchPad::new(MockPin { nr: 3 }, &touch, &mut bus);
    assert_eq!(bus.ops, vec![BusOp::RoutePin(3)]);
    assert_eq!(pad.touch_channel(), 3);
    let mut bus = TouchBus::new();
    pad.start_measurement(&mut bus);
    pad.start_measurement(&mut bus);
    let edge = vec![s(Reg::RtcTouchCtrl2, Field::StartEn, 0), s(Reg::RtcTouchCtrl2, Field::StartEn, 1)];
    assert_eq!(bus.ops, [edge.clone(), edge].concat());
    assert_eq!(pad.try_read(false, 4242), None);
    assert_eq!(pad.try_read(true, 4242), Some(4242));
    let mut bus = TouchBus::new();
    pad.read(&mut bus);
    assert_eq!(
        bus.ops,
        vec![BusOp::WaitUntil(Reg::SensTouchChnSt, Field::MeasDone, 1), BusOp::Read(Reg::SensTouchStatus(2), Field::Data)]
    );
    assert!(pad.ready(true));
    assert!(!pad.ready(false));
    assert_eq!(pad.active(0x15), 0x15);
    assert_eq!(pad.outen(0x7), 0x7);
}

#[test]
fn pad_listen_and_interrupts() {
    let mut bus = TouchBus::new();
    let touch = Touch::continuous_mode(TouchPeripheral, &mut bus, None);
    let mut bus = TouchBus::new();
    let mut pad = TouchPad::new(MockPin { nr: 5 }, &touch, &mut bus);
    let mut bus = TouchBus::new();
    pad.listen(&mut bus, 300, 0b10);
    assert_eq!(
        bus.ops,
        vec![
            s(Reg::SensTouchThres(4), Field::Bits, 300),
            s(Reg::RtcIntEna, Field::TouchActive, 1),
            s(Reg::SensTouchConf, Field::Outen, 0b100010),
        ]
    );
    let mut bus = TouchBus::new();
    pad.unlisten(&mut bus, 0b100010);
    assert_eq!(bus.ops, vec![s(Reg::SensTouchConf, Field::Outen, 0b10)]);
    let mut bus = TouchBus::new();
    pad.unlisten(&mut bus, 0b100000);
    assert_eq!(bus.ops, vec![s(Reg::SensTouchConf, Field::Outen, 0), s(Reg::RtcIntEna, Field::TouchActive, 0)]);
    let mut bus = TouchBus::new();
    pad.clear_interrupt(&mut bus);
    assert_eq!(bus.ops, vec![s(Reg::RtcIntClr, Field::TouchActive, 1), s(Reg::SensTouchConf, Field::StatusClr, 1)]);
    assert!(pad.is_interrupt_set(1 << 5));
    assert!(!pad.is_interrupt_set(!(1 << 5)));
}

#[test]
fn listen_then_unlisten_restores() {
    let mut rf = Regs::new();
    let mut bus = TouchBus::new();
    listen(&mut bus, 4, 0b1);
    apply(&mut rf, &bus.ops);
    assert_eq!(rf[&(Reg::SensTouchConf, Field::Outen)], 0b10001);
    assert_eq!(rf[&(Reg::RtcIntEna, Field::TouchActive)], 1);
    let mut bus = TouchBus::new();
    unlisten(&mut bus, 4, 0b10001);
    apply(&mut rf, &bus.ops);
    assert_eq!(rf[&(Reg::SensTouchConf, Field::Outen)], 0b1);
    assert_eq!(rf[&(Reg::RtcIntEna, Field::TouchActive)], 1);
}

#[test]
fn interrupt_helpers() {
    let mut bus = TouchBus::new();
    internal_unlisten(&mut bus);
    assert_eq!(bus.ops, vec![s(Reg::SensTouchConf, Field::Outen, 0), s(Reg::RtcIntEna, Field::TouchActive, 0)]);
    let mut bus = TouchBus::new();
    internal_clear_interrupt(&mut bus);
    let rf = state(&bus.ops);
    assert_eq!(rf[&(Reg::RtcIntRaw, Field::TouchActive)], 0);
    assert_eq!(internal_pins_touched(0x24), 0x24);
    assert!(internal_is_interrupt_set(2, 0x24));
    assert!(!internal_is_interrupt_set(3, 0x24));
}

#[test]
fn future_poll_decision() {
    let f = TouchFuture::new(2);
    assert!(f.is_touched(0b100));
    assert!(!f.is_touched(0b011));
    assert_eq!(f.handled_mask(), !0b100u16);
    assert_eq!(0b111u16 & f.handled_mask(), 0b011);
    assert!(!f.is_touched(0b111 & f.handled_mask()));
    let g = TouchFuture::new(9);
    assert!(g.is_touched(0x200));
}

#[test]
fn wakers_of_touched_pads() {
    assert_eq!(pads_to_wake(0b10_0000_0101), vec![0, 2, 9]);
    assert_eq!(pads_to_wake(0), Vec::<usize>::new());
    // channels 10 and up have no waker
    assert_eq!(pads_to_wake(0xfc00), Vec::<usize>::new());
    assert_eq!(pads_to_wake(0xffff), (0..10).collect::<Vec<usize>>());
    let mut bus = TouchBus::new();
    let resp = handle_touch_interrupt(&mut bus, 0b1010);
    assert_eq!(resp.touched_pins, 0b1010);
    assert_eq!(resp.wake, vec![1, 3]);
    assert_eq!(
        bus.ops,
        vec![
            s(Reg::RtcIntClr, Field::TouchActive, 1),
            s(Reg::SensTouchConf, Field::StatusClr, 1),
            s(Reg::SensTouchConf, Field::Outen, 0),
            s(Reg::RtcIntEna, Field::TouchActive, 0),
        ]
    );
}

#[test]
fn wait_for_touch_future_has_pad_channel() {
    let mut bus = TouchBus::new();
    let touch = Touch::async_mode(TouchPeripheral, &mut bus, None);
    let mut bus = TouchBus::new();
    let mut pad = TouchPad::new(MockPin { nr: 7 }, &touch, &mut bus);
    let mut bus = TouchBus::new();
    let fut = pad.wait_for_touch(&mut bus, 1234, 0);
    assert_eq!(fut.touch_nr(), 7);
    assert!(fut.is_touched(1 << 7));
    assert_eq!(bus.ops[0], s(Reg::SensTouchThres(6), Field::Bits, 1234));
    assert_eq!(bus.ops[2], s(Reg::SensTouchConf, Field::Outen, 1 << 7));
}

#[test]
fn clear_then_enable_channels() {
    let mut bus = TouchBus::new();
    touch_ll_clear_channel_mask(&mut bus);
    let rf = state(&bus.ops);
    let map = rf[&(Reg::RtcTouchScanCtrl, Field::ScanPadMap)] as u16;
    let outen = rf[&(Reg::SensTouchConf, Field::Outen)] as u16;
    let mut bus = TouchBus::new();
    touch_ll_set_channel_mask(&mut bus, 0xc003, map, outen);
    let rf = state(&bus.ops);
    assert_eq!(rf[&(Reg::RtcTouchScanCtrl, Field::ScanPadMap)], 0x0003);
    assert_eq!(rf[&(Reg::SensTouchConf, Field::Outen)], 0x0003);
}

#[test]
fn touch_gpio_channels() {
    assert!(TouchGpio::new(0).is_none());
    assert!(TouchGpio::new(15).is_none());
    let pin = TouchGpio::new(4).unwrap();
    assert_eq!(pin.touch_nr(), 4);
    let mut bus = TouchBus::new();
    let touch = Touch::one_shot_mode(TouchPeripheral, &mut bus, None);
    let mut bus = TouchBus::new();
    let pad = TouchPad::new(TouchGpio::new(14).unwrap(), &touch, &mut bus);
    assert_eq!(pad.touch_channel(), 14);
    assert_eq!(bus.ops, vec![BusOp::RoutePin(14)]);
}
