//! Capacitive touch sensor driver: the touch peripheral in one-shot or continuous
//! mode, and the pins configured as touch pads.
//!
//! The hardware accesses of every operation are appended to a [`TouchBus`]; values
//! that the hardware reports (done bits, measurements, channel maps) are passed in
//! as read by the caller.
use core::marker::PhantomData;

use vstd::prelude::*;

use crate::lowlevel::{
    clear_channel_mask_plan, clear_trigger_status_mask_plan, intr_clear_plan, intr_disable_plan,
    one_store_plan, set_meas_times_plan, start_sw_meas_plan, status_reg, stop_fsm_plan,
    timer_pulse_plan, touch_ll_clear_channel_mask, touch_ll_clear_trigger_status_mask,
    touch_ll_intr_clear, touch_ll_intr_disable, touch_ll_set_meas_times, touch_ll_set_threshold,
    touch_ll_start_sw_meas, touch_ll_stop_fsm, TOUCH_LL_TIMER_DONE, TOUCH_LL_TIMER_FORCE_DONE,
};
use crate::regs::{st, BusOp, Field, Reg, TouchBus};

verus! {

/// A marker trait describing the driver mode (blocking or async).
pub trait DriverMode {}

/// Marker for blocking drivers.
#[derive(Debug)]
pub struct Blocking;

/// Marker for async drivers.
#[derive(Debug)]
pub struct Async;

impl DriverMode for Blocking {}

impl DriverMode for Async {}

/// A marker trait describing the mode the touch pad is set to.
pub trait TouchMode {}

/// Marker struct for the touch peripheral's manual trigger mode ("start FSM via
/// software").
#[derive(Debug)]
pub struct OneShot;

/// Marker struct for the touch peripheral's continuous reading mode ("start FSM via
/// timer").
#[derive(Debug)]
pub struct Continuous;

impl TouchMode for OneShot {}

impl TouchMode for Continuous {}

/// Touchpad threshold type.
#[derive(Debug, Clone, Copy, PartialEq, Eq, Structural)]
pub enum ThresholdMode {
    /// Pad is considered touched if value is greater than threshold.
    GreaterThan,
    /// Pad is considered touched if value is less than threshold.
    LessThan,
}

/// Configurations for the touch pad driver.
#[derive(Debug, Clone, Copy)]
pub struct TouchConfig {
    /// The [`ThresholdMode`] for the pads. Defaults to `ThresholdMode::LessThan`.
    pub threshold_mode: Option<ThresholdMode>,
    /// Duration of a single measurement (in cycles of the 8 MHz touch clock).
    /// Defaults to `0x7fff`.
    pub measurement_duration: Option<u16>,
    /// Sleep cycles for the touch timer in [`Continuous`]-mode. Defaults to `0x100`.
    pub sleep_cycles: Option<u16>,
}

impl Default for TouchConfig {
    fn default() -> (c: Self)
        ensures
            c.threshold_mode.is_none(),
            c.measurement_duration.is_none(),
            c.sleep_cycles.is_none(),
    {
        TouchConfig { threshold_mode: None, measurement_duration: None, sleep_cycles: None }
    }
}

/// The touch peripheral singleton, owned by the driver once it is initialized.
#[derive(Debug)]
pub struct TouchPeripheral;

/// This struct marks a successfully initialized touch peripheral.
pub struct Touch<Tm: TouchMode, Dm: DriverMode> {
    _inner: TouchPeripheral,
    _touch_mode: PhantomData<Tm>,
    _mode: PhantomData<Dm>,
}

/// The default number of sleep cycles in continuous mode.
pub const DEFAULT_SLEEP_CYCLES: u16 = 0x100;

/// The default duration of a single measurement.
pub const DEFAULT_MEASUREMENT_DURATION: u16 = 0x7fff;

/// The measurement duration that `config` chooses.
pub open spec fn measurement_duration(config: Option<TouchConfig>) -> u16 {
    match config {
        Some(c) => match c.measurement_duration {
            Some(d) => d,
            None => DEFAULT_MEASUREMENT_DURATION,
        },
        None => DEFAULT_MEASUREMENT_DURATION,
    }
}

/// The sleep cycles that continuous mode uses for `config`.
pub open spec fn continuous_sleep_cycles(config: Option<TouchConfig>) -> u16 {
    match config {
        Some(c) => match c.sleep_cycles {
            Some(s) => s,
            None => DEFAULT_SLEEP_CYCLES,
        },
        None => DEFAULT_SLEEP_CYCLES,
    }
}

/// The accesses of the common initialization.
pub open spec fn initialize_common_plan(config: Option<TouchConfig>) -> Seq<BusOp> {
    stop_fsm_plan() + intr_disable_plan() + intr_clear_plan() + clear_channel_mask_plan()
        + clear_trigger_status_mask_plan() + set_meas_times_plan(measurement_duration(config))
}

/// The stores that hand the FSM to the timer and start it.
pub open spec fn timer_mode_plan() -> Seq<BusOp> {
    seq![
        st(Reg::RtcTouchCtrl2, Field::StartFsmEn, 0),
        st(Reg::RtcTouchCtrl2, Field::StartForce, 0),
        st(Reg::RtcTouchCtrl2, Field::SlpTimerEn, 1),
    ]
}

/// The stores that hand the FSM to software triggers.
pub open spec fn software_mode_plan() -> Seq<BusOp> {
    seq![
        st(Reg::RtcTouchCtrl2, Field::StartFsmEn, 1),
        st(Reg::RtcTouchCtrl2, Field::StartEn, 0),
        st(Reg::RtcTouchCtrl2, Field::StartForce, 1),
    ]
}

/// The accesses of the continuous-mode initialization.
pub open spec fn initialize_common_continuous_plan(config: Option<TouchConfig>) -> Seq<BusOp> {
    one_store_plan(Reg::SensTouchConf, Field::DataSel, 0) + initialize_common_plan(config)
        + one_store_plan(Reg::RtcTouchScanCtrl, Field::DenoiseEn, 1) + timer_pulse_plan()
        + timer_mode_plan() + one_store_plan(
        Reg::RtcTouchCtrl1,
        Field::SleepCycles,
        continuous_sleep_cycles(config) as u32,
    )
}

impl<Tm: TouchMode, Dm: DriverMode> Touch<Tm, Dm> {
    /// Common initialization of the touch peripheral: stops the FSM, disables and
    /// clears the interrupts, disables all channels, clears the status and sets the
    /// measurement duration (`config.measurement_duration`, else `0x7fff`).
    pub fn initialize_common(bus: &mut TouchBus, config: Option<TouchConfig>)
        ensures
            final(bus)@ == old(bus)@ + initialize_common_plan(config),
    {
        let mut meas_dur: u16 = DEFAULT_MEASUREMENT_DURATION;
        if let Some(c) = config {
            if let Some(dur) = c.measurement_duration {
                meas_dur = dur;
            }
        }
        touch_ll_stop_fsm(bus);
        touch_ll_intr_disable(bus);
        touch_ll_intr_clear(bus);
        touch_ll_clear_channel_mask(bus);
        touch_ll_clear_trigger_status_mask(bus);
        touch_ll_set_meas_times(bus, meas_dur);
        assert(bus@ =~= old(bus)@ + initialize_common_plan(config));
    }

    /// Common parts of the continuous mode initialization: selects raw data, runs
    /// the common initialization, enables denoising, pulses the timer, hands the FSM
    /// to the timer and sets the sleep cycles (`config.sleep_cycles`, else `0x100`).
    pub fn initialize_common_continuous(bus: &mut TouchBus, config: Option<TouchConfig>)
        ensures
            final(bus)@ == old(bus)@ + initialize_common_continuous_plan(config),
    {
        bus.store(Reg::SensTouchConf, Field::DataSel, 0);
        let mut sleep_cyc: u16 = DEFAULT_SLEEP_CYCLES;
        if let Some(c) = config {
            if let Some(slp) = c.sleep_cycles {
                sleep_cyc = slp;
            }
        }
        Self::initialize_common(bus, config);
        bus.store(Reg::RtcTouchScanCtrl, Field::DenoiseEn, 1);
        bus.store(Reg::RtcTouchCtrl2, Field::TimerForceDone, TOUCH_LL_TIMER_FORCE_DONE as u32);
        bus.store(Reg::RtcTouchCtrl2, Field::TimerForceDone, TOUCH_LL_TIMER_DONE as u32);
        bus.store(Reg::RtcTouchCtrl2, Field::StartFsmEn, 0);
        bus.store(Reg::RtcTouchCtrl2, Field::StartForce, 0);
        bus.store(Reg::RtcTouchCtrl2, Field::SlpTimerEn, 1);
        bus.store(Reg::RtcTouchCtrl1, Field::SleepCycles, sleep_cyc as u32);
        assert(bus@ =~= old(bus)@ + initialize_common_continuous_plan(config));
    }
}

impl Touch<OneShot, Blocking> {
    /// Initializes the touch peripheral and returns this marker struct: the common
    /// initialization, then the FSM is handed to software triggers
    /// (`touch_start_fsm_en` and `touch_start_force` set, `touch_start_en` cleared).
    pub fn one_shot_mode(
        touch_peripheral: TouchPeripheral,
        bus: &mut TouchBus,
        config: Option<TouchConfig>,
    ) -> (touch: Self)
        ensures
            final(bus)@ == old(bus)@ + initialize_common_plan(config) + software_mode_plan(),
    {
        Self::initialize_common(bus, config);
        bus.store(Reg::RtcTouchCtrl2, Field::StartFsmEn, 1);
        bus.store(Reg::RtcTouchCtrl2, Field::StartEn, 0);
        bus.store(Reg::RtcTouchCtrl2, Field::StartForce, 1);
        assert(bus@ =~= old(bus)@ + initialize_common_plan(config) + software_mode_plan());
        Touch { _inner: touch_peripheral, _mode: PhantomData, _touch_mode: PhantomData }
    }
}

impl Touch<Continuous, Blocking> {
    /// Initializes the touch peripheral in continuous mode and returns this marker
    /// struct.
    pub fn continuous_mode(
        touch_peripheral: TouchPeripheral,
        bus: &mut TouchBus,
        config: Option<TouchConfig>,
    ) -> (touch: Self)
        ensures
            final(bus)@ == old(bus)@ + initialize_common_continuous_plan(config),
    {
        Self::initialize_common_continuous(bus, config);
        Touch { _inner: touch_peripheral, _mode: PhantomData, _touch_mode: PhantomData }
    }
}

impl Touch<Continuous, Async> {
    /// Initializes the touch peripheral in continuous async mode and returns this
    /// marker struct. The caller installs the RTC interrupt handler that serves the
    /// async pads.
    pub fn async_mode(
        touch_peripheral: TouchPeripheral,
        bus: &mut TouchBus,
        config: Option<TouchConfig>,
    ) -> (touch: Self)
        ensures
            final(bus)@ == old(bus)@ + initialize_common_continuous_plan(config),
    {
        Self::initialize_common_continuous(bus, config);
        Touch { _inner: touch_peripheral, _mode: PhantomData, _touch_mode: PhantomData }
    }
}

/// A GPIO pin that can be used as a touch pad.
pub trait TouchPin {
    /// The pin's touch channel.
    spec fn channel_of(&self) -> u8;

    /// The pin's touch channel number.
    fn touch_nr(&self) -> (nr: u8)
        ensures
            nr == self.channel_of(),
    ;
}

/// A touch-capable GPIO of the ESP32-S3, GPIO1 to GPIO14: the touch channel of
/// GPIO `n` is `n`.
pub struct TouchGpio {
    gpio: u8,
}

impl TouchGpio {
    /// The touch-capable GPIO number `gpio`; `None` for a GPIO without a touch
    /// channel.
    pub fn new(gpio: u8) -> (pin: Option<Self>)
        ensures
            pin.is_some() == (1 <= gpio <= 14),
            pin matches Some(p) ==> p.channel_of() == gpio,
    {
        if 1 <= gpio && gpio <= 14 {
            Some(TouchGpio { gpio })
        } else {
            None
        }
    }
}

impl TouchPin for TouchGpio {
    closed spec fn channel_of(&self) -> u8 {
        self.gpio
    }

    fn touch_nr(&self) -> (nr: u8) {
        self.gpio
    }
}

/// A pin that is configured as a TouchPad.
pub struct TouchPad<P: TouchPin, Tm: TouchMode, Dm: DriverMode> {
    pin: P,
    touch_nr: u8,
    _touch_mode: PhantomData<Tm>,
    _mode: PhantomData<Dm>,
}

/// The store that marks channel `touch_nr` as an interrupt source.
pub open spec fn listen_plan(touch_nr: u8, current_outen: u16) -> Seq<BusOp> {
    seq![
        st(Reg::RtcIntEna, Field::TouchActive, 1),
        st(Reg::SensTouchConf, Field::Outen, (current_outen | (1u16 << touch_nr)) as u32),
    ]
}

/// The channel outputs left after removing channel `touch_nr`.
pub open spec fn outen_without(touch_nr: u8, current_outen: u16) -> u16 {
    current_outen & !(1u16 << touch_nr)
}

/// Removes channel `touch_nr` from the channel outputs, and disables the touch
/// interrupt when no channel output is left.
pub open spec fn unlisten_plan(touch_nr: u8, current_outen: u16) -> Seq<BusOp> {
    let rest = outen_without(touch_nr, current_outen);
    one_store_plan(Reg::SensTouchConf, Field::Outen, rest as u32) + if rest & 0x7fff == 0 {
        one_store_plan(Reg::RtcIntEna, Field::TouchActive, 0)
    } else {
        Seq::empty()
    }
}

pub open spec fn internal_unlisten_plan() -> Seq<BusOp> {
    seq![st(Reg::SensTouchConf, Field::Outen, 0), st(Reg::RtcIntEna, Field::TouchActive, 0)]
}

pub open spec fn clear_interrupt_plan() -> Seq<BusOp> {
    seq![st(Reg::RtcIntClr, Field::TouchActive, 1), st(Reg::SensTouchConf, Field::StatusClr, 1)]
}

/// The blocking read of pad `touch_nr`: wait until the measurement is done, then
/// read the pad's data.
pub open spec fn blocking_read_plan(touch_nr: u8) -> Seq<BusOp> {
    seq![
        BusOp::WaitUntil(Reg::SensTouchChnSt, Field::MeasDone, 1),
        BusOp::Read(status_reg(touch_nr), Field::Data),
    ]
}

impl<P: TouchPin, Tm: TouchMode, Dm: DriverMode> TouchPad<P, Tm, Dm> {
    /// The pin of the pad.
    pub closed spec fn pin_of(&self) -> P {
        self.pin
    }

    /// The touch channel of the pad: the channel of its pin.
    pub closed spec fn channel(&self) -> u8 {
        self.touch_nr
    }

    /// The pad's touch channel.
    pub fn touch_channel(&self) -> (nr: u8)
        ensures
            nr == self.channel(),
    {
        self.touch_nr
    }

    /// Constructs a new [`TouchPad`] on the touch sensor configured by `_touch`: takes
    /// the pin's touch channel as the pad's channel and has the GPIO driver route the
    /// pin to the touch sensor.
    pub fn new(pin: P, _touch: &Touch<Tm, Dm>, bus: &mut TouchBus) -> (pad: Self)
        ensures
            pad.pin_of() == pin,
            pad.channel() == pin.channel_of(),
            final(bus)@ == old(bus)@.push(BusOp::RoutePin(pin.channel_of())),
    {
        let touch_nr = pin.touch_nr();
        bus.route_pin(touch_nr);
        TouchPad { pin, touch_nr, _mode: PhantomData, _touch_mode: PhantomData }
    }

    /// Reads the current touch pad capacitance counter, if the measurement is done:
    /// `meas_done` is the `sar_touch_meas_done` bit and `measurement` the pad's data,
    /// as read. `None` when the measurement is not done.
    pub fn try_read(&mut self, meas_done: bool, measurement: u32) -> (value: Option<u32>)
        ensures
            value == (if meas_done { Some(measurement) } else { None::<u32> }),
            final(self).pin_of() == old(self).pin_of(),
            final(self).channel() == old(self).channel(),
    {
        if meas_done {
            Some(measurement)
        } else {
            None
        }
    }
}

impl<P: TouchPin> TouchPad<P, OneShot, Blocking> {
    /// (Re-)starts a touch measurement: `touch_start_en` is stored 0, then 1.
    pub fn start_measurement(&mut self, bus: &mut TouchBus)
        ensures
            final(bus)@ == old(bus)@ + start_sw_meas_plan(),
            final(self).pin_of() == old(self).pin_of(),
            final(self).channel() == old(self).channel(),
    {
        touch_ll_start_sw_meas(bus);
    }
}

impl<P: TouchPin, Tm: TouchMode> TouchPad<P, Tm, Blocking> {
    /// Blocking read of the current touch pad capacitance counter: waits until the
    /// measurement is done, then reads the pad's data (status register
    /// `channel - 1`); the read is the last access of the log.
    pub fn read(&mut self, bus: &mut TouchBus)
        requires
            1 <= old(self).channel() <= 14,
        ensures
            final(bus)@ == old(bus)@ + blocking_read_plan(old(self).channel()),
            final(self).pin_of() == old(self).pin_of(),
            final(self).channel() == old(self).channel(),
    {
        bus.wait_until(Reg::SensTouchChnSt, Field::MeasDone, 1);
        bus.read(Reg::SensTouchStatus(self.touch_nr - 1), Field::Data);
        assert(bus@ =~= old(bus)@ + blocking_read_plan(old(self).channel()));
    }

    /// Whether a measurement is ready, given the `sar_touch_meas_done` bit as read.
    pub fn ready(&mut self, meas_done: bool) -> (ready: bool)
        ensures
            ready == meas_done,
            final(self).pin_of() == old(self).pin_of(),
            final(self).channel() == old(self).channel(),
    {
        meas_done
    }

    /// The active pads, given `sar_touch_pad_active` as read.
    pub fn active(&mut self, pad_active: u16) -> (active: u16)
        ensures
            active == pad_active,
            final(self).pin_of() == old(self).pin_of(),
            final(self).channel() == old(self).channel(),
    {
        pad_active
    }

    /// The enabled channel outputs, given `sar_touch_outen` as read.
    pub fn outen(&mut self, outen: u16) -> (enabled: u16)
        ensures
            enabled == outen,
            final(self).pin_of() == old(self).pin_of(),
            final(self).channel() == old(self).channel(),
    {
        outen
    }

    /// Listens for the pad's touch interrupt: programs the pad's threshold, enables
    /// the touch interrupt and the pad's channel output. `current_outen` is
    /// `sar_touch_outen` as read.
    pub fn listen(&mut self, bus: &mut TouchBus, threshold: u16, current_outen: u16)
        requires
            1 <= old(self).channel() <= 14,
        ensures
            final(bus)@ == old(bus)@ + one_store_plan(
                Reg::SensTouchThres((old(self).channel() - 1) as u8),
                Field::Bits,
                threshold as u32,
            ) + listen_plan(old(self).channel(), current_outen),
            final(self).pin_of() == old(self).pin_of(),
            final(self).channel() == old(self).channel(),
    {
        touch_ll_set_threshold(bus, self.touch_nr, threshold as u32);
        listen(bus, self.touch_nr, current_outen);
    }

    /// Stops listening for the pad's interrupt; when no pad is left listening the
    /// touch interrupt is disabled. `current_outen` is `sar_touch_outen` as read.
    pub fn unlisten(&mut self, bus: &mut TouchBus, current_outen: u16)
        requires
            old(self).channel() < 16,
        ensures
            final(bus)@ == old(bus)@ + unlisten_plan(old(self).channel(), current_outen),
            final(self).pin_of() == old(self).pin_of(),
            final(self).channel() == old(self).channel(),
    {
        unlisten(bus, self.touch_nr, current_outen);
    }

    /// Clears a pending touch interrupt, and the touch status, of all pins.
    pub fn clear_interrupt(&mut self, bus: &mut TouchBus)
        ensures
            final(bus)@ == old(bus)@ + clear_interrupt_plan(),
            final(self).pin_of() == old(self).pin_of(),
            final(self).channel() == old(self).channel(),
    {
        internal_clear_interrupt(bus);
    }

    /// Whether the pad is touched, based on the configured threshold value: the
    /// sensor reports the touched channels in `sar_touch_pad_active`, passed as
    /// `pad_active` as read.
    pub fn is_interrupt_set(&mut self, pad_active: u16) -> (set: bool)
        requires
            old(self).channel() < 16,
        ensures
            set == pin_touched(pad_active, old(self).channel()),
            final(self).pin_of() == old(self).pin_of(),
            final(self).channel() == old(self).channel(),
    {
        internal_is_interrupt_set(self.touch_nr, pad_active)
    }
}

impl<P: TouchPin, Tm: TouchMode> TouchPad<P, Tm, Async> {
    /// Prepares to wait for the pad to be touched: programs the pad's threshold,
    /// listens for its channel and returns the future of that channel, which
    /// resolves once the interrupt handler reports the channel touched.
    /// `current_outen` is `sar_touch_outen` as read.
    pub fn wait_for_touch(&mut self, bus: &mut TouchBus, threshold: u16, current_outen: u16) -> (fut: TouchFuture)
        requires
            1 <= old(self).channel() <= 14,
        ensures
            fut.channel() == old(self).channel(),
            final(bus)@ == old(bus)@ + one_store_plan(
                Reg::SensTouchThres((old(self).channel() - 1) as u8),
                Field::Bits,
                threshold as u32,
            ) + listen_plan(old(self).channel(), current_outen),
            final(self).pin_of() == old(self).pin_of(),
            final(self).channel() == old(self).channel(),
    {
        touch_ll_set_threshold(bus, self.touch_nr, threshold as u32);
        let touch_nr = self.touch_nr;
        listen(bus, touch_nr, current_outen);
        TouchFuture::new(touch_nr)
    }
}

/// Enables the touch interrupt and the channel output of channel `touch_nr`;
/// `current_outen` is `sar_touch_outen` as read.
pub fn listen(bus: &mut TouchBus, touch_nr: u8, current_outen: u16)
    requires
        touch_nr < 16,
    ensures
        final(bus)@ == old(bus)@ + listen_plan(touch_nr, current_outen),
{
    bus.store(Reg::RtcIntEna, Field::TouchActive, 1);
    let outen: u16 = current_outen | (1u16 << touch_nr);
    bus.store(Reg::SensTouchConf, Field::Outen, outen as u32);
    assert(bus@ =~= old(bus)@ + listen_plan(touch_nr, current_outen));
}

/// Removes channel `touch_nr` from the channel outputs; when the outputs then read
/// 0 the touch interrupt is disabled. `current_outen` is `sar_touch_outen` as read.
pub fn unlisten(bus: &mut TouchBus, touch_nr: u8, current_outen: u16)
    requires
        touch_nr < 16,
    ensures
        final(bus)@ == old(bus)@ + unlisten_plan(touch_nr, current_outen),
{
    let b: u16 = 1u16 << touch_nr;
    let rest: u16 = current_outen & !b;
    bus.store(Reg::SensTouchConf, Field::Outen, rest as u32);
    if rest & 0x7fff == 0 {
        bus.store(Reg::RtcIntEna, Field::TouchActive, 0);
    }
    assert(bus@ =~= old(bus)@ + unlisten_plan(touch_nr, current_outen));
}

/// Disables the channel outputs of all channels and the touch interrupt.
pub fn internal_unlisten(bus: &mut TouchBus)
    ensures
        final(bus)@ == old(bus)@ + internal_unlisten_plan(),
{
    bus.store(Reg::SensTouchConf, Field::Outen, 0);
    bus.store(Reg::RtcIntEna, Field::TouchActive, 0);
    assert(bus@ =~= old(bus)@ + internal_unlisten_plan());
}

/// Clears the pending touch interrupt and the touch status.
pub fn internal_clear_interrupt(bus: &mut TouchBus)
    ensures
        final(bus)@ == old(bus)@ + clear_interrupt_plan(),
{
    bus.store(Reg::RtcIntClr, Field::TouchActive, 1);
    bus.store(Reg::SensTouchConf, Field::StatusClr, 1);
    assert(bus@ =~= old(bus)@ + clear_interrupt_plan());
}

/// The touched pads, given `sar_touch_pad_active` as read.
pub fn internal_pins_touched(pad_active: u16) -> (pins: u16)
    ensures
        pins == pad_active,
{
    pad_active
}

/// Whether channel `touch_nr` is touched, given `sar_touch_pad_active` as read. The
/// channel bit is a `u16` shift, so `touch_nr` is below 16.
pub fn internal_is_interrupt_set(touch_nr: u8, pad_active: u16) -> (set: bool)
    requires
        touch_nr < 16,
    ensures
        set == pin_touched(pad_active, touch_nr),
{
    let b: u16 = 1u16 << touch_nr;
    internal_pins_touched(pad_active) & b != 0
}

/// Number of touch pins that can be awaited.
pub const NUM_TOUCH_PINS: usize = 10;

/// A future that resolves when its touch channel was reported touched.
pub struct TouchFuture {
    touch_nr: u8,
}

/// Whether channel `touch_nr` is set in `pins`.
pub open spec fn pin_touched(pins: u16, touch_nr: u8) -> bool {
    pins & (1u16 << touch_nr) != 0
}

impl TouchFuture {
    /// The future's channel.
    pub closed spec fn channel(&self) -> u8 {
        self.touch_nr
    }

    /// A future for channel `touch_nr`.
    pub fn new(touch_nr: u8) -> (f: Self)
        ensures
            f.channel() == touch_nr,
    {
        TouchFuture { touch_nr }
    }

    /// The future's channel number.
    pub fn touch_nr(&self) -> (nr: u8)
        ensures
            nr == self.channel(),
    {
        self.touch_nr
    }

    /// The poll decision: whether the future's channel is set in the touched pins
    /// `pins`. The channel indexes the table of `NUM_TOUCH_PINS` wakers.
    pub fn is_touched(&self, pins: u16) -> (ready: bool)
        requires
            (self.channel() as usize) < NUM_TOUCH_PINS,
        ensures
            ready == pin_touched(pins, self.channel()),
    {
        let b: u16 = 1u16 << self.touch_nr;
        pins & b != 0
    }

    /// The mask that the poll ANDs into the touched pins to mark the channel handled.
    pub fn handled_mask(&self) -> (mask: u16)
        requires
            (self.channel() as usize) < NUM_TOUCH_PINS,
        ensures
            mask == !(1u16 << self.channel()),
    {
        let b: u16 = 1u16 << self.touch_nr;
        !b
    }
}

/// The channels below `n` that are set in `pads`, in increasing order.
pub open spec fn channels_set(pads: u16, n: nat) -> Seq<usize>
    decreases n,
{
    if n == 0 {
        Seq::empty()
    } else {
        let rest = channels_set(pads, (n - 1) as nat);
        if pads & (1u16 << ((n - 1) as u16)) != 0 {
            rest.push((n - 1) as usize)
        } else {
            rest
        }
    }
}

/// The wakers to wake for the touched pads `touch_pads`: the channels below
/// `NUM_TOUCH_PINS` whose bit is set, in increasing order.
pub fn pads_to_wake(touch_pads: u16) -> (wake: Vec<usize>)
    ensures
        wake@ == channels_set(touch_pads, NUM_TOUCH_PINS as nat),
{
    let mut wake: Vec<usize> = Vec::new();
    let mut i: usize = 0;
    while i < NUM_TOUCH_PINS
        invariant
            i <= NUM_TOUCH_PINS,
            wake@ == channels_set(touch_pads, i as nat),
        decreases NUM_TOUCH_PINS - i,
    {
        let b: u16 = 1u16 << (i as u16);
        if touch_pads & b != 0 {
            wake.push(i);
        }
        i = i + 1;
    }
    wake
}

/// What the touch interrupt handler does: the pads to record as touched and the
/// wakers to wake.
pub struct TouchInterruptResponse {
    pub touched_pins: u16,
    pub wake: Vec<usize>,
}

/// The touch interrupt handler's decisions: given the touched pads
/// `sar_touch_pad_active` as read, it wakes the wakers of those below
/// `NUM_TOUCH_PINS`, records the pads, clears the interrupt and stops listening.
pub fn handle_touch_interrupt(bus: &mut TouchBus, pad_active: u16) -> (resp: TouchInterruptResponse)
    ensures
        resp.touched_pins == pad_active,
        resp.wake@ == channels_set(pad_active, NUM_TOUCH_PINS as nat),
        final(bus)@ == old(bus)@ + clear_interrupt_plan() + internal_unlisten_plan(),
{
    let touch_pads = internal_pins_touched(pad_active);
    let wake = pads_to_wake(touch_pads);
    internal_clear_interrupt(bus);
    internal_unlisten(bus);
    TouchInterruptResponse { touched_pins: touch_pads, wake }
}

} // verus!
