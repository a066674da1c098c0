use vstd::prelude::*;

verus! {

/// A register of the touch sensor peripherals (RTC control block, SENS block and
/// RTC IO block), named after the accessor of the peripheral access layer.
/// Indexed registers carry their array index.
#[derive(Clone, Copy, PartialEq, Eq, Structural, Debug, Hash)]
pub enum Reg {
    /// `LPWR.touch_ctrl1`
    RtcTouchCtrl1,
    /// `LPWR.touch_ctrl2`
    RtcTouchCtrl2,
    /// `LPWR.int_ena_rtc`: the RTC interrupt enables
    RtcIntEna,
    /// `LPWR.int_raw_rtc`: the pending RTC interrupts
    RtcIntRaw,
    /// `LPWR.int_ena_rtc_w1tc`: writing 1 to a bit clears that enable
    RtcIntEnaW1tc,
    /// `LPWR.int_clr`: writing 1 to a bit clears that pending interrupt
    RtcIntClr,
    /// `LPWR.touch_scan_ctrl`
    RtcTouchScanCtrl,
    /// `LPWR.touch_approach`
    RtcTouchApproach,
    /// `LPWR.touch_dac` (slopes of pads 0 to 9)
    RtcTouchDac,
    /// `LPWR.touch_dac1` (slopes of pads 10 to 14)
    RtcTouchDac1,
    /// `SENS.sar_touch_conf`
    SensTouchConf,
    /// `SENS.sar_touch_chn_st`
    SensTouchChnSt,
    /// `SENS.sar_touch_thres(n)`
    SensTouchThres(u8),
    /// `SENS.sar_touch_status(n)`
    SensTouchStatus(u8),
    /// `RTC_IO.touch_pad(n)`
    RtcIoTouchPad(u8),
}

/// A named bit field of a register; `Bits` stands for the whole register.
#[derive(Clone, Copy, PartialEq, Eq, Structural, Debug, Hash)]
pub enum Field {
    /// `touch_ctrl1.touch_meas_num` (16 bits)
    MeasNum,
    /// `touch_ctrl1.touch_sleep_cycles` (16 bits)
    SleepCycles,
    /// `touch_ctrl2.touch_start_en`
    StartEn,
    /// `touch_ctrl2.touch_slp_timer_en`
    SlpTimerEn,
    /// `touch_ctrl2.touch_timer_force_done` (2 bits)
    TimerForceDone,
    /// `touch_ctrl2.touch_xpd_wait` (8 bits)
    XpdWait,
    /// `touch_ctrl2.touch_dbias`
    Dbias,
    /// `touch_ctrl2.touch_drefh` (2 bits)
    Drefh,
    /// `touch_ctrl2.touch_drefl` (2 bits)
    Drefl,
    /// `touch_ctrl2.touch_drange` (2 bits)
    Drange,
    /// `touch_ctrl2.touch_clkgate_en`
    ClkgateEn,
    /// `touch_ctrl2.touch_start_force`
    StartForce,
    /// `touch_ctrl2.touch_start_fsm_en`
    StartFsmEn,
    /// Interrupt bit `touch_done`
    TouchDone,
    /// Interrupt bit `touch_active`
    TouchActive,
    /// Interrupt bit `touch_inactive`
    TouchInactive,
    /// Interrupt bit `touch_scan_done`
    TouchScanDone,
    /// Interrupt bit `touch_timeout`
    TouchTimeout,
    /// Interrupt bit `touch_approach_loop_done`
    TouchApproachLoopDone,
    /// `touch_scan_ctrl.touch_scan_pad_map` (15 bits)
    ScanPadMap,
    /// `touch_scan_ctrl.touch_inactive_connection`
    InactiveConnection,
    /// `touch_scan_ctrl.touch_denoise_en`
    DenoiseEn,
    /// `touch_approach.touch_slp_channel_clr`
    SlpChannelClr,
    /// `touch_dac.touch_padN_dac` / `touch_dac1.touch_padN_dac` for pad N (3 bits)
    PadDac(u8),
    /// `sar_touch_conf.sar_touch_outen` (15 bits)
    Outen,
    /// `sar_touch_conf.sar_touch_status_clr`
    StatusClr,
    /// `sar_touch_conf.sar_touch_data_sel` (2 bits)
    DataSel,
    /// `sar_touch_chn_st.sar_touch_channel_clr` (15 bits)
    ChannelClr,
    /// `sar_touch_chn_st.sar_touch_meas_done`
    MeasDone,
    /// `sar_touch_chn_st.sar_touch_pad_active` (15 bits)
    PadActive,
    /// `sar_touch_status(n).data` (22 bits)
    Data,
    /// `touch_pad(n).tie_opt`
    TieOpt,
    /// The whole register (32 bits)
    Bits,
}

/// One access of the driver to the hardware, in program order.
#[derive(Clone, Copy, PartialEq, Eq, Structural, Debug)]
pub enum BusOp {
    /// Assigns one field of a register and keeps its other fields.
    Store(Reg, Field, u32),
    /// Reads one field; the value goes to the driver's caller.
    Read(Reg, Field),
    /// Waits until the hardware shows the value in the field.
    WaitUntil(Reg, Field, u32),
    /// Has the GPIO driver route touch channel `n`'s pin to the touch sensor.
    RoutePin(u8),
}

/// The ordered log of the accesses that the driver functions make. A bus executor
/// performs them against the hardware.
pub struct TouchBus {
    pub ops: Vec<BusOp>,
}

impl View for TouchBus {
    type V = Seq<BusOp>;

    open spec fn view(&self) -> Seq<BusOp> {
        self.ops@
    }
}

/// Shorthand for a field store in contracts.
pub open spec fn st(reg: Reg, field: Field, value: u32) -> BusOp {
    BusOp::Store(reg, field, value)
}

/// The value a boolean field takes when the driver writes `b`.
pub open spec fn bit(b: bool) -> u32 {
    if b { 1 } else { 0 }
}

impl TouchBus {
    /// An empty log.
    pub fn new() -> (bus: Self)
        ensures
            bus@ == Seq::<BusOp>::empty(),
    {
        TouchBus { ops: Vec::new() }
    }

    /// Appends a store of one field.
    pub fn store(&mut self, reg: Reg, field: Field, value: u32)
        ensures
            final(self)@ == old(self)@.push(st(reg, field, value)),
    {
        self.ops.push(BusOp::Store(reg, field, value));
    }

    /// Appends a read of one field.
    pub fn read(&mut self, reg: Reg, field: Field)
        ensures
            final(self)@ == old(self)@.push(BusOp::Read(reg, field)),
    {
        self.ops.push(BusOp::Read(reg, field));
    }

    /// Appends a wait until the field shows `value`.
    pub fn wait_until(&mut self, reg: Reg, field: Field, value: u32)
        ensures
            final(self)@ == old(self)@.push(BusOp::WaitUntil(reg, field, value)),
    {
        self.ops.push(BusOp::WaitUntil(reg, field, value));
    }

    /// Appends the routing of touch channel `n`'s pin.
    pub fn route_pin(&mut self, n: u8)
        ensures
            final(self)@ == old(self)@.push(BusOp::RoutePin(n)),
    {
        self.ops.push(BusOp::RoutePin(n));
    }
}

/// The boolean value of a written field.
pub fn bit_of(b: bool) -> (v: u32)
    ensures
        v == bit(b),
{
    if b { 1 } else { 0 }
}

// ---------------------------------------------------------------------------
// Register file model
// ---------------------------------------------------------------------------

/// `2^width` of a field: a stored value keeps its low `width` bits.
pub open spec fn field_limit(f: Field) -> nat {
    match f {
        Field::MeasNum | Field::SleepCycles => 0x10000,
        Field::TimerForceDone | Field::Drefh | Field::Drefl | Field::Drange | Field::DataSel => 4,
        Field::XpdWait => 0x100,
        Field::ScanPadMap | Field::Outen | Field::ChannelClr | Field::PadActive => 0x8000,
        Field::PadDac(_) => 8,
        Field::Data => 0x400000,
        Field::Bits => 0x1_0000_0000,
        _ => 2,
    }
}

/// The known field values: a key that is not in the map is a field whose value the
/// driver has not set or seen.
pub type RegFile = Map<(Reg, Field), u32>;

/// The field that an access sets, and the value it then holds. A store keeps the
/// field's low bits; a 1 written to `int_ena_rtc_w1tc` clears that interrupt
/// enable and a 1 written to `int_clr` clears that pending interrupt; a wait ends
/// with the field showing the value waited for. Reads and pin routing set no field.
pub open spec fn effect(op: BusOp) -> Option<((Reg, Field), u32)> {
    match op {
        BusOp::Store(r, f, v) => match r {
            Reg::RtcIntEnaW1tc => if v % 2 == 1 {
                Some(((Reg::RtcIntEna, f), 0u32))
            } else {
                None
            },
            Reg::RtcIntClr => if v % 2 == 1 {
                Some(((Reg::RtcIntRaw, f), 0u32))
            } else {
                None
            },
            _ => Some(((r, f), ((v as nat) % field_limit(f)) as u32)),
        },
        BusOp::WaitUntil(r, f, v) => Some(((r, f), v)),
        BusOp::Read(_, _) => None,
        BusOp::RoutePin(_) => None,
    }
}

/// The register file after one access.
pub open spec fn apply(rf: RegFile, op: BusOp) -> RegFile {
    match effect(op) {
        Some((k, v)) => rf.insert(k, v),
        None => rf,
    }
}

/// The register file after a sequence of accesses, in order.
pub open spec fn apply_all(rf: RegFile, ops: Seq<BusOp>) -> RegFile
    decreases ops.len(),
{
    if ops.len() == 0 {
        rf
    } else {
        apply(apply_all(rf, ops.drop_last()), ops.last())
    }
}

/// The value of a field, where it is known.
pub open spec fn read_back(rf: RegFile, r: Reg, f: Field) -> Option<u32> {
    if rf.contains_key((r, f)) {
        Some(rf[(r, f)])
    } else {
        None
    }
}

/// Whether an access sets field `k`.
pub open spec fn touches(op: BusOp, k: (Reg, Field)) -> bool {
    match effect(op) {
        Some((k2, _)) => k2 == k,
        None => false,
    }
}

/// Applying two logs one after the other is applying their concatenation.
pub proof fn lemma_apply_all_concat(rf: RegFile, a: Seq<BusOp>, b: Seq<BusOp>)
    ensures
        apply_all(rf, a + b) == apply_all(apply_all(rf, a), b),
    decreases b.len(),
{
    if b.len() == 0 {
        assert(a + b =~= a);
    } else {
        assert((a + b).drop_last() =~= a + b.drop_last());
        assert((a + b).last() == b.last());
        lemma_apply_all_concat(rf, a, b.drop_last());
    }
}

/// A field that no access of a log sets keeps its value.
pub proof fn lemma_untouched(rf: RegFile, ops: Seq<BusOp>, k: (Reg, Field))
    requires
        forall|i: int| 0 <= i < ops.len() ==> !touches(#[trigger] ops[i], k),
    ensures
        apply_all(rf, ops).contains_key(k) == rf.contains_key(k),
        rf.contains_key(k) ==> apply_all(rf, ops)[k] == rf[k],
    decreases ops.len(),
{
    if ops.len() > 0 {
        let d = ops.drop_last();
        assert forall|i: int| 0 <= i < d.len() implies !touches(#[trigger] d[i], k) by {
            assert(d[i] == ops[i]);
        }
        lemma_untouched(rf, d, k);
        assert(!touches(ops[ops.len() - 1], k));
    }
}

/// The last access that sets a field decides its value.
pub proof fn lemma_last_effect(rf: RegFile, ops: Seq<BusOp>, i: int, k: (Reg, Field), v: u32)
    requires
        0 <= i < ops.len(),
        effect(ops[i]) == Some((k, v)),
        forall|j: int| i < j < ops.len() ==> !touches(#[trigger] ops[j], k),
    ensures
        apply_all(rf, ops).contains_key(k),
        apply_all(rf, ops)[k] == v,
{
    let pre = ops.take(i + 1);
    let post = ops.skip(i + 1);
    assert(ops =~= pre + post);
    lemma_apply_all_concat(rf, pre, post);
    assert(pre.drop_last() =~= ops.take(i));
    assert(pre.last() == ops[i]);
    let mid = apply_all(rf, pre);
    assert(mid == apply(apply_all(rf, ops.take(i)), ops[i]));
    assert forall|j: int| 0 <= j < post.len() implies !touches(#[trigger] post[j], k) by {
        assert(post[j] == ops[i + 1 + j]);
    }
    lemma_untouched(mid, post, k);
}

/// Where a field is known before a log that does not set it, it is known after with
/// the same value.
pub proof fn lemma_keeps(rf: RegFile, ops: Seq<BusOp>, r: Reg, f: Field)
    requires
        forall|i: int| 0 <= i < ops.len() ==> !touches(#[trigger] ops[i], (r, f)),
    ensures
        read_back(apply_all(rf, ops), r, f) == read_back(rf, r, f),
{
    lemma_untouched(rf, ops, (r, f));
}

} // verus!
