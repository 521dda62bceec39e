//! The touch sampler: drives the four electrodes through the pressure probe and the two axis
//! measurements, one ADC conversion at a time.
//!
//! A sampling call is a conversation with the hardware layer. [`ResistiveTouchScreen::touch_point`]
//! opens it; each [`Step`] lists the pin operations to carry out and then either asks for one
//! conversion, to be handed back through [`ResistiveTouchScreen::on_conversion`], or ends the
//! call with its result. Every call ends with all four electrodes disabled.
use vstd::prelude::*;
use vstd::arithmetic::div_mod::{lemma_div_is_ordered, lemma_div_multiples_vanish};
use crate::range::{map_range, mapped};
use crate::touchio::{role_ops, widened, Electrode, PinOp, Role, TouchIO};

verus! {

/// The largest reading on the 16-bit scale.
pub const FULL_SCALE: i32 = 65535;

/// What the sampler wants next from the hardware layer.
#[derive(Clone, Copy, Debug, PartialEq, Eq)]
pub enum Request {
    /// Take one ADC conversion on this electrode and hand it to `on_conversion`.
    Convert(Electrode),
    /// The call is over: `(x, y, z)` for a touch, `None` when the pressure gate refused it.
    Done(Option<(i32, i32, i32)>),
}

/// One step of a sampling call: pin operations to carry out in order, then the request.
#[derive(Debug)]
pub struct Step {
    pub ops: Vec<PinOp>,
    pub next: Request,
}

/// Where a sampling call stands.
#[derive(Clone, Copy, Debug, PartialEq, Eq, Structural)]
pub enum Stage {
    /// No call in progress.
    Idle,
    /// Reading X- with X+ low and Y- high.
    PressureFirst,
    /// Reading Y+ with X+ low and Y- high.
    PressureSecond,
    /// Reading Y+ with X+ high and X- low.
    AxisY,
    /// Reading X+ with Y+ high and Y- low.
    AxisX,
}

/// Each reading is the second of a pair of conversions: the first settles the ADC's input
/// after the multiplexer switched, and is discarded. Reading `i` of a call is thus
/// conversion `2 * i + 1`, on the 16-bit scale.
pub open spec fn reading(c: Seq<u16>, i: int) -> int {
    widened(c[2 * i + 1]) as int
}

/// The sum of the `k` readings starting at reading `start`.
pub open spec fn reading_sum(c: Seq<u16>, start: int, k: nat) -> int
    decreases k,
{
    if k == 0 {
        0
    } else {
        reading_sum(c, start, (k - 1) as nat) + reading(c, start + k - 1)
    }
}

/// The pressure proxy of two readings: the full scale less the rise from the first to the
/// second.
pub open spec fn pressure(z1: int, z2: int) -> int {
    FULL_SCALE - (z2 - z1)
}

/// Whether a pressure proxy registers as a touch: only strictly above the threshold.
pub open spec fn accepted(z: int, threshold: int) -> bool {
    z > threshold
}

/// The result of a call from its conversions: readings 0 and 1 give the pressure; on a touch,
/// the next `n` readings are Y+ and the `n` after them X+, each axis averaged and mapped from
/// its calibration pair onto `0..size`.
pub open spec fn outcome(
    c: Seq<u16>,
    n: nat,
    threshold: int,
    calibration: ((u16, u16), (u16, u16)),
    size: (usize, usize),
) -> Option<(i32, i32, i32)> {
    let z = pressure(reading(c, 0), reading(c, 1));
    if !accepted(z, threshold) {
        None
    } else {
        let y = mapped(
            reading_sum(c, 2, n) / n as int,
            calibration.1.0 as int,
            calibration.1.1 as int,
            0,
            size.1 as int,
        );
        let x = mapped(
            reading_sum(c, 2 + n as int, n) / n as int,
            calibration.0.0 as int,
            calibration.0.1 as int,
            0,
            size.0 as int,
        );
        Some((x as i32, y as i32, z as i32))
    }
}

/// How many conversions a call takes: four for the pressure probe, and on a touch `2 * n` for
/// each axis.
pub open spec fn conversions_taken(n: nat, touched: bool) -> nat {
    if touched { 4 + 4 * n } else { 4 }
}

/// The pressure proxy of two readings on the 16-bit scale, `z1` taken on X- and `z2` on Y+.
pub fn pressure_of(z1: u16, z2: u16) -> (r: i32)
    ensures
        r == pressure(z1 as int, z2 as int),
{
    FULL_SCALE - (z2 as i32 - z1 as i32)
}

/// Whether the pressure proxy `z` registers as a touch under `threshold`.
pub fn is_touch(z: i32, threshold: u16) -> (r: bool)
    ensures
        r == accepted(z as int, threshold as int),
{
    z > threshold as i32
}


/// The electrode that conversion `k` of a call is taken on, `n` readings per axis.
pub open spec fn electrode_for(k: int, n: int) -> Electrode {
    if k < 2 {
        Electrode::XMinus
    } else if k < 4 + 2 * n {
        Electrode::YPlus
    } else {
        Electrode::XPlus
    }
}

/// Sets up the pressure probe from all-disabled: X+ low, Y- high, X- to the ADC.
pub open spec fn setup_pressure() -> Seq<PinOp> {
    seq![
        PinOp::Configure(Electrode::XPlus, Role::Output),
        PinOp::Drive(Electrode::XPlus, false),
        PinOp::Configure(Electrode::YMinus, Role::Output),
        PinOp::Drive(Electrode::YMinus, true),
        PinOp::Configure(Electrode::XMinus, Role::Analog),
    ]
}

/// Releases the pressure probe: Y+, X+ and Y- float again.
pub open spec fn release_pressure() -> Seq<PinOp> {
    seq![
        PinOp::Configure(Electrode::YPlus, Role::Disabled),
        PinOp::Configure(Electrode::XPlus, Role::Disabled),
        PinOp::Configure(Electrode::YMinus, Role::Disabled),
    ]
}

/// Sets up the Y measurement from all-disabled: X+ high, X- low, Y+ to the ADC.
pub open spec fn setup_y_axis() -> Seq<PinOp> {
    seq![
        PinOp::Configure(Electrode::XPlus, Role::Output),
        PinOp::Drive(Electrode::XPlus, true),
        PinOp::Configure(Electrode::XMinus, Role::Output),
        PinOp::Drive(Electrode::XMinus, false),
        PinOp::Configure(Electrode::YPlus, Role::Analog),
    ]
}

/// Releases the Y measurement: Y+, X- and X+ float again.
pub open spec fn release_y_axis() -> Seq<PinOp> {
    seq![
        PinOp::Configure(Electrode::YPlus, Role::Disabled),
        PinOp::Configure(Electrode::XMinus, Role::Disabled),
        PinOp::Configure(Electrode::XPlus, Role::Disabled),
    ]
}

/// Sets up the X measurement from all-disabled: Y+ high, Y- low, X+ to the ADC.
pub open spec fn setup_x_axis() -> Seq<PinOp> {
    seq![
        PinOp::Configure(Electrode::YPlus, Role::Output),
        PinOp::Drive(Electrode::YPlus, true),
        PinOp::Configure(Electrode::YMinus, Role::Output),
        PinOp::Drive(Electrode::YMinus, false),
        PinOp::Configure(Electrode::XPlus, Role::Analog),
    ]
}

/// Releases the X measurement: X+, Y+ and Y- float again.
pub open spec fn release_x_axis() -> Seq<PinOp> {
    seq![
        PinOp::Configure(Electrode::XPlus, Role::Disabled),
        PinOp::Configure(Electrode::YPlus, Role::Disabled),
        PinOp::Configure(Electrode::YMinus, Role::Disabled),
    ]
}

/// The pin operations that follow the last of the conversions `c`. Between the two
/// conversions of a reading, and between the readings of one axis, there are none.
pub open spec fn ops_after(c: Seq<u16>, n: nat, threshold: int) -> Seq<PinOp> {
    let k = c.len() as int;
    if k == 2 {
        seq![
            PinOp::Configure(Electrode::XMinus, Role::Disabled),
            PinOp::Configure(Electrode::YPlus, Role::Analog),
        ]
    } else if k == 4 {
        if accepted(pressure(reading(c, 0), reading(c, 1)), threshold) {
            release_pressure() + setup_y_axis()
        } else {
            release_pressure()
        }
    } else if k == 4 + 2 * n {
        release_y_axis() + setup_x_axis()
    } else if k == 4 + 4 * n {
        release_x_axis()
    } else {
        Seq::empty()
    }
}

/// Whether the conversions `c` complete a call: the pressure gate refused it, or both axes
/// have been read.
pub open spec fn call_over(c: Seq<u16>, n: nat, threshold: int) -> bool {
    (c.len() == 4 && !accepted(pressure(reading(c, 0), reading(c, 1)), threshold))
        || c.len() == 4 + 4 * n
}

/// What follows the conversions `c`: the result when they complete the call, else the next
/// conversion.
pub open spec fn request_after(
    c: Seq<u16>,
    n: nat,
    threshold: int,
    calibration: ((u16, u16), (u16, u16)),
    size: (usize, usize),
) -> Request {
    if call_over(c, n, threshold) {
        Request::Done(outcome(c, n, threshold, calibration, size))
    } else {
        Request::Convert(electrode_for(c.len() as int, n as int))
    }
}

/// A resistive touch panel on four electrodes, with its sampling settings and the state of the
/// sampling call in progress, if any.
pub struct ResistiveTouchScreen {
    x_m: TouchIO,
    x_p: TouchIO,
    y_m: TouchIO,
    y_p: TouchIO,
    samples: u8,
    z_threshold: u16,
    calibration: ((u16, u16), (u16, u16)),
    size: (usize, usize),
    stage: Stage,
    /// The discarded conversion of the current reading has been taken.
    settled: bool,
    /// Readings of the current axis taken so far.
    count: u8,
    /// Their sum.
    sum: u32,
    /// The X- reading of the pressure probe.
    z1: u16,
    /// The pressure proxy of the current call.
    z: i32,
    /// The mapped Y coordinate of the current call.
    y: i32,
    /// Every conversion handed in since the call began.
    conversions: Ghost<Seq<u16>>,
}

impl ResistiveTouchScreen {
    /// Readings averaged per axis.
    pub closed spec fn spec_samples(&self) -> nat {
        self.samples as nat
    }

    /// The pressure proxy must exceed this to register a touch.
    pub closed spec fn spec_z_threshold(&self) -> int {
        self.z_threshold as int
    }

    /// The raw range of each axis, `((x_min, x_max), (y_min, y_max))`.
    pub closed spec fn spec_calibration(&self) -> ((u16, u16), (u16, u16)) {
        self.calibration
    }

    /// The output extent of each axis, `(x, y)`.
    pub closed spec fn spec_size(&self) -> (usize, usize) {
        self.size
    }

    pub closed spec fn spec_stage(&self) -> Stage {
        self.stage
    }

    /// The conversions handed in since the current or last call began.
    pub closed spec fn spec_conversions(&self) -> Seq<u16> {
        self.conversions@
    }

    /// The role the electrode is in.
    pub closed spec fn role_of(&self, e: Electrode) -> Role {
        match e {
            Electrode::XMinus => self.x_m.spec_role(),
            Electrode::XPlus => self.x_p.spec_role(),
            Electrode::YMinus => self.y_m.spec_role(),
            Electrode::YPlus => self.y_p.spec_role(),
        }
    }

    /// All four electrodes float.
    pub open spec fn all_disabled(&self) -> bool {
        &&& self.role_of(Electrode::XMinus) == Role::Disabled
        &&& self.role_of(Electrode::XPlus) == Role::Disabled
        &&& self.role_of(Electrode::YMinus) == Role::Disabled
        &&& self.role_of(Electrode::YPlus) == Role::Disabled
    }

    /// The settings of `self` and `other` agree.
    pub open spec fn same_settings(&self, other: &Self) -> bool {
        &&& self.spec_samples() == other.spec_samples()
        &&& self.spec_z_threshold() == other.spec_z_threshold()
        &&& self.spec_calibration() == other.spec_calibration()
        &&& self.spec_size() == other.spec_size()
    }

    /// A panel on its four electrodes, all disabled, with four readings per axis, a pressure
    /// threshold of 10000, the full 16-bit range as calibration of both axes, and the full
    /// 16-bit range as output size.
    pub fn new() -> (r: ResistiveTouchScreen)
        ensures
            r.wf(),
            r.spec_stage() == Stage::Idle,
            r.all_disabled(),
            r.spec_samples() == 4,
            r.spec_z_threshold() == 10000,
            r.spec_calibration() == ((0u16, 65535u16), (0u16, 65535u16)),
            r.spec_size() == (65535usize, 65535usize),
    {
        ResistiveTouchScreen {
            x_m: TouchIO::new(Electrode::XMinus),
            x_p: TouchIO::new(Electrode::XPlus),
            y_m: TouchIO::new(Electrode::YMinus),
            y_p: TouchIO::new(Electrode::YPlus),
            samples: 4,
            z_threshold: 10000,
            calibration: ((u16::MIN, u16::MAX), (u16::MIN, u16::MAX)),
            size: (65535, 65535),
            stage: Stage::Idle,
            settled: false,
            count: 0,
            sum: 0,
            z1: 0,
            z: 0,
            y: 0,
            conversions: Ghost(Seq::empty()),
        }
    }

    /// Sets how many readings are averaged per axis; at least one.
    pub fn samples(self, samples: u8) -> (r: Self)
        requires
            self.wf(),
            self.spec_stage() == Stage::Idle,
            samples >= 1,
        ensures
            r.wf(),
            r.spec_stage() == Stage::Idle,
            r.all_disabled(),
            r.spec_samples() == samples,
            r.spec_z_threshold() == self.spec_z_threshold(),
            r.spec_calibration() == self.spec_calibration(),
            r.spec_size() == self.spec_size(),
    {
        let mut r = self;
        r.samples = samples;
        r.count = 0;
        r
    }

    /// Sets the threshold that the pressure proxy must exceed to register a touch.
    pub fn z_threshold(self, z_threshold: u16) -> (r: Self)
        requires
            self.wf(),
            self.spec_stage() == Stage::Idle,
        ensures
            r.wf(),
            r.spec_stage() == Stage::Idle,
            r.all_disabled(),
            r.spec_samples() == self.spec_samples(),
            r.spec_z_threshold() == z_threshold,
            r.spec_calibration() == self.spec_calibration(),
            r.spec_size() == self.spec_size(),
    {
        let mut r = self;
        r.z_threshold = z_threshold;
        r
    }

    /// Sets the raw readings at the two ends of each axis. Either pair may be descending, but
    /// neither may be a single point.
    pub fn calibration(self, x_min: u16, x_max: u16, y_min: u16, y_max: u16) -> (r: Self)
        requires
            self.wf(),
            self.spec_stage() == Stage::Idle,
            x_min != x_max,
            y_min != y_max,
        ensures
            r.wf(),
            r.spec_stage() == Stage::Idle,
            r.all_disabled(),
            r.spec_samples() == self.spec_samples(),
            r.spec_z_threshold() == self.spec_z_threshold(),
            r.spec_calibration() == ((x_min, x_max), (y_min, y_max)),
            r.spec_size() == self.spec_size(),
    {
        let mut r = self;
        r.calibration = ((x_min, x_max), (y_min, y_max));
        r
    }

    /// Sets the output extent of each axis: coordinates run from 0 to `x` and from 0 to `y`.
    /// Both must be valid coordinates themselves.
    pub fn size(self, x: usize, y: usize) -> (r: Self)
        requires
            self.wf(),
            self.spec_stage() == Stage::Idle,
            x <= i32::MAX,
            y <= i32::MAX,
        ensures
            r.wf(),
            r.spec_stage() == Stage::Idle,
            r.all_disabled(),
            r.spec_samples() == self.spec_samples(),
            r.spec_z_threshold() == self.spec_z_threshold(),
            r.spec_calibration() == self.spec_calibration(),
            r.spec_size() == (x, y),
    {
        let mut r = self;
        r.size = (x, y);
        r
    }

    /// Where the sampling call stands.
    pub fn stage(&self) -> (r: Stage)
        ensures
            r == self.spec_stage(),
    {
        self.stage
    }

    /// The role electrode `e` is in.
    pub fn role(&self, e: Electrode) -> (r: Role)
        ensures
            r == self.role_of(e),
    {
        match e {
            Electrode::XMinus => self.x_m.role(),
            Electrode::XPlus => self.x_p.role(),
            Electrode::YMinus => self.y_m.role(),
            Electrode::YPlus => self.y_p.role(),
        }
    }

    /// Begins a sampling call: X+ is driven low and Y- high, and X- goes to the ADC for the
    /// first pressure reading.
    pub fn touch_point(&mut self) -> (step: Step)
        requires
            old(self).wf(),
            old(self).spec_stage() == Stage::Idle,
        ensures
            final(self).wf(),
            final(self).same_settings(old(self)),
            final(self).spec_stage() == Stage::PressureFirst,
            final(self).spec_conversions() == Seq::<u16>::empty(),
            step.ops@ == setup_pressure(),
            step.next == Request::Convert(Electrode::XMinus),
    {
        let mut ops: Vec<PinOp> = Vec::new();
        self.x_p.set_low(&mut ops);
        self.y_m.set_high(&mut ops);
        self.x_m.make_adc(&mut ops);
        self.stage = Stage::PressureFirst;
        self.settled = false;
        self.count = 0;
        self.sum = 0;
        self.conversions = Ghost(Seq::empty());
        assert(ops@ =~= setup_pressure());
        Step { ops, next: Request::Convert(Electrode::XMinus) }
    }

    /// Abandons the call in progress, if any, after a hardware fault: returns the operations
    /// that let every electrode float again. Electrodes already disabled are left alone.
    pub fn abort(&mut self) -> (ops: Vec<PinOp>)
        requires
            old(self).wf(),
        ensures
            final(self).wf(),
            final(self).same_settings(old(self)),
            final(self).spec_stage() == Stage::Idle,
            final(self).all_disabled(),
            ops@ == role_ops(Electrode::XMinus, old(self).role_of(Electrode::XMinus), Role::Disabled)
                + role_ops(Electrode::XPlus, old(self).role_of(Electrode::XPlus), Role::Disabled)
                + role_ops(Electrode::YMinus, old(self).role_of(Electrode::YMinus), Role::Disabled)
                + role_ops(Electrode::YPlus, old(self).role_of(Electrode::YPlus), Role::Disabled),
    {
        let mut ops: Vec<PinOp> = Vec::new();
        self.x_m.make_disabled(&mut ops);
        self.x_p.make_disabled(&mut ops);
        self.y_m.make_disabled(&mut ops);
        self.y_p.make_disabled(&mut ops);
        self.stage = Stage::Idle;
        self.settled = false;
        self.count = 0;
        ops
    }

    /// Takes the conversion asked for by the last step and says what follows. The first
    /// conversion of each reading only settles the ADC and is discarded; the second is the
    /// reading. The pressure probe reads X- then Y+; when the pressure proxy exceeds the
    /// threshold, Y+ is read `samples` times with X+ high and X- low, then X+ `samples` times
    /// with Y+ high and Y- low. Each axis is averaged and mapped through its calibration pair
    /// onto `0..size`. The call ends with every electrode disabled.
    pub fn on_conversion(&mut self, raw: u16) -> (step: Step)
        requires
            old(self).wf(),
            old(self).spec_stage() != Stage::Idle,
        ensures
            final(self).wf(),
            final(self).same_settings(old(self)),
            final(self).spec_conversions() == old(self).spec_conversions().push(raw),
            step.ops@ == ops_after(
                final(self).spec_conversions(),
                old(self).spec_samples(),
                old(self).spec_z_threshold(),
            ),
            step.next == request_after(
                final(self).spec_conversions(),
                old(self).spec_samples(),
                old(self).spec_z_threshold(),
                old(self).spec_calibration(),
                old(self).spec_size(),
            ),
            (final(self).spec_stage() == Stage::Idle) == (step.next is Done),
            step.next is Done ==> final(self).all_disabled(),
            step.next is Done ==> final(self).spec_conversions().len() == conversions_taken(
                old(self).spec_samples(),
                step.next->Done_0 is Some,
            ),
    {
        let ghost c0 = self.conversions@;
        let ghost n = self.samples as nat;
        let ghost c = c0.push(raw);
        self.conversions = Ghost(c);
        proof {
            if self.stage == Stage::AxisY {
                lemma_reading_sum_push(c0, raw, 2, self.count as nat);
                lemma_reading_sum_bound(c, 2, self.count as nat);
            }
            if self.stage == Stage::AxisX {
                lemma_reading_sum_push(c0, raw, 2, n);
                lemma_reading_sum_push(c0, raw, 2 + n as int, self.count as nat);
                lemma_reading_sum_bound(c, 2 + n as int, self.count as nat);
            }
        }
        let mut ops: Vec<PinOp> = Vec::new();
        if !self.settled {
            self.settled = true;
            let e = if self.stage == Stage::PressureFirst {
                Electrode::XMinus
            } else if self.stage == Stage::AxisX {
                Electrode::XPlus
            } else {
                Electrode::YPlus
            };
            assert(ops@ =~= ops_after(c, n, self.z_threshold as int));
            return Step { ops, next: Request::Convert(e) };
        }
        self.settled = false;
        if self.stage == Stage::PressureFirst {
            self.z1 = self.x_m.read(raw);
            self.x_m.make_disabled(&mut ops);
            self.y_p.make_adc(&mut ops);
            self.stage = Stage::PressureSecond;
            assert(ops@ =~= ops_after(c, n, self.z_threshold as int));
            Step { ops, next: Request::Convert(Electrode::YPlus) }
        } else if self.stage == Stage::PressureSecond {
            let z2 = self.y_p.read(raw);
            self.y_p.make_disabled(&mut ops);
            self.x_p.make_disabled(&mut ops);
            self.y_m.make_disabled(&mut ops);
            let z = pressure_of(self.z1, z2);
            if is_touch(z, self.z_threshold) {
                self.x_p.set_high(&mut ops);
                self.x_m.set_low(&mut ops);
                self.y_p.make_adc(&mut ops);
                self.z = z;
                self.sum = 0;
                self.count = 0;
                self.stage = Stage::AxisY;
                assert(ops@ =~= ops_after(c, n, self.z_threshold as int));
                Step { ops, next: Request::Convert(Electrode::YPlus) }
            } else {
                self.stage = Stage::Idle;
                assert(ops@ =~= ops_after(c, n, self.z_threshold as int));
                Step { ops, next: Request::Done(None) }
            }
        } else if self.stage == Stage::AxisY {
            let v = self.y_p.read(raw);
            self.sum = self.sum + v as u32;
            self.count = self.count + 1;
            if self.count < self.samples {
                self.y_p.make_adc(&mut ops);
                assert(ops@ =~= ops_after(c, n, self.z_threshold as int));
                Step { ops, next: Request::Convert(Electrode::YPlus) }
            } else {
                let avg = self.average();
                self.y = map_range(
                    avg,
                    self.calibration.1.0 as i32,
                    self.calibration.1.1 as i32,
                    0,
                    self.size.1 as i32,
                );
                self.y_p.make_disabled(&mut ops);
                self.x_m.make_disabled(&mut ops);
                self.x_p.make_disabled(&mut ops);
                self.y_p.set_high(&mut ops);
                self.y_m.set_low(&mut ops);
                self.x_p.make_adc(&mut ops);
                self.sum = 0;
                self.count = 0;
                self.stage = Stage::AxisX;
                assert(ops@ =~= ops_after(c, n, self.z_threshold as int));
                Step { ops, next: Request::Convert(Electrode::XPlus) }
            }
        } else {
            let v = self.x_p.read(raw);
            self.sum = self.sum + v as u32;
            self.count = self.count + 1;
            if self.count < self.samples {
                self.x_p.make_adc(&mut ops);
                assert(ops@ =~= ops_after(c, n, self.z_threshold as int));
                Step { ops, next: Request::Convert(Electrode::XPlus) }
            } else {
                let avg = self.average();
                let x = map_range(
                    avg,
                    self.calibration.0.0 as i32,
                    self.calibration.0.1 as i32,
                    0,
                    self.size.0 as i32,
                );
                self.x_p.make_disabled(&mut ops);
                self.y_p.make_disabled(&mut ops);
                self.y_m.make_disabled(&mut ops);
                self.count = 0;
                self.stage = Stage::Idle;
                assert(ops@ =~= ops_after(c, n, self.z_threshold as int));
                Step { ops, next: Request::Done(Some((x, self.y, self.z))) }
            }
        }
    }

    /// The mean of the readings of a completed axis, rounded down.
    fn average(&self) -> (r: i32)
        requires
            self.samples >= 1,
            self.sum <= 65535 * self.samples,
        ensures
            r == self.sum as int / self.samples as int,
    {
        let r = self.sum / self.samples as u32;
        proof {
            lemma_div_is_ordered(self.sum as int, 65535 * self.samples, self.samples as int);
            lemma_div_multiples_vanish(65535, self.samples as int);
        }
        r as i32
    }

    closed spec fn roles_are(&self, xm: Role, xp: Role, ym: Role, yp: Role) -> bool {
        &&& self.x_m.spec_role() == xm
        &&& self.x_p.spec_role() == xp
        &&& self.y_m.spec_role() == ym
        &&& self.y_p.spec_role() == yp
    }

    /// The settings are usable, and the electrodes and the figures gathered so far agree with
    /// the conversions of the call in progress.
    pub closed spec fn wf(&self) -> bool {
        let c = self.conversions@;
        let n = self.samples as nat;
        let settled = if self.settled { 1int } else { 0int };
        &&& self.x_m.spec_electrode() == Electrode::XMinus
        &&& self.x_p.spec_electrode() == Electrode::XPlus
        &&& self.y_m.spec_electrode() == Electrode::YMinus
        &&& self.y_p.spec_electrode() == Electrode::YPlus
        &&& self.samples >= 1
        &&& self.calibration.0.0 != self.calibration.0.1
        &&& self.calibration.1.0 != self.calibration.1.1
        &&& self.size.0 <= i32::MAX
        &&& self.size.1 <= i32::MAX
        &&& self.count < self.samples
        &&& match self.stage {
            Stage::Idle => self.roles_are(Role::Disabled, Role::Disabled, Role::Disabled, Role::Disabled),
            Stage::PressureFirst => {
                &&& self.roles_are(Role::Analog, Role::Output, Role::Output, Role::Disabled)
                &&& c.len() == settled
            },
            Stage::PressureSecond => {
                &&& self.roles_are(Role::Disabled, Role::Output, Role::Output, Role::Analog)
                &&& c.len() == 2 + settled
                &&& self.z1 == reading(c, 0)
            },
            Stage::AxisY => {
                &&& self.roles_are(Role::Output, Role::Output, Role::Disabled, Role::Analog)
                &&& c.len() == 4 + 2 * self.count + settled
                &&& self.z == pressure(reading(c, 0), reading(c, 1))
                &&& accepted(self.z as int, self.z_threshold as int)
                &&& self.sum == reading_sum(c, 2, self.count as nat)
            },
            Stage::AxisX => {
                &&& self.roles_are(Role::Disabled, Role::Analog, Role::Output, Role::Output)
                &&& c.len() == 4 + 2 * n + 2 * self.count + settled
                &&& self.z == pressure(reading(c, 0), reading(c, 1))
                &&& accepted(self.z as int, self.z_threshold as int)
                &&& self.y == mapped(
                    reading_sum(c, 2, n) / n as int,
                    self.calibration.1.0 as int,
                    self.calibration.1.1 as int,
                    0,
                    self.size.1 as int,
                )
                &&& self.sum == reading_sum(c, 2 + n as int, self.count as nat)
            },
        }
    }
}

/// The pressure gate is strict: once the probe's two readings are in, a pressure proxy equal to
/// the threshold ends the call with no touch, while one unit above it goes on to read the axes
/// and ends with a touch.
pub proof fn lemma_pressure_gate(
    c: Seq<u16>,
    n: nat,
    threshold: u16,
    calibration: ((u16, u16), (u16, u16)),
    size: (usize, usize),
)
    requires
        c.len() == 4,
        n >= 1,
    ensures
        pressure(reading(c, 0), reading(c, 1)) == threshold ==> request_after(
            c,
            n,
            threshold as int,
            calibration,
            size,
        ) == Request::Done(None),
        pressure(reading(c, 0), reading(c, 1)) == threshold + 1 ==> {
            &&& request_after(c, n, threshold as int, calibration, size) == Request::Convert(
                Electrode::YPlus,
            )
            &&& outcome(c, n, threshold as int, calibration, size) is Some
        },
{
}

proof fn lemma_reading_sum_push(c: Seq<u16>, v: u16, start: int, k: nat)
    requires
        0 <= start,
        2 * (start + k) <= c.len(),
    ensures
        reading_sum(c.push(v), start, k) == reading_sum(c, start, k),
    decreases k,
{
    if k > 0 {
        lemma_reading_sum_push(c, v, start, (k - 1) as nat);
    }
}

proof fn lemma_reading_sum_bound(c: Seq<u16>, start: int, k: nat)
    ensures
        0 <= reading_sum(c, start, k) <= 65535 * k,
    decreases k,
{
    if k > 0 {
        lemma_reading_sum_bound(c, start, (k - 1) as nat);
    }
}

} // verus!
