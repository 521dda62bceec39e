use std::collections::VecDeque;

use resistive_touch::{
    is_touch, map_range, pressure_of, widen, Electrode, PinOp, Request, ResistiveTouchScreen, Role,
    Stage, TouchIO,
};

fn index(e: Electrode) -> usize {
    match e {
        Electrode::XMinus => 0,
        Electrode::XPlus => 1,
        Electrode::YMinus => 2,
        Electrode::YPlus => 3,
    }
}

/// A stand-in for the pins and the ADC: it applies the pin operations, counts the
/// reconfigurations, and answers conversions from a queue.
struct Bench {
    roles: [Role; 4],
    levels: [Option<bool>; 4],
    configures: usize,
    queue: VecDeque<u16>,
    converted: Vec<Electrode>,
    ops: Vec<PinOp>,
}

impl Bench {
    fn new(conversions: &[u16]) -> Bench {
        Bench {
            roles: [Role::Disabled; 4],
            levels: [None; 4],
            configures: 0,
            queue: conversions.iter().copied().collect(),
            converted: Vec::new(),
            ops: Vec::new(),
        }
    }

    fn apply(&mut self, ops: &[PinOp]) {
        for op in ops {
            match *op {
                PinOp::Configure(e, role) => {
                    self.roles[index(e)] = role;
                    self.levels[index(e)] = None;
                    self.configures += 1;
                }
                PinOp::Drive(e, high) => {
                    assert_eq!(self.roles[index(e)], Role::Output);
                    self.levels[index(e)] = Some(high);
                }
            }
            self.ops.push(*op);
        }
    }

    fn convert(&mut self, e: Electrode) -> u16 {
        assert_eq!(self.roles[index(e)], Role::Analog);
        self.converted.push(e);
        self.queue.pop_front().expect("no conversion left")
    }

    /// Runs one sampling call to its end.
    fn run(&mut self, screen: &mut ResistiveTouchScreen) -> Option<(i32, i32, i32)> {
        let mut step = screen.touch_point();
        loop {
            self.apply(&step.ops);
            match step.next {
                Request::Convert(e) => {
                    let raw = self.convert(e);
                    step = screen.on_conversion(raw);
                }
                Request::Done(result) => return result,
            }
        }
    }
}

/// A 320 by 240 panel with its calibration.
fn calibrated() -> ResistiveTouchScreen {
    ResistiveTouchScreen::new()
        .calibration(13800, 52000, 16000, 44000)
        .size(320, 240)
        .samples(4)
        .z_threshold(10000)
}

/// Each reading is a discarded conversion followed by the kept one.
fn pairs(kept: &[u16]) -> Vec<u16> {
    kept.iter().flat_map(|&k| [0x0abc, k]).collect()
}

fn all_disabled(screen: &ResistiveTouchScreen) -> bool {
    [Electrode::XMinus, Electrode::XPlus, Electrode::YMinus, Electrode::YPlus]
        .iter()
        .all(|&e| screen.role(e) == Role::Disabled)
}

#[test]
fn map_range_worked_example() {
    assert_eq!(map_range(30000, 16000, 44000, 0, 240), 120);
    assert_eq!(map_range(32900, 13800, 52000, 0, 320), 160);
}

#[test]
fn map_range_endpoints() {
    assert_eq!(map_range(13800, 13800, 52000, 0, 320), 0);
    assert_eq!(map_range(52000, 13800, 52000, 0, 320), 320);
    assert_eq!(map_range(100, 100, 900, 50, -50), 50);
    assert_eq!(map_range(900, 100, 900, 50, -50), -50);
    assert_eq!(map_range(i32::MIN, i32::MIN, i32::MAX, i32::MAX, i32::MIN), i32::MAX);
    assert_eq!(map_range(i32::MAX, i32::MIN, i32::MAX, i32::MAX, i32::MIN), i32::MIN);
}

#[test]
fn map_range_clamps() {
    assert_eq!(map_range(0, 13800, 52000, 0, 320), 0);
    assert_eq!(map_range(65535, 13800, 52000, 0, 320), 320);
    assert_eq!(map_range(0, 100, 200, 240, 0), 240);
    assert_eq!(map_range(1000, 100, 200, 240, 0), 0);
    for v in [-70000, -1, 0, 1, 150, 199, 5000, 70000] {
        let r = map_range(v, 200, 100, -7, 13);
        assert!((-7..=13).contains(&r));
    }
}

#[test]
fn map_range_descending_ranges() {
    // 150 is a quarter of the way from 200 down to 0
    assert_eq!(map_range(150, 200, 0, 0, 100), 25);
    assert_eq!(map_range(25, 0, 100, 100, 0), 75);
    // the quotient is rounded toward zero: -2.5 becomes -2
    assert_eq!(map_range(1, 0, 2, 10, 5), 8);
}

#[test]
fn map_range_is_monotonic() {
    let mut last = i32::MIN;
    for v in (10000..56000).step_by(37) {
        let r = map_range(v, 13800, 52000, 0, 320);
        assert!(r >= last);
        last = r;
    }
}

#[test]
fn widen_spreads_twelve_bits() {
    assert_eq!(widen(0), 0);
    assert_eq!(widen(0x0fff), 0xffff);
    assert_eq!(widen(0x0800), 0x8008);
    assert_eq!(widen(125), 2000);
    assert_eq!(widen(1875), 30007);
}

#[test]
fn pressure_and_gate() {
    assert_eq!(pressure_of(1000, 2000), 64535);
    assert_eq!(pressure_of(0, 60000), 5535);
    assert_eq!(pressure_of(2000, 1000), 66535);
    assert!(!is_touch(10000, 10000));
    assert!(is_touch(10001, 10000));
    assert!(!is_touch(5535, 10000));
}

#[test]
fn role_change_is_done_once() {
    let mut io = TouchIO::new(Electrode::YPlus);
    let mut ops = Vec::new();
    io.make_adc(&mut ops);
    io.make_adc(&mut ops);
    assert_eq!(ops, vec![PinOp::Configure(Electrode::YPlus, Role::Analog)]);
    assert_eq!(io.role(), Role::Analog);
    io.set_low(&mut ops);
    io.set_high(&mut ops);
    io.make_disabled(&mut ops);
    io.make_disabled(&mut ops);
    assert_eq!(
        ops,
        vec![
            PinOp::Configure(Electrode::YPlus, Role::Analog),
            PinOp::Configure(Electrode::YPlus, Role::Output),
            PinOp::Drive(Electrode::YPlus, false),
            PinOp::Drive(Electrode::YPlus, true),
            PinOp::Configure(Electrode::YPlus, Role::Disabled),
        ]
    );
    assert_eq!(io.electrode(), Electrode::YPlus);
}

#[test]
fn read_widens_the_conversion() {
    let mut io = TouchIO::new(Electrode::XMinus);
    let mut ops = Vec::new();
    io.make_adc(&mut ops);
    assert_eq!(io.read(0x0fff), 0xffff);
    assert_eq!(io.read(62), 992);
}

#[test]
fn full_touch_call() {
    let mut screen = calibrated();
    let mut kept = vec![62, 125];
    kept.extend([1875; 4]);
    kept.extend([2056; 4]);
    let mut bench = Bench::new(&pairs(&kept));
    // z = 65535 - (2000 - 992); y from 30007, x from 32904
    assert_eq!(bench.run(&mut screen), Some((160, 120, 64527)));
    assert!(bench.queue.is_empty());
    assert_eq!(bench.converted.len(), 4 + 2 * 4 + 2 * 4);
    assert_eq!(screen.stage(), Stage::Idle);
    assert!(all_disabled(&screen));
    assert_eq!(bench.roles, [Role::Disabled; 4]);
}

#[test]
fn averaging_rounds_down() {
    let mut screen = calibrated();
    let mut kept = vec![62, 125];
    kept.extend([1870, 1875, 1880, 1876]);
    kept.extend([2050, 2056, 2060, 2057]);
    let mut bench = Bench::new(&pairs(&kept));
    // the averages are 30011 and 32900
    assert_eq!(
        bench.run(&mut screen),
        Some((map_range(32900, 13800, 52000, 0, 320), map_range(30011, 16000, 44000, 0, 240), 64527))
    );
}

#[test]
fn full_touch_call_operations() {
    let mut screen = calibrated().samples(2);
    let mut kept = vec![62, 125];
    kept.extend([1875; 2]);
    kept.extend([2056; 2]);
    let mut bench = Bench::new(&pairs(&kept));
    assert!(bench.run(&mut screen).is_some());
    assert_eq!(
        bench.ops,
        vec![
            PinOp::Configure(Electrode::XPlus, Role::Output),
            PinOp::Drive(Electrode::XPlus, false),
            PinOp::Configure(Electrode::YMinus, Role::Output),
            PinOp::Drive(Electrode::YMinus, true),
            PinOp::Configure(Electrode::XMinus, Role::Analog),
            PinOp::Configure(Electrode::XMinus, Role::Disabled),
            PinOp::Configure(Electrode::YPlus, Role::Analog),
            PinOp::Configure(Electrode::YPlus, Role::Disabled),
            PinOp::Configure(Electrode::XPlus, Role::Disabled),
            PinOp::Configure(Electrode::YMinus, Role::Disabled),
            PinOp::Configure(Electrode::XPlus, Role::Output),
            PinOp::Drive(Electrode::XPlus, true),
            PinOp::Configure(Electrode::XMinus, Role::Output),
            PinOp::Drive(Electrode::XMinus, false),
            PinOp::Configure(Electrode::YPlus, Role::Analog),
            PinOp::Configure(Electrode::YPlus, Role::Disabled),
            PinOp::Configure(Electrode::XMinus, Role::Disabled),
            PinOp::Configure(Electrode::XPlus, Role::Disabled),
            PinOp::Configure(Electrode::YPlus, Role::Output),
            PinOp::Drive(Electrode::YPlus, true),
            PinOp::Configure(Electrode::YMinus, Role::Output),
            PinOp::Drive(Electrode::YMinus, false),
            PinOp::Configure(Electrode::XPlus, Role::Analog),
            PinOp::Configure(Electrode::XPlus, Role::Disabled),
            PinOp::Configure(Electrode::YPlus, Role::Disabled),
            PinOp::Configure(Electrode::YMinus, Role::Disabled),
        ]
    );
    assert_eq!(
        bench.converted,
        vec![Electrode::XMinus, Electrode::XMinus, Electrode::YPlus, Electrode::YPlus, Electrode::YPlus, Electrode::YPlus, Electrode::YPlus, Electrode::YPlus, Electrode::XPlus, Electrode::XPlus, Electrode::XPlus, Electrode::XPlus]
    );
}

#[test]
fn repeated_reads_reconfigure_once() {
    let mut screen = calibrated().samples(8);
    let mut kept = vec![62, 125];
    kept.extend([1875; 8]);
    kept.extend([2056; 8]);
    let mut bench = Bench::new(&pairs(&kept));
    assert!(bench.run(&mut screen).is_some());
    let y_to_adc = bench
        .ops
        .iter()
        .filter(|op| **op == PinOp::Configure(Electrode::YPlus, Role::Analog))
        .count();
    // once for the pressure probe, once for the Y axis, however many readings
    assert_eq!(y_to_adc, 2);
    assert_eq!(bench.configures, 20);
}

#[test]
fn light_press_is_no_touch() {
    let mut screen = calibrated();
    // z = 65535 - (60014 - 0) = 5521
    let mut bench = Bench::new(&pairs(&[0, 3750]));
    assert_eq!(bench.run(&mut screen), None);
    assert_eq!(bench.converted, vec![Electrode::XMinus, Electrode::XMinus, Electrode::YPlus, Electrode::YPlus]);
    assert!(!bench.converted.contains(&Electrode::XPlus));
    assert!(all_disabled(&screen));
    assert_eq!(bench.roles, [Role::Disabled; 4]);
    assert_eq!(screen.stage(), Stage::Idle);
}

#[test]
fn firm_press_from_example_is_accepted() {
    // z2 just 496 above z1 (30007 and 30503) leaves z far above the threshold
    let mut screen = calibrated();
    let mut kept = vec![1875, 1906];
    kept.extend([1875; 4]);
    kept.extend([2056; 4]);
    let mut bench = Bench::new(&pairs(&kept));
    let z = 65535 - (widen(1906) as i32 - widen(1875) as i32);
    assert_eq!(z, 65039);
    assert_eq!(bench.run(&mut screen), Some((160, 120, z)));
}

#[test]
fn pressure_gate_is_strict() {
    // z = 65535 - 60014 = 5521
    let mut at = calibrated().z_threshold(5521);
    let mut bench = Bench::new(&pairs(&[0, 3750]));
    assert_eq!(bench.run(&mut at), None);

    let mut below = calibrated().z_threshold(5520);
    let mut kept = vec![0, 3750];
    kept.extend([1875; 4]);
    kept.extend([2056; 4]);
    let mut bench = Bench::new(&pairs(&kept));
    assert_eq!(bench.run(&mut below), Some((160, 120, 5521)));
}

#[test]
fn defaults_map_onto_full_scale() {
    let mut screen = ResistiveTouchScreen::new();
    assert_eq!(screen.stage(), Stage::Idle);
    assert!(all_disabled(&screen));
    let mut kept = vec![0, 0];
    kept.extend([0x0800; 4]);
    kept.extend([0x0fff; 4]);
    let mut bench = Bench::new(&pairs(&kept));
    assert_eq!(bench.run(&mut screen), Some((65535, 0x8008, 65535)));
}

#[test]
fn abort_releases_every_electrode() {
    let mut screen = calibrated();
    let step = screen.touch_point();
    assert_eq!(step.next, Request::Convert(Electrode::XMinus));
    let step = screen.on_conversion(0);
    assert!(step.ops.is_empty());
    assert_eq!(screen.stage(), Stage::PressureFirst);
    let ops = screen.abort();
    assert_eq!(
        ops,
        vec![
            PinOp::Configure(Electrode::XMinus, Role::Disabled),
            PinOp::Configure(Electrode::XPlus, Role::Disabled),
            PinOp::Configure(Electrode::YMinus, Role::Disabled),
        ]
    );
    assert_eq!(screen.stage(), Stage::Idle);
    assert!(all_disabled(&screen));
    assert!(screen.abort().is_empty());
}

#[test]
fn every_call_ends_disabled() {
    let mut screen = calibrated();
    for kept in [vec![0u16, 3750], vec![62, 125, 1, 2, 3, 4, 5, 6, 7, 8]] {
        let mut bench = Bench::new(&pairs(&kept));
        bench.run(&mut screen);
        assert!(all_disabled(&screen));
        assert_eq!(bench.roles, [Role::Disabled; 4]);
    }
}
