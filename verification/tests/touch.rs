use vita_input::ratio::{clamp01, clamped_quotient};
use vita_input::touch::{
    RawPanelInfo, RawTouchData, RawTouchReport, TouchInput, TouchPanelInfo, TouchPoint, TouchPort,
};
use vita_input::Ratio;

fn to_f32(r: Ratio) -> f32 {
    r.num as f32 / r.den as f32
}

fn empty_raw() -> RawTouchData {
    RawTouchData {
        timestamp: 0,
        report_num: 0,
        report: [RawTouchReport { id: 0, force: 0, x: 0, y: 0 }; 8],
    }
}

fn vita_info() -> TouchPanelInfo {
    TouchPanelInfo {
        min_aa_x: 0,
        min_aa_y: 0,
        max_aa_x: 1920,
        max_aa_y: 1088,
        min_disp_x: 0,
        min_disp_y: 0,
        max_disp_x: 960,
        max_disp_y: 544,
        min_force: 0,
        max_force: 255,
    }
}

// Verify that TouchInput is reasonably sized for stack copies.
#[test]
fn touch_input_size_is_reasonable() {
    // 8 touch points × ~8 bytes each + timestamp + count = ~80 bytes
    assert!(core::mem::size_of::<TouchInput>() <= 128);
}

#[test]
fn empty_touch_is_not_touching() {
    let raw = empty_raw();
    let touch = TouchInput::from_raw(&raw);
    assert!(!touch.is_touching());
    assert_eq!(touch.point_count, 0);
    assert!(touch.first().is_none());
    assert_eq!(touch.iter().count(), 0);
}

#[test]
fn clamp_values() {
    assert!((to_f32(clamp01(Ratio { num: -1, den: 2 })) - 0.0).abs() < f32::EPSILON);
    assert!((to_f32(clamp01(Ratio { num: 1, den: 2 })) - 0.5).abs() < f32::EPSILON);
    assert!((to_f32(clamp01(Ratio { num: 3, den: 2 })) - 1.0).abs() < f32::EPSILON);
}

#[test]
fn panel_info_dimensions() {
    let info = TouchPanelInfo {
        min_aa_x: 0,
        min_aa_y: 0,
        max_aa_x: 1920,
        max_aa_y: 1088,
        min_disp_x: 0,
        min_disp_y: 0,
        max_disp_x: 960,
        max_disp_y: 544,
        min_force: 0,
        max_force: 255,
    };
    assert_eq!(info.aa_width(), 1920);
    assert_eq!(info.aa_height(), 1088);
    assert_eq!(info.disp_width(), 960);
    assert_eq!(info.disp_height(), 544);
}

#[test]
fn touch_point_normalization() {
    let info = TouchPanelInfo {
        min_aa_x: 0,
        min_aa_y: 0,
        max_aa_x: 1920,
        max_aa_y: 1088,
        min_disp_x: 0,
        min_disp_y: 0,
        max_disp_x: 960,
        max_disp_y: 544,
        min_force: 0,
        max_force: 255,
    };
    let point = TouchPoint { id: 0, x: 480, y: 272, force: 128 };

    let (nx, ny) = point.normalized_display(&info);
    let (nx, ny) = (to_f32(nx), to_f32(ny));
    assert!((nx - 0.5).abs() < 0.01);
    assert!((ny - 0.5).abs() < 0.01);

    let nf = to_f32(point.normalized_force(&info));
    assert!((nf - 0.5).abs() < 0.02);
}

#[test]
fn touch_iter() {
    let mut raw = empty_raw();
    raw.report_num = 3;
    raw.report[0].id = 1;
    raw.report[0].x = 100;
    raw.report[1].id = 2;
    raw.report[1].x = 200;
    raw.report[2].id = 3;
    raw.report[2].x = 300;

    let touch = TouchInput::from_raw(&raw);
    assert_eq!(touch.point_count, 3);

    let mut points = Vec::new();
    let mut it = touch.iter();
    while let Some(p) = it.next() {
        points.push(p);
    }
    assert_eq!(points.len(), 3);
    assert_eq!(points[0].id, 1);

    // Double-ended
    let last = touch.iter().next_back().unwrap();
    assert_eq!(last.id, 3);

    let count = touch.iter().count();
    assert_eq!(count, 3);
}

#[test]
fn from_raw_caps_at_eight_points() {
    let mut raw = empty_raw();
    raw.timestamp = 77;
    raw.report_num = 12;
    for i in 0..8 {
        raw.report[i] = RawTouchReport { id: i as u8, force: 9, x: i as i16 * 10, y: -(i as i16) };
    }
    let touch = TouchInput::from_raw(&raw);
    assert_eq!(touch.point_count, 8);
    assert_eq!(touch.timestamp, 77);
    assert_eq!(touch.as_slice().len(), 8);
    for i in 0..8 {
        assert_eq!(
            touch.get(i),
            Some(TouchPoint { id: i as u8, x: i as i16 * 10, y: -(i as i16), force: 9 })
        );
    }
    assert_eq!(touch.get(8), None);
}

#[test]
fn from_raw_leaves_unused_slots_empty() {
    let mut raw = empty_raw();
    raw.report_num = 2;
    for i in 0..8 {
        raw.report[i] = RawTouchReport { id: 5, force: 5, x: 5, y: 5 };
    }
    let touch = TouchInput::from_raw(&raw);
    assert_eq!(touch.as_slice(), &[TouchPoint { id: 5, x: 5, y: 5, force: 5 }; 2][..]);
    for i in 2..8 {
        assert_eq!(touch.points[i], TouchPoint { id: 0, x: 0, y: 0, force: 0 });
    }
}

#[test]
fn queries_agree() {
    let mut raw = empty_raw();
    raw.report_num = 2;
    raw.report[0] = RawTouchReport { id: 4, force: 1, x: 10, y: 20 };
    raw.report[1] = RawTouchReport { id: 6, force: 2, x: 30, y: 40 };
    let touch = TouchInput::from_raw(&raw);
    assert!(touch.is_touching());
    assert_eq!(touch.first(), touch.get(0));
    assert_eq!(touch.first(), Some(TouchPoint { id: 4, x: 10, y: 20, force: 1 }));
    assert_eq!(touch.get(1), Some(TouchPoint { id: 6, x: 30, y: 40, force: 2 }));
    assert_eq!(touch.get(2), None);
    assert_eq!(touch.as_slice().len(), touch.point_count as usize);
}

#[test]
fn iterator_from_both_ends() {
    let mut raw = empty_raw();
    raw.report_num = 3;
    for i in 0..3 {
        raw.report[i].id = i as u8 + 1;
    }
    let touch = TouchInput::from_raw(&raw);
    let mut it = touch.iter();
    assert_eq!(it.size_hint(), (3, Some(3)));
    assert_eq!(it.next().unwrap().id, 1);
    assert_eq!(it.next_back().unwrap().id, 3);
    assert_eq!(it.size_hint(), (1, Some(1)));
    assert_eq!(it.clone().last().unwrap().id, 2);
    assert_eq!(it.next().unwrap().id, 2);
    assert!(it.next().is_none());
    assert!(it.next_back().is_none());
    assert_eq!(it.count(), 0);
    assert_eq!(touch.iter().last().unwrap().id, 3);
}

#[test]
fn port_round_trip() {
    for p in [TouchPort::Front, TouchPort::Back] {
        assert_eq!(TouchPort::try_from(p.to_raw()), Ok(p));
        assert!(p.to_raw() < TouchPort::MAX);
    }
    assert_eq!(TouchPort::try_from(0u32), Ok(TouchPort::Front));
    assert_eq!(TouchPort::try_from(1u32), Ok(TouchPort::Back));
    assert_eq!(TouchPort::try_from(2u32), Err(()));
    assert_eq!(TouchPort::try_from(u32::MAX), Err(()));
    assert_eq!(TouchPort::Front.to_string(), "Front");
    assert_eq!(TouchPort::Back.to_string(), "Back");
}

#[test]
fn normalization_exact_values() {
    let info = vita_info();
    let corner = TouchPoint { id: 0, x: 0, y: 0, force: 0 };
    assert_eq!(
        corner.normalized_display(&info),
        (Ratio { num: 0, den: 960 }, Ratio { num: 0, den: 544 })
    );
    let far = TouchPoint { id: 0, x: 960, y: 544, force: 255 };
    assert_eq!(
        far.normalized_display(&info),
        (Ratio { num: 960, den: 960 }, Ratio { num: 544, den: 544 })
    );
    assert_eq!(far.normalized_force(&info), Ratio { num: 255, den: 255 });
    // outside the display range: clamped
    let outside = TouchPoint { id: 0, x: 1500, y: -5, force: 0 };
    assert_eq!(
        outside.normalized_display(&info),
        (Ratio { num: 1, den: 1 }, Ratio { num: 0, den: 1 })
    );
    // the anti-aliased range is wider
    assert_eq!(
        outside.normalized_aa(&info),
        (Ratio { num: 1500, den: 1920 }, Ratio { num: 0, den: 1 })
    );
}

#[test]
fn normalization_matches_float_computation() {
    let info = vita_info();
    for (x, y) in [(0i16, 0i16), (1, 1), (479, 271), (959, 543), (1000, 600), (-3, 20)] {
        let p = TouchPoint { id: 0, x, y, force: 0 };
        let (nx, ny) = p.normalized_display(&info);
        let fx = ((x - info.min_disp_x) as f32 / (info.max_disp_x - info.min_disp_x) as f32)
            .clamp(0.0, 1.0);
        let fy = ((y - info.min_disp_y) as f32 / (info.max_disp_y - info.min_disp_y) as f32)
            .clamp(0.0, 1.0);
        assert_eq!(to_f32(nx), fx);
        assert_eq!(to_f32(ny), fy);
    }
}

#[test]
fn degenerate_ranges() {
    let mut info = vita_info();
    info.min_disp_x = 100;
    info.max_disp_x = 100;
    info.min_force = 7;
    info.max_force = 7;
    let on = TouchPoint { id: 0, x: 100, y: 0, force: 0 };
    let right = TouchPoint { id: 0, x: 101, y: 0, force: 0 };
    let left = TouchPoint { id: 0, x: 99, y: 0, force: 0 };
    // a point on a zero-width range is at its start
    assert_eq!(on.normalized_display(&info).0, Ratio { num: 0, den: 1 });
    assert_eq!(right.normalized_display(&info).0, Ratio { num: 1, den: 1 });
    assert_eq!(left.normalized_display(&info).0, Ratio { num: 0, den: 1 });
    let (x, _) = on.normalized_aa(&TouchPanelInfo { min_aa_x: 100, max_aa_x: 100, ..info });
    assert!((0.0..=1.0).contains(&to_f32(x)));
    // an empty force range gives zero, even for a force below it
    assert_eq!(on.normalized_force(&info), Ratio { num: 0, den: 1 });
    // a reversed range flips the sign into the numerator
    let mut rev = vita_info();
    rev.min_disp_x = 960;
    rev.max_disp_x = 0;
    let p = TouchPoint { id: 0, x: 720, y: 0, force: 0 };
    assert_eq!(p.normalized_display(&rev).0, Ratio { num: 240, den: 960 });
}

#[test]
fn clamped_quotient_cases() {
    assert_eq!(clamped_quotient(1, 4), Ratio { num: 1, den: 4 });
    assert_eq!(clamped_quotient(-1, -4), Ratio { num: 1, den: 4 });
    assert_eq!(clamped_quotient(5, 4), Ratio { num: 1, den: 1 });
    assert_eq!(clamped_quotient(-5, 4), Ratio { num: 0, den: 1 });
    assert_eq!(clamped_quotient(3, 0), Ratio { num: 1, den: 1 });
    assert_eq!(clamped_quotient(-3, 0), Ratio { num: 0, den: 1 });
    assert_eq!(clamped_quotient(0, 0), Ratio { num: 0, den: 1 });
}

#[test]
fn force_normalization() {
    let mut info = vita_info();
    info.min_force = 10;
    info.max_force = 110;
    let p = TouchPoint { id: 0, x: 0, y: 0, force: 60 };
    assert_eq!(p.normalized_force(&info), Ratio { num: 50, den: 100 });
    let strong = TouchPoint { id: 0, x: 0, y: 0, force: 200 };
    assert_eq!(strong.normalized_force(&info), Ratio { num: 1, den: 1 });
    let weakest = TouchPoint { id: 0, x: 0, y: 0, force: 10 };
    assert_eq!(weakest.normalized_force(&info), Ratio { num: 0, den: 100 });
}

#[test]
fn touch_point_text() {
    let p = TouchPoint { id: 3, x: -120, y: 1087, force: 255 };
    assert_eq!(p.to_string(), "Touch #3: (-120, 1087), f=255");
    assert_eq!(
        p.to_string(),
        format!("Touch #{}: ({}, {}), f={}", p.id, p.x, p.y, p.force)
    );
    let q = TouchPoint { id: 0, x: i16::MIN, y: 0, force: 0 };
    assert_eq!(q.to_string(), format!("Touch #0: ({}, 0), f=0", i16::MIN));
}

#[test]
fn panel_info_from_raw_copies() {
    let raw = RawPanelInfo {
        min_aa_x: 1,
        min_aa_y: 2,
        max_aa_x: 3,
        max_aa_y: 4,
        min_disp_x: 5,
        min_disp_y: 6,
        max_disp_x: 7,
        max_disp_y: 8,
        min_force: 9,
        max_force: 10,
    };
    let info = TouchPanelInfo::from_raw(&raw);
    assert_eq!(
        info,
        TouchPanelInfo {
            min_aa_x: 1,
            min_aa_y: 2,
            max_aa_x: 3,
            max_aa_y: 4,
            min_disp_x: 5,
            min_disp_y: 6,
            max_disp_x: 7,
            max_disp_y: 8,
            min_force: 9,
            max_force: 10,
        }
    );
    assert_eq!(info.aa_width(), 2);
    assert_eq!(info.disp_height(), 2);
}

#[test]
fn touch_point_from_raw() {
    let r = RawTouchReport { id: 9, force: 8, x: -7, y: 6 };
    assert_eq!(TouchPoint::from_raw(&r), TouchPoint { id: 9, x: -7, y: 6, force: 8 });
}

fn three_points() -> TouchInput {
    let mut raw = empty_raw();
    raw.timestamp = 5;
    raw.report_num = 3;
    raw.report[0] = RawTouchReport { id: 1, force: 0, x: 100, y: -2 };
    raw.report[1] = RawTouchReport { id: 2, force: 7, x: 200, y: 0 };
    raw.report[2] = RawTouchReport { id: 3, force: 255, x: 300, y: 1087 };
    TouchInput::from_raw(&raw)
}

#[test]
fn interleaved_iteration_takes_each_point_once() {
    let touch = three_points();
    for ops in [[false, false, false, false], [true, true, true, true], [false, true, false, true], [true, false, true, false]] {
        let mut it = touch.iter();
        let mut front = Vec::new();
        let mut back = Vec::new();
        let mut taken = 0;
        for from_back in ops {
            let p = if from_back { it.next_back() } else { it.next() };
            if let Some(p) = p {
                taken += 1;
                if from_back { back.push(p) } else { front.push(p) }
            }
            assert_eq!(it.size_hint(), (3 - taken, Some(3 - taken)));
        }
        assert_eq!(taken, 3);
        back.reverse();
        front.extend(back);
        assert_eq!(front.as_slice(), touch.as_slice());
    }
}

#[test]
fn iterator_over_more_than_eight_reads_only_when_asked() {
    let mut touch = three_points();
    touch.point_count = 9;
    let mut it = touch.iter();
    assert_eq!(it.size_hint(), (9, Some(9)));
    assert_eq!(it.clone().count(), 9);
    assert_eq!(it.next().unwrap().id, 1);
}

#[test]
fn debug_text_of_points() {
    let touch = three_points();
    let expected = format!(
        "TouchInput {{ timestamp: {}, point_count: {}, points: {:?} }}",
        5,
        3,
        touch.as_slice()
    );
    assert_eq!(touch.to_debug_string(), expected);
    assert_eq!(
        touch.to_debug_string(),
        "TouchInput { timestamp: 5, point_count: 3, points: [TouchPoint { id: 1, x: 100, y: -2, force: 0 }, TouchPoint { id: 2, x: 200, y: 0, force: 7 }, TouchPoint { id: 3, x: 300, y: 1087, force: 255 }] }"
    );
    let mut it = touch.iter();
    it.next();
    assert_eq!(it.to_debug_string(), format!("{:?}", &touch.as_slice()[1..]));
    let empty = TouchInput::from_raw(&empty_raw());
    assert_eq!(empty.to_debug_string(), "TouchInput { timestamp: 0, point_count: 0, points: [] }");
    let mut single = String::new();
    touch.as_slice()[0].append_debug(&mut single);
    assert_eq!(single, format!("{:?}", touch.as_slice()[0]));
}

#[test]
fn ratio_value_equality() {
    let half = Ratio { num: 1, den: 2 };
    let two_quarters = Ratio { num: 2, den: 4 };
    assert_ne!(half, two_quarters);
    assert!(half.same_value_as(two_quarters));
    assert!(!half.same_value_as(Ratio { num: 1, den: 3 }));
    let info = vita_info();
    let p = TouchPoint { id: 0, x: 480, y: 272, force: 0 };
    let (x, y) = p.normalized_display(&info);
    assert!(x.same_value_as(half) && y.same_value_as(half));
    assert!(Ratio { num: i32::MAX, den: i32::MAX }.same_value_as(Ratio { num: 1, den: 1 }));
}
