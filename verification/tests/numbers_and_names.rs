//! Numbers by their patterns, identities, words, colours and sets of handles.
use incline_ui::fields::{CountField, CountRange, RealField, RealRange};
use incline_ui::fingerprint::key_of_set;
use incline_ui::handle_set::HandleSet;
use incline_ui::ids::{BlastShapeRef, DelayProductId, DrillHoleId, DrillHoleRef, LayerId, ObjectId, SceneEntityId, SolidId, TieInRef};
use incline_ui::lists::{copied, push_if};
use incline_ui::model::BenchInterval;
use incline_ui::number::{Pair64, Real32, Real64};
use incline_ui::ordering::{Ranked, sort_falling};
use incline_ui::palette::{DelayProduct, PackedColor, StoredColor, StoredDelayProduct, builtin_delay_products, delay_products_from_stored};
use incline_ui::words::{chars_of, is_unsigned_decimal, normalise_line_ends, queue_paste, stem_of_label, trim};

fn d(value: f64) -> Real64 {
    Real64 { bits: value.to_bits() }
}

fn f(value: f32) -> Real32 {
    Real32 { bits: value.to_bits() }
}

fn pair(x: f64, y: f64) -> Pair64 {
    Pair64 { x: d(x), y: d(y) }
}

const SAMPLES: [f64; 14] = [
    0.0,
    -0.0,
    1.0,
    -1.0,
    0.1,
    -0.1,
    f64::MIN_POSITIVE,
    5e-324,
    -5e-324,
    f64::MAX,
    f64::MIN,
    f64::INFINITY,
    f64::NEG_INFINITY,
    f64::NAN,
];

#[test]
fn doubles_compare_as_std_compares_them() {
    for a in SAMPLES {
        assert_eq!(d(a).is_finite(), a.is_finite());
        assert_eq!(d(a).is_nan(), a.is_nan());
        assert_eq!(d(a).abs(), d(a.abs()));
        for b in SAMPLES {
            assert_eq!(d(a).less(d(b)), a < b);
            assert_eq!(d(a).at_most(d(b)), a <= b);
            assert_eq!(d(a).equals(d(b)), a == b);
            assert_eq!(d(a).is_before(d(b)), a.total_cmp(&b).is_lt());
        }
    }
}

const SINGLES: [f32; 12] = [
    0.0,
    -0.0,
    1.0,
    -1.0,
    0.1,
    f32::MIN_POSITIVE,
    1e-45,
    f32::MAX,
    f32::MIN,
    f32::INFINITY,
    f32::NEG_INFINITY,
    f32::NAN,
];

#[test]
fn singles_compare_as_std_compares_them() {
    for a in SINGLES {
        assert_eq!(f(a).is_nan(), a.is_nan());
        for b in SINGLES {
            assert_eq!(f(a).less(f(b)), a < b);
            assert_eq!(f(a).at_most(f(b)), a <= b);
            assert_eq!(f(a).equals(f(b)), a == b);
            assert_eq!(f(a).is_before(f(b)), a.total_cmp(&b).is_lt());
        }
    }
}

#[test]
fn clamping_holds_a_number_as_std_does() {
    for a in SAMPLES {
        assert_eq!(d(a).clamp_to(d(-0.5), d(2.0)), d(a.clamp(-0.5, 2.0)));
    }
}

#[test]
fn connector_reads_the_same_from_either_end() {
    let forward = TieInRef::new(DrillHoleId(3), 2, 9);
    let back = TieInRef::new(DrillHoleId(3), 9, 2);
    assert_eq!(forward, back);
    assert_eq!((forward.a, forward.b), (2, 9));
    assert_ne!(forward, TieInRef::new(DrillHoleId(4), 2, 9));
}

#[test]
fn blast_reference_gives_its_numbers_back() {
    let r = BlastShapeRef::new(SolidId(5), d(-0.0), pair(1.5, f64::MAX));
    assert_eq!(r.bench, (-0.0f64).to_bits());
    assert_eq!(r.bench_base(), d(-0.0));
    assert_eq!(r.anchor(), pair(1.5, f64::MAX));
    assert_ne!(r, BlastShapeRef::new(SolidId(5), d(0.0), pair(1.5, f64::MAX)));
}

#[test]
fn set_of_handles_keeps_each_once() {
    let mut set: HandleSet<SceneEntityId> = HandleSet::new();
    let a = SceneEntityId::Object(ObjectId(1));
    let b = SceneEntityId::DrillHole(DrillHoleId(1));
    assert!(set.is_empty());
    assert!(set.insert(a));
    assert!(!set.insert(a));
    assert!(set.insert(b));
    assert_eq!(set.len(), 2);
    assert!(set.contains(a) && set.contains(b));
    let mut other: HandleSet<SceneEntityId> = HandleSet::new();
    other.insert(b);
    other.insert(SceneEntityId::Object(ObjectId(2)));
    set.extend_from(&other);
    assert_eq!(set.len(), 3);
    assert!(set.remove(a));
    assert!(!set.remove(a));
    assert_eq!(set.as_vec().len(), 2);
    set.clear();
    assert!(set.is_empty());
}

#[test]
fn holes_of_one_dataset_leave_together() {
    let mut holes: HandleSet<DrillHoleRef> = HandleSet::new();
    for hole in 0..3 {
        holes.insert(DrillHoleRef { dataset: DrillHoleId(1), hole });
        holes.insert(DrillHoleRef { dataset: DrillHoleId(2), hole });
    }
    holes.remove_dataset(DrillHoleId(1));
    assert_eq!(holes.len(), 3);
    assert!(!holes.contains(DrillHoleRef { dataset: DrillHoleId(1), hole: 0 }));
    assert!(holes.contains(DrillHoleRef { dataset: DrillHoleId(2), hole: 2 }));
}

#[test]
fn key_of_a_set_ignores_the_order_it_grew_in() {
    let mut first: HandleSet<SceneEntityId> = HandleSet::new();
    let mut second: HandleSet<SceneEntityId> = HandleSet::new();
    for id in 0..5 {
        first.insert(SceneEntityId::Object(ObjectId(id)));
        second.insert(SceneEntityId::Object(ObjectId(4 - id)));
    }
    assert_eq!(key_of_set(&first), key_of_set(&second));
    second.insert(SceneEntityId::Object(ObjectId(9)));
    assert_ne!(key_of_set(&first), key_of_set(&second));
    let empty: HandleSet<SceneEntityId> = HandleSet::new();
    assert_eq!(key_of_set(&empty), 0);
}

#[test]
fn words_are_trimmed_of_every_white_space() {
    assert_eq!(trim("  a b\t\n"), "a b");
    assert_eq!(trim("\u{a0}\u{3000}x\u{2009}"), "x");
    assert_eq!(trim(" \r\n "), "");
    assert_eq!(trim(""), "");
    assert_eq!(trim("\u{200b}"), "\u{200b}");
    assert_eq!(chars_of("aé…"), vec!['a', 'é', '…']);
}

#[test]
fn labels_lose_dots_ellipses_and_spaces_only_at_the_end() {
    assert_eq!(stem_of_label(&"Generating contours…".to_owned()), "Generating contours");
    assert_eq!(stem_of_label(&"v1.2 build . …".to_owned()), "v1.2 build");
    assert_eq!(stem_of_label(&"Done".to_owned()), "Done");
    assert_eq!(stem_of_label(&"...".to_owned()), "");
    assert_eq!(stem_of_label(&"tab\t.".to_owned()), "tab\t");
}

#[test]
fn typed_numbers_are_unsigned_decimals() {
    for text in ["1", "12.5", ".5", "5.", "007"] {
        assert!(is_unsigned_decimal(text));
    }
    for text in ["", ".", "-1", "+1", "1e3", "1.2.3", "1 ", "١"] {
        assert!(!is_unsigned_decimal(text));
    }
}

#[test]
fn pasted_line_ends_become_line_feeds() {
    assert_eq!(normalise_line_ends("a\r\nb\r\n"), "a\nb\n");
    assert_eq!(normalise_line_ends("a\rb\n\r"), "a\rb\n\r");
    assert_eq!(normalise_line_ends("\r\r\n"), "\r\n");
    assert_eq!(normalise_line_ends(""), "");
    let mut pending = Vec::new();
    queue_paste(&mut pending, "x\r\ny");
    queue_paste(&mut pending, "");
    assert_eq!(pending, vec!["x\ny".to_owned()]);
}

fn stored(delay_ms: u32, name: &str) -> StoredDelayProduct {
    StoredDelayProduct { delay_ms, name: name.to_owned(), color: StoredColor { r: 200, g: 100, b: 50, a: 255 } }
}

#[test]
fn palette_is_sorted_by_delay_and_keeps_the_order_of_equals() {
    let palette = delay_products_from_stored(&vec![stored(25, "b"), stored(9, "c"), stored(25, "a"), stored(0, "z")]);
    let read: Vec<(u64, u32, &str)> = palette.iter().map(|p| (p.id.0, p.delay_ms, p.name.as_str())).collect();
    assert_eq!(read, vec![(3, 0, "z"), (1, 9, "c"), (0, 25, "b"), (2, 25, "a")]);
    assert_eq!(palette[0].color, PackedColor { r: 200, g: 100, b: 50, a: 255 });
    assert!(builtin_delay_products(&Vec::new()).is_empty());
}

#[test]
fn colours_are_packed_with_their_alpha_multiplied_in() {
    let mut product = stored(1, "p");
    product.color = StoredColor { r: 255, g: 128, b: 0, a: 128 };
    let palette = delay_products_from_stored(&vec![product]);
    assert_eq!(palette[0].color, PackedColor { r: 128, g: 64, b: 0, a: 128 });
    let mut clear = stored(1, "p");
    clear.color = StoredColor { r: 9, g: 9, b: 9, a: 0 };
    assert_eq!(delay_products_from_stored(&vec![clear])[0].color, PackedColor { r: 0, g: 0, b: 0, a: 0 });
}

#[test]
fn opaque_product_is_stored_as_it_came() {
    let given = stored(17, "fast");
    let palette = delay_products_from_stored(&vec![given.clone()]);
    assert_eq!(palette[0].to_stored(), given);
    let sheer = DelayProduct { id: DelayProductId(0), delay_ms: 5, name: "s".to_owned(), color: PackedColor { r: 64, g: 32, b: 0, a: 128 } };
    let back = sheer.to_stored();
    assert_eq!(back.color, StoredColor { r: 128, g: 64, b: 0, a: 128 });
}

#[test]
fn lists_are_copied_and_pushed_to_on_condition() {
    let mut list = vec![LayerId(1)];
    push_if(&mut list, false, LayerId(2));
    push_if(&mut list, true, LayerId(3));
    assert_eq!(copied(&list), vec![LayerId(1), LayerId(3)]);
}

fn range(low: f64, high: f64) -> RealRange {
    RealRange { low: d(low), high: d(high) }
}

#[test]
fn fields_take_these_ranges() {
    assert_eq!(RealField::OffsetAngle.range(), range(-90.0, 90.0));
    assert_eq!(RealField::OffsetLength.range(), range(0.0, f64::MAX));
    assert_eq!(RealField::OffsetHeight.range(), range(-f64::MAX, f64::MAX));
    assert_eq!(RealField::BermWidth.range(), range(0.1, 500.0));
    assert_eq!(RealField::BatterAngle.range(), range(1.0, 89.0));
    assert_eq!(RealField::BermBenchHeight.range(), range(0.1, 500.0));
    assert_eq!(RealField::RelimitLength.range(), range(-f64::MAX, f64::MAX));
    assert_eq!(RealField::MoveDelta.range(), range(-f64::MAX, f64::MAX));
    assert_eq!(RealField::Azimuth.range(), range(0.0, 360.0));
    assert_eq!(RealField::AxisValue.range(), range(-f64::MAX, f64::MAX));
    assert_eq!(RealField::TextHeight.range(), range(0.001, 1.0e9));
    assert_eq!(RealField::TextRotation.range(), range(-f64::MAX, f64::MAX));
    assert_eq!(RealField::SliceWidth.range(), range(0.1, 1.0e6));
    assert_eq!(RealField::SliceSpeed.range(), range(0.0, 1.0e6));
    assert_eq!(RealField::SliceTurn.range(), range(1.0, 720.0));
    assert_eq!(RealField::VerticalExaggeration.range(), range(0.1, 20.0));
    assert_eq!(RealField::PlanGridThickness.range(), range(1.0, 6.0));
    assert_eq!(RealField::SectionGridThickness.range(), range(0.5, 6.0));
    assert_eq!(RealField::ReserveConstant.range(), range(-f64::MAX, f64::MAX));
    assert_eq!(RealField::OrbitSensitivity.range(), range(0.0001, 0.02));
    assert_eq!(RealField::ZoomSensitivity.range(), range(0.0001, 0.05));
    assert_eq!(RealField::FieldOfView.range(), range(20.0, 120.0));
    assert_eq!(RealField::LookSensitivity.range(), range(0.0001, 0.02));
    assert_eq!(RealField::NearClipLimit.range(), range(0.01, 100.0));
    assert_eq!(RealField::MaxClipSpan.range(), range(100.0, 1_000_000.0));
    assert_eq!(CountField::ChamferSegments.range(), CountRange { low: 1, high: 64 });
    assert_eq!(CountField::BezierSegments.range(), CountRange { low: 2, high: 64 });
    assert_eq!(CountField::SnapPollRate.range(), CountRange { low: 5, high: 1000 });
    assert_eq!(CountField::FrameRateCap.range(), CountRange { low: 20, high: 1000 });
    assert_eq!(CountField::ResizeFrameRateCap.range(), CountRange { low: 20, high: 1000 });
    assert_eq!(CountField::BlockModelDivisor.range(), CountRange { low: 1, high: 64 });
}

#[test]
fn ranges_take_the_nearest_value() {
    assert_eq!(range(0.0, 1.0).nearest(d(7.0)), d(1.0));
    assert_eq!(range(0.0, 1.0).nearest(d(-7.0)), d(0.0));
    assert_eq!(range(0.0, 1.0).nearest(d(0.25)), d(0.25));
}

fn interval(base: f64, bench: f64) -> BenchInterval {
    BenchInterval { base: d(base), bench: d(bench), flitch: d(2.5), styles: Vec::new() }
}

#[test]
fn falling_order_puts_the_higher_first_and_keeps_equals() {
    let mut intervals = vec![interval(0.0, 1.0), interval(20.0, 2.0), interval(10.0, 3.0), interval(20.0, 4.0)];
    sort_falling(&mut intervals);
    let read: Vec<(u64, u64)> = intervals.iter().map(|entry| (entry.base.bits, entry.bench.bits)).collect();
    let wanted: Vec<(u64, u64)> = [(20.0, 2.0), (20.0, 4.0), (10.0, 3.0), (0.0, 1.0)].iter().map(|&(base, bench)| (d(base).bits, d(bench).bits)).collect();
    assert_eq!(read, wanted);
    assert!(intervals[2].ranks_below(&intervals[0]));
    assert!(!intervals[0].ranks_below(&intervals[1]));
}
