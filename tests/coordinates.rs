use physical_layout::coordinates::{
    floor_div, CoordinateSystem, DeviceCalibration, PhysicalCoord, ScreenCoord,
};

fn default_system() -> CoordinateSystem {
    CoordinateSystem::new(DeviceCalibration::default())
}

fn system_with_scale(scale_factor: u64) -> CoordinateSystem {
    let mut calibration = DeviceCalibration::default();
    calibration.scale_factor = scale_factor;
    CoordinateSystem::new(calibration)
}

#[test]
fn test_coordinate_conversions() {
    let coord_sys = default_system();
    let original_mm: i64 = 25_400;
    let px = coord_sys.mm_to_px(original_mm);
    let converted_mm = coord_sys.px_to_mm(px);
    assert!((original_mm - converted_mm).abs() < 1);
}

#[test]
fn test_bounds_validation() {
    let coord_sys = default_system();
    assert!(coord_sys.validate_physical_bounds(PhysicalCoord { x: 100_000, y: 100_000 }));
    assert!(!coord_sys.validate_physical_bounds(PhysicalCoord { x: 300_000, y: 100_000 }));
    assert!(!coord_sys.validate_physical_bounds(PhysicalCoord { x: -10_000, y: 100_000 }));
}

#[test]
fn test_grid_snapping() {
    let coord_sys = default_system();
    let coord = PhysicalCoord { x: 10_100, y: 20_200 };
    let snapped = coord_sys.snap_to_grid(coord, 5_000, 500);
    assert_eq!(snapped, PhysicalCoord { x: 10_000, y: 20_000 });
}

#[test]
fn grid_snapping_outside_tolerance_keeps_input() {
    let coord_sys = default_system();
    let coord = PhysicalCoord { x: 10_100, y: 20_200 };
    assert_eq!(coord_sys.snap_to_grid(coord, 5_000, 50), coord);
}

#[test]
fn grid_snapping_is_all_or_nothing() {
    let coord_sys = default_system();
    // x is within tolerance of 10 mm, y is 2.2 mm away from 20 mm.
    let coord = PhysicalCoord { x: 10_100, y: 22_200 };
    assert_eq!(coord_sys.snap_to_grid(coord, 5_000, 500), coord);
}

#[test]
fn grid_snapping_ties_go_away_from_zero() {
    let coord_sys = default_system();
    let snapped = coord_sys.snap_to_grid(PhysicalCoord { x: 7_500, y: -7_500 }, 5_000, 2_500);
    assert_eq!(snapped, PhysicalCoord { x: 10_000, y: -10_000 });
}

#[test]
fn grid_snapping_negative_coordinates() {
    let coord_sys = default_system();
    let snapped = coord_sys.snap_to_grid(PhysicalCoord { x: -10_100, y: -4_900 }, 5_000, 500);
    assert_eq!(snapped, PhysicalCoord { x: -10_000, y: -5_000 });
}

#[test]
fn grid_snapping_with_non_positive_grid_keeps_input() {
    let coord_sys = default_system();
    let coord = PhysicalCoord { x: 10_100, y: 20_200 };
    assert_eq!(coord_sys.snap_to_grid(coord, 0, 500), coord);
    assert_eq!(coord_sys.snap_to_grid(coord, -5_000, 500), coord);
}

#[test]
fn round_trip_is_exact_for_many_lengths() {
    for scale in [1u64, 7, 3_779_528, 4_000_000, 20_000_000] {
        let cs = system_with_scale(scale);
        for mm in [0i64, 1, 999, 25_400, 215_900, 279_400, 100_000_000_000] {
            assert_eq!(cs.px_to_mm(cs.mm_to_px(mm)), mm);
        }
    }
}

#[test]
fn mm_to_px_exact_value() {
    let cs = system_with_scale(4_000_000);
    // 2.5 mm at 4 px/mm is 10 px.
    assert_eq!(cs.mm_to_px(2_500), 10_000_000_000);
    assert_eq!(cs.mm_to_px(-1_250), -5_000_000_000);
}

#[test]
fn px_to_mm_rounds_down() {
    let cs = system_with_scale(3_000_000);
    assert_eq!(cs.px_to_mm(10_000_000_000), 3_333);
    assert_eq!(cs.px_to_mm(-10_000_000_000), -3_334);
    assert_eq!(floor_div(-7, 2), -4);
    assert_eq!(floor_div(7, 2), 3);
    assert_eq!(floor_div(i64::MIN, 1), i64::MIN);
}

#[test]
fn physical_to_screen_converts_both_axes() {
    let cs = system_with_scale(4_000_000);
    let screen = cs.physical_to_screen(PhysicalCoord { x: 1_000, y: 2_000 });
    assert_eq!(screen, ScreenCoord { x: 4_000_000_000, y: 8_000_000_000 });
}

#[test]
fn page_bounds_include_edges() {
    let cs = default_system();
    assert!(cs.validate_physical_bounds(PhysicalCoord { x: 0, y: 0 }));
    assert!(cs.validate_physical_bounds(PhysicalCoord { x: 215_900, y: 279_400 }));
    assert!(!cs.validate_physical_bounds(PhysicalCoord { x: 215_901, y: 0 }));
    assert!(!cs.validate_physical_bounds(PhysicalCoord { x: 0, y: 279_401 }));
    assert!(!cs.validate_physical_bounds(PhysicalCoord { x: 0, y: -1 }));
}

#[test]
fn default_calibration_is_96_dpi() {
    let c = DeviceCalibration::default();
    assert_eq!(c.scale_factor, 3_779_528);
    assert_eq!(c.confidence, 500_000);
    assert_eq!(c.viewport_width, 1920);
    assert_eq!(c.viewport_height, 1080);
    assert!(c.is_valid());
    let cs = CoordinateSystem::new(c);
    assert_eq!(*cs.get_calibration(), c);
}

#[test]
fn calibration_validity_checks_every_range() {
    let mut c = DeviceCalibration::default();
    c.scale_factor = 0;
    assert!(!c.is_valid());
    c.scale_factor = 20_000_001;
    assert!(!c.is_valid());
    let mut c = DeviceCalibration::default();
    c.confidence = 1_000_001;
    assert!(!c.is_valid());
    let mut c = DeviceCalibration::default();
    c.viewport_height = 0;
    assert!(!c.is_valid());
}
