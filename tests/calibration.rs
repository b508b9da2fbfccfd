use physical_layout::calibration::{
    CalibrationError, CalibrationManager, CalibrationStep, DisplayInfo,
};
use physical_layout::coordinates::DeviceCalibration;

fn display(width: u64, height: u64) -> DisplayInfo {
    DisplayInfo { device_pixel_ratio: 1_000, viewport_width: width, viewport_height: height }
}

fn stored(confidence: u64, width: u64, height: u64) -> DeviceCalibration {
    DeviceCalibration {
        scale_factor: 3_780_000,
        confidence,
        timestamp: 1,
        device_pixel_ratio: 1_000,
        viewport_width: width,
        viewport_height: height,
    }
}

#[test]
fn test_calibration_confidence() {
    let mut manager = CalibrationManager::new(None);
    manager.process_measurement(378_000).unwrap();
    assert!(manager.get_state().confidence_score > 800_000);

    let mut manager2 = CalibrationManager::new(None);
    manager2.process_measurement(1_000_000).unwrap();
    assert!(manager2.get_state().confidence_score < 500_000);
}

#[test]
fn test_measurement_validation() {
    let mut manager = CalibrationManager::new(None);
    assert!(manager.process_measurement(0).is_err());
    assert!(manager.process_measurement(-10_000).is_err());
    assert!(manager.process_measurement(3_000_000).is_err());
    assert!(manager.process_measurement(350_000).is_ok());
}

#[test]
fn measurement_bounds_fail_and_succeed() {
    for px in [0i64, -10, 2001, 3000] {
        let mut manager = CalibrationManager::new(None);
        assert!(manager.process_measurement(px * 1000).is_err(), "{}", px);
        assert_eq!(manager.get_state().step, CalibrationStep::Welcome);
        assert_eq!(manager.get_state().estimated_scale, None);
    }
    for px in [50i64, 350, 378, 2000] {
        let mut manager = CalibrationManager::new(None);
        assert!(manager.process_measurement(px * 1000).is_ok(), "{}", px);
        assert_eq!(manager.get_state().step, CalibrationStep::Validation);
        assert_eq!(manager.get_state().measured_pixels, Some(px * 1000));
        assert_eq!(manager.get_state().estimated_scale, Some(px as u64 * 10_000));
    }
}

#[test]
fn measurement_errors_name_the_cause() {
    let mut manager = CalibrationManager::new(None);
    assert_eq!(manager.process_measurement(0), Err(CalibrationError::MeasurementNotPositive));
    assert_eq!(
        manager.process_measurement(2_000_001),
        Err(CalibrationError::MeasurementTooLarge)
    );
    assert_eq!(
        CalibrationError::MeasurementNotPositive.message(),
        "Measurement must be positive"
    );
    assert_eq!(
        CalibrationError::MeasurementTooLarge.message(),
        "Measurement seems too large - please check your ruler"
    );
}

#[test]
fn confidence_profile() {
    assert_eq!(CalibrationManager::calculate_confidence(3_780_000), 1_000_000);
    assert_eq!(CalibrationManager::calculate_confidence(1_999_999), 300_000);
    assert_eq!(CalibrationManager::calculate_confidence(6_000_001), 300_000);
    assert_eq!(CalibrationManager::calculate_confidence(10_000_000), 300_000);
    assert_eq!(CalibrationManager::calculate_confidence(2_000_000), 400_000);
    assert_eq!(CalibrationManager::calculate_confidence(6_000_000), 400_000);
    assert_eq!(CalibrationManager::calculate_confidence(5_000_000), 450_451);
    assert_eq!(CalibrationManager::calculate_confidence(3_500_000), 873_874);
    for scale in (2_000_000u64..=6_000_000).step_by(12_345) {
        assert!(CalibrationManager::calculate_confidence(scale) >= 400_000);
    }
}

#[test]
fn estimated_dpi_follows_scale() {
    let mut manager = CalibrationManager::new(None);
    assert_eq!(manager.get_estimated_dpi(), None);
    manager.process_measurement(378_000).unwrap();
    // 3.78 px/mm is 96.012 DPI.
    assert_eq!(manager.get_estimated_dpi(), Some(96_012_000));
}

#[test]
fn wizard_steps_move_forward_and_back() {
    let mut manager = CalibrationManager::new(None);
    manager.previous_step();
    assert_eq!(manager.get_state().step, CalibrationStep::Welcome);
    manager.next_step();
    assert_eq!(manager.get_state().step, CalibrationStep::Welcome);
    manager.start_calibration();
    assert_eq!(manager.get_state().step, CalibrationStep::Instructions);
    manager.next_step();
    assert_eq!(manager.get_state().step, CalibrationStep::Measuring);
    manager.process_measurement(378_000).unwrap();
    assert_eq!(manager.get_state().step, CalibrationStep::Validation);
    manager.previous_step();
    assert_eq!(manager.get_state().step, CalibrationStep::Measuring);
    manager.previous_step();
    assert_eq!(manager.get_state().step, CalibrationStep::Instructions);
    manager.previous_step();
    assert_eq!(manager.get_state().step, CalibrationStep::Welcome);
}

#[test]
fn completion_requires_measurement() {
    let manager = CalibrationManager::new(None);
    let r = manager.prepare_calibration(Some(display(1920, 1080)), 5);
    assert_eq!(r, Err(CalibrationError::NoMeasurement));
}

#[test]
fn completion_requires_valid_environment() {
    let mut manager = CalibrationManager::new(None);
    manager.process_measurement(378_000).unwrap();
    assert_eq!(manager.prepare_calibration(None, 5), Err(CalibrationError::InvalidEnvironment));
    assert_eq!(
        manager.prepare_calibration(Some(display(0, 1080)), 5),
        Err(CalibrationError::InvalidEnvironment)
    );
    let zero_ratio = DisplayInfo { device_pixel_ratio: 0, viewport_width: 1, viewport_height: 1 };
    assert_eq!(
        manager.prepare_calibration(Some(zero_ratio), 5),
        Err(CalibrationError::InvalidEnvironment)
    );
    assert_eq!(manager.get_state().step, CalibrationStep::Validation);
}

#[test]
fn completion_builds_and_adopts_calibration() {
    let mut manager = CalibrationManager::new(None);
    manager.process_measurement(378_000).unwrap();
    let cal = manager.prepare_calibration(Some(display(1920, 1080)), 1_700_000_000_000).unwrap();
    assert_eq!(cal.scale_factor, 3_780_000);
    assert_eq!(cal.confidence, 1_000_000);
    assert_eq!(cal.timestamp, 1_700_000_000_000);
    assert_eq!(cal.viewport_width, 1920);
    assert_eq!(cal.viewport_height, 1080);
    assert_eq!(cal.device_pixel_ratio, 1_000);
    assert!(manager.get_coordinate_system().is_none());
    assert_eq!(manager.complete_calibration(Some(display(1920, 1080)), 1_700_000_000_000, true), Ok(cal));
    assert_eq!(manager.get_state().step, CalibrationStep::Complete);
    assert_eq!(manager.get_calibration(), Some(&cal));
}

#[test]
fn completion_fails_when_not_saved() {
    let mut manager = CalibrationManager::new(None);
    manager.process_measurement(378_000).unwrap();
    let cal = manager.prepare_calibration(Some(display(1920, 1080)), 9).unwrap();
    assert_eq!(cal.scale_factor, 3_780_000);
    assert_eq!(
        manager.complete_calibration(Some(display(1920, 1080)), 9, false),
        Err(CalibrationError::PersistenceFailed)
    );
    assert_eq!(manager.get_state().step, CalibrationStep::Validation);
    assert!(manager.get_calibration().is_none());
}

#[test]
fn reset_forgets_calibration() {
    let mut manager = CalibrationManager::new(Some(stored(900_000, 1920, 1080)));
    assert!(manager.get_coordinate_system().is_some());
    manager.process_measurement(378_000).unwrap();
    manager.reset_calibration();
    assert!(manager.get_coordinate_system().is_none());
    assert_eq!(manager.get_state().step, CalibrationStep::Welcome);
    assert_eq!(manager.get_state().measured_pixels, None);
    assert_eq!(manager.get_state().confidence_score, 0);
}

#[test]
fn stored_calibration_out_of_range_is_ignored() {
    let mut bad = stored(900_000, 1920, 1080);
    bad.scale_factor = 0;
    let manager = CalibrationManager::new(Some(bad));
    assert!(manager.get_calibration().is_none());
}

#[test]
fn recalibration_needed_without_stored_calibration() {
    let manager = CalibrationManager::new(None);
    assert!(manager.needs_recalibration(None, Some(display(1920, 1080))));
}

#[test]
fn recalibration_needed_for_low_confidence() {
    let manager = CalibrationManager::new(None);
    assert!(manager.needs_recalibration(Some(stored(590_000, 1920, 1080)), Some(display(1920, 1080))));
    assert!(!manager.needs_recalibration(Some(stored(600_000, 1920, 1080)), Some(display(1920, 1080))));
}

#[test]
fn recalibration_needed_after_viewport_change() {
    let manager = CalibrationManager::new(None);
    assert!(manager.needs_recalibration(Some(stored(900_000, 1920, 1080)), Some(display(2200, 1080))));
    assert!(manager.needs_recalibration(Some(stored(900_000, 1920, 1080)), Some(display(1920, 900))));
    // Exactly a tenth is not more than a tenth.
    assert!(!manager.needs_recalibration(Some(stored(900_000, 1920, 1080)), Some(display(2112, 1080))));
}

#[test]
fn recalibration_not_needed_when_confident_and_unchanged() {
    let manager = CalibrationManager::new(None);
    assert!(!manager.needs_recalibration(Some(stored(900_000, 1920, 1080)), Some(display(1920, 1080))));
    assert!(!manager.needs_recalibration(Some(stored(900_000, 1920, 1080)), None));
}

#[test]
fn measurement_input_keeps_wizard_message() {
    let mut manager = CalibrationManager::new(None);
    manager.start_calibration();
    manager.next_step();
    assert_eq!(manager.apply_measurement_input(None), Err(CalibrationError::MeasurementNotANumber));
    assert_eq!(manager.get_state().error_message.as_deref(), Some("Please enter a valid number"));
    assert_eq!(manager.get_state().step, CalibrationStep::Measuring);
    assert_eq!(
        manager.apply_measurement_input(Some(3_000_000)),
        Err(CalibrationError::MeasurementTooLarge)
    );
    assert_eq!(
        manager.get_state().error_message.as_deref(),
        Some("Measurement seems too large - please check your ruler")
    );
    assert_eq!(manager.apply_measurement_input(Some(378_000)), Ok(()));
    assert_eq!(manager.get_state().error_message, None);
    assert_eq!(manager.get_state().step, CalibrationStep::Validation);
    assert_eq!(manager.get_state().confidence_score, 1_000_000);
}

#[test]
fn error_messages() {
    assert_eq!(CalibrationError::NoMeasurement.message(), "No measurement available");
    assert_eq!(CalibrationError::InvalidEnvironment.message(), "Invalid display information");
    assert_eq!(CalibrationError::PersistenceFailed.message(), "Failed to save calibration");
    assert_eq!(CalibrationError::MeasurementNotANumber.message(), "Please enter a valid number");
}

#[test]
fn managers_compare_by_step_and_measurement() {
    let mut a = CalibrationManager::new(None);
    let b = CalibrationManager::new(Some(stored(900_000, 1920, 1080)));
    assert!(a == b);
    a.process_measurement(378_000).unwrap();
    assert!(a != b);
    let mut c = CalibrationManager::new(None);
    c.process_measurement(378_000).unwrap();
    assert!(a == c);
    c.process_measurement(379_000).unwrap();
    assert!(a != c);
}

#[test]
fn completion_without_measurement_fails_and_changes_nothing() {
    let mut manager = CalibrationManager::new(None);
    assert_eq!(
        manager.complete_calibration(Some(display(1920, 1080)), 1, true),
        Err(CalibrationError::NoMeasurement)
    );
    assert_eq!(manager.get_state().step, CalibrationStep::Welcome);
    assert!(manager.get_calibration().is_none());
    let mut kept = CalibrationManager::new(Some(stored(900_000, 1920, 1080)));
    kept.start_calibration();
    assert_eq!(
        kept.complete_calibration(Some(display(1920, 1080)), 1, true),
        Err(CalibrationError::NoMeasurement)
    );
    assert_eq!(kept.get_calibration(), Some(&stored(900_000, 1920, 1080)));
    assert_eq!(kept.get_state().step, CalibrationStep::Instructions);
}

#[test]
fn completion_with_bad_environment_changes_nothing() {
    let mut manager = CalibrationManager::new(None);
    manager.process_measurement(378_000).unwrap();
    assert_eq!(manager.complete_calibration(None, 1, true), Err(CalibrationError::InvalidEnvironment));
    assert_eq!(manager.get_state().step, CalibrationStep::Validation);
    assert!(manager.get_calibration().is_none());
}

#[test]
fn completed_calibration_carries_measurement() {
    let mut manager = CalibrationManager::new(None);
    manager.process_measurement(500_000).unwrap();
    let cal = manager.complete_calibration(Some(display(1280, 720)), 42, true).unwrap();
    assert_eq!(cal.scale_factor, 5_000_000);
    assert_eq!(cal.confidence, 450_451);
    assert_eq!((cal.viewport_width, cal.viewport_height, cal.timestamp), (1280, 720, 42));
    assert_eq!(manager.get_calibration(), Some(&cal));
    assert_eq!(manager.get_state().step, CalibrationStep::Complete);
}
