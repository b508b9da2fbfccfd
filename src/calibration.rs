//! The calibration workflow: a user-measured ruler length becomes a scale factor
//! with a confidence score, and a completed calibration becomes a coordinate system.
use vstd::prelude::*;
use crate::coordinates::{CoordinateSystem, DeviceCalibration, CONFIDENCE_ONE, MAX_SCALE_FACTOR};

verus! {

/// Length of the on-screen reference ruler, in millimetres.
pub const TARGET_RULER_LENGTH_MM: u64 = 100;

/// Longest accepted ruler measurement, in millipixels (2000 px).
pub const MAX_MEASURED_MILLIPX: i64 = 2_000_000;

/// Lower end of the plausible scale range, in micropixels per millimetre (2 px/mm).
pub const MIN_REASONABLE_SCALE: u64 = 2_000_000;

/// Upper end of the plausible scale range, in micropixels per millimetre (6 px/mm).
pub const MAX_REASONABLE_SCALE: u64 = 6_000_000;

/// The 96 DPI scale, in micropixels per millimetre (3.78 px/mm).
pub const OPTIMAL_SCALE: u64 = 3_780_000;

/// Confidence given to a scale outside the plausible range, in parts per million.
pub const OUT_OF_RANGE_CONFIDENCE: u64 = 300_000;

/// Least confidence given to a scale inside the plausible range, in parts per million.
pub const CONFIDENCE_FLOOR: u64 = 400_000;

/// A stored calibration below this confidence (parts per million) asks for a new one.
pub const RECALIBRATION_CONFIDENCE: u64 = 600_000;

#[derive(Debug, Clone, Copy, PartialEq, Eq, Structural)]
pub enum CalibrationStep {
    Welcome,
    Instructions,
    Measuring,
    Validation,
    Complete,
}

/// Wizard-facing progress of one calibration run.
#[derive(Debug, Clone)]
pub struct CalibrationState {
    pub step: CalibrationStep,
    /// The accepted ruler measurement, in millipixels.
    pub measured_pixels: Option<i64>,
    /// Micropixels per millimetre.
    pub estimated_scale: Option<u64>,
    /// Parts per million.
    pub confidence_score: u64,
    pub error_message: Option<String>,
}

impl CalibrationState {
    pub open spec fn is_default(&self) -> bool {
        &&& self.step == CalibrationStep::Welcome
        &&& self.measured_pixels is None
        &&& self.estimated_scale is None
        &&& self.confidence_score == 0
        &&& self.error_message is None
    }
}

impl Default for CalibrationState {
    fn default() -> (r: Self)
        ensures
            r.is_default(),
    {
        CalibrationState {
            step: CalibrationStep::Welcome,
            measured_pixels: None,
            estimated_scale: None,
            confidence_score: 0,
            error_message: None,
        }
    }
}

#[derive(Debug, Clone, Copy, PartialEq, Eq, Structural)]
pub enum CalibrationError {
    /// The measurement entered was not a number.
    MeasurementNotANumber,
    /// The measurement was zero or negative.
    MeasurementNotPositive,
    /// The measurement was longer than any plausible ruler.
    MeasurementTooLarge,
    /// Completion was asked for before a measurement was accepted.
    NoMeasurement,
    /// The display information was missing or not positive.
    InvalidEnvironment,
    /// The calibration record could not be stored.
    PersistenceFailed,
}

impl CalibrationError {
    pub open spec fn message_spec(self) -> Seq<char> {
        match self {
            CalibrationError::MeasurementNotANumber => "Please enter a valid number"@,
            CalibrationError::MeasurementNotPositive => "Measurement must be positive"@,
            CalibrationError::MeasurementTooLarge => "Measurement seems too large - please check your ruler"@,
            CalibrationError::NoMeasurement => "No measurement available"@,
            CalibrationError::InvalidEnvironment => "Invalid display information"@,
            CalibrationError::PersistenceFailed => "Failed to save calibration"@,
        }
    }

    pub fn message(&self) -> (r: &'static str)
        ensures
            r@ == self.message_spec(),
    {
        match self {
            CalibrationError::MeasurementNotANumber => "Please enter a valid number",
            CalibrationError::MeasurementNotPositive => "Measurement must be positive",
            CalibrationError::MeasurementTooLarge => "Measurement seems too large - please check your ruler",
            CalibrationError::NoMeasurement => "No measurement available",
            CalibrationError::InvalidEnvironment => "Invalid display information",
            CalibrationError::PersistenceFailed => "Failed to save calibration",
        }
    }
}

pub open spec fn message_is(message: Option<String>, text: Seq<char>) -> bool {
    message matches Some(m) && m@ == text
}

/// What the display reports about itself.
#[derive(Debug, Clone, Copy, PartialEq, Eq, Structural)]
pub struct DisplayInfo {
    /// Device pixels per CSS pixel, in thousandths.
    pub device_pixel_ratio: u64,
    /// CSS pixels.
    pub viewport_width: u64,
    /// CSS pixels.
    pub viewport_height: u64,
}

impl DisplayInfo {
    pub open spec fn is_valid(self) -> bool {
        self.device_pixel_ratio > 0 && self.viewport_width > 0 && self.viewport_height > 0
    }
}

/// Micropixels per millimetre for a ruler of `measured` millipixels.
pub open spec fn scale_for_measurement(measured: int) -> int {
    measured * 1000 / TARGET_RULER_LENGTH_MM as int
}

pub open spec fn distance(a: int, b: int) -> int {
    if a >= b {
        a - b
    } else {
        b - a
    }
}

/// Triangular decay from the optimum, floored; a fixed low score out of range.
pub open spec fn confidence_spec(scale: int) -> int {
    if scale < MIN_REASONABLE_SCALE || scale > MAX_REASONABLE_SCALE {
        OUT_OF_RANGE_CONFIDENCE as int
    } else {
        let max_distance = if MAX_REASONABLE_SCALE - OPTIMAL_SCALE >= OPTIMAL_SCALE
            - MIN_REASONABLE_SCALE {
            MAX_REASONABLE_SCALE - OPTIMAL_SCALE
        } else {
            OPTIMAL_SCALE - MIN_REASONABLE_SCALE
        };
        let decayed = CONFIDENCE_ONE - distance(scale, OPTIMAL_SCALE as int) * CONFIDENCE_ONE
            / max_distance;
        if decayed >= CONFIDENCE_FLOOR {
            decayed
        } else {
            CONFIDENCE_FLOOR as int
        }
    }
}

/// Whether either viewport axis moved by more than a tenth of its calibrated size.
pub open spec fn viewport_changed_spec(last: DeviceCalibration, display: Option<DisplayInfo>) -> bool {
    match display {
        None => false,
        Some(d) => {
            10 * distance(d.viewport_width as int, last.viewport_width as int)
                > last.viewport_width || 10 * distance(
                d.viewport_height as int,
                last.viewport_height as int,
            ) > last.viewport_height
        },
    }
}

pub open spec fn needs_recalibration_spec(
    stored: Option<DeviceCalibration>,
    display: Option<DisplayInfo>,
) -> bool {
    match stored {
        None => true,
        Some(c) => !c.wf() || c.confidence < RECALIBRATION_CONFIDENCE || viewport_changed_spec(
            c,
            display,
        ),
    }
}

/// The calibration a run in `state` completes to, given the display and the time.
pub open spec fn prepared_calibration(
    state: CalibrationState,
    display: Option<DisplayInfo>,
    timestamp: u64,
) -> Result<DeviceCalibration, CalibrationError> {
    match state.estimated_scale {
        None => Err(CalibrationError::NoMeasurement),
        Some(s) => if !(0 < s <= MAX_SCALE_FACTOR && state.confidence_score <= CONFIDENCE_ONE) {
            Err(CalibrationError::NoMeasurement)
        } else {
            match display {
                Some(d) => if d.is_valid() {
                    Ok(
                        DeviceCalibration {
                            scale_factor: s,
                            confidence: state.confidence_score,
                            timestamp,
                            device_pixel_ratio: d.device_pixel_ratio,
                            viewport_width: d.viewport_width,
                            viewport_height: d.viewport_height,
                        },
                    )
                } else {
                    Err(CalibrationError::InvalidEnvironment)
                },
                None => Err(CalibrationError::InvalidEnvironment),
            }
        },
    }
}

/// What completing a run in `state` gives, once storing the calibration was attempted.
pub open spec fn completed_calibration(
    state: CalibrationState,
    display: Option<DisplayInfo>,
    timestamp: u64,
    saved: bool,
) -> Result<DeviceCalibration, CalibrationError> {
    match prepared_calibration(state, display, timestamp) {
        Ok(c) => if saved {
            Ok(c)
        } else {
            Err(CalibrationError::PersistenceFailed)
        },
        Err(e) => Err(e),
    }
}

/// Drives the calibration steps and owns the coordinate system they produce.
#[derive(Debug, Clone)]
pub struct CalibrationManager {
    state: CalibrationState,
    coordinate_system: Option<CoordinateSystem>,
}

impl CalibrationManager {
    /// The calibration in use, if any.
    pub closed spec fn state(&self) -> CalibrationState {
        self.state
    }

    pub closed spec fn active(&self) -> Option<DeviceCalibration> {
        match self.coordinate_system {
            Some(cs) => Some(cs@),
            None => None,
        }
    }

    /// Starts from the stored calibration; a record out of range counts as none.
    pub fn new(stored: Option<DeviceCalibration>) -> (r: Self)
        ensures
            r.state().is_default(),
            r.active() == (match stored {
                Some(c) => if c.wf() {
                    Some(c)
                } else {
                    None
                },
                None => None,
            }),
    {
        let coordinate_system = match stored {
            Some(c) => if c.is_valid() {
                Some(CoordinateSystem::new(c))
            } else {
                None
            },
            None => None,
        };
        CalibrationManager { state: CalibrationState::default(), coordinate_system }
    }

    /// Restarts the workflow at the instructions, with fresh measurement state.
    pub fn start_calibration(&mut self)
        ensures
            final(self).state().step == CalibrationStep::Instructions,
            final(self).state().measured_pixels is None,
            final(self).state().estimated_scale is None,
            final(self).state().confidence_score == 0,
            final(self).state().error_message is None,
            final(self).active() == old(self).active(),
    {
        let mut state = CalibrationState::default();
        state.step = CalibrationStep::Instructions;
        self.state = state;
    }

    /// Moves forward from the instructions to measuring; other steps stay.
    pub fn next_step(&mut self)
        ensures
            final(self).state().step == (if old(self).state().step == CalibrationStep::Instructions {
                CalibrationStep::Measuring
            } else {
                old(self).state().step
            }),
            final(self).state().measured_pixels == old(self).state().measured_pixels,
            final(self).state().estimated_scale == old(self).state().estimated_scale,
            final(self).state().confidence_score == old(self).state().confidence_score,
            final(self).state().error_message == old(self).state().error_message,
            final(self).active() == old(self).active(),
    {
        if self.state.step == CalibrationStep::Instructions {
            self.state.step = CalibrationStep::Measuring;
        }
    }

    /// Moves one step back from instructions, measuring or validation; other steps stay.
    pub fn previous_step(&mut self)
        ensures
            final(self).state().step == (match old(self).state().step {
                CalibrationStep::Instructions => CalibrationStep::Welcome,
                CalibrationStep::Measuring => CalibrationStep::Instructions,
                CalibrationStep::Validation => CalibrationStep::Measuring,
                s => s,
            }),
            final(self).state().measured_pixels == old(self).state().measured_pixels,
            final(self).state().estimated_scale == old(self).state().estimated_scale,
            final(self).state().confidence_score == old(self).state().confidence_score,
            final(self).state().error_message == old(self).state().error_message,
            final(self).active() == old(self).active(),
    {
        match self.state.step {
            CalibrationStep::Instructions => {
                self.state.step = CalibrationStep::Welcome;
            },
            CalibrationStep::Measuring => {
                self.state.step = CalibrationStep::Instructions;
            },
            CalibrationStep::Validation => {
                self.state.step = CalibrationStep::Measuring;
            },
            _ => {},
        }
    }

    /// Accepts a ruler measurement in millipixels: the scale is the measurement over the
    /// reference length, scored by `calculate_confidence`, and the workflow moves to
    /// validation. A measurement that is not positive or longer than 2000 px is refused
    /// and changes nothing.
    pub fn process_measurement(&mut self, measured_pixels: i64) -> (r: Result<(), CalibrationError>)
        ensures
            measured_pixels <= 0 ==> r == Err::<(), _>(CalibrationError::MeasurementNotPositive),
            measured_pixels > MAX_MEASURED_MILLIPX ==> r == Err::<(), _>(
                CalibrationError::MeasurementTooLarge,
            ),
            0 < measured_pixels <= MAX_MEASURED_MILLIPX ==> r is Ok,
            r is Err ==> final(self).state().step == old(self).state().step
                && final(self).state().measured_pixels == old(self).state().measured_pixels
                && final(self).state().estimated_scale == old(self).state().estimated_scale
                && final(self).state().confidence_score == old(self).state().confidence_score,
            r is Ok ==> {
                let scale = scale_for_measurement(measured_pixels as int);
                &&& final(self).state().step == CalibrationStep::Validation
                &&& final(self).state().measured_pixels == Some(measured_pixels)
                &&& final(self).state().estimated_scale == Some(scale as u64)
                &&& final(self).state().confidence_score == confidence_spec(scale)
            },
            final(self).state().error_message == old(self).state().error_message,
            final(self).active() == old(self).active(),
    {
        if measured_pixels <= 0 {
            return Err(CalibrationError::MeasurementNotPositive);
        }
        if measured_pixels > MAX_MEASURED_MILLIPX {
            return Err(CalibrationError::MeasurementTooLarge);
        }
        let scale_factor = (measured_pixels as u64) * 1000 / TARGET_RULER_LENGTH_MM;
        let confidence = Self::calculate_confidence(scale_factor);
        self.state.measured_pixels = Some(measured_pixels);
        self.state.estimated_scale = Some(scale_factor);
        self.state.confidence_score = confidence;
        self.state.step = CalibrationStep::Validation;
        Ok(())
    }

    /// Takes what the user entered as a ruler measurement, in millipixels, or none when
    /// it was not a number, as `process_measurement` does. The outcome is kept as the
    /// wizard's message: cleared on success, the error's text otherwise.
    pub fn apply_measurement_input(&mut self, measured_pixels: Option<i64>) -> (r: Result<
        (),
        CalibrationError,
    >)
        ensures
            measured_pixels is None ==> r == Err::<(), _>(CalibrationError::MeasurementNotANumber),
            measured_pixels matches Some(px) ==> (px <= 0 ==> r == Err::<(), _>(
                CalibrationError::MeasurementNotPositive,
            )) && (px > MAX_MEASURED_MILLIPX ==> r == Err::<(), _>(
                CalibrationError::MeasurementTooLarge,
            )),
            r is Ok <==> (measured_pixels matches Some(px) && 0 < px <= MAX_MEASURED_MILLIPX),
            r is Ok ==> {
                let scale = scale_for_measurement(measured_pixels.unwrap() as int);
                &&& final(self).state().step == CalibrationStep::Validation
                &&& final(self).state().measured_pixels == measured_pixels
                &&& final(self).state().estimated_scale == Some(scale as u64)
                &&& final(self).state().confidence_score == confidence_spec(scale)
                &&& final(self).state().error_message is None
            },
            r matches Err(e) ==> {
                &&& final(self).state().step == old(self).state().step
                &&& final(self).state().measured_pixels == old(self).state().measured_pixels
                &&& final(self).state().estimated_scale == old(self).state().estimated_scale
                &&& final(self).state().confidence_score == old(self).state().confidence_score
                &&& message_is(final(self).state().error_message, e.message_spec())
            },
            final(self).active() == old(self).active(),
    {
        let result = match measured_pixels {
            Some(px) => self.process_measurement(px),
            None => Err(CalibrationError::MeasurementNotANumber),
        };
        match result {
            Ok(()) => {
                self.state.error_message = None;
            },
            Err(e) => {
                self.state.error_message = Some(e.message().to_owned());
            },
        }
        result
    }

    /// Confidence in parts per million for a scale in micropixels per millimetre.
    pub fn calculate_confidence(scale_factor: u64) -> (r: u64)
        ensures
            r == confidence_spec(scale_factor as int),
    {
        if scale_factor < MIN_REASONABLE_SCALE || scale_factor > MAX_REASONABLE_SCALE {
            OUT_OF_RANGE_CONFIDENCE
        } else {
            let max_distance = if MAX_REASONABLE_SCALE - OPTIMAL_SCALE >= OPTIMAL_SCALE
                - MIN_REASONABLE_SCALE {
                MAX_REASONABLE_SCALE - OPTIMAL_SCALE
            } else {
                OPTIMAL_SCALE - MIN_REASONABLE_SCALE
            };
            let d = if scale_factor >= OPTIMAL_SCALE {
                scale_factor - OPTIMAL_SCALE
            } else {
                OPTIMAL_SCALE - scale_factor
            };
            let penalty = d * CONFIDENCE_ONE / max_distance;
            assert(penalty <= CONFIDENCE_ONE) by (nonlinear_arith)
                requires
                    penalty == (d * CONFIDENCE_ONE) as int / max_distance as int,
                    d <= max_distance,
                    max_distance > 0,
            ;
            let decayed = CONFIDENCE_ONE - penalty;
            if decayed >= CONFIDENCE_FLOOR {
                decayed
            } else {
                CONFIDENCE_FLOOR
            }
        }
    }

    /// Builds the calibration that completing the current run would store: the accepted
    /// scale and confidence, the display's ratio and viewport, and `timestamp`. Fails
    /// without an accepted measurement in range, or without valid display information.
    pub fn prepare_calibration(&self, display: Option<DisplayInfo>, timestamp: u64) -> (r: Result<
        DeviceCalibration,
        CalibrationError,
    >)
        ensures
            r == prepared_calibration(self.state(), display, timestamp),
            r matches Ok(c) ==> c.wf(),
    {
        let scale_factor = match self.state.estimated_scale {
            Some(s) => s,
            None => {
                return Err(CalibrationError::NoMeasurement);
            },
        };
        if scale_factor == 0 || scale_factor > MAX_SCALE_FACTOR || self.state.confidence_score
            > CONFIDENCE_ONE {
            return Err(CalibrationError::NoMeasurement);
        }
        let d = match display {
            Some(d) => d,
            None => {
                return Err(CalibrationError::InvalidEnvironment);
            },
        };
        if d.device_pixel_ratio == 0 || d.viewport_width == 0 || d.viewport_height == 0 {
            return Err(CalibrationError::InvalidEnvironment);
        }
        Ok(
            DeviceCalibration {
                scale_factor,
                confidence: self.state.confidence_score,
                timestamp,
                device_pixel_ratio: d.device_pixel_ratio,
                viewport_width: d.viewport_width,
                viewport_height: d.viewport_height,
            },
        )
    }

    /// Completes the run: builds the calibration as `prepare_calibration` does and, when
    /// `saved` reports that storing it succeeded, makes it the active calibration and
    /// moves to the complete step. Without an accepted measurement, with invalid display
    /// information, or when storing failed, it reports the failure and changes nothing.
    pub fn complete_calibration(
        &mut self,
        display: Option<DisplayInfo>,
        timestamp: u64,
        saved: bool,
    ) -> (r: Result<DeviceCalibration, CalibrationError>)
        ensures
            r == completed_calibration(old(self).state(), display, timestamp, saved),
            r is Ok <==> (saved && prepared_calibration(old(self).state(), display, timestamp) is Ok),
            r matches Ok(c) ==> {
                &&& c.wf()
                &&& final(self).active() == Some(c)
                &&& final(self).state().step == CalibrationStep::Complete
            },
            r is Err ==> final(self).active() == old(self).active() && final(self).state().step
                == old(self).state().step,
            final(self).state().measured_pixels == old(self).state().measured_pixels,
            final(self).state().estimated_scale == old(self).state().estimated_scale,
            final(self).state().confidence_score == old(self).state().confidence_score,
            final(self).state().error_message == old(self).state().error_message,
    {
        let calibration = self.prepare_calibration(display, timestamp)?;
        if !saved {
            return Err(CalibrationError::PersistenceFailed);
        }
        self.coordinate_system = Some(CoordinateSystem::new(calibration));
        self.state.step = CalibrationStep::Complete;
        Ok(calibration)
    }

    pub fn get_state(&self) -> (r: &CalibrationState)
        ensures
            *r == self.state(),
    {
        &self.state
    }

    pub fn get_coordinate_system(&self) -> (r: Option<&CoordinateSystem>)
        ensures
            match r {
                Some(cs) => self.active() == Some(cs@),
                None => self.active() is None,
            },
    {
        self.coordinate_system.as_ref()
    }

    pub fn get_calibration(&self) -> (r: Option<&DeviceCalibration>)
        ensures
            match r {
                Some(c) => self.active() == Some(*c) && c.wf(),
                None => self.active() is None,
            },
    {
        match &self.coordinate_system {
            Some(cs) => Some(cs.get_calibration()),
            None => None,
        }
    }

    /// Whether a new calibration is due: none is stored (or the stored one is out of
    /// range), its confidence is below 0.6, or the viewport moved by more than a tenth
    /// on either axis.
    pub fn needs_recalibration(
        &self,
        stored: Option<DeviceCalibration>,
        display: Option<DisplayInfo>,
    ) -> (r: bool)
        ensures
            r == needs_recalibration_spec(stored, display),
    {
        match stored {
            Some(c) => !c.is_valid() || c.confidence < RECALIBRATION_CONFIDENCE
                || Self::viewport_changed_significantly(&c, display),
            None => true,
        }
    }

    fn viewport_changed_significantly(last: &DeviceCalibration, display: Option<DisplayInfo>) -> (r:
        bool)
        ensures
            r == viewport_changed_spec(*last, display),
    {
        match display {
            Some(d) => {
                let dw = if d.viewport_width >= last.viewport_width {
                    d.viewport_width - last.viewport_width
                } else {
                    last.viewport_width - d.viewport_width
                };
                let dh = if d.viewport_height >= last.viewport_height {
                    d.viewport_height - last.viewport_height
                } else {
                    last.viewport_height - d.viewport_height
                };
                10 * (dw as u128) > last.viewport_width as u128 || 10 * (dh as u128)
                    > last.viewport_height as u128
            },
            None => false,
        }
    }

    /// Forgets the active calibration and returns to the initial state.
    pub fn reset_calibration(&mut self)
        ensures
            final(self).active() is None,
            final(self).state().is_default(),
    {
        self.coordinate_system = None;
        self.state = CalibrationState::default();
    }

    /// Estimated resolution in millionths of a dot per inch.
    pub fn get_estimated_dpi(&self) -> (r: Option<u64>)
        ensures
            match self.state().estimated_scale {
                Some(s) => r == Some((s * 254 / 10) as u64),
                None => r is None,
            },
    {
        match self.state.estimated_scale {
            Some(s) => Some(((s as u128) * 254 / 10) as u64),
            None => None,
        }
    }
}

/// Two managers are alike when they are at the same step with the same measurement.
impl PartialEq for CalibrationManager {
    fn eq(&self, other: &CalibrationManager) -> (r: bool) {
        let same_measurement = match (self.state.measured_pixels, other.state.measured_pixels) {
            (Some(a), Some(b)) => a == b,
            (None, None) => true,
            _ => false,
        };
        self.state.step == other.state.step && same_measurement
    }
}

impl vstd::std_specs::cmp::PartialEqSpecImpl for CalibrationManager {
    open spec fn obeys_eq_spec() -> bool {
        true
    }

    open spec fn eq_spec(&self, other: &CalibrationManager) -> bool {
        self.state().step == other.state().step && self.state().measured_pixels
            == other.state().measured_pixels
    }
}

/// Confidence is full at the 96 DPI optimum, fixed and low outside the plausible range,
/// and never below the floor inside it.
pub proof fn lemma_confidence_profile(scale: u64)
    ensures
        scale == OPTIMAL_SCALE ==> confidence_spec(scale as int) == CONFIDENCE_ONE,
        (scale < MIN_REASONABLE_SCALE || scale > MAX_REASONABLE_SCALE) ==> confidence_spec(
            scale as int,
        ) == OUT_OF_RANGE_CONFIDENCE,
        MIN_REASONABLE_SCALE <= scale <= MAX_REASONABLE_SCALE ==> CONFIDENCE_FLOOR
            <= confidence_spec(scale as int) <= CONFIDENCE_ONE,
{
    if MIN_REASONABLE_SCALE <= scale <= MAX_REASONABLE_SCALE {
        let d = distance(scale as int, OPTIMAL_SCALE as int);
        assert(d * CONFIDENCE_ONE / 2_220_000int >= 0) by (nonlinear_arith)
            requires
                d >= 0,
        ;
    }
}

} // verus!
