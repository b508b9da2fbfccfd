//! Precise placement of form content: the calibration and the font metrics together.
use vstd::prelude::*;
use crate::calibration::CalibrationManager;
use crate::coordinates::{
    mm_to_px_spec,
    DeviceCalibration,
    PhysicalCoord,
    ScreenCoord,
    MAX_ABS_LENGTH_UM,
};
use crate::font_metrics::{
    baseline_spec,
    cache_key,
    estimate_text_width,
    measure_cache,
    measure_result,
    text_width_spec,
    FontMetrics,
    FontMetricsCalculator,
    StandardFont,
    SurfaceReading,
    TextPosition,
};

verus! {

/// Whether text of `len` bytes fits a field: its estimated advance no wider and its line
/// no taller than the field.
pub open spec fn text_fits_spec(
    metrics: FontMetrics,
    len: int,
    scale: int,
    field_width_um: int,
    field_height_um: int,
) -> bool {
    text_width_spec(metrics, len) <= mm_to_px_spec(scale, field_width_um)
        && metrics.line_height_px <= mm_to_px_spec(scale, field_height_um)
}

pub struct RenderingEngine {
    calibration_manager: CalibrationManager,
    font_calculator: FontMetricsCalculator,
}

impl RenderingEngine {
    pub closed spec fn active(&self) -> Option<DeviceCalibration> {
        self.calibration_manager.active()
    }

    pub closed spec fn font_cache(&self) -> Map<u64, FontMetrics> {
        self.font_calculator.cache()
    }

    pub closed spec fn wf(&self) -> bool {
        self.font_calculator.wf()
    }

    /// An engine over the stored calibration, with no fonts measured yet.
    pub fn new(stored: Option<DeviceCalibration>) -> (r: Self)
        ensures
            r.wf(),
            r.active() == (match stored {
                Some(c) => if c.wf() {
                    Some(c)
                } else {
                    None
                },
                None => None,
            }),
            r.font_cache() == Map::<u64, FontMetrics>::empty(),
    {
        RenderingEngine {
            calibration_manager: CalibrationManager::new(stored),
            font_calculator: FontMetricsCalculator::new(),
        }
    }

    pub fn physical_to_screen(&self, physical_coord: PhysicalCoord) -> (r: Option<ScreenCoord>)
        requires
            physical_coord.in_range(),
        ensures
            match self.active() {
                Some(c) => r == Some(
                    ScreenCoord {
                        x: mm_to_px_spec(c.scale_factor as int, physical_coord.x as int) as i64,
                        y: mm_to_px_spec(c.scale_factor as int, physical_coord.y as int) as i64,
                    },
                ),
                None => r is None,
            },
    {
        match self.calibration_manager.get_coordinate_system() {
            Some(cs) => Some(cs.physical_to_screen(physical_coord)),
            None => None,
        }
    }

    /// Micropixels per millimetre of the active calibration.
    pub fn get_scale_factor(&self) -> (r: Option<u64>)
        ensures
            match self.active() {
                Some(c) => r == Some(c.scale_factor),
                None => r is None,
            },
    {
        match self.calibration_manager.get_calibration() {
            Some(c) => Some(c.scale_factor),
            None => None,
        }
    }

    pub fn is_calibrated(&self) -> (r: bool)
        ensures
            r == self.active() is Some,
    {
        self.calibration_manager.get_coordinate_system().is_some()
    }

    /// Text placement in a field; none when uncalibrated or the font and size have not
    /// been measured.
    pub fn calculate_text_position(
        &self,
        font: StandardFont,
        font_size_pt: u32,
        field_position: PhysicalCoord,
        field_height_um: i64,
    ) -> (r: Option<TextPosition>)
        requires
            self.wf(),
            field_position.in_range(),
            -MAX_ABS_LENGTH_UM <= field_height_um <= MAX_ABS_LENGTH_UM,
        ensures
            r is Some <==> self.active() is Some && self.font_cache().contains_key(
                cache_key(font, font_size_pt as int),
            ),
            r matches Some(p) ==> {
                let m = self.font_cache()[cache_key(font, font_size_pt as int)];
                let b = baseline_spec(
                    self.active().unwrap().scale_factor as int,
                    field_position,
                    field_height_um as int,
                    m.line_height_px as int,
                );
                &&& p.font_metrics == m
                &&& p.baseline_x == b.0
                &&& p.baseline_y == b.1
                &&& p.wf()
            },
    {
        match self.calibration_manager.get_coordinate_system() {
            Some(cs) => self.font_calculator.calculate_text_position(
                font,
                font_size_pt,
                field_position,
                field_height_um,
                cs,
            ),
            None => None,
        }
    }

    /// Metrics of a font and size, measured from `reading` unless already cached.
    pub fn get_font_metrics(
        &mut self,
        font: StandardFont,
        font_size_pt: u32,
        reading: Option<SurfaceReading>,
        timestamp: u64,
    ) -> (r: Option<FontMetrics>)
        requires
            old(self).wf(),
        ensures
            final(self).wf(),
            final(self).active() == old(self).active(),
            r == measure_result(old(self).font_cache(), font, font_size_pt, reading, timestamp),
            final(self).font_cache() == measure_cache(
                old(self).font_cache(),
                font,
                font_size_pt,
                reading,
                timestamp,
            ),
    {
        self.font_calculator.measure_font(font, font_size_pt, reading, timestamp)
    }

    pub fn get_font_calculator(&self) -> (r: &FontMetricsCalculator)
        ensures
            r.cache() == self.font_cache(),
            r.wf() == self.wf(),
    {
        &self.font_calculator
    }

    pub fn get_calibration_manager(&self) -> (r: &CalibrationManager)
        ensures
            r.active() == self.active(),
    {
        &self.calibration_manager
    }

    /// Whether `text` fits a field of the given size; false when uncalibrated or the
    /// font and size have not been measured.
    pub fn validate_text_fit(
        &self,
        text: &str,
        font: StandardFont,
        font_size_pt: u32,
        field_width_um: i64,
        field_height_um: i64,
    ) -> (r: bool)
        requires
            self.wf(),
            -MAX_ABS_LENGTH_UM <= field_width_um <= MAX_ABS_LENGTH_UM,
            -MAX_ABS_LENGTH_UM <= field_height_um <= MAX_ABS_LENGTH_UM,
        ensures
            r == (self.active() matches Some(c) && self.font_cache().contains_key(
                cache_key(font, font_size_pt as int),
            ) && text_fits_spec(
                self.font_cache()[cache_key(font, font_size_pt as int)],
                text.len() as int,
                c.scale_factor as int,
                field_width_um as int,
                field_height_um as int,
            )),
    {
        let cs = match self.calibration_manager.get_coordinate_system() {
            Some(cs) => cs,
            None => {
                return false;
            },
        };
        let metrics = match self.font_calculator.get_cached_metrics(&font, font_size_pt) {
            Some(m) => m,
            None => {
                return false;
            },
        };
        proof {
            self.font_calculator.lemma_cached_in_range(font, font_size_pt);
        }
        let field_width_px = cs.mm_to_px(field_width_um);
        let field_height_px = cs.mm_to_px(field_height_um);
        let text_width = estimate_text_width(metrics, text);
        text_width <= field_width_px as i128 && metrics.line_height_px <= field_height_px
    }
}

} // verus!
