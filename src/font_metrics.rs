//! Per-font, per-size text metrics, measured once on an outside text surface and
//! cached for the life of the calculator, and the text placement built on them.
use vstd::prelude::*;
use std::collections::HashMap;
use crate::coordinates::{
    floor_div,
    mm_to_px_spec,
    CoordinateSystem,
    PhysicalCoord,
    MAX_ABS_LENGTH_UM,
};

verus! {

broadcast use vstd::std_specs::hash::group_hash_axioms;

/// Text measured to obtain ascent and descent: capitals, lower case and digits.
pub const PROBE_TEXT: &'static str = "ABCDEFGHIJKLMNOPQRSTUVWXYZabcdefghijklmnopqrstuvwxyz0123456789";

/// Glyph measured for the advance width of a monospace font.
pub const CHAR_WIDTH_PROBE: &'static str = "M";

/// Largest magnitude of a measured glyph extent, in nanopixels (a million pixels).
pub const MAX_GLYPH_EXTENT: i64 = 1_000_000_000_000_000;

/// Largest magnitude of a screen position that text can be placed at, in nanopixels.
pub const MAX_SCREEN_NANOPX: i64 = 4_000_000_000_000_000_000;

/// PDF-standard font families.
#[derive(Debug, Clone, Copy, PartialEq, Eq, Hash, Structural)]
pub enum StandardFont {
    Helvetica,
    Times,
    Courier,
    TimesRoman,
    HelveticaBold,
    CourierBold,
}

impl StandardFont {
    pub open spec fn is_monospace(self) -> bool {
        self == StandardFont::Courier || self == StandardFont::CourierBold
    }

    /// A distinct small number per font, part of the cache key.
    pub open spec fn code(self) -> int {
        match self {
            StandardFont::Helvetica => 0,
            StandardFont::Times => 1,
            StandardFont::Courier => 2,
            StandardFont::TimesRoman => 3,
            StandardFont::HelveticaBold => 4,
            StandardFont::CourierBold => 5,
        }
    }

    pub fn css_family(&self) -> (r: &'static str)
        ensures
            (*self == StandardFont::Helvetica || *self == StandardFont::HelveticaBold) ==> r@
                == "Helvetica, Arial, sans-serif"@,
            (*self == StandardFont::Times || *self == StandardFont::TimesRoman) ==> r@
                == "Times, 'Times New Roman', serif"@,
            self.is_monospace() ==> r@ == "'Courier New', Courier, monospace"@,
    {
        match self {
            StandardFont::Helvetica => "Helvetica, Arial, sans-serif",
            StandardFont::Times => "Times, 'Times New Roman', serif",
            StandardFont::Courier => "'Courier New', Courier, monospace",
            StandardFont::TimesRoman => "Times, 'Times New Roman', serif",
            StandardFont::HelveticaBold => "Helvetica, Arial, sans-serif",
            StandardFont::CourierBold => "'Courier New', Courier, monospace",
        }
    }

    pub fn css_weight(&self) -> (r: &'static str)
        ensures
            (*self == StandardFont::HelveticaBold || *self == StandardFont::CourierBold) ==> r@
                == "bold"@,
            !(*self == StandardFont::HelveticaBold || *self == StandardFont::CourierBold) ==> r@
                == "normal"@,
    {
        match self {
            StandardFont::HelveticaBold | StandardFont::CourierBold => "bold",
            _ => "normal",
        }
    }

    pub fn is_monospace_font(&self) -> (r: bool)
        ensures
            r == self.is_monospace(),
    {
        match self {
            StandardFont::Courier | StandardFont::CourierBold => true,
            _ => false,
        }
    }

    fn code_exec(&self) -> (r: u64)
        ensures
            r == self.code(),
    {
        match self {
            StandardFont::Helvetica => 0,
            StandardFont::Times => 1,
            StandardFont::Courier => 2,
            StandardFont::TimesRoman => 3,
            StandardFont::HelveticaBold => 4,
            StandardFont::CourierBold => 5,
        }
    }
}

/// Metrics of one font at one size; lengths in nanopixels.
#[derive(Debug, Clone, Copy, PartialEq, Eq, Structural)]
pub struct FontMetrics {
    /// Millipoints.
    pub font_size_pt: u32,
    pub font_size_px: i64,
    /// Extent above the baseline.
    pub ascent_px: i64,
    /// Extent below the baseline.
    pub descent_px: i64,
    pub line_height_px: i64,
    /// Advance width of one glyph, for monospace fonts.
    pub char_width_px: Option<i64>,
    /// Distance from the top of the text box to the baseline.
    pub baseline_offset_px: i64,
    pub font_family: StandardFont,
    /// Milliseconds since the Unix epoch.
    pub timestamp: u64,
}

impl FontMetrics {
    /// Every length is small enough for the placement arithmetic.
    pub open spec fn in_range(self) -> bool {
        &&& 0 <= self.font_size_px <= MAX_GLYPH_EXTENT * 8
        &&& -MAX_GLYPH_EXTENT <= self.ascent_px <= MAX_GLYPH_EXTENT
        &&& -MAX_GLYPH_EXTENT <= self.descent_px <= MAX_GLYPH_EXTENT
        &&& -2 * MAX_GLYPH_EXTENT <= self.line_height_px <= 2 * MAX_GLYPH_EXTENT
        &&& (self.char_width_px matches Some(w) ==> 0 <= w <= MAX_GLYPH_EXTENT)
    }
}

/// What the text surface reported for one font and size, in nanopixels.
#[derive(Debug, Clone, Copy, PartialEq, Eq, Structural)]
pub struct SurfaceReading {
    /// Ascent of the probe text.
    pub ascent: i64,
    /// Descent of the probe text.
    pub descent: i64,
    /// Width of the single-glyph probe, when it was measured.
    pub char_width: Option<i64>,
}

impl SurfaceReading {
    pub open spec fn in_range(self) -> bool {
        &&& -MAX_GLYPH_EXTENT <= self.ascent <= MAX_GLYPH_EXTENT
        &&& -MAX_GLYPH_EXTENT <= self.descent <= MAX_GLYPH_EXTENT
        &&& (self.char_width matches Some(w) ==> 0 <= w <= MAX_GLYPH_EXTENT)
    }
}

/// What to measure on the text surface for a font and size that is not cached yet.
#[derive(Debug, Clone, Copy, PartialEq, Eq, Structural)]
pub struct MeasureRequest {
    pub font: StandardFont,
    /// Nanopixels.
    pub size_px: i64,
    /// Whether the single-glyph probe is to be measured too.
    pub needs_char_width: bool,
}

/// Nanopixels for a size in millipoints, at 96 pixels per 72 points.
pub open spec fn points_to_px(size_pt: int) -> int {
    size_pt * 1_000_000 * 96 / 72
}

/// Cache slot of a size: tenths of a point, rounded to nearest.
pub open spec fn size_key(size_pt: int) -> int {
    (size_pt + 50) / 100
}

pub open spec fn cache_key(font: StandardFont, size_pt: int) -> u64 {
    (size_key(size_pt) * 8 + font.code()) as u64
}

/// The metrics a surface reading gives; none when the reading is out of range or a
/// monospace font lacks its glyph width.
pub open spec fn metrics_from_reading(
    font: StandardFont,
    size_pt: u32,
    reading: SurfaceReading,
    timestamp: u64,
) -> Option<FontMetrics> {
    if !reading.in_range() || (font.is_monospace() && reading.char_width is None) {
        None
    } else {
        Some(
            FontMetrics {
                font_size_pt: size_pt,
                font_size_px: points_to_px(size_pt as int) as i64,
                ascent_px: reading.ascent,
                descent_px: reading.descent,
                line_height_px: (reading.ascent + reading.descent) as i64,
                char_width_px: if font.is_monospace() {
                    reading.char_width
                } else {
                    None
                },
                baseline_offset_px: reading.ascent,
                font_family: font,
                timestamp,
            },
        )
    }
}

/// What `measure_font` returns: the cached entry when there is one, else the metrics
/// built from the reading.
pub open spec fn measure_result(
    cache: Map<u64, FontMetrics>,
    font: StandardFont,
    size_pt: u32,
    reading: Option<SurfaceReading>,
    timestamp: u64,
) -> Option<FontMetrics> {
    let k = cache_key(font, size_pt as int);
    if cache.contains_key(k) {
        Some(cache[k])
    } else {
        match reading {
            Some(rd) => metrics_from_reading(font, size_pt, rd, timestamp),
            None => None,
        }
    }
}

/// The cache after `measure_font`: a new result is stored under its key.
pub open spec fn measure_cache(
    cache: Map<u64, FontMetrics>,
    font: StandardFont,
    size_pt: u32,
    reading: Option<SurfaceReading>,
    timestamp: u64,
) -> Map<u64, FontMetrics> {
    let k = cache_key(font, size_pt as int);
    if cache.contains_key(k) {
        cache
    } else {
        match measure_result(cache, font, size_pt, reading, timestamp) {
            Some(m) => cache.insert(k, m),
            None => cache,
        }
    }
}

/// Baseline position for text in a field: the field's left edge, and its vertical
/// centre lowered by a quarter of the line height.
pub open spec fn baseline_spec(
    scale: int,
    field_position: PhysicalCoord,
    field_height_um: int,
    line_height_px: int,
) -> (int, int) {
    let x = mm_to_px_spec(scale, field_position.x as int);
    let top = mm_to_px_spec(scale, field_position.y as int);
    let height = mm_to_px_spec(scale, field_height_um);
    (x, top + height / 2 + line_height_px / 4)
}

/// Estimated advance of `len` bytes of text: the glyph width for monospace fonts,
/// three fifths of the font size otherwise.
pub open spec fn text_width_spec(metrics: FontMetrics, len: int) -> int {
    match metrics.char_width_px {
        Some(w) => len * w,
        None => len * metrics.font_size_px * 3 / 5,
    }
}

/// Measures fonts through an outside text surface and remembers the results.
pub struct FontMetricsCalculator {
    metrics_cache: HashMap<u64, FontMetrics>,
}

impl FontMetricsCalculator {
    pub closed spec fn cache(&self) -> Map<u64, FontMetrics> {
        self.metrics_cache@
    }

    /// Every cached entry is in range.
    pub closed spec fn wf(&self) -> bool {
        forall|k: u64| #[trigger]
            self.metrics_cache@.contains_key(k) ==> self.metrics_cache@[k].in_range()
    }

    pub fn new() -> (r: Self)
        ensures
            r.cache() == Map::<u64, FontMetrics>::empty(),
            r.wf(),
    {
        FontMetricsCalculator { metrics_cache: HashMap::new() }
    }

    fn key_for(font: &StandardFont, size_pt: u32) -> (r: u64)
        ensures
            r == cache_key(*font, size_pt as int),
    {
        ((size_pt as u64 + 50) / 100) * 8 + font.code_exec()
    }

    /// What to measure for `font` at `size_pt` millipoints, or none when the cache
    /// already holds it.
    pub fn measurement_request(&self, font: StandardFont, size_pt: u32) -> (r: Option<
        MeasureRequest,
    >)
        ensures
            r is None <==> self.cache().contains_key(cache_key(font, size_pt as int)),
            r matches Some(q) ==> q == (MeasureRequest {
                font,
                size_px: points_to_px(size_pt as int) as i64,
                needs_char_width: font.is_monospace(),
            }),
    {
        let k = Self::key_for(&font, size_pt);
        if self.metrics_cache.contains_key(&k) {
            None
        } else {
            Some(
                MeasureRequest {
                    font,
                    size_px: Self::points_to_px(size_pt),
                    needs_char_width: font.is_monospace_font(),
                },
            )
        }
    }

    fn points_to_px(size_pt: u32) -> (r: i64)
        ensures
            r == points_to_px(size_pt as int),
            0 <= r <= MAX_GLYPH_EXTENT * 8,
    {
        ((size_pt as u64) * 1_000_000 * 96 / 72) as i64
    }

    /// Metrics of `font` at `size_pt` millipoints. A cached entry is returned as it is
    /// and `reading` is not looked at; otherwise the metrics are built from `reading`
    /// (line height = ascent + descent, baseline offset = ascent, glyph width kept for
    /// monospace fonts only) and cached. No reading, one out of range, or a monospace
    /// reading without its glyph width gives none and caches nothing.
    pub fn measure_font(
        &mut self,
        font: StandardFont,
        size_pt: u32,
        reading: Option<SurfaceReading>,
        timestamp: u64,
    ) -> (r: Option<FontMetrics>)
        requires
            old(self).wf(),
        ensures
            final(self).wf(),
            r == measure_result(old(self).cache(), font, size_pt, reading, timestamp),
            final(self).cache() == measure_cache(
                old(self).cache(),
                font,
                size_pt,
                reading,
                timestamp,
            ),
    {
        let k = Self::key_for(&font, size_pt);
        match self.metrics_cache.get(&k) {
            Some(m) => {
                return Some(*m);
            },
            None => {},
        }
        let rd = match reading {
            Some(rd) => rd,
            None => {
                return None;
            },
        };
        if rd.ascent < -MAX_GLYPH_EXTENT || rd.ascent > MAX_GLYPH_EXTENT || rd.descent
            < -MAX_GLYPH_EXTENT || rd.descent > MAX_GLYPH_EXTENT {
            return None;
        }
        match rd.char_width {
            Some(w) => {
                if w < 0 || w > MAX_GLYPH_EXTENT {
                    return None;
                }
            },
            None => {},
        }
        let monospace = font.is_monospace_font();
        if monospace && rd.char_width.is_none() {
            return None;
        }
        let metrics = FontMetrics {
            font_size_pt: size_pt,
            font_size_px: Self::points_to_px(size_pt),
            ascent_px: rd.ascent,
            descent_px: rd.descent,
            line_height_px: rd.ascent + rd.descent,
            char_width_px: if monospace {
                rd.char_width
            } else {
                None
            },
            baseline_offset_px: rd.ascent,
            font_family: font,
            timestamp,
        };
        self.metrics_cache.insert(k, metrics);
        Some(metrics)
    }

    /// Where text in `font` at `size_pt` starts inside a field whose top-left corner is
    /// `field_position` and whose height is `field_height_um`; none until that font and
    /// size has been measured.
    pub fn calculate_text_position(
        &self,
        font: StandardFont,
        size_pt: u32,
        field_position: PhysicalCoord,
        field_height_um: i64,
        coord_system: &CoordinateSystem,
    ) -> (r: Option<TextPosition>)
        requires
            self.wf(),
            field_position.in_range(),
            -MAX_ABS_LENGTH_UM <= field_height_um <= MAX_ABS_LENGTH_UM,
        ensures
            r is None <==> !self.cache().contains_key(cache_key(font, size_pt as int)),
            r matches Some(p) ==> {
                let m = self.cache()[cache_key(font, size_pt as int)];
                let b = baseline_spec(
                    coord_system@.scale_factor as int,
                    field_position,
                    field_height_um as int,
                    m.line_height_px as int,
                );
                &&& p.font_metrics == m
                &&& p.baseline_x == b.0
                &&& p.baseline_y == b.1
                &&& p.wf()
            },
    {
        let k = Self::key_for(&font, size_pt);
        let metrics = match self.metrics_cache.get(&k) {
            Some(m) => *m,
            None => {
                return None;
            },
        };
        let field_screen = coord_system.physical_to_screen(field_position);
        let field_height_px = coord_system.mm_to_px(field_height_um);
        let calibration = coord_system.get_calibration();
        proof {
            let sc = calibration.scale_factor as int;
            assert(-2_000_000_000_000_000_000 <= field_position.y * sc <= 2_000_000_000_000_000_000)
                by (nonlinear_arith)
                requires
                    -MAX_ABS_LENGTH_UM <= field_position.y <= MAX_ABS_LENGTH_UM,
                    0 < sc <= crate::coordinates::MAX_SCALE_FACTOR,
            ;
            assert(-2_000_000_000_000_000_000 <= field_height_um * sc <= 2_000_000_000_000_000_000)
                by (nonlinear_arith)
                requires
                    -MAX_ABS_LENGTH_UM <= field_height_um <= MAX_ABS_LENGTH_UM,
                    0 < sc <= crate::coordinates::MAX_SCALE_FACTOR,
            ;
        }
        let half = floor_div(field_height_px, 2);
        let quarter = floor_div(metrics.line_height_px, 4);
        let baseline_y = field_screen.y + half + quarter;
        Some(TextPosition { baseline_x: field_screen.x, baseline_y, font_metrics: metrics })
    }

    pub fn get_cached_metrics(&self, font: &StandardFont, size_pt: u32) -> (r: Option<
        &FontMetrics,
    >)
        ensures
            match r {
                Some(m) => self.cache().contains_key(cache_key(*font, size_pt as int)) && *m
                    == self.cache()[cache_key(*font, size_pt as int)],
                None => !self.cache().contains_key(cache_key(*font, size_pt as int)),
            },
    {
        let k = Self::key_for(font, size_pt);
        self.metrics_cache.get(&k)
    }

    /// A cached entry is in range.
    pub proof fn lemma_cached_in_range(&self, font: StandardFont, size_pt: u32)
        requires
            self.wf(),
            self.cache().contains_key(cache_key(font, size_pt as int)),
        ensures
            self.cache()[cache_key(font, size_pt as int)].in_range(),
    {
    }

    /// Forgets every measurement.
    pub fn clear_cache(&mut self)
        ensures
            final(self).cache() == Map::<u64, FontMetrics>::empty(),
            final(self).wf(),
    {
        self.metrics_cache.clear();
    }
}

/// Where a line of text sits on screen, in nanopixels.
#[derive(Debug, Clone, Copy, PartialEq, Eq, Structural)]
pub struct TextPosition {
    pub baseline_x: i64,
    pub baseline_y: i64,
    pub font_metrics: FontMetrics,
}

/// Box taken by a line of text, in nanopixels.
#[derive(Debug, Clone, Copy, PartialEq, Eq, Structural)]
pub struct TextBounds {
    pub x: i64,
    pub y: i64,
    pub width: i128,
    pub height: i64,
}

impl TextPosition {
    pub open spec fn wf(self) -> bool {
        &&& self.font_metrics.in_range()
        &&& -MAX_SCREEN_NANOPX <= self.baseline_y <= MAX_SCREEN_NANOPX
    }

    /// The box of `text`: from the baseline's left end up by the ascent, as wide as
    /// the estimated advance and as tall as a line.
    pub fn calculate_text_bounds(&self, text: &str) -> (r: TextBounds)
        requires
            self.wf(),
        ensures
            r.x == self.baseline_x,
            r.y == self.baseline_y - self.font_metrics.ascent_px,
            r.width == text_width_spec(self.font_metrics, text.len() as int),
            r.height == self.font_metrics.line_height_px,
    {
        let width = estimate_text_width(&self.font_metrics, text);
        TextBounds {
            x: self.baseline_x,
            y: self.baseline_y - self.font_metrics.ascent_px,
            width,
            height: self.font_metrics.line_height_px,
        }
    }
}

/// Estimated advance of `text`, in nanopixels.
pub fn estimate_text_width(metrics: &FontMetrics, text: &str) -> (r: i128)
    requires
        metrics.in_range(),
    ensures
        r == text_width_spec(*metrics, text.len() as int),
{
    let len = text.len() as i128;
    match metrics.char_width_px {
        Some(w) => {
            assert(0 <= len * w <= 0x1_0000_0000_0000_0000 * MAX_GLYPH_EXTENT) by (nonlinear_arith)
                requires
                    0 <= len <= 0x1_0000_0000_0000_0000,
                    0 <= w <= MAX_GLYPH_EXTENT,
            ;
            len * (w as i128)
        },
        None => {
            let s = metrics.font_size_px as i128;
            assert(0 <= len * s <= 0x1_0000_0000_0000_0000 * 8 * MAX_GLYPH_EXTENT) by (nonlinear_arith)
                requires
                    0 <= len <= 0x1_0000_0000_0000_0000,
                    0 <= s <= 8 * MAX_GLYPH_EXTENT,
            ;
            len * s * 3 / 5
        },
    }
}

/// Measuring a font and size a second time returns the metrics of the first
/// measurement whatever the second reading holds, leaves the cache as it is, and asks
/// for no surface measurement.
pub proof fn lemma_measure_font_cached(
    cache: Map<u64, FontMetrics>,
    font: StandardFont,
    size_pt: u32,
    first: Option<SurfaceReading>,
    first_time: u64,
    second: Option<SurfaceReading>,
    second_time: u64,
)
    requires
        measure_result(cache, font, size_pt, first, first_time) is Some,
    ensures
        ({
            let after = measure_cache(cache, font, size_pt, first, first_time);
            &&& after.contains_key(cache_key(font, size_pt as int))
            &&& measure_result(after, font, size_pt, second, second_time) == measure_result(
                cache,
                font,
                size_pt,
                first,
                first_time,
            )
            &&& measure_cache(after, font, size_pt, second, second_time) == after
        }),
{
}

} // verus!
