//! Request/response bridge to an out-of-process vision worker: correlation ids, the
//! table of pending callbacks, decoding of worker results, and folding pixel
//! corrections back into page coordinates.
use vstd::prelude::*;
use std::collections::HashMap;
use crate::coordinates::{
    px_to_mm_spec,
    CoordinateSystem,
    DeviceCalibration,
    PhysicalCoord,
};
use crate::font_metrics::MAX_SCREEN_NANOPX;

verus! {

broadcast use vstd::std_specs::hash::group_hash_axioms;

/// Correlation id of the liveness probe sent when the worker starts.
pub const PING_ID: u32 = 0;

/// Pixel offset that template matching suggests for a field.
#[derive(Debug, Clone, Copy, PartialEq, Eq, Structural)]
pub struct AlignmentCorrection {
    /// Nanopixels.
    pub x: i64,
    /// Nanopixels.
    pub y: i64,
    /// Parts per million.
    pub confidence: u64,
    pub applied: bool,
}

impl AlignmentCorrection {
    pub open spec fn in_range(self) -> bool {
        -MAX_SCREEN_NANOPX <= self.x <= MAX_SCREEN_NANOPX && -MAX_SCREEN_NANOPX <= self.y
            <= MAX_SCREEN_NANOPX
    }
}

/// A field outline found by edge detection.
#[derive(Debug, Clone, Copy, PartialEq, Eq, Structural)]
pub struct FieldBoundary {
    /// Nanopixels.
    pub x: i64,
    /// Nanopixels.
    pub y: i64,
    /// Nanopixels.
    pub width: i64,
    /// Nanopixels.
    pub height: i64,
    /// Square nanopixels.
    pub area: i128,
    /// Width over height, in parts per million.
    pub aspect_ratio: u64,
}

/// Structural similarity of two images.
#[derive(Debug, Clone)]
pub struct QualityAssessment {
    /// Parts per million.
    pub ssim: u64,
    pub quality: String,
}

/// Work for the vision worker; `I` is the image type of the host.
#[derive(Debug, Clone)]
pub enum CVTask<I> {
    TemplateMatch {
        field_id: String,
        image_data: I,
        template_data: I,
        /// Parts per million.
        threshold: u64,
    },
    CalculateSSIM { image_data1: I, image_data2: I },
    DetectFields {
        image_data: I,
        /// Thousandths.
        threshold1: u64,
        /// Thousandths.
        threshold2: u64,
    },
}

/// A request as it goes to the worker.
#[derive(Debug, Clone)]
pub struct OutboundMessage<I> {
    pub id: u32,
    pub task: CVTask<I>,
}

impl<I> OutboundMessage<I> {
    /// The wire name of the request kind.
    pub fn message_type(&self) -> (r: &'static str)
        ensures
            self.task is TemplateMatch ==> r@ == "template-match"@,
            self.task is CalculateSSIM ==> r@ == "calculate-ssim"@,
            self.task is DetectFields ==> r@ == "detect-fields"@,
    {
        match &self.task {
            CVTask::TemplateMatch { .. } => "template-match",
            CVTask::CalculateSSIM { .. } => "calculate-ssim",
            CVTask::DetectFields { .. } => "detect-fields",
        }
    }
}

/// Outcome of one worker request.
#[derive(Debug, Clone)]
pub enum CVResult {
    TemplateMatch { field_id: String, correction: AlignmentCorrection },
    SSIM { assessment: QualityAssessment },
    FieldDetection { fields: Vec<FieldBoundary> },
    Error { message: String },
}

/// The correction object of a result as read off the wire; absent members are none.
#[derive(Debug, Clone, Copy, PartialEq, Eq, Structural)]
pub struct CorrectionFields {
    pub x: Option<i64>,
    pub y: Option<i64>,
    pub confidence: Option<u64>,
    pub applied: Option<bool>,
}

/// One element of a result's field list, as read off the wire.
#[derive(Debug, Clone, Copy, PartialEq, Eq, Structural)]
pub struct BoundaryFields {
    pub x: Option<i64>,
    pub y: Option<i64>,
    pub width: Option<i64>,
    pub height: Option<i64>,
    pub area: Option<i128>,
    pub aspect_ratio: Option<u64>,
}

/// The members of a result payload that decoding looks at.
#[derive(Debug, Clone)]
pub struct ResultPayload {
    /// `fieldId`, when it is a string.
    pub field_id: Option<String>,
    /// `correction`, when it is an object.
    pub correction: Option<CorrectionFields>,
    /// `ssim`, when it is a number.
    pub ssim: Option<u64>,
    /// `quality`, when it is a string.
    pub quality: Option<String>,
    /// `fields`, when it is an array: one entry per element, none for an element
    /// that is not an object.
    pub fields: Option<Vec<Option<BoundaryFields>>>,
}

/// A message from the worker.
#[derive(Debug, Clone)]
pub enum WorkerMessage {
    /// `id` is none when the message carries no numeric id.
    Result { id: Option<u32>, data: ResultPayload },
    Error { id: Option<u32>, error: Option<String> },
    Ready,
    Other,
}

#[derive(Debug, Clone, Copy, PartialEq, Eq, Structural)]
pub enum CVError {
    /// No worker channel was established.
    WorkerUnavailable,
    /// Every correlation id has been handed out.
    IdsExhausted,
}

pub open spec fn or_zero_i64(v: Option<i64>) -> i64 {
    match v {
        Some(x) => x,
        None => 0,
    }
}

pub open spec fn correction_from(c: CorrectionFields) -> AlignmentCorrection {
    AlignmentCorrection {
        x: or_zero_i64(c.x),
        y: or_zero_i64(c.y),
        confidence: match c.confidence {
            Some(v) => v,
            None => 0,
        },
        applied: match c.applied {
            Some(b) => b,
            None => false,
        },
    }
}

pub open spec fn boundary_from(b: BoundaryFields) -> FieldBoundary {
    FieldBoundary {
        x: or_zero_i64(b.x),
        y: or_zero_i64(b.y),
        width: or_zero_i64(b.width),
        height: or_zero_i64(b.height),
        area: match b.area {
            Some(v) => v,
            None => 0,
        },
        aspect_ratio: match b.aspect_ratio {
            Some(v) => v,
            None => 0,
        },
    }
}

/// The boundaries of the object elements of a field list, in order.
pub open spec fn boundaries_from(items: Seq<Option<BoundaryFields>>) -> Seq<FieldBoundary>
    decreases items.len(),
{
    if items.len() == 0 {
        Seq::empty()
    } else {
        let rest = boundaries_from(items.drop_last());
        match items.last() {
            Some(b) => rest.push(boundary_from(b)),
            None => rest,
        }
    }
}

/// A payload has the template-match shape: a field id together with a correction.
pub open spec fn is_template_match(p: ResultPayload) -> bool {
    p.field_id is Some && p.correction is Some
}

/// Decoding yields nothing: the payload has no recognised shape.
pub open spec fn decode_fails(p: ResultPayload) -> bool {
    !is_template_match(p) && p.ssim is None && p.fields is None
}

/// What a payload decodes to, judged by its shape: a field id with a correction is a
/// template match, else an SSIM score is a quality assessment, else a field list is a
/// detection.
pub open spec fn decodes_to(p: ResultPayload, r: CVResult) -> bool {
    if is_template_match(p) {
        r == CVResult::TemplateMatch {
            field_id: p.field_id.unwrap(),
            correction: correction_from(p.correction.unwrap()),
        }
    } else if p.ssim is Some {
        &&& r matches CVResult::SSIM { assessment }
        &&& assessment.ssim == p.ssim.unwrap()
        &&& match p.quality {
            Some(q) => assessment.quality == q,
            None => assessment.quality@ == "unknown"@,
        }
    } else {
        &&& p.fields is Some
        &&& r matches CVResult::FieldDetection { fields }
        &&& fields@ == boundaries_from(p.fields.unwrap()@)
    }
}

/// The correlation id a message answers, if it answers one.
pub open spec fn delivery_target(m: WorkerMessage) -> Option<u32> {
    match m {
        WorkerMessage::Result { id, .. } => id,
        WorkerMessage::Error { id, .. } => id,
        _ => None,
    }
}

/// The callback a message takes out of the pending table.
pub open spec fn delivered_callback<C>(pending: Map<u32, C>, m: WorkerMessage) -> Option<C> {
    match delivery_target(m) {
        Some(id) => if pending.contains_key(id) {
            Some(pending[id])
        } else {
            None
        },
        None => None,
    }
}

/// The pending table after a message: the answered id is gone.
pub open spec fn deliver_pending<C>(pending: Map<u32, C>, m: WorkerMessage) -> Map<u32, C> {
    match delivery_target(m) {
        Some(id) => pending.remove(id),
        None => pending,
    }
}

/// The pending table after a submission under the next id.
pub open spec fn submit_pending<C>(pending: Map<u32, C>, counter: u32, callback: C) -> Map<
    u32,
    C,
> {
    pending.insert((counter + 1) as u32, callback)
}

/// Every pending id was handed out already.
pub open spec fn ids_issued<C>(pending: Map<u32, C>, counter: u32) -> bool {
    forall|k: u32| #[trigger] pending.contains_key(k) ==> 1 <= k <= counter
}

pub open spec fn corrected_position(
    original: PhysicalCoord,
    correction: AlignmentCorrection,
    active: Option<DeviceCalibration>,
) -> Option<PhysicalCoord> {
    if !correction.applied {
        Some(original)
    } else {
        match active {
            None => None,
            Some(c) => Some(
                PhysicalCoord {
                    x: (original.x + px_to_mm_spec(c.scale_factor as int, correction.x as int))
                        as i64,
                    y: (original.y + px_to_mm_spec(c.scale_factor as int, correction.y as int))
                        as i64,
                },
            ),
        }
    }
}

/// Hands requests to the vision worker and routes its answers to their callbacks.
pub struct CVAlignmentSystem<C> {
    worker_available: bool,
    pending_tasks: HashMap<u32, C>,
    task_counter: u32,
    coordinate_system: Option<CoordinateSystem>,
}

impl<C> CVAlignmentSystem<C> {
    pub closed spec fn available(&self) -> bool {
        self.worker_available
    }

    pub closed spec fn pending(&self) -> Map<u32, C> {
        self.pending_tasks@
    }

    /// The last correlation id handed out.
    pub closed spec fn counter(&self) -> u32 {
        self.task_counter
    }

    pub closed spec fn active(&self) -> Option<DeviceCalibration> {
        match self.coordinate_system {
            Some(cs) => Some(cs@),
            None => None,
        }
    }

    pub closed spec fn wf(&self) -> bool {
        ids_issued(self.pending_tasks@, self.task_counter)
    }

    /// A bridge over a worker channel that was or was not established.
    pub fn new(worker_available: bool) -> (r: Self)
        ensures
            r.wf(),
            r.available() == worker_available,
            r.pending() == Map::<u32, C>::empty(),
            r.counter() == 0,
            r.active() is None,
    {
        CVAlignmentSystem {
            worker_available,
            pending_tasks: HashMap::new(),
            task_counter: 0,
            coordinate_system: None,
        }
    }

    pub fn set_coordinate_system(&mut self, coord_system: CoordinateSystem)
        ensures
            final(self).active() == Some(coord_system@),
            final(self).available() == old(self).available(),
            final(self).pending() == old(self).pending(),
            final(self).counter() == old(self).counter(),
            final(self).wf() == old(self).wf(),
    {
        self.coordinate_system = Some(coord_system);
    }

    pub fn is_available(&self) -> (r: bool)
        ensures
            r == self.available(),
    {
        self.worker_available
    }

    /// Whether a request with correlation id `id` still awaits its answer.
    pub fn is_pending(&self, id: u32) -> (r: bool)
        ensures
            r == self.pending().contains_key(id),
    {
        self.pending_tasks.contains_key(&id)
    }

    /// Registers `callback` under the next correlation id and returns the request to
    /// send. Fails, changing nothing, when there is no worker or no id left.
    fn submit<I>(&mut self, task: CVTask<I>, callback: C) -> (r: Result<OutboundMessage<I>, CVError>)
        requires
            old(self).wf(),
        ensures
            final(self).wf(),
            final(self).available() == old(self).available(),
            final(self).active() == old(self).active(),
            !old(self).available() ==> r == Err::<OutboundMessage<I>, _>(
                CVError::WorkerUnavailable,
            ),
            old(self).available() && old(self).counter() == u32::MAX ==> r == Err::<
                OutboundMessage<I>,
                _,
            >(CVError::IdsExhausted),
            old(self).available() && old(self).counter() < u32::MAX ==> r is Ok,
            r is Err ==> final(self).pending() == old(self).pending() && final(self).counter()
                == old(self).counter(),
            r matches Ok(m) ==> {
                &&& m.id == old(self).counter() + 1
                &&& m.task == task
                &&& !old(self).pending().contains_key(m.id)
                &&& final(self).counter() == m.id
                &&& final(self).pending() == submit_pending(
                    old(self).pending(),
                    old(self).counter(),
                    callback,
                )
            },
    {
        if !self.worker_available {
            return Err(CVError::WorkerUnavailable);
        }
        if self.task_counter == u32::MAX {
            return Err(CVError::IdsExhausted);
        }
        let task_id = self.task_counter + 1;
        self.task_counter = task_id;
        self.pending_tasks.insert(task_id, callback);
        Ok(OutboundMessage { id: task_id, task })
    }

    /// Asks the worker to locate `template_data` in `image_data` for `field_id`.
    pub fn process_template_matching<I>(
        &mut self,
        field_id: String,
        image_data: I,
        template_data: I,
        threshold: u64,
        callback: C,
    ) -> (r: Result<OutboundMessage<I>, CVError>)
        requires
            old(self).wf(),
        ensures
            final(self).wf(),
            final(self).available() == old(self).available(),
            final(self).active() == old(self).active(),
            !old(self).available() ==> r == Err::<OutboundMessage<I>, _>(
                CVError::WorkerUnavailable,
            ),
            old(self).available() && old(self).counter() == u32::MAX ==> r == Err::<
                OutboundMessage<I>,
                _,
            >(CVError::IdsExhausted),
            old(self).available() && old(self).counter() < u32::MAX ==> r is Ok,
            r is Err ==> final(self).pending() == old(self).pending() && final(self).counter()
                == old(self).counter(),
            r matches Ok(m) ==> {
                &&& m.id == old(self).counter() + 1
                &&& m.task == (CVTask::TemplateMatch {
                    field_id,
                    image_data,
                    template_data,
                    threshold,
                })
                &&& !old(self).pending().contains_key(m.id)
                &&& final(self).counter() == m.id
                &&& final(self).pending() == submit_pending(
                    old(self).pending(),
                    old(self).counter(),
                    callback,
                )
            },
    {
        self.submit(CVTask::TemplateMatch { field_id, image_data, template_data, threshold }, callback)
    }

    /// Asks the worker for the structural similarity of two images.
    pub fn calculate_ssim<I>(&mut self, image_data1: I, image_data2: I, callback: C) -> (r: Result<
        OutboundMessage<I>,
        CVError,
    >)
        requires
            old(self).wf(),
        ensures
            final(self).wf(),
            final(self).available() == old(self).available(),
            final(self).active() == old(self).active(),
            !old(self).available() ==> r == Err::<OutboundMessage<I>, _>(
                CVError::WorkerUnavailable,
            ),
            old(self).available() && old(self).counter() == u32::MAX ==> r == Err::<
                OutboundMessage<I>,
                _,
            >(CVError::IdsExhausted),
            old(self).available() && old(self).counter() < u32::MAX ==> r is Ok,
            r is Err ==> final(self).pending() == old(self).pending() && final(self).counter()
                == old(self).counter(),
            r matches Ok(m) ==> {
                &&& m.id == old(self).counter() + 1
                &&& m.task == (CVTask::CalculateSSIM { image_data1, image_data2 })
                &&& !old(self).pending().contains_key(m.id)
                &&& final(self).counter() == m.id
                &&& final(self).pending() == submit_pending(
                    old(self).pending(),
                    old(self).counter(),
                    callback,
                )
            },
    {
        self.submit(CVTask::CalculateSSIM { image_data1, image_data2 }, callback)
    }

    /// Asks the worker for field outlines, with the edge detector's two thresholds.
    pub fn detect_field_boundaries<I>(
        &mut self,
        image_data: I,
        threshold1: u64,
        threshold2: u64,
        callback: C,
    ) -> (r: Result<OutboundMessage<I>, CVError>)
        requires
            old(self).wf(),
        ensures
            final(self).wf(),
            final(self).available() == old(self).available(),
            final(self).active() == old(self).active(),
            !old(self).available() ==> r == Err::<OutboundMessage<I>, _>(
                CVError::WorkerUnavailable,
            ),
            old(self).available() && old(self).counter() == u32::MAX ==> r == Err::<
                OutboundMessage<I>,
                _,
            >(CVError::IdsExhausted),
            old(self).available() && old(self).counter() < u32::MAX ==> r is Ok,
            r is Err ==> final(self).pending() == old(self).pending() && final(self).counter()
                == old(self).counter(),
            r matches Ok(m) ==> {
                &&& m.id == old(self).counter() + 1
                &&& m.task == (CVTask::DetectFields { image_data, threshold1, threshold2 })
                &&& !old(self).pending().contains_key(m.id)
                &&& final(self).counter() == m.id
                &&& final(self).pending() == submit_pending(
                    old(self).pending(),
                    old(self).counter(),
                    callback,
                )
            },
    {
        self.submit(CVTask::DetectFields { image_data, threshold1, threshold2 }, callback)
    }

    /// Moves `original_position` by a correction given in pixels, converted with the
    /// active scale. An unapplied correction leaves the position as it is; an applied one
    /// needs a coordinate system.
    pub fn apply_alignment_correction(
        &self,
        original_position: PhysicalCoord,
        correction: &AlignmentCorrection,
    ) -> (r: Option<PhysicalCoord>)
        requires
            correction.applied ==> original_position.in_range() && correction.in_range(),
        ensures
            r == corrected_position(original_position, *correction, self.active()),
            !correction.applied ==> r == Some(original_position),
            correction.applied ==> match self.active() {
                None => r is None,
                Some(c) => {
                    &&& c.wf()
                    &&& r matches Some(p)
                    &&& p.x == original_position.x + px_to_mm_spec(
                        c.scale_factor as int,
                        correction.x as int,
                    )
                    &&& p.y == original_position.y + px_to_mm_spec(
                        c.scale_factor as int,
                        correction.y as int,
                    )
                },
            },
    {
        if !correction.applied {
            return Some(original_position);
        }
        let coord_system = match &self.coordinate_system {
            Some(cs) => cs,
            None => {
                return None;
            },
        };
        let correction_x_mm = coord_system.px_to_mm(correction.x);
        let correction_y_mm = coord_system.px_to_mm(correction.y);
        let scale = coord_system.get_calibration().scale_factor;
        proof {
            lemma_floor_div_bounded(correction.x as int, scale as int);
            lemma_floor_div_bounded(correction.y as int, scale as int);
        }
        Some(
            PhysicalCoord {
                x: original_position.x + correction_x_mm,
                y: original_position.y + correction_y_mm,
            },
        )
    }

    /// Routes a worker message. A result or error for a pending id takes that id's
    /// callback out of the table and returns it with the decoded result or the error;
    /// a result that does not decode drops the callback. Anything else changes nothing.
    pub fn handle_worker_message(&mut self, message: WorkerMessage) -> (r: Option<(C, CVResult)>)
        requires
            old(self).wf(),
        ensures
            final(self).wf(),
            final(self).available() == old(self).available(),
            final(self).active() == old(self).active(),
            final(self).counter() == old(self).counter(),
            final(self).pending() == deliver_pending(old(self).pending(), message),
            delivered_callback(old(self).pending(), message) is None ==> r is None,
            delivered_callback(old(self).pending(), message) matches Some(cb) ==> match message {
                WorkerMessage::Result { data, .. } => if decode_fails(data) {
                    r is None
                } else {
                    r matches Some((c, res)) && c == cb && decodes_to(data, res)
                },
                WorkerMessage::Error { error, .. } => r matches Some((c, res)) && c == cb && (
                res matches CVResult::Error { message: text } && match error {
                    Some(e) => text == e,
                    None => text@ == "Unknown error"@,
                }),
                _ => false,
            },
    {
        match message {
            WorkerMessage::Result { id, data } => {
                let task_id = match id {
                    Some(i) => i,
                    None => {
                        return None;
                    },
                };
                match self.pending_tasks.remove(&task_id) {
                    Some(callback) => match parse_worker_result(data) {
                        Some(result) => Some((callback, result)),
                        None => None,
                    },
                    None => None,
                }
            },
            WorkerMessage::Error { id, error } => {
                let task_id = match id {
                    Some(i) => i,
                    None => {
                        return None;
                    },
                };
                match self.pending_tasks.remove(&task_id) {
                    Some(callback) => {
                        let message = match error {
                            Some(e) => e,
                            None => "Unknown error".to_owned(),
                        };
                        Some((callback, CVResult::Error { message }))
                    },
                    None => None,
                }
            },
            WorkerMessage::Ready => None,
            WorkerMessage::Other => None,
        }
    }
}

proof fn lemma_floor_div_bounded(a: int, d: int)
    requires
        -MAX_SCREEN_NANOPX <= a <= MAX_SCREEN_NANOPX,
        d >= 1,
    ensures
        -MAX_SCREEN_NANOPX <= a / d <= MAX_SCREEN_NANOPX,
{
    assert(-MAX_SCREEN_NANOPX <= a / d <= MAX_SCREEN_NANOPX) by (nonlinear_arith)
        requires
            -MAX_SCREEN_NANOPX <= a <= MAX_SCREEN_NANOPX,
            d >= 1,
    {
        vstd::arithmetic::div_mod::lemma_fundamental_div_mod(a, d);
    };
}

/// Decodes a result payload by its shape (see `decodes_to`).
pub fn parse_worker_result(data: ResultPayload) -> (r: Option<CVResult>)
    ensures
        r is None <==> decode_fails(data),
        r matches Some(res) ==> decodes_to(data, res),
{
    let ResultPayload { field_id, correction, ssim, quality, fields } = data;
    match (field_id, correction) {
        (Some(fid), Some(c)) => {
            return Some(
                CVResult::TemplateMatch { field_id: fid, correction: correction_from_fields(c) },
            );
        },
        _ => {},
    }
    match ssim {
        Some(score) => {
            let quality = match quality {
                Some(q) => q,
                None => "unknown".to_owned(),
            };
            return Some(CVResult::SSIM { assessment: QualityAssessment { ssim: score, quality } });
        },
        None => {},
    }
    match fields {
        Some(items) => Some(CVResult::FieldDetection { fields: boundaries_from_items(&items) }),
        None => None,
    }
}

fn correction_from_fields(c: CorrectionFields) -> (r: AlignmentCorrection)
    ensures
        r == correction_from(c),
{
    AlignmentCorrection {
        x: match c.x {
            Some(v) => v,
            None => 0,
        },
        y: match c.y {
            Some(v) => v,
            None => 0,
        },
        confidence: match c.confidence {
            Some(v) => v,
            None => 0,
        },
        applied: match c.applied {
            Some(b) => b,
            None => false,
        },
    }
}

fn boundary_from_fields(b: BoundaryFields) -> (r: FieldBoundary)
    ensures
        r == boundary_from(b),
{
    FieldBoundary {
        x: match b.x {
            Some(v) => v,
            None => 0,
        },
        y: match b.y {
            Some(v) => v,
            None => 0,
        },
        width: match b.width {
            Some(v) => v,
            None => 0,
        },
        height: match b.height {
            Some(v) => v,
            None => 0,
        },
        area: match b.area {
            Some(v) => v,
            None => 0,
        },
        aspect_ratio: match b.aspect_ratio {
            Some(v) => v,
            None => 0,
        },
    }
}

fn boundaries_from_items(items: &Vec<Option<BoundaryFields>>) -> (r: Vec<FieldBoundary>)
    ensures
        r@ == boundaries_from(items@),
{
    let mut out: Vec<FieldBoundary> = Vec::new();
    let mut i: usize = 0;
    while i < items.len()
        invariant
            i <= items.len(),
            out@ == boundaries_from(items@.subrange(0, i as int)),
        decreases items.len() - i,
    {
        proof {
            let prefix = items@.subrange(0, i as int + 1);
            assert(prefix.drop_last() == items@.subrange(0, i as int));
            assert(prefix.last() == items@[i as int]);
        }
        match items[i] {
            Some(b) => {
                out.push(boundary_from_fields(b));
            },
            None => {},
        }
        i = i + 1;
    }
    assert(items@.subrange(0, items@.len() as int) == items@);
    out
}

/// A submitted request is answered once: the first message for its id hands back its
/// callback and leaves the table as it was before the submission, and a second message
/// for the same id finds nothing.
pub proof fn lemma_callback_delivered_once<C>(
    pending: Map<u32, C>,
    counter: u32,
    callback: C,
    first: WorkerMessage,
    second: WorkerMessage,
)
    requires
        ids_issued(pending, counter),
        counter < u32::MAX,
        delivery_target(first) == Some((counter + 1) as u32),
        delivery_target(second) == Some((counter + 1) as u32),
    ensures
        ({
            let submitted = submit_pending(pending, counter, callback);
            let answered = deliver_pending(submitted, first);
            &&& delivered_callback(submitted, first) == Some(callback)
            &&& answered == pending
            &&& !answered.contains_key((counter + 1) as u32)
            &&& delivered_callback(answered, second) is None
            &&& deliver_pending(answered, second) == answered
        }),
{
    let id = (counter + 1) as u32;
    let submitted = submit_pending(pending, counter, callback);
    assert(!pending.contains_key(id));
    assert(submitted.remove(id) =~= pending);
}

/// A message for an id that is not pending invokes nothing and leaves the table as it is.
pub proof fn lemma_unknown_id_ignored<C>(pending: Map<u32, C>, message: WorkerMessage)
    requires
        delivery_target(message) matches Some(id) ==> !pending.contains_key(id),
    ensures
        delivered_callback(pending, message) is None,
        deliver_pending(pending, message) == pending,
{
    if let Some(id) = delivery_target(message) {
        assert(pending.remove(id) =~= pending);
    }
}

} // verus!
