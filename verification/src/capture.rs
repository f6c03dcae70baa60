//! Pointer capture: turning pointer events into committed strokes.
//!
//! A [`CaptureSession`] holds the stroke in progress. Pointer events are fed
//! to it as plain values (button, pointer type, canvas-local position and
//! time, as binary64 bits); it decides whether a stroke starts, grows, is
//! committed to the document or is discarded, and tells the caller what to
//! draw.
use vstd::prelude::*;
use crate::document::{Document, Point, PointerType, Stroke, pointer_type_of, same_but_strokes};
use crate::timestamp::Timestamp;

verus! {

/// Author identifier written into every captured stroke.
pub const LOCAL_AUTHOR: &'static str = "local-user";

/// Default stroke color.
pub const DEFAULT_COLOR: &'static str = "#000000";

/// Default stroke width, 2 CSS pixels, as binary64 bits.
pub const DEFAULT_WIDTH: u64 = 0x4000_0000_0000_0000;

/// Default tool.
pub const DEFAULT_TOOL: &'static str = "pen";

/// Errors raised when wiring up capture.
#[derive(Debug, PartialEq, Eq)]
pub enum CaptureError {
    NoWindow,
    NoDocument,
    ElementNotFound(&'static str),
    NotACanvas(&'static str),
    ListenerAttachFailed(&'static str),
}

/// The user-facing text of a capture error.
pub open spec fn capture_error_text(e: CaptureError) -> Seq<char> {
    match e {
        CaptureError::NoWindow => "no `window` available"@,
        CaptureError::NoDocument => "no `document` available"@,
        CaptureError::ElementNotFound(id) => "element `#"@ + id@ + "` not found"@,
        CaptureError::NotACanvas(id) => "element `#"@ + id@ + "` is not a <canvas>"@,
        CaptureError::ListenerAttachFailed(event) => "failed to attach event listener `"@ + event@ + "`"@,
    }
}

impl CaptureError {
    /// The user-facing text of this error.
    pub fn message(&self) -> (res: String)
        ensures
            res@ == capture_error_text(*self),
    {
        match self {
            CaptureError::NoWindow => String::from_str("no `window` available"),
            CaptureError::NoDocument => String::from_str("no `document` available"),
            CaptureError::ElementNotFound(id) => {
                let mut out = String::from_str("element `#");
                out.append(id);
                out.append("` not found");
                out
            },
            CaptureError::NotACanvas(id) => {
                let mut out = String::from_str("element `#");
                out.append(id);
                out.append("` is not a <canvas>");
                out
            },
            CaptureError::ListenerAttachFailed(event) => {
                let mut out = String::from_str("failed to attach event listener `");
                out.append(event);
                out.append("`");
                out
            },
        }
    }
}

/// How a stroke in progress ends.
#[derive(Clone, Copy, Debug, PartialEq, Eq)]
pub enum StrokeEnd {
    /// Pointer lifted or left the surface: keep the stroke if it has a segment.
    Commit,
    /// The pointer was cancelled: drop the stroke.
    Cancel,
}

/// What finishing a stroke did, so the caller can update the canvases.
#[derive(Clone, Copy, Debug, PartialEq, Eq)]
pub enum FinishOutcome {
    /// No stroke was in progress; nothing to draw.
    Idle,
    /// The stroke was dropped; the live canvas is to be cleared.
    Discarded,
    /// The stroke was appended to the document; it is to be drawn on the
    /// committed canvas and the live canvas cleared.
    Committed,
}

/// The stroke being drawn, its most recent point, and the `performance.now()`
/// reading (binary64 bits) when it started.
#[derive(Debug)]
pub struct InProgress {
    pub stroke: Stroke,
    pub last: Point,
    pub started_perf: u64,
}

/// `s` is a freshly started stroke with id `id`, the default metadata, the
/// pointer type named `pointer`, and the single point `first`.
pub open spec fn fresh_stroke(s: Stroke, id: u32, pointer: Seq<char>, first: Point) -> bool {
    &&& s.id == id
    &&& s.author_id@ == LOCAL_AUTHOR@
    &&& s.tool@ == DEFAULT_TOOL@
    &&& s.color@ == DEFAULT_COLOR@
    &&& s.width == DEFAULT_WIDTH
    &&& s.pointer_type == pointer_type_of(pointer)
    &&& s.points@ == seq![first]
}

/// `b` is `a` with the point `p` appended.
pub open spec fn extended(a: Stroke, b: Stroke, p: Point) -> bool {
    &&& b.id == a.id
    &&& b.author_id == a.author_id
    &&& b.tool == a.tool
    &&& b.color == a.color
    &&& b.width == a.width
    &&& b.started_at == a.started_at
    &&& b.pointer_type == a.pointer_type
    &&& b.points@ == a.points@.push(p)
}

/// Pointer move to `next` from capture state `before` to `after`, answering `prev`.
pub open spec fn move_post(
    before: Option<InProgress>,
    after: Option<InProgress>,
    next: Point,
    prev: Option<Point>,
) -> bool {
    match before {
        None => prev is None && after is None,
        Some(p) => {
            &&& prev == Some(p.last)
            &&& after matches Some(q) && {
                &&& extended(p.stroke, q.stroke, next)
                &&& q.last == next
                &&& q.started_perf == p.started_perf
            }
        },
    }
}

/// Finishing with `end` from capture state `before`, taking the document
/// from `doc_before` to `doc_after` and answering `res`.
pub open spec fn finish_post(
    before: Option<InProgress>,
    end: StrokeEnd,
    doc_before: Document,
    doc_after: Document,
    res: FinishOutcome,
) -> bool {
    match before {
        None => res == FinishOutcome::Idle && doc_after == doc_before,
        Some(p) => if end == StrokeEnd::Commit && p.stroke.points@.len() >= 2 {
            &&& res == FinishOutcome::Committed
            &&& doc_after.strokes@ == doc_before.strokes@.push(p.stroke)
            &&& same_but_strokes(doc_after, doc_before)
        } else {
            res == FinishOutcome::Discarded && doc_after == doc_before
        },
    }
}

/// Capture state: the stroke in progress, if any.
#[derive(Debug)]
pub struct CaptureSession {
    in_progress: Option<InProgress>,
}

impl View for CaptureSession {
    type V = Option<InProgress>;

    closed spec fn view(&self) -> Option<InProgress> {
        self.in_progress
    }
}

impl CaptureSession {
    /// A session with no stroke in progress.
    pub fn new() -> (res: CaptureSession)
        ensures
            res@ is None,
    {
        CaptureSession { in_progress: None }
    }

    /// The stroke in progress, if any.
    pub fn live_stroke(&self) -> (res: Option<&Stroke>)
        ensures
            match self@ {
                Some(p) => res == Some(&p.stroke),
                None => res is None,
            },
    {
        match &self.in_progress {
            Some(p) => Some(&p.stroke),
            None => None,
        }
    }

    /// Pointer down at canvas point (`x`, `y`) with pointer `button`, pointer
    /// type `pointer_type`, at `performance.now()` reading `now`.
    ///
    /// Only the primary button (`0`) starts a stroke: it takes a fresh id from
    /// the document and replaces any stroke in progress. Returns whether a
    /// stroke started. The stroke's start time is `started_at`.
    pub fn pointer_down_at(
        &mut self,
        document: &mut Document,
        button: i16,
        pointer_type: &str,
        x: u64,
        y: u64,
        now: u64,
        started_at: Timestamp,
    ) -> (started: bool)
        requires
            button == 0 ==> old(document).next_id < u32::MAX,
        ensures
            started == (button == 0),
            !started ==> final(self)@ == old(self)@ && *final(document) == *old(document),
            started ==> {
                &&& final(document).next_id == old(document).next_id + 1
                &&& same_but_strokes(
                    Document { next_id: old(document).next_id, ..*final(document) },
                    *old(document),
                )
                &&& final(document).strokes == old(document).strokes
                &&& final(self)@ matches Some(p) && {
                    &&& fresh_stroke(
                        p.stroke,
                        old(document).next_id,
                        pointer_type@,
                        Point { x, y, t: 0 },
                    )
                    &&& p.last == Point { x, y, t: 0 }
                    &&& p.started_perf == now
                    &&& p.stroke.started_at == started_at
                }
            },
    {
        if button != 0 {
            return false;
        }
        let point = Point { x, y, t: 0 };
        let id = document.allocate_id();
        let mut points = Vec::new();
        points.push(point);
        let stroke = Stroke {
            id,
            author_id: String::from_str(LOCAL_AUTHOR),
            tool: String::from_str(DEFAULT_TOOL),
            color: String::from_str(DEFAULT_COLOR),
            width: DEFAULT_WIDTH,
            started_at,
            pointer_type: PointerType::from_browser(pointer_type),
            points,
        };
        proof {
            assert(stroke.points@ =~= seq![point]);
        }
        self.in_progress = Some(InProgress { stroke, last: point, started_perf: now });
        true
    }

    /// Pointer down at canvas point (`x`, `y`) with pointer `button`, pointer
    /// type `pointer_type`, at `performance.now()` reading `now`.
    ///
    /// Only the primary button (`0`) starts a stroke: it takes a fresh id from
    /// the document and replaces any stroke in progress. Returns whether a
    /// stroke started. The stroke starts now.
    pub fn pointer_down(
        &mut self,
        document: &mut Document,
        button: i16,
        pointer_type: &str,
        x: u64,
        y: u64,
        now: u64,
    ) -> (started: bool)
        requires
            button == 0 ==> old(document).next_id < u32::MAX,
        ensures
            started == (button == 0),
            !started ==> final(self)@ == old(self)@ && *final(document) == *old(document),
            started ==> {
                &&& final(document).next_id == old(document).next_id + 1
                &&& same_but_strokes(
                    Document { next_id: old(document).next_id, ..*final(document) },
                    *old(document),
                )
                &&& final(document).strokes == old(document).strokes
                &&& final(self)@ matches Some(p) && {
                    &&& fresh_stroke(
                        p.stroke,
                        old(document).next_id,
                        pointer_type@,
                        Point { x, y, t: 0 },
                    )
                    &&& p.last == Point { x, y, t: 0 }
                    &&& p.started_perf == now
                }
            },
    {
        if button != 0 {
            return false;
        }
        self.pointer_down_at(document, button, pointer_type, x, y, now, Timestamp::now())
    }

    /// The start reading of the stroke in progress, or `fallback` when none is,
    /// so that a move without a stroke computes a zero time offset.
    pub fn started_perf_or(&self, fallback: u64) -> (res: u64)
        ensures
            res == match self@ {
                Some(p) => p.started_perf,
                None => fallback,
            },
    {
        match &self.in_progress {
            Some(p) => p.started_perf,
            None => fallback,
        }
    }

    /// Pointer move to `next`: appends it to the stroke in progress.
    ///
    /// Returns the previous point, so the caller can draw the new segment,
    /// or `None` when no stroke is in progress (and nothing changes).
    pub fn pointer_move(&mut self, next: Point) -> (prev: Option<Point>)
        ensures
            move_post(old(self)@, final(self)@, next, prev),
    {
        match self.in_progress.take() {
            None => None,
            Some(p) => {
                let InProgress { mut stroke, last, started_perf } = p;
                stroke.points.push(next);
                self.in_progress = Some(InProgress { stroke, last: next, started_perf });
                Some(last)
            },
        }
    }

    /// End the stroke in progress.
    ///
    /// A cancelled stroke is dropped. A committed stroke is appended to the
    /// document only when it has at least two points: a click without
    /// movement has no segment to draw and is dropped too. Afterwards no
    /// stroke is in progress.
    pub fn finish_stroke(&mut self, end: StrokeEnd, document: &mut Document) -> (res: FinishOutcome)
        ensures
            final(self)@ is None,
            finish_post(old(self)@, end, *old(document), *final(document), res),
    {
        let taken = self.in_progress.take();
        match taken {
            None => FinishOutcome::Idle,
            Some(p) => {
                match end {
                    StrokeEnd::Cancel => FinishOutcome::Discarded,
                    StrokeEnd::Commit => {
                        if p.stroke.points.len() < 2 {
                            FinishOutcome::Discarded
                        } else {
                            document.strokes.push(p.stroke);
                            FinishOutcome::Committed
                        }
                    },
                }
            },
        }
    }
}

/// A click without movement leaves a one-point stroke, which committing
/// drops: the document is unchanged.
pub proof fn lemma_click_is_dropped(
    started: InProgress,
    doc_before: Document,
    doc_after: Document,
    res: FinishOutcome,
)
    requires
        started.stroke.points@.len() == 1,
        finish_post(Some(started), StrokeEnd::Commit, doc_before, doc_after, res),
    ensures
        res == FinishOutcome::Discarded,
        doc_after == doc_before,
{
}

/// A stroke started at `first` and moved to `next` is committed with exactly
/// those two points, appended after the strokes already in the document.
pub proof fn lemma_drag_is_committed(
    started: InProgress,
    moved: Option<InProgress>,
    first: Point,
    next: Point,
    prev: Option<Point>,
    doc_before: Document,
    doc_after: Document,
    res: FinishOutcome,
)
    requires
        started.stroke.points@ == seq![first],
        started.last == first,
        move_post(Some(started), moved, next, prev),
        finish_post(moved, StrokeEnd::Commit, doc_before, doc_after, res),
    ensures
        prev == Some(first),
        res == FinishOutcome::Committed,
        doc_after.strokes@.len() == doc_before.strokes@.len() + 1,
        doc_after.strokes@.last().points@ == seq![first, next],
        doc_after.strokes@.last().id == started.stroke.id,
        doc_after.strokes@.subrange(0, doc_before.strokes@.len() as int) == doc_before.strokes@,
        same_but_strokes(doc_after, doc_before),
{
    let q = moved.unwrap();
    assert(q.stroke.points@ =~= seq![first, next]);
    assert(doc_after.strokes@.subrange(0, doc_before.strokes@.len() as int) =~= doc_before.strokes@);
}

/// A cancelled stroke never reaches the document, whatever it holds.
pub proof fn lemma_cancel_keeps_document(
    before: Option<InProgress>,
    doc_before: Document,
    doc_after: Document,
    res: FinishOutcome,
)
    requires
        finish_post(before, StrokeEnd::Cancel, doc_before, doc_after, res),
    ensures
        doc_after == doc_before,
        res != FinishOutcome::Committed,
{
}

/// Lifting the pointer keeps every stroke that has a segment, whatever its
/// length: a stroke in progress with `n >= 2` points is committed, and the
/// document's strokes become exactly the old ones followed by that stroke,
/// with every other document field unchanged.
pub proof fn lemma_commit_keeps_every_drawn_stroke(
    started: InProgress,
    doc_before: Document,
    doc_after: Document,
    res: FinishOutcome,
)
    requires
        started.stroke.points@.len() >= 2,
        finish_post(Some(started), StrokeEnd::Commit, doc_before, doc_after, res),
    ensures
        res == FinishOutcome::Committed,
        doc_after.strokes@.len() == doc_before.strokes@.len() + 1,
        doc_after.strokes@.last() == started.stroke,
        doc_after.strokes@.subrange(0, doc_before.strokes@.len() as int) == doc_before.strokes@,
        doc_after.schema == doc_before.schema,
        doc_after.id == doc_before.id,
        doc_after.created_at == doc_before.created_at,
        doc_after.next_id == doc_before.next_id,
        doc_after.canvas == doc_before.canvas,
{
    assert(doc_after.strokes@.subrange(0, doc_before.strokes@.len() as int) =~= doc_before.strokes@);
}

/// A pointer move on a stroke of any length appends exactly the new point:
/// the old points stay, in order, and the new point follows them; the
/// stroke's other fields are kept and the previous last point is answered.
pub proof fn lemma_move_appends_point(
    started: InProgress,
    after: Option<InProgress>,
    next: Point,
    prev: Option<Point>,
)
    requires
        move_post(Some(started), after, next, prev),
    ensures
        prev == Some(started.last),
        after is Some,
        after.unwrap().stroke.points@.len() == started.stroke.points@.len() + 1,
        after.unwrap().stroke.points@.subrange(0, started.stroke.points@.len() as int)
            == started.stroke.points@,
        after.unwrap().stroke.points@.last() == next,
        after.unwrap().last == next,
        after.unwrap().stroke.id == started.stroke.id,
        after.unwrap().stroke.author_id == started.stroke.author_id,
        after.unwrap().stroke.tool == started.stroke.tool,
        after.unwrap().stroke.color == started.stroke.color,
        after.unwrap().stroke.width == started.stroke.width,
        after.unwrap().stroke.started_at == started.stroke.started_at,
        after.unwrap().stroke.pointer_type == started.stroke.pointer_type,
        after.unwrap().started_perf == started.started_perf,
{
    let q = after.unwrap();
    assert(q.stroke.points@.subrange(0, started.stroke.points@.len() as int) =~= started.stroke.points@);
}

/// A run of pointer moves from a stroke in progress: `states[i + 1]` is what
/// the move to `nexts[i]` leaves of `states[i]`. The stroke then holds its
/// first points followed by every moved-to point, in order: after `k` moves
/// from a one-point stroke it holds `k + 1` points.
pub proof fn lemma_moves_append_all_points(
    states: Seq<Option<InProgress>>,
    nexts: Seq<Point>,
    prevs: Seq<Option<Point>>,
)
    requires
        states.len() == nexts.len() + 1,
        prevs.len() == nexts.len(),
        states[0] is Some,
        forall|i: int| 0 <= i < nexts.len() ==> #[trigger] move_post(states[i], states[i + 1], nexts[i], prevs[i]),
    ensures
        states.last() is Some,
        states.last().unwrap().stroke.points@ == states[0].unwrap().stroke.points@ + nexts,
        states.last().unwrap().stroke.id == states[0].unwrap().stroke.id,
    decreases nexts.len(),
{
    if nexts.len() == 0 {
        assert(states[0].unwrap().stroke.points@ + nexts =~= states[0].unwrap().stroke.points@);
    } else {
        let k = nexts.len() - 1;
        let s2 = states.subrange(0, k + 1);
        let n2 = nexts.subrange(0, k);
        let p2 = prevs.subrange(0, k);
        assert forall|i: int| 0 <= i < n2.len() implies #[trigger] move_post(s2[i], s2[i + 1], n2[i], p2[i]) by {
            assert(move_post(states[i], states[i + 1], nexts[i], prevs[i]));
        }
        lemma_moves_append_all_points(s2, n2, p2);
        assert(s2.last() == states[k]);
        assert(move_post(states[k], states[k + 1], nexts[k], prevs[k]));
        lemma_move_appends_point(states[k].unwrap(), states[k + 1], nexts[k], prevs[k]);
        let before = states[k].unwrap().stroke.points@;
        let after = states[k + 1].unwrap().stroke.points@;
        assert(after =~= before.push(nexts[k]));
        assert(n2.push(nexts[k]) =~= nexts);
        assert(states[0].unwrap().stroke.points@ + nexts =~= (states[0].unwrap().stroke.points@ + n2).push(nexts[k]));
    }
}

} // verus!
