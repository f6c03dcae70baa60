//! The two-canvas renderer's state and the part of drawing that needs no
//! coordinates: clearing the live canvas.
//!
//! Drawing strokes takes binary64 coordinates and stays with the
//! application around this library.
use vstd::prelude::*;

verus! {

#[verifier::external_type_specification]
#[verifier::external_body]
pub struct ExCanvasRenderingContext2d(web_sys::CanvasRenderingContext2d);

/// Errors raised when wiring up the renderer.
#[derive(Debug, PartialEq, Eq)]
pub enum RenderError {
    NoWindow,
    NoDocument,
    ElementNotFound(&'static str),
    NotACanvas(&'static str),
    NoContext(&'static str),
}

/// The user-facing text of a render error.
pub open spec fn render_error_text(e: RenderError) -> Seq<char> {
    match e {
        RenderError::NoWindow => "no `window` available"@,
        RenderError::NoDocument => "no `document` available"@,
        RenderError::ElementNotFound(id) => "element `#"@ + id@ + "` not found"@,
        RenderError::NotACanvas(id) => "element `#"@ + id@ + "` is not a <canvas>"@,
        RenderError::NoContext(id) => "could not obtain a 2D context for `#"@ + id@ + "`"@,
    }
}

impl RenderError {
    /// The user-facing text of this error.
    pub fn message(&self) -> (res: String)
        ensures
            res@ == render_error_text(*self),
    {
        match self {
            RenderError::NoWindow => String::from_str("no `window` available"),
            RenderError::NoDocument => String::from_str("no `document` available"),
            RenderError::ElementNotFound(id) => {
                let mut out = String::from_str("element `#");
                out.append(id);
                out.append("` not found");
                out
            },
            RenderError::NotACanvas(id) => {
                let mut out = String::from_str("element `#");
                out.append(id);
                out.append("` is not a <canvas>");
                out
            },
            RenderError::NoContext(id) => {
                let mut out = String::from_str("could not obtain a 2D context for `#");
                out.append(id);
                out.append("`");
                out
            },
        }
    }
}

/// The committed and live canvases' 2D contexts, scaled so that drawing
/// takes CSS pixels, and the canvases' CSS-pixel size as the layout reports
/// it (whole pixels).
pub struct Renderer {
    pub committed: web_sys::CanvasRenderingContext2d,
    pub live: web_sys::CanvasRenderingContext2d,
    pub css_width: i32,
    pub css_height: i32,
}

/// Calls `CanvasRenderingContext2d::clear_rect(x, y, width, height)` with the
/// whole-pixel values widened to binary64. Nothing is claimed of its effect.
#[verifier::external_body]
fn clear_rect(ctx: &web_sys::CanvasRenderingContext2d, x: i32, y: i32, width: i32, height: i32) {
    ctx.clear_rect(x.into(), y.into(), width.into(), height.into());
}

impl Renderer {
    /// Gather the two contexts and the CSS-pixel canvas size.
    pub fn new(
        committed: web_sys::CanvasRenderingContext2d,
        live: web_sys::CanvasRenderingContext2d,
        css_width: i32,
        css_height: i32,
    ) -> (res: Renderer)
        ensures
            res.committed == committed,
            res.live == live,
            res.css_width == css_width,
            res.css_height == css_height,
    {
        Renderer { committed, live, css_width, css_height }
    }
}

/// Cancel the in-progress stroke without committing it: clear the whole
/// live canvas.
pub fn discard_live(renderer: &Renderer) {
    clear_rect(&renderer.live, 0, 0, renderer.css_width, renderer.css_height);
}

} // verus!
