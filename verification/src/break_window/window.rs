//! The break window: what it does with each event, and what it draws.
use vstd::prelude::*;
use vstd::string::*;

verus! {

/// Events that the program sends to the break window's event loop.
#[allow(non_camel_case_types)]
#[derive(Clone, Copy, Debug, PartialEq, Eq, Structural)]
pub enum CustomEvent {
    /// The break is over: close the window.
    CLOSE,
    /// Draw the window again.
    REDRAW,
}

/// An event that reaches the break window's handler.
#[derive(Clone, Copy, Debug, PartialEq, Eq, Structural)]
pub enum FrameEvent {
    /// A window was resized to `width` x `height` pixels.
    Resized { width: u32, height: u32 },
    /// A window asked to be drawn.
    RedrawRequested,
    /// Any other window event.
    OtherWindowEvent,
    /// The event loop is about to wait.
    AboutToWait,
    /// An event the program sent.
    User(CustomEvent),
    /// Any other event.
    Other,
}

/// For which use a surface was missing.
#[derive(Clone, Copy, Debug, PartialEq, Eq, Structural)]
pub enum SurfaceUse {
    /// To be resized.
    Resize,
    /// To be drawn on.
    Redraw,
}

/// What the handler does with an event.
#[derive(Clone, Copy, Debug, PartialEq, Eq, Structural)]
pub enum FrameAction {
    /// Nothing.
    Nothing,
    /// Report on standard error that the surface was missing.
    MissingSurface(SurfaceUse),
    /// Resize the surface to `width` x `height`.
    ResizeSurface { width: u32, height: u32 },
    /// Fill the surface's `width` x `height` buffer with `fill_gradient` and present it.
    Draw { width: u32, height: u32 },
    /// Ask the window to be drawn again.
    RequestRedraw,
    /// Report the event as unhandled.
    ReportUnhandled,
}

/// What the break window's handler does with `event`. `same_window` tells
/// whether a window event is about the break window, `has_surface` whether
/// the surface exists, and `inner_width` x `inner_height` is the window's
/// inner size (read for drawing only).
pub open spec fn spec_frame_action(
    event: FrameEvent,
    same_window: bool,
    has_surface: bool,
    inner_width: u32,
    inner_height: u32,
) -> FrameAction {
    match event {
        FrameEvent::Resized { width, height } => if !same_window {
            FrameAction::Nothing
        } else if !has_surface {
            FrameAction::MissingSurface(SurfaceUse::Resize)
        } else if width != 0 && height != 0 {
            FrameAction::ResizeSurface { width, height }
        } else {
            FrameAction::Nothing
        },
        FrameEvent::RedrawRequested => if !same_window {
            FrameAction::Nothing
        } else if !has_surface {
            FrameAction::MissingSurface(SurfaceUse::Redraw)
        } else if inner_width != 0 && inner_height != 0 {
            FrameAction::Draw { width: inner_width, height: inner_height }
        } else {
            FrameAction::Nothing
        },
        FrameEvent::OtherWindowEvent => FrameAction::Nothing,
        FrameEvent::AboutToWait => FrameAction::Nothing,
        FrameEvent::User(CustomEvent::REDRAW) => FrameAction::RequestRedraw,
        FrameEvent::User(CustomEvent::CLOSE) => FrameAction::ReportUnhandled,
        FrameEvent::Other => FrameAction::ReportUnhandled,
    }
}

/// Decides what the break window's handler does with an event
/// (see `spec_frame_action`).
pub fn frame_action(
    event: FrameEvent,
    same_window: bool,
    has_surface: bool,
    inner_width: u32,
    inner_height: u32,
) -> (a: FrameAction)
    ensures
        a == spec_frame_action(event, same_window, has_surface, inner_width, inner_height),
{
    match event {
        FrameEvent::Resized { width, height } => if !same_window {
            FrameAction::Nothing
        } else if !has_surface {
            FrameAction::MissingSurface(SurfaceUse::Resize)
        } else if width != 0 && height != 0 {
            FrameAction::ResizeSurface { width, height }
        } else {
            FrameAction::Nothing
        },
        FrameEvent::RedrawRequested => if !same_window {
            FrameAction::Nothing
        } else if !has_surface {
            FrameAction::MissingSurface(SurfaceUse::Redraw)
        } else if inner_width != 0 && inner_height != 0 {
            FrameAction::Draw { width: inner_width, height: inner_height }
        } else {
            FrameAction::Nothing
        },
        FrameEvent::OtherWindowEvent => FrameAction::Nothing,
        FrameEvent::AboutToWait => FrameAction::Nothing,
        FrameEvent::User(CustomEvent::REDRAW) => FrameAction::RequestRedraw,
        FrameEvent::User(CustomEvent::CLOSE) => FrameAction::ReportUnhandled,
        FrameEvent::Other => FrameAction::ReportUnhandled,
    }
}

impl SurfaceUse {
    /// The report for a surface that was missing for this use.
    pub fn message(&self) -> (msg: String)
        ensures
            msg@ == match *self {
                SurfaceUse::Resize => "Resized fired before Resumed or after Suspended"@,
                SurfaceUse::Redraw => "RedrawRequested fired before Resumed or after Suspended"@,
            },
    {
        match self {
            SurfaceUse::Resize => String::from_str("Resized fired before Resumed or after Suspended"),
            SurfaceUse::Redraw => String::from_str(
                "RedrawRequested fired before Resumed or after Suspended",
            ),
        }
    }
}

/// The colour of the pixel at column `x`, row `y`, as `0x00RRGGBB`: red is
/// `x % 255`, green `y % 255` and blue `(x * y) % 255`.
pub open spec fn pixel_color(x: int, y: int) -> int {
    (x % 255) * 0x10000 + (y % 255) * 0x100 + (x * y) % 255
}

/// Fills the first `width * height` pixels of `buffer`, row by row, with
/// the colours of `pixel_color`; the rest of the buffer is left alone.
pub fn fill_gradient(buffer: &mut [u32], width: u32, height: u32)
    requires
        (width as int) * (height as int) <= old(buffer)@.len(),
        width > 0 && height > 0 ==> (width - 1) * (height - 1) <= u32::MAX,
    ensures
        final(buffer)@.len() == old(buffer)@.len(),
        forall|x: int, y: int|
            0 <= x < width && 0 <= y < height ==> #[trigger] final(buffer)@[y * width + x]
                == pixel_color(x, y),
        forall|i: int|
            (width as int) * (height as int) <= i < old(buffer)@.len()
                ==> #[trigger] final(buffer)@[i] == old(buffer)@[i],
{
    let ghost w = width as int;
    let ghost h = height as int;
    let len = buffer.len();
    let mut y: u32 = 0;
    while y < height
        invariant
            w == width,
            h == height,
            0 <= y <= height,
            w * h <= old(buffer)@.len(),
            width > 0 && height > 0 ==> (width - 1) * (height - 1) <= u32::MAX,
            buffer@.len() == old(buffer)@.len(),
            len == buffer@.len(),
            forall|x: int, yy: int|
                0 <= x < w && 0 <= yy < y ==> #[trigger] buffer@[yy * w + x] == pixel_color(x, yy),
            forall|i: int| y * w <= i < buffer@.len() ==> #[trigger] buffer@[i] == old(buffer)@[i],
        decreases height - y,
    {
        let mut x: u32 = 0;
        proof {
            lemma_row_fits(y as int, w, h);
        }
        while x < width
            invariant
                w == width,
                h == height,
                0 <= y < height,
                0 <= x <= width,
                (y + 1) * w <= w * h,
                w * h <= old(buffer)@.len(),
                width > 0 && height > 0 ==> (width - 1) * (height - 1) <= u32::MAX,
                buffer@.len() == old(buffer)@.len(),
                len == buffer@.len(),
                forall|xx: int, yy: int|
                    0 <= xx < w && 0 <= yy < y ==> #[trigger] buffer@[yy * w + xx] == pixel_color(
                        xx,
                        yy,
                    ),
                forall|xx: int| 0 <= xx < x ==> #[trigger] buffer@[y * w + xx] == pixel_color(xx, y as int),
                forall|i: int| y * w + x <= i < buffer@.len() ==> #[trigger] buffer@[i] == old(buffer)@[i],
            decreases width - x,
        {
            proof {
                lemma_product_fits(x as int, y as int, w, h);
                lemma_earlier_row(x as int, y as int, y + 1, w);
            }
            let red = x % 255;
            let green = y % 255;
            let blue = (x * y) % 255;
            let index = y as usize * width as usize + x as usize;
            let color = blue | (green << 8u32) | (red << 16u32);
            proof {
                lemma_color_bits(red, green, blue);
            }
            let ghost before = buffer@;
            buffer[index] = color;
            assert forall|xx: int, yy: int| 0 <= xx < w && 0 <= yy < y implies #[trigger] buffer@[yy
                * w + xx] == pixel_color(xx, yy) by {
                lemma_earlier_row(xx, yy, y as int, w);
                assert(before[yy * w + xx] == pixel_color(xx, yy));
            }
            x = x + 1;
        }
        y = y + 1;
        assert(y * w == (y - 1) * w + w) by (nonlinear_arith);
    }
    assert(forall|i: int| height * w <= i < buffer@.len() ==> buffer@[i] == old(buffer)@[i]);
}

/// A row that exists ends within the picture.
proof fn lemma_row_fits(y: int, w: int, h: int)
    requires
        0 <= y < h,
        0 <= w,
    ensures
        (y + 1) * w <= w * h,
{
    assert((y + 1) * w <= h * w) by (nonlinear_arith)
        requires
            0 <= y < h,
            0 <= w,
    ;
}

/// Within the picture, the product of the coordinates fits in a `u32`.
proof fn lemma_product_fits(x: int, y: int, w: int, h: int)
    requires
        0 <= x < w,
        0 <= y < h,
        (w - 1) * (h - 1) <= u32::MAX,
    ensures
        x * y <= u32::MAX,
{
    assert(x * y <= (w - 1) * (h - 1)) by (nonlinear_arith)
        requires
            0 <= x <= w - 1,
            0 <= y <= h - 1,
    ;
}

/// A pixel of an earlier row comes before every pixel of a later one.
proof fn lemma_earlier_row(xx: int, yy: int, y: int, w: int)
    requires
        0 <= xx < w,
        0 <= yy < y,
    ensures
        yy * w + xx < y * w,
{
    assert(yy * w + xx < y * w) by (nonlinear_arith)
        requires
            0 <= xx < w,
            0 <= yy < y,
    ;
}

/// The three channels, each below 256, packed with shifts and ors.
proof fn lemma_color_bits(red: u32, green: u32, blue: u32)
    requires
        red < 255,
        green < 255,
        blue < 255,
    ensures
        blue | (green << 8u32) | (red << 16u32) == red * 0x10000 + green * 0x100 + blue,
{
    assert(blue | (green << 8u32) | (red << 16u32) == red * 0x10000 + green * 0x100 + blue)
        by (bit_vector)
        requires
            red < 255,
            green < 255,
            blue < 255,
    ;
}


/// Read back as `0x00RRGGBB`, a pixel's colour has red `x % 255`, green
/// `y % 255` and blue `(x * y) % 255`, each a byte of its own.
pub proof fn law_pixel_channels(x: int, y: int)
    requires
        0 <= x,
        0 <= y,
    ensures
        pixel_color(x, y) / 0x10000 == x % 255,
        (pixel_color(x, y) / 0x100) % 0x100 == y % 255,
        pixel_color(x, y) % 0x100 == (x * y) % 255,
        0 <= pixel_color(x, y) < 0x1000000,
{
    let r = x % 255;
    let g = y % 255;
    let b = (x * y) % 255;
    assert(0 <= r < 255 && 0 <= g < 255 && 0 <= b < 255);
    let c = r * 0x10000 + g * 0x100 + b;
    assert(c == pixel_color(x, y));
    assert(c / 0x10000 == r);
    assert(c / 0x100 == r * 0x100 + g);
    assert((r * 0x100 + g) % 0x100 == g);
    assert(c % 0x100 == b);
}

/// The break window's handler draws only on its own window's redraw request,
/// when the surface exists and the window is not empty, at the window's inner
/// size; it resizes only on its own window's resize to a non-empty size, to
/// that size, when the surface exists; it reports a missing surface only for
/// those two requests; it asks for a redraw exactly on `REDRAW`; and it
/// reports exactly `CLOSE` and the events that are not window events as unhandled.
pub proof fn law_frame_actions(
    event: FrameEvent,
    same_window: bool,
    has_surface: bool,
    inner_width: u32,
    inner_height: u32,
    width: u32,
    height: u32,
)
    ensures
        spec_frame_action(event, same_window, has_surface, inner_width, inner_height)
            == (FrameAction::Draw { width, height }) <==> (event == FrameEvent::RedrawRequested
            && same_window && has_surface && width == inner_width && height == inner_height && width
            != 0 && height != 0),
        spec_frame_action(event, same_window, has_surface, inner_width, inner_height)
            == (FrameAction::ResizeSurface { width, height }) <==> (event == (FrameEvent::Resized {
            width,
            height,
        }) && same_window && has_surface && width != 0 && height != 0),
        spec_frame_action(event, same_window, has_surface, inner_width, inner_height)
            == FrameAction::MissingSurface(SurfaceUse::Redraw) <==> (event
            == FrameEvent::RedrawRequested && same_window && !has_surface),
        spec_frame_action(event, same_window, has_surface, inner_width, inner_height)
            == FrameAction::MissingSurface(SurfaceUse::Resize) <==> (event is Resized && same_window
            && !has_surface),
        spec_frame_action(event, same_window, has_surface, inner_width, inner_height)
            == FrameAction::RequestRedraw <==> event == FrameEvent::User(CustomEvent::REDRAW),
        spec_frame_action(event, same_window, has_surface, inner_width, inner_height)
            == FrameAction::ReportUnhandled <==> (event == FrameEvent::User(CustomEvent::CLOSE)
            || event == FrameEvent::Other),
{
}

} // verus!
