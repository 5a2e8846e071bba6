use vstd::prelude::*;

verus! {

/// A rectangle requested in framebuffer coordinates: top-left corner and size.
#[derive(Clone, Copy, Debug, PartialEq, Eq, Structural)]
pub struct Rect {
    pub x: i32,
    pub y: i32,
    pub width: u32,
    pub height: u32,
}

/// The part of a requested rectangle that lies on the visible area, in visible
/// coordinates. An empty part has zero width and height and sits at the origin.
#[derive(Clone, Copy, Debug, PartialEq, Eq, Structural)]
pub struct Clipped {
    pub x: u16,
    pub y: u16,
    pub width: u16,
    pub height: u16,
}

/// An addressing window in native controller coordinates, both corners inclusive.
#[derive(Clone, Copy, Debug, PartialEq, Eq, Structural)]
pub struct Window {
    pub x0: u16,
    pub y0: u16,
    pub x1: u16,
    pub y1: u16,
}

/// Size of the controller's addressable space, size of the visible panel, and
/// the fixed position of the visible panel inside the addressable space.
#[derive(Clone, Copy, Debug, PartialEq, Eq, Structural)]
pub struct PanelGeometry {
    pub native_width: u16,
    pub native_height: u16,
    pub visible_width: u16,
    pub visible_height: u16,
    pub offset_x: u16,
    pub offset_y: u16,
}

impl PanelGeometry {
    /// The visible panel, moved by the offset, fits in the addressable space.
    pub open spec fn wf(self) -> bool {
        &&& self.offset_x + self.visible_width <= self.native_width
        &&& self.offset_y + self.visible_height <= self.native_height
    }

    /// Number of pixels of the visible area.
    pub open spec fn visible_area(self) -> nat {
        (self.visible_width * self.visible_height) as nat
    }
}

/// Lower end of a span clipped at zero.
pub open spec fn span_lo(start: int) -> int {
    if start < 0 { 0 } else { start }
}

/// Upper end (exclusive) of a span clipped at `limit`.
pub open spec fn span_hi(start: int, len: int, limit: int) -> int {
    if start + len > limit { limit } else { start + len }
}

/// The intersection of `r` with the visible area of `g`.
pub open spec fn clip_spec(g: PanelGeometry, r: Rect) -> Clipped {
    let xl = span_lo(r.x as int);
    let xh = span_hi(r.x as int, r.width as int, g.visible_width as int);
    let yl = span_lo(r.y as int);
    let yh = span_hi(r.y as int, r.height as int, g.visible_height as int);
    if xl < xh && yl < yh {
        Clipped { x: xl as u16, y: yl as u16, width: (xh - xl) as u16, height: (yh - yl) as u16 }
    } else {
        Clipped { x: 0, y: 0, width: 0, height: 0 }
    }
}

/// Number of pixels of a clipped rectangle.
pub open spec fn clipped_area(c: Clipped) -> nat {
    (c.width * c.height) as nat
}

/// The clipped rectangle lies on the visible area.
pub open spec fn clipped_within(g: PanelGeometry, c: Clipped) -> bool {
    &&& c.x + c.width <= g.visible_width
    &&& c.y + c.height <= g.visible_height
}

/// The addressing window that covers `c` in native coordinates; none when `c` is empty.
pub open spec fn window_spec(g: PanelGeometry, c: Clipped) -> Option<Window> {
    if c.width == 0 || c.height == 0 {
        None
    } else {
        Some(
            Window {
                x0: (c.x + g.offset_x) as u16,
                y0: (c.y + g.offset_y) as u16,
                x1: (c.x + c.width - 1 + g.offset_x) as u16,
                y1: (c.y + c.height - 1 + g.offset_y) as u16,
            },
        )
    }
}

/// A rectangle lies wholly on the visible area and is not empty.
pub open spec fn fully_inside(g: PanelGeometry, r: Rect) -> bool {
    &&& r.x >= 0
    &&& r.y >= 0
    &&& r.width > 0
    &&& r.height > 0
    &&& r.x + r.width <= g.visible_width
    &&& r.y + r.height <= g.visible_height
}

/// The whole visible area as a requested rectangle.
pub open spec fn full_rect(g: PanelGeometry) -> Rect {
    Rect { x: 0, y: 0, width: g.visible_width as u32, height: g.visible_height as u32 }
}

impl Clipped {
    /// Number of pixels, which always fits in a `u32`.
    pub fn area(&self) -> (n: u32)
        ensures
            n == clipped_area(*self),
    {
        proof {
            vstd::arithmetic::mul::lemma_mul_upper_bound(
                self.width as int,
                0xffff,
                self.height as int,
                0xffff,
            );
        }
        (self.width as u32) * (self.height as u32)
    }
}

impl PanelGeometry {
    /// Clips `r` to the visible area.
    pub fn clip(&self, r: &Rect) -> (c: Clipped)
        ensures
            c == clip_spec(*self, *r),
            clipped_within(*self, c),
    {
        let x: i64 = r.x as i64;
        let y: i64 = r.y as i64;
        let xl: i64 = if x < 0 { 0 } else { x };
        let yl: i64 = if y < 0 { 0 } else { y };
        let xh: i64 = if x + r.width as i64 > self.visible_width as i64 {
            self.visible_width as i64
        } else {
            x + r.width as i64
        };
        let yh: i64 = if y + r.height as i64 > self.visible_height as i64 {
            self.visible_height as i64
        } else {
            y + r.height as i64
        };
        if xl < xh && yl < yh {
            Clipped { x: xl as u16, y: yl as u16, width: (xh - xl) as u16, height: (yh - yl) as u16 }
        } else {
            Clipped { x: 0, y: 0, width: 0, height: 0 }
        }
    }

    /// Translates a clipped rectangle into the native addressing window.
    pub fn window(&self, c: &Clipped) -> (w: Option<Window>)
        requires
            self.wf(),
            clipped_within(*self, *c),
        ensures
            w == window_spec(*self, *c),
    {
        if c.width == 0 || c.height == 0 {
            None
        } else {
            Some(
                Window {
                    x0: c.x + self.offset_x,
                    y0: c.y + self.offset_y,
                    x1: c.x + c.width - 1 + self.offset_x,
                    y1: c.y + c.height - 1 + self.offset_y,
                },
            )
        }
    }
}

/// A rectangle that lies wholly on the visible area is addressed as itself,
/// moved by the panel's offset, with its width and height kept.
pub proof fn lemma_inside_translated(g: PanelGeometry, r: Rect)
    requires
        g.wf(),
        fully_inside(g, r),
    ensures
        clip_spec(g, r) == (Clipped { x: r.x as u16, y: r.y as u16, width: r.width as u16, height: r.height as u16 }),
        window_spec(g, clip_spec(g, r)) == Some(
            Window {
                x0: (r.x + g.offset_x) as u16,
                y0: (r.y + g.offset_y) as u16,
                x1: (r.x + r.width - 1 + g.offset_x) as u16,
                y1: (r.y + r.height - 1 + g.offset_y) as u16,
            },
        ),
        window_spec(g, clip_spec(g, r)).unwrap().x1 - window_spec(g, clip_spec(g, r)).unwrap().x0
            + 1 == r.width,
        window_spec(g, clip_spec(g, r)).unwrap().y1 - window_spec(g, clip_spec(g, r)).unwrap().y0
            + 1 == r.height,
{
}

/// A clipped rectangle always lies on the visible area, its window on the
/// addressable space, and its size is that of the intersection of the request
/// with the visible area.
pub proof fn lemma_clip_is_intersection(g: PanelGeometry, r: Rect)
    requires
        g.wf(),
    ensures
        clipped_within(g, clip_spec(g, r)),
        ({
            let xl = span_lo(r.x as int);
            let xh = span_hi(r.x as int, r.width as int, g.visible_width as int);
            let yl = span_lo(r.y as int);
            let yh = span_hi(r.y as int, r.height as int, g.visible_height as int);
            if xl < xh && yl < yh {
                clip_spec(g, r).width == xh - xl && clip_spec(g, r).height == yh - yl
            } else {
                clipped_area(clip_spec(g, r)) == 0
            }
        }),
        window_spec(g, clip_spec(g, r)) matches Some(w) ==> w.x1 < g.native_width && w.y1
            < g.native_height && w.x0 <= w.x1 && w.y0 <= w.y1,
{
    let c = clip_spec(g, r);
    if c.width == 0 {
        assert(clipped_area(c) == 0) by (nonlinear_arith)
            requires
                c.width == 0,
        ;
    }
}

} // verus!
