use vstd::prelude::*;
use crate::bus::{BusOp, BusOpView, ops_view, push_op, pixel_count, stream, lemma_stream_append, fill_bytes};
use crate::geometry::{Clipped, PanelGeometry, Rect, Window, clip_spec, clipped_area, window_spec, full_rect};
use crate::image::{bmp_size_of, bmp_pixel_of, bmp_size, bmp_pixel, bmp_header_ok, header_fits};
use crate::panel::{PanelModel, CASET, RASET, RAMWR, init_ops};

verus! {

/// Why a drawing could not be planned.
#[derive(Clone, Copy, Debug, PartialEq, Eq, Structural)]
pub enum DrawError {
    /// The image bytes do not parse as a bitmap, or one of its pixels cannot be read.
    Decode,
}

/// A 16-bit value, high byte first.
pub open spec fn be16(v: u16) -> Seq<u8> {
    seq![(v / 256) as u8, (v % 256) as u8]
}

/// Sets the addressing window to `w` and starts a memory write into it.
pub open spec fn window_ops(w: Window) -> Seq<BusOpView> {
    seq![
        BusOpView::Command(CASET),
        BusOpView::Data(be16(w.x0) + be16(w.x1)),
        BusOpView::Command(RASET),
        BusOpView::Data(be16(w.y0) + be16(w.y1)),
        BusOpView::Command(RAMWR),
    ]
}

/// Fills the visible part of `r` with `color`; nothing when that part is empty.
pub open spec fn fill_ops(g: PanelGeometry, r: Rect, color: u16) -> Seq<BusOpView> {
    let c = clip_spec(g, r);
    match window_spec(g, c) {
        None => Seq::empty(),
        Some(w) => window_ops(w).push(BusOpView::Fill { color, count: clipped_area(c) as u32 }),
    }
}

/// The rectangle an image of the given size covers when drawn at (x, y).
pub open spec fn image_rect(width: u32, height: u32, x: i32, y: i32) -> Rect {
    Rect { x, y, width, height }
}

/// Pixel `k` of row `j` of the visible part `c` of an image drawn at (x, y),
/// read from the image at its own coordinates.
pub open spec fn source_pixel(asset: Seq<u8>, c: Clipped, x: i32, y: i32, j: int, k: int) -> Option<u16> {
    bmp_pixel_of(asset, (c.x + k - x) as u32, (c.y + j - y) as u32)
}

/// Every pixel of the visible part can be read.
pub open spec fn pixels_readable(asset: Seq<u8>, c: Clipped, x: i32, y: i32) -> bool {
    forall|j: int, k: int|
        0 <= j < c.height && 0 <= k < c.width ==> (#[trigger] source_pixel(asset, c, x, y, j, k)) is Some
}

/// Row `j` of the visible part of the image.
pub open spec fn image_row(asset: Seq<u8>, c: Clipped, x: i32, y: i32, j: int) -> Seq<u16> {
    Seq::new(c.width as nat, |k: int| source_pixel(asset, c, x, y, j, k).unwrap())
}

/// The rows of the visible part of the image, top first.
pub open spec fn image_rows(asset: Seq<u8>, c: Clipped, x: i32, y: i32) -> Seq<BusOpView> {
    Seq::new(c.height as nat, |j: int| BusOpView::Pixels(image_row(asset, c, x, y, j)))
}

/// Draws the image `asset` with its top-left corner at (x, y).
pub open spec fn draw_image_spec(g: PanelGeometry, asset: Seq<u8>, x: i32, y: i32) -> Result<Seq<BusOpView>, DrawError> {
    if !bmp_header_ok(asset) {
        Err(DrawError::Decode)
    } else {
    match bmp_size_of(asset) {
        None => Err(DrawError::Decode),
        Some((width, height)) => {
            let c = clip_spec(g, image_rect(width, height, x, y));
            match window_spec(g, c) {
                None => Ok(Seq::empty()),
                Some(w) => if pixels_readable(asset, c, x, y) {
                    Ok(window_ops(w) + image_rows(asset, c, x, y))
                } else {
                    Err(DrawError::Decode)
                },
            }
        },
    }
    }
}

/// The visible part of the image `asset` drawn at (x, y), and the operations
/// that set the addressing window over it (none when that part is empty).
pub open spec fn image_window_spec(g: PanelGeometry, asset: Seq<u8>, x: i32, y: i32) -> Result<(Clipped, Seq<BusOpView>), DrawError> {
    if !bmp_header_ok(asset) {
        Err(DrawError::Decode)
    } else {
        match bmp_size_of(asset) {
            None => Err(DrawError::Decode),
            Some((width, height)) => {
                let c = clip_spec(g, image_rect(width, height, x, y));
                Ok((c, match window_spec(g, c) {
                    None => Seq::empty(),
                    Some(w) => window_ops(w),
                }))
            },
        }
    }
}

fn be_pair(a: u16, b: u16) -> (v: Vec<u8>)
    ensures
        v@ == be16(a) + be16(b),
{
    let mut v: Vec<u8> = Vec::new();
    v.push((a / 256) as u8);
    v.push((a % 256) as u8);
    v.push((b / 256) as u8);
    v.push((b % 256) as u8);
    assert(v@ =~= be16(a) + be16(b));
    v
}

/// Appends the operations that set the addressing window to `w`.
fn address_window(ops: &mut Vec<BusOp>, w: &Window)
    ensures
        ops_view(final(ops)@) == ops_view(old(ops)@) + window_ops(*w),
{
    let ghost start = ops_view(ops@);
    push_op(ops, BusOp::Command(CASET));
    push_op(ops, BusOp::Data(be_pair(w.x0, w.x1)));
    push_op(ops, BusOp::Command(RASET));
    push_op(ops, BusOp::Data(be_pair(w.y0, w.y1)));
    push_op(ops, BusOp::Command(RAMWR));
    assert(ops_view(ops@) =~= start + window_ops(*w));
}

/// A panel ready for drawing: which panel it is, its geometry, and the
/// addressing mode it was brought up with.
pub struct DisplaySurface {
    model: PanelModel,
    geometry: PanelGeometry,
    madctl: u8,
}

impl DisplaySurface {
    pub closed spec fn model_spec(self) -> PanelModel {
        self.model
    }

    pub closed spec fn geometry_spec(self) -> PanelGeometry {
        self.geometry
    }

    pub closed spec fn madctl_spec(self) -> u8 {
        self.madctl
    }

    /// The surface's geometry is its panel's.
    pub closed spec fn wf(self) -> bool {
        self.geometry == self.model.geometry_spec()
    }

    /// Brings the panel up and clears it to `color`. Returns the surface and
    /// the operations to send, in order.
    pub fn build(model: PanelModel, has_reset: bool, madctl: u8, color: u16) -> (r: (DisplaySurface, Vec<BusOp>))
        ensures
            r.0.wf(),
            r.0.model_spec() == model,
            r.0.geometry_spec() == model.geometry_spec(),
            r.0.madctl_spec() == madctl,
            ops_view(r.1@) == init_ops(has_reset) + fill_ops(
                model.geometry_spec(),
                full_rect(model.geometry_spec()),
                color,
            ),
    {
        let (mut ops, confirmed) = model.init(has_reset, madctl);
        let geometry = model.default_geometry();
        let surface = DisplaySurface { model, geometry, madctl: confirmed };
        let mut clear = surface.clear(color);
        let ghost a = ops_view(ops@);
        let ghost b = ops_view(clear@);
        ops.append(&mut clear);
        assert(ops_view(ops@) =~= a + b);
        (surface, ops)
    }

    pub fn model(&self) -> (m: PanelModel)
        ensures
            m == self.model_spec(),
    {
        self.model
    }

    pub fn geometry(&self) -> (g: PanelGeometry)
        ensures
            g == self.geometry_spec(),
    {
        self.geometry
    }

    pub fn madctl(&self) -> (m: u8)
        ensures
            m == self.madctl_spec(),
    {
        self.madctl
    }

    /// Fills the visible part of `r` with `color`.
    pub fn fill_rectangle(&self, r: &Rect, color: u16) -> (ops: Vec<BusOp>)
        requires
            self.wf(),
        ensures
            ops_view(ops@) == fill_ops(self.geometry_spec(), *r, color),
    {
        let mut ops: Vec<BusOp> = Vec::new();
        let c = self.geometry.clip(r);
        match self.geometry.window(&c) {
            None => {
                assert(ops_view(ops@) =~= Seq::<BusOpView>::empty());
            },
            Some(w) => {
                address_window(&mut ops, &w);
                push_op(&mut ops, BusOp::Fill { color, count: c.area() });
                assert(ops_view(ops@) =~= fill_ops(self.geometry, *r, color));
            },
        }
        ops
    }

    /// Fills the whole visible area with `color`.
    pub fn clear(&self, color: u16) -> (ops: Vec<BusOp>)
        requires
            self.wf(),
        ensures
            ops_view(ops@) == fill_ops(self.geometry_spec(), full_rect(self.geometry_spec()), color),
    {
        let r = Rect { x: 0, y: 0, width: self.geometry.visible_width as u32, height: self.geometry.visible_height as u32 };
        self.fill_rectangle(&r, color)
    }

    /// The visible part of an image of the given size drawn at (x, y), and the
    /// addressing window that covers it.
    pub fn image_region(&self, width: u32, height: u32, x: i32, y: i32) -> (r: (Clipped, Option<Window>))
        requires
            self.wf(),
        ensures
            r.0 == clip_spec(self.geometry_spec(), image_rect(width, height, x, y)),
            r.1 == window_spec(self.geometry_spec(), r.0),
    {
        let c = self.geometry.clip(&Rect { x, y, width, height });
        (c, self.geometry.window(&c))
    }

    /// Decodes the size of the image `asset` and sets the addressing window over
    /// its visible part when drawn at (x, y). Fails, with nothing to send, when
    /// the image cannot be decoded.
    pub fn image_window(&self, asset: &[u8], x: i32, y: i32) -> (r: Result<(Clipped, Vec<BusOp>), DrawError>)
        requires
            self.wf(),
        ensures
            r matches Ok((c, ops)) ==> image_window_spec(self.geometry_spec(), asset@, x, y) == Ok::<(Clipped, Seq<BusOpView>), DrawError>((c, ops_view(ops@))),
            r is Err <==> image_window_spec(self.geometry_spec(), asset@, x, y) is Err,
    {
        if !header_fits(asset) {
            return Err(DrawError::Decode);
        }
        let (width, height) = match bmp_size(asset) {
            None => return Err(DrawError::Decode),
            Some(s) => s,
        };
        let (c, w) = self.image_region(width, height, x, y);
        let mut ops: Vec<BusOp> = Vec::new();
        match w {
            None => {
                assert(ops_view(ops@) =~= Seq::<BusOpView>::empty());
            },
            Some(w) => {
                address_window(&mut ops, &w);
                assert(ops_view(ops@) =~= window_ops(w));
            },
        }
        Ok((c, ops))
    }

    /// Reads row `j` of the visible part `c` of an image drawn at (x, y); none
    /// when one of its pixels cannot be read. Together with `image_window` this
    /// streams an image one row at a time.
    pub fn read_row(asset: &[u8], c: &Clipped, x: i32, y: i32, j: u16) -> (r: Option<Vec<u16>>)
        requires
            bmp_header_ok(asset@),
            j < c.height,
            c.x >= x,
            c.y >= y,
        ensures
            r matches Some(row) ==> row@ == image_row(asset@, *c, x, y, j as int),
            r is Some ==> forall|k: int| 0 <= k < c.width ==> (#[trigger] source_pixel(asset@, *c, x, y, j as int, k)) is Some,
            r is None ==> exists|k: int| 0 <= k < c.width && (#[trigger] source_pixel(asset@, *c, x, y, j as int, k)) is None,
    {
        let mut row: Vec<u16> = Vec::new();
        let sy: u32 = (c.y as i64 + j as i64 - y as i64) as u32;
        let mut k: u16 = 0;
        while k < c.width
            invariant
                k <= c.width,
                c.x >= x,
                c.y >= y,
                sy == (c.y + j - y) as u32,
                bmp_header_ok(asset@),
                row@ == image_row(asset@, *c, x, y, j as int).take(k as int),
                forall|kk: int| 0 <= kk < k ==> (#[trigger] source_pixel(asset@, *c, x, y, j as int, kk)) is Some,
            decreases c.width - k,
        {
            let sx: u32 = (c.x as i64 + k as i64 - x as i64) as u32;
            match bmp_pixel(asset, sx, sy) {
                None => {
                    assert(source_pixel(asset@, *c, x, y, j as int, k as int) is None);
                    return None;
                },
                Some(p) => {
                    row.push(p);
                    k += 1;
                    assert(row@ =~= image_row(asset@, *c, x, y, j as int).take(k as int));
                },
            }
        }
        assert(row@ =~= image_row(asset@, *c, x, y, j as int));
        Some(row)
    }

    /// Draws the image `asset` with its top-left corner at (x, y): addresses the
    /// visible part of the image and streams its pixels row by row, top first.
    /// Fails, with nothing to send, when the image cannot be decoded.
    pub fn draw_image(&self, asset: &[u8], x: i32, y: i32) -> (r: Result<Vec<BusOp>, DrawError>)
        requires
            self.wf(),
        ensures
            r matches Ok(ops) ==> draw_image_spec(self.geometry_spec(), asset@, x, y) == Ok::<Seq<BusOpView>, DrawError>(ops_view(ops@)),
            r is Err <==> draw_image_spec(self.geometry_spec(), asset@, x, y) is Err,
    {
        if !header_fits(asset) {
            return Err(DrawError::Decode);
        }
        let (width, height) = match bmp_size(asset) {
            None => return Err(DrawError::Decode),
            Some(s) => s,
        };
        let (c, w) = self.image_region(width, height, x, y);
        let w = match w {
            None => {
                let ops: Vec<BusOp> = Vec::new();
                assert(ops_view(ops@) =~= Seq::<BusOpView>::empty());
                return Ok(ops);
            },
            Some(w) => w,
        };
        let mut ops: Vec<BusOp> = Vec::new();
        address_window(&mut ops, &w);
        let ghost head = ops_view(ops@);
        assert(head =~= window_ops(w));
        let mut j: u16 = 0;
        while j < c.height
            invariant
                j <= c.height,
                c == clip_spec(self.geometry, image_rect(width, height, x, y)),
                window_spec(self.geometry, c) == Some(w),
                bmp_size_of(asset@) == Some((width, height)),
                bmp_header_ok(asset@),
                c.x >= x,
                c.y >= y,
                head == window_ops(w),
                ops_view(ops@) == head + image_rows(asset@, c, x, y).take(j as int),
                forall|jj: int, k: int|
                    0 <= jj < j && 0 <= k < c.width ==> (#[trigger] source_pixel(asset@, c, x, y, jj, k)) is Some,
            decreases c.height - j,
        {
            match Self::read_row(asset, &c, x, y, j) {
                None => {
                    proof {
                        let k = choose|k: int| 0 <= k < c.width && (#[trigger] source_pixel(asset@, c, x, y, j as int, k)) is None;
                        assert(!pixels_readable(asset@, c, x, y));
                    }
                    return Err(DrawError::Decode);
                },
                Some(row) => {
                    push_op(&mut ops, BusOp::Pixels(row));
                    j += 1;
                    assert(image_rows(asset@, c, x, y).take(j as int) =~= image_rows(asset@, c, x, y).take((j - 1) as int).push(BusOpView::Pixels(image_row(asset@, c, x, y, (j - 1) as int))));
                    assert(ops_view(ops@) =~= head + image_rows(asset@, c, x, y).take(j as int));
                },
            }
        }
        assert(image_rows(asset@, c, x, y).take(j as int) =~= image_rows(asset@, c, x, y));
        Ok(ops)
    }
}

/// A fill streams exactly as many pixels as the visible part of the
/// rectangle holds, into the window that covers that part.
pub proof fn lemma_fill_streams_clipped_area(g: PanelGeometry, r: Rect, color: u16)
    requires
        g.wf(),
    ensures
        pixel_count(fill_ops(g, r, color)) == clipped_area(clip_spec(g, r)),
{
    let c = clip_spec(g, r);
    crate::geometry::lemma_clip_is_intersection(g, r);
    match window_spec(g, c) {
        None => {
            assert(clipped_area(c) == 0) by (nonlinear_arith)
                requires
                    c.width == 0 || c.height == 0,
                    clipped_area(c) == c.width * c.height,
            ;
        },
        Some(w) => {
            vstd::arithmetic::mul::lemma_mul_upper_bound(c.width as int, 0xffff, c.height as int, 0xffff);
            reveal_with_fuel(pixel_count, 7);
        },
    }
}

proof fn lemma_rows_count(asset: Seq<u8>, c: Clipped, x: i32, y: i32, j: nat)
    requires
        j <= c.height,
    ensures
        pixel_count(image_rows(asset, c, x, y).take(j as int)) == j * c.width,
    decreases j,
{
    if j > 0 {
        lemma_rows_count(asset, c, x, y, (j - 1) as nat);
        assert(image_rows(asset, c, x, y).take(j as int).drop_last() =~= image_rows(asset, c, x, y).take((j - 1) as int));
        vstd::arithmetic::mul::lemma_mul_is_distributive_sub_other_way(c.width as int, j as int, 1);
    }
}

/// A drawn image streams exactly as many pixels as its visible part holds,
/// into the window that covers that part.
pub proof fn lemma_image_streams_clipped_area(g: PanelGeometry, asset: Seq<u8>, x: i32, y: i32)
    requires
        g.wf(),
        draw_image_spec(g, asset, x, y) is Ok,
    ensures
        ({
            let (width, height) = bmp_size_of(asset).unwrap();
            let c = clip_spec(g, image_rect(width, height, x, y));
            let ops = draw_image_spec(g, asset, x, y).unwrap();
            &&& pixel_count(ops) == clipped_area(c)
            &&& window_spec(g, c) matches Some(w) ==> ops.subrange(0, 5) == window_ops(w)
        }),
{
    let (width, height) = bmp_size_of(asset).unwrap();
    let c = clip_spec(g, image_rect(width, height, x, y));
    crate::geometry::lemma_clip_is_intersection(g, image_rect(width, height, x, y));
    match window_spec(g, c) {
        None => {
            assert(clipped_area(c) == 0) by (nonlinear_arith)
                requires
                    c.width == 0 || c.height == 0,
                    clipped_area(c) == c.width * c.height,
            ;
        },
        Some(w) => {
            let rows = image_rows(asset, c, x, y);
            lemma_rows_count(asset, c, x, y, c.height as nat);
            assert(rows.take(c.height as int) =~= rows);
            lemma_stream_append(window_ops(w), rows);
            reveal_with_fuel(pixel_count, 6);
            assert(pixel_count(window_ops(w)) == 0);
            assert((window_ops(w) + rows).subrange(0, 5) =~= window_ops(w));
            vstd::arithmetic::mul::lemma_mul_is_commutative(c.height as int, c.width as int);
        },
    }
}

/// Clearing with `color` sets the window to the whole visible area, moved by
/// the offset, and then puts on the bus, for every pixel of that area, the
/// two bytes of `color`, high byte first, and nothing else.
pub proof fn lemma_clear_stream(g: PanelGeometry, color: u16)
    requires
        g.wf(),
        g.visible_width > 0,
        g.visible_height > 0,
    ensures
        ({
            let s = stream(fill_ops(g, full_rect(g), color));
            &&& s.len() == 11 + 2 * g.visible_area()
            &&& s.subrange(0, 11) == stream(window_ops(Window {
                x0: g.offset_x,
                y0: g.offset_y,
                x1: (g.offset_x + g.visible_width - 1) as u16,
                y1: (g.offset_y + g.visible_height - 1) as u16,
            }))
            &&& s.subrange(11, s.len() as int) == fill_bytes(color, g.visible_area())
        }),
{
    let r = full_rect(g);
    crate::geometry::lemma_inside_translated(g, r);
    let c = clip_spec(g, r);
    let w = window_spec(g, c).unwrap();
    vstd::arithmetic::mul::lemma_mul_upper_bound(c.width as int, 0xffff, c.height as int, 0xffff);
    let fill = BusOpView::Fill { color, count: clipped_area(c) as u32 };
    assert(fill_ops(g, r, color) =~= window_ops(w) + seq![fill]);
    lemma_stream_append(window_ops(w), seq![fill]);
    reveal_with_fuel(stream, 6);
    assert(seq![fill].drop_last() =~= Seq::<BusOpView>::empty());
    assert(stream(seq![fill]) =~= fill_bytes(color, clipped_area(c)));
    let s = stream(fill_ops(g, r, color));
    assert(stream(window_ops(w)).len() == 11);
    assert(s.subrange(0, 11) =~= stream(window_ops(w)));
    assert(s.subrange(11, s.len() as int) =~= fill_bytes(color, g.visible_area()));
}

} // verus!
