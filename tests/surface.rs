use tdisplay::bus::{rgb565, BusByte, BusOp, RecordingBus, BLACK, WHITE};
use tdisplay::geometry::{Clipped, PanelGeometry, Rect, Window};
use tdisplay::panel::{PanelModel, CASET, COLMOD, DISPON, RAMWR, RASET, SLPOUT, SWRESET};
use tdisplay::surface::{DisplaySurface, DrawError};

/// A 24-bit bottom-up bitmap whose pixel (x, y) has the color `f(x, y)`.
fn bmp24(width: u32, height: u32, f: impl Fn(u32, u32) -> (u8, u8, u8)) -> Vec<u8> {
    let row = ((width * 3 + 3) / 4) * 4;
    let data_len = row * height;
    let mut b: Vec<u8> = Vec::new();
    b.extend_from_slice(b"BM");
    b.extend_from_slice(&(54 + data_len).to_le_bytes());
    b.extend_from_slice(&[0, 0, 0, 0]);
    b.extend_from_slice(&54u32.to_le_bytes());
    b.extend_from_slice(&40u32.to_le_bytes());
    b.extend_from_slice(&(width as i32).to_le_bytes());
    b.extend_from_slice(&(height as i32).to_le_bytes());
    b.extend_from_slice(&1u16.to_le_bytes());
    b.extend_from_slice(&24u16.to_le_bytes());
    b.extend_from_slice(&0u32.to_le_bytes());
    b.extend_from_slice(&data_len.to_le_bytes());
    b.extend_from_slice(&2835u32.to_le_bytes());
    b.extend_from_slice(&2835u32.to_le_bytes());
    b.extend_from_slice(&0u32.to_le_bytes());
    b.extend_from_slice(&0u32.to_le_bytes());
    for y in (0..height).rev() {
        let start = b.len();
        for x in 0..width {
            let (r, g, bl) = f(x, y);
            b.extend_from_slice(&[bl, g, r]);
        }
        while b.len() - start < row as usize {
            b.push(0);
        }
    }
    b
}

fn tdisplay() -> DisplaySurface {
    DisplaySurface::build(PanelModel::TDisplay, true, 0, BLACK).0
}

fn window_of(ops: &[BusOp]) -> Window {
    assert_eq!(ops[0], BusOp::Command(CASET));
    assert_eq!(ops[2], BusOp::Command(RASET));
    assert_eq!(ops[4], BusOp::Command(RAMWR));
    let (BusOp::Data(xs), BusOp::Data(ys)) = (&ops[1], &ops[3]) else { panic!("no window data") };
    let be = |d: &[u8]| u16::from_be_bytes([d[0], d[1]]);
    Window { x0: be(&xs[0..2]), x1: be(&xs[2..4]), y0: be(&ys[0..2]), y1: be(&ys[2..4]) }
}

fn streamed_pixels(ops: &[BusOp]) -> u64 {
    ops.iter()
        .map(|op| match op {
            BusOp::Fill { count, .. } => *count as u64,
            BusOp::Pixels(p) => p.len() as u64,
            _ => 0,
        })
        .sum()
}

#[test]
fn geometry_of_both_panels() {
    assert_eq!(
        PanelModel::Stock.default_geometry(),
        PanelGeometry { native_width: 240, native_height: 320, visible_width: 240, visible_height: 320, offset_x: 0, offset_y: 0 }
    );
    assert_eq!(
        PanelModel::TDisplay.default_geometry(),
        PanelGeometry { native_width: 240, native_height: 320, visible_width: 135, visible_height: 240, offset_x: 52, offset_y: 40 }
    );
}

#[test]
fn inside_rectangle_is_translated_by_offset() {
    let s = tdisplay();
    let ops = s.fill_rectangle(&Rect { x: 10, y: 20, width: 5, height: 4 }, 0x1234);
    assert_eq!(ops.len(), 6);
    assert_eq!(window_of(&ops), Window { x0: 62, y0: 60, x1: 66, y1: 63 });
    assert_eq!(ops[5], BusOp::Fill { color: 0x1234, count: 20 });
}

#[test]
fn partly_outside_rectangle_is_clipped() {
    let s = tdisplay();
    let ops = s.fill_rectangle(&Rect { x: -5, y: 230, width: 20, height: 30 }, WHITE);
    assert_eq!(window_of(&ops), Window { x0: 52, y0: 270, x1: 66, y1: 279 });
    assert_eq!(streamed_pixels(&ops), 15 * 10);
    let g = s.geometry();
    assert_eq!(g.clip(&Rect { x: -5, y: 230, width: 20, height: 30 }), Clipped { x: 0, y: 230, width: 15, height: 10 });
}

#[test]
fn empty_or_offscreen_rectangle_sends_nothing() {
    let s = tdisplay();
    assert!(s.fill_rectangle(&Rect { x: 3, y: 3, width: 0, height: 9 }, WHITE).is_empty());
    assert!(s.fill_rectangle(&Rect { x: 135, y: 0, width: 10, height: 10 }, WHITE).is_empty());
    assert!(s.fill_rectangle(&Rect { x: -10, y: -10, width: 10, height: 10 }, WHITE).is_empty());
}

#[test]
fn clear_streams_every_pixel_in_color() {
    let s = tdisplay();
    let ops = s.clear(0xabcd);
    assert_eq!(window_of(&ops), Window { x0: 52, y0: 40, x1: 186, y1: 279 });
    let mut bus = RecordingBus::new();
    bus.apply_all(&ops);
    let w = &bus.writes;
    assert_eq!(w.len(), 11 + 2 * 135 * 240);
    assert_eq!(w[0], BusByte { command: true, value: CASET });
    assert_eq!(&w[1..5].iter().map(|b| b.value).collect::<Vec<_>>(), &[0, 52, 0, 186]);
    assert_eq!(w[10], BusByte { command: true, value: RAMWR });
    for i in 0..135 * 240 {
        assert_eq!(w[11 + 2 * i], BusByte { command: false, value: 0xab });
        assert_eq!(w[12 + 2 * i], BusByte { command: false, value: 0xcd });
    }
}

#[test]
fn stock_clear_covers_full_space() {
    let s = DisplaySurface::build(PanelModel::Stock, false, 0, BLACK).0;
    let ops = s.clear(WHITE);
    assert_eq!(window_of(&ops), Window { x0: 0, y0: 0, x1: 239, y1: 319 });
    assert_eq!(streamed_pixels(&ops), 240 * 320);
}

fn commands(ops: &[BusOp]) -> Vec<u8> {
    ops.iter().filter_map(|o| if let BusOp::Command(c) = o { Some(*c) } else { None }).collect()
}

#[test]
fn init_order_is_shared_by_both_panels() {
    let (a, ma) = PanelModel::Stock.init(true, 0x08);
    let (b, mb) = PanelModel::TDisplay.init(true, 0x08);
    assert_eq!((ma, mb), (0x08, 0x08));
    assert_eq!(a, b);
    assert_eq!(&a[0..4], &[BusOp::ResetLow, BusOp::DelayUs(10), BusOp::ResetHigh, BusOp::DelayUs(150_000)]);
    assert_eq!(commands(&a), vec![SWRESET, SLPOUT, COLMOD, DISPON]);
    assert!(a.contains(&BusOp::Data(vec![0x55])));
}

#[test]
fn init_without_reset_line_sends_four_commands() {
    let (c, m) = PanelModel::TDisplay.init(false, 0);
    assert_eq!(m, 0);
    assert_eq!(commands(&c), vec![0x01, 0x11, 0x3a, 0x29]);
    assert_eq!(c[0], BusOp::Command(SWRESET));
    assert!(!c.contains(&BusOp::ResetLow));
    assert_eq!(c.len() + 4, PanelModel::Stock.init(true, 0).0.len());
}

#[test]
fn build_initializes_then_clears() {
    let (s, ops) = DisplaySurface::build(PanelModel::TDisplay, true, 0, BLACK);
    let (init, _) = PanelModel::TDisplay.init(true, 0);
    assert_eq!(&ops[..init.len()], &init[..]);
    assert_eq!(&ops[init.len()..], &s.clear(BLACK)[..]);
    assert_eq!(s.model(), PanelModel::TDisplay);
    assert_eq!(s.madctl(), 0);
}

#[test]
fn packs_rgb565() {
    assert_eq!(rgb565(31, 0, 0), 0xf800);
    assert_eq!(rgb565(0, 63, 0), 0x07e0);
    assert_eq!(rgb565(1, 2, 3), 2048 + 64 + 3);
    assert_eq!(rgb565(31, 63, 31), WHITE);
}

#[test]
fn draw_image_streams_decoded_pixels() {
    let bmp = bmp24(3, 2, |x, y| if (x + y) % 2 == 0 { (255, 0, 0) } else { (0, 0, 255) });
    let s = tdisplay();
    let ops = s.draw_image(&bmp, 0, 0).unwrap();
    assert_eq!(window_of(&ops), Window { x0: 52, y0: 40, x1: 54, y1: 41 });
    assert_eq!(ops[5], BusOp::Pixels(vec![0xf800, 0x001f, 0xf800]));
    assert_eq!(ops[6], BusOp::Pixels(vec![0x001f, 0xf800, 0x001f]));
    assert_eq!(ops.len(), 7);
}

#[test]
fn draw_image_clips_to_visible_area() {
    let bmp = bmp24(4, 3, |x, y| (if x == 1 { 255 } else { 0 }, if y == 2 { 255 } else { 0 }, 0));
    let s = tdisplay();
    let ops = s.draw_image(&bmp, 133, -1).unwrap();
    assert_eq!(window_of(&ops), Window { x0: 185, y0: 40, x1: 186, y1: 41 });
    assert_eq!(streamed_pixels(&ops), 4);
    let px = |x: u8, y: u8| rgb565(if x == 1 { 31 } else { 0 }, if y == 2 { 63 } else { 0 }, 0);
    assert_eq!(ops[5], BusOp::Pixels(vec![px(0, 1), px(1, 1)]));
    assert_eq!(ops[6], BusOp::Pixels(vec![px(0, 2), px(1, 2)]));
    assert!(s.draw_image(&bmp, 200, 0).unwrap().is_empty());
}

#[test]
fn draw_image_reports_decode_error() {
    let s = tdisplay();
    assert_eq!(s.draw_image(b"not a bitmap", 0, 0), Err(DrawError::Decode));
    let mut bmp = bmp24(2, 2, |_, _| (0, 0, 0));
    bmp[0] = b'X';
    assert_eq!(s.draw_image(&bmp, 0, 0), Err(DrawError::Decode));
}

fn set_u32(b: &mut [u8], at: usize, v: u32) {
    b[at..at + 4].copy_from_slice(&v.to_le_bytes());
}

#[test]
fn oversized_header_fields_are_decode_errors() {
    let s = tdisplay();
    let mut wide = bmp24(2, 2, |_, _| (0, 0, 0));
    set_u32(&mut wide, 18, 1 << 27);
    set_u32(&mut wide, 28, 32);
    assert_eq!(s.draw_image(&wide, 0, 0), Err(DrawError::Decode));
    assert!(s.image_window(&wide, 0, 0).is_err());
    let mut colors = bmp24(2, 2, |_, _| (0, 0, 0));
    set_u32(&mut colors, 46, 1 << 30);
    assert_eq!(s.draw_image(&colors, 0, 0), Err(DrawError::Decode));
    assert_eq!(s.draw_image(&colors[..40], 0, 0), Err(DrawError::Decode));
    assert!(tdisplay::image::header_fits(&bmp24(2, 2, |_, _| (0, 0, 0))));
}

#[test]
fn streaming_rows_matches_whole_draw() {
    let bmp = bmp24(5, 4, |x, y| (if x < 2 { 255 } else { 0 }, if y == 3 { 255 } else { 0 }, 0));
    let s = tdisplay();
    let whole = s.draw_image(&bmp, 132, 1).unwrap();
    let (c, head) = s.image_window(&bmp, 132, 1).unwrap();
    assert_eq!(c, Clipped { x: 132, y: 1, width: 3, height: 4 });
    let mut streamed = head;
    for j in 0..c.height {
        streamed.push(BusOp::Pixels(DisplaySurface::read_row(&bmp, &c, 132, 1, j).unwrap()));
    }
    assert_eq!(streamed, whole);
}

#[test]
fn image_region_of_full_size_image() {
    let s = tdisplay();
    let (c, w) = s.image_region(135, 240, 0, 0);
    assert_eq!(c, Clipped { x: 0, y: 0, width: 135, height: 240 });
    assert_eq!(w, Some(Window { x0: 52, y0: 40, x1: 186, y1: 279 }));
    assert_eq!(s.image_region(10, 10, -20, 0).1, None);
}

#[test]
fn recording_bus_keeps_phases() {
    let mut bus = RecordingBus::new();
    bus.apply(&BusOp::Command(0x2c));
    bus.apply(&BusOp::Data(vec![1, 2]));
    bus.apply(&BusOp::DelayUs(5));
    bus.apply(&BusOp::Pixels(vec![0x0102]));
    bus.apply(&BusOp::Fill { color: 0xff00, count: 2 });
    let got: Vec<(bool, u8)> = bus.writes.iter().map(|b| (b.command, b.value)).collect();
    assert_eq!(got, vec![(true, 0x2c), (false, 1), (false, 2), (false, 1), (false, 2), (false, 0xff), (false, 0), (false, 0xff), (false, 0)]);
}

#[test]
fn three_images_cycle_with_wrap() {
    let colors = [(255u8, 0u8, 0u8), (0, 255, 0), (0, 0, 255)];
    let table: Vec<Vec<u8>> = colors.iter().map(|&c| bmp24(135, 240, move |_, _| c)).collect();
    let s = tdisplay();
    let mut d = tdisplay::drive::Driver::new(table.len(), 0);
    let mut drawn = Vec::new();
    let mut t = 1000u64;
    for _ in 0..3 {
        for _ in 0..5 {
            if let Some(i) = d.poll(true, t) {
                let ops = s.draw_image(&table[i], 0, 0).unwrap();
                assert_eq!(window_of(&ops), Window { x0: 52, y0: 40, x1: 186, y1: 279 });
                assert_eq!(streamed_pixels(&ops), 135 * 240);
                drawn.push((i, ops[5].clone()));
            }
            t += 1;
        }
        assert!(d.poll(false, t).is_none());
        t += 300;
    }
    let idx: Vec<usize> = drawn.iter().map(|(i, _)| *i).collect();
    assert_eq!(idx, vec![1, 2, 0]);
    let BusOp::Pixels(first_row) = &drawn[0].1 else { panic!("no pixels") };
    assert!(first_row.iter().all(|&p| p == 0x07e0));
}
