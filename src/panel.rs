use vstd::prelude::*;
use crate::bus::{BusOp, BusOpView, ops_view, push_op, command_bytes, lemma_command_bytes_append};
use crate::geometry::PanelGeometry;

verus! {

/// Software reset.
pub const SWRESET: u8 = 0x01;
/// Leave sleep mode.
pub const SLPOUT: u8 = 0x11;
/// Display on.
pub const DISPON: u8 = 0x29;
/// Column address set.
pub const CASET: u8 = 0x2a;
/// Row address set.
pub const RASET: u8 = 0x2b;
/// Memory write: the pixel data that follows fills the addressing window.
pub const RAMWR: u8 = 0x2c;
/// Interface pixel format.
pub const COLMOD: u8 = 0x3a;
/// 16 bits per pixel, 65k colors.
pub const PIXEL_FORMAT_16BIT: u8 = 0x55;

/// Width of the reset pulse, in microseconds.
pub const RESET_PULSE_US: u32 = 10;
/// Settle time after a reset, in microseconds.
pub const RESET_SETTLE_US: u32 = 150_000;
/// Settle time after leaving sleep mode and after setting the pixel format, in microseconds.
pub const COMMAND_SETTLE_US: u32 = 10_000;
/// Settle time after turning the display on, in microseconds.
pub const DISPLAY_ON_SETTLE_US: u32 = 120_000;

/// Visible width of the smaller panel that shares the stock controller.
pub const TDISPLAY_WIDTH: u16 = 135;
/// Visible height of the smaller panel that shares the stock controller.
pub const TDISPLAY_HEIGHT: u16 = 240;
/// Column of the smaller panel's top-left pixel in the controller's space.
pub const TDISPLAY_OFFSET_X: u16 = 52;
/// Row of the smaller panel's top-left pixel in the controller's space.
pub const TDISPLAY_OFFSET_Y: u16 = 40;

/// The panels this library drives. Both use the same controller and the same
/// commands; they differ in geometry only.
#[derive(Clone, Copy, Debug, PartialEq, Eq, Structural)]
pub enum PanelModel {
    /// The controller's full addressable space, used as it is.
    Stock,
    /// A smaller panel mounted off-origin on the same controller.
    TDisplay,
}

/// Relies on mipidsi's `ST7789::default_options`: the stock profile has a
/// 240 by 320 framebuffer.
#[verifier::external_body]
fn st7789_framebuffer() -> (r: (u16, u16))
    ensures
        r == (240u16, 320u16),
{
    <mipidsi::models::ST7789 as mipidsi::models::Model>::default_options().framebuffer_size()
}

pub open spec fn stock_geometry() -> PanelGeometry {
    PanelGeometry {
        native_width: 240,
        native_height: 320,
        visible_width: 240,
        visible_height: 320,
        offset_x: 0,
        offset_y: 0,
    }
}

impl PanelModel {
    pub open spec fn geometry_spec(self) -> PanelGeometry {
        match self {
            PanelModel::Stock => stock_geometry(),
            PanelModel::TDisplay => PanelGeometry {
                visible_width: TDISPLAY_WIDTH,
                visible_height: TDISPLAY_HEIGHT,
                offset_x: TDISPLAY_OFFSET_X,
                offset_y: TDISPLAY_OFFSET_Y,
                ..stock_geometry()
            },
        }
    }

    /// The fixed geometry of this panel.
    pub fn default_geometry(&self) -> (g: PanelGeometry)
        ensures
            g == self.geometry_spec(),
            g.wf(),
    {
        let (w, h) = st7789_framebuffer();
        let stock = PanelGeometry {
            native_width: w,
            native_height: h,
            visible_width: w,
            visible_height: h,
            offset_x: 0,
            offset_y: 0,
        };
        match self {
            PanelModel::Stock => stock,
            PanelModel::TDisplay => PanelGeometry {
                visible_width: TDISPLAY_WIDTH,
                visible_height: TDISPLAY_HEIGHT,
                offset_x: TDISPLAY_OFFSET_X,
                offset_y: TDISPLAY_OFFSET_Y,
                ..stock
            },
        }
    }

}

/// The reset pulse and its settle time, when a reset line is present.
pub open spec fn reset_ops(has_reset: bool) -> Seq<BusOpView> {
    if has_reset {
        seq![
            BusOpView::ResetLow,
            BusOpView::DelayUs(RESET_PULSE_US),
            BusOpView::ResetHigh,
            BusOpView::DelayUs(RESET_SETTLE_US),
        ]
    } else {
        Seq::empty()
    }
}

/// The bring-up commands, each with its parameters and settle time: software
/// reset, sleep out, 16-bit pixel format, display on.
pub open spec fn bring_up_ops() -> Seq<BusOpView> {
    seq![
        BusOpView::Command(SWRESET),
        BusOpView::DelayUs(RESET_SETTLE_US),
        BusOpView::Command(SLPOUT),
        BusOpView::DelayUs(COMMAND_SETTLE_US),
        BusOpView::Command(COLMOD),
        BusOpView::Data(seq![PIXEL_FORMAT_16BIT]),
        BusOpView::DelayUs(COMMAND_SETTLE_US),
        BusOpView::Command(DISPON),
        BusOpView::DelayUs(DISPLAY_ON_SETTLE_US),
    ]
}

/// The bring-up of every panel: the reset pulse when there is a reset line,
/// then the bring-up commands.
pub open spec fn init_ops(has_reset: bool) -> Seq<BusOpView> {
    reset_ops(has_reset) + bring_up_ops()
}

fn command_with(op: u8, params: Vec<u8>, ops: &mut Vec<BusOp>)
    ensures
        ops_view(final(ops)@) == ops_view(old(ops)@) + seq![BusOpView::Command(op), BusOpView::Data(params@)],
{
    let ghost start = ops@;
    ops.push(BusOp::Command(op));
    ops.push(BusOp::Data(params));
    assert(ops_view(ops@) =~= ops_view(start) + seq![BusOpView::Command(op), BusOpView::Data(params@)]);
}

impl PanelModel {
    /// The operations that bring the panel from power-up to showing pixels in
    /// 16-bit color, and the addressing mode byte `madctl`, which it confirms
    /// unchanged. The operations are the same for every panel.
    pub fn init(&self, has_reset: bool, madctl: u8) -> (r: (Vec<BusOp>, u8))
        ensures
            ops_view(r.0@) == init_ops(has_reset),
            r.1 == madctl,
    {
        let mut ops: Vec<BusOp> = Vec::new();
        if has_reset {
            push_op(&mut ops, BusOp::ResetLow);
            push_op(&mut ops, BusOp::DelayUs(RESET_PULSE_US));
            push_op(&mut ops, BusOp::ResetHigh);
            push_op(&mut ops, BusOp::DelayUs(RESET_SETTLE_US));
        }
        push_op(&mut ops, BusOp::Command(SWRESET));
        push_op(&mut ops, BusOp::DelayUs(RESET_SETTLE_US));
        push_op(&mut ops, BusOp::Command(SLPOUT));
        push_op(&mut ops, BusOp::DelayUs(COMMAND_SETTLE_US));
        let mut format: Vec<u8> = Vec::new();
        format.push(PIXEL_FORMAT_16BIT);
        assert(format@ =~= seq![PIXEL_FORMAT_16BIT]);
        command_with(COLMOD, format, &mut ops);
        push_op(&mut ops, BusOp::DelayUs(COMMAND_SETTLE_US));
        push_op(&mut ops, BusOp::Command(DISPON));
        push_op(&mut ops, BusOp::DelayUs(DISPLAY_ON_SETTLE_US));
        proof {
            assert(ops_view(ops@) =~= init_ops(has_reset));
        }
        (ops, madctl)
    }
}

/// Bring-up writes, after the reset pulse when there is a reset line, exactly
/// one of each bring-up command and no other, in this order: software reset,
/// sleep out, pixel format, display on. The reset pulse holds no command.
pub proof fn lemma_init_commands(has_reset: bool)
    ensures
        init_ops(has_reset).subrange(0, reset_ops(has_reset).len() as int) == reset_ops(has_reset),
        command_bytes(reset_ops(has_reset)) == Seq::<u8>::empty(),
        command_bytes(init_ops(has_reset)) == seq![SWRESET, SLPOUT, COLMOD, DISPON],
{
    let r = reset_ops(has_reset);
    assert(init_ops(has_reset).subrange(0, r.len() as int) =~= r);
    lemma_command_bytes_append(r, bring_up_ops());
    reveal_with_fuel(command_bytes, 10);
    assert(command_bytes(r) =~= Seq::<u8>::empty());
    assert(command_bytes(bring_up_ops()) =~= seq![SWRESET, SLPOUT, COLMOD, DISPON]);
}

} // verus!
