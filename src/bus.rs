use vstd::prelude::*;

verus! {

/// One write to the panel's bus, or one action on its reset line or clock.
#[derive(Clone, Debug, PartialEq, Eq)]
pub enum BusOp {
    /// A command byte, sent in the command phase.
    Command(u8),
    /// Parameter bytes, sent in the data phase.
    Data(Vec<u8>),
    /// `count` repetitions of one packed color, each sent big-endian in the data phase.
    Fill { color: u16, count: u32 },
    /// Packed colors, each sent big-endian in the data phase.
    Pixels(Vec<u16>),
    /// Drive the reset line low.
    ResetLow,
    /// Drive the reset line high.
    ResetHigh,
    /// Wait at least this many microseconds.
    DelayUs(u32),
}

/// What a bus operation is, with its payload as a sequence.
pub ghost enum BusOpView {
    Command(u8),
    Data(Seq<u8>),
    Fill { color: u16, count: u32 },
    Pixels(Seq<u16>),
    ResetLow,
    ResetHigh,
    DelayUs(u32),
}

impl View for BusOp {
    type V = BusOpView;

    open spec fn view(&self) -> BusOpView {
        match self {
            BusOp::Command(c) => BusOpView::Command(*c),
            BusOp::Data(d) => BusOpView::Data(d@),
            BusOp::Fill { color, count } => BusOpView::Fill { color: *color, count: *count },
            BusOp::Pixels(p) => BusOpView::Pixels(p@),
            BusOp::ResetLow => BusOpView::ResetLow,
            BusOp::ResetHigh => BusOpView::ResetHigh,
            BusOp::DelayUs(us) => BusOpView::DelayUs(*us),
        }
    }
}

/// The views of a sequence of operations.
pub open spec fn ops_view(ops: Seq<BusOp>) -> Seq<BusOpView> {
    ops.map_values(|o: BusOp| o@)
}

/// One byte as it crosses the bus, with its phase.
#[derive(Clone, Copy, Debug, PartialEq, Eq, Structural)]
pub struct BusByte {
    pub command: bool,
    pub value: u8,
}

/// Packs 5 bits of red, 6 of green and 5 of blue into one 16-bit color.
pub open spec fn rgb565_spec(r: int, g: int, b: int) -> int {
    r * 2048 + g * 32 + b
}

/// Fully black, in the packed 16-bit format.
pub const BLACK: u16 = 0x0000;

/// Fully white, in the packed 16-bit format.
pub const WHITE: u16 = 0xffff;

/// Packs a color from its three channels.
pub fn rgb565(r: u8, g: u8, b: u8) -> (c: u16)
    requires
        r < 32,
        g < 64,
        b < 32,
    ensures
        c == rgb565_spec(r as int, g as int, b as int),
{
    (r as u16) * 2048 + (g as u16) * 32 + (b as u16)
}

/// Byte `i` of a big-endian run of the 16-bit value `v`: the high byte at even
/// positions, the low byte at odd ones.
pub open spec fn be_byte(v: u16, i: int) -> u8 {
    if i % 2 == 0 {
        (v / 256) as u8
    } else {
        (v % 256) as u8
    }
}

pub open spec fn data_byte(b: u8) -> BusByte {
    BusByte { command: false, value: b }
}

/// The bytes that `n` repetitions of `color` put on the bus.
pub open spec fn fill_bytes(color: u16, n: nat) -> Seq<BusByte> {
    Seq::new(2 * n, |i: int| data_byte(be_byte(color, i)))
}

/// The bytes that a sequence of colors puts on the bus.
pub open spec fn pixel_bytes(colors: Seq<u16>) -> Seq<BusByte> {
    Seq::new(2 * colors.len(), |i: int| data_byte(be_byte(colors[i / 2], i)))
}

/// The bytes that one operation puts on the bus.
pub open spec fn op_bytes(op: BusOpView) -> Seq<BusByte> {
    match op {
        BusOpView::Command(c) => seq![BusByte { command: true, value: c }],
        BusOpView::Data(d) => d.map_values(|b: u8| data_byte(b)),
        BusOpView::Fill { color, count } => fill_bytes(color, count as nat),
        BusOpView::Pixels(p) => pixel_bytes(p),
        _ => Seq::empty(),
    }
}

/// The bytes that a sequence of operations puts on the bus, in order.
pub open spec fn stream(ops: Seq<BusOpView>) -> Seq<BusByte>
    decreases ops.len(),
{
    if ops.len() == 0 {
        Seq::empty()
    } else {
        stream(ops.drop_last()) + op_bytes(ops.last())
    }
}

/// Number of pixels that a sequence of operations streams.
pub open spec fn pixel_count(ops: Seq<BusOpView>) -> nat
    decreases ops.len(),
{
    if ops.len() == 0 {
        0
    } else {
        pixel_count(ops.drop_last()) + match ops.last() {
            BusOpView::Fill { count, .. } => count as nat,
            BusOpView::Pixels(p) => p.len(),
            _ => 0,
        }
    }
}

/// The bytes of two sequences of operations run one after the other.
pub proof fn lemma_stream_append(a: Seq<BusOpView>, b: Seq<BusOpView>)
    ensures
        stream(a + b) == stream(a) + stream(b),
        pixel_count(a + b) == pixel_count(a) + pixel_count(b),
    decreases b.len(),
{
    if b.len() == 0 {
        assert(a + b =~= a);
        assert(stream(a) + stream(b) =~= stream(a));
    } else {
        lemma_stream_append(a, b.drop_last());
        assert((a + b).drop_last() =~= a + b.drop_last());
        assert(stream(a) + stream(b) =~= stream(a) + stream(b.drop_last()) + op_bytes(b.last()));
    }
}

/// Appends one operation.
pub(crate) fn push_op(ops: &mut Vec<BusOp>, op: BusOp)
    ensures
        ops_view(final(ops)@) == ops_view(old(ops)@).push(op@),
{
    let ghost start = ops@;
    ops.push(op);
    assert(ops_view(ops@) =~= ops_view(start).push(op@));
}

/// The command bytes among a sequence of operations, in order.
pub open spec fn command_bytes(ops: Seq<BusOpView>) -> Seq<u8>
    decreases ops.len(),
{
    if ops.len() == 0 {
        Seq::empty()
    } else {
        command_bytes(ops.drop_last()) + match ops.last() {
            BusOpView::Command(c) => seq![c],
            _ => Seq::empty(),
        }
    }
}

/// The command bytes of two sequences of operations run one after the other.
pub proof fn lemma_command_bytes_append(a: Seq<BusOpView>, b: Seq<BusOpView>)
    ensures
        command_bytes(a + b) == command_bytes(a) + command_bytes(b),
    decreases b.len(),
{
    if b.len() == 0 {
        assert(a + b =~= a);
        assert(command_bytes(a) + command_bytes(b) =~= command_bytes(a));
    } else {
        lemma_command_bytes_append(a, b.drop_last());
        assert((a + b).drop_last() =~= a + b.drop_last());
        let tail = match b.last() {
            BusOpView::Command(c) => seq![c],
            _ => Seq::<u8>::empty(),
        };
        assert(command_bytes(a) + command_bytes(b) =~= command_bytes(a) + command_bytes(b.drop_last()) + tail);
    }
}

/// A transport that keeps every byte written to it, with its phase.
pub struct RecordingBus {
    pub writes: Vec<BusByte>,
}

impl RecordingBus {
    pub fn new() -> (bus: RecordingBus)
        ensures
            bus.writes@ == Seq::<BusByte>::empty(),
    {
        RecordingBus { writes: Vec::new() }
    }

    fn push_be(&mut self, v: u16)
        ensures
            final(self).writes@ == old(self).writes@ + seq![data_byte(be_byte(v, 0)), data_byte(be_byte(v, 1))],
    {
        self.writes.push(BusByte { command: false, value: (v / 256) as u8 });
        self.writes.push(BusByte { command: false, value: (v % 256) as u8 });
    }

    /// Records the bytes of one operation.
    pub fn apply(&mut self, op: &BusOp)
        ensures
            final(self).writes@ == old(self).writes@ + op_bytes(op@),
    {
        let ghost start = self.writes@;
        match op {
            BusOp::Command(c) => {
                self.writes.push(BusByte { command: true, value: *c });
            },
            BusOp::Data(d) => {
                let mut i: usize = 0;
                while i < d.len()
                    invariant
                        i <= d@.len(),
                        self.writes@ == start + d@.take(i as int).map_values(|b: u8| data_byte(b)),
                    decreases d@.len() - i,
                {
                    self.writes.push(BusByte { command: false, value: d[i] });
                    i += 1;
                    assert(d@.take(i as int).map_values(|b: u8| data_byte(b)) =~= d@.take(
                        (i - 1) as int,
                    ).map_values(|b: u8| data_byte(b)).push(data_byte(d@[i - 1])));
                }
                assert(d@.take(i as int) =~= d@);
            },
            BusOp::Fill { color, count } => {
                let mut k: u32 = 0;
                while k < *count
                    invariant
                        k <= *count,
                        self.writes@ == start + fill_bytes(*color, k as nat),
                    decreases *count - k,
                {
                    self.push_be(*color);
                    k += 1;
                    assert(fill_bytes(*color, k as nat) =~= fill_bytes(*color, (k - 1) as nat)
                        + seq![data_byte(be_byte(*color, 0)), data_byte(be_byte(*color, 1))]);
                }
            },
            BusOp::Pixels(p) => {
                let mut i: usize = 0;
                while i < p.len()
                    invariant
                        i <= p@.len(),
                        self.writes@ == start + pixel_bytes(p@.take(i as int)),
                    decreases p@.len() - i,
                {
                    self.push_be(p[i]);
                    i += 1;
                    assert(pixel_bytes(p@.take(i as int)) =~= pixel_bytes(p@.take((i - 1) as int))
                        + seq![data_byte(be_byte(p@[i - 1], 0)), data_byte(be_byte(p@[i - 1], 1))]);
                }
                assert(p@.take(i as int) =~= p@);
            },
            _ => {
                assert(op_bytes(op@) =~= Seq::<BusByte>::empty());
                assert(self.writes@ =~= start + op_bytes(op@));
            },
        }
    }

    /// Records the bytes of a sequence of operations, in order.
    pub fn apply_all(&mut self, ops: &Vec<BusOp>)
        ensures
            final(self).writes@ == old(self).writes@ + stream(ops_view(ops@)),
    {
        let ghost start = self.writes@;
        let mut i: usize = 0;
        while i < ops.len()
            invariant
                i <= ops@.len(),
                self.writes@ == start + stream(ops_view(ops@.take(i as int))),
            decreases ops@.len() - i,
        {
            self.apply(&ops[i]);
            i += 1;
            assert(ops_view(ops@.take(i as int)).drop_last() =~= ops_view(ops@.take((i - 1) as int)));
            assert(start + stream(ops_view(ops@.take(i as int))) =~= start + stream(
                ops_view(ops@.take((i - 1) as int)),
            ) + op_bytes(ops@[i - 1]@));
        }
        assert(ops@.take(i as int) =~= ops@);
    }
}

} // verus!
