//! The VNC (RFB) wire protocol on the client side: the messages the client
//! sends, and the reading of the messages the server sends.
use vstd::prelude::*;

use vstd::string::StringSliceAdditionalSpecFns;

use crate::text::{push_signed_decimal, signed_decimal};

verus! {

#[derive(Debug, Clone)]
pub struct PixelFormat {
    pub bits_per_pixel: u8,
    pub depth: u8,
    pub big_endian: bool,
    pub true_color: bool,
    pub red_max: u16,
    pub green_max: u16,
    pub blue_max: u16,
    pub red_shift: u8,
    pub green_shift: u8,
    pub blue_shift: u8,
}

/// 32 bits per pixel, depth 24, little endian true colour, eight bits per
/// channel with red in the third byte and blue in the first.
pub open spec fn is_default_format(f: PixelFormat) -> bool {
    &&& f.bits_per_pixel == 32
    &&& f.depth == 24
    &&& !f.big_endian
    &&& f.true_color
    &&& f.red_max == 255
    &&& f.green_max == 255
    &&& f.blue_max == 255
    &&& f.red_shift == 16
    &&& f.green_shift == 8
    &&& f.blue_shift == 0
}

impl Default for PixelFormat {
    fn default() -> (f: Self)
        ensures
            is_default_format(f),
    {
        PixelFormat {
            bits_per_pixel: 32,
            depth: 24,
            big_endian: false,
            true_color: true,
            red_max: 255,
            green_max: 255,
            blue_max: 255,
            red_shift: 16,
            green_shift: 8,
            blue_shift: 0,
        }
    }
}

#[derive(Debug, Clone)]
pub struct VncState {
    pub width: u32,
    pub height: u32,
    pub name: String,
    pub pixel_format: PixelFormat,
    pub framebuffer: Vec<u8>,
}

// ---------------------------------------------------------------------------
// Byte layout
// ---------------------------------------------------------------------------

pub open spec fn flag(b: bool) -> u8 {
    if b {
        1
    } else {
        0
    }
}

/// A 16-bit number in network byte order.
pub open spec fn be16(x: u16) -> Seq<u8> {
    seq![(x / 256) as u8, (x % 256) as u8]
}

/// A 32-bit number in network byte order.
pub open spec fn be32(x: u32) -> Seq<u8> {
    seq![(x / 0x100_0000) as u8, ((x / 0x1_0000) % 256) as u8, ((x / 256) % 256) as u8, (x % 256) as u8]
}

/// The two's complement bits of a signed 32-bit number.
pub open spec fn i32_bits(x: i32) -> u32 {
    if x < 0 {
        (x + 0x1_0000_0000) as u32
    } else {
        x as u32
    }
}

/// The 16-bit number in network byte order at `d[k..k + 2]`.
pub open spec fn read16(d: Seq<u8>, k: int) -> int {
    d[k] * 256 + d[k + 1]
}

/// The 32-bit number in network byte order at `d[k..k + 4]`.
pub open spec fn read32(d: Seq<u8>, k: int) -> int {
    d[k] * 0x100_0000 + d[k + 1] * 0x1_0000 + d[k + 2] * 256 + d[k + 3]
}

/// The signed 32-bit number in network byte order at `d[k..k + 4]`.
pub open spec fn read_i32(d: Seq<u8>, k: int) -> int {
    let u = read32(d, k);
    if u >= 0x8000_0000 {
        u - 0x1_0000_0000
    } else {
        u
    }
}

/// A 16-bit number written in network byte order reads back as itself.
pub proof fn law_be16_round_trip(x: u16)
    ensures
        read16(be16(x), 0) == x,
{
    let b = be16(x);
    assert(b[0] == x / 256 && b[1] == x % 256);
    assert((x / 256) * 256 + x % 256 == x) by (nonlinear_arith);
}

/// A 32-bit number written in network byte order reads back as itself.
pub proof fn law_be32_round_trip(x: u32)
    ensures
        read32(be32(x), 0) == x,
{
    let b = be32(x);
    let q1 = x / 0x100_0000;
    let q2 = x / 0x1_0000;
    let q3 = x / 256;
    assert(q1 < 256 && q2 < 0x1_0000 && q3 < 0x100_0000) by (nonlinear_arith)
        requires
            q1 == x / 0x100_0000,
            q2 == x / 0x1_0000,
            q3 == x / 256,
            0 <= x <= 0xFFFF_FFFF,
    ;
    assert(b[0] == q1 && b[1] == q2 % 256 && b[2] == q3 % 256 && b[3] == x % 256);
    assert(q1 * 0x100_0000 + (q2 % 256) * 0x1_0000 + (q3 % 256) * 256 + x % 256 == x) by (
    nonlinear_arith)
        requires
            q1 == x / 0x100_0000,
            q2 == x / 0x1_0000,
            q3 == x / 256,
            0 <= x,
    ;
}

/// A signed 32-bit number written as its two's complement bits reads
/// back as itself.
pub proof fn law_i32_round_trip(x: i32)
    ensures
        read_i32(be32(i32_bits(x)), 0) == x,
{
    law_be32_round_trip(i32_bits(x));
}

fn push16(v: &mut Vec<u8>, x: u16)
    ensures
        final(v)@ == old(v)@ + be16(x),
{
    v.push((x / 256) as u8);
    v.push((x % 256) as u8);
}

fn push32(v: &mut Vec<u8>, x: u32)
    ensures
        final(v)@ == old(v)@ + be32(x),
{
    v.push((x / 0x100_0000) as u8);
    v.push(((x / 0x1_0000) % 256) as u8);
    v.push(((x / 256) % 256) as u8);
    v.push((x % 256) as u8);
}

fn bits_of_i32(x: i32) -> (r: u32)
    ensures
        r == i32_bits(x),
{
    if x < 0 {
        (x as i64 + 0x1_0000_0000i64) as u32
    } else {
        x as u32
    }
}

fn read16_at(d: &[u8], k: usize) -> (r: u16)
    requires
        k + 2 <= d@.len(),
    ensures
        r == read16(d@, k as int),
{
    d[k] as u16 * 256 + d[k + 1] as u16
}

fn read32_at(d: &[u8], k: usize) -> (r: u32)
    requires
        k + 4 <= d@.len(),
    ensures
        r == read32(d@, k as int),
{
    d[k] as u32 * 0x100_0000 + d[k + 1] as u32 * 0x1_0000 + d[k + 2] as u32 * 256 + d[k + 3] as u32
}

// ---------------------------------------------------------------------------
// Client messages
// ---------------------------------------------------------------------------

/// The `SetPixelFormat` message for a format.
pub open spec fn pixel_format_message(f: PixelFormat) -> Seq<u8> {
    seq![0u8, 0, 0, 0, f.bits_per_pixel, f.depth, flag(f.big_endian), flag(f.true_color)] + be16(
        f.red_max,
    ) + be16(f.green_max) + be16(f.blue_max) + seq![f.red_shift, f.green_shift, f.blue_shift, 0u8, 0, 0]
}

/// The encodings of a `SetEncodings` message, each as four bytes.
pub open spec fn encodings_bytes(e: Seq<i32>) -> Seq<u8>
    decreases e.len(),
{
    if e.len() == 0 {
        Seq::empty()
    } else {
        encodings_bytes(e.drop_last()) + be32(i32_bits(e.last()))
    }
}

/// The `SetEncodings` message; the count field keeps the low 16 bits of
/// the number of encodings.
pub open spec fn encodings_message(e: Seq<i32>) -> Seq<u8> {
    seq![2u8, 0] + be16((e.len() % 0x1_0000) as u16) + encodings_bytes(e)
}

/// The `FramebufferUpdateRequest` message.
pub open spec fn update_request_message(incremental: bool, x: u16, y: u16, w: u16, h: u16) -> Seq<u8> {
    seq![3u8, flag(incremental)] + be16(x) + be16(y) + be16(w) + be16(h)
}

/// The `KeyEvent` message.
pub open spec fn key_message(down: bool, key: u32) -> Seq<u8> {
    seq![4u8, flag(down), 0, 0] + be32(key)
}

/// The `PointerEvent` message.
pub open spec fn pointer_message(mask: u8, x: u16, y: u16) -> Seq<u8> {
    seq![5u8, mask] + be16(x) + be16(y)
}

/// The `ClientCutText` message for UTF-8 bytes; the length field keeps the
/// low 32 bits of their number.
pub open spec fn cut_text_message(bytes: Seq<u8>) -> Seq<u8> {
    seq![6u8, 0, 0, 0] + be32((bytes.len() % 0x1_0000_0000) as u32) + bytes
}

// ---------------------------------------------------------------------------
// Server messages
// ---------------------------------------------------------------------------

/// A 32-bit pixel stored blue, green, red, unused, as the default format
/// lays it out, in red, green, blue, alpha order with full opacity; bytes
/// after the last whole pixel are dropped.
pub open spec fn bgrx_to_rgba(p: Seq<u8>) -> Seq<u8>
    decreases p.len(),
{
    if p.len() < 4 {
        Seq::empty()
    } else {
        seq![p[2], p[1], p[0], 255u8] + bgrx_to_rgba(p.subrange(4, p.len() as int))
    }
}

/// A decoded rectangle: position, size and its pixels as RGBA.
pub struct FramebufferRect {
    pub x: u16,
    pub y: u16,
    pub width: u16,
    pub height: u16,
    pub rgba: Vec<u8>,
}

pub open spec fn rect_view(r: FramebufferRect) -> (u16, u16, u16, u16, Seq<u8>) {
    (r.x, r.y, r.width, r.height, r.rgba@)
}

pub open spec fn rects_view(rs: Seq<FramebufferRect>) -> Seq<(u16, u16, u16, u16, Seq<u8>)> {
    rs.map_values(|r: FramebufferRect| rect_view(r))
}

/// Reads `n` rectangles of a framebuffer update from `d[off..]` with
/// `ps` bytes per pixel: the rectangles read before it stopped, and the
/// error that stopped it, if any.
pub open spec fn scan_rects(d: Seq<u8>, off: int, n: nat, ps: nat) -> (
    Seq<(u16, u16, u16, u16, Seq<u8>)>,
    Option<Seq<char>>,
)
    decreases n,
{
    if n == 0 {
        (Seq::empty(), None)
    } else if off + 12 > d.len() {
        (Seq::empty(), Some("Rectangle header incomplete"@))
    } else {
        let w = read16(d, off + 4);
        let h = read16(d, off + 6);
        let enc = read_i32(d, off + 8);
        let size = w * h * ps;
        if enc != 0 {
            (Seq::empty(), Some("Unsupported encoding: "@ + signed_decimal(enc)))
        } else if off + 12 + size > d.len() {
            (Seq::empty(), Some("Raw rectangle data incomplete"@))
        } else {
            let rect = (
                read16(d, off) as u16,
                read16(d, off + 2) as u16,
                w as u16,
                h as u16,
                bgrx_to_rgba(d.subrange(off + 12, off + 12 + size)),
            );
            let rest = scan_rects(d, off + 12 + size, (n - 1) as nat, ps);
            (seq![rect] + rest.0, rest.1)
        }
    }
}

/// What the client answers a server message with (`Ok`), or why it cannot
/// read it; `width` and `height` are the framebuffer's size.
pub open spec fn server_reply(d: Seq<u8>, width: u32, height: u32, ps: nat) -> Result<Seq<u8>, Seq<char>> {
    if d.len() == 0 {
        Ok(Seq::empty())
    } else if d[0] == 0 {
        if d.len() < 4 {
            Err("Framebuffer update too short"@)
        } else {
            match scan_rects(d, 4, read16(d, 2) as nat, ps).1 {
                Some(e) => Err(e),
                None => Ok(
                    update_request_message(
                        false,
                        0,
                        0,
                        (width % 0x1_0000) as u16,
                        (height % 0x1_0000) as u16,
                    ),
                ),
            }
        }
    } else if d[0] == 3 {
        if d.len() < 8 {
            Err("Server cut text too short"@)
        } else if d.len() < 8 + read32(d, 4) {
            Err("Server cut text incomplete"@)
        } else {
            Ok(Seq::empty())
        }
    } else {
        Ok(Seq::empty())
    }
}

/// The rectangles a server message delivers for drawing.
pub open spec fn delivered_rects(d: Seq<u8>, ps: nat) -> Seq<(u16, u16, u16, u16, Seq<u8>)> {
    if d.len() >= 4 && d[0] == 0 {
        scan_rects(d, 4, read16(d, 2) as nat, ps).0
    } else {
        Seq::empty()
    }
}

/// The header of a raw rectangle as a server writes it: position, size
/// and the raw encoding, each in network byte order.
pub open spec fn raw_rect_header(r: (u16, u16, u16, u16, Seq<u8>)) -> Seq<u8> {
    be16(r.0) + be16(r.1) + be16(r.2) + be16(r.3) + be32(0)
}

/// A raw rectangle as a server writes it: its header, then its pixels.
pub open spec fn raw_rect_bytes(r: (u16, u16, u16, u16, Seq<u8>)) -> Seq<u8> {
    raw_rect_header(r) + r.4
}

/// Raw rectangles written one after the other.
pub open spec fn raw_rects_bytes(rs: Seq<(u16, u16, u16, u16, Seq<u8>)>) -> Seq<u8>
    decreases rs.len(),
{
    if rs.len() == 0 {
        Seq::empty()
    } else {
        raw_rect_bytes(rs[0]) + raw_rects_bytes(rs.drop_first())
    }
}

/// Each rectangle carries four bytes for each of its pixels.
pub open spec fn whole_pixels(rs: Seq<(u16, u16, u16, u16, Seq<u8>)>) -> bool {
    forall|i: int| 0 <= i < rs.len() ==> (#[trigger] rs[i]).4.len() == rs[i].2 * rs[i].3 * 4
}

/// The rectangles as a client draws them: the same places and sizes, the
/// pixels turned into RGBA.
pub open spec fn as_drawn(rs: Seq<(u16, u16, u16, u16, Seq<u8>)>) -> Seq<(u16, u16, u16, u16, Seq<u8>)> {
    rs.map_values(|r: (u16, u16, u16, u16, Seq<u8>)| (r.0, r.1, r.2, r.3, bgrx_to_rgba(r.4)))
}

/// A framebuffer update message carrying raw rectangles.
pub open spec fn raw_update_message(rs: Seq<(u16, u16, u16, u16, Seq<u8>)>) -> Seq<u8> {
    seq![0u8, 0u8] + be16(rs.len() as u16) + raw_rects_bytes(rs)
}

proof fn lemma_read16_of(d: Seq<u8>, k: int, x: u16)
    requires
        0 <= k,
        k + 2 <= d.len(),
        d[k] == be16(x)[0],
        d[k + 1] == be16(x)[1],
    ensures
        read16(d, k) == x,
{
    law_be16_round_trip(x);
}

proof fn lemma_header_reads(d: Seq<u8>, off: int, r: (u16, u16, u16, u16, Seq<u8>))
    requires
        0 <= off,
        off + 12 <= d.len(),
        d.subrange(off, off + 12) == raw_rect_header(r),
    ensures
        read16(d, off) == r.0,
        read16(d, off + 2) == r.1,
        read16(d, off + 4) == r.2,
        read16(d, off + 6) == r.3,
        read_i32(d, off + 8) == 0,
{
    let h = raw_rect_header(r);
    let a = be16(r.0);
    let b = be16(r.1);
    let c = be16(r.2);
    let e = be16(r.3);
    assert(h =~= seq![a[0], a[1], b[0], b[1], c[0], c[1], e[0], e[1], 0u8, 0u8, 0u8, 0u8]);
    assert forall|j: int| 0 <= j < 12 implies d[off + j] == #[trigger] h[j] by {
        assert(d.subrange(off, off + 12)[j] == d[off + j]);
    }
    assert(d[off] == h[0] && d[off + 1] == h[1]);
    assert(d[off + 2] == h[2] && d[off + 3] == h[3]);
    assert(d[off + 4] == h[4] && d[off + 5] == h[5]);
    assert(d[off + 6] == h[6] && d[off + 7] == h[7]);
    assert(d[off + 8] == h[8] && d[off + 9] == h[9] && d[off + 10] == h[10] && d[off + 11]
        == h[11]);
    lemma_read16_of(d, off, r.0);
    lemma_read16_of(d, off + 2, r.1);
    lemma_read16_of(d, off + 4, r.2);
    lemma_read16_of(d, off + 6, r.3);
}

proof fn lemma_split_rect(
    pre: Seq<u8>,
    r: (u16, u16, u16, u16, Seq<u8>),
    more: Seq<u8>,
)
    ensures
        (pre + (raw_rect_bytes(r) + more)).subrange(pre.len() as int, pre.len() as int + 12)
            == raw_rect_header(r),
        (pre + (raw_rect_bytes(r) + more)).subrange(
            pre.len() as int + 12,
            pre.len() as int + 12 + r.4.len() as int,
        ) == r.4,
        pre + (raw_rect_bytes(r) + more) == (pre + raw_rect_bytes(r)) + more,
{
    let d = pre + (raw_rect_bytes(r) + more);
    let h = raw_rect_header(r);
    assert(h.len() == 12);
    assert(d =~= pre + h + r.4 + more);
    assert(d.subrange(pre.len() as int, pre.len() as int + 12) =~= h);
    assert(d.subrange(pre.len() as int + 12, pre.len() as int + 12 + r.4.len() as int) =~= r.4);
    assert(d =~= (pre + raw_rect_bytes(r)) + more);
}

proof fn lemma_scan_raw_step(d: Seq<u8>, off: int, n: nat, r: (u16, u16, u16, u16, Seq<u8>))
    requires
        n > 0,
        0 <= off,
        r.4.len() == r.2 * r.3 * 4,
        off + 12 + r.4.len() <= d.len(),
        d.subrange(off, off + 12) == raw_rect_header(r),
        d.subrange(off + 12, off + 12 + r.4.len()) == r.4,
    ensures
        scan_rects(d, off, n, 4) == (
            seq![(r.0, r.1, r.2, r.3, bgrx_to_rgba(r.4))] + scan_rects(
                d,
                off + 12 + r.4.len(),
                (n - 1) as nat,
                4,
            ).0,
            scan_rects(d, off + 12 + r.4.len(), (n - 1) as nat, 4).1,
        ),
{
    lemma_header_reads(d, off, r);
    let w = read16(d, off + 4);
    let h = read16(d, off + 6);
    assert(w * h * 4 == r.4.len());
}

/// Raw rectangles written one after the other, wherever they stand in a
/// message, read back as exactly those rectangles, in order, with no
/// error: each header follows the pixels of the rectangle before it.
pub proof fn law_raw_rects_round_trip(
    pre: Seq<u8>,
    rs: Seq<(u16, u16, u16, u16, Seq<u8>)>,
    tail: Seq<u8>,
)
    requires
        whole_pixels(rs),
    ensures
        scan_rects(pre + raw_rects_bytes(rs) + tail, pre.len() as int, rs.len(), 4) == (
            as_drawn(rs),
            None::<Seq<char>>,
        ),
    decreases rs.len(),
{
    let d = pre + raw_rects_bytes(rs) + tail;
    let off = pre.len() as int;
    if rs.len() == 0 {
        assert(as_drawn(rs) =~= Seq::empty());
    } else {
        let r = rs[0];
        let rest = rs.drop_first();
        let blk = raw_rect_bytes(r);
        let more = raw_rects_bytes(rest) + tail;
        assert(r.4.len() == r.2 * r.3 * 4);
        assert(d == pre + (blk + more)) by {
            assert(raw_rects_bytes(rs) == blk + raw_rects_bytes(rest));
            assert(d =~= pre + (blk + more));
        }
        lemma_split_rect(pre, r, more);
        lemma_scan_raw_step(d, off, rs.len(), r);
        assert(whole_pixels(rest)) by {
            assert forall|i: int| 0 <= i < rest.len() implies (#[trigger] rest[i]).4.len()
                == rest[i].2 * rest[i].3 * 4 by {
                assert(rest[i] == rs[i + 1]);
            }
        }
        law_raw_rects_round_trip(pre + blk, rest, tail);
        assert(d == (pre + blk) + raw_rects_bytes(rest) + tail) by {
            assert(d =~= (pre + blk) + raw_rects_bytes(rest) + tail);
        }
        assert((pre + blk).len() == off + 12 + r.4.len());
        assert(as_drawn(rs) =~= seq![(r.0, r.1, r.2, r.3, bgrx_to_rgba(r.4))] + as_drawn(rest));
    }
}

/// A framebuffer update that carries raw rectangles delivers exactly those
/// rectangles, in order, and is answered with a request for the next
/// update of the whole framebuffer.
pub proof fn law_raw_update_delivers_its_rects(
    rs: Seq<(u16, u16, u16, u16, Seq<u8>)>,
    width: u32,
    height: u32,
)
    requires
        whole_pixels(rs),
        rs.len() < 0x1_0000,
    ensures
        delivered_rects(raw_update_message(rs), 4) == as_drawn(rs),
        server_reply(raw_update_message(rs), width, height, 4) == Ok::<Seq<u8>, Seq<char>>(
            update_request_message(
                false,
                0,
                0,
                (width % 0x1_0000) as u16,
                (height % 0x1_0000) as u16,
            ),
        ),
{
    let n = rs.len() as u16;
    let pre = seq![0u8, 0u8] + be16(n);
    let m = raw_update_message(rs);
    assert(m == pre + raw_rects_bytes(rs) + Seq::<u8>::empty());
    law_raw_rects_round_trip(pre, rs, Seq::empty());
    assert(m[0] == 0);
    assert(m[2] == be16(n)[0] && m[3] == be16(n)[1]);
    lemma_read16_of(m, 2, n);
}

/// The client end of a VNC session: the framebuffer's description and the
/// decoded rectangles waiting to be drawn.
pub struct VncProtocolHandler {
    state: VncState,
    pending: Vec<FramebufferRect>,
}

impl VncProtocolHandler {
    /// The pixel format stays the default one, four bytes per pixel.
    pub closed spec fn wf(&self) -> bool {
        is_default_format(self.state.pixel_format)
    }

    pub closed spec fn width(&self) -> u32 {
        self.state.width
    }

    pub closed spec fn height(&self) -> u32 {
        self.state.height
    }

    /// The decoded rectangles not yet taken for drawing.
    pub closed spec fn pending(&self) -> Seq<(u16, u16, u16, u16, Seq<u8>)> {
        rects_view(self.pending@)
    }

    /// An 800 by 600 framebuffer in the default format, with nothing to
    /// draw.
    pub fn new() -> (h: Self)
        ensures
            h.wf(),
            h.width() == 800,
            h.height() == 600,
            h.pending() == Seq::<(u16, u16, u16, u16, Seq<u8>)>::empty(),
    {
        let h = VncProtocolHandler {
            state: VncState {
                width: 800,
                height: 600,
                name: String::new(),
                pixel_format: PixelFormat::default(),
                framebuffer: vec![0u8; 1920000],
            },
            pending: Vec::new(),
        };
        assert(rects_view(h.pending@) =~= Seq::empty());
        h
    }

    /// Reads one server message. Returns the bytes to send back, or why
    /// the message could not be read; the rectangles of a framebuffer
    /// update, up to the first fault, wait to be drawn.
    pub fn handle_server_message(&mut self, data: &[u8]) -> (r: Result<Vec<u8>, String>)
        requires
            old(self).wf(),
        ensures
            final(self).wf(),
            final(self).width() == old(self).width(),
            final(self).height() == old(self).height(),
            final(self).pending() == old(self).pending() + delivered_rects(data@, 4),
            match r {
                Ok(v) => server_reply(data@, old(self).width(), old(self).height(), 4) == Ok::<
                    Seq<u8>,
                    Seq<char>,
                >(v@),
                Err(e) => server_reply(data@, old(self).width(), old(self).height(), 4) == Err::<
                    Seq<u8>,
                    Seq<char>,
                >(e@),
            },
    {
        if data.len() == 0 {
            return Ok(Vec::new());
        }
        let kind = data[0];
        if kind == 0 {
            self.handle_framebuffer_update(data)
        } else if kind == 3 {
            Self::handle_server_cut_text(data)
        } else {
            Ok(Vec::new())
        }
    }

    fn handle_server_cut_text(data: &[u8]) -> (r: Result<Vec<u8>, String>)
        requires
            data@.len() > 0,
            data@[0] == 3,
        ensures
            match r {
                Ok(v) => server_reply(data@, 0, 0, 4) == Ok::<Seq<u8>, Seq<char>>(v@),
                Err(e) => server_reply(data@, 0, 0, 4) == Err::<Seq<u8>, Seq<char>>(e@),
            },
    {
        if data.len() < 8 {
            return Err("Server cut text too short".to_owned());
        }
        let length = read32_at(data, 4);
        if (data.len() as u64) < 8 + length as u64 {
            return Err("Server cut text incomplete".to_owned());
        }
        Ok(Vec::new())
    }

    fn handle_framebuffer_update(&mut self, data: &[u8]) -> (r: Result<Vec<u8>, String>)
        requires
            old(self).wf(),
            data@.len() > 0,
            data@[0] == 0,
        ensures
            final(self).wf(),
            final(self).width() == old(self).width(),
            final(self).height() == old(self).height(),
            final(self).pending() == old(self).pending() + delivered_rects(data@, 4),
            match r {
                Ok(v) => server_reply(data@, old(self).width(), old(self).height(), 4) == Ok::<
                    Seq<u8>,
                    Seq<char>,
                >(v@),
                Err(e) => server_reply(data@, old(self).width(), old(self).height(), 4) == Err::<
                    Seq<u8>,
                    Seq<char>,
                >(e@),
            },
    {
        if data.len() < 4 {
            assert(self.pending@ == old(self).pending@);
            assert(self.pending() == old(self).pending() + Seq::empty());
            return Err("Framebuffer update too short".to_owned());
        }
        let count = read16_at(data, 2);
        let ghost total = count as nat;
        let mut off: usize = 4;
        let mut left: u16 = count;
        let mut failure: Option<String> = None;
        while left > 0
            invariant_except_break
                failure.is_none(),
            invariant
                self.wf(),
                self.state.width == old(self).state.width,
                self.state.height == old(self).state.height,
                4 <= off <= data@.len(),
                left <= count,
                scan_rects(data@, 4, total, 4) == (
                    rects_view(self.pending@).subrange(
                        old(self).pending().len() as int,
                        rects_view(self.pending@).len() as int,
                    ) + scan_rects(data@, off as int, left as nat, 4).0,
                    scan_rects(data@, off as int, left as nat, 4).1,
                ),
                rects_view(self.pending@).subrange(0, old(self).pending().len() as int)
                    == old(self).pending(),
                old(self).pending().len() <= rects_view(self.pending@).len(),
                total == count,
                count == read16(data@, 2),
            ensures
                failure.is_none() ==> scan_rects(data@, 4, total, 4) == (
                    rects_view(self.pending@).subrange(
                        old(self).pending().len() as int,
                        rects_view(self.pending@).len() as int,
                    ),
                    None::<Seq<char>>,
                ),
                failure matches Some(e) ==> scan_rects(data@, 4, total, 4) == (
                    rects_view(self.pending@).subrange(
                        old(self).pending().len() as int,
                        rects_view(self.pending@).len() as int,
                    ),
                    Some(e@),
                ),
                self.wf(),
                self.state.width == old(self).state.width,
                self.state.height == old(self).state.height,
                rects_view(self.pending@).subrange(0, old(self).pending().len() as int)
                    == old(self).pending(),
                old(self).pending().len() <= rects_view(self.pending@).len(),
            decreases left,
        {
            let ghost prev = rects_view(self.pending@);
            let ghost base = old(self).pending().len() as int;
            if data.len() - off < 12 {
                failure = Some("Rectangle header incomplete".to_owned());
                proof {
                    assert(prev.subrange(base, prev.len() as int) + Seq::empty() == prev.subrange(
                        base,
                        prev.len() as int,
                    ));
                }
                break;
            }
            let x = read16_at(data, off);
            let y = read16_at(data, off + 2);
            let w = read16_at(data, off + 4);
            let h = read16_at(data, off + 6);
            let bits = read32_at(data, off + 8);
            if bits != 0 {
                let enc: i32 = if bits >= 0x8000_0000 {
                    (bits as i64 - 0x1_0000_0000i64) as i32
                } else {
                    bits as i32
                };
                let mut msg = "Unsupported encoding: ".to_owned();
                push_signed_decimal(&mut msg, enc as i64);
                failure = Some(msg);
                proof {
                    assert(prev.subrange(base, prev.len() as int) + Seq::empty() == prev.subrange(
                        base,
                        prev.len() as int,
                    ));
                }
                break;
            }
            proof {
                assert((w as int) * (h as int) <= 0xFFFF * 0xFFFF) by (nonlinear_arith)
                    requires
                        w <= 0xFFFF,
                        h <= 0xFFFF,
                ;
            }
            let size: u64 = (w as u64) * (h as u64) * 4;
            if size > (data.len() - off - 12) as u64 {
                failure = Some("Raw rectangle data incomplete".to_owned());
                proof {
                    assert(prev.subrange(base, prev.len() as int) + Seq::empty() == prev.subrange(
                        base,
                        prev.len() as int,
                    ));
                }
                break;
            }
            let start = off + 12;
            let end = start + size as usize;
            let rgba = bgrx_range_to_rgba(data, start, end);
            let rect = FramebufferRect { x, y, width: w, height: h, rgba };
            let ghost rv = rect_view(rect);
            self.pending.push(rect);
            proof {
                let now = rects_view(self.pending@);
                assert(now == prev.push(rv));
                assert(now.subrange(0, base) == prev.subrange(0, base));
                assert(now.subrange(base, now.len() as int) == prev.subrange(
                    base,
                    prev.len() as int,
                ).push(rv));
                let rest = scan_rects(data@, end as int, (left - 1) as nat, 4);
                assert(scan_rects(data@, off as int, left as nat, 4) == (
                    seq![rv] + rest.0,
                    rest.1,
                ));
                assert(prev.subrange(base, prev.len() as int) + (seq![rv] + rest.0) == now.subrange(
                    base,
                    now.len() as int,
                ) + rest.0);
            }
            off = end;
            left = left - 1;
        }
        proof {
            let now = rects_view(self.pending@);
            let base = old(self).pending().len() as int;
            assert(now == now.subrange(0, base) + now.subrange(base, now.len() as int));
        }
        match failure {
            Some(e) => Err(e),
            None => {
                let w = (self.state.width % 0x1_0000) as u16;
                let h = (self.state.height % 0x1_0000) as u16;
                Ok(self.framebuffer_update_request(false, 0, 0, w, h))
            },
        }
    }

    /// Hands out the decoded rectangles waiting to be drawn.
    pub fn take_pending(&mut self) -> (r: Vec<FramebufferRect>)
        requires
            old(self).wf(),
        ensures
            final(self).wf(),
            rects_view(r@) == old(self).pending(),
            final(self).pending() == Seq::<(u16, u16, u16, u16, Seq<u8>)>::empty(),
            final(self).width() == old(self).width(),
            final(self).height() == old(self).height(),
    {
        let mut r: Vec<FramebufferRect> = Vec::new();
        std::mem::swap(&mut r, &mut self.pending);
        assert(rects_view(self.pending@) =~= Seq::empty());
        r
    }

    /// The `SetPixelFormat` message.
    pub fn set_pixel_format(&self, pixel_format: &PixelFormat) -> (msg: Vec<u8>)
        ensures
            msg@ == pixel_format_message(*pixel_format),
    {
        let mut msg: Vec<u8> = Vec::new();
        msg.push(0);
        msg.push(0);
        msg.push(0);
        msg.push(0);
        msg.push(pixel_format.bits_per_pixel);
        msg.push(pixel_format.depth);
        msg.push(if pixel_format.big_endian { 1 } else { 0 });
        msg.push(if pixel_format.true_color { 1 } else { 0 });
        push16(&mut msg, pixel_format.red_max);
        push16(&mut msg, pixel_format.green_max);
        push16(&mut msg, pixel_format.blue_max);
        msg.push(pixel_format.red_shift);
        msg.push(pixel_format.green_shift);
        msg.push(pixel_format.blue_shift);
        msg.push(0);
        msg.push(0);
        msg.push(0);
        assert(msg@ =~= pixel_format_message(*pixel_format));
        msg
    }

    /// The `SetEncodings` message.
    pub fn set_encodings(&self, encodings: &[i32]) -> (msg: Vec<u8>)
        ensures
            msg@ == encodings_message(encodings@),
    {
        let mut msg: Vec<u8> = Vec::new();
        msg.push(2);
        msg.push(0);
        push16(&mut msg, (encodings.len() % 0x1_0000) as u16);
        let ghost head = msg@;
        let mut i: usize = 0;
        while i < encodings.len()
            invariant
                i <= encodings@.len(),
                msg@ == head + encodings_bytes(encodings@.take(i as int)),
            decreases encodings.len() - i,
        {
            push32(&mut msg, bits_of_i32(encodings[i]));
            proof {
                let t = encodings@.take(i + 1);
                assert(t.drop_last() == encodings@.take(i as int));
                assert(t.last() == encodings@[i as int]);
            }
            i = i + 1;
        }
        assert(encodings@.take(encodings@.len() as int) == encodings@);
        msg
    }

    /// The `FramebufferUpdateRequest` message.
    pub fn framebuffer_update_request(
        &self,
        incremental: bool,
        x: u16,
        y: u16,
        width: u16,
        height: u16,
    ) -> (msg: Vec<u8>)
        ensures
            msg@ == update_request_message(incremental, x, y, width, height),
    {
        let mut msg: Vec<u8> = Vec::new();
        msg.push(3);
        msg.push(if incremental { 1 } else { 0 });
        push16(&mut msg, x);
        push16(&mut msg, y);
        push16(&mut msg, width);
        push16(&mut msg, height);
        assert(msg@ =~= update_request_message(incremental, x, y, width, height));
        msg
    }

    /// The `KeyEvent` message.
    pub fn key_event(&self, down: bool, key: u32) -> (msg: Vec<u8>)
        ensures
            msg@ == key_message(down, key),
    {
        let mut msg: Vec<u8> = Vec::new();
        msg.push(4);
        msg.push(if down { 1 } else { 0 });
        msg.push(0);
        msg.push(0);
        push32(&mut msg, key);
        assert(msg@ =~= key_message(down, key));
        msg
    }

    /// The `PointerEvent` message.
    pub fn pointer_event(&self, button_mask: u8, x: u16, y: u16) -> (msg: Vec<u8>)
        ensures
            msg@ == pointer_message(button_mask, x, y),
    {
        let mut msg: Vec<u8> = Vec::new();
        msg.push(5);
        msg.push(button_mask);
        push16(&mut msg, x);
        push16(&mut msg, y);
        assert(msg@ =~= pointer_message(button_mask, x, y));
        msg
    }

    /// The `ClientCutText` message carrying the UTF-8 bytes of `text`.
    pub fn client_cut_text(&self, text: &str) -> (msg: Vec<u8>)
        ensures
            msg@ == cut_text_message(text.spec_bytes()),
    {
        let bytes = text.as_bytes();
        let mut msg: Vec<u8> = Vec::new();
        msg.push(6);
        msg.push(0);
        msg.push(0);
        msg.push(0);
        push32(&mut msg, (bytes.len() as u64 % 0x1_0000_0000) as u32);
        let ghost head = msg@;
        let mut i: usize = 0;
        while i < bytes.len()
            invariant
                i <= bytes@.len(),
                msg@ == head + bytes@.take(i as int),
            decreases bytes.len() - i,
        {
            msg.push(bytes[i]);
            assert(bytes@.take(i + 1) == bytes@.take(i as int).push(bytes@[i as int]));
            i = i + 1;
        }
        assert(bytes@.take(bytes@.len() as int) == bytes@);
        msg
    }
}

/// What the WebSocket carrying a VNC session reports.
pub enum VncEvent {
    Connected,
    Disconnected,
    Error(String),
    Data(Vec<u8>),
}

/// The messages a viewer sends once its connection opened: the default
/// pixel format, raw encoding only, and a full update of 800 by 600.
pub open spec fn opening_messages() -> Seq<Seq<u8>> {
    seq![
        pixel_format_message(PixelFormat {
            bits_per_pixel: 32,
            depth: 24,
            big_endian: false,
            true_color: true,
            red_max: 255,
            green_max: 255,
            blue_max: 255,
            red_shift: 16,
            green_shift: 8,
            blue_shift: 0,
        }),
        encodings_message(seq![0i32]),
        update_request_message(false, 0, 0, 800, 600),
    ]
}

pub open spec fn byte_views(v: Seq<Vec<u8>>) -> Seq<Seq<u8>> {
    v.map_values(|m: Vec<u8>| m@)
}

/// A viewer's side of a VNC session: its protocol state and whether the
/// connection is open.
pub struct VncSession {
    handler: VncProtocolHandler,
    connected: bool,
}

impl VncSession {
    pub closed spec fn wf(&self) -> bool {
        self.handler.wf()
    }

    pub closed spec fn is_connected(&self) -> bool {
        self.connected
    }

    pub closed spec fn screen(&self) -> (u32, u32) {
        (self.handler.width(), self.handler.height())
    }

    /// The rectangles decoded so far and not yet drawn.
    pub closed spec fn pending(&self) -> Seq<(u16, u16, u16, u16, Seq<u8>)> {
        self.handler.pending()
    }

    pub fn new() -> (s: Self)
        ensures
            s.wf(),
            !s.is_connected(),
            s.screen() == (800u32, 600u32),
            s.pending() == Seq::<(u16, u16, u16, u16, Seq<u8>)>::empty(),
    {
        VncSession { handler: VncProtocolHandler::new(), connected: false }
    }

    /// Handles one event of the connection: returns the messages to send
    /// and whether the session goes on. Opening sends the opening
    /// messages; closing or an error ends the session; data is read only
    /// while connected, its answer sent when there is one, and a message
    /// that cannot be read is dropped.
    pub fn on_event(&mut self, event: VncEvent) -> (r: (Vec<Vec<u8>>, bool))
        requires
            old(self).wf(),
        ensures
            final(self).wf(),
            final(self).screen() == old(self).screen(),
            match event {
                VncEvent::Connected => {
                    &&& byte_views(r.0@) == opening_messages()
                    &&& r.1
                    &&& final(self).is_connected()
                    &&& final(self).pending() == old(self).pending()
                },
                VncEvent::Disconnected => {
                    &&& r.0@.len() == 0
                    &&& !r.1
                    &&& !final(self).is_connected()
                    &&& final(self).pending() == old(self).pending()
                },
                VncEvent::Error(_) => {
                    &&& r.0@.len() == 0
                    &&& !r.1
                    &&& final(self).is_connected() == old(self).is_connected()
                    &&& final(self).pending() == old(self).pending()
                },
                VncEvent::Data(d) => {
                    &&& r.1
                    &&& final(self).is_connected() == old(self).is_connected()
                    &&& if old(self).is_connected() {
                        &&& final(self).pending() == old(self).pending() + delivered_rects(d@, 4)
                        &&& byte_views(r.0@) == (match server_reply(
                            d@,
                            old(self).screen().0,
                            old(self).screen().1,
                            4,
                        ) {
                            Ok(m) => if m.len() > 0 {
                                seq![m]
                            } else {
                                Seq::empty()
                            },
                            Err(_) => Seq::empty(),
                        })
                    } else {
                        &&& final(self).pending() == old(self).pending()
                        &&& r.0@.len() == 0
                    }
                },
            },
    {
        let mut out: Vec<Vec<u8>> = Vec::new();
        match event {
            VncEvent::Connected => {
                self.connected = true;
                let format = PixelFormat::default();
                out.push(self.handler.set_pixel_format(&format));
                let encodings: Vec<i32> = vec![0i32];
                out.push(self.handler.set_encodings(encodings.as_slice()));
                out.push(self.handler.framebuffer_update_request(false, 0, 0, 800, 600));
                proof {
                    assert(encodings@ =~= seq![0i32]);
                    assert(byte_views(out@) =~= opening_messages());
                }
                (out, true)
            },
            VncEvent::Disconnected => {
                self.connected = false;
                (out, false)
            },
            VncEvent::Error(_) => (out, false),
            VncEvent::Data(d) => {
                if self.connected {
                    match self.handler.handle_server_message(d.as_slice()) {
                        Ok(reply) => {
                            if reply.len() > 0 {
                                out.push(reply);
                                assert(byte_views(out@) =~= seq![out@[0]@]);
                            } else {
                                assert(byte_views(out@) =~= Seq::<Seq<u8>>::empty());
                            }
                        },
                        Err(_) => {
                            assert(byte_views(out@) =~= Seq::<Seq<u8>>::empty());
                        },
                    }
                }
                (out, true)
            },
        }
    }

    /// Hands out the decoded rectangles waiting to be drawn.
    pub fn take_pending(&mut self) -> (r: Vec<FramebufferRect>)
        requires
            old(self).wf(),
        ensures
            final(self).wf(),
            rects_view(r@) == old(self).pending(),
            final(self).pending() == Seq::<(u16, u16, u16, u16, Seq<u8>)>::empty(),
            final(self).screen() == old(self).screen(),
            final(self).is_connected() == old(self).is_connected(),
    {
        self.handler.take_pending()
    }
}

/// The pixels `data[start..end]` in the default format as RGBA.
fn bgrx_range_to_rgba(data: &[u8], start: usize, end: usize) -> (r: Vec<u8>)
    requires
        start <= end <= data@.len(),
    ensures
        r@ == bgrx_to_rgba(data@.subrange(start as int, end as int)),
{
    let mut r: Vec<u8> = Vec::new();
    let mut i = start;
    while end - i >= 4
        invariant
            start <= i <= end <= data@.len(),
            r@ + bgrx_to_rgba(data@.subrange(i as int, end as int)) == bgrx_to_rgba(
                data@.subrange(start as int, end as int),
            ),
        decreases end - i,
    {
        let ghost rest = data@.subrange(i as int, end as int);
        proof {
            assert(rest.subrange(4, rest.len() as int) == data@.subrange(i + 4, end as int));
            assert(bgrx_to_rgba(rest) == seq![rest[2], rest[1], rest[0], 255u8] + bgrx_to_rgba(
                data@.subrange(i + 4, end as int),
            ));
        }
        r.push(data[i + 2]);
        r.push(data[i + 1]);
        r.push(data[i]);
        r.push(255);
        proof {
            assert(r@ + bgrx_to_rgba(data@.subrange(i + 4, end as int)) == bgrx_to_rgba(
                data@.subrange(start as int, end as int),
            ));
        }
        i = i + 4;
    }
    r
}

} // verus!
