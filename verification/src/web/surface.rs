//! The pixels of a SPICE display surface as the RGBA bytes a canvas
//! takes.
use vstd::prelude::*;

verus! {

/// SPICE's bitmap format with two bytes per pixel (RGB 5-6-5).
pub const SPICE_BITMAP_FMT_16BIT: u32 = 6;

/// SPICE's bitmap format with three bytes per pixel.
pub const SPICE_BITMAP_FMT_24BIT: u32 = 7;

/// SPICE's bitmap format with four bytes per pixel.
pub const SPICE_BITMAP_FMT_32BIT: u32 = 8;

/// Three-byte pixels stored blue, green, red, in red, green, blue, alpha
/// order with full opacity; a partial pixel at the end is dropped.
pub open spec fn bgr_to_rgba(p: Seq<u8>) -> Seq<u8>
    decreases p.len(),
{
    if p.len() < 3 {
        Seq::empty()
    } else {
        seq![p[2], p[1], p[0], 255u8] + bgr_to_rgba(p.subrange(3, p.len() as int))
    }
}

/// The RGBA bytes of one little-endian RGB 5-6-5 pixel, each channel
/// shifted to the top of its byte.
pub open spec fn rgb565_pixel(lo: u8, hi: u8) -> Seq<u8> {
    let px = lo + hi * 256;
    seq![((px / 2048) % 32 * 8) as u8, ((px / 32) % 64 * 4) as u8, (px % 32 * 8) as u8, 255u8]
}

/// Two-byte RGB 5-6-5 pixels as RGBA; a partial pixel at the end is
/// dropped.
pub open spec fn rgb565_to_rgba(p: Seq<u8>) -> Seq<u8>
    decreases p.len(),
{
    if p.len() < 2 {
        Seq::empty()
    } else {
        rgb565_pixel(p[0], p[1]) + rgb565_to_rgba(p.subrange(2, p.len() as int))
    }
}

/// The RGBA bytes of a surface in a format, or `None` for a format the
/// canvas cannot show; 32-bit surfaces are taken as they are.
pub open spec fn surface_rgba_spec(format: u32, data: Seq<u8>) -> Option<Seq<u8>> {
    if format == SPICE_BITMAP_FMT_32BIT {
        Some(data)
    } else if format == SPICE_BITMAP_FMT_24BIT {
        Some(bgr_to_rgba(data))
    } else if format == SPICE_BITMAP_FMT_16BIT {
        Some(rgb565_to_rgba(data))
    } else {
        None
    }
}

/// The RGBA bytes of a surface's pixels.
pub fn surface_rgba(format: u32, data: &[u8]) -> (r: Option<Vec<u8>>)
    ensures
        match r {
            Some(v) => surface_rgba_spec(format, data@) == Some(v@),
            None => surface_rgba_spec(format, data@).is_none(),
        },
{
    if format == SPICE_BITMAP_FMT_32BIT {
        let mut v: Vec<u8> = Vec::new();
        let mut i: usize = 0;
        while i < data.len()
            invariant
                i <= data@.len(),
                v@ == data@.take(i as int),
            decreases data.len() - i,
        {
            v.push(data[i]);
            assert(data@.take(i + 1) == data@.take(i as int).push(data@[i as int]));
            i = i + 1;
        }
        assert(data@.take(data@.len() as int) == data@);
        Some(v)
    } else if format == SPICE_BITMAP_FMT_24BIT {
        let mut v: Vec<u8> = Vec::new();
        let mut i: usize = 0;
        assert(data@.subrange(0, data@.len() as int) == data@);
        while data.len() - i >= 3
            invariant
                i <= data@.len(),
                v@ + bgr_to_rgba(data@.subrange(i as int, data@.len() as int)) == bgr_to_rgba(data@),
            decreases data.len() - i,
        {
            let ghost rest = data@.subrange(i as int, data@.len() as int);
            proof {
                assert(rest.subrange(3, rest.len() as int) == data@.subrange(i + 3, data@.len() as int));
            }
            v.push(data[i + 2]);
            v.push(data[i + 1]);
            v.push(data[i]);
            v.push(255);
            i = i + 3;
        }
        proof {
            let tail = data@.subrange(i as int, data@.len() as int);
            assert(bgr_to_rgba(tail) =~= Seq::<u8>::empty());
            assert(v@ + Seq::<u8>::empty() =~= v@);
        }
        Some(v)
    } else if format == SPICE_BITMAP_FMT_16BIT {
        let mut v: Vec<u8> = Vec::new();
        let mut i: usize = 0;
        assert(data@.subrange(0, data@.len() as int) == data@);
        while data.len() - i >= 2
            invariant
                i <= data@.len(),
                v@ + rgb565_to_rgba(data@.subrange(i as int, data@.len() as int)) == rgb565_to_rgba(data@),
            decreases data.len() - i,
        {
            let ghost rest = data@.subrange(i as int, data@.len() as int);
            proof {
                assert(rest.subrange(2, rest.len() as int) == data@.subrange(i + 2, data@.len() as int));
            }
            let px: u32 = data[i] as u32 + data[i + 1] as u32 * 256;
            v.push(((px / 2048) % 32 * 8) as u8);
            v.push(((px / 32) % 64 * 4) as u8);
            v.push((px % 32 * 8) as u8);
            v.push(255);
            i = i + 2;
        }
        proof {
            let tail = data@.subrange(i as int, data@.len() as int);
            assert(rgb565_to_rgba(tail) =~= Seq::<u8>::empty());
            assert(v@ + Seq::<u8>::empty() =~= v@);
        }
        Some(v)
    } else {
        None
    }
}

} // verus!
