//! YUYV 4:2:2 to RGB color conversion.
//!
//! The input byte stream is consumed in groups of four bytes `[Y0, U, Y1, V]`,
//! each group encoding two horizontally adjacent pixels that share one chroma
//! pair.  Each pixel becomes three bytes `[R, G, B]` under the studio-range
//! integer YCbCr-to-RGB transform (constants 298, 409, 100, 208, 516).
//!
//! A trailing partial group (input length not a multiple of four) is dropped,
//! so the output always holds six bytes per complete input group.
use vstd::prelude::*;
use vstd::arithmetic::div_mod::lemma_div_is_ordered;
use vstd::arithmetic::div_mod::lemma_fundamental_div_mod;
use vstd::arithmetic::div_mod::lemma_fundamental_div_mod_converse;

verus! {

/// Clamp `v` into the inclusive range `[lo, hi]` (mathematical form).
pub open spec fn clamp_spec(v: int, lo: int, hi: int) -> int {
    if v < lo {
        lo
    } else if v > hi {
        hi
    } else {
        v
    }
}

/// Red channel of a pixel with luma `y` and red-difference chroma `v`.
///
/// The reference transform ends in an arithmetic right shift by eight bits,
/// which on any signed value equals flooring division by 256; with a positive
/// divisor, the `int` division written here is that flooring division.
pub open spec fn red_of(y: int, v: int) -> int {
    clamp_spec((298 * (y - 16) + 409 * (v - 128) + 128) / 256, 0, 255)
}

/// Green channel of a pixel with luma `y` and chroma pair `u`, `v`.
pub open spec fn green_of(y: int, u: int, v: int) -> int {
    clamp_spec((298 * (y - 16) - 100 * (u - 128) - 208 * (v - 128) + 128) / 256, 0, 255)
}

/// Blue channel of a pixel with luma `y` and blue-difference chroma `u`.
pub open spec fn blue_of(y: int, u: int) -> int {
    clamp_spec((298 * (y - 16) + 516 * (u - 128) + 128) / 256, 0, 255)
}

/// The six RGB bytes produced by one `[Y0, U, Y1, V]` group: two pixels
/// sharing the chroma pair `u`, `v`.
pub open spec fn group_rgb(y0: u8, u: u8, y1: u8, v: u8) -> Seq<u8> {
    seq![
        red_of(y0 as int, v as int) as u8,
        green_of(y0 as int, u as int, v as int) as u8,
        blue_of(y0 as int, u as int) as u8,
        red_of(y1 as int, v as int) as u8,
        green_of(y1 as int, u as int, v as int) as u8,
        blue_of(y1 as int, u as int) as u8,
    ]
}

/// The full RGB raster for a packed YUYV buffer: six output bytes for each
/// complete four-byte input group, in input order; a trailing partial group
/// contributes nothing.
pub open spec fn convert_spec(buf: Seq<u8>) -> Seq<u8> {
    Seq::new(
        (buf.len() / 4) * 6,
        |i: int|
            group_rgb(
                buf[4 * (i / 6)],
                buf[4 * (i / 6) + 1],
                buf[4 * (i / 6) + 2],
                buf[4 * (i / 6) + 3],
            )[i % 6],
    )
}

/// Helper function to clamp values.
pub fn clamp(value: i32, min: i32, max: i32) -> (r: i32)
    requires
        min <= max,
    ensures
        r == clamp_spec(value as int, min as int, max as int),
{
    if value < min {
        min
    } else if value > max {
        max
    } else {
        value
    }
}

/// Scale a transform sum down by 256 (the arithmetic right shift of the
/// reference transform) and clamp the result to one byte.
fn scale_clamp(t: i32) -> (r: u8)
    ensures
        r as int == clamp_spec(t as int / 256, 0, 255),
{
    if t < 0 {
        proof {
            lemma_div_is_ordered(t as int, -1, 256);
            assert((-1int) / 256 == -1) by (nonlinear_arith);
        }
        0
    } else if t >= 65536 {
        proof {
            lemma_div_is_ordered(65536, t as int, 256);
            assert(65536int / 256 == 256) by (nonlinear_arith);
        }
        255
    } else {
        ((t as u32) / 256) as u8
    }
}

/// Convert YUYV encoded buffer to an RGB image buffer.
///
/// The output is pinned pointwise by [`convert_spec`]; `width` and `height`
/// play no part in the conversion itself, but when the buffer has the exact
/// packed size of a `width` by `height` frame with an even pixel count, the
/// output has the exact size of its tightly packed RGB raster.
#[verifier::rlimit(60)]
pub fn convert_yuyv_to_rgb(buffer: &[u8], width: u32, height: u32) -> (img: Vec<u8>)
    ensures
        img@ == convert_spec(buffer@),
        img@.len() == (buffer@.len() / 4) * 6,
        buffer@.len() % 4 == 0 ==> 2 * img@.len() == 3 * buffer@.len(),
        buffer@.len() == 2 * (width * height) && (width * height) % 2 == 0 ==> img@.len() == 3
            * (width * height),
{
    let n = buffer.len();
    let groups = n / 4;
    let mut img: Vec<u8> = Vec::new();
    let mut g: usize = 0;
    while g < groups
        invariant
            n == buffer@.len(),
            groups == n / 4,
            g <= groups,
            img@.len() == 6 * g,
            forall|i: int| 0 <= i < 6 * g ==> img@[i] == convert_spec(buffer@)[i],
        decreases groups - g,
    {
        proof {
            lemma_fundamental_div_mod(n as int, 4);
        }
        let y0 = buffer[4 * g] as i32;
        let u = buffer[4 * g + 1] as i32;
        let y1 = buffer[4 * g + 2] as i32;
        let v = buffer[4 * g + 3] as i32;

        let c = y0 - 16;
        let d = u - 128;
        let e = v - 128;

        let r0 = scale_clamp(298 * c + 409 * e + 128);
        let g0 = scale_clamp(298 * c - 100 * d - 208 * e + 128);
        let b0 = scale_clamp(298 * c + 516 * d + 128);

        let c = y1 - 16;
        let r1 = scale_clamp(298 * c + 409 * e + 128);
        let g1 = scale_clamp(298 * c - 100 * d - 208 * e + 128);
        let b1 = scale_clamp(298 * c + 516 * d + 128);

        img.push(r0);
        img.push(g0);
        img.push(b0);
        img.push(r1);
        img.push(g1);
        img.push(b1);

        proof {
            let grp = group_rgb(
                buffer@[4 * g as int],
                buffer@[4 * g + 1],
                buffer@[4 * g + 2],
                buffer@[4 * g + 3],
            );
            assert forall|k: int| 0 <= k < 6 implies #[trigger] convert_spec(buffer@)[6 * g + k]
                == grp[k] by {
                lemma_fundamental_div_mod_converse(6 * g + k, 6, g as int, k);
            }
            assert(img@[6 * g + 0] == grp[0]);
            assert(img@[6 * g + 1] == grp[1]);
            assert(img@[6 * g + 2] == grp[2]);
            assert(img@[6 * g + 3] == grp[3]);
            assert(img@[6 * g + 4] == grp[4]);
            assert(img@[6 * g + 5] == grp[5]);
        }
        g += 1;
    }
    proof {
        assert(img@ =~= convert_spec(buffer@));
        if buffer@.len() % 4 == 0 {
            lemma_fundamental_div_mod(buffer@.len() as int, 4);
        }
        if buffer@.len() == 2 * (width * height) && (width * height) % 2 == 0 {
            lemma_fundamental_div_mod((width * height) as int, 2);
            lemma_fundamental_div_mod(buffer@.len() as int, 4);
        }
    }
    img
}

/// Gray fidelity: in a buffer whose chroma bytes are all 128 (a monochrome
/// signal), every converted pixel has equal red, green and blue channels.
pub proof fn lemma_monochrome_gray(buf: Seq<u8>, p: int)
    requires
        forall|gr: int|
            0 <= gr < buf.len() / 4 ==> buf[#[trigger] (4 * gr) + 1] == 128 && buf[4 * gr + 3]
                == 128,
        0 <= p,
        3 * p + 2 < (buf.len() / 4) * 6,
    ensures
        convert_spec(buf)[3 * p] == convert_spec(buf)[3 * p + 1],
        convert_spec(buf)[3 * p + 1] == convert_spec(buf)[3 * p + 2],
{
    let gr = p / 2;
    let k = p % 2;
    lemma_fundamental_div_mod(p, 2);
    lemma_fundamental_div_mod_converse(3 * p + 0, 6, gr, 3 * k + 0);
    lemma_fundamental_div_mod_converse(3 * p + 1, 6, gr, 3 * k + 1);
    lemma_fundamental_div_mod_converse(3 * p + 2, 6, gr, 3 * k + 2);
    assert(gr < buf.len() / 4) by {
        lemma_fundamental_div_mod(buf.len() as int, 4);
    }
    assert(buf[4 * gr + 1] == 128 && buf[4 * gr + 3] == 128);
}

/// The conversion is deterministic: any two results of converting the same
/// buffer are byte-for-byte identical.  The executable converter's result is
/// pinned to [`convert_spec`], so two calls on one buffer cannot differ.
pub proof fn lemma_convert_deterministic(buf: Seq<u8>, first: Seq<u8>, second: Seq<u8>)
    requires
        first == convert_spec(buf),
        second == convert_spec(buf),
    ensures
        first == second,
{
}

} // verus!
