//! Cropping of flat interleaved images.
//!
//! The crop window is given in pixels; turning a relative centre and size
//! into pixels is floating-point work done by the caller.

use vstd::prelude::*;
use vstd::arithmetic::div_mod::lemma_fundamental_div_mod_converse;

verus! {

/// The first row or column of a crop of `crop` pixels centred on `center`,
/// kept inside an axis of `full` pixels.
pub open spec fn crop_origin_spec(center: int, crop: int, full: int) -> int {
    let start = center - crop / 2;
    if start < 0 {
        0
    } else if start > full - crop {
        full - crop
    } else {
        start
    }
}

/// Where a crop of `crop` pixels centred on pixel `center` starts along an
/// axis of `full` pixels: half the crop before the centre, moved back inside
/// the axis where it would stick out.
pub fn crop_origin(center: isize, crop: usize, full: usize) -> (r: usize)
    requires
        1 <= crop <= full,
        full <= isize::MAX,
        center - crop / 2 >= isize::MIN,
    ensures
        r == crop_origin_spec(center as int, crop as int, full as int),
        r + crop <= full,
{
    let half = (crop / 2) as isize;
    let start = center - half;
    let last = (full - crop) as isize;
    if start < 0 {
        0
    } else if start > last {
        last as usize
    } else {
        start as usize
    }
}

/// Position of channel `c` of pixel (`x`, `y`) in a flat interleaved image
/// `w` pixels wide with `ch` channels.
pub open spec fn pixel_index(x: int, y: int, c: int, w: int, ch: int) -> int {
    (y * w + x) * ch + c
}

proof fn lemma_pixel_index_bound(x: int, y: int, c: int, w: int, h: int, ch: int)
    requires
        0 <= x < w,
        0 <= y < h,
        0 <= c < ch,
    ensures
        0 <= pixel_index(x, y, c, w, ch) < h * w * ch,
{
    assert(0 <= y * w + x < h * w) by (nonlinear_arith)
        requires 0 <= x < w, 0 <= y < h;
    assert(0 <= (y * w + x) * ch + c < h * w * ch) by (nonlinear_arith)
        requires 0 <= y * w + x < h * w, 0 <= c < ch;
}

proof fn lemma_pixel_index_unique(x: int, y: int, c: int, x2: int, y2: int, c2: int, w: int, ch: int)
    requires
        0 <= x < w,
        0 <= x2 < w,
        0 <= y,
        0 <= y2,
        0 <= c < ch,
        0 <= c2 < ch,
        pixel_index(x, y, c, w, ch) == pixel_index(x2, y2, c2, w, ch),
    ensures
        x == x2 && y == y2 && c == c2,
{
    let k = pixel_index(x, y, c, w, ch);
    lemma_fundamental_div_mod_converse(k, ch, y * w + x, c);
    lemma_fundamental_div_mod_converse(k, ch, y2 * w + x2, c2);
    lemma_fundamental_div_mod_converse(y * w + x, w, y, x);
    lemma_fundamental_div_mod_converse(y2 * w + x2, w, y2, x2);
}

/// `out` is the `crop_w` x `crop_h` window of `image` whose top-left pixel is
/// (`x0`, `y0`), for an image `width` pixels wide with `channels` channels.
pub open spec fn is_crop_of<T>(
    out: Seq<T>,
    image: Seq<T>,
    width: int,
    channels: int,
    x0: int,
    y0: int,
    crop_w: int,
    crop_h: int,
) -> bool {
    &&& out.len() == crop_h * crop_w * channels
    &&& forall|x: int, y: int, c: int|
        0 <= x < crop_w && 0 <= y < crop_h && 0 <= c < channels ==> out[pixel_index(x, y, c, crop_w, channels)]
            == image[pixel_index(x0 + x, y0 + y, c, width, channels)]
}

/// Copy the `crop_w` x `crop_h` window whose top-left pixel is (`x0`, `y0`)
/// out of a flat interleaved image of `width` x `height` pixels with
/// `channels` channels each.
pub fn crop_copy<T: Copy>(
    image: &[T],
    width: usize,
    height: usize,
    channels: usize,
    x0: usize,
    y0: usize,
    crop_w: usize,
    crop_h: usize,
) -> (out: Vec<T>)
    requires
        x0 + crop_w <= width,
        y0 + crop_h <= height,
        height * width * channels <= image@.len(),
    ensures
        is_crop_of(out@, image@, width as int, channels as int, x0 as int, y0 as int, crop_w as int, crop_h as int),
{
    let mut out: Vec<T> = Vec::new();
    let n = image.len();
    if channels == 0 {
        assert(crop_h * crop_w * channels == 0) by (nonlinear_arith)
            requires channels == 0;
        return out;
    }
    let ghost w = crop_w as int;
    let ghost ch = channels as int;
    proof {
        assert(height * width <= height * width * channels) by (nonlinear_arith)
            requires channels >= 1;
        assert(0 * crop_w * channels == 0);
    }
    let mut y: usize = 0;
    while y < crop_h
        invariant
            x0 + crop_w <= width,
            y0 + crop_h <= height,
            height * width * channels <= image@.len(),
            height * width <= image@.len(),
            image@.len() == n,
            channels >= 1,
            w == crop_w,
            ch == channels,
            0 <= y <= crop_h,
            out@.len() == y * crop_w * channels,
            forall|xx: int, yy: int, cc: int|
                0 <= xx < w && 0 <= yy < crop_h && 0 <= cc < ch && pixel_index(xx, yy, cc, w, ch)
                    < out@.len() ==> out@[pixel_index(xx, yy, cc, w, ch)] == image@[pixel_index(
                    x0 + xx,
                    y0 + yy,
                    cc,
                    width as int,
                    ch,
                )],
        decreases crop_h - y,
    {
        let mut x: usize = 0;
        while x < crop_w
            invariant
                x0 + crop_w <= width,
                y0 + crop_h <= height,
                height * width * channels <= image@.len(),
                height * width <= image@.len(),
                image@.len() == n,
                channels >= 1,
                w == crop_w,
                ch == channels,
                0 <= y < crop_h,
                0 <= x <= crop_w,
                out@.len() == (y * crop_w + x) * channels,
                forall|xx: int, yy: int, cc: int|
                    0 <= xx < w && 0 <= yy < crop_h && 0 <= cc < ch && pixel_index(xx, yy, cc, w, ch)
                        < out@.len() ==> out@[pixel_index(xx, yy, cc, w, ch)] == image@[pixel_index(
                        x0 + xx,
                        y0 + yy,
                        cc,
                        width as int,
                        ch,
                    )],
            decreases crop_w - x,
        {
            proof {
                lemma_pixel_index_bound(
                    (x0 + x) as int,
                    (y0 + y) as int,
                    0,
                    width as int,
                    height as int,
                    ch,
                );
                assert((y0 + y) * width + (x0 + x) < height * width) by (nonlinear_arith)
                    requires y0 + y < height, x0 + x < width;
            }
            let src = ((y0 + y) * width + (x0 + x)) * channels;
            let mut c: usize = 0;
            while c < channels
                invariant
                    x0 + crop_w <= width,
                    y0 + crop_h <= height,
                    height * width * channels <= image@.len(),
                    image@.len() == n,
                    w == crop_w,
                    ch == channels,
                    0 <= y < crop_h,
                    0 <= x < crop_w,
                    0 <= c <= channels,
                    src == pixel_index((x0 + x) as int, (y0 + y) as int, 0, width as int, ch),
                    out@.len() == pixel_index(x as int, y as int, c as int, w, ch),
                    forall|xx: int, yy: int, cc: int|
                        0 <= xx < w && 0 <= yy < crop_h && 0 <= cc < ch && pixel_index(
                            xx,
                            yy,
                            cc,
                            w,
                            ch,
                        ) < out@.len() ==> out@[pixel_index(xx, yy, cc, w, ch)]
                            == image@[pixel_index(x0 + xx, y0 + yy, cc, width as int, ch)],
                decreases channels - c,
            {
                proof {
                    lemma_pixel_index_bound(
                        (x0 + x) as int,
                        (y0 + y) as int,
                        c as int,
                        width as int,
                        height as int,
                        ch,
                    );
                }
                let v = image[src + c];
                let ghost len = out@.len();
                out.push(v);
                proof {
                    assert forall|xx: int, yy: int, cc: int|
                        0 <= xx < w && 0 <= yy < crop_h && 0 <= cc < ch && pixel_index(
                            xx,
                            yy,
                            cc,
                            w,
                            ch,
                        ) < out@.len() implies out@[pixel_index(xx, yy, cc, w, ch)]
                        == image@[pixel_index(x0 + xx, y0 + yy, cc, width as int, ch)] by {
                        if pixel_index(xx, yy, cc, w, ch) == len {
                            lemma_pixel_index_unique(xx, yy, cc, x as int, y as int, c as int, w, ch);
                        }
                    }
                }
                c = c + 1;
            }
            proof {
                assert((y * crop_w + x) * channels + channels == (y * crop_w + (x + 1)) * channels)
                    by (nonlinear_arith);
            }
            x = x + 1;
        }
        proof {
            assert((y * crop_w + crop_w) * channels == (y + 1) * crop_w * channels) by (nonlinear_arith);
        }
        y = y + 1;
    }
    proof {
        assert forall|x: int, y: int, c: int|
            0 <= x < crop_w && 0 <= y < crop_h && 0 <= c < channels implies out@[pixel_index(
            x,
            y,
            c,
            w,
            ch,
        )] == image@[pixel_index(x0 + x, y0 + y, c, width as int, ch)] by {
            lemma_pixel_index_bound(x, y, c, w, crop_h as int, ch);
            assert(crop_h * w * ch == crop_h * crop_w * channels);
        }
    }
    out
}

/// Cropping the whole image gives the image back.
pub proof fn lemma_full_crop_is_identity<T>(out: Seq<T>, image: Seq<T>, width: int, height: int, channels: int)
    requires
        width >= 1,
        channels >= 1,
        height >= 0,
        height * width * channels <= image.len(),
        is_crop_of(out, image, width, channels, 0, 0, width, height),
    ensures
        out == image.subrange(0, height * width * channels),
{
    let n = height * width * channels;
    assert forall|k: int| 0 <= k < n implies out[k] == image[k] by {
        let c = k % channels;
        let p = k / channels;
        let x = p % width;
        let y = p / width;
        vstd::arithmetic::div_mod::lemma_fundamental_div_mod(k, channels);
        vstd::arithmetic::div_mod::lemma_fundamental_div_mod(p, width);
        vstd::arithmetic::div_mod::lemma_div_pos_is_pos(k, channels);
        vstd::arithmetic::div_mod::lemma_div_pos_is_pos(p, width);
        assert(p * channels == channels * p) by (nonlinear_arith);
        assert(y * width == width * y) by (nonlinear_arith);
        assert(pixel_index(x, y, c, width, channels) == k);
        assert(y < height) by {
            assert(k < height * width * channels);
            assert(p < height * width) by (nonlinear_arith)
                requires k < height * width * channels, p == k / channels, channels >= 1, k >= 0;
            assert(y < height) by (nonlinear_arith)
                requires p < height * width, y == p / width, width >= 1, p >= 0;
        }
    }
    assert(out =~= image.subrange(0, n));
}

/// A crop window always lies inside the axis, and it is centred on the
/// requested pixel (starting half its size before it) whenever that fits;
/// otherwise it is pushed against the nearer end of the axis.
pub proof fn lemma_crop_origin_centres(center: int, crop: int, full: int)
    requires
        0 <= crop <= full,
    ensures
        0 <= crop_origin_spec(center, crop, full),
        crop_origin_spec(center, crop, full) + crop <= full,
        0 <= center - crop / 2 && center - crop / 2 + crop <= full ==> crop_origin_spec(center, crop, full)
            == center - crop / 2,
        center - crop / 2 < 0 ==> crop_origin_spec(center, crop, full) == 0,
        center - crop / 2 + crop > full ==> crop_origin_spec(center, crop, full) == full - crop,
{
}

} // verus!
