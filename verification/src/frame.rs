//! Conversion of the emulated screen's RGB24 frame into the RGBA8 texture
//! data the GPU takes.

use vstd::prelude::*;

verus! {

/// Pixels converted: as many as both buffers hold.
pub open spec fn converted_pixels(rgb_len: int, rgba_len: int) -> int {
    if rgb_len / 3 <= rgba_len / 4 {
        rgb_len / 3
    } else {
        rgba_len / 4
    }
}

/// `rgba` after the conversion of `rgb` into `before`: each pixel's three
/// colour bytes copied, its alpha byte opaque, the bytes past the converted
/// pixels untouched.
pub open spec fn is_converted(rgb: Seq<u8>, before: Seq<u8>, rgba: Seq<u8>) -> bool {
    let n = converted_pixels(rgb.len() as int, before.len() as int);
    &&& rgba.len() == before.len()
    &&& forall|p: int, c: int| 0 <= p < n && 0 <= c < 3 ==> #[trigger] rgba[4 * p + c] == rgb[3 * p + c]
    &&& forall|p: int| 0 <= p < n ==> #[trigger] rgba[4 * p + 3] == 255
    &&& forall|j: int| 4 * n <= j < rgba.len() ==> #[trigger] rgba[j] == before[j]
}

/// Copies the RGB24 frame into the RGBA8 buffer, pixel by pixel, with an
/// opaque alpha.
pub fn rgb24_to_rgba8(rgb: &[u8], rgba: &mut Vec<u8>)
    ensures
        is_converted(rgb@, old(rgba)@, final(rgba)@),
{
    let n = if rgb.len() / 3 <= rgba.len() / 4 {
        rgb.len() / 3
    } else {
        rgba.len() / 4
    };
    let ghost before = rgba@;
    let mut i: usize = 0;
    let mut i3: usize = 0;
    let mut i4: usize = 0;
    while i < n
        invariant
            n == converted_pixels(rgb@.len() as int, before.len() as int),
            i <= n,
            i3 == 3 * i,
            i4 == 4 * i,
            3 * n <= rgb@.len(),
            4 * n <= before.len(),
            before.len() <= usize::MAX,
            rgba@.len() == before.len(),
            forall|p: int, c: int| 0 <= p < i && 0 <= c < 3 ==> #[trigger] rgba@[4 * p + c] == rgb@[3 * p + c],
            forall|p: int| 0 <= p < i ==> #[trigger] rgba@[4 * p + 3] == 255,
            forall|j: int| 4 * i <= j < rgba@.len() ==> #[trigger] rgba@[j] == before[j],
        decreases n - i,
    {
        rgba.set(i4, rgb[i3]);
        rgba.set(i4 + 1, rgb[i3 + 1]);
        rgba.set(i4 + 2, rgb[i3 + 2]);
        rgba.set(i4 + 3, 255);
        proof {
            assert forall|p: int, c: int| 0 <= p < i + 1 && 0 <= c < 3 implies #[trigger] rgba@[4 * p + c]
                == rgb@[3 * p + c] by {
                if p == i {
                    assert(4 * p + c == i4 + c);
                    assert(3 * p + c == i3 + c);
                }
            }
        }
        i = i + 1;
        i3 = i3 + 3;
        i4 = i4 + 4;
    }
}

} // verus!
