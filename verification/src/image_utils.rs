//! Pixel-format conversion helpers for consumers that need RGBA byte order.

use vstd::prelude::*;
use vstd::arithmetic::div_mod::{
    lemma_fundamental_div_mod, lemma_fundamental_div_mod_converse,
};
use crate::frame::PixelFormat;

verus! {

#[derive(Debug, Clone, Copy, PartialEq, Eq, Structural)]
pub enum ImageError {
    PixelFormatNotSupported,
}

/// The buffer with the first and third byte of every complete four-byte
/// pixel exchanged; trailing bytes of a ragged buffer are untouched.
pub open spec fn bgra_swapped(s: Seq<u8>) -> Seq<u8> {
    Seq::new(
        s.len(),
        |k: int|
            if k < 4 * (s.len() as int / 4) {
                if k % 4 == 0 {
                    s[k + 2]
                } else if k % 4 == 2 {
                    s[k - 2]
                } else {
                    s[k]
                }
            } else {
                s[k]
            },
    )
}

/// Swaps the blue and red channel of every complete four-byte pixel in
/// place, turning BGRA bytes into RGBA bytes (and vice versa).
pub fn bgra_to_rgba(bytes: &mut Vec<u8>)
    ensures
        final(bytes)@ == bgra_swapped(old(bytes)@),
{
    let n: usize = bytes.len();
    let pixels: usize = n / 4;
    proof {
        lemma_fundamental_div_mod(n as int, 4);
    }
    let mut i: usize = 0;
    while i < pixels
        invariant
            i <= pixels,
            pixels == n as int / 4,
            4 * pixels <= n,
            bytes@.len() == n,
            old(bytes)@.len() == n,
            forall|k: int|
                0 <= k < 4 * i ==> bytes@[k] == bgra_swapped(old(bytes)@)[k],
            forall|k: int|
                4 * i <= k < n ==> bytes@[k] == old(bytes)@[k],
        decreases pixels - i,
    {
        let base: usize = 4 * i;
        let ghost prev = bytes@;
        let b: u8 = bytes[base];
        let r: u8 = bytes[base + 2];
        bytes[base] = r;
        bytes[base + 2] = b;
        proof {
            assert(bytes@ =~= prev.update(base as int, r).update(base as int + 2, b));
            assert forall|k: int| 0 <= k < 4 * (i + 1) implies bytes@[k] == bgra_swapped(
                old(bytes)@,
            )[k] by {
                if k < 4 * i {
                    assert(bytes@[k] == prev[k]);
                } else {
                    lemma_fundamental_div_mod_converse(k, 4, i as int, k - 4 * i);
                    assert(k % 4 == k - 4 * i);
                    assert(k < 4 * (n as int / 4));
                    assert(prev[k] == old(bytes)@[k]);
                    if k == base {
                        assert(bytes@[k] == r);
                        assert(prev[k + 2] == old(bytes)@[k + 2]);
                    } else if k == base + 2 {
                        assert(bytes@[k] == b);
                    } else {
                        assert(bytes@[k] == prev[k]);
                    }
                }
            }
        }
        i = i + 1;
    }
    proof {
        assert(bytes@ =~= bgra_swapped(old(bytes)@));
    }
}

/// Ensures a frame buffer is in RGBA byte order, converting from BGRA in
/// place when needed, and records the resulting format.
///
/// Every supported pixel format converts, so the call always succeeds; the
/// error variant reports a format the converter does not handle.
pub fn ensure_image_rgba(bytes: &mut Vec<u8>, image_format: &mut PixelFormat) -> (r: Result<
    (),
    ImageError,
>)
    ensures
        r == Ok::<(), ImageError>(()),
        *final(image_format) == PixelFormat::RGBA8,
        *old(image_format) == PixelFormat::RGBA8 ==> final(bytes)@ == old(bytes)@,
        *old(image_format) == PixelFormat::BGRA8 ==> final(bytes)@ == bgra_swapped(old(bytes)@),
{
    match *image_format {
        PixelFormat::RGBA8 => (),
        PixelFormat::BGRA8 => bgra_to_rgba(bytes),
    }
    *image_format = PixelFormat::RGBA8;
    Ok(())
}

} // verus!
