//! Row-by-row readback of a mapped staging surface into a tightly packed
//! buffer.
//!
//! A mapped surface presents its rows at a platform-chosen row pitch that
//! may exceed `width * bytes_per_pixel`. Packing copies exactly the leading
//! `row_bytes` of each of `height` rows, dropping the alignment padding.

use vstd::prelude::*;
use vstd::arithmetic::div_mod::lemma_fundamental_div_mod_converse;

verus! {

/// The tightly packed image: byte `k` of the result is byte `k % row_bytes`
/// of source row `k / row_bytes`, where each source row starts `pitch` bytes
/// after the previous one.
pub open spec fn packed_rows(src: Seq<u8>, pitch: int, row_bytes: int, height: int) -> Seq<u8>
    recommends
        0 < row_bytes <= pitch,
        0 < height,
{
    Seq::new(
        (height * row_bytes) as nat,
        |k: int| src[(k / row_bytes) * pitch + (k % row_bytes)],
    )
}

/// Copies `height` rows of `row_bytes` bytes each out of `src`, whose rows
/// are `row_pitch` bytes apart, into `out`, which must already have the
/// packed length. Every byte of `out` is overwritten.
pub fn pack_rows(src: &Vec<u8>, row_pitch: usize, row_bytes: usize, height: usize, out: &mut Vec<
    u8,
>)
    requires
        0 < row_bytes <= row_pitch,
        0 < height,
        (height - 1) * row_pitch + row_bytes <= src@.len(),
        old(out)@.len() == height * row_bytes,
    ensures
        final(out)@ == packed_rows(src@, row_pitch as int, row_bytes as int, height as int),
{
    let src_len: usize = src.len();
    let out_len: usize = out.len();
    let mut y: usize = 0;
    while y < height
        invariant
            y <= height,
            0 < row_bytes <= row_pitch,
            0 < height,
            (height - 1) * row_pitch + row_bytes <= src@.len(),
            src@.len() == src_len,
            out@.len() == out_len,
            out@.len() == height * row_bytes,
            forall|k: int|
                0 <= k < y * row_bytes ==> out@[k] == src@[(k / (row_bytes as int)) * row_pitch + (
                k % (row_bytes as int))],
        decreases height - y,
    {
        proof {
            assert(y * row_pitch <= (height - 1) * row_pitch) by (nonlinear_arith)
                requires
                    y <= height - 1,
                    0 < row_pitch,
            ;
            assert(y * row_bytes <= (height - 1) * row_bytes) by (nonlinear_arith)
                requires
                    y <= height - 1,
                    0 < row_bytes,
            ;
            assert((height - 1) * row_bytes + row_bytes == height * row_bytes) by (nonlinear_arith);
        }
        let src_row: usize = y * row_pitch;
        let dst_row: usize = y * row_bytes;
        let mut i: usize = 0;
        while i < row_bytes
            invariant
                i <= row_bytes,
                y < height,
                0 < row_bytes <= row_pitch,
                0 < height,
                (height - 1) * row_pitch + row_bytes <= src@.len(),
                src_row == y * row_pitch,
                dst_row == y * row_bytes,
                src_row <= (height - 1) * row_pitch,
                dst_row <= (height - 1) * row_bytes,
                (height - 1) * row_bytes + row_bytes == height * row_bytes,
                src@.len() == src_len,
                out@.len() == out_len,
                out@.len() == height * row_bytes,
                forall|k: int|
                    0 <= k < dst_row + i ==> out@[k] == src@[(k / (row_bytes as int)) * row_pitch
                        + (k % (row_bytes as int))],
            decreases row_bytes - i,
        {
            let v: u8 = src[src_row + i];
            out[dst_row + i] = v;
            proof {
                lemma_fundamental_div_mod_converse(
                    (dst_row + i) as int,
                    row_bytes as int,
                    y as int,
                    i as int,
                );
                assert(((dst_row + i) as int) / (row_bytes as int) == y as int);
                assert(((dst_row + i) as int) % (row_bytes as int) == i as int);
            }
            i = i + 1;
        }
        proof {
            assert((y + 1) * row_bytes == y * row_bytes + row_bytes) by (nonlinear_arith);
        }
        y = y + 1;
    }
    proof {
        assert(out@ =~= packed_rows(
            src@,
            row_pitch as int,
            row_bytes as int,
            height as int,
        ));
    }
}

} // verus!
