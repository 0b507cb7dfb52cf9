//! Captured frames and their pixel format.

use vstd::prelude::*;
use crate::geometry::{Rect, Vector2};

verus! {

/// Pixel layout of a frame's byte buffer. Both formats use four bytes per
/// pixel.
#[derive(Debug, Clone, Copy, PartialEq, Eq, Structural)]
pub enum PixelFormat {
    RGBA8,
    BGRA8,
}

/// Bytes each pixel occupies, for either format.
pub const BYTES_PER_PIXEL: usize = 4;

impl PixelFormat {
    pub fn bytes_per_pixel(&self) -> (n: usize)
        ensures
            n == BYTES_PER_PIXEL,
    {
        4
    }
}

/// One captured frame as handed to a consumer.
///
/// The pixel buffer is tightly packed, row-major, with no padding; it is
/// exclusively owned by the consumer once emitted and may be handed back to
/// the session's buffer pool on release.
#[derive(Debug, Clone)]
pub struct Frame {
    pub data: Vec<u8>,
    pub format: PixelFormat,
    pub size: Vector2<i32>,
    pub timestamp: i64,
    pub dirty_rects: Vec<Rect>,
}

/// The mathematical content of a [`Frame`].
pub struct FrameView {
    pub data: Seq<u8>,
    pub format: PixelFormat,
    pub width: int,
    pub height: int,
    pub timestamp: int,
    pub dirty_rects: Seq<Rect>,
}

impl View for Frame {
    type V = FrameView;

    open spec fn view(&self) -> FrameView {
        FrameView {
            data: self.data@,
            format: self.format,
            width: self.size.x as int,
            height: self.size.y as int,
            timestamp: self.timestamp as int,
            dirty_rects: self.dirty_rects@,
        }
    }
}

impl Frame {
    /// Duplicates a frame, byte for byte. Used when one arrival is delivered
    /// to several registered streams.
    pub fn duplicate(&self) -> (r: Frame)
        ensures
            r@ == self@,
    {
        let data = clone_bytes(&self.data);
        let dirty_rects = clone_rects(&self.dirty_rects);
        proof {
            assert(data@ =~= self.data@);
            assert(dirty_rects@ =~= self.dirty_rects@);
        }
        let r = Frame {
            data,
            format: self.format,
            size: self.size,
            timestamp: self.timestamp,
            dirty_rects,
        };
        proof {
            assert(r@ =~= self@);
        }
        r
    }
}

/// Copies a byte buffer.
fn clone_bytes(src: &Vec<u8>) -> (r: Vec<u8>)
    ensures
        r@ =~= src@,
{
    let mut r: Vec<u8> = Vec::new();
    let mut i: usize = 0;
    while i < src.len()
        invariant
            i <= src.len(),
            r@ =~= src@.take(i as int),
        decreases src.len() - i,
    {
        r.push(src[i]);
        i = i + 1;
        proof {
            assert(r@ =~= src@.take(i as int));
        }
    }
    proof {
        assert(src@.take(src@.len() as int) =~= src@);
    }
    r
}

/// Copies a list of dirty rectangles.
fn clone_rects(src: &Vec<Rect>) -> (r: Vec<Rect>)
    ensures
        r@ =~= src@,
{
    let mut r: Vec<Rect> = Vec::new();
    let mut i: usize = 0;
    while i < src.len()
        invariant
            i <= src.len(),
            r@ =~= src@.take(i as int),
        decreases src.len() - i,
    {
        r.push(src[i]);
        i = i + 1;
        proof {
            assert(r@ =~= src@.take(i as int));
        }
    }
    proof {
        assert(src@.take(src@.len() as int) =~= src@);
    }
    r
}

} // verus!
