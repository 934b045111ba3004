//! Packing decoded YUV 4:2:0 planes into tight buffers.
//!
//! A decoder hands out each plane with a stride — a row length in memory
//! that may exceed the visible row — while a texture upload wants rows
//! packed back to back.  This module owns that repacking: a triple of
//! tightly packed Y, U and V buffers, refilled from raw plane data row by
//! row.  A source row that does not fit inside its plane's data (a stride
//! smaller than the declared width, or truncated data) is left as it was
//! rather than read out of bounds; the collaborator that uploads the
//! buffers decides what to do with such frames.

use vstd::prelude::*;

use vstd::arithmetic::div_mod::lemma_fundamental_div_mod_converse;
use vstd::arithmetic::mul::{
    lemma_mul_inequality,
    lemma_mul_is_distributive_add_other_way,
    lemma_mul_upper_bound,
};

verus! {

/// A buffer resized to `n` bytes: truncated, or padded with zeros.
pub open spec fn resized(prev: Seq<u8>, n: nat) -> Seq<u8> {
    if n <= prev.len() {
        prev.take(n as int)
    } else {
        prev + Seq::new((n - prev.len()) as nat, |i: int| 0u8)
    }
}

/// The result of packing `rows` rows of `row_len` bytes out of a source
/// plane laid out with the given stride, over a base buffer of exactly
/// `rows * row_len` bytes.  Byte `i` belongs to row `i / row_len`; when
/// that row lies fully inside the source it is copied from there, and
/// otherwise the base buffer's byte shows through.
pub open spec fn packed_plane(
    base: Seq<u8>,
    src: Seq<u8>,
    rows: nat,
    row_len: nat,
    stride: nat,
) -> Seq<u8>
    recommends
        base.len() == rows * row_len,
{
    Seq::new(
        rows * row_len,
        |i: int|
            {
                let r = i / (row_len as int);
                let c = i % (row_len as int);
                if r * stride + row_len <= src.len() {
                    src[r * (stride as int) + c]
                } else {
                    base[i]
                }
            },
    )
}

/// Copies `rows` rows of `row_len` bytes from a strided source plane
/// into the tightly packed `dst`, skipping every row that is not fully
/// inside `src`; see [`packed_plane`].
pub fn pack_plane(dst: &mut Vec<u8>, src: &[u8], rows: usize, row_len: usize, stride: usize)
    requires
        old(dst).len() == rows * row_len,
        rows * stride + row_len <= usize::MAX,
    ensures
        final(dst)@ == packed_plane(old(dst)@, src@, rows as nat, row_len as nat, stride as nat),
{
    let ghost base = old(dst)@;
    let ghost packed = packed_plane(base, src@, rows as nat, row_len as nat, stride as nat);
    let mut r: usize = 0;
    while r < rows
        invariant
            r <= rows,
            dst.len() == rows * row_len,
            rows * stride + row_len <= usize::MAX,
            packed == packed_plane(base, src@, rows as nat, row_len as nat, stride as nat),
            base.len() == rows * row_len,
            forall|i: int| 0 <= i < r * row_len ==> dst@[i] == packed[i],
            forall|i: int| r * row_len <= i < dst.len() ==> dst@[i] == base[i],
        decreases rows - r,
    {
        proof {
            lemma_mul_inequality(r as int, rows as int, stride as int);
            lemma_mul_inequality(r as int + 1, rows as int, row_len as int);
            lemma_mul_is_distributive_add_other_way(row_len as int, r as int, 1);
            lemma_mul_is_distributive_add_other_way(stride as int, r as int, 1);
        }
        let row_start_src = r * stride;
        let row_start_dst = r * row_len;
        if row_len <= src.len() && row_start_src <= src.len() - row_len {
            let mut c: usize = 0;
            while c < row_len
                invariant
                    c <= row_len,
                    r < rows,
                    dst.len() == rows * row_len,
                    packed == packed_plane(base, src@, rows as nat, row_len as nat, stride as nat),
                    base.len() == rows * row_len,
                    row_start_src == r * stride,
                    row_start_dst == r * row_len,
                    src@.len() <= usize::MAX,
                    row_start_src + row_len <= src@.len(),
                    row_start_dst + row_len <= dst.len(),
                    forall|i: int| 0 <= i < row_start_dst + c ==> dst@[i] == packed[i],
                    forall|i: int| row_start_dst + c <= i < dst.len() ==> dst@[i] == base[i],
                decreases row_len - c,
            {
                dst[row_start_dst + c] = src[row_start_src + c];
                proof {
                    lemma_fundamental_div_mod_converse(
                        row_start_dst + c,
                        row_len as int,
                        r as int,
                        c as int,
                    );
                    assert(packed[row_start_dst + c] == src@[row_start_src + c]);
                }
                c += 1;
            }
        } else {
            proof {
                assert forall|i: int|
                    row_start_dst <= i < row_start_dst + row_len implies dst@[i]
                    == packed[i] by {
                    lemma_fundamental_div_mod_converse(
                        i,
                        row_len as int,
                        r as int,
                        i - row_start_dst,
                    );
                }
            }
        }
        r += 1;
    }
    proof {
        assert(dst@ =~= packed);
    }
}

/// The mathematical model of a [`YuvBuffer`].
pub ghost struct YuvView {
    /// The packed luma plane, `width * height` bytes.
    pub y: Seq<u8>,
    /// The packed blue-difference chroma plane, quarter resolution.
    pub u: Seq<u8>,
    /// The packed red-difference chroma plane, quarter resolution.
    pub v: Seq<u8>,
    /// The frame width, in pixels.
    pub width: u32,
    /// The frame height, in pixels.
    pub height: u32,
}

impl YuvView {
    /// The luma plane's size for these dimensions.
    pub open spec fn y_size(width: u32, height: u32) -> nat {
        (width * height) as nat
    }

    /// Each chroma plane's size for these dimensions: 4:2:0 subsampling
    /// halves both axes, rounding down.
    pub open spec fn uv_size(width: u32, height: u32) -> nat {
        ((width / 2) * (height / 2)) as nat
    }

    /// The buffer's invariant: every plane has exactly the size its
    /// dimensions call for.
    pub open spec fn wf(self) -> bool {
        &&& self.y.len() == Self::y_size(self.width, self.height)
        &&& self.u.len() == Self::uv_size(self.width, self.height)
        &&& self.v.len() == Self::uv_size(self.width, self.height)
    }
}

/// Tightly packed Y, U and V planes of one decoded 4:2:0 frame, reused
/// across frames to avoid reallocating per frame.
pub struct YuvBuffer {
    y: Vec<u8>,
    u: Vec<u8>,
    v: Vec<u8>,
    width: u32,
    height: u32,
}

impl View for YuvBuffer {
    type V = YuvView;

    closed spec fn view(&self) -> YuvView {
        YuvView { y: self.y@, u: self.u@, v: self.v@, width: self.width, height: self.height }
    }
}

/// Grows or shrinks one plane to exactly `n` bytes, padding with zeros;
/// see [`resized`].
fn resize_plane(plane: &mut Vec<u8>, n: usize)
    ensures
        final(plane)@ == resized(old(plane)@, n as nat),
{
    if n <= plane.len() {
        plane.truncate(n);
    } else {
        while plane.len() < n
            invariant
                old(plane).len() < n,
                old(plane).len() <= plane.len() <= n,
                plane@.take(old(plane).len() as int) == old(plane)@,
                forall|i: int| old(plane).len() <= i < plane.len() ==> plane@[i] == 0u8,
            decreases n - plane.len(),
        {
            let ghost before = plane@;
            plane.push(0u8);
            proof {
                assert(plane@.take(old(plane).len() as int) =~= before.take(
                    old(plane).len() as int,
                ));
            }
        }
        proof {
            assert(plane@ =~= resized(old(plane)@, n as nat));
        }
    }
    proof {
        if n <= old(plane).len() {
            assert(plane@ =~= resized(old(plane)@, n as nat));
        }
    }
}

impl YuvBuffer {
    /// The buffer's invariant; see [`YuvView::wf`].
    pub open spec fn wf(&self) -> bool {
        self@.wf()
    }

    /// Allocates zeroed planes for the given frame dimensions.
    pub fn new(width: u32, height: u32) -> (buffer: YuvBuffer)
        requires
            width * height <= u32::MAX,
        ensures
            buffer.wf(),
            buffer@.width == width,
            buffer@.height == height,
            forall|i: int| 0 <= i < buffer@.y.len() ==> buffer@.y[i] == 0u8,
            forall|i: int| 0 <= i < buffer@.u.len() ==> buffer@.u[i] == 0u8,
            forall|i: int| 0 <= i < buffer@.v.len() ==> buffer@.v[i] == 0u8,
    {
        proof {
            lemma_mul_upper_bound(width as int / 2, width as int, height as int / 2, height as int);
        }
        let y_size: usize = (width as usize) * (height as usize);
        let uv_size: usize = ((width / 2) as usize) * ((height / 2) as usize);
        let mut y: Vec<u8> = Vec::new();
        let mut u: Vec<u8> = Vec::new();
        let mut v: Vec<u8> = Vec::new();
        resize_plane(&mut y, y_size);
        resize_plane(&mut u, uv_size);
        resize_plane(&mut v, uv_size);
        YuvBuffer { y, u, v, width, height }
    }

    /// Resizes the planes for new frame dimensions, keeping what common
    /// prefix each plane had and zero-padding the rest; see [`resized`].
    pub fn ensure_capacity(&mut self, width: u32, height: u32)
        requires
            width * height <= u32::MAX,
        ensures
            final(self).wf(),
            final(self)@.width == width,
            final(self)@.height == height,
            final(self)@.y == resized(old(self)@.y, YuvView::y_size(width, height)),
            final(self)@.u == resized(old(self)@.u, YuvView::uv_size(width, height)),
            final(self)@.v == resized(old(self)@.v, YuvView::uv_size(width, height)),
    {
        proof {
            lemma_mul_upper_bound(width as int / 2, width as int, height as int / 2, height as int);
        }
        let y_size: usize = (width as usize) * (height as usize);
        let uv_size: usize = ((width / 2) as usize) * ((height / 2) as usize);
        resize_plane(&mut self.y, y_size);
        resize_plane(&mut self.u, uv_size);
        resize_plane(&mut self.v, uv_size);
        self.width = width;
        self.height = height;
    }

    /// Refills the planes from one decoded frame's raw plane data,
    /// resizing first when the frame's dimensions changed.  Each visible
    /// row is copied out of its strided source row; a frame with any
    /// empty plane is not read at all (its buffer keeps the resized
    /// contents), and a row that would reach outside its source data is
    /// skipped; see [`packed_plane`].
    pub fn copy_from_frame(
        &mut self,
        width: u32,
        height: u32,
        y_data: &[u8],
        y_stride: usize,
        u_data: &[u8],
        u_stride: usize,
        v_data: &[u8],
        v_stride: usize,
    )
        requires
            width * height <= u32::MAX,
            height * y_stride + width <= usize::MAX,
            (height / 2) * u_stride + width / 2 <= usize::MAX,
            (height / 2) * v_stride + width / 2 <= usize::MAX,
        ensures
            final(self).wf(),
            final(self)@.width == width,
            final(self)@.height == height,
            ({
                let y_base = resized(old(self)@.y, YuvView::y_size(width, height));
                let u_base = resized(old(self)@.u, YuvView::uv_size(width, height));
                let v_base = resized(old(self)@.v, YuvView::uv_size(width, height));
                if y_data@.len() == 0 || u_data@.len() == 0 || v_data@.len() == 0 {
                    &&& final(self)@.y == y_base
                    &&& final(self)@.u == u_base
                    &&& final(self)@.v == v_base
                } else {
                    &&& final(self)@.y == packed_plane(
                        y_base,
                        y_data@,
                        height as nat,
                        width as nat,
                        y_stride as nat,
                    )
                    &&& final(self)@.u == packed_plane(
                        u_base,
                        u_data@,
                        (height / 2) as nat,
                        (width / 2) as nat,
                        u_stride as nat,
                    )
                    &&& final(self)@.v == packed_plane(
                        v_base,
                        v_data@,
                        (height / 2) as nat,
                        (width / 2) as nat,
                        v_stride as nat,
                    )
                }
            }),
    {
        self.ensure_capacity(width, height);
        if y_data.len() == 0 || u_data.len() == 0 || v_data.len() == 0 {
            return ;
        }
        proof {
            assert((height as int) * (width as int) == (width as int) * (height as int))
                by (nonlinear_arith);
            assert(((height / 2) as int) * ((width / 2) as int) == ((width / 2) as int) * ((
            height / 2) as int)) by (nonlinear_arith);
        }
        pack_plane(&mut self.y, y_data, height as usize, width as usize, y_stride);
        pack_plane(&mut self.u, u_data, (height / 2) as usize, (width / 2) as usize, u_stride);
        pack_plane(&mut self.v, v_data, (height / 2) as usize, (width / 2) as usize, v_stride);
    }

    /// The frame width the planes are sized for.
    pub fn width(&self) -> (w: u32)
        ensures
            w == self@.width,
    {
        self.width
    }

    /// The frame height the planes are sized for.
    pub fn height(&self) -> (h: u32)
        ensures
            h == self@.height,
    {
        self.height
    }

    /// The packed luma plane.
    pub fn y_plane(&self) -> (p: &Vec<u8>)
        ensures
            p@ == self@.y,
    {
        &self.y
    }

    /// The packed blue-difference chroma plane.
    pub fn u_plane(&self) -> (p: &Vec<u8>)
        ensures
            p@ == self@.u,
    {
        &self.u
    }

    /// The packed red-difference chroma plane.
    pub fn v_plane(&self) -> (p: &Vec<u8>)
        ensures
            p@ == self@.v,
    {
        &self.v
    }
}

} // verus!
