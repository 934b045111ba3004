use playback::display::{resize_is_valid, ScaleMode};
use playback::yuv::{pack_plane, YuvBuffer};

#[test]
fn new_buffer_is_zeroed_and_sized() {
    let b = YuvBuffer::new(4, 2);
    assert_eq!(b.width(), 4);
    assert_eq!(b.height(), 2);
    assert_eq!(b.y_plane(), &vec![0u8; 8]);
    assert_eq!(b.u_plane(), &vec![0u8; 2]);
    assert_eq!(b.v_plane(), &vec![0u8; 2]);
}

#[test]
fn pack_plane_strips_the_stride() {
    // Two rows of three visible bytes inside a stride of four: the
    // padding byte of each source row must not reach the packed buffer.
    let src = [1u8, 2, 3, 99, 4, 5, 6, 98];
    let mut dst = vec![0u8; 6];
    pack_plane(&mut dst, &src, 2, 3, 4);
    assert_eq!(dst, vec![1, 2, 3, 4, 5, 6]);
}

#[test]
fn pack_plane_skips_rows_outside_the_source() {
    // The second row would read past the end of the source: it is left
    // as it was instead of being read out of bounds.
    let src = [7u8, 8, 9];
    let mut dst = vec![0xFFu8; 6];
    pack_plane(&mut dst, &src, 2, 3, 4);
    assert_eq!(dst, vec![7, 8, 9, 0xFF, 0xFF, 0xFF]);
}

#[test]
fn copy_from_frame_packs_all_three_planes() {
    // A 4x2 frame: the luma plane has stride 5, the quarter-resolution
    // chroma planes have stride 3.
    let y = [
        1u8, 2, 3, 4, 0, //
        5, 6, 7, 8, 0,
    ];
    let u = [21u8, 22, 0];
    let v = [31u8, 32, 0];
    let mut b = YuvBuffer::new(4, 2);
    b.copy_from_frame(4, 2, &y, 5, &u, 3, &v, 3);
    assert_eq!(b.y_plane(), &vec![1, 2, 3, 4, 5, 6, 7, 8]);
    assert_eq!(b.u_plane(), &vec![21, 22]);
    assert_eq!(b.v_plane(), &vec![31, 32]);
}

#[test]
fn copy_from_frame_with_an_empty_plane_reads_nothing() {
    let y = [9u8; 8];
    let v = [9u8; 2];
    let mut b = YuvBuffer::new(4, 2);
    b.copy_from_frame(4, 2, &y, 4, &[], 2, &v, 2);
    assert_eq!(b.y_plane(), &vec![0u8; 8]);
    assert_eq!(b.u_plane(), &vec![0u8; 2]);
    assert_eq!(b.v_plane(), &vec![0u8; 2]);
}

#[test]
fn copy_from_frame_resizes_for_new_dimensions() {
    let mut b = YuvBuffer::new(4, 2);
    let y = [3u8; 4];
    let u = [4u8; 1];
    let v = [5u8; 1];
    b.copy_from_frame(2, 2, &y, 2, &u, 1, &v, 1);
    assert_eq!(b.width(), 2);
    assert_eq!(b.height(), 2);
    assert_eq!(b.y_plane(), &vec![3u8; 4]);
    assert_eq!(b.u_plane(), &vec![4u8]);
    assert_eq!(b.v_plane(), &vec![5u8]);
}

#[test]
fn ensure_capacity_keeps_the_common_prefix() {
    let y = [1u8, 2, 3, 4];
    let u = [21u8];
    let v = [31u8];
    let mut b = YuvBuffer::new(2, 2);
    b.copy_from_frame(2, 2, &y, 2, &u, 1, &v, 1);
    b.ensure_capacity(2, 4);
    assert_eq!(b.y_plane(), &vec![1, 2, 3, 4, 0, 0, 0, 0]);
    assert_eq!(b.u_plane(), &vec![21, 0]);
    assert_eq!(b.v_plane(), &vec![31, 0]);
}

#[test]
fn scale_mode_toggles_between_fit_and_fill() {
    assert_eq!(ScaleMode::Fit.toggled(), ScaleMode::Fill);
    assert_eq!(ScaleMode::Fill.toggled(), ScaleMode::Fit);
    assert_eq!(ScaleMode::Fit.toggled().toggled(), ScaleMode::Fit);
}

#[test]
fn degenerate_resizes_are_rejected() {
    assert!(resize_is_valid(800, 600));
    assert!(!resize_is_valid(0, 600));
    assert!(!resize_is_valid(800, 0));
    assert!(!resize_is_valid(u32::MAX, 600));
    assert!(!resize_is_valid(800, u32::MAX));
}
