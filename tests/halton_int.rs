use physdes::halton_int::{Halton, VdCorput};

#[test]
fn vdcorput_base_two() {
    let mut gen = VdCorput::new(2, 10);
    assert_eq!(gen.pop(), 512);
    assert_eq!(gen.pop(), 256);
    assert_eq!(gen.pop(), 768);
    assert_eq!(gen.pop(), 128);
    gen.reseed(0);
    assert_eq!(gen.pop(), 512);
}

#[test]
fn vdcorput_drops_digits_past_the_scale() {
    let mut gen = VdCorput::new(2, 2);
    gen.reseed(3);
    // 4 = 100 in binary: only the two lowest digits count, and both are zero.
    assert_eq!(gen.pop(), 0);
}

#[test]
fn halton_two_axes() {
    let mut gen = Halton::new(&[2, 3], &[11, 7]);
    assert_eq!(gen.pop(), [1024, 729]);
    assert_eq!(gen.pop(), [512, 1458]);
    gen.reseed(0);
    assert_eq!(gen.pop(), [1024, 729]);
}
