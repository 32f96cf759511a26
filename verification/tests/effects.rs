use feim::buffer::RawPixBuf;
use feim::color::{Gray, Nrgba64, Nrgba64Be};
use feim::effects::{
    bentley, blit_glyph, braille, depth_shade, invert, melt, melt_with, multiply, shade,
};
use feim::image::{Dimensions, Image, ImageMut};
use feim::prng::State;

fn image(width: usize, height: usize, pixels: &[(u16, u16, u16, u16)]) -> RawPixBuf<Nrgba64Be> {
    let mut buf: RawPixBuf<Nrgba64Be> = RawPixBuf::new(width, height);
    for (k, p) in pixels.iter().enumerate() {
        buf.pixel_set(k % width, k / width, Nrgba64::be(p.0, p.1, p.2, p.3));
    }
    buf
}

fn channels(buf: &RawPixBuf<Nrgba64Be>) -> Vec<(u16, u16, u16, u16)> {
    let (w, h) = buf.dimensions();
    let mut v = Vec::new();
    for y in 0..h {
        for x in 0..w {
            let c = buf.color_get(x, y);
            v.push((c.r(), c.g(), c.b(), c.a()));
        }
    }
    v
}

#[test]
fn invert_keeps_alpha() {
    let im = image(2, 1, &[(0, 0xffff, 0x1234, 0x8000), (1, 2, 3, 4)]);
    let out = invert(im);
    assert_eq!(
        channels(&out),
        vec![(0xffff, 0, 0xedcb, 0x8000), (0xfffe, 0xfffd, 0xfffc, 4)]
    );
}

#[test]
fn bentley_lifts_bright_pixels() {
    let mut pixels = Vec::new();
    for y in 0..255u16 {
        pixels.push((0xffff, 0xffff, 0xffff - y, 0xffff));
    }
    let im = image(1, 255, &pixels);
    let out = bentley(&im);
    let got = channels(&out);
    for y in 0..255usize {
        let from = y.saturating_sub(31);
        assert_eq!(got[y], pixels[from]);
    }
    let dark = image(1, 255, &vec![(0, 0, 0, 0xffff); 255]);
    assert_eq!(channels(&bentley(&dark)), channels(&dark));
}

#[test]
fn multiply_sums_products_of_upper_bytes() {
    let a = image(1, 1, &[(0x0200, 0x0300, 0x0400, 0xff00)]);
    let b = image(1, 1, &[(0x0300, 0x0500, 0x0700, 0xff00)]);
    let out = multiply(&a, &b).unwrap();
    assert_eq!(channels(&out), vec![(0x0600, 0x0f00, 0x1c00, (0xffu32 * 0xff << 8 & 0xffff) as u16)]);
    let a = image(2, 1, &[(0x0200, 0, 0, 0), (0x0300, 0, 0, 0)]);
    let b = image(1, 2, &[(0x0500, 0, 0, 0), (0x0700, 0, 0, 0)]);
    let out = multiply(&a, &b).unwrap();
    assert_eq!(out.dimensions(), (1, 1));
    assert_eq!(channels(&out), vec![((2 * 5 + 3 * 7) << 8, 0, 0, 0)]);
    let c = image(2, 2, &[(0, 0, 0, 0); 4]);
    assert_eq!(
        multiply(&a, &c).err(),
        Some("Width of second image is not the same as first image's height")
    );
}

#[test]
fn braille_raises_dots_of_dark_pixels() {
    let black = image(2, 4, &[(0, 0, 0, 0xffff); 8]);
    assert_eq!(braille(128, false, &black), "\u{28ff}\n".as_bytes().to_vec());
    assert_eq!(braille(128, true, &black), "\u{2800}\n".as_bytes().to_vec());
    let white = image(4, 4, &[(0xffff, 0xffff, 0xffff, 0xffff); 16]);
    assert_eq!(braille(128, false, &white), "\u{2800}\u{2800}\n".as_bytes().to_vec());
    let mut one = image(2, 8, &[(0xffff, 0xffff, 0xffff, 0xffff); 16]);
    one.pixel_set(1, 0, Nrgba64::be(0, 0, 0, 0xffff));
    one.pixel_set(0, 7, Nrgba64::be(0, 0, 0, 0xffff));
    assert_eq!(braille(128, false, &one), "\u{2808}\n\u{2840}\n".as_bytes().to_vec());
    let none = image(0, 0, &[]);
    assert_eq!(braille(128, false, &none), Vec::<u8>::new());
}

#[test]
fn shades() {
    assert_eq!(shade(7), Gray { y: 7 });
    assert_eq!(depth_shade(0), Gray { y: 75 });
    assert_eq!(depth_shade(8), Gray { y: 203 });
    assert_eq!(depth_shade(3), Gray { y: 123 });
    assert_eq!(depth_shade(16), Gray { y: ((256 + 75) & 0xff) as u8 });
}

#[test]
fn glyph_is_drawn_dark_on_light() {
    let mut buf = RawPixBuf::filled(4, 3, shade(0xff));
    blit_glyph(&mut buf, 1, 1, 2, 2, &[0xff, 0x80, 0x00, 0x01]);
    assert_eq!(
        buf.to_bytes(),
        vec![0xff, 0xff, 0xff, 0xff, 0xff, 0x00, 0x7f, 0xff, 0xff, 0xff, 0xfe, 0xff]
    );
}

fn reference_next(s: &mut [u64; 4]) -> u64 {
    let result = s[1].wrapping_mul(5).rotate_left(7).wrapping_mul(9);
    let t = s[1] << 17;
    s[2] ^= s[0];
    s[3] ^= s[1];
    s[1] ^= s[2];
    s[0] ^= s[3];
    s[2] ^= t;
    s[3] = s[3].rotate_left(45);
    result
}

#[test]
fn melt_lets_pixels_sink_where_the_generator_says() {
    let mut pixels = Vec::new();
    for k in 0..12u16 {
        pixels.push((k * 1000 % 7919, k, 0, (11 - k) * 300));
    }
    let im = image(3, 4, &pixels);
    let mut rng = State::from_seed(42);
    let mut probe = State::from_seed(42);
    let mut draws = Vec::new();
    for _ in 0..24 {
        draws.push(probe.next_state() as usize);
    }
    let out = melt_with(im, &mut rng);
    let weight = |p: &(u16, u16, u16, u16)| u64::from(Nrgba64::be(p.0, p.1, p.2, p.3));
    let mut expected = pixels.clone();
    for n in 0..12 {
        let x = draws[2 * n] % 3;
        let y0 = draws[2 * n + 1] % 3;
        for y in y0..3 {
            let fst = expected[y * 3 + x];
            let snd = expected[(y + 1) * 3 + x];
            if weight(&fst) > weight(&snd) {
                break;
            }
            expected[y * 3 + x] = snd;
            expected[(y + 1) * 3 + x] = fst;
        }
    }
    assert_eq!(channels(&out), expected);
    assert_eq!(rng.next_state(), probe.next_state());
    let mut reference = [1u64, 2, 3, 4];
    assert_eq!(reference_next(&mut reference), 2u64.wrapping_mul(5).rotate_left(7).wrapping_mul(9));
}

#[test]
fn melt_moves_pixels_within_their_columns() {
    let im = image(2, 3, &[(1, 0, 0, 0), (2, 0, 0, 0), (3, 0, 0, 0), (4, 0, 0, 0), (5, 0, 0, 0), (6, 0, 0, 0)]);
    let out = melt(im).unwrap();
    let got = channels(&out);
    let mut left: Vec<u16> = vec![got[0].0, got[2].0, got[4].0];
    let mut right: Vec<u16> = vec![got[1].0, got[3].0, got[5].0];
    left.sort();
    right.sort();
    assert_eq!(left, vec![1, 3, 5]);
    assert_eq!(right, vec![2, 4, 6]);
    let empty = image(0, 1, &[]);
    assert_eq!(melt(empty).unwrap().dimensions(), (0, 1));
}
