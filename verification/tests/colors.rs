use feim::color::convert::{ConvertFrom, ConvertInto};
use feim::color::{
    Cmyk, Color, Gray, Gray16, Gray16Be, Gray16Le, Gray16Ne, Nrgba, Nrgba64, Nrgba64Be,
    Nrgba64Le, Nrgba64Ne, Rgb, Rgb48, Rgb48Be, Rgb48Le, Rgb48Ne, Zero,
};
use feim::specialized::{Aye, No};

#[test]
fn gray_is_stretched_to_16_bits() {
    assert_eq!(Gray { y: 0 }.as_rgba(), (0, 0, 0, 0xffff));
    assert_eq!(Gray { y: 0x12 }.as_rgba(), (0x1212, 0x1212, 0x1212, 0xffff));
    assert_eq!(Gray { y: 0xff }.as_rgba(), (0xffff, 0xffff, 0xffff, 0xffff));
}

#[test]
fn rgb_and_nrgba_are_stretched_to_16_bits() {
    assert_eq!(Rgb { r: 1, g: 2, b: 3 }.as_rgba(), (0x0101, 0x0202, 0x0303, 0xffff));
    assert_eq!(
        Nrgba { r: 1, g: 2, b: 3, a: 0x80 }.as_rgba(),
        (0x0101, 0x0202, 0x0303, 0x8080)
    );
}

#[test]
fn luminance_has_the_jfif_weights() {
    let white = Rgb { r: 255, g: 255, b: 255 };
    let g: Gray = <Gray as ConvertFrom<Rgb>>::convert_from(white);
    assert_eq!(g, Gray { y: 255 });
    let red = Rgb { r: 255, g: 0, b: 0 };
    let g: Gray = <Gray as ConvertFrom<Rgb>>::convert_from(red);
    // (19595 * 65535 + 32768) >> 24
    assert_eq!(g.y, 76);
    let g16: Gray16Ne = <Gray16Ne as ConvertFrom<Rgb>>::convert_from(red);
    // (19595 * 65535 + 32768) >> 16
    assert_eq!(g16.y(), 19595);
    let green = Rgb { r: 0, g: 255, b: 0 };
    let g16: Gray16Be = <Gray16Be as ConvertFrom<Rgb>>::convert_from(green);
    // (38470 * 65535 + 32768) >> 16
    assert_eq!(g16.y(), 38469);
    let blue = Rgb { r: 0, g: 0, b: 255 };
    let g16: Gray16Le = <Gray16Le as ConvertFrom<Rgb>>::convert_from(blue);
    assert_eq!(g16.y(), 7471);
}

#[test]
fn converting_a_colour_into_itself_changes_nothing() {
    let c = Nrgba { r: 9, g: 8, b: 7, a: 6 };
    let d: Nrgba = <Nrgba as ConvertInto<Nrgba, feim::specialized::For<Nrgba>>>::convert_into(c);
    assert_eq!(c, d);
}

#[test]
fn narrowing_keeps_the_upper_byte() {
    let c = Nrgba64::ne(0x1234, 0xabcd, 0x00ff, 0xffff);
    let n: Nrgba = <Nrgba as ConvertFrom<Nrgba64Ne>>::convert_from(c);
    assert_eq!(n, Nrgba { r: 0x12, g: 0xab, b: 0x00, a: 0xff });
    let r: Rgb = <Nrgba64Ne as ConvertInto<Rgb, No>>::convert_into(c);
    assert_eq!(r, Rgb { r: 0x12, g: 0xab, b: 0x00 });
}

#[test]
fn nrgba64_is_premultiplied() {
    let c = Nrgba64::ne(0xffff, 0x8000, 0x0001, 0x8000);
    assert_eq!(
        c.as_rgba(),
        (0xffff * 0x8000 / 0xffff, 0x8000 * 0x8000 / 0xffff, 0x8000 / 0xffff, 0x8000)
    );
    assert_eq!(Nrgba64::be(0xffff, 0, 0x1234, 0xffff).as_rgba(), (0xffff, 0, 0x1234, 0xffff));
    assert_eq!(Nrgba64::le(0xffff, 0, 0x1234, 0xffff).as_rgba(), (0xffff, 0, 0x1234, 0xffff));
}

#[test]
fn channels_are_read_back_in_every_byte_order() {
    let c = Nrgba64::be(0x1234, 0x5678, 0x9abc, 0xdef0);
    assert_eq!((c.r(), c.g(), c.b(), c.a()), (0x1234, 0x5678, 0x9abc, 0xdef0));
    let c = Nrgba64::le(0x1234, 0x5678, 0x9abc, 0xdef0);
    assert_eq!((c.r(), c.g(), c.b(), c.a()), (0x1234, 0x5678, 0x9abc, 0xdef0));
    let c = Nrgba64::ne(0x1234, 0x5678, 0x9abc, 0xdef0);
    assert_eq!((c.r(), c.g(), c.b(), c.a()), (0x1234, 0x5678, 0x9abc, 0xdef0));
    let c = Rgb48::be(1, 2, 3);
    assert_eq!((c.r(), c.g(), c.b()), (1, 2, 3));
    let c = Rgb48::le(1, 2, 3);
    assert_eq!((c.r(), c.g(), c.b()), (1, 2, 3));
    let c = Rgb48::ne(1, 2, 3);
    assert_eq!((c.r(), c.g(), c.b()), (1, 2, 3));
    assert_eq!(Gray16::be(0xbeef).y(), 0xbeef);
    assert_eq!(Gray16::le(0xbeef).y(), 0xbeef);
    assert_eq!(Gray16::ne(0xbeef).y(), 0xbeef);
}

#[test]
fn the_memory_of_a_channel_follows_its_byte_order() {
    let be = Nrgba64::be(0x1234, 0x5678, 0x9abc, 0xdef0);
    assert_eq!(
        be.get_channels(),
        (0x1234u16.to_be(), 0x5678u16.to_be(), 0x9abcu16.to_be(), 0xdef0u16.to_be())
    );
    let le = Nrgba64::le(0x1234, 0x5678, 0x9abc, 0xdef0);
    assert_eq!(
        le.get_channels(),
        (0x1234u16.to_le(), 0x5678u16.to_le(), 0x9abcu16.to_le(), 0xdef0u16.to_le())
    );
    assert_eq!(Rgb48::be(0x0102, 0x0304, 0x0506).get_channels(), (
        0x0102u16.to_be(),
        0x0304u16.to_be(),
        0x0506u16.to_be()
    ));
    assert_eq!(Gray16::be(0x0102).cast::<feim::color::NativeEndian>().y(), 0x0102u16.to_be());
}

#[test]
fn setters_change_one_channel() {
    let c = Nrgba64::be(1, 2, 3, 4).set_g(0x1234).set_a(0xffff);
    assert_eq!((c.r(), c.g(), c.b(), c.a()), (1, 0x1234, 3, 0xffff));
    let c = Nrgba64::le(1, 2, 3, 4).set_r(7).set_b(9);
    assert_eq!((c.r(), c.g(), c.b(), c.a()), (7, 2, 9, 4));
    let c = Nrgba64::ne(1, 2, 3, 4).set_r(7).set_g(8).set_b(9).set_a(10);
    assert_eq!(c.get_channels(), (7, 8, 9, 10));
    let c = Rgb48::be(1, 2, 3).set_r(0x0a0b).set_g(5).set_b(6);
    assert_eq!((c.r(), c.g(), c.b()), (0x0a0b, 5, 6));
    assert_eq!(Gray16::be(1).set_y(0x0a0b).y(), 0x0a0b);
    assert_eq!(Gray16::le(1).set_y(0x0a0b).y(), 0x0a0b);
    assert_eq!(Gray16::ne(1).set_y(0x0a0b).y(), 0x0a0b);
}

#[test]
fn cast_keeps_the_memory() {
    let c = Nrgba64::be(0x1234, 0x5678, 0x9abc, 0xdef0);
    let n: Nrgba64Ne = c.cast();
    assert_eq!(n.get_channels(), c.get_channels());
    let l: Nrgba64Le = c.cast();
    assert_eq!(l.get_channels(), c.get_channels());
    let r: Rgb48Ne = Rgb48::be(1, 2, 3).cast();
    assert_eq!(r.get_channels(), Rgb48::be(1, 2, 3).get_channels());
}

#[test]
fn native_colours_pack_from_the_lowest_bits() {
    let c = Nrgba64::ne(0x1111, 0x2222, 0x3333, 0x4444);
    assert_eq!(u64::from(c), 0x4444_3333_2222_1111);
    let back: Nrgba64Ne = Nrgba64Ne::from(0x4444_3333_2222_1111u64);
    assert_eq!(back.get_channels(), (0x1111, 0x2222, 0x3333, 0x4444));
    let c = Rgb48::ne(0x1111, 0x2222, 0x3333);
    assert_eq!(u64::from(c), 0x3333_2222_1111 | 0xffff);
    let back: Rgb48Ne = Rgb48Ne::from(0x3333_2222_1111u64);
    assert_eq!(back.get_channels(), (0x1111, 0x2222, 0x3333));
    assert_eq!(u16::from(Gray16::ne(0x1234)), 0x1234);
    assert_eq!(Gray16Ne::from(0x1234u16).y(), 0x1234);
}

#[test]
fn tagged_colours_pack_through_the_byte_order_of_the_machine() {
    let c = Nrgba64::be(0x1111, 0x2222, 0x3333, 0x4444);
    let (r, g, b, a) = c.get_channels();
    let expected = u64::from_be(r as u64)
        | u64::from_be((g as u64) << 16)
        | u64::from_be((b as u64) << 32)
        | u64::from_be((a as u64) << 48);
    assert_eq!(u64::from(c), expected);
    let c = Nrgba64::le(0x1111, 0x2222, 0x3333, 0x4444);
    let (r, g, b, a) = c.get_channels();
    let expected = u64::from_le(r as u64)
        | u64::from_le((g as u64) << 16)
        | u64::from_le((b as u64) << 32)
        | u64::from_le((a as u64) << 48);
    assert_eq!(u64::from(c), expected);
    if u16::from_ne_bytes([1, 0]) == 1 {
        assert_eq!(
            u64::from(Nrgba64::be(0x1111, 0x2222, 0x3333, 0x4444)),
            0x1111_2222_3333_4444
        );
    }
    let be: Nrgba64Be = Nrgba64Be::from(0x4444_3333_2222_1111u64);
    assert_eq!((be.r(), be.g(), be.b(), be.a()), (0x1111, 0x2222, 0x3333, 0x4444));
    let le: Nrgba64Le = Nrgba64Le::from(0x4444_3333_2222_1111u64);
    assert_eq!((le.r(), le.g(), le.b(), le.a()), (0x1111, 0x2222, 0x3333, 0x4444));
    let be: Rgb48Be = Rgb48Be::from(0x3333_2222_1111u64);
    assert_eq!((be.r(), be.g(), be.b()), (0x1111, 0x2222, 0x3333));
    let le: Rgb48Le = Rgb48Le::from(0x3333_2222_1111u64);
    assert_eq!((le.r(), le.g(), le.b()), (0x1111, 0x2222, 0x3333));
    assert_eq!(u16::from(Gray16::be(0x1234)), 0x1234);
    assert_eq!(u16::from(Gray16::le(0x1234)), 0x1234);
    assert_eq!(Gray16Be::from(0x1234u16).y(), 0x1234);
    assert_eq!(Gray16Le::from(0x1234u16).y(), 0x1234);
}

#[test]
fn one_byte_order_converts_to_another_through_the_packed_value() {
    let c = Gray16::be(0x1234);
    let n: Gray16Ne = <Gray16Ne as ConvertFrom<Gray16Be, Aye>>::convert_from(c);
    assert_eq!(n.y(), 0x1234);
    let l: Gray16Le = <Gray16Le as ConvertFrom<Gray16Be, Aye>>::convert_from(c);
    assert_eq!(l.y(), 0x1234);
    let c = Nrgba64::ne(1, 2, 3, 4);
    let b: Nrgba64Be = <Nrgba64Be as ConvertFrom<Nrgba64Ne, Aye>>::convert_from(c);
    assert_eq!((b.r(), b.g(), b.b(), b.a()), (1, 2, 3, 4));
    let c = Rgb48::ne(0xffff, 2, 3);
    let b: Rgb48Be = <Rgb48Be as ConvertFrom<Rgb48Ne, Aye>>::convert_from(c);
    assert_eq!((b.r(), b.g(), b.b()), (0xffff, 2, 3));
}

#[test]
fn any_colour_converts_to_16_bit_colours() {
    let white = Rgb { r: 255, g: 0x80, b: 0 };
    let n: Nrgba64Ne = <Nrgba64Ne as ConvertFrom<Rgb>>::convert_from(white);
    assert_eq!(n.get_channels(), (0xffff, 0x8080, 0, 0xffff));
    let b: Nrgba64Be = <Nrgba64Be as ConvertFrom<Rgb>>::convert_from(white);
    assert_eq!(
        b.get_channels(),
        (0xffffu16.swap_bytes(), 0x8080u16.swap_bytes(), 0, 0xffffu16.swap_bytes())
    );
    let c = Rgb { r: 0x12, g: 0x34, b: 0x56 };
    let b: Nrgba64Be = <Nrgba64Be as ConvertFrom<Rgb>>::convert_from(c);
    assert_eq!(b.get_channels().0, 0x1212u16.swap_bytes());
    let l: Nrgba64Le = <Nrgba64Le as ConvertFrom<Rgb>>::convert_from(c);
    assert_eq!(l.get_channels(), (0x1212, 0x3434u16.swap_bytes(), 0x5656u16.swap_bytes(), 0xffff));
    let r: Rgb48Ne = <Rgb48Ne as ConvertFrom<Rgb>>::convert_from(c);
    assert_eq!((r.r(), r.g(), r.b()), (0x1212, 0x3434, 0x5656));
    let r: Rgb48Be = <Rgb48Be as ConvertFrom<Rgb>>::convert_from(c);
    assert_eq!((r.r(), r.g(), r.b()), (0x1212, 0x3434, 0x5656));
    let r: Rgb48Le = <Rgb48Le as ConvertFrom<Rgb>>::convert_from(c);
    assert_eq!((r.r(), r.g(), r.b()), (0x1212, 0x3434, 0x5656));
    assert_eq!(Rgb48::be(1, 2, 3).as_rgba(), (1, 2, 3, 0xffff));
    assert_eq!(Rgb48::le(1, 2, 3).as_rgba(), (1, 2, 3, 0xffff));
    assert_eq!(Gray16::be(7).as_rgba(), (7, 7, 7, 0xffff));
    assert_eq!(Gray16::le(7).as_rgba(), (7, 7, 7, 0xffff));
    assert_eq!(Gray16::ne(7).as_rgba(), (7, 7, 7, 0xffff));
}

#[test]
fn cmyk_takes_ink_away_from_light() {
    assert_eq!(Cmyk { c: 0, m: 0, y: 0, k: 0 }.as_rgba(), (0xffff, 0xffff, 0xffff, 0xffff));
    assert_eq!(Cmyk { c: 0, m: 0, y: 0, k: 0xff }.as_rgba(), (0, 0, 0, 0xffff));
    assert_eq!(
        Cmyk { c: 0xff, m: 0x80, y: 0, k: 0x40 }.as_rgba(),
        (
            0,
            (0xffff - 0x80 * 0x101) * (0xffff - 0x40 * 0x101) / 0xffff,
            0xffff - 0x40 * 0x101,
            0xffff
        )
    );
}

#[test]
fn cmyk_of_black_and_of_gray() {
    let black = Rgb { r: 0, g: 0, b: 0 };
    let c: Cmyk = <Cmyk as ConvertFrom<Rgb>>::convert_from(black);
    assert_eq!(c, Cmyk { c: 0, m: 0, y: 0, k: 0xff });
    let gray = Rgb { r: 0x80, g: 0x80, b: 0x80 };
    let c: Cmyk = <Cmyk as ConvertFrom<Rgb>>::convert_from(gray);
    assert_eq!(c, Cmyk { c: 0, m: 0, y: 0, k: 0x7f });
    let dark_red = Rgb { r: 0x80, g: 0x40, b: 0x40 };
    let c: Cmyk = <Cmyk as ConvertFrom<Rgb>>::convert_from(dark_red);
    let w = 0x4040u32;
    let ink = w.wrapping_sub(0x8080).wrapping_mul(0xffff) / w;
    assert_eq!(c, Cmyk { c: ((ink >> 8) & 0xff) as u8, m: 0, y: 0, k: 0xbf });
}

#[test]
fn eight_bit_colours_pack_into_32_bits() {
    assert_eq!(u32::from(Nrgba { r: 1, g: 2, b: 3, a: 4 }), 0x0403_0201);
    assert_eq!(Nrgba::from(0x0403_0201u32), Nrgba { r: 1, g: 2, b: 3, a: 4 });
    assert_eq!(u32::from(Cmyk { c: 1, m: 2, y: 3, k: 4 }), 0x0403_0201);
    assert_eq!(Cmyk::from(0xff03_0201u32), Cmyk { c: 1, m: 2, y: 3, k: 0xff });
    assert_eq!(u8::from(Gray { y: 9 }), 9);
    assert_eq!(Gray::from(9u8), Gray { y: 9 });
}

#[test]
fn zero_is_black() {
    assert_eq!(Nrgba::zero(), Nrgba { r: 0, g: 0, b: 0, a: 0 });
    assert_eq!(Nrgba64Be::zero().get_channels(), (0, 0, 0, 0));
    assert_eq!(Nrgba64Le::zero().as_rgba(), (0, 0, 0, 0));
    assert_eq!(Nrgba64Ne::zero().as_rgba(), (0, 0, 0, 0));
    assert_eq!(Gray16Be::zero().y(), 0);
    assert_eq!(Gray16Le::zero().y(), 0);
    assert_eq!(Gray16Ne::zero().as_rgba(), (0, 0, 0, 0xffff));
}
