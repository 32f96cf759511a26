use feim::color::{Nrgba64, Nrgba64Be};
use feim::image::farbfeld::stream::{
    FarbfeldPixelStream, Params, Phase, Pixel, ReorderBuffer, SinkError, SinkErrorKind,
    StreamEncoder, StreamError,
};
use feim::image::farbfeld::{color_to_bytes, header_bytes};
use feim::image::Dimensions;

fn color(tag: u16) -> Nrgba64Be {
    Nrgba64::be(tag, tag + 1, tag + 2, 0xffff)
}

fn be_record(tag: u16) -> Vec<u8> {
    let mut v = Vec::new();
    for c in [tag, tag + 1, tag + 2, 0xffff] {
        v.push((c >> 8) as u8);
        v.push((c & 0xff) as u8);
    }
    v
}

#[test]
fn header_example() {
    let h = header_bytes(100, 50);
    assert_eq!(
        h,
        vec![b'f', b'a', b'r', b'b', b'f', b'e', b'l', b'd', 0, 0, 0, 100, 0, 0, 0, 50]
    );
}

#[test]
fn end_to_end_example() {
    let (pusher, stream) = FarbfeldPixelStream::new(Params {
        buffer_cap: 4,
        width: 2,
        height: 2,
    });
    let a = color(0x1000);
    let b = color(0x2000);
    let c = color(0x3000);
    let d = color(0x4000);
    assert!(pusher.send(1, 0, a));
    assert!(pusher.send(0, 0, b));
    assert!(pusher.send(1, 1, c));
    assert!(pusher.send(0, 1, d));
    drop(pusher);
    let file = stream.encode().unwrap();
    let mut expected = header_bytes(2, 2);
    for tag in [0x2000u16, 0x1000, 0x4000, 0x3000] {
        expected.extend_from_slice(&color_to_bytes(color(tag)));
    }
    assert_eq!(file, expected);
    assert_eq!(file.len(), 16 + 4 * 8);
}

#[test]
fn pixel_record_is_big_endian_on_a_little_endian_machine() {
    if u16::from_ne_bytes([1, 0]) == 1 {
        assert_eq!(color_to_bytes(color(0x1234)).to_vec(), be_record(0x1234));
    }
}

#[test]
fn early_closure_is_incomplete() {
    let (pusher, stream) = FarbfeldPixelStream::new(Params {
        buffer_cap: 4,
        width: 2,
        height: 2,
    });
    assert!(pusher.send(0, 0, color(1)));
    assert!(pusher.send(1, 1, color(2)));
    drop(pusher);
    assert_eq!(stream.encode(), Err(StreamError::IncompleteStream));
}

#[test]
fn duplicate_is_rejected() {
    let mut enc = StreamEncoder::new(2, 2);
    assert_eq!(enc.start().len(), 16);
    assert_eq!(enc.feed(Pixel::bind(1, 0, color(1))), Ok(vec![]));
    assert_eq!(
        enc.feed(Pixel::bind(1, 0, color(2))),
        Err(StreamError::DuplicatePixel { x: 1, y: 0 })
    );
    assert_eq!(enc.phase(), Phase::Failed);
    assert_eq!(
        enc.feed(Pixel::bind(0, 0, color(3))),
        Err(StreamError::DuplicatePixel { x: 1, y: 0 })
    );
}

#[test]
fn written_duplicate_is_rejected() {
    let mut enc = StreamEncoder::new(2, 2);
    enc.start();
    assert_eq!(enc.feed(Pixel::bind(0, 0, color(1))).unwrap().len(), 8);
    assert_eq!(enc.window(), 1);
    assert_eq!(
        enc.feed(Pixel::bind(0, 0, color(1))),
        Err(StreamError::DuplicatePixel { x: 0, y: 0 })
    );
}

#[test]
fn out_of_bounds_is_rejected() {
    let mut enc = StreamEncoder::new(2, 3);
    enc.start();
    assert_eq!(
        enc.feed(Pixel::bind(2, 0, color(1))),
        Err(StreamError::OutOfBounds { x: 2, y: 0 })
    );
    let mut enc = StreamEncoder::new(2, 3);
    enc.start();
    assert_eq!(
        enc.feed(Pixel::bind(0, 3, color(1))),
        Err(StreamError::OutOfBounds { x: 0, y: 3 })
    );
}

#[test]
fn every_order_gives_the_same_file() {
    let orders: [[usize; 4]; 6] = [
        [0, 1, 2, 3],
        [3, 2, 1, 0],
        [1, 0, 3, 2],
        [2, 0, 3, 1],
        [1, 3, 0, 2],
        [3, 0, 2, 1],
    ];
    let mut expected = header_bytes(2, 2);
    for k in 0..4u16 {
        expected.extend_from_slice(&color_to_bytes(color(k * 16)));
    }
    for order in orders {
        let mut enc = StreamEncoder::new(2, 2);
        let mut file = enc.start();
        for k in order {
            file.extend(enc.feed(Pixel::bind(k % 2, k / 2, color(k as u16 * 16))).unwrap());
        }
        assert_eq!(enc.phase(), Phase::Complete);
        assert_eq!(enc.outcome(), Some(Ok(())));
        assert_eq!(file, expected);
    }
}

#[test]
fn buffer_stays_small_when_pixels_are_near_the_window() {
    let width = 1000usize;
    let height = 100usize;
    let ahead = 3usize;
    let mut enc = StreamEncoder::new(width as u32, height as u32);
    enc.start();
    let total = width * height;
    let mut written = 0usize;
    let mut base = 0usize;
    while base < total {
        let end = usize::min(base + ahead + 1, total);
        for k in (base..end).rev() {
            written += enc.feed(Pixel::bind(k % width, k / width, color(7))).unwrap().len();
            assert!(enc.pending() <= ahead);
        }
        base = end;
    }
    assert_eq!(written, total * 8);
    assert_eq!(enc.phase(), Phase::Complete);
    assert_eq!(enc.pending(), 0);
}

#[test]
fn reorder_buffer_releases_in_order() {
    let mut b = ReorderBuffer::new(4, 4);
    for k in [9usize, 3, 7, 1, 0, 2] {
        assert_eq!(b.push(Pixel::bind(k % 4, k / 4, color(k as u16))), Ok(()));
    }
    assert_eq!(b.len(), 6);
    assert_eq!(
        b.push(Pixel::bind(3, 0, color(0))),
        Err(StreamError::DuplicatePixel { x: 3, y: 0 })
    );
    assert_eq!(
        b.push(Pixel::bind(4, 0, color(0))),
        Err(StreamError::OutOfBounds { x: 4, y: 0 })
    );
    let mut got = Vec::new();
    while let Some(p) = b.pop_ready(3) {
        got.push((p.x, p.y));
    }
    assert_eq!(got, vec![(0, 0), (1, 0), (2, 0), (3, 0)]);
    assert!(!b.is_empty());
    assert_eq!(
        b.push(Pixel::bind(1, 0, color(0))),
        Err(StreamError::DuplicatePixel { x: 1, y: 0 })
    );
    assert!(b.pop_ready(6).is_none());
    assert_eq!(b.pop_ready(7).map(|p| (p.x, p.y)), Some((3, 1)));
    assert_eq!(b.pop_ready(100).map(|p| (p.x, p.y)), Some((1, 2)));
    assert!(b.is_empty());
}

#[test]
fn image_without_pixels_is_complete_when_the_queue_is_closed() {
    let mut enc = StreamEncoder::new(0, 5);
    assert_eq!(enc.start().len(), 16);
    assert_eq!(enc.phase(), Phase::Streaming);
    assert_eq!(enc.outcome(), None);
    assert_eq!(enc.close(), Ok(()));
    assert_eq!(enc.phase(), Phase::Complete);
    let (pusher, stream) =
        FarbfeldPixelStream::new(Params { buffer_cap: 1, width: 3, height: 0 });
    drop(pusher);
    assert_eq!(stream.encode(), Ok(header_bytes(3, 0)));
}

#[test]
fn image_without_pixels_takes_no_pixel() {
    let mut enc = StreamEncoder::new(0, 5);
    enc.start();
    assert_eq!(
        enc.feed(Pixel::bind(0, 0, color(1))),
        Err(StreamError::OutOfBounds { x: 0, y: 0 })
    );
    assert_eq!(enc.phase(), Phase::Failed);
    let mut enc = StreamEncoder::new(0, 0);
    enc.start();
    assert_eq!(
        enc.feed(Pixel::bind(0, 3, color(1))),
        Err(StreamError::OutOfBounds { x: 0, y: 3 })
    );
    let (pusher, stream) =
        FarbfeldPixelStream::new(Params { buffer_cap: 1, width: 0, height: 2 });
    assert!(pusher.send(0, 1, color(1)));
    assert_eq!(stream.encode(), Err(StreamError::OutOfBounds { x: 0, y: 1 }));
}

#[test]
fn closing_before_the_header_fails() {
    let mut enc = StreamEncoder::new(0, 0);
    assert_eq!(enc.close(), Err(StreamError::IncompleteStream));
}

#[test]
fn closing_before_the_end_fails() {
    let mut enc = StreamEncoder::new(1, 2);
    enc.start();
    enc.feed(Pixel::bind(0, 0, color(1))).unwrap();
    assert_eq!(enc.close(), Err(StreamError::IncompleteStream));
    assert_eq!(enc.outcome(), Some(Err(StreamError::IncompleteStream)));
}

#[test]
fn sink_failure_is_recorded() {
    let mut enc = StreamEncoder::new(1, 2);
    enc.start();
    let failure = SinkError { kind: SinkErrorKind::BrokenPipe, has_os_code: true, os_code: 32 };
    assert_eq!(enc.sink_failed(failure), Err(StreamError::IoError(failure)));
    assert_eq!(enc.feed(Pixel::bind(0, 0, color(1))), Err(StreamError::IoError(failure)));
    assert_eq!(enc.outcome(), Some(Err(StreamError::IoError(failure))));
    let other = SinkError { kind: SinkErrorKind::Other, has_os_code: false, os_code: 0 };
    assert_eq!(enc.sink_failed(other), Err(StreamError::IoError(failure)));
    let mut done = StreamEncoder::new(1, 1);
    done.start();
    done.feed(Pixel::bind(0, 0, color(1))).unwrap();
    assert_eq!(done.sink_failed(other), Ok(()));
}

#[test]
fn every_worker_has_a_pusher_of_its_own() {
    let (pusher, stream) = FarbfeldPixelStream::new(Params {
        buffer_cap: 6,
        width: 3,
        height: 2,
    });
    let other = pusher.clone();
    for k in [5usize, 1, 3] {
        assert!(pusher.send(k % 3, k / 3, color(k as u16)));
    }
    for k in [0usize, 4, 2] {
        assert!(other.send(k % 3, k / 3, color(k as u16)));
    }
    drop(pusher);
    drop(other);
    let file = stream.encode().unwrap();
    let mut expected = header_bytes(3, 2);
    for k in 0..6u16 {
        expected.extend_from_slice(&color_to_bytes(color(k)));
    }
    assert_eq!(file, expected);
}

#[test]
fn a_pusher_without_an_encoder_cannot_send() {
    let (pusher, stream) = FarbfeldPixelStream::new(Params {
        buffer_cap: 1,
        width: 1,
        height: 1,
    });
    drop(stream);
    assert!(!pusher.send(0, 0, color(1)));
}

#[test]
fn a_stream_too_long_is_cut_at_the_end_of_the_image() {
    let (pusher, stream) = FarbfeldPixelStream::new(Params {
        buffer_cap: 4,
        width: 1,
        height: 2,
    });
    assert!(pusher.send(0, 1, color(2)));
    assert!(pusher.send(0, 0, color(1)));
    assert!(pusher.send(0, 0, color(3)));
    let file = stream.encode().unwrap();
    assert_eq!(file.len(), 16 + 16);
    assert_eq!(stream.recv().map(|p| (p.x, p.y)), Some((0, 0)));
    drop(pusher);
    assert!(stream.recv().is_none());
}

#[test]
fn queue_of_too_many_pixels_is_not_made() {
    assert!(FarbfeldPixelStream::try_new(Params {
        buffer_cap: usize::MAX,
        width: 1,
        height: 1
    })
    .is_none());
    if usize::BITS > 32 {
        assert!(FarbfeldPixelStream::try_new(Params {
            buffer_cap: 1,
            width: (1usize << 32) + 5,
            height: 1
        })
        .is_none());
        assert!(FarbfeldPixelStream::try_new(Params {
            buffer_cap: 1,
            width: 1,
            height: 1usize << 32
        })
        .is_none());
    }
    assert!(FarbfeldPixelStream::try_new(Params {
        buffer_cap: 0,
        width: 0xffff_ffff,
        height: 0xffff_ffff
    })
    .is_some());
    let ends = FarbfeldPixelStream::try_new(Params { buffer_cap: 2, width: 7, height: 9 });
    let (_pusher, stream) = ends.unwrap();
    assert_eq!((stream.width(), stream.height()), (7, 9));
    let enc = stream.encoder();
    assert_eq!(enc.phase(), Phase::Header);
    assert_eq!(enc.pending(), 0);
}

#[test]
fn pixels_before_the_header_are_not_taken() {
    let mut enc = StreamEncoder::new(1, 1);
    assert_eq!(enc.feed(Pixel::bind(0, 0, color(1))), Ok(vec![]));
    assert_eq!(enc.phase(), Phase::Header);
    assert_eq!(enc.outcome(), None);
    assert_eq!(enc.start().len(), 16);
    assert_eq!(enc.start().len(), 0);
    assert_eq!(enc.feed(Pixel::bind(0, 0, color(1))).unwrap().len(), 8);
    assert_eq!(enc.feed(Pixel::bind(0, 0, color(1))), Ok(vec![]));
    assert_eq!(enc.phase(), Phase::Complete);
}

#[test]
fn coordinates_above_32_bits_stay_outside_every_image() {
    let p = Pixel::bind(3, 4, color(0));
    assert_eq!((p.x, p.y), (3, 4));
    assert_eq!(p.coords(10), 43);
    let p = Pixel::bind(0xffff_ffff, 0, color(0));
    assert_eq!((p.x, p.y), (u32::MAX, 0));
    if usize::BITS > 32 {
        let p = Pixel::bind((1usize << 32) + 3, 1usize << 40, color(0));
        assert_eq!((p.x, p.y), (u32::MAX, u32::MAX));
        let p = Pixel::bind(1usize << 32, 0, color(0));
        assert_eq!((p.x, p.y), (u32::MAX, 0));
    }
}

#[test]
fn pixel_sent_beyond_32_bits_is_out_of_bounds() {
    if usize::BITS > 32 {
        let (pusher, stream) =
            FarbfeldPixelStream::new(Params { buffer_cap: 2, width: 1, height: 1 });
        assert!(pusher.send(1usize << 32, 0, color(1)));
        assert_eq!(stream.encode(), Err(StreamError::OutOfBounds { x: u32::MAX, y: 0 }));
        let (pusher, stream) =
            FarbfeldPixelStream::new(Params { buffer_cap: 2, width: 1, height: 1 });
        assert!(pusher.send(0, (1usize << 32) + 0, color(1)));
        assert_eq!(stream.encode(), Err(StreamError::OutOfBounds { x: 0, y: u32::MAX }));
        let mut enc = StreamEncoder::new(u32::MAX, u32::MAX);
        enc.start();
        assert_eq!(
            enc.feed(Pixel::bind(1usize << 32, 0, color(1))),
            Err(StreamError::OutOfBounds { x: u32::MAX, y: 0 })
        );
    }
}
