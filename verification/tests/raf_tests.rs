use byteorder::ByteOrder;

use raf::decode::ReadI16;
use raf::decode::ReadI32;
use raf::decode::ReadI64;
use raf::decode::ReadI8;
use raf::decode::ReadU16;
use raf::decode::ReadU32;
use raf::decode::ReadU64;
use raf::decode::ReadU8;
use raf::Raf;
use raf::RafByteOrder;
use raf::RafError;

#[test]
fn test_seek() {
    let data: Vec<u8> = (0x00..0xFF).collect();

    let mut reader: Raf = Raf::from_bytes(&data, RafByteOrder::BE);
    println!("{}", reader.seek_read(0, ReadI32).unwrap());
}

#[test]
fn prefix_read_after_from_bytes() {
    let data: Vec<u8> = vec![10, 20, 30, 40, 50];
    let mut r = Raf::from_bytes(&data, RafByteOrder::LE);
    let got = r.read_bytes(3).unwrap();
    assert_eq!(got, vec![10u8, 20, 30]);
    assert_eq!(r.pos, 3);
}

#[test]
fn round_trip_u32_little_endian() {
    let mut buf: Vec<u8> = vec![0; 4];
    byteorder::LittleEndian::write_u32(&mut buf, 0xDEAD_BEEF);
    let mut r = Raf::from_bytes(&buf, RafByteOrder::LE);
    assert_eq!(r.read_u32().unwrap(), 0xDEAD_BEEF);
    assert_eq!(r.pos, 4);
}

#[test]
fn round_trip_u32_big_endian() {
    let mut buf: Vec<u8> = vec![0; 4];
    byteorder::BigEndian::write_u32(&mut buf, 0xDEAD_BEEF);
    let mut r = Raf::from_bytes(&buf, RafByteOrder::BE);
    assert_eq!(r.read_u32().unwrap(), 0xDEAD_BEEF);
    assert_eq!(r.pos, 4);
}

#[test]
fn unsigned_signed_same_bits() {
    let data: Vec<u8> = vec![0xFF, 0xFF, 0xFF, 0xFF];
    let mut r1 = Raf::from_bytes(&data, RafByteOrder::BE);
    let mut r2 = Raf::from_bytes(&data, RafByteOrder::BE);
    let u: u32 = r1.read_u32().unwrap();
    let i: i32 = r2.read_i32().unwrap();
    assert_eq!(u, 0xFFFF_FFFF);
    assert_eq!(i, -1);
    assert_eq!(i as u32, u);
    assert_eq!(r1.pos, r2.pos);
}

#[test]
fn unsigned_signed_same_bits_sign_bit() {
    let data: Vec<u8> = vec![0x80, 0x00, 0x00, 0x01];
    let mut r1 = Raf::from_bytes(&data, RafByteOrder::BE);
    let mut r2 = Raf::from_bytes(&data, RafByteOrder::BE);
    let u: u32 = r1.read_u32().unwrap();
    let i: i32 = r2.read_i32().unwrap();
    assert_eq!(u, 0x8000_0001);
    assert_eq!(i, u as i32);
    assert_eq!(i as u32, u);
}

#[test]
fn seek_then_read_reads_at_position() {
    let data: Vec<u8> = vec![0, 1, 2, 3, 4, 5];
    let mut r = Raf::from_bytes(&data, RafByteOrder::BE);
    r.seek(4);
    assert_eq!(r.read_byte().unwrap(), 4);
    assert_eq!(r.pos, 5);
}

#[test]
fn seek_past_end_fails_on_next_read() {
    let data: Vec<u8> = vec![1, 2, 3];
    let mut r = Raf::from_bytes(&data, RafByteOrder::LE);
    r.seek(10);
    assert_eq!(r.pos, 10);
    assert!(matches!(r.read_byte(), Err(RafError::StartOutOfRange)));
    assert!(matches!(r.read_u32(), Err(RafError::BufferOverflow)));
    assert_eq!(r.pos, 10);
}

#[test]
fn adv_out_of_range_moves_nothing() {
    let data: Vec<u8> = vec![1, 2, 3];
    let mut r = Raf::from_bytes(&data, RafByteOrder::LE);
    r.adv(2).unwrap();
    assert_eq!(r.pos, 2);
    assert!(matches!(r.adv(2), Err(RafError::StartOutOfRange)));
    assert_eq!(r.pos, 2);
    r.adv(1).unwrap();
    assert_eq!(r.pos, 3);
}

#[test]
fn cstr_stops_at_terminator() {
    let data: Vec<u8> = vec![0x41, 0x42, 0x00, 0x43];
    let mut r = Raf::from_bytes(&data, RafByteOrder::LE);
    assert_eq!(r.read_cstr().unwrap(), "AB");
    assert_eq!(r.pos, 3);
}

#[test]
fn cstr_without_terminator_fails() {
    let data: Vec<u8> = vec![0x41, 0x42];
    let mut r = Raf::from_bytes(&data, RafByteOrder::LE);
    assert!(matches!(r.read_cstr(), Err(RafError::StartOutOfRange)));
    assert_eq!(r.pos, 2);
}

#[test]
fn cstr_invalid_utf8_fails() {
    let data: Vec<u8> = vec![0xFF, 0xFE, 0x00];
    let mut r = Raf::from_bytes(&data, RafByteOrder::LE);
    assert!(matches!(r.read_cstr(), Err(RafError::StrParseError)));
    assert_eq!(r.pos, 3);
}

#[test]
fn fixed_string_valid_utf8() {
    let data: Vec<u8> = vec![0x41, 0x42, 0x43];
    let mut r = Raf::from_bytes(&data, RafByteOrder::LE);
    assert_eq!(r.read_string(3).unwrap(), "ABC");
    assert_eq!(r.pos, 3);
}

#[test]
fn fixed_string_invalid_utf8() {
    let data: Vec<u8> = vec![0xFF, 0xFE, 0xFD];
    let mut r = Raf::from_bytes(&data, RafByteOrder::LE);
    assert!(matches!(r.read_string(3), Err(RafError::StrParseError)));
    assert_eq!(r.pos, 3);
}

#[test]
fn seek_read_equals_seek_then_read() {
    let data: Vec<u8> = (0u8..10).collect();
    let mut a = Raf::from_bytes(&data, RafByteOrder::BE);
    let mut b = Raf::from_bytes(&data, RafByteOrder::BE);
    let va: i32 = a.seek_read(2, ReadI32).unwrap();
    b.seek(2);
    let vb: i32 = b.read_i32().unwrap();
    assert_eq!(va, vb);
    assert_eq!(a.pos, b.pos);
    assert_eq!(va, 0x0203_0405);
}

#[test]
fn seek_read_with_each_decoder() {
    let data: Vec<u8> = vec![0x01, 0x02, 0x03, 0x04, 0x05, 0x06, 0x07, 0x08, 0x09, 0x0A];
    let mut r = Raf::from_bytes(&data, RafByteOrder::LE);
    assert_eq!(r.seek_read(0, ReadU8).unwrap(), 0x01);
    assert_eq!(r.seek_read(1, ReadI8).unwrap(), 0x02);
    assert_eq!(r.seek_read(0, ReadU16).unwrap(), 0x0201);
    assert_eq!(r.seek_read(0, ReadI16).unwrap(), 0x0201);
    assert_eq!(r.seek_read(2, ReadU32).unwrap(), 0x0605_0403);
    assert_eq!(r.seek_read(0, ReadI32).unwrap(), 0x0403_0201);
    assert_eq!(r.seek_read(0, ReadU64).unwrap(), 0x0807_0605_0403_0201);
    assert_eq!(r.seek_read(1, ReadI64).unwrap(), 0x0908_0706_0504_0302);
    assert_eq!(r.pos, 9);
}

#[test]
fn empty_buffer_every_reader_fails() {
    let data: Vec<u8> = Vec::new();
    assert!(matches!(
        Raf::from_bytes(&data, RafByteOrder::LE).read_byte(),
        Err(RafError::StartOutOfRange)
    ));
    assert!(matches!(
        Raf::from_bytes(&data, RafByteOrder::LE).read_u8(),
        Err(RafError::StartOutOfRange)
    ));
    assert!(matches!(
        Raf::from_bytes(&data, RafByteOrder::LE).read_i8(),
        Err(RafError::StartOutOfRange)
    ));
    assert!(matches!(
        Raf::from_bytes(&data, RafByteOrder::LE).read_u16(),
        Err(RafError::BufferOverflow)
    ));
    assert!(matches!(
        Raf::from_bytes(&data, RafByteOrder::LE).read_i16(),
        Err(RafError::BufferOverflow)
    ));
    assert!(matches!(
        Raf::from_bytes(&data, RafByteOrder::BE).read_u32(),
        Err(RafError::BufferOverflow)
    ));
    assert!(matches!(
        Raf::from_bytes(&data, RafByteOrder::BE).read_i32(),
        Err(RafError::BufferOverflow)
    ));
    assert!(matches!(
        Raf::from_bytes(&data, RafByteOrder::BE).read_u64(),
        Err(RafError::BufferOverflow)
    ));
    assert!(matches!(
        Raf::from_bytes(&data, RafByteOrder::BE).read_i64(),
        Err(RafError::BufferOverflow)
    ));
    assert!(matches!(
        Raf::from_bytes(&data, RafByteOrder::BE).read_bytes(1),
        Err(RafError::BufferOverflow)
    ));
}

#[test]
fn exact_values_little_endian() {
    let data: Vec<u8> = vec![0x01, 0x02, 0x03, 0x04, 0x05, 0x06, 0x07, 0x08];
    let mut r = Raf::from_bytes(&data, RafByteOrder::LE);
    assert_eq!(r.read_u16().unwrap(), 0x0201);
    r.seek(0);
    assert_eq!(r.read_u32().unwrap(), 0x0403_0201);
    r.seek(0);
    assert_eq!(r.read_u64().unwrap(), 0x0807_0605_0403_0201);
    r.seek(0);
    assert_eq!(r.read_i16().unwrap(), 0x0201);
}

#[test]
fn exact_values_big_endian() {
    let data: Vec<u8> = vec![0x01, 0x02, 0x03, 0x04, 0x05, 0x06, 0x07, 0x08];
    let mut r = Raf::from_bytes(&data, RafByteOrder::BE);
    assert_eq!(r.read_u16().unwrap(), 0x0102);
    r.seek(0);
    assert_eq!(r.read_u32().unwrap(), 0x0102_0304);
    r.seek(0);
    assert_eq!(r.read_u64().unwrap(), 0x0102_0304_0506_0708);
    r.seek(0);
    assert_eq!(r.read_i16().unwrap(), 0x0102);
}

#[test]
fn signed_narrow_values() {
    let data: Vec<u8> = vec![0xFF, 0xFF, 0xFF, 0xFF, 0xFF, 0xFF, 0xFF, 0xFF];
    let mut r = Raf::from_bytes(&data, RafByteOrder::LE);
    assert_eq!(r.read_i8().unwrap(), -1);
    r.seek(0);
    assert_eq!(r.read_u8().unwrap(), 0xFF);
    r.seek(0);
    assert_eq!(r.read_i16().unwrap(), -1);
    r.seek(0);
    assert_eq!(r.read_i64().unwrap(), -1);
}

#[test]
fn from_read_drains_source() {
    let src: Vec<u8> = vec![5, 6, 7];
    let mut slice: &[u8] = &src;
    let mut r = Raf::from_read(&mut slice, RafByteOrder::LE).unwrap();
    assert_eq!(r.pos, 0);
    assert_eq!(r.read_bytes(3).unwrap(), vec![5u8, 6, 7]);
}

#[test]
fn read_bytes_boundary_convention() {
    let data: Vec<u8> = vec![1, 2, 3, 4];
    let mut r = Raf::from_bytes(&data, RafByteOrder::LE);
    let got = r.read_bytes(4).unwrap();
    assert_eq!(got, vec![1u8, 2, 3, 4]);
    assert_eq!(r.pos, 4);
    assert!(matches!(r.read_bytes(1), Err(RafError::BufferOverflow)));
    assert_eq!(r.pos, 4);
    r.seek(3);
    assert!(matches!(r.read_bytes(2), Err(RafError::BufferOverflow)));
    r.seek(3);
    assert_eq!(r.read_bytes(1).unwrap(), vec![4u8]);
    r.seek(0);
    assert_eq!(r.read_bytes(0).unwrap(), Vec::<u8>::new());
}
