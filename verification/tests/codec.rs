use lnp_types::codec::{
    copy_array, read_array, read_be16, read_be24, read_u8, write_be16, write_be24, write_bytes,
    write_u8,
};
use lnp_types::text::{append_decimal, hex_string};
use lnp_types::Error;

#[test]
fn big_endian_fields() {
    let mut e = Vec::new();
    assert_eq!(write_u8(&mut e, 0xAB), 1);
    assert_eq!(write_be16(&mut e, 0x2607), 2);
    assert_eq!(write_be24(&mut e, 0x0A0B0C), 3);
    assert_eq!(write_bytes(&mut e, &[1, 2]), 2);
    assert_eq!(write_bytes(&mut e, &[]), 0);
    assert_eq!(e, vec![0xAB, 0x26, 0x07, 0x0A, 0x0B, 0x0C, 1, 2]);
    assert_eq!(read_u8(&e, 0), Ok(0xAB));
    assert_eq!(read_be16(&e, 1), Ok(9735));
    assert_eq!(read_be24(&e, 3), Ok(0x0A0B0C));
    assert_eq!(read_array::<2>(&e, 6), Ok([1, 2]));
    assert_eq!(copy_array::<3>(&e, 0), [0xAB, 0x26, 0x07]);
}

#[test]
fn write_be24_keeps_the_three_low_bytes() {
    let mut e = Vec::new();
    write_be24(&mut e, 0xFF010203);
    assert_eq!(e, vec![1, 2, 3]);
}

#[test]
fn short_reads_are_insufficient_data() {
    let d = [1u8, 2, 3];
    assert_eq!(read_u8(&d, 3), Err(Error::InsufficientData));
    assert_eq!(read_u8(&d, usize::MAX), Err(Error::InsufficientData));
    assert_eq!(read_be16(&d, 2), Err(Error::InsufficientData));
    assert_eq!(read_be16(&d, usize::MAX), Err(Error::InsufficientData));
    assert_eq!(read_be24(&d, 1), Err(Error::InsufficientData));
    assert_eq!(read_be24(&d, 0), Ok(0x010203));
    assert_eq!(read_array::<4>(&d, 0), Err(Error::InsufficientData));
    assert_eq!(read_array::<0>(&d, 3), Ok([]));
    assert_eq!(read_array::<0>(&d, 4), Err(Error::InsufficientData));
}

#[test]
fn hex_and_decimal_text() {
    assert_eq!(hex_string(&[], false), "");
    assert_eq!(hex_string(&[0x00, 0x9A, 0xBC, 0xDE, 0xFF], false), "009abcdeff");
    assert_eq!(hex_string(&[0x00, 0x9A, 0xBC, 0xDE, 0xFF], true), "009ABCDEFF");
    let mut s = String::from("n=");
    append_decimal(&mut s, 0);
    append_decimal(&mut s, 4_294_967_295);
    append_decimal(&mut s, 1000);
    assert_eq!(s, "n=042949672951000");
}

#[test]
fn errors_in_words() {
    assert_eq!(Error::InvalidFormat.description(), "Wrong Network Address Format");
    assert_eq!(Error::InsufficientData.description(), "Unexpected end of data");
    assert_eq!(Error::EnumValueNotKnown.description(), "Value is not known");
    assert_eq!(Error::DataIntegrityError.description(), "Required field is missing");
    assert_eq!(Error::DataNotEntirelyConsumed.description(), "Data were not consumed entirely");
}
