use lnp_types::node_addr::{TAG_IPV4, TAG_IPV6, TAG_ONION_V2, TAG_ONION_V3};
use lnp_types::{
    AddrFormat, AddressList, AnnouncedNodeAddr, DecodeError, Error, Transport, UniformAddr,
    ADDR_LEN,
};

fn ipv4() -> AnnouncedNodeAddr {
    AnnouncedNodeAddr::IpV4 { addr: [10, 0, 0, 1], port: 0x1234 }
}

fn ipv6() -> AnnouncedNodeAddr {
    AnnouncedNodeAddr::IpV6 {
        addr: [1, 2, 3, 4, 5, 6, 7, 8, 9, 10, 11, 12, 13, 14, 15, 16],
        port: 1,
    }
}

fn onion_v2() -> AnnouncedNodeAddr {
    AnnouncedNodeAddr::OnionV2 { addr: [9, 8, 7, 6, 5, 4, 3, 2, 1, 0], port: 65535 }
}

fn pubkey() -> [u8; 32] {
    let mut key = [0u8; 32];
    for (i, b) in key.iter_mut().enumerate() {
        *b = 100 + i as u8;
    }
    key
}

fn onion_v3(checksum: Option<u16>, version: Option<u8>) -> AnnouncedNodeAddr {
    AnnouncedNodeAddr::OnionV3 { ed25519_pubkey: pubkey(), checksum, version, port: 9735 }
}

#[test]
fn family_tags_are_one_to_four() {
    assert_eq!(ipv4().into_u8(), 1);
    assert_eq!(ipv6().into_u8(), 2);
    assert_eq!(onion_v2().into_u8(), 3);
    assert_eq!(onion_v3(None, None).into_u8(), 4);
    assert_eq!((TAG_IPV4, TAG_IPV6, TAG_ONION_V2, TAG_ONION_V3), (1, 2, 3, 4));
}

#[test]
fn wire_lengths_by_tag() {
    assert_eq!(AnnouncedNodeAddr::wire_len_of_tag(1), Ok(7));
    assert_eq!(AnnouncedNodeAddr::wire_len_of_tag(2), Ok(19));
    assert_eq!(AnnouncedNodeAddr::wire_len_of_tag(3), Ok(13));
    assert_eq!(AnnouncedNodeAddr::wire_len_of_tag(4), Ok(38));
    assert_eq!(AnnouncedNodeAddr::wire_len_of_tag(0), Err(Error::InvalidFormat));
    assert_eq!(AnnouncedNodeAddr::wire_len_of_tag(5), Err(Error::InvalidFormat));
}

#[test]
fn wire_lengths_by_family() {
    assert_eq!(ipv4().wire_len(), 7);
    assert_eq!(ipv6().wire_len(), 19);
    assert_eq!(onion_v2().wire_len(), 13);
    assert_eq!(onion_v3(Some(1), Some(2)).wire_len(), 38);
}

#[test]
fn ipv4_wire_bytes_are_tag_address_port() {
    let mut e = vec![0xAA];
    assert_eq!(ipv4().lightning_encode(&mut e), Ok(7));
    assert_eq!(e, vec![0xAA, 1, 10, 0, 0, 1, 0x12, 0x34]);
}

#[test]
fn wire_round_trip_of_all_families() {
    for addr in [ipv4(), ipv6(), onion_v2(), onion_v3(Some(0xBEEF), Some(3))] {
        let bytes = addr.lightning_serialize();
        assert_eq!(bytes.len(), addr.wire_len());
        assert_eq!(AnnouncedNodeAddr::lightning_deserialize(&bytes), Ok(addr));
        assert_eq!(AnnouncedNodeAddr::lightning_decode(&bytes), Ok(addr));
    }
}

#[test]
fn decode_leaves_trailing_bytes_unread() {
    let mut bytes = ipv6().lightning_serialize();
    bytes.extend_from_slice(&[1, 2, 3]);
    assert_eq!(AnnouncedNodeAddr::lightning_decode(&bytes), Ok(ipv6()));
    assert_eq!(
        AnnouncedNodeAddr::lightning_deserialize(&bytes),
        Err(Error::DataNotEntirelyConsumed)
    );
}

#[test]
fn onion_v3_without_checksum_has_no_wire_form() {
    let mut e = Vec::new();
    let r = onion_v3(None, Some(3)).lightning_encode(&mut e);
    assert_eq!(r, Err(Error::DataIntegrityError));
    let mut written = vec![4u8];
    written.extend_from_slice(&pubkey());
    assert_eq!(e, written);
}

#[test]
fn onion_v3_without_version_has_no_wire_form() {
    let mut e = Vec::new();
    let r = onion_v3(Some(0x0102), None).lightning_encode(&mut e);
    assert_eq!(r, Err(Error::DataIntegrityError));
    let mut written = vec![4u8];
    written.extend_from_slice(&pubkey());
    written.extend_from_slice(&[1, 2]);
    assert_eq!(e, written);
}

#[test]
fn decode_of_empty_input_is_insufficient_data() {
    assert_eq!(AnnouncedNodeAddr::lightning_decode(&[]), Err(Error::InsufficientData));
}

#[test]
fn decode_of_unknown_tag_is_invalid_format() {
    assert_eq!(AnnouncedNodeAddr::lightning_decode(&[0]), Err(Error::InvalidFormat));
    assert_eq!(AnnouncedNodeAddr::lightning_decode(&[5, 1, 2, 3]), Err(Error::InvalidFormat));
    assert_eq!(AnnouncedNodeAddr::lightning_decode(&[255; 64]), Err(Error::InvalidFormat));
}

#[test]
fn decode_of_short_body_is_insufficient_data() {
    for addr in [ipv4(), ipv6(), onion_v2(), onion_v3(Some(7), Some(8))] {
        let bytes = addr.lightning_serialize();
        for cut in 1..bytes.len() {
            assert_eq!(
                AnnouncedNodeAddr::lightning_decode(&bytes[..cut]),
                Err(Error::InsufficientData)
            );
        }
    }
}

#[test]
fn uniform_slot_offsets() {
    assert_eq!(ADDR_LEN, 33);
    let u = ipv4().to_uniform_addr();
    assert_eq!(u.addr_format, AddrFormat::IpV4);
    assert_eq!(u.port, Some(0x1234));
    assert_eq!(u.transport, None);
    let mut slot = [0u8; 33];
    slot[29..].copy_from_slice(&[10, 0, 0, 1]);
    assert_eq!(u.addr, slot);

    let mut slot = [0u8; 33];
    slot[17..].copy_from_slice(&[1, 2, 3, 4, 5, 6, 7, 8, 9, 10, 11, 12, 13, 14, 15, 16]);
    assert_eq!(ipv6().addr(), slot);
    assert_eq!(ipv6().addr_format(), AddrFormat::IpV6);

    let mut slot = [0u8; 33];
    slot[23..].copy_from_slice(&[9, 8, 7, 6, 5, 4, 3, 2, 1, 0]);
    assert_eq!(onion_v2().addr(), slot);
    assert_eq!(onion_v2().addr_format(), AddrFormat::OnionV2);

    let mut slot = [0u8; 33];
    slot[1..].copy_from_slice(&pubkey());
    assert_eq!(onion_v3(Some(1), Some(1)).addr(), slot);
    assert_eq!(onion_v3(Some(1), Some(1)).addr_format(), AddrFormat::OnionV3);
    assert_eq!(onion_v3(Some(1), Some(1)).port(), Some(9735));
    assert_eq!(onion_v3(Some(1), Some(1)).transport(), None);
}

#[test]
fn uniform_round_trip_keeps_all_but_onion_v3_extras() {
    for addr in [ipv4(), ipv6(), onion_v2(), onion_v3(None, None)] {
        assert_eq!(AnnouncedNodeAddr::from_uniform_addr(addr.to_uniform_addr()), Ok(addr));
        assert_eq!(AnnouncedNodeAddr::from_uniform_addr_lossy(addr.to_uniform_addr()), Ok(addr));
    }
    for (checksum, version) in [(Some(5), Some(6)), (Some(5), None), (None, Some(6))] {
        assert_eq!(
            AnnouncedNodeAddr::from_uniform_addr(onion_v3(checksum, version).to_uniform_addr()),
            Ok(onion_v3(None, None))
        );
    }
}

#[test]
fn uniform_without_port_is_insufficient_data() {
    for addr in [ipv4(), ipv6(), onion_v2(), onion_v3(None, None)] {
        let mut u = addr.to_uniform_addr();
        u.port = None;
        assert_eq!(AnnouncedNodeAddr::from_uniform_addr(u), Err(DecodeError::InsufficientData));
    }
}

#[test]
fn uniform_of_other_format_is_invalid_addr() {
    let u = UniformAddr {
        addr_format: AddrFormat::Lightning,
        addr: [7u8; 33],
        port: Some(1),
        transport: Some(Transport::Tcp),
    };
    assert_eq!(AnnouncedNodeAddr::from_uniform_addr(u), Err(DecodeError::InvalidAddr));
    let u = UniformAddr { port: None, ..u };
    assert_eq!(AnnouncedNodeAddr::from_uniform_addr_lossy(u), Err(DecodeError::InvalidAddr));
}

#[test]
fn uniform_transport_is_dropped() {
    let mut u = ipv4().to_uniform_addr();
    u.transport = Some(Transport::Quic);
    assert_eq!(AnnouncedNodeAddr::from_uniform_addr(u), Ok(ipv4()));
}

#[test]
fn empty_list_is_a_zero_count() {
    let list = AddressList::default();
    assert_eq!(list, AddressList(vec![]));
    assert_eq!(list.lightning_serialize(), vec![0, 0]);
    assert_eq!(AddressList::lightning_deserialize(&[0, 0]), Ok(AddressList(vec![])));
}

#[test]
fn list_round_trip_keeps_order_and_count() {
    let list = AddressList(vec![onion_v2(), ipv4(), ipv4(), onion_v3(Some(1), Some(2)), ipv6()]);
    let bytes = list.lightning_serialize();
    assert_eq!(&bytes[..2], &[0, 5]);
    assert_eq!(bytes.len(), 2 + 13 + 7 + 7 + 38 + 19);
    let back = AddressList::lightning_deserialize(&bytes).unwrap();
    assert_eq!(back, list);
    assert_eq!(back.0.len(), 5);
    assert_eq!(back.0[0], onion_v2());
    assert_eq!(back.0[4], ipv6());
    let mut e = Vec::new();
    assert_eq!(list.lightning_encode(&mut e), Ok(bytes.len()));
    assert_eq!(e, bytes);
}

#[test]
fn list_decode_stops_at_the_count() {
    let mut bytes = AddressList(vec![ipv4()]).lightning_serialize();
    bytes.extend_from_slice(&ipv4().lightning_serialize());
    assert_eq!(AddressList::lightning_decode(&bytes), Ok(AddressList(vec![ipv4()])));
    assert_eq!(AddressList::lightning_deserialize(&bytes), Err(Error::DataNotEntirelyConsumed));
}

#[test]
fn list_decode_of_short_input_is_insufficient_data() {
    assert_eq!(AddressList::lightning_decode(&[]), Err(Error::InsufficientData));
    assert_eq!(AddressList::lightning_decode(&[0]), Err(Error::InsufficientData));
    assert_eq!(AddressList::lightning_decode(&[0, 1]), Err(Error::InsufficientData));
    let mut bytes = vec![0, 2];
    bytes.extend_from_slice(&ipv4().lightning_serialize());
    assert_eq!(AddressList::lightning_decode(&bytes), Err(Error::InsufficientData));
}

#[test]
fn list_decode_of_unknown_tag_is_invalid_format() {
    let mut bytes = vec![0, 2];
    bytes.extend_from_slice(&ipv4().lightning_serialize());
    bytes.push(9);
    assert_eq!(AddressList::lightning_decode(&bytes), Err(Error::InvalidFormat));
}

#[test]
fn list_encode_stops_at_address_without_wire_form() {
    let list = AddressList(vec![ipv4(), onion_v3(None, None), ipv6()]);
    let mut e = Vec::new();
    assert_eq!(list.lightning_encode(&mut e), Err(Error::DataIntegrityError));
    let mut written = vec![0, 3];
    written.extend_from_slice(&ipv4().lightning_serialize());
    written.push(4);
    written.extend_from_slice(&pubkey());
    assert_eq!(e, written);
}

#[test]
fn list_of_65535_addresses_round_trips() {
    let list = AddressList(vec![ipv4(); 65535]);
    let bytes = list.lightning_serialize();
    assert_eq!(&bytes[..2], &[0xFF, 0xFF]);
    assert_eq!(bytes.len(), 2 + 7 * 65535);
    assert_eq!(AddressList::lightning_deserialize(&bytes), Ok(list));
}

#[test]
fn count_of_a_longer_list_keeps_its_two_low_bytes() {
    let list = AddressList(vec![ipv4(); 65537]);
    let bytes = list.lightning_serialize();
    assert_eq!(&bytes[..2], &[0, 1]);
    assert_eq!(bytes.len(), 2 + 7 * 65537);
    assert_eq!(AddressList::lightning_decode(&bytes), Ok(AddressList(vec![ipv4()])));
    assert_eq!(AddressList::lightning_deserialize(&bytes), Err(Error::DataNotEntirelyConsumed));
}
