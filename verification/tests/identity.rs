use lnp_types::{
    Alias, ChannelId, Error, ExtensionId, Lifecycle, NodeColor, ShortChannelId, TempChannelId,
    TxType,
};
use std::convert::TryFrom;

fn txid() -> [u8; 32] {
    let mut id = [0u8; 32];
    for (i, b) in id.iter_mut().enumerate() {
        *b = i as u8;
    }
    id
}

#[test]
fn channel_id_xors_the_last_two_bytes() {
    let id = ChannelId::with(txid(), 0x0102);
    let mut expected = txid();
    expected[30] = 30 ^ 0x01;
    expected[31] = 31 ^ 0x02;
    assert_eq!(id.to_inner(), expected);
    assert_eq!(ChannelId::with(txid(), 0).to_inner(), txid());
    assert_eq!(ChannelId::with([0xFF; 32], 0xFFFF).to_inner()[30..], [0, 0]);
    assert_eq!(ChannelId::with([0xFF; 32], 0xFFFF).to_inner()[..30], [0xFF; 30]);
}

#[test]
fn channel_id_is_a_function_of_the_funding_output() {
    assert_eq!(ChannelId::with(txid(), 7), ChannelId::with(txid(), 7));
    for other in [0u16, 1, 6, 8, 0x0107, 0x0700, 0xFFFF] {
        assert_ne!(ChannelId::with(txid(), 7), ChannelId::with(txid(), other));
    }
}

#[test]
fn wildcard_is_the_all_zero_id() {
    assert!(ChannelId::from_inner([0u8; 32]).is_wildcard());
    assert!(ChannelId::default().is_wildcard());
    for i in 0..32 {
        let mut bytes = [0u8; 32];
        bytes[i] = 1;
        assert!(!ChannelId::from_inner(bytes).is_wildcard());
    }
    assert!(!ChannelId::from_inner([0xFF; 32]).is_wildcard());
    let mut zero_txid = [0u8; 32];
    zero_txid[31] = 5;
    assert!(ChannelId::with(zero_txid, 5).is_wildcard());
}

#[test]
fn temp_channel_id_converts_by_its_bytes() {
    let temp = TempChannelId::from_inner(txid());
    let id = ChannelId::from(temp);
    assert_eq!(id.to_inner(), txid());
    assert_eq!(TempChannelId::from(id), temp);
    assert_eq!(TempChannelId::dumb_default().to_inner(), [0u8; 32]);
}

#[test]
fn random_temp_channel_ids_differ() {
    let a = TempChannelId::random();
    let b = TempChannelId::random();
    assert_ne!(a, b);
    assert_eq!(a.to_inner().len(), 32);
    assert_eq!(TempChannelId::from_inner(a.to_inner()), a);
}

#[test]
fn ids_are_sixty_four_hex_digits() {
    let mut bytes = [0u8; 32];
    bytes[0] = 0x01;
    bytes[1] = 0xAB;
    bytes[31] = 0xF0;
    let lower = "01ab0000000000000000000000000000000000000000000000000000000000f0";
    assert_eq!(ChannelId::from_inner(bytes).to_hex(), lower);
    assert_eq!(TempChannelId::from_inner(bytes).to_hex(), lower);
    assert_eq!(Alias::from_inner(bytes).to_hex(), lower);
    assert_eq!(ChannelId::from_inner(bytes).to_hex_upper(), lower.to_uppercase());
    assert_eq!(TempChannelId::from_inner(bytes).to_hex_upper(), lower.to_uppercase());
    assert_eq!(Alias::from_inner(bytes).to_hex_upper(), lower.to_uppercase());
}

#[test]
fn ids_are_thirty_two_raw_bytes_on_the_wire() {
    let mut e = vec![9u8];
    assert_eq!(ChannelId::from_inner(txid()).lightning_encode(&mut e), Ok(32));
    assert_eq!(e[0], 9);
    assert_eq!(&e[1..], &txid());
    assert_eq!(ChannelId::lightning_decode(&e[1..]), Ok(ChannelId::from_inner(txid())));
    assert_eq!(TempChannelId::lightning_decode(&e[1..]), Ok(TempChannelId::from_inner(txid())));
    assert_eq!(Alias::lightning_decode(&e[1..]), Ok(Alias::from_inner(txid())));
    assert_eq!(ChannelId::lightning_decode(&e[2..]), Err(Error::InsufficientData));
    assert_eq!(TempChannelId::lightning_decode(&[]), Err(Error::InsufficientData));
    assert_eq!(Alias::lightning_decode(&e[..31]), Err(Error::InsufficientData));
    let mut t = Vec::new();
    assert_eq!(TempChannelId::from_inner(txid()).lightning_encode(&mut t), Ok(32));
    let mut a = Vec::new();
    assert_eq!(Alias::from_inner(txid()).lightning_encode(&mut a), Ok(32));
    assert_eq!(t, a);
    assert_eq!(t, txid().to_vec());
}

#[test]
fn node_color_is_three_raw_bytes() {
    let color = NodeColor::from_inner([1, 2, 3]);
    let mut e = Vec::new();
    assert_eq!(color.strict_encode(&mut e), Ok(3));
    assert_eq!(e, vec![1, 2, 3]);
    assert_eq!(NodeColor::strict_decode(&[1, 2, 3, 4]), Ok(color.clone()));
    assert_eq!(NodeColor::strict_decode(&[1, 2]), Err(Error::InsufficientData));
    assert_eq!(color.to_inner(), [1, 2, 3]);
}

#[test]
fn short_channel_id_domain_is_24_bits() {
    assert!(ShortChannelId::new(0, 0, 0).is_some());
    assert!(ShortChannelId::new(0xFF_FFFF, 0xFF_FFFF, 0xFFFF).is_some());
    assert_eq!(ShortChannelId::new(0x100_0000, 0, 0), None);
    assert_eq!(ShortChannelId::new(0, 0x100_0000, 0), None);
    assert_eq!(ShortChannelId::new(0x100_0001, 1, 1), None);
    assert_eq!(ShortChannelId::new(u32::MAX, u32::MAX, 0), None);
    assert_eq!(ShortChannelId::default(), ShortChannelId::new(0, 0, 0).unwrap());
}

#[test]
fn short_channel_id_getters() {
    let id = ShortChannelId::new(600_000, 1234, 5).unwrap();
    assert_eq!(id.block_height(), 600_000);
    assert_eq!(id.tx_index(), 1234);
    assert_eq!(id.output_index(), 5);
}

#[test]
fn short_channel_id_packs_into_eight_bytes() {
    let id = ShortChannelId::new(0x010203, 0x040506, 0x0708).unwrap();
    let mut e = Vec::new();
    assert_eq!(id.strict_encode(&mut e), Ok(8));
    assert_eq!(e, vec![1, 2, 3, 4, 5, 6, 7, 8]);
    assert_eq!(ShortChannelId::strict_decode(&e), Ok(id));
    let max = ShortChannelId::new(0xFF_FFFF, 0xFF_FFFF, 0xFFFF).unwrap();
    let mut e = Vec::new();
    assert_eq!(max.strict_encode(&mut e), Ok(8));
    assert_eq!(e, vec![0xFF; 8]);
    assert_eq!(ShortChannelId::strict_decode(&e), Ok(max));
}

#[test]
fn short_channel_id_unpack_of_pack() {
    for (h, t, o) in [(0, 0, 0), (1, 2, 3), (0xFF_FFFF, 0, 0xFFFF), (700_000, 65_536, 256)] {
        let id = ShortChannelId::new(h, t, o).unwrap();
        let mut e = Vec::new();
        id.strict_encode(&mut e).unwrap();
        let back = ShortChannelId::strict_decode(&e).unwrap();
        assert_eq!((back.block_height(), back.tx_index(), back.output_index()), (h, t, o));
    }
}

#[test]
fn short_channel_id_decode_of_short_input() {
    for len in 0..8 {
        assert_eq!(
            ShortChannelId::strict_decode(&vec![1u8; len]),
            Err(Error::InsufficientData)
        );
    }
    assert!(ShortChannelId::strict_decode(&[1u8; 9]).is_ok());
}

#[test]
fn short_channel_id_as_text() {
    assert_eq!(ShortChannelId::new(600_000, 1234, 5).unwrap().to_string(), "600000x1234x5");
    assert_eq!(ShortChannelId::default().to_string(), "0x0x0");
    assert_eq!(
        ShortChannelId::new(0xFF_FFFF, 10, 0xFFFF).unwrap().to_string(),
        "16777215x10x65535"
    );
}

#[test]
fn extension_codes_are_fixed() {
    let all = [
        (ExtensionId::Channel, 0u16),
        (ExtensionId::Bolt3, 1),
        (ExtensionId::Eltoo, 2),
        (ExtensionId::Taproot, 3),
        (ExtensionId::Htlc, 4),
        (ExtensionId::Ptlc, 5),
        (ExtensionId::ShutdownScript, 6),
        (ExtensionId::AnchorOut, 7),
        (ExtensionId::Dlc, 8),
        (ExtensionId::Lightspeed, 9),
        (ExtensionId::Bip96, 10),
        (ExtensionId::Rgb, 11),
    ];
    for (id, code) in all {
        assert_eq!(u16::from(id), code);
        assert_eq!(ExtensionId::try_from(code), Ok(id));
    }
}

#[test]
fn extension_codes_outside_the_set_are_rejected() {
    for code in 12..=u16::MAX {
        assert_eq!(ExtensionId::try_from(code), Err(Error::EnumValueNotKnown));
    }
}

#[test]
fn extension_code_is_two_big_endian_bytes() {
    let mut e = Vec::new();
    assert_eq!(ExtensionId::Rgb.lightning_encode(&mut e), Ok(2));
    assert_eq!(e, vec![0, 11]);
    assert_eq!(ExtensionId::lightning_decode(&[0, 11, 77]), Ok(ExtensionId::Rgb));
    assert_eq!(ExtensionId::lightning_decode(&[11, 0]), Err(Error::EnumValueNotKnown));
    assert_eq!(ExtensionId::lightning_decode(&[0]), Err(Error::InsufficientData));
}

#[test]
fn defaults() {
    assert_eq!(Lifecycle::default(), Lifecycle::Initial);
    assert_eq!(ExtensionId::default(), ExtensionId::Channel);
    assert_ne!(Lifecycle::Closing { round: 1 }, Lifecycle::Closing { round: 2 });
}

#[test]
fn tx_type_codes_round_trip() {
    assert_eq!(u16::from(TxType::HtlcSuccess), 0);
    assert_eq!(u16::from(TxType::HtlcTimeout), 1);
    assert_eq!(u16::from(TxType::Unknown(77)), 77);
    assert_eq!(TxType::from(0), TxType::HtlcSuccess);
    assert_eq!(TxType::from(1), TxType::HtlcTimeout);
    assert_eq!(TxType::from(2), TxType::Unknown(2));
    for code in 0..=u16::MAX {
        assert_eq!(u16::from(TxType::from(code)), code);
    }
    assert_eq!(TxType::from(u16::from(TxType::Unknown(1))), TxType::HtlcTimeout);
}
