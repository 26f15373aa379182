use ping_pong::{address_from_bech32, address_from_bytes, Address};

#[test]
fn bech32_address_of_a_known_wallet() {
    let a = address_from_bech32("erd1qyu5wthldzr8wx5c9ucg8kjagg0jfs53s8nr3zpz3hypefsdd8ssycr6th")
        .unwrap();
    let expected: [u8; 32] = [
        0x01, 0x39, 0x47, 0x2e, 0xff, 0x68, 0x86, 0x77, 0x1a, 0x98, 0x2f, 0x30, 0x83, 0xda, 0x5d,
        0x42, 0x1f, 0x24, 0xc2, 0x91, 0x81, 0xe6, 0x38, 0x88, 0x22, 0x8d, 0xc8, 0x1c, 0xa6, 0x0d,
        0x69, 0xe1,
    ];
    assert_eq!(a.bytes, expected);
}

#[test]
fn bech32_round_trip_through_the_encoder() {
    let bytes = [7u8; 32];
    let hrp = bech32::Hrp::parse("erd").unwrap();
    let s = bech32::encode::<bech32::Bech32>(hrp, &bytes).unwrap();
    let a = address_from_bech32(&s).unwrap();
    assert!(a.same_as(&Address::new(bytes)));
}

#[test]
fn bech32_rejects_bad_checksum_and_wrong_length() {
    assert!(address_from_bech32("erd1qyu5wthldzr8wx5c9ucg8kjagg0jfs53s8nr3zpz3hypefsdd8ssycr6tx").is_none());
    assert!(address_from_bech32("not an address").is_none());
    let hrp = bech32::Hrp::parse("erd").unwrap();
    let short = bech32::encode::<bech32::Bech32>(hrp, &[1u8; 20]).unwrap();
    assert!(address_from_bech32(&short).is_none());
    assert!(address_from_bytes(&vec![1u8; 31]).is_none());
    assert!(address_from_bytes(&vec![1u8; 32]).unwrap().same_as(&Address::new([1u8; 32])));
}
