use mqtt_codec::packet_type::PacketType;
use mqtt_codec::reason_code::ReasonCode;

#[test]
fn check_that_correct_mapping_from_value_to_packet_type_is_done() {
    let mut test_data = Vec::new();
    test_data.push((0, Result::Err(ReasonCode::MalformedPacket)));
    test_data.push((1, Result::Ok(PacketType::Connect)));
    test_data.push((2, Result::Ok(PacketType::Connack)));
    test_data.push((3, Result::Ok(PacketType::Publish)));
    test_data.push((4, Result::Ok(PacketType::PubAck)));
    test_data.push((5, Result::Ok(PacketType::PubRec)));
    test_data.push((6, Result::Ok(PacketType::PubRel)));
    test_data.push((7, Result::Ok(PacketType::PubComp)));
    test_data.push((8, Result::Ok(PacketType::Subscribe)));
    test_data.push((9, Result::Ok(PacketType::SubAck)));
    test_data.push((10, Result::Ok(PacketType::Unsubscribe)));
    test_data.push((11, Result::Ok(PacketType::UnsubAck)));
    test_data.push((12, Result::Ok(PacketType::PingReq)));
    test_data.push((13, Result::Ok(PacketType::PingResp)));
    test_data.push((14, Result::Ok(PacketType::Disconnect)));
    test_data.push((15, Result::Ok(PacketType::Auth)));
    test_data.push((15, Result::Ok(PacketType::Auth)));
    test_data.push((16, Result::Err(ReasonCode::MalformedPacket)));

    test_data
        .into_iter()
        .enumerate()
        .for_each(|(test_case, (value, expected_result))| {
            println!("Running Test Case: {}", test_case);
            assert_eq!(expected_result, PacketType::try_from(value));
        });
}

#[test]
fn packet_type_rejects_the_largest_byte() {
    assert_eq!(Err(ReasonCode::MalformedPacket), PacketType::try_from(255u8));
}

#[test]
fn packet_type_byte_round_trips() {
    for value in 1u8..=15 {
        let packet_type = PacketType::try_from(value).unwrap();
        assert_eq!(value, packet_type.to_byte());
    }
    assert_eq!(1, PacketType::Connect.to_byte());
    assert_eq!(15, PacketType::Auth.to_byte());
}
