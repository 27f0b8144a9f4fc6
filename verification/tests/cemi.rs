use knx_rust::cemi::apdu::Apdu;
use knx_rust::cemi::information::InformationType;
use knx_rust::cemi::l_data::{
    Acknowledge, AddressType, Confirmation, FrameFormat, FrameType, LData, Priority, Repetition,
    SystemBroadcast,
};
use knx_rust::cemi::Message;
use knx_rust::dpt::DPT;
use knx_rust::knxnet::connect::ConnectRequest;
use knx_rust::knxnet::{KnxNetIpError, Service};

fn telegram<D>(data: Apdu<D>) -> LData<D> {
    LData {
        frame_type: FrameType::Standard,
        repetition: Repetition::NoRepeat,
        system_broadcast: SystemBroadcast::Broadcast,
        priority: Priority::Low,
        acknowledge: Acknowledge::NoAcknowledge,
        confirmation: Confirmation::NoError,
        destination_address_type: AddressType::Group,
        hop_count: 6,
        frame_format: FrameFormat::Standard,
        source: 0x11D5,
        destination: 0x128,
        numbered: false,
        seq: 0,
        control: false,
        data,
    }
}

#[test]
fn t_message_length() {
    assert_eq!(Service::<()>::ConnectRequest(ConnectRequest::default()).length(), 26);
}

#[test]
fn t_message_encode() {
    let l_data_ind_msg1 = Message::LDataInd(
        vec![],
        LData {
            frame_type: FrameType::Standard,
            repetition: Repetition::NoRepeat,
            system_broadcast: SystemBroadcast::Broadcast,
            priority: Priority::Low,
            acknowledge: Acknowledge::NoAcknowledge,
            confirmation: Confirmation::NoError,
            destination_address_type: AddressType::Group,
            hop_count: 6,
            frame_format: FrameFormat::Standard,
            source: 0x11D5,
            destination: 0x128,
            numbered: false,
            seq: 0,
            control: false,
            data: Apdu::GroupValueWrite(vec![0x19, 0x0e]),
        },
    );
    let mut data = vec![];
    l_data_ind_msg1.encode(&mut data);

    assert_eq!(
        data,
        vec![0x29, 0x00, 0xBC, 0xE0, 0x11, 0xD5, 0x01, 0x28, 0x03, 0x00, 0x80, 0x19, 0x0e]
    );

    let l_data_ind_msg2 = Message::LDataInd(
        vec![],
        LData {
            frame_type: FrameType::Standard,
            repetition: Repetition::Repeat,
            system_broadcast: SystemBroadcast::SystemBroadcast,
            priority: Priority::Low,
            acknowledge: Acknowledge::NoAcknowledge,
            confirmation: Confirmation::NoError,
            destination_address_type: AddressType::Group,
            hop_count: 6,
            frame_format: FrameFormat::Standard,
            source: 0x11D5,
            destination: 0x128,
            numbered: false,
            seq: 0,
            control: false,
            data: Apdu::GroupValueWrite(true),
        },
    );
    data.clear();
    l_data_ind_msg2.encode(&mut data);

    assert_eq!(data, vec![0x29, 0x00, 0x8C, 0xE0, 0x11, 0xD5, 0x01, 0x28, 0x01, 0x00, 0x81]);

    let l_data_req_msg1 = Message::LDataReq(
        vec![],
        LData {
            frame_type: FrameType::Standard,
            repetition: Repetition::Repeat,
            system_broadcast: SystemBroadcast::SystemBroadcast,
            priority: Priority::Low,
            acknowledge: Acknowledge::NoAcknowledge,
            confirmation: Confirmation::NoError,
            destination_address_type: AddressType::Group,
            hop_count: 6,
            frame_format: FrameFormat::Standard,
            source: 0x11D5,
            destination: 0x128,
            numbered: false,
            seq: 0,
            control: false,
            data: Apdu::GroupValueWrite(true),
        },
    );
    data.clear();
    l_data_ind_msg2.encode(&mut data);

    data.clear();
    l_data_req_msg1.encode(&mut data);
    assert_eq!(data, vec![0x11, 0x00, 0x8C, 0xE0, 0x11, 0xD5, 0x01, 0x28, 0x01, 0x00, 0x81]);
}

#[test]
fn t_message_decode() {
    let bytes = [0x29, 0x00, 0xBC, 0xE0, 0x11, 0xD5, 0x01, 0x28, 0x03, 0x00, 0x80, 0x19, 0x0e];
    assert_eq!(
        Message::<Vec<u8>>::decode(&bytes),
        Ok(Message::LDataInd(vec![], telegram(Apdu::GroupValueWrite(vec![0x19, 0x0e]))))
    );
}

#[test]
fn mod_t_service_decode_errors() {
    assert_eq!(Message::<Vec<u8>>::decode(&[]), Err(KnxNetIpError::MessageTooShort(0)));
    assert_eq!(Message::<Vec<u8>>::decode(&[0x42]), Err(KnxNetIpError::NotImplemented));
    assert_eq!(Message::<Vec<u8>>::decode(&[0x29]), Err(KnxNetIpError::MessageTooShort(1)));
    assert_eq!(
        Message::<Vec<u8>>::decode(&[0x29, 0x02, 0x00]),
        Err(KnxNetIpError::MessageTooShort(3))
    );
    assert_eq!(
        Message::<Vec<u8>>::decode(&[0x29, 0x00, 0xBC, 0xE0, 0x11, 0xD5, 0x01, 0x28, 0x03]),
        Err(KnxNetIpError::MessageTooShort(7))
    );
}

#[test]
fn message_lengths_count_code_and_length_byte() {
    assert_eq!(Message::LDataInd(vec![], telegram(Apdu::<()>::GroupValueRead)).length(), 11);
    assert_eq!(Message::LDataInd(vec![], telegram(Apdu::GroupValueWrite(true))).length(), 11);
    assert_eq!(
        Message::LDataInd(vec![], telegram(Apdu::GroupValueWrite(vec![0x19u8, 0x0e]))).length(),
        13
    );
    assert_eq!(Message::<()>::LRawReq.length(), 2);
    assert_eq!(Message::<()>::default().length(), 2);
}

#[test]
fn a_value_of_six_bits_shares_the_low_byte_of_the_service_code() {
    let mut buf = vec![];
    Apdu::GroupValueWrite(true).encode(&mut buf, 0x00);
    assert_eq!(buf, vec![0x00, 0x80 | 0x01]);

    buf.clear();
    Apdu::GroupValueResponse(false).encode(&mut buf, 0x00);
    assert_eq!(buf, vec![0x00, 0x40]);

    buf.clear();
    Apdu::GroupValueResponse(true).encode(&mut buf, 0x44);
    assert_eq!(buf, vec![0x44, 0x41]);
}

#[test]
fn a_longer_value_follows_the_service_code() {
    let mut buf = vec![];
    Apdu::GroupValueWrite(vec![0x03u8, 0xD4]).encode(&mut buf, 0x00);
    assert_eq!(buf, vec![0x00, 0x80, 0x03, 0xD4]);

    buf.clear();
    Apdu::GroupValueResponse(vec![0x7Fu8]).encode(&mut buf, 0x00);
    assert_eq!(buf, vec![0x00, 0x40, 0x7F]);

    buf.clear();
    Apdu::<()>::GroupValueRead.encode(&mut buf, 0x00);
    assert_eq!(buf, vec![0x00, 0x00]);
}

#[test]
fn apdu_lengths_follow_the_bits_of_the_value() {
    assert_eq!(Apdu::<()>::GroupValueRead.length(), 1);
    assert_eq!(Apdu::GroupValueWrite(true).length(), 1);
    assert_eq!(Apdu::GroupValueWrite(vec![1u8]).length(), 2);
    assert_eq!(Apdu::GroupValueWrite(vec![1u8, 2]).length(), 3);
    assert_eq!(Apdu::GroupValueResponse(vec![0u8; 14]).length(), 15);
    assert_eq!(Apdu::<()>::Absent.length(), 0);
    assert_eq!(Apdu::<()>::IndividualAddressRead.length(), 0);
}

#[test]
fn apdu_decodes_by_its_service_code() {
    assert_eq!(Apdu::<Vec<u8>>::decode(&[0x00, 0x00]), Ok(Apdu::Absent));
    assert_eq!(Apdu::<Vec<u8>>::decode(&[0x01, 0x00, 0x00]), Ok(Apdu::GroupValueRead));
    assert_eq!(
        Apdu::<Vec<u8>>::decode(&[0x01, 0x00, 0x81]),
        Ok(Apdu::GroupValueWrite(vec![0x01]))
    );
    assert_eq!(
        Apdu::<Vec<u8>>::decode(&[0x01, 0x00, 0x7F]),
        Ok(Apdu::GroupValueResponse(vec![0x3F]))
    );
    assert_eq!(
        Apdu::<Vec<u8>>::decode(&[0x03, 0x00, 0x80, 0x03, 0xD4]),
        Ok(Apdu::GroupValueWrite(vec![0x03, 0xD4]))
    );
    assert_eq!(Apdu::<bool>::decode(&[0x01, 0x00, 0x81]), Ok(Apdu::GroupValueWrite(true)));
    assert_eq!(Apdu::<bool>::decode(&[0x01, 0x00, 0x80]), Ok(Apdu::GroupValueWrite(false)));
    assert_eq!(Apdu::<()>::decode(&[0x01, 0x00, 0x80]), Ok(Apdu::GroupValueWrite(())));
}

#[test]
fn apdu_decode_names_what_it_cannot_read() {
    assert_eq!(Apdu::<Vec<u8>>::decode(&[]), Err(KnxNetIpError::MessageTooShort(0)));
    assert_eq!(Apdu::<Vec<u8>>::decode(&[0x01, 0x00]), Err(KnxNetIpError::MessageTooShort(2)));
    assert_eq!(Apdu::<Vec<u8>>::decode(&[0x01, 0x00, 0xC0]), Err(KnxNetIpError::NotImplemented));
    assert_eq!(Apdu::<Vec<u8>>::decode(&[0x01, 0x01, 0x00]), Err(KnxNetIpError::NotImplemented));
    assert_eq!(Apdu::<Vec<u8>>::decode(&[0x01, 0x01, 0xC0]), Err(KnxNetIpError::NotImplemented));
    assert_eq!(Apdu::<Vec<u8>>::decode(&[0x01, 0x02, 0x00]), Err(KnxNetIpError::Unknown));
    assert_eq!(Apdu::<Vec<u8>>::decode(&[0x01, 0x03, 0xC0]), Err(KnxNetIpError::Unknown));
}

#[test]
fn telegram_round_trips_with_every_field_set() {
    let telegram = LData {
        frame_type: FrameType::Extended,
        repetition: Repetition::Repeat,
        system_broadcast: SystemBroadcast::SystemBroadcast,
        priority: Priority::Urgent,
        acknowledge: Acknowledge::Acknowledge,
        confirmation: Confirmation::Error,
        destination_address_type: AddressType::Individual,
        hop_count: 5,
        frame_format: FrameFormat::LTE2,
        source: 0xABCD,
        destination: 0x1234,
        control: true,
        numbered: true,
        seq: 9,
        data: Apdu::GroupValueResponse(vec![1u8, 2, 3]),
    };
    let mut buf = vec![];
    telegram.encode(&mut buf);
    assert_eq!(
        buf,
        vec![0x0B, 0x56, 0xAB, 0xCD, 0x12, 0x34, 0x04, 0xE4, 0x40, 0x01, 0x02, 0x03]
    );
    assert_eq!(buf.len(), telegram.length() as usize);
    let mut read = LData::<Vec<u8>>::default();
    assert_eq!(read.decode(&buf), Ok(()));
    assert_eq!(read, telegram);
}

#[test]
fn telegram_masks_hop_count_and_sequence_number() {
    let mut wide = telegram(Apdu::<()>::GroupValueRead);
    wide.hop_count = 0x0E;
    wide.seq = 0x13;
    let mut buf = vec![];
    wide.encode(&mut buf);
    assert_eq!(buf[1], 0x80 | (6 << 4));
    assert_eq!(buf[7], 3 << 2);
}

#[test]
fn telegram_decode_names_what_it_cannot_read() {
    let mut read = LData::<Vec<u8>>::default();
    assert_eq!(read.decode(&[0xBC, 0xE0, 0, 0, 0, 0, 0]), Err(KnxNetIpError::MessageTooShort(7)));
    assert_eq!(
        read.decode(&[0xBC, 0xE0, 0, 0, 0, 0x0A, 2, 0, 0x80]),
        Err(KnxNetIpError::MessageTooShort(9))
    );
    assert_eq!(
        read.decode(&[0xBC, 0xE1, 0, 0, 0, 0x0A, 1, 0, 0x00]),
        Err(KnxNetIpError::Unknown)
    );
    assert_eq!(read, LData::<Vec<u8>>::default());
}

#[test]
fn default_telegram_is_what_a_client_sends() {
    let telegram = LData::<()>::default();
    let mut buf = vec![];
    telegram.encode(&mut buf);
    assert_eq!(buf, vec![0xBC, 0xE0, 0, 0, 0, 0, 1, 0, 0]);
}

#[test]
fn additional_information_is_passed_over() {
    let bytes = [0x29, 0x02, 0x03, 0x00, 0xBC, 0xE0, 0x11, 0x01, 0x00, 0x0A, 0x01, 0x00, 0x00];
    let mut expected = telegram(Apdu::<Vec<u8>>::GroupValueRead);
    expected.source = 0x1101;
    expected.destination = 0x000A;
    assert_eq!(Message::<Vec<u8>>::decode(&bytes), Ok(Message::LDataInd(vec![], expected)));
}

#[test]
fn messages_without_a_telegram_decode_by_their_code() {
    assert_eq!(Message::<()>::decode(&[0x10]), Ok(Message::LRawReq));
    assert_eq!(Message::<()>::decode(&[0x2F]), Ok(Message::LRawCon));
    assert_eq!(Message::<()>::decode(&[0x2D]), Ok(Message::LRawInd));
    assert_eq!(Message::<()>::decode(&[0xF1]), Ok(Message::MResetReq));
    assert_eq!(Message::<()>::decode(&[0x2B]), Ok(Message::LBusmonInd));
}

#[test]
fn information_type_is_named_by_its_first_byte() {
    assert_eq!(InformationType::decode(&[0x03]), Ok(InformationType::BusmonitorStatusInfo));
    assert_eq!(InformationType::decode(&[0xFE, 0x00]), Ok(InformationType::ManufacturerSpecific));
    assert_eq!(InformationType::decode(&[0x0B]), Err(KnxNetIpError::Unknown));
    assert_eq!(InformationType::decode(&[]), Err(KnxNetIpError::MessageTooShort(0)));
    assert_eq!(InformationType::Reserved.identifier(), 0xFF);
    assert_eq!(InformationType::TimestampRelative.length(), 0);
}

#[test]
fn opaque_bytes_follow_the_inlining_rule() {
    let mut value: Vec<u8> = vec![9, 9, 9];
    assert_eq!(value.decode(&[0x80, 0x03, 0xD4]), Ok(()));
    assert_eq!(value, vec![0x03, 0xD4]);
    assert_eq!(value.decode(&[0xBF]), Ok(()));
    assert_eq!(value, vec![0x3F]);
    assert_eq!(value.decode(&[]), Ok(()));
    assert_eq!(value, Vec::<u8>::new());
    assert_eq!(vec![1u8, 2, 3].bit_len(), 24);
    assert_eq!(Vec::<u8>::new().bit_len(), 0);
}

#[test]
fn a_bit_is_the_lowest_bit_of_a_byte() {
    let mut bit = false;
    assert_eq!(bit.decode(&[0x81]), Ok(()));
    assert!(bit);
    assert_eq!(bit.decode(&[0xFE]), Ok(()));
    assert!(!bit);
    assert_eq!(bit.decode(&[]), Err(KnxNetIpError::MessageTooShort(0)));
    assert_eq!(true.bit_len(), 1);
    let mut buf = vec![7u8];
    true.encode(&mut buf);
    false.encode(&mut buf);
    ().encode(&mut buf);
    assert_eq!(buf, vec![7, 1, 0]);
    assert_eq!(().bit_len(), 0);
}

#[test]
fn a_value_without_a_bit_leaves_the_low_byte_to_the_service_code() {
    let mut buf = vec![];
    Apdu::GroupValueWrite(()).encode(&mut buf, 0x00);
    assert_eq!(buf, vec![0x00, 0x80]);
    assert_eq!(Apdu::GroupValueWrite(()).length(), 1);

    buf.clear();
    Apdu::GroupValueResponse(()).encode(&mut buf, 0x44);
    assert_eq!(buf, vec![0x44, 0x40]);

    buf.clear();
    Apdu::GroupValueWrite(Vec::<u8>::new()).encode(&mut buf, 0x00);
    assert_eq!(buf, vec![0x00, 0x80]);
    assert_eq!(Apdu::GroupValueWrite(Vec::<u8>::new()).length(), 1);

    let mut telegram = telegram(Apdu::GroupValueWrite(()));
    telegram.source = 0;
    telegram.destination = 0x000A;
    buf.clear();
    telegram.encode(&mut buf);
    assert_eq!(buf, vec![0xBC, 0xE0, 0x00, 0x00, 0x00, 0x0A, 0x01, 0x00, 0x80]);
    assert_eq!(buf.len(), telegram.length() as usize);
    let mut read = LData::<()>::default();
    assert_eq!(read.decode(&buf), Ok(()));
    assert_eq!(read, telegram);
}
