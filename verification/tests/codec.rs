use artnet_protocol::ArtCommand;
use artnet_protocol::BigEndianLength;
use artnet_protocol::Error;
use artnet_protocol::Output;
use artnet_protocol::PaddedData;
use artnet_protocol::PortAddress;
use artnet_protocol::Timecode;

#[test]
fn create_single_dmx_value_art_dmx_packet() {
    let command = ArtCommand::Output(Output {
        data: vec![255].into(), // The data we're sending to the node
        ..Output::default()
    });
    let bytes = command.into_buffer().unwrap();
    let comparison = vec![
        65, 114, 116, 45, 78, 101, 116, 0, 0, 80, 0, 14, 0, 0, 1, 0, 0, 2, 255, 0,
    ]; //is padded with zero to even length of two
    assert_eq!(bytes, comparison)
}

#[test]
fn create_512_dmx_values_art_dmx_packet() {
    let command = ArtCommand::Output(Output {
        data: vec![128; 512].into(), // The data we're sending to the node
        ..Output::default()
    });
    let bytes = command.into_buffer().unwrap();
    let comparison = vec![
        vec![
            65, 114, 116, 45, 78, 101, 116, 0, 0, 80, 0, 14, 0, 0, 1, 0, 2, 0,
        ],
        vec![128; 512],
    ]
    .concat(); //is padded with zero to even length of two
    assert_eq!(bytes, comparison)
}

#[test]
fn test_invalid_length() {
    let command = ArtCommand::Output(Output {
        data: vec![0xff; 512].into(),
        ..Output::default()
    });
    let buffer = command.into_buffer().unwrap();
    // length needs to be encoded in big endian
    assert_eq!(&buffer[0x10..=0x11], &[2, 0]);
    // packets need to be an even number
    let command = ArtCommand::Output(Output {
        data: vec![0xff].into(),
        ..Output::default()
    });
    // Initially it will be 1
    let data = match &command {
        ArtCommand::Output(output) => &output.data,
        _ => unreachable!(),
    };
    assert_eq!(data.len(), 1);
    // But the padded length is 2
    assert_eq!(data.len_rounded_up(), 2);
    let buffer = command.into_buffer().unwrap();
    // The data written is 2 bytes
    assert_eq!(&buffer[0x10..=0x11], &[0, 2]);
    // packets need to be at least 2 bytes
    let command = ArtCommand::Output(Output {
        data: vec![].into(),
        ..Output::default()
    });
    assert!(command.into_buffer().is_err());
    // packets need to be at most 512 bytes
    let command = ArtCommand::Output(Output {
        data: vec![0xff; 513].into(),
        ..Output::default()
    });
    assert!(command.into_buffer().is_err());
}

#[test]
fn protver_below_14() {
    // Because the protocol is guaranteed to be backwards-compatible,
    // we should be able to parse versions below 14,
    // even though these should never be seen in the wild
    let packet = &vec![
        65, 114, 116, 45, 78, 101, 116, 0, 0, 80, 0, 0, 0, 0, 1, 0, 0, 2, 255, 255,
    ];
    let command = ArtCommand::from_buffer(packet).unwrap();
    if let ArtCommand::Output(output) = command {
        assert_eq!(output.version, [0, 0]);
        assert_eq!(output.sequence, 0);
        assert_eq!(output.physical, 0);
        assert_eq!(output.port_address, 1.into());
        assert_eq!(output.length.parsed_length, Some(2));
        assert_eq!(output.data.inner, vec![255, 255]);
    }
}

#[test]
fn invalid_port_address() {
    // Here the port address is 32_768
    // Any port address over 32_767 should fail
    assert!(ArtCommand::from_buffer(
        &vec![
            vec![65, 114, 116, 45, 78, 101, 116, 0, 0, 80, 0, 14, 0, 0,],
            32_768u16.to_le_bytes().to_vec(),
            vec![0, 2, 255, 255,],
        ]
        .concat()
    )
    .is_err());
}

#[test]
fn odd_payload_gets_one_zero_byte_and_even_length_field() {
    let command = ArtCommand::Output(Output {
        data: vec![10, 20, 30].into(),
        ..Output::default()
    });
    let bytes = command.into_buffer().unwrap();
    // raw length 3 is rounded up to 4 in the length field
    assert_eq!(&bytes[16..=17], &[0, 4]);
    // all three bytes kept, one zero appended, nothing else
    assert_eq!(&bytes[18..], &[10, 20, 30, 0]);
}

#[test]
fn even_payload_is_not_padded() {
    let command = ArtCommand::Output(Output {
        data: vec![7, 8].into(),
        ..Output::default()
    });
    let bytes = command.into_buffer().unwrap();
    assert_eq!(&bytes[16..=17], &[0, 2]);
    assert_eq!(&bytes[18..], &[7, 8]);
}

#[test]
fn round_trip_even_payload_reproduces_bytes() {
    let packet = vec![
        65, 114, 116, 45, 78, 101, 116, 0, 0, 80, 0, 14, 9, 3, 5, 0, 0, 4, 1, 2, 3, 4,
    ];
    let command = ArtCommand::from_buffer(&packet).unwrap();
    let bytes = command.into_buffer().unwrap();
    assert_eq!(bytes, packet);
}

#[test]
fn round_trip_odd_payload_appends_one_zero() {
    let packet = vec![
        65, 114, 116, 45, 78, 101, 116, 0, 0, 80, 0, 14, 0, 0, 1, 0, 0, 4, 1, 2, 3,
    ];
    let command = ArtCommand::from_buffer(&packet).unwrap();
    let bytes = command.into_buffer().unwrap();
    let mut expected = packet.clone();
    expected.push(0);
    assert_eq!(bytes, expected);
}

#[test]
fn empty_payload_error_carries_range() {
    let command = ArtCommand::Output(Output {
        data: vec![].into(),
        ..Output::default()
    });
    match command.into_buffer() {
        Err(Error::PayloadSizeInvalid {
            message,
            min_allowed,
            max_allowed,
        }) => {
            assert_eq!(message, Vec::<u8>::new());
            assert_eq!(min_allowed, 2);
            assert_eq!(max_allowed, 512);
        }
        other => panic!("expected a payload size error, got {:?}", other),
    }
}

#[test]
fn oversized_payload_error_carries_offending_bytes() {
    let command = ArtCommand::Output(Output {
        data: vec![9; 513].into(),
        ..Output::default()
    });
    match command.into_buffer() {
        Err(Error::PayloadSizeInvalid { message, .. }) => {
            assert_eq!(message, vec![9; 513]);
        }
        other => panic!("expected a payload size error, got {:?}", other),
    }
}

#[test]
fn signature_mismatch_is_reported() {
    let packet = vec![
        66, 114, 116, 45, 78, 101, 116, 0, 0, 80, 0, 14, 0, 0, 1, 0, 0, 2, 255, 255,
    ];
    assert!(matches!(
        ArtCommand::from_buffer(&packet),
        Err(Error::SignatureMismatch)
    ));
}

#[test]
fn short_datagram_is_end_of_input() {
    let packet = vec![65, 114, 116, 45];
    assert!(matches!(
        ArtCommand::from_buffer(&packet),
        Err(Error::EndOfInput)
    ));
}

#[test]
fn unknown_opcode_is_unsupported_operation() {
    let packet = vec![65, 114, 116, 45, 78, 101, 116, 0, 1, 80, 0, 14, 0, 0, 1, 0, 0, 2];
    match ArtCommand::from_buffer(&packet) {
        Err(Error::UnsupportedOperation(op)) => assert_eq!(op, 0x5001),
        other => panic!("expected an unsupported operation error, got {:?}", other),
    }
}

#[test]
fn address_out_of_range_carries_value() {
    let packet = vec![
        65, 114, 116, 45, 78, 101, 116, 0, 0, 80, 0, 14, 0, 0, 0, 128, 0, 2, 255, 255,
    ];
    match ArtCommand::from_buffer(&packet) {
        Err(Error::AddressOutOfRange(value)) => assert_eq!(value, 32768),
        other => panic!("expected an address error, got {:?}", other),
    }
}

#[test]
fn largest_valid_port_address_parses() {
    let packet = vec![
        65, 114, 116, 45, 78, 101, 116, 0, 0, 80, 0, 14, 0, 0, 255, 127, 0, 2, 255, 255,
    ];
    let command = ArtCommand::from_buffer(&packet).unwrap();
    match command {
        ArtCommand::Output(output) => assert_eq!(output.port_address, PortAddress { value: 32767 }),
        other => panic!("expected an output command, got {:?}", other),
    }
}

#[test]
fn timecode_serializes_all_fields_in_order() {
    let command = ArtCommand::Timecode(Timecode {
        stream_id: 1,
        frames: 24,
        seconds: 58,
        minutes: 37,
        hours: 11,
        key_type: 3,
        ..Timecode::default()
    });
    let bytes = command.into_buffer().unwrap();
    let comparison = vec![
        65, 114, 116, 45, 78, 101, 116, 0, 0, 151, 0, 14, 0, 1, 24, 58, 37, 11, 3,
    ];
    assert_eq!(bytes, comparison);
}

#[test]
fn timecode_round_trip_reproduces_bytes() {
    let packet = vec![
        65, 114, 116, 45, 78, 101, 116, 0, 0, 151, 0, 14, 0, 2, 12, 34, 56, 7, 1,
    ];
    let command = ArtCommand::from_buffer(&packet).unwrap();
    match &command {
        ArtCommand::Timecode(timecode) => {
            assert_eq!(timecode.stream_id, 2);
            assert_eq!(timecode.frames, 12);
        }
        other => panic!("expected a timecode command, got {:?}", other),
    }
    let bytes = command.into_buffer().unwrap();
    assert_eq!(bytes, packet);
}

#[test]
fn parsed_command_equals_fresh_one_for_testing() {
    let packet = vec![
        65, 114, 116, 45, 78, 101, 116, 0, 0, 80, 0, 14, 0, 0, 1, 0, 0, 2, 255, 0,
    ];
    let parsed = match ArtCommand::from_buffer(&packet).unwrap() {
        ArtCommand::Output(output) => output,
        other => panic!("expected an output command, got {:?}", other),
    };
    let fresh = Output {
        data: vec![255, 0].into(),
        ..Output::default()
    };
    // The parsed length field holds a value, the fresh one does not; the
    // relaxed equality treats them as equal anyway.
    assert!(parsed.length.parsed_length.is_some());
    assert!(fresh.length.parsed_length.is_none());
    assert!(parsed.is_equal(&fresh));
    let other = Output {
        data: vec![255, 1].into(),
        ..Output::default()
    };
    assert!(!parsed.is_equal(&other));
}

#[test]
fn length_field_relaxed_equality() {
    let unparsed = BigEndianLength::default();
    let parsed = BigEndianLength {
        parsed_length: Some(40),
    };
    let parsed_other = BigEndianLength {
        parsed_length: Some(41),
    };
    assert!(unparsed.is_equal(&parsed));
    assert!(parsed.is_equal(&unparsed));
    assert!(parsed.is_equal(&parsed));
    assert!(!parsed.is_equal(&parsed_other));
    assert_eq!(parsed.value_or_zero(), 40);
    assert_eq!(unparsed.value_or_zero(), 0);
}

#[test]
fn padded_data_lengths() {
    let data = PaddedData::from(vec![1, 2, 3]);
    assert_eq!(data.len(), 3);
    assert_eq!(data.len_rounded_up(), 4);
    let even = PaddedData::from(vec![1, 2, 3, 4]);
    assert_eq!(even.len(), 4);
    assert_eq!(even.len_rounded_up(), 4);
    assert!(even.is_equal(&PaddedData::get_test_value()));
    assert!(!data.is_equal(&even));
}
