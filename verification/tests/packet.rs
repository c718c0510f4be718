use tcp_proxy::packet::{
    decode_outbound_frame, encode_frame, packet_header, packet_info, FrameError, Ipv4Endpoint,
    MAX_PAYLOAD_LEN,
};

fn prepare_bytes(dest: Ipv4Endpoint, payload: &[u8]) -> Vec<u8> {
    let mut bytes = vec![];
    bytes.push(0x17);
    bytes.push(0x03);
    bytes.push(0x03);
    let total_length: u16 = payload.len() as u16 + 7;
    bytes.push(((total_length >> 8) & 0xff) as u8);
    bytes.push((total_length & 0xff) as u8);
    bytes.push(4);

    bytes.extend(&[dest.ip0, dest.ip1, dest.ip2, dest.ip3]);

    bytes.push(((dest.port >> 8) & 0xff) as u8);
    bytes.push((dest.port & 0xff) as u8);
    bytes.extend(payload);

    bytes
}

#[test]
fn test_packet_info() {
    let payload: [u8; 10] = [1; 10];
    let exp_dest = Ipv4Endpoint { ip0: 127, ip1: 0, ip2: 0, ip3: 1, port: 8080 };

    let bytes = prepare_bytes(exp_dest, &payload);

    assert_eq!(packet_info(&bytes), (exp_dest, 10))
}

#[test]
fn test_packet_header() {
    let data: [u8; 10] = [5; 10];
    let mut header: [u8; 12] = [0; 12];
    let dest_addr = Ipv4Endpoint { ip0: 192, ip1: 168, ip2: 1, ip3: 1, port: 9993 };

    let exp_bytes = prepare_bytes(dest_addr, &data)[0..12].to_vec();
    packet_header(&dest_addr, data.len(), &mut header);

    assert_eq!(header.to_vec(), exp_bytes);
}

#[test]
fn encode_matches_client_layout() {
    let dest = Ipv4Endpoint { ip0: 10, ip1: 0, ip2: 0, ip3: 7, port: 4444 };
    let payload = [9, 8, 7, 6];
    assert_eq!(encode_frame(&dest, &payload), prepare_bytes(dest, &payload));
}

#[test]
fn frame_round_trip() {
    // encoding an address, port and payload and decoding it back recovers
    // the destination, the payload length and the payload bytes
    let cases: &[(Ipv4Endpoint, &[u8])] = &[
        (Ipv4Endpoint { ip0: 127, ip1: 0, ip2: 0, ip3: 1, port: 4444 }, &[1, 2, 3]),
        (Ipv4Endpoint { ip0: 0, ip1: 0, ip2: 0, ip3: 0, port: 0 }, &[]),
        (Ipv4Endpoint { ip0: 255, ip1: 255, ip2: 255, ip3: 255, port: 65535 }, &[0; 300]),
        (Ipv4Endpoint { ip0: 192, ip1: 168, ip2: 1, ip3: 1, port: 9993 }, &[0xAB; 1500]),
    ];
    for (dest, payload) in cases {
        let frame = encode_frame(dest, payload);
        assert_eq!(decode_outbound_frame(&frame), Ok((*dest, payload.len())));
        assert_eq!(&frame[12..], *payload);
    }
}

#[test]
fn round_trip_at_largest_payload() {
    let dest = Ipv4Endpoint { ip0: 1, ip1: 2, ip2: 3, ip3: 4, port: 5 };
    let payload = vec![0x5A; MAX_PAYLOAD_LEN];
    let frame = encode_frame(&dest, &payload);
    // the length field is at its largest value, 0xFFFF
    assert_eq!(frame[3], 0xFF);
    assert_eq!(frame[4], 0xFF);
    assert_eq!(decode_outbound_frame(&frame), Ok((dest, MAX_PAYLOAD_LEN)));
}

#[test]
fn decode_rejects_short_buffer() {
    assert_eq!(decode_outbound_frame(&[]), Err(FrameError::BufferTooSmall));
    assert_eq!(
        decode_outbound_frame(&[0x17, 0x03, 0x03, 0, 8, 4, 127, 0, 0, 1, 0x11]),
        Err(FrameError::BufferTooSmall)
    );
}

#[test]
fn decode_rejects_truncated_payload() {
    let dest = Ipv4Endpoint { ip0: 127, ip1: 0, ip2: 0, ip3: 1, port: 4444 };
    let frame = prepare_bytes(dest, &[1, 2, 3, 4, 5]);
    // the header declares 5 payload bytes; hand over only 3 of them
    assert_eq!(
        decode_outbound_frame(&frame[..15]),
        Err(FrameError::BufferTooSmall)
    );
    // the whole frame decodes
    assert_eq!(decode_outbound_frame(&frame), Ok((dest, 5)));
}

#[test]
fn decode_rejects_length_field_below_header_tail() {
    // a length field of 6 cannot even cover version, address and port
    let bytes = [0x17, 0x03, 0x03, 0, 6, 4, 127, 0, 0, 1, 0x11, 0x5C];
    assert_eq!(decode_outbound_frame(&bytes), Err(FrameError::InvalidLength));
}

#[test]
fn packet_info_reads_known_header() {
    // the benchmark client's pre-generated header: 127.0.0.1:4444, length 10
    let packet: [u8; 15] = [
        0x17, 0x03, 0x03, 0, 0x0a, 0x04, 127, 0, 0, 1, 0x11, 0x5C, 0, 0, 0,
    ];
    let (dest, len) = packet_info(&packet);
    assert_eq!(dest, Ipv4Endpoint { ip0: 127, ip1: 0, ip2: 0, ip3: 1, port: 4444 });
    assert_eq!(len, 3);
}
