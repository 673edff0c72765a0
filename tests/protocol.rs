use mtk_uartboot::bl2::{
    go_script, next_packet_len, set_baudrate_script, version_script, FipPacket, FipPacketHeader,
    FipTransfer, PacketVerdict, FIP_MAX_PACKET_LEN,
};
use mtk_uartboot::bootrom::{
    decode_target_config, hw_code_script, hw_dict_script, jump_da64_script, jump_da_script,
    parse_hw_dict, parse_target_config, send_da_script, target_config_script,
};
use mtk_uartboot::checksum::fip_packet_checksum;
use mtk_uartboot::command::{reply_len, step_outcome, Step};
use mtk_uartboot::handshake::Handshake;
use mtk_uartboot::wire::{
    be16_bytes, be32_bytes, check_echo, check_status, parse_status, read_be16, read_be32,
    ProtocolError,
};

/// Plays a command's steps against the replies of a simulated device.
fn run(steps: &[Step], replies: &[&[u8]]) -> Result<Vec<Vec<u8>>, ProtocolError> {
    let mut fields = Vec::new();
    for (step, reply) in steps.iter().zip(replies.iter()) {
        if step_outcome(step, reply)? {
            fields.push(reply.to_vec());
        }
    }
    Ok(fields)
}

fn fold(mut x: u32) -> u16 {
    while x >> 16 != 0 {
        x = (x >> 16) + (x & 0xffff);
    }
    x as u16
}

#[test]
fn checksum_of_empty_payload_is_zero() {
    assert_eq!(fip_packet_checksum(&[]), 0);
}

#[test]
fn checksum_sums_big_endian_words() {
    assert_eq!(fip_packet_checksum(&[0x12, 0x34]), 0x1234);
    assert_eq!(fip_packet_checksum(&[0x12, 0x34, 0x01, 0x02]), 0x1336);
}

#[test]
fn checksum_pads_odd_tail_as_high_byte() {
    assert_eq!(fip_packet_checksum(&[0x12, 0x34, 0x56]), 0x6834);
    assert_eq!(fip_packet_checksum(&[0x01]), 0x0100);
}

#[test]
fn checksum_folds_carries_without_complement() {
    assert_eq!(fip_packet_checksum(&[0xff, 0xff, 0x00, 0x01]), 0x0001);
    assert_eq!(fip_packet_checksum(&[0xff, 0xff, 0xff, 0xff]), 0xffff);
    assert_eq!(fip_packet_checksum(&[0xff, 0xff]), 0xffff);
}

#[test]
fn checksum_of_split_payload_refolds() {
    let data: Vec<u8> = (0..1001u32).map(|i| (i * 37 + 11) as u8).collect();
    for cut in [0usize, 2, 10, 500, 1000] {
        let (a, b) = data.split_at(cut);
        let whole = fip_packet_checksum(&data);
        let parts = fold(fip_packet_checksum(a) as u32 + fip_packet_checksum(b) as u32);
        assert_eq!(whole, parts);
    }
}

#[test]
fn checksum_of_largest_packet() {
    let data = vec![0xffu8; FIP_MAX_PACKET_LEN];
    assert_eq!(fip_packet_checksum(&data), 0xffff);
}

#[test]
fn ramp_doubles_then_steps_then_caps() {
    let mut len = 128usize;
    let mut seen = vec![len];
    for _ in 0..45 {
        let next = next_packet_len(len);
        assert!(next >= len);
        len = next;
        seen.push(len);
    }
    assert_eq!(&seen[..9], &[128, 256, 512, 1024, 2048, 4096, 8192, 16384, 32768]);
    assert_eq!(seen[9], 33792);
    assert_eq!(seen[10], 34816);
    assert_eq!(seen[38], 63488);
    assert_eq!(seen[39], 64512);
    assert_eq!(seen[40], 64512);
    assert_eq!(seen[45], 64512);
}

#[test]
fn bootrom_handshake_with_complementing_device() {
    let mut h = Handshake::for_bootrom();
    let mut sent = Vec::new();
    let mut trips = 0;
    while !h.is_complete() {
        let b = h.probe_byte();
        sent.push(b);
        h.on_reply(Some(!b));
        trips += 1;
    }
    assert_eq!(trips, 4);
    assert_eq!(sent, vec![0xa0, 0x0a, 0x50, 0x05]);
}

#[test]
fn bootrom_handshake_retries_same_byte() {
    let mut h = Handshake::for_bootrom();
    h.on_reply(Some(0x5f));
    assert_eq!(h.probe_byte(), 0x0a);
    h.on_reply(None);
    assert_eq!(h.probe_byte(), 0x0a);
    h.on_reply(Some(0x0a));
    assert_eq!(h.probe_byte(), 0x0a);
    h.on_reply(Some(0xf5));
    assert_eq!(h.probe_byte(), 0x50);
    assert!(!h.is_complete());
}

#[test]
fn bl2_handshake_expects_tfa() {
    let mut h = Handshake::for_bl2();
    // a device that echoes the probe is not a BL2 loader
    h.on_reply(Some(b'm'));
    assert_eq!(h.probe_byte(), b'm');
    let answer = b"TF-A";
    let mut sent = Vec::new();
    while !h.is_complete() {
        let b = h.probe_byte();
        h.on_reply(Some(answer[sent.len()]));
        sent.push(b);
    }
    assert_eq!(sent, b"mudl".to_vec());
}

#[test]
fn echo_accepts_identical_bytes() {
    assert_eq!(check_echo(&[], &[]), Ok(()));
    assert_eq!(check_echo(&[1, 2, 3, 4, 5], &[1, 2, 3, 4, 5]), Ok(()));
}

#[test]
fn echo_rejects_corrupted_byte() {
    assert_eq!(check_echo(&[1, 2, 3, 4, 5], &[1, 2, 7, 4, 5]), Err(ProtocolError::EchoMismatch));
    assert_eq!(check_echo(&[1, 2, 3], &[1, 2]), Err(ProtocolError::EchoMismatch));
}

#[test]
fn fields_are_big_endian() {
    assert_eq!(be16_bytes(0x1234), vec![0x12, 0x34]);
    assert_eq!(be32_bytes(0x0020_1000), vec![0x00, 0x20, 0x10, 0x00]);
    assert_eq!(read_be16(&[0x12, 0x34]), Ok(0x1234));
    assert_eq!(read_be32(&[0xde, 0xad, 0xbe, 0xef]), Ok(0xdead_beef));
}

#[test]
fn short_fields_are_fatal() {
    assert_eq!(read_be16(&[0x12]), Err(ProtocolError::ShortRead));
    assert_eq!(read_be32(&[0x12, 0x34, 0x56]), Err(ProtocolError::ShortRead));
    assert_eq!(read_be32(&[]), Err(ProtocolError::ShortRead));
}

#[test]
fn nonzero_status_is_fatal() {
    assert_eq!(check_status(0), Ok(()));
    assert_eq!(check_status(0x1d0c), Err(ProtocolError::DeviceStatus(0x1d0c)));
    assert_eq!(parse_status(&[0, 0]), Ok(()));
    assert_eq!(parse_status(&[0x1d, 0x0c]), Err(ProtocolError::DeviceStatus(0x1d0c)));
    assert_eq!(parse_status(&[0]), Err(ProtocolError::ShortRead));
}

#[test]
fn target_config_all_clear() {
    let fields = run(&target_config_script(), &[&[0xd8], &[0, 0, 0, 0], &[0, 0]]).unwrap();
    assert_eq!(parse_target_config(&fields[0]), Ok((false, false, false)));
}

#[test]
fn target_config_secure_boot() {
    let fields = run(&target_config_script(), &[&[0xd8], &[0, 0, 0, 1], &[0, 0]]).unwrap();
    assert_eq!(parse_target_config(&fields[0]), Ok((true, false, false)));
}

#[test]
fn target_config_other_flags() {
    assert_eq!(decode_target_config(6), (false, true, true));
    assert_eq!(decode_target_config(0xffff_fff8), (false, false, false));
    assert_eq!(
        run(&target_config_script(), &[&[0xd8], &[0, 0, 0, 1], &[0, 3]]),
        Err(ProtocolError::DeviceStatus(3))
    );
    assert_eq!(
        run(&target_config_script(), &[&[0xd8], &[0, 0, 1], &[0, 0]]),
        Err(ProtocolError::ShortRead)
    );
    assert_eq!(parse_target_config(&[0, 0, 1]), Err(ProtocolError::ShortRead));
}

#[test]
fn hw_code_and_dict() {
    let fields = run(&hw_code_script(), &[&[0xfd], &[0x07, 0x66], &[0, 0]]).unwrap();
    assert_eq!(read_be16(&fields[0]), Ok(0x0766));
    assert_eq!(
        run(&hw_code_script(), &[&[0xfd], &[0x07, 0x66], &[0, 1]]),
        Err(ProtocolError::DeviceStatus(1))
    );
    assert_eq!(
        run(&hw_code_script(), &[&[0xfe], &[0x07, 0x66], &[0, 0]]),
        Err(ProtocolError::EchoMismatch)
    );
    let fields =
        run(&hw_dict_script(), &[&[0xfc], &[0x8a, 0x00], &[0xca, 0x00], &[0, 1], &[0, 0]]).unwrap();
    assert_eq!(parse_hw_dict(&fields[0], &fields[1], &fields[2]), Ok((0x8a00, 0xca00, 1)));
    assert_eq!(parse_hw_dict(&[0x8a], &[0xca, 0x00], &[0, 1]), Err(ProtocolError::ShortRead));
}

#[test]
fn step_reply_lengths() {
    assert_eq!(reply_len(&Step::Echo(vec![1, 2, 3])), 3);
    assert_eq!(reply_len(&Step::Field(4)), 4);
    assert_eq!(reply_len(&Step::Status), 2);
    assert_eq!(reply_len(&Step::Payload), 0);
    assert_eq!(step_outcome(&Step::Payload, &[]), Ok(false));
    assert_eq!(step_outcome(&Step::Field(2), &[1, 2]), Ok(true));
    assert_eq!(step_outcome(&Step::Echo(vec![1, 2]), &[1, 3]), Err(ProtocolError::EchoMismatch));
}

#[test]
fn send_da_script_carries_unsigned_length() {
    let s = send_da_script(0x0020_1000, 0x100, 0x1000).unwrap();
    assert_eq!(
        s,
        vec![
            Step::Echo(vec![0xd7]),
            Step::Echo(vec![0x00, 0x20, 0x10, 0x00]),
            Step::Echo(vec![0, 0, 0x0f, 0x00]),
            Step::Echo(vec![0, 0, 0x01, 0x00]),
            Step::Status,
            Step::Payload,
            Step::Field(2),
            Step::Status,
        ]
    );
    assert_eq!(send_da_script(0, 5, 4), Err(ProtocolError::SignatureTooLong));
    assert_eq!(send_da_script(0, 0, u32::MAX as usize + 1), Err(ProtocolError::TooLarge));
}

#[test]
fn jump_scripts() {
    assert_eq!(
        jump_da_script(0x201000),
        vec![Step::Echo(vec![0xd5]), Step::Echo(vec![0x00, 0x20, 0x10, 0x00]), Step::Status]
    );
    assert_eq!(
        jump_da64_script(0x201000),
        vec![
            Step::Echo(vec![0xde]),
            Step::Echo(vec![0x00, 0x20, 0x10, 0x00]),
            Step::Echo(vec![1]),
            Step::Status,
            Step::Echo(vec![100]),
            Step::Status,
        ]
    );
}

#[test]
fn bl2_command_scripts() {
    assert_eq!(
        set_baudrate_script(921600),
        vec![Step::Echo(vec![2]), Step::Echo(vec![0x00, 0x0e, 0x10, 0x00])]
    );
    assert_eq!(version_script(), vec![Step::Echo(vec![1]), Step::Field(1)]);
    assert_eq!(go_script(), vec![Step::Echo(vec![4])]);
}

#[test]
fn fip_of_200_bytes_takes_two_packets() {
    let fip: Vec<u8> = (0..200u32).map(|i| i as u8).collect();
    let mut t = FipTransfer::new(fip.len()).unwrap();
    assert_eq!(t.opening_script(), vec![Step::Echo(vec![3]), Step::Echo(vec![0, 0, 0, 200])]);
    let mut packets = Vec::new();
    while !t.is_done() {
        let p = t.next_packet();
        let h = FipPacketHeader::new(p.index, &fip[p.start..p.end]);
        packets.push((p, h.length));
        t.on_verdict(h.verdict(p.index, h.checksum));
    }
    assert_eq!(
        packets,
        vec![
            (FipPacket { index: 0, start: 0, end: 128, last: false }, 128),
            (FipPacket { index: 1, start: 128, end: 200, last: true }, 72),
        ]
    );
}

#[test]
fn fip_packet_is_retried_unchanged() {
    let fip = vec![0x5au8; 1000];
    let mut t = FipTransfer::new(fip.len()).unwrap();
    t.on_verdict(PacketVerdict::Accepted);
    let p = t.next_packet();
    let h = FipPacketHeader::new(p.index, &fip[p.start..p.end]);
    assert_eq!(h.verdict(p.index + 1, h.checksum), PacketVerdict::WrongIndex);
    t.on_verdict(h.verdict(p.index + 1, h.checksum));
    let again = t.next_packet();
    assert_eq!(again, p);
    let h2 = FipPacketHeader::new(again.index, &fip[again.start..again.end]);
    assert_eq!(h2, h);
    assert_eq!(h2.script(), h.script());
    assert_eq!(p, FipPacket { index: 1, start: 128, end: 384, last: false });
}

#[test]
fn final_fip_packet_is_retried_until_accepted() {
    let mut t = FipTransfer::new(100).unwrap();
    let p = t.next_packet();
    assert_eq!(p, FipPacket { index: 0, start: 0, end: 100, last: true });
    t.on_verdict(PacketVerdict::WrongChecksum);
    assert!(!t.is_done());
    assert_eq!(t.next_packet(), p);
    t.on_verdict(PacketVerdict::Accepted);
    assert!(t.is_done());
}

#[test]
fn empty_fip_sends_one_empty_packet() {
    let t = FipTransfer::new(0).unwrap();
    assert_eq!(t.next_packet(), FipPacket { index: 0, start: 0, end: 0, last: true });
}

#[test]
fn oversized_fip_is_refused() {
    assert!(matches!(FipTransfer::new(u32::MAX as usize + 1), Err(ProtocolError::TooLarge)));
}

#[test]
fn packet_header_fields_and_verdicts() {
    let h = FipPacketHeader::new(7, &[0x12, 0x34, 0x56]);
    assert_eq!(h, FipPacketHeader { index: 7, length: 3, checksum: 0x6834 });
    assert_eq!(
        h.script(),
        vec![
            Step::Echo(vec![0, 0, 0, 7]),
            Step::Echo(vec![0, 3]),
            Step::Echo(vec![0x68, 0x34]),
            Step::Payload,
            Step::Field(4),
            Step::Field(2),
        ]
    );
    assert_eq!(h.verdict(7, 0x6834), PacketVerdict::Accepted);
    assert_eq!(h.verdict(7, 0x6835), PacketVerdict::WrongChecksum);
    assert_eq!(h.verdict(6, 0x6835), PacketVerdict::WrongIndex);
}
