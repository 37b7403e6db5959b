use input_middleware::kmbox_net::cmd::{CMD, CMD_CONNECT, CMD_MONITOR, CMD_MOUSE_MOVE};
use input_middleware::kmbox_net::structs::{
    ClientTx, CmdData, CmdHead, MonitorData, MONITOR_SIZE, PACKET_SIZE,
};
use input_middleware::kmbox_net::{parse_identity, to_hex};

fn sample_packet(seed: u32) -> ClientTx {
    let mut data = CmdData::zeroed();
    let mut x = seed;
    for i in 0..1024 {
        x = x.wrapping_mul(1_103_515_245).wrapping_add(12345);
        data.u8buff[i] = (x >> 16) as u8;
    }
    ClientTx {
        head: CmdHead {
            mac: seed ^ 0xdead_beef,
            rand: seed.wrapping_mul(31),
            indexpts: seed.wrapping_add(7),
            cmd: seed.rotate_left(5),
        },
        data,
    }
}

#[test]
fn identity_of_known_identifier() {
    assert_eq!(to_hex("0a1B2c3D", 4), 0x0a1b_2c3d);
    assert_eq!(to_hex("FFFFFFFF", 4), 0xffff_ffff);
    assert_eq!(to_hex("12345678", 4), 0x1234_5678);
}

#[test]
fn identity_is_the_same_on_every_call() {
    let a = to_hex("9aB34c01", 4);
    let b = to_hex("9aB34c01", 4);
    assert_eq!(a, b);
    assert_eq!(parse_identity("9aB34c01"), Some(a));
}

#[test]
fn identity_reads_only_the_pairs_asked_for() {
    assert_eq!(to_hex("ab", 1), 0xab00_0000);
    assert_eq!(to_hex("", 0), 0);
}

#[test]
fn identity_rejects_malformed_identifiers() {
    assert_eq!(parse_identity("XXXXXXXX"), None);
    assert_eq!(parse_identity("1234567"), None);
    assert_eq!(parse_identity("1234567g"), None);
    assert_eq!(parse_identity("deadbeef0102"), Some(0xdead_beef));
}

#[test]
fn encode_lays_out_header_little_endian() {
    let p = ClientTx {
        head: CmdHead { mac: 0x0403_0201, rand: 0x0807_0605, indexpts: 9, cmd: CMD_CONNECT },
        data: CmdData::zeroed(),
    };
    let b = p.encode();
    assert_eq!(b.len(), PACKET_SIZE);
    assert_eq!(&b[0..8], &[1, 2, 3, 4, 5, 6, 7, 8]);
    assert_eq!(&b[8..12], &[9, 0, 0, 0]);
    assert_eq!(&b[12..16], &CMD_CONNECT.to_le_bytes());
    assert!(b[16..].iter().all(|&x| x == 0));
}

#[test]
fn decode_of_encode_is_identity() {
    for seed in [0u32, 1, 0xffff_ffff, 0x1234_5678, 42] {
        let p = sample_packet(seed);
        let q = ClientTx::decode(&p.encode()).expect("whole packet");
        assert_eq!(q.head, p.head);
        assert_eq!(q.data.u8buff, p.data.u8buff);
        assert_eq!(q.encode(), p.encode());
    }
}

#[test]
fn decode_rejects_wrong_length() {
    let b = sample_packet(3).encode();
    assert!(ClientTx::decode(&b[..PACKET_SIZE - 1]).is_none());
    let mut longer = b.clone();
    longer.push(0);
    assert!(ClientTx::decode(&longer).is_none());
    assert!(ClientTx::decode(&[]).is_none());
}

#[test]
fn mouse_report_reads_payload_words() {
    let mut data = CmdData::zeroed();
    data.put_i32(0, 1);
    data.put_i32(4, -3);
    data.put_i32(8, 70000);
    data.put_i32(12, i32::MIN);
    data.put_i32(16 + 4 * 9, 77);
    let m = data.get_cmd_mouse();
    assert_eq!((m.button, m.x, m.y, m.wheel), (1, -3, 70000, i32::MIN));
    assert_eq!(m.point[9], 77);
    assert_eq!(m.point[0], 0);
    assert_eq!(&data.u8buff[4..8], &(-3i32).to_le_bytes());
}

#[test]
fn keyboard_report_reads_payload_bytes() {
    let mut data = CmdData::zeroed();
    data.put_u8(0, 0x02);
    data.put_u8(2, 4);
    data.put_u8(11, 5);
    let k = data.get_cmd_keyboard();
    assert_eq!(k.ctrl, 0x02);
    assert_eq!(k.resvel, 0);
    assert_eq!(k.button, [4, 0, 0, 0, 0, 0, 0, 0, 0, 5]);
}

#[test]
fn monitor_datagram_decodes() {
    let mut b = vec![0u8; MONITOR_SIZE];
    b[0] = 1;
    b[4..8].copy_from_slice(&1i32.to_le_bytes());
    b[8..12].copy_from_slice(&(-5i32).to_le_bytes());
    b[12..16].copy_from_slice(&6i32.to_le_bytes());
    b[16..20].copy_from_slice(&(-1i32).to_le_bytes());
    b[20] = 2;
    b[21] = 0x10;
    b[22] = 4;
    b[31] = 9;
    let m = MonitorData::decode(&b).expect("whole datagram");
    assert_eq!(m.mouse.report_id, 1);
    assert_eq!((m.mouse.button, m.mouse.x, m.mouse.y, m.mouse.wheel), (1, -5, 6, -1));
    assert_eq!(m.keyboard.report_id, 2);
    assert_eq!(m.keyboard.buttons, 0x10);
    assert_eq!(m.keyboard.data, [4, 0, 0, 0, 0, 0, 0, 0, 0, 9]);
    assert!(MonitorData::decode(&b[..31]).is_none());
}

#[test]
fn registry_is_bidirectional() {
    let all = [
        CMD::CONNECT,
        CMD::MOUSE_MOVE,
        CMD::MOUSE_LEFT,
        CMD::MOUSE_MIDDLE,
        CMD::MOUSE_RIGHT,
        CMD::MOUSE_WHEEL,
        CMD::MOUSE_AUTOMOVE,
        CMD::KEYBOARD_ALL,
        CMD::REBOOT,
        CMD::BAZER_MOVE,
        CMD::MONITOR,
        CMD::DEBUG,
        CMD::MASK_MOUSE,
        CMD::UNMASK_ALL,
        CMD::SETCONFIG,
        CMD::SHOWPIC,
    ];
    for c in all {
        assert_eq!(CMD::from_opcode(c.code()), Some(c));
        assert_eq!(u32::from(c), c.code());
    }
    assert_eq!(CMD::MOUSE_MOVE.code(), CMD_MOUSE_MOVE);
    assert_eq!(CMD::MONITOR.code(), CMD_MONITOR);
    assert_eq!(CMD::from_opcode(0), None);
    assert_eq!(CMD::from_known(CMD_MOUSE_MOVE), CMD::MOUSE_MOVE);
    assert_eq!(CMD::from_known(CMD_MONITOR), CMD::MONITOR);
    assert_eq!(CMD::MOUSE_MOVE.name(), "MOUSE_MOVE");
    assert_eq!(CMD::SHOWPIC.name(), "SHOWPIC");
    assert!(CMD::REBOOT.is_sendable());
    assert!(!CMD::DEBUG.is_sendable());
}
