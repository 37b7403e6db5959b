use input_middleware::button_state::{ButtonState, MwheelState};
use input_middleware::errors::{ConnectionFailure, SendFailure};
use input_middleware::keyboardkeys::KeyboardKey;
use input_middleware::kmbox_net::cmd::{CMD, CMD_CONNECT};
use input_middleware::kmbox_net::errors::KMBoxNetConnectionError;
use input_middleware::kmbox_net::session::Session;
use input_middleware::kmbox_net::structs::{ClientTx, PACKET_SIZE};
use input_middleware::{DeviceAction, DeviceOperation};

fn connected() -> Session {
    let request = Session::connect_request(0x1122_3344, 0xabcd);
    let reply = request.encode();
    Session::establish(request, &reply).ok().expect("matching reply")
}

#[test]
fn connect_request_is_the_initial_template() {
    let p = Session::connect_request(0x1234_5678, 99);
    assert_eq!(p.head.mac, 0x1234_5678);
    assert_eq!(p.head.rand, 99);
    assert_eq!(p.head.indexpts, 0);
    assert_eq!(p.head.cmd, CMD_CONNECT);
    assert!(p.data.u8buff.iter().all(|&b| b == 0));
}

#[test]
fn prepare_connect_derives_identity() {
    let p = Session::prepare_connect("0a1B2c3D").ok().expect("valid identifier");
    assert_eq!(p.head.mac, 0x0a1b_2c3d);
    assert_eq!(p.head.indexpts, 0);
    assert_eq!(p.head.cmd, CMD_CONNECT);
    let e = Session::prepare_connect("XXXXXXXX").err().expect("malformed identifier");
    assert!(matches!(e, KMBoxNetConnectionError(ConnectionFailure::InvalidIdentifier)));
}

#[test]
fn matching_reply_establishes_session() {
    let request = Session::connect_request(7, 8);
    let mut reply = request;
    reply.head.rand = 12345;
    reply.data.u8buff[0] = 1;
    let s = Session::establish(request, &reply.encode()).ok().expect("matching reply");
    assert_eq!(s.outbound().encode(), request.encode());
    assert_eq!(s.reply().encode(), reply.encode());
    assert_eq!(s.sequence(), 0);
}

#[test]
fn reply_with_other_sequence_is_rejected() {
    let request = Session::connect_request(7, 8);
    let mut reply = request;
    reply.head.indexpts = 1;
    let e = Session::establish(request, &reply.encode()).err().expect("mismatch");
    match e.0 {
        ConnectionFailure::ReplyMismatch { sent_sequence, sent_opcode, reply_sequence, reply_opcode } => {
            assert_eq!((sent_sequence, reply_sequence), (0, 1));
            assert_eq!((sent_opcode, reply_opcode), (CMD_CONNECT, CMD_CONNECT));
        }
        other => panic!("unexpected failure {:?}", other),
    }
}

#[test]
fn reply_with_other_opcode_is_rejected() {
    let request = Session::connect_request(7, 8);
    let mut reply = request;
    reply.head.cmd = CMD::REBOOT.code();
    let e = Session::establish(request, &reply.encode()).err().expect("mismatch");
    assert!(matches!(e.0, ConnectionFailure::ReplyMismatch { .. }));
}

#[test]
fn short_reply_is_rejected() {
    let request = Session::connect_request(7, 8);
    let bytes = request.encode();
    let e = Session::establish(request, &bytes[..20]).err().expect("short");
    assert!(matches!(e.0, ConnectionFailure::MalformedReply { length: 20 }));
}

#[test]
fn consecutive_commands_have_consecutive_sequences() {
    let mut s = connected();
    let first = s.sequence();
    for k in 1..=20u32 {
        let frame = s
            .perform_with_nonce(DeviceAction::MouseMove(1, 1), k)
            .ok()
            .expect("supported");
        let sent = ClientTx::decode(&frame).expect("whole packet");
        assert_eq!(sent.head.indexpts, first + k);
        assert_eq!(sent.head.rand, k);
        assert_eq!(sent.head.mac, 0x1122_3344);
    }
    s.reboot_with_nonce(0);
    assert_eq!(s.sequence(), first + 21);
}

#[test]
fn mouse_move_sets_only_motion_fields() {
    let mut s = connected();
    s.perform_with_nonce(DeviceAction::MouseWheel(MwheelState::Up(2)), 1).ok().unwrap();
    s.perform_with_nonce(DeviceAction::MouseLeftClick(ButtonState::Pressed), 2).ok().unwrap();
    let before = s.outbound().data.get_cmd_mouse();
    let frame = s.perform_with_nonce(DeviceAction::MouseMove(5, -3), 3).ok().unwrap();
    let sent = ClientTx::decode(&frame).expect("whole packet");
    let m = sent.data.get_cmd_mouse();
    assert_eq!((m.x, m.y), (5, -3));
    assert_eq!((m.button, m.wheel, m.point), (before.button, before.wheel, before.point));
    assert_eq!((m.button, m.wheel), (1, 2));
    assert_eq!(sent.head.cmd, CMD::MOUSE_MOVE.code());
    assert_eq!(s.outbound().encode(), frame);
}

#[test]
fn clicks_and_wheel_set_report_fields() {
    let mut s = connected();
    let f = s.perform_with_nonce(DeviceAction::MouseRightClick(ButtonState::Pressed), 0).ok().unwrap();
    let p = ClientTx::decode(&f).unwrap();
    assert_eq!(p.data.get_cmd_mouse().button, 1);
    assert_eq!(p.head.cmd, CMD::MOUSE_RIGHT.code());
    let f = s.perform_with_nonce(DeviceAction::MouseWheelClick(ButtonState::Released), 0).ok().unwrap();
    let p = ClientTx::decode(&f).unwrap();
    assert_eq!(p.data.get_cmd_mouse().button, 0);
    assert_eq!(p.head.cmd, CMD::MOUSE_MIDDLE.code());
    let f = s.perform_with_nonce(DeviceAction::MouseWheel(MwheelState::Down(10)), 0).ok().unwrap();
    let p = ClientTx::decode(&f).unwrap();
    assert_eq!(p.data.get_cmd_mouse().wheel, -10);
    assert_eq!(p.head.cmd, CMD::MOUSE_WHEEL.code());
    let f = s.perform_with_nonce(DeviceAction::MouseWheel(MwheelState::Released), 0).ok().unwrap();
    assert_eq!(ClientTx::decode(&f).unwrap().data.get_cmd_mouse().wheel, 0);
}

#[test]
fn key_down_fills_first_free_slot() {
    let mut s = connected();
    s.perform_with_nonce(DeviceAction::KeyboardKeydown(KeyboardKey::KEY_A), 0).ok().unwrap();
    let f = s.perform_with_nonce(DeviceAction::KeyboardKeydown(KeyboardKey::KEY_B), 0).ok().unwrap();
    let p = ClientTx::decode(&f).unwrap();
    assert_eq!(p.head.cmd, CMD::KEYBOARD_ALL.code());
    assert_eq!(p.data.get_cmd_keyboard().button, [4, 5, 0, 0, 0, 0, 0, 0, 0, 0]);
    let f = s.perform_with_nonce(DeviceAction::KeyboardKeyup(KeyboardKey::KEY_A), 0).ok().unwrap();
    let p = ClientTx::decode(&f).unwrap();
    assert_eq!(p.data.get_cmd_keyboard().button, [0, 5, 0, 0, 0, 0, 0, 0, 0, 0]);
    let f = s.perform_with_nonce(DeviceAction::KeyboardKeydown(KeyboardKey::KEY_C), 0).ok().unwrap();
    let p = ClientTx::decode(&f).unwrap();
    assert_eq!(p.data.get_cmd_keyboard().button, [6, 5, 0, 0, 0, 0, 0, 0, 0, 0]);
}

#[test]
fn key_down_with_all_slots_taken_changes_nothing() {
    let mut s = connected();
    for _ in 0..10 {
        s.perform_with_nonce(DeviceAction::KeyboardKeydown(KeyboardKey::KEY_Z), 0).ok().unwrap();
    }
    let f = s.perform_with_nonce(DeviceAction::KeyboardKeydown(KeyboardKey::KEY_A), 0).ok().unwrap();
    let p = ClientTx::decode(&f).unwrap();
    assert_eq!(p.data.get_cmd_keyboard().button, [29; 10]);
    let f = s.perform_with_nonce(DeviceAction::KeyboardKeyup(KeyboardKey::KEY_Z), 0).ok().unwrap();
    let p = ClientTx::decode(&f).unwrap();
    assert_eq!(p.data.get_cmd_keyboard().button, [0; 10]);
}

#[test]
fn side_buttons_are_unsupported_on_the_device() {
    let mut s = connected();
    let before = s.outbound().encode();
    let e = s.perform_with_nonce(DeviceAction::MouseSide1Click(ButtonState::Pressed), 0).err().unwrap();
    assert!(matches!(e.0, SendFailure::Unsupported(DeviceOperation::MouseSide1Click)));
    let e = s.perform(DeviceAction::MouseSide2Click(ButtonState::Pressed)).err().unwrap();
    assert!(matches!(e.0, SendFailure::Unsupported(DeviceOperation::MouseSide2Click)));
    assert_eq!(s.outbound().encode(), before);
}

#[test]
fn management_commands_are_unsupported() {
    let mut s = connected();
    for c in [CMD::BAZER_MOVE, CMD::MONITOR, CMD::DEBUG, CMD::MASK_MOUSE, CMD::UNMASK_ALL, CMD::SETCONFIG, CMD::SHOWPIC] {
        let e = s.send_command(c, 0).err().expect("unsupported");
        assert!(matches!(e.0, SendFailure::UnsupportedCommand(x) if x == c));
    }
    assert_eq!(s.sequence(), 0);
    let frame = s.send_command(CMD::REBOOT, 5).ok().expect("supported");
    assert_eq!(ClientTx::decode(&frame).unwrap().head.cmd, CMD::REBOOT.code());
    assert_eq!(s.sequence(), 1);
}

#[test]
fn fresh_nonces_still_advance_sequence() {
    let mut s = connected();
    let f = s.perform(DeviceAction::MouseMove(2, 3)).ok().unwrap();
    let p = ClientTx::decode(&f).unwrap();
    assert_eq!(p.head.indexpts, 1);
    assert_eq!((p.data.get_cmd_mouse().x, p.data.get_cmd_mouse().y), (2, 3));
    let f = s.reboot().ok().expect("nonce available");
    assert_eq!(ClientTx::decode(&f).unwrap().head.indexpts, 2);
}

#[test]
fn replies_are_recorded_when_whole() {
    let mut s = connected();
    let mut reply = s.outbound();
    reply.head.rand = 77;
    s.record_reply(&reply.encode());
    assert_eq!(s.reply().head.rand, 77);
    s.record_reply(&[1, 2, 3]);
    assert_eq!(s.reply().head.rand, 77);
    assert_eq!(reply.encode().len(), PACKET_SIZE);
}

#[test]
fn monitor_transition_uses_next_port() {
    let s = connected();
    let (frame, port) = s.into_monitor(16824).ok().expect("port below the top");
    assert_eq!(port, 16825);
    let p = ClientTx::decode(&frame).unwrap();
    assert_eq!(p.head.cmd, CMD::MONITOR.code());
    assert_eq!(p.head.indexpts, 1);
    assert_eq!(p.head.rand, 16825 | 0xaa55 << 16);
    let e = connected().into_monitor(u16::MAX).err().expect("no port above");
    assert!(matches!(e.0, SendFailure::NoMonitorPort));
}
