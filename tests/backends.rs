use input_middleware::button_state::{ButtonState, MwheelState};
use input_middleware::errors::{InputMiddlewareSendError, SendFailure};
use input_middleware::keyboardkeys::KeyboardKey;
use input_middleware::kmbox_net::errors::KMBoxNetSendError;
use input_middleware::kmbox_net::{KMBoxNetConfig, DEFAULT_PORT};
use input_middleware::qmp::cmd::{
    ExecuteEvent, QMPInputSendAxis, QMPInputSendKeyEvent, QMPInputSendMouseEvent,
    QMPInputSendMouseMoveData, QMPInputSendMouseType, QMPMessage,
};
use input_middleware::qmp::{request_for as qmp_request, QMPSendError};
use input_middleware::syscall::{request_for as syscall_request, SysButton, SysCallRequest};
use input_middleware::{DeviceAction, DeviceOperation};

fn every_action() -> Vec<DeviceAction> {
    vec![
        DeviceAction::KeyboardKeydown(KeyboardKey::KEY_A),
        DeviceAction::KeyboardKeyup(KeyboardKey::KEY_A),
        DeviceAction::MouseLeftClick(ButtonState::Pressed),
        DeviceAction::MouseRightClick(ButtonState::Pressed),
        DeviceAction::MouseMiddleClick(ButtonState::Pressed),
        DeviceAction::MouseSide1Click(ButtonState::Pressed),
        DeviceAction::MouseSide2Click(ButtonState::Pressed),
        DeviceAction::MouseWheelClick(ButtonState::Pressed),
        DeviceAction::MouseWheel(MwheelState::Up(1)),
        DeviceAction::MouseMove(1, 1),
    ]
}

#[test]
fn qmp_supports_only_relative_move() {
    for a in every_action() {
        match qmp_request(a) {
            Ok(m) => {
                assert_eq!(a, DeviceAction::MouseMove(1, 1));
                assert_eq!(m.execute, ExecuteEvent::InputSendEvent);
            }
            Err(QMPSendError(SendFailure::Unsupported(op))) => {
                assert_eq!(op, a.operation());
                assert_ne!(op, DeviceOperation::MouseMove);
                let e: InputMiddlewareSendError = QMPSendError(SendFailure::Unsupported(op)).into();
                assert!(e.is_unsupported());
            }
            Err(other) => panic!("unexpected {:?}", other),
        }
    }
}

#[test]
fn qmp_move_has_x_then_y_event() {
    let m = qmp_request(DeviceAction::MouseMove(5, -3)).ok().unwrap();
    let events = m.arguments.unwrap().events;
    assert_eq!(
        events,
        vec![
            QMPInputSendMouseEvent {
                send_type: QMPInputSendMouseType::Rel,
                data: QMPInputSendMouseMoveData { axis: QMPInputSendAxis::X, value: 5 },
            },
            QMPInputSendMouseEvent {
                send_type: QMPInputSendMouseType::Rel,
                data: QMPInputSendMouseMoveData { axis: QMPInputSendAxis::Y, value: -3 },
            },
        ]
    );
}

#[test]
fn qmp_message_builders() {
    let auth = QMPMessage::<QMPInputSendMouseEvent>::auth();
    assert_eq!(auth.execute, ExecuteEvent::QMPCapabilities);
    assert!(auth.arguments.is_none());
    let keys = QMPMessage::<QMPInputSendKeyEvent>::new(vec![]);
    assert_eq!(keys.execute, ExecuteEvent::InputSendEvent);
    assert!(keys.arguments.unwrap().events.is_empty());
    let d = QMPInputSendMouseMoveData::from_slice(&[7, 8]);
    assert_eq!(d[0], QMPInputSendMouseMoveData::new(QMPInputSendAxis::X, 7));
    assert_eq!(d[1], QMPInputSendMouseMoveData::new(QMPInputSendAxis::Y, 8));
}

#[test]
fn syscall_maps_each_action() {
    assert_eq!(syscall_request(DeviceAction::KeyboardKeydown(KeyboardKey::KEY_A)), SysCallRequest::Nothing);
    assert_eq!(
        syscall_request(DeviceAction::MouseLeftClick(ButtonState::Pressed)),
        SysCallRequest::Button { button: SysButton::Left, press: true }
    );
    assert_eq!(
        syscall_request(DeviceAction::MouseRightClick(ButtonState::Released)),
        SysCallRequest::Button { button: SysButton::Right, press: false }
    );
    assert_eq!(
        syscall_request(DeviceAction::MouseSide2Click(ButtonState::Pressed)),
        SysCallRequest::Button { button: SysButton::X2, press: true }
    );
    assert_eq!(syscall_request(DeviceAction::MouseWheel(MwheelState::Down(4))), SysCallRequest::Scroll(-4));
    assert_eq!(syscall_request(DeviceAction::MouseMove(-2, 9)), SysCallRequest::MoveRelative(-2, 9));
}

#[test]
fn button_and_wheel_values() {
    assert_eq!(i32::from(ButtonState::Pressed), 1);
    assert_eq!(i32::from(ButtonState::Released), 0);
    assert_eq!(ButtonState::from(1), ButtonState::Pressed);
    assert_eq!(ButtonState::from(2), ButtonState::Released);
    assert_eq!(i32::from(MwheelState::Up(5)), 5);
    assert_eq!(i32::from(MwheelState::Down(10)), -10);
    assert_eq!(i32::from(MwheelState::Released), 0);
    assert_eq!(i32::from(MwheelState::Down(i32::MIN)), i32::MIN);
}

#[test]
fn config_defaults_and_builders() {
    let c = KMBoxNetConfig::default();
    assert_eq!(c.ip, "192.168.2.188");
    assert_eq!(c.port, 16824);
    assert_eq!(c.uuid, "XXXXXXXX");
    let c = KMBoxNetConfig::default_with_uuid("0a1b2c3d");
    assert_eq!((c.ip.as_str(), c.port, c.uuid.as_str()), ("192.168.2.188", DEFAULT_PORT, "0a1b2c3d"));
    let c = KMBoxNetConfig::new("10.0.0.2", 1000, "ffffffff").set_uuid("00000000".to_string());
    assert_eq!((c.ip.as_str(), c.port, c.uuid.as_str()), ("10.0.0.2", 1000, "00000000"));
}

#[test]
fn device_errors_convert_to_common_error() {
    let e: InputMiddlewareSendError = KMBoxNetSendError(SendFailure::NoMonitorPort).into();
    assert!(matches!(e.0, SendFailure::NoMonitorPort));
    assert!(!e.is_unsupported());
}

#[test]
fn scancodes_follow_key_order() {
    assert_eq!(KeyboardKey::KEY_NONE.code(), 0);
    assert_eq!(KeyboardKey::KEY_A.code(), 4);
    assert_eq!(KeyboardKey::KEY_Z.code(), 29);
    assert_eq!(KeyboardKey::KEY_ENTER.code(), 40);
}
