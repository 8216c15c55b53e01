use eucalyptus::event::{
    button_from_u32, mouse_event, Button, MouseEvent, PointerEventKind, BTN_BACK, BTN_FORWARD,
    BTN_LEFT, BTN_MIDDLE, BTN_RIGHT,
};
use smithay_client_toolkit::seat::pointer;

#[test]
fn button_codes_are_those_of_the_toolkit() {
    assert_eq!(BTN_LEFT, pointer::BTN_LEFT);
    assert_eq!(BTN_RIGHT, pointer::BTN_RIGHT);
    assert_eq!(BTN_MIDDLE, pointer::BTN_MIDDLE);
    assert_eq!(BTN_BACK, pointer::BTN_BACK);
    assert_eq!(BTN_FORWARD, pointer::BTN_FORWARD);
}

#[test]
fn buttons_by_code() {
    assert_eq!(button_from_u32(0x110), Button::Left);
    assert_eq!(button_from_u32(0x111), Button::Right);
    assert_eq!(button_from_u32(0x112), Button::Middle);
    assert_eq!(button_from_u32(0x115), Button::Forward);
    assert_eq!(button_from_u32(0x116), Button::Back);
    assert_eq!(button_from_u32(0x113), Button::Other(0x113));
    assert_eq!(button_from_u32(0x5_0110), Button::Other(0x110));
    assert_eq!(button_from_u32(u32::MAX), Button::Other(u16::MAX));
}

#[test]
fn mouse_events_by_kind() {
    let at = (4, 5);
    assert_eq!(mouse_event(PointerEventKind::Enter, at), MouseEvent::CursorEntered);
    assert_eq!(mouse_event(PointerEventKind::Leave, at), MouseEvent::CursorLeft);
    assert_eq!(
        mouse_event(PointerEventKind::Motion, at),
        MouseEvent::CursorMoved { position: (4, 5) }
    );
    assert_eq!(
        mouse_event(PointerEventKind::Press { button: 0x110 }, at),
        MouseEvent::ButtonPressed(Button::Left)
    );
    assert_eq!(
        mouse_event(PointerEventKind::Release { button: 0x111 }, at),
        MouseEvent::ButtonReleased(Button::Right)
    );
    let axis = PointerEventKind::Axis { horizontal_value120: 30, vertical_value120: -120 };
    assert_eq!(mouse_event(axis, at), MouseEvent::WheelScrolled { x120: 30, y120: -120 });
}
