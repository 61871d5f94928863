use glide_kvm::inject::{
    plan_os_input, xdotool_invocation, DeviceReadiness, InjectionPlan, RawEvent, WheelReading,
    DEFAULT_DISPLAY, DEFAULT_XAUTHORITY, XDOTOOL_PROGRAM,
};
use glide_kvm::keycodes::{
    is_keyboard_key_code, mouse_axis_codes, mouse_button_codes, BTN_LEFT, BTN_MIDDLE, BTN_RIGHT,
    EV_KEY, EV_REL, EV_SYN, KEY_A, KEY_ENTER, REL_WHEEL, REL_X, REL_Y, SYN_REPORT,
};
use glide_kvm::protocol::InputEvent;

const NONE: DeviceReadiness = DeviceReadiness { mouse: false, keyboard: false };
const BOTH: DeviceReadiness = DeviceReadiness { mouse: true, keyboard: true };
const STILL: WheelReading = WheelReading { steps: 0, upward: false };

fn args(list: &[&str]) -> InjectionPlan {
    InjectionPlan::Xdotool(list.iter().map(|s| s.to_string()).collect())
}

fn ev(kind: u16, code: u16, value: i32) -> RawEvent {
    RawEvent { kind, code, value }
}

#[test]
fn relative_motion_uses_the_mouse_when_ready() {
    let e = InputEvent::MouseMove { x: 5, y: -3 };
    assert_eq!(
        plan_os_input(&e, STILL, BOTH),
        InjectionPlan::Mouse(vec![ev(EV_REL, REL_X, 5), ev(EV_REL, REL_Y, -3)])
    );
    assert_eq!(plan_os_input(&e, STILL, NONE), args(&["mousemove_relative", "--", "5", "-3"]));
}

#[test]
fn absolute_motion_always_goes_to_xdotool() {
    let e = InputEvent::MouseMoveAbsolute { x: 1920, y: 0 };
    assert_eq!(plan_os_input(&e, STILL, BOTH), args(&["mousemove", "1920", "0"]));
    assert_eq!(plan_os_input(&e, STILL, NONE), args(&["mousemove", "1920", "0"]));
}

#[test]
fn mouse_buttons_map_one_left_two_middle_else_right() {
    let cases = [(1u8, BTN_LEFT), (2, BTN_MIDDLE), (3, BTN_RIGHT), (0, BTN_RIGHT), (255, BTN_RIGHT)];
    for (button, code) in cases {
        let down = InputEvent::MouseButton { button, pressed: true };
        let up = InputEvent::MouseButton { button, pressed: false };
        assert_eq!(plan_os_input(&down, STILL, BOTH), InjectionPlan::Mouse(vec![ev(EV_KEY, code, 1)]));
        assert_eq!(plan_os_input(&up, STILL, BOTH), InjectionPlan::Mouse(vec![ev(EV_KEY, code, 0)]));
    }
    let down = InputEvent::MouseButton { button: 3, pressed: true };
    assert_eq!(plan_os_input(&down, STILL, NONE), args(&["mousedown", "3"]));
    let up = InputEvent::MouseButton { button: 1, pressed: false };
    assert_eq!(plan_os_input(&up, STILL, NONE), args(&["mouseup", "1"]));
}

#[test]
fn scroll_uses_the_wheel_reading() {
    let e = InputEvent::Scroll { delta_x_bits: 0, delta_y_bits: 2.0f32.to_bits() };
    let up = WheelReading { steps: 2, upward: true };
    let down = WheelReading { steps: -1, upward: false };
    assert_eq!(plan_os_input(&e, up, BOTH), InjectionPlan::Mouse(vec![ev(EV_REL, REL_WHEEL, 2)]));
    assert_eq!(plan_os_input(&e, down, BOTH), InjectionPlan::Mouse(vec![ev(EV_REL, REL_WHEEL, -1)]));
    assert_eq!(plan_os_input(&e, up, NONE), args(&["click", "4"]));
    assert_eq!(plan_os_input(&e, down, NONE), args(&["click", "5"]));
}

#[test]
fn known_key_names_use_the_keyboard_when_ready() {
    let e = InputEvent::KeyName { name: "a".to_string(), pressed: true };
    assert_eq!(
        plan_os_input(&e, STILL, BOTH),
        InjectionPlan::Keyboard(vec![ev(EV_KEY, KEY_A, 1), ev(EV_SYN, SYN_REPORT, 0)])
    );
    let e = InputEvent::KeyName { name: "Return".to_string(), pressed: false };
    assert_eq!(
        plan_os_input(&e, STILL, BOTH),
        InjectionPlan::Keyboard(vec![ev(EV_KEY, KEY_ENTER, 0), ev(EV_SYN, SYN_REPORT, 0)])
    );
    let only_mouse = DeviceReadiness { mouse: true, keyboard: false };
    assert_eq!(plan_os_input(&e, STILL, only_mouse), args(&["keyup", "Return"]));
}

#[test]
fn unknown_key_names_go_to_xdotool() {
    let e = InputEvent::KeyName { name: "KP_Enter".to_string(), pressed: true };
    assert_eq!(plan_os_input(&e, STILL, BOTH), args(&["keydown", "KP_Enter"]));
}

#[test]
fn numeric_key_presses_go_to_xdotool() {
    let e = InputEvent::KeyPress { key_code: 65, pressed: true };
    assert_eq!(plan_os_input(&e, STILL, BOTH), args(&["keydown", "65"]));
    let e = InputEvent::KeyPress { key_code: u32::MAX, pressed: false };
    assert_eq!(plan_os_input(&e, STILL, NONE), args(&["keyup", "4294967295"]));
}

#[test]
fn lock_state_is_ignored() {
    let e = InputEvent::LockState { locked: true };
    assert_eq!(plan_os_input(&e, STILL, BOTH), InjectionPlan::Ignore);
    assert_eq!(plan_os_input(&e, STILL, NONE), InjectionPlan::Ignore);
}

fn sample_events() -> Vec<InputEvent> {
    vec![
        InputEvent::MouseMove { x: i32::MIN, y: i32::MAX },
        InputEvent::MouseMoveAbsolute { x: 3, y: 4 },
        InputEvent::MouseButton { button: 1, pressed: true },
        InputEvent::MouseButton { button: 9, pressed: false },
        InputEvent::KeyPress { key_code: 0, pressed: true },
        InputEvent::Scroll { delta_x_bits: 1, delta_y_bits: 2 },
        InputEvent::LockState { locked: false },
        InputEvent::KeyName { name: "z".to_string(), pressed: true },
        InputEvent::KeyName { name: "Caps_Lock".to_string(), pressed: false },
        InputEvent::KeyName { name: "nothing".to_string(), pressed: true },
    ]
}

#[test]
fn plans_stay_within_device_capabilities() {
    let buttons = mouse_button_codes();
    let axes = mouse_axis_codes();
    let readings = [STILL, WheelReading { steps: -7, upward: true }];
    let states = [NONE, BOTH, DeviceReadiness { mouse: true, keyboard: false }, DeviceReadiness { mouse: false, keyboard: true }];
    for e in sample_events() {
        for w in readings {
            for d in states {
                match plan_os_input(&e, w, d) {
                    InjectionPlan::Mouse(events) => {
                        assert!(d.mouse);
                        for r in events {
                            let ok = (r.kind == EV_REL && axes.contains(&r.code))
                                || (r.kind == EV_KEY && buttons.contains(&r.code) && (r.value == 0 || r.value == 1));
                            assert!(ok, "{:?}", r);
                        }
                    }
                    InjectionPlan::Keyboard(events) => {
                        assert!(d.keyboard);
                        for r in events {
                            let ok = (r.kind == EV_KEY && is_keyboard_key_code(r.code) && (r.value == 0 || r.value == 1))
                                || (r.kind == EV_SYN && r.code == SYN_REPORT && r.value == 0);
                            assert!(ok, "{:?}", r);
                        }
                    }
                    InjectionPlan::Xdotool(a) => assert!(!a.is_empty()),
                    InjectionPlan::Ignore => {}
                }
            }
        }
    }
}

#[test]
fn xdotool_invocation_falls_back_to_defaults() {
    let a = vec!["click".to_string(), "4".to_string()];
    let inv = xdotool_invocation(None, None, a.clone());
    assert_eq!(inv.display, ":0");
    assert_eq!(inv.xauthority, "/run/user/1000/.mutter-Xwaylandauth.4QFTR3");
    assert_eq!(inv.args, a);
    let inv = xdotool_invocation(Some(":1".to_string()), Some("/tmp/auth".to_string()), vec![]);
    assert_eq!(inv.display, ":1");
    assert_eq!(inv.xauthority, "/tmp/auth");
    assert!(inv.args.is_empty());
    assert_eq!(XDOTOOL_PROGRAM, "xdotool");
    assert_eq!(DEFAULT_DISPLAY, ":0");
    assert_eq!(DEFAULT_XAUTHORITY, "/run/user/1000/.mutter-Xwaylandauth.4QFTR3");
}
