//! How a received input event is replayed on this machine: through the virtual
//! mouse or keyboard where one is ready, else through the `xdotool` program.

use vstd::prelude::*;
use vstd::string::StringExecFns;
use crate::keycodes::{
    is_keyboard_key, is_mouse_axis, is_mouse_button, BTN_LEFT, BTN_MIDDLE, BTN_RIGHT, EV_KEY,
    EV_REL, EV_SYN, REL_WHEEL, REL_X, REL_Y, SYN_REPORT,
};
use crate::keymap::{key_for_name, lemma_named_keys_on_keyboard, xdotool_name_to_evdev};
use crate::protocol::InputEvent;
use crate::text::{decimal, decimal_string, decimal_value, lemma_decimal_reads_back};

verus! {

/// One event written to a virtual device: its type, its code and its value.
#[derive(Debug, Clone, Copy, PartialEq, Eq, Structural)]
pub struct RawEvent {
    pub kind: u16,
    pub code: u16,
    pub value: i32,
}

/// What the float deltas of a scroll amount to: the vertical delta truncated
/// toward zero to whole wheel steps, and whether the vertical delta is
/// positive.
#[derive(Debug, Clone, Copy, PartialEq, Eq, Structural)]
pub struct WheelReading {
    pub steps: i32,
    pub upward: bool,
}

/// Which virtual devices are open and usable.
#[derive(Debug, Clone, Copy, PartialEq, Eq, Structural)]
pub struct DeviceReadiness {
    pub mouse: bool,
    pub keyboard: bool,
}

/// How to replay one event.
#[derive(Debug, Clone, PartialEq, Eq)]
pub enum InjectionPlan {
    /// Write these events to the virtual mouse.
    Mouse(Vec<RawEvent>),
    /// Write these events to the virtual keyboard.
    Keyboard(Vec<RawEvent>),
    /// Run `xdotool` with these arguments.
    Xdotool(Vec<String>),
    /// Nothing is to be done.
    Ignore,
}

/// The mathematical form of an [`InjectionPlan`].
pub enum PlannedInjection {
    Mouse(Seq<RawEvent>),
    Keyboard(Seq<RawEvent>),
    Xdotool(Seq<Seq<char>>),
    Ignore,
}

impl View for InjectionPlan {
    type V = PlannedInjection;

    open spec fn view(&self) -> PlannedInjection {
        match self {
            InjectionPlan::Mouse(events) => PlannedInjection::Mouse(events@),
            InjectionPlan::Keyboard(events) => PlannedInjection::Keyboard(events@),
            InjectionPlan::Xdotool(args) => PlannedInjection::Xdotool(
                args@.map_values(|a: String| a@),
            ),
            InjectionPlan::Ignore => PlannedInjection::Ignore,
        }
    }
}

/// The button code of a mouse button number: 1 is left, 2 is middle, and
/// every other number is right.
pub open spec fn button_code(button: u8) -> u16 {
    if button == 1 {
        BTN_LEFT
    } else if button == 2 {
        BTN_MIDDLE
    } else {
        BTN_RIGHT
    }
}

/// The value of a key or button event: 1 for a press, 0 for a release.
pub open spec fn press_value(pressed: bool) -> i32 {
    if pressed {
        1
    } else {
        0
    }
}

/// The `xdotool` command for a key going down or up.
pub open spec fn key_action(pressed: bool) -> Seq<char> {
    if pressed {
        "keydown"@
    } else {
        "keyup"@
    }
}

/// The `xdotool` command for a mouse button going down or up.
pub open spec fn mouse_action(pressed: bool) -> Seq<char> {
    if pressed {
        "mousedown"@
    } else {
        "mouseup"@
    }
}

/// How an event is replayed, given the wheel reading of a scroll and which
/// virtual devices are ready.
pub open spec fn os_input_plan(
    event: InputEvent,
    wheel: WheelReading,
    devices: DeviceReadiness,
) -> PlannedInjection {
    match event {
        InputEvent::MouseMove { x, y } => if devices.mouse {
            PlannedInjection::Mouse(
                seq![
                    RawEvent { kind: EV_REL, code: REL_X, value: x },
                    RawEvent { kind: EV_REL, code: REL_Y, value: y },
                ],
            )
        } else {
            PlannedInjection::Xdotool(
                seq!["mousemove_relative"@, "--"@, decimal(x as int), decimal(y as int)],
            )
        },
        InputEvent::MouseMoveAbsolute { x, y } => PlannedInjection::Xdotool(
            seq!["mousemove"@, decimal(x as int), decimal(y as int)],
        ),
        InputEvent::MouseButton { button, pressed } => if devices.mouse {
            PlannedInjection::Mouse(
                seq![
                    RawEvent {
                        kind: EV_KEY,
                        code: button_code(button),
                        value: press_value(pressed),
                    },
                ],
            )
        } else {
            PlannedInjection::Xdotool(seq![mouse_action(pressed), decimal(button as int)])
        },
        InputEvent::Scroll { .. } => if devices.mouse {
            PlannedInjection::Mouse(
                seq![RawEvent { kind: EV_REL, code: REL_WHEEL, value: wheel.steps }],
            )
        } else {
            PlannedInjection::Xdotool(
                seq![
                    "click"@,
                    if wheel.upward {
                        "4"@
                    } else {
                        "5"@
                    },
                ],
            )
        },
        InputEvent::KeyName { name, pressed } => match key_for_name(name@) {
            Some(code) if devices.keyboard => PlannedInjection::Keyboard(
                seq![
                    RawEvent { kind: EV_KEY, code: code, value: press_value(pressed) },
                    RawEvent { kind: EV_SYN, code: SYN_REPORT, value: 0 },
                ],
            ),
            _ => PlannedInjection::Xdotool(seq![key_action(pressed), name@]),
        },
        InputEvent::KeyPress { key_code, pressed } => PlannedInjection::Xdotool(
            seq![key_action(pressed), decimal(key_code as int)],
        ),
        InputEvent::LockState { .. } => PlannedInjection::Ignore,
    }
}

fn owned(s: &str) -> (r: String)
    ensures
        r@ == s@,
{
    String::from_str(s)
}

fn key_action_string(pressed: bool) -> (r: String)
    ensures
        r@ == key_action(pressed),
{
    if pressed {
        owned("keydown")
    } else {
        owned("keyup")
    }
}

/// Decides how to replay `event` on this machine. Pointer events go to the
/// virtual mouse when it is ready, named keys that the key table knows go to
/// the virtual keyboard when it is ready, and everything else that can be
/// replayed becomes an `xdotool` command; a lock-state change is ignored.
pub fn plan_os_input(
    event: &InputEvent,
    wheel: WheelReading,
    devices: DeviceReadiness,
) -> (plan: InjectionPlan)
    ensures
        plan@ == os_input_plan(*event, wheel, devices),
{
    match event {
        InputEvent::MouseMove { x, y } => {
            if devices.mouse {
                let events = vec![
                    RawEvent { kind: EV_REL, code: REL_X, value: *x },
                    RawEvent { kind: EV_REL, code: REL_Y, value: *y },
                ];
                assert(events@ =~= seq![
                    RawEvent { kind: EV_REL, code: REL_X, value: *x },
                    RawEvent { kind: EV_REL, code: REL_Y, value: *y },
                ]);
                InjectionPlan::Mouse(events)
            } else {
                let args = vec![
                    owned("mousemove_relative"),
                    owned("--"),
                    decimal_string(*x as i64),
                    decimal_string(*y as i64),
                ];
                proof {
                    assert(args@.map_values(|a: String| a@) =~= seq![
                        "mousemove_relative"@,
                        "--"@,
                        decimal(*x as int),
                        decimal(*y as int),
                    ]);
                }
                InjectionPlan::Xdotool(args)
            }
        },
        InputEvent::MouseMoveAbsolute { x, y } => {
            let args = vec![
                owned("mousemove"),
                decimal_string(*x as i64),
                decimal_string(*y as i64),
            ];
            proof {
                assert(args@.map_values(|a: String| a@) =~= seq![
                    "mousemove"@,
                    decimal(*x as int),
                    decimal(*y as int),
                ]);
            }
            InjectionPlan::Xdotool(args)
        },
        InputEvent::MouseButton { button, pressed } => {
            if devices.mouse {
                let code = if *button == 1 {
                    BTN_LEFT
                } else if *button == 2 {
                    BTN_MIDDLE
                } else {
                    BTN_RIGHT
                };
                let value: i32 = if *pressed {
                    1
                } else {
                    0
                };
                let events = vec![RawEvent { kind: EV_KEY, code, value }];
                assert(events@ =~= seq![RawEvent { kind: EV_KEY, code, value }]);
                InjectionPlan::Mouse(events)
            } else {
                let action = if *pressed {
                    owned("mousedown")
                } else {
                    owned("mouseup")
                };
                let args = vec![action, decimal_string(*button as i64)];
                proof {
                    assert(args@.map_values(|a: String| a@) =~= seq![
                        mouse_action(*pressed),
                        decimal(*button as int),
                    ]);
                }
                InjectionPlan::Xdotool(args)
            }
        },
        InputEvent::Scroll { .. } => {
            if devices.mouse {
                let events = vec![RawEvent { kind: EV_REL, code: REL_WHEEL, value: wheel.steps }];
                assert(events@ =~= seq![
                    RawEvent { kind: EV_REL, code: REL_WHEEL, value: wheel.steps },
                ]);
                InjectionPlan::Mouse(events)
            } else {
                let button = if wheel.upward {
                    owned("4")
                } else {
                    owned("5")
                };
                let args = vec![owned("click"), button];
                proof {
                    assert(args@.map_values(|a: String| a@) =~= seq![
                        "click"@,
                        if wheel.upward {
                            "4"@
                        } else {
                            "5"@
                        },
                    ]);
                }
                InjectionPlan::Xdotool(args)
            }
        },
        InputEvent::KeyName { name, pressed } => {
            let known = xdotool_name_to_evdev(name.as_str());
            match known {
                Some(code) => {
                    if devices.keyboard {
                        let value: i32 = if *pressed {
                            1
                        } else {
                            0
                        };
                        let events = vec![
                            RawEvent { kind: EV_KEY, code, value },
                            RawEvent { kind: EV_SYN, code: SYN_REPORT, value: 0 },
                        ];
                        assert(events@ =~= seq![
                            RawEvent { kind: EV_KEY, code, value },
                            RawEvent { kind: EV_SYN, code: SYN_REPORT, value: 0 },
                        ]);
                        return InjectionPlan::Keyboard(events);
                    }
                },
                None => {},
            }
            let args = vec![key_action_string(*pressed), name.clone()];
            proof {
                assert(args@.map_values(|a: String| a@) =~= seq![key_action(*pressed), name@]);
            }
            InjectionPlan::Xdotool(args)
        },
        InputEvent::KeyPress { key_code, pressed } => {
            let args = vec![key_action_string(*pressed), decimal_string(*key_code as i64)];
            proof {
                assert(args@.map_values(|a: String| a@) =~= seq![
                    key_action(*pressed),
                    decimal(*key_code as int),
                ]);
            }
            InjectionPlan::Xdotool(args)
        },
        InputEvent::LockState { .. } => InjectionPlan::Ignore,
    }
}

/// The program that replays events when no virtual device is ready.
pub const XDOTOOL_PROGRAM: &'static str = "xdotool";

/// The X display that `xdotool` talks to when `DISPLAY` is not set.
pub const DEFAULT_DISPLAY: &'static str = ":0";

/// The X authority file that `xdotool` uses when `XAUTHORITY` is not set.
pub const DEFAULT_XAUTHORITY: &'static str = "/run/user/1000/.mutter-Xwaylandauth.4QFTR3";

/// A run of `xdotool`: the values of `DISPLAY` and `XAUTHORITY` it is given,
/// and its arguments.
#[derive(Debug, Clone, PartialEq, Eq)]
pub struct XdotoolInvocation {
    pub display: String,
    pub xauthority: String,
    pub args: Vec<String>,
}

/// The value of an environment variable, or a fallback where it is unset.
pub open spec fn setting_or(value: Option<String>, fallback: Seq<char>) -> Seq<char> {
    match value {
        Some(v) => v@,
        None => fallback,
    }
}

/// Prepares a run of `xdotool` with `args`, given the values of `DISPLAY` and
/// `XAUTHORITY` in this process's environment: an unset variable falls back
/// to [`DEFAULT_DISPLAY`] or [`DEFAULT_XAUTHORITY`].
pub fn xdotool_invocation(
    display: Option<String>,
    xauthority: Option<String>,
    args: Vec<String>,
) -> (r: XdotoolInvocation)
    ensures
        r.display@ == setting_or(display, DEFAULT_DISPLAY@),
        r.xauthority@ == setting_or(xauthority, DEFAULT_XAUTHORITY@),
        r.args@ == args@,
{
    let display = match display {
        Some(d) => d,
        None => String::from_str(DEFAULT_DISPLAY),
    };
    let xauthority = match xauthority {
        Some(x) => x,
        None => String::from_str(DEFAULT_XAUTHORITY),
    };
    XdotoolInvocation { display, xauthority, args }
}

/// An event that the virtual mouse declares: motion on one of its axes or a
/// change of one of its buttons, with value 0 or 1.
pub open spec fn mouse_accepts(e: RawEvent) -> bool {
    ||| e.kind == EV_REL && is_mouse_axis(e.code)
    ||| e.kind == EV_KEY && is_mouse_button(e.code) && (e.value == 0 || e.value == 1)
}

/// An event that the virtual keyboard declares: a change of one of its keys,
/// with value 0 or 1, or the report marker.
pub open spec fn keyboard_accepts(e: RawEvent) -> bool {
    ||| e.kind == EV_KEY && is_keyboard_key(e.code) && (e.value == 0 || e.value == 1)
    ||| e.kind == EV_SYN && e.code == SYN_REPORT && e.value == 0
}

/// Whatever event arrives, a plan writes to a virtual device only events
/// that the device declared when it was created.
pub proof fn lemma_plans_stay_within_device_capabilities(
    event: InputEvent,
    wheel: WheelReading,
    devices: DeviceReadiness,
)
    ensures
        os_input_plan(event, wheel, devices) matches PlannedInjection::Mouse(events) ==> forall|
            i: int,
        |
            0 <= i < events.len() ==> mouse_accepts(#[trigger] events[i]),
        os_input_plan(event, wheel, devices) matches PlannedInjection::Keyboard(events) ==> forall|
            i: int,
        |
            0 <= i < events.len() ==> keyboard_accepts(#[trigger] events[i]),
{
    if let InputEvent::KeyName { name, pressed } = event {
        lemma_named_keys_on_keyboard(name@);
    }
}

/// A plan writes to a virtual device only when that device is ready: with
/// neither device ready, every event becomes an `xdotool` command or is
/// ignored.
pub proof fn lemma_devices_used_only_when_ready(
    event: InputEvent,
    wheel: WheelReading,
    devices: DeviceReadiness,
)
    ensures
        os_input_plan(event, wheel, devices) is Mouse ==> devices.mouse,
        os_input_plan(event, wheel, devices) is Keyboard ==> devices.keyboard,
{
}

/// With the virtual mouse ready, pointer motion, buttons and the wheel never
/// fall back to `xdotool`, except for motion to an absolute position, which
/// the virtual mouse cannot express.
pub proof fn lemma_ready_mouse_takes_pointer_events(
    event: InputEvent,
    wheel: WheelReading,
    devices: DeviceReadiness,
)
    requires
        devices.mouse,
        event is MouseMove || event is MouseButton || event is Scroll,
    ensures
        os_input_plan(event, wheel, devices) is Mouse,
{
}

/// With the virtual keyboard ready, a key name that the table knows is typed
/// through the keyboard, as a press or release of its key followed by the
/// report marker; an unknown name goes to `xdotool` unchanged.
pub proof fn lemma_known_names_reach_the_keyboard(
    name: String,
    pressed: bool,
    wheel: WheelReading,
    devices: DeviceReadiness,
)
    ensures
        key_for_name(name@) matches Some(code) ==> (devices.keyboard ==> os_input_plan(
            InputEvent::KeyName { name, pressed },
            wheel,
            devices,
        ) == PlannedInjection::Keyboard(
            seq![
                RawEvent { kind: EV_KEY, code: code, value: press_value(pressed) },
                RawEvent { kind: EV_SYN, code: SYN_REPORT, value: 0 },
            ],
        )),
        key_for_name(name@) is None ==> os_input_plan(
            InputEvent::KeyName { name, pressed },
            wheel,
            devices,
        ) == PlannedInjection::Xdotool(seq![key_action(pressed), name@]),
{
}

/// Wherever a key event becomes an `xdotool` command, the command presses
/// the key (`keydown`) when the event is a press and releases it (`keyup`)
/// when it is a release, and names the key as the event did: a named key
/// without a ready keyboard, whether or not the key table knows the name,
/// and a numeric key always, whose code the command carries in decimal.
pub proof fn lemma_key_commands_follow_the_event(
    event: InputEvent,
    wheel: WheelReading,
    devices: DeviceReadiness,
)
    ensures
        event matches InputEvent::KeyName { name, pressed } ==> (!devices.keyboard
            ==> os_input_plan(event, wheel, devices) == PlannedInjection::Xdotool(
            seq![
                if pressed {
                    "keydown"@
                } else {
                    "keyup"@
                },
                name@,
            ],
        )),
        event matches InputEvent::KeyPress { key_code, pressed } ==> os_input_plan(
            event,
            wheel,
            devices,
        ) matches PlannedInjection::Xdotool(a) && a.len() == 2 && a[0] == (if pressed {
            "keydown"@
        } else {
            "keyup"@
        }) && decimal_value(a[1]) == key_code,
{
    if let InputEvent::KeyPress { key_code, pressed } = event {
        lemma_decimal_reads_back(key_code as int);
    }
}

/// Wherever pointer input becomes an `xdotool` command, the command carries
/// the event's own numbers, which read back from their decimal arguments:
/// the position of an absolute motion always, and the offsets of a relative
/// motion and the number of a button when the mouse is not ready; a button
/// goes down on a press and up on a release.
pub proof fn lemma_pointer_commands_carry_the_event(
    event: InputEvent,
    wheel: WheelReading,
    devices: DeviceReadiness,
)
    ensures
        event matches InputEvent::MouseMoveAbsolute { x, y } ==> os_input_plan(
            event,
            wheel,
            devices,
        ) matches PlannedInjection::Xdotool(a) && a.len() == 3 && a[0] == "mousemove"@
            && decimal_value(a[1]) == x && decimal_value(a[2]) == y,
        event matches InputEvent::MouseMove { x, y } ==> (!devices.mouse ==> (os_input_plan(
            event,
            wheel,
            devices,
        ) matches PlannedInjection::Xdotool(a) && a.len() == 4 && a[0] == "mousemove_relative"@
            && a[1] == "--"@ && decimal_value(a[2]) == x && decimal_value(a[3]) == y)),
        event matches InputEvent::MouseButton { button, pressed } ==> (!devices.mouse
            ==> (os_input_plan(event, wheel, devices) matches PlannedInjection::Xdotool(a) && a.len()
            == 2 && a[0] == (if pressed {
            "mousedown"@
        } else {
            "mouseup"@
        }) && decimal_value(a[1]) == button)),
{
    match event {
        InputEvent::MouseMoveAbsolute { x, y } => {
            lemma_decimal_reads_back(x as int);
            lemma_decimal_reads_back(y as int);
        },
        InputEvent::MouseMove { x, y } => {
            lemma_decimal_reads_back(x as int);
            lemma_decimal_reads_back(y as int);
        },
        InputEvent::MouseButton { button, pressed } => {
            lemma_decimal_reads_back(button as int);
        },
        _ => {},
    }
}

/// With the mouse ready, relative motion moves by the event's own offsets,
/// and a button event changes the button its number names (1 left, 2
/// middle, any other right) to down on a press and up on a release.
pub proof fn lemma_ready_mouse_replays_the_event(
    event: InputEvent,
    wheel: WheelReading,
    devices: DeviceReadiness,
)
    requires
        devices.mouse,
    ensures
        event matches InputEvent::MouseMove { x, y } ==> os_input_plan(event, wheel, devices)
            == PlannedInjection::Mouse(
            seq![
                RawEvent { kind: 2, code: 0, value: x },
                RawEvent { kind: 2, code: 1, value: y },
            ],
        ),
        event matches InputEvent::MouseButton { button, pressed } ==> os_input_plan(
            event,
            wheel,
            devices,
        ) == PlannedInjection::Mouse(
            seq![
                RawEvent {
                    kind: 1,
                    code: if button == 1 {
                        272
                    } else if button == 2 {
                        274
                    } else {
                        273
                    },
                    value: if pressed {
                        1
                    } else {
                        0
                    },
                },
            ],
        ),
{
}

} // verus!
