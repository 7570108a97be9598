use input_events::clip_event::BUTTON_EVENT_FLAG_BITS;
use input_events::clip_event::BUTTON_EVENT_METHODS;
use input_events::ClipEvent;
use input_events::ClipEventFlag;
use input_events::ClipEventResult;
use input_events::DeliveryMode;
use input_events::InteractiveObjectHandle;
use input_events::MouseWheelDeltaRaw;
use input_events::ButtonKeyCode;

fn handle() -> InteractiveObjectHandle {
    InteractiveObjectHandle { slot: 3, generation: 7 }
}

/// One value of every variant of the taxonomy.
fn all_events() -> Vec<ClipEvent> {
    vec![
        ClipEvent::Construct,
        ClipEvent::Data,
        ClipEvent::DragOut { to: Some(handle()) },
        ClipEvent::DragOver { from: None },
        ClipEvent::EnterFrame,
        ClipEvent::Initialize,
        ClipEvent::KeyUp,
        ClipEvent::KeyDown,
        ClipEvent::KeyPress { key_code: ButtonKeyCode::Return },
        ClipEvent::Load,
        ClipEvent::MouseUp,
        ClipEvent::RightMouseUp,
        ClipEvent::MiddleMouseUp,
        ClipEvent::MouseUpInside,
        ClipEvent::RightMouseUpInside,
        ClipEvent::MiddleMouseUpInside,
        ClipEvent::MouseDown,
        ClipEvent::RightMouseDown,
        ClipEvent::MiddleMouseDown,
        ClipEvent::MouseMove,
        ClipEvent::MouseMoveInside,
        ClipEvent::Press { index: 0 },
        ClipEvent::RightPress,
        ClipEvent::MiddlePress,
        ClipEvent::RollOut { to: None },
        ClipEvent::RollOver { from: Some(handle()) },
        ClipEvent::Release { index: 1 },
        ClipEvent::RightRelease,
        ClipEvent::MiddleRelease,
        ClipEvent::ReleaseOutside,
        ClipEvent::RightReleaseOutside,
        ClipEvent::MiddleReleaseOutside,
        ClipEvent::Unload,
        ClipEvent::MouseWheel { delta: MouseWheelDeltaRaw::Lines(1.0f64.to_bits()) },
    ]
}

fn is_anycast_variant(e: &ClipEvent) -> bool {
    matches!(
        e,
        ClipEvent::MouseUp
            | ClipEvent::MouseDown
            | ClipEvent::MouseMove
            | ClipEvent::KeyPress { .. }
            | ClipEvent::KeyDown
            | ClipEvent::KeyUp
    )
}

fn is_broadcast_variant(e: &ClipEvent) -> bool {
    matches!(
        e,
        ClipEvent::Construct
            | ClipEvent::Data
            | ClipEvent::EnterFrame
            | ClipEvent::Initialize
            | ClipEvent::Load
            | ClipEvent::Unload
    )
}

#[test]
fn propagates_exactly_for_the_anycast_set() {
    for e in all_events() {
        assert_eq!(e.propagates(), is_anycast_variant(&e), "{:?}", e);
    }
}

#[test]
fn delivery_mode_partitions_the_taxonomy() {
    for e in all_events() {
        let expected = if is_anycast_variant(&e) {
            DeliveryMode::Anycast
        } else if is_broadcast_variant(&e) {
            DeliveryMode::Broadcast
        } else {
            DeliveryMode::Targeted
        };
        assert_eq!(e.delivery(), expected, "{:?}", e);
    }
}

#[test]
fn flag_values_match_the_legacy_format() {
    let cases: Vec<(ClipEvent, u32)> = vec![
        (ClipEvent::Load, 1 << 0),
        (ClipEvent::EnterFrame, 1 << 1),
        (ClipEvent::Unload, 1 << 2),
        (ClipEvent::MouseMove, 1 << 3),
        (ClipEvent::MouseDown, 1 << 4),
        (ClipEvent::MouseUp, 1 << 5),
        (ClipEvent::KeyDown, 1 << 6),
        (ClipEvent::KeyUp, 1 << 7),
        (ClipEvent::Data, 1 << 8),
        (ClipEvent::Initialize, 1 << 9),
        (ClipEvent::Press { index: 0 }, 1 << 10),
        (ClipEvent::Release { index: 0 }, 1 << 11),
        (ClipEvent::ReleaseOutside, 1 << 12),
        (ClipEvent::RollOver { from: None }, 1 << 13),
        (ClipEvent::RollOut { to: None }, 1 << 14),
        (ClipEvent::DragOver { from: None }, 1 << 15),
        (ClipEvent::DragOut { to: None }, 1 << 16),
        (ClipEvent::KeyPress { key_code: ButtonKeyCode::Left }, 1 << 17),
        (ClipEvent::Construct, 1 << 18),
    ];
    for (e, bits) in cases {
        assert_eq!(e.flag().map(|f| f.bits()), Some(bits), "{:?}", e);
    }
}

#[test]
fn flagless_variants_have_no_legacy_analogue() {
    for e in all_events() {
        let expect_none = matches!(
            e,
            ClipEvent::RightMouseUp
                | ClipEvent::MiddleMouseUp
                | ClipEvent::MouseUpInside
                | ClipEvent::RightMouseUpInside
                | ClipEvent::MiddleMouseUpInside
                | ClipEvent::RightMouseDown
                | ClipEvent::MiddleMouseDown
                | ClipEvent::MouseMoveInside
                | ClipEvent::RightPress
                | ClipEvent::MiddlePress
                | ClipEvent::RightRelease
                | ClipEvent::MiddleRelease
                | ClipEvent::RightReleaseOutside
                | ClipEvent::MiddleReleaseOutside
                | ClipEvent::MouseWheel { .. }
        );
        assert_eq!(e.flag().is_none(), expect_none, "{:?}", e);
    }
}

#[test]
fn emitted_flags_stay_within_the_defined_set() {
    for e in all_events() {
        if let Some(f) = e.flag() {
            assert_eq!(f.bits() & !0x7FFFF, 0, "{:?}", e);
        }
    }
}

#[test]
fn button_events_are_the_flags_that_intersect_the_button_mask() {
    for e in all_events() {
        let expected = match e.flag() {
            Some(f) => f.bits() & BUTTON_EVENT_FLAG_BITS != 0,
            None => false,
        };
        assert_eq!(e.is_button_event(), expected, "{:?}", e);
    }
    assert!(ClipEvent::Press { index: 0 }.is_button_event());
    assert!(!ClipEvent::MouseUp.is_button_event());
}

#[test]
fn key_events_are_the_three_keyboard_variants() {
    for e in all_events() {
        let expected = matches!(
            e,
            ClipEvent::KeyDown | ClipEvent::KeyUp | ClipEvent::KeyPress { .. }
        );
        assert_eq!(e.is_key_event(), expected, "{:?}", e);
    }
}

#[test]
fn method_names_match_the_handler_vocabulary() {
    let named: Vec<(ClipEvent, &str)> = vec![
        (ClipEvent::DragOut { to: None }, "onDragOut"),
        (ClipEvent::DragOver { from: None }, "onDragOver"),
        (ClipEvent::EnterFrame, "onEnterFrame"),
        (ClipEvent::KeyDown, "onKeyDown"),
        (ClipEvent::KeyUp, "onKeyUp"),
        (ClipEvent::Load, "onLoad"),
        (ClipEvent::MouseDown, "onMouseDown"),
        (ClipEvent::MouseMove, "onMouseMove"),
        (ClipEvent::MouseUp, "onMouseUp"),
        (ClipEvent::Press { index: 0 }, "onPress"),
        (ClipEvent::RollOut { to: None }, "onRollOut"),
        (ClipEvent::RollOver { from: None }, "onRollOver"),
        (ClipEvent::Release { index: 2 }, "onRelease"),
        (ClipEvent::ReleaseOutside, "onReleaseOutside"),
        (ClipEvent::Unload, "onUnload"),
    ];
    for (e, name) in named {
        assert_eq!(e.method_name().as_deref(), Some(name), "{:?}", e);
    }
}

#[test]
fn deliberately_unnamed_variants_yield_no_method_name() {
    assert_eq!(ClipEvent::Data.method_name(), None);
    assert_eq!(ClipEvent::Construct.method_name(), None);
    assert_eq!(ClipEvent::Initialize.method_name(), None);
    assert_eq!(
        ClipEvent::KeyPress { key_code: ButtonKeyCode::Return }.method_name(),
        None
    );
    assert_eq!(ClipEvent::MouseWheel { delta: MouseWheelDeltaRaw::Pixels(0) }.method_name(), None);
    assert_eq!(ClipEvent::RightMouseUp.method_name(), None);
    assert_eq!(ClipEvent::MouseMoveInside.method_name(), None);
}

#[test]
fn button_event_methods_list_the_seven_button_handlers() {
    assert_eq!(
        BUTTON_EVENT_METHODS,
        [
            "onDragOver",
            "onDragOut",
            "onPress",
            "onRelease",
            "onReleaseOutside",
            "onRollOut",
            "onRollOver",
        ]
    );
}

#[test]
fn clip_event_result_from_bool() {
    assert_eq!(ClipEventResult::from(true), ClipEventResult::Handled);
    assert_eq!(ClipEventResult::from(false), ClipEventResult::NotHandled);
}

#[test]
fn flag_mask_operations() {
    let f = ClipEventFlag::from_bits_truncate(0xFFFF_FFFF);
    assert_eq!(f.bits(), 0x7FFFF);
    let press = ClipEventFlag::from_bits_truncate(1 << 10);
    let release = ClipEventFlag::from_bits_truncate(1 << 11);
    assert!(!press.intersects(release));
    let both = press.union(release);
    assert!(both.intersects(press));
    assert!(both.contains(release));
    assert!(!press.contains(both));
}
