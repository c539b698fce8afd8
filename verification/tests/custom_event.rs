use ruffle_android::custom_event::{
    button_code_to_mouse_button, context_menu_event, post_event, virtual_key_event,
    virtual_mouse_event, KeyDescriptor, LogicalKey, MouseButton, PostOutcome, RuffleEvent,
};

type Event = RuffleEvent<(), u32>;

#[test]
fn button_codes() {
    assert_eq!(button_code_to_mouse_button(0), MouseButton::Left);
    assert_eq!(button_code_to_mouse_button(1), MouseButton::Right);
    assert_eq!(button_code_to_mouse_button(2), MouseButton::Middle);
    assert_eq!(button_code_to_mouse_button(3), MouseButton::Left);
    assert_eq!(button_code_to_mouse_button(-1), MouseButton::Left);
    assert_eq!(button_code_to_mouse_button(i32::MAX), MouseButton::Left);
}

#[test]
fn known_keys_make_events() {
    let key = KeyDescriptor { key: 29, logical_key: LogicalKey::Character('a') };
    let event: Option<Event> = virtual_key_event(true, Some(key));
    assert_eq!(
        event,
        Some(RuffleEvent::VirtualKeyEvent {
            down: true,
            key_descriptor: KeyDescriptor { key: 29, logical_key: LogicalKey::Character('a') },
        })
    );
}

#[test]
fn unknown_keys_make_no_event() {
    let event: Option<Event> = virtual_key_event(false, None);
    assert_eq!(event, None);
}

#[test]
fn mouse_events_carry_the_button() {
    let event: Event = virtual_mouse_event(false, 2);
    assert_eq!(
        event,
        RuffleEvent::VirtualMouseEvent { down: false, button: MouseButton::Middle }
    );
}

#[test]
fn menu_items_are_carried_through() {
    let event: Event = context_menu_event(4);
    assert_eq!(event, RuffleEvent::RunContextMenuCallback(4));
    let event: Event = context_menu_event(0);
    assert_eq!(event, RuffleEvent::RunContextMenuCallback(0));
}

#[test]
fn negative_menu_items_are_out_of_range() {
    let event: Event = context_menu_event(-1);
    assert_eq!(event, RuffleEvent::RunContextMenuCallback(usize::MAX));
    let event: Event = context_menu_event(i32::MIN);
    assert_eq!(
        event,
        RuffleEvent::RunContextMenuCallback(usize::MAX - 0x7fff_ffff)
    );
}

#[test]
fn posting_an_event() {
    assert_eq!(
        post_event::<String>(Ok(true)),
        PostOutcome { queued: true, clear_exception: false }
    );
    assert_eq!(
        post_event::<String>(Ok(false)),
        PostOutcome { queued: false, clear_exception: false }
    );
    assert_eq!(
        post_event(Err("no such field".to_string())),
        PostOutcome { queued: false, clear_exception: true }
    );
}
