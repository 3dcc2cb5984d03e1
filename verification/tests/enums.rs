use fable_data::def::enums::{
    ActionType, ControllerType, DefEnum, DialogueLayer, InputKey, Sprite2dFlags, TableExpansion,
    UiType,
};

#[test]
fn enum_round_trip_and_symbols() {
    assert_eq!(UiType::from_i32(32), Some(UiType::MousePointer));
    assert_eq!(UiType::MousePointer.to_i32(), 32);
    assert_eq!(UiType::MousePointer.symbol(), "UI_TYPE_MOUSE_POINTER");
    assert_eq!(UiType::from_symbol("UI_TYPE_MOUSE_POINTER"), Some(UiType::MousePointer));
    assert_eq!(UiType::from_i32(99), None);
}

#[test]
fn controller_dispatch_values() {
    // The CActionInputControl slot dispatch relies on these exact values.
    assert_eq!(ControllerType::XboxPad.to_i32(), 1);
    assert_eq!(ControllerType::Keyboard.to_i32(), 2);
    assert_eq!(ControllerType::Mouse.to_i32(), 3);
}

#[test]
fn keyboard_keys_sequential_start() {
    assert_eq!(InputKey::from_i32(0), Some(InputKey::Null));
    assert_eq!(InputKey::from_i32(12), Some(InputKey::Minus));
}

#[test]
fn flags_lossless() {
    // game.bin contains OR'd expansion values; must round-trip.
    let both = TableExpansion::from_i32(3);
    assert!(both.contains(TableExpansion(TableExpansion::HORIZONTAL)));
    assert!(both.contains(TableExpansion(TableExpansion::VERTICAL)));
    assert_eq!(both.to_i32(), 3);
    assert_eq!(
        (TableExpansion(TableExpansion::HORIZONTAL) | TableExpansion(TableExpansion::VERTICAL)).to_i32(),
        3
    );
    assert!(Sprite2dFlags::from_i32(0).is_empty());
}

#[test]
fn renamed_variants_keep_their_symbols() {
    assert_eq!(UiType::OkDialog.symbol(), "UI_TYPE_OK");
    assert_eq!(UiType::from_i32(26), Some(UiType::OkDialog));
    assert_eq!(ControllerType::NoController.symbol(), "CONTROLLER_NONE");
    assert_eq!(ControllerType::from_symbol("CONTROLLER_NONE"), Some(ControllerType::NoController));
}

#[test]
fn every_value_round_trips() {
    for v in -2..400 {
        if let Some(e) = ActionType::from_i32(v) {
            assert_eq!(e.to_i32(), v);
            assert_eq!(ActionType::from_symbol(e.symbol()), Some(e));
        }
    }
    for v in 0..4 {
        let e = DialogueLayer::from_i32(v).unwrap();
        assert_eq!(DialogueLayer::from_symbol(e.symbol()), Some(e));
    }
    assert_eq!(DialogueLayer::from_i32(4), None);
    assert_eq!(DialogueLayer::from_symbol("DIALOGUE_LAYER_NOWHERE"), None);
}

#[test]
fn flag_symbols_name_single_flags() {
    assert_eq!(
        TableExpansion::from_symbol("TABLE_EXPANSION_VERTICAL"),
        Some(TableExpansion(TableExpansion::VERTICAL))
    );
    assert_eq!(TableExpansion::from_symbol("TABLE_EXPANSION_DIAGONAL"), None);
    assert!(!TableExpansion::from_i32(1).contains(TableExpansion(TableExpansion::VERTICAL)));
    assert!(!TableExpansion::from_i32(1).is_empty());
}
