//! The C++ symbol tables of the def enumerations: which symbol has which
//! value. A variant's wire value is the value its symbol has in its table.

use vstd::prelude::*;

use crate::def::enums::{
    DefEnum, UiType, TextAlignment, StateChangeType, ActionType, TableSprites, EngineGraphicType, GameAction, ControllerType, XboxControllerButton, MouseButtonControl, InputKey, ActionRegisteredType, ClockHandType, ClothingSuitPart, CombatCreatureType, CombatSequenceInterruptionType, CombatSequenceIsValidType, CombatSequenceOnStartModuleType, CombatSequenceOnStopModuleType, CombatSequenceType, CombatStrikeRecoilStyle, CompositeBlendType, ContextSensitiveType, ControlledMovementType, CreatureAbility, CreatureGeneratorGenerateType, CreatureType, CrimeSeverity, DamageAttribute, DoorTriggerType, ExpressionInventoryType, FeatAttackType, GameEventType, GiftType, HeroAbility, HeroAttachableAppearanceModifierType, HeroExperienceStatCategory, HeroTitle, HeroTrainingStatus, LightingChannel, MessageEventType, MinimapThemeType, NavigatorType, NoiseType, PerceivedThingType, PointLightChannelEffect, QuakeLength, QuakeStrength, ReactionSpeechType, ReverbEnvironmentType, ScriptingStateGroups, Sex, TavernGameControlType, ThingCreatureProperty, TrapTriggerType, TrapType, TutorialCategory, WallMountEffects, WaterType, WeaponClass, WeaponType, DialogueLayer,
};

verus! {

/// The C++ symbol whose value in the [`UiType`] table is `value`.
pub open spec fn ui_type_symbol_at(value: i32) -> Option<Seq<char>> {
    match value {
        0i32 => Some("UI_TYPE_SPRITE"@),
        1i32 => Some("UI_TYPE_MORPHING_SPRITE"@),
        2i32 => Some("UI_TYPE_TABLE"@),
        3i32 => Some("UI_TYPE_MESH"@),
        4i32 => Some("UI_TYPE_COMPOSITE"@),
        5i32 => Some("UI_TYPE_CHANGING_STATE_COMPOSITE"@),
        6i32 => Some("UI_TYPE_TEXT"@),
        7i32 => Some("UI_TYPE_MENU_ENTRY"@),
        8i32 => Some("UI_TYPE_LIST"@),
        9i32 => Some("UI_TYPE_VIEWPORT"@),
        10i32 => Some("UI_TYPE_FRONTEND_SCREEN"@),
        11i32 => Some("UI_TYPE_FRONTEND_BUTTON"@),
        12i32 => Some("UI_TYPE_FRONTEND_LIST"@),
        13i32 => Some("UI_TYPE_SCROLLING_VIEWPORT"@),
        14i32 => Some("UI_TYPE_LIST_ARROW"@),
        15i32 => Some("UI_TYPE_SLIDER"@),
        16i32 => Some("UI_TYPE_TEXT_SLIDER"@),
        17i32 => Some("UI_TYPE_MOVIE"@),
        18i32 => Some("UI_TYPE_SWAPPING_STATE_COMPOSITE"@),
        19i32 => Some("UI_TYPE_SCROLLING_COMPOSITE"@),
        20i32 => Some("UI_TYPE_TEXT_CONTAINER"@),
        21i32 => Some("UI_TYPE_ZOOMING_COMPOSITE"@),
        22i32 => Some("UI_TYPE_COMPONENT_CONTAINER"@),
        23i32 => Some("UI_TYPE_SPELL_CONTAINER"@),
        24i32 => Some("UI_TYPE_SPELL_CONTAINER_LIST"@),
        25i32 => Some("UI_TYPE_YESNO"@),
        26i32 => Some("UI_TYPE_OK"@),
        27i32 => Some("UI_TYPE_PARTICLE_EFFECT"@),
        28i32 => Some("UI_TYPE_CONTROLLERDISCONNECT"@),
        29i32 => Some("UI_TYPE_DIRTYDISC"@),
        30i32 => Some("UI_TYPE_ICON_TEXT"@),
        31i32 => Some("UI_TYPE_DYNAMIC_LIST"@),
        32i32 => Some("UI_TYPE_MOUSE_POINTER"@),
        33i32 => Some("UI_TYPE_HOVERABLE"@),
        34i32 => Some("UI_TYPE_CLICKABLE"@),
        35i32 => Some("UI_TYPE_DRAGGABLE"@),
        36i32 => Some("UI_TYPE_DRAGGABLE_INTO"@),
        37i32 => Some("UI_TYPE_EDIT_BOX"@),
        38i32 => Some("UI_TYPE_NAVIGATION_BUTTON"@),
        39i32 => Some("UI_TYPE_KEY_REDEFINER"@),
        40i32 => Some("UI_TYPE_REDEFINER_LIST"@),
        41i32 => Some("UI_TYPE_SCROLLBAR"@),
        42i32 => Some("UI_TYPE_SCROLLBAR_OUTSIDE"@),
        43i32 => Some("UI_TYPE_SCROLLABLE_LIST"@),
        _ => None,
    }
}

/// Each [`UiType`] variant is written as the value its C++ symbol has in
/// the table, and each table value reads back the variant of its symbol.
#[verifier::rlimit(50)]
pub proof fn lemma_ui_type_symbols(e: UiType, v: i32)
    ensures
        ui_type_symbol_at(e.wire_value()) == Some(e.symbol_of()),
        UiType::lookup(v) matches Some(x) ==> ui_type_symbol_at(v) == Some(x.symbol_of()),
        UiType::lookup(v) is None <==> ui_type_symbol_at(v) is None,
{
    match e {
        UiType::Sprite => {},
        UiType::MorphingSprite => {},
        UiType::Table => {},
        UiType::Mesh => {},
        UiType::Composite => {},
        UiType::ChangingStateComposite => {},
        UiType::Text => {},
        UiType::MenuEntry => {},
        UiType::List => {},
        UiType::Viewport => {},
        UiType::FrontendScreen => {},
        UiType::FrontendButton => {},
        UiType::FrontendList => {},
        UiType::ScrollingViewport => {},
        UiType::ListArrow => {},
        UiType::Slider => {},
        UiType::TextSlider => {},
        UiType::Movie => {},
        UiType::SwappingStateComposite => {},
        UiType::ScrollingComposite => {},
        UiType::TextContainer => {},
        UiType::ZoomingComposite => {},
        UiType::ComponentContainer => {},
        UiType::SpellContainer => {},
        UiType::SpellContainerList => {},
        UiType::YesNo => {},
        UiType::OkDialog => {},
        UiType::ParticleEffect => {},
        UiType::ControllerDisconnect => {},
        UiType::DirtyDisc => {},
        UiType::IconText => {},
        UiType::DynamicList => {},
        UiType::MousePointer => {},
        UiType::Hoverable => {},
        UiType::Clickable => {},
        UiType::Draggable => {},
        UiType::DraggableInto => {},
        UiType::EditBox => {},
        UiType::NavigationButton => {},
        UiType::KeyRedefiner => {},
        UiType::RedefinerList => {},
        UiType::Scrollbar => {},
        UiType::ScrollbarOutside => {},
        UiType::ScrollableList => {},
    }
}

/// The C++ symbol whose value in the [`TextAlignment`] table is `value`.
pub open spec fn text_alignment_symbol_at(value: i32) -> Option<Seq<char>> {
    match value {
        0i32 => Some("LEFT"@),
        1i32 => Some("CENTER"@),
        2i32 => Some("RIGHT"@),
        _ => None,
    }
}

/// Each [`TextAlignment`] variant is written as the value its C++ symbol has in
/// the table, and each table value reads back the variant of its symbol.
pub proof fn lemma_text_alignment_symbols(e: TextAlignment, v: i32)
    ensures
        text_alignment_symbol_at(e.wire_value()) == Some(e.symbol_of()),
        TextAlignment::lookup(v) matches Some(x) ==> text_alignment_symbol_at(v) == Some(x.symbol_of()),
        TextAlignment::lookup(v) is None <==> text_alignment_symbol_at(v) is None,
{
    match e {
        TextAlignment::Left => {},
        TextAlignment::Center => {},
        TextAlignment::Right => {},
    }
}

/// The C++ symbol whose value in the [`StateChangeType`] table is `value`.
pub open spec fn state_change_type_symbol_at(value: i32) -> Option<Seq<char>> {
    match value {
        0i32 => Some("STATE_CHANGE_SIMULTANEOUS"@),
        1i32 => Some("STATE_CHANGE_PARENT_FIRST"@),
        2i32 => Some("STATE_CHANGE_CHILDREN_FIRST"@),
        3i32 => Some("STATE_CHANGE_PARENT_ONLY"@),
        4i32 => Some("STATE_CHANGE_CHILDREN_ONLY"@),
        _ => None,
    }
}

/// Each [`StateChangeType`] variant is written as the value its C++ symbol has in
/// the table, and each table value reads back the variant of its symbol.
pub proof fn lemma_state_change_type_symbols(e: StateChangeType, v: i32)
    ensures
        state_change_type_symbol_at(e.wire_value()) == Some(e.symbol_of()),
        StateChangeType::lookup(v) matches Some(x) ==> state_change_type_symbol_at(v) == Some(x.symbol_of()),
        StateChangeType::lookup(v) is None <==> state_change_type_symbol_at(v) is None,
{
    match e {
        StateChangeType::Simultaneous => {},
        StateChangeType::ParentFirst => {},
        StateChangeType::ChildrenFirst => {},
        StateChangeType::ParentOnly => {},
        StateChangeType::ChildrenOnly => {},
    }
}

/// The C++ symbol whose value in the [`ActionType`] table is `value`.
pub open spec fn action_type_symbol_at(value: i32) -> Option<Seq<char>> {
    match value {
        0i32 => Some("UI_ACTION_TYPE_NONE"@),
        1i32 => Some("UI_ACTION_TYPE_WIELD"@),
        2i32 => Some("UI_ACTION_TYPE_AUGMENT"@),
        3i32 => Some("UI_ACTION_TYPE_CHANGESTATE"@),
        4i32 => Some("UI_ACTION_TYPE_TAKE_BOAST"@),
        5i32 => Some("UI_ACTION_TYPE_TELEPORT"@),
        6i32 => Some("UI_ACTION_TYPE_TAKE_QUEST"@),
        7i32 => Some("UI_ACTION_TYPE_BUY_STAT"@),
        8i32 => Some("UI_ACTION_TYPE_BUY_ABILITY"@),
        9i32 => Some("UI_ACTION_TYPE_NEXT_SCREEN_OPTIONS"@),
        10i32 => Some("UI_ACTION_TYPE_NEXT_SCREEN_LIVE_AWARE"@),
        11i32 => Some("UI_ACTION_TYPE_NEXT_SCREEN_EXTRAS"@),
        12i32 => Some("UI_ACTION_TYPE_NEXT_SCREEN_AUDIO_OPTIONS"@),
        13i32 => Some("UI_ACTION_TYPE_NEXT_SCREEN_VIDEO_OPTIONS"@),
        14i32 => Some("UI_ACTION_TYPE_NEXT_SCREEN_CAMERA_OPTIONS"@),
        15i32 => Some("UI_ACTION_TYPE_NEW_GAME"@),
        16i32 => Some("UI_ACTION_TYPE_NEXT_SCREEN_PROFILES"@),
        17i32 => Some("UI_ACTION_TYPE_LOAD_GAME"@),
        18i32 => Some("UI_ACTION_TYPE_LOGIN"@),
        19i32 => Some("UI_ACTION_TYPE_FRIENDS"@),
        20i32 => Some("UI_ACTION_TYPE_APPEAR_OFFLINE"@),
        21i32 => Some("UI_ACTION_TYPE_DELETE"@),
        22i32 => Some("UI_ACTION_TYPE_ADD_CHILD"@),
        23i32 => Some("UI_ACTION_TYPE_ADD_CHILD_AUGMENTATION"@),
        24i32 => Some("UI_ACTION_TYPE_DELETE_ALL"@),
        25i32 => Some("UI_ACTION_TYPE_USE_ITEM"@),
        26i32 => Some("UI_ACTION_TYPE_ITEM_ASSIGN_LEFT"@),
        27i32 => Some("UI_ACTION_TYPE_ITEM_ASSIGN_RIGHT"@),
        28i32 => Some("UI_ACTION_TYPE_ITEM_ASSIGN_DOWN"@),
        29i32 => Some("UI_ACTION_TYPE_ITEM_ASSIGN_UP"@),
        30i32 => Some("UI_ACTION_TYPE_CLOTHING_WEAR"@),
        31i32 => Some("UI_ACTION_TYPE_UPDATE_MANNEQUIN_CLOTHING"@),
        36i32 => Some("UI_ACTION_TYPE_BUY"@),
        37i32 => Some("UI_ACTION_TYPE_SELL"@),
        38i32 => Some("UI_ACTION_TYPE_DELETE_PREVIOUS"@),
        39i32 => Some("UI_ACTION_TYPE_RESET_CLOTHING_MANNEQUIN"@),
        40i32 => Some("UI_ACTION_TYPE_SET_BRIGHTNESS"@),
        41i32 => Some("UI_ACTION_TYPE_SET_SOUND"@),
        42i32 => Some("UI_ACTION_TYPE_SET_MUSIC"@),
        43i32 => Some("UI_ACTION_TYPE_SET_CAMERA_ROTATION"@),
        44i32 => Some("UI_ACTION_TYPE_SET_CAMERA_UP_DOWN"@),
        45i32 => Some("UI_ACTION_TYPE_SET_VIBRATION"@),
        46i32 => Some("UI_ACTION_TYPE_SET_HEADPHONES"@),
        47i32 => Some("UI_ACTION_TYPE_SET_SUBTITLES"@),
        48i32 => Some("UI_ACTION_TYPE_OPEN_MAP"@),
        49i32 => Some("UI_ACTION_TYPE_OPEN_ABILITIES"@),
        50i32 => Some("UI_ACTION_TYPE_OPEN_WEAPONS"@),
        51i32 => Some("UI_ACTION_TYPE_OPEN_STATS"@),
        52i32 => Some("UI_ACTION_TYPE_OPEN_CLOTHING"@),
        53i32 => Some("UI_ACTION_TYPE_OPEN_ITEMS"@),
        54i32 => Some("UI_ACTION_TYPE_CLOSE_MAP"@),
        55i32 => Some("UI_ACTION_TYPE_CLOSE_ABILITIES"@),
        56i32 => Some("UI_ACTION_TYPE_CLOSE_WEAPONS"@),
        57i32 => Some("UI_ACTION_TYPE_CLOSE_STATS"@),
        58i32 => Some("UI_ACTION_TYPE_CLOSE_CLOTHING"@),
        59i32 => Some("UI_ACTION_TYPE_CLOSE_ITEMS"@),
        60i32 => Some("UI_ACTION_TYPE_CLOSE_MENU"@),
        61i32 => Some("UI_ACTION_TYPE_GUILD_SEAL_RECALL"@),
        62i32 => Some("UI_ACTION_TYPE_LOAD"@),
        63i32 => Some("UI_ACTION_TYPE_SAVE"@),
        64i32 => Some("UI_ACTION_TYPE_CLOSE_PAUSE_MENU"@),
        65i32 => Some("UI_ACTION_TYPE_PLAY_MOVIE"@),
        66i32 => Some("UI_ACTION_TYPE_NEXT_SCREEN_PROFILES_SAVED_GAMES"@),
        67i32 => Some("UI_ACTION_TYPE_NEXT_SCREEN_CREDITS"@),
        68i32 => Some("UI_ACTION_TYPE_CONSTRUCT_WEAPONS_LIST"@),
        69i32 => Some("UI_ACTION_TYPE_CONSTRUCT_CLOTHING_LIST"@),
        70i32 => Some("UI_ACTION_TYPE_CONSTRUCT_ITEMS_LIST"@),
        71i32 => Some("UI_ACTION_TYPE_CONSTRUCT_SKILLS_LIST"@),
        72i32 => Some("UI_ACTION_TYPE_CONSTRUCT_QUESTS_LIST"@),
        73i32 => Some("UI_ACTION_TYPE_CONSTRUCT_MAP_LIST"@),
        74i32 => Some("UI_ACTION_TYPE_CONSTRUCT_STATS_LIST"@),
        75i32 => Some("UI_ACTION_TYPE_CHANGE_CHILD_STATE"@),
        76i32 => Some("UI_ACTION_TYPE_CONSTRUCT_EXPERIENCE_LIST"@),
        77i32 => Some("UI_ACTION_TYPE_CONSTRUCT_PERSONALITY_LIST"@),
        78i32 => Some("UI_ACTION_TYPE_SET_HUD"@),
        79i32 => Some("UI_ACTION_TYPE_CLOSE_QUICK_ACCESS_MENU"@),
        80i32 => Some("UI_ACTION_TYPE_CLOSE_TELEPORT_MENU"@),
        81i32 => Some("UI_ACTION_TYPE_BUY_BULK"@),
        82i32 => Some("UI_ACTION_TYPE_SELL_BULK"@),
        83i32 => Some("UI_ACTION_TYPE_SET_TUTORIALS"@),
        84i32 => Some("UI_ACTION_TYPE_SET_SHOW_BUDDY_NAMES"@),
        85i32 => Some("UI_ACTION_TYPE_QUIT_TO_FRONT_END"@),
        86i32 => Some("UI_ACTION_TYPE_PREVIOUS_SCREEN"@),
        87i32 => Some("UI_ACTION_TYPE_ACCEPT_CHANGES"@),
        88i32 => Some("UI_ACTION_TYPE_SET_DIALOGUE"@),
        89i32 => Some("UI_ACTION_TYPE_XLIVE"@),
        90i32 => Some("UI_ACTION_TYPE_XLIVE_BACK"@),
        91i32 => Some("UI_ACTION_TYPE_LOGOUT"@),
        92i32 => Some("UI_ACTION_TYPE_DEMOS"@),
        93i32 => Some("UI_ACTION_TYPE_SET_GUILD_MASTER"@),
        94i32 => Some("UI_ACTION_TYPE_SET_HUD_TOOLTIPS"@),
        200i32 => Some("UI_ACTION_TYPE_UNDO_BUY_ABILITY"@),
        201i32 => Some("UI_ACTION_TYPE_UNDO_BUY_STAT"@),
        202i32 => Some("UI_ACTION_TYPE_GIVE_EXCLUSIVE_INPUT"@),
        203i32 => Some("UI_ACTION_TYPE_REMOVE_EXCLUSIVE_INPUT"@),
        204i32 => Some("UI_ACTION_TYPE_SEND_BACK_EVENT"@),
        205i32 => Some("UI_ACTION_TYPE_SHOW_SPELL_SELECTION"@),
        206i32 => Some("UI_ACTION_TYPE_SET_SPELL_TO_ASSIGN"@),
        207i32 => Some("UI_ACTION_TYPE_TELEPORT_TO_BOAST"@),
        208i32 => Some("UI_ACTION_TYPE_DROP_QUEST"@),
        209i32 => Some("UI_ACTION_TYPE_ASSIGN_SPELL"@),
        210i32 => Some("UI_ACTION_TYPE_UNASSIGN_SPELL"@),
        211i32 => Some("UI_ACTION_TYPE_RESET_ASSIGNED_SPELLS"@),
        212i32 => Some("UI_ACTION_TYPE_CHANGE_ALPHA"@),
        213i32 => Some("UI_ACTION_TYPE_CHANGE_NUMBER"@),
        214i32 => Some("UI_ACTION_TYPE_DELETE_PROFILE"@),
        215i32 => Some("UI_ACTION_TYPE_GO_TO_DELETE_PROFILE_SCREEN"@),
        216i32 => Some("UI_ACTION_TYPE_POP_MAP_STATE"@),
        219i32 => Some("UI_ACTION_TYPE_NEXT_SCREEN_INVALID_PROFILE"@),
        220i32 => Some("UI_ACTION_TYPE_NEXT_SCREEN_INVALID_SAVE"@),
        221i32 => Some("UI_ACTION_TYPE_FREE_SPACE_ON_T"@),
        222i32 => Some("UI_ACTION_TYPE_FREE_SPACE_ON_U"@),
        223i32 => Some("UI_ACTION_TYPE_FLASH_DPAD_DOWN"@),
        224i32 => Some("UI_ACTION_TYPE_FLASH_DPAD_UP"@),
        225i32 => Some("UI_ACTION_TYPE_FLASH_DPAD_LEFT"@),
        226i32 => Some("UI_ACTION_TYPE_FLASH_DPAD_RIGHT"@),
        227i32 => Some("UI_ACTION_TYPE_STOP_DPAD_FLASHING"@),
        228i32 => Some("UI_ACTION_TYPE_CONSTRUCT_LOGBOOK_LIST"@),
        229i32 => Some("UI_ACTION_TYPE_GO_TO_MAIN_MENU_FROM_START"@),
        230i32 => Some("UI_ACTION_TYPE_SEND_OWNED_EVENT"@),
        231i32 => Some("UI_ACTION_TYPE_SEND_EVENT"@),
        232i32 => Some("UI_ACTION_TYPE_MOVE_COMPONENT"@),
        233i32 => Some("UI_ACTION_TYPE_EXIT_LIVE_GUI"@),
        234i32 => Some("UI_ACTION_TYPE_OPEN_PC_SKILLS_MENU"@),
        235i32 => Some("UI_ACTION_TYPE_CONSTRUCT_EXPRESSIONS_LIST"@),
        236i32 => Some("UI_ACTION_TYPE_SCROLL_ACTIVE_LIST_UP"@),
        237i32 => Some("UI_ACTION_TYPE_SCROLL_ACTIVE_LIST_DOWN"@),
        238i32 => Some("UI_ACTION_TYPE_OPEN_PC_INVENTORY_MENU"@),
        239i32 => Some("UI_ACTION_TYPE_OPEN_PC_OPTIONS_MENU"@),
        240i32 => Some("UI_ACTION_TYPE_CONSTRUCT_PC_STYLE_CARDS_LIST"@),
        241i32 => Some("UI_ACTION_TYPE_OPEN_PC_BUY_TRADING_GOODS_LIST"@),
        242i32 => Some("UI_ACTION_TYPE_CLOSE_PC_BUY_TRADING_GOODS_LIST"@),
        243i32 => Some("UI_ACTION_TYPE_CONSTRUCT_MAGIC_LIST_PC"@),
        244i32 => Some("UI_ACTION_TYPE_ASSIGN_SPELL_PC"@),
        245i32 => Some("UI_ACTION_TYPE_OBSERVE_EVENT"@),
        246i32 => Some("UI_ACTION_TYPE_SET_SPELL_TO_ASSIGN_PC"@),
        247i32 => Some("UI_ACTION_TYPE_RESET_ASSIGNED_SPELLS_PC"@),
        248i32 => Some("UI_ACTION_TYPE_UNASSIGN_SPELL_PC"@),
        249i32 => Some("UI_ACTION_TYPE_IGNORE_EVENT"@),
        250i32 => Some("UI_ACTION_TYPE_NEXT_SCREEN_PROFILES_FOR_DELETE"@),
        251i32 => Some("UI_ACTION_TYPE_ASSIGN_EXPRESSION_ITEM_PC"@),
        252i32 => Some("UI_ACTION_TYPE_UNASSIGN_EXPRESSION_ITEM_PC"@),
        253i32 => Some("UI_ACTION_TYPE_SET_EXPRESSION_ITEM_TO_ASSIGN_PC"@),
        254i32 => Some("UI_ACTION_TYPE_OPEN_PC_MAP_MENU"@),
        255i32 => Some("UI_ACTION_TYPE_OPEN_PC_STATUS_MENU"@),
        256i32 => Some("UI_ACTION_TYPE_OPEN_PC_LOG_BOOK"@),
        257i32 => Some("UI_ACTION_TYPE_CONSTRUCT_PC_QUESTS_LIST"@),
        258i32 => Some("UI_ACTION_TYPE_SET_RESOLUTION"@),
        259i32 => Some("UI_ACTION_TYPE_SET_SHADOW_DETAIL"@),
        260i32 => Some("UI_ACTION_TYPE_SET_DECALS"@),
        261i32 => Some("UI_ACTION_TYPE_SET_WEATHER_EFFECTS"@),
        262i32 => Some("UI_ACTION_TYPE_SET_VERTICAL_SYNC"@),
        263i32 => Some("UI_ACTION_TYPE_SET_GLOW_EFFECTS"@),
        264i32 => Some("UI_ACTION_TYPE_SET_REVERSE_STEREO"@),
        265i32 => Some("UI_ACTION_TYPE_SET_ANTIALIASING"@),
        266i32 => Some("UI_ACTION_TYPE_SET_TEXTURE_DETAIL"@),
        267i32 => Some("UI_ACTION_TYPE_SET_MESH_RESOLUTION"@),
        268i32 => Some("UI_ACTION_TYPE_SET_WATER_REFLECTION"@),
        269i32 => Some("UI_ACTION_TYPE_SET_LANDSCAPE_DETAIL"@),
        270i32 => Some("UI_ACTION_TYPE_SET_PARTICLE_DETAIL"@),
        271i32 => Some("UI_ACTION_TYPE_ADD_OBSERVER"@),
        272i32 => Some("UI_ACTION_TYPE_SCROLL_ACTIVE_LIST_UNTIL_CHILD_CONTAINING"@),
        273i32 => Some("UI_ACTION_TYPE_GO_BACK"@),
        274i32 => Some("UI_ACTION_TYPE_CLOSE_ACTIVE_MENU"@),
        275i32 => Some("UI_ACTION_TYPE_REMOVE_OBSERVER"@),
        276i32 => Some("UI_ACTION_TYPE_TAVERN_GAME_BET_DOWN"@),
        277i32 => Some("UI_ACTION_TYPE_TAVERN_GAME_BET_UP"@),
        278i32 => Some("UI_ACTION_TYPE_RESPAWN"@),
        279i32 => Some("UI_ACTION_TYPE_CONTINUE"@),
        280i32 => Some("UI_ACTION_TYPE_OPEN_PC_SELL_TRADING_GOODS_LIST"@),
        281i32 => Some("UI_ACTION_TYPE_OPEN_PC_WANTED_TRADING_GOODS_LIST"@),
        282i32 => Some("UI_ACTION_TYPE_CONSTRUCT_PC_EXPERIENCE_LIST"@),
        283i32 => Some("UI_ACTION_TYPE_GO_TO_REDEFINE_KEYS_MENU"@),
        284i32 => Some("UI_ACTION_TYPE_RESET_KEYS"@),
        285i32 => Some("UI_ACTION_TYPE_ASSIGN_SPELL_TO_ITEM_SLOT_PC"@),
        286i32 => Some("UI_ACTION_TYPE_CONSTRUCT_STYLE_CARDS_LIST"@),
        287i32 => Some("UI_ACTION_TYPE_SCROLL_DESCRIPTION_DOWN"@),
        288i32 => Some("UI_ACTION_TYPE_SCROLL_DESCRIPTION_UP"@),
        289i32 => Some("UI_ACTION_TYPE_CONSTRUCT_PC_PERSONALITY_LIST"@),
        291i32 => Some("UI_ACTION_TYPE_SEND_OWNED_EVENT_FORCE_OBSERVATION"@),
        292i32 => Some("UI_ACTION_TYPE_GO_TO_MAIN_MENU_FROM_PROFILE_LIST"@),
        293i32 => Some("UI_ACTION_TYPE_NEW_PROFILE"@),
        294i32 => Some("UI_ACTION_TYPE_NEW_PROFILE_RETURN_PRESSED"@),
        295i32 => Some("UI_ACTION_TYPE_NEW_PROFILE_ESCAPE_PRESSED"@),
        296i32 => Some("UI_ACTION_TYPE_QUIT_GAME"@),
        297i32 => Some("UI_ACTION_TYPE_NEXT_SCREEN_OPTIONS_SUB_MENU"@),
        298i32 => Some("UI_ACTION_TYPE_SET_MESH_DETAIL"@),
        299i32 => Some("UI_ACTION_TYPE_SET_EFFECTS_DETAIL"@),
        300i32 => Some("UI_ACTION_TYPE_SET_SCREEN_ASPECT_RATIO"@),
        301i32 => Some("UI_ACTION_TYPE_APPLY_PROFILE_VALUES"@),
        302i32 => Some("UI_ACTION_TYPE_CLOSE_ACTIVE_TRADE_MENU"@),
        303i32 => Some("UI_ACTION_TYPE_SCROLL_ACTIVE_LIST_DOWN_MAX"@),
        304i32 => Some("UI_ACTION_TYPE_SCROLL_ACTIVE_LIST_UP_MAX"@),
        305i32 => Some("UI_ACTION_TYPE_SCROLL_DESCRIPTION_DOWN_MAX"@),
        306i32 => Some("UI_ACTION_TYPE_SCROLL_DESCRIPTION_UP_MAX"@),
        307i32 => Some("UI_ACTION_TYPE_SCROLL_DESCRIPTION_DOWN_ONE_PIXEL"@),
        308i32 => Some("UI_ACTION_TYPE_SCROLL_DESCRIPTION_UP_ONE_PIXEL"@),
        309i32 => Some("UI_ACTION_TYPE_CLOSE_TRADE_MENU_IF_LEAF"@),
        310i32 => Some("UI_ACTION_TYPE_EXIT_LIVE_GUI_IF_LEAF"@),
        311i32 => Some("UI_ACTION_TYPE_RESET_KEYS_WASD"@),
        312i32 => Some("UI_ACTION_TYPE_NEXT_SCREEN_OPTIONS_SCOREBOARD"@),
        313i32 => Some("UI_ACTION_TYPE_SET_CONTROL_METHOD"@),
        314i32 => Some("UI_ACTION_TYPE_GOTO_QUIT_PROMPT"@),
        315i32 => Some("UI_ACTION_TYPE_PC_QUIT_TO_FRONT_END"@),
        316i32 => Some("UI_ACTION_TYPE_PC_ACCEPT_VIDEO_CHANGES"@),
        317i32 => Some("UI_ACTION_TYPE_SET_REFRESH_RATE"@),
        318i32 => Some("UI_ACTION_TYPE_SET_CAMERA_SENSITIVITY"@),
        319i32 => Some("UI_ACTION_TYPE_SET_BOW_CAMERA"@),
        320i32 => Some("UI_ACTION_TYPE_SET_CAMERA_RESETTING"@),
        321i32 => Some("UI_ACTION_TYPE_GOTO_ABOUT_SCREEN"@),
        322i32 => Some("UI_ACTION_TYPE_CLOSE_FRAME"@),
        323i32 => Some("UI_ACTION_TYPE_SET_SHOW_TARGETING_STATUS"@),
        324i32 => Some("UI_ACTION_TYPE_RESTORE_DEFAULTS_GAMEPLAY"@),
        325i32 => Some("UI_ACTION_TYPE_RESTORE_DEFAULTS_VIDEO"@),
        326i32 => Some("UI_ACTION_TYPE_RESTORE_DEFAULTS_AUDIO"@),
        327i32 => Some("UI_ACTION_TYPE_SET_EXPRESSION_ITEM_TO_ASSIGN_SWAPPING_PC"@),
        328i32 => Some("UI_ACTION_TYPE_SET_SPELL_TO_ASSIGN_SWAPPING_PC"@),
        329i32 => Some("UI_ACTION_TYPE_SET_SPELL_TO_ASSIGN_IN_ITEMS_SWAPPING_PC"@),
        2000i32 => Some("UI_ACTION_ADD_MESH_CHILD"@),
        2001i32 => Some("UI_ACTION_LOAD_WEAPON_DESC"@),
        2002i32 => Some("UI_ACTION_LOAD_CLOTHING_DESC"@),
        2003i32 => Some("UI_ACTION_LOAD_ITEM_DESC"@),
        2004i32 => Some("UI_ACTION_LOAD_WEAPON_MENU_ENTRY_NAME"@),
        2005i32 => Some("UI_ACTION_LOAD_CLOTHING_MENU_ENTRY_NAME"@),
        2006i32 => Some("UI_ACTION_LOAD_ITEM_MENU_ENTRY_NAME"@),
        2007i32 => Some("UI_ACTION_LOAD_SELL_ITEM_DESC"@),
        2008i32 => Some("UI_ACTION_LOAD_SELL_ACTION_MENU"@),
        2009i32 => Some("UI_ACTION_LOAD_BUY_ITEM_DESC"@),
        2010i32 => Some("UI_ACTION_LOAD_BUY_ACTION_MENU"@),
        2011i32 => Some("UI_ACTION_LOAD_WANTED_ITEM_DESC"@),
        2012i32 => Some("UI_ACTION_LOAD_QUICK_MENU_EXPRESSIONS_ICON"@),
        2013i32 => Some("UI_ACTION_LOAD_FILE_DESC"@),
        2014i32 => Some("UI_ACTION_LOAD_FILE_SAVEGAME_MINIMAP"@),
        2015i32 => Some("UI_ACTION_REMOVE_MESH_CHILD"@),
        2016i32 => Some("UI_ACTION_UNLOAD_WEAPON_DESC"@),
        2017i32 => Some("UI_ACTION_UNLOAD_CLOTHING_DESC"@),
        2018i32 => Some("UI_ACTION_UNLOAD_ITEM_DESC"@),
        2019i32 => Some("UI_ACTION_UNLOAD_SELL_ITEM_DESC"@),
        2020i32 => Some("UI_ACTION_UNLOAD_SELL_ACTION_MENU"@),
        2021i32 => Some("UI_ACTION_UNLOAD_BUY_ITEM_DESC"@),
        2022i32 => Some("UI_ACTION_UNLOAD_BUY_ACTION_MENU"@),
        2023i32 => Some("UI_ACTION_UNLOAD_WANTED_ITEM_DESC"@),
        3000i32 => Some("UI_ACTION_TYPE_CHEAT_MORALITY"@),
        3001i32 => Some("UI_ACTION_TYPE_CHEAT_RENOWN"@),
        3002i32 => Some("UI_ACTION_TYPE_CLOSE_BOAST_MENU"@),
        3003i32 => Some("UI_ACTION_TYPE_PLAY_SOUND"@),
        3004i32 => Some("UI_ACTION_TYPE_TAKE_QUEST_FOR_BOAST"@),
        3005i32 => Some("UI_ACTION_TYPE_OPEN_PC_MSN_CHAT"@),
        3006i32 => Some("UI_ACTION_TYPE_ACTIVATE_MSN_CONVERSATION"@),
        3007i32 => Some("UI_ACTION_TYPE_SEND_MESSAGE"@),
        3008i32 => Some("UI_ACTION_TYPE_SELECT_CONTACT"@),
        3009i32 => Some("UI_ACTION_TYPE_SCROLL_VIEWPORT_UP"@),
        3010i32 => Some("UI_ACTION_TYPE_SCROLL_VIEWPORT_DOWN"@),
        3011i32 => Some("UI_ACTION_TYPE_SCROLL_LIST_DOWN"@),
        3012i32 => Some("UI_ACTION_TYPE_SCROLL_LIST_UP"@),
        3013i32 => Some("UI_ACTION_TYPE_OPEN_SCOREBOARD"@),
        3014i32 => Some("UI_ACTION_TYPE_CHOOSE_CLAN"@),
        3015i32 => Some("UI_ACTION_TYPE_PHOTO_CAPTION"@),
        3016i32 => Some("UI_ACTION_TYPE_DISCARD_PHOTO"@),
        3017i32 => Some("UI_ACTION_TYPE_GO_TO_SCOREBOARD_SCREEN"@),
        3018i32 => Some("UI_ACTION_TYPE_ACTIVATE_EDITBOX"@),
        3019i32 => Some("UI_ACTION_TYPE_DEACTIVATE_EDITBOX"@),
        3020i32 => Some("UI_ACTION_TYPE_SET_EDITBOX_VALUES"@),
        3021i32 => Some("UI_ACTION_TYPE_SCOREBOARD_OK"@),
        3022i32 => Some("UI_ACTION_TYPE_LOAD_PHOTO"@),
        3023i32 => Some("UI_ACTION_TYPE_SCROLL_PHOTO_DOWN"@),
        3024i32 => Some("UI_ACTION_TYPE_SCROLL_PHOTO_UP"@),
        3025i32 => Some("UI_ACTION_TYPE_NEXT_SCREEN_START"@),
        4000i32 => Some("UI_ACTION_TYPE_OPEN_PHOTOJOURNAL"@),
        4001i32 => Some("UI_ACTION_TYPE_OPEN_PHOTO"@),
        4002i32 => Some("UI_ACTION_TYPE_EXIT_PHOTOJOURNAL_CAPTURE"@),
        _ => None,
    }
}

#[verifier::rlimit(100)]
#[verifier::spinoff_prover]
proof fn lemma_action_type_variant(e: ActionType)
    ensures
        action_type_symbol_at(e.wire_value()) == Some(e.symbol_of()),
{
    match e {
        ActionType::TypeNone => {},
        ActionType::TypeWield => {},
        ActionType::TypeAugment => {},
        ActionType::TypeChangestate => {},
        ActionType::TypeTakeBoast => {},
        ActionType::TypeTeleport => {},
        ActionType::TypeTakeQuest => {},
        ActionType::TypeBuyStat => {},
        ActionType::TypeBuyAbility => {},
        ActionType::TypeNextScreenOptions => {},
        ActionType::TypeNextScreenLiveAware => {},
        ActionType::TypeNextScreenExtras => {},
        ActionType::TypeNextScreenAudioOptions => {},
        ActionType::TypeNextScreenVideoOptions => {},
        ActionType::TypeNextScreenCameraOptions => {},
        ActionType::TypeNewGame => {},
        ActionType::TypeNextScreenProfiles => {},
        ActionType::TypeLoadGame => {},
        ActionType::TypeLogin => {},
        ActionType::TypeFriends => {},
        ActionType::TypeAppearOffline => {},
        ActionType::TypeDelete => {},
        ActionType::TypeAddChild => {},
        ActionType::TypeAddChildAugmentation => {},
        ActionType::TypeDeleteAll => {},
        ActionType::TypeUseItem => {},
        ActionType::TypeItemAssignLeft => {},
        ActionType::TypeItemAssignRight => {},
        ActionType::TypeItemAssignDown => {},
        ActionType::TypeItemAssignUp => {},
        ActionType::TypeClothingWear => {},
        ActionType::TypeUpdateMannequinClothing => {},
        ActionType::TypeBuy => {},
        ActionType::TypeSell => {},
        ActionType::TypeDeletePrevious => {},
        ActionType::TypeResetClothingMannequin => {},
        ActionType::TypeSetBrightness => {},
        ActionType::TypeSetSound => {},
        ActionType::TypeSetMusic => {},
        ActionType::TypeSetCameraRotation => {},
        ActionType::TypeSetCameraUpDown => {},
        ActionType::TypeSetVibration => {},
        ActionType::TypeSetHeadphones => {},
        ActionType::TypeSetSubtitles => {},
        ActionType::TypeOpenMap => {},
        ActionType::TypeOpenAbilities => {},
        ActionType::TypeOpenWeapons => {},
        ActionType::TypeOpenStats => {},
        ActionType::TypeOpenClothing => {},
        ActionType::TypeOpenItems => {},
        ActionType::TypeCloseMap => {},
        ActionType::TypeCloseAbilities => {},
        ActionType::TypeCloseWeapons => {},
        ActionType::TypeCloseStats => {},
        ActionType::TypeCloseClothing => {},
        ActionType::TypeCloseItems => {},
        ActionType::TypeCloseMenu => {},
        ActionType::TypeGuildSealRecall => {},
        ActionType::TypeLoad => {},
        ActionType::TypeSave => {},
        ActionType::TypeClosePauseMenu => {},
        ActionType::TypePlayMovie => {},
        ActionType::TypeNextScreenProfilesSavedGames => {},
        ActionType::TypeNextScreenCredits => {},
        ActionType::TypeConstructWeaponsList => {},
        ActionType::TypeConstructClothingList => {},
        ActionType::TypeConstructItemsList => {},
        ActionType::TypeConstructSkillsList => {},
        ActionType::TypeConstructQuestsList => {},
        ActionType::TypeConstructMapList => {},
        ActionType::TypeConstructStatsList => {},
        ActionType::TypeChangeChildState => {},
        ActionType::TypeConstructExperienceList => {},
        ActionType::TypeConstructPersonalityList => {},
        ActionType::TypeSetHud => {},
        ActionType::TypeCloseQuickAccessMenu => {},
        ActionType::TypeCloseTeleportMenu => {},
        ActionType::TypeBuyBulk => {},
        ActionType::TypeSellBulk => {},
        ActionType::TypeSetTutorials => {},
        ActionType::TypeSetShowBuddyNames => {},
        ActionType::TypeQuitToFrontEnd => {},
        ActionType::TypePreviousScreen => {},
        ActionType::TypeAcceptChanges => {},
        ActionType::TypeSetDialogue => {},
        ActionType::TypeXlive => {},
        ActionType::TypeXliveBack => {},
        ActionType::TypeLogout => {},
        ActionType::TypeDemos => {},
        ActionType::TypeSetGuildMaster => {},
        ActionType::TypeSetHudTooltips => {},
        ActionType::TypeUndoBuyAbility => {},
        ActionType::TypeUndoBuyStat => {},
        ActionType::TypeGiveExclusiveInput => {},
        ActionType::TypeRemoveExclusiveInput => {},
        ActionType::TypeSendBackEvent => {},
        ActionType::TypeShowSpellSelection => {},
        ActionType::TypeSetSpellToAssign => {},
        ActionType::TypeTeleportToBoast => {},
        ActionType::TypeDropQuest => {},
        ActionType::TypeAssignSpell => {},
        ActionType::TypeUnassignSpell => {},
        ActionType::TypeResetAssignedSpells => {},
        ActionType::TypeChangeAlpha => {},
        ActionType::TypeChangeNumber => {},
        ActionType::TypeDeleteProfile => {},
        ActionType::TypeGoToDeleteProfileScreen => {},
        ActionType::TypePopMapState => {},
        ActionType::TypeNextScreenInvalidProfile => {},
        ActionType::TypeNextScreenInvalidSave => {},
        ActionType::TypeFreeSpaceOnT => {},
        ActionType::TypeFreeSpaceOnU => {},
        ActionType::TypeFlashDpadDown => {},
        ActionType::TypeFlashDpadUp => {},
        ActionType::TypeFlashDpadLeft => {},
        ActionType::TypeFlashDpadRight => {},
        ActionType::TypeStopDpadFlashing => {},
        ActionType::TypeConstructLogbookList => {},
        ActionType::TypeGoToMainMenuFromStart => {},
        ActionType::TypeSendOwnedEvent => {},
        ActionType::TypeSendEvent => {},
        ActionType::TypeMoveComponent => {},
        ActionType::TypeExitLiveGui => {},
        ActionType::TypeOpenPcSkillsMenu => {},
        ActionType::TypeConstructExpressionsList => {},
        ActionType::TypeScrollActiveListUp => {},
        ActionType::TypeScrollActiveListDown => {},
        ActionType::TypeOpenPcInventoryMenu => {},
        ActionType::TypeOpenPcOptionsMenu => {},
        ActionType::TypeConstructPcStyleCardsList => {},
        ActionType::TypeOpenPcBuyTradingGoodsList => {},
        ActionType::TypeClosePcBuyTradingGoodsList => {},
        ActionType::TypeConstructMagicListPc => {},
        ActionType::TypeAssignSpellPc => {},
        ActionType::TypeObserveEvent => {},
        ActionType::TypeSetSpellToAssignPc => {},
        ActionType::TypeResetAssignedSpellsPc => {},
        ActionType::TypeUnassignSpellPc => {},
        ActionType::TypeIgnoreEvent => {},
        ActionType::TypeNextScreenProfilesForDelete => {},
        ActionType::TypeAssignExpressionItemPc => {},
        ActionType::TypeUnassignExpressionItemPc => {},
        ActionType::TypeSetExpressionItemToAssignPc => {},
        ActionType::TypeOpenPcMapMenu => {},
        ActionType::TypeOpenPcStatusMenu => {},
        ActionType::TypeOpenPcLogBook => {},
        ActionType::TypeConstructPcQuestsList => {},
        ActionType::TypeSetResolution => {},
        ActionType::TypeSetShadowDetail => {},
        ActionType::TypeSetDecals => {},
        ActionType::TypeSetWeatherEffects => {},
        ActionType::TypeSetVerticalSync => {},
        ActionType::TypeSetGlowEffects => {},
        ActionType::TypeSetReverseStereo => {},
        ActionType::TypeSetAntialiasing => {},
        ActionType::TypeSetTextureDetail => {},
        ActionType::TypeSetMeshResolution => {},
        ActionType::TypeSetWaterReflection => {},
        ActionType::TypeSetLandscapeDetail => {},
        ActionType::TypeSetParticleDetail => {},
        ActionType::TypeAddObserver => {},
        ActionType::TypeScrollActiveListUntilChildContaining => {},
        ActionType::TypeGoBack => {},
        ActionType::TypeCloseActiveMenu => {},
        ActionType::TypeRemoveObserver => {},
        ActionType::TypeTavernGameBetDown => {},
        ActionType::TypeTavernGameBetUp => {},
        ActionType::TypeRespawn => {},
        ActionType::TypeContinue => {},
        ActionType::TypeOpenPcSellTradingGoodsList => {},
        ActionType::TypeOpenPcWantedTradingGoodsList => {},
        ActionType::TypeConstructPcExperienceList => {},
        ActionType::TypeGoToRedefineKeysMenu => {},
        ActionType::TypeResetKeys => {},
        ActionType::TypeAssignSpellToItemSlotPc => {},
        ActionType::TypeConstructStyleCardsList => {},
        ActionType::TypeScrollDescriptionDown => {},
        ActionType::TypeScrollDescriptionUp => {},
        ActionType::TypeConstructPcPersonalityList => {},
        ActionType::TypeSendOwnedEventForceObservation => {},
        ActionType::TypeGoToMainMenuFromProfileList => {},
        ActionType::TypeNewProfile => {},
        ActionType::TypeNewProfileReturnPressed => {},
        ActionType::TypeNewProfileEscapePressed => {},
        ActionType::TypeQuitGame => {},
        ActionType::TypeNextScreenOptionsSubMenu => {},
        ActionType::TypeSetMeshDetail => {},
        ActionType::TypeSetEffectsDetail => {},
        ActionType::TypeSetScreenAspectRatio => {},
        ActionType::TypeApplyProfileValues => {},
        ActionType::TypeCloseActiveTradeMenu => {},
        ActionType::TypeScrollActiveListDownMax => {},
        ActionType::TypeScrollActiveListUpMax => {},
        ActionType::TypeScrollDescriptionDownMax => {},
        ActionType::TypeScrollDescriptionUpMax => {},
        ActionType::TypeScrollDescriptionDownOnePixel => {},
        ActionType::TypeScrollDescriptionUpOnePixel => {},
        ActionType::TypeCloseTradeMenuIfLeaf => {},
        ActionType::TypeExitLiveGuiIfLeaf => {},
        ActionType::TypeResetKeysWasd => {},
        ActionType::TypeNextScreenOptionsScoreboard => {},
        ActionType::TypeSetControlMethod => {},
        ActionType::TypeGotoQuitPrompt => {},
        ActionType::TypePcQuitToFrontEnd => {},
        ActionType::TypePcAcceptVideoChanges => {},
        ActionType::TypeSetRefreshRate => {},
        ActionType::TypeSetCameraSensitivity => {},
        ActionType::TypeSetBowCamera => {},
        ActionType::TypeSetCameraResetting => {},
        ActionType::TypeGotoAboutScreen => {},
        ActionType::TypeCloseFrame => {},
        ActionType::TypeSetShowTargetingStatus => {},
        ActionType::TypeRestoreDefaultsGameplay => {},
        ActionType::TypeRestoreDefaultsVideo => {},
        ActionType::TypeRestoreDefaultsAudio => {},
        ActionType::TypeSetExpressionItemToAssignSwappingPc => {},
        ActionType::TypeSetSpellToAssignSwappingPc => {},
        ActionType::TypeSetSpellToAssignInItemsSwappingPc => {},
        ActionType::AddMeshChild => {},
        ActionType::LoadWeaponDesc => {},
        ActionType::LoadClothingDesc => {},
        ActionType::LoadItemDesc => {},
        ActionType::LoadWeaponMenuEntryName => {},
        ActionType::LoadClothingMenuEntryName => {},
        ActionType::LoadItemMenuEntryName => {},
        ActionType::LoadSellItemDesc => {},
        ActionType::LoadSellActionMenu => {},
        ActionType::LoadBuyItemDesc => {},
        ActionType::LoadBuyActionMenu => {},
        ActionType::LoadWantedItemDesc => {},
        ActionType::LoadQuickMenuExpressionsIcon => {},
        ActionType::LoadFileDesc => {},
        ActionType::LoadFileSavegameMinimap => {},
        ActionType::RemoveMeshChild => {},
        ActionType::UnloadWeaponDesc => {},
        ActionType::UnloadClothingDesc => {},
        ActionType::UnloadItemDesc => {},
        ActionType::UnloadSellItemDesc => {},
        ActionType::UnloadSellActionMenu => {},
        ActionType::UnloadBuyItemDesc => {},
        ActionType::UnloadBuyActionMenu => {},
        ActionType::UnloadWantedItemDesc => {},
        ActionType::TypeCheatMorality => {},
        ActionType::TypeCheatRenown => {},
        ActionType::TypeCloseBoastMenu => {},
        ActionType::TypePlaySound => {},
        ActionType::TypeTakeQuestForBoast => {},
        ActionType::TypeOpenPcMsnChat => {},
        ActionType::TypeActivateMsnConversation => {},
        ActionType::TypeSendMessage => {},
        ActionType::TypeSelectContact => {},
        ActionType::TypeScrollViewportUp => {},
        ActionType::TypeScrollViewportDown => {},
        ActionType::TypeScrollListDown => {},
        ActionType::TypeScrollListUp => {},
        ActionType::TypeOpenScoreboard => {},
        ActionType::TypeChooseClan => {},
        ActionType::TypePhotoCaption => {},
        ActionType::TypeDiscardPhoto => {},
        ActionType::TypeGoToScoreboardScreen => {},
        ActionType::TypeActivateEditbox => {},
        ActionType::TypeDeactivateEditbox => {},
        ActionType::TypeSetEditboxValues => {},
        ActionType::TypeScoreboardOk => {},
        ActionType::TypeLoadPhoto => {},
        ActionType::TypeScrollPhotoDown => {},
        ActionType::TypeScrollPhotoUp => {},
        ActionType::TypeNextScreenStart => {},
        ActionType::TypeOpenPhotojournal => {},
        ActionType::TypeOpenPhoto => {},
        ActionType::TypeExitPhotojournalCapture => {},
    }
}

#[verifier::rlimit(100)]
#[verifier::spinoff_prover]
proof fn lemma_action_type_value(v: i32)
    ensures
        ActionType::lookup(v) matches Some(x) ==> action_type_symbol_at(v) == Some(x.symbol_of()),
        ActionType::lookup(v) is None <==> action_type_symbol_at(v) is None,
{
}

/// Each [`ActionType`] variant is written as the value its C++ symbol has in
/// the table, and each table value reads back the variant of its symbol.
pub proof fn lemma_action_type_symbols(e: ActionType, v: i32)
    ensures
        action_type_symbol_at(e.wire_value()) == Some(e.symbol_of()),
        ActionType::lookup(v) matches Some(x) ==> action_type_symbol_at(v) == Some(x.symbol_of()),
        ActionType::lookup(v) is None <==> action_type_symbol_at(v) is None,
{
    lemma_action_type_variant(e);
    lemma_action_type_value(v);
}

/// The C++ symbol whose value in the [`TableSprites`] table is `value`.
pub open spec fn table_sprites_symbol_at(value: i32) -> Option<Seq<char>> {
    match value {
        0i32 => Some("TABLE_SPRITES_TOP_LEFT"@),
        1i32 => Some("TABLE_SPRITES_TOP_RIGHT"@),
        2i32 => Some("TABLE_SPRITES_BOTTOM_LEFT"@),
        3i32 => Some("TABLE_SPRITES_BOTTOM_RIGHT"@),
        4i32 => Some("TABLE_SPRITES_TOP_MIDDLE"@),
        5i32 => Some("TABLE_SPRITES_BOTTOM_MIDDLE"@),
        6i32 => Some("TABLE_SPRITES_MIDDLE_LEFT"@),
        7i32 => Some("TABLE_SPRITES_MIDDLE_RIGHT"@),
        8i32 => Some("TABLE_SPRITES_SEPARATION_BOTTOM"@),
        9i32 => Some("TABLE_SPRITES_SEPARATION_TOP"@),
        10i32 => Some("TABLE_SPRITES_SEPARATION_LEFT"@),
        11i32 => Some("TABLE_SPRITES_SEPARATION_RIGHT"@),
        12i32 => Some("TABLE_SPRITES_CROSS"@),
        13i32 => Some("TABLE_SPRITES_AMOUNT"@),
        _ => None,
    }
}

/// Each [`TableSprites`] variant is written as the value its C++ symbol has in
/// the table, and each table value reads back the variant of its symbol.
pub proof fn lemma_table_sprites_symbols(e: TableSprites, v: i32)
    ensures
        table_sprites_symbol_at(e.wire_value()) == Some(e.symbol_of()),
        TableSprites::lookup(v) matches Some(x) ==> table_sprites_symbol_at(v) == Some(x.symbol_of()),
        TableSprites::lookup(v) is None <==> table_sprites_symbol_at(v) is None,
{
    match e {
        TableSprites::TopLeft => {},
        TableSprites::TopRight => {},
        TableSprites::BottomLeft => {},
        TableSprites::BottomRight => {},
        TableSprites::TopMiddle => {},
        TableSprites::BottomMiddle => {},
        TableSprites::MiddleLeft => {},
        TableSprites::MiddleRight => {},
        TableSprites::SeparationBottom => {},
        TableSprites::SeparationTop => {},
        TableSprites::SeparationLeft => {},
        TableSprites::SeparationRight => {},
        TableSprites::Cross => {},
        TableSprites::Amount => {},
    }
}

/// The C++ symbol whose value in the [`EngineGraphicType`] table is `value`.
pub open spec fn engine_graphic_type_symbol_at(value: i32) -> Option<Seq<char>> {
    match value {
        0i32 => Some("ENGINE_GRAPHIC_NULL"@),
        1i32 => Some("ENGINE_GRAPHIC_SPRITE"@),
        2i32 => Some("ENGINE_GRAPHIC_3DSPRITE"@),
        3i32 => Some("ENGINE_GRAPHIC_GENERATED_EFFECT"@),
        4i32 => Some("ENGINE_GRAPHIC_ANIMATING_MESH"@),
        5i32 => Some("ENGINE_GRAPHIC_STATIC_MESH"@),
        6i32 => Some("MAX_NO_ENGINE_GRAPHIC_TYPES"@),
        _ => None,
    }
}

/// Each [`EngineGraphicType`] variant is written as the value its C++ symbol has in
/// the table, and each table value reads back the variant of its symbol.
pub proof fn lemma_engine_graphic_type_symbols(e: EngineGraphicType, v: i32)
    ensures
        engine_graphic_type_symbol_at(e.wire_value()) == Some(e.symbol_of()),
        EngineGraphicType::lookup(v) matches Some(x) ==> engine_graphic_type_symbol_at(v) == Some(x.symbol_of()),
        EngineGraphicType::lookup(v) is None <==> engine_graphic_type_symbol_at(v) is None,
{
    match e {
        EngineGraphicType::EngineGraphicNull => {},
        EngineGraphicType::EngineGraphicSprite => {},
        EngineGraphicType::EngineGraphic3dsprite => {},
        EngineGraphicType::EngineGraphicGeneratedEffect => {},
        EngineGraphicType::EngineGraphicAnimatingMesh => {},
        EngineGraphicType::EngineGraphicStaticMesh => {},
        EngineGraphicType::MaxNoEngineGraphicTypes => {},
    }
}

/// The C++ symbol whose value in the [`GameAction`] table is `value`.
pub open spec fn game_action_symbol_at(value: i32) -> Option<Seq<char>> {
    match value {
        0i32 => Some("GAME_ACTION_NULL"@),
        1i32 => Some("GAME_ACTION_LOCK_TARGET"@),
        2i32 => Some("GAME_ACTION_OPEN_INVENTORY"@),
        3i32 => Some("GAME_ACTION_OPEN_IN_GAME_MENU"@),
        4i32 => Some("GAME_ACTION_TOGGLE_MINI_MAP"@),
        5i32 => Some("GAME_ACTION_PAUSE"@),
        6i32 => Some("GAME_ACTION_INTERACT"@),
        7i32 => Some("GAME_ACTION_BLOCK"@),
        8i32 => Some("GAME_ACTION_SPECIAL_ATTACK"@),
        9i32 => Some("GAME_ACTION_ATTACK"@),
        10i32 => Some("GAME_ACTION_FIRE_RANGED_WEAPON"@),
        11i32 => Some("GAME_ACTION_UNARMED_ATTACK"@),
        12i32 => Some("GAME_ACTION_ARMED_MELEE_ATTACK"@),
        13i32 => Some("GAME_ACTION_UNSHEATHE_MELEE_WEAPON"@),
        14i32 => Some("GAME_ACTION_UNSHEATHE_RANGED_WEAPON"@),
        15i32 => Some("GAME_ACTION_SHEATHE_MELEE_WEAPON"@),
        16i32 => Some("GAME_ACTION_SHEATHE_RANGED_WEAPON"@),
        17i32 => Some("GAME_ACTION_TOGGLE_SILENT_MOVE"@),
        18i32 => Some("GAME_ACTION_TOGGLE_CINEMATIC_AND_USER_CAMERA"@),
        19i32 => Some("GAME_ACTION_TOGGLE_FIRST_PERSON_VIEW"@),
        20i32 => Some("GAME_ACTION_SKIP_PAST_TEXT"@),
        21i32 => Some("GAME_ACTION_SKIP_CUT_SCENE"@),
        22i32 => Some("GAME_ACTION_ANSWER_QUESTION_YES"@),
        23i32 => Some("GAME_ACTION_ANSWER_QUESTION_NO"@),
        24i32 => Some("GAME_ACTION_ANSWER_QUESTION_THIRD"@),
        25i32 => Some("GAME_ACTION_INVENTORY_SELECT"@),
        26i32 => Some("GAME_ACTION_ATTRACT_EXPERIENCE_ORBS"@),
        27i32 => Some("GAME_ACTION_ROTATE_GUI_SCREENS_LEFT"@),
        28i32 => Some("GAME_ACTION_ROTATE_GUI_SCREENS_RIGHT"@),
        29i32 => Some("GAME_ACTION_JUMP"@),
        30i32 => Some("GAME_ACTION_SPRINT"@),
        31i32 => Some("GAME_ACTION_RUN"@),
        32i32 => Some("GAME_ACTION_SNEAK"@),
        33i32 => Some("GAME_ACTION_INVENTORY_A"@),
        34i32 => Some("GAME_ACTION_INVENTORY_B"@),
        35i32 => Some("GAME_ACTION_INVENTORY_X"@),
        36i32 => Some("GAME_ACTION_INVENTORY_Y"@),
        37i32 => Some("GAME_ACTION_INVENTORY_UP"@),
        38i32 => Some("GAME_ACTION_INVENTORY_DOWN"@),
        39i32 => Some("GAME_ACTION_INVENTORY_LEFT"@),
        40i32 => Some("GAME_ACTION_INVENTORY_RIGHT"@),
        41i32 => Some("GAME_ACTION_INVENTORY_WHITE"@),
        42i32 => Some("GAME_ACTION_TAVERN_GAMES_INSTRUCTIONS"@),
        43i32 => Some("GAME_ACTION_FISHING_REEL_IN"@),
        44i32 => Some("GAME_ACTION_FISHING_CANCEL"@),
        45i32 => Some("GAME_ACTION_TOGGLE_FIRST_PERSON_TARGETING"@),
        46i32 => Some("GAME_ACTION_FIRST_PERSON_TARGET_LOCK"@),
        47i32 => Some("GAME_ACTION_FIRST_PERSON_ZOOM_IN"@),
        48i32 => Some("GAME_ACTION_GENERAL_LEAVE_PLAYER_MODE"@),
        49i32 => Some("GAME_ACTION_DEBUG_JUMP_1"@),
        50i32 => Some("GAME_ACTION_DEBUG_JUMP_2"@),
        51i32 => Some("GAME_ACTION_DEBUG_CAMERA"@),
        52i32 => Some("GAME_ACTION_DEBUG_SHIFT"@),
        53i32 => Some("GAME_ACTION_TAKE_PHOTO_FOR_PHOTOJOURNAL"@),
        54i32 => Some("GAME_ACTION_ASSIGNABLE_SPECIAL_MOVE"@),
        55i32 => Some("GAME_ACTION_QUICK_ACCESS_ITEM"@),
        56i32 => Some("GAME_ACTION_CONTEXT_SENSITIVE_ITEM"@),
        57i32 => Some("GAME_ACTION_CYCLE_THROUGH_SPELLS"@),
        58i32 => Some("GAME_ACTION_COIN_GOLF_CANCEL_AIM"@),
        59i32 => Some("GAME_ACTION_CONFIRM_RESET_TO_FRONT_END"@),
        60i32 => Some("GAME_ACTION_MOVEMENT"@),
        61i32 => Some("GAME_ACTION_CAMERA_ROTATE"@),
        62i32 => Some("GAME_ACTION_CAMERA_ROTATE_LEFT"@),
        63i32 => Some("GAME_ACTION_CAMERA_ROTATE_RIGHT"@),
        64i32 => Some("GAME_ACTION_CAMERA_ZOOM_IN"@),
        65i32 => Some("GAME_ACTION_CAMERA_ZOOM_OUT"@),
        66i32 => Some("GAME_ACTION_ORACLE_MINIGAME_UP"@),
        67i32 => Some("GAME_ACTION_ORACLE_MINIGAME_DOWN"@),
        68i32 => Some("GAME_ACTION_ORACLE_MINIGAME_LEFT"@),
        69i32 => Some("GAME_ACTION_ORACLE_MINIGAME_RIGHT"@),
        70i32 => Some("GAME_ACTION_ORACLE_MINIGAME_QUIT"@),
        71i32 => Some("GAME_ACTION_MOVE_MOUSE_ON_GUI"@),
        72i32 => Some("GAME_ACTION_TOGGLE_LIVE_GUI"@),
        73i32 => Some("GAME_ACTION_OPEN_EXPRESSION_MENU"@),
        74i32 => Some("GAME_ACTION_TOGGLE_DEACTIVATE_LOCK_TARGET"@),
        75i32 => Some("GAME_ACTION_FIRST_PERSON_LOOKAROUND"@),
        76i32 => Some("GAME_ACTION_INVENTORY_UNSELECT"@),
        77i32 => Some("GAME_ACTION_CAMERA_MOVE_DOUBLE_AXIS"@),
        78i32 => Some("GAME_ACTION_CHARGE_GUILD_SEAL"@),
        79i32 => Some("GAME_ACTION_TAVERN_GAME_MOVEMENT"@),
        80i32 => Some("GAME_ACTION_TAVERN_GAME_CAMERA"@),
        81i32 => Some("GAME_ACTION_TAVERN_GAME_ACTION_BUTTON"@),
        82i32 => Some("GAME_ACTION_TAVERN_GAME_ALTERNATE_BUTTON"@),
        83i32 => Some("GAME_ACTION_TAVERN_GAME_QUIT"@),
        84i32 => Some("GAME_ACTION_PROJECTILE_TARGETING_ANALOGUE_ZOOM"@),
        85i32 => Some("GAME_ACTION_TOGGLE_PASSIVE_AGGRESSIVE_MODE"@),
        86i32 => Some("GAME_ACTION_ACTIVATE_SPELL_MODE"@),
        87i32 => Some("GAME_ACTION_EXPRESSION_SHIFT"@),
        88i32 => Some("GAME_ACTION_SCROLL_DESCRIPTION_UP"@),
        89i32 => Some("GAME_ACTION_SCROLL_DESCRIPTION_DOWN"@),
        90i32 => Some("GAME_ACTION_OPEN_WEAPONS_MENU"@),
        91i32 => Some("GAME_ACTION_OPEN_CLOTHING_MENU"@),
        92i32 => Some("GAME_ACTION_OPEN_ITEMS_MENU"@),
        93i32 => Some("GAME_ACTION_OPEN_CURRENT_QUESTS_MENU"@),
        94i32 => Some("GAME_ACTION_CYCLE_THROUGH_SPELLS_KEYBOARD"@),
        95i32 => Some("GAME_ACTION_TOGGLE_KILL_EVERYTHING_MODE"@),
        96i32 => Some("GAME_ACTION_OPEN_MAGIC_MENU"@),
        97i32 => Some("GAME_ACTION_OPEN_EXPRESSIONS_MENU"@),
        98i32 => Some("GAME_ACTION_OPEN_PERSONALITY_MENU"@),
        99i32 => Some("GAME_ACTION_OPEN_LOGBOOK_MENU"@),
        100i32 => Some("GAME_ACTION_OPEN_MAP_MENU"@),
        101i32 => Some("GAME_ACTION_SCROLL_MENU"@),
        102i32 => Some("GAME_ACTION_ZOOM_MAP_OUT"@),
        103i32 => Some("GAME_ACTION_ZOOM_MAP_IN"@),
        104i32 => Some("GAME_ACTION_SCROLL_MAP_LEFT"@),
        105i32 => Some("GAME_ACTION_SCROLL_MAP_RIGHT"@),
        106i32 => Some("GAME_ACTION_SCROLL_MAP_DOWN"@),
        107i32 => Some("GAME_ACTION_SCROLL_MAP_UP"@),
        108i32 => Some("GAME_ACTION_OPTIONS_SLIDER_LEFT"@),
        109i32 => Some("GAME_ACTION_OPTIONS_SLIDER_RIGHT"@),
        110i32 => Some("GAME_ACTION_DIGITAL_ANALOGUE_ZOOM_IN"@),
        111i32 => Some("GAME_ACTION_DIGITAL_ANALOGUE_ZOOM_OUT"@),
        112i32 => Some("GAME_ACTION_TOGGLE_VIEW_HERO_MODE"@),
        113i32 => Some("GAME_ACTION_CENTRE_CAMERA"@),
        114i32 => Some("GAME_ACTION_BETTING"@),
        115i32 => Some("GAME_ACTION_COUNT"@),
        116i32 => Some("GAME_ACTION_116"@),
        117i32 => Some("GAME_ACTION_117"@),
        118i32 => Some("GAME_ACTION_118"@),
        119i32 => Some("GAME_ACTION_119"@),
        120i32 => Some("GAME_ACTION_120"@),
        121i32 => Some("GAME_ACTION_121"@),
        122i32 => Some("GAME_ACTION_122"@),
        123i32 => Some("GAME_ACTION_123"@),
        124i32 => Some("GAME_ACTION_124"@),
        125i32 => Some("GAME_ACTION_125"@),
        126i32 => Some("GAME_ACTION_126"@),
        127i32 => Some("GAME_ACTION_127"@),
        _ => None,
    }
}

/// Each [`GameAction`] variant is written as the value its C++ symbol has in
/// the table, and each table value reads back the variant of its symbol.
#[verifier::rlimit(50)]
pub proof fn lemma_game_action_symbols(e: GameAction, v: i32)
    ensures
        game_action_symbol_at(e.wire_value()) == Some(e.symbol_of()),
        GameAction::lookup(v) matches Some(x) ==> game_action_symbol_at(v) == Some(x.symbol_of()),
        GameAction::lookup(v) is None <==> game_action_symbol_at(v) is None,
{
    match e {
        GameAction::Null => {},
        GameAction::LockTarget => {},
        GameAction::OpenInventory => {},
        GameAction::OpenInGameMenu => {},
        GameAction::ToggleMiniMap => {},
        GameAction::Pause => {},
        GameAction::Interact => {},
        GameAction::Block => {},
        GameAction::SpecialAttack => {},
        GameAction::Attack => {},
        GameAction::FireRangedWeapon => {},
        GameAction::UnarmedAttack => {},
        GameAction::ArmedMeleeAttack => {},
        GameAction::UnsheatheMeleeWeapon => {},
        GameAction::UnsheatheRangedWeapon => {},
        GameAction::SheatheMeleeWeapon => {},
        GameAction::SheatheRangedWeapon => {},
        GameAction::ToggleSilentMove => {},
        GameAction::ToggleCinematicAndUserCamera => {},
        GameAction::ToggleFirstPersonView => {},
        GameAction::SkipPastText => {},
        GameAction::SkipCutScene => {},
        GameAction::AnswerQuestionYes => {},
        GameAction::AnswerQuestionNo => {},
        GameAction::AnswerQuestionThird => {},
        GameAction::InventorySelect => {},
        GameAction::AttractExperienceOrbs => {},
        GameAction::RotateGuiScreensLeft => {},
        GameAction::RotateGuiScreensRight => {},
        GameAction::Jump => {},
        GameAction::Sprint => {},
        GameAction::Run => {},
        GameAction::Sneak => {},
        GameAction::InventoryA => {},
        GameAction::InventoryB => {},
        GameAction::InventoryX => {},
        GameAction::InventoryY => {},
        GameAction::InventoryUp => {},
        GameAction::InventoryDown => {},
        GameAction::InventoryLeft => {},
        GameAction::InventoryRight => {},
        GameAction::InventoryWhite => {},
        GameAction::TavernGamesInstructions => {},
        GameAction::FishingReelIn => {},
        GameAction::FishingCancel => {},
        GameAction::ToggleFirstPersonTargeting => {},
        GameAction::FirstPersonTargetLock => {},
        GameAction::FirstPersonZoomIn => {},
        GameAction::GeneralLeavePlayerMode => {},
        GameAction::DebugJump1 => {},
        GameAction::DebugJump2 => {},
        GameAction::DebugCamera => {},
        GameAction::DebugShift => {},
        GameAction::TakePhotoForPhotojournal => {},
        GameAction::AssignableSpecialMove => {},
        GameAction::QuickAccessItem => {},
        GameAction::ContextSensitiveItem => {},
        GameAction::CycleThroughSpells => {},
        GameAction::CoinGolfCancelAim => {},
        GameAction::ConfirmResetToFrontEnd => {},
        GameAction::Movement => {},
        GameAction::CameraRotate => {},
        GameAction::CameraRotateLeft => {},
        GameAction::CameraRotateRight => {},
        GameAction::CameraZoomIn => {},
        GameAction::CameraZoomOut => {},
        GameAction::OracleMinigameUp => {},
        GameAction::OracleMinigameDown => {},
        GameAction::OracleMinigameLeft => {},
        GameAction::OracleMinigameRight => {},
        GameAction::OracleMinigameQuit => {},
        GameAction::MoveMouseOnGui => {},
        GameAction::ToggleLiveGui => {},
        GameAction::OpenExpressionMenu => {},
        GameAction::ToggleDeactivateLockTarget => {},
        GameAction::FirstPersonLookaround => {},
        GameAction::InventoryUnselect => {},
        GameAction::CameraMoveDoubleAxis => {},
        GameAction::ChargeGuildSeal => {},
        GameAction::TavernGameMovement => {},
        GameAction::TavernGameCamera => {},
        GameAction::TavernGameActionButton => {},
        GameAction::TavernGameAlternateButton => {},
        GameAction::TavernGameQuit => {},
        GameAction::ProjectileTargetingAnalogueZoom => {},
        GameAction::TogglePassiveAggressiveMode => {},
        GameAction::ActivateSpellMode => {},
        GameAction::ExpressionShift => {},
        GameAction::ScrollDescriptionUp => {},
        GameAction::ScrollDescriptionDown => {},
        GameAction::OpenWeaponsMenu => {},
        GameAction::OpenClothingMenu => {},
        GameAction::OpenItemsMenu => {},
        GameAction::OpenCurrentQuestsMenu => {},
        GameAction::CycleThroughSpellsKeyboard => {},
        GameAction::ToggleKillEverythingMode => {},
        GameAction::OpenMagicMenu => {},
        GameAction::OpenExpressionsMenu => {},
        GameAction::OpenPersonalityMenu => {},
        GameAction::OpenLogbookMenu => {},
        GameAction::OpenMapMenu => {},
        GameAction::ScrollMenu => {},
        GameAction::ZoomMapOut => {},
        GameAction::ZoomMapIn => {},
        GameAction::ScrollMapLeft => {},
        GameAction::ScrollMapRight => {},
        GameAction::ScrollMapDown => {},
        GameAction::ScrollMapUp => {},
        GameAction::OptionsSliderLeft => {},
        GameAction::OptionsSliderRight => {},
        GameAction::DigitalAnalogueZoomIn => {},
        GameAction::DigitalAnalogueZoomOut => {},
        GameAction::ToggleViewHeroMode => {},
        GameAction::CentreCamera => {},
        GameAction::Betting => {},
        GameAction::Count => {},
        GameAction::GameAction116 => {},
        GameAction::GameAction117 => {},
        GameAction::GameAction118 => {},
        GameAction::GameAction119 => {},
        GameAction::GameAction120 => {},
        GameAction::GameAction121 => {},
        GameAction::GameAction122 => {},
        GameAction::GameAction123 => {},
        GameAction::GameAction124 => {},
        GameAction::GameAction125 => {},
        GameAction::GameAction126 => {},
        GameAction::GameAction127 => {},
    }
}

/// The C++ symbol whose value in the [`ControllerType`] table is `value`.
pub open spec fn controller_type_symbol_at(value: i32) -> Option<Seq<char>> {
    match value {
        0i32 => Some("CONTROLLER_NONE"@),
        1i32 => Some("CONTROLLER_XBOX_PAD"@),
        2i32 => Some("CONTROLLER_KEYBOARD"@),
        3i32 => Some("CONTROLLER_MOUSE"@),
        _ => None,
    }
}

/// Each [`ControllerType`] variant is written as the value its C++ symbol has in
/// the table, and each table value reads back the variant of its symbol.
pub proof fn lemma_controller_type_symbols(e: ControllerType, v: i32)
    ensures
        controller_type_symbol_at(e.wire_value()) == Some(e.symbol_of()),
        ControllerType::lookup(v) matches Some(x) ==> controller_type_symbol_at(v) == Some(x.symbol_of()),
        ControllerType::lookup(v) is None <==> controller_type_symbol_at(v) is None,
{
    match e {
        ControllerType::NoController => {},
        ControllerType::XboxPad => {},
        ControllerType::Keyboard => {},
        ControllerType::Mouse => {},
    }
}

/// The C++ symbol whose value in the [`XboxControllerButton`] table is `value`.
pub open spec fn xbox_controller_button_symbol_at(value: i32) -> Option<Seq<char>> {
    match value {
        0i32 => Some("XBOX_PAD_UNDEFINED_BUTTON"@),
        1i32 => Some("XBOX_PAD_X_BUTTON"@),
        2i32 => Some("XBOX_PAD_Y_BUTTON"@),
        3i32 => Some("XBOX_PAD_BLACK_BUTTON"@),
        4i32 => Some("XBOX_PAD_A_BUTTON"@),
        5i32 => Some("XBOX_PAD_B_BUTTON"@),
        6i32 => Some("XBOX_PAD_WHITE_BUTTON"@),
        7i32 => Some("XBOX_PAD_LEFT_TRIGGER"@),
        8i32 => Some("XBOX_PAD_RIGHT_TRIGGER"@),
        9i32 => Some("XBOX_PAD_LEFT_STICK_BUTTON"@),
        10i32 => Some("XBOX_PAD_RIGHT_STICK_BUTTON"@),
        11i32 => Some("XBOX_PAD_START_BUTTON"@),
        12i32 => Some("XBOX_PAD_BACK_BUTTON"@),
        13i32 => Some("XBOX_PAD_DPAD_UP_BUTTON"@),
        14i32 => Some("XBOX_PAD_DPAD_DOWN_BUTTON"@),
        15i32 => Some("XBOX_PAD_DPAD_LEFT_BUTTON"@),
        16i32 => Some("XBOX_PAD_DPAD_RIGHT_BUTTON"@),
        17i32 => Some("XBOX_PAD_LEFT_ANALOGUE_STICK"@),
        18i32 => Some("XBOX_PAD_RIGHT_ANALOGUE_STICK"@),
        _ => None,
    }
}

/// Each [`XboxControllerButton`] variant is written as the value its C++ symbol has in
/// the table, and each table value reads back the variant of its symbol.
pub proof fn lemma_xbox_controller_button_symbols(e: XboxControllerButton, v: i32)
    ensures
        xbox_controller_button_symbol_at(e.wire_value()) == Some(e.symbol_of()),
        XboxControllerButton::lookup(v) matches Some(x) ==> xbox_controller_button_symbol_at(v) == Some(x.symbol_of()),
        XboxControllerButton::lookup(v) is None <==> xbox_controller_button_symbol_at(v) is None,
{
    match e {
        XboxControllerButton::UndefinedButton => {},
        XboxControllerButton::XButton => {},
        XboxControllerButton::YButton => {},
        XboxControllerButton::BlackButton => {},
        XboxControllerButton::AButton => {},
        XboxControllerButton::BButton => {},
        XboxControllerButton::WhiteButton => {},
        XboxControllerButton::LeftTrigger => {},
        XboxControllerButton::RightTrigger => {},
        XboxControllerButton::LeftStickButton => {},
        XboxControllerButton::RightStickButton => {},
        XboxControllerButton::StartButton => {},
        XboxControllerButton::BackButton => {},
        XboxControllerButton::DpadUpButton => {},
        XboxControllerButton::DpadDownButton => {},
        XboxControllerButton::DpadLeftButton => {},
        XboxControllerButton::DpadRightButton => {},
        XboxControllerButton::LeftAnalogueStick => {},
        XboxControllerButton::RightAnalogueStick => {},
    }
}

/// The C++ symbol whose value in the [`MouseButtonControl`] table is `value`.
pub open spec fn mouse_button_control_symbol_at(value: i32) -> Option<Seq<char>> {
    match value {
        0i32 => Some("MOUSE_BUTTON_NULL_CONTROL"@),
        1i32 => Some("MOUSE_BUTTON_LEFT_CONTROL"@),
        2i32 => Some("MOUSE_BUTTON_RIGHT_CONTROL"@),
        3i32 => Some("MOUSE_BUTTON_MIDDLE_CONTROL"@),
        4i32 => Some("MOUSE_MOVEMENT"@),
        5i32 => Some("MOUSE_WHEEL_MOVEMENT"@),
        6i32 => Some("MOUSE_WHEEL_MOVEMENT_UP"@),
        7i32 => Some("MOUSE_WHEEL_MOVEMENT_DOWN"@),
        8i32 => Some("MOUSE_BUTTON_4_CONTROL"@),
        9i32 => Some("MOUSE_BUTTON_5_CONTROL"@),
        10i32 => Some("MOUSE_BUTTON_6_CONTROL"@),
        11i32 => Some("MOUSE_BUTTON_7_CONTROL"@),
        12i32 => Some("MOUSE_BUTTON_8_CONTROL"@),
        _ => None,
    }
}

/// Each [`MouseButtonControl`] variant is written as the value its C++ symbol has in
/// the table, and each table value reads back the variant of its symbol.
pub proof fn lemma_mouse_button_control_symbols(e: MouseButtonControl, v: i32)
    ensures
        mouse_button_control_symbol_at(e.wire_value()) == Some(e.symbol_of()),
        MouseButtonControl::lookup(v) matches Some(x) ==> mouse_button_control_symbol_at(v) == Some(x.symbol_of()),
        MouseButtonControl::lookup(v) is None <==> mouse_button_control_symbol_at(v) is None,
{
    match e {
        MouseButtonControl::ButtonNullControl => {},
        MouseButtonControl::ButtonLeftControl => {},
        MouseButtonControl::ButtonRightControl => {},
        MouseButtonControl::ButtonMiddleControl => {},
        MouseButtonControl::Movement => {},
        MouseButtonControl::WheelMovement => {},
        MouseButtonControl::WheelMovementUp => {},
        MouseButtonControl::WheelMovementDown => {},
        MouseButtonControl::Button4Control => {},
        MouseButtonControl::Button5Control => {},
        MouseButtonControl::Button6Control => {},
        MouseButtonControl::Button7Control => {},
        MouseButtonControl::Button8Control => {},
    }
}

/// The C++ symbol whose value in the [`InputKey`] table is `value`.
pub open spec fn input_key_symbol_at(value: i32) -> Option<Seq<char>> {
    match value {
        0i32 => Some("KB_NULL"@),
        1i32 => Some("KB_ESC"@),
        2i32 => Some("KB_1"@),
        3i32 => Some("KB_2"@),
        4i32 => Some("KB_3"@),
        5i32 => Some("KB_4"@),
        6i32 => Some("KB_5"@),
        7i32 => Some("KB_6"@),
        8i32 => Some("KB_7"@),
        9i32 => Some("KB_8"@),
        10i32 => Some("KB_9"@),
        11i32 => Some("KB_0"@),
        12i32 => Some("KB_MINUS"@),
        13i32 => Some("KB_EQUALS"@),
        14i32 => Some("KB_BACKSPACE"@),
        15i32 => Some("KB_TAB"@),
        16i32 => Some("KB_Q"@),
        17i32 => Some("KB_W"@),
        18i32 => Some("KB_E"@),
        19i32 => Some("KB_R"@),
        20i32 => Some("KB_T"@),
        21i32 => Some("KB_Y"@),
        22i32 => Some("KB_U"@),
        23i32 => Some("KB_I"@),
        24i32 => Some("KB_O"@),
        25i32 => Some("KB_P"@),
        26i32 => Some("KB_LBRACKET"@),
        27i32 => Some("KB_RBRACKET"@),
        28i32 => Some("KB_RETURN"@),
        29i32 => Some("KB_LCONTROL"@),
        30i32 => Some("KB_A"@),
        31i32 => Some("KB_S"@),
        32i32 => Some("KB_D"@),
        33i32 => Some("KB_F"@),
        34i32 => Some("KB_G"@),
        35i32 => Some("KB_H"@),
        36i32 => Some("KB_J"@),
        37i32 => Some("KB_K"@),
        38i32 => Some("KB_L"@),
        39i32 => Some("KB_SEMICOLON"@),
        40i32 => Some("KB_APOSTROPHE"@),
        41i32 => Some("KB_HASH"@),
        42i32 => Some("KB_LSHIFT"@),
        43i32 => Some("KB_BACKSLASH"@),
        44i32 => Some("KB_Z"@),
        45i32 => Some("KB_X"@),
        46i32 => Some("KB_C"@),
        47i32 => Some("KB_V"@),
        48i32 => Some("KB_B"@),
        49i32 => Some("KB_N"@),
        50i32 => Some("KB_M"@),
        51i32 => Some("KB_COMMA"@),
        52i32 => Some("KB_FULLSTOP"@),
        53i32 => Some("KB_SLASH"@),
        54i32 => Some("KB_RSHIFT"@),
        55i32 => Some("KB_PMULTIPLY"@),
        56i32 => Some("KB_LALT"@),
        57i32 => Some("KB_SPACE"@),
        58i32 => Some("KB_CAPSLOCK"@),
        59i32 => Some("KB_F1"@),
        60i32 => Some("KB_F2"@),
        61i32 => Some("KB_F3"@),
        62i32 => Some("KB_F4"@),
        63i32 => Some("KB_F5"@),
        64i32 => Some("KB_F6"@),
        65i32 => Some("KB_F7"@),
        66i32 => Some("KB_F8"@),
        67i32 => Some("KB_F9"@),
        68i32 => Some("KB_F10"@),
        69i32 => Some("KB_NUMLOCK"@),
        70i32 => Some("KB_SCROLLLOCK"@),
        71i32 => Some("KB_P7"@),
        72i32 => Some("KB_P8"@),
        73i32 => Some("KB_P9"@),
        74i32 => Some("KB_PMINUS"@),
        75i32 => Some("KB_P4"@),
        76i32 => Some("KB_P5"@),
        77i32 => Some("KB_P6"@),
        78i32 => Some("KB_PPLUS"@),
        79i32 => Some("KB_P1"@),
        80i32 => Some("KB_P2"@),
        81i32 => Some("KB_P3"@),
        82i32 => Some("KB_P0"@),
        83i32 => Some("KB_PFULLSTOP"@),
        84i32 => Some("KB_F11"@),
        85i32 => Some("KB_F12"@),
        86i32 => Some("KB_F13"@),
        87i32 => Some("KB_F14"@),
        88i32 => Some("KB_F15"@),
        89i32 => Some("KB_KANA"@),
        90i32 => Some("KB_CONVERT"@),
        91i32 => Some("KB_NOCONVERT"@),
        92i32 => Some("KB_YEN"@),
        93i32 => Some("KB_PEQUALS"@),
        94i32 => Some("KB_CIRCUMFLEX"@),
        95i32 => Some("KB_AT"@),
        96i32 => Some("KB_COLON"@),
        97i32 => Some("KB_UNDERLINE"@),
        98i32 => Some("KB_KANJI"@),
        99i32 => Some("KB_STOP"@),
        100i32 => Some("KB_AX"@),
        101i32 => Some("KB_UNLABELED"@),
        102i32 => Some("KB_PENTER"@),
        103i32 => Some("KB_RCONTROL"@),
        104i32 => Some("KB_PCOMMA"@),
        105i32 => Some("KB_PDIVIDE"@),
        106i32 => Some("KB_SYSRQ"@),
        107i32 => Some("KB_RALT"@),
        108i32 => Some("KB_HOME"@),
        109i32 => Some("KB_UP"@),
        110i32 => Some("KB_PAGEUP"@),
        111i32 => Some("KB_LEFT"@),
        112i32 => Some("KB_RIGHT"@),
        113i32 => Some("KB_END"@),
        114i32 => Some("KB_DOWN"@),
        115i32 => Some("KB_PAGEDOWN"@),
        116i32 => Some("KB_INSERT"@),
        117i32 => Some("KB_DELETE"@),
        118i32 => Some("KB_LWIN"@),
        119i32 => Some("KB_RWIN"@),
        120i32 => Some("KB_APPS"@),
        _ => None,
    }
}

/// Each [`InputKey`] variant is written as the value its C++ symbol has in
/// the table, and each table value reads back the variant of its symbol.
#[verifier::rlimit(50)]
pub proof fn lemma_input_key_symbols(e: InputKey, v: i32)
    ensures
        input_key_symbol_at(e.wire_value()) == Some(e.symbol_of()),
        InputKey::lookup(v) matches Some(x) ==> input_key_symbol_at(v) == Some(x.symbol_of()),
        InputKey::lookup(v) is None <==> input_key_symbol_at(v) is None,
{
    match e {
        InputKey::Null => {},
        InputKey::Esc => {},
        InputKey::Num1 => {},
        InputKey::Num2 => {},
        InputKey::Num3 => {},
        InputKey::Num4 => {},
        InputKey::Num5 => {},
        InputKey::Num6 => {},
        InputKey::Num7 => {},
        InputKey::Num8 => {},
        InputKey::Num9 => {},
        InputKey::Num0 => {},
        InputKey::Minus => {},
        InputKey::Equals => {},
        InputKey::Backspace => {},
        InputKey::Tab => {},
        InputKey::Q => {},
        InputKey::W => {},
        InputKey::E => {},
        InputKey::R => {},
        InputKey::T => {},
        InputKey::Y => {},
        InputKey::U => {},
        InputKey::I => {},
        InputKey::O => {},
        InputKey::P => {},
        InputKey::Lbracket => {},
        InputKey::Rbracket => {},
        InputKey::Return => {},
        InputKey::Lcontrol => {},
        InputKey::A => {},
        InputKey::S => {},
        InputKey::D => {},
        InputKey::F => {},
        InputKey::G => {},
        InputKey::H => {},
        InputKey::J => {},
        InputKey::K => {},
        InputKey::L => {},
        InputKey::Semicolon => {},
        InputKey::Apostrophe => {},
        InputKey::Hash => {},
        InputKey::Lshift => {},
        InputKey::Backslash => {},
        InputKey::Z => {},
        InputKey::X => {},
        InputKey::C => {},
        InputKey::V => {},
        InputKey::B => {},
        InputKey::N => {},
        InputKey::M => {},
        InputKey::Comma => {},
        InputKey::Fullstop => {},
        InputKey::Slash => {},
        InputKey::Rshift => {},
        InputKey::Pmultiply => {},
        InputKey::Lalt => {},
        InputKey::Space => {},
        InputKey::Capslock => {},
        InputKey::F1 => {},
        InputKey::F2 => {},
        InputKey::F3 => {},
        InputKey::F4 => {},
        InputKey::F5 => {},
        InputKey::F6 => {},
        InputKey::F7 => {},
        InputKey::F8 => {},
        InputKey::F9 => {},
        InputKey::F10 => {},
        InputKey::Numlock => {},
        InputKey::Scrolllock => {},
        InputKey::P7 => {},
        InputKey::P8 => {},
        InputKey::P9 => {},
        InputKey::Pminus => {},
        InputKey::P4 => {},
        InputKey::P5 => {},
        InputKey::P6 => {},
        InputKey::Pplus => {},
        InputKey::P1 => {},
        InputKey::P2 => {},
        InputKey::P3 => {},
        InputKey::P0 => {},
        InputKey::Pfullstop => {},
        InputKey::F11 => {},
        InputKey::F12 => {},
        InputKey::F13 => {},
        InputKey::F14 => {},
        InputKey::F15 => {},
        InputKey::Kana => {},
        InputKey::Convert => {},
        InputKey::Noconvert => {},
        InputKey::Yen => {},
        InputKey::Pequals => {},
        InputKey::Circumflex => {},
        InputKey::At => {},
        InputKey::Colon => {},
        InputKey::Underline => {},
        InputKey::Kanji => {},
        InputKey::Stop => {},
        InputKey::Ax => {},
        InputKey::Unlabeled => {},
        InputKey::Penter => {},
        InputKey::Rcontrol => {},
        InputKey::Pcomma => {},
        InputKey::Pdivide => {},
        InputKey::Sysrq => {},
        InputKey::Ralt => {},
        InputKey::Home => {},
        InputKey::Up => {},
        InputKey::Pageup => {},
        InputKey::Left => {},
        InputKey::Right => {},
        InputKey::End => {},
        InputKey::Down => {},
        InputKey::Pagedown => {},
        InputKey::Insert => {},
        InputKey::Delete => {},
        InputKey::Lwin => {},
        InputKey::Rwin => {},
        InputKey::Apps => {},
    }
}

/// The C++ symbol whose value in the [`ActionRegisteredType`] table is `value`.
pub open spec fn action_registered_type_symbol_at(value: i32) -> Option<Seq<char>> {
    match value {
        0i32 => Some("ACTION_NULL"@),
        1i32 => Some("ACTION_JACK_OF_BLADES_HIT_RESPONSE"@),
        2i32 => Some("ACTION_SCORPION_KING_HIT_RESPONSE"@),
        3i32 => Some("ACTION_MAZE_CAUSE_FORCE_PUSH_HIT_RESPONSE"@),
        4i32 => Some("ACTION_ROCK_TROLL_DEATH"@),
        5i32 => Some("ACTION_KING_SCORPION_DEATH"@),
        6i32 => Some("ACTION_WASP_QUEEN_DEATH"@),
        7i32 => Some("ACTION_COMBAT_GENERIC_PROJECTILE_WEAPON_AIM"@),
        8i32 => Some("ACTION_COMBAT_GENERIC_PROJECTILE_WEAPON_FIRE"@),
        9i32 => Some("ACTION_COMBAT_GENERIC_PROJECTILE_WEAPON_LOAD"@),
        10i32 => Some("ACTION_COMBAT_GENERIC_LEADER_COMMAND"@),
        11i32 => Some("ACTION_COMBAT_GENERIC_BOAST"@),
        12i32 => Some("ACTION_COMBAT_UNBLOCKABLE_ATTACK"@),
        13i32 => Some("ACTION_COMBAT_HOP_BACK"@),
        14i32 => Some("ACTION_COMBAT_STRAFE_FORWARD"@),
        15i32 => Some("ACTION_COMBAT_STRAFE_BACKWARD"@),
        16i32 => Some("ACTION_COMBAT_STRAFE_LEFT"@),
        17i32 => Some("ACTION_COMBAT_STRAFE_RIGHT"@),
        18i32 => Some("ACTION_COMBAT_STRAFE_BACK_LEFT"@),
        19i32 => Some("ACTION_COMBAT_STRAFE_BACK_RIGHT"@),
        20i32 => Some("ACTION_COMBAT_CHARGE"@),
        21i32 => Some("ACTION_COMBAT_IDLE"@),
        22i32 => Some("ACTION_BREAK_INTO_MELEE"@),
        23i32 => Some("ACTION_COMBAT_SUMMON_CREATURES"@),
        24i32 => Some("ACTION_COMBAT_ATTACK_LUNGE"@),
        25i32 => Some("ACTION_COMBAT_ATTACK_MAIN"@),
        26i32 => Some("ACTION_COMBAT_ATTACK_KNOCKDOWN"@),
        27i32 => Some("ACTION_COMBAT_ATTACK_SIDE"@),
        28i32 => Some("ACTION_COMBAT_ATTACK_SHORT_RANGE"@),
        29i32 => Some("ACTION_BANDIT_KING_HIT_RESPONSE"@),
        30i32 => Some("ACTION_BANDIT_KING_STUCK_HIT_RESPONSE"@),
        31i32 => Some("ACTION_HOBBE_SPELLCASTER_AIM"@),
        32i32 => Some("ACTION_HOBBE_SPELLCASTER_FIRE"@),
        33i32 => Some("ACTION_HOBBE_LUNGE"@),
        34i32 => Some("ACTION_TENTACLE_HIT_RESPONSE"@),
        35i32 => Some("ACTION_SCREAMER_DIE"@),
        36i32 => Some("ACTION_SCREAMER_DRAIN_ATTACK"@),
        37i32 => Some("ACTION_SCREAMER_DRAIN_OUT_OF"@),
        38i32 => Some("ACTION_SCREAMER_ADVANCE"@),
        39i32 => Some("ACTION_SCREAMER_BACK_OFF"@),
        40i32 => Some("ACTION_SCREAMER_IDLE"@),
        41i32 => Some("ACTION_COMBAT_BODGE_SIDE_ATTACK"@),
        42i32 => Some("ACTION_COMBAT_TURN_STRIKE_LEFT"@),
        43i32 => Some("ACTION_COMBAT_TURN_STRIKE_RIGHT"@),
        44i32 => Some("ACTION_COMBAT_CHARGE_STRIKE"@),
        45i32 => Some("ACTION_NYMPH_GET_HIT"@),
        46i32 => Some("ACTION_NYMPH_GET_HIT_DIE"@),
        47i32 => Some("ACTION_BALVERINE_LUNGE_ATTACK"@),
        48i32 => Some("ACTION_BALVERINE_BREAK_OFF_FROM_COMBAT"@),
        49i32 => Some("ACTION_BALVERINE_BREAK_OFF_FROM_COMBAT_LONG"@),
        50i32 => Some("ACTION_SUMMONER_FLAME_SLICE"@),
        51i32 => Some("ACTION_SUMMONER_UNSHEATHE_STRIKE"@),
        52i32 => Some("ACTION_SUMMONER_STRIKE"@),
        53i32 => Some("ACTION_BATTLE_CHARGE"@),
        54i32 => Some("ACTION_SUMMONER_DIE"@),
        _ => None,
    }
}

/// Each [`ActionRegisteredType`] variant is written as the value its C++ symbol has in
/// the table, and each table value reads back the variant of its symbol.
#[verifier::rlimit(50)]
pub proof fn lemma_action_registered_type_symbols(e: ActionRegisteredType, v: i32)
    ensures
        action_registered_type_symbol_at(e.wire_value()) == Some(e.symbol_of()),
        ActionRegisteredType::lookup(v) matches Some(x) ==> action_registered_type_symbol_at(v) == Some(x.symbol_of()),
        ActionRegisteredType::lookup(v) is None <==> action_registered_type_symbol_at(v) is None,
{
    match e {
        ActionRegisteredType::NULL => {},
        ActionRegisteredType::JACKOFBLADESHITRESPONSE => {},
        ActionRegisteredType::SCORPIONKINGHITRESPONSE => {},
        ActionRegisteredType::MAZECAUSEFORCEPUSHHITRESPONSE => {},
        ActionRegisteredType::ROCKTROLLDEATH => {},
        ActionRegisteredType::KINGSCORPIONDEATH => {},
        ActionRegisteredType::WASPQUEENDEATH => {},
        ActionRegisteredType::COMBATGENERICPROJECTILEWEAPONAIM => {},
        ActionRegisteredType::COMBATGENERICPROJECTILEWEAPONFIRE => {},
        ActionRegisteredType::COMBATGENERICPROJECTILEWEAPONLOAD => {},
        ActionRegisteredType::COMBATGENERICLEADERCOMMAND => {},
        ActionRegisteredType::COMBATGENERICBOAST => {},
        ActionRegisteredType::COMBATUNBLOCKABLEATTACK => {},
        ActionRegisteredType::COMBATHOPBACK => {},
        ActionRegisteredType::COMBATSTRAFEFORWARD => {},
        ActionRegisteredType::COMBATSTRAFEBACKWARD => {},
        ActionRegisteredType::COMBATSTRAFELEFT => {},
        ActionRegisteredType::COMBATSTRAFERIGHT => {},
        ActionRegisteredType::COMBATSTRAFEBACKLEFT => {},
        ActionRegisteredType::COMBATSTRAFEBACKRIGHT => {},
        ActionRegisteredType::COMBATCHARGE => {},
        ActionRegisteredType::COMBATIDLE => {},
        ActionRegisteredType::BREAKINTOMELEE => {},
        ActionRegisteredType::COMBATSUMMONCREATURES => {},
        ActionRegisteredType::COMBATATTACKLUNGE => {},
        ActionRegisteredType::COMBATATTACKMAIN => {},
        ActionRegisteredType::COMBATATTACKKNOCKDOWN => {},
        ActionRegisteredType::COMBATATTACKSIDE => {},
        ActionRegisteredType::COMBATATTACKSHORTRANGE => {},
        ActionRegisteredType::BANDITKINGHITRESPONSE => {},
        ActionRegisteredType::BANDITKINGSTUCKHITRESPONSE => {},
        ActionRegisteredType::HOBBESPELLCASTERAIM => {},
        ActionRegisteredType::HOBBESPELLCASTERFIRE => {},
        ActionRegisteredType::HOBBELUNGE => {},
        ActionRegisteredType::TENTACLEHITRESPONSE => {},
        ActionRegisteredType::SCREAMERDIE => {},
        ActionRegisteredType::SCREAMERDRAINATTACK => {},
        ActionRegisteredType::SCREAMERDRAINOUTOF => {},
        ActionRegisteredType::SCREAMERADVANCE => {},
        ActionRegisteredType::SCREAMERBACKOFF => {},
        ActionRegisteredType::SCREAMERIDLE => {},
        ActionRegisteredType::COMBATBODGESIDEATTACK => {},
        ActionRegisteredType::COMBATTURNSTRIKELEFT => {},
        ActionRegisteredType::COMBATTURNSTRIKERIGHT => {},
        ActionRegisteredType::COMBATCHARGESTRIKE => {},
        ActionRegisteredType::NYMPHGETHIT => {},
        ActionRegisteredType::NYMPHGETHITDIE => {},
        ActionRegisteredType::BALVERINELUNGEATTACK => {},
        ActionRegisteredType::BALVERINEBREAKOFFFROMCOMBAT => {},
        ActionRegisteredType::BALVERINEBREAKOFFFROMCOMBATLONG => {},
        ActionRegisteredType::SUMMONERFLAMESLICE => {},
        ActionRegisteredType::SUMMONERUNSHEATHESTRIKE => {},
        ActionRegisteredType::SUMMONERSTRIKE => {},
        ActionRegisteredType::BATTLECHARGE => {},
        ActionRegisteredType::SUMMONERDIE => {},
    }
}

/// The C++ symbol whose value in the [`ClockHandType`] table is `value`.
pub open spec fn clock_hand_type_symbol_at(value: i32) -> Option<Seq<char>> {
    match value {
        0i32 => Some("CLOCKHAND_SECOND"@),
        1i32 => Some("CLOCKHAND_MINUTE"@),
        2i32 => Some("CLOCKHAND_HOUR"@),
        _ => None,
    }
}

/// Each [`ClockHandType`] variant is written as the value its C++ symbol has in
/// the table, and each table value reads back the variant of its symbol.
pub proof fn lemma_clock_hand_type_symbols(e: ClockHandType, v: i32)
    ensures
        clock_hand_type_symbol_at(e.wire_value()) == Some(e.symbol_of()),
        ClockHandType::lookup(v) matches Some(x) ==> clock_hand_type_symbol_at(v) == Some(x.symbol_of()),
        ClockHandType::lookup(v) is None <==> clock_hand_type_symbol_at(v) is None,
{
    match e {
        ClockHandType::SECOND => {},
        ClockHandType::MINUTE => {},
        ClockHandType::HOUR => {},
    }
}

/// The C++ symbol whose value in the [`ClothingSuitPart`] table is `value`.
pub open spec fn clothing_suit_part_symbol_at(value: i32) -> Option<Seq<char>> {
    match value {
        0i32 => Some("CLOTHING_SUIT_NULL"@),
        1i32 => Some("CLOTHING_SUIT_HEAD"@),
        2i32 => Some("CLOTHING_SUIT_BODY"@),
        3i32 => Some("CLOTHING_SUIT_HANDS"@),
        4i32 => Some("CLOTHING_SUIT_LEGS"@),
        5i32 => Some("CLOTHING_SUIT_FEET"@),
        _ => None,
    }
}

/// Each [`ClothingSuitPart`] variant is written as the value its C++ symbol has in
/// the table, and each table value reads back the variant of its symbol.
pub proof fn lemma_clothing_suit_part_symbols(e: ClothingSuitPart, v: i32)
    ensures
        clothing_suit_part_symbol_at(e.wire_value()) == Some(e.symbol_of()),
        ClothingSuitPart::lookup(v) matches Some(x) ==> clothing_suit_part_symbol_at(v) == Some(x.symbol_of()),
        ClothingSuitPart::lookup(v) is None <==> clothing_suit_part_symbol_at(v) is None,
{
    match e {
        ClothingSuitPart::NULL => {},
        ClothingSuitPart::HEAD => {},
        ClothingSuitPart::BODY => {},
        ClothingSuitPart::HANDS => {},
        ClothingSuitPart::LEGS => {},
        ClothingSuitPart::FEET => {},
    }
}

/// The C++ symbol whose value in the [`CombatCreatureType`] table is `value`.
pub open spec fn combat_creature_type_symbol_at(value: i32) -> Option<Seq<char>> {
    match value {
        0i32 => Some("CREATURE_TYPE_HERO"@),
        1i32 => Some("CREATURE_TYPE_RIVAL_HERO"@),
        2i32 => Some("CREATURE_TYPE_FODDER_CREATURE"@),
        3i32 => Some("CREATURE_TYPE_COMBAT_HUMANOID"@),
        4i32 => Some("CREATURE_TYPE_COMBAT_ANIMAL"@),
        5i32 => Some("CREATURE_TYPE_VILLAGER_MALE"@),
        6i32 => Some("CREATURE_TYPE_VILLAGER_FEMALE"@),
        7i32 => Some("CREATURE_TYPE_VILLAGER_CHILD"@),
        8i32 => Some("CREATURE_TYPE_GUARD"@),
        _ => None,
    }
}

/// Each [`CombatCreatureType`] variant is written as the value its C++ symbol has in
/// the table, and each table value reads back the variant of its symbol.
pub proof fn lemma_combat_creature_type_symbols(e: CombatCreatureType, v: i32)
    ensures
        combat_creature_type_symbol_at(e.wire_value()) == Some(e.symbol_of()),
        CombatCreatureType::lookup(v) matches Some(x) ==> combat_creature_type_symbol_at(v) == Some(x.symbol_of()),
        CombatCreatureType::lookup(v) is None <==> combat_creature_type_symbol_at(v) is None,
{
    match e {
        CombatCreatureType::HERO => {},
        CombatCreatureType::RIVALHERO => {},
        CombatCreatureType::FODDERCREATURE => {},
        CombatCreatureType::COMBATHUMANOID => {},
        CombatCreatureType::COMBATANIMAL => {},
        CombatCreatureType::VILLAGERMALE => {},
        CombatCreatureType::VILLAGERFEMALE => {},
        CombatCreatureType::VILLAGERCHILD => {},
        CombatCreatureType::GUARD => {},
    }
}

/// The C++ symbol whose value in the [`CombatSequenceInterruptionType`] table is `value`.
pub open spec fn combat_sequence_interruption_type_symbol_at(value: i32) -> Option<Seq<char>> {
    match value {
        0i32 => Some("COMBAT_SEQUENCE_INTERRUPT_NULL"@),
        1i32 => Some("COMBAT_SEQUENCE_INTERRUPTABLE"@),
        2i32 => Some("COMBAT_SEQUENCE_INTERRUPTABLE_DUE_TO_ZONE_CHANGE"@),
        _ => None,
    }
}

/// Each [`CombatSequenceInterruptionType`] variant is written as the value its C++ symbol has in
/// the table, and each table value reads back the variant of its symbol.
pub proof fn lemma_combat_sequence_interruption_type_symbols(e: CombatSequenceInterruptionType, v: i32)
    ensures
        combat_sequence_interruption_type_symbol_at(e.wire_value()) == Some(e.symbol_of()),
        CombatSequenceInterruptionType::lookup(v) matches Some(x) ==> combat_sequence_interruption_type_symbol_at(v) == Some(x.symbol_of()),
        CombatSequenceInterruptionType::lookup(v) is None <==> combat_sequence_interruption_type_symbol_at(v) is None,
{
    match e {
        CombatSequenceInterruptionType::INTERRUPTNULL => {},
        CombatSequenceInterruptionType::INTERRUPTABLE => {},
        CombatSequenceInterruptionType::INTERRUPTABLEDUETOZONECHANGE => {},
    }
}

/// The C++ symbol whose value in the [`CombatSequenceIsValidType`] table is `value`.
pub open spec fn combat_sequence_is_valid_type_symbol_at(value: i32) -> Option<Seq<char>> {
    match value {
        0i32 => Some("COMBAT_SEQUENCE_IS_VALID_NULL"@),
        1i32 => Some("COMBAT_SEQUENCE_IS_VALID_TARGET_BLOCKING"@),
        2i32 => Some("COMBAT_SEQUENCE_IS_VALID_LOAD_RANGED_WEAPON"@),
        3i32 => Some("COMBAT_SEQUENCE_IS_VALID_FIRE_AT_TARGET"@),
        4i32 => Some("COMBAT_SEQUENCE_IS_VALID_IS_TARGET_HEALTH_OVER_75"@),
        5i32 => Some("COMBAT_SEQUENCE_IS_VALID_IS_MY_HEALTH_BELOW_30"@),
        6i32 => Some("COMBAT_SEQUENCE_IS_VALID_IS_BALVERINE_ABLE_TO_LUNGE"@),
        7i32 => Some("COMBAT_SEQUENCE_IS_VALID_ABLE_TO_SUMMON"@),
        8i32 => Some("COMBAT_SEQUENCE_IS_TARGET_IN_LINE_OF_SIGHT"@),
        _ => None,
    }
}

/// Each [`CombatSequenceIsValidType`] variant is written as the value its C++ symbol has in
/// the table, and each table value reads back the variant of its symbol.
pub proof fn lemma_combat_sequence_is_valid_type_symbols(e: CombatSequenceIsValidType, v: i32)
    ensures
        combat_sequence_is_valid_type_symbol_at(e.wire_value()) == Some(e.symbol_of()),
        CombatSequenceIsValidType::lookup(v) matches Some(x) ==> combat_sequence_is_valid_type_symbol_at(v) == Some(x.symbol_of()),
        CombatSequenceIsValidType::lookup(v) is None <==> combat_sequence_is_valid_type_symbol_at(v) is None,
{
    match e {
        CombatSequenceIsValidType::VALIDNULL => {},
        CombatSequenceIsValidType::VALIDTARGETBLOCKING => {},
        CombatSequenceIsValidType::VALIDLOADRANGEDWEAPON => {},
        CombatSequenceIsValidType::VALIDFIREATTARGET => {},
        CombatSequenceIsValidType::VALIDISTARGETHEALTHOVER75 => {},
        CombatSequenceIsValidType::VALIDISMYHEALTHBELOW30 => {},
        CombatSequenceIsValidType::VALIDISBALVERINEABLETOLUNGE => {},
        CombatSequenceIsValidType::VALIDABLETOSUMMON => {},
        CombatSequenceIsValidType::TARGETINLINEOFSIGHT => {},
    }
}

/// The C++ symbol whose value in the [`CombatSequenceOnStartModuleType`] table is `value`.
pub open spec fn combat_sequence_on_start_module_type_symbol_at(value: i32) -> Option<Seq<char>> {
    match value {
        0i32 => Some("COMBAT_SEQUENCE_ON_START_NULL"@),
        1i32 => Some("COMBAT_SEQUENCE_ON_START_CONTINUE_AIMING"@),
        _ => None,
    }
}

/// Each [`CombatSequenceOnStartModuleType`] variant is written as the value its C++ symbol has in
/// the table, and each table value reads back the variant of its symbol.
pub proof fn lemma_combat_sequence_on_start_module_type_symbols(e: CombatSequenceOnStartModuleType, v: i32)
    ensures
        combat_sequence_on_start_module_type_symbol_at(e.wire_value()) == Some(e.symbol_of()),
        CombatSequenceOnStartModuleType::lookup(v) matches Some(x) ==> combat_sequence_on_start_module_type_symbol_at(v) == Some(x.symbol_of()),
        CombatSequenceOnStartModuleType::lookup(v) is None <==> combat_sequence_on_start_module_type_symbol_at(v) is None,
{
    match e {
        CombatSequenceOnStartModuleType::NULL => {},
        CombatSequenceOnStartModuleType::CONTINUEAIMING => {},
    }
}

/// The C++ symbol whose value in the [`CombatSequenceOnStopModuleType`] table is `value`.
pub open spec fn combat_sequence_on_stop_module_type_symbol_at(value: i32) -> Option<Seq<char>> {
    match value {
        0i32 => Some("COMBAT_SEQUENCE_ON_STOP_NULL"@),
        _ => None,
    }
}

/// Each [`CombatSequenceOnStopModuleType`] variant is written as the value its C++ symbol has in
/// the table, and each table value reads back the variant of its symbol.
pub proof fn lemma_combat_sequence_on_stop_module_type_symbols(e: CombatSequenceOnStopModuleType, v: i32)
    ensures
        combat_sequence_on_stop_module_type_symbol_at(e.wire_value()) == Some(e.symbol_of()),
        CombatSequenceOnStopModuleType::lookup(v) matches Some(x) ==> combat_sequence_on_stop_module_type_symbol_at(v) == Some(x.symbol_of()),
        CombatSequenceOnStopModuleType::lookup(v) is None <==> combat_sequence_on_stop_module_type_symbol_at(v) is None,
{
    match e {
        CombatSequenceOnStopModuleType::NULL => {},
    }
}

/// The C++ symbol whose value in the [`CombatSequenceType`] table is `value`.
pub open spec fn combat_sequence_type_symbol_at(value: i32) -> Option<Seq<char>> {
    match value {
        0i32 => Some("COMBAT_SEQUENCE_NULL"@),
        1i32 => Some("COMBAT_SEQUENCE_MELEE"@),
        2i32 => Some("COMBAT_SEQUENCE_BREAK_INTO_MELEE"@),
        3i32 => Some("COMBAT_SEQUENCE_BOAST"@),
        4i32 => Some("COMBAT_SEQUENCE_LEADER"@),
        _ => None,
    }
}

/// Each [`CombatSequenceType`] variant is written as the value its C++ symbol has in
/// the table, and each table value reads back the variant of its symbol.
pub proof fn lemma_combat_sequence_type_symbols(e: CombatSequenceType, v: i32)
    ensures
        combat_sequence_type_symbol_at(e.wire_value()) == Some(e.symbol_of()),
        CombatSequenceType::lookup(v) matches Some(x) ==> combat_sequence_type_symbol_at(v) == Some(x.symbol_of()),
        CombatSequenceType::lookup(v) is None <==> combat_sequence_type_symbol_at(v) is None,
{
    match e {
        CombatSequenceType::NULL => {},
        CombatSequenceType::MELEE => {},
        CombatSequenceType::BREAKINTOMELEE => {},
        CombatSequenceType::BOAST => {},
        CombatSequenceType::LEADER => {},
    }
}

/// The C++ symbol whose value in the [`CombatStrikeRecoilStyle`] table is `value`.
pub open spec fn combat_strike_recoil_style_symbol_at(value: i32) -> Option<Seq<char>> {
    match value {
        0i32 => Some("RECOIL_BREAK_HANDEDNESS"@),
        1i32 => Some("RECOIL_MAINTATIN_HANDEDNESS"@),
        2i32 => Some("RECOIL_NONE"@),
        3i32 => Some("MAX_NUMBER_OF_RECOIL_TYPES"@),
        _ => None,
    }
}

/// Each [`CombatStrikeRecoilStyle`] variant is written as the value its C++ symbol has in
/// the table, and each table value reads back the variant of its symbol.
pub proof fn lemma_combat_strike_recoil_style_symbols(e: CombatStrikeRecoilStyle, v: i32)
    ensures
        combat_strike_recoil_style_symbol_at(e.wire_value()) == Some(e.symbol_of()),
        CombatStrikeRecoilStyle::lookup(v) matches Some(x) ==> combat_strike_recoil_style_symbol_at(v) == Some(x.symbol_of()),
        CombatStrikeRecoilStyle::lookup(v) is None <==> combat_strike_recoil_style_symbol_at(v) is None,
{
    match e {
        CombatStrikeRecoilStyle::RECOILBREAKHANDEDNESS => {},
        CombatStrikeRecoilStyle::RECOILMAINTATINHANDEDNESS => {},
        CombatStrikeRecoilStyle::RECOILNONE => {},
        CombatStrikeRecoilStyle::MAXNUMBEROFRECOILTYPES => {},
    }
}

/// The C++ symbol whose value in the [`CompositeBlendType`] table is `value`.
pub open spec fn composite_blend_type_symbol_at(value: i32) -> Option<Seq<char>> {
    match value {
        0i32 => Some("COMPOSITE_BLEND_NULL"@),
        1i32 => Some("COMPOSITE_BLEND_ADDITIVE"@),
        2i32 => Some("COMPOSITE_BLEND_ALPHA"@),
        3i32 => Some("COMPOSITE_BLEND_SOLID"@),
        4i32 => Some("COMPOSITE_BLEND_MULTIPLY"@),
        _ => None,
    }
}

/// Each [`CompositeBlendType`] variant is written as the value its C++ symbol has in
/// the table, and each table value reads back the variant of its symbol.
pub proof fn lemma_composite_blend_type_symbols(e: CompositeBlendType, v: i32)
    ensures
        composite_blend_type_symbol_at(e.wire_value()) == Some(e.symbol_of()),
        CompositeBlendType::lookup(v) matches Some(x) ==> composite_blend_type_symbol_at(v) == Some(x.symbol_of()),
        CompositeBlendType::lookup(v) is None <==> composite_blend_type_symbol_at(v) is None,
{
    match e {
        CompositeBlendType::NULL => {},
        CompositeBlendType::ADDITIVE => {},
        CompositeBlendType::ALPHA => {},
        CompositeBlendType::SOLID => {},
        CompositeBlendType::MULTIPLY => {},
    }
}

/// The C++ symbol whose value in the [`ContextSensitiveType`] table is `value`.
pub open spec fn context_sensitive_type_symbol_at(value: i32) -> Option<Seq<char>> {
    match value {
        0i32 => Some("CONTEXT_SENSITIVE_NULL"@),
        1i32 => Some("CONTEXT_SENSITIVE_GUILD_SEAL"@),
        2i32 => Some("CONTEXT_SENSITIVE_LAMP"@),
        3i32 => Some("CONTEXT_SENSITIVE_HEALTH"@),
        4i32 => Some("CONTEXT_SENSITIVE_MANA"@),
        5i32 => Some("CONTEXT_SENSITIVE_EXPRESSION"@),
        6i32 => Some("CONTEXT_SENSITIVE_OPINION_EXPRESSION"@),
        7i32 => Some("CONTEXT_SENSITIVE_GIFT"@),
        8i32 => Some("CONTEXT_SENSITIVE_MARKER"@),
        9i32 => Some("CONTEXT_SENSITIVE_TROPHY"@),
        10i32 => Some("CONTEXT_SENSITIVE_SCRIPT"@),
        _ => None,
    }
}

/// Each [`ContextSensitiveType`] variant is written as the value its C++ symbol has in
/// the table, and each table value reads back the variant of its symbol.
pub proof fn lemma_context_sensitive_type_symbols(e: ContextSensitiveType, v: i32)
    ensures
        context_sensitive_type_symbol_at(e.wire_value()) == Some(e.symbol_of()),
        ContextSensitiveType::lookup(v) matches Some(x) ==> context_sensitive_type_symbol_at(v) == Some(x.symbol_of()),
        ContextSensitiveType::lookup(v) is None <==> context_sensitive_type_symbol_at(v) is None,
{
    match e {
        ContextSensitiveType::NULL => {},
        ContextSensitiveType::GUILDSEAL => {},
        ContextSensitiveType::LAMP => {},
        ContextSensitiveType::HEALTH => {},
        ContextSensitiveType::MANA => {},
        ContextSensitiveType::EXPRESSION => {},
        ContextSensitiveType::OPINIONEXPRESSION => {},
        ContextSensitiveType::GIFT => {},
        ContextSensitiveType::MARKER => {},
        ContextSensitiveType::TROPHY => {},
        ContextSensitiveType::SCRIPT => {},
    }
}

/// The C++ symbol whose value in the [`ControlledMovementType`] table is `value`.
pub open spec fn controlled_movement_type_symbol_at(value: i32) -> Option<Seq<char>> {
    match value {
        0i32 => Some("CONTROLLED_MOVEMENT_NULL"@),
        1i32 => Some("CONTROLLED_MOVEMENT_WALKING"@),
        2i32 => Some("CONTROLLED_MOVEMENT_FLYING"@),
        3i32 => Some("CONTROLLED_MOVEMENT_FIRST_PERSON"@),
        _ => None,
    }
}

/// Each [`ControlledMovementType`] variant is written as the value its C++ symbol has in
/// the table, and each table value reads back the variant of its symbol.
pub proof fn lemma_controlled_movement_type_symbols(e: ControlledMovementType, v: i32)
    ensures
        controlled_movement_type_symbol_at(e.wire_value()) == Some(e.symbol_of()),
        ControlledMovementType::lookup(v) matches Some(x) ==> controlled_movement_type_symbol_at(v) == Some(x.symbol_of()),
        ControlledMovementType::lookup(v) is None <==> controlled_movement_type_symbol_at(v) is None,
{
    match e {
        ControlledMovementType::NULL => {},
        ControlledMovementType::WALKING => {},
        ControlledMovementType::FLYING => {},
        ControlledMovementType::FIRSTPERSON => {},
    }
}

/// The C++ symbol whose value in the [`CreatureAbility`] table is `value`.
pub open spec fn creature_ability_symbol_at(value: i32) -> Option<Seq<char>> {
    match value {
        0i32 => Some("CREATURE_ABILITY_TYPE_ATTACK"@),
        1i32 => Some("CREATURE_ABILITY_TYPE_FLOURISH"@),
        2i32 => Some("CREATURE_ABILITY_TYPE_FLOURISH_360_CW"@),
        3i32 => Some("CREATURE_ABILITY_TYPE_FLOURISH_360_ACW"@),
        4i32 => Some("CREATURE_ABILITY_TYPE_FLOURISH_UPTHRUST_LEFT"@),
        5i32 => Some("CREATURE_ABILITY_TYPE_FLOURISH_UPTHRUST_RIGHT"@),
        6i32 => Some("CREATURE_ABILITY_TYPE_FLOURISH_MAXIMUM_DAMAGE"@),
        7i32 => Some("CREATURE_ABILITY_TYPE_BREAK_BLOCK"@),
        8i32 => Some("MAX_NUMBER_OF_CREATURE_ABILITIES"@),
        _ => None,
    }
}

/// Each [`CreatureAbility`] variant is written as the value its C++ symbol has in
/// the table, and each table value reads back the variant of its symbol.
pub proof fn lemma_creature_ability_symbols(e: CreatureAbility, v: i32)
    ensures
        creature_ability_symbol_at(e.wire_value()) == Some(e.symbol_of()),
        CreatureAbility::lookup(v) matches Some(x) ==> creature_ability_symbol_at(v) == Some(x.symbol_of()),
        CreatureAbility::lookup(v) is None <==> creature_ability_symbol_at(v) is None,
{
    match e {
        CreatureAbility::CREATUREABILITYTYPEATTACK => {},
        CreatureAbility::CREATUREABILITYTYPEFLOURISH => {},
        CreatureAbility::CREATUREABILITYTYPEFLOURISH360CW => {},
        CreatureAbility::CREATUREABILITYTYPEFLOURISH360ACW => {},
        CreatureAbility::CREATUREABILITYTYPEFLOURISHUPTHRUSTLEFT => {},
        CreatureAbility::CREATUREABILITYTYPEFLOURISHUPTHRUSTRIGHT => {},
        CreatureAbility::CREATUREABILITYTYPEFLOURISHMAXIMUMDAMAGE => {},
        CreatureAbility::CREATUREABILITYTYPEBREAKBLOCK => {},
        CreatureAbility::MAXNUMBEROFCREATUREABILITIES => {},
    }
}

/// The C++ symbol whose value in the [`CreatureGeneratorGenerateType`] table is `value`.
pub open spec fn creature_generator_generate_type_symbol_at(value: i32) -> Option<Seq<char>> {
    match value {
        0i32 => Some("GENERATE_NORMAL"@),
        1i32 => Some("GENERATE_AMBUSH_DROP_IN"@),
        2i32 => Some("GENERATE_AMBUSH_JUMP_OUT"@),
        3i32 => Some("GENERATE_GENERATOR_ANIMATION"@),
        4i32 => Some("GENERATE_UNDEAD"@),
        _ => None,
    }
}

/// Each [`CreatureGeneratorGenerateType`] variant is written as the value its C++ symbol has in
/// the table, and each table value reads back the variant of its symbol.
pub proof fn lemma_creature_generator_generate_type_symbols(e: CreatureGeneratorGenerateType, v: i32)
    ensures
        creature_generator_generate_type_symbol_at(e.wire_value()) == Some(e.symbol_of()),
        CreatureGeneratorGenerateType::lookup(v) matches Some(x) ==> creature_generator_generate_type_symbol_at(v) == Some(x.symbol_of()),
        CreatureGeneratorGenerateType::lookup(v) is None <==> creature_generator_generate_type_symbol_at(v) is None,
{
    match e {
        CreatureGeneratorGenerateType::NORMAL => {},
        CreatureGeneratorGenerateType::AMBUSHDROPIN => {},
        CreatureGeneratorGenerateType::AMBUSHJUMPOUT => {},
        CreatureGeneratorGenerateType::GENERATORANIMATION => {},
        CreatureGeneratorGenerateType::UNDEAD => {},
    }
}

/// The C++ symbol whose value in the [`CreatureType`] table is `value`.
pub open spec fn creature_type_symbol_at(value: i32) -> Option<Seq<char>> {
    match value {
        0i32 => Some("NOT_HUMAN"@),
        1i32 => Some("HUMAN_CHILD"@),
        2i32 => Some("HUMAN_ADULT"@),
        3i32 => Some("HUMAN_ELDERLY"@),
        _ => None,
    }
}

/// Each [`CreatureType`] variant is written as the value its C++ symbol has in
/// the table, and each table value reads back the variant of its symbol.
pub proof fn lemma_creature_type_symbols(e: CreatureType, v: i32)
    ensures
        creature_type_symbol_at(e.wire_value()) == Some(e.symbol_of()),
        CreatureType::lookup(v) matches Some(x) ==> creature_type_symbol_at(v) == Some(x.symbol_of()),
        CreatureType::lookup(v) is None <==> creature_type_symbol_at(v) is None,
{
    match e {
        CreatureType::NOTHUMAN => {},
        CreatureType::HUMANCHILD => {},
        CreatureType::HUMANADULT => {},
        CreatureType::HUMANELDERLY => {},
    }
}

/// The C++ symbol whose value in the [`CrimeSeverity`] table is `value`.
pub open spec fn crime_severity_symbol_at(value: i32) -> Option<Seq<char>> {
    match value {
        0i32 => Some("CRIME_SEVERITY_NONE"@),
        1i32 => Some("CRIME_SEVERITY_MINOR"@),
        2i32 => Some("CRIME_SEVERITY_MODERATE"@),
        3i32 => Some("CRIME_SEVERITY_SERIOUS"@),
        _ => None,
    }
}

/// Each [`CrimeSeverity`] variant is written as the value its C++ symbol has in
/// the table, and each table value reads back the variant of its symbol.
pub proof fn lemma_crime_severity_symbols(e: CrimeSeverity, v: i32)
    ensures
        crime_severity_symbol_at(e.wire_value()) == Some(e.symbol_of()),
        CrimeSeverity::lookup(v) matches Some(x) ==> crime_severity_symbol_at(v) == Some(x.symbol_of()),
        CrimeSeverity::lookup(v) is None <==> crime_severity_symbol_at(v) is None,
{
    match e {
        CrimeSeverity::NONE => {},
        CrimeSeverity::MINOR => {},
        CrimeSeverity::MODERATE => {},
        CrimeSeverity::SERIOUS => {},
    }
}

/// The C++ symbol whose value in the [`DamageAttribute`] table is `value`.
pub open spec fn damage_attribute_symbol_at(value: i32) -> Option<Seq<char>> {
    match value {
        -1i32 => Some("DAMAGE_NULL"@),
        0i32 => Some("DAMAGE_MELEE"@),
        1i32 => Some("DAMAGE_MELEE_UNARMED"@),
        2i32 => Some("DAMAGE_LIGHTNING"@),
        3i32 => Some("DAMAGE_FIRE"@),
        4i32 => Some("DAMAGE_PROJECTILE"@),
        5i32 => Some("DAMAGE_EXPLOSION"@),
        6i32 => Some("DAMAGE_DRAIN"@),
        7i32 => Some("DAMAGE_DRAIN_HEAL"@),
        8i32 => Some("DAMAGE_GENERIC_WILL"@),
        9i32 => Some("DAMAGE_DIVINE_WRATH"@),
        10i32 => Some("DAMAGE_UNHOLY_POWER"@),
        _ => None,
    }
}

/// Each [`DamageAttribute`] variant is written as the value its C++ symbol has in
/// the table, and each table value reads back the variant of its symbol.
pub proof fn lemma_damage_attribute_symbols(e: DamageAttribute, v: i32)
    ensures
        damage_attribute_symbol_at(e.wire_value()) == Some(e.symbol_of()),
        DamageAttribute::lookup(v) matches Some(x) ==> damage_attribute_symbol_at(v) == Some(x.symbol_of()),
        DamageAttribute::lookup(v) is None <==> damage_attribute_symbol_at(v) is None,
{
    match e {
        DamageAttribute::NULL => {},
        DamageAttribute::MELEE => {},
        DamageAttribute::MELEEUNARMED => {},
        DamageAttribute::LIGHTNING => {},
        DamageAttribute::FIRE => {},
        DamageAttribute::PROJECTILE => {},
        DamageAttribute::EXPLOSION => {},
        DamageAttribute::DRAIN => {},
        DamageAttribute::DRAINHEAL => {},
        DamageAttribute::GENERICWILL => {},
        DamageAttribute::DIVINEWRATH => {},
        DamageAttribute::UNHOLYPOWER => {},
    }
}

/// The C++ symbol whose value in the [`DoorTriggerType`] table is `value`.
pub open spec fn door_trigger_type_symbol_at(value: i32) -> Option<Seq<char>> {
    match value {
        0i32 => Some("DOOR_TRIGGER_ON_PERSON"@),
        1i32 => Some("DOOR_TRIGGER_MANUAL"@),
        _ => None,
    }
}

/// Each [`DoorTriggerType`] variant is written as the value its C++ symbol has in
/// the table, and each table value reads back the variant of its symbol.
pub proof fn lemma_door_trigger_type_symbols(e: DoorTriggerType, v: i32)
    ensures
        door_trigger_type_symbol_at(e.wire_value()) == Some(e.symbol_of()),
        DoorTriggerType::lookup(v) matches Some(x) ==> door_trigger_type_symbol_at(v) == Some(x.symbol_of()),
        DoorTriggerType::lookup(v) is None <==> door_trigger_type_symbol_at(v) is None,
{
    match e {
        DoorTriggerType::ONPERSON => {},
        DoorTriggerType::MANUAL => {},
    }
}

/// The C++ symbol whose value in the [`ExpressionInventoryType`] table is `value`.
pub open spec fn expression_inventory_type_symbol_at(value: i32) -> Option<Seq<char>> {
    match value {
        0i32 => Some("EXPRESSION_INVENTORY_SOCIAL"@),
        1i32 => Some("EXPRESSION_INVENTORY_RENOWN"@),
        2i32 => Some("EXPRESSION_INVENTORY_ALIGNMENT"@),
        3i32 => Some("EXPRESSION_INVENTORY_STEALTH"@),
        4i32 => Some("NUM_INVENTORY_EXPRESSIONS"@),
        _ => None,
    }
}

/// Each [`ExpressionInventoryType`] variant is written as the value its C++ symbol has in
/// the table, and each table value reads back the variant of its symbol.
pub proof fn lemma_expression_inventory_type_symbols(e: ExpressionInventoryType, v: i32)
    ensures
        expression_inventory_type_symbol_at(e.wire_value()) == Some(e.symbol_of()),
        ExpressionInventoryType::lookup(v) matches Some(x) ==> expression_inventory_type_symbol_at(v) == Some(x.symbol_of()),
        ExpressionInventoryType::lookup(v) is None <==> expression_inventory_type_symbol_at(v) is None,
{
    match e {
        ExpressionInventoryType::EXPRESSIONINVENTORYSOCIAL => {},
        ExpressionInventoryType::EXPRESSIONINVENTORYRENOWN => {},
        ExpressionInventoryType::EXPRESSIONINVENTORYALIGNMENT => {},
        ExpressionInventoryType::EXPRESSIONINVENTORYSTEALTH => {},
        ExpressionInventoryType::NUMINVENTORYEXPRESSIONS => {},
    }
}

/// The C++ symbol whose value in the [`FeatAttackType`] table is `value`.
pub open spec fn feat_attack_type_symbol_at(value: i32) -> Option<Seq<char>> {
    match value {
        0i32 => Some("FAT_ATTACK_ANY"@),
        1i32 => Some("FAT_ATTACK_SWORD"@),
        2i32 => Some("FAT_ATTACK_BOW"@),
        3i32 => Some("FAT_ATTACK_HANDS"@),
        4i32 => Some("FAT_ATTACK_WILL"@),
        _ => None,
    }
}

/// Each [`FeatAttackType`] variant is written as the value its C++ symbol has in
/// the table, and each table value reads back the variant of its symbol.
pub proof fn lemma_feat_attack_type_symbols(e: FeatAttackType, v: i32)
    ensures
        feat_attack_type_symbol_at(e.wire_value()) == Some(e.symbol_of()),
        FeatAttackType::lookup(v) matches Some(x) ==> feat_attack_type_symbol_at(v) == Some(x.symbol_of()),
        FeatAttackType::lookup(v) is None <==> feat_attack_type_symbol_at(v) is None,
{
    match e {
        FeatAttackType::ANY => {},
        FeatAttackType::SWORD => {},
        FeatAttackType::BOW => {},
        FeatAttackType::HANDS => {},
        FeatAttackType::WILL => {},
    }
}

/// The C++ symbol whose value in the [`GameEventType`] table is `value`.
pub open spec fn game_event_type_symbol_at(value: i32) -> Option<Seq<char>> {
    match value {
        0i32 => Some("GAME_EVENT_NULL"@),
        1i32 => Some("GAME_EVENT_UPDATE_FRAME"@),
        2i32 => Some("GAME_EVENT_QUIT"@),
        3i32 => Some("GAME_EVENT_SET_EXCLUSIVE_MODE"@),
        4i32 => Some("GAME_EVENT_SET_DISPLAY_MODE"@),
        5i32 => Some("GAME_EVENT_SET_EDITOR_MODE"@),
        6i32 => Some("GAME_EVENT_FIRST_PERSON_VIEW_START"@),
        7i32 => Some("GAME_EVENT_CREATURE_CHEAT"@),
        8i32 => Some("GAME_EVENT_PLAYER_RESPAWN"@),
        9i32 => Some("GAME_EVENT_SET_PAUSE_MODE"@),
        10i32 => Some("GAME_EVENT_SET_SLOW_MOTION"@),
        11i32 => Some("GAME_EVENT_SET_FREE_CAMERA_MODE"@),
        12i32 => Some("GAME_EVENT_USE_FREE_CAMERA"@),
        13i32 => Some("GAME_EVENT_CONTROLLED_CREATURE_BLOCK"@),
        14i32 => Some("GAME_EVENT_TEMP_WORLD_EVENT"@),
        15i32 => Some("GAME_EVENT_APPLY_SCRIPTED_MAP_BRUSHES"@),
        16i32 => Some("GAME_EVENT_CREATURE_MOVEMENT"@),
        17i32 => Some("GAME_EVENT_CREATURE_USE_OBJECT"@),
        18i32 => Some("GAME_EVENT_CONTROLLED_CREATURE_TALK"@),
        19i32 => Some("GAME_EVENT_CONTROLLED_CREATURE_LEARN_EXPRESSION"@),
        20i32 => Some("GAME_EVENT_CONTROLLED_CREATURE_DROP_OBJECT"@),
        21i32 => Some("GAME_EVENT_CONTROLLED_CREATURE_ZTARGET"@),
        22i32 => Some("GAME_EVENT_CONTROLLED_CREATURE_USE_ABILITY"@),
        23i32 => Some("GAME_EVENT_CONTROLLED_CREATURE_START_SNEAK"@),
        24i32 => Some("GAME_EVENT_CONTROLLED_CREATURE_STOP_SNEAK"@),
        25i32 => Some("GAME_EVENT_CLICK_PAST_TEXT"@),
        26i32 => Some("GAME_EVENT_OPEN_HERO_INFO_SCREEN"@),
        27i32 => Some("GAME_EVENT_CLOSE_HERO_INFO_SCREEN"@),
        28i32 => Some("GAME_EVENT_CLOSE_IN_GAME_MENU"@),
        29i32 => Some("GAME_EVENT_QUESTION_ANSWERED"@),
        30i32 => Some("GAME_EVENT_CONTROLLED_CREATURE_START_THROW_OBJECT"@),
        31i32 => Some("GAME_EVENT_CONTROLLED_CREATURE_END_THROW_OBJECT"@),
        32i32 => Some("GAME_EVENT_CONTROLLED_CREATURE_SHEATHE_WEAPON"@),
        33i32 => Some("GAME_EVENT_CONTROLLED_CREATURE_UNSHEATHE_MELEE_WEAPON"@),
        34i32 => Some("GAME_EVENT_CONTROLLED_CREATURE_UNSHEATHE_RANGED_WEAPON"@),
        35i32 => Some("GAME_EVENT_CONTROLLED_CREATURE_PLAYER_INTERACTION"@),
        36i32 => Some("GAME_EVENT_CONTROLLED_CREATURE_GIVE_ITEM_TO_TARGET"@),
        37i32 => Some("GAME_EVENT_CONTROLLED_CREATURE_UNFREEZE_CONTROLS"@),
        38i32 => Some("GAME_EVENT_CONTROLLED_CREATURE_ROLL"@),
        39i32 => Some("GAME_EVENT_USE_QUICK_ACCESS_ITEM"@),
        40i32 => Some("GAME_EVENT_USE_QUICK_ACCESS_ITEM_IN_CUTSCENE"@),
        41i32 => Some("GAME_EVENT_CHARGE_QUICK_ACCESS_ITEM"@),
        42i32 => Some("GAME_EVENT_PUT_AWAY"@),
        43i32 => Some("GAME_EVENT_CREATURE_STRAFE"@),
        44i32 => Some("GAME_EVENT_MOVE_HERO_TO_REGION"@),
        45i32 => Some("GAME_EVENT_FIRST_PERSON_TARGETING"@),
        46i32 => Some("GAME_EVENT_CONTROLLED_CREATURE_DEFAULT"@),
        47i32 => Some("GAME_EVENT_EXPRESSION_FOLLOW"@),
        48i32 => Some("GAME_EVENT_EXPRESSION_WAIT"@),
        49i32 => Some("GAME_EVENT_USE_PROJECTILE_WEAPON"@),
        50i32 => Some("GAME_EVENT_CONTROLLED_CREATURE_JUMP"@),
        51i32 => Some("GAME_EVENT_SPIRIT_MOVEMENT"@),
        52i32 => Some("GAME_EVENT_OPEN_HERO_CENTRE_DOOR"@),
        53i32 => Some("GAME_EVENT_CLOSE_HERO_CENTRE_DOOR"@),
        54i32 => Some("GAME_EVENT_SPIRIT_ATTACK"@),
        55i32 => Some("GAME_EVENT_CREATURE_SPRINT"@),
        56i32 => Some("GAME_EVENT_SPIRIT_RETURN_TO_HERO"@),
        57i32 => Some("GAME_EVENT_SKIP_CUT_SCENE"@),
        58i32 => Some("GAME_EVENT_USE_PROJECTILE_WEAPON_THIRD_PERSON"@),
        59i32 => Some("GAME_EVENT_CHARGE_UP_WILL_SPELL"@),
        60i32 => Some("GAME_EVENT_LOAD_GAME_FROM_IN_GAME_MENU"@),
        61i32 => Some("GAME_EVENT_CONTROLLED_CREATURE_BLOCK_END"@),
        62i32 => Some("GAME_EVENT_CONTROLLED_CREATURE_DEACTIVATE_ZTARGET"@),
        63i32 => Some("GAME_EVENT_REMOVE_CURRENT_MODE"@),
        64i32 => Some("GAME_EVENT_CONTROLLED_CREATURE_LIGHTNING"@),
        65i32 => Some("GAME_EVENT_CONTROLLED_CREATURE_DEACTIVATE_LIGHTNING"@),
        66i32 => Some("GAME_EVENT_CLOSE_LIVE_GUI"@),
        67i32 => Some("GAME_EVENT_CLOSE_PHOTO_CAPTURE"@),
        68i32 => Some("GAME_EVENT_TAKE_THE_BLOODY_SCREENSHOT"@),
        69i32 => Some("GAME_EVENT_TOGGLE_CONSOLE"@),
        70i32 => Some("GAME_EVENT_OPEN_PC_SKILLS_MENU"@),
        71i32 => Some("GAME_EVENT_OPEN_PC_MSN_CHAT_MENU"@),
        72i32 => Some("GAME_EVENT_OPEN_PC_INVENTORY_MENU"@),
        73i32 => Some("GAME_EVENT_OPEN_PC_OPTIONS_MENU"@),
        74i32 => Some("GAME_EVENT_OPEN_PC_PHOTO_JOURNAL_MENU"@),
        75i32 => Some("GAME_EVENT_OPEN_PC_MAP_MENU"@),
        76i32 => Some("GAME_EVENT_OPEN_PC_BUY_TRADING_MENU"@),
        77i32 => Some("GAME_EVENT_OPEN_PC_SELL_TRADING_MENU"@),
        78i32 => Some("GAME_EVENT_OPEN_PC_WANTED_TRADING_MENU"@),
        79i32 => Some("GAME_EVENT_OPEN_PC_STATUS_MENU"@),
        80i32 => Some("GAME_EVENT_OPEN_PC_SCOREBOARD"@),
        81i32 => Some("GAME_EVENT_DELETE_MENU_COMPONENTS"@),
        82i32 => Some("GAME_EVENT_TOGGLE_PASSIVE_AGGRESSIVE_MODE"@),
        83i32 => Some("GAME_EVENT_DELETE_TRADE_ACTIVE_MENU"@),
        84i32 => Some("GAME_EVENT_TOGGLE_KILL_EVERYTHING_MODE"@),
        85i32 => Some("GAME_EVENT_TOGGLE_VIEW_HERO_MODE"@),
        86i32 => Some("GAME_EVENT_CENTRE_CAMERA"@),
        87i32 => Some("NO_GAME_EVENTS"@),
        _ => None,
    }
}

/// Each [`GameEventType`] variant is written as the value its C++ symbol has in
/// the table, and each table value reads back the variant of its symbol.
#[verifier::rlimit(50)]
pub proof fn lemma_game_event_type_symbols(e: GameEventType, v: i32)
    ensures
        game_event_type_symbol_at(e.wire_value()) == Some(e.symbol_of()),
        GameEventType::lookup(v) matches Some(x) ==> game_event_type_symbol_at(v) == Some(x.symbol_of()),
        GameEventType::lookup(v) is None <==> game_event_type_symbol_at(v) is None,
{
    match e {
        GameEventType::GAMEEVENTNULL => {},
        GameEventType::GAMEEVENTUPDATEFRAME => {},
        GameEventType::GAMEEVENTQUIT => {},
        GameEventType::GAMEEVENTSETEXCLUSIVEMODE => {},
        GameEventType::GAMEEVENTSETDISPLAYMODE => {},
        GameEventType::GAMEEVENTSETEDITORMODE => {},
        GameEventType::GAMEEVENTFIRSTPERSONVIEWSTART => {},
        GameEventType::GAMEEVENTCREATURECHEAT => {},
        GameEventType::GAMEEVENTPLAYERRESPAWN => {},
        GameEventType::GAMEEVENTSETPAUSEMODE => {},
        GameEventType::GAMEEVENTSETSLOWMOTION => {},
        GameEventType::GAMEEVENTSETFREECAMERAMODE => {},
        GameEventType::GAMEEVENTUSEFREECAMERA => {},
        GameEventType::GAMEEVENTCONTROLLEDCREATUREBLOCK => {},
        GameEventType::GAMEEVENTTEMPWORLDEVENT => {},
        GameEventType::GAMEEVENTAPPLYSCRIPTEDMAPBRUSHES => {},
        GameEventType::GAMEEVENTCREATUREMOVEMENT => {},
        GameEventType::GAMEEVENTCREATUREUSEOBJECT => {},
        GameEventType::GAMEEVENTCONTROLLEDCREATURETALK => {},
        GameEventType::GAMEEVENTCONTROLLEDCREATURELEARNEXPRESSION => {},
        GameEventType::GAMEEVENTCONTROLLEDCREATUREDROPOBJECT => {},
        GameEventType::GAMEEVENTCONTROLLEDCREATUREZTARGET => {},
        GameEventType::GAMEEVENTCONTROLLEDCREATUREUSEABILITY => {},
        GameEventType::GAMEEVENTCONTROLLEDCREATURESTARTSNEAK => {},
        GameEventType::GAMEEVENTCONTROLLEDCREATURESTOPSNEAK => {},
        GameEventType::GAMEEVENTCLICKPASTTEXT => {},
        GameEventType::GAMEEVENTOPENHEROINFOSCREEN => {},
        GameEventType::GAMEEVENTCLOSEHEROINFOSCREEN => {},
        GameEventType::GAMEEVENTCLOSEINGAMEMENU => {},
        GameEventType::GAMEEVENTQUESTIONANSWERED => {},
        GameEventType::GAMEEVENTCONTROLLEDCREATURESTARTTHROWOBJECT => {},
        GameEventType::GAMEEVENTCONTROLLEDCREATUREENDTHROWOBJECT => {},
        GameEventType::GAMEEVENTCONTROLLEDCREATURESHEATHEWEAPON => {},
        GameEventType::GAMEEVENTCONTROLLEDCREATUREUNSHEATHEMELEEWEAPON => {},
        GameEventType::GAMEEVENTCONTROLLEDCREATUREUNSHEATHERANGEDWEAPON => {},
        GameEventType::GAMEEVENTCONTROLLEDCREATUREPLAYERINTERACTION => {},
        GameEventType::GAMEEVENTCONTROLLEDCREATUREGIVEITEMTOTARGET => {},
        GameEventType::GAMEEVENTCONTROLLEDCREATUREUNFREEZECONTROLS => {},
        GameEventType::GAMEEVENTCONTROLLEDCREATUREROLL => {},
        GameEventType::GAMEEVENTUSEQUICKACCESSITEM => {},
        GameEventType::GAMEEVENTUSEQUICKACCESSITEMINCUTSCENE => {},
        GameEventType::GAMEEVENTCHARGEQUICKACCESSITEM => {},
        GameEventType::GAMEEVENTPUTAWAY => {},
        GameEventType::GAMEEVENTCREATURESTRAFE => {},
        GameEventType::GAMEEVENTMOVEHEROTOREGION => {},
        GameEventType::GAMEEVENTFIRSTPERSONTARGETING => {},
        GameEventType::GAMEEVENTCONTROLLEDCREATUREDEFAULT => {},
        GameEventType::GAMEEVENTEXPRESSIONFOLLOW => {},
        GameEventType::GAMEEVENTEXPRESSIONWAIT => {},
        GameEventType::GAMEEVENTUSEPROJECTILEWEAPON => {},
        GameEventType::GAMEEVENTCONTROLLEDCREATUREJUMP => {},
        GameEventType::GAMEEVENTSPIRITMOVEMENT => {},
        GameEventType::GAMEEVENTOPENHEROCENTREDOOR => {},
        GameEventType::GAMEEVENTCLOSEHEROCENTREDOOR => {},
        GameEventType::GAMEEVENTSPIRITATTACK => {},
        GameEventType::GAMEEVENTCREATURESPRINT => {},
        GameEventType::GAMEEVENTSPIRITRETURNTOHERO => {},
        GameEventType::GAMEEVENTSKIPCUTSCENE => {},
        GameEventType::GAMEEVENTUSEPROJECTILEWEAPONTHIRDPERSON => {},
        GameEventType::GAMEEVENTCHARGEUPWILLSPELL => {},
        GameEventType::GAMEEVENTLOADGAMEFROMINGAMEMENU => {},
        GameEventType::GAMEEVENTCONTROLLEDCREATUREBLOCKEND => {},
        GameEventType::GAMEEVENTCONTROLLEDCREATUREDEACTIVATEZTARGET => {},
        GameEventType::GAMEEVENTREMOVECURRENTMODE => {},
        GameEventType::GAMEEVENTCONTROLLEDCREATURELIGHTNING => {},
        GameEventType::GAMEEVENTCONTROLLEDCREATUREDEACTIVATELIGHTNING => {},
        GameEventType::GAMEEVENTCLOSELIVEGUI => {},
        GameEventType::GAMEEVENTCLOSEPHOTOCAPTURE => {},
        GameEventType::GAMEEVENTTAKETHEBLOODYSCREENSHOT => {},
        GameEventType::GAMEEVENTTOGGLECONSOLE => {},
        GameEventType::GAMEEVENTOPENPCSKILLSMENU => {},
        GameEventType::GAMEEVENTOPENPCMSNCHATMENU => {},
        GameEventType::GAMEEVENTOPENPCINVENTORYMENU => {},
        GameEventType::GAMEEVENTOPENPCOPTIONSMENU => {},
        GameEventType::GAMEEVENTOPENPCPHOTOJOURNALMENU => {},
        GameEventType::GAMEEVENTOPENPCMAPMENU => {},
        GameEventType::GAMEEVENTOPENPCBUYTRADINGMENU => {},
        GameEventType::GAMEEVENTOPENPCSELLTRADINGMENU => {},
        GameEventType::GAMEEVENTOPENPCWANTEDTRADINGMENU => {},
        GameEventType::GAMEEVENTOPENPCSTATUSMENU => {},
        GameEventType::GAMEEVENTOPENPCSCOREBOARD => {},
        GameEventType::GAMEEVENTDELETEMENUCOMPONENTS => {},
        GameEventType::GAMEEVENTTOGGLEPASSIVEAGGRESSIVEMODE => {},
        GameEventType::GAMEEVENTDELETETRADEACTIVEMENU => {},
        GameEventType::GAMEEVENTTOGGLEKILLEVERYTHINGMODE => {},
        GameEventType::GAMEEVENTTOGGLEVIEWHEROMODE => {},
        GameEventType::GAMEEVENTCENTRECAMERA => {},
        GameEventType::NOGAMEEVENTS => {},
    }
}

/// The C++ symbol whose value in the [`GiftType`] table is `value`.
pub open spec fn gift_type_symbol_at(value: i32) -> Option<Seq<char>> {
    match value {
        0i32 => Some("GIFT_TYPE_FRIENDLY"@),
        1i32 => Some("GIFT_TYPE_ROMANTIC"@),
        2i32 => Some("GIFT_TYPE_OFFENSIVE"@),
        _ => None,
    }
}

/// Each [`GiftType`] variant is written as the value its C++ symbol has in
/// the table, and each table value reads back the variant of its symbol.
pub proof fn lemma_gift_type_symbols(e: GiftType, v: i32)
    ensures
        gift_type_symbol_at(e.wire_value()) == Some(e.symbol_of()),
        GiftType::lookup(v) matches Some(x) ==> gift_type_symbol_at(v) == Some(x.symbol_of()),
        GiftType::lookup(v) is None <==> gift_type_symbol_at(v) is None,
{
    match e {
        GiftType::FRIENDLY => {},
        GiftType::ROMANTIC => {},
        GiftType::OFFENSIVE => {},
    }
}

/// The C++ symbol whose value in the [`HeroAbility`] table is `value`.
pub open spec fn hero_ability_symbol_at(value: i32) -> Option<Seq<char>> {
    match value {
        0i32 => Some("HERO_ABILITY_NULL"@),
        1i32 => Some("HERO_ABILITY_FORCE_PUSH"@),
        2i32 => Some("HERO_ABILITY_TIME_SPELL"@),
        3i32 => Some("HERO_ABILITY_ENFLAME_SPELL"@),
        4i32 => Some("HERO_ABILITY_PHYSICAL_SHIELD_SPELL"@),
        5i32 => Some("HERO_ABILITY_TURNCOAT_SPELL"@),
        6i32 => Some("HERO_ABILITY_DRAIN_LIFE_SPELL"@),
        7i32 => Some("HERO_ABILITY_RAISE_DEAD_SPELL"@),
        8i32 => Some("HERO_ABILITY_BERSERK"@),
        9i32 => Some("HERO_ABILITY_DOUBLE_STRIKE"@),
        10i32 => Some("HERO_ABILITY_SUMMON_SPELL"@),
        11i32 => Some("HERO_ABILITY_LIGHTNING_SPELL"@),
        12i32 => Some("HERO_ABILITY_BATTLE_CHARGE"@),
        13i32 => Some("HERO_ABILITY_ASSASSIN_RUSH"@),
        14i32 => Some("HERO_ABILITY_HEAL_LIFE_SPELL"@),
        15i32 => Some("HERO_ABILITY_GHOST_SWORD_SPELL"@),
        16i32 => Some("HERO_ABILITY_FIREBALL_SPELL"@),
        17i32 => Some("HERO_ABILITY_MULTI_ARROW"@),
        18i32 => Some("HERO_ABILITY_DIVINE_WRATH_SPELL"@),
        19i32 => Some("HERO_ABILITY_UNHOLY_POWER_SPELL"@),
        20i32 => Some("MAX_NUMBER_OF_HERO_ABILITIES"@),
        _ => None,
    }
}

/// Each [`HeroAbility`] variant is written as the value its C++ symbol has in
/// the table, and each table value reads back the variant of its symbol.
pub proof fn lemma_hero_ability_symbols(e: HeroAbility, v: i32)
    ensures
        hero_ability_symbol_at(e.wire_value()) == Some(e.symbol_of()),
        HeroAbility::lookup(v) matches Some(x) ==> hero_ability_symbol_at(v) == Some(x.symbol_of()),
        HeroAbility::lookup(v) is None <==> hero_ability_symbol_at(v) is None,
{
    match e {
        HeroAbility::HEROABILITYNULL => {},
        HeroAbility::HEROABILITYFORCEPUSH => {},
        HeroAbility::HEROABILITYTIMESPELL => {},
        HeroAbility::HEROABILITYENFLAMESPELL => {},
        HeroAbility::HEROABILITYPHYSICALSHIELDSPELL => {},
        HeroAbility::HEROABILITYTURNCOATSPELL => {},
        HeroAbility::HEROABILITYDRAINLIFESPELL => {},
        HeroAbility::HEROABILITYRAISEDEADSPELL => {},
        HeroAbility::HEROABILITYBERSERK => {},
        HeroAbility::HEROABILITYDOUBLESTRIKE => {},
        HeroAbility::HEROABILITYSUMMONSPELL => {},
        HeroAbility::HEROABILITYLIGHTNINGSPELL => {},
        HeroAbility::HEROABILITYBATTLECHARGE => {},
        HeroAbility::HEROABILITYASSASSINRUSH => {},
        HeroAbility::HEROABILITYHEALLIFESPELL => {},
        HeroAbility::HEROABILITYGHOSTSWORDSPELL => {},
        HeroAbility::HEROABILITYFIREBALLSPELL => {},
        HeroAbility::HEROABILITYMULTIARROW => {},
        HeroAbility::HEROABILITYDIVINEWRATHSPELL => {},
        HeroAbility::HEROABILITYUNHOLYPOWERSPELL => {},
        HeroAbility::MAXNUMBEROFHEROABILITIES => {},
    }
}

/// The C++ symbol whose value in the [`HeroAttachableAppearanceModifierType`] table is `value`.
pub open spec fn hero_attachable_appearance_modifier_type_symbol_at(value: i32) -> Option<Seq<char>> {
    match value {
        0i32 => Some("APPEARANCE_HAIR"@),
        1i32 => Some("APPEARANCE_HORN"@),
        2i32 => Some("APPEARANCE_CLOTHING"@),
        3i32 => Some("NO_OF_APPEARANCE_MODIFIER_TYPES"@),
        _ => None,
    }
}

/// Each [`HeroAttachableAppearanceModifierType`] variant is written as the value its C++ symbol has in
/// the table, and each table value reads back the variant of its symbol.
pub proof fn lemma_hero_attachable_appearance_modifier_type_symbols(e: HeroAttachableAppearanceModifierType, v: i32)
    ensures
        hero_attachable_appearance_modifier_type_symbol_at(e.wire_value()) == Some(e.symbol_of()),
        HeroAttachableAppearanceModifierType::lookup(v) matches Some(x) ==> hero_attachable_appearance_modifier_type_symbol_at(v) == Some(x.symbol_of()),
        HeroAttachableAppearanceModifierType::lookup(v) is None <==> hero_attachable_appearance_modifier_type_symbol_at(v) is None,
{
    match e {
        HeroAttachableAppearanceModifierType::APPEARANCEHAIR => {},
        HeroAttachableAppearanceModifierType::APPEARANCEHORN => {},
        HeroAttachableAppearanceModifierType::APPEARANCECLOTHING => {},
        HeroAttachableAppearanceModifierType::NOOFAPPEARANCEMODIFIERTYPES => {},
    }
}

/// The C++ symbol whose value in the [`HeroExperienceStatCategory`] table is `value`.
pub open spec fn hero_experience_stat_category_symbol_at(value: i32) -> Option<Seq<char>> {
    match value {
        0i32 => Some("HERO_STAT_STRENGTH"@),
        1i32 => Some("HERO_STAT_SKILL"@),
        2i32 => Some("HERO_STAT_WILL"@),
        3i32 => Some("NUMBER_OF_HERO_STAT_CATEGORIES"@),
        _ => None,
    }
}

/// Each [`HeroExperienceStatCategory`] variant is written as the value its C++ symbol has in
/// the table, and each table value reads back the variant of its symbol.
pub proof fn lemma_hero_experience_stat_category_symbols(e: HeroExperienceStatCategory, v: i32)
    ensures
        hero_experience_stat_category_symbol_at(e.wire_value()) == Some(e.symbol_of()),
        HeroExperienceStatCategory::lookup(v) matches Some(x) ==> hero_experience_stat_category_symbol_at(v) == Some(x.symbol_of()),
        HeroExperienceStatCategory::lookup(v) is None <==> hero_experience_stat_category_symbol_at(v) is None,
{
    match e {
        HeroExperienceStatCategory::HEROSTATSTRENGTH => {},
        HeroExperienceStatCategory::HEROSTATSKILL => {},
        HeroExperienceStatCategory::HEROSTATWILL => {},
        HeroExperienceStatCategory::NUMBEROFHEROSTATCATEGORIES => {},
    }
}

/// The C++ symbol whose value in the [`HeroTitle`] table is `value`.
pub open spec fn hero_title_symbol_at(value: i32) -> Option<Seq<char>> {
    match value {
        0i32 => Some("TITLE_NONE"@),
        1i32 => Some("TITLE_REAPER"@),
        2i32 => Some("TITLE_SHADOWHUNTER"@),
        3i32 => Some("TITLE_MALEFICUS"@),
        4i32 => Some("TITLE_DEATHBRINGER"@),
        5i32 => Some("TITLE_ASSASSIN"@),
        6i32 => Some("TITLE_NECROMANCER"@),
        7i32 => Some("TITLE_AVATAR"@),
        8i32 => Some("TITLE_PILGRIM"@),
        9i32 => Some("TITLE_LIBERATOR"@),
        10i32 => Some("TITLE_PALADIN"@),
        11i32 => Some("TITLE_DRUID"@),
        12i32 => Some("TITLE_RANGER"@),
        13i32 => Some("TITLE_RUNEMASTER"@),
        14i32 => Some("TITLE_HOOD"@),
        15i32 => Some("TITLE_GLADIATOR"@),
        16i32 => Some("TITLE_SABRE"@),
        17i32 => Some("TITLE_ARROWDODGER"@),
        18i32 => Some("TITLE_PIEMASTER"@),
        19i32 => Some("TITLE_CHICKEN_CHASER"@),
        20i32 => Some("TITLE_ARSEFACE"@),
        21i32 => Some("TITLE_JACK"@),
        22i32 => Some("TITLE_MAZE"@),
        23i32 => Some("TITLE_SCARLET_ROBE"@),
        24i32 => Some("TITLE_SCYTHE"@),
        25i32 => Some("TITLE_THUNDER"@),
        26i32 => Some("TITLE_WHISPER"@),
        27i32 => Some("TITLE_TWINBLADE"@),
        28i32 => Some("TITLE_BRIAR_ROSE"@),
        29i32 => Some("TITLE_LADY_GREY"@),
        30i32 => Some("TITLE_GUILDMASTER"@),
        31i32 => Some("TITLE_SCORPION_SLAYER"@),
        32i32 => Some("TITLE_DEATH_BRINGER"@),
        _ => None,
    }
}

/// Each [`HeroTitle`] variant is written as the value its C++ symbol has in
/// the table, and each table value reads back the variant of its symbol.
pub proof fn lemma_hero_title_symbols(e: HeroTitle, v: i32)
    ensures
        hero_title_symbol_at(e.wire_value()) == Some(e.symbol_of()),
        HeroTitle::lookup(v) matches Some(x) ==> hero_title_symbol_at(v) == Some(x.symbol_of()),
        HeroTitle::lookup(v) is None <==> hero_title_symbol_at(v) is None,
{
    match e {
        HeroTitle::NONE => {},
        HeroTitle::REAPER => {},
        HeroTitle::SHADOWHUNTER => {},
        HeroTitle::MALEFICUS => {},
        HeroTitle::DEATHBRINGER => {},
        HeroTitle::ASSASSIN => {},
        HeroTitle::NECROMANCER => {},
        HeroTitle::AVATAR => {},
        HeroTitle::PILGRIM => {},
        HeroTitle::LIBERATOR => {},
        HeroTitle::PALADIN => {},
        HeroTitle::DRUID => {},
        HeroTitle::RANGER => {},
        HeroTitle::RUNEMASTER => {},
        HeroTitle::HOOD => {},
        HeroTitle::GLADIATOR => {},
        HeroTitle::SABRE => {},
        HeroTitle::ARROWDODGER => {},
        HeroTitle::PIEMASTER => {},
        HeroTitle::CHICKENCHASER => {},
        HeroTitle::ARSEFACE => {},
        HeroTitle::JACK => {},
        HeroTitle::MAZE => {},
        HeroTitle::SCARLETROBE => {},
        HeroTitle::SCYTHE => {},
        HeroTitle::THUNDER => {},
        HeroTitle::WHISPER => {},
        HeroTitle::TWINBLADE => {},
        HeroTitle::BRIARROSE => {},
        HeroTitle::LADYGREY => {},
        HeroTitle::GUILDMASTER => {},
        HeroTitle::SCORPIONSLAYER => {},
        HeroTitle::DEATHBRINGER_ => {},
    }
}

/// The C++ symbol whose value in the [`HeroTrainingStatus`] table is `value`.
pub open spec fn hero_training_status_symbol_at(value: i32) -> Option<Seq<char>> {
    match value {
        0i32 => Some("TRAINING_STATUS_GRADUATED"@),
        1i32 => Some("TRAINING_STATUS_APPRENTICE"@),
        2i32 => Some("TRAINING_STATUS_BOY"@),
        _ => None,
    }
}

/// Each [`HeroTrainingStatus`] variant is written as the value its C++ symbol has in
/// the table, and each table value reads back the variant of its symbol.
pub proof fn lemma_hero_training_status_symbols(e: HeroTrainingStatus, v: i32)
    ensures
        hero_training_status_symbol_at(e.wire_value()) == Some(e.symbol_of()),
        HeroTrainingStatus::lookup(v) matches Some(x) ==> hero_training_status_symbol_at(v) == Some(x.symbol_of()),
        HeroTrainingStatus::lookup(v) is None <==> hero_training_status_symbol_at(v) is None,
{
    match e {
        HeroTrainingStatus::GRADUATED => {},
        HeroTrainingStatus::APPRENTICE => {},
        HeroTrainingStatus::BOY => {},
    }
}

/// The C++ symbol whose value in the [`LightingChannel`] table is `value`.
pub open spec fn lighting_channel_symbol_at(value: i32) -> Option<Seq<char>> {
    match value {
        0i32 => Some("LIGHTING_CHANNEL_MAIN"@),
        1i32 => Some("LIGHTING_CHANNEL_INDOORS"@),
        2i32 => Some("LIGHTING_CHANNEL_INDOORS_2"@),
        3i32 => Some("LIGHTING_CHANNEL_INDOORS_3"@),
        4i32 => Some("LIGHTING_CHANNEL_INDOORS_4"@),
        5i32 => Some("LIGHTING_CHANNEL_EPIC_SPELL"@),
        6i32 => Some("LIGHTING_CHANNEL_COUNT"@),
        _ => None,
    }
}

/// Each [`LightingChannel`] variant is written as the value its C++ symbol has in
/// the table, and each table value reads back the variant of its symbol.
pub proof fn lemma_lighting_channel_symbols(e: LightingChannel, v: i32)
    ensures
        lighting_channel_symbol_at(e.wire_value()) == Some(e.symbol_of()),
        LightingChannel::lookup(v) matches Some(x) ==> lighting_channel_symbol_at(v) == Some(x.symbol_of()),
        LightingChannel::lookup(v) is None <==> lighting_channel_symbol_at(v) is None,
{
    match e {
        LightingChannel::MAIN => {},
        LightingChannel::INDOORS => {},
        LightingChannel::INDOORS2 => {},
        LightingChannel::INDOORS3 => {},
        LightingChannel::INDOORS4 => {},
        LightingChannel::EPICSPELL => {},
        LightingChannel::COUNT => {},
    }
}

/// The C++ symbol whose value in the [`MessageEventType`] table is `value`.
pub open spec fn message_event_type_symbol_at(value: i32) -> Option<Seq<char>> {
    match value {
        0i32 => Some("MESSAGE_EVENT_PLAYER_GIVE_ITEM"@),
        1i32 => Some("MESSAGE_EVENT_CALL_CHILDREN_HOME"@),
        2i32 => Some("MESSAGE_EVENT_CALL_SPOUSE_HOME"@),
        3i32 => Some("MESSAGE_EVENT_PLAYER_ARSON"@),
        4i32 => Some("MESSAGE_EVENT_ATTACK"@),
        5i32 => Some("MESSAGE_EVENT_MURDER"@),
        6i32 => Some("MESSAGE_EVENT_PLAYER_ARSON_EMOTIONAL_REACTION"@),
        7i32 => Some("MESSAGE_EVENT_PLAYER_ATTACK_EMOTIONAL_REACTION"@),
        8i32 => Some("MESSAGE_EVENT_PLAYER_MURDER_EMOTIONAL_REACTION"@),
        9i32 => Some("MESSAGE_EVENT_DEATH"@),
        10i32 => Some("MESSAGE_EVENT_GOING_FOR_HELP"@),
        11i32 => Some("MESSAGE_EVENT_YELL_FOR_HELP"@),
        12i32 => Some("MESSAGE_EVENT_YELL_I_SEE_HIM"@),
        13i32 => Some("MESSAGE_EVENT_CONVERSATION_START"@),
        14i32 => Some("MESSAGE_EVENT_CONVERSATION_JOIN"@),
        15i32 => Some("MESSAGE_EVENT_CONVERSATION_END"@),
        16i32 => Some("MESSAGE_EVENT_CONVERSATION_ANSWER_YES_OR_NO"@),
        17i32 => Some("MESSAGE_EVENT_CONVERSATION_CLICK_PAST"@),
        18i32 => Some("MESSAGE_EVENT_GAME_INFO_CLICK_PAST"@),
        19i32 => Some("MESSAGE_EVENT_BUY_ITEM"@),
        20i32 => Some("MESSAGE_EVENT_PLAYER_INTERACTION"@),
        21i32 => Some("MESSAGE_EVENT_GAME_OF_TAG_START"@),
        22i32 => Some("MESSAGE_EVENT_GAME_OF_TAG_JOIN"@),
        23i32 => Some("MESSAGE_EVENT_GAME_OF_TAG_SOMEONE_TAGGED"@),
        24i32 => Some("MESSAGE_EVENT_HOPSCOTCH_PLAYING"@),
        25i32 => Some("MESSAGE_EVENT_FOUND_CORPSE"@),
        26i32 => Some("MESSAGE_EVENT_FOUND_UNCONSCIOUS_PERSON"@),
        27i32 => Some("MESSAGE_EVENT_GUARD_SEEN_PLAYER_SWORD"@),
        28i32 => Some("MESSAGE_EVENT_THEFT"@),
        29i32 => Some("MESSAGE_EVENT_TRESPASS"@),
        30i32 => Some("MESSAGE_EVENT_DEALING_WITH_TRESPASS"@),
        31i32 => Some("MESSAGE_EVENT_DEALING_WITH_NOISE_IN_HOUSE"@),
        32i32 => Some("MESSAGE_EVENT_HERO_REPUTATION_EVENT"@),
        33i32 => Some("MESSAGE_EVENT_CROWD_FORMING"@),
        34i32 => Some("MESSAGE_EVENT_CROWD_DISPERSING"@),
        35i32 => Some("MESSAGE_EVENT_HERO_PODIUM"@),
        36i32 => Some("MESSAGE_EVENT_LEVEL_LOADED"@),
        37i32 => Some("MESSAGE_EVENT_LEVEL_UNLOADED"@),
        38i32 => Some("MESSAGE_EVENT_REGION_LOADED"@),
        39i32 => Some("MESSAGE_EVENT_REGION_UNLOADED"@),
        40i32 => Some("MESSAGE_EVENT_REGION_PREUNLOAD"@),
        41i32 => Some("MESSAGE_EVENT_BOAST_MADE"@),
        42i32 => Some("MESSAGE_EVENT_EXPRESSION_PERFORMED"@),
        43i32 => Some("MESSAGE_EVENT_SCRIPTED_CAMERA_EVENT"@),
        44i32 => Some("MESSAGE_EVENT_REQUEST_GOSSIP"@),
        45i32 => Some("MESSAGE_EVENT_REQUEST_GOSSIP_REQUEST"@),
        46i32 => Some("MESSAGE_EVENT_REQUEST_GAME_OF_TAG"@),
        47i32 => Some("MESSAGE_EVENT_APPRENTICE_PRACTICE"@),
        48i32 => Some("MESSAGE_EVENT_PAYMENT_REQUEST"@),
        49i32 => Some("MESSAGE_EVENT_PAYMENT_CANCELLED"@),
        50i32 => Some("MESSAGE_EVENT_SKIP_CUT_SCENE"@),
        51i32 => Some("MESSAGE_EVENT_QUEST_COMPLETED"@),
        52i32 => Some("MESSAGE_EVENT_QUEST_FAILED"@),
        53i32 => Some("MESSAGE_EVENT_QUEST_COMPLETED_BEFORE_SCREEN_SHOWN"@),
        54i32 => Some("MESSAGE_EVENT_QUEST_FAILED_BEFORE_SCREEN_SHOWN"@),
        55i32 => Some("MESSAGE_EVENT_QUEST_ACCEPTED"@),
        56i32 => Some("MESSAGE_EVENT_FEAT_ACCEPTED"@),
        57i32 => Some("MESSAGE_EVENT_HAIR_TYPE_CHANGED"@),
        58i32 => Some("MESSAGE_EVENT_BEARD_TYPE_CHANGED"@),
        59i32 => Some("MESSAGE_EVENT_MOUSTACHE_TYPE_CHANGED"@),
        60i32 => Some("MESSAGE_EVENT_TELEPORTER_USED"@),
        61i32 => Some("MESSAGE_EVENT_GUILD_SEAL_USED"@),
        62i32 => Some("MESSAGE_EVENT_GAME_SAVED_MANUALLY"@),
        63i32 => Some("MESSAGE_EVENT_FISHING_GAME_FINISHED"@),
        64i32 => Some("MESSAGE_EVENT_TAVERN_GAME_FINISHED"@),
        65i32 => Some("MESSAGE_EVENT_HERO_REWARDED_FROM_CONTAINER"@),
        66i32 => Some("MESSAGE_EVENT_HERO_SLEPT"@),
        67i32 => Some("MESSAGE_EVENT_HERO_FIRED_RANGED_WEAPON"@),
        68i32 => Some("MESSAGE_EVENT_HERO_CAST_SPELL"@),
        69i32 => Some("MESSAGE_EVENT_HERO_PICKED_POCKET"@),
        70i32 => Some("MESSAGE_EVENT_HERO_PICKED_LOCK"@),
        71i32 => Some("MESSAGE_EVENT_HERO_STOLEN_OBJECT"@),
        72i32 => Some("MESSAGE_EVENT_CHEST_OPENING_CANCELLED"@),
        73i32 => Some("MESSAGE_EVENT_LEAVING_QUEST_START_SCREEN"@),
        74i32 => Some("MESSAGE_EVENT_LEAVING_EXPERIENCE_SPEND_SCREEN"@),
        75i32 => Some("MESSAGE_EVENT_ACTION_MODE_BUTTON_PRESSED"@),
        _ => None,
    }
}

/// Each [`MessageEventType`] variant is written as the value its C++ symbol has in
/// the table, and each table value reads back the variant of its symbol.
#[verifier::rlimit(50)]
pub proof fn lemma_message_event_type_symbols(e: MessageEventType, v: i32)
    ensures
        message_event_type_symbol_at(e.wire_value()) == Some(e.symbol_of()),
        MessageEventType::lookup(v) matches Some(x) ==> message_event_type_symbol_at(v) == Some(x.symbol_of()),
        MessageEventType::lookup(v) is None <==> message_event_type_symbol_at(v) is None,
{
    match e {
        MessageEventType::PLAYERGIVEITEM => {},
        MessageEventType::CALLCHILDRENHOME => {},
        MessageEventType::CALLSPOUSEHOME => {},
        MessageEventType::PLAYERARSON => {},
        MessageEventType::ATTACK => {},
        MessageEventType::MURDER => {},
        MessageEventType::PLAYERARSONEMOTIONALREACTION => {},
        MessageEventType::PLAYERATTACKEMOTIONALREACTION => {},
        MessageEventType::PLAYERMURDEREMOTIONALREACTION => {},
        MessageEventType::DEATH => {},
        MessageEventType::GOINGFORHELP => {},
        MessageEventType::YELLFORHELP => {},
        MessageEventType::YELLISEEHIM => {},
        MessageEventType::CONVERSATIONSTART => {},
        MessageEventType::CONVERSATIONJOIN => {},
        MessageEventType::CONVERSATIONEND => {},
        MessageEventType::CONVERSATIONANSWERYESORNO => {},
        MessageEventType::CONVERSATIONCLICKPAST => {},
        MessageEventType::GAMEINFOCLICKPAST => {},
        MessageEventType::BUYITEM => {},
        MessageEventType::PLAYERINTERACTION => {},
        MessageEventType::GAMEOFTAGSTART => {},
        MessageEventType::GAMEOFTAGJOIN => {},
        MessageEventType::GAMEOFTAGSOMEONETAGGED => {},
        MessageEventType::HOPSCOTCHPLAYING => {},
        MessageEventType::FOUNDCORPSE => {},
        MessageEventType::FOUNDUNCONSCIOUSPERSON => {},
        MessageEventType::GUARDSEENPLAYERSWORD => {},
        MessageEventType::THEFT => {},
        MessageEventType::TRESPASS => {},
        MessageEventType::DEALINGWITHTRESPASS => {},
        MessageEventType::DEALINGWITHNOISEINHOUSE => {},
        MessageEventType::HEROREPUTATIONEVENT => {},
        MessageEventType::CROWDFORMING => {},
        MessageEventType::CROWDDISPERSING => {},
        MessageEventType::HEROPODIUM => {},
        MessageEventType::LEVELLOADED => {},
        MessageEventType::LEVELUNLOADED => {},
        MessageEventType::REGIONLOADED => {},
        MessageEventType::REGIONUNLOADED => {},
        MessageEventType::REGIONPREUNLOAD => {},
        MessageEventType::BOASTMADE => {},
        MessageEventType::EXPRESSIONPERFORMED => {},
        MessageEventType::SCRIPTEDCAMERAEVENT => {},
        MessageEventType::REQUESTGOSSIP => {},
        MessageEventType::REQUESTGOSSIPREQUEST => {},
        MessageEventType::REQUESTGAMEOFTAG => {},
        MessageEventType::APPRENTICEPRACTICE => {},
        MessageEventType::PAYMENTREQUEST => {},
        MessageEventType::PAYMENTCANCELLED => {},
        MessageEventType::SKIPCUTSCENE => {},
        MessageEventType::QUESTCOMPLETED => {},
        MessageEventType::QUESTFAILED => {},
        MessageEventType::QUESTCOMPLETEDBEFORESCREENSHOWN => {},
        MessageEventType::QUESTFAILEDBEFORESCREENSHOWN => {},
        MessageEventType::QUESTACCEPTED => {},
        MessageEventType::FEATACCEPTED => {},
        MessageEventType::HAIRTYPECHANGED => {},
        MessageEventType::BEARDTYPECHANGED => {},
        MessageEventType::MOUSTACHETYPECHANGED => {},
        MessageEventType::TELEPORTERUSED => {},
        MessageEventType::GUILDSEALUSED => {},
        MessageEventType::GAMESAVEDMANUALLY => {},
        MessageEventType::FISHINGGAMEFINISHED => {},
        MessageEventType::TAVERNGAMEFINISHED => {},
        MessageEventType::HEROREWARDEDFROMCONTAINER => {},
        MessageEventType::HEROSLEPT => {},
        MessageEventType::HEROFIREDRANGEDWEAPON => {},
        MessageEventType::HEROCASTSPELL => {},
        MessageEventType::HEROPICKEDPOCKET => {},
        MessageEventType::HEROPICKEDLOCK => {},
        MessageEventType::HEROSTOLENOBJECT => {},
        MessageEventType::CHESTOPENINGCANCELLED => {},
        MessageEventType::LEAVINGQUESTSTARTSCREEN => {},
        MessageEventType::LEAVINGEXPERIENCESPENDSCREEN => {},
        MessageEventType::ACTIONMODEBUTTONPRESSED => {},
    }
}

/// The C++ symbol whose value in the [`MinimapThemeType`] table is `value`.
pub open spec fn minimap_theme_type_symbol_at(value: i32) -> Option<Seq<char>> {
    match value {
        0i32 => Some("MINIMAP_THEME_TYPE_NONE"@),
        1i32 => Some("MINIMAP_THEME_TYPE_GRASS"@),
        2i32 => Some("MINIMAP_THEME_TYPE_WATER"@),
        3i32 => Some("MINIMAP_THEME_TYPE_SNOW"@),
        4i32 => Some("MINIMAP_THEME_TYPE_CLIFF"@),
        5i32 => Some("MINIMAP_THEME_TYPE_EARTH"@),
        6i32 => Some("MINIMAP_THEME_TYPE_FOLIAGE"@),
        7i32 => Some("MINIMAP_THEME_TYPE_WOOD"@),
        8i32 => Some("MINIMAP_THEME_TYPE_BUILDING"@),
        _ => None,
    }
}

/// Each [`MinimapThemeType`] variant is written as the value its C++ symbol has in
/// the table, and each table value reads back the variant of its symbol.
pub proof fn lemma_minimap_theme_type_symbols(e: MinimapThemeType, v: i32)
    ensures
        minimap_theme_type_symbol_at(e.wire_value()) == Some(e.symbol_of()),
        MinimapThemeType::lookup(v) matches Some(x) ==> minimap_theme_type_symbol_at(v) == Some(x.symbol_of()),
        MinimapThemeType::lookup(v) is None <==> minimap_theme_type_symbol_at(v) is None,
{
    match e {
        MinimapThemeType::NONE => {},
        MinimapThemeType::GRASS => {},
        MinimapThemeType::WATER => {},
        MinimapThemeType::SNOW => {},
        MinimapThemeType::CLIFF => {},
        MinimapThemeType::EARTH => {},
        MinimapThemeType::FOLIAGE => {},
        MinimapThemeType::WOOD => {},
        MinimapThemeType::BUILDING => {},
    }
}

/// The C++ symbol whose value in the [`NavigatorType`] table is `value`.
pub open spec fn navigator_type_symbol_at(value: i32) -> Option<Seq<char>> {
    match value {
        1i32 => Some("NAV_INIT_GROUND"@),
        2i32 => Some("NAV_INIT_FLYER"@),
        _ => None,
    }
}

/// Each [`NavigatorType`] variant is written as the value its C++ symbol has in
/// the table, and each table value reads back the variant of its symbol.
pub proof fn lemma_navigator_type_symbols(e: NavigatorType, v: i32)
    ensures
        navigator_type_symbol_at(e.wire_value()) == Some(e.symbol_of()),
        NavigatorType::lookup(v) matches Some(x) ==> navigator_type_symbol_at(v) == Some(x.symbol_of()),
        NavigatorType::lookup(v) is None <==> navigator_type_symbol_at(v) is None,
{
    match e {
        NavigatorType::GROUND => {},
        NavigatorType::FLYER => {},
    }
}

/// The C++ symbol whose value in the [`NoiseType`] table is `value`.
pub open spec fn noise_type_symbol_at(value: i32) -> Option<Seq<char>> {
    match value {
        0i32 => Some("NOISE_TYPE_CONTINUOUS"@),
        1i32 => Some("NOISE_TYPE_ONCE_ONLY"@),
        _ => None,
    }
}

/// Each [`NoiseType`] variant is written as the value its C++ symbol has in
/// the table, and each table value reads back the variant of its symbol.
pub proof fn lemma_noise_type_symbols(e: NoiseType, v: i32)
    ensures
        noise_type_symbol_at(e.wire_value()) == Some(e.symbol_of()),
        NoiseType::lookup(v) matches Some(x) ==> noise_type_symbol_at(v) == Some(x.symbol_of()),
        NoiseType::lookup(v) is None <==> noise_type_symbol_at(v) is None,
{
    match e {
        NoiseType::CONTINUOUS => {},
        NoiseType::ONCEONLY => {},
    }
}

/// The C++ symbol whose value in the [`PerceivedThingType`] table is `value`.
pub open spec fn perceived_thing_type_symbol_at(value: i32) -> Option<Seq<char>> {
    match value {
        0i32 => Some("PERCEIVED_THING_FIND_PLAYER"@),
        1i32 => Some("MAX_NO_PERCEIVED_THING_TYPES"@),
        _ => None,
    }
}

/// Each [`PerceivedThingType`] variant is written as the value its C++ symbol has in
/// the table, and each table value reads back the variant of its symbol.
pub proof fn lemma_perceived_thing_type_symbols(e: PerceivedThingType, v: i32)
    ensures
        perceived_thing_type_symbol_at(e.wire_value()) == Some(e.symbol_of()),
        PerceivedThingType::lookup(v) matches Some(x) ==> perceived_thing_type_symbol_at(v) == Some(x.symbol_of()),
        PerceivedThingType::lookup(v) is None <==> perceived_thing_type_symbol_at(v) is None,
{
    match e {
        PerceivedThingType::PERCEIVEDTHINGFINDPLAYER => {},
        PerceivedThingType::MAXNOPERCEIVEDTHINGTYPES => {},
    }
}

/// The C++ symbol whose value in the [`PointLightChannelEffect`] table is `value`.
pub open spec fn point_light_channel_effect_symbol_at(value: i32) -> Option<Seq<char>> {
    match value {
        0i32 => Some("POINT_LIGHT_EFFECT_LOCAL_CHANNEL"@),
        1i32 => Some("POINT_LIGHT_EFFECT_ALL_INTERNALS"@),
        2i32 => Some("POINT_LIGHT_EFFECT_EXTERNALS"@),
        3i32 => Some("POINT_LIGHT_EFFECT_ALL"@),
        _ => None,
    }
}

/// Each [`PointLightChannelEffect`] variant is written as the value its C++ symbol has in
/// the table, and each table value reads back the variant of its symbol.
pub proof fn lemma_point_light_channel_effect_symbols(e: PointLightChannelEffect, v: i32)
    ensures
        point_light_channel_effect_symbol_at(e.wire_value()) == Some(e.symbol_of()),
        PointLightChannelEffect::lookup(v) matches Some(x) ==> point_light_channel_effect_symbol_at(v) == Some(x.symbol_of()),
        PointLightChannelEffect::lookup(v) is None <==> point_light_channel_effect_symbol_at(v) is None,
{
    match e {
        PointLightChannelEffect::LOCALCHANNEL => {},
        PointLightChannelEffect::ALLINTERNALS => {},
        PointLightChannelEffect::EXTERNALS => {},
        PointLightChannelEffect::ALL => {},
    }
}

/// The C++ symbol whose value in the [`QuakeLength`] table is `value`.
pub open spec fn quake_length_symbol_at(value: i32) -> Option<Seq<char>> {
    match value {
        0i32 => Some("QUAKE_LENGTH_SHORT"@),
        1i32 => Some("QUAKE_LENGTH_MEDIUM"@),
        2i32 => Some("QUAKE_LENGTH_LONG"@),
        3i32 => Some("QUAKE_LENGTH_CONTINUOUS"@),
        _ => None,
    }
}

/// Each [`QuakeLength`] variant is written as the value its C++ symbol has in
/// the table, and each table value reads back the variant of its symbol.
pub proof fn lemma_quake_length_symbols(e: QuakeLength, v: i32)
    ensures
        quake_length_symbol_at(e.wire_value()) == Some(e.symbol_of()),
        QuakeLength::lookup(v) matches Some(x) ==> quake_length_symbol_at(v) == Some(x.symbol_of()),
        QuakeLength::lookup(v) is None <==> quake_length_symbol_at(v) is None,
{
    match e {
        QuakeLength::SHORT => {},
        QuakeLength::MEDIUM => {},
        QuakeLength::LONG => {},
        QuakeLength::CONTINUOUS => {},
    }
}

/// The C++ symbol whose value in the [`QuakeStrength`] table is `value`.
pub open spec fn quake_strength_symbol_at(value: i32) -> Option<Seq<char>> {
    match value {
        0i32 => Some("QUAKE_STRENGTH_WEAK"@),
        1i32 => Some("QUAKE_STRENGTH_MEDIUM"@),
        2i32 => Some("QUAKE_STRENGTH_STRONG"@),
        3i32 => Some("QUAKE_STRENGTH_MADNESS"@),
        _ => None,
    }
}

/// Each [`QuakeStrength`] variant is written as the value its C++ symbol has in
/// the table, and each table value reads back the variant of its symbol.
pub proof fn lemma_quake_strength_symbols(e: QuakeStrength, v: i32)
    ensures
        quake_strength_symbol_at(e.wire_value()) == Some(e.symbol_of()),
        QuakeStrength::lookup(v) matches Some(x) ==> quake_strength_symbol_at(v) == Some(x.symbol_of()),
        QuakeStrength::lookup(v) is None <==> quake_strength_symbol_at(v) is None,
{
    match e {
        QuakeStrength::WEAK => {},
        QuakeStrength::MEDIUM => {},
        QuakeStrength::STRONG => {},
        QuakeStrength::MADNESS => {},
    }
}

/// The C++ symbol whose value in the [`ReactionSpeechType`] table is `value`.
pub open spec fn reaction_speech_type_symbol_at(value: i32) -> Option<Seq<char>> {
    match value {
        0i32 => Some("REACTION_SPEECH_NULL"@),
        1i32 => Some("REACTION_SPEECH_CALL_OVER_HERE"@),
        2i32 => Some("REACTION_SPEECH_FAWNING_GREETING"@),
        3i32 => Some("REACTION_SPEECH_FRIENDLY_GREETING"@),
        4i32 => Some("REACTION_SPEECH_STRANGERS_GREETING"@),
        5i32 => Some("REACTION_SPEECH_NERVOUS"@),
        6i32 => Some("REACTION_SPEECH_SCARED"@),
        7i32 => Some("REACTION_SPEECH_TERRIFIED"@),
        8i32 => Some("REACTION_SPEECH_INSULTED"@),
        9i32 => Some("REACTION_SPEECH_ANGRY"@),
        10i32 => Some("REACTION_SPEECH_HATEFUL"@),
        11i32 => Some("REACTION_SPEECH_THREAT_OF_RETRIBUTION"@),
        12i32 => Some("REACTION_SPEECH_PROMISE_OF_RETRIBUTION"@),
        13i32 => Some("REACTION_SPEECH_DISMISSIVE"@),
        14i32 => Some("REACTION_SPEECH_BOTHERED"@),
        15i32 => Some("REACTION_SPEECH_HARASSED"@),
        16i32 => Some("REACTION_SPEECH_RIDICULING"@),
        17i32 => Some("REACTION_SPEECH_INSULTS"@),
        18i32 => Some("REACTION_SPEECH_ATTRACTED"@),
        19i32 => Some("REACTION_SPEECH_LOVING"@),
        20i32 => Some("REACTION_SPEECH_SURPRISED_AT_ABUSE"@),
        21i32 => Some("REACTION_SPEECH_LOVING_AND_SHOCKED_AT_ABUSE"@),
        22i32 => Some("REACTION_SPEECH_UNIMPRESSED_RESPONSE_TO_THREAT"@),
        23i32 => Some("REACTION_SPEECH_RIDICULING_RESPONSE_TO_THREAT"@),
        24i32 => Some("REACTION_SPEECH_LOVING_RESPONSE_TO_FLIRT"@),
        25i32 => Some("REACTION_SPEECH_ATTRACTED_RESPONSE_TO_FLIRT"@),
        26i32 => Some("REACTION_SPEECH_NEUTRAL_REFUSAL_OF_FLIRT"@),
        27i32 => Some("REACTION_SPEECH_NEGATIVE_RESPONSE_TO_FLIRT"@),
        28i32 => Some("REACTION_SPEECH_FEARFUL_REFUSAL_OF_FLIRT"@),
        29i32 => Some("REACTION_SPEECH_GRATEFUL_ACCEPTANCE_OF_BRIBE"@),
        30i32 => Some("REACTION_SPEECH_PACIFIED_ACCEPTANCE_OF_BRIBE"@),
        31i32 => Some("REACTION_SPEECH_FRIENDLY_REJECTION_OF_BRIBE"@),
        32i32 => Some("REACTION_SPEECH_UNFRIENDLY_REJECTION_OF_BRIBE"@),
        33i32 => Some("REACTION_SPEECH_WARN_AWAY"@),
        34i32 => Some("REACTION_SPEECH_GIVE_AWAY"@),
        35i32 => Some("REACTION_SPEECH_REPORT_CRIME"@),
        36i32 => Some("REACTION_SPEECH_BODY_FOUND"@),
        37i32 => Some("REACTION_SPEECH_REPORT_BODY_FOUND"@),
        38i32 => Some("REACTION_SPEECH_GOSSIP"@),
        39i32 => Some("REACTION_SPEECH_YAWN"@),
        40i32 => Some("REACTION_SPEECH_SNORE"@),
        41i32 => Some("REACTION_SPEECH_CHEER"@),
        42i32 => Some("REACTION_SPEECH_SOB"@),
        43i32 => Some("REACTION_SPEECH_CRY_OUT"@),
        44i32 => Some("REACTION_SPEECH_BATTLE_CRY"@),
        45i32 => Some("REACTION_SPEECH_LYNCH_CRY"@),
        46i32 => Some("REACTION_SPEECH_WOUNDED"@),
        47i32 => Some("REACTION_SPEECH_DIE"@),
        48i32 => Some("REACTION_SPEECH_GUARD_KILL"@),
        49i32 => Some("REACTION_SPEECH_GUARD_ARREST"@),
        50i32 => Some("REACTION_SPEECH_GUARD_SECURITY_SWEEP"@),
        51i32 => Some("REACTION_SPEECH_GUARD_WARNING_1"@),
        52i32 => Some("REACTION_SPEECH_GUARD_WARNING_2"@),
        53i32 => Some("REACTION_SPEECH_GUARD_WARNING_3"@),
        54i32 => Some("REACTION_SPEECH_GUARD_WARNING_END_AND_THANKS"@),
        55i32 => Some("REACTION_SPEECH_NO_RESPECT"@),
        56i32 => Some("MAX_NO_REACTION_SPEECH_TYPES"@),
        _ => None,
    }
}

/// Each [`ReactionSpeechType`] variant is written as the value its C++ symbol has in
/// the table, and each table value reads back the variant of its symbol.
#[verifier::rlimit(50)]
pub proof fn lemma_reaction_speech_type_symbols(e: ReactionSpeechType, v: i32)
    ensures
        reaction_speech_type_symbol_at(e.wire_value()) == Some(e.symbol_of()),
        ReactionSpeechType::lookup(v) matches Some(x) ==> reaction_speech_type_symbol_at(v) == Some(x.symbol_of()),
        ReactionSpeechType::lookup(v) is None <==> reaction_speech_type_symbol_at(v) is None,
{
    match e {
        ReactionSpeechType::REACTIONSPEECHNULL => {},
        ReactionSpeechType::REACTIONSPEECHCALLOVERHERE => {},
        ReactionSpeechType::REACTIONSPEECHFAWNINGGREETING => {},
        ReactionSpeechType::REACTIONSPEECHFRIENDLYGREETING => {},
        ReactionSpeechType::REACTIONSPEECHSTRANGERSGREETING => {},
        ReactionSpeechType::REACTIONSPEECHNERVOUS => {},
        ReactionSpeechType::REACTIONSPEECHSCARED => {},
        ReactionSpeechType::REACTIONSPEECHTERRIFIED => {},
        ReactionSpeechType::REACTIONSPEECHINSULTED => {},
        ReactionSpeechType::REACTIONSPEECHANGRY => {},
        ReactionSpeechType::REACTIONSPEECHHATEFUL => {},
        ReactionSpeechType::REACTIONSPEECHTHREATOFRETRIBUTION => {},
        ReactionSpeechType::REACTIONSPEECHPROMISEOFRETRIBUTION => {},
        ReactionSpeechType::REACTIONSPEECHDISMISSIVE => {},
        ReactionSpeechType::REACTIONSPEECHBOTHERED => {},
        ReactionSpeechType::REACTIONSPEECHHARASSED => {},
        ReactionSpeechType::REACTIONSPEECHRIDICULING => {},
        ReactionSpeechType::REACTIONSPEECHINSULTS => {},
        ReactionSpeechType::REACTIONSPEECHATTRACTED => {},
        ReactionSpeechType::REACTIONSPEECHLOVING => {},
        ReactionSpeechType::REACTIONSPEECHSURPRISEDATABUSE => {},
        ReactionSpeechType::REACTIONSPEECHLOVINGANDSHOCKEDATABUSE => {},
        ReactionSpeechType::REACTIONSPEECHUNIMPRESSEDRESPONSETOTHREAT => {},
        ReactionSpeechType::REACTIONSPEECHRIDICULINGRESPONSETOTHREAT => {},
        ReactionSpeechType::REACTIONSPEECHLOVINGRESPONSETOFLIRT => {},
        ReactionSpeechType::REACTIONSPEECHATTRACTEDRESPONSETOFLIRT => {},
        ReactionSpeechType::REACTIONSPEECHNEUTRALREFUSALOFFLIRT => {},
        ReactionSpeechType::REACTIONSPEECHNEGATIVERESPONSETOFLIRT => {},
        ReactionSpeechType::REACTIONSPEECHFEARFULREFUSALOFFLIRT => {},
        ReactionSpeechType::REACTIONSPEECHGRATEFULACCEPTANCEOFBRIBE => {},
        ReactionSpeechType::REACTIONSPEECHPACIFIEDACCEPTANCEOFBRIBE => {},
        ReactionSpeechType::REACTIONSPEECHFRIENDLYREJECTIONOFBRIBE => {},
        ReactionSpeechType::REACTIONSPEECHUNFRIENDLYREJECTIONOFBRIBE => {},
        ReactionSpeechType::REACTIONSPEECHWARNAWAY => {},
        ReactionSpeechType::REACTIONSPEECHGIVEAWAY => {},
        ReactionSpeechType::REACTIONSPEECHREPORTCRIME => {},
        ReactionSpeechType::REACTIONSPEECHBODYFOUND => {},
        ReactionSpeechType::REACTIONSPEECHREPORTBODYFOUND => {},
        ReactionSpeechType::REACTIONSPEECHGOSSIP => {},
        ReactionSpeechType::REACTIONSPEECHYAWN => {},
        ReactionSpeechType::REACTIONSPEECHSNORE => {},
        ReactionSpeechType::REACTIONSPEECHCHEER => {},
        ReactionSpeechType::REACTIONSPEECHSOB => {},
        ReactionSpeechType::REACTIONSPEECHCRYOUT => {},
        ReactionSpeechType::REACTIONSPEECHBATTLECRY => {},
        ReactionSpeechType::REACTIONSPEECHLYNCHCRY => {},
        ReactionSpeechType::REACTIONSPEECHWOUNDED => {},
        ReactionSpeechType::REACTIONSPEECHDIE => {},
        ReactionSpeechType::REACTIONSPEECHGUARDKILL => {},
        ReactionSpeechType::REACTIONSPEECHGUARDARREST => {},
        ReactionSpeechType::REACTIONSPEECHGUARDSECURITYSWEEP => {},
        ReactionSpeechType::REACTIONSPEECHGUARDWARNING1 => {},
        ReactionSpeechType::REACTIONSPEECHGUARDWARNING2 => {},
        ReactionSpeechType::REACTIONSPEECHGUARDWARNING3 => {},
        ReactionSpeechType::REACTIONSPEECHGUARDWARNINGENDANDTHANKS => {},
        ReactionSpeechType::REACTIONSPEECHNORESPECT => {},
        ReactionSpeechType::MAXNOREACTIONSPEECHTYPES => {},
    }
}

/// The C++ symbol whose value in the [`ReverbEnvironmentType`] table is `value`.
pub open spec fn reverb_environment_type_symbol_at(value: i32) -> Option<Seq<char>> {
    match value {
        0i32 => Some("REVERB_ENVIRONMENT_NULL"@),
        1i32 => Some("REVERB_ENVIRONMENT_EXTERNAL"@),
        2i32 => Some("REVERB_ENVIRONMENT_CAVE"@),
        3i32 => Some("REVERB_ENVIRONMENT_HALL"@),
        4i32 => Some("REVERB_ENVIRONMENT_GUILD"@),
        5i32 => Some("REVERB_ENVIRONMENT_GUILD_SMALL"@),
        6i32 => Some("REVERB_ENVIRONMENT_SMALL_ROOM"@),
        7i32 => Some("REVERB_ENVIRONMENT_SCHOOL"@),
        _ => None,
    }
}

/// Each [`ReverbEnvironmentType`] variant is written as the value its C++ symbol has in
/// the table, and each table value reads back the variant of its symbol.
pub proof fn lemma_reverb_environment_type_symbols(e: ReverbEnvironmentType, v: i32)
    ensures
        reverb_environment_type_symbol_at(e.wire_value()) == Some(e.symbol_of()),
        ReverbEnvironmentType::lookup(v) matches Some(x) ==> reverb_environment_type_symbol_at(v) == Some(x.symbol_of()),
        ReverbEnvironmentType::lookup(v) is None <==> reverb_environment_type_symbol_at(v) is None,
{
    match e {
        ReverbEnvironmentType::NULL => {},
        ReverbEnvironmentType::EXTERNAL => {},
        ReverbEnvironmentType::CAVE => {},
        ReverbEnvironmentType::HALL => {},
        ReverbEnvironmentType::GUILD => {},
        ReverbEnvironmentType::GUILDSMALL => {},
        ReverbEnvironmentType::SMALLROOM => {},
        ReverbEnvironmentType::SCHOOL => {},
    }
}

/// The C++ symbol whose value in the [`ScriptingStateGroups`] table is `value`.
pub open spec fn scripting_state_groups_symbol_at(value: i32) -> Option<Seq<char>> {
    match value {
        0i32 => Some("ESSG_NONE"@),
        1i32 => Some("ESSG_PERFORM_ACTION_PHYSICAL"@),
        2i32 => Some("ESSG_PERFORM_ACTION_VERBAL"@),
        3i32 => Some("ESSG_PERFORM_ACTION_AURAL"@),
        4i32 => Some("ESSG_WANDER_NEAR"@),
        5i32 => Some("ESSG_FOLLOW_PATH"@),
        6i32 => Some("ESSG_FOLLOW_RANDOM"@),
        7i32 => Some("ESSG_FOLLOW_NEAREST"@),
        8i32 => Some("ESSG_WALK_TO_RANDOM"@),
        9i32 => Some("ESSG_WALK_TO_NEAREST_DIFFERENT"@),
        10i32 => Some("ESSG_RUN_AT_HERO_AND_ATTACK_UNTIL_DEAD"@),
        _ => None,
    }
}

/// Each [`ScriptingStateGroups`] variant is written as the value its C++ symbol has in
/// the table, and each table value reads back the variant of its symbol.
pub proof fn lemma_scripting_state_groups_symbols(e: ScriptingStateGroups, v: i32)
    ensures
        scripting_state_groups_symbol_at(e.wire_value()) == Some(e.symbol_of()),
        ScriptingStateGroups::lookup(v) matches Some(x) ==> scripting_state_groups_symbol_at(v) == Some(x.symbol_of()),
        ScriptingStateGroups::lookup(v) is None <==> scripting_state_groups_symbol_at(v) is None,
{
    match e {
        ScriptingStateGroups::NONE => {},
        ScriptingStateGroups::PERFORMACTIONPHYSICAL => {},
        ScriptingStateGroups::PERFORMACTIONVERBAL => {},
        ScriptingStateGroups::PERFORMACTIONAURAL => {},
        ScriptingStateGroups::WANDERNEAR => {},
        ScriptingStateGroups::FOLLOWPATH => {},
        ScriptingStateGroups::FOLLOWRANDOM => {},
        ScriptingStateGroups::FOLLOWNEAREST => {},
        ScriptingStateGroups::WALKTORANDOM => {},
        ScriptingStateGroups::WALKTONEARESTDIFFERENT => {},
        ScriptingStateGroups::RUNATHEROANDATTACKUNTILDEAD => {},
    }
}

/// The C++ symbol whose value in the [`Sex`] table is `value`.
pub open spec fn sex_symbol_at(value: i32) -> Option<Seq<char>> {
    match value {
        0i32 => Some("SEX_NULL"@),
        1i32 => Some("SEX_MALE"@),
        2i32 => Some("SEX_FEMALE"@),
        3i32 => Some("NO_OF_SEXES"@),
        _ => None,
    }
}

/// Each [`Sex`] variant is written as the value its C++ symbol has in
/// the table, and each table value reads back the variant of its symbol.
pub proof fn lemma_sex_symbols(e: Sex, v: i32)
    ensures
        sex_symbol_at(e.wire_value()) == Some(e.symbol_of()),
        Sex::lookup(v) matches Some(x) ==> sex_symbol_at(v) == Some(x.symbol_of()),
        Sex::lookup(v) is None <==> sex_symbol_at(v) is None,
{
    match e {
        Sex::SEXNULL => {},
        Sex::SEXMALE => {},
        Sex::SEXFEMALE => {},
        Sex::NOOFSEXES => {},
    }
}

/// The C++ symbol whose value in the [`TavernGameControlType`] table is `value`.
pub open spec fn tavern_game_control_type_symbol_at(value: i32) -> Option<Seq<char>> {
    match value {
        0i32 => Some("ETGCT_RELATIVE"@),
        1i32 => Some("ETGCT_ABSOLUTE"@),
        _ => None,
    }
}

/// Each [`TavernGameControlType`] variant is written as the value its C++ symbol has in
/// the table, and each table value reads back the variant of its symbol.
pub proof fn lemma_tavern_game_control_type_symbols(e: TavernGameControlType, v: i32)
    ensures
        tavern_game_control_type_symbol_at(e.wire_value()) == Some(e.symbol_of()),
        TavernGameControlType::lookup(v) matches Some(x) ==> tavern_game_control_type_symbol_at(v) == Some(x.symbol_of()),
        TavernGameControlType::lookup(v) is None <==> tavern_game_control_type_symbol_at(v) is None,
{
    match e {
        TavernGameControlType::RELATIVE => {},
        TavernGameControlType::ABSOLUTE => {},
    }
}

/// The C++ symbol whose value in the [`ThingCreatureProperty`] table is `value`.
pub open spec fn thing_creature_property_symbol_at(value: i32) -> Option<Seq<char>> {
    match value {
        0i32 => Some("THING_CREATURE_PROPERTY_NULL"@),
        1i32 => Some("THING_CREATURE_PROPERTY_IS_MINION"@),
        2i32 => Some("THING_CREATURE_PROPERTY_ANNOYABLE_BY_KIDS"@),
        3i32 => Some("THING_CREATURE_PROPERTY_GUARD"@),
        4i32 => Some("THING_CREATURE_PROPERTY_FIREFLY"@),
        _ => None,
    }
}

/// Each [`ThingCreatureProperty`] variant is written as the value its C++ symbol has in
/// the table, and each table value reads back the variant of its symbol.
pub proof fn lemma_thing_creature_property_symbols(e: ThingCreatureProperty, v: i32)
    ensures
        thing_creature_property_symbol_at(e.wire_value()) == Some(e.symbol_of()),
        ThingCreatureProperty::lookup(v) matches Some(x) ==> thing_creature_property_symbol_at(v) == Some(x.symbol_of()),
        ThingCreatureProperty::lookup(v) is None <==> thing_creature_property_symbol_at(v) is None,
{
    match e {
        ThingCreatureProperty::NULL => {},
        ThingCreatureProperty::ISMINION => {},
        ThingCreatureProperty::ANNOYABLEBYKIDS => {},
        ThingCreatureProperty::GUARD => {},
        ThingCreatureProperty::FIREFLY => {},
    }
}

/// The C++ symbol whose value in the [`TrapTriggerType`] table is `value`.
pub open spec fn trap_trigger_type_symbol_at(value: i32) -> Option<Seq<char>> {
    match value {
        0i32 => Some("TRAP_TRIGGER_MANUAL"@),
        1i32 => Some("TRAP_TRIGGER_PROXIMITY"@),
        _ => None,
    }
}

/// Each [`TrapTriggerType`] variant is written as the value its C++ symbol has in
/// the table, and each table value reads back the variant of its symbol.
pub proof fn lemma_trap_trigger_type_symbols(e: TrapTriggerType, v: i32)
    ensures
        trap_trigger_type_symbol_at(e.wire_value()) == Some(e.symbol_of()),
        TrapTriggerType::lookup(v) matches Some(x) ==> trap_trigger_type_symbol_at(v) == Some(x.symbol_of()),
        TrapTriggerType::lookup(v) is None <==> trap_trigger_type_symbol_at(v) is None,
{
    match e {
        TrapTriggerType::MANUAL => {},
        TrapTriggerType::PROXIMITY => {},
    }
}

/// The C++ symbol whose value in the [`TrapType`] table is `value`.
pub open spec fn trap_type_symbol_at(value: i32) -> Option<Seq<char>> {
    match value {
        0i32 => Some("TRAP_TYPE_TRIGGER_ONCE_ONLY"@),
        1i32 => Some("TRAP_TYPE_TRIGGER_AND_RESET"@),
        2i32 => Some("TRAP_TYPE_TRIGGER_AND_PLAY_CONTINUOUS"@),
        3i32 => Some("TRAP_TYPE_PLAY_CONTINUOUS"@),
        4i32 => Some("TRAP_TYPE_TRIGGER_AND_DIE"@),
        _ => None,
    }
}

/// Each [`TrapType`] variant is written as the value its C++ symbol has in
/// the table, and each table value reads back the variant of its symbol.
pub proof fn lemma_trap_type_symbols(e: TrapType, v: i32)
    ensures
        trap_type_symbol_at(e.wire_value()) == Some(e.symbol_of()),
        TrapType::lookup(v) matches Some(x) ==> trap_type_symbol_at(v) == Some(x.symbol_of()),
        TrapType::lookup(v) is None <==> trap_type_symbol_at(v) is None,
{
    match e {
        TrapType::TRIGGERONCEONLY => {},
        TrapType::TRIGGERANDRESET => {},
        TrapType::TRIGGERANDPLAYCONTINUOUS => {},
        TrapType::PLAYCONTINUOUS => {},
        TrapType::TRIGGERANDDIE => {},
    }
}

/// The C++ symbol whose value in the [`TutorialCategory`] table is `value`.
pub open spec fn tutorial_category_symbol_at(value: i32) -> Option<Seq<char>> {
    match value {
        0i32 => Some("TUTORIAL_CATEGORY_NONE"@),
        1i32 => Some("TUTORIAL_CATEGORY_ABILITY_ASSIGNING"@),
        2i32 => Some("TUTORIAL_CATEGORY_ABILITY_CYCLING"@),
        3i32 => Some("TUTORIAL_CATEGORY_BASIC_OBJECTS"@),
        4i32 => Some("TUTORIAL_CATEGORY_BED"@),
        5i32 => Some("TUTORIAL_CATEGORY_BOASTING"@),
        6i32 => Some("TUTORIAL_CATEGORY_CAMERA"@),
        7i32 => Some("TUTORIAL_CATEGORY_CHARITY_SHOP"@),
        8i32 => Some("TUTORIAL_CATEGORY_CHEST"@),
        9i32 => Some("TUTORIAL_CATEGORY_COMBAT_MULTIPLIER"@),
        10i32 => Some("TUTORIAL_CATEGORY_CREATURE_DROP"@),
        11i32 => Some("TUTORIAL_CATEGORY_DYING"@),
        12i32 => Some("TUTORIAL_CATEGORY_DEMON_DOOR"@),
        13i32 => Some("TUTORIAL_CATEGORY_DOOR"@),
        14i32 => Some("TUTORIAL_CATEGORY_EXPERIENCE"@),
        15i32 => Some("TUTORIAL_CATEGORY_EXPERIENCE_SPENDING"@),
        16i32 => Some("TUTORIAL_CATEGORY_EXPRESSION"@),
        17i32 => Some("TUTORIAL_CATEGORY_FLIRTING"@),
        18i32 => Some("TUTORIAL_CATEGORY_FLOURISHING_MOVE"@),
        19i32 => Some("TUTORIAL_CATEGORY_GOLDMARKERS"@),
        20i32 => Some("TUTORIAL_CATEGORY_GUILD_SEAL"@),
        21i32 => Some("TUTORIAL_CATEGORY_INTERACTING"@),
        22i32 => Some("TUTORIAL_CATEGORY_INVENTORY"@),
        23i32 => Some("TUTORIAL_CATEGORY_INVENTORY_ASSIGNING"@),
        24i32 => Some("TUTORIAL_CATEGORY_LEVELLING_UP"@),
        25i32 => Some("TUTORIAL_CATEGORY_MORALITY"@),
        26i32 => Some("TUTORIAL_CATEGORY_MOVEMENT"@),
        27i32 => Some("TUTORIAL_CATEGORY_QUEST"@),
        28i32 => Some("TUTORIAL_CATEGORY_QUEST_CARD"@),
        29i32 => Some("TUTORIAL_CATEGORY_RENOWN"@),
        30i32 => Some("TUTORIAL_CATEGORY_TAKING_QUESTS"@),
        31i32 => Some("TUTORIAL_CATEGORY_TELEPORTING"@),
        32i32 => Some("TUTORIAL_CATEGORY_TRADE_ITEM"@),
        33i32 => Some("TUTORIAL_CATEGORY_SEARCHING"@),
        34i32 => Some("TUTORIAL_CATEGORY_SNEAK"@),
        35i32 => Some("TUTORIAL_CATEGORY_BUILDING_OWNERSHIP"@),
        36i32 => Some("TUTORIAL_CATEGORY_FISHING_GAME"@),
        37i32 => Some("TUTORIAL_CATEGORY_ORACLE_GAME"@),
        38i32 => Some("TUTORIAL_CATEGORY_WORLD_MAP"@),
        39i32 => Some("TUTORIAL_CATEGORY_ALCOHOL"@),
        40i32 => Some("TUTORIAL_CATEGORY_AUGMENTATION"@),
        41i32 => Some("TUTORIAL_CATEGORY_ARMOUR"@),
        42i32 => Some("TUTORIAL_CATEGORY_BOMB"@),
        43i32 => Some("TUTORIAL_CATEGORY_CLOTHES"@),
        44i32 => Some("TUTORIAL_CATEGORY_FOOD"@),
        45i32 => Some("TUTORIAL_CATEGORY_FISHING_ROD"@),
        46i32 => Some("TUTORIAL_CATEGORY_GIFT"@),
        47i32 => Some("TUTORIAL_CATEGORY_HAIRSTYLE"@),
        48i32 => Some("TUTORIAL_CATEGORY_POTION"@),
        49i32 => Some("TUTORIAL_CATEGORY_RESURRECTION_PHIAL"@),
        50i32 => Some("TUTORIAL_CATEGORY_SILVER_KEY"@),
        51i32 => Some("TUTORIAL_CATEGORY_SPADE"@),
        52i32 => Some("TUTORIAL_CATEGORY_TATTOO"@),
        53i32 => Some("TUTORIAL_CATEGORY_TROPHY"@),
        54i32 => Some("TUTORIAL_CATEGORY_WEAPON"@),
        55i32 => Some("TUTORIAL_CATEGORY_WEAPON_LEGENDARY"@),
        56i32 => Some("TUTORIAL_CATEGORY_APOLOGY"@),
        57i32 => Some("TUTORIAL_CATEGORY_BATTLE_CRY"@),
        58i32 => Some("TUTORIAL_CATEGORY_BELCH"@),
        59i32 => Some("TUTORIAL_CATEGORY_EVIL_LAUGH"@),
        60i32 => Some("TUTORIAL_CATEGORY_FART"@),
        61i32 => Some("TUTORIAL_CATEGORY_FLIRT"@),
        62i32 => Some("TUTORIAL_CATEGORY_FOLLOW"@),
        63i32 => Some("TUTORIAL_CATEGORY_GIGGLE"@),
        64i32 => Some("TUTORIAL_CATEGORY_HEROIC_STANCE"@),
        65i32 => Some("TUTORIAL_CATEGORY_MIDDLE_FINGER"@),
        66i32 => Some("TUTORIAL_CATEGORY_PELVIC_THRUST"@),
        67i32 => Some("TUTORIAL_CATEGORY_PICKLOCK"@),
        68i32 => Some("TUTORIAL_CATEGORY_PICKPOCKET"@),
        69i32 => Some("TUTORIAL_CATEGORY_SHIT"@),
        70i32 => Some("TUTORIAL_CATEGORY_SNEER"@),
        71i32 => Some("TUTORIAL_CATEGORY_STEAL"@),
        72i32 => Some("TUTORIAL_CATEGORY_THANKS"@),
        73i32 => Some("TUTORIAL_CATEGORY_VICTORY_PUMP"@),
        74i32 => Some("TUTORIAL_CATEGORY_WAIT"@),
        75i32 => Some("TUTORIAL_CATEGORY_COCK_A_DOODLE_DO"@),
        76i32 => Some("TUTORIAL_CATEGORY_CROTCH_GRAB"@),
        77i32 => Some("TUTORIAL_CATEGORY_KISS_MY_ASS"@),
        78i32 => Some("TUTORIAL_CATEGORY_FLAMENCO"@),
        79i32 => Some("TUTORIAL_CATEGORY_COSSACK"@),
        80i32 => Some("TUTORIAL_CATEGORY_AIR_GUITAR"@),
        81i32 => Some("TUTORIAL_CATEGORY_BALLET"@),
        82i32 => Some("TUTORIAL_CATEGORY_SATURDAY_NIGHT_FEVER"@),
        83i32 => Some("TUTORIAL_CATEGORY_TAP"@),
        84i32 => Some("TUTORIAL_CATEGORY_Y"@),
        85i32 => Some("TUTORIAL_CATEGORY_M"@),
        86i32 => Some("TUTORIAL_CATEGORY_C"@),
        87i32 => Some("TUTORIAL_CATEGORY_A"@),
        88i32 => Some("TUTORIAL_CATEGORY_CRIME_WEAPONOUT"@),
        89i32 => Some("TUTORIAL_CATEGORY_CRIME_TRESPASSING"@),
        90i32 => Some("TUTORIAL_CATEGORY_CRIME_VANDALISM"@),
        91i32 => Some("TUTORIAL_CATEGORY_CRIME_THEFT"@),
        92i32 => Some("TUTORIAL_CATEGORY_CRIME_ASSAULT"@),
        93i32 => Some("TUTORIAL_CATEGORY_CRIME_GBH"@),
        94i32 => Some("TUTORIAL_CATEGORY_CRIME_MURDER"@),
        95i32 => Some("TUTORIAL_CATEGORY_COUNT"@),
        _ => None,
    }
}

/// Each [`TutorialCategory`] variant is written as the value its C++ symbol has in
/// the table, and each table value reads back the variant of its symbol.
#[verifier::rlimit(50)]
pub proof fn lemma_tutorial_category_symbols(e: TutorialCategory, v: i32)
    ensures
        tutorial_category_symbol_at(e.wire_value()) == Some(e.symbol_of()),
        TutorialCategory::lookup(v) matches Some(x) ==> tutorial_category_symbol_at(v) == Some(x.symbol_of()),
        TutorialCategory::lookup(v) is None <==> tutorial_category_symbol_at(v) is None,
{
    match e {
        TutorialCategory::NONE => {},
        TutorialCategory::ABILITYASSIGNING => {},
        TutorialCategory::ABILITYCYCLING => {},
        TutorialCategory::BASICOBJECTS => {},
        TutorialCategory::BED => {},
        TutorialCategory::BOASTING => {},
        TutorialCategory::CAMERA => {},
        TutorialCategory::CHARITYSHOP => {},
        TutorialCategory::CHEST => {},
        TutorialCategory::COMBATMULTIPLIER => {},
        TutorialCategory::CREATUREDROP => {},
        TutorialCategory::DYING => {},
        TutorialCategory::DEMONDOOR => {},
        TutorialCategory::DOOR => {},
        TutorialCategory::EXPERIENCE => {},
        TutorialCategory::EXPERIENCESPENDING => {},
        TutorialCategory::EXPRESSION => {},
        TutorialCategory::FLIRTING => {},
        TutorialCategory::FLOURISHINGMOVE => {},
        TutorialCategory::GOLDMARKERS => {},
        TutorialCategory::GUILDSEAL => {},
        TutorialCategory::INTERACTING => {},
        TutorialCategory::INVENTORY => {},
        TutorialCategory::INVENTORYASSIGNING => {},
        TutorialCategory::LEVELLINGUP => {},
        TutorialCategory::MORALITY => {},
        TutorialCategory::MOVEMENT => {},
        TutorialCategory::QUEST => {},
        TutorialCategory::QUESTCARD => {},
        TutorialCategory::RENOWN => {},
        TutorialCategory::TAKINGQUESTS => {},
        TutorialCategory::TELEPORTING => {},
        TutorialCategory::TRADEITEM => {},
        TutorialCategory::SEARCHING => {},
        TutorialCategory::SNEAK => {},
        TutorialCategory::BUILDINGOWNERSHIP => {},
        TutorialCategory::FISHINGGAME => {},
        TutorialCategory::ORACLEGAME => {},
        TutorialCategory::WORLDMAP => {},
        TutorialCategory::ALCOHOL => {},
        TutorialCategory::AUGMENTATION => {},
        TutorialCategory::ARMOUR => {},
        TutorialCategory::BOMB => {},
        TutorialCategory::CLOTHES => {},
        TutorialCategory::FOOD => {},
        TutorialCategory::FISHINGROD => {},
        TutorialCategory::GIFT => {},
        TutorialCategory::HAIRSTYLE => {},
        TutorialCategory::POTION => {},
        TutorialCategory::RESURRECTIONPHIAL => {},
        TutorialCategory::SILVERKEY => {},
        TutorialCategory::SPADE => {},
        TutorialCategory::TATTOO => {},
        TutorialCategory::TROPHY => {},
        TutorialCategory::WEAPON => {},
        TutorialCategory::WEAPONLEGENDARY => {},
        TutorialCategory::APOLOGY => {},
        TutorialCategory::BATTLECRY => {},
        TutorialCategory::BELCH => {},
        TutorialCategory::EVILLAUGH => {},
        TutorialCategory::FART => {},
        TutorialCategory::FLIRT => {},
        TutorialCategory::FOLLOW => {},
        TutorialCategory::GIGGLE => {},
        TutorialCategory::HEROICSTANCE => {},
        TutorialCategory::MIDDLEFINGER => {},
        TutorialCategory::PELVICTHRUST => {},
        TutorialCategory::PICKLOCK => {},
        TutorialCategory::PICKPOCKET => {},
        TutorialCategory::SHIT => {},
        TutorialCategory::SNEER => {},
        TutorialCategory::STEAL => {},
        TutorialCategory::THANKS => {},
        TutorialCategory::VICTORYPUMP => {},
        TutorialCategory::WAIT => {},
        TutorialCategory::COCKADOODLEDO => {},
        TutorialCategory::CROTCHGRAB => {},
        TutorialCategory::KISSMYASS => {},
        TutorialCategory::FLAMENCO => {},
        TutorialCategory::COSSACK => {},
        TutorialCategory::AIRGUITAR => {},
        TutorialCategory::BALLET => {},
        TutorialCategory::SATURDAYNIGHTFEVER => {},
        TutorialCategory::TAP => {},
        TutorialCategory::Y => {},
        TutorialCategory::M => {},
        TutorialCategory::C => {},
        TutorialCategory::A => {},
        TutorialCategory::CRIMEWEAPONOUT => {},
        TutorialCategory::CRIMETRESPASSING => {},
        TutorialCategory::CRIMEVANDALISM => {},
        TutorialCategory::CRIMETHEFT => {},
        TutorialCategory::CRIMEASSAULT => {},
        TutorialCategory::CRIMEGBH => {},
        TutorialCategory::CRIMEMURDER => {},
        TutorialCategory::COUNT => {},
    }
}

/// The C++ symbol whose value in the [`WallMountEffects`] table is `value`.
pub open spec fn wall_mount_effects_symbol_at(value: i32) -> Option<Seq<char>> {
    match value {
        0i32 => Some("WALL_MOUNT_EFFECT_NONE"@),
        1i32 => Some("WALL_MOUNT_EFFECT_TELEPORT"@),
        2i32 => Some("WALL_MOUNT_EFFECT_HEAL"@),
        _ => None,
    }
}

/// Each [`WallMountEffects`] variant is written as the value its C++ symbol has in
/// the table, and each table value reads back the variant of its symbol.
pub proof fn lemma_wall_mount_effects_symbols(e: WallMountEffects, v: i32)
    ensures
        wall_mount_effects_symbol_at(e.wire_value()) == Some(e.symbol_of()),
        WallMountEffects::lookup(v) matches Some(x) ==> wall_mount_effects_symbol_at(v) == Some(x.symbol_of()),
        WallMountEffects::lookup(v) is None <==> wall_mount_effects_symbol_at(v) is None,
{
    match e {
        WallMountEffects::NONE => {},
        WallMountEffects::TELEPORT => {},
        WallMountEffects::HEAL => {},
    }
}

/// The C++ symbol whose value in the [`WaterType`] table is `value`.
pub open spec fn water_type_symbol_at(value: i32) -> Option<Seq<char>> {
    match value {
        0i32 => Some("WATER_TYPE_NULL"@),
        1i32 => Some("WATER_TYPE_LAKE"@),
        2i32 => Some("WATER_TYPE_RIVER"@),
        3i32 => Some("WATER_TYPE_SEA"@),
        4i32 => Some("WATER_TYPE_REFLECTIVE_SEA"@),
        5i32 => Some("WATER_TYPE_NON_REFLECTIVE_SEA"@),
        6i32 => Some("WATER_TYPE_OLD"@),
        7i32 => Some("WATER_TYPE_DUMMY_SHORE_POINT"@),
        8i32 => Some("WATER_TYPE_ICE"@),
        9i32 => Some("WATER_TYPE_COUNT"@),
        _ => None,
    }
}

/// Each [`WaterType`] variant is written as the value its C++ symbol has in
/// the table, and each table value reads back the variant of its symbol.
pub proof fn lemma_water_type_symbols(e: WaterType, v: i32)
    ensures
        water_type_symbol_at(e.wire_value()) == Some(e.symbol_of()),
        WaterType::lookup(v) matches Some(x) ==> water_type_symbol_at(v) == Some(x.symbol_of()),
        WaterType::lookup(v) is None <==> water_type_symbol_at(v) is None,
{
    match e {
        WaterType::NULL => {},
        WaterType::LAKE => {},
        WaterType::RIVER => {},
        WaterType::SEA => {},
        WaterType::REFLECTIVESEA => {},
        WaterType::NONREFLECTIVESEA => {},
        WaterType::OLD => {},
        WaterType::DUMMYSHOREPOINT => {},
        WaterType::ICE => {},
        WaterType::COUNT => {},
    }
}

/// The C++ symbol whose value in the [`WeaponClass`] table is `value`.
pub open spec fn weapon_class_symbol_at(value: i32) -> Option<Seq<char>> {
    match value {
        0i32 => Some("WC_UNARMED"@),
        1i32 => Some("WC_LIGHT"@),
        2i32 => Some("WC_HEAVY"@),
        3i32 => Some("WC_PROJECTILE"@),
        _ => None,
    }
}

/// Each [`WeaponClass`] variant is written as the value its C++ symbol has in
/// the table, and each table value reads back the variant of its symbol.
pub proof fn lemma_weapon_class_symbols(e: WeaponClass, v: i32)
    ensures
        weapon_class_symbol_at(e.wire_value()) == Some(e.symbol_of()),
        WeaponClass::lookup(v) matches Some(x) ==> weapon_class_symbol_at(v) == Some(x.symbol_of()),
        WeaponClass::lookup(v) is None <==> weapon_class_symbol_at(v) is None,
{
    match e {
        WeaponClass::UNARMED => {},
        WeaponClass::LIGHT => {},
        WeaponClass::HEAVY => {},
        WeaponClass::PROJECTILE => {},
    }
}

/// The C++ symbol whose value in the [`WeaponType`] table is `value`.
pub open spec fn weapon_type_symbol_at(value: i32) -> Option<Seq<char>> {
    match value {
        0i32 => Some("WT_SWORD"@),
        1i32 => Some("WT_AXE"@),
        2i32 => Some("WT_HAMMER"@),
        3i32 => Some("WT_BOW"@),
        4i32 => Some("WT_CROSSBOW"@),
        5i32 => Some("WT_BOLT"@),
        6i32 => Some("WT_ARROW"@),
        7i32 => Some("WT_THROWING"@),
        _ => None,
    }
}

/// Each [`WeaponType`] variant is written as the value its C++ symbol has in
/// the table, and each table value reads back the variant of its symbol.
pub proof fn lemma_weapon_type_symbols(e: WeaponType, v: i32)
    ensures
        weapon_type_symbol_at(e.wire_value()) == Some(e.symbol_of()),
        WeaponType::lookup(v) matches Some(x) ==> weapon_type_symbol_at(v) == Some(x.symbol_of()),
        WeaponType::lookup(v) is None <==> weapon_type_symbol_at(v) is None,
{
    match e {
        WeaponType::SWORD => {},
        WeaponType::AXE => {},
        WeaponType::HAMMER => {},
        WeaponType::BOW => {},
        WeaponType::CROSSBOW => {},
        WeaponType::BOLT => {},
        WeaponType::ARROW => {},
        WeaponType::THROWING => {},
    }
}

/// The C++ symbol whose value in the [`DialogueLayer`] table is `value`.
pub open spec fn dialogue_layer_symbol_at(value: i32) -> Option<Seq<char>> {
    match value {
        0i32 => Some("DIALOGUE_LAYER_FOREGROUND"@),
        1i32 => Some("DIALOGUE_LAYER_MIDGROUND"@),
        2i32 => Some("DIALOGUE_LAYER_BACKGROUND"@),
        3i32 => Some("DIALOGUE_LAYER_LAST"@),
        _ => None,
    }
}

/// Each [`DialogueLayer`] variant is written as the value its C++ symbol has in
/// the table, and each table value reads back the variant of its symbol.
pub proof fn lemma_dialogue_layer_symbols(e: DialogueLayer, v: i32)
    ensures
        dialogue_layer_symbol_at(e.wire_value()) == Some(e.symbol_of()),
        DialogueLayer::lookup(v) matches Some(x) ==> dialogue_layer_symbol_at(v) == Some(x.symbol_of()),
        DialogueLayer::lookup(v) is None <==> dialogue_layer_symbol_at(v) is None,
{
    match e {
        DialogueLayer::FOREGROUND => {},
        DialogueLayer::MIDGROUND => {},
        DialogueLayer::BACKGROUND => {},
        DialogueLayer::LAST => {},
    }
}

} // verus!
