//! The def enumerations, with their wire values and the C++ enumerator
//! symbols that text defs use.
//!
//! Two shapes:
//! - closed enums ([`DefEnum`]): the compiled data provably stays inside the
//!   C++ enum table, so an out-of-table value is an error;
//! - bit-set newtypes over `i32` (`from_i32`, `contains`, `|`): the values the
//!   game ORs together, or that carry empty or unlisted values.

use vstd::prelude::*;

use crate::bytes::str_eq;

verus! {

/// A def enum: a closed enum with a total mapping to and from its wire value.
pub trait DefEnum: Sized + Copy {
    /// The wire value of `self`.
    spec fn wire_value(self) -> i32;

    /// The variant whose wire value is `value`, if any.
    spec fn lookup(value: i32) -> Option<Self>;

    /// Table lookup; `None` for values outside the C++ enum.
    fn from_i32(value: i32) -> (r: Option<Self>)
        ensures
            r == Self::lookup(value),
    ;

    fn to_i32(self) -> (r: i32)
        ensures
            r == self.wire_value(),
    ;

    /// Looking up a variant's wire value gives back the variant.
    proof fn lemma_lookup_wire_value(e: Self)
        ensures
            Self::lookup(e.wire_value()) == Some(e),
    ;
}

/// UI element type.
#[derive(Debug, Clone, Copy, PartialEq, Eq, Structural, PartialOrd, Ord, Hash)]
pub enum UiType {
    Sprite,
    MorphingSprite,
    Table,
    Mesh,
    Composite,
    ChangingStateComposite,
    Text,
    MenuEntry,
    List,
    Viewport,
    FrontendScreen,
    FrontendButton,
    FrontendList,
    ScrollingViewport,
    ListArrow,
    Slider,
    TextSlider,
    Movie,
    SwappingStateComposite,
    ScrollingComposite,
    TextContainer,
    ZoomingComposite,
    ComponentContainer,
    SpellContainer,
    SpellContainerList,
    YesNo,
    OkDialog,
    ParticleEffect,
    ControllerDisconnect,
    DirtyDisc,
    IconText,
    DynamicList,
    MousePointer,
    Hoverable,
    Clickable,
    Draggable,
    DraggableInto,
    EditBox,
    NavigationButton,
    KeyRedefiner,
    RedefinerList,
    Scrollbar,
    ScrollbarOutside,
    ScrollableList,
}

impl DefEnum for UiType {
    open spec fn wire_value(self) -> i32 {
        match self {
            UiType::Sprite => 0i32,
            UiType::MorphingSprite => 1i32,
            UiType::Table => 2i32,
            UiType::Mesh => 3i32,
            UiType::Composite => 4i32,
            UiType::ChangingStateComposite => 5i32,
            UiType::Text => 6i32,
            UiType::MenuEntry => 7i32,
            UiType::List => 8i32,
            UiType::Viewport => 9i32,
            UiType::FrontendScreen => 10i32,
            UiType::FrontendButton => 11i32,
            UiType::FrontendList => 12i32,
            UiType::ScrollingViewport => 13i32,
            UiType::ListArrow => 14i32,
            UiType::Slider => 15i32,
            UiType::TextSlider => 16i32,
            UiType::Movie => 17i32,
            UiType::SwappingStateComposite => 18i32,
            UiType::ScrollingComposite => 19i32,
            UiType::TextContainer => 20i32,
            UiType::ZoomingComposite => 21i32,
            UiType::ComponentContainer => 22i32,
            UiType::SpellContainer => 23i32,
            UiType::SpellContainerList => 24i32,
            UiType::YesNo => 25i32,
            UiType::OkDialog => 26i32,
            UiType::ParticleEffect => 27i32,
            UiType::ControllerDisconnect => 28i32,
            UiType::DirtyDisc => 29i32,
            UiType::IconText => 30i32,
            UiType::DynamicList => 31i32,
            UiType::MousePointer => 32i32,
            UiType::Hoverable => 33i32,
            UiType::Clickable => 34i32,
            UiType::Draggable => 35i32,
            UiType::DraggableInto => 36i32,
            UiType::EditBox => 37i32,
            UiType::NavigationButton => 38i32,
            UiType::KeyRedefiner => 39i32,
            UiType::RedefinerList => 40i32,
            UiType::Scrollbar => 41i32,
            UiType::ScrollbarOutside => 42i32,
            UiType::ScrollableList => 43i32,
        }
    }

    open spec fn lookup(value: i32) -> Option<Self> {
        match value {
            0i32 => Some(UiType::Sprite),
            1i32 => Some(UiType::MorphingSprite),
            2i32 => Some(UiType::Table),
            3i32 => Some(UiType::Mesh),
            4i32 => Some(UiType::Composite),
            5i32 => Some(UiType::ChangingStateComposite),
            6i32 => Some(UiType::Text),
            7i32 => Some(UiType::MenuEntry),
            8i32 => Some(UiType::List),
            9i32 => Some(UiType::Viewport),
            10i32 => Some(UiType::FrontendScreen),
            11i32 => Some(UiType::FrontendButton),
            12i32 => Some(UiType::FrontendList),
            13i32 => Some(UiType::ScrollingViewport),
            14i32 => Some(UiType::ListArrow),
            15i32 => Some(UiType::Slider),
            16i32 => Some(UiType::TextSlider),
            17i32 => Some(UiType::Movie),
            18i32 => Some(UiType::SwappingStateComposite),
            19i32 => Some(UiType::ScrollingComposite),
            20i32 => Some(UiType::TextContainer),
            21i32 => Some(UiType::ZoomingComposite),
            22i32 => Some(UiType::ComponentContainer),
            23i32 => Some(UiType::SpellContainer),
            24i32 => Some(UiType::SpellContainerList),
            25i32 => Some(UiType::YesNo),
            26i32 => Some(UiType::OkDialog),
            27i32 => Some(UiType::ParticleEffect),
            28i32 => Some(UiType::ControllerDisconnect),
            29i32 => Some(UiType::DirtyDisc),
            30i32 => Some(UiType::IconText),
            31i32 => Some(UiType::DynamicList),
            32i32 => Some(UiType::MousePointer),
            33i32 => Some(UiType::Hoverable),
            34i32 => Some(UiType::Clickable),
            35i32 => Some(UiType::Draggable),
            36i32 => Some(UiType::DraggableInto),
            37i32 => Some(UiType::EditBox),
            38i32 => Some(UiType::NavigationButton),
            39i32 => Some(UiType::KeyRedefiner),
            40i32 => Some(UiType::RedefinerList),
            41i32 => Some(UiType::Scrollbar),
            42i32 => Some(UiType::ScrollbarOutside),
            43i32 => Some(UiType::ScrollableList),
            _ => None,
        }
    }

    fn from_i32(value: i32) -> (r: Option<Self>) {
        match value {
            0i32 => Some(UiType::Sprite),
            1i32 => Some(UiType::MorphingSprite),
            2i32 => Some(UiType::Table),
            3i32 => Some(UiType::Mesh),
            4i32 => Some(UiType::Composite),
            5i32 => Some(UiType::ChangingStateComposite),
            6i32 => Some(UiType::Text),
            7i32 => Some(UiType::MenuEntry),
            8i32 => Some(UiType::List),
            9i32 => Some(UiType::Viewport),
            10i32 => Some(UiType::FrontendScreen),
            11i32 => Some(UiType::FrontendButton),
            12i32 => Some(UiType::FrontendList),
            13i32 => Some(UiType::ScrollingViewport),
            14i32 => Some(UiType::ListArrow),
            15i32 => Some(UiType::Slider),
            16i32 => Some(UiType::TextSlider),
            17i32 => Some(UiType::Movie),
            18i32 => Some(UiType::SwappingStateComposite),
            19i32 => Some(UiType::ScrollingComposite),
            20i32 => Some(UiType::TextContainer),
            21i32 => Some(UiType::ZoomingComposite),
            22i32 => Some(UiType::ComponentContainer),
            23i32 => Some(UiType::SpellContainer),
            24i32 => Some(UiType::SpellContainerList),
            25i32 => Some(UiType::YesNo),
            26i32 => Some(UiType::OkDialog),
            27i32 => Some(UiType::ParticleEffect),
            28i32 => Some(UiType::ControllerDisconnect),
            29i32 => Some(UiType::DirtyDisc),
            30i32 => Some(UiType::IconText),
            31i32 => Some(UiType::DynamicList),
            32i32 => Some(UiType::MousePointer),
            33i32 => Some(UiType::Hoverable),
            34i32 => Some(UiType::Clickable),
            35i32 => Some(UiType::Draggable),
            36i32 => Some(UiType::DraggableInto),
            37i32 => Some(UiType::EditBox),
            38i32 => Some(UiType::NavigationButton),
            39i32 => Some(UiType::KeyRedefiner),
            40i32 => Some(UiType::RedefinerList),
            41i32 => Some(UiType::Scrollbar),
            42i32 => Some(UiType::ScrollbarOutside),
            43i32 => Some(UiType::ScrollableList),
            _ => None,
        }
    }

    fn to_i32(self) -> (r: i32) {
        match self {
            UiType::Sprite => 0i32,
            UiType::MorphingSprite => 1i32,
            UiType::Table => 2i32,
            UiType::Mesh => 3i32,
            UiType::Composite => 4i32,
            UiType::ChangingStateComposite => 5i32,
            UiType::Text => 6i32,
            UiType::MenuEntry => 7i32,
            UiType::List => 8i32,
            UiType::Viewport => 9i32,
            UiType::FrontendScreen => 10i32,
            UiType::FrontendButton => 11i32,
            UiType::FrontendList => 12i32,
            UiType::ScrollingViewport => 13i32,
            UiType::ListArrow => 14i32,
            UiType::Slider => 15i32,
            UiType::TextSlider => 16i32,
            UiType::Movie => 17i32,
            UiType::SwappingStateComposite => 18i32,
            UiType::ScrollingComposite => 19i32,
            UiType::TextContainer => 20i32,
            UiType::ZoomingComposite => 21i32,
            UiType::ComponentContainer => 22i32,
            UiType::SpellContainer => 23i32,
            UiType::SpellContainerList => 24i32,
            UiType::YesNo => 25i32,
            UiType::OkDialog => 26i32,
            UiType::ParticleEffect => 27i32,
            UiType::ControllerDisconnect => 28i32,
            UiType::DirtyDisc => 29i32,
            UiType::IconText => 30i32,
            UiType::DynamicList => 31i32,
            UiType::MousePointer => 32i32,
            UiType::Hoverable => 33i32,
            UiType::Clickable => 34i32,
            UiType::Draggable => 35i32,
            UiType::DraggableInto => 36i32,
            UiType::EditBox => 37i32,
            UiType::NavigationButton => 38i32,
            UiType::KeyRedefiner => 39i32,
            UiType::RedefinerList => 40i32,
            UiType::Scrollbar => 41i32,
            UiType::ScrollbarOutside => 42i32,
            UiType::ScrollableList => 43i32,
        }
    }

    proof fn lemma_lookup_wire_value(e: Self) {
    }
}

impl UiType {
    /// The C++ enumerator symbol of `self`.
    pub open spec fn symbol_of(self) -> Seq<char> {
        match self {
            UiType::Sprite => "UI_TYPE_SPRITE"@,
            UiType::MorphingSprite => "UI_TYPE_MORPHING_SPRITE"@,
            UiType::Table => "UI_TYPE_TABLE"@,
            UiType::Mesh => "UI_TYPE_MESH"@,
            UiType::Composite => "UI_TYPE_COMPOSITE"@,
            UiType::ChangingStateComposite => "UI_TYPE_CHANGING_STATE_COMPOSITE"@,
            UiType::Text => "UI_TYPE_TEXT"@,
            UiType::MenuEntry => "UI_TYPE_MENU_ENTRY"@,
            UiType::List => "UI_TYPE_LIST"@,
            UiType::Viewport => "UI_TYPE_VIEWPORT"@,
            UiType::FrontendScreen => "UI_TYPE_FRONTEND_SCREEN"@,
            UiType::FrontendButton => "UI_TYPE_FRONTEND_BUTTON"@,
            UiType::FrontendList => "UI_TYPE_FRONTEND_LIST"@,
            UiType::ScrollingViewport => "UI_TYPE_SCROLLING_VIEWPORT"@,
            UiType::ListArrow => "UI_TYPE_LIST_ARROW"@,
            UiType::Slider => "UI_TYPE_SLIDER"@,
            UiType::TextSlider => "UI_TYPE_TEXT_SLIDER"@,
            UiType::Movie => "UI_TYPE_MOVIE"@,
            UiType::SwappingStateComposite => "UI_TYPE_SWAPPING_STATE_COMPOSITE"@,
            UiType::ScrollingComposite => "UI_TYPE_SCROLLING_COMPOSITE"@,
            UiType::TextContainer => "UI_TYPE_TEXT_CONTAINER"@,
            UiType::ZoomingComposite => "UI_TYPE_ZOOMING_COMPOSITE"@,
            UiType::ComponentContainer => "UI_TYPE_COMPONENT_CONTAINER"@,
            UiType::SpellContainer => "UI_TYPE_SPELL_CONTAINER"@,
            UiType::SpellContainerList => "UI_TYPE_SPELL_CONTAINER_LIST"@,
            UiType::YesNo => "UI_TYPE_YESNO"@,
            UiType::OkDialog => "UI_TYPE_OK"@,
            UiType::ParticleEffect => "UI_TYPE_PARTICLE_EFFECT"@,
            UiType::ControllerDisconnect => "UI_TYPE_CONTROLLERDISCONNECT"@,
            UiType::DirtyDisc => "UI_TYPE_DIRTYDISC"@,
            UiType::IconText => "UI_TYPE_ICON_TEXT"@,
            UiType::DynamicList => "UI_TYPE_DYNAMIC_LIST"@,
            UiType::MousePointer => "UI_TYPE_MOUSE_POINTER"@,
            UiType::Hoverable => "UI_TYPE_HOVERABLE"@,
            UiType::Clickable => "UI_TYPE_CLICKABLE"@,
            UiType::Draggable => "UI_TYPE_DRAGGABLE"@,
            UiType::DraggableInto => "UI_TYPE_DRAGGABLE_INTO"@,
            UiType::EditBox => "UI_TYPE_EDIT_BOX"@,
            UiType::NavigationButton => "UI_TYPE_NAVIGATION_BUTTON"@,
            UiType::KeyRedefiner => "UI_TYPE_KEY_REDEFINER"@,
            UiType::RedefinerList => "UI_TYPE_REDEFINER_LIST"@,
            UiType::Scrollbar => "UI_TYPE_SCROLLBAR"@,
            UiType::ScrollbarOutside => "UI_TYPE_SCROLLBAR_OUTSIDE"@,
            UiType::ScrollableList => "UI_TYPE_SCROLLABLE_LIST"@,
        }
    }

    /// The first variant whose symbol is `s`, if any.
    pub open spec fn symbol_lookup(s: Seq<char>) -> Option<Self> {
        if s == "UI_TYPE_SPRITE"@ {
            Some(UiType::Sprite)
        } else if s == "UI_TYPE_MORPHING_SPRITE"@ {
            Some(UiType::MorphingSprite)
        } else if s == "UI_TYPE_TABLE"@ {
            Some(UiType::Table)
        } else if s == "UI_TYPE_MESH"@ {
            Some(UiType::Mesh)
        } else if s == "UI_TYPE_COMPOSITE"@ {
            Some(UiType::Composite)
        } else if s == "UI_TYPE_CHANGING_STATE_COMPOSITE"@ {
            Some(UiType::ChangingStateComposite)
        } else if s == "UI_TYPE_TEXT"@ {
            Some(UiType::Text)
        } else if s == "UI_TYPE_MENU_ENTRY"@ {
            Some(UiType::MenuEntry)
        } else if s == "UI_TYPE_LIST"@ {
            Some(UiType::List)
        } else if s == "UI_TYPE_VIEWPORT"@ {
            Some(UiType::Viewport)
        } else if s == "UI_TYPE_FRONTEND_SCREEN"@ {
            Some(UiType::FrontendScreen)
        } else if s == "UI_TYPE_FRONTEND_BUTTON"@ {
            Some(UiType::FrontendButton)
        } else if s == "UI_TYPE_FRONTEND_LIST"@ {
            Some(UiType::FrontendList)
        } else if s == "UI_TYPE_SCROLLING_VIEWPORT"@ {
            Some(UiType::ScrollingViewport)
        } else if s == "UI_TYPE_LIST_ARROW"@ {
            Some(UiType::ListArrow)
        } else if s == "UI_TYPE_SLIDER"@ {
            Some(UiType::Slider)
        } else if s == "UI_TYPE_TEXT_SLIDER"@ {
            Some(UiType::TextSlider)
        } else if s == "UI_TYPE_MOVIE"@ {
            Some(UiType::Movie)
        } else if s == "UI_TYPE_SWAPPING_STATE_COMPOSITE"@ {
            Some(UiType::SwappingStateComposite)
        } else if s == "UI_TYPE_SCROLLING_COMPOSITE"@ {
            Some(UiType::ScrollingComposite)
        } else if s == "UI_TYPE_TEXT_CONTAINER"@ {
            Some(UiType::TextContainer)
        } else if s == "UI_TYPE_ZOOMING_COMPOSITE"@ {
            Some(UiType::ZoomingComposite)
        } else if s == "UI_TYPE_COMPONENT_CONTAINER"@ {
            Some(UiType::ComponentContainer)
        } else if s == "UI_TYPE_SPELL_CONTAINER"@ {
            Some(UiType::SpellContainer)
        } else if s == "UI_TYPE_SPELL_CONTAINER_LIST"@ {
            Some(UiType::SpellContainerList)
        } else if s == "UI_TYPE_YESNO"@ {
            Some(UiType::YesNo)
        } else if s == "UI_TYPE_OK"@ {
            Some(UiType::OkDialog)
        } else if s == "UI_TYPE_PARTICLE_EFFECT"@ {
            Some(UiType::ParticleEffect)
        } else if s == "UI_TYPE_CONTROLLERDISCONNECT"@ {
            Some(UiType::ControllerDisconnect)
        } else if s == "UI_TYPE_DIRTYDISC"@ {
            Some(UiType::DirtyDisc)
        } else if s == "UI_TYPE_ICON_TEXT"@ {
            Some(UiType::IconText)
        } else if s == "UI_TYPE_DYNAMIC_LIST"@ {
            Some(UiType::DynamicList)
        } else if s == "UI_TYPE_MOUSE_POINTER"@ {
            Some(UiType::MousePointer)
        } else if s == "UI_TYPE_HOVERABLE"@ {
            Some(UiType::Hoverable)
        } else if s == "UI_TYPE_CLICKABLE"@ {
            Some(UiType::Clickable)
        } else if s == "UI_TYPE_DRAGGABLE"@ {
            Some(UiType::Draggable)
        } else if s == "UI_TYPE_DRAGGABLE_INTO"@ {
            Some(UiType::DraggableInto)
        } else if s == "UI_TYPE_EDIT_BOX"@ {
            Some(UiType::EditBox)
        } else if s == "UI_TYPE_NAVIGATION_BUTTON"@ {
            Some(UiType::NavigationButton)
        } else if s == "UI_TYPE_KEY_REDEFINER"@ {
            Some(UiType::KeyRedefiner)
        } else if s == "UI_TYPE_REDEFINER_LIST"@ {
            Some(UiType::RedefinerList)
        } else if s == "UI_TYPE_SCROLLBAR"@ {
            Some(UiType::Scrollbar)
        } else if s == "UI_TYPE_SCROLLBAR_OUTSIDE"@ {
            Some(UiType::ScrollbarOutside)
        } else if s == "UI_TYPE_SCROLLABLE_LIST"@ {
            Some(UiType::ScrollableList)
        } else {
            None
        }
    }

    /// The C++ enumerator symbol text defs use for `self`.
    pub fn symbol(self) -> (r: &'static str)
        ensures
            r@ == self.symbol_of(),
    {
        match self {
            UiType::Sprite => "UI_TYPE_SPRITE",
            UiType::MorphingSprite => "UI_TYPE_MORPHING_SPRITE",
            UiType::Table => "UI_TYPE_TABLE",
            UiType::Mesh => "UI_TYPE_MESH",
            UiType::Composite => "UI_TYPE_COMPOSITE",
            UiType::ChangingStateComposite => "UI_TYPE_CHANGING_STATE_COMPOSITE",
            UiType::Text => "UI_TYPE_TEXT",
            UiType::MenuEntry => "UI_TYPE_MENU_ENTRY",
            UiType::List => "UI_TYPE_LIST",
            UiType::Viewport => "UI_TYPE_VIEWPORT",
            UiType::FrontendScreen => "UI_TYPE_FRONTEND_SCREEN",
            UiType::FrontendButton => "UI_TYPE_FRONTEND_BUTTON",
            UiType::FrontendList => "UI_TYPE_FRONTEND_LIST",
            UiType::ScrollingViewport => "UI_TYPE_SCROLLING_VIEWPORT",
            UiType::ListArrow => "UI_TYPE_LIST_ARROW",
            UiType::Slider => "UI_TYPE_SLIDER",
            UiType::TextSlider => "UI_TYPE_TEXT_SLIDER",
            UiType::Movie => "UI_TYPE_MOVIE",
            UiType::SwappingStateComposite => "UI_TYPE_SWAPPING_STATE_COMPOSITE",
            UiType::ScrollingComposite => "UI_TYPE_SCROLLING_COMPOSITE",
            UiType::TextContainer => "UI_TYPE_TEXT_CONTAINER",
            UiType::ZoomingComposite => "UI_TYPE_ZOOMING_COMPOSITE",
            UiType::ComponentContainer => "UI_TYPE_COMPONENT_CONTAINER",
            UiType::SpellContainer => "UI_TYPE_SPELL_CONTAINER",
            UiType::SpellContainerList => "UI_TYPE_SPELL_CONTAINER_LIST",
            UiType::YesNo => "UI_TYPE_YESNO",
            UiType::OkDialog => "UI_TYPE_OK",
            UiType::ParticleEffect => "UI_TYPE_PARTICLE_EFFECT",
            UiType::ControllerDisconnect => "UI_TYPE_CONTROLLERDISCONNECT",
            UiType::DirtyDisc => "UI_TYPE_DIRTYDISC",
            UiType::IconText => "UI_TYPE_ICON_TEXT",
            UiType::DynamicList => "UI_TYPE_DYNAMIC_LIST",
            UiType::MousePointer => "UI_TYPE_MOUSE_POINTER",
            UiType::Hoverable => "UI_TYPE_HOVERABLE",
            UiType::Clickable => "UI_TYPE_CLICKABLE",
            UiType::Draggable => "UI_TYPE_DRAGGABLE",
            UiType::DraggableInto => "UI_TYPE_DRAGGABLE_INTO",
            UiType::EditBox => "UI_TYPE_EDIT_BOX",
            UiType::NavigationButton => "UI_TYPE_NAVIGATION_BUTTON",
            UiType::KeyRedefiner => "UI_TYPE_KEY_REDEFINER",
            UiType::RedefinerList => "UI_TYPE_REDEFINER_LIST",
            UiType::Scrollbar => "UI_TYPE_SCROLLBAR",
            UiType::ScrollbarOutside => "UI_TYPE_SCROLLBAR_OUTSIDE",
            UiType::ScrollableList => "UI_TYPE_SCROLLABLE_LIST",
        }
    }

    /// The variant a C++ enumerator symbol names.
    pub fn from_symbol(s: &str) -> (r: Option<Self>)
        ensures
            r == Self::symbol_lookup(s@),
    {
        if str_eq(s, "UI_TYPE_SPRITE") {
            return Some(UiType::Sprite);
        }
        if str_eq(s, "UI_TYPE_MORPHING_SPRITE") {
            return Some(UiType::MorphingSprite);
        }
        if str_eq(s, "UI_TYPE_TABLE") {
            return Some(UiType::Table);
        }
        if str_eq(s, "UI_TYPE_MESH") {
            return Some(UiType::Mesh);
        }
        if str_eq(s, "UI_TYPE_COMPOSITE") {
            return Some(UiType::Composite);
        }
        if str_eq(s, "UI_TYPE_CHANGING_STATE_COMPOSITE") {
            return Some(UiType::ChangingStateComposite);
        }
        if str_eq(s, "UI_TYPE_TEXT") {
            return Some(UiType::Text);
        }
        if str_eq(s, "UI_TYPE_MENU_ENTRY") {
            return Some(UiType::MenuEntry);
        }
        if str_eq(s, "UI_TYPE_LIST") {
            return Some(UiType::List);
        }
        if str_eq(s, "UI_TYPE_VIEWPORT") {
            return Some(UiType::Viewport);
        }
        if str_eq(s, "UI_TYPE_FRONTEND_SCREEN") {
            return Some(UiType::FrontendScreen);
        }
        if str_eq(s, "UI_TYPE_FRONTEND_BUTTON") {
            return Some(UiType::FrontendButton);
        }
        if str_eq(s, "UI_TYPE_FRONTEND_LIST") {
            return Some(UiType::FrontendList);
        }
        if str_eq(s, "UI_TYPE_SCROLLING_VIEWPORT") {
            return Some(UiType::ScrollingViewport);
        }
        if str_eq(s, "UI_TYPE_LIST_ARROW") {
            return Some(UiType::ListArrow);
        }
        if str_eq(s, "UI_TYPE_SLIDER") {
            return Some(UiType::Slider);
        }
        if str_eq(s, "UI_TYPE_TEXT_SLIDER") {
            return Some(UiType::TextSlider);
        }
        if str_eq(s, "UI_TYPE_MOVIE") {
            return Some(UiType::Movie);
        }
        if str_eq(s, "UI_TYPE_SWAPPING_STATE_COMPOSITE") {
            return Some(UiType::SwappingStateComposite);
        }
        if str_eq(s, "UI_TYPE_SCROLLING_COMPOSITE") {
            return Some(UiType::ScrollingComposite);
        }
        if str_eq(s, "UI_TYPE_TEXT_CONTAINER") {
            return Some(UiType::TextContainer);
        }
        if str_eq(s, "UI_TYPE_ZOOMING_COMPOSITE") {
            return Some(UiType::ZoomingComposite);
        }
        if str_eq(s, "UI_TYPE_COMPONENT_CONTAINER") {
            return Some(UiType::ComponentContainer);
        }
        if str_eq(s, "UI_TYPE_SPELL_CONTAINER") {
            return Some(UiType::SpellContainer);
        }
        if str_eq(s, "UI_TYPE_SPELL_CONTAINER_LIST") {
            return Some(UiType::SpellContainerList);
        }
        if str_eq(s, "UI_TYPE_YESNO") {
            return Some(UiType::YesNo);
        }
        if str_eq(s, "UI_TYPE_OK") {
            return Some(UiType::OkDialog);
        }
        if str_eq(s, "UI_TYPE_PARTICLE_EFFECT") {
            return Some(UiType::ParticleEffect);
        }
        if str_eq(s, "UI_TYPE_CONTROLLERDISCONNECT") {
            return Some(UiType::ControllerDisconnect);
        }
        if str_eq(s, "UI_TYPE_DIRTYDISC") {
            return Some(UiType::DirtyDisc);
        }
        if str_eq(s, "UI_TYPE_ICON_TEXT") {
            return Some(UiType::IconText);
        }
        if str_eq(s, "UI_TYPE_DYNAMIC_LIST") {
            return Some(UiType::DynamicList);
        }
        if str_eq(s, "UI_TYPE_MOUSE_POINTER") {
            return Some(UiType::MousePointer);
        }
        if str_eq(s, "UI_TYPE_HOVERABLE") {
            return Some(UiType::Hoverable);
        }
        if str_eq(s, "UI_TYPE_CLICKABLE") {
            return Some(UiType::Clickable);
        }
        if str_eq(s, "UI_TYPE_DRAGGABLE") {
            return Some(UiType::Draggable);
        }
        if str_eq(s, "UI_TYPE_DRAGGABLE_INTO") {
            return Some(UiType::DraggableInto);
        }
        if str_eq(s, "UI_TYPE_EDIT_BOX") {
            return Some(UiType::EditBox);
        }
        if str_eq(s, "UI_TYPE_NAVIGATION_BUTTON") {
            return Some(UiType::NavigationButton);
        }
        if str_eq(s, "UI_TYPE_KEY_REDEFINER") {
            return Some(UiType::KeyRedefiner);
        }
        if str_eq(s, "UI_TYPE_REDEFINER_LIST") {
            return Some(UiType::RedefinerList);
        }
        if str_eq(s, "UI_TYPE_SCROLLBAR") {
            return Some(UiType::Scrollbar);
        }
        if str_eq(s, "UI_TYPE_SCROLLBAR_OUTSIDE") {
            return Some(UiType::ScrollbarOutside);
        }
        if str_eq(s, "UI_TYPE_SCROLLABLE_LIST") {
            return Some(UiType::ScrollableList);
        }
        None
    }
}

/// Table growth direction. Declared as an enum in C++ but OR-combined in real data (game.bin has `3`).
#[derive(Debug, Clone, Copy, PartialEq, Eq, Structural, PartialOrd, Ord, Hash, Default)]
pub struct TableExpansion(pub i32);

impl TableExpansion {
    /// The bits of `TABLE_EXPANSION_HORIZONTAL`.
    pub const HORIZONTAL: i32 = 1i32;
    /// The bits of `TABLE_EXPANSION_VERTICAL`.
    pub const VERTICAL: i32 = 2i32;

    /// The flag a C++ enumerator symbol names, if any.
    pub open spec fn symbol_lookup(s: Seq<char>) -> Option<Self> {
        if s == "TABLE_EXPANSION_HORIZONTAL"@ {
            Some(TableExpansion(1i32))
        } else if s == "TABLE_EXPANSION_VERTICAL"@ {
            Some(TableExpansion(2i32))
        } else {
            None
        }
    }

    /// The set holding exactly the bits of `value` (lossless).
    pub fn from_i32(value: i32) -> (r: Self)
        ensures
            r.0 == value,
    {
        TableExpansion(value)
    }

    pub fn to_i32(self) -> (r: i32)
        ensures
            r == self.0,
    {
        self.0
    }

    /// Whether every bit of `other` is set in `self`.
    pub fn contains(self, other: Self) -> (r: bool)
        ensures
            r == (self.0 & other.0 == other.0),
    {
        self.0 & other.0 == other.0
    }

    /// Whether no bit is set.
    pub fn is_empty(self) -> (r: bool)
        ensures
            r == (self.0 == 0),
    {
        self.0 == 0
    }

    /// The bits set in either.
    pub fn union(self, other: Self) -> (r: Self)
        ensures
            r.0 == self.0 | other.0,
    {
        TableExpansion(self.0 | other.0)
    }

    /// The flag a C++ enumerator symbol names.
    pub fn from_symbol(s: &str) -> (r: Option<Self>)
        ensures
            r == Self::symbol_lookup(s@),
    {
        if str_eq(s, "TABLE_EXPANSION_HORIZONTAL") {
            return Some(TableExpansion(1i32));
        }
        if str_eq(s, "TABLE_EXPANSION_VERTICAL") {
            return Some(TableExpansion(2i32));
        }
        None
    }
}

impl core::ops::BitOr for TableExpansion {
    type Output = TableExpansion;

    fn bitor(self, rhs: TableExpansion) -> (r: TableExpansion) {
        TableExpansion(self.0 | rhs.0)
    }
}

impl vstd::std_specs::ops::BitOrSpecImpl for TableExpansion {
    open spec fn obeys_bitor_spec() -> bool {
        true
    }

    open spec fn bitor_req(self, rhs: TableExpansion) -> bool {
        true
    }

    open spec fn bitor_spec(self, rhs: TableExpansion) -> TableExpansion {
        TableExpansion(self.0 | rhs.0)
    }
}

/// Text alignment.
#[derive(Debug, Clone, Copy, PartialEq, Eq, Structural, PartialOrd, Ord, Hash)]
pub enum TextAlignment {
    Left,
    Center,
    Right,
}

impl DefEnum for TextAlignment {
    open spec fn wire_value(self) -> i32 {
        match self {
            TextAlignment::Left => 0i32,
            TextAlignment::Center => 1i32,
            TextAlignment::Right => 2i32,
        }
    }

    open spec fn lookup(value: i32) -> Option<Self> {
        match value {
            0i32 => Some(TextAlignment::Left),
            1i32 => Some(TextAlignment::Center),
            2i32 => Some(TextAlignment::Right),
            _ => None,
        }
    }

    fn from_i32(value: i32) -> (r: Option<Self>) {
        match value {
            0i32 => Some(TextAlignment::Left),
            1i32 => Some(TextAlignment::Center),
            2i32 => Some(TextAlignment::Right),
            _ => None,
        }
    }

    fn to_i32(self) -> (r: i32) {
        match self {
            TextAlignment::Left => 0i32,
            TextAlignment::Center => 1i32,
            TextAlignment::Right => 2i32,
        }
    }

    proof fn lemma_lookup_wire_value(e: Self) {
    }
}

impl TextAlignment {
    /// The C++ enumerator symbol of `self`.
    pub open spec fn symbol_of(self) -> Seq<char> {
        match self {
            TextAlignment::Left => "LEFT"@,
            TextAlignment::Center => "CENTER"@,
            TextAlignment::Right => "RIGHT"@,
        }
    }

    /// The first variant whose symbol is `s`, if any.
    pub open spec fn symbol_lookup(s: Seq<char>) -> Option<Self> {
        if s == "LEFT"@ {
            Some(TextAlignment::Left)
        } else if s == "CENTER"@ {
            Some(TextAlignment::Center)
        } else if s == "RIGHT"@ {
            Some(TextAlignment::Right)
        } else {
            None
        }
    }

    /// The C++ enumerator symbol text defs use for `self`.
    pub fn symbol(self) -> (r: &'static str)
        ensures
            r@ == self.symbol_of(),
    {
        match self {
            TextAlignment::Left => "LEFT",
            TextAlignment::Center => "CENTER",
            TextAlignment::Right => "RIGHT",
        }
    }

    /// The variant a C++ enumerator symbol names.
    pub fn from_symbol(s: &str) -> (r: Option<Self>)
        ensures
            r == Self::symbol_lookup(s@),
    {
        if str_eq(s, "LEFT") {
            return Some(TextAlignment::Left);
        }
        if str_eq(s, "CENTER") {
            return Some(TextAlignment::Center);
        }
        if str_eq(s, "RIGHT") {
            return Some(TextAlignment::Right);
        }
        None
    }
}

/// Order in which a UI state change propagates.
#[derive(Debug, Clone, Copy, PartialEq, Eq, Structural, PartialOrd, Ord, Hash)]
pub enum StateChangeType {
    Simultaneous,
    ParentFirst,
    ChildrenFirst,
    ParentOnly,
    ChildrenOnly,
}

impl DefEnum for StateChangeType {
    open spec fn wire_value(self) -> i32 {
        match self {
            StateChangeType::Simultaneous => 0i32,
            StateChangeType::ParentFirst => 1i32,
            StateChangeType::ChildrenFirst => 2i32,
            StateChangeType::ParentOnly => 3i32,
            StateChangeType::ChildrenOnly => 4i32,
        }
    }

    open spec fn lookup(value: i32) -> Option<Self> {
        match value {
            0i32 => Some(StateChangeType::Simultaneous),
            1i32 => Some(StateChangeType::ParentFirst),
            2i32 => Some(StateChangeType::ChildrenFirst),
            3i32 => Some(StateChangeType::ParentOnly),
            4i32 => Some(StateChangeType::ChildrenOnly),
            _ => None,
        }
    }

    fn from_i32(value: i32) -> (r: Option<Self>) {
        match value {
            0i32 => Some(StateChangeType::Simultaneous),
            1i32 => Some(StateChangeType::ParentFirst),
            2i32 => Some(StateChangeType::ChildrenFirst),
            3i32 => Some(StateChangeType::ParentOnly),
            4i32 => Some(StateChangeType::ChildrenOnly),
            _ => None,
        }
    }

    fn to_i32(self) -> (r: i32) {
        match self {
            StateChangeType::Simultaneous => 0i32,
            StateChangeType::ParentFirst => 1i32,
            StateChangeType::ChildrenFirst => 2i32,
            StateChangeType::ParentOnly => 3i32,
            StateChangeType::ChildrenOnly => 4i32,
        }
    }

    proof fn lemma_lookup_wire_value(e: Self) {
    }
}

impl StateChangeType {
    /// The C++ enumerator symbol of `self`.
    pub open spec fn symbol_of(self) -> Seq<char> {
        match self {
            StateChangeType::Simultaneous => "STATE_CHANGE_SIMULTANEOUS"@,
            StateChangeType::ParentFirst => "STATE_CHANGE_PARENT_FIRST"@,
            StateChangeType::ChildrenFirst => "STATE_CHANGE_CHILDREN_FIRST"@,
            StateChangeType::ParentOnly => "STATE_CHANGE_PARENT_ONLY"@,
            StateChangeType::ChildrenOnly => "STATE_CHANGE_CHILDREN_ONLY"@,
        }
    }

    /// The first variant whose symbol is `s`, if any.
    pub open spec fn symbol_lookup(s: Seq<char>) -> Option<Self> {
        if s == "STATE_CHANGE_SIMULTANEOUS"@ {
            Some(StateChangeType::Simultaneous)
        } else if s == "STATE_CHANGE_PARENT_FIRST"@ {
            Some(StateChangeType::ParentFirst)
        } else if s == "STATE_CHANGE_CHILDREN_FIRST"@ {
            Some(StateChangeType::ChildrenFirst)
        } else if s == "STATE_CHANGE_PARENT_ONLY"@ {
            Some(StateChangeType::ParentOnly)
        } else if s == "STATE_CHANGE_CHILDREN_ONLY"@ {
            Some(StateChangeType::ChildrenOnly)
        } else {
            None
        }
    }

    /// The C++ enumerator symbol text defs use for `self`.
    pub fn symbol(self) -> (r: &'static str)
        ensures
            r@ == self.symbol_of(),
    {
        match self {
            StateChangeType::Simultaneous => "STATE_CHANGE_SIMULTANEOUS",
            StateChangeType::ParentFirst => "STATE_CHANGE_PARENT_FIRST",
            StateChangeType::ChildrenFirst => "STATE_CHANGE_CHILDREN_FIRST",
            StateChangeType::ParentOnly => "STATE_CHANGE_PARENT_ONLY",
            StateChangeType::ChildrenOnly => "STATE_CHANGE_CHILDREN_ONLY",
        }
    }

    /// The variant a C++ enumerator symbol names.
    pub fn from_symbol(s: &str) -> (r: Option<Self>)
        ensures
            r == Self::symbol_lookup(s@),
    {
        if str_eq(s, "STATE_CHANGE_SIMULTANEOUS") {
            return Some(StateChangeType::Simultaneous);
        }
        if str_eq(s, "STATE_CHANGE_PARENT_FIRST") {
            return Some(StateChangeType::ParentFirst);
        }
        if str_eq(s, "STATE_CHANGE_CHILDREN_FIRST") {
            return Some(StateChangeType::ChildrenFirst);
        }
        if str_eq(s, "STATE_CHANGE_PARENT_ONLY") {
            return Some(StateChangeType::ParentOnly);
        }
        if str_eq(s, "STATE_CHANGE_CHILDREN_ONLY") {
            return Some(StateChangeType::ChildrenOnly);
        }
        None
    }
}

/// UI action fired by buttons and menu entries.
#[derive(Debug, Clone, Copy, PartialEq, Eq, Structural, PartialOrd, Ord, Hash)]
pub enum ActionType {
    TypeNone,
    TypeWield,
    TypeAugment,
    TypeChangestate,
    TypeTakeBoast,
    TypeTeleport,
    TypeTakeQuest,
    TypeBuyStat,
    TypeBuyAbility,
    TypeNextScreenOptions,
    TypeNextScreenLiveAware,
    TypeNextScreenExtras,
    TypeNextScreenAudioOptions,
    TypeNextScreenVideoOptions,
    TypeNextScreenCameraOptions,
    TypeNewGame,
    TypeNextScreenProfiles,
    TypeLoadGame,
    TypeLogin,
    TypeFriends,
    TypeAppearOffline,
    TypeDelete,
    TypeAddChild,
    TypeAddChildAugmentation,
    TypeDeleteAll,
    TypeUseItem,
    TypeItemAssignLeft,
    TypeItemAssignRight,
    TypeItemAssignDown,
    TypeItemAssignUp,
    TypeClothingWear,
    TypeUpdateMannequinClothing,
    TypeBuy,
    TypeSell,
    TypeDeletePrevious,
    TypeResetClothingMannequin,
    TypeSetBrightness,
    TypeSetSound,
    TypeSetMusic,
    TypeSetCameraRotation,
    TypeSetCameraUpDown,
    TypeSetVibration,
    TypeSetHeadphones,
    TypeSetSubtitles,
    TypeOpenMap,
    TypeOpenAbilities,
    TypeOpenWeapons,
    TypeOpenStats,
    TypeOpenClothing,
    TypeOpenItems,
    TypeCloseMap,
    TypeCloseAbilities,
    TypeCloseWeapons,
    TypeCloseStats,
    TypeCloseClothing,
    TypeCloseItems,
    TypeCloseMenu,
    TypeGuildSealRecall,
    TypeLoad,
    TypeSave,
    TypeClosePauseMenu,
    TypePlayMovie,
    TypeNextScreenProfilesSavedGames,
    TypeNextScreenCredits,
    TypeConstructWeaponsList,
    TypeConstructClothingList,
    TypeConstructItemsList,
    TypeConstructSkillsList,
    TypeConstructQuestsList,
    TypeConstructMapList,
    TypeConstructStatsList,
    TypeChangeChildState,
    TypeConstructExperienceList,
    TypeConstructPersonalityList,
    TypeSetHud,
    TypeCloseQuickAccessMenu,
    TypeCloseTeleportMenu,
    TypeBuyBulk,
    TypeSellBulk,
    TypeSetTutorials,
    TypeSetShowBuddyNames,
    TypeQuitToFrontEnd,
    TypePreviousScreen,
    TypeAcceptChanges,
    TypeSetDialogue,
    TypeXlive,
    TypeXliveBack,
    TypeLogout,
    TypeDemos,
    TypeSetGuildMaster,
    TypeSetHudTooltips,
    TypeUndoBuyAbility,
    TypeUndoBuyStat,
    TypeGiveExclusiveInput,
    TypeRemoveExclusiveInput,
    TypeSendBackEvent,
    TypeShowSpellSelection,
    TypeSetSpellToAssign,
    TypeTeleportToBoast,
    TypeDropQuest,
    TypeAssignSpell,
    TypeUnassignSpell,
    TypeResetAssignedSpells,
    TypeChangeAlpha,
    TypeChangeNumber,
    TypeDeleteProfile,
    TypeGoToDeleteProfileScreen,
    TypePopMapState,
    TypeNextScreenInvalidProfile,
    TypeNextScreenInvalidSave,
    TypeFreeSpaceOnT,
    TypeFreeSpaceOnU,
    TypeFlashDpadDown,
    TypeFlashDpadUp,
    TypeFlashDpadLeft,
    TypeFlashDpadRight,
    TypeStopDpadFlashing,
    TypeConstructLogbookList,
    TypeGoToMainMenuFromStart,
    TypeSendOwnedEvent,
    TypeSendEvent,
    TypeMoveComponent,
    TypeExitLiveGui,
    TypeOpenPcSkillsMenu,
    TypeConstructExpressionsList,
    TypeScrollActiveListUp,
    TypeScrollActiveListDown,
    TypeOpenPcInventoryMenu,
    TypeOpenPcOptionsMenu,
    TypeConstructPcStyleCardsList,
    TypeOpenPcBuyTradingGoodsList,
    TypeClosePcBuyTradingGoodsList,
    TypeConstructMagicListPc,
    TypeAssignSpellPc,
    TypeObserveEvent,
    TypeSetSpellToAssignPc,
    TypeResetAssignedSpellsPc,
    TypeUnassignSpellPc,
    TypeIgnoreEvent,
    TypeNextScreenProfilesForDelete,
    TypeAssignExpressionItemPc,
    TypeUnassignExpressionItemPc,
    TypeSetExpressionItemToAssignPc,
    TypeOpenPcMapMenu,
    TypeOpenPcStatusMenu,
    TypeOpenPcLogBook,
    TypeConstructPcQuestsList,
    TypeSetResolution,
    TypeSetShadowDetail,
    TypeSetDecals,
    TypeSetWeatherEffects,
    TypeSetVerticalSync,
    TypeSetGlowEffects,
    TypeSetReverseStereo,
    TypeSetAntialiasing,
    TypeSetTextureDetail,
    TypeSetMeshResolution,
    TypeSetWaterReflection,
    TypeSetLandscapeDetail,
    TypeSetParticleDetail,
    TypeAddObserver,
    TypeScrollActiveListUntilChildContaining,
    TypeGoBack,
    TypeCloseActiveMenu,
    TypeRemoveObserver,
    TypeTavernGameBetDown,
    TypeTavernGameBetUp,
    TypeRespawn,
    TypeContinue,
    TypeOpenPcSellTradingGoodsList,
    TypeOpenPcWantedTradingGoodsList,
    TypeConstructPcExperienceList,
    TypeGoToRedefineKeysMenu,
    TypeResetKeys,
    TypeAssignSpellToItemSlotPc,
    TypeConstructStyleCardsList,
    TypeScrollDescriptionDown,
    TypeScrollDescriptionUp,
    TypeConstructPcPersonalityList,
    TypeSendOwnedEventForceObservation,
    TypeGoToMainMenuFromProfileList,
    TypeNewProfile,
    TypeNewProfileReturnPressed,
    TypeNewProfileEscapePressed,
    TypeQuitGame,
    TypeNextScreenOptionsSubMenu,
    TypeSetMeshDetail,
    TypeSetEffectsDetail,
    TypeSetScreenAspectRatio,
    TypeApplyProfileValues,
    TypeCloseActiveTradeMenu,
    TypeScrollActiveListDownMax,
    TypeScrollActiveListUpMax,
    TypeScrollDescriptionDownMax,
    TypeScrollDescriptionUpMax,
    TypeScrollDescriptionDownOnePixel,
    TypeScrollDescriptionUpOnePixel,
    TypeCloseTradeMenuIfLeaf,
    TypeExitLiveGuiIfLeaf,
    TypeResetKeysWasd,
    TypeNextScreenOptionsScoreboard,
    TypeSetControlMethod,
    TypeGotoQuitPrompt,
    TypePcQuitToFrontEnd,
    TypePcAcceptVideoChanges,
    TypeSetRefreshRate,
    TypeSetCameraSensitivity,
    TypeSetBowCamera,
    TypeSetCameraResetting,
    TypeGotoAboutScreen,
    TypeCloseFrame,
    TypeSetShowTargetingStatus,
    TypeRestoreDefaultsGameplay,
    TypeRestoreDefaultsVideo,
    TypeRestoreDefaultsAudio,
    TypeSetExpressionItemToAssignSwappingPc,
    TypeSetSpellToAssignSwappingPc,
    TypeSetSpellToAssignInItemsSwappingPc,
    AddMeshChild,
    LoadWeaponDesc,
    LoadClothingDesc,
    LoadItemDesc,
    LoadWeaponMenuEntryName,
    LoadClothingMenuEntryName,
    LoadItemMenuEntryName,
    LoadSellItemDesc,
    LoadSellActionMenu,
    LoadBuyItemDesc,
    LoadBuyActionMenu,
    LoadWantedItemDesc,
    LoadQuickMenuExpressionsIcon,
    LoadFileDesc,
    LoadFileSavegameMinimap,
    RemoveMeshChild,
    UnloadWeaponDesc,
    UnloadClothingDesc,
    UnloadItemDesc,
    UnloadSellItemDesc,
    UnloadSellActionMenu,
    UnloadBuyItemDesc,
    UnloadBuyActionMenu,
    UnloadWantedItemDesc,
    TypeCheatMorality,
    TypeCheatRenown,
    TypeCloseBoastMenu,
    TypePlaySound,
    TypeTakeQuestForBoast,
    TypeOpenPcMsnChat,
    TypeActivateMsnConversation,
    TypeSendMessage,
    TypeSelectContact,
    TypeScrollViewportUp,
    TypeScrollViewportDown,
    TypeScrollListDown,
    TypeScrollListUp,
    TypeOpenScoreboard,
    TypeChooseClan,
    TypePhotoCaption,
    TypeDiscardPhoto,
    TypeGoToScoreboardScreen,
    TypeActivateEditbox,
    TypeDeactivateEditbox,
    TypeSetEditboxValues,
    TypeScoreboardOk,
    TypeLoadPhoto,
    TypeScrollPhotoDown,
    TypeScrollPhotoUp,
    TypeNextScreenStart,
    TypeOpenPhotojournal,
    TypeOpenPhoto,
    TypeExitPhotojournalCapture,
}

impl DefEnum for ActionType {
    open spec fn wire_value(self) -> i32 {
        match self {
            ActionType::TypeNone => 0i32,
            ActionType::TypeWield => 1i32,
            ActionType::TypeAugment => 2i32,
            ActionType::TypeChangestate => 3i32,
            ActionType::TypeTakeBoast => 4i32,
            ActionType::TypeTeleport => 5i32,
            ActionType::TypeTakeQuest => 6i32,
            ActionType::TypeBuyStat => 7i32,
            ActionType::TypeBuyAbility => 8i32,
            ActionType::TypeNextScreenOptions => 9i32,
            ActionType::TypeNextScreenLiveAware => 10i32,
            ActionType::TypeNextScreenExtras => 11i32,
            ActionType::TypeNextScreenAudioOptions => 12i32,
            ActionType::TypeNextScreenVideoOptions => 13i32,
            ActionType::TypeNextScreenCameraOptions => 14i32,
            ActionType::TypeNewGame => 15i32,
            ActionType::TypeNextScreenProfiles => 16i32,
            ActionType::TypeLoadGame => 17i32,
            ActionType::TypeLogin => 18i32,
            ActionType::TypeFriends => 19i32,
            ActionType::TypeAppearOffline => 20i32,
            ActionType::TypeDelete => 21i32,
            ActionType::TypeAddChild => 22i32,
            ActionType::TypeAddChildAugmentation => 23i32,
            ActionType::TypeDeleteAll => 24i32,
            ActionType::TypeUseItem => 25i32,
            ActionType::TypeItemAssignLeft => 26i32,
            ActionType::TypeItemAssignRight => 27i32,
            ActionType::TypeItemAssignDown => 28i32,
            ActionType::TypeItemAssignUp => 29i32,
            ActionType::TypeClothingWear => 30i32,
            ActionType::TypeUpdateMannequinClothing => 31i32,
            ActionType::TypeBuy => 36i32,
            ActionType::TypeSell => 37i32,
            ActionType::TypeDeletePrevious => 38i32,
            ActionType::TypeResetClothingMannequin => 39i32,
            ActionType::TypeSetBrightness => 40i32,
            ActionType::TypeSetSound => 41i32,
            ActionType::TypeSetMusic => 42i32,
            ActionType::TypeSetCameraRotation => 43i32,
            ActionType::TypeSetCameraUpDown => 44i32,
            ActionType::TypeSetVibration => 45i32,
            ActionType::TypeSetHeadphones => 46i32,
            ActionType::TypeSetSubtitles => 47i32,
            ActionType::TypeOpenMap => 48i32,
            ActionType::TypeOpenAbilities => 49i32,
            ActionType::TypeOpenWeapons => 50i32,
            ActionType::TypeOpenStats => 51i32,
            ActionType::TypeOpenClothing => 52i32,
            ActionType::TypeOpenItems => 53i32,
            ActionType::TypeCloseMap => 54i32,
            ActionType::TypeCloseAbilities => 55i32,
            ActionType::TypeCloseWeapons => 56i32,
            ActionType::TypeCloseStats => 57i32,
            ActionType::TypeCloseClothing => 58i32,
            ActionType::TypeCloseItems => 59i32,
            ActionType::TypeCloseMenu => 60i32,
            ActionType::TypeGuildSealRecall => 61i32,
            ActionType::TypeLoad => 62i32,
            ActionType::TypeSave => 63i32,
            ActionType::TypeClosePauseMenu => 64i32,
            ActionType::TypePlayMovie => 65i32,
            ActionType::TypeNextScreenProfilesSavedGames => 66i32,
            ActionType::TypeNextScreenCredits => 67i32,
            ActionType::TypeConstructWeaponsList => 68i32,
            ActionType::TypeConstructClothingList => 69i32,
            ActionType::TypeConstructItemsList => 70i32,
            ActionType::TypeConstructSkillsList => 71i32,
            ActionType::TypeConstructQuestsList => 72i32,
            ActionType::TypeConstructMapList => 73i32,
            ActionType::TypeConstructStatsList => 74i32,
            ActionType::TypeChangeChildState => 75i32,
            ActionType::TypeConstructExperienceList => 76i32,
            ActionType::TypeConstructPersonalityList => 77i32,
            ActionType::TypeSetHud => 78i32,
            ActionType::TypeCloseQuickAccessMenu => 79i32,
            ActionType::TypeCloseTeleportMenu => 80i32,
            ActionType::TypeBuyBulk => 81i32,
            ActionType::TypeSellBulk => 82i32,
            ActionType::TypeSetTutorials => 83i32,
            ActionType::TypeSetShowBuddyNames => 84i32,
            ActionType::TypeQuitToFrontEnd => 85i32,
            ActionType::TypePreviousScreen => 86i32,
            ActionType::TypeAcceptChanges => 87i32,
            ActionType::TypeSetDialogue => 88i32,
            ActionType::TypeXlive => 89i32,
            ActionType::TypeXliveBack => 90i32,
            ActionType::TypeLogout => 91i32,
            ActionType::TypeDemos => 92i32,
            ActionType::TypeSetGuildMaster => 93i32,
            ActionType::TypeSetHudTooltips => 94i32,
            ActionType::TypeUndoBuyAbility => 200i32,
            ActionType::TypeUndoBuyStat => 201i32,
            ActionType::TypeGiveExclusiveInput => 202i32,
            ActionType::TypeRemoveExclusiveInput => 203i32,
            ActionType::TypeSendBackEvent => 204i32,
            ActionType::TypeShowSpellSelection => 205i32,
            ActionType::TypeSetSpellToAssign => 206i32,
            ActionType::TypeTeleportToBoast => 207i32,
            ActionType::TypeDropQuest => 208i32,
            ActionType::TypeAssignSpell => 209i32,
            ActionType::TypeUnassignSpell => 210i32,
            ActionType::TypeResetAssignedSpells => 211i32,
            ActionType::TypeChangeAlpha => 212i32,
            ActionType::TypeChangeNumber => 213i32,
            ActionType::TypeDeleteProfile => 214i32,
            ActionType::TypeGoToDeleteProfileScreen => 215i32,
            ActionType::TypePopMapState => 216i32,
            ActionType::TypeNextScreenInvalidProfile => 219i32,
            ActionType::TypeNextScreenInvalidSave => 220i32,
            ActionType::TypeFreeSpaceOnT => 221i32,
            ActionType::TypeFreeSpaceOnU => 222i32,
            ActionType::TypeFlashDpadDown => 223i32,
            ActionType::TypeFlashDpadUp => 224i32,
            ActionType::TypeFlashDpadLeft => 225i32,
            ActionType::TypeFlashDpadRight => 226i32,
            ActionType::TypeStopDpadFlashing => 227i32,
            ActionType::TypeConstructLogbookList => 228i32,
            ActionType::TypeGoToMainMenuFromStart => 229i32,
            ActionType::TypeSendOwnedEvent => 230i32,
            ActionType::TypeSendEvent => 231i32,
            ActionType::TypeMoveComponent => 232i32,
            ActionType::TypeExitLiveGui => 233i32,
            ActionType::TypeOpenPcSkillsMenu => 234i32,
            ActionType::TypeConstructExpressionsList => 235i32,
            ActionType::TypeScrollActiveListUp => 236i32,
            ActionType::TypeScrollActiveListDown => 237i32,
            ActionType::TypeOpenPcInventoryMenu => 238i32,
            ActionType::TypeOpenPcOptionsMenu => 239i32,
            ActionType::TypeConstructPcStyleCardsList => 240i32,
            ActionType::TypeOpenPcBuyTradingGoodsList => 241i32,
            ActionType::TypeClosePcBuyTradingGoodsList => 242i32,
            ActionType::TypeConstructMagicListPc => 243i32,
            ActionType::TypeAssignSpellPc => 244i32,
            ActionType::TypeObserveEvent => 245i32,
            ActionType::TypeSetSpellToAssignPc => 246i32,
            ActionType::TypeResetAssignedSpellsPc => 247i32,
            ActionType::TypeUnassignSpellPc => 248i32,
            ActionType::TypeIgnoreEvent => 249i32,
            ActionType::TypeNextScreenProfilesForDelete => 250i32,
            ActionType::TypeAssignExpressionItemPc => 251i32,
            ActionType::TypeUnassignExpressionItemPc => 252i32,
            ActionType::TypeSetExpressionItemToAssignPc => 253i32,
            ActionType::TypeOpenPcMapMenu => 254i32,
            ActionType::TypeOpenPcStatusMenu => 255i32,
            ActionType::TypeOpenPcLogBook => 256i32,
            ActionType::TypeConstructPcQuestsList => 257i32,
            ActionType::TypeSetResolution => 258i32,
            ActionType::TypeSetShadowDetail => 259i32,
            ActionType::TypeSetDecals => 260i32,
            ActionType::TypeSetWeatherEffects => 261i32,
            ActionType::TypeSetVerticalSync => 262i32,
            ActionType::TypeSetGlowEffects => 263i32,
            ActionType::TypeSetReverseStereo => 264i32,
            ActionType::TypeSetAntialiasing => 265i32,
            ActionType::TypeSetTextureDetail => 266i32,
            ActionType::TypeSetMeshResolution => 267i32,
            ActionType::TypeSetWaterReflection => 268i32,
            ActionType::TypeSetLandscapeDetail => 269i32,
            ActionType::TypeSetParticleDetail => 270i32,
            ActionType::TypeAddObserver => 271i32,
            ActionType::TypeScrollActiveListUntilChildContaining => 272i32,
            ActionType::TypeGoBack => 273i32,
            ActionType::TypeCloseActiveMenu => 274i32,
            ActionType::TypeRemoveObserver => 275i32,
            ActionType::TypeTavernGameBetDown => 276i32,
            ActionType::TypeTavernGameBetUp => 277i32,
            ActionType::TypeRespawn => 278i32,
            ActionType::TypeContinue => 279i32,
            ActionType::TypeOpenPcSellTradingGoodsList => 280i32,
            ActionType::TypeOpenPcWantedTradingGoodsList => 281i32,
            ActionType::TypeConstructPcExperienceList => 282i32,
            ActionType::TypeGoToRedefineKeysMenu => 283i32,
            ActionType::TypeResetKeys => 284i32,
            ActionType::TypeAssignSpellToItemSlotPc => 285i32,
            ActionType::TypeConstructStyleCardsList => 286i32,
            ActionType::TypeScrollDescriptionDown => 287i32,
            ActionType::TypeScrollDescriptionUp => 288i32,
            ActionType::TypeConstructPcPersonalityList => 289i32,
            ActionType::TypeSendOwnedEventForceObservation => 291i32,
            ActionType::TypeGoToMainMenuFromProfileList => 292i32,
            ActionType::TypeNewProfile => 293i32,
            ActionType::TypeNewProfileReturnPressed => 294i32,
            ActionType::TypeNewProfileEscapePressed => 295i32,
            ActionType::TypeQuitGame => 296i32,
            ActionType::TypeNextScreenOptionsSubMenu => 297i32,
            ActionType::TypeSetMeshDetail => 298i32,
            ActionType::TypeSetEffectsDetail => 299i32,
            ActionType::TypeSetScreenAspectRatio => 300i32,
            ActionType::TypeApplyProfileValues => 301i32,
            ActionType::TypeCloseActiveTradeMenu => 302i32,
            ActionType::TypeScrollActiveListDownMax => 303i32,
            ActionType::TypeScrollActiveListUpMax => 304i32,
            ActionType::TypeScrollDescriptionDownMax => 305i32,
            ActionType::TypeScrollDescriptionUpMax => 306i32,
            ActionType::TypeScrollDescriptionDownOnePixel => 307i32,
            ActionType::TypeScrollDescriptionUpOnePixel => 308i32,
            ActionType::TypeCloseTradeMenuIfLeaf => 309i32,
            ActionType::TypeExitLiveGuiIfLeaf => 310i32,
            ActionType::TypeResetKeysWasd => 311i32,
            ActionType::TypeNextScreenOptionsScoreboard => 312i32,
            ActionType::TypeSetControlMethod => 313i32,
            ActionType::TypeGotoQuitPrompt => 314i32,
            ActionType::TypePcQuitToFrontEnd => 315i32,
            ActionType::TypePcAcceptVideoChanges => 316i32,
            ActionType::TypeSetRefreshRate => 317i32,
            ActionType::TypeSetCameraSensitivity => 318i32,
            ActionType::TypeSetBowCamera => 319i32,
            ActionType::TypeSetCameraResetting => 320i32,
            ActionType::TypeGotoAboutScreen => 321i32,
            ActionType::TypeCloseFrame => 322i32,
            ActionType::TypeSetShowTargetingStatus => 323i32,
            ActionType::TypeRestoreDefaultsGameplay => 324i32,
            ActionType::TypeRestoreDefaultsVideo => 325i32,
            ActionType::TypeRestoreDefaultsAudio => 326i32,
            ActionType::TypeSetExpressionItemToAssignSwappingPc => 327i32,
            ActionType::TypeSetSpellToAssignSwappingPc => 328i32,
            ActionType::TypeSetSpellToAssignInItemsSwappingPc => 329i32,
            ActionType::AddMeshChild => 2000i32,
            ActionType::LoadWeaponDesc => 2001i32,
            ActionType::LoadClothingDesc => 2002i32,
            ActionType::LoadItemDesc => 2003i32,
            ActionType::LoadWeaponMenuEntryName => 2004i32,
            ActionType::LoadClothingMenuEntryName => 2005i32,
            ActionType::LoadItemMenuEntryName => 2006i32,
            ActionType::LoadSellItemDesc => 2007i32,
            ActionType::LoadSellActionMenu => 2008i32,
            ActionType::LoadBuyItemDesc => 2009i32,
            ActionType::LoadBuyActionMenu => 2010i32,
            ActionType::LoadWantedItemDesc => 2011i32,
            ActionType::LoadQuickMenuExpressionsIcon => 2012i32,
            ActionType::LoadFileDesc => 2013i32,
            ActionType::LoadFileSavegameMinimap => 2014i32,
            ActionType::RemoveMeshChild => 2015i32,
            ActionType::UnloadWeaponDesc => 2016i32,
            ActionType::UnloadClothingDesc => 2017i32,
            ActionType::UnloadItemDesc => 2018i32,
            ActionType::UnloadSellItemDesc => 2019i32,
            ActionType::UnloadSellActionMenu => 2020i32,
            ActionType::UnloadBuyItemDesc => 2021i32,
            ActionType::UnloadBuyActionMenu => 2022i32,
            ActionType::UnloadWantedItemDesc => 2023i32,
            ActionType::TypeCheatMorality => 3000i32,
            ActionType::TypeCheatRenown => 3001i32,
            ActionType::TypeCloseBoastMenu => 3002i32,
            ActionType::TypePlaySound => 3003i32,
            ActionType::TypeTakeQuestForBoast => 3004i32,
            ActionType::TypeOpenPcMsnChat => 3005i32,
            ActionType::TypeActivateMsnConversation => 3006i32,
            ActionType::TypeSendMessage => 3007i32,
            ActionType::TypeSelectContact => 3008i32,
            ActionType::TypeScrollViewportUp => 3009i32,
            ActionType::TypeScrollViewportDown => 3010i32,
            ActionType::TypeScrollListDown => 3011i32,
            ActionType::TypeScrollListUp => 3012i32,
            ActionType::TypeOpenScoreboard => 3013i32,
            ActionType::TypeChooseClan => 3014i32,
            ActionType::TypePhotoCaption => 3015i32,
            ActionType::TypeDiscardPhoto => 3016i32,
            ActionType::TypeGoToScoreboardScreen => 3017i32,
            ActionType::TypeActivateEditbox => 3018i32,
            ActionType::TypeDeactivateEditbox => 3019i32,
            ActionType::TypeSetEditboxValues => 3020i32,
            ActionType::TypeScoreboardOk => 3021i32,
            ActionType::TypeLoadPhoto => 3022i32,
            ActionType::TypeScrollPhotoDown => 3023i32,
            ActionType::TypeScrollPhotoUp => 3024i32,
            ActionType::TypeNextScreenStart => 3025i32,
            ActionType::TypeOpenPhotojournal => 4000i32,
            ActionType::TypeOpenPhoto => 4001i32,
            ActionType::TypeExitPhotojournalCapture => 4002i32,
        }
    }

    open spec fn lookup(value: i32) -> Option<Self> {
        match value {
            0i32 => Some(ActionType::TypeNone),
            1i32 => Some(ActionType::TypeWield),
            2i32 => Some(ActionType::TypeAugment),
            3i32 => Some(ActionType::TypeChangestate),
            4i32 => Some(ActionType::TypeTakeBoast),
            5i32 => Some(ActionType::TypeTeleport),
            6i32 => Some(ActionType::TypeTakeQuest),
            7i32 => Some(ActionType::TypeBuyStat),
            8i32 => Some(ActionType::TypeBuyAbility),
            9i32 => Some(ActionType::TypeNextScreenOptions),
            10i32 => Some(ActionType::TypeNextScreenLiveAware),
            11i32 => Some(ActionType::TypeNextScreenExtras),
            12i32 => Some(ActionType::TypeNextScreenAudioOptions),
            13i32 => Some(ActionType::TypeNextScreenVideoOptions),
            14i32 => Some(ActionType::TypeNextScreenCameraOptions),
            15i32 => Some(ActionType::TypeNewGame),
            16i32 => Some(ActionType::TypeNextScreenProfiles),
            17i32 => Some(ActionType::TypeLoadGame),
            18i32 => Some(ActionType::TypeLogin),
            19i32 => Some(ActionType::TypeFriends),
            20i32 => Some(ActionType::TypeAppearOffline),
            21i32 => Some(ActionType::TypeDelete),
            22i32 => Some(ActionType::TypeAddChild),
            23i32 => Some(ActionType::TypeAddChildAugmentation),
            24i32 => Some(ActionType::TypeDeleteAll),
            25i32 => Some(ActionType::TypeUseItem),
            26i32 => Some(ActionType::TypeItemAssignLeft),
            27i32 => Some(ActionType::TypeItemAssignRight),
            28i32 => Some(ActionType::TypeItemAssignDown),
            29i32 => Some(ActionType::TypeItemAssignUp),
            30i32 => Some(ActionType::TypeClothingWear),
            31i32 => Some(ActionType::TypeUpdateMannequinClothing),
            36i32 => Some(ActionType::TypeBuy),
            37i32 => Some(ActionType::TypeSell),
            38i32 => Some(ActionType::TypeDeletePrevious),
            39i32 => Some(ActionType::TypeResetClothingMannequin),
            40i32 => Some(ActionType::TypeSetBrightness),
            41i32 => Some(ActionType::TypeSetSound),
            42i32 => Some(ActionType::TypeSetMusic),
            43i32 => Some(ActionType::TypeSetCameraRotation),
            44i32 => Some(ActionType::TypeSetCameraUpDown),
            45i32 => Some(ActionType::TypeSetVibration),
            46i32 => Some(ActionType::TypeSetHeadphones),
            47i32 => Some(ActionType::TypeSetSubtitles),
            48i32 => Some(ActionType::TypeOpenMap),
            49i32 => Some(ActionType::TypeOpenAbilities),
            50i32 => Some(ActionType::TypeOpenWeapons),
            51i32 => Some(ActionType::TypeOpenStats),
            52i32 => Some(ActionType::TypeOpenClothing),
            53i32 => Some(ActionType::TypeOpenItems),
            54i32 => Some(ActionType::TypeCloseMap),
            55i32 => Some(ActionType::TypeCloseAbilities),
            56i32 => Some(ActionType::TypeCloseWeapons),
            57i32 => Some(ActionType::TypeCloseStats),
            58i32 => Some(ActionType::TypeCloseClothing),
            59i32 => Some(ActionType::TypeCloseItems),
            60i32 => Some(ActionType::TypeCloseMenu),
            61i32 => Some(ActionType::TypeGuildSealRecall),
            62i32 => Some(ActionType::TypeLoad),
            63i32 => Some(ActionType::TypeSave),
            64i32 => Some(ActionType::TypeClosePauseMenu),
            65i32 => Some(ActionType::TypePlayMovie),
            66i32 => Some(ActionType::TypeNextScreenProfilesSavedGames),
            67i32 => Some(ActionType::TypeNextScreenCredits),
            68i32 => Some(ActionType::TypeConstructWeaponsList),
            69i32 => Some(ActionType::TypeConstructClothingList),
            70i32 => Some(ActionType::TypeConstructItemsList),
            71i32 => Some(ActionType::TypeConstructSkillsList),
            72i32 => Some(ActionType::TypeConstructQuestsList),
            73i32 => Some(ActionType::TypeConstructMapList),
            74i32 => Some(ActionType::TypeConstructStatsList),
            75i32 => Some(ActionType::TypeChangeChildState),
            76i32 => Some(ActionType::TypeConstructExperienceList),
            77i32 => Some(ActionType::TypeConstructPersonalityList),
            78i32 => Some(ActionType::TypeSetHud),
            79i32 => Some(ActionType::TypeCloseQuickAccessMenu),
            80i32 => Some(ActionType::TypeCloseTeleportMenu),
            81i32 => Some(ActionType::TypeBuyBulk),
            82i32 => Some(ActionType::TypeSellBulk),
            83i32 => Some(ActionType::TypeSetTutorials),
            84i32 => Some(ActionType::TypeSetShowBuddyNames),
            85i32 => Some(ActionType::TypeQuitToFrontEnd),
            86i32 => Some(ActionType::TypePreviousScreen),
            87i32 => Some(ActionType::TypeAcceptChanges),
            88i32 => Some(ActionType::TypeSetDialogue),
            89i32 => Some(ActionType::TypeXlive),
            90i32 => Some(ActionType::TypeXliveBack),
            91i32 => Some(ActionType::TypeLogout),
            92i32 => Some(ActionType::TypeDemos),
            93i32 => Some(ActionType::TypeSetGuildMaster),
            94i32 => Some(ActionType::TypeSetHudTooltips),
            200i32 => Some(ActionType::TypeUndoBuyAbility),
            201i32 => Some(ActionType::TypeUndoBuyStat),
            202i32 => Some(ActionType::TypeGiveExclusiveInput),
            203i32 => Some(ActionType::TypeRemoveExclusiveInput),
            204i32 => Some(ActionType::TypeSendBackEvent),
            205i32 => Some(ActionType::TypeShowSpellSelection),
            206i32 => Some(ActionType::TypeSetSpellToAssign),
            207i32 => Some(ActionType::TypeTeleportToBoast),
            208i32 => Some(ActionType::TypeDropQuest),
            209i32 => Some(ActionType::TypeAssignSpell),
            210i32 => Some(ActionType::TypeUnassignSpell),
            211i32 => Some(ActionType::TypeResetAssignedSpells),
            212i32 => Some(ActionType::TypeChangeAlpha),
            213i32 => Some(ActionType::TypeChangeNumber),
            214i32 => Some(ActionType::TypeDeleteProfile),
            215i32 => Some(ActionType::TypeGoToDeleteProfileScreen),
            216i32 => Some(ActionType::TypePopMapState),
            219i32 => Some(ActionType::TypeNextScreenInvalidProfile),
            220i32 => Some(ActionType::TypeNextScreenInvalidSave),
            221i32 => Some(ActionType::TypeFreeSpaceOnT),
            222i32 => Some(ActionType::TypeFreeSpaceOnU),
            223i32 => Some(ActionType::TypeFlashDpadDown),
            224i32 => Some(ActionType::TypeFlashDpadUp),
            225i32 => Some(ActionType::TypeFlashDpadLeft),
            226i32 => Some(ActionType::TypeFlashDpadRight),
            227i32 => Some(ActionType::TypeStopDpadFlashing),
            228i32 => Some(ActionType::TypeConstructLogbookList),
            229i32 => Some(ActionType::TypeGoToMainMenuFromStart),
            230i32 => Some(ActionType::TypeSendOwnedEvent),
            231i32 => Some(ActionType::TypeSendEvent),
            232i32 => Some(ActionType::TypeMoveComponent),
            233i32 => Some(ActionType::TypeExitLiveGui),
            234i32 => Some(ActionType::TypeOpenPcSkillsMenu),
            235i32 => Some(ActionType::TypeConstructExpressionsList),
            236i32 => Some(ActionType::TypeScrollActiveListUp),
            237i32 => Some(ActionType::TypeScrollActiveListDown),
            238i32 => Some(ActionType::TypeOpenPcInventoryMenu),
            239i32 => Some(ActionType::TypeOpenPcOptionsMenu),
            240i32 => Some(ActionType::TypeConstructPcStyleCardsList),
            241i32 => Some(ActionType::TypeOpenPcBuyTradingGoodsList),
            242i32 => Some(ActionType::TypeClosePcBuyTradingGoodsList),
            243i32 => Some(ActionType::TypeConstructMagicListPc),
            244i32 => Some(ActionType::TypeAssignSpellPc),
            245i32 => Some(ActionType::TypeObserveEvent),
            246i32 => Some(ActionType::TypeSetSpellToAssignPc),
            247i32 => Some(ActionType::TypeResetAssignedSpellsPc),
            248i32 => Some(ActionType::TypeUnassignSpellPc),
            249i32 => Some(ActionType::TypeIgnoreEvent),
            250i32 => Some(ActionType::TypeNextScreenProfilesForDelete),
            251i32 => Some(ActionType::TypeAssignExpressionItemPc),
            252i32 => Some(ActionType::TypeUnassignExpressionItemPc),
            253i32 => Some(ActionType::TypeSetExpressionItemToAssignPc),
            254i32 => Some(ActionType::TypeOpenPcMapMenu),
            255i32 => Some(ActionType::TypeOpenPcStatusMenu),
            256i32 => Some(ActionType::TypeOpenPcLogBook),
            257i32 => Some(ActionType::TypeConstructPcQuestsList),
            258i32 => Some(ActionType::TypeSetResolution),
            259i32 => Some(ActionType::TypeSetShadowDetail),
            260i32 => Some(ActionType::TypeSetDecals),
            261i32 => Some(ActionType::TypeSetWeatherEffects),
            262i32 => Some(ActionType::TypeSetVerticalSync),
            263i32 => Some(ActionType::TypeSetGlowEffects),
            264i32 => Some(ActionType::TypeSetReverseStereo),
            265i32 => Some(ActionType::TypeSetAntialiasing),
            266i32 => Some(ActionType::TypeSetTextureDetail),
            267i32 => Some(ActionType::TypeSetMeshResolution),
            268i32 => Some(ActionType::TypeSetWaterReflection),
            269i32 => Some(ActionType::TypeSetLandscapeDetail),
            270i32 => Some(ActionType::TypeSetParticleDetail),
            271i32 => Some(ActionType::TypeAddObserver),
            272i32 => Some(ActionType::TypeScrollActiveListUntilChildContaining),
            273i32 => Some(ActionType::TypeGoBack),
            274i32 => Some(ActionType::TypeCloseActiveMenu),
            275i32 => Some(ActionType::TypeRemoveObserver),
            276i32 => Some(ActionType::TypeTavernGameBetDown),
            277i32 => Some(ActionType::TypeTavernGameBetUp),
            278i32 => Some(ActionType::TypeRespawn),
            279i32 => Some(ActionType::TypeContinue),
            280i32 => Some(ActionType::TypeOpenPcSellTradingGoodsList),
            281i32 => Some(ActionType::TypeOpenPcWantedTradingGoodsList),
            282i32 => Some(ActionType::TypeConstructPcExperienceList),
            283i32 => Some(ActionType::TypeGoToRedefineKeysMenu),
            284i32 => Some(ActionType::TypeResetKeys),
            285i32 => Some(ActionType::TypeAssignSpellToItemSlotPc),
            286i32 => Some(ActionType::TypeConstructStyleCardsList),
            287i32 => Some(ActionType::TypeScrollDescriptionDown),
            288i32 => Some(ActionType::TypeScrollDescriptionUp),
            289i32 => Some(ActionType::TypeConstructPcPersonalityList),
            291i32 => Some(ActionType::TypeSendOwnedEventForceObservation),
            292i32 => Some(ActionType::TypeGoToMainMenuFromProfileList),
            293i32 => Some(ActionType::TypeNewProfile),
            294i32 => Some(ActionType::TypeNewProfileReturnPressed),
            295i32 => Some(ActionType::TypeNewProfileEscapePressed),
            296i32 => Some(ActionType::TypeQuitGame),
            297i32 => Some(ActionType::TypeNextScreenOptionsSubMenu),
            298i32 => Some(ActionType::TypeSetMeshDetail),
            299i32 => Some(ActionType::TypeSetEffectsDetail),
            300i32 => Some(ActionType::TypeSetScreenAspectRatio),
            301i32 => Some(ActionType::TypeApplyProfileValues),
            302i32 => Some(ActionType::TypeCloseActiveTradeMenu),
            303i32 => Some(ActionType::TypeScrollActiveListDownMax),
            304i32 => Some(ActionType::TypeScrollActiveListUpMax),
            305i32 => Some(ActionType::TypeScrollDescriptionDownMax),
            306i32 => Some(ActionType::TypeScrollDescriptionUpMax),
            307i32 => Some(ActionType::TypeScrollDescriptionDownOnePixel),
            308i32 => Some(ActionType::TypeScrollDescriptionUpOnePixel),
            309i32 => Some(ActionType::TypeCloseTradeMenuIfLeaf),
            310i32 => Some(ActionType::TypeExitLiveGuiIfLeaf),
            311i32 => Some(ActionType::TypeResetKeysWasd),
            312i32 => Some(ActionType::TypeNextScreenOptionsScoreboard),
            313i32 => Some(ActionType::TypeSetControlMethod),
            314i32 => Some(ActionType::TypeGotoQuitPrompt),
            315i32 => Some(ActionType::TypePcQuitToFrontEnd),
            316i32 => Some(ActionType::TypePcAcceptVideoChanges),
            317i32 => Some(ActionType::TypeSetRefreshRate),
            318i32 => Some(ActionType::TypeSetCameraSensitivity),
            319i32 => Some(ActionType::TypeSetBowCamera),
            320i32 => Some(ActionType::TypeSetCameraResetting),
            321i32 => Some(ActionType::TypeGotoAboutScreen),
            322i32 => Some(ActionType::TypeCloseFrame),
            323i32 => Some(ActionType::TypeSetShowTargetingStatus),
            324i32 => Some(ActionType::TypeRestoreDefaultsGameplay),
            325i32 => Some(ActionType::TypeRestoreDefaultsVideo),
            326i32 => Some(ActionType::TypeRestoreDefaultsAudio),
            327i32 => Some(ActionType::TypeSetExpressionItemToAssignSwappingPc),
            328i32 => Some(ActionType::TypeSetSpellToAssignSwappingPc),
            329i32 => Some(ActionType::TypeSetSpellToAssignInItemsSwappingPc),
            2000i32 => Some(ActionType::AddMeshChild),
            2001i32 => Some(ActionType::LoadWeaponDesc),
            2002i32 => Some(ActionType::LoadClothingDesc),
            2003i32 => Some(ActionType::LoadItemDesc),
            2004i32 => Some(ActionType::LoadWeaponMenuEntryName),
            2005i32 => Some(ActionType::LoadClothingMenuEntryName),
            2006i32 => Some(ActionType::LoadItemMenuEntryName),
            2007i32 => Some(ActionType::LoadSellItemDesc),
            2008i32 => Some(ActionType::LoadSellActionMenu),
            2009i32 => Some(ActionType::LoadBuyItemDesc),
            2010i32 => Some(ActionType::LoadBuyActionMenu),
            2011i32 => Some(ActionType::LoadWantedItemDesc),
            2012i32 => Some(ActionType::LoadQuickMenuExpressionsIcon),
            2013i32 => Some(ActionType::LoadFileDesc),
            2014i32 => Some(ActionType::LoadFileSavegameMinimap),
            2015i32 => Some(ActionType::RemoveMeshChild),
            2016i32 => Some(ActionType::UnloadWeaponDesc),
            2017i32 => Some(ActionType::UnloadClothingDesc),
            2018i32 => Some(ActionType::UnloadItemDesc),
            2019i32 => Some(ActionType::UnloadSellItemDesc),
            2020i32 => Some(ActionType::UnloadSellActionMenu),
            2021i32 => Some(ActionType::UnloadBuyItemDesc),
            2022i32 => Some(ActionType::UnloadBuyActionMenu),
            2023i32 => Some(ActionType::UnloadWantedItemDesc),
            3000i32 => Some(ActionType::TypeCheatMorality),
            3001i32 => Some(ActionType::TypeCheatRenown),
            3002i32 => Some(ActionType::TypeCloseBoastMenu),
            3003i32 => Some(ActionType::TypePlaySound),
            3004i32 => Some(ActionType::TypeTakeQuestForBoast),
            3005i32 => Some(ActionType::TypeOpenPcMsnChat),
            3006i32 => Some(ActionType::TypeActivateMsnConversation),
            3007i32 => Some(ActionType::TypeSendMessage),
            3008i32 => Some(ActionType::TypeSelectContact),
            3009i32 => Some(ActionType::TypeScrollViewportUp),
            3010i32 => Some(ActionType::TypeScrollViewportDown),
            3011i32 => Some(ActionType::TypeScrollListDown),
            3012i32 => Some(ActionType::TypeScrollListUp),
            3013i32 => Some(ActionType::TypeOpenScoreboard),
            3014i32 => Some(ActionType::TypeChooseClan),
            3015i32 => Some(ActionType::TypePhotoCaption),
            3016i32 => Some(ActionType::TypeDiscardPhoto),
            3017i32 => Some(ActionType::TypeGoToScoreboardScreen),
            3018i32 => Some(ActionType::TypeActivateEditbox),
            3019i32 => Some(ActionType::TypeDeactivateEditbox),
            3020i32 => Some(ActionType::TypeSetEditboxValues),
            3021i32 => Some(ActionType::TypeScoreboardOk),
            3022i32 => Some(ActionType::TypeLoadPhoto),
            3023i32 => Some(ActionType::TypeScrollPhotoDown),
            3024i32 => Some(ActionType::TypeScrollPhotoUp),
            3025i32 => Some(ActionType::TypeNextScreenStart),
            4000i32 => Some(ActionType::TypeOpenPhotojournal),
            4001i32 => Some(ActionType::TypeOpenPhoto),
            4002i32 => Some(ActionType::TypeExitPhotojournalCapture),
            _ => None,
        }
    }

    fn from_i32(value: i32) -> (r: Option<Self>) {
        match value {
            0i32 => Some(ActionType::TypeNone),
            1i32 => Some(ActionType::TypeWield),
            2i32 => Some(ActionType::TypeAugment),
            3i32 => Some(ActionType::TypeChangestate),
            4i32 => Some(ActionType::TypeTakeBoast),
            5i32 => Some(ActionType::TypeTeleport),
            6i32 => Some(ActionType::TypeTakeQuest),
            7i32 => Some(ActionType::TypeBuyStat),
            8i32 => Some(ActionType::TypeBuyAbility),
            9i32 => Some(ActionType::TypeNextScreenOptions),
            10i32 => Some(ActionType::TypeNextScreenLiveAware),
            11i32 => Some(ActionType::TypeNextScreenExtras),
            12i32 => Some(ActionType::TypeNextScreenAudioOptions),
            13i32 => Some(ActionType::TypeNextScreenVideoOptions),
            14i32 => Some(ActionType::TypeNextScreenCameraOptions),
            15i32 => Some(ActionType::TypeNewGame),
            16i32 => Some(ActionType::TypeNextScreenProfiles),
            17i32 => Some(ActionType::TypeLoadGame),
            18i32 => Some(ActionType::TypeLogin),
            19i32 => Some(ActionType::TypeFriends),
            20i32 => Some(ActionType::TypeAppearOffline),
            21i32 => Some(ActionType::TypeDelete),
            22i32 => Some(ActionType::TypeAddChild),
            23i32 => Some(ActionType::TypeAddChildAugmentation),
            24i32 => Some(ActionType::TypeDeleteAll),
            25i32 => Some(ActionType::TypeUseItem),
            26i32 => Some(ActionType::TypeItemAssignLeft),
            27i32 => Some(ActionType::TypeItemAssignRight),
            28i32 => Some(ActionType::TypeItemAssignDown),
            29i32 => Some(ActionType::TypeItemAssignUp),
            30i32 => Some(ActionType::TypeClothingWear),
            31i32 => Some(ActionType::TypeUpdateMannequinClothing),
            36i32 => Some(ActionType::TypeBuy),
            37i32 => Some(ActionType::TypeSell),
            38i32 => Some(ActionType::TypeDeletePrevious),
            39i32 => Some(ActionType::TypeResetClothingMannequin),
            40i32 => Some(ActionType::TypeSetBrightness),
            41i32 => Some(ActionType::TypeSetSound),
            42i32 => Some(ActionType::TypeSetMusic),
            43i32 => Some(ActionType::TypeSetCameraRotation),
            44i32 => Some(ActionType::TypeSetCameraUpDown),
            45i32 => Some(ActionType::TypeSetVibration),
            46i32 => Some(ActionType::TypeSetHeadphones),
            47i32 => Some(ActionType::TypeSetSubtitles),
            48i32 => Some(ActionType::TypeOpenMap),
            49i32 => Some(ActionType::TypeOpenAbilities),
            50i32 => Some(ActionType::TypeOpenWeapons),
            51i32 => Some(ActionType::TypeOpenStats),
            52i32 => Some(ActionType::TypeOpenClothing),
            53i32 => Some(ActionType::TypeOpenItems),
            54i32 => Some(ActionType::TypeCloseMap),
            55i32 => Some(ActionType::TypeCloseAbilities),
            56i32 => Some(ActionType::TypeCloseWeapons),
            57i32 => Some(ActionType::TypeCloseStats),
            58i32 => Some(ActionType::TypeCloseClothing),
            59i32 => Some(ActionType::TypeCloseItems),
            60i32 => Some(ActionType::TypeCloseMenu),
            61i32 => Some(ActionType::TypeGuildSealRecall),
            62i32 => Some(ActionType::TypeLoad),
            63i32 => Some(ActionType::TypeSave),
            64i32 => Some(ActionType::TypeClosePauseMenu),
            65i32 => Some(ActionType::TypePlayMovie),
            66i32 => Some(ActionType::TypeNextScreenProfilesSavedGames),
            67i32 => Some(ActionType::TypeNextScreenCredits),
            68i32 => Some(ActionType::TypeConstructWeaponsList),
            69i32 => Some(ActionType::TypeConstructClothingList),
            70i32 => Some(ActionType::TypeConstructItemsList),
            71i32 => Some(ActionType::TypeConstructSkillsList),
            72i32 => Some(ActionType::TypeConstructQuestsList),
            73i32 => Some(ActionType::TypeConstructMapList),
            74i32 => Some(ActionType::TypeConstructStatsList),
            75i32 => Some(ActionType::TypeChangeChildState),
            76i32 => Some(ActionType::TypeConstructExperienceList),
            77i32 => Some(ActionType::TypeConstructPersonalityList),
            78i32 => Some(ActionType::TypeSetHud),
            79i32 => Some(ActionType::TypeCloseQuickAccessMenu),
            80i32 => Some(ActionType::TypeCloseTeleportMenu),
            81i32 => Some(ActionType::TypeBuyBulk),
            82i32 => Some(ActionType::TypeSellBulk),
            83i32 => Some(ActionType::TypeSetTutorials),
            84i32 => Some(ActionType::TypeSetShowBuddyNames),
            85i32 => Some(ActionType::TypeQuitToFrontEnd),
            86i32 => Some(ActionType::TypePreviousScreen),
            87i32 => Some(ActionType::TypeAcceptChanges),
            88i32 => Some(ActionType::TypeSetDialogue),
            89i32 => Some(ActionType::TypeXlive),
            90i32 => Some(ActionType::TypeXliveBack),
            91i32 => Some(ActionType::TypeLogout),
            92i32 => Some(ActionType::TypeDemos),
            93i32 => Some(ActionType::TypeSetGuildMaster),
            94i32 => Some(ActionType::TypeSetHudTooltips),
            200i32 => Some(ActionType::TypeUndoBuyAbility),
            201i32 => Some(ActionType::TypeUndoBuyStat),
            202i32 => Some(ActionType::TypeGiveExclusiveInput),
            203i32 => Some(ActionType::TypeRemoveExclusiveInput),
            204i32 => Some(ActionType::TypeSendBackEvent),
            205i32 => Some(ActionType::TypeShowSpellSelection),
            206i32 => Some(ActionType::TypeSetSpellToAssign),
            207i32 => Some(ActionType::TypeTeleportToBoast),
            208i32 => Some(ActionType::TypeDropQuest),
            209i32 => Some(ActionType::TypeAssignSpell),
            210i32 => Some(ActionType::TypeUnassignSpell),
            211i32 => Some(ActionType::TypeResetAssignedSpells),
            212i32 => Some(ActionType::TypeChangeAlpha),
            213i32 => Some(ActionType::TypeChangeNumber),
            214i32 => Some(ActionType::TypeDeleteProfile),
            215i32 => Some(ActionType::TypeGoToDeleteProfileScreen),
            216i32 => Some(ActionType::TypePopMapState),
            219i32 => Some(ActionType::TypeNextScreenInvalidProfile),
            220i32 => Some(ActionType::TypeNextScreenInvalidSave),
            221i32 => Some(ActionType::TypeFreeSpaceOnT),
            222i32 => Some(ActionType::TypeFreeSpaceOnU),
            223i32 => Some(ActionType::TypeFlashDpadDown),
            224i32 => Some(ActionType::TypeFlashDpadUp),
            225i32 => Some(ActionType::TypeFlashDpadLeft),
            226i32 => Some(ActionType::TypeFlashDpadRight),
            227i32 => Some(ActionType::TypeStopDpadFlashing),
            228i32 => Some(ActionType::TypeConstructLogbookList),
            229i32 => Some(ActionType::TypeGoToMainMenuFromStart),
            230i32 => Some(ActionType::TypeSendOwnedEvent),
            231i32 => Some(ActionType::TypeSendEvent),
            232i32 => Some(ActionType::TypeMoveComponent),
            233i32 => Some(ActionType::TypeExitLiveGui),
            234i32 => Some(ActionType::TypeOpenPcSkillsMenu),
            235i32 => Some(ActionType::TypeConstructExpressionsList),
            236i32 => Some(ActionType::TypeScrollActiveListUp),
            237i32 => Some(ActionType::TypeScrollActiveListDown),
            238i32 => Some(ActionType::TypeOpenPcInventoryMenu),
            239i32 => Some(ActionType::TypeOpenPcOptionsMenu),
            240i32 => Some(ActionType::TypeConstructPcStyleCardsList),
            241i32 => Some(ActionType::TypeOpenPcBuyTradingGoodsList),
            242i32 => Some(ActionType::TypeClosePcBuyTradingGoodsList),
            243i32 => Some(ActionType::TypeConstructMagicListPc),
            244i32 => Some(ActionType::TypeAssignSpellPc),
            245i32 => Some(ActionType::TypeObserveEvent),
            246i32 => Some(ActionType::TypeSetSpellToAssignPc),
            247i32 => Some(ActionType::TypeResetAssignedSpellsPc),
            248i32 => Some(ActionType::TypeUnassignSpellPc),
            249i32 => Some(ActionType::TypeIgnoreEvent),
            250i32 => Some(ActionType::TypeNextScreenProfilesForDelete),
            251i32 => Some(ActionType::TypeAssignExpressionItemPc),
            252i32 => Some(ActionType::TypeUnassignExpressionItemPc),
            253i32 => Some(ActionType::TypeSetExpressionItemToAssignPc),
            254i32 => Some(ActionType::TypeOpenPcMapMenu),
            255i32 => Some(ActionType::TypeOpenPcStatusMenu),
            256i32 => Some(ActionType::TypeOpenPcLogBook),
            257i32 => Some(ActionType::TypeConstructPcQuestsList),
            258i32 => Some(ActionType::TypeSetResolution),
            259i32 => Some(ActionType::TypeSetShadowDetail),
            260i32 => Some(ActionType::TypeSetDecals),
            261i32 => Some(ActionType::TypeSetWeatherEffects),
            262i32 => Some(ActionType::TypeSetVerticalSync),
            263i32 => Some(ActionType::TypeSetGlowEffects),
            264i32 => Some(ActionType::TypeSetReverseStereo),
            265i32 => Some(ActionType::TypeSetAntialiasing),
            266i32 => Some(ActionType::TypeSetTextureDetail),
            267i32 => Some(ActionType::TypeSetMeshResolution),
            268i32 => Some(ActionType::TypeSetWaterReflection),
            269i32 => Some(ActionType::TypeSetLandscapeDetail),
            270i32 => Some(ActionType::TypeSetParticleDetail),
            271i32 => Some(ActionType::TypeAddObserver),
            272i32 => Some(ActionType::TypeScrollActiveListUntilChildContaining),
            273i32 => Some(ActionType::TypeGoBack),
            274i32 => Some(ActionType::TypeCloseActiveMenu),
            275i32 => Some(ActionType::TypeRemoveObserver),
            276i32 => Some(ActionType::TypeTavernGameBetDown),
            277i32 => Some(ActionType::TypeTavernGameBetUp),
            278i32 => Some(ActionType::TypeRespawn),
            279i32 => Some(ActionType::TypeContinue),
            280i32 => Some(ActionType::TypeOpenPcSellTradingGoodsList),
            281i32 => Some(ActionType::TypeOpenPcWantedTradingGoodsList),
            282i32 => Some(ActionType::TypeConstructPcExperienceList),
            283i32 => Some(ActionType::TypeGoToRedefineKeysMenu),
            284i32 => Some(ActionType::TypeResetKeys),
            285i32 => Some(ActionType::TypeAssignSpellToItemSlotPc),
            286i32 => Some(ActionType::TypeConstructStyleCardsList),
            287i32 => Some(ActionType::TypeScrollDescriptionDown),
            288i32 => Some(ActionType::TypeScrollDescriptionUp),
            289i32 => Some(ActionType::TypeConstructPcPersonalityList),
            291i32 => Some(ActionType::TypeSendOwnedEventForceObservation),
            292i32 => Some(ActionType::TypeGoToMainMenuFromProfileList),
            293i32 => Some(ActionType::TypeNewProfile),
            294i32 => Some(ActionType::TypeNewProfileReturnPressed),
            295i32 => Some(ActionType::TypeNewProfileEscapePressed),
            296i32 => Some(ActionType::TypeQuitGame),
            297i32 => Some(ActionType::TypeNextScreenOptionsSubMenu),
            298i32 => Some(ActionType::TypeSetMeshDetail),
            299i32 => Some(ActionType::TypeSetEffectsDetail),
            300i32 => Some(ActionType::TypeSetScreenAspectRatio),
            301i32 => Some(ActionType::TypeApplyProfileValues),
            302i32 => Some(ActionType::TypeCloseActiveTradeMenu),
            303i32 => Some(ActionType::TypeScrollActiveListDownMax),
            304i32 => Some(ActionType::TypeScrollActiveListUpMax),
            305i32 => Some(ActionType::TypeScrollDescriptionDownMax),
            306i32 => Some(ActionType::TypeScrollDescriptionUpMax),
            307i32 => Some(ActionType::TypeScrollDescriptionDownOnePixel),
            308i32 => Some(ActionType::TypeScrollDescriptionUpOnePixel),
            309i32 => Some(ActionType::TypeCloseTradeMenuIfLeaf),
            310i32 => Some(ActionType::TypeExitLiveGuiIfLeaf),
            311i32 => Some(ActionType::TypeResetKeysWasd),
            312i32 => Some(ActionType::TypeNextScreenOptionsScoreboard),
            313i32 => Some(ActionType::TypeSetControlMethod),
            314i32 => Some(ActionType::TypeGotoQuitPrompt),
            315i32 => Some(ActionType::TypePcQuitToFrontEnd),
            316i32 => Some(ActionType::TypePcAcceptVideoChanges),
            317i32 => Some(ActionType::TypeSetRefreshRate),
            318i32 => Some(ActionType::TypeSetCameraSensitivity),
            319i32 => Some(ActionType::TypeSetBowCamera),
            320i32 => Some(ActionType::TypeSetCameraResetting),
            321i32 => Some(ActionType::TypeGotoAboutScreen),
            322i32 => Some(ActionType::TypeCloseFrame),
            323i32 => Some(ActionType::TypeSetShowTargetingStatus),
            324i32 => Some(ActionType::TypeRestoreDefaultsGameplay),
            325i32 => Some(ActionType::TypeRestoreDefaultsVideo),
            326i32 => Some(ActionType::TypeRestoreDefaultsAudio),
            327i32 => Some(ActionType::TypeSetExpressionItemToAssignSwappingPc),
            328i32 => Some(ActionType::TypeSetSpellToAssignSwappingPc),
            329i32 => Some(ActionType::TypeSetSpellToAssignInItemsSwappingPc),
            2000i32 => Some(ActionType::AddMeshChild),
            2001i32 => Some(ActionType::LoadWeaponDesc),
            2002i32 => Some(ActionType::LoadClothingDesc),
            2003i32 => Some(ActionType::LoadItemDesc),
            2004i32 => Some(ActionType::LoadWeaponMenuEntryName),
            2005i32 => Some(ActionType::LoadClothingMenuEntryName),
            2006i32 => Some(ActionType::LoadItemMenuEntryName),
            2007i32 => Some(ActionType::LoadSellItemDesc),
            2008i32 => Some(ActionType::LoadSellActionMenu),
            2009i32 => Some(ActionType::LoadBuyItemDesc),
            2010i32 => Some(ActionType::LoadBuyActionMenu),
            2011i32 => Some(ActionType::LoadWantedItemDesc),
            2012i32 => Some(ActionType::LoadQuickMenuExpressionsIcon),
            2013i32 => Some(ActionType::LoadFileDesc),
            2014i32 => Some(ActionType::LoadFileSavegameMinimap),
            2015i32 => Some(ActionType::RemoveMeshChild),
            2016i32 => Some(ActionType::UnloadWeaponDesc),
            2017i32 => Some(ActionType::UnloadClothingDesc),
            2018i32 => Some(ActionType::UnloadItemDesc),
            2019i32 => Some(ActionType::UnloadSellItemDesc),
            2020i32 => Some(ActionType::UnloadSellActionMenu),
            2021i32 => Some(ActionType::UnloadBuyItemDesc),
            2022i32 => Some(ActionType::UnloadBuyActionMenu),
            2023i32 => Some(ActionType::UnloadWantedItemDesc),
            3000i32 => Some(ActionType::TypeCheatMorality),
            3001i32 => Some(ActionType::TypeCheatRenown),
            3002i32 => Some(ActionType::TypeCloseBoastMenu),
            3003i32 => Some(ActionType::TypePlaySound),
            3004i32 => Some(ActionType::TypeTakeQuestForBoast),
            3005i32 => Some(ActionType::TypeOpenPcMsnChat),
            3006i32 => Some(ActionType::TypeActivateMsnConversation),
            3007i32 => Some(ActionType::TypeSendMessage),
            3008i32 => Some(ActionType::TypeSelectContact),
            3009i32 => Some(ActionType::TypeScrollViewportUp),
            3010i32 => Some(ActionType::TypeScrollViewportDown),
            3011i32 => Some(ActionType::TypeScrollListDown),
            3012i32 => Some(ActionType::TypeScrollListUp),
            3013i32 => Some(ActionType::TypeOpenScoreboard),
            3014i32 => Some(ActionType::TypeChooseClan),
            3015i32 => Some(ActionType::TypePhotoCaption),
            3016i32 => Some(ActionType::TypeDiscardPhoto),
            3017i32 => Some(ActionType::TypeGoToScoreboardScreen),
            3018i32 => Some(ActionType::TypeActivateEditbox),
            3019i32 => Some(ActionType::TypeDeactivateEditbox),
            3020i32 => Some(ActionType::TypeSetEditboxValues),
            3021i32 => Some(ActionType::TypeScoreboardOk),
            3022i32 => Some(ActionType::TypeLoadPhoto),
            3023i32 => Some(ActionType::TypeScrollPhotoDown),
            3024i32 => Some(ActionType::TypeScrollPhotoUp),
            3025i32 => Some(ActionType::TypeNextScreenStart),
            4000i32 => Some(ActionType::TypeOpenPhotojournal),
            4001i32 => Some(ActionType::TypeOpenPhoto),
            4002i32 => Some(ActionType::TypeExitPhotojournalCapture),
            _ => None,
        }
    }

    fn to_i32(self) -> (r: i32) {
        match self {
            ActionType::TypeNone => 0i32,
            ActionType::TypeWield => 1i32,
            ActionType::TypeAugment => 2i32,
            ActionType::TypeChangestate => 3i32,
            ActionType::TypeTakeBoast => 4i32,
            ActionType::TypeTeleport => 5i32,
            ActionType::TypeTakeQuest => 6i32,
            ActionType::TypeBuyStat => 7i32,
            ActionType::TypeBuyAbility => 8i32,
            ActionType::TypeNextScreenOptions => 9i32,
            ActionType::TypeNextScreenLiveAware => 10i32,
            ActionType::TypeNextScreenExtras => 11i32,
            ActionType::TypeNextScreenAudioOptions => 12i32,
            ActionType::TypeNextScreenVideoOptions => 13i32,
            ActionType::TypeNextScreenCameraOptions => 14i32,
            ActionType::TypeNewGame => 15i32,
            ActionType::TypeNextScreenProfiles => 16i32,
            ActionType::TypeLoadGame => 17i32,
            ActionType::TypeLogin => 18i32,
            ActionType::TypeFriends => 19i32,
            ActionType::TypeAppearOffline => 20i32,
            ActionType::TypeDelete => 21i32,
            ActionType::TypeAddChild => 22i32,
            ActionType::TypeAddChildAugmentation => 23i32,
            ActionType::TypeDeleteAll => 24i32,
            ActionType::TypeUseItem => 25i32,
            ActionType::TypeItemAssignLeft => 26i32,
            ActionType::TypeItemAssignRight => 27i32,
            ActionType::TypeItemAssignDown => 28i32,
            ActionType::TypeItemAssignUp => 29i32,
            ActionType::TypeClothingWear => 30i32,
            ActionType::TypeUpdateMannequinClothing => 31i32,
            ActionType::TypeBuy => 36i32,
            ActionType::TypeSell => 37i32,
            ActionType::TypeDeletePrevious => 38i32,
            ActionType::TypeResetClothingMannequin => 39i32,
            ActionType::TypeSetBrightness => 40i32,
            ActionType::TypeSetSound => 41i32,
            ActionType::TypeSetMusic => 42i32,
            ActionType::TypeSetCameraRotation => 43i32,
            ActionType::TypeSetCameraUpDown => 44i32,
            ActionType::TypeSetVibration => 45i32,
            ActionType::TypeSetHeadphones => 46i32,
            ActionType::TypeSetSubtitles => 47i32,
            ActionType::TypeOpenMap => 48i32,
            ActionType::TypeOpenAbilities => 49i32,
            ActionType::TypeOpenWeapons => 50i32,
            ActionType::TypeOpenStats => 51i32,
            ActionType::TypeOpenClothing => 52i32,
            ActionType::TypeOpenItems => 53i32,
            ActionType::TypeCloseMap => 54i32,
            ActionType::TypeCloseAbilities => 55i32,
            ActionType::TypeCloseWeapons => 56i32,
            ActionType::TypeCloseStats => 57i32,
            ActionType::TypeCloseClothing => 58i32,
            ActionType::TypeCloseItems => 59i32,
            ActionType::TypeCloseMenu => 60i32,
            ActionType::TypeGuildSealRecall => 61i32,
            ActionType::TypeLoad => 62i32,
            ActionType::TypeSave => 63i32,
            ActionType::TypeClosePauseMenu => 64i32,
            ActionType::TypePlayMovie => 65i32,
            ActionType::TypeNextScreenProfilesSavedGames => 66i32,
            ActionType::TypeNextScreenCredits => 67i32,
            ActionType::TypeConstructWeaponsList => 68i32,
            ActionType::TypeConstructClothingList => 69i32,
            ActionType::TypeConstructItemsList => 70i32,
            ActionType::TypeConstructSkillsList => 71i32,
            ActionType::TypeConstructQuestsList => 72i32,
            ActionType::TypeConstructMapList => 73i32,
            ActionType::TypeConstructStatsList => 74i32,
            ActionType::TypeChangeChildState => 75i32,
            ActionType::TypeConstructExperienceList => 76i32,
            ActionType::TypeConstructPersonalityList => 77i32,
            ActionType::TypeSetHud => 78i32,
            ActionType::TypeCloseQuickAccessMenu => 79i32,
            ActionType::TypeCloseTeleportMenu => 80i32,
            ActionType::TypeBuyBulk => 81i32,
            ActionType::TypeSellBulk => 82i32,
            ActionType::TypeSetTutorials => 83i32,
            ActionType::TypeSetShowBuddyNames => 84i32,
            ActionType::TypeQuitToFrontEnd => 85i32,
            ActionType::TypePreviousScreen => 86i32,
            ActionType::TypeAcceptChanges => 87i32,
            ActionType::TypeSetDialogue => 88i32,
            ActionType::TypeXlive => 89i32,
            ActionType::TypeXliveBack => 90i32,
            ActionType::TypeLogout => 91i32,
            ActionType::TypeDemos => 92i32,
            ActionType::TypeSetGuildMaster => 93i32,
            ActionType::TypeSetHudTooltips => 94i32,
            ActionType::TypeUndoBuyAbility => 200i32,
            ActionType::TypeUndoBuyStat => 201i32,
            ActionType::TypeGiveExclusiveInput => 202i32,
            ActionType::TypeRemoveExclusiveInput => 203i32,
            ActionType::TypeSendBackEvent => 204i32,
            ActionType::TypeShowSpellSelection => 205i32,
            ActionType::TypeSetSpellToAssign => 206i32,
            ActionType::TypeTeleportToBoast => 207i32,
            ActionType::TypeDropQuest => 208i32,
            ActionType::TypeAssignSpell => 209i32,
            ActionType::TypeUnassignSpell => 210i32,
            ActionType::TypeResetAssignedSpells => 211i32,
            ActionType::TypeChangeAlpha => 212i32,
            ActionType::TypeChangeNumber => 213i32,
            ActionType::TypeDeleteProfile => 214i32,
            ActionType::TypeGoToDeleteProfileScreen => 215i32,
            ActionType::TypePopMapState => 216i32,
            ActionType::TypeNextScreenInvalidProfile => 219i32,
            ActionType::TypeNextScreenInvalidSave => 220i32,
            ActionType::TypeFreeSpaceOnT => 221i32,
            ActionType::TypeFreeSpaceOnU => 222i32,
            ActionType::TypeFlashDpadDown => 223i32,
            ActionType::TypeFlashDpadUp => 224i32,
            ActionType::TypeFlashDpadLeft => 225i32,
            ActionType::TypeFlashDpadRight => 226i32,
            ActionType::TypeStopDpadFlashing => 227i32,
            ActionType::TypeConstructLogbookList => 228i32,
            ActionType::TypeGoToMainMenuFromStart => 229i32,
            ActionType::TypeSendOwnedEvent => 230i32,
            ActionType::TypeSendEvent => 231i32,
            ActionType::TypeMoveComponent => 232i32,
            ActionType::TypeExitLiveGui => 233i32,
            ActionType::TypeOpenPcSkillsMenu => 234i32,
            ActionType::TypeConstructExpressionsList => 235i32,
            ActionType::TypeScrollActiveListUp => 236i32,
            ActionType::TypeScrollActiveListDown => 237i32,
            ActionType::TypeOpenPcInventoryMenu => 238i32,
            ActionType::TypeOpenPcOptionsMenu => 239i32,
            ActionType::TypeConstructPcStyleCardsList => 240i32,
            ActionType::TypeOpenPcBuyTradingGoodsList => 241i32,
            ActionType::TypeClosePcBuyTradingGoodsList => 242i32,
            ActionType::TypeConstructMagicListPc => 243i32,
            ActionType::TypeAssignSpellPc => 244i32,
            ActionType::TypeObserveEvent => 245i32,
            ActionType::TypeSetSpellToAssignPc => 246i32,
            ActionType::TypeResetAssignedSpellsPc => 247i32,
            ActionType::TypeUnassignSpellPc => 248i32,
            ActionType::TypeIgnoreEvent => 249i32,
            ActionType::TypeNextScreenProfilesForDelete => 250i32,
            ActionType::TypeAssignExpressionItemPc => 251i32,
            ActionType::TypeUnassignExpressionItemPc => 252i32,
            ActionType::TypeSetExpressionItemToAssignPc => 253i32,
            ActionType::TypeOpenPcMapMenu => 254i32,
            ActionType::TypeOpenPcStatusMenu => 255i32,
            ActionType::TypeOpenPcLogBook => 256i32,
            ActionType::TypeConstructPcQuestsList => 257i32,
            ActionType::TypeSetResolution => 258i32,
            ActionType::TypeSetShadowDetail => 259i32,
            ActionType::TypeSetDecals => 260i32,
            ActionType::TypeSetWeatherEffects => 261i32,
            ActionType::TypeSetVerticalSync => 262i32,
            ActionType::TypeSetGlowEffects => 263i32,
            ActionType::TypeSetReverseStereo => 264i32,
            ActionType::TypeSetAntialiasing => 265i32,
            ActionType::TypeSetTextureDetail => 266i32,
            ActionType::TypeSetMeshResolution => 267i32,
            ActionType::TypeSetWaterReflection => 268i32,
            ActionType::TypeSetLandscapeDetail => 269i32,
            ActionType::TypeSetParticleDetail => 270i32,
            ActionType::TypeAddObserver => 271i32,
            ActionType::TypeScrollActiveListUntilChildContaining => 272i32,
            ActionType::TypeGoBack => 273i32,
            ActionType::TypeCloseActiveMenu => 274i32,
            ActionType::TypeRemoveObserver => 275i32,
            ActionType::TypeTavernGameBetDown => 276i32,
            ActionType::TypeTavernGameBetUp => 277i32,
            ActionType::TypeRespawn => 278i32,
            ActionType::TypeContinue => 279i32,
            ActionType::TypeOpenPcSellTradingGoodsList => 280i32,
            ActionType::TypeOpenPcWantedTradingGoodsList => 281i32,
            ActionType::TypeConstructPcExperienceList => 282i32,
            ActionType::TypeGoToRedefineKeysMenu => 283i32,
            ActionType::TypeResetKeys => 284i32,
            ActionType::TypeAssignSpellToItemSlotPc => 285i32,
            ActionType::TypeConstructStyleCardsList => 286i32,
            ActionType::TypeScrollDescriptionDown => 287i32,
            ActionType::TypeScrollDescriptionUp => 288i32,
            ActionType::TypeConstructPcPersonalityList => 289i32,
            ActionType::TypeSendOwnedEventForceObservation => 291i32,
            ActionType::TypeGoToMainMenuFromProfileList => 292i32,
            ActionType::TypeNewProfile => 293i32,
            ActionType::TypeNewProfileReturnPressed => 294i32,
            ActionType::TypeNewProfileEscapePressed => 295i32,
            ActionType::TypeQuitGame => 296i32,
            ActionType::TypeNextScreenOptionsSubMenu => 297i32,
            ActionType::TypeSetMeshDetail => 298i32,
            ActionType::TypeSetEffectsDetail => 299i32,
            ActionType::TypeSetScreenAspectRatio => 300i32,
            ActionType::TypeApplyProfileValues => 301i32,
            ActionType::TypeCloseActiveTradeMenu => 302i32,
            ActionType::TypeScrollActiveListDownMax => 303i32,
            ActionType::TypeScrollActiveListUpMax => 304i32,
            ActionType::TypeScrollDescriptionDownMax => 305i32,
            ActionType::TypeScrollDescriptionUpMax => 306i32,
            ActionType::TypeScrollDescriptionDownOnePixel => 307i32,
            ActionType::TypeScrollDescriptionUpOnePixel => 308i32,
            ActionType::TypeCloseTradeMenuIfLeaf => 309i32,
            ActionType::TypeExitLiveGuiIfLeaf => 310i32,
            ActionType::TypeResetKeysWasd => 311i32,
            ActionType::TypeNextScreenOptionsScoreboard => 312i32,
            ActionType::TypeSetControlMethod => 313i32,
            ActionType::TypeGotoQuitPrompt => 314i32,
            ActionType::TypePcQuitToFrontEnd => 315i32,
            ActionType::TypePcAcceptVideoChanges => 316i32,
            ActionType::TypeSetRefreshRate => 317i32,
            ActionType::TypeSetCameraSensitivity => 318i32,
            ActionType::TypeSetBowCamera => 319i32,
            ActionType::TypeSetCameraResetting => 320i32,
            ActionType::TypeGotoAboutScreen => 321i32,
            ActionType::TypeCloseFrame => 322i32,
            ActionType::TypeSetShowTargetingStatus => 323i32,
            ActionType::TypeRestoreDefaultsGameplay => 324i32,
            ActionType::TypeRestoreDefaultsVideo => 325i32,
            ActionType::TypeRestoreDefaultsAudio => 326i32,
            ActionType::TypeSetExpressionItemToAssignSwappingPc => 327i32,
            ActionType::TypeSetSpellToAssignSwappingPc => 328i32,
            ActionType::TypeSetSpellToAssignInItemsSwappingPc => 329i32,
            ActionType::AddMeshChild => 2000i32,
            ActionType::LoadWeaponDesc => 2001i32,
            ActionType::LoadClothingDesc => 2002i32,
            ActionType::LoadItemDesc => 2003i32,
            ActionType::LoadWeaponMenuEntryName => 2004i32,
            ActionType::LoadClothingMenuEntryName => 2005i32,
            ActionType::LoadItemMenuEntryName => 2006i32,
            ActionType::LoadSellItemDesc => 2007i32,
            ActionType::LoadSellActionMenu => 2008i32,
            ActionType::LoadBuyItemDesc => 2009i32,
            ActionType::LoadBuyActionMenu => 2010i32,
            ActionType::LoadWantedItemDesc => 2011i32,
            ActionType::LoadQuickMenuExpressionsIcon => 2012i32,
            ActionType::LoadFileDesc => 2013i32,
            ActionType::LoadFileSavegameMinimap => 2014i32,
            ActionType::RemoveMeshChild => 2015i32,
            ActionType::UnloadWeaponDesc => 2016i32,
            ActionType::UnloadClothingDesc => 2017i32,
            ActionType::UnloadItemDesc => 2018i32,
            ActionType::UnloadSellItemDesc => 2019i32,
            ActionType::UnloadSellActionMenu => 2020i32,
            ActionType::UnloadBuyItemDesc => 2021i32,
            ActionType::UnloadBuyActionMenu => 2022i32,
            ActionType::UnloadWantedItemDesc => 2023i32,
            ActionType::TypeCheatMorality => 3000i32,
            ActionType::TypeCheatRenown => 3001i32,
            ActionType::TypeCloseBoastMenu => 3002i32,
            ActionType::TypePlaySound => 3003i32,
            ActionType::TypeTakeQuestForBoast => 3004i32,
            ActionType::TypeOpenPcMsnChat => 3005i32,
            ActionType::TypeActivateMsnConversation => 3006i32,
            ActionType::TypeSendMessage => 3007i32,
            ActionType::TypeSelectContact => 3008i32,
            ActionType::TypeScrollViewportUp => 3009i32,
            ActionType::TypeScrollViewportDown => 3010i32,
            ActionType::TypeScrollListDown => 3011i32,
            ActionType::TypeScrollListUp => 3012i32,
            ActionType::TypeOpenScoreboard => 3013i32,
            ActionType::TypeChooseClan => 3014i32,
            ActionType::TypePhotoCaption => 3015i32,
            ActionType::TypeDiscardPhoto => 3016i32,
            ActionType::TypeGoToScoreboardScreen => 3017i32,
            ActionType::TypeActivateEditbox => 3018i32,
            ActionType::TypeDeactivateEditbox => 3019i32,
            ActionType::TypeSetEditboxValues => 3020i32,
            ActionType::TypeScoreboardOk => 3021i32,
            ActionType::TypeLoadPhoto => 3022i32,
            ActionType::TypeScrollPhotoDown => 3023i32,
            ActionType::TypeScrollPhotoUp => 3024i32,
            ActionType::TypeNextScreenStart => 3025i32,
            ActionType::TypeOpenPhotojournal => 4000i32,
            ActionType::TypeOpenPhoto => 4001i32,
            ActionType::TypeExitPhotojournalCapture => 4002i32,
        }
    }

    proof fn lemma_lookup_wire_value(e: Self) {
    }
}

impl ActionType {
    /// The C++ enumerator symbol of `self`.
    pub open spec fn symbol_of(self) -> Seq<char> {
        match self {
            ActionType::TypeNone => "UI_ACTION_TYPE_NONE"@,
            ActionType::TypeWield => "UI_ACTION_TYPE_WIELD"@,
            ActionType::TypeAugment => "UI_ACTION_TYPE_AUGMENT"@,
            ActionType::TypeChangestate => "UI_ACTION_TYPE_CHANGESTATE"@,
            ActionType::TypeTakeBoast => "UI_ACTION_TYPE_TAKE_BOAST"@,
            ActionType::TypeTeleport => "UI_ACTION_TYPE_TELEPORT"@,
            ActionType::TypeTakeQuest => "UI_ACTION_TYPE_TAKE_QUEST"@,
            ActionType::TypeBuyStat => "UI_ACTION_TYPE_BUY_STAT"@,
            ActionType::TypeBuyAbility => "UI_ACTION_TYPE_BUY_ABILITY"@,
            ActionType::TypeNextScreenOptions => "UI_ACTION_TYPE_NEXT_SCREEN_OPTIONS"@,
            ActionType::TypeNextScreenLiveAware => "UI_ACTION_TYPE_NEXT_SCREEN_LIVE_AWARE"@,
            ActionType::TypeNextScreenExtras => "UI_ACTION_TYPE_NEXT_SCREEN_EXTRAS"@,
            ActionType::TypeNextScreenAudioOptions => "UI_ACTION_TYPE_NEXT_SCREEN_AUDIO_OPTIONS"@,
            ActionType::TypeNextScreenVideoOptions => "UI_ACTION_TYPE_NEXT_SCREEN_VIDEO_OPTIONS"@,
            ActionType::TypeNextScreenCameraOptions => "UI_ACTION_TYPE_NEXT_SCREEN_CAMERA_OPTIONS"@,
            ActionType::TypeNewGame => "UI_ACTION_TYPE_NEW_GAME"@,
            ActionType::TypeNextScreenProfiles => "UI_ACTION_TYPE_NEXT_SCREEN_PROFILES"@,
            ActionType::TypeLoadGame => "UI_ACTION_TYPE_LOAD_GAME"@,
            ActionType::TypeLogin => "UI_ACTION_TYPE_LOGIN"@,
            ActionType::TypeFriends => "UI_ACTION_TYPE_FRIENDS"@,
            ActionType::TypeAppearOffline => "UI_ACTION_TYPE_APPEAR_OFFLINE"@,
            ActionType::TypeDelete => "UI_ACTION_TYPE_DELETE"@,
            ActionType::TypeAddChild => "UI_ACTION_TYPE_ADD_CHILD"@,
            ActionType::TypeAddChildAugmentation => "UI_ACTION_TYPE_ADD_CHILD_AUGMENTATION"@,
            ActionType::TypeDeleteAll => "UI_ACTION_TYPE_DELETE_ALL"@,
            ActionType::TypeUseItem => "UI_ACTION_TYPE_USE_ITEM"@,
            ActionType::TypeItemAssignLeft => "UI_ACTION_TYPE_ITEM_ASSIGN_LEFT"@,
            ActionType::TypeItemAssignRight => "UI_ACTION_TYPE_ITEM_ASSIGN_RIGHT"@,
            ActionType::TypeItemAssignDown => "UI_ACTION_TYPE_ITEM_ASSIGN_DOWN"@,
            ActionType::TypeItemAssignUp => "UI_ACTION_TYPE_ITEM_ASSIGN_UP"@,
            ActionType::TypeClothingWear => "UI_ACTION_TYPE_CLOTHING_WEAR"@,
            ActionType::TypeUpdateMannequinClothing => "UI_ACTION_TYPE_UPDATE_MANNEQUIN_CLOTHING"@,
            ActionType::TypeBuy => "UI_ACTION_TYPE_BUY"@,
            ActionType::TypeSell => "UI_ACTION_TYPE_SELL"@,
            ActionType::TypeDeletePrevious => "UI_ACTION_TYPE_DELETE_PREVIOUS"@,
            ActionType::TypeResetClothingMannequin => "UI_ACTION_TYPE_RESET_CLOTHING_MANNEQUIN"@,
            ActionType::TypeSetBrightness => "UI_ACTION_TYPE_SET_BRIGHTNESS"@,
            ActionType::TypeSetSound => "UI_ACTION_TYPE_SET_SOUND"@,
            ActionType::TypeSetMusic => "UI_ACTION_TYPE_SET_MUSIC"@,
            ActionType::TypeSetCameraRotation => "UI_ACTION_TYPE_SET_CAMERA_ROTATION"@,
            ActionType::TypeSetCameraUpDown => "UI_ACTION_TYPE_SET_CAMERA_UP_DOWN"@,
            ActionType::TypeSetVibration => "UI_ACTION_TYPE_SET_VIBRATION"@,
            ActionType::TypeSetHeadphones => "UI_ACTION_TYPE_SET_HEADPHONES"@,
            ActionType::TypeSetSubtitles => "UI_ACTION_TYPE_SET_SUBTITLES"@,
            ActionType::TypeOpenMap => "UI_ACTION_TYPE_OPEN_MAP"@,
            ActionType::TypeOpenAbilities => "UI_ACTION_TYPE_OPEN_ABILITIES"@,
            ActionType::TypeOpenWeapons => "UI_ACTION_TYPE_OPEN_WEAPONS"@,
            ActionType::TypeOpenStats => "UI_ACTION_TYPE_OPEN_STATS"@,
            ActionType::TypeOpenClothing => "UI_ACTION_TYPE_OPEN_CLOTHING"@,
            ActionType::TypeOpenItems => "UI_ACTION_TYPE_OPEN_ITEMS"@,
            ActionType::TypeCloseMap => "UI_ACTION_TYPE_CLOSE_MAP"@,
            ActionType::TypeCloseAbilities => "UI_ACTION_TYPE_CLOSE_ABILITIES"@,
            ActionType::TypeCloseWeapons => "UI_ACTION_TYPE_CLOSE_WEAPONS"@,
            ActionType::TypeCloseStats => "UI_ACTION_TYPE_CLOSE_STATS"@,
            ActionType::TypeCloseClothing => "UI_ACTION_TYPE_CLOSE_CLOTHING"@,
            ActionType::TypeCloseItems => "UI_ACTION_TYPE_CLOSE_ITEMS"@,
            ActionType::TypeCloseMenu => "UI_ACTION_TYPE_CLOSE_MENU"@,
            ActionType::TypeGuildSealRecall => "UI_ACTION_TYPE_GUILD_SEAL_RECALL"@,
            ActionType::TypeLoad => "UI_ACTION_TYPE_LOAD"@,
            ActionType::TypeSave => "UI_ACTION_TYPE_SAVE"@,
            ActionType::TypeClosePauseMenu => "UI_ACTION_TYPE_CLOSE_PAUSE_MENU"@,
            ActionType::TypePlayMovie => "UI_ACTION_TYPE_PLAY_MOVIE"@,
            ActionType::TypeNextScreenProfilesSavedGames => "UI_ACTION_TYPE_NEXT_SCREEN_PROFILES_SAVED_GAMES"@,
            ActionType::TypeNextScreenCredits => "UI_ACTION_TYPE_NEXT_SCREEN_CREDITS"@,
            ActionType::TypeConstructWeaponsList => "UI_ACTION_TYPE_CONSTRUCT_WEAPONS_LIST"@,
            ActionType::TypeConstructClothingList => "UI_ACTION_TYPE_CONSTRUCT_CLOTHING_LIST"@,
            ActionType::TypeConstructItemsList => "UI_ACTION_TYPE_CONSTRUCT_ITEMS_LIST"@,
            ActionType::TypeConstructSkillsList => "UI_ACTION_TYPE_CONSTRUCT_SKILLS_LIST"@,
            ActionType::TypeConstructQuestsList => "UI_ACTION_TYPE_CONSTRUCT_QUESTS_LIST"@,
            ActionType::TypeConstructMapList => "UI_ACTION_TYPE_CONSTRUCT_MAP_LIST"@,
            ActionType::TypeConstructStatsList => "UI_ACTION_TYPE_CONSTRUCT_STATS_LIST"@,
            ActionType::TypeChangeChildState => "UI_ACTION_TYPE_CHANGE_CHILD_STATE"@,
            ActionType::TypeConstructExperienceList => "UI_ACTION_TYPE_CONSTRUCT_EXPERIENCE_LIST"@,
            ActionType::TypeConstructPersonalityList => "UI_ACTION_TYPE_CONSTRUCT_PERSONALITY_LIST"@,
            ActionType::TypeSetHud => "UI_ACTION_TYPE_SET_HUD"@,
            ActionType::TypeCloseQuickAccessMenu => "UI_ACTION_TYPE_CLOSE_QUICK_ACCESS_MENU"@,
            ActionType::TypeCloseTeleportMenu => "UI_ACTION_TYPE_CLOSE_TELEPORT_MENU"@,
            ActionType::TypeBuyBulk => "UI_ACTION_TYPE_BUY_BULK"@,
            ActionType::TypeSellBulk => "UI_ACTION_TYPE_SELL_BULK"@,
            ActionType::TypeSetTutorials => "UI_ACTION_TYPE_SET_TUTORIALS"@,
            ActionType::TypeSetShowBuddyNames => "UI_ACTION_TYPE_SET_SHOW_BUDDY_NAMES"@,
            ActionType::TypeQuitToFrontEnd => "UI_ACTION_TYPE_QUIT_TO_FRONT_END"@,
            ActionType::TypePreviousScreen => "UI_ACTION_TYPE_PREVIOUS_SCREEN"@,
            ActionType::TypeAcceptChanges => "UI_ACTION_TYPE_ACCEPT_CHANGES"@,
            ActionType::TypeSetDialogue => "UI_ACTION_TYPE_SET_DIALOGUE"@,
            ActionType::TypeXlive => "UI_ACTION_TYPE_XLIVE"@,
            ActionType::TypeXliveBack => "UI_ACTION_TYPE_XLIVE_BACK"@,
            ActionType::TypeLogout => "UI_ACTION_TYPE_LOGOUT"@,
            ActionType::TypeDemos => "UI_ACTION_TYPE_DEMOS"@,
            ActionType::TypeSetGuildMaster => "UI_ACTION_TYPE_SET_GUILD_MASTER"@,
            ActionType::TypeSetHudTooltips => "UI_ACTION_TYPE_SET_HUD_TOOLTIPS"@,
            ActionType::TypeUndoBuyAbility => "UI_ACTION_TYPE_UNDO_BUY_ABILITY"@,
            ActionType::TypeUndoBuyStat => "UI_ACTION_TYPE_UNDO_BUY_STAT"@,
            ActionType::TypeGiveExclusiveInput => "UI_ACTION_TYPE_GIVE_EXCLUSIVE_INPUT"@,
            ActionType::TypeRemoveExclusiveInput => "UI_ACTION_TYPE_REMOVE_EXCLUSIVE_INPUT"@,
            ActionType::TypeSendBackEvent => "UI_ACTION_TYPE_SEND_BACK_EVENT"@,
            ActionType::TypeShowSpellSelection => "UI_ACTION_TYPE_SHOW_SPELL_SELECTION"@,
            ActionType::TypeSetSpellToAssign => "UI_ACTION_TYPE_SET_SPELL_TO_ASSIGN"@,
            ActionType::TypeTeleportToBoast => "UI_ACTION_TYPE_TELEPORT_TO_BOAST"@,
            ActionType::TypeDropQuest => "UI_ACTION_TYPE_DROP_QUEST"@,
            ActionType::TypeAssignSpell => "UI_ACTION_TYPE_ASSIGN_SPELL"@,
            ActionType::TypeUnassignSpell => "UI_ACTION_TYPE_UNASSIGN_SPELL"@,
            ActionType::TypeResetAssignedSpells => "UI_ACTION_TYPE_RESET_ASSIGNED_SPELLS"@,
            ActionType::TypeChangeAlpha => "UI_ACTION_TYPE_CHANGE_ALPHA"@,
            ActionType::TypeChangeNumber => "UI_ACTION_TYPE_CHANGE_NUMBER"@,
            ActionType::TypeDeleteProfile => "UI_ACTION_TYPE_DELETE_PROFILE"@,
            ActionType::TypeGoToDeleteProfileScreen => "UI_ACTION_TYPE_GO_TO_DELETE_PROFILE_SCREEN"@,
            ActionType::TypePopMapState => "UI_ACTION_TYPE_POP_MAP_STATE"@,
            ActionType::TypeNextScreenInvalidProfile => "UI_ACTION_TYPE_NEXT_SCREEN_INVALID_PROFILE"@,
            ActionType::TypeNextScreenInvalidSave => "UI_ACTION_TYPE_NEXT_SCREEN_INVALID_SAVE"@,
            ActionType::TypeFreeSpaceOnT => "UI_ACTION_TYPE_FREE_SPACE_ON_T"@,
            ActionType::TypeFreeSpaceOnU => "UI_ACTION_TYPE_FREE_SPACE_ON_U"@,
            ActionType::TypeFlashDpadDown => "UI_ACTION_TYPE_FLASH_DPAD_DOWN"@,
            ActionType::TypeFlashDpadUp => "UI_ACTION_TYPE_FLASH_DPAD_UP"@,
            ActionType::TypeFlashDpadLeft => "UI_ACTION_TYPE_FLASH_DPAD_LEFT"@,
            ActionType::TypeFlashDpadRight => "UI_ACTION_TYPE_FLASH_DPAD_RIGHT"@,
            ActionType::TypeStopDpadFlashing => "UI_ACTION_TYPE_STOP_DPAD_FLASHING"@,
            ActionType::TypeConstructLogbookList => "UI_ACTION_TYPE_CONSTRUCT_LOGBOOK_LIST"@,
            ActionType::TypeGoToMainMenuFromStart => "UI_ACTION_TYPE_GO_TO_MAIN_MENU_FROM_START"@,
            ActionType::TypeSendOwnedEvent => "UI_ACTION_TYPE_SEND_OWNED_EVENT"@,
            ActionType::TypeSendEvent => "UI_ACTION_TYPE_SEND_EVENT"@,
            ActionType::TypeMoveComponent => "UI_ACTION_TYPE_MOVE_COMPONENT"@,
            ActionType::TypeExitLiveGui => "UI_ACTION_TYPE_EXIT_LIVE_GUI"@,
            ActionType::TypeOpenPcSkillsMenu => "UI_ACTION_TYPE_OPEN_PC_SKILLS_MENU"@,
            ActionType::TypeConstructExpressionsList => "UI_ACTION_TYPE_CONSTRUCT_EXPRESSIONS_LIST"@,
            ActionType::TypeScrollActiveListUp => "UI_ACTION_TYPE_SCROLL_ACTIVE_LIST_UP"@,
            ActionType::TypeScrollActiveListDown => "UI_ACTION_TYPE_SCROLL_ACTIVE_LIST_DOWN"@,
            ActionType::TypeOpenPcInventoryMenu => "UI_ACTION_TYPE_OPEN_PC_INVENTORY_MENU"@,
            ActionType::TypeOpenPcOptionsMenu => "UI_ACTION_TYPE_OPEN_PC_OPTIONS_MENU"@,
            ActionType::TypeConstructPcStyleCardsList => "UI_ACTION_TYPE_CONSTRUCT_PC_STYLE_CARDS_LIST"@,
            ActionType::TypeOpenPcBuyTradingGoodsList => "UI_ACTION_TYPE_OPEN_PC_BUY_TRADING_GOODS_LIST"@,
            ActionType::TypeClosePcBuyTradingGoodsList => "UI_ACTION_TYPE_CLOSE_PC_BUY_TRADING_GOODS_LIST"@,
            ActionType::TypeConstructMagicListPc => "UI_ACTION_TYPE_CONSTRUCT_MAGIC_LIST_PC"@,
            ActionType::TypeAssignSpellPc => "UI_ACTION_TYPE_ASSIGN_SPELL_PC"@,
            ActionType::TypeObserveEvent => "UI_ACTION_TYPE_OBSERVE_EVENT"@,
            ActionType::TypeSetSpellToAssignPc => "UI_ACTION_TYPE_SET_SPELL_TO_ASSIGN_PC"@,
            ActionType::TypeResetAssignedSpellsPc => "UI_ACTION_TYPE_RESET_ASSIGNED_SPELLS_PC"@,
            ActionType::TypeUnassignSpellPc => "UI_ACTION_TYPE_UNASSIGN_SPELL_PC"@,
            ActionType::TypeIgnoreEvent => "UI_ACTION_TYPE_IGNORE_EVENT"@,
            ActionType::TypeNextScreenProfilesForDelete => "UI_ACTION_TYPE_NEXT_SCREEN_PROFILES_FOR_DELETE"@,
            ActionType::TypeAssignExpressionItemPc => "UI_ACTION_TYPE_ASSIGN_EXPRESSION_ITEM_PC"@,
            ActionType::TypeUnassignExpressionItemPc => "UI_ACTION_TYPE_UNASSIGN_EXPRESSION_ITEM_PC"@,
            ActionType::TypeSetExpressionItemToAssignPc => "UI_ACTION_TYPE_SET_EXPRESSION_ITEM_TO_ASSIGN_PC"@,
            ActionType::TypeOpenPcMapMenu => "UI_ACTION_TYPE_OPEN_PC_MAP_MENU"@,
            ActionType::TypeOpenPcStatusMenu => "UI_ACTION_TYPE_OPEN_PC_STATUS_MENU"@,
            ActionType::TypeOpenPcLogBook => "UI_ACTION_TYPE_OPEN_PC_LOG_BOOK"@,
            ActionType::TypeConstructPcQuestsList => "UI_ACTION_TYPE_CONSTRUCT_PC_QUESTS_LIST"@,
            ActionType::TypeSetResolution => "UI_ACTION_TYPE_SET_RESOLUTION"@,
            ActionType::TypeSetShadowDetail => "UI_ACTION_TYPE_SET_SHADOW_DETAIL"@,
            ActionType::TypeSetDecals => "UI_ACTION_TYPE_SET_DECALS"@,
            ActionType::TypeSetWeatherEffects => "UI_ACTION_TYPE_SET_WEATHER_EFFECTS"@,
            ActionType::TypeSetVerticalSync => "UI_ACTION_TYPE_SET_VERTICAL_SYNC"@,
            ActionType::TypeSetGlowEffects => "UI_ACTION_TYPE_SET_GLOW_EFFECTS"@,
            ActionType::TypeSetReverseStereo => "UI_ACTION_TYPE_SET_REVERSE_STEREO"@,
            ActionType::TypeSetAntialiasing => "UI_ACTION_TYPE_SET_ANTIALIASING"@,
            ActionType::TypeSetTextureDetail => "UI_ACTION_TYPE_SET_TEXTURE_DETAIL"@,
            ActionType::TypeSetMeshResolution => "UI_ACTION_TYPE_SET_MESH_RESOLUTION"@,
            ActionType::TypeSetWaterReflection => "UI_ACTION_TYPE_SET_WATER_REFLECTION"@,
            ActionType::TypeSetLandscapeDetail => "UI_ACTION_TYPE_SET_LANDSCAPE_DETAIL"@,
            ActionType::TypeSetParticleDetail => "UI_ACTION_TYPE_SET_PARTICLE_DETAIL"@,
            ActionType::TypeAddObserver => "UI_ACTION_TYPE_ADD_OBSERVER"@,
            ActionType::TypeScrollActiveListUntilChildContaining => "UI_ACTION_TYPE_SCROLL_ACTIVE_LIST_UNTIL_CHILD_CONTAINING"@,
            ActionType::TypeGoBack => "UI_ACTION_TYPE_GO_BACK"@,
            ActionType::TypeCloseActiveMenu => "UI_ACTION_TYPE_CLOSE_ACTIVE_MENU"@,
            ActionType::TypeRemoveObserver => "UI_ACTION_TYPE_REMOVE_OBSERVER"@,
            ActionType::TypeTavernGameBetDown => "UI_ACTION_TYPE_TAVERN_GAME_BET_DOWN"@,
            ActionType::TypeTavernGameBetUp => "UI_ACTION_TYPE_TAVERN_GAME_BET_UP"@,
            ActionType::TypeRespawn => "UI_ACTION_TYPE_RESPAWN"@,
            ActionType::TypeContinue => "UI_ACTION_TYPE_CONTINUE"@,
            ActionType::TypeOpenPcSellTradingGoodsList => "UI_ACTION_TYPE_OPEN_PC_SELL_TRADING_GOODS_LIST"@,
            ActionType::TypeOpenPcWantedTradingGoodsList => "UI_ACTION_TYPE_OPEN_PC_WANTED_TRADING_GOODS_LIST"@,
            ActionType::TypeConstructPcExperienceList => "UI_ACTION_TYPE_CONSTRUCT_PC_EXPERIENCE_LIST"@,
            ActionType::TypeGoToRedefineKeysMenu => "UI_ACTION_TYPE_GO_TO_REDEFINE_KEYS_MENU"@,
            ActionType::TypeResetKeys => "UI_ACTION_TYPE_RESET_KEYS"@,
            ActionType::TypeAssignSpellToItemSlotPc => "UI_ACTION_TYPE_ASSIGN_SPELL_TO_ITEM_SLOT_PC"@,
            ActionType::TypeConstructStyleCardsList => "UI_ACTION_TYPE_CONSTRUCT_STYLE_CARDS_LIST"@,
            ActionType::TypeScrollDescriptionDown => "UI_ACTION_TYPE_SCROLL_DESCRIPTION_DOWN"@,
            ActionType::TypeScrollDescriptionUp => "UI_ACTION_TYPE_SCROLL_DESCRIPTION_UP"@,
            ActionType::TypeConstructPcPersonalityList => "UI_ACTION_TYPE_CONSTRUCT_PC_PERSONALITY_LIST"@,
            ActionType::TypeSendOwnedEventForceObservation => "UI_ACTION_TYPE_SEND_OWNED_EVENT_FORCE_OBSERVATION"@,
            ActionType::TypeGoToMainMenuFromProfileList => "UI_ACTION_TYPE_GO_TO_MAIN_MENU_FROM_PROFILE_LIST"@,
            ActionType::TypeNewProfile => "UI_ACTION_TYPE_NEW_PROFILE"@,
            ActionType::TypeNewProfileReturnPressed => "UI_ACTION_TYPE_NEW_PROFILE_RETURN_PRESSED"@,
            ActionType::TypeNewProfileEscapePressed => "UI_ACTION_TYPE_NEW_PROFILE_ESCAPE_PRESSED"@,
            ActionType::TypeQuitGame => "UI_ACTION_TYPE_QUIT_GAME"@,
            ActionType::TypeNextScreenOptionsSubMenu => "UI_ACTION_TYPE_NEXT_SCREEN_OPTIONS_SUB_MENU"@,
            ActionType::TypeSetMeshDetail => "UI_ACTION_TYPE_SET_MESH_DETAIL"@,
            ActionType::TypeSetEffectsDetail => "UI_ACTION_TYPE_SET_EFFECTS_DETAIL"@,
            ActionType::TypeSetScreenAspectRatio => "UI_ACTION_TYPE_SET_SCREEN_ASPECT_RATIO"@,
            ActionType::TypeApplyProfileValues => "UI_ACTION_TYPE_APPLY_PROFILE_VALUES"@,
            ActionType::TypeCloseActiveTradeMenu => "UI_ACTION_TYPE_CLOSE_ACTIVE_TRADE_MENU"@,
            ActionType::TypeScrollActiveListDownMax => "UI_ACTION_TYPE_SCROLL_ACTIVE_LIST_DOWN_MAX"@,
            ActionType::TypeScrollActiveListUpMax => "UI_ACTION_TYPE_SCROLL_ACTIVE_LIST_UP_MAX"@,
            ActionType::TypeScrollDescriptionDownMax => "UI_ACTION_TYPE_SCROLL_DESCRIPTION_DOWN_MAX"@,
            ActionType::TypeScrollDescriptionUpMax => "UI_ACTION_TYPE_SCROLL_DESCRIPTION_UP_MAX"@,
            ActionType::TypeScrollDescriptionDownOnePixel => "UI_ACTION_TYPE_SCROLL_DESCRIPTION_DOWN_ONE_PIXEL"@,
            ActionType::TypeScrollDescriptionUpOnePixel => "UI_ACTION_TYPE_SCROLL_DESCRIPTION_UP_ONE_PIXEL"@,
            ActionType::TypeCloseTradeMenuIfLeaf => "UI_ACTION_TYPE_CLOSE_TRADE_MENU_IF_LEAF"@,
            ActionType::TypeExitLiveGuiIfLeaf => "UI_ACTION_TYPE_EXIT_LIVE_GUI_IF_LEAF"@,
            ActionType::TypeResetKeysWasd => "UI_ACTION_TYPE_RESET_KEYS_WASD"@,
            ActionType::TypeNextScreenOptionsScoreboard => "UI_ACTION_TYPE_NEXT_SCREEN_OPTIONS_SCOREBOARD"@,
            ActionType::TypeSetControlMethod => "UI_ACTION_TYPE_SET_CONTROL_METHOD"@,
            ActionType::TypeGotoQuitPrompt => "UI_ACTION_TYPE_GOTO_QUIT_PROMPT"@,
            ActionType::TypePcQuitToFrontEnd => "UI_ACTION_TYPE_PC_QUIT_TO_FRONT_END"@,
            ActionType::TypePcAcceptVideoChanges => "UI_ACTION_TYPE_PC_ACCEPT_VIDEO_CHANGES"@,
            ActionType::TypeSetRefreshRate => "UI_ACTION_TYPE_SET_REFRESH_RATE"@,
            ActionType::TypeSetCameraSensitivity => "UI_ACTION_TYPE_SET_CAMERA_SENSITIVITY"@,
            ActionType::TypeSetBowCamera => "UI_ACTION_TYPE_SET_BOW_CAMERA"@,
            ActionType::TypeSetCameraResetting => "UI_ACTION_TYPE_SET_CAMERA_RESETTING"@,
            ActionType::TypeGotoAboutScreen => "UI_ACTION_TYPE_GOTO_ABOUT_SCREEN"@,
            ActionType::TypeCloseFrame => "UI_ACTION_TYPE_CLOSE_FRAME"@,
            ActionType::TypeSetShowTargetingStatus => "UI_ACTION_TYPE_SET_SHOW_TARGETING_STATUS"@,
            ActionType::TypeRestoreDefaultsGameplay => "UI_ACTION_TYPE_RESTORE_DEFAULTS_GAMEPLAY"@,
            ActionType::TypeRestoreDefaultsVideo => "UI_ACTION_TYPE_RESTORE_DEFAULTS_VIDEO"@,
            ActionType::TypeRestoreDefaultsAudio => "UI_ACTION_TYPE_RESTORE_DEFAULTS_AUDIO"@,
            ActionType::TypeSetExpressionItemToAssignSwappingPc => "UI_ACTION_TYPE_SET_EXPRESSION_ITEM_TO_ASSIGN_SWAPPING_PC"@,
            ActionType::TypeSetSpellToAssignSwappingPc => "UI_ACTION_TYPE_SET_SPELL_TO_ASSIGN_SWAPPING_PC"@,
            ActionType::TypeSetSpellToAssignInItemsSwappingPc => "UI_ACTION_TYPE_SET_SPELL_TO_ASSIGN_IN_ITEMS_SWAPPING_PC"@,
            ActionType::AddMeshChild => "UI_ACTION_ADD_MESH_CHILD"@,
            ActionType::LoadWeaponDesc => "UI_ACTION_LOAD_WEAPON_DESC"@,
            ActionType::LoadClothingDesc => "UI_ACTION_LOAD_CLOTHING_DESC"@,
            ActionType::LoadItemDesc => "UI_ACTION_LOAD_ITEM_DESC"@,
            ActionType::LoadWeaponMenuEntryName => "UI_ACTION_LOAD_WEAPON_MENU_ENTRY_NAME"@,
            ActionType::LoadClothingMenuEntryName => "UI_ACTION_LOAD_CLOTHING_MENU_ENTRY_NAME"@,
            ActionType::LoadItemMenuEntryName => "UI_ACTION_LOAD_ITEM_MENU_ENTRY_NAME"@,
            ActionType::LoadSellItemDesc => "UI_ACTION_LOAD_SELL_ITEM_DESC"@,
            ActionType::LoadSellActionMenu => "UI_ACTION_LOAD_SELL_ACTION_MENU"@,
            ActionType::LoadBuyItemDesc => "UI_ACTION_LOAD_BUY_ITEM_DESC"@,
            ActionType::LoadBuyActionMenu => "UI_ACTION_LOAD_BUY_ACTION_MENU"@,
            ActionType::LoadWantedItemDesc => "UI_ACTION_LOAD_WANTED_ITEM_DESC"@,
            ActionType::LoadQuickMenuExpressionsIcon => "UI_ACTION_LOAD_QUICK_MENU_EXPRESSIONS_ICON"@,
            ActionType::LoadFileDesc => "UI_ACTION_LOAD_FILE_DESC"@,
            ActionType::LoadFileSavegameMinimap => "UI_ACTION_LOAD_FILE_SAVEGAME_MINIMAP"@,
            ActionType::RemoveMeshChild => "UI_ACTION_REMOVE_MESH_CHILD"@,
            ActionType::UnloadWeaponDesc => "UI_ACTION_UNLOAD_WEAPON_DESC"@,
            ActionType::UnloadClothingDesc => "UI_ACTION_UNLOAD_CLOTHING_DESC"@,
            ActionType::UnloadItemDesc => "UI_ACTION_UNLOAD_ITEM_DESC"@,
            ActionType::UnloadSellItemDesc => "UI_ACTION_UNLOAD_SELL_ITEM_DESC"@,
            ActionType::UnloadSellActionMenu => "UI_ACTION_UNLOAD_SELL_ACTION_MENU"@,
            ActionType::UnloadBuyItemDesc => "UI_ACTION_UNLOAD_BUY_ITEM_DESC"@,
            ActionType::UnloadBuyActionMenu => "UI_ACTION_UNLOAD_BUY_ACTION_MENU"@,
            ActionType::UnloadWantedItemDesc => "UI_ACTION_UNLOAD_WANTED_ITEM_DESC"@,
            ActionType::TypeCheatMorality => "UI_ACTION_TYPE_CHEAT_MORALITY"@,
            ActionType::TypeCheatRenown => "UI_ACTION_TYPE_CHEAT_RENOWN"@,
            ActionType::TypeCloseBoastMenu => "UI_ACTION_TYPE_CLOSE_BOAST_MENU"@,
            ActionType::TypePlaySound => "UI_ACTION_TYPE_PLAY_SOUND"@,
            ActionType::TypeTakeQuestForBoast => "UI_ACTION_TYPE_TAKE_QUEST_FOR_BOAST"@,
            ActionType::TypeOpenPcMsnChat => "UI_ACTION_TYPE_OPEN_PC_MSN_CHAT"@,
            ActionType::TypeActivateMsnConversation => "UI_ACTION_TYPE_ACTIVATE_MSN_CONVERSATION"@,
            ActionType::TypeSendMessage => "UI_ACTION_TYPE_SEND_MESSAGE"@,
            ActionType::TypeSelectContact => "UI_ACTION_TYPE_SELECT_CONTACT"@,
            ActionType::TypeScrollViewportUp => "UI_ACTION_TYPE_SCROLL_VIEWPORT_UP"@,
            ActionType::TypeScrollViewportDown => "UI_ACTION_TYPE_SCROLL_VIEWPORT_DOWN"@,
            ActionType::TypeScrollListDown => "UI_ACTION_TYPE_SCROLL_LIST_DOWN"@,
            ActionType::TypeScrollListUp => "UI_ACTION_TYPE_SCROLL_LIST_UP"@,
            ActionType::TypeOpenScoreboard => "UI_ACTION_TYPE_OPEN_SCOREBOARD"@,
            ActionType::TypeChooseClan => "UI_ACTION_TYPE_CHOOSE_CLAN"@,
            ActionType::TypePhotoCaption => "UI_ACTION_TYPE_PHOTO_CAPTION"@,
            ActionType::TypeDiscardPhoto => "UI_ACTION_TYPE_DISCARD_PHOTO"@,
            ActionType::TypeGoToScoreboardScreen => "UI_ACTION_TYPE_GO_TO_SCOREBOARD_SCREEN"@,
            ActionType::TypeActivateEditbox => "UI_ACTION_TYPE_ACTIVATE_EDITBOX"@,
            ActionType::TypeDeactivateEditbox => "UI_ACTION_TYPE_DEACTIVATE_EDITBOX"@,
            ActionType::TypeSetEditboxValues => "UI_ACTION_TYPE_SET_EDITBOX_VALUES"@,
            ActionType::TypeScoreboardOk => "UI_ACTION_TYPE_SCOREBOARD_OK"@,
            ActionType::TypeLoadPhoto => "UI_ACTION_TYPE_LOAD_PHOTO"@,
            ActionType::TypeScrollPhotoDown => "UI_ACTION_TYPE_SCROLL_PHOTO_DOWN"@,
            ActionType::TypeScrollPhotoUp => "UI_ACTION_TYPE_SCROLL_PHOTO_UP"@,
            ActionType::TypeNextScreenStart => "UI_ACTION_TYPE_NEXT_SCREEN_START"@,
            ActionType::TypeOpenPhotojournal => "UI_ACTION_TYPE_OPEN_PHOTOJOURNAL"@,
            ActionType::TypeOpenPhoto => "UI_ACTION_TYPE_OPEN_PHOTO"@,
            ActionType::TypeExitPhotojournalCapture => "UI_ACTION_TYPE_EXIT_PHOTOJOURNAL_CAPTURE"@,
        }
    }

    /// The first variant whose symbol is `s`, if any.
    pub open spec fn symbol_lookup(s: Seq<char>) -> Option<Self> {
        if s == "UI_ACTION_TYPE_NONE"@ {
            Some(ActionType::TypeNone)
        } else if s == "UI_ACTION_TYPE_WIELD"@ {
            Some(ActionType::TypeWield)
        } else if s == "UI_ACTION_TYPE_AUGMENT"@ {
            Some(ActionType::TypeAugment)
        } else if s == "UI_ACTION_TYPE_CHANGESTATE"@ {
            Some(ActionType::TypeChangestate)
        } else if s == "UI_ACTION_TYPE_TAKE_BOAST"@ {
            Some(ActionType::TypeTakeBoast)
        } else if s == "UI_ACTION_TYPE_TELEPORT"@ {
            Some(ActionType::TypeTeleport)
        } else if s == "UI_ACTION_TYPE_TAKE_QUEST"@ {
            Some(ActionType::TypeTakeQuest)
        } else if s == "UI_ACTION_TYPE_BUY_STAT"@ {
            Some(ActionType::TypeBuyStat)
        } else if s == "UI_ACTION_TYPE_BUY_ABILITY"@ {
            Some(ActionType::TypeBuyAbility)
        } else if s == "UI_ACTION_TYPE_NEXT_SCREEN_OPTIONS"@ {
            Some(ActionType::TypeNextScreenOptions)
        } else if s == "UI_ACTION_TYPE_NEXT_SCREEN_LIVE_AWARE"@ {
            Some(ActionType::TypeNextScreenLiveAware)
        } else if s == "UI_ACTION_TYPE_NEXT_SCREEN_EXTRAS"@ {
            Some(ActionType::TypeNextScreenExtras)
        } else if s == "UI_ACTION_TYPE_NEXT_SCREEN_AUDIO_OPTIONS"@ {
            Some(ActionType::TypeNextScreenAudioOptions)
        } else if s == "UI_ACTION_TYPE_NEXT_SCREEN_VIDEO_OPTIONS"@ {
            Some(ActionType::TypeNextScreenVideoOptions)
        } else if s == "UI_ACTION_TYPE_NEXT_SCREEN_CAMERA_OPTIONS"@ {
            Some(ActionType::TypeNextScreenCameraOptions)
        } else if s == "UI_ACTION_TYPE_NEW_GAME"@ {
            Some(ActionType::TypeNewGame)
        } else if s == "UI_ACTION_TYPE_NEXT_SCREEN_PROFILES"@ {
            Some(ActionType::TypeNextScreenProfiles)
        } else if s == "UI_ACTION_TYPE_LOAD_GAME"@ {
            Some(ActionType::TypeLoadGame)
        } else if s == "UI_ACTION_TYPE_LOGIN"@ {
            Some(ActionType::TypeLogin)
        } else if s == "UI_ACTION_TYPE_FRIENDS"@ {
            Some(ActionType::TypeFriends)
        } else if s == "UI_ACTION_TYPE_APPEAR_OFFLINE"@ {
            Some(ActionType::TypeAppearOffline)
        } else if s == "UI_ACTION_TYPE_DELETE"@ {
            Some(ActionType::TypeDelete)
        } else if s == "UI_ACTION_TYPE_ADD_CHILD"@ {
            Some(ActionType::TypeAddChild)
        } else if s == "UI_ACTION_TYPE_ADD_CHILD_AUGMENTATION"@ {
            Some(ActionType::TypeAddChildAugmentation)
        } else if s == "UI_ACTION_TYPE_DELETE_ALL"@ {
            Some(ActionType::TypeDeleteAll)
        } else if s == "UI_ACTION_TYPE_USE_ITEM"@ {
            Some(ActionType::TypeUseItem)
        } else if s == "UI_ACTION_TYPE_ITEM_ASSIGN_LEFT"@ {
            Some(ActionType::TypeItemAssignLeft)
        } else if s == "UI_ACTION_TYPE_ITEM_ASSIGN_RIGHT"@ {
            Some(ActionType::TypeItemAssignRight)
        } else if s == "UI_ACTION_TYPE_ITEM_ASSIGN_DOWN"@ {
            Some(ActionType::TypeItemAssignDown)
        } else if s == "UI_ACTION_TYPE_ITEM_ASSIGN_UP"@ {
            Some(ActionType::TypeItemAssignUp)
        } else if s == "UI_ACTION_TYPE_CLOTHING_WEAR"@ {
            Some(ActionType::TypeClothingWear)
        } else if s == "UI_ACTION_TYPE_UPDATE_MANNEQUIN_CLOTHING"@ {
            Some(ActionType::TypeUpdateMannequinClothing)
        } else if s == "UI_ACTION_TYPE_BUY"@ {
            Some(ActionType::TypeBuy)
        } else if s == "UI_ACTION_TYPE_SELL"@ {
            Some(ActionType::TypeSell)
        } else if s == "UI_ACTION_TYPE_DELETE_PREVIOUS"@ {
            Some(ActionType::TypeDeletePrevious)
        } else if s == "UI_ACTION_TYPE_RESET_CLOTHING_MANNEQUIN"@ {
            Some(ActionType::TypeResetClothingMannequin)
        } else if s == "UI_ACTION_TYPE_SET_BRIGHTNESS"@ {
            Some(ActionType::TypeSetBrightness)
        } else if s == "UI_ACTION_TYPE_SET_SOUND"@ {
            Some(ActionType::TypeSetSound)
        } else if s == "UI_ACTION_TYPE_SET_MUSIC"@ {
            Some(ActionType::TypeSetMusic)
        } else if s == "UI_ACTION_TYPE_SET_CAMERA_ROTATION"@ {
            Some(ActionType::TypeSetCameraRotation)
        } else if s == "UI_ACTION_TYPE_SET_CAMERA_UP_DOWN"@ {
            Some(ActionType::TypeSetCameraUpDown)
        } else if s == "UI_ACTION_TYPE_SET_VIBRATION"@ {
            Some(ActionType::TypeSetVibration)
        } else if s == "UI_ACTION_TYPE_SET_HEADPHONES"@ {
            Some(ActionType::TypeSetHeadphones)
        } else if s == "UI_ACTION_TYPE_SET_SUBTITLES"@ {
            Some(ActionType::TypeSetSubtitles)
        } else if s == "UI_ACTION_TYPE_OPEN_MAP"@ {
            Some(ActionType::TypeOpenMap)
        } else if s == "UI_ACTION_TYPE_OPEN_ABILITIES"@ {
            Some(ActionType::TypeOpenAbilities)
        } else if s == "UI_ACTION_TYPE_OPEN_WEAPONS"@ {
            Some(ActionType::TypeOpenWeapons)
        } else if s == "UI_ACTION_TYPE_OPEN_STATS"@ {
            Some(ActionType::TypeOpenStats)
        } else if s == "UI_ACTION_TYPE_OPEN_CLOTHING"@ {
            Some(ActionType::TypeOpenClothing)
        } else if s == "UI_ACTION_TYPE_OPEN_ITEMS"@ {
            Some(ActionType::TypeOpenItems)
        } else if s == "UI_ACTION_TYPE_CLOSE_MAP"@ {
            Some(ActionType::TypeCloseMap)
        } else if s == "UI_ACTION_TYPE_CLOSE_ABILITIES"@ {
            Some(ActionType::TypeCloseAbilities)
        } else if s == "UI_ACTION_TYPE_CLOSE_WEAPONS"@ {
            Some(ActionType::TypeCloseWeapons)
        } else if s == "UI_ACTION_TYPE_CLOSE_STATS"@ {
            Some(ActionType::TypeCloseStats)
        } else if s == "UI_ACTION_TYPE_CLOSE_CLOTHING"@ {
            Some(ActionType::TypeCloseClothing)
        } else if s == "UI_ACTION_TYPE_CLOSE_ITEMS"@ {
            Some(ActionType::TypeCloseItems)
        } else if s == "UI_ACTION_TYPE_CLOSE_MENU"@ {
            Some(ActionType::TypeCloseMenu)
        } else if s == "UI_ACTION_TYPE_GUILD_SEAL_RECALL"@ {
            Some(ActionType::TypeGuildSealRecall)
        } else if s == "UI_ACTION_TYPE_LOAD"@ {
            Some(ActionType::TypeLoad)
        } else if s == "UI_ACTION_TYPE_SAVE"@ {
            Some(ActionType::TypeSave)
        } else if s == "UI_ACTION_TYPE_CLOSE_PAUSE_MENU"@ {
            Some(ActionType::TypeClosePauseMenu)
        } else if s == "UI_ACTION_TYPE_PLAY_MOVIE"@ {
            Some(ActionType::TypePlayMovie)
        } else if s == "UI_ACTION_TYPE_NEXT_SCREEN_PROFILES_SAVED_GAMES"@ {
            Some(ActionType::TypeNextScreenProfilesSavedGames)
        } else if s == "UI_ACTION_TYPE_NEXT_SCREEN_CREDITS"@ {
            Some(ActionType::TypeNextScreenCredits)
        } else if s == "UI_ACTION_TYPE_CONSTRUCT_WEAPONS_LIST"@ {
            Some(ActionType::TypeConstructWeaponsList)
        } else if s == "UI_ACTION_TYPE_CONSTRUCT_CLOTHING_LIST"@ {
            Some(ActionType::TypeConstructClothingList)
        } else if s == "UI_ACTION_TYPE_CONSTRUCT_ITEMS_LIST"@ {
            Some(ActionType::TypeConstructItemsList)
        } else if s == "UI_ACTION_TYPE_CONSTRUCT_SKILLS_LIST"@ {
            Some(ActionType::TypeConstructSkillsList)
        } else if s == "UI_ACTION_TYPE_CONSTRUCT_QUESTS_LIST"@ {
            Some(ActionType::TypeConstructQuestsList)
        } else if s == "UI_ACTION_TYPE_CONSTRUCT_MAP_LIST"@ {
            Some(ActionType::TypeConstructMapList)
        } else if s == "UI_ACTION_TYPE_CONSTRUCT_STATS_LIST"@ {
            Some(ActionType::TypeConstructStatsList)
        } else if s == "UI_ACTION_TYPE_CHANGE_CHILD_STATE"@ {
            Some(ActionType::TypeChangeChildState)
        } else if s == "UI_ACTION_TYPE_CONSTRUCT_EXPERIENCE_LIST"@ {
            Some(ActionType::TypeConstructExperienceList)
        } else if s == "UI_ACTION_TYPE_CONSTRUCT_PERSONALITY_LIST"@ {
            Some(ActionType::TypeConstructPersonalityList)
        } else if s == "UI_ACTION_TYPE_SET_HUD"@ {
            Some(ActionType::TypeSetHud)
        } else if s == "UI_ACTION_TYPE_CLOSE_QUICK_ACCESS_MENU"@ {
            Some(ActionType::TypeCloseQuickAccessMenu)
        } else if s == "UI_ACTION_TYPE_CLOSE_TELEPORT_MENU"@ {
            Some(ActionType::TypeCloseTeleportMenu)
        } else if s == "UI_ACTION_TYPE_BUY_BULK"@ {
            Some(ActionType::TypeBuyBulk)
        } else if s == "UI_ACTION_TYPE_SELL_BULK"@ {
            Some(ActionType::TypeSellBulk)
        } else if s == "UI_ACTION_TYPE_SET_TUTORIALS"@ {
            Some(ActionType::TypeSetTutorials)
        } else if s == "UI_ACTION_TYPE_SET_SHOW_BUDDY_NAMES"@ {
            Some(ActionType::TypeSetShowBuddyNames)
        } else if s == "UI_ACTION_TYPE_QUIT_TO_FRONT_END"@ {
            Some(ActionType::TypeQuitToFrontEnd)
        } else if s == "UI_ACTION_TYPE_PREVIOUS_SCREEN"@ {
            Some(ActionType::TypePreviousScreen)
        } else if s == "UI_ACTION_TYPE_ACCEPT_CHANGES"@ {
            Some(ActionType::TypeAcceptChanges)
        } else if s == "UI_ACTION_TYPE_SET_DIALOGUE"@ {
            Some(ActionType::TypeSetDialogue)
        } else if s == "UI_ACTION_TYPE_XLIVE"@ {
            Some(ActionType::TypeXlive)
        } else if s == "UI_ACTION_TYPE_XLIVE_BACK"@ {
            Some(ActionType::TypeXliveBack)
        } else if s == "UI_ACTION_TYPE_LOGOUT"@ {
            Some(ActionType::TypeLogout)
        } else if s == "UI_ACTION_TYPE_DEMOS"@ {
            Some(ActionType::TypeDemos)
        } else if s == "UI_ACTION_TYPE_SET_GUILD_MASTER"@ {
            Some(ActionType::TypeSetGuildMaster)
        } else if s == "UI_ACTION_TYPE_SET_HUD_TOOLTIPS"@ {
            Some(ActionType::TypeSetHudTooltips)
        } else if s == "UI_ACTION_TYPE_UNDO_BUY_ABILITY"@ {
            Some(ActionType::TypeUndoBuyAbility)
        } else if s == "UI_ACTION_TYPE_UNDO_BUY_STAT"@ {
            Some(ActionType::TypeUndoBuyStat)
        } else if s == "UI_ACTION_TYPE_GIVE_EXCLUSIVE_INPUT"@ {
            Some(ActionType::TypeGiveExclusiveInput)
        } else if s == "UI_ACTION_TYPE_REMOVE_EXCLUSIVE_INPUT"@ {
            Some(ActionType::TypeRemoveExclusiveInput)
        } else if s == "UI_ACTION_TYPE_SEND_BACK_EVENT"@ {
            Some(ActionType::TypeSendBackEvent)
        } else if s == "UI_ACTION_TYPE_SHOW_SPELL_SELECTION"@ {
            Some(ActionType::TypeShowSpellSelection)
        } else if s == "UI_ACTION_TYPE_SET_SPELL_TO_ASSIGN"@ {
            Some(ActionType::TypeSetSpellToAssign)
        } else if s == "UI_ACTION_TYPE_TELEPORT_TO_BOAST"@ {
            Some(ActionType::TypeTeleportToBoast)
        } else if s == "UI_ACTION_TYPE_DROP_QUEST"@ {
            Some(ActionType::TypeDropQuest)
        } else if s == "UI_ACTION_TYPE_ASSIGN_SPELL"@ {
            Some(ActionType::TypeAssignSpell)
        } else if s == "UI_ACTION_TYPE_UNASSIGN_SPELL"@ {
            Some(ActionType::TypeUnassignSpell)
        } else if s == "UI_ACTION_TYPE_RESET_ASSIGNED_SPELLS"@ {
            Some(ActionType::TypeResetAssignedSpells)
        } else if s == "UI_ACTION_TYPE_CHANGE_ALPHA"@ {
            Some(ActionType::TypeChangeAlpha)
        } else if s == "UI_ACTION_TYPE_CHANGE_NUMBER"@ {
            Some(ActionType::TypeChangeNumber)
        } else if s == "UI_ACTION_TYPE_DELETE_PROFILE"@ {
            Some(ActionType::TypeDeleteProfile)
        } else if s == "UI_ACTION_TYPE_GO_TO_DELETE_PROFILE_SCREEN"@ {
            Some(ActionType::TypeGoToDeleteProfileScreen)
        } else if s == "UI_ACTION_TYPE_POP_MAP_STATE"@ {
            Some(ActionType::TypePopMapState)
        } else if s == "UI_ACTION_TYPE_NEXT_SCREEN_INVALID_PROFILE"@ {
            Some(ActionType::TypeNextScreenInvalidProfile)
        } else if s == "UI_ACTION_TYPE_NEXT_SCREEN_INVALID_SAVE"@ {
            Some(ActionType::TypeNextScreenInvalidSave)
        } else if s == "UI_ACTION_TYPE_FREE_SPACE_ON_T"@ {
            Some(ActionType::TypeFreeSpaceOnT)
        } else if s == "UI_ACTION_TYPE_FREE_SPACE_ON_U"@ {
            Some(ActionType::TypeFreeSpaceOnU)
        } else if s == "UI_ACTION_TYPE_FLASH_DPAD_DOWN"@ {
            Some(ActionType::TypeFlashDpadDown)
        } else if s == "UI_ACTION_TYPE_FLASH_DPAD_UP"@ {
            Some(ActionType::TypeFlashDpadUp)
        } else if s == "UI_ACTION_TYPE_FLASH_DPAD_LEFT"@ {
            Some(ActionType::TypeFlashDpadLeft)
        } else if s == "UI_ACTION_TYPE_FLASH_DPAD_RIGHT"@ {
            Some(ActionType::TypeFlashDpadRight)
        } else if s == "UI_ACTION_TYPE_STOP_DPAD_FLASHING"@ {
            Some(ActionType::TypeStopDpadFlashing)
        } else if s == "UI_ACTION_TYPE_CONSTRUCT_LOGBOOK_LIST"@ {
            Some(ActionType::TypeConstructLogbookList)
        } else if s == "UI_ACTION_TYPE_GO_TO_MAIN_MENU_FROM_START"@ {
            Some(ActionType::TypeGoToMainMenuFromStart)
        } else if s == "UI_ACTION_TYPE_SEND_OWNED_EVENT"@ {
            Some(ActionType::TypeSendOwnedEvent)
        } else if s == "UI_ACTION_TYPE_SEND_EVENT"@ {
            Some(ActionType::TypeSendEvent)
        } else if s == "UI_ACTION_TYPE_MOVE_COMPONENT"@ {
            Some(ActionType::TypeMoveComponent)
        } else if s == "UI_ACTION_TYPE_EXIT_LIVE_GUI"@ {
            Some(ActionType::TypeExitLiveGui)
        } else if s == "UI_ACTION_TYPE_OPEN_PC_SKILLS_MENU"@ {
            Some(ActionType::TypeOpenPcSkillsMenu)
        } else if s == "UI_ACTION_TYPE_CONSTRUCT_EXPRESSIONS_LIST"@ {
            Some(ActionType::TypeConstructExpressionsList)
        } else if s == "UI_ACTION_TYPE_SCROLL_ACTIVE_LIST_UP"@ {
            Some(ActionType::TypeScrollActiveListUp)
        } else if s == "UI_ACTION_TYPE_SCROLL_ACTIVE_LIST_DOWN"@ {
            Some(ActionType::TypeScrollActiveListDown)
        } else if s == "UI_ACTION_TYPE_OPEN_PC_INVENTORY_MENU"@ {
            Some(ActionType::TypeOpenPcInventoryMenu)
        } else if s == "UI_ACTION_TYPE_OPEN_PC_OPTIONS_MENU"@ {
            Some(ActionType::TypeOpenPcOptionsMenu)
        } else if s == "UI_ACTION_TYPE_CONSTRUCT_PC_STYLE_CARDS_LIST"@ {
            Some(ActionType::TypeConstructPcStyleCardsList)
        } else if s == "UI_ACTION_TYPE_OPEN_PC_BUY_TRADING_GOODS_LIST"@ {
            Some(ActionType::TypeOpenPcBuyTradingGoodsList)
        } else if s == "UI_ACTION_TYPE_CLOSE_PC_BUY_TRADING_GOODS_LIST"@ {
            Some(ActionType::TypeClosePcBuyTradingGoodsList)
        } else if s == "UI_ACTION_TYPE_CONSTRUCT_MAGIC_LIST_PC"@ {
            Some(ActionType::TypeConstructMagicListPc)
        } else if s == "UI_ACTION_TYPE_ASSIGN_SPELL_PC"@ {
            Some(ActionType::TypeAssignSpellPc)
        } else if s == "UI_ACTION_TYPE_OBSERVE_EVENT"@ {
            Some(ActionType::TypeObserveEvent)
        } else if s == "UI_ACTION_TYPE_SET_SPELL_TO_ASSIGN_PC"@ {
            Some(ActionType::TypeSetSpellToAssignPc)
        } else if s == "UI_ACTION_TYPE_RESET_ASSIGNED_SPELLS_PC"@ {
            Some(ActionType::TypeResetAssignedSpellsPc)
        } else if s == "UI_ACTION_TYPE_UNASSIGN_SPELL_PC"@ {
            Some(ActionType::TypeUnassignSpellPc)
        } else if s == "UI_ACTION_TYPE_IGNORE_EVENT"@ {
            Some(ActionType::TypeIgnoreEvent)
        } else if s == "UI_ACTION_TYPE_NEXT_SCREEN_PROFILES_FOR_DELETE"@ {
            Some(ActionType::TypeNextScreenProfilesForDelete)
        } else if s == "UI_ACTION_TYPE_ASSIGN_EXPRESSION_ITEM_PC"@ {
            Some(ActionType::TypeAssignExpressionItemPc)
        } else if s == "UI_ACTION_TYPE_UNASSIGN_EXPRESSION_ITEM_PC"@ {
            Some(ActionType::TypeUnassignExpressionItemPc)
        } else if s == "UI_ACTION_TYPE_SET_EXPRESSION_ITEM_TO_ASSIGN_PC"@ {
            Some(ActionType::TypeSetExpressionItemToAssignPc)
        } else if s == "UI_ACTION_TYPE_OPEN_PC_MAP_MENU"@ {
            Some(ActionType::TypeOpenPcMapMenu)
        } else if s == "UI_ACTION_TYPE_OPEN_PC_STATUS_MENU"@ {
            Some(ActionType::TypeOpenPcStatusMenu)
        } else if s == "UI_ACTION_TYPE_OPEN_PC_LOG_BOOK"@ {
            Some(ActionType::TypeOpenPcLogBook)
        } else if s == "UI_ACTION_TYPE_CONSTRUCT_PC_QUESTS_LIST"@ {
            Some(ActionType::TypeConstructPcQuestsList)
        } else if s == "UI_ACTION_TYPE_SET_RESOLUTION"@ {
            Some(ActionType::TypeSetResolution)
        } else if s == "UI_ACTION_TYPE_SET_SHADOW_DETAIL"@ {
            Some(ActionType::TypeSetShadowDetail)
        } else if s == "UI_ACTION_TYPE_SET_DECALS"@ {
            Some(ActionType::TypeSetDecals)
        } else if s == "UI_ACTION_TYPE_SET_WEATHER_EFFECTS"@ {
            Some(ActionType::TypeSetWeatherEffects)
        } else if s == "UI_ACTION_TYPE_SET_VERTICAL_SYNC"@ {
            Some(ActionType::TypeSetVerticalSync)
        } else if s == "UI_ACTION_TYPE_SET_GLOW_EFFECTS"@ {
            Some(ActionType::TypeSetGlowEffects)
        } else if s == "UI_ACTION_TYPE_SET_REVERSE_STEREO"@ {
            Some(ActionType::TypeSetReverseStereo)
        } else if s == "UI_ACTION_TYPE_SET_ANTIALIASING"@ {
            Some(ActionType::TypeSetAntialiasing)
        } else if s == "UI_ACTION_TYPE_SET_TEXTURE_DETAIL"@ {
            Some(ActionType::TypeSetTextureDetail)
        } else if s == "UI_ACTION_TYPE_SET_MESH_RESOLUTION"@ {
            Some(ActionType::TypeSetMeshResolution)
        } else if s == "UI_ACTION_TYPE_SET_WATER_REFLECTION"@ {
            Some(ActionType::TypeSetWaterReflection)
        } else if s == "UI_ACTION_TYPE_SET_LANDSCAPE_DETAIL"@ {
            Some(ActionType::TypeSetLandscapeDetail)
        } else if s == "UI_ACTION_TYPE_SET_PARTICLE_DETAIL"@ {
            Some(ActionType::TypeSetParticleDetail)
        } else if s == "UI_ACTION_TYPE_ADD_OBSERVER"@ {
            Some(ActionType::TypeAddObserver)
        } else if s == "UI_ACTION_TYPE_SCROLL_ACTIVE_LIST_UNTIL_CHILD_CONTAINING"@ {
            Some(ActionType::TypeScrollActiveListUntilChildContaining)
        } else if s == "UI_ACTION_TYPE_GO_BACK"@ {
            Some(ActionType::TypeGoBack)
        } else if s == "UI_ACTION_TYPE_CLOSE_ACTIVE_MENU"@ {
            Some(ActionType::TypeCloseActiveMenu)
        } else if s == "UI_ACTION_TYPE_REMOVE_OBSERVER"@ {
            Some(ActionType::TypeRemoveObserver)
        } else if s == "UI_ACTION_TYPE_TAVERN_GAME_BET_DOWN"@ {
            Some(ActionType::TypeTavernGameBetDown)
        } else if s == "UI_ACTION_TYPE_TAVERN_GAME_BET_UP"@ {
            Some(ActionType::TypeTavernGameBetUp)
        } else if s == "UI_ACTION_TYPE_RESPAWN"@ {
            Some(ActionType::TypeRespawn)
        } else if s == "UI_ACTION_TYPE_CONTINUE"@ {
            Some(ActionType::TypeContinue)
        } else if s == "UI_ACTION_TYPE_OPEN_PC_SELL_TRADING_GOODS_LIST"@ {
            Some(ActionType::TypeOpenPcSellTradingGoodsList)
        } else if s == "UI_ACTION_TYPE_OPEN_PC_WANTED_TRADING_GOODS_LIST"@ {
            Some(ActionType::TypeOpenPcWantedTradingGoodsList)
        } else if s == "UI_ACTION_TYPE_CONSTRUCT_PC_EXPERIENCE_LIST"@ {
            Some(ActionType::TypeConstructPcExperienceList)
        } else if s == "UI_ACTION_TYPE_GO_TO_REDEFINE_KEYS_MENU"@ {
            Some(ActionType::TypeGoToRedefineKeysMenu)
        } else if s == "UI_ACTION_TYPE_RESET_KEYS"@ {
            Some(ActionType::TypeResetKeys)
        } else if s == "UI_ACTION_TYPE_ASSIGN_SPELL_TO_ITEM_SLOT_PC"@ {
            Some(ActionType::TypeAssignSpellToItemSlotPc)
        } else if s == "UI_ACTION_TYPE_CONSTRUCT_STYLE_CARDS_LIST"@ {
            Some(ActionType::TypeConstructStyleCardsList)
        } else if s == "UI_ACTION_TYPE_SCROLL_DESCRIPTION_DOWN"@ {
            Some(ActionType::TypeScrollDescriptionDown)
        } else if s == "UI_ACTION_TYPE_SCROLL_DESCRIPTION_UP"@ {
            Some(ActionType::TypeScrollDescriptionUp)
        } else if s == "UI_ACTION_TYPE_CONSTRUCT_PC_PERSONALITY_LIST"@ {
            Some(ActionType::TypeConstructPcPersonalityList)
        } else if s == "UI_ACTION_TYPE_SEND_OWNED_EVENT_FORCE_OBSERVATION"@ {
            Some(ActionType::TypeSendOwnedEventForceObservation)
        } else if s == "UI_ACTION_TYPE_GO_TO_MAIN_MENU_FROM_PROFILE_LIST"@ {
            Some(ActionType::TypeGoToMainMenuFromProfileList)
        } else if s == "UI_ACTION_TYPE_NEW_PROFILE"@ {
            Some(ActionType::TypeNewProfile)
        } else if s == "UI_ACTION_TYPE_NEW_PROFILE_RETURN_PRESSED"@ {
            Some(ActionType::TypeNewProfileReturnPressed)
        } else if s == "UI_ACTION_TYPE_NEW_PROFILE_ESCAPE_PRESSED"@ {
            Some(ActionType::TypeNewProfileEscapePressed)
        } else if s == "UI_ACTION_TYPE_QUIT_GAME"@ {
            Some(ActionType::TypeQuitGame)
        } else if s == "UI_ACTION_TYPE_NEXT_SCREEN_OPTIONS_SUB_MENU"@ {
            Some(ActionType::TypeNextScreenOptionsSubMenu)
        } else if s == "UI_ACTION_TYPE_SET_MESH_DETAIL"@ {
            Some(ActionType::TypeSetMeshDetail)
        } else if s == "UI_ACTION_TYPE_SET_EFFECTS_DETAIL"@ {
            Some(ActionType::TypeSetEffectsDetail)
        } else if s == "UI_ACTION_TYPE_SET_SCREEN_ASPECT_RATIO"@ {
            Some(ActionType::TypeSetScreenAspectRatio)
        } else if s == "UI_ACTION_TYPE_APPLY_PROFILE_VALUES"@ {
            Some(ActionType::TypeApplyProfileValues)
        } else if s == "UI_ACTION_TYPE_CLOSE_ACTIVE_TRADE_MENU"@ {
            Some(ActionType::TypeCloseActiveTradeMenu)
        } else if s == "UI_ACTION_TYPE_SCROLL_ACTIVE_LIST_DOWN_MAX"@ {
            Some(ActionType::TypeScrollActiveListDownMax)
        } else if s == "UI_ACTION_TYPE_SCROLL_ACTIVE_LIST_UP_MAX"@ {
            Some(ActionType::TypeScrollActiveListUpMax)
        } else if s == "UI_ACTION_TYPE_SCROLL_DESCRIPTION_DOWN_MAX"@ {
            Some(ActionType::TypeScrollDescriptionDownMax)
        } else if s == "UI_ACTION_TYPE_SCROLL_DESCRIPTION_UP_MAX"@ {
            Some(ActionType::TypeScrollDescriptionUpMax)
        } else if s == "UI_ACTION_TYPE_SCROLL_DESCRIPTION_DOWN_ONE_PIXEL"@ {
            Some(ActionType::TypeScrollDescriptionDownOnePixel)
        } else if s == "UI_ACTION_TYPE_SCROLL_DESCRIPTION_UP_ONE_PIXEL"@ {
            Some(ActionType::TypeScrollDescriptionUpOnePixel)
        } else if s == "UI_ACTION_TYPE_CLOSE_TRADE_MENU_IF_LEAF"@ {
            Some(ActionType::TypeCloseTradeMenuIfLeaf)
        } else if s == "UI_ACTION_TYPE_EXIT_LIVE_GUI_IF_LEAF"@ {
            Some(ActionType::TypeExitLiveGuiIfLeaf)
        } else if s == "UI_ACTION_TYPE_RESET_KEYS_WASD"@ {
            Some(ActionType::TypeResetKeysWasd)
        } else if s == "UI_ACTION_TYPE_NEXT_SCREEN_OPTIONS_SCOREBOARD"@ {
            Some(ActionType::TypeNextScreenOptionsScoreboard)
        } else if s == "UI_ACTION_TYPE_SET_CONTROL_METHOD"@ {
            Some(ActionType::TypeSetControlMethod)
        } else if s == "UI_ACTION_TYPE_GOTO_QUIT_PROMPT"@ {
            Some(ActionType::TypeGotoQuitPrompt)
        } else if s == "UI_ACTION_TYPE_PC_QUIT_TO_FRONT_END"@ {
            Some(ActionType::TypePcQuitToFrontEnd)
        } else if s == "UI_ACTION_TYPE_PC_ACCEPT_VIDEO_CHANGES"@ {
            Some(ActionType::TypePcAcceptVideoChanges)
        } else if s == "UI_ACTION_TYPE_SET_REFRESH_RATE"@ {
            Some(ActionType::TypeSetRefreshRate)
        } else if s == "UI_ACTION_TYPE_SET_CAMERA_SENSITIVITY"@ {
            Some(ActionType::TypeSetCameraSensitivity)
        } else if s == "UI_ACTION_TYPE_SET_BOW_CAMERA"@ {
            Some(ActionType::TypeSetBowCamera)
        } else if s == "UI_ACTION_TYPE_SET_CAMERA_RESETTING"@ {
            Some(ActionType::TypeSetCameraResetting)
        } else if s == "UI_ACTION_TYPE_GOTO_ABOUT_SCREEN"@ {
            Some(ActionType::TypeGotoAboutScreen)
        } else if s == "UI_ACTION_TYPE_CLOSE_FRAME"@ {
            Some(ActionType::TypeCloseFrame)
        } else if s == "UI_ACTION_TYPE_SET_SHOW_TARGETING_STATUS"@ {
            Some(ActionType::TypeSetShowTargetingStatus)
        } else if s == "UI_ACTION_TYPE_RESTORE_DEFAULTS_GAMEPLAY"@ {
            Some(ActionType::TypeRestoreDefaultsGameplay)
        } else if s == "UI_ACTION_TYPE_RESTORE_DEFAULTS_VIDEO"@ {
            Some(ActionType::TypeRestoreDefaultsVideo)
        } else if s == "UI_ACTION_TYPE_RESTORE_DEFAULTS_AUDIO"@ {
            Some(ActionType::TypeRestoreDefaultsAudio)
        } else if s == "UI_ACTION_TYPE_SET_EXPRESSION_ITEM_TO_ASSIGN_SWAPPING_PC"@ {
            Some(ActionType::TypeSetExpressionItemToAssignSwappingPc)
        } else if s == "UI_ACTION_TYPE_SET_SPELL_TO_ASSIGN_SWAPPING_PC"@ {
            Some(ActionType::TypeSetSpellToAssignSwappingPc)
        } else if s == "UI_ACTION_TYPE_SET_SPELL_TO_ASSIGN_IN_ITEMS_SWAPPING_PC"@ {
            Some(ActionType::TypeSetSpellToAssignInItemsSwappingPc)
        } else if s == "UI_ACTION_ADD_MESH_CHILD"@ {
            Some(ActionType::AddMeshChild)
        } else if s == "UI_ACTION_LOAD_WEAPON_DESC"@ {
            Some(ActionType::LoadWeaponDesc)
        } else if s == "UI_ACTION_LOAD_CLOTHING_DESC"@ {
            Some(ActionType::LoadClothingDesc)
        } else if s == "UI_ACTION_LOAD_ITEM_DESC"@ {
            Some(ActionType::LoadItemDesc)
        } else if s == "UI_ACTION_LOAD_WEAPON_MENU_ENTRY_NAME"@ {
            Some(ActionType::LoadWeaponMenuEntryName)
        } else if s == "UI_ACTION_LOAD_CLOTHING_MENU_ENTRY_NAME"@ {
            Some(ActionType::LoadClothingMenuEntryName)
        } else if s == "UI_ACTION_LOAD_ITEM_MENU_ENTRY_NAME"@ {
            Some(ActionType::LoadItemMenuEntryName)
        } else if s == "UI_ACTION_LOAD_SELL_ITEM_DESC"@ {
            Some(ActionType::LoadSellItemDesc)
        } else if s == "UI_ACTION_LOAD_SELL_ACTION_MENU"@ {
            Some(ActionType::LoadSellActionMenu)
        } else if s == "UI_ACTION_LOAD_BUY_ITEM_DESC"@ {
            Some(ActionType::LoadBuyItemDesc)
        } else if s == "UI_ACTION_LOAD_BUY_ACTION_MENU"@ {
            Some(ActionType::LoadBuyActionMenu)
        } else if s == "UI_ACTION_LOAD_WANTED_ITEM_DESC"@ {
            Some(ActionType::LoadWantedItemDesc)
        } else if s == "UI_ACTION_LOAD_QUICK_MENU_EXPRESSIONS_ICON"@ {
            Some(ActionType::LoadQuickMenuExpressionsIcon)
        } else if s == "UI_ACTION_LOAD_FILE_DESC"@ {
            Some(ActionType::LoadFileDesc)
        } else if s == "UI_ACTION_LOAD_FILE_SAVEGAME_MINIMAP"@ {
            Some(ActionType::LoadFileSavegameMinimap)
        } else if s == "UI_ACTION_REMOVE_MESH_CHILD"@ {
            Some(ActionType::RemoveMeshChild)
        } else if s == "UI_ACTION_UNLOAD_WEAPON_DESC"@ {
            Some(ActionType::UnloadWeaponDesc)
        } else if s == "UI_ACTION_UNLOAD_CLOTHING_DESC"@ {
            Some(ActionType::UnloadClothingDesc)
        } else if s == "UI_ACTION_UNLOAD_ITEM_DESC"@ {
            Some(ActionType::UnloadItemDesc)
        } else if s == "UI_ACTION_UNLOAD_SELL_ITEM_DESC"@ {
            Some(ActionType::UnloadSellItemDesc)
        } else if s == "UI_ACTION_UNLOAD_SELL_ACTION_MENU"@ {
            Some(ActionType::UnloadSellActionMenu)
        } else if s == "UI_ACTION_UNLOAD_BUY_ITEM_DESC"@ {
            Some(ActionType::UnloadBuyItemDesc)
        } else if s == "UI_ACTION_UNLOAD_BUY_ACTION_MENU"@ {
            Some(ActionType::UnloadBuyActionMenu)
        } else if s == "UI_ACTION_UNLOAD_WANTED_ITEM_DESC"@ {
            Some(ActionType::UnloadWantedItemDesc)
        } else if s == "UI_ACTION_TYPE_CHEAT_MORALITY"@ {
            Some(ActionType::TypeCheatMorality)
        } else if s == "UI_ACTION_TYPE_CHEAT_RENOWN"@ {
            Some(ActionType::TypeCheatRenown)
        } else if s == "UI_ACTION_TYPE_CLOSE_BOAST_MENU"@ {
            Some(ActionType::TypeCloseBoastMenu)
        } else if s == "UI_ACTION_TYPE_PLAY_SOUND"@ {
            Some(ActionType::TypePlaySound)
        } else if s == "UI_ACTION_TYPE_TAKE_QUEST_FOR_BOAST"@ {
            Some(ActionType::TypeTakeQuestForBoast)
        } else if s == "UI_ACTION_TYPE_OPEN_PC_MSN_CHAT"@ {
            Some(ActionType::TypeOpenPcMsnChat)
        } else if s == "UI_ACTION_TYPE_ACTIVATE_MSN_CONVERSATION"@ {
            Some(ActionType::TypeActivateMsnConversation)
        } else if s == "UI_ACTION_TYPE_SEND_MESSAGE"@ {
            Some(ActionType::TypeSendMessage)
        } else if s == "UI_ACTION_TYPE_SELECT_CONTACT"@ {
            Some(ActionType::TypeSelectContact)
        } else if s == "UI_ACTION_TYPE_SCROLL_VIEWPORT_UP"@ {
            Some(ActionType::TypeScrollViewportUp)
        } else if s == "UI_ACTION_TYPE_SCROLL_VIEWPORT_DOWN"@ {
            Some(ActionType::TypeScrollViewportDown)
        } else if s == "UI_ACTION_TYPE_SCROLL_LIST_DOWN"@ {
            Some(ActionType::TypeScrollListDown)
        } else if s == "UI_ACTION_TYPE_SCROLL_LIST_UP"@ {
            Some(ActionType::TypeScrollListUp)
        } else if s == "UI_ACTION_TYPE_OPEN_SCOREBOARD"@ {
            Some(ActionType::TypeOpenScoreboard)
        } else if s == "UI_ACTION_TYPE_CHOOSE_CLAN"@ {
            Some(ActionType::TypeChooseClan)
        } else if s == "UI_ACTION_TYPE_PHOTO_CAPTION"@ {
            Some(ActionType::TypePhotoCaption)
        } else if s == "UI_ACTION_TYPE_DISCARD_PHOTO"@ {
            Some(ActionType::TypeDiscardPhoto)
        } else if s == "UI_ACTION_TYPE_GO_TO_SCOREBOARD_SCREEN"@ {
            Some(ActionType::TypeGoToScoreboardScreen)
        } else if s == "UI_ACTION_TYPE_ACTIVATE_EDITBOX"@ {
            Some(ActionType::TypeActivateEditbox)
        } else if s == "UI_ACTION_TYPE_DEACTIVATE_EDITBOX"@ {
            Some(ActionType::TypeDeactivateEditbox)
        } else if s == "UI_ACTION_TYPE_SET_EDITBOX_VALUES"@ {
            Some(ActionType::TypeSetEditboxValues)
        } else if s == "UI_ACTION_TYPE_SCOREBOARD_OK"@ {
            Some(ActionType::TypeScoreboardOk)
        } else if s == "UI_ACTION_TYPE_LOAD_PHOTO"@ {
            Some(ActionType::TypeLoadPhoto)
        } else if s == "UI_ACTION_TYPE_SCROLL_PHOTO_DOWN"@ {
            Some(ActionType::TypeScrollPhotoDown)
        } else if s == "UI_ACTION_TYPE_SCROLL_PHOTO_UP"@ {
            Some(ActionType::TypeScrollPhotoUp)
        } else if s == "UI_ACTION_TYPE_NEXT_SCREEN_START"@ {
            Some(ActionType::TypeNextScreenStart)
        } else if s == "UI_ACTION_TYPE_OPEN_PHOTOJOURNAL"@ {
            Some(ActionType::TypeOpenPhotojournal)
        } else if s == "UI_ACTION_TYPE_OPEN_PHOTO"@ {
            Some(ActionType::TypeOpenPhoto)
        } else if s == "UI_ACTION_TYPE_EXIT_PHOTOJOURNAL_CAPTURE"@ {
            Some(ActionType::TypeExitPhotojournalCapture)
        } else {
            None
        }
    }

    /// The C++ enumerator symbol text defs use for `self`.
    pub fn symbol(self) -> (r: &'static str)
        ensures
            r@ == self.symbol_of(),
    {
        match self {
            ActionType::TypeNone => "UI_ACTION_TYPE_NONE",
            ActionType::TypeWield => "UI_ACTION_TYPE_WIELD",
            ActionType::TypeAugment => "UI_ACTION_TYPE_AUGMENT",
            ActionType::TypeChangestate => "UI_ACTION_TYPE_CHANGESTATE",
            ActionType::TypeTakeBoast => "UI_ACTION_TYPE_TAKE_BOAST",
            ActionType::TypeTeleport => "UI_ACTION_TYPE_TELEPORT",
            ActionType::TypeTakeQuest => "UI_ACTION_TYPE_TAKE_QUEST",
            ActionType::TypeBuyStat => "UI_ACTION_TYPE_BUY_STAT",
            ActionType::TypeBuyAbility => "UI_ACTION_TYPE_BUY_ABILITY",
            ActionType::TypeNextScreenOptions => "UI_ACTION_TYPE_NEXT_SCREEN_OPTIONS",
            ActionType::TypeNextScreenLiveAware => "UI_ACTION_TYPE_NEXT_SCREEN_LIVE_AWARE",
            ActionType::TypeNextScreenExtras => "UI_ACTION_TYPE_NEXT_SCREEN_EXTRAS",
            ActionType::TypeNextScreenAudioOptions => "UI_ACTION_TYPE_NEXT_SCREEN_AUDIO_OPTIONS",
            ActionType::TypeNextScreenVideoOptions => "UI_ACTION_TYPE_NEXT_SCREEN_VIDEO_OPTIONS",
            ActionType::TypeNextScreenCameraOptions => "UI_ACTION_TYPE_NEXT_SCREEN_CAMERA_OPTIONS",
            ActionType::TypeNewGame => "UI_ACTION_TYPE_NEW_GAME",
            ActionType::TypeNextScreenProfiles => "UI_ACTION_TYPE_NEXT_SCREEN_PROFILES",
            ActionType::TypeLoadGame => "UI_ACTION_TYPE_LOAD_GAME",
            ActionType::TypeLogin => "UI_ACTION_TYPE_LOGIN",
            ActionType::TypeFriends => "UI_ACTION_TYPE_FRIENDS",
            ActionType::TypeAppearOffline => "UI_ACTION_TYPE_APPEAR_OFFLINE",
            ActionType::TypeDelete => "UI_ACTION_TYPE_DELETE",
            ActionType::TypeAddChild => "UI_ACTION_TYPE_ADD_CHILD",
            ActionType::TypeAddChildAugmentation => "UI_ACTION_TYPE_ADD_CHILD_AUGMENTATION",
            ActionType::TypeDeleteAll => "UI_ACTION_TYPE_DELETE_ALL",
            ActionType::TypeUseItem => "UI_ACTION_TYPE_USE_ITEM",
            ActionType::TypeItemAssignLeft => "UI_ACTION_TYPE_ITEM_ASSIGN_LEFT",
            ActionType::TypeItemAssignRight => "UI_ACTION_TYPE_ITEM_ASSIGN_RIGHT",
            ActionType::TypeItemAssignDown => "UI_ACTION_TYPE_ITEM_ASSIGN_DOWN",
            ActionType::TypeItemAssignUp => "UI_ACTION_TYPE_ITEM_ASSIGN_UP",
            ActionType::TypeClothingWear => "UI_ACTION_TYPE_CLOTHING_WEAR",
            ActionType::TypeUpdateMannequinClothing => "UI_ACTION_TYPE_UPDATE_MANNEQUIN_CLOTHING",
            ActionType::TypeBuy => "UI_ACTION_TYPE_BUY",
            ActionType::TypeSell => "UI_ACTION_TYPE_SELL",
            ActionType::TypeDeletePrevious => "UI_ACTION_TYPE_DELETE_PREVIOUS",
            ActionType::TypeResetClothingMannequin => "UI_ACTION_TYPE_RESET_CLOTHING_MANNEQUIN",
            ActionType::TypeSetBrightness => "UI_ACTION_TYPE_SET_BRIGHTNESS",
            ActionType::TypeSetSound => "UI_ACTION_TYPE_SET_SOUND",
            ActionType::TypeSetMusic => "UI_ACTION_TYPE_SET_MUSIC",
            ActionType::TypeSetCameraRotation => "UI_ACTION_TYPE_SET_CAMERA_ROTATION",
            ActionType::TypeSetCameraUpDown => "UI_ACTION_TYPE_SET_CAMERA_UP_DOWN",
            ActionType::TypeSetVibration => "UI_ACTION_TYPE_SET_VIBRATION",
            ActionType::TypeSetHeadphones => "UI_ACTION_TYPE_SET_HEADPHONES",
            ActionType::TypeSetSubtitles => "UI_ACTION_TYPE_SET_SUBTITLES",
            ActionType::TypeOpenMap => "UI_ACTION_TYPE_OPEN_MAP",
            ActionType::TypeOpenAbilities => "UI_ACTION_TYPE_OPEN_ABILITIES",
            ActionType::TypeOpenWeapons => "UI_ACTION_TYPE_OPEN_WEAPONS",
            ActionType::TypeOpenStats => "UI_ACTION_TYPE_OPEN_STATS",
            ActionType::TypeOpenClothing => "UI_ACTION_TYPE_OPEN_CLOTHING",
            ActionType::TypeOpenItems => "UI_ACTION_TYPE_OPEN_ITEMS",
            ActionType::TypeCloseMap => "UI_ACTION_TYPE_CLOSE_MAP",
            ActionType::TypeCloseAbilities => "UI_ACTION_TYPE_CLOSE_ABILITIES",
            ActionType::TypeCloseWeapons => "UI_ACTION_TYPE_CLOSE_WEAPONS",
            ActionType::TypeCloseStats => "UI_ACTION_TYPE_CLOSE_STATS",
            ActionType::TypeCloseClothing => "UI_ACTION_TYPE_CLOSE_CLOTHING",
            ActionType::TypeCloseItems => "UI_ACTION_TYPE_CLOSE_ITEMS",
            ActionType::TypeCloseMenu => "UI_ACTION_TYPE_CLOSE_MENU",
            ActionType::TypeGuildSealRecall => "UI_ACTION_TYPE_GUILD_SEAL_RECALL",
            ActionType::TypeLoad => "UI_ACTION_TYPE_LOAD",
            ActionType::TypeSave => "UI_ACTION_TYPE_SAVE",
            ActionType::TypeClosePauseMenu => "UI_ACTION_TYPE_CLOSE_PAUSE_MENU",
            ActionType::TypePlayMovie => "UI_ACTION_TYPE_PLAY_MOVIE",
            ActionType::TypeNextScreenProfilesSavedGames => "UI_ACTION_TYPE_NEXT_SCREEN_PROFILES_SAVED_GAMES",
            ActionType::TypeNextScreenCredits => "UI_ACTION_TYPE_NEXT_SCREEN_CREDITS",
            ActionType::TypeConstructWeaponsList => "UI_ACTION_TYPE_CONSTRUCT_WEAPONS_LIST",
            ActionType::TypeConstructClothingList => "UI_ACTION_TYPE_CONSTRUCT_CLOTHING_LIST",
            ActionType::TypeConstructItemsList => "UI_ACTION_TYPE_CONSTRUCT_ITEMS_LIST",
            ActionType::TypeConstructSkillsList => "UI_ACTION_TYPE_CONSTRUCT_SKILLS_LIST",
            ActionType::TypeConstructQuestsList => "UI_ACTION_TYPE_CONSTRUCT_QUESTS_LIST",
            ActionType::TypeConstructMapList => "UI_ACTION_TYPE_CONSTRUCT_MAP_LIST",
            ActionType::TypeConstructStatsList => "UI_ACTION_TYPE_CONSTRUCT_STATS_LIST",
            ActionType::TypeChangeChildState => "UI_ACTION_TYPE_CHANGE_CHILD_STATE",
            ActionType::TypeConstructExperienceList => "UI_ACTION_TYPE_CONSTRUCT_EXPERIENCE_LIST",
            ActionType::TypeConstructPersonalityList => "UI_ACTION_TYPE_CONSTRUCT_PERSONALITY_LIST",
            ActionType::TypeSetHud => "UI_ACTION_TYPE_SET_HUD",
            ActionType::TypeCloseQuickAccessMenu => "UI_ACTION_TYPE_CLOSE_QUICK_ACCESS_MENU",
            ActionType::TypeCloseTeleportMenu => "UI_ACTION_TYPE_CLOSE_TELEPORT_MENU",
            ActionType::TypeBuyBulk => "UI_ACTION_TYPE_BUY_BULK",
            ActionType::TypeSellBulk => "UI_ACTION_TYPE_SELL_BULK",
            ActionType::TypeSetTutorials => "UI_ACTION_TYPE_SET_TUTORIALS",
            ActionType::TypeSetShowBuddyNames => "UI_ACTION_TYPE_SET_SHOW_BUDDY_NAMES",
            ActionType::TypeQuitToFrontEnd => "UI_ACTION_TYPE_QUIT_TO_FRONT_END",
            ActionType::TypePreviousScreen => "UI_ACTION_TYPE_PREVIOUS_SCREEN",
            ActionType::TypeAcceptChanges => "UI_ACTION_TYPE_ACCEPT_CHANGES",
            ActionType::TypeSetDialogue => "UI_ACTION_TYPE_SET_DIALOGUE",
            ActionType::TypeXlive => "UI_ACTION_TYPE_XLIVE",
            ActionType::TypeXliveBack => "UI_ACTION_TYPE_XLIVE_BACK",
            ActionType::TypeLogout => "UI_ACTION_TYPE_LOGOUT",
            ActionType::TypeDemos => "UI_ACTION_TYPE_DEMOS",
            ActionType::TypeSetGuildMaster => "UI_ACTION_TYPE_SET_GUILD_MASTER",
            ActionType::TypeSetHudTooltips => "UI_ACTION_TYPE_SET_HUD_TOOLTIPS",
            ActionType::TypeUndoBuyAbility => "UI_ACTION_TYPE_UNDO_BUY_ABILITY",
            ActionType::TypeUndoBuyStat => "UI_ACTION_TYPE_UNDO_BUY_STAT",
            ActionType::TypeGiveExclusiveInput => "UI_ACTION_TYPE_GIVE_EXCLUSIVE_INPUT",
            ActionType::TypeRemoveExclusiveInput => "UI_ACTION_TYPE_REMOVE_EXCLUSIVE_INPUT",
            ActionType::TypeSendBackEvent => "UI_ACTION_TYPE_SEND_BACK_EVENT",
            ActionType::TypeShowSpellSelection => "UI_ACTION_TYPE_SHOW_SPELL_SELECTION",
            ActionType::TypeSetSpellToAssign => "UI_ACTION_TYPE_SET_SPELL_TO_ASSIGN",
            ActionType::TypeTeleportToBoast => "UI_ACTION_TYPE_TELEPORT_TO_BOAST",
            ActionType::TypeDropQuest => "UI_ACTION_TYPE_DROP_QUEST",
            ActionType::TypeAssignSpell => "UI_ACTION_TYPE_ASSIGN_SPELL",
            ActionType::TypeUnassignSpell => "UI_ACTION_TYPE_UNASSIGN_SPELL",
            ActionType::TypeResetAssignedSpells => "UI_ACTION_TYPE_RESET_ASSIGNED_SPELLS",
            ActionType::TypeChangeAlpha => "UI_ACTION_TYPE_CHANGE_ALPHA",
            ActionType::TypeChangeNumber => "UI_ACTION_TYPE_CHANGE_NUMBER",
            ActionType::TypeDeleteProfile => "UI_ACTION_TYPE_DELETE_PROFILE",
            ActionType::TypeGoToDeleteProfileScreen => "UI_ACTION_TYPE_GO_TO_DELETE_PROFILE_SCREEN",
            ActionType::TypePopMapState => "UI_ACTION_TYPE_POP_MAP_STATE",
            ActionType::TypeNextScreenInvalidProfile => "UI_ACTION_TYPE_NEXT_SCREEN_INVALID_PROFILE",
            ActionType::TypeNextScreenInvalidSave => "UI_ACTION_TYPE_NEXT_SCREEN_INVALID_SAVE",
            ActionType::TypeFreeSpaceOnT => "UI_ACTION_TYPE_FREE_SPACE_ON_T",
            ActionType::TypeFreeSpaceOnU => "UI_ACTION_TYPE_FREE_SPACE_ON_U",
            ActionType::TypeFlashDpadDown => "UI_ACTION_TYPE_FLASH_DPAD_DOWN",
            ActionType::TypeFlashDpadUp => "UI_ACTION_TYPE_FLASH_DPAD_UP",
            ActionType::TypeFlashDpadLeft => "UI_ACTION_TYPE_FLASH_DPAD_LEFT",
            ActionType::TypeFlashDpadRight => "UI_ACTION_TYPE_FLASH_DPAD_RIGHT",
            ActionType::TypeStopDpadFlashing => "UI_ACTION_TYPE_STOP_DPAD_FLASHING",
            ActionType::TypeConstructLogbookList => "UI_ACTION_TYPE_CONSTRUCT_LOGBOOK_LIST",
            ActionType::TypeGoToMainMenuFromStart => "UI_ACTION_TYPE_GO_TO_MAIN_MENU_FROM_START",
            ActionType::TypeSendOwnedEvent => "UI_ACTION_TYPE_SEND_OWNED_EVENT",
            ActionType::TypeSendEvent => "UI_ACTION_TYPE_SEND_EVENT",
            ActionType::TypeMoveComponent => "UI_ACTION_TYPE_MOVE_COMPONENT",
            ActionType::TypeExitLiveGui => "UI_ACTION_TYPE_EXIT_LIVE_GUI",
            ActionType::TypeOpenPcSkillsMenu => "UI_ACTION_TYPE_OPEN_PC_SKILLS_MENU",
            ActionType::TypeConstructExpressionsList => "UI_ACTION_TYPE_CONSTRUCT_EXPRESSIONS_LIST",
            ActionType::TypeScrollActiveListUp => "UI_ACTION_TYPE_SCROLL_ACTIVE_LIST_UP",
            ActionType::TypeScrollActiveListDown => "UI_ACTION_TYPE_SCROLL_ACTIVE_LIST_DOWN",
            ActionType::TypeOpenPcInventoryMenu => "UI_ACTION_TYPE_OPEN_PC_INVENTORY_MENU",
            ActionType::TypeOpenPcOptionsMenu => "UI_ACTION_TYPE_OPEN_PC_OPTIONS_MENU",
            ActionType::TypeConstructPcStyleCardsList => "UI_ACTION_TYPE_CONSTRUCT_PC_STYLE_CARDS_LIST",
            ActionType::TypeOpenPcBuyTradingGoodsList => "UI_ACTION_TYPE_OPEN_PC_BUY_TRADING_GOODS_LIST",
            ActionType::TypeClosePcBuyTradingGoodsList => "UI_ACTION_TYPE_CLOSE_PC_BUY_TRADING_GOODS_LIST",
            ActionType::TypeConstructMagicListPc => "UI_ACTION_TYPE_CONSTRUCT_MAGIC_LIST_PC",
            ActionType::TypeAssignSpellPc => "UI_ACTION_TYPE_ASSIGN_SPELL_PC",
            ActionType::TypeObserveEvent => "UI_ACTION_TYPE_OBSERVE_EVENT",
            ActionType::TypeSetSpellToAssignPc => "UI_ACTION_TYPE_SET_SPELL_TO_ASSIGN_PC",
            ActionType::TypeResetAssignedSpellsPc => "UI_ACTION_TYPE_RESET_ASSIGNED_SPELLS_PC",
            ActionType::TypeUnassignSpellPc => "UI_ACTION_TYPE_UNASSIGN_SPELL_PC",
            ActionType::TypeIgnoreEvent => "UI_ACTION_TYPE_IGNORE_EVENT",
            ActionType::TypeNextScreenProfilesForDelete => "UI_ACTION_TYPE_NEXT_SCREEN_PROFILES_FOR_DELETE",
            ActionType::TypeAssignExpressionItemPc => "UI_ACTION_TYPE_ASSIGN_EXPRESSION_ITEM_PC",
            ActionType::TypeUnassignExpressionItemPc => "UI_ACTION_TYPE_UNASSIGN_EXPRESSION_ITEM_PC",
            ActionType::TypeSetExpressionItemToAssignPc => "UI_ACTION_TYPE_SET_EXPRESSION_ITEM_TO_ASSIGN_PC",
            ActionType::TypeOpenPcMapMenu => "UI_ACTION_TYPE_OPEN_PC_MAP_MENU",
            ActionType::TypeOpenPcStatusMenu => "UI_ACTION_TYPE_OPEN_PC_STATUS_MENU",
            ActionType::TypeOpenPcLogBook => "UI_ACTION_TYPE_OPEN_PC_LOG_BOOK",
            ActionType::TypeConstructPcQuestsList => "UI_ACTION_TYPE_CONSTRUCT_PC_QUESTS_LIST",
            ActionType::TypeSetResolution => "UI_ACTION_TYPE_SET_RESOLUTION",
            ActionType::TypeSetShadowDetail => "UI_ACTION_TYPE_SET_SHADOW_DETAIL",
            ActionType::TypeSetDecals => "UI_ACTION_TYPE_SET_DECALS",
            ActionType::TypeSetWeatherEffects => "UI_ACTION_TYPE_SET_WEATHER_EFFECTS",
            ActionType::TypeSetVerticalSync => "UI_ACTION_TYPE_SET_VERTICAL_SYNC",
            ActionType::TypeSetGlowEffects => "UI_ACTION_TYPE_SET_GLOW_EFFECTS",
            ActionType::TypeSetReverseStereo => "UI_ACTION_TYPE_SET_REVERSE_STEREO",
            ActionType::TypeSetAntialiasing => "UI_ACTION_TYPE_SET_ANTIALIASING",
            ActionType::TypeSetTextureDetail => "UI_ACTION_TYPE_SET_TEXTURE_DETAIL",
            ActionType::TypeSetMeshResolution => "UI_ACTION_TYPE_SET_MESH_RESOLUTION",
            ActionType::TypeSetWaterReflection => "UI_ACTION_TYPE_SET_WATER_REFLECTION",
            ActionType::TypeSetLandscapeDetail => "UI_ACTION_TYPE_SET_LANDSCAPE_DETAIL",
            ActionType::TypeSetParticleDetail => "UI_ACTION_TYPE_SET_PARTICLE_DETAIL",
            ActionType::TypeAddObserver => "UI_ACTION_TYPE_ADD_OBSERVER",
            ActionType::TypeScrollActiveListUntilChildContaining => "UI_ACTION_TYPE_SCROLL_ACTIVE_LIST_UNTIL_CHILD_CONTAINING",
            ActionType::TypeGoBack => "UI_ACTION_TYPE_GO_BACK",
            ActionType::TypeCloseActiveMenu => "UI_ACTION_TYPE_CLOSE_ACTIVE_MENU",
            ActionType::TypeRemoveObserver => "UI_ACTION_TYPE_REMOVE_OBSERVER",
            ActionType::TypeTavernGameBetDown => "UI_ACTION_TYPE_TAVERN_GAME_BET_DOWN",
            ActionType::TypeTavernGameBetUp => "UI_ACTION_TYPE_TAVERN_GAME_BET_UP",
            ActionType::TypeRespawn => "UI_ACTION_TYPE_RESPAWN",
            ActionType::TypeContinue => "UI_ACTION_TYPE_CONTINUE",
            ActionType::TypeOpenPcSellTradingGoodsList => "UI_ACTION_TYPE_OPEN_PC_SELL_TRADING_GOODS_LIST",
            ActionType::TypeOpenPcWantedTradingGoodsList => "UI_ACTION_TYPE_OPEN_PC_WANTED_TRADING_GOODS_LIST",
            ActionType::TypeConstructPcExperienceList => "UI_ACTION_TYPE_CONSTRUCT_PC_EXPERIENCE_LIST",
            ActionType::TypeGoToRedefineKeysMenu => "UI_ACTION_TYPE_GO_TO_REDEFINE_KEYS_MENU",
            ActionType::TypeResetKeys => "UI_ACTION_TYPE_RESET_KEYS",
            ActionType::TypeAssignSpellToItemSlotPc => "UI_ACTION_TYPE_ASSIGN_SPELL_TO_ITEM_SLOT_PC",
            ActionType::TypeConstructStyleCardsList => "UI_ACTION_TYPE_CONSTRUCT_STYLE_CARDS_LIST",
            ActionType::TypeScrollDescriptionDown => "UI_ACTION_TYPE_SCROLL_DESCRIPTION_DOWN",
            ActionType::TypeScrollDescriptionUp => "UI_ACTION_TYPE_SCROLL_DESCRIPTION_UP",
            ActionType::TypeConstructPcPersonalityList => "UI_ACTION_TYPE_CONSTRUCT_PC_PERSONALITY_LIST",
            ActionType::TypeSendOwnedEventForceObservation => "UI_ACTION_TYPE_SEND_OWNED_EVENT_FORCE_OBSERVATION",
            ActionType::TypeGoToMainMenuFromProfileList => "UI_ACTION_TYPE_GO_TO_MAIN_MENU_FROM_PROFILE_LIST",
            ActionType::TypeNewProfile => "UI_ACTION_TYPE_NEW_PROFILE",
            ActionType::TypeNewProfileReturnPressed => "UI_ACTION_TYPE_NEW_PROFILE_RETURN_PRESSED",
            ActionType::TypeNewProfileEscapePressed => "UI_ACTION_TYPE_NEW_PROFILE_ESCAPE_PRESSED",
            ActionType::TypeQuitGame => "UI_ACTION_TYPE_QUIT_GAME",
            ActionType::TypeNextScreenOptionsSubMenu => "UI_ACTION_TYPE_NEXT_SCREEN_OPTIONS_SUB_MENU",
            ActionType::TypeSetMeshDetail => "UI_ACTION_TYPE_SET_MESH_DETAIL",
            ActionType::TypeSetEffectsDetail => "UI_ACTION_TYPE_SET_EFFECTS_DETAIL",
            ActionType::TypeSetScreenAspectRatio => "UI_ACTION_TYPE_SET_SCREEN_ASPECT_RATIO",
            ActionType::TypeApplyProfileValues => "UI_ACTION_TYPE_APPLY_PROFILE_VALUES",
            ActionType::TypeCloseActiveTradeMenu => "UI_ACTION_TYPE_CLOSE_ACTIVE_TRADE_MENU",
            ActionType::TypeScrollActiveListDownMax => "UI_ACTION_TYPE_SCROLL_ACTIVE_LIST_DOWN_MAX",
            ActionType::TypeScrollActiveListUpMax => "UI_ACTION_TYPE_SCROLL_ACTIVE_LIST_UP_MAX",
            ActionType::TypeScrollDescriptionDownMax => "UI_ACTION_TYPE_SCROLL_DESCRIPTION_DOWN_MAX",
            ActionType::TypeScrollDescriptionUpMax => "UI_ACTION_TYPE_SCROLL_DESCRIPTION_UP_MAX",
            ActionType::TypeScrollDescriptionDownOnePixel => "UI_ACTION_TYPE_SCROLL_DESCRIPTION_DOWN_ONE_PIXEL",
            ActionType::TypeScrollDescriptionUpOnePixel => "UI_ACTION_TYPE_SCROLL_DESCRIPTION_UP_ONE_PIXEL",
            ActionType::TypeCloseTradeMenuIfLeaf => "UI_ACTION_TYPE_CLOSE_TRADE_MENU_IF_LEAF",
            ActionType::TypeExitLiveGuiIfLeaf => "UI_ACTION_TYPE_EXIT_LIVE_GUI_IF_LEAF",
            ActionType::TypeResetKeysWasd => "UI_ACTION_TYPE_RESET_KEYS_WASD",
            ActionType::TypeNextScreenOptionsScoreboard => "UI_ACTION_TYPE_NEXT_SCREEN_OPTIONS_SCOREBOARD",
            ActionType::TypeSetControlMethod => "UI_ACTION_TYPE_SET_CONTROL_METHOD",
            ActionType::TypeGotoQuitPrompt => "UI_ACTION_TYPE_GOTO_QUIT_PROMPT",
            ActionType::TypePcQuitToFrontEnd => "UI_ACTION_TYPE_PC_QUIT_TO_FRONT_END",
            ActionType::TypePcAcceptVideoChanges => "UI_ACTION_TYPE_PC_ACCEPT_VIDEO_CHANGES",
            ActionType::TypeSetRefreshRate => "UI_ACTION_TYPE_SET_REFRESH_RATE",
            ActionType::TypeSetCameraSensitivity => "UI_ACTION_TYPE_SET_CAMERA_SENSITIVITY",
            ActionType::TypeSetBowCamera => "UI_ACTION_TYPE_SET_BOW_CAMERA",
            ActionType::TypeSetCameraResetting => "UI_ACTION_TYPE_SET_CAMERA_RESETTING",
            ActionType::TypeGotoAboutScreen => "UI_ACTION_TYPE_GOTO_ABOUT_SCREEN",
            ActionType::TypeCloseFrame => "UI_ACTION_TYPE_CLOSE_FRAME",
            ActionType::TypeSetShowTargetingStatus => "UI_ACTION_TYPE_SET_SHOW_TARGETING_STATUS",
            ActionType::TypeRestoreDefaultsGameplay => "UI_ACTION_TYPE_RESTORE_DEFAULTS_GAMEPLAY",
            ActionType::TypeRestoreDefaultsVideo => "UI_ACTION_TYPE_RESTORE_DEFAULTS_VIDEO",
            ActionType::TypeRestoreDefaultsAudio => "UI_ACTION_TYPE_RESTORE_DEFAULTS_AUDIO",
            ActionType::TypeSetExpressionItemToAssignSwappingPc => "UI_ACTION_TYPE_SET_EXPRESSION_ITEM_TO_ASSIGN_SWAPPING_PC",
            ActionType::TypeSetSpellToAssignSwappingPc => "UI_ACTION_TYPE_SET_SPELL_TO_ASSIGN_SWAPPING_PC",
            ActionType::TypeSetSpellToAssignInItemsSwappingPc => "UI_ACTION_TYPE_SET_SPELL_TO_ASSIGN_IN_ITEMS_SWAPPING_PC",
            ActionType::AddMeshChild => "UI_ACTION_ADD_MESH_CHILD",
            ActionType::LoadWeaponDesc => "UI_ACTION_LOAD_WEAPON_DESC",
            ActionType::LoadClothingDesc => "UI_ACTION_LOAD_CLOTHING_DESC",
            ActionType::LoadItemDesc => "UI_ACTION_LOAD_ITEM_DESC",
            ActionType::LoadWeaponMenuEntryName => "UI_ACTION_LOAD_WEAPON_MENU_ENTRY_NAME",
            ActionType::LoadClothingMenuEntryName => "UI_ACTION_LOAD_CLOTHING_MENU_ENTRY_NAME",
            ActionType::LoadItemMenuEntryName => "UI_ACTION_LOAD_ITEM_MENU_ENTRY_NAME",
            ActionType::LoadSellItemDesc => "UI_ACTION_LOAD_SELL_ITEM_DESC",
            ActionType::LoadSellActionMenu => "UI_ACTION_LOAD_SELL_ACTION_MENU",
            ActionType::LoadBuyItemDesc => "UI_ACTION_LOAD_BUY_ITEM_DESC",
            ActionType::LoadBuyActionMenu => "UI_ACTION_LOAD_BUY_ACTION_MENU",
            ActionType::LoadWantedItemDesc => "UI_ACTION_LOAD_WANTED_ITEM_DESC",
            ActionType::LoadQuickMenuExpressionsIcon => "UI_ACTION_LOAD_QUICK_MENU_EXPRESSIONS_ICON",
            ActionType::LoadFileDesc => "UI_ACTION_LOAD_FILE_DESC",
            ActionType::LoadFileSavegameMinimap => "UI_ACTION_LOAD_FILE_SAVEGAME_MINIMAP",
            ActionType::RemoveMeshChild => "UI_ACTION_REMOVE_MESH_CHILD",
            ActionType::UnloadWeaponDesc => "UI_ACTION_UNLOAD_WEAPON_DESC",
            ActionType::UnloadClothingDesc => "UI_ACTION_UNLOAD_CLOTHING_DESC",
            ActionType::UnloadItemDesc => "UI_ACTION_UNLOAD_ITEM_DESC",
            ActionType::UnloadSellItemDesc => "UI_ACTION_UNLOAD_SELL_ITEM_DESC",
            ActionType::UnloadSellActionMenu => "UI_ACTION_UNLOAD_SELL_ACTION_MENU",
            ActionType::UnloadBuyItemDesc => "UI_ACTION_UNLOAD_BUY_ITEM_DESC",
            ActionType::UnloadBuyActionMenu => "UI_ACTION_UNLOAD_BUY_ACTION_MENU",
            ActionType::UnloadWantedItemDesc => "UI_ACTION_UNLOAD_WANTED_ITEM_DESC",
            ActionType::TypeCheatMorality => "UI_ACTION_TYPE_CHEAT_MORALITY",
            ActionType::TypeCheatRenown => "UI_ACTION_TYPE_CHEAT_RENOWN",
            ActionType::TypeCloseBoastMenu => "UI_ACTION_TYPE_CLOSE_BOAST_MENU",
            ActionType::TypePlaySound => "UI_ACTION_TYPE_PLAY_SOUND",
            ActionType::TypeTakeQuestForBoast => "UI_ACTION_TYPE_TAKE_QUEST_FOR_BOAST",
            ActionType::TypeOpenPcMsnChat => "UI_ACTION_TYPE_OPEN_PC_MSN_CHAT",
            ActionType::TypeActivateMsnConversation => "UI_ACTION_TYPE_ACTIVATE_MSN_CONVERSATION",
            ActionType::TypeSendMessage => "UI_ACTION_TYPE_SEND_MESSAGE",
            ActionType::TypeSelectContact => "UI_ACTION_TYPE_SELECT_CONTACT",
            ActionType::TypeScrollViewportUp => "UI_ACTION_TYPE_SCROLL_VIEWPORT_UP",
            ActionType::TypeScrollViewportDown => "UI_ACTION_TYPE_SCROLL_VIEWPORT_DOWN",
            ActionType::TypeScrollListDown => "UI_ACTION_TYPE_SCROLL_LIST_DOWN",
            ActionType::TypeScrollListUp => "UI_ACTION_TYPE_SCROLL_LIST_UP",
            ActionType::TypeOpenScoreboard => "UI_ACTION_TYPE_OPEN_SCOREBOARD",
            ActionType::TypeChooseClan => "UI_ACTION_TYPE_CHOOSE_CLAN",
            ActionType::TypePhotoCaption => "UI_ACTION_TYPE_PHOTO_CAPTION",
            ActionType::TypeDiscardPhoto => "UI_ACTION_TYPE_DISCARD_PHOTO",
            ActionType::TypeGoToScoreboardScreen => "UI_ACTION_TYPE_GO_TO_SCOREBOARD_SCREEN",
            ActionType::TypeActivateEditbox => "UI_ACTION_TYPE_ACTIVATE_EDITBOX",
            ActionType::TypeDeactivateEditbox => "UI_ACTION_TYPE_DEACTIVATE_EDITBOX",
            ActionType::TypeSetEditboxValues => "UI_ACTION_TYPE_SET_EDITBOX_VALUES",
            ActionType::TypeScoreboardOk => "UI_ACTION_TYPE_SCOREBOARD_OK",
            ActionType::TypeLoadPhoto => "UI_ACTION_TYPE_LOAD_PHOTO",
            ActionType::TypeScrollPhotoDown => "UI_ACTION_TYPE_SCROLL_PHOTO_DOWN",
            ActionType::TypeScrollPhotoUp => "UI_ACTION_TYPE_SCROLL_PHOTO_UP",
            ActionType::TypeNextScreenStart => "UI_ACTION_TYPE_NEXT_SCREEN_START",
            ActionType::TypeOpenPhotojournal => "UI_ACTION_TYPE_OPEN_PHOTOJOURNAL",
            ActionType::TypeOpenPhoto => "UI_ACTION_TYPE_OPEN_PHOTO",
            ActionType::TypeExitPhotojournalCapture => "UI_ACTION_TYPE_EXIT_PHOTOJOURNAL_CAPTURE",
        }
    }

    /// The variant a C++ enumerator symbol names.
    pub fn from_symbol(s: &str) -> (r: Option<Self>)
        ensures
            r == Self::symbol_lookup(s@),
    {
        if str_eq(s, "UI_ACTION_TYPE_NONE") {
            return Some(ActionType::TypeNone);
        }
        if str_eq(s, "UI_ACTION_TYPE_WIELD") {
            return Some(ActionType::TypeWield);
        }
        if str_eq(s, "UI_ACTION_TYPE_AUGMENT") {
            return Some(ActionType::TypeAugment);
        }
        if str_eq(s, "UI_ACTION_TYPE_CHANGESTATE") {
            return Some(ActionType::TypeChangestate);
        }
        if str_eq(s, "UI_ACTION_TYPE_TAKE_BOAST") {
            return Some(ActionType::TypeTakeBoast);
        }
        if str_eq(s, "UI_ACTION_TYPE_TELEPORT") {
            return Some(ActionType::TypeTeleport);
        }
        if str_eq(s, "UI_ACTION_TYPE_TAKE_QUEST") {
            return Some(ActionType::TypeTakeQuest);
        }
        if str_eq(s, "UI_ACTION_TYPE_BUY_STAT") {
            return Some(ActionType::TypeBuyStat);
        }
        if str_eq(s, "UI_ACTION_TYPE_BUY_ABILITY") {
            return Some(ActionType::TypeBuyAbility);
        }
        if str_eq(s, "UI_ACTION_TYPE_NEXT_SCREEN_OPTIONS") {
            return Some(ActionType::TypeNextScreenOptions);
        }
        if str_eq(s, "UI_ACTION_TYPE_NEXT_SCREEN_LIVE_AWARE") {
            return Some(ActionType::TypeNextScreenLiveAware);
        }
        if str_eq(s, "UI_ACTION_TYPE_NEXT_SCREEN_EXTRAS") {
            return Some(ActionType::TypeNextScreenExtras);
        }
        if str_eq(s, "UI_ACTION_TYPE_NEXT_SCREEN_AUDIO_OPTIONS") {
            return Some(ActionType::TypeNextScreenAudioOptions);
        }
        if str_eq(s, "UI_ACTION_TYPE_NEXT_SCREEN_VIDEO_OPTIONS") {
            return Some(ActionType::TypeNextScreenVideoOptions);
        }
        if str_eq(s, "UI_ACTION_TYPE_NEXT_SCREEN_CAMERA_OPTIONS") {
            return Some(ActionType::TypeNextScreenCameraOptions);
        }
        if str_eq(s, "UI_ACTION_TYPE_NEW_GAME") {
            return Some(ActionType::TypeNewGame);
        }
        if str_eq(s, "UI_ACTION_TYPE_NEXT_SCREEN_PROFILES") {
            return Some(ActionType::TypeNextScreenProfiles);
        }
        if str_eq(s, "UI_ACTION_TYPE_LOAD_GAME") {
            return Some(ActionType::TypeLoadGame);
        }
        if str_eq(s, "UI_ACTION_TYPE_LOGIN") {
            return Some(ActionType::TypeLogin);
        }
        if str_eq(s, "UI_ACTION_TYPE_FRIENDS") {
            return Some(ActionType::TypeFriends);
        }
        if str_eq(s, "UI_ACTION_TYPE_APPEAR_OFFLINE") {
            return Some(ActionType::TypeAppearOffline);
        }
        if str_eq(s, "UI_ACTION_TYPE_DELETE") {
            return Some(ActionType::TypeDelete);
        }
        if str_eq(s, "UI_ACTION_TYPE_ADD_CHILD") {
            return Some(ActionType::TypeAddChild);
        }
        if str_eq(s, "UI_ACTION_TYPE_ADD_CHILD_AUGMENTATION") {
            return Some(ActionType::TypeAddChildAugmentation);
        }
        if str_eq(s, "UI_ACTION_TYPE_DELETE_ALL") {
            return Some(ActionType::TypeDeleteAll);
        }
        if str_eq(s, "UI_ACTION_TYPE_USE_ITEM") {
            return Some(ActionType::TypeUseItem);
        }
        if str_eq(s, "UI_ACTION_TYPE_ITEM_ASSIGN_LEFT") {
            return Some(ActionType::TypeItemAssignLeft);
        }
        if str_eq(s, "UI_ACTION_TYPE_ITEM_ASSIGN_RIGHT") {
            return Some(ActionType::TypeItemAssignRight);
        }
        if str_eq(s, "UI_ACTION_TYPE_ITEM_ASSIGN_DOWN") {
            return Some(ActionType::TypeItemAssignDown);
        }
        if str_eq(s, "UI_ACTION_TYPE_ITEM_ASSIGN_UP") {
            return Some(ActionType::TypeItemAssignUp);
        }
        if str_eq(s, "UI_ACTION_TYPE_CLOTHING_WEAR") {
            return Some(ActionType::TypeClothingWear);
        }
        if str_eq(s, "UI_ACTION_TYPE_UPDATE_MANNEQUIN_CLOTHING") {
            return Some(ActionType::TypeUpdateMannequinClothing);
        }
        if str_eq(s, "UI_ACTION_TYPE_BUY") {
            return Some(ActionType::TypeBuy);
        }
        if str_eq(s, "UI_ACTION_TYPE_SELL") {
            return Some(ActionType::TypeSell);
        }
        if str_eq(s, "UI_ACTION_TYPE_DELETE_PREVIOUS") {
            return Some(ActionType::TypeDeletePrevious);
        }
        if str_eq(s, "UI_ACTION_TYPE_RESET_CLOTHING_MANNEQUIN") {
            return Some(ActionType::TypeResetClothingMannequin);
        }
        if str_eq(s, "UI_ACTION_TYPE_SET_BRIGHTNESS") {
            return Some(ActionType::TypeSetBrightness);
        }
        if str_eq(s, "UI_ACTION_TYPE_SET_SOUND") {
            return Some(ActionType::TypeSetSound);
        }
        if str_eq(s, "UI_ACTION_TYPE_SET_MUSIC") {
            return Some(ActionType::TypeSetMusic);
        }
        if str_eq(s, "UI_ACTION_TYPE_SET_CAMERA_ROTATION") {
            return Some(ActionType::TypeSetCameraRotation);
        }
        if str_eq(s, "UI_ACTION_TYPE_SET_CAMERA_UP_DOWN") {
            return Some(ActionType::TypeSetCameraUpDown);
        }
        if str_eq(s, "UI_ACTION_TYPE_SET_VIBRATION") {
            return Some(ActionType::TypeSetVibration);
        }
        if str_eq(s, "UI_ACTION_TYPE_SET_HEADPHONES") {
            return Some(ActionType::TypeSetHeadphones);
        }
        if str_eq(s, "UI_ACTION_TYPE_SET_SUBTITLES") {
            return Some(ActionType::TypeSetSubtitles);
        }
        if str_eq(s, "UI_ACTION_TYPE_OPEN_MAP") {
            return Some(ActionType::TypeOpenMap);
        }
        if str_eq(s, "UI_ACTION_TYPE_OPEN_ABILITIES") {
            return Some(ActionType::TypeOpenAbilities);
        }
        if str_eq(s, "UI_ACTION_TYPE_OPEN_WEAPONS") {
            return Some(ActionType::TypeOpenWeapons);
        }
        if str_eq(s, "UI_ACTION_TYPE_OPEN_STATS") {
            return Some(ActionType::TypeOpenStats);
        }
        if str_eq(s, "UI_ACTION_TYPE_OPEN_CLOTHING") {
            return Some(ActionType::TypeOpenClothing);
        }
        if str_eq(s, "UI_ACTION_TYPE_OPEN_ITEMS") {
            return Some(ActionType::TypeOpenItems);
        }
        if str_eq(s, "UI_ACTION_TYPE_CLOSE_MAP") {
            return Some(ActionType::TypeCloseMap);
        }
        if str_eq(s, "UI_ACTION_TYPE_CLOSE_ABILITIES") {
            return Some(ActionType::TypeCloseAbilities);
        }
        if str_eq(s, "UI_ACTION_TYPE_CLOSE_WEAPONS") {
            return Some(ActionType::TypeCloseWeapons);
        }
        if str_eq(s, "UI_ACTION_TYPE_CLOSE_STATS") {
            return Some(ActionType::TypeCloseStats);
        }
        if str_eq(s, "UI_ACTION_TYPE_CLOSE_CLOTHING") {
            return Some(ActionType::TypeCloseClothing);
        }
        if str_eq(s, "UI_ACTION_TYPE_CLOSE_ITEMS") {
            return Some(ActionType::TypeCloseItems);
        }
        if str_eq(s, "UI_ACTION_TYPE_CLOSE_MENU") {
            return Some(ActionType::TypeCloseMenu);
        }
        if str_eq(s, "UI_ACTION_TYPE_GUILD_SEAL_RECALL") {
            return Some(ActionType::TypeGuildSealRecall);
        }
        if str_eq(s, "UI_ACTION_TYPE_LOAD") {
            return Some(ActionType::TypeLoad);
        }
        if str_eq(s, "UI_ACTION_TYPE_SAVE") {
            return Some(ActionType::TypeSave);
        }
        if str_eq(s, "UI_ACTION_TYPE_CLOSE_PAUSE_MENU") {
            return Some(ActionType::TypeClosePauseMenu);
        }
        if str_eq(s, "UI_ACTION_TYPE_PLAY_MOVIE") {
            return Some(ActionType::TypePlayMovie);
        }
        if str_eq(s, "UI_ACTION_TYPE_NEXT_SCREEN_PROFILES_SAVED_GAMES") {
            return Some(ActionType::TypeNextScreenProfilesSavedGames);
        }
        if str_eq(s, "UI_ACTION_TYPE_NEXT_SCREEN_CREDITS") {
            return Some(ActionType::TypeNextScreenCredits);
        }
        if str_eq(s, "UI_ACTION_TYPE_CONSTRUCT_WEAPONS_LIST") {
            return Some(ActionType::TypeConstructWeaponsList);
        }
        if str_eq(s, "UI_ACTION_TYPE_CONSTRUCT_CLOTHING_LIST") {
            return Some(ActionType::TypeConstructClothingList);
        }
        if str_eq(s, "UI_ACTION_TYPE_CONSTRUCT_ITEMS_LIST") {
            return Some(ActionType::TypeConstructItemsList);
        }
        if str_eq(s, "UI_ACTION_TYPE_CONSTRUCT_SKILLS_LIST") {
            return Some(ActionType::TypeConstructSkillsList);
        }
        if str_eq(s, "UI_ACTION_TYPE_CONSTRUCT_QUESTS_LIST") {
            return Some(ActionType::TypeConstructQuestsList);
        }
        if str_eq(s, "UI_ACTION_TYPE_CONSTRUCT_MAP_LIST") {
            return Some(ActionType::TypeConstructMapList);
        }
        if str_eq(s, "UI_ACTION_TYPE_CONSTRUCT_STATS_LIST") {
            return Some(ActionType::TypeConstructStatsList);
        }
        if str_eq(s, "UI_ACTION_TYPE_CHANGE_CHILD_STATE") {
            return Some(ActionType::TypeChangeChildState);
        }
        if str_eq(s, "UI_ACTION_TYPE_CONSTRUCT_EXPERIENCE_LIST") {
            return Some(ActionType::TypeConstructExperienceList);
        }
        if str_eq(s, "UI_ACTION_TYPE_CONSTRUCT_PERSONALITY_LIST") {
            return Some(ActionType::TypeConstructPersonalityList);
        }
        if str_eq(s, "UI_ACTION_TYPE_SET_HUD") {
            return Some(ActionType::TypeSetHud);
        }
        if str_eq(s, "UI_ACTION_TYPE_CLOSE_QUICK_ACCESS_MENU") {
            return Some(ActionType::TypeCloseQuickAccessMenu);
        }
        if str_eq(s, "UI_ACTION_TYPE_CLOSE_TELEPORT_MENU") {
            return Some(ActionType::TypeCloseTeleportMenu);
        }
        if str_eq(s, "UI_ACTION_TYPE_BUY_BULK") {
            return Some(ActionType::TypeBuyBulk);
        }
        if str_eq(s, "UI_ACTION_TYPE_SELL_BULK") {
            return Some(ActionType::TypeSellBulk);
        }
        if str_eq(s, "UI_ACTION_TYPE_SET_TUTORIALS") {
            return Some(ActionType::TypeSetTutorials);
        }
        if str_eq(s, "UI_ACTION_TYPE_SET_SHOW_BUDDY_NAMES") {
            return Some(ActionType::TypeSetShowBuddyNames);
        }
        if str_eq(s, "UI_ACTION_TYPE_QUIT_TO_FRONT_END") {
            return Some(ActionType::TypeQuitToFrontEnd);
        }
        if str_eq(s, "UI_ACTION_TYPE_PREVIOUS_SCREEN") {
            return Some(ActionType::TypePreviousScreen);
        }
        if str_eq(s, "UI_ACTION_TYPE_ACCEPT_CHANGES") {
            return Some(ActionType::TypeAcceptChanges);
        }
        if str_eq(s, "UI_ACTION_TYPE_SET_DIALOGUE") {
            return Some(ActionType::TypeSetDialogue);
        }
        if str_eq(s, "UI_ACTION_TYPE_XLIVE") {
            return Some(ActionType::TypeXlive);
        }
        if str_eq(s, "UI_ACTION_TYPE_XLIVE_BACK") {
            return Some(ActionType::TypeXliveBack);
        }
        if str_eq(s, "UI_ACTION_TYPE_LOGOUT") {
            return Some(ActionType::TypeLogout);
        }
        if str_eq(s, "UI_ACTION_TYPE_DEMOS") {
            return Some(ActionType::TypeDemos);
        }
        if str_eq(s, "UI_ACTION_TYPE_SET_GUILD_MASTER") {
            return Some(ActionType::TypeSetGuildMaster);
        }
        if str_eq(s, "UI_ACTION_TYPE_SET_HUD_TOOLTIPS") {
            return Some(ActionType::TypeSetHudTooltips);
        }
        if str_eq(s, "UI_ACTION_TYPE_UNDO_BUY_ABILITY") {
            return Some(ActionType::TypeUndoBuyAbility);
        }
        if str_eq(s, "UI_ACTION_TYPE_UNDO_BUY_STAT") {
            return Some(ActionType::TypeUndoBuyStat);
        }
        if str_eq(s, "UI_ACTION_TYPE_GIVE_EXCLUSIVE_INPUT") {
            return Some(ActionType::TypeGiveExclusiveInput);
        }
        if str_eq(s, "UI_ACTION_TYPE_REMOVE_EXCLUSIVE_INPUT") {
            return Some(ActionType::TypeRemoveExclusiveInput);
        }
        if str_eq(s, "UI_ACTION_TYPE_SEND_BACK_EVENT") {
            return Some(ActionType::TypeSendBackEvent);
        }
        if str_eq(s, "UI_ACTION_TYPE_SHOW_SPELL_SELECTION") {
            return Some(ActionType::TypeShowSpellSelection);
        }
        if str_eq(s, "UI_ACTION_TYPE_SET_SPELL_TO_ASSIGN") {
            return Some(ActionType::TypeSetSpellToAssign);
        }
        if str_eq(s, "UI_ACTION_TYPE_TELEPORT_TO_BOAST") {
            return Some(ActionType::TypeTeleportToBoast);
        }
        if str_eq(s, "UI_ACTION_TYPE_DROP_QUEST") {
            return Some(ActionType::TypeDropQuest);
        }
        if str_eq(s, "UI_ACTION_TYPE_ASSIGN_SPELL") {
            return Some(ActionType::TypeAssignSpell);
        }
        if str_eq(s, "UI_ACTION_TYPE_UNASSIGN_SPELL") {
            return Some(ActionType::TypeUnassignSpell);
        }
        if str_eq(s, "UI_ACTION_TYPE_RESET_ASSIGNED_SPELLS") {
            return Some(ActionType::TypeResetAssignedSpells);
        }
        if str_eq(s, "UI_ACTION_TYPE_CHANGE_ALPHA") {
            return Some(ActionType::TypeChangeAlpha);
        }
        if str_eq(s, "UI_ACTION_TYPE_CHANGE_NUMBER") {
            return Some(ActionType::TypeChangeNumber);
        }
        if str_eq(s, "UI_ACTION_TYPE_DELETE_PROFILE") {
            return Some(ActionType::TypeDeleteProfile);
        }
        if str_eq(s, "UI_ACTION_TYPE_GO_TO_DELETE_PROFILE_SCREEN") {
            return Some(ActionType::TypeGoToDeleteProfileScreen);
        }
        if str_eq(s, "UI_ACTION_TYPE_POP_MAP_STATE") {
            return Some(ActionType::TypePopMapState);
        }
        if str_eq(s, "UI_ACTION_TYPE_NEXT_SCREEN_INVALID_PROFILE") {
            return Some(ActionType::TypeNextScreenInvalidProfile);
        }
        if str_eq(s, "UI_ACTION_TYPE_NEXT_SCREEN_INVALID_SAVE") {
            return Some(ActionType::TypeNextScreenInvalidSave);
        }
        if str_eq(s, "UI_ACTION_TYPE_FREE_SPACE_ON_T") {
            return Some(ActionType::TypeFreeSpaceOnT);
        }
        if str_eq(s, "UI_ACTION_TYPE_FREE_SPACE_ON_U") {
            return Some(ActionType::TypeFreeSpaceOnU);
        }
        if str_eq(s, "UI_ACTION_TYPE_FLASH_DPAD_DOWN") {
            return Some(ActionType::TypeFlashDpadDown);
        }
        if str_eq(s, "UI_ACTION_TYPE_FLASH_DPAD_UP") {
            return Some(ActionType::TypeFlashDpadUp);
        }
        if str_eq(s, "UI_ACTION_TYPE_FLASH_DPAD_LEFT") {
            return Some(ActionType::TypeFlashDpadLeft);
        }
        if str_eq(s, "UI_ACTION_TYPE_FLASH_DPAD_RIGHT") {
            return Some(ActionType::TypeFlashDpadRight);
        }
        if str_eq(s, "UI_ACTION_TYPE_STOP_DPAD_FLASHING") {
            return Some(ActionType::TypeStopDpadFlashing);
        }
        if str_eq(s, "UI_ACTION_TYPE_CONSTRUCT_LOGBOOK_LIST") {
            return Some(ActionType::TypeConstructLogbookList);
        }
        if str_eq(s, "UI_ACTION_TYPE_GO_TO_MAIN_MENU_FROM_START") {
            return Some(ActionType::TypeGoToMainMenuFromStart);
        }
        if str_eq(s, "UI_ACTION_TYPE_SEND_OWNED_EVENT") {
            return Some(ActionType::TypeSendOwnedEvent);
        }
        if str_eq(s, "UI_ACTION_TYPE_SEND_EVENT") {
            return Some(ActionType::TypeSendEvent);
        }
        if str_eq(s, "UI_ACTION_TYPE_MOVE_COMPONENT") {
            return Some(ActionType::TypeMoveComponent);
        }
        if str_eq(s, "UI_ACTION_TYPE_EXIT_LIVE_GUI") {
            return Some(ActionType::TypeExitLiveGui);
        }
        if str_eq(s, "UI_ACTION_TYPE_OPEN_PC_SKILLS_MENU") {
            return Some(ActionType::TypeOpenPcSkillsMenu);
        }
        if str_eq(s, "UI_ACTION_TYPE_CONSTRUCT_EXPRESSIONS_LIST") {
            return Some(ActionType::TypeConstructExpressionsList);
        }
        if str_eq(s, "UI_ACTION_TYPE_SCROLL_ACTIVE_LIST_UP") {
            return Some(ActionType::TypeScrollActiveListUp);
        }
        if str_eq(s, "UI_ACTION_TYPE_SCROLL_ACTIVE_LIST_DOWN") {
            return Some(ActionType::TypeScrollActiveListDown);
        }
        if str_eq(s, "UI_ACTION_TYPE_OPEN_PC_INVENTORY_MENU") {
            return Some(ActionType::TypeOpenPcInventoryMenu);
        }
        if str_eq(s, "UI_ACTION_TYPE_OPEN_PC_OPTIONS_MENU") {
            return Some(ActionType::TypeOpenPcOptionsMenu);
        }
        if str_eq(s, "UI_ACTION_TYPE_CONSTRUCT_PC_STYLE_CARDS_LIST") {
            return Some(ActionType::TypeConstructPcStyleCardsList);
        }
        if str_eq(s, "UI_ACTION_TYPE_OPEN_PC_BUY_TRADING_GOODS_LIST") {
            return Some(ActionType::TypeOpenPcBuyTradingGoodsList);
        }
        if str_eq(s, "UI_ACTION_TYPE_CLOSE_PC_BUY_TRADING_GOODS_LIST") {
            return Some(ActionType::TypeClosePcBuyTradingGoodsList);
        }
        if str_eq(s, "UI_ACTION_TYPE_CONSTRUCT_MAGIC_LIST_PC") {
            return Some(ActionType::TypeConstructMagicListPc);
        }
        if str_eq(s, "UI_ACTION_TYPE_ASSIGN_SPELL_PC") {
            return Some(ActionType::TypeAssignSpellPc);
        }
        if str_eq(s, "UI_ACTION_TYPE_OBSERVE_EVENT") {
            return Some(ActionType::TypeObserveEvent);
        }
        if str_eq(s, "UI_ACTION_TYPE_SET_SPELL_TO_ASSIGN_PC") {
            return Some(ActionType::TypeSetSpellToAssignPc);
        }
        if str_eq(s, "UI_ACTION_TYPE_RESET_ASSIGNED_SPELLS_PC") {
            return Some(ActionType::TypeResetAssignedSpellsPc);
        }
        if str_eq(s, "UI_ACTION_TYPE_UNASSIGN_SPELL_PC") {
            return Some(ActionType::TypeUnassignSpellPc);
        }
        if str_eq(s, "UI_ACTION_TYPE_IGNORE_EVENT") {
            return Some(ActionType::TypeIgnoreEvent);
        }
        if str_eq(s, "UI_ACTION_TYPE_NEXT_SCREEN_PROFILES_FOR_DELETE") {
            return Some(ActionType::TypeNextScreenProfilesForDelete);
        }
        if str_eq(s, "UI_ACTION_TYPE_ASSIGN_EXPRESSION_ITEM_PC") {
            return Some(ActionType::TypeAssignExpressionItemPc);
        }
        if str_eq(s, "UI_ACTION_TYPE_UNASSIGN_EXPRESSION_ITEM_PC") {
            return Some(ActionType::TypeUnassignExpressionItemPc);
        }
        if str_eq(s, "UI_ACTION_TYPE_SET_EXPRESSION_ITEM_TO_ASSIGN_PC") {
            return Some(ActionType::TypeSetExpressionItemToAssignPc);
        }
        if str_eq(s, "UI_ACTION_TYPE_OPEN_PC_MAP_MENU") {
            return Some(ActionType::TypeOpenPcMapMenu);
        }
        if str_eq(s, "UI_ACTION_TYPE_OPEN_PC_STATUS_MENU") {
            return Some(ActionType::TypeOpenPcStatusMenu);
        }
        if str_eq(s, "UI_ACTION_TYPE_OPEN_PC_LOG_BOOK") {
            return Some(ActionType::TypeOpenPcLogBook);
        }
        if str_eq(s, "UI_ACTION_TYPE_CONSTRUCT_PC_QUESTS_LIST") {
            return Some(ActionType::TypeConstructPcQuestsList);
        }
        if str_eq(s, "UI_ACTION_TYPE_SET_RESOLUTION") {
            return Some(ActionType::TypeSetResolution);
        }
        if str_eq(s, "UI_ACTION_TYPE_SET_SHADOW_DETAIL") {
            return Some(ActionType::TypeSetShadowDetail);
        }
        if str_eq(s, "UI_ACTION_TYPE_SET_DECALS") {
            return Some(ActionType::TypeSetDecals);
        }
        if str_eq(s, "UI_ACTION_TYPE_SET_WEATHER_EFFECTS") {
            return Some(ActionType::TypeSetWeatherEffects);
        }
        if str_eq(s, "UI_ACTION_TYPE_SET_VERTICAL_SYNC") {
            return Some(ActionType::TypeSetVerticalSync);
        }
        if str_eq(s, "UI_ACTION_TYPE_SET_GLOW_EFFECTS") {
            return Some(ActionType::TypeSetGlowEffects);
        }
        if str_eq(s, "UI_ACTION_TYPE_SET_REVERSE_STEREO") {
            return Some(ActionType::TypeSetReverseStereo);
        }
        if str_eq(s, "UI_ACTION_TYPE_SET_ANTIALIASING") {
            return Some(ActionType::TypeSetAntialiasing);
        }
        if str_eq(s, "UI_ACTION_TYPE_SET_TEXTURE_DETAIL") {
            return Some(ActionType::TypeSetTextureDetail);
        }
        if str_eq(s, "UI_ACTION_TYPE_SET_MESH_RESOLUTION") {
            return Some(ActionType::TypeSetMeshResolution);
        }
        if str_eq(s, "UI_ACTION_TYPE_SET_WATER_REFLECTION") {
            return Some(ActionType::TypeSetWaterReflection);
        }
        if str_eq(s, "UI_ACTION_TYPE_SET_LANDSCAPE_DETAIL") {
            return Some(ActionType::TypeSetLandscapeDetail);
        }
        if str_eq(s, "UI_ACTION_TYPE_SET_PARTICLE_DETAIL") {
            return Some(ActionType::TypeSetParticleDetail);
        }
        if str_eq(s, "UI_ACTION_TYPE_ADD_OBSERVER") {
            return Some(ActionType::TypeAddObserver);
        }
        if str_eq(s, "UI_ACTION_TYPE_SCROLL_ACTIVE_LIST_UNTIL_CHILD_CONTAINING") {
            return Some(ActionType::TypeScrollActiveListUntilChildContaining);
        }
        if str_eq(s, "UI_ACTION_TYPE_GO_BACK") {
            return Some(ActionType::TypeGoBack);
        }
        if str_eq(s, "UI_ACTION_TYPE_CLOSE_ACTIVE_MENU") {
            return Some(ActionType::TypeCloseActiveMenu);
        }
        if str_eq(s, "UI_ACTION_TYPE_REMOVE_OBSERVER") {
            return Some(ActionType::TypeRemoveObserver);
        }
        if str_eq(s, "UI_ACTION_TYPE_TAVERN_GAME_BET_DOWN") {
            return Some(ActionType::TypeTavernGameBetDown);
        }
        if str_eq(s, "UI_ACTION_TYPE_TAVERN_GAME_BET_UP") {
            return Some(ActionType::TypeTavernGameBetUp);
        }
        if str_eq(s, "UI_ACTION_TYPE_RESPAWN") {
            return Some(ActionType::TypeRespawn);
        }
        if str_eq(s, "UI_ACTION_TYPE_CONTINUE") {
            return Some(ActionType::TypeContinue);
        }
        if str_eq(s, "UI_ACTION_TYPE_OPEN_PC_SELL_TRADING_GOODS_LIST") {
            return Some(ActionType::TypeOpenPcSellTradingGoodsList);
        }
        if str_eq(s, "UI_ACTION_TYPE_OPEN_PC_WANTED_TRADING_GOODS_LIST") {
            return Some(ActionType::TypeOpenPcWantedTradingGoodsList);
        }
        if str_eq(s, "UI_ACTION_TYPE_CONSTRUCT_PC_EXPERIENCE_LIST") {
            return Some(ActionType::TypeConstructPcExperienceList);
        }
        if str_eq(s, "UI_ACTION_TYPE_GO_TO_REDEFINE_KEYS_MENU") {
            return Some(ActionType::TypeGoToRedefineKeysMenu);
        }
        if str_eq(s, "UI_ACTION_TYPE_RESET_KEYS") {
            return Some(ActionType::TypeResetKeys);
        }
        if str_eq(s, "UI_ACTION_TYPE_ASSIGN_SPELL_TO_ITEM_SLOT_PC") {
            return Some(ActionType::TypeAssignSpellToItemSlotPc);
        }
        if str_eq(s, "UI_ACTION_TYPE_CONSTRUCT_STYLE_CARDS_LIST") {
            return Some(ActionType::TypeConstructStyleCardsList);
        }
        if str_eq(s, "UI_ACTION_TYPE_SCROLL_DESCRIPTION_DOWN") {
            return Some(ActionType::TypeScrollDescriptionDown);
        }
        if str_eq(s, "UI_ACTION_TYPE_SCROLL_DESCRIPTION_UP") {
            return Some(ActionType::TypeScrollDescriptionUp);
        }
        if str_eq(s, "UI_ACTION_TYPE_CONSTRUCT_PC_PERSONALITY_LIST") {
            return Some(ActionType::TypeConstructPcPersonalityList);
        }
        if str_eq(s, "UI_ACTION_TYPE_SEND_OWNED_EVENT_FORCE_OBSERVATION") {
            return Some(ActionType::TypeSendOwnedEventForceObservation);
        }
        if str_eq(s, "UI_ACTION_TYPE_GO_TO_MAIN_MENU_FROM_PROFILE_LIST") {
            return Some(ActionType::TypeGoToMainMenuFromProfileList);
        }
        if str_eq(s, "UI_ACTION_TYPE_NEW_PROFILE") {
            return Some(ActionType::TypeNewProfile);
        }
        if str_eq(s, "UI_ACTION_TYPE_NEW_PROFILE_RETURN_PRESSED") {
            return Some(ActionType::TypeNewProfileReturnPressed);
        }
        if str_eq(s, "UI_ACTION_TYPE_NEW_PROFILE_ESCAPE_PRESSED") {
            return Some(ActionType::TypeNewProfileEscapePressed);
        }
        if str_eq(s, "UI_ACTION_TYPE_QUIT_GAME") {
            return Some(ActionType::TypeQuitGame);
        }
        if str_eq(s, "UI_ACTION_TYPE_NEXT_SCREEN_OPTIONS_SUB_MENU") {
            return Some(ActionType::TypeNextScreenOptionsSubMenu);
        }
        if str_eq(s, "UI_ACTION_TYPE_SET_MESH_DETAIL") {
            return Some(ActionType::TypeSetMeshDetail);
        }
        if str_eq(s, "UI_ACTION_TYPE_SET_EFFECTS_DETAIL") {
            return Some(ActionType::TypeSetEffectsDetail);
        }
        if str_eq(s, "UI_ACTION_TYPE_SET_SCREEN_ASPECT_RATIO") {
            return Some(ActionType::TypeSetScreenAspectRatio);
        }
        if str_eq(s, "UI_ACTION_TYPE_APPLY_PROFILE_VALUES") {
            return Some(ActionType::TypeApplyProfileValues);
        }
        if str_eq(s, "UI_ACTION_TYPE_CLOSE_ACTIVE_TRADE_MENU") {
            return Some(ActionType::TypeCloseActiveTradeMenu);
        }
        if str_eq(s, "UI_ACTION_TYPE_SCROLL_ACTIVE_LIST_DOWN_MAX") {
            return Some(ActionType::TypeScrollActiveListDownMax);
        }
        if str_eq(s, "UI_ACTION_TYPE_SCROLL_ACTIVE_LIST_UP_MAX") {
            return Some(ActionType::TypeScrollActiveListUpMax);
        }
        if str_eq(s, "UI_ACTION_TYPE_SCROLL_DESCRIPTION_DOWN_MAX") {
            return Some(ActionType::TypeScrollDescriptionDownMax);
        }
        if str_eq(s, "UI_ACTION_TYPE_SCROLL_DESCRIPTION_UP_MAX") {
            return Some(ActionType::TypeScrollDescriptionUpMax);
        }
        if str_eq(s, "UI_ACTION_TYPE_SCROLL_DESCRIPTION_DOWN_ONE_PIXEL") {
            return Some(ActionType::TypeScrollDescriptionDownOnePixel);
        }
        if str_eq(s, "UI_ACTION_TYPE_SCROLL_DESCRIPTION_UP_ONE_PIXEL") {
            return Some(ActionType::TypeScrollDescriptionUpOnePixel);
        }
        if str_eq(s, "UI_ACTION_TYPE_CLOSE_TRADE_MENU_IF_LEAF") {
            return Some(ActionType::TypeCloseTradeMenuIfLeaf);
        }
        if str_eq(s, "UI_ACTION_TYPE_EXIT_LIVE_GUI_IF_LEAF") {
            return Some(ActionType::TypeExitLiveGuiIfLeaf);
        }
        if str_eq(s, "UI_ACTION_TYPE_RESET_KEYS_WASD") {
            return Some(ActionType::TypeResetKeysWasd);
        }
        if str_eq(s, "UI_ACTION_TYPE_NEXT_SCREEN_OPTIONS_SCOREBOARD") {
            return Some(ActionType::TypeNextScreenOptionsScoreboard);
        }
        if str_eq(s, "UI_ACTION_TYPE_SET_CONTROL_METHOD") {
            return Some(ActionType::TypeSetControlMethod);
        }
        if str_eq(s, "UI_ACTION_TYPE_GOTO_QUIT_PROMPT") {
            return Some(ActionType::TypeGotoQuitPrompt);
        }
        if str_eq(s, "UI_ACTION_TYPE_PC_QUIT_TO_FRONT_END") {
            return Some(ActionType::TypePcQuitToFrontEnd);
        }
        if str_eq(s, "UI_ACTION_TYPE_PC_ACCEPT_VIDEO_CHANGES") {
            return Some(ActionType::TypePcAcceptVideoChanges);
        }
        if str_eq(s, "UI_ACTION_TYPE_SET_REFRESH_RATE") {
            return Some(ActionType::TypeSetRefreshRate);
        }
        if str_eq(s, "UI_ACTION_TYPE_SET_CAMERA_SENSITIVITY") {
            return Some(ActionType::TypeSetCameraSensitivity);
        }
        if str_eq(s, "UI_ACTION_TYPE_SET_BOW_CAMERA") {
            return Some(ActionType::TypeSetBowCamera);
        }
        if str_eq(s, "UI_ACTION_TYPE_SET_CAMERA_RESETTING") {
            return Some(ActionType::TypeSetCameraResetting);
        }
        if str_eq(s, "UI_ACTION_TYPE_GOTO_ABOUT_SCREEN") {
            return Some(ActionType::TypeGotoAboutScreen);
        }
        if str_eq(s, "UI_ACTION_TYPE_CLOSE_FRAME") {
            return Some(ActionType::TypeCloseFrame);
        }
        if str_eq(s, "UI_ACTION_TYPE_SET_SHOW_TARGETING_STATUS") {
            return Some(ActionType::TypeSetShowTargetingStatus);
        }
        if str_eq(s, "UI_ACTION_TYPE_RESTORE_DEFAULTS_GAMEPLAY") {
            return Some(ActionType::TypeRestoreDefaultsGameplay);
        }
        if str_eq(s, "UI_ACTION_TYPE_RESTORE_DEFAULTS_VIDEO") {
            return Some(ActionType::TypeRestoreDefaultsVideo);
        }
        if str_eq(s, "UI_ACTION_TYPE_RESTORE_DEFAULTS_AUDIO") {
            return Some(ActionType::TypeRestoreDefaultsAudio);
        }
        if str_eq(s, "UI_ACTION_TYPE_SET_EXPRESSION_ITEM_TO_ASSIGN_SWAPPING_PC") {
            return Some(ActionType::TypeSetExpressionItemToAssignSwappingPc);
        }
        if str_eq(s, "UI_ACTION_TYPE_SET_SPELL_TO_ASSIGN_SWAPPING_PC") {
            return Some(ActionType::TypeSetSpellToAssignSwappingPc);
        }
        if str_eq(s, "UI_ACTION_TYPE_SET_SPELL_TO_ASSIGN_IN_ITEMS_SWAPPING_PC") {
            return Some(ActionType::TypeSetSpellToAssignInItemsSwappingPc);
        }
        if str_eq(s, "UI_ACTION_ADD_MESH_CHILD") {
            return Some(ActionType::AddMeshChild);
        }
        if str_eq(s, "UI_ACTION_LOAD_WEAPON_DESC") {
            return Some(ActionType::LoadWeaponDesc);
        }
        if str_eq(s, "UI_ACTION_LOAD_CLOTHING_DESC") {
            return Some(ActionType::LoadClothingDesc);
        }
        if str_eq(s, "UI_ACTION_LOAD_ITEM_DESC") {
            return Some(ActionType::LoadItemDesc);
        }
        if str_eq(s, "UI_ACTION_LOAD_WEAPON_MENU_ENTRY_NAME") {
            return Some(ActionType::LoadWeaponMenuEntryName);
        }
        if str_eq(s, "UI_ACTION_LOAD_CLOTHING_MENU_ENTRY_NAME") {
            return Some(ActionType::LoadClothingMenuEntryName);
        }
        if str_eq(s, "UI_ACTION_LOAD_ITEM_MENU_ENTRY_NAME") {
            return Some(ActionType::LoadItemMenuEntryName);
        }
        if str_eq(s, "UI_ACTION_LOAD_SELL_ITEM_DESC") {
            return Some(ActionType::LoadSellItemDesc);
        }
        if str_eq(s, "UI_ACTION_LOAD_SELL_ACTION_MENU") {
            return Some(ActionType::LoadSellActionMenu);
        }
        if str_eq(s, "UI_ACTION_LOAD_BUY_ITEM_DESC") {
            return Some(ActionType::LoadBuyItemDesc);
        }
        if str_eq(s, "UI_ACTION_LOAD_BUY_ACTION_MENU") {
            return Some(ActionType::LoadBuyActionMenu);
        }
        if str_eq(s, "UI_ACTION_LOAD_WANTED_ITEM_DESC") {
            return Some(ActionType::LoadWantedItemDesc);
        }
        if str_eq(s, "UI_ACTION_LOAD_QUICK_MENU_EXPRESSIONS_ICON") {
            return Some(ActionType::LoadQuickMenuExpressionsIcon);
        }
        if str_eq(s, "UI_ACTION_LOAD_FILE_DESC") {
            return Some(ActionType::LoadFileDesc);
        }
        if str_eq(s, "UI_ACTION_LOAD_FILE_SAVEGAME_MINIMAP") {
            return Some(ActionType::LoadFileSavegameMinimap);
        }
        if str_eq(s, "UI_ACTION_REMOVE_MESH_CHILD") {
            return Some(ActionType::RemoveMeshChild);
        }
        if str_eq(s, "UI_ACTION_UNLOAD_WEAPON_DESC") {
            return Some(ActionType::UnloadWeaponDesc);
        }
        if str_eq(s, "UI_ACTION_UNLOAD_CLOTHING_DESC") {
            return Some(ActionType::UnloadClothingDesc);
        }
        if str_eq(s, "UI_ACTION_UNLOAD_ITEM_DESC") {
            return Some(ActionType::UnloadItemDesc);
        }
        if str_eq(s, "UI_ACTION_UNLOAD_SELL_ITEM_DESC") {
            return Some(ActionType::UnloadSellItemDesc);
        }
        if str_eq(s, "UI_ACTION_UNLOAD_SELL_ACTION_MENU") {
            return Some(ActionType::UnloadSellActionMenu);
        }
        if str_eq(s, "UI_ACTION_UNLOAD_BUY_ITEM_DESC") {
            return Some(ActionType::UnloadBuyItemDesc);
        }
        if str_eq(s, "UI_ACTION_UNLOAD_BUY_ACTION_MENU") {
            return Some(ActionType::UnloadBuyActionMenu);
        }
        if str_eq(s, "UI_ACTION_UNLOAD_WANTED_ITEM_DESC") {
            return Some(ActionType::UnloadWantedItemDesc);
        }
        if str_eq(s, "UI_ACTION_TYPE_CHEAT_MORALITY") {
            return Some(ActionType::TypeCheatMorality);
        }
        if str_eq(s, "UI_ACTION_TYPE_CHEAT_RENOWN") {
            return Some(ActionType::TypeCheatRenown);
        }
        if str_eq(s, "UI_ACTION_TYPE_CLOSE_BOAST_MENU") {
            return Some(ActionType::TypeCloseBoastMenu);
        }
        if str_eq(s, "UI_ACTION_TYPE_PLAY_SOUND") {
            return Some(ActionType::TypePlaySound);
        }
        if str_eq(s, "UI_ACTION_TYPE_TAKE_QUEST_FOR_BOAST") {
            return Some(ActionType::TypeTakeQuestForBoast);
        }
        if str_eq(s, "UI_ACTION_TYPE_OPEN_PC_MSN_CHAT") {
            return Some(ActionType::TypeOpenPcMsnChat);
        }
        if str_eq(s, "UI_ACTION_TYPE_ACTIVATE_MSN_CONVERSATION") {
            return Some(ActionType::TypeActivateMsnConversation);
        }
        if str_eq(s, "UI_ACTION_TYPE_SEND_MESSAGE") {
            return Some(ActionType::TypeSendMessage);
        }
        if str_eq(s, "UI_ACTION_TYPE_SELECT_CONTACT") {
            return Some(ActionType::TypeSelectContact);
        }
        if str_eq(s, "UI_ACTION_TYPE_SCROLL_VIEWPORT_UP") {
            return Some(ActionType::TypeScrollViewportUp);
        }
        if str_eq(s, "UI_ACTION_TYPE_SCROLL_VIEWPORT_DOWN") {
            return Some(ActionType::TypeScrollViewportDown);
        }
        if str_eq(s, "UI_ACTION_TYPE_SCROLL_LIST_DOWN") {
            return Some(ActionType::TypeScrollListDown);
        }
        if str_eq(s, "UI_ACTION_TYPE_SCROLL_LIST_UP") {
            return Some(ActionType::TypeScrollListUp);
        }
        if str_eq(s, "UI_ACTION_TYPE_OPEN_SCOREBOARD") {
            return Some(ActionType::TypeOpenScoreboard);
        }
        if str_eq(s, "UI_ACTION_TYPE_CHOOSE_CLAN") {
            return Some(ActionType::TypeChooseClan);
        }
        if str_eq(s, "UI_ACTION_TYPE_PHOTO_CAPTION") {
            return Some(ActionType::TypePhotoCaption);
        }
        if str_eq(s, "UI_ACTION_TYPE_DISCARD_PHOTO") {
            return Some(ActionType::TypeDiscardPhoto);
        }
        if str_eq(s, "UI_ACTION_TYPE_GO_TO_SCOREBOARD_SCREEN") {
            return Some(ActionType::TypeGoToScoreboardScreen);
        }
        if str_eq(s, "UI_ACTION_TYPE_ACTIVATE_EDITBOX") {
            return Some(ActionType::TypeActivateEditbox);
        }
        if str_eq(s, "UI_ACTION_TYPE_DEACTIVATE_EDITBOX") {
            return Some(ActionType::TypeDeactivateEditbox);
        }
        if str_eq(s, "UI_ACTION_TYPE_SET_EDITBOX_VALUES") {
            return Some(ActionType::TypeSetEditboxValues);
        }
        if str_eq(s, "UI_ACTION_TYPE_SCOREBOARD_OK") {
            return Some(ActionType::TypeScoreboardOk);
        }
        if str_eq(s, "UI_ACTION_TYPE_LOAD_PHOTO") {
            return Some(ActionType::TypeLoadPhoto);
        }
        if str_eq(s, "UI_ACTION_TYPE_SCROLL_PHOTO_DOWN") {
            return Some(ActionType::TypeScrollPhotoDown);
        }
        if str_eq(s, "UI_ACTION_TYPE_SCROLL_PHOTO_UP") {
            return Some(ActionType::TypeScrollPhotoUp);
        }
        if str_eq(s, "UI_ACTION_TYPE_NEXT_SCREEN_START") {
            return Some(ActionType::TypeNextScreenStart);
        }
        if str_eq(s, "UI_ACTION_TYPE_OPEN_PHOTOJOURNAL") {
            return Some(ActionType::TypeOpenPhotojournal);
        }
        if str_eq(s, "UI_ACTION_TYPE_OPEN_PHOTO") {
            return Some(ActionType::TypeOpenPhoto);
        }
        if str_eq(s, "UI_ACTION_TYPE_EXIT_PHOTOJOURNAL_CAPTURE") {
            return Some(ActionType::TypeExitPhotojournalCapture);
        }
        None
    }
}

/// Sprite slot of a UI table (key of `UiDef::sprites`).
#[derive(Debug, Clone, Copy, PartialEq, Eq, Structural, PartialOrd, Ord, Hash)]
pub enum TableSprites {
    TopLeft,
    TopRight,
    BottomLeft,
    BottomRight,
    TopMiddle,
    BottomMiddle,
    MiddleLeft,
    MiddleRight,
    SeparationBottom,
    SeparationTop,
    SeparationLeft,
    SeparationRight,
    Cross,
    Amount,
}

impl DefEnum for TableSprites {
    open spec fn wire_value(self) -> i32 {
        match self {
            TableSprites::TopLeft => 0i32,
            TableSprites::TopRight => 1i32,
            TableSprites::BottomLeft => 2i32,
            TableSprites::BottomRight => 3i32,
            TableSprites::TopMiddle => 4i32,
            TableSprites::BottomMiddle => 5i32,
            TableSprites::MiddleLeft => 6i32,
            TableSprites::MiddleRight => 7i32,
            TableSprites::SeparationBottom => 8i32,
            TableSprites::SeparationTop => 9i32,
            TableSprites::SeparationLeft => 10i32,
            TableSprites::SeparationRight => 11i32,
            TableSprites::Cross => 12i32,
            TableSprites::Amount => 13i32,
        }
    }

    open spec fn lookup(value: i32) -> Option<Self> {
        match value {
            0i32 => Some(TableSprites::TopLeft),
            1i32 => Some(TableSprites::TopRight),
            2i32 => Some(TableSprites::BottomLeft),
            3i32 => Some(TableSprites::BottomRight),
            4i32 => Some(TableSprites::TopMiddle),
            5i32 => Some(TableSprites::BottomMiddle),
            6i32 => Some(TableSprites::MiddleLeft),
            7i32 => Some(TableSprites::MiddleRight),
            8i32 => Some(TableSprites::SeparationBottom),
            9i32 => Some(TableSprites::SeparationTop),
            10i32 => Some(TableSprites::SeparationLeft),
            11i32 => Some(TableSprites::SeparationRight),
            12i32 => Some(TableSprites::Cross),
            13i32 => Some(TableSprites::Amount),
            _ => None,
        }
    }

    fn from_i32(value: i32) -> (r: Option<Self>) {
        match value {
            0i32 => Some(TableSprites::TopLeft),
            1i32 => Some(TableSprites::TopRight),
            2i32 => Some(TableSprites::BottomLeft),
            3i32 => Some(TableSprites::BottomRight),
            4i32 => Some(TableSprites::TopMiddle),
            5i32 => Some(TableSprites::BottomMiddle),
            6i32 => Some(TableSprites::MiddleLeft),
            7i32 => Some(TableSprites::MiddleRight),
            8i32 => Some(TableSprites::SeparationBottom),
            9i32 => Some(TableSprites::SeparationTop),
            10i32 => Some(TableSprites::SeparationLeft),
            11i32 => Some(TableSprites::SeparationRight),
            12i32 => Some(TableSprites::Cross),
            13i32 => Some(TableSprites::Amount),
            _ => None,
        }
    }

    fn to_i32(self) -> (r: i32) {
        match self {
            TableSprites::TopLeft => 0i32,
            TableSprites::TopRight => 1i32,
            TableSprites::BottomLeft => 2i32,
            TableSprites::BottomRight => 3i32,
            TableSprites::TopMiddle => 4i32,
            TableSprites::BottomMiddle => 5i32,
            TableSprites::MiddleLeft => 6i32,
            TableSprites::MiddleRight => 7i32,
            TableSprites::SeparationBottom => 8i32,
            TableSprites::SeparationTop => 9i32,
            TableSprites::SeparationLeft => 10i32,
            TableSprites::SeparationRight => 11i32,
            TableSprites::Cross => 12i32,
            TableSprites::Amount => 13i32,
        }
    }

    proof fn lemma_lookup_wire_value(e: Self) {
    }
}

impl TableSprites {
    /// The C++ enumerator symbol of `self`.
    pub open spec fn symbol_of(self) -> Seq<char> {
        match self {
            TableSprites::TopLeft => "TABLE_SPRITES_TOP_LEFT"@,
            TableSprites::TopRight => "TABLE_SPRITES_TOP_RIGHT"@,
            TableSprites::BottomLeft => "TABLE_SPRITES_BOTTOM_LEFT"@,
            TableSprites::BottomRight => "TABLE_SPRITES_BOTTOM_RIGHT"@,
            TableSprites::TopMiddle => "TABLE_SPRITES_TOP_MIDDLE"@,
            TableSprites::BottomMiddle => "TABLE_SPRITES_BOTTOM_MIDDLE"@,
            TableSprites::MiddleLeft => "TABLE_SPRITES_MIDDLE_LEFT"@,
            TableSprites::MiddleRight => "TABLE_SPRITES_MIDDLE_RIGHT"@,
            TableSprites::SeparationBottom => "TABLE_SPRITES_SEPARATION_BOTTOM"@,
            TableSprites::SeparationTop => "TABLE_SPRITES_SEPARATION_TOP"@,
            TableSprites::SeparationLeft => "TABLE_SPRITES_SEPARATION_LEFT"@,
            TableSprites::SeparationRight => "TABLE_SPRITES_SEPARATION_RIGHT"@,
            TableSprites::Cross => "TABLE_SPRITES_CROSS"@,
            TableSprites::Amount => "TABLE_SPRITES_AMOUNT"@,
        }
    }

    /// The first variant whose symbol is `s`, if any.
    pub open spec fn symbol_lookup(s: Seq<char>) -> Option<Self> {
        if s == "TABLE_SPRITES_TOP_LEFT"@ {
            Some(TableSprites::TopLeft)
        } else if s == "TABLE_SPRITES_TOP_RIGHT"@ {
            Some(TableSprites::TopRight)
        } else if s == "TABLE_SPRITES_BOTTOM_LEFT"@ {
            Some(TableSprites::BottomLeft)
        } else if s == "TABLE_SPRITES_BOTTOM_RIGHT"@ {
            Some(TableSprites::BottomRight)
        } else if s == "TABLE_SPRITES_TOP_MIDDLE"@ {
            Some(TableSprites::TopMiddle)
        } else if s == "TABLE_SPRITES_BOTTOM_MIDDLE"@ {
            Some(TableSprites::BottomMiddle)
        } else if s == "TABLE_SPRITES_MIDDLE_LEFT"@ {
            Some(TableSprites::MiddleLeft)
        } else if s == "TABLE_SPRITES_MIDDLE_RIGHT"@ {
            Some(TableSprites::MiddleRight)
        } else if s == "TABLE_SPRITES_SEPARATION_BOTTOM"@ {
            Some(TableSprites::SeparationBottom)
        } else if s == "TABLE_SPRITES_SEPARATION_TOP"@ {
            Some(TableSprites::SeparationTop)
        } else if s == "TABLE_SPRITES_SEPARATION_LEFT"@ {
            Some(TableSprites::SeparationLeft)
        } else if s == "TABLE_SPRITES_SEPARATION_RIGHT"@ {
            Some(TableSprites::SeparationRight)
        } else if s == "TABLE_SPRITES_CROSS"@ {
            Some(TableSprites::Cross)
        } else if s == "TABLE_SPRITES_AMOUNT"@ {
            Some(TableSprites::Amount)
        } else {
            None
        }
    }

    /// The C++ enumerator symbol text defs use for `self`.
    pub fn symbol(self) -> (r: &'static str)
        ensures
            r@ == self.symbol_of(),
    {
        match self {
            TableSprites::TopLeft => "TABLE_SPRITES_TOP_LEFT",
            TableSprites::TopRight => "TABLE_SPRITES_TOP_RIGHT",
            TableSprites::BottomLeft => "TABLE_SPRITES_BOTTOM_LEFT",
            TableSprites::BottomRight => "TABLE_SPRITES_BOTTOM_RIGHT",
            TableSprites::TopMiddle => "TABLE_SPRITES_TOP_MIDDLE",
            TableSprites::BottomMiddle => "TABLE_SPRITES_BOTTOM_MIDDLE",
            TableSprites::MiddleLeft => "TABLE_SPRITES_MIDDLE_LEFT",
            TableSprites::MiddleRight => "TABLE_SPRITES_MIDDLE_RIGHT",
            TableSprites::SeparationBottom => "TABLE_SPRITES_SEPARATION_BOTTOM",
            TableSprites::SeparationTop => "TABLE_SPRITES_SEPARATION_TOP",
            TableSprites::SeparationLeft => "TABLE_SPRITES_SEPARATION_LEFT",
            TableSprites::SeparationRight => "TABLE_SPRITES_SEPARATION_RIGHT",
            TableSprites::Cross => "TABLE_SPRITES_CROSS",
            TableSprites::Amount => "TABLE_SPRITES_AMOUNT",
        }
    }

    /// The variant a C++ enumerator symbol names.
    pub fn from_symbol(s: &str) -> (r: Option<Self>)
        ensures
            r == Self::symbol_lookup(s@),
    {
        if str_eq(s, "TABLE_SPRITES_TOP_LEFT") {
            return Some(TableSprites::TopLeft);
        }
        if str_eq(s, "TABLE_SPRITES_TOP_RIGHT") {
            return Some(TableSprites::TopRight);
        }
        if str_eq(s, "TABLE_SPRITES_BOTTOM_LEFT") {
            return Some(TableSprites::BottomLeft);
        }
        if str_eq(s, "TABLE_SPRITES_BOTTOM_RIGHT") {
            return Some(TableSprites::BottomRight);
        }
        if str_eq(s, "TABLE_SPRITES_TOP_MIDDLE") {
            return Some(TableSprites::TopMiddle);
        }
        if str_eq(s, "TABLE_SPRITES_BOTTOM_MIDDLE") {
            return Some(TableSprites::BottomMiddle);
        }
        if str_eq(s, "TABLE_SPRITES_MIDDLE_LEFT") {
            return Some(TableSprites::MiddleLeft);
        }
        if str_eq(s, "TABLE_SPRITES_MIDDLE_RIGHT") {
            return Some(TableSprites::MiddleRight);
        }
        if str_eq(s, "TABLE_SPRITES_SEPARATION_BOTTOM") {
            return Some(TableSprites::SeparationBottom);
        }
        if str_eq(s, "TABLE_SPRITES_SEPARATION_TOP") {
            return Some(TableSprites::SeparationTop);
        }
        if str_eq(s, "TABLE_SPRITES_SEPARATION_LEFT") {
            return Some(TableSprites::SeparationLeft);
        }
        if str_eq(s, "TABLE_SPRITES_SEPARATION_RIGHT") {
            return Some(TableSprites::SeparationRight);
        }
        if str_eq(s, "TABLE_SPRITES_CROSS") {
            return Some(TableSprites::Cross);
        }
        if str_eq(s, "TABLE_SPRITES_AMOUNT") {
            return Some(TableSprites::Amount);
        }
        None
    }
}

/// Engine graphic/mesh kind.
#[derive(Debug, Clone, Copy, PartialEq, Eq, Structural, PartialOrd, Ord, Hash)]
pub enum EngineGraphicType {
    EngineGraphicNull,
    EngineGraphicSprite,
    EngineGraphic3dsprite,
    EngineGraphicGeneratedEffect,
    EngineGraphicAnimatingMesh,
    EngineGraphicStaticMesh,
    MaxNoEngineGraphicTypes,
}

impl DefEnum for EngineGraphicType {
    open spec fn wire_value(self) -> i32 {
        match self {
            EngineGraphicType::EngineGraphicNull => 0i32,
            EngineGraphicType::EngineGraphicSprite => 1i32,
            EngineGraphicType::EngineGraphic3dsprite => 2i32,
            EngineGraphicType::EngineGraphicGeneratedEffect => 3i32,
            EngineGraphicType::EngineGraphicAnimatingMesh => 4i32,
            EngineGraphicType::EngineGraphicStaticMesh => 5i32,
            EngineGraphicType::MaxNoEngineGraphicTypes => 6i32,
        }
    }

    open spec fn lookup(value: i32) -> Option<Self> {
        match value {
            0i32 => Some(EngineGraphicType::EngineGraphicNull),
            1i32 => Some(EngineGraphicType::EngineGraphicSprite),
            2i32 => Some(EngineGraphicType::EngineGraphic3dsprite),
            3i32 => Some(EngineGraphicType::EngineGraphicGeneratedEffect),
            4i32 => Some(EngineGraphicType::EngineGraphicAnimatingMesh),
            5i32 => Some(EngineGraphicType::EngineGraphicStaticMesh),
            6i32 => Some(EngineGraphicType::MaxNoEngineGraphicTypes),
            _ => None,
        }
    }

    fn from_i32(value: i32) -> (r: Option<Self>) {
        match value {
            0i32 => Some(EngineGraphicType::EngineGraphicNull),
            1i32 => Some(EngineGraphicType::EngineGraphicSprite),
            2i32 => Some(EngineGraphicType::EngineGraphic3dsprite),
            3i32 => Some(EngineGraphicType::EngineGraphicGeneratedEffect),
            4i32 => Some(EngineGraphicType::EngineGraphicAnimatingMesh),
            5i32 => Some(EngineGraphicType::EngineGraphicStaticMesh),
            6i32 => Some(EngineGraphicType::MaxNoEngineGraphicTypes),
            _ => None,
        }
    }

    fn to_i32(self) -> (r: i32) {
        match self {
            EngineGraphicType::EngineGraphicNull => 0i32,
            EngineGraphicType::EngineGraphicSprite => 1i32,
            EngineGraphicType::EngineGraphic3dsprite => 2i32,
            EngineGraphicType::EngineGraphicGeneratedEffect => 3i32,
            EngineGraphicType::EngineGraphicAnimatingMesh => 4i32,
            EngineGraphicType::EngineGraphicStaticMesh => 5i32,
            EngineGraphicType::MaxNoEngineGraphicTypes => 6i32,
        }
    }

    proof fn lemma_lookup_wire_value(e: Self) {
    }
}

impl EngineGraphicType {
    /// The C++ enumerator symbol of `self`.
    pub open spec fn symbol_of(self) -> Seq<char> {
        match self {
            EngineGraphicType::EngineGraphicNull => "ENGINE_GRAPHIC_NULL"@,
            EngineGraphicType::EngineGraphicSprite => "ENGINE_GRAPHIC_SPRITE"@,
            EngineGraphicType::EngineGraphic3dsprite => "ENGINE_GRAPHIC_3DSPRITE"@,
            EngineGraphicType::EngineGraphicGeneratedEffect => "ENGINE_GRAPHIC_GENERATED_EFFECT"@,
            EngineGraphicType::EngineGraphicAnimatingMesh => "ENGINE_GRAPHIC_ANIMATING_MESH"@,
            EngineGraphicType::EngineGraphicStaticMesh => "ENGINE_GRAPHIC_STATIC_MESH"@,
            EngineGraphicType::MaxNoEngineGraphicTypes => "MAX_NO_ENGINE_GRAPHIC_TYPES"@,
        }
    }

    /// The first variant whose symbol is `s`, if any.
    pub open spec fn symbol_lookup(s: Seq<char>) -> Option<Self> {
        if s == "ENGINE_GRAPHIC_NULL"@ {
            Some(EngineGraphicType::EngineGraphicNull)
        } else if s == "ENGINE_GRAPHIC_SPRITE"@ {
            Some(EngineGraphicType::EngineGraphicSprite)
        } else if s == "ENGINE_GRAPHIC_3DSPRITE"@ {
            Some(EngineGraphicType::EngineGraphic3dsprite)
        } else if s == "ENGINE_GRAPHIC_GENERATED_EFFECT"@ {
            Some(EngineGraphicType::EngineGraphicGeneratedEffect)
        } else if s == "ENGINE_GRAPHIC_ANIMATING_MESH"@ {
            Some(EngineGraphicType::EngineGraphicAnimatingMesh)
        } else if s == "ENGINE_GRAPHIC_STATIC_MESH"@ {
            Some(EngineGraphicType::EngineGraphicStaticMesh)
        } else if s == "MAX_NO_ENGINE_GRAPHIC_TYPES"@ {
            Some(EngineGraphicType::MaxNoEngineGraphicTypes)
        } else {
            None
        }
    }

    /// The C++ enumerator symbol text defs use for `self`.
    pub fn symbol(self) -> (r: &'static str)
        ensures
            r@ == self.symbol_of(),
    {
        match self {
            EngineGraphicType::EngineGraphicNull => "ENGINE_GRAPHIC_NULL",
            EngineGraphicType::EngineGraphicSprite => "ENGINE_GRAPHIC_SPRITE",
            EngineGraphicType::EngineGraphic3dsprite => "ENGINE_GRAPHIC_3DSPRITE",
            EngineGraphicType::EngineGraphicGeneratedEffect => "ENGINE_GRAPHIC_GENERATED_EFFECT",
            EngineGraphicType::EngineGraphicAnimatingMesh => "ENGINE_GRAPHIC_ANIMATING_MESH",
            EngineGraphicType::EngineGraphicStaticMesh => "ENGINE_GRAPHIC_STATIC_MESH",
            EngineGraphicType::MaxNoEngineGraphicTypes => "MAX_NO_ENGINE_GRAPHIC_TYPES",
        }
    }

    /// The variant a C++ enumerator symbol names.
    pub fn from_symbol(s: &str) -> (r: Option<Self>)
        ensures
            r == Self::symbol_lookup(s@),
    {
        if str_eq(s, "ENGINE_GRAPHIC_NULL") {
            return Some(EngineGraphicType::EngineGraphicNull);
        }
        if str_eq(s, "ENGINE_GRAPHIC_SPRITE") {
            return Some(EngineGraphicType::EngineGraphicSprite);
        }
        if str_eq(s, "ENGINE_GRAPHIC_3DSPRITE") {
            return Some(EngineGraphicType::EngineGraphic3dsprite);
        }
        if str_eq(s, "ENGINE_GRAPHIC_GENERATED_EFFECT") {
            return Some(EngineGraphicType::EngineGraphicGeneratedEffect);
        }
        if str_eq(s, "ENGINE_GRAPHIC_ANIMATING_MESH") {
            return Some(EngineGraphicType::EngineGraphicAnimatingMesh);
        }
        if str_eq(s, "ENGINE_GRAPHIC_STATIC_MESH") {
            return Some(EngineGraphicType::EngineGraphicStaticMesh);
        }
        if str_eq(s, "MAX_NO_ENGINE_GRAPHIC_TYPES") {
            return Some(EngineGraphicType::MaxNoEngineGraphicTypes);
        }
        None
    }
}

/// 2D sprite render flags. `0` (no flags) occurs in real data.
#[derive(Debug, Clone, Copy, PartialEq, Eq, Structural, PartialOrd, Ord, Hash, Default)]
pub struct Sprite2dFlags(pub i32);

impl Sprite2dFlags {
    /// The bits of `ENGINE_2D_SPRITE_CENTRE_ON_POS`.
    pub const CENTRE_ON_POS: i32 = 1i32;
    /// The bits of `ENGINE_2D_SPRITE_ENABLE_FILTERING`.
    pub const ENABLE_FILTERING: i32 = 2i32;

    /// The flag a C++ enumerator symbol names, if any.
    pub open spec fn symbol_lookup(s: Seq<char>) -> Option<Self> {
        if s == "ENGINE_2D_SPRITE_CENTRE_ON_POS"@ {
            Some(Sprite2dFlags(1i32))
        } else if s == "ENGINE_2D_SPRITE_ENABLE_FILTERING"@ {
            Some(Sprite2dFlags(2i32))
        } else {
            None
        }
    }

    /// The set holding exactly the bits of `value` (lossless).
    pub fn from_i32(value: i32) -> (r: Self)
        ensures
            r.0 == value,
    {
        Sprite2dFlags(value)
    }

    pub fn to_i32(self) -> (r: i32)
        ensures
            r == self.0,
    {
        self.0
    }

    /// Whether every bit of `other` is set in `self`.
    pub fn contains(self, other: Self) -> (r: bool)
        ensures
            r == (self.0 & other.0 == other.0),
    {
        self.0 & other.0 == other.0
    }

    /// Whether no bit is set.
    pub fn is_empty(self) -> (r: bool)
        ensures
            r == (self.0 == 0),
    {
        self.0 == 0
    }

    /// The bits set in either.
    pub fn union(self, other: Self) -> (r: Self)
        ensures
            r.0 == self.0 | other.0,
    {
        Sprite2dFlags(self.0 | other.0)
    }

    /// The flag a C++ enumerator symbol names.
    pub fn from_symbol(s: &str) -> (r: Option<Self>)
        ensures
            r == Self::symbol_lookup(s@),
    {
        if str_eq(s, "ENGINE_2D_SPRITE_CENTRE_ON_POS") {
            return Some(Sprite2dFlags(1i32));
        }
        if str_eq(s, "ENGINE_2D_SPRITE_ENABLE_FILTERING") {
            return Some(Sprite2dFlags(2i32));
        }
        None
    }
}

impl core::ops::BitOr for Sprite2dFlags {
    type Output = Sprite2dFlags;

    fn bitor(self, rhs: Sprite2dFlags) -> (r: Sprite2dFlags) {
        Sprite2dFlags(self.0 | rhs.0)
    }
}

impl vstd::std_specs::ops::BitOrSpecImpl for Sprite2dFlags {
    open spec fn obeys_bitor_spec() -> bool {
        true
    }

    open spec fn bitor_req(self, rhs: Sprite2dFlags) -> bool {
        true
    }

    open spec fn bitor_spec(self, rhs: Sprite2dFlags) -> Sprite2dFlags {
        Sprite2dFlags(self.0 | rhs.0)
    }
}

/// Bindable game action.
#[derive(Debug, Clone, Copy, PartialEq, Eq, Structural, PartialOrd, Ord, Hash)]
pub enum GameAction {
    Null,
    LockTarget,
    OpenInventory,
    OpenInGameMenu,
    ToggleMiniMap,
    Pause,
    Interact,
    Block,
    SpecialAttack,
    Attack,
    FireRangedWeapon,
    UnarmedAttack,
    ArmedMeleeAttack,
    UnsheatheMeleeWeapon,
    UnsheatheRangedWeapon,
    SheatheMeleeWeapon,
    SheatheRangedWeapon,
    ToggleSilentMove,
    ToggleCinematicAndUserCamera,
    ToggleFirstPersonView,
    SkipPastText,
    SkipCutScene,
    AnswerQuestionYes,
    AnswerQuestionNo,
    AnswerQuestionThird,
    InventorySelect,
    AttractExperienceOrbs,
    RotateGuiScreensLeft,
    RotateGuiScreensRight,
    Jump,
    Sprint,
    Run,
    Sneak,
    InventoryA,
    InventoryB,
    InventoryX,
    InventoryY,
    InventoryUp,
    InventoryDown,
    InventoryLeft,
    InventoryRight,
    InventoryWhite,
    TavernGamesInstructions,
    FishingReelIn,
    FishingCancel,
    ToggleFirstPersonTargeting,
    FirstPersonTargetLock,
    FirstPersonZoomIn,
    GeneralLeavePlayerMode,
    DebugJump1,
    DebugJump2,
    DebugCamera,
    DebugShift,
    TakePhotoForPhotojournal,
    AssignableSpecialMove,
    QuickAccessItem,
    ContextSensitiveItem,
    CycleThroughSpells,
    CoinGolfCancelAim,
    ConfirmResetToFrontEnd,
    Movement,
    CameraRotate,
    CameraRotateLeft,
    CameraRotateRight,
    CameraZoomIn,
    CameraZoomOut,
    OracleMinigameUp,
    OracleMinigameDown,
    OracleMinigameLeft,
    OracleMinigameRight,
    OracleMinigameQuit,
    MoveMouseOnGui,
    ToggleLiveGui,
    OpenExpressionMenu,
    ToggleDeactivateLockTarget,
    FirstPersonLookaround,
    InventoryUnselect,
    CameraMoveDoubleAxis,
    ChargeGuildSeal,
    TavernGameMovement,
    TavernGameCamera,
    TavernGameActionButton,
    TavernGameAlternateButton,
    TavernGameQuit,
    ProjectileTargetingAnalogueZoom,
    TogglePassiveAggressiveMode,
    ActivateSpellMode,
    ExpressionShift,
    ScrollDescriptionUp,
    ScrollDescriptionDown,
    OpenWeaponsMenu,
    OpenClothingMenu,
    OpenItemsMenu,
    OpenCurrentQuestsMenu,
    CycleThroughSpellsKeyboard,
    ToggleKillEverythingMode,
    OpenMagicMenu,
    OpenExpressionsMenu,
    OpenPersonalityMenu,
    OpenLogbookMenu,
    OpenMapMenu,
    ScrollMenu,
    ZoomMapOut,
    ZoomMapIn,
    ScrollMapLeft,
    ScrollMapRight,
    ScrollMapDown,
    ScrollMapUp,
    OptionsSliderLeft,
    OptionsSliderRight,
    DigitalAnalogueZoomIn,
    DigitalAnalogueZoomOut,
    ToggleViewHeroMode,
    CentreCamera,
    Betting,
    Count,
    GameAction116,
    GameAction117,
    GameAction118,
    GameAction119,
    GameAction120,
    GameAction121,
    GameAction122,
    GameAction123,
    GameAction124,
    GameAction125,
    GameAction126,
    GameAction127,
}

impl DefEnum for GameAction {
    open spec fn wire_value(self) -> i32 {
        match self {
            GameAction::Null => 0i32,
            GameAction::LockTarget => 1i32,
            GameAction::OpenInventory => 2i32,
            GameAction::OpenInGameMenu => 3i32,
            GameAction::ToggleMiniMap => 4i32,
            GameAction::Pause => 5i32,
            GameAction::Interact => 6i32,
            GameAction::Block => 7i32,
            GameAction::SpecialAttack => 8i32,
            GameAction::Attack => 9i32,
            GameAction::FireRangedWeapon => 10i32,
            GameAction::UnarmedAttack => 11i32,
            GameAction::ArmedMeleeAttack => 12i32,
            GameAction::UnsheatheMeleeWeapon => 13i32,
            GameAction::UnsheatheRangedWeapon => 14i32,
            GameAction::SheatheMeleeWeapon => 15i32,
            GameAction::SheatheRangedWeapon => 16i32,
            GameAction::ToggleSilentMove => 17i32,
            GameAction::ToggleCinematicAndUserCamera => 18i32,
            GameAction::ToggleFirstPersonView => 19i32,
            GameAction::SkipPastText => 20i32,
            GameAction::SkipCutScene => 21i32,
            GameAction::AnswerQuestionYes => 22i32,
            GameAction::AnswerQuestionNo => 23i32,
            GameAction::AnswerQuestionThird => 24i32,
            GameAction::InventorySelect => 25i32,
            GameAction::AttractExperienceOrbs => 26i32,
            GameAction::RotateGuiScreensLeft => 27i32,
            GameAction::RotateGuiScreensRight => 28i32,
            GameAction::Jump => 29i32,
            GameAction::Sprint => 30i32,
            GameAction::Run => 31i32,
            GameAction::Sneak => 32i32,
            GameAction::InventoryA => 33i32,
            GameAction::InventoryB => 34i32,
            GameAction::InventoryX => 35i32,
            GameAction::InventoryY => 36i32,
            GameAction::InventoryUp => 37i32,
            GameAction::InventoryDown => 38i32,
            GameAction::InventoryLeft => 39i32,
            GameAction::InventoryRight => 40i32,
            GameAction::InventoryWhite => 41i32,
            GameAction::TavernGamesInstructions => 42i32,
            GameAction::FishingReelIn => 43i32,
            GameAction::FishingCancel => 44i32,
            GameAction::ToggleFirstPersonTargeting => 45i32,
            GameAction::FirstPersonTargetLock => 46i32,
            GameAction::FirstPersonZoomIn => 47i32,
            GameAction::GeneralLeavePlayerMode => 48i32,
            GameAction::DebugJump1 => 49i32,
            GameAction::DebugJump2 => 50i32,
            GameAction::DebugCamera => 51i32,
            GameAction::DebugShift => 52i32,
            GameAction::TakePhotoForPhotojournal => 53i32,
            GameAction::AssignableSpecialMove => 54i32,
            GameAction::QuickAccessItem => 55i32,
            GameAction::ContextSensitiveItem => 56i32,
            GameAction::CycleThroughSpells => 57i32,
            GameAction::CoinGolfCancelAim => 58i32,
            GameAction::ConfirmResetToFrontEnd => 59i32,
            GameAction::Movement => 60i32,
            GameAction::CameraRotate => 61i32,
            GameAction::CameraRotateLeft => 62i32,
            GameAction::CameraRotateRight => 63i32,
            GameAction::CameraZoomIn => 64i32,
            GameAction::CameraZoomOut => 65i32,
            GameAction::OracleMinigameUp => 66i32,
            GameAction::OracleMinigameDown => 67i32,
            GameAction::OracleMinigameLeft => 68i32,
            GameAction::OracleMinigameRight => 69i32,
            GameAction::OracleMinigameQuit => 70i32,
            GameAction::MoveMouseOnGui => 71i32,
            GameAction::ToggleLiveGui => 72i32,
            GameAction::OpenExpressionMenu => 73i32,
            GameAction::ToggleDeactivateLockTarget => 74i32,
            GameAction::FirstPersonLookaround => 75i32,
            GameAction::InventoryUnselect => 76i32,
            GameAction::CameraMoveDoubleAxis => 77i32,
            GameAction::ChargeGuildSeal => 78i32,
            GameAction::TavernGameMovement => 79i32,
            GameAction::TavernGameCamera => 80i32,
            GameAction::TavernGameActionButton => 81i32,
            GameAction::TavernGameAlternateButton => 82i32,
            GameAction::TavernGameQuit => 83i32,
            GameAction::ProjectileTargetingAnalogueZoom => 84i32,
            GameAction::TogglePassiveAggressiveMode => 85i32,
            GameAction::ActivateSpellMode => 86i32,
            GameAction::ExpressionShift => 87i32,
            GameAction::ScrollDescriptionUp => 88i32,
            GameAction::ScrollDescriptionDown => 89i32,
            GameAction::OpenWeaponsMenu => 90i32,
            GameAction::OpenClothingMenu => 91i32,
            GameAction::OpenItemsMenu => 92i32,
            GameAction::OpenCurrentQuestsMenu => 93i32,
            GameAction::CycleThroughSpellsKeyboard => 94i32,
            GameAction::ToggleKillEverythingMode => 95i32,
            GameAction::OpenMagicMenu => 96i32,
            GameAction::OpenExpressionsMenu => 97i32,
            GameAction::OpenPersonalityMenu => 98i32,
            GameAction::OpenLogbookMenu => 99i32,
            GameAction::OpenMapMenu => 100i32,
            GameAction::ScrollMenu => 101i32,
            GameAction::ZoomMapOut => 102i32,
            GameAction::ZoomMapIn => 103i32,
            GameAction::ScrollMapLeft => 104i32,
            GameAction::ScrollMapRight => 105i32,
            GameAction::ScrollMapDown => 106i32,
            GameAction::ScrollMapUp => 107i32,
            GameAction::OptionsSliderLeft => 108i32,
            GameAction::OptionsSliderRight => 109i32,
            GameAction::DigitalAnalogueZoomIn => 110i32,
            GameAction::DigitalAnalogueZoomOut => 111i32,
            GameAction::ToggleViewHeroMode => 112i32,
            GameAction::CentreCamera => 113i32,
            GameAction::Betting => 114i32,
            GameAction::Count => 115i32,
            GameAction::GameAction116 => 116i32,
            GameAction::GameAction117 => 117i32,
            GameAction::GameAction118 => 118i32,
            GameAction::GameAction119 => 119i32,
            GameAction::GameAction120 => 120i32,
            GameAction::GameAction121 => 121i32,
            GameAction::GameAction122 => 122i32,
            GameAction::GameAction123 => 123i32,
            GameAction::GameAction124 => 124i32,
            GameAction::GameAction125 => 125i32,
            GameAction::GameAction126 => 126i32,
            GameAction::GameAction127 => 127i32,
        }
    }

    open spec fn lookup(value: i32) -> Option<Self> {
        match value {
            0i32 => Some(GameAction::Null),
            1i32 => Some(GameAction::LockTarget),
            2i32 => Some(GameAction::OpenInventory),
            3i32 => Some(GameAction::OpenInGameMenu),
            4i32 => Some(GameAction::ToggleMiniMap),
            5i32 => Some(GameAction::Pause),
            6i32 => Some(GameAction::Interact),
            7i32 => Some(GameAction::Block),
            8i32 => Some(GameAction::SpecialAttack),
            9i32 => Some(GameAction::Attack),
            10i32 => Some(GameAction::FireRangedWeapon),
            11i32 => Some(GameAction::UnarmedAttack),
            12i32 => Some(GameAction::ArmedMeleeAttack),
            13i32 => Some(GameAction::UnsheatheMeleeWeapon),
            14i32 => Some(GameAction::UnsheatheRangedWeapon),
            15i32 => Some(GameAction::SheatheMeleeWeapon),
            16i32 => Some(GameAction::SheatheRangedWeapon),
            17i32 => Some(GameAction::ToggleSilentMove),
            18i32 => Some(GameAction::ToggleCinematicAndUserCamera),
            19i32 => Some(GameAction::ToggleFirstPersonView),
            20i32 => Some(GameAction::SkipPastText),
            21i32 => Some(GameAction::SkipCutScene),
            22i32 => Some(GameAction::AnswerQuestionYes),
            23i32 => Some(GameAction::AnswerQuestionNo),
            24i32 => Some(GameAction::AnswerQuestionThird),
            25i32 => Some(GameAction::InventorySelect),
            26i32 => Some(GameAction::AttractExperienceOrbs),
            27i32 => Some(GameAction::RotateGuiScreensLeft),
            28i32 => Some(GameAction::RotateGuiScreensRight),
            29i32 => Some(GameAction::Jump),
            30i32 => Some(GameAction::Sprint),
            31i32 => Some(GameAction::Run),
            32i32 => Some(GameAction::Sneak),
            33i32 => Some(GameAction::InventoryA),
            34i32 => Some(GameAction::InventoryB),
            35i32 => Some(GameAction::InventoryX),
            36i32 => Some(GameAction::InventoryY),
            37i32 => Some(GameAction::InventoryUp),
            38i32 => Some(GameAction::InventoryDown),
            39i32 => Some(GameAction::InventoryLeft),
            40i32 => Some(GameAction::InventoryRight),
            41i32 => Some(GameAction::InventoryWhite),
            42i32 => Some(GameAction::TavernGamesInstructions),
            43i32 => Some(GameAction::FishingReelIn),
            44i32 => Some(GameAction::FishingCancel),
            45i32 => Some(GameAction::ToggleFirstPersonTargeting),
            46i32 => Some(GameAction::FirstPersonTargetLock),
            47i32 => Some(GameAction::FirstPersonZoomIn),
            48i32 => Some(GameAction::GeneralLeavePlayerMode),
            49i32 => Some(GameAction::DebugJump1),
            50i32 => Some(GameAction::DebugJump2),
            51i32 => Some(GameAction::DebugCamera),
            52i32 => Some(GameAction::DebugShift),
            53i32 => Some(GameAction::TakePhotoForPhotojournal),
            54i32 => Some(GameAction::AssignableSpecialMove),
            55i32 => Some(GameAction::QuickAccessItem),
            56i32 => Some(GameAction::ContextSensitiveItem),
            57i32 => Some(GameAction::CycleThroughSpells),
            58i32 => Some(GameAction::CoinGolfCancelAim),
            59i32 => Some(GameAction::ConfirmResetToFrontEnd),
            60i32 => Some(GameAction::Movement),
            61i32 => Some(GameAction::CameraRotate),
            62i32 => Some(GameAction::CameraRotateLeft),
            63i32 => Some(GameAction::CameraRotateRight),
            64i32 => Some(GameAction::CameraZoomIn),
            65i32 => Some(GameAction::CameraZoomOut),
            66i32 => Some(GameAction::OracleMinigameUp),
            67i32 => Some(GameAction::OracleMinigameDown),
            68i32 => Some(GameAction::OracleMinigameLeft),
            69i32 => Some(GameAction::OracleMinigameRight),
            70i32 => Some(GameAction::OracleMinigameQuit),
            71i32 => Some(GameAction::MoveMouseOnGui),
            72i32 => Some(GameAction::ToggleLiveGui),
            73i32 => Some(GameAction::OpenExpressionMenu),
            74i32 => Some(GameAction::ToggleDeactivateLockTarget),
            75i32 => Some(GameAction::FirstPersonLookaround),
            76i32 => Some(GameAction::InventoryUnselect),
            77i32 => Some(GameAction::CameraMoveDoubleAxis),
            78i32 => Some(GameAction::ChargeGuildSeal),
            79i32 => Some(GameAction::TavernGameMovement),
            80i32 => Some(GameAction::TavernGameCamera),
            81i32 => Some(GameAction::TavernGameActionButton),
            82i32 => Some(GameAction::TavernGameAlternateButton),
            83i32 => Some(GameAction::TavernGameQuit),
            84i32 => Some(GameAction::ProjectileTargetingAnalogueZoom),
            85i32 => Some(GameAction::TogglePassiveAggressiveMode),
            86i32 => Some(GameAction::ActivateSpellMode),
            87i32 => Some(GameAction::ExpressionShift),
            88i32 => Some(GameAction::ScrollDescriptionUp),
            89i32 => Some(GameAction::ScrollDescriptionDown),
            90i32 => Some(GameAction::OpenWeaponsMenu),
            91i32 => Some(GameAction::OpenClothingMenu),
            92i32 => Some(GameAction::OpenItemsMenu),
            93i32 => Some(GameAction::OpenCurrentQuestsMenu),
            94i32 => Some(GameAction::CycleThroughSpellsKeyboard),
            95i32 => Some(GameAction::ToggleKillEverythingMode),
            96i32 => Some(GameAction::OpenMagicMenu),
            97i32 => Some(GameAction::OpenExpressionsMenu),
            98i32 => Some(GameAction::OpenPersonalityMenu),
            99i32 => Some(GameAction::OpenLogbookMenu),
            100i32 => Some(GameAction::OpenMapMenu),
            101i32 => Some(GameAction::ScrollMenu),
            102i32 => Some(GameAction::ZoomMapOut),
            103i32 => Some(GameAction::ZoomMapIn),
            104i32 => Some(GameAction::ScrollMapLeft),
            105i32 => Some(GameAction::ScrollMapRight),
            106i32 => Some(GameAction::ScrollMapDown),
            107i32 => Some(GameAction::ScrollMapUp),
            108i32 => Some(GameAction::OptionsSliderLeft),
            109i32 => Some(GameAction::OptionsSliderRight),
            110i32 => Some(GameAction::DigitalAnalogueZoomIn),
            111i32 => Some(GameAction::DigitalAnalogueZoomOut),
            112i32 => Some(GameAction::ToggleViewHeroMode),
            113i32 => Some(GameAction::CentreCamera),
            114i32 => Some(GameAction::Betting),
            115i32 => Some(GameAction::Count),
            116i32 => Some(GameAction::GameAction116),
            117i32 => Some(GameAction::GameAction117),
            118i32 => Some(GameAction::GameAction118),
            119i32 => Some(GameAction::GameAction119),
            120i32 => Some(GameAction::GameAction120),
            121i32 => Some(GameAction::GameAction121),
            122i32 => Some(GameAction::GameAction122),
            123i32 => Some(GameAction::GameAction123),
            124i32 => Some(GameAction::GameAction124),
            125i32 => Some(GameAction::GameAction125),
            126i32 => Some(GameAction::GameAction126),
            127i32 => Some(GameAction::GameAction127),
            _ => None,
        }
    }

    fn from_i32(value: i32) -> (r: Option<Self>) {
        match value {
            0i32 => Some(GameAction::Null),
            1i32 => Some(GameAction::LockTarget),
            2i32 => Some(GameAction::OpenInventory),
            3i32 => Some(GameAction::OpenInGameMenu),
            4i32 => Some(GameAction::ToggleMiniMap),
            5i32 => Some(GameAction::Pause),
            6i32 => Some(GameAction::Interact),
            7i32 => Some(GameAction::Block),
            8i32 => Some(GameAction::SpecialAttack),
            9i32 => Some(GameAction::Attack),
            10i32 => Some(GameAction::FireRangedWeapon),
            11i32 => Some(GameAction::UnarmedAttack),
            12i32 => Some(GameAction::ArmedMeleeAttack),
            13i32 => Some(GameAction::UnsheatheMeleeWeapon),
            14i32 => Some(GameAction::UnsheatheRangedWeapon),
            15i32 => Some(GameAction::SheatheMeleeWeapon),
            16i32 => Some(GameAction::SheatheRangedWeapon),
            17i32 => Some(GameAction::ToggleSilentMove),
            18i32 => Some(GameAction::ToggleCinematicAndUserCamera),
            19i32 => Some(GameAction::ToggleFirstPersonView),
            20i32 => Some(GameAction::SkipPastText),
            21i32 => Some(GameAction::SkipCutScene),
            22i32 => Some(GameAction::AnswerQuestionYes),
            23i32 => Some(GameAction::AnswerQuestionNo),
            24i32 => Some(GameAction::AnswerQuestionThird),
            25i32 => Some(GameAction::InventorySelect),
            26i32 => Some(GameAction::AttractExperienceOrbs),
            27i32 => Some(GameAction::RotateGuiScreensLeft),
            28i32 => Some(GameAction::RotateGuiScreensRight),
            29i32 => Some(GameAction::Jump),
            30i32 => Some(GameAction::Sprint),
            31i32 => Some(GameAction::Run),
            32i32 => Some(GameAction::Sneak),
            33i32 => Some(GameAction::InventoryA),
            34i32 => Some(GameAction::InventoryB),
            35i32 => Some(GameAction::InventoryX),
            36i32 => Some(GameAction::InventoryY),
            37i32 => Some(GameAction::InventoryUp),
            38i32 => Some(GameAction::InventoryDown),
            39i32 => Some(GameAction::InventoryLeft),
            40i32 => Some(GameAction::InventoryRight),
            41i32 => Some(GameAction::InventoryWhite),
            42i32 => Some(GameAction::TavernGamesInstructions),
            43i32 => Some(GameAction::FishingReelIn),
            44i32 => Some(GameAction::FishingCancel),
            45i32 => Some(GameAction::ToggleFirstPersonTargeting),
            46i32 => Some(GameAction::FirstPersonTargetLock),
            47i32 => Some(GameAction::FirstPersonZoomIn),
            48i32 => Some(GameAction::GeneralLeavePlayerMode),
            49i32 => Some(GameAction::DebugJump1),
            50i32 => Some(GameAction::DebugJump2),
            51i32 => Some(GameAction::DebugCamera),
            52i32 => Some(GameAction::DebugShift),
            53i32 => Some(GameAction::TakePhotoForPhotojournal),
            54i32 => Some(GameAction::AssignableSpecialMove),
            55i32 => Some(GameAction::QuickAccessItem),
            56i32 => Some(GameAction::ContextSensitiveItem),
            57i32 => Some(GameAction::CycleThroughSpells),
            58i32 => Some(GameAction::CoinGolfCancelAim),
            59i32 => Some(GameAction::ConfirmResetToFrontEnd),
            60i32 => Some(GameAction::Movement),
            61i32 => Some(GameAction::CameraRotate),
            62i32 => Some(GameAction::CameraRotateLeft),
            63i32 => Some(GameAction::CameraRotateRight),
            64i32 => Some(GameAction::CameraZoomIn),
            65i32 => Some(GameAction::CameraZoomOut),
            66i32 => Some(GameAction::OracleMinigameUp),
            67i32 => Some(GameAction::OracleMinigameDown),
            68i32 => Some(GameAction::OracleMinigameLeft),
            69i32 => Some(GameAction::OracleMinigameRight),
            70i32 => Some(GameAction::OracleMinigameQuit),
            71i32 => Some(GameAction::MoveMouseOnGui),
            72i32 => Some(GameAction::ToggleLiveGui),
            73i32 => Some(GameAction::OpenExpressionMenu),
            74i32 => Some(GameAction::ToggleDeactivateLockTarget),
            75i32 => Some(GameAction::FirstPersonLookaround),
            76i32 => Some(GameAction::InventoryUnselect),
            77i32 => Some(GameAction::CameraMoveDoubleAxis),
            78i32 => Some(GameAction::ChargeGuildSeal),
            79i32 => Some(GameAction::TavernGameMovement),
            80i32 => Some(GameAction::TavernGameCamera),
            81i32 => Some(GameAction::TavernGameActionButton),
            82i32 => Some(GameAction::TavernGameAlternateButton),
            83i32 => Some(GameAction::TavernGameQuit),
            84i32 => Some(GameAction::ProjectileTargetingAnalogueZoom),
            85i32 => Some(GameAction::TogglePassiveAggressiveMode),
            86i32 => Some(GameAction::ActivateSpellMode),
            87i32 => Some(GameAction::ExpressionShift),
            88i32 => Some(GameAction::ScrollDescriptionUp),
            89i32 => Some(GameAction::ScrollDescriptionDown),
            90i32 => Some(GameAction::OpenWeaponsMenu),
            91i32 => Some(GameAction::OpenClothingMenu),
            92i32 => Some(GameAction::OpenItemsMenu),
            93i32 => Some(GameAction::OpenCurrentQuestsMenu),
            94i32 => Some(GameAction::CycleThroughSpellsKeyboard),
            95i32 => Some(GameAction::ToggleKillEverythingMode),
            96i32 => Some(GameAction::OpenMagicMenu),
            97i32 => Some(GameAction::OpenExpressionsMenu),
            98i32 => Some(GameAction::OpenPersonalityMenu),
            99i32 => Some(GameAction::OpenLogbookMenu),
            100i32 => Some(GameAction::OpenMapMenu),
            101i32 => Some(GameAction::ScrollMenu),
            102i32 => Some(GameAction::ZoomMapOut),
            103i32 => Some(GameAction::ZoomMapIn),
            104i32 => Some(GameAction::ScrollMapLeft),
            105i32 => Some(GameAction::ScrollMapRight),
            106i32 => Some(GameAction::ScrollMapDown),
            107i32 => Some(GameAction::ScrollMapUp),
            108i32 => Some(GameAction::OptionsSliderLeft),
            109i32 => Some(GameAction::OptionsSliderRight),
            110i32 => Some(GameAction::DigitalAnalogueZoomIn),
            111i32 => Some(GameAction::DigitalAnalogueZoomOut),
            112i32 => Some(GameAction::ToggleViewHeroMode),
            113i32 => Some(GameAction::CentreCamera),
            114i32 => Some(GameAction::Betting),
            115i32 => Some(GameAction::Count),
            116i32 => Some(GameAction::GameAction116),
            117i32 => Some(GameAction::GameAction117),
            118i32 => Some(GameAction::GameAction118),
            119i32 => Some(GameAction::GameAction119),
            120i32 => Some(GameAction::GameAction120),
            121i32 => Some(GameAction::GameAction121),
            122i32 => Some(GameAction::GameAction122),
            123i32 => Some(GameAction::GameAction123),
            124i32 => Some(GameAction::GameAction124),
            125i32 => Some(GameAction::GameAction125),
            126i32 => Some(GameAction::GameAction126),
            127i32 => Some(GameAction::GameAction127),
            _ => None,
        }
    }

    fn to_i32(self) -> (r: i32) {
        match self {
            GameAction::Null => 0i32,
            GameAction::LockTarget => 1i32,
            GameAction::OpenInventory => 2i32,
            GameAction::OpenInGameMenu => 3i32,
            GameAction::ToggleMiniMap => 4i32,
            GameAction::Pause => 5i32,
            GameAction::Interact => 6i32,
            GameAction::Block => 7i32,
            GameAction::SpecialAttack => 8i32,
            GameAction::Attack => 9i32,
            GameAction::FireRangedWeapon => 10i32,
            GameAction::UnarmedAttack => 11i32,
            GameAction::ArmedMeleeAttack => 12i32,
            GameAction::UnsheatheMeleeWeapon => 13i32,
            GameAction::UnsheatheRangedWeapon => 14i32,
            GameAction::SheatheMeleeWeapon => 15i32,
            GameAction::SheatheRangedWeapon => 16i32,
            GameAction::ToggleSilentMove => 17i32,
            GameAction::ToggleCinematicAndUserCamera => 18i32,
            GameAction::ToggleFirstPersonView => 19i32,
            GameAction::SkipPastText => 20i32,
            GameAction::SkipCutScene => 21i32,
            GameAction::AnswerQuestionYes => 22i32,
            GameAction::AnswerQuestionNo => 23i32,
            GameAction::AnswerQuestionThird => 24i32,
            GameAction::InventorySelect => 25i32,
            GameAction::AttractExperienceOrbs => 26i32,
            GameAction::RotateGuiScreensLeft => 27i32,
            GameAction::RotateGuiScreensRight => 28i32,
            GameAction::Jump => 29i32,
            GameAction::Sprint => 30i32,
            GameAction::Run => 31i32,
            GameAction::Sneak => 32i32,
            GameAction::InventoryA => 33i32,
            GameAction::InventoryB => 34i32,
            GameAction::InventoryX => 35i32,
            GameAction::InventoryY => 36i32,
            GameAction::InventoryUp => 37i32,
            GameAction::InventoryDown => 38i32,
            GameAction::InventoryLeft => 39i32,
            GameAction::InventoryRight => 40i32,
            GameAction::InventoryWhite => 41i32,
            GameAction::TavernGamesInstructions => 42i32,
            GameAction::FishingReelIn => 43i32,
            GameAction::FishingCancel => 44i32,
            GameAction::ToggleFirstPersonTargeting => 45i32,
            GameAction::FirstPersonTargetLock => 46i32,
            GameAction::FirstPersonZoomIn => 47i32,
            GameAction::GeneralLeavePlayerMode => 48i32,
            GameAction::DebugJump1 => 49i32,
            GameAction::DebugJump2 => 50i32,
            GameAction::DebugCamera => 51i32,
            GameAction::DebugShift => 52i32,
            GameAction::TakePhotoForPhotojournal => 53i32,
            GameAction::AssignableSpecialMove => 54i32,
            GameAction::QuickAccessItem => 55i32,
            GameAction::ContextSensitiveItem => 56i32,
            GameAction::CycleThroughSpells => 57i32,
            GameAction::CoinGolfCancelAim => 58i32,
            GameAction::ConfirmResetToFrontEnd => 59i32,
            GameAction::Movement => 60i32,
            GameAction::CameraRotate => 61i32,
            GameAction::CameraRotateLeft => 62i32,
            GameAction::CameraRotateRight => 63i32,
            GameAction::CameraZoomIn => 64i32,
            GameAction::CameraZoomOut => 65i32,
            GameAction::OracleMinigameUp => 66i32,
            GameAction::OracleMinigameDown => 67i32,
            GameAction::OracleMinigameLeft => 68i32,
            GameAction::OracleMinigameRight => 69i32,
            GameAction::OracleMinigameQuit => 70i32,
            GameAction::MoveMouseOnGui => 71i32,
            GameAction::ToggleLiveGui => 72i32,
            GameAction::OpenExpressionMenu => 73i32,
            GameAction::ToggleDeactivateLockTarget => 74i32,
            GameAction::FirstPersonLookaround => 75i32,
            GameAction::InventoryUnselect => 76i32,
            GameAction::CameraMoveDoubleAxis => 77i32,
            GameAction::ChargeGuildSeal => 78i32,
            GameAction::TavernGameMovement => 79i32,
            GameAction::TavernGameCamera => 80i32,
            GameAction::TavernGameActionButton => 81i32,
            GameAction::TavernGameAlternateButton => 82i32,
            GameAction::TavernGameQuit => 83i32,
            GameAction::ProjectileTargetingAnalogueZoom => 84i32,
            GameAction::TogglePassiveAggressiveMode => 85i32,
            GameAction::ActivateSpellMode => 86i32,
            GameAction::ExpressionShift => 87i32,
            GameAction::ScrollDescriptionUp => 88i32,
            GameAction::ScrollDescriptionDown => 89i32,
            GameAction::OpenWeaponsMenu => 90i32,
            GameAction::OpenClothingMenu => 91i32,
            GameAction::OpenItemsMenu => 92i32,
            GameAction::OpenCurrentQuestsMenu => 93i32,
            GameAction::CycleThroughSpellsKeyboard => 94i32,
            GameAction::ToggleKillEverythingMode => 95i32,
            GameAction::OpenMagicMenu => 96i32,
            GameAction::OpenExpressionsMenu => 97i32,
            GameAction::OpenPersonalityMenu => 98i32,
            GameAction::OpenLogbookMenu => 99i32,
            GameAction::OpenMapMenu => 100i32,
            GameAction::ScrollMenu => 101i32,
            GameAction::ZoomMapOut => 102i32,
            GameAction::ZoomMapIn => 103i32,
            GameAction::ScrollMapLeft => 104i32,
            GameAction::ScrollMapRight => 105i32,
            GameAction::ScrollMapDown => 106i32,
            GameAction::ScrollMapUp => 107i32,
            GameAction::OptionsSliderLeft => 108i32,
            GameAction::OptionsSliderRight => 109i32,
            GameAction::DigitalAnalogueZoomIn => 110i32,
            GameAction::DigitalAnalogueZoomOut => 111i32,
            GameAction::ToggleViewHeroMode => 112i32,
            GameAction::CentreCamera => 113i32,
            GameAction::Betting => 114i32,
            GameAction::Count => 115i32,
            GameAction::GameAction116 => 116i32,
            GameAction::GameAction117 => 117i32,
            GameAction::GameAction118 => 118i32,
            GameAction::GameAction119 => 119i32,
            GameAction::GameAction120 => 120i32,
            GameAction::GameAction121 => 121i32,
            GameAction::GameAction122 => 122i32,
            GameAction::GameAction123 => 123i32,
            GameAction::GameAction124 => 124i32,
            GameAction::GameAction125 => 125i32,
            GameAction::GameAction126 => 126i32,
            GameAction::GameAction127 => 127i32,
        }
    }

    proof fn lemma_lookup_wire_value(e: Self) {
    }
}

impl GameAction {
    /// The C++ enumerator symbol of `self`.
    pub open spec fn symbol_of(self) -> Seq<char> {
        match self {
            GameAction::Null => "GAME_ACTION_NULL"@,
            GameAction::LockTarget => "GAME_ACTION_LOCK_TARGET"@,
            GameAction::OpenInventory => "GAME_ACTION_OPEN_INVENTORY"@,
            GameAction::OpenInGameMenu => "GAME_ACTION_OPEN_IN_GAME_MENU"@,
            GameAction::ToggleMiniMap => "GAME_ACTION_TOGGLE_MINI_MAP"@,
            GameAction::Pause => "GAME_ACTION_PAUSE"@,
            GameAction::Interact => "GAME_ACTION_INTERACT"@,
            GameAction::Block => "GAME_ACTION_BLOCK"@,
            GameAction::SpecialAttack => "GAME_ACTION_SPECIAL_ATTACK"@,
            GameAction::Attack => "GAME_ACTION_ATTACK"@,
            GameAction::FireRangedWeapon => "GAME_ACTION_FIRE_RANGED_WEAPON"@,
            GameAction::UnarmedAttack => "GAME_ACTION_UNARMED_ATTACK"@,
            GameAction::ArmedMeleeAttack => "GAME_ACTION_ARMED_MELEE_ATTACK"@,
            GameAction::UnsheatheMeleeWeapon => "GAME_ACTION_UNSHEATHE_MELEE_WEAPON"@,
            GameAction::UnsheatheRangedWeapon => "GAME_ACTION_UNSHEATHE_RANGED_WEAPON"@,
            GameAction::SheatheMeleeWeapon => "GAME_ACTION_SHEATHE_MELEE_WEAPON"@,
            GameAction::SheatheRangedWeapon => "GAME_ACTION_SHEATHE_RANGED_WEAPON"@,
            GameAction::ToggleSilentMove => "GAME_ACTION_TOGGLE_SILENT_MOVE"@,
            GameAction::ToggleCinematicAndUserCamera => "GAME_ACTION_TOGGLE_CINEMATIC_AND_USER_CAMERA"@,
            GameAction::ToggleFirstPersonView => "GAME_ACTION_TOGGLE_FIRST_PERSON_VIEW"@,
            GameAction::SkipPastText => "GAME_ACTION_SKIP_PAST_TEXT"@,
            GameAction::SkipCutScene => "GAME_ACTION_SKIP_CUT_SCENE"@,
            GameAction::AnswerQuestionYes => "GAME_ACTION_ANSWER_QUESTION_YES"@,
            GameAction::AnswerQuestionNo => "GAME_ACTION_ANSWER_QUESTION_NO"@,
            GameAction::AnswerQuestionThird => "GAME_ACTION_ANSWER_QUESTION_THIRD"@,
            GameAction::InventorySelect => "GAME_ACTION_INVENTORY_SELECT"@,
            GameAction::AttractExperienceOrbs => "GAME_ACTION_ATTRACT_EXPERIENCE_ORBS"@,
            GameAction::RotateGuiScreensLeft => "GAME_ACTION_ROTATE_GUI_SCREENS_LEFT"@,
            GameAction::RotateGuiScreensRight => "GAME_ACTION_ROTATE_GUI_SCREENS_RIGHT"@,
            GameAction::Jump => "GAME_ACTION_JUMP"@,
            GameAction::Sprint => "GAME_ACTION_SPRINT"@,
            GameAction::Run => "GAME_ACTION_RUN"@,
            GameAction::Sneak => "GAME_ACTION_SNEAK"@,
            GameAction::InventoryA => "GAME_ACTION_INVENTORY_A"@,
            GameAction::InventoryB => "GAME_ACTION_INVENTORY_B"@,
            GameAction::InventoryX => "GAME_ACTION_INVENTORY_X"@,
            GameAction::InventoryY => "GAME_ACTION_INVENTORY_Y"@,
            GameAction::InventoryUp => "GAME_ACTION_INVENTORY_UP"@,
            GameAction::InventoryDown => "GAME_ACTION_INVENTORY_DOWN"@,
            GameAction::InventoryLeft => "GAME_ACTION_INVENTORY_LEFT"@,
            GameAction::InventoryRight => "GAME_ACTION_INVENTORY_RIGHT"@,
            GameAction::InventoryWhite => "GAME_ACTION_INVENTORY_WHITE"@,
            GameAction::TavernGamesInstructions => "GAME_ACTION_TAVERN_GAMES_INSTRUCTIONS"@,
            GameAction::FishingReelIn => "GAME_ACTION_FISHING_REEL_IN"@,
            GameAction::FishingCancel => "GAME_ACTION_FISHING_CANCEL"@,
            GameAction::ToggleFirstPersonTargeting => "GAME_ACTION_TOGGLE_FIRST_PERSON_TARGETING"@,
            GameAction::FirstPersonTargetLock => "GAME_ACTION_FIRST_PERSON_TARGET_LOCK"@,
            GameAction::FirstPersonZoomIn => "GAME_ACTION_FIRST_PERSON_ZOOM_IN"@,
            GameAction::GeneralLeavePlayerMode => "GAME_ACTION_GENERAL_LEAVE_PLAYER_MODE"@,
            GameAction::DebugJump1 => "GAME_ACTION_DEBUG_JUMP_1"@,
            GameAction::DebugJump2 => "GAME_ACTION_DEBUG_JUMP_2"@,
            GameAction::DebugCamera => "GAME_ACTION_DEBUG_CAMERA"@,
            GameAction::DebugShift => "GAME_ACTION_DEBUG_SHIFT"@,
            GameAction::TakePhotoForPhotojournal => "GAME_ACTION_TAKE_PHOTO_FOR_PHOTOJOURNAL"@,
            GameAction::AssignableSpecialMove => "GAME_ACTION_ASSIGNABLE_SPECIAL_MOVE"@,
            GameAction::QuickAccessItem => "GAME_ACTION_QUICK_ACCESS_ITEM"@,
            GameAction::ContextSensitiveItem => "GAME_ACTION_CONTEXT_SENSITIVE_ITEM"@,
            GameAction::CycleThroughSpells => "GAME_ACTION_CYCLE_THROUGH_SPELLS"@,
            GameAction::CoinGolfCancelAim => "GAME_ACTION_COIN_GOLF_CANCEL_AIM"@,
            GameAction::ConfirmResetToFrontEnd => "GAME_ACTION_CONFIRM_RESET_TO_FRONT_END"@,
            GameAction::Movement => "GAME_ACTION_MOVEMENT"@,
            GameAction::CameraRotate => "GAME_ACTION_CAMERA_ROTATE"@,
            GameAction::CameraRotateLeft => "GAME_ACTION_CAMERA_ROTATE_LEFT"@,
            GameAction::CameraRotateRight => "GAME_ACTION_CAMERA_ROTATE_RIGHT"@,
            GameAction::CameraZoomIn => "GAME_ACTION_CAMERA_ZOOM_IN"@,
            GameAction::CameraZoomOut => "GAME_ACTION_CAMERA_ZOOM_OUT"@,
            GameAction::OracleMinigameUp => "GAME_ACTION_ORACLE_MINIGAME_UP"@,
            GameAction::OracleMinigameDown => "GAME_ACTION_ORACLE_MINIGAME_DOWN"@,
            GameAction::OracleMinigameLeft => "GAME_ACTION_ORACLE_MINIGAME_LEFT"@,
            GameAction::OracleMinigameRight => "GAME_ACTION_ORACLE_MINIGAME_RIGHT"@,
            GameAction::OracleMinigameQuit => "GAME_ACTION_ORACLE_MINIGAME_QUIT"@,
            GameAction::MoveMouseOnGui => "GAME_ACTION_MOVE_MOUSE_ON_GUI"@,
            GameAction::ToggleLiveGui => "GAME_ACTION_TOGGLE_LIVE_GUI"@,
            GameAction::OpenExpressionMenu => "GAME_ACTION_OPEN_EXPRESSION_MENU"@,
            GameAction::ToggleDeactivateLockTarget => "GAME_ACTION_TOGGLE_DEACTIVATE_LOCK_TARGET"@,
            GameAction::FirstPersonLookaround => "GAME_ACTION_FIRST_PERSON_LOOKAROUND"@,
            GameAction::InventoryUnselect => "GAME_ACTION_INVENTORY_UNSELECT"@,
            GameAction::CameraMoveDoubleAxis => "GAME_ACTION_CAMERA_MOVE_DOUBLE_AXIS"@,
            GameAction::ChargeGuildSeal => "GAME_ACTION_CHARGE_GUILD_SEAL"@,
            GameAction::TavernGameMovement => "GAME_ACTION_TAVERN_GAME_MOVEMENT"@,
            GameAction::TavernGameCamera => "GAME_ACTION_TAVERN_GAME_CAMERA"@,
            GameAction::TavernGameActionButton => "GAME_ACTION_TAVERN_GAME_ACTION_BUTTON"@,
            GameAction::TavernGameAlternateButton => "GAME_ACTION_TAVERN_GAME_ALTERNATE_BUTTON"@,
            GameAction::TavernGameQuit => "GAME_ACTION_TAVERN_GAME_QUIT"@,
            GameAction::ProjectileTargetingAnalogueZoom => "GAME_ACTION_PROJECTILE_TARGETING_ANALOGUE_ZOOM"@,
            GameAction::TogglePassiveAggressiveMode => "GAME_ACTION_TOGGLE_PASSIVE_AGGRESSIVE_MODE"@,
            GameAction::ActivateSpellMode => "GAME_ACTION_ACTIVATE_SPELL_MODE"@,
            GameAction::ExpressionShift => "GAME_ACTION_EXPRESSION_SHIFT"@,
            GameAction::ScrollDescriptionUp => "GAME_ACTION_SCROLL_DESCRIPTION_UP"@,
            GameAction::ScrollDescriptionDown => "GAME_ACTION_SCROLL_DESCRIPTION_DOWN"@,
            GameAction::OpenWeaponsMenu => "GAME_ACTION_OPEN_WEAPONS_MENU"@,
            GameAction::OpenClothingMenu => "GAME_ACTION_OPEN_CLOTHING_MENU"@,
            GameAction::OpenItemsMenu => "GAME_ACTION_OPEN_ITEMS_MENU"@,
            GameAction::OpenCurrentQuestsMenu => "GAME_ACTION_OPEN_CURRENT_QUESTS_MENU"@,
            GameAction::CycleThroughSpellsKeyboard => "GAME_ACTION_CYCLE_THROUGH_SPELLS_KEYBOARD"@,
            GameAction::ToggleKillEverythingMode => "GAME_ACTION_TOGGLE_KILL_EVERYTHING_MODE"@,
            GameAction::OpenMagicMenu => "GAME_ACTION_OPEN_MAGIC_MENU"@,
            GameAction::OpenExpressionsMenu => "GAME_ACTION_OPEN_EXPRESSIONS_MENU"@,
            GameAction::OpenPersonalityMenu => "GAME_ACTION_OPEN_PERSONALITY_MENU"@,
            GameAction::OpenLogbookMenu => "GAME_ACTION_OPEN_LOGBOOK_MENU"@,
            GameAction::OpenMapMenu => "GAME_ACTION_OPEN_MAP_MENU"@,
            GameAction::ScrollMenu => "GAME_ACTION_SCROLL_MENU"@,
            GameAction::ZoomMapOut => "GAME_ACTION_ZOOM_MAP_OUT"@,
            GameAction::ZoomMapIn => "GAME_ACTION_ZOOM_MAP_IN"@,
            GameAction::ScrollMapLeft => "GAME_ACTION_SCROLL_MAP_LEFT"@,
            GameAction::ScrollMapRight => "GAME_ACTION_SCROLL_MAP_RIGHT"@,
            GameAction::ScrollMapDown => "GAME_ACTION_SCROLL_MAP_DOWN"@,
            GameAction::ScrollMapUp => "GAME_ACTION_SCROLL_MAP_UP"@,
            GameAction::OptionsSliderLeft => "GAME_ACTION_OPTIONS_SLIDER_LEFT"@,
            GameAction::OptionsSliderRight => "GAME_ACTION_OPTIONS_SLIDER_RIGHT"@,
            GameAction::DigitalAnalogueZoomIn => "GAME_ACTION_DIGITAL_ANALOGUE_ZOOM_IN"@,
            GameAction::DigitalAnalogueZoomOut => "GAME_ACTION_DIGITAL_ANALOGUE_ZOOM_OUT"@,
            GameAction::ToggleViewHeroMode => "GAME_ACTION_TOGGLE_VIEW_HERO_MODE"@,
            GameAction::CentreCamera => "GAME_ACTION_CENTRE_CAMERA"@,
            GameAction::Betting => "GAME_ACTION_BETTING"@,
            GameAction::Count => "GAME_ACTION_COUNT"@,
            GameAction::GameAction116 => "GAME_ACTION_116"@,
            GameAction::GameAction117 => "GAME_ACTION_117"@,
            GameAction::GameAction118 => "GAME_ACTION_118"@,
            GameAction::GameAction119 => "GAME_ACTION_119"@,
            GameAction::GameAction120 => "GAME_ACTION_120"@,
            GameAction::GameAction121 => "GAME_ACTION_121"@,
            GameAction::GameAction122 => "GAME_ACTION_122"@,
            GameAction::GameAction123 => "GAME_ACTION_123"@,
            GameAction::GameAction124 => "GAME_ACTION_124"@,
            GameAction::GameAction125 => "GAME_ACTION_125"@,
            GameAction::GameAction126 => "GAME_ACTION_126"@,
            GameAction::GameAction127 => "GAME_ACTION_127"@,
        }
    }

    /// The first variant whose symbol is `s`, if any.
    pub open spec fn symbol_lookup(s: Seq<char>) -> Option<Self> {
        if s == "GAME_ACTION_NULL"@ {
            Some(GameAction::Null)
        } else if s == "GAME_ACTION_LOCK_TARGET"@ {
            Some(GameAction::LockTarget)
        } else if s == "GAME_ACTION_OPEN_INVENTORY"@ {
            Some(GameAction::OpenInventory)
        } else if s == "GAME_ACTION_OPEN_IN_GAME_MENU"@ {
            Some(GameAction::OpenInGameMenu)
        } else if s == "GAME_ACTION_TOGGLE_MINI_MAP"@ {
            Some(GameAction::ToggleMiniMap)
        } else if s == "GAME_ACTION_PAUSE"@ {
            Some(GameAction::Pause)
        } else if s == "GAME_ACTION_INTERACT"@ {
            Some(GameAction::Interact)
        } else if s == "GAME_ACTION_BLOCK"@ {
            Some(GameAction::Block)
        } else if s == "GAME_ACTION_SPECIAL_ATTACK"@ {
            Some(GameAction::SpecialAttack)
        } else if s == "GAME_ACTION_ATTACK"@ {
            Some(GameAction::Attack)
        } else if s == "GAME_ACTION_FIRE_RANGED_WEAPON"@ {
            Some(GameAction::FireRangedWeapon)
        } else if s == "GAME_ACTION_UNARMED_ATTACK"@ {
            Some(GameAction::UnarmedAttack)
        } else if s == "GAME_ACTION_ARMED_MELEE_ATTACK"@ {
            Some(GameAction::ArmedMeleeAttack)
        } else if s == "GAME_ACTION_UNSHEATHE_MELEE_WEAPON"@ {
            Some(GameAction::UnsheatheMeleeWeapon)
        } else if s == "GAME_ACTION_UNSHEATHE_RANGED_WEAPON"@ {
            Some(GameAction::UnsheatheRangedWeapon)
        } else if s == "GAME_ACTION_SHEATHE_MELEE_WEAPON"@ {
            Some(GameAction::SheatheMeleeWeapon)
        } else if s == "GAME_ACTION_SHEATHE_RANGED_WEAPON"@ {
            Some(GameAction::SheatheRangedWeapon)
        } else if s == "GAME_ACTION_TOGGLE_SILENT_MOVE"@ {
            Some(GameAction::ToggleSilentMove)
        } else if s == "GAME_ACTION_TOGGLE_CINEMATIC_AND_USER_CAMERA"@ {
            Some(GameAction::ToggleCinematicAndUserCamera)
        } else if s == "GAME_ACTION_TOGGLE_FIRST_PERSON_VIEW"@ {
            Some(GameAction::ToggleFirstPersonView)
        } else if s == "GAME_ACTION_SKIP_PAST_TEXT"@ {
            Some(GameAction::SkipPastText)
        } else if s == "GAME_ACTION_SKIP_CUT_SCENE"@ {
            Some(GameAction::SkipCutScene)
        } else if s == "GAME_ACTION_ANSWER_QUESTION_YES"@ {
            Some(GameAction::AnswerQuestionYes)
        } else if s == "GAME_ACTION_ANSWER_QUESTION_NO"@ {
            Some(GameAction::AnswerQuestionNo)
        } else if s == "GAME_ACTION_ANSWER_QUESTION_THIRD"@ {
            Some(GameAction::AnswerQuestionThird)
        } else if s == "GAME_ACTION_INVENTORY_SELECT"@ {
            Some(GameAction::InventorySelect)
        } else if s == "GAME_ACTION_ATTRACT_EXPERIENCE_ORBS"@ {
            Some(GameAction::AttractExperienceOrbs)
        } else if s == "GAME_ACTION_ROTATE_GUI_SCREENS_LEFT"@ {
            Some(GameAction::RotateGuiScreensLeft)
        } else if s == "GAME_ACTION_ROTATE_GUI_SCREENS_RIGHT"@ {
            Some(GameAction::RotateGuiScreensRight)
        } else if s == "GAME_ACTION_JUMP"@ {
            Some(GameAction::Jump)
        } else if s == "GAME_ACTION_SPRINT"@ {
            Some(GameAction::Sprint)
        } else if s == "GAME_ACTION_RUN"@ {
            Some(GameAction::Run)
        } else if s == "GAME_ACTION_SNEAK"@ {
            Some(GameAction::Sneak)
        } else if s == "GAME_ACTION_INVENTORY_A"@ {
            Some(GameAction::InventoryA)
        } else if s == "GAME_ACTION_INVENTORY_B"@ {
            Some(GameAction::InventoryB)
        } else if s == "GAME_ACTION_INVENTORY_X"@ {
            Some(GameAction::InventoryX)
        } else if s == "GAME_ACTION_INVENTORY_Y"@ {
            Some(GameAction::InventoryY)
        } else if s == "GAME_ACTION_INVENTORY_UP"@ {
            Some(GameAction::InventoryUp)
        } else if s == "GAME_ACTION_INVENTORY_DOWN"@ {
            Some(GameAction::InventoryDown)
        } else if s == "GAME_ACTION_INVENTORY_LEFT"@ {
            Some(GameAction::InventoryLeft)
        } else if s == "GAME_ACTION_INVENTORY_RIGHT"@ {
            Some(GameAction::InventoryRight)
        } else if s == "GAME_ACTION_INVENTORY_WHITE"@ {
            Some(GameAction::InventoryWhite)
        } else if s == "GAME_ACTION_TAVERN_GAMES_INSTRUCTIONS"@ {
            Some(GameAction::TavernGamesInstructions)
        } else if s == "GAME_ACTION_FISHING_REEL_IN"@ {
            Some(GameAction::FishingReelIn)
        } else if s == "GAME_ACTION_FISHING_CANCEL"@ {
            Some(GameAction::FishingCancel)
        } else if s == "GAME_ACTION_TOGGLE_FIRST_PERSON_TARGETING"@ {
            Some(GameAction::ToggleFirstPersonTargeting)
        } else if s == "GAME_ACTION_FIRST_PERSON_TARGET_LOCK"@ {
            Some(GameAction::FirstPersonTargetLock)
        } else if s == "GAME_ACTION_FIRST_PERSON_ZOOM_IN"@ {
            Some(GameAction::FirstPersonZoomIn)
        } else if s == "GAME_ACTION_GENERAL_LEAVE_PLAYER_MODE"@ {
            Some(GameAction::GeneralLeavePlayerMode)
        } else if s == "GAME_ACTION_DEBUG_JUMP_1"@ {
            Some(GameAction::DebugJump1)
        } else if s == "GAME_ACTION_DEBUG_JUMP_2"@ {
            Some(GameAction::DebugJump2)
        } else if s == "GAME_ACTION_DEBUG_CAMERA"@ {
            Some(GameAction::DebugCamera)
        } else if s == "GAME_ACTION_DEBUG_SHIFT"@ {
            Some(GameAction::DebugShift)
        } else if s == "GAME_ACTION_TAKE_PHOTO_FOR_PHOTOJOURNAL"@ {
            Some(GameAction::TakePhotoForPhotojournal)
        } else if s == "GAME_ACTION_ASSIGNABLE_SPECIAL_MOVE"@ {
            Some(GameAction::AssignableSpecialMove)
        } else if s == "GAME_ACTION_QUICK_ACCESS_ITEM"@ {
            Some(GameAction::QuickAccessItem)
        } else if s == "GAME_ACTION_CONTEXT_SENSITIVE_ITEM"@ {
            Some(GameAction::ContextSensitiveItem)
        } else if s == "GAME_ACTION_CYCLE_THROUGH_SPELLS"@ {
            Some(GameAction::CycleThroughSpells)
        } else if s == "GAME_ACTION_COIN_GOLF_CANCEL_AIM"@ {
            Some(GameAction::CoinGolfCancelAim)
        } else if s == "GAME_ACTION_CONFIRM_RESET_TO_FRONT_END"@ {
            Some(GameAction::ConfirmResetToFrontEnd)
        } else if s == "GAME_ACTION_MOVEMENT"@ {
            Some(GameAction::Movement)
        } else if s == "GAME_ACTION_CAMERA_ROTATE"@ {
            Some(GameAction::CameraRotate)
        } else if s == "GAME_ACTION_CAMERA_ROTATE_LEFT"@ {
            Some(GameAction::CameraRotateLeft)
        } else if s == "GAME_ACTION_CAMERA_ROTATE_RIGHT"@ {
            Some(GameAction::CameraRotateRight)
        } else if s == "GAME_ACTION_CAMERA_ZOOM_IN"@ {
            Some(GameAction::CameraZoomIn)
        } else if s == "GAME_ACTION_CAMERA_ZOOM_OUT"@ {
            Some(GameAction::CameraZoomOut)
        } else if s == "GAME_ACTION_ORACLE_MINIGAME_UP"@ {
            Some(GameAction::OracleMinigameUp)
        } else if s == "GAME_ACTION_ORACLE_MINIGAME_DOWN"@ {
            Some(GameAction::OracleMinigameDown)
        } else if s == "GAME_ACTION_ORACLE_MINIGAME_LEFT"@ {
            Some(GameAction::OracleMinigameLeft)
        } else if s == "GAME_ACTION_ORACLE_MINIGAME_RIGHT"@ {
            Some(GameAction::OracleMinigameRight)
        } else if s == "GAME_ACTION_ORACLE_MINIGAME_QUIT"@ {
            Some(GameAction::OracleMinigameQuit)
        } else if s == "GAME_ACTION_MOVE_MOUSE_ON_GUI"@ {
            Some(GameAction::MoveMouseOnGui)
        } else if s == "GAME_ACTION_TOGGLE_LIVE_GUI"@ {
            Some(GameAction::ToggleLiveGui)
        } else if s == "GAME_ACTION_OPEN_EXPRESSION_MENU"@ {
            Some(GameAction::OpenExpressionMenu)
        } else if s == "GAME_ACTION_TOGGLE_DEACTIVATE_LOCK_TARGET"@ {
            Some(GameAction::ToggleDeactivateLockTarget)
        } else if s == "GAME_ACTION_FIRST_PERSON_LOOKAROUND"@ {
            Some(GameAction::FirstPersonLookaround)
        } else if s == "GAME_ACTION_INVENTORY_UNSELECT"@ {
            Some(GameAction::InventoryUnselect)
        } else if s == "GAME_ACTION_CAMERA_MOVE_DOUBLE_AXIS"@ {
            Some(GameAction::CameraMoveDoubleAxis)
        } else if s == "GAME_ACTION_CHARGE_GUILD_SEAL"@ {
            Some(GameAction::ChargeGuildSeal)
        } else if s == "GAME_ACTION_TAVERN_GAME_MOVEMENT"@ {
            Some(GameAction::TavernGameMovement)
        } else if s == "GAME_ACTION_TAVERN_GAME_CAMERA"@ {
            Some(GameAction::TavernGameCamera)
        } else if s == "GAME_ACTION_TAVERN_GAME_ACTION_BUTTON"@ {
            Some(GameAction::TavernGameActionButton)
        } else if s == "GAME_ACTION_TAVERN_GAME_ALTERNATE_BUTTON"@ {
            Some(GameAction::TavernGameAlternateButton)
        } else if s == "GAME_ACTION_TAVERN_GAME_QUIT"@ {
            Some(GameAction::TavernGameQuit)
        } else if s == "GAME_ACTION_PROJECTILE_TARGETING_ANALOGUE_ZOOM"@ {
            Some(GameAction::ProjectileTargetingAnalogueZoom)
        } else if s == "GAME_ACTION_TOGGLE_PASSIVE_AGGRESSIVE_MODE"@ {
            Some(GameAction::TogglePassiveAggressiveMode)
        } else if s == "GAME_ACTION_ACTIVATE_SPELL_MODE"@ {
            Some(GameAction::ActivateSpellMode)
        } else if s == "GAME_ACTION_EXPRESSION_SHIFT"@ {
            Some(GameAction::ExpressionShift)
        } else if s == "GAME_ACTION_SCROLL_DESCRIPTION_UP"@ {
            Some(GameAction::ScrollDescriptionUp)
        } else if s == "GAME_ACTION_SCROLL_DESCRIPTION_DOWN"@ {
            Some(GameAction::ScrollDescriptionDown)
        } else if s == "GAME_ACTION_OPEN_WEAPONS_MENU"@ {
            Some(GameAction::OpenWeaponsMenu)
        } else if s == "GAME_ACTION_OPEN_CLOTHING_MENU"@ {
            Some(GameAction::OpenClothingMenu)
        } else if s == "GAME_ACTION_OPEN_ITEMS_MENU"@ {
            Some(GameAction::OpenItemsMenu)
        } else if s == "GAME_ACTION_OPEN_CURRENT_QUESTS_MENU"@ {
            Some(GameAction::OpenCurrentQuestsMenu)
        } else if s == "GAME_ACTION_CYCLE_THROUGH_SPELLS_KEYBOARD"@ {
            Some(GameAction::CycleThroughSpellsKeyboard)
        } else if s == "GAME_ACTION_TOGGLE_KILL_EVERYTHING_MODE"@ {
            Some(GameAction::ToggleKillEverythingMode)
        } else if s == "GAME_ACTION_OPEN_MAGIC_MENU"@ {
            Some(GameAction::OpenMagicMenu)
        } else if s == "GAME_ACTION_OPEN_EXPRESSIONS_MENU"@ {
            Some(GameAction::OpenExpressionsMenu)
        } else if s == "GAME_ACTION_OPEN_PERSONALITY_MENU"@ {
            Some(GameAction::OpenPersonalityMenu)
        } else if s == "GAME_ACTION_OPEN_LOGBOOK_MENU"@ {
            Some(GameAction::OpenLogbookMenu)
        } else if s == "GAME_ACTION_OPEN_MAP_MENU"@ {
            Some(GameAction::OpenMapMenu)
        } else if s == "GAME_ACTION_SCROLL_MENU"@ {
            Some(GameAction::ScrollMenu)
        } else if s == "GAME_ACTION_ZOOM_MAP_OUT"@ {
            Some(GameAction::ZoomMapOut)
        } else if s == "GAME_ACTION_ZOOM_MAP_IN"@ {
            Some(GameAction::ZoomMapIn)
        } else if s == "GAME_ACTION_SCROLL_MAP_LEFT"@ {
            Some(GameAction::ScrollMapLeft)
        } else if s == "GAME_ACTION_SCROLL_MAP_RIGHT"@ {
            Some(GameAction::ScrollMapRight)
        } else if s == "GAME_ACTION_SCROLL_MAP_DOWN"@ {
            Some(GameAction::ScrollMapDown)
        } else if s == "GAME_ACTION_SCROLL_MAP_UP"@ {
            Some(GameAction::ScrollMapUp)
        } else if s == "GAME_ACTION_OPTIONS_SLIDER_LEFT"@ {
            Some(GameAction::OptionsSliderLeft)
        } else if s == "GAME_ACTION_OPTIONS_SLIDER_RIGHT"@ {
            Some(GameAction::OptionsSliderRight)
        } else if s == "GAME_ACTION_DIGITAL_ANALOGUE_ZOOM_IN"@ {
            Some(GameAction::DigitalAnalogueZoomIn)
        } else if s == "GAME_ACTION_DIGITAL_ANALOGUE_ZOOM_OUT"@ {
            Some(GameAction::DigitalAnalogueZoomOut)
        } else if s == "GAME_ACTION_TOGGLE_VIEW_HERO_MODE"@ {
            Some(GameAction::ToggleViewHeroMode)
        } else if s == "GAME_ACTION_CENTRE_CAMERA"@ {
            Some(GameAction::CentreCamera)
        } else if s == "GAME_ACTION_BETTING"@ {
            Some(GameAction::Betting)
        } else if s == "GAME_ACTION_COUNT"@ {
            Some(GameAction::Count)
        } else if s == "GAME_ACTION_116"@ {
            Some(GameAction::GameAction116)
        } else if s == "GAME_ACTION_117"@ {
            Some(GameAction::GameAction117)
        } else if s == "GAME_ACTION_118"@ {
            Some(GameAction::GameAction118)
        } else if s == "GAME_ACTION_119"@ {
            Some(GameAction::GameAction119)
        } else if s == "GAME_ACTION_120"@ {
            Some(GameAction::GameAction120)
        } else if s == "GAME_ACTION_121"@ {
            Some(GameAction::GameAction121)
        } else if s == "GAME_ACTION_122"@ {
            Some(GameAction::GameAction122)
        } else if s == "GAME_ACTION_123"@ {
            Some(GameAction::GameAction123)
        } else if s == "GAME_ACTION_124"@ {
            Some(GameAction::GameAction124)
        } else if s == "GAME_ACTION_125"@ {
            Some(GameAction::GameAction125)
        } else if s == "GAME_ACTION_126"@ {
            Some(GameAction::GameAction126)
        } else if s == "GAME_ACTION_127"@ {
            Some(GameAction::GameAction127)
        } else {
            None
        }
    }

    /// The C++ enumerator symbol text defs use for `self`.
    pub fn symbol(self) -> (r: &'static str)
        ensures
            r@ == self.symbol_of(),
    {
        match self {
            GameAction::Null => "GAME_ACTION_NULL",
            GameAction::LockTarget => "GAME_ACTION_LOCK_TARGET",
            GameAction::OpenInventory => "GAME_ACTION_OPEN_INVENTORY",
            GameAction::OpenInGameMenu => "GAME_ACTION_OPEN_IN_GAME_MENU",
            GameAction::ToggleMiniMap => "GAME_ACTION_TOGGLE_MINI_MAP",
            GameAction::Pause => "GAME_ACTION_PAUSE",
            GameAction::Interact => "GAME_ACTION_INTERACT",
            GameAction::Block => "GAME_ACTION_BLOCK",
            GameAction::SpecialAttack => "GAME_ACTION_SPECIAL_ATTACK",
            GameAction::Attack => "GAME_ACTION_ATTACK",
            GameAction::FireRangedWeapon => "GAME_ACTION_FIRE_RANGED_WEAPON",
            GameAction::UnarmedAttack => "GAME_ACTION_UNARMED_ATTACK",
            GameAction::ArmedMeleeAttack => "GAME_ACTION_ARMED_MELEE_ATTACK",
            GameAction::UnsheatheMeleeWeapon => "GAME_ACTION_UNSHEATHE_MELEE_WEAPON",
            GameAction::UnsheatheRangedWeapon => "GAME_ACTION_UNSHEATHE_RANGED_WEAPON",
            GameAction::SheatheMeleeWeapon => "GAME_ACTION_SHEATHE_MELEE_WEAPON",
            GameAction::SheatheRangedWeapon => "GAME_ACTION_SHEATHE_RANGED_WEAPON",
            GameAction::ToggleSilentMove => "GAME_ACTION_TOGGLE_SILENT_MOVE",
            GameAction::ToggleCinematicAndUserCamera => "GAME_ACTION_TOGGLE_CINEMATIC_AND_USER_CAMERA",
            GameAction::ToggleFirstPersonView => "GAME_ACTION_TOGGLE_FIRST_PERSON_VIEW",
            GameAction::SkipPastText => "GAME_ACTION_SKIP_PAST_TEXT",
            GameAction::SkipCutScene => "GAME_ACTION_SKIP_CUT_SCENE",
            GameAction::AnswerQuestionYes => "GAME_ACTION_ANSWER_QUESTION_YES",
            GameAction::AnswerQuestionNo => "GAME_ACTION_ANSWER_QUESTION_NO",
            GameAction::AnswerQuestionThird => "GAME_ACTION_ANSWER_QUESTION_THIRD",
            GameAction::InventorySelect => "GAME_ACTION_INVENTORY_SELECT",
            GameAction::AttractExperienceOrbs => "GAME_ACTION_ATTRACT_EXPERIENCE_ORBS",
            GameAction::RotateGuiScreensLeft => "GAME_ACTION_ROTATE_GUI_SCREENS_LEFT",
            GameAction::RotateGuiScreensRight => "GAME_ACTION_ROTATE_GUI_SCREENS_RIGHT",
            GameAction::Jump => "GAME_ACTION_JUMP",
            GameAction::Sprint => "GAME_ACTION_SPRINT",
            GameAction::Run => "GAME_ACTION_RUN",
            GameAction::Sneak => "GAME_ACTION_SNEAK",
            GameAction::InventoryA => "GAME_ACTION_INVENTORY_A",
            GameAction::InventoryB => "GAME_ACTION_INVENTORY_B",
            GameAction::InventoryX => "GAME_ACTION_INVENTORY_X",
            GameAction::InventoryY => "GAME_ACTION_INVENTORY_Y",
            GameAction::InventoryUp => "GAME_ACTION_INVENTORY_UP",
            GameAction::InventoryDown => "GAME_ACTION_INVENTORY_DOWN",
            GameAction::InventoryLeft => "GAME_ACTION_INVENTORY_LEFT",
            GameAction::InventoryRight => "GAME_ACTION_INVENTORY_RIGHT",
            GameAction::InventoryWhite => "GAME_ACTION_INVENTORY_WHITE",
            GameAction::TavernGamesInstructions => "GAME_ACTION_TAVERN_GAMES_INSTRUCTIONS",
            GameAction::FishingReelIn => "GAME_ACTION_FISHING_REEL_IN",
            GameAction::FishingCancel => "GAME_ACTION_FISHING_CANCEL",
            GameAction::ToggleFirstPersonTargeting => "GAME_ACTION_TOGGLE_FIRST_PERSON_TARGETING",
            GameAction::FirstPersonTargetLock => "GAME_ACTION_FIRST_PERSON_TARGET_LOCK",
            GameAction::FirstPersonZoomIn => "GAME_ACTION_FIRST_PERSON_ZOOM_IN",
            GameAction::GeneralLeavePlayerMode => "GAME_ACTION_GENERAL_LEAVE_PLAYER_MODE",
            GameAction::DebugJump1 => "GAME_ACTION_DEBUG_JUMP_1",
            GameAction::DebugJump2 => "GAME_ACTION_DEBUG_JUMP_2",
            GameAction::DebugCamera => "GAME_ACTION_DEBUG_CAMERA",
            GameAction::DebugShift => "GAME_ACTION_DEBUG_SHIFT",
            GameAction::TakePhotoForPhotojournal => "GAME_ACTION_TAKE_PHOTO_FOR_PHOTOJOURNAL",
            GameAction::AssignableSpecialMove => "GAME_ACTION_ASSIGNABLE_SPECIAL_MOVE",
            GameAction::QuickAccessItem => "GAME_ACTION_QUICK_ACCESS_ITEM",
            GameAction::ContextSensitiveItem => "GAME_ACTION_CONTEXT_SENSITIVE_ITEM",
            GameAction::CycleThroughSpells => "GAME_ACTION_CYCLE_THROUGH_SPELLS",
            GameAction::CoinGolfCancelAim => "GAME_ACTION_COIN_GOLF_CANCEL_AIM",
            GameAction::ConfirmResetToFrontEnd => "GAME_ACTION_CONFIRM_RESET_TO_FRONT_END",
            GameAction::Movement => "GAME_ACTION_MOVEMENT",
            GameAction::CameraRotate => "GAME_ACTION_CAMERA_ROTATE",
            GameAction::CameraRotateLeft => "GAME_ACTION_CAMERA_ROTATE_LEFT",
            GameAction::CameraRotateRight => "GAME_ACTION_CAMERA_ROTATE_RIGHT",
            GameAction::CameraZoomIn => "GAME_ACTION_CAMERA_ZOOM_IN",
            GameAction::CameraZoomOut => "GAME_ACTION_CAMERA_ZOOM_OUT",
            GameAction::OracleMinigameUp => "GAME_ACTION_ORACLE_MINIGAME_UP",
            GameAction::OracleMinigameDown => "GAME_ACTION_ORACLE_MINIGAME_DOWN",
            GameAction::OracleMinigameLeft => "GAME_ACTION_ORACLE_MINIGAME_LEFT",
            GameAction::OracleMinigameRight => "GAME_ACTION_ORACLE_MINIGAME_RIGHT",
            GameAction::OracleMinigameQuit => "GAME_ACTION_ORACLE_MINIGAME_QUIT",
            GameAction::MoveMouseOnGui => "GAME_ACTION_MOVE_MOUSE_ON_GUI",
            GameAction::ToggleLiveGui => "GAME_ACTION_TOGGLE_LIVE_GUI",
            GameAction::OpenExpressionMenu => "GAME_ACTION_OPEN_EXPRESSION_MENU",
            GameAction::ToggleDeactivateLockTarget => "GAME_ACTION_TOGGLE_DEACTIVATE_LOCK_TARGET",
            GameAction::FirstPersonLookaround => "GAME_ACTION_FIRST_PERSON_LOOKAROUND",
            GameAction::InventoryUnselect => "GAME_ACTION_INVENTORY_UNSELECT",
            GameAction::CameraMoveDoubleAxis => "GAME_ACTION_CAMERA_MOVE_DOUBLE_AXIS",
            GameAction::ChargeGuildSeal => "GAME_ACTION_CHARGE_GUILD_SEAL",
            GameAction::TavernGameMovement => "GAME_ACTION_TAVERN_GAME_MOVEMENT",
            GameAction::TavernGameCamera => "GAME_ACTION_TAVERN_GAME_CAMERA",
            GameAction::TavernGameActionButton => "GAME_ACTION_TAVERN_GAME_ACTION_BUTTON",
            GameAction::TavernGameAlternateButton => "GAME_ACTION_TAVERN_GAME_ALTERNATE_BUTTON",
            GameAction::TavernGameQuit => "GAME_ACTION_TAVERN_GAME_QUIT",
            GameAction::ProjectileTargetingAnalogueZoom => "GAME_ACTION_PROJECTILE_TARGETING_ANALOGUE_ZOOM",
            GameAction::TogglePassiveAggressiveMode => "GAME_ACTION_TOGGLE_PASSIVE_AGGRESSIVE_MODE",
            GameAction::ActivateSpellMode => "GAME_ACTION_ACTIVATE_SPELL_MODE",
            GameAction::ExpressionShift => "GAME_ACTION_EXPRESSION_SHIFT",
            GameAction::ScrollDescriptionUp => "GAME_ACTION_SCROLL_DESCRIPTION_UP",
            GameAction::ScrollDescriptionDown => "GAME_ACTION_SCROLL_DESCRIPTION_DOWN",
            GameAction::OpenWeaponsMenu => "GAME_ACTION_OPEN_WEAPONS_MENU",
            GameAction::OpenClothingMenu => "GAME_ACTION_OPEN_CLOTHING_MENU",
            GameAction::OpenItemsMenu => "GAME_ACTION_OPEN_ITEMS_MENU",
            GameAction::OpenCurrentQuestsMenu => "GAME_ACTION_OPEN_CURRENT_QUESTS_MENU",
            GameAction::CycleThroughSpellsKeyboard => "GAME_ACTION_CYCLE_THROUGH_SPELLS_KEYBOARD",
            GameAction::ToggleKillEverythingMode => "GAME_ACTION_TOGGLE_KILL_EVERYTHING_MODE",
            GameAction::OpenMagicMenu => "GAME_ACTION_OPEN_MAGIC_MENU",
            GameAction::OpenExpressionsMenu => "GAME_ACTION_OPEN_EXPRESSIONS_MENU",
            GameAction::OpenPersonalityMenu => "GAME_ACTION_OPEN_PERSONALITY_MENU",
            GameAction::OpenLogbookMenu => "GAME_ACTION_OPEN_LOGBOOK_MENU",
            GameAction::OpenMapMenu => "GAME_ACTION_OPEN_MAP_MENU",
            GameAction::ScrollMenu => "GAME_ACTION_SCROLL_MENU",
            GameAction::ZoomMapOut => "GAME_ACTION_ZOOM_MAP_OUT",
            GameAction::ZoomMapIn => "GAME_ACTION_ZOOM_MAP_IN",
            GameAction::ScrollMapLeft => "GAME_ACTION_SCROLL_MAP_LEFT",
            GameAction::ScrollMapRight => "GAME_ACTION_SCROLL_MAP_RIGHT",
            GameAction::ScrollMapDown => "GAME_ACTION_SCROLL_MAP_DOWN",
            GameAction::ScrollMapUp => "GAME_ACTION_SCROLL_MAP_UP",
            GameAction::OptionsSliderLeft => "GAME_ACTION_OPTIONS_SLIDER_LEFT",
            GameAction::OptionsSliderRight => "GAME_ACTION_OPTIONS_SLIDER_RIGHT",
            GameAction::DigitalAnalogueZoomIn => "GAME_ACTION_DIGITAL_ANALOGUE_ZOOM_IN",
            GameAction::DigitalAnalogueZoomOut => "GAME_ACTION_DIGITAL_ANALOGUE_ZOOM_OUT",
            GameAction::ToggleViewHeroMode => "GAME_ACTION_TOGGLE_VIEW_HERO_MODE",
            GameAction::CentreCamera => "GAME_ACTION_CENTRE_CAMERA",
            GameAction::Betting => "GAME_ACTION_BETTING",
            GameAction::Count => "GAME_ACTION_COUNT",
            GameAction::GameAction116 => "GAME_ACTION_116",
            GameAction::GameAction117 => "GAME_ACTION_117",
            GameAction::GameAction118 => "GAME_ACTION_118",
            GameAction::GameAction119 => "GAME_ACTION_119",
            GameAction::GameAction120 => "GAME_ACTION_120",
            GameAction::GameAction121 => "GAME_ACTION_121",
            GameAction::GameAction122 => "GAME_ACTION_122",
            GameAction::GameAction123 => "GAME_ACTION_123",
            GameAction::GameAction124 => "GAME_ACTION_124",
            GameAction::GameAction125 => "GAME_ACTION_125",
            GameAction::GameAction126 => "GAME_ACTION_126",
            GameAction::GameAction127 => "GAME_ACTION_127",
        }
    }

    /// The variant a C++ enumerator symbol names.
    pub fn from_symbol(s: &str) -> (r: Option<Self>)
        ensures
            r == Self::symbol_lookup(s@),
    {
        if str_eq(s, "GAME_ACTION_NULL") {
            return Some(GameAction::Null);
        }
        if str_eq(s, "GAME_ACTION_LOCK_TARGET") {
            return Some(GameAction::LockTarget);
        }
        if str_eq(s, "GAME_ACTION_OPEN_INVENTORY") {
            return Some(GameAction::OpenInventory);
        }
        if str_eq(s, "GAME_ACTION_OPEN_IN_GAME_MENU") {
            return Some(GameAction::OpenInGameMenu);
        }
        if str_eq(s, "GAME_ACTION_TOGGLE_MINI_MAP") {
            return Some(GameAction::ToggleMiniMap);
        }
        if str_eq(s, "GAME_ACTION_PAUSE") {
            return Some(GameAction::Pause);
        }
        if str_eq(s, "GAME_ACTION_INTERACT") {
            return Some(GameAction::Interact);
        }
        if str_eq(s, "GAME_ACTION_BLOCK") {
            return Some(GameAction::Block);
        }
        if str_eq(s, "GAME_ACTION_SPECIAL_ATTACK") {
            return Some(GameAction::SpecialAttack);
        }
        if str_eq(s, "GAME_ACTION_ATTACK") {
            return Some(GameAction::Attack);
        }
        if str_eq(s, "GAME_ACTION_FIRE_RANGED_WEAPON") {
            return Some(GameAction::FireRangedWeapon);
        }
        if str_eq(s, "GAME_ACTION_UNARMED_ATTACK") {
            return Some(GameAction::UnarmedAttack);
        }
        if str_eq(s, "GAME_ACTION_ARMED_MELEE_ATTACK") {
            return Some(GameAction::ArmedMeleeAttack);
        }
        if str_eq(s, "GAME_ACTION_UNSHEATHE_MELEE_WEAPON") {
            return Some(GameAction::UnsheatheMeleeWeapon);
        }
        if str_eq(s, "GAME_ACTION_UNSHEATHE_RANGED_WEAPON") {
            return Some(GameAction::UnsheatheRangedWeapon);
        }
        if str_eq(s, "GAME_ACTION_SHEATHE_MELEE_WEAPON") {
            return Some(GameAction::SheatheMeleeWeapon);
        }
        if str_eq(s, "GAME_ACTION_SHEATHE_RANGED_WEAPON") {
            return Some(GameAction::SheatheRangedWeapon);
        }
        if str_eq(s, "GAME_ACTION_TOGGLE_SILENT_MOVE") {
            return Some(GameAction::ToggleSilentMove);
        }
        if str_eq(s, "GAME_ACTION_TOGGLE_CINEMATIC_AND_USER_CAMERA") {
            return Some(GameAction::ToggleCinematicAndUserCamera);
        }
        if str_eq(s, "GAME_ACTION_TOGGLE_FIRST_PERSON_VIEW") {
            return Some(GameAction::ToggleFirstPersonView);
        }
        if str_eq(s, "GAME_ACTION_SKIP_PAST_TEXT") {
            return Some(GameAction::SkipPastText);
        }
        if str_eq(s, "GAME_ACTION_SKIP_CUT_SCENE") {
            return Some(GameAction::SkipCutScene);
        }
        if str_eq(s, "GAME_ACTION_ANSWER_QUESTION_YES") {
            return Some(GameAction::AnswerQuestionYes);
        }
        if str_eq(s, "GAME_ACTION_ANSWER_QUESTION_NO") {
            return Some(GameAction::AnswerQuestionNo);
        }
        if str_eq(s, "GAME_ACTION_ANSWER_QUESTION_THIRD") {
            return Some(GameAction::AnswerQuestionThird);
        }
        if str_eq(s, "GAME_ACTION_INVENTORY_SELECT") {
            return Some(GameAction::InventorySelect);
        }
        if str_eq(s, "GAME_ACTION_ATTRACT_EXPERIENCE_ORBS") {
            return Some(GameAction::AttractExperienceOrbs);
        }
        if str_eq(s, "GAME_ACTION_ROTATE_GUI_SCREENS_LEFT") {
            return Some(GameAction::RotateGuiScreensLeft);
        }
        if str_eq(s, "GAME_ACTION_ROTATE_GUI_SCREENS_RIGHT") {
            return Some(GameAction::RotateGuiScreensRight);
        }
        if str_eq(s, "GAME_ACTION_JUMP") {
            return Some(GameAction::Jump);
        }
        if str_eq(s, "GAME_ACTION_SPRINT") {
            return Some(GameAction::Sprint);
        }
        if str_eq(s, "GAME_ACTION_RUN") {
            return Some(GameAction::Run);
        }
        if str_eq(s, "GAME_ACTION_SNEAK") {
            return Some(GameAction::Sneak);
        }
        if str_eq(s, "GAME_ACTION_INVENTORY_A") {
            return Some(GameAction::InventoryA);
        }
        if str_eq(s, "GAME_ACTION_INVENTORY_B") {
            return Some(GameAction::InventoryB);
        }
        if str_eq(s, "GAME_ACTION_INVENTORY_X") {
            return Some(GameAction::InventoryX);
        }
        if str_eq(s, "GAME_ACTION_INVENTORY_Y") {
            return Some(GameAction::InventoryY);
        }
        if str_eq(s, "GAME_ACTION_INVENTORY_UP") {
            return Some(GameAction::InventoryUp);
        }
        if str_eq(s, "GAME_ACTION_INVENTORY_DOWN") {
            return Some(GameAction::InventoryDown);
        }
        if str_eq(s, "GAME_ACTION_INVENTORY_LEFT") {
            return Some(GameAction::InventoryLeft);
        }
        if str_eq(s, "GAME_ACTION_INVENTORY_RIGHT") {
            return Some(GameAction::InventoryRight);
        }
        if str_eq(s, "GAME_ACTION_INVENTORY_WHITE") {
            return Some(GameAction::InventoryWhite);
        }
        if str_eq(s, "GAME_ACTION_TAVERN_GAMES_INSTRUCTIONS") {
            return Some(GameAction::TavernGamesInstructions);
        }
        if str_eq(s, "GAME_ACTION_FISHING_REEL_IN") {
            return Some(GameAction::FishingReelIn);
        }
        if str_eq(s, "GAME_ACTION_FISHING_CANCEL") {
            return Some(GameAction::FishingCancel);
        }
        if str_eq(s, "GAME_ACTION_TOGGLE_FIRST_PERSON_TARGETING") {
            return Some(GameAction::ToggleFirstPersonTargeting);
        }
        if str_eq(s, "GAME_ACTION_FIRST_PERSON_TARGET_LOCK") {
            return Some(GameAction::FirstPersonTargetLock);
        }
        if str_eq(s, "GAME_ACTION_FIRST_PERSON_ZOOM_IN") {
            return Some(GameAction::FirstPersonZoomIn);
        }
        if str_eq(s, "GAME_ACTION_GENERAL_LEAVE_PLAYER_MODE") {
            return Some(GameAction::GeneralLeavePlayerMode);
        }
        if str_eq(s, "GAME_ACTION_DEBUG_JUMP_1") {
            return Some(GameAction::DebugJump1);
        }
        if str_eq(s, "GAME_ACTION_DEBUG_JUMP_2") {
            return Some(GameAction::DebugJump2);
        }
        if str_eq(s, "GAME_ACTION_DEBUG_CAMERA") {
            return Some(GameAction::DebugCamera);
        }
        if str_eq(s, "GAME_ACTION_DEBUG_SHIFT") {
            return Some(GameAction::DebugShift);
        }
        if str_eq(s, "GAME_ACTION_TAKE_PHOTO_FOR_PHOTOJOURNAL") {
            return Some(GameAction::TakePhotoForPhotojournal);
        }
        if str_eq(s, "GAME_ACTION_ASSIGNABLE_SPECIAL_MOVE") {
            return Some(GameAction::AssignableSpecialMove);
        }
        if str_eq(s, "GAME_ACTION_QUICK_ACCESS_ITEM") {
            return Some(GameAction::QuickAccessItem);
        }
        if str_eq(s, "GAME_ACTION_CONTEXT_SENSITIVE_ITEM") {
            return Some(GameAction::ContextSensitiveItem);
        }
        if str_eq(s, "GAME_ACTION_CYCLE_THROUGH_SPELLS") {
            return Some(GameAction::CycleThroughSpells);
        }
        if str_eq(s, "GAME_ACTION_COIN_GOLF_CANCEL_AIM") {
            return Some(GameAction::CoinGolfCancelAim);
        }
        if str_eq(s, "GAME_ACTION_CONFIRM_RESET_TO_FRONT_END") {
            return Some(GameAction::ConfirmResetToFrontEnd);
        }
        if str_eq(s, "GAME_ACTION_MOVEMENT") {
            return Some(GameAction::Movement);
        }
        if str_eq(s, "GAME_ACTION_CAMERA_ROTATE") {
            return Some(GameAction::CameraRotate);
        }
        if str_eq(s, "GAME_ACTION_CAMERA_ROTATE_LEFT") {
            return Some(GameAction::CameraRotateLeft);
        }
        if str_eq(s, "GAME_ACTION_CAMERA_ROTATE_RIGHT") {
            return Some(GameAction::CameraRotateRight);
        }
        if str_eq(s, "GAME_ACTION_CAMERA_ZOOM_IN") {
            return Some(GameAction::CameraZoomIn);
        }
        if str_eq(s, "GAME_ACTION_CAMERA_ZOOM_OUT") {
            return Some(GameAction::CameraZoomOut);
        }
        if str_eq(s, "GAME_ACTION_ORACLE_MINIGAME_UP") {
            return Some(GameAction::OracleMinigameUp);
        }
        if str_eq(s, "GAME_ACTION_ORACLE_MINIGAME_DOWN") {
            return Some(GameAction::OracleMinigameDown);
        }
        if str_eq(s, "GAME_ACTION_ORACLE_MINIGAME_LEFT") {
            return Some(GameAction::OracleMinigameLeft);
        }
        if str_eq(s, "GAME_ACTION_ORACLE_MINIGAME_RIGHT") {
            return Some(GameAction::OracleMinigameRight);
        }
        if str_eq(s, "GAME_ACTION_ORACLE_MINIGAME_QUIT") {
            return Some(GameAction::OracleMinigameQuit);
        }
        if str_eq(s, "GAME_ACTION_MOVE_MOUSE_ON_GUI") {
            return Some(GameAction::MoveMouseOnGui);
        }
        if str_eq(s, "GAME_ACTION_TOGGLE_LIVE_GUI") {
            return Some(GameAction::ToggleLiveGui);
        }
        if str_eq(s, "GAME_ACTION_OPEN_EXPRESSION_MENU") {
            return Some(GameAction::OpenExpressionMenu);
        }
        if str_eq(s, "GAME_ACTION_TOGGLE_DEACTIVATE_LOCK_TARGET") {
            return Some(GameAction::ToggleDeactivateLockTarget);
        }
        if str_eq(s, "GAME_ACTION_FIRST_PERSON_LOOKAROUND") {
            return Some(GameAction::FirstPersonLookaround);
        }
        if str_eq(s, "GAME_ACTION_INVENTORY_UNSELECT") {
            return Some(GameAction::InventoryUnselect);
        }
        if str_eq(s, "GAME_ACTION_CAMERA_MOVE_DOUBLE_AXIS") {
            return Some(GameAction::CameraMoveDoubleAxis);
        }
        if str_eq(s, "GAME_ACTION_CHARGE_GUILD_SEAL") {
            return Some(GameAction::ChargeGuildSeal);
        }
        if str_eq(s, "GAME_ACTION_TAVERN_GAME_MOVEMENT") {
            return Some(GameAction::TavernGameMovement);
        }
        if str_eq(s, "GAME_ACTION_TAVERN_GAME_CAMERA") {
            return Some(GameAction::TavernGameCamera);
        }
        if str_eq(s, "GAME_ACTION_TAVERN_GAME_ACTION_BUTTON") {
            return Some(GameAction::TavernGameActionButton);
        }
        if str_eq(s, "GAME_ACTION_TAVERN_GAME_ALTERNATE_BUTTON") {
            return Some(GameAction::TavernGameAlternateButton);
        }
        if str_eq(s, "GAME_ACTION_TAVERN_GAME_QUIT") {
            return Some(GameAction::TavernGameQuit);
        }
        if str_eq(s, "GAME_ACTION_PROJECTILE_TARGETING_ANALOGUE_ZOOM") {
            return Some(GameAction::ProjectileTargetingAnalogueZoom);
        }
        if str_eq(s, "GAME_ACTION_TOGGLE_PASSIVE_AGGRESSIVE_MODE") {
            return Some(GameAction::TogglePassiveAggressiveMode);
        }
        if str_eq(s, "GAME_ACTION_ACTIVATE_SPELL_MODE") {
            return Some(GameAction::ActivateSpellMode);
        }
        if str_eq(s, "GAME_ACTION_EXPRESSION_SHIFT") {
            return Some(GameAction::ExpressionShift);
        }
        if str_eq(s, "GAME_ACTION_SCROLL_DESCRIPTION_UP") {
            return Some(GameAction::ScrollDescriptionUp);
        }
        if str_eq(s, "GAME_ACTION_SCROLL_DESCRIPTION_DOWN") {
            return Some(GameAction::ScrollDescriptionDown);
        }
        if str_eq(s, "GAME_ACTION_OPEN_WEAPONS_MENU") {
            return Some(GameAction::OpenWeaponsMenu);
        }
        if str_eq(s, "GAME_ACTION_OPEN_CLOTHING_MENU") {
            return Some(GameAction::OpenClothingMenu);
        }
        if str_eq(s, "GAME_ACTION_OPEN_ITEMS_MENU") {
            return Some(GameAction::OpenItemsMenu);
        }
        if str_eq(s, "GAME_ACTION_OPEN_CURRENT_QUESTS_MENU") {
            return Some(GameAction::OpenCurrentQuestsMenu);
        }
        if str_eq(s, "GAME_ACTION_CYCLE_THROUGH_SPELLS_KEYBOARD") {
            return Some(GameAction::CycleThroughSpellsKeyboard);
        }
        if str_eq(s, "GAME_ACTION_TOGGLE_KILL_EVERYTHING_MODE") {
            return Some(GameAction::ToggleKillEverythingMode);
        }
        if str_eq(s, "GAME_ACTION_OPEN_MAGIC_MENU") {
            return Some(GameAction::OpenMagicMenu);
        }
        if str_eq(s, "GAME_ACTION_OPEN_EXPRESSIONS_MENU") {
            return Some(GameAction::OpenExpressionsMenu);
        }
        if str_eq(s, "GAME_ACTION_OPEN_PERSONALITY_MENU") {
            return Some(GameAction::OpenPersonalityMenu);
        }
        if str_eq(s, "GAME_ACTION_OPEN_LOGBOOK_MENU") {
            return Some(GameAction::OpenLogbookMenu);
        }
        if str_eq(s, "GAME_ACTION_OPEN_MAP_MENU") {
            return Some(GameAction::OpenMapMenu);
        }
        if str_eq(s, "GAME_ACTION_SCROLL_MENU") {
            return Some(GameAction::ScrollMenu);
        }
        if str_eq(s, "GAME_ACTION_ZOOM_MAP_OUT") {
            return Some(GameAction::ZoomMapOut);
        }
        if str_eq(s, "GAME_ACTION_ZOOM_MAP_IN") {
            return Some(GameAction::ZoomMapIn);
        }
        if str_eq(s, "GAME_ACTION_SCROLL_MAP_LEFT") {
            return Some(GameAction::ScrollMapLeft);
        }
        if str_eq(s, "GAME_ACTION_SCROLL_MAP_RIGHT") {
            return Some(GameAction::ScrollMapRight);
        }
        if str_eq(s, "GAME_ACTION_SCROLL_MAP_DOWN") {
            return Some(GameAction::ScrollMapDown);
        }
        if str_eq(s, "GAME_ACTION_SCROLL_MAP_UP") {
            return Some(GameAction::ScrollMapUp);
        }
        if str_eq(s, "GAME_ACTION_OPTIONS_SLIDER_LEFT") {
            return Some(GameAction::OptionsSliderLeft);
        }
        if str_eq(s, "GAME_ACTION_OPTIONS_SLIDER_RIGHT") {
            return Some(GameAction::OptionsSliderRight);
        }
        if str_eq(s, "GAME_ACTION_DIGITAL_ANALOGUE_ZOOM_IN") {
            return Some(GameAction::DigitalAnalogueZoomIn);
        }
        if str_eq(s, "GAME_ACTION_DIGITAL_ANALOGUE_ZOOM_OUT") {
            return Some(GameAction::DigitalAnalogueZoomOut);
        }
        if str_eq(s, "GAME_ACTION_TOGGLE_VIEW_HERO_MODE") {
            return Some(GameAction::ToggleViewHeroMode);
        }
        if str_eq(s, "GAME_ACTION_CENTRE_CAMERA") {
            return Some(GameAction::CentreCamera);
        }
        if str_eq(s, "GAME_ACTION_BETTING") {
            return Some(GameAction::Betting);
        }
        if str_eq(s, "GAME_ACTION_COUNT") {
            return Some(GameAction::Count);
        }
        if str_eq(s, "GAME_ACTION_116") {
            return Some(GameAction::GameAction116);
        }
        if str_eq(s, "GAME_ACTION_117") {
            return Some(GameAction::GameAction117);
        }
        if str_eq(s, "GAME_ACTION_118") {
            return Some(GameAction::GameAction118);
        }
        if str_eq(s, "GAME_ACTION_119") {
            return Some(GameAction::GameAction119);
        }
        if str_eq(s, "GAME_ACTION_120") {
            return Some(GameAction::GameAction120);
        }
        if str_eq(s, "GAME_ACTION_121") {
            return Some(GameAction::GameAction121);
        }
        if str_eq(s, "GAME_ACTION_122") {
            return Some(GameAction::GameAction122);
        }
        if str_eq(s, "GAME_ACTION_123") {
            return Some(GameAction::GameAction123);
        }
        if str_eq(s, "GAME_ACTION_124") {
            return Some(GameAction::GameAction124);
        }
        if str_eq(s, "GAME_ACTION_125") {
            return Some(GameAction::GameAction125);
        }
        if str_eq(s, "GAME_ACTION_126") {
            return Some(GameAction::GameAction126);
        }
        if str_eq(s, "GAME_ACTION_127") {
            return Some(GameAction::GameAction127);
        }
        None
    }
}

/// Input controller kind.
#[derive(Debug, Clone, Copy, PartialEq, Eq, Structural, PartialOrd, Ord, Hash)]
pub enum ControllerType {
    NoController,
    XboxPad,
    Keyboard,
    Mouse,
}

impl DefEnum for ControllerType {
    open spec fn wire_value(self) -> i32 {
        match self {
            ControllerType::NoController => 0i32,
            ControllerType::XboxPad => 1i32,
            ControllerType::Keyboard => 2i32,
            ControllerType::Mouse => 3i32,
        }
    }

    open spec fn lookup(value: i32) -> Option<Self> {
        match value {
            0i32 => Some(ControllerType::NoController),
            1i32 => Some(ControllerType::XboxPad),
            2i32 => Some(ControllerType::Keyboard),
            3i32 => Some(ControllerType::Mouse),
            _ => None,
        }
    }

    fn from_i32(value: i32) -> (r: Option<Self>) {
        match value {
            0i32 => Some(ControllerType::NoController),
            1i32 => Some(ControllerType::XboxPad),
            2i32 => Some(ControllerType::Keyboard),
            3i32 => Some(ControllerType::Mouse),
            _ => None,
        }
    }

    fn to_i32(self) -> (r: i32) {
        match self {
            ControllerType::NoController => 0i32,
            ControllerType::XboxPad => 1i32,
            ControllerType::Keyboard => 2i32,
            ControllerType::Mouse => 3i32,
        }
    }

    proof fn lemma_lookup_wire_value(e: Self) {
    }
}

impl ControllerType {
    /// The C++ enumerator symbol of `self`.
    pub open spec fn symbol_of(self) -> Seq<char> {
        match self {
            ControllerType::NoController => "CONTROLLER_NONE"@,
            ControllerType::XboxPad => "CONTROLLER_XBOX_PAD"@,
            ControllerType::Keyboard => "CONTROLLER_KEYBOARD"@,
            ControllerType::Mouse => "CONTROLLER_MOUSE"@,
        }
    }

    /// The first variant whose symbol is `s`, if any.
    pub open spec fn symbol_lookup(s: Seq<char>) -> Option<Self> {
        if s == "CONTROLLER_NONE"@ {
            Some(ControllerType::NoController)
        } else if s == "CONTROLLER_XBOX_PAD"@ {
            Some(ControllerType::XboxPad)
        } else if s == "CONTROLLER_KEYBOARD"@ {
            Some(ControllerType::Keyboard)
        } else if s == "CONTROLLER_MOUSE"@ {
            Some(ControllerType::Mouse)
        } else {
            None
        }
    }

    /// The C++ enumerator symbol text defs use for `self`.
    pub fn symbol(self) -> (r: &'static str)
        ensures
            r@ == self.symbol_of(),
    {
        match self {
            ControllerType::NoController => "CONTROLLER_NONE",
            ControllerType::XboxPad => "CONTROLLER_XBOX_PAD",
            ControllerType::Keyboard => "CONTROLLER_KEYBOARD",
            ControllerType::Mouse => "CONTROLLER_MOUSE",
        }
    }

    /// The variant a C++ enumerator symbol names.
    pub fn from_symbol(s: &str) -> (r: Option<Self>)
        ensures
            r == Self::symbol_lookup(s@),
    {
        if str_eq(s, "CONTROLLER_NONE") {
            return Some(ControllerType::NoController);
        }
        if str_eq(s, "CONTROLLER_XBOX_PAD") {
            return Some(ControllerType::XboxPad);
        }
        if str_eq(s, "CONTROLLER_KEYBOARD") {
            return Some(ControllerType::Keyboard);
        }
        if str_eq(s, "CONTROLLER_MOUSE") {
            return Some(ControllerType::Mouse);
        }
        None
    }
}

/// Xbox pad button.
#[derive(Debug, Clone, Copy, PartialEq, Eq, Structural, PartialOrd, Ord, Hash)]
pub enum XboxControllerButton {
    UndefinedButton,
    XButton,
    YButton,
    BlackButton,
    AButton,
    BButton,
    WhiteButton,
    LeftTrigger,
    RightTrigger,
    LeftStickButton,
    RightStickButton,
    StartButton,
    BackButton,
    DpadUpButton,
    DpadDownButton,
    DpadLeftButton,
    DpadRightButton,
    LeftAnalogueStick,
    RightAnalogueStick,
}

impl DefEnum for XboxControllerButton {
    open spec fn wire_value(self) -> i32 {
        match self {
            XboxControllerButton::UndefinedButton => 0i32,
            XboxControllerButton::XButton => 1i32,
            XboxControllerButton::YButton => 2i32,
            XboxControllerButton::BlackButton => 3i32,
            XboxControllerButton::AButton => 4i32,
            XboxControllerButton::BButton => 5i32,
            XboxControllerButton::WhiteButton => 6i32,
            XboxControllerButton::LeftTrigger => 7i32,
            XboxControllerButton::RightTrigger => 8i32,
            XboxControllerButton::LeftStickButton => 9i32,
            XboxControllerButton::RightStickButton => 10i32,
            XboxControllerButton::StartButton => 11i32,
            XboxControllerButton::BackButton => 12i32,
            XboxControllerButton::DpadUpButton => 13i32,
            XboxControllerButton::DpadDownButton => 14i32,
            XboxControllerButton::DpadLeftButton => 15i32,
            XboxControllerButton::DpadRightButton => 16i32,
            XboxControllerButton::LeftAnalogueStick => 17i32,
            XboxControllerButton::RightAnalogueStick => 18i32,
        }
    }

    open spec fn lookup(value: i32) -> Option<Self> {
        match value {
            0i32 => Some(XboxControllerButton::UndefinedButton),
            1i32 => Some(XboxControllerButton::XButton),
            2i32 => Some(XboxControllerButton::YButton),
            3i32 => Some(XboxControllerButton::BlackButton),
            4i32 => Some(XboxControllerButton::AButton),
            5i32 => Some(XboxControllerButton::BButton),
            6i32 => Some(XboxControllerButton::WhiteButton),
            7i32 => Some(XboxControllerButton::LeftTrigger),
            8i32 => Some(XboxControllerButton::RightTrigger),
            9i32 => Some(XboxControllerButton::LeftStickButton),
            10i32 => Some(XboxControllerButton::RightStickButton),
            11i32 => Some(XboxControllerButton::StartButton),
            12i32 => Some(XboxControllerButton::BackButton),
            13i32 => Some(XboxControllerButton::DpadUpButton),
            14i32 => Some(XboxControllerButton::DpadDownButton),
            15i32 => Some(XboxControllerButton::DpadLeftButton),
            16i32 => Some(XboxControllerButton::DpadRightButton),
            17i32 => Some(XboxControllerButton::LeftAnalogueStick),
            18i32 => Some(XboxControllerButton::RightAnalogueStick),
            _ => None,
        }
    }

    fn from_i32(value: i32) -> (r: Option<Self>) {
        match value {
            0i32 => Some(XboxControllerButton::UndefinedButton),
            1i32 => Some(XboxControllerButton::XButton),
            2i32 => Some(XboxControllerButton::YButton),
            3i32 => Some(XboxControllerButton::BlackButton),
            4i32 => Some(XboxControllerButton::AButton),
            5i32 => Some(XboxControllerButton::BButton),
            6i32 => Some(XboxControllerButton::WhiteButton),
            7i32 => Some(XboxControllerButton::LeftTrigger),
            8i32 => Some(XboxControllerButton::RightTrigger),
            9i32 => Some(XboxControllerButton::LeftStickButton),
            10i32 => Some(XboxControllerButton::RightStickButton),
            11i32 => Some(XboxControllerButton::StartButton),
            12i32 => Some(XboxControllerButton::BackButton),
            13i32 => Some(XboxControllerButton::DpadUpButton),
            14i32 => Some(XboxControllerButton::DpadDownButton),
            15i32 => Some(XboxControllerButton::DpadLeftButton),
            16i32 => Some(XboxControllerButton::DpadRightButton),
            17i32 => Some(XboxControllerButton::LeftAnalogueStick),
            18i32 => Some(XboxControllerButton::RightAnalogueStick),
            _ => None,
        }
    }

    fn to_i32(self) -> (r: i32) {
        match self {
            XboxControllerButton::UndefinedButton => 0i32,
            XboxControllerButton::XButton => 1i32,
            XboxControllerButton::YButton => 2i32,
            XboxControllerButton::BlackButton => 3i32,
            XboxControllerButton::AButton => 4i32,
            XboxControllerButton::BButton => 5i32,
            XboxControllerButton::WhiteButton => 6i32,
            XboxControllerButton::LeftTrigger => 7i32,
            XboxControllerButton::RightTrigger => 8i32,
            XboxControllerButton::LeftStickButton => 9i32,
            XboxControllerButton::RightStickButton => 10i32,
            XboxControllerButton::StartButton => 11i32,
            XboxControllerButton::BackButton => 12i32,
            XboxControllerButton::DpadUpButton => 13i32,
            XboxControllerButton::DpadDownButton => 14i32,
            XboxControllerButton::DpadLeftButton => 15i32,
            XboxControllerButton::DpadRightButton => 16i32,
            XboxControllerButton::LeftAnalogueStick => 17i32,
            XboxControllerButton::RightAnalogueStick => 18i32,
        }
    }

    proof fn lemma_lookup_wire_value(e: Self) {
    }
}

impl XboxControllerButton {
    /// The C++ enumerator symbol of `self`.
    pub open spec fn symbol_of(self) -> Seq<char> {
        match self {
            XboxControllerButton::UndefinedButton => "XBOX_PAD_UNDEFINED_BUTTON"@,
            XboxControllerButton::XButton => "XBOX_PAD_X_BUTTON"@,
            XboxControllerButton::YButton => "XBOX_PAD_Y_BUTTON"@,
            XboxControllerButton::BlackButton => "XBOX_PAD_BLACK_BUTTON"@,
            XboxControllerButton::AButton => "XBOX_PAD_A_BUTTON"@,
            XboxControllerButton::BButton => "XBOX_PAD_B_BUTTON"@,
            XboxControllerButton::WhiteButton => "XBOX_PAD_WHITE_BUTTON"@,
            XboxControllerButton::LeftTrigger => "XBOX_PAD_LEFT_TRIGGER"@,
            XboxControllerButton::RightTrigger => "XBOX_PAD_RIGHT_TRIGGER"@,
            XboxControllerButton::LeftStickButton => "XBOX_PAD_LEFT_STICK_BUTTON"@,
            XboxControllerButton::RightStickButton => "XBOX_PAD_RIGHT_STICK_BUTTON"@,
            XboxControllerButton::StartButton => "XBOX_PAD_START_BUTTON"@,
            XboxControllerButton::BackButton => "XBOX_PAD_BACK_BUTTON"@,
            XboxControllerButton::DpadUpButton => "XBOX_PAD_DPAD_UP_BUTTON"@,
            XboxControllerButton::DpadDownButton => "XBOX_PAD_DPAD_DOWN_BUTTON"@,
            XboxControllerButton::DpadLeftButton => "XBOX_PAD_DPAD_LEFT_BUTTON"@,
            XboxControllerButton::DpadRightButton => "XBOX_PAD_DPAD_RIGHT_BUTTON"@,
            XboxControllerButton::LeftAnalogueStick => "XBOX_PAD_LEFT_ANALOGUE_STICK"@,
            XboxControllerButton::RightAnalogueStick => "XBOX_PAD_RIGHT_ANALOGUE_STICK"@,
        }
    }

    /// The first variant whose symbol is `s`, if any.
    pub open spec fn symbol_lookup(s: Seq<char>) -> Option<Self> {
        if s == "XBOX_PAD_UNDEFINED_BUTTON"@ {
            Some(XboxControllerButton::UndefinedButton)
        } else if s == "XBOX_PAD_X_BUTTON"@ {
            Some(XboxControllerButton::XButton)
        } else if s == "XBOX_PAD_Y_BUTTON"@ {
            Some(XboxControllerButton::YButton)
        } else if s == "XBOX_PAD_BLACK_BUTTON"@ {
            Some(XboxControllerButton::BlackButton)
        } else if s == "XBOX_PAD_A_BUTTON"@ {
            Some(XboxControllerButton::AButton)
        } else if s == "XBOX_PAD_B_BUTTON"@ {
            Some(XboxControllerButton::BButton)
        } else if s == "XBOX_PAD_WHITE_BUTTON"@ {
            Some(XboxControllerButton::WhiteButton)
        } else if s == "XBOX_PAD_LEFT_TRIGGER"@ {
            Some(XboxControllerButton::LeftTrigger)
        } else if s == "XBOX_PAD_RIGHT_TRIGGER"@ {
            Some(XboxControllerButton::RightTrigger)
        } else if s == "XBOX_PAD_LEFT_STICK_BUTTON"@ {
            Some(XboxControllerButton::LeftStickButton)
        } else if s == "XBOX_PAD_RIGHT_STICK_BUTTON"@ {
            Some(XboxControllerButton::RightStickButton)
        } else if s == "XBOX_PAD_START_BUTTON"@ {
            Some(XboxControllerButton::StartButton)
        } else if s == "XBOX_PAD_BACK_BUTTON"@ {
            Some(XboxControllerButton::BackButton)
        } else if s == "XBOX_PAD_DPAD_UP_BUTTON"@ {
            Some(XboxControllerButton::DpadUpButton)
        } else if s == "XBOX_PAD_DPAD_DOWN_BUTTON"@ {
            Some(XboxControllerButton::DpadDownButton)
        } else if s == "XBOX_PAD_DPAD_LEFT_BUTTON"@ {
            Some(XboxControllerButton::DpadLeftButton)
        } else if s == "XBOX_PAD_DPAD_RIGHT_BUTTON"@ {
            Some(XboxControllerButton::DpadRightButton)
        } else if s == "XBOX_PAD_LEFT_ANALOGUE_STICK"@ {
            Some(XboxControllerButton::LeftAnalogueStick)
        } else if s == "XBOX_PAD_RIGHT_ANALOGUE_STICK"@ {
            Some(XboxControllerButton::RightAnalogueStick)
        } else {
            None
        }
    }

    /// The C++ enumerator symbol text defs use for `self`.
    pub fn symbol(self) -> (r: &'static str)
        ensures
            r@ == self.symbol_of(),
    {
        match self {
            XboxControllerButton::UndefinedButton => "XBOX_PAD_UNDEFINED_BUTTON",
            XboxControllerButton::XButton => "XBOX_PAD_X_BUTTON",
            XboxControllerButton::YButton => "XBOX_PAD_Y_BUTTON",
            XboxControllerButton::BlackButton => "XBOX_PAD_BLACK_BUTTON",
            XboxControllerButton::AButton => "XBOX_PAD_A_BUTTON",
            XboxControllerButton::BButton => "XBOX_PAD_B_BUTTON",
            XboxControllerButton::WhiteButton => "XBOX_PAD_WHITE_BUTTON",
            XboxControllerButton::LeftTrigger => "XBOX_PAD_LEFT_TRIGGER",
            XboxControllerButton::RightTrigger => "XBOX_PAD_RIGHT_TRIGGER",
            XboxControllerButton::LeftStickButton => "XBOX_PAD_LEFT_STICK_BUTTON",
            XboxControllerButton::RightStickButton => "XBOX_PAD_RIGHT_STICK_BUTTON",
            XboxControllerButton::StartButton => "XBOX_PAD_START_BUTTON",
            XboxControllerButton::BackButton => "XBOX_PAD_BACK_BUTTON",
            XboxControllerButton::DpadUpButton => "XBOX_PAD_DPAD_UP_BUTTON",
            XboxControllerButton::DpadDownButton => "XBOX_PAD_DPAD_DOWN_BUTTON",
            XboxControllerButton::DpadLeftButton => "XBOX_PAD_DPAD_LEFT_BUTTON",
            XboxControllerButton::DpadRightButton => "XBOX_PAD_DPAD_RIGHT_BUTTON",
            XboxControllerButton::LeftAnalogueStick => "XBOX_PAD_LEFT_ANALOGUE_STICK",
            XboxControllerButton::RightAnalogueStick => "XBOX_PAD_RIGHT_ANALOGUE_STICK",
        }
    }

    /// The variant a C++ enumerator symbol names.
    pub fn from_symbol(s: &str) -> (r: Option<Self>)
        ensures
            r == Self::symbol_lookup(s@),
    {
        if str_eq(s, "XBOX_PAD_UNDEFINED_BUTTON") {
            return Some(XboxControllerButton::UndefinedButton);
        }
        if str_eq(s, "XBOX_PAD_X_BUTTON") {
            return Some(XboxControllerButton::XButton);
        }
        if str_eq(s, "XBOX_PAD_Y_BUTTON") {
            return Some(XboxControllerButton::YButton);
        }
        if str_eq(s, "XBOX_PAD_BLACK_BUTTON") {
            return Some(XboxControllerButton::BlackButton);
        }
        if str_eq(s, "XBOX_PAD_A_BUTTON") {
            return Some(XboxControllerButton::AButton);
        }
        if str_eq(s, "XBOX_PAD_B_BUTTON") {
            return Some(XboxControllerButton::BButton);
        }
        if str_eq(s, "XBOX_PAD_WHITE_BUTTON") {
            return Some(XboxControllerButton::WhiteButton);
        }
        if str_eq(s, "XBOX_PAD_LEFT_TRIGGER") {
            return Some(XboxControllerButton::LeftTrigger);
        }
        if str_eq(s, "XBOX_PAD_RIGHT_TRIGGER") {
            return Some(XboxControllerButton::RightTrigger);
        }
        if str_eq(s, "XBOX_PAD_LEFT_STICK_BUTTON") {
            return Some(XboxControllerButton::LeftStickButton);
        }
        if str_eq(s, "XBOX_PAD_RIGHT_STICK_BUTTON") {
            return Some(XboxControllerButton::RightStickButton);
        }
        if str_eq(s, "XBOX_PAD_START_BUTTON") {
            return Some(XboxControllerButton::StartButton);
        }
        if str_eq(s, "XBOX_PAD_BACK_BUTTON") {
            return Some(XboxControllerButton::BackButton);
        }
        if str_eq(s, "XBOX_PAD_DPAD_UP_BUTTON") {
            return Some(XboxControllerButton::DpadUpButton);
        }
        if str_eq(s, "XBOX_PAD_DPAD_DOWN_BUTTON") {
            return Some(XboxControllerButton::DpadDownButton);
        }
        if str_eq(s, "XBOX_PAD_DPAD_LEFT_BUTTON") {
            return Some(XboxControllerButton::DpadLeftButton);
        }
        if str_eq(s, "XBOX_PAD_DPAD_RIGHT_BUTTON") {
            return Some(XboxControllerButton::DpadRightButton);
        }
        if str_eq(s, "XBOX_PAD_LEFT_ANALOGUE_STICK") {
            return Some(XboxControllerButton::LeftAnalogueStick);
        }
        if str_eq(s, "XBOX_PAD_RIGHT_ANALOGUE_STICK") {
            return Some(XboxControllerButton::RightAnalogueStick);
        }
        None
    }
}

/// Mouse button or movement binding.
#[derive(Debug, Clone, Copy, PartialEq, Eq, Structural, PartialOrd, Ord, Hash)]
pub enum MouseButtonControl {
    ButtonNullControl,
    ButtonLeftControl,
    ButtonRightControl,
    ButtonMiddleControl,
    Movement,
    WheelMovement,
    WheelMovementUp,
    WheelMovementDown,
    Button4Control,
    Button5Control,
    Button6Control,
    Button7Control,
    Button8Control,
}

impl DefEnum for MouseButtonControl {
    open spec fn wire_value(self) -> i32 {
        match self {
            MouseButtonControl::ButtonNullControl => 0i32,
            MouseButtonControl::ButtonLeftControl => 1i32,
            MouseButtonControl::ButtonRightControl => 2i32,
            MouseButtonControl::ButtonMiddleControl => 3i32,
            MouseButtonControl::Movement => 4i32,
            MouseButtonControl::WheelMovement => 5i32,
            MouseButtonControl::WheelMovementUp => 6i32,
            MouseButtonControl::WheelMovementDown => 7i32,
            MouseButtonControl::Button4Control => 8i32,
            MouseButtonControl::Button5Control => 9i32,
            MouseButtonControl::Button6Control => 10i32,
            MouseButtonControl::Button7Control => 11i32,
            MouseButtonControl::Button8Control => 12i32,
        }
    }

    open spec fn lookup(value: i32) -> Option<Self> {
        match value {
            0i32 => Some(MouseButtonControl::ButtonNullControl),
            1i32 => Some(MouseButtonControl::ButtonLeftControl),
            2i32 => Some(MouseButtonControl::ButtonRightControl),
            3i32 => Some(MouseButtonControl::ButtonMiddleControl),
            4i32 => Some(MouseButtonControl::Movement),
            5i32 => Some(MouseButtonControl::WheelMovement),
            6i32 => Some(MouseButtonControl::WheelMovementUp),
            7i32 => Some(MouseButtonControl::WheelMovementDown),
            8i32 => Some(MouseButtonControl::Button4Control),
            9i32 => Some(MouseButtonControl::Button5Control),
            10i32 => Some(MouseButtonControl::Button6Control),
            11i32 => Some(MouseButtonControl::Button7Control),
            12i32 => Some(MouseButtonControl::Button8Control),
            _ => None,
        }
    }

    fn from_i32(value: i32) -> (r: Option<Self>) {
        match value {
            0i32 => Some(MouseButtonControl::ButtonNullControl),
            1i32 => Some(MouseButtonControl::ButtonLeftControl),
            2i32 => Some(MouseButtonControl::ButtonRightControl),
            3i32 => Some(MouseButtonControl::ButtonMiddleControl),
            4i32 => Some(MouseButtonControl::Movement),
            5i32 => Some(MouseButtonControl::WheelMovement),
            6i32 => Some(MouseButtonControl::WheelMovementUp),
            7i32 => Some(MouseButtonControl::WheelMovementDown),
            8i32 => Some(MouseButtonControl::Button4Control),
            9i32 => Some(MouseButtonControl::Button5Control),
            10i32 => Some(MouseButtonControl::Button6Control),
            11i32 => Some(MouseButtonControl::Button7Control),
            12i32 => Some(MouseButtonControl::Button8Control),
            _ => None,
        }
    }

    fn to_i32(self) -> (r: i32) {
        match self {
            MouseButtonControl::ButtonNullControl => 0i32,
            MouseButtonControl::ButtonLeftControl => 1i32,
            MouseButtonControl::ButtonRightControl => 2i32,
            MouseButtonControl::ButtonMiddleControl => 3i32,
            MouseButtonControl::Movement => 4i32,
            MouseButtonControl::WheelMovement => 5i32,
            MouseButtonControl::WheelMovementUp => 6i32,
            MouseButtonControl::WheelMovementDown => 7i32,
            MouseButtonControl::Button4Control => 8i32,
            MouseButtonControl::Button5Control => 9i32,
            MouseButtonControl::Button6Control => 10i32,
            MouseButtonControl::Button7Control => 11i32,
            MouseButtonControl::Button8Control => 12i32,
        }
    }

    proof fn lemma_lookup_wire_value(e: Self) {
    }
}

impl MouseButtonControl {
    /// The C++ enumerator symbol of `self`.
    pub open spec fn symbol_of(self) -> Seq<char> {
        match self {
            MouseButtonControl::ButtonNullControl => "MOUSE_BUTTON_NULL_CONTROL"@,
            MouseButtonControl::ButtonLeftControl => "MOUSE_BUTTON_LEFT_CONTROL"@,
            MouseButtonControl::ButtonRightControl => "MOUSE_BUTTON_RIGHT_CONTROL"@,
            MouseButtonControl::ButtonMiddleControl => "MOUSE_BUTTON_MIDDLE_CONTROL"@,
            MouseButtonControl::Movement => "MOUSE_MOVEMENT"@,
            MouseButtonControl::WheelMovement => "MOUSE_WHEEL_MOVEMENT"@,
            MouseButtonControl::WheelMovementUp => "MOUSE_WHEEL_MOVEMENT_UP"@,
            MouseButtonControl::WheelMovementDown => "MOUSE_WHEEL_MOVEMENT_DOWN"@,
            MouseButtonControl::Button4Control => "MOUSE_BUTTON_4_CONTROL"@,
            MouseButtonControl::Button5Control => "MOUSE_BUTTON_5_CONTROL"@,
            MouseButtonControl::Button6Control => "MOUSE_BUTTON_6_CONTROL"@,
            MouseButtonControl::Button7Control => "MOUSE_BUTTON_7_CONTROL"@,
            MouseButtonControl::Button8Control => "MOUSE_BUTTON_8_CONTROL"@,
        }
    }

    /// The first variant whose symbol is `s`, if any.
    pub open spec fn symbol_lookup(s: Seq<char>) -> Option<Self> {
        if s == "MOUSE_BUTTON_NULL_CONTROL"@ {
            Some(MouseButtonControl::ButtonNullControl)
        } else if s == "MOUSE_BUTTON_LEFT_CONTROL"@ {
            Some(MouseButtonControl::ButtonLeftControl)
        } else if s == "MOUSE_BUTTON_RIGHT_CONTROL"@ {
            Some(MouseButtonControl::ButtonRightControl)
        } else if s == "MOUSE_BUTTON_MIDDLE_CONTROL"@ {
            Some(MouseButtonControl::ButtonMiddleControl)
        } else if s == "MOUSE_MOVEMENT"@ {
            Some(MouseButtonControl::Movement)
        } else if s == "MOUSE_WHEEL_MOVEMENT"@ {
            Some(MouseButtonControl::WheelMovement)
        } else if s == "MOUSE_WHEEL_MOVEMENT_UP"@ {
            Some(MouseButtonControl::WheelMovementUp)
        } else if s == "MOUSE_WHEEL_MOVEMENT_DOWN"@ {
            Some(MouseButtonControl::WheelMovementDown)
        } else if s == "MOUSE_BUTTON_4_CONTROL"@ {
            Some(MouseButtonControl::Button4Control)
        } else if s == "MOUSE_BUTTON_5_CONTROL"@ {
            Some(MouseButtonControl::Button5Control)
        } else if s == "MOUSE_BUTTON_6_CONTROL"@ {
            Some(MouseButtonControl::Button6Control)
        } else if s == "MOUSE_BUTTON_7_CONTROL"@ {
            Some(MouseButtonControl::Button7Control)
        } else if s == "MOUSE_BUTTON_8_CONTROL"@ {
            Some(MouseButtonControl::Button8Control)
        } else {
            None
        }
    }

    /// The C++ enumerator symbol text defs use for `self`.
    pub fn symbol(self) -> (r: &'static str)
        ensures
            r@ == self.symbol_of(),
    {
        match self {
            MouseButtonControl::ButtonNullControl => "MOUSE_BUTTON_NULL_CONTROL",
            MouseButtonControl::ButtonLeftControl => "MOUSE_BUTTON_LEFT_CONTROL",
            MouseButtonControl::ButtonRightControl => "MOUSE_BUTTON_RIGHT_CONTROL",
            MouseButtonControl::ButtonMiddleControl => "MOUSE_BUTTON_MIDDLE_CONTROL",
            MouseButtonControl::Movement => "MOUSE_MOVEMENT",
            MouseButtonControl::WheelMovement => "MOUSE_WHEEL_MOVEMENT",
            MouseButtonControl::WheelMovementUp => "MOUSE_WHEEL_MOVEMENT_UP",
            MouseButtonControl::WheelMovementDown => "MOUSE_WHEEL_MOVEMENT_DOWN",
            MouseButtonControl::Button4Control => "MOUSE_BUTTON_4_CONTROL",
            MouseButtonControl::Button5Control => "MOUSE_BUTTON_5_CONTROL",
            MouseButtonControl::Button6Control => "MOUSE_BUTTON_6_CONTROL",
            MouseButtonControl::Button7Control => "MOUSE_BUTTON_7_CONTROL",
            MouseButtonControl::Button8Control => "MOUSE_BUTTON_8_CONTROL",
        }
    }

    /// The variant a C++ enumerator symbol names.
    pub fn from_symbol(s: &str) -> (r: Option<Self>)
        ensures
            r == Self::symbol_lookup(s@),
    {
        if str_eq(s, "MOUSE_BUTTON_NULL_CONTROL") {
            return Some(MouseButtonControl::ButtonNullControl);
        }
        if str_eq(s, "MOUSE_BUTTON_LEFT_CONTROL") {
            return Some(MouseButtonControl::ButtonLeftControl);
        }
        if str_eq(s, "MOUSE_BUTTON_RIGHT_CONTROL") {
            return Some(MouseButtonControl::ButtonRightControl);
        }
        if str_eq(s, "MOUSE_BUTTON_MIDDLE_CONTROL") {
            return Some(MouseButtonControl::ButtonMiddleControl);
        }
        if str_eq(s, "MOUSE_MOVEMENT") {
            return Some(MouseButtonControl::Movement);
        }
        if str_eq(s, "MOUSE_WHEEL_MOVEMENT") {
            return Some(MouseButtonControl::WheelMovement);
        }
        if str_eq(s, "MOUSE_WHEEL_MOVEMENT_UP") {
            return Some(MouseButtonControl::WheelMovementUp);
        }
        if str_eq(s, "MOUSE_WHEEL_MOVEMENT_DOWN") {
            return Some(MouseButtonControl::WheelMovementDown);
        }
        if str_eq(s, "MOUSE_BUTTON_4_CONTROL") {
            return Some(MouseButtonControl::Button4Control);
        }
        if str_eq(s, "MOUSE_BUTTON_5_CONTROL") {
            return Some(MouseButtonControl::Button5Control);
        }
        if str_eq(s, "MOUSE_BUTTON_6_CONTROL") {
            return Some(MouseButtonControl::Button6Control);
        }
        if str_eq(s, "MOUSE_BUTTON_7_CONTROL") {
            return Some(MouseButtonControl::Button7Control);
        }
        if str_eq(s, "MOUSE_BUTTON_8_CONTROL") {
            return Some(MouseButtonControl::Button8Control);
        }
        None
    }
}

/// Keyboard key binding.
/// C++ `EInputKey` (`Data/Defs/keyboard_keys.h`). The `NO_INPUT_KEYS` count
/// enumerator is omitted.
#[derive(Debug, Clone, Copy, PartialEq, Eq, Structural, PartialOrd, Ord, Hash)]
pub enum InputKey {
    Null,
    Esc,
    Num1,
    Num2,
    Num3,
    Num4,
    Num5,
    Num6,
    Num7,
    Num8,
    Num9,
    Num0,
    Minus,
    Equals,
    Backspace,
    Tab,
    Q,
    W,
    E,
    R,
    T,
    Y,
    U,
    I,
    O,
    P,
    Lbracket,
    Rbracket,
    Return,
    Lcontrol,
    A,
    S,
    D,
    F,
    G,
    H,
    J,
    K,
    L,
    Semicolon,
    Apostrophe,
    Hash,
    Lshift,
    Backslash,
    Z,
    X,
    C,
    V,
    B,
    N,
    M,
    Comma,
    Fullstop,
    Slash,
    Rshift,
    Pmultiply,
    Lalt,
    Space,
    Capslock,
    F1,
    F2,
    F3,
    F4,
    F5,
    F6,
    F7,
    F8,
    F9,
    F10,
    Numlock,
    Scrolllock,
    P7,
    P8,
    P9,
    Pminus,
    P4,
    P5,
    P6,
    Pplus,
    P1,
    P2,
    P3,
    P0,
    Pfullstop,
    F11,
    F12,
    F13,
    F14,
    F15,
    Kana,
    Convert,
    Noconvert,
    Yen,
    Pequals,
    Circumflex,
    At,
    Colon,
    Underline,
    Kanji,
    Stop,
    Ax,
    Unlabeled,
    Penter,
    Rcontrol,
    Pcomma,
    Pdivide,
    Sysrq,
    Ralt,
    Home,
    Up,
    Pageup,
    Left,
    Right,
    End,
    Down,
    Pagedown,
    Insert,
    Delete,
    Lwin,
    Rwin,
    Apps,
}

impl DefEnum for InputKey {
    open spec fn wire_value(self) -> i32 {
        match self {
            InputKey::Null => 0i32,
            InputKey::Esc => 1i32,
            InputKey::Num1 => 2i32,
            InputKey::Num2 => 3i32,
            InputKey::Num3 => 4i32,
            InputKey::Num4 => 5i32,
            InputKey::Num5 => 6i32,
            InputKey::Num6 => 7i32,
            InputKey::Num7 => 8i32,
            InputKey::Num8 => 9i32,
            InputKey::Num9 => 10i32,
            InputKey::Num0 => 11i32,
            InputKey::Minus => 12i32,
            InputKey::Equals => 13i32,
            InputKey::Backspace => 14i32,
            InputKey::Tab => 15i32,
            InputKey::Q => 16i32,
            InputKey::W => 17i32,
            InputKey::E => 18i32,
            InputKey::R => 19i32,
            InputKey::T => 20i32,
            InputKey::Y => 21i32,
            InputKey::U => 22i32,
            InputKey::I => 23i32,
            InputKey::O => 24i32,
            InputKey::P => 25i32,
            InputKey::Lbracket => 26i32,
            InputKey::Rbracket => 27i32,
            InputKey::Return => 28i32,
            InputKey::Lcontrol => 29i32,
            InputKey::A => 30i32,
            InputKey::S => 31i32,
            InputKey::D => 32i32,
            InputKey::F => 33i32,
            InputKey::G => 34i32,
            InputKey::H => 35i32,
            InputKey::J => 36i32,
            InputKey::K => 37i32,
            InputKey::L => 38i32,
            InputKey::Semicolon => 39i32,
            InputKey::Apostrophe => 40i32,
            InputKey::Hash => 41i32,
            InputKey::Lshift => 42i32,
            InputKey::Backslash => 43i32,
            InputKey::Z => 44i32,
            InputKey::X => 45i32,
            InputKey::C => 46i32,
            InputKey::V => 47i32,
            InputKey::B => 48i32,
            InputKey::N => 49i32,
            InputKey::M => 50i32,
            InputKey::Comma => 51i32,
            InputKey::Fullstop => 52i32,
            InputKey::Slash => 53i32,
            InputKey::Rshift => 54i32,
            InputKey::Pmultiply => 55i32,
            InputKey::Lalt => 56i32,
            InputKey::Space => 57i32,
            InputKey::Capslock => 58i32,
            InputKey::F1 => 59i32,
            InputKey::F2 => 60i32,
            InputKey::F3 => 61i32,
            InputKey::F4 => 62i32,
            InputKey::F5 => 63i32,
            InputKey::F6 => 64i32,
            InputKey::F7 => 65i32,
            InputKey::F8 => 66i32,
            InputKey::F9 => 67i32,
            InputKey::F10 => 68i32,
            InputKey::Numlock => 69i32,
            InputKey::Scrolllock => 70i32,
            InputKey::P7 => 71i32,
            InputKey::P8 => 72i32,
            InputKey::P9 => 73i32,
            InputKey::Pminus => 74i32,
            InputKey::P4 => 75i32,
            InputKey::P5 => 76i32,
            InputKey::P6 => 77i32,
            InputKey::Pplus => 78i32,
            InputKey::P1 => 79i32,
            InputKey::P2 => 80i32,
            InputKey::P3 => 81i32,
            InputKey::P0 => 82i32,
            InputKey::Pfullstop => 83i32,
            InputKey::F11 => 84i32,
            InputKey::F12 => 85i32,
            InputKey::F13 => 86i32,
            InputKey::F14 => 87i32,
            InputKey::F15 => 88i32,
            InputKey::Kana => 89i32,
            InputKey::Convert => 90i32,
            InputKey::Noconvert => 91i32,
            InputKey::Yen => 92i32,
            InputKey::Pequals => 93i32,
            InputKey::Circumflex => 94i32,
            InputKey::At => 95i32,
            InputKey::Colon => 96i32,
            InputKey::Underline => 97i32,
            InputKey::Kanji => 98i32,
            InputKey::Stop => 99i32,
            InputKey::Ax => 100i32,
            InputKey::Unlabeled => 101i32,
            InputKey::Penter => 102i32,
            InputKey::Rcontrol => 103i32,
            InputKey::Pcomma => 104i32,
            InputKey::Pdivide => 105i32,
            InputKey::Sysrq => 106i32,
            InputKey::Ralt => 107i32,
            InputKey::Home => 108i32,
            InputKey::Up => 109i32,
            InputKey::Pageup => 110i32,
            InputKey::Left => 111i32,
            InputKey::Right => 112i32,
            InputKey::End => 113i32,
            InputKey::Down => 114i32,
            InputKey::Pagedown => 115i32,
            InputKey::Insert => 116i32,
            InputKey::Delete => 117i32,
            InputKey::Lwin => 118i32,
            InputKey::Rwin => 119i32,
            InputKey::Apps => 120i32,
        }
    }

    open spec fn lookup(value: i32) -> Option<Self> {
        match value {
            0i32 => Some(InputKey::Null),
            1i32 => Some(InputKey::Esc),
            2i32 => Some(InputKey::Num1),
            3i32 => Some(InputKey::Num2),
            4i32 => Some(InputKey::Num3),
            5i32 => Some(InputKey::Num4),
            6i32 => Some(InputKey::Num5),
            7i32 => Some(InputKey::Num6),
            8i32 => Some(InputKey::Num7),
            9i32 => Some(InputKey::Num8),
            10i32 => Some(InputKey::Num9),
            11i32 => Some(InputKey::Num0),
            12i32 => Some(InputKey::Minus),
            13i32 => Some(InputKey::Equals),
            14i32 => Some(InputKey::Backspace),
            15i32 => Some(InputKey::Tab),
            16i32 => Some(InputKey::Q),
            17i32 => Some(InputKey::W),
            18i32 => Some(InputKey::E),
            19i32 => Some(InputKey::R),
            20i32 => Some(InputKey::T),
            21i32 => Some(InputKey::Y),
            22i32 => Some(InputKey::U),
            23i32 => Some(InputKey::I),
            24i32 => Some(InputKey::O),
            25i32 => Some(InputKey::P),
            26i32 => Some(InputKey::Lbracket),
            27i32 => Some(InputKey::Rbracket),
            28i32 => Some(InputKey::Return),
            29i32 => Some(InputKey::Lcontrol),
            30i32 => Some(InputKey::A),
            31i32 => Some(InputKey::S),
            32i32 => Some(InputKey::D),
            33i32 => Some(InputKey::F),
            34i32 => Some(InputKey::G),
            35i32 => Some(InputKey::H),
            36i32 => Some(InputKey::J),
            37i32 => Some(InputKey::K),
            38i32 => Some(InputKey::L),
            39i32 => Some(InputKey::Semicolon),
            40i32 => Some(InputKey::Apostrophe),
            41i32 => Some(InputKey::Hash),
            42i32 => Some(InputKey::Lshift),
            43i32 => Some(InputKey::Backslash),
            44i32 => Some(InputKey::Z),
            45i32 => Some(InputKey::X),
            46i32 => Some(InputKey::C),
            47i32 => Some(InputKey::V),
            48i32 => Some(InputKey::B),
            49i32 => Some(InputKey::N),
            50i32 => Some(InputKey::M),
            51i32 => Some(InputKey::Comma),
            52i32 => Some(InputKey::Fullstop),
            53i32 => Some(InputKey::Slash),
            54i32 => Some(InputKey::Rshift),
            55i32 => Some(InputKey::Pmultiply),
            56i32 => Some(InputKey::Lalt),
            57i32 => Some(InputKey::Space),
            58i32 => Some(InputKey::Capslock),
            59i32 => Some(InputKey::F1),
            60i32 => Some(InputKey::F2),
            61i32 => Some(InputKey::F3),
            62i32 => Some(InputKey::F4),
            63i32 => Some(InputKey::F5),
            64i32 => Some(InputKey::F6),
            65i32 => Some(InputKey::F7),
            66i32 => Some(InputKey::F8),
            67i32 => Some(InputKey::F9),
            68i32 => Some(InputKey::F10),
            69i32 => Some(InputKey::Numlock),
            70i32 => Some(InputKey::Scrolllock),
            71i32 => Some(InputKey::P7),
            72i32 => Some(InputKey::P8),
            73i32 => Some(InputKey::P9),
            74i32 => Some(InputKey::Pminus),
            75i32 => Some(InputKey::P4),
            76i32 => Some(InputKey::P5),
            77i32 => Some(InputKey::P6),
            78i32 => Some(InputKey::Pplus),
            79i32 => Some(InputKey::P1),
            80i32 => Some(InputKey::P2),
            81i32 => Some(InputKey::P3),
            82i32 => Some(InputKey::P0),
            83i32 => Some(InputKey::Pfullstop),
            84i32 => Some(InputKey::F11),
            85i32 => Some(InputKey::F12),
            86i32 => Some(InputKey::F13),
            87i32 => Some(InputKey::F14),
            88i32 => Some(InputKey::F15),
            89i32 => Some(InputKey::Kana),
            90i32 => Some(InputKey::Convert),
            91i32 => Some(InputKey::Noconvert),
            92i32 => Some(InputKey::Yen),
            93i32 => Some(InputKey::Pequals),
            94i32 => Some(InputKey::Circumflex),
            95i32 => Some(InputKey::At),
            96i32 => Some(InputKey::Colon),
            97i32 => Some(InputKey::Underline),
            98i32 => Some(InputKey::Kanji),
            99i32 => Some(InputKey::Stop),
            100i32 => Some(InputKey::Ax),
            101i32 => Some(InputKey::Unlabeled),
            102i32 => Some(InputKey::Penter),
            103i32 => Some(InputKey::Rcontrol),
            104i32 => Some(InputKey::Pcomma),
            105i32 => Some(InputKey::Pdivide),
            106i32 => Some(InputKey::Sysrq),
            107i32 => Some(InputKey::Ralt),
            108i32 => Some(InputKey::Home),
            109i32 => Some(InputKey::Up),
            110i32 => Some(InputKey::Pageup),
            111i32 => Some(InputKey::Left),
            112i32 => Some(InputKey::Right),
            113i32 => Some(InputKey::End),
            114i32 => Some(InputKey::Down),
            115i32 => Some(InputKey::Pagedown),
            116i32 => Some(InputKey::Insert),
            117i32 => Some(InputKey::Delete),
            118i32 => Some(InputKey::Lwin),
            119i32 => Some(InputKey::Rwin),
            120i32 => Some(InputKey::Apps),
            _ => None,
        }
    }

    fn from_i32(value: i32) -> (r: Option<Self>) {
        match value {
            0i32 => Some(InputKey::Null),
            1i32 => Some(InputKey::Esc),
            2i32 => Some(InputKey::Num1),
            3i32 => Some(InputKey::Num2),
            4i32 => Some(InputKey::Num3),
            5i32 => Some(InputKey::Num4),
            6i32 => Some(InputKey::Num5),
            7i32 => Some(InputKey::Num6),
            8i32 => Some(InputKey::Num7),
            9i32 => Some(InputKey::Num8),
            10i32 => Some(InputKey::Num9),
            11i32 => Some(InputKey::Num0),
            12i32 => Some(InputKey::Minus),
            13i32 => Some(InputKey::Equals),
            14i32 => Some(InputKey::Backspace),
            15i32 => Some(InputKey::Tab),
            16i32 => Some(InputKey::Q),
            17i32 => Some(InputKey::W),
            18i32 => Some(InputKey::E),
            19i32 => Some(InputKey::R),
            20i32 => Some(InputKey::T),
            21i32 => Some(InputKey::Y),
            22i32 => Some(InputKey::U),
            23i32 => Some(InputKey::I),
            24i32 => Some(InputKey::O),
            25i32 => Some(InputKey::P),
            26i32 => Some(InputKey::Lbracket),
            27i32 => Some(InputKey::Rbracket),
            28i32 => Some(InputKey::Return),
            29i32 => Some(InputKey::Lcontrol),
            30i32 => Some(InputKey::A),
            31i32 => Some(InputKey::S),
            32i32 => Some(InputKey::D),
            33i32 => Some(InputKey::F),
            34i32 => Some(InputKey::G),
            35i32 => Some(InputKey::H),
            36i32 => Some(InputKey::J),
            37i32 => Some(InputKey::K),
            38i32 => Some(InputKey::L),
            39i32 => Some(InputKey::Semicolon),
            40i32 => Some(InputKey::Apostrophe),
            41i32 => Some(InputKey::Hash),
            42i32 => Some(InputKey::Lshift),
            43i32 => Some(InputKey::Backslash),
            44i32 => Some(InputKey::Z),
            45i32 => Some(InputKey::X),
            46i32 => Some(InputKey::C),
            47i32 => Some(InputKey::V),
            48i32 => Some(InputKey::B),
            49i32 => Some(InputKey::N),
            50i32 => Some(InputKey::M),
            51i32 => Some(InputKey::Comma),
            52i32 => Some(InputKey::Fullstop),
            53i32 => Some(InputKey::Slash),
            54i32 => Some(InputKey::Rshift),
            55i32 => Some(InputKey::Pmultiply),
            56i32 => Some(InputKey::Lalt),
            57i32 => Some(InputKey::Space),
            58i32 => Some(InputKey::Capslock),
            59i32 => Some(InputKey::F1),
            60i32 => Some(InputKey::F2),
            61i32 => Some(InputKey::F3),
            62i32 => Some(InputKey::F4),
            63i32 => Some(InputKey::F5),
            64i32 => Some(InputKey::F6),
            65i32 => Some(InputKey::F7),
            66i32 => Some(InputKey::F8),
            67i32 => Some(InputKey::F9),
            68i32 => Some(InputKey::F10),
            69i32 => Some(InputKey::Numlock),
            70i32 => Some(InputKey::Scrolllock),
            71i32 => Some(InputKey::P7),
            72i32 => Some(InputKey::P8),
            73i32 => Some(InputKey::P9),
            74i32 => Some(InputKey::Pminus),
            75i32 => Some(InputKey::P4),
            76i32 => Some(InputKey::P5),
            77i32 => Some(InputKey::P6),
            78i32 => Some(InputKey::Pplus),
            79i32 => Some(InputKey::P1),
            80i32 => Some(InputKey::P2),
            81i32 => Some(InputKey::P3),
            82i32 => Some(InputKey::P0),
            83i32 => Some(InputKey::Pfullstop),
            84i32 => Some(InputKey::F11),
            85i32 => Some(InputKey::F12),
            86i32 => Some(InputKey::F13),
            87i32 => Some(InputKey::F14),
            88i32 => Some(InputKey::F15),
            89i32 => Some(InputKey::Kana),
            90i32 => Some(InputKey::Convert),
            91i32 => Some(InputKey::Noconvert),
            92i32 => Some(InputKey::Yen),
            93i32 => Some(InputKey::Pequals),
            94i32 => Some(InputKey::Circumflex),
            95i32 => Some(InputKey::At),
            96i32 => Some(InputKey::Colon),
            97i32 => Some(InputKey::Underline),
            98i32 => Some(InputKey::Kanji),
            99i32 => Some(InputKey::Stop),
            100i32 => Some(InputKey::Ax),
            101i32 => Some(InputKey::Unlabeled),
            102i32 => Some(InputKey::Penter),
            103i32 => Some(InputKey::Rcontrol),
            104i32 => Some(InputKey::Pcomma),
            105i32 => Some(InputKey::Pdivide),
            106i32 => Some(InputKey::Sysrq),
            107i32 => Some(InputKey::Ralt),
            108i32 => Some(InputKey::Home),
            109i32 => Some(InputKey::Up),
            110i32 => Some(InputKey::Pageup),
            111i32 => Some(InputKey::Left),
            112i32 => Some(InputKey::Right),
            113i32 => Some(InputKey::End),
            114i32 => Some(InputKey::Down),
            115i32 => Some(InputKey::Pagedown),
            116i32 => Some(InputKey::Insert),
            117i32 => Some(InputKey::Delete),
            118i32 => Some(InputKey::Lwin),
            119i32 => Some(InputKey::Rwin),
            120i32 => Some(InputKey::Apps),
            _ => None,
        }
    }

    fn to_i32(self) -> (r: i32) {
        match self {
            InputKey::Null => 0i32,
            InputKey::Esc => 1i32,
            InputKey::Num1 => 2i32,
            InputKey::Num2 => 3i32,
            InputKey::Num3 => 4i32,
            InputKey::Num4 => 5i32,
            InputKey::Num5 => 6i32,
            InputKey::Num6 => 7i32,
            InputKey::Num7 => 8i32,
            InputKey::Num8 => 9i32,
            InputKey::Num9 => 10i32,
            InputKey::Num0 => 11i32,
            InputKey::Minus => 12i32,
            InputKey::Equals => 13i32,
            InputKey::Backspace => 14i32,
            InputKey::Tab => 15i32,
            InputKey::Q => 16i32,
            InputKey::W => 17i32,
            InputKey::E => 18i32,
            InputKey::R => 19i32,
            InputKey::T => 20i32,
            InputKey::Y => 21i32,
            InputKey::U => 22i32,
            InputKey::I => 23i32,
            InputKey::O => 24i32,
            InputKey::P => 25i32,
            InputKey::Lbracket => 26i32,
            InputKey::Rbracket => 27i32,
            InputKey::Return => 28i32,
            InputKey::Lcontrol => 29i32,
            InputKey::A => 30i32,
            InputKey::S => 31i32,
            InputKey::D => 32i32,
            InputKey::F => 33i32,
            InputKey::G => 34i32,
            InputKey::H => 35i32,
            InputKey::J => 36i32,
            InputKey::K => 37i32,
            InputKey::L => 38i32,
            InputKey::Semicolon => 39i32,
            InputKey::Apostrophe => 40i32,
            InputKey::Hash => 41i32,
            InputKey::Lshift => 42i32,
            InputKey::Backslash => 43i32,
            InputKey::Z => 44i32,
            InputKey::X => 45i32,
            InputKey::C => 46i32,
            InputKey::V => 47i32,
            InputKey::B => 48i32,
            InputKey::N => 49i32,
            InputKey::M => 50i32,
            InputKey::Comma => 51i32,
            InputKey::Fullstop => 52i32,
            InputKey::Slash => 53i32,
            InputKey::Rshift => 54i32,
            InputKey::Pmultiply => 55i32,
            InputKey::Lalt => 56i32,
            InputKey::Space => 57i32,
            InputKey::Capslock => 58i32,
            InputKey::F1 => 59i32,
            InputKey::F2 => 60i32,
            InputKey::F3 => 61i32,
            InputKey::F4 => 62i32,
            InputKey::F5 => 63i32,
            InputKey::F6 => 64i32,
            InputKey::F7 => 65i32,
            InputKey::F8 => 66i32,
            InputKey::F9 => 67i32,
            InputKey::F10 => 68i32,
            InputKey::Numlock => 69i32,
            InputKey::Scrolllock => 70i32,
            InputKey::P7 => 71i32,
            InputKey::P8 => 72i32,
            InputKey::P9 => 73i32,
            InputKey::Pminus => 74i32,
            InputKey::P4 => 75i32,
            InputKey::P5 => 76i32,
            InputKey::P6 => 77i32,
            InputKey::Pplus => 78i32,
            InputKey::P1 => 79i32,
            InputKey::P2 => 80i32,
            InputKey::P3 => 81i32,
            InputKey::P0 => 82i32,
            InputKey::Pfullstop => 83i32,
            InputKey::F11 => 84i32,
            InputKey::F12 => 85i32,
            InputKey::F13 => 86i32,
            InputKey::F14 => 87i32,
            InputKey::F15 => 88i32,
            InputKey::Kana => 89i32,
            InputKey::Convert => 90i32,
            InputKey::Noconvert => 91i32,
            InputKey::Yen => 92i32,
            InputKey::Pequals => 93i32,
            InputKey::Circumflex => 94i32,
            InputKey::At => 95i32,
            InputKey::Colon => 96i32,
            InputKey::Underline => 97i32,
            InputKey::Kanji => 98i32,
            InputKey::Stop => 99i32,
            InputKey::Ax => 100i32,
            InputKey::Unlabeled => 101i32,
            InputKey::Penter => 102i32,
            InputKey::Rcontrol => 103i32,
            InputKey::Pcomma => 104i32,
            InputKey::Pdivide => 105i32,
            InputKey::Sysrq => 106i32,
            InputKey::Ralt => 107i32,
            InputKey::Home => 108i32,
            InputKey::Up => 109i32,
            InputKey::Pageup => 110i32,
            InputKey::Left => 111i32,
            InputKey::Right => 112i32,
            InputKey::End => 113i32,
            InputKey::Down => 114i32,
            InputKey::Pagedown => 115i32,
            InputKey::Insert => 116i32,
            InputKey::Delete => 117i32,
            InputKey::Lwin => 118i32,
            InputKey::Rwin => 119i32,
            InputKey::Apps => 120i32,
        }
    }

    proof fn lemma_lookup_wire_value(e: Self) {
    }
}

impl InputKey {
    /// The C++ enumerator symbol of `self`.
    pub open spec fn symbol_of(self) -> Seq<char> {
        match self {
            InputKey::Null => "KB_NULL"@,
            InputKey::Esc => "KB_ESC"@,
            InputKey::Num1 => "KB_1"@,
            InputKey::Num2 => "KB_2"@,
            InputKey::Num3 => "KB_3"@,
            InputKey::Num4 => "KB_4"@,
            InputKey::Num5 => "KB_5"@,
            InputKey::Num6 => "KB_6"@,
            InputKey::Num7 => "KB_7"@,
            InputKey::Num8 => "KB_8"@,
            InputKey::Num9 => "KB_9"@,
            InputKey::Num0 => "KB_0"@,
            InputKey::Minus => "KB_MINUS"@,
            InputKey::Equals => "KB_EQUALS"@,
            InputKey::Backspace => "KB_BACKSPACE"@,
            InputKey::Tab => "KB_TAB"@,
            InputKey::Q => "KB_Q"@,
            InputKey::W => "KB_W"@,
            InputKey::E => "KB_E"@,
            InputKey::R => "KB_R"@,
            InputKey::T => "KB_T"@,
            InputKey::Y => "KB_Y"@,
            InputKey::U => "KB_U"@,
            InputKey::I => "KB_I"@,
            InputKey::O => "KB_O"@,
            InputKey::P => "KB_P"@,
            InputKey::Lbracket => "KB_LBRACKET"@,
            InputKey::Rbracket => "KB_RBRACKET"@,
            InputKey::Return => "KB_RETURN"@,
            InputKey::Lcontrol => "KB_LCONTROL"@,
            InputKey::A => "KB_A"@,
            InputKey::S => "KB_S"@,
            InputKey::D => "KB_D"@,
            InputKey::F => "KB_F"@,
            InputKey::G => "KB_G"@,
            InputKey::H => "KB_H"@,
            InputKey::J => "KB_J"@,
            InputKey::K => "KB_K"@,
            InputKey::L => "KB_L"@,
            InputKey::Semicolon => "KB_SEMICOLON"@,
            InputKey::Apostrophe => "KB_APOSTROPHE"@,
            InputKey::Hash => "KB_HASH"@,
            InputKey::Lshift => "KB_LSHIFT"@,
            InputKey::Backslash => "KB_BACKSLASH"@,
            InputKey::Z => "KB_Z"@,
            InputKey::X => "KB_X"@,
            InputKey::C => "KB_C"@,
            InputKey::V => "KB_V"@,
            InputKey::B => "KB_B"@,
            InputKey::N => "KB_N"@,
            InputKey::M => "KB_M"@,
            InputKey::Comma => "KB_COMMA"@,
            InputKey::Fullstop => "KB_FULLSTOP"@,
            InputKey::Slash => "KB_SLASH"@,
            InputKey::Rshift => "KB_RSHIFT"@,
            InputKey::Pmultiply => "KB_PMULTIPLY"@,
            InputKey::Lalt => "KB_LALT"@,
            InputKey::Space => "KB_SPACE"@,
            InputKey::Capslock => "KB_CAPSLOCK"@,
            InputKey::F1 => "KB_F1"@,
            InputKey::F2 => "KB_F2"@,
            InputKey::F3 => "KB_F3"@,
            InputKey::F4 => "KB_F4"@,
            InputKey::F5 => "KB_F5"@,
            InputKey::F6 => "KB_F6"@,
            InputKey::F7 => "KB_F7"@,
            InputKey::F8 => "KB_F8"@,
            InputKey::F9 => "KB_F9"@,
            InputKey::F10 => "KB_F10"@,
            InputKey::Numlock => "KB_NUMLOCK"@,
            InputKey::Scrolllock => "KB_SCROLLLOCK"@,
            InputKey::P7 => "KB_P7"@,
            InputKey::P8 => "KB_P8"@,
            InputKey::P9 => "KB_P9"@,
            InputKey::Pminus => "KB_PMINUS"@,
            InputKey::P4 => "KB_P4"@,
            InputKey::P5 => "KB_P5"@,
            InputKey::P6 => "KB_P6"@,
            InputKey::Pplus => "KB_PPLUS"@,
            InputKey::P1 => "KB_P1"@,
            InputKey::P2 => "KB_P2"@,
            InputKey::P3 => "KB_P3"@,
            InputKey::P0 => "KB_P0"@,
            InputKey::Pfullstop => "KB_PFULLSTOP"@,
            InputKey::F11 => "KB_F11"@,
            InputKey::F12 => "KB_F12"@,
            InputKey::F13 => "KB_F13"@,
            InputKey::F14 => "KB_F14"@,
            InputKey::F15 => "KB_F15"@,
            InputKey::Kana => "KB_KANA"@,
            InputKey::Convert => "KB_CONVERT"@,
            InputKey::Noconvert => "KB_NOCONVERT"@,
            InputKey::Yen => "KB_YEN"@,
            InputKey::Pequals => "KB_PEQUALS"@,
            InputKey::Circumflex => "KB_CIRCUMFLEX"@,
            InputKey::At => "KB_AT"@,
            InputKey::Colon => "KB_COLON"@,
            InputKey::Underline => "KB_UNDERLINE"@,
            InputKey::Kanji => "KB_KANJI"@,
            InputKey::Stop => "KB_STOP"@,
            InputKey::Ax => "KB_AX"@,
            InputKey::Unlabeled => "KB_UNLABELED"@,
            InputKey::Penter => "KB_PENTER"@,
            InputKey::Rcontrol => "KB_RCONTROL"@,
            InputKey::Pcomma => "KB_PCOMMA"@,
            InputKey::Pdivide => "KB_PDIVIDE"@,
            InputKey::Sysrq => "KB_SYSRQ"@,
            InputKey::Ralt => "KB_RALT"@,
            InputKey::Home => "KB_HOME"@,
            InputKey::Up => "KB_UP"@,
            InputKey::Pageup => "KB_PAGEUP"@,
            InputKey::Left => "KB_LEFT"@,
            InputKey::Right => "KB_RIGHT"@,
            InputKey::End => "KB_END"@,
            InputKey::Down => "KB_DOWN"@,
            InputKey::Pagedown => "KB_PAGEDOWN"@,
            InputKey::Insert => "KB_INSERT"@,
            InputKey::Delete => "KB_DELETE"@,
            InputKey::Lwin => "KB_LWIN"@,
            InputKey::Rwin => "KB_RWIN"@,
            InputKey::Apps => "KB_APPS"@,
        }
    }

    /// The first variant whose symbol is `s`, if any.
    pub open spec fn symbol_lookup(s: Seq<char>) -> Option<Self> {
        if s == "KB_NULL"@ {
            Some(InputKey::Null)
        } else if s == "KB_ESC"@ {
            Some(InputKey::Esc)
        } else if s == "KB_1"@ {
            Some(InputKey::Num1)
        } else if s == "KB_2"@ {
            Some(InputKey::Num2)
        } else if s == "KB_3"@ {
            Some(InputKey::Num3)
        } else if s == "KB_4"@ {
            Some(InputKey::Num4)
        } else if s == "KB_5"@ {
            Some(InputKey::Num5)
        } else if s == "KB_6"@ {
            Some(InputKey::Num6)
        } else if s == "KB_7"@ {
            Some(InputKey::Num7)
        } else if s == "KB_8"@ {
            Some(InputKey::Num8)
        } else if s == "KB_9"@ {
            Some(InputKey::Num9)
        } else if s == "KB_0"@ {
            Some(InputKey::Num0)
        } else if s == "KB_MINUS"@ {
            Some(InputKey::Minus)
        } else if s == "KB_EQUALS"@ {
            Some(InputKey::Equals)
        } else if s == "KB_BACKSPACE"@ {
            Some(InputKey::Backspace)
        } else if s == "KB_TAB"@ {
            Some(InputKey::Tab)
        } else if s == "KB_Q"@ {
            Some(InputKey::Q)
        } else if s == "KB_W"@ {
            Some(InputKey::W)
        } else if s == "KB_E"@ {
            Some(InputKey::E)
        } else if s == "KB_R"@ {
            Some(InputKey::R)
        } else if s == "KB_T"@ {
            Some(InputKey::T)
        } else if s == "KB_Y"@ {
            Some(InputKey::Y)
        } else if s == "KB_U"@ {
            Some(InputKey::U)
        } else if s == "KB_I"@ {
            Some(InputKey::I)
        } else if s == "KB_O"@ {
            Some(InputKey::O)
        } else if s == "KB_P"@ {
            Some(InputKey::P)
        } else if s == "KB_LBRACKET"@ {
            Some(InputKey::Lbracket)
        } else if s == "KB_RBRACKET"@ {
            Some(InputKey::Rbracket)
        } else if s == "KB_RETURN"@ {
            Some(InputKey::Return)
        } else if s == "KB_LCONTROL"@ {
            Some(InputKey::Lcontrol)
        } else if s == "KB_A"@ {
            Some(InputKey::A)
        } else if s == "KB_S"@ {
            Some(InputKey::S)
        } else if s == "KB_D"@ {
            Some(InputKey::D)
        } else if s == "KB_F"@ {
            Some(InputKey::F)
        } else if s == "KB_G"@ {
            Some(InputKey::G)
        } else if s == "KB_H"@ {
            Some(InputKey::H)
        } else if s == "KB_J"@ {
            Some(InputKey::J)
        } else if s == "KB_K"@ {
            Some(InputKey::K)
        } else if s == "KB_L"@ {
            Some(InputKey::L)
        } else if s == "KB_SEMICOLON"@ {
            Some(InputKey::Semicolon)
        } else if s == "KB_APOSTROPHE"@ {
            Some(InputKey::Apostrophe)
        } else if s == "KB_HASH"@ {
            Some(InputKey::Hash)
        } else if s == "KB_LSHIFT"@ {
            Some(InputKey::Lshift)
        } else if s == "KB_BACKSLASH"@ {
            Some(InputKey::Backslash)
        } else if s == "KB_Z"@ {
            Some(InputKey::Z)
        } else if s == "KB_X"@ {
            Some(InputKey::X)
        } else if s == "KB_C"@ {
            Some(InputKey::C)
        } else if s == "KB_V"@ {
            Some(InputKey::V)
        } else if s == "KB_B"@ {
            Some(InputKey::B)
        } else if s == "KB_N"@ {
            Some(InputKey::N)
        } else if s == "KB_M"@ {
            Some(InputKey::M)
        } else if s == "KB_COMMA"@ {
            Some(InputKey::Comma)
        } else if s == "KB_FULLSTOP"@ {
            Some(InputKey::Fullstop)
        } else if s == "KB_SLASH"@ {
            Some(InputKey::Slash)
        } else if s == "KB_RSHIFT"@ {
            Some(InputKey::Rshift)
        } else if s == "KB_PMULTIPLY"@ {
            Some(InputKey::Pmultiply)
        } else if s == "KB_LALT"@ {
            Some(InputKey::Lalt)
        } else if s == "KB_SPACE"@ {
            Some(InputKey::Space)
        } else if s == "KB_CAPSLOCK"@ {
            Some(InputKey::Capslock)
        } else if s == "KB_F1"@ {
            Some(InputKey::F1)
        } else if s == "KB_F2"@ {
            Some(InputKey::F2)
        } else if s == "KB_F3"@ {
            Some(InputKey::F3)
        } else if s == "KB_F4"@ {
            Some(InputKey::F4)
        } else if s == "KB_F5"@ {
            Some(InputKey::F5)
        } else if s == "KB_F6"@ {
            Some(InputKey::F6)
        } else if s == "KB_F7"@ {
            Some(InputKey::F7)
        } else if s == "KB_F8"@ {
            Some(InputKey::F8)
        } else if s == "KB_F9"@ {
            Some(InputKey::F9)
        } else if s == "KB_F10"@ {
            Some(InputKey::F10)
        } else if s == "KB_NUMLOCK"@ {
            Some(InputKey::Numlock)
        } else if s == "KB_SCROLLLOCK"@ {
            Some(InputKey::Scrolllock)
        } else if s == "KB_P7"@ {
            Some(InputKey::P7)
        } else if s == "KB_P8"@ {
            Some(InputKey::P8)
        } else if s == "KB_P9"@ {
            Some(InputKey::P9)
        } else if s == "KB_PMINUS"@ {
            Some(InputKey::Pminus)
        } else if s == "KB_P4"@ {
            Some(InputKey::P4)
        } else if s == "KB_P5"@ {
            Some(InputKey::P5)
        } else if s == "KB_P6"@ {
            Some(InputKey::P6)
        } else if s == "KB_PPLUS"@ {
            Some(InputKey::Pplus)
        } else if s == "KB_P1"@ {
            Some(InputKey::P1)
        } else if s == "KB_P2"@ {
            Some(InputKey::P2)
        } else if s == "KB_P3"@ {
            Some(InputKey::P3)
        } else if s == "KB_P0"@ {
            Some(InputKey::P0)
        } else if s == "KB_PFULLSTOP"@ {
            Some(InputKey::Pfullstop)
        } else if s == "KB_F11"@ {
            Some(InputKey::F11)
        } else if s == "KB_F12"@ {
            Some(InputKey::F12)
        } else if s == "KB_F13"@ {
            Some(InputKey::F13)
        } else if s == "KB_F14"@ {
            Some(InputKey::F14)
        } else if s == "KB_F15"@ {
            Some(InputKey::F15)
        } else if s == "KB_KANA"@ {
            Some(InputKey::Kana)
        } else if s == "KB_CONVERT"@ {
            Some(InputKey::Convert)
        } else if s == "KB_NOCONVERT"@ {
            Some(InputKey::Noconvert)
        } else if s == "KB_YEN"@ {
            Some(InputKey::Yen)
        } else if s == "KB_PEQUALS"@ {
            Some(InputKey::Pequals)
        } else if s == "KB_CIRCUMFLEX"@ {
            Some(InputKey::Circumflex)
        } else if s == "KB_AT"@ {
            Some(InputKey::At)
        } else if s == "KB_COLON"@ {
            Some(InputKey::Colon)
        } else if s == "KB_UNDERLINE"@ {
            Some(InputKey::Underline)
        } else if s == "KB_KANJI"@ {
            Some(InputKey::Kanji)
        } else if s == "KB_STOP"@ {
            Some(InputKey::Stop)
        } else if s == "KB_AX"@ {
            Some(InputKey::Ax)
        } else if s == "KB_UNLABELED"@ {
            Some(InputKey::Unlabeled)
        } else if s == "KB_PENTER"@ {
            Some(InputKey::Penter)
        } else if s == "KB_RCONTROL"@ {
            Some(InputKey::Rcontrol)
        } else if s == "KB_PCOMMA"@ {
            Some(InputKey::Pcomma)
        } else if s == "KB_PDIVIDE"@ {
            Some(InputKey::Pdivide)
        } else if s == "KB_SYSRQ"@ {
            Some(InputKey::Sysrq)
        } else if s == "KB_RALT"@ {
            Some(InputKey::Ralt)
        } else if s == "KB_HOME"@ {
            Some(InputKey::Home)
        } else if s == "KB_UP"@ {
            Some(InputKey::Up)
        } else if s == "KB_PAGEUP"@ {
            Some(InputKey::Pageup)
        } else if s == "KB_LEFT"@ {
            Some(InputKey::Left)
        } else if s == "KB_RIGHT"@ {
            Some(InputKey::Right)
        } else if s == "KB_END"@ {
            Some(InputKey::End)
        } else if s == "KB_DOWN"@ {
            Some(InputKey::Down)
        } else if s == "KB_PAGEDOWN"@ {
            Some(InputKey::Pagedown)
        } else if s == "KB_INSERT"@ {
            Some(InputKey::Insert)
        } else if s == "KB_DELETE"@ {
            Some(InputKey::Delete)
        } else if s == "KB_LWIN"@ {
            Some(InputKey::Lwin)
        } else if s == "KB_RWIN"@ {
            Some(InputKey::Rwin)
        } else if s == "KB_APPS"@ {
            Some(InputKey::Apps)
        } else {
            None
        }
    }

    /// The C++ enumerator symbol text defs use for `self`.
    pub fn symbol(self) -> (r: &'static str)
        ensures
            r@ == self.symbol_of(),
    {
        match self {
            InputKey::Null => "KB_NULL",
            InputKey::Esc => "KB_ESC",
            InputKey::Num1 => "KB_1",
            InputKey::Num2 => "KB_2",
            InputKey::Num3 => "KB_3",
            InputKey::Num4 => "KB_4",
            InputKey::Num5 => "KB_5",
            InputKey::Num6 => "KB_6",
            InputKey::Num7 => "KB_7",
            InputKey::Num8 => "KB_8",
            InputKey::Num9 => "KB_9",
            InputKey::Num0 => "KB_0",
            InputKey::Minus => "KB_MINUS",
            InputKey::Equals => "KB_EQUALS",
            InputKey::Backspace => "KB_BACKSPACE",
            InputKey::Tab => "KB_TAB",
            InputKey::Q => "KB_Q",
            InputKey::W => "KB_W",
            InputKey::E => "KB_E",
            InputKey::R => "KB_R",
            InputKey::T => "KB_T",
            InputKey::Y => "KB_Y",
            InputKey::U => "KB_U",
            InputKey::I => "KB_I",
            InputKey::O => "KB_O",
            InputKey::P => "KB_P",
            InputKey::Lbracket => "KB_LBRACKET",
            InputKey::Rbracket => "KB_RBRACKET",
            InputKey::Return => "KB_RETURN",
            InputKey::Lcontrol => "KB_LCONTROL",
            InputKey::A => "KB_A",
            InputKey::S => "KB_S",
            InputKey::D => "KB_D",
            InputKey::F => "KB_F",
            InputKey::G => "KB_G",
            InputKey::H => "KB_H",
            InputKey::J => "KB_J",
            InputKey::K => "KB_K",
            InputKey::L => "KB_L",
            InputKey::Semicolon => "KB_SEMICOLON",
            InputKey::Apostrophe => "KB_APOSTROPHE",
            InputKey::Hash => "KB_HASH",
            InputKey::Lshift => "KB_LSHIFT",
            InputKey::Backslash => "KB_BACKSLASH",
            InputKey::Z => "KB_Z",
            InputKey::X => "KB_X",
            InputKey::C => "KB_C",
            InputKey::V => "KB_V",
            InputKey::B => "KB_B",
            InputKey::N => "KB_N",
            InputKey::M => "KB_M",
            InputKey::Comma => "KB_COMMA",
            InputKey::Fullstop => "KB_FULLSTOP",
            InputKey::Slash => "KB_SLASH",
            InputKey::Rshift => "KB_RSHIFT",
            InputKey::Pmultiply => "KB_PMULTIPLY",
            InputKey::Lalt => "KB_LALT",
            InputKey::Space => "KB_SPACE",
            InputKey::Capslock => "KB_CAPSLOCK",
            InputKey::F1 => "KB_F1",
            InputKey::F2 => "KB_F2",
            InputKey::F3 => "KB_F3",
            InputKey::F4 => "KB_F4",
            InputKey::F5 => "KB_F5",
            InputKey::F6 => "KB_F6",
            InputKey::F7 => "KB_F7",
            InputKey::F8 => "KB_F8",
            InputKey::F9 => "KB_F9",
            InputKey::F10 => "KB_F10",
            InputKey::Numlock => "KB_NUMLOCK",
            InputKey::Scrolllock => "KB_SCROLLLOCK",
            InputKey::P7 => "KB_P7",
            InputKey::P8 => "KB_P8",
            InputKey::P9 => "KB_P9",
            InputKey::Pminus => "KB_PMINUS",
            InputKey::P4 => "KB_P4",
            InputKey::P5 => "KB_P5",
            InputKey::P6 => "KB_P6",
            InputKey::Pplus => "KB_PPLUS",
            InputKey::P1 => "KB_P1",
            InputKey::P2 => "KB_P2",
            InputKey::P3 => "KB_P3",
            InputKey::P0 => "KB_P0",
            InputKey::Pfullstop => "KB_PFULLSTOP",
            InputKey::F11 => "KB_F11",
            InputKey::F12 => "KB_F12",
            InputKey::F13 => "KB_F13",
            InputKey::F14 => "KB_F14",
            InputKey::F15 => "KB_F15",
            InputKey::Kana => "KB_KANA",
            InputKey::Convert => "KB_CONVERT",
            InputKey::Noconvert => "KB_NOCONVERT",
            InputKey::Yen => "KB_YEN",
            InputKey::Pequals => "KB_PEQUALS",
            InputKey::Circumflex => "KB_CIRCUMFLEX",
            InputKey::At => "KB_AT",
            InputKey::Colon => "KB_COLON",
            InputKey::Underline => "KB_UNDERLINE",
            InputKey::Kanji => "KB_KANJI",
            InputKey::Stop => "KB_STOP",
            InputKey::Ax => "KB_AX",
            InputKey::Unlabeled => "KB_UNLABELED",
            InputKey::Penter => "KB_PENTER",
            InputKey::Rcontrol => "KB_RCONTROL",
            InputKey::Pcomma => "KB_PCOMMA",
            InputKey::Pdivide => "KB_PDIVIDE",
            InputKey::Sysrq => "KB_SYSRQ",
            InputKey::Ralt => "KB_RALT",
            InputKey::Home => "KB_HOME",
            InputKey::Up => "KB_UP",
            InputKey::Pageup => "KB_PAGEUP",
            InputKey::Left => "KB_LEFT",
            InputKey::Right => "KB_RIGHT",
            InputKey::End => "KB_END",
            InputKey::Down => "KB_DOWN",
            InputKey::Pagedown => "KB_PAGEDOWN",
            InputKey::Insert => "KB_INSERT",
            InputKey::Delete => "KB_DELETE",
            InputKey::Lwin => "KB_LWIN",
            InputKey::Rwin => "KB_RWIN",
            InputKey::Apps => "KB_APPS",
        }
    }

    /// The variant a C++ enumerator symbol names.
    pub fn from_symbol(s: &str) -> (r: Option<Self>)
        ensures
            r == Self::symbol_lookup(s@),
    {
        if str_eq(s, "KB_NULL") {
            return Some(InputKey::Null);
        }
        if str_eq(s, "KB_ESC") {
            return Some(InputKey::Esc);
        }
        if str_eq(s, "KB_1") {
            return Some(InputKey::Num1);
        }
        if str_eq(s, "KB_2") {
            return Some(InputKey::Num2);
        }
        if str_eq(s, "KB_3") {
            return Some(InputKey::Num3);
        }
        if str_eq(s, "KB_4") {
            return Some(InputKey::Num4);
        }
        if str_eq(s, "KB_5") {
            return Some(InputKey::Num5);
        }
        if str_eq(s, "KB_6") {
            return Some(InputKey::Num6);
        }
        if str_eq(s, "KB_7") {
            return Some(InputKey::Num7);
        }
        if str_eq(s, "KB_8") {
            return Some(InputKey::Num8);
        }
        if str_eq(s, "KB_9") {
            return Some(InputKey::Num9);
        }
        if str_eq(s, "KB_0") {
            return Some(InputKey::Num0);
        }
        if str_eq(s, "KB_MINUS") {
            return Some(InputKey::Minus);
        }
        if str_eq(s, "KB_EQUALS") {
            return Some(InputKey::Equals);
        }
        if str_eq(s, "KB_BACKSPACE") {
            return Some(InputKey::Backspace);
        }
        if str_eq(s, "KB_TAB") {
            return Some(InputKey::Tab);
        }
        if str_eq(s, "KB_Q") {
            return Some(InputKey::Q);
        }
        if str_eq(s, "KB_W") {
            return Some(InputKey::W);
        }
        if str_eq(s, "KB_E") {
            return Some(InputKey::E);
        }
        if str_eq(s, "KB_R") {
            return Some(InputKey::R);
        }
        if str_eq(s, "KB_T") {
            return Some(InputKey::T);
        }
        if str_eq(s, "KB_Y") {
            return Some(InputKey::Y);
        }
        if str_eq(s, "KB_U") {
            return Some(InputKey::U);
        }
        if str_eq(s, "KB_I") {
            return Some(InputKey::I);
        }
        if str_eq(s, "KB_O") {
            return Some(InputKey::O);
        }
        if str_eq(s, "KB_P") {
            return Some(InputKey::P);
        }
        if str_eq(s, "KB_LBRACKET") {
            return Some(InputKey::Lbracket);
        }
        if str_eq(s, "KB_RBRACKET") {
            return Some(InputKey::Rbracket);
        }
        if str_eq(s, "KB_RETURN") {
            return Some(InputKey::Return);
        }
        if str_eq(s, "KB_LCONTROL") {
            return Some(InputKey::Lcontrol);
        }
        if str_eq(s, "KB_A") {
            return Some(InputKey::A);
        }
        if str_eq(s, "KB_S") {
            return Some(InputKey::S);
        }
        if str_eq(s, "KB_D") {
            return Some(InputKey::D);
        }
        if str_eq(s, "KB_F") {
            return Some(InputKey::F);
        }
        if str_eq(s, "KB_G") {
            return Some(InputKey::G);
        }
        if str_eq(s, "KB_H") {
            return Some(InputKey::H);
        }
        if str_eq(s, "KB_J") {
            return Some(InputKey::J);
        }
        if str_eq(s, "KB_K") {
            return Some(InputKey::K);
        }
        if str_eq(s, "KB_L") {
            return Some(InputKey::L);
        }
        if str_eq(s, "KB_SEMICOLON") {
            return Some(InputKey::Semicolon);
        }
        if str_eq(s, "KB_APOSTROPHE") {
            return Some(InputKey::Apostrophe);
        }
        if str_eq(s, "KB_HASH") {
            return Some(InputKey::Hash);
        }
        if str_eq(s, "KB_LSHIFT") {
            return Some(InputKey::Lshift);
        }
        if str_eq(s, "KB_BACKSLASH") {
            return Some(InputKey::Backslash);
        }
        if str_eq(s, "KB_Z") {
            return Some(InputKey::Z);
        }
        if str_eq(s, "KB_X") {
            return Some(InputKey::X);
        }
        if str_eq(s, "KB_C") {
            return Some(InputKey::C);
        }
        if str_eq(s, "KB_V") {
            return Some(InputKey::V);
        }
        if str_eq(s, "KB_B") {
            return Some(InputKey::B);
        }
        if str_eq(s, "KB_N") {
            return Some(InputKey::N);
        }
        if str_eq(s, "KB_M") {
            return Some(InputKey::M);
        }
        if str_eq(s, "KB_COMMA") {
            return Some(InputKey::Comma);
        }
        if str_eq(s, "KB_FULLSTOP") {
            return Some(InputKey::Fullstop);
        }
        if str_eq(s, "KB_SLASH") {
            return Some(InputKey::Slash);
        }
        if str_eq(s, "KB_RSHIFT") {
            return Some(InputKey::Rshift);
        }
        if str_eq(s, "KB_PMULTIPLY") {
            return Some(InputKey::Pmultiply);
        }
        if str_eq(s, "KB_LALT") {
            return Some(InputKey::Lalt);
        }
        if str_eq(s, "KB_SPACE") {
            return Some(InputKey::Space);
        }
        if str_eq(s, "KB_CAPSLOCK") {
            return Some(InputKey::Capslock);
        }
        if str_eq(s, "KB_F1") {
            return Some(InputKey::F1);
        }
        if str_eq(s, "KB_F2") {
            return Some(InputKey::F2);
        }
        if str_eq(s, "KB_F3") {
            return Some(InputKey::F3);
        }
        if str_eq(s, "KB_F4") {
            return Some(InputKey::F4);
        }
        if str_eq(s, "KB_F5") {
            return Some(InputKey::F5);
        }
        if str_eq(s, "KB_F6") {
            return Some(InputKey::F6);
        }
        if str_eq(s, "KB_F7") {
            return Some(InputKey::F7);
        }
        if str_eq(s, "KB_F8") {
            return Some(InputKey::F8);
        }
        if str_eq(s, "KB_F9") {
            return Some(InputKey::F9);
        }
        if str_eq(s, "KB_F10") {
            return Some(InputKey::F10);
        }
        if str_eq(s, "KB_NUMLOCK") {
            return Some(InputKey::Numlock);
        }
        if str_eq(s, "KB_SCROLLLOCK") {
            return Some(InputKey::Scrolllock);
        }
        if str_eq(s, "KB_P7") {
            return Some(InputKey::P7);
        }
        if str_eq(s, "KB_P8") {
            return Some(InputKey::P8);
        }
        if str_eq(s, "KB_P9") {
            return Some(InputKey::P9);
        }
        if str_eq(s, "KB_PMINUS") {
            return Some(InputKey::Pminus);
        }
        if str_eq(s, "KB_P4") {
            return Some(InputKey::P4);
        }
        if str_eq(s, "KB_P5") {
            return Some(InputKey::P5);
        }
        if str_eq(s, "KB_P6") {
            return Some(InputKey::P6);
        }
        if str_eq(s, "KB_PPLUS") {
            return Some(InputKey::Pplus);
        }
        if str_eq(s, "KB_P1") {
            return Some(InputKey::P1);
        }
        if str_eq(s, "KB_P2") {
            return Some(InputKey::P2);
        }
        if str_eq(s, "KB_P3") {
            return Some(InputKey::P3);
        }
        if str_eq(s, "KB_P0") {
            return Some(InputKey::P0);
        }
        if str_eq(s, "KB_PFULLSTOP") {
            return Some(InputKey::Pfullstop);
        }
        if str_eq(s, "KB_F11") {
            return Some(InputKey::F11);
        }
        if str_eq(s, "KB_F12") {
            return Some(InputKey::F12);
        }
        if str_eq(s, "KB_F13") {
            return Some(InputKey::F13);
        }
        if str_eq(s, "KB_F14") {
            return Some(InputKey::F14);
        }
        if str_eq(s, "KB_F15") {
            return Some(InputKey::F15);
        }
        if str_eq(s, "KB_KANA") {
            return Some(InputKey::Kana);
        }
        if str_eq(s, "KB_CONVERT") {
            return Some(InputKey::Convert);
        }
        if str_eq(s, "KB_NOCONVERT") {
            return Some(InputKey::Noconvert);
        }
        if str_eq(s, "KB_YEN") {
            return Some(InputKey::Yen);
        }
        if str_eq(s, "KB_PEQUALS") {
            return Some(InputKey::Pequals);
        }
        if str_eq(s, "KB_CIRCUMFLEX") {
            return Some(InputKey::Circumflex);
        }
        if str_eq(s, "KB_AT") {
            return Some(InputKey::At);
        }
        if str_eq(s, "KB_COLON") {
            return Some(InputKey::Colon);
        }
        if str_eq(s, "KB_UNDERLINE") {
            return Some(InputKey::Underline);
        }
        if str_eq(s, "KB_KANJI") {
            return Some(InputKey::Kanji);
        }
        if str_eq(s, "KB_STOP") {
            return Some(InputKey::Stop);
        }
        if str_eq(s, "KB_AX") {
            return Some(InputKey::Ax);
        }
        if str_eq(s, "KB_UNLABELED") {
            return Some(InputKey::Unlabeled);
        }
        if str_eq(s, "KB_PENTER") {
            return Some(InputKey::Penter);
        }
        if str_eq(s, "KB_RCONTROL") {
            return Some(InputKey::Rcontrol);
        }
        if str_eq(s, "KB_PCOMMA") {
            return Some(InputKey::Pcomma);
        }
        if str_eq(s, "KB_PDIVIDE") {
            return Some(InputKey::Pdivide);
        }
        if str_eq(s, "KB_SYSRQ") {
            return Some(InputKey::Sysrq);
        }
        if str_eq(s, "KB_RALT") {
            return Some(InputKey::Ralt);
        }
        if str_eq(s, "KB_HOME") {
            return Some(InputKey::Home);
        }
        if str_eq(s, "KB_UP") {
            return Some(InputKey::Up);
        }
        if str_eq(s, "KB_PAGEUP") {
            return Some(InputKey::Pageup);
        }
        if str_eq(s, "KB_LEFT") {
            return Some(InputKey::Left);
        }
        if str_eq(s, "KB_RIGHT") {
            return Some(InputKey::Right);
        }
        if str_eq(s, "KB_END") {
            return Some(InputKey::End);
        }
        if str_eq(s, "KB_DOWN") {
            return Some(InputKey::Down);
        }
        if str_eq(s, "KB_PAGEDOWN") {
            return Some(InputKey::Pagedown);
        }
        if str_eq(s, "KB_INSERT") {
            return Some(InputKey::Insert);
        }
        if str_eq(s, "KB_DELETE") {
            return Some(InputKey::Delete);
        }
        if str_eq(s, "KB_LWIN") {
            return Some(InputKey::Lwin);
        }
        if str_eq(s, "KB_RWIN") {
            return Some(InputKey::Rwin);
        }
        if str_eq(s, "KB_APPS") {
            return Some(InputKey::Apps);
        }
        None
    }
}

#[derive(Debug, Clone, Copy, PartialEq, Eq, Structural, PartialOrd, Ord, Hash)]
pub enum ActionRegisteredType {
    NULL,
    JACKOFBLADESHITRESPONSE,
    SCORPIONKINGHITRESPONSE,
    MAZECAUSEFORCEPUSHHITRESPONSE,
    ROCKTROLLDEATH,
    KINGSCORPIONDEATH,
    WASPQUEENDEATH,
    COMBATGENERICPROJECTILEWEAPONAIM,
    COMBATGENERICPROJECTILEWEAPONFIRE,
    COMBATGENERICPROJECTILEWEAPONLOAD,
    COMBATGENERICLEADERCOMMAND,
    COMBATGENERICBOAST,
    COMBATUNBLOCKABLEATTACK,
    COMBATHOPBACK,
    COMBATSTRAFEFORWARD,
    COMBATSTRAFEBACKWARD,
    COMBATSTRAFELEFT,
    COMBATSTRAFERIGHT,
    COMBATSTRAFEBACKLEFT,
    COMBATSTRAFEBACKRIGHT,
    COMBATCHARGE,
    COMBATIDLE,
    BREAKINTOMELEE,
    COMBATSUMMONCREATURES,
    COMBATATTACKLUNGE,
    COMBATATTACKMAIN,
    COMBATATTACKKNOCKDOWN,
    COMBATATTACKSIDE,
    COMBATATTACKSHORTRANGE,
    BANDITKINGHITRESPONSE,
    BANDITKINGSTUCKHITRESPONSE,
    HOBBESPELLCASTERAIM,
    HOBBESPELLCASTERFIRE,
    HOBBELUNGE,
    TENTACLEHITRESPONSE,
    SCREAMERDIE,
    SCREAMERDRAINATTACK,
    SCREAMERDRAINOUTOF,
    SCREAMERADVANCE,
    SCREAMERBACKOFF,
    SCREAMERIDLE,
    COMBATBODGESIDEATTACK,
    COMBATTURNSTRIKELEFT,
    COMBATTURNSTRIKERIGHT,
    COMBATCHARGESTRIKE,
    NYMPHGETHIT,
    NYMPHGETHITDIE,
    BALVERINELUNGEATTACK,
    BALVERINEBREAKOFFFROMCOMBAT,
    BALVERINEBREAKOFFFROMCOMBATLONG,
    SUMMONERFLAMESLICE,
    SUMMONERUNSHEATHESTRIKE,
    SUMMONERSTRIKE,
    BATTLECHARGE,
    SUMMONERDIE,
}

impl DefEnum for ActionRegisteredType {
    open spec fn wire_value(self) -> i32 {
        match self {
            ActionRegisteredType::NULL => 0i32,
            ActionRegisteredType::JACKOFBLADESHITRESPONSE => 1i32,
            ActionRegisteredType::SCORPIONKINGHITRESPONSE => 2i32,
            ActionRegisteredType::MAZECAUSEFORCEPUSHHITRESPONSE => 3i32,
            ActionRegisteredType::ROCKTROLLDEATH => 4i32,
            ActionRegisteredType::KINGSCORPIONDEATH => 5i32,
            ActionRegisteredType::WASPQUEENDEATH => 6i32,
            ActionRegisteredType::COMBATGENERICPROJECTILEWEAPONAIM => 7i32,
            ActionRegisteredType::COMBATGENERICPROJECTILEWEAPONFIRE => 8i32,
            ActionRegisteredType::COMBATGENERICPROJECTILEWEAPONLOAD => 9i32,
            ActionRegisteredType::COMBATGENERICLEADERCOMMAND => 10i32,
            ActionRegisteredType::COMBATGENERICBOAST => 11i32,
            ActionRegisteredType::COMBATUNBLOCKABLEATTACK => 12i32,
            ActionRegisteredType::COMBATHOPBACK => 13i32,
            ActionRegisteredType::COMBATSTRAFEFORWARD => 14i32,
            ActionRegisteredType::COMBATSTRAFEBACKWARD => 15i32,
            ActionRegisteredType::COMBATSTRAFELEFT => 16i32,
            ActionRegisteredType::COMBATSTRAFERIGHT => 17i32,
            ActionRegisteredType::COMBATSTRAFEBACKLEFT => 18i32,
            ActionRegisteredType::COMBATSTRAFEBACKRIGHT => 19i32,
            ActionRegisteredType::COMBATCHARGE => 20i32,
            ActionRegisteredType::COMBATIDLE => 21i32,
            ActionRegisteredType::BREAKINTOMELEE => 22i32,
            ActionRegisteredType::COMBATSUMMONCREATURES => 23i32,
            ActionRegisteredType::COMBATATTACKLUNGE => 24i32,
            ActionRegisteredType::COMBATATTACKMAIN => 25i32,
            ActionRegisteredType::COMBATATTACKKNOCKDOWN => 26i32,
            ActionRegisteredType::COMBATATTACKSIDE => 27i32,
            ActionRegisteredType::COMBATATTACKSHORTRANGE => 28i32,
            ActionRegisteredType::BANDITKINGHITRESPONSE => 29i32,
            ActionRegisteredType::BANDITKINGSTUCKHITRESPONSE => 30i32,
            ActionRegisteredType::HOBBESPELLCASTERAIM => 31i32,
            ActionRegisteredType::HOBBESPELLCASTERFIRE => 32i32,
            ActionRegisteredType::HOBBELUNGE => 33i32,
            ActionRegisteredType::TENTACLEHITRESPONSE => 34i32,
            ActionRegisteredType::SCREAMERDIE => 35i32,
            ActionRegisteredType::SCREAMERDRAINATTACK => 36i32,
            ActionRegisteredType::SCREAMERDRAINOUTOF => 37i32,
            ActionRegisteredType::SCREAMERADVANCE => 38i32,
            ActionRegisteredType::SCREAMERBACKOFF => 39i32,
            ActionRegisteredType::SCREAMERIDLE => 40i32,
            ActionRegisteredType::COMBATBODGESIDEATTACK => 41i32,
            ActionRegisteredType::COMBATTURNSTRIKELEFT => 42i32,
            ActionRegisteredType::COMBATTURNSTRIKERIGHT => 43i32,
            ActionRegisteredType::COMBATCHARGESTRIKE => 44i32,
            ActionRegisteredType::NYMPHGETHIT => 45i32,
            ActionRegisteredType::NYMPHGETHITDIE => 46i32,
            ActionRegisteredType::BALVERINELUNGEATTACK => 47i32,
            ActionRegisteredType::BALVERINEBREAKOFFFROMCOMBAT => 48i32,
            ActionRegisteredType::BALVERINEBREAKOFFFROMCOMBATLONG => 49i32,
            ActionRegisteredType::SUMMONERFLAMESLICE => 50i32,
            ActionRegisteredType::SUMMONERUNSHEATHESTRIKE => 51i32,
            ActionRegisteredType::SUMMONERSTRIKE => 52i32,
            ActionRegisteredType::BATTLECHARGE => 53i32,
            ActionRegisteredType::SUMMONERDIE => 54i32,
        }
    }

    open spec fn lookup(value: i32) -> Option<Self> {
        match value {
            0i32 => Some(ActionRegisteredType::NULL),
            1i32 => Some(ActionRegisteredType::JACKOFBLADESHITRESPONSE),
            2i32 => Some(ActionRegisteredType::SCORPIONKINGHITRESPONSE),
            3i32 => Some(ActionRegisteredType::MAZECAUSEFORCEPUSHHITRESPONSE),
            4i32 => Some(ActionRegisteredType::ROCKTROLLDEATH),
            5i32 => Some(ActionRegisteredType::KINGSCORPIONDEATH),
            6i32 => Some(ActionRegisteredType::WASPQUEENDEATH),
            7i32 => Some(ActionRegisteredType::COMBATGENERICPROJECTILEWEAPONAIM),
            8i32 => Some(ActionRegisteredType::COMBATGENERICPROJECTILEWEAPONFIRE),
            9i32 => Some(ActionRegisteredType::COMBATGENERICPROJECTILEWEAPONLOAD),
            10i32 => Some(ActionRegisteredType::COMBATGENERICLEADERCOMMAND),
            11i32 => Some(ActionRegisteredType::COMBATGENERICBOAST),
            12i32 => Some(ActionRegisteredType::COMBATUNBLOCKABLEATTACK),
            13i32 => Some(ActionRegisteredType::COMBATHOPBACK),
            14i32 => Some(ActionRegisteredType::COMBATSTRAFEFORWARD),
            15i32 => Some(ActionRegisteredType::COMBATSTRAFEBACKWARD),
            16i32 => Some(ActionRegisteredType::COMBATSTRAFELEFT),
            17i32 => Some(ActionRegisteredType::COMBATSTRAFERIGHT),
            18i32 => Some(ActionRegisteredType::COMBATSTRAFEBACKLEFT),
            19i32 => Some(ActionRegisteredType::COMBATSTRAFEBACKRIGHT),
            20i32 => Some(ActionRegisteredType::COMBATCHARGE),
            21i32 => Some(ActionRegisteredType::COMBATIDLE),
            22i32 => Some(ActionRegisteredType::BREAKINTOMELEE),
            23i32 => Some(ActionRegisteredType::COMBATSUMMONCREATURES),
            24i32 => Some(ActionRegisteredType::COMBATATTACKLUNGE),
            25i32 => Some(ActionRegisteredType::COMBATATTACKMAIN),
            26i32 => Some(ActionRegisteredType::COMBATATTACKKNOCKDOWN),
            27i32 => Some(ActionRegisteredType::COMBATATTACKSIDE),
            28i32 => Some(ActionRegisteredType::COMBATATTACKSHORTRANGE),
            29i32 => Some(ActionRegisteredType::BANDITKINGHITRESPONSE),
            30i32 => Some(ActionRegisteredType::BANDITKINGSTUCKHITRESPONSE),
            31i32 => Some(ActionRegisteredType::HOBBESPELLCASTERAIM),
            32i32 => Some(ActionRegisteredType::HOBBESPELLCASTERFIRE),
            33i32 => Some(ActionRegisteredType::HOBBELUNGE),
            34i32 => Some(ActionRegisteredType::TENTACLEHITRESPONSE),
            35i32 => Some(ActionRegisteredType::SCREAMERDIE),
            36i32 => Some(ActionRegisteredType::SCREAMERDRAINATTACK),
            37i32 => Some(ActionRegisteredType::SCREAMERDRAINOUTOF),
            38i32 => Some(ActionRegisteredType::SCREAMERADVANCE),
            39i32 => Some(ActionRegisteredType::SCREAMERBACKOFF),
            40i32 => Some(ActionRegisteredType::SCREAMERIDLE),
            41i32 => Some(ActionRegisteredType::COMBATBODGESIDEATTACK),
            42i32 => Some(ActionRegisteredType::COMBATTURNSTRIKELEFT),
            43i32 => Some(ActionRegisteredType::COMBATTURNSTRIKERIGHT),
            44i32 => Some(ActionRegisteredType::COMBATCHARGESTRIKE),
            45i32 => Some(ActionRegisteredType::NYMPHGETHIT),
            46i32 => Some(ActionRegisteredType::NYMPHGETHITDIE),
            47i32 => Some(ActionRegisteredType::BALVERINELUNGEATTACK),
            48i32 => Some(ActionRegisteredType::BALVERINEBREAKOFFFROMCOMBAT),
            49i32 => Some(ActionRegisteredType::BALVERINEBREAKOFFFROMCOMBATLONG),
            50i32 => Some(ActionRegisteredType::SUMMONERFLAMESLICE),
            51i32 => Some(ActionRegisteredType::SUMMONERUNSHEATHESTRIKE),
            52i32 => Some(ActionRegisteredType::SUMMONERSTRIKE),
            53i32 => Some(ActionRegisteredType::BATTLECHARGE),
            54i32 => Some(ActionRegisteredType::SUMMONERDIE),
            _ => None,
        }
    }

    fn from_i32(value: i32) -> (r: Option<Self>) {
        match value {
            0i32 => Some(ActionRegisteredType::NULL),
            1i32 => Some(ActionRegisteredType::JACKOFBLADESHITRESPONSE),
            2i32 => Some(ActionRegisteredType::SCORPIONKINGHITRESPONSE),
            3i32 => Some(ActionRegisteredType::MAZECAUSEFORCEPUSHHITRESPONSE),
            4i32 => Some(ActionRegisteredType::ROCKTROLLDEATH),
            5i32 => Some(ActionRegisteredType::KINGSCORPIONDEATH),
            6i32 => Some(ActionRegisteredType::WASPQUEENDEATH),
            7i32 => Some(ActionRegisteredType::COMBATGENERICPROJECTILEWEAPONAIM),
            8i32 => Some(ActionRegisteredType::COMBATGENERICPROJECTILEWEAPONFIRE),
            9i32 => Some(ActionRegisteredType::COMBATGENERICPROJECTILEWEAPONLOAD),
            10i32 => Some(ActionRegisteredType::COMBATGENERICLEADERCOMMAND),
            11i32 => Some(ActionRegisteredType::COMBATGENERICBOAST),
            12i32 => Some(ActionRegisteredType::COMBATUNBLOCKABLEATTACK),
            13i32 => Some(ActionRegisteredType::COMBATHOPBACK),
            14i32 => Some(ActionRegisteredType::COMBATSTRAFEFORWARD),
            15i32 => Some(ActionRegisteredType::COMBATSTRAFEBACKWARD),
            16i32 => Some(ActionRegisteredType::COMBATSTRAFELEFT),
            17i32 => Some(ActionRegisteredType::COMBATSTRAFERIGHT),
            18i32 => Some(ActionRegisteredType::COMBATSTRAFEBACKLEFT),
            19i32 => Some(ActionRegisteredType::COMBATSTRAFEBACKRIGHT),
            20i32 => Some(ActionRegisteredType::COMBATCHARGE),
            21i32 => Some(ActionRegisteredType::COMBATIDLE),
            22i32 => Some(ActionRegisteredType::BREAKINTOMELEE),
            23i32 => Some(ActionRegisteredType::COMBATSUMMONCREATURES),
            24i32 => Some(ActionRegisteredType::COMBATATTACKLUNGE),
            25i32 => Some(ActionRegisteredType::COMBATATTACKMAIN),
            26i32 => Some(ActionRegisteredType::COMBATATTACKKNOCKDOWN),
            27i32 => Some(ActionRegisteredType::COMBATATTACKSIDE),
            28i32 => Some(ActionRegisteredType::COMBATATTACKSHORTRANGE),
            29i32 => Some(ActionRegisteredType::BANDITKINGHITRESPONSE),
            30i32 => Some(ActionRegisteredType::BANDITKINGSTUCKHITRESPONSE),
            31i32 => Some(ActionRegisteredType::HOBBESPELLCASTERAIM),
            32i32 => Some(ActionRegisteredType::HOBBESPELLCASTERFIRE),
            33i32 => Some(ActionRegisteredType::HOBBELUNGE),
            34i32 => Some(ActionRegisteredType::TENTACLEHITRESPONSE),
            35i32 => Some(ActionRegisteredType::SCREAMERDIE),
            36i32 => Some(ActionRegisteredType::SCREAMERDRAINATTACK),
            37i32 => Some(ActionRegisteredType::SCREAMERDRAINOUTOF),
            38i32 => Some(ActionRegisteredType::SCREAMERADVANCE),
            39i32 => Some(ActionRegisteredType::SCREAMERBACKOFF),
            40i32 => Some(ActionRegisteredType::SCREAMERIDLE),
            41i32 => Some(ActionRegisteredType::COMBATBODGESIDEATTACK),
            42i32 => Some(ActionRegisteredType::COMBATTURNSTRIKELEFT),
            43i32 => Some(ActionRegisteredType::COMBATTURNSTRIKERIGHT),
            44i32 => Some(ActionRegisteredType::COMBATCHARGESTRIKE),
            45i32 => Some(ActionRegisteredType::NYMPHGETHIT),
            46i32 => Some(ActionRegisteredType::NYMPHGETHITDIE),
            47i32 => Some(ActionRegisteredType::BALVERINELUNGEATTACK),
            48i32 => Some(ActionRegisteredType::BALVERINEBREAKOFFFROMCOMBAT),
            49i32 => Some(ActionRegisteredType::BALVERINEBREAKOFFFROMCOMBATLONG),
            50i32 => Some(ActionRegisteredType::SUMMONERFLAMESLICE),
            51i32 => Some(ActionRegisteredType::SUMMONERUNSHEATHESTRIKE),
            52i32 => Some(ActionRegisteredType::SUMMONERSTRIKE),
            53i32 => Some(ActionRegisteredType::BATTLECHARGE),
            54i32 => Some(ActionRegisteredType::SUMMONERDIE),
            _ => None,
        }
    }

    fn to_i32(self) -> (r: i32) {
        match self {
            ActionRegisteredType::NULL => 0i32,
            ActionRegisteredType::JACKOFBLADESHITRESPONSE => 1i32,
            ActionRegisteredType::SCORPIONKINGHITRESPONSE => 2i32,
            ActionRegisteredType::MAZECAUSEFORCEPUSHHITRESPONSE => 3i32,
            ActionRegisteredType::ROCKTROLLDEATH => 4i32,
            ActionRegisteredType::KINGSCORPIONDEATH => 5i32,
            ActionRegisteredType::WASPQUEENDEATH => 6i32,
            ActionRegisteredType::COMBATGENERICPROJECTILEWEAPONAIM => 7i32,
            ActionRegisteredType::COMBATGENERICPROJECTILEWEAPONFIRE => 8i32,
            ActionRegisteredType::COMBATGENERICPROJECTILEWEAPONLOAD => 9i32,
            ActionRegisteredType::COMBATGENERICLEADERCOMMAND => 10i32,
            ActionRegisteredType::COMBATGENERICBOAST => 11i32,
            ActionRegisteredType::COMBATUNBLOCKABLEATTACK => 12i32,
            ActionRegisteredType::COMBATHOPBACK => 13i32,
            ActionRegisteredType::COMBATSTRAFEFORWARD => 14i32,
            ActionRegisteredType::COMBATSTRAFEBACKWARD => 15i32,
            ActionRegisteredType::COMBATSTRAFELEFT => 16i32,
            ActionRegisteredType::COMBATSTRAFERIGHT => 17i32,
            ActionRegisteredType::COMBATSTRAFEBACKLEFT => 18i32,
            ActionRegisteredType::COMBATSTRAFEBACKRIGHT => 19i32,
            ActionRegisteredType::COMBATCHARGE => 20i32,
            ActionRegisteredType::COMBATIDLE => 21i32,
            ActionRegisteredType::BREAKINTOMELEE => 22i32,
            ActionRegisteredType::COMBATSUMMONCREATURES => 23i32,
            ActionRegisteredType::COMBATATTACKLUNGE => 24i32,
            ActionRegisteredType::COMBATATTACKMAIN => 25i32,
            ActionRegisteredType::COMBATATTACKKNOCKDOWN => 26i32,
            ActionRegisteredType::COMBATATTACKSIDE => 27i32,
            ActionRegisteredType::COMBATATTACKSHORTRANGE => 28i32,
            ActionRegisteredType::BANDITKINGHITRESPONSE => 29i32,
            ActionRegisteredType::BANDITKINGSTUCKHITRESPONSE => 30i32,
            ActionRegisteredType::HOBBESPELLCASTERAIM => 31i32,
            ActionRegisteredType::HOBBESPELLCASTERFIRE => 32i32,
            ActionRegisteredType::HOBBELUNGE => 33i32,
            ActionRegisteredType::TENTACLEHITRESPONSE => 34i32,
            ActionRegisteredType::SCREAMERDIE => 35i32,
            ActionRegisteredType::SCREAMERDRAINATTACK => 36i32,
            ActionRegisteredType::SCREAMERDRAINOUTOF => 37i32,
            ActionRegisteredType::SCREAMERADVANCE => 38i32,
            ActionRegisteredType::SCREAMERBACKOFF => 39i32,
            ActionRegisteredType::SCREAMERIDLE => 40i32,
            ActionRegisteredType::COMBATBODGESIDEATTACK => 41i32,
            ActionRegisteredType::COMBATTURNSTRIKELEFT => 42i32,
            ActionRegisteredType::COMBATTURNSTRIKERIGHT => 43i32,
            ActionRegisteredType::COMBATCHARGESTRIKE => 44i32,
            ActionRegisteredType::NYMPHGETHIT => 45i32,
            ActionRegisteredType::NYMPHGETHITDIE => 46i32,
            ActionRegisteredType::BALVERINELUNGEATTACK => 47i32,
            ActionRegisteredType::BALVERINEBREAKOFFFROMCOMBAT => 48i32,
            ActionRegisteredType::BALVERINEBREAKOFFFROMCOMBATLONG => 49i32,
            ActionRegisteredType::SUMMONERFLAMESLICE => 50i32,
            ActionRegisteredType::SUMMONERUNSHEATHESTRIKE => 51i32,
            ActionRegisteredType::SUMMONERSTRIKE => 52i32,
            ActionRegisteredType::BATTLECHARGE => 53i32,
            ActionRegisteredType::SUMMONERDIE => 54i32,
        }
    }

    proof fn lemma_lookup_wire_value(e: Self) {
    }
}

impl ActionRegisteredType {
    /// The C++ enumerator symbol of `self`.
    pub open spec fn symbol_of(self) -> Seq<char> {
        match self {
            ActionRegisteredType::NULL => "ACTION_NULL"@,
            ActionRegisteredType::JACKOFBLADESHITRESPONSE => "ACTION_JACK_OF_BLADES_HIT_RESPONSE"@,
            ActionRegisteredType::SCORPIONKINGHITRESPONSE => "ACTION_SCORPION_KING_HIT_RESPONSE"@,
            ActionRegisteredType::MAZECAUSEFORCEPUSHHITRESPONSE => "ACTION_MAZE_CAUSE_FORCE_PUSH_HIT_RESPONSE"@,
            ActionRegisteredType::ROCKTROLLDEATH => "ACTION_ROCK_TROLL_DEATH"@,
            ActionRegisteredType::KINGSCORPIONDEATH => "ACTION_KING_SCORPION_DEATH"@,
            ActionRegisteredType::WASPQUEENDEATH => "ACTION_WASP_QUEEN_DEATH"@,
            ActionRegisteredType::COMBATGENERICPROJECTILEWEAPONAIM => "ACTION_COMBAT_GENERIC_PROJECTILE_WEAPON_AIM"@,
            ActionRegisteredType::COMBATGENERICPROJECTILEWEAPONFIRE => "ACTION_COMBAT_GENERIC_PROJECTILE_WEAPON_FIRE"@,
            ActionRegisteredType::COMBATGENERICPROJECTILEWEAPONLOAD => "ACTION_COMBAT_GENERIC_PROJECTILE_WEAPON_LOAD"@,
            ActionRegisteredType::COMBATGENERICLEADERCOMMAND => "ACTION_COMBAT_GENERIC_LEADER_COMMAND"@,
            ActionRegisteredType::COMBATGENERICBOAST => "ACTION_COMBAT_GENERIC_BOAST"@,
            ActionRegisteredType::COMBATUNBLOCKABLEATTACK => "ACTION_COMBAT_UNBLOCKABLE_ATTACK"@,
            ActionRegisteredType::COMBATHOPBACK => "ACTION_COMBAT_HOP_BACK"@,
            ActionRegisteredType::COMBATSTRAFEFORWARD => "ACTION_COMBAT_STRAFE_FORWARD"@,
            ActionRegisteredType::COMBATSTRAFEBACKWARD => "ACTION_COMBAT_STRAFE_BACKWARD"@,
            ActionRegisteredType::COMBATSTRAFELEFT => "ACTION_COMBAT_STRAFE_LEFT"@,
            ActionRegisteredType::COMBATSTRAFERIGHT => "ACTION_COMBAT_STRAFE_RIGHT"@,
            ActionRegisteredType::COMBATSTRAFEBACKLEFT => "ACTION_COMBAT_STRAFE_BACK_LEFT"@,
            ActionRegisteredType::COMBATSTRAFEBACKRIGHT => "ACTION_COMBAT_STRAFE_BACK_RIGHT"@,
            ActionRegisteredType::COMBATCHARGE => "ACTION_COMBAT_CHARGE"@,
            ActionRegisteredType::COMBATIDLE => "ACTION_COMBAT_IDLE"@,
            ActionRegisteredType::BREAKINTOMELEE => "ACTION_BREAK_INTO_MELEE"@,
            ActionRegisteredType::COMBATSUMMONCREATURES => "ACTION_COMBAT_SUMMON_CREATURES"@,
            ActionRegisteredType::COMBATATTACKLUNGE => "ACTION_COMBAT_ATTACK_LUNGE"@,
            ActionRegisteredType::COMBATATTACKMAIN => "ACTION_COMBAT_ATTACK_MAIN"@,
            ActionRegisteredType::COMBATATTACKKNOCKDOWN => "ACTION_COMBAT_ATTACK_KNOCKDOWN"@,
            ActionRegisteredType::COMBATATTACKSIDE => "ACTION_COMBAT_ATTACK_SIDE"@,
            ActionRegisteredType::COMBATATTACKSHORTRANGE => "ACTION_COMBAT_ATTACK_SHORT_RANGE"@,
            ActionRegisteredType::BANDITKINGHITRESPONSE => "ACTION_BANDIT_KING_HIT_RESPONSE"@,
            ActionRegisteredType::BANDITKINGSTUCKHITRESPONSE => "ACTION_BANDIT_KING_STUCK_HIT_RESPONSE"@,
            ActionRegisteredType::HOBBESPELLCASTERAIM => "ACTION_HOBBE_SPELLCASTER_AIM"@,
            ActionRegisteredType::HOBBESPELLCASTERFIRE => "ACTION_HOBBE_SPELLCASTER_FIRE"@,
            ActionRegisteredType::HOBBELUNGE => "ACTION_HOBBE_LUNGE"@,
            ActionRegisteredType::TENTACLEHITRESPONSE => "ACTION_TENTACLE_HIT_RESPONSE"@,
            ActionRegisteredType::SCREAMERDIE => "ACTION_SCREAMER_DIE"@,
            ActionRegisteredType::SCREAMERDRAINATTACK => "ACTION_SCREAMER_DRAIN_ATTACK"@,
            ActionRegisteredType::SCREAMERDRAINOUTOF => "ACTION_SCREAMER_DRAIN_OUT_OF"@,
            ActionRegisteredType::SCREAMERADVANCE => "ACTION_SCREAMER_ADVANCE"@,
            ActionRegisteredType::SCREAMERBACKOFF => "ACTION_SCREAMER_BACK_OFF"@,
            ActionRegisteredType::SCREAMERIDLE => "ACTION_SCREAMER_IDLE"@,
            ActionRegisteredType::COMBATBODGESIDEATTACK => "ACTION_COMBAT_BODGE_SIDE_ATTACK"@,
            ActionRegisteredType::COMBATTURNSTRIKELEFT => "ACTION_COMBAT_TURN_STRIKE_LEFT"@,
            ActionRegisteredType::COMBATTURNSTRIKERIGHT => "ACTION_COMBAT_TURN_STRIKE_RIGHT"@,
            ActionRegisteredType::COMBATCHARGESTRIKE => "ACTION_COMBAT_CHARGE_STRIKE"@,
            ActionRegisteredType::NYMPHGETHIT => "ACTION_NYMPH_GET_HIT"@,
            ActionRegisteredType::NYMPHGETHITDIE => "ACTION_NYMPH_GET_HIT_DIE"@,
            ActionRegisteredType::BALVERINELUNGEATTACK => "ACTION_BALVERINE_LUNGE_ATTACK"@,
            ActionRegisteredType::BALVERINEBREAKOFFFROMCOMBAT => "ACTION_BALVERINE_BREAK_OFF_FROM_COMBAT"@,
            ActionRegisteredType::BALVERINEBREAKOFFFROMCOMBATLONG => "ACTION_BALVERINE_BREAK_OFF_FROM_COMBAT_LONG"@,
            ActionRegisteredType::SUMMONERFLAMESLICE => "ACTION_SUMMONER_FLAME_SLICE"@,
            ActionRegisteredType::SUMMONERUNSHEATHESTRIKE => "ACTION_SUMMONER_UNSHEATHE_STRIKE"@,
            ActionRegisteredType::SUMMONERSTRIKE => "ACTION_SUMMONER_STRIKE"@,
            ActionRegisteredType::BATTLECHARGE => "ACTION_BATTLE_CHARGE"@,
            ActionRegisteredType::SUMMONERDIE => "ACTION_SUMMONER_DIE"@,
        }
    }

    /// The first variant whose symbol is `s`, if any.
    pub open spec fn symbol_lookup(s: Seq<char>) -> Option<Self> {
        if s == "ACTION_NULL"@ {
            Some(ActionRegisteredType::NULL)
        } else if s == "ACTION_JACK_OF_BLADES_HIT_RESPONSE"@ {
            Some(ActionRegisteredType::JACKOFBLADESHITRESPONSE)
        } else if s == "ACTION_SCORPION_KING_HIT_RESPONSE"@ {
            Some(ActionRegisteredType::SCORPIONKINGHITRESPONSE)
        } else if s == "ACTION_MAZE_CAUSE_FORCE_PUSH_HIT_RESPONSE"@ {
            Some(ActionRegisteredType::MAZECAUSEFORCEPUSHHITRESPONSE)
        } else if s == "ACTION_ROCK_TROLL_DEATH"@ {
            Some(ActionRegisteredType::ROCKTROLLDEATH)
        } else if s == "ACTION_KING_SCORPION_DEATH"@ {
            Some(ActionRegisteredType::KINGSCORPIONDEATH)
        } else if s == "ACTION_WASP_QUEEN_DEATH"@ {
            Some(ActionRegisteredType::WASPQUEENDEATH)
        } else if s == "ACTION_COMBAT_GENERIC_PROJECTILE_WEAPON_AIM"@ {
            Some(ActionRegisteredType::COMBATGENERICPROJECTILEWEAPONAIM)
        } else if s == "ACTION_COMBAT_GENERIC_PROJECTILE_WEAPON_FIRE"@ {
            Some(ActionRegisteredType::COMBATGENERICPROJECTILEWEAPONFIRE)
        } else if s == "ACTION_COMBAT_GENERIC_PROJECTILE_WEAPON_LOAD"@ {
            Some(ActionRegisteredType::COMBATGENERICPROJECTILEWEAPONLOAD)
        } else if s == "ACTION_COMBAT_GENERIC_LEADER_COMMAND"@ {
            Some(ActionRegisteredType::COMBATGENERICLEADERCOMMAND)
        } else if s == "ACTION_COMBAT_GENERIC_BOAST"@ {
            Some(ActionRegisteredType::COMBATGENERICBOAST)
        } else if s == "ACTION_COMBAT_UNBLOCKABLE_ATTACK"@ {
            Some(ActionRegisteredType::COMBATUNBLOCKABLEATTACK)
        } else if s == "ACTION_COMBAT_HOP_BACK"@ {
            Some(ActionRegisteredType::COMBATHOPBACK)
        } else if s == "ACTION_COMBAT_STRAFE_FORWARD"@ {
            Some(ActionRegisteredType::COMBATSTRAFEFORWARD)
        } else if s == "ACTION_COMBAT_STRAFE_BACKWARD"@ {
            Some(ActionRegisteredType::COMBATSTRAFEBACKWARD)
        } else if s == "ACTION_COMBAT_STRAFE_LEFT"@ {
            Some(ActionRegisteredType::COMBATSTRAFELEFT)
        } else if s == "ACTION_COMBAT_STRAFE_RIGHT"@ {
            Some(ActionRegisteredType::COMBATSTRAFERIGHT)
        } else if s == "ACTION_COMBAT_STRAFE_BACK_LEFT"@ {
            Some(ActionRegisteredType::COMBATSTRAFEBACKLEFT)
        } else if s == "ACTION_COMBAT_STRAFE_BACK_RIGHT"@ {
            Some(ActionRegisteredType::COMBATSTRAFEBACKRIGHT)
        } else if s == "ACTION_COMBAT_CHARGE"@ {
            Some(ActionRegisteredType::COMBATCHARGE)
        } else if s == "ACTION_COMBAT_IDLE"@ {
            Some(ActionRegisteredType::COMBATIDLE)
        } else if s == "ACTION_BREAK_INTO_MELEE"@ {
            Some(ActionRegisteredType::BREAKINTOMELEE)
        } else if s == "ACTION_COMBAT_SUMMON_CREATURES"@ {
            Some(ActionRegisteredType::COMBATSUMMONCREATURES)
        } else if s == "ACTION_COMBAT_ATTACK_LUNGE"@ {
            Some(ActionRegisteredType::COMBATATTACKLUNGE)
        } else if s == "ACTION_COMBAT_ATTACK_MAIN"@ {
            Some(ActionRegisteredType::COMBATATTACKMAIN)
        } else if s == "ACTION_COMBAT_ATTACK_KNOCKDOWN"@ {
            Some(ActionRegisteredType::COMBATATTACKKNOCKDOWN)
        } else if s == "ACTION_COMBAT_ATTACK_SIDE"@ {
            Some(ActionRegisteredType::COMBATATTACKSIDE)
        } else if s == "ACTION_COMBAT_ATTACK_SHORT_RANGE"@ {
            Some(ActionRegisteredType::COMBATATTACKSHORTRANGE)
        } else if s == "ACTION_BANDIT_KING_HIT_RESPONSE"@ {
            Some(ActionRegisteredType::BANDITKINGHITRESPONSE)
        } else if s == "ACTION_BANDIT_KING_STUCK_HIT_RESPONSE"@ {
            Some(ActionRegisteredType::BANDITKINGSTUCKHITRESPONSE)
        } else if s == "ACTION_HOBBE_SPELLCASTER_AIM"@ {
            Some(ActionRegisteredType::HOBBESPELLCASTERAIM)
        } else if s == "ACTION_HOBBE_SPELLCASTER_FIRE"@ {
            Some(ActionRegisteredType::HOBBESPELLCASTERFIRE)
        } else if s == "ACTION_HOBBE_LUNGE"@ {
            Some(ActionRegisteredType::HOBBELUNGE)
        } else if s == "ACTION_TENTACLE_HIT_RESPONSE"@ {
            Some(ActionRegisteredType::TENTACLEHITRESPONSE)
        } else if s == "ACTION_SCREAMER_DIE"@ {
            Some(ActionRegisteredType::SCREAMERDIE)
        } else if s == "ACTION_SCREAMER_DRAIN_ATTACK"@ {
            Some(ActionRegisteredType::SCREAMERDRAINATTACK)
        } else if s == "ACTION_SCREAMER_DRAIN_OUT_OF"@ {
            Some(ActionRegisteredType::SCREAMERDRAINOUTOF)
        } else if s == "ACTION_SCREAMER_ADVANCE"@ {
            Some(ActionRegisteredType::SCREAMERADVANCE)
        } else if s == "ACTION_SCREAMER_BACK_OFF"@ {
            Some(ActionRegisteredType::SCREAMERBACKOFF)
        } else if s == "ACTION_SCREAMER_IDLE"@ {
            Some(ActionRegisteredType::SCREAMERIDLE)
        } else if s == "ACTION_COMBAT_BODGE_SIDE_ATTACK"@ {
            Some(ActionRegisteredType::COMBATBODGESIDEATTACK)
        } else if s == "ACTION_COMBAT_TURN_STRIKE_LEFT"@ {
            Some(ActionRegisteredType::COMBATTURNSTRIKELEFT)
        } else if s == "ACTION_COMBAT_TURN_STRIKE_RIGHT"@ {
            Some(ActionRegisteredType::COMBATTURNSTRIKERIGHT)
        } else if s == "ACTION_COMBAT_CHARGE_STRIKE"@ {
            Some(ActionRegisteredType::COMBATCHARGESTRIKE)
        } else if s == "ACTION_NYMPH_GET_HIT"@ {
            Some(ActionRegisteredType::NYMPHGETHIT)
        } else if s == "ACTION_NYMPH_GET_HIT_DIE"@ {
            Some(ActionRegisteredType::NYMPHGETHITDIE)
        } else if s == "ACTION_BALVERINE_LUNGE_ATTACK"@ {
            Some(ActionRegisteredType::BALVERINELUNGEATTACK)
        } else if s == "ACTION_BALVERINE_BREAK_OFF_FROM_COMBAT"@ {
            Some(ActionRegisteredType::BALVERINEBREAKOFFFROMCOMBAT)
        } else if s == "ACTION_BALVERINE_BREAK_OFF_FROM_COMBAT_LONG"@ {
            Some(ActionRegisteredType::BALVERINEBREAKOFFFROMCOMBATLONG)
        } else if s == "ACTION_SUMMONER_FLAME_SLICE"@ {
            Some(ActionRegisteredType::SUMMONERFLAMESLICE)
        } else if s == "ACTION_SUMMONER_UNSHEATHE_STRIKE"@ {
            Some(ActionRegisteredType::SUMMONERUNSHEATHESTRIKE)
        } else if s == "ACTION_SUMMONER_STRIKE"@ {
            Some(ActionRegisteredType::SUMMONERSTRIKE)
        } else if s == "ACTION_BATTLE_CHARGE"@ {
            Some(ActionRegisteredType::BATTLECHARGE)
        } else if s == "ACTION_SUMMONER_DIE"@ {
            Some(ActionRegisteredType::SUMMONERDIE)
        } else {
            None
        }
    }

    /// The C++ enumerator symbol text defs use for `self`.
    pub fn symbol(self) -> (r: &'static str)
        ensures
            r@ == self.symbol_of(),
    {
        match self {
            ActionRegisteredType::NULL => "ACTION_NULL",
            ActionRegisteredType::JACKOFBLADESHITRESPONSE => "ACTION_JACK_OF_BLADES_HIT_RESPONSE",
            ActionRegisteredType::SCORPIONKINGHITRESPONSE => "ACTION_SCORPION_KING_HIT_RESPONSE",
            ActionRegisteredType::MAZECAUSEFORCEPUSHHITRESPONSE => "ACTION_MAZE_CAUSE_FORCE_PUSH_HIT_RESPONSE",
            ActionRegisteredType::ROCKTROLLDEATH => "ACTION_ROCK_TROLL_DEATH",
            ActionRegisteredType::KINGSCORPIONDEATH => "ACTION_KING_SCORPION_DEATH",
            ActionRegisteredType::WASPQUEENDEATH => "ACTION_WASP_QUEEN_DEATH",
            ActionRegisteredType::COMBATGENERICPROJECTILEWEAPONAIM => "ACTION_COMBAT_GENERIC_PROJECTILE_WEAPON_AIM",
            ActionRegisteredType::COMBATGENERICPROJECTILEWEAPONFIRE => "ACTION_COMBAT_GENERIC_PROJECTILE_WEAPON_FIRE",
            ActionRegisteredType::COMBATGENERICPROJECTILEWEAPONLOAD => "ACTION_COMBAT_GENERIC_PROJECTILE_WEAPON_LOAD",
            ActionRegisteredType::COMBATGENERICLEADERCOMMAND => "ACTION_COMBAT_GENERIC_LEADER_COMMAND",
            ActionRegisteredType::COMBATGENERICBOAST => "ACTION_COMBAT_GENERIC_BOAST",
            ActionRegisteredType::COMBATUNBLOCKABLEATTACK => "ACTION_COMBAT_UNBLOCKABLE_ATTACK",
            ActionRegisteredType::COMBATHOPBACK => "ACTION_COMBAT_HOP_BACK",
            ActionRegisteredType::COMBATSTRAFEFORWARD => "ACTION_COMBAT_STRAFE_FORWARD",
            ActionRegisteredType::COMBATSTRAFEBACKWARD => "ACTION_COMBAT_STRAFE_BACKWARD",
            ActionRegisteredType::COMBATSTRAFELEFT => "ACTION_COMBAT_STRAFE_LEFT",
            ActionRegisteredType::COMBATSTRAFERIGHT => "ACTION_COMBAT_STRAFE_RIGHT",
            ActionRegisteredType::COMBATSTRAFEBACKLEFT => "ACTION_COMBAT_STRAFE_BACK_LEFT",
            ActionRegisteredType::COMBATSTRAFEBACKRIGHT => "ACTION_COMBAT_STRAFE_BACK_RIGHT",
            ActionRegisteredType::COMBATCHARGE => "ACTION_COMBAT_CHARGE",
            ActionRegisteredType::COMBATIDLE => "ACTION_COMBAT_IDLE",
            ActionRegisteredType::BREAKINTOMELEE => "ACTION_BREAK_INTO_MELEE",
            ActionRegisteredType::COMBATSUMMONCREATURES => "ACTION_COMBAT_SUMMON_CREATURES",
            ActionRegisteredType::COMBATATTACKLUNGE => "ACTION_COMBAT_ATTACK_LUNGE",
            ActionRegisteredType::COMBATATTACKMAIN => "ACTION_COMBAT_ATTACK_MAIN",
            ActionRegisteredType::COMBATATTACKKNOCKDOWN => "ACTION_COMBAT_ATTACK_KNOCKDOWN",
            ActionRegisteredType::COMBATATTACKSIDE => "ACTION_COMBAT_ATTACK_SIDE",
            ActionRegisteredType::COMBATATTACKSHORTRANGE => "ACTION_COMBAT_ATTACK_SHORT_RANGE",
            ActionRegisteredType::BANDITKINGHITRESPONSE => "ACTION_BANDIT_KING_HIT_RESPONSE",
            ActionRegisteredType::BANDITKINGSTUCKHITRESPONSE => "ACTION_BANDIT_KING_STUCK_HIT_RESPONSE",
            ActionRegisteredType::HOBBESPELLCASTERAIM => "ACTION_HOBBE_SPELLCASTER_AIM",
            ActionRegisteredType::HOBBESPELLCASTERFIRE => "ACTION_HOBBE_SPELLCASTER_FIRE",
            ActionRegisteredType::HOBBELUNGE => "ACTION_HOBBE_LUNGE",
            ActionRegisteredType::TENTACLEHITRESPONSE => "ACTION_TENTACLE_HIT_RESPONSE",
            ActionRegisteredType::SCREAMERDIE => "ACTION_SCREAMER_DIE",
            ActionRegisteredType::SCREAMERDRAINATTACK => "ACTION_SCREAMER_DRAIN_ATTACK",
            ActionRegisteredType::SCREAMERDRAINOUTOF => "ACTION_SCREAMER_DRAIN_OUT_OF",
            ActionRegisteredType::SCREAMERADVANCE => "ACTION_SCREAMER_ADVANCE",
            ActionRegisteredType::SCREAMERBACKOFF => "ACTION_SCREAMER_BACK_OFF",
            ActionRegisteredType::SCREAMERIDLE => "ACTION_SCREAMER_IDLE",
            ActionRegisteredType::COMBATBODGESIDEATTACK => "ACTION_COMBAT_BODGE_SIDE_ATTACK",
            ActionRegisteredType::COMBATTURNSTRIKELEFT => "ACTION_COMBAT_TURN_STRIKE_LEFT",
            ActionRegisteredType::COMBATTURNSTRIKERIGHT => "ACTION_COMBAT_TURN_STRIKE_RIGHT",
            ActionRegisteredType::COMBATCHARGESTRIKE => "ACTION_COMBAT_CHARGE_STRIKE",
            ActionRegisteredType::NYMPHGETHIT => "ACTION_NYMPH_GET_HIT",
            ActionRegisteredType::NYMPHGETHITDIE => "ACTION_NYMPH_GET_HIT_DIE",
            ActionRegisteredType::BALVERINELUNGEATTACK => "ACTION_BALVERINE_LUNGE_ATTACK",
            ActionRegisteredType::BALVERINEBREAKOFFFROMCOMBAT => "ACTION_BALVERINE_BREAK_OFF_FROM_COMBAT",
            ActionRegisteredType::BALVERINEBREAKOFFFROMCOMBATLONG => "ACTION_BALVERINE_BREAK_OFF_FROM_COMBAT_LONG",
            ActionRegisteredType::SUMMONERFLAMESLICE => "ACTION_SUMMONER_FLAME_SLICE",
            ActionRegisteredType::SUMMONERUNSHEATHESTRIKE => "ACTION_SUMMONER_UNSHEATHE_STRIKE",
            ActionRegisteredType::SUMMONERSTRIKE => "ACTION_SUMMONER_STRIKE",
            ActionRegisteredType::BATTLECHARGE => "ACTION_BATTLE_CHARGE",
            ActionRegisteredType::SUMMONERDIE => "ACTION_SUMMONER_DIE",
        }
    }

    /// The variant a C++ enumerator symbol names.
    pub fn from_symbol(s: &str) -> (r: Option<Self>)
        ensures
            r == Self::symbol_lookup(s@),
    {
        if str_eq(s, "ACTION_NULL") {
            return Some(ActionRegisteredType::NULL);
        }
        if str_eq(s, "ACTION_JACK_OF_BLADES_HIT_RESPONSE") {
            return Some(ActionRegisteredType::JACKOFBLADESHITRESPONSE);
        }
        if str_eq(s, "ACTION_SCORPION_KING_HIT_RESPONSE") {
            return Some(ActionRegisteredType::SCORPIONKINGHITRESPONSE);
        }
        if str_eq(s, "ACTION_MAZE_CAUSE_FORCE_PUSH_HIT_RESPONSE") {
            return Some(ActionRegisteredType::MAZECAUSEFORCEPUSHHITRESPONSE);
        }
        if str_eq(s, "ACTION_ROCK_TROLL_DEATH") {
            return Some(ActionRegisteredType::ROCKTROLLDEATH);
        }
        if str_eq(s, "ACTION_KING_SCORPION_DEATH") {
            return Some(ActionRegisteredType::KINGSCORPIONDEATH);
        }
        if str_eq(s, "ACTION_WASP_QUEEN_DEATH") {
            return Some(ActionRegisteredType::WASPQUEENDEATH);
        }
        if str_eq(s, "ACTION_COMBAT_GENERIC_PROJECTILE_WEAPON_AIM") {
            return Some(ActionRegisteredType::COMBATGENERICPROJECTILEWEAPONAIM);
        }
        if str_eq(s, "ACTION_COMBAT_GENERIC_PROJECTILE_WEAPON_FIRE") {
            return Some(ActionRegisteredType::COMBATGENERICPROJECTILEWEAPONFIRE);
        }
        if str_eq(s, "ACTION_COMBAT_GENERIC_PROJECTILE_WEAPON_LOAD") {
            return Some(ActionRegisteredType::COMBATGENERICPROJECTILEWEAPONLOAD);
        }
        if str_eq(s, "ACTION_COMBAT_GENERIC_LEADER_COMMAND") {
            return Some(ActionRegisteredType::COMBATGENERICLEADERCOMMAND);
        }
        if str_eq(s, "ACTION_COMBAT_GENERIC_BOAST") {
            return Some(ActionRegisteredType::COMBATGENERICBOAST);
        }
        if str_eq(s, "ACTION_COMBAT_UNBLOCKABLE_ATTACK") {
            return Some(ActionRegisteredType::COMBATUNBLOCKABLEATTACK);
        }
        if str_eq(s, "ACTION_COMBAT_HOP_BACK") {
            return Some(ActionRegisteredType::COMBATHOPBACK);
        }
        if str_eq(s, "ACTION_COMBAT_STRAFE_FORWARD") {
            return Some(ActionRegisteredType::COMBATSTRAFEFORWARD);
        }
        if str_eq(s, "ACTION_COMBAT_STRAFE_BACKWARD") {
            return Some(ActionRegisteredType::COMBATSTRAFEBACKWARD);
        }
        if str_eq(s, "ACTION_COMBAT_STRAFE_LEFT") {
            return Some(ActionRegisteredType::COMBATSTRAFELEFT);
        }
        if str_eq(s, "ACTION_COMBAT_STRAFE_RIGHT") {
            return Some(ActionRegisteredType::COMBATSTRAFERIGHT);
        }
        if str_eq(s, "ACTION_COMBAT_STRAFE_BACK_LEFT") {
            return Some(ActionRegisteredType::COMBATSTRAFEBACKLEFT);
        }
        if str_eq(s, "ACTION_COMBAT_STRAFE_BACK_RIGHT") {
            return Some(ActionRegisteredType::COMBATSTRAFEBACKRIGHT);
        }
        if str_eq(s, "ACTION_COMBAT_CHARGE") {
            return Some(ActionRegisteredType::COMBATCHARGE);
        }
        if str_eq(s, "ACTION_COMBAT_IDLE") {
            return Some(ActionRegisteredType::COMBATIDLE);
        }
        if str_eq(s, "ACTION_BREAK_INTO_MELEE") {
            return Some(ActionRegisteredType::BREAKINTOMELEE);
        }
        if str_eq(s, "ACTION_COMBAT_SUMMON_CREATURES") {
            return Some(ActionRegisteredType::COMBATSUMMONCREATURES);
        }
        if str_eq(s, "ACTION_COMBAT_ATTACK_LUNGE") {
            return Some(ActionRegisteredType::COMBATATTACKLUNGE);
        }
        if str_eq(s, "ACTION_COMBAT_ATTACK_MAIN") {
            return Some(ActionRegisteredType::COMBATATTACKMAIN);
        }
        if str_eq(s, "ACTION_COMBAT_ATTACK_KNOCKDOWN") {
            return Some(ActionRegisteredType::COMBATATTACKKNOCKDOWN);
        }
        if str_eq(s, "ACTION_COMBAT_ATTACK_SIDE") {
            return Some(ActionRegisteredType::COMBATATTACKSIDE);
        }
        if str_eq(s, "ACTION_COMBAT_ATTACK_SHORT_RANGE") {
            return Some(ActionRegisteredType::COMBATATTACKSHORTRANGE);
        }
        if str_eq(s, "ACTION_BANDIT_KING_HIT_RESPONSE") {
            return Some(ActionRegisteredType::BANDITKINGHITRESPONSE);
        }
        if str_eq(s, "ACTION_BANDIT_KING_STUCK_HIT_RESPONSE") {
            return Some(ActionRegisteredType::BANDITKINGSTUCKHITRESPONSE);
        }
        if str_eq(s, "ACTION_HOBBE_SPELLCASTER_AIM") {
            return Some(ActionRegisteredType::HOBBESPELLCASTERAIM);
        }
        if str_eq(s, "ACTION_HOBBE_SPELLCASTER_FIRE") {
            return Some(ActionRegisteredType::HOBBESPELLCASTERFIRE);
        }
        if str_eq(s, "ACTION_HOBBE_LUNGE") {
            return Some(ActionRegisteredType::HOBBELUNGE);
        }
        if str_eq(s, "ACTION_TENTACLE_HIT_RESPONSE") {
            return Some(ActionRegisteredType::TENTACLEHITRESPONSE);
        }
        if str_eq(s, "ACTION_SCREAMER_DIE") {
            return Some(ActionRegisteredType::SCREAMERDIE);
        }
        if str_eq(s, "ACTION_SCREAMER_DRAIN_ATTACK") {
            return Some(ActionRegisteredType::SCREAMERDRAINATTACK);
        }
        if str_eq(s, "ACTION_SCREAMER_DRAIN_OUT_OF") {
            return Some(ActionRegisteredType::SCREAMERDRAINOUTOF);
        }
        if str_eq(s, "ACTION_SCREAMER_ADVANCE") {
            return Some(ActionRegisteredType::SCREAMERADVANCE);
        }
        if str_eq(s, "ACTION_SCREAMER_BACK_OFF") {
            return Some(ActionRegisteredType::SCREAMERBACKOFF);
        }
        if str_eq(s, "ACTION_SCREAMER_IDLE") {
            return Some(ActionRegisteredType::SCREAMERIDLE);
        }
        if str_eq(s, "ACTION_COMBAT_BODGE_SIDE_ATTACK") {
            return Some(ActionRegisteredType::COMBATBODGESIDEATTACK);
        }
        if str_eq(s, "ACTION_COMBAT_TURN_STRIKE_LEFT") {
            return Some(ActionRegisteredType::COMBATTURNSTRIKELEFT);
        }
        if str_eq(s, "ACTION_COMBAT_TURN_STRIKE_RIGHT") {
            return Some(ActionRegisteredType::COMBATTURNSTRIKERIGHT);
        }
        if str_eq(s, "ACTION_COMBAT_CHARGE_STRIKE") {
            return Some(ActionRegisteredType::COMBATCHARGESTRIKE);
        }
        if str_eq(s, "ACTION_NYMPH_GET_HIT") {
            return Some(ActionRegisteredType::NYMPHGETHIT);
        }
        if str_eq(s, "ACTION_NYMPH_GET_HIT_DIE") {
            return Some(ActionRegisteredType::NYMPHGETHITDIE);
        }
        if str_eq(s, "ACTION_BALVERINE_LUNGE_ATTACK") {
            return Some(ActionRegisteredType::BALVERINELUNGEATTACK);
        }
        if str_eq(s, "ACTION_BALVERINE_BREAK_OFF_FROM_COMBAT") {
            return Some(ActionRegisteredType::BALVERINEBREAKOFFFROMCOMBAT);
        }
        if str_eq(s, "ACTION_BALVERINE_BREAK_OFF_FROM_COMBAT_LONG") {
            return Some(ActionRegisteredType::BALVERINEBREAKOFFFROMCOMBATLONG);
        }
        if str_eq(s, "ACTION_SUMMONER_FLAME_SLICE") {
            return Some(ActionRegisteredType::SUMMONERFLAMESLICE);
        }
        if str_eq(s, "ACTION_SUMMONER_UNSHEATHE_STRIKE") {
            return Some(ActionRegisteredType::SUMMONERUNSHEATHESTRIKE);
        }
        if str_eq(s, "ACTION_SUMMONER_STRIKE") {
            return Some(ActionRegisteredType::SUMMONERSTRIKE);
        }
        if str_eq(s, "ACTION_BATTLE_CHARGE") {
            return Some(ActionRegisteredType::BATTLECHARGE);
        }
        if str_eq(s, "ACTION_SUMMONER_DIE") {
            return Some(ActionRegisteredType::SUMMONERDIE);
        }
        None
    }
}

#[derive(Debug, Clone, Copy, PartialEq, Eq, Structural, PartialOrd, Ord, Hash)]
pub enum ClockHandType {
    SECOND,
    MINUTE,
    HOUR,
}

impl DefEnum for ClockHandType {
    open spec fn wire_value(self) -> i32 {
        match self {
            ClockHandType::SECOND => 0i32,
            ClockHandType::MINUTE => 1i32,
            ClockHandType::HOUR => 2i32,
        }
    }

    open spec fn lookup(value: i32) -> Option<Self> {
        match value {
            0i32 => Some(ClockHandType::SECOND),
            1i32 => Some(ClockHandType::MINUTE),
            2i32 => Some(ClockHandType::HOUR),
            _ => None,
        }
    }

    fn from_i32(value: i32) -> (r: Option<Self>) {
        match value {
            0i32 => Some(ClockHandType::SECOND),
            1i32 => Some(ClockHandType::MINUTE),
            2i32 => Some(ClockHandType::HOUR),
            _ => None,
        }
    }

    fn to_i32(self) -> (r: i32) {
        match self {
            ClockHandType::SECOND => 0i32,
            ClockHandType::MINUTE => 1i32,
            ClockHandType::HOUR => 2i32,
        }
    }

    proof fn lemma_lookup_wire_value(e: Self) {
    }
}

impl ClockHandType {
    /// The C++ enumerator symbol of `self`.
    pub open spec fn symbol_of(self) -> Seq<char> {
        match self {
            ClockHandType::SECOND => "CLOCKHAND_SECOND"@,
            ClockHandType::MINUTE => "CLOCKHAND_MINUTE"@,
            ClockHandType::HOUR => "CLOCKHAND_HOUR"@,
        }
    }

    /// The first variant whose symbol is `s`, if any.
    pub open spec fn symbol_lookup(s: Seq<char>) -> Option<Self> {
        if s == "CLOCKHAND_SECOND"@ {
            Some(ClockHandType::SECOND)
        } else if s == "CLOCKHAND_MINUTE"@ {
            Some(ClockHandType::MINUTE)
        } else if s == "CLOCKHAND_HOUR"@ {
            Some(ClockHandType::HOUR)
        } else {
            None
        }
    }

    /// The C++ enumerator symbol text defs use for `self`.
    pub fn symbol(self) -> (r: &'static str)
        ensures
            r@ == self.symbol_of(),
    {
        match self {
            ClockHandType::SECOND => "CLOCKHAND_SECOND",
            ClockHandType::MINUTE => "CLOCKHAND_MINUTE",
            ClockHandType::HOUR => "CLOCKHAND_HOUR",
        }
    }

    /// The variant a C++ enumerator symbol names.
    pub fn from_symbol(s: &str) -> (r: Option<Self>)
        ensures
            r == Self::symbol_lookup(s@),
    {
        if str_eq(s, "CLOCKHAND_SECOND") {
            return Some(ClockHandType::SECOND);
        }
        if str_eq(s, "CLOCKHAND_MINUTE") {
            return Some(ClockHandType::MINUTE);
        }
        if str_eq(s, "CLOCKHAND_HOUR") {
            return Some(ClockHandType::HOUR);
        }
        None
    }
}

#[derive(Debug, Clone, Copy, PartialEq, Eq, Structural, PartialOrd, Ord, Hash)]
pub enum ClothingSuitPart {
    NULL,
    HEAD,
    BODY,
    HANDS,
    LEGS,
    FEET,
}

impl DefEnum for ClothingSuitPart {
    open spec fn wire_value(self) -> i32 {
        match self {
            ClothingSuitPart::NULL => 0i32,
            ClothingSuitPart::HEAD => 1i32,
            ClothingSuitPart::BODY => 2i32,
            ClothingSuitPart::HANDS => 3i32,
            ClothingSuitPart::LEGS => 4i32,
            ClothingSuitPart::FEET => 5i32,
        }
    }

    open spec fn lookup(value: i32) -> Option<Self> {
        match value {
            0i32 => Some(ClothingSuitPart::NULL),
            1i32 => Some(ClothingSuitPart::HEAD),
            2i32 => Some(ClothingSuitPart::BODY),
            3i32 => Some(ClothingSuitPart::HANDS),
            4i32 => Some(ClothingSuitPart::LEGS),
            5i32 => Some(ClothingSuitPart::FEET),
            _ => None,
        }
    }

    fn from_i32(value: i32) -> (r: Option<Self>) {
        match value {
            0i32 => Some(ClothingSuitPart::NULL),
            1i32 => Some(ClothingSuitPart::HEAD),
            2i32 => Some(ClothingSuitPart::BODY),
            3i32 => Some(ClothingSuitPart::HANDS),
            4i32 => Some(ClothingSuitPart::LEGS),
            5i32 => Some(ClothingSuitPart::FEET),
            _ => None,
        }
    }

    fn to_i32(self) -> (r: i32) {
        match self {
            ClothingSuitPart::NULL => 0i32,
            ClothingSuitPart::HEAD => 1i32,
            ClothingSuitPart::BODY => 2i32,
            ClothingSuitPart::HANDS => 3i32,
            ClothingSuitPart::LEGS => 4i32,
            ClothingSuitPart::FEET => 5i32,
        }
    }

    proof fn lemma_lookup_wire_value(e: Self) {
    }
}

impl ClothingSuitPart {
    /// The C++ enumerator symbol of `self`.
    pub open spec fn symbol_of(self) -> Seq<char> {
        match self {
            ClothingSuitPart::NULL => "CLOTHING_SUIT_NULL"@,
            ClothingSuitPart::HEAD => "CLOTHING_SUIT_HEAD"@,
            ClothingSuitPart::BODY => "CLOTHING_SUIT_BODY"@,
            ClothingSuitPart::HANDS => "CLOTHING_SUIT_HANDS"@,
            ClothingSuitPart::LEGS => "CLOTHING_SUIT_LEGS"@,
            ClothingSuitPart::FEET => "CLOTHING_SUIT_FEET"@,
        }
    }

    /// The first variant whose symbol is `s`, if any.
    pub open spec fn symbol_lookup(s: Seq<char>) -> Option<Self> {
        if s == "CLOTHING_SUIT_NULL"@ {
            Some(ClothingSuitPart::NULL)
        } else if s == "CLOTHING_SUIT_HEAD"@ {
            Some(ClothingSuitPart::HEAD)
        } else if s == "CLOTHING_SUIT_BODY"@ {
            Some(ClothingSuitPart::BODY)
        } else if s == "CLOTHING_SUIT_HANDS"@ {
            Some(ClothingSuitPart::HANDS)
        } else if s == "CLOTHING_SUIT_LEGS"@ {
            Some(ClothingSuitPart::LEGS)
        } else if s == "CLOTHING_SUIT_FEET"@ {
            Some(ClothingSuitPart::FEET)
        } else {
            None
        }
    }

    /// The C++ enumerator symbol text defs use for `self`.
    pub fn symbol(self) -> (r: &'static str)
        ensures
            r@ == self.symbol_of(),
    {
        match self {
            ClothingSuitPart::NULL => "CLOTHING_SUIT_NULL",
            ClothingSuitPart::HEAD => "CLOTHING_SUIT_HEAD",
            ClothingSuitPart::BODY => "CLOTHING_SUIT_BODY",
            ClothingSuitPart::HANDS => "CLOTHING_SUIT_HANDS",
            ClothingSuitPart::LEGS => "CLOTHING_SUIT_LEGS",
            ClothingSuitPart::FEET => "CLOTHING_SUIT_FEET",
        }
    }

    /// The variant a C++ enumerator symbol names.
    pub fn from_symbol(s: &str) -> (r: Option<Self>)
        ensures
            r == Self::symbol_lookup(s@),
    {
        if str_eq(s, "CLOTHING_SUIT_NULL") {
            return Some(ClothingSuitPart::NULL);
        }
        if str_eq(s, "CLOTHING_SUIT_HEAD") {
            return Some(ClothingSuitPart::HEAD);
        }
        if str_eq(s, "CLOTHING_SUIT_BODY") {
            return Some(ClothingSuitPart::BODY);
        }
        if str_eq(s, "CLOTHING_SUIT_HANDS") {
            return Some(ClothingSuitPart::HANDS);
        }
        if str_eq(s, "CLOTHING_SUIT_LEGS") {
            return Some(ClothingSuitPart::LEGS);
        }
        if str_eq(s, "CLOTHING_SUIT_FEET") {
            return Some(ClothingSuitPart::FEET);
        }
        None
    }
}

#[derive(Debug, Clone, Copy, PartialEq, Eq, Structural, PartialOrd, Ord, Hash)]
pub enum CombatCreatureType {
    HERO,
    RIVALHERO,
    FODDERCREATURE,
    COMBATHUMANOID,
    COMBATANIMAL,
    VILLAGERMALE,
    VILLAGERFEMALE,
    VILLAGERCHILD,
    GUARD,
}

impl DefEnum for CombatCreatureType {
    open spec fn wire_value(self) -> i32 {
        match self {
            CombatCreatureType::HERO => 0i32,
            CombatCreatureType::RIVALHERO => 1i32,
            CombatCreatureType::FODDERCREATURE => 2i32,
            CombatCreatureType::COMBATHUMANOID => 3i32,
            CombatCreatureType::COMBATANIMAL => 4i32,
            CombatCreatureType::VILLAGERMALE => 5i32,
            CombatCreatureType::VILLAGERFEMALE => 6i32,
            CombatCreatureType::VILLAGERCHILD => 7i32,
            CombatCreatureType::GUARD => 8i32,
        }
    }

    open spec fn lookup(value: i32) -> Option<Self> {
        match value {
            0i32 => Some(CombatCreatureType::HERO),
            1i32 => Some(CombatCreatureType::RIVALHERO),
            2i32 => Some(CombatCreatureType::FODDERCREATURE),
            3i32 => Some(CombatCreatureType::COMBATHUMANOID),
            4i32 => Some(CombatCreatureType::COMBATANIMAL),
            5i32 => Some(CombatCreatureType::VILLAGERMALE),
            6i32 => Some(CombatCreatureType::VILLAGERFEMALE),
            7i32 => Some(CombatCreatureType::VILLAGERCHILD),
            8i32 => Some(CombatCreatureType::GUARD),
            _ => None,
        }
    }

    fn from_i32(value: i32) -> (r: Option<Self>) {
        match value {
            0i32 => Some(CombatCreatureType::HERO),
            1i32 => Some(CombatCreatureType::RIVALHERO),
            2i32 => Some(CombatCreatureType::FODDERCREATURE),
            3i32 => Some(CombatCreatureType::COMBATHUMANOID),
            4i32 => Some(CombatCreatureType::COMBATANIMAL),
            5i32 => Some(CombatCreatureType::VILLAGERMALE),
            6i32 => Some(CombatCreatureType::VILLAGERFEMALE),
            7i32 => Some(CombatCreatureType::VILLAGERCHILD),
            8i32 => Some(CombatCreatureType::GUARD),
            _ => None,
        }
    }

    fn to_i32(self) -> (r: i32) {
        match self {
            CombatCreatureType::HERO => 0i32,
            CombatCreatureType::RIVALHERO => 1i32,
            CombatCreatureType::FODDERCREATURE => 2i32,
            CombatCreatureType::COMBATHUMANOID => 3i32,
            CombatCreatureType::COMBATANIMAL => 4i32,
            CombatCreatureType::VILLAGERMALE => 5i32,
            CombatCreatureType::VILLAGERFEMALE => 6i32,
            CombatCreatureType::VILLAGERCHILD => 7i32,
            CombatCreatureType::GUARD => 8i32,
        }
    }

    proof fn lemma_lookup_wire_value(e: Self) {
    }
}

impl CombatCreatureType {
    /// The C++ enumerator symbol of `self`.
    pub open spec fn symbol_of(self) -> Seq<char> {
        match self {
            CombatCreatureType::HERO => "CREATURE_TYPE_HERO"@,
            CombatCreatureType::RIVALHERO => "CREATURE_TYPE_RIVAL_HERO"@,
            CombatCreatureType::FODDERCREATURE => "CREATURE_TYPE_FODDER_CREATURE"@,
            CombatCreatureType::COMBATHUMANOID => "CREATURE_TYPE_COMBAT_HUMANOID"@,
            CombatCreatureType::COMBATANIMAL => "CREATURE_TYPE_COMBAT_ANIMAL"@,
            CombatCreatureType::VILLAGERMALE => "CREATURE_TYPE_VILLAGER_MALE"@,
            CombatCreatureType::VILLAGERFEMALE => "CREATURE_TYPE_VILLAGER_FEMALE"@,
            CombatCreatureType::VILLAGERCHILD => "CREATURE_TYPE_VILLAGER_CHILD"@,
            CombatCreatureType::GUARD => "CREATURE_TYPE_GUARD"@,
        }
    }

    /// The first variant whose symbol is `s`, if any.
    pub open spec fn symbol_lookup(s: Seq<char>) -> Option<Self> {
        if s == "CREATURE_TYPE_HERO"@ {
            Some(CombatCreatureType::HERO)
        } else if s == "CREATURE_TYPE_RIVAL_HERO"@ {
            Some(CombatCreatureType::RIVALHERO)
        } else if s == "CREATURE_TYPE_FODDER_CREATURE"@ {
            Some(CombatCreatureType::FODDERCREATURE)
        } else if s == "CREATURE_TYPE_COMBAT_HUMANOID"@ {
            Some(CombatCreatureType::COMBATHUMANOID)
        } else if s == "CREATURE_TYPE_COMBAT_ANIMAL"@ {
            Some(CombatCreatureType::COMBATANIMAL)
        } else if s == "CREATURE_TYPE_VILLAGER_MALE"@ {
            Some(CombatCreatureType::VILLAGERMALE)
        } else if s == "CREATURE_TYPE_VILLAGER_FEMALE"@ {
            Some(CombatCreatureType::VILLAGERFEMALE)
        } else if s == "CREATURE_TYPE_VILLAGER_CHILD"@ {
            Some(CombatCreatureType::VILLAGERCHILD)
        } else if s == "CREATURE_TYPE_GUARD"@ {
            Some(CombatCreatureType::GUARD)
        } else {
            None
        }
    }

    /// The C++ enumerator symbol text defs use for `self`.
    pub fn symbol(self) -> (r: &'static str)
        ensures
            r@ == self.symbol_of(),
    {
        match self {
            CombatCreatureType::HERO => "CREATURE_TYPE_HERO",
            CombatCreatureType::RIVALHERO => "CREATURE_TYPE_RIVAL_HERO",
            CombatCreatureType::FODDERCREATURE => "CREATURE_TYPE_FODDER_CREATURE",
            CombatCreatureType::COMBATHUMANOID => "CREATURE_TYPE_COMBAT_HUMANOID",
            CombatCreatureType::COMBATANIMAL => "CREATURE_TYPE_COMBAT_ANIMAL",
            CombatCreatureType::VILLAGERMALE => "CREATURE_TYPE_VILLAGER_MALE",
            CombatCreatureType::VILLAGERFEMALE => "CREATURE_TYPE_VILLAGER_FEMALE",
            CombatCreatureType::VILLAGERCHILD => "CREATURE_TYPE_VILLAGER_CHILD",
            CombatCreatureType::GUARD => "CREATURE_TYPE_GUARD",
        }
    }

    /// The variant a C++ enumerator symbol names.
    pub fn from_symbol(s: &str) -> (r: Option<Self>)
        ensures
            r == Self::symbol_lookup(s@),
    {
        if str_eq(s, "CREATURE_TYPE_HERO") {
            return Some(CombatCreatureType::HERO);
        }
        if str_eq(s, "CREATURE_TYPE_RIVAL_HERO") {
            return Some(CombatCreatureType::RIVALHERO);
        }
        if str_eq(s, "CREATURE_TYPE_FODDER_CREATURE") {
            return Some(CombatCreatureType::FODDERCREATURE);
        }
        if str_eq(s, "CREATURE_TYPE_COMBAT_HUMANOID") {
            return Some(CombatCreatureType::COMBATHUMANOID);
        }
        if str_eq(s, "CREATURE_TYPE_COMBAT_ANIMAL") {
            return Some(CombatCreatureType::COMBATANIMAL);
        }
        if str_eq(s, "CREATURE_TYPE_VILLAGER_MALE") {
            return Some(CombatCreatureType::VILLAGERMALE);
        }
        if str_eq(s, "CREATURE_TYPE_VILLAGER_FEMALE") {
            return Some(CombatCreatureType::VILLAGERFEMALE);
        }
        if str_eq(s, "CREATURE_TYPE_VILLAGER_CHILD") {
            return Some(CombatCreatureType::VILLAGERCHILD);
        }
        if str_eq(s, "CREATURE_TYPE_GUARD") {
            return Some(CombatCreatureType::GUARD);
        }
        None
    }
}

#[derive(Debug, Clone, Copy, PartialEq, Eq, Structural, PartialOrd, Ord, Hash)]
pub enum CombatSequenceInterruptionType {
    INTERRUPTNULL,
    INTERRUPTABLE,
    INTERRUPTABLEDUETOZONECHANGE,
}

impl DefEnum for CombatSequenceInterruptionType {
    open spec fn wire_value(self) -> i32 {
        match self {
            CombatSequenceInterruptionType::INTERRUPTNULL => 0i32,
            CombatSequenceInterruptionType::INTERRUPTABLE => 1i32,
            CombatSequenceInterruptionType::INTERRUPTABLEDUETOZONECHANGE => 2i32,
        }
    }

    open spec fn lookup(value: i32) -> Option<Self> {
        match value {
            0i32 => Some(CombatSequenceInterruptionType::INTERRUPTNULL),
            1i32 => Some(CombatSequenceInterruptionType::INTERRUPTABLE),
            2i32 => Some(CombatSequenceInterruptionType::INTERRUPTABLEDUETOZONECHANGE),
            _ => None,
        }
    }

    fn from_i32(value: i32) -> (r: Option<Self>) {
        match value {
            0i32 => Some(CombatSequenceInterruptionType::INTERRUPTNULL),
            1i32 => Some(CombatSequenceInterruptionType::INTERRUPTABLE),
            2i32 => Some(CombatSequenceInterruptionType::INTERRUPTABLEDUETOZONECHANGE),
            _ => None,
        }
    }

    fn to_i32(self) -> (r: i32) {
        match self {
            CombatSequenceInterruptionType::INTERRUPTNULL => 0i32,
            CombatSequenceInterruptionType::INTERRUPTABLE => 1i32,
            CombatSequenceInterruptionType::INTERRUPTABLEDUETOZONECHANGE => 2i32,
        }
    }

    proof fn lemma_lookup_wire_value(e: Self) {
    }
}

impl CombatSequenceInterruptionType {
    /// The C++ enumerator symbol of `self`.
    pub open spec fn symbol_of(self) -> Seq<char> {
        match self {
            CombatSequenceInterruptionType::INTERRUPTNULL => "COMBAT_SEQUENCE_INTERRUPT_NULL"@,
            CombatSequenceInterruptionType::INTERRUPTABLE => "COMBAT_SEQUENCE_INTERRUPTABLE"@,
            CombatSequenceInterruptionType::INTERRUPTABLEDUETOZONECHANGE => "COMBAT_SEQUENCE_INTERRUPTABLE_DUE_TO_ZONE_CHANGE"@,
        }
    }

    /// The first variant whose symbol is `s`, if any.
    pub open spec fn symbol_lookup(s: Seq<char>) -> Option<Self> {
        if s == "COMBAT_SEQUENCE_INTERRUPT_NULL"@ {
            Some(CombatSequenceInterruptionType::INTERRUPTNULL)
        } else if s == "COMBAT_SEQUENCE_INTERRUPTABLE"@ {
            Some(CombatSequenceInterruptionType::INTERRUPTABLE)
        } else if s == "COMBAT_SEQUENCE_INTERRUPTABLE_DUE_TO_ZONE_CHANGE"@ {
            Some(CombatSequenceInterruptionType::INTERRUPTABLEDUETOZONECHANGE)
        } else {
            None
        }
    }

    /// The C++ enumerator symbol text defs use for `self`.
    pub fn symbol(self) -> (r: &'static str)
        ensures
            r@ == self.symbol_of(),
    {
        match self {
            CombatSequenceInterruptionType::INTERRUPTNULL => "COMBAT_SEQUENCE_INTERRUPT_NULL",
            CombatSequenceInterruptionType::INTERRUPTABLE => "COMBAT_SEQUENCE_INTERRUPTABLE",
            CombatSequenceInterruptionType::INTERRUPTABLEDUETOZONECHANGE => "COMBAT_SEQUENCE_INTERRUPTABLE_DUE_TO_ZONE_CHANGE",
        }
    }

    /// The variant a C++ enumerator symbol names.
    pub fn from_symbol(s: &str) -> (r: Option<Self>)
        ensures
            r == Self::symbol_lookup(s@),
    {
        if str_eq(s, "COMBAT_SEQUENCE_INTERRUPT_NULL") {
            return Some(CombatSequenceInterruptionType::INTERRUPTNULL);
        }
        if str_eq(s, "COMBAT_SEQUENCE_INTERRUPTABLE") {
            return Some(CombatSequenceInterruptionType::INTERRUPTABLE);
        }
        if str_eq(s, "COMBAT_SEQUENCE_INTERRUPTABLE_DUE_TO_ZONE_CHANGE") {
            return Some(CombatSequenceInterruptionType::INTERRUPTABLEDUETOZONECHANGE);
        }
        None
    }
}

#[derive(Debug, Clone, Copy, PartialEq, Eq, Structural, PartialOrd, Ord, Hash)]
pub enum CombatSequenceIsValidType {
    VALIDNULL,
    VALIDTARGETBLOCKING,
    VALIDLOADRANGEDWEAPON,
    VALIDFIREATTARGET,
    VALIDISTARGETHEALTHOVER75,
    VALIDISMYHEALTHBELOW30,
    VALIDISBALVERINEABLETOLUNGE,
    VALIDABLETOSUMMON,
    TARGETINLINEOFSIGHT,
}

impl DefEnum for CombatSequenceIsValidType {
    open spec fn wire_value(self) -> i32 {
        match self {
            CombatSequenceIsValidType::VALIDNULL => 0i32,
            CombatSequenceIsValidType::VALIDTARGETBLOCKING => 1i32,
            CombatSequenceIsValidType::VALIDLOADRANGEDWEAPON => 2i32,
            CombatSequenceIsValidType::VALIDFIREATTARGET => 3i32,
            CombatSequenceIsValidType::VALIDISTARGETHEALTHOVER75 => 4i32,
            CombatSequenceIsValidType::VALIDISMYHEALTHBELOW30 => 5i32,
            CombatSequenceIsValidType::VALIDISBALVERINEABLETOLUNGE => 6i32,
            CombatSequenceIsValidType::VALIDABLETOSUMMON => 7i32,
            CombatSequenceIsValidType::TARGETINLINEOFSIGHT => 8i32,
        }
    }

    open spec fn lookup(value: i32) -> Option<Self> {
        match value {
            0i32 => Some(CombatSequenceIsValidType::VALIDNULL),
            1i32 => Some(CombatSequenceIsValidType::VALIDTARGETBLOCKING),
            2i32 => Some(CombatSequenceIsValidType::VALIDLOADRANGEDWEAPON),
            3i32 => Some(CombatSequenceIsValidType::VALIDFIREATTARGET),
            4i32 => Some(CombatSequenceIsValidType::VALIDISTARGETHEALTHOVER75),
            5i32 => Some(CombatSequenceIsValidType::VALIDISMYHEALTHBELOW30),
            6i32 => Some(CombatSequenceIsValidType::VALIDISBALVERINEABLETOLUNGE),
            7i32 => Some(CombatSequenceIsValidType::VALIDABLETOSUMMON),
            8i32 => Some(CombatSequenceIsValidType::TARGETINLINEOFSIGHT),
            _ => None,
        }
    }

    fn from_i32(value: i32) -> (r: Option<Self>) {
        match value {
            0i32 => Some(CombatSequenceIsValidType::VALIDNULL),
            1i32 => Some(CombatSequenceIsValidType::VALIDTARGETBLOCKING),
            2i32 => Some(CombatSequenceIsValidType::VALIDLOADRANGEDWEAPON),
            3i32 => Some(CombatSequenceIsValidType::VALIDFIREATTARGET),
            4i32 => Some(CombatSequenceIsValidType::VALIDISTARGETHEALTHOVER75),
            5i32 => Some(CombatSequenceIsValidType::VALIDISMYHEALTHBELOW30),
            6i32 => Some(CombatSequenceIsValidType::VALIDISBALVERINEABLETOLUNGE),
            7i32 => Some(CombatSequenceIsValidType::VALIDABLETOSUMMON),
            8i32 => Some(CombatSequenceIsValidType::TARGETINLINEOFSIGHT),
            _ => None,
        }
    }

    fn to_i32(self) -> (r: i32) {
        match self {
            CombatSequenceIsValidType::VALIDNULL => 0i32,
            CombatSequenceIsValidType::VALIDTARGETBLOCKING => 1i32,
            CombatSequenceIsValidType::VALIDLOADRANGEDWEAPON => 2i32,
            CombatSequenceIsValidType::VALIDFIREATTARGET => 3i32,
            CombatSequenceIsValidType::VALIDISTARGETHEALTHOVER75 => 4i32,
            CombatSequenceIsValidType::VALIDISMYHEALTHBELOW30 => 5i32,
            CombatSequenceIsValidType::VALIDISBALVERINEABLETOLUNGE => 6i32,
            CombatSequenceIsValidType::VALIDABLETOSUMMON => 7i32,
            CombatSequenceIsValidType::TARGETINLINEOFSIGHT => 8i32,
        }
    }

    proof fn lemma_lookup_wire_value(e: Self) {
    }
}

impl CombatSequenceIsValidType {
    /// The C++ enumerator symbol of `self`.
    pub open spec fn symbol_of(self) -> Seq<char> {
        match self {
            CombatSequenceIsValidType::VALIDNULL => "COMBAT_SEQUENCE_IS_VALID_NULL"@,
            CombatSequenceIsValidType::VALIDTARGETBLOCKING => "COMBAT_SEQUENCE_IS_VALID_TARGET_BLOCKING"@,
            CombatSequenceIsValidType::VALIDLOADRANGEDWEAPON => "COMBAT_SEQUENCE_IS_VALID_LOAD_RANGED_WEAPON"@,
            CombatSequenceIsValidType::VALIDFIREATTARGET => "COMBAT_SEQUENCE_IS_VALID_FIRE_AT_TARGET"@,
            CombatSequenceIsValidType::VALIDISTARGETHEALTHOVER75 => "COMBAT_SEQUENCE_IS_VALID_IS_TARGET_HEALTH_OVER_75"@,
            CombatSequenceIsValidType::VALIDISMYHEALTHBELOW30 => "COMBAT_SEQUENCE_IS_VALID_IS_MY_HEALTH_BELOW_30"@,
            CombatSequenceIsValidType::VALIDISBALVERINEABLETOLUNGE => "COMBAT_SEQUENCE_IS_VALID_IS_BALVERINE_ABLE_TO_LUNGE"@,
            CombatSequenceIsValidType::VALIDABLETOSUMMON => "COMBAT_SEQUENCE_IS_VALID_ABLE_TO_SUMMON"@,
            CombatSequenceIsValidType::TARGETINLINEOFSIGHT => "COMBAT_SEQUENCE_IS_TARGET_IN_LINE_OF_SIGHT"@,
        }
    }

    /// The first variant whose symbol is `s`, if any.
    pub open spec fn symbol_lookup(s: Seq<char>) -> Option<Self> {
        if s == "COMBAT_SEQUENCE_IS_VALID_NULL"@ {
            Some(CombatSequenceIsValidType::VALIDNULL)
        } else if s == "COMBAT_SEQUENCE_IS_VALID_TARGET_BLOCKING"@ {
            Some(CombatSequenceIsValidType::VALIDTARGETBLOCKING)
        } else if s == "COMBAT_SEQUENCE_IS_VALID_LOAD_RANGED_WEAPON"@ {
            Some(CombatSequenceIsValidType::VALIDLOADRANGEDWEAPON)
        } else if s == "COMBAT_SEQUENCE_IS_VALID_FIRE_AT_TARGET"@ {
            Some(CombatSequenceIsValidType::VALIDFIREATTARGET)
        } else if s == "COMBAT_SEQUENCE_IS_VALID_IS_TARGET_HEALTH_OVER_75"@ {
            Some(CombatSequenceIsValidType::VALIDISTARGETHEALTHOVER75)
        } else if s == "COMBAT_SEQUENCE_IS_VALID_IS_MY_HEALTH_BELOW_30"@ {
            Some(CombatSequenceIsValidType::VALIDISMYHEALTHBELOW30)
        } else if s == "COMBAT_SEQUENCE_IS_VALID_IS_BALVERINE_ABLE_TO_LUNGE"@ {
            Some(CombatSequenceIsValidType::VALIDISBALVERINEABLETOLUNGE)
        } else if s == "COMBAT_SEQUENCE_IS_VALID_ABLE_TO_SUMMON"@ {
            Some(CombatSequenceIsValidType::VALIDABLETOSUMMON)
        } else if s == "COMBAT_SEQUENCE_IS_TARGET_IN_LINE_OF_SIGHT"@ {
            Some(CombatSequenceIsValidType::TARGETINLINEOFSIGHT)
        } else {
            None
        }
    }

    /// The C++ enumerator symbol text defs use for `self`.
    pub fn symbol(self) -> (r: &'static str)
        ensures
            r@ == self.symbol_of(),
    {
        match self {
            CombatSequenceIsValidType::VALIDNULL => "COMBAT_SEQUENCE_IS_VALID_NULL",
            CombatSequenceIsValidType::VALIDTARGETBLOCKING => "COMBAT_SEQUENCE_IS_VALID_TARGET_BLOCKING",
            CombatSequenceIsValidType::VALIDLOADRANGEDWEAPON => "COMBAT_SEQUENCE_IS_VALID_LOAD_RANGED_WEAPON",
            CombatSequenceIsValidType::VALIDFIREATTARGET => "COMBAT_SEQUENCE_IS_VALID_FIRE_AT_TARGET",
            CombatSequenceIsValidType::VALIDISTARGETHEALTHOVER75 => "COMBAT_SEQUENCE_IS_VALID_IS_TARGET_HEALTH_OVER_75",
            CombatSequenceIsValidType::VALIDISMYHEALTHBELOW30 => "COMBAT_SEQUENCE_IS_VALID_IS_MY_HEALTH_BELOW_30",
            CombatSequenceIsValidType::VALIDISBALVERINEABLETOLUNGE => "COMBAT_SEQUENCE_IS_VALID_IS_BALVERINE_ABLE_TO_LUNGE",
            CombatSequenceIsValidType::VALIDABLETOSUMMON => "COMBAT_SEQUENCE_IS_VALID_ABLE_TO_SUMMON",
            CombatSequenceIsValidType::TARGETINLINEOFSIGHT => "COMBAT_SEQUENCE_IS_TARGET_IN_LINE_OF_SIGHT",
        }
    }

    /// The variant a C++ enumerator symbol names.
    pub fn from_symbol(s: &str) -> (r: Option<Self>)
        ensures
            r == Self::symbol_lookup(s@),
    {
        if str_eq(s, "COMBAT_SEQUENCE_IS_VALID_NULL") {
            return Some(CombatSequenceIsValidType::VALIDNULL);
        }
        if str_eq(s, "COMBAT_SEQUENCE_IS_VALID_TARGET_BLOCKING") {
            return Some(CombatSequenceIsValidType::VALIDTARGETBLOCKING);
        }
        if str_eq(s, "COMBAT_SEQUENCE_IS_VALID_LOAD_RANGED_WEAPON") {
            return Some(CombatSequenceIsValidType::VALIDLOADRANGEDWEAPON);
        }
        if str_eq(s, "COMBAT_SEQUENCE_IS_VALID_FIRE_AT_TARGET") {
            return Some(CombatSequenceIsValidType::VALIDFIREATTARGET);
        }
        if str_eq(s, "COMBAT_SEQUENCE_IS_VALID_IS_TARGET_HEALTH_OVER_75") {
            return Some(CombatSequenceIsValidType::VALIDISTARGETHEALTHOVER75);
        }
        if str_eq(s, "COMBAT_SEQUENCE_IS_VALID_IS_MY_HEALTH_BELOW_30") {
            return Some(CombatSequenceIsValidType::VALIDISMYHEALTHBELOW30);
        }
        if str_eq(s, "COMBAT_SEQUENCE_IS_VALID_IS_BALVERINE_ABLE_TO_LUNGE") {
            return Some(CombatSequenceIsValidType::VALIDISBALVERINEABLETOLUNGE);
        }
        if str_eq(s, "COMBAT_SEQUENCE_IS_VALID_ABLE_TO_SUMMON") {
            return Some(CombatSequenceIsValidType::VALIDABLETOSUMMON);
        }
        if str_eq(s, "COMBAT_SEQUENCE_IS_TARGET_IN_LINE_OF_SIGHT") {
            return Some(CombatSequenceIsValidType::TARGETINLINEOFSIGHT);
        }
        None
    }
}

#[derive(Debug, Clone, Copy, PartialEq, Eq, Structural, PartialOrd, Ord, Hash)]
pub enum CombatSequenceOnStartModuleType {
    NULL,
    CONTINUEAIMING,
}

impl DefEnum for CombatSequenceOnStartModuleType {
    open spec fn wire_value(self) -> i32 {
        match self {
            CombatSequenceOnStartModuleType::NULL => 0i32,
            CombatSequenceOnStartModuleType::CONTINUEAIMING => 1i32,
        }
    }

    open spec fn lookup(value: i32) -> Option<Self> {
        match value {
            0i32 => Some(CombatSequenceOnStartModuleType::NULL),
            1i32 => Some(CombatSequenceOnStartModuleType::CONTINUEAIMING),
            _ => None,
        }
    }

    fn from_i32(value: i32) -> (r: Option<Self>) {
        match value {
            0i32 => Some(CombatSequenceOnStartModuleType::NULL),
            1i32 => Some(CombatSequenceOnStartModuleType::CONTINUEAIMING),
            _ => None,
        }
    }

    fn to_i32(self) -> (r: i32) {
        match self {
            CombatSequenceOnStartModuleType::NULL => 0i32,
            CombatSequenceOnStartModuleType::CONTINUEAIMING => 1i32,
        }
    }

    proof fn lemma_lookup_wire_value(e: Self) {
    }
}

impl CombatSequenceOnStartModuleType {
    /// The C++ enumerator symbol of `self`.
    pub open spec fn symbol_of(self) -> Seq<char> {
        match self {
            CombatSequenceOnStartModuleType::NULL => "COMBAT_SEQUENCE_ON_START_NULL"@,
            CombatSequenceOnStartModuleType::CONTINUEAIMING => "COMBAT_SEQUENCE_ON_START_CONTINUE_AIMING"@,
        }
    }

    /// The first variant whose symbol is `s`, if any.
    pub open spec fn symbol_lookup(s: Seq<char>) -> Option<Self> {
        if s == "COMBAT_SEQUENCE_ON_START_NULL"@ {
            Some(CombatSequenceOnStartModuleType::NULL)
        } else if s == "COMBAT_SEQUENCE_ON_START_CONTINUE_AIMING"@ {
            Some(CombatSequenceOnStartModuleType::CONTINUEAIMING)
        } else {
            None
        }
    }

    /// The C++ enumerator symbol text defs use for `self`.
    pub fn symbol(self) -> (r: &'static str)
        ensures
            r@ == self.symbol_of(),
    {
        match self {
            CombatSequenceOnStartModuleType::NULL => "COMBAT_SEQUENCE_ON_START_NULL",
            CombatSequenceOnStartModuleType::CONTINUEAIMING => "COMBAT_SEQUENCE_ON_START_CONTINUE_AIMING",
        }
    }

    /// The variant a C++ enumerator symbol names.
    pub fn from_symbol(s: &str) -> (r: Option<Self>)
        ensures
            r == Self::symbol_lookup(s@),
    {
        if str_eq(s, "COMBAT_SEQUENCE_ON_START_NULL") {
            return Some(CombatSequenceOnStartModuleType::NULL);
        }
        if str_eq(s, "COMBAT_SEQUENCE_ON_START_CONTINUE_AIMING") {
            return Some(CombatSequenceOnStartModuleType::CONTINUEAIMING);
        }
        None
    }
}

#[derive(Debug, Clone, Copy, PartialEq, Eq, Structural, PartialOrd, Ord, Hash)]
pub enum CombatSequenceOnStopModuleType {
    NULL,
}

impl DefEnum for CombatSequenceOnStopModuleType {
    open spec fn wire_value(self) -> i32 {
        match self {
            CombatSequenceOnStopModuleType::NULL => 0i32,
        }
    }

    open spec fn lookup(value: i32) -> Option<Self> {
        match value {
            0i32 => Some(CombatSequenceOnStopModuleType::NULL),
            _ => None,
        }
    }

    fn from_i32(value: i32) -> (r: Option<Self>) {
        match value {
            0i32 => Some(CombatSequenceOnStopModuleType::NULL),
            _ => None,
        }
    }

    fn to_i32(self) -> (r: i32) {
        match self {
            CombatSequenceOnStopModuleType::NULL => 0i32,
        }
    }

    proof fn lemma_lookup_wire_value(e: Self) {
    }
}

impl CombatSequenceOnStopModuleType {
    /// The C++ enumerator symbol of `self`.
    pub open spec fn symbol_of(self) -> Seq<char> {
        match self {
            CombatSequenceOnStopModuleType::NULL => "COMBAT_SEQUENCE_ON_STOP_NULL"@,
        }
    }

    /// The first variant whose symbol is `s`, if any.
    pub open spec fn symbol_lookup(s: Seq<char>) -> Option<Self> {
        if s == "COMBAT_SEQUENCE_ON_STOP_NULL"@ {
            Some(CombatSequenceOnStopModuleType::NULL)
        } else {
            None
        }
    }

    /// The C++ enumerator symbol text defs use for `self`.
    pub fn symbol(self) -> (r: &'static str)
        ensures
            r@ == self.symbol_of(),
    {
        match self {
            CombatSequenceOnStopModuleType::NULL => "COMBAT_SEQUENCE_ON_STOP_NULL",
        }
    }

    /// The variant a C++ enumerator symbol names.
    pub fn from_symbol(s: &str) -> (r: Option<Self>)
        ensures
            r == Self::symbol_lookup(s@),
    {
        if str_eq(s, "COMBAT_SEQUENCE_ON_STOP_NULL") {
            return Some(CombatSequenceOnStopModuleType::NULL);
        }
        None
    }
}

#[derive(Debug, Clone, Copy, PartialEq, Eq, Structural, PartialOrd, Ord, Hash)]
pub enum CombatSequenceType {
    NULL,
    MELEE,
    BREAKINTOMELEE,
    BOAST,
    LEADER,
}

impl DefEnum for CombatSequenceType {
    open spec fn wire_value(self) -> i32 {
        match self {
            CombatSequenceType::NULL => 0i32,
            CombatSequenceType::MELEE => 1i32,
            CombatSequenceType::BREAKINTOMELEE => 2i32,
            CombatSequenceType::BOAST => 3i32,
            CombatSequenceType::LEADER => 4i32,
        }
    }

    open spec fn lookup(value: i32) -> Option<Self> {
        match value {
            0i32 => Some(CombatSequenceType::NULL),
            1i32 => Some(CombatSequenceType::MELEE),
            2i32 => Some(CombatSequenceType::BREAKINTOMELEE),
            3i32 => Some(CombatSequenceType::BOAST),
            4i32 => Some(CombatSequenceType::LEADER),
            _ => None,
        }
    }

    fn from_i32(value: i32) -> (r: Option<Self>) {
        match value {
            0i32 => Some(CombatSequenceType::NULL),
            1i32 => Some(CombatSequenceType::MELEE),
            2i32 => Some(CombatSequenceType::BREAKINTOMELEE),
            3i32 => Some(CombatSequenceType::BOAST),
            4i32 => Some(CombatSequenceType::LEADER),
            _ => None,
        }
    }

    fn to_i32(self) -> (r: i32) {
        match self {
            CombatSequenceType::NULL => 0i32,
            CombatSequenceType::MELEE => 1i32,
            CombatSequenceType::BREAKINTOMELEE => 2i32,
            CombatSequenceType::BOAST => 3i32,
            CombatSequenceType::LEADER => 4i32,
        }
    }

    proof fn lemma_lookup_wire_value(e: Self) {
    }
}

impl CombatSequenceType {
    /// The C++ enumerator symbol of `self`.
    pub open spec fn symbol_of(self) -> Seq<char> {
        match self {
            CombatSequenceType::NULL => "COMBAT_SEQUENCE_NULL"@,
            CombatSequenceType::MELEE => "COMBAT_SEQUENCE_MELEE"@,
            CombatSequenceType::BREAKINTOMELEE => "COMBAT_SEQUENCE_BREAK_INTO_MELEE"@,
            CombatSequenceType::BOAST => "COMBAT_SEQUENCE_BOAST"@,
            CombatSequenceType::LEADER => "COMBAT_SEQUENCE_LEADER"@,
        }
    }

    /// The first variant whose symbol is `s`, if any.
    pub open spec fn symbol_lookup(s: Seq<char>) -> Option<Self> {
        if s == "COMBAT_SEQUENCE_NULL"@ {
            Some(CombatSequenceType::NULL)
        } else if s == "COMBAT_SEQUENCE_MELEE"@ {
            Some(CombatSequenceType::MELEE)
        } else if s == "COMBAT_SEQUENCE_BREAK_INTO_MELEE"@ {
            Some(CombatSequenceType::BREAKINTOMELEE)
        } else if s == "COMBAT_SEQUENCE_BOAST"@ {
            Some(CombatSequenceType::BOAST)
        } else if s == "COMBAT_SEQUENCE_LEADER"@ {
            Some(CombatSequenceType::LEADER)
        } else {
            None
        }
    }

    /// The C++ enumerator symbol text defs use for `self`.
    pub fn symbol(self) -> (r: &'static str)
        ensures
            r@ == self.symbol_of(),
    {
        match self {
            CombatSequenceType::NULL => "COMBAT_SEQUENCE_NULL",
            CombatSequenceType::MELEE => "COMBAT_SEQUENCE_MELEE",
            CombatSequenceType::BREAKINTOMELEE => "COMBAT_SEQUENCE_BREAK_INTO_MELEE",
            CombatSequenceType::BOAST => "COMBAT_SEQUENCE_BOAST",
            CombatSequenceType::LEADER => "COMBAT_SEQUENCE_LEADER",
        }
    }

    /// The variant a C++ enumerator symbol names.
    pub fn from_symbol(s: &str) -> (r: Option<Self>)
        ensures
            r == Self::symbol_lookup(s@),
    {
        if str_eq(s, "COMBAT_SEQUENCE_NULL") {
            return Some(CombatSequenceType::NULL);
        }
        if str_eq(s, "COMBAT_SEQUENCE_MELEE") {
            return Some(CombatSequenceType::MELEE);
        }
        if str_eq(s, "COMBAT_SEQUENCE_BREAK_INTO_MELEE") {
            return Some(CombatSequenceType::BREAKINTOMELEE);
        }
        if str_eq(s, "COMBAT_SEQUENCE_BOAST") {
            return Some(CombatSequenceType::BOAST);
        }
        if str_eq(s, "COMBAT_SEQUENCE_LEADER") {
            return Some(CombatSequenceType::LEADER);
        }
        None
    }
}

#[derive(Debug, Clone, Copy, PartialEq, Eq, Structural, PartialOrd, Ord, Hash)]
pub enum CombatStrikeRecoilStyle {
    RECOILBREAKHANDEDNESS,
    RECOILMAINTATINHANDEDNESS,
    RECOILNONE,
    MAXNUMBEROFRECOILTYPES,
}

impl DefEnum for CombatStrikeRecoilStyle {
    open spec fn wire_value(self) -> i32 {
        match self {
            CombatStrikeRecoilStyle::RECOILBREAKHANDEDNESS => 0i32,
            CombatStrikeRecoilStyle::RECOILMAINTATINHANDEDNESS => 1i32,
            CombatStrikeRecoilStyle::RECOILNONE => 2i32,
            CombatStrikeRecoilStyle::MAXNUMBEROFRECOILTYPES => 3i32,
        }
    }

    open spec fn lookup(value: i32) -> Option<Self> {
        match value {
            0i32 => Some(CombatStrikeRecoilStyle::RECOILBREAKHANDEDNESS),
            1i32 => Some(CombatStrikeRecoilStyle::RECOILMAINTATINHANDEDNESS),
            2i32 => Some(CombatStrikeRecoilStyle::RECOILNONE),
            3i32 => Some(CombatStrikeRecoilStyle::MAXNUMBEROFRECOILTYPES),
            _ => None,
        }
    }

    fn from_i32(value: i32) -> (r: Option<Self>) {
        match value {
            0i32 => Some(CombatStrikeRecoilStyle::RECOILBREAKHANDEDNESS),
            1i32 => Some(CombatStrikeRecoilStyle::RECOILMAINTATINHANDEDNESS),
            2i32 => Some(CombatStrikeRecoilStyle::RECOILNONE),
            3i32 => Some(CombatStrikeRecoilStyle::MAXNUMBEROFRECOILTYPES),
            _ => None,
        }
    }

    fn to_i32(self) -> (r: i32) {
        match self {
            CombatStrikeRecoilStyle::RECOILBREAKHANDEDNESS => 0i32,
            CombatStrikeRecoilStyle::RECOILMAINTATINHANDEDNESS => 1i32,
            CombatStrikeRecoilStyle::RECOILNONE => 2i32,
            CombatStrikeRecoilStyle::MAXNUMBEROFRECOILTYPES => 3i32,
        }
    }

    proof fn lemma_lookup_wire_value(e: Self) {
    }
}

impl CombatStrikeRecoilStyle {
    /// The C++ enumerator symbol of `self`.
    pub open spec fn symbol_of(self) -> Seq<char> {
        match self {
            CombatStrikeRecoilStyle::RECOILBREAKHANDEDNESS => "RECOIL_BREAK_HANDEDNESS"@,
            CombatStrikeRecoilStyle::RECOILMAINTATINHANDEDNESS => "RECOIL_MAINTATIN_HANDEDNESS"@,
            CombatStrikeRecoilStyle::RECOILNONE => "RECOIL_NONE"@,
            CombatStrikeRecoilStyle::MAXNUMBEROFRECOILTYPES => "MAX_NUMBER_OF_RECOIL_TYPES"@,
        }
    }

    /// The first variant whose symbol is `s`, if any.
    pub open spec fn symbol_lookup(s: Seq<char>) -> Option<Self> {
        if s == "RECOIL_BREAK_HANDEDNESS"@ {
            Some(CombatStrikeRecoilStyle::RECOILBREAKHANDEDNESS)
        } else if s == "RECOIL_MAINTATIN_HANDEDNESS"@ {
            Some(CombatStrikeRecoilStyle::RECOILMAINTATINHANDEDNESS)
        } else if s == "RECOIL_NONE"@ {
            Some(CombatStrikeRecoilStyle::RECOILNONE)
        } else if s == "MAX_NUMBER_OF_RECOIL_TYPES"@ {
            Some(CombatStrikeRecoilStyle::MAXNUMBEROFRECOILTYPES)
        } else {
            None
        }
    }

    /// The C++ enumerator symbol text defs use for `self`.
    pub fn symbol(self) -> (r: &'static str)
        ensures
            r@ == self.symbol_of(),
    {
        match self {
            CombatStrikeRecoilStyle::RECOILBREAKHANDEDNESS => "RECOIL_BREAK_HANDEDNESS",
            CombatStrikeRecoilStyle::RECOILMAINTATINHANDEDNESS => "RECOIL_MAINTATIN_HANDEDNESS",
            CombatStrikeRecoilStyle::RECOILNONE => "RECOIL_NONE",
            CombatStrikeRecoilStyle::MAXNUMBEROFRECOILTYPES => "MAX_NUMBER_OF_RECOIL_TYPES",
        }
    }

    /// The variant a C++ enumerator symbol names.
    pub fn from_symbol(s: &str) -> (r: Option<Self>)
        ensures
            r == Self::symbol_lookup(s@),
    {
        if str_eq(s, "RECOIL_BREAK_HANDEDNESS") {
            return Some(CombatStrikeRecoilStyle::RECOILBREAKHANDEDNESS);
        }
        if str_eq(s, "RECOIL_MAINTATIN_HANDEDNESS") {
            return Some(CombatStrikeRecoilStyle::RECOILMAINTATINHANDEDNESS);
        }
        if str_eq(s, "RECOIL_NONE") {
            return Some(CombatStrikeRecoilStyle::RECOILNONE);
        }
        if str_eq(s, "MAX_NUMBER_OF_RECOIL_TYPES") {
            return Some(CombatStrikeRecoilStyle::MAXNUMBEROFRECOILTYPES);
        }
        None
    }
}

#[derive(Debug, Clone, Copy, PartialEq, Eq, Structural, PartialOrd, Ord, Hash)]
pub enum CompositeBlendType {
    NULL,
    ADDITIVE,
    ALPHA,
    SOLID,
    MULTIPLY,
}

impl DefEnum for CompositeBlendType {
    open spec fn wire_value(self) -> i32 {
        match self {
            CompositeBlendType::NULL => 0i32,
            CompositeBlendType::ADDITIVE => 1i32,
            CompositeBlendType::ALPHA => 2i32,
            CompositeBlendType::SOLID => 3i32,
            CompositeBlendType::MULTIPLY => 4i32,
        }
    }

    open spec fn lookup(value: i32) -> Option<Self> {
        match value {
            0i32 => Some(CompositeBlendType::NULL),
            1i32 => Some(CompositeBlendType::ADDITIVE),
            2i32 => Some(CompositeBlendType::ALPHA),
            3i32 => Some(CompositeBlendType::SOLID),
            4i32 => Some(CompositeBlendType::MULTIPLY),
            _ => None,
        }
    }

    fn from_i32(value: i32) -> (r: Option<Self>) {
        match value {
            0i32 => Some(CompositeBlendType::NULL),
            1i32 => Some(CompositeBlendType::ADDITIVE),
            2i32 => Some(CompositeBlendType::ALPHA),
            3i32 => Some(CompositeBlendType::SOLID),
            4i32 => Some(CompositeBlendType::MULTIPLY),
            _ => None,
        }
    }

    fn to_i32(self) -> (r: i32) {
        match self {
            CompositeBlendType::NULL => 0i32,
            CompositeBlendType::ADDITIVE => 1i32,
            CompositeBlendType::ALPHA => 2i32,
            CompositeBlendType::SOLID => 3i32,
            CompositeBlendType::MULTIPLY => 4i32,
        }
    }

    proof fn lemma_lookup_wire_value(e: Self) {
    }
}

impl CompositeBlendType {
    /// The C++ enumerator symbol of `self`.
    pub open spec fn symbol_of(self) -> Seq<char> {
        match self {
            CompositeBlendType::NULL => "COMPOSITE_BLEND_NULL"@,
            CompositeBlendType::ADDITIVE => "COMPOSITE_BLEND_ADDITIVE"@,
            CompositeBlendType::ALPHA => "COMPOSITE_BLEND_ALPHA"@,
            CompositeBlendType::SOLID => "COMPOSITE_BLEND_SOLID"@,
            CompositeBlendType::MULTIPLY => "COMPOSITE_BLEND_MULTIPLY"@,
        }
    }

    /// The first variant whose symbol is `s`, if any.
    pub open spec fn symbol_lookup(s: Seq<char>) -> Option<Self> {
        if s == "COMPOSITE_BLEND_NULL"@ {
            Some(CompositeBlendType::NULL)
        } else if s == "COMPOSITE_BLEND_ADDITIVE"@ {
            Some(CompositeBlendType::ADDITIVE)
        } else if s == "COMPOSITE_BLEND_ALPHA"@ {
            Some(CompositeBlendType::ALPHA)
        } else if s == "COMPOSITE_BLEND_SOLID"@ {
            Some(CompositeBlendType::SOLID)
        } else if s == "COMPOSITE_BLEND_MULTIPLY"@ {
            Some(CompositeBlendType::MULTIPLY)
        } else {
            None
        }
    }

    /// The C++ enumerator symbol text defs use for `self`.
    pub fn symbol(self) -> (r: &'static str)
        ensures
            r@ == self.symbol_of(),
    {
        match self {
            CompositeBlendType::NULL => "COMPOSITE_BLEND_NULL",
            CompositeBlendType::ADDITIVE => "COMPOSITE_BLEND_ADDITIVE",
            CompositeBlendType::ALPHA => "COMPOSITE_BLEND_ALPHA",
            CompositeBlendType::SOLID => "COMPOSITE_BLEND_SOLID",
            CompositeBlendType::MULTIPLY => "COMPOSITE_BLEND_MULTIPLY",
        }
    }

    /// The variant a C++ enumerator symbol names.
    pub fn from_symbol(s: &str) -> (r: Option<Self>)
        ensures
            r == Self::symbol_lookup(s@),
    {
        if str_eq(s, "COMPOSITE_BLEND_NULL") {
            return Some(CompositeBlendType::NULL);
        }
        if str_eq(s, "COMPOSITE_BLEND_ADDITIVE") {
            return Some(CompositeBlendType::ADDITIVE);
        }
        if str_eq(s, "COMPOSITE_BLEND_ALPHA") {
            return Some(CompositeBlendType::ALPHA);
        }
        if str_eq(s, "COMPOSITE_BLEND_SOLID") {
            return Some(CompositeBlendType::SOLID);
        }
        if str_eq(s, "COMPOSITE_BLEND_MULTIPLY") {
            return Some(CompositeBlendType::MULTIPLY);
        }
        None
    }
}

#[derive(Debug, Clone, Copy, PartialEq, Eq, Structural, PartialOrd, Ord, Hash)]
pub enum ContextSensitiveType {
    NULL,
    GUILDSEAL,
    LAMP,
    HEALTH,
    MANA,
    EXPRESSION,
    OPINIONEXPRESSION,
    GIFT,
    MARKER,
    TROPHY,
    SCRIPT,
}

impl DefEnum for ContextSensitiveType {
    open spec fn wire_value(self) -> i32 {
        match self {
            ContextSensitiveType::NULL => 0i32,
            ContextSensitiveType::GUILDSEAL => 1i32,
            ContextSensitiveType::LAMP => 2i32,
            ContextSensitiveType::HEALTH => 3i32,
            ContextSensitiveType::MANA => 4i32,
            ContextSensitiveType::EXPRESSION => 5i32,
            ContextSensitiveType::OPINIONEXPRESSION => 6i32,
            ContextSensitiveType::GIFT => 7i32,
            ContextSensitiveType::MARKER => 8i32,
            ContextSensitiveType::TROPHY => 9i32,
            ContextSensitiveType::SCRIPT => 10i32,
        }
    }

    open spec fn lookup(value: i32) -> Option<Self> {
        match value {
            0i32 => Some(ContextSensitiveType::NULL),
            1i32 => Some(ContextSensitiveType::GUILDSEAL),
            2i32 => Some(ContextSensitiveType::LAMP),
            3i32 => Some(ContextSensitiveType::HEALTH),
            4i32 => Some(ContextSensitiveType::MANA),
            5i32 => Some(ContextSensitiveType::EXPRESSION),
            6i32 => Some(ContextSensitiveType::OPINIONEXPRESSION),
            7i32 => Some(ContextSensitiveType::GIFT),
            8i32 => Some(ContextSensitiveType::MARKER),
            9i32 => Some(ContextSensitiveType::TROPHY),
            10i32 => Some(ContextSensitiveType::SCRIPT),
            _ => None,
        }
    }

    fn from_i32(value: i32) -> (r: Option<Self>) {
        match value {
            0i32 => Some(ContextSensitiveType::NULL),
            1i32 => Some(ContextSensitiveType::GUILDSEAL),
            2i32 => Some(ContextSensitiveType::LAMP),
            3i32 => Some(ContextSensitiveType::HEALTH),
            4i32 => Some(ContextSensitiveType::MANA),
            5i32 => Some(ContextSensitiveType::EXPRESSION),
            6i32 => Some(ContextSensitiveType::OPINIONEXPRESSION),
            7i32 => Some(ContextSensitiveType::GIFT),
            8i32 => Some(ContextSensitiveType::MARKER),
            9i32 => Some(ContextSensitiveType::TROPHY),
            10i32 => Some(ContextSensitiveType::SCRIPT),
            _ => None,
        }
    }

    fn to_i32(self) -> (r: i32) {
        match self {
            ContextSensitiveType::NULL => 0i32,
            ContextSensitiveType::GUILDSEAL => 1i32,
            ContextSensitiveType::LAMP => 2i32,
            ContextSensitiveType::HEALTH => 3i32,
            ContextSensitiveType::MANA => 4i32,
            ContextSensitiveType::EXPRESSION => 5i32,
            ContextSensitiveType::OPINIONEXPRESSION => 6i32,
            ContextSensitiveType::GIFT => 7i32,
            ContextSensitiveType::MARKER => 8i32,
            ContextSensitiveType::TROPHY => 9i32,
            ContextSensitiveType::SCRIPT => 10i32,
        }
    }

    proof fn lemma_lookup_wire_value(e: Self) {
    }
}

impl ContextSensitiveType {
    /// The C++ enumerator symbol of `self`.
    pub open spec fn symbol_of(self) -> Seq<char> {
        match self {
            ContextSensitiveType::NULL => "CONTEXT_SENSITIVE_NULL"@,
            ContextSensitiveType::GUILDSEAL => "CONTEXT_SENSITIVE_GUILD_SEAL"@,
            ContextSensitiveType::LAMP => "CONTEXT_SENSITIVE_LAMP"@,
            ContextSensitiveType::HEALTH => "CONTEXT_SENSITIVE_HEALTH"@,
            ContextSensitiveType::MANA => "CONTEXT_SENSITIVE_MANA"@,
            ContextSensitiveType::EXPRESSION => "CONTEXT_SENSITIVE_EXPRESSION"@,
            ContextSensitiveType::OPINIONEXPRESSION => "CONTEXT_SENSITIVE_OPINION_EXPRESSION"@,
            ContextSensitiveType::GIFT => "CONTEXT_SENSITIVE_GIFT"@,
            ContextSensitiveType::MARKER => "CONTEXT_SENSITIVE_MARKER"@,
            ContextSensitiveType::TROPHY => "CONTEXT_SENSITIVE_TROPHY"@,
            ContextSensitiveType::SCRIPT => "CONTEXT_SENSITIVE_SCRIPT"@,
        }
    }

    /// The first variant whose symbol is `s`, if any.
    pub open spec fn symbol_lookup(s: Seq<char>) -> Option<Self> {
        if s == "CONTEXT_SENSITIVE_NULL"@ {
            Some(ContextSensitiveType::NULL)
        } else if s == "CONTEXT_SENSITIVE_GUILD_SEAL"@ {
            Some(ContextSensitiveType::GUILDSEAL)
        } else if s == "CONTEXT_SENSITIVE_LAMP"@ {
            Some(ContextSensitiveType::LAMP)
        } else if s == "CONTEXT_SENSITIVE_HEALTH"@ {
            Some(ContextSensitiveType::HEALTH)
        } else if s == "CONTEXT_SENSITIVE_MANA"@ {
            Some(ContextSensitiveType::MANA)
        } else if s == "CONTEXT_SENSITIVE_EXPRESSION"@ {
            Some(ContextSensitiveType::EXPRESSION)
        } else if s == "CONTEXT_SENSITIVE_OPINION_EXPRESSION"@ {
            Some(ContextSensitiveType::OPINIONEXPRESSION)
        } else if s == "CONTEXT_SENSITIVE_GIFT"@ {
            Some(ContextSensitiveType::GIFT)
        } else if s == "CONTEXT_SENSITIVE_MARKER"@ {
            Some(ContextSensitiveType::MARKER)
        } else if s == "CONTEXT_SENSITIVE_TROPHY"@ {
            Some(ContextSensitiveType::TROPHY)
        } else if s == "CONTEXT_SENSITIVE_SCRIPT"@ {
            Some(ContextSensitiveType::SCRIPT)
        } else {
            None
        }
    }

    /// The C++ enumerator symbol text defs use for `self`.
    pub fn symbol(self) -> (r: &'static str)
        ensures
            r@ == self.symbol_of(),
    {
        match self {
            ContextSensitiveType::NULL => "CONTEXT_SENSITIVE_NULL",
            ContextSensitiveType::GUILDSEAL => "CONTEXT_SENSITIVE_GUILD_SEAL",
            ContextSensitiveType::LAMP => "CONTEXT_SENSITIVE_LAMP",
            ContextSensitiveType::HEALTH => "CONTEXT_SENSITIVE_HEALTH",
            ContextSensitiveType::MANA => "CONTEXT_SENSITIVE_MANA",
            ContextSensitiveType::EXPRESSION => "CONTEXT_SENSITIVE_EXPRESSION",
            ContextSensitiveType::OPINIONEXPRESSION => "CONTEXT_SENSITIVE_OPINION_EXPRESSION",
            ContextSensitiveType::GIFT => "CONTEXT_SENSITIVE_GIFT",
            ContextSensitiveType::MARKER => "CONTEXT_SENSITIVE_MARKER",
            ContextSensitiveType::TROPHY => "CONTEXT_SENSITIVE_TROPHY",
            ContextSensitiveType::SCRIPT => "CONTEXT_SENSITIVE_SCRIPT",
        }
    }

    /// The variant a C++ enumerator symbol names.
    pub fn from_symbol(s: &str) -> (r: Option<Self>)
        ensures
            r == Self::symbol_lookup(s@),
    {
        if str_eq(s, "CONTEXT_SENSITIVE_NULL") {
            return Some(ContextSensitiveType::NULL);
        }
        if str_eq(s, "CONTEXT_SENSITIVE_GUILD_SEAL") {
            return Some(ContextSensitiveType::GUILDSEAL);
        }
        if str_eq(s, "CONTEXT_SENSITIVE_LAMP") {
            return Some(ContextSensitiveType::LAMP);
        }
        if str_eq(s, "CONTEXT_SENSITIVE_HEALTH") {
            return Some(ContextSensitiveType::HEALTH);
        }
        if str_eq(s, "CONTEXT_SENSITIVE_MANA") {
            return Some(ContextSensitiveType::MANA);
        }
        if str_eq(s, "CONTEXT_SENSITIVE_EXPRESSION") {
            return Some(ContextSensitiveType::EXPRESSION);
        }
        if str_eq(s, "CONTEXT_SENSITIVE_OPINION_EXPRESSION") {
            return Some(ContextSensitiveType::OPINIONEXPRESSION);
        }
        if str_eq(s, "CONTEXT_SENSITIVE_GIFT") {
            return Some(ContextSensitiveType::GIFT);
        }
        if str_eq(s, "CONTEXT_SENSITIVE_MARKER") {
            return Some(ContextSensitiveType::MARKER);
        }
        if str_eq(s, "CONTEXT_SENSITIVE_TROPHY") {
            return Some(ContextSensitiveType::TROPHY);
        }
        if str_eq(s, "CONTEXT_SENSITIVE_SCRIPT") {
            return Some(ContextSensitiveType::SCRIPT);
        }
        None
    }
}

#[derive(Debug, Clone, Copy, PartialEq, Eq, Structural, PartialOrd, Ord, Hash)]
pub enum ControlledMovementType {
    NULL,
    WALKING,
    FLYING,
    FIRSTPERSON,
}

impl DefEnum for ControlledMovementType {
    open spec fn wire_value(self) -> i32 {
        match self {
            ControlledMovementType::NULL => 0i32,
            ControlledMovementType::WALKING => 1i32,
            ControlledMovementType::FLYING => 2i32,
            ControlledMovementType::FIRSTPERSON => 3i32,
        }
    }

    open spec fn lookup(value: i32) -> Option<Self> {
        match value {
            0i32 => Some(ControlledMovementType::NULL),
            1i32 => Some(ControlledMovementType::WALKING),
            2i32 => Some(ControlledMovementType::FLYING),
            3i32 => Some(ControlledMovementType::FIRSTPERSON),
            _ => None,
        }
    }

    fn from_i32(value: i32) -> (r: Option<Self>) {
        match value {
            0i32 => Some(ControlledMovementType::NULL),
            1i32 => Some(ControlledMovementType::WALKING),
            2i32 => Some(ControlledMovementType::FLYING),
            3i32 => Some(ControlledMovementType::FIRSTPERSON),
            _ => None,
        }
    }

    fn to_i32(self) -> (r: i32) {
        match self {
            ControlledMovementType::NULL => 0i32,
            ControlledMovementType::WALKING => 1i32,
            ControlledMovementType::FLYING => 2i32,
            ControlledMovementType::FIRSTPERSON => 3i32,
        }
    }

    proof fn lemma_lookup_wire_value(e: Self) {
    }
}

impl ControlledMovementType {
    /// The C++ enumerator symbol of `self`.
    pub open spec fn symbol_of(self) -> Seq<char> {
        match self {
            ControlledMovementType::NULL => "CONTROLLED_MOVEMENT_NULL"@,
            ControlledMovementType::WALKING => "CONTROLLED_MOVEMENT_WALKING"@,
            ControlledMovementType::FLYING => "CONTROLLED_MOVEMENT_FLYING"@,
            ControlledMovementType::FIRSTPERSON => "CONTROLLED_MOVEMENT_FIRST_PERSON"@,
        }
    }

    /// The first variant whose symbol is `s`, if any.
    pub open spec fn symbol_lookup(s: Seq<char>) -> Option<Self> {
        if s == "CONTROLLED_MOVEMENT_NULL"@ {
            Some(ControlledMovementType::NULL)
        } else if s == "CONTROLLED_MOVEMENT_WALKING"@ {
            Some(ControlledMovementType::WALKING)
        } else if s == "CONTROLLED_MOVEMENT_FLYING"@ {
            Some(ControlledMovementType::FLYING)
        } else if s == "CONTROLLED_MOVEMENT_FIRST_PERSON"@ {
            Some(ControlledMovementType::FIRSTPERSON)
        } else {
            None
        }
    }

    /// The C++ enumerator symbol text defs use for `self`.
    pub fn symbol(self) -> (r: &'static str)
        ensures
            r@ == self.symbol_of(),
    {
        match self {
            ControlledMovementType::NULL => "CONTROLLED_MOVEMENT_NULL",
            ControlledMovementType::WALKING => "CONTROLLED_MOVEMENT_WALKING",
            ControlledMovementType::FLYING => "CONTROLLED_MOVEMENT_FLYING",
            ControlledMovementType::FIRSTPERSON => "CONTROLLED_MOVEMENT_FIRST_PERSON",
        }
    }

    /// The variant a C++ enumerator symbol names.
    pub fn from_symbol(s: &str) -> (r: Option<Self>)
        ensures
            r == Self::symbol_lookup(s@),
    {
        if str_eq(s, "CONTROLLED_MOVEMENT_NULL") {
            return Some(ControlledMovementType::NULL);
        }
        if str_eq(s, "CONTROLLED_MOVEMENT_WALKING") {
            return Some(ControlledMovementType::WALKING);
        }
        if str_eq(s, "CONTROLLED_MOVEMENT_FLYING") {
            return Some(ControlledMovementType::FLYING);
        }
        if str_eq(s, "CONTROLLED_MOVEMENT_FIRST_PERSON") {
            return Some(ControlledMovementType::FIRSTPERSON);
        }
        None
    }
}

#[derive(Debug, Clone, Copy, PartialEq, Eq, Structural, PartialOrd, Ord, Hash)]
pub enum CreatureAbility {
    CREATUREABILITYTYPEATTACK,
    CREATUREABILITYTYPEFLOURISH,
    CREATUREABILITYTYPEFLOURISH360CW,
    CREATUREABILITYTYPEFLOURISH360ACW,
    CREATUREABILITYTYPEFLOURISHUPTHRUSTLEFT,
    CREATUREABILITYTYPEFLOURISHUPTHRUSTRIGHT,
    CREATUREABILITYTYPEFLOURISHMAXIMUMDAMAGE,
    CREATUREABILITYTYPEBREAKBLOCK,
    MAXNUMBEROFCREATUREABILITIES,
}

impl DefEnum for CreatureAbility {
    open spec fn wire_value(self) -> i32 {
        match self {
            CreatureAbility::CREATUREABILITYTYPEATTACK => 0i32,
            CreatureAbility::CREATUREABILITYTYPEFLOURISH => 1i32,
            CreatureAbility::CREATUREABILITYTYPEFLOURISH360CW => 2i32,
            CreatureAbility::CREATUREABILITYTYPEFLOURISH360ACW => 3i32,
            CreatureAbility::CREATUREABILITYTYPEFLOURISHUPTHRUSTLEFT => 4i32,
            CreatureAbility::CREATUREABILITYTYPEFLOURISHUPTHRUSTRIGHT => 5i32,
            CreatureAbility::CREATUREABILITYTYPEFLOURISHMAXIMUMDAMAGE => 6i32,
            CreatureAbility::CREATUREABILITYTYPEBREAKBLOCK => 7i32,
            CreatureAbility::MAXNUMBEROFCREATUREABILITIES => 8i32,
        }
    }

    open spec fn lookup(value: i32) -> Option<Self> {
        match value {
            0i32 => Some(CreatureAbility::CREATUREABILITYTYPEATTACK),
            1i32 => Some(CreatureAbility::CREATUREABILITYTYPEFLOURISH),
            2i32 => Some(CreatureAbility::CREATUREABILITYTYPEFLOURISH360CW),
            3i32 => Some(CreatureAbility::CREATUREABILITYTYPEFLOURISH360ACW),
            4i32 => Some(CreatureAbility::CREATUREABILITYTYPEFLOURISHUPTHRUSTLEFT),
            5i32 => Some(CreatureAbility::CREATUREABILITYTYPEFLOURISHUPTHRUSTRIGHT),
            6i32 => Some(CreatureAbility::CREATUREABILITYTYPEFLOURISHMAXIMUMDAMAGE),
            7i32 => Some(CreatureAbility::CREATUREABILITYTYPEBREAKBLOCK),
            8i32 => Some(CreatureAbility::MAXNUMBEROFCREATUREABILITIES),
            _ => None,
        }
    }

    fn from_i32(value: i32) -> (r: Option<Self>) {
        match value {
            0i32 => Some(CreatureAbility::CREATUREABILITYTYPEATTACK),
            1i32 => Some(CreatureAbility::CREATUREABILITYTYPEFLOURISH),
            2i32 => Some(CreatureAbility::CREATUREABILITYTYPEFLOURISH360CW),
            3i32 => Some(CreatureAbility::CREATUREABILITYTYPEFLOURISH360ACW),
            4i32 => Some(CreatureAbility::CREATUREABILITYTYPEFLOURISHUPTHRUSTLEFT),
            5i32 => Some(CreatureAbility::CREATUREABILITYTYPEFLOURISHUPTHRUSTRIGHT),
            6i32 => Some(CreatureAbility::CREATUREABILITYTYPEFLOURISHMAXIMUMDAMAGE),
            7i32 => Some(CreatureAbility::CREATUREABILITYTYPEBREAKBLOCK),
            8i32 => Some(CreatureAbility::MAXNUMBEROFCREATUREABILITIES),
            _ => None,
        }
    }

    fn to_i32(self) -> (r: i32) {
        match self {
            CreatureAbility::CREATUREABILITYTYPEATTACK => 0i32,
            CreatureAbility::CREATUREABILITYTYPEFLOURISH => 1i32,
            CreatureAbility::CREATUREABILITYTYPEFLOURISH360CW => 2i32,
            CreatureAbility::CREATUREABILITYTYPEFLOURISH360ACW => 3i32,
            CreatureAbility::CREATUREABILITYTYPEFLOURISHUPTHRUSTLEFT => 4i32,
            CreatureAbility::CREATUREABILITYTYPEFLOURISHUPTHRUSTRIGHT => 5i32,
            CreatureAbility::CREATUREABILITYTYPEFLOURISHMAXIMUMDAMAGE => 6i32,
            CreatureAbility::CREATUREABILITYTYPEBREAKBLOCK => 7i32,
            CreatureAbility::MAXNUMBEROFCREATUREABILITIES => 8i32,
        }
    }

    proof fn lemma_lookup_wire_value(e: Self) {
    }
}

impl CreatureAbility {
    /// The C++ enumerator symbol of `self`.
    pub open spec fn symbol_of(self) -> Seq<char> {
        match self {
            CreatureAbility::CREATUREABILITYTYPEATTACK => "CREATURE_ABILITY_TYPE_ATTACK"@,
            CreatureAbility::CREATUREABILITYTYPEFLOURISH => "CREATURE_ABILITY_TYPE_FLOURISH"@,
            CreatureAbility::CREATUREABILITYTYPEFLOURISH360CW => "CREATURE_ABILITY_TYPE_FLOURISH_360_CW"@,
            CreatureAbility::CREATUREABILITYTYPEFLOURISH360ACW => "CREATURE_ABILITY_TYPE_FLOURISH_360_ACW"@,
            CreatureAbility::CREATUREABILITYTYPEFLOURISHUPTHRUSTLEFT => "CREATURE_ABILITY_TYPE_FLOURISH_UPTHRUST_LEFT"@,
            CreatureAbility::CREATUREABILITYTYPEFLOURISHUPTHRUSTRIGHT => "CREATURE_ABILITY_TYPE_FLOURISH_UPTHRUST_RIGHT"@,
            CreatureAbility::CREATUREABILITYTYPEFLOURISHMAXIMUMDAMAGE => "CREATURE_ABILITY_TYPE_FLOURISH_MAXIMUM_DAMAGE"@,
            CreatureAbility::CREATUREABILITYTYPEBREAKBLOCK => "CREATURE_ABILITY_TYPE_BREAK_BLOCK"@,
            CreatureAbility::MAXNUMBEROFCREATUREABILITIES => "MAX_NUMBER_OF_CREATURE_ABILITIES"@,
        }
    }

    /// The first variant whose symbol is `s`, if any.
    pub open spec fn symbol_lookup(s: Seq<char>) -> Option<Self> {
        if s == "CREATURE_ABILITY_TYPE_ATTACK"@ {
            Some(CreatureAbility::CREATUREABILITYTYPEATTACK)
        } else if s == "CREATURE_ABILITY_TYPE_FLOURISH"@ {
            Some(CreatureAbility::CREATUREABILITYTYPEFLOURISH)
        } else if s == "CREATURE_ABILITY_TYPE_FLOURISH_360_CW"@ {
            Some(CreatureAbility::CREATUREABILITYTYPEFLOURISH360CW)
        } else if s == "CREATURE_ABILITY_TYPE_FLOURISH_360_ACW"@ {
            Some(CreatureAbility::CREATUREABILITYTYPEFLOURISH360ACW)
        } else if s == "CREATURE_ABILITY_TYPE_FLOURISH_UPTHRUST_LEFT"@ {
            Some(CreatureAbility::CREATUREABILITYTYPEFLOURISHUPTHRUSTLEFT)
        } else if s == "CREATURE_ABILITY_TYPE_FLOURISH_UPTHRUST_RIGHT"@ {
            Some(CreatureAbility::CREATUREABILITYTYPEFLOURISHUPTHRUSTRIGHT)
        } else if s == "CREATURE_ABILITY_TYPE_FLOURISH_MAXIMUM_DAMAGE"@ {
            Some(CreatureAbility::CREATUREABILITYTYPEFLOURISHMAXIMUMDAMAGE)
        } else if s == "CREATURE_ABILITY_TYPE_BREAK_BLOCK"@ {
            Some(CreatureAbility::CREATUREABILITYTYPEBREAKBLOCK)
        } else if s == "MAX_NUMBER_OF_CREATURE_ABILITIES"@ {
            Some(CreatureAbility::MAXNUMBEROFCREATUREABILITIES)
        } else {
            None
        }
    }

    /// The C++ enumerator symbol text defs use for `self`.
    pub fn symbol(self) -> (r: &'static str)
        ensures
            r@ == self.symbol_of(),
    {
        match self {
            CreatureAbility::CREATUREABILITYTYPEATTACK => "CREATURE_ABILITY_TYPE_ATTACK",
            CreatureAbility::CREATUREABILITYTYPEFLOURISH => "CREATURE_ABILITY_TYPE_FLOURISH",
            CreatureAbility::CREATUREABILITYTYPEFLOURISH360CW => "CREATURE_ABILITY_TYPE_FLOURISH_360_CW",
            CreatureAbility::CREATUREABILITYTYPEFLOURISH360ACW => "CREATURE_ABILITY_TYPE_FLOURISH_360_ACW",
            CreatureAbility::CREATUREABILITYTYPEFLOURISHUPTHRUSTLEFT => "CREATURE_ABILITY_TYPE_FLOURISH_UPTHRUST_LEFT",
            CreatureAbility::CREATUREABILITYTYPEFLOURISHUPTHRUSTRIGHT => "CREATURE_ABILITY_TYPE_FLOURISH_UPTHRUST_RIGHT",
            CreatureAbility::CREATUREABILITYTYPEFLOURISHMAXIMUMDAMAGE => "CREATURE_ABILITY_TYPE_FLOURISH_MAXIMUM_DAMAGE",
            CreatureAbility::CREATUREABILITYTYPEBREAKBLOCK => "CREATURE_ABILITY_TYPE_BREAK_BLOCK",
            CreatureAbility::MAXNUMBEROFCREATUREABILITIES => "MAX_NUMBER_OF_CREATURE_ABILITIES",
        }
    }

    /// The variant a C++ enumerator symbol names.
    pub fn from_symbol(s: &str) -> (r: Option<Self>)
        ensures
            r == Self::symbol_lookup(s@),
    {
        if str_eq(s, "CREATURE_ABILITY_TYPE_ATTACK") {
            return Some(CreatureAbility::CREATUREABILITYTYPEATTACK);
        }
        if str_eq(s, "CREATURE_ABILITY_TYPE_FLOURISH") {
            return Some(CreatureAbility::CREATUREABILITYTYPEFLOURISH);
        }
        if str_eq(s, "CREATURE_ABILITY_TYPE_FLOURISH_360_CW") {
            return Some(CreatureAbility::CREATUREABILITYTYPEFLOURISH360CW);
        }
        if str_eq(s, "CREATURE_ABILITY_TYPE_FLOURISH_360_ACW") {
            return Some(CreatureAbility::CREATUREABILITYTYPEFLOURISH360ACW);
        }
        if str_eq(s, "CREATURE_ABILITY_TYPE_FLOURISH_UPTHRUST_LEFT") {
            return Some(CreatureAbility::CREATUREABILITYTYPEFLOURISHUPTHRUSTLEFT);
        }
        if str_eq(s, "CREATURE_ABILITY_TYPE_FLOURISH_UPTHRUST_RIGHT") {
            return Some(CreatureAbility::CREATUREABILITYTYPEFLOURISHUPTHRUSTRIGHT);
        }
        if str_eq(s, "CREATURE_ABILITY_TYPE_FLOURISH_MAXIMUM_DAMAGE") {
            return Some(CreatureAbility::CREATUREABILITYTYPEFLOURISHMAXIMUMDAMAGE);
        }
        if str_eq(s, "CREATURE_ABILITY_TYPE_BREAK_BLOCK") {
            return Some(CreatureAbility::CREATUREABILITYTYPEBREAKBLOCK);
        }
        if str_eq(s, "MAX_NUMBER_OF_CREATURE_ABILITIES") {
            return Some(CreatureAbility::MAXNUMBEROFCREATUREABILITIES);
        }
        None
    }
}

#[derive(Debug, Clone, Copy, PartialEq, Eq, Structural, PartialOrd, Ord, Hash)]
pub enum CreatureGeneratorGenerateType {
    NORMAL,
    AMBUSHDROPIN,
    AMBUSHJUMPOUT,
    GENERATORANIMATION,
    UNDEAD,
}

impl DefEnum for CreatureGeneratorGenerateType {
    open spec fn wire_value(self) -> i32 {
        match self {
            CreatureGeneratorGenerateType::NORMAL => 0i32,
            CreatureGeneratorGenerateType::AMBUSHDROPIN => 1i32,
            CreatureGeneratorGenerateType::AMBUSHJUMPOUT => 2i32,
            CreatureGeneratorGenerateType::GENERATORANIMATION => 3i32,
            CreatureGeneratorGenerateType::UNDEAD => 4i32,
        }
    }

    open spec fn lookup(value: i32) -> Option<Self> {
        match value {
            0i32 => Some(CreatureGeneratorGenerateType::NORMAL),
            1i32 => Some(CreatureGeneratorGenerateType::AMBUSHDROPIN),
            2i32 => Some(CreatureGeneratorGenerateType::AMBUSHJUMPOUT),
            3i32 => Some(CreatureGeneratorGenerateType::GENERATORANIMATION),
            4i32 => Some(CreatureGeneratorGenerateType::UNDEAD),
            _ => None,
        }
    }

    fn from_i32(value: i32) -> (r: Option<Self>) {
        match value {
            0i32 => Some(CreatureGeneratorGenerateType::NORMAL),
            1i32 => Some(CreatureGeneratorGenerateType::AMBUSHDROPIN),
            2i32 => Some(CreatureGeneratorGenerateType::AMBUSHJUMPOUT),
            3i32 => Some(CreatureGeneratorGenerateType::GENERATORANIMATION),
            4i32 => Some(CreatureGeneratorGenerateType::UNDEAD),
            _ => None,
        }
    }

    fn to_i32(self) -> (r: i32) {
        match self {
            CreatureGeneratorGenerateType::NORMAL => 0i32,
            CreatureGeneratorGenerateType::AMBUSHDROPIN => 1i32,
            CreatureGeneratorGenerateType::AMBUSHJUMPOUT => 2i32,
            CreatureGeneratorGenerateType::GENERATORANIMATION => 3i32,
            CreatureGeneratorGenerateType::UNDEAD => 4i32,
        }
    }

    proof fn lemma_lookup_wire_value(e: Self) {
    }
}

impl CreatureGeneratorGenerateType {
    /// The C++ enumerator symbol of `self`.
    pub open spec fn symbol_of(self) -> Seq<char> {
        match self {
            CreatureGeneratorGenerateType::NORMAL => "GENERATE_NORMAL"@,
            CreatureGeneratorGenerateType::AMBUSHDROPIN => "GENERATE_AMBUSH_DROP_IN"@,
            CreatureGeneratorGenerateType::AMBUSHJUMPOUT => "GENERATE_AMBUSH_JUMP_OUT"@,
            CreatureGeneratorGenerateType::GENERATORANIMATION => "GENERATE_GENERATOR_ANIMATION"@,
            CreatureGeneratorGenerateType::UNDEAD => "GENERATE_UNDEAD"@,
        }
    }

    /// The first variant whose symbol is `s`, if any.
    pub open spec fn symbol_lookup(s: Seq<char>) -> Option<Self> {
        if s == "GENERATE_NORMAL"@ {
            Some(CreatureGeneratorGenerateType::NORMAL)
        } else if s == "GENERATE_AMBUSH_DROP_IN"@ {
            Some(CreatureGeneratorGenerateType::AMBUSHDROPIN)
        } else if s == "GENERATE_AMBUSH_JUMP_OUT"@ {
            Some(CreatureGeneratorGenerateType::AMBUSHJUMPOUT)
        } else if s == "GENERATE_GENERATOR_ANIMATION"@ {
            Some(CreatureGeneratorGenerateType::GENERATORANIMATION)
        } else if s == "GENERATE_UNDEAD"@ {
            Some(CreatureGeneratorGenerateType::UNDEAD)
        } else {
            None
        }
    }

    /// The C++ enumerator symbol text defs use for `self`.
    pub fn symbol(self) -> (r: &'static str)
        ensures
            r@ == self.symbol_of(),
    {
        match self {
            CreatureGeneratorGenerateType::NORMAL => "GENERATE_NORMAL",
            CreatureGeneratorGenerateType::AMBUSHDROPIN => "GENERATE_AMBUSH_DROP_IN",
            CreatureGeneratorGenerateType::AMBUSHJUMPOUT => "GENERATE_AMBUSH_JUMP_OUT",
            CreatureGeneratorGenerateType::GENERATORANIMATION => "GENERATE_GENERATOR_ANIMATION",
            CreatureGeneratorGenerateType::UNDEAD => "GENERATE_UNDEAD",
        }
    }

    /// The variant a C++ enumerator symbol names.
    pub fn from_symbol(s: &str) -> (r: Option<Self>)
        ensures
            r == Self::symbol_lookup(s@),
    {
        if str_eq(s, "GENERATE_NORMAL") {
            return Some(CreatureGeneratorGenerateType::NORMAL);
        }
        if str_eq(s, "GENERATE_AMBUSH_DROP_IN") {
            return Some(CreatureGeneratorGenerateType::AMBUSHDROPIN);
        }
        if str_eq(s, "GENERATE_AMBUSH_JUMP_OUT") {
            return Some(CreatureGeneratorGenerateType::AMBUSHJUMPOUT);
        }
        if str_eq(s, "GENERATE_GENERATOR_ANIMATION") {
            return Some(CreatureGeneratorGenerateType::GENERATORANIMATION);
        }
        if str_eq(s, "GENERATE_UNDEAD") {
            return Some(CreatureGeneratorGenerateType::UNDEAD);
        }
        None
    }
}

#[derive(Debug, Clone, Copy, PartialEq, Eq, Structural, PartialOrd, Ord, Hash, Default)]
pub struct CreatureInteractionType(pub i32);

impl CreatureInteractionType {
    /// The bits of `CREATURE_INTERACTION_NULL`.
    pub const NULL: i32 = 0i32;
    /// The bits of `CREATURE_INTERACTION_CONVERSATION`.
    pub const CONVERSATION: i32 = 1i32;
    /// The bits of `CREATURE_INTERACTION_TAG`.
    pub const TAG: i32 = 2i32;
    /// The bits of `CREATURE_INTERACTION_MULTI_TAG`.
    pub const MULTI_TAG: i32 = 4i32;
    /// The bits of `CREATURE_INTERACTION_PURCHASING`.
    pub const PURCHASING: i32 = 8i32;

    /// The flag a C++ enumerator symbol names, if any.
    pub open spec fn symbol_lookup(s: Seq<char>) -> Option<Self> {
        if s == "CREATURE_INTERACTION_NULL"@ {
            Some(CreatureInteractionType(0i32))
        } else if s == "CREATURE_INTERACTION_CONVERSATION"@ {
            Some(CreatureInteractionType(1i32))
        } else if s == "CREATURE_INTERACTION_TAG"@ {
            Some(CreatureInteractionType(2i32))
        } else if s == "CREATURE_INTERACTION_MULTI_TAG"@ {
            Some(CreatureInteractionType(4i32))
        } else if s == "CREATURE_INTERACTION_PURCHASING"@ {
            Some(CreatureInteractionType(8i32))
        } else {
            None
        }
    }

    /// The set holding exactly the bits of `value` (lossless).
    pub fn from_i32(value: i32) -> (r: Self)
        ensures
            r.0 == value,
    {
        CreatureInteractionType(value)
    }

    pub fn to_i32(self) -> (r: i32)
        ensures
            r == self.0,
    {
        self.0
    }

    /// Whether every bit of `other` is set in `self`.
    pub fn contains(self, other: Self) -> (r: bool)
        ensures
            r == (self.0 & other.0 == other.0),
    {
        self.0 & other.0 == other.0
    }

    /// Whether no bit is set.
    pub fn is_empty(self) -> (r: bool)
        ensures
            r == (self.0 == 0),
    {
        self.0 == 0
    }

    /// The bits set in either.
    pub fn union(self, other: Self) -> (r: Self)
        ensures
            r.0 == self.0 | other.0,
    {
        CreatureInteractionType(self.0 | other.0)
    }

    /// The flag a C++ enumerator symbol names.
    pub fn from_symbol(s: &str) -> (r: Option<Self>)
        ensures
            r == Self::symbol_lookup(s@),
    {
        if str_eq(s, "CREATURE_INTERACTION_NULL") {
            return Some(CreatureInteractionType(0i32));
        }
        if str_eq(s, "CREATURE_INTERACTION_CONVERSATION") {
            return Some(CreatureInteractionType(1i32));
        }
        if str_eq(s, "CREATURE_INTERACTION_TAG") {
            return Some(CreatureInteractionType(2i32));
        }
        if str_eq(s, "CREATURE_INTERACTION_MULTI_TAG") {
            return Some(CreatureInteractionType(4i32));
        }
        if str_eq(s, "CREATURE_INTERACTION_PURCHASING") {
            return Some(CreatureInteractionType(8i32));
        }
        None
    }
}

impl core::ops::BitOr for CreatureInteractionType {
    type Output = CreatureInteractionType;

    fn bitor(self, rhs: CreatureInteractionType) -> (r: CreatureInteractionType) {
        CreatureInteractionType(self.0 | rhs.0)
    }
}

impl vstd::std_specs::ops::BitOrSpecImpl for CreatureInteractionType {
    open spec fn obeys_bitor_spec() -> bool {
        true
    }

    open spec fn bitor_req(self, rhs: CreatureInteractionType) -> bool {
        true
    }

    open spec fn bitor_spec(self, rhs: CreatureInteractionType) -> CreatureInteractionType {
        CreatureInteractionType(self.0 | rhs.0)
    }
}

#[derive(Debug, Clone, Copy, PartialEq, Eq, Structural, PartialOrd, Ord, Hash)]
pub enum CreatureType {
    NOTHUMAN,
    HUMANCHILD,
    HUMANADULT,
    HUMANELDERLY,
}

impl DefEnum for CreatureType {
    open spec fn wire_value(self) -> i32 {
        match self {
            CreatureType::NOTHUMAN => 0i32,
            CreatureType::HUMANCHILD => 1i32,
            CreatureType::HUMANADULT => 2i32,
            CreatureType::HUMANELDERLY => 3i32,
        }
    }

    open spec fn lookup(value: i32) -> Option<Self> {
        match value {
            0i32 => Some(CreatureType::NOTHUMAN),
            1i32 => Some(CreatureType::HUMANCHILD),
            2i32 => Some(CreatureType::HUMANADULT),
            3i32 => Some(CreatureType::HUMANELDERLY),
            _ => None,
        }
    }

    fn from_i32(value: i32) -> (r: Option<Self>) {
        match value {
            0i32 => Some(CreatureType::NOTHUMAN),
            1i32 => Some(CreatureType::HUMANCHILD),
            2i32 => Some(CreatureType::HUMANADULT),
            3i32 => Some(CreatureType::HUMANELDERLY),
            _ => None,
        }
    }

    fn to_i32(self) -> (r: i32) {
        match self {
            CreatureType::NOTHUMAN => 0i32,
            CreatureType::HUMANCHILD => 1i32,
            CreatureType::HUMANADULT => 2i32,
            CreatureType::HUMANELDERLY => 3i32,
        }
    }

    proof fn lemma_lookup_wire_value(e: Self) {
    }
}

impl CreatureType {
    /// The C++ enumerator symbol of `self`.
    pub open spec fn symbol_of(self) -> Seq<char> {
        match self {
            CreatureType::NOTHUMAN => "NOT_HUMAN"@,
            CreatureType::HUMANCHILD => "HUMAN_CHILD"@,
            CreatureType::HUMANADULT => "HUMAN_ADULT"@,
            CreatureType::HUMANELDERLY => "HUMAN_ELDERLY"@,
        }
    }

    /// The first variant whose symbol is `s`, if any.
    pub open spec fn symbol_lookup(s: Seq<char>) -> Option<Self> {
        if s == "NOT_HUMAN"@ {
            Some(CreatureType::NOTHUMAN)
        } else if s == "HUMAN_CHILD"@ {
            Some(CreatureType::HUMANCHILD)
        } else if s == "HUMAN_ADULT"@ {
            Some(CreatureType::HUMANADULT)
        } else if s == "HUMAN_ELDERLY"@ {
            Some(CreatureType::HUMANELDERLY)
        } else {
            None
        }
    }

    /// The C++ enumerator symbol text defs use for `self`.
    pub fn symbol(self) -> (r: &'static str)
        ensures
            r@ == self.symbol_of(),
    {
        match self {
            CreatureType::NOTHUMAN => "NOT_HUMAN",
            CreatureType::HUMANCHILD => "HUMAN_CHILD",
            CreatureType::HUMANADULT => "HUMAN_ADULT",
            CreatureType::HUMANELDERLY => "HUMAN_ELDERLY",
        }
    }

    /// The variant a C++ enumerator symbol names.
    pub fn from_symbol(s: &str) -> (r: Option<Self>)
        ensures
            r == Self::symbol_lookup(s@),
    {
        if str_eq(s, "NOT_HUMAN") {
            return Some(CreatureType::NOTHUMAN);
        }
        if str_eq(s, "HUMAN_CHILD") {
            return Some(CreatureType::HUMANCHILD);
        }
        if str_eq(s, "HUMAN_ADULT") {
            return Some(CreatureType::HUMANADULT);
        }
        if str_eq(s, "HUMAN_ELDERLY") {
            return Some(CreatureType::HUMANELDERLY);
        }
        None
    }
}

#[derive(Debug, Clone, Copy, PartialEq, Eq, Structural, PartialOrd, Ord, Hash)]
pub enum CrimeSeverity {
    NONE,
    MINOR,
    MODERATE,
    SERIOUS,
}

impl DefEnum for CrimeSeverity {
    open spec fn wire_value(self) -> i32 {
        match self {
            CrimeSeverity::NONE => 0i32,
            CrimeSeverity::MINOR => 1i32,
            CrimeSeverity::MODERATE => 2i32,
            CrimeSeverity::SERIOUS => 3i32,
        }
    }

    open spec fn lookup(value: i32) -> Option<Self> {
        match value {
            0i32 => Some(CrimeSeverity::NONE),
            1i32 => Some(CrimeSeverity::MINOR),
            2i32 => Some(CrimeSeverity::MODERATE),
            3i32 => Some(CrimeSeverity::SERIOUS),
            _ => None,
        }
    }

    fn from_i32(value: i32) -> (r: Option<Self>) {
        match value {
            0i32 => Some(CrimeSeverity::NONE),
            1i32 => Some(CrimeSeverity::MINOR),
            2i32 => Some(CrimeSeverity::MODERATE),
            3i32 => Some(CrimeSeverity::SERIOUS),
            _ => None,
        }
    }

    fn to_i32(self) -> (r: i32) {
        match self {
            CrimeSeverity::NONE => 0i32,
            CrimeSeverity::MINOR => 1i32,
            CrimeSeverity::MODERATE => 2i32,
            CrimeSeverity::SERIOUS => 3i32,
        }
    }

    proof fn lemma_lookup_wire_value(e: Self) {
    }
}

impl CrimeSeverity {
    /// The C++ enumerator symbol of `self`.
    pub open spec fn symbol_of(self) -> Seq<char> {
        match self {
            CrimeSeverity::NONE => "CRIME_SEVERITY_NONE"@,
            CrimeSeverity::MINOR => "CRIME_SEVERITY_MINOR"@,
            CrimeSeverity::MODERATE => "CRIME_SEVERITY_MODERATE"@,
            CrimeSeverity::SERIOUS => "CRIME_SEVERITY_SERIOUS"@,
        }
    }

    /// The first variant whose symbol is `s`, if any.
    pub open spec fn symbol_lookup(s: Seq<char>) -> Option<Self> {
        if s == "CRIME_SEVERITY_NONE"@ {
            Some(CrimeSeverity::NONE)
        } else if s == "CRIME_SEVERITY_MINOR"@ {
            Some(CrimeSeverity::MINOR)
        } else if s == "CRIME_SEVERITY_MODERATE"@ {
            Some(CrimeSeverity::MODERATE)
        } else if s == "CRIME_SEVERITY_SERIOUS"@ {
            Some(CrimeSeverity::SERIOUS)
        } else {
            None
        }
    }

    /// The C++ enumerator symbol text defs use for `self`.
    pub fn symbol(self) -> (r: &'static str)
        ensures
            r@ == self.symbol_of(),
    {
        match self {
            CrimeSeverity::NONE => "CRIME_SEVERITY_NONE",
            CrimeSeverity::MINOR => "CRIME_SEVERITY_MINOR",
            CrimeSeverity::MODERATE => "CRIME_SEVERITY_MODERATE",
            CrimeSeverity::SERIOUS => "CRIME_SEVERITY_SERIOUS",
        }
    }

    /// The variant a C++ enumerator symbol names.
    pub fn from_symbol(s: &str) -> (r: Option<Self>)
        ensures
            r == Self::symbol_lookup(s@),
    {
        if str_eq(s, "CRIME_SEVERITY_NONE") {
            return Some(CrimeSeverity::NONE);
        }
        if str_eq(s, "CRIME_SEVERITY_MINOR") {
            return Some(CrimeSeverity::MINOR);
        }
        if str_eq(s, "CRIME_SEVERITY_MODERATE") {
            return Some(CrimeSeverity::MODERATE);
        }
        if str_eq(s, "CRIME_SEVERITY_SERIOUS") {
            return Some(CrimeSeverity::SERIOUS);
        }
        None
    }
}

#[derive(Debug, Clone, Copy, PartialEq, Eq, Structural, PartialOrd, Ord, Hash)]
pub enum DamageAttribute {
    NULL,
    MELEE,
    MELEEUNARMED,
    LIGHTNING,
    FIRE,
    PROJECTILE,
    EXPLOSION,
    DRAIN,
    DRAINHEAL,
    GENERICWILL,
    DIVINEWRATH,
    UNHOLYPOWER,
}

impl DefEnum for DamageAttribute {
    open spec fn wire_value(self) -> i32 {
        match self {
            DamageAttribute::NULL => -1i32,
            DamageAttribute::MELEE => 0i32,
            DamageAttribute::MELEEUNARMED => 1i32,
            DamageAttribute::LIGHTNING => 2i32,
            DamageAttribute::FIRE => 3i32,
            DamageAttribute::PROJECTILE => 4i32,
            DamageAttribute::EXPLOSION => 5i32,
            DamageAttribute::DRAIN => 6i32,
            DamageAttribute::DRAINHEAL => 7i32,
            DamageAttribute::GENERICWILL => 8i32,
            DamageAttribute::DIVINEWRATH => 9i32,
            DamageAttribute::UNHOLYPOWER => 10i32,
        }
    }

    open spec fn lookup(value: i32) -> Option<Self> {
        match value {
            -1i32 => Some(DamageAttribute::NULL),
            0i32 => Some(DamageAttribute::MELEE),
            1i32 => Some(DamageAttribute::MELEEUNARMED),
            2i32 => Some(DamageAttribute::LIGHTNING),
            3i32 => Some(DamageAttribute::FIRE),
            4i32 => Some(DamageAttribute::PROJECTILE),
            5i32 => Some(DamageAttribute::EXPLOSION),
            6i32 => Some(DamageAttribute::DRAIN),
            7i32 => Some(DamageAttribute::DRAINHEAL),
            8i32 => Some(DamageAttribute::GENERICWILL),
            9i32 => Some(DamageAttribute::DIVINEWRATH),
            10i32 => Some(DamageAttribute::UNHOLYPOWER),
            _ => None,
        }
    }

    fn from_i32(value: i32) -> (r: Option<Self>) {
        match value {
            -1i32 => Some(DamageAttribute::NULL),
            0i32 => Some(DamageAttribute::MELEE),
            1i32 => Some(DamageAttribute::MELEEUNARMED),
            2i32 => Some(DamageAttribute::LIGHTNING),
            3i32 => Some(DamageAttribute::FIRE),
            4i32 => Some(DamageAttribute::PROJECTILE),
            5i32 => Some(DamageAttribute::EXPLOSION),
            6i32 => Some(DamageAttribute::DRAIN),
            7i32 => Some(DamageAttribute::DRAINHEAL),
            8i32 => Some(DamageAttribute::GENERICWILL),
            9i32 => Some(DamageAttribute::DIVINEWRATH),
            10i32 => Some(DamageAttribute::UNHOLYPOWER),
            _ => None,
        }
    }

    fn to_i32(self) -> (r: i32) {
        match self {
            DamageAttribute::NULL => -1i32,
            DamageAttribute::MELEE => 0i32,
            DamageAttribute::MELEEUNARMED => 1i32,
            DamageAttribute::LIGHTNING => 2i32,
            DamageAttribute::FIRE => 3i32,
            DamageAttribute::PROJECTILE => 4i32,
            DamageAttribute::EXPLOSION => 5i32,
            DamageAttribute::DRAIN => 6i32,
            DamageAttribute::DRAINHEAL => 7i32,
            DamageAttribute::GENERICWILL => 8i32,
            DamageAttribute::DIVINEWRATH => 9i32,
            DamageAttribute::UNHOLYPOWER => 10i32,
        }
    }

    proof fn lemma_lookup_wire_value(e: Self) {
    }
}

impl DamageAttribute {
    /// The C++ enumerator symbol of `self`.
    pub open spec fn symbol_of(self) -> Seq<char> {
        match self {
            DamageAttribute::NULL => "DAMAGE_NULL"@,
            DamageAttribute::MELEE => "DAMAGE_MELEE"@,
            DamageAttribute::MELEEUNARMED => "DAMAGE_MELEE_UNARMED"@,
            DamageAttribute::LIGHTNING => "DAMAGE_LIGHTNING"@,
            DamageAttribute::FIRE => "DAMAGE_FIRE"@,
            DamageAttribute::PROJECTILE => "DAMAGE_PROJECTILE"@,
            DamageAttribute::EXPLOSION => "DAMAGE_EXPLOSION"@,
            DamageAttribute::DRAIN => "DAMAGE_DRAIN"@,
            DamageAttribute::DRAINHEAL => "DAMAGE_DRAIN_HEAL"@,
            DamageAttribute::GENERICWILL => "DAMAGE_GENERIC_WILL"@,
            DamageAttribute::DIVINEWRATH => "DAMAGE_DIVINE_WRATH"@,
            DamageAttribute::UNHOLYPOWER => "DAMAGE_UNHOLY_POWER"@,
        }
    }

    /// The first variant whose symbol is `s`, if any.
    pub open spec fn symbol_lookup(s: Seq<char>) -> Option<Self> {
        if s == "DAMAGE_NULL"@ {
            Some(DamageAttribute::NULL)
        } else if s == "DAMAGE_MELEE"@ {
            Some(DamageAttribute::MELEE)
        } else if s == "DAMAGE_MELEE_UNARMED"@ {
            Some(DamageAttribute::MELEEUNARMED)
        } else if s == "DAMAGE_LIGHTNING"@ {
            Some(DamageAttribute::LIGHTNING)
        } else if s == "DAMAGE_FIRE"@ {
            Some(DamageAttribute::FIRE)
        } else if s == "DAMAGE_PROJECTILE"@ {
            Some(DamageAttribute::PROJECTILE)
        } else if s == "DAMAGE_EXPLOSION"@ {
            Some(DamageAttribute::EXPLOSION)
        } else if s == "DAMAGE_DRAIN"@ {
            Some(DamageAttribute::DRAIN)
        } else if s == "DAMAGE_DRAIN_HEAL"@ {
            Some(DamageAttribute::DRAINHEAL)
        } else if s == "DAMAGE_GENERIC_WILL"@ {
            Some(DamageAttribute::GENERICWILL)
        } else if s == "DAMAGE_DIVINE_WRATH"@ {
            Some(DamageAttribute::DIVINEWRATH)
        } else if s == "DAMAGE_UNHOLY_POWER"@ {
            Some(DamageAttribute::UNHOLYPOWER)
        } else {
            None
        }
    }

    /// The C++ enumerator symbol text defs use for `self`.
    pub fn symbol(self) -> (r: &'static str)
        ensures
            r@ == self.symbol_of(),
    {
        match self {
            DamageAttribute::NULL => "DAMAGE_NULL",
            DamageAttribute::MELEE => "DAMAGE_MELEE",
            DamageAttribute::MELEEUNARMED => "DAMAGE_MELEE_UNARMED",
            DamageAttribute::LIGHTNING => "DAMAGE_LIGHTNING",
            DamageAttribute::FIRE => "DAMAGE_FIRE",
            DamageAttribute::PROJECTILE => "DAMAGE_PROJECTILE",
            DamageAttribute::EXPLOSION => "DAMAGE_EXPLOSION",
            DamageAttribute::DRAIN => "DAMAGE_DRAIN",
            DamageAttribute::DRAINHEAL => "DAMAGE_DRAIN_HEAL",
            DamageAttribute::GENERICWILL => "DAMAGE_GENERIC_WILL",
            DamageAttribute::DIVINEWRATH => "DAMAGE_DIVINE_WRATH",
            DamageAttribute::UNHOLYPOWER => "DAMAGE_UNHOLY_POWER",
        }
    }

    /// The variant a C++ enumerator symbol names.
    pub fn from_symbol(s: &str) -> (r: Option<Self>)
        ensures
            r == Self::symbol_lookup(s@),
    {
        if str_eq(s, "DAMAGE_NULL") {
            return Some(DamageAttribute::NULL);
        }
        if str_eq(s, "DAMAGE_MELEE") {
            return Some(DamageAttribute::MELEE);
        }
        if str_eq(s, "DAMAGE_MELEE_UNARMED") {
            return Some(DamageAttribute::MELEEUNARMED);
        }
        if str_eq(s, "DAMAGE_LIGHTNING") {
            return Some(DamageAttribute::LIGHTNING);
        }
        if str_eq(s, "DAMAGE_FIRE") {
            return Some(DamageAttribute::FIRE);
        }
        if str_eq(s, "DAMAGE_PROJECTILE") {
            return Some(DamageAttribute::PROJECTILE);
        }
        if str_eq(s, "DAMAGE_EXPLOSION") {
            return Some(DamageAttribute::EXPLOSION);
        }
        if str_eq(s, "DAMAGE_DRAIN") {
            return Some(DamageAttribute::DRAIN);
        }
        if str_eq(s, "DAMAGE_DRAIN_HEAL") {
            return Some(DamageAttribute::DRAINHEAL);
        }
        if str_eq(s, "DAMAGE_GENERIC_WILL") {
            return Some(DamageAttribute::GENERICWILL);
        }
        if str_eq(s, "DAMAGE_DIVINE_WRATH") {
            return Some(DamageAttribute::DIVINEWRATH);
        }
        if str_eq(s, "DAMAGE_UNHOLY_POWER") {
            return Some(DamageAttribute::UNHOLYPOWER);
        }
        None
    }
}

#[derive(Debug, Clone, Copy, PartialEq, Eq, Structural, PartialOrd, Ord, Hash)]
pub enum DoorTriggerType {
    ONPERSON,
    MANUAL,
}

impl DefEnum for DoorTriggerType {
    open spec fn wire_value(self) -> i32 {
        match self {
            DoorTriggerType::ONPERSON => 0i32,
            DoorTriggerType::MANUAL => 1i32,
        }
    }

    open spec fn lookup(value: i32) -> Option<Self> {
        match value {
            0i32 => Some(DoorTriggerType::ONPERSON),
            1i32 => Some(DoorTriggerType::MANUAL),
            _ => None,
        }
    }

    fn from_i32(value: i32) -> (r: Option<Self>) {
        match value {
            0i32 => Some(DoorTriggerType::ONPERSON),
            1i32 => Some(DoorTriggerType::MANUAL),
            _ => None,
        }
    }

    fn to_i32(self) -> (r: i32) {
        match self {
            DoorTriggerType::ONPERSON => 0i32,
            DoorTriggerType::MANUAL => 1i32,
        }
    }

    proof fn lemma_lookup_wire_value(e: Self) {
    }
}

impl DoorTriggerType {
    /// The C++ enumerator symbol of `self`.
    pub open spec fn symbol_of(self) -> Seq<char> {
        match self {
            DoorTriggerType::ONPERSON => "DOOR_TRIGGER_ON_PERSON"@,
            DoorTriggerType::MANUAL => "DOOR_TRIGGER_MANUAL"@,
        }
    }

    /// The first variant whose symbol is `s`, if any.
    pub open spec fn symbol_lookup(s: Seq<char>) -> Option<Self> {
        if s == "DOOR_TRIGGER_ON_PERSON"@ {
            Some(DoorTriggerType::ONPERSON)
        } else if s == "DOOR_TRIGGER_MANUAL"@ {
            Some(DoorTriggerType::MANUAL)
        } else {
            None
        }
    }

    /// The C++ enumerator symbol text defs use for `self`.
    pub fn symbol(self) -> (r: &'static str)
        ensures
            r@ == self.symbol_of(),
    {
        match self {
            DoorTriggerType::ONPERSON => "DOOR_TRIGGER_ON_PERSON",
            DoorTriggerType::MANUAL => "DOOR_TRIGGER_MANUAL",
        }
    }

    /// The variant a C++ enumerator symbol names.
    pub fn from_symbol(s: &str) -> (r: Option<Self>)
        ensures
            r == Self::symbol_lookup(s@),
    {
        if str_eq(s, "DOOR_TRIGGER_ON_PERSON") {
            return Some(DoorTriggerType::ONPERSON);
        }
        if str_eq(s, "DOOR_TRIGGER_MANUAL") {
            return Some(DoorTriggerType::MANUAL);
        }
        None
    }
}

#[derive(Debug, Clone, Copy, PartialEq, Eq, Structural, PartialOrd, Ord, Hash)]
pub enum ExpressionInventoryType {
    EXPRESSIONINVENTORYSOCIAL,
    EXPRESSIONINVENTORYRENOWN,
    EXPRESSIONINVENTORYALIGNMENT,
    EXPRESSIONINVENTORYSTEALTH,
    NUMINVENTORYEXPRESSIONS,
}

impl DefEnum for ExpressionInventoryType {
    open spec fn wire_value(self) -> i32 {
        match self {
            ExpressionInventoryType::EXPRESSIONINVENTORYSOCIAL => 0i32,
            ExpressionInventoryType::EXPRESSIONINVENTORYRENOWN => 1i32,
            ExpressionInventoryType::EXPRESSIONINVENTORYALIGNMENT => 2i32,
            ExpressionInventoryType::EXPRESSIONINVENTORYSTEALTH => 3i32,
            ExpressionInventoryType::NUMINVENTORYEXPRESSIONS => 4i32,
        }
    }

    open spec fn lookup(value: i32) -> Option<Self> {
        match value {
            0i32 => Some(ExpressionInventoryType::EXPRESSIONINVENTORYSOCIAL),
            1i32 => Some(ExpressionInventoryType::EXPRESSIONINVENTORYRENOWN),
            2i32 => Some(ExpressionInventoryType::EXPRESSIONINVENTORYALIGNMENT),
            3i32 => Some(ExpressionInventoryType::EXPRESSIONINVENTORYSTEALTH),
            4i32 => Some(ExpressionInventoryType::NUMINVENTORYEXPRESSIONS),
            _ => None,
        }
    }

    fn from_i32(value: i32) -> (r: Option<Self>) {
        match value {
            0i32 => Some(ExpressionInventoryType::EXPRESSIONINVENTORYSOCIAL),
            1i32 => Some(ExpressionInventoryType::EXPRESSIONINVENTORYRENOWN),
            2i32 => Some(ExpressionInventoryType::EXPRESSIONINVENTORYALIGNMENT),
            3i32 => Some(ExpressionInventoryType::EXPRESSIONINVENTORYSTEALTH),
            4i32 => Some(ExpressionInventoryType::NUMINVENTORYEXPRESSIONS),
            _ => None,
        }
    }

    fn to_i32(self) -> (r: i32) {
        match self {
            ExpressionInventoryType::EXPRESSIONINVENTORYSOCIAL => 0i32,
            ExpressionInventoryType::EXPRESSIONINVENTORYRENOWN => 1i32,
            ExpressionInventoryType::EXPRESSIONINVENTORYALIGNMENT => 2i32,
            ExpressionInventoryType::EXPRESSIONINVENTORYSTEALTH => 3i32,
            ExpressionInventoryType::NUMINVENTORYEXPRESSIONS => 4i32,
        }
    }

    proof fn lemma_lookup_wire_value(e: Self) {
    }
}

impl ExpressionInventoryType {
    /// The C++ enumerator symbol of `self`.
    pub open spec fn symbol_of(self) -> Seq<char> {
        match self {
            ExpressionInventoryType::EXPRESSIONINVENTORYSOCIAL => "EXPRESSION_INVENTORY_SOCIAL"@,
            ExpressionInventoryType::EXPRESSIONINVENTORYRENOWN => "EXPRESSION_INVENTORY_RENOWN"@,
            ExpressionInventoryType::EXPRESSIONINVENTORYALIGNMENT => "EXPRESSION_INVENTORY_ALIGNMENT"@,
            ExpressionInventoryType::EXPRESSIONINVENTORYSTEALTH => "EXPRESSION_INVENTORY_STEALTH"@,
            ExpressionInventoryType::NUMINVENTORYEXPRESSIONS => "NUM_INVENTORY_EXPRESSIONS"@,
        }
    }

    /// The first variant whose symbol is `s`, if any.
    pub open spec fn symbol_lookup(s: Seq<char>) -> Option<Self> {
        if s == "EXPRESSION_INVENTORY_SOCIAL"@ {
            Some(ExpressionInventoryType::EXPRESSIONINVENTORYSOCIAL)
        } else if s == "EXPRESSION_INVENTORY_RENOWN"@ {
            Some(ExpressionInventoryType::EXPRESSIONINVENTORYRENOWN)
        } else if s == "EXPRESSION_INVENTORY_ALIGNMENT"@ {
            Some(ExpressionInventoryType::EXPRESSIONINVENTORYALIGNMENT)
        } else if s == "EXPRESSION_INVENTORY_STEALTH"@ {
            Some(ExpressionInventoryType::EXPRESSIONINVENTORYSTEALTH)
        } else if s == "NUM_INVENTORY_EXPRESSIONS"@ {
            Some(ExpressionInventoryType::NUMINVENTORYEXPRESSIONS)
        } else {
            None
        }
    }

    /// The C++ enumerator symbol text defs use for `self`.
    pub fn symbol(self) -> (r: &'static str)
        ensures
            r@ == self.symbol_of(),
    {
        match self {
            ExpressionInventoryType::EXPRESSIONINVENTORYSOCIAL => "EXPRESSION_INVENTORY_SOCIAL",
            ExpressionInventoryType::EXPRESSIONINVENTORYRENOWN => "EXPRESSION_INVENTORY_RENOWN",
            ExpressionInventoryType::EXPRESSIONINVENTORYALIGNMENT => "EXPRESSION_INVENTORY_ALIGNMENT",
            ExpressionInventoryType::EXPRESSIONINVENTORYSTEALTH => "EXPRESSION_INVENTORY_STEALTH",
            ExpressionInventoryType::NUMINVENTORYEXPRESSIONS => "NUM_INVENTORY_EXPRESSIONS",
        }
    }

    /// The variant a C++ enumerator symbol names.
    pub fn from_symbol(s: &str) -> (r: Option<Self>)
        ensures
            r == Self::symbol_lookup(s@),
    {
        if str_eq(s, "EXPRESSION_INVENTORY_SOCIAL") {
            return Some(ExpressionInventoryType::EXPRESSIONINVENTORYSOCIAL);
        }
        if str_eq(s, "EXPRESSION_INVENTORY_RENOWN") {
            return Some(ExpressionInventoryType::EXPRESSIONINVENTORYRENOWN);
        }
        if str_eq(s, "EXPRESSION_INVENTORY_ALIGNMENT") {
            return Some(ExpressionInventoryType::EXPRESSIONINVENTORYALIGNMENT);
        }
        if str_eq(s, "EXPRESSION_INVENTORY_STEALTH") {
            return Some(ExpressionInventoryType::EXPRESSIONINVENTORYSTEALTH);
        }
        if str_eq(s, "NUM_INVENTORY_EXPRESSIONS") {
            return Some(ExpressionInventoryType::NUMINVENTORYEXPRESSIONS);
        }
        None
    }
}

#[derive(Debug, Clone, Copy, PartialEq, Eq, Structural, PartialOrd, Ord, Hash)]
pub enum FeatAttackType {
    ANY,
    SWORD,
    BOW,
    HANDS,
    WILL,
}

impl DefEnum for FeatAttackType {
    open spec fn wire_value(self) -> i32 {
        match self {
            FeatAttackType::ANY => 0i32,
            FeatAttackType::SWORD => 1i32,
            FeatAttackType::BOW => 2i32,
            FeatAttackType::HANDS => 3i32,
            FeatAttackType::WILL => 4i32,
        }
    }

    open spec fn lookup(value: i32) -> Option<Self> {
        match value {
            0i32 => Some(FeatAttackType::ANY),
            1i32 => Some(FeatAttackType::SWORD),
            2i32 => Some(FeatAttackType::BOW),
            3i32 => Some(FeatAttackType::HANDS),
            4i32 => Some(FeatAttackType::WILL),
            _ => None,
        }
    }

    fn from_i32(value: i32) -> (r: Option<Self>) {
        match value {
            0i32 => Some(FeatAttackType::ANY),
            1i32 => Some(FeatAttackType::SWORD),
            2i32 => Some(FeatAttackType::BOW),
            3i32 => Some(FeatAttackType::HANDS),
            4i32 => Some(FeatAttackType::WILL),
            _ => None,
        }
    }

    fn to_i32(self) -> (r: i32) {
        match self {
            FeatAttackType::ANY => 0i32,
            FeatAttackType::SWORD => 1i32,
            FeatAttackType::BOW => 2i32,
            FeatAttackType::HANDS => 3i32,
            FeatAttackType::WILL => 4i32,
        }
    }

    proof fn lemma_lookup_wire_value(e: Self) {
    }
}

impl FeatAttackType {
    /// The C++ enumerator symbol of `self`.
    pub open spec fn symbol_of(self) -> Seq<char> {
        match self {
            FeatAttackType::ANY => "FAT_ATTACK_ANY"@,
            FeatAttackType::SWORD => "FAT_ATTACK_SWORD"@,
            FeatAttackType::BOW => "FAT_ATTACK_BOW"@,
            FeatAttackType::HANDS => "FAT_ATTACK_HANDS"@,
            FeatAttackType::WILL => "FAT_ATTACK_WILL"@,
        }
    }

    /// The first variant whose symbol is `s`, if any.
    pub open spec fn symbol_lookup(s: Seq<char>) -> Option<Self> {
        if s == "FAT_ATTACK_ANY"@ {
            Some(FeatAttackType::ANY)
        } else if s == "FAT_ATTACK_SWORD"@ {
            Some(FeatAttackType::SWORD)
        } else if s == "FAT_ATTACK_BOW"@ {
            Some(FeatAttackType::BOW)
        } else if s == "FAT_ATTACK_HANDS"@ {
            Some(FeatAttackType::HANDS)
        } else if s == "FAT_ATTACK_WILL"@ {
            Some(FeatAttackType::WILL)
        } else {
            None
        }
    }

    /// The C++ enumerator symbol text defs use for `self`.
    pub fn symbol(self) -> (r: &'static str)
        ensures
            r@ == self.symbol_of(),
    {
        match self {
            FeatAttackType::ANY => "FAT_ATTACK_ANY",
            FeatAttackType::SWORD => "FAT_ATTACK_SWORD",
            FeatAttackType::BOW => "FAT_ATTACK_BOW",
            FeatAttackType::HANDS => "FAT_ATTACK_HANDS",
            FeatAttackType::WILL => "FAT_ATTACK_WILL",
        }
    }

    /// The variant a C++ enumerator symbol names.
    pub fn from_symbol(s: &str) -> (r: Option<Self>)
        ensures
            r == Self::symbol_lookup(s@),
    {
        if str_eq(s, "FAT_ATTACK_ANY") {
            return Some(FeatAttackType::ANY);
        }
        if str_eq(s, "FAT_ATTACK_SWORD") {
            return Some(FeatAttackType::SWORD);
        }
        if str_eq(s, "FAT_ATTACK_BOW") {
            return Some(FeatAttackType::BOW);
        }
        if str_eq(s, "FAT_ATTACK_HANDS") {
            return Some(FeatAttackType::HANDS);
        }
        if str_eq(s, "FAT_ATTACK_WILL") {
            return Some(FeatAttackType::WILL);
        }
        None
    }
}

#[derive(Debug, Clone, Copy, PartialEq, Eq, Structural, PartialOrd, Ord, Hash)]
pub enum GameEventType {
    GAMEEVENTNULL,
    GAMEEVENTUPDATEFRAME,
    GAMEEVENTQUIT,
    GAMEEVENTSETEXCLUSIVEMODE,
    GAMEEVENTSETDISPLAYMODE,
    GAMEEVENTSETEDITORMODE,
    GAMEEVENTFIRSTPERSONVIEWSTART,
    GAMEEVENTCREATURECHEAT,
    GAMEEVENTPLAYERRESPAWN,
    GAMEEVENTSETPAUSEMODE,
    GAMEEVENTSETSLOWMOTION,
    GAMEEVENTSETFREECAMERAMODE,
    GAMEEVENTUSEFREECAMERA,
    GAMEEVENTCONTROLLEDCREATUREBLOCK,
    GAMEEVENTTEMPWORLDEVENT,
    GAMEEVENTAPPLYSCRIPTEDMAPBRUSHES,
    GAMEEVENTCREATUREMOVEMENT,
    GAMEEVENTCREATUREUSEOBJECT,
    GAMEEVENTCONTROLLEDCREATURETALK,
    GAMEEVENTCONTROLLEDCREATURELEARNEXPRESSION,
    GAMEEVENTCONTROLLEDCREATUREDROPOBJECT,
    GAMEEVENTCONTROLLEDCREATUREZTARGET,
    GAMEEVENTCONTROLLEDCREATUREUSEABILITY,
    GAMEEVENTCONTROLLEDCREATURESTARTSNEAK,
    GAMEEVENTCONTROLLEDCREATURESTOPSNEAK,
    GAMEEVENTCLICKPASTTEXT,
    GAMEEVENTOPENHEROINFOSCREEN,
    GAMEEVENTCLOSEHEROINFOSCREEN,
    GAMEEVENTCLOSEINGAMEMENU,
    GAMEEVENTQUESTIONANSWERED,
    GAMEEVENTCONTROLLEDCREATURESTARTTHROWOBJECT,
    GAMEEVENTCONTROLLEDCREATUREENDTHROWOBJECT,
    GAMEEVENTCONTROLLEDCREATURESHEATHEWEAPON,
    GAMEEVENTCONTROLLEDCREATUREUNSHEATHEMELEEWEAPON,
    GAMEEVENTCONTROLLEDCREATUREUNSHEATHERANGEDWEAPON,
    GAMEEVENTCONTROLLEDCREATUREPLAYERINTERACTION,
    GAMEEVENTCONTROLLEDCREATUREGIVEITEMTOTARGET,
    GAMEEVENTCONTROLLEDCREATUREUNFREEZECONTROLS,
    GAMEEVENTCONTROLLEDCREATUREROLL,
    GAMEEVENTUSEQUICKACCESSITEM,
    GAMEEVENTUSEQUICKACCESSITEMINCUTSCENE,
    GAMEEVENTCHARGEQUICKACCESSITEM,
    GAMEEVENTPUTAWAY,
    GAMEEVENTCREATURESTRAFE,
    GAMEEVENTMOVEHEROTOREGION,
    GAMEEVENTFIRSTPERSONTARGETING,
    GAMEEVENTCONTROLLEDCREATUREDEFAULT,
    GAMEEVENTEXPRESSIONFOLLOW,
    GAMEEVENTEXPRESSIONWAIT,
    GAMEEVENTUSEPROJECTILEWEAPON,
    GAMEEVENTCONTROLLEDCREATUREJUMP,
    GAMEEVENTSPIRITMOVEMENT,
    GAMEEVENTOPENHEROCENTREDOOR,
    GAMEEVENTCLOSEHEROCENTREDOOR,
    GAMEEVENTSPIRITATTACK,
    GAMEEVENTCREATURESPRINT,
    GAMEEVENTSPIRITRETURNTOHERO,
    GAMEEVENTSKIPCUTSCENE,
    GAMEEVENTUSEPROJECTILEWEAPONTHIRDPERSON,
    GAMEEVENTCHARGEUPWILLSPELL,
    GAMEEVENTLOADGAMEFROMINGAMEMENU,
    GAMEEVENTCONTROLLEDCREATUREBLOCKEND,
    GAMEEVENTCONTROLLEDCREATUREDEACTIVATEZTARGET,
    GAMEEVENTREMOVECURRENTMODE,
    GAMEEVENTCONTROLLEDCREATURELIGHTNING,
    GAMEEVENTCONTROLLEDCREATUREDEACTIVATELIGHTNING,
    GAMEEVENTCLOSELIVEGUI,
    GAMEEVENTCLOSEPHOTOCAPTURE,
    GAMEEVENTTAKETHEBLOODYSCREENSHOT,
    GAMEEVENTTOGGLECONSOLE,
    GAMEEVENTOPENPCSKILLSMENU,
    GAMEEVENTOPENPCMSNCHATMENU,
    GAMEEVENTOPENPCINVENTORYMENU,
    GAMEEVENTOPENPCOPTIONSMENU,
    GAMEEVENTOPENPCPHOTOJOURNALMENU,
    GAMEEVENTOPENPCMAPMENU,
    GAMEEVENTOPENPCBUYTRADINGMENU,
    GAMEEVENTOPENPCSELLTRADINGMENU,
    GAMEEVENTOPENPCWANTEDTRADINGMENU,
    GAMEEVENTOPENPCSTATUSMENU,
    GAMEEVENTOPENPCSCOREBOARD,
    GAMEEVENTDELETEMENUCOMPONENTS,
    GAMEEVENTTOGGLEPASSIVEAGGRESSIVEMODE,
    GAMEEVENTDELETETRADEACTIVEMENU,
    GAMEEVENTTOGGLEKILLEVERYTHINGMODE,
    GAMEEVENTTOGGLEVIEWHEROMODE,
    GAMEEVENTCENTRECAMERA,
    NOGAMEEVENTS,
}

impl DefEnum for GameEventType {
    open spec fn wire_value(self) -> i32 {
        match self {
            GameEventType::GAMEEVENTNULL => 0i32,
            GameEventType::GAMEEVENTUPDATEFRAME => 1i32,
            GameEventType::GAMEEVENTQUIT => 2i32,
            GameEventType::GAMEEVENTSETEXCLUSIVEMODE => 3i32,
            GameEventType::GAMEEVENTSETDISPLAYMODE => 4i32,
            GameEventType::GAMEEVENTSETEDITORMODE => 5i32,
            GameEventType::GAMEEVENTFIRSTPERSONVIEWSTART => 6i32,
            GameEventType::GAMEEVENTCREATURECHEAT => 7i32,
            GameEventType::GAMEEVENTPLAYERRESPAWN => 8i32,
            GameEventType::GAMEEVENTSETPAUSEMODE => 9i32,
            GameEventType::GAMEEVENTSETSLOWMOTION => 10i32,
            GameEventType::GAMEEVENTSETFREECAMERAMODE => 11i32,
            GameEventType::GAMEEVENTUSEFREECAMERA => 12i32,
            GameEventType::GAMEEVENTCONTROLLEDCREATUREBLOCK => 13i32,
            GameEventType::GAMEEVENTTEMPWORLDEVENT => 14i32,
            GameEventType::GAMEEVENTAPPLYSCRIPTEDMAPBRUSHES => 15i32,
            GameEventType::GAMEEVENTCREATUREMOVEMENT => 16i32,
            GameEventType::GAMEEVENTCREATUREUSEOBJECT => 17i32,
            GameEventType::GAMEEVENTCONTROLLEDCREATURETALK => 18i32,
            GameEventType::GAMEEVENTCONTROLLEDCREATURELEARNEXPRESSION => 19i32,
            GameEventType::GAMEEVENTCONTROLLEDCREATUREDROPOBJECT => 20i32,
            GameEventType::GAMEEVENTCONTROLLEDCREATUREZTARGET => 21i32,
            GameEventType::GAMEEVENTCONTROLLEDCREATUREUSEABILITY => 22i32,
            GameEventType::GAMEEVENTCONTROLLEDCREATURESTARTSNEAK => 23i32,
            GameEventType::GAMEEVENTCONTROLLEDCREATURESTOPSNEAK => 24i32,
            GameEventType::GAMEEVENTCLICKPASTTEXT => 25i32,
            GameEventType::GAMEEVENTOPENHEROINFOSCREEN => 26i32,
            GameEventType::GAMEEVENTCLOSEHEROINFOSCREEN => 27i32,
            GameEventType::GAMEEVENTCLOSEINGAMEMENU => 28i32,
            GameEventType::GAMEEVENTQUESTIONANSWERED => 29i32,
            GameEventType::GAMEEVENTCONTROLLEDCREATURESTARTTHROWOBJECT => 30i32,
            GameEventType::GAMEEVENTCONTROLLEDCREATUREENDTHROWOBJECT => 31i32,
            GameEventType::GAMEEVENTCONTROLLEDCREATURESHEATHEWEAPON => 32i32,
            GameEventType::GAMEEVENTCONTROLLEDCREATUREUNSHEATHEMELEEWEAPON => 33i32,
            GameEventType::GAMEEVENTCONTROLLEDCREATUREUNSHEATHERANGEDWEAPON => 34i32,
            GameEventType::GAMEEVENTCONTROLLEDCREATUREPLAYERINTERACTION => 35i32,
            GameEventType::GAMEEVENTCONTROLLEDCREATUREGIVEITEMTOTARGET => 36i32,
            GameEventType::GAMEEVENTCONTROLLEDCREATUREUNFREEZECONTROLS => 37i32,
            GameEventType::GAMEEVENTCONTROLLEDCREATUREROLL => 38i32,
            GameEventType::GAMEEVENTUSEQUICKACCESSITEM => 39i32,
            GameEventType::GAMEEVENTUSEQUICKACCESSITEMINCUTSCENE => 40i32,
            GameEventType::GAMEEVENTCHARGEQUICKACCESSITEM => 41i32,
            GameEventType::GAMEEVENTPUTAWAY => 42i32,
            GameEventType::GAMEEVENTCREATURESTRAFE => 43i32,
            GameEventType::GAMEEVENTMOVEHEROTOREGION => 44i32,
            GameEventType::GAMEEVENTFIRSTPERSONTARGETING => 45i32,
            GameEventType::GAMEEVENTCONTROLLEDCREATUREDEFAULT => 46i32,
            GameEventType::GAMEEVENTEXPRESSIONFOLLOW => 47i32,
            GameEventType::GAMEEVENTEXPRESSIONWAIT => 48i32,
            GameEventType::GAMEEVENTUSEPROJECTILEWEAPON => 49i32,
            GameEventType::GAMEEVENTCONTROLLEDCREATUREJUMP => 50i32,
            GameEventType::GAMEEVENTSPIRITMOVEMENT => 51i32,
            GameEventType::GAMEEVENTOPENHEROCENTREDOOR => 52i32,
            GameEventType::GAMEEVENTCLOSEHEROCENTREDOOR => 53i32,
            GameEventType::GAMEEVENTSPIRITATTACK => 54i32,
            GameEventType::GAMEEVENTCREATURESPRINT => 55i32,
            GameEventType::GAMEEVENTSPIRITRETURNTOHERO => 56i32,
            GameEventType::GAMEEVENTSKIPCUTSCENE => 57i32,
            GameEventType::GAMEEVENTUSEPROJECTILEWEAPONTHIRDPERSON => 58i32,
            GameEventType::GAMEEVENTCHARGEUPWILLSPELL => 59i32,
            GameEventType::GAMEEVENTLOADGAMEFROMINGAMEMENU => 60i32,
            GameEventType::GAMEEVENTCONTROLLEDCREATUREBLOCKEND => 61i32,
            GameEventType::GAMEEVENTCONTROLLEDCREATUREDEACTIVATEZTARGET => 62i32,
            GameEventType::GAMEEVENTREMOVECURRENTMODE => 63i32,
            GameEventType::GAMEEVENTCONTROLLEDCREATURELIGHTNING => 64i32,
            GameEventType::GAMEEVENTCONTROLLEDCREATUREDEACTIVATELIGHTNING => 65i32,
            GameEventType::GAMEEVENTCLOSELIVEGUI => 66i32,
            GameEventType::GAMEEVENTCLOSEPHOTOCAPTURE => 67i32,
            GameEventType::GAMEEVENTTAKETHEBLOODYSCREENSHOT => 68i32,
            GameEventType::GAMEEVENTTOGGLECONSOLE => 69i32,
            GameEventType::GAMEEVENTOPENPCSKILLSMENU => 70i32,
            GameEventType::GAMEEVENTOPENPCMSNCHATMENU => 71i32,
            GameEventType::GAMEEVENTOPENPCINVENTORYMENU => 72i32,
            GameEventType::GAMEEVENTOPENPCOPTIONSMENU => 73i32,
            GameEventType::GAMEEVENTOPENPCPHOTOJOURNALMENU => 74i32,
            GameEventType::GAMEEVENTOPENPCMAPMENU => 75i32,
            GameEventType::GAMEEVENTOPENPCBUYTRADINGMENU => 76i32,
            GameEventType::GAMEEVENTOPENPCSELLTRADINGMENU => 77i32,
            GameEventType::GAMEEVENTOPENPCWANTEDTRADINGMENU => 78i32,
            GameEventType::GAMEEVENTOPENPCSTATUSMENU => 79i32,
            GameEventType::GAMEEVENTOPENPCSCOREBOARD => 80i32,
            GameEventType::GAMEEVENTDELETEMENUCOMPONENTS => 81i32,
            GameEventType::GAMEEVENTTOGGLEPASSIVEAGGRESSIVEMODE => 82i32,
            GameEventType::GAMEEVENTDELETETRADEACTIVEMENU => 83i32,
            GameEventType::GAMEEVENTTOGGLEKILLEVERYTHINGMODE => 84i32,
            GameEventType::GAMEEVENTTOGGLEVIEWHEROMODE => 85i32,
            GameEventType::GAMEEVENTCENTRECAMERA => 86i32,
            GameEventType::NOGAMEEVENTS => 87i32,
        }
    }

    open spec fn lookup(value: i32) -> Option<Self> {
        match value {
            0i32 => Some(GameEventType::GAMEEVENTNULL),
            1i32 => Some(GameEventType::GAMEEVENTUPDATEFRAME),
            2i32 => Some(GameEventType::GAMEEVENTQUIT),
            3i32 => Some(GameEventType::GAMEEVENTSETEXCLUSIVEMODE),
            4i32 => Some(GameEventType::GAMEEVENTSETDISPLAYMODE),
            5i32 => Some(GameEventType::GAMEEVENTSETEDITORMODE),
            6i32 => Some(GameEventType::GAMEEVENTFIRSTPERSONVIEWSTART),
            7i32 => Some(GameEventType::GAMEEVENTCREATURECHEAT),
            8i32 => Some(GameEventType::GAMEEVENTPLAYERRESPAWN),
            9i32 => Some(GameEventType::GAMEEVENTSETPAUSEMODE),
            10i32 => Some(GameEventType::GAMEEVENTSETSLOWMOTION),
            11i32 => Some(GameEventType::GAMEEVENTSETFREECAMERAMODE),
            12i32 => Some(GameEventType::GAMEEVENTUSEFREECAMERA),
            13i32 => Some(GameEventType::GAMEEVENTCONTROLLEDCREATUREBLOCK),
            14i32 => Some(GameEventType::GAMEEVENTTEMPWORLDEVENT),
            15i32 => Some(GameEventType::GAMEEVENTAPPLYSCRIPTEDMAPBRUSHES),
            16i32 => Some(GameEventType::GAMEEVENTCREATUREMOVEMENT),
            17i32 => Some(GameEventType::GAMEEVENTCREATUREUSEOBJECT),
            18i32 => Some(GameEventType::GAMEEVENTCONTROLLEDCREATURETALK),
            19i32 => Some(GameEventType::GAMEEVENTCONTROLLEDCREATURELEARNEXPRESSION),
            20i32 => Some(GameEventType::GAMEEVENTCONTROLLEDCREATUREDROPOBJECT),
            21i32 => Some(GameEventType::GAMEEVENTCONTROLLEDCREATUREZTARGET),
            22i32 => Some(GameEventType::GAMEEVENTCONTROLLEDCREATUREUSEABILITY),
            23i32 => Some(GameEventType::GAMEEVENTCONTROLLEDCREATURESTARTSNEAK),
            24i32 => Some(GameEventType::GAMEEVENTCONTROLLEDCREATURESTOPSNEAK),
            25i32 => Some(GameEventType::GAMEEVENTCLICKPASTTEXT),
            26i32 => Some(GameEventType::GAMEEVENTOPENHEROINFOSCREEN),
            27i32 => Some(GameEventType::GAMEEVENTCLOSEHEROINFOSCREEN),
            28i32 => Some(GameEventType::GAMEEVENTCLOSEINGAMEMENU),
            29i32 => Some(GameEventType::GAMEEVENTQUESTIONANSWERED),
            30i32 => Some(GameEventType::GAMEEVENTCONTROLLEDCREATURESTARTTHROWOBJECT),
            31i32 => Some(GameEventType::GAMEEVENTCONTROLLEDCREATUREENDTHROWOBJECT),
            32i32 => Some(GameEventType::GAMEEVENTCONTROLLEDCREATURESHEATHEWEAPON),
            33i32 => Some(GameEventType::GAMEEVENTCONTROLLEDCREATUREUNSHEATHEMELEEWEAPON),
            34i32 => Some(GameEventType::GAMEEVENTCONTROLLEDCREATUREUNSHEATHERANGEDWEAPON),
            35i32 => Some(GameEventType::GAMEEVENTCONTROLLEDCREATUREPLAYERINTERACTION),
            36i32 => Some(GameEventType::GAMEEVENTCONTROLLEDCREATUREGIVEITEMTOTARGET),
            37i32 => Some(GameEventType::GAMEEVENTCONTROLLEDCREATUREUNFREEZECONTROLS),
            38i32 => Some(GameEventType::GAMEEVENTCONTROLLEDCREATUREROLL),
            39i32 => Some(GameEventType::GAMEEVENTUSEQUICKACCESSITEM),
            40i32 => Some(GameEventType::GAMEEVENTUSEQUICKACCESSITEMINCUTSCENE),
            41i32 => Some(GameEventType::GAMEEVENTCHARGEQUICKACCESSITEM),
            42i32 => Some(GameEventType::GAMEEVENTPUTAWAY),
            43i32 => Some(GameEventType::GAMEEVENTCREATURESTRAFE),
            44i32 => Some(GameEventType::GAMEEVENTMOVEHEROTOREGION),
            45i32 => Some(GameEventType::GAMEEVENTFIRSTPERSONTARGETING),
            46i32 => Some(GameEventType::GAMEEVENTCONTROLLEDCREATUREDEFAULT),
            47i32 => Some(GameEventType::GAMEEVENTEXPRESSIONFOLLOW),
            48i32 => Some(GameEventType::GAMEEVENTEXPRESSIONWAIT),
            49i32 => Some(GameEventType::GAMEEVENTUSEPROJECTILEWEAPON),
            50i32 => Some(GameEventType::GAMEEVENTCONTROLLEDCREATUREJUMP),
            51i32 => Some(GameEventType::GAMEEVENTSPIRITMOVEMENT),
            52i32 => Some(GameEventType::GAMEEVENTOPENHEROCENTREDOOR),
            53i32 => Some(GameEventType::GAMEEVENTCLOSEHEROCENTREDOOR),
            54i32 => Some(GameEventType::GAMEEVENTSPIRITATTACK),
            55i32 => Some(GameEventType::GAMEEVENTCREATURESPRINT),
            56i32 => Some(GameEventType::GAMEEVENTSPIRITRETURNTOHERO),
            57i32 => Some(GameEventType::GAMEEVENTSKIPCUTSCENE),
            58i32 => Some(GameEventType::GAMEEVENTUSEPROJECTILEWEAPONTHIRDPERSON),
            59i32 => Some(GameEventType::GAMEEVENTCHARGEUPWILLSPELL),
            60i32 => Some(GameEventType::GAMEEVENTLOADGAMEFROMINGAMEMENU),
            61i32 => Some(GameEventType::GAMEEVENTCONTROLLEDCREATUREBLOCKEND),
            62i32 => Some(GameEventType::GAMEEVENTCONTROLLEDCREATUREDEACTIVATEZTARGET),
            63i32 => Some(GameEventType::GAMEEVENTREMOVECURRENTMODE),
            64i32 => Some(GameEventType::GAMEEVENTCONTROLLEDCREATURELIGHTNING),
            65i32 => Some(GameEventType::GAMEEVENTCONTROLLEDCREATUREDEACTIVATELIGHTNING),
            66i32 => Some(GameEventType::GAMEEVENTCLOSELIVEGUI),
            67i32 => Some(GameEventType::GAMEEVENTCLOSEPHOTOCAPTURE),
            68i32 => Some(GameEventType::GAMEEVENTTAKETHEBLOODYSCREENSHOT),
            69i32 => Some(GameEventType::GAMEEVENTTOGGLECONSOLE),
            70i32 => Some(GameEventType::GAMEEVENTOPENPCSKILLSMENU),
            71i32 => Some(GameEventType::GAMEEVENTOPENPCMSNCHATMENU),
            72i32 => Some(GameEventType::GAMEEVENTOPENPCINVENTORYMENU),
            73i32 => Some(GameEventType::GAMEEVENTOPENPCOPTIONSMENU),
            74i32 => Some(GameEventType::GAMEEVENTOPENPCPHOTOJOURNALMENU),
            75i32 => Some(GameEventType::GAMEEVENTOPENPCMAPMENU),
            76i32 => Some(GameEventType::GAMEEVENTOPENPCBUYTRADINGMENU),
            77i32 => Some(GameEventType::GAMEEVENTOPENPCSELLTRADINGMENU),
            78i32 => Some(GameEventType::GAMEEVENTOPENPCWANTEDTRADINGMENU),
            79i32 => Some(GameEventType::GAMEEVENTOPENPCSTATUSMENU),
            80i32 => Some(GameEventType::GAMEEVENTOPENPCSCOREBOARD),
            81i32 => Some(GameEventType::GAMEEVENTDELETEMENUCOMPONENTS),
            82i32 => Some(GameEventType::GAMEEVENTTOGGLEPASSIVEAGGRESSIVEMODE),
            83i32 => Some(GameEventType::GAMEEVENTDELETETRADEACTIVEMENU),
            84i32 => Some(GameEventType::GAMEEVENTTOGGLEKILLEVERYTHINGMODE),
            85i32 => Some(GameEventType::GAMEEVENTTOGGLEVIEWHEROMODE),
            86i32 => Some(GameEventType::GAMEEVENTCENTRECAMERA),
            87i32 => Some(GameEventType::NOGAMEEVENTS),
            _ => None,
        }
    }

    fn from_i32(value: i32) -> (r: Option<Self>) {
        match value {
            0i32 => Some(GameEventType::GAMEEVENTNULL),
            1i32 => Some(GameEventType::GAMEEVENTUPDATEFRAME),
            2i32 => Some(GameEventType::GAMEEVENTQUIT),
            3i32 => Some(GameEventType::GAMEEVENTSETEXCLUSIVEMODE),
            4i32 => Some(GameEventType::GAMEEVENTSETDISPLAYMODE),
            5i32 => Some(GameEventType::GAMEEVENTSETEDITORMODE),
            6i32 => Some(GameEventType::GAMEEVENTFIRSTPERSONVIEWSTART),
            7i32 => Some(GameEventType::GAMEEVENTCREATURECHEAT),
            8i32 => Some(GameEventType::GAMEEVENTPLAYERRESPAWN),
            9i32 => Some(GameEventType::GAMEEVENTSETPAUSEMODE),
            10i32 => Some(GameEventType::GAMEEVENTSETSLOWMOTION),
            11i32 => Some(GameEventType::GAMEEVENTSETFREECAMERAMODE),
            12i32 => Some(GameEventType::GAMEEVENTUSEFREECAMERA),
            13i32 => Some(GameEventType::GAMEEVENTCONTROLLEDCREATUREBLOCK),
            14i32 => Some(GameEventType::GAMEEVENTTEMPWORLDEVENT),
            15i32 => Some(GameEventType::GAMEEVENTAPPLYSCRIPTEDMAPBRUSHES),
            16i32 => Some(GameEventType::GAMEEVENTCREATUREMOVEMENT),
            17i32 => Some(GameEventType::GAMEEVENTCREATUREUSEOBJECT),
            18i32 => Some(GameEventType::GAMEEVENTCONTROLLEDCREATURETALK),
            19i32 => Some(GameEventType::GAMEEVENTCONTROLLEDCREATURELEARNEXPRESSION),
            20i32 => Some(GameEventType::GAMEEVENTCONTROLLEDCREATUREDROPOBJECT),
            21i32 => Some(GameEventType::GAMEEVENTCONTROLLEDCREATUREZTARGET),
            22i32 => Some(GameEventType::GAMEEVENTCONTROLLEDCREATUREUSEABILITY),
            23i32 => Some(GameEventType::GAMEEVENTCONTROLLEDCREATURESTARTSNEAK),
            24i32 => Some(GameEventType::GAMEEVENTCONTROLLEDCREATURESTOPSNEAK),
            25i32 => Some(GameEventType::GAMEEVENTCLICKPASTTEXT),
            26i32 => Some(GameEventType::GAMEEVENTOPENHEROINFOSCREEN),
            27i32 => Some(GameEventType::GAMEEVENTCLOSEHEROINFOSCREEN),
            28i32 => Some(GameEventType::GAMEEVENTCLOSEINGAMEMENU),
            29i32 => Some(GameEventType::GAMEEVENTQUESTIONANSWERED),
            30i32 => Some(GameEventType::GAMEEVENTCONTROLLEDCREATURESTARTTHROWOBJECT),
            31i32 => Some(GameEventType::GAMEEVENTCONTROLLEDCREATUREENDTHROWOBJECT),
            32i32 => Some(GameEventType::GAMEEVENTCONTROLLEDCREATURESHEATHEWEAPON),
            33i32 => Some(GameEventType::GAMEEVENTCONTROLLEDCREATUREUNSHEATHEMELEEWEAPON),
            34i32 => Some(GameEventType::GAMEEVENTCONTROLLEDCREATUREUNSHEATHERANGEDWEAPON),
            35i32 => Some(GameEventType::GAMEEVENTCONTROLLEDCREATUREPLAYERINTERACTION),
            36i32 => Some(GameEventType::GAMEEVENTCONTROLLEDCREATUREGIVEITEMTOTARGET),
            37i32 => Some(GameEventType::GAMEEVENTCONTROLLEDCREATUREUNFREEZECONTROLS),
            38i32 => Some(GameEventType::GAMEEVENTCONTROLLEDCREATUREROLL),
            39i32 => Some(GameEventType::GAMEEVENTUSEQUICKACCESSITEM),
            40i32 => Some(GameEventType::GAMEEVENTUSEQUICKACCESSITEMINCUTSCENE),
            41i32 => Some(GameEventType::GAMEEVENTCHARGEQUICKACCESSITEM),
            42i32 => Some(GameEventType::GAMEEVENTPUTAWAY),
            43i32 => Some(GameEventType::GAMEEVENTCREATURESTRAFE),
            44i32 => Some(GameEventType::GAMEEVENTMOVEHEROTOREGION),
            45i32 => Some(GameEventType::GAMEEVENTFIRSTPERSONTARGETING),
            46i32 => Some(GameEventType::GAMEEVENTCONTROLLEDCREATUREDEFAULT),
            47i32 => Some(GameEventType::GAMEEVENTEXPRESSIONFOLLOW),
            48i32 => Some(GameEventType::GAMEEVENTEXPRESSIONWAIT),
            49i32 => Some(GameEventType::GAMEEVENTUSEPROJECTILEWEAPON),
            50i32 => Some(GameEventType::GAMEEVENTCONTROLLEDCREATUREJUMP),
            51i32 => Some(GameEventType::GAMEEVENTSPIRITMOVEMENT),
            52i32 => Some(GameEventType::GAMEEVENTOPENHEROCENTREDOOR),
            53i32 => Some(GameEventType::GAMEEVENTCLOSEHEROCENTREDOOR),
            54i32 => Some(GameEventType::GAMEEVENTSPIRITATTACK),
            55i32 => Some(GameEventType::GAMEEVENTCREATURESPRINT),
            56i32 => Some(GameEventType::GAMEEVENTSPIRITRETURNTOHERO),
            57i32 => Some(GameEventType::GAMEEVENTSKIPCUTSCENE),
            58i32 => Some(GameEventType::GAMEEVENTUSEPROJECTILEWEAPONTHIRDPERSON),
            59i32 => Some(GameEventType::GAMEEVENTCHARGEUPWILLSPELL),
            60i32 => Some(GameEventType::GAMEEVENTLOADGAMEFROMINGAMEMENU),
            61i32 => Some(GameEventType::GAMEEVENTCONTROLLEDCREATUREBLOCKEND),
            62i32 => Some(GameEventType::GAMEEVENTCONTROLLEDCREATUREDEACTIVATEZTARGET),
            63i32 => Some(GameEventType::GAMEEVENTREMOVECURRENTMODE),
            64i32 => Some(GameEventType::GAMEEVENTCONTROLLEDCREATURELIGHTNING),
            65i32 => Some(GameEventType::GAMEEVENTCONTROLLEDCREATUREDEACTIVATELIGHTNING),
            66i32 => Some(GameEventType::GAMEEVENTCLOSELIVEGUI),
            67i32 => Some(GameEventType::GAMEEVENTCLOSEPHOTOCAPTURE),
            68i32 => Some(GameEventType::GAMEEVENTTAKETHEBLOODYSCREENSHOT),
            69i32 => Some(GameEventType::GAMEEVENTTOGGLECONSOLE),
            70i32 => Some(GameEventType::GAMEEVENTOPENPCSKILLSMENU),
            71i32 => Some(GameEventType::GAMEEVENTOPENPCMSNCHATMENU),
            72i32 => Some(GameEventType::GAMEEVENTOPENPCINVENTORYMENU),
            73i32 => Some(GameEventType::GAMEEVENTOPENPCOPTIONSMENU),
            74i32 => Some(GameEventType::GAMEEVENTOPENPCPHOTOJOURNALMENU),
            75i32 => Some(GameEventType::GAMEEVENTOPENPCMAPMENU),
            76i32 => Some(GameEventType::GAMEEVENTOPENPCBUYTRADINGMENU),
            77i32 => Some(GameEventType::GAMEEVENTOPENPCSELLTRADINGMENU),
            78i32 => Some(GameEventType::GAMEEVENTOPENPCWANTEDTRADINGMENU),
            79i32 => Some(GameEventType::GAMEEVENTOPENPCSTATUSMENU),
            80i32 => Some(GameEventType::GAMEEVENTOPENPCSCOREBOARD),
            81i32 => Some(GameEventType::GAMEEVENTDELETEMENUCOMPONENTS),
            82i32 => Some(GameEventType::GAMEEVENTTOGGLEPASSIVEAGGRESSIVEMODE),
            83i32 => Some(GameEventType::GAMEEVENTDELETETRADEACTIVEMENU),
            84i32 => Some(GameEventType::GAMEEVENTTOGGLEKILLEVERYTHINGMODE),
            85i32 => Some(GameEventType::GAMEEVENTTOGGLEVIEWHEROMODE),
            86i32 => Some(GameEventType::GAMEEVENTCENTRECAMERA),
            87i32 => Some(GameEventType::NOGAMEEVENTS),
            _ => None,
        }
    }

    fn to_i32(self) -> (r: i32) {
        match self {
            GameEventType::GAMEEVENTNULL => 0i32,
            GameEventType::GAMEEVENTUPDATEFRAME => 1i32,
            GameEventType::GAMEEVENTQUIT => 2i32,
            GameEventType::GAMEEVENTSETEXCLUSIVEMODE => 3i32,
            GameEventType::GAMEEVENTSETDISPLAYMODE => 4i32,
            GameEventType::GAMEEVENTSETEDITORMODE => 5i32,
            GameEventType::GAMEEVENTFIRSTPERSONVIEWSTART => 6i32,
            GameEventType::GAMEEVENTCREATURECHEAT => 7i32,
            GameEventType::GAMEEVENTPLAYERRESPAWN => 8i32,
            GameEventType::GAMEEVENTSETPAUSEMODE => 9i32,
            GameEventType::GAMEEVENTSETSLOWMOTION => 10i32,
            GameEventType::GAMEEVENTSETFREECAMERAMODE => 11i32,
            GameEventType::GAMEEVENTUSEFREECAMERA => 12i32,
            GameEventType::GAMEEVENTCONTROLLEDCREATUREBLOCK => 13i32,
            GameEventType::GAMEEVENTTEMPWORLDEVENT => 14i32,
            GameEventType::GAMEEVENTAPPLYSCRIPTEDMAPBRUSHES => 15i32,
            GameEventType::GAMEEVENTCREATUREMOVEMENT => 16i32,
            GameEventType::GAMEEVENTCREATUREUSEOBJECT => 17i32,
            GameEventType::GAMEEVENTCONTROLLEDCREATURETALK => 18i32,
            GameEventType::GAMEEVENTCONTROLLEDCREATURELEARNEXPRESSION => 19i32,
            GameEventType::GAMEEVENTCONTROLLEDCREATUREDROPOBJECT => 20i32,
            GameEventType::GAMEEVENTCONTROLLEDCREATUREZTARGET => 21i32,
            GameEventType::GAMEEVENTCONTROLLEDCREATUREUSEABILITY => 22i32,
            GameEventType::GAMEEVENTCONTROLLEDCREATURESTARTSNEAK => 23i32,
            GameEventType::GAMEEVENTCONTROLLEDCREATURESTOPSNEAK => 24i32,
            GameEventType::GAMEEVENTCLICKPASTTEXT => 25i32,
            GameEventType::GAMEEVENTOPENHEROINFOSCREEN => 26i32,
            GameEventType::GAMEEVENTCLOSEHEROINFOSCREEN => 27i32,
            GameEventType::GAMEEVENTCLOSEINGAMEMENU => 28i32,
            GameEventType::GAMEEVENTQUESTIONANSWERED => 29i32,
            GameEventType::GAMEEVENTCONTROLLEDCREATURESTARTTHROWOBJECT => 30i32,
            GameEventType::GAMEEVENTCONTROLLEDCREATUREENDTHROWOBJECT => 31i32,
            GameEventType::GAMEEVENTCONTROLLEDCREATURESHEATHEWEAPON => 32i32,
            GameEventType::GAMEEVENTCONTROLLEDCREATUREUNSHEATHEMELEEWEAPON => 33i32,
            GameEventType::GAMEEVENTCONTROLLEDCREATUREUNSHEATHERANGEDWEAPON => 34i32,
            GameEventType::GAMEEVENTCONTROLLEDCREATUREPLAYERINTERACTION => 35i32,
            GameEventType::GAMEEVENTCONTROLLEDCREATUREGIVEITEMTOTARGET => 36i32,
            GameEventType::GAMEEVENTCONTROLLEDCREATUREUNFREEZECONTROLS => 37i32,
            GameEventType::GAMEEVENTCONTROLLEDCREATUREROLL => 38i32,
            GameEventType::GAMEEVENTUSEQUICKACCESSITEM => 39i32,
            GameEventType::GAMEEVENTUSEQUICKACCESSITEMINCUTSCENE => 40i32,
            GameEventType::GAMEEVENTCHARGEQUICKACCESSITEM => 41i32,
            GameEventType::GAMEEVENTPUTAWAY => 42i32,
            GameEventType::GAMEEVENTCREATURESTRAFE => 43i32,
            GameEventType::GAMEEVENTMOVEHEROTOREGION => 44i32,
            GameEventType::GAMEEVENTFIRSTPERSONTARGETING => 45i32,
            GameEventType::GAMEEVENTCONTROLLEDCREATUREDEFAULT => 46i32,
            GameEventType::GAMEEVENTEXPRESSIONFOLLOW => 47i32,
            GameEventType::GAMEEVENTEXPRESSIONWAIT => 48i32,
            GameEventType::GAMEEVENTUSEPROJECTILEWEAPON => 49i32,
            GameEventType::GAMEEVENTCONTROLLEDCREATUREJUMP => 50i32,
            GameEventType::GAMEEVENTSPIRITMOVEMENT => 51i32,
            GameEventType::GAMEEVENTOPENHEROCENTREDOOR => 52i32,
            GameEventType::GAMEEVENTCLOSEHEROCENTREDOOR => 53i32,
            GameEventType::GAMEEVENTSPIRITATTACK => 54i32,
            GameEventType::GAMEEVENTCREATURESPRINT => 55i32,
            GameEventType::GAMEEVENTSPIRITRETURNTOHERO => 56i32,
            GameEventType::GAMEEVENTSKIPCUTSCENE => 57i32,
            GameEventType::GAMEEVENTUSEPROJECTILEWEAPONTHIRDPERSON => 58i32,
            GameEventType::GAMEEVENTCHARGEUPWILLSPELL => 59i32,
            GameEventType::GAMEEVENTLOADGAMEFROMINGAMEMENU => 60i32,
            GameEventType::GAMEEVENTCONTROLLEDCREATUREBLOCKEND => 61i32,
            GameEventType::GAMEEVENTCONTROLLEDCREATUREDEACTIVATEZTARGET => 62i32,
            GameEventType::GAMEEVENTREMOVECURRENTMODE => 63i32,
            GameEventType::GAMEEVENTCONTROLLEDCREATURELIGHTNING => 64i32,
            GameEventType::GAMEEVENTCONTROLLEDCREATUREDEACTIVATELIGHTNING => 65i32,
            GameEventType::GAMEEVENTCLOSELIVEGUI => 66i32,
            GameEventType::GAMEEVENTCLOSEPHOTOCAPTURE => 67i32,
            GameEventType::GAMEEVENTTAKETHEBLOODYSCREENSHOT => 68i32,
            GameEventType::GAMEEVENTTOGGLECONSOLE => 69i32,
            GameEventType::GAMEEVENTOPENPCSKILLSMENU => 70i32,
            GameEventType::GAMEEVENTOPENPCMSNCHATMENU => 71i32,
            GameEventType::GAMEEVENTOPENPCINVENTORYMENU => 72i32,
            GameEventType::GAMEEVENTOPENPCOPTIONSMENU => 73i32,
            GameEventType::GAMEEVENTOPENPCPHOTOJOURNALMENU => 74i32,
            GameEventType::GAMEEVENTOPENPCMAPMENU => 75i32,
            GameEventType::GAMEEVENTOPENPCBUYTRADINGMENU => 76i32,
            GameEventType::GAMEEVENTOPENPCSELLTRADINGMENU => 77i32,
            GameEventType::GAMEEVENTOPENPCWANTEDTRADINGMENU => 78i32,
            GameEventType::GAMEEVENTOPENPCSTATUSMENU => 79i32,
            GameEventType::GAMEEVENTOPENPCSCOREBOARD => 80i32,
            GameEventType::GAMEEVENTDELETEMENUCOMPONENTS => 81i32,
            GameEventType::GAMEEVENTTOGGLEPASSIVEAGGRESSIVEMODE => 82i32,
            GameEventType::GAMEEVENTDELETETRADEACTIVEMENU => 83i32,
            GameEventType::GAMEEVENTTOGGLEKILLEVERYTHINGMODE => 84i32,
            GameEventType::GAMEEVENTTOGGLEVIEWHEROMODE => 85i32,
            GameEventType::GAMEEVENTCENTRECAMERA => 86i32,
            GameEventType::NOGAMEEVENTS => 87i32,
        }
    }

    proof fn lemma_lookup_wire_value(e: Self) {
    }
}

impl GameEventType {
    /// The C++ enumerator symbol of `self`.
    pub open spec fn symbol_of(self) -> Seq<char> {
        match self {
            GameEventType::GAMEEVENTNULL => "GAME_EVENT_NULL"@,
            GameEventType::GAMEEVENTUPDATEFRAME => "GAME_EVENT_UPDATE_FRAME"@,
            GameEventType::GAMEEVENTQUIT => "GAME_EVENT_QUIT"@,
            GameEventType::GAMEEVENTSETEXCLUSIVEMODE => "GAME_EVENT_SET_EXCLUSIVE_MODE"@,
            GameEventType::GAMEEVENTSETDISPLAYMODE => "GAME_EVENT_SET_DISPLAY_MODE"@,
            GameEventType::GAMEEVENTSETEDITORMODE => "GAME_EVENT_SET_EDITOR_MODE"@,
            GameEventType::GAMEEVENTFIRSTPERSONVIEWSTART => "GAME_EVENT_FIRST_PERSON_VIEW_START"@,
            GameEventType::GAMEEVENTCREATURECHEAT => "GAME_EVENT_CREATURE_CHEAT"@,
            GameEventType::GAMEEVENTPLAYERRESPAWN => "GAME_EVENT_PLAYER_RESPAWN"@,
            GameEventType::GAMEEVENTSETPAUSEMODE => "GAME_EVENT_SET_PAUSE_MODE"@,
            GameEventType::GAMEEVENTSETSLOWMOTION => "GAME_EVENT_SET_SLOW_MOTION"@,
            GameEventType::GAMEEVENTSETFREECAMERAMODE => "GAME_EVENT_SET_FREE_CAMERA_MODE"@,
            GameEventType::GAMEEVENTUSEFREECAMERA => "GAME_EVENT_USE_FREE_CAMERA"@,
            GameEventType::GAMEEVENTCONTROLLEDCREATUREBLOCK => "GAME_EVENT_CONTROLLED_CREATURE_BLOCK"@,
            GameEventType::GAMEEVENTTEMPWORLDEVENT => "GAME_EVENT_TEMP_WORLD_EVENT"@,
            GameEventType::GAMEEVENTAPPLYSCRIPTEDMAPBRUSHES => "GAME_EVENT_APPLY_SCRIPTED_MAP_BRUSHES"@,
            GameEventType::GAMEEVENTCREATUREMOVEMENT => "GAME_EVENT_CREATURE_MOVEMENT"@,
            GameEventType::GAMEEVENTCREATUREUSEOBJECT => "GAME_EVENT_CREATURE_USE_OBJECT"@,
            GameEventType::GAMEEVENTCONTROLLEDCREATURETALK => "GAME_EVENT_CONTROLLED_CREATURE_TALK"@,
            GameEventType::GAMEEVENTCONTROLLEDCREATURELEARNEXPRESSION => "GAME_EVENT_CONTROLLED_CREATURE_LEARN_EXPRESSION"@,
            GameEventType::GAMEEVENTCONTROLLEDCREATUREDROPOBJECT => "GAME_EVENT_CONTROLLED_CREATURE_DROP_OBJECT"@,
            GameEventType::GAMEEVENTCONTROLLEDCREATUREZTARGET => "GAME_EVENT_CONTROLLED_CREATURE_ZTARGET"@,
            GameEventType::GAMEEVENTCONTROLLEDCREATUREUSEABILITY => "GAME_EVENT_CONTROLLED_CREATURE_USE_ABILITY"@,
            GameEventType::GAMEEVENTCONTROLLEDCREATURESTARTSNEAK => "GAME_EVENT_CONTROLLED_CREATURE_START_SNEAK"@,
            GameEventType::GAMEEVENTCONTROLLEDCREATURESTOPSNEAK => "GAME_EVENT_CONTROLLED_CREATURE_STOP_SNEAK"@,
            GameEventType::GAMEEVENTCLICKPASTTEXT => "GAME_EVENT_CLICK_PAST_TEXT"@,
            GameEventType::GAMEEVENTOPENHEROINFOSCREEN => "GAME_EVENT_OPEN_HERO_INFO_SCREEN"@,
            GameEventType::GAMEEVENTCLOSEHEROINFOSCREEN => "GAME_EVENT_CLOSE_HERO_INFO_SCREEN"@,
            GameEventType::GAMEEVENTCLOSEINGAMEMENU => "GAME_EVENT_CLOSE_IN_GAME_MENU"@,
            GameEventType::GAMEEVENTQUESTIONANSWERED => "GAME_EVENT_QUESTION_ANSWERED"@,
            GameEventType::GAMEEVENTCONTROLLEDCREATURESTARTTHROWOBJECT => "GAME_EVENT_CONTROLLED_CREATURE_START_THROW_OBJECT"@,
            GameEventType::GAMEEVENTCONTROLLEDCREATUREENDTHROWOBJECT => "GAME_EVENT_CONTROLLED_CREATURE_END_THROW_OBJECT"@,
            GameEventType::GAMEEVENTCONTROLLEDCREATURESHEATHEWEAPON => "GAME_EVENT_CONTROLLED_CREATURE_SHEATHE_WEAPON"@,
            GameEventType::GAMEEVENTCONTROLLEDCREATUREUNSHEATHEMELEEWEAPON => "GAME_EVENT_CONTROLLED_CREATURE_UNSHEATHE_MELEE_WEAPON"@,
            GameEventType::GAMEEVENTCONTROLLEDCREATUREUNSHEATHERANGEDWEAPON => "GAME_EVENT_CONTROLLED_CREATURE_UNSHEATHE_RANGED_WEAPON"@,
            GameEventType::GAMEEVENTCONTROLLEDCREATUREPLAYERINTERACTION => "GAME_EVENT_CONTROLLED_CREATURE_PLAYER_INTERACTION"@,
            GameEventType::GAMEEVENTCONTROLLEDCREATUREGIVEITEMTOTARGET => "GAME_EVENT_CONTROLLED_CREATURE_GIVE_ITEM_TO_TARGET"@,
            GameEventType::GAMEEVENTCONTROLLEDCREATUREUNFREEZECONTROLS => "GAME_EVENT_CONTROLLED_CREATURE_UNFREEZE_CONTROLS"@,
            GameEventType::GAMEEVENTCONTROLLEDCREATUREROLL => "GAME_EVENT_CONTROLLED_CREATURE_ROLL"@,
            GameEventType::GAMEEVENTUSEQUICKACCESSITEM => "GAME_EVENT_USE_QUICK_ACCESS_ITEM"@,
            GameEventType::GAMEEVENTUSEQUICKACCESSITEMINCUTSCENE => "GAME_EVENT_USE_QUICK_ACCESS_ITEM_IN_CUTSCENE"@,
            GameEventType::GAMEEVENTCHARGEQUICKACCESSITEM => "GAME_EVENT_CHARGE_QUICK_ACCESS_ITEM"@,
            GameEventType::GAMEEVENTPUTAWAY => "GAME_EVENT_PUT_AWAY"@,
            GameEventType::GAMEEVENTCREATURESTRAFE => "GAME_EVENT_CREATURE_STRAFE"@,
            GameEventType::GAMEEVENTMOVEHEROTOREGION => "GAME_EVENT_MOVE_HERO_TO_REGION"@,
            GameEventType::GAMEEVENTFIRSTPERSONTARGETING => "GAME_EVENT_FIRST_PERSON_TARGETING"@,
            GameEventType::GAMEEVENTCONTROLLEDCREATUREDEFAULT => "GAME_EVENT_CONTROLLED_CREATURE_DEFAULT"@,
            GameEventType::GAMEEVENTEXPRESSIONFOLLOW => "GAME_EVENT_EXPRESSION_FOLLOW"@,
            GameEventType::GAMEEVENTEXPRESSIONWAIT => "GAME_EVENT_EXPRESSION_WAIT"@,
            GameEventType::GAMEEVENTUSEPROJECTILEWEAPON => "GAME_EVENT_USE_PROJECTILE_WEAPON"@,
            GameEventType::GAMEEVENTCONTROLLEDCREATUREJUMP => "GAME_EVENT_CONTROLLED_CREATURE_JUMP"@,
            GameEventType::GAMEEVENTSPIRITMOVEMENT => "GAME_EVENT_SPIRIT_MOVEMENT"@,
            GameEventType::GAMEEVENTOPENHEROCENTREDOOR => "GAME_EVENT_OPEN_HERO_CENTRE_DOOR"@,
            GameEventType::GAMEEVENTCLOSEHEROCENTREDOOR => "GAME_EVENT_CLOSE_HERO_CENTRE_DOOR"@,
            GameEventType::GAMEEVENTSPIRITATTACK => "GAME_EVENT_SPIRIT_ATTACK"@,
            GameEventType::GAMEEVENTCREATURESPRINT => "GAME_EVENT_CREATURE_SPRINT"@,
            GameEventType::GAMEEVENTSPIRITRETURNTOHERO => "GAME_EVENT_SPIRIT_RETURN_TO_HERO"@,
            GameEventType::GAMEEVENTSKIPCUTSCENE => "GAME_EVENT_SKIP_CUT_SCENE"@,
            GameEventType::GAMEEVENTUSEPROJECTILEWEAPONTHIRDPERSON => "GAME_EVENT_USE_PROJECTILE_WEAPON_THIRD_PERSON"@,
            GameEventType::GAMEEVENTCHARGEUPWILLSPELL => "GAME_EVENT_CHARGE_UP_WILL_SPELL"@,
            GameEventType::GAMEEVENTLOADGAMEFROMINGAMEMENU => "GAME_EVENT_LOAD_GAME_FROM_IN_GAME_MENU"@,
            GameEventType::GAMEEVENTCONTROLLEDCREATUREBLOCKEND => "GAME_EVENT_CONTROLLED_CREATURE_BLOCK_END"@,
            GameEventType::GAMEEVENTCONTROLLEDCREATUREDEACTIVATEZTARGET => "GAME_EVENT_CONTROLLED_CREATURE_DEACTIVATE_ZTARGET"@,
            GameEventType::GAMEEVENTREMOVECURRENTMODE => "GAME_EVENT_REMOVE_CURRENT_MODE"@,
            GameEventType::GAMEEVENTCONTROLLEDCREATURELIGHTNING => "GAME_EVENT_CONTROLLED_CREATURE_LIGHTNING"@,
            GameEventType::GAMEEVENTCONTROLLEDCREATUREDEACTIVATELIGHTNING => "GAME_EVENT_CONTROLLED_CREATURE_DEACTIVATE_LIGHTNING"@,
            GameEventType::GAMEEVENTCLOSELIVEGUI => "GAME_EVENT_CLOSE_LIVE_GUI"@,
            GameEventType::GAMEEVENTCLOSEPHOTOCAPTURE => "GAME_EVENT_CLOSE_PHOTO_CAPTURE"@,
            GameEventType::GAMEEVENTTAKETHEBLOODYSCREENSHOT => "GAME_EVENT_TAKE_THE_BLOODY_SCREENSHOT"@,
            GameEventType::GAMEEVENTTOGGLECONSOLE => "GAME_EVENT_TOGGLE_CONSOLE"@,
            GameEventType::GAMEEVENTOPENPCSKILLSMENU => "GAME_EVENT_OPEN_PC_SKILLS_MENU"@,
            GameEventType::GAMEEVENTOPENPCMSNCHATMENU => "GAME_EVENT_OPEN_PC_MSN_CHAT_MENU"@,
            GameEventType::GAMEEVENTOPENPCINVENTORYMENU => "GAME_EVENT_OPEN_PC_INVENTORY_MENU"@,
            GameEventType::GAMEEVENTOPENPCOPTIONSMENU => "GAME_EVENT_OPEN_PC_OPTIONS_MENU"@,
            GameEventType::GAMEEVENTOPENPCPHOTOJOURNALMENU => "GAME_EVENT_OPEN_PC_PHOTO_JOURNAL_MENU"@,
            GameEventType::GAMEEVENTOPENPCMAPMENU => "GAME_EVENT_OPEN_PC_MAP_MENU"@,
            GameEventType::GAMEEVENTOPENPCBUYTRADINGMENU => "GAME_EVENT_OPEN_PC_BUY_TRADING_MENU"@,
            GameEventType::GAMEEVENTOPENPCSELLTRADINGMENU => "GAME_EVENT_OPEN_PC_SELL_TRADING_MENU"@,
            GameEventType::GAMEEVENTOPENPCWANTEDTRADINGMENU => "GAME_EVENT_OPEN_PC_WANTED_TRADING_MENU"@,
            GameEventType::GAMEEVENTOPENPCSTATUSMENU => "GAME_EVENT_OPEN_PC_STATUS_MENU"@,
            GameEventType::GAMEEVENTOPENPCSCOREBOARD => "GAME_EVENT_OPEN_PC_SCOREBOARD"@,
            GameEventType::GAMEEVENTDELETEMENUCOMPONENTS => "GAME_EVENT_DELETE_MENU_COMPONENTS"@,
            GameEventType::GAMEEVENTTOGGLEPASSIVEAGGRESSIVEMODE => "GAME_EVENT_TOGGLE_PASSIVE_AGGRESSIVE_MODE"@,
            GameEventType::GAMEEVENTDELETETRADEACTIVEMENU => "GAME_EVENT_DELETE_TRADE_ACTIVE_MENU"@,
            GameEventType::GAMEEVENTTOGGLEKILLEVERYTHINGMODE => "GAME_EVENT_TOGGLE_KILL_EVERYTHING_MODE"@,
            GameEventType::GAMEEVENTTOGGLEVIEWHEROMODE => "GAME_EVENT_TOGGLE_VIEW_HERO_MODE"@,
            GameEventType::GAMEEVENTCENTRECAMERA => "GAME_EVENT_CENTRE_CAMERA"@,
            GameEventType::NOGAMEEVENTS => "NO_GAME_EVENTS"@,
        }
    }

    /// The first variant whose symbol is `s`, if any.
    pub open spec fn symbol_lookup(s: Seq<char>) -> Option<Self> {
        if s == "GAME_EVENT_NULL"@ {
            Some(GameEventType::GAMEEVENTNULL)
        } else if s == "GAME_EVENT_UPDATE_FRAME"@ {
            Some(GameEventType::GAMEEVENTUPDATEFRAME)
        } else if s == "GAME_EVENT_QUIT"@ {
            Some(GameEventType::GAMEEVENTQUIT)
        } else if s == "GAME_EVENT_SET_EXCLUSIVE_MODE"@ {
            Some(GameEventType::GAMEEVENTSETEXCLUSIVEMODE)
        } else if s == "GAME_EVENT_SET_DISPLAY_MODE"@ {
            Some(GameEventType::GAMEEVENTSETDISPLAYMODE)
        } else if s == "GAME_EVENT_SET_EDITOR_MODE"@ {
            Some(GameEventType::GAMEEVENTSETEDITORMODE)
        } else if s == "GAME_EVENT_FIRST_PERSON_VIEW_START"@ {
            Some(GameEventType::GAMEEVENTFIRSTPERSONVIEWSTART)
        } else if s == "GAME_EVENT_CREATURE_CHEAT"@ {
            Some(GameEventType::GAMEEVENTCREATURECHEAT)
        } else if s == "GAME_EVENT_PLAYER_RESPAWN"@ {
            Some(GameEventType::GAMEEVENTPLAYERRESPAWN)
        } else if s == "GAME_EVENT_SET_PAUSE_MODE"@ {
            Some(GameEventType::GAMEEVENTSETPAUSEMODE)
        } else if s == "GAME_EVENT_SET_SLOW_MOTION"@ {
            Some(GameEventType::GAMEEVENTSETSLOWMOTION)
        } else if s == "GAME_EVENT_SET_FREE_CAMERA_MODE"@ {
            Some(GameEventType::GAMEEVENTSETFREECAMERAMODE)
        } else if s == "GAME_EVENT_USE_FREE_CAMERA"@ {
            Some(GameEventType::GAMEEVENTUSEFREECAMERA)
        } else if s == "GAME_EVENT_CONTROLLED_CREATURE_BLOCK"@ {
            Some(GameEventType::GAMEEVENTCONTROLLEDCREATUREBLOCK)
        } else if s == "GAME_EVENT_TEMP_WORLD_EVENT"@ {
            Some(GameEventType::GAMEEVENTTEMPWORLDEVENT)
        } else if s == "GAME_EVENT_APPLY_SCRIPTED_MAP_BRUSHES"@ {
            Some(GameEventType::GAMEEVENTAPPLYSCRIPTEDMAPBRUSHES)
        } else if s == "GAME_EVENT_CREATURE_MOVEMENT"@ {
            Some(GameEventType::GAMEEVENTCREATUREMOVEMENT)
        } else if s == "GAME_EVENT_CREATURE_USE_OBJECT"@ {
            Some(GameEventType::GAMEEVENTCREATUREUSEOBJECT)
        } else if s == "GAME_EVENT_CONTROLLED_CREATURE_TALK"@ {
            Some(GameEventType::GAMEEVENTCONTROLLEDCREATURETALK)
        } else if s == "GAME_EVENT_CONTROLLED_CREATURE_LEARN_EXPRESSION"@ {
            Some(GameEventType::GAMEEVENTCONTROLLEDCREATURELEARNEXPRESSION)
        } else if s == "GAME_EVENT_CONTROLLED_CREATURE_DROP_OBJECT"@ {
            Some(GameEventType::GAMEEVENTCONTROLLEDCREATUREDROPOBJECT)
        } else if s == "GAME_EVENT_CONTROLLED_CREATURE_ZTARGET"@ {
            Some(GameEventType::GAMEEVENTCONTROLLEDCREATUREZTARGET)
        } else if s == "GAME_EVENT_CONTROLLED_CREATURE_USE_ABILITY"@ {
            Some(GameEventType::GAMEEVENTCONTROLLEDCREATUREUSEABILITY)
        } else if s == "GAME_EVENT_CONTROLLED_CREATURE_START_SNEAK"@ {
            Some(GameEventType::GAMEEVENTCONTROLLEDCREATURESTARTSNEAK)
        } else if s == "GAME_EVENT_CONTROLLED_CREATURE_STOP_SNEAK"@ {
            Some(GameEventType::GAMEEVENTCONTROLLEDCREATURESTOPSNEAK)
        } else if s == "GAME_EVENT_CLICK_PAST_TEXT"@ {
            Some(GameEventType::GAMEEVENTCLICKPASTTEXT)
        } else if s == "GAME_EVENT_OPEN_HERO_INFO_SCREEN"@ {
            Some(GameEventType::GAMEEVENTOPENHEROINFOSCREEN)
        } else if s == "GAME_EVENT_CLOSE_HERO_INFO_SCREEN"@ {
            Some(GameEventType::GAMEEVENTCLOSEHEROINFOSCREEN)
        } else if s == "GAME_EVENT_CLOSE_IN_GAME_MENU"@ {
            Some(GameEventType::GAMEEVENTCLOSEINGAMEMENU)
        } else if s == "GAME_EVENT_QUESTION_ANSWERED"@ {
            Some(GameEventType::GAMEEVENTQUESTIONANSWERED)
        } else if s == "GAME_EVENT_CONTROLLED_CREATURE_START_THROW_OBJECT"@ {
            Some(GameEventType::GAMEEVENTCONTROLLEDCREATURESTARTTHROWOBJECT)
        } else if s == "GAME_EVENT_CONTROLLED_CREATURE_END_THROW_OBJECT"@ {
            Some(GameEventType::GAMEEVENTCONTROLLEDCREATUREENDTHROWOBJECT)
        } else if s == "GAME_EVENT_CONTROLLED_CREATURE_SHEATHE_WEAPON"@ {
            Some(GameEventType::GAMEEVENTCONTROLLEDCREATURESHEATHEWEAPON)
        } else if s == "GAME_EVENT_CONTROLLED_CREATURE_UNSHEATHE_MELEE_WEAPON"@ {
            Some(GameEventType::GAMEEVENTCONTROLLEDCREATUREUNSHEATHEMELEEWEAPON)
        } else if s == "GAME_EVENT_CONTROLLED_CREATURE_UNSHEATHE_RANGED_WEAPON"@ {
            Some(GameEventType::GAMEEVENTCONTROLLEDCREATUREUNSHEATHERANGEDWEAPON)
        } else if s == "GAME_EVENT_CONTROLLED_CREATURE_PLAYER_INTERACTION"@ {
            Some(GameEventType::GAMEEVENTCONTROLLEDCREATUREPLAYERINTERACTION)
        } else if s == "GAME_EVENT_CONTROLLED_CREATURE_GIVE_ITEM_TO_TARGET"@ {
            Some(GameEventType::GAMEEVENTCONTROLLEDCREATUREGIVEITEMTOTARGET)
        } else if s == "GAME_EVENT_CONTROLLED_CREATURE_UNFREEZE_CONTROLS"@ {
            Some(GameEventType::GAMEEVENTCONTROLLEDCREATUREUNFREEZECONTROLS)
        } else if s == "GAME_EVENT_CONTROLLED_CREATURE_ROLL"@ {
            Some(GameEventType::GAMEEVENTCONTROLLEDCREATUREROLL)
        } else if s == "GAME_EVENT_USE_QUICK_ACCESS_ITEM"@ {
            Some(GameEventType::GAMEEVENTUSEQUICKACCESSITEM)
        } else if s == "GAME_EVENT_USE_QUICK_ACCESS_ITEM_IN_CUTSCENE"@ {
            Some(GameEventType::GAMEEVENTUSEQUICKACCESSITEMINCUTSCENE)
        } else if s == "GAME_EVENT_CHARGE_QUICK_ACCESS_ITEM"@ {
            Some(GameEventType::GAMEEVENTCHARGEQUICKACCESSITEM)
        } else if s == "GAME_EVENT_PUT_AWAY"@ {
            Some(GameEventType::GAMEEVENTPUTAWAY)
        } else if s == "GAME_EVENT_CREATURE_STRAFE"@ {
            Some(GameEventType::GAMEEVENTCREATURESTRAFE)
        } else if s == "GAME_EVENT_MOVE_HERO_TO_REGION"@ {
            Some(GameEventType::GAMEEVENTMOVEHEROTOREGION)
        } else if s == "GAME_EVENT_FIRST_PERSON_TARGETING"@ {
            Some(GameEventType::GAMEEVENTFIRSTPERSONTARGETING)
        } else if s == "GAME_EVENT_CONTROLLED_CREATURE_DEFAULT"@ {
            Some(GameEventType::GAMEEVENTCONTROLLEDCREATUREDEFAULT)
        } else if s == "GAME_EVENT_EXPRESSION_FOLLOW"@ {
            Some(GameEventType::GAMEEVENTEXPRESSIONFOLLOW)
        } else if s == "GAME_EVENT_EXPRESSION_WAIT"@ {
            Some(GameEventType::GAMEEVENTEXPRESSIONWAIT)
        } else if s == "GAME_EVENT_USE_PROJECTILE_WEAPON"@ {
            Some(GameEventType::GAMEEVENTUSEPROJECTILEWEAPON)
        } else if s == "GAME_EVENT_CONTROLLED_CREATURE_JUMP"@ {
            Some(GameEventType::GAMEEVENTCONTROLLEDCREATUREJUMP)
        } else if s == "GAME_EVENT_SPIRIT_MOVEMENT"@ {
            Some(GameEventType::GAMEEVENTSPIRITMOVEMENT)
        } else if s == "GAME_EVENT_OPEN_HERO_CENTRE_DOOR"@ {
            Some(GameEventType::GAMEEVENTOPENHEROCENTREDOOR)
        } else if s == "GAME_EVENT_CLOSE_HERO_CENTRE_DOOR"@ {
            Some(GameEventType::GAMEEVENTCLOSEHEROCENTREDOOR)
        } else if s == "GAME_EVENT_SPIRIT_ATTACK"@ {
            Some(GameEventType::GAMEEVENTSPIRITATTACK)
        } else if s == "GAME_EVENT_CREATURE_SPRINT"@ {
            Some(GameEventType::GAMEEVENTCREATURESPRINT)
        } else if s == "GAME_EVENT_SPIRIT_RETURN_TO_HERO"@ {
            Some(GameEventType::GAMEEVENTSPIRITRETURNTOHERO)
        } else if s == "GAME_EVENT_SKIP_CUT_SCENE"@ {
            Some(GameEventType::GAMEEVENTSKIPCUTSCENE)
        } else if s == "GAME_EVENT_USE_PROJECTILE_WEAPON_THIRD_PERSON"@ {
            Some(GameEventType::GAMEEVENTUSEPROJECTILEWEAPONTHIRDPERSON)
        } else if s == "GAME_EVENT_CHARGE_UP_WILL_SPELL"@ {
            Some(GameEventType::GAMEEVENTCHARGEUPWILLSPELL)
        } else if s == "GAME_EVENT_LOAD_GAME_FROM_IN_GAME_MENU"@ {
            Some(GameEventType::GAMEEVENTLOADGAMEFROMINGAMEMENU)
        } else if s == "GAME_EVENT_CONTROLLED_CREATURE_BLOCK_END"@ {
            Some(GameEventType::GAMEEVENTCONTROLLEDCREATUREBLOCKEND)
        } else if s == "GAME_EVENT_CONTROLLED_CREATURE_DEACTIVATE_ZTARGET"@ {
            Some(GameEventType::GAMEEVENTCONTROLLEDCREATUREDEACTIVATEZTARGET)
        } else if s == "GAME_EVENT_REMOVE_CURRENT_MODE"@ {
            Some(GameEventType::GAMEEVENTREMOVECURRENTMODE)
        } else if s == "GAME_EVENT_CONTROLLED_CREATURE_LIGHTNING"@ {
            Some(GameEventType::GAMEEVENTCONTROLLEDCREATURELIGHTNING)
        } else if s == "GAME_EVENT_CONTROLLED_CREATURE_DEACTIVATE_LIGHTNING"@ {
            Some(GameEventType::GAMEEVENTCONTROLLEDCREATUREDEACTIVATELIGHTNING)
        } else if s == "GAME_EVENT_CLOSE_LIVE_GUI"@ {
            Some(GameEventType::GAMEEVENTCLOSELIVEGUI)
        } else if s == "GAME_EVENT_CLOSE_PHOTO_CAPTURE"@ {
            Some(GameEventType::GAMEEVENTCLOSEPHOTOCAPTURE)
        } else if s == "GAME_EVENT_TAKE_THE_BLOODY_SCREENSHOT"@ {
            Some(GameEventType::GAMEEVENTTAKETHEBLOODYSCREENSHOT)
        } else if s == "GAME_EVENT_TOGGLE_CONSOLE"@ {
            Some(GameEventType::GAMEEVENTTOGGLECONSOLE)
        } else if s == "GAME_EVENT_OPEN_PC_SKILLS_MENU"@ {
            Some(GameEventType::GAMEEVENTOPENPCSKILLSMENU)
        } else if s == "GAME_EVENT_OPEN_PC_MSN_CHAT_MENU"@ {
            Some(GameEventType::GAMEEVENTOPENPCMSNCHATMENU)
        } else if s == "GAME_EVENT_OPEN_PC_INVENTORY_MENU"@ {
            Some(GameEventType::GAMEEVENTOPENPCINVENTORYMENU)
        } else if s == "GAME_EVENT_OPEN_PC_OPTIONS_MENU"@ {
            Some(GameEventType::GAMEEVENTOPENPCOPTIONSMENU)
        } else if s == "GAME_EVENT_OPEN_PC_PHOTO_JOURNAL_MENU"@ {
            Some(GameEventType::GAMEEVENTOPENPCPHOTOJOURNALMENU)
        } else if s == "GAME_EVENT_OPEN_PC_MAP_MENU"@ {
            Some(GameEventType::GAMEEVENTOPENPCMAPMENU)
        } else if s == "GAME_EVENT_OPEN_PC_BUY_TRADING_MENU"@ {
            Some(GameEventType::GAMEEVENTOPENPCBUYTRADINGMENU)
        } else if s == "GAME_EVENT_OPEN_PC_SELL_TRADING_MENU"@ {
            Some(GameEventType::GAMEEVENTOPENPCSELLTRADINGMENU)
        } else if s == "GAME_EVENT_OPEN_PC_WANTED_TRADING_MENU"@ {
            Some(GameEventType::GAMEEVENTOPENPCWANTEDTRADINGMENU)
        } else if s == "GAME_EVENT_OPEN_PC_STATUS_MENU"@ {
            Some(GameEventType::GAMEEVENTOPENPCSTATUSMENU)
        } else if s == "GAME_EVENT_OPEN_PC_SCOREBOARD"@ {
            Some(GameEventType::GAMEEVENTOPENPCSCOREBOARD)
        } else if s == "GAME_EVENT_DELETE_MENU_COMPONENTS"@ {
            Some(GameEventType::GAMEEVENTDELETEMENUCOMPONENTS)
        } else if s == "GAME_EVENT_TOGGLE_PASSIVE_AGGRESSIVE_MODE"@ {
            Some(GameEventType::GAMEEVENTTOGGLEPASSIVEAGGRESSIVEMODE)
        } else if s == "GAME_EVENT_DELETE_TRADE_ACTIVE_MENU"@ {
            Some(GameEventType::GAMEEVENTDELETETRADEACTIVEMENU)
        } else if s == "GAME_EVENT_TOGGLE_KILL_EVERYTHING_MODE"@ {
            Some(GameEventType::GAMEEVENTTOGGLEKILLEVERYTHINGMODE)
        } else if s == "GAME_EVENT_TOGGLE_VIEW_HERO_MODE"@ {
            Some(GameEventType::GAMEEVENTTOGGLEVIEWHEROMODE)
        } else if s == "GAME_EVENT_CENTRE_CAMERA"@ {
            Some(GameEventType::GAMEEVENTCENTRECAMERA)
        } else if s == "NO_GAME_EVENTS"@ {
            Some(GameEventType::NOGAMEEVENTS)
        } else {
            None
        }
    }

    /// The C++ enumerator symbol text defs use for `self`.
    pub fn symbol(self) -> (r: &'static str)
        ensures
            r@ == self.symbol_of(),
    {
        match self {
            GameEventType::GAMEEVENTNULL => "GAME_EVENT_NULL",
            GameEventType::GAMEEVENTUPDATEFRAME => "GAME_EVENT_UPDATE_FRAME",
            GameEventType::GAMEEVENTQUIT => "GAME_EVENT_QUIT",
            GameEventType::GAMEEVENTSETEXCLUSIVEMODE => "GAME_EVENT_SET_EXCLUSIVE_MODE",
            GameEventType::GAMEEVENTSETDISPLAYMODE => "GAME_EVENT_SET_DISPLAY_MODE",
            GameEventType::GAMEEVENTSETEDITORMODE => "GAME_EVENT_SET_EDITOR_MODE",
            GameEventType::GAMEEVENTFIRSTPERSONVIEWSTART => "GAME_EVENT_FIRST_PERSON_VIEW_START",
            GameEventType::GAMEEVENTCREATURECHEAT => "GAME_EVENT_CREATURE_CHEAT",
            GameEventType::GAMEEVENTPLAYERRESPAWN => "GAME_EVENT_PLAYER_RESPAWN",
            GameEventType::GAMEEVENTSETPAUSEMODE => "GAME_EVENT_SET_PAUSE_MODE",
            GameEventType::GAMEEVENTSETSLOWMOTION => "GAME_EVENT_SET_SLOW_MOTION",
            GameEventType::GAMEEVENTSETFREECAMERAMODE => "GAME_EVENT_SET_FREE_CAMERA_MODE",
            GameEventType::GAMEEVENTUSEFREECAMERA => "GAME_EVENT_USE_FREE_CAMERA",
            GameEventType::GAMEEVENTCONTROLLEDCREATUREBLOCK => "GAME_EVENT_CONTROLLED_CREATURE_BLOCK",
            GameEventType::GAMEEVENTTEMPWORLDEVENT => "GAME_EVENT_TEMP_WORLD_EVENT",
            GameEventType::GAMEEVENTAPPLYSCRIPTEDMAPBRUSHES => "GAME_EVENT_APPLY_SCRIPTED_MAP_BRUSHES",
            GameEventType::GAMEEVENTCREATUREMOVEMENT => "GAME_EVENT_CREATURE_MOVEMENT",
            GameEventType::GAMEEVENTCREATUREUSEOBJECT => "GAME_EVENT_CREATURE_USE_OBJECT",
            GameEventType::GAMEEVENTCONTROLLEDCREATURETALK => "GAME_EVENT_CONTROLLED_CREATURE_TALK",
            GameEventType::GAMEEVENTCONTROLLEDCREATURELEARNEXPRESSION => "GAME_EVENT_CONTROLLED_CREATURE_LEARN_EXPRESSION",
            GameEventType::GAMEEVENTCONTROLLEDCREATUREDROPOBJECT => "GAME_EVENT_CONTROLLED_CREATURE_DROP_OBJECT",
            GameEventType::GAMEEVENTCONTROLLEDCREATUREZTARGET => "GAME_EVENT_CONTROLLED_CREATURE_ZTARGET",
            GameEventType::GAMEEVENTCONTROLLEDCREATUREUSEABILITY => "GAME_EVENT_CONTROLLED_CREATURE_USE_ABILITY",
            GameEventType::GAMEEVENTCONTROLLEDCREATURESTARTSNEAK => "GAME_EVENT_CONTROLLED_CREATURE_START_SNEAK",
            GameEventType::GAMEEVENTCONTROLLEDCREATURESTOPSNEAK => "GAME_EVENT_CONTROLLED_CREATURE_STOP_SNEAK",
            GameEventType::GAMEEVENTCLICKPASTTEXT => "GAME_EVENT_CLICK_PAST_TEXT",
            GameEventType::GAMEEVENTOPENHEROINFOSCREEN => "GAME_EVENT_OPEN_HERO_INFO_SCREEN",
            GameEventType::GAMEEVENTCLOSEHEROINFOSCREEN => "GAME_EVENT_CLOSE_HERO_INFO_SCREEN",
            GameEventType::GAMEEVENTCLOSEINGAMEMENU => "GAME_EVENT_CLOSE_IN_GAME_MENU",
            GameEventType::GAMEEVENTQUESTIONANSWERED => "GAME_EVENT_QUESTION_ANSWERED",
            GameEventType::GAMEEVENTCONTROLLEDCREATURESTARTTHROWOBJECT => "GAME_EVENT_CONTROLLED_CREATURE_START_THROW_OBJECT",
            GameEventType::GAMEEVENTCONTROLLEDCREATUREENDTHROWOBJECT => "GAME_EVENT_CONTROLLED_CREATURE_END_THROW_OBJECT",
            GameEventType::GAMEEVENTCONTROLLEDCREATURESHEATHEWEAPON => "GAME_EVENT_CONTROLLED_CREATURE_SHEATHE_WEAPON",
            GameEventType::GAMEEVENTCONTROLLEDCREATUREUNSHEATHEMELEEWEAPON => "GAME_EVENT_CONTROLLED_CREATURE_UNSHEATHE_MELEE_WEAPON",
            GameEventType::GAMEEVENTCONTROLLEDCREATUREUNSHEATHERANGEDWEAPON => "GAME_EVENT_CONTROLLED_CREATURE_UNSHEATHE_RANGED_WEAPON",
            GameEventType::GAMEEVENTCONTROLLEDCREATUREPLAYERINTERACTION => "GAME_EVENT_CONTROLLED_CREATURE_PLAYER_INTERACTION",
            GameEventType::GAMEEVENTCONTROLLEDCREATUREGIVEITEMTOTARGET => "GAME_EVENT_CONTROLLED_CREATURE_GIVE_ITEM_TO_TARGET",
            GameEventType::GAMEEVENTCONTROLLEDCREATUREUNFREEZECONTROLS => "GAME_EVENT_CONTROLLED_CREATURE_UNFREEZE_CONTROLS",
            GameEventType::GAMEEVENTCONTROLLEDCREATUREROLL => "GAME_EVENT_CONTROLLED_CREATURE_ROLL",
            GameEventType::GAMEEVENTUSEQUICKACCESSITEM => "GAME_EVENT_USE_QUICK_ACCESS_ITEM",
            GameEventType::GAMEEVENTUSEQUICKACCESSITEMINCUTSCENE => "GAME_EVENT_USE_QUICK_ACCESS_ITEM_IN_CUTSCENE",
            GameEventType::GAMEEVENTCHARGEQUICKACCESSITEM => "GAME_EVENT_CHARGE_QUICK_ACCESS_ITEM",
            GameEventType::GAMEEVENTPUTAWAY => "GAME_EVENT_PUT_AWAY",
            GameEventType::GAMEEVENTCREATURESTRAFE => "GAME_EVENT_CREATURE_STRAFE",
            GameEventType::GAMEEVENTMOVEHEROTOREGION => "GAME_EVENT_MOVE_HERO_TO_REGION",
            GameEventType::GAMEEVENTFIRSTPERSONTARGETING => "GAME_EVENT_FIRST_PERSON_TARGETING",
            GameEventType::GAMEEVENTCONTROLLEDCREATUREDEFAULT => "GAME_EVENT_CONTROLLED_CREATURE_DEFAULT",
            GameEventType::GAMEEVENTEXPRESSIONFOLLOW => "GAME_EVENT_EXPRESSION_FOLLOW",
            GameEventType::GAMEEVENTEXPRESSIONWAIT => "GAME_EVENT_EXPRESSION_WAIT",
            GameEventType::GAMEEVENTUSEPROJECTILEWEAPON => "GAME_EVENT_USE_PROJECTILE_WEAPON",
            GameEventType::GAMEEVENTCONTROLLEDCREATUREJUMP => "GAME_EVENT_CONTROLLED_CREATURE_JUMP",
            GameEventType::GAMEEVENTSPIRITMOVEMENT => "GAME_EVENT_SPIRIT_MOVEMENT",
            GameEventType::GAMEEVENTOPENHEROCENTREDOOR => "GAME_EVENT_OPEN_HERO_CENTRE_DOOR",
            GameEventType::GAMEEVENTCLOSEHEROCENTREDOOR => "GAME_EVENT_CLOSE_HERO_CENTRE_DOOR",
            GameEventType::GAMEEVENTSPIRITATTACK => "GAME_EVENT_SPIRIT_ATTACK",
            GameEventType::GAMEEVENTCREATURESPRINT => "GAME_EVENT_CREATURE_SPRINT",
            GameEventType::GAMEEVENTSPIRITRETURNTOHERO => "GAME_EVENT_SPIRIT_RETURN_TO_HERO",
            GameEventType::GAMEEVENTSKIPCUTSCENE => "GAME_EVENT_SKIP_CUT_SCENE",
            GameEventType::GAMEEVENTUSEPROJECTILEWEAPONTHIRDPERSON => "GAME_EVENT_USE_PROJECTILE_WEAPON_THIRD_PERSON",
            GameEventType::GAMEEVENTCHARGEUPWILLSPELL => "GAME_EVENT_CHARGE_UP_WILL_SPELL",
            GameEventType::GAMEEVENTLOADGAMEFROMINGAMEMENU => "GAME_EVENT_LOAD_GAME_FROM_IN_GAME_MENU",
            GameEventType::GAMEEVENTCONTROLLEDCREATUREBLOCKEND => "GAME_EVENT_CONTROLLED_CREATURE_BLOCK_END",
            GameEventType::GAMEEVENTCONTROLLEDCREATUREDEACTIVATEZTARGET => "GAME_EVENT_CONTROLLED_CREATURE_DEACTIVATE_ZTARGET",
            GameEventType::GAMEEVENTREMOVECURRENTMODE => "GAME_EVENT_REMOVE_CURRENT_MODE",
            GameEventType::GAMEEVENTCONTROLLEDCREATURELIGHTNING => "GAME_EVENT_CONTROLLED_CREATURE_LIGHTNING",
            GameEventType::GAMEEVENTCONTROLLEDCREATUREDEACTIVATELIGHTNING => "GAME_EVENT_CONTROLLED_CREATURE_DEACTIVATE_LIGHTNING",
            GameEventType::GAMEEVENTCLOSELIVEGUI => "GAME_EVENT_CLOSE_LIVE_GUI",
            GameEventType::GAMEEVENTCLOSEPHOTOCAPTURE => "GAME_EVENT_CLOSE_PHOTO_CAPTURE",
            GameEventType::GAMEEVENTTAKETHEBLOODYSCREENSHOT => "GAME_EVENT_TAKE_THE_BLOODY_SCREENSHOT",
            GameEventType::GAMEEVENTTOGGLECONSOLE => "GAME_EVENT_TOGGLE_CONSOLE",
            GameEventType::GAMEEVENTOPENPCSKILLSMENU => "GAME_EVENT_OPEN_PC_SKILLS_MENU",
            GameEventType::GAMEEVENTOPENPCMSNCHATMENU => "GAME_EVENT_OPEN_PC_MSN_CHAT_MENU",
            GameEventType::GAMEEVENTOPENPCINVENTORYMENU => "GAME_EVENT_OPEN_PC_INVENTORY_MENU",
            GameEventType::GAMEEVENTOPENPCOPTIONSMENU => "GAME_EVENT_OPEN_PC_OPTIONS_MENU",
            GameEventType::GAMEEVENTOPENPCPHOTOJOURNALMENU => "GAME_EVENT_OPEN_PC_PHOTO_JOURNAL_MENU",
            GameEventType::GAMEEVENTOPENPCMAPMENU => "GAME_EVENT_OPEN_PC_MAP_MENU",
            GameEventType::GAMEEVENTOPENPCBUYTRADINGMENU => "GAME_EVENT_OPEN_PC_BUY_TRADING_MENU",
            GameEventType::GAMEEVENTOPENPCSELLTRADINGMENU => "GAME_EVENT_OPEN_PC_SELL_TRADING_MENU",
            GameEventType::GAMEEVENTOPENPCWANTEDTRADINGMENU => "GAME_EVENT_OPEN_PC_WANTED_TRADING_MENU",
            GameEventType::GAMEEVENTOPENPCSTATUSMENU => "GAME_EVENT_OPEN_PC_STATUS_MENU",
            GameEventType::GAMEEVENTOPENPCSCOREBOARD => "GAME_EVENT_OPEN_PC_SCOREBOARD",
            GameEventType::GAMEEVENTDELETEMENUCOMPONENTS => "GAME_EVENT_DELETE_MENU_COMPONENTS",
            GameEventType::GAMEEVENTTOGGLEPASSIVEAGGRESSIVEMODE => "GAME_EVENT_TOGGLE_PASSIVE_AGGRESSIVE_MODE",
            GameEventType::GAMEEVENTDELETETRADEACTIVEMENU => "GAME_EVENT_DELETE_TRADE_ACTIVE_MENU",
            GameEventType::GAMEEVENTTOGGLEKILLEVERYTHINGMODE => "GAME_EVENT_TOGGLE_KILL_EVERYTHING_MODE",
            GameEventType::GAMEEVENTTOGGLEVIEWHEROMODE => "GAME_EVENT_TOGGLE_VIEW_HERO_MODE",
            GameEventType::GAMEEVENTCENTRECAMERA => "GAME_EVENT_CENTRE_CAMERA",
            GameEventType::NOGAMEEVENTS => "NO_GAME_EVENTS",
        }
    }

    /// The variant a C++ enumerator symbol names.
    pub fn from_symbol(s: &str) -> (r: Option<Self>)
        ensures
            r == Self::symbol_lookup(s@),
    {
        if str_eq(s, "GAME_EVENT_NULL") {
            return Some(GameEventType::GAMEEVENTNULL);
        }
        if str_eq(s, "GAME_EVENT_UPDATE_FRAME") {
            return Some(GameEventType::GAMEEVENTUPDATEFRAME);
        }
        if str_eq(s, "GAME_EVENT_QUIT") {
            return Some(GameEventType::GAMEEVENTQUIT);
        }
        if str_eq(s, "GAME_EVENT_SET_EXCLUSIVE_MODE") {
            return Some(GameEventType::GAMEEVENTSETEXCLUSIVEMODE);
        }
        if str_eq(s, "GAME_EVENT_SET_DISPLAY_MODE") {
            return Some(GameEventType::GAMEEVENTSETDISPLAYMODE);
        }
        if str_eq(s, "GAME_EVENT_SET_EDITOR_MODE") {
            return Some(GameEventType::GAMEEVENTSETEDITORMODE);
        }
        if str_eq(s, "GAME_EVENT_FIRST_PERSON_VIEW_START") {
            return Some(GameEventType::GAMEEVENTFIRSTPERSONVIEWSTART);
        }
        if str_eq(s, "GAME_EVENT_CREATURE_CHEAT") {
            return Some(GameEventType::GAMEEVENTCREATURECHEAT);
        }
        if str_eq(s, "GAME_EVENT_PLAYER_RESPAWN") {
            return Some(GameEventType::GAMEEVENTPLAYERRESPAWN);
        }
        if str_eq(s, "GAME_EVENT_SET_PAUSE_MODE") {
            return Some(GameEventType::GAMEEVENTSETPAUSEMODE);
        }
        if str_eq(s, "GAME_EVENT_SET_SLOW_MOTION") {
            return Some(GameEventType::GAMEEVENTSETSLOWMOTION);
        }
        if str_eq(s, "GAME_EVENT_SET_FREE_CAMERA_MODE") {
            return Some(GameEventType::GAMEEVENTSETFREECAMERAMODE);
        }
        if str_eq(s, "GAME_EVENT_USE_FREE_CAMERA") {
            return Some(GameEventType::GAMEEVENTUSEFREECAMERA);
        }
        if str_eq(s, "GAME_EVENT_CONTROLLED_CREATURE_BLOCK") {
            return Some(GameEventType::GAMEEVENTCONTROLLEDCREATUREBLOCK);
        }
        if str_eq(s, "GAME_EVENT_TEMP_WORLD_EVENT") {
            return Some(GameEventType::GAMEEVENTTEMPWORLDEVENT);
        }
        if str_eq(s, "GAME_EVENT_APPLY_SCRIPTED_MAP_BRUSHES") {
            return Some(GameEventType::GAMEEVENTAPPLYSCRIPTEDMAPBRUSHES);
        }
        if str_eq(s, "GAME_EVENT_CREATURE_MOVEMENT") {
            return Some(GameEventType::GAMEEVENTCREATUREMOVEMENT);
        }
        if str_eq(s, "GAME_EVENT_CREATURE_USE_OBJECT") {
            return Some(GameEventType::GAMEEVENTCREATUREUSEOBJECT);
        }
        if str_eq(s, "GAME_EVENT_CONTROLLED_CREATURE_TALK") {
            return Some(GameEventType::GAMEEVENTCONTROLLEDCREATURETALK);
        }
        if str_eq(s, "GAME_EVENT_CONTROLLED_CREATURE_LEARN_EXPRESSION") {
            return Some(GameEventType::GAMEEVENTCONTROLLEDCREATURELEARNEXPRESSION);
        }
        if str_eq(s, "GAME_EVENT_CONTROLLED_CREATURE_DROP_OBJECT") {
            return Some(GameEventType::GAMEEVENTCONTROLLEDCREATUREDROPOBJECT);
        }
        if str_eq(s, "GAME_EVENT_CONTROLLED_CREATURE_ZTARGET") {
            return Some(GameEventType::GAMEEVENTCONTROLLEDCREATUREZTARGET);
        }
        if str_eq(s, "GAME_EVENT_CONTROLLED_CREATURE_USE_ABILITY") {
            return Some(GameEventType::GAMEEVENTCONTROLLEDCREATUREUSEABILITY);
        }
        if str_eq(s, "GAME_EVENT_CONTROLLED_CREATURE_START_SNEAK") {
            return Some(GameEventType::GAMEEVENTCONTROLLEDCREATURESTARTSNEAK);
        }
        if str_eq(s, "GAME_EVENT_CONTROLLED_CREATURE_STOP_SNEAK") {
            return Some(GameEventType::GAMEEVENTCONTROLLEDCREATURESTOPSNEAK);
        }
        if str_eq(s, "GAME_EVENT_CLICK_PAST_TEXT") {
            return Some(GameEventType::GAMEEVENTCLICKPASTTEXT);
        }
        if str_eq(s, "GAME_EVENT_OPEN_HERO_INFO_SCREEN") {
            return Some(GameEventType::GAMEEVENTOPENHEROINFOSCREEN);
        }
        if str_eq(s, "GAME_EVENT_CLOSE_HERO_INFO_SCREEN") {
            return Some(GameEventType::GAMEEVENTCLOSEHEROINFOSCREEN);
        }
        if str_eq(s, "GAME_EVENT_CLOSE_IN_GAME_MENU") {
            return Some(GameEventType::GAMEEVENTCLOSEINGAMEMENU);
        }
        if str_eq(s, "GAME_EVENT_QUESTION_ANSWERED") {
            return Some(GameEventType::GAMEEVENTQUESTIONANSWERED);
        }
        if str_eq(s, "GAME_EVENT_CONTROLLED_CREATURE_START_THROW_OBJECT") {
            return Some(GameEventType::GAMEEVENTCONTROLLEDCREATURESTARTTHROWOBJECT);
        }
        if str_eq(s, "GAME_EVENT_CONTROLLED_CREATURE_END_THROW_OBJECT") {
            return Some(GameEventType::GAMEEVENTCONTROLLEDCREATUREENDTHROWOBJECT);
        }
        if str_eq(s, "GAME_EVENT_CONTROLLED_CREATURE_SHEATHE_WEAPON") {
            return Some(GameEventType::GAMEEVENTCONTROLLEDCREATURESHEATHEWEAPON);
        }
        if str_eq(s, "GAME_EVENT_CONTROLLED_CREATURE_UNSHEATHE_MELEE_WEAPON") {
            return Some(GameEventType::GAMEEVENTCONTROLLEDCREATUREUNSHEATHEMELEEWEAPON);
        }
        if str_eq(s, "GAME_EVENT_CONTROLLED_CREATURE_UNSHEATHE_RANGED_WEAPON") {
            return Some(GameEventType::GAMEEVENTCONTROLLEDCREATUREUNSHEATHERANGEDWEAPON);
        }
        if str_eq(s, "GAME_EVENT_CONTROLLED_CREATURE_PLAYER_INTERACTION") {
            return Some(GameEventType::GAMEEVENTCONTROLLEDCREATUREPLAYERINTERACTION);
        }
        if str_eq(s, "GAME_EVENT_CONTROLLED_CREATURE_GIVE_ITEM_TO_TARGET") {
            return Some(GameEventType::GAMEEVENTCONTROLLEDCREATUREGIVEITEMTOTARGET);
        }
        if str_eq(s, "GAME_EVENT_CONTROLLED_CREATURE_UNFREEZE_CONTROLS") {
            return Some(GameEventType::GAMEEVENTCONTROLLEDCREATUREUNFREEZECONTROLS);
        }
        if str_eq(s, "GAME_EVENT_CONTROLLED_CREATURE_ROLL") {
            return Some(GameEventType::GAMEEVENTCONTROLLEDCREATUREROLL);
        }
        if str_eq(s, "GAME_EVENT_USE_QUICK_ACCESS_ITEM") {
            return Some(GameEventType::GAMEEVENTUSEQUICKACCESSITEM);
        }
        if str_eq(s, "GAME_EVENT_USE_QUICK_ACCESS_ITEM_IN_CUTSCENE") {
            return Some(GameEventType::GAMEEVENTUSEQUICKACCESSITEMINCUTSCENE);
        }
        if str_eq(s, "GAME_EVENT_CHARGE_QUICK_ACCESS_ITEM") {
            return Some(GameEventType::GAMEEVENTCHARGEQUICKACCESSITEM);
        }
        if str_eq(s, "GAME_EVENT_PUT_AWAY") {
            return Some(GameEventType::GAMEEVENTPUTAWAY);
        }
        if str_eq(s, "GAME_EVENT_CREATURE_STRAFE") {
            return Some(GameEventType::GAMEEVENTCREATURESTRAFE);
        }
        if str_eq(s, "GAME_EVENT_MOVE_HERO_TO_REGION") {
            return Some(GameEventType::GAMEEVENTMOVEHEROTOREGION);
        }
        if str_eq(s, "GAME_EVENT_FIRST_PERSON_TARGETING") {
            return Some(GameEventType::GAMEEVENTFIRSTPERSONTARGETING);
        }
        if str_eq(s, "GAME_EVENT_CONTROLLED_CREATURE_DEFAULT") {
            return Some(GameEventType::GAMEEVENTCONTROLLEDCREATUREDEFAULT);
        }
        if str_eq(s, "GAME_EVENT_EXPRESSION_FOLLOW") {
            return Some(GameEventType::GAMEEVENTEXPRESSIONFOLLOW);
        }
        if str_eq(s, "GAME_EVENT_EXPRESSION_WAIT") {
            return Some(GameEventType::GAMEEVENTEXPRESSIONWAIT);
        }
        if str_eq(s, "GAME_EVENT_USE_PROJECTILE_WEAPON") {
            return Some(GameEventType::GAMEEVENTUSEPROJECTILEWEAPON);
        }
        if str_eq(s, "GAME_EVENT_CONTROLLED_CREATURE_JUMP") {
            return Some(GameEventType::GAMEEVENTCONTROLLEDCREATUREJUMP);
        }
        if str_eq(s, "GAME_EVENT_SPIRIT_MOVEMENT") {
            return Some(GameEventType::GAMEEVENTSPIRITMOVEMENT);
        }
        if str_eq(s, "GAME_EVENT_OPEN_HERO_CENTRE_DOOR") {
            return Some(GameEventType::GAMEEVENTOPENHEROCENTREDOOR);
        }
        if str_eq(s, "GAME_EVENT_CLOSE_HERO_CENTRE_DOOR") {
            return Some(GameEventType::GAMEEVENTCLOSEHEROCENTREDOOR);
        }
        if str_eq(s, "GAME_EVENT_SPIRIT_ATTACK") {
            return Some(GameEventType::GAMEEVENTSPIRITATTACK);
        }
        if str_eq(s, "GAME_EVENT_CREATURE_SPRINT") {
            return Some(GameEventType::GAMEEVENTCREATURESPRINT);
        }
        if str_eq(s, "GAME_EVENT_SPIRIT_RETURN_TO_HERO") {
            return Some(GameEventType::GAMEEVENTSPIRITRETURNTOHERO);
        }
        if str_eq(s, "GAME_EVENT_SKIP_CUT_SCENE") {
            return Some(GameEventType::GAMEEVENTSKIPCUTSCENE);
        }
        if str_eq(s, "GAME_EVENT_USE_PROJECTILE_WEAPON_THIRD_PERSON") {
            return Some(GameEventType::GAMEEVENTUSEPROJECTILEWEAPONTHIRDPERSON);
        }
        if str_eq(s, "GAME_EVENT_CHARGE_UP_WILL_SPELL") {
            return Some(GameEventType::GAMEEVENTCHARGEUPWILLSPELL);
        }
        if str_eq(s, "GAME_EVENT_LOAD_GAME_FROM_IN_GAME_MENU") {
            return Some(GameEventType::GAMEEVENTLOADGAMEFROMINGAMEMENU);
        }
        if str_eq(s, "GAME_EVENT_CONTROLLED_CREATURE_BLOCK_END") {
            return Some(GameEventType::GAMEEVENTCONTROLLEDCREATUREBLOCKEND);
        }
        if str_eq(s, "GAME_EVENT_CONTROLLED_CREATURE_DEACTIVATE_ZTARGET") {
            return Some(GameEventType::GAMEEVENTCONTROLLEDCREATUREDEACTIVATEZTARGET);
        }
        if str_eq(s, "GAME_EVENT_REMOVE_CURRENT_MODE") {
            return Some(GameEventType::GAMEEVENTREMOVECURRENTMODE);
        }
        if str_eq(s, "GAME_EVENT_CONTROLLED_CREATURE_LIGHTNING") {
            return Some(GameEventType::GAMEEVENTCONTROLLEDCREATURELIGHTNING);
        }
        if str_eq(s, "GAME_EVENT_CONTROLLED_CREATURE_DEACTIVATE_LIGHTNING") {
            return Some(GameEventType::GAMEEVENTCONTROLLEDCREATUREDEACTIVATELIGHTNING);
        }
        if str_eq(s, "GAME_EVENT_CLOSE_LIVE_GUI") {
            return Some(GameEventType::GAMEEVENTCLOSELIVEGUI);
        }
        if str_eq(s, "GAME_EVENT_CLOSE_PHOTO_CAPTURE") {
            return Some(GameEventType::GAMEEVENTCLOSEPHOTOCAPTURE);
        }
        if str_eq(s, "GAME_EVENT_TAKE_THE_BLOODY_SCREENSHOT") {
            return Some(GameEventType::GAMEEVENTTAKETHEBLOODYSCREENSHOT);
        }
        if str_eq(s, "GAME_EVENT_TOGGLE_CONSOLE") {
            return Some(GameEventType::GAMEEVENTTOGGLECONSOLE);
        }
        if str_eq(s, "GAME_EVENT_OPEN_PC_SKILLS_MENU") {
            return Some(GameEventType::GAMEEVENTOPENPCSKILLSMENU);
        }
        if str_eq(s, "GAME_EVENT_OPEN_PC_MSN_CHAT_MENU") {
            return Some(GameEventType::GAMEEVENTOPENPCMSNCHATMENU);
        }
        if str_eq(s, "GAME_EVENT_OPEN_PC_INVENTORY_MENU") {
            return Some(GameEventType::GAMEEVENTOPENPCINVENTORYMENU);
        }
        if str_eq(s, "GAME_EVENT_OPEN_PC_OPTIONS_MENU") {
            return Some(GameEventType::GAMEEVENTOPENPCOPTIONSMENU);
        }
        if str_eq(s, "GAME_EVENT_OPEN_PC_PHOTO_JOURNAL_MENU") {
            return Some(GameEventType::GAMEEVENTOPENPCPHOTOJOURNALMENU);
        }
        if str_eq(s, "GAME_EVENT_OPEN_PC_MAP_MENU") {
            return Some(GameEventType::GAMEEVENTOPENPCMAPMENU);
        }
        if str_eq(s, "GAME_EVENT_OPEN_PC_BUY_TRADING_MENU") {
            return Some(GameEventType::GAMEEVENTOPENPCBUYTRADINGMENU);
        }
        if str_eq(s, "GAME_EVENT_OPEN_PC_SELL_TRADING_MENU") {
            return Some(GameEventType::GAMEEVENTOPENPCSELLTRADINGMENU);
        }
        if str_eq(s, "GAME_EVENT_OPEN_PC_WANTED_TRADING_MENU") {
            return Some(GameEventType::GAMEEVENTOPENPCWANTEDTRADINGMENU);
        }
        if str_eq(s, "GAME_EVENT_OPEN_PC_STATUS_MENU") {
            return Some(GameEventType::GAMEEVENTOPENPCSTATUSMENU);
        }
        if str_eq(s, "GAME_EVENT_OPEN_PC_SCOREBOARD") {
            return Some(GameEventType::GAMEEVENTOPENPCSCOREBOARD);
        }
        if str_eq(s, "GAME_EVENT_DELETE_MENU_COMPONENTS") {
            return Some(GameEventType::GAMEEVENTDELETEMENUCOMPONENTS);
        }
        if str_eq(s, "GAME_EVENT_TOGGLE_PASSIVE_AGGRESSIVE_MODE") {
            return Some(GameEventType::GAMEEVENTTOGGLEPASSIVEAGGRESSIVEMODE);
        }
        if str_eq(s, "GAME_EVENT_DELETE_TRADE_ACTIVE_MENU") {
            return Some(GameEventType::GAMEEVENTDELETETRADEACTIVEMENU);
        }
        if str_eq(s, "GAME_EVENT_TOGGLE_KILL_EVERYTHING_MODE") {
            return Some(GameEventType::GAMEEVENTTOGGLEKILLEVERYTHINGMODE);
        }
        if str_eq(s, "GAME_EVENT_TOGGLE_VIEW_HERO_MODE") {
            return Some(GameEventType::GAMEEVENTTOGGLEVIEWHEROMODE);
        }
        if str_eq(s, "GAME_EVENT_CENTRE_CAMERA") {
            return Some(GameEventType::GAMEEVENTCENTRECAMERA);
        }
        if str_eq(s, "NO_GAME_EVENTS") {
            return Some(GameEventType::NOGAMEEVENTS);
        }
        None
    }
}

#[derive(Debug, Clone, Copy, PartialEq, Eq, Structural, PartialOrd, Ord, Hash)]
pub enum GiftType {
    FRIENDLY,
    ROMANTIC,
    OFFENSIVE,
}

impl DefEnum for GiftType {
    open spec fn wire_value(self) -> i32 {
        match self {
            GiftType::FRIENDLY => 0i32,
            GiftType::ROMANTIC => 1i32,
            GiftType::OFFENSIVE => 2i32,
        }
    }

    open spec fn lookup(value: i32) -> Option<Self> {
        match value {
            0i32 => Some(GiftType::FRIENDLY),
            1i32 => Some(GiftType::ROMANTIC),
            2i32 => Some(GiftType::OFFENSIVE),
            _ => None,
        }
    }

    fn from_i32(value: i32) -> (r: Option<Self>) {
        match value {
            0i32 => Some(GiftType::FRIENDLY),
            1i32 => Some(GiftType::ROMANTIC),
            2i32 => Some(GiftType::OFFENSIVE),
            _ => None,
        }
    }

    fn to_i32(self) -> (r: i32) {
        match self {
            GiftType::FRIENDLY => 0i32,
            GiftType::ROMANTIC => 1i32,
            GiftType::OFFENSIVE => 2i32,
        }
    }

    proof fn lemma_lookup_wire_value(e: Self) {
    }
}

impl GiftType {
    /// The C++ enumerator symbol of `self`.
    pub open spec fn symbol_of(self) -> Seq<char> {
        match self {
            GiftType::FRIENDLY => "GIFT_TYPE_FRIENDLY"@,
            GiftType::ROMANTIC => "GIFT_TYPE_ROMANTIC"@,
            GiftType::OFFENSIVE => "GIFT_TYPE_OFFENSIVE"@,
        }
    }

    /// The first variant whose symbol is `s`, if any.
    pub open spec fn symbol_lookup(s: Seq<char>) -> Option<Self> {
        if s == "GIFT_TYPE_FRIENDLY"@ {
            Some(GiftType::FRIENDLY)
        } else if s == "GIFT_TYPE_ROMANTIC"@ {
            Some(GiftType::ROMANTIC)
        } else if s == "GIFT_TYPE_OFFENSIVE"@ {
            Some(GiftType::OFFENSIVE)
        } else {
            None
        }
    }

    /// The C++ enumerator symbol text defs use for `self`.
    pub fn symbol(self) -> (r: &'static str)
        ensures
            r@ == self.symbol_of(),
    {
        match self {
            GiftType::FRIENDLY => "GIFT_TYPE_FRIENDLY",
            GiftType::ROMANTIC => "GIFT_TYPE_ROMANTIC",
            GiftType::OFFENSIVE => "GIFT_TYPE_OFFENSIVE",
        }
    }

    /// The variant a C++ enumerator symbol names.
    pub fn from_symbol(s: &str) -> (r: Option<Self>)
        ensures
            r == Self::symbol_lookup(s@),
    {
        if str_eq(s, "GIFT_TYPE_FRIENDLY") {
            return Some(GiftType::FRIENDLY);
        }
        if str_eq(s, "GIFT_TYPE_ROMANTIC") {
            return Some(GiftType::ROMANTIC);
        }
        if str_eq(s, "GIFT_TYPE_OFFENSIVE") {
            return Some(GiftType::OFFENSIVE);
        }
        None
    }
}

#[derive(Debug, Clone, Copy, PartialEq, Eq, Structural, PartialOrd, Ord, Hash)]
pub enum HeroAbility {
    HEROABILITYNULL,
    HEROABILITYFORCEPUSH,
    HEROABILITYTIMESPELL,
    HEROABILITYENFLAMESPELL,
    HEROABILITYPHYSICALSHIELDSPELL,
    HEROABILITYTURNCOATSPELL,
    HEROABILITYDRAINLIFESPELL,
    HEROABILITYRAISEDEADSPELL,
    HEROABILITYBERSERK,
    HEROABILITYDOUBLESTRIKE,
    HEROABILITYSUMMONSPELL,
    HEROABILITYLIGHTNINGSPELL,
    HEROABILITYBATTLECHARGE,
    HEROABILITYASSASSINRUSH,
    HEROABILITYHEALLIFESPELL,
    HEROABILITYGHOSTSWORDSPELL,
    HEROABILITYFIREBALLSPELL,
    HEROABILITYMULTIARROW,
    HEROABILITYDIVINEWRATHSPELL,
    HEROABILITYUNHOLYPOWERSPELL,
    MAXNUMBEROFHEROABILITIES,
}

impl DefEnum for HeroAbility {
    open spec fn wire_value(self) -> i32 {
        match self {
            HeroAbility::HEROABILITYNULL => 0i32,
            HeroAbility::HEROABILITYFORCEPUSH => 1i32,
            HeroAbility::HEROABILITYTIMESPELL => 2i32,
            HeroAbility::HEROABILITYENFLAMESPELL => 3i32,
            HeroAbility::HEROABILITYPHYSICALSHIELDSPELL => 4i32,
            HeroAbility::HEROABILITYTURNCOATSPELL => 5i32,
            HeroAbility::HEROABILITYDRAINLIFESPELL => 6i32,
            HeroAbility::HEROABILITYRAISEDEADSPELL => 7i32,
            HeroAbility::HEROABILITYBERSERK => 8i32,
            HeroAbility::HEROABILITYDOUBLESTRIKE => 9i32,
            HeroAbility::HEROABILITYSUMMONSPELL => 10i32,
            HeroAbility::HEROABILITYLIGHTNINGSPELL => 11i32,
            HeroAbility::HEROABILITYBATTLECHARGE => 12i32,
            HeroAbility::HEROABILITYASSASSINRUSH => 13i32,
            HeroAbility::HEROABILITYHEALLIFESPELL => 14i32,
            HeroAbility::HEROABILITYGHOSTSWORDSPELL => 15i32,
            HeroAbility::HEROABILITYFIREBALLSPELL => 16i32,
            HeroAbility::HEROABILITYMULTIARROW => 17i32,
            HeroAbility::HEROABILITYDIVINEWRATHSPELL => 18i32,
            HeroAbility::HEROABILITYUNHOLYPOWERSPELL => 19i32,
            HeroAbility::MAXNUMBEROFHEROABILITIES => 20i32,
        }
    }

    open spec fn lookup(value: i32) -> Option<Self> {
        match value {
            0i32 => Some(HeroAbility::HEROABILITYNULL),
            1i32 => Some(HeroAbility::HEROABILITYFORCEPUSH),
            2i32 => Some(HeroAbility::HEROABILITYTIMESPELL),
            3i32 => Some(HeroAbility::HEROABILITYENFLAMESPELL),
            4i32 => Some(HeroAbility::HEROABILITYPHYSICALSHIELDSPELL),
            5i32 => Some(HeroAbility::HEROABILITYTURNCOATSPELL),
            6i32 => Some(HeroAbility::HEROABILITYDRAINLIFESPELL),
            7i32 => Some(HeroAbility::HEROABILITYRAISEDEADSPELL),
            8i32 => Some(HeroAbility::HEROABILITYBERSERK),
            9i32 => Some(HeroAbility::HEROABILITYDOUBLESTRIKE),
            10i32 => Some(HeroAbility::HEROABILITYSUMMONSPELL),
            11i32 => Some(HeroAbility::HEROABILITYLIGHTNINGSPELL),
            12i32 => Some(HeroAbility::HEROABILITYBATTLECHARGE),
            13i32 => Some(HeroAbility::HEROABILITYASSASSINRUSH),
            14i32 => Some(HeroAbility::HEROABILITYHEALLIFESPELL),
            15i32 => Some(HeroAbility::HEROABILITYGHOSTSWORDSPELL),
            16i32 => Some(HeroAbility::HEROABILITYFIREBALLSPELL),
            17i32 => Some(HeroAbility::HEROABILITYMULTIARROW),
            18i32 => Some(HeroAbility::HEROABILITYDIVINEWRATHSPELL),
            19i32 => Some(HeroAbility::HEROABILITYUNHOLYPOWERSPELL),
            20i32 => Some(HeroAbility::MAXNUMBEROFHEROABILITIES),
            _ => None,
        }
    }

    fn from_i32(value: i32) -> (r: Option<Self>) {
        match value {
            0i32 => Some(HeroAbility::HEROABILITYNULL),
            1i32 => Some(HeroAbility::HEROABILITYFORCEPUSH),
            2i32 => Some(HeroAbility::HEROABILITYTIMESPELL),
            3i32 => Some(HeroAbility::HEROABILITYENFLAMESPELL),
            4i32 => Some(HeroAbility::HEROABILITYPHYSICALSHIELDSPELL),
            5i32 => Some(HeroAbility::HEROABILITYTURNCOATSPELL),
            6i32 => Some(HeroAbility::HEROABILITYDRAINLIFESPELL),
            7i32 => Some(HeroAbility::HEROABILITYRAISEDEADSPELL),
            8i32 => Some(HeroAbility::HEROABILITYBERSERK),
            9i32 => Some(HeroAbility::HEROABILITYDOUBLESTRIKE),
            10i32 => Some(HeroAbility::HEROABILITYSUMMONSPELL),
            11i32 => Some(HeroAbility::HEROABILITYLIGHTNINGSPELL),
            12i32 => Some(HeroAbility::HEROABILITYBATTLECHARGE),
            13i32 => Some(HeroAbility::HEROABILITYASSASSINRUSH),
            14i32 => Some(HeroAbility::HEROABILITYHEALLIFESPELL),
            15i32 => Some(HeroAbility::HEROABILITYGHOSTSWORDSPELL),
            16i32 => Some(HeroAbility::HEROABILITYFIREBALLSPELL),
            17i32 => Some(HeroAbility::HEROABILITYMULTIARROW),
            18i32 => Some(HeroAbility::HEROABILITYDIVINEWRATHSPELL),
            19i32 => Some(HeroAbility::HEROABILITYUNHOLYPOWERSPELL),
            20i32 => Some(HeroAbility::MAXNUMBEROFHEROABILITIES),
            _ => None,
        }
    }

    fn to_i32(self) -> (r: i32) {
        match self {
            HeroAbility::HEROABILITYNULL => 0i32,
            HeroAbility::HEROABILITYFORCEPUSH => 1i32,
            HeroAbility::HEROABILITYTIMESPELL => 2i32,
            HeroAbility::HEROABILITYENFLAMESPELL => 3i32,
            HeroAbility::HEROABILITYPHYSICALSHIELDSPELL => 4i32,
            HeroAbility::HEROABILITYTURNCOATSPELL => 5i32,
            HeroAbility::HEROABILITYDRAINLIFESPELL => 6i32,
            HeroAbility::HEROABILITYRAISEDEADSPELL => 7i32,
            HeroAbility::HEROABILITYBERSERK => 8i32,
            HeroAbility::HEROABILITYDOUBLESTRIKE => 9i32,
            HeroAbility::HEROABILITYSUMMONSPELL => 10i32,
            HeroAbility::HEROABILITYLIGHTNINGSPELL => 11i32,
            HeroAbility::HEROABILITYBATTLECHARGE => 12i32,
            HeroAbility::HEROABILITYASSASSINRUSH => 13i32,
            HeroAbility::HEROABILITYHEALLIFESPELL => 14i32,
            HeroAbility::HEROABILITYGHOSTSWORDSPELL => 15i32,
            HeroAbility::HEROABILITYFIREBALLSPELL => 16i32,
            HeroAbility::HEROABILITYMULTIARROW => 17i32,
            HeroAbility::HEROABILITYDIVINEWRATHSPELL => 18i32,
            HeroAbility::HEROABILITYUNHOLYPOWERSPELL => 19i32,
            HeroAbility::MAXNUMBEROFHEROABILITIES => 20i32,
        }
    }

    proof fn lemma_lookup_wire_value(e: Self) {
    }
}

impl HeroAbility {
    /// The C++ enumerator symbol of `self`.
    pub open spec fn symbol_of(self) -> Seq<char> {
        match self {
            HeroAbility::HEROABILITYNULL => "HERO_ABILITY_NULL"@,
            HeroAbility::HEROABILITYFORCEPUSH => "HERO_ABILITY_FORCE_PUSH"@,
            HeroAbility::HEROABILITYTIMESPELL => "HERO_ABILITY_TIME_SPELL"@,
            HeroAbility::HEROABILITYENFLAMESPELL => "HERO_ABILITY_ENFLAME_SPELL"@,
            HeroAbility::HEROABILITYPHYSICALSHIELDSPELL => "HERO_ABILITY_PHYSICAL_SHIELD_SPELL"@,
            HeroAbility::HEROABILITYTURNCOATSPELL => "HERO_ABILITY_TURNCOAT_SPELL"@,
            HeroAbility::HEROABILITYDRAINLIFESPELL => "HERO_ABILITY_DRAIN_LIFE_SPELL"@,
            HeroAbility::HEROABILITYRAISEDEADSPELL => "HERO_ABILITY_RAISE_DEAD_SPELL"@,
            HeroAbility::HEROABILITYBERSERK => "HERO_ABILITY_BERSERK"@,
            HeroAbility::HEROABILITYDOUBLESTRIKE => "HERO_ABILITY_DOUBLE_STRIKE"@,
            HeroAbility::HEROABILITYSUMMONSPELL => "HERO_ABILITY_SUMMON_SPELL"@,
            HeroAbility::HEROABILITYLIGHTNINGSPELL => "HERO_ABILITY_LIGHTNING_SPELL"@,
            HeroAbility::HEROABILITYBATTLECHARGE => "HERO_ABILITY_BATTLE_CHARGE"@,
            HeroAbility::HEROABILITYASSASSINRUSH => "HERO_ABILITY_ASSASSIN_RUSH"@,
            HeroAbility::HEROABILITYHEALLIFESPELL => "HERO_ABILITY_HEAL_LIFE_SPELL"@,
            HeroAbility::HEROABILITYGHOSTSWORDSPELL => "HERO_ABILITY_GHOST_SWORD_SPELL"@,
            HeroAbility::HEROABILITYFIREBALLSPELL => "HERO_ABILITY_FIREBALL_SPELL"@,
            HeroAbility::HEROABILITYMULTIARROW => "HERO_ABILITY_MULTI_ARROW"@,
            HeroAbility::HEROABILITYDIVINEWRATHSPELL => "HERO_ABILITY_DIVINE_WRATH_SPELL"@,
            HeroAbility::HEROABILITYUNHOLYPOWERSPELL => "HERO_ABILITY_UNHOLY_POWER_SPELL"@,
            HeroAbility::MAXNUMBEROFHEROABILITIES => "MAX_NUMBER_OF_HERO_ABILITIES"@,
        }
    }

    /// The first variant whose symbol is `s`, if any.
    pub open spec fn symbol_lookup(s: Seq<char>) -> Option<Self> {
        if s == "HERO_ABILITY_NULL"@ {
            Some(HeroAbility::HEROABILITYNULL)
        } else if s == "HERO_ABILITY_FORCE_PUSH"@ {
            Some(HeroAbility::HEROABILITYFORCEPUSH)
        } else if s == "HERO_ABILITY_TIME_SPELL"@ {
            Some(HeroAbility::HEROABILITYTIMESPELL)
        } else if s == "HERO_ABILITY_ENFLAME_SPELL"@ {
            Some(HeroAbility::HEROABILITYENFLAMESPELL)
        } else if s == "HERO_ABILITY_PHYSICAL_SHIELD_SPELL"@ {
            Some(HeroAbility::HEROABILITYPHYSICALSHIELDSPELL)
        } else if s == "HERO_ABILITY_TURNCOAT_SPELL"@ {
            Some(HeroAbility::HEROABILITYTURNCOATSPELL)
        } else if s == "HERO_ABILITY_DRAIN_LIFE_SPELL"@ {
            Some(HeroAbility::HEROABILITYDRAINLIFESPELL)
        } else if s == "HERO_ABILITY_RAISE_DEAD_SPELL"@ {
            Some(HeroAbility::HEROABILITYRAISEDEADSPELL)
        } else if s == "HERO_ABILITY_BERSERK"@ {
            Some(HeroAbility::HEROABILITYBERSERK)
        } else if s == "HERO_ABILITY_DOUBLE_STRIKE"@ {
            Some(HeroAbility::HEROABILITYDOUBLESTRIKE)
        } else if s == "HERO_ABILITY_SUMMON_SPELL"@ {
            Some(HeroAbility::HEROABILITYSUMMONSPELL)
        } else if s == "HERO_ABILITY_LIGHTNING_SPELL"@ {
            Some(HeroAbility::HEROABILITYLIGHTNINGSPELL)
        } else if s == "HERO_ABILITY_BATTLE_CHARGE"@ {
            Some(HeroAbility::HEROABILITYBATTLECHARGE)
        } else if s == "HERO_ABILITY_ASSASSIN_RUSH"@ {
            Some(HeroAbility::HEROABILITYASSASSINRUSH)
        } else if s == "HERO_ABILITY_HEAL_LIFE_SPELL"@ {
            Some(HeroAbility::HEROABILITYHEALLIFESPELL)
        } else if s == "HERO_ABILITY_GHOST_SWORD_SPELL"@ {
            Some(HeroAbility::HEROABILITYGHOSTSWORDSPELL)
        } else if s == "HERO_ABILITY_FIREBALL_SPELL"@ {
            Some(HeroAbility::HEROABILITYFIREBALLSPELL)
        } else if s == "HERO_ABILITY_MULTI_ARROW"@ {
            Some(HeroAbility::HEROABILITYMULTIARROW)
        } else if s == "HERO_ABILITY_DIVINE_WRATH_SPELL"@ {
            Some(HeroAbility::HEROABILITYDIVINEWRATHSPELL)
        } else if s == "HERO_ABILITY_UNHOLY_POWER_SPELL"@ {
            Some(HeroAbility::HEROABILITYUNHOLYPOWERSPELL)
        } else if s == "MAX_NUMBER_OF_HERO_ABILITIES"@ {
            Some(HeroAbility::MAXNUMBEROFHEROABILITIES)
        } else {
            None
        }
    }

    /// The C++ enumerator symbol text defs use for `self`.
    pub fn symbol(self) -> (r: &'static str)
        ensures
            r@ == self.symbol_of(),
    {
        match self {
            HeroAbility::HEROABILITYNULL => "HERO_ABILITY_NULL",
            HeroAbility::HEROABILITYFORCEPUSH => "HERO_ABILITY_FORCE_PUSH",
            HeroAbility::HEROABILITYTIMESPELL => "HERO_ABILITY_TIME_SPELL",
            HeroAbility::HEROABILITYENFLAMESPELL => "HERO_ABILITY_ENFLAME_SPELL",
            HeroAbility::HEROABILITYPHYSICALSHIELDSPELL => "HERO_ABILITY_PHYSICAL_SHIELD_SPELL",
            HeroAbility::HEROABILITYTURNCOATSPELL => "HERO_ABILITY_TURNCOAT_SPELL",
            HeroAbility::HEROABILITYDRAINLIFESPELL => "HERO_ABILITY_DRAIN_LIFE_SPELL",
            HeroAbility::HEROABILITYRAISEDEADSPELL => "HERO_ABILITY_RAISE_DEAD_SPELL",
            HeroAbility::HEROABILITYBERSERK => "HERO_ABILITY_BERSERK",
            HeroAbility::HEROABILITYDOUBLESTRIKE => "HERO_ABILITY_DOUBLE_STRIKE",
            HeroAbility::HEROABILITYSUMMONSPELL => "HERO_ABILITY_SUMMON_SPELL",
            HeroAbility::HEROABILITYLIGHTNINGSPELL => "HERO_ABILITY_LIGHTNING_SPELL",
            HeroAbility::HEROABILITYBATTLECHARGE => "HERO_ABILITY_BATTLE_CHARGE",
            HeroAbility::HEROABILITYASSASSINRUSH => "HERO_ABILITY_ASSASSIN_RUSH",
            HeroAbility::HEROABILITYHEALLIFESPELL => "HERO_ABILITY_HEAL_LIFE_SPELL",
            HeroAbility::HEROABILITYGHOSTSWORDSPELL => "HERO_ABILITY_GHOST_SWORD_SPELL",
            HeroAbility::HEROABILITYFIREBALLSPELL => "HERO_ABILITY_FIREBALL_SPELL",
            HeroAbility::HEROABILITYMULTIARROW => "HERO_ABILITY_MULTI_ARROW",
            HeroAbility::HEROABILITYDIVINEWRATHSPELL => "HERO_ABILITY_DIVINE_WRATH_SPELL",
            HeroAbility::HEROABILITYUNHOLYPOWERSPELL => "HERO_ABILITY_UNHOLY_POWER_SPELL",
            HeroAbility::MAXNUMBEROFHEROABILITIES => "MAX_NUMBER_OF_HERO_ABILITIES",
        }
    }

    /// The variant a C++ enumerator symbol names.
    pub fn from_symbol(s: &str) -> (r: Option<Self>)
        ensures
            r == Self::symbol_lookup(s@),
    {
        if str_eq(s, "HERO_ABILITY_NULL") {
            return Some(HeroAbility::HEROABILITYNULL);
        }
        if str_eq(s, "HERO_ABILITY_FORCE_PUSH") {
            return Some(HeroAbility::HEROABILITYFORCEPUSH);
        }
        if str_eq(s, "HERO_ABILITY_TIME_SPELL") {
            return Some(HeroAbility::HEROABILITYTIMESPELL);
        }
        if str_eq(s, "HERO_ABILITY_ENFLAME_SPELL") {
            return Some(HeroAbility::HEROABILITYENFLAMESPELL);
        }
        if str_eq(s, "HERO_ABILITY_PHYSICAL_SHIELD_SPELL") {
            return Some(HeroAbility::HEROABILITYPHYSICALSHIELDSPELL);
        }
        if str_eq(s, "HERO_ABILITY_TURNCOAT_SPELL") {
            return Some(HeroAbility::HEROABILITYTURNCOATSPELL);
        }
        if str_eq(s, "HERO_ABILITY_DRAIN_LIFE_SPELL") {
            return Some(HeroAbility::HEROABILITYDRAINLIFESPELL);
        }
        if str_eq(s, "HERO_ABILITY_RAISE_DEAD_SPELL") {
            return Some(HeroAbility::HEROABILITYRAISEDEADSPELL);
        }
        if str_eq(s, "HERO_ABILITY_BERSERK") {
            return Some(HeroAbility::HEROABILITYBERSERK);
        }
        if str_eq(s, "HERO_ABILITY_DOUBLE_STRIKE") {
            return Some(HeroAbility::HEROABILITYDOUBLESTRIKE);
        }
        if str_eq(s, "HERO_ABILITY_SUMMON_SPELL") {
            return Some(HeroAbility::HEROABILITYSUMMONSPELL);
        }
        if str_eq(s, "HERO_ABILITY_LIGHTNING_SPELL") {
            return Some(HeroAbility::HEROABILITYLIGHTNINGSPELL);
        }
        if str_eq(s, "HERO_ABILITY_BATTLE_CHARGE") {
            return Some(HeroAbility::HEROABILITYBATTLECHARGE);
        }
        if str_eq(s, "HERO_ABILITY_ASSASSIN_RUSH") {
            return Some(HeroAbility::HEROABILITYASSASSINRUSH);
        }
        if str_eq(s, "HERO_ABILITY_HEAL_LIFE_SPELL") {
            return Some(HeroAbility::HEROABILITYHEALLIFESPELL);
        }
        if str_eq(s, "HERO_ABILITY_GHOST_SWORD_SPELL") {
            return Some(HeroAbility::HEROABILITYGHOSTSWORDSPELL);
        }
        if str_eq(s, "HERO_ABILITY_FIREBALL_SPELL") {
            return Some(HeroAbility::HEROABILITYFIREBALLSPELL);
        }
        if str_eq(s, "HERO_ABILITY_MULTI_ARROW") {
            return Some(HeroAbility::HEROABILITYMULTIARROW);
        }
        if str_eq(s, "HERO_ABILITY_DIVINE_WRATH_SPELL") {
            return Some(HeroAbility::HEROABILITYDIVINEWRATHSPELL);
        }
        if str_eq(s, "HERO_ABILITY_UNHOLY_POWER_SPELL") {
            return Some(HeroAbility::HEROABILITYUNHOLYPOWERSPELL);
        }
        if str_eq(s, "MAX_NUMBER_OF_HERO_ABILITIES") {
            return Some(HeroAbility::MAXNUMBEROFHEROABILITIES);
        }
        None
    }
}

#[derive(Debug, Clone, Copy, PartialEq, Eq, Structural, PartialOrd, Ord, Hash)]
pub enum HeroAttachableAppearanceModifierType {
    APPEARANCEHAIR,
    APPEARANCEHORN,
    APPEARANCECLOTHING,
    NOOFAPPEARANCEMODIFIERTYPES,
}

impl DefEnum for HeroAttachableAppearanceModifierType {
    open spec fn wire_value(self) -> i32 {
        match self {
            HeroAttachableAppearanceModifierType::APPEARANCEHAIR => 0i32,
            HeroAttachableAppearanceModifierType::APPEARANCEHORN => 1i32,
            HeroAttachableAppearanceModifierType::APPEARANCECLOTHING => 2i32,
            HeroAttachableAppearanceModifierType::NOOFAPPEARANCEMODIFIERTYPES => 3i32,
        }
    }

    open spec fn lookup(value: i32) -> Option<Self> {
        match value {
            0i32 => Some(HeroAttachableAppearanceModifierType::APPEARANCEHAIR),
            1i32 => Some(HeroAttachableAppearanceModifierType::APPEARANCEHORN),
            2i32 => Some(HeroAttachableAppearanceModifierType::APPEARANCECLOTHING),
            3i32 => Some(HeroAttachableAppearanceModifierType::NOOFAPPEARANCEMODIFIERTYPES),
            _ => None,
        }
    }

    fn from_i32(value: i32) -> (r: Option<Self>) {
        match value {
            0i32 => Some(HeroAttachableAppearanceModifierType::APPEARANCEHAIR),
            1i32 => Some(HeroAttachableAppearanceModifierType::APPEARANCEHORN),
            2i32 => Some(HeroAttachableAppearanceModifierType::APPEARANCECLOTHING),
            3i32 => Some(HeroAttachableAppearanceModifierType::NOOFAPPEARANCEMODIFIERTYPES),
            _ => None,
        }
    }

    fn to_i32(self) -> (r: i32) {
        match self {
            HeroAttachableAppearanceModifierType::APPEARANCEHAIR => 0i32,
            HeroAttachableAppearanceModifierType::APPEARANCEHORN => 1i32,
            HeroAttachableAppearanceModifierType::APPEARANCECLOTHING => 2i32,
            HeroAttachableAppearanceModifierType::NOOFAPPEARANCEMODIFIERTYPES => 3i32,
        }
    }

    proof fn lemma_lookup_wire_value(e: Self) {
    }
}

impl HeroAttachableAppearanceModifierType {
    /// The C++ enumerator symbol of `self`.
    pub open spec fn symbol_of(self) -> Seq<char> {
        match self {
            HeroAttachableAppearanceModifierType::APPEARANCEHAIR => "APPEARANCE_HAIR"@,
            HeroAttachableAppearanceModifierType::APPEARANCEHORN => "APPEARANCE_HORN"@,
            HeroAttachableAppearanceModifierType::APPEARANCECLOTHING => "APPEARANCE_CLOTHING"@,
            HeroAttachableAppearanceModifierType::NOOFAPPEARANCEMODIFIERTYPES => "NO_OF_APPEARANCE_MODIFIER_TYPES"@,
        }
    }

    /// The first variant whose symbol is `s`, if any.
    pub open spec fn symbol_lookup(s: Seq<char>) -> Option<Self> {
        if s == "APPEARANCE_HAIR"@ {
            Some(HeroAttachableAppearanceModifierType::APPEARANCEHAIR)
        } else if s == "APPEARANCE_HORN"@ {
            Some(HeroAttachableAppearanceModifierType::APPEARANCEHORN)
        } else if s == "APPEARANCE_CLOTHING"@ {
            Some(HeroAttachableAppearanceModifierType::APPEARANCECLOTHING)
        } else if s == "NO_OF_APPEARANCE_MODIFIER_TYPES"@ {
            Some(HeroAttachableAppearanceModifierType::NOOFAPPEARANCEMODIFIERTYPES)
        } else {
            None
        }
    }

    /// The C++ enumerator symbol text defs use for `self`.
    pub fn symbol(self) -> (r: &'static str)
        ensures
            r@ == self.symbol_of(),
    {
        match self {
            HeroAttachableAppearanceModifierType::APPEARANCEHAIR => "APPEARANCE_HAIR",
            HeroAttachableAppearanceModifierType::APPEARANCEHORN => "APPEARANCE_HORN",
            HeroAttachableAppearanceModifierType::APPEARANCECLOTHING => "APPEARANCE_CLOTHING",
            HeroAttachableAppearanceModifierType::NOOFAPPEARANCEMODIFIERTYPES => "NO_OF_APPEARANCE_MODIFIER_TYPES",
        }
    }

    /// The variant a C++ enumerator symbol names.
    pub fn from_symbol(s: &str) -> (r: Option<Self>)
        ensures
            r == Self::symbol_lookup(s@),
    {
        if str_eq(s, "APPEARANCE_HAIR") {
            return Some(HeroAttachableAppearanceModifierType::APPEARANCEHAIR);
        }
        if str_eq(s, "APPEARANCE_HORN") {
            return Some(HeroAttachableAppearanceModifierType::APPEARANCEHORN);
        }
        if str_eq(s, "APPEARANCE_CLOTHING") {
            return Some(HeroAttachableAppearanceModifierType::APPEARANCECLOTHING);
        }
        if str_eq(s, "NO_OF_APPEARANCE_MODIFIER_TYPES") {
            return Some(HeroAttachableAppearanceModifierType::NOOFAPPEARANCEMODIFIERTYPES);
        }
        None
    }
}

#[derive(Debug, Clone, Copy, PartialEq, Eq, Structural, PartialOrd, Ord, Hash)]
pub enum HeroExperienceStatCategory {
    HEROSTATSTRENGTH,
    HEROSTATSKILL,
    HEROSTATWILL,
    NUMBEROFHEROSTATCATEGORIES,
}

impl DefEnum for HeroExperienceStatCategory {
    open spec fn wire_value(self) -> i32 {
        match self {
            HeroExperienceStatCategory::HEROSTATSTRENGTH => 0i32,
            HeroExperienceStatCategory::HEROSTATSKILL => 1i32,
            HeroExperienceStatCategory::HEROSTATWILL => 2i32,
            HeroExperienceStatCategory::NUMBEROFHEROSTATCATEGORIES => 3i32,
        }
    }

    open spec fn lookup(value: i32) -> Option<Self> {
        match value {
            0i32 => Some(HeroExperienceStatCategory::HEROSTATSTRENGTH),
            1i32 => Some(HeroExperienceStatCategory::HEROSTATSKILL),
            2i32 => Some(HeroExperienceStatCategory::HEROSTATWILL),
            3i32 => Some(HeroExperienceStatCategory::NUMBEROFHEROSTATCATEGORIES),
            _ => None,
        }
    }

    fn from_i32(value: i32) -> (r: Option<Self>) {
        match value {
            0i32 => Some(HeroExperienceStatCategory::HEROSTATSTRENGTH),
            1i32 => Some(HeroExperienceStatCategory::HEROSTATSKILL),
            2i32 => Some(HeroExperienceStatCategory::HEROSTATWILL),
            3i32 => Some(HeroExperienceStatCategory::NUMBEROFHEROSTATCATEGORIES),
            _ => None,
        }
    }

    fn to_i32(self) -> (r: i32) {
        match self {
            HeroExperienceStatCategory::HEROSTATSTRENGTH => 0i32,
            HeroExperienceStatCategory::HEROSTATSKILL => 1i32,
            HeroExperienceStatCategory::HEROSTATWILL => 2i32,
            HeroExperienceStatCategory::NUMBEROFHEROSTATCATEGORIES => 3i32,
        }
    }

    proof fn lemma_lookup_wire_value(e: Self) {
    }
}

impl HeroExperienceStatCategory {
    /// The C++ enumerator symbol of `self`.
    pub open spec fn symbol_of(self) -> Seq<char> {
        match self {
            HeroExperienceStatCategory::HEROSTATSTRENGTH => "HERO_STAT_STRENGTH"@,
            HeroExperienceStatCategory::HEROSTATSKILL => "HERO_STAT_SKILL"@,
            HeroExperienceStatCategory::HEROSTATWILL => "HERO_STAT_WILL"@,
            HeroExperienceStatCategory::NUMBEROFHEROSTATCATEGORIES => "NUMBER_OF_HERO_STAT_CATEGORIES"@,
        }
    }

    /// The first variant whose symbol is `s`, if any.
    pub open spec fn symbol_lookup(s: Seq<char>) -> Option<Self> {
        if s == "HERO_STAT_STRENGTH"@ {
            Some(HeroExperienceStatCategory::HEROSTATSTRENGTH)
        } else if s == "HERO_STAT_SKILL"@ {
            Some(HeroExperienceStatCategory::HEROSTATSKILL)
        } else if s == "HERO_STAT_WILL"@ {
            Some(HeroExperienceStatCategory::HEROSTATWILL)
        } else if s == "NUMBER_OF_HERO_STAT_CATEGORIES"@ {
            Some(HeroExperienceStatCategory::NUMBEROFHEROSTATCATEGORIES)
        } else {
            None
        }
    }

    /// The C++ enumerator symbol text defs use for `self`.
    pub fn symbol(self) -> (r: &'static str)
        ensures
            r@ == self.symbol_of(),
    {
        match self {
            HeroExperienceStatCategory::HEROSTATSTRENGTH => "HERO_STAT_STRENGTH",
            HeroExperienceStatCategory::HEROSTATSKILL => "HERO_STAT_SKILL",
            HeroExperienceStatCategory::HEROSTATWILL => "HERO_STAT_WILL",
            HeroExperienceStatCategory::NUMBEROFHEROSTATCATEGORIES => "NUMBER_OF_HERO_STAT_CATEGORIES",
        }
    }

    /// The variant a C++ enumerator symbol names.
    pub fn from_symbol(s: &str) -> (r: Option<Self>)
        ensures
            r == Self::symbol_lookup(s@),
    {
        if str_eq(s, "HERO_STAT_STRENGTH") {
            return Some(HeroExperienceStatCategory::HEROSTATSTRENGTH);
        }
        if str_eq(s, "HERO_STAT_SKILL") {
            return Some(HeroExperienceStatCategory::HEROSTATSKILL);
        }
        if str_eq(s, "HERO_STAT_WILL") {
            return Some(HeroExperienceStatCategory::HEROSTATWILL);
        }
        if str_eq(s, "NUMBER_OF_HERO_STAT_CATEGORIES") {
            return Some(HeroExperienceStatCategory::NUMBEROFHEROSTATCATEGORIES);
        }
        None
    }
}

#[derive(Debug, Clone, Copy, PartialEq, Eq, Structural, PartialOrd, Ord, Hash)]
pub enum HeroTitle {
    NONE,
    REAPER,
    SHADOWHUNTER,
    MALEFICUS,
    DEATHBRINGER,
    ASSASSIN,
    NECROMANCER,
    AVATAR,
    PILGRIM,
    LIBERATOR,
    PALADIN,
    DRUID,
    RANGER,
    RUNEMASTER,
    HOOD,
    GLADIATOR,
    SABRE,
    ARROWDODGER,
    PIEMASTER,
    CHICKENCHASER,
    ARSEFACE,
    JACK,
    MAZE,
    SCARLETROBE,
    SCYTHE,
    THUNDER,
    WHISPER,
    TWINBLADE,
    BRIARROSE,
    LADYGREY,
    GUILDMASTER,
    SCORPIONSLAYER,
    DEATHBRINGER_,
}

impl DefEnum for HeroTitle {
    open spec fn wire_value(self) -> i32 {
        match self {
            HeroTitle::NONE => 0i32,
            HeroTitle::REAPER => 1i32,
            HeroTitle::SHADOWHUNTER => 2i32,
            HeroTitle::MALEFICUS => 3i32,
            HeroTitle::DEATHBRINGER => 4i32,
            HeroTitle::ASSASSIN => 5i32,
            HeroTitle::NECROMANCER => 6i32,
            HeroTitle::AVATAR => 7i32,
            HeroTitle::PILGRIM => 8i32,
            HeroTitle::LIBERATOR => 9i32,
            HeroTitle::PALADIN => 10i32,
            HeroTitle::DRUID => 11i32,
            HeroTitle::RANGER => 12i32,
            HeroTitle::RUNEMASTER => 13i32,
            HeroTitle::HOOD => 14i32,
            HeroTitle::GLADIATOR => 15i32,
            HeroTitle::SABRE => 16i32,
            HeroTitle::ARROWDODGER => 17i32,
            HeroTitle::PIEMASTER => 18i32,
            HeroTitle::CHICKENCHASER => 19i32,
            HeroTitle::ARSEFACE => 20i32,
            HeroTitle::JACK => 21i32,
            HeroTitle::MAZE => 22i32,
            HeroTitle::SCARLETROBE => 23i32,
            HeroTitle::SCYTHE => 24i32,
            HeroTitle::THUNDER => 25i32,
            HeroTitle::WHISPER => 26i32,
            HeroTitle::TWINBLADE => 27i32,
            HeroTitle::BRIARROSE => 28i32,
            HeroTitle::LADYGREY => 29i32,
            HeroTitle::GUILDMASTER => 30i32,
            HeroTitle::SCORPIONSLAYER => 31i32,
            HeroTitle::DEATHBRINGER_ => 32i32,
        }
    }

    open spec fn lookup(value: i32) -> Option<Self> {
        match value {
            0i32 => Some(HeroTitle::NONE),
            1i32 => Some(HeroTitle::REAPER),
            2i32 => Some(HeroTitle::SHADOWHUNTER),
            3i32 => Some(HeroTitle::MALEFICUS),
            4i32 => Some(HeroTitle::DEATHBRINGER),
            5i32 => Some(HeroTitle::ASSASSIN),
            6i32 => Some(HeroTitle::NECROMANCER),
            7i32 => Some(HeroTitle::AVATAR),
            8i32 => Some(HeroTitle::PILGRIM),
            9i32 => Some(HeroTitle::LIBERATOR),
            10i32 => Some(HeroTitle::PALADIN),
            11i32 => Some(HeroTitle::DRUID),
            12i32 => Some(HeroTitle::RANGER),
            13i32 => Some(HeroTitle::RUNEMASTER),
            14i32 => Some(HeroTitle::HOOD),
            15i32 => Some(HeroTitle::GLADIATOR),
            16i32 => Some(HeroTitle::SABRE),
            17i32 => Some(HeroTitle::ARROWDODGER),
            18i32 => Some(HeroTitle::PIEMASTER),
            19i32 => Some(HeroTitle::CHICKENCHASER),
            20i32 => Some(HeroTitle::ARSEFACE),
            21i32 => Some(HeroTitle::JACK),
            22i32 => Some(HeroTitle::MAZE),
            23i32 => Some(HeroTitle::SCARLETROBE),
            24i32 => Some(HeroTitle::SCYTHE),
            25i32 => Some(HeroTitle::THUNDER),
            26i32 => Some(HeroTitle::WHISPER),
            27i32 => Some(HeroTitle::TWINBLADE),
            28i32 => Some(HeroTitle::BRIARROSE),
            29i32 => Some(HeroTitle::LADYGREY),
            30i32 => Some(HeroTitle::GUILDMASTER),
            31i32 => Some(HeroTitle::SCORPIONSLAYER),
            32i32 => Some(HeroTitle::DEATHBRINGER_),
            _ => None,
        }
    }

    fn from_i32(value: i32) -> (r: Option<Self>) {
        match value {
            0i32 => Some(HeroTitle::NONE),
            1i32 => Some(HeroTitle::REAPER),
            2i32 => Some(HeroTitle::SHADOWHUNTER),
            3i32 => Some(HeroTitle::MALEFICUS),
            4i32 => Some(HeroTitle::DEATHBRINGER),
            5i32 => Some(HeroTitle::ASSASSIN),
            6i32 => Some(HeroTitle::NECROMANCER),
            7i32 => Some(HeroTitle::AVATAR),
            8i32 => Some(HeroTitle::PILGRIM),
            9i32 => Some(HeroTitle::LIBERATOR),
            10i32 => Some(HeroTitle::PALADIN),
            11i32 => Some(HeroTitle::DRUID),
            12i32 => Some(HeroTitle::RANGER),
            13i32 => Some(HeroTitle::RUNEMASTER),
            14i32 => Some(HeroTitle::HOOD),
            15i32 => Some(HeroTitle::GLADIATOR),
            16i32 => Some(HeroTitle::SABRE),
            17i32 => Some(HeroTitle::ARROWDODGER),
            18i32 => Some(HeroTitle::PIEMASTER),
            19i32 => Some(HeroTitle::CHICKENCHASER),
            20i32 => Some(HeroTitle::ARSEFACE),
            21i32 => Some(HeroTitle::JACK),
            22i32 => Some(HeroTitle::MAZE),
            23i32 => Some(HeroTitle::SCARLETROBE),
            24i32 => Some(HeroTitle::SCYTHE),
            25i32 => Some(HeroTitle::THUNDER),
            26i32 => Some(HeroTitle::WHISPER),
            27i32 => Some(HeroTitle::TWINBLADE),
            28i32 => Some(HeroTitle::BRIARROSE),
            29i32 => Some(HeroTitle::LADYGREY),
            30i32 => Some(HeroTitle::GUILDMASTER),
            31i32 => Some(HeroTitle::SCORPIONSLAYER),
            32i32 => Some(HeroTitle::DEATHBRINGER_),
            _ => None,
        }
    }

    fn to_i32(self) -> (r: i32) {
        match self {
            HeroTitle::NONE => 0i32,
            HeroTitle::REAPER => 1i32,
            HeroTitle::SHADOWHUNTER => 2i32,
            HeroTitle::MALEFICUS => 3i32,
            HeroTitle::DEATHBRINGER => 4i32,
            HeroTitle::ASSASSIN => 5i32,
            HeroTitle::NECROMANCER => 6i32,
            HeroTitle::AVATAR => 7i32,
            HeroTitle::PILGRIM => 8i32,
            HeroTitle::LIBERATOR => 9i32,
            HeroTitle::PALADIN => 10i32,
            HeroTitle::DRUID => 11i32,
            HeroTitle::RANGER => 12i32,
            HeroTitle::RUNEMASTER => 13i32,
            HeroTitle::HOOD => 14i32,
            HeroTitle::GLADIATOR => 15i32,
            HeroTitle::SABRE => 16i32,
            HeroTitle::ARROWDODGER => 17i32,
            HeroTitle::PIEMASTER => 18i32,
            HeroTitle::CHICKENCHASER => 19i32,
            HeroTitle::ARSEFACE => 20i32,
            HeroTitle::JACK => 21i32,
            HeroTitle::MAZE => 22i32,
            HeroTitle::SCARLETROBE => 23i32,
            HeroTitle::SCYTHE => 24i32,
            HeroTitle::THUNDER => 25i32,
            HeroTitle::WHISPER => 26i32,
            HeroTitle::TWINBLADE => 27i32,
            HeroTitle::BRIARROSE => 28i32,
            HeroTitle::LADYGREY => 29i32,
            HeroTitle::GUILDMASTER => 30i32,
            HeroTitle::SCORPIONSLAYER => 31i32,
            HeroTitle::DEATHBRINGER_ => 32i32,
        }
    }

    proof fn lemma_lookup_wire_value(e: Self) {
    }
}

impl HeroTitle {
    /// The C++ enumerator symbol of `self`.
    pub open spec fn symbol_of(self) -> Seq<char> {
        match self {
            HeroTitle::NONE => "TITLE_NONE"@,
            HeroTitle::REAPER => "TITLE_REAPER"@,
            HeroTitle::SHADOWHUNTER => "TITLE_SHADOWHUNTER"@,
            HeroTitle::MALEFICUS => "TITLE_MALEFICUS"@,
            HeroTitle::DEATHBRINGER => "TITLE_DEATHBRINGER"@,
            HeroTitle::ASSASSIN => "TITLE_ASSASSIN"@,
            HeroTitle::NECROMANCER => "TITLE_NECROMANCER"@,
            HeroTitle::AVATAR => "TITLE_AVATAR"@,
            HeroTitle::PILGRIM => "TITLE_PILGRIM"@,
            HeroTitle::LIBERATOR => "TITLE_LIBERATOR"@,
            HeroTitle::PALADIN => "TITLE_PALADIN"@,
            HeroTitle::DRUID => "TITLE_DRUID"@,
            HeroTitle::RANGER => "TITLE_RANGER"@,
            HeroTitle::RUNEMASTER => "TITLE_RUNEMASTER"@,
            HeroTitle::HOOD => "TITLE_HOOD"@,
            HeroTitle::GLADIATOR => "TITLE_GLADIATOR"@,
            HeroTitle::SABRE => "TITLE_SABRE"@,
            HeroTitle::ARROWDODGER => "TITLE_ARROWDODGER"@,
            HeroTitle::PIEMASTER => "TITLE_PIEMASTER"@,
            HeroTitle::CHICKENCHASER => "TITLE_CHICKEN_CHASER"@,
            HeroTitle::ARSEFACE => "TITLE_ARSEFACE"@,
            HeroTitle::JACK => "TITLE_JACK"@,
            HeroTitle::MAZE => "TITLE_MAZE"@,
            HeroTitle::SCARLETROBE => "TITLE_SCARLET_ROBE"@,
            HeroTitle::SCYTHE => "TITLE_SCYTHE"@,
            HeroTitle::THUNDER => "TITLE_THUNDER"@,
            HeroTitle::WHISPER => "TITLE_WHISPER"@,
            HeroTitle::TWINBLADE => "TITLE_TWINBLADE"@,
            HeroTitle::BRIARROSE => "TITLE_BRIAR_ROSE"@,
            HeroTitle::LADYGREY => "TITLE_LADY_GREY"@,
            HeroTitle::GUILDMASTER => "TITLE_GUILDMASTER"@,
            HeroTitle::SCORPIONSLAYER => "TITLE_SCORPION_SLAYER"@,
            HeroTitle::DEATHBRINGER_ => "TITLE_DEATH_BRINGER"@,
        }
    }

    /// The first variant whose symbol is `s`, if any.
    pub open spec fn symbol_lookup(s: Seq<char>) -> Option<Self> {
        if s == "TITLE_NONE"@ {
            Some(HeroTitle::NONE)
        } else if s == "TITLE_REAPER"@ {
            Some(HeroTitle::REAPER)
        } else if s == "TITLE_SHADOWHUNTER"@ {
            Some(HeroTitle::SHADOWHUNTER)
        } else if s == "TITLE_MALEFICUS"@ {
            Some(HeroTitle::MALEFICUS)
        } else if s == "TITLE_DEATHBRINGER"@ {
            Some(HeroTitle::DEATHBRINGER)
        } else if s == "TITLE_ASSASSIN"@ {
            Some(HeroTitle::ASSASSIN)
        } else if s == "TITLE_NECROMANCER"@ {
            Some(HeroTitle::NECROMANCER)
        } else if s == "TITLE_AVATAR"@ {
            Some(HeroTitle::AVATAR)
        } else if s == "TITLE_PILGRIM"@ {
            Some(HeroTitle::PILGRIM)
        } else if s == "TITLE_LIBERATOR"@ {
            Some(HeroTitle::LIBERATOR)
        } else if s == "TITLE_PALADIN"@ {
            Some(HeroTitle::PALADIN)
        } else if s == "TITLE_DRUID"@ {
            Some(HeroTitle::DRUID)
        } else if s == "TITLE_RANGER"@ {
            Some(HeroTitle::RANGER)
        } else if s == "TITLE_RUNEMASTER"@ {
            Some(HeroTitle::RUNEMASTER)
        } else if s == "TITLE_HOOD"@ {
            Some(HeroTitle::HOOD)
        } else if s == "TITLE_GLADIATOR"@ {
            Some(HeroTitle::GLADIATOR)
        } else if s == "TITLE_SABRE"@ {
            Some(HeroTitle::SABRE)
        } else if s == "TITLE_ARROWDODGER"@ {
            Some(HeroTitle::ARROWDODGER)
        } else if s == "TITLE_PIEMASTER"@ {
            Some(HeroTitle::PIEMASTER)
        } else if s == "TITLE_CHICKEN_CHASER"@ {
            Some(HeroTitle::CHICKENCHASER)
        } else if s == "TITLE_ARSEFACE"@ {
            Some(HeroTitle::ARSEFACE)
        } else if s == "TITLE_JACK"@ {
            Some(HeroTitle::JACK)
        } else if s == "TITLE_MAZE"@ {
            Some(HeroTitle::MAZE)
        } else if s == "TITLE_SCARLET_ROBE"@ {
            Some(HeroTitle::SCARLETROBE)
        } else if s == "TITLE_SCYTHE"@ {
            Some(HeroTitle::SCYTHE)
        } else if s == "TITLE_THUNDER"@ {
            Some(HeroTitle::THUNDER)
        } else if s == "TITLE_WHISPER"@ {
            Some(HeroTitle::WHISPER)
        } else if s == "TITLE_TWINBLADE"@ {
            Some(HeroTitle::TWINBLADE)
        } else if s == "TITLE_BRIAR_ROSE"@ {
            Some(HeroTitle::BRIARROSE)
        } else if s == "TITLE_LADY_GREY"@ {
            Some(HeroTitle::LADYGREY)
        } else if s == "TITLE_GUILDMASTER"@ {
            Some(HeroTitle::GUILDMASTER)
        } else if s == "TITLE_SCORPION_SLAYER"@ {
            Some(HeroTitle::SCORPIONSLAYER)
        } else if s == "TITLE_DEATH_BRINGER"@ {
            Some(HeroTitle::DEATHBRINGER_)
        } else {
            None
        }
    }

    /// The C++ enumerator symbol text defs use for `self`.
    pub fn symbol(self) -> (r: &'static str)
        ensures
            r@ == self.symbol_of(),
    {
        match self {
            HeroTitle::NONE => "TITLE_NONE",
            HeroTitle::REAPER => "TITLE_REAPER",
            HeroTitle::SHADOWHUNTER => "TITLE_SHADOWHUNTER",
            HeroTitle::MALEFICUS => "TITLE_MALEFICUS",
            HeroTitle::DEATHBRINGER => "TITLE_DEATHBRINGER",
            HeroTitle::ASSASSIN => "TITLE_ASSASSIN",
            HeroTitle::NECROMANCER => "TITLE_NECROMANCER",
            HeroTitle::AVATAR => "TITLE_AVATAR",
            HeroTitle::PILGRIM => "TITLE_PILGRIM",
            HeroTitle::LIBERATOR => "TITLE_LIBERATOR",
            HeroTitle::PALADIN => "TITLE_PALADIN",
            HeroTitle::DRUID => "TITLE_DRUID",
            HeroTitle::RANGER => "TITLE_RANGER",
            HeroTitle::RUNEMASTER => "TITLE_RUNEMASTER",
            HeroTitle::HOOD => "TITLE_HOOD",
            HeroTitle::GLADIATOR => "TITLE_GLADIATOR",
            HeroTitle::SABRE => "TITLE_SABRE",
            HeroTitle::ARROWDODGER => "TITLE_ARROWDODGER",
            HeroTitle::PIEMASTER => "TITLE_PIEMASTER",
            HeroTitle::CHICKENCHASER => "TITLE_CHICKEN_CHASER",
            HeroTitle::ARSEFACE => "TITLE_ARSEFACE",
            HeroTitle::JACK => "TITLE_JACK",
            HeroTitle::MAZE => "TITLE_MAZE",
            HeroTitle::SCARLETROBE => "TITLE_SCARLET_ROBE",
            HeroTitle::SCYTHE => "TITLE_SCYTHE",
            HeroTitle::THUNDER => "TITLE_THUNDER",
            HeroTitle::WHISPER => "TITLE_WHISPER",
            HeroTitle::TWINBLADE => "TITLE_TWINBLADE",
            HeroTitle::BRIARROSE => "TITLE_BRIAR_ROSE",
            HeroTitle::LADYGREY => "TITLE_LADY_GREY",
            HeroTitle::GUILDMASTER => "TITLE_GUILDMASTER",
            HeroTitle::SCORPIONSLAYER => "TITLE_SCORPION_SLAYER",
            HeroTitle::DEATHBRINGER_ => "TITLE_DEATH_BRINGER",
        }
    }

    /// The variant a C++ enumerator symbol names.
    pub fn from_symbol(s: &str) -> (r: Option<Self>)
        ensures
            r == Self::symbol_lookup(s@),
    {
        if str_eq(s, "TITLE_NONE") {
            return Some(HeroTitle::NONE);
        }
        if str_eq(s, "TITLE_REAPER") {
            return Some(HeroTitle::REAPER);
        }
        if str_eq(s, "TITLE_SHADOWHUNTER") {
            return Some(HeroTitle::SHADOWHUNTER);
        }
        if str_eq(s, "TITLE_MALEFICUS") {
            return Some(HeroTitle::MALEFICUS);
        }
        if str_eq(s, "TITLE_DEATHBRINGER") {
            return Some(HeroTitle::DEATHBRINGER);
        }
        if str_eq(s, "TITLE_ASSASSIN") {
            return Some(HeroTitle::ASSASSIN);
        }
        if str_eq(s, "TITLE_NECROMANCER") {
            return Some(HeroTitle::NECROMANCER);
        }
        if str_eq(s, "TITLE_AVATAR") {
            return Some(HeroTitle::AVATAR);
        }
        if str_eq(s, "TITLE_PILGRIM") {
            return Some(HeroTitle::PILGRIM);
        }
        if str_eq(s, "TITLE_LIBERATOR") {
            return Some(HeroTitle::LIBERATOR);
        }
        if str_eq(s, "TITLE_PALADIN") {
            return Some(HeroTitle::PALADIN);
        }
        if str_eq(s, "TITLE_DRUID") {
            return Some(HeroTitle::DRUID);
        }
        if str_eq(s, "TITLE_RANGER") {
            return Some(HeroTitle::RANGER);
        }
        if str_eq(s, "TITLE_RUNEMASTER") {
            return Some(HeroTitle::RUNEMASTER);
        }
        if str_eq(s, "TITLE_HOOD") {
            return Some(HeroTitle::HOOD);
        }
        if str_eq(s, "TITLE_GLADIATOR") {
            return Some(HeroTitle::GLADIATOR);
        }
        if str_eq(s, "TITLE_SABRE") {
            return Some(HeroTitle::SABRE);
        }
        if str_eq(s, "TITLE_ARROWDODGER") {
            return Some(HeroTitle::ARROWDODGER);
        }
        if str_eq(s, "TITLE_PIEMASTER") {
            return Some(HeroTitle::PIEMASTER);
        }
        if str_eq(s, "TITLE_CHICKEN_CHASER") {
            return Some(HeroTitle::CHICKENCHASER);
        }
        if str_eq(s, "TITLE_ARSEFACE") {
            return Some(HeroTitle::ARSEFACE);
        }
        if str_eq(s, "TITLE_JACK") {
            return Some(HeroTitle::JACK);
        }
        if str_eq(s, "TITLE_MAZE") {
            return Some(HeroTitle::MAZE);
        }
        if str_eq(s, "TITLE_SCARLET_ROBE") {
            return Some(HeroTitle::SCARLETROBE);
        }
        if str_eq(s, "TITLE_SCYTHE") {
            return Some(HeroTitle::SCYTHE);
        }
        if str_eq(s, "TITLE_THUNDER") {
            return Some(HeroTitle::THUNDER);
        }
        if str_eq(s, "TITLE_WHISPER") {
            return Some(HeroTitle::WHISPER);
        }
        if str_eq(s, "TITLE_TWINBLADE") {
            return Some(HeroTitle::TWINBLADE);
        }
        if str_eq(s, "TITLE_BRIAR_ROSE") {
            return Some(HeroTitle::BRIARROSE);
        }
        if str_eq(s, "TITLE_LADY_GREY") {
            return Some(HeroTitle::LADYGREY);
        }
        if str_eq(s, "TITLE_GUILDMASTER") {
            return Some(HeroTitle::GUILDMASTER);
        }
        if str_eq(s, "TITLE_SCORPION_SLAYER") {
            return Some(HeroTitle::SCORPIONSLAYER);
        }
        if str_eq(s, "TITLE_DEATH_BRINGER") {
            return Some(HeroTitle::DEATHBRINGER_);
        }
        None
    }
}

#[derive(Debug, Clone, Copy, PartialEq, Eq, Structural, PartialOrd, Ord, Hash)]
pub enum HeroTrainingStatus {
    GRADUATED,
    APPRENTICE,
    BOY,
}

impl DefEnum for HeroTrainingStatus {
    open spec fn wire_value(self) -> i32 {
        match self {
            HeroTrainingStatus::GRADUATED => 0i32,
            HeroTrainingStatus::APPRENTICE => 1i32,
            HeroTrainingStatus::BOY => 2i32,
        }
    }

    open spec fn lookup(value: i32) -> Option<Self> {
        match value {
            0i32 => Some(HeroTrainingStatus::GRADUATED),
            1i32 => Some(HeroTrainingStatus::APPRENTICE),
            2i32 => Some(HeroTrainingStatus::BOY),
            _ => None,
        }
    }

    fn from_i32(value: i32) -> (r: Option<Self>) {
        match value {
            0i32 => Some(HeroTrainingStatus::GRADUATED),
            1i32 => Some(HeroTrainingStatus::APPRENTICE),
            2i32 => Some(HeroTrainingStatus::BOY),
            _ => None,
        }
    }

    fn to_i32(self) -> (r: i32) {
        match self {
            HeroTrainingStatus::GRADUATED => 0i32,
            HeroTrainingStatus::APPRENTICE => 1i32,
            HeroTrainingStatus::BOY => 2i32,
        }
    }

    proof fn lemma_lookup_wire_value(e: Self) {
    }
}

impl HeroTrainingStatus {
    /// The C++ enumerator symbol of `self`.
    pub open spec fn symbol_of(self) -> Seq<char> {
        match self {
            HeroTrainingStatus::GRADUATED => "TRAINING_STATUS_GRADUATED"@,
            HeroTrainingStatus::APPRENTICE => "TRAINING_STATUS_APPRENTICE"@,
            HeroTrainingStatus::BOY => "TRAINING_STATUS_BOY"@,
        }
    }

    /// The first variant whose symbol is `s`, if any.
    pub open spec fn symbol_lookup(s: Seq<char>) -> Option<Self> {
        if s == "TRAINING_STATUS_GRADUATED"@ {
            Some(HeroTrainingStatus::GRADUATED)
        } else if s == "TRAINING_STATUS_APPRENTICE"@ {
            Some(HeroTrainingStatus::APPRENTICE)
        } else if s == "TRAINING_STATUS_BOY"@ {
            Some(HeroTrainingStatus::BOY)
        } else {
            None
        }
    }

    /// The C++ enumerator symbol text defs use for `self`.
    pub fn symbol(self) -> (r: &'static str)
        ensures
            r@ == self.symbol_of(),
    {
        match self {
            HeroTrainingStatus::GRADUATED => "TRAINING_STATUS_GRADUATED",
            HeroTrainingStatus::APPRENTICE => "TRAINING_STATUS_APPRENTICE",
            HeroTrainingStatus::BOY => "TRAINING_STATUS_BOY",
        }
    }

    /// The variant a C++ enumerator symbol names.
    pub fn from_symbol(s: &str) -> (r: Option<Self>)
        ensures
            r == Self::symbol_lookup(s@),
    {
        if str_eq(s, "TRAINING_STATUS_GRADUATED") {
            return Some(HeroTrainingStatus::GRADUATED);
        }
        if str_eq(s, "TRAINING_STATUS_APPRENTICE") {
            return Some(HeroTrainingStatus::APPRENTICE);
        }
        if str_eq(s, "TRAINING_STATUS_BOY") {
            return Some(HeroTrainingStatus::BOY);
        }
        None
    }
}

#[derive(Debug, Clone, Copy, PartialEq, Eq, Structural, PartialOrd, Ord, Hash, Default)]
pub struct IdleStateGroup(pub i32);

impl IdleStateGroup {
    /// The bits of `ISG_NULL`.
    pub const NULL: i32 = 0i32;
    /// The bits of `ISG_NOT_BOTHERED`.
    pub const NOT_BOTHERED: i32 = 1i32;
    /// The bits of `ISG_CLEAN_HOME`.
    pub const CLEAN_HOME: i32 = 2i32;
    /// The bits of `ISG_SIT_HOME`.
    pub const SIT_HOME: i32 = 3i32;
    /// The bits of `ISG_SIT_OUTSIDE`.
    pub const SIT_OUTSIDE: i32 = 4i32;
    /// The bits of `ISG_SIT_AROUND_FIRE`.
    pub const SIT_AROUND_FIRE: i32 = 5i32;
    /// The bits of `ISG_WATCH_FIRE`.
    pub const WATCH_FIRE: i32 = 6i32;
    /// The bits of `ISG_GAZE_HOME`.
    pub const GAZE_HOME: i32 = 7i32;
    /// The bits of `ISG_GAZE_OUTSIDE`.
    pub const GAZE_OUTSIDE: i32 = 8i32;
    /// The bits of `ISG_LOOK_AT_INTERESTING_THINGS`.
    pub const LOOK_AT_INTERESTING_THINGS: i32 = 9i32;
    /// The bits of `ISG_WANDER_AROUND_SHOPS`.
    pub const WANDER_AROUND_SHOPS: i32 = 10i32;
    /// The bits of `ISG_KID_WANDER_NEAR_KIDS`.
    pub const KID_WANDER_NEAR_KIDS: i32 = 11i32;

    /// The flag a C++ enumerator symbol names, if any.
    pub open spec fn symbol_lookup(s: Seq<char>) -> Option<Self> {
        if s == "ISG_NULL"@ {
            Some(IdleStateGroup(0i32))
        } else if s == "ISG_NOT_BOTHERED"@ {
            Some(IdleStateGroup(1i32))
        } else if s == "ISG_CLEAN_HOME"@ {
            Some(IdleStateGroup(2i32))
        } else if s == "ISG_SIT_HOME"@ {
            Some(IdleStateGroup(3i32))
        } else if s == "ISG_SIT_OUTSIDE"@ {
            Some(IdleStateGroup(4i32))
        } else if s == "ISG_SIT_AROUND_FIRE"@ {
            Some(IdleStateGroup(5i32))
        } else if s == "ISG_WATCH_FIRE"@ {
            Some(IdleStateGroup(6i32))
        } else if s == "ISG_GAZE_HOME"@ {
            Some(IdleStateGroup(7i32))
        } else if s == "ISG_GAZE_OUTSIDE"@ {
            Some(IdleStateGroup(8i32))
        } else if s == "ISG_LOOK_AT_INTERESTING_THINGS"@ {
            Some(IdleStateGroup(9i32))
        } else if s == "ISG_WANDER_AROUND_SHOPS"@ {
            Some(IdleStateGroup(10i32))
        } else if s == "ISG_KID_WANDER_NEAR_KIDS"@ {
            Some(IdleStateGroup(11i32))
        } else {
            None
        }
    }

    /// The set holding exactly the bits of `value` (lossless).
    pub fn from_i32(value: i32) -> (r: Self)
        ensures
            r.0 == value,
    {
        IdleStateGroup(value)
    }

    pub fn to_i32(self) -> (r: i32)
        ensures
            r == self.0,
    {
        self.0
    }

    /// Whether every bit of `other` is set in `self`.
    pub fn contains(self, other: Self) -> (r: bool)
        ensures
            r == (self.0 & other.0 == other.0),
    {
        self.0 & other.0 == other.0
    }

    /// Whether no bit is set.
    pub fn is_empty(self) -> (r: bool)
        ensures
            r == (self.0 == 0),
    {
        self.0 == 0
    }

    /// The bits set in either.
    pub fn union(self, other: Self) -> (r: Self)
        ensures
            r.0 == self.0 | other.0,
    {
        IdleStateGroup(self.0 | other.0)
    }

    /// The flag a C++ enumerator symbol names.
    pub fn from_symbol(s: &str) -> (r: Option<Self>)
        ensures
            r == Self::symbol_lookup(s@),
    {
        if str_eq(s, "ISG_NULL") {
            return Some(IdleStateGroup(0i32));
        }
        if str_eq(s, "ISG_NOT_BOTHERED") {
            return Some(IdleStateGroup(1i32));
        }
        if str_eq(s, "ISG_CLEAN_HOME") {
            return Some(IdleStateGroup(2i32));
        }
        if str_eq(s, "ISG_SIT_HOME") {
            return Some(IdleStateGroup(3i32));
        }
        if str_eq(s, "ISG_SIT_OUTSIDE") {
            return Some(IdleStateGroup(4i32));
        }
        if str_eq(s, "ISG_SIT_AROUND_FIRE") {
            return Some(IdleStateGroup(5i32));
        }
        if str_eq(s, "ISG_WATCH_FIRE") {
            return Some(IdleStateGroup(6i32));
        }
        if str_eq(s, "ISG_GAZE_HOME") {
            return Some(IdleStateGroup(7i32));
        }
        if str_eq(s, "ISG_GAZE_OUTSIDE") {
            return Some(IdleStateGroup(8i32));
        }
        if str_eq(s, "ISG_LOOK_AT_INTERESTING_THINGS") {
            return Some(IdleStateGroup(9i32));
        }
        if str_eq(s, "ISG_WANDER_AROUND_SHOPS") {
            return Some(IdleStateGroup(10i32));
        }
        if str_eq(s, "ISG_KID_WANDER_NEAR_KIDS") {
            return Some(IdleStateGroup(11i32));
        }
        None
    }
}

impl core::ops::BitOr for IdleStateGroup {
    type Output = IdleStateGroup;

    fn bitor(self, rhs: IdleStateGroup) -> (r: IdleStateGroup) {
        IdleStateGroup(self.0 | rhs.0)
    }
}

impl vstd::std_specs::ops::BitOrSpecImpl for IdleStateGroup {
    open spec fn obeys_bitor_spec() -> bool {
        true
    }

    open spec fn bitor_req(self, rhs: IdleStateGroup) -> bool {
        true
    }

    open spec fn bitor_spec(self, rhs: IdleStateGroup) -> IdleStateGroup {
        IdleStateGroup(self.0 | rhs.0)
    }
}

#[derive(Debug, Clone, Copy, PartialEq, Eq, Structural, PartialOrd, Ord, Hash)]
pub enum LightingChannel {
    MAIN,
    INDOORS,
    INDOORS2,
    INDOORS3,
    INDOORS4,
    EPICSPELL,
    COUNT,
}

impl DefEnum for LightingChannel {
    open spec fn wire_value(self) -> i32 {
        match self {
            LightingChannel::MAIN => 0i32,
            LightingChannel::INDOORS => 1i32,
            LightingChannel::INDOORS2 => 2i32,
            LightingChannel::INDOORS3 => 3i32,
            LightingChannel::INDOORS4 => 4i32,
            LightingChannel::EPICSPELL => 5i32,
            LightingChannel::COUNT => 6i32,
        }
    }

    open spec fn lookup(value: i32) -> Option<Self> {
        match value {
            0i32 => Some(LightingChannel::MAIN),
            1i32 => Some(LightingChannel::INDOORS),
            2i32 => Some(LightingChannel::INDOORS2),
            3i32 => Some(LightingChannel::INDOORS3),
            4i32 => Some(LightingChannel::INDOORS4),
            5i32 => Some(LightingChannel::EPICSPELL),
            6i32 => Some(LightingChannel::COUNT),
            _ => None,
        }
    }

    fn from_i32(value: i32) -> (r: Option<Self>) {
        match value {
            0i32 => Some(LightingChannel::MAIN),
            1i32 => Some(LightingChannel::INDOORS),
            2i32 => Some(LightingChannel::INDOORS2),
            3i32 => Some(LightingChannel::INDOORS3),
            4i32 => Some(LightingChannel::INDOORS4),
            5i32 => Some(LightingChannel::EPICSPELL),
            6i32 => Some(LightingChannel::COUNT),
            _ => None,
        }
    }

    fn to_i32(self) -> (r: i32) {
        match self {
            LightingChannel::MAIN => 0i32,
            LightingChannel::INDOORS => 1i32,
            LightingChannel::INDOORS2 => 2i32,
            LightingChannel::INDOORS3 => 3i32,
            LightingChannel::INDOORS4 => 4i32,
            LightingChannel::EPICSPELL => 5i32,
            LightingChannel::COUNT => 6i32,
        }
    }

    proof fn lemma_lookup_wire_value(e: Self) {
    }
}

impl LightingChannel {
    /// The C++ enumerator symbol of `self`.
    pub open spec fn symbol_of(self) -> Seq<char> {
        match self {
            LightingChannel::MAIN => "LIGHTING_CHANNEL_MAIN"@,
            LightingChannel::INDOORS => "LIGHTING_CHANNEL_INDOORS"@,
            LightingChannel::INDOORS2 => "LIGHTING_CHANNEL_INDOORS_2"@,
            LightingChannel::INDOORS3 => "LIGHTING_CHANNEL_INDOORS_3"@,
            LightingChannel::INDOORS4 => "LIGHTING_CHANNEL_INDOORS_4"@,
            LightingChannel::EPICSPELL => "LIGHTING_CHANNEL_EPIC_SPELL"@,
            LightingChannel::COUNT => "LIGHTING_CHANNEL_COUNT"@,
        }
    }

    /// The first variant whose symbol is `s`, if any.
    pub open spec fn symbol_lookup(s: Seq<char>) -> Option<Self> {
        if s == "LIGHTING_CHANNEL_MAIN"@ {
            Some(LightingChannel::MAIN)
        } else if s == "LIGHTING_CHANNEL_INDOORS"@ {
            Some(LightingChannel::INDOORS)
        } else if s == "LIGHTING_CHANNEL_INDOORS_2"@ {
            Some(LightingChannel::INDOORS2)
        } else if s == "LIGHTING_CHANNEL_INDOORS_3"@ {
            Some(LightingChannel::INDOORS3)
        } else if s == "LIGHTING_CHANNEL_INDOORS_4"@ {
            Some(LightingChannel::INDOORS4)
        } else if s == "LIGHTING_CHANNEL_EPIC_SPELL"@ {
            Some(LightingChannel::EPICSPELL)
        } else if s == "LIGHTING_CHANNEL_COUNT"@ {
            Some(LightingChannel::COUNT)
        } else {
            None
        }
    }

    /// The C++ enumerator symbol text defs use for `self`.
    pub fn symbol(self) -> (r: &'static str)
        ensures
            r@ == self.symbol_of(),
    {
        match self {
            LightingChannel::MAIN => "LIGHTING_CHANNEL_MAIN",
            LightingChannel::INDOORS => "LIGHTING_CHANNEL_INDOORS",
            LightingChannel::INDOORS2 => "LIGHTING_CHANNEL_INDOORS_2",
            LightingChannel::INDOORS3 => "LIGHTING_CHANNEL_INDOORS_3",
            LightingChannel::INDOORS4 => "LIGHTING_CHANNEL_INDOORS_4",
            LightingChannel::EPICSPELL => "LIGHTING_CHANNEL_EPIC_SPELL",
            LightingChannel::COUNT => "LIGHTING_CHANNEL_COUNT",
        }
    }

    /// The variant a C++ enumerator symbol names.
    pub fn from_symbol(s: &str) -> (r: Option<Self>)
        ensures
            r == Self::symbol_lookup(s@),
    {
        if str_eq(s, "LIGHTING_CHANNEL_MAIN") {
            return Some(LightingChannel::MAIN);
        }
        if str_eq(s, "LIGHTING_CHANNEL_INDOORS") {
            return Some(LightingChannel::INDOORS);
        }
        if str_eq(s, "LIGHTING_CHANNEL_INDOORS_2") {
            return Some(LightingChannel::INDOORS2);
        }
        if str_eq(s, "LIGHTING_CHANNEL_INDOORS_3") {
            return Some(LightingChannel::INDOORS3);
        }
        if str_eq(s, "LIGHTING_CHANNEL_INDOORS_4") {
            return Some(LightingChannel::INDOORS4);
        }
        if str_eq(s, "LIGHTING_CHANNEL_EPIC_SPELL") {
            return Some(LightingChannel::EPICSPELL);
        }
        if str_eq(s, "LIGHTING_CHANNEL_COUNT") {
            return Some(LightingChannel::COUNT);
        }
        None
    }
}

#[derive(Debug, Clone, Copy, PartialEq, Eq, Structural, PartialOrd, Ord, Hash)]
pub enum MessageEventType {
    PLAYERGIVEITEM,
    CALLCHILDRENHOME,
    CALLSPOUSEHOME,
    PLAYERARSON,
    ATTACK,
    MURDER,
    PLAYERARSONEMOTIONALREACTION,
    PLAYERATTACKEMOTIONALREACTION,
    PLAYERMURDEREMOTIONALREACTION,
    DEATH,
    GOINGFORHELP,
    YELLFORHELP,
    YELLISEEHIM,
    CONVERSATIONSTART,
    CONVERSATIONJOIN,
    CONVERSATIONEND,
    CONVERSATIONANSWERYESORNO,
    CONVERSATIONCLICKPAST,
    GAMEINFOCLICKPAST,
    BUYITEM,
    PLAYERINTERACTION,
    GAMEOFTAGSTART,
    GAMEOFTAGJOIN,
    GAMEOFTAGSOMEONETAGGED,
    HOPSCOTCHPLAYING,
    FOUNDCORPSE,
    FOUNDUNCONSCIOUSPERSON,
    GUARDSEENPLAYERSWORD,
    THEFT,
    TRESPASS,
    DEALINGWITHTRESPASS,
    DEALINGWITHNOISEINHOUSE,
    HEROREPUTATIONEVENT,
    CROWDFORMING,
    CROWDDISPERSING,
    HEROPODIUM,
    LEVELLOADED,
    LEVELUNLOADED,
    REGIONLOADED,
    REGIONUNLOADED,
    REGIONPREUNLOAD,
    BOASTMADE,
    EXPRESSIONPERFORMED,
    SCRIPTEDCAMERAEVENT,
    REQUESTGOSSIP,
    REQUESTGOSSIPREQUEST,
    REQUESTGAMEOFTAG,
    APPRENTICEPRACTICE,
    PAYMENTREQUEST,
    PAYMENTCANCELLED,
    SKIPCUTSCENE,
    QUESTCOMPLETED,
    QUESTFAILED,
    QUESTCOMPLETEDBEFORESCREENSHOWN,
    QUESTFAILEDBEFORESCREENSHOWN,
    QUESTACCEPTED,
    FEATACCEPTED,
    HAIRTYPECHANGED,
    BEARDTYPECHANGED,
    MOUSTACHETYPECHANGED,
    TELEPORTERUSED,
    GUILDSEALUSED,
    GAMESAVEDMANUALLY,
    FISHINGGAMEFINISHED,
    TAVERNGAMEFINISHED,
    HEROREWARDEDFROMCONTAINER,
    HEROSLEPT,
    HEROFIREDRANGEDWEAPON,
    HEROCASTSPELL,
    HEROPICKEDPOCKET,
    HEROPICKEDLOCK,
    HEROSTOLENOBJECT,
    CHESTOPENINGCANCELLED,
    LEAVINGQUESTSTARTSCREEN,
    LEAVINGEXPERIENCESPENDSCREEN,
    ACTIONMODEBUTTONPRESSED,
}

impl DefEnum for MessageEventType {
    open spec fn wire_value(self) -> i32 {
        match self {
            MessageEventType::PLAYERGIVEITEM => 0i32,
            MessageEventType::CALLCHILDRENHOME => 1i32,
            MessageEventType::CALLSPOUSEHOME => 2i32,
            MessageEventType::PLAYERARSON => 3i32,
            MessageEventType::ATTACK => 4i32,
            MessageEventType::MURDER => 5i32,
            MessageEventType::PLAYERARSONEMOTIONALREACTION => 6i32,
            MessageEventType::PLAYERATTACKEMOTIONALREACTION => 7i32,
            MessageEventType::PLAYERMURDEREMOTIONALREACTION => 8i32,
            MessageEventType::DEATH => 9i32,
            MessageEventType::GOINGFORHELP => 10i32,
            MessageEventType::YELLFORHELP => 11i32,
            MessageEventType::YELLISEEHIM => 12i32,
            MessageEventType::CONVERSATIONSTART => 13i32,
            MessageEventType::CONVERSATIONJOIN => 14i32,
            MessageEventType::CONVERSATIONEND => 15i32,
            MessageEventType::CONVERSATIONANSWERYESORNO => 16i32,
            MessageEventType::CONVERSATIONCLICKPAST => 17i32,
            MessageEventType::GAMEINFOCLICKPAST => 18i32,
            MessageEventType::BUYITEM => 19i32,
            MessageEventType::PLAYERINTERACTION => 20i32,
            MessageEventType::GAMEOFTAGSTART => 21i32,
            MessageEventType::GAMEOFTAGJOIN => 22i32,
            MessageEventType::GAMEOFTAGSOMEONETAGGED => 23i32,
            MessageEventType::HOPSCOTCHPLAYING => 24i32,
            MessageEventType::FOUNDCORPSE => 25i32,
            MessageEventType::FOUNDUNCONSCIOUSPERSON => 26i32,
            MessageEventType::GUARDSEENPLAYERSWORD => 27i32,
            MessageEventType::THEFT => 28i32,
            MessageEventType::TRESPASS => 29i32,
            MessageEventType::DEALINGWITHTRESPASS => 30i32,
            MessageEventType::DEALINGWITHNOISEINHOUSE => 31i32,
            MessageEventType::HEROREPUTATIONEVENT => 32i32,
            MessageEventType::CROWDFORMING => 33i32,
            MessageEventType::CROWDDISPERSING => 34i32,
            MessageEventType::HEROPODIUM => 35i32,
            MessageEventType::LEVELLOADED => 36i32,
            MessageEventType::LEVELUNLOADED => 37i32,
            MessageEventType::REGIONLOADED => 38i32,
            MessageEventType::REGIONUNLOADED => 39i32,
            MessageEventType::REGIONPREUNLOAD => 40i32,
            MessageEventType::BOASTMADE => 41i32,
            MessageEventType::EXPRESSIONPERFORMED => 42i32,
            MessageEventType::SCRIPTEDCAMERAEVENT => 43i32,
            MessageEventType::REQUESTGOSSIP => 44i32,
            MessageEventType::REQUESTGOSSIPREQUEST => 45i32,
            MessageEventType::REQUESTGAMEOFTAG => 46i32,
            MessageEventType::APPRENTICEPRACTICE => 47i32,
            MessageEventType::PAYMENTREQUEST => 48i32,
            MessageEventType::PAYMENTCANCELLED => 49i32,
            MessageEventType::SKIPCUTSCENE => 50i32,
            MessageEventType::QUESTCOMPLETED => 51i32,
            MessageEventType::QUESTFAILED => 52i32,
            MessageEventType::QUESTCOMPLETEDBEFORESCREENSHOWN => 53i32,
            MessageEventType::QUESTFAILEDBEFORESCREENSHOWN => 54i32,
            MessageEventType::QUESTACCEPTED => 55i32,
            MessageEventType::FEATACCEPTED => 56i32,
            MessageEventType::HAIRTYPECHANGED => 57i32,
            MessageEventType::BEARDTYPECHANGED => 58i32,
            MessageEventType::MOUSTACHETYPECHANGED => 59i32,
            MessageEventType::TELEPORTERUSED => 60i32,
            MessageEventType::GUILDSEALUSED => 61i32,
            MessageEventType::GAMESAVEDMANUALLY => 62i32,
            MessageEventType::FISHINGGAMEFINISHED => 63i32,
            MessageEventType::TAVERNGAMEFINISHED => 64i32,
            MessageEventType::HEROREWARDEDFROMCONTAINER => 65i32,
            MessageEventType::HEROSLEPT => 66i32,
            MessageEventType::HEROFIREDRANGEDWEAPON => 67i32,
            MessageEventType::HEROCASTSPELL => 68i32,
            MessageEventType::HEROPICKEDPOCKET => 69i32,
            MessageEventType::HEROPICKEDLOCK => 70i32,
            MessageEventType::HEROSTOLENOBJECT => 71i32,
            MessageEventType::CHESTOPENINGCANCELLED => 72i32,
            MessageEventType::LEAVINGQUESTSTARTSCREEN => 73i32,
            MessageEventType::LEAVINGEXPERIENCESPENDSCREEN => 74i32,
            MessageEventType::ACTIONMODEBUTTONPRESSED => 75i32,
        }
    }

    open spec fn lookup(value: i32) -> Option<Self> {
        match value {
            0i32 => Some(MessageEventType::PLAYERGIVEITEM),
            1i32 => Some(MessageEventType::CALLCHILDRENHOME),
            2i32 => Some(MessageEventType::CALLSPOUSEHOME),
            3i32 => Some(MessageEventType::PLAYERARSON),
            4i32 => Some(MessageEventType::ATTACK),
            5i32 => Some(MessageEventType::MURDER),
            6i32 => Some(MessageEventType::PLAYERARSONEMOTIONALREACTION),
            7i32 => Some(MessageEventType::PLAYERATTACKEMOTIONALREACTION),
            8i32 => Some(MessageEventType::PLAYERMURDEREMOTIONALREACTION),
            9i32 => Some(MessageEventType::DEATH),
            10i32 => Some(MessageEventType::GOINGFORHELP),
            11i32 => Some(MessageEventType::YELLFORHELP),
            12i32 => Some(MessageEventType::YELLISEEHIM),
            13i32 => Some(MessageEventType::CONVERSATIONSTART),
            14i32 => Some(MessageEventType::CONVERSATIONJOIN),
            15i32 => Some(MessageEventType::CONVERSATIONEND),
            16i32 => Some(MessageEventType::CONVERSATIONANSWERYESORNO),
            17i32 => Some(MessageEventType::CONVERSATIONCLICKPAST),
            18i32 => Some(MessageEventType::GAMEINFOCLICKPAST),
            19i32 => Some(MessageEventType::BUYITEM),
            20i32 => Some(MessageEventType::PLAYERINTERACTION),
            21i32 => Some(MessageEventType::GAMEOFTAGSTART),
            22i32 => Some(MessageEventType::GAMEOFTAGJOIN),
            23i32 => Some(MessageEventType::GAMEOFTAGSOMEONETAGGED),
            24i32 => Some(MessageEventType::HOPSCOTCHPLAYING),
            25i32 => Some(MessageEventType::FOUNDCORPSE),
            26i32 => Some(MessageEventType::FOUNDUNCONSCIOUSPERSON),
            27i32 => Some(MessageEventType::GUARDSEENPLAYERSWORD),
            28i32 => Some(MessageEventType::THEFT),
            29i32 => Some(MessageEventType::TRESPASS),
            30i32 => Some(MessageEventType::DEALINGWITHTRESPASS),
            31i32 => Some(MessageEventType::DEALINGWITHNOISEINHOUSE),
            32i32 => Some(MessageEventType::HEROREPUTATIONEVENT),
            33i32 => Some(MessageEventType::CROWDFORMING),
            34i32 => Some(MessageEventType::CROWDDISPERSING),
            35i32 => Some(MessageEventType::HEROPODIUM),
            36i32 => Some(MessageEventType::LEVELLOADED),
            37i32 => Some(MessageEventType::LEVELUNLOADED),
            38i32 => Some(MessageEventType::REGIONLOADED),
            39i32 => Some(MessageEventType::REGIONUNLOADED),
            40i32 => Some(MessageEventType::REGIONPREUNLOAD),
            41i32 => Some(MessageEventType::BOASTMADE),
            42i32 => Some(MessageEventType::EXPRESSIONPERFORMED),
            43i32 => Some(MessageEventType::SCRIPTEDCAMERAEVENT),
            44i32 => Some(MessageEventType::REQUESTGOSSIP),
            45i32 => Some(MessageEventType::REQUESTGOSSIPREQUEST),
            46i32 => Some(MessageEventType::REQUESTGAMEOFTAG),
            47i32 => Some(MessageEventType::APPRENTICEPRACTICE),
            48i32 => Some(MessageEventType::PAYMENTREQUEST),
            49i32 => Some(MessageEventType::PAYMENTCANCELLED),
            50i32 => Some(MessageEventType::SKIPCUTSCENE),
            51i32 => Some(MessageEventType::QUESTCOMPLETED),
            52i32 => Some(MessageEventType::QUESTFAILED),
            53i32 => Some(MessageEventType::QUESTCOMPLETEDBEFORESCREENSHOWN),
            54i32 => Some(MessageEventType::QUESTFAILEDBEFORESCREENSHOWN),
            55i32 => Some(MessageEventType::QUESTACCEPTED),
            56i32 => Some(MessageEventType::FEATACCEPTED),
            57i32 => Some(MessageEventType::HAIRTYPECHANGED),
            58i32 => Some(MessageEventType::BEARDTYPECHANGED),
            59i32 => Some(MessageEventType::MOUSTACHETYPECHANGED),
            60i32 => Some(MessageEventType::TELEPORTERUSED),
            61i32 => Some(MessageEventType::GUILDSEALUSED),
            62i32 => Some(MessageEventType::GAMESAVEDMANUALLY),
            63i32 => Some(MessageEventType::FISHINGGAMEFINISHED),
            64i32 => Some(MessageEventType::TAVERNGAMEFINISHED),
            65i32 => Some(MessageEventType::HEROREWARDEDFROMCONTAINER),
            66i32 => Some(MessageEventType::HEROSLEPT),
            67i32 => Some(MessageEventType::HEROFIREDRANGEDWEAPON),
            68i32 => Some(MessageEventType::HEROCASTSPELL),
            69i32 => Some(MessageEventType::HEROPICKEDPOCKET),
            70i32 => Some(MessageEventType::HEROPICKEDLOCK),
            71i32 => Some(MessageEventType::HEROSTOLENOBJECT),
            72i32 => Some(MessageEventType::CHESTOPENINGCANCELLED),
            73i32 => Some(MessageEventType::LEAVINGQUESTSTARTSCREEN),
            74i32 => Some(MessageEventType::LEAVINGEXPERIENCESPENDSCREEN),
            75i32 => Some(MessageEventType::ACTIONMODEBUTTONPRESSED),
            _ => None,
        }
    }

    fn from_i32(value: i32) -> (r: Option<Self>) {
        match value {
            0i32 => Some(MessageEventType::PLAYERGIVEITEM),
            1i32 => Some(MessageEventType::CALLCHILDRENHOME),
            2i32 => Some(MessageEventType::CALLSPOUSEHOME),
            3i32 => Some(MessageEventType::PLAYERARSON),
            4i32 => Some(MessageEventType::ATTACK),
            5i32 => Some(MessageEventType::MURDER),
            6i32 => Some(MessageEventType::PLAYERARSONEMOTIONALREACTION),
            7i32 => Some(MessageEventType::PLAYERATTACKEMOTIONALREACTION),
            8i32 => Some(MessageEventType::PLAYERMURDEREMOTIONALREACTION),
            9i32 => Some(MessageEventType::DEATH),
            10i32 => Some(MessageEventType::GOINGFORHELP),
            11i32 => Some(MessageEventType::YELLFORHELP),
            12i32 => Some(MessageEventType::YELLISEEHIM),
            13i32 => Some(MessageEventType::CONVERSATIONSTART),
            14i32 => Some(MessageEventType::CONVERSATIONJOIN),
            15i32 => Some(MessageEventType::CONVERSATIONEND),
            16i32 => Some(MessageEventType::CONVERSATIONANSWERYESORNO),
            17i32 => Some(MessageEventType::CONVERSATIONCLICKPAST),
            18i32 => Some(MessageEventType::GAMEINFOCLICKPAST),
            19i32 => Some(MessageEventType::BUYITEM),
            20i32 => Some(MessageEventType::PLAYERINTERACTION),
            21i32 => Some(MessageEventType::GAMEOFTAGSTART),
            22i32 => Some(MessageEventType::GAMEOFTAGJOIN),
            23i32 => Some(MessageEventType::GAMEOFTAGSOMEONETAGGED),
            24i32 => Some(MessageEventType::HOPSCOTCHPLAYING),
            25i32 => Some(MessageEventType::FOUNDCORPSE),
            26i32 => Some(MessageEventType::FOUNDUNCONSCIOUSPERSON),
            27i32 => Some(MessageEventType::GUARDSEENPLAYERSWORD),
            28i32 => Some(MessageEventType::THEFT),
            29i32 => Some(MessageEventType::TRESPASS),
            30i32 => Some(MessageEventType::DEALINGWITHTRESPASS),
            31i32 => Some(MessageEventType::DEALINGWITHNOISEINHOUSE),
            32i32 => Some(MessageEventType::HEROREPUTATIONEVENT),
            33i32 => Some(MessageEventType::CROWDFORMING),
            34i32 => Some(MessageEventType::CROWDDISPERSING),
            35i32 => Some(MessageEventType::HEROPODIUM),
            36i32 => Some(MessageEventType::LEVELLOADED),
            37i32 => Some(MessageEventType::LEVELUNLOADED),
            38i32 => Some(MessageEventType::REGIONLOADED),
            39i32 => Some(MessageEventType::REGIONUNLOADED),
            40i32 => Some(MessageEventType::REGIONPREUNLOAD),
            41i32 => Some(MessageEventType::BOASTMADE),
            42i32 => Some(MessageEventType::EXPRESSIONPERFORMED),
            43i32 => Some(MessageEventType::SCRIPTEDCAMERAEVENT),
            44i32 => Some(MessageEventType::REQUESTGOSSIP),
            45i32 => Some(MessageEventType::REQUESTGOSSIPREQUEST),
            46i32 => Some(MessageEventType::REQUESTGAMEOFTAG),
            47i32 => Some(MessageEventType::APPRENTICEPRACTICE),
            48i32 => Some(MessageEventType::PAYMENTREQUEST),
            49i32 => Some(MessageEventType::PAYMENTCANCELLED),
            50i32 => Some(MessageEventType::SKIPCUTSCENE),
            51i32 => Some(MessageEventType::QUESTCOMPLETED),
            52i32 => Some(MessageEventType::QUESTFAILED),
            53i32 => Some(MessageEventType::QUESTCOMPLETEDBEFORESCREENSHOWN),
            54i32 => Some(MessageEventType::QUESTFAILEDBEFORESCREENSHOWN),
            55i32 => Some(MessageEventType::QUESTACCEPTED),
            56i32 => Some(MessageEventType::FEATACCEPTED),
            57i32 => Some(MessageEventType::HAIRTYPECHANGED),
            58i32 => Some(MessageEventType::BEARDTYPECHANGED),
            59i32 => Some(MessageEventType::MOUSTACHETYPECHANGED),
            60i32 => Some(MessageEventType::TELEPORTERUSED),
            61i32 => Some(MessageEventType::GUILDSEALUSED),
            62i32 => Some(MessageEventType::GAMESAVEDMANUALLY),
            63i32 => Some(MessageEventType::FISHINGGAMEFINISHED),
            64i32 => Some(MessageEventType::TAVERNGAMEFINISHED),
            65i32 => Some(MessageEventType::HEROREWARDEDFROMCONTAINER),
            66i32 => Some(MessageEventType::HEROSLEPT),
            67i32 => Some(MessageEventType::HEROFIREDRANGEDWEAPON),
            68i32 => Some(MessageEventType::HEROCASTSPELL),
            69i32 => Some(MessageEventType::HEROPICKEDPOCKET),
            70i32 => Some(MessageEventType::HEROPICKEDLOCK),
            71i32 => Some(MessageEventType::HEROSTOLENOBJECT),
            72i32 => Some(MessageEventType::CHESTOPENINGCANCELLED),
            73i32 => Some(MessageEventType::LEAVINGQUESTSTARTSCREEN),
            74i32 => Some(MessageEventType::LEAVINGEXPERIENCESPENDSCREEN),
            75i32 => Some(MessageEventType::ACTIONMODEBUTTONPRESSED),
            _ => None,
        }
    }

    fn to_i32(self) -> (r: i32) {
        match self {
            MessageEventType::PLAYERGIVEITEM => 0i32,
            MessageEventType::CALLCHILDRENHOME => 1i32,
            MessageEventType::CALLSPOUSEHOME => 2i32,
            MessageEventType::PLAYERARSON => 3i32,
            MessageEventType::ATTACK => 4i32,
            MessageEventType::MURDER => 5i32,
            MessageEventType::PLAYERARSONEMOTIONALREACTION => 6i32,
            MessageEventType::PLAYERATTACKEMOTIONALREACTION => 7i32,
            MessageEventType::PLAYERMURDEREMOTIONALREACTION => 8i32,
            MessageEventType::DEATH => 9i32,
            MessageEventType::GOINGFORHELP => 10i32,
            MessageEventType::YELLFORHELP => 11i32,
            MessageEventType::YELLISEEHIM => 12i32,
            MessageEventType::CONVERSATIONSTART => 13i32,
            MessageEventType::CONVERSATIONJOIN => 14i32,
            MessageEventType::CONVERSATIONEND => 15i32,
            MessageEventType::CONVERSATIONANSWERYESORNO => 16i32,
            MessageEventType::CONVERSATIONCLICKPAST => 17i32,
            MessageEventType::GAMEINFOCLICKPAST => 18i32,
            MessageEventType::BUYITEM => 19i32,
            MessageEventType::PLAYERINTERACTION => 20i32,
            MessageEventType::GAMEOFTAGSTART => 21i32,
            MessageEventType::GAMEOFTAGJOIN => 22i32,
            MessageEventType::GAMEOFTAGSOMEONETAGGED => 23i32,
            MessageEventType::HOPSCOTCHPLAYING => 24i32,
            MessageEventType::FOUNDCORPSE => 25i32,
            MessageEventType::FOUNDUNCONSCIOUSPERSON => 26i32,
            MessageEventType::GUARDSEENPLAYERSWORD => 27i32,
            MessageEventType::THEFT => 28i32,
            MessageEventType::TRESPASS => 29i32,
            MessageEventType::DEALINGWITHTRESPASS => 30i32,
            MessageEventType::DEALINGWITHNOISEINHOUSE => 31i32,
            MessageEventType::HEROREPUTATIONEVENT => 32i32,
            MessageEventType::CROWDFORMING => 33i32,
            MessageEventType::CROWDDISPERSING => 34i32,
            MessageEventType::HEROPODIUM => 35i32,
            MessageEventType::LEVELLOADED => 36i32,
            MessageEventType::LEVELUNLOADED => 37i32,
            MessageEventType::REGIONLOADED => 38i32,
            MessageEventType::REGIONUNLOADED => 39i32,
            MessageEventType::REGIONPREUNLOAD => 40i32,
            MessageEventType::BOASTMADE => 41i32,
            MessageEventType::EXPRESSIONPERFORMED => 42i32,
            MessageEventType::SCRIPTEDCAMERAEVENT => 43i32,
            MessageEventType::REQUESTGOSSIP => 44i32,
            MessageEventType::REQUESTGOSSIPREQUEST => 45i32,
            MessageEventType::REQUESTGAMEOFTAG => 46i32,
            MessageEventType::APPRENTICEPRACTICE => 47i32,
            MessageEventType::PAYMENTREQUEST => 48i32,
            MessageEventType::PAYMENTCANCELLED => 49i32,
            MessageEventType::SKIPCUTSCENE => 50i32,
            MessageEventType::QUESTCOMPLETED => 51i32,
            MessageEventType::QUESTFAILED => 52i32,
            MessageEventType::QUESTCOMPLETEDBEFORESCREENSHOWN => 53i32,
            MessageEventType::QUESTFAILEDBEFORESCREENSHOWN => 54i32,
            MessageEventType::QUESTACCEPTED => 55i32,
            MessageEventType::FEATACCEPTED => 56i32,
            MessageEventType::HAIRTYPECHANGED => 57i32,
            MessageEventType::BEARDTYPECHANGED => 58i32,
            MessageEventType::MOUSTACHETYPECHANGED => 59i32,
            MessageEventType::TELEPORTERUSED => 60i32,
            MessageEventType::GUILDSEALUSED => 61i32,
            MessageEventType::GAMESAVEDMANUALLY => 62i32,
            MessageEventType::FISHINGGAMEFINISHED => 63i32,
            MessageEventType::TAVERNGAMEFINISHED => 64i32,
            MessageEventType::HEROREWARDEDFROMCONTAINER => 65i32,
            MessageEventType::HEROSLEPT => 66i32,
            MessageEventType::HEROFIREDRANGEDWEAPON => 67i32,
            MessageEventType::HEROCASTSPELL => 68i32,
            MessageEventType::HEROPICKEDPOCKET => 69i32,
            MessageEventType::HEROPICKEDLOCK => 70i32,
            MessageEventType::HEROSTOLENOBJECT => 71i32,
            MessageEventType::CHESTOPENINGCANCELLED => 72i32,
            MessageEventType::LEAVINGQUESTSTARTSCREEN => 73i32,
            MessageEventType::LEAVINGEXPERIENCESPENDSCREEN => 74i32,
            MessageEventType::ACTIONMODEBUTTONPRESSED => 75i32,
        }
    }

    proof fn lemma_lookup_wire_value(e: Self) {
    }
}

impl MessageEventType {
    /// The C++ enumerator symbol of `self`.
    pub open spec fn symbol_of(self) -> Seq<char> {
        match self {
            MessageEventType::PLAYERGIVEITEM => "MESSAGE_EVENT_PLAYER_GIVE_ITEM"@,
            MessageEventType::CALLCHILDRENHOME => "MESSAGE_EVENT_CALL_CHILDREN_HOME"@,
            MessageEventType::CALLSPOUSEHOME => "MESSAGE_EVENT_CALL_SPOUSE_HOME"@,
            MessageEventType::PLAYERARSON => "MESSAGE_EVENT_PLAYER_ARSON"@,
            MessageEventType::ATTACK => "MESSAGE_EVENT_ATTACK"@,
            MessageEventType::MURDER => "MESSAGE_EVENT_MURDER"@,
            MessageEventType::PLAYERARSONEMOTIONALREACTION => "MESSAGE_EVENT_PLAYER_ARSON_EMOTIONAL_REACTION"@,
            MessageEventType::PLAYERATTACKEMOTIONALREACTION => "MESSAGE_EVENT_PLAYER_ATTACK_EMOTIONAL_REACTION"@,
            MessageEventType::PLAYERMURDEREMOTIONALREACTION => "MESSAGE_EVENT_PLAYER_MURDER_EMOTIONAL_REACTION"@,
            MessageEventType::DEATH => "MESSAGE_EVENT_DEATH"@,
            MessageEventType::GOINGFORHELP => "MESSAGE_EVENT_GOING_FOR_HELP"@,
            MessageEventType::YELLFORHELP => "MESSAGE_EVENT_YELL_FOR_HELP"@,
            MessageEventType::YELLISEEHIM => "MESSAGE_EVENT_YELL_I_SEE_HIM"@,
            MessageEventType::CONVERSATIONSTART => "MESSAGE_EVENT_CONVERSATION_START"@,
            MessageEventType::CONVERSATIONJOIN => "MESSAGE_EVENT_CONVERSATION_JOIN"@,
            MessageEventType::CONVERSATIONEND => "MESSAGE_EVENT_CONVERSATION_END"@,
            MessageEventType::CONVERSATIONANSWERYESORNO => "MESSAGE_EVENT_CONVERSATION_ANSWER_YES_OR_NO"@,
            MessageEventType::CONVERSATIONCLICKPAST => "MESSAGE_EVENT_CONVERSATION_CLICK_PAST"@,
            MessageEventType::GAMEINFOCLICKPAST => "MESSAGE_EVENT_GAME_INFO_CLICK_PAST"@,
            MessageEventType::BUYITEM => "MESSAGE_EVENT_BUY_ITEM"@,
            MessageEventType::PLAYERINTERACTION => "MESSAGE_EVENT_PLAYER_INTERACTION"@,
            MessageEventType::GAMEOFTAGSTART => "MESSAGE_EVENT_GAME_OF_TAG_START"@,
            MessageEventType::GAMEOFTAGJOIN => "MESSAGE_EVENT_GAME_OF_TAG_JOIN"@,
            MessageEventType::GAMEOFTAGSOMEONETAGGED => "MESSAGE_EVENT_GAME_OF_TAG_SOMEONE_TAGGED"@,
            MessageEventType::HOPSCOTCHPLAYING => "MESSAGE_EVENT_HOPSCOTCH_PLAYING"@,
            MessageEventType::FOUNDCORPSE => "MESSAGE_EVENT_FOUND_CORPSE"@,
            MessageEventType::FOUNDUNCONSCIOUSPERSON => "MESSAGE_EVENT_FOUND_UNCONSCIOUS_PERSON"@,
            MessageEventType::GUARDSEENPLAYERSWORD => "MESSAGE_EVENT_GUARD_SEEN_PLAYER_SWORD"@,
            MessageEventType::THEFT => "MESSAGE_EVENT_THEFT"@,
            MessageEventType::TRESPASS => "MESSAGE_EVENT_TRESPASS"@,
            MessageEventType::DEALINGWITHTRESPASS => "MESSAGE_EVENT_DEALING_WITH_TRESPASS"@,
            MessageEventType::DEALINGWITHNOISEINHOUSE => "MESSAGE_EVENT_DEALING_WITH_NOISE_IN_HOUSE"@,
            MessageEventType::HEROREPUTATIONEVENT => "MESSAGE_EVENT_HERO_REPUTATION_EVENT"@,
            MessageEventType::CROWDFORMING => "MESSAGE_EVENT_CROWD_FORMING"@,
            MessageEventType::CROWDDISPERSING => "MESSAGE_EVENT_CROWD_DISPERSING"@,
            MessageEventType::HEROPODIUM => "MESSAGE_EVENT_HERO_PODIUM"@,
            MessageEventType::LEVELLOADED => "MESSAGE_EVENT_LEVEL_LOADED"@,
            MessageEventType::LEVELUNLOADED => "MESSAGE_EVENT_LEVEL_UNLOADED"@,
            MessageEventType::REGIONLOADED => "MESSAGE_EVENT_REGION_LOADED"@,
            MessageEventType::REGIONUNLOADED => "MESSAGE_EVENT_REGION_UNLOADED"@,
            MessageEventType::REGIONPREUNLOAD => "MESSAGE_EVENT_REGION_PREUNLOAD"@,
            MessageEventType::BOASTMADE => "MESSAGE_EVENT_BOAST_MADE"@,
            MessageEventType::EXPRESSIONPERFORMED => "MESSAGE_EVENT_EXPRESSION_PERFORMED"@,
            MessageEventType::SCRIPTEDCAMERAEVENT => "MESSAGE_EVENT_SCRIPTED_CAMERA_EVENT"@,
            MessageEventType::REQUESTGOSSIP => "MESSAGE_EVENT_REQUEST_GOSSIP"@,
            MessageEventType::REQUESTGOSSIPREQUEST => "MESSAGE_EVENT_REQUEST_GOSSIP_REQUEST"@,
            MessageEventType::REQUESTGAMEOFTAG => "MESSAGE_EVENT_REQUEST_GAME_OF_TAG"@,
            MessageEventType::APPRENTICEPRACTICE => "MESSAGE_EVENT_APPRENTICE_PRACTICE"@,
            MessageEventType::PAYMENTREQUEST => "MESSAGE_EVENT_PAYMENT_REQUEST"@,
            MessageEventType::PAYMENTCANCELLED => "MESSAGE_EVENT_PAYMENT_CANCELLED"@,
            MessageEventType::SKIPCUTSCENE => "MESSAGE_EVENT_SKIP_CUT_SCENE"@,
            MessageEventType::QUESTCOMPLETED => "MESSAGE_EVENT_QUEST_COMPLETED"@,
            MessageEventType::QUESTFAILED => "MESSAGE_EVENT_QUEST_FAILED"@,
            MessageEventType::QUESTCOMPLETEDBEFORESCREENSHOWN => "MESSAGE_EVENT_QUEST_COMPLETED_BEFORE_SCREEN_SHOWN"@,
            MessageEventType::QUESTFAILEDBEFORESCREENSHOWN => "MESSAGE_EVENT_QUEST_FAILED_BEFORE_SCREEN_SHOWN"@,
            MessageEventType::QUESTACCEPTED => "MESSAGE_EVENT_QUEST_ACCEPTED"@,
            MessageEventType::FEATACCEPTED => "MESSAGE_EVENT_FEAT_ACCEPTED"@,
            MessageEventType::HAIRTYPECHANGED => "MESSAGE_EVENT_HAIR_TYPE_CHANGED"@,
            MessageEventType::BEARDTYPECHANGED => "MESSAGE_EVENT_BEARD_TYPE_CHANGED"@,
            MessageEventType::MOUSTACHETYPECHANGED => "MESSAGE_EVENT_MOUSTACHE_TYPE_CHANGED"@,
            MessageEventType::TELEPORTERUSED => "MESSAGE_EVENT_TELEPORTER_USED"@,
            MessageEventType::GUILDSEALUSED => "MESSAGE_EVENT_GUILD_SEAL_USED"@,
            MessageEventType::GAMESAVEDMANUALLY => "MESSAGE_EVENT_GAME_SAVED_MANUALLY"@,
            MessageEventType::FISHINGGAMEFINISHED => "MESSAGE_EVENT_FISHING_GAME_FINISHED"@,
            MessageEventType::TAVERNGAMEFINISHED => "MESSAGE_EVENT_TAVERN_GAME_FINISHED"@,
            MessageEventType::HEROREWARDEDFROMCONTAINER => "MESSAGE_EVENT_HERO_REWARDED_FROM_CONTAINER"@,
            MessageEventType::HEROSLEPT => "MESSAGE_EVENT_HERO_SLEPT"@,
            MessageEventType::HEROFIREDRANGEDWEAPON => "MESSAGE_EVENT_HERO_FIRED_RANGED_WEAPON"@,
            MessageEventType::HEROCASTSPELL => "MESSAGE_EVENT_HERO_CAST_SPELL"@,
            MessageEventType::HEROPICKEDPOCKET => "MESSAGE_EVENT_HERO_PICKED_POCKET"@,
            MessageEventType::HEROPICKEDLOCK => "MESSAGE_EVENT_HERO_PICKED_LOCK"@,
            MessageEventType::HEROSTOLENOBJECT => "MESSAGE_EVENT_HERO_STOLEN_OBJECT"@,
            MessageEventType::CHESTOPENINGCANCELLED => "MESSAGE_EVENT_CHEST_OPENING_CANCELLED"@,
            MessageEventType::LEAVINGQUESTSTARTSCREEN => "MESSAGE_EVENT_LEAVING_QUEST_START_SCREEN"@,
            MessageEventType::LEAVINGEXPERIENCESPENDSCREEN => "MESSAGE_EVENT_LEAVING_EXPERIENCE_SPEND_SCREEN"@,
            MessageEventType::ACTIONMODEBUTTONPRESSED => "MESSAGE_EVENT_ACTION_MODE_BUTTON_PRESSED"@,
        }
    }

    /// The first variant whose symbol is `s`, if any.
    pub open spec fn symbol_lookup(s: Seq<char>) -> Option<Self> {
        if s == "MESSAGE_EVENT_PLAYER_GIVE_ITEM"@ {
            Some(MessageEventType::PLAYERGIVEITEM)
        } else if s == "MESSAGE_EVENT_CALL_CHILDREN_HOME"@ {
            Some(MessageEventType::CALLCHILDRENHOME)
        } else if s == "MESSAGE_EVENT_CALL_SPOUSE_HOME"@ {
            Some(MessageEventType::CALLSPOUSEHOME)
        } else if s == "MESSAGE_EVENT_PLAYER_ARSON"@ {
            Some(MessageEventType::PLAYERARSON)
        } else if s == "MESSAGE_EVENT_ATTACK"@ {
            Some(MessageEventType::ATTACK)
        } else if s == "MESSAGE_EVENT_MURDER"@ {
            Some(MessageEventType::MURDER)
        } else if s == "MESSAGE_EVENT_PLAYER_ARSON_EMOTIONAL_REACTION"@ {
            Some(MessageEventType::PLAYERARSONEMOTIONALREACTION)
        } else if s == "MESSAGE_EVENT_PLAYER_ATTACK_EMOTIONAL_REACTION"@ {
            Some(MessageEventType::PLAYERATTACKEMOTIONALREACTION)
        } else if s == "MESSAGE_EVENT_PLAYER_MURDER_EMOTIONAL_REACTION"@ {
            Some(MessageEventType::PLAYERMURDEREMOTIONALREACTION)
        } else if s == "MESSAGE_EVENT_DEATH"@ {
            Some(MessageEventType::DEATH)
        } else if s == "MESSAGE_EVENT_GOING_FOR_HELP"@ {
            Some(MessageEventType::GOINGFORHELP)
        } else if s == "MESSAGE_EVENT_YELL_FOR_HELP"@ {
            Some(MessageEventType::YELLFORHELP)
        } else if s == "MESSAGE_EVENT_YELL_I_SEE_HIM"@ {
            Some(MessageEventType::YELLISEEHIM)
        } else if s == "MESSAGE_EVENT_CONVERSATION_START"@ {
            Some(MessageEventType::CONVERSATIONSTART)
        } else if s == "MESSAGE_EVENT_CONVERSATION_JOIN"@ {
            Some(MessageEventType::CONVERSATIONJOIN)
        } else if s == "MESSAGE_EVENT_CONVERSATION_END"@ {
            Some(MessageEventType::CONVERSATIONEND)
        } else if s == "MESSAGE_EVENT_CONVERSATION_ANSWER_YES_OR_NO"@ {
            Some(MessageEventType::CONVERSATIONANSWERYESORNO)
        } else if s == "MESSAGE_EVENT_CONVERSATION_CLICK_PAST"@ {
            Some(MessageEventType::CONVERSATIONCLICKPAST)
        } else if s == "MESSAGE_EVENT_GAME_INFO_CLICK_PAST"@ {
            Some(MessageEventType::GAMEINFOCLICKPAST)
        } else if s == "MESSAGE_EVENT_BUY_ITEM"@ {
            Some(MessageEventType::BUYITEM)
        } else if s == "MESSAGE_EVENT_PLAYER_INTERACTION"@ {
            Some(MessageEventType::PLAYERINTERACTION)
        } else if s == "MESSAGE_EVENT_GAME_OF_TAG_START"@ {
            Some(MessageEventType::GAMEOFTAGSTART)
        } else if s == "MESSAGE_EVENT_GAME_OF_TAG_JOIN"@ {
            Some(MessageEventType::GAMEOFTAGJOIN)
        } else if s == "MESSAGE_EVENT_GAME_OF_TAG_SOMEONE_TAGGED"@ {
            Some(MessageEventType::GAMEOFTAGSOMEONETAGGED)
        } else if s == "MESSAGE_EVENT_HOPSCOTCH_PLAYING"@ {
            Some(MessageEventType::HOPSCOTCHPLAYING)
        } else if s == "MESSAGE_EVENT_FOUND_CORPSE"@ {
            Some(MessageEventType::FOUNDCORPSE)
        } else if s == "MESSAGE_EVENT_FOUND_UNCONSCIOUS_PERSON"@ {
            Some(MessageEventType::FOUNDUNCONSCIOUSPERSON)
        } else if s == "MESSAGE_EVENT_GUARD_SEEN_PLAYER_SWORD"@ {
            Some(MessageEventType::GUARDSEENPLAYERSWORD)
        } else if s == "MESSAGE_EVENT_THEFT"@ {
            Some(MessageEventType::THEFT)
        } else if s == "MESSAGE_EVENT_TRESPASS"@ {
            Some(MessageEventType::TRESPASS)
        } else if s == "MESSAGE_EVENT_DEALING_WITH_TRESPASS"@ {
            Some(MessageEventType::DEALINGWITHTRESPASS)
        } else if s == "MESSAGE_EVENT_DEALING_WITH_NOISE_IN_HOUSE"@ {
            Some(MessageEventType::DEALINGWITHNOISEINHOUSE)
        } else if s == "MESSAGE_EVENT_HERO_REPUTATION_EVENT"@ {
            Some(MessageEventType::HEROREPUTATIONEVENT)
        } else if s == "MESSAGE_EVENT_CROWD_FORMING"@ {
            Some(MessageEventType::CROWDFORMING)
        } else if s == "MESSAGE_EVENT_CROWD_DISPERSING"@ {
            Some(MessageEventType::CROWDDISPERSING)
        } else if s == "MESSAGE_EVENT_HERO_PODIUM"@ {
            Some(MessageEventType::HEROPODIUM)
        } else if s == "MESSAGE_EVENT_LEVEL_LOADED"@ {
            Some(MessageEventType::LEVELLOADED)
        } else if s == "MESSAGE_EVENT_LEVEL_UNLOADED"@ {
            Some(MessageEventType::LEVELUNLOADED)
        } else if s == "MESSAGE_EVENT_REGION_LOADED"@ {
            Some(MessageEventType::REGIONLOADED)
        } else if s == "MESSAGE_EVENT_REGION_UNLOADED"@ {
            Some(MessageEventType::REGIONUNLOADED)
        } else if s == "MESSAGE_EVENT_REGION_PREUNLOAD"@ {
            Some(MessageEventType::REGIONPREUNLOAD)
        } else if s == "MESSAGE_EVENT_BOAST_MADE"@ {
            Some(MessageEventType::BOASTMADE)
        } else if s == "MESSAGE_EVENT_EXPRESSION_PERFORMED"@ {
            Some(MessageEventType::EXPRESSIONPERFORMED)
        } else if s == "MESSAGE_EVENT_SCRIPTED_CAMERA_EVENT"@ {
            Some(MessageEventType::SCRIPTEDCAMERAEVENT)
        } else if s == "MESSAGE_EVENT_REQUEST_GOSSIP"@ {
            Some(MessageEventType::REQUESTGOSSIP)
        } else if s == "MESSAGE_EVENT_REQUEST_GOSSIP_REQUEST"@ {
            Some(MessageEventType::REQUESTGOSSIPREQUEST)
        } else if s == "MESSAGE_EVENT_REQUEST_GAME_OF_TAG"@ {
            Some(MessageEventType::REQUESTGAMEOFTAG)
        } else if s == "MESSAGE_EVENT_APPRENTICE_PRACTICE"@ {
            Some(MessageEventType::APPRENTICEPRACTICE)
        } else if s == "MESSAGE_EVENT_PAYMENT_REQUEST"@ {
            Some(MessageEventType::PAYMENTREQUEST)
        } else if s == "MESSAGE_EVENT_PAYMENT_CANCELLED"@ {
            Some(MessageEventType::PAYMENTCANCELLED)
        } else if s == "MESSAGE_EVENT_SKIP_CUT_SCENE"@ {
            Some(MessageEventType::SKIPCUTSCENE)
        } else if s == "MESSAGE_EVENT_QUEST_COMPLETED"@ {
            Some(MessageEventType::QUESTCOMPLETED)
        } else if s == "MESSAGE_EVENT_QUEST_FAILED"@ {
            Some(MessageEventType::QUESTFAILED)
        } else if s == "MESSAGE_EVENT_QUEST_COMPLETED_BEFORE_SCREEN_SHOWN"@ {
            Some(MessageEventType::QUESTCOMPLETEDBEFORESCREENSHOWN)
        } else if s == "MESSAGE_EVENT_QUEST_FAILED_BEFORE_SCREEN_SHOWN"@ {
            Some(MessageEventType::QUESTFAILEDBEFORESCREENSHOWN)
        } else if s == "MESSAGE_EVENT_QUEST_ACCEPTED"@ {
            Some(MessageEventType::QUESTACCEPTED)
        } else if s == "MESSAGE_EVENT_FEAT_ACCEPTED"@ {
            Some(MessageEventType::FEATACCEPTED)
        } else if s == "MESSAGE_EVENT_HAIR_TYPE_CHANGED"@ {
            Some(MessageEventType::HAIRTYPECHANGED)
        } else if s == "MESSAGE_EVENT_BEARD_TYPE_CHANGED"@ {
            Some(MessageEventType::BEARDTYPECHANGED)
        } else if s == "MESSAGE_EVENT_MOUSTACHE_TYPE_CHANGED"@ {
            Some(MessageEventType::MOUSTACHETYPECHANGED)
        } else if s == "MESSAGE_EVENT_TELEPORTER_USED"@ {
            Some(MessageEventType::TELEPORTERUSED)
        } else if s == "MESSAGE_EVENT_GUILD_SEAL_USED"@ {
            Some(MessageEventType::GUILDSEALUSED)
        } else if s == "MESSAGE_EVENT_GAME_SAVED_MANUALLY"@ {
            Some(MessageEventType::GAMESAVEDMANUALLY)
        } else if s == "MESSAGE_EVENT_FISHING_GAME_FINISHED"@ {
            Some(MessageEventType::FISHINGGAMEFINISHED)
        } else if s == "MESSAGE_EVENT_TAVERN_GAME_FINISHED"@ {
            Some(MessageEventType::TAVERNGAMEFINISHED)
        } else if s == "MESSAGE_EVENT_HERO_REWARDED_FROM_CONTAINER"@ {
            Some(MessageEventType::HEROREWARDEDFROMCONTAINER)
        } else if s == "MESSAGE_EVENT_HERO_SLEPT"@ {
            Some(MessageEventType::HEROSLEPT)
        } else if s == "MESSAGE_EVENT_HERO_FIRED_RANGED_WEAPON"@ {
            Some(MessageEventType::HEROFIREDRANGEDWEAPON)
        } else if s == "MESSAGE_EVENT_HERO_CAST_SPELL"@ {
            Some(MessageEventType::HEROCASTSPELL)
        } else if s == "MESSAGE_EVENT_HERO_PICKED_POCKET"@ {
            Some(MessageEventType::HEROPICKEDPOCKET)
        } else if s == "MESSAGE_EVENT_HERO_PICKED_LOCK"@ {
            Some(MessageEventType::HEROPICKEDLOCK)
        } else if s == "MESSAGE_EVENT_HERO_STOLEN_OBJECT"@ {
            Some(MessageEventType::HEROSTOLENOBJECT)
        } else if s == "MESSAGE_EVENT_CHEST_OPENING_CANCELLED"@ {
            Some(MessageEventType::CHESTOPENINGCANCELLED)
        } else if s == "MESSAGE_EVENT_LEAVING_QUEST_START_SCREEN"@ {
            Some(MessageEventType::LEAVINGQUESTSTARTSCREEN)
        } else if s == "MESSAGE_EVENT_LEAVING_EXPERIENCE_SPEND_SCREEN"@ {
            Some(MessageEventType::LEAVINGEXPERIENCESPENDSCREEN)
        } else if s == "MESSAGE_EVENT_ACTION_MODE_BUTTON_PRESSED"@ {
            Some(MessageEventType::ACTIONMODEBUTTONPRESSED)
        } else {
            None
        }
    }

    /// The C++ enumerator symbol text defs use for `self`.
    pub fn symbol(self) -> (r: &'static str)
        ensures
            r@ == self.symbol_of(),
    {
        match self {
            MessageEventType::PLAYERGIVEITEM => "MESSAGE_EVENT_PLAYER_GIVE_ITEM",
            MessageEventType::CALLCHILDRENHOME => "MESSAGE_EVENT_CALL_CHILDREN_HOME",
            MessageEventType::CALLSPOUSEHOME => "MESSAGE_EVENT_CALL_SPOUSE_HOME",
            MessageEventType::PLAYERARSON => "MESSAGE_EVENT_PLAYER_ARSON",
            MessageEventType::ATTACK => "MESSAGE_EVENT_ATTACK",
            MessageEventType::MURDER => "MESSAGE_EVENT_MURDER",
            MessageEventType::PLAYERARSONEMOTIONALREACTION => "MESSAGE_EVENT_PLAYER_ARSON_EMOTIONAL_REACTION",
            MessageEventType::PLAYERATTACKEMOTIONALREACTION => "MESSAGE_EVENT_PLAYER_ATTACK_EMOTIONAL_REACTION",
            MessageEventType::PLAYERMURDEREMOTIONALREACTION => "MESSAGE_EVENT_PLAYER_MURDER_EMOTIONAL_REACTION",
            MessageEventType::DEATH => "MESSAGE_EVENT_DEATH",
            MessageEventType::GOINGFORHELP => "MESSAGE_EVENT_GOING_FOR_HELP",
            MessageEventType::YELLFORHELP => "MESSAGE_EVENT_YELL_FOR_HELP",
            MessageEventType::YELLISEEHIM => "MESSAGE_EVENT_YELL_I_SEE_HIM",
            MessageEventType::CONVERSATIONSTART => "MESSAGE_EVENT_CONVERSATION_START",
            MessageEventType::CONVERSATIONJOIN => "MESSAGE_EVENT_CONVERSATION_JOIN",
            MessageEventType::CONVERSATIONEND => "MESSAGE_EVENT_CONVERSATION_END",
            MessageEventType::CONVERSATIONANSWERYESORNO => "MESSAGE_EVENT_CONVERSATION_ANSWER_YES_OR_NO",
            MessageEventType::CONVERSATIONCLICKPAST => "MESSAGE_EVENT_CONVERSATION_CLICK_PAST",
            MessageEventType::GAMEINFOCLICKPAST => "MESSAGE_EVENT_GAME_INFO_CLICK_PAST",
            MessageEventType::BUYITEM => "MESSAGE_EVENT_BUY_ITEM",
            MessageEventType::PLAYERINTERACTION => "MESSAGE_EVENT_PLAYER_INTERACTION",
            MessageEventType::GAMEOFTAGSTART => "MESSAGE_EVENT_GAME_OF_TAG_START",
            MessageEventType::GAMEOFTAGJOIN => "MESSAGE_EVENT_GAME_OF_TAG_JOIN",
            MessageEventType::GAMEOFTAGSOMEONETAGGED => "MESSAGE_EVENT_GAME_OF_TAG_SOMEONE_TAGGED",
            MessageEventType::HOPSCOTCHPLAYING => "MESSAGE_EVENT_HOPSCOTCH_PLAYING",
            MessageEventType::FOUNDCORPSE => "MESSAGE_EVENT_FOUND_CORPSE",
            MessageEventType::FOUNDUNCONSCIOUSPERSON => "MESSAGE_EVENT_FOUND_UNCONSCIOUS_PERSON",
            MessageEventType::GUARDSEENPLAYERSWORD => "MESSAGE_EVENT_GUARD_SEEN_PLAYER_SWORD",
            MessageEventType::THEFT => "MESSAGE_EVENT_THEFT",
            MessageEventType::TRESPASS => "MESSAGE_EVENT_TRESPASS",
            MessageEventType::DEALINGWITHTRESPASS => "MESSAGE_EVENT_DEALING_WITH_TRESPASS",
            MessageEventType::DEALINGWITHNOISEINHOUSE => "MESSAGE_EVENT_DEALING_WITH_NOISE_IN_HOUSE",
            MessageEventType::HEROREPUTATIONEVENT => "MESSAGE_EVENT_HERO_REPUTATION_EVENT",
            MessageEventType::CROWDFORMING => "MESSAGE_EVENT_CROWD_FORMING",
            MessageEventType::CROWDDISPERSING => "MESSAGE_EVENT_CROWD_DISPERSING",
            MessageEventType::HEROPODIUM => "MESSAGE_EVENT_HERO_PODIUM",
            MessageEventType::LEVELLOADED => "MESSAGE_EVENT_LEVEL_LOADED",
            MessageEventType::LEVELUNLOADED => "MESSAGE_EVENT_LEVEL_UNLOADED",
            MessageEventType::REGIONLOADED => "MESSAGE_EVENT_REGION_LOADED",
            MessageEventType::REGIONUNLOADED => "MESSAGE_EVENT_REGION_UNLOADED",
            MessageEventType::REGIONPREUNLOAD => "MESSAGE_EVENT_REGION_PREUNLOAD",
            MessageEventType::BOASTMADE => "MESSAGE_EVENT_BOAST_MADE",
            MessageEventType::EXPRESSIONPERFORMED => "MESSAGE_EVENT_EXPRESSION_PERFORMED",
            MessageEventType::SCRIPTEDCAMERAEVENT => "MESSAGE_EVENT_SCRIPTED_CAMERA_EVENT",
            MessageEventType::REQUESTGOSSIP => "MESSAGE_EVENT_REQUEST_GOSSIP",
            MessageEventType::REQUESTGOSSIPREQUEST => "MESSAGE_EVENT_REQUEST_GOSSIP_REQUEST",
            MessageEventType::REQUESTGAMEOFTAG => "MESSAGE_EVENT_REQUEST_GAME_OF_TAG",
            MessageEventType::APPRENTICEPRACTICE => "MESSAGE_EVENT_APPRENTICE_PRACTICE",
            MessageEventType::PAYMENTREQUEST => "MESSAGE_EVENT_PAYMENT_REQUEST",
            MessageEventType::PAYMENTCANCELLED => "MESSAGE_EVENT_PAYMENT_CANCELLED",
            MessageEventType::SKIPCUTSCENE => "MESSAGE_EVENT_SKIP_CUT_SCENE",
            MessageEventType::QUESTCOMPLETED => "MESSAGE_EVENT_QUEST_COMPLETED",
            MessageEventType::QUESTFAILED => "MESSAGE_EVENT_QUEST_FAILED",
            MessageEventType::QUESTCOMPLETEDBEFORESCREENSHOWN => "MESSAGE_EVENT_QUEST_COMPLETED_BEFORE_SCREEN_SHOWN",
            MessageEventType::QUESTFAILEDBEFORESCREENSHOWN => "MESSAGE_EVENT_QUEST_FAILED_BEFORE_SCREEN_SHOWN",
            MessageEventType::QUESTACCEPTED => "MESSAGE_EVENT_QUEST_ACCEPTED",
            MessageEventType::FEATACCEPTED => "MESSAGE_EVENT_FEAT_ACCEPTED",
            MessageEventType::HAIRTYPECHANGED => "MESSAGE_EVENT_HAIR_TYPE_CHANGED",
            MessageEventType::BEARDTYPECHANGED => "MESSAGE_EVENT_BEARD_TYPE_CHANGED",
            MessageEventType::MOUSTACHETYPECHANGED => "MESSAGE_EVENT_MOUSTACHE_TYPE_CHANGED",
            MessageEventType::TELEPORTERUSED => "MESSAGE_EVENT_TELEPORTER_USED",
            MessageEventType::GUILDSEALUSED => "MESSAGE_EVENT_GUILD_SEAL_USED",
            MessageEventType::GAMESAVEDMANUALLY => "MESSAGE_EVENT_GAME_SAVED_MANUALLY",
            MessageEventType::FISHINGGAMEFINISHED => "MESSAGE_EVENT_FISHING_GAME_FINISHED",
            MessageEventType::TAVERNGAMEFINISHED => "MESSAGE_EVENT_TAVERN_GAME_FINISHED",
            MessageEventType::HEROREWARDEDFROMCONTAINER => "MESSAGE_EVENT_HERO_REWARDED_FROM_CONTAINER",
            MessageEventType::HEROSLEPT => "MESSAGE_EVENT_HERO_SLEPT",
            MessageEventType::HEROFIREDRANGEDWEAPON => "MESSAGE_EVENT_HERO_FIRED_RANGED_WEAPON",
            MessageEventType::HEROCASTSPELL => "MESSAGE_EVENT_HERO_CAST_SPELL",
            MessageEventType::HEROPICKEDPOCKET => "MESSAGE_EVENT_HERO_PICKED_POCKET",
            MessageEventType::HEROPICKEDLOCK => "MESSAGE_EVENT_HERO_PICKED_LOCK",
            MessageEventType::HEROSTOLENOBJECT => "MESSAGE_EVENT_HERO_STOLEN_OBJECT",
            MessageEventType::CHESTOPENINGCANCELLED => "MESSAGE_EVENT_CHEST_OPENING_CANCELLED",
            MessageEventType::LEAVINGQUESTSTARTSCREEN => "MESSAGE_EVENT_LEAVING_QUEST_START_SCREEN",
            MessageEventType::LEAVINGEXPERIENCESPENDSCREEN => "MESSAGE_EVENT_LEAVING_EXPERIENCE_SPEND_SCREEN",
            MessageEventType::ACTIONMODEBUTTONPRESSED => "MESSAGE_EVENT_ACTION_MODE_BUTTON_PRESSED",
        }
    }

    /// The variant a C++ enumerator symbol names.
    pub fn from_symbol(s: &str) -> (r: Option<Self>)
        ensures
            r == Self::symbol_lookup(s@),
    {
        if str_eq(s, "MESSAGE_EVENT_PLAYER_GIVE_ITEM") {
            return Some(MessageEventType::PLAYERGIVEITEM);
        }
        if str_eq(s, "MESSAGE_EVENT_CALL_CHILDREN_HOME") {
            return Some(MessageEventType::CALLCHILDRENHOME);
        }
        if str_eq(s, "MESSAGE_EVENT_CALL_SPOUSE_HOME") {
            return Some(MessageEventType::CALLSPOUSEHOME);
        }
        if str_eq(s, "MESSAGE_EVENT_PLAYER_ARSON") {
            return Some(MessageEventType::PLAYERARSON);
        }
        if str_eq(s, "MESSAGE_EVENT_ATTACK") {
            return Some(MessageEventType::ATTACK);
        }
        if str_eq(s, "MESSAGE_EVENT_MURDER") {
            return Some(MessageEventType::MURDER);
        }
        if str_eq(s, "MESSAGE_EVENT_PLAYER_ARSON_EMOTIONAL_REACTION") {
            return Some(MessageEventType::PLAYERARSONEMOTIONALREACTION);
        }
        if str_eq(s, "MESSAGE_EVENT_PLAYER_ATTACK_EMOTIONAL_REACTION") {
            return Some(MessageEventType::PLAYERATTACKEMOTIONALREACTION);
        }
        if str_eq(s, "MESSAGE_EVENT_PLAYER_MURDER_EMOTIONAL_REACTION") {
            return Some(MessageEventType::PLAYERMURDEREMOTIONALREACTION);
        }
        if str_eq(s, "MESSAGE_EVENT_DEATH") {
            return Some(MessageEventType::DEATH);
        }
        if str_eq(s, "MESSAGE_EVENT_GOING_FOR_HELP") {
            return Some(MessageEventType::GOINGFORHELP);
        }
        if str_eq(s, "MESSAGE_EVENT_YELL_FOR_HELP") {
            return Some(MessageEventType::YELLFORHELP);
        }
        if str_eq(s, "MESSAGE_EVENT_YELL_I_SEE_HIM") {
            return Some(MessageEventType::YELLISEEHIM);
        }
        if str_eq(s, "MESSAGE_EVENT_CONVERSATION_START") {
            return Some(MessageEventType::CONVERSATIONSTART);
        }
        if str_eq(s, "MESSAGE_EVENT_CONVERSATION_JOIN") {
            return Some(MessageEventType::CONVERSATIONJOIN);
        }
        if str_eq(s, "MESSAGE_EVENT_CONVERSATION_END") {
            return Some(MessageEventType::CONVERSATIONEND);
        }
        if str_eq(s, "MESSAGE_EVENT_CONVERSATION_ANSWER_YES_OR_NO") {
            return Some(MessageEventType::CONVERSATIONANSWERYESORNO);
        }
        if str_eq(s, "MESSAGE_EVENT_CONVERSATION_CLICK_PAST") {
            return Some(MessageEventType::CONVERSATIONCLICKPAST);
        }
        if str_eq(s, "MESSAGE_EVENT_GAME_INFO_CLICK_PAST") {
            return Some(MessageEventType::GAMEINFOCLICKPAST);
        }
        if str_eq(s, "MESSAGE_EVENT_BUY_ITEM") {
            return Some(MessageEventType::BUYITEM);
        }
        if str_eq(s, "MESSAGE_EVENT_PLAYER_INTERACTION") {
            return Some(MessageEventType::PLAYERINTERACTION);
        }
        if str_eq(s, "MESSAGE_EVENT_GAME_OF_TAG_START") {
            return Some(MessageEventType::GAMEOFTAGSTART);
        }
        if str_eq(s, "MESSAGE_EVENT_GAME_OF_TAG_JOIN") {
            return Some(MessageEventType::GAMEOFTAGJOIN);
        }
        if str_eq(s, "MESSAGE_EVENT_GAME_OF_TAG_SOMEONE_TAGGED") {
            return Some(MessageEventType::GAMEOFTAGSOMEONETAGGED);
        }
        if str_eq(s, "MESSAGE_EVENT_HOPSCOTCH_PLAYING") {
            return Some(MessageEventType::HOPSCOTCHPLAYING);
        }
        if str_eq(s, "MESSAGE_EVENT_FOUND_CORPSE") {
            return Some(MessageEventType::FOUNDCORPSE);
        }
        if str_eq(s, "MESSAGE_EVENT_FOUND_UNCONSCIOUS_PERSON") {
            return Some(MessageEventType::FOUNDUNCONSCIOUSPERSON);
        }
        if str_eq(s, "MESSAGE_EVENT_GUARD_SEEN_PLAYER_SWORD") {
            return Some(MessageEventType::GUARDSEENPLAYERSWORD);
        }
        if str_eq(s, "MESSAGE_EVENT_THEFT") {
            return Some(MessageEventType::THEFT);
        }
        if str_eq(s, "MESSAGE_EVENT_TRESPASS") {
            return Some(MessageEventType::TRESPASS);
        }
        if str_eq(s, "MESSAGE_EVENT_DEALING_WITH_TRESPASS") {
            return Some(MessageEventType::DEALINGWITHTRESPASS);
        }
        if str_eq(s, "MESSAGE_EVENT_DEALING_WITH_NOISE_IN_HOUSE") {
            return Some(MessageEventType::DEALINGWITHNOISEINHOUSE);
        }
        if str_eq(s, "MESSAGE_EVENT_HERO_REPUTATION_EVENT") {
            return Some(MessageEventType::HEROREPUTATIONEVENT);
        }
        if str_eq(s, "MESSAGE_EVENT_CROWD_FORMING") {
            return Some(MessageEventType::CROWDFORMING);
        }
        if str_eq(s, "MESSAGE_EVENT_CROWD_DISPERSING") {
            return Some(MessageEventType::CROWDDISPERSING);
        }
        if str_eq(s, "MESSAGE_EVENT_HERO_PODIUM") {
            return Some(MessageEventType::HEROPODIUM);
        }
        if str_eq(s, "MESSAGE_EVENT_LEVEL_LOADED") {
            return Some(MessageEventType::LEVELLOADED);
        }
        if str_eq(s, "MESSAGE_EVENT_LEVEL_UNLOADED") {
            return Some(MessageEventType::LEVELUNLOADED);
        }
        if str_eq(s, "MESSAGE_EVENT_REGION_LOADED") {
            return Some(MessageEventType::REGIONLOADED);
        }
        if str_eq(s, "MESSAGE_EVENT_REGION_UNLOADED") {
            return Some(MessageEventType::REGIONUNLOADED);
        }
        if str_eq(s, "MESSAGE_EVENT_REGION_PREUNLOAD") {
            return Some(MessageEventType::REGIONPREUNLOAD);
        }
        if str_eq(s, "MESSAGE_EVENT_BOAST_MADE") {
            return Some(MessageEventType::BOASTMADE);
        }
        if str_eq(s, "MESSAGE_EVENT_EXPRESSION_PERFORMED") {
            return Some(MessageEventType::EXPRESSIONPERFORMED);
        }
        if str_eq(s, "MESSAGE_EVENT_SCRIPTED_CAMERA_EVENT") {
            return Some(MessageEventType::SCRIPTEDCAMERAEVENT);
        }
        if str_eq(s, "MESSAGE_EVENT_REQUEST_GOSSIP") {
            return Some(MessageEventType::REQUESTGOSSIP);
        }
        if str_eq(s, "MESSAGE_EVENT_REQUEST_GOSSIP_REQUEST") {
            return Some(MessageEventType::REQUESTGOSSIPREQUEST);
        }
        if str_eq(s, "MESSAGE_EVENT_REQUEST_GAME_OF_TAG") {
            return Some(MessageEventType::REQUESTGAMEOFTAG);
        }
        if str_eq(s, "MESSAGE_EVENT_APPRENTICE_PRACTICE") {
            return Some(MessageEventType::APPRENTICEPRACTICE);
        }
        if str_eq(s, "MESSAGE_EVENT_PAYMENT_REQUEST") {
            return Some(MessageEventType::PAYMENTREQUEST);
        }
        if str_eq(s, "MESSAGE_EVENT_PAYMENT_CANCELLED") {
            return Some(MessageEventType::PAYMENTCANCELLED);
        }
        if str_eq(s, "MESSAGE_EVENT_SKIP_CUT_SCENE") {
            return Some(MessageEventType::SKIPCUTSCENE);
        }
        if str_eq(s, "MESSAGE_EVENT_QUEST_COMPLETED") {
            return Some(MessageEventType::QUESTCOMPLETED);
        }
        if str_eq(s, "MESSAGE_EVENT_QUEST_FAILED") {
            return Some(MessageEventType::QUESTFAILED);
        }
        if str_eq(s, "MESSAGE_EVENT_QUEST_COMPLETED_BEFORE_SCREEN_SHOWN") {
            return Some(MessageEventType::QUESTCOMPLETEDBEFORESCREENSHOWN);
        }
        if str_eq(s, "MESSAGE_EVENT_QUEST_FAILED_BEFORE_SCREEN_SHOWN") {
            return Some(MessageEventType::QUESTFAILEDBEFORESCREENSHOWN);
        }
        if str_eq(s, "MESSAGE_EVENT_QUEST_ACCEPTED") {
            return Some(MessageEventType::QUESTACCEPTED);
        }
        if str_eq(s, "MESSAGE_EVENT_FEAT_ACCEPTED") {
            return Some(MessageEventType::FEATACCEPTED);
        }
        if str_eq(s, "MESSAGE_EVENT_HAIR_TYPE_CHANGED") {
            return Some(MessageEventType::HAIRTYPECHANGED);
        }
        if str_eq(s, "MESSAGE_EVENT_BEARD_TYPE_CHANGED") {
            return Some(MessageEventType::BEARDTYPECHANGED);
        }
        if str_eq(s, "MESSAGE_EVENT_MOUSTACHE_TYPE_CHANGED") {
            return Some(MessageEventType::MOUSTACHETYPECHANGED);
        }
        if str_eq(s, "MESSAGE_EVENT_TELEPORTER_USED") {
            return Some(MessageEventType::TELEPORTERUSED);
        }
        if str_eq(s, "MESSAGE_EVENT_GUILD_SEAL_USED") {
            return Some(MessageEventType::GUILDSEALUSED);
        }
        if str_eq(s, "MESSAGE_EVENT_GAME_SAVED_MANUALLY") {
            return Some(MessageEventType::GAMESAVEDMANUALLY);
        }
        if str_eq(s, "MESSAGE_EVENT_FISHING_GAME_FINISHED") {
            return Some(MessageEventType::FISHINGGAMEFINISHED);
        }
        if str_eq(s, "MESSAGE_EVENT_TAVERN_GAME_FINISHED") {
            return Some(MessageEventType::TAVERNGAMEFINISHED);
        }
        if str_eq(s, "MESSAGE_EVENT_HERO_REWARDED_FROM_CONTAINER") {
            return Some(MessageEventType::HEROREWARDEDFROMCONTAINER);
        }
        if str_eq(s, "MESSAGE_EVENT_HERO_SLEPT") {
            return Some(MessageEventType::HEROSLEPT);
        }
        if str_eq(s, "MESSAGE_EVENT_HERO_FIRED_RANGED_WEAPON") {
            return Some(MessageEventType::HEROFIREDRANGEDWEAPON);
        }
        if str_eq(s, "MESSAGE_EVENT_HERO_CAST_SPELL") {
            return Some(MessageEventType::HEROCASTSPELL);
        }
        if str_eq(s, "MESSAGE_EVENT_HERO_PICKED_POCKET") {
            return Some(MessageEventType::HEROPICKEDPOCKET);
        }
        if str_eq(s, "MESSAGE_EVENT_HERO_PICKED_LOCK") {
            return Some(MessageEventType::HEROPICKEDLOCK);
        }
        if str_eq(s, "MESSAGE_EVENT_HERO_STOLEN_OBJECT") {
            return Some(MessageEventType::HEROSTOLENOBJECT);
        }
        if str_eq(s, "MESSAGE_EVENT_CHEST_OPENING_CANCELLED") {
            return Some(MessageEventType::CHESTOPENINGCANCELLED);
        }
        if str_eq(s, "MESSAGE_EVENT_LEAVING_QUEST_START_SCREEN") {
            return Some(MessageEventType::LEAVINGQUESTSTARTSCREEN);
        }
        if str_eq(s, "MESSAGE_EVENT_LEAVING_EXPERIENCE_SPEND_SCREEN") {
            return Some(MessageEventType::LEAVINGEXPERIENCESPENDSCREEN);
        }
        if str_eq(s, "MESSAGE_EVENT_ACTION_MODE_BUTTON_PRESSED") {
            return Some(MessageEventType::ACTIONMODEBUTTONPRESSED);
        }
        None
    }
}

#[derive(Debug, Clone, Copy, PartialEq, Eq, Structural, PartialOrd, Ord, Hash)]
pub enum MinimapThemeType {
    NONE,
    GRASS,
    WATER,
    SNOW,
    CLIFF,
    EARTH,
    FOLIAGE,
    WOOD,
    BUILDING,
}

impl DefEnum for MinimapThemeType {
    open spec fn wire_value(self) -> i32 {
        match self {
            MinimapThemeType::NONE => 0i32,
            MinimapThemeType::GRASS => 1i32,
            MinimapThemeType::WATER => 2i32,
            MinimapThemeType::SNOW => 3i32,
            MinimapThemeType::CLIFF => 4i32,
            MinimapThemeType::EARTH => 5i32,
            MinimapThemeType::FOLIAGE => 6i32,
            MinimapThemeType::WOOD => 7i32,
            MinimapThemeType::BUILDING => 8i32,
        }
    }

    open spec fn lookup(value: i32) -> Option<Self> {
        match value {
            0i32 => Some(MinimapThemeType::NONE),
            1i32 => Some(MinimapThemeType::GRASS),
            2i32 => Some(MinimapThemeType::WATER),
            3i32 => Some(MinimapThemeType::SNOW),
            4i32 => Some(MinimapThemeType::CLIFF),
            5i32 => Some(MinimapThemeType::EARTH),
            6i32 => Some(MinimapThemeType::FOLIAGE),
            7i32 => Some(MinimapThemeType::WOOD),
            8i32 => Some(MinimapThemeType::BUILDING),
            _ => None,
        }
    }

    fn from_i32(value: i32) -> (r: Option<Self>) {
        match value {
            0i32 => Some(MinimapThemeType::NONE),
            1i32 => Some(MinimapThemeType::GRASS),
            2i32 => Some(MinimapThemeType::WATER),
            3i32 => Some(MinimapThemeType::SNOW),
            4i32 => Some(MinimapThemeType::CLIFF),
            5i32 => Some(MinimapThemeType::EARTH),
            6i32 => Some(MinimapThemeType::FOLIAGE),
            7i32 => Some(MinimapThemeType::WOOD),
            8i32 => Some(MinimapThemeType::BUILDING),
            _ => None,
        }
    }

    fn to_i32(self) -> (r: i32) {
        match self {
            MinimapThemeType::NONE => 0i32,
            MinimapThemeType::GRASS => 1i32,
            MinimapThemeType::WATER => 2i32,
            MinimapThemeType::SNOW => 3i32,
            MinimapThemeType::CLIFF => 4i32,
            MinimapThemeType::EARTH => 5i32,
            MinimapThemeType::FOLIAGE => 6i32,
            MinimapThemeType::WOOD => 7i32,
            MinimapThemeType::BUILDING => 8i32,
        }
    }

    proof fn lemma_lookup_wire_value(e: Self) {
    }
}

impl MinimapThemeType {
    /// The C++ enumerator symbol of `self`.
    pub open spec fn symbol_of(self) -> Seq<char> {
        match self {
            MinimapThemeType::NONE => "MINIMAP_THEME_TYPE_NONE"@,
            MinimapThemeType::GRASS => "MINIMAP_THEME_TYPE_GRASS"@,
            MinimapThemeType::WATER => "MINIMAP_THEME_TYPE_WATER"@,
            MinimapThemeType::SNOW => "MINIMAP_THEME_TYPE_SNOW"@,
            MinimapThemeType::CLIFF => "MINIMAP_THEME_TYPE_CLIFF"@,
            MinimapThemeType::EARTH => "MINIMAP_THEME_TYPE_EARTH"@,
            MinimapThemeType::FOLIAGE => "MINIMAP_THEME_TYPE_FOLIAGE"@,
            MinimapThemeType::WOOD => "MINIMAP_THEME_TYPE_WOOD"@,
            MinimapThemeType::BUILDING => "MINIMAP_THEME_TYPE_BUILDING"@,
        }
    }

    /// The first variant whose symbol is `s`, if any.
    pub open spec fn symbol_lookup(s: Seq<char>) -> Option<Self> {
        if s == "MINIMAP_THEME_TYPE_NONE"@ {
            Some(MinimapThemeType::NONE)
        } else if s == "MINIMAP_THEME_TYPE_GRASS"@ {
            Some(MinimapThemeType::GRASS)
        } else if s == "MINIMAP_THEME_TYPE_WATER"@ {
            Some(MinimapThemeType::WATER)
        } else if s == "MINIMAP_THEME_TYPE_SNOW"@ {
            Some(MinimapThemeType::SNOW)
        } else if s == "MINIMAP_THEME_TYPE_CLIFF"@ {
            Some(MinimapThemeType::CLIFF)
        } else if s == "MINIMAP_THEME_TYPE_EARTH"@ {
            Some(MinimapThemeType::EARTH)
        } else if s == "MINIMAP_THEME_TYPE_FOLIAGE"@ {
            Some(MinimapThemeType::FOLIAGE)
        } else if s == "MINIMAP_THEME_TYPE_WOOD"@ {
            Some(MinimapThemeType::WOOD)
        } else if s == "MINIMAP_THEME_TYPE_BUILDING"@ {
            Some(MinimapThemeType::BUILDING)
        } else {
            None
        }
    }

    /// The C++ enumerator symbol text defs use for `self`.
    pub fn symbol(self) -> (r: &'static str)
        ensures
            r@ == self.symbol_of(),
    {
        match self {
            MinimapThemeType::NONE => "MINIMAP_THEME_TYPE_NONE",
            MinimapThemeType::GRASS => "MINIMAP_THEME_TYPE_GRASS",
            MinimapThemeType::WATER => "MINIMAP_THEME_TYPE_WATER",
            MinimapThemeType::SNOW => "MINIMAP_THEME_TYPE_SNOW",
            MinimapThemeType::CLIFF => "MINIMAP_THEME_TYPE_CLIFF",
            MinimapThemeType::EARTH => "MINIMAP_THEME_TYPE_EARTH",
            MinimapThemeType::FOLIAGE => "MINIMAP_THEME_TYPE_FOLIAGE",
            MinimapThemeType::WOOD => "MINIMAP_THEME_TYPE_WOOD",
            MinimapThemeType::BUILDING => "MINIMAP_THEME_TYPE_BUILDING",
        }
    }

    /// The variant a C++ enumerator symbol names.
    pub fn from_symbol(s: &str) -> (r: Option<Self>)
        ensures
            r == Self::symbol_lookup(s@),
    {
        if str_eq(s, "MINIMAP_THEME_TYPE_NONE") {
            return Some(MinimapThemeType::NONE);
        }
        if str_eq(s, "MINIMAP_THEME_TYPE_GRASS") {
            return Some(MinimapThemeType::GRASS);
        }
        if str_eq(s, "MINIMAP_THEME_TYPE_WATER") {
            return Some(MinimapThemeType::WATER);
        }
        if str_eq(s, "MINIMAP_THEME_TYPE_SNOW") {
            return Some(MinimapThemeType::SNOW);
        }
        if str_eq(s, "MINIMAP_THEME_TYPE_CLIFF") {
            return Some(MinimapThemeType::CLIFF);
        }
        if str_eq(s, "MINIMAP_THEME_TYPE_EARTH") {
            return Some(MinimapThemeType::EARTH);
        }
        if str_eq(s, "MINIMAP_THEME_TYPE_FOLIAGE") {
            return Some(MinimapThemeType::FOLIAGE);
        }
        if str_eq(s, "MINIMAP_THEME_TYPE_WOOD") {
            return Some(MinimapThemeType::WOOD);
        }
        if str_eq(s, "MINIMAP_THEME_TYPE_BUILDING") {
            return Some(MinimapThemeType::BUILDING);
        }
        None
    }
}

#[derive(Debug, Clone, Copy, PartialEq, Eq, Structural, PartialOrd, Ord, Hash)]
pub enum NavigatorType {
    GROUND,
    FLYER,
}

impl DefEnum for NavigatorType {
    open spec fn wire_value(self) -> i32 {
        match self {
            NavigatorType::GROUND => 1i32,
            NavigatorType::FLYER => 2i32,
        }
    }

    open spec fn lookup(value: i32) -> Option<Self> {
        match value {
            1i32 => Some(NavigatorType::GROUND),
            2i32 => Some(NavigatorType::FLYER),
            _ => None,
        }
    }

    fn from_i32(value: i32) -> (r: Option<Self>) {
        match value {
            1i32 => Some(NavigatorType::GROUND),
            2i32 => Some(NavigatorType::FLYER),
            _ => None,
        }
    }

    fn to_i32(self) -> (r: i32) {
        match self {
            NavigatorType::GROUND => 1i32,
            NavigatorType::FLYER => 2i32,
        }
    }

    proof fn lemma_lookup_wire_value(e: Self) {
    }
}

impl NavigatorType {
    /// The C++ enumerator symbol of `self`.
    pub open spec fn symbol_of(self) -> Seq<char> {
        match self {
            NavigatorType::GROUND => "NAV_INIT_GROUND"@,
            NavigatorType::FLYER => "NAV_INIT_FLYER"@,
        }
    }

    /// The first variant whose symbol is `s`, if any.
    pub open spec fn symbol_lookup(s: Seq<char>) -> Option<Self> {
        if s == "NAV_INIT_GROUND"@ {
            Some(NavigatorType::GROUND)
        } else if s == "NAV_INIT_FLYER"@ {
            Some(NavigatorType::FLYER)
        } else {
            None
        }
    }

    /// The C++ enumerator symbol text defs use for `self`.
    pub fn symbol(self) -> (r: &'static str)
        ensures
            r@ == self.symbol_of(),
    {
        match self {
            NavigatorType::GROUND => "NAV_INIT_GROUND",
            NavigatorType::FLYER => "NAV_INIT_FLYER",
        }
    }

    /// The variant a C++ enumerator symbol names.
    pub fn from_symbol(s: &str) -> (r: Option<Self>)
        ensures
            r == Self::symbol_lookup(s@),
    {
        if str_eq(s, "NAV_INIT_GROUND") {
            return Some(NavigatorType::GROUND);
        }
        if str_eq(s, "NAV_INIT_FLYER") {
            return Some(NavigatorType::FLYER);
        }
        None
    }
}

#[derive(Debug, Clone, Copy, PartialEq, Eq, Structural, PartialOrd, Ord, Hash)]
pub enum NoiseType {
    CONTINUOUS,
    ONCEONLY,
}

impl DefEnum for NoiseType {
    open spec fn wire_value(self) -> i32 {
        match self {
            NoiseType::CONTINUOUS => 0i32,
            NoiseType::ONCEONLY => 1i32,
        }
    }

    open spec fn lookup(value: i32) -> Option<Self> {
        match value {
            0i32 => Some(NoiseType::CONTINUOUS),
            1i32 => Some(NoiseType::ONCEONLY),
            _ => None,
        }
    }

    fn from_i32(value: i32) -> (r: Option<Self>) {
        match value {
            0i32 => Some(NoiseType::CONTINUOUS),
            1i32 => Some(NoiseType::ONCEONLY),
            _ => None,
        }
    }

    fn to_i32(self) -> (r: i32) {
        match self {
            NoiseType::CONTINUOUS => 0i32,
            NoiseType::ONCEONLY => 1i32,
        }
    }

    proof fn lemma_lookup_wire_value(e: Self) {
    }
}

impl NoiseType {
    /// The C++ enumerator symbol of `self`.
    pub open spec fn symbol_of(self) -> Seq<char> {
        match self {
            NoiseType::CONTINUOUS => "NOISE_TYPE_CONTINUOUS"@,
            NoiseType::ONCEONLY => "NOISE_TYPE_ONCE_ONLY"@,
        }
    }

    /// The first variant whose symbol is `s`, if any.
    pub open spec fn symbol_lookup(s: Seq<char>) -> Option<Self> {
        if s == "NOISE_TYPE_CONTINUOUS"@ {
            Some(NoiseType::CONTINUOUS)
        } else if s == "NOISE_TYPE_ONCE_ONLY"@ {
            Some(NoiseType::ONCEONLY)
        } else {
            None
        }
    }

    /// The C++ enumerator symbol text defs use for `self`.
    pub fn symbol(self) -> (r: &'static str)
        ensures
            r@ == self.symbol_of(),
    {
        match self {
            NoiseType::CONTINUOUS => "NOISE_TYPE_CONTINUOUS",
            NoiseType::ONCEONLY => "NOISE_TYPE_ONCE_ONLY",
        }
    }

    /// The variant a C++ enumerator symbol names.
    pub fn from_symbol(s: &str) -> (r: Option<Self>)
        ensures
            r == Self::symbol_lookup(s@),
    {
        if str_eq(s, "NOISE_TYPE_CONTINUOUS") {
            return Some(NoiseType::CONTINUOUS);
        }
        if str_eq(s, "NOISE_TYPE_ONCE_ONLY") {
            return Some(NoiseType::ONCEONLY);
        }
        None
    }
}

#[derive(Debug, Clone, Copy, PartialEq, Eq, Structural, PartialOrd, Ord, Hash, Default)]
pub struct ObjectAugmentationType(pub i32);

impl ObjectAugmentationType {
    /// The bits of `AUGMENTATION_NULL`.
    pub const NULL: i32 = 0i32;
    /// The bits of `AUGMENTATION_EXTRA_DAMAGE`.
    pub const EXTRA_DAMAGE: i32 = 1i32;
    /// The bits of `AUGMENTATION_SILVER`.
    pub const SILVER: i32 = 2i32;
    /// The bits of `AUGMENTATION_FLAME`.
    pub const FLAME: i32 = 4i32;
    /// The bits of `AUGMENTATION_LIGHTNING`.
    pub const LIGHTNING: i32 = 8i32;
    /// The bits of `AUGMENTATION_DIAMOND`.
    pub const DIAMOND: i32 = 16i32;
    /// The bits of `AUGMENTATION_HEALTH_REGENERATION`.
    pub const HEALTH_REGENERATION: i32 = 32i32;
    /// The bits of `AUGMENTATION_STAMINA_REGENERATION`.
    pub const STAMINA_REGENERATION: i32 = 64i32;
    /// The bits of `AUGMENTATION_EXPERIENCE_INCREASE`.
    pub const EXPERIENCE_INCREASE: i32 = 128i32;
    /// The bits of `AUGMENTATION_HOBBE_KILLER`.
    pub const HOBBE_KILLER: i32 = 256i32;
    /// The bits of `AUGMENTATION_BANDIT_KILLER`.
    pub const BANDIT_KILLER: i32 = 512i32;

    /// The flag a C++ enumerator symbol names, if any.
    pub open spec fn symbol_lookup(s: Seq<char>) -> Option<Self> {
        if s == "AUGMENTATION_NULL"@ {
            Some(ObjectAugmentationType(0i32))
        } else if s == "AUGMENTATION_EXTRA_DAMAGE"@ {
            Some(ObjectAugmentationType(1i32))
        } else if s == "AUGMENTATION_SILVER"@ {
            Some(ObjectAugmentationType(2i32))
        } else if s == "AUGMENTATION_FLAME"@ {
            Some(ObjectAugmentationType(4i32))
        } else if s == "AUGMENTATION_LIGHTNING"@ {
            Some(ObjectAugmentationType(8i32))
        } else if s == "AUGMENTATION_DIAMOND"@ {
            Some(ObjectAugmentationType(16i32))
        } else if s == "AUGMENTATION_HEALTH_REGENERATION"@ {
            Some(ObjectAugmentationType(32i32))
        } else if s == "AUGMENTATION_STAMINA_REGENERATION"@ {
            Some(ObjectAugmentationType(64i32))
        } else if s == "AUGMENTATION_EXPERIENCE_INCREASE"@ {
            Some(ObjectAugmentationType(128i32))
        } else if s == "AUGMENTATION_HOBBE_KILLER"@ {
            Some(ObjectAugmentationType(256i32))
        } else if s == "AUGMENTATION_BANDIT_KILLER"@ {
            Some(ObjectAugmentationType(512i32))
        } else {
            None
        }
    }

    /// The set holding exactly the bits of `value` (lossless).
    pub fn from_i32(value: i32) -> (r: Self)
        ensures
            r.0 == value,
    {
        ObjectAugmentationType(value)
    }

    pub fn to_i32(self) -> (r: i32)
        ensures
            r == self.0,
    {
        self.0
    }

    /// Whether every bit of `other` is set in `self`.
    pub fn contains(self, other: Self) -> (r: bool)
        ensures
            r == (self.0 & other.0 == other.0),
    {
        self.0 & other.0 == other.0
    }

    /// Whether no bit is set.
    pub fn is_empty(self) -> (r: bool)
        ensures
            r == (self.0 == 0),
    {
        self.0 == 0
    }

    /// The bits set in either.
    pub fn union(self, other: Self) -> (r: Self)
        ensures
            r.0 == self.0 | other.0,
    {
        ObjectAugmentationType(self.0 | other.0)
    }

    /// The flag a C++ enumerator symbol names.
    pub fn from_symbol(s: &str) -> (r: Option<Self>)
        ensures
            r == Self::symbol_lookup(s@),
    {
        if str_eq(s, "AUGMENTATION_NULL") {
            return Some(ObjectAugmentationType(0i32));
        }
        if str_eq(s, "AUGMENTATION_EXTRA_DAMAGE") {
            return Some(ObjectAugmentationType(1i32));
        }
        if str_eq(s, "AUGMENTATION_SILVER") {
            return Some(ObjectAugmentationType(2i32));
        }
        if str_eq(s, "AUGMENTATION_FLAME") {
            return Some(ObjectAugmentationType(4i32));
        }
        if str_eq(s, "AUGMENTATION_LIGHTNING") {
            return Some(ObjectAugmentationType(8i32));
        }
        if str_eq(s, "AUGMENTATION_DIAMOND") {
            return Some(ObjectAugmentationType(16i32));
        }
        if str_eq(s, "AUGMENTATION_HEALTH_REGENERATION") {
            return Some(ObjectAugmentationType(32i32));
        }
        if str_eq(s, "AUGMENTATION_STAMINA_REGENERATION") {
            return Some(ObjectAugmentationType(64i32));
        }
        if str_eq(s, "AUGMENTATION_EXPERIENCE_INCREASE") {
            return Some(ObjectAugmentationType(128i32));
        }
        if str_eq(s, "AUGMENTATION_HOBBE_KILLER") {
            return Some(ObjectAugmentationType(256i32));
        }
        if str_eq(s, "AUGMENTATION_BANDIT_KILLER") {
            return Some(ObjectAugmentationType(512i32));
        }
        None
    }
}

impl core::ops::BitOr for ObjectAugmentationType {
    type Output = ObjectAugmentationType;

    fn bitor(self, rhs: ObjectAugmentationType) -> (r: ObjectAugmentationType) {
        ObjectAugmentationType(self.0 | rhs.0)
    }
}

impl vstd::std_specs::ops::BitOrSpecImpl for ObjectAugmentationType {
    open spec fn obeys_bitor_spec() -> bool {
        true
    }

    open spec fn bitor_req(self, rhs: ObjectAugmentationType) -> bool {
        true
    }

    open spec fn bitor_spec(self, rhs: ObjectAugmentationType) -> ObjectAugmentationType {
        ObjectAugmentationType(self.0 | rhs.0)
    }
}

#[derive(Debug, Clone, Copy, PartialEq, Eq, Structural, PartialOrd, Ord, Hash, Default)]
pub struct Opinion(pub i32);

impl Opinion {
    /// The bits of `OPINION_MORALITY`.
    pub const MORALITY: i32 = 0i32;
    /// The bits of `OPINION_RENOWN`.
    pub const RENOWN: i32 = 1i32;
    /// The bits of `OPINION_SCARINESS`.
    pub const SCARINESS: i32 = 2i32;
    /// The bits of `OPINION_AGREEABLENESS`.
    pub const AGREEABLENESS: i32 = 3i32;
    /// The bits of `OPINION_ATTRACTIVENESS`.
    pub const ATTRACTIVENESS: i32 = 4i32;
    /// The bits of `OPINION_LAST`.
    pub const LAST: i32 = 5i32;

    /// The flag a C++ enumerator symbol names, if any.
    pub open spec fn symbol_lookup(s: Seq<char>) -> Option<Self> {
        if s == "OPINION_MORALITY"@ {
            Some(Opinion(0i32))
        } else if s == "OPINION_RENOWN"@ {
            Some(Opinion(1i32))
        } else if s == "OPINION_SCARINESS"@ {
            Some(Opinion(2i32))
        } else if s == "OPINION_AGREEABLENESS"@ {
            Some(Opinion(3i32))
        } else if s == "OPINION_ATTRACTIVENESS"@ {
            Some(Opinion(4i32))
        } else if s == "OPINION_LAST"@ {
            Some(Opinion(5i32))
        } else {
            None
        }
    }

    /// The set holding exactly the bits of `value` (lossless).
    pub fn from_i32(value: i32) -> (r: Self)
        ensures
            r.0 == value,
    {
        Opinion(value)
    }

    pub fn to_i32(self) -> (r: i32)
        ensures
            r == self.0,
    {
        self.0
    }

    /// Whether every bit of `other` is set in `self`.
    pub fn contains(self, other: Self) -> (r: bool)
        ensures
            r == (self.0 & other.0 == other.0),
    {
        self.0 & other.0 == other.0
    }

    /// Whether no bit is set.
    pub fn is_empty(self) -> (r: bool)
        ensures
            r == (self.0 == 0),
    {
        self.0 == 0
    }

    /// The bits set in either.
    pub fn union(self, other: Self) -> (r: Self)
        ensures
            r.0 == self.0 | other.0,
    {
        Opinion(self.0 | other.0)
    }

    /// The flag a C++ enumerator symbol names.
    pub fn from_symbol(s: &str) -> (r: Option<Self>)
        ensures
            r == Self::symbol_lookup(s@),
    {
        if str_eq(s, "OPINION_MORALITY") {
            return Some(Opinion(0i32));
        }
        if str_eq(s, "OPINION_RENOWN") {
            return Some(Opinion(1i32));
        }
        if str_eq(s, "OPINION_SCARINESS") {
            return Some(Opinion(2i32));
        }
        if str_eq(s, "OPINION_AGREEABLENESS") {
            return Some(Opinion(3i32));
        }
        if str_eq(s, "OPINION_ATTRACTIVENESS") {
            return Some(Opinion(4i32));
        }
        if str_eq(s, "OPINION_LAST") {
            return Some(Opinion(5i32));
        }
        None
    }
}

impl core::ops::BitOr for Opinion {
    type Output = Opinion;

    fn bitor(self, rhs: Opinion) -> (r: Opinion) {
        Opinion(self.0 | rhs.0)
    }
}

impl vstd::std_specs::ops::BitOrSpecImpl for Opinion {
    open spec fn obeys_bitor_spec() -> bool {
        true
    }

    open spec fn bitor_req(self, rhs: Opinion) -> bool {
        true
    }

    open spec fn bitor_spec(self, rhs: Opinion) -> Opinion {
        Opinion(self.0 | rhs.0)
    }
}

#[derive(Debug, Clone, Copy, PartialEq, Eq, Structural, PartialOrd, Ord, Hash, Default)]
pub struct OpinionAttitudeType(pub i32);

impl OpinionAttitudeType {
    /// The bits of `OPINION_ATTITUDE_TYPE_NONE`.
    pub const NONE: i32 = 0i32;
    /// The bits of `OPINION_ATTITUDE_TYPE_RESPECT`.
    pub const RESPECT: i32 = 1i32;
    /// The bits of `OPINION_ATTITUDE_TYPE_AWE`.
    pub const AWE: i32 = 2i32;
    /// The bits of `OPINION_ATTITUDE_TYPE_DISDAIN`.
    pub const DISDAIN: i32 = 3i32;
    /// The bits of `OPINION_ATTITUDE_TYPE_FEAR`.
    pub const FEAR: i32 = 4i32;
    /// The bits of `OPINION_ATTITUDE_TYPE_FRIENDLINESS`.
    pub const FRIENDLINESS: i32 = 5i32;
    /// The bits of `OPINION_ATTITUDE_TYPE_WORSHIP`.
    pub const WORSHIP: i32 = 6i32;
    /// The bits of `OPINION_ATTITUDE_TYPE_RIDICULOUS`.
    pub const RIDICULOUS: i32 = 7i32;
    /// The bits of `OPINION_ATTITUDE_TYPE_OFFENSIVE`.
    pub const OFFENSIVE: i32 = 8i32;
    /// The bits of `OPINION_ATTITUDE_TYPE_AGREEABLE`.
    pub const AGREEABLE: i32 = 9i32;
    /// The bits of `OPINION_ATTITUDE_TYPE_UGLY`.
    pub const UGLY: i32 = 10i32;
    /// The bits of `OPINION_ATTITUDE_TYPE_ATTRACTED`.
    pub const ATTRACTED: i32 = 11i32;
    /// The bits of `OPINION_ATTITUDE_TYPE_LOVE`.
    pub const LOVE: i32 = 12i32;
    /// The bits of `OPINION_ATTITUDE_TYPE_WIFE_FIRST`.
    pub const WIFE_FIRST: i32 = 13i32;
    /// The bits of `OPINION_ATTITUDE_TYPE_WIFE_LOVE`.
    pub const WIFE_LOVE: i32 = 13i32;
    /// The bits of `OPINION_ATTITUDE_TYPE_WIFE_LIKE`.
    pub const WIFE_LIKE: i32 = 14i32;
    /// The bits of `OPINION_ATTITUDE_TYPE_WIFE_NEUTRAL`.
    pub const WIFE_NEUTRAL: i32 = 15i32;
    /// The bits of `OPINION_ATTITUDE_TYPE_WIFE_DISLIKE`.
    pub const WIFE_DISLIKE: i32 = 16i32;
    /// The bits of `OPINION_ATTITUDE_TYPE_WIFE_HATE`.
    pub const WIFE_HATE: i32 = 17i32;
    /// The bits of `OPINION_ATTITUDE_TYPE_LAST`.
    pub const LAST: i32 = 18i32;

    /// The flag a C++ enumerator symbol names, if any.
    pub open spec fn symbol_lookup(s: Seq<char>) -> Option<Self> {
        if s == "OPINION_ATTITUDE_TYPE_NONE"@ {
            Some(OpinionAttitudeType(0i32))
        } else if s == "OPINION_ATTITUDE_TYPE_RESPECT"@ {
            Some(OpinionAttitudeType(1i32))
        } else if s == "OPINION_ATTITUDE_TYPE_AWE"@ {
            Some(OpinionAttitudeType(2i32))
        } else if s == "OPINION_ATTITUDE_TYPE_DISDAIN"@ {
            Some(OpinionAttitudeType(3i32))
        } else if s == "OPINION_ATTITUDE_TYPE_FEAR"@ {
            Some(OpinionAttitudeType(4i32))
        } else if s == "OPINION_ATTITUDE_TYPE_FRIENDLINESS"@ {
            Some(OpinionAttitudeType(5i32))
        } else if s == "OPINION_ATTITUDE_TYPE_WORSHIP"@ {
            Some(OpinionAttitudeType(6i32))
        } else if s == "OPINION_ATTITUDE_TYPE_RIDICULOUS"@ {
            Some(OpinionAttitudeType(7i32))
        } else if s == "OPINION_ATTITUDE_TYPE_OFFENSIVE"@ {
            Some(OpinionAttitudeType(8i32))
        } else if s == "OPINION_ATTITUDE_TYPE_AGREEABLE"@ {
            Some(OpinionAttitudeType(9i32))
        } else if s == "OPINION_ATTITUDE_TYPE_UGLY"@ {
            Some(OpinionAttitudeType(10i32))
        } else if s == "OPINION_ATTITUDE_TYPE_ATTRACTED"@ {
            Some(OpinionAttitudeType(11i32))
        } else if s == "OPINION_ATTITUDE_TYPE_LOVE"@ {
            Some(OpinionAttitudeType(12i32))
        } else if s == "OPINION_ATTITUDE_TYPE_WIFE_FIRST"@ {
            Some(OpinionAttitudeType(13i32))
        } else if s == "OPINION_ATTITUDE_TYPE_WIFE_LOVE"@ {
            Some(OpinionAttitudeType(13i32))
        } else if s == "OPINION_ATTITUDE_TYPE_WIFE_LIKE"@ {
            Some(OpinionAttitudeType(14i32))
        } else if s == "OPINION_ATTITUDE_TYPE_WIFE_NEUTRAL"@ {
            Some(OpinionAttitudeType(15i32))
        } else if s == "OPINION_ATTITUDE_TYPE_WIFE_DISLIKE"@ {
            Some(OpinionAttitudeType(16i32))
        } else if s == "OPINION_ATTITUDE_TYPE_WIFE_HATE"@ {
            Some(OpinionAttitudeType(17i32))
        } else if s == "OPINION_ATTITUDE_TYPE_LAST"@ {
            Some(OpinionAttitudeType(18i32))
        } else {
            None
        }
    }

    /// The set holding exactly the bits of `value` (lossless).
    pub fn from_i32(value: i32) -> (r: Self)
        ensures
            r.0 == value,
    {
        OpinionAttitudeType(value)
    }

    pub fn to_i32(self) -> (r: i32)
        ensures
            r == self.0,
    {
        self.0
    }

    /// Whether every bit of `other` is set in `self`.
    pub fn contains(self, other: Self) -> (r: bool)
        ensures
            r == (self.0 & other.0 == other.0),
    {
        self.0 & other.0 == other.0
    }

    /// Whether no bit is set.
    pub fn is_empty(self) -> (r: bool)
        ensures
            r == (self.0 == 0),
    {
        self.0 == 0
    }

    /// The bits set in either.
    pub fn union(self, other: Self) -> (r: Self)
        ensures
            r.0 == self.0 | other.0,
    {
        OpinionAttitudeType(self.0 | other.0)
    }

    /// The flag a C++ enumerator symbol names.
    pub fn from_symbol(s: &str) -> (r: Option<Self>)
        ensures
            r == Self::symbol_lookup(s@),
    {
        if str_eq(s, "OPINION_ATTITUDE_TYPE_NONE") {
            return Some(OpinionAttitudeType(0i32));
        }
        if str_eq(s, "OPINION_ATTITUDE_TYPE_RESPECT") {
            return Some(OpinionAttitudeType(1i32));
        }
        if str_eq(s, "OPINION_ATTITUDE_TYPE_AWE") {
            return Some(OpinionAttitudeType(2i32));
        }
        if str_eq(s, "OPINION_ATTITUDE_TYPE_DISDAIN") {
            return Some(OpinionAttitudeType(3i32));
        }
        if str_eq(s, "OPINION_ATTITUDE_TYPE_FEAR") {
            return Some(OpinionAttitudeType(4i32));
        }
        if str_eq(s, "OPINION_ATTITUDE_TYPE_FRIENDLINESS") {
            return Some(OpinionAttitudeType(5i32));
        }
        if str_eq(s, "OPINION_ATTITUDE_TYPE_WORSHIP") {
            return Some(OpinionAttitudeType(6i32));
        }
        if str_eq(s, "OPINION_ATTITUDE_TYPE_RIDICULOUS") {
            return Some(OpinionAttitudeType(7i32));
        }
        if str_eq(s, "OPINION_ATTITUDE_TYPE_OFFENSIVE") {
            return Some(OpinionAttitudeType(8i32));
        }
        if str_eq(s, "OPINION_ATTITUDE_TYPE_AGREEABLE") {
            return Some(OpinionAttitudeType(9i32));
        }
        if str_eq(s, "OPINION_ATTITUDE_TYPE_UGLY") {
            return Some(OpinionAttitudeType(10i32));
        }
        if str_eq(s, "OPINION_ATTITUDE_TYPE_ATTRACTED") {
            return Some(OpinionAttitudeType(11i32));
        }
        if str_eq(s, "OPINION_ATTITUDE_TYPE_LOVE") {
            return Some(OpinionAttitudeType(12i32));
        }
        if str_eq(s, "OPINION_ATTITUDE_TYPE_WIFE_FIRST") {
            return Some(OpinionAttitudeType(13i32));
        }
        if str_eq(s, "OPINION_ATTITUDE_TYPE_WIFE_LOVE") {
            return Some(OpinionAttitudeType(13i32));
        }
        if str_eq(s, "OPINION_ATTITUDE_TYPE_WIFE_LIKE") {
            return Some(OpinionAttitudeType(14i32));
        }
        if str_eq(s, "OPINION_ATTITUDE_TYPE_WIFE_NEUTRAL") {
            return Some(OpinionAttitudeType(15i32));
        }
        if str_eq(s, "OPINION_ATTITUDE_TYPE_WIFE_DISLIKE") {
            return Some(OpinionAttitudeType(16i32));
        }
        if str_eq(s, "OPINION_ATTITUDE_TYPE_WIFE_HATE") {
            return Some(OpinionAttitudeType(17i32));
        }
        if str_eq(s, "OPINION_ATTITUDE_TYPE_LAST") {
            return Some(OpinionAttitudeType(18i32));
        }
        None
    }
}

impl core::ops::BitOr for OpinionAttitudeType {
    type Output = OpinionAttitudeType;

    fn bitor(self, rhs: OpinionAttitudeType) -> (r: OpinionAttitudeType) {
        OpinionAttitudeType(self.0 | rhs.0)
    }
}

impl vstd::std_specs::ops::BitOrSpecImpl for OpinionAttitudeType {
    open spec fn obeys_bitor_spec() -> bool {
        true
    }

    open spec fn bitor_req(self, rhs: OpinionAttitudeType) -> bool {
        true
    }

    open spec fn bitor_spec(self, rhs: OpinionAttitudeType) -> OpinionAttitudeType {
        OpinionAttitudeType(self.0 | rhs.0)
    }
}

#[derive(Debug, Clone, Copy, PartialEq, Eq, Structural, PartialOrd, Ord, Hash, Default)]
pub struct OpinionDeedType(pub i32);

impl OpinionDeedType {
    /// The bits of `OPINION_DEED_TYPE_NONE`.
    pub const NONE: i32 = 0i32;
    /// The bits of `OPINION_DEED_TYPE_CRIME_WEAPON_OUT`.
    pub const CRIME_WEAPON_OUT: i32 = 1i32;
    /// The bits of `OPINION_DEED_TYPE_CRIME_TRESPASS_THIRD`.
    pub const CRIME_TRESPASS_THIRD: i32 = 2i32;
    /// The bits of `OPINION_DEED_TYPE_CRIME_VANDALISM`.
    pub const CRIME_VANDALISM: i32 = 3i32;
    /// The bits of `OPINION_DEED_TYPE_CRIME_LOCKPICKING`.
    pub const CRIME_LOCKPICKING: i32 = 4i32;
    /// The bits of `OPINION_DEED_TYPE_CRIME_PICK_POCKETS`.
    pub const CRIME_PICK_POCKETS: i32 = 5i32;
    /// The bits of `OPINION_DEED_TYPE_CRIME_THEFT`.
    pub const CRIME_THEFT: i32 = 6i32;
    /// The bits of `OPINION_DEED_TYPE_CRIME_ASSAULT`.
    pub const CRIME_ASSAULT: i32 = 7i32;
    /// The bits of `OPINION_DEED_TYPE_CRIME_GBH`.
    pub const CRIME_GBH: i32 = 8i32;
    /// The bits of `OPINION_DEED_TYPE_CRIME_MURDER`.
    pub const CRIME_MURDER: i32 = 9i32;
    /// The bits of `OPINION_DEED_TYPE_CRIME_TRESPASS_FIRST`.
    pub const CRIME_TRESPASS_FIRST: i32 = 10i32;
    /// The bits of `OPINION_DEED_TYPE_CRIME_TRESPASS_SECOND`.
    pub const CRIME_TRESPASS_SECOND: i32 = 11i32;
    /// The bits of `OPINION_DEED_TYPE_EXPRESSION_HEROIC_STANCE`.
    pub const EXPRESSION_HEROIC_STANCE: i32 = 12i32;
    /// The bits of `OPINION_DEED_TYPE_EXPRESSION_FLIRT`.
    pub const EXPRESSION_FLIRT: i32 = 13i32;
    /// The bits of `OPINION_DEED_TYPE_EXPRESSION_APOLOGY_NO_CRIME`.
    pub const EXPRESSION_APOLOGY_NO_CRIME: i32 = 14i32;
    /// The bits of `OPINION_DEED_TYPE_EXPRESSION_SNEER`.
    pub const EXPRESSION_SNEER: i32 = 15i32;
    /// The bits of `OPINION_DEED_TYPE_EXPRESSION_EVIL_LAUGH`.
    pub const EXPRESSION_EVIL_LAUGH: i32 = 16i32;
    /// The bits of `OPINION_DEED_TYPE_EXPRESSION_BATTLE_CRY`.
    pub const EXPRESSION_BATTLE_CRY: i32 = 17i32;
    /// The bits of `OPINION_DEED_TYPE_EXPRESSION_PELVIC_THRUST`.
    pub const EXPRESSION_PELVIC_THRUST: i32 = 18i32;
    /// The bits of `OPINION_DEED_TYPE_EXPRESSION_MIDDLE_FINGER`.
    pub const EXPRESSION_MIDDLE_FINGER: i32 = 19i32;
    /// The bits of `OPINION_DEED_TYPE_EXPRESSION_BELCH`.
    pub const EXPRESSION_BELCH: i32 = 20i32;
    /// The bits of `OPINION_DEED_TYPE_EXPRESSION_FART`.
    pub const EXPRESSION_FART: i32 = 21i32;
    /// The bits of `OPINION_DEED_TYPE_EXPRESSION_VICTORY_PUMP`.
    pub const EXPRESSION_VICTORY_PUMP: i32 = 22i32;
    /// The bits of `OPINION_DEED_TYPE_EXPRESSION_CLAP`.
    pub const EXPRESSION_CLAP: i32 = 23i32;
    /// The bits of `OPINION_DEED_TYPE_EXPRESSION_GIGGLE`.
    pub const EXPRESSION_GIGGLE: i32 = 24i32;
    /// The bits of `OPINION_DEED_TYPE_EXPRESSION_SHIT`.
    pub const EXPRESSION_SHIT: i32 = 25i32;
    /// The bits of `OPINION_DEED_TYPE_EXPRESSION_THANKS`.
    pub const EXPRESSION_THANKS: i32 = 26i32;
    /// The bits of `OPINION_DEED_TYPE_EXPRESSION_COCK_A_DOODLE_DO`.
    pub const EXPRESSION_COCK_A_DOODLE_DO: i32 = 27i32;
    /// The bits of `OPINION_DEED_TYPE_EXPRESSION_CROTCH_GRAB`.
    pub const EXPRESSION_CROTCH_GRAB: i32 = 28i32;
    /// The bits of `OPINION_DEED_TYPE_EXPRESSION_KISS_MY_ASS`.
    pub const EXPRESSION_KISS_MY_ASS: i32 = 29i32;
    /// The bits of `OPINION_DEED_TYPE_EXPRESSION_FLAMENCO`.
    pub const EXPRESSION_FLAMENCO: i32 = 30i32;
    /// The bits of `OPINION_DEED_TYPE_EXPRESSION_COSSACK`.
    pub const EXPRESSION_COSSACK: i32 = 31i32;
    /// The bits of `OPINION_DEED_TYPE_EXPRESSION_AIR_GUITAR`.
    pub const EXPRESSION_AIR_GUITAR: i32 = 32i32;
    /// The bits of `OPINION_DEED_TYPE_EXPRESSION_BALLET`.
    pub const EXPRESSION_BALLET: i32 = 33i32;
    /// The bits of `OPINION_DEED_TYPE_EXPRESSION_SATURDAY_NIGHT_FEVER`.
    pub const EXPRESSION_SATURDAY_NIGHT_FEVER: i32 = 34i32;
    /// The bits of `OPINION_DEED_TYPE_EXPRESSION_TAP`.
    pub const EXPRESSION_TAP: i32 = 35i32;
    /// The bits of `OPINION_DEED_TYPE_EXPRESSION_Y`.
    pub const EXPRESSION_Y: i32 = 36i32;
    /// The bits of `OPINION_DEED_TYPE_EXPRESSION_M`.
    pub const EXPRESSION_M: i32 = 37i32;
    /// The bits of `OPINION_DEED_TYPE_EXPRESSION_C`.
    pub const EXPRESSION_C: i32 = 38i32;
    /// The bits of `OPINION_DEED_TYPE_EXPRESSION_A`.
    pub const EXPRESSION_A: i32 = 39i32;
    /// The bits of `OPINION_DEED_TYPE_EXPRESSION_THREATEN_SMALL`.
    pub const EXPRESSION_THREATEN_SMALL: i32 = 40i32;
    /// The bits of `OPINION_DEED_TYPE_EXPRESSION_THREATEN_LARGE`.
    pub const EXPRESSION_THREATEN_LARGE: i32 = 41i32;
    /// The bits of `OPINION_DEED_TYPE_SCRIPT_ACTION_ANNOYING_SMALL`.
    pub const SCRIPT_ACTION_ANNOYING_SMALL: i32 = 42i32;
    /// The bits of `OPINION_DEED_TYPE_SCRIPT_ACTION_ANNOYING_LARGE`.
    pub const SCRIPT_ACTION_ANNOYING_LARGE: i32 = 43i32;
    /// The bits of `OPINION_DEED_TYPE_SCRIPT_ACTION_NICE_SMALL`.
    pub const SCRIPT_ACTION_NICE_SMALL: i32 = 44i32;
    /// The bits of `OPINION_DEED_TYPE_SCRIPT_ACTION_NICE_LARGE`.
    pub const SCRIPT_ACTION_NICE_LARGE: i32 = 45i32;
    /// The bits of `OPINION_DEED_TYPE_FOLLOWER_ACCEPT`.
    pub const FOLLOWER_ACCEPT: i32 = 46i32;
    /// The bits of `OPINION_DEED_TYPE_FOLLOWER_REFUSE`.
    pub const FOLLOWER_REFUSE: i32 = 47i32;
    /// The bits of `OPINION_DEED_TYPE_FOLLOWER_DISMISSED`.
    pub const FOLLOWER_DISMISSED: i32 = 48i32;
    /// The bits of `OPINION_DEED_TYPE_FOLLOWER_QUIT`.
    pub const FOLLOWER_QUIT: i32 = 49i32;
    /// The bits of `OPINION_DEED_TYPE_FOLLOWER_ENEMYSPOTTED`.
    pub const FOLLOWER_ENEMYSPOTTED: i32 = 50i32;
    /// The bits of `OPINION_DEED_TYPE_FOLLOWER_IDLEEXCITED`.
    pub const FOLLOWER_IDLEEXCITED: i32 = 51i32;
    /// The bits of `OPINION_DEED_TYPE_FOLLOWER_IDLEBORED`.
    pub const FOLLOWER_IDLEBORED: i32 = 52i32;
    /// The bits of `OPINION_DEED_TYPE_WITNESSED_ASSAULT_OR_GBH`.
    pub const WITNESSED_ASSAULT_OR_GBH: i32 = 53i32;
    /// The bits of `OPINION_DEED_TYPE_TOO_FREQUENT_OTHER_DEED`.
    pub const TOO_FREQUENT_OTHER_DEED: i32 = 54i32;
    /// The bits of `OPINION_DEED_TYPE_SHOW_TROPHY_EVIL`.
    pub const SHOW_TROPHY_EVIL: i32 = 55i32;
    /// The bits of `OPINION_DEED_TYPE_SHOW_TROPHY_GOOD`.
    pub const SHOW_TROPHY_GOOD: i32 = 56i32;
    /// The bits of `OPINION_DEED_TYPE_SHOW_TROPHY_BORED`.
    pub const SHOW_TROPHY_BORED: i32 = 57i32;
    /// The bits of `OPINION_DEED_TYPE_KILL_BAD_GUY`.
    pub const KILL_BAD_GUY: i32 = 58i32;
    /// The bits of `OPINION_DEED_TYPE_MURDER_SPOUSE`.
    pub const MURDER_SPOUSE: i32 = 59i32;
    /// The bits of `OPINION_DEED_TYPE_RECEIVE_GIFT_ROMANTIC`.
    pub const RECEIVE_GIFT_ROMANTIC: i32 = 60i32;
    /// The bits of `OPINION_DEED_TYPE_RECEIVE_GIFT_FRIENDLY`.
    pub const RECEIVE_GIFT_FRIENDLY: i32 = 61i32;
    /// The bits of `OPINION_DEED_TYPE_RECEIVE_GIFT_OFFENSIVE`.
    pub const RECEIVE_GIFT_OFFENSIVE: i32 = 62i32;
    /// The bits of `OPINION_DEED_TYPE_RECEIVE_WEDDING_RING`.
    pub const RECEIVE_WEDDING_RING: i32 = 63i32;
    /// The bits of `OPINION_DEED_TYPE_BOAST_ANTICIPATION`.
    pub const BOAST_ANTICIPATION: i32 = 64i32;
    /// The bits of `OPINION_DEED_TYPE_BOAST_ENCOURAGE_FIRST`.
    pub const BOAST_ENCOURAGE_FIRST: i32 = 65i32;
    /// The bits of `OPINION_DEED_TYPE_BOAST_ENCOURAGE_MIDDLE`.
    pub const BOAST_ENCOURAGE_MIDDLE: i32 = 66i32;
    /// The bits of `OPINION_DEED_TYPE_BOAST_ENCOURAGE_FINAL`.
    pub const BOAST_ENCOURAGE_FINAL: i32 = 67i32;
    /// The bits of `OPINION_DEED_TYPE_BOAST_WELL_WISHES`.
    pub const BOAST_WELL_WISHES: i32 = 68i32;
    /// The bits of `OPINION_DEED_TYPE_BOAST_ANNOYED_NO_BOASTING`.
    pub const BOAST_ANNOYED_NO_BOASTING: i32 = 69i32;
    /// The bits of `OPINION_DEED_TYPE_COMMENT_AT_HERO`.
    pub const COMMENT_AT_HERO: i32 = 70i32;
    /// The bits of `OPINION_DEED_TYPE_COMMENT_TO_SELF`.
    pub const COMMENT_TO_SELF: i32 = 71i32;
    /// The bits of `OPINION_DEED_TYPE_COMMENT_ABOUT_HERO`.
    pub const COMMENT_ABOUT_HERO: i32 = 72i32;
    /// The bits of `OPINION_DEED_TYPE_GENERIC_INCOMPREHENSION`.
    pub const GENERIC_INCOMPREHENSION: i32 = 73i32;
    /// The bits of `OPINION_DEED_TYPE_HIGH_PRIORITY_INCOMPREHENSION`.
    pub const HIGH_PRIORITY_INCOMPREHENSION: i32 = 74i32;
    /// The bits of `OPINION_DEED_TYPE_HUSBAND_RAGE`.
    pub const HUSBAND_RAGE: i32 = 75i32;
    /// The bits of `OPINION_DEED_TYPE_TAVERN_GAME_WIN`.
    pub const TAVERN_GAME_WIN: i32 = 76i32;
    /// The bits of `OPINION_DEED_TYPE_INDOORS_GREETING`.
    pub const INDOORS_GREETING: i32 = 77i32;
    /// The bits of `OPINION_DEED_TYPE_APOLOGY_ACCEPTED`.
    pub const APOLOGY_ACCEPTED: i32 = 78i32;
    /// The bits of `OPINION_DEED_TYPE_APOLOGY_REFUSED`.
    pub const APOLOGY_REFUSED: i32 = 79i32;
    /// The bits of `OPINION_DEED_TYPE_WIFE_GREETED`.
    pub const WIFE_GREETED: i32 = 80i32;
    /// The bits of `OPINION_DEED_TYPE_WIFE_TIME_SINCE_SEEING`.
    pub const WIFE_TIME_SINCE_SEEING: i32 = 81i32;
    /// The bits of `OPINION_DEED_TYPE_WIFE_GIFT_RECEIVE_ALREADY_GOT`.
    pub const WIFE_GIFT_RECEIVE_ALREADY_GOT: i32 = 82i32;
    /// The bits of `OPINION_DEED_TYPE_WIFE_JUSTMARRIED`.
    pub const WIFE_JUSTMARRIED: i32 = 83i32;
    /// The bits of `OPINION_DEED_TYPE_WIFE_GIFT_WANTED`.
    pub const WIFE_GIFT_WANTED: i32 = 84i32;
    /// The bits of `OPINION_DEED_TYPE_WIFE_WITNESSED_FLIRT`.
    pub const WIFE_WITNESSED_FLIRT: i32 = 85i32;
    /// The bits of `OPINION_DEED_TYPE_WIFE_HOUSE_DRESSING_GOOD`.
    pub const WIFE_HOUSE_DRESSING_GOOD: i32 = 86i32;
    /// The bits of `OPINION_DEED_TYPE_WIFE_HOUSE_DRESSING_BAD`.
    pub const WIFE_HOUSE_DRESSING_BAD: i32 = 87i32;
    /// The bits of `OPINION_DEED_TYPE_WIFE_DIVORCE_WARNING`.
    pub const WIFE_DIVORCE_WARNING: i32 = 88i32;
    /// The bits of `OPINION_DEED_TYPE_WIFE_DIVORCE_OCCURRED`.
    pub const WIFE_DIVORCE_OCCURRED: i32 = 89i32;
    /// The bits of `OPINION_DEED_TYPE_WIFE_SEX_OFFER_TO_GO_TO_BED`.
    pub const WIFE_SEX_OFFER_TO_GO_TO_BED: i32 = 90i32;
    /// The bits of `OPINION_DEED_TYPE_WIFE_SEX_COMMENT_AFTERWARDS`.
    pub const WIFE_SEX_COMMENT_AFTERWARDS: i32 = 91i32;
    /// The bits of `OPINION_DEED_TYPE_LAST`.
    pub const LAST: i32 = 92i32;

    /// The flag a C++ enumerator symbol names, if any.
    pub open spec fn symbol_lookup(s: Seq<char>) -> Option<Self> {
        if s == "OPINION_DEED_TYPE_NONE"@ {
            Some(OpinionDeedType(0i32))
        } else if s == "OPINION_DEED_TYPE_CRIME_WEAPON_OUT"@ {
            Some(OpinionDeedType(1i32))
        } else if s == "OPINION_DEED_TYPE_CRIME_TRESPASS_THIRD"@ {
            Some(OpinionDeedType(2i32))
        } else if s == "OPINION_DEED_TYPE_CRIME_VANDALISM"@ {
            Some(OpinionDeedType(3i32))
        } else if s == "OPINION_DEED_TYPE_CRIME_LOCKPICKING"@ {
            Some(OpinionDeedType(4i32))
        } else if s == "OPINION_DEED_TYPE_CRIME_PICK_POCKETS"@ {
            Some(OpinionDeedType(5i32))
        } else if s == "OPINION_DEED_TYPE_CRIME_THEFT"@ {
            Some(OpinionDeedType(6i32))
        } else if s == "OPINION_DEED_TYPE_CRIME_ASSAULT"@ {
            Some(OpinionDeedType(7i32))
        } else if s == "OPINION_DEED_TYPE_CRIME_GBH"@ {
            Some(OpinionDeedType(8i32))
        } else if s == "OPINION_DEED_TYPE_CRIME_MURDER"@ {
            Some(OpinionDeedType(9i32))
        } else if s == "OPINION_DEED_TYPE_CRIME_TRESPASS_FIRST"@ {
            Some(OpinionDeedType(10i32))
        } else if s == "OPINION_DEED_TYPE_CRIME_TRESPASS_SECOND"@ {
            Some(OpinionDeedType(11i32))
        } else if s == "OPINION_DEED_TYPE_EXPRESSION_HEROIC_STANCE"@ {
            Some(OpinionDeedType(12i32))
        } else if s == "OPINION_DEED_TYPE_EXPRESSION_FLIRT"@ {
            Some(OpinionDeedType(13i32))
        } else if s == "OPINION_DEED_TYPE_EXPRESSION_APOLOGY_NO_CRIME"@ {
            Some(OpinionDeedType(14i32))
        } else if s == "OPINION_DEED_TYPE_EXPRESSION_SNEER"@ {
            Some(OpinionDeedType(15i32))
        } else if s == "OPINION_DEED_TYPE_EXPRESSION_EVIL_LAUGH"@ {
            Some(OpinionDeedType(16i32))
        } else if s == "OPINION_DEED_TYPE_EXPRESSION_BATTLE_CRY"@ {
            Some(OpinionDeedType(17i32))
        } else if s == "OPINION_DEED_TYPE_EXPRESSION_PELVIC_THRUST"@ {
            Some(OpinionDeedType(18i32))
        } else if s == "OPINION_DEED_TYPE_EXPRESSION_MIDDLE_FINGER"@ {
            Some(OpinionDeedType(19i32))
        } else if s == "OPINION_DEED_TYPE_EXPRESSION_BELCH"@ {
            Some(OpinionDeedType(20i32))
        } else if s == "OPINION_DEED_TYPE_EXPRESSION_FART"@ {
            Some(OpinionDeedType(21i32))
        } else if s == "OPINION_DEED_TYPE_EXPRESSION_VICTORY_PUMP"@ {
            Some(OpinionDeedType(22i32))
        } else if s == "OPINION_DEED_TYPE_EXPRESSION_CLAP"@ {
            Some(OpinionDeedType(23i32))
        } else if s == "OPINION_DEED_TYPE_EXPRESSION_GIGGLE"@ {
            Some(OpinionDeedType(24i32))
        } else if s == "OPINION_DEED_TYPE_EXPRESSION_SHIT"@ {
            Some(OpinionDeedType(25i32))
        } else if s == "OPINION_DEED_TYPE_EXPRESSION_THANKS"@ {
            Some(OpinionDeedType(26i32))
        } else if s == "OPINION_DEED_TYPE_EXPRESSION_COCK_A_DOODLE_DO"@ {
            Some(OpinionDeedType(27i32))
        } else if s == "OPINION_DEED_TYPE_EXPRESSION_CROTCH_GRAB"@ {
            Some(OpinionDeedType(28i32))
        } else if s == "OPINION_DEED_TYPE_EXPRESSION_KISS_MY_ASS"@ {
            Some(OpinionDeedType(29i32))
        } else if s == "OPINION_DEED_TYPE_EXPRESSION_FLAMENCO"@ {
            Some(OpinionDeedType(30i32))
        } else if s == "OPINION_DEED_TYPE_EXPRESSION_COSSACK"@ {
            Some(OpinionDeedType(31i32))
        } else if s == "OPINION_DEED_TYPE_EXPRESSION_AIR_GUITAR"@ {
            Some(OpinionDeedType(32i32))
        } else if s == "OPINION_DEED_TYPE_EXPRESSION_BALLET"@ {
            Some(OpinionDeedType(33i32))
        } else if s == "OPINION_DEED_TYPE_EXPRESSION_SATURDAY_NIGHT_FEVER"@ {
            Some(OpinionDeedType(34i32))
        } else if s == "OPINION_DEED_TYPE_EXPRESSION_TAP"@ {
            Some(OpinionDeedType(35i32))
        } else if s == "OPINION_DEED_TYPE_EXPRESSION_Y"@ {
            Some(OpinionDeedType(36i32))
        } else if s == "OPINION_DEED_TYPE_EXPRESSION_M"@ {
            Some(OpinionDeedType(37i32))
        } else if s == "OPINION_DEED_TYPE_EXPRESSION_C"@ {
            Some(OpinionDeedType(38i32))
        } else if s == "OPINION_DEED_TYPE_EXPRESSION_A"@ {
            Some(OpinionDeedType(39i32))
        } else if s == "OPINION_DEED_TYPE_EXPRESSION_THREATEN_SMALL"@ {
            Some(OpinionDeedType(40i32))
        } else if s == "OPINION_DEED_TYPE_EXPRESSION_THREATEN_LARGE"@ {
            Some(OpinionDeedType(41i32))
        } else if s == "OPINION_DEED_TYPE_SCRIPT_ACTION_ANNOYING_SMALL"@ {
            Some(OpinionDeedType(42i32))
        } else if s == "OPINION_DEED_TYPE_SCRIPT_ACTION_ANNOYING_LARGE"@ {
            Some(OpinionDeedType(43i32))
        } else if s == "OPINION_DEED_TYPE_SCRIPT_ACTION_NICE_SMALL"@ {
            Some(OpinionDeedType(44i32))
        } else if s == "OPINION_DEED_TYPE_SCRIPT_ACTION_NICE_LARGE"@ {
            Some(OpinionDeedType(45i32))
        } else if s == "OPINION_DEED_TYPE_FOLLOWER_ACCEPT"@ {
            Some(OpinionDeedType(46i32))
        } else if s == "OPINION_DEED_TYPE_FOLLOWER_REFUSE"@ {
            Some(OpinionDeedType(47i32))
        } else if s == "OPINION_DEED_TYPE_FOLLOWER_DISMISSED"@ {
            Some(OpinionDeedType(48i32))
        } else if s == "OPINION_DEED_TYPE_FOLLOWER_QUIT"@ {
            Some(OpinionDeedType(49i32))
        } else if s == "OPINION_DEED_TYPE_FOLLOWER_ENEMYSPOTTED"@ {
            Some(OpinionDeedType(50i32))
        } else if s == "OPINION_DEED_TYPE_FOLLOWER_IDLEEXCITED"@ {
            Some(OpinionDeedType(51i32))
        } else if s == "OPINION_DEED_TYPE_FOLLOWER_IDLEBORED"@ {
            Some(OpinionDeedType(52i32))
        } else if s == "OPINION_DEED_TYPE_WITNESSED_ASSAULT_OR_GBH"@ {
            Some(OpinionDeedType(53i32))
        } else if s == "OPINION_DEED_TYPE_TOO_FREQUENT_OTHER_DEED"@ {
            Some(OpinionDeedType(54i32))
        } else if s == "OPINION_DEED_TYPE_SHOW_TROPHY_EVIL"@ {
            Some(OpinionDeedType(55i32))
        } else if s == "OPINION_DEED_TYPE_SHOW_TROPHY_GOOD"@ {
            Some(OpinionDeedType(56i32))
        } else if s == "OPINION_DEED_TYPE_SHOW_TROPHY_BORED"@ {
            Some(OpinionDeedType(57i32))
        } else if s == "OPINION_DEED_TYPE_KILL_BAD_GUY"@ {
            Some(OpinionDeedType(58i32))
        } else if s == "OPINION_DEED_TYPE_MURDER_SPOUSE"@ {
            Some(OpinionDeedType(59i32))
        } else if s == "OPINION_DEED_TYPE_RECEIVE_GIFT_ROMANTIC"@ {
            Some(OpinionDeedType(60i32))
        } else if s == "OPINION_DEED_TYPE_RECEIVE_GIFT_FRIENDLY"@ {
            Some(OpinionDeedType(61i32))
        } else if s == "OPINION_DEED_TYPE_RECEIVE_GIFT_OFFENSIVE"@ {
            Some(OpinionDeedType(62i32))
        } else if s == "OPINION_DEED_TYPE_RECEIVE_WEDDING_RING"@ {
            Some(OpinionDeedType(63i32))
        } else if s == "OPINION_DEED_TYPE_BOAST_ANTICIPATION"@ {
            Some(OpinionDeedType(64i32))
        } else if s == "OPINION_DEED_TYPE_BOAST_ENCOURAGE_FIRST"@ {
            Some(OpinionDeedType(65i32))
        } else if s == "OPINION_DEED_TYPE_BOAST_ENCOURAGE_MIDDLE"@ {
            Some(OpinionDeedType(66i32))
        } else if s == "OPINION_DEED_TYPE_BOAST_ENCOURAGE_FINAL"@ {
            Some(OpinionDeedType(67i32))
        } else if s == "OPINION_DEED_TYPE_BOAST_WELL_WISHES"@ {
            Some(OpinionDeedType(68i32))
        } else if s == "OPINION_DEED_TYPE_BOAST_ANNOYED_NO_BOASTING"@ {
            Some(OpinionDeedType(69i32))
        } else if s == "OPINION_DEED_TYPE_COMMENT_AT_HERO"@ {
            Some(OpinionDeedType(70i32))
        } else if s == "OPINION_DEED_TYPE_COMMENT_TO_SELF"@ {
            Some(OpinionDeedType(71i32))
        } else if s == "OPINION_DEED_TYPE_COMMENT_ABOUT_HERO"@ {
            Some(OpinionDeedType(72i32))
        } else if s == "OPINION_DEED_TYPE_GENERIC_INCOMPREHENSION"@ {
            Some(OpinionDeedType(73i32))
        } else if s == "OPINION_DEED_TYPE_HIGH_PRIORITY_INCOMPREHENSION"@ {
            Some(OpinionDeedType(74i32))
        } else if s == "OPINION_DEED_TYPE_HUSBAND_RAGE"@ {
            Some(OpinionDeedType(75i32))
        } else if s == "OPINION_DEED_TYPE_TAVERN_GAME_WIN"@ {
            Some(OpinionDeedType(76i32))
        } else if s == "OPINION_DEED_TYPE_INDOORS_GREETING"@ {
            Some(OpinionDeedType(77i32))
        } else if s == "OPINION_DEED_TYPE_APOLOGY_ACCEPTED"@ {
            Some(OpinionDeedType(78i32))
        } else if s == "OPINION_DEED_TYPE_APOLOGY_REFUSED"@ {
            Some(OpinionDeedType(79i32))
        } else if s == "OPINION_DEED_TYPE_WIFE_GREETED"@ {
            Some(OpinionDeedType(80i32))
        } else if s == "OPINION_DEED_TYPE_WIFE_TIME_SINCE_SEEING"@ {
            Some(OpinionDeedType(81i32))
        } else if s == "OPINION_DEED_TYPE_WIFE_GIFT_RECEIVE_ALREADY_GOT"@ {
            Some(OpinionDeedType(82i32))
        } else if s == "OPINION_DEED_TYPE_WIFE_JUSTMARRIED"@ {
            Some(OpinionDeedType(83i32))
        } else if s == "OPINION_DEED_TYPE_WIFE_GIFT_WANTED"@ {
            Some(OpinionDeedType(84i32))
        } else if s == "OPINION_DEED_TYPE_WIFE_WITNESSED_FLIRT"@ {
            Some(OpinionDeedType(85i32))
        } else if s == "OPINION_DEED_TYPE_WIFE_HOUSE_DRESSING_GOOD"@ {
            Some(OpinionDeedType(86i32))
        } else if s == "OPINION_DEED_TYPE_WIFE_HOUSE_DRESSING_BAD"@ {
            Some(OpinionDeedType(87i32))
        } else if s == "OPINION_DEED_TYPE_WIFE_DIVORCE_WARNING"@ {
            Some(OpinionDeedType(88i32))
        } else if s == "OPINION_DEED_TYPE_WIFE_DIVORCE_OCCURRED"@ {
            Some(OpinionDeedType(89i32))
        } else if s == "OPINION_DEED_TYPE_WIFE_SEX_OFFER_TO_GO_TO_BED"@ {
            Some(OpinionDeedType(90i32))
        } else if s == "OPINION_DEED_TYPE_WIFE_SEX_COMMENT_AFTERWARDS"@ {
            Some(OpinionDeedType(91i32))
        } else if s == "OPINION_DEED_TYPE_LAST"@ {
            Some(OpinionDeedType(92i32))
        } else {
            None
        }
    }

    /// The set holding exactly the bits of `value` (lossless).
    pub fn from_i32(value: i32) -> (r: Self)
        ensures
            r.0 == value,
    {
        OpinionDeedType(value)
    }

    pub fn to_i32(self) -> (r: i32)
        ensures
            r == self.0,
    {
        self.0
    }

    /// Whether every bit of `other` is set in `self`.
    pub fn contains(self, other: Self) -> (r: bool)
        ensures
            r == (self.0 & other.0 == other.0),
    {
        self.0 & other.0 == other.0
    }

    /// Whether no bit is set.
    pub fn is_empty(self) -> (r: bool)
        ensures
            r == (self.0 == 0),
    {
        self.0 == 0
    }

    /// The bits set in either.
    pub fn union(self, other: Self) -> (r: Self)
        ensures
            r.0 == self.0 | other.0,
    {
        OpinionDeedType(self.0 | other.0)
    }

    /// The flag a C++ enumerator symbol names.
    pub fn from_symbol(s: &str) -> (r: Option<Self>)
        ensures
            r == Self::symbol_lookup(s@),
    {
        if str_eq(s, "OPINION_DEED_TYPE_NONE") {
            return Some(OpinionDeedType(0i32));
        }
        if str_eq(s, "OPINION_DEED_TYPE_CRIME_WEAPON_OUT") {
            return Some(OpinionDeedType(1i32));
        }
        if str_eq(s, "OPINION_DEED_TYPE_CRIME_TRESPASS_THIRD") {
            return Some(OpinionDeedType(2i32));
        }
        if str_eq(s, "OPINION_DEED_TYPE_CRIME_VANDALISM") {
            return Some(OpinionDeedType(3i32));
        }
        if str_eq(s, "OPINION_DEED_TYPE_CRIME_LOCKPICKING") {
            return Some(OpinionDeedType(4i32));
        }
        if str_eq(s, "OPINION_DEED_TYPE_CRIME_PICK_POCKETS") {
            return Some(OpinionDeedType(5i32));
        }
        if str_eq(s, "OPINION_DEED_TYPE_CRIME_THEFT") {
            return Some(OpinionDeedType(6i32));
        }
        if str_eq(s, "OPINION_DEED_TYPE_CRIME_ASSAULT") {
            return Some(OpinionDeedType(7i32));
        }
        if str_eq(s, "OPINION_DEED_TYPE_CRIME_GBH") {
            return Some(OpinionDeedType(8i32));
        }
        if str_eq(s, "OPINION_DEED_TYPE_CRIME_MURDER") {
            return Some(OpinionDeedType(9i32));
        }
        if str_eq(s, "OPINION_DEED_TYPE_CRIME_TRESPASS_FIRST") {
            return Some(OpinionDeedType(10i32));
        }
        if str_eq(s, "OPINION_DEED_TYPE_CRIME_TRESPASS_SECOND") {
            return Some(OpinionDeedType(11i32));
        }
        if str_eq(s, "OPINION_DEED_TYPE_EXPRESSION_HEROIC_STANCE") {
            return Some(OpinionDeedType(12i32));
        }
        if str_eq(s, "OPINION_DEED_TYPE_EXPRESSION_FLIRT") {
            return Some(OpinionDeedType(13i32));
        }
        if str_eq(s, "OPINION_DEED_TYPE_EXPRESSION_APOLOGY_NO_CRIME") {
            return Some(OpinionDeedType(14i32));
        }
        if str_eq(s, "OPINION_DEED_TYPE_EXPRESSION_SNEER") {
            return Some(OpinionDeedType(15i32));
        }
        if str_eq(s, "OPINION_DEED_TYPE_EXPRESSION_EVIL_LAUGH") {
            return Some(OpinionDeedType(16i32));
        }
        if str_eq(s, "OPINION_DEED_TYPE_EXPRESSION_BATTLE_CRY") {
            return Some(OpinionDeedType(17i32));
        }
        if str_eq(s, "OPINION_DEED_TYPE_EXPRESSION_PELVIC_THRUST") {
            return Some(OpinionDeedType(18i32));
        }
        if str_eq(s, "OPINION_DEED_TYPE_EXPRESSION_MIDDLE_FINGER") {
            return Some(OpinionDeedType(19i32));
        }
        if str_eq(s, "OPINION_DEED_TYPE_EXPRESSION_BELCH") {
            return Some(OpinionDeedType(20i32));
        }
        if str_eq(s, "OPINION_DEED_TYPE_EXPRESSION_FART") {
            return Some(OpinionDeedType(21i32));
        }
        if str_eq(s, "OPINION_DEED_TYPE_EXPRESSION_VICTORY_PUMP") {
            return Some(OpinionDeedType(22i32));
        }
        if str_eq(s, "OPINION_DEED_TYPE_EXPRESSION_CLAP") {
            return Some(OpinionDeedType(23i32));
        }
        if str_eq(s, "OPINION_DEED_TYPE_EXPRESSION_GIGGLE") {
            return Some(OpinionDeedType(24i32));
        }
        if str_eq(s, "OPINION_DEED_TYPE_EXPRESSION_SHIT") {
            return Some(OpinionDeedType(25i32));
        }
        if str_eq(s, "OPINION_DEED_TYPE_EXPRESSION_THANKS") {
            return Some(OpinionDeedType(26i32));
        }
        if str_eq(s, "OPINION_DEED_TYPE_EXPRESSION_COCK_A_DOODLE_DO") {
            return Some(OpinionDeedType(27i32));
        }
        if str_eq(s, "OPINION_DEED_TYPE_EXPRESSION_CROTCH_GRAB") {
            return Some(OpinionDeedType(28i32));
        }
        if str_eq(s, "OPINION_DEED_TYPE_EXPRESSION_KISS_MY_ASS") {
            return Some(OpinionDeedType(29i32));
        }
        if str_eq(s, "OPINION_DEED_TYPE_EXPRESSION_FLAMENCO") {
            return Some(OpinionDeedType(30i32));
        }
        if str_eq(s, "OPINION_DEED_TYPE_EXPRESSION_COSSACK") {
            return Some(OpinionDeedType(31i32));
        }
        if str_eq(s, "OPINION_DEED_TYPE_EXPRESSION_AIR_GUITAR") {
            return Some(OpinionDeedType(32i32));
        }
        if str_eq(s, "OPINION_DEED_TYPE_EXPRESSION_BALLET") {
            return Some(OpinionDeedType(33i32));
        }
        if str_eq(s, "OPINION_DEED_TYPE_EXPRESSION_SATURDAY_NIGHT_FEVER") {
            return Some(OpinionDeedType(34i32));
        }
        if str_eq(s, "OPINION_DEED_TYPE_EXPRESSION_TAP") {
            return Some(OpinionDeedType(35i32));
        }
        if str_eq(s, "OPINION_DEED_TYPE_EXPRESSION_Y") {
            return Some(OpinionDeedType(36i32));
        }
        if str_eq(s, "OPINION_DEED_TYPE_EXPRESSION_M") {
            return Some(OpinionDeedType(37i32));
        }
        if str_eq(s, "OPINION_DEED_TYPE_EXPRESSION_C") {
            return Some(OpinionDeedType(38i32));
        }
        if str_eq(s, "OPINION_DEED_TYPE_EXPRESSION_A") {
            return Some(OpinionDeedType(39i32));
        }
        if str_eq(s, "OPINION_DEED_TYPE_EXPRESSION_THREATEN_SMALL") {
            return Some(OpinionDeedType(40i32));
        }
        if str_eq(s, "OPINION_DEED_TYPE_EXPRESSION_THREATEN_LARGE") {
            return Some(OpinionDeedType(41i32));
        }
        if str_eq(s, "OPINION_DEED_TYPE_SCRIPT_ACTION_ANNOYING_SMALL") {
            return Some(OpinionDeedType(42i32));
        }
        if str_eq(s, "OPINION_DEED_TYPE_SCRIPT_ACTION_ANNOYING_LARGE") {
            return Some(OpinionDeedType(43i32));
        }
        if str_eq(s, "OPINION_DEED_TYPE_SCRIPT_ACTION_NICE_SMALL") {
            return Some(OpinionDeedType(44i32));
        }
        if str_eq(s, "OPINION_DEED_TYPE_SCRIPT_ACTION_NICE_LARGE") {
            return Some(OpinionDeedType(45i32));
        }
        if str_eq(s, "OPINION_DEED_TYPE_FOLLOWER_ACCEPT") {
            return Some(OpinionDeedType(46i32));
        }
        if str_eq(s, "OPINION_DEED_TYPE_FOLLOWER_REFUSE") {
            return Some(OpinionDeedType(47i32));
        }
        if str_eq(s, "OPINION_DEED_TYPE_FOLLOWER_DISMISSED") {
            return Some(OpinionDeedType(48i32));
        }
        if str_eq(s, "OPINION_DEED_TYPE_FOLLOWER_QUIT") {
            return Some(OpinionDeedType(49i32));
        }
        if str_eq(s, "OPINION_DEED_TYPE_FOLLOWER_ENEMYSPOTTED") {
            return Some(OpinionDeedType(50i32));
        }
        if str_eq(s, "OPINION_DEED_TYPE_FOLLOWER_IDLEEXCITED") {
            return Some(OpinionDeedType(51i32));
        }
        if str_eq(s, "OPINION_DEED_TYPE_FOLLOWER_IDLEBORED") {
            return Some(OpinionDeedType(52i32));
        }
        if str_eq(s, "OPINION_DEED_TYPE_WITNESSED_ASSAULT_OR_GBH") {
            return Some(OpinionDeedType(53i32));
        }
        if str_eq(s, "OPINION_DEED_TYPE_TOO_FREQUENT_OTHER_DEED") {
            return Some(OpinionDeedType(54i32));
        }
        if str_eq(s, "OPINION_DEED_TYPE_SHOW_TROPHY_EVIL") {
            return Some(OpinionDeedType(55i32));
        }
        if str_eq(s, "OPINION_DEED_TYPE_SHOW_TROPHY_GOOD") {
            return Some(OpinionDeedType(56i32));
        }
        if str_eq(s, "OPINION_DEED_TYPE_SHOW_TROPHY_BORED") {
            return Some(OpinionDeedType(57i32));
        }
        if str_eq(s, "OPINION_DEED_TYPE_KILL_BAD_GUY") {
            return Some(OpinionDeedType(58i32));
        }
        if str_eq(s, "OPINION_DEED_TYPE_MURDER_SPOUSE") {
            return Some(OpinionDeedType(59i32));
        }
        if str_eq(s, "OPINION_DEED_TYPE_RECEIVE_GIFT_ROMANTIC") {
            return Some(OpinionDeedType(60i32));
        }
        if str_eq(s, "OPINION_DEED_TYPE_RECEIVE_GIFT_FRIENDLY") {
            return Some(OpinionDeedType(61i32));
        }
        if str_eq(s, "OPINION_DEED_TYPE_RECEIVE_GIFT_OFFENSIVE") {
            return Some(OpinionDeedType(62i32));
        }
        if str_eq(s, "OPINION_DEED_TYPE_RECEIVE_WEDDING_RING") {
            return Some(OpinionDeedType(63i32));
        }
        if str_eq(s, "OPINION_DEED_TYPE_BOAST_ANTICIPATION") {
            return Some(OpinionDeedType(64i32));
        }
        if str_eq(s, "OPINION_DEED_TYPE_BOAST_ENCOURAGE_FIRST") {
            return Some(OpinionDeedType(65i32));
        }
        if str_eq(s, "OPINION_DEED_TYPE_BOAST_ENCOURAGE_MIDDLE") {
            return Some(OpinionDeedType(66i32));
        }
        if str_eq(s, "OPINION_DEED_TYPE_BOAST_ENCOURAGE_FINAL") {
            return Some(OpinionDeedType(67i32));
        }
        if str_eq(s, "OPINION_DEED_TYPE_BOAST_WELL_WISHES") {
            return Some(OpinionDeedType(68i32));
        }
        if str_eq(s, "OPINION_DEED_TYPE_BOAST_ANNOYED_NO_BOASTING") {
            return Some(OpinionDeedType(69i32));
        }
        if str_eq(s, "OPINION_DEED_TYPE_COMMENT_AT_HERO") {
            return Some(OpinionDeedType(70i32));
        }
        if str_eq(s, "OPINION_DEED_TYPE_COMMENT_TO_SELF") {
            return Some(OpinionDeedType(71i32));
        }
        if str_eq(s, "OPINION_DEED_TYPE_COMMENT_ABOUT_HERO") {
            return Some(OpinionDeedType(72i32));
        }
        if str_eq(s, "OPINION_DEED_TYPE_GENERIC_INCOMPREHENSION") {
            return Some(OpinionDeedType(73i32));
        }
        if str_eq(s, "OPINION_DEED_TYPE_HIGH_PRIORITY_INCOMPREHENSION") {
            return Some(OpinionDeedType(74i32));
        }
        if str_eq(s, "OPINION_DEED_TYPE_HUSBAND_RAGE") {
            return Some(OpinionDeedType(75i32));
        }
        if str_eq(s, "OPINION_DEED_TYPE_TAVERN_GAME_WIN") {
            return Some(OpinionDeedType(76i32));
        }
        if str_eq(s, "OPINION_DEED_TYPE_INDOORS_GREETING") {
            return Some(OpinionDeedType(77i32));
        }
        if str_eq(s, "OPINION_DEED_TYPE_APOLOGY_ACCEPTED") {
            return Some(OpinionDeedType(78i32));
        }
        if str_eq(s, "OPINION_DEED_TYPE_APOLOGY_REFUSED") {
            return Some(OpinionDeedType(79i32));
        }
        if str_eq(s, "OPINION_DEED_TYPE_WIFE_GREETED") {
            return Some(OpinionDeedType(80i32));
        }
        if str_eq(s, "OPINION_DEED_TYPE_WIFE_TIME_SINCE_SEEING") {
            return Some(OpinionDeedType(81i32));
        }
        if str_eq(s, "OPINION_DEED_TYPE_WIFE_GIFT_RECEIVE_ALREADY_GOT") {
            return Some(OpinionDeedType(82i32));
        }
        if str_eq(s, "OPINION_DEED_TYPE_WIFE_JUSTMARRIED") {
            return Some(OpinionDeedType(83i32));
        }
        if str_eq(s, "OPINION_DEED_TYPE_WIFE_GIFT_WANTED") {
            return Some(OpinionDeedType(84i32));
        }
        if str_eq(s, "OPINION_DEED_TYPE_WIFE_WITNESSED_FLIRT") {
            return Some(OpinionDeedType(85i32));
        }
        if str_eq(s, "OPINION_DEED_TYPE_WIFE_HOUSE_DRESSING_GOOD") {
            return Some(OpinionDeedType(86i32));
        }
        if str_eq(s, "OPINION_DEED_TYPE_WIFE_HOUSE_DRESSING_BAD") {
            return Some(OpinionDeedType(87i32));
        }
        if str_eq(s, "OPINION_DEED_TYPE_WIFE_DIVORCE_WARNING") {
            return Some(OpinionDeedType(88i32));
        }
        if str_eq(s, "OPINION_DEED_TYPE_WIFE_DIVORCE_OCCURRED") {
            return Some(OpinionDeedType(89i32));
        }
        if str_eq(s, "OPINION_DEED_TYPE_WIFE_SEX_OFFER_TO_GO_TO_BED") {
            return Some(OpinionDeedType(90i32));
        }
        if str_eq(s, "OPINION_DEED_TYPE_WIFE_SEX_COMMENT_AFTERWARDS") {
            return Some(OpinionDeedType(91i32));
        }
        if str_eq(s, "OPINION_DEED_TYPE_LAST") {
            return Some(OpinionDeedType(92i32));
        }
        None
    }
}

impl core::ops::BitOr for OpinionDeedType {
    type Output = OpinionDeedType;

    fn bitor(self, rhs: OpinionDeedType) -> (r: OpinionDeedType) {
        OpinionDeedType(self.0 | rhs.0)
    }
}

impl vstd::std_specs::ops::BitOrSpecImpl for OpinionDeedType {
    open spec fn obeys_bitor_spec() -> bool {
        true
    }

    open spec fn bitor_req(self, rhs: OpinionDeedType) -> bool {
        true
    }

    open spec fn bitor_spec(self, rhs: OpinionDeedType) -> OpinionDeedType {
        OpinionDeedType(self.0 | rhs.0)
    }
}

#[derive(Debug, Clone, Copy, PartialEq, Eq, Structural, PartialOrd, Ord, Hash, Default)]
pub struct OpinionReactionType(pub i32);

impl OpinionReactionType {
    /// The bits of `OPINION_REACTION_TYPE_NONE`.
    pub const NONE: i32 = 0i32;
    /// The bits of `OPINION_REACTION_TYPE_ATTITUDE_RESPECT`.
    pub const ATTITUDE_RESPECT: i32 = 1i32;
    /// The bits of `OPINION_REACTION_TYPE_ATTITUDE_AWE`.
    pub const ATTITUDE_AWE: i32 = 2i32;
    /// The bits of `OPINION_REACTION_TYPE_ATTITUDE_DISDAIN`.
    pub const ATTITUDE_DISDAIN: i32 = 3i32;
    /// The bits of `OPINION_REACTION_TYPE_ATTITUDE_FEAR`.
    pub const ATTITUDE_FEAR: i32 = 4i32;
    /// The bits of `OPINION_REACTION_TYPE_ATTITUDE_FRIENDLINESS`.
    pub const ATTITUDE_FRIENDLINESS: i32 = 5i32;
    /// The bits of `OPINION_REACTION_TYPE_ATTITUDE_WORSHIP`.
    pub const ATTITUDE_WORSHIP: i32 = 6i32;
    /// The bits of `OPINION_REACTION_TYPE_ATTITUDE_RIDICULOUS`.
    pub const ATTITUDE_RIDICULOUS: i32 = 7i32;
    /// The bits of `OPINION_REACTION_TYPE_ATTITUDE_OFFENSIVE`.
    pub const ATTITUDE_OFFENSIVE: i32 = 8i32;
    /// The bits of `OPINION_REACTION_TYPE_ATTITUDE_AGREEABLE`.
    pub const ATTITUDE_AGREEABLE: i32 = 9i32;
    /// The bits of `OPINION_REACTION_TYPE_ATTITUDE_UGLY`.
    pub const ATTITUDE_UGLY: i32 = 10i32;
    /// The bits of `OPINION_REACTION_TYPE_ATTITUDE_ATTRACTED`.
    pub const ATTITUDE_ATTRACTED: i32 = 11i32;
    /// The bits of `OPINION_REACTION_TYPE_ATTITUDE_LOVE`.
    pub const ATTITUDE_LOVE: i32 = 12i32;
    /// The bits of `OPINION_REACTION_TYPE_ATTITUDE_WIFE_LOVE`.
    pub const ATTITUDE_WIFE_LOVE: i32 = 13i32;
    /// The bits of `OPINION_REACTION_TYPE_ATTITUDE_WIFE_LIKE`.
    pub const ATTITUDE_WIFE_LIKE: i32 = 14i32;
    /// The bits of `OPINION_REACTION_TYPE_ATTITUDE_WIFE_NEUTRAL`.
    pub const ATTITUDE_WIFE_NEUTRAL: i32 = 15i32;
    /// The bits of `OPINION_REACTION_TYPE_ATTITUDE_WIFE_DISLIKE`.
    pub const ATTITUDE_WIFE_DISLIKE: i32 = 16i32;
    /// The bits of `OPINION_REACTION_TYPE_ATTITUDE_WIFE_HATE`.
    pub const ATTITUDE_WIFE_HATE: i32 = 17i32;
    /// The bits of `OPINION_REACTION_TYPE_ANGRY_POINT`.
    pub const ANGRY_POINT: i32 = 18i32;
    /// The bits of `OPINION_REACTION_TYPE_BACK_AWAY`.
    pub const BACK_AWAY: i32 = 19i32;
    /// The bits of `OPINION_REACTION_TYPE_BELLY_LAUGH`.
    pub const BELLY_LAUGH: i32 = 20i32;
    /// The bits of `OPINION_REACTION_TYPE_BOO`.
    pub const BOO: i32 = 21i32;
    /// The bits of `OPINION_REACTION_TYPE_BOWING_LARGE`.
    pub const BOWING_LARGE: i32 = 22i32;
    /// The bits of `OPINION_REACTION_TYPE_BOWING_SMALL`.
    pub const BOWING_SMALL: i32 = 23i32;
    /// The bits of `OPINION_REACTION_TYPE_CALLING_CHILDREN`.
    pub const CALLING_CHILDREN: i32 = 24i32;
    /// The bits of `OPINION_REACTION_TYPE_CHEER_LARGE`.
    pub const CHEER_LARGE: i32 = 25i32;
    /// The bits of `OPINION_REACTION_TYPE_CHEER_SMALL`.
    pub const CHEER_SMALL: i32 = 26i32;
    /// The bits of `OPINION_REACTION_TYPE_CLAP_LARGE`.
    pub const CLAP_LARGE: i32 = 27i32;
    /// The bits of `OPINION_REACTION_TYPE_CLAP_SMALL`.
    pub const CLAP_SMALL: i32 = 28i32;
    /// The bits of `OPINION_REACTION_TYPE_COMMENT_ABOUT_HERO`.
    pub const COMMENT_ABOUT_HERO: i32 = 29i32;
    /// The bits of `OPINION_REACTION_TYPE_COMMENT_AT_HERO`.
    pub const COMMENT_AT_HERO: i32 = 30i32;
    /// The bits of `OPINION_REACTION_TYPE_COMMENT_TO_SELF`.
    pub const COMMENT_TO_SELF: i32 = 31i32;
    /// The bits of `OPINION_REACTION_TYPE_COWER`.
    pub const COWER: i32 = 32i32;
    /// The bits of `OPINION_REACTION_TYPE_DISMISS`.
    pub const DISMISS: i32 = 33i32;
    /// The bits of `OPINION_REACTION_TYPE_FLEE`.
    pub const FLEE: i32 = 34i32;
    /// The bits of `OPINION_REACTION_TYPE_FOLLOW_CLOSE`.
    pub const FOLLOW_CLOSE: i32 = 35i32;
    /// The bits of `OPINION_REACTION_TYPE_FOLLOW_FAR`.
    pub const FOLLOW_FAR: i32 = 36i32;
    /// The bits of `OPINION_REACTION_TYPE_FRIENDLY_GREET`.
    pub const FRIENDLY_GREET: i32 = 37i32;
    /// The bits of `OPINION_REACTION_TYPE_GET_OUT`.
    pub const GET_OUT: i32 = 38i32;
    /// The bits of `OPINION_REACTION_TYPE_GROVEL_LARGE`.
    pub const GROVEL_LARGE: i32 = 39i32;
    /// The bits of `OPINION_REACTION_TYPE_GROVEL_SMALL`.
    pub const GROVEL_SMALL: i32 = 40i32;
    /// The bits of `OPINION_REACTION_TYPE_HERO_IMITATION_PLAY`.
    pub const HERO_IMITATION_PLAY: i32 = 41i32;
    /// The bits of `OPINION_REACTION_TYPE_HEROTITLE_AT_HERO`.
    pub const HEROTITLE_AT_HERO: i32 = 42i32;
    /// The bits of `OPINION_REACTION_TYPE_HEROTITLE_TO_SELF`.
    pub const HEROTITLE_TO_SELF: i32 = 43i32;
    /// The bits of `OPINION_REACTION_TYPE_HIDE`.
    pub const HIDE: i32 = 44i32;
    /// The bits of `OPINION_REACTION_TYPE_MARRIAGE_COMMENT`.
    pub const MARRIAGE_COMMENT: i32 = 45i32;
    /// The bits of `OPINION_REACTION_TYPE_OFFER_GIFT_FRIENDLY`.
    pub const OFFER_GIFT_FRIENDLY: i32 = 46i32;
    /// The bits of `OPINION_REACTION_TYPE_OFFER_GIFT_WORSHIP`.
    pub const OFFER_GIFT_WORSHIP: i32 = 47i32;
    /// The bits of `OPINION_REACTION_TYPE_PICK_FIGHT`.
    pub const PICK_FIGHT: i32 = 48i32;
    /// The bits of `OPINION_REACTION_TYPE_POINT`.
    pub const POINT: i32 = 49i32;
    /// The bits of `OPINION_REACTION_TYPE_POINT_LAUGH`.
    pub const POINT_LAUGH: i32 = 50i32;
    /// The bits of `OPINION_REACTION_TYPE_RESPECTFUL_GREET`.
    pub const RESPECTFUL_GREET: i32 = 51i32;
    /// The bits of `OPINION_REACTION_TYPE_SHAKE_FIST`.
    pub const SHAKE_FIST: i32 = 52i32;
    /// The bits of `OPINION_REACTION_TYPE_SHOUT_AWE`.
    pub const SHOUT_AWE: i32 = 53i32;
    /// The bits of `OPINION_REACTION_TYPE_SNIGGER`.
    pub const SNIGGER: i32 = 54i32;
    /// The bits of `OPINION_REACTION_TYPE_THUMBS_DOWN`.
    pub const THUMBS_DOWN: i32 = 55i32;
    /// The bits of `OPINION_REACTION_TYPE_WATCH`.
    pub const WATCH: i32 = 56i32;
    /// The bits of `OPINION_REACTION_TYPE_WIFE_FEELING_LOVE`.
    pub const WIFE_FEELING_LOVE: i32 = 57i32;
    /// The bits of `OPINION_REACTION_TYPE_WIFE_FIRST`.
    pub const WIFE_FIRST: i32 = 57i32;
    /// The bits of `OPINION_REACTION_TYPE_WIFE_GENERAL_LOVE`.
    pub const WIFE_GENERAL_LOVE: i32 = 58i32;
    /// The bits of `OPINION_REACTION_TYPE_WIFE_TOHERSELF_LOVE`.
    pub const WIFE_TOHERSELF_LOVE: i32 = 59i32;
    /// The bits of `OPINION_REACTION_TYPE_WIFE_CLOTHING_LOVE`.
    pub const WIFE_CLOTHING_LOVE: i32 = 60i32;
    /// The bits of `OPINION_REACTION_TYPE_WIFE_FEELING_LIKE`.
    pub const WIFE_FEELING_LIKE: i32 = 61i32;
    /// The bits of `OPINION_REACTION_TYPE_WIFE_GENERAL_LIKE`.
    pub const WIFE_GENERAL_LIKE: i32 = 62i32;
    /// The bits of `OPINION_REACTION_TYPE_WIFE_TOHERSELF_LIKE`.
    pub const WIFE_TOHERSELF_LIKE: i32 = 63i32;
    /// The bits of `OPINION_REACTION_TYPE_WIFE_CLOTHING_LIKE`.
    pub const WIFE_CLOTHING_LIKE: i32 = 64i32;
    /// The bits of `OPINION_REACTION_TYPE_WIFE_FEELING_NEUTRAL`.
    pub const WIFE_FEELING_NEUTRAL: i32 = 65i32;
    /// The bits of `OPINION_REACTION_TYPE_WIFE_GENERAL_NEUTRAL`.
    pub const WIFE_GENERAL_NEUTRAL: i32 = 66i32;
    /// The bits of `OPINION_REACTION_TYPE_WIFE_TOHERSELF_NEUTRAL`.
    pub const WIFE_TOHERSELF_NEUTRAL: i32 = 67i32;
    /// The bits of `OPINION_REACTION_TYPE_WIFE_CLOTHING_NEUTRAL`.
    pub const WIFE_CLOTHING_NEUTRAL: i32 = 68i32;
    /// The bits of `OPINION_REACTION_TYPE_WIFE_FEELING_DISLIKE`.
    pub const WIFE_FEELING_DISLIKE: i32 = 69i32;
    /// The bits of `OPINION_REACTION_TYPE_WIFE_GENERAL_DISLIKE`.
    pub const WIFE_GENERAL_DISLIKE: i32 = 70i32;
    /// The bits of `OPINION_REACTION_TYPE_WIFE_TOHERSELF_DISLIKE`.
    pub const WIFE_TOHERSELF_DISLIKE: i32 = 71i32;
    /// The bits of `OPINION_REACTION_TYPE_WIFE_CLOTHING_DISLIKE`.
    pub const WIFE_CLOTHING_DISLIKE: i32 = 72i32;
    /// The bits of `OPINION_REACTION_TYPE_WIFE_FEELING_HATE`.
    pub const WIFE_FEELING_HATE: i32 = 73i32;
    /// The bits of `OPINION_REACTION_TYPE_WIFE_GENERAL_HATE`.
    pub const WIFE_GENERAL_HATE: i32 = 74i32;
    /// The bits of `OPINION_REACTION_TYPE_WIFE_TOHERSELF_HATE`.
    pub const WIFE_TOHERSELF_HATE: i32 = 75i32;
    /// The bits of `OPINION_REACTION_TYPE_WIFE_CLOTHING_HATE`.
    pub const WIFE_CLOTHING_HATE: i32 = 76i32;
    /// The bits of `OPINION_REACTION_TYPE_WIFE_JUSTMARRIED`.
    pub const WIFE_JUSTMARRIED: i32 = 77i32;
    /// The bits of `OPINION_REACTION_TYPE_WIFE_GIFT_WANTED`.
    pub const WIFE_GIFT_WANTED: i32 = 78i32;
    /// The bits of `OPINION_REACTION_TYPE_LAST`.
    pub const LAST: i32 = 79i32;
    /// The bits of `OPINION_REACTION_TYPE_WIFE_LAST`.
    pub const WIFE_LAST: i32 = 79i32;

    /// The flag a C++ enumerator symbol names, if any.
    pub open spec fn symbol_lookup(s: Seq<char>) -> Option<Self> {
        if s == "OPINION_REACTION_TYPE_NONE"@ {
            Some(OpinionReactionType(0i32))
        } else if s == "OPINION_REACTION_TYPE_ATTITUDE_RESPECT"@ {
            Some(OpinionReactionType(1i32))
        } else if s == "OPINION_REACTION_TYPE_ATTITUDE_AWE"@ {
            Some(OpinionReactionType(2i32))
        } else if s == "OPINION_REACTION_TYPE_ATTITUDE_DISDAIN"@ {
            Some(OpinionReactionType(3i32))
        } else if s == "OPINION_REACTION_TYPE_ATTITUDE_FEAR"@ {
            Some(OpinionReactionType(4i32))
        } else if s == "OPINION_REACTION_TYPE_ATTITUDE_FRIENDLINESS"@ {
            Some(OpinionReactionType(5i32))
        } else if s == "OPINION_REACTION_TYPE_ATTITUDE_WORSHIP"@ {
            Some(OpinionReactionType(6i32))
        } else if s == "OPINION_REACTION_TYPE_ATTITUDE_RIDICULOUS"@ {
            Some(OpinionReactionType(7i32))
        } else if s == "OPINION_REACTION_TYPE_ATTITUDE_OFFENSIVE"@ {
            Some(OpinionReactionType(8i32))
        } else if s == "OPINION_REACTION_TYPE_ATTITUDE_AGREEABLE"@ {
            Some(OpinionReactionType(9i32))
        } else if s == "OPINION_REACTION_TYPE_ATTITUDE_UGLY"@ {
            Some(OpinionReactionType(10i32))
        } else if s == "OPINION_REACTION_TYPE_ATTITUDE_ATTRACTED"@ {
            Some(OpinionReactionType(11i32))
        } else if s == "OPINION_REACTION_TYPE_ATTITUDE_LOVE"@ {
            Some(OpinionReactionType(12i32))
        } else if s == "OPINION_REACTION_TYPE_ATTITUDE_WIFE_LOVE"@ {
            Some(OpinionReactionType(13i32))
        } else if s == "OPINION_REACTION_TYPE_ATTITUDE_WIFE_LIKE"@ {
            Some(OpinionReactionType(14i32))
        } else if s == "OPINION_REACTION_TYPE_ATTITUDE_WIFE_NEUTRAL"@ {
            Some(OpinionReactionType(15i32))
        } else if s == "OPINION_REACTION_TYPE_ATTITUDE_WIFE_DISLIKE"@ {
            Some(OpinionReactionType(16i32))
        } else if s == "OPINION_REACTION_TYPE_ATTITUDE_WIFE_HATE"@ {
            Some(OpinionReactionType(17i32))
        } else if s == "OPINION_REACTION_TYPE_ANGRY_POINT"@ {
            Some(OpinionReactionType(18i32))
        } else if s == "OPINION_REACTION_TYPE_BACK_AWAY"@ {
            Some(OpinionReactionType(19i32))
        } else if s == "OPINION_REACTION_TYPE_BELLY_LAUGH"@ {
            Some(OpinionReactionType(20i32))
        } else if s == "OPINION_REACTION_TYPE_BOO"@ {
            Some(OpinionReactionType(21i32))
        } else if s == "OPINION_REACTION_TYPE_BOWING_LARGE"@ {
            Some(OpinionReactionType(22i32))
        } else if s == "OPINION_REACTION_TYPE_BOWING_SMALL"@ {
            Some(OpinionReactionType(23i32))
        } else if s == "OPINION_REACTION_TYPE_CALLING_CHILDREN"@ {
            Some(OpinionReactionType(24i32))
        } else if s == "OPINION_REACTION_TYPE_CHEER_LARGE"@ {
            Some(OpinionReactionType(25i32))
        } else if s == "OPINION_REACTION_TYPE_CHEER_SMALL"@ {
            Some(OpinionReactionType(26i32))
        } else if s == "OPINION_REACTION_TYPE_CLAP_LARGE"@ {
            Some(OpinionReactionType(27i32))
        } else if s == "OPINION_REACTION_TYPE_CLAP_SMALL"@ {
            Some(OpinionReactionType(28i32))
        } else if s == "OPINION_REACTION_TYPE_COMMENT_ABOUT_HERO"@ {
            Some(OpinionReactionType(29i32))
        } else if s == "OPINION_REACTION_TYPE_COMMENT_AT_HERO"@ {
            Some(OpinionReactionType(30i32))
        } else if s == "OPINION_REACTION_TYPE_COMMENT_TO_SELF"@ {
            Some(OpinionReactionType(31i32))
        } else if s == "OPINION_REACTION_TYPE_COWER"@ {
            Some(OpinionReactionType(32i32))
        } else if s == "OPINION_REACTION_TYPE_DISMISS"@ {
            Some(OpinionReactionType(33i32))
        } else if s == "OPINION_REACTION_TYPE_FLEE"@ {
            Some(OpinionReactionType(34i32))
        } else if s == "OPINION_REACTION_TYPE_FOLLOW_CLOSE"@ {
            Some(OpinionReactionType(35i32))
        } else if s == "OPINION_REACTION_TYPE_FOLLOW_FAR"@ {
            Some(OpinionReactionType(36i32))
        } else if s == "OPINION_REACTION_TYPE_FRIENDLY_GREET"@ {
            Some(OpinionReactionType(37i32))
        } else if s == "OPINION_REACTION_TYPE_GET_OUT"@ {
            Some(OpinionReactionType(38i32))
        } else if s == "OPINION_REACTION_TYPE_GROVEL_LARGE"@ {
            Some(OpinionReactionType(39i32))
        } else if s == "OPINION_REACTION_TYPE_GROVEL_SMALL"@ {
            Some(OpinionReactionType(40i32))
        } else if s == "OPINION_REACTION_TYPE_HERO_IMITATION_PLAY"@ {
            Some(OpinionReactionType(41i32))
        } else if s == "OPINION_REACTION_TYPE_HEROTITLE_AT_HERO"@ {
            Some(OpinionReactionType(42i32))
        } else if s == "OPINION_REACTION_TYPE_HEROTITLE_TO_SELF"@ {
            Some(OpinionReactionType(43i32))
        } else if s == "OPINION_REACTION_TYPE_HIDE"@ {
            Some(OpinionReactionType(44i32))
        } else if s == "OPINION_REACTION_TYPE_MARRIAGE_COMMENT"@ {
            Some(OpinionReactionType(45i32))
        } else if s == "OPINION_REACTION_TYPE_OFFER_GIFT_FRIENDLY"@ {
            Some(OpinionReactionType(46i32))
        } else if s == "OPINION_REACTION_TYPE_OFFER_GIFT_WORSHIP"@ {
            Some(OpinionReactionType(47i32))
        } else if s == "OPINION_REACTION_TYPE_PICK_FIGHT"@ {
            Some(OpinionReactionType(48i32))
        } else if s == "OPINION_REACTION_TYPE_POINT"@ {
            Some(OpinionReactionType(49i32))
        } else if s == "OPINION_REACTION_TYPE_POINT_LAUGH"@ {
            Some(OpinionReactionType(50i32))
        } else if s == "OPINION_REACTION_TYPE_RESPECTFUL_GREET"@ {
            Some(OpinionReactionType(51i32))
        } else if s == "OPINION_REACTION_TYPE_SHAKE_FIST"@ {
            Some(OpinionReactionType(52i32))
        } else if s == "OPINION_REACTION_TYPE_SHOUT_AWE"@ {
            Some(OpinionReactionType(53i32))
        } else if s == "OPINION_REACTION_TYPE_SNIGGER"@ {
            Some(OpinionReactionType(54i32))
        } else if s == "OPINION_REACTION_TYPE_THUMBS_DOWN"@ {
            Some(OpinionReactionType(55i32))
        } else if s == "OPINION_REACTION_TYPE_WATCH"@ {
            Some(OpinionReactionType(56i32))
        } else if s == "OPINION_REACTION_TYPE_WIFE_FEELING_LOVE"@ {
            Some(OpinionReactionType(57i32))
        } else if s == "OPINION_REACTION_TYPE_WIFE_FIRST"@ {
            Some(OpinionReactionType(57i32))
        } else if s == "OPINION_REACTION_TYPE_WIFE_GENERAL_LOVE"@ {
            Some(OpinionReactionType(58i32))
        } else if s == "OPINION_REACTION_TYPE_WIFE_TOHERSELF_LOVE"@ {
            Some(OpinionReactionType(59i32))
        } else if s == "OPINION_REACTION_TYPE_WIFE_CLOTHING_LOVE"@ {
            Some(OpinionReactionType(60i32))
        } else if s == "OPINION_REACTION_TYPE_WIFE_FEELING_LIKE"@ {
            Some(OpinionReactionType(61i32))
        } else if s == "OPINION_REACTION_TYPE_WIFE_GENERAL_LIKE"@ {
            Some(OpinionReactionType(62i32))
        } else if s == "OPINION_REACTION_TYPE_WIFE_TOHERSELF_LIKE"@ {
            Some(OpinionReactionType(63i32))
        } else if s == "OPINION_REACTION_TYPE_WIFE_CLOTHING_LIKE"@ {
            Some(OpinionReactionType(64i32))
        } else if s == "OPINION_REACTION_TYPE_WIFE_FEELING_NEUTRAL"@ {
            Some(OpinionReactionType(65i32))
        } else if s == "OPINION_REACTION_TYPE_WIFE_GENERAL_NEUTRAL"@ {
            Some(OpinionReactionType(66i32))
        } else if s == "OPINION_REACTION_TYPE_WIFE_TOHERSELF_NEUTRAL"@ {
            Some(OpinionReactionType(67i32))
        } else if s == "OPINION_REACTION_TYPE_WIFE_CLOTHING_NEUTRAL"@ {
            Some(OpinionReactionType(68i32))
        } else if s == "OPINION_REACTION_TYPE_WIFE_FEELING_DISLIKE"@ {
            Some(OpinionReactionType(69i32))
        } else if s == "OPINION_REACTION_TYPE_WIFE_GENERAL_DISLIKE"@ {
            Some(OpinionReactionType(70i32))
        } else if s == "OPINION_REACTION_TYPE_WIFE_TOHERSELF_DISLIKE"@ {
            Some(OpinionReactionType(71i32))
        } else if s == "OPINION_REACTION_TYPE_WIFE_CLOTHING_DISLIKE"@ {
            Some(OpinionReactionType(72i32))
        } else if s == "OPINION_REACTION_TYPE_WIFE_FEELING_HATE"@ {
            Some(OpinionReactionType(73i32))
        } else if s == "OPINION_REACTION_TYPE_WIFE_GENERAL_HATE"@ {
            Some(OpinionReactionType(74i32))
        } else if s == "OPINION_REACTION_TYPE_WIFE_TOHERSELF_HATE"@ {
            Some(OpinionReactionType(75i32))
        } else if s == "OPINION_REACTION_TYPE_WIFE_CLOTHING_HATE"@ {
            Some(OpinionReactionType(76i32))
        } else if s == "OPINION_REACTION_TYPE_WIFE_JUSTMARRIED"@ {
            Some(OpinionReactionType(77i32))
        } else if s == "OPINION_REACTION_TYPE_WIFE_GIFT_WANTED"@ {
            Some(OpinionReactionType(78i32))
        } else if s == "OPINION_REACTION_TYPE_LAST"@ {
            Some(OpinionReactionType(79i32))
        } else if s == "OPINION_REACTION_TYPE_WIFE_LAST"@ {
            Some(OpinionReactionType(79i32))
        } else {
            None
        }
    }

    /// The set holding exactly the bits of `value` (lossless).
    pub fn from_i32(value: i32) -> (r: Self)
        ensures
            r.0 == value,
    {
        OpinionReactionType(value)
    }

    pub fn to_i32(self) -> (r: i32)
        ensures
            r == self.0,
    {
        self.0
    }

    /// Whether every bit of `other` is set in `self`.
    pub fn contains(self, other: Self) -> (r: bool)
        ensures
            r == (self.0 & other.0 == other.0),
    {
        self.0 & other.0 == other.0
    }

    /// Whether no bit is set.
    pub fn is_empty(self) -> (r: bool)
        ensures
            r == (self.0 == 0),
    {
        self.0 == 0
    }

    /// The bits set in either.
    pub fn union(self, other: Self) -> (r: Self)
        ensures
            r.0 == self.0 | other.0,
    {
        OpinionReactionType(self.0 | other.0)
    }

    /// The flag a C++ enumerator symbol names.
    pub fn from_symbol(s: &str) -> (r: Option<Self>)
        ensures
            r == Self::symbol_lookup(s@),
    {
        if str_eq(s, "OPINION_REACTION_TYPE_NONE") {
            return Some(OpinionReactionType(0i32));
        }
        if str_eq(s, "OPINION_REACTION_TYPE_ATTITUDE_RESPECT") {
            return Some(OpinionReactionType(1i32));
        }
        if str_eq(s, "OPINION_REACTION_TYPE_ATTITUDE_AWE") {
            return Some(OpinionReactionType(2i32));
        }
        if str_eq(s, "OPINION_REACTION_TYPE_ATTITUDE_DISDAIN") {
            return Some(OpinionReactionType(3i32));
        }
        if str_eq(s, "OPINION_REACTION_TYPE_ATTITUDE_FEAR") {
            return Some(OpinionReactionType(4i32));
        }
        if str_eq(s, "OPINION_REACTION_TYPE_ATTITUDE_FRIENDLINESS") {
            return Some(OpinionReactionType(5i32));
        }
        if str_eq(s, "OPINION_REACTION_TYPE_ATTITUDE_WORSHIP") {
            return Some(OpinionReactionType(6i32));
        }
        if str_eq(s, "OPINION_REACTION_TYPE_ATTITUDE_RIDICULOUS") {
            return Some(OpinionReactionType(7i32));
        }
        if str_eq(s, "OPINION_REACTION_TYPE_ATTITUDE_OFFENSIVE") {
            return Some(OpinionReactionType(8i32));
        }
        if str_eq(s, "OPINION_REACTION_TYPE_ATTITUDE_AGREEABLE") {
            return Some(OpinionReactionType(9i32));
        }
        if str_eq(s, "OPINION_REACTION_TYPE_ATTITUDE_UGLY") {
            return Some(OpinionReactionType(10i32));
        }
        if str_eq(s, "OPINION_REACTION_TYPE_ATTITUDE_ATTRACTED") {
            return Some(OpinionReactionType(11i32));
        }
        if str_eq(s, "OPINION_REACTION_TYPE_ATTITUDE_LOVE") {
            return Some(OpinionReactionType(12i32));
        }
        if str_eq(s, "OPINION_REACTION_TYPE_ATTITUDE_WIFE_LOVE") {
            return Some(OpinionReactionType(13i32));
        }
        if str_eq(s, "OPINION_REACTION_TYPE_ATTITUDE_WIFE_LIKE") {
            return Some(OpinionReactionType(14i32));
        }
        if str_eq(s, "OPINION_REACTION_TYPE_ATTITUDE_WIFE_NEUTRAL") {
            return Some(OpinionReactionType(15i32));
        }
        if str_eq(s, "OPINION_REACTION_TYPE_ATTITUDE_WIFE_DISLIKE") {
            return Some(OpinionReactionType(16i32));
        }
        if str_eq(s, "OPINION_REACTION_TYPE_ATTITUDE_WIFE_HATE") {
            return Some(OpinionReactionType(17i32));
        }
        if str_eq(s, "OPINION_REACTION_TYPE_ANGRY_POINT") {
            return Some(OpinionReactionType(18i32));
        }
        if str_eq(s, "OPINION_REACTION_TYPE_BACK_AWAY") {
            return Some(OpinionReactionType(19i32));
        }
        if str_eq(s, "OPINION_REACTION_TYPE_BELLY_LAUGH") {
            return Some(OpinionReactionType(20i32));
        }
        if str_eq(s, "OPINION_REACTION_TYPE_BOO") {
            return Some(OpinionReactionType(21i32));
        }
        if str_eq(s, "OPINION_REACTION_TYPE_BOWING_LARGE") {
            return Some(OpinionReactionType(22i32));
        }
        if str_eq(s, "OPINION_REACTION_TYPE_BOWING_SMALL") {
            return Some(OpinionReactionType(23i32));
        }
        if str_eq(s, "OPINION_REACTION_TYPE_CALLING_CHILDREN") {
            return Some(OpinionReactionType(24i32));
        }
        if str_eq(s, "OPINION_REACTION_TYPE_CHEER_LARGE") {
            return Some(OpinionReactionType(25i32));
        }
        if str_eq(s, "OPINION_REACTION_TYPE_CHEER_SMALL") {
            return Some(OpinionReactionType(26i32));
        }
        if str_eq(s, "OPINION_REACTION_TYPE_CLAP_LARGE") {
            return Some(OpinionReactionType(27i32));
        }
        if str_eq(s, "OPINION_REACTION_TYPE_CLAP_SMALL") {
            return Some(OpinionReactionType(28i32));
        }
        if str_eq(s, "OPINION_REACTION_TYPE_COMMENT_ABOUT_HERO") {
            return Some(OpinionReactionType(29i32));
        }
        if str_eq(s, "OPINION_REACTION_TYPE_COMMENT_AT_HERO") {
            return Some(OpinionReactionType(30i32));
        }
        if str_eq(s, "OPINION_REACTION_TYPE_COMMENT_TO_SELF") {
            return Some(OpinionReactionType(31i32));
        }
        if str_eq(s, "OPINION_REACTION_TYPE_COWER") {
            return Some(OpinionReactionType(32i32));
        }
        if str_eq(s, "OPINION_REACTION_TYPE_DISMISS") {
            return Some(OpinionReactionType(33i32));
        }
        if str_eq(s, "OPINION_REACTION_TYPE_FLEE") {
            return Some(OpinionReactionType(34i32));
        }
        if str_eq(s, "OPINION_REACTION_TYPE_FOLLOW_CLOSE") {
            return Some(OpinionReactionType(35i32));
        }
        if str_eq(s, "OPINION_REACTION_TYPE_FOLLOW_FAR") {
            return Some(OpinionReactionType(36i32));
        }
        if str_eq(s, "OPINION_REACTION_TYPE_FRIENDLY_GREET") {
            return Some(OpinionReactionType(37i32));
        }
        if str_eq(s, "OPINION_REACTION_TYPE_GET_OUT") {
            return Some(OpinionReactionType(38i32));
        }
        if str_eq(s, "OPINION_REACTION_TYPE_GROVEL_LARGE") {
            return Some(OpinionReactionType(39i32));
        }
        if str_eq(s, "OPINION_REACTION_TYPE_GROVEL_SMALL") {
            return Some(OpinionReactionType(40i32));
        }
        if str_eq(s, "OPINION_REACTION_TYPE_HERO_IMITATION_PLAY") {
            return Some(OpinionReactionType(41i32));
        }
        if str_eq(s, "OPINION_REACTION_TYPE_HEROTITLE_AT_HERO") {
            return Some(OpinionReactionType(42i32));
        }
        if str_eq(s, "OPINION_REACTION_TYPE_HEROTITLE_TO_SELF") {
            return Some(OpinionReactionType(43i32));
        }
        if str_eq(s, "OPINION_REACTION_TYPE_HIDE") {
            return Some(OpinionReactionType(44i32));
        }
        if str_eq(s, "OPINION_REACTION_TYPE_MARRIAGE_COMMENT") {
            return Some(OpinionReactionType(45i32));
        }
        if str_eq(s, "OPINION_REACTION_TYPE_OFFER_GIFT_FRIENDLY") {
            return Some(OpinionReactionType(46i32));
        }
        if str_eq(s, "OPINION_REACTION_TYPE_OFFER_GIFT_WORSHIP") {
            return Some(OpinionReactionType(47i32));
        }
        if str_eq(s, "OPINION_REACTION_TYPE_PICK_FIGHT") {
            return Some(OpinionReactionType(48i32));
        }
        if str_eq(s, "OPINION_REACTION_TYPE_POINT") {
            return Some(OpinionReactionType(49i32));
        }
        if str_eq(s, "OPINION_REACTION_TYPE_POINT_LAUGH") {
            return Some(OpinionReactionType(50i32));
        }
        if str_eq(s, "OPINION_REACTION_TYPE_RESPECTFUL_GREET") {
            return Some(OpinionReactionType(51i32));
        }
        if str_eq(s, "OPINION_REACTION_TYPE_SHAKE_FIST") {
            return Some(OpinionReactionType(52i32));
        }
        if str_eq(s, "OPINION_REACTION_TYPE_SHOUT_AWE") {
            return Some(OpinionReactionType(53i32));
        }
        if str_eq(s, "OPINION_REACTION_TYPE_SNIGGER") {
            return Some(OpinionReactionType(54i32));
        }
        if str_eq(s, "OPINION_REACTION_TYPE_THUMBS_DOWN") {
            return Some(OpinionReactionType(55i32));
        }
        if str_eq(s, "OPINION_REACTION_TYPE_WATCH") {
            return Some(OpinionReactionType(56i32));
        }
        if str_eq(s, "OPINION_REACTION_TYPE_WIFE_FEELING_LOVE") {
            return Some(OpinionReactionType(57i32));
        }
        if str_eq(s, "OPINION_REACTION_TYPE_WIFE_FIRST") {
            return Some(OpinionReactionType(57i32));
        }
        if str_eq(s, "OPINION_REACTION_TYPE_WIFE_GENERAL_LOVE") {
            return Some(OpinionReactionType(58i32));
        }
        if str_eq(s, "OPINION_REACTION_TYPE_WIFE_TOHERSELF_LOVE") {
            return Some(OpinionReactionType(59i32));
        }
        if str_eq(s, "OPINION_REACTION_TYPE_WIFE_CLOTHING_LOVE") {
            return Some(OpinionReactionType(60i32));
        }
        if str_eq(s, "OPINION_REACTION_TYPE_WIFE_FEELING_LIKE") {
            return Some(OpinionReactionType(61i32));
        }
        if str_eq(s, "OPINION_REACTION_TYPE_WIFE_GENERAL_LIKE") {
            return Some(OpinionReactionType(62i32));
        }
        if str_eq(s, "OPINION_REACTION_TYPE_WIFE_TOHERSELF_LIKE") {
            return Some(OpinionReactionType(63i32));
        }
        if str_eq(s, "OPINION_REACTION_TYPE_WIFE_CLOTHING_LIKE") {
            return Some(OpinionReactionType(64i32));
        }
        if str_eq(s, "OPINION_REACTION_TYPE_WIFE_FEELING_NEUTRAL") {
            return Some(OpinionReactionType(65i32));
        }
        if str_eq(s, "OPINION_REACTION_TYPE_WIFE_GENERAL_NEUTRAL") {
            return Some(OpinionReactionType(66i32));
        }
        if str_eq(s, "OPINION_REACTION_TYPE_WIFE_TOHERSELF_NEUTRAL") {
            return Some(OpinionReactionType(67i32));
        }
        if str_eq(s, "OPINION_REACTION_TYPE_WIFE_CLOTHING_NEUTRAL") {
            return Some(OpinionReactionType(68i32));
        }
        if str_eq(s, "OPINION_REACTION_TYPE_WIFE_FEELING_DISLIKE") {
            return Some(OpinionReactionType(69i32));
        }
        if str_eq(s, "OPINION_REACTION_TYPE_WIFE_GENERAL_DISLIKE") {
            return Some(OpinionReactionType(70i32));
        }
        if str_eq(s, "OPINION_REACTION_TYPE_WIFE_TOHERSELF_DISLIKE") {
            return Some(OpinionReactionType(71i32));
        }
        if str_eq(s, "OPINION_REACTION_TYPE_WIFE_CLOTHING_DISLIKE") {
            return Some(OpinionReactionType(72i32));
        }
        if str_eq(s, "OPINION_REACTION_TYPE_WIFE_FEELING_HATE") {
            return Some(OpinionReactionType(73i32));
        }
        if str_eq(s, "OPINION_REACTION_TYPE_WIFE_GENERAL_HATE") {
            return Some(OpinionReactionType(74i32));
        }
        if str_eq(s, "OPINION_REACTION_TYPE_WIFE_TOHERSELF_HATE") {
            return Some(OpinionReactionType(75i32));
        }
        if str_eq(s, "OPINION_REACTION_TYPE_WIFE_CLOTHING_HATE") {
            return Some(OpinionReactionType(76i32));
        }
        if str_eq(s, "OPINION_REACTION_TYPE_WIFE_JUSTMARRIED") {
            return Some(OpinionReactionType(77i32));
        }
        if str_eq(s, "OPINION_REACTION_TYPE_WIFE_GIFT_WANTED") {
            return Some(OpinionReactionType(78i32));
        }
        if str_eq(s, "OPINION_REACTION_TYPE_LAST") {
            return Some(OpinionReactionType(79i32));
        }
        if str_eq(s, "OPINION_REACTION_TYPE_WIFE_LAST") {
            return Some(OpinionReactionType(79i32));
        }
        None
    }
}

impl core::ops::BitOr for OpinionReactionType {
    type Output = OpinionReactionType;

    fn bitor(self, rhs: OpinionReactionType) -> (r: OpinionReactionType) {
        OpinionReactionType(self.0 | rhs.0)
    }
}

impl vstd::std_specs::ops::BitOrSpecImpl for OpinionReactionType {
    open spec fn obeys_bitor_spec() -> bool {
        true
    }

    open spec fn bitor_req(self, rhs: OpinionReactionType) -> bool {
        true
    }

    open spec fn bitor_spec(self, rhs: OpinionReactionType) -> OpinionReactionType {
        OpinionReactionType(self.0 | rhs.0)
    }
}

#[derive(Debug, Clone, Copy, PartialEq, Eq, Structural, PartialOrd, Ord, Hash, Default)]
pub struct OpinionTargetingConditionType(pub i32);

impl OpinionTargetingConditionType {
    /// The bits of `OPINION_TARGETING_CONDITION_TYPE_NONE`.
    pub const NONE: i32 = 0i32;
    /// The bits of `OPINION_TARGETING_CONDITION_TYPE_NOT_TARGETED`.
    pub const NOT_TARGETED: i32 = 1i32;
    /// The bits of `OPINION_TARGETING_CONDITION_TYPE_TARGETED_BUT_NOT_Z`.
    pub const TARGETED_BUT_NOT_Z: i32 = 2i32;
    /// The bits of `OPINION_TARGETING_CONDITION_TYPE_NOT_Z_TARGETED`.
    pub const NOT_Z_TARGETED: i32 = 3i32;
    /// The bits of `OPINION_TARGETING_CONDITION_TYPE_Z_TARGETED`.
    pub const Z_TARGETED: i32 = 4i32;
    /// The bits of `OPINION_TARGETING_CONDITION_TYPE_ANY_TARGETED`.
    pub const ANY_TARGETED: i32 = 5i32;

    /// The flag a C++ enumerator symbol names, if any.
    pub open spec fn symbol_lookup(s: Seq<char>) -> Option<Self> {
        if s == "OPINION_TARGETING_CONDITION_TYPE_NONE"@ {
            Some(OpinionTargetingConditionType(0i32))
        } else if s == "OPINION_TARGETING_CONDITION_TYPE_NOT_TARGETED"@ {
            Some(OpinionTargetingConditionType(1i32))
        } else if s == "OPINION_TARGETING_CONDITION_TYPE_TARGETED_BUT_NOT_Z"@ {
            Some(OpinionTargetingConditionType(2i32))
        } else if s == "OPINION_TARGETING_CONDITION_TYPE_NOT_Z_TARGETED"@ {
            Some(OpinionTargetingConditionType(3i32))
        } else if s == "OPINION_TARGETING_CONDITION_TYPE_Z_TARGETED"@ {
            Some(OpinionTargetingConditionType(4i32))
        } else if s == "OPINION_TARGETING_CONDITION_TYPE_ANY_TARGETED"@ {
            Some(OpinionTargetingConditionType(5i32))
        } else {
            None
        }
    }

    /// The set holding exactly the bits of `value` (lossless).
    pub fn from_i32(value: i32) -> (r: Self)
        ensures
            r.0 == value,
    {
        OpinionTargetingConditionType(value)
    }

    pub fn to_i32(self) -> (r: i32)
        ensures
            r == self.0,
    {
        self.0
    }

    /// Whether every bit of `other` is set in `self`.
    pub fn contains(self, other: Self) -> (r: bool)
        ensures
            r == (self.0 & other.0 == other.0),
    {
        self.0 & other.0 == other.0
    }

    /// Whether no bit is set.
    pub fn is_empty(self) -> (r: bool)
        ensures
            r == (self.0 == 0),
    {
        self.0 == 0
    }

    /// The bits set in either.
    pub fn union(self, other: Self) -> (r: Self)
        ensures
            r.0 == self.0 | other.0,
    {
        OpinionTargetingConditionType(self.0 | other.0)
    }

    /// The flag a C++ enumerator symbol names.
    pub fn from_symbol(s: &str) -> (r: Option<Self>)
        ensures
            r == Self::symbol_lookup(s@),
    {
        if str_eq(s, "OPINION_TARGETING_CONDITION_TYPE_NONE") {
            return Some(OpinionTargetingConditionType(0i32));
        }
        if str_eq(s, "OPINION_TARGETING_CONDITION_TYPE_NOT_TARGETED") {
            return Some(OpinionTargetingConditionType(1i32));
        }
        if str_eq(s, "OPINION_TARGETING_CONDITION_TYPE_TARGETED_BUT_NOT_Z") {
            return Some(OpinionTargetingConditionType(2i32));
        }
        if str_eq(s, "OPINION_TARGETING_CONDITION_TYPE_NOT_Z_TARGETED") {
            return Some(OpinionTargetingConditionType(3i32));
        }
        if str_eq(s, "OPINION_TARGETING_CONDITION_TYPE_Z_TARGETED") {
            return Some(OpinionTargetingConditionType(4i32));
        }
        if str_eq(s, "OPINION_TARGETING_CONDITION_TYPE_ANY_TARGETED") {
            return Some(OpinionTargetingConditionType(5i32));
        }
        None
    }
}

impl core::ops::BitOr for OpinionTargetingConditionType {
    type Output = OpinionTargetingConditionType;

    fn bitor(self, rhs: OpinionTargetingConditionType) -> (r: OpinionTargetingConditionType) {
        OpinionTargetingConditionType(self.0 | rhs.0)
    }
}

impl vstd::std_specs::ops::BitOrSpecImpl for OpinionTargetingConditionType {
    open spec fn obeys_bitor_spec() -> bool {
        true
    }

    open spec fn bitor_req(self, rhs: OpinionTargetingConditionType) -> bool {
        true
    }

    open spec fn bitor_spec(self, rhs: OpinionTargetingConditionType) -> OpinionTargetingConditionType {
        OpinionTargetingConditionType(self.0 | rhs.0)
    }
}

#[derive(Debug, Clone, Copy, PartialEq, Eq, Structural, PartialOrd, Ord, Hash, Default)]
pub struct PSwitchTriggerType(pub i32);

impl PSwitchTriggerType {
    /// The bits of `PSWITCH_TRIGGER_ON_PLAYER`.
    pub const PSWITCH_TRIGGER_ON_PLAYER: i32 = 1i32;
    /// The bits of `PSWITCH_TRIGGER_ON_PLAYER_USE`.
    pub const USE: i32 = 2i32;

    /// The flag a C++ enumerator symbol names, if any.
    pub open spec fn symbol_lookup(s: Seq<char>) -> Option<Self> {
        if s == "PSWITCH_TRIGGER_ON_PLAYER"@ {
            Some(PSwitchTriggerType(1i32))
        } else if s == "PSWITCH_TRIGGER_ON_PLAYER_USE"@ {
            Some(PSwitchTriggerType(2i32))
        } else {
            None
        }
    }

    /// The set holding exactly the bits of `value` (lossless).
    pub fn from_i32(value: i32) -> (r: Self)
        ensures
            r.0 == value,
    {
        PSwitchTriggerType(value)
    }

    pub fn to_i32(self) -> (r: i32)
        ensures
            r == self.0,
    {
        self.0
    }

    /// Whether every bit of `other` is set in `self`.
    pub fn contains(self, other: Self) -> (r: bool)
        ensures
            r == (self.0 & other.0 == other.0),
    {
        self.0 & other.0 == other.0
    }

    /// Whether no bit is set.
    pub fn is_empty(self) -> (r: bool)
        ensures
            r == (self.0 == 0),
    {
        self.0 == 0
    }

    /// The bits set in either.
    pub fn union(self, other: Self) -> (r: Self)
        ensures
            r.0 == self.0 | other.0,
    {
        PSwitchTriggerType(self.0 | other.0)
    }

    /// The flag a C++ enumerator symbol names.
    pub fn from_symbol(s: &str) -> (r: Option<Self>)
        ensures
            r == Self::symbol_lookup(s@),
    {
        if str_eq(s, "PSWITCH_TRIGGER_ON_PLAYER") {
            return Some(PSwitchTriggerType(1i32));
        }
        if str_eq(s, "PSWITCH_TRIGGER_ON_PLAYER_USE") {
            return Some(PSwitchTriggerType(2i32));
        }
        None
    }
}

impl core::ops::BitOr for PSwitchTriggerType {
    type Output = PSwitchTriggerType;

    fn bitor(self, rhs: PSwitchTriggerType) -> (r: PSwitchTriggerType) {
        PSwitchTriggerType(self.0 | rhs.0)
    }
}

impl vstd::std_specs::ops::BitOrSpecImpl for PSwitchTriggerType {
    open spec fn obeys_bitor_spec() -> bool {
        true
    }

    open spec fn bitor_req(self, rhs: PSwitchTriggerType) -> bool {
        true
    }

    open spec fn bitor_spec(self, rhs: PSwitchTriggerType) -> PSwitchTriggerType {
        PSwitchTriggerType(self.0 | rhs.0)
    }
}

#[derive(Debug, Clone, Copy, PartialEq, Eq, Structural, PartialOrd, Ord, Hash)]
pub enum PerceivedThingType {
    PERCEIVEDTHINGFINDPLAYER,
    MAXNOPERCEIVEDTHINGTYPES,
}

impl DefEnum for PerceivedThingType {
    open spec fn wire_value(self) -> i32 {
        match self {
            PerceivedThingType::PERCEIVEDTHINGFINDPLAYER => 0i32,
            PerceivedThingType::MAXNOPERCEIVEDTHINGTYPES => 1i32,
        }
    }

    open spec fn lookup(value: i32) -> Option<Self> {
        match value {
            0i32 => Some(PerceivedThingType::PERCEIVEDTHINGFINDPLAYER),
            1i32 => Some(PerceivedThingType::MAXNOPERCEIVEDTHINGTYPES),
            _ => None,
        }
    }

    fn from_i32(value: i32) -> (r: Option<Self>) {
        match value {
            0i32 => Some(PerceivedThingType::PERCEIVEDTHINGFINDPLAYER),
            1i32 => Some(PerceivedThingType::MAXNOPERCEIVEDTHINGTYPES),
            _ => None,
        }
    }

    fn to_i32(self) -> (r: i32) {
        match self {
            PerceivedThingType::PERCEIVEDTHINGFINDPLAYER => 0i32,
            PerceivedThingType::MAXNOPERCEIVEDTHINGTYPES => 1i32,
        }
    }

    proof fn lemma_lookup_wire_value(e: Self) {
    }
}

impl PerceivedThingType {
    /// The C++ enumerator symbol of `self`.
    pub open spec fn symbol_of(self) -> Seq<char> {
        match self {
            PerceivedThingType::PERCEIVEDTHINGFINDPLAYER => "PERCEIVED_THING_FIND_PLAYER"@,
            PerceivedThingType::MAXNOPERCEIVEDTHINGTYPES => "MAX_NO_PERCEIVED_THING_TYPES"@,
        }
    }

    /// The first variant whose symbol is `s`, if any.
    pub open spec fn symbol_lookup(s: Seq<char>) -> Option<Self> {
        if s == "PERCEIVED_THING_FIND_PLAYER"@ {
            Some(PerceivedThingType::PERCEIVEDTHINGFINDPLAYER)
        } else if s == "MAX_NO_PERCEIVED_THING_TYPES"@ {
            Some(PerceivedThingType::MAXNOPERCEIVEDTHINGTYPES)
        } else {
            None
        }
    }

    /// The C++ enumerator symbol text defs use for `self`.
    pub fn symbol(self) -> (r: &'static str)
        ensures
            r@ == self.symbol_of(),
    {
        match self {
            PerceivedThingType::PERCEIVEDTHINGFINDPLAYER => "PERCEIVED_THING_FIND_PLAYER",
            PerceivedThingType::MAXNOPERCEIVEDTHINGTYPES => "MAX_NO_PERCEIVED_THING_TYPES",
        }
    }

    /// The variant a C++ enumerator symbol names.
    pub fn from_symbol(s: &str) -> (r: Option<Self>)
        ensures
            r == Self::symbol_lookup(s@),
    {
        if str_eq(s, "PERCEIVED_THING_FIND_PLAYER") {
            return Some(PerceivedThingType::PERCEIVEDTHINGFINDPLAYER);
        }
        if str_eq(s, "MAX_NO_PERCEIVED_THING_TYPES") {
            return Some(PerceivedThingType::MAXNOPERCEIVEDTHINGTYPES);
        }
        None
    }
}

#[derive(Debug, Clone, Copy, PartialEq, Eq, Structural, PartialOrd, Ord, Hash)]
pub enum PointLightChannelEffect {
    LOCALCHANNEL,
    ALLINTERNALS,
    EXTERNALS,
    ALL,
}

impl DefEnum for PointLightChannelEffect {
    open spec fn wire_value(self) -> i32 {
        match self {
            PointLightChannelEffect::LOCALCHANNEL => 0i32,
            PointLightChannelEffect::ALLINTERNALS => 1i32,
            PointLightChannelEffect::EXTERNALS => 2i32,
            PointLightChannelEffect::ALL => 3i32,
        }
    }

    open spec fn lookup(value: i32) -> Option<Self> {
        match value {
            0i32 => Some(PointLightChannelEffect::LOCALCHANNEL),
            1i32 => Some(PointLightChannelEffect::ALLINTERNALS),
            2i32 => Some(PointLightChannelEffect::EXTERNALS),
            3i32 => Some(PointLightChannelEffect::ALL),
            _ => None,
        }
    }

    fn from_i32(value: i32) -> (r: Option<Self>) {
        match value {
            0i32 => Some(PointLightChannelEffect::LOCALCHANNEL),
            1i32 => Some(PointLightChannelEffect::ALLINTERNALS),
            2i32 => Some(PointLightChannelEffect::EXTERNALS),
            3i32 => Some(PointLightChannelEffect::ALL),
            _ => None,
        }
    }

    fn to_i32(self) -> (r: i32) {
        match self {
            PointLightChannelEffect::LOCALCHANNEL => 0i32,
            PointLightChannelEffect::ALLINTERNALS => 1i32,
            PointLightChannelEffect::EXTERNALS => 2i32,
            PointLightChannelEffect::ALL => 3i32,
        }
    }

    proof fn lemma_lookup_wire_value(e: Self) {
    }
}

impl PointLightChannelEffect {
    /// The C++ enumerator symbol of `self`.
    pub open spec fn symbol_of(self) -> Seq<char> {
        match self {
            PointLightChannelEffect::LOCALCHANNEL => "POINT_LIGHT_EFFECT_LOCAL_CHANNEL"@,
            PointLightChannelEffect::ALLINTERNALS => "POINT_LIGHT_EFFECT_ALL_INTERNALS"@,
            PointLightChannelEffect::EXTERNALS => "POINT_LIGHT_EFFECT_EXTERNALS"@,
            PointLightChannelEffect::ALL => "POINT_LIGHT_EFFECT_ALL"@,
        }
    }

    /// The first variant whose symbol is `s`, if any.
    pub open spec fn symbol_lookup(s: Seq<char>) -> Option<Self> {
        if s == "POINT_LIGHT_EFFECT_LOCAL_CHANNEL"@ {
            Some(PointLightChannelEffect::LOCALCHANNEL)
        } else if s == "POINT_LIGHT_EFFECT_ALL_INTERNALS"@ {
            Some(PointLightChannelEffect::ALLINTERNALS)
        } else if s == "POINT_LIGHT_EFFECT_EXTERNALS"@ {
            Some(PointLightChannelEffect::EXTERNALS)
        } else if s == "POINT_LIGHT_EFFECT_ALL"@ {
            Some(PointLightChannelEffect::ALL)
        } else {
            None
        }
    }

    /// The C++ enumerator symbol text defs use for `self`.
    pub fn symbol(self) -> (r: &'static str)
        ensures
            r@ == self.symbol_of(),
    {
        match self {
            PointLightChannelEffect::LOCALCHANNEL => "POINT_LIGHT_EFFECT_LOCAL_CHANNEL",
            PointLightChannelEffect::ALLINTERNALS => "POINT_LIGHT_EFFECT_ALL_INTERNALS",
            PointLightChannelEffect::EXTERNALS => "POINT_LIGHT_EFFECT_EXTERNALS",
            PointLightChannelEffect::ALL => "POINT_LIGHT_EFFECT_ALL",
        }
    }

    /// The variant a C++ enumerator symbol names.
    pub fn from_symbol(s: &str) -> (r: Option<Self>)
        ensures
            r == Self::symbol_lookup(s@),
    {
        if str_eq(s, "POINT_LIGHT_EFFECT_LOCAL_CHANNEL") {
            return Some(PointLightChannelEffect::LOCALCHANNEL);
        }
        if str_eq(s, "POINT_LIGHT_EFFECT_ALL_INTERNALS") {
            return Some(PointLightChannelEffect::ALLINTERNALS);
        }
        if str_eq(s, "POINT_LIGHT_EFFECT_EXTERNALS") {
            return Some(PointLightChannelEffect::EXTERNALS);
        }
        if str_eq(s, "POINT_LIGHT_EFFECT_ALL") {
            return Some(PointLightChannelEffect::ALL);
        }
        None
    }
}

#[derive(Debug, Clone, Copy, PartialEq, Eq, Structural, PartialOrd, Ord, Hash)]
pub enum QuakeLength {
    SHORT,
    MEDIUM,
    LONG,
    CONTINUOUS,
}

impl DefEnum for QuakeLength {
    open spec fn wire_value(self) -> i32 {
        match self {
            QuakeLength::SHORT => 0i32,
            QuakeLength::MEDIUM => 1i32,
            QuakeLength::LONG => 2i32,
            QuakeLength::CONTINUOUS => 3i32,
        }
    }

    open spec fn lookup(value: i32) -> Option<Self> {
        match value {
            0i32 => Some(QuakeLength::SHORT),
            1i32 => Some(QuakeLength::MEDIUM),
            2i32 => Some(QuakeLength::LONG),
            3i32 => Some(QuakeLength::CONTINUOUS),
            _ => None,
        }
    }

    fn from_i32(value: i32) -> (r: Option<Self>) {
        match value {
            0i32 => Some(QuakeLength::SHORT),
            1i32 => Some(QuakeLength::MEDIUM),
            2i32 => Some(QuakeLength::LONG),
            3i32 => Some(QuakeLength::CONTINUOUS),
            _ => None,
        }
    }

    fn to_i32(self) -> (r: i32) {
        match self {
            QuakeLength::SHORT => 0i32,
            QuakeLength::MEDIUM => 1i32,
            QuakeLength::LONG => 2i32,
            QuakeLength::CONTINUOUS => 3i32,
        }
    }

    proof fn lemma_lookup_wire_value(e: Self) {
    }
}

impl QuakeLength {
    /// The C++ enumerator symbol of `self`.
    pub open spec fn symbol_of(self) -> Seq<char> {
        match self {
            QuakeLength::SHORT => "QUAKE_LENGTH_SHORT"@,
            QuakeLength::MEDIUM => "QUAKE_LENGTH_MEDIUM"@,
            QuakeLength::LONG => "QUAKE_LENGTH_LONG"@,
            QuakeLength::CONTINUOUS => "QUAKE_LENGTH_CONTINUOUS"@,
        }
    }

    /// The first variant whose symbol is `s`, if any.
    pub open spec fn symbol_lookup(s: Seq<char>) -> Option<Self> {
        if s == "QUAKE_LENGTH_SHORT"@ {
            Some(QuakeLength::SHORT)
        } else if s == "QUAKE_LENGTH_MEDIUM"@ {
            Some(QuakeLength::MEDIUM)
        } else if s == "QUAKE_LENGTH_LONG"@ {
            Some(QuakeLength::LONG)
        } else if s == "QUAKE_LENGTH_CONTINUOUS"@ {
            Some(QuakeLength::CONTINUOUS)
        } else {
            None
        }
    }

    /// The C++ enumerator symbol text defs use for `self`.
    pub fn symbol(self) -> (r: &'static str)
        ensures
            r@ == self.symbol_of(),
    {
        match self {
            QuakeLength::SHORT => "QUAKE_LENGTH_SHORT",
            QuakeLength::MEDIUM => "QUAKE_LENGTH_MEDIUM",
            QuakeLength::LONG => "QUAKE_LENGTH_LONG",
            QuakeLength::CONTINUOUS => "QUAKE_LENGTH_CONTINUOUS",
        }
    }

    /// The variant a C++ enumerator symbol names.
    pub fn from_symbol(s: &str) -> (r: Option<Self>)
        ensures
            r == Self::symbol_lookup(s@),
    {
        if str_eq(s, "QUAKE_LENGTH_SHORT") {
            return Some(QuakeLength::SHORT);
        }
        if str_eq(s, "QUAKE_LENGTH_MEDIUM") {
            return Some(QuakeLength::MEDIUM);
        }
        if str_eq(s, "QUAKE_LENGTH_LONG") {
            return Some(QuakeLength::LONG);
        }
        if str_eq(s, "QUAKE_LENGTH_CONTINUOUS") {
            return Some(QuakeLength::CONTINUOUS);
        }
        None
    }
}

#[derive(Debug, Clone, Copy, PartialEq, Eq, Structural, PartialOrd, Ord, Hash)]
pub enum QuakeStrength {
    WEAK,
    MEDIUM,
    STRONG,
    MADNESS,
}

impl DefEnum for QuakeStrength {
    open spec fn wire_value(self) -> i32 {
        match self {
            QuakeStrength::WEAK => 0i32,
            QuakeStrength::MEDIUM => 1i32,
            QuakeStrength::STRONG => 2i32,
            QuakeStrength::MADNESS => 3i32,
        }
    }

    open spec fn lookup(value: i32) -> Option<Self> {
        match value {
            0i32 => Some(QuakeStrength::WEAK),
            1i32 => Some(QuakeStrength::MEDIUM),
            2i32 => Some(QuakeStrength::STRONG),
            3i32 => Some(QuakeStrength::MADNESS),
            _ => None,
        }
    }

    fn from_i32(value: i32) -> (r: Option<Self>) {
        match value {
            0i32 => Some(QuakeStrength::WEAK),
            1i32 => Some(QuakeStrength::MEDIUM),
            2i32 => Some(QuakeStrength::STRONG),
            3i32 => Some(QuakeStrength::MADNESS),
            _ => None,
        }
    }

    fn to_i32(self) -> (r: i32) {
        match self {
            QuakeStrength::WEAK => 0i32,
            QuakeStrength::MEDIUM => 1i32,
            QuakeStrength::STRONG => 2i32,
            QuakeStrength::MADNESS => 3i32,
        }
    }

    proof fn lemma_lookup_wire_value(e: Self) {
    }
}

impl QuakeStrength {
    /// The C++ enumerator symbol of `self`.
    pub open spec fn symbol_of(self) -> Seq<char> {
        match self {
            QuakeStrength::WEAK => "QUAKE_STRENGTH_WEAK"@,
            QuakeStrength::MEDIUM => "QUAKE_STRENGTH_MEDIUM"@,
            QuakeStrength::STRONG => "QUAKE_STRENGTH_STRONG"@,
            QuakeStrength::MADNESS => "QUAKE_STRENGTH_MADNESS"@,
        }
    }

    /// The first variant whose symbol is `s`, if any.
    pub open spec fn symbol_lookup(s: Seq<char>) -> Option<Self> {
        if s == "QUAKE_STRENGTH_WEAK"@ {
            Some(QuakeStrength::WEAK)
        } else if s == "QUAKE_STRENGTH_MEDIUM"@ {
            Some(QuakeStrength::MEDIUM)
        } else if s == "QUAKE_STRENGTH_STRONG"@ {
            Some(QuakeStrength::STRONG)
        } else if s == "QUAKE_STRENGTH_MADNESS"@ {
            Some(QuakeStrength::MADNESS)
        } else {
            None
        }
    }

    /// The C++ enumerator symbol text defs use for `self`.
    pub fn symbol(self) -> (r: &'static str)
        ensures
            r@ == self.symbol_of(),
    {
        match self {
            QuakeStrength::WEAK => "QUAKE_STRENGTH_WEAK",
            QuakeStrength::MEDIUM => "QUAKE_STRENGTH_MEDIUM",
            QuakeStrength::STRONG => "QUAKE_STRENGTH_STRONG",
            QuakeStrength::MADNESS => "QUAKE_STRENGTH_MADNESS",
        }
    }

    /// The variant a C++ enumerator symbol names.
    pub fn from_symbol(s: &str) -> (r: Option<Self>)
        ensures
            r == Self::symbol_lookup(s@),
    {
        if str_eq(s, "QUAKE_STRENGTH_WEAK") {
            return Some(QuakeStrength::WEAK);
        }
        if str_eq(s, "QUAKE_STRENGTH_MEDIUM") {
            return Some(QuakeStrength::MEDIUM);
        }
        if str_eq(s, "QUAKE_STRENGTH_STRONG") {
            return Some(QuakeStrength::STRONG);
        }
        if str_eq(s, "QUAKE_STRENGTH_MADNESS") {
            return Some(QuakeStrength::MADNESS);
        }
        None
    }
}

#[derive(Debug, Clone, Copy, PartialEq, Eq, Structural, PartialOrd, Ord, Hash)]
pub enum ReactionSpeechType {
    REACTIONSPEECHNULL,
    REACTIONSPEECHCALLOVERHERE,
    REACTIONSPEECHFAWNINGGREETING,
    REACTIONSPEECHFRIENDLYGREETING,
    REACTIONSPEECHSTRANGERSGREETING,
    REACTIONSPEECHNERVOUS,
    REACTIONSPEECHSCARED,
    REACTIONSPEECHTERRIFIED,
    REACTIONSPEECHINSULTED,
    REACTIONSPEECHANGRY,
    REACTIONSPEECHHATEFUL,
    REACTIONSPEECHTHREATOFRETRIBUTION,
    REACTIONSPEECHPROMISEOFRETRIBUTION,
    REACTIONSPEECHDISMISSIVE,
    REACTIONSPEECHBOTHERED,
    REACTIONSPEECHHARASSED,
    REACTIONSPEECHRIDICULING,
    REACTIONSPEECHINSULTS,
    REACTIONSPEECHATTRACTED,
    REACTIONSPEECHLOVING,
    REACTIONSPEECHSURPRISEDATABUSE,
    REACTIONSPEECHLOVINGANDSHOCKEDATABUSE,
    REACTIONSPEECHUNIMPRESSEDRESPONSETOTHREAT,
    REACTIONSPEECHRIDICULINGRESPONSETOTHREAT,
    REACTIONSPEECHLOVINGRESPONSETOFLIRT,
    REACTIONSPEECHATTRACTEDRESPONSETOFLIRT,
    REACTIONSPEECHNEUTRALREFUSALOFFLIRT,
    REACTIONSPEECHNEGATIVERESPONSETOFLIRT,
    REACTIONSPEECHFEARFULREFUSALOFFLIRT,
    REACTIONSPEECHGRATEFULACCEPTANCEOFBRIBE,
    REACTIONSPEECHPACIFIEDACCEPTANCEOFBRIBE,
    REACTIONSPEECHFRIENDLYREJECTIONOFBRIBE,
    REACTIONSPEECHUNFRIENDLYREJECTIONOFBRIBE,
    REACTIONSPEECHWARNAWAY,
    REACTIONSPEECHGIVEAWAY,
    REACTIONSPEECHREPORTCRIME,
    REACTIONSPEECHBODYFOUND,
    REACTIONSPEECHREPORTBODYFOUND,
    REACTIONSPEECHGOSSIP,
    REACTIONSPEECHYAWN,
    REACTIONSPEECHSNORE,
    REACTIONSPEECHCHEER,
    REACTIONSPEECHSOB,
    REACTIONSPEECHCRYOUT,
    REACTIONSPEECHBATTLECRY,
    REACTIONSPEECHLYNCHCRY,
    REACTIONSPEECHWOUNDED,
    REACTIONSPEECHDIE,
    REACTIONSPEECHGUARDKILL,
    REACTIONSPEECHGUARDARREST,
    REACTIONSPEECHGUARDSECURITYSWEEP,
    REACTIONSPEECHGUARDWARNING1,
    REACTIONSPEECHGUARDWARNING2,
    REACTIONSPEECHGUARDWARNING3,
    REACTIONSPEECHGUARDWARNINGENDANDTHANKS,
    REACTIONSPEECHNORESPECT,
    MAXNOREACTIONSPEECHTYPES,
}

impl DefEnum for ReactionSpeechType {
    open spec fn wire_value(self) -> i32 {
        match self {
            ReactionSpeechType::REACTIONSPEECHNULL => 0i32,
            ReactionSpeechType::REACTIONSPEECHCALLOVERHERE => 1i32,
            ReactionSpeechType::REACTIONSPEECHFAWNINGGREETING => 2i32,
            ReactionSpeechType::REACTIONSPEECHFRIENDLYGREETING => 3i32,
            ReactionSpeechType::REACTIONSPEECHSTRANGERSGREETING => 4i32,
            ReactionSpeechType::REACTIONSPEECHNERVOUS => 5i32,
            ReactionSpeechType::REACTIONSPEECHSCARED => 6i32,
            ReactionSpeechType::REACTIONSPEECHTERRIFIED => 7i32,
            ReactionSpeechType::REACTIONSPEECHINSULTED => 8i32,
            ReactionSpeechType::REACTIONSPEECHANGRY => 9i32,
            ReactionSpeechType::REACTIONSPEECHHATEFUL => 10i32,
            ReactionSpeechType::REACTIONSPEECHTHREATOFRETRIBUTION => 11i32,
            ReactionSpeechType::REACTIONSPEECHPROMISEOFRETRIBUTION => 12i32,
            ReactionSpeechType::REACTIONSPEECHDISMISSIVE => 13i32,
            ReactionSpeechType::REACTIONSPEECHBOTHERED => 14i32,
            ReactionSpeechType::REACTIONSPEECHHARASSED => 15i32,
            ReactionSpeechType::REACTIONSPEECHRIDICULING => 16i32,
            ReactionSpeechType::REACTIONSPEECHINSULTS => 17i32,
            ReactionSpeechType::REACTIONSPEECHATTRACTED => 18i32,
            ReactionSpeechType::REACTIONSPEECHLOVING => 19i32,
            ReactionSpeechType::REACTIONSPEECHSURPRISEDATABUSE => 20i32,
            ReactionSpeechType::REACTIONSPEECHLOVINGANDSHOCKEDATABUSE => 21i32,
            ReactionSpeechType::REACTIONSPEECHUNIMPRESSEDRESPONSETOTHREAT => 22i32,
            ReactionSpeechType::REACTIONSPEECHRIDICULINGRESPONSETOTHREAT => 23i32,
            ReactionSpeechType::REACTIONSPEECHLOVINGRESPONSETOFLIRT => 24i32,
            ReactionSpeechType::REACTIONSPEECHATTRACTEDRESPONSETOFLIRT => 25i32,
            ReactionSpeechType::REACTIONSPEECHNEUTRALREFUSALOFFLIRT => 26i32,
            ReactionSpeechType::REACTIONSPEECHNEGATIVERESPONSETOFLIRT => 27i32,
            ReactionSpeechType::REACTIONSPEECHFEARFULREFUSALOFFLIRT => 28i32,
            ReactionSpeechType::REACTIONSPEECHGRATEFULACCEPTANCEOFBRIBE => 29i32,
            ReactionSpeechType::REACTIONSPEECHPACIFIEDACCEPTANCEOFBRIBE => 30i32,
            ReactionSpeechType::REACTIONSPEECHFRIENDLYREJECTIONOFBRIBE => 31i32,
            ReactionSpeechType::REACTIONSPEECHUNFRIENDLYREJECTIONOFBRIBE => 32i32,
            ReactionSpeechType::REACTIONSPEECHWARNAWAY => 33i32,
            ReactionSpeechType::REACTIONSPEECHGIVEAWAY => 34i32,
            ReactionSpeechType::REACTIONSPEECHREPORTCRIME => 35i32,
            ReactionSpeechType::REACTIONSPEECHBODYFOUND => 36i32,
            ReactionSpeechType::REACTIONSPEECHREPORTBODYFOUND => 37i32,
            ReactionSpeechType::REACTIONSPEECHGOSSIP => 38i32,
            ReactionSpeechType::REACTIONSPEECHYAWN => 39i32,
            ReactionSpeechType::REACTIONSPEECHSNORE => 40i32,
            ReactionSpeechType::REACTIONSPEECHCHEER => 41i32,
            ReactionSpeechType::REACTIONSPEECHSOB => 42i32,
            ReactionSpeechType::REACTIONSPEECHCRYOUT => 43i32,
            ReactionSpeechType::REACTIONSPEECHBATTLECRY => 44i32,
            ReactionSpeechType::REACTIONSPEECHLYNCHCRY => 45i32,
            ReactionSpeechType::REACTIONSPEECHWOUNDED => 46i32,
            ReactionSpeechType::REACTIONSPEECHDIE => 47i32,
            ReactionSpeechType::REACTIONSPEECHGUARDKILL => 48i32,
            ReactionSpeechType::REACTIONSPEECHGUARDARREST => 49i32,
            ReactionSpeechType::REACTIONSPEECHGUARDSECURITYSWEEP => 50i32,
            ReactionSpeechType::REACTIONSPEECHGUARDWARNING1 => 51i32,
            ReactionSpeechType::REACTIONSPEECHGUARDWARNING2 => 52i32,
            ReactionSpeechType::REACTIONSPEECHGUARDWARNING3 => 53i32,
            ReactionSpeechType::REACTIONSPEECHGUARDWARNINGENDANDTHANKS => 54i32,
            ReactionSpeechType::REACTIONSPEECHNORESPECT => 55i32,
            ReactionSpeechType::MAXNOREACTIONSPEECHTYPES => 56i32,
        }
    }

    open spec fn lookup(value: i32) -> Option<Self> {
        match value {
            0i32 => Some(ReactionSpeechType::REACTIONSPEECHNULL),
            1i32 => Some(ReactionSpeechType::REACTIONSPEECHCALLOVERHERE),
            2i32 => Some(ReactionSpeechType::REACTIONSPEECHFAWNINGGREETING),
            3i32 => Some(ReactionSpeechType::REACTIONSPEECHFRIENDLYGREETING),
            4i32 => Some(ReactionSpeechType::REACTIONSPEECHSTRANGERSGREETING),
            5i32 => Some(ReactionSpeechType::REACTIONSPEECHNERVOUS),
            6i32 => Some(ReactionSpeechType::REACTIONSPEECHSCARED),
            7i32 => Some(ReactionSpeechType::REACTIONSPEECHTERRIFIED),
            8i32 => Some(ReactionSpeechType::REACTIONSPEECHINSULTED),
            9i32 => Some(ReactionSpeechType::REACTIONSPEECHANGRY),
            10i32 => Some(ReactionSpeechType::REACTIONSPEECHHATEFUL),
            11i32 => Some(ReactionSpeechType::REACTIONSPEECHTHREATOFRETRIBUTION),
            12i32 => Some(ReactionSpeechType::REACTIONSPEECHPROMISEOFRETRIBUTION),
            13i32 => Some(ReactionSpeechType::REACTIONSPEECHDISMISSIVE),
            14i32 => Some(ReactionSpeechType::REACTIONSPEECHBOTHERED),
            15i32 => Some(ReactionSpeechType::REACTIONSPEECHHARASSED),
            16i32 => Some(ReactionSpeechType::REACTIONSPEECHRIDICULING),
            17i32 => Some(ReactionSpeechType::REACTIONSPEECHINSULTS),
            18i32 => Some(ReactionSpeechType::REACTIONSPEECHATTRACTED),
            19i32 => Some(ReactionSpeechType::REACTIONSPEECHLOVING),
            20i32 => Some(ReactionSpeechType::REACTIONSPEECHSURPRISEDATABUSE),
            21i32 => Some(ReactionSpeechType::REACTIONSPEECHLOVINGANDSHOCKEDATABUSE),
            22i32 => Some(ReactionSpeechType::REACTIONSPEECHUNIMPRESSEDRESPONSETOTHREAT),
            23i32 => Some(ReactionSpeechType::REACTIONSPEECHRIDICULINGRESPONSETOTHREAT),
            24i32 => Some(ReactionSpeechType::REACTIONSPEECHLOVINGRESPONSETOFLIRT),
            25i32 => Some(ReactionSpeechType::REACTIONSPEECHATTRACTEDRESPONSETOFLIRT),
            26i32 => Some(ReactionSpeechType::REACTIONSPEECHNEUTRALREFUSALOFFLIRT),
            27i32 => Some(ReactionSpeechType::REACTIONSPEECHNEGATIVERESPONSETOFLIRT),
            28i32 => Some(ReactionSpeechType::REACTIONSPEECHFEARFULREFUSALOFFLIRT),
            29i32 => Some(ReactionSpeechType::REACTIONSPEECHGRATEFULACCEPTANCEOFBRIBE),
            30i32 => Some(ReactionSpeechType::REACTIONSPEECHPACIFIEDACCEPTANCEOFBRIBE),
            31i32 => Some(ReactionSpeechType::REACTIONSPEECHFRIENDLYREJECTIONOFBRIBE),
            32i32 => Some(ReactionSpeechType::REACTIONSPEECHUNFRIENDLYREJECTIONOFBRIBE),
            33i32 => Some(ReactionSpeechType::REACTIONSPEECHWARNAWAY),
            34i32 => Some(ReactionSpeechType::REACTIONSPEECHGIVEAWAY),
            35i32 => Some(ReactionSpeechType::REACTIONSPEECHREPORTCRIME),
            36i32 => Some(ReactionSpeechType::REACTIONSPEECHBODYFOUND),
            37i32 => Some(ReactionSpeechType::REACTIONSPEECHREPORTBODYFOUND),
            38i32 => Some(ReactionSpeechType::REACTIONSPEECHGOSSIP),
            39i32 => Some(ReactionSpeechType::REACTIONSPEECHYAWN),
            40i32 => Some(ReactionSpeechType::REACTIONSPEECHSNORE),
            41i32 => Some(ReactionSpeechType::REACTIONSPEECHCHEER),
            42i32 => Some(ReactionSpeechType::REACTIONSPEECHSOB),
            43i32 => Some(ReactionSpeechType::REACTIONSPEECHCRYOUT),
            44i32 => Some(ReactionSpeechType::REACTIONSPEECHBATTLECRY),
            45i32 => Some(ReactionSpeechType::REACTIONSPEECHLYNCHCRY),
            46i32 => Some(ReactionSpeechType::REACTIONSPEECHWOUNDED),
            47i32 => Some(ReactionSpeechType::REACTIONSPEECHDIE),
            48i32 => Some(ReactionSpeechType::REACTIONSPEECHGUARDKILL),
            49i32 => Some(ReactionSpeechType::REACTIONSPEECHGUARDARREST),
            50i32 => Some(ReactionSpeechType::REACTIONSPEECHGUARDSECURITYSWEEP),
            51i32 => Some(ReactionSpeechType::REACTIONSPEECHGUARDWARNING1),
            52i32 => Some(ReactionSpeechType::REACTIONSPEECHGUARDWARNING2),
            53i32 => Some(ReactionSpeechType::REACTIONSPEECHGUARDWARNING3),
            54i32 => Some(ReactionSpeechType::REACTIONSPEECHGUARDWARNINGENDANDTHANKS),
            55i32 => Some(ReactionSpeechType::REACTIONSPEECHNORESPECT),
            56i32 => Some(ReactionSpeechType::MAXNOREACTIONSPEECHTYPES),
            _ => None,
        }
    }

    fn from_i32(value: i32) -> (r: Option<Self>) {
        match value {
            0i32 => Some(ReactionSpeechType::REACTIONSPEECHNULL),
            1i32 => Some(ReactionSpeechType::REACTIONSPEECHCALLOVERHERE),
            2i32 => Some(ReactionSpeechType::REACTIONSPEECHFAWNINGGREETING),
            3i32 => Some(ReactionSpeechType::REACTIONSPEECHFRIENDLYGREETING),
            4i32 => Some(ReactionSpeechType::REACTIONSPEECHSTRANGERSGREETING),
            5i32 => Some(ReactionSpeechType::REACTIONSPEECHNERVOUS),
            6i32 => Some(ReactionSpeechType::REACTIONSPEECHSCARED),
            7i32 => Some(ReactionSpeechType::REACTIONSPEECHTERRIFIED),
            8i32 => Some(ReactionSpeechType::REACTIONSPEECHINSULTED),
            9i32 => Some(ReactionSpeechType::REACTIONSPEECHANGRY),
            10i32 => Some(ReactionSpeechType::REACTIONSPEECHHATEFUL),
            11i32 => Some(ReactionSpeechType::REACTIONSPEECHTHREATOFRETRIBUTION),
            12i32 => Some(ReactionSpeechType::REACTIONSPEECHPROMISEOFRETRIBUTION),
            13i32 => Some(ReactionSpeechType::REACTIONSPEECHDISMISSIVE),
            14i32 => Some(ReactionSpeechType::REACTIONSPEECHBOTHERED),
            15i32 => Some(ReactionSpeechType::REACTIONSPEECHHARASSED),
            16i32 => Some(ReactionSpeechType::REACTIONSPEECHRIDICULING),
            17i32 => Some(ReactionSpeechType::REACTIONSPEECHINSULTS),
            18i32 => Some(ReactionSpeechType::REACTIONSPEECHATTRACTED),
            19i32 => Some(ReactionSpeechType::REACTIONSPEECHLOVING),
            20i32 => Some(ReactionSpeechType::REACTIONSPEECHSURPRISEDATABUSE),
            21i32 => Some(ReactionSpeechType::REACTIONSPEECHLOVINGANDSHOCKEDATABUSE),
            22i32 => Some(ReactionSpeechType::REACTIONSPEECHUNIMPRESSEDRESPONSETOTHREAT),
            23i32 => Some(ReactionSpeechType::REACTIONSPEECHRIDICULINGRESPONSETOTHREAT),
            24i32 => Some(ReactionSpeechType::REACTIONSPEECHLOVINGRESPONSETOFLIRT),
            25i32 => Some(ReactionSpeechType::REACTIONSPEECHATTRACTEDRESPONSETOFLIRT),
            26i32 => Some(ReactionSpeechType::REACTIONSPEECHNEUTRALREFUSALOFFLIRT),
            27i32 => Some(ReactionSpeechType::REACTIONSPEECHNEGATIVERESPONSETOFLIRT),
            28i32 => Some(ReactionSpeechType::REACTIONSPEECHFEARFULREFUSALOFFLIRT),
            29i32 => Some(ReactionSpeechType::REACTIONSPEECHGRATEFULACCEPTANCEOFBRIBE),
            30i32 => Some(ReactionSpeechType::REACTIONSPEECHPACIFIEDACCEPTANCEOFBRIBE),
            31i32 => Some(ReactionSpeechType::REACTIONSPEECHFRIENDLYREJECTIONOFBRIBE),
            32i32 => Some(ReactionSpeechType::REACTIONSPEECHUNFRIENDLYREJECTIONOFBRIBE),
            33i32 => Some(ReactionSpeechType::REACTIONSPEECHWARNAWAY),
            34i32 => Some(ReactionSpeechType::REACTIONSPEECHGIVEAWAY),
            35i32 => Some(ReactionSpeechType::REACTIONSPEECHREPORTCRIME),
            36i32 => Some(ReactionSpeechType::REACTIONSPEECHBODYFOUND),
            37i32 => Some(ReactionSpeechType::REACTIONSPEECHREPORTBODYFOUND),
            38i32 => Some(ReactionSpeechType::REACTIONSPEECHGOSSIP),
            39i32 => Some(ReactionSpeechType::REACTIONSPEECHYAWN),
            40i32 => Some(ReactionSpeechType::REACTIONSPEECHSNORE),
            41i32 => Some(ReactionSpeechType::REACTIONSPEECHCHEER),
            42i32 => Some(ReactionSpeechType::REACTIONSPEECHSOB),
            43i32 => Some(ReactionSpeechType::REACTIONSPEECHCRYOUT),
            44i32 => Some(ReactionSpeechType::REACTIONSPEECHBATTLECRY),
            45i32 => Some(ReactionSpeechType::REACTIONSPEECHLYNCHCRY),
            46i32 => Some(ReactionSpeechType::REACTIONSPEECHWOUNDED),
            47i32 => Some(ReactionSpeechType::REACTIONSPEECHDIE),
            48i32 => Some(ReactionSpeechType::REACTIONSPEECHGUARDKILL),
            49i32 => Some(ReactionSpeechType::REACTIONSPEECHGUARDARREST),
            50i32 => Some(ReactionSpeechType::REACTIONSPEECHGUARDSECURITYSWEEP),
            51i32 => Some(ReactionSpeechType::REACTIONSPEECHGUARDWARNING1),
            52i32 => Some(ReactionSpeechType::REACTIONSPEECHGUARDWARNING2),
            53i32 => Some(ReactionSpeechType::REACTIONSPEECHGUARDWARNING3),
            54i32 => Some(ReactionSpeechType::REACTIONSPEECHGUARDWARNINGENDANDTHANKS),
            55i32 => Some(ReactionSpeechType::REACTIONSPEECHNORESPECT),
            56i32 => Some(ReactionSpeechType::MAXNOREACTIONSPEECHTYPES),
            _ => None,
        }
    }

    fn to_i32(self) -> (r: i32) {
        match self {
            ReactionSpeechType::REACTIONSPEECHNULL => 0i32,
            ReactionSpeechType::REACTIONSPEECHCALLOVERHERE => 1i32,
            ReactionSpeechType::REACTIONSPEECHFAWNINGGREETING => 2i32,
            ReactionSpeechType::REACTIONSPEECHFRIENDLYGREETING => 3i32,
            ReactionSpeechType::REACTIONSPEECHSTRANGERSGREETING => 4i32,
            ReactionSpeechType::REACTIONSPEECHNERVOUS => 5i32,
            ReactionSpeechType::REACTIONSPEECHSCARED => 6i32,
            ReactionSpeechType::REACTIONSPEECHTERRIFIED => 7i32,
            ReactionSpeechType::REACTIONSPEECHINSULTED => 8i32,
            ReactionSpeechType::REACTIONSPEECHANGRY => 9i32,
            ReactionSpeechType::REACTIONSPEECHHATEFUL => 10i32,
            ReactionSpeechType::REACTIONSPEECHTHREATOFRETRIBUTION => 11i32,
            ReactionSpeechType::REACTIONSPEECHPROMISEOFRETRIBUTION => 12i32,
            ReactionSpeechType::REACTIONSPEECHDISMISSIVE => 13i32,
            ReactionSpeechType::REACTIONSPEECHBOTHERED => 14i32,
            ReactionSpeechType::REACTIONSPEECHHARASSED => 15i32,
            ReactionSpeechType::REACTIONSPEECHRIDICULING => 16i32,
            ReactionSpeechType::REACTIONSPEECHINSULTS => 17i32,
            ReactionSpeechType::REACTIONSPEECHATTRACTED => 18i32,
            ReactionSpeechType::REACTIONSPEECHLOVING => 19i32,
            ReactionSpeechType::REACTIONSPEECHSURPRISEDATABUSE => 20i32,
            ReactionSpeechType::REACTIONSPEECHLOVINGANDSHOCKEDATABUSE => 21i32,
            ReactionSpeechType::REACTIONSPEECHUNIMPRESSEDRESPONSETOTHREAT => 22i32,
            ReactionSpeechType::REACTIONSPEECHRIDICULINGRESPONSETOTHREAT => 23i32,
            ReactionSpeechType::REACTIONSPEECHLOVINGRESPONSETOFLIRT => 24i32,
            ReactionSpeechType::REACTIONSPEECHATTRACTEDRESPONSETOFLIRT => 25i32,
            ReactionSpeechType::REACTIONSPEECHNEUTRALREFUSALOFFLIRT => 26i32,
            ReactionSpeechType::REACTIONSPEECHNEGATIVERESPONSETOFLIRT => 27i32,
            ReactionSpeechType::REACTIONSPEECHFEARFULREFUSALOFFLIRT => 28i32,
            ReactionSpeechType::REACTIONSPEECHGRATEFULACCEPTANCEOFBRIBE => 29i32,
            ReactionSpeechType::REACTIONSPEECHPACIFIEDACCEPTANCEOFBRIBE => 30i32,
            ReactionSpeechType::REACTIONSPEECHFRIENDLYREJECTIONOFBRIBE => 31i32,
            ReactionSpeechType::REACTIONSPEECHUNFRIENDLYREJECTIONOFBRIBE => 32i32,
            ReactionSpeechType::REACTIONSPEECHWARNAWAY => 33i32,
            ReactionSpeechType::REACTIONSPEECHGIVEAWAY => 34i32,
            ReactionSpeechType::REACTIONSPEECHREPORTCRIME => 35i32,
            ReactionSpeechType::REACTIONSPEECHBODYFOUND => 36i32,
            ReactionSpeechType::REACTIONSPEECHREPORTBODYFOUND => 37i32,
            ReactionSpeechType::REACTIONSPEECHGOSSIP => 38i32,
            ReactionSpeechType::REACTIONSPEECHYAWN => 39i32,
            ReactionSpeechType::REACTIONSPEECHSNORE => 40i32,
            ReactionSpeechType::REACTIONSPEECHCHEER => 41i32,
            ReactionSpeechType::REACTIONSPEECHSOB => 42i32,
            ReactionSpeechType::REACTIONSPEECHCRYOUT => 43i32,
            ReactionSpeechType::REACTIONSPEECHBATTLECRY => 44i32,
            ReactionSpeechType::REACTIONSPEECHLYNCHCRY => 45i32,
            ReactionSpeechType::REACTIONSPEECHWOUNDED => 46i32,
            ReactionSpeechType::REACTIONSPEECHDIE => 47i32,
            ReactionSpeechType::REACTIONSPEECHGUARDKILL => 48i32,
            ReactionSpeechType::REACTIONSPEECHGUARDARREST => 49i32,
            ReactionSpeechType::REACTIONSPEECHGUARDSECURITYSWEEP => 50i32,
            ReactionSpeechType::REACTIONSPEECHGUARDWARNING1 => 51i32,
            ReactionSpeechType::REACTIONSPEECHGUARDWARNING2 => 52i32,
            ReactionSpeechType::REACTIONSPEECHGUARDWARNING3 => 53i32,
            ReactionSpeechType::REACTIONSPEECHGUARDWARNINGENDANDTHANKS => 54i32,
            ReactionSpeechType::REACTIONSPEECHNORESPECT => 55i32,
            ReactionSpeechType::MAXNOREACTIONSPEECHTYPES => 56i32,
        }
    }

    proof fn lemma_lookup_wire_value(e: Self) {
    }
}

impl ReactionSpeechType {
    /// The C++ enumerator symbol of `self`.
    pub open spec fn symbol_of(self) -> Seq<char> {
        match self {
            ReactionSpeechType::REACTIONSPEECHNULL => "REACTION_SPEECH_NULL"@,
            ReactionSpeechType::REACTIONSPEECHCALLOVERHERE => "REACTION_SPEECH_CALL_OVER_HERE"@,
            ReactionSpeechType::REACTIONSPEECHFAWNINGGREETING => "REACTION_SPEECH_FAWNING_GREETING"@,
            ReactionSpeechType::REACTIONSPEECHFRIENDLYGREETING => "REACTION_SPEECH_FRIENDLY_GREETING"@,
            ReactionSpeechType::REACTIONSPEECHSTRANGERSGREETING => "REACTION_SPEECH_STRANGERS_GREETING"@,
            ReactionSpeechType::REACTIONSPEECHNERVOUS => "REACTION_SPEECH_NERVOUS"@,
            ReactionSpeechType::REACTIONSPEECHSCARED => "REACTION_SPEECH_SCARED"@,
            ReactionSpeechType::REACTIONSPEECHTERRIFIED => "REACTION_SPEECH_TERRIFIED"@,
            ReactionSpeechType::REACTIONSPEECHINSULTED => "REACTION_SPEECH_INSULTED"@,
            ReactionSpeechType::REACTIONSPEECHANGRY => "REACTION_SPEECH_ANGRY"@,
            ReactionSpeechType::REACTIONSPEECHHATEFUL => "REACTION_SPEECH_HATEFUL"@,
            ReactionSpeechType::REACTIONSPEECHTHREATOFRETRIBUTION => "REACTION_SPEECH_THREAT_OF_RETRIBUTION"@,
            ReactionSpeechType::REACTIONSPEECHPROMISEOFRETRIBUTION => "REACTION_SPEECH_PROMISE_OF_RETRIBUTION"@,
            ReactionSpeechType::REACTIONSPEECHDISMISSIVE => "REACTION_SPEECH_DISMISSIVE"@,
            ReactionSpeechType::REACTIONSPEECHBOTHERED => "REACTION_SPEECH_BOTHERED"@,
            ReactionSpeechType::REACTIONSPEECHHARASSED => "REACTION_SPEECH_HARASSED"@,
            ReactionSpeechType::REACTIONSPEECHRIDICULING => "REACTION_SPEECH_RIDICULING"@,
            ReactionSpeechType::REACTIONSPEECHINSULTS => "REACTION_SPEECH_INSULTS"@,
            ReactionSpeechType::REACTIONSPEECHATTRACTED => "REACTION_SPEECH_ATTRACTED"@,
            ReactionSpeechType::REACTIONSPEECHLOVING => "REACTION_SPEECH_LOVING"@,
            ReactionSpeechType::REACTIONSPEECHSURPRISEDATABUSE => "REACTION_SPEECH_SURPRISED_AT_ABUSE"@,
            ReactionSpeechType::REACTIONSPEECHLOVINGANDSHOCKEDATABUSE => "REACTION_SPEECH_LOVING_AND_SHOCKED_AT_ABUSE"@,
            ReactionSpeechType::REACTIONSPEECHUNIMPRESSEDRESPONSETOTHREAT => "REACTION_SPEECH_UNIMPRESSED_RESPONSE_TO_THREAT"@,
            ReactionSpeechType::REACTIONSPEECHRIDICULINGRESPONSETOTHREAT => "REACTION_SPEECH_RIDICULING_RESPONSE_TO_THREAT"@,
            ReactionSpeechType::REACTIONSPEECHLOVINGRESPONSETOFLIRT => "REACTION_SPEECH_LOVING_RESPONSE_TO_FLIRT"@,
            ReactionSpeechType::REACTIONSPEECHATTRACTEDRESPONSETOFLIRT => "REACTION_SPEECH_ATTRACTED_RESPONSE_TO_FLIRT"@,
            ReactionSpeechType::REACTIONSPEECHNEUTRALREFUSALOFFLIRT => "REACTION_SPEECH_NEUTRAL_REFUSAL_OF_FLIRT"@,
            ReactionSpeechType::REACTIONSPEECHNEGATIVERESPONSETOFLIRT => "REACTION_SPEECH_NEGATIVE_RESPONSE_TO_FLIRT"@,
            ReactionSpeechType::REACTIONSPEECHFEARFULREFUSALOFFLIRT => "REACTION_SPEECH_FEARFUL_REFUSAL_OF_FLIRT"@,
            ReactionSpeechType::REACTIONSPEECHGRATEFULACCEPTANCEOFBRIBE => "REACTION_SPEECH_GRATEFUL_ACCEPTANCE_OF_BRIBE"@,
            ReactionSpeechType::REACTIONSPEECHPACIFIEDACCEPTANCEOFBRIBE => "REACTION_SPEECH_PACIFIED_ACCEPTANCE_OF_BRIBE"@,
            ReactionSpeechType::REACTIONSPEECHFRIENDLYREJECTIONOFBRIBE => "REACTION_SPEECH_FRIENDLY_REJECTION_OF_BRIBE"@,
            ReactionSpeechType::REACTIONSPEECHUNFRIENDLYREJECTIONOFBRIBE => "REACTION_SPEECH_UNFRIENDLY_REJECTION_OF_BRIBE"@,
            ReactionSpeechType::REACTIONSPEECHWARNAWAY => "REACTION_SPEECH_WARN_AWAY"@,
            ReactionSpeechType::REACTIONSPEECHGIVEAWAY => "REACTION_SPEECH_GIVE_AWAY"@,
            ReactionSpeechType::REACTIONSPEECHREPORTCRIME => "REACTION_SPEECH_REPORT_CRIME"@,
            ReactionSpeechType::REACTIONSPEECHBODYFOUND => "REACTION_SPEECH_BODY_FOUND"@,
            ReactionSpeechType::REACTIONSPEECHREPORTBODYFOUND => "REACTION_SPEECH_REPORT_BODY_FOUND"@,
            ReactionSpeechType::REACTIONSPEECHGOSSIP => "REACTION_SPEECH_GOSSIP"@,
            ReactionSpeechType::REACTIONSPEECHYAWN => "REACTION_SPEECH_YAWN"@,
            ReactionSpeechType::REACTIONSPEECHSNORE => "REACTION_SPEECH_SNORE"@,
            ReactionSpeechType::REACTIONSPEECHCHEER => "REACTION_SPEECH_CHEER"@,
            ReactionSpeechType::REACTIONSPEECHSOB => "REACTION_SPEECH_SOB"@,
            ReactionSpeechType::REACTIONSPEECHCRYOUT => "REACTION_SPEECH_CRY_OUT"@,
            ReactionSpeechType::REACTIONSPEECHBATTLECRY => "REACTION_SPEECH_BATTLE_CRY"@,
            ReactionSpeechType::REACTIONSPEECHLYNCHCRY => "REACTION_SPEECH_LYNCH_CRY"@,
            ReactionSpeechType::REACTIONSPEECHWOUNDED => "REACTION_SPEECH_WOUNDED"@,
            ReactionSpeechType::REACTIONSPEECHDIE => "REACTION_SPEECH_DIE"@,
            ReactionSpeechType::REACTIONSPEECHGUARDKILL => "REACTION_SPEECH_GUARD_KILL"@,
            ReactionSpeechType::REACTIONSPEECHGUARDARREST => "REACTION_SPEECH_GUARD_ARREST"@,
            ReactionSpeechType::REACTIONSPEECHGUARDSECURITYSWEEP => "REACTION_SPEECH_GUARD_SECURITY_SWEEP"@,
            ReactionSpeechType::REACTIONSPEECHGUARDWARNING1 => "REACTION_SPEECH_GUARD_WARNING_1"@,
            ReactionSpeechType::REACTIONSPEECHGUARDWARNING2 => "REACTION_SPEECH_GUARD_WARNING_2"@,
            ReactionSpeechType::REACTIONSPEECHGUARDWARNING3 => "REACTION_SPEECH_GUARD_WARNING_3"@,
            ReactionSpeechType::REACTIONSPEECHGUARDWARNINGENDANDTHANKS => "REACTION_SPEECH_GUARD_WARNING_END_AND_THANKS"@,
            ReactionSpeechType::REACTIONSPEECHNORESPECT => "REACTION_SPEECH_NO_RESPECT"@,
            ReactionSpeechType::MAXNOREACTIONSPEECHTYPES => "MAX_NO_REACTION_SPEECH_TYPES"@,
        }
    }

    /// The first variant whose symbol is `s`, if any.
    pub open spec fn symbol_lookup(s: Seq<char>) -> Option<Self> {
        if s == "REACTION_SPEECH_NULL"@ {
            Some(ReactionSpeechType::REACTIONSPEECHNULL)
        } else if s == "REACTION_SPEECH_CALL_OVER_HERE"@ {
            Some(ReactionSpeechType::REACTIONSPEECHCALLOVERHERE)
        } else if s == "REACTION_SPEECH_FAWNING_GREETING"@ {
            Some(ReactionSpeechType::REACTIONSPEECHFAWNINGGREETING)
        } else if s == "REACTION_SPEECH_FRIENDLY_GREETING"@ {
            Some(ReactionSpeechType::REACTIONSPEECHFRIENDLYGREETING)
        } else if s == "REACTION_SPEECH_STRANGERS_GREETING"@ {
            Some(ReactionSpeechType::REACTIONSPEECHSTRANGERSGREETING)
        } else if s == "REACTION_SPEECH_NERVOUS"@ {
            Some(ReactionSpeechType::REACTIONSPEECHNERVOUS)
        } else if s == "REACTION_SPEECH_SCARED"@ {
            Some(ReactionSpeechType::REACTIONSPEECHSCARED)
        } else if s == "REACTION_SPEECH_TERRIFIED"@ {
            Some(ReactionSpeechType::REACTIONSPEECHTERRIFIED)
        } else if s == "REACTION_SPEECH_INSULTED"@ {
            Some(ReactionSpeechType::REACTIONSPEECHINSULTED)
        } else if s == "REACTION_SPEECH_ANGRY"@ {
            Some(ReactionSpeechType::REACTIONSPEECHANGRY)
        } else if s == "REACTION_SPEECH_HATEFUL"@ {
            Some(ReactionSpeechType::REACTIONSPEECHHATEFUL)
        } else if s == "REACTION_SPEECH_THREAT_OF_RETRIBUTION"@ {
            Some(ReactionSpeechType::REACTIONSPEECHTHREATOFRETRIBUTION)
        } else if s == "REACTION_SPEECH_PROMISE_OF_RETRIBUTION"@ {
            Some(ReactionSpeechType::REACTIONSPEECHPROMISEOFRETRIBUTION)
        } else if s == "REACTION_SPEECH_DISMISSIVE"@ {
            Some(ReactionSpeechType::REACTIONSPEECHDISMISSIVE)
        } else if s == "REACTION_SPEECH_BOTHERED"@ {
            Some(ReactionSpeechType::REACTIONSPEECHBOTHERED)
        } else if s == "REACTION_SPEECH_HARASSED"@ {
            Some(ReactionSpeechType::REACTIONSPEECHHARASSED)
        } else if s == "REACTION_SPEECH_RIDICULING"@ {
            Some(ReactionSpeechType::REACTIONSPEECHRIDICULING)
        } else if s == "REACTION_SPEECH_INSULTS"@ {
            Some(ReactionSpeechType::REACTIONSPEECHINSULTS)
        } else if s == "REACTION_SPEECH_ATTRACTED"@ {
            Some(ReactionSpeechType::REACTIONSPEECHATTRACTED)
        } else if s == "REACTION_SPEECH_LOVING"@ {
            Some(ReactionSpeechType::REACTIONSPEECHLOVING)
        } else if s == "REACTION_SPEECH_SURPRISED_AT_ABUSE"@ {
            Some(ReactionSpeechType::REACTIONSPEECHSURPRISEDATABUSE)
        } else if s == "REACTION_SPEECH_LOVING_AND_SHOCKED_AT_ABUSE"@ {
            Some(ReactionSpeechType::REACTIONSPEECHLOVINGANDSHOCKEDATABUSE)
        } else if s == "REACTION_SPEECH_UNIMPRESSED_RESPONSE_TO_THREAT"@ {
            Some(ReactionSpeechType::REACTIONSPEECHUNIMPRESSEDRESPONSETOTHREAT)
        } else if s == "REACTION_SPEECH_RIDICULING_RESPONSE_TO_THREAT"@ {
            Some(ReactionSpeechType::REACTIONSPEECHRIDICULINGRESPONSETOTHREAT)
        } else if s == "REACTION_SPEECH_LOVING_RESPONSE_TO_FLIRT"@ {
            Some(ReactionSpeechType::REACTIONSPEECHLOVINGRESPONSETOFLIRT)
        } else if s == "REACTION_SPEECH_ATTRACTED_RESPONSE_TO_FLIRT"@ {
            Some(ReactionSpeechType::REACTIONSPEECHATTRACTEDRESPONSETOFLIRT)
        } else if s == "REACTION_SPEECH_NEUTRAL_REFUSAL_OF_FLIRT"@ {
            Some(ReactionSpeechType::REACTIONSPEECHNEUTRALREFUSALOFFLIRT)
        } else if s == "REACTION_SPEECH_NEGATIVE_RESPONSE_TO_FLIRT"@ {
            Some(ReactionSpeechType::REACTIONSPEECHNEGATIVERESPONSETOFLIRT)
        } else if s == "REACTION_SPEECH_FEARFUL_REFUSAL_OF_FLIRT"@ {
            Some(ReactionSpeechType::REACTIONSPEECHFEARFULREFUSALOFFLIRT)
        } else if s == "REACTION_SPEECH_GRATEFUL_ACCEPTANCE_OF_BRIBE"@ {
            Some(ReactionSpeechType::REACTIONSPEECHGRATEFULACCEPTANCEOFBRIBE)
        } else if s == "REACTION_SPEECH_PACIFIED_ACCEPTANCE_OF_BRIBE"@ {
            Some(ReactionSpeechType::REACTIONSPEECHPACIFIEDACCEPTANCEOFBRIBE)
        } else if s == "REACTION_SPEECH_FRIENDLY_REJECTION_OF_BRIBE"@ {
            Some(ReactionSpeechType::REACTIONSPEECHFRIENDLYREJECTIONOFBRIBE)
        } else if s == "REACTION_SPEECH_UNFRIENDLY_REJECTION_OF_BRIBE"@ {
            Some(ReactionSpeechType::REACTIONSPEECHUNFRIENDLYREJECTIONOFBRIBE)
        } else if s == "REACTION_SPEECH_WARN_AWAY"@ {
            Some(ReactionSpeechType::REACTIONSPEECHWARNAWAY)
        } else if s == "REACTION_SPEECH_GIVE_AWAY"@ {
            Some(ReactionSpeechType::REACTIONSPEECHGIVEAWAY)
        } else if s == "REACTION_SPEECH_REPORT_CRIME"@ {
            Some(ReactionSpeechType::REACTIONSPEECHREPORTCRIME)
        } else if s == "REACTION_SPEECH_BODY_FOUND"@ {
            Some(ReactionSpeechType::REACTIONSPEECHBODYFOUND)
        } else if s == "REACTION_SPEECH_REPORT_BODY_FOUND"@ {
            Some(ReactionSpeechType::REACTIONSPEECHREPORTBODYFOUND)
        } else if s == "REACTION_SPEECH_GOSSIP"@ {
            Some(ReactionSpeechType::REACTIONSPEECHGOSSIP)
        } else if s == "REACTION_SPEECH_YAWN"@ {
            Some(ReactionSpeechType::REACTIONSPEECHYAWN)
        } else if s == "REACTION_SPEECH_SNORE"@ {
            Some(ReactionSpeechType::REACTIONSPEECHSNORE)
        } else if s == "REACTION_SPEECH_CHEER"@ {
            Some(ReactionSpeechType::REACTIONSPEECHCHEER)
        } else if s == "REACTION_SPEECH_SOB"@ {
            Some(ReactionSpeechType::REACTIONSPEECHSOB)
        } else if s == "REACTION_SPEECH_CRY_OUT"@ {
            Some(ReactionSpeechType::REACTIONSPEECHCRYOUT)
        } else if s == "REACTION_SPEECH_BATTLE_CRY"@ {
            Some(ReactionSpeechType::REACTIONSPEECHBATTLECRY)
        } else if s == "REACTION_SPEECH_LYNCH_CRY"@ {
            Some(ReactionSpeechType::REACTIONSPEECHLYNCHCRY)
        } else if s == "REACTION_SPEECH_WOUNDED"@ {
            Some(ReactionSpeechType::REACTIONSPEECHWOUNDED)
        } else if s == "REACTION_SPEECH_DIE"@ {
            Some(ReactionSpeechType::REACTIONSPEECHDIE)
        } else if s == "REACTION_SPEECH_GUARD_KILL"@ {
            Some(ReactionSpeechType::REACTIONSPEECHGUARDKILL)
        } else if s == "REACTION_SPEECH_GUARD_ARREST"@ {
            Some(ReactionSpeechType::REACTIONSPEECHGUARDARREST)
        } else if s == "REACTION_SPEECH_GUARD_SECURITY_SWEEP"@ {
            Some(ReactionSpeechType::REACTIONSPEECHGUARDSECURITYSWEEP)
        } else if s == "REACTION_SPEECH_GUARD_WARNING_1"@ {
            Some(ReactionSpeechType::REACTIONSPEECHGUARDWARNING1)
        } else if s == "REACTION_SPEECH_GUARD_WARNING_2"@ {
            Some(ReactionSpeechType::REACTIONSPEECHGUARDWARNING2)
        } else if s == "REACTION_SPEECH_GUARD_WARNING_3"@ {
            Some(ReactionSpeechType::REACTIONSPEECHGUARDWARNING3)
        } else if s == "REACTION_SPEECH_GUARD_WARNING_END_AND_THANKS"@ {
            Some(ReactionSpeechType::REACTIONSPEECHGUARDWARNINGENDANDTHANKS)
        } else if s == "REACTION_SPEECH_NO_RESPECT"@ {
            Some(ReactionSpeechType::REACTIONSPEECHNORESPECT)
        } else if s == "MAX_NO_REACTION_SPEECH_TYPES"@ {
            Some(ReactionSpeechType::MAXNOREACTIONSPEECHTYPES)
        } else {
            None
        }
    }

    /// The C++ enumerator symbol text defs use for `self`.
    pub fn symbol(self) -> (r: &'static str)
        ensures
            r@ == self.symbol_of(),
    {
        match self {
            ReactionSpeechType::REACTIONSPEECHNULL => "REACTION_SPEECH_NULL",
            ReactionSpeechType::REACTIONSPEECHCALLOVERHERE => "REACTION_SPEECH_CALL_OVER_HERE",
            ReactionSpeechType::REACTIONSPEECHFAWNINGGREETING => "REACTION_SPEECH_FAWNING_GREETING",
            ReactionSpeechType::REACTIONSPEECHFRIENDLYGREETING => "REACTION_SPEECH_FRIENDLY_GREETING",
            ReactionSpeechType::REACTIONSPEECHSTRANGERSGREETING => "REACTION_SPEECH_STRANGERS_GREETING",
            ReactionSpeechType::REACTIONSPEECHNERVOUS => "REACTION_SPEECH_NERVOUS",
            ReactionSpeechType::REACTIONSPEECHSCARED => "REACTION_SPEECH_SCARED",
            ReactionSpeechType::REACTIONSPEECHTERRIFIED => "REACTION_SPEECH_TERRIFIED",
            ReactionSpeechType::REACTIONSPEECHINSULTED => "REACTION_SPEECH_INSULTED",
            ReactionSpeechType::REACTIONSPEECHANGRY => "REACTION_SPEECH_ANGRY",
            ReactionSpeechType::REACTIONSPEECHHATEFUL => "REACTION_SPEECH_HATEFUL",
            ReactionSpeechType::REACTIONSPEECHTHREATOFRETRIBUTION => "REACTION_SPEECH_THREAT_OF_RETRIBUTION",
            ReactionSpeechType::REACTIONSPEECHPROMISEOFRETRIBUTION => "REACTION_SPEECH_PROMISE_OF_RETRIBUTION",
            ReactionSpeechType::REACTIONSPEECHDISMISSIVE => "REACTION_SPEECH_DISMISSIVE",
            ReactionSpeechType::REACTIONSPEECHBOTHERED => "REACTION_SPEECH_BOTHERED",
            ReactionSpeechType::REACTIONSPEECHHARASSED => "REACTION_SPEECH_HARASSED",
            ReactionSpeechType::REACTIONSPEECHRIDICULING => "REACTION_SPEECH_RIDICULING",
            ReactionSpeechType::REACTIONSPEECHINSULTS => "REACTION_SPEECH_INSULTS",
            ReactionSpeechType::REACTIONSPEECHATTRACTED => "REACTION_SPEECH_ATTRACTED",
            ReactionSpeechType::REACTIONSPEECHLOVING => "REACTION_SPEECH_LOVING",
            ReactionSpeechType::REACTIONSPEECHSURPRISEDATABUSE => "REACTION_SPEECH_SURPRISED_AT_ABUSE",
            ReactionSpeechType::REACTIONSPEECHLOVINGANDSHOCKEDATABUSE => "REACTION_SPEECH_LOVING_AND_SHOCKED_AT_ABUSE",
            ReactionSpeechType::REACTIONSPEECHUNIMPRESSEDRESPONSETOTHREAT => "REACTION_SPEECH_UNIMPRESSED_RESPONSE_TO_THREAT",
            ReactionSpeechType::REACTIONSPEECHRIDICULINGRESPONSETOTHREAT => "REACTION_SPEECH_RIDICULING_RESPONSE_TO_THREAT",
            ReactionSpeechType::REACTIONSPEECHLOVINGRESPONSETOFLIRT => "REACTION_SPEECH_LOVING_RESPONSE_TO_FLIRT",
            ReactionSpeechType::REACTIONSPEECHATTRACTEDRESPONSETOFLIRT => "REACTION_SPEECH_ATTRACTED_RESPONSE_TO_FLIRT",
            ReactionSpeechType::REACTIONSPEECHNEUTRALREFUSALOFFLIRT => "REACTION_SPEECH_NEUTRAL_REFUSAL_OF_FLIRT",
            ReactionSpeechType::REACTIONSPEECHNEGATIVERESPONSETOFLIRT => "REACTION_SPEECH_NEGATIVE_RESPONSE_TO_FLIRT",
            ReactionSpeechType::REACTIONSPEECHFEARFULREFUSALOFFLIRT => "REACTION_SPEECH_FEARFUL_REFUSAL_OF_FLIRT",
            ReactionSpeechType::REACTIONSPEECHGRATEFULACCEPTANCEOFBRIBE => "REACTION_SPEECH_GRATEFUL_ACCEPTANCE_OF_BRIBE",
            ReactionSpeechType::REACTIONSPEECHPACIFIEDACCEPTANCEOFBRIBE => "REACTION_SPEECH_PACIFIED_ACCEPTANCE_OF_BRIBE",
            ReactionSpeechType::REACTIONSPEECHFRIENDLYREJECTIONOFBRIBE => "REACTION_SPEECH_FRIENDLY_REJECTION_OF_BRIBE",
            ReactionSpeechType::REACTIONSPEECHUNFRIENDLYREJECTIONOFBRIBE => "REACTION_SPEECH_UNFRIENDLY_REJECTION_OF_BRIBE",
            ReactionSpeechType::REACTIONSPEECHWARNAWAY => "REACTION_SPEECH_WARN_AWAY",
            ReactionSpeechType::REACTIONSPEECHGIVEAWAY => "REACTION_SPEECH_GIVE_AWAY",
            ReactionSpeechType::REACTIONSPEECHREPORTCRIME => "REACTION_SPEECH_REPORT_CRIME",
            ReactionSpeechType::REACTIONSPEECHBODYFOUND => "REACTION_SPEECH_BODY_FOUND",
            ReactionSpeechType::REACTIONSPEECHREPORTBODYFOUND => "REACTION_SPEECH_REPORT_BODY_FOUND",
            ReactionSpeechType::REACTIONSPEECHGOSSIP => "REACTION_SPEECH_GOSSIP",
            ReactionSpeechType::REACTIONSPEECHYAWN => "REACTION_SPEECH_YAWN",
            ReactionSpeechType::REACTIONSPEECHSNORE => "REACTION_SPEECH_SNORE",
            ReactionSpeechType::REACTIONSPEECHCHEER => "REACTION_SPEECH_CHEER",
            ReactionSpeechType::REACTIONSPEECHSOB => "REACTION_SPEECH_SOB",
            ReactionSpeechType::REACTIONSPEECHCRYOUT => "REACTION_SPEECH_CRY_OUT",
            ReactionSpeechType::REACTIONSPEECHBATTLECRY => "REACTION_SPEECH_BATTLE_CRY",
            ReactionSpeechType::REACTIONSPEECHLYNCHCRY => "REACTION_SPEECH_LYNCH_CRY",
            ReactionSpeechType::REACTIONSPEECHWOUNDED => "REACTION_SPEECH_WOUNDED",
            ReactionSpeechType::REACTIONSPEECHDIE => "REACTION_SPEECH_DIE",
            ReactionSpeechType::REACTIONSPEECHGUARDKILL => "REACTION_SPEECH_GUARD_KILL",
            ReactionSpeechType::REACTIONSPEECHGUARDARREST => "REACTION_SPEECH_GUARD_ARREST",
            ReactionSpeechType::REACTIONSPEECHGUARDSECURITYSWEEP => "REACTION_SPEECH_GUARD_SECURITY_SWEEP",
            ReactionSpeechType::REACTIONSPEECHGUARDWARNING1 => "REACTION_SPEECH_GUARD_WARNING_1",
            ReactionSpeechType::REACTIONSPEECHGUARDWARNING2 => "REACTION_SPEECH_GUARD_WARNING_2",
            ReactionSpeechType::REACTIONSPEECHGUARDWARNING3 => "REACTION_SPEECH_GUARD_WARNING_3",
            ReactionSpeechType::REACTIONSPEECHGUARDWARNINGENDANDTHANKS => "REACTION_SPEECH_GUARD_WARNING_END_AND_THANKS",
            ReactionSpeechType::REACTIONSPEECHNORESPECT => "REACTION_SPEECH_NO_RESPECT",
            ReactionSpeechType::MAXNOREACTIONSPEECHTYPES => "MAX_NO_REACTION_SPEECH_TYPES",
        }
    }

    /// The variant a C++ enumerator symbol names.
    pub fn from_symbol(s: &str) -> (r: Option<Self>)
        ensures
            r == Self::symbol_lookup(s@),
    {
        if str_eq(s, "REACTION_SPEECH_NULL") {
            return Some(ReactionSpeechType::REACTIONSPEECHNULL);
        }
        if str_eq(s, "REACTION_SPEECH_CALL_OVER_HERE") {
            return Some(ReactionSpeechType::REACTIONSPEECHCALLOVERHERE);
        }
        if str_eq(s, "REACTION_SPEECH_FAWNING_GREETING") {
            return Some(ReactionSpeechType::REACTIONSPEECHFAWNINGGREETING);
        }
        if str_eq(s, "REACTION_SPEECH_FRIENDLY_GREETING") {
            return Some(ReactionSpeechType::REACTIONSPEECHFRIENDLYGREETING);
        }
        if str_eq(s, "REACTION_SPEECH_STRANGERS_GREETING") {
            return Some(ReactionSpeechType::REACTIONSPEECHSTRANGERSGREETING);
        }
        if str_eq(s, "REACTION_SPEECH_NERVOUS") {
            return Some(ReactionSpeechType::REACTIONSPEECHNERVOUS);
        }
        if str_eq(s, "REACTION_SPEECH_SCARED") {
            return Some(ReactionSpeechType::REACTIONSPEECHSCARED);
        }
        if str_eq(s, "REACTION_SPEECH_TERRIFIED") {
            return Some(ReactionSpeechType::REACTIONSPEECHTERRIFIED);
        }
        if str_eq(s, "REACTION_SPEECH_INSULTED") {
            return Some(ReactionSpeechType::REACTIONSPEECHINSULTED);
        }
        if str_eq(s, "REACTION_SPEECH_ANGRY") {
            return Some(ReactionSpeechType::REACTIONSPEECHANGRY);
        }
        if str_eq(s, "REACTION_SPEECH_HATEFUL") {
            return Some(ReactionSpeechType::REACTIONSPEECHHATEFUL);
        }
        if str_eq(s, "REACTION_SPEECH_THREAT_OF_RETRIBUTION") {
            return Some(ReactionSpeechType::REACTIONSPEECHTHREATOFRETRIBUTION);
        }
        if str_eq(s, "REACTION_SPEECH_PROMISE_OF_RETRIBUTION") {
            return Some(ReactionSpeechType::REACTIONSPEECHPROMISEOFRETRIBUTION);
        }
        if str_eq(s, "REACTION_SPEECH_DISMISSIVE") {
            return Some(ReactionSpeechType::REACTIONSPEECHDISMISSIVE);
        }
        if str_eq(s, "REACTION_SPEECH_BOTHERED") {
            return Some(ReactionSpeechType::REACTIONSPEECHBOTHERED);
        }
        if str_eq(s, "REACTION_SPEECH_HARASSED") {
            return Some(ReactionSpeechType::REACTIONSPEECHHARASSED);
        }
        if str_eq(s, "REACTION_SPEECH_RIDICULING") {
            return Some(ReactionSpeechType::REACTIONSPEECHRIDICULING);
        }
        if str_eq(s, "REACTION_SPEECH_INSULTS") {
            return Some(ReactionSpeechType::REACTIONSPEECHINSULTS);
        }
        if str_eq(s, "REACTION_SPEECH_ATTRACTED") {
            return Some(ReactionSpeechType::REACTIONSPEECHATTRACTED);
        }
        if str_eq(s, "REACTION_SPEECH_LOVING") {
            return Some(ReactionSpeechType::REACTIONSPEECHLOVING);
        }
        if str_eq(s, "REACTION_SPEECH_SURPRISED_AT_ABUSE") {
            return Some(ReactionSpeechType::REACTIONSPEECHSURPRISEDATABUSE);
        }
        if str_eq(s, "REACTION_SPEECH_LOVING_AND_SHOCKED_AT_ABUSE") {
            return Some(ReactionSpeechType::REACTIONSPEECHLOVINGANDSHOCKEDATABUSE);
        }
        if str_eq(s, "REACTION_SPEECH_UNIMPRESSED_RESPONSE_TO_THREAT") {
            return Some(ReactionSpeechType::REACTIONSPEECHUNIMPRESSEDRESPONSETOTHREAT);
        }
        if str_eq(s, "REACTION_SPEECH_RIDICULING_RESPONSE_TO_THREAT") {
            return Some(ReactionSpeechType::REACTIONSPEECHRIDICULINGRESPONSETOTHREAT);
        }
        if str_eq(s, "REACTION_SPEECH_LOVING_RESPONSE_TO_FLIRT") {
            return Some(ReactionSpeechType::REACTIONSPEECHLOVINGRESPONSETOFLIRT);
        }
        if str_eq(s, "REACTION_SPEECH_ATTRACTED_RESPONSE_TO_FLIRT") {
            return Some(ReactionSpeechType::REACTIONSPEECHATTRACTEDRESPONSETOFLIRT);
        }
        if str_eq(s, "REACTION_SPEECH_NEUTRAL_REFUSAL_OF_FLIRT") {
            return Some(ReactionSpeechType::REACTIONSPEECHNEUTRALREFUSALOFFLIRT);
        }
        if str_eq(s, "REACTION_SPEECH_NEGATIVE_RESPONSE_TO_FLIRT") {
            return Some(ReactionSpeechType::REACTIONSPEECHNEGATIVERESPONSETOFLIRT);
        }
        if str_eq(s, "REACTION_SPEECH_FEARFUL_REFUSAL_OF_FLIRT") {
            return Some(ReactionSpeechType::REACTIONSPEECHFEARFULREFUSALOFFLIRT);
        }
        if str_eq(s, "REACTION_SPEECH_GRATEFUL_ACCEPTANCE_OF_BRIBE") {
            return Some(ReactionSpeechType::REACTIONSPEECHGRATEFULACCEPTANCEOFBRIBE);
        }
        if str_eq(s, "REACTION_SPEECH_PACIFIED_ACCEPTANCE_OF_BRIBE") {
            return Some(ReactionSpeechType::REACTIONSPEECHPACIFIEDACCEPTANCEOFBRIBE);
        }
        if str_eq(s, "REACTION_SPEECH_FRIENDLY_REJECTION_OF_BRIBE") {
            return Some(ReactionSpeechType::REACTIONSPEECHFRIENDLYREJECTIONOFBRIBE);
        }
        if str_eq(s, "REACTION_SPEECH_UNFRIENDLY_REJECTION_OF_BRIBE") {
            return Some(ReactionSpeechType::REACTIONSPEECHUNFRIENDLYREJECTIONOFBRIBE);
        }
        if str_eq(s, "REACTION_SPEECH_WARN_AWAY") {
            return Some(ReactionSpeechType::REACTIONSPEECHWARNAWAY);
        }
        if str_eq(s, "REACTION_SPEECH_GIVE_AWAY") {
            return Some(ReactionSpeechType::REACTIONSPEECHGIVEAWAY);
        }
        if str_eq(s, "REACTION_SPEECH_REPORT_CRIME") {
            return Some(ReactionSpeechType::REACTIONSPEECHREPORTCRIME);
        }
        if str_eq(s, "REACTION_SPEECH_BODY_FOUND") {
            return Some(ReactionSpeechType::REACTIONSPEECHBODYFOUND);
        }
        if str_eq(s, "REACTION_SPEECH_REPORT_BODY_FOUND") {
            return Some(ReactionSpeechType::REACTIONSPEECHREPORTBODYFOUND);
        }
        if str_eq(s, "REACTION_SPEECH_GOSSIP") {
            return Some(ReactionSpeechType::REACTIONSPEECHGOSSIP);
        }
        if str_eq(s, "REACTION_SPEECH_YAWN") {
            return Some(ReactionSpeechType::REACTIONSPEECHYAWN);
        }
        if str_eq(s, "REACTION_SPEECH_SNORE") {
            return Some(ReactionSpeechType::REACTIONSPEECHSNORE);
        }
        if str_eq(s, "REACTION_SPEECH_CHEER") {
            return Some(ReactionSpeechType::REACTIONSPEECHCHEER);
        }
        if str_eq(s, "REACTION_SPEECH_SOB") {
            return Some(ReactionSpeechType::REACTIONSPEECHSOB);
        }
        if str_eq(s, "REACTION_SPEECH_CRY_OUT") {
            return Some(ReactionSpeechType::REACTIONSPEECHCRYOUT);
        }
        if str_eq(s, "REACTION_SPEECH_BATTLE_CRY") {
            return Some(ReactionSpeechType::REACTIONSPEECHBATTLECRY);
        }
        if str_eq(s, "REACTION_SPEECH_LYNCH_CRY") {
            return Some(ReactionSpeechType::REACTIONSPEECHLYNCHCRY);
        }
        if str_eq(s, "REACTION_SPEECH_WOUNDED") {
            return Some(ReactionSpeechType::REACTIONSPEECHWOUNDED);
        }
        if str_eq(s, "REACTION_SPEECH_DIE") {
            return Some(ReactionSpeechType::REACTIONSPEECHDIE);
        }
        if str_eq(s, "REACTION_SPEECH_GUARD_KILL") {
            return Some(ReactionSpeechType::REACTIONSPEECHGUARDKILL);
        }
        if str_eq(s, "REACTION_SPEECH_GUARD_ARREST") {
            return Some(ReactionSpeechType::REACTIONSPEECHGUARDARREST);
        }
        if str_eq(s, "REACTION_SPEECH_GUARD_SECURITY_SWEEP") {
            return Some(ReactionSpeechType::REACTIONSPEECHGUARDSECURITYSWEEP);
        }
        if str_eq(s, "REACTION_SPEECH_GUARD_WARNING_1") {
            return Some(ReactionSpeechType::REACTIONSPEECHGUARDWARNING1);
        }
        if str_eq(s, "REACTION_SPEECH_GUARD_WARNING_2") {
            return Some(ReactionSpeechType::REACTIONSPEECHGUARDWARNING2);
        }
        if str_eq(s, "REACTION_SPEECH_GUARD_WARNING_3") {
            return Some(ReactionSpeechType::REACTIONSPEECHGUARDWARNING3);
        }
        if str_eq(s, "REACTION_SPEECH_GUARD_WARNING_END_AND_THANKS") {
            return Some(ReactionSpeechType::REACTIONSPEECHGUARDWARNINGENDANDTHANKS);
        }
        if str_eq(s, "REACTION_SPEECH_NO_RESPECT") {
            return Some(ReactionSpeechType::REACTIONSPEECHNORESPECT);
        }
        if str_eq(s, "MAX_NO_REACTION_SPEECH_TYPES") {
            return Some(ReactionSpeechType::MAXNOREACTIONSPEECHTYPES);
        }
        None
    }
}

#[derive(Debug, Clone, Copy, PartialEq, Eq, Structural, PartialOrd, Ord, Hash)]
pub enum ReverbEnvironmentType {
    NULL,
    EXTERNAL,
    CAVE,
    HALL,
    GUILD,
    GUILDSMALL,
    SMALLROOM,
    SCHOOL,
}

impl DefEnum for ReverbEnvironmentType {
    open spec fn wire_value(self) -> i32 {
        match self {
            ReverbEnvironmentType::NULL => 0i32,
            ReverbEnvironmentType::EXTERNAL => 1i32,
            ReverbEnvironmentType::CAVE => 2i32,
            ReverbEnvironmentType::HALL => 3i32,
            ReverbEnvironmentType::GUILD => 4i32,
            ReverbEnvironmentType::GUILDSMALL => 5i32,
            ReverbEnvironmentType::SMALLROOM => 6i32,
            ReverbEnvironmentType::SCHOOL => 7i32,
        }
    }

    open spec fn lookup(value: i32) -> Option<Self> {
        match value {
            0i32 => Some(ReverbEnvironmentType::NULL),
            1i32 => Some(ReverbEnvironmentType::EXTERNAL),
            2i32 => Some(ReverbEnvironmentType::CAVE),
            3i32 => Some(ReverbEnvironmentType::HALL),
            4i32 => Some(ReverbEnvironmentType::GUILD),
            5i32 => Some(ReverbEnvironmentType::GUILDSMALL),
            6i32 => Some(ReverbEnvironmentType::SMALLROOM),
            7i32 => Some(ReverbEnvironmentType::SCHOOL),
            _ => None,
        }
    }

    fn from_i32(value: i32) -> (r: Option<Self>) {
        match value {
            0i32 => Some(ReverbEnvironmentType::NULL),
            1i32 => Some(ReverbEnvironmentType::EXTERNAL),
            2i32 => Some(ReverbEnvironmentType::CAVE),
            3i32 => Some(ReverbEnvironmentType::HALL),
            4i32 => Some(ReverbEnvironmentType::GUILD),
            5i32 => Some(ReverbEnvironmentType::GUILDSMALL),
            6i32 => Some(ReverbEnvironmentType::SMALLROOM),
            7i32 => Some(ReverbEnvironmentType::SCHOOL),
            _ => None,
        }
    }

    fn to_i32(self) -> (r: i32) {
        match self {
            ReverbEnvironmentType::NULL => 0i32,
            ReverbEnvironmentType::EXTERNAL => 1i32,
            ReverbEnvironmentType::CAVE => 2i32,
            ReverbEnvironmentType::HALL => 3i32,
            ReverbEnvironmentType::GUILD => 4i32,
            ReverbEnvironmentType::GUILDSMALL => 5i32,
            ReverbEnvironmentType::SMALLROOM => 6i32,
            ReverbEnvironmentType::SCHOOL => 7i32,
        }
    }

    proof fn lemma_lookup_wire_value(e: Self) {
    }
}

impl ReverbEnvironmentType {
    /// The C++ enumerator symbol of `self`.
    pub open spec fn symbol_of(self) -> Seq<char> {
        match self {
            ReverbEnvironmentType::NULL => "REVERB_ENVIRONMENT_NULL"@,
            ReverbEnvironmentType::EXTERNAL => "REVERB_ENVIRONMENT_EXTERNAL"@,
            ReverbEnvironmentType::CAVE => "REVERB_ENVIRONMENT_CAVE"@,
            ReverbEnvironmentType::HALL => "REVERB_ENVIRONMENT_HALL"@,
            ReverbEnvironmentType::GUILD => "REVERB_ENVIRONMENT_GUILD"@,
            ReverbEnvironmentType::GUILDSMALL => "REVERB_ENVIRONMENT_GUILD_SMALL"@,
            ReverbEnvironmentType::SMALLROOM => "REVERB_ENVIRONMENT_SMALL_ROOM"@,
            ReverbEnvironmentType::SCHOOL => "REVERB_ENVIRONMENT_SCHOOL"@,
        }
    }

    /// The first variant whose symbol is `s`, if any.
    pub open spec fn symbol_lookup(s: Seq<char>) -> Option<Self> {
        if s == "REVERB_ENVIRONMENT_NULL"@ {
            Some(ReverbEnvironmentType::NULL)
        } else if s == "REVERB_ENVIRONMENT_EXTERNAL"@ {
            Some(ReverbEnvironmentType::EXTERNAL)
        } else if s == "REVERB_ENVIRONMENT_CAVE"@ {
            Some(ReverbEnvironmentType::CAVE)
        } else if s == "REVERB_ENVIRONMENT_HALL"@ {
            Some(ReverbEnvironmentType::HALL)
        } else if s == "REVERB_ENVIRONMENT_GUILD"@ {
            Some(ReverbEnvironmentType::GUILD)
        } else if s == "REVERB_ENVIRONMENT_GUILD_SMALL"@ {
            Some(ReverbEnvironmentType::GUILDSMALL)
        } else if s == "REVERB_ENVIRONMENT_SMALL_ROOM"@ {
            Some(ReverbEnvironmentType::SMALLROOM)
        } else if s == "REVERB_ENVIRONMENT_SCHOOL"@ {
            Some(ReverbEnvironmentType::SCHOOL)
        } else {
            None
        }
    }

    /// The C++ enumerator symbol text defs use for `self`.
    pub fn symbol(self) -> (r: &'static str)
        ensures
            r@ == self.symbol_of(),
    {
        match self {
            ReverbEnvironmentType::NULL => "REVERB_ENVIRONMENT_NULL",
            ReverbEnvironmentType::EXTERNAL => "REVERB_ENVIRONMENT_EXTERNAL",
            ReverbEnvironmentType::CAVE => "REVERB_ENVIRONMENT_CAVE",
            ReverbEnvironmentType::HALL => "REVERB_ENVIRONMENT_HALL",
            ReverbEnvironmentType::GUILD => "REVERB_ENVIRONMENT_GUILD",
            ReverbEnvironmentType::GUILDSMALL => "REVERB_ENVIRONMENT_GUILD_SMALL",
            ReverbEnvironmentType::SMALLROOM => "REVERB_ENVIRONMENT_SMALL_ROOM",
            ReverbEnvironmentType::SCHOOL => "REVERB_ENVIRONMENT_SCHOOL",
        }
    }

    /// The variant a C++ enumerator symbol names.
    pub fn from_symbol(s: &str) -> (r: Option<Self>)
        ensures
            r == Self::symbol_lookup(s@),
    {
        if str_eq(s, "REVERB_ENVIRONMENT_NULL") {
            return Some(ReverbEnvironmentType::NULL);
        }
        if str_eq(s, "REVERB_ENVIRONMENT_EXTERNAL") {
            return Some(ReverbEnvironmentType::EXTERNAL);
        }
        if str_eq(s, "REVERB_ENVIRONMENT_CAVE") {
            return Some(ReverbEnvironmentType::CAVE);
        }
        if str_eq(s, "REVERB_ENVIRONMENT_HALL") {
            return Some(ReverbEnvironmentType::HALL);
        }
        if str_eq(s, "REVERB_ENVIRONMENT_GUILD") {
            return Some(ReverbEnvironmentType::GUILD);
        }
        if str_eq(s, "REVERB_ENVIRONMENT_GUILD_SMALL") {
            return Some(ReverbEnvironmentType::GUILDSMALL);
        }
        if str_eq(s, "REVERB_ENVIRONMENT_SMALL_ROOM") {
            return Some(ReverbEnvironmentType::SMALLROOM);
        }
        if str_eq(s, "REVERB_ENVIRONMENT_SCHOOL") {
            return Some(ReverbEnvironmentType::SCHOOL);
        }
        None
    }
}

#[derive(Debug, Clone, Copy, PartialEq, Eq, Structural, PartialOrd, Ord, Hash)]
pub enum ScriptingStateGroups {
    NONE,
    PERFORMACTIONPHYSICAL,
    PERFORMACTIONVERBAL,
    PERFORMACTIONAURAL,
    WANDERNEAR,
    FOLLOWPATH,
    FOLLOWRANDOM,
    FOLLOWNEAREST,
    WALKTORANDOM,
    WALKTONEARESTDIFFERENT,
    RUNATHEROANDATTACKUNTILDEAD,
}

impl DefEnum for ScriptingStateGroups {
    open spec fn wire_value(self) -> i32 {
        match self {
            ScriptingStateGroups::NONE => 0i32,
            ScriptingStateGroups::PERFORMACTIONPHYSICAL => 1i32,
            ScriptingStateGroups::PERFORMACTIONVERBAL => 2i32,
            ScriptingStateGroups::PERFORMACTIONAURAL => 3i32,
            ScriptingStateGroups::WANDERNEAR => 4i32,
            ScriptingStateGroups::FOLLOWPATH => 5i32,
            ScriptingStateGroups::FOLLOWRANDOM => 6i32,
            ScriptingStateGroups::FOLLOWNEAREST => 7i32,
            ScriptingStateGroups::WALKTORANDOM => 8i32,
            ScriptingStateGroups::WALKTONEARESTDIFFERENT => 9i32,
            ScriptingStateGroups::RUNATHEROANDATTACKUNTILDEAD => 10i32,
        }
    }

    open spec fn lookup(value: i32) -> Option<Self> {
        match value {
            0i32 => Some(ScriptingStateGroups::NONE),
            1i32 => Some(ScriptingStateGroups::PERFORMACTIONPHYSICAL),
            2i32 => Some(ScriptingStateGroups::PERFORMACTIONVERBAL),
            3i32 => Some(ScriptingStateGroups::PERFORMACTIONAURAL),
            4i32 => Some(ScriptingStateGroups::WANDERNEAR),
            5i32 => Some(ScriptingStateGroups::FOLLOWPATH),
            6i32 => Some(ScriptingStateGroups::FOLLOWRANDOM),
            7i32 => Some(ScriptingStateGroups::FOLLOWNEAREST),
            8i32 => Some(ScriptingStateGroups::WALKTORANDOM),
            9i32 => Some(ScriptingStateGroups::WALKTONEARESTDIFFERENT),
            10i32 => Some(ScriptingStateGroups::RUNATHEROANDATTACKUNTILDEAD),
            _ => None,
        }
    }

    fn from_i32(value: i32) -> (r: Option<Self>) {
        match value {
            0i32 => Some(ScriptingStateGroups::NONE),
            1i32 => Some(ScriptingStateGroups::PERFORMACTIONPHYSICAL),
            2i32 => Some(ScriptingStateGroups::PERFORMACTIONVERBAL),
            3i32 => Some(ScriptingStateGroups::PERFORMACTIONAURAL),
            4i32 => Some(ScriptingStateGroups::WANDERNEAR),
            5i32 => Some(ScriptingStateGroups::FOLLOWPATH),
            6i32 => Some(ScriptingStateGroups::FOLLOWRANDOM),
            7i32 => Some(ScriptingStateGroups::FOLLOWNEAREST),
            8i32 => Some(ScriptingStateGroups::WALKTORANDOM),
            9i32 => Some(ScriptingStateGroups::WALKTONEARESTDIFFERENT),
            10i32 => Some(ScriptingStateGroups::RUNATHEROANDATTACKUNTILDEAD),
            _ => None,
        }
    }

    fn to_i32(self) -> (r: i32) {
        match self {
            ScriptingStateGroups::NONE => 0i32,
            ScriptingStateGroups::PERFORMACTIONPHYSICAL => 1i32,
            ScriptingStateGroups::PERFORMACTIONVERBAL => 2i32,
            ScriptingStateGroups::PERFORMACTIONAURAL => 3i32,
            ScriptingStateGroups::WANDERNEAR => 4i32,
            ScriptingStateGroups::FOLLOWPATH => 5i32,
            ScriptingStateGroups::FOLLOWRANDOM => 6i32,
            ScriptingStateGroups::FOLLOWNEAREST => 7i32,
            ScriptingStateGroups::WALKTORANDOM => 8i32,
            ScriptingStateGroups::WALKTONEARESTDIFFERENT => 9i32,
            ScriptingStateGroups::RUNATHEROANDATTACKUNTILDEAD => 10i32,
        }
    }

    proof fn lemma_lookup_wire_value(e: Self) {
    }
}

impl ScriptingStateGroups {
    /// The C++ enumerator symbol of `self`.
    pub open spec fn symbol_of(self) -> Seq<char> {
        match self {
            ScriptingStateGroups::NONE => "ESSG_NONE"@,
            ScriptingStateGroups::PERFORMACTIONPHYSICAL => "ESSG_PERFORM_ACTION_PHYSICAL"@,
            ScriptingStateGroups::PERFORMACTIONVERBAL => "ESSG_PERFORM_ACTION_VERBAL"@,
            ScriptingStateGroups::PERFORMACTIONAURAL => "ESSG_PERFORM_ACTION_AURAL"@,
            ScriptingStateGroups::WANDERNEAR => "ESSG_WANDER_NEAR"@,
            ScriptingStateGroups::FOLLOWPATH => "ESSG_FOLLOW_PATH"@,
            ScriptingStateGroups::FOLLOWRANDOM => "ESSG_FOLLOW_RANDOM"@,
            ScriptingStateGroups::FOLLOWNEAREST => "ESSG_FOLLOW_NEAREST"@,
            ScriptingStateGroups::WALKTORANDOM => "ESSG_WALK_TO_RANDOM"@,
            ScriptingStateGroups::WALKTONEARESTDIFFERENT => "ESSG_WALK_TO_NEAREST_DIFFERENT"@,
            ScriptingStateGroups::RUNATHEROANDATTACKUNTILDEAD => "ESSG_RUN_AT_HERO_AND_ATTACK_UNTIL_DEAD"@,
        }
    }

    /// The first variant whose symbol is `s`, if any.
    pub open spec fn symbol_lookup(s: Seq<char>) -> Option<Self> {
        if s == "ESSG_NONE"@ {
            Some(ScriptingStateGroups::NONE)
        } else if s == "ESSG_PERFORM_ACTION_PHYSICAL"@ {
            Some(ScriptingStateGroups::PERFORMACTIONPHYSICAL)
        } else if s == "ESSG_PERFORM_ACTION_VERBAL"@ {
            Some(ScriptingStateGroups::PERFORMACTIONVERBAL)
        } else if s == "ESSG_PERFORM_ACTION_AURAL"@ {
            Some(ScriptingStateGroups::PERFORMACTIONAURAL)
        } else if s == "ESSG_WANDER_NEAR"@ {
            Some(ScriptingStateGroups::WANDERNEAR)
        } else if s == "ESSG_FOLLOW_PATH"@ {
            Some(ScriptingStateGroups::FOLLOWPATH)
        } else if s == "ESSG_FOLLOW_RANDOM"@ {
            Some(ScriptingStateGroups::FOLLOWRANDOM)
        } else if s == "ESSG_FOLLOW_NEAREST"@ {
            Some(ScriptingStateGroups::FOLLOWNEAREST)
        } else if s == "ESSG_WALK_TO_RANDOM"@ {
            Some(ScriptingStateGroups::WALKTORANDOM)
        } else if s == "ESSG_WALK_TO_NEAREST_DIFFERENT"@ {
            Some(ScriptingStateGroups::WALKTONEARESTDIFFERENT)
        } else if s == "ESSG_RUN_AT_HERO_AND_ATTACK_UNTIL_DEAD"@ {
            Some(ScriptingStateGroups::RUNATHEROANDATTACKUNTILDEAD)
        } else {
            None
        }
    }

    /// The C++ enumerator symbol text defs use for `self`.
    pub fn symbol(self) -> (r: &'static str)
        ensures
            r@ == self.symbol_of(),
    {
        match self {
            ScriptingStateGroups::NONE => "ESSG_NONE",
            ScriptingStateGroups::PERFORMACTIONPHYSICAL => "ESSG_PERFORM_ACTION_PHYSICAL",
            ScriptingStateGroups::PERFORMACTIONVERBAL => "ESSG_PERFORM_ACTION_VERBAL",
            ScriptingStateGroups::PERFORMACTIONAURAL => "ESSG_PERFORM_ACTION_AURAL",
            ScriptingStateGroups::WANDERNEAR => "ESSG_WANDER_NEAR",
            ScriptingStateGroups::FOLLOWPATH => "ESSG_FOLLOW_PATH",
            ScriptingStateGroups::FOLLOWRANDOM => "ESSG_FOLLOW_RANDOM",
            ScriptingStateGroups::FOLLOWNEAREST => "ESSG_FOLLOW_NEAREST",
            ScriptingStateGroups::WALKTORANDOM => "ESSG_WALK_TO_RANDOM",
            ScriptingStateGroups::WALKTONEARESTDIFFERENT => "ESSG_WALK_TO_NEAREST_DIFFERENT",
            ScriptingStateGroups::RUNATHEROANDATTACKUNTILDEAD => "ESSG_RUN_AT_HERO_AND_ATTACK_UNTIL_DEAD",
        }
    }

    /// The variant a C++ enumerator symbol names.
    pub fn from_symbol(s: &str) -> (r: Option<Self>)
        ensures
            r == Self::symbol_lookup(s@),
    {
        if str_eq(s, "ESSG_NONE") {
            return Some(ScriptingStateGroups::NONE);
        }
        if str_eq(s, "ESSG_PERFORM_ACTION_PHYSICAL") {
            return Some(ScriptingStateGroups::PERFORMACTIONPHYSICAL);
        }
        if str_eq(s, "ESSG_PERFORM_ACTION_VERBAL") {
            return Some(ScriptingStateGroups::PERFORMACTIONVERBAL);
        }
        if str_eq(s, "ESSG_PERFORM_ACTION_AURAL") {
            return Some(ScriptingStateGroups::PERFORMACTIONAURAL);
        }
        if str_eq(s, "ESSG_WANDER_NEAR") {
            return Some(ScriptingStateGroups::WANDERNEAR);
        }
        if str_eq(s, "ESSG_FOLLOW_PATH") {
            return Some(ScriptingStateGroups::FOLLOWPATH);
        }
        if str_eq(s, "ESSG_FOLLOW_RANDOM") {
            return Some(ScriptingStateGroups::FOLLOWRANDOM);
        }
        if str_eq(s, "ESSG_FOLLOW_NEAREST") {
            return Some(ScriptingStateGroups::FOLLOWNEAREST);
        }
        if str_eq(s, "ESSG_WALK_TO_RANDOM") {
            return Some(ScriptingStateGroups::WALKTORANDOM);
        }
        if str_eq(s, "ESSG_WALK_TO_NEAREST_DIFFERENT") {
            return Some(ScriptingStateGroups::WALKTONEARESTDIFFERENT);
        }
        if str_eq(s, "ESSG_RUN_AT_HERO_AND_ATTACK_UNTIL_DEAD") {
            return Some(ScriptingStateGroups::RUNATHEROANDATTACKUNTILDEAD);
        }
        None
    }
}

#[derive(Debug, Clone, Copy, PartialEq, Eq, Structural, PartialOrd, Ord, Hash)]
pub enum Sex {
    SEXNULL,
    SEXMALE,
    SEXFEMALE,
    NOOFSEXES,
}

impl DefEnum for Sex {
    open spec fn wire_value(self) -> i32 {
        match self {
            Sex::SEXNULL => 0i32,
            Sex::SEXMALE => 1i32,
            Sex::SEXFEMALE => 2i32,
            Sex::NOOFSEXES => 3i32,
        }
    }

    open spec fn lookup(value: i32) -> Option<Self> {
        match value {
            0i32 => Some(Sex::SEXNULL),
            1i32 => Some(Sex::SEXMALE),
            2i32 => Some(Sex::SEXFEMALE),
            3i32 => Some(Sex::NOOFSEXES),
            _ => None,
        }
    }

    fn from_i32(value: i32) -> (r: Option<Self>) {
        match value {
            0i32 => Some(Sex::SEXNULL),
            1i32 => Some(Sex::SEXMALE),
            2i32 => Some(Sex::SEXFEMALE),
            3i32 => Some(Sex::NOOFSEXES),
            _ => None,
        }
    }

    fn to_i32(self) -> (r: i32) {
        match self {
            Sex::SEXNULL => 0i32,
            Sex::SEXMALE => 1i32,
            Sex::SEXFEMALE => 2i32,
            Sex::NOOFSEXES => 3i32,
        }
    }

    proof fn lemma_lookup_wire_value(e: Self) {
    }
}

impl Sex {
    /// The C++ enumerator symbol of `self`.
    pub open spec fn symbol_of(self) -> Seq<char> {
        match self {
            Sex::SEXNULL => "SEX_NULL"@,
            Sex::SEXMALE => "SEX_MALE"@,
            Sex::SEXFEMALE => "SEX_FEMALE"@,
            Sex::NOOFSEXES => "NO_OF_SEXES"@,
        }
    }

    /// The first variant whose symbol is `s`, if any.
    pub open spec fn symbol_lookup(s: Seq<char>) -> Option<Self> {
        if s == "SEX_NULL"@ {
            Some(Sex::SEXNULL)
        } else if s == "SEX_MALE"@ {
            Some(Sex::SEXMALE)
        } else if s == "SEX_FEMALE"@ {
            Some(Sex::SEXFEMALE)
        } else if s == "NO_OF_SEXES"@ {
            Some(Sex::NOOFSEXES)
        } else {
            None
        }
    }

    /// The C++ enumerator symbol text defs use for `self`.
    pub fn symbol(self) -> (r: &'static str)
        ensures
            r@ == self.symbol_of(),
    {
        match self {
            Sex::SEXNULL => "SEX_NULL",
            Sex::SEXMALE => "SEX_MALE",
            Sex::SEXFEMALE => "SEX_FEMALE",
            Sex::NOOFSEXES => "NO_OF_SEXES",
        }
    }

    /// The variant a C++ enumerator symbol names.
    pub fn from_symbol(s: &str) -> (r: Option<Self>)
        ensures
            r == Self::symbol_lookup(s@),
    {
        if str_eq(s, "SEX_NULL") {
            return Some(Sex::SEXNULL);
        }
        if str_eq(s, "SEX_MALE") {
            return Some(Sex::SEXMALE);
        }
        if str_eq(s, "SEX_FEMALE") {
            return Some(Sex::SEXFEMALE);
        }
        if str_eq(s, "NO_OF_SEXES") {
            return Some(Sex::NOOFSEXES);
        }
        None
    }
}

#[derive(Debug, Clone, Copy, PartialEq, Eq, Structural, PartialOrd, Ord, Hash, Default)]
pub struct SwitchTriggerType(pub i32);

impl SwitchTriggerType {
    /// The bits of `SWITCH_TRIGGER_PLAYER_ONLY_ONCE_IN_AREA`.
    pub const PLAYER_ONLY_ONCE_IN_AREA: i32 = 1i32;
    /// The bits of `SWITCH_TRIGGER_PLAYER_ONLY_MULTIPLE_TIMES_IN_AREA`.
    pub const PLAYER_ONLY_MULTIPLE_TIMES_IN_AREA: i32 = 2i32;
    /// The bits of `SWITCH_TRIGGER_PLAYER_ONLY_RESET_WHEN_LEAVES`.
    pub const PLAYER_ONLY_RESET_WHEN_LEAVES: i32 = 3i32;
    /// The bits of `SWITCH_TRIGGER_PLAYER_SHOW_AREA_NAME`.
    pub const PLAYER_SHOW_AREA_NAME: i32 = 4i32;
    /// The bits of `SWITCH_TRIGGER_PLAYER_CHANGE_ENVIRONMENT_THEME`.
    pub const PLAYER_CHANGE_ENVIRONMENT_THEME: i32 = 5i32;
    /// The bits of `SWITCH_TRIGGER_ONCE_ON_ITEM_APPLICATION`.
    pub const ONCE_ON_ITEM_APPLICATION: i32 = 6i32;

    /// The flag a C++ enumerator symbol names, if any.
    pub open spec fn symbol_lookup(s: Seq<char>) -> Option<Self> {
        if s == "SWITCH_TRIGGER_PLAYER_ONLY_ONCE_IN_AREA"@ {
            Some(SwitchTriggerType(1i32))
        } else if s == "SWITCH_TRIGGER_PLAYER_ONLY_MULTIPLE_TIMES_IN_AREA"@ {
            Some(SwitchTriggerType(2i32))
        } else if s == "SWITCH_TRIGGER_PLAYER_ONLY_RESET_WHEN_LEAVES"@ {
            Some(SwitchTriggerType(3i32))
        } else if s == "SWITCH_TRIGGER_PLAYER_SHOW_AREA_NAME"@ {
            Some(SwitchTriggerType(4i32))
        } else if s == "SWITCH_TRIGGER_PLAYER_CHANGE_ENVIRONMENT_THEME"@ {
            Some(SwitchTriggerType(5i32))
        } else if s == "SWITCH_TRIGGER_ONCE_ON_ITEM_APPLICATION"@ {
            Some(SwitchTriggerType(6i32))
        } else {
            None
        }
    }

    /// The set holding exactly the bits of `value` (lossless).
    pub fn from_i32(value: i32) -> (r: Self)
        ensures
            r.0 == value,
    {
        SwitchTriggerType(value)
    }

    pub fn to_i32(self) -> (r: i32)
        ensures
            r == self.0,
    {
        self.0
    }

    /// Whether every bit of `other` is set in `self`.
    pub fn contains(self, other: Self) -> (r: bool)
        ensures
            r == (self.0 & other.0 == other.0),
    {
        self.0 & other.0 == other.0
    }

    /// Whether no bit is set.
    pub fn is_empty(self) -> (r: bool)
        ensures
            r == (self.0 == 0),
    {
        self.0 == 0
    }

    /// The bits set in either.
    pub fn union(self, other: Self) -> (r: Self)
        ensures
            r.0 == self.0 | other.0,
    {
        SwitchTriggerType(self.0 | other.0)
    }

    /// The flag a C++ enumerator symbol names.
    pub fn from_symbol(s: &str) -> (r: Option<Self>)
        ensures
            r == Self::symbol_lookup(s@),
    {
        if str_eq(s, "SWITCH_TRIGGER_PLAYER_ONLY_ONCE_IN_AREA") {
            return Some(SwitchTriggerType(1i32));
        }
        if str_eq(s, "SWITCH_TRIGGER_PLAYER_ONLY_MULTIPLE_TIMES_IN_AREA") {
            return Some(SwitchTriggerType(2i32));
        }
        if str_eq(s, "SWITCH_TRIGGER_PLAYER_ONLY_RESET_WHEN_LEAVES") {
            return Some(SwitchTriggerType(3i32));
        }
        if str_eq(s, "SWITCH_TRIGGER_PLAYER_SHOW_AREA_NAME") {
            return Some(SwitchTriggerType(4i32));
        }
        if str_eq(s, "SWITCH_TRIGGER_PLAYER_CHANGE_ENVIRONMENT_THEME") {
            return Some(SwitchTriggerType(5i32));
        }
        if str_eq(s, "SWITCH_TRIGGER_ONCE_ON_ITEM_APPLICATION") {
            return Some(SwitchTriggerType(6i32));
        }
        None
    }
}

impl core::ops::BitOr for SwitchTriggerType {
    type Output = SwitchTriggerType;

    fn bitor(self, rhs: SwitchTriggerType) -> (r: SwitchTriggerType) {
        SwitchTriggerType(self.0 | rhs.0)
    }
}

impl vstd::std_specs::ops::BitOrSpecImpl for SwitchTriggerType {
    open spec fn obeys_bitor_spec() -> bool {
        true
    }

    open spec fn bitor_req(self, rhs: SwitchTriggerType) -> bool {
        true
    }

    open spec fn bitor_spec(self, rhs: SwitchTriggerType) -> SwitchTriggerType {
        SwitchTriggerType(self.0 | rhs.0)
    }
}

#[derive(Debug, Clone, Copy, PartialEq, Eq, Structural, PartialOrd, Ord, Hash)]
pub enum TavernGameControlType {
    RELATIVE,
    ABSOLUTE,
}

impl DefEnum for TavernGameControlType {
    open spec fn wire_value(self) -> i32 {
        match self {
            TavernGameControlType::RELATIVE => 0i32,
            TavernGameControlType::ABSOLUTE => 1i32,
        }
    }

    open spec fn lookup(value: i32) -> Option<Self> {
        match value {
            0i32 => Some(TavernGameControlType::RELATIVE),
            1i32 => Some(TavernGameControlType::ABSOLUTE),
            _ => None,
        }
    }

    fn from_i32(value: i32) -> (r: Option<Self>) {
        match value {
            0i32 => Some(TavernGameControlType::RELATIVE),
            1i32 => Some(TavernGameControlType::ABSOLUTE),
            _ => None,
        }
    }

    fn to_i32(self) -> (r: i32) {
        match self {
            TavernGameControlType::RELATIVE => 0i32,
            TavernGameControlType::ABSOLUTE => 1i32,
        }
    }

    proof fn lemma_lookup_wire_value(e: Self) {
    }
}

impl TavernGameControlType {
    /// The C++ enumerator symbol of `self`.
    pub open spec fn symbol_of(self) -> Seq<char> {
        match self {
            TavernGameControlType::RELATIVE => "ETGCT_RELATIVE"@,
            TavernGameControlType::ABSOLUTE => "ETGCT_ABSOLUTE"@,
        }
    }

    /// The first variant whose symbol is `s`, if any.
    pub open spec fn symbol_lookup(s: Seq<char>) -> Option<Self> {
        if s == "ETGCT_RELATIVE"@ {
            Some(TavernGameControlType::RELATIVE)
        } else if s == "ETGCT_ABSOLUTE"@ {
            Some(TavernGameControlType::ABSOLUTE)
        } else {
            None
        }
    }

    /// The C++ enumerator symbol text defs use for `self`.
    pub fn symbol(self) -> (r: &'static str)
        ensures
            r@ == self.symbol_of(),
    {
        match self {
            TavernGameControlType::RELATIVE => "ETGCT_RELATIVE",
            TavernGameControlType::ABSOLUTE => "ETGCT_ABSOLUTE",
        }
    }

    /// The variant a C++ enumerator symbol names.
    pub fn from_symbol(s: &str) -> (r: Option<Self>)
        ensures
            r == Self::symbol_lookup(s@),
    {
        if str_eq(s, "ETGCT_RELATIVE") {
            return Some(TavernGameControlType::RELATIVE);
        }
        if str_eq(s, "ETGCT_ABSOLUTE") {
            return Some(TavernGameControlType::ABSOLUTE);
        }
        None
    }
}

#[derive(Debug, Clone, Copy, PartialEq, Eq, Structural, PartialOrd, Ord, Hash)]
pub enum ThingCreatureProperty {
    NULL,
    ISMINION,
    ANNOYABLEBYKIDS,
    GUARD,
    FIREFLY,
}

impl DefEnum for ThingCreatureProperty {
    open spec fn wire_value(self) -> i32 {
        match self {
            ThingCreatureProperty::NULL => 0i32,
            ThingCreatureProperty::ISMINION => 1i32,
            ThingCreatureProperty::ANNOYABLEBYKIDS => 2i32,
            ThingCreatureProperty::GUARD => 3i32,
            ThingCreatureProperty::FIREFLY => 4i32,
        }
    }

    open spec fn lookup(value: i32) -> Option<Self> {
        match value {
            0i32 => Some(ThingCreatureProperty::NULL),
            1i32 => Some(ThingCreatureProperty::ISMINION),
            2i32 => Some(ThingCreatureProperty::ANNOYABLEBYKIDS),
            3i32 => Some(ThingCreatureProperty::GUARD),
            4i32 => Some(ThingCreatureProperty::FIREFLY),
            _ => None,
        }
    }

    fn from_i32(value: i32) -> (r: Option<Self>) {
        match value {
            0i32 => Some(ThingCreatureProperty::NULL),
            1i32 => Some(ThingCreatureProperty::ISMINION),
            2i32 => Some(ThingCreatureProperty::ANNOYABLEBYKIDS),
            3i32 => Some(ThingCreatureProperty::GUARD),
            4i32 => Some(ThingCreatureProperty::FIREFLY),
            _ => None,
        }
    }

    fn to_i32(self) -> (r: i32) {
        match self {
            ThingCreatureProperty::NULL => 0i32,
            ThingCreatureProperty::ISMINION => 1i32,
            ThingCreatureProperty::ANNOYABLEBYKIDS => 2i32,
            ThingCreatureProperty::GUARD => 3i32,
            ThingCreatureProperty::FIREFLY => 4i32,
        }
    }

    proof fn lemma_lookup_wire_value(e: Self) {
    }
}

impl ThingCreatureProperty {
    /// The C++ enumerator symbol of `self`.
    pub open spec fn symbol_of(self) -> Seq<char> {
        match self {
            ThingCreatureProperty::NULL => "THING_CREATURE_PROPERTY_NULL"@,
            ThingCreatureProperty::ISMINION => "THING_CREATURE_PROPERTY_IS_MINION"@,
            ThingCreatureProperty::ANNOYABLEBYKIDS => "THING_CREATURE_PROPERTY_ANNOYABLE_BY_KIDS"@,
            ThingCreatureProperty::GUARD => "THING_CREATURE_PROPERTY_GUARD"@,
            ThingCreatureProperty::FIREFLY => "THING_CREATURE_PROPERTY_FIREFLY"@,
        }
    }

    /// The first variant whose symbol is `s`, if any.
    pub open spec fn symbol_lookup(s: Seq<char>) -> Option<Self> {
        if s == "THING_CREATURE_PROPERTY_NULL"@ {
            Some(ThingCreatureProperty::NULL)
        } else if s == "THING_CREATURE_PROPERTY_IS_MINION"@ {
            Some(ThingCreatureProperty::ISMINION)
        } else if s == "THING_CREATURE_PROPERTY_ANNOYABLE_BY_KIDS"@ {
            Some(ThingCreatureProperty::ANNOYABLEBYKIDS)
        } else if s == "THING_CREATURE_PROPERTY_GUARD"@ {
            Some(ThingCreatureProperty::GUARD)
        } else if s == "THING_CREATURE_PROPERTY_FIREFLY"@ {
            Some(ThingCreatureProperty::FIREFLY)
        } else {
            None
        }
    }

    /// The C++ enumerator symbol text defs use for `self`.
    pub fn symbol(self) -> (r: &'static str)
        ensures
            r@ == self.symbol_of(),
    {
        match self {
            ThingCreatureProperty::NULL => "THING_CREATURE_PROPERTY_NULL",
            ThingCreatureProperty::ISMINION => "THING_CREATURE_PROPERTY_IS_MINION",
            ThingCreatureProperty::ANNOYABLEBYKIDS => "THING_CREATURE_PROPERTY_ANNOYABLE_BY_KIDS",
            ThingCreatureProperty::GUARD => "THING_CREATURE_PROPERTY_GUARD",
            ThingCreatureProperty::FIREFLY => "THING_CREATURE_PROPERTY_FIREFLY",
        }
    }

    /// The variant a C++ enumerator symbol names.
    pub fn from_symbol(s: &str) -> (r: Option<Self>)
        ensures
            r == Self::symbol_lookup(s@),
    {
        if str_eq(s, "THING_CREATURE_PROPERTY_NULL") {
            return Some(ThingCreatureProperty::NULL);
        }
        if str_eq(s, "THING_CREATURE_PROPERTY_IS_MINION") {
            return Some(ThingCreatureProperty::ISMINION);
        }
        if str_eq(s, "THING_CREATURE_PROPERTY_ANNOYABLE_BY_KIDS") {
            return Some(ThingCreatureProperty::ANNOYABLEBYKIDS);
        }
        if str_eq(s, "THING_CREATURE_PROPERTY_GUARD") {
            return Some(ThingCreatureProperty::GUARD);
        }
        if str_eq(s, "THING_CREATURE_PROPERTY_FIREFLY") {
            return Some(ThingCreatureProperty::FIREFLY);
        }
        None
    }
}

#[derive(Debug, Clone, Copy, PartialEq, Eq, Structural, PartialOrd, Ord, Hash)]
pub enum TrapTriggerType {
    MANUAL,
    PROXIMITY,
}

impl DefEnum for TrapTriggerType {
    open spec fn wire_value(self) -> i32 {
        match self {
            TrapTriggerType::MANUAL => 0i32,
            TrapTriggerType::PROXIMITY => 1i32,
        }
    }

    open spec fn lookup(value: i32) -> Option<Self> {
        match value {
            0i32 => Some(TrapTriggerType::MANUAL),
            1i32 => Some(TrapTriggerType::PROXIMITY),
            _ => None,
        }
    }

    fn from_i32(value: i32) -> (r: Option<Self>) {
        match value {
            0i32 => Some(TrapTriggerType::MANUAL),
            1i32 => Some(TrapTriggerType::PROXIMITY),
            _ => None,
        }
    }

    fn to_i32(self) -> (r: i32) {
        match self {
            TrapTriggerType::MANUAL => 0i32,
            TrapTriggerType::PROXIMITY => 1i32,
        }
    }

    proof fn lemma_lookup_wire_value(e: Self) {
    }
}

impl TrapTriggerType {
    /// The C++ enumerator symbol of `self`.
    pub open spec fn symbol_of(self) -> Seq<char> {
        match self {
            TrapTriggerType::MANUAL => "TRAP_TRIGGER_MANUAL"@,
            TrapTriggerType::PROXIMITY => "TRAP_TRIGGER_PROXIMITY"@,
        }
    }

    /// The first variant whose symbol is `s`, if any.
    pub open spec fn symbol_lookup(s: Seq<char>) -> Option<Self> {
        if s == "TRAP_TRIGGER_MANUAL"@ {
            Some(TrapTriggerType::MANUAL)
        } else if s == "TRAP_TRIGGER_PROXIMITY"@ {
            Some(TrapTriggerType::PROXIMITY)
        } else {
            None
        }
    }

    /// The C++ enumerator symbol text defs use for `self`.
    pub fn symbol(self) -> (r: &'static str)
        ensures
            r@ == self.symbol_of(),
    {
        match self {
            TrapTriggerType::MANUAL => "TRAP_TRIGGER_MANUAL",
            TrapTriggerType::PROXIMITY => "TRAP_TRIGGER_PROXIMITY",
        }
    }

    /// The variant a C++ enumerator symbol names.
    pub fn from_symbol(s: &str) -> (r: Option<Self>)
        ensures
            r == Self::symbol_lookup(s@),
    {
        if str_eq(s, "TRAP_TRIGGER_MANUAL") {
            return Some(TrapTriggerType::MANUAL);
        }
        if str_eq(s, "TRAP_TRIGGER_PROXIMITY") {
            return Some(TrapTriggerType::PROXIMITY);
        }
        None
    }
}

#[derive(Debug, Clone, Copy, PartialEq, Eq, Structural, PartialOrd, Ord, Hash)]
pub enum TrapType {
    TRIGGERONCEONLY,
    TRIGGERANDRESET,
    TRIGGERANDPLAYCONTINUOUS,
    PLAYCONTINUOUS,
    TRIGGERANDDIE,
}

impl DefEnum for TrapType {
    open spec fn wire_value(self) -> i32 {
        match self {
            TrapType::TRIGGERONCEONLY => 0i32,
            TrapType::TRIGGERANDRESET => 1i32,
            TrapType::TRIGGERANDPLAYCONTINUOUS => 2i32,
            TrapType::PLAYCONTINUOUS => 3i32,
            TrapType::TRIGGERANDDIE => 4i32,
        }
    }

    open spec fn lookup(value: i32) -> Option<Self> {
        match value {
            0i32 => Some(TrapType::TRIGGERONCEONLY),
            1i32 => Some(TrapType::TRIGGERANDRESET),
            2i32 => Some(TrapType::TRIGGERANDPLAYCONTINUOUS),
            3i32 => Some(TrapType::PLAYCONTINUOUS),
            4i32 => Some(TrapType::TRIGGERANDDIE),
            _ => None,
        }
    }

    fn from_i32(value: i32) -> (r: Option<Self>) {
        match value {
            0i32 => Some(TrapType::TRIGGERONCEONLY),
            1i32 => Some(TrapType::TRIGGERANDRESET),
            2i32 => Some(TrapType::TRIGGERANDPLAYCONTINUOUS),
            3i32 => Some(TrapType::PLAYCONTINUOUS),
            4i32 => Some(TrapType::TRIGGERANDDIE),
            _ => None,
        }
    }

    fn to_i32(self) -> (r: i32) {
        match self {
            TrapType::TRIGGERONCEONLY => 0i32,
            TrapType::TRIGGERANDRESET => 1i32,
            TrapType::TRIGGERANDPLAYCONTINUOUS => 2i32,
            TrapType::PLAYCONTINUOUS => 3i32,
            TrapType::TRIGGERANDDIE => 4i32,
        }
    }

    proof fn lemma_lookup_wire_value(e: Self) {
    }
}

impl TrapType {
    /// The C++ enumerator symbol of `self`.
    pub open spec fn symbol_of(self) -> Seq<char> {
        match self {
            TrapType::TRIGGERONCEONLY => "TRAP_TYPE_TRIGGER_ONCE_ONLY"@,
            TrapType::TRIGGERANDRESET => "TRAP_TYPE_TRIGGER_AND_RESET"@,
            TrapType::TRIGGERANDPLAYCONTINUOUS => "TRAP_TYPE_TRIGGER_AND_PLAY_CONTINUOUS"@,
            TrapType::PLAYCONTINUOUS => "TRAP_TYPE_PLAY_CONTINUOUS"@,
            TrapType::TRIGGERANDDIE => "TRAP_TYPE_TRIGGER_AND_DIE"@,
        }
    }

    /// The first variant whose symbol is `s`, if any.
    pub open spec fn symbol_lookup(s: Seq<char>) -> Option<Self> {
        if s == "TRAP_TYPE_TRIGGER_ONCE_ONLY"@ {
            Some(TrapType::TRIGGERONCEONLY)
        } else if s == "TRAP_TYPE_TRIGGER_AND_RESET"@ {
            Some(TrapType::TRIGGERANDRESET)
        } else if s == "TRAP_TYPE_TRIGGER_AND_PLAY_CONTINUOUS"@ {
            Some(TrapType::TRIGGERANDPLAYCONTINUOUS)
        } else if s == "TRAP_TYPE_PLAY_CONTINUOUS"@ {
            Some(TrapType::PLAYCONTINUOUS)
        } else if s == "TRAP_TYPE_TRIGGER_AND_DIE"@ {
            Some(TrapType::TRIGGERANDDIE)
        } else {
            None
        }
    }

    /// The C++ enumerator symbol text defs use for `self`.
    pub fn symbol(self) -> (r: &'static str)
        ensures
            r@ == self.symbol_of(),
    {
        match self {
            TrapType::TRIGGERONCEONLY => "TRAP_TYPE_TRIGGER_ONCE_ONLY",
            TrapType::TRIGGERANDRESET => "TRAP_TYPE_TRIGGER_AND_RESET",
            TrapType::TRIGGERANDPLAYCONTINUOUS => "TRAP_TYPE_TRIGGER_AND_PLAY_CONTINUOUS",
            TrapType::PLAYCONTINUOUS => "TRAP_TYPE_PLAY_CONTINUOUS",
            TrapType::TRIGGERANDDIE => "TRAP_TYPE_TRIGGER_AND_DIE",
        }
    }

    /// The variant a C++ enumerator symbol names.
    pub fn from_symbol(s: &str) -> (r: Option<Self>)
        ensures
            r == Self::symbol_lookup(s@),
    {
        if str_eq(s, "TRAP_TYPE_TRIGGER_ONCE_ONLY") {
            return Some(TrapType::TRIGGERONCEONLY);
        }
        if str_eq(s, "TRAP_TYPE_TRIGGER_AND_RESET") {
            return Some(TrapType::TRIGGERANDRESET);
        }
        if str_eq(s, "TRAP_TYPE_TRIGGER_AND_PLAY_CONTINUOUS") {
            return Some(TrapType::TRIGGERANDPLAYCONTINUOUS);
        }
        if str_eq(s, "TRAP_TYPE_PLAY_CONTINUOUS") {
            return Some(TrapType::PLAYCONTINUOUS);
        }
        if str_eq(s, "TRAP_TYPE_TRIGGER_AND_DIE") {
            return Some(TrapType::TRIGGERANDDIE);
        }
        None
    }
}

#[derive(Debug, Clone, Copy, PartialEq, Eq, Structural, PartialOrd, Ord, Hash)]
pub enum TutorialCategory {
    NONE,
    ABILITYASSIGNING,
    ABILITYCYCLING,
    BASICOBJECTS,
    BED,
    BOASTING,
    CAMERA,
    CHARITYSHOP,
    CHEST,
    COMBATMULTIPLIER,
    CREATUREDROP,
    DYING,
    DEMONDOOR,
    DOOR,
    EXPERIENCE,
    EXPERIENCESPENDING,
    EXPRESSION,
    FLIRTING,
    FLOURISHINGMOVE,
    GOLDMARKERS,
    GUILDSEAL,
    INTERACTING,
    INVENTORY,
    INVENTORYASSIGNING,
    LEVELLINGUP,
    MORALITY,
    MOVEMENT,
    QUEST,
    QUESTCARD,
    RENOWN,
    TAKINGQUESTS,
    TELEPORTING,
    TRADEITEM,
    SEARCHING,
    SNEAK,
    BUILDINGOWNERSHIP,
    FISHINGGAME,
    ORACLEGAME,
    WORLDMAP,
    ALCOHOL,
    AUGMENTATION,
    ARMOUR,
    BOMB,
    CLOTHES,
    FOOD,
    FISHINGROD,
    GIFT,
    HAIRSTYLE,
    POTION,
    RESURRECTIONPHIAL,
    SILVERKEY,
    SPADE,
    TATTOO,
    TROPHY,
    WEAPON,
    WEAPONLEGENDARY,
    APOLOGY,
    BATTLECRY,
    BELCH,
    EVILLAUGH,
    FART,
    FLIRT,
    FOLLOW,
    GIGGLE,
    HEROICSTANCE,
    MIDDLEFINGER,
    PELVICTHRUST,
    PICKLOCK,
    PICKPOCKET,
    SHIT,
    SNEER,
    STEAL,
    THANKS,
    VICTORYPUMP,
    WAIT,
    COCKADOODLEDO,
    CROTCHGRAB,
    KISSMYASS,
    FLAMENCO,
    COSSACK,
    AIRGUITAR,
    BALLET,
    SATURDAYNIGHTFEVER,
    TAP,
    Y,
    M,
    C,
    A,
    CRIMEWEAPONOUT,
    CRIMETRESPASSING,
    CRIMEVANDALISM,
    CRIMETHEFT,
    CRIMEASSAULT,
    CRIMEGBH,
    CRIMEMURDER,
    COUNT,
}

impl DefEnum for TutorialCategory {
    open spec fn wire_value(self) -> i32 {
        match self {
            TutorialCategory::NONE => 0i32,
            TutorialCategory::ABILITYASSIGNING => 1i32,
            TutorialCategory::ABILITYCYCLING => 2i32,
            TutorialCategory::BASICOBJECTS => 3i32,
            TutorialCategory::BED => 4i32,
            TutorialCategory::BOASTING => 5i32,
            TutorialCategory::CAMERA => 6i32,
            TutorialCategory::CHARITYSHOP => 7i32,
            TutorialCategory::CHEST => 8i32,
            TutorialCategory::COMBATMULTIPLIER => 9i32,
            TutorialCategory::CREATUREDROP => 10i32,
            TutorialCategory::DYING => 11i32,
            TutorialCategory::DEMONDOOR => 12i32,
            TutorialCategory::DOOR => 13i32,
            TutorialCategory::EXPERIENCE => 14i32,
            TutorialCategory::EXPERIENCESPENDING => 15i32,
            TutorialCategory::EXPRESSION => 16i32,
            TutorialCategory::FLIRTING => 17i32,
            TutorialCategory::FLOURISHINGMOVE => 18i32,
            TutorialCategory::GOLDMARKERS => 19i32,
            TutorialCategory::GUILDSEAL => 20i32,
            TutorialCategory::INTERACTING => 21i32,
            TutorialCategory::INVENTORY => 22i32,
            TutorialCategory::INVENTORYASSIGNING => 23i32,
            TutorialCategory::LEVELLINGUP => 24i32,
            TutorialCategory::MORALITY => 25i32,
            TutorialCategory::MOVEMENT => 26i32,
            TutorialCategory::QUEST => 27i32,
            TutorialCategory::QUESTCARD => 28i32,
            TutorialCategory::RENOWN => 29i32,
            TutorialCategory::TAKINGQUESTS => 30i32,
            TutorialCategory::TELEPORTING => 31i32,
            TutorialCategory::TRADEITEM => 32i32,
            TutorialCategory::SEARCHING => 33i32,
            TutorialCategory::SNEAK => 34i32,
            TutorialCategory::BUILDINGOWNERSHIP => 35i32,
            TutorialCategory::FISHINGGAME => 36i32,
            TutorialCategory::ORACLEGAME => 37i32,
            TutorialCategory::WORLDMAP => 38i32,
            TutorialCategory::ALCOHOL => 39i32,
            TutorialCategory::AUGMENTATION => 40i32,
            TutorialCategory::ARMOUR => 41i32,
            TutorialCategory::BOMB => 42i32,
            TutorialCategory::CLOTHES => 43i32,
            TutorialCategory::FOOD => 44i32,
            TutorialCategory::FISHINGROD => 45i32,
            TutorialCategory::GIFT => 46i32,
            TutorialCategory::HAIRSTYLE => 47i32,
            TutorialCategory::POTION => 48i32,
            TutorialCategory::RESURRECTIONPHIAL => 49i32,
            TutorialCategory::SILVERKEY => 50i32,
            TutorialCategory::SPADE => 51i32,
            TutorialCategory::TATTOO => 52i32,
            TutorialCategory::TROPHY => 53i32,
            TutorialCategory::WEAPON => 54i32,
            TutorialCategory::WEAPONLEGENDARY => 55i32,
            TutorialCategory::APOLOGY => 56i32,
            TutorialCategory::BATTLECRY => 57i32,
            TutorialCategory::BELCH => 58i32,
            TutorialCategory::EVILLAUGH => 59i32,
            TutorialCategory::FART => 60i32,
            TutorialCategory::FLIRT => 61i32,
            TutorialCategory::FOLLOW => 62i32,
            TutorialCategory::GIGGLE => 63i32,
            TutorialCategory::HEROICSTANCE => 64i32,
            TutorialCategory::MIDDLEFINGER => 65i32,
            TutorialCategory::PELVICTHRUST => 66i32,
            TutorialCategory::PICKLOCK => 67i32,
            TutorialCategory::PICKPOCKET => 68i32,
            TutorialCategory::SHIT => 69i32,
            TutorialCategory::SNEER => 70i32,
            TutorialCategory::STEAL => 71i32,
            TutorialCategory::THANKS => 72i32,
            TutorialCategory::VICTORYPUMP => 73i32,
            TutorialCategory::WAIT => 74i32,
            TutorialCategory::COCKADOODLEDO => 75i32,
            TutorialCategory::CROTCHGRAB => 76i32,
            TutorialCategory::KISSMYASS => 77i32,
            TutorialCategory::FLAMENCO => 78i32,
            TutorialCategory::COSSACK => 79i32,
            TutorialCategory::AIRGUITAR => 80i32,
            TutorialCategory::BALLET => 81i32,
            TutorialCategory::SATURDAYNIGHTFEVER => 82i32,
            TutorialCategory::TAP => 83i32,
            TutorialCategory::Y => 84i32,
            TutorialCategory::M => 85i32,
            TutorialCategory::C => 86i32,
            TutorialCategory::A => 87i32,
            TutorialCategory::CRIMEWEAPONOUT => 88i32,
            TutorialCategory::CRIMETRESPASSING => 89i32,
            TutorialCategory::CRIMEVANDALISM => 90i32,
            TutorialCategory::CRIMETHEFT => 91i32,
            TutorialCategory::CRIMEASSAULT => 92i32,
            TutorialCategory::CRIMEGBH => 93i32,
            TutorialCategory::CRIMEMURDER => 94i32,
            TutorialCategory::COUNT => 95i32,
        }
    }

    open spec fn lookup(value: i32) -> Option<Self> {
        match value {
            0i32 => Some(TutorialCategory::NONE),
            1i32 => Some(TutorialCategory::ABILITYASSIGNING),
            2i32 => Some(TutorialCategory::ABILITYCYCLING),
            3i32 => Some(TutorialCategory::BASICOBJECTS),
            4i32 => Some(TutorialCategory::BED),
            5i32 => Some(TutorialCategory::BOASTING),
            6i32 => Some(TutorialCategory::CAMERA),
            7i32 => Some(TutorialCategory::CHARITYSHOP),
            8i32 => Some(TutorialCategory::CHEST),
            9i32 => Some(TutorialCategory::COMBATMULTIPLIER),
            10i32 => Some(TutorialCategory::CREATUREDROP),
            11i32 => Some(TutorialCategory::DYING),
            12i32 => Some(TutorialCategory::DEMONDOOR),
            13i32 => Some(TutorialCategory::DOOR),
            14i32 => Some(TutorialCategory::EXPERIENCE),
            15i32 => Some(TutorialCategory::EXPERIENCESPENDING),
            16i32 => Some(TutorialCategory::EXPRESSION),
            17i32 => Some(TutorialCategory::FLIRTING),
            18i32 => Some(TutorialCategory::FLOURISHINGMOVE),
            19i32 => Some(TutorialCategory::GOLDMARKERS),
            20i32 => Some(TutorialCategory::GUILDSEAL),
            21i32 => Some(TutorialCategory::INTERACTING),
            22i32 => Some(TutorialCategory::INVENTORY),
            23i32 => Some(TutorialCategory::INVENTORYASSIGNING),
            24i32 => Some(TutorialCategory::LEVELLINGUP),
            25i32 => Some(TutorialCategory::MORALITY),
            26i32 => Some(TutorialCategory::MOVEMENT),
            27i32 => Some(TutorialCategory::QUEST),
            28i32 => Some(TutorialCategory::QUESTCARD),
            29i32 => Some(TutorialCategory::RENOWN),
            30i32 => Some(TutorialCategory::TAKINGQUESTS),
            31i32 => Some(TutorialCategory::TELEPORTING),
            32i32 => Some(TutorialCategory::TRADEITEM),
            33i32 => Some(TutorialCategory::SEARCHING),
            34i32 => Some(TutorialCategory::SNEAK),
            35i32 => Some(TutorialCategory::BUILDINGOWNERSHIP),
            36i32 => Some(TutorialCategory::FISHINGGAME),
            37i32 => Some(TutorialCategory::ORACLEGAME),
            38i32 => Some(TutorialCategory::WORLDMAP),
            39i32 => Some(TutorialCategory::ALCOHOL),
            40i32 => Some(TutorialCategory::AUGMENTATION),
            41i32 => Some(TutorialCategory::ARMOUR),
            42i32 => Some(TutorialCategory::BOMB),
            43i32 => Some(TutorialCategory::CLOTHES),
            44i32 => Some(TutorialCategory::FOOD),
            45i32 => Some(TutorialCategory::FISHINGROD),
            46i32 => Some(TutorialCategory::GIFT),
            47i32 => Some(TutorialCategory::HAIRSTYLE),
            48i32 => Some(TutorialCategory::POTION),
            49i32 => Some(TutorialCategory::RESURRECTIONPHIAL),
            50i32 => Some(TutorialCategory::SILVERKEY),
            51i32 => Some(TutorialCategory::SPADE),
            52i32 => Some(TutorialCategory::TATTOO),
            53i32 => Some(TutorialCategory::TROPHY),
            54i32 => Some(TutorialCategory::WEAPON),
            55i32 => Some(TutorialCategory::WEAPONLEGENDARY),
            56i32 => Some(TutorialCategory::APOLOGY),
            57i32 => Some(TutorialCategory::BATTLECRY),
            58i32 => Some(TutorialCategory::BELCH),
            59i32 => Some(TutorialCategory::EVILLAUGH),
            60i32 => Some(TutorialCategory::FART),
            61i32 => Some(TutorialCategory::FLIRT),
            62i32 => Some(TutorialCategory::FOLLOW),
            63i32 => Some(TutorialCategory::GIGGLE),
            64i32 => Some(TutorialCategory::HEROICSTANCE),
            65i32 => Some(TutorialCategory::MIDDLEFINGER),
            66i32 => Some(TutorialCategory::PELVICTHRUST),
            67i32 => Some(TutorialCategory::PICKLOCK),
            68i32 => Some(TutorialCategory::PICKPOCKET),
            69i32 => Some(TutorialCategory::SHIT),
            70i32 => Some(TutorialCategory::SNEER),
            71i32 => Some(TutorialCategory::STEAL),
            72i32 => Some(TutorialCategory::THANKS),
            73i32 => Some(TutorialCategory::VICTORYPUMP),
            74i32 => Some(TutorialCategory::WAIT),
            75i32 => Some(TutorialCategory::COCKADOODLEDO),
            76i32 => Some(TutorialCategory::CROTCHGRAB),
            77i32 => Some(TutorialCategory::KISSMYASS),
            78i32 => Some(TutorialCategory::FLAMENCO),
            79i32 => Some(TutorialCategory::COSSACK),
            80i32 => Some(TutorialCategory::AIRGUITAR),
            81i32 => Some(TutorialCategory::BALLET),
            82i32 => Some(TutorialCategory::SATURDAYNIGHTFEVER),
            83i32 => Some(TutorialCategory::TAP),
            84i32 => Some(TutorialCategory::Y),
            85i32 => Some(TutorialCategory::M),
            86i32 => Some(TutorialCategory::C),
            87i32 => Some(TutorialCategory::A),
            88i32 => Some(TutorialCategory::CRIMEWEAPONOUT),
            89i32 => Some(TutorialCategory::CRIMETRESPASSING),
            90i32 => Some(TutorialCategory::CRIMEVANDALISM),
            91i32 => Some(TutorialCategory::CRIMETHEFT),
            92i32 => Some(TutorialCategory::CRIMEASSAULT),
            93i32 => Some(TutorialCategory::CRIMEGBH),
            94i32 => Some(TutorialCategory::CRIMEMURDER),
            95i32 => Some(TutorialCategory::COUNT),
            _ => None,
        }
    }

    fn from_i32(value: i32) -> (r: Option<Self>) {
        match value {
            0i32 => Some(TutorialCategory::NONE),
            1i32 => Some(TutorialCategory::ABILITYASSIGNING),
            2i32 => Some(TutorialCategory::ABILITYCYCLING),
            3i32 => Some(TutorialCategory::BASICOBJECTS),
            4i32 => Some(TutorialCategory::BED),
            5i32 => Some(TutorialCategory::BOASTING),
            6i32 => Some(TutorialCategory::CAMERA),
            7i32 => Some(TutorialCategory::CHARITYSHOP),
            8i32 => Some(TutorialCategory::CHEST),
            9i32 => Some(TutorialCategory::COMBATMULTIPLIER),
            10i32 => Some(TutorialCategory::CREATUREDROP),
            11i32 => Some(TutorialCategory::DYING),
            12i32 => Some(TutorialCategory::DEMONDOOR),
            13i32 => Some(TutorialCategory::DOOR),
            14i32 => Some(TutorialCategory::EXPERIENCE),
            15i32 => Some(TutorialCategory::EXPERIENCESPENDING),
            16i32 => Some(TutorialCategory::EXPRESSION),
            17i32 => Some(TutorialCategory::FLIRTING),
            18i32 => Some(TutorialCategory::FLOURISHINGMOVE),
            19i32 => Some(TutorialCategory::GOLDMARKERS),
            20i32 => Some(TutorialCategory::GUILDSEAL),
            21i32 => Some(TutorialCategory::INTERACTING),
            22i32 => Some(TutorialCategory::INVENTORY),
            23i32 => Some(TutorialCategory::INVENTORYASSIGNING),
            24i32 => Some(TutorialCategory::LEVELLINGUP),
            25i32 => Some(TutorialCategory::MORALITY),
            26i32 => Some(TutorialCategory::MOVEMENT),
            27i32 => Some(TutorialCategory::QUEST),
            28i32 => Some(TutorialCategory::QUESTCARD),
            29i32 => Some(TutorialCategory::RENOWN),
            30i32 => Some(TutorialCategory::TAKINGQUESTS),
            31i32 => Some(TutorialCategory::TELEPORTING),
            32i32 => Some(TutorialCategory::TRADEITEM),
            33i32 => Some(TutorialCategory::SEARCHING),
            34i32 => Some(TutorialCategory::SNEAK),
            35i32 => Some(TutorialCategory::BUILDINGOWNERSHIP),
            36i32 => Some(TutorialCategory::FISHINGGAME),
            37i32 => Some(TutorialCategory::ORACLEGAME),
            38i32 => Some(TutorialCategory::WORLDMAP),
            39i32 => Some(TutorialCategory::ALCOHOL),
            40i32 => Some(TutorialCategory::AUGMENTATION),
            41i32 => Some(TutorialCategory::ARMOUR),
            42i32 => Some(TutorialCategory::BOMB),
            43i32 => Some(TutorialCategory::CLOTHES),
            44i32 => Some(TutorialCategory::FOOD),
            45i32 => Some(TutorialCategory::FISHINGROD),
            46i32 => Some(TutorialCategory::GIFT),
            47i32 => Some(TutorialCategory::HAIRSTYLE),
            48i32 => Some(TutorialCategory::POTION),
            49i32 => Some(TutorialCategory::RESURRECTIONPHIAL),
            50i32 => Some(TutorialCategory::SILVERKEY),
            51i32 => Some(TutorialCategory::SPADE),
            52i32 => Some(TutorialCategory::TATTOO),
            53i32 => Some(TutorialCategory::TROPHY),
            54i32 => Some(TutorialCategory::WEAPON),
            55i32 => Some(TutorialCategory::WEAPONLEGENDARY),
            56i32 => Some(TutorialCategory::APOLOGY),
            57i32 => Some(TutorialCategory::BATTLECRY),
            58i32 => Some(TutorialCategory::BELCH),
            59i32 => Some(TutorialCategory::EVILLAUGH),
            60i32 => Some(TutorialCategory::FART),
            61i32 => Some(TutorialCategory::FLIRT),
            62i32 => Some(TutorialCategory::FOLLOW),
            63i32 => Some(TutorialCategory::GIGGLE),
            64i32 => Some(TutorialCategory::HEROICSTANCE),
            65i32 => Some(TutorialCategory::MIDDLEFINGER),
            66i32 => Some(TutorialCategory::PELVICTHRUST),
            67i32 => Some(TutorialCategory::PICKLOCK),
            68i32 => Some(TutorialCategory::PICKPOCKET),
            69i32 => Some(TutorialCategory::SHIT),
            70i32 => Some(TutorialCategory::SNEER),
            71i32 => Some(TutorialCategory::STEAL),
            72i32 => Some(TutorialCategory::THANKS),
            73i32 => Some(TutorialCategory::VICTORYPUMP),
            74i32 => Some(TutorialCategory::WAIT),
            75i32 => Some(TutorialCategory::COCKADOODLEDO),
            76i32 => Some(TutorialCategory::CROTCHGRAB),
            77i32 => Some(TutorialCategory::KISSMYASS),
            78i32 => Some(TutorialCategory::FLAMENCO),
            79i32 => Some(TutorialCategory::COSSACK),
            80i32 => Some(TutorialCategory::AIRGUITAR),
            81i32 => Some(TutorialCategory::BALLET),
            82i32 => Some(TutorialCategory::SATURDAYNIGHTFEVER),
            83i32 => Some(TutorialCategory::TAP),
            84i32 => Some(TutorialCategory::Y),
            85i32 => Some(TutorialCategory::M),
            86i32 => Some(TutorialCategory::C),
            87i32 => Some(TutorialCategory::A),
            88i32 => Some(TutorialCategory::CRIMEWEAPONOUT),
            89i32 => Some(TutorialCategory::CRIMETRESPASSING),
            90i32 => Some(TutorialCategory::CRIMEVANDALISM),
            91i32 => Some(TutorialCategory::CRIMETHEFT),
            92i32 => Some(TutorialCategory::CRIMEASSAULT),
            93i32 => Some(TutorialCategory::CRIMEGBH),
            94i32 => Some(TutorialCategory::CRIMEMURDER),
            95i32 => Some(TutorialCategory::COUNT),
            _ => None,
        }
    }

    fn to_i32(self) -> (r: i32) {
        match self {
            TutorialCategory::NONE => 0i32,
            TutorialCategory::ABILITYASSIGNING => 1i32,
            TutorialCategory::ABILITYCYCLING => 2i32,
            TutorialCategory::BASICOBJECTS => 3i32,
            TutorialCategory::BED => 4i32,
            TutorialCategory::BOASTING => 5i32,
            TutorialCategory::CAMERA => 6i32,
            TutorialCategory::CHARITYSHOP => 7i32,
            TutorialCategory::CHEST => 8i32,
            TutorialCategory::COMBATMULTIPLIER => 9i32,
            TutorialCategory::CREATUREDROP => 10i32,
            TutorialCategory::DYING => 11i32,
            TutorialCategory::DEMONDOOR => 12i32,
            TutorialCategory::DOOR => 13i32,
            TutorialCategory::EXPERIENCE => 14i32,
            TutorialCategory::EXPERIENCESPENDING => 15i32,
            TutorialCategory::EXPRESSION => 16i32,
            TutorialCategory::FLIRTING => 17i32,
            TutorialCategory::FLOURISHINGMOVE => 18i32,
            TutorialCategory::GOLDMARKERS => 19i32,
            TutorialCategory::GUILDSEAL => 20i32,
            TutorialCategory::INTERACTING => 21i32,
            TutorialCategory::INVENTORY => 22i32,
            TutorialCategory::INVENTORYASSIGNING => 23i32,
            TutorialCategory::LEVELLINGUP => 24i32,
            TutorialCategory::MORALITY => 25i32,
            TutorialCategory::MOVEMENT => 26i32,
            TutorialCategory::QUEST => 27i32,
            TutorialCategory::QUESTCARD => 28i32,
            TutorialCategory::RENOWN => 29i32,
            TutorialCategory::TAKINGQUESTS => 30i32,
            TutorialCategory::TELEPORTING => 31i32,
            TutorialCategory::TRADEITEM => 32i32,
            TutorialCategory::SEARCHING => 33i32,
            TutorialCategory::SNEAK => 34i32,
            TutorialCategory::BUILDINGOWNERSHIP => 35i32,
            TutorialCategory::FISHINGGAME => 36i32,
            TutorialCategory::ORACLEGAME => 37i32,
            TutorialCategory::WORLDMAP => 38i32,
            TutorialCategory::ALCOHOL => 39i32,
            TutorialCategory::AUGMENTATION => 40i32,
            TutorialCategory::ARMOUR => 41i32,
            TutorialCategory::BOMB => 42i32,
            TutorialCategory::CLOTHES => 43i32,
            TutorialCategory::FOOD => 44i32,
            TutorialCategory::FISHINGROD => 45i32,
            TutorialCategory::GIFT => 46i32,
            TutorialCategory::HAIRSTYLE => 47i32,
            TutorialCategory::POTION => 48i32,
            TutorialCategory::RESURRECTIONPHIAL => 49i32,
            TutorialCategory::SILVERKEY => 50i32,
            TutorialCategory::SPADE => 51i32,
            TutorialCategory::TATTOO => 52i32,
            TutorialCategory::TROPHY => 53i32,
            TutorialCategory::WEAPON => 54i32,
            TutorialCategory::WEAPONLEGENDARY => 55i32,
            TutorialCategory::APOLOGY => 56i32,
            TutorialCategory::BATTLECRY => 57i32,
            TutorialCategory::BELCH => 58i32,
            TutorialCategory::EVILLAUGH => 59i32,
            TutorialCategory::FART => 60i32,
            TutorialCategory::FLIRT => 61i32,
            TutorialCategory::FOLLOW => 62i32,
            TutorialCategory::GIGGLE => 63i32,
            TutorialCategory::HEROICSTANCE => 64i32,
            TutorialCategory::MIDDLEFINGER => 65i32,
            TutorialCategory::PELVICTHRUST => 66i32,
            TutorialCategory::PICKLOCK => 67i32,
            TutorialCategory::PICKPOCKET => 68i32,
            TutorialCategory::SHIT => 69i32,
            TutorialCategory::SNEER => 70i32,
            TutorialCategory::STEAL => 71i32,
            TutorialCategory::THANKS => 72i32,
            TutorialCategory::VICTORYPUMP => 73i32,
            TutorialCategory::WAIT => 74i32,
            TutorialCategory::COCKADOODLEDO => 75i32,
            TutorialCategory::CROTCHGRAB => 76i32,
            TutorialCategory::KISSMYASS => 77i32,
            TutorialCategory::FLAMENCO => 78i32,
            TutorialCategory::COSSACK => 79i32,
            TutorialCategory::AIRGUITAR => 80i32,
            TutorialCategory::BALLET => 81i32,
            TutorialCategory::SATURDAYNIGHTFEVER => 82i32,
            TutorialCategory::TAP => 83i32,
            TutorialCategory::Y => 84i32,
            TutorialCategory::M => 85i32,
            TutorialCategory::C => 86i32,
            TutorialCategory::A => 87i32,
            TutorialCategory::CRIMEWEAPONOUT => 88i32,
            TutorialCategory::CRIMETRESPASSING => 89i32,
            TutorialCategory::CRIMEVANDALISM => 90i32,
            TutorialCategory::CRIMETHEFT => 91i32,
            TutorialCategory::CRIMEASSAULT => 92i32,
            TutorialCategory::CRIMEGBH => 93i32,
            TutorialCategory::CRIMEMURDER => 94i32,
            TutorialCategory::COUNT => 95i32,
        }
    }

    proof fn lemma_lookup_wire_value(e: Self) {
    }
}

impl TutorialCategory {
    /// The C++ enumerator symbol of `self`.
    pub open spec fn symbol_of(self) -> Seq<char> {
        match self {
            TutorialCategory::NONE => "TUTORIAL_CATEGORY_NONE"@,
            TutorialCategory::ABILITYASSIGNING => "TUTORIAL_CATEGORY_ABILITY_ASSIGNING"@,
            TutorialCategory::ABILITYCYCLING => "TUTORIAL_CATEGORY_ABILITY_CYCLING"@,
            TutorialCategory::BASICOBJECTS => "TUTORIAL_CATEGORY_BASIC_OBJECTS"@,
            TutorialCategory::BED => "TUTORIAL_CATEGORY_BED"@,
            TutorialCategory::BOASTING => "TUTORIAL_CATEGORY_BOASTING"@,
            TutorialCategory::CAMERA => "TUTORIAL_CATEGORY_CAMERA"@,
            TutorialCategory::CHARITYSHOP => "TUTORIAL_CATEGORY_CHARITY_SHOP"@,
            TutorialCategory::CHEST => "TUTORIAL_CATEGORY_CHEST"@,
            TutorialCategory::COMBATMULTIPLIER => "TUTORIAL_CATEGORY_COMBAT_MULTIPLIER"@,
            TutorialCategory::CREATUREDROP => "TUTORIAL_CATEGORY_CREATURE_DROP"@,
            TutorialCategory::DYING => "TUTORIAL_CATEGORY_DYING"@,
            TutorialCategory::DEMONDOOR => "TUTORIAL_CATEGORY_DEMON_DOOR"@,
            TutorialCategory::DOOR => "TUTORIAL_CATEGORY_DOOR"@,
            TutorialCategory::EXPERIENCE => "TUTORIAL_CATEGORY_EXPERIENCE"@,
            TutorialCategory::EXPERIENCESPENDING => "TUTORIAL_CATEGORY_EXPERIENCE_SPENDING"@,
            TutorialCategory::EXPRESSION => "TUTORIAL_CATEGORY_EXPRESSION"@,
            TutorialCategory::FLIRTING => "TUTORIAL_CATEGORY_FLIRTING"@,
            TutorialCategory::FLOURISHINGMOVE => "TUTORIAL_CATEGORY_FLOURISHING_MOVE"@,
            TutorialCategory::GOLDMARKERS => "TUTORIAL_CATEGORY_GOLDMARKERS"@,
            TutorialCategory::GUILDSEAL => "TUTORIAL_CATEGORY_GUILD_SEAL"@,
            TutorialCategory::INTERACTING => "TUTORIAL_CATEGORY_INTERACTING"@,
            TutorialCategory::INVENTORY => "TUTORIAL_CATEGORY_INVENTORY"@,
            TutorialCategory::INVENTORYASSIGNING => "TUTORIAL_CATEGORY_INVENTORY_ASSIGNING"@,
            TutorialCategory::LEVELLINGUP => "TUTORIAL_CATEGORY_LEVELLING_UP"@,
            TutorialCategory::MORALITY => "TUTORIAL_CATEGORY_MORALITY"@,
            TutorialCategory::MOVEMENT => "TUTORIAL_CATEGORY_MOVEMENT"@,
            TutorialCategory::QUEST => "TUTORIAL_CATEGORY_QUEST"@,
            TutorialCategory::QUESTCARD => "TUTORIAL_CATEGORY_QUEST_CARD"@,
            TutorialCategory::RENOWN => "TUTORIAL_CATEGORY_RENOWN"@,
            TutorialCategory::TAKINGQUESTS => "TUTORIAL_CATEGORY_TAKING_QUESTS"@,
            TutorialCategory::TELEPORTING => "TUTORIAL_CATEGORY_TELEPORTING"@,
            TutorialCategory::TRADEITEM => "TUTORIAL_CATEGORY_TRADE_ITEM"@,
            TutorialCategory::SEARCHING => "TUTORIAL_CATEGORY_SEARCHING"@,
            TutorialCategory::SNEAK => "TUTORIAL_CATEGORY_SNEAK"@,
            TutorialCategory::BUILDINGOWNERSHIP => "TUTORIAL_CATEGORY_BUILDING_OWNERSHIP"@,
            TutorialCategory::FISHINGGAME => "TUTORIAL_CATEGORY_FISHING_GAME"@,
            TutorialCategory::ORACLEGAME => "TUTORIAL_CATEGORY_ORACLE_GAME"@,
            TutorialCategory::WORLDMAP => "TUTORIAL_CATEGORY_WORLD_MAP"@,
            TutorialCategory::ALCOHOL => "TUTORIAL_CATEGORY_ALCOHOL"@,
            TutorialCategory::AUGMENTATION => "TUTORIAL_CATEGORY_AUGMENTATION"@,
            TutorialCategory::ARMOUR => "TUTORIAL_CATEGORY_ARMOUR"@,
            TutorialCategory::BOMB => "TUTORIAL_CATEGORY_BOMB"@,
            TutorialCategory::CLOTHES => "TUTORIAL_CATEGORY_CLOTHES"@,
            TutorialCategory::FOOD => "TUTORIAL_CATEGORY_FOOD"@,
            TutorialCategory::FISHINGROD => "TUTORIAL_CATEGORY_FISHING_ROD"@,
            TutorialCategory::GIFT => "TUTORIAL_CATEGORY_GIFT"@,
            TutorialCategory::HAIRSTYLE => "TUTORIAL_CATEGORY_HAIRSTYLE"@,
            TutorialCategory::POTION => "TUTORIAL_CATEGORY_POTION"@,
            TutorialCategory::RESURRECTIONPHIAL => "TUTORIAL_CATEGORY_RESURRECTION_PHIAL"@,
            TutorialCategory::SILVERKEY => "TUTORIAL_CATEGORY_SILVER_KEY"@,
            TutorialCategory::SPADE => "TUTORIAL_CATEGORY_SPADE"@,
            TutorialCategory::TATTOO => "TUTORIAL_CATEGORY_TATTOO"@,
            TutorialCategory::TROPHY => "TUTORIAL_CATEGORY_TROPHY"@,
            TutorialCategory::WEAPON => "TUTORIAL_CATEGORY_WEAPON"@,
            TutorialCategory::WEAPONLEGENDARY => "TUTORIAL_CATEGORY_WEAPON_LEGENDARY"@,
            TutorialCategory::APOLOGY => "TUTORIAL_CATEGORY_APOLOGY"@,
            TutorialCategory::BATTLECRY => "TUTORIAL_CATEGORY_BATTLE_CRY"@,
            TutorialCategory::BELCH => "TUTORIAL_CATEGORY_BELCH"@,
            TutorialCategory::EVILLAUGH => "TUTORIAL_CATEGORY_EVIL_LAUGH"@,
            TutorialCategory::FART => "TUTORIAL_CATEGORY_FART"@,
            TutorialCategory::FLIRT => "TUTORIAL_CATEGORY_FLIRT"@,
            TutorialCategory::FOLLOW => "TUTORIAL_CATEGORY_FOLLOW"@,
            TutorialCategory::GIGGLE => "TUTORIAL_CATEGORY_GIGGLE"@,
            TutorialCategory::HEROICSTANCE => "TUTORIAL_CATEGORY_HEROIC_STANCE"@,
            TutorialCategory::MIDDLEFINGER => "TUTORIAL_CATEGORY_MIDDLE_FINGER"@,
            TutorialCategory::PELVICTHRUST => "TUTORIAL_CATEGORY_PELVIC_THRUST"@,
            TutorialCategory::PICKLOCK => "TUTORIAL_CATEGORY_PICKLOCK"@,
            TutorialCategory::PICKPOCKET => "TUTORIAL_CATEGORY_PICKPOCKET"@,
            TutorialCategory::SHIT => "TUTORIAL_CATEGORY_SHIT"@,
            TutorialCategory::SNEER => "TUTORIAL_CATEGORY_SNEER"@,
            TutorialCategory::STEAL => "TUTORIAL_CATEGORY_STEAL"@,
            TutorialCategory::THANKS => "TUTORIAL_CATEGORY_THANKS"@,
            TutorialCategory::VICTORYPUMP => "TUTORIAL_CATEGORY_VICTORY_PUMP"@,
            TutorialCategory::WAIT => "TUTORIAL_CATEGORY_WAIT"@,
            TutorialCategory::COCKADOODLEDO => "TUTORIAL_CATEGORY_COCK_A_DOODLE_DO"@,
            TutorialCategory::CROTCHGRAB => "TUTORIAL_CATEGORY_CROTCH_GRAB"@,
            TutorialCategory::KISSMYASS => "TUTORIAL_CATEGORY_KISS_MY_ASS"@,
            TutorialCategory::FLAMENCO => "TUTORIAL_CATEGORY_FLAMENCO"@,
            TutorialCategory::COSSACK => "TUTORIAL_CATEGORY_COSSACK"@,
            TutorialCategory::AIRGUITAR => "TUTORIAL_CATEGORY_AIR_GUITAR"@,
            TutorialCategory::BALLET => "TUTORIAL_CATEGORY_BALLET"@,
            TutorialCategory::SATURDAYNIGHTFEVER => "TUTORIAL_CATEGORY_SATURDAY_NIGHT_FEVER"@,
            TutorialCategory::TAP => "TUTORIAL_CATEGORY_TAP"@,
            TutorialCategory::Y => "TUTORIAL_CATEGORY_Y"@,
            TutorialCategory::M => "TUTORIAL_CATEGORY_M"@,
            TutorialCategory::C => "TUTORIAL_CATEGORY_C"@,
            TutorialCategory::A => "TUTORIAL_CATEGORY_A"@,
            TutorialCategory::CRIMEWEAPONOUT => "TUTORIAL_CATEGORY_CRIME_WEAPONOUT"@,
            TutorialCategory::CRIMETRESPASSING => "TUTORIAL_CATEGORY_CRIME_TRESPASSING"@,
            TutorialCategory::CRIMEVANDALISM => "TUTORIAL_CATEGORY_CRIME_VANDALISM"@,
            TutorialCategory::CRIMETHEFT => "TUTORIAL_CATEGORY_CRIME_THEFT"@,
            TutorialCategory::CRIMEASSAULT => "TUTORIAL_CATEGORY_CRIME_ASSAULT"@,
            TutorialCategory::CRIMEGBH => "TUTORIAL_CATEGORY_CRIME_GBH"@,
            TutorialCategory::CRIMEMURDER => "TUTORIAL_CATEGORY_CRIME_MURDER"@,
            TutorialCategory::COUNT => "TUTORIAL_CATEGORY_COUNT"@,
        }
    }

    /// The first variant whose symbol is `s`, if any.
    pub open spec fn symbol_lookup(s: Seq<char>) -> Option<Self> {
        if s == "TUTORIAL_CATEGORY_NONE"@ {
            Some(TutorialCategory::NONE)
        } else if s == "TUTORIAL_CATEGORY_ABILITY_ASSIGNING"@ {
            Some(TutorialCategory::ABILITYASSIGNING)
        } else if s == "TUTORIAL_CATEGORY_ABILITY_CYCLING"@ {
            Some(TutorialCategory::ABILITYCYCLING)
        } else if s == "TUTORIAL_CATEGORY_BASIC_OBJECTS"@ {
            Some(TutorialCategory::BASICOBJECTS)
        } else if s == "TUTORIAL_CATEGORY_BED"@ {
            Some(TutorialCategory::BED)
        } else if s == "TUTORIAL_CATEGORY_BOASTING"@ {
            Some(TutorialCategory::BOASTING)
        } else if s == "TUTORIAL_CATEGORY_CAMERA"@ {
            Some(TutorialCategory::CAMERA)
        } else if s == "TUTORIAL_CATEGORY_CHARITY_SHOP"@ {
            Some(TutorialCategory::CHARITYSHOP)
        } else if s == "TUTORIAL_CATEGORY_CHEST"@ {
            Some(TutorialCategory::CHEST)
        } else if s == "TUTORIAL_CATEGORY_COMBAT_MULTIPLIER"@ {
            Some(TutorialCategory::COMBATMULTIPLIER)
        } else if s == "TUTORIAL_CATEGORY_CREATURE_DROP"@ {
            Some(TutorialCategory::CREATUREDROP)
        } else if s == "TUTORIAL_CATEGORY_DYING"@ {
            Some(TutorialCategory::DYING)
        } else if s == "TUTORIAL_CATEGORY_DEMON_DOOR"@ {
            Some(TutorialCategory::DEMONDOOR)
        } else if s == "TUTORIAL_CATEGORY_DOOR"@ {
            Some(TutorialCategory::DOOR)
        } else if s == "TUTORIAL_CATEGORY_EXPERIENCE"@ {
            Some(TutorialCategory::EXPERIENCE)
        } else if s == "TUTORIAL_CATEGORY_EXPERIENCE_SPENDING"@ {
            Some(TutorialCategory::EXPERIENCESPENDING)
        } else if s == "TUTORIAL_CATEGORY_EXPRESSION"@ {
            Some(TutorialCategory::EXPRESSION)
        } else if s == "TUTORIAL_CATEGORY_FLIRTING"@ {
            Some(TutorialCategory::FLIRTING)
        } else if s == "TUTORIAL_CATEGORY_FLOURISHING_MOVE"@ {
            Some(TutorialCategory::FLOURISHINGMOVE)
        } else if s == "TUTORIAL_CATEGORY_GOLDMARKERS"@ {
            Some(TutorialCategory::GOLDMARKERS)
        } else if s == "TUTORIAL_CATEGORY_GUILD_SEAL"@ {
            Some(TutorialCategory::GUILDSEAL)
        } else if s == "TUTORIAL_CATEGORY_INTERACTING"@ {
            Some(TutorialCategory::INTERACTING)
        } else if s == "TUTORIAL_CATEGORY_INVENTORY"@ {
            Some(TutorialCategory::INVENTORY)
        } else if s == "TUTORIAL_CATEGORY_INVENTORY_ASSIGNING"@ {
            Some(TutorialCategory::INVENTORYASSIGNING)
        } else if s == "TUTORIAL_CATEGORY_LEVELLING_UP"@ {
            Some(TutorialCategory::LEVELLINGUP)
        } else if s == "TUTORIAL_CATEGORY_MORALITY"@ {
            Some(TutorialCategory::MORALITY)
        } else if s == "TUTORIAL_CATEGORY_MOVEMENT"@ {
            Some(TutorialCategory::MOVEMENT)
        } else if s == "TUTORIAL_CATEGORY_QUEST"@ {
            Some(TutorialCategory::QUEST)
        } else if s == "TUTORIAL_CATEGORY_QUEST_CARD"@ {
            Some(TutorialCategory::QUESTCARD)
        } else if s == "TUTORIAL_CATEGORY_RENOWN"@ {
            Some(TutorialCategory::RENOWN)
        } else if s == "TUTORIAL_CATEGORY_TAKING_QUESTS"@ {
            Some(TutorialCategory::TAKINGQUESTS)
        } else if s == "TUTORIAL_CATEGORY_TELEPORTING"@ {
            Some(TutorialCategory::TELEPORTING)
        } else if s == "TUTORIAL_CATEGORY_TRADE_ITEM"@ {
            Some(TutorialCategory::TRADEITEM)
        } else if s == "TUTORIAL_CATEGORY_SEARCHING"@ {
            Some(TutorialCategory::SEARCHING)
        } else if s == "TUTORIAL_CATEGORY_SNEAK"@ {
            Some(TutorialCategory::SNEAK)
        } else if s == "TUTORIAL_CATEGORY_BUILDING_OWNERSHIP"@ {
            Some(TutorialCategory::BUILDINGOWNERSHIP)
        } else if s == "TUTORIAL_CATEGORY_FISHING_GAME"@ {
            Some(TutorialCategory::FISHINGGAME)
        } else if s == "TUTORIAL_CATEGORY_ORACLE_GAME"@ {
            Some(TutorialCategory::ORACLEGAME)
        } else if s == "TUTORIAL_CATEGORY_WORLD_MAP"@ {
            Some(TutorialCategory::WORLDMAP)
        } else if s == "TUTORIAL_CATEGORY_ALCOHOL"@ {
            Some(TutorialCategory::ALCOHOL)
        } else if s == "TUTORIAL_CATEGORY_AUGMENTATION"@ {
            Some(TutorialCategory::AUGMENTATION)
        } else if s == "TUTORIAL_CATEGORY_ARMOUR"@ {
            Some(TutorialCategory::ARMOUR)
        } else if s == "TUTORIAL_CATEGORY_BOMB"@ {
            Some(TutorialCategory::BOMB)
        } else if s == "TUTORIAL_CATEGORY_CLOTHES"@ {
            Some(TutorialCategory::CLOTHES)
        } else if s == "TUTORIAL_CATEGORY_FOOD"@ {
            Some(TutorialCategory::FOOD)
        } else if s == "TUTORIAL_CATEGORY_FISHING_ROD"@ {
            Some(TutorialCategory::FISHINGROD)
        } else if s == "TUTORIAL_CATEGORY_GIFT"@ {
            Some(TutorialCategory::GIFT)
        } else if s == "TUTORIAL_CATEGORY_HAIRSTYLE"@ {
            Some(TutorialCategory::HAIRSTYLE)
        } else if s == "TUTORIAL_CATEGORY_POTION"@ {
            Some(TutorialCategory::POTION)
        } else if s == "TUTORIAL_CATEGORY_RESURRECTION_PHIAL"@ {
            Some(TutorialCategory::RESURRECTIONPHIAL)
        } else if s == "TUTORIAL_CATEGORY_SILVER_KEY"@ {
            Some(TutorialCategory::SILVERKEY)
        } else if s == "TUTORIAL_CATEGORY_SPADE"@ {
            Some(TutorialCategory::SPADE)
        } else if s == "TUTORIAL_CATEGORY_TATTOO"@ {
            Some(TutorialCategory::TATTOO)
        } else if s == "TUTORIAL_CATEGORY_TROPHY"@ {
            Some(TutorialCategory::TROPHY)
        } else if s == "TUTORIAL_CATEGORY_WEAPON"@ {
            Some(TutorialCategory::WEAPON)
        } else if s == "TUTORIAL_CATEGORY_WEAPON_LEGENDARY"@ {
            Some(TutorialCategory::WEAPONLEGENDARY)
        } else if s == "TUTORIAL_CATEGORY_APOLOGY"@ {
            Some(TutorialCategory::APOLOGY)
        } else if s == "TUTORIAL_CATEGORY_BATTLE_CRY"@ {
            Some(TutorialCategory::BATTLECRY)
        } else if s == "TUTORIAL_CATEGORY_BELCH"@ {
            Some(TutorialCategory::BELCH)
        } else if s == "TUTORIAL_CATEGORY_EVIL_LAUGH"@ {
            Some(TutorialCategory::EVILLAUGH)
        } else if s == "TUTORIAL_CATEGORY_FART"@ {
            Some(TutorialCategory::FART)
        } else if s == "TUTORIAL_CATEGORY_FLIRT"@ {
            Some(TutorialCategory::FLIRT)
        } else if s == "TUTORIAL_CATEGORY_FOLLOW"@ {
            Some(TutorialCategory::FOLLOW)
        } else if s == "TUTORIAL_CATEGORY_GIGGLE"@ {
            Some(TutorialCategory::GIGGLE)
        } else if s == "TUTORIAL_CATEGORY_HEROIC_STANCE"@ {
            Some(TutorialCategory::HEROICSTANCE)
        } else if s == "TUTORIAL_CATEGORY_MIDDLE_FINGER"@ {
            Some(TutorialCategory::MIDDLEFINGER)
        } else if s == "TUTORIAL_CATEGORY_PELVIC_THRUST"@ {
            Some(TutorialCategory::PELVICTHRUST)
        } else if s == "TUTORIAL_CATEGORY_PICKLOCK"@ {
            Some(TutorialCategory::PICKLOCK)
        } else if s == "TUTORIAL_CATEGORY_PICKPOCKET"@ {
            Some(TutorialCategory::PICKPOCKET)
        } else if s == "TUTORIAL_CATEGORY_SHIT"@ {
            Some(TutorialCategory::SHIT)
        } else if s == "TUTORIAL_CATEGORY_SNEER"@ {
            Some(TutorialCategory::SNEER)
        } else if s == "TUTORIAL_CATEGORY_STEAL"@ {
            Some(TutorialCategory::STEAL)
        } else if s == "TUTORIAL_CATEGORY_THANKS"@ {
            Some(TutorialCategory::THANKS)
        } else if s == "TUTORIAL_CATEGORY_VICTORY_PUMP"@ {
            Some(TutorialCategory::VICTORYPUMP)
        } else if s == "TUTORIAL_CATEGORY_WAIT"@ {
            Some(TutorialCategory::WAIT)
        } else if s == "TUTORIAL_CATEGORY_COCK_A_DOODLE_DO"@ {
            Some(TutorialCategory::COCKADOODLEDO)
        } else if s == "TUTORIAL_CATEGORY_CROTCH_GRAB"@ {
            Some(TutorialCategory::CROTCHGRAB)
        } else if s == "TUTORIAL_CATEGORY_KISS_MY_ASS"@ {
            Some(TutorialCategory::KISSMYASS)
        } else if s == "TUTORIAL_CATEGORY_FLAMENCO"@ {
            Some(TutorialCategory::FLAMENCO)
        } else if s == "TUTORIAL_CATEGORY_COSSACK"@ {
            Some(TutorialCategory::COSSACK)
        } else if s == "TUTORIAL_CATEGORY_AIR_GUITAR"@ {
            Some(TutorialCategory::AIRGUITAR)
        } else if s == "TUTORIAL_CATEGORY_BALLET"@ {
            Some(TutorialCategory::BALLET)
        } else if s == "TUTORIAL_CATEGORY_SATURDAY_NIGHT_FEVER"@ {
            Some(TutorialCategory::SATURDAYNIGHTFEVER)
        } else if s == "TUTORIAL_CATEGORY_TAP"@ {
            Some(TutorialCategory::TAP)
        } else if s == "TUTORIAL_CATEGORY_Y"@ {
            Some(TutorialCategory::Y)
        } else if s == "TUTORIAL_CATEGORY_M"@ {
            Some(TutorialCategory::M)
        } else if s == "TUTORIAL_CATEGORY_C"@ {
            Some(TutorialCategory::C)
        } else if s == "TUTORIAL_CATEGORY_A"@ {
            Some(TutorialCategory::A)
        } else if s == "TUTORIAL_CATEGORY_CRIME_WEAPONOUT"@ {
            Some(TutorialCategory::CRIMEWEAPONOUT)
        } else if s == "TUTORIAL_CATEGORY_CRIME_TRESPASSING"@ {
            Some(TutorialCategory::CRIMETRESPASSING)
        } else if s == "TUTORIAL_CATEGORY_CRIME_VANDALISM"@ {
            Some(TutorialCategory::CRIMEVANDALISM)
        } else if s == "TUTORIAL_CATEGORY_CRIME_THEFT"@ {
            Some(TutorialCategory::CRIMETHEFT)
        } else if s == "TUTORIAL_CATEGORY_CRIME_ASSAULT"@ {
            Some(TutorialCategory::CRIMEASSAULT)
        } else if s == "TUTORIAL_CATEGORY_CRIME_GBH"@ {
            Some(TutorialCategory::CRIMEGBH)
        } else if s == "TUTORIAL_CATEGORY_CRIME_MURDER"@ {
            Some(TutorialCategory::CRIMEMURDER)
        } else if s == "TUTORIAL_CATEGORY_COUNT"@ {
            Some(TutorialCategory::COUNT)
        } else {
            None
        }
    }

    /// The C++ enumerator symbol text defs use for `self`.
    pub fn symbol(self) -> (r: &'static str)
        ensures
            r@ == self.symbol_of(),
    {
        match self {
            TutorialCategory::NONE => "TUTORIAL_CATEGORY_NONE",
            TutorialCategory::ABILITYASSIGNING => "TUTORIAL_CATEGORY_ABILITY_ASSIGNING",
            TutorialCategory::ABILITYCYCLING => "TUTORIAL_CATEGORY_ABILITY_CYCLING",
            TutorialCategory::BASICOBJECTS => "TUTORIAL_CATEGORY_BASIC_OBJECTS",
            TutorialCategory::BED => "TUTORIAL_CATEGORY_BED",
            TutorialCategory::BOASTING => "TUTORIAL_CATEGORY_BOASTING",
            TutorialCategory::CAMERA => "TUTORIAL_CATEGORY_CAMERA",
            TutorialCategory::CHARITYSHOP => "TUTORIAL_CATEGORY_CHARITY_SHOP",
            TutorialCategory::CHEST => "TUTORIAL_CATEGORY_CHEST",
            TutorialCategory::COMBATMULTIPLIER => "TUTORIAL_CATEGORY_COMBAT_MULTIPLIER",
            TutorialCategory::CREATUREDROP => "TUTORIAL_CATEGORY_CREATURE_DROP",
            TutorialCategory::DYING => "TUTORIAL_CATEGORY_DYING",
            TutorialCategory::DEMONDOOR => "TUTORIAL_CATEGORY_DEMON_DOOR",
            TutorialCategory::DOOR => "TUTORIAL_CATEGORY_DOOR",
            TutorialCategory::EXPERIENCE => "TUTORIAL_CATEGORY_EXPERIENCE",
            TutorialCategory::EXPERIENCESPENDING => "TUTORIAL_CATEGORY_EXPERIENCE_SPENDING",
            TutorialCategory::EXPRESSION => "TUTORIAL_CATEGORY_EXPRESSION",
            TutorialCategory::FLIRTING => "TUTORIAL_CATEGORY_FLIRTING",
            TutorialCategory::FLOURISHINGMOVE => "TUTORIAL_CATEGORY_FLOURISHING_MOVE",
            TutorialCategory::GOLDMARKERS => "TUTORIAL_CATEGORY_GOLDMARKERS",
            TutorialCategory::GUILDSEAL => "TUTORIAL_CATEGORY_GUILD_SEAL",
            TutorialCategory::INTERACTING => "TUTORIAL_CATEGORY_INTERACTING",
            TutorialCategory::INVENTORY => "TUTORIAL_CATEGORY_INVENTORY",
            TutorialCategory::INVENTORYASSIGNING => "TUTORIAL_CATEGORY_INVENTORY_ASSIGNING",
            TutorialCategory::LEVELLINGUP => "TUTORIAL_CATEGORY_LEVELLING_UP",
            TutorialCategory::MORALITY => "TUTORIAL_CATEGORY_MORALITY",
            TutorialCategory::MOVEMENT => "TUTORIAL_CATEGORY_MOVEMENT",
            TutorialCategory::QUEST => "TUTORIAL_CATEGORY_QUEST",
            TutorialCategory::QUESTCARD => "TUTORIAL_CATEGORY_QUEST_CARD",
            TutorialCategory::RENOWN => "TUTORIAL_CATEGORY_RENOWN",
            TutorialCategory::TAKINGQUESTS => "TUTORIAL_CATEGORY_TAKING_QUESTS",
            TutorialCategory::TELEPORTING => "TUTORIAL_CATEGORY_TELEPORTING",
            TutorialCategory::TRADEITEM => "TUTORIAL_CATEGORY_TRADE_ITEM",
            TutorialCategory::SEARCHING => "TUTORIAL_CATEGORY_SEARCHING",
            TutorialCategory::SNEAK => "TUTORIAL_CATEGORY_SNEAK",
            TutorialCategory::BUILDINGOWNERSHIP => "TUTORIAL_CATEGORY_BUILDING_OWNERSHIP",
            TutorialCategory::FISHINGGAME => "TUTORIAL_CATEGORY_FISHING_GAME",
            TutorialCategory::ORACLEGAME => "TUTORIAL_CATEGORY_ORACLE_GAME",
            TutorialCategory::WORLDMAP => "TUTORIAL_CATEGORY_WORLD_MAP",
            TutorialCategory::ALCOHOL => "TUTORIAL_CATEGORY_ALCOHOL",
            TutorialCategory::AUGMENTATION => "TUTORIAL_CATEGORY_AUGMENTATION",
            TutorialCategory::ARMOUR => "TUTORIAL_CATEGORY_ARMOUR",
            TutorialCategory::BOMB => "TUTORIAL_CATEGORY_BOMB",
            TutorialCategory::CLOTHES => "TUTORIAL_CATEGORY_CLOTHES",
            TutorialCategory::FOOD => "TUTORIAL_CATEGORY_FOOD",
            TutorialCategory::FISHINGROD => "TUTORIAL_CATEGORY_FISHING_ROD",
            TutorialCategory::GIFT => "TUTORIAL_CATEGORY_GIFT",
            TutorialCategory::HAIRSTYLE => "TUTORIAL_CATEGORY_HAIRSTYLE",
            TutorialCategory::POTION => "TUTORIAL_CATEGORY_POTION",
            TutorialCategory::RESURRECTIONPHIAL => "TUTORIAL_CATEGORY_RESURRECTION_PHIAL",
            TutorialCategory::SILVERKEY => "TUTORIAL_CATEGORY_SILVER_KEY",
            TutorialCategory::SPADE => "TUTORIAL_CATEGORY_SPADE",
            TutorialCategory::TATTOO => "TUTORIAL_CATEGORY_TATTOO",
            TutorialCategory::TROPHY => "TUTORIAL_CATEGORY_TROPHY",
            TutorialCategory::WEAPON => "TUTORIAL_CATEGORY_WEAPON",
            TutorialCategory::WEAPONLEGENDARY => "TUTORIAL_CATEGORY_WEAPON_LEGENDARY",
            TutorialCategory::APOLOGY => "TUTORIAL_CATEGORY_APOLOGY",
            TutorialCategory::BATTLECRY => "TUTORIAL_CATEGORY_BATTLE_CRY",
            TutorialCategory::BELCH => "TUTORIAL_CATEGORY_BELCH",
            TutorialCategory::EVILLAUGH => "TUTORIAL_CATEGORY_EVIL_LAUGH",
            TutorialCategory::FART => "TUTORIAL_CATEGORY_FART",
            TutorialCategory::FLIRT => "TUTORIAL_CATEGORY_FLIRT",
            TutorialCategory::FOLLOW => "TUTORIAL_CATEGORY_FOLLOW",
            TutorialCategory::GIGGLE => "TUTORIAL_CATEGORY_GIGGLE",
            TutorialCategory::HEROICSTANCE => "TUTORIAL_CATEGORY_HEROIC_STANCE",
            TutorialCategory::MIDDLEFINGER => "TUTORIAL_CATEGORY_MIDDLE_FINGER",
            TutorialCategory::PELVICTHRUST => "TUTORIAL_CATEGORY_PELVIC_THRUST",
            TutorialCategory::PICKLOCK => "TUTORIAL_CATEGORY_PICKLOCK",
            TutorialCategory::PICKPOCKET => "TUTORIAL_CATEGORY_PICKPOCKET",
            TutorialCategory::SHIT => "TUTORIAL_CATEGORY_SHIT",
            TutorialCategory::SNEER => "TUTORIAL_CATEGORY_SNEER",
            TutorialCategory::STEAL => "TUTORIAL_CATEGORY_STEAL",
            TutorialCategory::THANKS => "TUTORIAL_CATEGORY_THANKS",
            TutorialCategory::VICTORYPUMP => "TUTORIAL_CATEGORY_VICTORY_PUMP",
            TutorialCategory::WAIT => "TUTORIAL_CATEGORY_WAIT",
            TutorialCategory::COCKADOODLEDO => "TUTORIAL_CATEGORY_COCK_A_DOODLE_DO",
            TutorialCategory::CROTCHGRAB => "TUTORIAL_CATEGORY_CROTCH_GRAB",
            TutorialCategory::KISSMYASS => "TUTORIAL_CATEGORY_KISS_MY_ASS",
            TutorialCategory::FLAMENCO => "TUTORIAL_CATEGORY_FLAMENCO",
            TutorialCategory::COSSACK => "TUTORIAL_CATEGORY_COSSACK",
            TutorialCategory::AIRGUITAR => "TUTORIAL_CATEGORY_AIR_GUITAR",
            TutorialCategory::BALLET => "TUTORIAL_CATEGORY_BALLET",
            TutorialCategory::SATURDAYNIGHTFEVER => "TUTORIAL_CATEGORY_SATURDAY_NIGHT_FEVER",
            TutorialCategory::TAP => "TUTORIAL_CATEGORY_TAP",
            TutorialCategory::Y => "TUTORIAL_CATEGORY_Y",
            TutorialCategory::M => "TUTORIAL_CATEGORY_M",
            TutorialCategory::C => "TUTORIAL_CATEGORY_C",
            TutorialCategory::A => "TUTORIAL_CATEGORY_A",
            TutorialCategory::CRIMEWEAPONOUT => "TUTORIAL_CATEGORY_CRIME_WEAPONOUT",
            TutorialCategory::CRIMETRESPASSING => "TUTORIAL_CATEGORY_CRIME_TRESPASSING",
            TutorialCategory::CRIMEVANDALISM => "TUTORIAL_CATEGORY_CRIME_VANDALISM",
            TutorialCategory::CRIMETHEFT => "TUTORIAL_CATEGORY_CRIME_THEFT",
            TutorialCategory::CRIMEASSAULT => "TUTORIAL_CATEGORY_CRIME_ASSAULT",
            TutorialCategory::CRIMEGBH => "TUTORIAL_CATEGORY_CRIME_GBH",
            TutorialCategory::CRIMEMURDER => "TUTORIAL_CATEGORY_CRIME_MURDER",
            TutorialCategory::COUNT => "TUTORIAL_CATEGORY_COUNT",
        }
    }

    /// The variant a C++ enumerator symbol names.
    pub fn from_symbol(s: &str) -> (r: Option<Self>)
        ensures
            r == Self::symbol_lookup(s@),
    {
        if str_eq(s, "TUTORIAL_CATEGORY_NONE") {
            return Some(TutorialCategory::NONE);
        }
        if str_eq(s, "TUTORIAL_CATEGORY_ABILITY_ASSIGNING") {
            return Some(TutorialCategory::ABILITYASSIGNING);
        }
        if str_eq(s, "TUTORIAL_CATEGORY_ABILITY_CYCLING") {
            return Some(TutorialCategory::ABILITYCYCLING);
        }
        if str_eq(s, "TUTORIAL_CATEGORY_BASIC_OBJECTS") {
            return Some(TutorialCategory::BASICOBJECTS);
        }
        if str_eq(s, "TUTORIAL_CATEGORY_BED") {
            return Some(TutorialCategory::BED);
        }
        if str_eq(s, "TUTORIAL_CATEGORY_BOASTING") {
            return Some(TutorialCategory::BOASTING);
        }
        if str_eq(s, "TUTORIAL_CATEGORY_CAMERA") {
            return Some(TutorialCategory::CAMERA);
        }
        if str_eq(s, "TUTORIAL_CATEGORY_CHARITY_SHOP") {
            return Some(TutorialCategory::CHARITYSHOP);
        }
        if str_eq(s, "TUTORIAL_CATEGORY_CHEST") {
            return Some(TutorialCategory::CHEST);
        }
        if str_eq(s, "TUTORIAL_CATEGORY_COMBAT_MULTIPLIER") {
            return Some(TutorialCategory::COMBATMULTIPLIER);
        }
        if str_eq(s, "TUTORIAL_CATEGORY_CREATURE_DROP") {
            return Some(TutorialCategory::CREATUREDROP);
        }
        if str_eq(s, "TUTORIAL_CATEGORY_DYING") {
            return Some(TutorialCategory::DYING);
        }
        if str_eq(s, "TUTORIAL_CATEGORY_DEMON_DOOR") {
            return Some(TutorialCategory::DEMONDOOR);
        }
        if str_eq(s, "TUTORIAL_CATEGORY_DOOR") {
            return Some(TutorialCategory::DOOR);
        }
        if str_eq(s, "TUTORIAL_CATEGORY_EXPERIENCE") {
            return Some(TutorialCategory::EXPERIENCE);
        }
        if str_eq(s, "TUTORIAL_CATEGORY_EXPERIENCE_SPENDING") {
            return Some(TutorialCategory::EXPERIENCESPENDING);
        }
        if str_eq(s, "TUTORIAL_CATEGORY_EXPRESSION") {
            return Some(TutorialCategory::EXPRESSION);
        }
        if str_eq(s, "TUTORIAL_CATEGORY_FLIRTING") {
            return Some(TutorialCategory::FLIRTING);
        }
        if str_eq(s, "TUTORIAL_CATEGORY_FLOURISHING_MOVE") {
            return Some(TutorialCategory::FLOURISHINGMOVE);
        }
        if str_eq(s, "TUTORIAL_CATEGORY_GOLDMARKERS") {
            return Some(TutorialCategory::GOLDMARKERS);
        }
        if str_eq(s, "TUTORIAL_CATEGORY_GUILD_SEAL") {
            return Some(TutorialCategory::GUILDSEAL);
        }
        if str_eq(s, "TUTORIAL_CATEGORY_INTERACTING") {
            return Some(TutorialCategory::INTERACTING);
        }
        if str_eq(s, "TUTORIAL_CATEGORY_INVENTORY") {
            return Some(TutorialCategory::INVENTORY);
        }
        if str_eq(s, "TUTORIAL_CATEGORY_INVENTORY_ASSIGNING") {
            return Some(TutorialCategory::INVENTORYASSIGNING);
        }
        if str_eq(s, "TUTORIAL_CATEGORY_LEVELLING_UP") {
            return Some(TutorialCategory::LEVELLINGUP);
        }
        if str_eq(s, "TUTORIAL_CATEGORY_MORALITY") {
            return Some(TutorialCategory::MORALITY);
        }
        if str_eq(s, "TUTORIAL_CATEGORY_MOVEMENT") {
            return Some(TutorialCategory::MOVEMENT);
        }
        if str_eq(s, "TUTORIAL_CATEGORY_QUEST") {
            return Some(TutorialCategory::QUEST);
        }
        if str_eq(s, "TUTORIAL_CATEGORY_QUEST_CARD") {
            return Some(TutorialCategory::QUESTCARD);
        }
        if str_eq(s, "TUTORIAL_CATEGORY_RENOWN") {
            return Some(TutorialCategory::RENOWN);
        }
        if str_eq(s, "TUTORIAL_CATEGORY_TAKING_QUESTS") {
            return Some(TutorialCategory::TAKINGQUESTS);
        }
        if str_eq(s, "TUTORIAL_CATEGORY_TELEPORTING") {
            return Some(TutorialCategory::TELEPORTING);
        }
        if str_eq(s, "TUTORIAL_CATEGORY_TRADE_ITEM") {
            return Some(TutorialCategory::TRADEITEM);
        }
        if str_eq(s, "TUTORIAL_CATEGORY_SEARCHING") {
            return Some(TutorialCategory::SEARCHING);
        }
        if str_eq(s, "TUTORIAL_CATEGORY_SNEAK") {
            return Some(TutorialCategory::SNEAK);
        }
        if str_eq(s, "TUTORIAL_CATEGORY_BUILDING_OWNERSHIP") {
            return Some(TutorialCategory::BUILDINGOWNERSHIP);
        }
        if str_eq(s, "TUTORIAL_CATEGORY_FISHING_GAME") {
            return Some(TutorialCategory::FISHINGGAME);
        }
        if str_eq(s, "TUTORIAL_CATEGORY_ORACLE_GAME") {
            return Some(TutorialCategory::ORACLEGAME);
        }
        if str_eq(s, "TUTORIAL_CATEGORY_WORLD_MAP") {
            return Some(TutorialCategory::WORLDMAP);
        }
        if str_eq(s, "TUTORIAL_CATEGORY_ALCOHOL") {
            return Some(TutorialCategory::ALCOHOL);
        }
        if str_eq(s, "TUTORIAL_CATEGORY_AUGMENTATION") {
            return Some(TutorialCategory::AUGMENTATION);
        }
        if str_eq(s, "TUTORIAL_CATEGORY_ARMOUR") {
            return Some(TutorialCategory::ARMOUR);
        }
        if str_eq(s, "TUTORIAL_CATEGORY_BOMB") {
            return Some(TutorialCategory::BOMB);
        }
        if str_eq(s, "TUTORIAL_CATEGORY_CLOTHES") {
            return Some(TutorialCategory::CLOTHES);
        }
        if str_eq(s, "TUTORIAL_CATEGORY_FOOD") {
            return Some(TutorialCategory::FOOD);
        }
        if str_eq(s, "TUTORIAL_CATEGORY_FISHING_ROD") {
            return Some(TutorialCategory::FISHINGROD);
        }
        if str_eq(s, "TUTORIAL_CATEGORY_GIFT") {
            return Some(TutorialCategory::GIFT);
        }
        if str_eq(s, "TUTORIAL_CATEGORY_HAIRSTYLE") {
            return Some(TutorialCategory::HAIRSTYLE);
        }
        if str_eq(s, "TUTORIAL_CATEGORY_POTION") {
            return Some(TutorialCategory::POTION);
        }
        if str_eq(s, "TUTORIAL_CATEGORY_RESURRECTION_PHIAL") {
            return Some(TutorialCategory::RESURRECTIONPHIAL);
        }
        if str_eq(s, "TUTORIAL_CATEGORY_SILVER_KEY") {
            return Some(TutorialCategory::SILVERKEY);
        }
        if str_eq(s, "TUTORIAL_CATEGORY_SPADE") {
            return Some(TutorialCategory::SPADE);
        }
        if str_eq(s, "TUTORIAL_CATEGORY_TATTOO") {
            return Some(TutorialCategory::TATTOO);
        }
        if str_eq(s, "TUTORIAL_CATEGORY_TROPHY") {
            return Some(TutorialCategory::TROPHY);
        }
        if str_eq(s, "TUTORIAL_CATEGORY_WEAPON") {
            return Some(TutorialCategory::WEAPON);
        }
        if str_eq(s, "TUTORIAL_CATEGORY_WEAPON_LEGENDARY") {
            return Some(TutorialCategory::WEAPONLEGENDARY);
        }
        if str_eq(s, "TUTORIAL_CATEGORY_APOLOGY") {
            return Some(TutorialCategory::APOLOGY);
        }
        if str_eq(s, "TUTORIAL_CATEGORY_BATTLE_CRY") {
            return Some(TutorialCategory::BATTLECRY);
        }
        if str_eq(s, "TUTORIAL_CATEGORY_BELCH") {
            return Some(TutorialCategory::BELCH);
        }
        if str_eq(s, "TUTORIAL_CATEGORY_EVIL_LAUGH") {
            return Some(TutorialCategory::EVILLAUGH);
        }
        if str_eq(s, "TUTORIAL_CATEGORY_FART") {
            return Some(TutorialCategory::FART);
        }
        if str_eq(s, "TUTORIAL_CATEGORY_FLIRT") {
            return Some(TutorialCategory::FLIRT);
        }
        if str_eq(s, "TUTORIAL_CATEGORY_FOLLOW") {
            return Some(TutorialCategory::FOLLOW);
        }
        if str_eq(s, "TUTORIAL_CATEGORY_GIGGLE") {
            return Some(TutorialCategory::GIGGLE);
        }
        if str_eq(s, "TUTORIAL_CATEGORY_HEROIC_STANCE") {
            return Some(TutorialCategory::HEROICSTANCE);
        }
        if str_eq(s, "TUTORIAL_CATEGORY_MIDDLE_FINGER") {
            return Some(TutorialCategory::MIDDLEFINGER);
        }
        if str_eq(s, "TUTORIAL_CATEGORY_PELVIC_THRUST") {
            return Some(TutorialCategory::PELVICTHRUST);
        }
        if str_eq(s, "TUTORIAL_CATEGORY_PICKLOCK") {
            return Some(TutorialCategory::PICKLOCK);
        }
        if str_eq(s, "TUTORIAL_CATEGORY_PICKPOCKET") {
            return Some(TutorialCategory::PICKPOCKET);
        }
        if str_eq(s, "TUTORIAL_CATEGORY_SHIT") {
            return Some(TutorialCategory::SHIT);
        }
        if str_eq(s, "TUTORIAL_CATEGORY_SNEER") {
            return Some(TutorialCategory::SNEER);
        }
        if str_eq(s, "TUTORIAL_CATEGORY_STEAL") {
            return Some(TutorialCategory::STEAL);
        }
        if str_eq(s, "TUTORIAL_CATEGORY_THANKS") {
            return Some(TutorialCategory::THANKS);
        }
        if str_eq(s, "TUTORIAL_CATEGORY_VICTORY_PUMP") {
            return Some(TutorialCategory::VICTORYPUMP);
        }
        if str_eq(s, "TUTORIAL_CATEGORY_WAIT") {
            return Some(TutorialCategory::WAIT);
        }
        if str_eq(s, "TUTORIAL_CATEGORY_COCK_A_DOODLE_DO") {
            return Some(TutorialCategory::COCKADOODLEDO);
        }
        if str_eq(s, "TUTORIAL_CATEGORY_CROTCH_GRAB") {
            return Some(TutorialCategory::CROTCHGRAB);
        }
        if str_eq(s, "TUTORIAL_CATEGORY_KISS_MY_ASS") {
            return Some(TutorialCategory::KISSMYASS);
        }
        if str_eq(s, "TUTORIAL_CATEGORY_FLAMENCO") {
            return Some(TutorialCategory::FLAMENCO);
        }
        if str_eq(s, "TUTORIAL_CATEGORY_COSSACK") {
            return Some(TutorialCategory::COSSACK);
        }
        if str_eq(s, "TUTORIAL_CATEGORY_AIR_GUITAR") {
            return Some(TutorialCategory::AIRGUITAR);
        }
        if str_eq(s, "TUTORIAL_CATEGORY_BALLET") {
            return Some(TutorialCategory::BALLET);
        }
        if str_eq(s, "TUTORIAL_CATEGORY_SATURDAY_NIGHT_FEVER") {
            return Some(TutorialCategory::SATURDAYNIGHTFEVER);
        }
        if str_eq(s, "TUTORIAL_CATEGORY_TAP") {
            return Some(TutorialCategory::TAP);
        }
        if str_eq(s, "TUTORIAL_CATEGORY_Y") {
            return Some(TutorialCategory::Y);
        }
        if str_eq(s, "TUTORIAL_CATEGORY_M") {
            return Some(TutorialCategory::M);
        }
        if str_eq(s, "TUTORIAL_CATEGORY_C") {
            return Some(TutorialCategory::C);
        }
        if str_eq(s, "TUTORIAL_CATEGORY_A") {
            return Some(TutorialCategory::A);
        }
        if str_eq(s, "TUTORIAL_CATEGORY_CRIME_WEAPONOUT") {
            return Some(TutorialCategory::CRIMEWEAPONOUT);
        }
        if str_eq(s, "TUTORIAL_CATEGORY_CRIME_TRESPASSING") {
            return Some(TutorialCategory::CRIMETRESPASSING);
        }
        if str_eq(s, "TUTORIAL_CATEGORY_CRIME_VANDALISM") {
            return Some(TutorialCategory::CRIMEVANDALISM);
        }
        if str_eq(s, "TUTORIAL_CATEGORY_CRIME_THEFT") {
            return Some(TutorialCategory::CRIMETHEFT);
        }
        if str_eq(s, "TUTORIAL_CATEGORY_CRIME_ASSAULT") {
            return Some(TutorialCategory::CRIMEASSAULT);
        }
        if str_eq(s, "TUTORIAL_CATEGORY_CRIME_GBH") {
            return Some(TutorialCategory::CRIMEGBH);
        }
        if str_eq(s, "TUTORIAL_CATEGORY_CRIME_MURDER") {
            return Some(TutorialCategory::CRIMEMURDER);
        }
        if str_eq(s, "TUTORIAL_CATEGORY_COUNT") {
            return Some(TutorialCategory::COUNT);
        }
        None
    }
}

#[derive(Debug, Clone, Copy, PartialEq, Eq, Structural, PartialOrd, Ord, Hash)]
pub enum WallMountEffects {
    NONE,
    TELEPORT,
    HEAL,
}

impl DefEnum for WallMountEffects {
    open spec fn wire_value(self) -> i32 {
        match self {
            WallMountEffects::NONE => 0i32,
            WallMountEffects::TELEPORT => 1i32,
            WallMountEffects::HEAL => 2i32,
        }
    }

    open spec fn lookup(value: i32) -> Option<Self> {
        match value {
            0i32 => Some(WallMountEffects::NONE),
            1i32 => Some(WallMountEffects::TELEPORT),
            2i32 => Some(WallMountEffects::HEAL),
            _ => None,
        }
    }

    fn from_i32(value: i32) -> (r: Option<Self>) {
        match value {
            0i32 => Some(WallMountEffects::NONE),
            1i32 => Some(WallMountEffects::TELEPORT),
            2i32 => Some(WallMountEffects::HEAL),
            _ => None,
        }
    }

    fn to_i32(self) -> (r: i32) {
        match self {
            WallMountEffects::NONE => 0i32,
            WallMountEffects::TELEPORT => 1i32,
            WallMountEffects::HEAL => 2i32,
        }
    }

    proof fn lemma_lookup_wire_value(e: Self) {
    }
}

impl WallMountEffects {
    /// The C++ enumerator symbol of `self`.
    pub open spec fn symbol_of(self) -> Seq<char> {
        match self {
            WallMountEffects::NONE => "WALL_MOUNT_EFFECT_NONE"@,
            WallMountEffects::TELEPORT => "WALL_MOUNT_EFFECT_TELEPORT"@,
            WallMountEffects::HEAL => "WALL_MOUNT_EFFECT_HEAL"@,
        }
    }

    /// The first variant whose symbol is `s`, if any.
    pub open spec fn symbol_lookup(s: Seq<char>) -> Option<Self> {
        if s == "WALL_MOUNT_EFFECT_NONE"@ {
            Some(WallMountEffects::NONE)
        } else if s == "WALL_MOUNT_EFFECT_TELEPORT"@ {
            Some(WallMountEffects::TELEPORT)
        } else if s == "WALL_MOUNT_EFFECT_HEAL"@ {
            Some(WallMountEffects::HEAL)
        } else {
            None
        }
    }

    /// The C++ enumerator symbol text defs use for `self`.
    pub fn symbol(self) -> (r: &'static str)
        ensures
            r@ == self.symbol_of(),
    {
        match self {
            WallMountEffects::NONE => "WALL_MOUNT_EFFECT_NONE",
            WallMountEffects::TELEPORT => "WALL_MOUNT_EFFECT_TELEPORT",
            WallMountEffects::HEAL => "WALL_MOUNT_EFFECT_HEAL",
        }
    }

    /// The variant a C++ enumerator symbol names.
    pub fn from_symbol(s: &str) -> (r: Option<Self>)
        ensures
            r == Self::symbol_lookup(s@),
    {
        if str_eq(s, "WALL_MOUNT_EFFECT_NONE") {
            return Some(WallMountEffects::NONE);
        }
        if str_eq(s, "WALL_MOUNT_EFFECT_TELEPORT") {
            return Some(WallMountEffects::TELEPORT);
        }
        if str_eq(s, "WALL_MOUNT_EFFECT_HEAL") {
            return Some(WallMountEffects::HEAL);
        }
        None
    }
}

#[derive(Debug, Clone, Copy, PartialEq, Eq, Structural, PartialOrd, Ord, Hash)]
pub enum WaterType {
    NULL,
    LAKE,
    RIVER,
    SEA,
    REFLECTIVESEA,
    NONREFLECTIVESEA,
    OLD,
    DUMMYSHOREPOINT,
    ICE,
    COUNT,
}

impl DefEnum for WaterType {
    open spec fn wire_value(self) -> i32 {
        match self {
            WaterType::NULL => 0i32,
            WaterType::LAKE => 1i32,
            WaterType::RIVER => 2i32,
            WaterType::SEA => 3i32,
            WaterType::REFLECTIVESEA => 4i32,
            WaterType::NONREFLECTIVESEA => 5i32,
            WaterType::OLD => 6i32,
            WaterType::DUMMYSHOREPOINT => 7i32,
            WaterType::ICE => 8i32,
            WaterType::COUNT => 9i32,
        }
    }

    open spec fn lookup(value: i32) -> Option<Self> {
        match value {
            0i32 => Some(WaterType::NULL),
            1i32 => Some(WaterType::LAKE),
            2i32 => Some(WaterType::RIVER),
            3i32 => Some(WaterType::SEA),
            4i32 => Some(WaterType::REFLECTIVESEA),
            5i32 => Some(WaterType::NONREFLECTIVESEA),
            6i32 => Some(WaterType::OLD),
            7i32 => Some(WaterType::DUMMYSHOREPOINT),
            8i32 => Some(WaterType::ICE),
            9i32 => Some(WaterType::COUNT),
            _ => None,
        }
    }

    fn from_i32(value: i32) -> (r: Option<Self>) {
        match value {
            0i32 => Some(WaterType::NULL),
            1i32 => Some(WaterType::LAKE),
            2i32 => Some(WaterType::RIVER),
            3i32 => Some(WaterType::SEA),
            4i32 => Some(WaterType::REFLECTIVESEA),
            5i32 => Some(WaterType::NONREFLECTIVESEA),
            6i32 => Some(WaterType::OLD),
            7i32 => Some(WaterType::DUMMYSHOREPOINT),
            8i32 => Some(WaterType::ICE),
            9i32 => Some(WaterType::COUNT),
            _ => None,
        }
    }

    fn to_i32(self) -> (r: i32) {
        match self {
            WaterType::NULL => 0i32,
            WaterType::LAKE => 1i32,
            WaterType::RIVER => 2i32,
            WaterType::SEA => 3i32,
            WaterType::REFLECTIVESEA => 4i32,
            WaterType::NONREFLECTIVESEA => 5i32,
            WaterType::OLD => 6i32,
            WaterType::DUMMYSHOREPOINT => 7i32,
            WaterType::ICE => 8i32,
            WaterType::COUNT => 9i32,
        }
    }

    proof fn lemma_lookup_wire_value(e: Self) {
    }
}

impl WaterType {
    /// The C++ enumerator symbol of `self`.
    pub open spec fn symbol_of(self) -> Seq<char> {
        match self {
            WaterType::NULL => "WATER_TYPE_NULL"@,
            WaterType::LAKE => "WATER_TYPE_LAKE"@,
            WaterType::RIVER => "WATER_TYPE_RIVER"@,
            WaterType::SEA => "WATER_TYPE_SEA"@,
            WaterType::REFLECTIVESEA => "WATER_TYPE_REFLECTIVE_SEA"@,
            WaterType::NONREFLECTIVESEA => "WATER_TYPE_NON_REFLECTIVE_SEA"@,
            WaterType::OLD => "WATER_TYPE_OLD"@,
            WaterType::DUMMYSHOREPOINT => "WATER_TYPE_DUMMY_SHORE_POINT"@,
            WaterType::ICE => "WATER_TYPE_ICE"@,
            WaterType::COUNT => "WATER_TYPE_COUNT"@,
        }
    }

    /// The first variant whose symbol is `s`, if any.
    pub open spec fn symbol_lookup(s: Seq<char>) -> Option<Self> {
        if s == "WATER_TYPE_NULL"@ {
            Some(WaterType::NULL)
        } else if s == "WATER_TYPE_LAKE"@ {
            Some(WaterType::LAKE)
        } else if s == "WATER_TYPE_RIVER"@ {
            Some(WaterType::RIVER)
        } else if s == "WATER_TYPE_SEA"@ {
            Some(WaterType::SEA)
        } else if s == "WATER_TYPE_REFLECTIVE_SEA"@ {
            Some(WaterType::REFLECTIVESEA)
        } else if s == "WATER_TYPE_NON_REFLECTIVE_SEA"@ {
            Some(WaterType::NONREFLECTIVESEA)
        } else if s == "WATER_TYPE_OLD"@ {
            Some(WaterType::OLD)
        } else if s == "WATER_TYPE_DUMMY_SHORE_POINT"@ {
            Some(WaterType::DUMMYSHOREPOINT)
        } else if s == "WATER_TYPE_ICE"@ {
            Some(WaterType::ICE)
        } else if s == "WATER_TYPE_COUNT"@ {
            Some(WaterType::COUNT)
        } else {
            None
        }
    }

    /// The C++ enumerator symbol text defs use for `self`.
    pub fn symbol(self) -> (r: &'static str)
        ensures
            r@ == self.symbol_of(),
    {
        match self {
            WaterType::NULL => "WATER_TYPE_NULL",
            WaterType::LAKE => "WATER_TYPE_LAKE",
            WaterType::RIVER => "WATER_TYPE_RIVER",
            WaterType::SEA => "WATER_TYPE_SEA",
            WaterType::REFLECTIVESEA => "WATER_TYPE_REFLECTIVE_SEA",
            WaterType::NONREFLECTIVESEA => "WATER_TYPE_NON_REFLECTIVE_SEA",
            WaterType::OLD => "WATER_TYPE_OLD",
            WaterType::DUMMYSHOREPOINT => "WATER_TYPE_DUMMY_SHORE_POINT",
            WaterType::ICE => "WATER_TYPE_ICE",
            WaterType::COUNT => "WATER_TYPE_COUNT",
        }
    }

    /// The variant a C++ enumerator symbol names.
    pub fn from_symbol(s: &str) -> (r: Option<Self>)
        ensures
            r == Self::symbol_lookup(s@),
    {
        if str_eq(s, "WATER_TYPE_NULL") {
            return Some(WaterType::NULL);
        }
        if str_eq(s, "WATER_TYPE_LAKE") {
            return Some(WaterType::LAKE);
        }
        if str_eq(s, "WATER_TYPE_RIVER") {
            return Some(WaterType::RIVER);
        }
        if str_eq(s, "WATER_TYPE_SEA") {
            return Some(WaterType::SEA);
        }
        if str_eq(s, "WATER_TYPE_REFLECTIVE_SEA") {
            return Some(WaterType::REFLECTIVESEA);
        }
        if str_eq(s, "WATER_TYPE_NON_REFLECTIVE_SEA") {
            return Some(WaterType::NONREFLECTIVESEA);
        }
        if str_eq(s, "WATER_TYPE_OLD") {
            return Some(WaterType::OLD);
        }
        if str_eq(s, "WATER_TYPE_DUMMY_SHORE_POINT") {
            return Some(WaterType::DUMMYSHOREPOINT);
        }
        if str_eq(s, "WATER_TYPE_ICE") {
            return Some(WaterType::ICE);
        }
        if str_eq(s, "WATER_TYPE_COUNT") {
            return Some(WaterType::COUNT);
        }
        None
    }
}

#[derive(Debug, Clone, Copy, PartialEq, Eq, Structural, PartialOrd, Ord, Hash)]
pub enum WeaponClass {
    UNARMED,
    LIGHT,
    HEAVY,
    PROJECTILE,
}

impl DefEnum for WeaponClass {
    open spec fn wire_value(self) -> i32 {
        match self {
            WeaponClass::UNARMED => 0i32,
            WeaponClass::LIGHT => 1i32,
            WeaponClass::HEAVY => 2i32,
            WeaponClass::PROJECTILE => 3i32,
        }
    }

    open spec fn lookup(value: i32) -> Option<Self> {
        match value {
            0i32 => Some(WeaponClass::UNARMED),
            1i32 => Some(WeaponClass::LIGHT),
            2i32 => Some(WeaponClass::HEAVY),
            3i32 => Some(WeaponClass::PROJECTILE),
            _ => None,
        }
    }

    fn from_i32(value: i32) -> (r: Option<Self>) {
        match value {
            0i32 => Some(WeaponClass::UNARMED),
            1i32 => Some(WeaponClass::LIGHT),
            2i32 => Some(WeaponClass::HEAVY),
            3i32 => Some(WeaponClass::PROJECTILE),
            _ => None,
        }
    }

    fn to_i32(self) -> (r: i32) {
        match self {
            WeaponClass::UNARMED => 0i32,
            WeaponClass::LIGHT => 1i32,
            WeaponClass::HEAVY => 2i32,
            WeaponClass::PROJECTILE => 3i32,
        }
    }

    proof fn lemma_lookup_wire_value(e: Self) {
    }
}

impl WeaponClass {
    /// The C++ enumerator symbol of `self`.
    pub open spec fn symbol_of(self) -> Seq<char> {
        match self {
            WeaponClass::UNARMED => "WC_UNARMED"@,
            WeaponClass::LIGHT => "WC_LIGHT"@,
            WeaponClass::HEAVY => "WC_HEAVY"@,
            WeaponClass::PROJECTILE => "WC_PROJECTILE"@,
        }
    }

    /// The first variant whose symbol is `s`, if any.
    pub open spec fn symbol_lookup(s: Seq<char>) -> Option<Self> {
        if s == "WC_UNARMED"@ {
            Some(WeaponClass::UNARMED)
        } else if s == "WC_LIGHT"@ {
            Some(WeaponClass::LIGHT)
        } else if s == "WC_HEAVY"@ {
            Some(WeaponClass::HEAVY)
        } else if s == "WC_PROJECTILE"@ {
            Some(WeaponClass::PROJECTILE)
        } else {
            None
        }
    }

    /// The C++ enumerator symbol text defs use for `self`.
    pub fn symbol(self) -> (r: &'static str)
        ensures
            r@ == self.symbol_of(),
    {
        match self {
            WeaponClass::UNARMED => "WC_UNARMED",
            WeaponClass::LIGHT => "WC_LIGHT",
            WeaponClass::HEAVY => "WC_HEAVY",
            WeaponClass::PROJECTILE => "WC_PROJECTILE",
        }
    }

    /// The variant a C++ enumerator symbol names.
    pub fn from_symbol(s: &str) -> (r: Option<Self>)
        ensures
            r == Self::symbol_lookup(s@),
    {
        if str_eq(s, "WC_UNARMED") {
            return Some(WeaponClass::UNARMED);
        }
        if str_eq(s, "WC_LIGHT") {
            return Some(WeaponClass::LIGHT);
        }
        if str_eq(s, "WC_HEAVY") {
            return Some(WeaponClass::HEAVY);
        }
        if str_eq(s, "WC_PROJECTILE") {
            return Some(WeaponClass::PROJECTILE);
        }
        None
    }
}

#[derive(Debug, Clone, Copy, PartialEq, Eq, Structural, PartialOrd, Ord, Hash)]
pub enum WeaponType {
    SWORD,
    AXE,
    HAMMER,
    BOW,
    CROSSBOW,
    BOLT,
    ARROW,
    THROWING,
}

impl DefEnum for WeaponType {
    open spec fn wire_value(self) -> i32 {
        match self {
            WeaponType::SWORD => 0i32,
            WeaponType::AXE => 1i32,
            WeaponType::HAMMER => 2i32,
            WeaponType::BOW => 3i32,
            WeaponType::CROSSBOW => 4i32,
            WeaponType::BOLT => 5i32,
            WeaponType::ARROW => 6i32,
            WeaponType::THROWING => 7i32,
        }
    }

    open spec fn lookup(value: i32) -> Option<Self> {
        match value {
            0i32 => Some(WeaponType::SWORD),
            1i32 => Some(WeaponType::AXE),
            2i32 => Some(WeaponType::HAMMER),
            3i32 => Some(WeaponType::BOW),
            4i32 => Some(WeaponType::CROSSBOW),
            5i32 => Some(WeaponType::BOLT),
            6i32 => Some(WeaponType::ARROW),
            7i32 => Some(WeaponType::THROWING),
            _ => None,
        }
    }

    fn from_i32(value: i32) -> (r: Option<Self>) {
        match value {
            0i32 => Some(WeaponType::SWORD),
            1i32 => Some(WeaponType::AXE),
            2i32 => Some(WeaponType::HAMMER),
            3i32 => Some(WeaponType::BOW),
            4i32 => Some(WeaponType::CROSSBOW),
            5i32 => Some(WeaponType::BOLT),
            6i32 => Some(WeaponType::ARROW),
            7i32 => Some(WeaponType::THROWING),
            _ => None,
        }
    }

    fn to_i32(self) -> (r: i32) {
        match self {
            WeaponType::SWORD => 0i32,
            WeaponType::AXE => 1i32,
            WeaponType::HAMMER => 2i32,
            WeaponType::BOW => 3i32,
            WeaponType::CROSSBOW => 4i32,
            WeaponType::BOLT => 5i32,
            WeaponType::ARROW => 6i32,
            WeaponType::THROWING => 7i32,
        }
    }

    proof fn lemma_lookup_wire_value(e: Self) {
    }
}

impl WeaponType {
    /// The C++ enumerator symbol of `self`.
    pub open spec fn symbol_of(self) -> Seq<char> {
        match self {
            WeaponType::SWORD => "WT_SWORD"@,
            WeaponType::AXE => "WT_AXE"@,
            WeaponType::HAMMER => "WT_HAMMER"@,
            WeaponType::BOW => "WT_BOW"@,
            WeaponType::CROSSBOW => "WT_CROSSBOW"@,
            WeaponType::BOLT => "WT_BOLT"@,
            WeaponType::ARROW => "WT_ARROW"@,
            WeaponType::THROWING => "WT_THROWING"@,
        }
    }

    /// The first variant whose symbol is `s`, if any.
    pub open spec fn symbol_lookup(s: Seq<char>) -> Option<Self> {
        if s == "WT_SWORD"@ {
            Some(WeaponType::SWORD)
        } else if s == "WT_AXE"@ {
            Some(WeaponType::AXE)
        } else if s == "WT_HAMMER"@ {
            Some(WeaponType::HAMMER)
        } else if s == "WT_BOW"@ {
            Some(WeaponType::BOW)
        } else if s == "WT_CROSSBOW"@ {
            Some(WeaponType::CROSSBOW)
        } else if s == "WT_BOLT"@ {
            Some(WeaponType::BOLT)
        } else if s == "WT_ARROW"@ {
            Some(WeaponType::ARROW)
        } else if s == "WT_THROWING"@ {
            Some(WeaponType::THROWING)
        } else {
            None
        }
    }

    /// The C++ enumerator symbol text defs use for `self`.
    pub fn symbol(self) -> (r: &'static str)
        ensures
            r@ == self.symbol_of(),
    {
        match self {
            WeaponType::SWORD => "WT_SWORD",
            WeaponType::AXE => "WT_AXE",
            WeaponType::HAMMER => "WT_HAMMER",
            WeaponType::BOW => "WT_BOW",
            WeaponType::CROSSBOW => "WT_CROSSBOW",
            WeaponType::BOLT => "WT_BOLT",
            WeaponType::ARROW => "WT_ARROW",
            WeaponType::THROWING => "WT_THROWING",
        }
    }

    /// The variant a C++ enumerator symbol names.
    pub fn from_symbol(s: &str) -> (r: Option<Self>)
        ensures
            r == Self::symbol_lookup(s@),
    {
        if str_eq(s, "WT_SWORD") {
            return Some(WeaponType::SWORD);
        }
        if str_eq(s, "WT_AXE") {
            return Some(WeaponType::AXE);
        }
        if str_eq(s, "WT_HAMMER") {
            return Some(WeaponType::HAMMER);
        }
        if str_eq(s, "WT_BOW") {
            return Some(WeaponType::BOW);
        }
        if str_eq(s, "WT_CROSSBOW") {
            return Some(WeaponType::CROSSBOW);
        }
        if str_eq(s, "WT_BOLT") {
            return Some(WeaponType::BOLT);
        }
        if str_eq(s, "WT_ARROW") {
            return Some(WeaponType::ARROW);
        }
        if str_eq(s, "WT_THROWING") {
            return Some(WeaponType::THROWING);
        }
        None
    }
}

#[derive(Debug, Clone, Copy, PartialEq, Eq, Structural, PartialOrd, Ord, Hash, Default)]
pub struct WorldMapNameGraphic(pub i32);

impl WorldMapNameGraphic {
    /// The bits of `WORLD_MAP_NAME_GRAPHIC_BANDIT_CAMP`.
    pub const BANDIT_CAMP: i32 = 0i32;
    /// The bits of `WORLD_MAP_NAME_GRAPHIC_BANDIT_CAMP_TENT`.
    pub const BANDIT_CAMP_TENT: i32 = 1i32;
    /// The bits of `WORLD_MAP_NAME_GRAPHIC_BANDIT_CAMP_ELITES`.
    pub const BANDIT_CAMP_ELITES: i32 = 2i32;
    /// The bits of `WORLD_MAP_NAME_GRAPHIC_BANDIT_CAMP_PATH`.
    pub const BANDIT_CAMP_PATH: i32 = 3i32;
    /// The bits of `WORLD_MAP_NAME_GRAPHIC_BANDIT_CAMP_GATE`.
    pub const BANDIT_CAMP_GATE: i32 = 4i32;
    /// The bits of `WORLD_MAP_NAME_GRAPHIC_BOWERSTONE`.
    pub const BOWERSTONE: i32 = 5i32;
    /// The bits of `WORLD_MAP_NAME_GRAPHIC_DARKWOOD`.
    pub const DARKWOOD: i32 = 6i32;
    /// The bits of `WORLD_MAP_NAME_GRAPHIC_DARWOOD_SWAMP`.
    pub const DARWOOD_SWAMP: i32 = 7i32;
    /// The bits of `WORLD_MAP_NAME_GRAPHIC_DARKWOOD_LAKE`.
    pub const DARKWOOD_LAKE: i32 = 8i32;
    /// The bits of `WORLD_MAP_NAME_GRAPHIC_DARKWOOD_CAMP`.
    pub const DARKWOOD_CAMP: i32 = 9i32;
    /// The bits of `WORLD_MAP_NAME_GRAPHIC_CHAPEL_SKORM`.
    pub const CHAPEL_SKORM: i32 = 10i32;
    /// The bits of `WORLD_MAP_NAME_GRAPHIC_ANCIENT_CULLIS`.
    pub const ANCIENT_CULLIS: i32 = 11i32;
    /// The bits of `WORLD_MAP_NAME_GRAPHIC_DARKWOOD_WEIR`.
    pub const DARKWOOD_WEIR: i32 = 12i32;
    /// The bits of `WORLD_MAP_NAME_GRAPHIC_FISHER_CREEK`.
    pub const FISHER_CREEK: i32 = 13i32;
    /// The bits of `WORLD_MAP_NAME_GRAPHIC_LYCHFIELD_GRAVEYARD`.
    pub const LYCHFIELD_GRAVEYARD: i32 = 14i32;
    /// The bits of `WORLD_MAP_NAME_GRAPHIC_HEADMANS_HILL`.
    pub const HEADMANS_HILL: i32 = 15i32;
    /// The bits of `WORLD_MAP_NAME_GRAPHIC_PRISON_PATH`.
    pub const PRISON_PATH: i32 = 16i32;
    /// The bits of `WORLD_MAP_NAME_GRAPHIC_GIBBET_WOODS`.
    pub const GIBBET_WOODS: i32 = 17i32;
    /// The bits of `WORLD_MAP_NAME_GRAPHIC_GRAVEYARD_PATH`.
    pub const GRAVEYARD_PATH: i32 = 18i32;
    /// The bits of `WORLD_MAP_NAME_GRAPHIC_CIRCLE_DEAD`.
    pub const CIRCLE_DEAD: i32 = 19i32;
    /// The bits of `WORLD_MAP_NAME_GRAPHIC_GREATWOOD_CAVES`.
    pub const GREATWOOD_CAVES: i32 = 20i32;
    /// The bits of `WORLD_MAP_NAME_GRAPHIC_GREATWOOD_LAKE`.
    pub const GREATWOOD_LAKE: i32 = 21i32;
    /// The bits of `WORLD_MAP_NAME_GRAPHIC_GREATWOOD`.
    pub const GREATWOOD: i32 = 22i32;
    /// The bits of `WORLD_MAP_NAME_GRAPHIC_GUILD`.
    pub const GUILD: i32 = 23i32;
    /// The bits of `WORLD_MAP_NAME_GRAPHIC_LOOKOUT_POINT`.
    pub const LOOKOUT_POINT: i32 = 24i32;
    /// The bits of `WORLD_MAP_NAME_GRAPHIC_WINDMILL_HILL`.
    pub const WINDMILL_HILL: i32 = 25i32;
    /// The bits of `WORLD_MAP_NAME_GRAPHIC_BOWERSTONE_JAIL`.
    pub const BOWERSTONE_JAIL: i32 = 26i32;
    /// The bits of `WORLD_MAP_NAME_GRAPHIC_OAKVALE`.
    pub const OAKVALE: i32 = 27i32;
    /// The bits of `WORLD_MAP_NAME_GRAPHIC_ORCHARD_FARM`.
    pub const ORCHARD_FARM: i32 = 28i32;
    /// The bits of `WORLD_MAP_NAME_GRAPHIC_WITCHWOOD`.
    pub const WITCHWOOD: i32 = 29i32;
    /// The bits of `WORLD_MAP_NAME_GRAPHIC_WITCHWOOD_LAKE`.
    pub const WITCHWOOD_LAKE: i32 = 30i32;
    /// The bits of `WORLD_MAP_NAME_GRAPHIC_TEMPLE_AVO`.
    pub const TEMPLE_AVO: i32 = 31i32;
    /// The bits of `WORLD_MAP_NAME_GRAPHIC_WITCHWOOD_STONES`.
    pub const WITCHWOOD_STONES: i32 = 32i32;
    /// The bits of `WORLD_MAP_NAME_GRAPHIC_PICNIC_AREA`.
    pub const PICNIC_AREA: i32 = 33i32;
    /// The bits of `WORLD_MAP_NAME_GRAPHIC_ROSE_COTTAGE`.
    pub const ROSE_COTTAGE: i32 = 34i32;
    /// The bits of `WORLD_MAP_NAME_GRAPHIC_ARENA`.
    pub const ARENA: i32 = 35i32;
    /// The bits of `WORLD_MAP_NAME_GRAPHIC_KNOTHOLE_GLADE`.
    pub const KNOTHOLE_GLADE: i32 = 36i32;
    /// The bits of `WORLD_MAP_NAME_GRAPHIC_HOOK_COAST`.
    pub const HOOK_COAST: i32 = 37i32;
    /// The bits of `WORLD_MAP_NAME_GRAPHIC_BARROW_FIELDS`.
    pub const BARROW_FIELDS: i32 = 38i32;
    /// The bits of `WORLD_MAP_NAME_GRAPHIC_GREY_HOUSE`.
    pub const GREY_HOUSE: i32 = 39i32;
    /// The bits of `WORLD_MAP_NAME_GRAPHIC_GREATWOOD_GORGE`.
    pub const GREATWOOD_GORGE: i32 = 40i32;
    /// The bits of `WORLD_MAP_NAME_GRAPHIC_HOBBE_CAVE`.
    pub const HOBBE_CAVE: i32 = 41i32;
    /// The bits of `WORLD_MAP_NAME_GRAPHIC_HEADMANS_CAVE`.
    pub const HEADMANS_CAVE: i32 = 42i32;
    /// The bits of `WORLD_MAP_NAME_GRAPHIC_GREATWOOD_CULLIS`.
    pub const GREATWOOD_CULLIS: i32 = 43i32;
    /// The bits of `WORLD_MAP_NAME_GRAPHIC_PRISON`.
    pub const PRISON: i32 = 44i32;
    /// The bits of `WORLD_MAP_NAME_GRAPHIC_LOST_BAY`.
    pub const LOST_BAY: i32 = 45i32;
    /// The bits of `WORLD_MAP_NAME_GRAPHIC_NECROPOLIS`.
    pub const NECROPOLIS: i32 = 46i32;
    /// The bits of `WORLD_MAP_NAME_GRAPHIC_ARCHONS_SHRINE`.
    pub const ARCHONS_SHRINE: i32 = 47i32;
    /// The bits of `WORLD_MAP_NAME_GRAPHIC_SNOWSPIRE`.
    pub const SNOWSPIRE: i32 = 48i32;
    /// The bits of `WORLD_MAP_NAME_GRAPHIC_ARCHONS_FOLLY`.
    pub const ARCHONS_FOLLY: i32 = 49i32;
    /// The bits of `WORLD_MAP_NAME_GRAPHIC_NORTHERN_WASTES_FOOTHILLS`.
    pub const NORTHERN_WASTES_FOOTHILLS: i32 = 50i32;
    /// The bits of `WORLD_MAP_NAME_GRAPHIC_BORDELLO`.
    pub const BORDELLO: i32 = 51i32;
    /// The bits of `WORLD_MAP_NAME_GRAPHIC_NUMBER`.
    pub const NUMBER: i32 = 52i32;

    /// The flag a C++ enumerator symbol names, if any.
    pub open spec fn symbol_lookup(s: Seq<char>) -> Option<Self> {
        if s == "WORLD_MAP_NAME_GRAPHIC_BANDIT_CAMP"@ {
            Some(WorldMapNameGraphic(0i32))
        } else if s == "WORLD_MAP_NAME_GRAPHIC_BANDIT_CAMP_TENT"@ {
            Some(WorldMapNameGraphic(1i32))
        } else if s == "WORLD_MAP_NAME_GRAPHIC_BANDIT_CAMP_ELITES"@ {
            Some(WorldMapNameGraphic(2i32))
        } else if s == "WORLD_MAP_NAME_GRAPHIC_BANDIT_CAMP_PATH"@ {
            Some(WorldMapNameGraphic(3i32))
        } else if s == "WORLD_MAP_NAME_GRAPHIC_BANDIT_CAMP_GATE"@ {
            Some(WorldMapNameGraphic(4i32))
        } else if s == "WORLD_MAP_NAME_GRAPHIC_BOWERSTONE"@ {
            Some(WorldMapNameGraphic(5i32))
        } else if s == "WORLD_MAP_NAME_GRAPHIC_DARKWOOD"@ {
            Some(WorldMapNameGraphic(6i32))
        } else if s == "WORLD_MAP_NAME_GRAPHIC_DARWOOD_SWAMP"@ {
            Some(WorldMapNameGraphic(7i32))
        } else if s == "WORLD_MAP_NAME_GRAPHIC_DARKWOOD_LAKE"@ {
            Some(WorldMapNameGraphic(8i32))
        } else if s == "WORLD_MAP_NAME_GRAPHIC_DARKWOOD_CAMP"@ {
            Some(WorldMapNameGraphic(9i32))
        } else if s == "WORLD_MAP_NAME_GRAPHIC_CHAPEL_SKORM"@ {
            Some(WorldMapNameGraphic(10i32))
        } else if s == "WORLD_MAP_NAME_GRAPHIC_ANCIENT_CULLIS"@ {
            Some(WorldMapNameGraphic(11i32))
        } else if s == "WORLD_MAP_NAME_GRAPHIC_DARKWOOD_WEIR"@ {
            Some(WorldMapNameGraphic(12i32))
        } else if s == "WORLD_MAP_NAME_GRAPHIC_FISHER_CREEK"@ {
            Some(WorldMapNameGraphic(13i32))
        } else if s == "WORLD_MAP_NAME_GRAPHIC_LYCHFIELD_GRAVEYARD"@ {
            Some(WorldMapNameGraphic(14i32))
        } else if s == "WORLD_MAP_NAME_GRAPHIC_HEADMANS_HILL"@ {
            Some(WorldMapNameGraphic(15i32))
        } else if s == "WORLD_MAP_NAME_GRAPHIC_PRISON_PATH"@ {
            Some(WorldMapNameGraphic(16i32))
        } else if s == "WORLD_MAP_NAME_GRAPHIC_GIBBET_WOODS"@ {
            Some(WorldMapNameGraphic(17i32))
        } else if s == "WORLD_MAP_NAME_GRAPHIC_GRAVEYARD_PATH"@ {
            Some(WorldMapNameGraphic(18i32))
        } else if s == "WORLD_MAP_NAME_GRAPHIC_CIRCLE_DEAD"@ {
            Some(WorldMapNameGraphic(19i32))
        } else if s == "WORLD_MAP_NAME_GRAPHIC_GREATWOOD_CAVES"@ {
            Some(WorldMapNameGraphic(20i32))
        } else if s == "WORLD_MAP_NAME_GRAPHIC_GREATWOOD_LAKE"@ {
            Some(WorldMapNameGraphic(21i32))
        } else if s == "WORLD_MAP_NAME_GRAPHIC_GREATWOOD"@ {
            Some(WorldMapNameGraphic(22i32))
        } else if s == "WORLD_MAP_NAME_GRAPHIC_GUILD"@ {
            Some(WorldMapNameGraphic(23i32))
        } else if s == "WORLD_MAP_NAME_GRAPHIC_LOOKOUT_POINT"@ {
            Some(WorldMapNameGraphic(24i32))
        } else if s == "WORLD_MAP_NAME_GRAPHIC_WINDMILL_HILL"@ {
            Some(WorldMapNameGraphic(25i32))
        } else if s == "WORLD_MAP_NAME_GRAPHIC_BOWERSTONE_JAIL"@ {
            Some(WorldMapNameGraphic(26i32))
        } else if s == "WORLD_MAP_NAME_GRAPHIC_OAKVALE"@ {
            Some(WorldMapNameGraphic(27i32))
        } else if s == "WORLD_MAP_NAME_GRAPHIC_ORCHARD_FARM"@ {
            Some(WorldMapNameGraphic(28i32))
        } else if s == "WORLD_MAP_NAME_GRAPHIC_WITCHWOOD"@ {
            Some(WorldMapNameGraphic(29i32))
        } else if s == "WORLD_MAP_NAME_GRAPHIC_WITCHWOOD_LAKE"@ {
            Some(WorldMapNameGraphic(30i32))
        } else if s == "WORLD_MAP_NAME_GRAPHIC_TEMPLE_AVO"@ {
            Some(WorldMapNameGraphic(31i32))
        } else if s == "WORLD_MAP_NAME_GRAPHIC_WITCHWOOD_STONES"@ {
            Some(WorldMapNameGraphic(32i32))
        } else if s == "WORLD_MAP_NAME_GRAPHIC_PICNIC_AREA"@ {
            Some(WorldMapNameGraphic(33i32))
        } else if s == "WORLD_MAP_NAME_GRAPHIC_ROSE_COTTAGE"@ {
            Some(WorldMapNameGraphic(34i32))
        } else if s == "WORLD_MAP_NAME_GRAPHIC_ARENA"@ {
            Some(WorldMapNameGraphic(35i32))
        } else if s == "WORLD_MAP_NAME_GRAPHIC_KNOTHOLE_GLADE"@ {
            Some(WorldMapNameGraphic(36i32))
        } else if s == "WORLD_MAP_NAME_GRAPHIC_HOOK_COAST"@ {
            Some(WorldMapNameGraphic(37i32))
        } else if s == "WORLD_MAP_NAME_GRAPHIC_BARROW_FIELDS"@ {
            Some(WorldMapNameGraphic(38i32))
        } else if s == "WORLD_MAP_NAME_GRAPHIC_GREY_HOUSE"@ {
            Some(WorldMapNameGraphic(39i32))
        } else if s == "WORLD_MAP_NAME_GRAPHIC_GREATWOOD_GORGE"@ {
            Some(WorldMapNameGraphic(40i32))
        } else if s == "WORLD_MAP_NAME_GRAPHIC_HOBBE_CAVE"@ {
            Some(WorldMapNameGraphic(41i32))
        } else if s == "WORLD_MAP_NAME_GRAPHIC_HEADMANS_CAVE"@ {
            Some(WorldMapNameGraphic(42i32))
        } else if s == "WORLD_MAP_NAME_GRAPHIC_GREATWOOD_CULLIS"@ {
            Some(WorldMapNameGraphic(43i32))
        } else if s == "WORLD_MAP_NAME_GRAPHIC_PRISON"@ {
            Some(WorldMapNameGraphic(44i32))
        } else if s == "WORLD_MAP_NAME_GRAPHIC_LOST_BAY"@ {
            Some(WorldMapNameGraphic(45i32))
        } else if s == "WORLD_MAP_NAME_GRAPHIC_NECROPOLIS"@ {
            Some(WorldMapNameGraphic(46i32))
        } else if s == "WORLD_MAP_NAME_GRAPHIC_ARCHONS_SHRINE"@ {
            Some(WorldMapNameGraphic(47i32))
        } else if s == "WORLD_MAP_NAME_GRAPHIC_SNOWSPIRE"@ {
            Some(WorldMapNameGraphic(48i32))
        } else if s == "WORLD_MAP_NAME_GRAPHIC_ARCHONS_FOLLY"@ {
            Some(WorldMapNameGraphic(49i32))
        } else if s == "WORLD_MAP_NAME_GRAPHIC_NORTHERN_WASTES_FOOTHILLS"@ {
            Some(WorldMapNameGraphic(50i32))
        } else if s == "WORLD_MAP_NAME_GRAPHIC_BORDELLO"@ {
            Some(WorldMapNameGraphic(51i32))
        } else if s == "WORLD_MAP_NAME_GRAPHIC_NUMBER"@ {
            Some(WorldMapNameGraphic(52i32))
        } else {
            None
        }
    }

    /// The set holding exactly the bits of `value` (lossless).
    pub fn from_i32(value: i32) -> (r: Self)
        ensures
            r.0 == value,
    {
        WorldMapNameGraphic(value)
    }

    pub fn to_i32(self) -> (r: i32)
        ensures
            r == self.0,
    {
        self.0
    }

    /// Whether every bit of `other` is set in `self`.
    pub fn contains(self, other: Self) -> (r: bool)
        ensures
            r == (self.0 & other.0 == other.0),
    {
        self.0 & other.0 == other.0
    }

    /// Whether no bit is set.
    pub fn is_empty(self) -> (r: bool)
        ensures
            r == (self.0 == 0),
    {
        self.0 == 0
    }

    /// The bits set in either.
    pub fn union(self, other: Self) -> (r: Self)
        ensures
            r.0 == self.0 | other.0,
    {
        WorldMapNameGraphic(self.0 | other.0)
    }

    /// The flag a C++ enumerator symbol names.
    pub fn from_symbol(s: &str) -> (r: Option<Self>)
        ensures
            r == Self::symbol_lookup(s@),
    {
        if str_eq(s, "WORLD_MAP_NAME_GRAPHIC_BANDIT_CAMP") {
            return Some(WorldMapNameGraphic(0i32));
        }
        if str_eq(s, "WORLD_MAP_NAME_GRAPHIC_BANDIT_CAMP_TENT") {
            return Some(WorldMapNameGraphic(1i32));
        }
        if str_eq(s, "WORLD_MAP_NAME_GRAPHIC_BANDIT_CAMP_ELITES") {
            return Some(WorldMapNameGraphic(2i32));
        }
        if str_eq(s, "WORLD_MAP_NAME_GRAPHIC_BANDIT_CAMP_PATH") {
            return Some(WorldMapNameGraphic(3i32));
        }
        if str_eq(s, "WORLD_MAP_NAME_GRAPHIC_BANDIT_CAMP_GATE") {
            return Some(WorldMapNameGraphic(4i32));
        }
        if str_eq(s, "WORLD_MAP_NAME_GRAPHIC_BOWERSTONE") {
            return Some(WorldMapNameGraphic(5i32));
        }
        if str_eq(s, "WORLD_MAP_NAME_GRAPHIC_DARKWOOD") {
            return Some(WorldMapNameGraphic(6i32));
        }
        if str_eq(s, "WORLD_MAP_NAME_GRAPHIC_DARWOOD_SWAMP") {
            return Some(WorldMapNameGraphic(7i32));
        }
        if str_eq(s, "WORLD_MAP_NAME_GRAPHIC_DARKWOOD_LAKE") {
            return Some(WorldMapNameGraphic(8i32));
        }
        if str_eq(s, "WORLD_MAP_NAME_GRAPHIC_DARKWOOD_CAMP") {
            return Some(WorldMapNameGraphic(9i32));
        }
        if str_eq(s, "WORLD_MAP_NAME_GRAPHIC_CHAPEL_SKORM") {
            return Some(WorldMapNameGraphic(10i32));
        }
        if str_eq(s, "WORLD_MAP_NAME_GRAPHIC_ANCIENT_CULLIS") {
            return Some(WorldMapNameGraphic(11i32));
        }
        if str_eq(s, "WORLD_MAP_NAME_GRAPHIC_DARKWOOD_WEIR") {
            return Some(WorldMapNameGraphic(12i32));
        }
        if str_eq(s, "WORLD_MAP_NAME_GRAPHIC_FISHER_CREEK") {
            return Some(WorldMapNameGraphic(13i32));
        }
        if str_eq(s, "WORLD_MAP_NAME_GRAPHIC_LYCHFIELD_GRAVEYARD") {
            return Some(WorldMapNameGraphic(14i32));
        }
        if str_eq(s, "WORLD_MAP_NAME_GRAPHIC_HEADMANS_HILL") {
            return Some(WorldMapNameGraphic(15i32));
        }
        if str_eq(s, "WORLD_MAP_NAME_GRAPHIC_PRISON_PATH") {
            return Some(WorldMapNameGraphic(16i32));
        }
        if str_eq(s, "WORLD_MAP_NAME_GRAPHIC_GIBBET_WOODS") {
            return Some(WorldMapNameGraphic(17i32));
        }
        if str_eq(s, "WORLD_MAP_NAME_GRAPHIC_GRAVEYARD_PATH") {
            return Some(WorldMapNameGraphic(18i32));
        }
        if str_eq(s, "WORLD_MAP_NAME_GRAPHIC_CIRCLE_DEAD") {
            return Some(WorldMapNameGraphic(19i32));
        }
        if str_eq(s, "WORLD_MAP_NAME_GRAPHIC_GREATWOOD_CAVES") {
            return Some(WorldMapNameGraphic(20i32));
        }
        if str_eq(s, "WORLD_MAP_NAME_GRAPHIC_GREATWOOD_LAKE") {
            return Some(WorldMapNameGraphic(21i32));
        }
        if str_eq(s, "WORLD_MAP_NAME_GRAPHIC_GREATWOOD") {
            return Some(WorldMapNameGraphic(22i32));
        }
        if str_eq(s, "WORLD_MAP_NAME_GRAPHIC_GUILD") {
            return Some(WorldMapNameGraphic(23i32));
        }
        if str_eq(s, "WORLD_MAP_NAME_GRAPHIC_LOOKOUT_POINT") {
            return Some(WorldMapNameGraphic(24i32));
        }
        if str_eq(s, "WORLD_MAP_NAME_GRAPHIC_WINDMILL_HILL") {
            return Some(WorldMapNameGraphic(25i32));
        }
        if str_eq(s, "WORLD_MAP_NAME_GRAPHIC_BOWERSTONE_JAIL") {
            return Some(WorldMapNameGraphic(26i32));
        }
        if str_eq(s, "WORLD_MAP_NAME_GRAPHIC_OAKVALE") {
            return Some(WorldMapNameGraphic(27i32));
        }
        if str_eq(s, "WORLD_MAP_NAME_GRAPHIC_ORCHARD_FARM") {
            return Some(WorldMapNameGraphic(28i32));
        }
        if str_eq(s, "WORLD_MAP_NAME_GRAPHIC_WITCHWOOD") {
            return Some(WorldMapNameGraphic(29i32));
        }
        if str_eq(s, "WORLD_MAP_NAME_GRAPHIC_WITCHWOOD_LAKE") {
            return Some(WorldMapNameGraphic(30i32));
        }
        if str_eq(s, "WORLD_MAP_NAME_GRAPHIC_TEMPLE_AVO") {
            return Some(WorldMapNameGraphic(31i32));
        }
        if str_eq(s, "WORLD_MAP_NAME_GRAPHIC_WITCHWOOD_STONES") {
            return Some(WorldMapNameGraphic(32i32));
        }
        if str_eq(s, "WORLD_MAP_NAME_GRAPHIC_PICNIC_AREA") {
            return Some(WorldMapNameGraphic(33i32));
        }
        if str_eq(s, "WORLD_MAP_NAME_GRAPHIC_ROSE_COTTAGE") {
            return Some(WorldMapNameGraphic(34i32));
        }
        if str_eq(s, "WORLD_MAP_NAME_GRAPHIC_ARENA") {
            return Some(WorldMapNameGraphic(35i32));
        }
        if str_eq(s, "WORLD_MAP_NAME_GRAPHIC_KNOTHOLE_GLADE") {
            return Some(WorldMapNameGraphic(36i32));
        }
        if str_eq(s, "WORLD_MAP_NAME_GRAPHIC_HOOK_COAST") {
            return Some(WorldMapNameGraphic(37i32));
        }
        if str_eq(s, "WORLD_MAP_NAME_GRAPHIC_BARROW_FIELDS") {
            return Some(WorldMapNameGraphic(38i32));
        }
        if str_eq(s, "WORLD_MAP_NAME_GRAPHIC_GREY_HOUSE") {
            return Some(WorldMapNameGraphic(39i32));
        }
        if str_eq(s, "WORLD_MAP_NAME_GRAPHIC_GREATWOOD_GORGE") {
            return Some(WorldMapNameGraphic(40i32));
        }
        if str_eq(s, "WORLD_MAP_NAME_GRAPHIC_HOBBE_CAVE") {
            return Some(WorldMapNameGraphic(41i32));
        }
        if str_eq(s, "WORLD_MAP_NAME_GRAPHIC_HEADMANS_CAVE") {
            return Some(WorldMapNameGraphic(42i32));
        }
        if str_eq(s, "WORLD_MAP_NAME_GRAPHIC_GREATWOOD_CULLIS") {
            return Some(WorldMapNameGraphic(43i32));
        }
        if str_eq(s, "WORLD_MAP_NAME_GRAPHIC_PRISON") {
            return Some(WorldMapNameGraphic(44i32));
        }
        if str_eq(s, "WORLD_MAP_NAME_GRAPHIC_LOST_BAY") {
            return Some(WorldMapNameGraphic(45i32));
        }
        if str_eq(s, "WORLD_MAP_NAME_GRAPHIC_NECROPOLIS") {
            return Some(WorldMapNameGraphic(46i32));
        }
        if str_eq(s, "WORLD_MAP_NAME_GRAPHIC_ARCHONS_SHRINE") {
            return Some(WorldMapNameGraphic(47i32));
        }
        if str_eq(s, "WORLD_MAP_NAME_GRAPHIC_SNOWSPIRE") {
            return Some(WorldMapNameGraphic(48i32));
        }
        if str_eq(s, "WORLD_MAP_NAME_GRAPHIC_ARCHONS_FOLLY") {
            return Some(WorldMapNameGraphic(49i32));
        }
        if str_eq(s, "WORLD_MAP_NAME_GRAPHIC_NORTHERN_WASTES_FOOTHILLS") {
            return Some(WorldMapNameGraphic(50i32));
        }
        if str_eq(s, "WORLD_MAP_NAME_GRAPHIC_BORDELLO") {
            return Some(WorldMapNameGraphic(51i32));
        }
        if str_eq(s, "WORLD_MAP_NAME_GRAPHIC_NUMBER") {
            return Some(WorldMapNameGraphic(52i32));
        }
        None
    }
}

impl core::ops::BitOr for WorldMapNameGraphic {
    type Output = WorldMapNameGraphic;

    fn bitor(self, rhs: WorldMapNameGraphic) -> (r: WorldMapNameGraphic) {
        WorldMapNameGraphic(self.0 | rhs.0)
    }
}

impl vstd::std_specs::ops::BitOrSpecImpl for WorldMapNameGraphic {
    open spec fn obeys_bitor_spec() -> bool {
        true
    }

    open spec fn bitor_req(self, rhs: WorldMapNameGraphic) -> bool {
        true
    }

    open spec fn bitor_spec(self, rhs: WorldMapNameGraphic) -> WorldMapNameGraphic {
        WorldMapNameGraphic(self.0 | rhs.0)
    }
}

#[derive(Debug, Clone, Copy, PartialEq, Eq, Structural, PartialOrd, Ord, Hash)]
pub enum DialogueLayer {
    FOREGROUND,
    MIDGROUND,
    BACKGROUND,
    LAST,
}

impl DefEnum for DialogueLayer {
    open spec fn wire_value(self) -> i32 {
        match self {
            DialogueLayer::FOREGROUND => 0i32,
            DialogueLayer::MIDGROUND => 1i32,
            DialogueLayer::BACKGROUND => 2i32,
            DialogueLayer::LAST => 3i32,
        }
    }

    open spec fn lookup(value: i32) -> Option<Self> {
        match value {
            0i32 => Some(DialogueLayer::FOREGROUND),
            1i32 => Some(DialogueLayer::MIDGROUND),
            2i32 => Some(DialogueLayer::BACKGROUND),
            3i32 => Some(DialogueLayer::LAST),
            _ => None,
        }
    }

    fn from_i32(value: i32) -> (r: Option<Self>) {
        match value {
            0i32 => Some(DialogueLayer::FOREGROUND),
            1i32 => Some(DialogueLayer::MIDGROUND),
            2i32 => Some(DialogueLayer::BACKGROUND),
            3i32 => Some(DialogueLayer::LAST),
            _ => None,
        }
    }

    fn to_i32(self) -> (r: i32) {
        match self {
            DialogueLayer::FOREGROUND => 0i32,
            DialogueLayer::MIDGROUND => 1i32,
            DialogueLayer::BACKGROUND => 2i32,
            DialogueLayer::LAST => 3i32,
        }
    }

    proof fn lemma_lookup_wire_value(e: Self) {
    }
}

impl DialogueLayer {
    /// The C++ enumerator symbol of `self`.
    pub open spec fn symbol_of(self) -> Seq<char> {
        match self {
            DialogueLayer::FOREGROUND => "DIALOGUE_LAYER_FOREGROUND"@,
            DialogueLayer::MIDGROUND => "DIALOGUE_LAYER_MIDGROUND"@,
            DialogueLayer::BACKGROUND => "DIALOGUE_LAYER_BACKGROUND"@,
            DialogueLayer::LAST => "DIALOGUE_LAYER_LAST"@,
        }
    }

    /// The first variant whose symbol is `s`, if any.
    pub open spec fn symbol_lookup(s: Seq<char>) -> Option<Self> {
        if s == "DIALOGUE_LAYER_FOREGROUND"@ {
            Some(DialogueLayer::FOREGROUND)
        } else if s == "DIALOGUE_LAYER_MIDGROUND"@ {
            Some(DialogueLayer::MIDGROUND)
        } else if s == "DIALOGUE_LAYER_BACKGROUND"@ {
            Some(DialogueLayer::BACKGROUND)
        } else if s == "DIALOGUE_LAYER_LAST"@ {
            Some(DialogueLayer::LAST)
        } else {
            None
        }
    }

    /// The C++ enumerator symbol text defs use for `self`.
    pub fn symbol(self) -> (r: &'static str)
        ensures
            r@ == self.symbol_of(),
    {
        match self {
            DialogueLayer::FOREGROUND => "DIALOGUE_LAYER_FOREGROUND",
            DialogueLayer::MIDGROUND => "DIALOGUE_LAYER_MIDGROUND",
            DialogueLayer::BACKGROUND => "DIALOGUE_LAYER_BACKGROUND",
            DialogueLayer::LAST => "DIALOGUE_LAYER_LAST",
        }
    }

    /// The variant a C++ enumerator symbol names.
    pub fn from_symbol(s: &str) -> (r: Option<Self>)
        ensures
            r == Self::symbol_lookup(s@),
    {
        if str_eq(s, "DIALOGUE_LAYER_FOREGROUND") {
            return Some(DialogueLayer::FOREGROUND);
        }
        if str_eq(s, "DIALOGUE_LAYER_MIDGROUND") {
            return Some(DialogueLayer::MIDGROUND);
        }
        if str_eq(s, "DIALOGUE_LAYER_BACKGROUND") {
            return Some(DialogueLayer::BACKGROUND);
        }
        if str_eq(s, "DIALOGUE_LAYER_LAST") {
            return Some(DialogueLayer::LAST);
        }
        None
    }
}

} // verus!
