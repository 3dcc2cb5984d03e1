//! The def enumerations on the wire: four bytes each. A closed enum reads
//! only a value of its C++ table; a flag set reads any value.

use vstd::prelude::*;

use crate::bytes::{put_u32, u32_le_bytes, UnexpectedEnd};
use crate::def::enums::DefEnum;
use crate::def::wire::{decode_enum, lemma_enum_round_trip, parse_enum, ParseWireError, Wire};

verus! {

impl Wire for crate::def::enums::UiType {
    type Model = crate::def::enums::UiType;

    open spec fn model(&self) -> crate::def::enums::UiType {
        *self
    }

    open spec fn encode(m: crate::def::enums::UiType) -> Seq<u8> {
        u32_le_bytes(m.wire_value() as u32)
    }

    open spec fn decode(b: Seq<u8>) -> (Result<crate::def::enums::UiType, ParseWireError>, int) {
        decode_enum::<crate::def::enums::UiType>(b)
    }

    open spec fn encodable(m: crate::def::enums::UiType) -> bool {
        true
    }

    fn parse(cur: &mut &[u8]) -> (r: Result<crate::def::enums::UiType, ParseWireError>) {
        parse_enum(cur)
    }

    fn serialize(&self, out: &mut Vec<u8>, pos: &mut usize) -> (r: Result<(), UnexpectedEnd>) {
        put_u32(out, pos, self.to_i32() as u32)
    }

    fn wire_size(&self) -> (r: usize) {
        4
    }

    proof fn lemma_decode_len(b: Seq<u8>) {
    }

    proof fn lemma_round_trip(m: crate::def::enums::UiType, rest: Seq<u8>) {
        lemma_enum_round_trip(m, rest);
    }
}

impl Wire for crate::def::enums::TextAlignment {
    type Model = crate::def::enums::TextAlignment;

    open spec fn model(&self) -> crate::def::enums::TextAlignment {
        *self
    }

    open spec fn encode(m: crate::def::enums::TextAlignment) -> Seq<u8> {
        u32_le_bytes(m.wire_value() as u32)
    }

    open spec fn decode(b: Seq<u8>) -> (Result<crate::def::enums::TextAlignment, ParseWireError>, int) {
        decode_enum::<crate::def::enums::TextAlignment>(b)
    }

    open spec fn encodable(m: crate::def::enums::TextAlignment) -> bool {
        true
    }

    fn parse(cur: &mut &[u8]) -> (r: Result<crate::def::enums::TextAlignment, ParseWireError>) {
        parse_enum(cur)
    }

    fn serialize(&self, out: &mut Vec<u8>, pos: &mut usize) -> (r: Result<(), UnexpectedEnd>) {
        put_u32(out, pos, self.to_i32() as u32)
    }

    fn wire_size(&self) -> (r: usize) {
        4
    }

    proof fn lemma_decode_len(b: Seq<u8>) {
    }

    proof fn lemma_round_trip(m: crate::def::enums::TextAlignment, rest: Seq<u8>) {
        lemma_enum_round_trip(m, rest);
    }
}

impl Wire for crate::def::enums::StateChangeType {
    type Model = crate::def::enums::StateChangeType;

    open spec fn model(&self) -> crate::def::enums::StateChangeType {
        *self
    }

    open spec fn encode(m: crate::def::enums::StateChangeType) -> Seq<u8> {
        u32_le_bytes(m.wire_value() as u32)
    }

    open spec fn decode(b: Seq<u8>) -> (Result<crate::def::enums::StateChangeType, ParseWireError>, int) {
        decode_enum::<crate::def::enums::StateChangeType>(b)
    }

    open spec fn encodable(m: crate::def::enums::StateChangeType) -> bool {
        true
    }

    fn parse(cur: &mut &[u8]) -> (r: Result<crate::def::enums::StateChangeType, ParseWireError>) {
        parse_enum(cur)
    }

    fn serialize(&self, out: &mut Vec<u8>, pos: &mut usize) -> (r: Result<(), UnexpectedEnd>) {
        put_u32(out, pos, self.to_i32() as u32)
    }

    fn wire_size(&self) -> (r: usize) {
        4
    }

    proof fn lemma_decode_len(b: Seq<u8>) {
    }

    proof fn lemma_round_trip(m: crate::def::enums::StateChangeType, rest: Seq<u8>) {
        lemma_enum_round_trip(m, rest);
    }
}

impl Wire for crate::def::enums::ActionType {
    type Model = crate::def::enums::ActionType;

    open spec fn model(&self) -> crate::def::enums::ActionType {
        *self
    }

    open spec fn encode(m: crate::def::enums::ActionType) -> Seq<u8> {
        u32_le_bytes(m.wire_value() as u32)
    }

    open spec fn decode(b: Seq<u8>) -> (Result<crate::def::enums::ActionType, ParseWireError>, int) {
        decode_enum::<crate::def::enums::ActionType>(b)
    }

    open spec fn encodable(m: crate::def::enums::ActionType) -> bool {
        true
    }

    fn parse(cur: &mut &[u8]) -> (r: Result<crate::def::enums::ActionType, ParseWireError>) {
        parse_enum(cur)
    }

    fn serialize(&self, out: &mut Vec<u8>, pos: &mut usize) -> (r: Result<(), UnexpectedEnd>) {
        put_u32(out, pos, self.to_i32() as u32)
    }

    fn wire_size(&self) -> (r: usize) {
        4
    }

    proof fn lemma_decode_len(b: Seq<u8>) {
    }

    proof fn lemma_round_trip(m: crate::def::enums::ActionType, rest: Seq<u8>) {
        lemma_enum_round_trip(m, rest);
    }
}

impl Wire for crate::def::enums::TableSprites {
    type Model = crate::def::enums::TableSprites;

    open spec fn model(&self) -> crate::def::enums::TableSprites {
        *self
    }

    open spec fn encode(m: crate::def::enums::TableSprites) -> Seq<u8> {
        u32_le_bytes(m.wire_value() as u32)
    }

    open spec fn decode(b: Seq<u8>) -> (Result<crate::def::enums::TableSprites, ParseWireError>, int) {
        decode_enum::<crate::def::enums::TableSprites>(b)
    }

    open spec fn encodable(m: crate::def::enums::TableSprites) -> bool {
        true
    }

    fn parse(cur: &mut &[u8]) -> (r: Result<crate::def::enums::TableSprites, ParseWireError>) {
        parse_enum(cur)
    }

    fn serialize(&self, out: &mut Vec<u8>, pos: &mut usize) -> (r: Result<(), UnexpectedEnd>) {
        put_u32(out, pos, self.to_i32() as u32)
    }

    fn wire_size(&self) -> (r: usize) {
        4
    }

    proof fn lemma_decode_len(b: Seq<u8>) {
    }

    proof fn lemma_round_trip(m: crate::def::enums::TableSprites, rest: Seq<u8>) {
        lemma_enum_round_trip(m, rest);
    }
}

impl Wire for crate::def::enums::EngineGraphicType {
    type Model = crate::def::enums::EngineGraphicType;

    open spec fn model(&self) -> crate::def::enums::EngineGraphicType {
        *self
    }

    open spec fn encode(m: crate::def::enums::EngineGraphicType) -> Seq<u8> {
        u32_le_bytes(m.wire_value() as u32)
    }

    open spec fn decode(b: Seq<u8>) -> (Result<crate::def::enums::EngineGraphicType, ParseWireError>, int) {
        decode_enum::<crate::def::enums::EngineGraphicType>(b)
    }

    open spec fn encodable(m: crate::def::enums::EngineGraphicType) -> bool {
        true
    }

    fn parse(cur: &mut &[u8]) -> (r: Result<crate::def::enums::EngineGraphicType, ParseWireError>) {
        parse_enum(cur)
    }

    fn serialize(&self, out: &mut Vec<u8>, pos: &mut usize) -> (r: Result<(), UnexpectedEnd>) {
        put_u32(out, pos, self.to_i32() as u32)
    }

    fn wire_size(&self) -> (r: usize) {
        4
    }

    proof fn lemma_decode_len(b: Seq<u8>) {
    }

    proof fn lemma_round_trip(m: crate::def::enums::EngineGraphicType, rest: Seq<u8>) {
        lemma_enum_round_trip(m, rest);
    }
}

impl Wire for crate::def::enums::GameAction {
    type Model = crate::def::enums::GameAction;

    open spec fn model(&self) -> crate::def::enums::GameAction {
        *self
    }

    open spec fn encode(m: crate::def::enums::GameAction) -> Seq<u8> {
        u32_le_bytes(m.wire_value() as u32)
    }

    open spec fn decode(b: Seq<u8>) -> (Result<crate::def::enums::GameAction, ParseWireError>, int) {
        decode_enum::<crate::def::enums::GameAction>(b)
    }

    open spec fn encodable(m: crate::def::enums::GameAction) -> bool {
        true
    }

    fn parse(cur: &mut &[u8]) -> (r: Result<crate::def::enums::GameAction, ParseWireError>) {
        parse_enum(cur)
    }

    fn serialize(&self, out: &mut Vec<u8>, pos: &mut usize) -> (r: Result<(), UnexpectedEnd>) {
        put_u32(out, pos, self.to_i32() as u32)
    }

    fn wire_size(&self) -> (r: usize) {
        4
    }

    proof fn lemma_decode_len(b: Seq<u8>) {
    }

    proof fn lemma_round_trip(m: crate::def::enums::GameAction, rest: Seq<u8>) {
        lemma_enum_round_trip(m, rest);
    }
}

impl Wire for crate::def::enums::ControllerType {
    type Model = crate::def::enums::ControllerType;

    open spec fn model(&self) -> crate::def::enums::ControllerType {
        *self
    }

    open spec fn encode(m: crate::def::enums::ControllerType) -> Seq<u8> {
        u32_le_bytes(m.wire_value() as u32)
    }

    open spec fn decode(b: Seq<u8>) -> (Result<crate::def::enums::ControllerType, ParseWireError>, int) {
        decode_enum::<crate::def::enums::ControllerType>(b)
    }

    open spec fn encodable(m: crate::def::enums::ControllerType) -> bool {
        true
    }

    fn parse(cur: &mut &[u8]) -> (r: Result<crate::def::enums::ControllerType, ParseWireError>) {
        parse_enum(cur)
    }

    fn serialize(&self, out: &mut Vec<u8>, pos: &mut usize) -> (r: Result<(), UnexpectedEnd>) {
        put_u32(out, pos, self.to_i32() as u32)
    }

    fn wire_size(&self) -> (r: usize) {
        4
    }

    proof fn lemma_decode_len(b: Seq<u8>) {
    }

    proof fn lemma_round_trip(m: crate::def::enums::ControllerType, rest: Seq<u8>) {
        lemma_enum_round_trip(m, rest);
    }
}

impl Wire for crate::def::enums::XboxControllerButton {
    type Model = crate::def::enums::XboxControllerButton;

    open spec fn model(&self) -> crate::def::enums::XboxControllerButton {
        *self
    }

    open spec fn encode(m: crate::def::enums::XboxControllerButton) -> Seq<u8> {
        u32_le_bytes(m.wire_value() as u32)
    }

    open spec fn decode(b: Seq<u8>) -> (Result<crate::def::enums::XboxControllerButton, ParseWireError>, int) {
        decode_enum::<crate::def::enums::XboxControllerButton>(b)
    }

    open spec fn encodable(m: crate::def::enums::XboxControllerButton) -> bool {
        true
    }

    fn parse(cur: &mut &[u8]) -> (r: Result<crate::def::enums::XboxControllerButton, ParseWireError>) {
        parse_enum(cur)
    }

    fn serialize(&self, out: &mut Vec<u8>, pos: &mut usize) -> (r: Result<(), UnexpectedEnd>) {
        put_u32(out, pos, self.to_i32() as u32)
    }

    fn wire_size(&self) -> (r: usize) {
        4
    }

    proof fn lemma_decode_len(b: Seq<u8>) {
    }

    proof fn lemma_round_trip(m: crate::def::enums::XboxControllerButton, rest: Seq<u8>) {
        lemma_enum_round_trip(m, rest);
    }
}

impl Wire for crate::def::enums::MouseButtonControl {
    type Model = crate::def::enums::MouseButtonControl;

    open spec fn model(&self) -> crate::def::enums::MouseButtonControl {
        *self
    }

    open spec fn encode(m: crate::def::enums::MouseButtonControl) -> Seq<u8> {
        u32_le_bytes(m.wire_value() as u32)
    }

    open spec fn decode(b: Seq<u8>) -> (Result<crate::def::enums::MouseButtonControl, ParseWireError>, int) {
        decode_enum::<crate::def::enums::MouseButtonControl>(b)
    }

    open spec fn encodable(m: crate::def::enums::MouseButtonControl) -> bool {
        true
    }

    fn parse(cur: &mut &[u8]) -> (r: Result<crate::def::enums::MouseButtonControl, ParseWireError>) {
        parse_enum(cur)
    }

    fn serialize(&self, out: &mut Vec<u8>, pos: &mut usize) -> (r: Result<(), UnexpectedEnd>) {
        put_u32(out, pos, self.to_i32() as u32)
    }

    fn wire_size(&self) -> (r: usize) {
        4
    }

    proof fn lemma_decode_len(b: Seq<u8>) {
    }

    proof fn lemma_round_trip(m: crate::def::enums::MouseButtonControl, rest: Seq<u8>) {
        lemma_enum_round_trip(m, rest);
    }
}

impl Wire for crate::def::enums::InputKey {
    type Model = crate::def::enums::InputKey;

    open spec fn model(&self) -> crate::def::enums::InputKey {
        *self
    }

    open spec fn encode(m: crate::def::enums::InputKey) -> Seq<u8> {
        u32_le_bytes(m.wire_value() as u32)
    }

    open spec fn decode(b: Seq<u8>) -> (Result<crate::def::enums::InputKey, ParseWireError>, int) {
        decode_enum::<crate::def::enums::InputKey>(b)
    }

    open spec fn encodable(m: crate::def::enums::InputKey) -> bool {
        true
    }

    fn parse(cur: &mut &[u8]) -> (r: Result<crate::def::enums::InputKey, ParseWireError>) {
        parse_enum(cur)
    }

    fn serialize(&self, out: &mut Vec<u8>, pos: &mut usize) -> (r: Result<(), UnexpectedEnd>) {
        put_u32(out, pos, self.to_i32() as u32)
    }

    fn wire_size(&self) -> (r: usize) {
        4
    }

    proof fn lemma_decode_len(b: Seq<u8>) {
    }

    proof fn lemma_round_trip(m: crate::def::enums::InputKey, rest: Seq<u8>) {
        lemma_enum_round_trip(m, rest);
    }
}

impl Wire for crate::def::enums::ActionRegisteredType {
    type Model = crate::def::enums::ActionRegisteredType;

    open spec fn model(&self) -> crate::def::enums::ActionRegisteredType {
        *self
    }

    open spec fn encode(m: crate::def::enums::ActionRegisteredType) -> Seq<u8> {
        u32_le_bytes(m.wire_value() as u32)
    }

    open spec fn decode(b: Seq<u8>) -> (Result<crate::def::enums::ActionRegisteredType, ParseWireError>, int) {
        decode_enum::<crate::def::enums::ActionRegisteredType>(b)
    }

    open spec fn encodable(m: crate::def::enums::ActionRegisteredType) -> bool {
        true
    }

    fn parse(cur: &mut &[u8]) -> (r: Result<crate::def::enums::ActionRegisteredType, ParseWireError>) {
        parse_enum(cur)
    }

    fn serialize(&self, out: &mut Vec<u8>, pos: &mut usize) -> (r: Result<(), UnexpectedEnd>) {
        put_u32(out, pos, self.to_i32() as u32)
    }

    fn wire_size(&self) -> (r: usize) {
        4
    }

    proof fn lemma_decode_len(b: Seq<u8>) {
    }

    proof fn lemma_round_trip(m: crate::def::enums::ActionRegisteredType, rest: Seq<u8>) {
        lemma_enum_round_trip(m, rest);
    }
}

impl Wire for crate::def::enums::ClockHandType {
    type Model = crate::def::enums::ClockHandType;

    open spec fn model(&self) -> crate::def::enums::ClockHandType {
        *self
    }

    open spec fn encode(m: crate::def::enums::ClockHandType) -> Seq<u8> {
        u32_le_bytes(m.wire_value() as u32)
    }

    open spec fn decode(b: Seq<u8>) -> (Result<crate::def::enums::ClockHandType, ParseWireError>, int) {
        decode_enum::<crate::def::enums::ClockHandType>(b)
    }

    open spec fn encodable(m: crate::def::enums::ClockHandType) -> bool {
        true
    }

    fn parse(cur: &mut &[u8]) -> (r: Result<crate::def::enums::ClockHandType, ParseWireError>) {
        parse_enum(cur)
    }

    fn serialize(&self, out: &mut Vec<u8>, pos: &mut usize) -> (r: Result<(), UnexpectedEnd>) {
        put_u32(out, pos, self.to_i32() as u32)
    }

    fn wire_size(&self) -> (r: usize) {
        4
    }

    proof fn lemma_decode_len(b: Seq<u8>) {
    }

    proof fn lemma_round_trip(m: crate::def::enums::ClockHandType, rest: Seq<u8>) {
        lemma_enum_round_trip(m, rest);
    }
}

impl Wire for crate::def::enums::ClothingSuitPart {
    type Model = crate::def::enums::ClothingSuitPart;

    open spec fn model(&self) -> crate::def::enums::ClothingSuitPart {
        *self
    }

    open spec fn encode(m: crate::def::enums::ClothingSuitPart) -> Seq<u8> {
        u32_le_bytes(m.wire_value() as u32)
    }

    open spec fn decode(b: Seq<u8>) -> (Result<crate::def::enums::ClothingSuitPart, ParseWireError>, int) {
        decode_enum::<crate::def::enums::ClothingSuitPart>(b)
    }

    open spec fn encodable(m: crate::def::enums::ClothingSuitPart) -> bool {
        true
    }

    fn parse(cur: &mut &[u8]) -> (r: Result<crate::def::enums::ClothingSuitPart, ParseWireError>) {
        parse_enum(cur)
    }

    fn serialize(&self, out: &mut Vec<u8>, pos: &mut usize) -> (r: Result<(), UnexpectedEnd>) {
        put_u32(out, pos, self.to_i32() as u32)
    }

    fn wire_size(&self) -> (r: usize) {
        4
    }

    proof fn lemma_decode_len(b: Seq<u8>) {
    }

    proof fn lemma_round_trip(m: crate::def::enums::ClothingSuitPart, rest: Seq<u8>) {
        lemma_enum_round_trip(m, rest);
    }
}

impl Wire for crate::def::enums::CombatCreatureType {
    type Model = crate::def::enums::CombatCreatureType;

    open spec fn model(&self) -> crate::def::enums::CombatCreatureType {
        *self
    }

    open spec fn encode(m: crate::def::enums::CombatCreatureType) -> Seq<u8> {
        u32_le_bytes(m.wire_value() as u32)
    }

    open spec fn decode(b: Seq<u8>) -> (Result<crate::def::enums::CombatCreatureType, ParseWireError>, int) {
        decode_enum::<crate::def::enums::CombatCreatureType>(b)
    }

    open spec fn encodable(m: crate::def::enums::CombatCreatureType) -> bool {
        true
    }

    fn parse(cur: &mut &[u8]) -> (r: Result<crate::def::enums::CombatCreatureType, ParseWireError>) {
        parse_enum(cur)
    }

    fn serialize(&self, out: &mut Vec<u8>, pos: &mut usize) -> (r: Result<(), UnexpectedEnd>) {
        put_u32(out, pos, self.to_i32() as u32)
    }

    fn wire_size(&self) -> (r: usize) {
        4
    }

    proof fn lemma_decode_len(b: Seq<u8>) {
    }

    proof fn lemma_round_trip(m: crate::def::enums::CombatCreatureType, rest: Seq<u8>) {
        lemma_enum_round_trip(m, rest);
    }
}

impl Wire for crate::def::enums::CombatSequenceInterruptionType {
    type Model = crate::def::enums::CombatSequenceInterruptionType;

    open spec fn model(&self) -> crate::def::enums::CombatSequenceInterruptionType {
        *self
    }

    open spec fn encode(m: crate::def::enums::CombatSequenceInterruptionType) -> Seq<u8> {
        u32_le_bytes(m.wire_value() as u32)
    }

    open spec fn decode(b: Seq<u8>) -> (Result<crate::def::enums::CombatSequenceInterruptionType, ParseWireError>, int) {
        decode_enum::<crate::def::enums::CombatSequenceInterruptionType>(b)
    }

    open spec fn encodable(m: crate::def::enums::CombatSequenceInterruptionType) -> bool {
        true
    }

    fn parse(cur: &mut &[u8]) -> (r: Result<crate::def::enums::CombatSequenceInterruptionType, ParseWireError>) {
        parse_enum(cur)
    }

    fn serialize(&self, out: &mut Vec<u8>, pos: &mut usize) -> (r: Result<(), UnexpectedEnd>) {
        put_u32(out, pos, self.to_i32() as u32)
    }

    fn wire_size(&self) -> (r: usize) {
        4
    }

    proof fn lemma_decode_len(b: Seq<u8>) {
    }

    proof fn lemma_round_trip(m: crate::def::enums::CombatSequenceInterruptionType, rest: Seq<u8>) {
        lemma_enum_round_trip(m, rest);
    }
}

impl Wire for crate::def::enums::CombatSequenceIsValidType {
    type Model = crate::def::enums::CombatSequenceIsValidType;

    open spec fn model(&self) -> crate::def::enums::CombatSequenceIsValidType {
        *self
    }

    open spec fn encode(m: crate::def::enums::CombatSequenceIsValidType) -> Seq<u8> {
        u32_le_bytes(m.wire_value() as u32)
    }

    open spec fn decode(b: Seq<u8>) -> (Result<crate::def::enums::CombatSequenceIsValidType, ParseWireError>, int) {
        decode_enum::<crate::def::enums::CombatSequenceIsValidType>(b)
    }

    open spec fn encodable(m: crate::def::enums::CombatSequenceIsValidType) -> bool {
        true
    }

    fn parse(cur: &mut &[u8]) -> (r: Result<crate::def::enums::CombatSequenceIsValidType, ParseWireError>) {
        parse_enum(cur)
    }

    fn serialize(&self, out: &mut Vec<u8>, pos: &mut usize) -> (r: Result<(), UnexpectedEnd>) {
        put_u32(out, pos, self.to_i32() as u32)
    }

    fn wire_size(&self) -> (r: usize) {
        4
    }

    proof fn lemma_decode_len(b: Seq<u8>) {
    }

    proof fn lemma_round_trip(m: crate::def::enums::CombatSequenceIsValidType, rest: Seq<u8>) {
        lemma_enum_round_trip(m, rest);
    }
}

impl Wire for crate::def::enums::CombatSequenceOnStartModuleType {
    type Model = crate::def::enums::CombatSequenceOnStartModuleType;

    open spec fn model(&self) -> crate::def::enums::CombatSequenceOnStartModuleType {
        *self
    }

    open spec fn encode(m: crate::def::enums::CombatSequenceOnStartModuleType) -> Seq<u8> {
        u32_le_bytes(m.wire_value() as u32)
    }

    open spec fn decode(b: Seq<u8>) -> (Result<crate::def::enums::CombatSequenceOnStartModuleType, ParseWireError>, int) {
        decode_enum::<crate::def::enums::CombatSequenceOnStartModuleType>(b)
    }

    open spec fn encodable(m: crate::def::enums::CombatSequenceOnStartModuleType) -> bool {
        true
    }

    fn parse(cur: &mut &[u8]) -> (r: Result<crate::def::enums::CombatSequenceOnStartModuleType, ParseWireError>) {
        parse_enum(cur)
    }

    fn serialize(&self, out: &mut Vec<u8>, pos: &mut usize) -> (r: Result<(), UnexpectedEnd>) {
        put_u32(out, pos, self.to_i32() as u32)
    }

    fn wire_size(&self) -> (r: usize) {
        4
    }

    proof fn lemma_decode_len(b: Seq<u8>) {
    }

    proof fn lemma_round_trip(m: crate::def::enums::CombatSequenceOnStartModuleType, rest: Seq<u8>) {
        lemma_enum_round_trip(m, rest);
    }
}

impl Wire for crate::def::enums::CombatSequenceOnStopModuleType {
    type Model = crate::def::enums::CombatSequenceOnStopModuleType;

    open spec fn model(&self) -> crate::def::enums::CombatSequenceOnStopModuleType {
        *self
    }

    open spec fn encode(m: crate::def::enums::CombatSequenceOnStopModuleType) -> Seq<u8> {
        u32_le_bytes(m.wire_value() as u32)
    }

    open spec fn decode(b: Seq<u8>) -> (Result<crate::def::enums::CombatSequenceOnStopModuleType, ParseWireError>, int) {
        decode_enum::<crate::def::enums::CombatSequenceOnStopModuleType>(b)
    }

    open spec fn encodable(m: crate::def::enums::CombatSequenceOnStopModuleType) -> bool {
        true
    }

    fn parse(cur: &mut &[u8]) -> (r: Result<crate::def::enums::CombatSequenceOnStopModuleType, ParseWireError>) {
        parse_enum(cur)
    }

    fn serialize(&self, out: &mut Vec<u8>, pos: &mut usize) -> (r: Result<(), UnexpectedEnd>) {
        put_u32(out, pos, self.to_i32() as u32)
    }

    fn wire_size(&self) -> (r: usize) {
        4
    }

    proof fn lemma_decode_len(b: Seq<u8>) {
    }

    proof fn lemma_round_trip(m: crate::def::enums::CombatSequenceOnStopModuleType, rest: Seq<u8>) {
        lemma_enum_round_trip(m, rest);
    }
}

impl Wire for crate::def::enums::CombatSequenceType {
    type Model = crate::def::enums::CombatSequenceType;

    open spec fn model(&self) -> crate::def::enums::CombatSequenceType {
        *self
    }

    open spec fn encode(m: crate::def::enums::CombatSequenceType) -> Seq<u8> {
        u32_le_bytes(m.wire_value() as u32)
    }

    open spec fn decode(b: Seq<u8>) -> (Result<crate::def::enums::CombatSequenceType, ParseWireError>, int) {
        decode_enum::<crate::def::enums::CombatSequenceType>(b)
    }

    open spec fn encodable(m: crate::def::enums::CombatSequenceType) -> bool {
        true
    }

    fn parse(cur: &mut &[u8]) -> (r: Result<crate::def::enums::CombatSequenceType, ParseWireError>) {
        parse_enum(cur)
    }

    fn serialize(&self, out: &mut Vec<u8>, pos: &mut usize) -> (r: Result<(), UnexpectedEnd>) {
        put_u32(out, pos, self.to_i32() as u32)
    }

    fn wire_size(&self) -> (r: usize) {
        4
    }

    proof fn lemma_decode_len(b: Seq<u8>) {
    }

    proof fn lemma_round_trip(m: crate::def::enums::CombatSequenceType, rest: Seq<u8>) {
        lemma_enum_round_trip(m, rest);
    }
}

impl Wire for crate::def::enums::CombatStrikeRecoilStyle {
    type Model = crate::def::enums::CombatStrikeRecoilStyle;

    open spec fn model(&self) -> crate::def::enums::CombatStrikeRecoilStyle {
        *self
    }

    open spec fn encode(m: crate::def::enums::CombatStrikeRecoilStyle) -> Seq<u8> {
        u32_le_bytes(m.wire_value() as u32)
    }

    open spec fn decode(b: Seq<u8>) -> (Result<crate::def::enums::CombatStrikeRecoilStyle, ParseWireError>, int) {
        decode_enum::<crate::def::enums::CombatStrikeRecoilStyle>(b)
    }

    open spec fn encodable(m: crate::def::enums::CombatStrikeRecoilStyle) -> bool {
        true
    }

    fn parse(cur: &mut &[u8]) -> (r: Result<crate::def::enums::CombatStrikeRecoilStyle, ParseWireError>) {
        parse_enum(cur)
    }

    fn serialize(&self, out: &mut Vec<u8>, pos: &mut usize) -> (r: Result<(), UnexpectedEnd>) {
        put_u32(out, pos, self.to_i32() as u32)
    }

    fn wire_size(&self) -> (r: usize) {
        4
    }

    proof fn lemma_decode_len(b: Seq<u8>) {
    }

    proof fn lemma_round_trip(m: crate::def::enums::CombatStrikeRecoilStyle, rest: Seq<u8>) {
        lemma_enum_round_trip(m, rest);
    }
}

impl Wire for crate::def::enums::CompositeBlendType {
    type Model = crate::def::enums::CompositeBlendType;

    open spec fn model(&self) -> crate::def::enums::CompositeBlendType {
        *self
    }

    open spec fn encode(m: crate::def::enums::CompositeBlendType) -> Seq<u8> {
        u32_le_bytes(m.wire_value() as u32)
    }

    open spec fn decode(b: Seq<u8>) -> (Result<crate::def::enums::CompositeBlendType, ParseWireError>, int) {
        decode_enum::<crate::def::enums::CompositeBlendType>(b)
    }

    open spec fn encodable(m: crate::def::enums::CompositeBlendType) -> bool {
        true
    }

    fn parse(cur: &mut &[u8]) -> (r: Result<crate::def::enums::CompositeBlendType, ParseWireError>) {
        parse_enum(cur)
    }

    fn serialize(&self, out: &mut Vec<u8>, pos: &mut usize) -> (r: Result<(), UnexpectedEnd>) {
        put_u32(out, pos, self.to_i32() as u32)
    }

    fn wire_size(&self) -> (r: usize) {
        4
    }

    proof fn lemma_decode_len(b: Seq<u8>) {
    }

    proof fn lemma_round_trip(m: crate::def::enums::CompositeBlendType, rest: Seq<u8>) {
        lemma_enum_round_trip(m, rest);
    }
}

impl Wire for crate::def::enums::ContextSensitiveType {
    type Model = crate::def::enums::ContextSensitiveType;

    open spec fn model(&self) -> crate::def::enums::ContextSensitiveType {
        *self
    }

    open spec fn encode(m: crate::def::enums::ContextSensitiveType) -> Seq<u8> {
        u32_le_bytes(m.wire_value() as u32)
    }

    open spec fn decode(b: Seq<u8>) -> (Result<crate::def::enums::ContextSensitiveType, ParseWireError>, int) {
        decode_enum::<crate::def::enums::ContextSensitiveType>(b)
    }

    open spec fn encodable(m: crate::def::enums::ContextSensitiveType) -> bool {
        true
    }

    fn parse(cur: &mut &[u8]) -> (r: Result<crate::def::enums::ContextSensitiveType, ParseWireError>) {
        parse_enum(cur)
    }

    fn serialize(&self, out: &mut Vec<u8>, pos: &mut usize) -> (r: Result<(), UnexpectedEnd>) {
        put_u32(out, pos, self.to_i32() as u32)
    }

    fn wire_size(&self) -> (r: usize) {
        4
    }

    proof fn lemma_decode_len(b: Seq<u8>) {
    }

    proof fn lemma_round_trip(m: crate::def::enums::ContextSensitiveType, rest: Seq<u8>) {
        lemma_enum_round_trip(m, rest);
    }
}

impl Wire for crate::def::enums::ControlledMovementType {
    type Model = crate::def::enums::ControlledMovementType;

    open spec fn model(&self) -> crate::def::enums::ControlledMovementType {
        *self
    }

    open spec fn encode(m: crate::def::enums::ControlledMovementType) -> Seq<u8> {
        u32_le_bytes(m.wire_value() as u32)
    }

    open spec fn decode(b: Seq<u8>) -> (Result<crate::def::enums::ControlledMovementType, ParseWireError>, int) {
        decode_enum::<crate::def::enums::ControlledMovementType>(b)
    }

    open spec fn encodable(m: crate::def::enums::ControlledMovementType) -> bool {
        true
    }

    fn parse(cur: &mut &[u8]) -> (r: Result<crate::def::enums::ControlledMovementType, ParseWireError>) {
        parse_enum(cur)
    }

    fn serialize(&self, out: &mut Vec<u8>, pos: &mut usize) -> (r: Result<(), UnexpectedEnd>) {
        put_u32(out, pos, self.to_i32() as u32)
    }

    fn wire_size(&self) -> (r: usize) {
        4
    }

    proof fn lemma_decode_len(b: Seq<u8>) {
    }

    proof fn lemma_round_trip(m: crate::def::enums::ControlledMovementType, rest: Seq<u8>) {
        lemma_enum_round_trip(m, rest);
    }
}

impl Wire for crate::def::enums::CreatureAbility {
    type Model = crate::def::enums::CreatureAbility;

    open spec fn model(&self) -> crate::def::enums::CreatureAbility {
        *self
    }

    open spec fn encode(m: crate::def::enums::CreatureAbility) -> Seq<u8> {
        u32_le_bytes(m.wire_value() as u32)
    }

    open spec fn decode(b: Seq<u8>) -> (Result<crate::def::enums::CreatureAbility, ParseWireError>, int) {
        decode_enum::<crate::def::enums::CreatureAbility>(b)
    }

    open spec fn encodable(m: crate::def::enums::CreatureAbility) -> bool {
        true
    }

    fn parse(cur: &mut &[u8]) -> (r: Result<crate::def::enums::CreatureAbility, ParseWireError>) {
        parse_enum(cur)
    }

    fn serialize(&self, out: &mut Vec<u8>, pos: &mut usize) -> (r: Result<(), UnexpectedEnd>) {
        put_u32(out, pos, self.to_i32() as u32)
    }

    fn wire_size(&self) -> (r: usize) {
        4
    }

    proof fn lemma_decode_len(b: Seq<u8>) {
    }

    proof fn lemma_round_trip(m: crate::def::enums::CreatureAbility, rest: Seq<u8>) {
        lemma_enum_round_trip(m, rest);
    }
}

impl Wire for crate::def::enums::CreatureGeneratorGenerateType {
    type Model = crate::def::enums::CreatureGeneratorGenerateType;

    open spec fn model(&self) -> crate::def::enums::CreatureGeneratorGenerateType {
        *self
    }

    open spec fn encode(m: crate::def::enums::CreatureGeneratorGenerateType) -> Seq<u8> {
        u32_le_bytes(m.wire_value() as u32)
    }

    open spec fn decode(b: Seq<u8>) -> (Result<crate::def::enums::CreatureGeneratorGenerateType, ParseWireError>, int) {
        decode_enum::<crate::def::enums::CreatureGeneratorGenerateType>(b)
    }

    open spec fn encodable(m: crate::def::enums::CreatureGeneratorGenerateType) -> bool {
        true
    }

    fn parse(cur: &mut &[u8]) -> (r: Result<crate::def::enums::CreatureGeneratorGenerateType, ParseWireError>) {
        parse_enum(cur)
    }

    fn serialize(&self, out: &mut Vec<u8>, pos: &mut usize) -> (r: Result<(), UnexpectedEnd>) {
        put_u32(out, pos, self.to_i32() as u32)
    }

    fn wire_size(&self) -> (r: usize) {
        4
    }

    proof fn lemma_decode_len(b: Seq<u8>) {
    }

    proof fn lemma_round_trip(m: crate::def::enums::CreatureGeneratorGenerateType, rest: Seq<u8>) {
        lemma_enum_round_trip(m, rest);
    }
}

impl Wire for crate::def::enums::CreatureType {
    type Model = crate::def::enums::CreatureType;

    open spec fn model(&self) -> crate::def::enums::CreatureType {
        *self
    }

    open spec fn encode(m: crate::def::enums::CreatureType) -> Seq<u8> {
        u32_le_bytes(m.wire_value() as u32)
    }

    open spec fn decode(b: Seq<u8>) -> (Result<crate::def::enums::CreatureType, ParseWireError>, int) {
        decode_enum::<crate::def::enums::CreatureType>(b)
    }

    open spec fn encodable(m: crate::def::enums::CreatureType) -> bool {
        true
    }

    fn parse(cur: &mut &[u8]) -> (r: Result<crate::def::enums::CreatureType, ParseWireError>) {
        parse_enum(cur)
    }

    fn serialize(&self, out: &mut Vec<u8>, pos: &mut usize) -> (r: Result<(), UnexpectedEnd>) {
        put_u32(out, pos, self.to_i32() as u32)
    }

    fn wire_size(&self) -> (r: usize) {
        4
    }

    proof fn lemma_decode_len(b: Seq<u8>) {
    }

    proof fn lemma_round_trip(m: crate::def::enums::CreatureType, rest: Seq<u8>) {
        lemma_enum_round_trip(m, rest);
    }
}

impl Wire for crate::def::enums::CrimeSeverity {
    type Model = crate::def::enums::CrimeSeverity;

    open spec fn model(&self) -> crate::def::enums::CrimeSeverity {
        *self
    }

    open spec fn encode(m: crate::def::enums::CrimeSeverity) -> Seq<u8> {
        u32_le_bytes(m.wire_value() as u32)
    }

    open spec fn decode(b: Seq<u8>) -> (Result<crate::def::enums::CrimeSeverity, ParseWireError>, int) {
        decode_enum::<crate::def::enums::CrimeSeverity>(b)
    }

    open spec fn encodable(m: crate::def::enums::CrimeSeverity) -> bool {
        true
    }

    fn parse(cur: &mut &[u8]) -> (r: Result<crate::def::enums::CrimeSeverity, ParseWireError>) {
        parse_enum(cur)
    }

    fn serialize(&self, out: &mut Vec<u8>, pos: &mut usize) -> (r: Result<(), UnexpectedEnd>) {
        put_u32(out, pos, self.to_i32() as u32)
    }

    fn wire_size(&self) -> (r: usize) {
        4
    }

    proof fn lemma_decode_len(b: Seq<u8>) {
    }

    proof fn lemma_round_trip(m: crate::def::enums::CrimeSeverity, rest: Seq<u8>) {
        lemma_enum_round_trip(m, rest);
    }
}

impl Wire for crate::def::enums::DamageAttribute {
    type Model = crate::def::enums::DamageAttribute;

    open spec fn model(&self) -> crate::def::enums::DamageAttribute {
        *self
    }

    open spec fn encode(m: crate::def::enums::DamageAttribute) -> Seq<u8> {
        u32_le_bytes(m.wire_value() as u32)
    }

    open spec fn decode(b: Seq<u8>) -> (Result<crate::def::enums::DamageAttribute, ParseWireError>, int) {
        decode_enum::<crate::def::enums::DamageAttribute>(b)
    }

    open spec fn encodable(m: crate::def::enums::DamageAttribute) -> bool {
        true
    }

    fn parse(cur: &mut &[u8]) -> (r: Result<crate::def::enums::DamageAttribute, ParseWireError>) {
        parse_enum(cur)
    }

    fn serialize(&self, out: &mut Vec<u8>, pos: &mut usize) -> (r: Result<(), UnexpectedEnd>) {
        put_u32(out, pos, self.to_i32() as u32)
    }

    fn wire_size(&self) -> (r: usize) {
        4
    }

    proof fn lemma_decode_len(b: Seq<u8>) {
    }

    proof fn lemma_round_trip(m: crate::def::enums::DamageAttribute, rest: Seq<u8>) {
        lemma_enum_round_trip(m, rest);
    }
}

impl Wire for crate::def::enums::DoorTriggerType {
    type Model = crate::def::enums::DoorTriggerType;

    open spec fn model(&self) -> crate::def::enums::DoorTriggerType {
        *self
    }

    open spec fn encode(m: crate::def::enums::DoorTriggerType) -> Seq<u8> {
        u32_le_bytes(m.wire_value() as u32)
    }

    open spec fn decode(b: Seq<u8>) -> (Result<crate::def::enums::DoorTriggerType, ParseWireError>, int) {
        decode_enum::<crate::def::enums::DoorTriggerType>(b)
    }

    open spec fn encodable(m: crate::def::enums::DoorTriggerType) -> bool {
        true
    }

    fn parse(cur: &mut &[u8]) -> (r: Result<crate::def::enums::DoorTriggerType, ParseWireError>) {
        parse_enum(cur)
    }

    fn serialize(&self, out: &mut Vec<u8>, pos: &mut usize) -> (r: Result<(), UnexpectedEnd>) {
        put_u32(out, pos, self.to_i32() as u32)
    }

    fn wire_size(&self) -> (r: usize) {
        4
    }

    proof fn lemma_decode_len(b: Seq<u8>) {
    }

    proof fn lemma_round_trip(m: crate::def::enums::DoorTriggerType, rest: Seq<u8>) {
        lemma_enum_round_trip(m, rest);
    }
}

impl Wire for crate::def::enums::ExpressionInventoryType {
    type Model = crate::def::enums::ExpressionInventoryType;

    open spec fn model(&self) -> crate::def::enums::ExpressionInventoryType {
        *self
    }

    open spec fn encode(m: crate::def::enums::ExpressionInventoryType) -> Seq<u8> {
        u32_le_bytes(m.wire_value() as u32)
    }

    open spec fn decode(b: Seq<u8>) -> (Result<crate::def::enums::ExpressionInventoryType, ParseWireError>, int) {
        decode_enum::<crate::def::enums::ExpressionInventoryType>(b)
    }

    open spec fn encodable(m: crate::def::enums::ExpressionInventoryType) -> bool {
        true
    }

    fn parse(cur: &mut &[u8]) -> (r: Result<crate::def::enums::ExpressionInventoryType, ParseWireError>) {
        parse_enum(cur)
    }

    fn serialize(&self, out: &mut Vec<u8>, pos: &mut usize) -> (r: Result<(), UnexpectedEnd>) {
        put_u32(out, pos, self.to_i32() as u32)
    }

    fn wire_size(&self) -> (r: usize) {
        4
    }

    proof fn lemma_decode_len(b: Seq<u8>) {
    }

    proof fn lemma_round_trip(m: crate::def::enums::ExpressionInventoryType, rest: Seq<u8>) {
        lemma_enum_round_trip(m, rest);
    }
}

impl Wire for crate::def::enums::FeatAttackType {
    type Model = crate::def::enums::FeatAttackType;

    open spec fn model(&self) -> crate::def::enums::FeatAttackType {
        *self
    }

    open spec fn encode(m: crate::def::enums::FeatAttackType) -> Seq<u8> {
        u32_le_bytes(m.wire_value() as u32)
    }

    open spec fn decode(b: Seq<u8>) -> (Result<crate::def::enums::FeatAttackType, ParseWireError>, int) {
        decode_enum::<crate::def::enums::FeatAttackType>(b)
    }

    open spec fn encodable(m: crate::def::enums::FeatAttackType) -> bool {
        true
    }

    fn parse(cur: &mut &[u8]) -> (r: Result<crate::def::enums::FeatAttackType, ParseWireError>) {
        parse_enum(cur)
    }

    fn serialize(&self, out: &mut Vec<u8>, pos: &mut usize) -> (r: Result<(), UnexpectedEnd>) {
        put_u32(out, pos, self.to_i32() as u32)
    }

    fn wire_size(&self) -> (r: usize) {
        4
    }

    proof fn lemma_decode_len(b: Seq<u8>) {
    }

    proof fn lemma_round_trip(m: crate::def::enums::FeatAttackType, rest: Seq<u8>) {
        lemma_enum_round_trip(m, rest);
    }
}

impl Wire for crate::def::enums::GameEventType {
    type Model = crate::def::enums::GameEventType;

    open spec fn model(&self) -> crate::def::enums::GameEventType {
        *self
    }

    open spec fn encode(m: crate::def::enums::GameEventType) -> Seq<u8> {
        u32_le_bytes(m.wire_value() as u32)
    }

    open spec fn decode(b: Seq<u8>) -> (Result<crate::def::enums::GameEventType, ParseWireError>, int) {
        decode_enum::<crate::def::enums::GameEventType>(b)
    }

    open spec fn encodable(m: crate::def::enums::GameEventType) -> bool {
        true
    }

    fn parse(cur: &mut &[u8]) -> (r: Result<crate::def::enums::GameEventType, ParseWireError>) {
        parse_enum(cur)
    }

    fn serialize(&self, out: &mut Vec<u8>, pos: &mut usize) -> (r: Result<(), UnexpectedEnd>) {
        put_u32(out, pos, self.to_i32() as u32)
    }

    fn wire_size(&self) -> (r: usize) {
        4
    }

    proof fn lemma_decode_len(b: Seq<u8>) {
    }

    proof fn lemma_round_trip(m: crate::def::enums::GameEventType, rest: Seq<u8>) {
        lemma_enum_round_trip(m, rest);
    }
}

impl Wire for crate::def::enums::GiftType {
    type Model = crate::def::enums::GiftType;

    open spec fn model(&self) -> crate::def::enums::GiftType {
        *self
    }

    open spec fn encode(m: crate::def::enums::GiftType) -> Seq<u8> {
        u32_le_bytes(m.wire_value() as u32)
    }

    open spec fn decode(b: Seq<u8>) -> (Result<crate::def::enums::GiftType, ParseWireError>, int) {
        decode_enum::<crate::def::enums::GiftType>(b)
    }

    open spec fn encodable(m: crate::def::enums::GiftType) -> bool {
        true
    }

    fn parse(cur: &mut &[u8]) -> (r: Result<crate::def::enums::GiftType, ParseWireError>) {
        parse_enum(cur)
    }

    fn serialize(&self, out: &mut Vec<u8>, pos: &mut usize) -> (r: Result<(), UnexpectedEnd>) {
        put_u32(out, pos, self.to_i32() as u32)
    }

    fn wire_size(&self) -> (r: usize) {
        4
    }

    proof fn lemma_decode_len(b: Seq<u8>) {
    }

    proof fn lemma_round_trip(m: crate::def::enums::GiftType, rest: Seq<u8>) {
        lemma_enum_round_trip(m, rest);
    }
}

impl Wire for crate::def::enums::HeroAbility {
    type Model = crate::def::enums::HeroAbility;

    open spec fn model(&self) -> crate::def::enums::HeroAbility {
        *self
    }

    open spec fn encode(m: crate::def::enums::HeroAbility) -> Seq<u8> {
        u32_le_bytes(m.wire_value() as u32)
    }

    open spec fn decode(b: Seq<u8>) -> (Result<crate::def::enums::HeroAbility, ParseWireError>, int) {
        decode_enum::<crate::def::enums::HeroAbility>(b)
    }

    open spec fn encodable(m: crate::def::enums::HeroAbility) -> bool {
        true
    }

    fn parse(cur: &mut &[u8]) -> (r: Result<crate::def::enums::HeroAbility, ParseWireError>) {
        parse_enum(cur)
    }

    fn serialize(&self, out: &mut Vec<u8>, pos: &mut usize) -> (r: Result<(), UnexpectedEnd>) {
        put_u32(out, pos, self.to_i32() as u32)
    }

    fn wire_size(&self) -> (r: usize) {
        4
    }

    proof fn lemma_decode_len(b: Seq<u8>) {
    }

    proof fn lemma_round_trip(m: crate::def::enums::HeroAbility, rest: Seq<u8>) {
        lemma_enum_round_trip(m, rest);
    }
}

impl Wire for crate::def::enums::HeroAttachableAppearanceModifierType {
    type Model = crate::def::enums::HeroAttachableAppearanceModifierType;

    open spec fn model(&self) -> crate::def::enums::HeroAttachableAppearanceModifierType {
        *self
    }

    open spec fn encode(m: crate::def::enums::HeroAttachableAppearanceModifierType) -> Seq<u8> {
        u32_le_bytes(m.wire_value() as u32)
    }

    open spec fn decode(b: Seq<u8>) -> (Result<crate::def::enums::HeroAttachableAppearanceModifierType, ParseWireError>, int) {
        decode_enum::<crate::def::enums::HeroAttachableAppearanceModifierType>(b)
    }

    open spec fn encodable(m: crate::def::enums::HeroAttachableAppearanceModifierType) -> bool {
        true
    }

    fn parse(cur: &mut &[u8]) -> (r: Result<crate::def::enums::HeroAttachableAppearanceModifierType, ParseWireError>) {
        parse_enum(cur)
    }

    fn serialize(&self, out: &mut Vec<u8>, pos: &mut usize) -> (r: Result<(), UnexpectedEnd>) {
        put_u32(out, pos, self.to_i32() as u32)
    }

    fn wire_size(&self) -> (r: usize) {
        4
    }

    proof fn lemma_decode_len(b: Seq<u8>) {
    }

    proof fn lemma_round_trip(m: crate::def::enums::HeroAttachableAppearanceModifierType, rest: Seq<u8>) {
        lemma_enum_round_trip(m, rest);
    }
}

impl Wire for crate::def::enums::HeroExperienceStatCategory {
    type Model = crate::def::enums::HeroExperienceStatCategory;

    open spec fn model(&self) -> crate::def::enums::HeroExperienceStatCategory {
        *self
    }

    open spec fn encode(m: crate::def::enums::HeroExperienceStatCategory) -> Seq<u8> {
        u32_le_bytes(m.wire_value() as u32)
    }

    open spec fn decode(b: Seq<u8>) -> (Result<crate::def::enums::HeroExperienceStatCategory, ParseWireError>, int) {
        decode_enum::<crate::def::enums::HeroExperienceStatCategory>(b)
    }

    open spec fn encodable(m: crate::def::enums::HeroExperienceStatCategory) -> bool {
        true
    }

    fn parse(cur: &mut &[u8]) -> (r: Result<crate::def::enums::HeroExperienceStatCategory, ParseWireError>) {
        parse_enum(cur)
    }

    fn serialize(&self, out: &mut Vec<u8>, pos: &mut usize) -> (r: Result<(), UnexpectedEnd>) {
        put_u32(out, pos, self.to_i32() as u32)
    }

    fn wire_size(&self) -> (r: usize) {
        4
    }

    proof fn lemma_decode_len(b: Seq<u8>) {
    }

    proof fn lemma_round_trip(m: crate::def::enums::HeroExperienceStatCategory, rest: Seq<u8>) {
        lemma_enum_round_trip(m, rest);
    }
}

impl Wire for crate::def::enums::HeroTitle {
    type Model = crate::def::enums::HeroTitle;

    open spec fn model(&self) -> crate::def::enums::HeroTitle {
        *self
    }

    open spec fn encode(m: crate::def::enums::HeroTitle) -> Seq<u8> {
        u32_le_bytes(m.wire_value() as u32)
    }

    open spec fn decode(b: Seq<u8>) -> (Result<crate::def::enums::HeroTitle, ParseWireError>, int) {
        decode_enum::<crate::def::enums::HeroTitle>(b)
    }

    open spec fn encodable(m: crate::def::enums::HeroTitle) -> bool {
        true
    }

    fn parse(cur: &mut &[u8]) -> (r: Result<crate::def::enums::HeroTitle, ParseWireError>) {
        parse_enum(cur)
    }

    fn serialize(&self, out: &mut Vec<u8>, pos: &mut usize) -> (r: Result<(), UnexpectedEnd>) {
        put_u32(out, pos, self.to_i32() as u32)
    }

    fn wire_size(&self) -> (r: usize) {
        4
    }

    proof fn lemma_decode_len(b: Seq<u8>) {
    }

    proof fn lemma_round_trip(m: crate::def::enums::HeroTitle, rest: Seq<u8>) {
        lemma_enum_round_trip(m, rest);
    }
}

impl Wire for crate::def::enums::HeroTrainingStatus {
    type Model = crate::def::enums::HeroTrainingStatus;

    open spec fn model(&self) -> crate::def::enums::HeroTrainingStatus {
        *self
    }

    open spec fn encode(m: crate::def::enums::HeroTrainingStatus) -> Seq<u8> {
        u32_le_bytes(m.wire_value() as u32)
    }

    open spec fn decode(b: Seq<u8>) -> (Result<crate::def::enums::HeroTrainingStatus, ParseWireError>, int) {
        decode_enum::<crate::def::enums::HeroTrainingStatus>(b)
    }

    open spec fn encodable(m: crate::def::enums::HeroTrainingStatus) -> bool {
        true
    }

    fn parse(cur: &mut &[u8]) -> (r: Result<crate::def::enums::HeroTrainingStatus, ParseWireError>) {
        parse_enum(cur)
    }

    fn serialize(&self, out: &mut Vec<u8>, pos: &mut usize) -> (r: Result<(), UnexpectedEnd>) {
        put_u32(out, pos, self.to_i32() as u32)
    }

    fn wire_size(&self) -> (r: usize) {
        4
    }

    proof fn lemma_decode_len(b: Seq<u8>) {
    }

    proof fn lemma_round_trip(m: crate::def::enums::HeroTrainingStatus, rest: Seq<u8>) {
        lemma_enum_round_trip(m, rest);
    }
}

impl Wire for crate::def::enums::LightingChannel {
    type Model = crate::def::enums::LightingChannel;

    open spec fn model(&self) -> crate::def::enums::LightingChannel {
        *self
    }

    open spec fn encode(m: crate::def::enums::LightingChannel) -> Seq<u8> {
        u32_le_bytes(m.wire_value() as u32)
    }

    open spec fn decode(b: Seq<u8>) -> (Result<crate::def::enums::LightingChannel, ParseWireError>, int) {
        decode_enum::<crate::def::enums::LightingChannel>(b)
    }

    open spec fn encodable(m: crate::def::enums::LightingChannel) -> bool {
        true
    }

    fn parse(cur: &mut &[u8]) -> (r: Result<crate::def::enums::LightingChannel, ParseWireError>) {
        parse_enum(cur)
    }

    fn serialize(&self, out: &mut Vec<u8>, pos: &mut usize) -> (r: Result<(), UnexpectedEnd>) {
        put_u32(out, pos, self.to_i32() as u32)
    }

    fn wire_size(&self) -> (r: usize) {
        4
    }

    proof fn lemma_decode_len(b: Seq<u8>) {
    }

    proof fn lemma_round_trip(m: crate::def::enums::LightingChannel, rest: Seq<u8>) {
        lemma_enum_round_trip(m, rest);
    }
}

impl Wire for crate::def::enums::MessageEventType {
    type Model = crate::def::enums::MessageEventType;

    open spec fn model(&self) -> crate::def::enums::MessageEventType {
        *self
    }

    open spec fn encode(m: crate::def::enums::MessageEventType) -> Seq<u8> {
        u32_le_bytes(m.wire_value() as u32)
    }

    open spec fn decode(b: Seq<u8>) -> (Result<crate::def::enums::MessageEventType, ParseWireError>, int) {
        decode_enum::<crate::def::enums::MessageEventType>(b)
    }

    open spec fn encodable(m: crate::def::enums::MessageEventType) -> bool {
        true
    }

    fn parse(cur: &mut &[u8]) -> (r: Result<crate::def::enums::MessageEventType, ParseWireError>) {
        parse_enum(cur)
    }

    fn serialize(&self, out: &mut Vec<u8>, pos: &mut usize) -> (r: Result<(), UnexpectedEnd>) {
        put_u32(out, pos, self.to_i32() as u32)
    }

    fn wire_size(&self) -> (r: usize) {
        4
    }

    proof fn lemma_decode_len(b: Seq<u8>) {
    }

    proof fn lemma_round_trip(m: crate::def::enums::MessageEventType, rest: Seq<u8>) {
        lemma_enum_round_trip(m, rest);
    }
}

impl Wire for crate::def::enums::MinimapThemeType {
    type Model = crate::def::enums::MinimapThemeType;

    open spec fn model(&self) -> crate::def::enums::MinimapThemeType {
        *self
    }

    open spec fn encode(m: crate::def::enums::MinimapThemeType) -> Seq<u8> {
        u32_le_bytes(m.wire_value() as u32)
    }

    open spec fn decode(b: Seq<u8>) -> (Result<crate::def::enums::MinimapThemeType, ParseWireError>, int) {
        decode_enum::<crate::def::enums::MinimapThemeType>(b)
    }

    open spec fn encodable(m: crate::def::enums::MinimapThemeType) -> bool {
        true
    }

    fn parse(cur: &mut &[u8]) -> (r: Result<crate::def::enums::MinimapThemeType, ParseWireError>) {
        parse_enum(cur)
    }

    fn serialize(&self, out: &mut Vec<u8>, pos: &mut usize) -> (r: Result<(), UnexpectedEnd>) {
        put_u32(out, pos, self.to_i32() as u32)
    }

    fn wire_size(&self) -> (r: usize) {
        4
    }

    proof fn lemma_decode_len(b: Seq<u8>) {
    }

    proof fn lemma_round_trip(m: crate::def::enums::MinimapThemeType, rest: Seq<u8>) {
        lemma_enum_round_trip(m, rest);
    }
}

impl Wire for crate::def::enums::NavigatorType {
    type Model = crate::def::enums::NavigatorType;

    open spec fn model(&self) -> crate::def::enums::NavigatorType {
        *self
    }

    open spec fn encode(m: crate::def::enums::NavigatorType) -> Seq<u8> {
        u32_le_bytes(m.wire_value() as u32)
    }

    open spec fn decode(b: Seq<u8>) -> (Result<crate::def::enums::NavigatorType, ParseWireError>, int) {
        decode_enum::<crate::def::enums::NavigatorType>(b)
    }

    open spec fn encodable(m: crate::def::enums::NavigatorType) -> bool {
        true
    }

    fn parse(cur: &mut &[u8]) -> (r: Result<crate::def::enums::NavigatorType, ParseWireError>) {
        parse_enum(cur)
    }

    fn serialize(&self, out: &mut Vec<u8>, pos: &mut usize) -> (r: Result<(), UnexpectedEnd>) {
        put_u32(out, pos, self.to_i32() as u32)
    }

    fn wire_size(&self) -> (r: usize) {
        4
    }

    proof fn lemma_decode_len(b: Seq<u8>) {
    }

    proof fn lemma_round_trip(m: crate::def::enums::NavigatorType, rest: Seq<u8>) {
        lemma_enum_round_trip(m, rest);
    }
}

impl Wire for crate::def::enums::NoiseType {
    type Model = crate::def::enums::NoiseType;

    open spec fn model(&self) -> crate::def::enums::NoiseType {
        *self
    }

    open spec fn encode(m: crate::def::enums::NoiseType) -> Seq<u8> {
        u32_le_bytes(m.wire_value() as u32)
    }

    open spec fn decode(b: Seq<u8>) -> (Result<crate::def::enums::NoiseType, ParseWireError>, int) {
        decode_enum::<crate::def::enums::NoiseType>(b)
    }

    open spec fn encodable(m: crate::def::enums::NoiseType) -> bool {
        true
    }

    fn parse(cur: &mut &[u8]) -> (r: Result<crate::def::enums::NoiseType, ParseWireError>) {
        parse_enum(cur)
    }

    fn serialize(&self, out: &mut Vec<u8>, pos: &mut usize) -> (r: Result<(), UnexpectedEnd>) {
        put_u32(out, pos, self.to_i32() as u32)
    }

    fn wire_size(&self) -> (r: usize) {
        4
    }

    proof fn lemma_decode_len(b: Seq<u8>) {
    }

    proof fn lemma_round_trip(m: crate::def::enums::NoiseType, rest: Seq<u8>) {
        lemma_enum_round_trip(m, rest);
    }
}

impl Wire for crate::def::enums::PerceivedThingType {
    type Model = crate::def::enums::PerceivedThingType;

    open spec fn model(&self) -> crate::def::enums::PerceivedThingType {
        *self
    }

    open spec fn encode(m: crate::def::enums::PerceivedThingType) -> Seq<u8> {
        u32_le_bytes(m.wire_value() as u32)
    }

    open spec fn decode(b: Seq<u8>) -> (Result<crate::def::enums::PerceivedThingType, ParseWireError>, int) {
        decode_enum::<crate::def::enums::PerceivedThingType>(b)
    }

    open spec fn encodable(m: crate::def::enums::PerceivedThingType) -> bool {
        true
    }

    fn parse(cur: &mut &[u8]) -> (r: Result<crate::def::enums::PerceivedThingType, ParseWireError>) {
        parse_enum(cur)
    }

    fn serialize(&self, out: &mut Vec<u8>, pos: &mut usize) -> (r: Result<(), UnexpectedEnd>) {
        put_u32(out, pos, self.to_i32() as u32)
    }

    fn wire_size(&self) -> (r: usize) {
        4
    }

    proof fn lemma_decode_len(b: Seq<u8>) {
    }

    proof fn lemma_round_trip(m: crate::def::enums::PerceivedThingType, rest: Seq<u8>) {
        lemma_enum_round_trip(m, rest);
    }
}

impl Wire for crate::def::enums::PointLightChannelEffect {
    type Model = crate::def::enums::PointLightChannelEffect;

    open spec fn model(&self) -> crate::def::enums::PointLightChannelEffect {
        *self
    }

    open spec fn encode(m: crate::def::enums::PointLightChannelEffect) -> Seq<u8> {
        u32_le_bytes(m.wire_value() as u32)
    }

    open spec fn decode(b: Seq<u8>) -> (Result<crate::def::enums::PointLightChannelEffect, ParseWireError>, int) {
        decode_enum::<crate::def::enums::PointLightChannelEffect>(b)
    }

    open spec fn encodable(m: crate::def::enums::PointLightChannelEffect) -> bool {
        true
    }

    fn parse(cur: &mut &[u8]) -> (r: Result<crate::def::enums::PointLightChannelEffect, ParseWireError>) {
        parse_enum(cur)
    }

    fn serialize(&self, out: &mut Vec<u8>, pos: &mut usize) -> (r: Result<(), UnexpectedEnd>) {
        put_u32(out, pos, self.to_i32() as u32)
    }

    fn wire_size(&self) -> (r: usize) {
        4
    }

    proof fn lemma_decode_len(b: Seq<u8>) {
    }

    proof fn lemma_round_trip(m: crate::def::enums::PointLightChannelEffect, rest: Seq<u8>) {
        lemma_enum_round_trip(m, rest);
    }
}

impl Wire for crate::def::enums::QuakeLength {
    type Model = crate::def::enums::QuakeLength;

    open spec fn model(&self) -> crate::def::enums::QuakeLength {
        *self
    }

    open spec fn encode(m: crate::def::enums::QuakeLength) -> Seq<u8> {
        u32_le_bytes(m.wire_value() as u32)
    }

    open spec fn decode(b: Seq<u8>) -> (Result<crate::def::enums::QuakeLength, ParseWireError>, int) {
        decode_enum::<crate::def::enums::QuakeLength>(b)
    }

    open spec fn encodable(m: crate::def::enums::QuakeLength) -> bool {
        true
    }

    fn parse(cur: &mut &[u8]) -> (r: Result<crate::def::enums::QuakeLength, ParseWireError>) {
        parse_enum(cur)
    }

    fn serialize(&self, out: &mut Vec<u8>, pos: &mut usize) -> (r: Result<(), UnexpectedEnd>) {
        put_u32(out, pos, self.to_i32() as u32)
    }

    fn wire_size(&self) -> (r: usize) {
        4
    }

    proof fn lemma_decode_len(b: Seq<u8>) {
    }

    proof fn lemma_round_trip(m: crate::def::enums::QuakeLength, rest: Seq<u8>) {
        lemma_enum_round_trip(m, rest);
    }
}

impl Wire for crate::def::enums::QuakeStrength {
    type Model = crate::def::enums::QuakeStrength;

    open spec fn model(&self) -> crate::def::enums::QuakeStrength {
        *self
    }

    open spec fn encode(m: crate::def::enums::QuakeStrength) -> Seq<u8> {
        u32_le_bytes(m.wire_value() as u32)
    }

    open spec fn decode(b: Seq<u8>) -> (Result<crate::def::enums::QuakeStrength, ParseWireError>, int) {
        decode_enum::<crate::def::enums::QuakeStrength>(b)
    }

    open spec fn encodable(m: crate::def::enums::QuakeStrength) -> bool {
        true
    }

    fn parse(cur: &mut &[u8]) -> (r: Result<crate::def::enums::QuakeStrength, ParseWireError>) {
        parse_enum(cur)
    }

    fn serialize(&self, out: &mut Vec<u8>, pos: &mut usize) -> (r: Result<(), UnexpectedEnd>) {
        put_u32(out, pos, self.to_i32() as u32)
    }

    fn wire_size(&self) -> (r: usize) {
        4
    }

    proof fn lemma_decode_len(b: Seq<u8>) {
    }

    proof fn lemma_round_trip(m: crate::def::enums::QuakeStrength, rest: Seq<u8>) {
        lemma_enum_round_trip(m, rest);
    }
}

impl Wire for crate::def::enums::ReactionSpeechType {
    type Model = crate::def::enums::ReactionSpeechType;

    open spec fn model(&self) -> crate::def::enums::ReactionSpeechType {
        *self
    }

    open spec fn encode(m: crate::def::enums::ReactionSpeechType) -> Seq<u8> {
        u32_le_bytes(m.wire_value() as u32)
    }

    open spec fn decode(b: Seq<u8>) -> (Result<crate::def::enums::ReactionSpeechType, ParseWireError>, int) {
        decode_enum::<crate::def::enums::ReactionSpeechType>(b)
    }

    open spec fn encodable(m: crate::def::enums::ReactionSpeechType) -> bool {
        true
    }

    fn parse(cur: &mut &[u8]) -> (r: Result<crate::def::enums::ReactionSpeechType, ParseWireError>) {
        parse_enum(cur)
    }

    fn serialize(&self, out: &mut Vec<u8>, pos: &mut usize) -> (r: Result<(), UnexpectedEnd>) {
        put_u32(out, pos, self.to_i32() as u32)
    }

    fn wire_size(&self) -> (r: usize) {
        4
    }

    proof fn lemma_decode_len(b: Seq<u8>) {
    }

    proof fn lemma_round_trip(m: crate::def::enums::ReactionSpeechType, rest: Seq<u8>) {
        lemma_enum_round_trip(m, rest);
    }
}

impl Wire for crate::def::enums::ReverbEnvironmentType {
    type Model = crate::def::enums::ReverbEnvironmentType;

    open spec fn model(&self) -> crate::def::enums::ReverbEnvironmentType {
        *self
    }

    open spec fn encode(m: crate::def::enums::ReverbEnvironmentType) -> Seq<u8> {
        u32_le_bytes(m.wire_value() as u32)
    }

    open spec fn decode(b: Seq<u8>) -> (Result<crate::def::enums::ReverbEnvironmentType, ParseWireError>, int) {
        decode_enum::<crate::def::enums::ReverbEnvironmentType>(b)
    }

    open spec fn encodable(m: crate::def::enums::ReverbEnvironmentType) -> bool {
        true
    }

    fn parse(cur: &mut &[u8]) -> (r: Result<crate::def::enums::ReverbEnvironmentType, ParseWireError>) {
        parse_enum(cur)
    }

    fn serialize(&self, out: &mut Vec<u8>, pos: &mut usize) -> (r: Result<(), UnexpectedEnd>) {
        put_u32(out, pos, self.to_i32() as u32)
    }

    fn wire_size(&self) -> (r: usize) {
        4
    }

    proof fn lemma_decode_len(b: Seq<u8>) {
    }

    proof fn lemma_round_trip(m: crate::def::enums::ReverbEnvironmentType, rest: Seq<u8>) {
        lemma_enum_round_trip(m, rest);
    }
}

impl Wire for crate::def::enums::ScriptingStateGroups {
    type Model = crate::def::enums::ScriptingStateGroups;

    open spec fn model(&self) -> crate::def::enums::ScriptingStateGroups {
        *self
    }

    open spec fn encode(m: crate::def::enums::ScriptingStateGroups) -> Seq<u8> {
        u32_le_bytes(m.wire_value() as u32)
    }

    open spec fn decode(b: Seq<u8>) -> (Result<crate::def::enums::ScriptingStateGroups, ParseWireError>, int) {
        decode_enum::<crate::def::enums::ScriptingStateGroups>(b)
    }

    open spec fn encodable(m: crate::def::enums::ScriptingStateGroups) -> bool {
        true
    }

    fn parse(cur: &mut &[u8]) -> (r: Result<crate::def::enums::ScriptingStateGroups, ParseWireError>) {
        parse_enum(cur)
    }

    fn serialize(&self, out: &mut Vec<u8>, pos: &mut usize) -> (r: Result<(), UnexpectedEnd>) {
        put_u32(out, pos, self.to_i32() as u32)
    }

    fn wire_size(&self) -> (r: usize) {
        4
    }

    proof fn lemma_decode_len(b: Seq<u8>) {
    }

    proof fn lemma_round_trip(m: crate::def::enums::ScriptingStateGroups, rest: Seq<u8>) {
        lemma_enum_round_trip(m, rest);
    }
}

impl Wire for crate::def::enums::Sex {
    type Model = crate::def::enums::Sex;

    open spec fn model(&self) -> crate::def::enums::Sex {
        *self
    }

    open spec fn encode(m: crate::def::enums::Sex) -> Seq<u8> {
        u32_le_bytes(m.wire_value() as u32)
    }

    open spec fn decode(b: Seq<u8>) -> (Result<crate::def::enums::Sex, ParseWireError>, int) {
        decode_enum::<crate::def::enums::Sex>(b)
    }

    open spec fn encodable(m: crate::def::enums::Sex) -> bool {
        true
    }

    fn parse(cur: &mut &[u8]) -> (r: Result<crate::def::enums::Sex, ParseWireError>) {
        parse_enum(cur)
    }

    fn serialize(&self, out: &mut Vec<u8>, pos: &mut usize) -> (r: Result<(), UnexpectedEnd>) {
        put_u32(out, pos, self.to_i32() as u32)
    }

    fn wire_size(&self) -> (r: usize) {
        4
    }

    proof fn lemma_decode_len(b: Seq<u8>) {
    }

    proof fn lemma_round_trip(m: crate::def::enums::Sex, rest: Seq<u8>) {
        lemma_enum_round_trip(m, rest);
    }
}

impl Wire for crate::def::enums::TavernGameControlType {
    type Model = crate::def::enums::TavernGameControlType;

    open spec fn model(&self) -> crate::def::enums::TavernGameControlType {
        *self
    }

    open spec fn encode(m: crate::def::enums::TavernGameControlType) -> Seq<u8> {
        u32_le_bytes(m.wire_value() as u32)
    }

    open spec fn decode(b: Seq<u8>) -> (Result<crate::def::enums::TavernGameControlType, ParseWireError>, int) {
        decode_enum::<crate::def::enums::TavernGameControlType>(b)
    }

    open spec fn encodable(m: crate::def::enums::TavernGameControlType) -> bool {
        true
    }

    fn parse(cur: &mut &[u8]) -> (r: Result<crate::def::enums::TavernGameControlType, ParseWireError>) {
        parse_enum(cur)
    }

    fn serialize(&self, out: &mut Vec<u8>, pos: &mut usize) -> (r: Result<(), UnexpectedEnd>) {
        put_u32(out, pos, self.to_i32() as u32)
    }

    fn wire_size(&self) -> (r: usize) {
        4
    }

    proof fn lemma_decode_len(b: Seq<u8>) {
    }

    proof fn lemma_round_trip(m: crate::def::enums::TavernGameControlType, rest: Seq<u8>) {
        lemma_enum_round_trip(m, rest);
    }
}

impl Wire for crate::def::enums::ThingCreatureProperty {
    type Model = crate::def::enums::ThingCreatureProperty;

    open spec fn model(&self) -> crate::def::enums::ThingCreatureProperty {
        *self
    }

    open spec fn encode(m: crate::def::enums::ThingCreatureProperty) -> Seq<u8> {
        u32_le_bytes(m.wire_value() as u32)
    }

    open spec fn decode(b: Seq<u8>) -> (Result<crate::def::enums::ThingCreatureProperty, ParseWireError>, int) {
        decode_enum::<crate::def::enums::ThingCreatureProperty>(b)
    }

    open spec fn encodable(m: crate::def::enums::ThingCreatureProperty) -> bool {
        true
    }

    fn parse(cur: &mut &[u8]) -> (r: Result<crate::def::enums::ThingCreatureProperty, ParseWireError>) {
        parse_enum(cur)
    }

    fn serialize(&self, out: &mut Vec<u8>, pos: &mut usize) -> (r: Result<(), UnexpectedEnd>) {
        put_u32(out, pos, self.to_i32() as u32)
    }

    fn wire_size(&self) -> (r: usize) {
        4
    }

    proof fn lemma_decode_len(b: Seq<u8>) {
    }

    proof fn lemma_round_trip(m: crate::def::enums::ThingCreatureProperty, rest: Seq<u8>) {
        lemma_enum_round_trip(m, rest);
    }
}

impl Wire for crate::def::enums::TrapTriggerType {
    type Model = crate::def::enums::TrapTriggerType;

    open spec fn model(&self) -> crate::def::enums::TrapTriggerType {
        *self
    }

    open spec fn encode(m: crate::def::enums::TrapTriggerType) -> Seq<u8> {
        u32_le_bytes(m.wire_value() as u32)
    }

    open spec fn decode(b: Seq<u8>) -> (Result<crate::def::enums::TrapTriggerType, ParseWireError>, int) {
        decode_enum::<crate::def::enums::TrapTriggerType>(b)
    }

    open spec fn encodable(m: crate::def::enums::TrapTriggerType) -> bool {
        true
    }

    fn parse(cur: &mut &[u8]) -> (r: Result<crate::def::enums::TrapTriggerType, ParseWireError>) {
        parse_enum(cur)
    }

    fn serialize(&self, out: &mut Vec<u8>, pos: &mut usize) -> (r: Result<(), UnexpectedEnd>) {
        put_u32(out, pos, self.to_i32() as u32)
    }

    fn wire_size(&self) -> (r: usize) {
        4
    }

    proof fn lemma_decode_len(b: Seq<u8>) {
    }

    proof fn lemma_round_trip(m: crate::def::enums::TrapTriggerType, rest: Seq<u8>) {
        lemma_enum_round_trip(m, rest);
    }
}

impl Wire for crate::def::enums::TrapType {
    type Model = crate::def::enums::TrapType;

    open spec fn model(&self) -> crate::def::enums::TrapType {
        *self
    }

    open spec fn encode(m: crate::def::enums::TrapType) -> Seq<u8> {
        u32_le_bytes(m.wire_value() as u32)
    }

    open spec fn decode(b: Seq<u8>) -> (Result<crate::def::enums::TrapType, ParseWireError>, int) {
        decode_enum::<crate::def::enums::TrapType>(b)
    }

    open spec fn encodable(m: crate::def::enums::TrapType) -> bool {
        true
    }

    fn parse(cur: &mut &[u8]) -> (r: Result<crate::def::enums::TrapType, ParseWireError>) {
        parse_enum(cur)
    }

    fn serialize(&self, out: &mut Vec<u8>, pos: &mut usize) -> (r: Result<(), UnexpectedEnd>) {
        put_u32(out, pos, self.to_i32() as u32)
    }

    fn wire_size(&self) -> (r: usize) {
        4
    }

    proof fn lemma_decode_len(b: Seq<u8>) {
    }

    proof fn lemma_round_trip(m: crate::def::enums::TrapType, rest: Seq<u8>) {
        lemma_enum_round_trip(m, rest);
    }
}

impl Wire for crate::def::enums::TutorialCategory {
    type Model = crate::def::enums::TutorialCategory;

    open spec fn model(&self) -> crate::def::enums::TutorialCategory {
        *self
    }

    open spec fn encode(m: crate::def::enums::TutorialCategory) -> Seq<u8> {
        u32_le_bytes(m.wire_value() as u32)
    }

    open spec fn decode(b: Seq<u8>) -> (Result<crate::def::enums::TutorialCategory, ParseWireError>, int) {
        decode_enum::<crate::def::enums::TutorialCategory>(b)
    }

    open spec fn encodable(m: crate::def::enums::TutorialCategory) -> bool {
        true
    }

    fn parse(cur: &mut &[u8]) -> (r: Result<crate::def::enums::TutorialCategory, ParseWireError>) {
        parse_enum(cur)
    }

    fn serialize(&self, out: &mut Vec<u8>, pos: &mut usize) -> (r: Result<(), UnexpectedEnd>) {
        put_u32(out, pos, self.to_i32() as u32)
    }

    fn wire_size(&self) -> (r: usize) {
        4
    }

    proof fn lemma_decode_len(b: Seq<u8>) {
    }

    proof fn lemma_round_trip(m: crate::def::enums::TutorialCategory, rest: Seq<u8>) {
        lemma_enum_round_trip(m, rest);
    }
}

impl Wire for crate::def::enums::WallMountEffects {
    type Model = crate::def::enums::WallMountEffects;

    open spec fn model(&self) -> crate::def::enums::WallMountEffects {
        *self
    }

    open spec fn encode(m: crate::def::enums::WallMountEffects) -> Seq<u8> {
        u32_le_bytes(m.wire_value() as u32)
    }

    open spec fn decode(b: Seq<u8>) -> (Result<crate::def::enums::WallMountEffects, ParseWireError>, int) {
        decode_enum::<crate::def::enums::WallMountEffects>(b)
    }

    open spec fn encodable(m: crate::def::enums::WallMountEffects) -> bool {
        true
    }

    fn parse(cur: &mut &[u8]) -> (r: Result<crate::def::enums::WallMountEffects, ParseWireError>) {
        parse_enum(cur)
    }

    fn serialize(&self, out: &mut Vec<u8>, pos: &mut usize) -> (r: Result<(), UnexpectedEnd>) {
        put_u32(out, pos, self.to_i32() as u32)
    }

    fn wire_size(&self) -> (r: usize) {
        4
    }

    proof fn lemma_decode_len(b: Seq<u8>) {
    }

    proof fn lemma_round_trip(m: crate::def::enums::WallMountEffects, rest: Seq<u8>) {
        lemma_enum_round_trip(m, rest);
    }
}

impl Wire for crate::def::enums::WaterType {
    type Model = crate::def::enums::WaterType;

    open spec fn model(&self) -> crate::def::enums::WaterType {
        *self
    }

    open spec fn encode(m: crate::def::enums::WaterType) -> Seq<u8> {
        u32_le_bytes(m.wire_value() as u32)
    }

    open spec fn decode(b: Seq<u8>) -> (Result<crate::def::enums::WaterType, ParseWireError>, int) {
        decode_enum::<crate::def::enums::WaterType>(b)
    }

    open spec fn encodable(m: crate::def::enums::WaterType) -> bool {
        true
    }

    fn parse(cur: &mut &[u8]) -> (r: Result<crate::def::enums::WaterType, ParseWireError>) {
        parse_enum(cur)
    }

    fn serialize(&self, out: &mut Vec<u8>, pos: &mut usize) -> (r: Result<(), UnexpectedEnd>) {
        put_u32(out, pos, self.to_i32() as u32)
    }

    fn wire_size(&self) -> (r: usize) {
        4
    }

    proof fn lemma_decode_len(b: Seq<u8>) {
    }

    proof fn lemma_round_trip(m: crate::def::enums::WaterType, rest: Seq<u8>) {
        lemma_enum_round_trip(m, rest);
    }
}

impl Wire for crate::def::enums::WeaponClass {
    type Model = crate::def::enums::WeaponClass;

    open spec fn model(&self) -> crate::def::enums::WeaponClass {
        *self
    }

    open spec fn encode(m: crate::def::enums::WeaponClass) -> Seq<u8> {
        u32_le_bytes(m.wire_value() as u32)
    }

    open spec fn decode(b: Seq<u8>) -> (Result<crate::def::enums::WeaponClass, ParseWireError>, int) {
        decode_enum::<crate::def::enums::WeaponClass>(b)
    }

    open spec fn encodable(m: crate::def::enums::WeaponClass) -> bool {
        true
    }

    fn parse(cur: &mut &[u8]) -> (r: Result<crate::def::enums::WeaponClass, ParseWireError>) {
        parse_enum(cur)
    }

    fn serialize(&self, out: &mut Vec<u8>, pos: &mut usize) -> (r: Result<(), UnexpectedEnd>) {
        put_u32(out, pos, self.to_i32() as u32)
    }

    fn wire_size(&self) -> (r: usize) {
        4
    }

    proof fn lemma_decode_len(b: Seq<u8>) {
    }

    proof fn lemma_round_trip(m: crate::def::enums::WeaponClass, rest: Seq<u8>) {
        lemma_enum_round_trip(m, rest);
    }
}

impl Wire for crate::def::enums::WeaponType {
    type Model = crate::def::enums::WeaponType;

    open spec fn model(&self) -> crate::def::enums::WeaponType {
        *self
    }

    open spec fn encode(m: crate::def::enums::WeaponType) -> Seq<u8> {
        u32_le_bytes(m.wire_value() as u32)
    }

    open spec fn decode(b: Seq<u8>) -> (Result<crate::def::enums::WeaponType, ParseWireError>, int) {
        decode_enum::<crate::def::enums::WeaponType>(b)
    }

    open spec fn encodable(m: crate::def::enums::WeaponType) -> bool {
        true
    }

    fn parse(cur: &mut &[u8]) -> (r: Result<crate::def::enums::WeaponType, ParseWireError>) {
        parse_enum(cur)
    }

    fn serialize(&self, out: &mut Vec<u8>, pos: &mut usize) -> (r: Result<(), UnexpectedEnd>) {
        put_u32(out, pos, self.to_i32() as u32)
    }

    fn wire_size(&self) -> (r: usize) {
        4
    }

    proof fn lemma_decode_len(b: Seq<u8>) {
    }

    proof fn lemma_round_trip(m: crate::def::enums::WeaponType, rest: Seq<u8>) {
        lemma_enum_round_trip(m, rest);
    }
}

impl Wire for crate::def::enums::DialogueLayer {
    type Model = crate::def::enums::DialogueLayer;

    open spec fn model(&self) -> crate::def::enums::DialogueLayer {
        *self
    }

    open spec fn encode(m: crate::def::enums::DialogueLayer) -> Seq<u8> {
        u32_le_bytes(m.wire_value() as u32)
    }

    open spec fn decode(b: Seq<u8>) -> (Result<crate::def::enums::DialogueLayer, ParseWireError>, int) {
        decode_enum::<crate::def::enums::DialogueLayer>(b)
    }

    open spec fn encodable(m: crate::def::enums::DialogueLayer) -> bool {
        true
    }

    fn parse(cur: &mut &[u8]) -> (r: Result<crate::def::enums::DialogueLayer, ParseWireError>) {
        parse_enum(cur)
    }

    fn serialize(&self, out: &mut Vec<u8>, pos: &mut usize) -> (r: Result<(), UnexpectedEnd>) {
        put_u32(out, pos, self.to_i32() as u32)
    }

    fn wire_size(&self) -> (r: usize) {
        4
    }

    proof fn lemma_decode_len(b: Seq<u8>) {
    }

    proof fn lemma_round_trip(m: crate::def::enums::DialogueLayer, rest: Seq<u8>) {
        lemma_enum_round_trip(m, rest);
    }
}

impl Wire for crate::def::enums::TableExpansion {
    type Model = i32;

    open spec fn model(&self) -> i32 {
        self.0
    }

    open spec fn encode(m: i32) -> Seq<u8> {
        <i32 as Wire>::encode(m)
    }

    open spec fn decode(b: Seq<u8>) -> (Result<i32, ParseWireError>, int) {
        <i32 as Wire>::decode(b)
    }

    open spec fn encodable(m: i32) -> bool {
        true
    }

    fn parse(cur: &mut &[u8]) -> (r: Result<crate::def::enums::TableExpansion, ParseWireError>) {
        match <i32 as Wire>::parse(cur) {
            Ok(v) => Ok(crate::def::enums::TableExpansion(v)),
            Err(e) => Err(e),
        }
    }

    fn serialize(&self, out: &mut Vec<u8>, pos: &mut usize) -> (r: Result<(), UnexpectedEnd>) {
        self.0.serialize(out, pos)
    }

    fn wire_size(&self) -> (r: usize) {
        4
    }

    proof fn lemma_decode_len(b: Seq<u8>) {
    }

    proof fn lemma_round_trip(m: i32, rest: Seq<u8>) {
        <i32 as Wire>::lemma_round_trip(m, rest);
    }
}

impl Wire for crate::def::enums::Sprite2dFlags {
    type Model = i32;

    open spec fn model(&self) -> i32 {
        self.0
    }

    open spec fn encode(m: i32) -> Seq<u8> {
        <i32 as Wire>::encode(m)
    }

    open spec fn decode(b: Seq<u8>) -> (Result<i32, ParseWireError>, int) {
        <i32 as Wire>::decode(b)
    }

    open spec fn encodable(m: i32) -> bool {
        true
    }

    fn parse(cur: &mut &[u8]) -> (r: Result<crate::def::enums::Sprite2dFlags, ParseWireError>) {
        match <i32 as Wire>::parse(cur) {
            Ok(v) => Ok(crate::def::enums::Sprite2dFlags(v)),
            Err(e) => Err(e),
        }
    }

    fn serialize(&self, out: &mut Vec<u8>, pos: &mut usize) -> (r: Result<(), UnexpectedEnd>) {
        self.0.serialize(out, pos)
    }

    fn wire_size(&self) -> (r: usize) {
        4
    }

    proof fn lemma_decode_len(b: Seq<u8>) {
    }

    proof fn lemma_round_trip(m: i32, rest: Seq<u8>) {
        <i32 as Wire>::lemma_round_trip(m, rest);
    }
}

impl Wire for crate::def::enums::CreatureInteractionType {
    type Model = i32;

    open spec fn model(&self) -> i32 {
        self.0
    }

    open spec fn encode(m: i32) -> Seq<u8> {
        <i32 as Wire>::encode(m)
    }

    open spec fn decode(b: Seq<u8>) -> (Result<i32, ParseWireError>, int) {
        <i32 as Wire>::decode(b)
    }

    open spec fn encodable(m: i32) -> bool {
        true
    }

    fn parse(cur: &mut &[u8]) -> (r: Result<crate::def::enums::CreatureInteractionType, ParseWireError>) {
        match <i32 as Wire>::parse(cur) {
            Ok(v) => Ok(crate::def::enums::CreatureInteractionType(v)),
            Err(e) => Err(e),
        }
    }

    fn serialize(&self, out: &mut Vec<u8>, pos: &mut usize) -> (r: Result<(), UnexpectedEnd>) {
        self.0.serialize(out, pos)
    }

    fn wire_size(&self) -> (r: usize) {
        4
    }

    proof fn lemma_decode_len(b: Seq<u8>) {
    }

    proof fn lemma_round_trip(m: i32, rest: Seq<u8>) {
        <i32 as Wire>::lemma_round_trip(m, rest);
    }
}

impl Wire for crate::def::enums::IdleStateGroup {
    type Model = i32;

    open spec fn model(&self) -> i32 {
        self.0
    }

    open spec fn encode(m: i32) -> Seq<u8> {
        <i32 as Wire>::encode(m)
    }

    open spec fn decode(b: Seq<u8>) -> (Result<i32, ParseWireError>, int) {
        <i32 as Wire>::decode(b)
    }

    open spec fn encodable(m: i32) -> bool {
        true
    }

    fn parse(cur: &mut &[u8]) -> (r: Result<crate::def::enums::IdleStateGroup, ParseWireError>) {
        match <i32 as Wire>::parse(cur) {
            Ok(v) => Ok(crate::def::enums::IdleStateGroup(v)),
            Err(e) => Err(e),
        }
    }

    fn serialize(&self, out: &mut Vec<u8>, pos: &mut usize) -> (r: Result<(), UnexpectedEnd>) {
        self.0.serialize(out, pos)
    }

    fn wire_size(&self) -> (r: usize) {
        4
    }

    proof fn lemma_decode_len(b: Seq<u8>) {
    }

    proof fn lemma_round_trip(m: i32, rest: Seq<u8>) {
        <i32 as Wire>::lemma_round_trip(m, rest);
    }
}

impl Wire for crate::def::enums::ObjectAugmentationType {
    type Model = i32;

    open spec fn model(&self) -> i32 {
        self.0
    }

    open spec fn encode(m: i32) -> Seq<u8> {
        <i32 as Wire>::encode(m)
    }

    open spec fn decode(b: Seq<u8>) -> (Result<i32, ParseWireError>, int) {
        <i32 as Wire>::decode(b)
    }

    open spec fn encodable(m: i32) -> bool {
        true
    }

    fn parse(cur: &mut &[u8]) -> (r: Result<crate::def::enums::ObjectAugmentationType, ParseWireError>) {
        match <i32 as Wire>::parse(cur) {
            Ok(v) => Ok(crate::def::enums::ObjectAugmentationType(v)),
            Err(e) => Err(e),
        }
    }

    fn serialize(&self, out: &mut Vec<u8>, pos: &mut usize) -> (r: Result<(), UnexpectedEnd>) {
        self.0.serialize(out, pos)
    }

    fn wire_size(&self) -> (r: usize) {
        4
    }

    proof fn lemma_decode_len(b: Seq<u8>) {
    }

    proof fn lemma_round_trip(m: i32, rest: Seq<u8>) {
        <i32 as Wire>::lemma_round_trip(m, rest);
    }
}

impl Wire for crate::def::enums::Opinion {
    type Model = i32;

    open spec fn model(&self) -> i32 {
        self.0
    }

    open spec fn encode(m: i32) -> Seq<u8> {
        <i32 as Wire>::encode(m)
    }

    open spec fn decode(b: Seq<u8>) -> (Result<i32, ParseWireError>, int) {
        <i32 as Wire>::decode(b)
    }

    open spec fn encodable(m: i32) -> bool {
        true
    }

    fn parse(cur: &mut &[u8]) -> (r: Result<crate::def::enums::Opinion, ParseWireError>) {
        match <i32 as Wire>::parse(cur) {
            Ok(v) => Ok(crate::def::enums::Opinion(v)),
            Err(e) => Err(e),
        }
    }

    fn serialize(&self, out: &mut Vec<u8>, pos: &mut usize) -> (r: Result<(), UnexpectedEnd>) {
        self.0.serialize(out, pos)
    }

    fn wire_size(&self) -> (r: usize) {
        4
    }

    proof fn lemma_decode_len(b: Seq<u8>) {
    }

    proof fn lemma_round_trip(m: i32, rest: Seq<u8>) {
        <i32 as Wire>::lemma_round_trip(m, rest);
    }
}

impl Wire for crate::def::enums::OpinionAttitudeType {
    type Model = i32;

    open spec fn model(&self) -> i32 {
        self.0
    }

    open spec fn encode(m: i32) -> Seq<u8> {
        <i32 as Wire>::encode(m)
    }

    open spec fn decode(b: Seq<u8>) -> (Result<i32, ParseWireError>, int) {
        <i32 as Wire>::decode(b)
    }

    open spec fn encodable(m: i32) -> bool {
        true
    }

    fn parse(cur: &mut &[u8]) -> (r: Result<crate::def::enums::OpinionAttitudeType, ParseWireError>) {
        match <i32 as Wire>::parse(cur) {
            Ok(v) => Ok(crate::def::enums::OpinionAttitudeType(v)),
            Err(e) => Err(e),
        }
    }

    fn serialize(&self, out: &mut Vec<u8>, pos: &mut usize) -> (r: Result<(), UnexpectedEnd>) {
        self.0.serialize(out, pos)
    }

    fn wire_size(&self) -> (r: usize) {
        4
    }

    proof fn lemma_decode_len(b: Seq<u8>) {
    }

    proof fn lemma_round_trip(m: i32, rest: Seq<u8>) {
        <i32 as Wire>::lemma_round_trip(m, rest);
    }
}

impl Wire for crate::def::enums::OpinionDeedType {
    type Model = i32;

    open spec fn model(&self) -> i32 {
        self.0
    }

    open spec fn encode(m: i32) -> Seq<u8> {
        <i32 as Wire>::encode(m)
    }

    open spec fn decode(b: Seq<u8>) -> (Result<i32, ParseWireError>, int) {
        <i32 as Wire>::decode(b)
    }

    open spec fn encodable(m: i32) -> bool {
        true
    }

    fn parse(cur: &mut &[u8]) -> (r: Result<crate::def::enums::OpinionDeedType, ParseWireError>) {
        match <i32 as Wire>::parse(cur) {
            Ok(v) => Ok(crate::def::enums::OpinionDeedType(v)),
            Err(e) => Err(e),
        }
    }

    fn serialize(&self, out: &mut Vec<u8>, pos: &mut usize) -> (r: Result<(), UnexpectedEnd>) {
        self.0.serialize(out, pos)
    }

    fn wire_size(&self) -> (r: usize) {
        4
    }

    proof fn lemma_decode_len(b: Seq<u8>) {
    }

    proof fn lemma_round_trip(m: i32, rest: Seq<u8>) {
        <i32 as Wire>::lemma_round_trip(m, rest);
    }
}

impl Wire for crate::def::enums::OpinionReactionType {
    type Model = i32;

    open spec fn model(&self) -> i32 {
        self.0
    }

    open spec fn encode(m: i32) -> Seq<u8> {
        <i32 as Wire>::encode(m)
    }

    open spec fn decode(b: Seq<u8>) -> (Result<i32, ParseWireError>, int) {
        <i32 as Wire>::decode(b)
    }

    open spec fn encodable(m: i32) -> bool {
        true
    }

    fn parse(cur: &mut &[u8]) -> (r: Result<crate::def::enums::OpinionReactionType, ParseWireError>) {
        match <i32 as Wire>::parse(cur) {
            Ok(v) => Ok(crate::def::enums::OpinionReactionType(v)),
            Err(e) => Err(e),
        }
    }

    fn serialize(&self, out: &mut Vec<u8>, pos: &mut usize) -> (r: Result<(), UnexpectedEnd>) {
        self.0.serialize(out, pos)
    }

    fn wire_size(&self) -> (r: usize) {
        4
    }

    proof fn lemma_decode_len(b: Seq<u8>) {
    }

    proof fn lemma_round_trip(m: i32, rest: Seq<u8>) {
        <i32 as Wire>::lemma_round_trip(m, rest);
    }
}

impl Wire for crate::def::enums::OpinionTargetingConditionType {
    type Model = i32;

    open spec fn model(&self) -> i32 {
        self.0
    }

    open spec fn encode(m: i32) -> Seq<u8> {
        <i32 as Wire>::encode(m)
    }

    open spec fn decode(b: Seq<u8>) -> (Result<i32, ParseWireError>, int) {
        <i32 as Wire>::decode(b)
    }

    open spec fn encodable(m: i32) -> bool {
        true
    }

    fn parse(cur: &mut &[u8]) -> (r: Result<crate::def::enums::OpinionTargetingConditionType, ParseWireError>) {
        match <i32 as Wire>::parse(cur) {
            Ok(v) => Ok(crate::def::enums::OpinionTargetingConditionType(v)),
            Err(e) => Err(e),
        }
    }

    fn serialize(&self, out: &mut Vec<u8>, pos: &mut usize) -> (r: Result<(), UnexpectedEnd>) {
        self.0.serialize(out, pos)
    }

    fn wire_size(&self) -> (r: usize) {
        4
    }

    proof fn lemma_decode_len(b: Seq<u8>) {
    }

    proof fn lemma_round_trip(m: i32, rest: Seq<u8>) {
        <i32 as Wire>::lemma_round_trip(m, rest);
    }
}

impl Wire for crate::def::enums::PSwitchTriggerType {
    type Model = i32;

    open spec fn model(&self) -> i32 {
        self.0
    }

    open spec fn encode(m: i32) -> Seq<u8> {
        <i32 as Wire>::encode(m)
    }

    open spec fn decode(b: Seq<u8>) -> (Result<i32, ParseWireError>, int) {
        <i32 as Wire>::decode(b)
    }

    open spec fn encodable(m: i32) -> bool {
        true
    }

    fn parse(cur: &mut &[u8]) -> (r: Result<crate::def::enums::PSwitchTriggerType, ParseWireError>) {
        match <i32 as Wire>::parse(cur) {
            Ok(v) => Ok(crate::def::enums::PSwitchTriggerType(v)),
            Err(e) => Err(e),
        }
    }

    fn serialize(&self, out: &mut Vec<u8>, pos: &mut usize) -> (r: Result<(), UnexpectedEnd>) {
        self.0.serialize(out, pos)
    }

    fn wire_size(&self) -> (r: usize) {
        4
    }

    proof fn lemma_decode_len(b: Seq<u8>) {
    }

    proof fn lemma_round_trip(m: i32, rest: Seq<u8>) {
        <i32 as Wire>::lemma_round_trip(m, rest);
    }
}

impl Wire for crate::def::enums::SwitchTriggerType {
    type Model = i32;

    open spec fn model(&self) -> i32 {
        self.0
    }

    open spec fn encode(m: i32) -> Seq<u8> {
        <i32 as Wire>::encode(m)
    }

    open spec fn decode(b: Seq<u8>) -> (Result<i32, ParseWireError>, int) {
        <i32 as Wire>::decode(b)
    }

    open spec fn encodable(m: i32) -> bool {
        true
    }

    fn parse(cur: &mut &[u8]) -> (r: Result<crate::def::enums::SwitchTriggerType, ParseWireError>) {
        match <i32 as Wire>::parse(cur) {
            Ok(v) => Ok(crate::def::enums::SwitchTriggerType(v)),
            Err(e) => Err(e),
        }
    }

    fn serialize(&self, out: &mut Vec<u8>, pos: &mut usize) -> (r: Result<(), UnexpectedEnd>) {
        self.0.serialize(out, pos)
    }

    fn wire_size(&self) -> (r: usize) {
        4
    }

    proof fn lemma_decode_len(b: Seq<u8>) {
    }

    proof fn lemma_round_trip(m: i32, rest: Seq<u8>) {
        <i32 as Wire>::lemma_round_trip(m, rest);
    }
}

impl Wire for crate::def::enums::WorldMapNameGraphic {
    type Model = i32;

    open spec fn model(&self) -> i32 {
        self.0
    }

    open spec fn encode(m: i32) -> Seq<u8> {
        <i32 as Wire>::encode(m)
    }

    open spec fn decode(b: Seq<u8>) -> (Result<i32, ParseWireError>, int) {
        <i32 as Wire>::decode(b)
    }

    open spec fn encodable(m: i32) -> bool {
        true
    }

    fn parse(cur: &mut &[u8]) -> (r: Result<crate::def::enums::WorldMapNameGraphic, ParseWireError>) {
        match <i32 as Wire>::parse(cur) {
            Ok(v) => Ok(crate::def::enums::WorldMapNameGraphic(v)),
            Err(e) => Err(e),
        }
    }

    fn serialize(&self, out: &mut Vec<u8>, pos: &mut usize) -> (r: Result<(), UnexpectedEnd>) {
        self.0.serialize(out, pos)
    }

    fn wire_size(&self) -> (r: usize) {
        4
    }

    proof fn lemma_decode_len(b: Seq<u8>) {
    }

    proof fn lemma_round_trip(m: i32, rest: Seq<u8>) {
        <i32 as Wire>::lemma_round_trip(m, rest);
    }
}

} // verus!
