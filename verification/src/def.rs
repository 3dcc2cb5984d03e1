//! The game's definition data: the text grammars, the binary wire format,
//! the enumerations and the value records they carry.

pub mod enums;
pub mod text;
pub mod semantic;
pub mod object;
pub mod wire;
pub mod wire_map;
pub mod wire_array;
pub mod enum_wire;
pub mod enum_symbols;
pub mod visit;
