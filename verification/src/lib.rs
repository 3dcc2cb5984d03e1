//! Readers and writers for the data files of the game Fable: archives,
//! images, level and world descriptions, and the definition languages.

use vstd::prelude::*;

pub mod bytes;
pub mod tga;
pub mod wad;
pub mod def;
pub mod lev;
pub mod kv;
pub mod wld;
pub mod texture;
pub mod tng;
pub mod mesh;
pub mod environment;
