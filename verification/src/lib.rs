//! Input encoding, keybindings and the GPU renderer's decision logic of a
//! terminal emulator, with contracts proved by Verus.

use vstd::prelude::*;

pub mod key_encoding;
pub mod text;
pub mod keybindings;
pub mod gpu;
