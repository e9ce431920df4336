//! The decision-making core of a Win32 windowing backend.
//!
//! Every module here is free of system calls: it takes plain values (message words, buffers of
//! UTF-16 code units, virtual-key codes, rectangles) and says what the backend has to do with
//! them.

pub mod dialog;
pub mod document;
pub mod frame;
pub mod handle;
pub mod ime;
pub mod input;
pub mod keyboard;
pub mod launch;
pub mod menu;
pub mod message;
pub mod offset;
pub mod std_text;
pub mod utf16;
pub mod util;
pub mod vk;
pub mod window;
