# rosin_win

The decision-making core of a Win32 windowing backend, verified with Verus.

A window backend mostly asks the system and tells the system. In between it decides: what a window
message means, which key was pressed and what it types, how the text of an input method goes into a
text field, which entry of a menu was chosen, when a surface has to be configured again. Those
decisions are the library. They take plain values and give plain values, and each of them has a
contract that Verus proves.

- `src/message.rs`: window messages and their answers
- `src/window.rs`: the state of a window, and what it is created with
- `src/handle.rs`: what each operation on a window asks of the system
- `src/keyboard.rs`, `src/vk.rs`, `src/util.rs`: from virtual-key codes to keyboard events
- `src/input.rs`: modifiers, pointers and cursors
- `src/ime.rs`: editing keys, typed text and input methods
- `src/document.rs`: a model of a text field, and the laws of typing and composing on it
- `src/utf16.rs`, `src/offset.rs`: wide strings, and offsets into them
- `src/menu.rs`, `src/dialog.rs`: context menus, file dialogs and message boxes
- `src/launch.rs`, `src/frame.rs`: the stages of a launch and of a frame
- `src/std_text.rs`: contracts for two functions of the standard library

`app/` is the backend around the library: it makes the system calls. `tests/` runs the library on
concrete values.
