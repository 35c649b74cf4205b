# JamesevIM

A small modal text editor. The editing core is a library that is proved correct with Verus;
the terminal program around it is ordinary Rust.

## Layout

- `src/text.rs`: text addressed by byte columns, and which columns stand between characters
- `src/format.rs`: numbers, padding and white space
- `src/document.rs`: the contents of a file as lines
- `src/keys.rs`, `src/command.rs`: key presses, modes, and the grammar of the command line
- `src/state.rs`: the model of the editor, and what each operation makes of it
- `src/editor.rs`, `src/input.rs`, `src/screen.rs`: the editor itself
- `src/consistency.rs`, `src/laws.rs`: what holds between any two keys, and what holds of
  several operations together
- `app/`: the program that reads keys, draws frames, and reads and writes files

## Columns

The cursor's column counts bytes, and the motions go one byte to the left or right. In a line
with characters outside ASCII a motion can therefore end inside a character. `Editor::accepts`
says whether a key can be handled where the cursor is; the program stops if it cannot.

## What is believed without proof

Besides what vstd says of the standard library, one thing: `String::push` appends the
character that it is given.
