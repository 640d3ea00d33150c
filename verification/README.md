# baddel

Fixes text typed while the wrong keyboard layout was active (Arabic ⇄ Latin): every
character is mapped back through the physical key that produced it to what that key
types on the other layout.

- `src/` is the library, verified with Verus: the character map built from two layouts,
  the conversion and its word-by-word reading of ambiguous keys, the English word list,
  and the decisions the menu bar app takes around them — what to read and in which order,
  what replaces what, where the caret goes, when a conversion may be continued or undone,
  what the notice and the menu say, the preferences and their defaults, when to check for
  updates. `src/laws.rs` states what holds across functions.
- `tests/` runs the library on concrete inputs.
- `app/` is the macOS app around it: the Accessibility API, the pasteboard, synthetic
  keys, the native notice and menu, the webview windows, the update server and the
  preferences file. It performs the reads and writes the library's steps call for and
  hands back what they gave.
