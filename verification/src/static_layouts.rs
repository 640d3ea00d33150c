//! Snapshots of the stock macOS keyboard layouts: for each virtual keycode (0–50), what
//! the key types with no modifier, with Shift, with Option, and with Option-Shift. An
//! empty string is a dead or unmapped key.

use vstd::prelude::*;

verus! {

/// macOS "ABC", the Latin side.
pub const ABC_KEYS: [(&'static str, &'static str, &'static str, &'static str); 51] = [
    ("a", "A", "å", "Å"), // 0
    ("s", "S", "ß", "Í"), // 1
    ("d", "D", "∂", "Î"), // 2
    ("f", "F", "ƒ", "Ï"), // 3
    ("h", "H", "˙", "Ó"), // 4
    ("g", "G", "©", "˝"), // 5
    ("z", "Z", "Ω", "¸"), // 6
    ("x", "X", "≈", "˛"), // 7
    ("c", "C", "ç", "Ç"), // 8
    ("v", "V", "√", "◊"), // 9
    ("§", "±", "§", "±"), // 10
    ("b", "B", "∫", "ı"), // 11
    ("q", "Q", "œ", "Œ"), // 12
    ("w", "W", "∑", "„"), // 13
    ("e", "E", "", "´"), // 14
    ("r", "R", "®", "‰"), // 15
    ("y", "Y", "¥", "Á"), // 16
    ("t", "T", "†", "ˇ"), // 17
    ("1", "!", "¡", "⁄"), // 18
    ("2", "@", "™", "€"), // 19
    ("3", "#", "£", "‹"), // 20
    ("4", "$", "¢", "›"), // 21
    ("6", "^", "§", "ﬁ"), // 22
    ("5", "%", "∞", "ﬂ"), // 23
    ("=", "+", "≠", "±"), // 24
    ("9", "(", "ª", "·"), // 25
    ("7", "&", "¶", "‡"), // 26
    ("-", "_", "–", "—"), // 27
    ("8", "*", "•", "°"), // 28
    ("0", ")", "º", "‚"), // 29
    ("]", "}", "‘", "’"), // 30
    ("o", "O", "ø", "Ø"), // 31
    ("u", "U", "", "¨"), // 32
    ("[", "{", "“", "”"), // 33
    ("i", "I", "", "ˆ"), // 34
    ("p", "P", "π", "∏"), // 35
    ("\r", "\r", "\r", "\r"), // 36
    ("l", "L", "¬", "Ò"), // 37
    ("j", "J", "∆", "Ô"), // 38
    ("'", "\"", "æ", "Æ"), // 39
    ("k", "K", "˚", "\u{f8ff}"), // 40
    (";", ":", "…", "Ú"), // 41
    ("\\", "|", "«", "»"), // 42
    (",", "<", "≤", "¯"), // 43
    ("/", "?", "÷", "¿"), // 44
    ("n", "N", "", "˜"), // 45
    ("m", "M", "µ", "Â"), // 46
    (".", ">", "≥", "˘"), // 47
    ("\t", "\t", "\t", "\t"), // 48
    (" ", " ", "\u{a0}", "\u{a0}"), // 49
    ("`", "~", "", "`"), // 50
];

/// macOS "Arabic" (no لا key).
pub const ARABIC_MAC_KEYS: [(&'static str, &'static str, &'static str, &'static str); 51] = [
    ("ش", "ء", "", ""), // 0
    ("س", "ئ", "", ""), // 1
    ("ي", "ى", "ی", ""), // 2
    ("ب", "إ", "", ""), // 3
    ("ا", "آ", "", ""), // 4
    ("ل", "أ", "گ", ""), // 5
    ("ظ", "»", "ژ", ""), // 6
    ("ط", "«", "", ""), // 7
    ("ذ", "ؤ", "", ""), // 8
    ("د", "\u{66c}", "", ""), // 9
    ("§", "±", "", ""), // 10
    ("ز", "\u{66b}", "", ""), // 11
    ("ض", "\u{64e}", "", ""), // 12
    ("ص", "\u{64b}", "", ""), // 13
    ("ث", "\u{650}", "", ""), // 14
    ("ق", "\u{64d}", "", ""), // 15
    ("غ", "\u{64c}", "", ""), // 16
    ("ف", "\u{64f}", "", ""), // 17
    ("\u{661}", "!", "", ""), // 18
    ("\u{662}", "@", "", ""), // 19
    ("\u{663}", "#", "", ""), // 20
    ("\u{664}", "$", "", ""), // 21
    ("\u{666}", "^", "", ""), // 22
    ("\u{665}", "\u{66a}", "", ""), // 23
    ("=", "+", "", ""), // 24
    ("\u{669}", ")", "", ""), // 25
    ("\u{667}", "&", "", ""), // 26
    ("-", "_", "", ""), // 27
    ("\u{668}", "*", "", ""), // 28
    ("\u{660}", "(", "", ""), // 29
    ("ة", "{", "", ""), // 30
    ("خ", "]", "", ""), // 31
    ("ع", "\u{652}", "", ""), // 32
    ("ج", "}", "", ""), // 33
    ("ه", "\u{651}", "", ""), // 34
    ("ح", "[", "پ", ""), // 35
    ("\r", "\r", "\r", "\r"), // 36
    ("م", "ـ", "", ""), // 37
    ("ت", "\u{670}", "چ", ""), // 38
    ("'", "\"", "", ""), // 39
    ("ن", "’", "ک", ""), // 40
    ("ك", ":", "", ""), // 41
    ("\\", "|", "", ""), // 42
    ("،", ">", "", ""), // 43
    ("/", "؟", "", ""), // 44
    ("ر", "÷", "", ""), // 45
    ("و", "×", "", ""), // 46
    (".", "<", "", ""), // 47
    ("\t", "\t", "\t", "\t"), // 48
    (" ", " ", "\u{a0}", "\u{a0}"), // 49
    ("`", "~", "", ""), // 50
];

/// macOS "Arabic – PC" (`B` types "لا").
pub const ARABIC_PC_KEYS: [(&'static str, &'static str, &'static str, &'static str); 51] = [
    ("ش", "\u{650}", "", ""), // 0
    ("س", "\u{64d}", "", ""), // 1
    ("ي", "]", "", ""), // 2
    ("ب", "[", "", ""), // 3
    ("ا", "أ", "", ""), // 4
    ("ل", "لأ", "گ", ""), // 5
    ("ئ", "~", "ژ", ""), // 6
    ("ء", "\u{652}", "", ""), // 7
    ("ؤ", "}", "", ""), // 8
    ("ر", "{", "", ""), // 9
    ("§", "±", "", ""), // 10
    ("لا", "لآ", "", ""), // 11
    ("ض", "\u{64e}", "", ""), // 12
    ("ص", "\u{64b}", "", ""), // 13
    ("ث", "\u{64f}", "", ""), // 14
    ("ق", "\u{64c}", "", ""), // 15
    ("غ", "إ", "", ""), // 16
    ("ف", "لإ", "", ""), // 17
    ("1", "!", "", ""), // 18
    ("2", "@", "", ""), // 19
    ("3", "#", "", ""), // 20
    ("4", "$", "", ""), // 21
    ("6", "^", "", ""), // 22
    ("5", "%", "", ""), // 23
    ("=", "+", "", ""), // 24
    ("9", ")", "", ""), // 25
    ("7", "&", "", ""), // 26
    ("-", "ـ", "", ""), // 27
    ("8", "*", "", ""), // 28
    ("0", "(", "", ""), // 29
    ("د", ">", "", ""), // 30
    ("خ", "×", "", ""), // 31
    ("ع", "‘", "", ""), // 32
    ("ج", "<", "", ""), // 33
    ("ه", "÷", "", ""), // 34
    ("ح", "؛", "پ", ""), // 35
    ("\r", "\r", "\r", "\r"), // 36
    ("م", "/", "", ""), // 37
    ("ت", "ـ", "چ", ""), // 38
    ("ط", "\"", "", ""), // 39
    ("ن", "،", "ک", ""), // 40
    ("ك", ":", "", ""), // 41
    ("\\", "|", "", ""), // 42
    ("و", ",", "", ""), // 43
    ("ظ", "؟", "", ""), // 44
    ("ى", "آ", "", ""), // 45
    ("ة", "’", "", ""), // 46
    ("ز", ".", "", ""), // 47
    ("\t", "\t", "\t", "\t"), // 48
    (" ", " ", "\u{a0}", "\u{a0}"), // 49
    ("ذ", "\u{651}", "", ""), // 50
];

} // verus!
