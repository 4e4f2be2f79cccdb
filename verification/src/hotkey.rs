//! The key combination that sets a transfer off.
//!
//! A combination is written as its keys joined by `+`, as in `ctrl+shift+r`:
//! any number of modifiers and one key, in any order and in any case, with
//! white space allowed around each.

use crate::text::{
    lowercase, pieces, same_text, split, string_views, to_lowercase, trim, trimmed, views_of,
};
use global_hotkey::hotkey::{Code, HotKey, Modifiers};
use std::str::FromStr;
use vstd::prelude::*;
use vstd::string::*;

verus! {

/// The four modifiers that a combination may hold.
#[derive(Clone, Copy, Debug, PartialEq, Eq, Structural)]
pub enum Modifier {
    Control,
    Shift,
    Alt,
    Meta,
}

/// The keys that a combination may end in.
#[derive(Clone, Copy, Debug, PartialEq, Eq, Structural)]
pub enum KeyCode {
    KeyA,
    KeyB,
    KeyC,
    KeyD,
    KeyE,
    KeyF,
    KeyG,
    KeyH,
    KeyI,
    KeyJ,
    KeyK,
    KeyL,
    KeyM,
    KeyN,
    KeyO,
    KeyP,
    KeyQ,
    KeyR,
    KeyS,
    KeyT,
    KeyU,
    KeyV,
    KeyW,
    KeyX,
    KeyY,
    KeyZ,
    Digit0,
    Digit1,
    Digit2,
    Digit3,
    Digit4,
    Digit5,
    Digit6,
    Digit7,
    Digit8,
    Digit9,
    F1,
    F2,
    F3,
    F4,
    F5,
    F6,
    F7,
    F8,
    F9,
    F10,
    F11,
    F12,
}

/// What one piece of a combination names.
#[derive(Clone, Copy, Debug, PartialEq, Eq, Structural)]
pub enum Token {
    Modifier(Modifier),
    Key(KeyCode),
    Unknown,
}

/// The word that names `key` in a combination.
pub open spec fn key_token(key: KeyCode) -> Seq<char> {
    match key {
        KeyCode::KeyA => "a"@,
        KeyCode::KeyB => "b"@,
        KeyCode::KeyC => "c"@,
        KeyCode::KeyD => "d"@,
        KeyCode::KeyE => "e"@,
        KeyCode::KeyF => "f"@,
        KeyCode::KeyG => "g"@,
        KeyCode::KeyH => "h"@,
        KeyCode::KeyI => "i"@,
        KeyCode::KeyJ => "j"@,
        KeyCode::KeyK => "k"@,
        KeyCode::KeyL => "l"@,
        KeyCode::KeyM => "m"@,
        KeyCode::KeyN => "n"@,
        KeyCode::KeyO => "o"@,
        KeyCode::KeyP => "p"@,
        KeyCode::KeyQ => "q"@,
        KeyCode::KeyR => "r"@,
        KeyCode::KeyS => "s"@,
        KeyCode::KeyT => "t"@,
        KeyCode::KeyU => "u"@,
        KeyCode::KeyV => "v"@,
        KeyCode::KeyW => "w"@,
        KeyCode::KeyX => "x"@,
        KeyCode::KeyY => "y"@,
        KeyCode::KeyZ => "z"@,
        KeyCode::Digit0 => "0"@,
        KeyCode::Digit1 => "1"@,
        KeyCode::Digit2 => "2"@,
        KeyCode::Digit3 => "3"@,
        KeyCode::Digit4 => "4"@,
        KeyCode::Digit5 => "5"@,
        KeyCode::Digit6 => "6"@,
        KeyCode::Digit7 => "7"@,
        KeyCode::Digit8 => "8"@,
        KeyCode::Digit9 => "9"@,
        KeyCode::F1 => "f1"@,
        KeyCode::F2 => "f2"@,
        KeyCode::F3 => "f3"@,
        KeyCode::F4 => "f4"@,
        KeyCode::F5 => "f5"@,
        KeyCode::F6 => "f6"@,
        KeyCode::F7 => "f7"@,
        KeyCode::F8 => "f8"@,
        KeyCode::F9 => "f9"@,
        KeyCode::F10 => "f10"@,
        KeyCode::F11 => "f11"@,
        KeyCode::F12 => "f12"@,
    }
}

/// The name of `key` among the codes of physical keys.
pub open spec fn code_name(key: KeyCode) -> Seq<char> {
    match key {
        KeyCode::KeyA => "KeyA"@,
        KeyCode::KeyB => "KeyB"@,
        KeyCode::KeyC => "KeyC"@,
        KeyCode::KeyD => "KeyD"@,
        KeyCode::KeyE => "KeyE"@,
        KeyCode::KeyF => "KeyF"@,
        KeyCode::KeyG => "KeyG"@,
        KeyCode::KeyH => "KeyH"@,
        KeyCode::KeyI => "KeyI"@,
        KeyCode::KeyJ => "KeyJ"@,
        KeyCode::KeyK => "KeyK"@,
        KeyCode::KeyL => "KeyL"@,
        KeyCode::KeyM => "KeyM"@,
        KeyCode::KeyN => "KeyN"@,
        KeyCode::KeyO => "KeyO"@,
        KeyCode::KeyP => "KeyP"@,
        KeyCode::KeyQ => "KeyQ"@,
        KeyCode::KeyR => "KeyR"@,
        KeyCode::KeyS => "KeyS"@,
        KeyCode::KeyT => "KeyT"@,
        KeyCode::KeyU => "KeyU"@,
        KeyCode::KeyV => "KeyV"@,
        KeyCode::KeyW => "KeyW"@,
        KeyCode::KeyX => "KeyX"@,
        KeyCode::KeyY => "KeyY"@,
        KeyCode::KeyZ => "KeyZ"@,
        KeyCode::Digit0 => "Digit0"@,
        KeyCode::Digit1 => "Digit1"@,
        KeyCode::Digit2 => "Digit2"@,
        KeyCode::Digit3 => "Digit3"@,
        KeyCode::Digit4 => "Digit4"@,
        KeyCode::Digit5 => "Digit5"@,
        KeyCode::Digit6 => "Digit6"@,
        KeyCode::Digit7 => "Digit7"@,
        KeyCode::Digit8 => "Digit8"@,
        KeyCode::Digit9 => "Digit9"@,
        KeyCode::F1 => "F1"@,
        KeyCode::F2 => "F2"@,
        KeyCode::F3 => "F3"@,
        KeyCode::F4 => "F4"@,
        KeyCode::F5 => "F5"@,
        KeyCode::F6 => "F6"@,
        KeyCode::F7 => "F7"@,
        KeyCode::F8 => "F8"@,
        KeyCode::F9 => "F9"@,
        KeyCode::F10 => "F10"@,
        KeyCode::F11 => "F11"@,
        KeyCode::F12 => "F12"@,
    }
}

/// The modifier that `token` names, under any of its spellings.
pub open spec fn modifier_named(token: Seq<char>) -> Option<Modifier> {
    if token == "ctrl"@ || token == "control"@ {
        Some(Modifier::Control)
    } else if token == "shift"@ {
        Some(Modifier::Shift)
    } else if token == "alt"@ {
        Some(Modifier::Alt)
    } else if token == "meta"@ || token == "cmd"@ || token == "command"@ || token == "win"@
        || token == "windows"@ {
        Some(Modifier::Meta)
    } else {
        None
    }
}

/// The key whose word is `token`, if there is one.
pub open spec fn key_named(token: Seq<char>) -> Option<KeyCode> {
    if exists|key: KeyCode| key_token(key) == token {
        Some(choose|key: KeyCode| key_token(key) == token)
    } else {
        None
    }
}

/// What `token` names. A modifier's spelling is never taken for a key.
pub open spec fn token_kind(token: Seq<char>) -> Token {
    match modifier_named(token) {
        Some(modifier) => Token::Modifier(modifier),
        None => match key_named(token) {
            Some(key) => Token::Key(key),
            None => Token::Unknown,
        },
    }
}

/// The key that a word spells, read off its characters: the only character
/// of a word of one, the second of a word of two, the third of a longer one.
spec fn spelled(word: Seq<char>) -> KeyCode {
    if word.len() == 1 {
        match word[0] {
            'a' => KeyCode::KeyA,
            'b' => KeyCode::KeyB,
            'c' => KeyCode::KeyC,
            'd' => KeyCode::KeyD,
            'e' => KeyCode::KeyE,
            'f' => KeyCode::KeyF,
            'g' => KeyCode::KeyG,
            'h' => KeyCode::KeyH,
            'i' => KeyCode::KeyI,
            'j' => KeyCode::KeyJ,
            'k' => KeyCode::KeyK,
            'l' => KeyCode::KeyL,
            'm' => KeyCode::KeyM,
            'n' => KeyCode::KeyN,
            'o' => KeyCode::KeyO,
            'p' => KeyCode::KeyP,
            'q' => KeyCode::KeyQ,
            'r' => KeyCode::KeyR,
            's' => KeyCode::KeyS,
            't' => KeyCode::KeyT,
            'u' => KeyCode::KeyU,
            'v' => KeyCode::KeyV,
            'w' => KeyCode::KeyW,
            'x' => KeyCode::KeyX,
            'y' => KeyCode::KeyY,
            'z' => KeyCode::KeyZ,
            '0' => KeyCode::Digit0,
            '1' => KeyCode::Digit1,
            '2' => KeyCode::Digit2,
            '3' => KeyCode::Digit3,
            '4' => KeyCode::Digit4,
            '5' => KeyCode::Digit5,
            '6' => KeyCode::Digit6,
            '7' => KeyCode::Digit7,
            '8' => KeyCode::Digit8,
            '9' => KeyCode::Digit9,
            _ => KeyCode::KeyA,
        }
    } else if word.len() == 2 {
        match word[1] {
            '1' => KeyCode::F1,
            '2' => KeyCode::F2,
            '3' => KeyCode::F3,
            '4' => KeyCode::F4,
            '5' => KeyCode::F5,
            '6' => KeyCode::F6,
            '7' => KeyCode::F7,
            '8' => KeyCode::F8,
            '9' => KeyCode::F9,
            _ => KeyCode::F1,
        }
    } else {
        match word[2] {
            '0' => KeyCode::F10,
            '1' => KeyCode::F11,
            _ => KeyCode::F12,
        }
    }
}

/// Every key's word spells that key.
proof fn lemma_word_spells_key(key: KeyCode)
    ensures
        spelled(key_token(key)) == key,
{
    reveal_strlit("a");
    reveal_strlit("b");
    reveal_strlit("c");
    reveal_strlit("d");
    reveal_strlit("e");
    reveal_strlit("f");
    reveal_strlit("g");
    reveal_strlit("h");
    reveal_strlit("i");
    reveal_strlit("j");
    reveal_strlit("k");
    reveal_strlit("l");
    reveal_strlit("m");
    reveal_strlit("n");
    reveal_strlit("o");
    reveal_strlit("p");
    reveal_strlit("q");
    reveal_strlit("r");
    reveal_strlit("s");
    reveal_strlit("t");
    reveal_strlit("u");
    reveal_strlit("v");
    reveal_strlit("w");
    reveal_strlit("x");
    reveal_strlit("y");
    reveal_strlit("z");
    reveal_strlit("0");
    reveal_strlit("1");
    reveal_strlit("2");
    reveal_strlit("3");
    reveal_strlit("4");
    reveal_strlit("5");
    reveal_strlit("6");
    reveal_strlit("7");
    reveal_strlit("8");
    reveal_strlit("9");
    reveal_strlit("f1");
    reveal_strlit("f2");
    reveal_strlit("f3");
    reveal_strlit("f4");
    reveal_strlit("f5");
    reveal_strlit("f6");
    reveal_strlit("f7");
    reveal_strlit("f8");
    reveal_strlit("f9");
    reveal_strlit("f10");
    reveal_strlit("f11");
    reveal_strlit("f12");
}

/// No two keys share a word.
pub proof fn lemma_key_tokens_differ(a: KeyCode, b: KeyCode)
    requires
        key_token(a) == key_token(b),
    ensures
        a == b,
{
    lemma_word_spells_key(a);
    lemma_word_spells_key(b);
}

/// A key's word names that key.
pub proof fn lemma_key_named_by_its_token(key: KeyCode)
    ensures
        key_named(key_token(key)) == Some(key),
{
    let found = choose|other: KeyCode| key_token(other) == key_token(key);
    lemma_key_tokens_differ(found, key);
}

impl KeyCode {
    /// The word that names this key in a combination.
    pub fn token(self) -> (word: &'static str)
        ensures
            word@ == key_token(self),
    {
        match self {
            KeyCode::KeyA => "a",
            KeyCode::KeyB => "b",
            KeyCode::KeyC => "c",
            KeyCode::KeyD => "d",
            KeyCode::KeyE => "e",
            KeyCode::KeyF => "f",
            KeyCode::KeyG => "g",
            KeyCode::KeyH => "h",
            KeyCode::KeyI => "i",
            KeyCode::KeyJ => "j",
            KeyCode::KeyK => "k",
            KeyCode::KeyL => "l",
            KeyCode::KeyM => "m",
            KeyCode::KeyN => "n",
            KeyCode::KeyO => "o",
            KeyCode::KeyP => "p",
            KeyCode::KeyQ => "q",
            KeyCode::KeyR => "r",
            KeyCode::KeyS => "s",
            KeyCode::KeyT => "t",
            KeyCode::KeyU => "u",
            KeyCode::KeyV => "v",
            KeyCode::KeyW => "w",
            KeyCode::KeyX => "x",
            KeyCode::KeyY => "y",
            KeyCode::KeyZ => "z",
            KeyCode::Digit0 => "0",
            KeyCode::Digit1 => "1",
            KeyCode::Digit2 => "2",
            KeyCode::Digit3 => "3",
            KeyCode::Digit4 => "4",
            KeyCode::Digit5 => "5",
            KeyCode::Digit6 => "6",
            KeyCode::Digit7 => "7",
            KeyCode::Digit8 => "8",
            KeyCode::Digit9 => "9",
            KeyCode::F1 => "f1",
            KeyCode::F2 => "f2",
            KeyCode::F3 => "f3",
            KeyCode::F4 => "f4",
            KeyCode::F5 => "f5",
            KeyCode::F6 => "f6",
            KeyCode::F7 => "f7",
            KeyCode::F8 => "f8",
            KeyCode::F9 => "f9",
            KeyCode::F10 => "f10",
            KeyCode::F11 => "f11",
            KeyCode::F12 => "f12",
        }
    }

    /// The name of this key among the codes of physical keys.
    pub fn name(self) -> (name: &'static str)
        ensures
            name@ == code_name(self),
    {
        match self {
            KeyCode::KeyA => "KeyA",
            KeyCode::KeyB => "KeyB",
            KeyCode::KeyC => "KeyC",
            KeyCode::KeyD => "KeyD",
            KeyCode::KeyE => "KeyE",
            KeyCode::KeyF => "KeyF",
            KeyCode::KeyG => "KeyG",
            KeyCode::KeyH => "KeyH",
            KeyCode::KeyI => "KeyI",
            KeyCode::KeyJ => "KeyJ",
            KeyCode::KeyK => "KeyK",
            KeyCode::KeyL => "KeyL",
            KeyCode::KeyM => "KeyM",
            KeyCode::KeyN => "KeyN",
            KeyCode::KeyO => "KeyO",
            KeyCode::KeyP => "KeyP",
            KeyCode::KeyQ => "KeyQ",
            KeyCode::KeyR => "KeyR",
            KeyCode::KeyS => "KeyS",
            KeyCode::KeyT => "KeyT",
            KeyCode::KeyU => "KeyU",
            KeyCode::KeyV => "KeyV",
            KeyCode::KeyW => "KeyW",
            KeyCode::KeyX => "KeyX",
            KeyCode::KeyY => "KeyY",
            KeyCode::KeyZ => "KeyZ",
            KeyCode::Digit0 => "Digit0",
            KeyCode::Digit1 => "Digit1",
            KeyCode::Digit2 => "Digit2",
            KeyCode::Digit3 => "Digit3",
            KeyCode::Digit4 => "Digit4",
            KeyCode::Digit5 => "Digit5",
            KeyCode::Digit6 => "Digit6",
            KeyCode::Digit7 => "Digit7",
            KeyCode::Digit8 => "Digit8",
            KeyCode::Digit9 => "Digit9",
            KeyCode::F1 => "F1",
            KeyCode::F2 => "F2",
            KeyCode::F3 => "F3",
            KeyCode::F4 => "F4",
            KeyCode::F5 => "F5",
            KeyCode::F6 => "F6",
            KeyCode::F7 => "F7",
            KeyCode::F8 => "F8",
            KeyCode::F9 => "F9",
            KeyCode::F10 => "F10",
            KeyCode::F11 => "F11",
            KeyCode::F12 => "F12",
        }
    }
}

/// The modifier that `token` names.
pub fn modifier_from_token(token: &str) -> (modifier: Option<Modifier>)
    ensures
        modifier == modifier_named(token@),
{
    if same_text(token, "ctrl") || same_text(token, "control") {
        Some(Modifier::Control)
    } else if same_text(token, "shift") {
        Some(Modifier::Shift)
    } else if same_text(token, "alt") {
        Some(Modifier::Alt)
    } else if same_text(token, "meta") || same_text(token, "cmd") || same_text(token, "command")
        || same_text(token, "win") || same_text(token, "windows") {
        Some(Modifier::Meta)
    } else {
        None
    }
}

/// The key that `token` names.
pub fn key_from_token(token: &str) -> (key: Option<KeyCode>)
    ensures
        key == key_named(token@),
{
    if same_text(token, "a") {
        proof {
            lemma_key_named_by_its_token(KeyCode::KeyA);
        }
        return Some(KeyCode::KeyA);
    }
    if same_text(token, "b") {
        proof {
            lemma_key_named_by_its_token(KeyCode::KeyB);
        }
        return Some(KeyCode::KeyB);
    }
    if same_text(token, "c") {
        proof {
            lemma_key_named_by_its_token(KeyCode::KeyC);
        }
        return Some(KeyCode::KeyC);
    }
    if same_text(token, "d") {
        proof {
            lemma_key_named_by_its_token(KeyCode::KeyD);
        }
        return Some(KeyCode::KeyD);
    }
    if same_text(token, "e") {
        proof {
            lemma_key_named_by_its_token(KeyCode::KeyE);
        }
        return Some(KeyCode::KeyE);
    }
    if same_text(token, "f") {
        proof {
            lemma_key_named_by_its_token(KeyCode::KeyF);
        }
        return Some(KeyCode::KeyF);
    }
    if same_text(token, "g") {
        proof {
            lemma_key_named_by_its_token(KeyCode::KeyG);
        }
        return Some(KeyCode::KeyG);
    }
    if same_text(token, "h") {
        proof {
            lemma_key_named_by_its_token(KeyCode::KeyH);
        }
        return Some(KeyCode::KeyH);
    }
    if same_text(token, "i") {
        proof {
            lemma_key_named_by_its_token(KeyCode::KeyI);
        }
        return Some(KeyCode::KeyI);
    }
    if same_text(token, "j") {
        proof {
            lemma_key_named_by_its_token(KeyCode::KeyJ);
        }
        return Some(KeyCode::KeyJ);
    }
    if same_text(token, "k") {
        proof {
            lemma_key_named_by_its_token(KeyCode::KeyK);
        }
        return Some(KeyCode::KeyK);
    }
    if same_text(token, "l") {
        proof {
            lemma_key_named_by_its_token(KeyCode::KeyL);
        }
        return Some(KeyCode::KeyL);
    }
    if same_text(token, "m") {
        proof {
            lemma_key_named_by_its_token(KeyCode::KeyM);
        }
        return Some(KeyCode::KeyM);
    }
    if same_text(token, "n") {
        proof {
            lemma_key_named_by_its_token(KeyCode::KeyN);
        }
        return Some(KeyCode::KeyN);
    }
    if same_text(token, "o") {
        proof {
            lemma_key_named_by_its_token(KeyCode::KeyO);
        }
        return Some(KeyCode::KeyO);
    }
    if same_text(token, "p") {
        proof {
            lemma_key_named_by_its_token(KeyCode::KeyP);
        }
        return Some(KeyCode::KeyP);
    }
    if same_text(token, "q") {
        proof {
            lemma_key_named_by_its_token(KeyCode::KeyQ);
        }
        return Some(KeyCode::KeyQ);
    }
    if same_text(token, "r") {
        proof {
            lemma_key_named_by_its_token(KeyCode::KeyR);
        }
        return Some(KeyCode::KeyR);
    }
    if same_text(token, "s") {
        proof {
            lemma_key_named_by_its_token(KeyCode::KeyS);
        }
        return Some(KeyCode::KeyS);
    }
    if same_text(token, "t") {
        proof {
            lemma_key_named_by_its_token(KeyCode::KeyT);
        }
        return Some(KeyCode::KeyT);
    }
    if same_text(token, "u") {
        proof {
            lemma_key_named_by_its_token(KeyCode::KeyU);
        }
        return Some(KeyCode::KeyU);
    }
    if same_text(token, "v") {
        proof {
            lemma_key_named_by_its_token(KeyCode::KeyV);
        }
        return Some(KeyCode::KeyV);
    }
    if same_text(token, "w") {
        proof {
            lemma_key_named_by_its_token(KeyCode::KeyW);
        }
        return Some(KeyCode::KeyW);
    }
    if same_text(token, "x") {
        proof {
            lemma_key_named_by_its_token(KeyCode::KeyX);
        }
        return Some(KeyCode::KeyX);
    }
    if same_text(token, "y") {
        proof {
            lemma_key_named_by_its_token(KeyCode::KeyY);
        }
        return Some(KeyCode::KeyY);
    }
    if same_text(token, "z") {
        proof {
            lemma_key_named_by_its_token(KeyCode::KeyZ);
        }
        return Some(KeyCode::KeyZ);
    }
    if same_text(token, "0") {
        proof {
            lemma_key_named_by_its_token(KeyCode::Digit0);
        }
        return Some(KeyCode::Digit0);
    }
    if same_text(token, "1") {
        proof {
            lemma_key_named_by_its_token(KeyCode::Digit1);
        }
        return Some(KeyCode::Digit1);
    }
    if same_text(token, "2") {
        proof {
            lemma_key_named_by_its_token(KeyCode::Digit2);
        }
        return Some(KeyCode::Digit2);
    }
    if same_text(token, "3") {
        proof {
            lemma_key_named_by_its_token(KeyCode::Digit3);
        }
        return Some(KeyCode::Digit3);
    }
    if same_text(token, "4") {
        proof {
            lemma_key_named_by_its_token(KeyCode::Digit4);
        }
        return Some(KeyCode::Digit4);
    }
    if same_text(token, "5") {
        proof {
            lemma_key_named_by_its_token(KeyCode::Digit5);
        }
        return Some(KeyCode::Digit5);
    }
    if same_text(token, "6") {
        proof {
            lemma_key_named_by_its_token(KeyCode::Digit6);
        }
        return Some(KeyCode::Digit6);
    }
    if same_text(token, "7") {
        proof {
            lemma_key_named_by_its_token(KeyCode::Digit7);
        }
        return Some(KeyCode::Digit7);
    }
    if same_text(token, "8") {
        proof {
            lemma_key_named_by_its_token(KeyCode::Digit8);
        }
        return Some(KeyCode::Digit8);
    }
    if same_text(token, "9") {
        proof {
            lemma_key_named_by_its_token(KeyCode::Digit9);
        }
        return Some(KeyCode::Digit9);
    }
    if same_text(token, "f1") {
        proof {
            lemma_key_named_by_its_token(KeyCode::F1);
        }
        return Some(KeyCode::F1);
    }
    if same_text(token, "f2") {
        proof {
            lemma_key_named_by_its_token(KeyCode::F2);
        }
        return Some(KeyCode::F2);
    }
    if same_text(token, "f3") {
        proof {
            lemma_key_named_by_its_token(KeyCode::F3);
        }
        return Some(KeyCode::F3);
    }
    if same_text(token, "f4") {
        proof {
            lemma_key_named_by_its_token(KeyCode::F4);
        }
        return Some(KeyCode::F4);
    }
    if same_text(token, "f5") {
        proof {
            lemma_key_named_by_its_token(KeyCode::F5);
        }
        return Some(KeyCode::F5);
    }
    if same_text(token, "f6") {
        proof {
            lemma_key_named_by_its_token(KeyCode::F6);
        }
        return Some(KeyCode::F6);
    }
    if same_text(token, "f7") {
        proof {
            lemma_key_named_by_its_token(KeyCode::F7);
        }
        return Some(KeyCode::F7);
    }
    if same_text(token, "f8") {
        proof {
            lemma_key_named_by_its_token(KeyCode::F8);
        }
        return Some(KeyCode::F8);
    }
    if same_text(token, "f9") {
        proof {
            lemma_key_named_by_its_token(KeyCode::F9);
        }
        return Some(KeyCode::F9);
    }
    if same_text(token, "f10") {
        proof {
            lemma_key_named_by_its_token(KeyCode::F10);
        }
        return Some(KeyCode::F10);
    }
    if same_text(token, "f11") {
        proof {
            lemma_key_named_by_its_token(KeyCode::F11);
        }
        return Some(KeyCode::F11);
    }
    if same_text(token, "f12") {
        proof {
            lemma_key_named_by_its_token(KeyCode::F12);
        }
        return Some(KeyCode::F12);
    }
    None
}

/// What `token` names.
pub fn classify(token: &str) -> (kind: Token)
    ensures
        kind == token_kind(token@),
{
    match modifier_from_token(token) {
        Some(modifier) => Token::Modifier(modifier),
        None => match key_from_token(token) {
            Some(key) => Token::Key(key),
            None => Token::Unknown,
        },
    }
}

/// A set of modifiers.
#[derive(Clone, Copy, Debug, PartialEq, Eq, Structural)]
pub struct ModifierSet {
    pub control: bool,
    pub shift: bool,
    pub alt: bool,
    pub meta: bool,
}

impl ModifierSet {
    /// True if `modifier` is in the set.
    pub open spec fn has(self, modifier: Modifier) -> bool {
        match modifier {
            Modifier::Control => self.control,
            Modifier::Shift => self.shift,
            Modifier::Alt => self.alt,
            Modifier::Meta => self.meta,
        }
    }

    /// The set without any modifier.
    pub fn empty() -> (set: ModifierSet)
        ensures
            set == (ModifierSet { control: false, shift: false, alt: false, meta: false }),
    {
        ModifierSet { control: false, shift: false, alt: false, meta: false }
    }

    /// True if `modifier` is in the set.
    pub fn contains(self, modifier: Modifier) -> (found: bool)
        ensures
            found == self.has(modifier),
    {
        match modifier {
            Modifier::Control => self.control,
            Modifier::Shift => self.shift,
            Modifier::Alt => self.alt,
            Modifier::Meta => self.meta,
        }
    }

    /// The set with `modifier` added to it.
    pub fn with(self, modifier: Modifier) -> (set: ModifierSet)
        ensures
            forall|other: Modifier| set.has(other) == (self.has(other) || other == modifier),
    {
        match modifier {
            Modifier::Control => ModifierSet { control: true, ..self },
            Modifier::Shift => ModifierSet { shift: true, ..self },
            Modifier::Alt => ModifierSet { alt: true, ..self },
            Modifier::Meta => ModifierSet { meta: true, ..self },
        }
    }
}

/// Modifiers and the one key they go with.
#[derive(Clone, Copy, Debug, PartialEq, Eq, Structural)]
pub struct KeyCombination {
    pub modifiers: ModifierSet,
    pub key: KeyCode,
}

/// Why a text is not a key combination.
#[derive(Clone, Debug, PartialEq, Eq)]
pub enum ParseError {
    /// A piece that names neither a modifier nor a key.
    UnknownKey(String),
    /// No piece names a key.
    MissingKey,
    /// The key has no code that a hotkey could be registered under.
    UnsupportedKey(KeyCode),
}

/// A `ParseError` as contracts speak of it.
pub enum ParseFailure {
    UnknownKey(Seq<char>),
    MissingKey,
    UnsupportedKey(KeyCode),
}

impl View for ParseError {
    type V = ParseFailure;

    open spec fn view(&self) -> ParseFailure {
        match *self {
            ParseError::UnknownKey(word) => ParseFailure::UnknownKey(word@),
            ParseError::MissingKey => ParseFailure::MissingKey,
            ParseError::UnsupportedKey(key) => ParseFailure::UnsupportedKey(key),
        }
    }
}

/// What the piece at `i` names.
pub open spec fn kind_at(tokens: Seq<Seq<char>>, i: int) -> Token {
    token_kind(tokens[i])
}

/// True if every one of the first `upto` pieces names something.
pub open spec fn all_known(tokens: Seq<Seq<char>>, upto: int) -> bool {
    forall|i: int| 0 <= i < upto ==> !(#[trigger] kind_at(tokens, i) is Unknown)
}

/// True if none of the first `upto` pieces names a key.
pub open spec fn has_no_key(tokens: Seq<Seq<char>>, upto: int) -> bool {
    forall|i: int| 0 <= i < upto ==> !(#[trigger] kind_at(tokens, i) is Key)
}

/// True if one of the first `upto` pieces names `modifier`.
pub open spec fn names_modifier(tokens: Seq<Seq<char>>, upto: int, modifier: Modifier) -> bool {
    exists|i: int| 0 <= i < upto && #[trigger] kind_at(tokens, i) == Token::Modifier(modifier)
}

/// True if, of the first `upto` pieces, the one at `i` is the last to name
/// a key, and names `key`.
pub open spec fn is_last_key(tokens: Seq<Seq<char>>, upto: int, i: int, key: KeyCode) -> bool {
    &&& 0 <= i < upto
    &&& kind_at(tokens, i) == Token::Key(key)
    &&& forall|j: int| i < j < upto ==> !(#[trigger] kind_at(tokens, j) is Key)
}

/// True if the piece at `i` is the first that names nothing.
pub open spec fn is_first_unknown(tokens: Seq<Seq<char>>, i: int) -> bool {
    &&& 0 <= i < tokens.len()
    &&& kind_at(tokens, i) is Unknown
    &&& all_known(tokens, i)
}

/// True if `modifiers` holds exactly the modifiers that the first `upto`
/// pieces name.
pub open spec fn gathers(modifiers: ModifierSet, tokens: Seq<Seq<char>>, upto: int) -> bool {
    &&& modifiers.control == names_modifier(tokens, upto, Modifier::Control)
    &&& modifiers.shift == names_modifier(tokens, upto, Modifier::Shift)
    &&& modifiers.alt == names_modifier(tokens, upto, Modifier::Alt)
    &&& modifiers.meta == names_modifier(tokens, upto, Modifier::Meta)
}

/// What a sequence of pieces, each trimmed and in lower case, comes to.
///
/// The first piece that names nothing is the error. Otherwise the
/// combination holds every modifier that is named, however often, and the
/// key that is named last; without a key there is no combination.
pub open spec fn parses_as(
    tokens: Seq<Seq<char>>,
    result: Result<KeyCombination, ParseFailure>,
) -> bool {
    match result {
        Ok(combination) => {
            &&& all_known(tokens, tokens.len() as int)
            &&& exists|i: int| #[trigger]
                is_last_key(tokens, tokens.len() as int, i, combination.key)
            &&& gathers(combination.modifiers, tokens, tokens.len() as int)
        },
        Err(ParseFailure::UnknownKey(word)) => exists|i: int| #[trigger]
            is_first_unknown(tokens, i) && tokens[i] == word,
        Err(ParseFailure::MissingKey) => {
            &&& all_known(tokens, tokens.len() as int)
            &&& has_no_key(tokens, tokens.len() as int)
        },
        Err(ParseFailure::UnsupportedKey(_)) => false,
    }
}

/// A sequence of pieces comes to one result only.
pub proof fn lemma_parse_is_determined(
    tokens: Seq<Seq<char>>,
    a: Result<KeyCombination, ParseFailure>,
    b: Result<KeyCombination, ParseFailure>,
)
    requires
        parses_as(tokens, a),
        parses_as(tokens, b),
    ensures
        a == b,
{
    let n = tokens.len() as int;
    match (a, b) {
        (Ok(x), Ok(y)) => {
            let i = choose|i: int| #[trigger] is_last_key(tokens, n, i, x.key);
            let j = choose|j: int| #[trigger] is_last_key(tokens, n, j, y.key);
            assert(i == j) by {
                if i < j {
                    assert(kind_at(tokens, j) is Key);
                } else if j < i {
                    assert(kind_at(tokens, i) is Key);
                }
            }
        },
        (Err(ParseFailure::UnknownKey(v)), Err(ParseFailure::UnknownKey(w))) => {
            let i = choose|i: int| #[trigger] is_first_unknown(tokens, i) && tokens[i] == v;
            let j = choose|j: int| #[trigger] is_first_unknown(tokens, j) && tokens[j] == w;
            assert(i == j) by {
                if i < j {
                    assert(kind_at(tokens, i) is Unknown);
                } else if j < i {
                    assert(kind_at(tokens, j) is Unknown);
                }
            }
            assert(v =~= w);
        },
        (Ok(x), Err(ParseFailure::UnknownKey(w))) => {
            let j = choose|j: int| #[trigger] is_first_unknown(tokens, j) && tokens[j] == w;
            assert(kind_at(tokens, j) is Unknown);
        },
        (Err(ParseFailure::UnknownKey(v)), Ok(y)) => {
            let i = choose|i: int| #[trigger] is_first_unknown(tokens, i) && tokens[i] == v;
            assert(kind_at(tokens, i) is Unknown);
        },
        (Ok(x), Err(ParseFailure::MissingKey)) => {
            let i = choose|i: int| #[trigger] is_last_key(tokens, n, i, x.key);
            assert(kind_at(tokens, i) is Key);
        },
        (Err(ParseFailure::MissingKey), Ok(y)) => {
            let j = choose|j: int| #[trigger] is_last_key(tokens, n, j, y.key);
            assert(kind_at(tokens, j) is Key);
        },
        (Err(ParseFailure::UnknownKey(v)), Err(ParseFailure::MissingKey)) => {
            let i = choose|i: int| #[trigger] is_first_unknown(tokens, i) && tokens[i] == v;
            assert(kind_at(tokens, i) is Unknown);
        },
        (Err(ParseFailure::MissingKey), Err(ParseFailure::UnknownKey(w))) => {
            let j = choose|j: int| #[trigger] is_first_unknown(tokens, j) && tokens[j] == w;
            assert(kind_at(tokens, j) is Unknown);
        },
        _ => {},
    }
}

/// Puts together the combination that `tokens` name.
pub fn parse_tokens(tokens: &Vec<String>) -> (result: Result<KeyCombination, ParseError>)
    ensures
        match result {
            Ok(combination) => parses_as(
                string_views(tokens@),
                Ok::<KeyCombination, ParseFailure>(combination),
            ),
            Err(error) => parses_as(
                string_views(tokens@),
                Err::<KeyCombination, ParseFailure>(error@),
            ),
        },
{
    let ghost words = string_views(tokens@);
    let mut modifiers = ModifierSet::empty();
    let mut key: Option<KeyCode> = None;
    let mut i: usize = 0;
    while i < tokens.len()
        invariant
            i <= tokens@.len(),
            words == string_views(tokens@),
            all_known(words, i as int),
            gathers(modifiers, words, i as int),
            match key {
                Some(found) => exists|j: int| #[trigger] is_last_key(words, i as int, j, found),
                None => has_no_key(words, i as int),
            },
        decreases tokens@.len() - i,
    {
        let token = &tokens[i];
        assert(words[i as int] == token@);
        let kind = classify(token.as_str());
        assert(kind == kind_at(words, i as int));
        match kind {
            Token::Modifier(modifier) => {
                let ghost before = modifiers;
                modifiers = modifiers.with(modifier);
                proof {
                    assert forall|other: Modifier|
                        names_modifier(words, i + 1, other) == (names_modifier(
                            words,
                            i as int,
                            other,
                        ) || other == modifier) by {
                        if names_modifier(words, i + 1, other) {
                            let at = choose|at: int|
                                0 <= at < i + 1 && #[trigger] kind_at(words, at)
                                    == Token::Modifier(other);
                            if at < i {
                                assert(names_modifier(words, i as int, other));
                            }
                        }
                        if names_modifier(words, i as int, other) {
                            let at = choose|at: int|
                                0 <= at < i && #[trigger] kind_at(words, at) == Token::Modifier(
                                    other,
                                );
                            assert(0 <= at < i + 1);
                        }
                    }
                    assert(modifiers.has(Modifier::Control) == (before.has(Modifier::Control)
                        || Modifier::Control == modifier));
                    assert(modifiers.has(Modifier::Shift) == (before.has(Modifier::Shift)
                        || Modifier::Shift == modifier));
                    assert(modifiers.has(Modifier::Alt) == (before.has(Modifier::Alt)
                        || Modifier::Alt == modifier));
                    assert(modifiers.has(Modifier::Meta) == (before.has(Modifier::Meta)
                        || Modifier::Meta == modifier));
                    match key {
                        Some(found) => {
                            let j = choose|j: int| #[trigger]
                                is_last_key(words, i as int, j, found);
                            assert(is_last_key(words, i + 1, j, found));
                        },
                        None => {},
                    }
                }
            },
            Token::Key(found) => {
                key = Some(found);
                proof {
                    assert(is_last_key(words, i + 1, i as int, found));
                    lemma_modifiers_unchanged(words, i as int);
                }
            },
            Token::Unknown => {
                proof {
                    assert(is_first_unknown(words, i as int));
                }
                return Err(ParseError::UnknownKey(token.clone()));
            },
        }
        i = i + 1;
    }
    assert(words.len() == tokens@.len());
    match key {
        Some(key) => Ok(KeyCombination { modifiers, key }),
        None => Err(ParseError::MissingKey),
    }
}

/// A piece that names no modifier adds none.
proof fn lemma_modifiers_unchanged(tokens: Seq<Seq<char>>, i: int)
    requires
        !(kind_at(tokens, i) is Modifier),
    ensures
        forall|modifier: Modifier|
            names_modifier(tokens, i + 1, modifier) == names_modifier(tokens, i, modifier),
{
    assert forall|modifier: Modifier|
        names_modifier(tokens, i + 1, modifier) == names_modifier(tokens, i, modifier) by {
        if names_modifier(tokens, i + 1, modifier) {
            let at = choose|at: int|
                0 <= at < i + 1 && #[trigger] kind_at(tokens, at) == Token::Modifier(modifier);
            assert(at < i);
        }
        if names_modifier(tokens, i, modifier) {
            let at = choose|at: int|
                0 <= at < i && #[trigger] kind_at(tokens, at) == Token::Modifier(modifier);
            assert(0 <= at < i + 1);
        }
    }
}

/// A piece as the parser reads it: trimmed, then in lower case.
pub open spec fn normal_form(piece: Seq<char>) -> Seq<char> {
    lowercase(trimmed(piece))
}

/// The pieces of `text` between its `+` signs, each in normal form.
pub open spec fn hotkey_tokens(text: Seq<char>) -> Seq<Seq<char>> {
    Seq::new(pieces(text, '+').len(), |i: int| normal_form(pieces(text, '+')[i]))
}

/// Cuts `text` at every `+` and brings each piece into normal form.
pub fn tokens_of(text: &str) -> (tokens: Vec<String>)
    ensures
        string_views(tokens@) == hotkey_tokens(text@),
{
    let parts = split(text, '+');
    let mut tokens: Vec<String> = Vec::new();
    let mut i: usize = 0;
    while i < parts.len()
        invariant
            i <= parts@.len(),
            tokens@.len() == i,
            views_of(parts@) == pieces(text@, '+'),
            forall|j: int| 0 <= j < i ==> (#[trigger] tokens@[j])@ == normal_form(parts@[j]@),
        decreases parts@.len() - i,
    {
        let token = to_lowercase(trim(parts[i]));
        tokens.push(token);
        i = i + 1;
    }
    assert(string_views(tokens@) =~= hotkey_tokens(text@)) by {
        assert(views_of(parts@).len() == parts@.len());
        assert forall|j: int| 0 <= j < parts@.len() implies string_views(tokens@)[j]
            == hotkey_tokens(text@)[j] by {
            assert(views_of(parts@)[j] == parts@[j]@);
        }
    }
    tokens
}

/// The identifier that `HotKey::new` of the global-hotkey crate gives to the
/// combination of these modifiers with the key that `Code::from_str` reads
/// from `code`; `None` if it reads no key from it.
pub uninterp spec fn hotkey_id_of(
    control: bool,
    shift: bool,
    alt: bool,
    meta: bool,
    code: Seq<char>,
) -> Option<u32>;

/// `HotKey::new(..).id()` of the global-hotkey crate, for the key that
/// `Code::from_str` reads from `code`.
///
/// Trusted: the identifier is computed from the modifier bits and the key
/// code, and from nothing else.
#[verifier::external_body]
fn hotkey_id(control: bool, shift: bool, alt: bool, meta: bool, code: &str) -> (id: Option<u32>)
    ensures
        id == hotkey_id_of(control, shift, alt, meta, code@),
{
    let mut modifiers = Modifiers::empty();
    modifiers.set(Modifiers::CONTROL, control);
    modifiers.set(Modifiers::SHIFT, shift);
    modifiers.set(Modifiers::ALT, alt);
    modifiers.set(Modifiers::META, meta);
    match Code::from_str(code) {
        Ok(key) => Some(HotKey::new(Some(modifiers), key).id()),
        Err(_) => None,
    }
}

/// The identifier under which `combination` is registered, if its key can
/// be registered at all.
pub open spec fn binding_id(combination: KeyCombination) -> Option<u32> {
    hotkey_id_of(
        combination.modifiers.control,
        combination.modifiers.shift,
        combination.modifiers.alt,
        combination.modifiers.meta,
        code_name(combination.key),
    )
}

/// A key combination together with the identifier that the events of the
/// hotkey source carry for it.
#[derive(Clone, Copy, Debug, PartialEq, Eq, Structural)]
pub struct HotkeyBinding {
    pub modifiers: ModifierSet,
    pub key: KeyCode,
    pub id: u32,
}

impl HotkeyBinding {
    /// The combination that is bound.
    pub open spec fn combination(self) -> KeyCombination {
        KeyCombination { modifiers: self.modifiers, key: self.key }
    }

    /// The binding of `combination` under the identifier `id`.
    pub fn new(combination: KeyCombination, id: u32) -> (binding: HotkeyBinding)
        ensures
            binding.combination() == combination,
            binding.id == id,
    {
        HotkeyBinding { modifiers: combination.modifiers, key: combination.key, id }
    }

    /// Gives `combination` its identifier, if its key has a code to
    /// register it under.
    pub fn bind(combination: KeyCombination) -> (binding: Option<HotkeyBinding>)
        ensures
            match binding {
                Some(binding) => binding.combination() == combination && binding_id(combination)
                    == Some(binding.id),
                None => binding_id(combination) is None,
            },
    {
        let modifiers = combination.modifiers;
        match hotkey_id(
            modifiers.control,
            modifiers.shift,
            modifiers.alt,
            modifiers.meta,
            combination.key.name(),
        ) {
            Some(id) => Some(HotkeyBinding::new(combination, id)),
            None => None,
        }
    }

    /// True if an event with the identifier `event_id` is this binding's
    /// trigger. Events of any other binding are not.
    pub fn is_trigger(&self, event_id: u32) -> (triggered: bool)
        ensures
            triggered == (event_id == self.id),
    {
        event_id == self.id
    }
}

/// What parsing and binding make of a sequence of pieces.
pub open spec fn binds_as(
    tokens: Seq<Seq<char>>,
    result: Result<HotkeyBinding, ParseFailure>,
) -> bool {
    match result {
        Ok(binding) => {
            &&& parses_as(tokens, Ok(binding.combination()))
            &&& binding_id(binding.combination()) == Some(binding.id)
        },
        Err(ParseFailure::UnsupportedKey(key)) => exists|combination: KeyCombination|
            #![trigger binding_id(combination)]
            {
                &&& parses_as(tokens, Ok(combination))
                &&& combination.key == key
                &&& binding_id(combination) is None
            },
        Err(failure) => parses_as(tokens, Err(failure)),
    }
}

/// The end of parsing, once it is known what `parsed` binds to: a
/// combination that does not bind is an error that names its key.
pub fn bound(
    parsed: Result<KeyCombination, ParseError>,
    binding: Option<HotkeyBinding>,
) -> (result: Result<HotkeyBinding, ParseError>)
    ensures
        result == match parsed {
            Ok(combination) => match binding {
                Some(binding) => Ok(binding),
                None => Err(ParseError::UnsupportedKey(combination.key)),
            },
            Err(error) => Err(error),
        },
{
    match parsed {
        Ok(combination) => match binding {
            Some(binding) => Ok(binding),
            None => Err(ParseError::UnsupportedKey(combination.key)),
        },
        Err(error) => Err(error),
    }
}

/// Binds the combination that `tokens` name.
pub fn bind_tokens(tokens: &Vec<String>) -> (result: Result<HotkeyBinding, ParseError>)
    ensures
        match result {
            Ok(binding) => binds_as(
                string_views(tokens@),
                Ok::<HotkeyBinding, ParseFailure>(binding),
            ),
            Err(error) => binds_as(
                string_views(tokens@),
                Err::<HotkeyBinding, ParseFailure>(error@),
            ),
        },
{
    let parsed = parse_tokens(tokens);
    let binding = match &parsed {
        Ok(combination) => HotkeyBinding::bind(*combination),
        Err(_) => None,
    };
    bound(parsed, binding)
}

/// Reads a key combination such as `ctrl+shift+r` and binds it.
pub fn parse_hotkey(text: &str) -> (result: Result<HotkeyBinding, ParseError>)
    ensures
        match result {
            Ok(binding) => binds_as(
                hotkey_tokens(text@),
                Ok::<HotkeyBinding, ParseFailure>(binding),
            ),
            Err(error) => binds_as(
                hotkey_tokens(text@),
                Err::<HotkeyBinding, ParseFailure>(error@),
            ),
        },
{
    let tokens = tokens_of(text);
    bind_tokens(&tokens)
}

} // verus!
