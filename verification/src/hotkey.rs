//! The keyboard shortcut: which keys make it, how it is written and how it is
//! read.
//!
//! A shortcut is written as its modifiers, joined by `+`, and one key, each by
//! name and in any case, with white space allowed around each name.
use crate::text::{
    copy_text, join, lowercase, lowercase_of, same_text, split, split_on, texts, trim, trimmed,
};
use vstd::prelude::*;

verus! {

/// The modifier keys of a shortcut.
#[derive(Debug, Clone, Copy, PartialEq, Eq, Structural)]
pub struct Modifiers {
    pub control: bool,
    pub shift: bool,
    pub alt: bool,
    pub meta: bool,
}

/// The keys that a shortcut can end in.
#[derive(Debug, Clone, Copy, PartialEq, Eq, Structural)]
pub enum Code {
    KeyA,
    KeyB,
    KeyC,
    KeyD,
    KeyE,
    KeyF,
    KeyG,
    KeyH,
    KeyI,
    KeyJ,
    KeyK,
    KeyL,
    KeyM,
    KeyN,
    KeyO,
    KeyP,
    KeyQ,
    KeyR,
    KeyS,
    KeyT,
    KeyU,
    KeyV,
    KeyW,
    KeyX,
    KeyY,
    KeyZ,
    Digit1,
    Digit2,
    Digit3,
    Digit4,
    Digit5,
    Digit6,
    Digit7,
    Digit8,
    Digit9,
    Digit0,
    Space,
    Enter,
    Tab,
    Escape,
}

impl Modifiers {
    /// No modifier.
    pub open spec fn none() -> Modifiers {
        Modifiers { control: false, shift: false, alt: false, meta: false }
    }

    /// The modifiers that are in `self` or in `other`.
    pub open spec fn union(self, other: Modifiers) -> Modifiers {
        Modifiers {
            control: self.control || other.control,
            shift: self.shift || other.shift,
            alt: self.alt || other.alt,
            meta: self.meta || other.meta,
        }
    }

    /// Whether no modifier is in `self`.
    pub open spec fn is_none(self) -> bool {
        !self.control && !self.shift && !self.alt && !self.meta
    }

    /// The modifiers of the shortcut that is used where none is configured:
    /// control and shift.
    pub open spec fn standard() -> Modifiers {
        Modifiers { control: true, shift: true, alt: false, meta: false }
    }
}

/// The modifier that goes by `name`, a name in lower case.
pub open spec fn modifier_named(name: Seq<char>) -> Option<Modifiers> {
    if name == "ctrl"@ || name == "control"@ {
        Some(Modifiers { control: true, ..Modifiers::none() })
    } else if name == "shift"@ {
        Some(Modifiers { shift: true, ..Modifiers::none() })
    } else if name == "alt"@ || name == "option"@ {
        Some(Modifiers { alt: true, ..Modifiers::none() })
    } else if name == "cmd"@ || name == "super"@ || name == "win"@ || name == "command"@ {
        Some(Modifiers { meta: true, ..Modifiers::none() })
    } else {
        None
    }
}

/// The key that goes by `name`, a name in lower case.
pub open spec fn code_named(name: Seq<char>) -> Option<Code> {
    if name == "a"@ {
        Some(Code::KeyA)
    } else if name == "b"@ {
        Some(Code::KeyB)
    } else if name == "c"@ {
        Some(Code::KeyC)
    } else if name == "d"@ {
        Some(Code::KeyD)
    } else if name == "e"@ {
        Some(Code::KeyE)
    } else if name == "f"@ {
        Some(Code::KeyF)
    } else if name == "g"@ {
        Some(Code::KeyG)
    } else if name == "h"@ {
        Some(Code::KeyH)
    } else if name == "i"@ {
        Some(Code::KeyI)
    } else if name == "j"@ {
        Some(Code::KeyJ)
    } else if name == "k"@ {
        Some(Code::KeyK)
    } else if name == "l"@ {
        Some(Code::KeyL)
    } else if name == "m"@ {
        Some(Code::KeyM)
    } else if name == "n"@ {
        Some(Code::KeyN)
    } else if name == "o"@ {
        Some(Code::KeyO)
    } else if name == "p"@ {
        Some(Code::KeyP)
    } else if name == "q"@ {
        Some(Code::KeyQ)
    } else if name == "r"@ {
        Some(Code::KeyR)
    } else if name == "s"@ {
        Some(Code::KeyS)
    } else if name == "t"@ {
        Some(Code::KeyT)
    } else if name == "u"@ {
        Some(Code::KeyU)
    } else if name == "v"@ {
        Some(Code::KeyV)
    } else if name == "w"@ {
        Some(Code::KeyW)
    } else if name == "x"@ {
        Some(Code::KeyX)
    } else if name == "y"@ {
        Some(Code::KeyY)
    } else if name == "z"@ {
        Some(Code::KeyZ)
    } else if name == "1"@ {
        Some(Code::Digit1)
    } else if name == "2"@ {
        Some(Code::Digit2)
    } else if name == "3"@ {
        Some(Code::Digit3)
    } else if name == "4"@ {
        Some(Code::Digit4)
    } else if name == "5"@ {
        Some(Code::Digit5)
    } else if name == "6"@ {
        Some(Code::Digit6)
    } else if name == "7"@ {
        Some(Code::Digit7)
    } else if name == "8"@ {
        Some(Code::Digit8)
    } else if name == "9"@ {
        Some(Code::Digit9)
    } else if name == "0"@ {
        Some(Code::Digit0)
    } else if name == "space"@ {
        Some(Code::Space)
    } else if name == "enter"@ {
        Some(Code::Enter)
    } else if name == "return"@ {
        Some(Code::Enter)
    } else if name == "tab"@ {
        Some(Code::Tab)
    } else if name == "escape"@ {
        Some(Code::Escape)
    } else if name == "esc"@ {
        Some(Code::Escape)
    } else {
        None
    }
}

/// How a key is shown.
pub open spec fn code_label(code: Code) -> Seq<char> {
    match code {
        Code::KeyA => "A"@,
        Code::KeyB => "B"@,
        Code::KeyC => "C"@,
        Code::KeyD => "D"@,
        Code::KeyE => "E"@,
        Code::KeyF => "F"@,
        Code::KeyG => "G"@,
        Code::KeyH => "H"@,
        Code::KeyI => "I"@,
        Code::KeyJ => "J"@,
        Code::KeyK => "K"@,
        Code::KeyL => "L"@,
        Code::KeyM => "M"@,
        Code::KeyN => "N"@,
        Code::KeyO => "O"@,
        Code::KeyP => "P"@,
        Code::KeyQ => "Q"@,
        Code::KeyR => "R"@,
        Code::KeyS => "S"@,
        Code::KeyT => "T"@,
        Code::KeyU => "U"@,
        Code::KeyV => "V"@,
        Code::KeyW => "W"@,
        Code::KeyX => "X"@,
        Code::KeyY => "Y"@,
        Code::KeyZ => "Z"@,
        Code::Digit1 => "1"@,
        Code::Digit2 => "2"@,
        Code::Digit3 => "3"@,
        Code::Digit4 => "4"@,
        Code::Digit5 => "5"@,
        Code::Digit6 => "6"@,
        Code::Digit7 => "7"@,
        Code::Digit8 => "8"@,
        Code::Digit9 => "9"@,
        Code::Digit0 => "0"@,
        Code::Space => "Space"@,
        Code::Enter => "Enter"@,
        Code::Tab => "Tab"@,
        Code::Escape => "Escape"@,
    }
}

/// A name as it is looked up: without the white space around it, in lower case.
pub open spec fn lookup_name(written: Seq<char>) -> Seq<char> {
    lowercase_of(trimmed(written))
}

/// The modifier that goes by `name`, a name in lower case, if there is one.
pub fn modifier_by_name(name: &str) -> (m: Option<Modifiers>)
    ensures
        m == modifier_named(name@),
{
    if same_text(name, "ctrl") || same_text(name, "control") {
        Some(Modifiers { control: true, shift: false, alt: false, meta: false })
    } else if same_text(name, "shift") {
        Some(Modifiers { control: false, shift: true, alt: false, meta: false })
    } else if same_text(name, "alt") || same_text(name, "option") {
        Some(Modifiers { control: false, shift: false, alt: true, meta: false })
    } else if same_text(name, "cmd") || same_text(name, "super") || same_text(name, "win")
        || same_text(name, "command") {
        Some(Modifiers { control: false, shift: false, alt: false, meta: true })
    } else {
        None
    }
}

/// The key that goes by `name`, a name in lower case, if there is one.
pub fn code_by_name(name: &str) -> (code: Option<Code>)
    ensures
        code == code_named(name@),
{
    if same_text(name, "a") {
        Some(Code::KeyA)
    } else if same_text(name, "b") {
        Some(Code::KeyB)
    } else if same_text(name, "c") {
        Some(Code::KeyC)
    } else if same_text(name, "d") {
        Some(Code::KeyD)
    } else if same_text(name, "e") {
        Some(Code::KeyE)
    } else if same_text(name, "f") {
        Some(Code::KeyF)
    } else if same_text(name, "g") {
        Some(Code::KeyG)
    } else if same_text(name, "h") {
        Some(Code::KeyH)
    } else if same_text(name, "i") {
        Some(Code::KeyI)
    } else if same_text(name, "j") {
        Some(Code::KeyJ)
    } else if same_text(name, "k") {
        Some(Code::KeyK)
    } else if same_text(name, "l") {
        Some(Code::KeyL)
    } else if same_text(name, "m") {
        Some(Code::KeyM)
    } else if same_text(name, "n") {
        Some(Code::KeyN)
    } else if same_text(name, "o") {
        Some(Code::KeyO)
    } else if same_text(name, "p") {
        Some(Code::KeyP)
    } else if same_text(name, "q") {
        Some(Code::KeyQ)
    } else if same_text(name, "r") {
        Some(Code::KeyR)
    } else if same_text(name, "s") {
        Some(Code::KeyS)
    } else if same_text(name, "t") {
        Some(Code::KeyT)
    } else if same_text(name, "u") {
        Some(Code::KeyU)
    } else if same_text(name, "v") {
        Some(Code::KeyV)
    } else if same_text(name, "w") {
        Some(Code::KeyW)
    } else if same_text(name, "x") {
        Some(Code::KeyX)
    } else if same_text(name, "y") {
        Some(Code::KeyY)
    } else if same_text(name, "z") {
        Some(Code::KeyZ)
    } else if same_text(name, "1") {
        Some(Code::Digit1)
    } else if same_text(name, "2") {
        Some(Code::Digit2)
    } else if same_text(name, "3") {
        Some(Code::Digit3)
    } else if same_text(name, "4") {
        Some(Code::Digit4)
    } else if same_text(name, "5") {
        Some(Code::Digit5)
    } else if same_text(name, "6") {
        Some(Code::Digit6)
    } else if same_text(name, "7") {
        Some(Code::Digit7)
    } else if same_text(name, "8") {
        Some(Code::Digit8)
    } else if same_text(name, "9") {
        Some(Code::Digit9)
    } else if same_text(name, "0") {
        Some(Code::Digit0)
    } else if same_text(name, "space") {
        Some(Code::Space)
    } else if same_text(name, "enter") {
        Some(Code::Enter)
    } else if same_text(name, "return") {
        Some(Code::Enter)
    } else if same_text(name, "tab") {
        Some(Code::Tab)
    } else if same_text(name, "escape") {
        Some(Code::Escape)
    } else if same_text(name, "esc") {
        Some(Code::Escape)
    } else {
        None
    }
}

/// How a key is shown: letters in upper case, the other keys by their names.
pub fn format_key(code: &Code) -> (label: String)
    ensures
        label@ == code_label(*code),
{
    let text = match code {
        Code::KeyA => "A",
        Code::KeyB => "B",
        Code::KeyC => "C",
        Code::KeyD => "D",
        Code::KeyE => "E",
        Code::KeyF => "F",
        Code::KeyG => "G",
        Code::KeyH => "H",
        Code::KeyI => "I",
        Code::KeyJ => "J",
        Code::KeyK => "K",
        Code::KeyL => "L",
        Code::KeyM => "M",
        Code::KeyN => "N",
        Code::KeyO => "O",
        Code::KeyP => "P",
        Code::KeyQ => "Q",
        Code::KeyR => "R",
        Code::KeyS => "S",
        Code::KeyT => "T",
        Code::KeyU => "U",
        Code::KeyV => "V",
        Code::KeyW => "W",
        Code::KeyX => "X",
        Code::KeyY => "Y",
        Code::KeyZ => "Z",
        Code::Digit1 => "1",
        Code::Digit2 => "2",
        Code::Digit3 => "3",
        Code::Digit4 => "4",
        Code::Digit5 => "5",
        Code::Digit6 => "6",
        Code::Digit7 => "7",
        Code::Digit8 => "8",
        Code::Digit9 => "9",
        Code::Digit0 => "0",
        Code::Space => "Space",
        Code::Enter => "Enter",
        Code::Tab => "Tab",
        Code::Escape => "Escape",
    };
    copy_text(text)
}

/// A result whose error is seen as a sequence of characters.
pub open spec fn error_text<T>(r: Result<T, String>) -> Result<T, Seq<char>> {
    match r {
        Ok(value) => Ok(value),
        Err(message) => Err(message@),
    }
}

/// The modifiers that `parts` name, added to `so_far`. Each part is looked up
/// without the white space around it and in lower case. The first part that
/// names no modifier is the error.
pub open spec fn modifiers_from(parts: Seq<Seq<char>>, so_far: Modifiers) -> Result<
    Modifiers,
    Seq<char>,
>
    decreases parts.len(),
{
    if parts.len() == 0 {
        Ok(so_far)
    } else {
        match modifier_named(lookup_name(parts[0])) {
            Some(found) => modifiers_from(parts.drop_first(), so_far.union(found)),
            None => Err("Unknown modifier: "@ + lookup_name(parts[0])),
        }
    }
}

/// The modifiers that `written` names: modifier names joined by `+`.
pub open spec fn modifiers_written(written: Seq<char>) -> Result<Modifiers, Seq<char>> {
    modifiers_from(split_on(written, '+'), Modifiers::none())
}

/// The key that `written` names.
pub open spec fn key_written(written: Seq<char>) -> Result<Code, Seq<char>> {
    match code_named(lookup_name(written)) {
        Some(code) => Ok(code),
        None => Err("Unknown key: "@ + lookup_name(written)),
    }
}

/// The names of the modifiers in `m`, each followed by `" + "`, in the order
/// control, shift, alt, command.
pub open spec fn modifier_labels(m: Modifiers) -> Seq<char> {
    (if m.control {
        "Ctrl + "@
    } else {
        Seq::empty()
    }) + (if m.shift {
        "Shift + "@
    } else {
        Seq::empty()
    }) + (if m.alt {
        "Alt + "@
    } else {
        Seq::empty()
    }) + (if m.meta {
        "Cmd/Super + "@
    } else {
        Seq::empty()
    })
}

/// How a shortcut is shown: its modifiers and its key, joined by `" + "`. With no
/// modifier it is the key behind `" + "`.
pub open spec fn chord_label(m: Modifiers, code: Code) -> Seq<char> {
    if m.is_none() {
        " + "@ + code_label(code)
    } else {
        modifier_labels(m) + code_label(code)
    }
}

/// Modifiers are only added: what `parts` name on top of some modifiers holds
/// those modifiers.
pub proof fn lemma_modifiers_from_keeps(parts: Seq<Seq<char>>, so_far: Modifiers)
    ensures
        modifiers_from(parts, so_far) matches Ok(m) ==> m.union(so_far) == m,
    decreases parts.len(),
{
    if parts.len() > 0 {
        match modifier_named(lookup_name(parts[0])) {
            Some(found) => {
                lemma_modifiers_from_keeps(parts.drop_first(), so_far.union(found));
            },
            None => {},
        }
    }
}

/// What is read as modifiers names at least one: a text has at least one part,
/// and every part that is accepted adds a modifier.
pub proof fn lemma_modifiers_written_some(written: Seq<char>)
    ensures
        modifiers_written(written) matches Ok(m) ==> !m.is_none(),
{
    let parts = split_on(written, '+');
    assert(parts.len() > 0);
    match modifier_named(lookup_name(parts[0])) {
        Some(found) => {
            lemma_modifiers_from_keeps(parts.drop_first(), Modifiers::none().union(found));
        },
        None => {},
    }
}

/// Reads modifier names that are joined by `+`, such as `ctrl+shift`.
pub fn parse_modifiers(input: &str) -> (r: Result<Modifiers, String>)
    ensures
        error_text(r) == modifiers_written(input@),
        r matches Ok(m) ==> !m.is_none(),
{
    let parts = split(input, '+');
    let mut so_far = Modifiers { control: false, shift: false, alt: false, meta: false };
    let mut i: usize = 0;
    assert(texts(parts@).subrange(0, parts@.len() as int) == texts(parts@));
    while i < parts.len()
        invariant
            i <= parts.len(),
            texts(parts@) == split_on(input@, '+'),
            modifiers_written(input@) == modifiers_from(
                texts(parts@).subrange(i as int, parts@.len() as int),
                so_far,
            ),
        decreases parts.len() - i,
    {
        let name = lowercase(trim(parts[i].as_str()).as_str());
        proof {
            let rest = texts(parts@).subrange(i as int, parts@.len() as int);
            assert(rest[0] == parts@[i as int]@);
            assert(rest.drop_first() == texts(parts@).subrange(i + 1, parts@.len() as int));
        }
        match modifier_by_name(name.as_str()) {
            Some(found) => {
                so_far = Modifiers {
                    control: so_far.control || found.control,
                    shift: so_far.shift || found.shift,
                    alt: so_far.alt || found.alt,
                    meta: so_far.meta || found.meta,
                };
            },
            None => {
                return Err(join("Unknown modifier: ", name.as_str()));
            },
        }
        i = i + 1;
    }
    proof {
        lemma_modifiers_written_some(input@);
    }
    Ok(so_far)
}

/// Reads the name of a key, such as `s` or `escape`.
pub fn parse_key(input: &str) -> (r: Result<Code, String>)
    ensures
        error_text(r) == key_written(input@),
{
    let name = lowercase(trim(input).as_str());
    match code_by_name(name.as_str()) {
        Some(code) => Ok(code),
        None => Err(join("Unknown key: ", name.as_str())),
    }
}

/// The names of the modifiers in `m`, each followed by `" + "`.
fn modifier_labels_text(m: &Modifiers) -> (r: String)
    ensures
        r@ == modifier_labels(*m),
{
    let mut r = String::new();
    if m.control {
        r.append("Ctrl + ");
    }
    if m.shift {
        r.append("Shift + ");
    }
    if m.alt {
        r.append("Alt + ");
    }
    if m.meta {
        r.append("Cmd/Super + ");
    }
    r
}

/// A shortcut as it is configured: the two texts as they were written, and what
/// they were read as, where they have been read.
#[derive(Debug)]
pub struct HotkeyConfig {
    pub modifiers: String,
    pub key: String,
    pub modifiers_parsed: Option<Modifiers>,
    pub key_parsed: Option<Code>,
}

impl Default for HotkeyConfig {
    /// The shortcut that is used where none is configured: control, shift and S.
    fn default() -> (config: HotkeyConfig)
        ensures
            config.modifiers@ == "ctrl+shift"@,
            config.key@ == "s"@,
            config.modifiers_parsed == Some(Modifiers::standard()),
            config.key_parsed == Some(Code::KeyS),
    {
        HotkeyConfig {
            modifiers: copy_text("ctrl+shift"),
            key: copy_text("s"),
            modifiers_parsed: Some(
                Modifiers { control: true, shift: true, alt: false, meta: false },
            ),
            key_parsed: Some(Code::KeyS),
        }
    }
}

impl HotkeyConfig {
    /// How the shortcut is shown: by what it was read as, where both parts
    /// have been read, and by the two texts as they were written otherwise.
    pub open spec fn label(self) -> Seq<char> {
        match (self.modifiers_parsed, self.key_parsed) {
            (Some(m), Some(code)) => chord_label(m, code),
            _ => self.modifiers@ + " + "@ + self.key@,
        }
    }

    /// The shortcut that the two texts write, or why one of them writes none. The
    /// modifiers are read first.
    pub fn from_strings(modifiers_str: &str, key_str: &str) -> (r: Result<HotkeyConfig, String>)
        ensures
            match (modifiers_written(modifiers_str@), key_written(key_str@)) {
                (Ok(m), Ok(code)) => r matches Ok(config) && config.modifiers@ == modifiers_str@
                    && config.key@ == key_str@ && config.modifiers_parsed == Some(m)
                    && config.key_parsed == Some(code),
                (Ok(m), Err(why)) => r matches Err(message) && message@ == why,
                (Err(why), _) => r matches Err(message) && message@ == why,
            },
    {
        let modifiers_parsed = match parse_modifiers(modifiers_str) {
            Ok(m) => m,
            Err(why) => {
                return Err(why);
            },
        };
        let key_parsed = match parse_key(key_str) {
            Ok(code) => code,
            Err(why) => {
                return Err(why);
            },
        };
        Ok(
            HotkeyConfig {
                modifiers: copy_text(modifiers_str),
                key: copy_text(key_str),
                modifiers_parsed: Some(modifiers_parsed),
                key_parsed: Some(key_parsed),
            },
        )
    }

    /// Reads the two texts of the shortcut. Where the modifiers write none,
    /// nothing changes; where only the key writes none, the modifiers are kept
    /// as read.
    pub fn parse(&mut self) -> (r: Result<(), String>)
        ensures
            final(self).modifiers == old(self).modifiers,
            final(self).key == old(self).key,
            match (modifiers_written(old(self).modifiers@), key_written(old(self).key@)) {
                (Ok(m), Ok(code)) => {
                    &&& r is Ok
                    &&& final(self).modifiers_parsed == Some(m)
                    &&& final(self).key_parsed == Some(code)
                },
                (Ok(m), Err(why)) => {
                    &&& r matches Err(message) && message@ == why
                    &&& final(self).modifiers_parsed == Some(m)
                    &&& final(self).key_parsed == old(self).key_parsed
                },
                (Err(why), _) => {
                    &&& r matches Err(message) && message@ == why
                    &&& final(self).modifiers_parsed == old(self).modifiers_parsed
                    &&& final(self).key_parsed == old(self).key_parsed
                },
            },
    {
        match parse_modifiers(self.modifiers.as_str()) {
            Ok(m) => {
                self.modifiers_parsed = Some(m);
            },
            Err(why) => {
                return Err(why);
            },
        }
        match parse_key(self.key.as_str()) {
            Ok(code) => {
                self.key_parsed = Some(code);
            },
            Err(why) => {
                return Err(why);
            },
        }
        Ok(())
    }

    /// How the shortcut is shown.
    pub fn to_string(&self) -> (r: String)
        ensures
            r@ == self.label(),
    {
        match (&self.modifiers_parsed, &self.key_parsed) {
            (Some(m), Some(code)) => {
                let mut r = if !m.control && !m.shift && !m.alt && !m.meta {
                    copy_text(" + ")
                } else {
                    modifier_labels_text(m)
                };
                let key = format_key(code);
                r.append(key.as_str());
                r
            },
            _ => {
                let mut r = copy_text(self.modifiers.as_str());
                r.append(" + ");
                r.append(self.key.as_str());
                r
            },
        }
    }

    /// The modifiers of the shortcut: as read, or control and shift where they
    /// have not been read.
    pub fn modifiers(&self) -> (m: Modifiers)
        ensures
            m == (match self.modifiers_parsed {
                Some(read) => read,
                None => Modifiers::standard(),
            }),
    {
        match self.modifiers_parsed {
            Some(read) => read,
            None => Modifiers { control: true, shift: true, alt: false, meta: false },
        }
    }

    /// The key of the shortcut: as read, or S where it has not been read.
    pub fn key(&self) -> (code: Code)
        ensures
            code == (match self.key_parsed {
                Some(read) => read,
                None => Code::KeyS,
            }),
    {
        match self.key_parsed {
            Some(read) => read,
            None => Code::KeyS,
        }
    }
}


/// Whether `config` is the shortcut that is used where none is configured.
pub open spec fn is_standard(config: HotkeyConfig) -> bool {
    &&& config.modifiers@ == "ctrl+shift"@
    &&& config.key@ == "s"@
    &&& config.modifiers_parsed == Some(Modifiers::standard())
    &&& config.key_parsed == Some(Code::KeyS)
}

/// Whether `config` is `stored` as read: the same two texts, and what they
/// write.
pub open spec fn is_read(config: HotkeyConfig, stored: HotkeyConfig) -> bool {
    &&& config.modifiers@ == stored.modifiers@
    &&& config.key@ == stored.key@
    &&& modifiers_written(stored.modifiers@) matches Ok(m) && config.modifiers_parsed == Some(m)
    &&& key_written(stored.key@) matches Ok(code) && config.key_parsed == Some(code)
}

/// The shortcut to use, given the one that is stored, if one is: the stored
/// one as read, where its two texts write a shortcut, and control, shift and S
/// otherwise.
pub fn load_hotkey_config(stored: Option<HotkeyConfig>) -> (config: HotkeyConfig)
    ensures
        match stored {
            Some(found) => if modifiers_written(found.modifiers@) is Ok && key_written(
                found.key@,
            ) is Ok {
                is_read(config, found)
            } else {
                is_standard(config)
            },
            None => is_standard(config),
        },
{
    match stored {
        Some(found) => {
            let mut config = found;
            match config.parse() {
                Ok(()) => config,
                Err(_) => HotkeyConfig::default(),
            }
        },
        None => HotkeyConfig::default(),
    }
}

} // verus!
