//! Keyboard and mouse emulation over the USB HID gadget: key codes for
//! pasted text, report routing to the gadget devices, the scroll profile,
//! keyboard shortcuts and the USB mode switch.

use vstd::prelude::*;
use vstd::string::StringExecFns;
use crate::api;
use crate::textscan::{spec_trim, str_eq, trim};

verus! {

/// A key of a stored shortcut.
#[derive(Clone, Debug)]
pub struct ShortcutKey {
    pub code: String,
    pub label: String,
}

/// A stored keyboard shortcut.
#[derive(Clone, Debug)]
pub struct Shortcut {
    pub id: String,
    pub keys: Vec<ShortcutKey>,
}

/// Errors of the HID gadget devices; I/O errors are carried as messages.
#[derive(Clone, Debug)]
pub enum HidError {
    Io(String),
    Timeout,
    InvalidLength { expected: usize, got: usize },
}

/// The gadget device a report is written to.
#[derive(Clone, Copy, Debug, PartialEq, Eq, Structural)]
pub enum HidDevice {
    Keyboard,
    MouseRelative,
    MouseAbsolute,
}

/// Where a keyboard report goes: keyboard reports are eight bytes long.
pub fn keyboard_route(len: usize) -> (r: Result<HidDevice, HidError>)
    ensures
        len == 8 ==> r matches Ok(HidDevice::Keyboard),
        len != 8 ==> (r matches Err(HidError::InvalidLength { expected, got }) && expected == 8 && got == len),
{
    if len != 8 {
        Err(HidError::InvalidLength { expected: 8, got: len })
    } else {
        Ok(HidDevice::Keyboard)
    }
}

/// Where a mouse report goes: four bytes are a relative report, six an
/// absolute one; other lengths are refused.
pub fn mouse_route(len: usize) -> (r: Result<HidDevice, HidError>)
    ensures
        len == 4 ==> r matches Ok(HidDevice::MouseRelative),
        len == 6 ==> r matches Ok(HidDevice::MouseAbsolute),
        len != 4 && len != 6 ==> (r matches Err(HidError::InvalidLength { expected, got }) && expected == 4 && got == len),
{
    if len == 4 {
        Ok(HidDevice::MouseRelative)
    } else if len == 6 {
        Ok(HidDevice::MouseAbsolute)
    } else {
        Err(HidError::InvalidLength { expected: 4, got: len })
    }
}

/// A failed write is retried once, on a reopened device, only after an I/O error.
pub fn should_reopen(e: &HidError) -> (r: bool)
    ensures
        r == (*e is Io),
{
    match e {
        HidError::Io(_) => true,
        _ => false,
    }
}

// ---------------------------------------------------------------------------
// Key codes for pasted text.
// ---------------------------------------------------------------------------

/// Keyboard layouts that pasted text can be typed in.
#[derive(Clone, Copy, Debug, PartialEq, Eq, Structural)]
pub enum KeyboardLayout {
    Us,
    German,
    French,
}

/// The layout named by a language code: `de`, `fr`, and US otherwise.
pub open spec fn spec_layout(lang: Seq<char>) -> KeyboardLayout {
    if lang == "de"@ {
        KeyboardLayout::German
    } else if lang == "fr"@ {
        KeyboardLayout::French
    } else {
        KeyboardLayout::Us
    }
}

/// US key for a character that is neither a letter nor a digit 1 to 9.
pub open spec fn us_symbol_key(c: char) -> Option<(u8, u8)> {
    match c {
        '0' => Some((0u8, 39u8)),
        '!' => Some((2u8, 30u8)),
        '@' => Some((2u8, 31u8)),
        '#' => Some((2u8, 32u8)),
        '$' => Some((2u8, 33u8)),
        '%' => Some((2u8, 34u8)),
        '^' => Some((2u8, 35u8)),
        '&' => Some((2u8, 36u8)),
        '*' => Some((2u8, 37u8)),
        '(' => Some((2u8, 38u8)),
        ')' => Some((2u8, 39u8)),
        '\n' => Some((0u8, 40u8)),
        '\t' => Some((0u8, 43u8)),
        ' ' => Some((0u8, 44u8)),
        '-' => Some((0u8, 45u8)),
        '=' => Some((0u8, 46u8)),
        '[' => Some((0u8, 47u8)),
        ']' => Some((0u8, 48u8)),
        '\\' => Some((0u8, 49u8)),
        ';' => Some((0u8, 51u8)),
        '\'' => Some((0u8, 52u8)),
        '`' => Some((0u8, 53u8)),
        ',' => Some((0u8, 54u8)),
        '.' => Some((0u8, 55u8)),
        '/' => Some((0u8, 56u8)),
        '_' => Some((2u8, 45u8)),
        '+' => Some((2u8, 46u8)),
        '{' => Some((2u8, 47u8)),
        '}' => Some((2u8, 48u8)),
        '|' => Some((2u8, 49u8)),
        ':' => Some((2u8, 51u8)),
        '"' => Some((2u8, 52u8)),
        '~' => Some((2u8, 53u8)),
        '<' => Some((2u8, 54u8)),
        '>' => Some((2u8, 55u8)),
        '?' => Some((2u8, 56u8)),
        _ => None,
    }
}

/// The (modifier, usage code) that types `c` on a US keyboard: letters
/// from usage 4 (shift for capitals), digits from usage 30.
pub open spec fn us_key(c: char) -> Option<(u8, u8)> {
    if 'a' <= c <= 'z' {
        Some((0u8, (c as int - 'a' as int + 4) as u8))
    } else if 'A' <= c <= 'Z' {
        Some((2u8, (c as int - 'A' as int + 4) as u8))
    } else if '1' <= c <= '9' {
        Some((0u8, (c as int - '1' as int + 30) as u8))
    } else {
        us_symbol_key(c)
    }
}

/// The keys that differ on a German (QWERTZ) keyboard.
pub open spec fn german_key(c: char) -> Option<(u8, u8)> {
    match c {
        'y' => Some((0u8, 29u8)),
        'Y' => Some((2u8, 29u8)),
        'z' => Some((0u8, 28u8)),
        'Z' => Some((2u8, 28u8)),
        'ä' => Some((0u8, 52u8)),
        'Ä' => Some((2u8, 52u8)),
        'ö' => Some((0u8, 51u8)),
        'Ö' => Some((2u8, 51u8)),
        'ü' => Some((0u8, 47u8)),
        'Ü' => Some((2u8, 47u8)),
        'ß' => Some((0u8, 45u8)),
        '^' => Some((0u8, 53u8)),
        '/' => Some((2u8, 36u8)),
        '(' => Some((2u8, 37u8)),
        '&' => Some((2u8, 35u8)),
        ')' => Some((2u8, 38u8)),
        '`' => Some((2u8, 46u8)),
        '"' => Some((2u8, 31u8)),
        '?' => Some((2u8, 45u8)),
        '{' => Some((0x40u8, 36u8)),
        '[' => Some((0x40u8, 37u8)),
        ']' => Some((0x40u8, 38u8)),
        '}' => Some((0x40u8, 39u8)),
        '\\' => Some((0x40u8, 45u8)),
        '@' => Some((0x40u8, 20u8)),
        '+' => Some((0u8, 48u8)),
        '*' => Some((2u8, 48u8)),
        '~' => Some((0x40u8, 48u8)),
        '#' => Some((0u8, 49u8)),
        '\'' => Some((2u8, 49u8)),
        '<' => Some((0u8, 100u8)),
        '>' => Some((2u8, 100u8)),
        '|' => Some((0x40u8, 100u8)),
        ';' => Some((2u8, 54u8)),
        ':' => Some((2u8, 55u8)),
        '-' => Some((0u8, 56u8)),
        '_' => Some((2u8, 56u8)),
        '´' => Some((0u8, 46u8)),
        '°' => Some((2u8, 53u8)),
        '§' => Some((2u8, 32u8)),
        '€' => Some((0x40u8, 8u8)),
        '²' => Some((0x40u8, 31u8)),
        '³' => Some((0x40u8, 32u8)),
        _ => None,
    }
}

/// The keys that differ on a French (AZERTY) keyboard.
pub open spec fn french_key(c: char) -> Option<(u8, u8)> {
    match c {
        'a' => Some((0u8, 20u8)),
        'A' => Some((2u8, 20u8)),
        'q' => Some((0u8, 4u8)),
        'Q' => Some((2u8, 4u8)),
        'z' => Some((0u8, 26u8)),
        'Z' => Some((2u8, 26u8)),
        'w' => Some((0u8, 29u8)),
        'W' => Some((2u8, 29u8)),
        'm' => Some((0u8, 51u8)),
        'M' => Some((2u8, 51u8)),
        '1' => Some((2u8, 30u8)),
        '2' => Some((2u8, 31u8)),
        '3' => Some((2u8, 32u8)),
        '4' => Some((2u8, 33u8)),
        '5' => Some((2u8, 34u8)),
        '6' => Some((2u8, 35u8)),
        '7' => Some((2u8, 36u8)),
        '8' => Some((2u8, 37u8)),
        '9' => Some((2u8, 38u8)),
        '0' => Some((2u8, 39u8)),
        '&' => Some((0u8, 30u8)),
        'é' => Some((0u8, 31u8)),
        '"' => Some((0u8, 32u8)),
        '\'' => Some((0u8, 33u8)),
        '(' => Some((0u8, 34u8)),
        '-' => Some((0u8, 35u8)),
        'è' => Some((0u8, 36u8)),
        '_' => Some((0u8, 37u8)),
        'ç' => Some((0u8, 38u8)),
        'à' => Some((0u8, 39u8)),
        ')' => Some((0u8, 45u8)),
        '°' => Some((2u8, 45u8)),
        '^' => Some((0u8, 47u8)),
        '¨' => Some((2u8, 47u8)),
        '$' => Some((0u8, 48u8)),
        '£' => Some((2u8, 48u8)),
        '*' => Some((0u8, 49u8)),
        'µ' => Some((2u8, 49u8)),
        'ù' => Some((0u8, 52u8)),
        '%' => Some((2u8, 52u8)),
        ',' => Some((0u8, 16u8)),
        '?' => Some((2u8, 16u8)),
        ';' => Some((0u8, 54u8)),
        '.' => Some((2u8, 54u8)),
        ':' => Some((0u8, 55u8)),
        '/' => Some((2u8, 55u8)),
        '!' => Some((0u8, 56u8)),
        '§' => Some((2u8, 56u8)),
        '~' => Some((0x40u8, 31u8)),
        '#' => Some((0x40u8, 32u8)),
        '{' => Some((0x40u8, 33u8)),
        '[' => Some((0x40u8, 34u8)),
        '|' => Some((0x40u8, 35u8)),
        '`' => Some((0x40u8, 36u8)),
        '\\' => Some((0x40u8, 37u8)),
        ']' => Some((0x40u8, 45u8)),
        '}' => Some((0x40u8, 46u8)),
        '@' => Some((0x40u8, 39u8)),
        '€' => Some((0x40u8, 8u8)),
        _ => None,
    }
}

/// The key for `c` in a layout: the layout's own key where it has one, the
/// US key otherwise.
pub open spec fn spec_char_key(layout: KeyboardLayout, c: char) -> Option<(u8, u8)> {
    let own = match layout {
        KeyboardLayout::Us => None,
        KeyboardLayout::German => german_key(c),
        KeyboardLayout::French => french_key(c),
    };
    match own {
        Some(k) => Some(k),
        None => us_key(c),
    }
}

fn us_symbol_key_exec(c: char) -> (r: Option<(u8, u8)>)
    ensures
        r == us_symbol_key(c),
{
    match c {
        '0' => Some((0u8, 39u8)),
        '!' => Some((2u8, 30u8)),
        '@' => Some((2u8, 31u8)),
        '#' => Some((2u8, 32u8)),
        '$' => Some((2u8, 33u8)),
        '%' => Some((2u8, 34u8)),
        '^' => Some((2u8, 35u8)),
        '&' => Some((2u8, 36u8)),
        '*' => Some((2u8, 37u8)),
        '(' => Some((2u8, 38u8)),
        ')' => Some((2u8, 39u8)),
        '\n' => Some((0u8, 40u8)),
        '\t' => Some((0u8, 43u8)),
        ' ' => Some((0u8, 44u8)),
        '-' => Some((0u8, 45u8)),
        '=' => Some((0u8, 46u8)),
        '[' => Some((0u8, 47u8)),
        ']' => Some((0u8, 48u8)),
        '\\' => Some((0u8, 49u8)),
        ';' => Some((0u8, 51u8)),
        '\'' => Some((0u8, 52u8)),
        '`' => Some((0u8, 53u8)),
        ',' => Some((0u8, 54u8)),
        '.' => Some((0u8, 55u8)),
        '/' => Some((0u8, 56u8)),
        '_' => Some((2u8, 45u8)),
        '+' => Some((2u8, 46u8)),
        '{' => Some((2u8, 47u8)),
        '}' => Some((2u8, 48u8)),
        '|' => Some((2u8, 49u8)),
        ':' => Some((2u8, 51u8)),
        '"' => Some((2u8, 52u8)),
        '~' => Some((2u8, 53u8)),
        '<' => Some((2u8, 54u8)),
        '>' => Some((2u8, 55u8)),
        '?' => Some((2u8, 56u8)),
        _ => None,
    }
}

fn us_key_exec(c: char) -> (r: Option<(u8, u8)>)
    ensures
        r == us_key(c),
{
    if 'a' <= c && c <= 'z' {
        Some((0, (c as u32 - 97 + 4) as u8))
    } else if 'A' <= c && c <= 'Z' {
        Some((2, (c as u32 - 65 + 4) as u8))
    } else if '1' <= c && c <= '9' {
        Some((0, (c as u32 - 49 + 30) as u8))
    } else {
        us_symbol_key_exec(c)
    }
}

fn german_key_exec(c: char) -> (r: Option<(u8, u8)>)
    ensures
        r == german_key(c),
{
    match c {
        'y' => Some((0u8, 29u8)),
        'Y' => Some((2u8, 29u8)),
        'z' => Some((0u8, 28u8)),
        'Z' => Some((2u8, 28u8)),
        'ä' => Some((0u8, 52u8)),
        'Ä' => Some((2u8, 52u8)),
        'ö' => Some((0u8, 51u8)),
        'Ö' => Some((2u8, 51u8)),
        'ü' => Some((0u8, 47u8)),
        'Ü' => Some((2u8, 47u8)),
        'ß' => Some((0u8, 45u8)),
        '^' => Some((0u8, 53u8)),
        '/' => Some((2u8, 36u8)),
        '(' => Some((2u8, 37u8)),
        '&' => Some((2u8, 35u8)),
        ')' => Some((2u8, 38u8)),
        '`' => Some((2u8, 46u8)),
        '"' => Some((2u8, 31u8)),
        '?' => Some((2u8, 45u8)),
        '{' => Some((0x40u8, 36u8)),
        '[' => Some((0x40u8, 37u8)),
        ']' => Some((0x40u8, 38u8)),
        '}' => Some((0x40u8, 39u8)),
        '\\' => Some((0x40u8, 45u8)),
        '@' => Some((0x40u8, 20u8)),
        '+' => Some((0u8, 48u8)),
        '*' => Some((2u8, 48u8)),
        '~' => Some((0x40u8, 48u8)),
        '#' => Some((0u8, 49u8)),
        '\'' => Some((2u8, 49u8)),
        '<' => Some((0u8, 100u8)),
        '>' => Some((2u8, 100u8)),
        '|' => Some((0x40u8, 100u8)),
        ';' => Some((2u8, 54u8)),
        ':' => Some((2u8, 55u8)),
        '-' => Some((0u8, 56u8)),
        '_' => Some((2u8, 56u8)),
        '´' => Some((0u8, 46u8)),
        '°' => Some((2u8, 53u8)),
        '§' => Some((2u8, 32u8)),
        '€' => Some((0x40u8, 8u8)),
        '²' => Some((0x40u8, 31u8)),
        '³' => Some((0x40u8, 32u8)),
        _ => None,
    }
}

fn french_key_exec(c: char) -> (r: Option<(u8, u8)>)
    ensures
        r == french_key(c),
{
    match c {
        'a' => Some((0u8, 20u8)),
        'A' => Some((2u8, 20u8)),
        'q' => Some((0u8, 4u8)),
        'Q' => Some((2u8, 4u8)),
        'z' => Some((0u8, 26u8)),
        'Z' => Some((2u8, 26u8)),
        'w' => Some((0u8, 29u8)),
        'W' => Some((2u8, 29u8)),
        'm' => Some((0u8, 51u8)),
        'M' => Some((2u8, 51u8)),
        '1' => Some((2u8, 30u8)),
        '2' => Some((2u8, 31u8)),
        '3' => Some((2u8, 32u8)),
        '4' => Some((2u8, 33u8)),
        '5' => Some((2u8, 34u8)),
        '6' => Some((2u8, 35u8)),
        '7' => Some((2u8, 36u8)),
        '8' => Some((2u8, 37u8)),
        '9' => Some((2u8, 38u8)),
        '0' => Some((2u8, 39u8)),
        '&' => Some((0u8, 30u8)),
        'é' => Some((0u8, 31u8)),
        '"' => Some((0u8, 32u8)),
        '\'' => Some((0u8, 33u8)),
        '(' => Some((0u8, 34u8)),
        '-' => Some((0u8, 35u8)),
        'è' => Some((0u8, 36u8)),
        '_' => Some((0u8, 37u8)),
        'ç' => Some((0u8, 38u8)),
        'à' => Some((0u8, 39u8)),
        ')' => Some((0u8, 45u8)),
        '°' => Some((2u8, 45u8)),
        '^' => Some((0u8, 47u8)),
        '¨' => Some((2u8, 47u8)),
        '$' => Some((0u8, 48u8)),
        '£' => Some((2u8, 48u8)),
        '*' => Some((0u8, 49u8)),
        'µ' => Some((2u8, 49u8)),
        'ù' => Some((0u8, 52u8)),
        '%' => Some((2u8, 52u8)),
        ',' => Some((0u8, 16u8)),
        '?' => Some((2u8, 16u8)),
        ';' => Some((0u8, 54u8)),
        '.' => Some((2u8, 54u8)),
        ':' => Some((0u8, 55u8)),
        '/' => Some((2u8, 55u8)),
        '!' => Some((0u8, 56u8)),
        '§' => Some((2u8, 56u8)),
        '~' => Some((0x40u8, 31u8)),
        '#' => Some((0x40u8, 32u8)),
        '{' => Some((0x40u8, 33u8)),
        '[' => Some((0x40u8, 34u8)),
        '|' => Some((0x40u8, 35u8)),
        '`' => Some((0x40u8, 36u8)),
        '\\' => Some((0x40u8, 37u8)),
        ']' => Some((0x40u8, 45u8)),
        '}' => Some((0x40u8, 46u8)),
        '@' => Some((0x40u8, 39u8)),
        '€' => Some((0x40u8, 8u8)),
        _ => None,
    }
}

/// The characters a layout can type, with their keys.
#[derive(Clone, Copy, Debug)]
pub struct CharMap {
    pub layout: KeyboardLayout,
}

impl View for CharMap {
    type V = Map<char, (u8, u8)>;

    open spec fn view(&self) -> Map<char, (u8, u8)> {
        Map::new(
            |c: char| spec_char_key(self.layout, c) is Some,
            |c: char| match spec_char_key(self.layout, c) {
                Some(k) => k,
                None => (0u8, 0u8),
            },
        )
    }
}

impl CharMap {
    /// The key that types `c`, if the layout has one.
    pub fn get(&self, c: char) -> (r: Option<(u8, u8)>)
        ensures
            r == spec_char_key(self.layout, c),
            r matches Some(k) ==> self@.contains_key(c) && self@[c] == k,
            r is None ==> !self@.contains_key(c),
    {
        let own = match self.layout {
            KeyboardLayout::Us => None,
            KeyboardLayout::German => german_key_exec(c),
            KeyboardLayout::French => french_key_exec(c),
        };
        match own {
            Some(k) => Some(k),
            None => us_key_exec(c),
        }
    }
}

/// The characters a US keyboard types: the letters in both cases, the
/// digits, white space (newline, tab, space) and the printable ASCII
/// symbols, 97 in all.
pub open spec fn us_chars() -> Set<char> {
    set!['a', 'b', 'c', 'd', 'e', 'f', 'g', 'h', 'i', 'j', 'k', 'l', 'm', 'n', 'o', 'p', 'q', 'r', 's', 't', 'u', 'v', 'w', 'x', 'y', 'z', 'A', 'B', 'C', 'D', 'E', 'F', 'G', 'H', 'I', 'J', 'K', 'L', 'M', 'N', 'O', 'P', 'Q', 'R', 'S', 'T', 'U', 'V', 'W', 'X', 'Y', 'Z', '1', '2', '3', '4', '5', '6', '7', '8', '9', '0', '!', '@', '#', '$', '%', '^', '&', '*', '(', ')', '\n', '\t', ' ', '-', '=', '[', ']', '\\', ';', '\'', '`', ',', '.', '/', '_', '+', '{', '}', '|', ':', '"', '~', '<', '>', '?']
}

/// The US layout types exactly the 97 characters of [`us_chars`].
pub proof fn lemma_us_layout_size()
    ensures
        (CharMap { layout: KeyboardLayout::Us })@.dom() == us_chars(),
        us_chars().finite(),
        us_chars().len() == 97,
{
    lemma_us_chars_dom();
    lemma_us_chars_len();
}

proof fn lemma_us_chars_dom()
    ensures
        (CharMap { layout: KeyboardLayout::Us })@.dom() == us_chars(),
{
    let m = (CharMap { layout: KeyboardLayout::Us })@;
    assert(m.dom() =~= us_chars());
}

#[verifier::rlimit(100)]
proof fn lemma_us_chars_len()
    ensures
        us_chars().finite(),
        us_chars().len() == 97,
{
}

/// The US layout as a map.
pub open spec fn us_map() -> Map<char, (u8, u8)> {
    (CharMap { layout: KeyboardLayout::Us })@
}

/// The US layout gives each character its key on a US keyboard, as USB HID
/// usage codes with the modifier byte (2: left shift): the letters `a`-`z`
/// are usages 4-29 (shifted for capitals), the digits `1`-`9` usages
/// 30-38 and `0` usage 39; the other characters are listed one by one, the
/// shifted symbols on the keys of their unshifted partners.
pub proof fn lemma_us_layout_keys()
    ensures
        forall|i: int| 0 <= i < 26 ==> us_map().contains_key(#[trigger] ((97 + i) as char))
            && us_map()[(97 + i) as char] == (0u8, (4 + i) as u8),
        forall|i: int| 0 <= i < 26 ==> us_map().contains_key(#[trigger] ((65 + i) as char))
            && us_map()[(65 + i) as char] == (2u8, (4 + i) as u8),
        forall|i: int| 0 <= i < 9 ==> us_map().contains_key(#[trigger] ((49 + i) as char))
            && us_map()[(49 + i) as char] == (0u8, (30 + i) as u8),
        us_map().contains_key('0') && us_map()['0'] == (0u8, 39u8),
        us_map().contains_key('!') && us_map()['!'] == (2u8, 30u8),
        us_map().contains_key('@') && us_map()['@'] == (2u8, 31u8),
        us_map().contains_key('#') && us_map()['#'] == (2u8, 32u8),
        us_map().contains_key('$') && us_map()['$'] == (2u8, 33u8),
        us_map().contains_key('%') && us_map()['%'] == (2u8, 34u8),
        us_map().contains_key('^') && us_map()['^'] == (2u8, 35u8),
        us_map().contains_key('&') && us_map()['&'] == (2u8, 36u8),
        us_map().contains_key('*') && us_map()['*'] == (2u8, 37u8),
        us_map().contains_key('(') && us_map()['('] == (2u8, 38u8),
        us_map().contains_key(')') && us_map()[')'] == (2u8, 39u8),
        us_map().contains_key('\n') && us_map()['\n'] == (0u8, 40u8),
        us_map().contains_key('\t') && us_map()['\t'] == (0u8, 43u8),
        us_map().contains_key(' ') && us_map()[' '] == (0u8, 44u8),
        us_map().contains_key('-') && us_map()['-'] == (0u8, 45u8),
        us_map().contains_key('=') && us_map()['='] == (0u8, 46u8),
        us_map().contains_key('[') && us_map()['['] == (0u8, 47u8),
        us_map().contains_key(']') && us_map()[']'] == (0u8, 48u8),
        us_map().contains_key('\\') && us_map()['\\'] == (0u8, 49u8),
        us_map().contains_key(';') && us_map()[';'] == (0u8, 51u8),
        us_map().contains_key('\'') && us_map()['\''] == (0u8, 52u8),
        us_map().contains_key('`') && us_map()['`'] == (0u8, 53u8),
        us_map().contains_key(',') && us_map()[','] == (0u8, 54u8),
        us_map().contains_key('.') && us_map()['.'] == (0u8, 55u8),
        us_map().contains_key('/') && us_map()['/'] == (0u8, 56u8),
        us_map().contains_key('_') && us_map()['_'] == (2u8, 45u8),
        us_map().contains_key('+') && us_map()['+'] == (2u8, 46u8),
        us_map().contains_key('{') && us_map()['{'] == (2u8, 47u8),
        us_map().contains_key('}') && us_map()['}'] == (2u8, 48u8),
        us_map().contains_key('|') && us_map()['|'] == (2u8, 49u8),
        us_map().contains_key(':') && us_map()[':'] == (2u8, 51u8),
        us_map().contains_key('"') && us_map()['"'] == (2u8, 52u8),
        us_map().contains_key('~') && us_map()['~'] == (2u8, 53u8),
        us_map().contains_key('<') && us_map()['<'] == (2u8, 54u8),
        us_map().contains_key('>') && us_map()['>'] == (2u8, 55u8),
        us_map().contains_key('?') && us_map()['?'] == (2u8, 56u8),
{
}

/// A layout as a map.
pub open spec fn layout_map(layout: KeyboardLayout) -> Map<char, (u8, u8)> {
    (CharMap { layout })@
}

/// The German (QWERTZ) layout: Y and Z swapped, the umlauts and ß, and the
/// symbols on their German keys (shift 2, AltGr 0x40); characters not
/// listed keep their US keys.
pub proof fn lemma_german_layout_keys()
    ensures
        layout_map(KeyboardLayout::German).contains_key('y') && layout_map(KeyboardLayout::German)['y'] == (0u8, 29u8),
        layout_map(KeyboardLayout::German).contains_key('Y') && layout_map(KeyboardLayout::German)['Y'] == (2u8, 29u8),
        layout_map(KeyboardLayout::German).contains_key('z') && layout_map(KeyboardLayout::German)['z'] == (0u8, 28u8),
        layout_map(KeyboardLayout::German).contains_key('Z') && layout_map(KeyboardLayout::German)['Z'] == (2u8, 28u8),
        layout_map(KeyboardLayout::German).contains_key('ä') && layout_map(KeyboardLayout::German)['ä'] == (0u8, 52u8),
        layout_map(KeyboardLayout::German).contains_key('Ä') && layout_map(KeyboardLayout::German)['Ä'] == (2u8, 52u8),
        layout_map(KeyboardLayout::German).contains_key('ö') && layout_map(KeyboardLayout::German)['ö'] == (0u8, 51u8),
        layout_map(KeyboardLayout::German).contains_key('Ö') && layout_map(KeyboardLayout::German)['Ö'] == (2u8, 51u8),
        layout_map(KeyboardLayout::German).contains_key('ü') && layout_map(KeyboardLayout::German)['ü'] == (0u8, 47u8),
        layout_map(KeyboardLayout::German).contains_key('Ü') && layout_map(KeyboardLayout::German)['Ü'] == (2u8, 47u8),
        layout_map(KeyboardLayout::German).contains_key('ß') && layout_map(KeyboardLayout::German)['ß'] == (0u8, 45u8),
        layout_map(KeyboardLayout::German).contains_key('^') && layout_map(KeyboardLayout::German)['^'] == (0u8, 53u8),
        layout_map(KeyboardLayout::German).contains_key('/') && layout_map(KeyboardLayout::German)['/'] == (2u8, 36u8),
        layout_map(KeyboardLayout::German).contains_key('(') && layout_map(KeyboardLayout::German)['('] == (2u8, 37u8),
        layout_map(KeyboardLayout::German).contains_key('&') && layout_map(KeyboardLayout::German)['&'] == (2u8, 35u8),
        layout_map(KeyboardLayout::German).contains_key(')') && layout_map(KeyboardLayout::German)[')'] == (2u8, 38u8),
        layout_map(KeyboardLayout::German).contains_key('`') && layout_map(KeyboardLayout::German)['`'] == (2u8, 46u8),
        layout_map(KeyboardLayout::German).contains_key('"') && layout_map(KeyboardLayout::German)['"'] == (2u8, 31u8),
        layout_map(KeyboardLayout::German).contains_key('?') && layout_map(KeyboardLayout::German)['?'] == (2u8, 45u8),
        layout_map(KeyboardLayout::German).contains_key('{') && layout_map(KeyboardLayout::German)['{'] == (64u8, 36u8),
        layout_map(KeyboardLayout::German).contains_key('[') && layout_map(KeyboardLayout::German)['['] == (64u8, 37u8),
        layout_map(KeyboardLayout::German).contains_key(']') && layout_map(KeyboardLayout::German)[']'] == (64u8, 38u8),
        layout_map(KeyboardLayout::German).contains_key('}') && layout_map(KeyboardLayout::German)['}'] == (64u8, 39u8),
        layout_map(KeyboardLayout::German).contains_key('\\') && layout_map(KeyboardLayout::German)['\\'] == (64u8, 45u8),
        layout_map(KeyboardLayout::German).contains_key('@') && layout_map(KeyboardLayout::German)['@'] == (64u8, 20u8),
        layout_map(KeyboardLayout::German).contains_key('+') && layout_map(KeyboardLayout::German)['+'] == (0u8, 48u8),
        layout_map(KeyboardLayout::German).contains_key('*') && layout_map(KeyboardLayout::German)['*'] == (2u8, 48u8),
        layout_map(KeyboardLayout::German).contains_key('~') && layout_map(KeyboardLayout::German)['~'] == (64u8, 48u8),
        layout_map(KeyboardLayout::German).contains_key('#') && layout_map(KeyboardLayout::German)['#'] == (0u8, 49u8),
        layout_map(KeyboardLayout::German).contains_key('\'') && layout_map(KeyboardLayout::German)['\''] == (2u8, 49u8),
        layout_map(KeyboardLayout::German).contains_key('<') && layout_map(KeyboardLayout::German)['<'] == (0u8, 100u8),
        layout_map(KeyboardLayout::German).contains_key('>') && layout_map(KeyboardLayout::German)['>'] == (2u8, 100u8),
        layout_map(KeyboardLayout::German).contains_key('|') && layout_map(KeyboardLayout::German)['|'] == (64u8, 100u8),
        layout_map(KeyboardLayout::German).contains_key(';') && layout_map(KeyboardLayout::German)[';'] == (2u8, 54u8),
        layout_map(KeyboardLayout::German).contains_key(':') && layout_map(KeyboardLayout::German)[':'] == (2u8, 55u8),
        layout_map(KeyboardLayout::German).contains_key('-') && layout_map(KeyboardLayout::German)['-'] == (0u8, 56u8),
        layout_map(KeyboardLayout::German).contains_key('_') && layout_map(KeyboardLayout::German)['_'] == (2u8, 56u8),
        layout_map(KeyboardLayout::German).contains_key('´') && layout_map(KeyboardLayout::German)['´'] == (0u8, 46u8),
        layout_map(KeyboardLayout::German).contains_key('°') && layout_map(KeyboardLayout::German)['°'] == (2u8, 53u8),
        layout_map(KeyboardLayout::German).contains_key('§') && layout_map(KeyboardLayout::German)['§'] == (2u8, 32u8),
        layout_map(KeyboardLayout::German).contains_key('€') && layout_map(KeyboardLayout::German)['€'] == (64u8, 8u8),
        layout_map(KeyboardLayout::German).contains_key('²') && layout_map(KeyboardLayout::German)['²'] == (64u8, 31u8),
        layout_map(KeyboardLayout::German).contains_key('³') && layout_map(KeyboardLayout::German)['³'] == (64u8, 32u8),
        layout_map(KeyboardLayout::German)['a'] == (0u8, 4u8),
{
}

/// The French (AZERTY) layout: A/Q, Z/W and M moved, digits shifted, the
/// accented letters and symbols on their French keys (shift 2, AltGr 0x40);
/// characters not listed keep their US keys.
pub proof fn lemma_french_layout_keys()
    ensures
        layout_map(KeyboardLayout::French).contains_key('a') && layout_map(KeyboardLayout::French)['a'] == (0u8, 20u8),
        layout_map(KeyboardLayout::French).contains_key('A') && layout_map(KeyboardLayout::French)['A'] == (2u8, 20u8),
        layout_map(KeyboardLayout::French).contains_key('q') && layout_map(KeyboardLayout::French)['q'] == (0u8, 4u8),
        layout_map(KeyboardLayout::French).contains_key('Q') && layout_map(KeyboardLayout::French)['Q'] == (2u8, 4u8),
        layout_map(KeyboardLayout::French).contains_key('z') && layout_map(KeyboardLayout::French)['z'] == (0u8, 26u8),
        layout_map(KeyboardLayout::French).contains_key('Z') && layout_map(KeyboardLayout::French)['Z'] == (2u8, 26u8),
        layout_map(KeyboardLayout::French).contains_key('w') && layout_map(KeyboardLayout::French)['w'] == (0u8, 29u8),
        layout_map(KeyboardLayout::French).contains_key('W') && layout_map(KeyboardLayout::French)['W'] == (2u8, 29u8),
        layout_map(KeyboardLayout::French).contains_key('m') && layout_map(KeyboardLayout::French)['m'] == (0u8, 51u8),
        layout_map(KeyboardLayout::French).contains_key('M') && layout_map(KeyboardLayout::French)['M'] == (2u8, 51u8),
        layout_map(KeyboardLayout::French).contains_key('1') && layout_map(KeyboardLayout::French)['1'] == (2u8, 30u8),
        layout_map(KeyboardLayout::French).contains_key('2') && layout_map(KeyboardLayout::French)['2'] == (2u8, 31u8),
        layout_map(KeyboardLayout::French).contains_key('3') && layout_map(KeyboardLayout::French)['3'] == (2u8, 32u8),
        layout_map(KeyboardLayout::French).contains_key('4') && layout_map(KeyboardLayout::French)['4'] == (2u8, 33u8),
        layout_map(KeyboardLayout::French).contains_key('5') && layout_map(KeyboardLayout::French)['5'] == (2u8, 34u8),
        layout_map(KeyboardLayout::French).contains_key('6') && layout_map(KeyboardLayout::French)['6'] == (2u8, 35u8),
        layout_map(KeyboardLayout::French).contains_key('7') && layout_map(KeyboardLayout::French)['7'] == (2u8, 36u8),
        layout_map(KeyboardLayout::French).contains_key('8') && layout_map(KeyboardLayout::French)['8'] == (2u8, 37u8),
        layout_map(KeyboardLayout::French).contains_key('9') && layout_map(KeyboardLayout::French)['9'] == (2u8, 38u8),
        layout_map(KeyboardLayout::French).contains_key('0') && layout_map(KeyboardLayout::French)['0'] == (2u8, 39u8),
        layout_map(KeyboardLayout::French).contains_key('&') && layout_map(KeyboardLayout::French)['&'] == (0u8, 30u8),
        layout_map(KeyboardLayout::French).contains_key('é') && layout_map(KeyboardLayout::French)['é'] == (0u8, 31u8),
        layout_map(KeyboardLayout::French).contains_key('"') && layout_map(KeyboardLayout::French)['"'] == (0u8, 32u8),
        layout_map(KeyboardLayout::French).contains_key('\'') && layout_map(KeyboardLayout::French)['\''] == (0u8, 33u8),
        layout_map(KeyboardLayout::French).contains_key('(') && layout_map(KeyboardLayout::French)['('] == (0u8, 34u8),
        layout_map(KeyboardLayout::French).contains_key('-') && layout_map(KeyboardLayout::French)['-'] == (0u8, 35u8),
        layout_map(KeyboardLayout::French).contains_key('è') && layout_map(KeyboardLayout::French)['è'] == (0u8, 36u8),
        layout_map(KeyboardLayout::French).contains_key('_') && layout_map(KeyboardLayout::French)['_'] == (0u8, 37u8),
        layout_map(KeyboardLayout::French).contains_key('ç') && layout_map(KeyboardLayout::French)['ç'] == (0u8, 38u8),
        layout_map(KeyboardLayout::French).contains_key('à') && layout_map(KeyboardLayout::French)['à'] == (0u8, 39u8),
        layout_map(KeyboardLayout::French).contains_key(')') && layout_map(KeyboardLayout::French)[')'] == (0u8, 45u8),
        layout_map(KeyboardLayout::French).contains_key('°') && layout_map(KeyboardLayout::French)['°'] == (2u8, 45u8),
        layout_map(KeyboardLayout::French).contains_key('^') && layout_map(KeyboardLayout::French)['^'] == (0u8, 47u8),
        layout_map(KeyboardLayout::French).contains_key('¨') && layout_map(KeyboardLayout::French)['¨'] == (2u8, 47u8),
        layout_map(KeyboardLayout::French).contains_key('$') && layout_map(KeyboardLayout::French)['$'] == (0u8, 48u8),
        layout_map(KeyboardLayout::French).contains_key('£') && layout_map(KeyboardLayout::French)['£'] == (2u8, 48u8),
        layout_map(KeyboardLayout::French).contains_key('*') && layout_map(KeyboardLayout::French)['*'] == (0u8, 49u8),
        layout_map(KeyboardLayout::French).contains_key('µ') && layout_map(KeyboardLayout::French)['µ'] == (2u8, 49u8),
        layout_map(KeyboardLayout::French).contains_key('ù') && layout_map(KeyboardLayout::French)['ù'] == (0u8, 52u8),
        layout_map(KeyboardLayout::French).contains_key('%') && layout_map(KeyboardLayout::French)['%'] == (2u8, 52u8),
        layout_map(KeyboardLayout::French).contains_key(',') && layout_map(KeyboardLayout::French)[','] == (0u8, 16u8),
        layout_map(KeyboardLayout::French).contains_key('?') && layout_map(KeyboardLayout::French)['?'] == (2u8, 16u8),
        layout_map(KeyboardLayout::French).contains_key(';') && layout_map(KeyboardLayout::French)[';'] == (0u8, 54u8),
        layout_map(KeyboardLayout::French).contains_key('.') && layout_map(KeyboardLayout::French)['.'] == (2u8, 54u8),
        layout_map(KeyboardLayout::French).contains_key(':') && layout_map(KeyboardLayout::French)[':'] == (0u8, 55u8),
        layout_map(KeyboardLayout::French).contains_key('/') && layout_map(KeyboardLayout::French)['/'] == (2u8, 55u8),
        layout_map(KeyboardLayout::French).contains_key('!') && layout_map(KeyboardLayout::French)['!'] == (0u8, 56u8),
        layout_map(KeyboardLayout::French).contains_key('§') && layout_map(KeyboardLayout::French)['§'] == (2u8, 56u8),
        layout_map(KeyboardLayout::French).contains_key('~') && layout_map(KeyboardLayout::French)['~'] == (64u8, 31u8),
        layout_map(KeyboardLayout::French).contains_key('#') && layout_map(KeyboardLayout::French)['#'] == (64u8, 32u8),
        layout_map(KeyboardLayout::French).contains_key('{') && layout_map(KeyboardLayout::French)['{'] == (64u8, 33u8),
        layout_map(KeyboardLayout::French).contains_key('[') && layout_map(KeyboardLayout::French)['['] == (64u8, 34u8),
        layout_map(KeyboardLayout::French).contains_key('|') && layout_map(KeyboardLayout::French)['|'] == (64u8, 35u8),
        layout_map(KeyboardLayout::French).contains_key('`') && layout_map(KeyboardLayout::French)['`'] == (64u8, 36u8),
        layout_map(KeyboardLayout::French).contains_key('\\') && layout_map(KeyboardLayout::French)['\\'] == (64u8, 37u8),
        layout_map(KeyboardLayout::French).contains_key(']') && layout_map(KeyboardLayout::French)[']'] == (64u8, 45u8),
        layout_map(KeyboardLayout::French).contains_key('}') && layout_map(KeyboardLayout::French)['}'] == (64u8, 46u8),
        layout_map(KeyboardLayout::French).contains_key('@') && layout_map(KeyboardLayout::French)['@'] == (64u8, 39u8),
        layout_map(KeyboardLayout::French).contains_key('€') && layout_map(KeyboardLayout::French)['€'] == (64u8, 8u8),
        layout_map(KeyboardLayout::French)['b'] == (0u8, 5u8),
{
}

/// The key map for a language code (`de`, `fr`, otherwise US).
pub fn get_char_map(lang: &str) -> (r: CharMap)
    ensures
        r.layout == spec_layout(lang@),
{
    if str_eq(lang, "de") {
        CharMap { layout: KeyboardLayout::German }
    } else if str_eq(lang, "fr") {
        CharMap { layout: KeyboardLayout::French }
    } else {
        CharMap { layout: KeyboardLayout::Us }
    }
}

/// Longest paste accepted, in bytes of UTF-8.
pub const MAX_PASTE_BYTES: usize = 1024;

/// The key-down report for a key.
pub open spec fn key_down(k: (u8, u8)) -> Seq<u8> {
    seq![k.0, 0u8, k.1, 0u8, 0u8, 0u8, 0u8, 0u8]
}

/// The key-up (all released) report.
pub open spec fn key_up() -> Seq<u8> {
    seq![0u8, 0u8, 0u8, 0u8, 0u8, 0u8, 0u8, 0u8]
}

/// The reports that type `text`: for each character the layout can type, a
/// key-down report and then a key-up report; other characters are skipped.
pub open spec fn paste_sequence(layout: KeyboardLayout, text: Seq<char>) -> Seq<Seq<u8>>
    decreases text.len(),
{
    if text.len() == 0 {
        Seq::empty()
    } else {
        let rest = paste_sequence(layout, text.drop_last());
        match spec_char_key(layout, text.last()) {
            Some(k) => rest + seq![key_down(k), key_up()],
            None => rest,
        }
    }
}

/// The keyboard reports that paste `content` in the layout of `lang`, or
/// `None` when the content is longer than [`MAX_PASTE_BYTES`].
pub fn paste_reports(content: &str, lang: &str) -> (r: Option<Vec<[u8; 8]>>)
    ensures
        content.len() > MAX_PASTE_BYTES <==> r is None,
        r matches Some(v) ==> v@.map_values(|a: [u8; 8]| a@) == paste_sequence(spec_layout(lang@), content@),
{
    if content.len() > MAX_PASTE_BYTES {
        return None;
    }
    let map = get_char_map(lang);
    let text = crate::text::chars_of(content);
    let ghost layout = map.layout;
    let mut out: Vec<[u8; 8]> = Vec::new();
    let mut k: usize = 0;
    while k < text.len()
        invariant
            text@ == content@,
            layout == map.layout,
            k <= text@.len(),
            out@.map_values(|a: [u8; 8]| a@) == paste_sequence(layout, text@.subrange(0, k as int)),
        decreases text.len() - k,
    {
        let ghost before = out@.map_values(|a: [u8; 8]| a@);
        let ghost pre = text@.subrange(0, k as int);
        let ghost next = text@.subrange(0, k + 1);
        assert(next.drop_last() =~= pre);
        match map.get(text[k]) {
            Some((mods, code)) => {
                let down: [u8; 8] = [mods, 0, code, 0, 0, 0, 0, 0];
                let up: [u8; 8] = [0, 0, 0, 0, 0, 0, 0, 0];
                assert(down@ =~= key_down((mods, code)));
                assert(up@ =~= key_up());
                out.push(down);
                out.push(up);
                assert(out@.map_values(|a: [u8; 8]| a@) =~= before + seq![key_down((mods, code)), key_up()]);
            },
            None => {},
        }
        k = k + 1;
    }
    assert(text@.subrange(0, text@.len() as int) =~= text@);
    Some(out)
}

// ---------------------------------------------------------------------------
// Scroll profile.
// ---------------------------------------------------------------------------

/// How clients turn wheel events into scrolling: direction 1 is natural,
/// -1 inverted; interval is the least time between scroll events, in ms.
#[derive(Clone, Copy, Debug, PartialEq, Eq, Structural)]
pub struct MouseScrollConfig {
    pub direction: i8,
    pub interval: u32,
}

impl Default for MouseScrollConfig {
    fn default() -> (r: MouseScrollConfig)
        ensures
            r.direction == -1,
            r.interval == 0,
    {
        MouseScrollConfig { direction: -1, interval: 0 }
    }
}

/// Longest accepted scroll interval, in milliseconds.
pub const MAX_SCROLL_INTERVAL_MS: u32 = 2000;

/// A scroll profile is valid when its direction is 1 or -1 and its interval
/// at most [`MAX_SCROLL_INTERVAL_MS`].
pub open spec fn scroll_config_valid(c: MouseScrollConfig) -> bool {
    (c.direction == 1 || c.direction == -1) && c.interval <= MAX_SCROLL_INTERVAL_MS
}

impl MouseScrollConfig {
    /// Checks a profile; the message names the first rule it breaks.
    pub fn validate(&self) -> (r: Result<(), String>)
        ensures
            r is Ok <==> scroll_config_valid(*self),
            (self.direction != 1 && self.direction != -1) ==> (r matches Err(m) && m@ == "direction must be 1 or -1"@),
            (self.direction == 1 || self.direction == -1) && self.interval > MAX_SCROLL_INTERVAL_MS ==>
                (r matches Err(m) && m@ == "interval must be between 0 and 2000 (ms)"@),
    {
        if self.direction != 1 && self.direction != -1 {
            return Err(String::from_str("direction must be 1 or -1"));
        }
        if self.interval > MAX_SCROLL_INTERVAL_MS {
            return Err(String::from_str("interval must be between 0 and 2000 (ms)"));
        }
        Ok(())
    }

    /// Accepts a new profile, or refuses it with the validation error code.
    pub fn accept(new_cfg: MouseScrollConfig) -> (r: Result<MouseScrollConfig, (i32, String)>)
        ensures
            scroll_config_valid(new_cfg) ==> r == Ok::<MouseScrollConfig, (i32, String)>(new_cfg),
            !scroll_config_valid(new_cfg) ==> (r matches Err((code, _)) && code == api::VALIDATION),
    {
        match new_cfg.validate() {
            Ok(()) => Ok(new_cfg),
            Err(msg) => Err((api::VALIDATION, msg)),
        }
    }
}

/// The scroll profile the server keeps. Changes are applied at once and
/// then saved; a profile read back from storage replaces the current one
/// only when it is valid.
#[derive(Clone, Copy, Debug)]
pub struct MouseScrollStore {
    pub config: MouseScrollConfig,
}

impl MouseScrollStore {
    /// A store holding the default profile.
    pub fn new() -> (r: MouseScrollStore)
        ensures
            r.config.direction == -1 && r.config.interval == 0,
    {
        MouseScrollStore { config: MouseScrollConfig::default() }
    }

    /// Takes a profile read back from storage: a valid one replaces the
    /// current profile, an invalid or missing one changes nothing.
    pub fn load(&mut self, stored: Option<MouseScrollConfig>)
        ensures
            match stored {
                Some(c) => if scroll_config_valid(c) { final(self).config == c } else { final(self).config == old(self).config },
                None => final(self).config == old(self).config,
            },
    {
        if let Some(c) = stored {
            if c.validate().is_ok() {
                self.config = c;
            }
        }
    }

    /// The current profile.
    pub fn get(&self) -> (r: MouseScrollConfig)
        ensures
            r == self.config,
    {
        self.config
    }

    /// Applies a new profile: a valid one becomes current at once (and is
    /// to be saved next, see [`MouseScrollStore::saved`]); an invalid one
    /// is refused with the validation error and changes nothing.
    pub fn set(&mut self, new_cfg: MouseScrollConfig) -> (r: Result<MouseScrollConfig, (i32, String)>)
        ensures
            scroll_config_valid(new_cfg) ==> r == Ok::<MouseScrollConfig, (i32, String)>(new_cfg)
                && final(self).config == new_cfg,
            !scroll_config_valid(new_cfg) ==> (r matches Err((code, _)) && code == api::VALIDATION)
                && final(self).config == old(self).config,
            (new_cfg.direction != 1 && new_cfg.direction != -1) ==> (r matches Err((_, m)) && m@ == "direction must be 1 or -1"@),
            (new_cfg.direction == 1 || new_cfg.direction == -1) && new_cfg.interval > MAX_SCROLL_INTERVAL_MS ==>
                (r matches Err((_, m)) && m@ == "interval must be between 0 and 2000 (ms)"@),
    {
        match new_cfg.validate() {
            Ok(()) => {
                self.config = new_cfg;
                Ok(new_cfg)
            },
            Err(msg) => Err((api::VALIDATION, msg)),
        }
    }

    /// The reply once an applied profile was to be saved: the profile when
    /// it was saved; otherwise the error that it is live but not saved (the
    /// profile stays current either way).
    pub fn saved(&self, written: bool) -> (r: Result<MouseScrollConfig, (i32, String)>)
        ensures
            written ==> r == Ok::<MouseScrollConfig, (i32, String)>(self.config),
            !written ==> (r matches Err((code, m)) && code == api::GENERIC
                && m@ == "profile updated in memory but failed to persist to disk"@),
    {
        if written {
            Ok(self.config)
        } else {
            Err((api::GENERIC, String::from_str("profile updated in memory but failed to persist to disk")))
        }
    }
}

/// The scroll profile as reported to clients.
#[derive(Clone, Debug)]
pub struct GetMouseScrollRsp {
    pub direction: i8,
    pub interval: u32,
    pub source: String,
}

/// A request to change the scroll profile.
#[derive(Clone, Copy, Debug)]
pub struct SetMouseScrollReq {
    pub direction: i8,
    pub interval: u32,
}

// ---------------------------------------------------------------------------
// Requests, shortcuts and the USB mode.
// ---------------------------------------------------------------------------

/// Text to type on the target.
#[derive(Clone, Debug)]
pub struct PasteReq {
    pub content: String,
    pub language: Option<String>,
}

#[derive(Clone, Debug)]
pub struct GetShortcutsRsp {
    pub shortcuts: Vec<Shortcut>,
}

#[derive(Clone, Debug)]
pub struct AddShortcutReq {
    pub keys: Vec<ShortcutKey>,
}

#[derive(Clone, Debug)]
pub struct DeleteShortcutReq {
    pub id: String,
}

#[derive(Clone, Debug)]
pub struct GetHidModeRsp {
    pub mode: String,
}

#[derive(Clone, Debug)]
pub struct SetHidModeReq {
    pub mode: String,
}

#[derive(Clone, Debug)]
pub struct SetLeaderKeyReq {
    pub key: String,
}

#[derive(Clone, Debug)]
pub struct GetLeaderKeyRsp {
    pub key: String,
}

/// A shortcut key as a pair of character sequences.
pub open spec fn key_view(k: ShortcutKey) -> (Seq<char>, Seq<char>) {
    (k.code@, k.label@)
}

/// A shortcut as its id and its keys.
pub open spec fn shortcut_view(x: Shortcut) -> (Seq<char>, Seq<(Seq<char>, Seq<char>)>) {
    (x.id@, x.keys@.map_values(|k: ShortcutKey| key_view(k)))
}

/// The shortcuts of `s`, in order.
pub open spec fn shortcuts_view(s: Seq<Shortcut>) -> Seq<(Seq<char>, Seq<(Seq<char>, Seq<char>)>)> {
    s.map_values(|x: Shortcut| shortcut_view(x))
}

fn copy_shortcut(s: &Shortcut) -> (r: Shortcut)
    ensures
        shortcut_view(r) == shortcut_view(*s),
{
    let mut keys: Vec<ShortcutKey> = Vec::new();
    let mut k: usize = 0;
    while k < s.keys.len()
        invariant
            k <= s.keys@.len(),
            keys@.map_values(|x: ShortcutKey| key_view(x)) == s.keys@.subrange(0, k as int).map_values(|x: ShortcutKey| key_view(x)),
        decreases s.keys.len() - k,
    {
        let key = ShortcutKey { code: s.keys[k].code.clone(), label: s.keys[k].label.clone() };
        let ghost before = keys@.map_values(|x: ShortcutKey| key_view(x));
        assert(key_view(key) == key_view(s.keys@[k as int]));
        keys.push(key);
        assert(keys@.map_values(|x: ShortcutKey| key_view(x)) =~= before.push(key_view(s.keys@[k as int])));
        assert(s.keys@.subrange(0, k + 1) =~= s.keys@.subrange(0, k as int).push(s.keys@[k as int]));
        assert(keys@.map_values(|x: ShortcutKey| key_view(x)) =~= s.keys@.subrange(0, k + 1).map_values(|x: ShortcutKey| key_view(x)));
        k = k + 1;
    }
    assert(s.keys@.subrange(0, s.keys@.len() as int) =~= s.keys@);
    Shortcut { id: s.id.clone(), keys }
}

/// Removes the shortcuts whose id is `id`; tells whether the list changed.
pub fn remove_shortcut(shortcuts: &mut Vec<Shortcut>, id: &str) -> (removed: bool)
    ensures
        shortcuts_view(final(shortcuts)@) == shortcuts_view(old(shortcuts)@).filter(
            |v: (Seq<char>, Seq<(Seq<char>, Seq<char>)>)| v.0 != id@,
        ),
        removed == (final(shortcuts)@.len() != old(shortcuts)@.len()),
{
    let ghost orig = shortcuts@;
    let ghost pred = |v: (Seq<char>, Seq<(Seq<char>, Seq<char>)>)| v.0 != id@;
    let mut kept: Vec<Shortcut> = Vec::new();
    let n = shortcuts.len();
    let mut k: usize = 0;
    while k < n
        invariant
            n == orig.len(),
            shortcuts@ == orig,
            k <= n,
            pred == (|v: (Seq<char>, Seq<(Seq<char>, Seq<char>)>)| v.0 != id@),
            shortcuts_view(kept@) == shortcuts_view(orig.subrange(0, k as int)).filter(pred),
        decreases n - k,
    {
        let ghost before = shortcuts_view(kept@);
        let ghost next = shortcuts_view(orig.subrange(0, k + 1));
        assert(next.drop_last() =~= shortcuts_view(orig.subrange(0, k as int)));
        assert(next.last() == shortcut_view(orig[k as int]));
        proof {
            reveal(Seq::filter);
        }
        let same = str_eq(shortcuts[k].id.as_str(), id);
        if !same {
            let copy = copy_shortcut(&shortcuts[k]);
            kept.push(copy);
            assert(shortcuts_view(kept@) =~= before.push(shortcut_view(orig[k as int])));
        }
        k = k + 1;
    }
    assert(orig.subrange(0, n as int) =~= orig);
    proof {
        shortcuts_view(orig).lemma_filter_len(pred);
        assert(shortcuts_view(kept@).len() == kept@.len());
    }
    *shortcuts = kept;
    shortcuts.len() != n
}

} // verus!
