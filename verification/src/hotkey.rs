//! Accelerator strings such as `Control+Shift+S`: their tokens, the binding
//! they denote, and the reasons a string is rejected.

use vstd::prelude::*;
use crate::text::{split, split_on, str_eq, str_views, trim, trimmed};

verus! {

/// A logical key that can end an accelerator.
#[derive(Clone, Copy, Debug, PartialEq, Eq, Structural)]
pub enum KeyCode {
    KeyA,
    KeyB,
    KeyC,
    KeyD,
    KeyE,
    KeyF,
    KeyG,
    KeyH,
    KeyI,
    KeyJ,
    KeyK,
    KeyL,
    KeyM,
    KeyN,
    KeyO,
    KeyP,
    KeyQ,
    KeyR,
    KeyS,
    KeyT,
    KeyU,
    KeyV,
    KeyW,
    KeyX,
    KeyY,
    KeyZ,
    Digit0,
    Digit1,
    Digit2,
    Digit3,
    Digit4,
    Digit5,
    Digit6,
    Digit7,
    Digit8,
    Digit9,
    F1,
    F2,
    F3,
    F4,
    F5,
    F6,
    F7,
    F8,
    F9,
    F10,
    F11,
    F12,
    Space,
    Enter,
    Escape,
}

/// One of the four modifier flags.
#[derive(Clone, Copy, Debug, PartialEq, Eq, Structural)]
pub enum Modifier {
    Meta,
    Shift,
    Alt,
    Control,
}

/// The set of modifiers held down with the key.
#[derive(Clone, Copy, Debug, PartialEq, Eq, Structural)]
pub struct Modifiers {
    pub meta: bool,
    pub shift: bool,
    pub alt: bool,
    pub control: bool,
}

/// A parsed accelerator: modifiers and exactly one key.
#[derive(Clone, Copy, Debug, PartialEq, Eq, Structural)]
pub struct HotkeyBinding {
    pub modifiers: Modifiers,
    pub key: KeyCode,
}

/// The platform decides what `CommandOrControl` stands for.
#[derive(Clone, Copy, Debug, PartialEq, Eq, Structural)]
pub enum Platform {
    MacOs,
    Other,
}

/// Why an accelerator string was rejected.
#[derive(Clone, Copy, Debug, PartialEq, Eq, Structural)]
pub enum InvalidHotkeySpec {
    /// A token is neither a modifier name nor a key name.
    UnknownToken,
    /// Every token is a modifier.
    NoKey,
    /// More than one token names a key.
    SeveralKeys,
}

/// The upper-case form of a text as `str::to_uppercase` computes it.
pub uninterp spec fn uppercase_text(s: Seq<char>) -> Seq<char>;

/// Calls `str::to_uppercase`. The contract only names the result: the same
/// text always has the same upper-case form.
#[verifier::external_body]
fn to_uppercase(s: &str) -> (upper: String)
    ensures
        upper@ == uppercase_text(s@),
{
    s.to_uppercase()
}

/// The modifier that a token names, if it names one. Modifier names are
/// matched exactly.
pub open spec fn modifier_of(name: Seq<char>, platform: Platform) -> Option<Modifier> {
    if name == "CommandOrControl"@ {
        Some(
            if platform == Platform::MacOs {
                Modifier::Meta
            } else {
                Modifier::Control
            },
        )
    } else if name == "Shift"@ {
        Some(Modifier::Shift)
    } else if name == "Alt"@ {
        Some(Modifier::Alt)
    } else if name == "Control"@ {
        Some(Modifier::Control)
    } else if name == "Meta"@ || name == "Cmd"@ || name == "Command"@ {
        Some(Modifier::Meta)
    } else {
        None
    }
}

/// The key that an upper-case key name stands for.
pub open spec fn key_for(upper: Seq<char>) -> Option<KeyCode> {
    if upper == "A"@ {
        Some(KeyCode::KeyA)
    } else     if upper == "B"@ {
        Some(KeyCode::KeyB)
    } else     if upper == "C"@ {
        Some(KeyCode::KeyC)
    } else     if upper == "D"@ {
        Some(KeyCode::KeyD)
    } else     if upper == "E"@ {
        Some(KeyCode::KeyE)
    } else     if upper == "F"@ {
        Some(KeyCode::KeyF)
    } else     if upper == "G"@ {
        Some(KeyCode::KeyG)
    } else     if upper == "H"@ {
        Some(KeyCode::KeyH)
    } else     if upper == "I"@ {
        Some(KeyCode::KeyI)
    } else     if upper == "J"@ {
        Some(KeyCode::KeyJ)
    } else     if upper == "K"@ {
        Some(KeyCode::KeyK)
    } else     if upper == "L"@ {
        Some(KeyCode::KeyL)
    } else     if upper == "M"@ {
        Some(KeyCode::KeyM)
    } else     if upper == "N"@ {
        Some(KeyCode::KeyN)
    } else     if upper == "O"@ {
        Some(KeyCode::KeyO)
    } else     if upper == "P"@ {
        Some(KeyCode::KeyP)
    } else     if upper == "Q"@ {
        Some(KeyCode::KeyQ)
    } else     if upper == "R"@ {
        Some(KeyCode::KeyR)
    } else     if upper == "S"@ {
        Some(KeyCode::KeyS)
    } else     if upper == "T"@ {
        Some(KeyCode::KeyT)
    } else     if upper == "U"@ {
        Some(KeyCode::KeyU)
    } else     if upper == "V"@ {
        Some(KeyCode::KeyV)
    } else     if upper == "W"@ {
        Some(KeyCode::KeyW)
    } else     if upper == "X"@ {
        Some(KeyCode::KeyX)
    } else     if upper == "Y"@ {
        Some(KeyCode::KeyY)
    } else     if upper == "Z"@ {
        Some(KeyCode::KeyZ)
    } else     if upper == "0"@ {
        Some(KeyCode::Digit0)
    } else     if upper == "1"@ {
        Some(KeyCode::Digit1)
    } else     if upper == "2"@ {
        Some(KeyCode::Digit2)
    } else     if upper == "3"@ {
        Some(KeyCode::Digit3)
    } else     if upper == "4"@ {
        Some(KeyCode::Digit4)
    } else     if upper == "5"@ {
        Some(KeyCode::Digit5)
    } else     if upper == "6"@ {
        Some(KeyCode::Digit6)
    } else     if upper == "7"@ {
        Some(KeyCode::Digit7)
    } else     if upper == "8"@ {
        Some(KeyCode::Digit8)
    } else     if upper == "9"@ {
        Some(KeyCode::Digit9)
    } else     if upper == "F1"@ {
        Some(KeyCode::F1)
    } else     if upper == "F2"@ {
        Some(KeyCode::F2)
    } else     if upper == "F3"@ {
        Some(KeyCode::F3)
    } else     if upper == "F4"@ {
        Some(KeyCode::F4)
    } else     if upper == "F5"@ {
        Some(KeyCode::F5)
    } else     if upper == "F6"@ {
        Some(KeyCode::F6)
    } else     if upper == "F7"@ {
        Some(KeyCode::F7)
    } else     if upper == "F8"@ {
        Some(KeyCode::F8)
    } else     if upper == "F9"@ {
        Some(KeyCode::F9)
    } else     if upper == "F10"@ {
        Some(KeyCode::F10)
    } else     if upper == "F11"@ {
        Some(KeyCode::F11)
    } else     if upper == "F12"@ {
        Some(KeyCode::F12)
    } else     if upper == "SPACE"@ {
        Some(KeyCode::Space)
    } else     if upper == "ENTER"@ {
        Some(KeyCode::Enter)
    } else     if upper == "ESCAPE"@ {
        Some(KeyCode::Escape)
    } else {
        None
    }
}

/// The key that a token names, whatever its case.
pub open spec fn token_key(name: Seq<char>) -> Option<KeyCode> {
    key_for(uppercase_text(name))
}

/// The tokens of an accelerator string: the pieces between `+`, trimmed.
pub open spec fn tokens_of(spec: Seq<char>) -> Seq<Seq<char>> {
    let pieces = split_on(spec, '+');
    Seq::new(pieces.len(), |i: int| trimmed(pieces[i]))
}

/// The tokens that are not modifier names, in order.
pub open spec fn key_tokens(tokens: Seq<Seq<char>>, platform: Platform) -> Seq<Seq<char>>
    decreases tokens.len(),
{
    if tokens.len() == 0 {
        Seq::empty()
    } else {
        let init = key_tokens(tokens.drop_last(), platform);
        if modifier_of(tokens.last(), platform) is Some {
            init
        } else {
            init.push(tokens.last())
        }
    }
}

/// Every token is a modifier name or a key name.
pub open spec fn all_known(tokens: Seq<Seq<char>>, platform: Platform) -> bool
    decreases tokens.len(),
{
    tokens.len() == 0 || (all_known(tokens.drop_last(), platform) && (modifier_of(
        tokens.last(),
        platform,
    ) is Some || token_key(tokens.last()) is Some))
}

/// Some token names the modifier `m`.
pub open spec fn has_modifier(tokens: Seq<Seq<char>>, platform: Platform, m: Modifier) -> bool
    decreases tokens.len(),
{
    tokens.len() > 0 && (has_modifier(tokens.drop_last(), platform, m) || modifier_of(
        tokens.last(),
        platform,
    ) == Some(m))
}

/// The modifier set that a list of tokens denotes; naming one twice changes
/// nothing.
pub open spec fn modifiers_of(tokens: Seq<Seq<char>>, platform: Platform) -> Modifiers {
    Modifiers {
        meta: has_modifier(tokens, platform, Modifier::Meta),
        shift: has_modifier(tokens, platform, Modifier::Shift),
        alt: has_modifier(tokens, platform, Modifier::Alt),
        control: has_modifier(tokens, platform, Modifier::Control),
    }
}

/// What an accelerator string denotes: a binding when every token is known
/// and exactly one of them names a key, otherwise the reason for rejecting it.
pub open spec fn parse_result(spec: Seq<char>, platform: Platform) -> Result<
    HotkeyBinding,
    InvalidHotkeySpec,
> {
    let tokens = tokens_of(spec);
    let keys = key_tokens(tokens, platform);
    if !all_known(tokens, platform) {
        Err(InvalidHotkeySpec::UnknownToken)
    } else if keys.len() == 0 {
        Err(InvalidHotkeySpec::NoKey)
    } else if keys.len() > 1 {
        Err(InvalidHotkeySpec::SeveralKeys)
    } else {
        Ok(HotkeyBinding { modifiers: modifiers_of(tokens, platform), key: token_key(keys[0])->0 })
    }
}

/// Looks an upper-case key name up in the key table.
pub fn key_code_for(upper: &str) -> (key: Option<KeyCode>)
    ensures
        key == key_for(upper@),
{
    if str_eq(upper, "A") {
        Some(KeyCode::KeyA)
    } else     if str_eq(upper, "B") {
        Some(KeyCode::KeyB)
    } else     if str_eq(upper, "C") {
        Some(KeyCode::KeyC)
    } else     if str_eq(upper, "D") {
        Some(KeyCode::KeyD)
    } else     if str_eq(upper, "E") {
        Some(KeyCode::KeyE)
    } else     if str_eq(upper, "F") {
        Some(KeyCode::KeyF)
    } else     if str_eq(upper, "G") {
        Some(KeyCode::KeyG)
    } else     if str_eq(upper, "H") {
        Some(KeyCode::KeyH)
    } else     if str_eq(upper, "I") {
        Some(KeyCode::KeyI)
    } else     if str_eq(upper, "J") {
        Some(KeyCode::KeyJ)
    } else     if str_eq(upper, "K") {
        Some(KeyCode::KeyK)
    } else     if str_eq(upper, "L") {
        Some(KeyCode::KeyL)
    } else     if str_eq(upper, "M") {
        Some(KeyCode::KeyM)
    } else     if str_eq(upper, "N") {
        Some(KeyCode::KeyN)
    } else     if str_eq(upper, "O") {
        Some(KeyCode::KeyO)
    } else     if str_eq(upper, "P") {
        Some(KeyCode::KeyP)
    } else     if str_eq(upper, "Q") {
        Some(KeyCode::KeyQ)
    } else     if str_eq(upper, "R") {
        Some(KeyCode::KeyR)
    } else     if str_eq(upper, "S") {
        Some(KeyCode::KeyS)
    } else     if str_eq(upper, "T") {
        Some(KeyCode::KeyT)
    } else     if str_eq(upper, "U") {
        Some(KeyCode::KeyU)
    } else     if str_eq(upper, "V") {
        Some(KeyCode::KeyV)
    } else     if str_eq(upper, "W") {
        Some(KeyCode::KeyW)
    } else     if str_eq(upper, "X") {
        Some(KeyCode::KeyX)
    } else     if str_eq(upper, "Y") {
        Some(KeyCode::KeyY)
    } else     if str_eq(upper, "Z") {
        Some(KeyCode::KeyZ)
    } else     if str_eq(upper, "0") {
        Some(KeyCode::Digit0)
    } else     if str_eq(upper, "1") {
        Some(KeyCode::Digit1)
    } else     if str_eq(upper, "2") {
        Some(KeyCode::Digit2)
    } else     if str_eq(upper, "3") {
        Some(KeyCode::Digit3)
    } else     if str_eq(upper, "4") {
        Some(KeyCode::Digit4)
    } else     if str_eq(upper, "5") {
        Some(KeyCode::Digit5)
    } else     if str_eq(upper, "6") {
        Some(KeyCode::Digit6)
    } else     if str_eq(upper, "7") {
        Some(KeyCode::Digit7)
    } else     if str_eq(upper, "8") {
        Some(KeyCode::Digit8)
    } else     if str_eq(upper, "9") {
        Some(KeyCode::Digit9)
    } else     if str_eq(upper, "F1") {
        Some(KeyCode::F1)
    } else     if str_eq(upper, "F2") {
        Some(KeyCode::F2)
    } else     if str_eq(upper, "F3") {
        Some(KeyCode::F3)
    } else     if str_eq(upper, "F4") {
        Some(KeyCode::F4)
    } else     if str_eq(upper, "F5") {
        Some(KeyCode::F5)
    } else     if str_eq(upper, "F6") {
        Some(KeyCode::F6)
    } else     if str_eq(upper, "F7") {
        Some(KeyCode::F7)
    } else     if str_eq(upper, "F8") {
        Some(KeyCode::F8)
    } else     if str_eq(upper, "F9") {
        Some(KeyCode::F9)
    } else     if str_eq(upper, "F10") {
        Some(KeyCode::F10)
    } else     if str_eq(upper, "F11") {
        Some(KeyCode::F11)
    } else     if str_eq(upper, "F12") {
        Some(KeyCode::F12)
    } else     if str_eq(upper, "SPACE") {
        Some(KeyCode::Space)
    } else     if str_eq(upper, "ENTER") {
        Some(KeyCode::Enter)
    } else     if str_eq(upper, "ESCAPE") {
        Some(KeyCode::Escape)
    } else {
        None
    }
}

/// The key that `key` names in any letter case.
pub fn parse_key_code(key: &str) -> (code: Result<KeyCode, InvalidHotkeySpec>)
    ensures
        code == match token_key(key@) {
            Some(k) => Ok::<KeyCode, InvalidHotkeySpec>(k),
            None => Err(InvalidHotkeySpec::UnknownToken),
        },
{
    let upper: String = to_uppercase(key);
    match key_code_for(upper.as_str()) {
        Some(k) => Ok(k),
        None => Err(InvalidHotkeySpec::UnknownToken),
    }
}

/// The modifier that `name` names, if any.
pub fn parse_modifier(name: &str, platform: Platform) -> (m: Option<Modifier>)
    ensures
        m == modifier_of(name@, platform),
{
    if str_eq(name, "CommandOrControl") {
        match platform {
            Platform::MacOs => Some(Modifier::Meta),
            Platform::Other => Some(Modifier::Control),
        }
    } else if str_eq(name, "Shift") {
        Some(Modifier::Shift)
    } else if str_eq(name, "Alt") {
        Some(Modifier::Alt)
    } else if str_eq(name, "Control") {
        Some(Modifier::Control)
    } else if str_eq(name, "Meta") || str_eq(name, "Cmd") || str_eq(name, "Command") {
        Some(Modifier::Meta)
    } else {
        None
    }
}

/// Parses an accelerator string into a binding.
pub fn parse_hotkey_string(hotkey_str: &str, platform: Platform) -> (parsed: Result<
    HotkeyBinding,
    InvalidHotkeySpec,
>)
    ensures
        parsed == parse_result(hotkey_str@, platform),
        parsed is Ok <==> all_known(tokens_of(hotkey_str@), platform) && key_tokens(
            tokens_of(hotkey_str@),
            platform,
        ).len() == 1,
{
    let pieces: Vec<&str> = split(hotkey_str, '+');
    let ghost tokens = tokens_of(hotkey_str@);
    let mut mods = Modifiers { meta: false, shift: false, alt: false, control: false };
    let mut known: bool = true;
    let mut key: Option<KeyCode> = None;
    let mut key_count: usize = 0;
    let mut i: usize = 0;
    assert(tokens.take(0) =~= Seq::<Seq<char>>::empty());
    while i < pieces.len()
        invariant
            i <= pieces.len(),
            pieces@.len() == tokens.len(),
            str_views(pieces@) == split_on(hotkey_str@, '+'),
            tokens == tokens_of(hotkey_str@),
            known == all_known(tokens.take(i as int), platform),
            mods == modifiers_of(tokens.take(i as int), platform),
            key_count == key_tokens(tokens.take(i as int), platform).len(),
            key_count <= i,
            known && key_count > 0 ==> key is Some && key == token_key(
                key_tokens(tokens.take(i as int), platform)[0],
            ),
        decreases pieces.len() - i,
    {
        let token: &str = trim(pieces[i]);
        proof {
            assert(str_views(pieces@)[i as int] == pieces@[i as int]@);
            assert(tokens[i as int] == token@);
            assert(tokens.take(i + 1).drop_last() =~= tokens.take(i as int));
            assert(tokens.take(i + 1).last() == token@);
        }
        match parse_modifier(token, platform) {
            Some(Modifier::Meta) => {
                mods.meta = true;
            },
            Some(Modifier::Shift) => {
                mods.shift = true;
            },
            Some(Modifier::Alt) => {
                mods.alt = true;
            },
            Some(Modifier::Control) => {
                mods.control = true;
            },
            None => {
                match parse_key_code(token) {
                    Ok(k) => {
                        if key_count == 0 {
                            key = Some(k);
                        }
                    },
                    Err(_) => {
                        known = false;
                    },
                }
                key_count += 1;
            },
        }
        i += 1;
    }
    assert(tokens.take(i as int) =~= tokens);
    if !known {
        Err(InvalidHotkeySpec::UnknownToken)
    } else if key_count == 0 {
        Err(InvalidHotkeySpec::NoKey)
    } else if key_count > 1 {
        Err(InvalidHotkeySpec::SeveralKeys)
    } else {
        match key {
            Some(k) => Ok(HotkeyBinding { modifiers: mods, key: k }),
            None => Err(InvalidHotkeySpec::UnknownToken),
        }
    }
}

/// Checks an accelerator string without binding it.
pub fn test_global_hotkey(hotkey: &str, platform: Platform) -> (checked: Result<
    (),
    InvalidHotkeySpec,
>)
    ensures
        match parse_result(hotkey@, platform) {
            Ok(_) => checked is Ok,
            Err(e) => checked == Err::<(), InvalidHotkeySpec>(e),
        },
{
    match parse_hotkey_string(hotkey, platform) {
        Ok(_) => Ok(()),
        Err(e) => Err(e),
    }
}

/// One step of putting a binding in force with the system's shortcut
/// listener.
#[derive(Clone, Copy, Debug, PartialEq, Eq, Structural)]
pub enum RegistryAction {
    /// Drop every binding that is registered.
    UnregisterAll,
    /// Register this binding.
    Register(HotkeyBinding),
}

/// The steps that put an accelerator string in force: the old binding is
/// dropped, then the new one is registered. A string that does not parse is
/// rejected before any step, so the old binding stays.
pub fn update_global_shortcut(hotkey_str: &str, platform: Platform) -> (steps: Result<
    Vec<RegistryAction>,
    InvalidHotkeySpec,
>)
    ensures
        match parse_result(hotkey_str@, platform) {
            Ok(binding) => steps is Ok && steps->Ok_0@ == seq![
                RegistryAction::UnregisterAll,
                RegistryAction::Register(binding),
            ],
            Err(e) => steps == Err::<Vec<RegistryAction>, InvalidHotkeySpec>(e),
        },
{
    match parse_hotkey_string(hotkey_str, platform) {
        Ok(binding) => {
            let mut steps: Vec<RegistryAction> = Vec::new();
            steps.push(RegistryAction::UnregisterAll);
            steps.push(RegistryAction::Register(binding));
            assert(steps@ =~= seq![
                RegistryAction::UnregisterAll,
                RegistryAction::Register(binding),
            ]);
            Ok(steps)
        },
        Err(e) => Err(e),
    }
}

/// An accelerator string is accepted exactly when each of its tokens is a
/// modifier name or a key name and exactly one of them is a key name; every
/// other string is rejected. Two key names with the same upper-case form
/// name the same key.
pub proof fn lemma_parse_is_total(spec: Seq<char>, platform: Platform)
    ensures
        parse_result(spec, platform) is Ok <==> all_known(tokens_of(spec), platform) && key_tokens(
            tokens_of(spec),
            platform,
        ).len() == 1,
        parse_result(spec, platform) is Err <==> !(all_known(tokens_of(spec), platform)
            && key_tokens(tokens_of(spec), platform).len() == 1),
        forall|a: Seq<char>, b: Seq<char>|
            uppercase_text(a) == uppercase_text(b) ==> #[trigger] token_key(a) == #[trigger] token_key(
                b,
            ),
{
}

/// Naming a modifier again changes nothing.
pub proof fn lemma_repeated_modifier(tokens: Seq<Seq<char>>, platform: Platform, i: int)
    requires
        0 <= i < tokens.len(),
        modifier_of(tokens[i], platform) is Some,
    ensures
        modifiers_of(tokens.push(tokens[i]), platform) == modifiers_of(tokens, platform),
        key_tokens(tokens.push(tokens[i]), platform) == key_tokens(tokens, platform),
        all_known(tokens.push(tokens[i]), platform) == all_known(tokens, platform),
{
    let more = tokens.push(tokens[i]);
    assert(more.drop_last() =~= tokens);
    lemma_has_modifier(tokens, platform, i);
}

proof fn lemma_has_modifier(tokens: Seq<Seq<char>>, platform: Platform, i: int)
    requires
        0 <= i < tokens.len(),
        modifier_of(tokens[i], platform) is Some,
    ensures
        has_modifier(tokens, platform, modifier_of(tokens[i], platform)->0),
    decreases tokens.len(),
{
    if i < tokens.len() - 1 {
        lemma_has_modifier(tokens.drop_last(), platform, i);
    }
}

} // verus!
