//! The key-binding translator: from an action name to the configured
//! physical key name, and from that name to the symbolic key the platform
//! injector understands. Resolution is independent per call; the core keeps
//! no record of which keys are held (the client sends matching press and
//! release pairs), so the cleanup capability has nothing to undo.

use vstd::prelude::*;
use vstd::string::StrSliceExecFns;

use crate::config::{lookup, BindingView, Config};
use crate::text::str_eq;

verus! {

broadcast use vstd::string::group_string_axioms;

/// A symbolic key the platform injector can press or release.
#[derive(Clone, Copy, Debug, PartialEq, Eq, Structural)]
pub enum Key {
    Unicode(char),
    Space,
    Return,
    Escape,
    Tab,
    Backspace,
    UpArrow,
    DownArrow,
    LeftArrow,
    RightArrow,
}

/// One synthetic key event for the external injection capability: which
/// symbolic key, and whether it goes down or up.
#[derive(Clone, Copy, Debug, PartialEq, Eq, Structural)]
pub struct KeyInjection {
    pub key: Key,
    pub pressed: bool,
}

/// What `str::to_lowercase` returns for a string with these characters.
pub uninterp spec fn lower_of(s: Seq<char>) -> Seq<char>;

/// Relies on str::to_lowercase: the result depends on the characters alone.
#[verifier::external_body]
fn to_lowercase(s: &str) -> (r: String)
    ensures
        r@ == lower_of(s@),
{
    s.to_lowercase()
}

/// The symbolic key a physical key name resolves to. `lowered` is the name
/// folded to lower case, `orig` the name as configured: the named arms match
/// the folded name, while the single-character fallback keeps the original
/// character.
pub open spec fn key_of(lowered: Seq<char>, orig: Seq<char>) -> Option<Key> {
    if lowered.len() == 1 && 'a' <= lowered[0] <= 'z' {
        Some(Key::Unicode(lowered[0]))
    } else if lowered == "space"@ {
        Some(Key::Space)
    } else if lowered == "enter"@ || lowered == "return"@ {
        Some(Key::Return)
    } else if lowered == "escape"@ || lowered == "esc"@ {
        Some(Key::Escape)
    } else if lowered == "tab"@ {
        Some(Key::Tab)
    } else if lowered == "backspace"@ {
        Some(Key::Backspace)
    } else if lowered == "up"@ {
        Some(Key::UpArrow)
    } else if lowered == "down"@ {
        Some(Key::DownArrow)
    } else if lowered == "left"@ {
        Some(Key::LeftArrow)
    } else if lowered == "right"@ {
        Some(Key::RightArrow)
    } else if lowered == ";"@ || lowered == "semicolon"@ {
        Some(Key::Unicode(';'))
    } else if lowered == "'"@ || lowered == "apostrophe"@ {
        Some(Key::Unicode('\''))
    } else if lowered == ","@ || lowered == "comma"@ {
        Some(Key::Unicode(','))
    } else if lowered == "."@ || lowered == "period"@ {
        Some(Key::Unicode('.'))
    } else if lowered == "/"@ || lowered == "slash"@ {
        Some(Key::Unicode('/'))
    } else if vstd::utf8::is_ascii_chars(orig) && orig.len() == 1 {
        Some(Key::Unicode(orig[0]))
    } else {
        None
    }
}

/// Whether `s` is one ASCII character. Byte length and character length
/// agree exactly on the ASCII strings.
fn is_single_ascii(s: &str) -> (r: bool)
    ensures
        r == (vstd::utf8::is_ascii_chars(s@) && s@.len() == 1),
{
    if s.is_ascii() {
        s.unicode_len() == 1
    } else {
        false
    }
}

/// The symbolic key for an already-folded key name. `orig` is the name
/// before folding, for the single-character fallback.
pub fn key_from_lowered(lowered: &str, orig: &str) -> (r: Option<Key>)
    ensures
        r == key_of(lowered@, orig@),
{
    if is_single_ascii(lowered) {
        let c = lowered.get_char(0);
        if 'a' <= c && c <= 'z' {
            return Some(Key::Unicode(c));
        }
    }
    proof {
        if lowered@.len() == 1 && 'a' <= lowered@[0] <= 'z' {
            assert(vstd::utf8::is_ascii_chars(lowered@)) by {
                assert forall|i: int|
                    0 <= i < lowered@.len() implies '\0' <= #[trigger] lowered@[i]
                    <= '\u{7f}' by {
                    assert(i == 0);
                }
            }
            assert(false);
        }
    }
    if str_eq(lowered, "space") {
        Some(Key::Space)
    } else if str_eq(lowered, "enter") || str_eq(lowered, "return") {
        Some(Key::Return)
    } else if str_eq(lowered, "escape") || str_eq(lowered, "esc") {
        Some(Key::Escape)
    } else if str_eq(lowered, "tab") {
        Some(Key::Tab)
    } else if str_eq(lowered, "backspace") {
        Some(Key::Backspace)
    } else if str_eq(lowered, "up") {
        Some(Key::UpArrow)
    } else if str_eq(lowered, "down") {
        Some(Key::DownArrow)
    } else if str_eq(lowered, "left") {
        Some(Key::LeftArrow)
    } else if str_eq(lowered, "right") {
        Some(Key::RightArrow)
    } else if str_eq(lowered, ";") || str_eq(lowered, "semicolon") {
        Some(Key::Unicode(';'))
    } else if str_eq(lowered, "'") || str_eq(lowered, "apostrophe") {
        Some(Key::Unicode('\''))
    } else if str_eq(lowered, ",") || str_eq(lowered, "comma") {
        Some(Key::Unicode(','))
    } else if str_eq(lowered, ".") || str_eq(lowered, "period") {
        Some(Key::Unicode('.'))
    } else if str_eq(lowered, "/") || str_eq(lowered, "slash") {
        Some(Key::Unicode('/'))
    } else if is_single_ascii(orig) {
        Some(Key::Unicode(orig.get_char(0)))
    } else {
        None
    }
}

/// The symbolic key a configured key name denotes: named keys are matched
/// case-insensitively, and any other single character stands for itself.
pub fn string_to_key(key_str: &str) -> (r: Option<Key>)
    ensures
        r == key_of(lower_of(key_str@), key_str@),
{
    let lowered = to_lowercase(key_str);
    key_from_lowered(lowered.as_str(), key_str)
}

/// The injection a press or release of `action` causes under `bindings`:
/// none when the action is unbound or its binding names no known key.
pub open spec fn injection_of(
    bindings: Seq<BindingView>,
    action: Seq<char>,
    pressed: bool,
) -> Option<KeyInjection> {
    match lookup(bindings, action) {
        Some(name) => match key_of(lower_of(name), name) {
            Some(key) => Some(KeyInjection { key, pressed }),
            None => None,
        },
        None => None,
    }
}

/// Resolves `key_name` and converts its binding; shared by press and
/// release.
fn injection_for(key_name: &str, config: &Config, pressed: bool) -> (r: Option<KeyInjection>)
    ensures
        r == injection_of(config@.key_bindings, key_name@, pressed),
{
    match config.resolve(key_name) {
        Some(binding) => match string_to_key(binding.as_str()) {
            Some(key) => Some(KeyInjection { key, pressed }),
            None => None,
        },
        None => None,
    }
}

/// The key-down event a press of `key_name` should inject, or `None` when
/// the action is unbound or its binding cannot be resolved (logged by the
/// caller, otherwise without effect).
pub fn press_key(key_name: &str, config: &Config) -> (r: Option<KeyInjection>)
    ensures
        r == injection_of(config@.key_bindings, key_name@, true),
{
    injection_for(key_name, config, true)
}

/// The key-up event a release of `key_name` should inject, or `None` as for
/// [`press_key`].
pub fn release_key(key_name: &str, config: &Config) -> (r: Option<KeyInjection>)
    ensures
        r == injection_of(config@.key_bindings, key_name@, false),
{
    injection_for(key_name, config, false)
}

/// The cleanup capability a session invokes on disconnect. Deliberately
/// without effect: the core keeps no record of held keys, the client being
/// responsible for releasing what it pressed.
pub fn release_all(_config: &Config) {
}

} // verus!
