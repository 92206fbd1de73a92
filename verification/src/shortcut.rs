//! Global-shortcut bookkeeping: the accelerator grammar check and the
//! registration state.  Talking to the operating system lives with the
//! caller; the decisions are here.

use vstd::prelude::*;
use crate::adapter::{char_index_of, lemma_char_index_of};
use crate::types::string_is;

verus! {

/// Why a shortcut operation failed.
#[derive(Debug, Clone)]
pub enum ShortcutError {
    InvalidFormat(String),
    RegisterFailed(String),
    UnregisterFailed(String),
    AlreadyInUse(String),
    ParseFailed(String),
}

/// An accelerator split at every plus sign.
pub open spec fn split_plus(s: Seq<char>) -> Seq<Seq<char>>
    decreases s.len(),
{
    let i = char_index_of(s, '+');
    if i < 0 {
        seq![s]
    } else {
        proof {
            lemma_char_index_of(s, '+');
        }
        seq![s.take(i)] + split_plus(s.skip(i + 1))
    }
}

/// The part names a modifier key.
pub open spec fn is_modifier(p: Seq<char>) -> bool {
    p == "Ctrl"@ || p == "Control"@ || p == "CommandOrControl"@ || p == "CmdOrCtrl"@ || p
        == "Command"@ || p == "Cmd"@ || p == "Super"@ || p == "Meta"@ || p == "Alt"@ || p
        == "Option"@ || p == "AltGr"@ || p == "Shift"@
}

/// The character is a letter or digit.
pub open spec fn is_alnum(c: char) -> bool {
    ('a' <= c && c <= 'z') || ('A' <= c && c <= 'Z') || ('0' <= c && c <= '9')
}

/// The part names a function key.
pub open spec fn is_fkey(p: Seq<char>) -> bool {
    p == "F1"@ || p == "F2"@ || p == "F3"@ || p == "F4"@ || p == "F5"@ || p == "F6"@ || p
        == "F7"@ || p == "F8"@ || p == "F9"@ || p == "F10"@ || p == "F11"@ || p == "F12"@ || p
        == "F13"@ || p == "F14"@ || p == "F15"@ || p == "F16"@ || p == "F17"@ || p == "F18"@
        || p == "F19"@ || p == "F20"@ || p == "F21"@ || p == "F22"@ || p == "F23"@ || p
        == "F24"@
}

/// The part names a non-modifier key.
pub open spec fn is_key(p: Seq<char>) -> bool {
    (p.len() == 1 && is_alnum(p[0])) || is_fkey(p) || p == "Space"@ || p == "Enter"@ || p
        == "Return"@ || p == "Tab"@ || p == "Escape"@ || p == "Esc"@ || p == "Backspace"@ || p
        == "Delete"@ || p == "Home"@ || p == "End"@ || p == "PageUp"@ || p == "PageDown"@ || p
        == "Up"@ || p == "Down"@ || p == "Left"@ || p == "Right"@
}

/// A well-formed accelerator: modifiers, then one key, joined by plus
/// signs.
pub open spec fn valid_shortcut(s: Seq<char>) -> bool {
    let parts = split_plus(s);
    s.len() > 0 && is_key(parts.last()) && (forall|i: int|
        0 <= i < parts.len() - 1 ==> is_modifier(#[trigger] parts[i]))
}

/// Locates the leftmost plus sign at or after `from`.
fn find_plus_from(s: &str, from: usize) -> (r: Option<usize>)
    requires
        from <= s@.len(),
    ensures
        match r {
            Some(k) => from <= k && k < s@.len() && char_index_of(s@.skip(from as int), '+')
                == k - from,
            None => char_index_of(s@.skip(from as int), '+') < 0,
        },
{
    let ghost tail = s@.skip(from as int);
    let n = s.unicode_len();
    let mut k: usize = from;
    while k < n
        invariant
            from <= k <= n,
            n == s@.len(),
            from <= s@.len(),
            tail == s@.skip(from as int),
            forall|j: int| from <= j < k ==> s@[j] != '+',
        decreases n - k,
    {
        let c = s.get_char(k);
        if c == '+' {
            proof {
                assert(forall|j: int| 0 <= j < tail.len() ==> tail[j] == s@[from + j]);
                assert(tail[k - from] == '+');
                assert forall|j: int| 0 <= j < k - from implies tail[j] != '+' by {
                    assert(s@[from + j] != '+');
                }
                lemma_char_index_of(tail, '+');
                let i = char_index_of(tail, '+');
                if i < 0 {
                    assert(tail[k - from] != '+');
                } else if i < k - from {
                    assert(tail[i] != '+');
                    assert(tail[i] == '+');
                } else if i > k - from {
                    assert(tail[k - from] != '+');
                }
            }
            return Some(k);
        }
        k = k + 1;
    }
    proof {
        assert(forall|j: int| 0 <= j < tail.len() ==> tail[j] == s@[from + j]);
        assert forall|j: int| 0 <= j < tail.len() implies tail[j] != '+' by {
            assert(s@[from + j] != '+');
        }
        lemma_char_index_of(tail, '+');
        if char_index_of(tail, '+') >= 0 {
            assert(tail[char_index_of(tail, '+')] == '+');
        }
    }
    None
}

/// Splits an accelerator at every plus sign.
fn split_plus_exec(s: &str) -> (parts: Vec<String>)
    ensures
        parts@.map_values(|p: String| p@) == split_plus(s@),
{
    let mut parts: Vec<String> = Vec::new();
    let n = s.unicode_len();
    let mut pos: usize = 0;
    let ghost whole = s@;
    proof {
        assert(whole.skip(0) =~= whole);
    }
    loop
        invariant
            pos <= n,
            n == s@.len(),
            whole == s@,
            split_plus(whole) == parts@.map_values(|p: String| p@) + split_plus(s@.skip(
                pos as int)),
        decreases n - pos,
    {
        let ghost tail = s@.skip(pos as int);
        let nl = find_plus_from(s, pos);
        match nl {
            None => {
                proof {
                    lemma_char_index_of(tail, '+');
                }
                let piece = s.substring_char(pos, n).to_owned();
                let ghost pv0 = parts@.map_values(|p: String| p@);
                parts.push(piece);
                proof {
                    assert(split_plus(tail) == seq![tail]);
                    let pv = parts@.map_values(|p: String| p@);
                    assert(pv.drop_last() =~= pv0);
                    assert(pv[pv.len() - 1] == parts@[parts@.len() - 1]@);
                    assert(parts@[parts@.len() - 1]@ =~= tail);
                    assert(pv =~= pv0 + seq![tail]);
                    assert(split_plus(whole) =~= pv);
                }
                return parts;
            },
            Some(k) => {
                proof {
                    lemma_char_index_of(tail, '+');
                    assert(char_index_of(tail, '+') == k - pos);
                }
                let piece = s.substring_char(pos, k).to_owned();
                let ghost pv0 = parts@.map_values(|p: String| p@);
                parts.push(piece);
                proof {
                    let i = k - pos;
                    assert(split_plus(tail) == seq![tail.take(i)] + split_plus(tail.skip(
                        i + 1)));
                    assert(tail.take(i) =~= s@.subrange(pos as int, k as int));
                    assert(tail.skip(i + 1) =~= s@.skip(k + 1));
                    let pv = parts@.map_values(|p: String| p@);
                    assert(pv.drop_last() =~= pv0);
                    assert(pv[pv.len() - 1] == parts@[parts@.len() - 1]@);
                    assert((pv0 + seq![tail.take(i)]) + split_plus(s@.skip(k + 1)) =~= pv0 + (
                    seq![tail.take(i)] + split_plus(s@.skip(k + 1))));
                    assert(split_plus(whole) =~= pv + split_plus(s@.skip(k + 1)));
                }
                pos = k + 1;
            },
        }
    }
}

/// The part names a modifier key.
fn is_modifier_exec(p: &String) -> (r: bool)
    ensures
        r == is_modifier(p@),
{
    string_is(p, "Ctrl") || string_is(p, "Control") || string_is(p, "CommandOrControl")
        || string_is(p, "CmdOrCtrl") || string_is(p, "Command") || string_is(p, "Cmd")
        || string_is(p, "Super") || string_is(p, "Meta") || string_is(p, "Alt") || string_is(
        p,
        "Option",
    ) || string_is(p, "AltGr") || string_is(p, "Shift")
}

/// The part names a non-modifier key.
fn is_key_exec(p: &String) -> (r: bool)
    ensures
        r == is_key(p@),
{
    let single = if p.as_str().unicode_len() == 1 {
        let c = p.as_str().get_char(0);
        ('a' <= c && c <= 'z') || ('A' <= c && c <= 'Z') || ('0' <= c && c <= '9')
    } else {
        false
    };
    single || string_is(p, "F1") || string_is(p, "F2") || string_is(p, "F3") || string_is(
        p,
        "F4",
    ) || string_is(p, "F5") || string_is(p, "F6") || string_is(p, "F7") || string_is(p, "F8")
        || string_is(p, "F9") || string_is(p, "F10") || string_is(p, "F11") || string_is(
        p,
        "F12",
    ) || string_is(p, "F13") || string_is(p, "F14") || string_is(p, "F15") || string_is(
        p,
        "F16",
    ) || string_is(p, "F17") || string_is(p, "F18") || string_is(p, "F19") || string_is(
        p,
        "F20",
    ) || string_is(p, "F21") || string_is(p, "F22") || string_is(p, "F23") || string_is(
        p,
        "F24",
    ) || string_is(p, "Space") || string_is(p, "Enter") || string_is(p, "Return") || string_is(
        p,
        "Tab",
    ) || string_is(p, "Escape") || string_is(p, "Esc") || string_is(p, "Backspace")
        || string_is(p, "Delete") || string_is(p, "Home") || string_is(p, "End") || string_is(
        p,
        "PageUp",
    ) || string_is(p, "PageDown") || string_is(p, "Up") || string_is(p, "Down") || string_is(
        p,
        "Left",
    ) || string_is(p, "Right")
}

/// Checks an accelerator against the grammar: modifiers joined by plus
/// signs, ending in one key.  The empty accelerator is rejected with its
/// own notice.
pub fn validate(shortcut: &str) -> (r: Result<(), ShortcutError>)
    ensures
        r is Ok <==> valid_shortcut(shortcut@),
        r is Err ==> (r->Err_0 is InvalidFormat),
{
    if shortcut.is_empty() {
        return Err(ShortcutError::InvalidFormat(String::from_str("快捷键不能为空")));
    }
    let parts = split_plus_exec(shortcut);
    let ghost pm = parts@.map_values(|p: String| p@);
    let n = parts.len();
    proof {
        assert(pm.len() > 0) by {
            let i = char_index_of(shortcut@, '+');
            if i < 0 {
            } else {
                lemma_char_index_of(shortcut@, '+');
            }
        }
    }
    let mut k: usize = 0;
    while k < n - 1
        invariant
            n == parts@.len(),
            pm == parts@.map_values(|p: String| p@),
            pm == split_plus(shortcut@),
            shortcut@.len() > 0,
            n >= 1,
            k <= n - 1,
            forall|i: int| 0 <= i < k ==> is_modifier(#[trigger] pm[i]),
        decreases n - k,
    {
        if !is_modifier_exec(&parts[k]) {
            proof {
                assert(!is_modifier(pm[k as int]));
            }
            return Err(ShortcutError::InvalidFormat(String::from_str(
                "unrecognized modifier key",
            )));
        }
        proof {
            assert(pm[k as int] == parts@[k as int]@);
        }
        k = k + 1;
    }
    if !is_key_exec(&parts[n - 1]) {
        proof {
            assert(pm[n - 1] == parts@[n - 1]@);
            assert(pm.last() == pm[n - 1]);
        }
        return Err(ShortcutError::InvalidFormat(String::from_str("unrecognized key")));
    }
    proof {
        assert(pm.last() == pm[n - 1]);
        assert(is_key(pm.last()));
    }
    Ok(())
}

/// Why the screenshot feature failed to come up or tear down.
#[derive(Debug, Clone)]
pub enum ScreenshotError {
    /// The feature configuration could not be loaded.
    Config(String),
    /// The shortcut could not be handled.
    Shortcut(ShortcutError),
    /// The capture itself failed.
    Capture(String),
    /// The floating window could not be handled.
    Window(String),
}

/// The registration state of the global shortcut.
#[derive(Debug, Clone)]
pub struct ShortcutRegistry {
    registered: bool,
    current: Option<String>,
}

impl ShortcutRegistry {
    /// Whether a shortcut is registered.
    pub closed spec fn registered_spec(&self) -> bool {
        self.registered
    }

    /// The registered accelerator, if any.
    pub closed spec fn current_spec(&self) -> Option<Seq<char>> {
        match &self.current {
            Some(s) => Some(s@),
            None => None,
        }
    }

    /// A registry with nothing registered.
    pub fn new() -> (r: Self)
        ensures
            !r.registered_spec(),
            r.current_spec() is None,
    {
        ShortcutRegistry { registered: false, current: None }
    }

    /// Records a successful registration.
    pub fn mark_registered(&mut self, shortcut: &String)
        ensures
            final(self).registered_spec(),
            final(self).current_spec() == Some(shortcut@),
    {
        self.registered = true;
        self.current = Some(shortcut.clone());
    }

    /// Records a successful unregistration.
    pub fn mark_unregistered(&mut self)
        ensures
            !final(self).registered_spec(),
            final(self).current_spec() is None,
    {
        self.registered = false;
        self.current = None;
    }
}

/// Whether the global shortcut is registered.
pub fn is_registered(registry: &ShortcutRegistry) -> (r: bool)
    ensures
        r == registry.registered_spec(),
{
    registry.registered_probe()
}

impl ShortcutRegistry {
    /// Reads the registered flag.
    fn registered_probe(&self) -> (r: bool)
        ensures
            r == self.registered_spec(),
    {
        self.registered
    }

    /// Reads the registered accelerator.
    fn current_probe(&self) -> (r: Option<String>)
        ensures
            match (&r, self.current_spec()) {
                (Some(a), Some(b)) => a@ == b,
                (None, None) => true,
                _ => false,
            },
    {
        match &self.current {
            Some(s) => Some(s.clone()),
            None => None,
        }
    }
}

/// The currently registered accelerator, if any.
pub fn get_current(registry: &ShortcutRegistry) -> (r: Option<String>)
    ensures
        match (&r, registry.current_spec()) {
            (Some(a), Some(b)) => a@ == b,
            (None, None) => true,
            _ => false,
        },
{
    registry.current_probe()
}

} // verus!
