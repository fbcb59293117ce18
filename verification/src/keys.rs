//! Key names and held-key tracking for the virtual keyboard sink.
//!
//! Key names arrive as plain strings, case-insensitively, in a bare form
//! (`"enter"`) or an overlay form in braces (`"{enter}"`); anything else
//! names the literal character it starts with.  The tracker remembers every
//! key pressed and not yet released, so a shutdown pass can release them
//! all — a host must never be left with a key held by a dead process.

use vstd::prelude::*;

verus! {

/// A key the sink can press or release.
#[derive(Clone, Copy, Debug, PartialEq, Eq, Structural)]
pub enum KeyIdent {
    Meta,
    Backspace,
    Tab,
    Return,
    Shift,
    Control,
    Alt,
    Space,
    CapsLock,
    Escape,
    Delete,
    LeftArrow,
    RightArrow,
    UpArrow,
    DownArrow,
    PrintScr,
    MediaPlayPause,
    MediaStop,
    MediaPrevTrack,
    MediaNextTrack,
    VolumeMute,
    VolumeDown,
    VolumeUp,
    End,
    F1,
    F2,
    F3,
    F4,
    F5,
    F6,
    F7,
    F8,
    F9,
    F10,
    F11,
    F12,
    Unicode(char),
}

/// ASCII lowercasing of one character; everything else is unchanged.
pub open spec fn spec_lower_char(c: char) -> char {
    if 65 <= c as int <= 90 {
        ((c as u8) + 32) as char
    } else {
        c
    }
}

/// ASCII lowercasing of a whole string.
pub open spec fn spec_lower(s: Seq<char>) -> Seq<char> {
    s.map_values(|c: char| spec_lower_char(c))
}

/// Lowercases one character.
pub fn lower_char(c: char) -> (r: char)
    ensures
        r == spec_lower_char(c),
{
    let code = c as u32;
    if 65 <= code && code <= 90 {
        ((c as u8) + 32) as char
    } else {
        c
    }
}

/// Whether a string, lowercased, reads as the given name.
pub fn eq_lower(s: &str, name: &str) -> (r: bool)
    ensures
        r == (spec_lower(s@) == name@),
{
    let n = s.unicode_len();
    if n != name.unicode_len() {
        proof {
            assert(spec_lower(s@).len() == s@.len());
        }
        return false;
    }
    let mut i: usize = 0;
    while i < n
        invariant
            n == s@.len(),
            n == name@.len(),
            i <= n,
            forall|k: int| 0 <= k < i ==> spec_lower(s@)[k] == name@[k],
        decreases n - i,
    {
        let c = lower_char(s.get_char(i));
        if c != name.get_char(i) {
            proof {
                assert(spec_lower(s@)[i as int] != name@[i as int]);
            }
            return false;
        }
        i = i + 1;
    }
    proof {
        assert(spec_lower(s@) =~= name@);
    }
    true
}

/// Which key a name denotes: the known names, bare or braced, compared
/// case-insensitively; an empty name denotes nothing; any other name
/// denotes its own first character.
pub open spec fn spec_parse_key(s: Seq<char>) -> Option<KeyIdent> {
    let ls = spec_lower(s);
    if s.len() == 0 {
        None
    } else if ls == "meta"@ || ls == "{meta}"@ {
        Some(KeyIdent::Meta)
    } else if ls == "backspace"@ || ls == "{bksp}"@ {
        Some(KeyIdent::Backspace)
    } else if ls == "tab"@ || ls == "{tab}"@ {
        Some(KeyIdent::Tab)
    } else if ls == "enter"@ || ls == "{enter}"@ {
        Some(KeyIdent::Return)
    } else if ls == "shift"@ || ls == "{shift}"@ {
        Some(KeyIdent::Shift)
    } else if ls == "ctrl"@ || ls == "control"@ || ls == "{control}"@ {
        Some(KeyIdent::Control)
    } else if ls == "alt"@ || ls == "{alt}"@ {
        Some(KeyIdent::Alt)
    } else if ls == "space"@ || ls == "{space}"@ {
        Some(KeyIdent::Space)
    } else if ls == "lock"@ || ls == "{lock}"@ {
        Some(KeyIdent::CapsLock)
    } else if ls == "escape"@ || ls == "{escape}"@ {
        Some(KeyIdent::Escape)
    } else if ls == "delete"@ || ls == "{delete}"@ {
        Some(KeyIdent::Delete)
    } else if ls == "arrowleft"@ || ls == "{arrowleft}"@ {
        Some(KeyIdent::LeftArrow)
    } else if ls == "arrowright"@ || ls == "{arrowright}"@ {
        Some(KeyIdent::RightArrow)
    } else if ls == "arrowup"@ || ls == "{arrowup}"@ {
        Some(KeyIdent::UpArrow)
    } else if ls == "arrowdown"@ || ls == "{arrowdown}"@ {
        Some(KeyIdent::DownArrow)
    } else if ls == "prtscr"@ || ls == "{prtscr}"@ {
        Some(KeyIdent::PrintScr)
    } else if ls == "mediaplaypause"@ || ls == "{mediaplaypause}"@ {
        Some(KeyIdent::MediaPlayPause)
    } else if ls == "mediastop"@ || ls == "{mediastop}"@ {
        Some(KeyIdent::MediaStop)
    } else if ls == "mediatrackprevious"@ || ls == "{mediatrackprevious}"@ {
        Some(KeyIdent::MediaPrevTrack)
    } else if ls == "mediatracknext"@ || ls == "{mediatracknext}"@ {
        Some(KeyIdent::MediaNextTrack)
    } else if ls == "audiovolumemute"@ || ls == "{audiovolumemute}"@ {
        Some(KeyIdent::VolumeMute)
    } else if ls == "audiovolumedown"@ || ls == "{audiovolumedown}"@ {
        Some(KeyIdent::VolumeDown)
    } else if ls == "audiovolumeup"@ || ls == "{audiovolumeup}"@ {
        Some(KeyIdent::VolumeUp)
    } else if ls == "end"@ || ls == "{end}"@ {
        Some(KeyIdent::End)
    } else if ls == "f1"@ || ls == "{f1}"@ {
        Some(KeyIdent::F1)
    } else if ls == "f2"@ || ls == "{f2}"@ {
        Some(KeyIdent::F2)
    } else if ls == "f3"@ || ls == "{f3}"@ {
        Some(KeyIdent::F3)
    } else if ls == "f4"@ || ls == "{f4}"@ {
        Some(KeyIdent::F4)
    } else if ls == "f5"@ || ls == "{f5}"@ {
        Some(KeyIdent::F5)
    } else if ls == "f6"@ || ls == "{f6}"@ {
        Some(KeyIdent::F6)
    } else if ls == "f7"@ || ls == "{f7}"@ {
        Some(KeyIdent::F7)
    } else if ls == "f8"@ || ls == "{f8}"@ {
        Some(KeyIdent::F8)
    } else if ls == "f9"@ || ls == "{f9}"@ {
        Some(KeyIdent::F9)
    } else if ls == "f10"@ || ls == "{f10}"@ {
        Some(KeyIdent::F10)
    } else if ls == "f11"@ || ls == "{f11}"@ {
        Some(KeyIdent::F11)
    } else if ls == "f12"@ || ls == "{f12}"@ {
        Some(KeyIdent::F12)
    } else {
        Some(KeyIdent::Unicode(s[0]))
    }
}

/// Parses a key name; see [`spec_parse_key`].
pub fn parse_key_name(key: &str) -> (r: Option<KeyIdent>)
    ensures
        r == spec_parse_key(key@),
{
    if key.unicode_len() == 0 {
        return None;
    }
    if eq_lower(key, "meta") || eq_lower(key, "{meta}") {
        Some(KeyIdent::Meta)
    } else if eq_lower(key, "backspace") || eq_lower(key, "{bksp}") {
        Some(KeyIdent::Backspace)
    } else if eq_lower(key, "tab") || eq_lower(key, "{tab}") {
        Some(KeyIdent::Tab)
    } else if eq_lower(key, "enter") || eq_lower(key, "{enter}") {
        Some(KeyIdent::Return)
    } else if eq_lower(key, "shift") || eq_lower(key, "{shift}") {
        Some(KeyIdent::Shift)
    } else if eq_lower(key, "ctrl") || eq_lower(key, "control") || eq_lower(key, "{control}") {
        Some(KeyIdent::Control)
    } else if eq_lower(key, "alt") || eq_lower(key, "{alt}") {
        Some(KeyIdent::Alt)
    } else if eq_lower(key, "space") || eq_lower(key, "{space}") {
        Some(KeyIdent::Space)
    } else if eq_lower(key, "lock") || eq_lower(key, "{lock}") {
        Some(KeyIdent::CapsLock)
    } else if eq_lower(key, "escape") || eq_lower(key, "{escape}") {
        Some(KeyIdent::Escape)
    } else if eq_lower(key, "delete") || eq_lower(key, "{delete}") {
        Some(KeyIdent::Delete)
    } else if eq_lower(key, "arrowleft") || eq_lower(key, "{arrowleft}") {
        Some(KeyIdent::LeftArrow)
    } else if eq_lower(key, "arrowright") || eq_lower(key, "{arrowright}") {
        Some(KeyIdent::RightArrow)
    } else if eq_lower(key, "arrowup") || eq_lower(key, "{arrowup}") {
        Some(KeyIdent::UpArrow)
    } else if eq_lower(key, "arrowdown") || eq_lower(key, "{arrowdown}") {
        Some(KeyIdent::DownArrow)
    } else if eq_lower(key, "prtscr") || eq_lower(key, "{prtscr}") {
        Some(KeyIdent::PrintScr)
    } else if eq_lower(key, "mediaplaypause") || eq_lower(key, "{mediaplaypause}") {
        Some(KeyIdent::MediaPlayPause)
    } else if eq_lower(key, "mediastop") || eq_lower(key, "{mediastop}") {
        Some(KeyIdent::MediaStop)
    } else if eq_lower(key, "mediatrackprevious") || eq_lower(key, "{mediatrackprevious}") {
        Some(KeyIdent::MediaPrevTrack)
    } else if eq_lower(key, "mediatracknext") || eq_lower(key, "{mediatracknext}") {
        Some(KeyIdent::MediaNextTrack)
    } else if eq_lower(key, "audiovolumemute") || eq_lower(key, "{audiovolumemute}") {
        Some(KeyIdent::VolumeMute)
    } else if eq_lower(key, "audiovolumedown") || eq_lower(key, "{audiovolumedown}") {
        Some(KeyIdent::VolumeDown)
    } else if eq_lower(key, "audiovolumeup") || eq_lower(key, "{audiovolumeup}") {
        Some(KeyIdent::VolumeUp)
    } else if eq_lower(key, "end") || eq_lower(key, "{end}") {
        Some(KeyIdent::End)
    } else if eq_lower(key, "f1") || eq_lower(key, "{f1}") {
        Some(KeyIdent::F1)
    } else if eq_lower(key, "f2") || eq_lower(key, "{f2}") {
        Some(KeyIdent::F2)
    } else if eq_lower(key, "f3") || eq_lower(key, "{f3}") {
        Some(KeyIdent::F3)
    } else if eq_lower(key, "f4") || eq_lower(key, "{f4}") {
        Some(KeyIdent::F4)
    } else if eq_lower(key, "f5") || eq_lower(key, "{f5}") {
        Some(KeyIdent::F5)
    } else if eq_lower(key, "f6") || eq_lower(key, "{f6}") {
        Some(KeyIdent::F6)
    } else if eq_lower(key, "f7") || eq_lower(key, "{f7}") {
        Some(KeyIdent::F7)
    } else if eq_lower(key, "f8") || eq_lower(key, "{f8}") {
        Some(KeyIdent::F8)
    } else if eq_lower(key, "f9") || eq_lower(key, "{f9}") {
        Some(KeyIdent::F9)
    } else if eq_lower(key, "f10") || eq_lower(key, "{f10}") {
        Some(KeyIdent::F10)
    } else if eq_lower(key, "f11") || eq_lower(key, "{f11}") {
        Some(KeyIdent::F11)
    } else if eq_lower(key, "f12") || eq_lower(key, "{f12}") {
        Some(KeyIdent::F12)
    } else {
        Some(KeyIdent::Unicode(key.get_char(0)))
    }
}

/// The set of keys a vector holds.
pub open spec fn key_set(v: Seq<KeyIdent>) -> Set<KeyIdent> {
    Set::new(|k: KeyIdent| exists|i: int| 0 <= i < v.len() && v[i] == k)
}

/// No key occurs twice.
pub open spec fn keys_distinct(v: Seq<KeyIdent>) -> bool {
    forall|i: int, j: int| 0 <= i < j < v.len() ==> v[i] != v[j]
}

/// The held keys a sink must release before the process may exit.
pub struct KeyTracker {
    pub keys_to_release: Vec<KeyIdent>,
    pub caps_lock_pressed: bool,
}

impl KeyTracker {
    /// Each held key is recorded once.
    pub open spec fn wf(&self) -> bool {
        keys_distinct(self.keys_to_release@)
    }

    /// A fresh tracker: nothing held, caps lock untouched.
    pub fn new() -> (t: Self)
        ensures
            t.wf(),
            t.keys_to_release@.len() == 0,
            !t.caps_lock_pressed,
    {
        KeyTracker { keys_to_release: Vec::new(), caps_lock_pressed: false }
    }

    /// Records a key press by name.  A known name is remembered for the
    /// shutdown release pass — pressing the caps-lock name flips the
    /// caps-lock note instead of stacking — and the parsed key comes back
    /// for the sink; an empty name parses to nothing and changes nothing.
    pub fn press_key(&mut self, key: &str) -> (r: Option<KeyIdent>)
        requires
            old(self).wf(),
        ensures
            final(self).wf(),
            r == spec_parse_key(key@),
            r is None ==> *final(self) == *old(self),
            r is Some ==> key_set(final(self).keys_to_release@) == key_set(
                old(self).keys_to_release@,
            ).insert(r->0),
            r is Some ==> final(self).caps_lock_pressed == (if r->0 is CapsLock {
                !old(self).caps_lock_pressed
            } else {
                old(self).caps_lock_pressed
            }),
    {
        let parsed = parse_key_name(key);
        match parsed {
            None => None,
            Some(k) => {
                if matches!(k, KeyIdent::CapsLock) {
                    self.caps_lock_pressed = !self.caps_lock_pressed;
                }
                key_insert(&mut self.keys_to_release, k);
                Some(k)
            },
        }
    }

    /// Records a key release by name: the key is no longer owed a release.
    pub fn release_key(&mut self, key: &str) -> (r: Option<KeyIdent>)
        requires
            old(self).wf(),
        ensures
            final(self).wf(),
            r == spec_parse_key(key@),
            r is None ==> *final(self) == *old(self),
            r is Some ==> key_set(final(self).keys_to_release@) == key_set(
                old(self).keys_to_release@,
            ).remove(r->0),
            r is Some ==> final(self).caps_lock_pressed == old(self).caps_lock_pressed,
    {
        let parsed = parse_key_name(key);
        match parsed {
            None => None,
            Some(k) => {
                key_remove(&mut self.keys_to_release, k);
                Some(k)
            },
        }
    }

    /// The shutdown release pass: hands back every key still owed a release
    /// and whether caps lock needs a correcting click, and forgets them
    /// all.  Afterwards nothing is held — the hard invariant on exit.
    pub fn release_all_keys(&mut self) -> (r: (Vec<KeyIdent>, bool))
        requires
            old(self).wf(),
        ensures
            final(self).wf(),
            r.0@ == old(self).keys_to_release@,
            r.1 == old(self).caps_lock_pressed,
            final(self).keys_to_release@.len() == 0,
            !final(self).caps_lock_pressed,
    {
        let mut drained: Vec<KeyIdent> = Vec::new();
        core::mem::swap(&mut drained, &mut self.keys_to_release);
        let caps = self.caps_lock_pressed;
        self.caps_lock_pressed = false;
        (drained, caps)
    }
}

/// Adds a key to a duplicate-free store.
fn key_insert(v: &mut Vec<KeyIdent>, k: KeyIdent)
    requires
        keys_distinct(old(v)@),
    ensures
        keys_distinct(final(v)@),
        key_set(final(v)@) == key_set(old(v)@).insert(k),
{
    let mut i: usize = 0;
    while i < v.len()
        invariant
            keys_distinct(v@),
            v == old(v),
            i <= v@.len(),
            forall|n: int| 0 <= n < i ==> v@[n] != k,
        decreases v@.len() - i,
    {
        if v[i] == k {
            proof {
                assert(key_set(v@) =~= key_set(old(v)@).insert(k));
            }
            return;
        }
        i = i + 1;
    }
    v.push(k);
    proof {
        let n = old(v)@.len() as int;
        assert(v@[n] == k);
        assert forall|s: KeyIdent| key_set(v@).contains(s) == key_set(old(v)@).insert(k).contains(
            s,
        ) by {
            if key_set(v@).contains(s) {
                let w = choose|w: int| 0 <= w < v@.len() && v@[w] == s;
                if w < n {
                    assert(old(v)@[w] == s);
                }
            }
            if key_set(old(v)@).insert(k).contains(s) && s != k {
                let w = choose|w: int| 0 <= w < old(v)@.len() && old(v)@[w] == s;
                assert(v@[w] == s);
            }
        }
        assert(key_set(v@) =~= key_set(old(v)@).insert(k));
    }
}

/// Removes a key from a duplicate-free store.
fn key_remove(v: &mut Vec<KeyIdent>, k: KeyIdent)
    requires
        keys_distinct(old(v)@),
    ensures
        keys_distinct(final(v)@),
        key_set(final(v)@) == key_set(old(v)@).remove(k),
{
    let mut i: usize = 0;
    while i < v.len()
        invariant
            keys_distinct(v@),
            v == old(v),
            i <= v@.len(),
            forall|n: int| 0 <= n < i ==> v@[n] != k,
        decreases v@.len() - i,
    {
        if v[i] == k {
            let ghost pre = v@;
            v.remove(i);
            proof {
                assert forall|s: KeyIdent| key_set(v@).contains(s) == key_set(pre).remove(
                    k,
                ).contains(s) by {
                    if key_set(v@).contains(s) {
                        let w = choose|w: int| 0 <= w < v@.len() && v@[w] == s;
                        if w < i {
                            assert(pre[w] == s);
                        } else {
                            assert(pre[w + 1] == s);
                            assert(s != k);
                        }
                    }
                    if key_set(pre).remove(k).contains(s) {
                        let w = choose|w: int| 0 <= w < pre.len() && pre[w] == s;
                        assert(w != i);
                        if w < i {
                            assert(v@[w] == s);
                        } else {
                            assert(v@[w - 1] == s);
                        }
                    }
                }
                assert(key_set(v@) =~= key_set(pre).remove(k));
            }
            return;
        }
        i = i + 1;
    }
    proof {
        assert forall|s: KeyIdent| key_set(old(v)@).remove(k).contains(s) implies key_set(
            v@,
        ).contains(s) by {
        }
        assert(key_set(v@) =~= key_set(old(v)@).remove(k));
    }
}

} // verus!
