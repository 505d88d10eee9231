//! Keyboard shortcuts as the settings show and compare them.

use vstd::prelude::*;
use vstd::string::StringExecFns;

verus! {

/// The modifier keys that are held.
#[derive(Clone, Copy, Debug, PartialEq, Eq, Structural)]
pub struct Modifiers {
    pub alt: bool,
    pub ctrl: bool,
    pub shift: bool,
    pub mac_cmd: bool,
    pub command: bool,
}

impl Modifiers {
    /// No modifier key is held.
    pub open spec fn none(self) -> bool {
        !self.alt && !self.ctrl && !self.shift && !self.mac_cmd && !self.command
    }

    /// The name under which the modifiers are shown. Of several that are
    /// held one is named: shift before the command keys, those before
    /// control, and control before alt.
    pub open spec fn label(self) -> Seq<char> {
        if self.shift {
            "SHIFT"@
        } else if self.mac_cmd || self.command {
            "CMD"@
        } else if self.ctrl {
            "CTRL"@
        } else if self.alt {
            "ALT"@
        } else {
            ""@
        }
    }

    /// Tells whether no modifier key is held.
    pub fn is_none(&self) -> (b: bool)
        ensures
            b == self.none(),
    {
        !self.alt && !self.ctrl && !self.shift && !self.mac_cmd && !self.command
    }

    /// The name under which the modifiers are shown.
    pub fn name(&self) -> (s: &'static str)
        ensures
            s@ == self.label(),
    {
        let mut m = "";
        if self.alt {
            m = "ALT";
        }
        if self.ctrl {
            m = "CTRL";
        }
        if self.command {
            m = "CMD";
        }
        if self.mac_cmd {
            m = "CMD";
        }
        if self.shift {
            m = "SHIFT";
        }
        m
    }
}

/// A keyboard shortcut: modifiers and the name of a key. Without a key the
/// shortcut is not registered.
#[derive(Debug, PartialEq, Eq)]
pub struct MyHotKey {
    pub modifier: Modifiers,
    pub key: Option<String>,
}

/// The mathematical form of a [`MyHotKey`].
pub struct HotKeyView {
    pub modifier: Modifiers,
    pub key: Option<Seq<char>>,
}

impl HotKeyView {
    /// How the shortcut is shown: the key's name, after the modifier's name
    /// in quotes and a plus sign if a modifier is held.
    pub open spec fn text(self) -> Seq<char> {
        match self.key {
            None => "Not registered"@,
            Some(key) => if self.modifier.none() {
                key
            } else {
                "\""@ + self.modifier.label() + "\" + "@ + key
            },
        }
    }
}

impl View for MyHotKey {
    type V = HotKeyView;

    open spec fn view(&self) -> HotKeyView {
        HotKeyView {
            modifier: self.modifier,
            key: match self.key {
                Some(k) => Some(k@),
                None => None,
            },
        }
    }
}

impl Clone for MyHotKey {
    fn clone(&self) -> (r: Self)
        ensures
            r@ == self@,
    {
        MyHotKey {
            modifier: self.modifier,
            key: match &self.key {
                Some(k) => Some(k.clone()),
                None => None,
            },
        }
    }
}

impl MyHotKey {
    /// The shortcut of `modifier` and the key named `key`. The enter key
    /// registers no shortcut.
    pub fn new(modifier: Modifiers, key: String) -> (h: MyHotKey)
        ensures
            h@ == (HotKeyView {
                modifier,
                key: if key@ == "Enter"@ {
                    None
                } else {
                    Some(key@)
                },
            }),
    {
        if key == "Enter".to_owned() {
            return MyHotKey { modifier, key: None };
        }
        MyHotKey { modifier, key: Some(key) }
    }

    /// How the shortcut is shown in the settings.
    pub fn humanprint(&self) -> (s: String)
        ensures
            s@ == self@.text(),
    {
        match &self.key {
            None => "Not registered".to_owned(),
            Some(key) => {
                if self.modifier.is_none() {
                    key.clone()
                } else {
                    let mut s = "\"".to_owned();
                    s.append(self.modifier.name());
                    s.append("\" + ");
                    s.append(key.as_str());
                    s
                }
            },
        }
    }

    /// Tells whether two shortcuts are the same keys.
    pub fn same_keys(&self, other: &MyHotKey) -> (b: bool)
        ensures
            b == (self@ == other@),
    {
        let keys = match (&self.key, &other.key) {
            (Some(a), Some(b)) => *a == *b,
            (None, None) => true,
            _ => false,
        };
        keys && self.modifier == other.modifier
    }
}

/// Tells whether one of `hotkeys` is the same keys as `candidate`, so that
/// `candidate` cannot be given to another action.
pub fn hotkey_in_use(hotkeys: &Vec<MyHotKey>, candidate: &MyHotKey) -> (b: bool)
    ensures
        b == exists|i: int| 0 <= i < hotkeys@.len() && (#[trigger] hotkeys@[i])@ == candidate@,
{
    let mut i: usize = 0;
    while i < hotkeys.len()
        invariant
            i <= hotkeys.len(),
            forall|k: int| 0 <= k < i ==> (#[trigger] hotkeys@[k])@ != candidate@,
        decreases hotkeys.len() - i,
    {
        if hotkeys[i].same_keys(candidate) {
            return true;
        }
        i = i + 1;
    }
    false
}

} // verus!
