//! Server configuration: the listening port, the pairing PIN, and the table
//! of key bindings from symbolic action names to physical key names. One
//! immutable snapshot is loaded per server run and shared by reference with
//! every session; the surrounding application owns where it is stored.

use vstd::prelude::*;

use crate::text::str_eq;

verus! {

/// One configured binding: the protocol's action name and the physical key
/// name it resolves to.
pub struct KeyBinding {
    pub action: String,
    pub key: String,
}

/// The mathematical shape of a binding.
pub struct BindingView {
    pub action: Seq<char>,
    pub key: Seq<char>,
}

impl View for KeyBinding {
    type V = BindingView;

    open spec fn view(&self) -> BindingView {
        BindingView { action: self.action@, key: self.key@ }
    }
}

impl DeepView for KeyBinding {
    type V = BindingView;

    open spec fn deep_view(&self) -> BindingView {
        self@
    }
}

/// Immutable per-run configuration.
pub struct Config {
    pub port: u16,
    pub pin: String,
    pub key_bindings: Vec<KeyBinding>,
}

/// The mathematical shape of a configuration.
pub struct ConfigView {
    pub port: u16,
    pub pin: Seq<char>,
    pub key_bindings: Seq<BindingView>,
}

impl View for Config {
    type V = ConfigView;

    open spec fn view(&self) -> ConfigView {
        ConfigView {
            port: self.port,
            pin: self.pin@,
            key_bindings: self.key_bindings.deep_view(),
        }
    }
}

/// The binding a table gives an action name: the key of the first entry
/// whose action matches, or `None` when no entry matches.
pub open spec fn lookup(bindings: Seq<BindingView>, action: Seq<char>) -> Option<Seq<char>>
    decreases bindings.len(),
{
    if bindings.len() == 0 {
        None
    } else if bindings.first().action == action {
        Some(bindings.first().key)
    } else {
        lookup(bindings.drop_first(), action)
    }
}

/// The binding table a fresh installation starts from: guitar frets on the
/// home row, strum and navigation on the arrow keys, drums on the bottom
/// row, and the action buttons nearby.
pub open spec fn default_bindings() -> Seq<BindingView> {
    seq![
        BindingView { action: "green"@, key: "a"@ },
        BindingView { action: "red"@, key: "s"@ },
        BindingView { action: "yellow"@, key: "d"@ },
        BindingView { action: "blue"@, key: "f"@ },
        BindingView { action: "orange"@, key: "g"@ },
        BindingView { action: "strum_up"@, key: "Up"@ },
        BindingView { action: "strum_down"@, key: "Down"@ },
        BindingView { action: "starpower"@, key: "l"@ },
        BindingView { action: "whammy"@, key: ";"@ },
        BindingView { action: "start"@, key: "Enter"@ },
        BindingView { action: "select"@, key: "Escape"@ },
        BindingView { action: "left"@, key: "Left"@ },
        BindingView { action: "right"@, key: "Right"@ },
        BindingView { action: "up"@, key: "Up"@ },
        BindingView { action: "down"@, key: "Down"@ },
        BindingView { action: "drum_red"@, key: "v"@ },
        BindingView { action: "drum_yellow"@, key: "b"@ },
        BindingView { action: "drum_blue"@, key: "n"@ },
        BindingView { action: "drum_orange"@, key: "m"@ },
        BindingView { action: "drum_green"@, key: "c"@ },
        BindingView { action: "drum_kick"@, key: "Space"@ },
    ]
}

/// One binding from borrowed names.
fn bind(action: &str, key: &str) -> (b: KeyBinding)
    ensures
        b@ == (BindingView { action: action@, key: key@ }),
{
    KeyBinding { action: action.to_owned(), key: key.to_owned() }
}

impl Default for Config {
    /// The configuration a run starts from when none is stored: port 8080,
    /// PIN `1234`, and the default binding table.
    fn default() -> (c: Self)
        ensures
            c@.port == 8080,
            c@.pin == "1234"@,
            c@.key_bindings == default_bindings(),
    {
        let mut key_bindings: Vec<KeyBinding> = Vec::new();
        key_bindings.push(bind("green", "a"));
        key_bindings.push(bind("red", "s"));
        key_bindings.push(bind("yellow", "d"));
        key_bindings.push(bind("blue", "f"));
        key_bindings.push(bind("orange", "g"));
        key_bindings.push(bind("strum_up", "Up"));
        key_bindings.push(bind("strum_down", "Down"));
        key_bindings.push(bind("starpower", "l"));
        key_bindings.push(bind("whammy", ";"));
        key_bindings.push(bind("start", "Enter"));
        key_bindings.push(bind("select", "Escape"));
        key_bindings.push(bind("left", "Left"));
        key_bindings.push(bind("right", "Right"));
        key_bindings.push(bind("up", "Up"));
        key_bindings.push(bind("down", "Down"));
        key_bindings.push(bind("drum_red", "v"));
        key_bindings.push(bind("drum_yellow", "b"));
        key_bindings.push(bind("drum_blue", "n"));
        key_bindings.push(bind("drum_orange", "m"));
        key_bindings.push(bind("drum_green", "c"));
        key_bindings.push(bind("drum_kick", "Space"));
        let c = Config { port: 8080, pin: "1234".to_owned(), key_bindings };
        proof {
            assert(c@.key_bindings =~= default_bindings());
        }
        c
    }
}

impl Config {
    /// The physical key name configured for `action`, by first match in the
    /// binding table, or `None` when the action is not bound.
    pub fn resolve(&self, action: &str) -> (r: Option<&String>)
        ensures
            r.deep_view() == lookup(self@.key_bindings, action@),
    {
        let n = self.key_bindings.len();
        proof {
            assert(self@.key_bindings.skip(0) =~= self@.key_bindings);
        }
        for i in 0..n
            invariant
                n == self.key_bindings.len(),
                lookup(self@.key_bindings, action@) == lookup(
                    self@.key_bindings.skip(i as int),
                    action@,
                ),
        {
            proof {
                assert(self@.key_bindings.skip(i as int).first() == self@.key_bindings[i as int]);
            }
            if str_eq(self.key_bindings[i].action.as_str(), action) {
                return Some(&self.key_bindings[i].key);
            }
            proof {
                assert(self@.key_bindings.skip(i as int).drop_first() =~= self@.key_bindings.skip(
                    i + 1,
                ));
            }
        }
        proof {
            assert(self@.key_bindings.skip(n as int) =~= Seq::<BindingView>::empty());
        }
        None
    }
}

} // verus!
