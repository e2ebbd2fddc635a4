//! Global key bindings. Keys are named as the keyboard hook names them
//! (`"KeyO"`, `"ShiftLeft"`, ...).

use vstd::prelude::*;
use vstd::string::*;

verus! {

/// What a key binding does.
#[derive(Debug, Clone, Copy, PartialEq, Eq, Structural)]
pub enum KeyEvent {
    ToggleOverlay,
    CloseOverlay,
    OpenConfigurator,
    Quit,
}

/// A combination of keys and the event it raises; `active` records that the
/// combination is held down, so that it fires once per press.
#[derive(Debug)]
pub struct Keybind {
    pub keys: Vec<String>,
    pub event: KeyEvent,
    pub active: bool,
}

/// Whether `key` is among `pressed`.
pub open spec fn key_pressed(pressed: Seq<String>, key: String) -> bool {
    exists|j: int| 0 <= j < pressed.len() && (#[trigger] pressed[j])@ == key@
}

/// Whether every key of `keys` is among `pressed`, and there is at least one.
pub open spec fn combination_held(keys: Seq<String>, pressed: Seq<String>) -> bool {
    &&& keys.len() > 0
    &&& forall|i: int| 0 <= i < keys.len() ==> key_pressed(pressed, #[trigger] keys[i])
}

/// A binding's keys are held exactly when there is at least one and the name
/// of each is among the names of the pressed keys, at whatever position it
/// was pressed, the last one included.
pub proof fn held_iff_each_key_pressed(keys: Seq<String>, pressed: Seq<String>)
    ensures
        combination_held(keys, pressed) <==> (keys.len() > 0 && forall|i: int|
            0 <= i < keys.len() ==> pressed.map_values(|s: String| s@).contains(
                #[trigger] keys[i]@,
            )),
{
    let names = pressed.map_values(|s: String| s@);
    assert forall|i: int| 0 <= i < keys.len() implies key_pressed(pressed, #[trigger] keys[i])
        <==> names.contains(keys[i]@) by {
        if key_pressed(pressed, keys[i]) {
            let j = choose|j: int| 0 <= j < pressed.len() && (#[trigger] pressed[j])@ == keys[i]@;
            assert(names[j] == keys[i]@);
        }
        if names.contains(keys[i]@) {
            let j = choose|j: int| 0 <= j < names.len() && names[j] == keys[i]@;
            assert(pressed[j]@ == keys[i]@);
        }
    }
}

/// A non-empty combination is held when exactly its keys are pressed, in the
/// order of the binding, so that the last key completes it.
pub proof fn combination_held_by_its_own_keys(keys: Seq<String>)
    requires
        keys.len() > 0,
    ensures
        combination_held(keys, keys),
{
    assert forall|i: int| 0 <= i < keys.len() implies key_pressed(keys, #[trigger] keys[i]) by {
        assert(keys[i]@ == keys[i]@);
    }
}

fn is_pressed(pressed: &[String], key: &String) -> (r: bool)
    ensures
        r == key_pressed(pressed@, *key),
{
    let mut j: usize = 0;
    while j < pressed.len()
        invariant
            j <= pressed@.len(),
            forall|t: int| 0 <= t < j ==> (#[trigger] pressed@[t])@ != key@,
        decreases pressed.len() - j,
    {
        if pressed[j] == *key {
            return true;
        }
        j = j + 1;
    }
    false
}

impl Keybind {
    /// A binding that is not held down.
    pub fn new(keys: Vec<String>, event: KeyEvent) -> (r: Self)
        ensures
            r.keys == keys,
            r.event == event,
            !r.is_active(),
    {
        Keybind { keys, event, active: false }
    }

    /// Whether the binding is held down.
    pub open spec fn is_active(&self) -> bool {
        self.active
    }

    /// Whether all of the binding's keys are pressed; an empty binding never
    /// matches.
    pub fn matches(&self, pressed: &[String]) -> (r: bool)
        ensures
            r == combination_held(self.keys@, pressed@),
    {
        if self.keys.len() == 0 {
            return false;
        }
        let mut i: usize = 0;
        while i < self.keys.len()
            invariant
                i <= self.keys@.len(),
                self.keys@.len() > 0,
                forall|k: int| 0 <= k < i ==> key_pressed(pressed@, #[trigger] self.keys@[k]),
            decreases self.keys.len() - i,
        {
            if !is_pressed(pressed, &self.keys[i]) {
                return false;
            }
            i = i + 1;
        }
        true
    }

    /// Whether the binding is held down.
    pub fn active(&self) -> (r: bool)
        ensures
            r == self.is_active(),
    {
        self.active
    }

    /// Records whether the binding is held down.
    pub fn set_active(&mut self, val: bool)
        ensures
            final(self).is_active() == val,
            final(self).keys == old(self).keys,
            final(self).event == old(self).event,
    {
        self.active = val;
    }

    /// Records that the binding is released.
    pub fn reset(&mut self)
        ensures
            !final(self).is_active(),
            final(self).keys == old(self).keys,
            final(self).event == old(self).event,
    {
        self.active = false;
    }
}

/// The key names of a binding.
pub open spec fn key_names(k: Keybind) -> Seq<Seq<char>> {
    k.keys@.map_values(|s: String| s@)
}

/// The built-in bindings: the overlay toggle and the quit combination as
/// resolved from their configured names, Escape to close the overlay and C
/// to open the configurator.
pub fn default_keybinds(overlay_toggle: Vec<String>, quit: Vec<String>) -> (r: Vec<Keybind>)
    ensures
        r@.len() == 4,
        r@[0].keys == overlay_toggle && r@[0].event == KeyEvent::ToggleOverlay,
        key_names(r@[1]) == seq!["Escape"@] && r@[1].event == KeyEvent::CloseOverlay,
        key_names(r@[2]) == seq!["KeyC"@] && r@[2].event == KeyEvent::OpenConfigurator,
        r@[3].keys == quit && r@[3].event == KeyEvent::Quit,
        forall|i: int| 0 <= i < 4 ==> !(#[trigger] r@[i]).is_active(),
{
    let mut escape: Vec<String> = Vec::new();
    escape.push(String::from_str("Escape"));
    let mut key_c: Vec<String> = Vec::new();
    key_c.push(String::from_str("KeyC"));
    let mut r: Vec<Keybind> = Vec::new();
    r.push(Keybind::new(overlay_toggle, KeyEvent::ToggleOverlay));
    let b1 = Keybind::new(escape, KeyEvent::CloseOverlay);
    assert(key_names(b1) =~= seq!["Escape"@]);
    r.push(b1);
    let b2 = Keybind::new(key_c, KeyEvent::OpenConfigurator);
    assert(key_names(b2) =~= seq!["KeyC"@]);
    r.push(b2);
    r.push(Keybind::new(quit, KeyEvent::Quit));
    r
}

} // verus!
