use vstd::prelude::*;

use crate::engine::{AudioEngine, Layer, lowered, others_unchanged, raised};
use crate::preset::{NoiseType, PresetLayer, find_preset, layer_view, preset_index, preset_layer_list};

verus! {

/// The interactive session: the mix and the layer under the cursor.
pub struct App {
    pub engine: AudioEngine,
    pub selected: usize,
}

/// A key as the terminal view reads it.
#[derive(Clone, Copy, Debug, PartialEq, Eq, Structural)]
pub enum Key {
    Char(char),
    Up,
    Down,
    Left,
    Right,
    Other,
}

/// What a key press asks of the session.
#[derive(Clone, Copy, Debug, PartialEq, Eq, Structural)]
pub enum Action {
    Quit,
    NextLayer,
    PrevLayer,
    VolumeUp,
    VolumeDown,
    ToggleMute,
    Nothing,
}

/// `q` quits, `j`/Down and `k`/Up move the cursor, `l`/Right and `h`/Left
/// change the volume, `m` mutes or unmutes; other keys do nothing.
pub open spec fn action_of(key: Key) -> Action {
    match key {
        Key::Char('q') => Action::Quit,
        Key::Char('j') | Key::Down => Action::NextLayer,
        Key::Char('k') | Key::Up => Action::PrevLayer,
        Key::Char('l') | Key::Right => Action::VolumeUp,
        Key::Char('h') | Key::Left => Action::VolumeDown,
        Key::Char('m') => Action::ToggleMute,
        _ => Action::Nothing,
    }
}

/// What a key press asks of the session.
pub fn key_action(key: Key) -> (a: Action)
    ensures
        a == action_of(key),
{
    match key {
        Key::Char('q') => Action::Quit,
        Key::Char('j') | Key::Down => Action::NextLayer,
        Key::Char('k') | Key::Up => Action::PrevLayer,
        Key::Char('l') | Key::Right => Action::VolumeUp,
        Key::Char('h') | Key::Left => Action::VolumeDown,
        Key::Char('m') => Action::ToggleMute,
        _ => Action::Nothing,
    }
}

/// The position after `s` among `n` layers, wrapping from the last to the
/// first.
pub open spec fn next_index(s: int, n: int) -> int {
    if n == 0 {
        s
    } else {
        (s + 1) % n
    }
}

/// The position before `s` among `n` layers, wrapping from the first to the
/// last.
pub open spec fn prev_index(s: int, n: int) -> int {
    if n == 0 {
        s
    } else if s == 0 {
        n - 1
    } else {
        s - 1
    }
}

/// A preset's layer as the session holds it: playing, unmuted, fed by the
/// preset's generator at the preset's volume.
pub open spec fn layer_from_preset(l: Layer, p: (Seq<char>, NoiseType, u8)) -> bool {
    &&& l.name@ == p.0
    &&& l.noise == Some(p.1)
    &&& l.volume == p.2
    &&& l.active
    &&& l.url is None
    &&& l.path is None
    &&& l.status is Playing
}

/// Moving the cursor forward and then back, or back and then forward, puts
/// it where it was; either move keeps it on a layer.
pub proof fn lemma_cursor_moves_undo(s: int, n: int)
    requires
        0 <= s < n,
    ensures
        0 <= next_index(s, n) < n,
        0 <= prev_index(s, n) < n,
        prev_index(next_index(s, n), n) == s,
        next_index(prev_index(s, n), n) == s,
{
    if s + 1 < n {
        vstd::arithmetic::div_mod::lemma_small_mod((s + 1) as nat, n as nat);
    } else {
        vstd::arithmetic::div_mod::lemma_mod_self_0(n);
    }
    if s > 0 {
        vstd::arithmetic::div_mod::lemma_small_mod(s as nat, n as nat);
    } else {
        vstd::arithmetic::div_mod::lemma_mod_self_0(n);
    }
}

/// The cursor's position after `k` moves forward from `s` among `n` layers.
pub open spec fn next_steps(s: int, n: int, k: nat) -> int
    decreases k,
{
    if k == 0 {
        s
    } else {
        next_index(next_steps(s, n, (k - 1) as nat), n)
    }
}

/// `k` moves forward from `s` among `n` layers land on `(s + k) % n`.
pub proof fn lemma_cursor_steps(s: int, n: int, k: nat)
    requires
        0 <= s < n,
    ensures
        next_steps(s, n, k) == (s + k) % n,
    decreases k,
{
    if k == 0 {
        vstd::arithmetic::div_mod::lemma_small_mod(s as nat, n as nat);
    } else {
        lemma_cursor_steps(s, n, (k - 1) as nat);
        vstd::arithmetic::div_mod::lemma_add_mod_noop_right(1, s + k - 1, n);
    }
}

/// As many moves forward as there are layers bring the cursor back to where
/// it started.
pub proof fn lemma_cursor_cycles(s: int, n: int)
    requires
        0 <= s < n,
    ensures
        next_steps(s, n, n as nat) == s,
{
    lemma_cursor_steps(s, n, n as nat);
    vstd::arithmetic::div_mod::lemma_mod_add_multiples_vanish(s, n);
    vstd::arithmetic::div_mod::lemma_small_mod(s as nat, n as nat);
}

impl App {
    /// The cursor is on one of the layers.
    pub open spec fn wf(&self) -> bool {
        self.selected < self.engine.layers@.len()
    }

    /// A session that plays the preset called `preset_name`, with the cursor
    /// on its first layer; the error `unknown preset: <name>` when there is
    /// no such preset.
    pub fn new(preset_name: &str) -> (r: Result<Self, String>)
        ensures
            match preset_index(preset_name@) {
                Some(i) => r matches Ok(app) && app.wf() && app.selected == 0
                    && app.engine.layers@.len() == preset_layer_list(i).len()
                    && forall|j: int| 0 <= j < app.engine.layers@.len()
                        ==> layer_from_preset(#[trigger] app.engine.layers@[j], preset_layer_list(i)[j]),
                None => r matches Err(msg) && msg@ == "unknown preset: "@ + preset_name@,
            },
    {
        let preset = match find_preset(preset_name) {
            Some(layers) => layers,
            None => {
                let mut msg = String::new();
                msg.append("unknown preset: ");
                msg.append(preset_name);
                return Err(msg);
            },
        };
        let ghost target = preset@.map_values(|l: PresetLayer| layer_view(l));
        assert(preset_index(preset_name@) is Some);
        assert(target.len() > 0) by {
            reveal_strlit("default");
            reveal_strlit("focus");
            reveal_strlit("deep");
        }
        let mut engine = AudioEngine::new();
        let n = preset.len();
        let mut i: usize = 0;
        while i < n
            invariant
                n == preset@.len(),
                target == preset@.map_values(|l: PresetLayer| layer_view(l)),
                i <= n,
                engine.layers@.len() == i,
                forall|j: int| 0 <= j < i ==> layer_from_preset(#[trigger] engine.layers@[j], target[j]),
            decreases n - i,
        {
            let l = preset[i];
            engine.add_layer(l.name, l.noise_type, l.volume);
            i = i + 1;
        }
        Ok(App { engine, selected: 0 })
    }

    /// Moves the cursor to the next layer, wrapping to the first.
    pub fn next_layer(&mut self)
        requires
            old(self).engine.layers@.len() > 0 ==> old(self).selected < usize::MAX,
        ensures
            final(self).engine == old(self).engine,
            final(self).selected == next_index(old(self).selected as int, old(self).engine.layers@.len() as int),
    {
        if self.engine.layers.len() > 0 {
            self.selected = (self.selected + 1) % self.engine.layers.len();
        }
    }

    /// Moves the cursor to the previous layer, wrapping to the last.
    pub fn prev_layer(&mut self)
        ensures
            final(self).engine == old(self).engine,
            final(self).selected == prev_index(old(self).selected as int, old(self).engine.layers@.len() as int),
    {
        if self.engine.layers.len() > 0 {
            self.selected = if self.selected == 0 {
                self.engine.layers.len() - 1
            } else {
                self.selected - 1
            };
        }
    }

    /// Applies a key press; returns false when the session should end.
    /// Keys that are released or repeated rather than pressed change nothing.
    pub fn handle_key(&mut self, key: Key, pressed: bool) -> (keep_running: bool)
        requires
            old(self).wf(),
        ensures
            final(self).wf(),
            keep_running == !(pressed && action_of(key) == Action::Quit),
            ({
                let (s, o) = (old(self).selected as int, old(self).engine.layers@);
                let a = if pressed { action_of(key) } else { Action::Nothing };
                match a {
                    Action::NextLayer => final(self).engine == old(self).engine
                        && final(self).selected == next_index(s, o.len() as int),
                    Action::PrevLayer => final(self).engine == old(self).engine
                        && final(self).selected == prev_index(s, o.len() as int),
                    Action::VolumeUp => final(self).selected == s
                        && others_unchanged(o, final(self).engine.layers@, s)
                        && final(self).engine.layers@[s] == (Layer { volume: raised(o[s].volume), ..o[s] }),
                    Action::VolumeDown => final(self).selected == s
                        && others_unchanged(o, final(self).engine.layers@, s)
                        && final(self).engine.layers@[s] == (Layer { volume: lowered(o[s].volume), ..o[s] }),
                    Action::ToggleMute => final(self).selected == s
                        && others_unchanged(o, final(self).engine.layers@, s)
                        && final(self).engine.layers@[s] == (Layer { active: !o[s].active, ..o[s] }),
                    _ => final(self).engine == old(self).engine && final(self).selected == s,
                }
            }),
    {
        if !pressed {
            return true;
        }
        match key_action(key) {
            Action::Quit => false,
            Action::NextLayer => {
                let n = self.engine.layers.len();
                assert(self.selected < n);
                self.next_layer();
                true
            },
            Action::PrevLayer => {
                self.prev_layer();
                true
            },
            Action::VolumeUp => {
                let s = self.selected;
                self.engine.volume_up(s);
                true
            },
            Action::VolumeDown => {
                let s = self.selected;
                self.engine.volume_down(s);
                true
            },
            Action::ToggleMute => {
                let s = self.selected;
                self.engine.toggle_mute(s);
                true
            },
            Action::Nothing => true,
        }
    }
}

} // verus!
