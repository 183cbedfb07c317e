use vstd::prelude::*;

use crate::text::{join, join_texts, same_text, texts};

verus! {

/// The noise generators a layer can play.
#[derive(Clone, Copy, Debug, PartialEq, Eq, Structural)]
pub enum NoiseType {
    White,
    Pink,
    Brown,
    Red,
    Blue,
    Violet,
}

/// One layer of a preset: its display name, its generator and its volume in
/// percent of full scale.
#[derive(Clone, Copy, Debug)]
pub struct PresetLayer {
    pub name: &'static str,
    pub noise_type: NoiseType,
    pub volume: u8,
}

/// A named preset and its layers.
pub struct Preset {
    pub name: &'static str,
    pub layers: Vec<PresetLayer>,
}

/// A preset layer as plain values: name, generator, volume in percent.
pub open spec fn layer_view(l: PresetLayer) -> (Seq<char>, NoiseType, u8) {
    (l.name@, l.noise_type, l.volume)
}

/// The names of the presets, in the order in which they are listed and
/// searched.
pub open spec fn preset_name_list() -> Seq<Seq<char>> {
    seq!["default"@, "focus"@, "deep"@]
}

/// The layers of the `i`th preset.
pub open spec fn preset_layer_list(i: int) -> Seq<(Seq<char>, NoiseType, u8)> {
    if i == 0 {
        seq![("Brown Noise"@, NoiseType::Brown, 50u8)]
    } else if i == 1 {
        seq![("Brown Noise"@, NoiseType::Brown, 60u8), ("Pink Noise"@, NoiseType::Pink, 20u8)]
    } else {
        seq![("Brown Noise"@, NoiseType::Brown, 80u8), ("Pink Noise"@, NoiseType::Pink, 10u8)]
    }
}

/// The position of the first preset called `name`, if any.
pub open spec fn preset_index(name: Seq<char>) -> Option<int> {
    if name == "default"@ {
        Some(0)
    } else if name == "focus"@ {
        Some(1)
    } else if name == "deep"@ {
        Some(2)
    } else {
        None
    }
}

fn brown(volume: u8) -> (l: PresetLayer)
    ensures
        layer_view(l) == ("Brown Noise"@, NoiseType::Brown, volume),
{
    PresetLayer { name: "Brown Noise", noise_type: NoiseType::Brown, volume }
}

fn pink(volume: u8) -> (l: PresetLayer)
    ensures
        layer_view(l) == ("Pink Noise"@, NoiseType::Pink, volume),
{
    PresetLayer { name: "Pink Noise", noise_type: NoiseType::Pink, volume }
}

/// The built-in presets: `default` (brown noise at 50%), `focus` (brown 60%
/// and pink 20%) and `deep` (brown 80% and pink 10%).
pub fn presets() -> (r: Vec<Preset>)
    ensures
        r@.len() == preset_name_list().len(),
        forall|i: int|
            0 <= i < r@.len() ==> {
                &&& (#[trigger] r@[i]).name@ == preset_name_list()[i]
                &&& r@[i].layers@.map_values(|l: PresetLayer| layer_view(l))
                    == preset_layer_list(i)
            },
{
    let mut r: Vec<Preset> = Vec::new();
    r.push(Preset { name: "default", layers: vec![brown(50)] });
    r.push(Preset { name: "focus", layers: vec![brown(60), pink(20)] });
    r.push(Preset { name: "deep", layers: vec![brown(80), pink(10)] });
    assert(r@[0].layers@.map_values(|l: PresetLayer| layer_view(l)) =~= preset_layer_list(0));
    assert(r@[1].layers@.map_values(|l: PresetLayer| layer_view(l)) =~= preset_layer_list(1));
    assert(r@[2].layers@.map_values(|l: PresetLayer| layer_view(l)) =~= preset_layer_list(2));
    r
}

/// Looking up a preset by name finds the entry of the table that bears that
/// name: `preset_index(name)` is `i` exactly when the `i`th preset is called
/// `name`, and `None` exactly when no preset is.
pub proof fn lemma_preset_lookup_by_table(name: Seq<char>)
    ensures
        forall|i: int|
            0 <= i < preset_name_list().len() ==> ((preset_index(name) == Some(i)) <==> (
            #[trigger] preset_name_list()[i] == name)),
        (preset_index(name) is None) <==> (forall|i: int|
            0 <= i < preset_name_list().len() ==> #[trigger] preset_name_list()[i] != name),
{
    reveal_strlit("default");
    reveal_strlit("focus");
    reveal_strlit("deep");
    assert("default"@.len() == 7 && "focus"@.len() == 5 && "deep"@.len() == 4);
    assert(preset_name_list()[0] == "default"@);
    assert(preset_name_list()[1] == "focus"@);
    assert(preset_name_list()[2] == "deep"@);
}

/// The layers of the preset called `name`, or `None` when there is none.
pub fn find_preset(name: &str) -> (r: Option<Vec<PresetLayer>>)
    ensures
        match preset_index(name@) {
            Some(i) => r matches Some(layers) && layers@.map_values(|l: PresetLayer| layer_view(l))
                == preset_layer_list(i),
            None => r is None,
        },
        match r {
            Some(layers) => exists|i: int|
                0 <= i < preset_name_list().len() && #[trigger] preset_name_list()[i] == name@
                    && layers@.map_values(|l: PresetLayer| layer_view(l)) == preset_layer_list(i),
            None => forall|i: int|
                0 <= i < preset_name_list().len() ==> #[trigger] preset_name_list()[i] != name@,
        },
{
    proof {
        lemma_preset_lookup_by_table(name@);
    }
    let mut all = presets();
    let found: usize = if same_text(name, "default") {
        0
    } else if same_text(name, "focus") {
        1
    } else if same_text(name, "deep") {
        2
    } else {
        return None;
    };
    let preset = all.remove(found);
    Some(preset.layers)
}

/// The preset names joined with commas.
pub open spec fn preset_names_text() -> Seq<char> {
    join(preset_name_list(), ", "@)
}

/// The preset names, separated by `", "`: `default, focus, deep`.
pub fn preset_names() -> (r: String)
    ensures
        r@ == preset_names_text(),
{
    let all = presets();
    let mut names: Vec<String> = Vec::new();
    let n = all.len();
    let mut i: usize = 0;
    while i < n
        invariant
            n == all@.len(),
            n == preset_name_list().len(),
            i <= n,
            names@.len() == i,
            forall|j: int| 0 <= j < i ==> (#[trigger] names@[j])@ == preset_name_list()[j],
            forall|j: int| 0 <= j < n ==> (#[trigger] all@[j]).name@ == preset_name_list()[j],
        decreases n - i,
    {
        names.push(all[i].name.to_owned());
        i = i + 1;
    }
    assert(texts(names@) =~= preset_name_list());
    join_texts(&names, ", ")
}


/// The usage text up to the list of preset names.
pub const USAGE_HEAD: &'static str = "Usage: quies [command]

Commands:
  (no args)          TUI mode with interactive controls
  start [preset]     Start daemon (background playback)
  stop               Stop daemon
  status             Show what's playing
  vol <layer> <0-1>  Set layer volume (e.g. vol brown 0.6)
  mute <layer>       Toggle mute on a layer

Presets: ";

/// The usage text after the list of preset names.
pub const USAGE_TAIL: &'static str = "

TUI controls: j/k select, h/l volume, m mute, q quit";

/// The usage text: the commands, the preset names and the terminal controls.
pub fn help_text() -> (r: String)
    ensures
        r@ == USAGE_HEAD@ + preset_names_text() + USAGE_TAIL@,
{
    let mut out = String::new();
    out.append(USAGE_HEAD);
    let names = preset_names();
    out.append(names.as_str());
    out.append(USAGE_TAIL);
    assert(out@ =~= USAGE_HEAD@ + preset_names_text() + USAGE_TAIL@);
    out
}

} // verus!
