use vstd::prelude::*;

use crate::preset::NoiseType;
use crate::text::{
    ascii_lowercase, contains_text, decimal, is_ascii_text, join, lowercase, pad_left, pad_right, push_decimal, push_padded_left,
    push_padded_right, text_contains, texts, to_lowercase, join_texts,
};

verus! {

/// Full volume, in percent.
pub const MAX_VOLUME: u8 = 100;

/// How far one step of `volume_up` or `volume_down` moves a volume, in percent.
pub const VOLUME_STEP: u8 = 5;

/// Where a layer's audio stands.
#[derive(Debug)]
pub enum LayerStatus {
    Playing,
    Downloading,
    Error(String),
}

/// One layer of the mix. `volume` is in percent of full scale; `active` is
/// false while the layer is muted. `noise` names the generator of a noise
/// layer; `url` and `path` are set for a layer that plays an audio file.
#[derive(Debug)]
pub struct Layer {
    pub name: String,
    pub volume: u8,
    pub active: bool,
    pub noise: Option<NoiseType>,
    pub url: Option<String>,
    pub path: Option<String>,
    pub status: LayerStatus,
}

/// The layers of the mix, in the order in which they were added.
pub struct AudioEngine {
    pub layers: Vec<Layer>,
}

/// `level` held to the range from 0 to full volume.
pub open spec fn clamp_volume(level: int) -> u8 {
    if level < 0 {
        0
    } else if level > MAX_VOLUME {
        MAX_VOLUME
    } else {
        level as u8
    }
}

/// The volume one step up from `v`, held to the range.
pub open spec fn raised(v: u8) -> u8 {
    clamp_volume(v + VOLUME_STEP)
}

/// The volume one step down from `v`, held to the range.
pub open spec fn lowered(v: u8) -> u8 {
    clamp_volume(v - VOLUME_STEP)
}

/// Every volume the controls set lies between silence and full volume, and
/// a level already in that range is kept as it is.
pub proof fn lemma_clamp_volume(level: int)
    ensures
        0 <= clamp_volume(level) <= MAX_VOLUME,
        0 <= level <= MAX_VOLUME ==> clamp_volume(level) == level,
        level <= 0 ==> clamp_volume(level) == 0,
        level >= MAX_VOLUME ==> clamp_volume(level) == MAX_VOLUME,
{
}

/// A step down undoes a step up from any volume below 96%, and a step up
/// undoes a step down from any volume from 5% to full; a step never leaves
/// the range.
pub proof fn lemma_volume_steps_undo(v: u8)
    ensures
        v + VOLUME_STEP <= MAX_VOLUME ==> lowered(raised(v)) == v,
        VOLUME_STEP <= v <= MAX_VOLUME ==> raised(lowered(v)) == v,
        raised(v) <= MAX_VOLUME,
        lowered(v) <= MAX_VOLUME,
        v <= MAX_VOLUME ==> v <= raised(v) && lowered(v) <= v,
{
}

/// Muting a layer twice leaves it as it was.
pub proof fn lemma_toggle_mute_twice(l: Layer)
    ensures
        (Layer { active: !(Layer { active: !l.active, ..l }).active, ..l }) == l,
{
}

/// A layer's mute flag after `k` calls of `toggle_mute`, from `active`.
pub open spec fn after_toggles(active: bool, k: nat) -> bool
    decreases k,
{
    if k == 0 {
        active
    } else {
        !after_toggles(active, (k - 1) as nat)
    }
}

/// A layer plays unmuted exactly when it has been toggled an even number of
/// times since it was added: every new layer starts unmuted, `toggle_mute`
/// flips the flag and no other operation changes it.
pub proof fn lemma_mute_parity(active: bool, k: nat)
    ensures
        after_toggles(active, k) == (active == (k % 2 == 0)),
        after_toggles(true, k) == (k % 2 == 0),
    decreases k,
{
    if k > 0 {
        lemma_mute_parity(active, (k - 1) as nat);
        lemma_mute_parity(true, (k - 1) as nat);
    }
}

/// How many entries of `s` are true.
pub open spec fn count_true(s: Seq<bool>) -> nat
    decreases s.len(),
{
    if s.len() == 0 {
        0
    } else {
        count_true(s.drop_last()) + if s.last() {
            1nat
        } else {
            0nat
        }
    }
}

/// `next` is the layer `prev` after one call of the engine: `toggle_mute` on
/// it when `toggled`, and otherwise any other call, which all keep the mute
/// flag (`set_volume`, `volume_up`, `volume_down`, `activate_audio_layer`,
/// `set_status`, `toggle_mute` on another layer, adding a layer).
pub open spec fn mute_step(prev: Layer, next: Layer, toggled: bool) -> bool {
    if toggled {
        next == (Layer { active: !prev.active, ..prev })
    } else {
        next.active == prev.active
    }
}

/// Along any run of engine calls from the moment a layer was added (when it
/// is unmuted), the layer is unmuted exactly when `toggle_mute` was called
/// on it an even number of times. `history[k]` is the layer after the `k`th
/// call and `toggled[k]` tells whether that call was `toggle_mute` on it.
pub proof fn lemma_mute_history(history: Seq<Layer>, toggled: Seq<bool>)
    requires
        history.len() == toggled.len() + 1,
        history[0].active,
        forall|k: int| 0 <= k < toggled.len() ==> mute_step(history[k], history[k + 1], #[trigger] toggled[k]),
    ensures
        history.last().active == (count_true(toggled) % 2 == 0),
    decreases toggled.len(),
{
    if toggled.len() > 0 {
        let h = history.drop_last();
        let t = toggled.drop_last();
        assert forall|k: int| 0 <= k < t.len() implies mute_step(h[k], h[k + 1], #[trigger] t[k]) by {
            assert(toggled[k] == t[k]);
        }
        lemma_mute_history(h, t);
        assert(mute_step(history[toggled.len() - 1], history[toggled.len() as int], toggled[toggled.len() - 1]));
    }
}

/// Finding a layer ignores case: two queries with the same lowercase form
/// find the same layer.
pub proof fn lemma_find_ignores_case(layers: Seq<Layer>, q1: Seq<char>, q2: Seq<char>)
    requires
        lowercase(q1) == lowercase(q2),
    ensures
        first_match(layers, lowercase(q1)) == first_match(layers, lowercase(q2)),
{
}

/// `new` is `old` with, at most, the layer at `idx` replaced.
pub open spec fn others_unchanged(old: Seq<Layer>, new: Seq<Layer>, idx: int) -> bool {
    &&& new.len() == old.len()
    &&& forall|j: int| 0 <= j < old.len() && j != idx ==> new[j] == old[j]
}

/// `new` is `old` with one layer added at the end.
pub open spec fn appended(old: Seq<Layer>, new: Seq<Layer>) -> bool {
    &&& new.len() == old.len() + 1
    &&& forall|j: int| 0 <= j < old.len() ==> new[j] == old[j]
}

/// Whether the lowercase form of the layer's name contains `key`, the
/// lowercase form of a query.
pub open spec fn name_matches(l: Layer, key: Seq<char>) -> bool {
    contains_text(lowercase(l.name@), key)
}

/// The first position of a layer whose name matches `key`, the lowercase
/// form of a query.
pub open spec fn first_match(layers: Seq<Layer>, key: Seq<char>) -> Option<int> {
    if exists|i: int| 0 <= i < layers.len() && name_matches(#[trigger] layers[i], key) {
        Some(
            choose|i: int|
                0 <= i < layers.len() && name_matches(#[trigger] layers[i], key) && forall|j: int|
                    0 <= j < i ==> !name_matches(#[trigger] layers[j], key),
        )
    } else {
        None
    }
}

/// The mark that tells a file layer from a noise layer.
pub open spec fn kind_mark(l: Layer) -> Seq<char> {
    if l.url is Some {
        "\u{266a}"@
    } else {
        "~"@
    }
}

/// A layer's line in the status report.
pub open spec fn status_line(l: Layer) -> Seq<char> {
    "  "@ + kind_mark(l) + " "@ + l.name@ + match l.status {
        LayerStatus::Downloading => " [downloading...]"@,
        LayerStatus::Error(e) => " [error: "@ + e@ + "]"@,
        LayerStatus::Playing => " "@ + decimal(l.volume as nat) + "%"@ + if l.active {
            ""@
        } else {
            " [off]"@
        },
    }
}

/// Muting a playing layer, noise or file alike, appends ` [off]` to its
/// status line and changes nothing else in it; the volume stands before the
/// `%` sign after the name.
pub proof fn lemma_status_line_mute(l: Layer)
    requires
        l.status is Playing,
    ensures
        status_line(Layer { active: false, ..l }) == status_line(Layer { active: true, ..l }) + " [off]"@,
        status_line(Layer { active: true, ..l }) == "  "@ + kind_mark(l) + " "@ + l.name@ + " "@
            + decimal(l.volume as nat) + "%"@,
        status_line(Layer { active: false, ..l }) != status_line(Layer { active: true, ..l }),
{
    let on = Layer { active: true, ..l };
    let off = Layer { active: false, ..l };
    reveal_strlit("");
    reveal_strlit(" [off]");
    assert(kind_mark(on) == kind_mark(l) && kind_mark(off) == kind_mark(l));
    assert(status_line(on) =~= "  "@ + kind_mark(l) + " "@ + l.name@ + " "@ + decimal(l.volume as nat) + "%"@);
    assert(status_line(off) =~= status_line(on) + " [off]"@);
    assert(status_line(off).len() == status_line(on).len() + 6);
}

/// The status report of a mix with these layers.
pub open spec fn status_report(layers: Seq<Layer>) -> Seq<char> {
    if layers.len() == 0 {
        "no layers"@
    } else {
        join(layers.map_values(|l: Layer| status_line(l)), "\n"@)
    }
}

/// The width of the name column in the terminal view.
pub const NAME_WIDTH: usize = 16;

/// A layer's label in the terminal view, drawn before its gauge: a marker
/// on the layer under the cursor (`selected`), the name, and the state of a
/// layer that is not playing.
pub open spec fn layer_label(l: Layer, selected: bool) -> Seq<char> {
    let prefix = if selected {
        " \u{25b8} "@
    } else {
        "   "@
    };
    prefix + pad_right(l.name@, NAME_WIDTH as nat) + match l.status {
        LayerStatus::Downloading => " [downloading...]"@,
        LayerStatus::Error(e) => " [error: "@ + e@ + "]"@,
        LayerStatus::Playing => ""@,
    }
}

/// The text drawn after a layer's gauge: the volume of a playing layer,
/// right-aligned, and ` [off]` while it is muted; nothing for a layer that
/// is not playing.
pub open spec fn level_text(l: Layer) -> Seq<char> {
    match l.status {
        LayerStatus::Playing => " "@ + pad_left(decimal(l.volume as nat), 3) + "%"@ + if l.active {
            ""@
        } else {
            " [off]"@
        },
        _ => ""@,
    }
}

/// How a layer's label and gauge are drawn.
#[derive(Clone, Copy, Debug, PartialEq, Eq, Structural)]
pub enum Emphasis {
    Dim,
    Bold,
    Plain,
}

/// Muted layers are dimmed; otherwise the selected layer is bold.
pub open spec fn emphasis_of(active: bool, selected: bool) -> Emphasis {
    if !active {
        Emphasis::Dim
    } else if selected {
        Emphasis::Bold
    } else {
        Emphasis::Plain
    }
}

/// A muted layer is always drawn dimmed, selected or not; only the layer
/// under the cursor is drawn bold, and only while it plays unmuted; an
/// unmuted layer elsewhere is drawn plain.
pub proof fn lemma_emphasis_rules(active: bool, selected: bool)
    ensures
        !active ==> emphasis_of(active, selected) == Emphasis::Dim,
        (emphasis_of(active, selected) == Emphasis::Bold) <==> (active && selected),
        (emphasis_of(active, selected) == Emphasis::Plain) <==> (active && !selected),
        (emphasis_of(active, selected) == Emphasis::Dim) <==> !active,
{
}

/// How a layer's label and gauge are drawn.
pub fn emphasis(active: bool, selected: bool) -> (r: Emphasis)
    ensures
        r == emphasis_of(active, selected),
        !active ==> r == Emphasis::Dim,
        (r == Emphasis::Bold) <==> (active && selected),
{
    if !active {
        Emphasis::Dim
    } else if selected {
        Emphasis::Bold
    } else {
        Emphasis::Plain
    }
}

fn push_kind_mark(out: &mut String, l: &Layer)
    ensures
        final(out)@ == old(out)@ + kind_mark(*l),
{
    if l.url.is_some() {
        out.append("\u{266a}");
    } else {
        out.append("~");
    }
}

fn push_state(out: &mut String, l: &Layer, width: usize)
    requires
        width == 0 || width == 3,
    ensures
        final(out)@ == old(out)@ + match l.status {
            LayerStatus::Downloading => " [downloading...]"@,
            LayerStatus::Error(e) => " [error: "@ + e@ + "]"@,
            LayerStatus::Playing => " "@ + pad_left(decimal(l.volume as nat), width as nat) + "%"@
                + if l.active {
                ""@
            } else {
                " [off]"@
            },
        },
{
    match &l.status {
        LayerStatus::Downloading => {
            out.append(" [downloading...]");
        },
        LayerStatus::Error(e) => {
            out.append(" [error: ");
            out.append(e.as_str());
            out.append("]");
            assert(out@ =~= old(out)@ + (" [error: "@ + e@ + "]"@));
        },
        LayerStatus::Playing => {
            out.append(" ");
            let mut digits = String::new();
            push_decimal(&mut digits, l.volume);
            assert(digits@ =~= decimal(l.volume as nat));
            push_padded_left(out, digits.as_str(), width);
            out.append("%");
            if !l.active {
                out.append(" [off]");
            } else {
                out.append("");
            }
            assert(pad_left(decimal(l.volume as nat), 0) == decimal(l.volume as nat));
            assert(out@ =~= old(out)@ + (" "@ + pad_left(decimal(l.volume as nat), width as nat)
                + "%"@ + if l.active {
                ""@
            } else {
                " [off]"@
            }));
        },
    }
}

fn status_line_of(l: &Layer) -> (r: String)
    ensures
        r@ == status_line(*l),
{
    let mut out = String::new();
    out.append("  ");
    push_kind_mark(&mut out, l);
    out.append(" ");
    out.append(l.name.as_str());
    push_state(&mut out, l, 0);
    assert(pad_left(decimal(l.volume as nat), 0) == decimal(l.volume as nat));
    assert(out@ =~= status_line(*l));
    out
}


impl AudioEngine {
    /// An engine with no layers.
    pub fn new() -> (r: Self)
        ensures
            r.layers@.len() == 0,
    {
        AudioEngine { layers: Vec::new() }
    }

    /// Adds a playing, unmuted noise layer fed by the generator `noise_type`
    /// at `volume` percent.
    pub fn add_layer(&mut self, name: &str, noise_type: NoiseType, volume: u8)
        ensures
            appended(old(self).layers@, final(self).layers@),
            ({
                let l = final(self).layers@.last();
                &&& l.name@ == name@
                &&& l.volume == volume
                &&& l.active
                &&& l.noise == Some(noise_type)
                &&& l.url is None
                &&& l.path is None
                &&& l.status is Playing
            }),
    {
        self.layers.push(
            Layer {
                name: name.to_owned(),
                volume,
                active: true,
                noise: Some(noise_type),
                url: None,
                path: None,
                status: LayerStatus::Playing,
            },
        );
    }

    /// Adds a playing, unmuted layer that plays the audio file at `path`,
    /// which was fetched from `url`, at `volume` percent.
    pub fn add_audio_layer(&mut self, name: &str, path: &str, url: &str, volume: u8)
        ensures
            appended(old(self).layers@, final(self).layers@),
            ({
                let l = final(self).layers@.last();
                &&& l.name@ == name@
                &&& l.volume == volume
                &&& l.active
                &&& l.noise is None
                &&& l.url matches Some(u) && u@ == url@
                &&& l.path matches Some(p) && p@ == path@
                &&& l.status is Playing
            }),
    {
        self.layers.push(
            Layer {
                name: name.to_owned(),
                volume,
                active: true,
                noise: None,
                url: Some(url.to_owned()),
                path: Some(path.to_owned()),
                status: LayerStatus::Playing,
            },
        );
    }

    /// Adds a placeholder layer for audio that is still downloading from
    /// `url`, and returns its position.
    pub fn add_pending_layer(&mut self, name: &str, url: &str, volume: u8) -> (idx: usize)
        ensures
            appended(old(self).layers@, final(self).layers@),
            idx == old(self).layers@.len(),
            ({
                let l = final(self).layers@[idx as int];
                &&& l.name@ == name@
                &&& l.volume == volume
                &&& l.active
                &&& l.noise is None
                &&& l.url matches Some(u) && u@ == url@
                &&& l.path is None
                &&& l.status is Downloading
            }),
    {
        self.layers.push(
            Layer {
                name: name.to_owned(),
                volume,
                active: true,
                noise: None,
                url: Some(url.to_owned()),
                path: None,
                status: LayerStatus::Downloading,
            },
        );
        self.layers.len() - 1
    }

    /// Marks the layer at `idx` as playing the audio file at `path`, once
    /// its download is complete.
    pub fn activate_audio_layer(&mut self, idx: usize, path: &str)
        requires
            idx < old(self).layers@.len(),
        ensures
            others_unchanged(old(self).layers@, final(self).layers@, idx as int),
            ({
                let (l, k) = (final(self).layers@[idx as int], old(self).layers@[idx as int]);
                &&& l.path matches Some(p) && p@ == path@
                &&& l.status is Playing
                &&& l.name == k.name
                &&& l.volume == k.volume
                &&& l.active == k.active
                &&& l.noise == k.noise
                &&& l.url == k.url
            }),
    {
        self.layers[idx].path = Some(path.to_owned());
        self.layers[idx].status = LayerStatus::Playing;
    }

    /// Replaces the status of the layer at `idx` (a download that failed,
    /// for instance).
    pub fn set_status(&mut self, idx: usize, status: LayerStatus)
        requires
            idx < old(self).layers@.len(),
        ensures
            others_unchanged(old(self).layers@, final(self).layers@, idx as int),
            final(self).layers@[idx as int] == (Layer { status, ..old(self).layers@[idx as int] }),
    {
        self.layers[idx].status = status;
    }

    /// The volume of the layer at `idx`, in percent.
    pub fn get_volume(&self, idx: usize) -> (v: u8)
        requires
            idx < self.layers@.len(),
        ensures
            v == self.layers@[idx as int].volume,
    {
        self.layers[idx].volume
    }

    /// Sets the volume of the layer at `idx` to `level` percent, held to the
    /// range from 0 to 100.
    pub fn set_volume(&mut self, idx: usize, level: i64)
        requires
            idx < old(self).layers@.len(),
        ensures
            others_unchanged(old(self).layers@, final(self).layers@, idx as int),
            final(self).layers@[idx as int] == (Layer {
                volume: clamp_volume(level as int),
                ..old(self).layers@[idx as int]
            }),
    {
        let v: u8 = if level < 0 {
            0
        } else if level > MAX_VOLUME as i64 {
            MAX_VOLUME
        } else {
            level as u8
        };
        self.layers[idx].volume = v;
    }

    /// Raises the volume of the layer at `idx` by one step, up to full
    /// volume.
    pub fn volume_up(&mut self, idx: usize)
        requires
            idx < old(self).layers@.len(),
        ensures
            others_unchanged(old(self).layers@, final(self).layers@, idx as int),
            final(self).layers@[idx as int] == (Layer {
                volume: raised(old(self).layers@[idx as int].volume),
                ..old(self).layers@[idx as int]
            }),
    {
        let cur = self.get_volume(idx);
        self.set_volume(idx, cur as i64 + VOLUME_STEP as i64);
    }

    /// Lowers the volume of the layer at `idx` by one step, down to silence.
    pub fn volume_down(&mut self, idx: usize)
        requires
            idx < old(self).layers@.len(),
        ensures
            others_unchanged(old(self).layers@, final(self).layers@, idx as int),
            final(self).layers@[idx as int] == (Layer {
                volume: lowered(old(self).layers@[idx as int].volume),
                ..old(self).layers@[idx as int]
            }),
    {
        let cur = self.get_volume(idx);
        self.set_volume(idx, cur as i64 - VOLUME_STEP as i64);
    }

    /// Whether the layer at `idx` is unmuted.
    pub fn is_active(&self, idx: usize) -> (a: bool)
        requires
            idx < self.layers@.len(),
        ensures
            a == self.layers@[idx as int].active,
    {
        self.layers[idx].active
    }

    /// Mutes the layer at `idx` if it plays, unmutes it if it is muted.
    pub fn toggle_mute(&mut self, idx: usize)
        requires
            idx < old(self).layers@.len(),
        ensures
            others_unchanged(old(self).layers@, final(self).layers@, idx as int),
            final(self).layers@[idx as int] == (Layer {
                active: !old(self).layers@[idx as int].active,
                ..old(self).layers@[idx as int]
            }),
    {
        let a = self.layers[idx].active;
        self.layers[idx].active = !a;
    }

    /// The position of the first layer whose name contains `name`, ignoring
    /// case.
    pub fn find_layer(&self, name: &str) -> (r: Option<usize>)
        ensures
            match r {
                Some(i) => first_match(self.layers@, lowercase(name@)) == Some(i as int),
                None => first_match(self.layers@, lowercase(name@)) is None,
            },
            r matches Some(i) ==> i < self.layers@.len() && name_matches(self.layers@[i as int], lowercase(name@))
                && forall|j: int| 0 <= j < i ==> !name_matches(#[trigger] self.layers@[j], lowercase(name@)),
            is_ascii_text(name@) ==> lowercase(name@) == ascii_lowercase(name@),
            forall|j: int|
                0 <= j < (match r {
                    Some(i) => i + 1,
                    None => self.layers@.len() as int,
                }) && is_ascii_text(#[trigger] self.layers@[j].name@) ==> lowercase(self.layers@[j].name@)
                    == ascii_lowercase(self.layers@[j].name@),
    {
        let query = to_lowercase(name);
        let n = self.layers.len();
        let mut i: usize = 0;
        while i < n
            invariant
                n == self.layers@.len(),
                i <= n,
                query@ == lowercase(name@),
                is_ascii_text(name@) ==> lowercase(name@) == ascii_lowercase(name@),
                forall|j: int| 0 <= j < i ==> !name_matches(#[trigger] self.layers@[j], lowercase(name@)),
                forall|j: int|
                    0 <= j < i && is_ascii_text(#[trigger] self.layers@[j].name@) ==> lowercase(
                        self.layers@[j].name@,
                    ) == ascii_lowercase(self.layers@[j].name@),
            decreases n - i,
        {
            let lower = to_lowercase(self.layers[i].name.as_str());
            if text_contains(lower.as_str(), query.as_str()) {
                proof {
                    let layers = self.layers@;
                    assert(name_matches(layers[i as int], lowercase(name@)));
                    let k = choose|k: int|
                        0 <= k < layers.len() && name_matches(#[trigger] layers[k], lowercase(name@))
                            && forall|j: int| 0 <= j < k ==> !name_matches(#[trigger] layers[j], lowercase(name@));
                    assert(0 <= k < layers.len() && name_matches(layers[k], lowercase(name@))
                        && forall|j: int| 0 <= j < k ==> !name_matches(#[trigger] layers[j], lowercase(name@)));
                    if k < i {
                        assert(!name_matches(layers[k], lowercase(name@)));
                    }
                    if k > i {
                        assert(!name_matches(layers[i as int], lowercase(name@)));
                    }
                }
                return Some(i);
            }
            i = i + 1;
        }
        None
    }

    /// The status report: one line per layer, joined with newlines, or
    /// `no layers`.
    pub fn status(&self) -> (r: String)
        ensures
            r@ == status_report(self.layers@),
    {
        if self.layers.len() == 0 {
            let mut out = String::new();
            out.append("no layers");
            return out;
        }
        let n = self.layers.len();
        let mut lines: Vec<String> = Vec::new();
        let mut i: usize = 0;
        while i < n
            invariant
                n == self.layers@.len(),
                i <= n,
                lines@.len() == i,
                forall|j: int| 0 <= j < i ==> (#[trigger] lines@[j])@ == status_line(self.layers@[j]),
            decreases n - i,
        {
            lines.push(status_line_of(&self.layers[i]));
            i = i + 1;
        }
        assert(texts(lines@) =~= self.layers@.map_values(|l: Layer| status_line(l)));
        join_texts(&lines, "\n")
    }

    /// The label of the layer at `idx` in the terminal view.
    pub fn layer_label(&self, idx: usize, selected: bool) -> (r: String)
        requires
            idx < self.layers@.len(),
        ensures
            r@ == layer_label(self.layers@[idx as int], selected),
    {
        let l = &self.layers[idx];
        let mut out = String::new();
        if selected {
            out.append(" \u{25b8} ");
        } else {
            out.append("   ");
        }
        push_padded_right(&mut out, l.name.as_str(), NAME_WIDTH);
        match &l.status {
            LayerStatus::Downloading => {
                out.append(" [downloading...]");
            },
            LayerStatus::Error(e) => {
                out.append(" [error: ");
                out.append(e.as_str());
                out.append("]");
            },
            LayerStatus::Playing => {
                out.append("");
            },
        }
        assert(out@ =~= layer_label(*l, selected));
        out
    }

    /// The text drawn after the gauge of the layer at `idx`.
    pub fn level_text(&self, idx: usize) -> (r: String)
        requires
            idx < self.layers@.len(),
        ensures
            r@ == level_text(self.layers@[idx as int]),
    {
        let l = &self.layers[idx];
        let mut out = String::new();
        match &l.status {
            LayerStatus::Playing => {
                push_state(&mut out, l, 3);
                assert(out@ =~= level_text(*l));
            },
            _ => {
                out.append("");
                assert(out@ =~= level_text(*l));
            },
        }
        out
    }

    /// How full the layer's gauge is drawn, in percent: its volume, held to
    /// full scale, while it plays unmuted; empty otherwise.
    pub fn gauge_level(&self, idx: usize) -> (g: u8)
        requires
            idx < self.layers@.len(),
        ensures
            g == if self.layers@[idx as int].active && self.layers@[idx as int].status is Playing {
                clamp_volume(self.layers@[idx as int].volume as int)
            } else {
                0
            },
    {
        let l = &self.layers[idx];
        if l.active && matches!(l.status, LayerStatus::Playing) {
            if l.volume > MAX_VOLUME {
                MAX_VOLUME
            } else {
                l.volume
            }
        } else {
            0
        }
    }
}

} // verus!
