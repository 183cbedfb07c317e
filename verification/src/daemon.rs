use vstd::prelude::*;

use crate::engine::{AudioEngine, Layer, clamp_volume, first_match, others_unchanged, status_report};
use crate::text::{lowercase, after_space, before_space, decimal, push_decimal, same_text, split_at_space, trim, trimmed};

verus! {

/// A request that a client sends to the running daemon, one line of text.
#[derive(Debug)]
pub enum Request {
    Stop,
    Status,
    Volume { layer: String, level: String },
    Mute { layer: String },
    Unknown { command: String },
}

/// The first word of a request line (after trimming white space).
pub open spec fn command_word(line: Seq<char>) -> Seq<char> {
    before_space(trimmed(line))
}

/// The second word of a request line, or the empty text.
pub open spec fn first_arg(line: Seq<char>) -> Seq<char> {
    match after_space(trimmed(line)) {
        Some(rest) => before_space(rest),
        None => Seq::empty(),
    }
}

/// All of a request line after its second word, or the empty text.
pub open spec fn rest_arg(line: Seq<char>) -> Seq<char> {
    match after_space(trimmed(line)) {
        Some(rest) => match after_space(rest) {
            Some(tail) => tail,
            None => Seq::empty(),
        },
        None => Seq::empty(),
    }
}

/// Reads a request line: the line is trimmed and split at its first two
/// spaces into a command word, a layer name and a volume.
pub fn parse_request(line: &str) -> (r: Request)
    ensures
        (r is Stop) == (command_word(line@) == "stop"@),
        (r is Status) == (command_word(line@) == "status"@),
        (r is Volume) == (command_word(line@) == "vol"@),
        (r is Mute) == (command_word(line@) == "mute"@),
        match r {
            Request::Volume { layer, level } => layer@ == first_arg(line@) && level@ == rest_arg(line@),
            Request::Mute { layer } => layer@ == first_arg(line@),
            Request::Unknown { command } => command@ == command_word(line@),
            _ => true,
        },
{
    proof {
        reveal_strlit("stop");
        reveal_strlit("status");
        reveal_strlit("vol");
        reveal_strlit("mute");
        assert("stop"@.len() == 4 && "status"@.len() == 6 && "vol"@.len() == 3 && "mute"@.len() == 4);
        assert("stop"@[0] == 's' && "mute"@[0] == 'm');
    }
    let t = trim(line);
    let (cmd, rest) = split_at_space(t);
    let (first, tail) = match rest {
        Some(r) => {
            let (a, b) = split_at_space(r);
            let tail = match b {
                Some(x) => x.to_owned(),
                None => String::new(),
            };
            (a.to_owned(), tail)
        },
        None => (String::new(), String::new()),
    };
    if same_text(cmd, "stop") {
        Request::Stop
    } else if same_text(cmd, "status") {
        Request::Status
    } else if same_text(cmd, "vol") {
        Request::Volume { layer: first, level: tail }
    } else if same_text(cmd, "mute") {
        Request::Mute { layer: first }
    } else {
        Request::Unknown { command: cmd.to_owned() }
    }
}

/// The daemon's answer to a request, and whether it keeps running.
pub struct Reply {
    pub keep_running: bool,
    pub text: String,
}

/// The answer to `vol` once the layer's volume is set.
pub open spec fn volume_reply(l: Layer) -> Seq<char> {
    l.name@ + " \u{2192} "@ + decimal(l.volume as nat) + "%\n"@
}

/// The answer to `mute` once the layer is muted or unmuted.
pub open spec fn mute_reply(l: Layer) -> Seq<char> {
    l.name@ + " "@ + (if l.active { "unmuted"@ } else { "muted"@ }) + "\n"@
}

/// The answer to a request for a layer that no name matches.
pub open spec fn unknown_layer_reply(name: Seq<char>) -> Seq<char> {
    "unknown layer: "@ + name + "\n"@
}

impl AudioEngine {
    /// Carries out a request. For `vol`, `level` is the volume read from the
    /// request's volume text, in percent, or `None` when that text is not a
    /// number. `stop` ends the daemon; `status` reports the mix; `vol` sets
    /// the first matching layer's volume; `mute` mutes or unmutes it.
    pub fn handle_request(&mut self, req: &Request, level: Option<i64>) -> (r: Reply)
        ensures
            r.keep_running == !(req is Stop),
            match req {
                Request::Stop => r.text@ == "stopped\n"@ && final(self).layers@ == old(self).layers@,
                Request::Status => r.text@ == "playing\n"@ + status_report(old(self).layers@) + "\n"@
                    && final(self).layers@ == old(self).layers@,
                Request::Volume { layer, level: text } => match (first_match(old(self).layers@, lowercase(layer@)), level) {
                    (Some(i), Some(v)) => {
                        &&& others_unchanged(old(self).layers@, final(self).layers@, i)
                        &&& final(self).layers@[i] == (Layer { volume: clamp_volume(v as int), ..old(self).layers@[i] })
                        &&& r.text@ == volume_reply(final(self).layers@[i])
                    },
                    (None, _) => r.text@ == unknown_layer_reply(layer@)
                        && final(self).layers@ == old(self).layers@,
                    (Some(_), None) => r.text@ == "invalid volume: "@ + text@ + "\n"@
                        && final(self).layers@ == old(self).layers@,
                },
                Request::Mute { layer } => match first_match(old(self).layers@, lowercase(layer@)) {
                    Some(i) => {
                        &&& others_unchanged(old(self).layers@, final(self).layers@, i)
                        &&& final(self).layers@[i] == (Layer { active: !old(self).layers@[i].active, ..old(self).layers@[i] })
                        &&& r.text@ == mute_reply(final(self).layers@[i])
                    },
                    None => r.text@ == unknown_layer_reply(layer@)
                        && final(self).layers@ == old(self).layers@,
                },
                Request::Unknown { command } => r.text@ == "unknown command: "@ + command@ + "\n"@
                    && final(self).layers@ == old(self).layers@,
            },
    {
        let mut text = String::new();
        match req {
            Request::Stop => {
                text.append("stopped\n");
                Reply { keep_running: false, text }
            },
            Request::Status => {
                let report = self.status();
                text.append("playing\n");
                text.append(report.as_str());
                text.append("\n");
                Reply { keep_running: true, text }
            },
            Request::Volume { layer, level: vol_text } => {
                match self.find_layer(layer.as_str()) {
                    None => {
                        text.append("unknown layer: ");
                        text.append(layer.as_str());
                        text.append("\n");
                    },
                    Some(idx) => match level {
                        Some(v) => {
                            self.set_volume(idx, v);
                            let actual = self.get_volume(idx);
                            text.append(self.layers[idx].name.as_str());
                            text.append(" \u{2192} ");
                            push_decimal(&mut text, actual);
                            text.append("%\n");
                        },
                        None => {
                            text.append("invalid volume: ");
                            text.append(vol_text.as_str());
                            text.append("\n");
                        },
                    },
                }
                Reply { keep_running: true, text }
            },
            Request::Mute { layer } => {
                match self.find_layer(layer.as_str()) {
                    Some(idx) => {
                        self.toggle_mute(idx);
                        text.append(self.layers[idx].name.as_str());
                        text.append(" ");
                        if self.is_active(idx) {
                            text.append("unmuted");
                        } else {
                            text.append("muted");
                        }
                        text.append("\n");
                    },
                    None => {
                        text.append("unknown layer: ");
                        text.append(layer.as_str());
                        text.append("\n");
                    },
                }
                Reply { keep_running: true, text }
            },
            Request::Unknown { command } => {
                text.append("unknown command: ");
                text.append(command.as_str());
                text.append("\n");
                Reply { keep_running: true, text }
            },
        }
    }
}

} // verus!
