use vstd::prelude::*;

use crate::text::{same_text, texts};

verus! {

/// What the program is asked to do by its command-line arguments.
#[derive(Debug)]
pub enum CliAction {
    /// Print the usage text.
    Help,
    /// Start the daemon in the background with this preset.
    Start { preset: String },
    /// Run as the daemon with this preset.
    Daemon { preset: String },
    /// Send this request line to the running daemon and print its answer.
    Send { command: String },
    /// Run the interactive terminal view with this preset.
    Tui { preset: String },
    /// Fail with this usage message.
    Usage { message: String },
}

/// The kinds of `CliAction`.
#[derive(Clone, Copy, Debug, PartialEq, Eq, Structural)]
pub enum CliKind {
    Help,
    Start,
    Daemon,
    Send,
    Tui,
    Usage,
}

/// A `CliAction` as its kind and its text (empty for `Help`).
pub open spec fn cli_view(a: CliAction) -> (CliKind, Seq<char>) {
    match a {
        CliAction::Help => (CliKind::Help, Seq::empty()),
        CliAction::Start { preset } => (CliKind::Start, preset@),
        CliAction::Daemon { preset } => (CliKind::Daemon, preset@),
        CliAction::Send { command } => (CliKind::Send, command@),
        CliAction::Tui { preset } => (CliKind::Tui, preset@),
        CliAction::Usage { message } => (CliKind::Usage, message@),
    }
}

/// The `i`th argument, or `default` when there are not that many.
pub open spec fn arg_or(args: Seq<Seq<char>>, i: int, default: Seq<char>) -> Seq<char> {
    if i < args.len() {
        args[i]
    } else {
        default
    }
}

/// What the arguments (after the program's name) ask for: `--help` or `-h`,
/// `start [preset]`, `--daemon [preset]`, `stop`, `status`,
/// `vol <layer> <volume>`, `mute <layer>`; anything else names the preset of
/// the interactive view (`default` when there is no argument).
pub open spec fn cli_spec(args: Seq<Seq<char>>) -> (CliKind, Seq<char>) {
    let cmd = arg_or(args, 0, Seq::empty());
    if cmd == "--help"@ || cmd == "-h"@ {
        (CliKind::Help, Seq::empty())
    } else if cmd == "start"@ {
        (CliKind::Start, arg_or(args, 1, "default"@))
    } else if cmd == "--daemon"@ {
        (CliKind::Daemon, arg_or(args, 1, "default"@))
    } else if cmd == "stop"@ {
        (CliKind::Send, "stop"@)
    } else if cmd == "status"@ {
        (CliKind::Send, "status"@)
    } else if cmd == "vol"@ {
        if args.len() < 3 {
            (CliKind::Usage, "usage: quies vol <layer> <0.0-1.0>"@)
        } else {
            (CliKind::Send, "vol "@ + args[1] + " "@ + args[2])
        }
    } else if cmd == "mute"@ {
        if args.len() < 2 {
            (CliKind::Usage, "usage: quies mute <layer>"@)
        } else {
            (CliKind::Send, "mute "@ + args[1])
        }
    } else if cmd.len() == 0 {
        (CliKind::Tui, "default"@)
    } else {
        (CliKind::Tui, cmd)
    }
}

/// The words that `parse_args` reads as commands rather than as a preset.
pub open spec fn is_command_word(w: Seq<char>) -> bool {
    ||| w == "--help"@
    ||| w == "-h"@
    ||| w == "start"@
    ||| w == "--daemon"@
    ||| w == "stop"@
    ||| w == "status"@
    ||| w == "vol"@
    ||| w == "mute"@
}

/// A first argument that is no command word names the preset of the
/// interactive view as it is given; the `default` preset is taken only when
/// there is no first argument or it is empty.
pub proof fn lemma_cli_preset_argument(args: Seq<Seq<char>>)
    ensures
        args.len() > 0 && args[0].len() > 0 && !is_command_word(args[0]) ==> cli_spec(args) == (
        CliKind::Tui, args[0]),
        args.len() == 0 || args[0].len() == 0 ==> cli_spec(args) == (CliKind::Tui, "default"@),
{
    reveal_strlit("--help");
    reveal_strlit("-h");
    reveal_strlit("start");
    reveal_strlit("--daemon");
    reveal_strlit("stop");
    reveal_strlit("status");
    reveal_strlit("vol");
    reveal_strlit("mute");
    assert("--help"@.len() > 0 && "-h"@.len() > 0 && "start"@.len() > 0 && "--daemon"@.len() > 0);
    assert("stop"@.len() > 0 && "status"@.len() > 0 && "vol"@.len() > 0 && "mute"@.len() > 0);
}

fn arg_or_default(args: &Vec<String>, i: usize, default: &str) -> (r: String)
    ensures
        r@ == arg_or(texts(args@), i as int, default@),
{
    if i < args.len() {
        args[i].clone()
    } else {
        default.to_owned()
    }
}

fn text_of(s: &str) -> (r: String)
    ensures
        r@ == s@,
{
    s.to_owned()
}

/// Reads the command-line arguments (without the program's name).
pub fn parse_args(args: &Vec<String>) -> (r: CliAction)
    ensures
        cli_view(r) == cli_spec(texts(args@)),
        args@.len() > 0 && args@[0]@.len() > 0 && !is_command_word(args@[0]@) ==> (r matches CliAction::Tui { preset } && preset@ == args@[0]@),
{
    let ghost a = texts(args@);
    proof {
        lemma_cli_preset_argument(a);
        if args@.len() > 0 {
            assert(a[0] == args@[0]@);
        }
    }
    proof {
        reveal_strlit("");
    }
    let cmd = arg_or_default(args, 0, "");
    let c = cmd.as_str();
    assert(c@ == arg_or(a, 0, Seq::empty()));
    if same_text(c, "--help") || same_text(c, "-h") {
        CliAction::Help
    } else if same_text(c, "start") {
        CliAction::Start { preset: arg_or_default(args, 1, "default") }
    } else if same_text(c, "--daemon") {
        CliAction::Daemon { preset: arg_or_default(args, 1, "default") }
    } else if same_text(c, "stop") {
        CliAction::Send { command: text_of("stop") }
    } else if same_text(c, "status") {
        CliAction::Send { command: text_of("status") }
    } else if same_text(c, "vol") {
        if args.len() < 3 {
            CliAction::Usage { message: text_of("usage: quies vol <layer> <0.0-1.0>") }
        } else {
            let mut command = String::new();
            command.append("vol ");
            command.append(args[1].as_str());
            command.append(" ");
            command.append(args[2].as_str());
            assert(command@ =~= "vol "@ + a[1] + " "@ + a[2]);
            CliAction::Send { command }
        }
    } else if same_text(c, "mute") {
        if args.len() < 2 {
            CliAction::Usage { message: text_of("usage: quies mute <layer>") }
        } else {
            let mut command = String::new();
            command.append("mute ");
            command.append(args[1].as_str());
            assert(command@ =~= "mute "@ + a[1]);
            CliAction::Send { command }
        }
    } else if cmd.unicode_len() == 0 {
        CliAction::Tui { preset: text_of("default") }
    } else {
        CliAction::Tui { preset: cmd }
    }
}

} // verus!
