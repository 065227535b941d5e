//! The command lines that start the external process and that stop it.

use crate::decimal::{decimal, decimal_is_canonical, decimal_round_trip, decimal_string, decimal_value, is_digit};
use vstd::prelude::*;
use vstd::string::*;

verus! {

/// The family of operating systems that the owning program runs on.
#[derive(Clone, Copy, Debug, PartialEq, Eq, Structural)]
pub enum Platform {
    /// Windows and systems that follow its conventions.
    Windows,
    /// Unix and systems that follow its conventions.
    Posix,
}

/// A program to run and the arguments to hand it, in order.
#[derive(Debug, PartialEq, Eq)]
pub struct CommandLine {
    pub program: String,
    pub args: Vec<String>,
}

/// What a [`CommandLine`] says: the program's name and each argument as text.
pub struct CommandLineView {
    pub program: Seq<char>,
    pub args: Seq<Seq<char>>,
}

impl View for CommandLine {
    type V = CommandLineView;

    open spec fn view(&self) -> CommandLineView {
        CommandLineView { program: self.program@, args: texts(self.args@) }
    }
}

impl Clone for CommandLine {
    /// A copy that says the same as the line it was made from.
    fn clone(&self) -> (copy: CommandLine)
        ensures
            copy@ == self@,
    {
        let mut args: Vec<String> = Vec::new();
        let mut i: usize = 0;
        while i < self.args.len()
            invariant
                i <= self.args.len(),
                args.len() == i,
                forall|j: int| 0 <= j < i ==> args[j]@ == self.args[j]@,
            decreases self.args.len() - i,
        {
            args.push(self.args[i].clone());
            i += 1;
        }
        let copy = CommandLine { program: self.program.clone(), args };
        assert(copy@.args =~= self@.args);
        copy
    }
}

/// The text of each string of `items`, in order.
pub open spec fn texts(items: Seq<String>) -> Seq<Seq<char>> {
    Seq::new(items.len(), |i: int| items[i]@)
}

/// The flag that announces the port on which the owner listens.
pub open spec fn port_flag() -> Seq<char> {
    "--local-socket-port"@
}

/// The flag that announces a subtitle.
pub open spec fn sub_title_flag() -> Seq<char> {
    "--sub-title"@
}

/// The arguments of a launch: the port flag and the port in decimal, then,
/// only for a subtitle that is not empty, the subtitle flag and the subtitle
/// as it was given.
pub open spec fn launch_args(port: u16, sub_title: Seq<char>) -> Seq<Seq<char>> {
    if sub_title.len() == 0 {
        seq![port_flag(), decimal(port as nat)]
    } else {
        seq![port_flag(), decimal(port as nat), sub_title_flag(), sub_title]
    }
}

/// The command line that starts the external process found at `driver_path`
/// and tells it to dial back to `port`. It is the same on every platform.
pub open spec fn launch_line(
    driver_path: Seq<char>,
    port: u16,
    sub_title: Seq<char>,
) -> CommandLineView {
    CommandLineView { program: driver_path, args: launch_args(port, sub_title) }
}

/// The command line of the helper that stops process `pid` at once:
/// `taskkill /F /pid <pid>` on Windows, `kill -9 <pid>` elsewhere.
pub open spec fn kill_line(platform: Platform, pid: u32) -> CommandLineView {
    match platform {
        Platform::Windows => CommandLineView {
            program: "taskkill"@,
            args: seq!["/F"@, "/pid"@, decimal(pid as nat)],
        },
        Platform::Posix => CommandLineView {
            program: "kill"@,
            args: seq!["-9"@, decimal(pid as nat)],
        },
    }
}

/// The port that a launch announces is the port it was given: the first
/// argument is the port flag, and the second reads back as `port`.
pub proof fn launch_announces_port(driver_path: Seq<char>, port: u16, sub_title: Seq<char>)
    ensures
        launch_line(driver_path, port, sub_title).args[0] == port_flag(),
        decimal_value(launch_line(driver_path, port, sub_title).args[1]) == port,
{
    decimal_round_trip(port as nat);
}

/// An empty subtitle leaves no trace: the arguments are the port flag and the
/// port, and none of them is the subtitle flag.
pub proof fn empty_sub_title_is_omitted(driver_path: Seq<char>, port: u16, sub_title: Seq<char>)
    requires
        sub_title.len() == 0,
    ensures
        launch_line(driver_path, port, sub_title).args.len() == 2,
        forall|i: int|
            0 <= i < 2 ==> #[trigger] launch_line(driver_path, port, sub_title).args[i]
                != sub_title_flag(),
{
    leading_args_are_not_sub_title_flag(port);
}

/// A subtitle that is not empty follows the port, behind its flag and
/// unaltered; the flag stands in that one place before it.
pub proof fn sub_title_is_passed_verbatim(driver_path: Seq<char>, port: u16, sub_title: Seq<char>)
    requires
        sub_title.len() > 0,
    ensures
        launch_line(driver_path, port, sub_title).args.len() == 4,
        launch_line(driver_path, port, sub_title).args[2] == sub_title_flag(),
        launch_line(driver_path, port, sub_title).args[3] == sub_title,
        forall|i: int|
            0 <= i < 2 ==> #[trigger] launch_line(driver_path, port, sub_title).args[i]
                != sub_title_flag(),
{
    leading_args_are_not_sub_title_flag(port);
}

/// Neither the port flag nor a port in decimal can be taken for the subtitle
/// flag.
proof fn leading_args_are_not_sub_title_flag(port: u16)
    ensures
        port_flag() != sub_title_flag(),
        decimal(port as nat) != sub_title_flag(),
{
    reveal_strlit("--local-socket-port");
    reveal_strlit("--sub-title");
    assert(port_flag().len() != sub_title_flag().len());
    decimal_is_canonical(port as nat);
    assert(is_digit(decimal(port as nat)[0]));
    assert(sub_title_flag()[0] == '-');
}

/// The helper's last argument names the process to stop, whatever the
/// platform.
pub proof fn kill_names_process(platform: Platform, pid: u32)
    ensures
        decimal_value(kill_line(platform, pid).args.last()) == pid,
{
    decimal_round_trip(pid as nat);
}

/// Builds the command line that starts the external process. The platform
/// decides only how the arguments are gathered, one at a time or in pairs;
/// the line that results does not depend on it.
pub fn launch_command(
    platform: Platform,
    driver_path: &String,
    port: u16,
    sub_title: &String,
) -> (line: CommandLine)
    ensures
        line@ == launch_line(driver_path@, port, sub_title@),
{
    let port_text = decimal_string(port as u32);
    let with_sub_title = !sub_title.as_str().is_empty();
    let mut args: Vec<String> = Vec::new();
    match platform {
        Platform::Windows => {
            let mut pair = vec![String::from_str("--local-socket-port"), port_text];
            args.append(&mut pair);
            if with_sub_title {
                let mut pair = vec![String::from_str("--sub-title"), sub_title.clone()];
                args.append(&mut pair);
            }
        },
        Platform::Posix => {
            args.push(String::from_str("--local-socket-port"));
            args.push(port_text);
            if with_sub_title {
                args.push(String::from_str("--sub-title"));
                args.push(sub_title.clone());
            }
        },
    }
    let line = CommandLine { program: driver_path.clone(), args };
    assert(line@.args =~= launch_args(port, sub_title@));
    line
}

/// Builds the command line of the helper that stops process `pid` at once.
pub fn kill_command(platform: Platform, pid: u32) -> (line: CommandLine)
    ensures
        line@ == kill_line(platform, pid),
{
    let pid_text = decimal_string(pid);
    let mut args: Vec<String> = Vec::new();
    let program = match platform {
        Platform::Windows => {
            args.push(String::from_str("/F"));
            args.push(String::from_str("/pid"));
            args.push(pid_text);
            String::from_str("taskkill")
        },
        Platform::Posix => {
            args.push(String::from_str("-9"));
            args.push(pid_text);
            String::from_str("kill")
        },
    };
    let line = CommandLine { program, args };
    assert(line@.args =~= kill_line(platform, pid).args);
    line
}

} // verus!
