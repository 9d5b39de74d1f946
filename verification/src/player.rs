//! The external player: how it is started and what it is told.

use vstd::prelude::*;
use vstd::string::StringExecFns;
use crate::platform::Platform;
use crate::text::{string_texts, texts};

verus! {

/// Why a session could not start its player.
#[derive(Clone, Copy, Debug, PartialEq, Eq, Structural)]
pub enum SpawnError {
    /// Nothing is known about starting programs on this platform.
    UnsupportedPlatform,
}

/// Model of a [`CommandLine`].
pub struct CommandLineView {
    pub program: Seq<char>,
    pub arguments: Seq<Seq<char>>,
}

/// A program to start and the arguments to start it with.
#[derive(Debug, PartialEq, Eq)]
pub struct CommandLine<'a> {
    pub program: &'a str,
    pub arguments: Vec<&'a str>,
}

impl<'a> View for CommandLine<'a> {
    type V = CommandLineView;

    open spec fn view(&self) -> CommandLineView {
        CommandLineView { program: self.program@, arguments: texts(self.arguments@) }
    }
}

/// How a command is started on a platform. Windows starts it through its
/// command interpreter, Linux and macOS start it directly, and elsewhere it
/// cannot be started.
pub open spec fn command_line_of(platform: Platform, command: Seq<char>, arguments: Seq<Seq<char>>) -> Result<
    CommandLineView,
    SpawnError,
> {
    match platform {
        Platform::Windows => Ok(
            CommandLineView { program: "cmd"@, arguments: seq!["/C"@, command] + arguments },
        ),
        Platform::Unix => Ok(CommandLineView { program: command, arguments }),
        Platform::Unknown => Err(SpawnError::UnsupportedPlatform),
    }
}

/// The model of a command line, or the error as it is.
pub open spec fn command_line_view(res: Result<CommandLine, SpawnError>) -> Result<CommandLineView, SpawnError> {
    match res {
        Ok(line) => Ok(line@),
        Err(e) => Err(e),
    }
}

/// The name of the player program.
pub open spec fn player_program() -> Seq<char> {
    "mpv"@
}

/// The arguments of the player for one track: full volume, sound only, the
/// control endpoint, and last the location of the track.
pub open spec fn player_arguments_of(location: Seq<char>, control_endpoint: Seq<char>) -> Seq<Seq<char>> {
    seq![
        "--volume=100"@,
        "--no-video"@,
        "--vo=null"@,
        "--video=no"@,
        "--input-ipc-server="@ + control_endpoint,
        location,
    ]
}

/// Where the player listens for control messages: a named pipe on Windows,
/// a socket in the temporary directory on Linux and macOS.
pub open spec fn control_endpoint_of(platform: Platform) -> Option<Seq<char>> {
    match platform {
        Platform::Windows => Some("\\\\.\\pipe\\rusty-player"@),
        Platform::Unix => Some("/tmp/rusty-player.sock"@),
        Platform::Unknown => None,
    }
}

/// Puts together the program and the arguments that start `command` on a
/// platform.
pub fn command_line<'a>(platform: Platform, command: &'a str, arguments: &Vec<&'a str>) -> (res: Result<
    CommandLine<'a>,
    SpawnError,
>)
    ensures
        command_line_view(res) == command_line_of(platform, command@, texts(arguments@)),
{
    let mut all: Vec<&'a str> = Vec::new();
    let program = match platform {
        Platform::Windows => {
            all.push("/C");
            all.push(command);
            "cmd"
        },
        Platform::Unix => command,
        Platform::Unknown => {
            return Err(SpawnError::UnsupportedPlatform);
        },
    };
    let ghost lead = all@;
    let mut i: usize = 0;
    while i < arguments.len()
        invariant
            i <= arguments@.len(),
            all@ == lead + arguments@.take(i as int),
        decreases arguments@.len() - i,
    {
        all.push(arguments[i]);
        assert(all@ =~= lead + arguments@.take(i + 1));
        i += 1;
    }
    assert(arguments@.take(i as int) =~= arguments@);
    let res = CommandLine { program, arguments: all };
    assert(res@.arguments =~= command_line_of(platform, command@, texts(arguments@))->Ok_0.arguments);
    Ok(res)
}

/// The name of the player program.
pub fn player() -> (res: &'static str)
    ensures
        res@ == player_program(),
{
    "mpv"
}

/// Lists the arguments that start the player on one track.
pub fn player_arguments(location: &str, control_endpoint: &str) -> (res: Vec<String>)
    ensures
        string_texts(res@) == player_arguments_of(location@, control_endpoint@),
{
    let mut arguments: Vec<String> = Vec::new();
    arguments.push("--volume=100".to_owned());
    arguments.push("--no-video".to_owned());
    arguments.push("--vo=null".to_owned());
    arguments.push("--video=no".to_owned());
    let mut endpoint = "--input-ipc-server=".to_owned();
    endpoint.append(control_endpoint);
    arguments.push(endpoint);
    arguments.push(location.to_owned());
    assert(string_texts(arguments@) =~= player_arguments_of(location@, control_endpoint@));
    arguments
}

/// The control endpoint of the player on a platform, if the platform has one.
pub fn control_endpoint(platform: Platform) -> (res: Option<&'static str>)
    ensures
        match res {
            Some(path) => control_endpoint_of(platform) == Some(path@),
            None => control_endpoint_of(platform) is None,
        },
{
    match platform {
        Platform::Windows => Some("\\\\.\\pipe\\rusty-player"),
        Platform::Unix => Some("/tmp/rusty-player.sock"),
        Platform::Unknown => None,
    }
}

} // verus!
