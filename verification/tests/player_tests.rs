use rusty_player::platform::Platform;
use rusty_player::player::{command_line, control_endpoint, player, player_arguments, CommandLine, SpawnError};

#[test]
fn unix_starts_the_command_directly() {
    let arguments = vec!["--no-video", "/music/a.mp3"];
    assert_eq!(
        command_line(Platform::Unix, "mpv", &arguments),
        Ok(CommandLine { program: "mpv", arguments: vec!["--no-video", "/music/a.mp3"] })
    );
}

#[test]
fn windows_starts_the_command_through_its_interpreter() {
    let arguments = vec!["--no-video", "a.mp3"];
    assert_eq!(
        command_line(Platform::Windows, "mpv", &arguments),
        Ok(CommandLine { program: "cmd", arguments: vec!["/C", "mpv", "--no-video", "a.mp3"] })
    );
    assert_eq!(
        command_line(Platform::Windows, "cls", &vec![]),
        Ok(CommandLine { program: "cmd", arguments: vec!["/C", "cls"] })
    );
}

#[test]
fn unknown_platform_starts_nothing() {
    assert_eq!(command_line(Platform::Unknown, "mpv", &vec!["a"]), Err(SpawnError::UnsupportedPlatform));
}

#[test]
fn command_without_arguments() {
    assert_eq!(
        command_line(Platform::Unix, "mpv", &vec![]),
        Ok(CommandLine { program: "mpv", arguments: vec![] })
    );
}

#[test]
fn player_is_mpv() {
    assert_eq!(player(), "mpv");
}

#[test]
fn player_arguments_for_one_track() {
    assert_eq!(
        player_arguments("/music/a.mp3", "/tmp/rusty-player.sock"),
        vec![
            "--volume=100",
            "--no-video",
            "--vo=null",
            "--video=no",
            "--input-ipc-server=/tmp/rusty-player.sock",
            "/music/a.mp3",
        ]
    );
}

#[test]
fn player_arguments_keep_the_location_last() {
    let arguments = player_arguments("https://example.org/stream?x=1", "");
    assert_eq!(arguments.len(), 6);
    assert_eq!(arguments[4], "--input-ipc-server=");
    assert_eq!(arguments[5], "https://example.org/stream?x=1");
}

#[test]
fn control_endpoint_depends_on_the_platform() {
    assert_eq!(control_endpoint(Platform::Unix), Some("/tmp/rusty-player.sock"));
    assert_eq!(control_endpoint(Platform::Windows), Some("\\\\.\\pipe\\rusty-player"));
    assert_eq!(control_endpoint(Platform::Unknown), None);
}
