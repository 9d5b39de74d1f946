//! What depends on the operating system: where the configuration lies, and
//! how a program is started.

use vstd::prelude::*;
use vstd::string::{StrSliceExecFns, StringExecFns};
use crate::text::{characters, contains, occurs_in, same_text};

verus! {

/// The kinds of operating system the player knows.
#[derive(Clone, Copy, Debug, PartialEq, Eq, Structural)]
pub enum Platform {
    Windows,
    /// Linux and macOS.
    Unix,
    /// Anything else.
    Unknown,
}

/// The platform that an operating system name stands for.
pub open spec fn platform_of(os: Seq<char>) -> Platform {
    if os == "windows"@ {
        Platform::Windows
    } else if os == "linux"@ || os == "macos"@ {
        Platform::Unix
    } else {
        Platform::Unknown
    }
}

/// Whether a character separates the parts of a path. The slash does
/// everywhere; the backslash does too, except on Linux and macOS, where it
/// may stand in a file name.
pub open spec fn is_separator(platform: Platform, c: char) -> bool {
    c == '/' || (c == '\\' && platform != Platform::Unix)
}

/// The length of a path up to and including its last separator; zero for a
/// path that holds no separator.
pub open spec fn directory_length(path: Seq<char>, platform: Platform) -> nat
    decreases path.len(),
{
    if path.len() == 0 {
        0
    } else if is_separator(platform, path.last()) {
        path.len()
    } else {
        directory_length(path.drop_last(), platform)
    }
}

/// The directory part of a path: the path up to and including its last
/// separator, and nothing for a path that holds no separator.
pub open spec fn directory_of(path: Seq<char>, platform: Platform) -> Seq<char> {
    path.take(directory_length(path, platform) as int)
}

/// Whether a path lies in the build directory of a development tree.
pub open spec fn in_build_directory(path: Seq<char>) -> bool {
    occurs_in(path, "/target/debug"@) || occurs_in(path, "\\target\\debug"@)
}

/// Where the configuration lies for an executable at `executable_path`.
///
/// A development build reads `config.json` from the working directory. An
/// installed executable, whatever it is called, reads the `config.json`
/// beside it: the directory part of its path, followed by the file name.
pub open spec fn config_path_of(executable_path: Seq<char>, platform: Platform) -> Seq<char> {
    if in_build_directory(executable_path) {
        "config.json"@
    } else {
        directory_of(executable_path, platform) + "config.json"@
    }
}

impl Platform {
    /// Tells the platform from the name of the operating system.
    pub fn from_os_name(os: &str) -> (res: Platform)
        ensures
            res == platform_of(os@),
    {
        if same_text(os, "windows") {
            Platform::Windows
        } else if same_text(os, "linux") || same_text(os, "macos") {
            Platform::Unix
        } else {
            Platform::Unknown
        }
    }
}

/// Tells whether a character separates the parts of a path.
pub fn separates(platform: Platform, c: char) -> (res: bool)
    ensures
        res == is_separator(platform, c),
{
    c == '/' || (c == '\\' && match platform {
        Platform::Unix => false,
        _ => true,
    })
}

/// Computes the path of the configuration file from the path of the
/// running executable.
pub fn config_path(executable_path: &str, platform: Platform) -> (res: String)
    ensures
        res@ == config_path_of(executable_path@, platform),
{
    if contains(executable_path, "/target/debug") || contains(executable_path, "\\target\\debug") {
        return "config.json".to_owned();
    }
    let path = characters(executable_path);
    let mut kept: usize = path.len();
    assert(path@.take(kept as int) =~= path@);
    while kept > 0 && !separates(platform, path[kept - 1])
        invariant
            kept <= path@.len(),
            path@ == executable_path@,
            directory_length(path@, platform) == directory_length(path@.take(kept as int), platform),
        decreases kept,
    {
        assert(path@.take(kept as int).drop_last() =~= path@.take(kept - 1));
        kept -= 1;
    }
    assert(directory_length(path@.take(kept as int), platform) == kept);
    let mut config = executable_path.substring_char(0, kept).to_owned();
    assert(config@ =~= directory_of(executable_path@, platform));
    config.append("config.json");
    config
}

/// The directory part of a path ends where its last separator stands: it
/// is no longer than the path, it ends with a separator unless it is
/// empty, and no separator comes after it.
pub proof fn lemma_directory_ends_at_last_separator(path: Seq<char>, platform: Platform)
    ensures
        directory_length(path, platform) <= path.len(),
        directory_length(path, platform) > 0 ==> is_separator(
            platform,
            path[directory_length(path, platform) - 1],
        ),
        forall|i: int|
            directory_length(path, platform) <= i < path.len() ==> !is_separator(platform, #[trigger] path[i]),
    decreases path.len(),
{
    if path.len() > 0 && !is_separator(platform, path.last()) {
        let shorter = path.drop_last();
        lemma_directory_ends_at_last_separator(shorter, platform);
        assert forall|i: int| directory_length(path, platform) <= i < path.len() implies !is_separator(
            platform,
            #[trigger] path[i],
        ) by {
            if i < shorter.len() {
                assert(shorter[i] == path[i]);
            }
        }
        if directory_length(path, platform) > 0 {
            assert(shorter[directory_length(path, platform) - 1] == path[directory_length(path, platform) - 1]);
        }
    }
}

/// A path that ends in a file name after a directory: the directory is
/// what the configuration lies in, whatever the file is called.
pub proof fn lemma_directory_of_file_in_directory(directory: Seq<char>, name: Seq<char>, platform: Platform)
    requires
        directory.len() > 0 ==> is_separator(platform, directory.last()),
        forall|i: int| 0 <= i < name.len() ==> !is_separator(platform, #[trigger] name[i]),
    ensures
        directory_of(directory + name, platform) == directory,
{
    lemma_directory_length_of_file_in_directory(directory, name, platform);
    assert((directory + name).take(directory.len() as int) =~= directory);
}

/// The directory part of a directory followed by a file name is as long as
/// the directory.
proof fn lemma_directory_length_of_file_in_directory(directory: Seq<char>, name: Seq<char>, platform: Platform)
    requires
        directory.len() > 0 ==> is_separator(platform, directory.last()),
        forall|i: int| 0 <= i < name.len() ==> !is_separator(platform, #[trigger] name[i]),
    ensures
        directory_length(directory + name, platform) == directory.len(),
    decreases name.len(),
{
    let path = directory + name;
    if name.len() == 0 {
        assert(path =~= directory);
    } else {
        assert(path.last() == name.last());
        assert(path.drop_last() =~= directory + name.drop_last());
        lemma_directory_length_of_file_in_directory(directory, name.drop_last(), platform);
    }
}

} // verus!
