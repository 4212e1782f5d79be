//! How a directory is revealed in the file browser of the platform.

use vstd::prelude::*;

verus! {

/// The platform family the program was built for.
#[derive(Clone, Copy, Debug, PartialEq, Eq, Structural)]
pub enum Platform {
    MacOs,
    Windows,
    Linux,
    /// A platform with no known file browser command.
    Other,
}

/// A process to start and leave alone: a program and its one argument.
#[derive(Debug)]
pub struct Launch {
    pub program: String,
    pub argument: String,
}

/// The program that reveals a directory on a platform, where there is one.
pub open spec fn opener(platform: Platform) -> Option<Seq<char>> {
    match platform {
        Platform::MacOs => Some("open"@),
        Platform::Windows => Some("explorer"@),
        Platform::Linux => Some("xdg-open"@),
        Platform::Other => None,
    }
}

/// What revealing `path` on `platform` starts: nothing for the empty path
/// or on a platform without an opener, else the platform's opener with the
/// path as its argument.
pub open spec fn reveal_launch(platform: Platform, path: Seq<char>) -> Option<(Seq<char>, Seq<char>)> {
    if path.len() == 0 {
        None
    } else {
        match opener(platform) {
            Some(program) => Some((program, path)),
            None => None,
        }
    }
}

impl View for Launch {
    type V = (Seq<char>, Seq<char>);

    /// The program and the argument as text.
    open spec fn view(&self) -> (Seq<char>, Seq<char>) {
        (self.program@, self.argument@)
    }
}

/// The view of an optional launch.
pub open spec fn launch_of(launch: Option<Launch>) -> Option<(Seq<char>, Seq<char>)> {
    match launch {
        Some(l) => Some(l@),
        None => None,
    }
}

/// Decides what revealing a directory starts. Always succeeds: the caller
/// starts the process, if there is one, and disregards how it ends.
pub fn open_output(platform: Platform, path: String) -> (result: Result<Option<Launch>, String>)
    ensures
        result is Ok,
        launch_of(result->Ok_0) == reveal_launch(platform, path@),
{
    if path.as_str().is_empty() {
        return Ok(None);
    }
    let program: String = match platform {
        Platform::MacOs => "open".to_string(),
        Platform::Windows => "explorer".to_string(),
        Platform::Linux => "xdg-open".to_string(),
        Platform::Other => {
            return Ok(None);
        },
    };
    Ok(Some(Launch { program, argument: path }))
}

/// Revealing the empty path starts nothing, on every platform.
pub proof fn lemma_empty_path_starts_nothing(platform: Platform)
    ensures
        reveal_launch(platform, Seq::empty()) is None,
{
}

} // verus!
