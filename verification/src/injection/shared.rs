use vstd::prelude::*;
use vstd::string::StringExecFns;

verus! {

/// Why loading or injecting a script failed, with a message for the log.
#[derive(Debug)]
pub enum InjectionError {
    ScriptLoadError(String),
    ScriptEvalError(String),
    ScriptInjectionError(String),
    UrlParseError(String),
    IoError(String),
}

/// The step at which loading a script or stylesheet failed.
#[derive(Debug, Clone, Copy, PartialEq, Eq, Structural)]
pub enum LoadFailure {
    /// The request for a link could not be made or answered.
    UrlFetch,
    /// The answer to a link's request could not be read as text.
    UrlRead,
    /// A local file could not be read.
    FileRead,
    /// The directory that holds the local scripts could not be found.
    NoScriptDir,
}

/// The message logged for a failed load: `subject` is the link, the file's path or the
/// script's name, `detail` what the failing call reported.
pub open spec fn load_error_message(failure: LoadFailure, subject: Seq<char>, detail: Seq<char>) -> Seq<char> {
    match failure {
        LoadFailure::UrlFetch => "Failed to fetch script from URL '"@ + subject + "': "@ + detail,
        LoadFailure::UrlRead => "Failed to read script from URL '"@ + subject + "': "@ + detail,
        LoadFailure::FileRead => "Failed to load script '"@ + subject + "': "@ + detail,
        LoadFailure::NoScriptDir => "Failed to determine executable directory for '"@ + subject + "'"@,
    }
}

/// Each failed step is named by its own fixed opening, followed by the subject; a
/// failed fetch, read or file load then gives what the failing call reported, after
/// `': `, and a missing scripts' directory closes the quote.
pub proof fn lemma_load_error_message_parts(failure: LoadFailure, subject: Seq<char>, detail: Seq<char>)
    ensures
        ({
            let message = load_error_message(failure, subject, detail);
            let opening = match failure {
                LoadFailure::UrlFetch => "Failed to fetch script from URL '"@,
                LoadFailure::UrlRead => "Failed to read script from URL '"@,
                LoadFailure::FileRead => "Failed to load script '"@,
                LoadFailure::NoScriptDir => "Failed to determine executable directory for '"@,
            };
            let closing = if failure == LoadFailure::NoScriptDir {
                "'"@
            } else {
                "': "@ + detail
            };
            &&& message.len() == opening.len() + subject.len() + closing.len()
            &&& message.subrange(0, opening.len() as int) == opening
            &&& message.subrange(opening.len() as int, (opening.len() + subject.len()) as int) == subject
            &&& message.subrange(message.len() - closing.len(), message.len() as int) == closing
        }),
{
    let message = load_error_message(failure, subject, detail);
    let opening = match failure {
        LoadFailure::UrlFetch => "Failed to fetch script from URL '"@,
        LoadFailure::UrlRead => "Failed to read script from URL '"@,
        LoadFailure::FileRead => "Failed to load script '"@,
        LoadFailure::NoScriptDir => "Failed to determine executable directory for '"@,
    };
    let closing = if failure == LoadFailure::NoScriptDir {
        "'"@
    } else {
        "': "@ + detail
    };
    assert(message =~= opening + subject + closing);
    assert(message.subrange(0, opening.len() as int) =~= opening);
    assert(message.subrange(opening.len() as int, (opening.len() + subject.len()) as int) =~= subject);
    assert(message.subrange(message.len() - closing.len(), message.len() as int) =~= closing);
}

/// The error reported when loading a script or stylesheet fails.
pub fn load_error(failure: LoadFailure, subject: &str, detail: &str) -> (error: InjectionError)
    ensures
        error matches InjectionError::ScriptLoadError(message)
            && message@ == load_error_message(failure, subject@, detail@),
{
    proof {
        lemma_load_error_message_parts(failure, subject@, detail@);
    }
    let mut message = match failure {
        LoadFailure::UrlFetch => String::from_str("Failed to fetch script from URL '"),
        LoadFailure::UrlRead => String::from_str("Failed to read script from URL '"),
        LoadFailure::FileRead => String::from_str("Failed to load script '"),
        LoadFailure::NoScriptDir => String::from_str("Failed to determine executable directory for '"),
    };
    message.append(subject);
    match failure {
        LoadFailure::NoScriptDir => {
            message.append("'");
        },
        _ => {
            message.append("': ");
            message.append(detail);
        },
    }
    InjectionError::ScriptLoadError(message)
}

/// How the running program was built and packaged, which decides where its scripts are.
#[derive(Debug, Clone, Copy, PartialEq, Eq, Structural)]
pub enum BuildLayout {
    /// A debug build, run from the project's directory.
    Debug,
    /// A release build inside a macOS application bundle.
    MacBundle,
    /// A release build on any other system.
    Release,
}

/// The directory that the scripts' directory is found from.
#[derive(Debug, Clone, Copy, PartialEq, Eq, Structural)]
pub enum ScriptBase {
    /// The current working directory.
    WorkingDir,
    /// The directory that holds the running executable.
    ExecutableDir,
}

/// Where the local scripts are: a directory, relative to a base, that holds them.
pub struct ScriptLocation {
    pub base: ScriptBase,
    pub dir: String,
}

/// The scripts' directory, relative to its base, for a build layout.
pub open spec fn script_dir(layout: BuildLayout) -> Seq<char> {
    match layout {
        BuildLayout::MacBundle => "../Resources/scripts"@,
        _ => "scripts"@,
    }
}

/// The base of the scripts' directory for a build layout.
pub open spec fn script_base(layout: BuildLayout) -> ScriptBase {
    match layout {
        BuildLayout::Debug => ScriptBase::WorkingDir,
        _ => ScriptBase::ExecutableDir,
    }
}

/// Only a debug build looks from the working directory; only a macOS bundle keeps its
/// scripts in `../Resources/scripts`, every other build in `scripts`.
pub proof fn lemma_scripts_found_by_layout(layout: BuildLayout)
    ensures
        (script_base(layout) == ScriptBase::WorkingDir) == (layout == BuildLayout::Debug),
        (script_base(layout) == ScriptBase::ExecutableDir) == (layout != BuildLayout::Debug),
        layout == BuildLayout::MacBundle ==> script_dir(layout) == "../Resources/scripts"@,
        layout != BuildLayout::MacBundle ==> script_dir(layout) == "scripts"@,
{
}

/// Where a build finds its scripts: a debug build in `scripts` under the working
/// directory; a release build in `../Resources/scripts` beside the executable inside a
/// macOS bundle, and in `scripts` beside it elsewhere.
pub fn script_location(layout: BuildLayout) -> (location: ScriptLocation)
    ensures
        location.base == script_base(layout),
        location.dir@ == script_dir(layout),
        (location.base == ScriptBase::WorkingDir) == (layout == BuildLayout::Debug),
        layout == BuildLayout::MacBundle ==> location.dir@ == "../Resources/scripts"@,
        layout != BuildLayout::MacBundle ==> location.dir@ == "scripts"@,
{
    proof {
        lemma_scripts_found_by_layout(layout);
    }
    match layout {
        BuildLayout::Debug => ScriptLocation {
            base: ScriptBase::WorkingDir,
            dir: String::from_str("scripts"),
        },
        BuildLayout::MacBundle => ScriptLocation {
            base: ScriptBase::ExecutableDir,
            dir: String::from_str("../Resources/scripts"),
        },
        BuildLayout::Release => ScriptLocation {
            base: ScriptBase::ExecutableDir,
            dir: String::from_str("scripts"),
        },
    }
}

} // verus!
