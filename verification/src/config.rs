//! The configuration, and how it is loaded.
use vstd::prelude::*;

verus! {

/// The configuration of the viewer.
pub struct Config {
    pub photo_directory: String,
    /// Number of seconds of inactivity before auto power-off. Zero disables
    /// auto power-off.
    pub power_off_after_secs: u64,
}

impl Config {
    /// A configuration as it is written in the configuration file, where the
    /// number of seconds may be left out.
    pub fn from_file(photo_directory: String, power_off_after_secs: Option<u64>) -> (config: Self)
        ensures
            config.photo_directory@ == photo_directory@,
            config.power_off_after_secs == (match power_off_after_secs {
                Some(secs) => secs,
                None => 0,
            }),
    {
        let secs: u64 = match power_off_after_secs {
            Some(secs) => secs,
            None => 0,
        };
        Config { photo_directory, power_off_after_secs: secs }
    }
}

/// What was found out on the way to the configuration.
pub enum LoadEvent {
    /// The configuration file was looked for.
    Looked(bool),
    /// It was read: its contents, or why it could not be.
    WasRead(Result<String, String>),
    /// Its contents were parsed: the configuration, or why there is none.
    Parsed(Result<Config, String>),
}

/// What to do next on the way to the configuration.
pub enum LoadAction {
    /// Read the configuration file.
    Read,
    /// Parse its contents.
    Parse(String),
    /// Start with this configuration.
    Start(Config),
    /// Give up with this message.
    GiveUp(String),
}

/// The message about a missing configuration file.
pub open spec fn missing_message(path: Seq<char>) -> Seq<char> {
    "Config file not found: "@ + path + "\n  Create it or omit --config to use defaults."@
}

/// The message about a configuration file that cannot be read.
pub open spec fn unreadable_message(path: Seq<char>, reason: Seq<char>) -> Seq<char> {
    "Failed to read config file "@ + path + ": "@ + reason
}

/// The message about a configuration file that cannot be parsed.
pub open spec fn malformed_message(path: Seq<char>, reason: Seq<char>) -> Seq<char> {
    "Failed to parse config file "@ + path + ": "@ + reason
}

/// The action that follows an event, for the configuration file at `path`.
pub open spec fn load_follows(path: Seq<char>, event: LoadEvent, action: LoadAction) -> bool {
    match event {
        LoadEvent::Looked(exists) => if exists {
            action is Read
        } else {
            action matches LoadAction::GiveUp(message) && message@ == missing_message(path)
        },
        LoadEvent::WasRead(outcome) => match outcome {
            Ok(contents) => action == LoadAction::Parse(contents),
            Err(reason) => action matches LoadAction::GiveUp(message) && message@
                == unreadable_message(path, reason@),
        },
        LoadEvent::Parsed(outcome) => match outcome {
            Ok(config) => action == LoadAction::Start(config),
            Err(reason) => action matches LoadAction::GiveUp(message) && message@
                == malformed_message(path, reason@),
        },
    }
}

/// The message that a configuration cannot be had with tells the path whole, and
/// the reason, where there is one.
pub proof fn law_load_failures_tell_all(path: Seq<char>, reason: Seq<char>)
    ensures
        ({
            let n = path.len() as int;
            let missing = missing_message(path);
            let unreadable = unreadable_message(path, reason);
            let malformed = malformed_message(path, reason);
            &&& missing.take(23) == "Config file not found: "@
            &&& missing.subrange(23, 23 + n) == path
            &&& missing.skip(23 + n) == "\n  Create it or omit --config to use defaults."@
            &&& unreadable.take(27) == "Failed to read config file "@
            &&& unreadable.subrange(27, 27 + n) == path
            &&& unreadable.subrange(27 + n, 29 + n) == ": "@
            &&& unreadable.skip(29 + n) == reason
            &&& malformed.take(28) == "Failed to parse config file "@
            &&& malformed.subrange(28, 28 + n) == path
            &&& malformed.subrange(28 + n, 30 + n) == ": "@
            &&& malformed.skip(30 + n) == reason
        }),
{
    reveal_strlit("Config file not found: ");
    reveal_strlit("\n  Create it or omit --config to use defaults.");
    reveal_strlit("Failed to read config file ");
    reveal_strlit("Failed to parse config file ");
    reveal_strlit(": ");
}

/// Decides how loading the configuration file at `path` goes on.
pub fn load_config(path: &str, event: LoadEvent) -> (action: LoadAction)
    ensures
        load_follows(path@, event, action),
        action matches LoadAction::GiveUp(message) ==> match event {
            LoadEvent::Looked(exists) => !exists && message@ == missing_message(path@),
            LoadEvent::WasRead(outcome) => outcome is Err && message@ == unreadable_message(
                path@,
                outcome->Err_0@,
            ),
            LoadEvent::Parsed(outcome) => outcome is Err && message@ == malformed_message(
                path@,
                outcome->Err_0@,
            ),
        },
{
    match event {
        LoadEvent::Looked(exists) => {
            if exists {
                LoadAction::Read
            } else {
                let mut message = "Config file not found: ".to_owned();
                message.append(path);
                message.append("\n  Create it or omit --config to use defaults.");
                LoadAction::GiveUp(message)
            }
        },
        LoadEvent::WasRead(outcome) => match outcome {
            Ok(contents) => LoadAction::Parse(contents),
            Err(reason) => {
                let mut message = "Failed to read config file ".to_owned();
                message.append(path);
                message.append(": ");
                message.append(reason.as_str());
                LoadAction::GiveUp(message)
            },
        },
        LoadEvent::Parsed(outcome) => match outcome {
            Ok(config) => LoadAction::Start(config),
            Err(reason) => {
                let mut message = "Failed to parse config file ".to_owned();
                message.append(path);
                message.append(": ");
                message.append(reason.as_str());
                LoadAction::GiveUp(message)
            },
        },
    }
}

/// The program starts with the configuration that was parsed out of the file's
/// contents, and only if the file was there, could be read and could be parsed.
pub proof fn law_start_needs_a_sound_file(
    path: Seq<char>,
    exists: bool,
    contents: Result<String, String>,
    parsed: Result<Config, String>,
    looked: LoadAction,
    was_read: LoadAction,
    done: LoadAction,
)
    requires
        load_follows(path, LoadEvent::Looked(exists), looked),
        load_follows(path, LoadEvent::WasRead(contents), was_read),
        load_follows(path, LoadEvent::Parsed(parsed), done),
    ensures
        looked is Read <==> exists,
        !(looked is Read) ==> looked is GiveUp,
        was_read is Parse <==> contents is Ok,
        was_read matches LoadAction::Parse(text) ==> contents == Ok::<String, String>(text),
        !(was_read is Parse) ==> was_read is GiveUp,
        done is Start <==> parsed is Ok,
        done matches LoadAction::Start(config) ==> parsed == Ok::<Config, String>(config),
        !(done is Start) ==> done is GiveUp,
{
}

} // verus!
