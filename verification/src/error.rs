//! The ways in which a command can fail.
use vstd::prelude::*;
use vstd::string::StringExecFns;

verus! {

/// Why a command did not produce a new configuration text.
#[derive(Debug)]
pub enum ConfigError {
    /// The command line named no program to debug.
    NoProgram,
    /// The primary editor's file already has a profile with this label.
    DuplicateLabel(String),
    /// The secondary editor's file already has a configuration with this name.
    DuplicateName(String),
    /// The existing file is not JSON of the expected shape; the text is the
    /// parser's message.
    Parse(String),
    /// The new configuration could not be written as JSON; the text is the
    /// serializer's message.
    Render(String),
}

/// The message that a failure shows to the user.
pub open spec fn message_of(e: ConfigError) -> Seq<char> {
    match e {
        ConfigError::NoProgram => "no program specified"@,
        ConfigError::DuplicateLabel(key) => "profile with label '"@ + key@
            + "' already exists"@,
        ConfigError::DuplicateName(key) => "configuration with name '"@ + key@
            + "' already exists"@,
        ConfigError::Parse(text) => text@,
        ConfigError::Render(text) => text@,
    }
}

impl ConfigError {
    /// The message that this failure shows to the user.
    pub fn message(&self) -> (text: String)
        ensures
            text@ == message_of(*self),
    {
        match self {
            ConfigError::NoProgram => "no program specified".to_owned(),
            ConfigError::DuplicateLabel(key) => {
                let head: String = "profile with label '".to_owned();
                head.concat(key.as_str()).concat("' already exists")
            },
            ConfigError::DuplicateName(key) => {
                let head: String = "configuration with name '".to_owned();
                head.concat(key.as_str()).concat("' already exists")
            },
            ConfigError::Parse(text) => text.clone(),
            ConfigError::Render(text) => text.clone(),
        }
    }
}

} // verus!
