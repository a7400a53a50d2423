//! The command surface as plain data.

use vstd::prelude::*;
use vstd::string::StringExecFns;

verus! {

/// A platform that mixes can be uploaded to.
#[derive(Clone, Copy, Debug, PartialEq, Eq, Structural)]
pub enum Platform {
    Mixcloud,
    Soundcloud,
}

impl Platform {
    /// The platform's name as it is shown to the user.
    pub open spec fn display_name(self) -> Seq<char> {
        match self {
            Platform::Mixcloud => "Mixcloud"@,
            Platform::Soundcloud => "SoundCloud"@,
        }
    }

    /// The platform's name as it is typed on the command line.
    pub open spec fn command_name(self) -> Seq<char> {
        match self {
            Platform::Mixcloud => "mixcloud"@,
            Platform::Soundcloud => "soundcloud"@,
        }
    }

    /// The platform's name as it is shown to the user.
    pub fn name(&self) -> (s: String)
        ensures
            s@ == self.display_name(),
    {
        match self {
            Platform::Mixcloud => String::from_str("Mixcloud"),
            Platform::Soundcloud => String::from_str("SoundCloud"),
        }
    }

    /// The platform's name as it is typed on the command line.
    pub fn command(&self) -> (s: String)
        ensures
            s@ == self.command_name(),
    {
        match self {
            Platform::Mixcloud => String::from_str("mixcloud"),
            Platform::Soundcloud => String::from_str("soundcloud"),
        }
    }
}

/// What the user asked the program to do.
pub enum Commands {
    /// Authorize with a platform.
    Auth { platform: Platform },
    /// Upload a mix to a platform.
    Upload {
        platform: Platform,
        file: String,
        title: String,
        description: Option<String>,
        image: Option<String>,
        tags: Option<String>,
        publish_date: Option<String>,
        generate_previews: bool,
    },
    /// Show the current authorization status.
    Status,
}

/// The parsed command line.
pub struct Cli {
    /// Launch the graphical interface instead of running a command.
    pub gui: bool,
    pub command: Option<Commands>,
}

} // verus!
