//! The command line of the terminal interface, as plain values.

use std::path::PathBuf;
use vstd::prelude::*;
use vstd::std_specs::convert::FromSpecImpl;

verus! {

/// The name of the log file where none is given.
pub const DEFAULT_LOGFILE_FILENAME: &'static str = "versions-tui.log";

/// What was given on the command line.
#[derive(Debug)]
pub struct Args {
    /// Subcommands, overwriting default action of starting the TUI
    pub action: Option<Action>,
    /// The music directory; the configured one where it is missing.
    pub music_directory: Option<PathBuf>,
    /// Not showing album cover. default is showing.
    pub hide_cover: bool,
    /// Disable cover support, even if compiled-in.
    pub disable_cover: bool,
    /// Not showing discord representation. default is showing.
    pub disable_discord: bool,
    /// Max depth(NUMBER) of folder, default is 4.
    pub max_depth: Option<u32>,
    /// Select the backend, default is `rusty`
    pub backend: Option<Backend>,
    pub log_options: LogOptions,
}

/// The playback backend that the command line asks for.
#[derive(Debug, Clone, Copy, PartialEq, Eq, Structural)]
pub enum Backend {
    Rusty,
    Mpv,
    GStreamer,
}

/// The playback backend as the configuration names it.
#[derive(Debug, Clone, Copy, PartialEq, Eq, Structural)]
pub enum ConfigBackend {
    Rusty,
    Mpv,
    Gstreamer,
}

impl ConfigBackend {
    /// The name of the backend as a sequence of characters.
    pub open spec fn name(self) -> Seq<char> {
        match self {
            ConfigBackend::Rusty => "rusty"@,
            ConfigBackend::Mpv => "mpv"@,
            ConfigBackend::Gstreamer => "gstreamer"@,
        }
    }

    #[must_use]
    pub fn as_str(self) -> (name: &'static str)
        ensures
            name@ == self.name(),
    {
        match self {
            ConfigBackend::Rusty => "rusty",
            ConfigBackend::Mpv => "mpv",
            ConfigBackend::Gstreamer => "gstreamer",
        }
    }
}

impl From<Backend> for ConfigBackend {
    fn from(value: Backend) -> (backend: Self) {
        match value {
            Backend::Rusty => ConfigBackend::Rusty,
            Backend::Mpv => ConfigBackend::Mpv,
            Backend::GStreamer => ConfigBackend::Gstreamer,
        }
    }
}

impl FromSpecImpl<Backend> for ConfigBackend {
    open spec fn obeys_from_spec() -> bool {
        true
    }

    open spec fn from_spec(value: Backend) -> Self {
        value.config_backend()
    }
}

impl Backend {
    /// The backend as the configuration names it.
    pub open spec fn config_backend(self) -> ConfigBackend {
        match self {
            Backend::Rusty => ConfigBackend::Rusty,
            Backend::Mpv => ConfigBackend::Mpv,
            Backend::GStreamer => ConfigBackend::Gstreamer,
        }
    }

    /// The name of the backend: the one that the configuration uses for it.
    #[must_use]
    pub fn as_str(self) -> (name: &'static str)
        ensures
            name@ == self.config_backend().name(),
    {
        ConfigBackend::from(self).as_str()
    }

    /// The name of the backend.
    pub fn to_string(&self) -> (name: String)
        ensures
            name@ == self.config_backend().name(),
    {
        self.as_str().to_owned()
    }
}

/// Subcommands for the binary
#[derive(Debug)]
pub enum Action {
    /// Write the podcast feeds to an opml file.
    Export { file: PathBuf },
    /// Read podcast feeds from an opml file.
    Import { file: PathBuf },
}

/// Where and how the program logs.
#[derive(Debug, Clone, PartialEq)]
pub struct LogOptions {
    /// Enable logging to a file, automatically enabled if a log file is given.
    pub log_to_file: bool,
    /// The log file.
    pub log_file: PathBuf,
    /// Use colored logging for files.
    pub file_color_log: bool,
}

} // verus!
