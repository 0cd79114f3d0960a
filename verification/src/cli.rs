//! What the command line asks for.

use vstd::prelude::*;
use crate::messages::option_text;

verus! {

/// What is printed for a recognized track.
#[derive(Clone, Copy, Debug, PartialEq, Eq, Structural)]
pub enum CLIOutputType {
    /// Artist and title on one line.
    SongName,
    /// The service's answer as JSON.
    JSON,
    /// One record of the history format.
    CSV,
}

/// What the command line asked for.
#[derive(Clone, Debug)]
pub struct CLIParameters {
    pub enable_mpris: bool,
    pub list_devices: bool,
    pub recognize_once: bool,
    pub audio_device: Option<String>,
    pub request_interval: u64,
    pub input_file: Option<String>,
    pub output_type: CLIOutputType,
}

/// Mathematical value of a [`CLIParameters`].
pub struct CLIParametersView {
    pub enable_mpris: bool,
    pub list_devices: bool,
    pub recognize_once: bool,
    pub audio_device: Option<Seq<char>>,
    pub request_interval: u64,
    pub input_file: Option<Seq<char>>,
    pub output_type: CLIOutputType,
}

impl View for CLIParameters {
    type V = CLIParametersView;

    open spec fn view(&self) -> CLIParametersView {
        CLIParametersView {
            enable_mpris: self.enable_mpris,
            list_devices: self.list_devices,
            recognize_once: self.recognize_once,
            audio_device: option_text(self.audio_device),
            request_interval: self.request_interval,
            input_file: option_text(self.input_file),
            output_type: self.output_type,
        }
    }
}

impl CLIParametersView {
    /// The session recognizes the contents of a file instead of listening.
    pub open spec fn file_driven(self) -> bool {
        self.input_file is Some
    }

    /// The session ends with the first recognized track.
    pub open spec fn single_shot(self) -> bool {
        self.recognize_once || self.input_file is Some
    }
}

impl CLIOutputType {
    /// The output that the two format switches select: JSON wins over CSV,
    /// and without either the song name is printed.
    pub fn from_flags(json: bool, csv: bool) -> (output: CLIOutputType)
        ensures
            output == if json {
                CLIOutputType::JSON
            } else if csv {
                CLIOutputType::CSV
            } else {
                CLIOutputType::SongName
            },
    {
        if json {
            CLIOutputType::JSON
        } else if csv {
            CLIOutputType::CSV
        } else {
            CLIOutputType::SongName
        }
    }
}

impl CLIParameters {
    /// Whether the session recognizes the contents of a file.
    pub fn file_driven(&self) -> (file: bool)
        ensures
            file == self@.file_driven(),
    {
        self.input_file.is_some()
    }

    /// Whether the session ends with the first recognized track.
    pub fn single_shot(&self) -> (once: bool)
        ensures
            once == self@.single_shot(),
    {
        self.recognize_once || self.input_file.is_some()
    }

    /// Whether the media-control integration is to be started: it is never
    /// started for a session that recognizes one song only.
    pub fn mpris_wanted(&self) -> (wanted: bool)
        ensures
            wanted == (self.enable_mpris && !self@.single_shot()),
    {
        self.enable_mpris && !self.single_shot()
    }
}

/// The interval between two requests, in seconds, where the command line
/// names none.
pub const DEFAULT_REQUEST_INTERVAL: u64 = 10;

impl CLIParametersView {
    /// What `listen` asks for: recognize song after song from a device.
    pub open spec fn listen(
        list_devices: bool,
        audio_device: Option<Seq<char>>,
        request_interval: u64,
        disable_mpris: bool,
        output_type: CLIOutputType,
    ) -> CLIParametersView {
        CLIParametersView {
            enable_mpris: !disable_mpris,
            list_devices,
            recognize_once: false,
            audio_device,
            request_interval,
            input_file: None,
            output_type,
        }
    }

    /// What `recognize` asks for: recognize one song, from a file where one
    /// is named and from a device else.
    pub open spec fn recognize(
        list_devices: bool,
        audio_device: Option<Seq<char>>,
        request_interval: u64,
        input_file: Option<Seq<char>>,
        output_type: CLIOutputType,
    ) -> CLIParametersView {
        CLIParametersView {
            enable_mpris: false,
            list_devices,
            recognize_once: true,
            audio_device,
            request_interval,
            input_file,
            output_type,
        }
    }
}

impl CLIParameters {
    /// The parameters of `listen`. The output is chosen by the two format
    /// switches as [`CLIOutputType::from_flags`] says.
    pub fn listen(
        list_devices: bool,
        audio_device: Option<String>,
        request_interval: u64,
        disable_mpris: bool,
        json: bool,
        csv: bool,
    ) -> (parameters: Self)
        ensures
            parameters@ == CLIParametersView::listen(
                list_devices,
                option_text(audio_device),
                request_interval,
                disable_mpris,
                if json {
                    CLIOutputType::JSON
                } else if csv {
                    CLIOutputType::CSV
                } else {
                    CLIOutputType::SongName
                },
            ),
    {
        CLIParameters {
            enable_mpris: !disable_mpris,
            list_devices,
            recognize_once: false,
            audio_device,
            request_interval,
            input_file: None,
            output_type: CLIOutputType::from_flags(json, csv),
        }
    }

    /// The parameters of `recognize`. The output is chosen by the two
    /// format switches as [`CLIOutputType::from_flags`] says.
    pub fn recognize(
        list_devices: bool,
        audio_device: Option<String>,
        request_interval: u64,
        input_file: Option<String>,
        json: bool,
        csv: bool,
    ) -> (parameters: Self)
        ensures
            parameters@ == CLIParametersView::recognize(
                list_devices,
                option_text(audio_device),
                request_interval,
                option_text(input_file),
                if json {
                    CLIOutputType::JSON
                } else if csv {
                    CLIOutputType::CSV
                } else {
                    CLIOutputType::SongName
                },
            ),
    {
        CLIParameters {
            enable_mpris: false,
            list_devices,
            recognize_once: true,
            audio_device,
            request_interval,
            input_file,
            output_type: CLIOutputType::from_flags(json, csv),
        }
    }

    /// The parameters of `microphone-to-recognized-song`: one song from a
    /// device, put out as JSON.
    pub fn microphone_to_recognized_song(
        list_devices: bool,
        audio_device: Option<String>,
        request_interval: u64,
    ) -> (parameters: Self)
        ensures
            parameters@ == CLIParametersView::recognize(
                list_devices,
                option_text(audio_device),
                request_interval,
                None,
                CLIOutputType::JSON,
            ),
    {
        CLIParameters {
            enable_mpris: false,
            list_devices,
            recognize_once: true,
            audio_device,
            request_interval,
            input_file: None,
            output_type: CLIOutputType::JSON,
        }
    }

    /// The parameters used where the command line names no command: listen
    /// on the first device and print the song names.
    pub fn without_command() -> (parameters: Self)
        ensures
            parameters@ == CLIParametersView::listen(
                false,
                None,
                DEFAULT_REQUEST_INTERVAL,
                false,
                CLIOutputType::SongName,
            ),
    {
        CLIParameters {
            enable_mpris: true,
            list_devices: false,
            recognize_once: false,
            audio_device: None,
            request_interval: DEFAULT_REQUEST_INTERVAL,
            input_file: None,
            output_type: CLIOutputType::SongName,
        }
    }
}

/// How much is logged.
#[derive(Clone, Copy, Debug, PartialEq, Eq, Structural)]
pub enum LogLevel {
    Warn,
    Info,
    Debug,
    Trace,
}

/// How much is logged of the libraries and of the application itself.
#[derive(Clone, Copy, Debug, PartialEq, Eq, Structural)]
pub struct LogLevels {
    pub libraries: LogLevel,
    pub application: LogLevel,
}

/// The log levels for a command line with `verbose` verbosity switches:
/// each switch up to the third tells more.
pub fn log_levels(verbose: u8) -> (levels: LogLevels)
    ensures
        levels == if verbose == 0 {
            (LogLevels { libraries: LogLevel::Warn, application: LogLevel::Info })
        } else if verbose == 1 {
            (LogLevels { libraries: LogLevel::Warn, application: LogLevel::Debug })
        } else if verbose == 2 {
            (LogLevels { libraries: LogLevel::Info, application: LogLevel::Debug })
        } else {
            (LogLevels { libraries: LogLevel::Trace, application: LogLevel::Trace })
        },
{
    if verbose == 0 {
        LogLevels { libraries: LogLevel::Warn, application: LogLevel::Info }
    } else if verbose == 1 {
        LogLevels { libraries: LogLevel::Warn, application: LogLevel::Debug }
    } else if verbose == 2 {
        LogLevels { libraries: LogLevel::Info, application: LogLevel::Debug }
    } else {
        LogLevels { libraries: LogLevel::Trace, application: LogLevel::Trace }
    }
}

} // verus!
