//! The messages that travel between the contexts of a session.

use vstd::prelude::*;

verus! {

/// Characters of an optional string.
pub open spec fn option_text(value: Option<String>) -> Option<Seq<char>> {
    match value {
        Some(text) => Some(text@),
        None => None,
    }
}

/// One capture device as offered to the user.
#[derive(Clone, Debug)]
pub struct DeviceListItem {
    /// Identifier by which the backend knows the device.
    pub inner_name: String,
    /// Label shown to the user.
    pub display_name: String,
    /// Whether the device mirrors the output of another device.
    pub is_monitor: bool,
}

/// Mathematical value of a [`DeviceListItem`].
pub struct DeviceListItemView {
    pub inner_name: Seq<char>,
    pub display_name: Seq<char>,
    pub is_monitor: bool,
}

impl View for DeviceListItem {
    type V = DeviceListItemView;

    open spec fn view(&self) -> DeviceListItemView {
        DeviceListItemView {
            inner_name: self.inner_name@,
            display_name: self.display_name@,
            is_monitor: self.is_monitor,
        }
    }
}

/// Values of a sequence of devices, in the same order.
pub open spec fn device_views(devices: Seq<DeviceListItem>) -> Seq<DeviceListItemView> {
    devices.map_values(|device: DeviceListItem| device@)
}

/// A recognized track, as delivered to every presentation surface.
#[derive(Clone, Debug)]
pub struct SongRecognizedMessage {
    pub artist_name: String,
    pub album_name: Option<String>,
    pub song_name: String,
    /// Stable identity of the track; two recognitions of the same song carry
    /// the same key.
    pub track_key: String,
    pub release_year: Option<String>,
    pub genre: Option<String>,
    /// The service's answer, as JSON text.
    pub shazam_json: String,
}

/// Mathematical value of a [`SongRecognizedMessage`].
pub struct SongRecognizedMessageView {
    pub artist_name: Seq<char>,
    pub album_name: Option<Seq<char>>,
    pub song_name: Seq<char>,
    pub track_key: Seq<char>,
    pub release_year: Option<Seq<char>>,
    pub genre: Option<Seq<char>>,
    pub shazam_json: Seq<char>,
}

impl View for SongRecognizedMessage {
    type V = SongRecognizedMessageView;

    open spec fn view(&self) -> SongRecognizedMessageView {
        SongRecognizedMessageView {
            artist_name: self.artist_name@,
            album_name: option_text(self.album_name),
            song_name: self.song_name@,
            track_key: self.track_key@,
            release_year: option_text(self.release_year),
            genre: option_text(self.genre),
            shazam_json: self.shazam_json@,
        }
    }
}

/// Events for the presentation surfaces, in the order in which they were
/// produced.
#[derive(Clone, Debug)]
pub enum GUIMessage {
    /// The capture devices that can be chosen.
    DevicesList(Vec<DeviceListItem>),
    /// Whether the recognition service could be reached.
    NetworkStatus(bool),
    /// Something went wrong; the text is meant for the user.
    ErrorMessage(String),
    /// Capture has started.
    MicrophoneRecording,
    /// A track was identified.
    SongRecognized(SongRecognizedMessage),
    /// The main window should be shown.
    ShowWindow,
    /// The application should end.
    QuitApplication,
}

/// Mathematical value of a [`GUIMessage`].
pub enum GUIMessageView {
    DevicesList(Seq<DeviceListItemView>),
    NetworkStatus(bool),
    ErrorMessage(Seq<char>),
    MicrophoneRecording,
    SongRecognized(SongRecognizedMessageView),
    ShowWindow,
    QuitApplication,
}

impl View for GUIMessage {
    type V = GUIMessageView;

    open spec fn view(&self) -> GUIMessageView {
        match self {
            GUIMessage::DevicesList(devices) => GUIMessageView::DevicesList(device_views(devices@)),
            GUIMessage::NetworkStatus(reachable) => GUIMessageView::NetworkStatus(*reachable),
            GUIMessage::ErrorMessage(text) => GUIMessageView::ErrorMessage(text@),
            GUIMessage::MicrophoneRecording => GUIMessageView::MicrophoneRecording,
            GUIMessage::SongRecognized(track) => GUIMessageView::SongRecognized(track@),
            GUIMessage::ShowWindow => GUIMessageView::ShowWindow,
            GUIMessage::QuitApplication => GUIMessageView::QuitApplication,
        }
    }
}

/// Commands for the capture context.
#[derive(Clone, Debug)]
pub enum MicrophoneMessage {
    /// Start capturing from the device with this identifier; if a device is
    /// already bound, switch to this one.
    MicrophoneRecordStart(String),
    /// Stop capturing.
    MicrophoneRecordStop,
    /// The buffer that was handed out last has been dealt with.
    ProcessingDone,
}

/// Mathematical value of a [`MicrophoneMessage`].
pub enum MicrophoneMessageView {
    MicrophoneRecordStart(Seq<char>),
    MicrophoneRecordStop,
    ProcessingDone,
}

impl View for MicrophoneMessage {
    type V = MicrophoneMessageView;

    open spec fn view(&self) -> MicrophoneMessageView {
        match self {
            MicrophoneMessage::MicrophoneRecordStart(device) => {
                MicrophoneMessageView::MicrophoneRecordStart(device@)
            },
            MicrophoneMessage::MicrophoneRecordStop => MicrophoneMessageView::MicrophoneRecordStop,
            MicrophoneMessage::ProcessingDone => MicrophoneMessageView::ProcessingDone,
        }
    }
}

/// Work for the fingerprinting context.
#[derive(Clone, Debug)]
pub enum ProcessingMessage {
    /// Fingerprint the audio file at this path.
    ProcessAudioFile(String),
    /// Fingerprint these samples.
    ProcessAudioSamples(Vec<i16>),
}

/// Mathematical value of a [`ProcessingMessage`].
pub enum ProcessingMessageView {
    ProcessAudioFile(Seq<char>),
    ProcessAudioSamples(Seq<i16>),
}

impl View for ProcessingMessage {
    type V = ProcessingMessageView;

    open spec fn view(&self) -> ProcessingMessageView {
        match self {
            ProcessingMessage::ProcessAudioFile(path) => ProcessingMessageView::ProcessAudioFile(
                path@,
            ),
            ProcessingMessage::ProcessAudioSamples(samples) => {
                ProcessingMessageView::ProcessAudioSamples(samples@)
            },
        }
    }
}

/// Work for the network context: a fingerprint to be recognized, with what
/// is known of the audio it was made of. The fingerprint itself is opaque
/// here.
#[derive(Clone, Debug)]
pub struct RecognitionInput {
    /// The fingerprint as a data URI.
    pub uri: String,
    /// Samples a second of the audio.
    pub sample_rate_hz: u32,
    /// Number of samples of the audio.
    pub number_samples: u32,
}

/// Mathematical value of a [`RecognitionInput`].
pub struct RecognitionInputView {
    pub uri: Seq<char>,
    pub sample_rate_hz: u32,
    pub number_samples: u32,
}

impl View for RecognitionInput {
    type V = RecognitionInputView;

    open spec fn view(&self) -> RecognitionInputView {
        RecognitionInputView {
            uri: self.uri@,
            sample_rate_hz: self.sample_rate_hz,
            number_samples: self.number_samples,
        }
    }
}

} // verus!
