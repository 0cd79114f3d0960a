//! The command-line session: a state machine that takes the presentation
//! events one by one and says what is to be done for each.

use vstd::prelude::*;
use crate::cli::{CLIOutputType, CLIParameters, CLIParametersView};
use crate::preferences::{Preferences, PreferencesInterface, PreferencesView};
use crate::messages::{
    DeviceListItem, DeviceListItemView, GUIMessage, GUIMessageView, MicrophoneMessage,
    MicrophoneMessageView, ProcessingMessage, ProcessingMessageView, SongRecognizedMessage,
    SongRecognizedMessageView, device_views, option_text,
};

verus! {

/// Where a command-line session stands.
#[derive(Clone, Copy, Debug, PartialEq, Eq, Structural)]
pub enum SessionPhase {
    /// Created, not started yet.
    Idle,
    /// Waiting for the capture context to report the devices.
    AwaitingDevices,
    /// Capturing; recognized tracks arrive as they are found.
    Recording,
    /// The input file has been handed to the fingerprinting context.
    Fingerprinting,
    /// Ended; nothing more is done.
    Terminated,
}

/// Something the user is told.
#[derive(Clone, Debug)]
pub enum Notice {
    /// A device that could be chosen.
    AvailableDevice { inner_name: String, display_name: String },
    /// The device that capture starts on.
    UsingDevice(String),
    /// The device asked for is not among those offered; the session ends.
    DeviceNotFound,
    /// No device is offered at all; the session ends.
    NoDevices,
    /// The recognition service cannot be reached; `fatal` if the session
    /// ends for it.
    NetworkUnreachable { fatal: bool },
    /// An error reported by another context.
    Error(String),
    /// Capture has started.
    RecordingStarted,
}

/// Mathematical value of a [`Notice`].
pub enum NoticeView {
    AvailableDevice { inner_name: Seq<char>, display_name: Seq<char> },
    UsingDevice(Seq<char>),
    DeviceNotFound,
    NoDevices,
    NetworkUnreachable { fatal: bool },
    Error(Seq<char>),
    RecordingStarted,
}

impl View for Notice {
    type V = NoticeView;

    open spec fn view(&self) -> NoticeView {
        match self {
            Notice::AvailableDevice { inner_name, display_name } => NoticeView::AvailableDevice {
                inner_name: inner_name@,
                display_name: display_name@,
            },
            Notice::UsingDevice(name) => NoticeView::UsingDevice(name@),
            Notice::DeviceNotFound => NoticeView::DeviceNotFound,
            Notice::NoDevices => NoticeView::NoDevices,
            Notice::NetworkUnreachable { fatal } => NoticeView::NetworkUnreachable {
                fatal: *fatal,
            },
            Notice::Error(text) => NoticeView::Error(text@),
            Notice::RecordingStarted => NoticeView::RecordingStarted,
        }
    }
}

/// What the caller is to do after the session has taken an event, in order.
#[derive(Clone, Debug)]
pub enum CliAction {
    /// Tell the user.
    Report(Notice),
    /// Send to the capture context.
    SendMicrophone(MicrophoneMessage),
    /// Send to the fingerprinting context.
    SendProcessing(ProcessingMessage),
    /// Print the line on standard output.
    PrintLine(String),
    /// Write the track as one record of the history format.
    ExportCsv(SongRecognizedMessage),
    /// Close the channels and leave the event loop.
    Quit,
}

/// Mathematical value of a [`CliAction`].
pub enum CliActionView {
    Report(NoticeView),
    SendMicrophone(MicrophoneMessageView),
    SendProcessing(ProcessingMessageView),
    PrintLine(Seq<char>),
    ExportCsv(SongRecognizedMessageView),
    Quit,
}

impl View for CliAction {
    type V = CliActionView;

    open spec fn view(&self) -> CliActionView {
        match self {
            CliAction::Report(notice) => CliActionView::Report(notice@),
            CliAction::SendMicrophone(message) => CliActionView::SendMicrophone(message@),
            CliAction::SendProcessing(message) => CliActionView::SendProcessing(message@),
            CliAction::PrintLine(line) => CliActionView::PrintLine(line@),
            CliAction::ExportCsv(track) => CliActionView::ExportCsv(track@),
            CliAction::Quit => CliActionView::Quit,
        }
    }
}

/// Values of a sequence of actions, in the same order.
pub open spec fn action_views(actions: Seq<CliAction>) -> Seq<CliActionView> {
    actions.map_values(|action: CliAction| action@)
}

/// Why a session cannot start capturing.
#[derive(Clone, Copy, Debug, PartialEq, Eq, Structural)]
pub enum StartupError {
    /// The device asked for is not offered.
    DeviceNotFound,
    /// No device is offered.
    NoDevices,
}

/// `name` is the identifier or the label of `device`.
pub open spec fn device_answers_to(device: DeviceListItemView, name: Seq<char>) -> bool {
    device.inner_name == name || device.display_name == name
}

/// `name` is the identifier or the label of one of `devices`.
pub open spec fn device_known(devices: Seq<DeviceListItemView>, name: Seq<char>) -> bool {
    exists|i: int| 0 <= i < devices.len() && #[trigger] device_answers_to(devices[i], name)
}

/// The device to capture from: the one asked for, as it was written, if it
/// is offered under that identifier or label; without a wish, the first one
/// offered.
pub open spec fn chosen_device(
    devices: Seq<DeviceListItemView>,
    wanted: Option<Seq<char>>,
) -> Result<Seq<char>, StartupError> {
    match wanted {
        Some(name) => if device_known(devices, name) {
            Ok(name)
        } else {
            Err(StartupError::DeviceNotFound)
        },
        None => if devices.len() == 0 {
            Err(StartupError::NoDevices)
        } else {
            Ok(devices[0].inner_name)
        },
    }
}

/// Whether `name` is the identifier or the label of one of `devices`.
pub fn is_known_device(devices: &Vec<DeviceListItem>, name: &String) -> (known: bool)
    ensures
        known == device_known(device_views(devices@), name@),
{
    let mut i: usize = 0;
    while i < devices.len()
        invariant
            i <= devices.len(),
            forall|j: int|
                0 <= j < i ==> !#[trigger] device_answers_to(device_views(devices@)[j], name@),
        decreases devices.len() - i,
    {
        if devices[i].inner_name == *name || devices[i].display_name == *name {
            assert(device_answers_to(device_views(devices@)[i as int], name@));
            return true;
        }
        i += 1;
    }
    false
}

/// Chooses the device to capture from among those offered.
///
/// A device that was asked for must be offered, under its identifier or its
/// label, and is then used as it was written. Without a wish the first
/// device offered is taken, so the list must not be empty.
pub fn select_device(devices: &Vec<DeviceListItem>, wanted: &Option<String>) -> (choice: Result<
    String,
    StartupError,
>)
    ensures
        match chosen_device(device_views(devices@), option_text(*wanted)) {
            Ok(name) => choice matches Ok(found) && found@ == name,
            Err(error) => choice == Err::<String, StartupError>(error),
        },
{
    match wanted {
        Some(name) => {
            if is_known_device(devices, name) {
                Ok(name.clone())
            } else {
                Err(StartupError::DeviceNotFound)
            }
        },
        None => {
            if devices.len() == 0 {
                Err(StartupError::NoDevices)
            } else {
                Ok(devices[0].inner_name.clone())
            }
        },
    }
}

/// A command-line session: the consumer of the presentation events.
///
/// The session takes one event at a time and answers with what is to be
/// done for it. It remembers the track it delivered last, so that the same
/// track is not delivered twice in a row where duplicates are suppressed.
#[derive(Clone, Debug)]
pub struct CliSession {
    pub parameters: CLIParameters,
    /// Whether a track equal to the one delivered last is swallowed.
    pub no_duplicates: bool,
    /// The text by which the other contexts report that nothing matched.
    pub no_match_text: String,
    /// Key of the track that was delivered last.
    pub last_track: Option<String>,
    pub phase: SessionPhase,
}

/// Mathematical value of a [`CliSession`].
pub struct CliSessionView {
    pub parameters: CLIParametersView,
    pub no_duplicates: bool,
    pub no_match_text: Seq<char>,
    pub last_track: Option<Seq<char>>,
    pub phase: SessionPhase,
}

impl View for CliSession {
    type V = CliSessionView;

    open spec fn view(&self) -> CliSessionView {
        CliSessionView {
            parameters: self.parameters@,
            no_duplicates: self.no_duplicates,
            no_match_text: self.no_match_text@,
            last_track: option_text(self.last_track),
            phase: self.phase,
        }
    }
}

/// A session after one step, with what is to be done for the step.
pub struct CliStep {
    pub session: CliSessionView,
    pub actions: Seq<CliActionView>,
}

/// The characters between artist and title.
pub open spec fn title_separator() -> Seq<char> {
    seq![' ', '-', ' ']
}

/// The line that names a track: artist, separator, title.
pub open spec fn track_title(track: SongRecognizedMessageView) -> Seq<char> {
    track.artist_name + title_separator() + track.song_name
}

/// What is put out for a track in the given format.
pub open spec fn track_output(output: CLIOutputType, track: SongRecognizedMessageView)
    -> CliActionView {
    match output {
        CLIOutputType::JSON => CliActionView::PrintLine(track.shazam_json),
        CLIOutputType::CSV => CliActionView::ExportCsv(track),
        CLIOutputType::SongName => CliActionView::PrintLine(track_title(track)),
    }
}

/// One notice per device, in the order of the list.
pub open spec fn device_notices(devices: Seq<DeviceListItemView>) -> Seq<CliActionView> {
    devices.map_values(
        |device: DeviceListItemView|
            CliActionView::Report(
                NoticeView::AvailableDevice {
                    inner_name: device.inner_name,
                    display_name: device.display_name,
                },
            ),
    )
}

/// The notice that goes with a failure to start.
pub open spec fn startup_notice(error: StartupError) -> NoticeView {
    match error {
        StartupError::DeviceNotFound => NoticeView::DeviceNotFound,
        StartupError::NoDevices => NoticeView::NoDevices,
    }
}

impl CliSessionView {
    /// The session of `parameters` before it is started.
    pub open spec fn initial(
        parameters: CLIParametersView,
        no_duplicates: bool,
        no_match_text: Seq<char>,
    ) -> CliSessionView {
        CliSessionView {
            parameters,
            no_duplicates,
            no_match_text,
            last_track: None,
            phase: SessionPhase::Idle,
        }
    }

    /// The session takes part in what happens: it was started and has not
    /// ended.
    pub open spec fn live(self) -> bool {
        self.phase != SessionPhase::Idle && self.phase != SessionPhase::Terminated
    }

    /// The same session in another phase.
    pub open spec fn in_phase(self, phase: SessionPhase) -> CliSessionView {
        CliSessionView { phase, ..self }
    }

    /// The same session, ended.
    pub open spec fn ended(self) -> CliSessionView {
        self.in_phase(SessionPhase::Terminated)
    }

    /// Nothing happens.
    pub open spec fn unmoved(self) -> CliStep {
        CliStep { session: self, actions: Seq::empty() }
    }

    /// Starting: a file-driven session hands its file to the fingerprinting
    /// context, any other waits for the devices to be reported. Only an
    /// idle session can be started.
    pub open spec fn start(self) -> CliStep {
        if self.phase != SessionPhase::Idle {
            self.unmoved()
        } else {
            match self.parameters.input_file {
                Some(path) => CliStep {
                    session: self.in_phase(SessionPhase::Fingerprinting),
                    actions: seq![
                        CliActionView::SendProcessing(ProcessingMessageView::ProcessAudioFile(path)),
                    ],
                },
                None => CliStep {
                    session: self.in_phase(SessionPhase::AwaitingDevices),
                    actions: Seq::empty(),
                },
            }
        }
    }

    /// The devices were reported. A file-driven session has no use for
    /// them. Otherwise each is announced; then the session ends if it was
    /// only to list them, or if no device can be chosen, and else starts
    /// capture on the chosen one.
    pub open spec fn on_devices(self, devices: Seq<DeviceListItemView>) -> CliStep {
        if self.parameters.file_driven() {
            self.unmoved()
        } else if self.parameters.list_devices {
            CliStep {
                session: self.ended(),
                actions: device_notices(devices).push(CliActionView::Quit),
            }
        } else {
            match chosen_device(devices, self.parameters.audio_device) {
                Ok(name) => CliStep {
                    session: self.in_phase(SessionPhase::Recording),
                    actions: device_notices(devices).push(
                        CliActionView::Report(NoticeView::UsingDevice(name)),
                    ).push(
                        CliActionView::SendMicrophone(
                            MicrophoneMessageView::MicrophoneRecordStart(name),
                        ),
                    ),
                },
                Err(error) => CliStep {
                    session: self.ended(),
                    actions: device_notices(devices).push(
                        CliActionView::Report(startup_notice(error)),
                    ).push(CliActionView::Quit),
                },
            }
        }
    }

    /// The reachability of the service was reported. That it can be reached
    /// needs no answer. That it cannot ends a file-driven session; any other
    /// goes on and warns.
    pub open spec fn on_network_status(self, reachable: bool) -> CliStep {
        if reachable {
            self.unmoved()
        } else if self.parameters.file_driven() {
            CliStep {
                session: self.ended(),
                actions: seq![
                    CliActionView::Report(NoticeView::NetworkUnreachable { fatal: true }),
                    CliActionView::Quit,
                ],
            }
        } else {
            CliStep {
                session: self,
                actions: seq![
                    CliActionView::Report(NoticeView::NetworkUnreachable { fatal: false }),
                ],
            }
        }
    }

    /// An error is passed over in silence: that nothing matched, in a
    /// session that listens on. A session that recognizes one song, from a
    /// file or from a device, tells it.
    pub open spec fn error_is_silent(self, text: Seq<char>) -> bool {
        text == self.no_match_text && !self.parameters.single_shot()
    }

    /// An error was reported. It is passed on to the user unless it is
    /// silent. A file-driven session ends with it; any other goes on, also
    /// one that recognizes one song from a device.
    pub open spec fn on_error(self, text: Seq<char>) -> CliStep {
        let told = if self.error_is_silent(text) {
            Seq::<CliActionView>::empty()
        } else {
            seq![CliActionView::Report(NoticeView::Error(text))]
        };
        if self.parameters.file_driven() {
            CliStep { session: self.ended(), actions: told.push(CliActionView::Quit) }
        } else {
            CliStep { session: self, actions: told }
        }
    }

    /// Capture has started: a session that listens on says so.
    pub open spec fn on_recording(self) -> CliStep {
        if self.parameters.single_shot() {
            self.unmoved()
        } else {
            CliStep {
                session: self,
                actions: seq![CliActionView::Report(NoticeView::RecordingStarted)],
            }
        }
    }

    /// The track is swallowed: duplicates are suppressed and its key is that
    /// of the track delivered last.
    pub open spec fn is_duplicate(self, track: SongRecognizedMessageView) -> bool {
        self.no_duplicates && self.last_track == Some(track.track_key)
    }

    /// A track was recognized. Unless it is swallowed it is put out in the
    /// session's format; either way it is now the track delivered last, and
    /// a session that recognizes one song ends.
    pub open spec fn on_recognized(self, track: SongRecognizedMessageView) -> CliStep {
        let put_out = if self.is_duplicate(track) {
            Seq::<CliActionView>::empty()
        } else {
            seq![track_output(self.parameters.output_type, track)]
        };
        let after = CliSessionView { last_track: Some(track.track_key), ..self };
        if self.parameters.single_shot() {
            CliStep { session: after.ended(), actions: put_out.push(CliActionView::Quit) }
        } else {
            CliStep { session: after, actions: put_out }
        }
    }

    /// The application is to end.
    pub open spec fn on_quit(self) -> CliStep {
        CliStep { session: self.ended(), actions: seq![CliActionView::Quit] }
    }

    /// One step of the session: what it becomes, and what is to be done,
    /// when `message` arrives. A session that is idle or has ended takes no
    /// part; a request to show a window means nothing on the command line.
    pub open spec fn step(self, message: GUIMessageView) -> CliStep {
        if !self.live() {
            self.unmoved()
        } else {
            match message {
                GUIMessageView::DevicesList(devices) => self.on_devices(devices),
                GUIMessageView::NetworkStatus(reachable) => self.on_network_status(reachable),
                GUIMessageView::ErrorMessage(text) => self.on_error(text),
                GUIMessageView::MicrophoneRecording => self.on_recording(),
                GUIMessageView::SongRecognized(track) => self.on_recognized(track),
                GUIMessageView::ShowWindow => self.unmoved(),
                GUIMessageView::QuitApplication => self.on_quit(),
            }
        }
    }
}

/// The line that names a track: artist, " - ", title.
pub fn title_line(track: &SongRecognizedMessage) -> (line: String)
    ensures
        line@ == track_title(track@),
{
    let mut line = track.artist_name.clone();
    proof {
        reveal_strlit(" - ");
    }
    line.append(" - ");
    line.append(track.song_name.as_str());
    assert(line@ =~= track_title(track@));
    line
}

/// What is put out for `track` in the format `output`.
pub fn output_action(output: CLIOutputType, track: SongRecognizedMessage) -> (action: CliAction)
    ensures
        action@ == track_output(output, track@),
{
    match output {
        CLIOutputType::JSON => CliAction::PrintLine(track.shazam_json),
        CLIOutputType::CSV => CliAction::ExportCsv(track),
        CLIOutputType::SongName => CliAction::PrintLine(title_line(&track)),
    }
}

/// One notice per device, in the order of the list.
fn announce_devices(devices: &Vec<DeviceListItem>) -> (actions: Vec<CliAction>)
    ensures
        action_views(actions@) == device_notices(device_views(devices@)),
{
    let mut actions: Vec<CliAction> = Vec::new();
    let mut i: usize = 0;
    while i < devices.len()
        invariant
            i <= devices.len(),
            actions.len() == i,
            action_views(actions@) == device_notices(device_views(devices@).take(i as int)),
        decreases devices.len() - i,
    {
        let notice = Notice::AvailableDevice {
            inner_name: devices[i].inner_name.clone(),
            display_name: devices[i].display_name.clone(),
        };
        let ghost before = actions@;
        actions.push(CliAction::Report(notice));
        proof {
            let offered = device_views(devices@);
            let wanted = device_notices(offered.take(i as int + 1));
            assert(offered.len() == devices.len());
            assert(action_views(actions@).len() == wanted.len());
            assert forall|j: int| 0 <= j < wanted.len() implies action_views(actions@)[j]
                == wanted[j] by {
                if j < i {
                    assert(action_views(before)[j] == device_notices(offered.take(i as int))[j]);
                }
            }
            assert(action_views(actions@) =~= wanted);
        }
        i += 1;
    }
    assert(device_views(devices@).take(devices.len() as int) =~= device_views(devices@));
    actions
}

impl CliSession {
    /// A session for `parameters`, not yet started. `no_duplicates` says
    /// whether a track equal to the one delivered last is swallowed, and
    /// `no_match_text` is the error text that means that nothing matched.
    pub fn new(parameters: CLIParameters, no_duplicates: bool, no_match_text: String) -> (session:
        Self)
        ensures
            session@ == CliSessionView::initial(parameters@, no_duplicates, no_match_text@),
    {
        CliSession {
            parameters,
            no_duplicates,
            no_match_text,
            last_track: None,
            phase: SessionPhase::Idle,
        }
    }

    /// The settings of a session on the command line: the built-in ones
    /// with the request interval that the command line asks for, kept in no
    /// file.
    pub fn preferences_for(parameters: &CLIParameters) -> (interface: PreferencesInterface)
        ensures
            interface@.preferences_file_path is None,
            interface@.preferences == PreferencesView::builtin(parameters.request_interval),
    {
        PreferencesInterface::new(
            None,
            Some(Preferences::with_interval(parameters.request_interval)),
        )
    }

    /// A session for `parameters` under the settings `preferences`, not
    /// yet started: duplicates are suppressed as the settings say.
    pub fn from_preferences(
        parameters: CLIParameters,
        preferences: &Preferences,
        no_match_text: String,
    ) -> (session: Self)
        ensures
            session@ == CliSessionView::initial(
                parameters@,
                match preferences.no_duplicates {
                    Some(choice) => choice,
                    None => true,
                },
                no_match_text@,
            ),
    {
        CliSession::new(parameters, preferences.suppress_duplicates(), no_match_text)
    }

    /// Whether the session has ended.
    pub fn is_terminated(&self) -> (ended: bool)
        ensures
            ended == (self.phase == SessionPhase::Terminated),
    {
        self.phase == SessionPhase::Terminated
    }

    /// Starts the session and says what is to be done first.
    pub fn start(&mut self) -> (actions: Vec<CliAction>)
        ensures
            final(self)@ == old(self)@.start().session,
            action_views(actions@) == old(self)@.start().actions,
    {
        let mut actions: Vec<CliAction> = Vec::new();
        if self.phase == SessionPhase::Idle {
            match &self.parameters.input_file {
                Some(path) => {
                    actions.push(
                        CliAction::SendProcessing(ProcessingMessage::ProcessAudioFile(path.clone())),
                    );
                    self.phase = SessionPhase::Fingerprinting;
                },
                None => {
                    self.phase = SessionPhase::AwaitingDevices;
                },
            }
        }
        assert(action_views(actions@) =~= old(self)@.start().actions);
        actions
    }

    fn on_devices(&mut self, devices: &Vec<DeviceListItem>) -> (actions: Vec<CliAction>)
        ensures
            final(self)@ == old(self)@.on_devices(device_views(devices@)).session,
            action_views(actions@) == old(self)@.on_devices(device_views(devices@)).actions,
    {
        if self.parameters.file_driven() {
            let actions: Vec<CliAction> = Vec::new();
            assert(action_views(actions@) =~= Seq::<CliActionView>::empty());
            return actions;
        }
        let mut actions = announce_devices(devices);
        let ghost announced = action_views(actions@);
        if self.parameters.list_devices {
            actions.push(CliAction::Quit);
            self.phase = SessionPhase::Terminated;
            assert(action_views(actions@) =~= announced.push(CliActionView::Quit));
            return actions;
        }
        match select_device(devices, &self.parameters.audio_device) {
            Ok(name) => {
                actions.push(CliAction::Report(Notice::UsingDevice(name.clone())));
                actions.push(
                    CliAction::SendMicrophone(MicrophoneMessage::MicrophoneRecordStart(name)),
                );
                self.phase = SessionPhase::Recording;
                assert(action_views(actions@) =~= announced.push(
                    CliActionView::Report(NoticeView::UsingDevice(name@)),
                ).push(
                    CliActionView::SendMicrophone(
                        MicrophoneMessageView::MicrophoneRecordStart(name@),
                    ),
                ));
            },
            Err(error) => {
                let notice = match error {
                    StartupError::DeviceNotFound => Notice::DeviceNotFound,
                    StartupError::NoDevices => Notice::NoDevices,
                };
                actions.push(CliAction::Report(notice));
                actions.push(CliAction::Quit);
                self.phase = SessionPhase::Terminated;
                assert(action_views(actions@) =~= announced.push(
                    CliActionView::Report(startup_notice(error)),
                ).push(CliActionView::Quit));
            },
        }
        actions
    }

    fn on_network_status(&mut self, reachable: bool) -> (actions: Vec<CliAction>)
        ensures
            final(self)@ == old(self)@.on_network_status(reachable).session,
            action_views(actions@) == old(self)@.on_network_status(reachable).actions,
    {
        let mut actions: Vec<CliAction> = Vec::new();
        if !reachable {
            let fatal = self.parameters.file_driven();
            actions.push(CliAction::Report(Notice::NetworkUnreachable { fatal }));
            if fatal {
                actions.push(CliAction::Quit);
                self.phase = SessionPhase::Terminated;
            }
        }
        assert(action_views(actions@) =~= old(self)@.on_network_status(reachable).actions);
        actions
    }

    fn on_error(&mut self, text: String) -> (actions: Vec<CliAction>)
        ensures
            final(self)@ == old(self)@.on_error(text@).session,
            action_views(actions@) == old(self)@.on_error(text@).actions,
    {
        let mut actions: Vec<CliAction> = Vec::new();
        let file_driven = self.parameters.file_driven();
        let silent = text == self.no_match_text && !self.parameters.single_shot();
        if !silent {
            actions.push(CliAction::Report(Notice::Error(text)));
        }
        if file_driven {
            actions.push(CliAction::Quit);
            self.phase = SessionPhase::Terminated;
        }
        assert(action_views(actions@) =~= old(self)@.on_error(text@).actions);
        actions
    }

    fn on_recording(&self) -> (actions: Vec<CliAction>)
        ensures
            self@ == self@.on_recording().session,
            action_views(actions@) == self@.on_recording().actions,
    {
        let mut actions: Vec<CliAction> = Vec::new();
        if !self.parameters.single_shot() {
            actions.push(CliAction::Report(Notice::RecordingStarted));
        }
        assert(action_views(actions@) =~= self@.on_recording().actions);
        actions
    }

    /// Whether `track` is swallowed: duplicates are suppressed and its key
    /// is that of the track delivered last.
    pub fn is_duplicate(&self, track: &SongRecognizedMessage) -> (duplicate: bool)
        ensures
            duplicate == self@.is_duplicate(track@),
    {
        if !self.no_duplicates {
            return false;
        }
        match &self.last_track {
            Some(key) => *key == track.track_key,
            None => false,
        }
    }

    fn on_recognized(&mut self, track: SongRecognizedMessage) -> (actions: Vec<CliAction>)
        ensures
            final(self)@ == old(self)@.on_recognized(track@).session,
            action_views(actions@) == old(self)@.on_recognized(track@).actions,
    {
        let mut actions: Vec<CliAction> = Vec::new();
        let duplicate = self.is_duplicate(&track);
        self.last_track = Some(track.track_key.clone());
        if !duplicate {
            actions.push(output_action(self.parameters.output_type, track));
        }
        if self.parameters.single_shot() {
            actions.push(CliAction::Quit);
            self.phase = SessionPhase::Terminated;
        }
        assert(action_views(actions@) =~= old(self)@.on_recognized(track@).actions);
        actions
    }

    /// Takes one event and says what is to be done for it, in order.
    ///
    /// The session and the actions are those of [`CliSessionView::step`]:
    /// devices are announced and one is chosen, errors are passed on, a
    /// recognized track is put out unless it repeats the last one, and the
    /// session ends where its mode says so.
    pub fn handle_message(&mut self, message: GUIMessage) -> (actions: Vec<CliAction>)
        ensures
            final(self)@ == old(self)@.step(message@).session,
            action_views(actions@) == old(self)@.step(message@).actions,
    {
        if self.phase == SessionPhase::Idle || self.phase == SessionPhase::Terminated {
            let actions: Vec<CliAction> = Vec::new();
            assert(action_views(actions@) =~= Seq::<CliActionView>::empty());
            return actions;
        }
        match message {
            GUIMessage::DevicesList(devices) => self.on_devices(&devices),
            GUIMessage::NetworkStatus(reachable) => self.on_network_status(reachable),
            GUIMessage::ErrorMessage(text) => self.on_error(text),
            GUIMessage::MicrophoneRecording => self.on_recording(),
            GUIMessage::SongRecognized(track) => self.on_recognized(track),
            GUIMessage::ShowWindow => {
                let actions: Vec<CliAction> = Vec::new();
                assert(action_views(actions@) =~= Seq::<CliActionView>::empty());
                actions
            },
            GUIMessage::QuitApplication => {
                let mut actions: Vec<CliAction> = Vec::new();
                actions.push(CliAction::Quit);
                self.phase = SessionPhase::Terminated;
                assert(action_views(actions@) =~= seq![CliActionView::Quit]);
                actions
            },
        }
    }
}

/// Of two tracks with the same key that follow each other, a session that
/// listens on delivers the first; the second it delivers only where
/// duplicates are not suppressed. So the two give one output where
/// duplicates are suppressed, and two where they are not.
pub proof fn lemma_repeated_track_is_delivered_once(
    session: CliSessionView,
    first: SongRecognizedMessageView,
    second: SongRecognizedMessageView,
)
    requires
        session.live(),
        !session.parameters.single_shot(),
        first.track_key == second.track_key,
        session.last_track != Some(first.track_key),
    ensures
        ({
            let one = session.step(GUIMessageView::SongRecognized(first));
            let two = one.session.step(GUIMessageView::SongRecognized(second));
            &&& one.actions == seq![track_output(session.parameters.output_type, first)]
            &&& two.actions == if session.no_duplicates {
                Seq::<CliActionView>::empty()
            } else {
                seq![track_output(session.parameters.output_type, second)]
            }
            &&& (one.actions + two.actions).len() == if session.no_duplicates {
                1nat
            } else {
                2nat
            }
            &&& two.session.live()
        }),
{
    let one = session.step(GUIMessageView::SongRecognized(first));
    let two = one.session.step(GUIMessageView::SongRecognized(second));
    assert(one.actions =~= seq![track_output(session.parameters.output_type, first)]);
    if session.no_duplicates {
        assert(two.actions =~= Seq::<CliActionView>::empty());
    } else {
        assert(two.actions =~= seq![track_output(session.parameters.output_type, second)]);
    }
}

/// A track whose key differs from that of the track delivered last is
/// always delivered.
pub proof fn lemma_new_track_is_delivered(session: CliSessionView, track: SongRecognizedMessageView)
    requires
        session.live(),
        session.last_track != Some(track.track_key),
    ensures
        session.step(GUIMessageView::SongRecognized(track)).actions[0] == track_output(
            session.parameters.output_type,
            track,
        ),
        session.step(GUIMessageView::SongRecognized(track)).session.last_track == Some(
            track.track_key,
        ),
{
}

/// A file-driven session ends with the first track or the first error that
/// reaches it: it asks to quit, and whatever arrives later is passed over.
pub proof fn lemma_file_session_ends_with_first_result(
    session: CliSessionView,
    message: GUIMessageView,
    later: GUIMessageView,
)
    requires
        session.live(),
        session.parameters.file_driven(),
        message is SongRecognized || message is ErrorMessage,
    ensures
        session.step(message).session.phase == SessionPhase::Terminated,
        session.step(message).actions.last() == CliActionView::Quit,
        session.step(message).session.step(later) == session.step(message).session.unmoved(),
{
}

/// That nothing matched is told in the sessions that recognize one song,
/// from a file or from a device, and in no other. Only the file-driven
/// session ends with it.
pub proof fn lemma_no_match_is_told_in_single_shot_sessions(session: CliSessionView)
    requires
        session.live(),
    ensures
        ({
            let step = session.step(GUIMessageView::ErrorMessage(session.no_match_text));
            &&& session.parameters.single_shot() ==> step.actions[0] == CliActionView::Report(
                NoticeView::Error(session.no_match_text),
            )
            &&& !session.parameters.single_shot() ==> step.actions == Seq::<
                CliActionView,
            >::empty() && step.session == session
            &&& step.session.phase == SessionPhase::Terminated
                <==> session.parameters.file_driven()
        }),
{
}

/// A session ends only by asking to quit, and asks to quit only when it
/// ends.
pub proof fn lemma_quit_marks_the_end(session: CliSessionView, message: GUIMessageView)
    requires
        session.live(),
    ensures
        session.step(message).session.phase == SessionPhase::Terminated <==> session.step(
            message,
        ).actions.len() > 0 && session.step(message).actions.last() == CliActionView::Quit,
{
    let step = session.step(message);
    match message {
        GUIMessageView::DevicesList(devices) => {
            let notices = device_notices(devices);
            assert forall|i: int| 0 <= i < notices.len() implies notices[i]
                != CliActionView::Quit by {}
        },
        GUIMessageView::SongRecognized(track) => {
            assert(track_output(session.parameters.output_type, track) != CliActionView::Quit);
        },
        _ => {},
    }
}

} // verus!
