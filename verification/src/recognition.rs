//! The end of a recognition: the track record, and what is sent on for
//! each outcome.

use vstd::prelude::*;
use crate::capture::CaptureView;
use crate::answer::{
    HttpAnswer, RATE_LIMITED_STATUS, RecognitionError, RecognitionErrorView, array_len_at,
    json_array_len_at, json_document, json_string_at, json_text, read_answer, render_document,
    string_at,
};
use crate::text::{append_decimal, decimal_text};
use crate::messages::{
    GUIMessage, GUIMessageView, MicrophoneMessage, MicrophoneMessageView, SongRecognizedMessage,
    SongRecognizedMessageView, option_text,
};
use crate::session::{CliActionView, CliSessionView, NoticeView};

verus! {

/// What the service's answer says of the track it found.
#[derive(Clone, Debug)]
pub struct TrackIdentity {
    pub track_key: String,
    pub artist_name: String,
    pub song_name: String,
    pub album_name: Option<String>,
    pub release_year: Option<String>,
    pub genre: Option<String>,
}

/// Mathematical value of a [`TrackIdentity`].
pub struct TrackIdentityView {
    pub track_key: Seq<char>,
    pub artist_name: Seq<char>,
    pub song_name: Seq<char>,
    pub album_name: Option<Seq<char>>,
    pub release_year: Option<Seq<char>>,
    pub genre: Option<Seq<char>>,
}

impl View for TrackIdentity {
    type V = TrackIdentityView;

    open spec fn view(&self) -> TrackIdentityView {
        TrackIdentityView {
            track_key: self.track_key@,
            artist_name: self.artist_name@,
            song_name: self.song_name@,
            album_name: option_text(self.album_name),
            release_year: option_text(self.release_year),
            genre: option_text(self.genre),
        }
    }
}

/// The texts by which errors are told to the user.
#[derive(Clone, Debug)]
pub struct ErrorTexts {
    /// The service knows no track for the fingerprint.
    pub no_match: String,
    /// The service takes no more requests for now.
    pub rate_limited: String,
}

/// Mathematical value of an [`ErrorTexts`].
pub struct ErrorTextsView {
    pub no_match: Seq<char>,
    pub rate_limited: Seq<char>,
}

impl View for ErrorTexts {
    type V = ErrorTextsView;

    open spec fn view(&self) -> ErrorTextsView {
        ErrorTextsView { no_match: self.no_match@, rate_limited: self.rate_limited@ }
    }
}

/// The outcome of one recognition, as a mathematical value.
pub type OutcomeView = Result<SongRecognizedMessageView, RecognitionErrorView>;

/// The value of an outcome.
pub open spec fn outcome_view(outcome: Result<SongRecognizedMessage, RecognitionError>)
    -> OutcomeView {
    match outcome {
        Ok(track) => Ok(track@),
        Err(error) => Err(error@),
    }
}

/// The track record made of what the answer says of the track and of the
/// answer itself.
pub open spec fn track_record(identity: TrackIdentityView, payload: Seq<char>)
    -> SongRecognizedMessageView {
    SongRecognizedMessageView {
        artist_name: identity.artist_name,
        album_name: identity.album_name,
        song_name: identity.song_name,
        track_key: identity.track_key,
        release_year: identity.release_year,
        genre: identity.genre,
        shazam_json: payload,
    }
}

/// Makes the record of a recognized track from the service's answer
/// `payload` and what it says of the track. An answer that names no track
/// is no error of the exchange: it means that nothing matched.
pub fn recognized_track(identity: Option<TrackIdentity>, payload: String) -> (outcome: Result<
    SongRecognizedMessage,
    RecognitionError,
>)
    ensures
        outcome_view(outcome) == match identity {
            Some(found) => Ok::<SongRecognizedMessageView, RecognitionErrorView>(
                track_record(found@, payload@),
            ),
            None => Err(RecognitionErrorView::NoMatch),
        },
{
    match identity {
        Some(found) => Ok(
            SongRecognizedMessage {
                artist_name: found.artist_name,
                album_name: found.album_name,
                song_name: found.song_name,
                track_key: found.track_key,
                release_year: found.release_year,
                genre: found.genre,
                shazam_json: payload,
            },
        ),
        None => Err(RecognitionError::NoMatch),
    }
}

/// What the network context sends when a recognition has ended.
#[derive(Clone, Debug)]
pub struct Dispatch {
    /// For the presentation surfaces, in order.
    pub presentation: Vec<GUIMessage>,
    /// For the capture context.
    pub capture: MicrophoneMessage,
}

/// Values of a sequence of presentation events, in the same order.
pub open spec fn message_views(messages: Seq<GUIMessage>) -> Seq<GUIMessageView> {
    messages.map_values(|message: GUIMessage| message@)
}

/// The presentation events of an outcome. A failure to reach the service
/// is told as such, and a request that could not be made by its error's
/// text. Every other outcome shows that the service was reached, and is
/// followed by the track or by the error's text.
pub open spec fn outcome_events(outcome: OutcomeView, texts: ErrorTextsView) -> Seq<
    GUIMessageView,
> {
    match outcome {
        Ok(track) => seq![
            GUIMessageView::NetworkStatus(true),
            GUIMessageView::SongRecognized(track),
        ],
        Err(RecognitionErrorView::Unreachable) => seq![GUIMessageView::NetworkStatus(false)],
        Err(RecognitionErrorView::RateLimited) => seq![
            GUIMessageView::NetworkStatus(true),
            GUIMessageView::ErrorMessage(texts.rate_limited),
        ],
        Err(RecognitionErrorView::NoMatch) => seq![
            GUIMessageView::NetworkStatus(true),
            GUIMessageView::ErrorMessage(texts.no_match),
        ],
        Err(RecognitionErrorView::MalformedResponse(text)) => seq![
            GUIMessageView::NetworkStatus(true),
            GUIMessageView::ErrorMessage(text),
        ],
        Err(RecognitionErrorView::RequestFailed(text)) => seq![GUIMessageView::ErrorMessage(text)],
    }
}

/// Turns the outcome of a recognition into what is sent on: the events for
/// the presentation surfaces, and the report to the capture context that
/// the window it handed out has been dealt with.
pub fn dispatch_outcome(
    outcome: Result<SongRecognizedMessage, RecognitionError>,
    texts: &ErrorTexts,
) -> (sent: Dispatch)
    ensures
        message_views(sent.presentation@) == outcome_events(outcome_view(outcome), texts@),
        sent.capture@ == MicrophoneMessageView::ProcessingDone,
{
    let mut presentation: Vec<GUIMessage> = Vec::new();
    match outcome {
        Ok(track) => {
            presentation.push(GUIMessage::NetworkStatus(true));
            presentation.push(GUIMessage::SongRecognized(track));
        },
        Err(RecognitionError::Unreachable) => {
            presentation.push(GUIMessage::NetworkStatus(false));
        },
        Err(RecognitionError::RateLimited) => {
            presentation.push(GUIMessage::NetworkStatus(true));
            presentation.push(GUIMessage::ErrorMessage(texts.rate_limited.clone()));
        },
        Err(RecognitionError::NoMatch) => {
            presentation.push(GUIMessage::NetworkStatus(true));
            presentation.push(GUIMessage::ErrorMessage(texts.no_match.clone()));
        },
        Err(RecognitionError::MalformedResponse(text)) => {
            presentation.push(GUIMessage::NetworkStatus(true));
            presentation.push(GUIMessage::ErrorMessage(text));
        },
        Err(RecognitionError::RequestFailed(text)) => {
            presentation.push(GUIMessage::ErrorMessage(text));
        },
    }
    assert(message_views(presentation@) =~= outcome_events(outcome_view(outcome), texts@));
    Dispatch { presentation, capture: MicrophoneMessage::ProcessingDone }
}

/// What the fingerprinting context sends when it could make no fingerprint:
/// the error's text for the presentation surfaces, and the report to the
/// capture context that the window it handed out has been dealt with.
pub fn dispatch_fingerprint_failure(text: String) -> (sent: Dispatch)
    ensures
        message_views(sent.presentation@) == seq![GUIMessageView::ErrorMessage(text@)],
        sent.capture@ == MicrophoneMessageView::ProcessingDone,
{
    let mut presentation: Vec<GUIMessage> = Vec::new();
    presentation.push(GUIMessage::ErrorMessage(text));
    assert(message_views(presentation@) =~= seq![GUIMessageView::ErrorMessage(text@)]);
    Dispatch { presentation, capture: MicrophoneMessage::ProcessingDone }
}

/// An answer with the rate-limit status gives no track record, whatever its
/// body holds: it comes to the rate-limit error, and the presentation
/// surfaces get that error's text and no track.
pub proof fn lemma_rate_limit_gives_no_track(
    outcome: OutcomeView,
    body: Seq<u8>,
    texts: ErrorTextsView,
)
    requires
        is_recognition_of(outcome, RATE_LIMITED_STATUS, body),
    ensures
        outcome is Err,
        outcome == Err::<SongRecognizedMessageView, RecognitionErrorView>(
            RecognitionErrorView::RateLimited,
        ),
        outcome_events(outcome, texts) == seq![
            GUIMessageView::NetworkStatus(true),
            GUIMessageView::ErrorMessage(texts.rate_limited),
        ],
        forall|i: int|
            0 <= i < outcome_events(outcome, texts).len() ==> !(#[trigger] outcome_events(
                outcome,
                texts,
            )[i] is SongRecognized),
{
}

/// A session that listens outlives the rate limit: the events of the
/// rate-limit error leave it in the phase it was in, the user is told the
/// error's text, and once the report has reached the capture context the
/// next tick hands a window out again.
pub proof fn lemma_rate_limit_is_survived(
    session: CliSessionView,
    capture: CaptureView,
    texts: ErrorTextsView,
)
    requires
        session.live(),
        !session.parameters.file_driven(),
        texts.rate_limited != session.no_match_text,
        capture.device is Some,
    ensures
        ({
            let events = outcome_events(Err(RecognitionErrorView::RateLimited), texts);
            let reached = session.step(events[0]);
            let told = reached.session.step(events[1]);
            &&& reached.session == session
            &&& reached.actions == Seq::<CliActionView>::empty()
            &&& told.session == session
            &&& told.actions == seq![
                CliActionView::Report(NoticeView::Error(texts.rate_limited)),
            ]
        }),
        capture.on_control(MicrophoneMessageView::ProcessingDone).tick_issues(),
{
    let events = outcome_events(Err(RecognitionErrorView::RateLimited), texts);
    let reached = session.step(events[0]);
    assert(reached.session == session);
    let told = reached.session.step(events[1]);
    assert(told.actions =~= seq![CliActionView::Report(NoticeView::Error(texts.rate_limited))]);
}

/// The JSON pointer to the metadata of section `section` of the track.
pub open spec fn metadata_pointer(section: nat) -> Seq<char> {
    "/track/sections/"@ + decimal_text(section) + "/metadata"@
}

/// The JSON pointer to the field `field` of entry `entry` of the metadata
/// of section `section`.
pub open spec fn metadatum_pointer(section: nat, entry: nat, field: Seq<char>) -> Seq<char> {
    metadata_pointer(section) + "/"@ + decimal_text(entry) + "/"@ + field
}

/// The number of sections that `document` holds of the track.
pub open spec fn section_count(document: Seq<char>) -> nat {
    match json_array_len_at(document, "/track/sections"@) {
        Some(sections) => sections,
        None => 0,
    }
}

/// The number of entries in the metadata of section `section`.
pub open spec fn metadata_count(document: Seq<char>, section: nat) -> nat {
    match json_array_len_at(document, metadata_pointer(section)) {
        Some(entries) => entries,
        None => 0,
    }
}

/// Entry `entry` of the metadata of section `section` has the title `title`
/// and a text.
pub open spec fn is_titled(document: Seq<char>, title: Seq<char>, section: int, entry: int)
    -> bool {
    &&& 0 <= section < section_count(document)
    &&& 0 <= entry < metadata_count(document, section as nat)
    &&& json_string_at(document, metadatum_pointer(section as nat, entry as nat, "title"@))
        == Some(title)
    &&& json_string_at(document, metadatum_pointer(section as nat, entry as nat, "text"@))
        is Some
}

/// The first place comes before the second in the document.
pub open spec fn comes_before(section: int, entry: int, later_section: int, later_entry: int)
    -> bool {
    section < later_section || (section == later_section && entry < later_entry)
}

/// `found` is the text of the last entry with the title `title` among the
/// entries that come before the given place, or nothing where none of them
/// has that title.
pub open spec fn is_last_titled_before(
    found: Option<Seq<char>>,
    document: Seq<char>,
    title: Seq<char>,
    end_section: int,
    end_entry: int,
) -> bool {
    match found {
        Some(text) => exists|section: int, entry: int|
            {
                &&& #[trigger] is_titled(document, title, section, entry)
                &&& comes_before(section, entry, end_section, end_entry)
                &&& json_string_at(
                    document,
                    metadatum_pointer(section as nat, entry as nat, "text"@),
                ) == Some(text)
                &&& forall|other_section: int, other_entry: int|
                    #[trigger] is_titled(document, title, other_section, other_entry)
                        && comes_before(other_section, other_entry, end_section, end_entry)
                        ==> !comes_before(section, entry, other_section, other_entry)
            },
        None => forall|section: int, entry: int|
            #[trigger] is_titled(document, title, section, entry) ==> !comes_before(
                section,
                entry,
                end_section,
                end_entry,
            ),
    }
}

/// `found` is the text that the metadata of the track give under the title
/// `title`: that of the last entry with that title, or nothing where no
/// entry has it.
pub open spec fn is_metadatum_text(found: Option<Seq<char>>, document: Seq<char>, title: Seq<char>)
    -> bool {
    is_last_titled_before(found, document, title, section_count(document) as int, 0)
}

/// The value of an optional track identity.
pub open spec fn identity_view(identity: Option<TrackIdentity>) -> Option<TrackIdentityView> {
    match identity {
        Some(found) => Some(found@),
        None => None,
    }
}

/// `found` is what `document` says of the track. A track is named by its
/// key, its artist (the subtitle) and its title: where one of the three is
/// missing, the document names no track. Genre, album and year of release
/// are told where the document has them.
pub open spec fn is_track_identity(found: Option<TrackIdentityView>, document: Seq<char>) -> bool {
    match (
        json_string_at(document, "/track/key"@),
        json_string_at(document, "/track/subtitle"@),
        json_string_at(document, "/track/title"@),
    ) {
        (Some(key), Some(artist), Some(title)) => {
            &&& found matches Some(identity)
            &&& identity.track_key == key
            &&& identity.artist_name == artist
            &&& identity.song_name == title
            &&& identity.genre == json_string_at(document, "/track/genres/primary"@)
            &&& is_metadatum_text(identity.album_name, document, "Album"@)
            &&& is_metadatum_text(identity.release_year, document, "Released"@)
        },
        _ => found is None,
    }
}

fn metadata_path(section: usize) -> (pointer: String)
    ensures
        pointer@ == metadata_pointer(section as nat),
{
    let mut pointer = String::new();
    pointer.append("/track/sections/");
    append_decimal(&mut pointer, section as u64);
    pointer.append("/metadata");
    assert(pointer@ =~= metadata_pointer(section as nat));
    pointer
}

fn metadatum_path(section: usize, entry: usize, field: &str) -> (pointer: String)
    ensures
        pointer@ == metadatum_pointer(section as nat, entry as nat, field@),
{
    let mut pointer = metadata_path(section);
    pointer.append("/");
    append_decimal(&mut pointer, entry as u64);
    pointer.append("/");
    pointer.append(field);
    assert(pointer@ =~= metadatum_pointer(section as nat, entry as nat, field@));
    pointer
}

/// The text that the metadata of the track give under the title `title`.
pub fn metadatum_text(document: &serde_json::Value, title: &str) -> (found: Option<String>)
    ensures
        is_metadatum_text(option_text(found), json_text(*document), title@),
{
    let ghost text = json_text(*document);
    let sections = match array_len_at(document, "/track/sections") {
        Some(sections) => sections,
        None => 0,
    };
    let wanted = title.to_owned();
    let mut found: Option<String> = None;
    let mut section: usize = 0;
    while section < sections
        invariant
            section <= sections,
            sections == section_count(text),
            text == json_text(*document),
            wanted@ == title@,
            is_last_titled_before(option_text(found), text, title@, section as int, 0),
        decreases sections - section,
    {
        let entries = match array_len_at(document, metadata_path(section).as_str()) {
            Some(entries) => entries,
            None => 0,
        };
        let mut entry: usize = 0;
        while entry < entries
            invariant
                entry <= entries,
                section < sections,
                sections == section_count(text),
                entries == metadata_count(text, section as nat),
                text == json_text(*document),
                wanted@ == title@,
                is_last_titled_before(
                    option_text(found),
                    text,
                    title@,
                    section as int,
                    entry as int,
                ),
            decreases entries - entry,
        {
            let ghost before = option_text(found);
            let titled = match string_at(document, metadatum_path(section, entry, "title").as_str()) {
                Some(name) => name == wanted,
                None => false,
            };
            let mut taken = false;
            if titled {
                match string_at(document, metadatum_path(section, entry, "text").as_str()) {
                    Some(value) => {
                        found = Some(value);
                        taken = true;
                    },
                    None => {},
                }
            }
            proof {
                assert(taken == is_titled(text, title@, section as int, entry as int));
                lemma_last_titled_step(
                    before,
                    option_text(found),
                    text,
                    title@,
                    section as int,
                    entry as int,
                );
            }
            entry += 1;
        }
        proof {
            lemma_last_titled_next_section(
                option_text(found),
                text,
                title@,
                section as int,
                entries as int,
            );
        }
        section += 1;
    }
    found
}

proof fn lemma_last_titled_step(
    before: Option<Seq<char>>,
    after: Option<Seq<char>>,
    document: Seq<char>,
    title: Seq<char>,
    section: int,
    entry: int,
)
    requires
        is_last_titled_before(before, document, title, section, entry),
        if is_titled(document, title, section, entry) {
            after == json_string_at(
                document,
                metadatum_pointer(section as nat, entry as nat, "text"@),
            )
        } else {
            after == before
        },
    ensures
        is_last_titled_before(after, document, title, section, entry + 1),
{
    if is_titled(document, title, section, entry) {
        assert(comes_before(section, entry, section, entry + 1));
        assert forall|other_section: int, other_entry: int|
            #[trigger] is_titled(document, title, other_section, other_entry) && comes_before(
                other_section,
                other_entry,
                section,
                entry + 1,
            ) implies !comes_before(section, entry, other_section, other_entry) by {}
    } else {
        match before {
            Some(text) => {
                let (s, e) = choose|s: int, e: int|
                    {
                        &&& #[trigger] is_titled(document, title, s, e)
                        &&& comes_before(s, e, section, entry)
                        &&& json_string_at(
                            document,
                            metadatum_pointer(s as nat, e as nat, "text"@),
                        ) == Some(text)
                        &&& forall|other_section: int, other_entry: int|
                            #[trigger] is_titled(document, title, other_section, other_entry)
                                && comes_before(other_section, other_entry, section, entry)
                                ==> !comes_before(s, e, other_section, other_entry)
                    };
                assert(comes_before(s, e, section, entry + 1));
                assert forall|other_section: int, other_entry: int|
                    #[trigger] is_titled(document, title, other_section, other_entry)
                        && comes_before(
                        other_section,
                        other_entry,
                        section,
                        entry + 1,
                    ) implies !comes_before(s, e, other_section, other_entry) by {
                    if other_section == section && other_entry == entry {
                    } else {
                        assert(comes_before(other_section, other_entry, section, entry));
                    }
                }
                assert(is_titled(document, title, s, e));
            },
            None => {
                assert forall|s: int, e: int| #[trigger] is_titled(document, title, s, e)
                    implies !comes_before(s, e, section, entry + 1) by {
                    if s == section && e == entry {
                    } else if comes_before(s, e, section, entry + 1) {
                        assert(comes_before(s, e, section, entry));
                    }
                }
            },
        }
    }
}

proof fn lemma_last_titled_next_section(
    found: Option<Seq<char>>,
    document: Seq<char>,
    title: Seq<char>,
    section: int,
    entries: int,
)
    requires
        0 <= section,
        entries == metadata_count(document, section as nat),
        is_last_titled_before(found, document, title, section, entries),
    ensures
        is_last_titled_before(found, document, title, section + 1, 0),
{
    assert forall|s: int, e: int| #[trigger] is_titled(document, title, s, e) implies (
    comes_before(s, e, section + 1, 0) <==> comes_before(s, e, section, entries)) by {}
    match found {
        Some(text) => {
            let (s, e) = choose|s: int, e: int|
                {
                    &&& #[trigger] is_titled(document, title, s, e)
                    &&& comes_before(s, e, section, entries)
                    &&& json_string_at(document, metadatum_pointer(s as nat, e as nat, "text"@))
                        == Some(text)
                    &&& forall|other_section: int, other_entry: int|
                        #[trigger] is_titled(document, title, other_section, other_entry)
                            && comes_before(other_section, other_entry, section, entries)
                            ==> !comes_before(s, e, other_section, other_entry)
                };
            assert(is_titled(document, title, s, e));
            assert(comes_before(s, e, section + 1, 0));
        },
        None => {},
    }
}

/// The metadata give one text under a title, or none: two answers to the
/// same question are the same.
pub proof fn lemma_metadatum_text_is_unique(
    first: Option<Seq<char>>,
    second: Option<Seq<char>>,
    document: Seq<char>,
    title: Seq<char>,
)
    requires
        is_metadatum_text(first, document, title),
        is_metadatum_text(second, document, title),
    ensures
        first == second,
{
    let end = section_count(document) as int;
    match (first, second) {
        (Some(one), Some(other)) => {
            let (s1, e1) = choose|s: int, e: int|
                {
                    &&& #[trigger] is_titled(document, title, s, e)
                    &&& comes_before(s, e, end, 0)
                    &&& json_string_at(document, metadatum_pointer(s as nat, e as nat, "text"@))
                        == Some(one)
                    &&& forall|other_section: int, other_entry: int|
                        #[trigger] is_titled(document, title, other_section, other_entry)
                            && comes_before(other_section, other_entry, end, 0)
                            ==> !comes_before(s, e, other_section, other_entry)
                };
            let (s2, e2) = choose|s: int, e: int|
                {
                    &&& #[trigger] is_titled(document, title, s, e)
                    &&& comes_before(s, e, end, 0)
                    &&& json_string_at(document, metadatum_pointer(s as nat, e as nat, "text"@))
                        == Some(other)
                    &&& forall|other_section: int, other_entry: int|
                        #[trigger] is_titled(document, title, other_section, other_entry)
                            && comes_before(other_section, other_entry, end, 0)
                            ==> !comes_before(s, e, other_section, other_entry)
                };
            assert(is_titled(document, title, s1, e1));
            assert(is_titled(document, title, s2, e2));
            assert(!comes_before(s1, e1, s2, e2));
            assert(!comes_before(s2, e2, s1, e1));
            assert(s1 == s2 && e1 == e2);
        },
        (Some(one), None) => {
            let (s1, e1) = choose|s: int, e: int|
                {
                    &&& #[trigger] is_titled(document, title, s, e)
                    &&& comes_before(s, e, end, 0)
                    &&& json_string_at(document, metadatum_pointer(s as nat, e as nat, "text"@))
                        == Some(one)
                };
            assert(is_titled(document, title, s1, e1));
        },
        (None, Some(other)) => {
            let (s2, e2) = choose|s: int, e: int|
                {
                    &&& #[trigger] is_titled(document, title, s, e)
                    &&& comes_before(s, e, end, 0)
                    &&& json_string_at(document, metadatum_pointer(s as nat, e as nat, "text"@))
                        == Some(other)
                };
            assert(is_titled(document, title, s2, e2));
        },
        (None, None) => {},
    }
}

/// Reads what `document` says of the track; `None` where it names no
/// track.
pub fn track_identity(document: &serde_json::Value) -> (found: Option<TrackIdentity>)
    ensures
        is_track_identity(identity_view(found), json_text(*document)),
{
    let artist_name = match string_at(document, "/track/subtitle") {
        Some(artist) => artist,
        None => {
            return None;
        },
    };
    let song_name = match string_at(document, "/track/title") {
        Some(title) => title,
        None => {
            return None;
        },
    };
    let track_key = match string_at(document, "/track/key") {
        Some(key) => key,
        None => {
            return None;
        },
    };
    Some(
        TrackIdentity {
            track_key,
            artist_name,
            song_name,
            album_name: metadatum_text(document, "Album"),
            release_year: metadatum_text(document, "Released"),
            genre: string_at(document, "/track/genres/primary"),
        },
    )
}

/// The address of the track's cover image, where `document` gives one.
pub fn cover_image_url(document: &serde_json::Value) -> (url: Option<String>)
    ensures
        option_text(url) == json_string_at(json_text(*document), "/track/images/coverarthq"@),
{
    string_at(document, "/track/images/coverarthq")
}

/// What `track` tells of itself, without the answer it came in.
pub open spec fn identity_of(track: SongRecognizedMessageView) -> TrackIdentityView {
    TrackIdentityView {
        track_key: track.track_key,
        artist_name: track.artist_name,
        song_name: track.song_name,
        album_name: track.album_name,
        release_year: track.release_year,
        genre: track.genre,
    }
}

/// `outcome` is what the answer `document` comes to: the track that it
/// names, with the document as payload, or the error that nothing matched
/// where it names none.
pub open spec fn is_outcome_of_document(outcome: OutcomeView, document: Seq<char>) -> bool {
    match outcome {
        Ok(track) => track.shazam_json == document && is_track_identity(
            Some(identity_of(track)),
            document,
        ),
        Err(error) => error == RecognitionErrorView::NoMatch && is_track_identity(None, document),
    }
}

/// `outcome` is what an answer of the service with the status `status` and
/// the body `body` comes to: the rate-limit error for the rate-limit status,
/// whatever the body holds; else the error that the body is malformed, or
/// what the document in the body comes to.
pub open spec fn is_recognition_of(outcome: OutcomeView, status: u32, body: Seq<u8>) -> bool {
    if status == RATE_LIMITED_STATUS {
        outcome == Err::<SongRecognizedMessageView, RecognitionErrorView>(
            RecognitionErrorView::RateLimited,
        )
    } else {
        match json_document(body) {
            Some(document) => is_outcome_of_document(outcome, document),
            None => outcome matches Err(RecognitionErrorView::MalformedResponse(_)),
        }
    }
}

/// What the answer `document` comes to.
pub fn recognize_document(document: &serde_json::Value) -> (outcome: Result<
    SongRecognizedMessage,
    RecognitionError,
>)
    ensures
        is_outcome_of_document(outcome_view(outcome), json_text(*document)),
{
    recognized_track(track_identity(document), render_document(document))
}

/// What an answer of the service to a recognition request comes to: the
/// track record, or the error that tells why there is none.
pub fn recognize_answer(status: u32, body: &[u8]) -> (outcome: Result<
    SongRecognizedMessage,
    RecognitionError,
>)
    ensures
        is_recognition_of(outcome_view(outcome), status, body@),
{
    match read_answer(status, body) {
        Ok(document) => recognize_document(&document),
        Err(error) => Err(error),
    }
}

/// What a recognition request came to: `exchange` is the service's answer,
/// or `None` where the request failed on the way or got no answer in time,
/// which is the error that the service is unreachable.
pub fn recognize_exchange(exchange: Option<HttpAnswer>) -> (outcome: Result<
    SongRecognizedMessage,
    RecognitionError,
>)
    ensures
        match exchange {
            Some(answer) => is_recognition_of(outcome_view(outcome), answer.status, answer.body@),
            None => outcome_view(outcome) == Err::<
                SongRecognizedMessageView,
                RecognitionErrorView,
            >(RecognitionErrorView::Unreachable),
        },
{
    match exchange {
        Some(answer) => recognize_answer(answer.status, answer.body.as_slice()),
        None => Err(RecognitionError::Unreachable),
    }
}

} // verus!
