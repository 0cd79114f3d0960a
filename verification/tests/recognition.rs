use songrec::cli::{CLIOutputType, CLIParameters};
use songrec::answer::{HttpAnswer, RecognitionError};
use songrec::messages::{GUIMessage, MicrophoneMessage, SongRecognizedMessage};
use songrec::recognition::{
    cover_image_url, dispatch_fingerprint_failure, dispatch_outcome, metadatum_text,
    recognize_answer, recognize_document, recognize_exchange, recognized_track, track_identity,
    ErrorTexts, TrackIdentity,
};
use songrec::session::{CliAction, CliSession, Notice};

const ANSWER: &str = r#"{
  "matches": [{"id": "1"}],
  "track": {
    "key": "549952578",
    "title": "Veridis Quo",
    "subtitle": "Daft Punk",
    "images": {"coverart": "https://example.org/small.jpg", "coverarthq": "https://example.org/large.jpg"},
    "genres": {"primary": "Electronic"},
    "sections": [
      {"type": "SONG", "metadata": [
        {"title": "Album", "text": "Discovery"},
        {"title": "Label", "text": "Virgin"},
        {"title": "Released", "text": "2001"}
      ]},
      {"type": "LYRICS"},
      {"type": "RELATED", "metadata": []}
    ]
  }
}"#;

fn document(text: &str) -> serde_json::Value {
    serde_json::from_str(text).unwrap()
}

fn texts() -> ErrorTexts {
    ErrorTexts {
        no_match: "No match for this song".to_string(),
        rate_limited: "Your IP has been rate-limited".to_string(),
    }
}

fn identity() -> TrackIdentity {
    TrackIdentity {
        track_key: "549952578".to_string(),
        artist_name: "Daft Punk".to_string(),
        song_name: "Veridis Quo".to_string(),
        album_name: Some("Discovery".to_string()),
        release_year: Some("2001".to_string()),
        genre: None,
    }
}

fn recognized() -> SongRecognizedMessage {
    recognized_track(Some(identity()), "{}".to_string()).unwrap()
}

#[test]
fn track_record_holds_identity_and_payload() {
    let track = recognized_track(Some(identity()), "{\"track\":{}}".to_string()).unwrap();
    assert_eq!(track.track_key, "549952578");
    assert_eq!(track.artist_name, "Daft Punk");
    assert_eq!(track.song_name, "Veridis Quo");
    assert_eq!(track.album_name, Some("Discovery".to_string()));
    assert_eq!(track.release_year, Some("2001".to_string()));
    assert_eq!(track.genre, None);
    assert_eq!(track.shazam_json, "{\"track\":{}}");
}

#[test]
fn answer_without_track_is_no_match() {
    assert!(matches!(
        recognized_track(None, "{\"matches\":[]}".to_string()),
        Err(RecognitionError::NoMatch)
    ));
}

#[test]
fn recognized_track_is_dispatched_after_reachability() {
    let sent = dispatch_outcome(Ok(recognized()), &texts());
    assert_eq!(sent.presentation.len(), 2);
    assert!(matches!(sent.presentation[0], GUIMessage::NetworkStatus(true)));
    assert!(matches!(&sent.presentation[1], GUIMessage::SongRecognized(t) if t.track_key == "549952578"));
    assert!(matches!(sent.capture, MicrophoneMessage::ProcessingDone));
}

#[test]
fn unreachable_service_is_dispatched_as_such() {
    let sent = dispatch_outcome(Err(RecognitionError::Unreachable), &texts());
    assert_eq!(sent.presentation.len(), 1);
    assert!(matches!(sent.presentation[0], GUIMessage::NetworkStatus(false)));
    assert!(matches!(sent.capture, MicrophoneMessage::ProcessingDone));
}

#[test]
fn rate_limit_is_dispatched_with_its_own_text() {
    let sent = dispatch_outcome(Err(RecognitionError::RateLimited), &texts());
    assert_eq!(sent.presentation.len(), 2);
    assert!(matches!(sent.presentation[0], GUIMessage::NetworkStatus(true)));
    assert!(matches!(&sent.presentation[1], GUIMessage::ErrorMessage(t) if t == "Your IP has been rate-limited"));
    assert!(matches!(sent.capture, MicrophoneMessage::ProcessingDone));
}

#[test]
fn no_match_is_dispatched_with_its_own_text() {
    let sent = dispatch_outcome(Err(RecognitionError::NoMatch), &texts());
    assert_eq!(sent.presentation.len(), 2);
    assert!(matches!(&sent.presentation[1], GUIMessage::ErrorMessage(t) if t == "No match for this song"));
}

#[test]
fn malformed_answer_is_dispatched_with_its_text() {
    let sent = dispatch_outcome(
        Err(RecognitionError::MalformedResponse("expected value at line 1 column 1".to_string())),
        &texts(),
    );
    assert_eq!(sent.presentation.len(), 2);
    assert!(matches!(&sent.presentation[1], GUIMessage::ErrorMessage(t) if t == "expected value at line 1 column 1"));
}

#[test]
fn fingerprint_failure_is_dispatched_as_error() {
    let sent = dispatch_fingerprint_failure("could not decode".to_string());
    assert_eq!(sent.presentation.len(), 1);
    assert!(matches!(&sent.presentation[0], GUIMessage::ErrorMessage(t) if t == "could not decode"));
    assert!(matches!(sent.capture, MicrophoneMessage::ProcessingDone));
}

#[test]
fn rate_limited_answer_reaches_the_user_and_the_session_lives() {
    let outcome = recognize_answer(429, ANSWER.as_bytes());
    assert!(matches!(outcome, Err(RecognitionError::RateLimited)));
    let sent = dispatch_outcome(outcome, &texts());
    let mut session = CliSession::new(
        CLIParameters::listen(false, None, 10, false, false, false),
        true,
        texts().no_match,
    );
    session.start();
    let mut told = Vec::new();
    for message in sent.presentation {
        told.extend(session.handle_message(message));
    }
    assert_eq!(told.len(), 1);
    assert!(matches!(&told[0], CliAction::Report(Notice::Error(t)) if t == "Your IP has been rate-limited"));
    assert!(!session.is_terminated());
    let track = session.handle_message(GUIMessage::SongRecognized(recognized()));
    assert_eq!(track.len(), 1);
    assert_eq!(session.parameters.output_type, CLIOutputType::SongName);
}

#[test]
fn no_match_reaches_the_user_of_a_one_recognition_session() {
    let sent = dispatch_outcome(Err(RecognitionError::NoMatch), &texts());
    let mut once = CliSession::new(
        CLIParameters::microphone_to_recognized_song(false, None, 10),
        true,
        texts().no_match,
    );
    once.start();
    let mut told = Vec::new();
    for message in sent.presentation {
        told.extend(once.handle_message(message));
    }
    assert_eq!(told.len(), 1);
    assert!(matches!(&told[0], CliAction::Report(Notice::Error(t)) if t == "No match for this song"));
    assert!(!once.is_terminated());
}

#[test]
fn no_match_is_passed_over_when_listening_on_and_ends_a_file_session() {
    let sent = dispatch_outcome(Err(RecognitionError::NoMatch), &texts());
    let mut listening = CliSession::new(
        CLIParameters::listen(false, None, 10, false, false, false),
        true,
        texts().no_match,
    );
    listening.start();
    let mut told = Vec::new();
    for message in sent.presentation.clone() {
        told.extend(listening.handle_message(message));
    }
    assert!(told.is_empty());
    let mut file = CliSession::new(
        CLIParameters::recognize(false, None, 10, Some("a.wav".to_string()), false, false),
        true,
        texts().no_match,
    );
    file.start();
    let mut told = Vec::new();
    for message in sent.presentation {
        told.extend(file.handle_message(message));
    }
    assert_eq!(told.len(), 2);
    assert!(matches!(&told[0], CliAction::Report(Notice::Error(t)) if t == "No match for this song"));
    assert!(matches!(told[1], CliAction::Quit));
    assert!(file.is_terminated());
}

#[test]
fn identity_is_read_from_the_answer() {
    let found = track_identity(&document(ANSWER)).unwrap();
    assert_eq!(found.track_key, "549952578");
    assert_eq!(found.artist_name, "Daft Punk");
    assert_eq!(found.song_name, "Veridis Quo");
    assert_eq!(found.album_name, Some("Discovery".to_string()));
    assert_eq!(found.release_year, Some("2001".to_string()));
    assert_eq!(found.genre, Some("Electronic".to_string()));
}

#[test]
fn identity_needs_key_artist_and_title() {
    assert!(track_identity(&document(r#"{"matches": []}"#)).is_none());
    assert!(track_identity(&document(r#"{"track": {"title": "T", "subtitle": "A"}}"#)).is_none());
    assert!(track_identity(&document(r#"{"track": {"key": "1", "subtitle": "A"}}"#)).is_none());
    assert!(track_identity(&document(r#"{"track": {"key": "1", "title": "T"}}"#)).is_none());
    assert!(track_identity(&document(r#"{"track": {"key": 1, "title": "T", "subtitle": "A"}}"#)).is_none());
    assert!(track_identity(&document(r#"[1, 2]"#)).is_none());
    let bare = track_identity(&document(r#"{"track": {"key": "1", "title": "T", "subtitle": "A"}}"#)).unwrap();
    assert_eq!(bare.track_key, "1");
    assert_eq!(bare.artist_name, "A");
    assert_eq!(bare.song_name, "T");
    assert_eq!(bare.album_name, None);
    assert_eq!(bare.release_year, None);
    assert_eq!(bare.genre, None);
}

#[test]
fn metadatum_text_takes_the_last_entry_with_the_title() {
    let answer = document(
        r#"{"track": {"sections": [
            {"metadata": [{"title": "Album", "text": "First"}, {"title": "Album", "text": "Second"}]},
            {"metadata": [{"title": "Released", "text": "1999"}]},
            {"metadata": [{"title": "Album", "text": "Third"}, {"title": "Album", "text": 4}, {"title": "Album"}]}
        ]}}"#,
    );
    assert_eq!(metadatum_text(&answer, "Album"), Some("Third".to_string()));
    assert_eq!(metadatum_text(&answer, "Released"), Some("1999".to_string()));
    assert_eq!(metadatum_text(&answer, "Label"), None);
    assert_eq!(metadatum_text(&answer, "album"), None);
}

#[test]
fn metadatum_text_of_answers_without_metadata() {
    assert_eq!(metadatum_text(&document("{}"), "Album"), None);
    assert_eq!(metadatum_text(&document(r#"{"track": {"sections": {}}}"#), "Album"), None);
    assert_eq!(metadatum_text(&document(r#"{"track": {"sections": [1, "x", {"metadata": 3}]}}"#), "Album"), None);
    let many = document(
        r#"{"track": {"sections": [{}, {}, {}, {}, {}, {}, {}, {}, {}, {}, {"metadata": [
            {"title": "x"}, {"title": "x"}, {"title": "x"}, {"title": "x"}, {"title": "x"},
            {"title": "x"}, {"title": "x"}, {"title": "x"}, {"title": "x"}, {"title": "x"},
            {"title": "Album", "text": "Eleventh"}
        ]}]}}"#,
    );
    assert_eq!(metadatum_text(&many, "Album"), Some("Eleventh".to_string()));
}

#[test]
fn cover_image_url_is_the_large_cover() {
    assert_eq!(
        cover_image_url(&document(ANSWER)),
        Some("https://example.org/large.jpg".to_string())
    );
    assert_eq!(cover_image_url(&document(r#"{"track": {"images": {}}}"#)), None);
}

#[test]
fn recognized_document_carries_the_compact_answer() {
    let answer = document(ANSWER);
    let track = recognize_document(&answer).unwrap();
    assert_eq!(track.track_key, "549952578");
    assert_eq!(track.artist_name, "Daft Punk");
    assert_eq!(track.shazam_json, answer.to_string());
    assert!(matches!(
        recognize_document(&document(r#"{"matches": []}"#)),
        Err(RecognitionError::NoMatch)
    ));
}

#[test]
fn recognize_answer_gives_each_outcome() {
    let track = recognize_answer(200, ANSWER.as_bytes()).unwrap();
    assert_eq!(track.song_name, "Veridis Quo");
    assert_eq!(track.album_name, Some("Discovery".to_string()));
    assert!(matches!(recognize_answer(429, ANSWER.as_bytes()), Err(RecognitionError::RateLimited)));
    assert!(matches!(
        recognize_answer(200, b"{\"matches\": []}"),
        Err(RecognitionError::NoMatch)
    ));
    assert!(matches!(
        recognize_answer(200, b"<html>"),
        Err(RecognitionError::MalformedResponse(_))
    ));
}

#[test]
fn recognize_exchange_adds_the_unreachable_service() {
    assert!(matches!(recognize_exchange(None), Err(RecognitionError::Unreachable)));
    let answer = HttpAnswer { status: 200, body: ANSWER.as_bytes().to_vec() };
    assert_eq!(recognize_exchange(Some(answer)).unwrap().track_key, "549952578");
    let limited = HttpAnswer { status: 429, body: ANSWER.as_bytes().to_vec() };
    assert!(matches!(recognize_exchange(Some(limited)), Err(RecognitionError::RateLimited)));
}

#[test]
fn failed_request_is_dispatched_with_its_text_alone() {
    let sent = dispatch_outcome(
        Err(RecognitionError::RequestFailed("Invalid URL".to_string())),
        &texts(),
    );
    assert_eq!(sent.presentation.len(), 1);
    assert!(matches!(&sent.presentation[0], GUIMessage::ErrorMessage(t) if t == "Invalid URL"));
    assert!(matches!(sent.capture, MicrophoneMessage::ProcessingDone));
}
