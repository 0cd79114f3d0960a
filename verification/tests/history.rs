use songrec::history::SongHistoryRecord;
use songrec::messages::{GUIMessage, SongRecognizedMessage};
use songrec::tray::{activate, menu, TrayEntry, TRAY_ICON_NAME, TRAY_ID, TRAY_TITLE};

fn track(album: Option<&str>, year: Option<&str>, genre: Option<&str>) -> SongRecognizedMessage {
    SongRecognizedMessage {
        artist_name: "Daft Punk".to_string(),
        album_name: album.map(|a| a.to_string()),
        song_name: "Veridis Quo".to_string(),
        track_key: "549952578".to_string(),
        release_year: year.map(|y| y.to_string()),
        genre: genre.map(|g| g.to_string()),
        shazam_json: "{}".to_string(),
    }
}

#[test]
fn history_record_of_a_full_track() {
    let record = SongHistoryRecord::from_track(
        track(Some("Discovery"), Some("2001"), Some("Electronic")),
        "Wed Oct 28 20:33:00 2026".to_string(),
    );
    assert_eq!(record.song_name, "Daft Punk - Veridis Quo");
    assert_eq!(record.album, Some("Discovery".to_string()));
    assert_eq!(record.track_key, Some("549952578".to_string()));
    assert_eq!(record.release_year, Some("2001".to_string()));
    assert_eq!(record.genre, Some("Electronic".to_string()));
    assert_eq!(record.recognition_date, "Wed Oct 28 20:33:00 2026");
}

#[test]
fn history_record_leaves_unknown_fields_empty() {
    let record = SongHistoryRecord::from_track(track(None, None, None), "now".to_string());
    assert_eq!(record.album, Some(String::new()));
    assert_eq!(record.release_year, Some(String::new()));
    assert_eq!(record.genre, Some(String::new()));
    assert_eq!(record.track_key, Some("549952578".to_string()));
}

#[test]
fn tray_menu_opens_and_quits() {
    assert_eq!(menu(), vec![TrayEntry::OpenWindow, TrayEntry::Quit]);
    assert!(matches!(activate(TrayEntry::OpenWindow), GUIMessage::ShowWindow));
    assert!(matches!(activate(TrayEntry::Quit), GUIMessage::QuitApplication));
}

#[test]
fn tray_names() {
    assert_eq!(TRAY_ID, "songrec");
    assert_eq!(TRAY_ICON_NAME, "re.fossplant.songrec");
    assert_eq!(TRAY_TITLE, "SongRec");
}
