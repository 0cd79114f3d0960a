//! The history of recognized songs.

use vstd::prelude::*;
use crate::messages::{SongRecognizedMessage, SongRecognizedMessageView, option_text};
use crate::session::{title_line, track_title};

verus! {

/// One line of the history of recognized songs.
#[derive(Clone, Debug)]
pub struct SongHistoryRecord {
    pub song_name: String,
    pub album: Option<String>,
    pub track_key: Option<String>,
    pub release_year: Option<String>,
    pub genre: Option<String>,
    pub recognition_date: String,
}

/// Mathematical value of a [`SongHistoryRecord`].
pub struct SongHistoryRecordView {
    pub song_name: Seq<char>,
    pub album: Option<Seq<char>>,
    pub track_key: Option<Seq<char>>,
    pub release_year: Option<Seq<char>>,
    pub genre: Option<Seq<char>>,
    pub recognition_date: Seq<char>,
}

impl View for SongHistoryRecord {
    type V = SongHistoryRecordView;

    open spec fn view(&self) -> SongHistoryRecordView {
        SongHistoryRecordView {
            song_name: self.song_name@,
            album: option_text(self.album),
            track_key: option_text(self.track_key),
            release_year: option_text(self.release_year),
            genre: option_text(self.genre),
            recognition_date: self.recognition_date@,
        }
    }
}

/// The text, or the empty text where there is none.
pub open spec fn text_or_empty(text: Option<Seq<char>>) -> Seq<char> {
    match text {
        Some(characters) => characters,
        None => Seq::empty(),
    }
}

/// The history line of `track`, recognized at `recognition_date`: the song
/// is named by artist and title, and what the track does not tell is left
/// empty.
pub open spec fn history_record(track: SongRecognizedMessageView, recognition_date: Seq<char>)
    -> SongHistoryRecordView {
    SongHistoryRecordView {
        song_name: track_title(track),
        album: Some(text_or_empty(track.album_name)),
        track_key: Some(track.track_key),
        release_year: Some(text_or_empty(track.release_year)),
        genre: Some(text_or_empty(track.genre)),
        recognition_date,
    }
}

fn or_empty(text: Option<String>) -> (given: String)
    ensures
        given@ == text_or_empty(option_text(text)),
{
    match text {
        Some(characters) => characters,
        None => String::new(),
    }
}

impl SongHistoryRecord {
    /// The history line of `track`, recognized at `recognition_date`.
    pub fn from_track(track: SongRecognizedMessage, recognition_date: String) -> (record: Self)
        ensures
            record@ == history_record(track@, recognition_date@),
    {
        let song_name = title_line(&track);
        SongHistoryRecord {
            song_name,
            album: Some(or_empty(track.album_name)),
            track_key: Some(track.track_key),
            release_year: Some(or_empty(track.release_year)),
            genre: Some(or_empty(track.genre)),
            recognition_date,
        }
    }
}

} // verus!
