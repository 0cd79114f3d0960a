use songrec::cli::{log_levels, CLIOutputType, CLIParameters, LogLevel};

#[test]
fn output_type_from_flags() {
    assert_eq!(CLIOutputType::from_flags(false, false), CLIOutputType::SongName);
    assert_eq!(CLIOutputType::from_flags(true, false), CLIOutputType::JSON);
    assert_eq!(CLIOutputType::from_flags(false, true), CLIOutputType::CSV);
    assert_eq!(CLIOutputType::from_flags(true, true), CLIOutputType::JSON);
}

#[test]
fn listen_parameters() {
    let p = CLIParameters::listen(true, Some("mic".to_string()), 12, true, false, true);
    assert!(!p.enable_mpris);
    assert!(p.list_devices);
    assert!(!p.recognize_once);
    assert_eq!(p.audio_device, Some("mic".to_string()));
    assert_eq!(p.request_interval, 12);
    assert_eq!(p.input_file, None);
    assert_eq!(p.output_type, CLIOutputType::CSV);
    assert!(!p.single_shot());
    assert!(!p.file_driven());
    assert!(!p.mpris_wanted());
    let q = CLIParameters::listen(false, None, 10, false, false, false);
    assert!(q.enable_mpris);
    assert!(q.mpris_wanted());
}

#[test]
fn recognize_parameters() {
    let p = CLIParameters::recognize(false, None, 10, Some("a.mp3".to_string()), true, false);
    assert!(!p.enable_mpris);
    assert!(p.recognize_once);
    assert_eq!(p.input_file, Some("a.mp3".to_string()));
    assert_eq!(p.output_type, CLIOutputType::JSON);
    assert!(p.single_shot());
    assert!(p.file_driven());
    assert!(!p.mpris_wanted());
}

#[test]
fn microphone_to_recognized_song_parameters() {
    let p = CLIParameters::microphone_to_recognized_song(false, Some("mic".to_string()), 3);
    assert!(!p.enable_mpris);
    assert!(p.recognize_once);
    assert_eq!(p.audio_device, Some("mic".to_string()));
    assert_eq!(p.request_interval, 3);
    assert_eq!(p.input_file, None);
    assert_eq!(p.output_type, CLIOutputType::JSON);
    assert!(p.single_shot());
    assert!(!p.file_driven());
}

#[test]
fn parameters_without_command() {
    let p = CLIParameters::without_command();
    assert!(p.enable_mpris);
    assert!(!p.list_devices);
    assert!(!p.recognize_once);
    assert_eq!(p.audio_device, None);
    assert_eq!(p.request_interval, 10);
    assert_eq!(p.input_file, None);
    assert_eq!(p.output_type, CLIOutputType::SongName);
}

#[test]
fn file_makes_a_session_single_shot() {
    let mut p = CLIParameters::without_command();
    p.input_file = Some("a.wav".to_string());
    assert!(p.single_shot());
    assert!(p.file_driven());
    assert!(!p.mpris_wanted());
}

#[test]
fn log_levels_by_verbosity() {
    assert_eq!(log_levels(0).libraries, LogLevel::Warn);
    assert_eq!(log_levels(0).application, LogLevel::Info);
    assert_eq!(log_levels(1).libraries, LogLevel::Warn);
    assert_eq!(log_levels(1).application, LogLevel::Debug);
    assert_eq!(log_levels(2).libraries, LogLevel::Info);
    assert_eq!(log_levels(2).application, LogLevel::Debug);
    assert_eq!(log_levels(3).libraries, LogLevel::Trace);
    assert_eq!(log_levels(3).application, LogLevel::Trace);
    assert_eq!(log_levels(200).libraries, LogLevel::Trace);
}
