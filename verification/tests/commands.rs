use media_queue::jobs::{check_ffmpeg, start_conversion, stop_conversion};
use media_queue::session::{open_settings_window, settings_window, WindowAction, WindowSession};
use media_queue::shell::{open_output, Platform};

#[test]
fn empty_path_starts_nothing() {
    for platform in [Platform::MacOs, Platform::Windows, Platform::Linux, Platform::Other] {
        let launch = open_output(platform, String::new()).unwrap();
        assert!(launch.is_none());
    }
}

#[test]
fn each_platform_has_its_opener() {
    let mac = open_output(Platform::MacOs, "/some/dir".to_string()).unwrap().unwrap();
    assert_eq!(mac.program, "open");
    assert_eq!(mac.argument, "/some/dir");
    let windows = open_output(Platform::Windows, "C:\\out".to_string()).unwrap().unwrap();
    assert_eq!(windows.program, "explorer");
    assert_eq!(windows.argument, "C:\\out");
    let linux = open_output(Platform::Linux, "/some/dir".to_string()).unwrap().unwrap();
    assert_eq!(linux.program, "xdg-open");
    assert_eq!(linux.argument, "/some/dir");
}

#[test]
fn platform_without_opener_starts_nothing() {
    assert!(open_output(Platform::Other, "/some/dir".to_string()).unwrap().is_none());
}

#[test]
fn missing_directory_is_no_error() {
    assert!(open_output(Platform::Linux, "/no/such/dir/anywhere".to_string()).is_ok());
}

#[test]
fn first_open_builds_the_settings_window() {
    let (session, action) = open_settings_window(WindowSession::Absent);
    assert_eq!(session, WindowSession::Present);
    match action {
        WindowAction::Create(config) => {
            assert_eq!(config.label, "settings");
            assert_eq!(config.route, "index.html?settings=1");
            assert_eq!(config.title.chars().count(), 12);
            assert_eq!(config.title.chars().next(), Some('\u{41d}'));
            assert_eq!(config.width, 860);
            assert_eq!(config.height, 760);
            assert!(config.resizable);
        }
        WindowAction::Refocus => panic!("no window was built"),
    }
}

#[test]
fn open_while_present_refocuses() {
    let (session, action) = open_settings_window(WindowSession::Present);
    assert_eq!(session, WindowSession::Present);
    assert!(matches!(action, WindowAction::Refocus));
}

#[test]
fn opening_twice_builds_one_window() {
    let (first, first_action) = open_settings_window(WindowSession::Absent);
    let (second, second_action) = open_settings_window(first);
    assert!(matches!(first_action, WindowAction::Create(_)));
    assert!(matches!(second_action, WindowAction::Refocus));
    assert_eq!(second, WindowSession::Present);
}

#[test]
fn settings_window_title() {
    let config = settings_window();
    let title: Vec<u32> = config.title.chars().map(u32::from).collect();
    assert_eq!(
        title,
        vec![0x41d, 0x430, 0x43b, 0x430, 0x448, 0x442, 0x443, 0x432, 0x430, 0x43d, 0x43d, 0x44f]
    );
}

#[test]
fn ffmpeg_check_is_always_true() {
    assert_eq!(check_ffmpeg(), Ok(true));
}

#[test]
fn start_and_stop_always_succeed() {
    assert_eq!(start_conversion("/usr/bin/ffmpeg".to_string(), "/out".to_string()), Ok(()));
    assert_eq!(start_conversion(String::new(), String::new()), Ok(()));
    assert_eq!(stop_conversion(), Ok(()));
    assert_eq!(stop_conversion(), Ok(()));
}
