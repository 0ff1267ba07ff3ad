use wallpaper_refresh::applicator::set_wallpaper_script;
use wallpaper_refresh::artifact::{get_app_data_dir, get_wallpaper_path, DataLocation, LocalPath};
use wallpaper_refresh::controller::PollerHandle;
use wallpaper_refresh::cycle::{is_wallpaper_exists, Response};
use wallpaper_refresh::device::{get_or_create_uuid, DeviceIdentifier};
use wallpaper_refresh::feed::{feed_request, Header};
use wallpaper_refresh::menu::{menu_action, menu_entries, MenuAction, MenuEntry};
use wallpaper_refresh::mode::{RefreshMode, REFRESH_INTERVAL};
use wallpaper_refresh::poller::{Command, Phase, Poller};

#[test]
fn mode_toggles() {
    let (off, a, b) = (RefreshMode::Off, RefreshMode::RegionA, RefreshMode::RegionB);
    assert_eq!(off.toggle(a), a);
    assert_eq!(off.toggle(b), b);
    assert_eq!(off.toggle(off), off);
    assert_eq!(a.toggle(a), off);
    assert_eq!(a.toggle(b), b);
    assert_eq!(a.toggle(off), off);
    assert_eq!(b.toggle(a), a);
    assert_eq!(b.toggle(b), off);
    assert!(!off.is_active());
    assert!(a.is_active());
    assert!(b.is_active());
}

#[test]
fn mode_feeds() {
    assert_eq!(RefreshMode::Off.feed_url(), None);
    assert_eq!(RefreshMode::RegionA.feed_url(), Some("https://bing.wdbyte.com/zh-cn/today"));
    assert_eq!(RefreshMode::RegionB.feed_url(), Some("https://bing.wdbyte.com/today"));
    assert_eq!(REFRESH_INTERVAL, 600);
}

#[test]
fn wallpaper_path_names_the_artifact() {
    assert_eq!(
        get_wallpaper_path("/data", "2024-01-01"),
        LocalPath { dir: "/data".to_string(), file_name: "2024-01-01.jpg".to_string() }
    );
    assert_eq!(
        get_wallpaper_path("", ""),
        LocalPath { dir: String::new(), file_name: ".jpg".to_string() }
    );
    assert_ne!(get_wallpaper_path("/data", "a"), get_wallpaper_path("/data", "b"));
}

#[test]
fn wallpaper_exists_only_on_a_positive_probe() {
    assert!(is_wallpaper_exists(&Response::Probed(true)));
    assert!(!is_wallpaper_exists(&Response::Probed(false)));
    assert!(!is_wallpaper_exists(&Response::Persisted(true)));
    assert!(!is_wallpaper_exists(&Response::Applied(true)));
    assert!(!is_wallpaper_exists(&Response::Resolved(None)));
    assert!(!is_wallpaper_exists(&Response::Downloaded(Some(vec![1]))));
}

#[test]
fn data_location_by_platform() {
    assert_eq!(
        get_app_data_dir(true),
        DataLocation { variable: "APPDATA", folder: "bing-wallpaper-client" }
    );
    assert_eq!(
        get_app_data_dir(false),
        DataLocation { variable: "HOME", folder: ".bing-wallpaper-client" }
    );
}

#[test]
fn stored_identifier_is_reused_trimmed() {
    let id = get_or_create_uuid(Some("  6f1c2a3e-0b1d-4c2e-9f3a-1a2b3c4d5e6f \n"));
    assert_eq!(id.value, "6f1c2a3e-0b1d-4c2e-9f3a-1a2b3c4d5e6f");
    assert!(!id.created);
    let id = get_or_create_uuid(Some("abc"));
    assert_eq!(id.value, "abc");
    assert!(!id.created);
    let id = get_or_create_uuid(Some("\u{3000}a b\u{85}\t"));
    assert_eq!(id.value, "a b");
    let id = get_or_create_uuid(Some(" \r\n"));
    assert_eq!(id.value, "");
    assert!(!id.created);
    let id = get_or_create_uuid(Some(""));
    assert_eq!(id.value, "");
    assert!(!id.created);
}

#[test]
fn new_identifier_is_a_random_uuid() {
    let id = get_or_create_uuid(None);
    assert!(id.created);
    let text: Vec<char> = id.value.chars().collect();
    assert_eq!(text.len(), 36);
    for (i, c) in text.iter().enumerate() {
        if i == 8 || i == 13 || i == 18 || i == 23 {
            assert_eq!(*c, '-');
        } else {
            assert!(matches!(*c, '0'..='9' | 'a'..='f'));
        }
    }
    assert_eq!(text[14], '4');
    assert!(matches!(text[19], '8' | '9' | 'a' | 'b'));
    let other = get_or_create_uuid(None);
    assert_ne!(id.value, other.value);
    let kept = get_or_create_uuid(Some(id.value.as_str()));
    assert_eq!(kept.value, id.value);
    assert!(!kept.created);
}

#[test]
fn feed_request_carries_version_and_device() {
    let request = feed_request(RefreshMode::RegionA, "device-1").unwrap();
    assert_eq!(request.url, "https://bing.wdbyte.com/zh-cn/today");
    assert_eq!(
        request.headers,
        vec![
            Header { name: "client-version".to_string(), value: "0.1.0".to_string() },
            Header { name: "client-device-uuid".to_string(), value: "device-1".to_string() },
        ]
    );
    let request = feed_request(RefreshMode::RegionB, "").unwrap();
    assert_eq!(request.url, "https://bing.wdbyte.com/today");
    assert_eq!(request.headers[1].value, "");
    assert_eq!(feed_request(RefreshMode::Off, "device-1"), None);
}

#[test]
fn menu_marks_the_active_mode() {
    let entry = |id, label, enabled| MenuEntry { id, label, enabled };
    assert_eq!(
        menu_entries(RefreshMode::Off),
        vec![
            entry("daily_china", "每日壁纸刷新(中国)", true),
            entry("daily_global", "每日壁纸刷新(国际)", true),
            entry("separator1", "--------------", false),
            entry("open_website", "打开必应壁纸网站", true),
            entry("quit", "退出", true),
        ]
    );
    let china = menu_entries(RefreshMode::RegionA);
    assert_eq!(china[0].label, "每日壁纸刷新(中国) ✓");
    assert_eq!(china[1].label, "每日壁纸刷新(国际)");
    let global = menu_entries(RefreshMode::RegionB);
    assert_eq!(global[0].label, "每日壁纸刷新(中国)");
    assert_eq!(global[1].label, "每日壁纸刷新(国际) ✓");
    assert_eq!(global.len(), 5);
}

#[test]
fn menu_actions() {
    assert_eq!(menu_action("daily_china"), MenuAction::Toggle(RefreshMode::RegionA));
    assert_eq!(menu_action("daily_global"), MenuAction::Toggle(RefreshMode::RegionB));
    assert_eq!(menu_action("open_website"), MenuAction::OpenWebsite);
    assert_eq!(menu_action("quit"), MenuAction::Quit);
    assert_eq!(menu_action("separator1"), MenuAction::Unhandled);
    assert_eq!(menu_action(""), MenuAction::Unhandled);
    assert_eq!(menu_action("Quit"), MenuAction::Unhandled);
}

#[test]
fn poller_waits_then_cycles_until_stopped() {
    let handle = PollerHandle { mode: RefreshMode::RegionB, serial: 7 };
    let mut poller = Poller::start(handle);
    assert_eq!(poller.handle(), handle);
    assert_eq!(poller.phase(), Phase::Idle);
    assert_eq!(poller.step(false), Command::Wait { seconds: 600 });
    assert_eq!(poller.phase(), Phase::Rested);
    assert_eq!(
        poller.step(false),
        Command::RunCycle { force: false, mode: RefreshMode::RegionB }
    );
    assert_eq!(poller.step(false), Command::Wait { seconds: 600 });
    assert_eq!(poller.step(true), Command::Exit);
    assert_eq!(poller.phase(), Phase::Stopped);
    assert_eq!(poller.step(false), Command::Exit);
    assert_eq!(poller.step(false), Command::Exit);
    assert_eq!(poller.handle(), handle);
}

#[test]
fn poller_stopped_before_its_first_wait() {
    let mut poller = Poller::start(PollerHandle { mode: RefreshMode::RegionA, serial: 0 });
    assert_eq!(poller.step(true), Command::Exit);
    assert_eq!(poller.step(false), Command::Exit);
}

#[test]
fn script_quotes_the_path() {
    assert_eq!(
        set_wallpaper_script("/Users/me/.bing-wallpaper-client/2024-01-01.jpg"),
        "tell application \"System Events\" to tell every desktop to set picture to \"/Users/me/.bing-wallpaper-client/2024-01-01.jpg\""
    );
    assert_eq!(
        set_wallpaper_script(""),
        "tell application \"System Events\" to tell every desktop to set picture to \"\""
    );
}

#[test]
fn identifier_kept_or_made() {
    assert_eq!(
        DeviceIdentifier::kept("\n id-1 \n"),
        DeviceIdentifier { value: "id-1".to_string(), created: false }
    );
    assert_eq!(
        DeviceIdentifier::made(" id-2 ".to_string()),
        DeviceIdentifier { value: " id-2 ".to_string(), created: true }
    );
}
