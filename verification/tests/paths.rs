use xbelite2::daemon::socket_path_in;
use xbelite2::devices::accept_bt_hidraw;
use xbelite2::paths::{cache_path_in, config_dir_in, config_file_in, join_path};

#[test]
fn path_joining() {
    assert_eq!(join_path("/home/u", "xbelite2"), "/home/u/xbelite2");
    assert_eq!(join_path("/home/u/", "xbelite2"), "/home/u/xbelite2");
    assert_eq!(join_path("", "xbelite2"), "xbelite2");
    assert_eq!(socket_path_in(Some("/run/user/1000/")), "/run/user/1000/xbelite2.sock");
}

#[test]
fn configuration_directories() {
    assert_eq!(config_dir_in(Some("/cfg"), Some("/home/u"), "/etc/xbelite2"), "/cfg/xbelite2");
    assert_eq!(config_dir_in(None, Some("/home/u"), "/etc/xbelite2"), "/home/u/.config/xbelite2");
    assert_eq!(config_dir_in(None, None, "/etc/xbelite2"), "/etc/xbelite2");
    assert_eq!(config_file_in("/home/u/.config/xbelite2", "misc:/dev/x"), "/home/u/.config/xbelite2/misc:/dev/x.json");
    assert_eq!(config_file_in("/cfg/", "elite2"), "/cfg/elite2.json");
}

#[test]
fn cache_paths() {
    assert_eq!(cache_path_in(Some("/c"), Some("/home/u")), Some("/c/xbelite2/hw_profiles.json".to_string()));
    assert_eq!(
        cache_path_in(None, Some("/home/u")),
        Some("/home/u/.cache/xbelite2/hw_profiles.json".to_string())
    );
    assert_eq!(cache_path_in(None, None), None);
}

#[test]
fn bluetooth_hidraw_choice() {
    assert!(accept_bt_hidraw(0x045E, 5));
    assert!(!accept_bt_hidraw(0x045E, 3));
    assert!(!accept_bt_hidraw(0x054C, 5));
}
