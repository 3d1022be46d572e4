use bakeneko::xdg::{join, uid_from_status, Xdg};

fn xdg() -> Xdg {
    Xdg {
        env_home: Some("/home/u".into()),
        env_data_home: Some(String::new()),
        env_config_home: None,
        env_cache_home: Some("/c".into()),
        env_runtime_dir: None,
        uid: 1000,
    }
}

#[test]
fn directories_follow_xdg() {
    let x = xdg();
    assert_eq!(x.data_root(), "/home/u/.local/share/bakeneko");
    assert_eq!(x.config_root(), "/home/u/.config/bakeneko");
    assert_eq!(x.cache_root(), "/c/bakeneko");
    assert_eq!(x.daemon_socket(), "/tmp/bakeneko-1000/bakeneko/daemon.sock");
    assert_eq!(x.downloads_root(), "/home/u/.local/share/bakeneko/downloads");
    assert_eq!(x.settings_path(), "/home/u/.config/bakeneko/settings.json");
    assert_eq!(x.required_dirs().len(), 5);
}

#[test]
fn uid_comes_from_proc_status() {
    assert_eq!(uid_from_status("Name:\tx\nUid:\t1001\t1001\t1001\t1001\n"), 1001);
    assert_eq!(uid_from_status("Name:\tx\n"), 1000);
    assert_eq!(join("/a/", "b"), "/a/b");
    assert_eq!(join("", "b"), "b");
}
