use std::path::Path;

use eucalyptus::config::{config_home, default_path, join, Config};

fn bytes(path: &str) -> Option<Vec<u8>> {
    Some(path.as_bytes().to_vec())
}

#[test]
fn paths_join_like_those_of_the_system() {
    for base in ["", "/", "a", "a/", "/home/me", "/home/me/", "a//"] {
        for path in ["", "/", "b", "b/c", "/b", ".config"] {
            let joined = join(base.as_bytes().to_vec(), path.as_bytes());
            let expected = Path::new(base).join(path);
            assert_eq!(String::from_utf8(joined).unwrap(), expected.to_str().unwrap());
        }
    }
}

#[test]
fn settings_are_kept_where_they_are_set_to_be() {
    assert_eq!(config_home(bytes("/etc/xdg"), bytes("/home/me")), b"/etc/xdg");
    assert_eq!(config_home(bytes(""), bytes("/home/me")), b"");
    assert_eq!(
        default_path(bytes("/etc/xdg"), None),
        b"/etc/xdg/eucalyptus-gumnut/eucalyptus-gumnut.toml"
    );
}

#[test]
fn else_settings_are_kept_at_home() {
    assert_eq!(config_home(None, bytes("/home/me")), b"/home/me/.config");
    assert_eq!(
        default_path(None, bytes("/home/me/")),
        b"/home/me/.config/eucalyptus-gumnut/eucalyptus-gumnut.toml"
    );
}

#[test]
fn without_a_home_settings_are_kept_by_a_fixed_name() {
    assert_eq!(config_home(None, None), b"~/.config");
    assert_eq!(
        default_path(None, None),
        b"~/.config/eucalyptus-gumnut/eucalyptus-gumnut.toml"
    );
}

#[test]
fn items_stay_for_three_seconds() {
    let config: Config<f64, u8> = Config::default();
    assert_eq!(config.hide_delay, 3.0);
    assert_eq!(config.item.power_profile, 0);
}
