use process_watch::config::{Config, ProcessSpec, RemoteSpec};
use process_watch::notifier::get_address;

fn relay(host: &str, on_path: &str, off_path: &str) -> Config {
    let process = ProcessSpec::new("game.exe".to_string(), Vec::new()).unwrap();
    let remote = RemoteSpec::new(host.to_string(), on_path.to_string(), off_path.to_string());
    Config::new(process, remote, 1)
}

#[test]
fn address_for_on_and_off() {
    let config = relay("192.168.1.20:8080", "/led/on", "/led/off");
    assert_eq!(get_address(&config, true), "http://192.168.1.20:8080/led/on");
    assert_eq!(get_address(&config, false), "http://192.168.1.20:8080/led/off");
}

#[test]
fn address_is_plain_concatenation() {
    let config = relay("relay.local", "on", "");
    assert_eq!(get_address(&config, true), "http://relay.localon");
    assert_eq!(get_address(&config, false), "http://relay.local");
    let bare = relay("", "", "");
    assert_eq!(get_address(&bare, true), "http://");
}

#[test]
fn address_keeps_non_ascii_text() {
    let config = relay("gerät.example:80", "/an?x=1&y=ä", "/aus");
    assert_eq!(get_address(&config, true), "http://gerät.example:80/an?x=1&y=ä");
    assert_eq!(get_address(&config, false), "http://gerät.example:80/aus");
}
