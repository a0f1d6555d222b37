use buzzer_control_webserver::args::{default_html_folder, default_port, default_tls_directory};
use buzzer_control_webserver::server::{plain_listen_address, tls_file_paths};
use buzzer_control_webserver::led::led_signals_handler;
use buzzer_control_webserver::text::{decimal_string, joined, str_eq};

#[test]
fn decimal_string_renders_numbers() {
    assert_eq!(decimal_string(0), "0");
    assert_eq!(decimal_string(7), "7");
    assert_eq!(decimal_string(10), "10");
    assert_eq!(decimal_string(4321), "4321");
    assert_eq!(decimal_string(u64::MAX), "18446744073709551615");
}

#[test]
fn str_eq_compares_characters() {
    assert!(str_eq("off", "off"));
    assert!(!str_eq("off", "of"));
    assert!(!str_eq("off", "ofF"));
    assert!(str_eq("", ""));
    assert!(str_eq("grüße", "grüße"));
    assert!(!str_eq("grüße", "grüsse"));
}

#[test]
fn joined_concatenates() {
    assert_eq!(joined("-q", "95"), "-q95");
    assert_eq!(joined("", ""), "");
}

#[test]
fn unknown_led_answers_quote_like_debug() {
    let r = led_signals_handler(Some("line\n"), Some("a\\b"));
    assert_eq!(r.response, "unknown_signal: led_id: \"line\\n\", led_signal: Some(\"a\\\\b\")");
    let r = led_signals_handler(Some("plain_ID_7"), None);
    assert_eq!(r.response, "unknown_signal: led_id: \"plain_ID_7\", led_signal: None");
}

#[test]
fn defaults_of_the_command_line() {
    assert_eq!(default_tls_directory(), "./");
    assert_eq!(default_port(), 4321);
    assert_eq!(default_html_folder(), "/home/nt_user/html/index.html");
}

#[test]
fn tls_files_are_in_the_tls_directory() {
    let (cert, key) = tls_file_paths("certificates");
    assert_eq!(cert, "certificates/cert.pem");
    assert_eq!(key, "certificates/key.pem");
    let (cert, key) = tls_file_paths("/etc/tls");
    assert_eq!(cert, "/etc/tls/cert.pem");
    assert_eq!(key, "/etc/tls/key.pem");
    let (cert, key) = tls_file_paths(&default_tls_directory());
    assert_eq!(cert, ".//cert.pem");
    assert_eq!(key, ".//key.pem");
}

#[test]
fn plain_server_listens_on_every_interface() {
    assert_eq!(plain_listen_address(8080), "0.0.0.0:8080");
    assert_eq!(plain_listen_address(default_port()), "0.0.0.0:4321");
    assert_eq!(plain_listen_address(0), "0.0.0.0:0");
    assert_eq!(plain_listen_address(65535), "0.0.0.0:65535");
}
