use snipboard::addresses::{server_addresses, visit_url, Interface};

fn v4(ip: &str) -> Interface {
    Interface { ip: ip.to_string(), v6: false }
}

fn v6(ip: &str) -> Interface {
    Interface { ip: ip.to_string(), v6: true }
}

#[test]
fn one_listen_address_is_announced_alone() {
    let out = server_addresses(
        false,
        "192.168.1.5:8080".to_string(),
        8080,
        Some("box".to_string()),
        &vec![v4("10.0.0.1")],
    );
    assert_eq!(out, vec!["192.168.1.5:8080".to_string()]);
}

#[test]
fn listening_everywhere_announces_name_then_interfaces() {
    let out = server_addresses(
        true,
        "0.0.0.0:22888".to_string(),
        22888,
        Some("box".to_string()),
        &vec![v4("127.0.0.1"), v6("::1"), v4("192.168.1.5")],
    );
    assert_eq!(
        out,
        vec![
            "box.local:22888".to_string(),
            "127.0.0.1:22888".to_string(),
            "[::1]:22888".to_string(),
            "192.168.1.5:22888".to_string(),
        ]
    );
}

#[test]
fn without_a_name_only_interfaces_are_announced() {
    let out = server_addresses(true, "[::]:80".to_string(), 80, None, &vec![v6("fe80::1"), v4("10.1.2.3")]);
    assert_eq!(out, vec!["[fe80::1]:80".to_string(), "10.1.2.3:80".to_string()]);
}

#[test]
fn no_name_and_no_interfaces_announce_nothing() {
    let out = server_addresses(true, "0.0.0.0:1".to_string(), 1, None, &vec![]);
    assert!(out.is_empty());
}

#[test]
fn ports_are_written_in_full() {
    let out = server_addresses(true, "0.0.0.0:0".to_string(), 0, Some("h".to_string()), &vec![v4("1.2.3.4")]);
    assert_eq!(out, vec!["h.local:0".to_string(), "1.2.3.4:0".to_string()]);
    let out = server_addresses(true, "0.0.0.0:65535".to_string(), 65535, Some("h".to_string()), &vec![]);
    assert_eq!(out, vec!["h.local:65535".to_string()]);
}

#[test]
fn version_six_addresses_stand_in_brackets() {
    let out = server_addresses(
        true,
        String::new(),
        4711,
        None,
        &vec![v4("127.0.0.1"), v6("::1"), v6("fe80::dead:beef")],
    );
    assert_eq!(
        out,
        vec![
            "127.0.0.1:4711".to_string(),
            "[::1]:4711".to_string(),
            "[fe80::dead:beef]:4711".to_string(),
        ]
    );
}

#[test]
fn url_of_the_first_address() {
    assert_eq!(
        visit_url(&vec!["box.local:22888".to_string(), "127.0.0.1:22888".to_string()]),
        Some("http://box.local:22888/".to_string())
    );
    assert_eq!(visit_url(&vec![]), None);
}
