use leaf::netsh::{
    add_default_ipv4_route, add_default_ipv6_route, add_interface_ipv4_address,
    add_interface_ipv6_address, delete_default_ipv4_route, delete_default_ipv6_route,
    get_default_interface, get_default_ipv4_gateway, get_default_ipv4_interface_index,
    get_default_ipv4_route_entry, get_default_ipv6_route_entry, get_interface_entries,
    get_interface_entry, get_interface_index, get_ipv4_forwarding, get_ipv4_route_entries,
    get_ipv6_forwarding, is_whitespace, parse_table, split_lines, split_words,
};

const ROUTES: &str = "\r\nPublish  Type      Met  Prefix                    Idx  Gateway/Interface Name\r\n-------  --------  ---  ------------------------  ---  ------------------------\r\nNo       Manual    0    0.0.0.0/0                  12  10.0.0.1\r\nNo       System    256  127.0.0.0/8                 1  Loopback Pseudo-Interface 1\r\nNo       Manual    0    0.0.0.0/0                  18  192.168.1.1\r\n\r\n";

const INTERFACES: &str = "\r\nIdx     Met         MTU          State                Name\r\n---  ----------  ----------  ------------  ---------------------------\r\n  1          75  4294967295  connected     Loopback Pseudo-Interface 1\r\n 18          25        1500  connected     Ethernet\r\n 12          35        1500  connected     Wi-Fi\r\n\r\n";

fn s(v: &[&str]) -> Vec<String> {
    v.iter().map(|x| x.to_string()).collect()
}

#[test]
fn whitespace_set() {
    assert!(is_whitespace(' '));
    assert!(is_whitespace('\t'));
    assert!(is_whitespace('\u{3000}'));
    assert!(!is_whitespace('a'));
    assert!(!is_whitespace('\u{200b}'));
}

#[test]
fn lines_drop_crlf_and_final_newline() {
    let text: Vec<char> = "a\r\nb\n\nc".chars().collect();
    let ls: Vec<String> = split_lines(&text).into_iter().map(|l| l.into_iter().collect()).collect();
    assert_eq!(ls, s(&["a", "b", "", "c"]));
    let text: Vec<char> = "x\n".chars().collect();
    assert_eq!(split_lines(&text).len(), 1);
    let text: Vec<char> = "y\r".chars().collect();
    let ls: Vec<String> = split_lines(&text).into_iter().map(|l| l.into_iter().collect()).collect();
    assert_eq!(ls, s(&["y\r"]));
    assert_eq!(split_lines(&Vec::new()).len(), 0);
}

#[test]
fn words_split_on_runs_of_whitespace() {
    let line: Vec<char> = "  No   Manual\t0  ".chars().collect();
    assert_eq!(split_words(&line), s(&["No", "Manual", "0"]));
    let blank: Vec<char> = " \t ".chars().collect();
    assert!(split_words(&blank).is_empty());
}

#[test]
fn table_rows_skip_header_and_blank_lines() {
    let rows = parse_table(ROUTES);
    assert_eq!(rows.len(), 3);
    assert_eq!(rows[0], s(&["No", "Manual", "0", "0.0.0.0/0", "12", "10.0.0.1"]));
    assert_eq!(rows, get_ipv4_route_entries(ROUTES));
    assert_eq!(get_interface_entries(INTERFACES).len(), 3);
    assert!(parse_table("a\nb\n").is_empty());
}

#[test]
fn default_route_is_the_last_one() {
    assert_eq!(
        get_default_ipv4_route_entry(ROUTES),
        s(&["No", "Manual", "0", "0.0.0.0/0", "18", "192.168.1.1"])
    );
    assert_eq!(get_default_ipv4_gateway(ROUTES), "192.168.1.1");
    assert_eq!(get_default_ipv4_interface_index(ROUTES), "18");
}

#[test]
fn interface_lookup() {
    assert_eq!(get_interface_entry("Ethernet", INTERFACES), s(&["18", "25", "1500", "connected", "Ethernet"]));
    assert_eq!(get_interface_index("Wi-Fi", INTERFACES), "12");
    assert_eq!(get_interface_index("Loopback", INTERFACES), "1");
}

#[test]
fn default_interface_name() {
    let show = "\nIdx     Met         MTU          State                Name\n---  ----------  ----------  ------------  ---------------------------\n  1          75  4294967295  connected     Loopback\n 18          25        1500  connected     Ethernet\n";
    assert_eq!(get_default_interface(ROUTES, show), "Ethernet");
}

#[test]
fn ipv6_route_line() {
    assert_eq!(get_default_ipv6_route_entry("\nh\n-\nNo  Manual  256  ::/0  3  fe80::1\nz"), "No  Manual  256  ::/0  3  fe80::1");
}

#[test]
fn forwarding_is_reported_off() {
    assert!(!get_ipv4_forwarding());
    assert!(!get_ipv6_forwarding());
}

#[test]
fn interface_address_commands() {
    assert_eq!(
        add_interface_ipv4_address("tun0", [10, 1, 2, 9], [10, 1, 2, 1], [255, 255, 255, 0]),
        s(&["interface", "ipv4", "set", "address", "tun0", "static", "10.1.2.9", "255.255.255.0", "10.1.2.1", "store=active"])
    );
    assert_eq!(
        add_interface_ipv6_address("tun0", "fd00::2"),
        s(&["interface", "ipv6", "set", "address", "interface=tun0", "address=fd00::2", "store=active"])
    );
}

#[test]
fn route_commands() {
    assert_eq!(
        add_default_ipv4_route([10, 1, 2, 1], "Wi-Fi", INTERFACES),
        s(&["interface", "ipv4", "add", "route", "0.0.0.0/0", "12", "10.1.2.1", "store=active"])
    );
    assert_eq!(
        add_default_ipv6_route("fe80::1", "Ethernet", INTERFACES),
        s(&["interface", "ipv6", "add", "route", "::/0", "18", "fe80::1", "store=active"])
    );
    assert_eq!(
        delete_default_ipv4_route(Some("Ethernet".to_string()), INTERFACES),
        Some(s(&["interface", "ipv4", "delete", "route", "0.0.0.0/0", "if=18", "store=active"]))
    );
    assert_eq!(
        delete_default_ipv6_route(Some("Wi-Fi".to_string()), INTERFACES),
        Some(s(&["interface", "ipv6", "delete", "route", "0.0.0.0/0", "if", "12", "store=active"]))
    );
    assert_eq!(delete_default_ipv4_route(None, INTERFACES), None);
}
