use gossip_node::arguments::{
    choose_random_name, ensure_valid_port_number, parse_name_and_number, parse_port,
    ArgumentError, MIN_PORT,
};

fn args(list: &[&str]) -> Vec<String> {
    list.iter().map(|arg| arg.to_string()).collect()
}

fn parse(list: &[&str]) -> Result<(u16, String, Option<u16>), ArgumentError> {
    parse_name_and_number(args(list), String::from("ada"))
}

#[test]
fn port_is_read_as_std_reads_it() {
    let texts = [
        "0", "1", "1024", "5000", "65535", "65536", "99999", "+5000", "+", "", "-1", "0005000",
        "00000000000000000000001024", "5000 ", " 5000", "50a0", "5_000", "0x10", "++1", "1+",
        "123456789012345678901234567890", "655350", "70000", "٣",
    ];
    for text in texts {
        assert_eq!(parse_port(text), text.parse::<u16>().ok(), "{:?}", text);
    }
}

#[test]
fn port_values_are_exact() {
    assert_eq!(parse_port("5000"), Some(5000));
    assert_eq!(parse_port("+65535"), Some(65535));
    assert_eq!(parse_port("007"), Some(7));
    assert_eq!(parse_port("65536"), None);
    assert_eq!(parse_port(""), None);
}

#[test]
fn ports_below_the_minimum_are_refused() {
    assert_eq!(MIN_PORT, 1024);
    assert_eq!(ensure_valid_port_number(1023), Err(ArgumentError::PortBelowMinimum));
    assert_eq!(ensure_valid_port_number(0), Err(ArgumentError::PortBelowMinimum));
    assert_eq!(ensure_valid_port_number(1024), Ok(1024));
    assert_eq!(ensure_valid_port_number(65535), Ok(65535));
}

#[test]
fn port_alone_is_accepted() {
    assert_eq!(parse(&["node", "5000"]), Ok((5000, String::from("ada"), None)));
}

#[test]
fn port_and_peer_are_accepted() {
    assert_eq!(parse(&["node", "5000", "5001"]), Ok((5000, String::from("ada"), Some(5001))));
    assert_eq!(
        parse(&["node", "1024", "65535", "more"]),
        Ok((1024, String::from("ada"), Some(65535)))
    );
}

#[test]
fn missing_port_is_refused() {
    assert_eq!(parse(&[]), Err(ArgumentError::MissingPort));
    assert_eq!(parse(&["node"]), Err(ArgumentError::MissingPort));
}

#[test]
fn invalid_port_is_refused() {
    assert_eq!(parse(&["node", "port"]), Err(ArgumentError::InvalidPort));
    assert_eq!(parse(&["node", "70000", "5001"]), Err(ArgumentError::InvalidPort));
    assert_eq!(parse(&["node", "", "80"]), Err(ArgumentError::InvalidPort));
}

#[test]
fn low_port_is_refused() {
    assert_eq!(parse(&["node", "80"]), Err(ArgumentError::PortBelowMinimum));
    assert_eq!(parse(&["node", "1023", "peer"]), Err(ArgumentError::PortBelowMinimum));
    assert_eq!(parse(&["node", "5000", "1023"]), Err(ArgumentError::PortBelowMinimum));
}

#[test]
fn invalid_peer_port_is_refused() {
    assert_eq!(parse(&["node", "5000", "peer"]), Err(ArgumentError::InvalidPeerPort));
    assert_eq!(parse(&["node", "5000", "65536"]), Err(ArgumentError::InvalidPeerPort));
}

#[test]
fn no_name_is_drawn_from_an_empty_list() {
    assert_eq!(choose_random_name(&Vec::new()), None);
}

#[test]
fn the_only_name_is_drawn() {
    assert_eq!(choose_random_name(&args(&["ada"])), Some(String::from("ada")));
}

#[test]
fn drawn_name_is_one_of_the_list() {
    let names = args(&["ada", "grace", "edsger", "barbara"]);
    let mut drawn = std::collections::HashSet::new();
    for _ in 0..400 {
        let name = choose_random_name(&names).unwrap();
        assert!(names.contains(&name));
        drawn.insert(name);
    }
    assert!(drawn.len() > 1);
}
