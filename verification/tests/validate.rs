use notracking::kind::FileType;
use notracking::validate::{valid_ip, validate, validate_domain_line, validate_hostname_line, NoTrackingError};

#[test]
fn sink_addresses_are_the_two_literals() {
    assert!(valid_ip("0.0.0.0"));
    assert!(valid_ip("::"));
    assert!(!valid_ip("1.2.3.4"));
    assert!(!valid_ip(""));
    assert!(!valid_ip("0.0.0.0 "));
    assert!(!valid_ip(":"));
}

#[test]
fn domain_body_with_sink_address_is_accepted() {
    assert!(validate(FileType::Domains, "address=/ads.example.com/0.0.0.0").is_ok());
}

#[test]
fn domain_body_with_other_address_is_refused() {
    match validate(FileType::Domains, "address=/ads.example.com/1.2.3.4") {
        Err(NoTrackingError::InvalidDomain(line)) => {
            assert_eq!(line, "address=/ads.example.com/1.2.3.4")
        }
        other => panic!("unexpected: {:?}", other),
    }
}

#[test]
fn hostname_body_is_accepted() {
    assert!(validate(FileType::Hostnames, "0.0.0.0 ads.example.com").is_ok());
}

#[test]
fn hostname_body_without_space_is_refused() {
    match validate(FileType::Hostnames, "0.0.0.0ads.example.com") {
        Err(NoTrackingError::InvalidHostname(line)) => assert_eq!(line, "0.0.0.0ads.example.com"),
        other => panic!("unexpected: {:?}", other),
    }
}

#[test]
fn single_lines() {
    assert!(validate_domain_line("address=/a/::").is_ok());
    assert!(validate_domain_line("address=/a/b/::").is_err());
    assert!(validate_hostname_line(":: a").is_ok());
    assert!(validate_hostname_line(":: a b").is_err());
}

fn oracle_ip(ip: &str) -> bool {
    ip == "0.0.0.0" || ip == "::"
}

fn oracle_line(ftype: FileType, line: &str) -> bool {
    match ftype {
        FileType::Domains => {
            let split: Vec<&str> = line.split('/').collect();
            split.len() == 3 && split[0] == "address=" && oracle_ip(split[2])
        }
        FileType::Hostnames => {
            let split: Vec<&str> = line.split(' ').collect();
            split.len() == 2 && oracle_ip(split[0])
        }
    }
}

fn oracle(ftype: FileType, data: &str) -> Option<String> {
    for line in data.split('\n') {
        if line.is_empty() || line.starts_with('#') {
            continue;
        }
        if !oracle_line(ftype, line) {
            return Some(line.to_string());
        }
    }
    None
}

fn refused_line(r: Result<(), NoTrackingError>) -> Option<String> {
    match r {
        Ok(()) => None,
        Err(NoTrackingError::InvalidDomain(line)) => Some(line),
        Err(NoTrackingError::InvalidHostname(line)) => Some(line),
    }
}

#[test]
fn body_of_blank_comment_and_grammar_lines_is_accepted() {
    let domains = "# a comment\n\naddress=/a.example/0.0.0.0\naddress=/b.example/::\n\n#\n";
    assert!(validate(FileType::Domains, domains).is_ok());
    let hostnames = "#title\n0.0.0.0 a.example\n\n:: b.example\n";
    assert!(validate(FileType::Hostnames, hostnames).is_ok());
    assert!(validate(FileType::Domains, "").is_ok());
    assert!(validate(FileType::Hostnames, "\n\n\n").is_ok());
}

#[test]
fn the_first_bad_line_is_the_one_reported() {
    let body = "address=/a/0.0.0.0\naddress=/b/1.1.1.1\naddress=/c/2.2.2.2\n";
    assert_eq!(
        refused_line(validate(FileType::Domains, body)),
        Some("address=/b/1.1.1.1".to_string())
    );
    let body = "0.0.0.0 a\n#x\n:: b\n0.0.0.0  c\n";
    assert_eq!(
        refused_line(validate(FileType::Hostnames, body)),
        Some("0.0.0.0  c".to_string())
    );
}

#[test]
fn each_way_to_break_the_domain_grammar() {
    // field count
    assert!(validate_domain_line("address=/a").is_err());
    assert!(validate_domain_line("address=").is_err());
    assert!(validate_domain_line("address=/a/0.0.0.0/").is_err());
    assert!(validate_domain_line("").is_err());
    // literal prefix
    assert!(validate_domain_line("server=/a/0.0.0.0").is_err());
    assert!(validate_domain_line("address/a/0.0.0.0").is_err());
    assert!(validate_domain_line(" address=/a/0.0.0.0").is_err());
    // sink address
    assert!(validate_domain_line("address=/a/127.0.0.1").is_err());
    assert!(validate_domain_line("address=/a/").is_err());
    assert!(validate_domain_line("address=/a/0.0.0.0 ").is_err());
    // an empty domain is still three fields
    assert!(validate_domain_line("address=//0.0.0.0").is_ok());
}

#[test]
fn each_way_to_break_the_hostname_grammar() {
    assert!(validate_hostname_line("0.0.0.0").is_err());
    assert!(validate_hostname_line("0.0.0.0 a b").is_err());
    assert!(validate_hostname_line("0.0.0.0\ta").is_err());
    assert!(validate_hostname_line("127.0.0.1 a").is_err());
    assert!(validate_hostname_line(" 0.0.0.0").is_err());
    assert!(validate_hostname_line("").is_err());
    // an empty host name is still two fields
    assert!(validate_hostname_line(":: ").is_ok());
}

#[test]
fn a_refused_line_keeps_its_kind_and_text() {
    match validate_domain_line("nonsense") {
        Err(NoTrackingError::InvalidDomain(line)) => assert_eq!(line, "nonsense"),
        other => panic!("unexpected: {:?}", other),
    }
    match validate_hostname_line("nonsense") {
        Err(NoTrackingError::InvalidHostname(line)) => assert_eq!(line, "nonsense"),
        other => panic!("unexpected: {:?}", other),
    }
}

#[test]
fn messages_name_the_line_between_backticks() {
    let e = validate_domain_line("x/y").unwrap_err();
    assert_eq!(e.message(), "invalid domain line: `x/y`");
    let e = validate_hostname_line("x y").unwrap_err();
    assert_eq!(e.message(), "invalid hostname line: `x y`");
}

#[test]
fn comments_and_empty_lines_are_not_held_to_the_grammar() {
    assert!(validate(FileType::Domains, "#address=/a/1.2.3.4").is_ok());
    assert!(validate(FileType::Hostnames, "# 9.9.9.9 a b c\n").is_ok());
    // only a line that begins with the marker is a comment
    assert_eq!(
        refused_line(validate(FileType::Hostnames, " # no comment")),
        Some(" # no comment".to_string())
    );
}

#[test]
fn only_the_line_feed_parts_lines() {
    // a carriage return before the line feed belongs to the line
    assert_eq!(
        refused_line(validate(FileType::Domains, "address=/a.example/0.0.0.0\r\n")),
        Some("address=/a.example/0.0.0.0\r".to_string())
    );
    assert_eq!(
        refused_line(validate(FileType::Domains, "bad\r\nworse")),
        Some("bad\r".to_string())
    );
    assert_eq!(refused_line(validate(FileType::Domains, "\r\n")), Some("\r".to_string()));
    assert_eq!(
        refused_line(validate(FileType::Domains, "address=/a/0.0.0.0\r")),
        Some("address=/a/0.0.0.0\r".to_string())
    );
    // in the hostnames list it then belongs to the host name
    assert!(validate(FileType::Hostnames, "0.0.0.0 a.example\r\n").is_ok());
    // and a comment stays a comment
    assert!(validate(FileType::Domains, "# note\r\naddress=/a/::\n").is_ok());
}

#[test]
fn a_last_line_feed_adds_nothing() {
    assert!(validate(FileType::Domains, "address=/a/0.0.0.0\n").is_ok());
    assert!(validate(FileType::Domains, "address=/a/0.0.0.0\n\n\n").is_ok());
    assert!(validate(FileType::Hostnames, "\n").is_ok());
}

#[test]
fn text_beyond_ascii_is_reported_whole() {
    let body = "0.0.0.0 bücher.example\näöü\n";
    assert_eq!(
        refused_line(validate(FileType::Hostnames, body)),
        Some("äöü".to_string())
    );
}

#[test]
fn validation_agrees_with_line_and_field_splitting_of_std() {
    let pieces = [
        "", "#", "# c", "address=/a/0.0.0.0", "address=/a/::", "address=/a/b/::", "address=/a",
        "0.0.0.0 a", ":: a", ":: a b", "0.0.0.0", "\r", "x\r", " ", "/", "//", "address=//::",
        "1.2.3.4 a", "address=/a/0.0.0.0\r",
    ];
    let ends = ["\n", "\r\n", ""];
    for ftype in [FileType::Domains, FileType::Hostnames] {
        for a in pieces {
            for e1 in ends {
                for b in pieces {
                    for e2 in ends {
                        let body = format!("{}{}{}{}", a, e1, b, e2);
                        assert_eq!(
                            refused_line(validate(ftype, &body)),
                            oracle(ftype, &body),
                            "body {:?}",
                            body
                        );
                    }
                }
            }
        }
    }
}
