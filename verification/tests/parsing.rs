use ascii_player::args::{
    check_dir, format_address, parse_address, player_config, AddressError, ArgsError, DirError,
    PlayerConfig, PlayerSelection, DEFAULT_ADDRESS,
};
use ascii_player::decimal::{decimal_string, parse_u32, IntErrorKind};

#[test]
fn decimal_string_renders_numbers() {
    assert_eq!(decimal_string(0), "0");
    assert_eq!(decimal_string(7), "7");
    assert_eq!(decimal_string(6600), "6600");
    assert_eq!(decimal_string(u32::MAX), "4294967295");
}

#[test]
fn parse_u32_accepts_what_std_accepts() {
    assert_eq!(parse_u32("6600"), Ok(6600));
    assert_eq!(parse_u32("+12"), Ok(12));
    assert_eq!(parse_u32("007"), Ok(7));
    assert_eq!(parse_u32("4294967295"), Ok(u32::MAX));
}

#[test]
fn parse_u32_errors_match_std() {
    assert_eq!(parse_u32(""), Err(IntErrorKind::Empty));
    assert_eq!(parse_u32("+"), Err(IntErrorKind::InvalidDigit));
    assert_eq!(parse_u32("-"), Err(IntErrorKind::InvalidDigit));
    assert_eq!(parse_u32("-5"), Err(IntErrorKind::InvalidDigit));
    assert_eq!(parse_u32("12x"), Err(IntErrorKind::InvalidDigit));
    assert_eq!(parse_u32(" 1"), Err(IntErrorKind::InvalidDigit));
    assert_eq!(parse_u32("4294967296"), Err(IntErrorKind::PosOverflow));
    assert_eq!(parse_u32("4294967296x"), Err(IntErrorKind::PosOverflow));
    assert_eq!(parse_u32("x4294967296"), Err(IntErrorKind::InvalidDigit));
}

#[test]
fn parse_u32_agrees_with_std_on_samples() {
    for s in ["0", "1", "+0", "99", "4294967295", "4294967296", "", "+", "-1", "1-", "٣", "12 ", "+-1"] {
        let ours = parse_u32(s);
        let theirs = s.parse::<u32>();
        match (ours, theirs) {
            (Ok(a), Ok(b)) => assert_eq!(a, b, "{s:?}"),
            (Err(a), Err(b)) => {
                let kind = match b.kind() {
                    std::num::IntErrorKind::Empty => IntErrorKind::Empty,
                    std::num::IntErrorKind::InvalidDigit => IntErrorKind::InvalidDigit,
                    std::num::IntErrorKind::PosOverflow => IntErrorKind::PosOverflow,
                    other => panic!("unexpected kind {other:?}"),
                };
                assert_eq!(a, kind, "{s:?}");
            }
            (a, b) => panic!("{s:?}: {a:?} vs {b:?}"),
        }
    }
}

#[test]
fn default_address_parses() {
    let (host, port) = parse_address(DEFAULT_ADDRESS).unwrap();
    assert_eq!(host, "localhost");
    assert_eq!(port, 6600);
}

#[test]
fn parse_address_refuses_bad_formats() {
    assert_eq!(parse_address("localhost").unwrap_err(), AddressError::Format);
    assert_eq!(parse_address("a:b:c").unwrap_err(), AddressError::Format);
    assert_eq!(parse_address("").unwrap_err(), AddressError::Format);
    assert_eq!(parse_address("host:").unwrap_err(), AddressError::Port(IntErrorKind::Empty));
    assert_eq!(parse_address("host:abc").unwrap_err(), AddressError::Port(IntErrorKind::InvalidDigit));
    assert_eq!(parse_address("host:99999999999").unwrap_err(), AddressError::Port(IntErrorKind::PosOverflow));
}

#[test]
fn parse_address_splits_at_the_colon() {
    assert_eq!(parse_address(":80").unwrap(), (String::new(), 80));
    assert_eq!(parse_address("mpd.lan:+6601").unwrap(), ("mpd.lan".to_string(), 6601));
    assert_eq!(parse_address("hôte:1").unwrap(), ("hôte".to_string(), 1));
}

#[test]
fn format_address_then_parse_roundtrips() {
    let text = format_address("music.local", 6600);
    assert_eq!(text, "music.local:6600");
    assert_eq!(parse_address(&text).unwrap(), ("music.local".to_string(), 6600));
    let text = format_address("", 0);
    assert_eq!(text, ":0");
    assert_eq!(parse_address(&text).unwrap(), (String::new(), 0));
}

#[test]
fn check_dir_follows_existence() {
    assert_eq!(check_dir("/music", true).unwrap(), "/music");
    match check_dir("/nowhere", false) {
        Err(DirError::NotFound { path }) => assert_eq!(path, "/nowhere"),
        other => panic!("{other:?}"),
    }
}

#[test]
fn player_config_needs_dir_for_mpd() {
    let address = ("localhost".to_string(), 6600);
    assert_eq!(
        player_config(PlayerSelection::Mpd, address.clone(), None).unwrap_err(),
        ArgsError::MissingDir
    );
    match player_config(PlayerSelection::Mpd, address.clone(), Some("/music".to_string())) {
        Ok(PlayerConfig::Mpd { host, port, music_library_dir }) => {
            assert_eq!(host, "localhost");
            assert_eq!(port, 6600);
            assert_eq!(music_library_dir, "/music");
        }
        other => panic!("{other:?}"),
    }
    assert!(matches!(player_config(PlayerSelection::Mpris, address, None), Ok(PlayerConfig::Mpris)));
}
