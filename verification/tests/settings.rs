use flowtype::i18n::{language_from_id, parse_choice, choice_value, Language, LanguageChoice};
use flowtype::log::{plan_log_append, truncate_utf8, LogError};
use flowtype::network::{address_score, candidate_ipv4s, endpoint_urls, mdns_host_name, same_path, validate_pc_name};
use flowtype::settings::{auto_start_command, floating_enabled_from, format_floating_position, parse_floating_position};
use flowtype::spike::{normalize_newlines, parse_config, parse_number, Command, ConfigError, Scenario};

#[test]
fn recognizes_all_chinese_sublanguages() {
    assert_eq!(language_from_id(0x0804), Language::Chinese);
    assert_eq!(language_from_id(0x0404), Language::Chinese);
    assert_eq!(language_from_id(0x0c04), Language::Chinese);
}

#[test]
fn falls_back_to_english() {
    assert_eq!(language_from_id(0x0409), Language::English);
    assert_eq!(language_from_id(0x0411), Language::English);
}

#[test]
fn parses_saved_language_choices() {
    assert_eq!(parse_choice("zh-CN"), LanguageChoice::Chinese);
    assert_eq!(parse_choice("en"), LanguageChoice::English);
    assert_eq!(parse_choice("unknown"), LanguageChoice::System);
}

#[test]
fn a_saved_choice_reads_back() {
    for choice in [LanguageChoice::System, LanguageChoice::Chinese, LanguageChoice::English] {
        assert_eq!(parse_choice(choice_value(choice)), choice);
    }
}

#[test]
fn compares_windows_paths_case_insensitively() {
    assert!(same_path(
        r"C:\Program Files\FlowType\flowtype-injector.exe",
        r"c:\program files\flowtype\FLOWTYPE-INJECTOR.EXE",
    ));
    assert!(!same_path(r"C:\a.exe", r"C:\b.exe"));
}

#[test]
fn prefers_tailscale_over_hyper_v_and_private_lan() {
    let tailscale = address_score("Tailscale", u32::from_be_bytes([100, 0, 0, 13]));
    let lan = address_score("Wi-Fi", u32::from_be_bytes([192, 168, 1, 20]));
    let hyper_v = address_score("vEthernet (Default Switch)", u32::from_be_bytes([192, 168, 77, 161]));
    assert!(tailscale > lan);
    assert!(lan > hyper_v);
}

#[test]
fn excludes_known_virtual_adapters_from_pairing_candidates() {
    assert!(address_score("vEthernet (Default Switch)", u32::from_be_bytes([192, 168, 77, 161])) < 100);
    assert!(address_score("Wi-Fi", u32::from_be_bytes([192, 168, 1, 20])) >= 100);
}

#[test]
fn candidates_are_ranked_and_endpoints_listed() {
    let adapters = vec![
        ("Wi-Fi".to_owned(), u32::from_be_bytes([192, 168, 1, 20])),
        ("vEthernet (WSL)".to_owned(), u32::from_be_bytes([172, 20, 0, 1])),
        ("Tailscale".to_owned(), u32::from_be_bytes([100, 64, 0, 7])),
        ("Ethernet".to_owned(), u32::from_be_bytes([8, 8, 4, 4])),
    ];
    let candidates = candidate_ipv4s(&adapters);
    assert_eq!(
        candidates,
        vec![
            u32::from_be_bytes([100, 64, 0, 7]),
            u32::from_be_bytes([192, 168, 1, 20]),
            u32::from_be_bytes([8, 8, 4, 4]),
        ]
    );
    let urls = endpoint_urls(Some("wss://100.64.0.7:32187/v1/sync"), &candidates);
    assert_eq!(
        urls,
        vec![
            "wss://100.64.0.7:32187/v1/sync".to_owned(),
            "wss://192.168.1.20:32187/v1/sync".to_owned(),
            "wss://8.8.4.4:32187/v1/sync".to_owned(),
        ]
    );
}

#[test]
fn the_advertised_host_uses_the_start_of_the_computer_id() {
    assert_eq!(mdns_host_name("0123456789abcdef"), "flowtype-01234567.local.");
    assert_eq!(mdns_host_name("abc"), "flowtype-abc.local.");
}

#[test]
fn computer_names_are_trimmed_and_bounded() {
    assert_eq!(validate_pc_name("  书房电脑 "), Ok("书房电脑".to_owned()));
    assert!(validate_pc_name("   ").is_err());
    assert!(validate_pc_name(&"x".repeat(65)).is_err());
}

#[test]
fn floating_positions_round_trip() {
    for position in [(0, 0), (-120, 45), (i32::MIN, i32::MAX)] {
        let text = format_floating_position(position);
        assert_eq!(parse_floating_position(&text), Some(position));
    }
    assert_eq!(parse_floating_position(" 10,20\r\n"), Some((10, 20)));
    assert_eq!(parse_floating_position("10,20,30"), Some((10, 20)));
    assert_eq!(parse_floating_position("10"), None);
    assert_eq!(parse_floating_position("10,x"), None);
    assert_eq!(format_floating_position((-5, 7)), "-5,7");
}

#[test]
fn the_floating_widget_is_shown_unless_turned_off() {
    assert!(floating_enabled_from("1"));
    assert!(floating_enabled_from(""));
    assert!(!floating_enabled_from(" 0\n"));
}

#[test]
fn the_autostart_command_quotes_the_executable() {
    assert_eq!(
        auto_start_command(r"C:\Program Files\FlowType\flowtype.exe"),
        r#""C:\Program Files\FlowType\flowtype.exe" --background"#
    );
}

#[test]
fn long_unicode_lines_are_cut_on_a_character_boundary() {
    assert_eq!(truncate_utf8("中文中文", 7), "中文");
    assert_eq!(truncate_utf8("short", 16), "short");
    let plan = plan_log_append("中文中文", 8, 0).unwrap();
    assert_eq!(plan.line, "中文");
    assert!(!plan.rotate_first);
}

#[test]
fn the_log_rotates_before_it_would_outgrow_its_limit() {
    let first = plan_log_append("1234567890", 16, 0).unwrap();
    assert!(!first.rotate_first);
    let second = plan_log_append("abcdefghij", 16, 11).unwrap();
    assert!(second.rotate_first);
    assert_eq!(plan_log_append("x", 0, 0), Err(LogError::ZeroLimit));
}

#[test]
fn the_experiment_reads_its_command_line() {
    let arguments = |items: &[&str]| items.iter().map(|s| s.to_string()).collect::<Vec<_>>();
    match parse_config(&arguments(&["--scenario", "rewrite", "--step-delay-ms", "10", "--dry-run"])) {
        Ok(Command::Run(config)) => {
            assert_eq!(config.scenario, Scenario::Rewrite);
            assert_eq!(config.step_delay_ms, 10);
            assert_eq!(config.focus_delay_seconds, 5);
            assert!(config.dry_run);
        }
        other => panic!("unexpected {other:?}"),
    }
    assert_eq!(parse_config(&arguments(&["-h"])), Ok(Command::Help));
    assert_eq!(parse_config(&arguments(&["--scenario", "nope"])), Err(ConfigError::UnknownScenario));
    assert_eq!(
        parse_config(&arguments(&["--focus-delay-seconds", "-1"])),
        Err(ConfigError::NotANumber("--focus-delay-seconds".to_owned()))
    );
    assert_eq!(
        parse_number("--step-delay-ms", None),
        Err(ConfigError::MissingValue("--step-delay-ms".to_owned()))
    );
    assert_eq!(Scenario::parse(Scenario::Multiline.name()), Some(Scenario::Multiline));
    assert_eq!(Scenario::Unicode.snapshots().len(), 4);
}

#[test]
fn windows_line_breaks_are_normalized() {
    assert_eq!(normalize_newlines("a\r\nb\rc\n"), "a\nb\nc\n");
}
