use idlewatch::cli::CliArgs;
use idlewatch::cli::CliResult;
use idlewatch::cli::parse_cli_args;
use idlewatch::cli::parse_u8;
use idlewatch::netscan::is_localhost_hex;
use idlewatch::netscan::is_network_active;
use idlewatch::netscan::has_non_localhost_connections;
use idlewatch::netscan::split_fields;
use idlewatch::sessions::is_any_user_active;
use idlewatch::text::i32_to_decimal;
use idlewatch::text::str_contains;
use idlewatch::text::str_eq;

fn strings(items: &[&str]) -> Vec<String> {
    items.iter().map(|s| String::from(*s)).collect()
}

#[test]
fn decimal_rendering() {
    assert_eq!(i32_to_decimal(0), "0");
    assert_eq!(i32_to_decimal(7), "7");
    assert_eq!(i32_to_decimal(255), "255");
    assert_eq!(i32_to_decimal(-1), "-1");
    assert_eq!(i32_to_decimal(-42), "-42");
    assert_eq!(i32_to_decimal(i32::MIN), "-2147483648");
    assert_eq!(i32_to_decimal(i32::MAX), "2147483647");
}

#[test]
fn substring_search() {
    assert!(str_contains("Sleep verb already in progress", "already in progress"));
    assert!(!str_contains("operation refused", "already in progress"));
    assert!(str_contains("abc", ""));
    assert!(str_contains("", ""));
    assert!(!str_contains("ab", "abc"));
    assert!(str_contains("aab", "ab"));
}

#[test]
fn string_equality() {
    assert!(str_eq("-v", "-v"));
    assert!(!str_eq("-v", "-s"));
    assert!(!str_eq("-v", "-vv"));
}

#[test]
fn localhost_addresses_are_recognized() {
    assert!(is_localhost_hex("7F000001:0016"));
    assert!(is_localhost_hex("00000000000000000000000000000001:1A2B"));
    assert!(!is_localhost_hex("C0A80001:0050"));
    assert!(!is_localhost_hex("7F000001"));
    assert!(!is_localhost_hex(""));
    assert!(!is_localhost_hex("7F01:0016"));
}

#[test]
fn split_fields_separates_on_whitespace() {
    let fields = split_fields("  1: 7F000001:0016  00000000:0000 01 ");
    assert_eq!(
        fields,
        strings(&["1:", "7F000001:0016", "00000000:0000", "01"])
    );
    assert_eq!(split_fields(""), Vec::<String>::new());
    assert_eq!(split_fields("   \t "), Vec::<String>::new());
}

#[test]
fn established_remote_connection_is_detected() {
    let header = "  sl  local_address rem_address   st tx_queue rx_queue";
    let remote = "   0: C0A80001:0050 C0A80002:A0B0 01 00000000:00000000";
    let local = "   1: 7F000001:0016 7F000001:A2C4 01 00000000:00000000";
    let not_established = "   2: C0A80001:0050 C0A80002:A0B0 06 00000000:00000000";

    let lines = strings(&[header, remote]);
    assert!(has_non_localhost_connections(&lines));

    let lines = strings(&[header, local, not_established]);
    assert!(!has_non_localhost_connections(&lines));

    let empty: Vec<String> = Vec::new();
    assert!(!has_non_localhost_connections(&empty));
}

#[test]
fn network_activity_checks_both_tables() {
    let remote = strings(&["   0: C0A80001:0050 C0A80002:A0B0 01 00000000:00000000"]);
    let quiet = strings(&["   1: 7F000001:0016 7F000001:A2C4 01 00000000:00000000"]);
    let empty: Vec<String> = Vec::new();
    assert!(is_network_active(&remote, &empty));
    assert!(is_network_active(&empty, &remote));
    assert!(!is_network_active(&quiet, &empty));
    assert!(!is_network_active(&empty, &empty));
}

#[test]
fn unsigned_byte_parsing() {
    assert_eq!(parse_u8("0"), Some(0));
    assert_eq!(parse_u8("3"), Some(3));
    assert_eq!(parse_u8("255"), Some(255));
    assert_eq!(parse_u8("+12"), Some(12));
    assert_eq!(parse_u8("007"), Some(7));
    assert_eq!(parse_u8("256"), None);
    assert_eq!(parse_u8("999"), None);
    assert_eq!(parse_u8(""), None);
    assert_eq!(parse_u8("+"), None);
    assert_eq!(parse_u8("-3"), None);
    assert_eq!(parse_u8("1a"), None);
    assert_eq!(parse_u8("12345678901234567890"), None);
}

#[test]
fn cli_defaults_and_flags() {
    let result = parse_cli_args(&strings(&["idlewatch"]));
    assert_eq!(
        result,
        CliResult::Run {
            settings: CliArgs { verbose: false, shutdown: false, idle_minutes: 3 },
            unknown: Vec::new(),
        }
    );

    let result = parse_cli_args(&strings(&["idlewatch", "-v", "--shutdown", "-i", "7"]));
    assert_eq!(
        result,
        CliResult::Run {
            settings: CliArgs { verbose: true, shutdown: true, idle_minutes: 7 },
            unknown: Vec::new(),
        }
    );
}

#[test]
fn cli_help_wins_over_later_flags() {
    let result = parse_cli_args(&strings(&["idlewatch", "--help", "-i", "nonsense"]));
    assert_eq!(result, CliResult::Help);
}

#[test]
fn cli_invalid_idle_minutes_is_fatal() {
    let result = parse_cli_args(&strings(&["idlewatch", "-i", "abc"]));
    assert_eq!(result, CliResult::InvalidIdleMinutes { value: String::from("abc") });

    let result = parse_cli_args(&strings(&["idlewatch", "--idle-minutes", "300"]));
    assert_eq!(result, CliResult::InvalidIdleMinutes { value: String::from("300") });
}

#[test]
fn cli_trailing_idle_minutes_flag_is_ignored() {
    let result = parse_cli_args(&strings(&["idlewatch", "-i"]));
    assert_eq!(
        result,
        CliResult::Run {
            settings: CliArgs { verbose: false, shutdown: false, idle_minutes: 3 },
            unknown: Vec::new(),
        }
    );
}

#[test]
fn cli_unknown_arguments_are_collected() {
    let result = parse_cli_args(&strings(&["idlewatch", "--frob", "-v", "extra"]));
    assert_eq!(
        result,
        CliResult::Run {
            settings: CliArgs { verbose: true, shutdown: false, idle_minutes: 3 },
            unknown: strings(&["--frob", "extra"]),
        }
    );
}

#[test]
fn user_activity_needs_success_and_output() {
    assert!(is_any_user_active(true, "seat0 1000 alice"));
    assert!(!is_any_user_active(true, ""));
    assert!(!is_any_user_active(true, "  \t\n  "));
    assert!(!is_any_user_active(false, "seat0 1000 alice"));
}
