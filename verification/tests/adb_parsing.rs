use devmux::activity::{
    activity_from_output, build_window_info_reply, parse_activity_output, relative_activity,
};
use devmux::adb::{
    classify_command_output, classify_version_output, ensure_device_connected,
    resolve_local_device, AdbCommand, AdbError,
};
use devmux::text::{first_token, split_lines, trim};

#[test]
fn default_tool_path_is_adb() {
    let adb = AdbCommand::default();
    assert_eq!(adb.get_path(), "adb".to_string());
}

#[test]
fn listing_yields_devices_in_order() {
    let adb = AdbCommand::default();
    let listing = "List of devices attached\nemulator-5554\tdevice\nabc123\tdevice\n";
    let devices = adb.get_connected_devices(listing);
    assert_eq!(
        devices,
        vec!["emulator-5554".to_string(), "abc123".to_string()]
    );
}

#[test]
fn listing_skips_blank_lines() {
    let adb = AdbCommand::default();
    let listing = "List of devices attached\n\n   \nemulator-5554\tdevice\n\n";
    let devices = adb.get_connected_devices(listing);
    assert_eq!(devices, vec!["emulator-5554".to_string()]);
}

#[test]
fn header_only_listing_yields_nothing() {
    let adb = AdbCommand::default();
    assert!(adb.get_connected_devices("List of devices attached\n").is_empty());
    assert!(adb.get_connected_devices("").is_empty());
}

#[test]
fn listing_with_carriage_returns() {
    let adb = AdbCommand::default();
    let listing = "List of devices attached\r\nemu-1\tdevice\r\n";
    let devices = adb.get_connected_devices(listing);
    assert_eq!(devices, vec!["emu-1".to_string()]);
}

#[test]
fn connectivity_check_matches_line_prefix() {
    let adb = AdbCommand::default();
    let listing = "List of devices attached\nemulator-5554\tdevice\n";
    assert!(adb.check_device_connected(Some(listing), "emulator-5554"));
    assert!(!adb.check_device_connected(Some(listing), "other-device"));
    assert!(adb.check_device_connected(Some(listing), ""));
    assert!(!adb.check_device_connected(Some("List of devices attached\n"), ""));
    assert!(!adb.check_device_connected(None, "emulator-5554"));
}

#[test]
fn local_wildcard_resolution() {
    let one = vec!["serial-1".to_string()];
    assert_eq!(
        resolve_local_device("local", &one).unwrap(),
        "serial-1".to_string()
    );
    let none: Vec<String> = Vec::new();
    let e = resolve_local_device("local", &none).unwrap_err();
    assert!(matches!(e, AdbError::NoDevices));
    assert_eq!(e.message(), "No devices connected".to_string());
    let two = vec!["a".to_string(), "b".to_string()];
    let e2 = resolve_local_device("local", &two).unwrap_err();
    assert!(matches!(e2, AdbError::MultipleDevices));
    assert_eq!(
        e2.message(),
        "Multiple devices connected, please specify a device ID".to_string()
    );
    assert_eq!(
        resolve_local_device("serial-9", &two).unwrap(),
        "serial-9".to_string()
    );
}

#[test]
fn command_outcome_classification() {
    let failed = classify_command_output(
        false,
        "am stack list".to_string(),
        String::new(),
        "boom".to_string(),
    );
    match failed {
        Err(e) => assert_eq!(
            e.message(),
            "ADB command failed: am stack list. Error: boom".to_string()
        ),
        Ok(_) => panic!("failed status must be an error"),
    }
    let silent = classify_command_output(
        true,
        "devices".to_string(),
        "  \n".to_string(),
        "warning".to_string(),
    );
    match silent {
        Err(e) => assert_eq!(
            e.message(),
            "Command produced no output: warning".to_string()
        ),
        Ok(_) => panic!("blank stdout with error text must be an error"),
    }
    let ok = classify_command_output(
        true,
        "devices".to_string(),
        "output text".to_string(),
        "noise".to_string(),
    );
    assert_eq!(ok.unwrap(), "output text".to_string());
    let quiet = classify_command_output(true, "devices".to_string(), "  ".to_string(), String::new());
    assert_eq!(quiet.unwrap(), "  ".to_string());
}

#[test]
fn failure_messages_carry_trimmed_stderr() {
    let failed = classify_command_output(
        false,
        "am stack list".to_string(),
        String::new(),
        "  boom\n".to_string(),
    )
    .unwrap_err();
    assert_eq!(
        failed.message(),
        "ADB command failed: am stack list. Error: boom".to_string()
    );
    let silent = classify_command_output(
        true,
        "devices".to_string(),
        " \n".to_string(),
        "warning\r\n".to_string(),
    )
    .unwrap_err();
    assert_eq!(
        silent.message(),
        "Command produced no output: warning".to_string()
    );
}

#[test]
fn trim_matches_std_trim() {
    let samples = [
        "",
        "   ",
        "a",
        "  a b  ",
        "\tboom\n",
        "\u{A0}x\u{3000}",
        "\u{2028}mid\u{2009}dle\u{85}",
        "no-spaces-at-all",
    ];
    for s in samples {
        assert_eq!(trim(s), s.trim().to_string(), "trim of {:?}", s);
    }
}

#[test]
fn first_token_matches_std_split_whitespace() {
    let samples = ["", "   ", "a b", "\u{A0}emu-1\tdevice", "one"];
    for s in samples {
        let want = s.split_whitespace().next().unwrap_or("").to_string();
        assert_eq!(first_token(s), want, "first token of {:?}", s);
    }
}

#[test]
fn version_probe_classification() {
    assert!(classify_version_output(true, String::new()).is_ok());
    let e = classify_version_output(false, "no adb".to_string()).unwrap_err();
    assert_eq!(e.message(), "ADB not available: no adb".to_string());
}

#[test]
fn activity_record_is_parsed() {
    let output = "  taskId=12: visible=true topActivity=ComponentInfo{com.example.app/com.example.app.MainActivity} bounds=[0,0]\n";
    let (pkg, act) = parse_activity_output(output).unwrap();
    assert_eq!(pkg, "com.example.app".to_string());
    assert_eq!(act, ".MainActivity".to_string());
}

#[test]
fn activity_outside_package_keeps_full_name() {
    let output = "topActivity=ComponentInfo{com.foo/other.Main}";
    let (pkg, act) = parse_activity_output(output).unwrap();
    assert_eq!(pkg, "com.foo".to_string());
    assert_eq!(act, ".other.Main".to_string());
}

#[test]
fn already_relative_activity_is_kept() {
    let output = "topActivity=ComponentInfo{com.foo/.Main}";
    let (pkg, act) = parse_activity_output(output).unwrap();
    assert_eq!(pkg, "com.foo".to_string());
    assert_eq!(act, ".Main".to_string());
}

#[test]
fn leftmost_record_wins() {
    let output = "topActivity=ComponentInfo{com.first/.A} topActivity=ComponentInfo{com.second/.B}";
    let (pkg, act) = parse_activity_output(output).unwrap();
    assert_eq!(pkg, "com.first".to_string());
    assert_eq!(act, ".A".to_string());
}

#[test]
fn malformed_records_do_not_parse() {
    assert!(parse_activity_output("no record here").is_err());
    assert!(parse_activity_output("topActivity=ComponentInfo{/x}").is_err());
    assert!(parse_activity_output("topActivity=ComponentInfo{a/}").is_err());
    assert!(parse_activity_output("topActivity=ComponentInfo{a.b.c}").is_err());
    let e = parse_activity_output("garbage").unwrap_err();
    assert_eq!(
        e.message(),
        "Failed to parse activity info from: garbage".to_string()
    );
}

#[test]
fn blank_output_reports_no_visible_activity() {
    let e = activity_from_output("   \n").unwrap_err();
    assert!(matches!(e, AdbError::NoVisibleActivity));
    assert_eq!(e.message(), "No visible activity found".to_string());
    let ok = activity_from_output("topActivity=ComponentInfo{com.foo/.Main}");
    assert!(ok.is_ok());
}

#[test]
fn relative_activity_edge_cases() {
    let pkg = "com.app".to_string();
    assert_eq!(
        relative_activity(&pkg, &"com.app.Main".to_string()),
        ".Main".to_string()
    );
    assert_eq!(
        relative_activity(&pkg, &"com.app".to_string()),
        ".".to_string()
    );
    assert_eq!(
        relative_activity(&pkg, &"Main".to_string()),
        ".Main".to_string()
    );
}

#[test]
fn window_reply_reports_both_outcomes() {
    let ok = build_window_info_reply(Ok(("com.app".to_string(), ".Main".to_string())), 1234);
    assert!(ok.success);
    assert_eq!(ok.package_name, "com.app".to_string());
    assert_eq!(ok.activity_name, ".Main".to_string());
    assert_eq!(ok.timestamp, 1234);
    assert_eq!(ok.error_message, String::new());
    let err = build_window_info_reply(Err(AdbError::NoVisibleActivity), 99);
    assert!(!err.success);
    assert_eq!(err.package_name, String::new());
    assert_eq!(err.error_message, "No visible activity found".to_string());
    assert_eq!(err.timestamp, 99);
}

#[test]
fn line_splitting_matches_std_lines() {
    let samples = [
        "",
        "a",
        "a\n",
        "a\nb",
        "a\r\nb\r\n",
        "\n",
        "a\r",
        "one two\n three\n",
    ];
    for s in samples {
        let got = split_lines(s);
        let want: Vec<String> = s.lines().map(|l| l.to_string()).collect();
        assert_eq!(got, want, "lines of {:?}", s);
    }
}

#[test]
fn first_token_skips_leading_whitespace() {
    assert_eq!(first_token("  emu-1\tdevice"), "emu-1".to_string());
    assert_eq!(first_token("emu-1"), "emu-1".to_string());
    assert_eq!(first_token("   "), String::new());
    assert_eq!(first_token(""), String::new());
}

#[test]
fn unconnected_device_is_reported_by_name() {
    let adb = AdbCommand::default();
    let listing = "List of devices attached\nemulator-5554\tdevice\n";
    assert!(ensure_device_connected(&adb, Some(listing), "emulator-5554").is_ok());
    let e = ensure_device_connected(&adb, Some(listing), "ghost").unwrap_err();
    assert!(matches!(e, AdbError::DeviceNotConnected { .. }));
    assert_eq!(e.message(), "Device not connected: ghost".to_string());
    assert!(ensure_device_connected(&adb, None, "emulator-5554").is_err());
}
