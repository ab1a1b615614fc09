use droidbridge::badge::{analyze_badging_output, extract_value, fallback_file_report};
use droidbridge::composite::find_package_path;
use droidbridge::devices::parse_device_list;
use droidbridge::text::{contains_sub, last_dot_segment, starts_with_sub, strip_quotes, trim_str,
    u64_to_string};

#[test]
fn device_list_two_well_formed_lines() {
    let out = "List of devices attached\nABC123\tdevice\nXYZ789\tunauthorized\n";
    let devices = parse_device_list(out);
    assert_eq!(devices.len(), 2);
    assert_eq!(devices[0].serial, "ABC123");
    assert_eq!(devices[0].status, "device");
    assert_eq!(devices[1].serial, "XYZ789");
    assert_eq!(devices[1].status, "unauthorized");
}

#[test]
fn device_list_keeps_line_order() {
    let out = "hdr\nb 2\na 1\nc 3\n";
    let devices = parse_device_list(out);
    assert_eq!(devices.len(), 3);
    assert_eq!(devices[0].serial, "b");
    assert_eq!(devices[1].serial, "a");
    assert_eq!(devices[2].serial, "c");
}

#[test]
fn device_list_skips_malformed_lines() {
    let out = "List of devices attached\nonlytoken\n\nAB CD\n   \nE F extra tokens\n";
    let devices = parse_device_list(out);
    assert_eq!(devices.len(), 2);
    assert_eq!(devices[0].serial, "AB");
    assert_eq!(devices[0].status, "CD");
    assert_eq!(devices[1].serial, "E");
    assert_eq!(devices[1].status, "F");
}

#[test]
fn device_list_empty_and_header_only() {
    assert_eq!(parse_device_list("").len(), 0);
    assert_eq!(parse_device_list("List of devices attached").len(), 0);
    assert_eq!(parse_device_list("List of devices attached\n").len(), 0);
}

#[test]
fn device_list_crlf_lines() {
    let out = "hdr\r\nS1 device\r\nS2 offline\r\n";
    let devices = parse_device_list(out);
    assert_eq!(devices.len(), 2);
    assert_eq!(devices[0].serial, "S1");
    assert_eq!(devices[0].status, "device");
    assert_eq!(devices[1].status, "offline");
}

#[test]
fn extract_value_basic() {
    let line = "package: name='com.example.app' versionCode='12'";
    assert_eq!(extract_value(line, "name='", "'"), Some("com.example.app".to_string()));
    assert_eq!(extract_value(line, "versionCode='", "'"), Some("12".to_string()));
    assert_eq!(extract_value(line, "missing='", "'"), None);
    assert_eq!(extract_value("name='unterminated", "name='", "'"), None);
}

#[test]
fn badge_report_scenario() {
    let out = "package: name='com.example.app' versionCode='12' versionName='1.2.3'\nuses-permission: name='android.permission.CAMERA'\n";
    let report = analyze_badging_output(out);
    assert!(report.contains("com.example.app"));
    assert!(report.contains("1.2.3"));
    assert!(report.contains("12"));
    assert!(report.contains("CAMERA"));
}

#[test]
fn badge_report_exact() {
    let out = "package: name='com.example.app' versionCode='12' versionName='1.2.3'\napplication-label:'My App'\nsdkVersion:'21'\ntargetSdkVersion:'33'\nuses-permission: name='android.permission.CAMERA'\nuses-permission: name='android.permission.INTERNET'\nnoise line\n";
    let report = analyze_badging_output(out);
    let expected = "Package:\n  name: com.example.app\n  version: 1.2.3\n  version code: 12\nLabel: My App\nMin SDK: 21\nTarget SDK: 33\n\nPermissions:\n  - CAMERA\n  - INTERNET\n";
    assert_eq!(report, expected);
}

#[test]
fn badge_permission_header_emitted_once() {
    let out = "uses-permission: name='a.X'\nuses-permission: name='b.Y'\n";
    let report = analyze_badging_output(out);
    assert_eq!(report.matches("Permissions:").count(), 1);
    assert!(report.contains("  - X\n"));
    assert!(report.contains("  - Y\n"));
}

#[test]
fn badge_fallback_file_report() {
    let report = fallback_file_report("app.apk", 5_505_024);
    assert!(report.contains("File: app.apk"));
    assert!(report.contains("Size: 5.25 MB"));
    assert!(report.contains("aapt"));
}

#[test]
fn badge_fallback_small_file() {
    let report = fallback_file_report("tiny.apk", 1_048_576);
    assert!(report.contains("Size: 1.00 MB"));
}

#[test]
fn package_path_found() {
    let out = "package:/data/app/com.example-1/base.apk\n";
    assert_eq!(find_package_path(out), Ok("/data/app/com.example-1/base.apk".to_string()));
}

#[test]
fn package_path_found_after_noise() {
    let out = "warning: something\npackage: /data/app/base.apk \n";
    assert_eq!(find_package_path(out), Ok("/data/app/base.apk".to_string()));
}

#[test]
fn package_path_missing() {
    let out = "no such package\n";
    assert_eq!(find_package_path(out), Err("apk path not found".to_string()));
}

#[test]
fn text_helpers() {
    assert_eq!(u64_to_string(0), "0");
    assert_eq!(u64_to_string(7), "7");
    assert_eq!(u64_to_string(1234567890), "1234567890");
    assert_eq!(trim_str("  hello \t "), "hello");
    assert_eq!(trim_str("   "), "");
    assert_eq!(strip_quotes("'My App'"), "My App");
    assert_eq!(last_dot_segment("android.permission.CAMERA"), "CAMERA");
    assert_eq!(last_dot_segment("CAMERA"), "CAMERA");
    assert!(contains_sub("abcdef", "cde"));
    assert!(!contains_sub("abcdef", "xyz"));
    assert!(starts_with_sub("package:/x", "package:"));
    assert!(!starts_with_sub("pack", "package:"));
}
