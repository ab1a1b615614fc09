use droidbridge::commands::{
    badging_args, bootloader_reboot_args, clear_logcat_args, connect_args, devices_args,
    disconnect_args, erase_args, flash_args, getvar_args, install_args, logcat_args, pm_path_args,
    pull_args, push_args,
    reboot_args, record_args, screencap_args, screenshot_rm_args, set_active_args, shell_args,
    sideload_args, uninstall_args, unlock_args,
};
use droidbridge::composite::{
    apk_output_file, output_path, record_filename, screenshot_filename, screenshot_outcome,
};
use droidbridge::guard::validate_shell_cmd;
use droidbridge::payload::{
    join_commas, parse_partition_list, payload_extract_args, payload_extract_fallback,
    payload_extract_py_args, payload_list_args, payload_list_fallback, payload_list_outcome,
    payload_list_py_args, placeholder_partition_list,
};
use droidbridge::resolver::{badging_candidate_paths, mirror_candidate_paths, pick_existing,
    resolve_mirror_tool, resolve_tool, tool_candidate_paths};
use droidbridge::runner::{collapse_output, spawn_failure_message};

#[test]
fn guard_rejects_each_dangerous_sequence() {
    for cmd in [
        "ls; rm -rf /",
        "a && b",
        "a || b",
        "echo `id`",
        "echo $(id)",
        "echo ${HOME}",
        "line1\nline2",
        "line1\rline2",
    ] {
        assert!(validate_shell_cmd(cmd).is_err(), "should reject {:?}", cmd);
    }
}

#[test]
fn guard_accepts_same_strings_with_su_prefix() {
    for cmd in [
        "su -c ls; rm -rf /",
        "su -c a && b",
        "su -c a || b",
        "su -c echo `id`",
        "su -c echo $(id)",
        "su -c echo ${HOME}",
        "su -c line1\nline2",
        "su -c line1\rline2",
    ] {
        assert!(validate_shell_cmd(cmd).is_ok(), "should accept {:?}", cmd);
    }
}

#[test]
fn guard_accepts_plain_commands() {
    assert!(validate_shell_cmd("ls -l /sdcard").is_ok());
    assert!(validate_shell_cmd("pm list packages | grep foo").is_ok());
    assert!(validate_shell_cmd("").is_ok());
}

#[test]
fn guard_error_names_the_sequence() {
    let err = validate_shell_cmd("a;b").unwrap_err();
    assert_eq!(err, "command contains an unsafe sequence: ;");
    let err = validate_shell_cmd("a && b").unwrap_err();
    assert_eq!(err, "command contains an unsafe sequence: &&");
}

#[test]
fn pick_earliest_existing_candidate() {
    let cands: Vec<String> = ["a", "b", "c"].iter().map(|s| s.to_string()).collect();
    assert_eq!(pick_existing(&cands, &vec![false, true, false], "z"), "b");
    assert_eq!(pick_existing(&cands, &vec![true, true, false], "z"), "a");
    assert_eq!(pick_existing(&cands, &vec![false, false, true], "z"), "c");
    assert_eq!(pick_existing(&cands, &vec![false, false, false], "z"), "z");
}

#[test]
fn pick_single_existing_regardless_of_position() {
    let cands: Vec<String> = ["p0", "p1", "p2", "p3"].iter().map(|s| s.to_string()).collect();
    for j in 0..4usize {
        let flags: Vec<bool> = (0..4usize).map(|k| k == j).collect();
        assert_eq!(pick_existing(&cands, &flags, "bare"), cands[j]);
    }
}

#[test]
fn resolution_is_idempotent() {
    let first = resolve_tool("/nonexistent_dir_for_this_test", "no_such_tool_here");
    let second = resolve_tool("/nonexistent_dir_for_this_test", "no_such_tool_here");
    assert_eq!(first, second);
    assert_eq!(first, "no_such_tool_here");
}

#[test]
fn candidate_list_order() {
    let cands = tool_candidate_paths("/opt/app", "adb");
    let expected = vec![
        "/opt/app/tools/adb.exe",
        "/opt/app/tools/adb",
        "/opt/app/adb.exe",
        "tools/adb.exe",
        "tools/adb",
        "adb.exe",
        "adb",
    ];
    assert_eq!(cands, expected);
}

#[test]
fn special_tool_candidate_lists() {
    assert_eq!(
        mirror_candidate_paths("/opt/app"),
        vec![
            "/opt/app/tools/scrcpy/scrcpy.exe",
            "/opt/app/tools/scrcpy/scrcpy",
            "tools/scrcpy/scrcpy.exe",
            "tools/scrcpy/scrcpy",
            "scrcpy",
        ]
    );
    assert_eq!(
        badging_candidate_paths("/opt/app"),
        vec![
            "/opt/app/tools/aapt.exe",
            "/opt/app/tools/aapt",
            "tools/aapt.exe",
            "tools/aapt",
            "aapt",
        ]
    );
    assert_eq!(resolve_mirror_tool("/nonexistent_dir_for_this_test"), "scrcpy");
}

#[test]
fn process_failure_uses_stdout_when_stderr_empty() {
    let r = collapse_output(false, "ok".to_string(), "".to_string());
    assert_eq!(r, Err("ok".to_string()));
}

#[test]
fn process_result_collapse() {
    assert_eq!(collapse_output(true, "out".to_string(), "err".to_string()), Ok("out".to_string()));
    assert_eq!(
        collapse_output(false, "out".to_string(), "err".to_string()),
        Err("err".to_string())
    );
    assert_eq!(
        spawn_failure_message("/opt/adb", "permission denied"),
        "failed to run /opt/adb: permission denied"
    );
}

#[test]
fn payload_listing_placeholder_when_both_fail() {
    let r = payload_list_outcome(Err("no tool".to_string()), Err("no python".to_string()));
    let expected = "boot:67.2 MB\ninit_boot:8.0 MB\nvendor_boot:67.1 MB\nrecovery:104.9 MB\nvbmeta:4.0 KB\nvbmeta_system:4.0 KB\nvbmeta_vendor:4.0 KB\ndtbo:8.0 MB\nsuper:9.5 GB\nmodem:200.0 MB\n";
    assert_eq!(r, expected);
    assert_eq!(payload_list_fallback(Err("e".to_string())), expected);
    assert_eq!(placeholder_partition_list(), expected);
}

#[test]
fn partition_listing_parses_pairs() {
    let entries = parse_partition_list(&placeholder_partition_list());
    assert_eq!(entries.len(), 10);
    assert_eq!(entries[0].name, "boot");
    assert_eq!(entries[0].size_description, "67.2 MB");
    assert_eq!(entries[9].name, "modem");
    assert_eq!(entries[9].size_description, "200.0 MB");
    let mixed = parse_partition_list("boot:1 MB
nocolonhere
super:2 GB
");
    assert_eq!(mixed.len(), 2);
    assert_eq!(mixed[1].name, "super");
    assert_eq!(mixed[1].size_description, "2 GB");
}

#[test]
fn payload_listing_prefers_real_output() {
    assert_eq!(
        payload_list_outcome(Ok("boot:1 MB\n".to_string()), Err("x".to_string())),
        "boot:1 MB\n"
    );
    assert_eq!(
        payload_list_outcome(Err("x".to_string()), Ok("boot:2 MB\n".to_string())),
        "boot:2 MB\n"
    );
}

#[test]
fn payload_extraction_combined_error() {
    let r = payload_extract_fallback(Err("python missing".to_string()));
    assert_eq!(
        r,
        Err(
            "extraction failed; install payload-dumper-go or payload_dumper\npython missing"
                .to_string()
        )
    );
    assert_eq!(payload_extract_fallback(Ok("done".to_string())), Ok("done".to_string()));
}

#[test]
fn screenshot_cleanup_failure_is_ignored() {
    let r = screenshot_outcome(
        Ok("pulled".to_string()),
        "shots/screenshot_1.png".to_string(),
        Err("rm failed".to_string()),
    );
    assert_eq!(r, Ok("shots/screenshot_1.png".to_string()));
}

#[test]
fn screenshot_pull_failure_propagates() {
    let r = screenshot_outcome(
        Err("device gone".to_string()),
        "x.png".to_string(),
        Ok("".to_string()),
    );
    assert_eq!(r, Err("device gone".to_string()));
}

#[test]
fn computed_filenames() {
    assert_eq!(screenshot_filename(42), "screenshot_42.png");
    assert_eq!(record_filename(1700000000), "record_1700000000.mp4");
    assert_eq!(output_path(Some("/tmp/shots"), "a.png"), "/tmp/shots/a.png");
    assert_eq!(output_path(None, "a.png"), "a.png");
    assert_eq!(apk_output_file("/out", "com.example"), "/out/com.example.apk");
}

#[test]
fn bridge_command_builders() {
    assert_eq!(devices_args(), vec!["devices"]);
    assert_eq!(shell_args("ls", Some("SER")), vec!["-s", "SER", "shell", "ls"]);
    assert_eq!(shell_args("ls", None), vec!["shell", "ls"]);
    assert_eq!(install_args("/a.apk", None), vec!["install", "-r", "/a.apk"]);
    assert_eq!(push_args("l", "r", Some("S")), vec!["-s", "S", "push", "l", "r"]);
    assert_eq!(pull_args("r", "l", None), vec!["pull", "r", "l"]);
    assert_eq!(reboot_args(Some("bootloader"), None), vec!["reboot", "bootloader"]);
    assert_eq!(reboot_args(None, Some("S")), vec!["-s", "S", "reboot"]);
    assert_eq!(connect_args("1.2.3.4:5555"), vec!["connect", "1.2.3.4:5555"]);
    assert_eq!(disconnect_args(Some("1.2.3.4")), vec!["disconnect", "1.2.3.4"]);
    assert_eq!(disconnect_args(None), vec!["disconnect"]);
    assert_eq!(uninstall_args("com.x", None), vec!["uninstall", "com.x"]);
    assert_eq!(sideload_args("ota.zip", None), vec!["sideload", "ota.zip"]);
}

#[test]
fn flashing_command_builders() {
    assert_eq!(flash_args("boot", "boot.img"), vec!["flash", "boot", "boot.img"]);
    assert_eq!(unlock_args(), vec!["flashing", "unlock"]);
    assert_eq!(bootloader_reboot_args(Some("recovery")), vec!["reboot", "recovery"]);
    assert_eq!(bootloader_reboot_args(None), vec!["reboot"]);
    assert_eq!(getvar_args("current-slot"), vec!["getvar", "current-slot"]);
    assert_eq!(set_active_args("b"), vec!["set_active", "b"]);
    assert_eq!(erase_args("userdata"), vec!["erase", "userdata"]);
}

#[test]
fn log_record_and_path_builders() {
    assert_eq!(
        logcat_args(Some("S")),
        vec!["-s", "S", "logcat", "-d", "-v", "time", "-t", "100"]
    );
    assert_eq!(clear_logcat_args(None), vec!["logcat", "-c"]);
    assert_eq!(record_args("out.mp4", Some("S")), vec!["--record", "out.mp4", "-s", "S"]);
    assert_eq!(pm_path_args("com.x", None), vec!["shell", "pm", "path", "com.x"]);
    assert_eq!(
        screencap_args(Some("S")),
        vec!["-s", "S", "shell", "screencap", "-p", "/sdcard/screenshot.png"]
    );
    assert_eq!(
        screenshot_rm_args(None),
        vec!["shell", "rm", "/sdcard/screenshot.png"]
    );
    assert_eq!(badging_args("/a.apk"), vec!["dump", "badging", "/a.apk"]);
}

#[test]
fn payload_tool_arguments() {
    assert_eq!(payload_list_args("/p.bin"), vec!["-l", "/p.bin"]);
    assert_eq!(
        payload_list_py_args("/p.bin"),
        vec!["-m", "payload_dumper", "--list", "/p.bin"]
    );
    let parts: Vec<String> = ["boot", "dtbo"].iter().map(|s| s.to_string()).collect();
    assert_eq!(join_commas(&parts), "boot,dtbo");
    let empty: Vec<String> = Vec::new();
    assert_eq!(join_commas(&empty), "");
    assert_eq!(
        payload_extract_args("/out", &parts, "/p.bin"),
        vec!["-o", "/out", "-p", "boot,dtbo", "/p.bin"]
    );
    assert_eq!(
        payload_extract_py_args("/out", &parts, "/p.bin"),
        vec!["-m", "payload_dumper", "-o", "/out", "-p", "boot", "-p", "dtbo", "/p.bin"]
    );
}
