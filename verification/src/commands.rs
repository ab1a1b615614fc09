//! Per-operation command builders: each assembles the argument vector for
//! one operation of the device-bridge, flashing, mirroring or payload
//! tools, with the device-selector flag pair prepended when a target
//! device is given.

use vstd::prelude::*;

verus! {

/// The views of a vector of strings.
pub open spec fn views(ss: Seq<String>) -> Seq<Seq<char>> {
    ss.map_values(|s: String| s@)
}

/// The view of an optional device serial.
pub open spec fn opt_view(d: Option<&str>) -> Option<Seq<char>> {
    match d {
        Some(s) => Some(s@),
        None => None,
    }
}

/// The device-selector flag pair: `-s <serial>` when a target device is
/// given, nothing otherwise.
pub open spec fn device_prefix(d: Option<Seq<char>>) -> Seq<Seq<char>> {
    match d {
        Some(s) => seq!["-s"@, s],
        None => Seq::empty(),
    }
}

/// Appends one argument.
fn push_str(v: &mut Vec<String>, s: &str)
    ensures
        views(final(v)@) == views(old(v)@).push(s@),
{
    v.push(String::from_str(s));
    proof {
        assert(views(v@) =~= views(old(v)@).push(s@));
    }
}

/// Appends the device-selector flag pair when a device is given.
fn push_device(v: &mut Vec<String>, device: Option<&str>)
    ensures
        views(final(v)@) == views(old(v)@) + device_prefix(opt_view(device)),
{
    match device {
        Some(d) => {
            push_str(v, "-s");
            push_str(v, d);
            proof {
                assert(views(v@) =~= views(old(v)@) + device_prefix(opt_view(device)));
            }
        },
        None => {
            proof {
                assert(views(v@) =~= views(old(v)@) + device_prefix(opt_view(device)));
            }
        },
    }
}

/// Arguments for listing the devices a tool sees: `devices`.
pub fn devices_args() -> (r: Vec<String>)
    ensures
        views(r@) == seq!["devices"@],
{
    let mut v: Vec<String> = Vec::new();
    push_str(&mut v, "devices");
    proof {
        assert(views(v@) =~= seq!["devices"@]);
    }
    v
}

/// Arguments for the shell passthrough: `[-s serial] shell <cmd>`.
pub fn shell_args(cmd: &str, device: Option<&str>) -> (r: Vec<String>)
    ensures
        views(r@) == device_prefix(opt_view(device)) + seq!["shell"@, cmd@],
{
    let mut v: Vec<String> = Vec::new();
    push_device(&mut v, device);
    push_str(&mut v, "shell");
    push_str(&mut v, cmd);
    proof {
        assert(views(v@) =~= device_prefix(opt_view(device)) + seq!["shell"@, cmd@]);
    }
    v
}

/// Arguments for a reinstalling package install: `[-s serial] install -r <apk>`.
pub fn install_args(apk_path: &str, device: Option<&str>) -> (r: Vec<String>)
    ensures
        views(r@) == device_prefix(opt_view(device)) + seq!["install"@, "-r"@, apk_path@],
{
    let mut v: Vec<String> = Vec::new();
    push_device(&mut v, device);
    push_str(&mut v, "install");
    push_str(&mut v, "-r");
    push_str(&mut v, apk_path);
    proof {
        assert(views(v@) =~= device_prefix(opt_view(device)) + seq!["install"@, "-r"@, apk_path@]);
    }
    v
}

/// Arguments for a file push: `[-s serial] push <local> <remote>`.
pub fn push_args(local: &str, remote: &str, device: Option<&str>) -> (r: Vec<String>)
    ensures
        views(r@) == device_prefix(opt_view(device)) + seq!["push"@, local@, remote@],
{
    let mut v: Vec<String> = Vec::new();
    push_device(&mut v, device);
    push_str(&mut v, "push");
    push_str(&mut v, local);
    push_str(&mut v, remote);
    proof {
        assert(views(v@) =~= device_prefix(opt_view(device)) + seq!["push"@, local@, remote@]);
    }
    v
}

/// Arguments for a file pull: `[-s serial] pull <remote> <local>`.
pub fn pull_args(remote: &str, local: &str, device: Option<&str>) -> (r: Vec<String>)
    ensures
        views(r@) == device_prefix(opt_view(device)) + seq!["pull"@, remote@, local@],
{
    let mut v: Vec<String> = Vec::new();
    push_device(&mut v, device);
    push_str(&mut v, "pull");
    push_str(&mut v, remote);
    push_str(&mut v, local);
    proof {
        assert(views(v@) =~= device_prefix(opt_view(device)) + seq!["pull"@, remote@, local@]);
    }
    v
}

/// Arguments for a reboot, optionally into a named mode:
/// `[-s serial] reboot [<mode>]`.
pub fn reboot_args(mode: Option<&str>, device: Option<&str>) -> (r: Vec<String>)
    ensures
        views(r@) == device_prefix(opt_view(device)) + seq!["reboot"@] + match opt_view(mode) {
            Some(m) => seq![m],
            None => Seq::empty(),
        },
{
    let mut v: Vec<String> = Vec::new();
    push_device(&mut v, device);
    push_str(&mut v, "reboot");
    match mode {
        Some(m) => {
            push_str(&mut v, m);
        },
        None => {},
    }
    proof {
        assert(views(v@) =~= device_prefix(opt_view(device)) + seq!["reboot"@] + match opt_view(
            mode,
        ) {
            Some(m) => seq![m],
            None => Seq::<Seq<char>>::empty(),
        });
    }
    v
}

/// Arguments for connecting a network-addressed device: `connect <address>`.
pub fn connect_args(address: &str) -> (r: Vec<String>)
    ensures
        views(r@) == seq!["connect"@, address@],
{
    let mut v: Vec<String> = Vec::new();
    push_str(&mut v, "connect");
    push_str(&mut v, address);
    proof {
        assert(views(v@) =~= seq!["connect"@, address@]);
    }
    v
}

/// Arguments for disconnecting one device, or all: `disconnect [<address>]`.
pub fn disconnect_args(address: Option<&str>) -> (r: Vec<String>)
    ensures
        views(r@) == seq!["disconnect"@] + match opt_view(address) {
            Some(a) => seq![a],
            None => Seq::empty(),
        },
{
    let mut v: Vec<String> = Vec::new();
    push_str(&mut v, "disconnect");
    match address {
        Some(a) => {
            push_str(&mut v, a);
        },
        None => {},
    }
    proof {
        assert(views(v@) =~= seq!["disconnect"@] + match opt_view(address) {
            Some(a) => seq![a],
            None => Seq::<Seq<char>>::empty(),
        });
    }
    v
}

/// Arguments for an uninstall: `[-s serial] uninstall <package>`.
pub fn uninstall_args(package: &str, device: Option<&str>) -> (r: Vec<String>)
    ensures
        views(r@) == device_prefix(opt_view(device)) + seq!["uninstall"@, package@],
{
    let mut v: Vec<String> = Vec::new();
    push_device(&mut v, device);
    push_str(&mut v, "uninstall");
    push_str(&mut v, package);
    proof {
        assert(views(v@) =~= device_prefix(opt_view(device)) + seq!["uninstall"@, package@]);
    }
    v
}

/// Arguments for sideloading an update package: `[-s serial] sideload <ota>`.
pub fn sideload_args(ota_path: &str, device: Option<&str>) -> (r: Vec<String>)
    ensures
        views(r@) == device_prefix(opt_view(device)) + seq!["sideload"@, ota_path@],
{
    let mut v: Vec<String> = Vec::new();
    push_device(&mut v, device);
    push_str(&mut v, "sideload");
    push_str(&mut v, ota_path);
    proof {
        assert(views(v@) =~= device_prefix(opt_view(device)) + seq!["sideload"@, ota_path@]);
    }
    v
}

/// Arguments for flashing a partition from an image: `flash <partition> <image>`.
pub fn flash_args(partition: &str, image_path: &str) -> (r: Vec<String>)
    ensures
        views(r@) == seq!["flash"@, partition@, image_path@],
{
    let mut v: Vec<String> = Vec::new();
    push_str(&mut v, "flash");
    push_str(&mut v, partition);
    push_str(&mut v, image_path);
    proof {
        assert(views(v@) =~= seq!["flash"@, partition@, image_path@]);
    }
    v
}

/// Arguments for a bootloader reboot, optionally into a named mode:
/// `reboot [<mode>]`.
pub fn bootloader_reboot_args(mode: Option<&str>) -> (r: Vec<String>)
    ensures
        views(r@) == seq!["reboot"@] + match opt_view(mode) {
            Some(m) => seq![m],
            None => Seq::empty(),
        },
{
    reboot_args(mode, None)
}

/// Arguments for unlocking the bootloader: `flashing unlock`.
pub fn unlock_args() -> (r: Vec<String>)
    ensures
        views(r@) == seq!["flashing"@, "unlock"@],
{
    let mut v: Vec<String> = Vec::new();
    push_str(&mut v, "flashing");
    push_str(&mut v, "unlock");
    proof {
        assert(views(v@) =~= seq!["flashing"@, "unlock"@]);
    }
    v
}

/// Arguments for querying a bootloader variable: `getvar <var>`.
pub fn getvar_args(var: &str) -> (r: Vec<String>)
    ensures
        views(r@) == seq!["getvar"@, var@],
{
    let mut v: Vec<String> = Vec::new();
    push_str(&mut v, "getvar");
    push_str(&mut v, var);
    proof {
        assert(views(v@) =~= seq!["getvar"@, var@]);
    }
    v
}

/// Arguments for selecting the active slot: `set_active <slot>`.
pub fn set_active_args(slot: &str) -> (r: Vec<String>)
    ensures
        views(r@) == seq!["set_active"@, slot@],
{
    let mut v: Vec<String> = Vec::new();
    push_str(&mut v, "set_active");
    push_str(&mut v, slot);
    proof {
        assert(views(v@) =~= seq!["set_active"@, slot@]);
    }
    v
}

/// Arguments for erasing a partition: `erase <partition>`.
pub fn erase_args(partition: &str) -> (r: Vec<String>)
    ensures
        views(r@) == seq!["erase"@, partition@],
{
    let mut v: Vec<String> = Vec::new();
    push_str(&mut v, "erase");
    push_str(&mut v, partition);
    proof {
        assert(views(v@) =~= seq!["erase"@, partition@]);
    }
    v
}

/// Arguments for dumping the last hundred timestamped log lines:
/// `[-s serial] logcat -d -v time -t 100`.
pub fn logcat_args(device: Option<&str>) -> (r: Vec<String>)
    ensures
        views(r@) == device_prefix(opt_view(device)) + seq![
            "logcat"@,
            "-d"@,
            "-v"@,
            "time"@,
            "-t"@,
            "100"@,
        ],
{
    let mut v: Vec<String> = Vec::new();
    push_device(&mut v, device);
    push_str(&mut v, "logcat");
    push_str(&mut v, "-d");
    push_str(&mut v, "-v");
    push_str(&mut v, "time");
    push_str(&mut v, "-t");
    push_str(&mut v, "100");
    proof {
        assert(views(v@) =~= device_prefix(opt_view(device)) + seq![
            "logcat"@,
            "-d"@,
            "-v"@,
            "time"@,
            "-t"@,
            "100"@,
        ]);
    }
    v
}

/// Arguments for clearing the log buffer: `[-s serial] logcat -c`.
pub fn clear_logcat_args(device: Option<&str>) -> (r: Vec<String>)
    ensures
        views(r@) == device_prefix(opt_view(device)) + seq!["logcat"@, "-c"@],
{
    let mut v: Vec<String> = Vec::new();
    push_device(&mut v, device);
    push_str(&mut v, "logcat");
    push_str(&mut v, "-c");
    proof {
        assert(views(v@) =~= device_prefix(opt_view(device)) + seq!["logcat"@, "-c"@]);
    }
    v
}

/// Arguments for recording the screen to a file, mirroring-tool grammar:
/// `--record <path> [-s serial]`.
pub fn record_args(output_path: &str, device: Option<&str>) -> (r: Vec<String>)
    ensures
        views(r@) == seq!["--record"@, output_path@] + device_prefix(opt_view(device)),
{
    let mut v: Vec<String> = Vec::new();
    push_str(&mut v, "--record");
    push_str(&mut v, output_path);
    push_device(&mut v, device);
    proof {
        assert(views(v@) =~= seq!["--record"@, output_path@] + device_prefix(opt_view(device)));
    }
    v
}

/// Arguments for asking the package manager where a package lives:
/// `[-s serial] shell pm path <package>`.
pub fn pm_path_args(package: &str, device: Option<&str>) -> (r: Vec<String>)
    ensures
        views(r@) == device_prefix(opt_view(device)) + seq!["shell"@, "pm"@, "path"@, package@],
{
    let mut v: Vec<String> = Vec::new();
    push_device(&mut v, device);
    push_str(&mut v, "shell");
    push_str(&mut v, "pm");
    push_str(&mut v, "path");
    push_str(&mut v, package);
    proof {
        assert(views(v@) =~= device_prefix(opt_view(device)) + seq![
            "shell"@,
            "pm"@,
            "path"@,
            package@,
        ]);
    }
    v
}

/// Arguments for capturing the screen to the device-side temporary file:
/// `[-s serial] shell screencap -p /sdcard/screenshot.png`.
pub fn screencap_args(device: Option<&str>) -> (r: Vec<String>)
    ensures
        views(r@) == device_prefix(opt_view(device)) + seq![
            "shell"@,
            "screencap"@,
            "-p"@,
            "/sdcard/screenshot.png"@,
        ],
{
    let mut v: Vec<String> = Vec::new();
    push_device(&mut v, device);
    push_str(&mut v, "shell");
    push_str(&mut v, "screencap");
    push_str(&mut v, "-p");
    push_str(&mut v, "/sdcard/screenshot.png");
    proof {
        assert(views(v@) =~= device_prefix(opt_view(device)) + seq![
            "shell"@,
            "screencap"@,
            "-p"@,
            "/sdcard/screenshot.png"@,
        ]);
    }
    v
}

/// Arguments for removing the device-side temporary screenshot:
/// `[-s serial] shell rm /sdcard/screenshot.png`.
pub fn screenshot_rm_args(device: Option<&str>) -> (r: Vec<String>)
    ensures
        views(r@) == device_prefix(opt_view(device)) + seq![
            "shell"@,
            "rm"@,
            "/sdcard/screenshot.png"@,
        ],
{
    let mut v: Vec<String> = Vec::new();
    push_device(&mut v, device);
    push_str(&mut v, "shell");
    push_str(&mut v, "rm");
    push_str(&mut v, "/sdcard/screenshot.png");
    proof {
        assert(views(v@) =~= device_prefix(opt_view(device)) + seq![
            "shell"@,
            "rm"@,
            "/sdcard/screenshot.png"@,
        ]);
    }
    v
}

/// Arguments for dumping a package's badging metadata: `dump badging <apk>`.
pub fn badging_args(apk_path: &str) -> (r: Vec<String>)
    ensures
        views(r@) == seq!["dump"@, "badging"@, apk_path@],
{
    let mut v: Vec<String> = Vec::new();
    push_str(&mut v, "dump");
    push_str(&mut v, "badging");
    push_str(&mut v, apk_path);
    proof {
        assert(views(v@) =~= seq!["dump"@, "badging"@, apk_path@]);
    }
    v
}

} // verus!
