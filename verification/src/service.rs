//! Service registration, split at the operating-system edge: the library
//! builds the exact text of the unit files and decides the uninstall steps;
//! writing files, resolving the home directory and invoking the service
//! manager happen outside it.

use vstd::prelude::*;
use vstd::string::StringExecFns;

verus! {

/// Opening of the LaunchAgent property list, up to the executable path.
pub const LAUNCHD_PLIST_HEAD: &'static str = r#"<?xml version="1.0" encoding="UTF-8"?>
<!DOCTYPE plist PUBLIC "-//Apple//DTD PLIST 1.0//EN" "http://www.apple.com/DTDs/PropertyList-1.0.dtd">
<plist version="1.0">
  <dict>
    <key>Label</key>
    <string>com.nodoze.daemon</string>
    <key>ProgramArguments</key>
    <array>
      <string>"#;

/// Remainder of the LaunchAgent property list after the executable path.
pub const LAUNCHD_PLIST_TAIL: &'static str = r#"</string>
      <string>run</string>
    </array>
    <key>RunAtLoad</key>
    <true/>
    <key>KeepAlive</key>
    <true/>
    <key>StandardErrorPath</key>
    <string>/tmp/nodoze.err</string>
    <key>StandardOutPath</key>
    <string>/tmp/nodoze.out</string>
  </dict>
</plist>"#;

/// Opening of the systemd user unit, up to the executable path.
pub const SYSTEMD_UNIT_HEAD: &'static str = r#"[Unit]
Description=NoDoze - Keep speakers alive with inaudible tones
After=sound.target

[Service]
Type=simple
ExecStart="#;

/// Remainder of the systemd user unit after the executable path.
pub const SYSTEMD_UNIT_TAIL: &'static str = r#" run
Restart=on-failure
RestartSec=10

[Install]
WantedBy=default.target
"#;

/// The LaunchAgent property list that has the service manager start the
/// program with its daemon command.
pub fn launchd_plist_text(exe: &str) -> (r: String)
    ensures
        r@ == LAUNCHD_PLIST_HEAD@ + exe@ + LAUNCHD_PLIST_TAIL@,
{
    let r = String::from_str(LAUNCHD_PLIST_HEAD).concat(exe).concat(LAUNCHD_PLIST_TAIL);
    proof {
        assert(r@ =~= LAUNCHD_PLIST_HEAD@ + exe@ + LAUNCHD_PLIST_TAIL@);
    }
    r
}

/// The systemd user unit that has the service manager start the program with
/// its daemon command.
pub fn systemd_unit_text(exe: &str) -> (r: String)
    ensures
        r@ == SYSTEMD_UNIT_HEAD@ + exe@ + SYSTEMD_UNIT_TAIL@,
{
    let r = String::from_str(SYSTEMD_UNIT_HEAD).concat(exe).concat(SYSTEMD_UNIT_TAIL);
    proof {
        assert(r@ =~= SYSTEMD_UNIT_HEAD@ + exe@ + SYSTEMD_UNIT_TAIL@);
    }
    r
}

/// The steps the platform layer must take to remove the installed service.
#[derive(Clone, Copy, Debug, PartialEq, Eq, Structural)]
pub enum UninstallPlan {
    /// Stop the registered service, then delete its unit file.
    StopAndRemove,
    /// Nothing is installed: only report so; uninstalling still succeeds.
    NothingInstalled,
}

/// Decide the uninstall steps from whether the service's unit file exists.
/// A missing unit is not an error; it only changes what is reported.
pub fn uninstall(unit_file_exists: bool) -> (p: UninstallPlan)
    ensures
        p == if unit_file_exists {
            UninstallPlan::StopAndRemove
        } else {
            UninstallPlan::NothingInstalled
        },
{
    if unit_file_exists {
        UninstallPlan::StopAndRemove
    } else {
        UninstallPlan::NothingInstalled
    }
}

} // verus!
