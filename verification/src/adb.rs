//! Decisions and parsing around the external device-debugging tool.
//!
//! The tool itself is an external collaborator: the embedding process runs
//! it and captures exit status and output. Everything that is decided from
//! that output is here, verified: outcome classification, the
//! connected-device listing, the connectivity check, and the local-device
//! wildcard resolution.

use vstd::prelude::*;
use vstd::string::*;

use crate::text::{
    first_token, is_blank, is_prefix, spec_blank, spec_first_token, spec_lines, spec_trim,
    split_lines, str_starts_with, trim,
};

verus! {

/// Wildcard identifier the window-info path accepts; it names the single
/// connected device.
pub open spec fn local_id() -> Seq<char> {
    "local"@
}

/// The typed failures of the device-command executor.
#[derive(Debug)]
pub enum AdbError {
    /// The tool could not be invoked or reported no version.
    NotAvailable { stderr: String },
    /// The tool exited unsuccessfully.
    CommandFailed { command: String, stderr: String },
    /// The tool exited successfully but produced only error text.
    NoOutput { stderr: String },
    /// The local wildcard was used with no device connected.
    NoDevices,
    /// The local wildcard was used with several devices connected.
    MultipleDevices,
    /// The target device is not in the connected listing.
    DeviceNotConnected { device_id: String },
    /// The activity query produced no output to parse.
    NoVisibleActivity,
    /// The activity query's output held no recognizable activity record.
    ParseFailed { output: String },
}

impl AdbError {
    /// Error text of each failure; the stderr embedded in a command failure
    /// is trimmed of surrounding whitespace.
    pub open spec fn spec_message(self) -> Seq<char> {
        match self {
            AdbError::NotAvailable { stderr } => "ADB not available: "@ + stderr@,
            AdbError::CommandFailed { command, stderr } => "ADB command failed: "@ + command@
                + ". Error: "@ + spec_trim(stderr@),
            AdbError::NoOutput { stderr } => "Command produced no output: "@ + spec_trim(
                stderr@,
            ),
            AdbError::NoDevices => "No devices connected"@,
            AdbError::MultipleDevices => "Multiple devices connected, please specify a device ID"@,
            AdbError::DeviceNotConnected { device_id } => "Device not connected: "@ + device_id@,
            AdbError::NoVisibleActivity => "No visible activity found"@,
            AdbError::ParseFailed { output } => "Failed to parse activity info from: "@ + output@,
        }
    }

    pub fn message(&self) -> (r: String)
        ensures
            r@ == self.spec_message(),
    {
        match self {
            AdbError::NotAvailable { stderr } => "ADB not available: ".to_owned().concat(
                stderr.as_str(),
            ),
            AdbError::CommandFailed { command, stderr } => "ADB command failed: ".to_owned().concat(
                command.as_str(),
            ).concat(". Error: ").concat(trim(stderr.as_str()).as_str()),
            AdbError::NoOutput { stderr } => "Command produced no output: ".to_owned().concat(
                trim(stderr.as_str()).as_str(),
            ),
            AdbError::NoDevices => "No devices connected".to_owned(),
            AdbError::MultipleDevices => "Multiple devices connected, please specify a device ID".to_owned(),
            AdbError::DeviceNotConnected { device_id } => "Device not connected: ".to_owned().concat(
                device_id.as_str(),
            ),
            AdbError::NoVisibleActivity => "No visible activity found".to_owned(),
            AdbError::ParseFailed { output } => "Failed to parse activity info from: ".to_owned().concat(
                output.as_str(),
            ),
        }
    }
}

/// Outcome of the tool's version probe: an unsuccessful exit means the tool
/// is not available.
pub fn classify_version_output(status_success: bool, stderr: String) -> (r: Result<(), AdbError>)
    ensures
        status_success <==> r is Ok,
        r matches Err(e) ==> e matches AdbError::NotAvailable { stderr: s } && s@ == stderr@,
{
    if status_success {
        Ok(())
    } else {
        Err(AdbError::NotAvailable { stderr })
    }
}

/// Outcome classification for one run of the tool: a failed exit reports
/// the command and its error text; a success whose standard output is blank
/// while error text is not reports no-output; otherwise the standard output
/// is the result, verbatim.
pub fn classify_command_output(
    status_success: bool,
    command: String,
    stdout: String,
    stderr: String,
) -> (r: Result<String, AdbError>)
    ensures
        !status_success ==> (r matches Err(AdbError::CommandFailed { command: c, stderr: s })
            && c@ == command@ && s@ == stderr@),
        status_success && spec_blank(stdout@) && !spec_blank(stderr@) ==> (r matches Err(
            AdbError::NoOutput { stderr: s },
        ) && s@ == stderr@),
        status_success && !(spec_blank(stdout@) && !spec_blank(stderr@)) ==> (r matches Ok(out)
            && out@ == stdout@),
{
    if !status_success {
        return Err(AdbError::CommandFailed { command, stderr });
    }
    if is_blank(stdout.as_str()) && !is_blank(stderr.as_str()) {
        return Err(AdbError::NoOutput { stderr });
    }
    Ok(stdout)
}

/// A listing line counts for `d` when it is not blank and starts with `d`
/// (an empty `d` therefore counts every non-blank line).
pub open spec fn spec_line_matches(line: Seq<char>, d: Seq<char>) -> bool {
    !spec_blank(line) && is_prefix(d, line)
}

pub open spec fn spec_any_match(lines: Seq<Seq<char>>, d: Seq<char>) -> bool
    decreases lines.len(),
{
    if lines.len() == 0 {
        false
    } else {
        spec_line_matches(lines[0], d) || spec_any_match(lines.drop_first(), d)
    }
}

/// Whether the listing (header line first) shows `d` connected.
pub open spec fn spec_device_connected(s: Seq<char>, d: Seq<char>) -> bool {
    if spec_lines(s).len() <= 1 {
        false
    } else {
        spec_any_match(spec_lines(s).skip(1), d)
    }
}

/// The device identifiers in the listing: the first token of every line
/// after the header, blank lines yielding none.
pub open spec fn spec_device_tokens(lines: Seq<Seq<char>>) -> Seq<Seq<char>>
    decreases lines.len(),
{
    if lines.len() == 0 {
        Seq::empty()
    } else {
        let t = spec_first_token(lines[0]);
        if t.len() > 0 {
            seq![t] + spec_device_tokens(lines.drop_first())
        } else {
            spec_device_tokens(lines.drop_first())
        }
    }
}

pub open spec fn spec_devices(s: Seq<char>) -> Seq<Seq<char>> {
    if spec_lines(s).len() <= 1 {
        Seq::empty()
    } else {
        spec_device_tokens(spec_lines(s).skip(1))
    }
}

/// Handle on the external device-debugging tool: its invocation path.
#[derive(Debug, Clone)]
pub struct AdbCommand {
    adb_path: String,
}

impl View for AdbCommand {
    type V = Seq<char>;

    closed spec fn view(&self) -> Seq<char> {
        self.adb_path@
    }
}

impl Default for AdbCommand {
    fn default() -> (r: AdbCommand)
        ensures
            r@ == "adb"@,
    {
        AdbCommand { adb_path: "adb".to_owned() }
    }
}

impl AdbCommand {
    pub fn get_path(&self) -> (r: String)
        ensures
            r@ == self@,
    {
        self.adb_path.clone()
    }

    /// Whether the device listing shows `device_id` connected: some
    /// non-blank line after the header starts with it. `listing` is `None`
    /// when the tool could not be run, which never counts as connected.
    pub fn check_device_connected(&self, listing: Option<&str>, device_id: &str) -> (r: bool)
        ensures
            listing is None ==> r == false,
            listing matches Some(s) ==> r == spec_device_connected(s@, device_id@),
    {
        let s = match listing {
            Some(s) => s,
            None => {
                return false;
            },
        };
        let lines = split_lines(s);
        let ghost el = lines.deep_view();
        if lines.len() <= 1 {
            return false;
        }
        let mut i: usize = 1;
        while i < lines.len()
            invariant
                1 <= i <= el.len(),
                el == lines.deep_view(),
                el.len() == lines@.len(),
                el == spec_lines(s@),
                listing == Some(s),
                el.len() > 1,
                spec_any_match(el.skip(1), device_id@) == spec_any_match(
                    el.skip(i as int),
                    device_id@,
                ),
            decreases el.len() - i,
        {
            proof {
                assert(el.skip(i as int).drop_first() =~= el.skip(i + 1));
                assert(el.skip(i as int)[0] == el[i as int]);
                assert(el[i as int] == lines@[i as int].deep_view());
            }
            let line = &lines[i];
            if !is_blank(line.as_str()) && str_starts_with(line.as_str(), device_id) {
                return true;
            }
            i = i + 1;
        }
        proof {
            assert(el.skip(i as int) =~= Seq::<Seq<char>>::empty());
        }
        false
    }

    /// The connected devices the listing shows, in listing order.
    pub fn get_connected_devices(&self, listing: &str) -> (r: Vec<String>)
        ensures
            r.deep_view() == spec_devices(listing@),
    {
        let lines = split_lines(listing);
        let ghost el = lines.deep_view();
        let mut out: Vec<String> = Vec::new();
        if lines.len() <= 1 {
            return out;
        }
        let mut i: usize = 1;
        while i < lines.len()
            invariant
                1 <= i <= el.len(),
                el == lines.deep_view(),
                el.len() == lines@.len(),
                el == spec_lines(listing@),
                el.len() > 1,
                out.deep_view() + spec_device_tokens(el.skip(i as int)) =~= spec_devices(
                    listing@,
                ),
            decreases el.len() - i,
        {
            proof {
                assert(el.skip(i as int).drop_first() =~= el.skip(i + 1));
                assert(el.skip(i as int)[0] == el[i as int]);
                assert(el[i as int] == lines@[i as int].deep_view());
            }
            let ghost prev = out.deep_view();
            let token = first_token(lines[i].as_str());
            if token.as_str().unicode_len() > 0 {
                out.push(token);
                proof {
                    assert(out.deep_view() =~= prev.push(spec_first_token(el[i as int])));
                    assert(prev.push(spec_first_token(el[i as int])) + spec_device_tokens(
                        el.skip(i + 1),
                    ) =~= prev + spec_device_tokens(el.skip(i as int)));
                }
            }
            i = i + 1;
        }
        proof {
            assert(el.skip(i as int) =~= Seq::<Seq<char>>::empty());
            assert(out.deep_view() + spec_device_tokens(el.skip(i as int)) =~= out.deep_view());
        }
        out
    }
}

/// Gate on the connectivity check: the window-info query proceeds only for
/// a device the listing shows connected, and otherwise reports exactly
/// which device was not.
pub fn ensure_device_connected(adb: &AdbCommand, listing: Option<&str>, device_id: &str) -> (r:
    Result<(), AdbError>)
    ensures
        r is Ok <==> (listing matches Some(s) && spec_device_connected(s@, device_id@)),
        r matches Err(e) ==> (e matches AdbError::DeviceNotConnected { device_id: d } && d@
            == device_id@),
{
    if adb.check_device_connected(listing, device_id) {
        Ok(())
    } else {
        Err(AdbError::DeviceNotConnected { device_id: device_id.to_owned() })
    }
}

/// Resolves the window-info path's target: the local wildcard names the
/// single connected device and fails when there are none or several; any
/// other identifier names itself.
pub fn resolve_local_device(device_id: &str, devices: &Vec<String>) -> (r: Result<
    String,
    AdbError,
>)
    ensures
        device_id@ != local_id() ==> (r matches Ok(d) && d@ == device_id@),
        device_id@ == local_id() && devices@.len() == 0 ==> (r matches Err(e) && e
            == AdbError::NoDevices),
        device_id@ == local_id() && devices@.len() > 1 ==> (r matches Err(e) && e
            == AdbError::MultipleDevices),
        device_id@ == local_id() && devices@.len() == 1 ==> (r matches Ok(d) && d@
            == devices.deep_view()[0]),
{
    if device_id.to_owned() == "local".to_owned() {
        if devices.len() == 0 {
            Err(AdbError::NoDevices)
        } else if devices.len() > 1 {
            Err(AdbError::MultipleDevices)
        } else {
            let d = devices[0].clone();
            assert(d@ == devices.deep_view()[0]);
            Ok(d)
        }
    } else {
        Ok(device_id.to_owned())
    }
}

} // verus!
