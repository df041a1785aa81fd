//! Auto-start registration for the current user: the task, agent and unit definitions, and the
//! reading of what the platform tools report. Every mechanism is per-user and at logon, because
//! injecting input is only meaningful inside the user's desktop session; running the tools and
//! writing the files is the caller's part.
use vstd::prelude::*;

use crate::engine::error::EngineError;
use crate::text::{
    eq_ignore_ascii_case, eq_ignore_ascii_case_spec, is_blank_spec, is_white_space,
    is_white_space_spec, push_char, starts_with, starts_with_spec, str_eq, trim, trim_spec,
    trim_start, trim_start_spec,
};

verus! {

/// Scheduled Task name on Windows.
pub const WINDOWS_TASK_NAME: &'static str = "MuxDeck";

/// File name the Windows task definition is written under, in the config directory. Kept as a
/// record of what was registered.
pub const WINDOWS_TASK_FILE: &'static str = "scheduled-task.xml";

/// launchd label on macOS; also the plist file stem.
pub const LAUNCHD_LABEL: &'static str = "in.redoimagined.muxdeck";

/// systemd user unit name on Linux.
pub const SYSTEMD_UNIT_NAME: &'static str = "muxdeck.service";

/// File name the udev rule is written under, in the config directory and under
/// `/etc/udev/rules.d/`; the `99-` prefix keeps it last.
pub const UDEV_RULE_FILE: &'static str = "99-muxdeck-uinput.rules";

/// The udev rule that makes `/dev/uinput` writable by the `input` group. Installing it needs
/// root, so it is written out for the user rather than installed silently.
pub const UDEV_RULE: &'static str = "# MuxDeck: let members of the `input` group open /dev/uinput for writing.\nKERNEL==\"uinput\", GROUP=\"input\", MODE=\"0660\"\n";

/// Whether auto-start is registered, and if so whether it is up. Three states, because the
/// panel offers Install, Start, or nothing for each.
#[derive(Debug, Clone, Copy, PartialEq, Eq, Structural)]
pub enum ServiceStatus {
    /// No task, agent or unit exists for this user.
    NotInstalled,
    /// Registered to start at logon, but not running right now.
    InstalledStopped,
    /// Registered and currently running.
    Running,
}

impl ServiceStatus {
    pub open spec fn text_spec(self) -> Seq<char> {
        match self {
            ServiceStatus::NotInstalled => "not installed"@,
            ServiceStatus::InstalledStopped => "installed, not running"@,
            ServiceStatus::Running => "installed and running"@,
        }
    }

    pub fn as_str(self) -> (r: &'static str)
        ensures
            r@ == self.text_spec(),
    {
        match self {
            ServiceStatus::NotInstalled => "not installed",
            ServiceStatus::InstalledStopped => "installed, not running",
            ServiceStatus::Running => "installed and running",
        }
    }
}

/// What `install` did, and what it deliberately left for the user to do.
#[derive(Debug, Clone)]
pub struct Installation {
    /// Where the registration now lives.
    pub location: String,
    /// Follow-up steps the tool did not take, plus any warning about the binary's location.
    pub notes: Vec<String>,
}

// ---------------------------------------------------------------------------------------------
// XML escaping.
// ---------------------------------------------------------------------------------------------

/// The escape of one character: the five XML metacharacters become entities.
pub open spec fn xml_char_spec(c: char) -> Seq<char> {
    if c == '&' {
        "&amp;"@
    } else if c == '<' {
        "&lt;"@
    } else if c == '>' {
        "&gt;"@
    } else if c == '"' {
        "&quot;"@
    } else if c == '\'' {
        "&apos;"@
    } else {
        seq![c]
    }
}

/// `raw` with each XML metacharacter replaced by its entity.
pub open spec fn xml_escape_spec(raw: Seq<char>) -> Seq<char>
    decreases raw.len(),
{
    if raw.len() == 0 {
        Seq::empty()
    } else {
        xml_escape_spec(raw.drop_last()) + xml_char_spec(raw.last())
    }
}

/// Escapes the five XML metacharacters. A home directory named after `Ben & Jerry` would
/// otherwise make the plist malformed, and launchd would silently ignore it.
pub fn xml_escape(raw: &str) -> (r: String)
    ensures
        r@ == xml_escape_spec(raw@),
{
    let n = raw.unicode_len();
    let mut out = String::new();
    let mut i: usize = 0;
    while i < n
        invariant
            n == raw@.len(),
            i <= n,
            out@ == xml_escape_spec(raw@.take(i as int)),
        decreases n - i,
    {
        let c = raw.get_char(i);
        assert(raw@.take(i + 1).drop_last() =~= raw@.take(i as int));
        if c == '&' {
            out.append("&amp;");
        } else if c == '<' {
            out.append("&lt;");
        } else if c == '>' {
            out.append("&gt;");
        } else if c == '"' {
            out.append("&quot;");
        } else if c == '\'' {
            out.append("&apos;");
        } else {
            push_char(&mut out, c);
        }
        i = i + 1;
    }
    assert(raw@.take(n as int) =~= raw@);
    out
}

// ---------------------------------------------------------------------------------------------
// The definitions.
// ---------------------------------------------------------------------------------------------

/// The Scheduled Task definition for `schtasks /Create /XML`: a logon trigger and principal
/// that both name the user, so it is a per-user registration needing no elevation; an
/// interactive token, so the daemon runs in the user's session; least privilege; no execution
/// time limit; no stopping on battery; one instance at a time.
pub open spec fn task_xml_spec(exe: Seq<char>, user: Seq<char>) -> Seq<char> {
    "<?xml version=\"1.0\" encoding=\"UTF-16\"?>\n<Task version=\"1.2\" xmlns=\"http://schemas.microsoft.com/windows/2004/02/mit/task\">\n  <RegistrationInfo>\n    <Description>Starts the MuxDeck daemon in this user's desktop session at logon.</Description>\n  </RegistrationInfo>\n  <Triggers>\n    <LogonTrigger>\n      <Enabled>true</Enabled>\n      <UserId>"@ + xml_escape_spec(user) + "</UserId>\n    </LogonTrigger>\n  </Triggers>\n  <Principals>\n    <Principal id=\"Author\">\n      <UserId>"@ + xml_escape_spec(user) + "</UserId>\n      <LogonType>InteractiveToken</LogonType>\n      <RunLevel>LeastPrivilege</RunLevel>\n    </Principal>\n  </Principals>\n  <Settings>\n    <MultipleInstancesPolicy>IgnoreNew</MultipleInstancesPolicy>\n    <DisallowStartIfOnBatteries>false</DisallowStartIfOnBatteries>\n    <StopIfGoingOnBatteries>false</StopIfGoingOnBatteries>\n    <AllowHardTerminate>true</AllowHardTerminate>\n    <StartWhenAvailable>false</StartWhenAvailable>\n    <RunOnlyIfNetworkAvailable>false</RunOnlyIfNetworkAvailable>\n    <IdleSettings>\n      <StopOnIdleEnd>false</StopOnIdleEnd>\n      <RestartOnIdle>false</RestartOnIdle>\n    </IdleSettings>\n    <AllowStartOnDemand>true</AllowStartOnDemand>\n    <Enabled>true</Enabled>\n    <Hidden>false</Hidden>\n    <RunOnlyIfIdle>false</RunOnlyIfIdle>\n    <WakeToRun>false</WakeToRun>\n    <ExecutionTimeLimit>PT0S</ExecutionTimeLimit>\n    <Priority>7</Priority>\n    <RestartOnFailure>\n      <Interval>PT1M</Interval>\n      <Count>3</Count>\n    </RestartOnFailure>\n  </Settings>\n  <Actions Context=\"Author\">\n    <Exec>\n      <Command>"@ + xml_escape_spec(exe) + "</Command>\n    </Exec>\n  </Actions>\n</Task>\n"@
}

/// The Scheduled Task definition for the binary at `exe`, run as `user` (`DOMAIN\\user`).
pub fn windows_task_xml(exe: &str, user: &str) -> (r: String)
    ensures
        r@ == task_xml_spec(exe@, user@),
{
    let exe = xml_escape(exe);
    let user = xml_escape(user);
    let mut s = String::from_str("<?xml version=\"1.0\" encoding=\"UTF-16\"?>\n<Task version=\"1.2\" xmlns=\"http://schemas.microsoft.com/windows/2004/02/mit/task\">\n  <RegistrationInfo>\n    <Description>Starts the MuxDeck daemon in this user's desktop session at logon.</Description>\n  </RegistrationInfo>\n  <Triggers>\n    <LogonTrigger>\n      <Enabled>true</Enabled>\n      <UserId>");
    s.append(user.as_str());
    s.append("</UserId>\n    </LogonTrigger>\n  </Triggers>\n  <Principals>\n    <Principal id=\"Author\">\n      <UserId>");
    s.append(user.as_str());
    s.append("</UserId>\n      <LogonType>InteractiveToken</LogonType>\n      <RunLevel>LeastPrivilege</RunLevel>\n    </Principal>\n  </Principals>\n  <Settings>\n    <MultipleInstancesPolicy>IgnoreNew</MultipleInstancesPolicy>\n    <DisallowStartIfOnBatteries>false</DisallowStartIfOnBatteries>\n    <StopIfGoingOnBatteries>false</StopIfGoingOnBatteries>\n    <AllowHardTerminate>true</AllowHardTerminate>\n    <StartWhenAvailable>false</StartWhenAvailable>\n    <RunOnlyIfNetworkAvailable>false</RunOnlyIfNetworkAvailable>\n    <IdleSettings>\n      <StopOnIdleEnd>false</StopOnIdleEnd>\n      <RestartOnIdle>false</RestartOnIdle>\n    </IdleSettings>\n    <AllowStartOnDemand>true</AllowStartOnDemand>\n    <Enabled>true</Enabled>\n    <Hidden>false</Hidden>\n    <RunOnlyIfIdle>false</RunOnlyIfIdle>\n    <WakeToRun>false</WakeToRun>\n    <ExecutionTimeLimit>PT0S</ExecutionTimeLimit>\n    <Priority>7</Priority>\n    <RestartOnFailure>\n      <Interval>PT1M</Interval>\n      <Count>3</Count>\n    </RestartOnFailure>\n  </Settings>\n  <Actions Context=\"Author\">\n    <Exec>\n      <Command>");
    s.append(exe.as_str());
    s.append("</Command>\n    </Exec>\n  </Actions>\n</Task>\n");
    s
}

/// The LaunchAgent plist: the label, the binary, started at load, and a `KeepAlive` that
/// restarts after a crash but leaves a clean shutdown alone.
pub open spec fn plist_spec(exe: Seq<char>) -> Seq<char> {
    "<?xml version=\"1.0\" encoding=\"UTF-8\"?>\n<!DOCTYPE plist PUBLIC \"-//Apple//DTD PLIST 1.0//EN\" \"http://www.apple.com/DTDs/PropertyList-1.0.dtd\">\n<plist version=\"1.0\">\n<dict>\n    <key>Label</key>\n    <string>in.redoimagined.muxdeck</string>\n    <key>ProgramArguments</key>\n    <array>\n        <string>"@ + xml_escape_spec(exe) + "</string>\n    </array>\n    <key>RunAtLoad</key>\n    <true/>\n    <key>KeepAlive</key>\n    <dict>\n        <key>SuccessfulExit</key>\n        <false/>\n    </dict>\n    <key>ProcessType</key>\n    <string>Interactive</string>\n</dict>\n</plist>\n"@
}

pub fn launch_agent_plist(exe: &str) -> (r: String)
    ensures
        r@ == plist_spec(exe@),
{
    let exe = xml_escape(exe);
    let mut s = String::from_str("<?xml version=\"1.0\" encoding=\"UTF-8\"?>\n<!DOCTYPE plist PUBLIC \"-//Apple//DTD PLIST 1.0//EN\" \"http://www.apple.com/DTDs/PropertyList-1.0.dtd\">\n<plist version=\"1.0\">\n<dict>\n    <key>Label</key>\n    <string>in.redoimagined.muxdeck</string>\n    <key>ProgramArguments</key>\n    <array>\n        <string>");
    s.append(exe.as_str());
    s.append("</string>\n    </array>\n    <key>RunAtLoad</key>\n    <true/>\n    <key>KeepAlive</key>\n    <dict>\n        <key>SuccessfulExit</key>\n        <false/>\n    </dict>\n    <key>ProcessType</key>\n    <string>Interactive</string>\n</dict>\n</plist>\n");
    s
}

/// The systemd user unit: the binary quoted so a path with spaces stays one argument,
/// restarted only on failure so a deliberate stop stays stopped, wanted by `default.target`.
pub open spec fn unit_spec(exe: Seq<char>) -> Seq<char> {
    "[Unit]\nDescription=MuxDeck input daemon\nAfter=graphical-session.target\n\n[Service]\nType=simple\nExecStart=\""@ + exe + "\"\nRestart=on-failure\nRestartSec=5\n\n[Install]\nWantedBy=default.target\n"@
}

pub fn systemd_unit(exe: &str) -> (r: String)
    ensures
        r@ == unit_spec(exe@),
{
    let mut s = String::from_str("[Unit]\nDescription=MuxDeck input daemon\nAfter=graphical-session.target\n\n[Service]\nType=simple\nExecStart=\"");
    s.append(exe);
    s.append("\"\nRestart=on-failure\nRestartSec=5\n\n[Install]\nWantedBy=default.target\n");
    s
}

// ---------------------------------------------------------------------------------------------
// UTF-16LE.
// ---------------------------------------------------------------------------------------------

/// The UTF-16 code units of one character.
pub open spec fn utf16_units(c: char) -> Seq<u16> {
    let v = c as u32;
    if v < 0x10000 {
        seq![v as u16]
    } else {
        seq![(0xD800 + (v - 0x10000) / 0x400) as u16, (0xDC00 + (v - 0x10000) % 0x400) as u16]
    }
}

/// A code unit as two bytes, low first.
pub open spec fn le_bytes(u: u16) -> Seq<u8> {
    seq![(u % 256) as u8, (u / 256) as u8]
}

/// The UTF-16LE bytes of a string.
pub open spec fn utf16le_spec(s: Seq<char>) -> Seq<u8>
    decreases s.len(),
{
    if s.len() == 0 {
        Seq::empty()
    } else {
        let units = utf16_units(s.last());
        utf16le_spec(s.drop_last()) + if units.len() == 1 {
            le_bytes(units[0])
        } else {
            le_bytes(units[0]) + le_bytes(units[1])
        }
    }
}

fn push_unit(v: &mut Vec<u8>, u: u16)
    ensures
        final(v)@ == old(v)@ + le_bytes(u),
{
    v.push((u % 256) as u8);
    v.push((u / 256) as u8);
    assert(final(v)@ =~= old(v)@ + le_bytes(u));
}

/// `text` as UTF-16LE after a byte-order mark: what Task Scheduler's own export produces, and
/// what `schtasks /Create /XML` reliably reads when the declaration says UTF-16.
pub fn utf16le_with_bom(text: &str) -> (r: Vec<u8>)
    ensures
        r@ == seq![0xFFu8, 0xFEu8] + utf16le_spec(text@),
{
    let mut bytes: Vec<u8> = Vec::new();
    bytes.push(0xFF);
    bytes.push(0xFE);
    let n = text.unicode_len();
    let mut i: usize = 0;
    while i < n
        invariant
            n == text@.len(),
            i <= n,
            bytes@ == seq![0xFFu8, 0xFEu8] + utf16le_spec(text@.take(i as int)),
        decreases n - i,
    {
        let c = text.get_char(i);
        let v = c as u32;
        assert(text@.take(i + 1).drop_last() =~= text@.take(i as int));
        assert(text@.take(i + 1).last() == c);
        if v < 0x10000 {
            push_unit(&mut bytes, v as u16);
        } else {
            let w = v - 0x10000;
            push_unit(&mut bytes, (0xD800 + w / 0x400) as u16);
            push_unit(&mut bytes, (0xDC00 + w % 0x400) as u16);
        }
        proof {
            assert(bytes@ =~= seq![0xFFu8, 0xFEu8] + utf16le_spec(text@.take(i + 1)));
        }
        i = i + 1;
    }
    assert(text@.take(n as int) =~= text@);
    bytes
}

// ---------------------------------------------------------------------------------------------
// Reading what the platform tools report.
// ---------------------------------------------------------------------------------------------

/// Every character of `s` in `a..b` is white space.
pub open spec fn all_white(s: Seq<char>, a: int, b: int) -> bool {
    forall|j: int| a <= j < b ==> is_white_space_spec(#[trigger] s[j])
}

/// `f` is where the first non-blank character of `s` sits.
pub open spec fn is_first_content(s: Seq<char>, f: int) -> bool {
    0 <= f < s.len() && !is_white_space_spec(s[f]) && all_white(s, 0, f)
}

pub open spec fn first_content(s: Seq<char>) -> int {
    choose|f: int| is_first_content(s, f)
}

/// `e` ends the line that holds `i`: the first newline at or after `i`, or the end.
pub open spec fn is_line_end(s: Seq<char>, i: int, e: int) -> bool {
    &&& i <= e <= s.len()
    &&& e == s.len() || s[e] == '\n'
    &&& forall|j: int| i <= j < e ==> s[j] != '\n'
}

pub open spec fn line_end(s: Seq<char>, i: int) -> int {
    choose|e: int| is_line_end(s, i, e)
}

/// What follows the last comma of `s`, or all of it when there is none.
pub open spec fn after_last_comma(s: Seq<char>) -> Seq<char>
    decreases s.len(),
{
    if s.len() == 0 {
        s
    } else if s.last() == ',' {
        Seq::empty()
    } else {
        after_last_comma(s.drop_last()).push(s.last())
    }
}

/// `s` without its leading and trailing double quotes.
pub open spec fn trim_quotes_start(s: Seq<char>) -> Seq<char>
    decreases s.len(),
{
    if s.len() > 0 && s[0] == '"' {
        trim_quotes_start(s.drop_first())
    } else {
        s
    }
}

pub open spec fn trim_quotes_end(s: Seq<char>) -> Seq<char>
    decreases s.len(),
{
    if s.len() > 0 && s.last() == '"' {
        trim_quotes_end(s.drop_last())
    } else {
        s
    }
}

/// The state column of `schtasks /FO CSV /NH` output: the last field of the first non-blank
/// line, trimmed and unquoted.
pub open spec fn schtasks_state(csv: Seq<char>) -> Seq<char> {
    let f = first_content(csv);
    let line = trim_spec(csv.subrange(f, line_end(csv, f)));
    trim_quotes_end(trim_quotes_start(trim_spec(after_last_comma(line))))
}

/// What `schtasks` output says: nothing but blank lines is not installed; otherwise the task
/// runs exactly when its state reads `running` in any case. A state word localised by Windows
/// degrades to installed-not-running, the harmless direction.
pub open spec fn schtasks_status_spec(csv: Seq<char>) -> ServiceStatus {
    if is_blank_spec(csv) {
        ServiceStatus::NotInstalled
    } else if eq_ignore_ascii_case_spec(schtasks_state(csv), "running"@) {
        ServiceStatus::Running
    } else {
        ServiceStatus::InstalledStopped
    }
}

/// Index of the first non-blank character, if any.
fn first_content_index(s: &str) -> (r: Option<usize>)
    ensures
        match r {
            Some(f) => is_first_content(s@, f as int) && first_content(s@) == f,
            None => is_blank_spec(s@),
        },
{
    let n = s.unicode_len();
    let mut i: usize = 0;
    while i < n
        invariant
            n == s@.len(),
            i <= n,
            all_white(s@, 0, i as int),
        decreases n - i,
    {
        if !is_white_space(s.get_char(i)) {
            proof {
                assert(is_first_content(s@, i as int));
                let w = first_content(s@);
                if w < i {
                    assert(is_white_space_spec(s@[w]));
                }
                if i < w {
                    assert(is_white_space_spec(s@[i as int]));
                }
            }
            return Some(i);
        }
        i = i + 1;
    }
    None
}

/// Index of the newline that ends the line holding `i`, or the length.
fn line_end_index(s: &str, i: usize) -> (r: usize)
    requires
        i <= s@.len(),
    ensures
        is_line_end(s@, i as int, r as int),
        line_end(s@, i as int) == r,
{
    let n = s.unicode_len();
    let mut e: usize = i;
    while e < n && s.get_char(e) != '\n'
        invariant
            n == s@.len(),
            i <= e <= n,
            forall|j: int| i <= j < e ==> s@[j] != '\n',
        decreases n - e,
    {
        e = e + 1;
    }
    proof {
        assert(is_line_end(s@, i as int, e as int));
        let w = line_end(s@, i as int);
        if w < e {
            assert(s@[w] != '\n');
        }
        if e < w {
            assert(s@[e as int] != '\n');
        }
    }
    e
}

/// What follows the last comma.
fn after_comma(s: &str) -> (r: &str)
    ensures
        r@ == after_last_comma(s@),
{
    let n = s.unicode_len();
    let mut j: usize = n;
    assert(s@.subrange(0, n as int) =~= s@);
    while j > 0 && s.get_char(j - 1) != ','
        invariant
            n == s@.len(),
            j <= n,
            after_last_comma(s@) == after_last_comma(s@.subrange(0, j as int)) + s@.subrange(
                j as int,
                n as int,
            ),
        decreases j,
    {
        assert(s@.subrange(0, j as int).drop_last() =~= s@.subrange(0, j - 1));
        assert(s@.subrange(j - 1, n as int) =~= seq![s@[j - 1]] + s@.subrange(j as int, n as int));
        assert(after_last_comma(s@.subrange(0, j as int)) == after_last_comma(s@.subrange(0, j - 1)).push(
            s@[j - 1],
        ));
        assert(after_last_comma(s@.subrange(0, j - 1)).push(s@[j - 1]) + s@.subrange(j as int, n as int)
            =~= after_last_comma(s@.subrange(0, j - 1)) + s@.subrange(j - 1, n as int));
        j = j - 1;
    }
    assert(after_last_comma(s@.subrange(0, j as int)) =~= Seq::<char>::empty());
    assert(Seq::<char>::empty() + s@.subrange(j as int, n as int) =~= s@.subrange(j as int, n as int));
    s.substring_char(j, n)
}

/// Without leading and trailing double quotes.
fn trim_quotes(s: &str) -> (r: &str)
    ensures
        r@ == trim_quotes_end(trim_quotes_start(s@)),
{
    let n = s.unicode_len();
    let mut i: usize = 0;
    assert(s@.subrange(0, n as int) =~= s@);
    while i < n && s.get_char(i) == '"'
        invariant
            n == s@.len(),
            i <= n,
            trim_quotes_start(s@) == trim_quotes_start(s@.subrange(i as int, n as int)),
        decreases n - i,
    {
        assert(s@.subrange(i as int, n as int).drop_first() =~= s@.subrange(i + 1, n as int));
        i = i + 1;
    }
    let mut j: usize = n;
    while j > i && s.get_char(j - 1) == '"'
        invariant
            n == s@.len(),
            i <= j <= n,
            trim_quotes_start(s@) == s@.subrange(i as int, n as int),
            trim_quotes_end(trim_quotes_start(s@)) == trim_quotes_end(s@.subrange(i as int, j as int)),
        decreases j,
    {
        assert(s@.subrange(i as int, j as int).drop_last() =~= s@.subrange(i as int, j - 1));
        j = j - 1;
    }
    s.substring_char(i, j)
}

/// Reads `schtasks /Query /TN MuxDeck /FO CSV /NH` output, whose last column is the state.
pub fn parse_schtasks_status(csv: &str) -> (r: ServiceStatus)
    ensures
        r == schtasks_status_spec(csv@),
{
    let f = match first_content_index(csv) {
        None => {
            return ServiceStatus::NotInstalled;
        },
        Some(f) => f,
    };
    let e = line_end_index(csv, f);
    let line = trim(csv.substring_char(f, e));
    let state = trim_quotes(trim(after_comma(line)));
    if eq_ignore_ascii_case(state, "running") {
        ServiceStatus::Running
    } else {
        ServiceStatus::InstalledStopped
    }
}

/// Between the start of its line and `i` there is only white space.
pub open spec fn only_space_before(s: Seq<char>, i: int) -> bool
    decreases i,
{
    if i <= 0 {
        true
    } else if s[i - 1] == '\n' {
        true
    } else {
        is_white_space_spec(s[i - 1]) && only_space_before(s, i - 1)
    }
}

/// `s` begins with the five characters `"PID"`.
pub open spec fn starts_with_pid_key(s: Seq<char>) -> bool {
    s.len() >= 5 && s[0] == '"' && s[1] == 'P' && s[2] == 'I' && s[3] == 'D' && s[4] == '"'
}

/// Some line of `launchctl list <label>` output begins, after its indentation, with the
/// `"PID"` key, which launchd prints only while the job is actually running.
pub open spec fn reports_pid_spec(s: Seq<char>) -> bool {
    exists|i: int| 0 <= i < s.len() && only_space_before(s, i) && #[trigger] starts_with_pid_key(s.skip(i))
}

/// True when `launchctl list <label>` shows a live process.
pub fn launchctl_reports_a_pid(list_output: &str) -> (r: bool)
    ensures
        r == reports_pid_spec(list_output@),
{
    let s = list_output;
    let n = s.unicode_len();
    let mut i: usize = 0;
    let mut at_line_start = true;
    while i < n
        invariant
            s@ == list_output@,
            n == s@.len(),
            i <= n,
            at_line_start == only_space_before(s@, i as int),
            forall|j: int|
                0 <= j < i ==> !(only_space_before(s@, j) && #[trigger] starts_with_pid_key(s@.skip(j))),
        decreases n - i,
    {
        if at_line_start && 5 <= n - i && s.get_char(i) == '"' && s.get_char(i + 1) == 'P'
            && s.get_char(i + 2) == 'I' && s.get_char(i + 3) == 'D' && s.get_char(i + 4) == '"' {
            assert(starts_with_pid_key(s@.skip(i as int)));
            return true;
        }
        assert(!starts_with_pid_key(s@.skip(i as int)) || !only_space_before(s@, i as int));
        let c = s.get_char(i);
        at_line_start = c == '\n' || (is_white_space(c) && at_line_start);
        i = i + 1;
    }
    false
}

/// True when `systemctl --user is-active` printed `active`; `activating` is not counted, since
/// the socket is not up yet.
pub fn systemctl_reports_active(is_active_output: &str) -> (r: bool)
    ensures
        r == (trim_spec(is_active_output@) == "active"@),
{
    str_eq(trim(is_active_output), "active")
}

// ---------------------------------------------------------------------------------------------
// Where the binary lives.
// ---------------------------------------------------------------------------------------------

/// Some path component is `target` followed by `debug` or `release`, in any ASCII case: the
/// build output directory of a `cargo run`.
pub open spec fn has_build_dir(components: Seq<String>) -> bool {
    exists|i: int|
        0 <= i < components.len() - 1 && #[trigger] eq_ignore_ascii_case_spec(components[i]@, "target"@)
            && (eq_ignore_ascii_case_spec(components[i + 1]@, "debug"@) || eq_ignore_ascii_case_spec(
            components[i + 1]@,
            "release"@,
        ))
}

/// True when the binary sits somewhere a permanent registration should not point at: under the
/// temporary directory, or in a build directory that the next `cargo clean` removes.
pub fn is_transient_exe_path(components: &[String], in_temp_dir: bool) -> (r: bool)
    ensures
        r == (in_temp_dir || has_build_dir(components@)),
{
    if in_temp_dir {
        return true;
    }
    let n = components.len();
    let mut i: usize = 0;
    while i < n && i + 1 < n
        invariant
            n == components@.len(),
            i <= n,
            forall|j: int|
                0 <= j < i && j < n - 1 ==> !(#[trigger] eq_ignore_ascii_case_spec(
                    components@[j]@,
                    "target"@,
                ) && (eq_ignore_ascii_case_spec(components@[j + 1]@, "debug"@)
                    || eq_ignore_ascii_case_spec(components@[j + 1]@, "release"@))),
        decreases n - i,
    {
        if eq_ignore_ascii_case(components[i].as_str(), "target") && (eq_ignore_ascii_case(
            components[i + 1].as_str(),
            "debug",
        ) || eq_ignore_ascii_case(components[i + 1].as_str(), "release")) {
            return true;
        }
        i = i + 1;
    }
    false
}

pub open spec fn transient_note_spec(exe: Seq<char>) -> Seq<char> {
    "Warning: registered "@ + exe
        + ", which is a build or temporary directory. The registration stores that exact path and will silently stop working once the directory is cleaned or moved. Re-run `muxdeckd service install` from the installed location."@
}

/// The warning opens with `Warning: registered ` and then names the binary, exactly as displayed.
pub proof fn law_transient_note_names_the_binary(exe: Seq<char>)
    ensures
        transient_note_spec(exe).subrange(0, 20) == "Warning: registered "@,
        transient_note_spec(exe).subrange(20, 20 + exe.len() as int) == exe,
{
    reveal_strlit("Warning: registered ");
    assert(transient_note_spec(exe).subrange(0, 20) =~= "Warning: registered "@);
    assert(transient_note_spec(exe).subrange(20, 20 + exe.len() as int) =~= exe);
}

/// The warning to show when the binary being registered (displayed as `exe`) will not survive
/// a `cargo clean`.
pub fn transient_exe_note(exe: &str, components: &[String], in_temp_dir: bool) -> (r: Option<String>)
    ensures
        (in_temp_dir || has_build_dir(components@)) ==> (r matches Some(n) && n@ == transient_note_spec(
            exe@,
        )),
        !(in_temp_dir || has_build_dir(components@)) ==> r is None,
{
    if !is_transient_exe_path(components, in_temp_dir) {
        return None;
    }
    let mut s = String::from_str("Warning: registered ");
    s.append(exe);
    s.append(
        ", which is a build or temporary directory. The registration stores that exact path and will silently stop working once the directory is cleaned or moved. Re-run `muxdeckd service install` from the installed location.",
    );
    Some(s)
}

pub open spec fn udev_note_intro() -> Seq<char> {
    "Input injection needs write access to /dev/uinput, and granting it needs root, so this command did not do it. The rule has been written out for you; install it with:"@
}

pub open spec fn udev_note_commands(rule: Seq<char>) -> Seq<char> {
    "    sudo install -m 644 "@ + rule
        + " /etc/udev/rules.d/99-muxdeck-uinput.rules\n    sudo udevadm control --reload-rules && sudo udevadm trigger\n    sudo usermod -aG input \"$USER\""@
}

pub open spec fn udev_note_relogin() -> Seq<char> {
    "Then log out and back in. Group membership is only read at login, so until you do every button fails with a permission error even though the rule is already in place."@
}

/// What a Linux install tells the user to do as root, once the rule has been written to
/// `rule`: the commands are printed, never run, since an installer that silently escalates is
/// one a user is right to distrust.
pub fn udev_install_notes(rule: &str) -> (r: Vec<String>)
    ensures
        r@.len() == 3,
        r@[0]@ == udev_note_intro(),
        r@[1]@ == udev_note_commands(rule@),
        r@[2]@ == udev_note_relogin(),
{
    let mut notes: Vec<String> = Vec::new();
    notes.push(
        String::from_str(
            "Input injection needs write access to /dev/uinput, and granting it needs root, so this command did not do it. The rule has been written out for you; install it with:",
        ),
    );
    let mut commands = String::from_str("    sudo install -m 644 ");
    commands.append(rule);
    commands.append(
        " /etc/udev/rules.d/99-muxdeck-uinput.rules\n    sudo udevadm control --reload-rules && sudo udevadm trigger\n    sudo usermod -aG input \"$USER\"",
    );
    notes.push(commands);
    notes.push(
        String::from_str(
            "Then log out and back in. Group membership is only read at login, so until you do every button fails with a permission error even though the rule is already in place.",
        ),
    );
    notes
}

// ---------------------------------------------------------------------------------------------
// Platform tools and accounts.
// ---------------------------------------------------------------------------------------------

/// What a failed tool said: its trimmed standard error, or, where that is blank, its trimmed
/// standard output, since `schtasks` and `launchctl` write diagnostics to either.
pub open spec fn tool_detail_spec(stderr: Seq<char>, stdout: Seq<char>) -> Seq<char> {
    if trim_spec(stderr).len() == 0 {
        trim_spec(stdout)
    } else {
        trim_spec(stderr)
    }
}

/// The error for a tool that exited unsuccessfully: `{program} exited with {status}: {detail}`,
/// where `status` is how the exit status displays.
pub open spec fn tool_failure_spec(program: Seq<char>, status: Seq<char>, stderr: Seq<char>, stdout: Seq<char>) -> Seq<char> {
    program + " exited with "@ + status + ": "@ + tool_detail_spec(stderr, stdout)
}

/// A non-zero exit becomes a service error carrying whatever the tool said; a zero exit is
/// fine. `success`, `status`, `stderr` and `stdout` describe the finished process.
pub fn require_success(
    context: &'static str,
    program: &str,
    success: bool,
    status: &str,
    stderr: &str,
    stdout: &str,
) -> (r: Result<(), EngineError>)
    ensures
        r is Ok <==> success,
        r matches Err(e) ==> e matches EngineError::Service { context: c, detail } && c == context
            && detail@ == tool_failure_spec(program@, status@, stderr@, stdout@),
{
    if success {
        return Ok(());
    }
    let err = trim(stderr);
    let detail = if err.unicode_len() == 0 {
        trim(stdout)
    } else {
        err
    };
    let mut message = String::from_str(program);
    message.append(" exited with ");
    message.append(status);
    message.append(": ");
    message.append(detail);
    Err(EngineError::service(context, message))
}

/// The account a scheduled task names, as `DOMAIN\user`, or the bare user where no domain is
/// known. On a workgroup PC the domain is the machine name, so the qualified form is right on
/// standalone and domain-joined machines alike.
pub open spec fn qualified_user_spec(user: Seq<char>, domain: Option<Seq<char>>) -> Seq<char> {
    match domain {
        Some(d) => if d.len() > 0 {
            d + "\\"@ + user
        } else {
            user
        },
        None => user,
    }
}

pub fn qualified_user(user: &str, domain: Option<&str>) -> (r: String)
    ensures
        r@ == qualified_user_spec(user@, match domain {
            Some(d) => Some(d@),
            None => None,
        }),
{
    match domain {
        Some(d) => {
            if d.unicode_len() > 0 {
                let mut s = String::from_str(d);
                s.append("\\");
                s.append(user);
                s
            } else {
                String::from_str(user)
            }
        },
        None => String::from_str(user),
    }
}

/// On a platform with no auto-start mechanism every service command fails with this, `os`
/// being the platform's name.
pub fn no_autostart(context: &'static str, os: &str) -> (r: EngineError)
    ensures
        r matches EngineError::Service { context: c, detail } && c == context && detail@
            == "MuxDeck has no auto-start mechanism for "@ + os@
            + "; start muxdeckd from your desktop environment's own autostart configuration instead"@,
{
    let mut s = String::from_str("MuxDeck has no auto-start mechanism for ");
    s.append(os);
    s.append(
        "; start muxdeckd from your desktop environment's own autostart configuration instead",
    );
    EngineError::service(context, s)
}

} // verus!
