use muxdeck::engine::admin_client::{
    admin_handshake_outcome, answers_request, certificate_matches_pin, platform_name, request_id,
};
use muxdeck::engine::discovery::{mdns_hostname, sanitise, txt_properties, SERVICE_TYPE};
use muxdeck::engine::error::EngineError;
use muxdeck::engine::identity::fingerprint_from_der;
use muxdeck::engine::service::{
    is_transient_exe_path, launch_agent_plist, launchctl_reports_a_pid, no_autostart,
    parse_schtasks_status, qualified_user, require_success, systemctl_reports_active, systemd_unit,
    transient_exe_note, udev_install_notes, utf16le_with_bom, windows_task_xml, xml_escape, ServiceStatus,
    UDEV_RULE,
};
use muxdeck::engine::telemetry::{tick, MINIMUM_INTERVAL_MS};
use muxdeck::protocol::session::{Challenge, HelloResponse, HostPlatform};

/// Splits a path the way `Path::components` does for the purpose here: at either separator.
fn components(path: &str) -> Vec<String> {
    path.split(['/', '\\']).filter(|c| !c.is_empty()).map(str::to_string).collect()
}

// --- discovery ----------------------------------------------------------------------------

#[test]
fn dots_become_dashes_because_they_are_label_separators() {
    assert_eq!(sanitise("my.host.name"), "my-host-name");
}

#[test]
fn an_empty_name_falls_back_rather_than_producing_an_invalid_record() {
    assert_eq!(sanitise("   "), "MuxDeck");
    assert_eq!(sanitise(""), "MuxDeck");
}

#[test]
fn an_ordinary_name_is_left_alone() {
    assert_eq!(sanitise("ENIGMA-ENTROPY"), "ENIGMA-ENTROPY");
}

#[test]
fn the_record_carries_version_id_name_and_fingerprint() {
    assert_eq!(SERVICE_TYPE, "_muxdeck._tcp.local.");
    assert_eq!(mdns_hostname(" my.pc\t"), "my-pc.local.");
    let txt = txt_properties("Desk", "h_0123456789abcdef", "ff");
    let pairs: Vec<(&str, &str)> = txt.iter().map(|(k, v)| (k.as_str(), v.as_str())).collect();
    assert_eq!(pairs, vec![("v", "1"), ("id", "h_0123456789abcdef"), ("name", "Desk"), ("fp", "ff")]);
}

// --- auto-start ---------------------------------------------------------------------------

#[test]
fn the_task_is_scoped_to_one_user_and_needs_no_elevation() {
    let xml = windows_task_xml(r"C:\Program Files\MuxDeck\muxdeckd.exe", r"ENIGMA-ENTROPY\cipher");
    assert!(xml.contains("<LogonTrigger>"));
    assert_eq!(
        xml.matches(r"<UserId>ENIGMA-ENTROPY\cipher</UserId>").count(),
        2,
        "the trigger and the principal must both name the user"
    );
    assert!(xml.contains("<LogonType>InteractiveToken</LogonType>"));
    assert!(xml.contains("<RunLevel>LeastPrivilege</RunLevel>"));
    assert!(!xml.contains("HighestAvailable"));
}

#[test]
fn the_task_has_no_deadline_and_survives_unplugging_the_laptop() {
    let xml = windows_task_xml(r"C:\MuxDeck\muxdeckd.exe", "PC\\me");
    assert!(xml.contains("<ExecutionTimeLimit>PT0S</ExecutionTimeLimit>"), "the PT72H default terminates the daemon after three days");
    assert!(xml.contains("<DisallowStartIfOnBatteries>false</DisallowStartIfOnBatteries>"));
    assert!(xml.contains("<StopIfGoingOnBatteries>false</StopIfGoingOnBatteries>"));
    assert!(xml.contains("<MultipleInstancesPolicy>IgnoreNew</MultipleInstancesPolicy>"));
    assert!(xml.contains(r"<Command>C:\MuxDeck\muxdeckd.exe</Command>"));
}

#[test]
fn the_task_definition_is_utf16le_with_a_bom() {
    let bytes = utf16le_with_bom("<?xml version=\"1.0\" encoding=\"UTF-16\"?>");
    assert_eq!(&bytes[..2], &[0xFF, 0xFE]);
    assert_eq!(&bytes[2..6], &[b'<', 0x00, b'?', 0x00]);
    assert!(windows_task_xml("x", "y").contains("encoding=\"UTF-16\""));
}

#[test]
fn utf16le_encodes_surrogate_pairs_low_byte_first() {
    let bytes = utf16le_with_bom("é😀");
    assert_eq!(bytes, vec![0xFF, 0xFE, 0xE9, 0x00, 0x3D, 0xD8, 0x00, 0xDE]);
}

#[test]
fn the_plist_carries_the_label_the_exe_and_run_at_load() {
    let plist = launch_agent_plist("/usr/local/bin/muxdeckd");
    assert!(plist.contains("<string>in.redoimagined.muxdeck</string>"));
    assert!(plist.contains("<string>/usr/local/bin/muxdeckd</string>"));
    assert!(plist.contains("<key>RunAtLoad</key>\n    <true/>"));
}

#[test]
fn keep_alive_does_not_resurrect_a_clean_shutdown() {
    let plist = launch_agent_plist("/usr/local/bin/muxdeckd");
    assert!(plist.contains("<key>SuccessfulExit</key>\n        <false/>"));
}

#[test]
fn an_ampersand_in_the_path_cannot_break_the_plist() {
    let plist = launch_agent_plist("/Users/ben & jerry/muxdeckd");
    assert!(plist.contains("/Users/ben &amp; jerry/muxdeckd"));
    assert!(!plist.contains("ben & jerry"), "a raw ampersand makes the plist malformed XML and launchd ignores the file");
}

#[test]
fn every_markup_character_is_escaped() {
    assert_eq!(xml_escape(r#"<a href="x">'&'</a>"#), "&lt;a href=&quot;x&quot;&gt;&apos;&amp;&apos;&lt;/a&gt;");
}

#[test]
fn the_unit_is_a_user_unit_that_stays_stopped_when_stopped() {
    let unit = systemd_unit("/usr/bin/muxdeckd");
    assert!(unit.contains("ExecStart=\"/usr/bin/muxdeckd\""));
    assert!(unit.contains("Restart=on-failure"));
    assert!(unit.contains("WantedBy=default.target"), "graphical-session.target is not reached on every desktop");
    assert!(!unit.contains("Restart=always"));
}

#[test]
fn a_path_with_spaces_stays_one_argument_in_the_unit() {
    let unit = systemd_unit("/opt/My Apps/muxdeckd");
    assert!(unit.contains("ExecStart=\"/opt/My Apps/muxdeckd\""));
}

#[test]
fn the_udev_rule_matches_the_spec_verbatim() {
    assert!(UDEV_RULE.contains(r#"KERNEL=="uinput", GROUP="input", MODE="0660""#));
}

#[test]
fn the_udev_notes_print_the_commands_rather_than_run_them() {
    let notes = udev_install_notes("/home/me/.config/muxdeck/99-muxdeck-uinput.rules");
    assert_eq!(notes.len(), 3);
    assert!(notes[1].starts_with("    sudo install -m 644 /home/me/.config/muxdeck/99-muxdeck-uinput.rules /etc/udev/rules.d/"));
}

#[test]
fn schtasks_running_and_ready_are_distinguished() {
    assert_eq!(parse_schtasks_status("\"MuxDeck\",\"N/A\",\"Running\"\r\n"), ServiceStatus::Running);
    assert_eq!(parse_schtasks_status("\"MuxDeck\",\"N/A\",\"Ready\"\r\n"), ServiceStatus::InstalledStopped);
    assert_eq!(parse_schtasks_status("\"MuxDeck\",\"N/A\",\"Disabled\"\r\n"), ServiceStatus::InstalledStopped);
}

#[test]
fn schtasks_blank_lines_are_skipped_and_empty_output_is_not_installed() {
    assert_eq!(parse_schtasks_status("\r\n\r\n\"MuxDeck\",\"N/A\",\"Running\"\r\n"), ServiceStatus::Running);
    assert_eq!(parse_schtasks_status(""), ServiceStatus::NotInstalled);
    assert_eq!(parse_schtasks_status("  \n"), ServiceStatus::NotInstalled);
}

#[test]
fn a_localised_state_word_degrades_to_installed_not_running() {
    assert_eq!(parse_schtasks_status("\"MuxDeck\",\"N/A\",\"Bereit\"\r\n"), ServiceStatus::InstalledStopped);
}

#[test]
fn launchctl_pid_means_running() {
    let loaded_and_up = "{\n\t\"LimitLoadToSessionType\" = \"Aqua\";\n\t\"Label\" = \
                         \"in.redoimagined.muxdeck\";\n\t\"OnDemand\" = false;\n\t\"PID\" = \
                         4242;\n\t\"LastExitStatus\" = 0;\n};\n";
    assert!(launchctl_reports_a_pid(loaded_and_up));

    let loaded_but_idle = "{\n\t\"Label\" = \"in.redoimagined.muxdeck\";\n\t\
                           \"LastExitStatus\" = 0;\n};\n";
    assert!(!launchctl_reports_a_pid(loaded_but_idle));
}

#[test]
fn systemctl_counts_only_active_as_running() {
    assert!(systemctl_reports_active("active\n"));
    assert!(!systemctl_reports_active("inactive\n"));
    assert!(!systemctl_reports_active("failed\n"));
    assert!(!systemctl_reports_active("activating\n"), "the socket is not up during activating; the panel still needs to wait");
}

#[test]
fn a_build_directory_is_recognised_as_transient() {
    assert!(is_transient_exe_path(&components("/home/dev/muxdeck/engine/target/debug/muxdeckd"), false));
    assert!(is_transient_exe_path(&components(r"F:\projects\muxdeck\engine\target\release\muxdeckd.exe"), false));
    assert!(is_transient_exe_path(&components("/home/dev/muxdeck/engine/target/debug/deps/muxdeck_engine-abc123"), false));
    assert!(is_transient_exe_path(&components("/tmp/muxdeckd"), true));
}

#[test]
fn an_installed_location_is_not_transient() {
    assert!(!is_transient_exe_path(&components("/usr/local/bin/muxdeckd"), false));
    assert!(!is_transient_exe_path(&components(r"C:\Program Files\MuxDeck\muxdeckd.exe"), false));
    assert!(
        !is_transient_exe_path(&components("/opt/targets/debug-tools/muxdeckd"), false),
        "only a literal target/debug or target/release pair counts"
    );
}

#[test]
fn a_transient_binary_gets_a_warning_naming_it() {
    let exe = "/home/dev/muxdeck/engine/target/debug/muxdeckd";
    let note = transient_exe_note(exe, &components(exe), false).expect("warned");
    assert!(note.starts_with("Warning: registered /home/dev/muxdeck/engine/target/debug/muxdeckd, which is a build"));
    assert!(transient_exe_note("/usr/bin/muxdeckd", &components("/usr/bin/muxdeckd"), false).is_none());
}

#[test]
fn a_failed_tool_reports_what_it_said() {
    assert!(require_success("ctx", "schtasks", true, "exit status: 0", "", "").is_ok());
    match require_success("creating the task", "schtasks", false, "exit status: 1", "  \n", " ERROR: Access is denied.\r\n") {
        Err(EngineError::Service { context, detail }) => {
            assert_eq!(context, "creating the task");
            assert_eq!(detail, "schtasks exited with exit status: 1: ERROR: Access is denied.");
        }
        other => panic!("unexpected {other:?}"),
    }
    match require_success("c", "launchctl", false, "exit status: 5", "Bootstrap failed\n", "ignored") {
        Err(EngineError::Service { detail, .. }) => assert_eq!(detail, "launchctl exited with exit status: 5: Bootstrap failed"),
        other => panic!("unexpected {other:?}"),
    }
}

#[test]
fn the_task_account_is_domain_qualified_when_a_domain_is_known() {
    assert_eq!(qualified_user("cipher", Some("ENIGMA-ENTROPY")), r"ENIGMA-ENTROPY\cipher");
    assert_eq!(qualified_user("cipher", Some("")), "cipher");
    assert_eq!(qualified_user("cipher", None), "cipher");
    match no_autostart("registering auto-start", "freebsd") {
        EngineError::Service { detail, .. } => assert!(detail.starts_with("MuxDeck has no auto-start mechanism for freebsd;")),
        other => panic!("unexpected {other:?}"),
    }
}

// --- telemetry cadence --------------------------------------------------------------------

#[test]
fn a_reading_is_due_once_the_interval_has_passed_and_someone_listens() {
    let first = tick(0, true, 1000, true);
    assert!(!first.sample);
    assert_eq!(first.elapsed_ms, MINIMUM_INTERVAL_MS);
    let due = tick(800, true, 1000, true);
    assert!(due.sample);
    assert_eq!(due.elapsed_ms, 0);
    assert!(!tick(800, true, 1000, false).sample, "nobody is connected");
    assert!(!tick(5000, false, 1000, true).sample, "telemetry is off");
    assert!(tick(0, true, 50, true).sample, "the interval never drops below the floor");
}

// --- the admin client ---------------------------------------------------------------------

#[test]
fn the_certificate_is_pinned_not_merely_encrypted() {
    let der = b"certificate bytes";
    assert!(!certificate_matches_pin(der, &"0".repeat(64)), "a certificate that does not match the pin is refused");
    let fp = fingerprint_from_der(der);
    assert!(certificate_matches_pin(der, &fp));
    assert!(certificate_matches_pin(der, &fp.to_ascii_uppercase()));
    assert!(!certificate_matches_pin(b"another certificate", &fp));
}

#[test]
fn requests_are_numbered_and_only_their_own_reply_answers_them() {
    assert_eq!(request_id(7), "cli-7");
    assert!(answers_request(Some("cli-7"), "cli-7"));
    assert!(!answers_request(Some("cli-6"), "cli-7"));
    assert!(!answers_request(None, "cli-7"));
    assert_eq!(platform_name(HostPlatform::Macos), "macos");
}

#[test]
fn a_challenge_to_the_admin_client_is_an_error() {
    let challenge = HelloResponse::Challenge(Challenge { nonce: "n".into(), host_id: "h".into(), host_name: "x".into() });
    assert!(matches!(admin_handshake_outcome(challenge), Err(EngineError::Certificate(_))));
}
