use std::sync::Arc;

use wincallnotifier::adb::client::{
    adb_search_candidates, apply_device_properties, devices_from_output, is_well_formed_listing,
    parse_adb_devices_output, shell_output_result, AdbClient, AdbSearchEnv,
};
use wincallnotifier::adb::device::{DeviceInfo, DeviceStatus};
use wincallnotifier::adb::manager::{active_device_changed, needs_details, next_active, select_device};
use wincallnotifier::adb::telephony::{
    call_log_number, extract_phone_number, is_caller_notification, merge_telecom_reading,
    notification_get_command_text, AdbCallStateProvider, CallStateQuery, QueryStep,
};
use wincallnotifier::app::{apply_command, AppCommand, AppStatus, CommandEffect, MonitorState, PollAction};
use wincallnotifier::call::detector::CallStateMachine;
use wincallnotifier::call::parser::{
    call_state_from_keyword, is_valid_phone_number, parse_state_token, pick_highest_priority_state,
    AndroidTelephonyParser, TelephonyParser,
};
use wincallnotifier::call::state::{CallEvent, CallMetadata, CallState};
use wincallnotifier::config::settings::{log_level_from_setting, poll_interval_ms, AppConfig, LogLevel};
use wincallnotifier::error::AppError;
use wincallnotifier::notifications::windows::NotificationManager;
use wincallnotifier::ui::tray::{default_icon_rgba, tray_status_texts};
use wincallnotifier::ui::window::{status_line_style, status_window_lines, LineStyle};

fn meta(n: Option<&str>) -> CallMetadata {
    CallMetadata { caller_number: n.map(|s| s.to_string()) }
}

fn authorized(serial: &str) -> DeviceInfo {
    DeviceInfo::new(serial.to_string(), DeviceStatus::Device)
}

// ---------------------------------------------------------------------------
// Parser
// ---------------------------------------------------------------------------

#[test]
fn state_tokens_are_normalized() {
    assert_eq!(parse_state_token(" 0 "), CallState::Idle);
    assert_eq!(parse_state_token("idle"), CallState::Idle);
    assert_eq!(parse_state_token("Disconnected"), CallState::Idle);
    assert_eq!(parse_state_token("call_state_ringing"), CallState::Ringing);
    assert_eq!(parse_state_token("2"), CallState::Offhook);
    assert_eq!(parse_state_token("Dialing"), CallState::Offhook);
    assert_eq!(parse_state_token("HOLDING"), CallState::Offhook);
    assert_eq!(parse_state_token("3"), CallState::Unknown);
    assert_eq!(parse_state_token(""), CallState::Unknown);
    let k: Vec<char> = "CONNECTING".chars().collect();
    assert_eq!(call_state_from_keyword(&k), CallState::Offhook);
    let k: Vec<char> = "connecting".chars().collect();
    assert_eq!(call_state_from_keyword(&k), CallState::Unknown);
}

#[test]
fn priorities_order_ringing_offhook_idle_unknown() {
    let all = [CallState::Idle, CallState::Ringing, CallState::Offhook, CallState::Unknown];
    let rank = |s: CallState| match s {
        CallState::Ringing => 3,
        CallState::Offhook => 2,
        CallState::Idle => 1,
        CallState::Unknown => 0,
    };
    for a in all {
        for b in all {
            let p = pick_highest_priority_state(a, b);
            assert_eq!(p, pick_highest_priority_state(b, a));
            assert_eq!(rank(p), std::cmp::max(rank(a), rank(b)));
        }
    }
    assert_eq!(pick_highest_priority_state(CallState::Unknown, CallState::Idle), CallState::Idle);
    assert_eq!(pick_highest_priority_state(CallState::Offhook, CallState::Ringing), CallState::Ringing);
}

#[test]
fn phone_number_validity() {
    assert!(!is_valid_phone_number("123456"));
    assert!(is_valid_phone_number("1234567"));
    assert!(is_valid_phone_number("  +1-555-0100  "));
    assert!(!is_valid_phone_number("abc-def-ghij"));
    assert!(is_valid_phone_number("12345678901234567890"));
    assert!(!is_valid_phone_number("123456789012345678901"));
    assert!(!is_valid_phone_number(""));
}

#[test]
fn ringing_register_beats_idle_call_state() {
    let raw = "  mCallState=0\n  mRingingCallState=1\n  mForegroundCallState=0\n";
    let (state, meta) = AndroidTelephonyParser::new().parse(raw);
    assert_eq!(state, CallState::Ringing);
    assert_eq!(meta.caller_number, None);
}

#[test]
fn foreground_register_means_offhook() {
    let raw = "mRingingCallState=0\nmForegroundCallState=ACTIVE\nmCallState=0\n";
    let (state, _) = AndroidTelephonyParser::default().parse(raw);
    assert_eq!(state, CallState::Offhook);
}

#[test]
fn zero_registers_fall_back_to_call_state() {
    let raw = "mRingingCallState=0\nmForegroundCallState=0\nmCallState=2\n";
    let (state, _) = AndroidTelephonyParser::new().parse(raw);
    assert_eq!(state, CallState::Offhook);
}

#[test]
fn telecom_call_entry_is_read() {
    let raw = "Telecom:\n  [Call id=TC@1, state=RINGING, tc@1]\n";
    let (state, _) = AndroidTelephonyParser::new().parse(raw);
    assert_eq!(state, CallState::Ringing);
}

#[test]
fn unrelated_dump_is_unknown() {
    let (state, meta) = AndroidTelephonyParser::new().parse("nothing to see here\n");
    assert_eq!(state, CallState::Unknown);
    assert_eq!(meta.caller_number, None);
}

#[test]
fn short_incoming_number_is_dropped() {
    let raw = "mCallState=1\nmCallIncomingNumber=12345\n";
    let (state, meta) = AndroidTelephonyParser::new().parse(raw);
    assert_eq!(state, CallState::Ringing);
    assert_eq!(meta.caller_number, None);
}

// ---------------------------------------------------------------------------
// State texts and the state machine
// ---------------------------------------------------------------------------

#[test]
fn call_texts() {
    assert_eq!(CallState::Idle.display_text(), "IDLE");
    assert_eq!(CallState::Offhook.display_text(), "OFFHOOK");
    assert_eq!(CallState::default(), CallState::Unknown);
    let e = CallEvent::IncomingCall { metadata: meta(Some("+1555")) };
    assert_eq!(e.display_text(), "Incoming Call from +1555");
    let e = CallEvent::OutgoingCall { metadata: meta(None) };
    assert_eq!(e.display_text(), "Outgoing Call");
    let e = CallEvent::CallConnected { metadata: meta(Some("42")) };
    assert_eq!(e.display_text(), "Call Connected with 42");
    let e = CallEvent::CallEnded { duration_secs: Some(0) };
    assert_eq!(e.display_text(), "Call Ended (duration: 0s)");
    let e = CallEvent::CallEnded { duration_secs: Some(1234567) };
    assert_eq!(e.display_text(), "Call Ended (duration: 1234567s)");
    let e = CallEvent::CallEnded { duration_secs: None };
    assert_eq!(e.display_text(), "Call Ended");
}

#[test]
fn call_waiting_reports_incoming_call_with_kept_number() {
    let mut sm = CallStateMachine::new();
    sm.transition(CallState::Offhook, Some(meta(Some("+111"))));
    let ev = sm.transition(CallState::Ringing, None);
    assert_eq!(ev, Some(CallEvent::IncomingCall { metadata: meta(Some("+111")) }));
    let ev = sm.transition(CallState::Idle, None);
    assert!(matches!(ev, Some(CallEvent::CallEnded { duration_secs: Some(_) })));
    let ev = sm.transition(CallState::Offhook, None);
    assert_eq!(ev, Some(CallEvent::OutgoingCall { metadata: meta(None) }));
}

#[test]
fn metadata_updates_even_when_debounced() {
    let mut sm = CallStateMachine::default();
    assert_eq!(sm.transition(CallState::Ringing, None), Some(CallEvent::IncomingCall { metadata: meta(None) }));
    assert_eq!(sm.transition(CallState::Ringing, Some(meta(Some("+222")))), None);
    assert_eq!(
        sm.transition(CallState::Offhook, None),
        Some(CallEvent::CallConnected { metadata: meta(Some("+222")) })
    );
}

// ---------------------------------------------------------------------------
// Devices
// ---------------------------------------------------------------------------

#[test]
fn device_status_words() {
    assert_eq!(DeviceStatus::from(" DEVICE "), DeviceStatus::Device);
    assert_eq!(DeviceStatus::from("no permissions"), DeviceStatus::NoPermissions);
    assert_eq!(DeviceStatus::from("authorizing"), DeviceStatus::Authorizing);
    assert_eq!(DeviceStatus::from("Offline"), DeviceStatus::Offline);
    assert_eq!(DeviceStatus::from("Recovery"), DeviceStatus::Unknown("recovery".to_string()));
    assert_eq!(DeviceStatus::Device.display_text(), "Authorized");
    assert_eq!(DeviceStatus::Unknown("sideload".to_string()).display_text(), "Unknown (sideload)");
}

#[test]
fn device_display_names() {
    let mut d = authorized("SER1");
    assert_eq!(d.display_name(), "SER1");
    d.model = Some("Galaxy S24".to_string());
    assert_eq!(d.display_name(), "Galaxy S24");
    d.manufacturer = Some("Samsung".to_string());
    assert_eq!(d.display_name(), "Samsung Galaxy S24");
    d.model = Some("samsung SM-S921".to_string());
    assert_eq!(d.display_name(), "samsung SM-S921");
    d.model = None;
    assert_eq!(d.display_name(), "SER1");
    assert!(DeviceInfo::new("10.0.0.2:5555".to_string(), DeviceStatus::Device).usb_connection == false);
    assert!(authorized("ABC").usb_connection);
}

#[test]
fn device_listing_tags_and_skipped_lines() {
    let out = "* daemon not running; starting now at tcp:5037\n* daemon started successfully\nList of devices attached\nAAA device product:p device:shiba transport_id:1\r\nBBB offline model:X_Y device:z\n\n";
    assert!(is_well_formed_listing(out));
    let devs = parse_adb_devices_output(out);
    assert_eq!(devs.len(), 2);
    assert_eq!(devs[0].serial, "AAA");
    assert_eq!(devs[0].model, Some("shiba".to_string()));
    assert_eq!(devs[1].status, DeviceStatus::Offline);
    assert_eq!(devs[1].model, Some("X Y".to_string()));
    assert!(!is_well_formed_listing("List of devices attached\nLONELY\n"));
    match devices_from_output(false, "", "boom".to_string()) {
        Err(AppError::AdbCommandFailed(m)) => assert_eq!(m, "boom"),
        other => panic!("unexpected {:?}", other),
    }
    match devices_from_output(true, "List of devices attached\n", String::new()) {
        Ok(v) => assert!(v.is_empty()),
        other => panic!("unexpected {:?}", other),
    }
}

#[test]
fn getprop_answer_fills_details() {
    let mut d = authorized("S");
    apply_device_properties(&mut d, "Pixel 8\n Google \n15\n35\n");
    assert_eq!(d.model, Some("Pixel 8".to_string()));
    assert_eq!(d.manufacturer, Some("Google".to_string()));
    assert_eq!(d.android_version, Some("15".to_string()));
    assert_eq!(d.sdk_level, Some(35));
    let mut e = authorized("S");
    e.model = Some("Old".to_string());
    apply_device_properties(&mut e, "\nMoto\n\nnot-a-number\n");
    assert_eq!(e.model, Some("Old".to_string()));
    assert_eq!(e.manufacturer, Some("Moto".to_string()));
    assert_eq!(e.android_version, None);
    assert_eq!(e.sdk_level, None);
    let mut f = authorized("S");
    apply_device_properties(&mut f, "a\nb\nc\n+34\n");
    assert_eq!(f.sdk_level, Some(34));
    apply_device_properties(&mut f, "a\nb\nc\n4294967296\n");
    assert_eq!(f.sdk_level, Some(34));
}

#[test]
fn shell_results_are_classified() {
    match shell_output_result("S1", true, "out".to_string(), String::new()) {
        Ok(o) => assert_eq!(o, "out"),
        other => panic!("unexpected {:?}", other),
    }
    assert!(matches!(
        shell_output_result("S1", true, "out".to_string(), "error: device unauthorized".to_string()),
        Err(AppError::DeviceUnauthorized)
    ));
    match shell_output_result("S1", false, "".to_string(), "error: device offline".to_string()) {
        Err(AppError::DeviceDisconnected(s)) => assert_eq!(s, "S1"),
        other => panic!("unexpected {:?}", other),
    }
    match shell_output_result("S1", false, "o".to_string(), "e".to_string()) {
        Err(AppError::AdbCommandFailed(m)) => assert_eq!(m, "e o"),
        other => panic!("unexpected {:?}", other),
    }
}

#[test]
fn adb_is_searched_on_path_then_sdk_locations() {
    let env = AdbSearchEnv {
        path_dirs: vec!["/usr/bin".to_string()],
        local_app_data: None,
        user_profile: Some("U".to_string()),
        program_files: None,
        program_files_x86: Some("P86".to_string()),
    };
    let c = adb_search_candidates(&env);
    let expect: Vec<Vec<&str>> = vec![
        vec!["/usr/bin", "adb.exe"],
        vec!["/usr/bin", "adb"],
        vec!["U", "AppData", "Local", "Android", "Sdk", "platform-tools", "adb.exe"],
        vec!["U", "platform-tools", "adb.exe"],
        vec!["U", "Downloads", "platform-tools", "adb.exe"],
        vec!["P86", "Android", "platform-tools", "adb.exe"],
        vec!["C:\\platform-tools\\adb.exe"],
        vec!["D:\\platform-tools\\adb.exe"],
        vec!["C:\\adb\\adb.exe"],
    ];
    assert_eq!(c, expect);
    match AdbClient::find_adb(Some("   "), &Vec::new()) {
        Err(AppError::AdbNotFound(m)) => {
            assert_eq!(m, "Please install Android Platform Tools or configure adb_path in settings.")
        }
        other => panic!("unexpected {:?}", other),
    }
    let here = "/proc/self/exe".to_string();
    let c = AdbClient::find_adb(None, &vec!["/definitely/missing/adb".to_string(), here.clone()]).unwrap();
    assert_eq!(c.executable_path(), here);
    let c = AdbClient::find_adb(Some(&format!("  {here}  ")), &Vec::new()).unwrap();
    assert_eq!(c.executable_path(), here);
}

#[test]
fn followed_device_selection() {
    let mut unauth = DeviceInfo::new("U1".to_string(), DeviceStatus::Unauthorized);
    unauth.model = Some("m".to_string());
    let devs = vec![unauth.clone(), authorized("A1"), authorized("A2")];
    assert_eq!(select_device(devs.clone(), None).unwrap().serial, "A1");
    assert_eq!(select_device(devs.clone(), Some("A2".to_string())).unwrap().serial, "A2");
    assert_eq!(select_device(devs.clone(), Some("zz".to_string())), None);
    assert_eq!(select_device(vec![unauth.clone()], None).unwrap().serial, "U1");
    assert_eq!(select_device(Vec::new(), None), None);
    assert!(needs_details(&authorized("A")));
    assert!(!needs_details(&unauth));
    assert!(active_device_changed(&None, &unauth));
    assert!(!active_device_changed(&Some(unauth.clone()), &unauth));
    assert!(active_device_changed(&Some(authorized("U1")), &unauth));
}

// ---------------------------------------------------------------------------
// Call-state query over ADB
// ---------------------------------------------------------------------------

#[test]
fn phone_numbers_in_text() {
    assert_eq!(extract_phone_number("from +49 1512 3456789"), None);
    assert_eq!(extract_phone_number("caller=015123456789;x"), Some("015123456789".to_string()));
    assert_eq!(extract_phone_number("1234567890123456 then +4915123456789"), Some("+4915123456789".to_string()));
    assert_eq!(extract_phone_number(""), None);
}

#[test]
fn call_log_rows() {
    let out = "Row: 1 number=+111, date=1\nRow: 0 date=2, number=+15551234567, type=1\n";
    assert_eq!(call_log_number(out), Some("+15551234567".to_string()));
    assert_eq!(call_log_number("Row: 0 number=null, date=1, type=1\n"), None);
    assert_eq!(call_log_number("Row: 0 xnumber= 42 , date=1\n"), Some("42".to_string()));
    assert_eq!(call_log_number("No result found.\n"), None);
}

#[test]
fn notification_lines_and_commands() {
    let l: Vec<char> = "0|com.google.android.dialer|1|null|10123 Incoming call".chars().collect();
    assert!(is_caller_notification(&l));
    let l: Vec<char> = "0|com.whatsapp|1|MissedCall|10".chars().collect();
    assert!(!is_caller_notification(&l));
    let l: Vec<char> = "0|com.spotify|1|now playing".chars().collect();
    assert!(!is_caller_notification(&l));
    let k: Vec<char> = "key1".chars().collect();
    assert_eq!(notification_get_command_text(&k), "cmd notification get 'key1'");
}

#[test]
fn telecom_reading_merge() {
    let (s, m) = merge_telecom_reading(CallState::Idle, meta(None), (CallState::Offhook, meta(Some("+9"))));
    assert_eq!(s, CallState::Offhook);
    assert_eq!(m.caller_number, Some("+9".to_string()));
    let (s, m) = merge_telecom_reading(CallState::Ringing, meta(Some("+1")), (CallState::Offhook, meta(Some("+9"))));
    assert_eq!(s, CallState::Ringing);
    assert_eq!(m.caller_number, Some("+1".to_string()));
    let (s, _) = merge_telecom_reading(CallState::Unknown, meta(None), (CallState::Idle, meta(None)));
    assert_eq!(s, CallState::Unknown);
}

fn run_query(outputs: Vec<Result<&str, ()>>) -> (Vec<String>, Result<(CallState, CallMetadata), AppError>) {
    let client = AdbClient::find_adb(None, &vec!["/proc/self/exe".to_string()]).unwrap();
    let provider = AdbCallStateProvider::new(Arc::new(client));
    let (mut q, mut step) = provider.begin_query();
    let mut commands = Vec::new();
    let mut outputs = outputs.into_iter();
    loop {
        match step {
            QueryStep::RunShell(cmd) => {
                commands.push(cmd);
                let out = match outputs.next().expect("more commands than outputs") {
                    Ok(t) => Ok(t.to_string()),
                    Err(()) => Err(AppError::AdbCommandFailed("failed".to_string())),
                };
                step = provider.advance_query(&mut q, out);
            }
            QueryStep::Finished(r) => return (commands, r),
        }
    }
}

#[test]
fn query_with_number_in_registry_stops_after_telecom() {
    let (cmds, r) = run_query(vec![Ok("mCallState=1\nmCallIncomingNumber=+15550001111\n"), Ok("")]);
    assert_eq!(cmds, vec!["dumpsys telephony.registry", "dumpsys telecom"]);
    let (s, m) = r.unwrap();
    assert_eq!(s, CallState::Ringing);
    assert_eq!(m.caller_number, Some("+15550001111".to_string()));
}

#[test]
fn query_fails_when_registry_fails() {
    let (cmds, r) = run_query(vec![Err(())]);
    assert_eq!(cmds, vec!["dumpsys telephony.registry"]);
    assert!(matches!(r, Err(AppError::AdbCommandFailed(_))));
}

#[test]
fn query_finds_number_in_notifications() {
    let list = "  0|com.spotify|1|x\n  0|com.google.android.dialer|7|null|10123 Ongoing call  \n";
    let (cmds, r) = run_query(vec![
        Ok("mCallState=2\n"),
        Err(()),
        Ok(list),
        Ok("title=Ongoing call text=+447700900123"),
    ]);
    assert_eq!(
        cmds,
        vec![
            "dumpsys telephony.registry",
            "dumpsys telecom",
            "cmd notification list",
            "cmd notification get '0|com.google.android.dialer|7|null|10123 Ongoing call'",
        ]
    );
    let (s, m) = r.unwrap();
    assert_eq!(s, CallState::Offhook);
    assert_eq!(m.caller_number, Some("+447700900123".to_string()));
}

#[test]
fn query_falls_back_to_call_log() {
    let (cmds, r) = run_query(vec![
        Ok("mCallState=0\n"),
        Ok("[Call id=1, state=RINGING]"),
        Ok("0|com.android.phone|1|Incoming call\n"),
        Ok("no number here"),
        Ok("Row: 0 number=+33123456789, date=5, type=1\n"),
    ]);
    assert_eq!(cmds.len(), 5);
    assert!(cmds[4].starts_with("content query --uri content://call_log/calls"));
    let (s, m) = r.unwrap();
    assert_eq!(s, CallState::Ringing);
    assert_eq!(m.caller_number, Some("+33123456789".to_string()));
}

fn fresh_query() -> CallStateQuery {
    let client = AdbClient::find_adb(None, &vec!["/proc/self/exe".to_string()]).unwrap();
    let provider = AdbCallStateProvider::new(Arc::new(client));
    provider.begin_query().0
}

fn shell_command(step: &QueryStep) -> Option<&str> {
    match step {
        QueryStep::RunShell(c) => Some(c.as_str()),
        QueryStep::Finished(_) => None,
    }
}

#[test]
fn query_steps_follow_given_readings() {
    let mut q = fresh_query();
    // The registry reading says idle; the telecom reading says ringing with a number.
    let step = q.advance(Ok("whatever".to_string()), Some((CallState::Idle, meta(None))));
    assert_eq!(shell_command(&step), Some("dumpsys telecom"));
    let step = q.advance(
        Ok("whatever".to_string()),
        Some((CallState::Ringing, meta(Some("+15550002222")))),
    );
    match step {
        QueryStep::Finished(Ok((s, m))) => {
            assert_eq!(s, CallState::Ringing);
            assert_eq!(m.caller_number, Some("+15550002222".to_string()));
        }
        other => panic!("unexpected step {:?}", other),
    }
}

#[test]
fn query_registry_number_is_kept_over_telecom_number() {
    let mut q = fresh_query();
    let step = q.advance(
        Ok(String::new()),
        Some((CallState::Offhook, meta(Some("+15550003333")))),
    );
    assert_eq!(shell_command(&step), Some("dumpsys telecom"));
    let step = q.advance(Ok(String::new()), Some((CallState::Ringing, meta(Some("+15550004444")))));
    match step {
        QueryStep::Finished(Ok((s, m))) => {
            assert_eq!(s, CallState::Offhook);
            assert_eq!(m.caller_number, Some("+15550003333".to_string()));
        }
        other => panic!("unexpected step {:?}", other),
    }
}

#[test]
fn query_without_caller_goes_to_notifications() {
    let mut q = fresh_query();
    let step = q.advance(Ok(String::new()), Some((CallState::Ringing, meta(None))));
    assert_eq!(shell_command(&step), Some("dumpsys telecom"));
    let step = q.advance(Err(AppError::AdbCommandFailed("x".to_string())), None);
    assert_eq!(shell_command(&step), Some("cmd notification list"));
}

#[test]
fn provider_uses_its_own_parser() {
    let client = AdbClient::find_adb(None, &vec!["/proc/self/exe".to_string()]).unwrap();
    let parser: Arc<dyn TelephonyParser> = Arc::new(AndroidTelephonyParser::new());
    let provider = AdbCallStateProvider::with_parser(Arc::new(client), parser);
    let (mut q, step) = provider.begin_query();
    assert_eq!(shell_command(&step), Some("dumpsys telephony.registry"));
    let step = provider.advance_query_using_parser(&mut q, Ok("mCallState=0".to_string()));
    assert_eq!(shell_command(&step), Some("dumpsys telecom"));
    // The telecom dump's ringing call wins over the idle registry.
    let step = provider.advance_query_using_parser(
        &mut q,
        Ok("[Call id=3, state=RINGING]\nmCallIncomingNumber=+15550009999".to_string()),
    );
    match step {
        QueryStep::Finished(Ok((s, m))) => {
            assert_eq!(s, CallState::Ringing);
            assert_eq!(m.caller_number, Some("+15550009999".to_string()));
        }
        other => panic!("unexpected step {:?}", other),
    }
}

#[test]
fn adb_choice_takes_first_found_path() {
    let cands = vec!["/a/adb.exe".to_string(), "/a/adb".to_string(), "/b/adb.exe".to_string()];
    // Custom path given and found: it wins over every candidate.
    let c = AdbClient::choose_adb(Some("  /custom/adb  "), &cands, &vec![true, true, true, true]).unwrap();
    assert_eq!(c.executable_path(), "/custom/adb");
    // Custom path missing: the first candidate that exists.
    let c = AdbClient::choose_adb(Some("/custom/adb"), &cands, &vec![false, false, true, true]).unwrap();
    assert_eq!(c.executable_path(), "/a/adb");
    // A blank custom path is not probed at all.
    let c = AdbClient::choose_adb(Some("   "), &cands, &vec![false, false, true]).unwrap();
    assert_eq!(c.executable_path(), "/b/adb.exe");
    // Nothing exists.
    match AdbClient::choose_adb(None, &cands, &vec![false, false, false]) {
        Err(AppError::AdbNotFound(m)) => {
            assert_eq!(m, "Please install Android Platform Tools or configure adb_path in settings.")
        }
        other => panic!("unexpected {:?}", other),
    }
}

#[test]
fn adb_probe_order() {
    let cands = vec!["/a/adb.exe".to_string(), "/a/adb".to_string()];
    assert_eq!(
        AdbClient::probe_list(Some("  /custom/adb "), &cands),
        vec!["/custom/adb".to_string(), "/a/adb.exe".to_string(), "/a/adb".to_string()]
    );
    assert_eq!(AdbClient::probe_list(Some("  "), &cands), cands);
    assert_eq!(AdbClient::probe_list(None, &cands), cands);
}

#[test]
fn active_device_follows_refresh() {
    let a = authorized("A1");
    let (next, changed) = next_active(None, &Some(a.clone()));
    assert!(changed);
    assert_eq!(next.unwrap().serial, "A1");
    // Same serial and status: the recorded device is kept as it was.
    let mut recorded = authorized("A1");
    recorded.model = Some("Kept".to_string());
    let (next, changed) = next_active(Some(recorded), &Some(a.clone()));
    assert!(!changed);
    assert_eq!(next.unwrap().model, Some("Kept".to_string()));
    // Status changed: replaced.
    let b = DeviceInfo::new("A1".to_string(), DeviceStatus::Unauthorized);
    let (next, changed) = next_active(Some(a.clone()), &Some(b));
    assert!(changed);
    assert_eq!(next.unwrap().status, DeviceStatus::Unauthorized);
    // Nothing picked: cleared.
    let (next, changed) = next_active(Some(a), &None);
    assert!(!changed);
    assert!(next.is_none());
}

#[test]
fn multisim_state_lines_in_any_order() {
    let p = AndroidTelephonyParser::new();
    let raw1 = "  mCallState (subId=1) = 1\n  mCallState (subId=2) = 0";
    let raw2 = "  mCallState (subId=2) = 0\n  mCallState (subId=1) = 1";
    assert_eq!(p.parse(raw1).0, CallState::Ringing);
    assert_eq!(p.parse(raw2).0, CallState::Ringing);
}

// ---------------------------------------------------------------------------
// Settings, notifications, service decisions, UI texts
// ---------------------------------------------------------------------------

#[test]
fn settings_defaults_and_levels() {
    let c = AppConfig::default();
    assert_eq!(c.adb_path, None);
    assert_eq!(c.polling_interval_ms, 750);
    assert!(c.enable_monitoring && c.notify_incoming && c.notify_outgoing && c.notify_connected);
    assert!(c.notify_ended && c.notification_sound && !c.start_with_windows);
    assert_eq!(c.log_level, "info");
    assert_eq!(poll_interval_ms(&c), 750);
    let mut d = c.clone();
    d.polling_interval_ms = 100;
    assert_eq!(poll_interval_ms(&d), 250);
    assert_eq!(log_level_from_setting("DEBUG"), LogLevel::Debug);
    assert_eq!(log_level_from_setting("warn"), LogLevel::Warn);
    assert_eq!(log_level_from_setting("verbose"), LogLevel::Info);
}

#[test]
fn toasts_for_call_events() {
    let n = NotificationManager::new();
    let mut cfg = AppConfig::default();
    let t = n.show_call_event(&CallEvent::IncomingCall { metadata: meta(None) }, &cfg).unwrap();
    assert_eq!(t.title, "📞 Incoming Call");
    assert_eq!(t.message, "Your phone is ringing");
    let t = n.show_call_event(&CallEvent::IncomingCall { metadata: meta(Some("+491")) }, &cfg).unwrap();
    assert_eq!(t.message, "Incoming call from +491");
    assert!(t.is_incoming && t.sound);
    let t = n.show_call_event(&CallEvent::OutgoingCall { metadata: meta(Some("+1")) }, &cfg).unwrap();
    assert_eq!(t.message, "Call started to +1");
    assert!(!t.is_incoming);
    let t = n.show_call_event(&CallEvent::CallConnected { metadata: meta(None) }, &cfg).unwrap();
    assert_eq!(t.message, "The call is now active");
    cfg.notification_sound = false;
    let t = n.show_call_event(&CallEvent::CallEnded { duration_secs: Some(61) }, &cfg).unwrap();
    assert_eq!(t.title, "📞 Call Ended");
    assert_eq!(t.message, "The call has ended (duration: 61s)");
    assert!(!t.sound);
    cfg.notify_ended = false;
    assert!(n.show_call_event(&CallEvent::CallEnded { duration_secs: None }, &cfg).is_none());
    let t = n.send_toast("T", "M", true);
    assert_eq!((t.title.as_str(), t.message.as_str(), t.is_incoming, t.sound), ("T", "M", false, true));
}

#[test]
fn commands_change_settings() {
    let mut cfg = AppConfig::default();
    let mut st = AppStatus::default();
    assert_eq!(st.last_event, "Application initialized");
    assert_eq!(st.last_event_time.len(), 8);
    assert!(matches!(apply_command(&mut cfg, &mut st, AppCommand::ToggleMonitoring(false)), CommandEffect::SaveConfig));
    assert!(!cfg.enable_monitoring && !st.monitoring_active);
    assert!(matches!(apply_command(&mut cfg, &mut st, AppCommand::SetPollingInterval(1500)), CommandEffect::SaveConfig));
    assert_eq!(cfg.polling_interval_ms, 1500);
    match apply_command(&mut cfg, &mut st, AppCommand::TestNotification) {
        CommandEffect::ShowToast(t) => assert_eq!(t.message, "WinCallNotifier is working properly!"),
        other => panic!("unexpected {:?}", other),
    }
    let mut new_cfg = AppConfig::default();
    new_cfg.adb_path = Some("X".to_string());
    assert!(matches!(apply_command(&mut cfg, &mut st, AppCommand::UpdateConfig(new_cfg)), CommandEffect::SaveConfigAndReconnect));
    assert_eq!(cfg.adb_path, Some("X".to_string()));
    assert!(matches!(apply_command(&mut cfg, &mut st, AppCommand::RestartAdb), CommandEffect::RestartAdb));
    assert!(matches!(apply_command(&mut cfg, &mut st, AppCommand::Quit), CommandEffect::Quit));
}

#[test]
fn poll_rounds_drive_status_and_events() {
    let mut mon = MonitorState::new();
    let mut st = AppStatus::default();
    // unauthorized: warned once
    let unauth = DeviceInfo::new("S".to_string(), DeviceStatus::Unauthorized);
    assert!(matches!(mon.on_device(&mut st, Some(unauth.clone()), true), PollAction::ShowToast(_)));
    assert!(matches!(mon.on_device(&mut st, Some(unauth), true), PollAction::Wait));
    assert_eq!(st.error_message, Some("Device unauthorized. Check phone screen.".to_string()));
    // authorized: queried while monitoring
    match mon.on_device(&mut st, Some(authorized("S")), true) {
        PollAction::QueryCallState(s) => assert_eq!(s, "S"),
        other => panic!("unexpected {:?}", other),
    }
    assert!(st.adb_connected && st.monitoring_active);
    assert!(matches!(mon.on_device(&mut st, Some(authorized("S")), false), PollAction::Wait));
    let ev = mon.on_call_state(&mut st, Ok((CallState::Ringing, meta(Some("+1555")))));
    assert_eq!(ev, Some(CallEvent::IncomingCall { metadata: meta(Some("+1555")) }));
    assert_eq!(st.last_event, "Incoming Call from +1555");
    assert_eq!(st.current_call_state, CallState::Ringing);
    assert_eq!(st.error_message, None);
    assert_eq!(mon.on_call_state(&mut st, Ok((CallState::Unknown, meta(None)))), None);
    assert_eq!(st.current_call_state, CallState::Ringing);
    assert_eq!(mon.on_call_state(&mut st, Err("boom".to_string())), None);
    assert_eq!(st.error_message, Some("Telephony error: boom".to_string()));
    // device gone: tracking reset
    assert!(matches!(mon.on_device(&mut st, None, true), PollAction::Wait));
    assert_eq!(mon.call_state(), CallState::Idle);
    assert_eq!(st.current_call_state, CallState::Idle);
    assert_eq!(st.last_event, "Device disconnected");
    assert_eq!(st.device_info, None);
}

#[test]
fn adb_lookup_notes() {
    let mut st = AppStatus::default();
    st.adb_connected = true;
    wincallnotifier::app::note_adb_missing(&mut st, "nope", false);
    assert!(st.adb_connected);
    assert_eq!(st.error_message, Some("ADB not found: nope".to_string()));
    wincallnotifier::app::note_adb_missing(&mut st, "nope", true);
    assert!(!st.adb_connected);
    wincallnotifier::app::note_adb_found(&mut st);
    assert_eq!(st.error_message, None);
}

#[test]
fn tray_and_window_texts() {
    let mut st = AppStatus::default();
    let (c, d) = tray_status_texts(&st);
    assert_eq!(c, "○ Waiting for ADB...");
    assert_eq!(d, "Device: None");
    st.adb_connected = true;
    assert_eq!(tray_status_texts(&st).0, "● ADB Connected (Waiting for phone...)");
    let mut dev = authorized("9A28");
    dev.model = Some("Pixel 8".to_string());
    st.device_info = Some(dev);
    st.current_call_state = CallState::Ringing;
    let (c, d) = tray_status_texts(&st);
    assert_eq!(c, "● Connected (Authorized) - Call: RINGING");
    assert_eq!(d, "Device: Pixel 8");
    st.last_event = "Incoming Call".to_string();
    st.last_event_time = "12:00:00".to_string();
    st.error_message = Some("x".to_string());
    let (lines, err) = status_window_lines(&st);
    assert_eq!(lines.len(), 16);
    assert_eq!(lines[0], "PHONE CALL MONITOR (ANDROID 15)");
    assert_eq!(lines[3], "  ● ADB: Connected");
    assert_eq!(lines[4], "  Device: Pixel 8");
    assert_eq!(lines[5], "  Android: 15");
    assert_eq!(lines[8], "  Transport: USB");
    assert_eq!(lines[11], "  Status: Paused");
    assert_eq!(lines[12], "  Call State: RINGING");
    assert_eq!(lines[14], "Last Event:");
    assert_eq!(lines[15], "  12:00:00 - Incoming Call");
    assert_eq!(err, Some("x".to_string()));
    assert_eq!(status_line_style(0, &lines[0]), LineStyle::Title);
    assert_eq!(status_line_style(2, &lines[2]), LineStyle::Heading);
    assert_eq!(status_line_style(3, &lines[3]), LineStyle::Active);
    assert_eq!(status_line_style(4, &lines[4]), LineStyle::Plain);
    assert_eq!(status_line_style(14, &lines[14]), LineStyle::Heading);
    st.device_info = None;
    assert_eq!(status_window_lines(&st).0.len(), 12);
}

#[test]
fn icon_pixels() {
    let rgba = default_icon_rgba();
    assert_eq!(rgba.len(), 16 * 16 * 4);
    let px = |x: usize, y: usize| &rgba[(y * 16 + x) * 4..(y * 16 + x) * 4 + 4];
    assert_eq!(px(0, 0), &[0, 0, 0, 0]);
    assert_eq!(px(4, 2), &[30, 200, 100, 255]);
    assert_eq!(px(7, 7), &[20, 30, 50, 220]);
    assert_eq!(px(10, 8), &[30, 200, 100, 255]);
    assert_eq!(px(14, 14), &[0, 0, 0, 0]);
}
