use keba_home_api::console::{
    console_charging, console_plugged, console_session_energy_mwh, derive_console_status,
    ConsoleStatus,
};
use keba_home_api::keba_payload::Payload;
use keba_home_api::poller::FetchedPayload;

fn payload(text: &str) -> Payload {
    FetchedPayload::from_json_text(text.to_string())
        .expect("json")
        .payload
}

#[test]
fn plugged_enabled_and_idle_is_ready() {
    let report2 = payload(
        r#"{"Plug": 7, "Enable sys": 1, "Enable user": 1, "Max curr": 32000, "Error1": 0, "Error2": 0, "State": 2}"#,
    );
    let report3 = payload(r#"{"P": 0, "E pres": 41210, "E total": 283467494}"#);
    let status = derive_console_status(&report2, &report3);
    assert_eq!(status, ConsoleStatus::PluggedReady);
    assert_eq!(status.text(), "Angesteckt, wartet/bereit");
    assert!(console_plugged(&report2));
    assert!(!console_charging(&report3));
    assert_eq!(console_session_energy_mwh(&report3), Some(4_121_000));
}

#[test]
fn plugged_but_not_enabled_is_disabled() {
    let report2 = payload(
        r#"{"Plug": 7, "Enable sys": 0, "Enable user": 1, "Max curr": 0, "Error1": 0, "Error2": 0, "State": 5}"#,
    );
    let report3 = payload(r#"{"P": 0}"#);
    assert_eq!(
        derive_console_status(&report2, &report3),
        ConsoleStatus::PluggedDisabled
    );
    assert_eq!(console_session_energy_mwh(&report3), None);
}

#[test]
fn faults_and_power_decide_first() {
    let fault = payload(r#"{"Plug": 7, "Error1": "1"}"#);
    assert_eq!(
        derive_console_status(&fault, &payload("{}")),
        ConsoleStatus::Fault
    );
    let unplugged = payload(r#"{"Plug": 0}"#);
    assert_eq!(
        derive_console_status(&unplugged, &payload(r#"{"P": 11000}"#)),
        ConsoleStatus::NotPlugged
    );
    let plugged = payload(r#"{"Plug": 7, "Enable sys": "1.0", "Enable user": 1, "Max curr": 16000}"#);
    assert_eq!(
        derive_console_status(&plugged, &payload(r#"{"P": "3,5 kW"}"#)),
        ConsoleStatus::Charging
    );
    assert_eq!(
        derive_console_status(&plugged, &payload(r#"{"p": 0}"#)),
        ConsoleStatus::PluggedReady
    );
    assert_eq!(
        console_session_energy_mwh(&payload(r#"{"Energy (present session)": "10,5"}"#)),
        Some(10_500_000)
    );
}
