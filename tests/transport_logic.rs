use keba_home_api::clock::SystemClock;
use keba_home_api::modbus::{
    read_input_registers_request, register_value, response_pdu_len, state_is_plugged,
    ModbusFrameError, REG_PRESENT_ENERGY,
};
use keba_home_api::errors::IoErrorKind;
use keba_home_api::replay::{script_error_kind, ReplayCursor, ReplayError, ScriptError};
use keba_home_api::session_state::Clock;

#[test]
fn register_read_request_is_framed_big_endian() {
    assert_eq!(
        read_input_registers_request(0x0102, 255, REG_PRESENT_ENERGY),
        vec![0x01, 0x02, 0, 0, 0, 6, 255, 4, 0x05, 0xDE, 0, 2]
    );
}

#[test]
fn response_header_gives_pdu_length() {
    assert_eq!(response_pdu_len(&[0, 1, 0, 0, 0, 7, 255]), Ok(6));
    assert_eq!(
        response_pdu_len(&[0, 1, 0, 0, 0, 2, 255]),
        Err(ModbusFrameError::ResponseTooShort)
    );
}

#[test]
fn register_value_checks_function_and_byte_count() {
    assert_eq!(register_value(&[4, 4, 0, 0, 0x01, 0x02]), Ok(258));
    assert_eq!(register_value(&[4, 4, 0x12, 0x34, 0x56, 0x78]), Ok(0x1234_5678));
    assert_eq!(
        register_value(&[0x84, 2]),
        Err(ModbusFrameError::UnexpectedFunctionCode(0x84))
    );
    assert_eq!(
        register_value(&[4, 2, 0, 1]),
        Err(ModbusFrameError::UnexpectedByteCount)
    );
    assert_eq!(
        ModbusFrameError::UnexpectedFunctionCode(132).to_string(),
        "unexpected modbus function code: 132"
    );
    assert!(state_is_plugged(2));
    assert!(!state_is_plugged(1));
}

#[test]
fn replay_cursor_loops_or_finishes() {
    let mut looping = ReplayCursor::new();
    assert_eq!(looping.advance(2, true), Ok(0));
    assert_eq!(looping.advance(2, true), Ok(1));
    assert_eq!(looping.advance(2, true), Ok(0));

    let mut once = ReplayCursor::new();
    assert_eq!(once.advance(1, false), Ok(0));
    assert_eq!(once.advance(1, false), Err(ReplayError::Finished));
    assert_eq!(ReplayCursor::new().advance(0, true), Err(ReplayError::Empty));
}

#[test]
fn system_clock_reads_the_present() {
    assert!(SystemClock.now().0 > 1_700_000_000_000);
}

#[test]
fn scripted_error_kinds_map_to_transport_failures() {
    assert_eq!(script_error_kind("timeout"), ScriptError::Io(IoErrorKind::TimedOut));
    assert_eq!(script_error_kind(" Internet_Down "), ScriptError::Io(IoErrorKind::NetworkUnreachable));
    assert_eq!(script_error_kind("wallbox_unreachable"), ScriptError::Io(IoErrorKind::HostUnreachable));
    assert_eq!(script_error_kind("connection_refused"), ScriptError::Io(IoErrorKind::ConnectionRefused));
    assert_eq!(script_error_kind("broken_pipe"), ScriptError::Io(IoErrorKind::BrokenPipe));
    assert_eq!(script_error_kind("INVALID_JSON"), ScriptError::InvalidJson);
    assert_eq!(script_error_kind("meteor"), ScriptError::Unknown);
}
