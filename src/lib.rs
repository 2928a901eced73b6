// Telemetry for a KEBA wallbox: the plug debouncer, the energy accounting policy, the
// charger report parser and the decisions of the polling pipeline that records charging
// sessions and their log events, with the storage layer's migration plan.

pub mod api;
pub mod clock;
pub mod config;
pub mod console;
pub mod errors;
pub mod keba_payload;
pub mod modbus;
pub mod models;
pub mod numeric;
pub mod poller;
pub mod replay;
pub mod session_energy;
pub mod session_state;
pub mod storage;
