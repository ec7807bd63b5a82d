//! Small pieces of network-service logic with machine-checked contracts:
//! BCD field coding, CPU-model detection, HTTP handler replies, a JSON
//! document model, OCPP 1.6 frame dispatch, WebSocket relay decisions and
//! release-asset selection.

pub mod bcd;
pub mod cpuinfo;
pub mod text;
pub mod greeting;
pub mod http;
pub mod json;
pub mod clock;
pub mod ocpp;
pub mod relay;
pub mod release;
