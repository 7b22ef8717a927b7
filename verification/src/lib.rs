//! A verified core for a transparent relay that speaks a legacy game's
//! binary packet protocol: wire framing for packets (including extended
//! "jumbo" length frames), the sequential request/response session used
//! while discovering the real upstream server, the address-discovery
//! decision logic, the per-connection relay state machine, and a
//! human-readable packet formatter for diagnostics.

pub mod debug;
pub mod packet;
pub mod relay;
pub mod retriever;
