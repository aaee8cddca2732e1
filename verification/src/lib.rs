//! Core of a desktop wake-word companion: an audio capture and detection
//! pipeline with power-aware lifecycle management, plus the tray and window
//! controller that reacts to the same events, the sealing scheme of the
//! encrypted settings store, and the routing decisions of the agent bridge.
//!
//! All device, network and UI work is performed by the surrounding process;
//! this crate holds the decisions and data transformations, each with a
//! verified contract.

pub mod events;
pub mod inference;
pub mod pipeline;
pub mod power;
pub mod routing;
pub mod secrets;
pub mod stream;
pub mod tray;
