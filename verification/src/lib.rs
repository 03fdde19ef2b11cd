//! Acquisition of the text currently selected in the focused application.
//!
//! The library holds the decisions of the acquisition and none of its
//! operating-system calls. Every component is a small state machine: the host
//! performs the action a machine asks for, reports what happened as an event,
//! and receives the next action. The machines are total: whatever the host
//! reports, they end with a plain string and with the clipboard handed back.

pub mod accessibility;
pub mod clipboard;
pub mod copy_trigger;
pub mod desk;
pub mod focus;
pub mod orchestrator;
pub mod runs;
pub mod script;
pub mod text;
