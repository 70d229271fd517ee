//! Core of a terminal system-telemetry dashboard: the tab set, the data the
//! probes deliver, refresh gating, chart series, sortable lists, the
//! interaction state machine, and the text of every view.

pub mod charts;
pub mod cpu;
pub mod frame;
pub mod gate;
pub mod info;
pub mod interaction;
pub mod layout;
pub mod lists;
pub mod network;
pub mod paragraphs;
pub mod series;
pub mod sort;
pub mod tab;
pub mod text;
pub mod welcome;
