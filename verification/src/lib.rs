//! Keeps the HDR content brightness of a laptop panel on its calibration curve.

pub mod apply;
pub mod attempt;
pub mod calibration;
pub mod clock;
pub mod csv;
pub mod daemon;
pub mod diagnostics;
pub mod display;
pub mod event_loop;
pub mod gpu_reset;
pub mod locate;
pub mod packet;
pub mod power_policy;
pub mod probe;
pub mod session;
pub mod single_instance;
pub mod text;
pub mod topology;
pub mod tray;
pub mod turn;
pub mod wide;
pub mod win32;
pub mod wmi_monitor;
pub mod xtask;
