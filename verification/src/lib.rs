//! Home automation logic: the decisions taken by the device-control state
//! machines, the chat-bot command language, configuration parsing and the
//! brightness rules, separated from the network and process I/O that drives them.
use vstd::prelude::*;

pub mod clock;
pub mod commands;
pub mod config;
pub mod desktop_control_fsm;
pub mod get_env_fsm;
pub mod light_ctrl_fsm;
pub mod light_livingroom_ctrl_fsm;
pub mod llm_wrapper;
pub mod office_env_fsm;
pub mod snowdog_ctrl_fsm;
pub mod telegram_bot;
pub mod text;
pub mod thinkpad_ctrl_fsm;
pub mod thinkpad_dock_control_fsm;

verus! {

/// Readings of the office sensor board.
#[derive(Clone, Copy, Debug, PartialEq, Eq, Structural)]
pub struct OfficeAmbient {
    pub brightness: u32,
    pub temperature: u32,
    pub humidity: u32,
}

/// State shared by every task of the service.
#[derive(Clone, Copy, Debug, PartialEq, Eq, Structural)]
pub struct GlobalState {
    pub am_i_home: bool,
    pub is_she_home: bool,
    pub office_env: OfficeAmbient,
    /// Whether the monitor controllers follow the ambient brightness.
    pub brightness_auto_control: bool,
}

/// Position of the desktop computer in `Systems::pcs`.
pub const DESKTOP_PC: usize = 1;

/// A computer reachable over SSH (and, given its MAC address, woken over the LAN).
#[derive(Clone, Debug)]
pub struct Pc {
    pub user: String,
    pub ip: String,
    pub mac: Option<String>,
}

/// The sensor board on the local network.
#[derive(Clone, Debug)]
pub struct Embedded {
    pub hostname: String,
    pub port: String,
}

/// The devices the service talks to.
#[derive(Clone, Debug)]
pub struct Systems {
    pub esp8266_rush: Embedded,
    pub pcs: Vec<Pc>,
}

} // verus!
