//! Verified core of the GnomeQS Quick Share desktop client: settings values,
//! transfer history, tray IPC, BLE discovery bookkeeping and the decisions
//! that the user interface takes on incoming events.

pub mod visibility;
pub mod text;
pub mod settings;
pub mod history;
pub mod tray;
pub mod channel;
pub mod endpoint;
pub mod ble;
pub mod ble_laws;
pub mod idlist;
pub mod views;
pub mod window;
