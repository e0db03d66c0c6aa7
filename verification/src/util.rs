//! Building blocks shared by the features.

pub mod clock;
pub mod codeberg;
pub mod consts;
pub mod countdown;
pub mod decimal;
pub mod firewall;
pub mod interval;
pub mod log;
pub mod meta;
pub mod persistent_state;
pub mod system_info;
pub mod win;
