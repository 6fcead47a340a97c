//! The push buttons and their lights.
pub mod bits;
pub mod button_state;
pub mod mac_os;
pub mod raspberry_pi;
