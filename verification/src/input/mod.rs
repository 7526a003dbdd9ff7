pub mod hotkey;
pub mod keyboard;
pub mod key_codes;
