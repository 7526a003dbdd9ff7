pub mod client;
pub mod decode;
pub mod events;
pub mod stream;
