pub mod injection;
pub mod microphone;
pub mod rpc;
pub mod scripts;
pub mod text;
pub mod window;
