pub mod commands;
pub mod rpc;
