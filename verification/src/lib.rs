pub mod account;
pub mod answer;
pub mod dialogue;
pub mod network;
pub mod program;
pub mod prompt;
pub mod rpc_client;
pub mod selector;
pub mod store;
pub mod text;
pub mod transaction;
