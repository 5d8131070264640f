pub mod action;
pub mod manager;
pub mod mode;
pub mod node;
pub mod poll;
pub mod replica;
pub mod report;
pub mod retry;
pub mod script;
pub mod status;
