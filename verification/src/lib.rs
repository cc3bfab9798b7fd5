//! Decisions, text handling and command construction for a NixOS helper.
pub mod args;
pub mod clean;
pub mod cli;
pub mod command;
pub mod deletion;
pub mod elevation;
pub mod flow;
pub mod generations;
pub mod log;
pub mod nix;
pub mod nixos;
pub mod paths;
pub mod rebuild;
pub mod rollback;
pub mod search;
pub mod text;
