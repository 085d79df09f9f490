//! Verified core of the command-line tool's integration-test harness: how scratch
//! repositories are laid out and prepared, how a container's output is watched for a
//! marker, and how the Nix expressions and command lines that build images and start
//! containers are put together.

pub mod env;
pub mod image;
pub mod marker;
pub mod network;
pub mod nix;
pub mod nspawn;
pub mod path;
pub mod repo;
