//! Device-presence reconciliation for hot-pluggable hardware.
//!
//! The crate keeps an ordered registry of the devices that are attached right now,
//! lets binding rules give stable roles to physical devices, and decides how the two
//! producers of presence information (a slow full scan and a fast stream of attach and
//! detach notifications) change the registry.  Everything here works on plain values:
//! the surrounding program owns the locks, the threads, the files and the device
//! monitor.
//!
//! - [`models`]: raw devices, binding rules and views, each with its model.
//! - [`service`]: rule matching, from raw devices and rules to views.
//! - [`registry`]: the device registry with snapshot, replacement and removal.
//! - [`manager`]: what the event listener and the poll scanner decide.
//! - [`config`]: what the rule file stands for when the program starts.
//! - [`api`]: the answers to device queries and to rule submissions.
//! - [`response`] and [`error`]: the answer envelope and the failures it reports.
//! - [`text`]: optional strings and the hexadecimal form of device ids.

pub mod api;
pub mod config;
pub mod error;
pub mod manager;
pub mod models;
pub mod registry;
pub mod response;
pub mod service;
pub mod text;
