//! Verified core of the Himmelblau admin portal: the text rules, the
//! `aad-tool` command lines, the interpretation of process and broker
//! replies, the form checks of the dashboard views and the sign-in flow.

pub mod text;
pub mod aad_tool;
pub mod commands;
pub mod broker;
pub mod system;
pub mod forms;
pub mod ui;
