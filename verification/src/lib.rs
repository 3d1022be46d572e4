//! Bakeneko: the verified core of a desktop manga reader.
#![allow(unused_imports)]

pub mod text;
pub mod language;
pub mod discord;
pub mod reader;
pub mod downloads;
pub mod num;
pub mod xdg;
pub mod settings;
pub mod net;
pub mod rpc;
pub mod names;
pub mod models;
pub mod browse;
pub mod library;
pub mod cover;
pub mod details;
pub mod theme;
pub mod shell;
pub mod util;
pub mod solver;
pub mod calls;
pub mod groups;
pub mod chips;
