pub mod commands;
pub mod document;
pub mod dto;
pub mod error;
pub mod input_ports;
pub mod launch;
pub mod markdown_file;
pub mod models;
pub mod opener;
pub mod paths;
pub mod ports;
pub mod resolve;
pub mod state;
pub mod text;
pub mod use_cases;
pub mod watch;
