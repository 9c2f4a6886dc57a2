//! The library proper: argument records, media files and their resolution,
//! URL recognition, reply parsing, and the external commands' argument lists.

pub mod argument_parsing;
pub mod exec_command;
pub mod path_utils;
pub mod url_validation;
pub mod user_input;
pub mod validation;
