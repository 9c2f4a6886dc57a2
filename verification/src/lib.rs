//! A small front end for `youtube-dl` and `eyeD3`: it classifies the output
//! file by its extension, decides where the file goes, recognises YouTube URLs,
//! and builds the argument lists of the two external programs.

pub mod laws;
pub mod paths;
pub mod utils;
pub mod validation;
pub mod text;
