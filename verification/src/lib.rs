//! Igor keeps track of dotfiles.
//!
//! The library holds the decisions of the tool and leaves the disk and the
//! terminal to the program around it:
//!
//! - [`config`] is the list of tracked files;
//! - [`paths`] says where the dotfiles folder and the configuration file
//!   live;
//! - [`answer`] reads a typed yes or no;
//! - [`startup`] and [`init`] are the two procedures of the tool, getting the
//!   configuration ready and setting up the dotfiles folder. Each hands out
//!   one [`flow::Action`] at a time and takes in what came of it as a
//!   [`flow::Event`];
//! - [`model`] is the disk as the laws about the two procedures see it.

pub mod answer;
pub mod config;
pub mod flow;
pub mod init;
pub mod model;
pub mod paths;
pub mod startup;
