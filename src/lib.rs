//! A minimal directory lister: it names each path given to it, with its
//! permission class and a human-scaled size, or marks it as a folder.
//!
//! The library holds every decision and every line of output; the program
//! around it only reads metadata, enumerates directories and prints.
pub mod driver;
pub mod entry;
pub mod path;
pub mod settings;
pub mod size;
pub mod validate;
