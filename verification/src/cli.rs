//! Input validation, responses, argument handling and help texts of the
//! command line tool.
pub mod validation;
pub mod response;
pub mod command;
pub mod help;
