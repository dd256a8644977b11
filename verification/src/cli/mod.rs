//! The command-line program's commands: their arguments, the requests they
//! send and the text they print.  The program parses the arguments, sends
//! the requests and prints; what it sends and prints is decided here.
pub mod commands;
