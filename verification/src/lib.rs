//! A client and tool layer for Devin AI sessions, exposed over the Model
//! Context Protocol: the requests sent to the Devin REST API, the JSON bodies
//! they carry, the handling of the replies and the text shown to the user.
pub mod devin_client;
pub mod json;
pub mod server;
pub mod text;
