//! The logic of an ACP server and of a GitHub channel.
//!
//! The ACP server takes JSON-RPC requests, one on each line: [`rpc`] reads and
//! builds the messages, [`acp_server`] keeps the sessions, [`cwd`] finds the
//! directory of a session, and [`dispatch`] says what is to be done on a line.
//!
//! The GitHub channel takes comments by webhook and sends replies: [`signature`]
//! verifies a webhook, [`webhook`] makes messages of comments, [`replies`]
//! addresses the replies, and [`github`] holds the configuration.
//!
//! [`json`] and [`json_text`] are the JSON values that both work on; [`text`],
//! [`decimal`] and [`ids`] are strings, numbers and identifiers.

pub mod acp_server;
pub mod cwd;
pub mod decimal;
pub mod dispatch;
pub mod github;
pub mod ids;
pub mod json;
pub mod json_text;
pub mod replies;
pub mod rpc;
pub mod signature;
pub mod text;
pub mod webhook;
