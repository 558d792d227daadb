//! A registry of clients: the records a store keeps, the rule by which the
//! store assigns their identifiers, the statements sent to the database,
//! and the replies given to the two requests (register a client, list them
//! all).

pub mod client;
pub mod error;
pub mod exchange;
pub mod pool;
pub mod render;
pub mod reply;
pub mod statement;
pub mod table;
pub mod text;
