//! Routing and moderation core of a chat bot: the text-command dispatcher,
//! the interaction route table, the moderation gate and the pagination
//! arithmetic, all on plain values.
pub mod text;
pub mod routes;
pub mod commands;
pub mod moderation;
pub mod warnings;
pub mod pagination;
pub mod profile;
