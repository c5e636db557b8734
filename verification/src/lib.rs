//! Webhook core for a channel-scoped game-session bot: request
//! authentication (payload construction and Ed25519 signature checking),
//! a session store of campaigns keyed by channel, and the dispatcher
//! that routes authenticated interactions to command handlers.

pub mod auth;
pub mod campaign;
pub mod dispatch;
pub mod hexcode;
pub mod interaction;
pub mod player;
pub mod store;
pub mod text;
