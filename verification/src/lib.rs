//! Verified core of a Mass Effect 3 multiplayer server: matchmaking rules,
//! packet framing, tunnel routing, game state and session tokens.

pub mod attrs;
pub mod game;
pub mod client_config;
pub mod clock;
pub mod decode;
pub mod encode;
pub mod leaderboard;
pub mod matchmaking;
pub mod models;
pub mod packet;
pub mod report;
pub mod retriever;
pub mod routes;
pub mod rules;
pub mod session_data;
pub mod sessions;
pub mod signing;
pub mod snapshot;
pub mod text;
pub mod tokens;
pub mod tunnel;
pub mod udp_tunnel;
