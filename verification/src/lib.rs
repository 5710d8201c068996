//! Viav keeps a Discord guild supplied with voice channels: when a user joins an empty
//! voice channel, the channel is renamed and duplicated so that an empty one stays
//! free, and a private text channel with a control deck is opened beside it.
//!
//! This crate holds the decisions and the formats of that work: the text stored in a
//! text channel's topic, the controls that users reach by reactions and slash
//! commands, and the steps that create and tear down channels, each written as a
//! function from state and event to the next state and the action to perform.
pub mod text;
pub mod permissions;
pub mod topic;
pub mod channels;
pub mod operation;
pub mod content;
pub mod deck;
pub mod voice;
pub mod membership;
pub mod handler;
pub mod commands;
