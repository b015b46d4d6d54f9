//! The decisions and message texts of the Hermit Discord bot.
//!
//! Every function here is pure: it takes what the bot read from Discord or
//! from a web service as plain values and returns what the bot answers or
//! does next.  Talking to Discord, to the voice gateway and to the joke and
//! meme services is left to the program that embeds this library.
pub mod text;
pub mod mention;
pub mod events;
pub mod services;
pub mod commands;
pub mod music;
pub mod helper;
pub mod config;
pub mod installer;
