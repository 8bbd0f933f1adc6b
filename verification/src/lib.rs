//! Core logic of the Minstrel music bot: the play queue and history state
//! machine, fair autoplay scheduling between users, account linking, and the
//! text shown to listeners.

pub mod model;
pub mod config;
pub mod text;
pub mod usertime;
pub mod keys;
pub mod random;
pub mod autoplay;
pub mod player;
pub mod musicstate;
pub mod adapters;
pub mod usermgmt;
pub mod requester;
pub mod song;
pub mod dbmodel;
pub mod web;
pub mod frontend;
pub mod voice;
pub mod commands;
pub mod accounts;
