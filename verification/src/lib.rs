//! Domain model, use-case decisions and gateway rules of a long-connection game server.

pub mod account;
pub mod auth_gate;
pub mod app_error;
pub mod dto;
pub mod error;
pub mod events;
pub mod gateway;
pub mod http;
pub mod ids;
pub mod login;
pub mod text;
pub mod player;
pub mod registry;
pub mod progression;
pub mod register;
pub mod room;
pub mod room_actor;
pub mod room_service;
pub mod session;
pub mod time;
pub mod value;
