//! Client library for a text-highlighting conversion service.

pub mod bionic;
pub mod client;
pub mod decimal;
pub mod requests;
pub mod secret;
