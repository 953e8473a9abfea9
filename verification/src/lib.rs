//! Identity and access core: password credentials, signed bearer tokens,
//! OAuth2 grants and decentralized identifiers, with machine-checked contracts.

pub mod auth;
pub mod config;
pub mod did;
pub mod error;
pub mod jwt;
pub mod models;
pub mod oauth;
pub mod outside;
pub mod text;
