//! A user-account domain service: it registers accounts, authenticates
//! credentials and issues bearer tokens, retrieves and lists accounts with
//! pagination, and applies partial updates, behind a storage-agnostic
//! repository port.

pub mod auth;
pub mod config;
pub mod credentials;
pub mod dtos;
pub mod error;
pub mod models;
pub mod pagination;
pub mod providers;
pub mod repository;
pub mod service;
