//! Identity and access control for the restaurant service: session tokens,
//! the authentication and authorization stages of the route tree, the login
//! and registration decisions, and the owner approval workflow.

pub mod roles;
pub mod error;
pub mod jwt;
pub mod users;
pub mod identity;
pub mod access;
pub mod auth;
pub mod owners;
pub mod shared;
pub mod restaurants;
pub mod files;
