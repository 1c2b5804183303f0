//! Core of a CI resource that discovers, fetches and publishes generic
//! packages held by a Gitea package registry.
pub mod auth;
pub mod endpoints;
pub mod fetch;
pub mod models;
pub mod params;
pub mod publish;
pub mod resolver;
