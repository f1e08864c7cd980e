//! Core of a multi-tenant task and project tracker: bearer-token
//! authentication, role-gated authorization, password checks, the
//! transactional multi-table writes, and the mapping of failures to
//! stable replies.

pub mod argument;
pub mod auth;
pub mod cli;
pub mod config;
pub mod data;
pub mod error;
pub mod login;
mod outside;
pub mod password;
pub mod query;
pub mod role;
pub mod service;
pub mod token;
