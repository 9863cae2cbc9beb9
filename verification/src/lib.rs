//! Keeps a distributed database's node registry in step with the lifecycle of
//! its worker containers.
//!
//! The library decides and the process around it acts. The [`supervisor`]
//! is told what happened (an action was carried out, an event arrived, a
//! shutdown signal came) and answers with what is to be done next; the
//! [`connect`] manager does the same for the connection to the coordinator.
//! Neither performs any I/O, so every decision is open to proof:
//!
//! - [`event`] decodes a container lifecycle event into the membership
//!   change it asks for, and [`command`] turns the change into the
//!   statements sent to the coordinator;
//! - [`metadata`] finds the Compose project of this process's own
//!   container, and [`filters`] scopes the event subscription to the
//!   workers of that project;
//! - [`settings`] and [`target`] read the configuration and build the
//!   connection configuration from it;
//! - [`runs`] states what holds of every run of the supervisor, and
//!   [`catalog`] what the commands leave behind in a model of the
//!   coordinator's catalog.

pub mod catalog;
pub mod command;
pub mod connect;
pub mod event;
pub mod filters;
pub mod metadata;
pub mod runs;
pub mod settings;
pub mod string_map;
pub mod supervisor;
pub mod target;
mod text;
