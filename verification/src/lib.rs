//! Verified core of a self-hosted file-sharing service: the ingestion and
//! access-control pipeline, written without I/O.
//!
//! Every request is served by a small state machine, a handler. A handler
//! never touches a database, a disk or a socket: it asks its environment
//! for one piece of storage work at a time ([`protocol::Action`]), is told
//! how that went ([`protocol::Reply`]) and decides what comes next, until
//! it has the response for the client.
//!
//! - [`upload`], [`files`] and [`accounts`] hold the handlers; [`guard`]
//!   holds what they share, the resolution of a token and the ownership
//!   rule.
//! - [`naming`], [`fingerprint`] and [`password`] hold what handlers
//!   compute on the way: stored names, content fingerprints, password
//!   hashes.
//! - [`db`], [`blobs`] and [`service`] hold the two stores and the service
//!   in memory; [`serve`] and [`serve_accounts`] run the handlers against
//!   it.
//! - [`outcomes`] says in one piece what each request does to the service,
//!   and [`laws`] what follows from that for every request.

pub mod accounts;
pub mod blobs;
pub mod config;
pub mod db;
pub mod error;
pub mod files;
pub mod fingerprint;
pub mod guard;
pub mod laws;
pub mod model;
pub mod naming;
pub mod outcomes;
pub mod password;
pub mod protocol;
pub mod seqs;
pub mod serve;
pub mod serve_accounts;
pub mod service;
pub mod upload;
