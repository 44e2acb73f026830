//! An anonymous imageboard core: post ingestion, identity derivation,
//! content-addressed media layout, text sanitising and the persistence
//! contract, with the behaviour of every item stated and proved.
//!
//! The modules, leaves first:
//!
//! * [`error`], [`models`], [`rows`]: the error taxonomy, the entities and
//!   how they are read from stored rows;
//! * [`text`], [`order`], [`digest`], [`ident`], [`net`]: text and
//!   sequence helpers, digests, identifiers, addresses;
//! * [`sanitize`]: the text sanitiser;
//! * [`auth`]: pseudonyms, tripcodes, moderator passwords and bans;
//! * [`media`], [`thumbnail`], [`save`], [`blobs`]: the media store;
//! * [`repo`], [`memory`]: the repository contract and its in-memory form;
//! * [`form`], [`pipeline`], [`ingest`]: the ingestion pipeline;
//! * [`pages`], [`service`]: the read pages, and the whole as one service.

pub mod error;
pub mod models;
pub mod rows;
pub mod text;
pub mod order;
pub mod digest;
pub mod ident;
pub mod net;
pub mod sanitize;
pub mod auth;
pub mod media;
pub mod thumbnail;
pub mod save;
pub mod blobs;
pub mod repo;
pub mod memory;
pub mod form;
pub mod pipeline;
pub mod ingest;
pub mod pages;
pub mod service;
