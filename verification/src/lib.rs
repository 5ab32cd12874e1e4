//! A pipeline that turns bookmarked or feed-sourced URLs into normalized
//! preview records: each URL is classified by its shape, enriched with
//! title/summary/tags from the matching extractor, run through a fallback
//! normalizer, optionally filtered for topical relevance, and stored with
//! dedup-aware upserts keyed by URL.

pub mod ai;
pub mod arxiv;
pub mod categories;
pub mod classify;
pub mod enrich;
pub mod filter;
pub mod outside;
pub mod preview;
pub mod store;
pub mod text;
