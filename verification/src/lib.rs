//! Weighted trait-manifest generation for a collectible-avatar batch
//! pipeline.
//!
//! The library samples one visual variant per trait category according to
//! rarity-weighted distributions ([`sample`], [`catalog`]), applies the
//! cross-category dependency rules ([`rules`]), assembles whole manifests in
//! the fixed category order ([`manifest`]), renders them to the per-gender
//! log format and parses that back ([`store`]), expands persisted manifests
//! into emotion variants ([`emotion`]), and names the compositing jobs and
//! aggregates their outcomes ([`jobs`]).  The [`integrity`] and [`anchors`]
//! modules tie the pieces together: every generated manifest survives the
//! log round trip, and the Face filter provably keeps the Clothes entry
//! the expansion keys on.  The only code taken on trust is
//! the random draw behind rand's weighted index and a one-call wrapper for
//! appending a character to a `String`; everything that interprets a drawn
//! value is verified for every value the draw can take.

pub mod kinds;
pub mod strutil;
pub mod catalog;
pub mod sample;
pub mod rules;
pub mod manifest;
pub mod store;
pub mod emotion;
pub mod jobs;
pub mod integrity;
pub mod anchors;
