//! A two-phase oracle round that asks outside data providers which tokens of a
//! collection are flagged, and settles their answers into one array of flags.
//!
//! The *prepare* phase validates the input and builds the query for the
//! providers. The *execute* phase, run later and on its own, resolves the
//! providers' answers by majority and decodes the agreed answer. Both phases
//! derive the same correlation identifier from the input alone.

pub mod correlation;
pub mod flags;
pub mod hexcode;
pub mod input;
pub mod request;
pub mod round;
pub mod vote;
