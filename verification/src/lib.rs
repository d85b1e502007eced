//! # tee_morphosis
//!
//! Parsing, recoloring and composing Tee characters.
//!
//! A parts sheet is cut into named regions by a [`tee::uv::UV`] layout, the
//! regions are kept in a [`tee::Tee`], and [`tee::Tee::compose`] draws them
//! onto a canvas in a fixed order according to a [`tee::skin::Skin`].
//! Every function of this crate carries a contract that Verus proves, except
//! the few that hand work to the `image` crate; those say so.

pub mod error;
pub mod tee;
