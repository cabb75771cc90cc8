//! An image-transform caching proxy, as a library of decisions.
//!
//! A request names an upstream origin and a rendition width. The library admits or refuses
//! it ([`config`], [`routes`]), gives its object an identity and a place in the local store
//! ([`object`], [`store`]), and takes it step by step through lookup, fetch, validation and
//! transform ([`pipeline`], [`retry`], [`fetch`], [`dispatch`], [`img`]). It opens no
//! connection, runs no tool and touches nothing of the store: every step says what is to be
//! done outside the process, and the next step takes what came of it. The one thing that is
//! read from the machine is its fonts, which the SVG renderer loads each time it is called
//! ([`img::svg_to_png`]). [`guarantees`] states what holds of every course that a request
//! can take.
//!
//! What other crates compute stands behind functions whose contracts are taken on trust:
//! those of [`codec`], [`digest`] and [`weburl`], and one each in [`text`], [`utils`] and
//! [`routes::admin`]. Each says in its documentation which outside function it calls and
//! what is claimed of it.

pub mod codec;
pub mod config;
pub mod digest;
pub mod dispatch;
pub mod fetch;
pub mod guarantees;
pub mod img;
pub mod object;
pub mod pipeline;
pub mod retry;
pub mod routes;
pub mod store;
pub mod text;
pub mod tw;
pub mod utils;
pub mod weburl;
