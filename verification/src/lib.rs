//! The session logic of a small peer-to-peer chat node.
//!
//! A node keeps a flood pub/sub behaviour (libp2p's `Floodsub`) whose partial
//! view follows what local-network discovery reports, publishes every line
//! typed by the user on one fixed topic, and reports what arrives. This
//! crate holds the decisions of that loop, verified against contracts for
//! the libp2p calls it makes.
//!
//! - `substrate`: the contracts that are taken on trust from libp2p.
//! - `event`: the values that the loop hands in and gets back.
//! - `view`: the partial view as a set, and the laws of its motion.
//! - `dissemination`: subscribing, publishing, and following discovery.
//! - `turn`: one turn of the event loop.

pub mod dissemination;
pub mod event;
pub mod substrate;
pub mod turn;
pub mod view;
