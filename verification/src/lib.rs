//! Native-menu subsystem: a declarative menu-tree model with a builder for the
//! application's menu bar, and a dispatcher that routes selected menu-item
//! identifiers to named application events.
//!
//! The host windowing runtime renders the tree and delivers selections; it is
//! an external collaborator. This crate owns the abstract tree model, the
//! identifier scheme, and the dispatch contract.

pub mod builder;
pub mod dispatch;
pub mod ids;
pub mod tree;
