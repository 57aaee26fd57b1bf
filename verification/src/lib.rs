//! Decision engine of a guarding proxy for chat-completion traffic.
//!
//! The proxy sits between a client and an upstream provider of chat
//! completions.  It steps in, and sends a notice in place of the real reply,
//! when a session runs in a loop, when a reply leaks a marker of sensitive
//! data, or when the cost of a session gets out of hand.  This crate holds
//! the rules by which it does so, each with its contract:
//!
//! - [`scorer`] and [`detector`]: the similarity of two turns, and runs of
//!   near-identical turns at the end of a window;
//! - [`window`]: bounded first-in-first-out windows;
//! - [`session`]: the state of one conversation, with the loop checks and
//!   the cost throttle;
//! - [`request`], [`pipeline`] and [`intervention`]: the decisions of one
//!   request, and what is sent and logged when the proxy steps in;
//! - [`audit`] and [`savings`]: the bounded log of interventions and the
//!   shared count of what they saved;
//! - [`registry`]: the sessions by their identifiers, shared by all requests;
//! - [`body`]: the JSON body of an upstream answer;
//! - [`control`]: read-only queries and the dispatch of control-plane calls.
//!
//! No floating-point number occurs here.  Similarities, thresholds and the
//! components of embeddings are counted in millionths, money spent in
//! hundred-millionths of a dollar and money saved in cents; see [`units`]
//! and [`policy`].  Time is handed in by the caller, as seconds since the
//! Unix epoch.

pub mod units;
pub mod policy;
pub mod text;
pub mod scorer;
pub mod window;
pub mod audit;
pub mod detector;
pub mod session;
pub mod request;
pub mod intervention;
pub mod pipeline;
pub mod savings;
pub mod registry;
pub mod control;
pub mod body;
