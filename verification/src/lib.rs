//! A verified model of a window-bound rendering loop.
//!
//! The library holds the decisions of such a loop on plain values: how a
//! surface configuration is chosen from the backend's capabilities, when a
//! resize is applied and when it is skipped, what fixed-function state a
//! pipeline is built with, what a single frame records and submits, and how
//! window events are routed. The windowing system and the graphics backend
//! themselves are outside collaborators: a thin unverified shell performs
//! their calls and feeds the outcomes back in.

pub mod app;
pub mod device;
pub mod event;
pub mod frame;
pub mod pipeline;
pub mod surface;
