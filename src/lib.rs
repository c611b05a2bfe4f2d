//! The state-synchronisation core of a one-light web front-end: reading the
//! light's state from a home-automation backend, deciding how to flip it,
//! and rendering the fragment that the caller gets back.
pub mod backend;
pub mod exchange;
pub mod laws;
pub mod light;

pub use backend::{AuthHeader, Config, ConfigError, Entity};
pub use exchange::{
    after_mutation, after_read, begin, render_state, toggle_reply, Failure, Operation, Reply, Step,
    STATUS_OK,
};
pub use light::{Action, Fragment, LightState, BULB_OFF_DIV, BULB_ON_DIV};
