//! One request against the backend, as a sequence of decisions. The caller
//! performs each step that is handed out (a state read, a mutation call) and
//! hands back what came of it; the request ends with a reply or an abort.
use vstd::prelude::*;
use crate::backend::{
    join_url, service_path, service_path_of, state_path, state_path_of, Config, Entity,
};
use crate::light::{Action, Fragment, LightState};

verus! {

/// The status that a state read answers with.
pub const STATUS_OK: u16 = 200;

/// What the caller asked for.
#[derive(Clone, Copy, Debug, PartialEq, Eq, Structural)]
pub enum Operation {
    /// Show the light's current state.
    Read,
    /// Flip the light and show the state asked for.
    Toggle,
}

/// Why a backend call gave nothing to go on.
#[derive(Clone, Copy, Debug, PartialEq, Eq, Structural)]
pub enum Failure {
    /// The call produced no response.
    Transport,
    /// The response did not decode as a light state.
    Decode,
}

/// The answer to the caller: a status and the fragment that goes with it.
#[derive(Clone, Copy, Debug, PartialEq, Eq, Structural)]
pub struct Reply {
    pub status: u16,
    pub fragment: Fragment,
}

/// What the caller does next.
pub enum Step {
    /// Read the light's state: `GET url`, decoded as a light state.
    Fetch { url: String },
    /// Call a light service: `POST url` with `body` as JSON.
    Mutate { url: String, body: Entity, action: Action },
    /// Answer the caller; the request is over.
    Respond(Reply),
    /// Give up on the request; no fragment is rendered.
    Abort(Failure),
}

/// The reply to a state read: 200, with the fragment of the state read.
pub open spec fn read_reply(state: Seq<char>) -> Reply {
    Reply { status: 200, fragment: Fragment::spec_for_state(state) }
}

/// The reply to a mutation call: the backend's own status, with the fragment
/// of the state that was asked for.
pub open spec fn toggle_reply_of(action: Action, status: u16) -> Reply {
    Reply { status, fragment: action.spec_target() }
}

/// The address that reports the configured light's state.
pub open spec fn state_url_of(config: Config) -> Seq<char> {
    config.spec_base_url() + state_path_of(config.spec_entity_id())
}

/// The address of the service that performs an action.
pub open spec fn service_url_of(config: Config, action: Action) -> Seq<char> {
    config.spec_base_url() + service_path_of(action)
}

/// Renders a state read: the on-fragment for `"on"`, the off-fragment for
/// anything else, always with status 200.
pub fn render_state(current: &LightState) -> (r: Reply)
    ensures
        r == read_reply(current.state@),
        current.spec_is_on() ==> r == (Reply { status: 200, fragment: Fragment::On }),
        !current.spec_is_on() ==> r == (Reply { status: 200, fragment: Fragment::Off }),
{
    let fragment = if current.is_on() {
        Fragment::On
    } else {
        Fragment::Off
    };
    Reply { status: STATUS_OK, fragment }
}

/// Renders the end of a toggle: the backend's status passed through, with
/// the fragment of the state that the action asked for.
pub fn toggle_reply(action: Action, status: u16) -> (r: Reply)
    ensures
        r == toggle_reply_of(action, status),
        r.status == status,
        r.fragment == action.spec_target(),
{
    Reply { status, fragment: action.target() }
}

/// The first step of either operation: a fresh read of the light's state.
pub fn begin(config: &Config) -> (r: Step)
    ensures
        r matches Step::Fetch { url } && url@ == state_url_of(*config),
{
    let path = state_path(config.entity_id());
    Step::Fetch { url: join_url(config.base_url(), path.as_str()) }
}

/// The step after the state read. A failed read aborts the request. A read
/// answers with the fragment of the state; a toggle calls the service that
/// flips it, for the configured light.
pub fn after_read(config: &Config, operation: Operation, read: Result<LightState, Failure>) -> (r:
    Step)
    ensures
        match read {
            Err(f) => r matches Step::Abort(g) && g == f,
            Ok(s) => match operation {
                Operation::Read => r matches Step::Respond(reply) && reply == read_reply(s.state@),
                Operation::Toggle => r matches Step::Mutate { url, body, action } && action
                    == Action::spec_flip(s.state@) && url@ == service_url_of(*config, action)
                    && body.entity_id@ == config.spec_entity_id(),
            },
        },
{
    match read {
        Err(f) => Step::Abort(f),
        Ok(current) => match operation {
            Operation::Read => Step::Respond(render_state(&current)),
            Operation::Toggle => {
                let action = Action::flip(&current);
                let path = service_path(action);
                let url = join_url(config.base_url(), path.as_str());
                let body = Entity { entity_id: String::from_str(config.entity_id()) };
                Step::Mutate { url, body, action }
            },
        },
    }
}

/// The step after the mutation call: its status is passed through, or the
/// request aborts if the call produced no response.
pub fn after_mutation(action: Action, sent: Result<u16, Failure>) -> (r: Step)
    ensures
        match sent {
            Err(f) => r matches Step::Abort(g) && g == f,
            Ok(status) => r matches Step::Respond(reply) && reply == toggle_reply_of(action, status),
        },
{
    match sent {
        Err(f) => Step::Abort(f),
        Ok(status) => Step::Respond(toggle_reply(action, status)),
    }
}

} // verus!
