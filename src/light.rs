//! The light's state as the backend reports it, the two fragments that show
//! it, and the two actions that change it.
use vstd::prelude::*;

verus! {

/// Markup shown while the light is on.
pub const BULB_ON_DIV: &'static str = "<div class='container' style='background-color:#F5DEB3;'><img alt='Lightbulb on' src='/bulbon'/></div>";

/// Markup shown while the light is off (or in any state other than on).
pub const BULB_OFF_DIV: &'static str = "<div class='container' style='background-color:black;'><img alt='Lightbulb off' src='/bulboff'/></div>";

/// The only state value that counts as "on"; every other value renders as off.
pub open spec fn on_word() -> Seq<char> {
    "on"@
}

/// The state value that the backend holds after a `turn_off`.
pub open spec fn off_word() -> Seq<char> {
    "off"@
}

/// What the backend reports of the light: its `state` attribute.
#[derive(Clone, Debug)]
pub struct LightState {
    pub state: String,
}

impl LightState {
    /// True exactly when the backend reported the state `"on"`.
    pub open spec fn spec_is_on(&self) -> bool {
        self.state@ == on_word()
    }

    pub fn new(state: String) -> (r: LightState)
        ensures
            r.state@ == state@,
    {
        LightState { state }
    }

    /// Whether the reported state is exactly `"on"`.
    pub fn is_on(&self) -> (r: bool)
        ensures
            r == self.spec_is_on(),
    {
        let s: &str = self.state.as_str();
        let n: usize = s.unicode_len();
        proof {
            reveal_strlit("on");
        }
        if n != 2 {
            return false;
        }
        let a: char = s.get_char(0);
        let b: char = s.get_char(1);
        let r: bool = a == 'o' && b == 'n';
        assert(r ==> self.state@ =~= on_word());
        r
    }
}

/// Which of the two fixed fragments a response carries.
#[derive(Clone, Copy, Debug, PartialEq, Eq, Structural)]
pub enum Fragment {
    On,
    Off,
}

impl Fragment {
    /// The fragment that shows a light in the given reported state.
    pub open spec fn spec_for_state(s: Seq<char>) -> Fragment {
        if s == on_word() {
            Fragment::On
        } else {
            Fragment::Off
        }
    }

    /// The markup of this fragment.
    pub fn markup(&self) -> (r: &'static str)
        ensures
            *self == Fragment::On ==> r@ == BULB_ON_DIV@,
            *self == Fragment::Off ==> r@ == BULB_OFF_DIV@,
    {
        match self {
            Fragment::On => BULB_ON_DIV,
            Fragment::Off => BULB_OFF_DIV,
        }
    }
}

/// The two mutation services of the backend's light domain.
#[derive(Clone, Copy, Debug, PartialEq, Eq, Structural)]
pub enum Action {
    TurnOn,
    TurnOff,
}

impl Action {
    /// The action that flips a light in the given reported state: off when it
    /// is on, on in any other state.
    pub open spec fn spec_flip(s: Seq<char>) -> Action {
        if s == on_word() {
            Action::TurnOff
        } else {
            Action::TurnOn
        }
    }

    /// The fragment of the state that this action asks for.
    pub open spec fn spec_target(self) -> Fragment {
        match self {
            Action::TurnOn => Fragment::On,
            Action::TurnOff => Fragment::Off,
        }
    }

    /// The state value that a backend which applies this action then reports.
    pub open spec fn spec_resulting_state(self) -> Seq<char> {
        match self {
            Action::TurnOn => on_word(),
            Action::TurnOff => off_word(),
        }
    }

    /// The action that flips the light from the state just read.
    pub fn flip(current: &LightState) -> (r: Action)
        ensures
            r == Action::spec_flip(current.state@),
            current.spec_is_on() ==> r == Action::TurnOff,
            !current.spec_is_on() ==> r == Action::TurnOn,
    {
        if current.is_on() {
            Action::TurnOff
        } else {
            Action::TurnOn
        }
    }

    /// The fragment of the state that this action asks for.
    pub fn target(&self) -> (r: Fragment)
        ensures
            r == self.spec_target(),
    {
        match self {
            Action::TurnOn => Fragment::On,
            Action::TurnOff => Fragment::Off,
        }
    }

    /// The backend's service name for this action.
    pub fn service(&self) -> (r: &'static str)
        ensures
            *self == Action::TurnOn ==> r@ == "turn_on"@,
            *self == Action::TurnOff ==> r@ == "turn_off"@,
    {
        match self {
            Action::TurnOn => "turn_on",
            Action::TurnOff => "turn_off",
        }
    }
}

} // verus!
