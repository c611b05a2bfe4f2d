use yagami::{
    after_mutation, after_read, begin, render_state, toggle_reply, Action, Config, ConfigError,
    Failure, Fragment, LightState, Operation, Reply, Step, BULB_OFF_DIV, BULB_ON_DIV, STATUS_OK,
};

const BASE: &str = "http://192.168.1.108:8123";

fn config() -> Config {
    Config::new(
        Some(String::from("secret-token")),
        Some(String::from("light.desk")),
        String::from(BASE),
    )
    .expect("a valid configuration")
}

fn state(s: &str) -> LightState {
    LightState::new(String::from(s))
}

fn expect_reply(step: Step) -> Reply {
    match step {
        Step::Respond(r) => r,
        _ => panic!("expected a reply"),
    }
}

fn expect_mutation(step: Step) -> (String, String, Action) {
    match step {
        Step::Mutate { url, body, action } => (url, body.entity_id, action),
        _ => panic!("expected a mutation call"),
    }
}

/// A backend that applies every action it is sent and changes in no other way.
fn apply(action: Action) -> LightState {
    match action {
        Action::TurnOn => state("on"),
        Action::TurnOff => state("off"),
    }
}

#[test]
fn read_on_renders_on_fragment() {
    let r = render_state(&state("on"));
    assert_eq!(r, Reply { status: 200, fragment: Fragment::On });
    assert_eq!(r.fragment.markup(), BULB_ON_DIV);
}

#[test]
fn read_other_states_render_off_fragment() {
    for s in ["off", "unavailable", "", "On", "on ", "onn"] {
        let r = render_state(&state(s));
        assert_eq!(r, Reply { status: 200, fragment: Fragment::Off });
        assert_eq!(r.fragment.markup(), BULB_OFF_DIV);
    }
}

#[test]
fn fragments_are_fixed_markup() {
    assert_eq!(
        Fragment::On.markup(),
        "<div class='container' style='background-color:#F5DEB3;'><img alt='Lightbulb on' src='/bulbon'/></div>"
    );
    assert_eq!(
        Fragment::Off.markup(),
        "<div class='container' style='background-color:black;'><img alt='Lightbulb off' src='/bulboff'/></div>"
    );
    assert_eq!(STATUS_OK, 200);
}

#[test]
fn flip_is_opposite_of_read_state() {
    assert_eq!(Action::flip(&state("on")), Action::TurnOff);
    assert_eq!(Action::flip(&state("off")), Action::TurnOn);
    assert_eq!(Action::flip(&state("unavailable")), Action::TurnOn);
    assert_eq!(Action::TurnOn.service(), "turn_on");
    assert_eq!(Action::TurnOff.service(), "turn_off");
    assert_eq!(Action::TurnOn.target(), Fragment::On);
    assert_eq!(Action::TurnOff.target(), Fragment::Off);
}

#[test]
fn toggle_passes_backend_status_through() {
    let r = toggle_reply(Action::TurnOn, 503);
    assert_eq!(r, Reply { status: 503, fragment: Fragment::On });
    let r = expect_reply(after_mutation(Action::TurnOff, Ok(503)));
    assert_eq!(r, Reply { status: 503, fragment: Fragment::Off });
    let r = expect_reply(after_mutation(Action::TurnOn, Ok(404)));
    assert_eq!(r, Reply { status: 404, fragment: Fragment::On });
}

#[test]
fn begin_reads_configured_light() {
    match begin(&config()) {
        Step::Fetch { url } => assert_eq!(url, "http://192.168.1.108:8123/api/states/light.desk"),
        _ => panic!("expected a state read"),
    }
}

#[test]
fn read_operation_renders_state() {
    let c = config();
    let r = expect_reply(after_read(&c, Operation::Read, Ok(state("on"))));
    assert_eq!(r, Reply { status: 200, fragment: Fragment::On });
    let r = expect_reply(after_read(&c, Operation::Read, Ok(state("unavailable"))));
    assert_eq!(r, Reply { status: 200, fragment: Fragment::Off });
}

#[test]
fn toggle_from_off_turns_on() {
    let c = config();
    let (url, entity_id, action) =
        expect_mutation(after_read(&c, Operation::Toggle, Ok(state("off"))));
    assert_eq!(url, "http://192.168.1.108:8123/api/services/light/turn_on");
    assert_eq!(entity_id, "light.desk");
    assert_eq!(action, Action::TurnOn);
    let r = expect_reply(after_mutation(action, Ok(200)));
    assert_eq!(r, Reply { status: 200, fragment: Fragment::On });
    assert_eq!(r.fragment.markup(), BULB_ON_DIV);
}

#[test]
fn toggle_from_on_turns_off() {
    let c = config();
    let (url, entity_id, action) =
        expect_mutation(after_read(&c, Operation::Toggle, Ok(state("on"))));
    assert_eq!(url, "http://192.168.1.108:8123/api/services/light/turn_off");
    assert_eq!(entity_id, "light.desk");
    assert_eq!(action, Action::TurnOff);
    let r = expect_reply(after_mutation(action, Ok(200)));
    assert_eq!(r, Reply { status: 200, fragment: Fragment::Off });
    assert_eq!(r.fragment.markup(), BULB_OFF_DIV);
}

#[test]
fn two_toggles_restore_fragment() {
    let c = config();
    for initial in ["on", "off", "unavailable"] {
        let shown = render_state(&state(initial)).fragment;
        let (_, _, first) = expect_mutation(after_read(&c, Operation::Toggle, Ok(state(initial))));
        let after_first = expect_reply(after_mutation(first, Ok(200))).fragment;
        assert_ne!(after_first, shown);
        let (_, _, second) = expect_mutation(after_read(&c, Operation::Toggle, Ok(apply(first))));
        let after_second = expect_reply(after_mutation(second, Ok(200))).fragment;
        assert_eq!(after_second, shown);
    }
}

#[test]
fn failed_read_aborts_request() {
    let c = config();
    for op in [Operation::Read, Operation::Toggle] {
        match after_read(&c, op, Err(Failure::Transport)) {
            Step::Abort(f) => assert_eq!(f, Failure::Transport),
            _ => panic!("expected an abort"),
        }
        match after_read(&c, op, Err(Failure::Decode)) {
            Step::Abort(f) => assert_eq!(f, Failure::Decode),
            _ => panic!("expected an abort"),
        }
    }
}

#[test]
fn failed_mutation_call_aborts_request() {
    match after_mutation(Action::TurnOn, Err(Failure::Transport)) {
        Step::Abort(f) => assert_eq!(f, Failure::Transport),
        _ => panic!("expected an abort"),
    }
}

#[test]
fn missing_credential_is_fatal() {
    let r = Config::new(None, Some(String::from("light.desk")), String::from(BASE));
    match r {
        Err(e) => {
            assert_eq!(e, ConfigError::MissingCredential);
            assert_eq!(e.message(), "YAGAMI_TOKEN should be set");
        }
        Ok(_) => panic!("a missing credential must be refused"),
    }
    assert!(matches!(
        Config::new(None, None, String::from(BASE)),
        Err(ConfigError::MissingCredential)
    ));
}

#[test]
fn credential_outside_header_alphabet_is_fatal() {
    for bad in ["line\nbreak", "nul\u{0}", "del\u{7f}"] {
        let r = Config::new(Some(String::from(bad)), Some(String::from("light.desk")), String::from(BASE));
        assert!(matches!(r, Err(ConfigError::InvalidCredential)));
    }
    assert_eq!(ConfigError::InvalidCredential.message(), "This should be a valid string");
    let r = Config::new(Some(String::from("tab\tand caf\u{e9}")), Some(String::from("light.desk")), String::from(BASE));
    assert!(r.is_ok());
}

#[test]
fn missing_entity_is_fatal() {
    let r = Config::new(Some(String::from("secret-token")), None, String::from(BASE));
    assert!(matches!(r, Err(ConfigError::MissingEntity)));
    assert_eq!(ConfigError::MissingEntity.message(), "LIGHT_ID should be set");
}

#[test]
fn configuration_carries_bearer_header() {
    let c = config();
    assert_eq!(c.base_url(), BASE);
    assert_eq!(c.entity_id(), "light.desk");
    let h = c.authorization().value();
    assert_eq!(h.to_str().unwrap(), "Bearer secret-token");
    assert!(h.is_sensitive());
    let c = Config::new(Some(String::from("abc123")), Some(String::from("light.desk")), String::from(BASE))
        .expect("a valid configuration");
    let h = c.authorization().value();
    assert_eq!(h.to_str().unwrap(), "Bearer abc123");
    assert!(h.is_sensitive());
    assert_eq!(format!("{:?}", h), "Sensitive");
}
