use quibble::client_cell::{
    cell_step, config_from_credential, CellAction, CellEvent, CellState, ClientConfig, ConfigError,
};

fn config(key: &str) -> ClientConfig {
    ClientConfig {
        api_key: key.to_string(),
    }
}

#[test]
fn credential_present_yields_config() {
    let c = config_from_credential(Some("some-key".to_string())).unwrap();
    assert_eq!(c.api_key, "some-key");
}

#[test]
fn credential_absent_is_an_error() {
    match config_from_credential(None) {
        Err(e) => assert_eq!(e, ConfigError::MissingCredential),
        Ok(_) => panic!("no credential must not yield a configuration"),
    }
}

#[test]
fn n_concurrent_callers_construct_once() {
    // Eight callers arrive before the client exists; the runs of their
    // arrivals interleave into one event sequence. Exactly one caller is
    // told to construct the client, the rest wait.
    let mut state = CellState::Empty;
    let mut constructions = 0;
    let mut waits = 0;
    for _ in 0..8 {
        let (next, action) = cell_step(state, CellEvent::FirstUse);
        state = next;
        match action {
            CellAction::StartConstruction => constructions += 1,
            CellAction::WaitForReady => waits += 1,
            _ => panic!("before the cell is ready, a caller starts or waits"),
        }
    }
    assert_eq!(constructions, 1);
    assert_eq!(waits, 7);

    // The one construction completes; every later caller shares the client.
    let (next, action) = cell_step(state, CellEvent::Constructed(config("k")));
    state = next;
    assert_eq!(action, CellAction::Installed);
    for _ in 0..8 {
        let (next, action) = cell_step(state, CellEvent::FirstUse);
        state = next;
        assert_eq!(action, CellAction::UseClient);
    }
    match state {
        CellState::Ready(c) => assert_eq!(c.api_key, "k"),
        _ => panic!("the cell stays ready"),
    }
}

#[test]
fn ready_cell_keeps_first_configuration() {
    let (state, action) = cell_step(
        CellState::Ready(config("first")),
        CellEvent::Constructed(config("second")),
    );
    assert_eq!(action, CellAction::Discarded);
    match state {
        CellState::Ready(c) => assert_eq!(c.api_key, "first"),
        _ => panic!("the cell stays ready"),
    }
}
