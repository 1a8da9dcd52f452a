use sozu_core::network::RequiredEvents;

fn facets(state: &RequiredEvents) -> (bool, bool, bool, bool) {
    (state.front_readable(), state.front_writable(), state.back_readable(), state.back_writable())
}

#[test]
fn front_read_back_read_write() {
    let state = RequiredEvents::FrontReadBackReadWrite;
    assert!(state.front_readable());
    assert!(!state.front_writable());
    assert!(state.back_readable());
    assert!(state.back_writable());
}

#[test]
fn truth_table_of_all_states() {
    let table = [
        (RequiredEvents::FrontNoneBackNone, (false, false, false, false)),
        (RequiredEvents::FrontReadBackNone, (true, false, false, false)),
        (RequiredEvents::FrontWriteBackNone, (false, true, false, false)),
        (RequiredEvents::FrontReadWriteBackNone, (true, true, false, false)),
        (RequiredEvents::FrontNoneBackRead, (false, false, true, false)),
        (RequiredEvents::FrontReadBackRead, (true, false, true, false)),
        (RequiredEvents::FrontWriteBackRead, (false, true, true, false)),
        (RequiredEvents::FrontReadWriteBackRead, (true, true, true, false)),
        (RequiredEvents::FrontNoneBackWrite, (false, false, false, true)),
        (RequiredEvents::FrontReadBackWrite, (true, false, false, true)),
        (RequiredEvents::FrontWriteBackWrite, (false, true, false, true)),
        (RequiredEvents::FrontReadWriteBackWrite, (true, true, false, true)),
        (RequiredEvents::FrontNoneBackReadWrite, (false, false, true, true)),
        (RequiredEvents::FrontReadBackReadWrite, (true, false, true, true)),
        (RequiredEvents::FrontWriteBackReadWrite, (false, true, true, true)),
        (RequiredEvents::FrontReadWriteBackReadWrite, (true, true, true, true)),
    ];
    for (state, expected) in table.iter() {
        assert_eq!(facets(state), *expected, "{:?}", state);
    }
}

#[test]
fn states_differ_in_their_facets() {
    let all = [
        RequiredEvents::FrontNoneBackNone,
        RequiredEvents::FrontReadBackNone,
        RequiredEvents::FrontWriteBackNone,
        RequiredEvents::FrontReadWriteBackNone,
        RequiredEvents::FrontNoneBackRead,
        RequiredEvents::FrontReadBackRead,
        RequiredEvents::FrontWriteBackRead,
        RequiredEvents::FrontReadWriteBackRead,
        RequiredEvents::FrontNoneBackWrite,
        RequiredEvents::FrontReadBackWrite,
        RequiredEvents::FrontWriteBackWrite,
        RequiredEvents::FrontReadWriteBackWrite,
        RequiredEvents::FrontNoneBackReadWrite,
        RequiredEvents::FrontReadBackReadWrite,
        RequiredEvents::FrontWriteBackReadWrite,
        RequiredEvents::FrontReadWriteBackReadWrite,
    ];
    for (i, a) in all.iter().enumerate() {
        for (j, b) in all.iter().enumerate() {
            assert_eq!(facets(a) == facets(b), i == j);
        }
    }
}
