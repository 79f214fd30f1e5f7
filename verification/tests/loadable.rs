use stremio_core::loadable::Loadable;

#[test]
fn loadable_defaults_to_loading() {
    let state: Loadable<u8, String> = Loadable::default();
    assert_eq!(state, Loadable::Loading);
    assert!(state.is_loading());
    assert!(!state.is_ready());
    assert!(!state.is_err());
    assert_eq!(state.ready(), None);
    assert_eq!(state.err(), None);
    state.expect_loading("still loading");
}

#[test]
fn loadable_map_changes_the_ready_value_alone() {
    let ready: Loadable<u8, String> = Loadable::Ready(20);
    assert_eq!(ready.clone().map(|x| u32::from(x) * 2), Loadable::Ready(40));
    assert_eq!(
        ready.clone().map_ready(|x| x.to_string()),
        Loadable::Ready("20".to_string())
    );
    let failed: Loadable<u8, String> = Loadable::Error("no".to_string());
    assert_eq!(
        failed.clone().map(|x| u32::from(x) * 2),
        Loadable::Error("no".to_string())
    );
    assert_eq!(
        failed.map_ready(|x| u32::from(x) * 2),
        Loadable::Error("no".to_string())
    );
    let loading: Loadable<u8, String> = Loadable::Loading;
    assert_eq!(loading.clone().map(|x| x + 1), Loadable::Loading);
    assert_eq!(loading.map_ready(|x| x + 1), Loadable::Loading);
}

#[test]
fn loadable_tells_its_state() {
    let ready: Loadable<u8, String> = Loadable::Ready(1);
    assert!(ready.is_ready());
    assert!(!ready.is_err());
    assert!(!ready.is_loading());
    assert_eq!(ready.ready(), Some(&1));
    assert_eq!(ready.err(), None);
    assert_eq!(ready.as_ref(), Loadable::Ready(&1));
    assert_eq!(ready.expect("ready"), 1);

    let failed: Loadable<u8, String> = Loadable::Error("no".to_string());
    assert!(failed.is_err());
    assert!(!failed.is_ready());
    assert!(!failed.is_loading());
    assert_eq!(failed.ready(), None);
    assert_eq!(failed.err(), Some(&"no".to_string()));
    assert_eq!(failed.as_ref(), Loadable::Error(&"no".to_string()));
    assert_eq!(failed.expect_err("failed"), "no".to_string());

    let loading: Loadable<u8, String> = Loadable::Loading;
    assert_eq!(loading.as_ref(), Loadable::Loading);
}

#[test]
fn loadable_from_result() {
    let ok: Result<u8, String> = Ok(3);
    assert_eq!(Loadable::from(ok), Loadable::Ready(3));
    let err: Result<u8, String> = Err("no".to_string());
    assert_eq!(Loadable::from(err), Loadable::Error("no".to_string()));
}
