use mock_systemd::address::{address_from_lowercase, normalize, UNIT_PATH_PREFIX};
use mock_systemd::error::UnitError;
use mock_systemd::registry::{UnitRegistry, JOB_PATH};
use mock_systemd::unit::ActiveState;

fn is_invalid(r: &Result<String, UnitError>) -> bool {
    matches!(r, Err(UnitError::InvalidAddress(_)))
}

#[test]
fn add_start_and_conflict_scenario() {
    let mut reg = UnitRegistry::new();
    let addr = reg.add_unit("foo.service").unwrap();
    assert!(addr.ends_with("/unit/foo_service"));
    assert_eq!(addr, "/org/freedesktop/systemd1/unit/foo_service");
    assert_eq!(reg.start_unit("FOO.SERVICE", "replace"), Ok(JOB_PATH.to_string()));
    assert_eq!(reg.active_state("foo.service"), Ok("active".to_string()));
    assert_eq!(reg.add_unit("foo.service"), Err(UnitError::UnitAlreadyExists));
}

#[test]
fn colliding_names_conflict() {
    let mut reg = UnitRegistry::new();
    assert!(reg.add_unit("Foo.Service").is_ok());
    assert_eq!(reg.add_unit("foo.service"), Err(UnitError::UnitAlreadyExists));
    assert_eq!(reg.add_unit("foo_service"), Err(UnitError::UnitAlreadyExists));
    assert_eq!(reg.add_unit("FOO_SERVICE"), Err(UnitError::UnitAlreadyExists));
}

#[test]
fn add_then_get_gives_same_address() {
    let mut reg = UnitRegistry::new();
    let added = reg.add_unit("bar.socket").unwrap();
    assert_eq!(reg.get_unit("bar.socket"), Ok(added.clone()));
    assert_eq!(reg.get_unit("BAR.socket"), Ok(added));
}

#[test]
fn remove_then_get_not_found() {
    let mut reg = UnitRegistry::new();
    reg.add_unit("bar.socket").unwrap();
    assert_eq!(reg.remove_unit("bar.socket"), Ok(true));
    assert_eq!(reg.get_unit("bar.socket"), Err(UnitError::UnitNotFound));
    assert_eq!(reg.active_state("bar.socket"), Err(UnitError::UnitNotFound));
}

#[test]
fn remove_never_added_is_false() {
    let mut reg = UnitRegistry::new();
    assert_eq!(reg.remove_unit("nothing.service"), Ok(false));
    reg.add_unit("other.service").unwrap();
    assert_eq!(reg.remove_unit("nothing.service"), Ok(false));
    assert_eq!(reg.get_unit("other.service").is_ok(), true);
}

#[test]
fn start_stop_restart_assign_state() {
    let mut reg = UnitRegistry::new();
    reg.add_unit("a.service").unwrap();
    assert_eq!(reg.active_state("a.service"), Ok("inactive".to_string()));
    for _ in 0..2 {
        assert_eq!(reg.start_unit("a.service", "replace"), Ok(JOB_PATH.to_string()));
        assert_eq!(reg.active_state("a.service"), Ok("active".to_string()));
    }
    for _ in 0..2 {
        assert_eq!(reg.stop_unit("a.service", "fail"), Ok(JOB_PATH.to_string()));
        assert_eq!(reg.active_state("a.service"), Ok("inactive".to_string()));
    }
    for _ in 0..2 {
        assert_eq!(reg.restart_unit("a.service", "isolate"), Ok(JOB_PATH.to_string()));
        assert_eq!(reg.active_state("a.service"), Ok("active".to_string()));
    }
}

#[test]
fn operations_on_missing_unit_fail() {
    let mut reg = UnitRegistry::new();
    assert_eq!(reg.get_unit("x.service"), Err(UnitError::UnitNotFound));
    assert_eq!(reg.start_unit("x.service", "replace"), Err(UnitError::UnitNotFound));
    assert_eq!(reg.stop_unit("x.service", "replace"), Err(UnitError::UnitNotFound));
    assert_eq!(reg.restart_unit("x.service", "replace"), Err(UnitError::UnitNotFound));
}

#[test]
fn start_then_remove() {
    let mut reg = UnitRegistry::new();
    reg.add_unit("race.service").unwrap();
    assert_eq!(reg.start_unit("race.service", "replace"), Ok(JOB_PATH.to_string()));
    assert_eq!(reg.remove_unit("race.service"), Ok(true));
    assert_eq!(reg.get_unit("race.service"), Err(UnitError::UnitNotFound));
}

#[test]
fn remove_then_start() {
    let mut reg = UnitRegistry::new();
    reg.add_unit("race.service").unwrap();
    assert_eq!(reg.remove_unit("race.service"), Ok(true));
    assert_eq!(reg.start_unit("race.service", "replace"), Err(UnitError::UnitNotFound));
    assert_eq!(reg.get_unit("race.service"), Err(UnitError::UnitNotFound));
}

#[test]
fn invalid_names_are_rejected() {
    let mut reg = UnitRegistry::new();
    assert!(is_invalid(&reg.add_unit("foo-bar.service")));
    assert!(is_invalid(&reg.add_unit("")));
    assert!(is_invalid(&reg.add_unit("a/b")));
    assert!(is_invalid(&reg.add_unit("caf\u{e9}.service")));
    assert!(is_invalid(&reg.get_unit("foo-bar.service")));
    assert!(is_invalid(&reg.start_unit("x y", "replace")));
    assert!(matches!(reg.remove_unit("foo-bar.service"), Err(UnitError::InvalidAddress(_))));
    assert!(is_invalid(&reg.active_state("foo-bar.service")));
}

#[test]
fn normalize_lowercases_and_replaces_dots() {
    assert_eq!(
        normalize("My.Unit.Service"),
        Ok(format!("{}my_unit_service", UNIT_PATH_PREFIX))
    );
    assert_eq!(normalize("ABC"), Ok(format!("{}abc", UNIT_PATH_PREFIX)));
    assert_eq!(normalize("x..y"), Ok(format!("{}x__y", UNIT_PATH_PREFIX)));
    assert!(matches!(normalize("a//b"), Err(UnitError::InvalidAddress(_))));
}

#[test]
fn address_from_lowercase_keeps_case() {
    assert_eq!(
        address_from_lowercase("Foo.bar"),
        Ok("/org/freedesktop/systemd1/unit/Foo_bar".to_string())
    );
    assert!(matches!(address_from_lowercase("a-b"), Err(UnitError::InvalidAddress(_))));
    assert!(matches!(address_from_lowercase(""), Err(UnitError::InvalidAddress(_))));
    assert!(matches!(address_from_lowercase("a/b"), Err(UnitError::InvalidAddress(_))));
    assert!(matches!(address_from_lowercase("a//b"), Err(UnitError::InvalidAddress(_))));
}

#[test]
fn unit_at_reads_the_unit() {
    let mut reg = UnitRegistry::new();
    let addr = reg.add_unit("Web.Service").unwrap();
    let unit = reg.unit_at(&addr).unwrap();
    assert_eq!(unit.name, "Web.Service");
    assert_eq!(unit.address, addr);
    assert_eq!(unit.state, ActiveState::Inactive);
    assert_eq!(unit.active_state(), "inactive");
    assert!(unit.part_of().is_empty());
    assert!(reg.unit_at(&"/org/freedesktop/systemd1/unit/none".to_string()).is_none());
}

#[test]
fn active_state_names() {
    assert_eq!(ActiveState::Active.to_string(), "active");
    assert_eq!(ActiveState::Reloading.to_string(), "reloading");
    assert_eq!(ActiveState::Inactive.to_string(), "inactive");
    assert_eq!(ActiveState::Failed.to_string(), "failed");
    assert_eq!(ActiveState::Activating.to_string(), "activating");
    assert_eq!(ActiveState::Deactivating.to_string(), "deactivating");
}
