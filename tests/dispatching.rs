use pg_helper::{plan, Action, Directive, Flags, Outcome, Session, UsageError, EXIT_FAILURE, EXIT_SUCCESS};

fn flags(create: bool, drop: bool, migrate: bool, seed: bool) -> Flags {
    Flags { create, drop, migrate, seed }
}

#[test]
fn create_migrate_seed_run_in_order_with_confirmations() {
    let actions = plan(flags(true, false, true, true)).unwrap();
    assert_eq!(actions, vec![Action::Create, Action::Migrate, Action::Seed]);
    let mut session = Session::new(actions);
    let mut printed = Vec::new();
    while let Some(_action) = session.current() {
        match session.record(Outcome::Succeeded, "shop") {
            Directive::Confirm(m) => printed.push(m),
            Directive::Abort(m) => panic!("unexpected failure {}", m),
        }
    }
    assert_eq!(printed, vec!["Database shop created.", "Database shop migrated.", "Database shop seeded."]);
    assert_eq!(session.exit_code(), EXIT_SUCCESS);
}

#[test]
fn drop_alone_is_accepted_without_seed() {
    assert_eq!(plan(flags(false, true, false, false)), Ok(vec![Action::Drop]));
}

#[test]
fn create_without_seed_is_refused() {
    assert_eq!(plan(flags(true, false, false, false)), Err(UsageError::SeedRequired));
    assert_eq!(plan(flags(true, false, true, false)), Err(UsageError::SeedRequired));
    assert_eq!(plan(flags(false, false, true, false)), Err(UsageError::SeedRequired));
}

#[test]
fn no_flags_shows_usage() {
    assert_eq!(plan(flags(false, false, false, false)), Err(UsageError::NoAction));
}

#[test]
fn drop_conflicts() {
    assert_eq!(plan(flags(true, true, false, false)), Err(UsageError::Conflict(Action::Create)));
    assert_eq!(plan(flags(false, true, true, false)), Err(UsageError::Conflict(Action::Migrate)));
    assert_eq!(plan(flags(false, true, false, true)), Err(UsageError::Conflict(Action::Seed)));
    assert_eq!(plan(flags(true, true, true, true)), Err(UsageError::Conflict(Action::Create)));
}

#[test]
fn seed_alone_and_combinations() {
    assert_eq!(plan(flags(false, false, false, true)), Ok(vec![Action::Seed]));
    assert_eq!(plan(flags(true, false, false, true)), Ok(vec![Action::Create, Action::Seed]));
    assert_eq!(plan(flags(false, false, true, true)), Ok(vec![Action::Migrate, Action::Seed]));
}

#[test]
fn create_failure_is_reported_and_stops() {
    let mut session = Session::new(vec![Action::Create, Action::Migrate, Action::Seed]);
    assert_eq!(session.current(), Some(Action::Create));
    let err = "db error: ERROR: database \"shop\" already exists".to_string();
    let d = session.record(Outcome::Failed(err.clone()), "shop");
    assert_eq!(d, Directive::Abort(err));
    assert_eq!(session.current(), None);
    assert_eq!(session.exit_code(), EXIT_FAILURE);
}

#[test]
fn drop_success_is_confirmed() {
    let mut session = Session::new(vec![Action::Drop]);
    assert_eq!(session.record(Outcome::Succeeded, "shop"), Directive::Confirm("Database shop dropped.".to_string()));
    assert_eq!(session.current(), None);
    assert_eq!(session.exit_code(), EXIT_SUCCESS);
}

#[test]
fn exit_codes() {
    assert_eq!(EXIT_SUCCESS, 0);
    assert_eq!(EXIT_FAILURE, 1);
}
