use baranki::middleware::logging::{logging_middleware, ApiError, Body, Level};
use baranki::routes::cart_routes::{add_product, add_product_reply, ADD_TO_ENTRY, NEW_ENTRY};
use baranki::routes::category_routes::{create_category, create_category_reply, delete_category};
use baranki::routes::{find_and_write_plan, read_only_plan};
use baranki::transaction::{advance, start, Action, Event, Guard, Phase, Plan, Step, Verdict};

/// A table with a unique key, in which a write is seen only once its
/// transaction commits.
#[derive(Debug, Default)]
struct Table {
    rows: Vec<String>,
    staged: Option<Vec<String>>,
    refuse_begin: bool,
    fail_reads: bool,
    fail_writes: bool,
    fail_commit: bool,
    begun: usize,
    commits: usize,
    rollbacks: usize,
    actions: Vec<String>,
}

impl Table {
    fn answer(&mut self, action: &Action, key: &str) -> Event {
        self.actions.push(format!("{:?}", action));
        match action {
            Action::Begin => {
                if self.refuse_begin {
                    Event::BeginFailed
                } else {
                    assert!(self.staged.is_none());
                    self.staged = Some(self.rows.clone());
                    self.begun += 1;
                    Event::Begun
                }
            }
            Action::Read(_) => {
                if self.fail_reads {
                    Event::Failed("read failed".to_string())
                } else if self.staged.as_ref().unwrap().iter().any(|row| row == key) {
                    Event::Found
                } else {
                    Event::Missing
                }
            }
            Action::Write(_) => {
                let staged = self.staged.as_mut().unwrap();
                if self.fail_writes {
                    Event::Failed("disk full".to_string())
                } else if staged.iter().any(|row| row == key) {
                    Event::Conflict(format!("duplicate key {}", key))
                } else {
                    staged.push(key.to_string());
                    Event::Done
                }
            }
            Action::Commit => {
                let staged = self.staged.take().unwrap();
                if self.fail_commit {
                    self.rollbacks += 1;
                    Event::CommitFailed("commit failed".to_string())
                } else {
                    self.rows = staged;
                    self.commits += 1;
                    Event::Committed
                }
            }
            Action::Rollback => {
                if self.staged.take().is_some() {
                    self.rollbacks += 1;
                }
                Event::RolledBack
            }
            Action::Respond(_) => unreachable!(),
        }
    }
}

fn serve(plan: &Plan, table: &mut Table, key: &str) -> Verdict {
    let (mut state, mut action) = start(plan);
    let mut answers = 0;
    loop {
        if let Action::Respond(verdict) = action {
            assert_eq!(state.phase, Phase::Finished);
            assert!(table.staged.is_none());
            assert!(answers <= plan.steps.len() + 2);
            return verdict;
        }
        let event = table.answer(&action, key);
        answers += 1;
        let next = advance(plan, state, event);
        state = next.0;
        action = next.1;
    }
}

fn insert_only() -> Plan {
    create_category("Round", None)
}

#[test]
fn insert_commits_once() {
    let mut table = Table::default();
    let verdict = serve(&insert_only(), &mut table, "round");
    assert!(matches!(verdict, Verdict::Done { wrote: Some(0) }));
    assert_eq!(table.rows, vec!["round".to_string()]);
    assert_eq!((table.begun, table.commits, table.rollbacks), (1, 1, 0));
    assert_eq!(table.actions, vec!["Begin", "Write(0)", "Commit"]);
}

#[test]
fn second_insert_of_a_key_conflicts_and_is_rolled_back() {
    let mut table = Table::default();
    let first = serve(&insert_only(), &mut table, "round");
    assert!(matches!(first, Verdict::Done { wrote: Some(0) }));
    let second = serve(&insert_only(), &mut table, "round");
    match &second {
        Verdict::Conflict { step, detail } => {
            assert_eq!(*step, 0);
            assert_eq!(detail, "duplicate key round");
        }
        other => panic!("{:?}", other),
    }
    assert_eq!(table.rows.len(), 1);
    assert_eq!((table.begun, table.commits, table.rollbacks), (2, 1, 1));
    assert_eq!(table.actions[3..], ["Begin", "Write(0)", "Rollback"]);
    let reply = create_category_reply(second, None);
    assert_eq!(reply.status, 409);
    assert!(matches!(&reply.body, Body::Error(text) if text == "Category already exists"));
    assert!(matches!(&reply.extension, Some(Err(ApiError::Conflict(detail))) if detail == "duplicate key round"));
    let record = logging_middleware("POST", "/api/admin/category", 3, &reply);
    assert_eq!(record.level, Level::Error);
    assert_eq!(record.value.as_deref(), Some("Conflict: duplicate key round"));
}

#[test]
fn failed_write_leaves_the_store_as_it_was() {
    let mut table = Table { rows: vec!["square".to_string()], fail_writes: true, ..Table::default() };
    let verdict = serve(&insert_only(), &mut table, "round");
    assert!(matches!(&verdict, Verdict::Failed { step: 0, detail } if detail == "disk full"));
    assert_eq!(table.rows, vec!["square".to_string()]);
    assert_eq!((table.begun, table.commits, table.rollbacks), (1, 0, 1));
    assert_eq!(table.actions, vec!["Begin", "Write(0)", "Rollback"]);
    let reply = create_category_reply(verdict, None);
    assert_eq!(reply.status, 500);
    assert!(matches!(&reply.extension, Some(Err(ApiError::DbError(detail))) if detail == "disk full"));
}

#[test]
fn failed_write_after_passed_checks_leaves_the_store_as_it_was() {
    let mut table = Table { rows: vec!["7".to_string()], fail_writes: true, ..Table::default() };
    let plan = create_category("Round", Some(7));
    let verdict = serve(&plan, &mut table, "7");
    assert!(matches!(&verdict, Verdict::Failed { step: 1, .. }));
    assert_eq!(table.rows, vec!["7".to_string()]);
    assert_eq!(table.actions, vec!["Begin", "Read(0)", "Write(1)", "Rollback"]);
    assert_eq!((table.begun, table.commits, table.rollbacks), (1, 0, 1));
}

#[test]
fn failed_commit_applies_nothing() {
    let mut table = Table { fail_commit: true, ..Table::default() };
    let verdict = serve(&insert_only(), &mut table, "round");
    assert!(matches!(&verdict, Verdict::CommitFailed { detail } if detail == "commit failed"));
    assert!(table.rows.is_empty());
    assert_eq!(table.actions, vec!["Begin", "Write(0)", "Commit"]);
    let reply = create_category_reply(verdict, None);
    assert_eq!(reply.status, 500);
    assert!(matches!(&reply.extension, Some(Err(ApiError::DbError(detail))) if detail == "commit failed"));
}

#[test]
fn refused_begin_ends_the_request_with_nothing_to_roll_back() {
    let mut table = Table { refuse_begin: true, ..Table::default() };
    let verdict = serve(&insert_only(), &mut table, "round");
    assert!(matches!(verdict, Verdict::SetupFailed));
    assert_eq!(table.actions, vec!["Begin"]);
    assert_eq!((table.begun, table.commits, table.rollbacks), (0, 0, 0));
    let reply = create_category_reply(verdict, None);
    assert_eq!(reply.status, 500);
    assert!(matches!(&reply.body, Body::Error(text) if text == "Internal server error"));
    assert!(matches!(reply.extension, Some(Err(ApiError::TransactionCreationFailed))));
}

#[test]
fn inadmissible_request_opens_no_transaction() {
    let mut table = Table::default();
    let plan = create_category("ab", None);
    assert!(!plan.admitted);
    let verdict = serve(&plan, &mut table, "ab");
    assert!(matches!(verdict, Verdict::Refused));
    assert!(table.actions.is_empty());
    let reply = create_category_reply(verdict, None);
    assert_eq!(reply.status, 400);
    assert!(matches!(&reply.extension, Some(Err(ApiError::ValidationFail(detail))) if detail == "Invalid category name"));
}

#[test]
fn missing_row_is_rolled_back_before_the_reply() {
    let mut table = Table::default();
    let verdict = serve(&delete_category(), &mut table, "round");
    assert!(matches!(verdict, Verdict::Missing { step: 0 }));
    assert_eq!(table.actions, vec!["Begin", "Read(0)", "Rollback"]);
    assert_eq!((table.begun, table.commits, table.rollbacks), (1, 0, 1));
}

#[test]
fn failed_read_is_rolled_back_before_the_reply() {
    let mut table = Table { fail_reads: true, ..Table::default() };
    let verdict = serve(&find_and_write_plan(), &mut table, "round");
    assert!(matches!(&verdict, Verdict::Failed { step: 0, detail } if detail == "read failed"));
    assert_eq!(table.actions, vec!["Begin", "Read(0)", "Rollback"]);
}

#[test]
fn read_only_request_closes_its_transaction_without_a_commit() {
    let mut table = Table { rows: vec!["round".to_string()], ..Table::default() };
    let verdict = serve(&read_only_plan(true), &mut table, "round");
    assert!(matches!(verdict, Verdict::Done { wrote: None }));
    assert_eq!(table.actions, vec!["Begin", "Read(0)", "Rollback"]);
    assert_eq!((table.begun, table.commits, table.rollbacks), (1, 0, 1));
    assert_eq!(table.rows.len(), 1);
}

#[test]
fn listing_goes_on_without_a_row() {
    let mut table = Table::default();
    let verdict = serve(&read_only_plan(false), &mut table, "round");
    assert!(matches!(verdict, Verdict::Done { wrote: None }));
}

#[test]
fn product_is_added_to_the_entry_that_the_cart_has() {
    let mut table = Table { rows: vec!["tea".to_string()], ..Table::default() };
    let plan = add_product(2);
    let (state, action) = start(&plan);
    assert!(matches!(action, Action::Begin));
    let (state, action) = advance(&plan, state, Event::Begun);
    assert!(matches!(action, Action::Read(0)));
    let (state, action) = advance(&plan, state, Event::Found);
    assert!(matches!(action, Action::Read(2)));
    let (state, action) = advance(&plan, state, Event::Found);
    assert!(matches!(action, Action::Write(ADD_TO_ENTRY)));
    let (state, action) = advance(&plan, state, Event::Done);
    assert!(matches!(action, Action::Commit));
    let (state, action) = advance(&plan, state, Event::Committed);
    assert_eq!(state.phase, Phase::Finished);
    match action {
        Action::Respond(verdict) => {
            assert!(matches!(verdict, Verdict::Done { wrote: Some(ADD_TO_ENTRY) }));
            let reply = add_product_reply(verdict, 4);
            assert_eq!(reply.status, 200);
            assert!(matches!(&reply.body, Body::Message(text) if text == "Resource patched successfully"));
        }
        other => panic!("{:?}", other),
    }
    assert_eq!(table.rows.len(), 1);
    table.rows.clear();
}

#[test]
fn product_is_added_as_a_new_entry_where_the_cart_has_none() {
    let plan = add_product(2);
    let (state, _) = start(&plan);
    let (state, _) = advance(&plan, state, Event::Begun);
    let (state, _) = advance(&plan, state, Event::Found);
    let (state, action) = advance(&plan, state, Event::Missing);
    assert!(matches!(action, Action::Write(NEW_ENTRY)));
    let (state, action) = advance(&plan, state, Event::Done);
    assert!(matches!(action, Action::Commit));
    let (_, action) = advance(&plan, state, Event::Committed);
    match action {
        Action::Respond(verdict) => {
            assert!(matches!(verdict, Verdict::Done { wrote: Some(NEW_ENTRY) }));
            let reply = add_product_reply(verdict, 4);
            assert_eq!(reply.status, 201);
            assert!(matches!(&reply.body, Body::Message(text) if text == "Added successfully"));
        }
        other => panic!("{:?}", other),
    }
}

#[test]
fn failed_lookup_of_the_entry_ends_the_request() {
    let plan = add_product(1);
    let (state, _) = start(&plan);
    let (state, _) = advance(&plan, state, Event::Begun);
    let (state, _) = advance(&plan, state, Event::Found);
    let (state, action) = advance(&plan, state, Event::Failed("timeout".to_string()));
    assert!(matches!(action, Action::Rollback));
    let (_, action) = advance(&plan, state, Event::RolledBack);
    match action {
        Action::Respond(verdict) => {
            assert!(matches!(&verdict, Verdict::Failed { step: 2, detail } if detail == "timeout"));
            let reply = add_product_reply(verdict, 4);
            assert_eq!(reply.status, 500);
            assert!(matches!(&reply.extension, Some(Err(ApiError::DbError(detail))) if detail == "timeout"));
        }
        other => panic!("{:?}", other),
    }
}

#[test]
fn quantity_that_cannot_be_counted_is_declined_and_rolled_back() {
    let plan = add_product(1);
    let (state, _) = start(&plan);
    let (state, _) = advance(&plan, state, Event::Begun);
    let (state, _) = advance(&plan, state, Event::Found);
    let (state, action) = advance(&plan, state, Event::Found);
    assert!(matches!(action, Action::Write(ADD_TO_ENTRY)));
    let declined = baranki::routes::cart_routes::add_to_entry(u32::MAX, 1).unwrap_err();
    let (state, action) = advance(&plan, state, declined);
    assert!(matches!(action, Action::Rollback));
    assert!(state.in_transaction());
    let (state, action) = advance(&plan, state, Event::RolledBack);
    assert!(!state.in_transaction());
    match action {
        Action::Respond(verdict) => {
            assert!(matches!(verdict, Verdict::Declined { step: ADD_TO_ENTRY, .. }));
            let reply = add_product_reply(verdict, 4);
            assert_eq!(reply.status, 400);
            assert!(matches!(&reply.body, Body::Error(text) if text == "Quantity is too large"));
            assert!(matches!(
                &reply.extension,
                Some(Err(ApiError::ValidationFail(detail)))
                    if detail == "The quantity of the entry cannot be counted in 32 bits"
            ));
        }
        other => panic!("{:?}", other),
    }
}

#[test]
fn patch_that_names_an_image_the_store_does_not_hold_is_rolled_back() {
    let plan = baranki::routes::product_routes::patch_product(None, Some(7), None);
    let (state, _) = start(&plan);
    let (state, _) = advance(&plan, state, Event::Begun);
    let (state, action) = advance(&plan, state, Event::Found);
    assert!(matches!(action, Action::Read(2)));
    let (state, action) = advance(&plan, state, Event::Missing);
    assert!(matches!(action, Action::Rollback));
    let (_, action) = advance(&plan, state, Event::RolledBack);
    match action {
        Action::Respond(verdict) => {
            assert!(matches!(verdict, Verdict::Missing { step: 2 }));
            let reply = baranki::routes::product_routes::patch_product_reply(verdict, 1, Some(7), None);
            assert_eq!(reply.status, 400);
            assert!(matches!(&reply.extension, Some(Err(ApiError::ValidationFail(_)))));
        }
        other => panic!("{:?}", other),
    }
    let plan = baranki::routes::category_routes::patch_category(None, Some(7));
    let (state, _) = start(&plan);
    let (state, _) = advance(&plan, state, Event::Begun);
    let (state, _) = advance(&plan, state, Event::Found);
    let (state, action) = advance(&plan, state, Event::Missing);
    assert!(matches!(action, Action::Rollback));
    let (_, action) = advance(&plan, state, Event::RolledBack);
    assert!(matches!(action, Action::Respond(Verdict::Missing { step: 2 })));
}

#[test]
fn failed_listing_of_a_cart_is_a_failure() {
    let mut table = Table { fail_reads: true, ..Table::default() };
    let verdict = serve(&baranki::routes::cart_routes::get_cart(), &mut table, "x");
    assert!(matches!(&verdict, Verdict::Failed { step: 0, .. }));
    assert_eq!(table.actions, vec!["Begin", "Read(0)", "Rollback"]);
    let reply = baranki::routes::cart_routes::get_cart_reply(verdict);
    assert_eq!(reply.status, 500);
    assert!(matches!(&reply.extension, Some(Err(ApiError::DbError(detail))) if detail == "read failed"));
}

#[test]
fn nothing_is_added_without_a_quantity() {
    let plan = add_product(0);
    let (state, _) = start(&plan);
    let (state, _) = advance(&plan, state, Event::Begun);
    let (state, action) = advance(&plan, state, Event::Found);
    assert!(matches!(action, Action::Rollback));
    let (_, action) = advance(&plan, state, Event::RolledBack);
    match action {
        Action::Respond(verdict) => {
            assert!(matches!(verdict, Verdict::Rejected { step: 1 }));
            let reply = add_product_reply(verdict, 4);
            assert_eq!(reply.status, 400);
            assert!(matches!(&reply.extension, Some(Err(ApiError::General(text))) if text == "Quantity should be greater than 0"));
        }
        other => panic!("{:?}", other),
    }
}

#[test]
fn missing_product_comes_before_a_missing_quantity() {
    let plan = add_product(0);
    let (state, _) = start(&plan);
    let (state, _) = advance(&plan, state, Event::Begun);
    let (state, action) = advance(&plan, state, Event::Missing);
    assert!(matches!(action, Action::Rollback));
    let (_, action) = advance(&plan, state, Event::RolledBack);
    assert!(matches!(action, Action::Respond(Verdict::Missing { step: 0 })));
}

#[test]
fn answer_that_does_not_fit_is_misuse() {
    let plan = find_and_write_plan();
    let (state, _) = start(&plan);
    let (state, action) = advance(&plan, state, Event::Committed);
    assert!(matches!(action, Action::Rollback));
    let (state, action) = advance(&plan, state, Event::RolledBack);
    assert!(matches!(action, Action::Respond(Verdict::Misused)));
    let (state, action) = advance(&plan, state, Event::Begun);
    assert!(matches!(action, Action::Respond(Verdict::Misused)));
    assert_eq!(state.phase, Phase::Finished);

    let (state, _) = start(&plan);
    let (state, _) = advance(&plan, state, Event::Begun);
    let (state, action) = advance(&plan, state, Event::Conflict("x".to_string()));
    assert!(matches!(action, Action::Rollback));
    let (_, action) = advance(&plan, state, Event::RolledBack);
    assert!(matches!(action, Action::Respond(Verdict::Misused)));

    let (state, _) = start(&plan);
    let (state, _) = advance(&plan, state, Event::Begun);
    let (state, _) = advance(&plan, state, Event::Found);
    let (state, _) = advance(&plan, state, Event::Done);
    let (state, action) = advance(&plan, state, Event::Found);
    assert!(matches!(action, Action::Rollback));
    let (_, action) = advance(&plan, state, Event::RolledBack);
    assert!(matches!(action, Action::Respond(Verdict::Misused)));
}

#[test]
fn guards_choose_between_writes() {
    assert!(Guard::Always.holds(true) && Guard::Always.holds(false));
    assert!(Guard::IfFound.holds(true) && !Guard::IfFound.holds(false));
    assert!(!Guard::IfMissing.holds(true) && Guard::IfMissing.holds(false));
}

#[test]
fn plan_of_checks_alone_writes_nothing() {
    let plan = Plan { admitted: true, steps: vec![Step::Check { passed: true }, Step::Check { passed: true }] };
    let mut table = Table::default();
    let verdict = serve(&plan, &mut table, "x");
    assert!(matches!(verdict, Verdict::Done { wrote: None }));
    assert_eq!(table.actions, vec!["Begin", "Rollback"]);
    let empty = Plan { admitted: true, steps: Vec::new() };
    let mut table = Table::default();
    assert!(matches!(serve(&empty, &mut table, "x"), Verdict::Done { wrote: None }));
}

#[test]
fn two_writes_commit_together_or_not_at_all() {
    let plan = Plan {
        admitted: true,
        steps: vec![Step::Write { when: Guard::Always }, Step::Write { when: Guard::Always }],
    };
    let (state, _) = start(&plan);
    let (state, action) = advance(&plan, state, Event::Begun);
    assert!(matches!(action, Action::Write(0)));
    let (state, action) = advance(&plan, state, Event::Done);
    assert!(matches!(action, Action::Write(1)));
    let (state, action) = advance(&plan, state, Event::Failed("no space".to_string()));
    assert!(matches!(action, Action::Rollback));
    let (_, action) = advance(&plan, state, Event::RolledBack);
    assert!(matches!(action, Action::Respond(Verdict::Failed { step: 1, .. })));

    let (state, _) = start(&plan);
    let (state, _) = advance(&plan, state, Event::Begun);
    let (state, _) = advance(&plan, state, Event::Done);
    let (state, action) = advance(&plan, state, Event::Done);
    assert!(matches!(action, Action::Commit));
    let (_, action) = advance(&plan, state, Event::Committed);
    assert!(matches!(action, Action::Respond(Verdict::Done { wrote: Some(1) })));
}

#[test]
fn state_says_whether_a_transaction_is_held() {
    let plan = find_and_write_plan();
    let (state, _) = start(&plan);
    assert!(!state.in_transaction());
    let (state, _) = advance(&plan, state, Event::Begun);
    assert!(state.in_transaction());
    let (state, _) = advance(&plan, state, Event::Found);
    assert!(state.in_transaction());
    let (state, _) = advance(&plan, state, Event::Done);
    assert!(state.in_transaction());
    let (state, _) = advance(&plan, state, Event::Committed);
    assert!(!state.in_transaction());

    let (state, _) = start(&plan);
    let (state, _) = advance(&plan, state, Event::BeginFailed);
    assert!(!state.in_transaction());

    let (state, _) = start(&plan);
    let (state, _) = advance(&plan, state, Event::Begun);
    let (state, _) = advance(&plan, state, Event::Missing);
    assert!(state.in_transaction());
    let (state, _) = advance(&plan, state, Event::RolledBack);
    assert!(!state.in_transaction());

    let refused = Plan { admitted: false, steps: Vec::new() };
    assert!(!start(&refused).0.in_transaction());
}
