use rjira::{
    add_item_uc, assign_item_uc, build_item, estimate_item_uc, AddItemCliCmd, AddItemCmd,
    AddItemRequest, AssignItemCliCmd, AssignItemCmd, Assignee, Backlog, BusinessLogicError,
    EstimateItemCliCmd, EstimateItemCmd, Entity, FindFromCollection, IncommingError, ItemKind,
    PortsError, ServiceError, StoryPoint, Title, UpdateAction, UpdateItemRequest, UseCaseError,
};

fn add_cmd(item_type: &str, title: &str, point: Option<u8>, assignee: Option<&str>) -> AddItemCliCmd {
    AddItemCliCmd {
        item_type: item_type.to_string(),
        title: title.to_string(),
        point,
        assignee: assignee.map(|a| a.to_string()),
    }
}

#[test]
fn test_get_backlog() {
    // The fetch use case is load-only: the snapshot comes back as loaded.
    let backlog = Backlog::new();
    let snapshot = backlog.clone();
    assert_eq!(snapshot.id(), backlog.id());
    assert_eq!(snapshot.items(), backlog.items());
}

#[test]
fn backlog_uc_test_add_item() {
    // One add command for a Story titled "T" with no point or assignee: the
    // snapshot to be saved holds exactly that one item.
    let mut backlog = Backlog::new();
    let cmd = add_cmd("Story", "T", None, None);
    let mut saves: Vec<Backlog> = Vec::new();

    add_item_uc(&mut backlog, &cmd).unwrap();
    saves.push(backlog.clone());

    assert_eq!(saves.len(), 1);
    let saved = &saves[0];
    assert_eq!(saved.len(), 1);
    let items = saved.items();
    assert_eq!(items[0].kind(), ItemKind::Story);
    assert_eq!(items[0].title(), &Title::new("T"));
    assert_eq!(items[0].point(), None);
    assert_eq!(items[0].assignee(), None);
}

#[test]
fn test_estimate_item() {
    let mut backlog = Backlog::new();
    let cmd = add_cmd("Task", "test", None, None);
    add_item_uc(&mut backlog, &cmd).unwrap();
    let item_id = backlog.items()[0].id();

    let mut saves: Vec<Backlog> = Vec::new();
    let estimate = EstimateItemCliCmd { id: item_id, point: 1 };
    assert!(estimate_item_uc(&mut backlog, &estimate).is_ok());
    saves.push(backlog.clone());

    assert_eq!(saves.len(), 1);
    let found = saves[0].find_by_id(item_id).unwrap();
    assert_eq!(found.point(), Some(StoryPoint::new(1).unwrap()));
}

#[test]
fn test_assign_item() {
    let mut backlog = Backlog::new();
    let cmd = add_cmd("Task", "test", None, None);
    add_item_uc(&mut backlog, &cmd).unwrap();
    let item_id = backlog.items()[0].id();

    let mut saves: Vec<Backlog> = Vec::new();
    let assign = AssignItemCliCmd { id: item_id, assignee: "dummy".to_string() };
    assert!(assign_item_uc(&mut backlog, &assign).is_ok());
    saves.push(backlog.clone());

    assert_eq!(saves.len(), 1);
    let found = saves[0].find_by_id(item_id).unwrap();
    assert_eq!(found.assignee(), Some(&Assignee::new("dummy")));
}

#[test]
fn test_estimate_item_with_point_three() {
    // A backlog holds item X with the point unset; the command {id: X,
    // point: 3} leaves find(X) with point Some(3).
    let mut backlog = Backlog::new();
    add_item_uc(&mut backlog, &add_cmd("Story", "X", None, None)).unwrap();
    let x = backlog.items()[0].id();
    assert_eq!(backlog.find_by_id(x).unwrap().point(), None);

    let cmd = EstimateItemCliCmd { id: x, point: 3 };
    estimate_item_uc(&mut backlog, &cmd).unwrap();
    assert_eq!(
        backlog.find_by_id(x).unwrap().point(),
        Some(StoryPoint::new(3).unwrap())
    );
}

#[test]
fn test_estimate_item_invalid_point_fails_before_mutation() {
    // A point off the scale is rejected while the command is evaluated,
    // before the aggregate is touched: the snapshot stays as loaded, so no
    // save would follow.
    let mut backlog = Backlog::new();
    add_item_uc(&mut backlog, &add_cmd("Story", "X", None, None)).unwrap();
    let x = backlog.items()[0].id();
    let before = backlog.items();

    let cmd = EstimateItemCliCmd { id: x, point: 4 };
    match estimate_item_uc(&mut backlog, &cmd) {
        Err(ServiceError::Incomming(IncommingError::InvalidValue { .. })) => {},
        _ => panic!("expected an input-validation failure"),
    }
    assert_eq!(backlog.items(), before);
}

#[test]
fn test_estimate_item_missing_id_is_business_failure() {
    let mut backlog = Backlog::new();
    let cmd = EstimateItemCliCmd { id: 42, point: 3 };
    match estimate_item_uc(&mut backlog, &cmd) {
        Err(ServiceError::BusinessLogic(BusinessLogicError::Backlog(e))) => {
            assert!(matches!(e, rjira::BacklogError::NotFound(_)));
        },
        _ => panic!("expected a business-rule failure"),
    }
}

#[test]
fn test_add_item_unknown_type_fails() {
    let mut backlog = Backlog::new();
    let cmd = add_cmd("Epic", "T", None, None);
    match add_item_uc(&mut backlog, &cmd) {
        Err(ServiceError::Incomming(IncommingError::InvalidValue { .. })) => {},
        _ => panic!("expected an input-validation failure"),
    }
    assert!(backlog.is_empty());
}

#[test]
fn test_build_item_validation() {
    let ok = build_item(
        &"Task".to_string(),
        &"t".to_string(),
        Some(8),
        &Some("ann".to_string()),
    )
    .unwrap();
    assert_eq!(ok.kind(), ItemKind::Task);
    assert_eq!(ok.title(), &Title::new("t"));
    assert_eq!(ok.point(), Some(StoryPoint::new(8).unwrap()));
    assert_eq!(ok.assignee(), Some(&Assignee::new("ann")));

    assert!(build_item(&"Story".to_string(), &"t".to_string(), Some(4), &None).is_err());
    assert!(build_item(&"Epic".to_string(), &"t".to_string(), None, &None).is_err());
}

#[test]
fn test_add_item_request_matches_cli_command() {
    let req = AddItemRequest {
        item_type: "Story".to_string(),
        title: "same".to_string(),
        point: Some(2),
        assignee: None,
    };
    let item = req.item().unwrap();
    assert_eq!(item.kind(), ItemKind::Story);
    assert_eq!(item.title(), &Title::new("same"));
    assert_eq!(item.point(), Some(StoryPoint::new(2).unwrap()));
}

#[test]
fn test_update_action_selection() {
    let estimate = UpdateItemRequest { point: Some(3), assignee: Some("kay".to_string()) };
    match estimate.action(9) {
        UpdateAction::Estimate(c) => {
            assert_eq!(c.id, 9);
            assert_eq!(c.point, 3);
        },
        _ => panic!("expected an estimate"),
    }

    let assign = UpdateItemRequest { point: None, assignee: Some("kay".to_string()) };
    match assign.action(9) {
        UpdateAction::Assign(c) => {
            assert_eq!(c.id, 9);
            assert_eq!(c.assignee, "kay".to_string());
        },
        _ => panic!("expected an assignment"),
    }

    let fetch = UpdateItemRequest { point: None, assignee: None };
    assert!(matches!(fetch.action(9), UpdateAction::Fetch));
}

#[test]
fn test_command_argument_extraction() {
    let assign = AssignItemCliCmd { id: 5, assignee: "lee".to_string() };
    assert_eq!(assign.id().unwrap(), 5);
    assert_eq!(assign.assignee().unwrap(), Assignee::new("lee"));

    let estimate = EstimateItemCliCmd { id: 5, point: 13 };
    assert_eq!(estimate.id().unwrap(), 5);
    assert_eq!(estimate.point().unwrap(), StoryPoint::new(13).unwrap());
    let bad = EstimateItemCliCmd { id: 5, point: 11 };
    assert!(bad.point().is_err());
}

#[test]
fn test_error_constructors() {
    match rjira::BacklogError::type_error("bad value") {
        rjira::BacklogError::TypeError(m) => assert_eq!(m, "bad value"),
        _ => panic!("expected a type error"),
    }
    match rjira::BacklogError::not_found("nothing here") {
        rjira::BacklogError::NotFound(m) => assert_eq!(m, "nothing here"),
        _ => panic!("expected a not-found error"),
    }
    match PortsError::not_found("no document") {
        PortsError::NotFound(m) => assert_eq!(m, "no document"),
        _ => panic!("expected a not-found error"),
    }
    match UseCaseError::not_found("no item") {
        UseCaseError::NotFound(m) => assert_eq!(m, "no item"),
        _ => panic!("expected a not-found error"),
    }
    match IncommingError::invalid_value("StoryPoint", "off the scale") {
        IncommingError::InvalidValue { resource, msg } => {
            assert_eq!(resource, "StoryPoint");
            assert_eq!(msg, "off the scale");
        },
    }
}

#[test]
fn test_concurrent_overwrite_is_last_write_wins() {
    // Documented limitation: two snapshots of the same stored backlog,
    // mutated independently and saved in order, leave only the second
    // mutation in the store.
    let mut store = Backlog::new();
    add_item_uc(&mut store, &add_cmd("Story", "shared", None, None)).unwrap();
    let id = store.items()[0].id();

    let mut s1 = store.clone();
    let mut s2 = store.clone();
    assign_item_uc(&mut s1, &AssignItemCliCmd { id, assignee: "early".to_string() }).unwrap();
    estimate_item_uc(&mut s2, &EstimateItemCliCmd { id, point: 3 }).unwrap();

    store = s1;
    store = s2;

    let final_item = store.find_by_id(id).unwrap();
    assert_eq!(final_item.point(), Some(StoryPoint::new(3).unwrap()));
    assert_eq!(final_item.assignee(), None);
}
