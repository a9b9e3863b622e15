use admin_api::admission::{
    group_check, group_refusal_answer, new_group, parent_to_check, realm_id_conflict, GroupCheck, GroupRefusal, NewGroup,
    NewGroupBody,
};
use admin_api::walk::{
    deletion_children, deletion_deleted, deletion_start, deletion_step, path_walk_path, path_walk_record,
    path_walk_start, path_walk_target, DeletionStep, PATH_WALK_LIMIT,
};

fn some(s: &str) -> Option<String> {
    Some(s.to_string())
}

#[test]
fn path_walk_collects_names_up_to_the_top() {
    let mut w = path_walk_start("g3");
    assert_eq!(path_walk_target(&w), some("g3"));
    path_walk_record(&mut w, Some((some("leaf"), some("g2"))));
    assert_eq!(path_walk_target(&w), some("g2"));
    path_walk_record(&mut w, Some((some("mid"), some("g1"))));
    path_walk_record(&mut w, Some((some("top"), None)));
    assert_eq!(path_walk_target(&w), None);
    assert_eq!(path_walk_path(&w), "/top/mid/leaf");
}

#[test]
fn path_walk_stops_at_a_missing_group() {
    let mut w = path_walk_start("g2");
    path_walk_record(&mut w, Some((some("child"), some("gone"))));
    path_walk_record(&mut w, None);
    assert_eq!(path_walk_target(&w), None);
    assert_eq!(path_walk_path(&w), "/child");
    // A record while no lookup is asked for changes nothing.
    path_walk_record(&mut w, Some((some("ignored"), some("x"))));
    assert_eq!(path_walk_path(&w), "/child");
}

#[test]
fn path_walk_skips_unnamed_groups() {
    let mut w = path_walk_start("g2");
    path_walk_record(&mut w, Some((None, some("g1"))));
    path_walk_record(&mut w, Some((some("top"), None)));
    assert_eq!(path_walk_path(&w), "/top");
}

#[test]
fn path_walk_makes_at_most_the_limit_of_lookups() {
    let mut w = path_walk_start("loop");
    let mut lookups = 0;
    while let Some(id) = path_walk_target(&w) {
        lookups += 1;
        path_walk_record(&mut w, Some((some("n"), Some(id))));
    }
    assert_eq!(lookups, PATH_WALK_LIMIT);
    assert_eq!(PATH_WALK_LIMIT, 128);
}

#[test]
fn deletion_finishes_children_before_parents() {
    let mut d = deletion_start("root");
    let mut deleted = Vec::new();
    let mut listed = Vec::new();
    loop {
        match deletion_step(&d) {
            DeletionStep::ListChildren(id) => {
                listed.push(id.clone());
                let kids = match id.as_str() {
                    "root" => vec!["a".to_string(), "b".to_string()],
                    "a" => vec!["a1".to_string()],
                    _ => Vec::new(),
                };
                deletion_children(&mut d, kids);
            }
            DeletionStep::Delete(id) => {
                deleted.push(id);
                deletion_deleted(&mut d);
            }
            DeletionStep::Done => break,
        }
    }
    assert_eq!(listed, vec!["root", "a", "a1", "b"]);
    assert_eq!(deleted, vec!["a1", "a", "b", "root"]);
}

#[test]
fn deletion_ignores_answers_it_did_not_ask_for() {
    let mut d = deletion_start("g");
    deletion_deleted(&mut d);
    assert!(matches!(deletion_step(&d), DeletionStep::ListChildren(ref id) if id == "g"));
    deletion_children(&mut d, Vec::new());
    deletion_children(&mut d, vec!["x".to_string()]);
    assert!(matches!(deletion_step(&d), DeletionStep::Delete(ref id) if id == "g"));
    deletion_deleted(&mut d);
    assert!(matches!(deletion_step(&d), DeletionStep::Done));
}

fn body(id: Option<&str>, name: Option<&str>, parent: Option<&str>) -> NewGroupBody {
    NewGroupBody {
        id: id.map(str::to_string),
        name: name.map(str::to_string),
        parent_id: parent.map(str::to_string),
    }
}

#[test]
fn new_group_needs_a_name() {
    assert!(matches!(new_group(body(Some("g"), None, None), None), Err(GroupRefusal::NameRequired)));
    assert_eq!(group_refusal_answer(GroupRefusal::NameRequired), (400, "name is required"));
    assert_eq!(group_refusal_answer(GroupRefusal::AlreadyExists), (409, "group already exists"));
    assert_eq!(group_refusal_answer(GroupRefusal::ParentNotFound), (404, "parent group not found"));
}

#[test]
fn new_group_takes_id_and_parent() {
    let g = new_group(body(Some("g1"), Some("ops"), Some("p-body")), Some("p-path")).unwrap();
    assert_eq!((g.id.as_str(), g.name.as_str(), g.parent.as_deref()), ("g1", "ops", Some("p-path")));
    let g = new_group(body(None, Some("ops"), Some("p-body")), None).unwrap();
    assert!(g.id.starts_with("group-"));
    assert!(g.id["group-".len()..].chars().all(|c| c.is_ascii_digit()));
    assert_eq!(g.parent.as_deref(), Some("p-body"));
}

#[test]
fn group_checks_come_in_order() {
    let g = NewGroup { id: "g1".to_string(), name: "ops".to_string(), parent: some("p") };
    assert!(matches!(group_check(&g, None, None), GroupCheck::IdInUse(ref id) if id == "g1"));
    assert!(matches!(group_check(&g, Some(true), None), GroupCheck::Refuse(GroupRefusal::AlreadyExists)));
    assert!(matches!(group_check(&g, Some(false), None), GroupCheck::ParentInRealm(ref p) if p == "p"));
    assert!(matches!(group_check(&g, Some(false), Some(false)), GroupCheck::Refuse(GroupRefusal::ParentNotFound)));
    assert!(matches!(group_check(&g, Some(false), Some(true)), GroupCheck::Admit));
    let top = NewGroup { id: "g2".to_string(), name: "top".to_string(), parent: None };
    assert!(matches!(group_check(&top, Some(false), None), GroupCheck::Admit));
}

#[test]
fn realm_id_cannot_change() {
    assert!(!realm_id_conflict(None, "r1"));
    assert!(!realm_id_conflict(Some("r1"), "r1"));
    assert!(realm_id_conflict(Some("r2"), "r1"));
}

#[test]
fn group_update_checks_a_named_parent() {
    assert_eq!(parent_to_check(None), None);
    assert_eq!(parent_to_check(Some("")), None);
    assert_eq!(parent_to_check(Some("p1")), Some("p1"));
}
