use taskspace::{
    Blank, Children, Condition, Constant, Date, Deadline, Dependency, Direct, Metadata, Parent,
    Recur, RecurState, Recurrence, RelativeDate, TaskError, Workspace,
};

const DAY: i64 = 86_400_000;
const NOW: i64 = 1_700_000_000_000;

#[test]
fn blank_stays_dead_after_more_completions() {
    let mut w = Workspace::new();
    let id = w.add_task("b", Blank::new(), Vec::new());
    assert_eq!(w.task_done(id).unwrap(), false);
    w.task_complete(id).unwrap();
    assert_eq!(w.task_done(id).unwrap(), true);
    w.task_complete(id).unwrap();
    w.task_complete(id).unwrap();
    assert_eq!(w.task_done(id).unwrap(), true);
    assert_eq!(w.tasks.get(&id).unwrap().date.current(), None);
}

#[test]
fn deadline_reports_due_then_nothing() {
    let mut w = Workspace::new();
    let id = w.add_task("d", Deadline::new(NOW + 4 * DAY), Vec::new());
    assert_eq!(w.tasks.get(&id).unwrap().date.current(), Some(NOW + 4 * DAY));
    w.task_complete(id).unwrap();
    assert_eq!(w.tasks.get(&id).unwrap().date.current(), None);
    assert_eq!(w.tasks.get(&id).unwrap().date.active(), RecurState::Dead);
}

#[test]
fn constant_schedule_at_fixed_instant() {
    let mut rule = Constant::new(NOW + 2 * DAY, Some(NOW + 4 * DAY), DAY as u64);
    rule.next();
    assert_eq!(rule.current(), Some(NOW + 3 * DAY));
    rule.next();
    assert_eq!(rule.current(), Some(NOW + 4 * DAY));
    assert_eq!(rule.active(), RecurState::Active);
    rule.next();
    assert_eq!(rule.active(), RecurState::Dead);
    assert_eq!(rule.current(), None);
    let dead = rule;
    rule.next();
    assert_eq!(rule, dead);
}

#[test]
fn constant_without_end_holds_at_last_instant() {
    let mut rule = Constant::new(i64::MAX - 5, None, 10);
    rule.next();
    assert_eq!(rule.current(), Some(i64::MAX));
    assert_eq!(rule.active(), RecurState::Active);
    match rule {
        Recurrence::Constant(c) => assert_eq!(c.due, i64::MAX),
        _ => panic!("not a constant rule"),
    }
}

#[test]
fn direct_and_date_at_fixed_instants() {
    let mut w = Workspace::new();
    let a = w.add_task("a", Blank::new(), Vec::new());
    let id = w.add_task("t", Blank::new(), vec![Direct::new(a), Date::new(NOW + DAY)]);
    assert_eq!(w.task_available_at(id, NOW).unwrap(), false);
    assert_eq!(w.task_available_at(id, NOW + 2 * DAY).unwrap(), false);
    w.task_complete(a).unwrap();
    assert_eq!(w.task_available_at(id, NOW).unwrap(), false);
    assert_eq!(w.task_available_at(id, NOW + DAY).unwrap(), false);
    assert_eq!(w.task_available_at(id, NOW + DAY + 1).unwrap(), true);
}

#[test]
fn relative_date_at_fixed_instants() {
    let mut w = Workspace::new();
    let id = w.add_task(
        "r",
        Deadline::new(NOW + 4 * DAY),
        vec![RelativeDate::new((2 * DAY) as u64)],
    );
    assert_eq!(w.task_available_at(id, NOW + 2 * DAY).unwrap(), false);
    assert_eq!(w.task_available_at(id, NOW + 2 * DAY + 1).unwrap(), true);
    w.task_complete(id).unwrap();
    assert_eq!(
        w.task_available_at(id, NOW).unwrap_err(),
        TaskError::NonexistentError
    );
}

#[test]
fn relative_date_far_before_earliest_instant() {
    let mut w = Workspace::new();
    let id = w.add_task(
        "r",
        Deadline::new(i64::MIN + 1),
        vec![RelativeDate::new(u64::MAX)],
    );
    assert_eq!(w.task_available_at(id, i64::MIN).unwrap(), true);
}

#[test]
fn parent_found_in_small_forest() {
    let mut w = Workspace::new();
    let p = w.add_task("p", Blank::new(), Vec::new());
    let c1 = w.add_task("c1", Blank::new(), Vec::new());
    let c2 = w.add_task("c2", Blank::new(), Vec::new());
    let c3 = w.add_task("c3", Blank::new(), Vec::new());
    w.task_add_child(p, c1).unwrap();
    w.task_add_child(p, c2).unwrap();
    w.task_add_child(c2, c3).unwrap();
    assert_eq!(w.task_get_parent(c1).unwrap(), p);
    assert_eq!(w.task_get_parent(c2).unwrap(), p);
    assert_eq!(w.task_get_parent(c3).unwrap(), c2);
    assert_eq!(w.task_get_parent(p).unwrap_err(), TaskError::NonexistentError);
}

#[test]
fn children_gate_opens_when_both_inactive() {
    let mut w = Workspace::new();
    let id = w.add_task("t", Blank::new(), vec![Children::new()]);
    let c1 = w.add_task("c1", Blank::new(), Vec::new());
    let c2 = w.add_task("c2", Blank::new(), Vec::new());
    assert_eq!(w.task_available_at(id, NOW).unwrap(), true);
    w.task_add_child(id, c1).unwrap();
    w.task_add_child(id, c2).unwrap();
    assert_eq!(w.task_available_at(id, NOW).unwrap(), false);
    w.task_complete(c1).unwrap();
    assert_eq!(w.task_available_at(id, NOW).unwrap(), false);
    w.task_complete(c2).unwrap();
    assert_eq!(w.task_available_at(id, NOW).unwrap(), true);
}

#[test]
fn children_gate_with_missing_child_is_not_found() {
    let mut w = Workspace::new();
    let id = w.add_task("t", Blank::new(), vec![Children::new()]);
    let missing = id.wrapping_add(1);
    w.tasks.get_mut(&id).unwrap().children.push(missing);
    if !w.tasks.contains_key(&missing) {
        assert_eq!(
            w.task_available_at(id, NOW).unwrap_err(),
            TaskError::NonexistentError
        );
    }
}

#[test]
fn children_gate_missing_child_after_active_one_is_not_found() {
    let mut w = Workspace::new();
    let id = w.add_task("t", Blank::new(), vec![Children::new()]);
    let active = w.add_task("c", Blank::new(), Vec::new());
    w.task_add_child(id, active).unwrap();
    let mut missing = active.wrapping_add(1);
    while w.tasks.contains_key(&missing) {
        missing = missing.wrapping_add(1);
    }
    w.tasks.get_mut(&id).unwrap().children.push(missing);
    assert_eq!(
        w.task_available_at(id, NOW).unwrap_err(),
        TaskError::NonexistentError
    );
}

#[test]
fn parent_gate_without_parent_fails() {
    let mut w = Workspace::new();
    let id = w.add_task("t", Blank::new(), vec![Parent::new()]);
    assert_eq!(
        w.task_available_at(id, NOW).unwrap_err(),
        TaskError::NonexistentError
    );
}

#[test]
fn metadata_write_read_and_update() {
    let mut w = Workspace::new();
    let id = w.add_task("m", Blank::new(), Vec::new());
    assert_eq!(w.task_get_metadata(id, "k".to_string()).unwrap(), None);
    assert_eq!(
        w.task_set_metadata(id, "k".to_string(), "v0".to_string()).unwrap_err(),
        TaskError::NonexistentKeyError
    );
    assert_eq!(w.task_get_metadata(id, "k".to_string()).unwrap(), None);
    w.task_add_metadata(id, "k".to_string(), "v1".to_string()).unwrap();
    assert_eq!(
        w.task_get_metadata(id, "k".to_string()).unwrap().unwrap(),
        "v1"
    );
    w.task_set_metadata(id, "k".to_string(), "v2".to_string()).unwrap();
    assert_eq!(
        w.task_get_metadata(id, "k".to_string()).unwrap().unwrap(),
        "v2"
    );
    w.task_add_metadata(id, "k".to_string(), "v3".to_string()).unwrap();
    assert_eq!(
        w.task_get_metadata(id, "k".to_string()).unwrap().unwrap(),
        "v3"
    );
    assert_eq!(w.tasks.get(&id).unwrap().metadata.pairs().len(), 1);
}

#[test]
fn metadata_map_keeps_keys_apart() {
    let mut m = Metadata::new();
    m.insert("a".to_string(), "1".to_string());
    m.insert("b".to_string(), "2".to_string());
    assert_eq!(m.get(&"a".to_string()).unwrap(), "1");
    assert_eq!(m.get(&"b".to_string()).unwrap(), "2");
    assert!(m.update("a".to_string(), "3".to_string()));
    assert!(!m.update("c".to_string(), "4".to_string()));
    assert_eq!(m.get(&"a".to_string()).unwrap(), "3");
    assert_eq!(m.get(&"c".to_string()), None);
}

#[test]
fn unknown_task_is_not_found() {
    let mut w = Workspace::new();
    let id = w.add_task("t", Blank::new(), Vec::new());
    let other = id.wrapping_add(1);
    assert_eq!(w.task_available(other).unwrap_err(), TaskError::NonexistentError);
    assert_eq!(w.task_done(other).unwrap_err(), TaskError::NonexistentError);
    assert_eq!(w.task_complete(other).unwrap_err(), TaskError::NonexistentError);
    assert_eq!(w.task_add_child(id, other).unwrap_err(), TaskError::NonexistentError);
    assert_eq!(w.task_add_child(other, id).unwrap_err(), TaskError::NonexistentError);
    assert_eq!(
        w.task_add_metadata(other, "k".to_string(), "v".to_string()).unwrap_err(),
        TaskError::NonexistentError
    );
    assert_eq!(
        w.task_set_metadata(other, "k".to_string(), "v".to_string()).unwrap_err(),
        TaskError::NonexistentError
    );
    assert_eq!(
        w.task_get_metadata(other, "k".to_string()).unwrap_err(),
        TaskError::NonexistentError
    );
    let dep = w.add_task("d", Blank::new(), vec![Direct::new(other)]);
    if dep != other {
        assert_eq!(w.task_available(dep).unwrap_err(), TaskError::NonexistentError);
    }
}

#[test]
fn duplicate_child_is_refused() {
    let mut w = Workspace::new();
    let p = w.add_task("p", Blank::new(), Vec::new());
    let c = w.add_task("c", Blank::new(), Vec::new());
    w.task_add_child(p, c).unwrap();
    assert_eq!(w.task_add_child(p, c).unwrap_err(), TaskError::DuplicateError);
    assert_eq!(w.tasks.get(&p).unwrap().children, vec![c]);
}

#[test]
fn new_tasks_get_distinct_ids() {
    let mut w = Workspace::new();
    let a = w.add_task("a", Blank::new(), Vec::new());
    let b = w.add_task("b", Blank::new(), Vec::new());
    assert_ne!(a, b);
    assert_eq!(w.tasks.len(), 2);
    assert_eq!(w.tasks.get(&a).unwrap().title, "a");
    assert_eq!(w.tasks.get(&b).unwrap().title, "b");
}

#[test]
fn clock_lies_after_a_past_date() {
    let mut w = Workspace::new();
    let id = w.add_task("t", Blank::new(), vec![Date::new(NOW)]);
    assert_eq!(w.task_available(id).unwrap(), true);
    let later = w.add_task("t", Blank::new(), vec![Date::new(i64::MAX)]);
    assert_eq!(w.task_available(later).unwrap(), false);
}

#[test]
fn condition_dispatch_matches_variant() {
    let mut w = Workspace::new();
    let id = w.add_task("t", Deadline::new(NOW), Vec::new());
    let task = w.tasks.get(&id).unwrap();
    let c: Condition = Date::new(NOW);
    assert_eq!(c.available(&w, id, task, NOW).unwrap(), false);
    assert_eq!(c.available(&w, id, task, NOW + 1).unwrap(), true);
}

#[test]
fn error_messages() {
    assert_eq!(TaskError::DuplicateError.message(), "Task already inserted");
    assert_eq!(TaskError::NonexistentError.message(), "Task doesn't exist");
    assert_eq!(
        TaskError::NonexistentKeyError.message(),
        "Metadata key doesn't exist"
    );
    assert_eq!(
        TaskError::UnreachableError.message(),
        "You've somehow reached an unreachable state. Congrats?"
    );
}
