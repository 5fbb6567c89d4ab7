use decadog::error::Error;
use decadog::points::{closed_milestone_title, SprintPoints, PLANNED_TOO_HIGH, PLANNED_TOO_LOW};

fn user_description(e: Error) -> String {
    match e {
        Error::User { description } => description,
        _ => panic!("expected a user error"),
    }
}

#[test]
fn points_example_breakdown() {
    let p = SprintPoints::new(20, 30, 5).ok().unwrap();
    assert_eq!(p.planned, 20);
    assert_eq!(p.in_milestone, 30);
    assert_eq!(p.in_milestone_open, 5);
    assert_eq!(p.done_in_sprint, 15);
    assert_eq!(p.done_out_of_sprint, 10);
    assert_eq!(p.done_total, 25);
    assert_eq!(p.remaining(), 5);
}

#[test]
fn points_parts_add_up_to_total() {
    for (planned, all, open) in [(0u32, 0u32, 0u32), (3, 8, 1), (13, 13, 0), (7, 100, 7), (4_000_000_000, 4_294_967_295, 0)] {
        let p = SprintPoints::new(planned, all, open).ok().unwrap();
        assert_eq!(p.done_in_sprint + p.done_out_of_sprint, p.done_total);
        assert_eq!(p.done_total, all - open);
    }
}

#[test]
fn points_planned_too_low() {
    let e = SprintPoints::new(4, 30, 5).err().unwrap();
    assert_eq!(user_description(e), PLANNED_TOO_LOW);
    assert_eq!(
        PLANNED_TOO_LOW,
        "Planned points too low: should be higher than points remaining in sprint."
    );
}

#[test]
fn points_planned_too_high() {
    let e = SprintPoints::new(31, 30, 5).err().unwrap();
    assert_eq!(user_description(e), PLANNED_TOO_HIGH);
    assert_eq!(
        PLANNED_TOO_HIGH,
        "Planned points too high: should be lower than all points in milestone."
    );
}

#[test]
fn points_too_low_checked_before_too_high() {
    // Open points above a plan that is also above the milestone: "too low" wins.
    let e = SprintPoints::new(10, 5, 20).err().unwrap();
    assert_eq!(user_description(e), PLANNED_TOO_LOW);
}

#[test]
fn points_all_equal_gives_zeros() {
    let p = SprintPoints::new(8, 8, 8).ok().unwrap();
    assert_eq!(p.planned, 8);
    assert_eq!(p.done_in_sprint, 0);
    assert_eq!(p.done_out_of_sprint, 0);
    assert_eq!(p.done_total, 0);
}

#[test]
fn points_closed_title() {
    let p = SprintPoints::new(20, 30, 5).ok().unwrap();
    assert_eq!(closed_milestone_title("Sprint 4", &p), "Sprint 4 [15/20 + 10]");
    let z = SprintPoints::new(0, 0, 0).ok().unwrap();
    assert_eq!(closed_milestone_title("", &z), " [0/0 + 0]");
}
