use dotman::error::ErrorKind;
use dotman::reconcile::{
    classify, descends_into, expand, link_destination, place, Action, DestState, LinkOutcome, SourceNode, Step,
};

fn after(state: DestState, action: Action) -> DestState {
    match action {
        Action::Keep => state,
        Action::Link | Action::Relink => DestState::LinkSame,
    }
}

#[test]
fn placement_table_without_force() {
    let p = place(DestState::Absent, false);
    assert!(p.action == Action::Link && matches!(p.outcome, LinkOutcome::Created));
    let p = place(DestState::Regular, false);
    assert!(p.action == Action::Keep);
    assert!(matches!(p.outcome, LinkOutcome::ConflictManualResolutionRequired));
    let p = place(DestState::BrokenLink, false);
    assert!(p.action == Action::Relink);
    assert!(matches!(p.outcome, LinkOutcome::SkippedBrokenLinkCleared));
    let p = place(DestState::LinkSame, false);
    assert!(p.action == Action::Keep && matches!(p.outcome, LinkOutcome::SkippedUpToDate));
    let p = place(DestState::LinkOther, false);
    assert!(p.action == Action::Keep);
    assert!(matches!(p.outcome, LinkOutcome::ConflictManualResolutionRequired));
}

#[test]
fn placement_table_with_force() {
    let p = place(DestState::Absent, true);
    assert!(p.action == Action::Link && matches!(p.outcome, LinkOutcome::Created));
    for s in [DestState::Regular, DestState::BrokenLink, DestState::LinkOther] {
        let p = place(s, true);
        assert!(p.action == Action::Relink && matches!(p.outcome, LinkOutcome::Replaced));
    }
    let p = place(DestState::LinkSame, true);
    assert!(p.action == Action::Keep && matches!(p.outcome, LinkOutcome::SkippedUpToDate));
}

#[test]
fn placing_twice_creates_then_skips() {
    let first = place(DestState::Absent, false);
    assert!(matches!(first.outcome, LinkOutcome::Created));
    let second = place(after(DestState::Absent, first.action), false);
    assert!(second.action == Action::Keep);
    assert!(matches!(second.outcome, LinkOutcome::SkippedUpToDate));
}

#[test]
fn force_always_ends_with_the_link_in_place() {
    for s in [
        DestState::Absent,
        DestState::Regular,
        DestState::BrokenLink,
        DestState::LinkSame,
        DestState::LinkOther,
    ] {
        let once = after(s, place(s, true).action);
        assert_eq!(once, DestState::LinkSame);
        assert_eq!(after(once, place(once, true).action), DestState::LinkSame);
    }
}

#[test]
fn regular_file_is_a_conflict_and_untouched() {
    let p = place(DestState::Regular, false);
    assert!(matches!(p.outcome, LinkOutcome::ConflictManualResolutionRequired));
    assert_eq!(after(DestState::Regular, p.action), DestState::Regular);
}

#[test]
fn broken_link_is_healed_with_or_without_force() {
    for force in [false, true] {
        let p = place(DestState::BrokenLink, force);
        assert_eq!(p.action, Action::Relink);
        assert_eq!(after(DestState::BrokenLink, p.action), DestState::LinkSame);
    }
}

#[test]
fn classify_reads_the_observations() {
    assert_eq!(classify(false, false, None, "/repo/a"), DestState::Absent);
    assert_eq!(classify(true, false, None, "/repo/a"), DestState::Regular);
    assert_eq!(classify(true, true, None, "/repo/a"), DestState::BrokenLink);
    assert_eq!(classify(true, true, Some("/repo/a"), "/repo/a"), DestState::LinkSame);
    assert_eq!(classify(true, true, Some("/repo/b"), "/repo/a"), DestState::LinkOther);
}

#[test]
fn link_goes_inside_an_existing_directory() {
    let d = link_destination("/repo/zsh/.zshrc", "/home/ada/", true).unwrap();
    assert_eq!(d, "/home/ada/.zshrc");
    let d = link_destination("/repo/zsh/.zshrc", "/home/ada/.zshrc", false).unwrap();
    assert_eq!(d, "/home/ada/.zshrc");
    let e = link_destination("/", "/home/ada", true).unwrap_err();
    assert_eq!(e.kind, ErrorKind::Other);
}

fn node(parent: &[&str], name: &str, is_dir: bool) -> SourceNode {
    SourceNode {
        parent: parent.iter().map(|s| s.to_string()).collect(),
        name: name.to_string(),
        is_dir,
    }
}

fn ensure(d: &str) -> String {
    format!("ensure {d}")
}

fn link(t: &str, d: &str) -> String {
    format!("link {t} -> {d}")
}

fn describe(steps: &[Step]) -> Vec<String> {
    steps
        .iter()
        .map(|s| match s {
            Step::EnsureDir(d) => ensure(d),
            Step::Place { target, dest } => link(target, dest),
        })
        .collect()
}

#[test]
fn a_file_becomes_one_link() {
    let steps = expand("/repo/zsh/.zshrc", "/home/ada/.zshrc", false, &vec![]);
    assert_eq!(describe(&steps), vec![link("/repo/zsh/.zshrc", "/home/ada/.zshrc")]);
}

#[test]
fn a_directory_is_mirrored_below_the_destination() {
    let nodes = vec![
        node(&[], "a", true),
        node(&["a"], "b.txt", false),
        node(&["a"], "c", true),
        node(&["a", "c"], "d.txt", false),
    ];
    let steps = expand("/repo/src", "/home/ada/dst", true, &nodes);
    assert_eq!(
        describe(&steps),
        vec![
            ensure("/home/ada/dst"),
            ensure("/home/ada/dst/a"),
            link("/repo/src/a/b.txt", "/home/ada/dst/a/b.txt"),
            ensure("/home/ada/dst/a"),
            ensure("/home/ada/dst/a/c"),
            link("/repo/src/a/c/d.txt", "/home/ada/dst/a/c/d.txt"),
        ]
    );
}

#[test]
fn an_empty_directory_places_nothing() {
    let steps = expand("/repo/empty", "/home/ada/empty", true, &vec![]);
    assert!(steps.is_empty());
}

#[test]
fn only_real_directories_are_walked_into() {
    assert!(descends_into(true, false));
    assert!(!descends_into(true, true));
    assert!(!descends_into(false, false));
    assert!(!descends_into(false, true));
}
