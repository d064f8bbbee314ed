use dotman::error::ErrorKind;
use dotman::manifest::{Entry, Manifest};
use dotman::paths::resolve;
use dotman::reconcile::{classify, link_destination, place, Action, DestState, LinkOutcome};
use dotman::run::{plan, Mode, Task};
use indexmap::IndexMap;

fn entry(source: &str, destination: &str, template: Option<&str>) -> Entry {
    Entry {
        source: source.to_string(),
        destination: destination.to_string(),
        template: template.map(|t| t.to_string()),
    }
}

fn manifest(wallpaper: Option<&str>, entries: Vec<(&str, Entry)>) -> Manifest {
    let mut files = IndexMap::new();
    for (name, e) in entries {
        files.insert(name.to_string(), e);
    }
    Manifest { wallpaper: wallpaper.map(|w| w.to_string()), theme: None, files }
}

fn shell_only() -> Manifest {
    manifest(None, vec![("shell", entry("./zsh/.zshrc", "~/", None))])
}

#[test]
fn sync_of_a_new_link_creates_it() {
    let m = shell_only();
    let tasks = plan(&m, Mode::SyncAll, None).unwrap();
    assert_eq!(tasks, vec![Task::Link(0)]);
    let (_, e) = m.get(0).unwrap();
    let source = resolve(&e.source, Some("/home/ada"), "/repo").unwrap();
    assert_eq!(source, "/repo/zsh/.zshrc");
    let dest = resolve(&e.destination, Some("/home/ada"), "/repo").unwrap();
    assert_eq!(dest, "/home/ada");
    let canonical = "/repo/zsh/.zshrc";
    let leaf = link_destination(canonical, &dest, true).unwrap();
    assert_eq!(leaf, "/home/ada/.zshrc");
    let p = place(classify(false, false, None, canonical), false);
    assert_eq!(p.action, Action::Link);
    assert!(matches!(p.outcome, LinkOutcome::Created));
}

#[test]
fn sync_again_finds_the_link_up_to_date() {
    let canonical = "/repo/zsh/.zshrc";
    let state = classify(true, true, Some(canonical), canonical);
    assert_eq!(state, DestState::LinkSame);
    let p = place(state, false);
    assert_eq!(p.action, Action::Keep);
    assert!(matches!(p.outcome, LinkOutcome::SkippedUpToDate));
}

#[test]
fn entries_run_in_declared_order_rendering_first() {
    let m = manifest(
        Some("wall.png"),
        vec![
            ("zeta", entry("z", "~/z", None)),
            ("alpha", entry("a", "~/a", Some("a.tmpl"))),
            ("mid", entry("m", "~/m", None)),
        ],
    );
    let tasks = plan(&m, Mode::SyncAll, None).unwrap();
    assert_eq!(
        tasks,
        vec![Task::DerivePalette, Task::Link(0), Task::Render(1), Task::Link(1), Task::Link(2)]
    );
}

#[test]
fn link_only_renders_nothing_and_needs_no_wallpaper() {
    let m = manifest(None, vec![("t", entry("a", "~/a", Some("a.tmpl")))]);
    assert_eq!(plan(&m, Mode::LinkOnly, None).unwrap(), vec![Task::Link(0)]);
}

#[test]
fn generate_only_places_nothing() {
    let m = manifest(
        Some("wall.png"),
        vec![("plain", entry("p", "~/p", None)), ("t", entry("a", "~/a", Some("a.tmpl")))],
    );
    assert_eq!(
        plan(&m, Mode::GenerateOnly, None).unwrap(),
        vec![Task::DerivePalette, Task::Render(1)]
    );
}

#[test]
fn template_without_wallpaper_fails_before_any_work() {
    let m = manifest(
        None,
        vec![("plain", entry("p", "~/p", None)), ("t", entry("a", "~/a", Some("a.tmpl")))],
    );
    let e = plan(&m, Mode::SyncAll, None).unwrap_err();
    assert_eq!(e.kind, ErrorKind::MissingWallpaper);
    assert_eq!(e.message(), "could not generate color palette: wallpaper is not set.");
    let e = plan(&m, Mode::GenerateOnly, Some("t")).unwrap_err();
    assert_eq!(e.kind, ErrorKind::MissingWallpaper);
}

#[test]
fn no_template_means_no_palette() {
    let m = shell_only();
    assert_eq!(plan(&m, Mode::GenerateOnly, None).unwrap(), vec![]);
}

#[test]
fn selector_picks_one_entry() {
    let m = manifest(
        Some("wall.png"),
        vec![("plain", entry("p", "~/p", None)), ("t", entry("a", "~/a", Some("a.tmpl")))],
    );
    assert_eq!(plan(&m, Mode::SyncAll, Some("plain")).unwrap(), vec![Task::Link(0)]);
    assert_eq!(
        plan(&m, Mode::SyncAll, Some("t")).unwrap(),
        vec![Task::DerivePalette, Task::Render(1), Task::Link(1)]
    );
}

#[test]
fn unknown_selector_is_not_found() {
    let m = shell_only();
    let e = plan(&m, Mode::LinkOnly, Some("nvim")).unwrap_err();
    assert_eq!(e.kind, ErrorKind::NotFound);
    assert_eq!(e.message(), "could not find nvim");
}

#[test]
fn manifest_queries() {
    let mut m = manifest(
        None,
        vec![("plain", entry("p", "~/p", None)), ("t", entry("a", "~/a", Some("a.tmpl")))],
    );
    assert_eq!(m.len(), 2);
    assert_eq!(m.position("t"), Some(1));
    assert_eq!(m.position("x"), None);
    assert!(m.has_templates());
    assert_eq!(m.theme_name(), "dark");
    m.theme = Some("light".to_string());
    assert_eq!(m.theme_name(), "light");
    assert!(!shell_only().has_templates());
    assert!(m.get(2).is_none());
}
