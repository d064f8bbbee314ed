use vstd::prelude::*;
use vstd::string::StringExecFns;

use crate::error::{Error, ErrorKind};
use crate::manifest::{Entry, Manifest};
use crate::reconcile::opt_view;

verus! {

/// What a run does with each selected entry.
#[derive(Clone, Copy, Debug, PartialEq, Eq, Structural)]
pub enum Mode {
    /// Render templates, then place links.
    SyncAll,
    /// Place links only.
    LinkOnly,
    /// Render templates only.
    GenerateOnly,
}

/// One unit of work of a run. Entries are named by their position in the
/// declared order.
#[derive(Clone, Copy, Debug, PartialEq, Eq, Structural)]
pub enum Task {
    /// Derive the template variables from the wallpaper and theme.
    DerivePalette,
    /// Render the entry's template into its source file.
    Render(usize),
    /// Place the links of the entry.
    Link(usize),
}

/// Whether a run in `mode` renders the template of `e`.
pub open spec fn renders(e: Entry, mode: Mode) -> bool {
    mode != Mode::LinkOnly && e.template is Some
}

/// The tasks for the entry at position `i`: its template is rendered
/// before its links are placed.
pub open spec fn entry_tasks(i: int, e: Entry, mode: Mode) -> Seq<Task> {
    let render: Seq<Task> = if renders(e, mode) {
        seq![Task::Render(i as usize)]
    } else {
        Seq::empty()
    };
    if mode != Mode::GenerateOnly {
        render.push(Task::Link(i as usize))
    } else {
        render
    }
}

/// The tasks for the first `k` entries, in declared order.
pub open spec fn tasks_upto(d: Seq<(String, Entry)>, k: int, mode: Mode) -> Seq<Task>
    decreases k,
{
    if k <= 0 {
        Seq::empty()
    } else {
        tasks_upto(d, k - 1, mode) + entry_tasks(k - 1, d[k - 1].1, mode)
    }
}

/// Whether any of the first `k` entries has its template rendered.
pub open spec fn any_renders(d: Seq<(String, Entry)>, k: int, mode: Mode) -> bool
    decreases k,
{
    if k <= 0 {
        false
    } else {
        any_renders(d, k - 1, mode) || renders(d[k - 1].1, mode)
    }
}

/// `tasks`, preceded by deriving the palette when some template needs it;
/// that needs a wallpaper.
pub open spec fn with_palette(tasks: Seq<Task>, needed: bool, has_wallpaper: bool) -> Result<
    Seq<Task>,
    ErrorKind,
> {
    if !needed {
        Ok(tasks)
    } else if !has_wallpaper {
        Err(ErrorKind::MissingWallpaper)
    } else {
        Ok(seq![Task::DerivePalette] + tasks)
    }
}

/// Whether an entry of `d` is called `name`.
pub open spec fn names_entry(d: Seq<(String, Entry)>, name: Seq<char>) -> bool {
    exists|i: int| 0 <= i < d.len() && (#[trigger] d[i]).0@ == name
}

/// The tasks of a run over the entries `d` in `mode`: every entry in
/// declared order, or only the one that `selector` names.
pub open spec fn planned(
    d: Seq<(String, Entry)>,
    has_wallpaper: bool,
    mode: Mode,
    selector: Option<Seq<char>>,
) -> Result<Seq<Task>, ErrorKind> {
    match selector {
        None => with_palette(
            tasks_upto(d, d.len() as int, mode),
            any_renders(d, d.len() as int, mode),
            has_wallpaper,
        ),
        Some(name) => if names_entry(d, name) {
            let i = choose|i: int| 0 <= i < d.len() && (#[trigger] d[i]).0@ == name;
            with_palette(entry_tasks(i, d[i].1, mode), renders(d[i].1, mode), has_wallpaper)
        } else {
            Err(ErrorKind::NotFound)
        },
    }
}

fn push_entry_tasks(tasks: &mut Vec<Task>, i: usize, e: &Entry, mode: Mode)
    ensures
        final(tasks)@ == old(tasks)@ + entry_tasks(i as int, *e, mode),
{
    let ghost start = tasks@;
    if mode != Mode::LinkOnly && e.template.is_some() {
        tasks.push(Task::Render(i));
    }
    if mode != Mode::GenerateOnly {
        tasks.push(Task::Link(i));
    }
    assert(tasks@ =~= start + entry_tasks(i as int, *e, mode));
}

fn finish_plan(m: &Manifest, tasks: Vec<Task>, needed: bool) -> (r: Result<Vec<Task>, Error>)
    ensures
        r is Ok <==> with_palette(tasks@, needed, m.wallpaper is Some) is Ok,
        r matches Ok(v) ==> Ok::<Seq<Task>, ErrorKind>(v@) == with_palette(tasks@, needed, m.wallpaper is Some),
        r matches Err(e) ==> Err::<Seq<Task>, ErrorKind>(e.kind) == with_palette(tasks@, needed, m.wallpaper is Some),
        r matches Err(e) ==> e.ctx@ == "could not generate color palette: wallpaper is not set."@,
{
    if !needed {
        Ok(tasks)
    } else if m.wallpaper.is_none() {
        Err(
            Error::new(
                ErrorKind::MissingWallpaper,
                "could not generate color palette: wallpaper is not set.".to_owned(),
            ),
        )
    } else {
        let mut tasks = tasks;
        let ghost before = tasks@;
        tasks.insert(0, Task::DerivePalette);
        assert(tasks@ =~= seq![Task::DerivePalette] + before);
        Ok(tasks)
    }
}

/// Plans a run: the tasks, in order, for every declared entry, or for the
/// one that `selector` names.
///
/// In each entry a template is rendered before the links are placed;
/// `LinkOnly` renders nothing and `GenerateOnly` places nothing. The palette
/// is derived once, first, and only when some selected template is
/// rendered. Fails, before any work, when `selector` names no entry, or
/// when a template is rendered but no wallpaper is declared.
pub fn plan(m: &Manifest, mode: Mode, selector: Option<&str>) -> (r: Result<Vec<Task>, Error>)
    ensures
        r is Ok <==> planned(m.entries(), m.wallpaper is Some, mode, opt_view(selector)) is Ok,
        r matches Ok(v) ==> Ok::<Seq<Task>, ErrorKind>(v@) == planned(
            m.entries(),
            m.wallpaper is Some,
            mode,
            opt_view(selector),
        ),
        r matches Err(e) ==> Err::<Seq<Task>, ErrorKind>(e.kind) == planned(
            m.entries(),
            m.wallpaper is Some,
            mode,
            opt_view(selector),
        ),
        r matches Err(e) ==> e.kind == ErrorKind::NotFound ==> e.ctx@ == "could not find "@
            + selector.unwrap()@,
        r matches Err(e) ==> e.kind == ErrorKind::MissingWallpaper ==> e.ctx@
            == "could not generate color palette: wallpaper is not set."@,
{
    let ghost d = m.entries();
    let mut tasks: Vec<Task> = Vec::new();
    match selector {
        None => {
            let n = m.len();
            let mut needed = false;
            let mut i: usize = 0;
            while i < n
                invariant
                    n == d.len(),
                    d == m.entries(),
                    i <= n,
                    tasks@ == tasks_upto(d, i as int, mode),
                    needed == any_renders(d, i as int, mode),
                decreases n - i,
            {
                match m.get(i) {
                    Some((_, e)) => {
                        needed = needed || (mode != Mode::LinkOnly && e.template.is_some());
                        push_entry_tasks(&mut tasks, i, e, mode);
                    },
                    None => {},
                }
                i = i + 1;
            }
            finish_plan(m, tasks, needed)
        },
        Some(name) => match m.position(name) {
            None => {
                let mut ctx = "could not find ".to_owned();
                ctx.append(name);
                Err(Error::new(ErrorKind::NotFound, ctx))
            },
            Some(i) => match m.get(i) {
                Some((_, e)) => {
                    proof {
                        assert(d[i as int].0@ == name@);
                        let c = choose|c: int| 0 <= c < d.len() && (#[trigger] d[c]).0@ == name@;
                        assert(c == i);
                    }
                    push_entry_tasks(&mut tasks, i, e, mode);
                    assert(tasks@ =~= entry_tasks(i as int, *e, mode));
                    let needed = mode != Mode::LinkOnly && e.template.is_some();
                    finish_plan(m, tasks, needed)
                },
                None => Err(Error::new(ErrorKind::NotFound, "could not find entry".to_owned())),
            },
        },
    }
}

} // verus!
