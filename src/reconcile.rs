use vstd::prelude::*;
use vstd::string::StringExecFns;

use crate::error::{Error, ErrorKind};
use crate::paths::{base_name, file_name, is_equal, join, joined, last_segment, segment_start};

verus! {

/// What occupies a destination path before a link is placed there.
#[derive(Clone, Copy, Debug, PartialEq, Eq, Structural)]
pub enum DestState {
    /// Nothing exists at the path.
    Absent,
    /// A file or directory that is not a symbolic link.
    Regular,
    /// A symbolic link whose target does not exist.
    BrokenLink,
    /// A symbolic link that resolves to the same canonical path as the source.
    LinkSame,
    /// A symbolic link that resolves to some other existing path.
    LinkOther,
}

/// What to do at a destination path.
#[derive(Clone, Copy, Debug, PartialEq, Eq, Structural)]
pub enum Action {
    /// Leave the path as it is.
    Keep,
    /// Create the link; the path is free.
    Link,
    /// Remove what occupies the path, then create the link.
    Relink,
}

/// The result of placing one link.
#[derive(Clone, Debug)]
pub enum LinkOutcome {
    Created,
    Replaced,
    SkippedUpToDate,
    SkippedBrokenLinkCleared,
    ConflictManualResolutionRequired,
    Failed(String),
}

/// The decision for one destination path: the action and how it is reported.
#[derive(Clone, Debug)]
pub struct Placement {
    pub action: Action,
    pub outcome: LinkOutcome,
}

/// The placement rule: what to do at a destination in `state`, with or
/// without `force`.
pub open spec fn placement_of(state: DestState, force: bool) -> (Action, LinkOutcome) {
    match state {
        DestState::Absent => (Action::Link, LinkOutcome::Created),
        DestState::LinkSame => (Action::Keep, LinkOutcome::SkippedUpToDate),
        DestState::BrokenLink => if force {
            (Action::Relink, LinkOutcome::Replaced)
        } else {
            (Action::Relink, LinkOutcome::SkippedBrokenLinkCleared)
        },
        DestState::Regular | DestState::LinkOther => if force {
            (Action::Relink, LinkOutcome::Replaced)
        } else {
            (Action::Keep, LinkOutcome::ConflictManualResolutionRequired)
        },
    }
}

/// The state of a destination after `action` was carried out there.
pub open spec fn state_after(state: DestState, action: Action) -> DestState {
    match action {
        Action::Keep => state,
        Action::Link | Action::Relink => DestState::LinkSame,
    }
}

/// The state of a destination path, from what was observed there: whether
/// anything exists at the path (without following a link), whether it is a
/// symbolic link, the canonical path the link resolves to (`None` when its
/// target does not exist), and the canonical path of the source.
pub open spec fn state_of(
    present: bool,
    is_symlink: bool,
    resolved: Option<Seq<char>>,
    target: Seq<char>,
) -> DestState {
    if !present {
        DestState::Absent
    } else if !is_symlink {
        DestState::Regular
    } else {
        match resolved {
            None => DestState::BrokenLink,
            Some(c) => if c == target {
                DestState::LinkSame
            } else {
                DestState::LinkOther
            },
        }
    }
}

/// The characters of an optional string.
pub open spec fn opt_view(o: Option<&str>) -> Option<Seq<char>> {
    match o {
        Some(c) => Some(c@),
        None => None,
    }
}

/// Classifies a destination path from what was observed there.
pub fn classify(present: bool, is_symlink: bool, resolved: Option<&str>, target: &str) -> (r:
    DestState)
    ensures
        r == state_of(present, is_symlink, opt_view(resolved), target@),
{
    if !present {
        DestState::Absent
    } else if !is_symlink {
        DestState::Regular
    } else {
        match resolved {
            None => DestState::BrokenLink,
            Some(c) => if is_equal(c, target) {
                DestState::LinkSame
            } else {
                DestState::LinkOther
            },
        }
    }
}

/// Decides what to do at a destination path in `state`.
///
/// A missing destination gets the link; a link that is already in place is
/// kept; a broken link is always cleared and replaced. Anything else is
/// replaced only under `force`, and otherwise left alone and reported as a
/// conflict.
pub fn place(state: DestState, force: bool) -> (r: Placement)
    ensures
        (r.action, r.outcome) == placement_of(state, force),
{
    match state {
        DestState::Absent => Placement { action: Action::Link, outcome: LinkOutcome::Created },
        DestState::LinkSame => Placement {
            action: Action::Keep,
            outcome: LinkOutcome::SkippedUpToDate,
        },
        DestState::BrokenLink => if force {
            Placement { action: Action::Relink, outcome: LinkOutcome::Replaced }
        } else {
            Placement { action: Action::Relink, outcome: LinkOutcome::SkippedBrokenLinkCleared }
        },
        DestState::Regular | DestState::LinkOther => if force {
            Placement { action: Action::Relink, outcome: LinkOutcome::Replaced }
        } else {
            Placement { action: Action::Keep, outcome: LinkOutcome::ConflictManualResolutionRequired }
        },
    }
}

/// Placing a link twice without force, with nothing changed in between,
/// first creates it and then finds it up to date; more generally, whenever
/// the first placement was not a conflict, the second is a no-op that
/// reports the link as up to date.
pub proof fn lemma_place_idempotent(state: DestState)
    ensures
        state == DestState::Absent ==> placement_of(state, false).1 == LinkOutcome::Created,
        placement_of(state, false).1 != LinkOutcome::ConflictManualResolutionRequired ==>
            placement_of(state_after(state, placement_of(state, false).0), false) == (
            Action::Keep,
            LinkOutcome::SkippedUpToDate,
        ),
{
}

/// Under force, one placement always leaves the declared link in place,
/// whatever occupied the destination, and placing it again changes nothing.
pub proof fn lemma_force_converges(state: DestState)
    ensures
        state_after(state, placement_of(state, true).0) == DestState::LinkSame,
        placement_of(state_after(state, placement_of(state, true).0), true).0 == Action::Keep,
{
}

/// Without force, a destination that is not a symbolic link is reported as
/// a conflict and left untouched.
pub proof fn lemma_conflict_untouched()
    ensures
        placement_of(DestState::Regular, false) == (
            Action::Keep,
            LinkOutcome::ConflictManualResolutionRequired,
        ),
        state_after(DestState::Regular, placement_of(DestState::Regular, false).0)
            == DestState::Regular,
{
}

/// A broken link at the destination is cleared and replaced by the declared
/// link, with or without force.
pub proof fn lemma_broken_link_healed(force: bool)
    ensures
        placement_of(DestState::BrokenLink, force).0 == Action::Relink,
        state_after(DestState::BrokenLink, placement_of(DestState::BrokenLink, force).0)
            == DestState::LinkSame,
{
}

/// Where the link for a declared entry goes: at `dest` itself, or, when
/// `dest` is an existing directory, inside it under the source's final
/// component.
pub open spec fn link_destination_of(target: Seq<char>, dest: Seq<char>, dest_is_dir: bool) -> Option<
    Seq<char>,
> {
    if !dest_is_dir {
        Some(dest)
    } else {
        match base_name(target) {
            Some(n) => Some(joined(dest, n)),
            None => None,
        }
    }
}

/// Where the link for a declared entry goes, given the canonical source
/// path and whether the destination is an existing directory. Fails when
/// the link belongs inside a directory but the source has no final
/// component to name it by.
pub fn link_destination(target: &str, dest: &str, dest_is_dir: bool) -> (r: Result<String, Error>)
    ensures
        r is Ok <==> link_destination_of(target@, dest@, dest_is_dir) is Some,
        r matches Ok(p) ==> Some(p@) == link_destination_of(target@, dest@, dest_is_dir),
        r matches Err(e) ==> e.kind == ErrorKind::Other,
{
    if !dest_is_dir {
        Ok(dest.to_owned())
    } else {
        match file_name(target) {
            Some(n) => Ok(join(dest, n.as_str())),
            None => {
                let mut ctx = "could not extract file_name of ".to_owned();
                ctx.append(target);
                Err(Error::new(ErrorKind::Other, ctx))
            },
        }
    }
}


/// An entry found below a source directory: the names of the directories
/// leading to it from the source, its own name, and whether it is a
/// directory.
#[derive(Clone, Debug)]
pub struct SourceNode {
    pub parent: Vec<String>,
    pub name: String,
    pub is_dir: bool,
}

/// One step of placing a source tree.
#[derive(Clone, Debug)]
pub enum Step {
    /// Create this directory, with any missing parents, unless it exists.
    EnsureDir(String),
    /// Place a link at `dest` to `target`.
    Place { target: String, dest: String },
}

/// A step, with its paths as characters.
pub enum StepModel {
    EnsureDir(Seq<char>),
    Place(Seq<char>, Seq<char>),
}

impl View for Step {
    type V = StepModel;

    open spec fn view(&self) -> StepModel {
        match self {
            Step::EnsureDir(d) => StepModel::EnsureDir(d@),
            Step::Place { target, dest } => StepModel::Place(target@, dest@),
        }
    }
}

/// The characters of each string.
pub open spec fn names_of(v: Seq<String>) -> Seq<Seq<char>> {
    v.map_values(|s: String| s@)
}

/// `base` followed by each of `names` as further path components.
pub open spec fn joined_all(base: Seq<char>, names: Seq<Seq<char>>) -> Seq<char>
    decreases names.len(),
{
    if names.len() == 0 {
        base
    } else {
        joined(joined_all(base, names.drop_last()), names.last())
    }
}

/// The steps for one entry below a source directory mapped from `target`
/// to `dest`: its destination's parent directory must exist, and a file
/// gets a link to its counterpart in the source.
pub open spec fn node_steps(n: SourceNode, target: Seq<char>, dest: Seq<char>) -> Seq<StepModel> {
    let dir = joined_all(dest, names_of(n.parent@));
    let ensure = seq![StepModel::EnsureDir(dir)];
    if n.is_dir {
        ensure
    } else {
        ensure.push(
            StepModel::Place(joined(joined_all(target, names_of(n.parent@)), n.name@), joined(dir, n.name@)),
        )
    }
}

/// The steps for a sequence of entries, in order.
pub open spec fn nodes_steps(nodes: Seq<SourceNode>, target: Seq<char>, dest: Seq<char>) -> Seq<
    StepModel,
>
    decreases nodes.len(),
{
    if nodes.len() == 0 {
        Seq::empty()
    } else {
        nodes_steps(nodes.drop_last(), target, dest) + node_steps(nodes.last(), target, dest)
    }
}

/// The steps that place the source `target` at `dest`: a single link for a
/// file; for a directory, the steps of every entry found below it, in the
/// order in which they were listed.
pub open spec fn expansion(
    target: Seq<char>,
    dest: Seq<char>,
    source_is_dir: bool,
    nodes: Seq<SourceNode>,
) -> Seq<StepModel> {
    if source_is_dir {
        nodes_steps(nodes, target, dest)
    } else {
        seq![StepModel::Place(target, dest)]
    }
}

/// Appends each of `names` to `base` as further path components.
pub fn join_all(base: &str, names: &Vec<String>) -> (r: String)
    ensures
        r@ == joined_all(base@, names_of(names@)),
{
    let mut acc = base.to_owned();
    let mut i: usize = 0;
    assert(names_of(names@.subrange(0, 0)) =~= Seq::<Seq<char>>::empty());
    while i < names.len()
        invariant
            i <= names@.len(),
            acc@ == joined_all(base@, names_of(names@.subrange(0, i as int))),
        decreases names@.len() - i,
    {
        let ghost prev = names_of(names@.subrange(0, i as int));
        acc = join(acc.as_str(), names[i].as_str());
        proof {
            let next = names_of(names@.subrange(0, i + 1));
            assert(next.drop_last() =~= prev);
            assert(next.last() == names@[i as int]@);
        }
        i = i + 1;
    }
    assert(names@.subrange(0, names@.len() as int) =~= names@);
    acc
}

/// The steps that place the source `target` at `dest`, given a snapshot
/// of what the source holds: whether it is a directory and, if so, every
/// entry below it, each listed after the directory that holds it.
///
/// A file becomes one link. A directory is mirrored below `dest`: each
/// entry first makes sure that its destination's parent directory exists,
/// and each file below the source gets a link at the same relative place
/// below `dest`.
pub fn expand(target: &str, dest: &str, source_is_dir: bool, nodes: &Vec<SourceNode>) -> (r: Vec<
    Step,
>)
    ensures
        r@.map_values(|s: Step| s@) == expansion(target@, dest@, source_is_dir, nodes@),
{
    let mut out: Vec<Step> = Vec::new();
    if !source_is_dir {
        out.push(Step::Place { target: target.to_owned(), dest: dest.to_owned() });
        assert(out@.map_values(|s: Step| s@) =~= seq![StepModel::Place(target@, dest@)]);
        return out;
    }
    let mut i: usize = 0;
    assert(out@.map_values(|s: Step| s@) =~= nodes_steps(nodes@.subrange(0, 0), target@, dest@));
    while i < nodes.len()
        invariant
            i <= nodes@.len(),
            source_is_dir,
            out@.map_values(|s: Step| s@) == nodes_steps(nodes@.subrange(0, i as int), target@, dest@),
        decreases nodes@.len() - i,
    {
        let node = &nodes[i];
        let ghost before = out@.map_values(|s: Step| s@);
        let dir = join_all(dest, &node.parent);
        let place_dest = join(dir.as_str(), node.name.as_str());
        out.push(Step::EnsureDir(dir));
        if !node.is_dir {
            let source_dir = join_all(target, &node.parent);
            let place_target = join(source_dir.as_str(), node.name.as_str());
            out.push(Step::Place { target: place_target, dest: place_dest });
        }
        proof {
            let sub = nodes@.subrange(0, i + 1);
            assert(sub.drop_last() =~= nodes@.subrange(0, i as int));
            assert(sub.last() == *node);
            assert(out@.map_values(|s: Step| s@) =~= before + node_steps(*node, target@, dest@));
        }
        i = i + 1;
    }
    assert(nodes@.subrange(0, nodes@.len() as int) =~= nodes@);
    out
}

/// The steps that place one declared entry, given the canonical path of
/// its source, its resolved destination, whether that destination is an
/// existing directory, and a snapshot of the source (see `expand`). The
/// links go at the destination, or inside it when it is a directory.
pub fn symlink_files(
    target: &str,
    dest: &str,
    dest_is_dir: bool,
    source_is_dir: bool,
    nodes: &Vec<SourceNode>,
) -> (r: Result<Vec<Step>, Error>)
    ensures
        r is Ok <==> link_destination_of(target@, dest@, dest_is_dir) is Some,
        r matches Ok(steps) ==> steps@.map_values(|s: Step| s@) == expansion(
            target@,
            link_destination_of(target@, dest@, dest_is_dir)->0,
            source_is_dir,
            nodes@,
        ),
        r matches Err(e) ==> e.kind == ErrorKind::Other,
{
    let leaf = link_destination(target, dest, dest_is_dir)?;
    Ok(expand(target, leaf.as_str(), source_is_dir, nodes))
}

/// Whether an entry found below a source directory is walked into: only a
/// real directory is. A symbolic link to a directory is placed as one link,
/// like a file, so that links are never followed while walking.
pub fn descends_into(is_dir: bool, is_symlink: bool) -> (r: bool)
    ensures
        r == (is_dir && !is_symlink),
{
    is_dir && !is_symlink
}

proof fn lemma_segment_start(p: Seq<char>, k: int, i: int)
    requires
        0 < k <= i <= p.len(),
        p[k - 1] == '/',
        forall|j: int| k <= j < i ==> p[j] != '/',
    ensures
        segment_start(p, i) == k,
    decreases i - k,
{
    if i > k {
        lemma_segment_start(p, k, i - 1);
    }
}

/// Linking a file `dir/name` into an existing directory `home`, where
/// nothing is at `home/name` yet: the entry's one step places a link at
/// `home/name` to the source's canonical path, the placement creates it,
/// the link is then in place, and linking again finds it up to date.
pub proof fn lemma_link_into_directory(dir: Seq<char>, name: Seq<char>, home: Seq<char>)
    requires
        name.len() > 0,
        name != seq!['.'],
        name != seq!['.', '.'],
        forall|j: int| 0 <= j < name.len() ==> name[j] != '/',
    ensures
        ({
            let target = dir + seq!['/'] + name;
            let leaf = joined(home, name);
            &&& link_destination_of(target, home, true) == Some(leaf)
            &&& expansion(target, leaf, false, Seq::empty()) == seq![StepModel::Place(target, leaf)]
            &&& placement_of(DestState::Absent, false) == (Action::Link, LinkOutcome::Created)
            &&& state_after(DestState::Absent, Action::Link) == DestState::LinkSame
            &&& placement_of(DestState::LinkSame, false) == (
                Action::Keep,
                LinkOutcome::SkippedUpToDate,
            )
        }),
{
    let target = dir + seq!['/'] + name;
    let k = dir.len() + 1int;
    assert forall|j: int| k <= j < target.len() implies target[j] != '/' by {
        assert(target[j] == name[j - k]);
    }
    lemma_segment_start(target, k, target.len() as int);
    assert(last_segment(target) =~= name);
}

} // verus!
