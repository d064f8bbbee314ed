use vstd::prelude::*;

use indexmap::IndexMap;

verus! {

#[verifier::external_type_specification]
#[verifier::external_body]
#[verifier::reject_recursive_types(K)]
#[verifier::reject_recursive_types(V)]
#[verifier::reject_recursive_types(S)]
pub struct ExIndexMap<K, V, S>(IndexMap<K, V, S>);

/// One declared mapping: the file or directory in the repository, where
/// its link belongs, and optionally a template whose rendering becomes the
/// source file.
#[derive(Clone, Debug)]
pub struct Entry {
    pub source: String,
    pub destination: String,
    pub template: Option<String>,
}

/// The declarations of a run: the named entries in the order in which they
/// were declared, and the optional wallpaper and theme that seed the
/// template variables.
#[derive(Debug)]
pub struct Manifest {
    pub wallpaper: Option<String>,
    pub theme: Option<String>,
    pub files: IndexMap<String, Entry>,
}

/// The named entries of a map, in insertion order.
pub uninterp spec fn declared(m: IndexMap<String, Entry>) -> Seq<(String, Entry)>;

/// Relies on `IndexMap::len`: the number of entries.
#[verifier::external_body]
pub(crate) fn entry_count(m: &IndexMap<String, Entry>) -> (n: usize)
    ensures
        n == declared(*m).len(),
{
    m.len()
}

/// Relies on `IndexMap::get_index`: the entry at a position in insertion
/// order, if the position is in range.
#[verifier::external_body]
pub(crate) fn entry_at(m: &IndexMap<String, Entry>, i: usize) -> (r: Option<(&String, &Entry)>)
    ensures
        r is Some <==> i < declared(*m).len(),
        r matches Some(p) ==> (*p.0, *p.1) == declared(*m)[i as int],
{
    m.get_index(i)
}

/// Relies on `IndexMap::get_index_of`: the position of the entry with the
/// given name; names are unique among the entries.
#[verifier::external_body]
pub(crate) fn position_of(m: &IndexMap<String, Entry>, name: &str) -> (r: Option<usize>)
    ensures
        r matches Some(i) ==> i < declared(*m).len() && declared(*m)[i as int].0@ == name@,
        r matches Some(i) ==> forall|j: int|
            0 <= j < declared(*m).len() && #[trigger] declared(*m)[j].0@ == name@ ==> j == i,
        r is None ==> forall|j: int|
            0 <= j < declared(*m).len() ==> #[trigger] declared(*m)[j].0@ != name@,
{
    m.get_index_of(name)
}

/// The theme used when none is declared.
pub open spec fn default_theme() -> Seq<char> {
    seq!['d', 'a', 'r', 'k']
}

impl Manifest {
    /// The entries, in declared order.
    pub open spec fn entries(&self) -> Seq<(String, Entry)> {
        declared(self.files)
    }

    /// The number of declared entries.
    pub fn len(&self) -> (n: usize)
        ensures
            n == self.entries().len(),
    {
        entry_count(&self.files)
    }

    /// The name and entry at position `i` in declared order.
    pub fn get(&self, i: usize) -> (r: Option<(&String, &Entry)>)
        ensures
            r is Some <==> i < self.entries().len(),
            r matches Some(p) ==> (*p.0, *p.1) == self.entries()[i as int],
    {
        entry_at(&self.files, i)
    }

    /// The position of the entry called `name`.
    pub fn position(&self, name: &str) -> (r: Option<usize>)
        ensures
            r matches Some(i) ==> i < self.entries().len() && self.entries()[i as int].0@ == name@,
            r is None <==> forall|j: int|
                0 <= j < self.entries().len() ==> #[trigger] self.entries()[j].0@ != name@,
            r matches Some(i) ==> forall|j: int|
                0 <= j < self.entries().len() && #[trigger] self.entries()[j].0@ == name@ ==> j == i,
    {
        let r = position_of(&self.files, name);
        proof {
            if r is Some {
                let i = r->0 as int;
                assert(self.entries()[i].0@ == name@);
            }
        }
        r
    }

    /// Whether any entry declares a template.
    pub fn has_templates(&self) -> (r: bool)
        ensures
            r == exists|j: int| 0 <= j < self.entries().len() && (#[trigger] self.entries()[j]).1.template is Some,
    {
        let n = self.len();
        let mut i: usize = 0;
        while i < n
            invariant
                n == self.entries().len(),
                i <= n,
                forall|j: int| 0 <= j < i ==> (#[trigger] self.entries()[j]).1.template is None,
            decreases n - i,
        {
            match self.get(i) {
                Some((_, e)) => {
                    if e.template.is_some() {
                        return true;
                    }
                },
                None => {},
            }
            i = i + 1;
        }
        false
    }

    /// The theme that the palette is derived for: the declared one, or
    /// `dark`.
    pub fn theme_name(&self) -> (r: String)
        ensures
            self.theme matches Some(t) ==> r@ == t@,
            self.theme is None ==> r@ == default_theme(),
    {
        match &self.theme {
            Some(t) => t.clone(),
            None => {
                proof {
                    reveal_strlit("dark");
                }
                "dark".to_owned()
            },
        }
    }
}

} // verus!
