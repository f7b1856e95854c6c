//! The desktop-entry index: a read-only snapshot of the application
//! database, with the exact lookup and the fuzzy search the resolution
//! pipeline runs over it. A fresh snapshot is fetched per show cycle;
//! nothing is cached across cycles.

use vstd::prelude::*;
use crate::strings::{icontains, icontains_exec, join_semi_chars, spec_join_semi, str_eq, chars_vec};

verus! {

/// One desktop entry: the application-database record the pipeline matches
/// window candidates against.
pub struct DesktopEntry {
    /// The desktop-file id the entry is looked up by, e.g. `firefox.desktop`.
    pub id: String,
    /// The name the entry displays.
    pub display_name: String,
    /// The entry's declared keyword list.
    pub keywords: Vec<String>,
    /// The icon's name, where the entry declares one.
    pub icon: Option<String>,
}

/// A read-only snapshot of the desktop-entry directory.
pub struct DesktopIndex {
    pub entries: Vec<DesktopEntry>,
}

/// The first entry whose id is exactly `name`, in index order.
pub open spec fn spec_lookup(entries: Seq<DesktopEntry>, name: Seq<char>) -> Option<int>
    decreases entries.len(),
{
    if entries.len() == 0 {
        None
    } else if entries[0].id@ == name {
        Some(0)
    } else {
        match spec_lookup(entries.drop_first(), name) {
            Some(i) => Some(i + 1),
            None => None,
        }
    }
}

/// What the exact lookup returns: the first hit, or nothing when no id
/// matches.
pub proof fn lemma_lookup_props(entries: Seq<DesktopEntry>, name: Seq<char>)
    ensures
        match spec_lookup(entries, name) {
            Some(i) => 0 <= i < entries.len() && entries[i].id@ == name && (forall|j: int|
                0 <= j < i ==> (#[trigger] entries[j]).id@ != name),
            None => forall|j: int| 0 <= j < entries.len() ==> (#[trigger] entries[j]).id@ != name,
        },
    decreases entries.len(),
{
    if entries.len() > 0 && entries[0].id@ != name {
        let rest = entries.drop_first();
        lemma_lookup_props(rest, name);
        match spec_lookup(rest, name) {
            Some(i) => {
                assert forall|j: int| 0 <= j < i + 1 implies (#[trigger] entries[j]).id@
                    != name by {
                    if j > 0 {
                        assert(entries[j] == rest[j - 1]);
                    }
                }
            },
            None => {
                assert forall|j: int| 0 <= j < entries.len() implies (#[trigger] entries[j]).id@
                    != name by {
                    if j > 0 {
                        assert(entries[j] == rest[j - 1]);
                    }
                }
            },
        }
    }
}

/// The entry answers a fuzzy search for `q`: the query occurs in its id or
/// its display name, case-insensitively.
pub open spec fn entry_matches_query(e: DesktopEntry, q: Seq<char>) -> bool {
    icontains(e.id@, q) || icontains(e.display_name@, q)
}

/// The role filter: an empty role filters nothing; otherwise the role must
/// occur in the `;`-joined keyword list, case-insensitively.
pub open spec fn entry_role_ok(e: DesktopEntry, role: Seq<char>) -> bool {
    role.len() == 0 || icontains(spec_join_semi(e.keywords@), role)
}

/// The first entry, in index order, that answers the search for `q` and
/// passes the role filter.
pub open spec fn spec_fuzzy_find(entries: Seq<DesktopEntry>, q: Seq<char>, role: Seq<char>) -> Option<
    int,
>
    decreases entries.len(),
{
    if entries.len() == 0 {
        None
    } else if entry_matches_query(entries[0], q) && entry_role_ok(entries[0], role) {
        Some(0)
    } else {
        match spec_fuzzy_find(entries.drop_first(), q, role) {
            Some(i) => Some(i + 1),
            None => None,
        }
    }
}

/// What the fuzzy search returns: the first entry that matches and passes
/// the filter, or nothing when none does.
pub proof fn lemma_fuzzy_find_props(entries: Seq<DesktopEntry>, q: Seq<char>, role: Seq<char>)
    ensures
        match spec_fuzzy_find(entries, q, role) {
            Some(i) => 0 <= i < entries.len() && entry_matches_query(entries[i], q)
                && entry_role_ok(entries[i], role) && (forall|j: int|
                0 <= j < i ==> !(entry_matches_query(#[trigger] entries[j], q) && entry_role_ok(
                    entries[j],
                    role,
                ))),
            None => forall|j: int|
                0 <= j < entries.len() ==> !(entry_matches_query(#[trigger] entries[j], q)
                    && entry_role_ok(entries[j], role)),
        },
    decreases entries.len(),
{
    if entries.len() > 0 && !(entry_matches_query(entries[0], q) && entry_role_ok(
        entries[0],
        role,
    )) {
        let rest = entries.drop_first();
        lemma_fuzzy_find_props(rest, q, role);
        match spec_fuzzy_find(rest, q, role) {
            Some(i) => {
                assert forall|j: int| 0 <= j < i + 1 implies !(entry_matches_query(
                    #[trigger] entries[j],
                    q,
                ) && entry_role_ok(entries[j], role)) by {
                    if j > 0 {
                        assert(entries[j] == rest[j - 1]);
                    }
                }
            },
            None => {
                assert forall|j: int| 0 <= j < entries.len() implies !(entry_matches_query(
                    #[trigger] entries[j],
                    q,
                ) && entry_role_ok(entries[j], role)) by {
                    if j > 0 {
                        assert(entries[j] == rest[j - 1]);
                    }
                }
            },
        }
    }
}

/// The search results for `q`: every entry the query matches, in index
/// order. This is the one ranked result group the pipeline consults.
pub open spec fn spec_search(entries: Seq<DesktopEntry>, q: Seq<char>) -> Seq<int>
    decreases entries.len(),
{
    if entries.len() == 0 {
        Seq::empty()
    } else {
        let front = spec_search(entries.drop_last(), q);
        if entry_matches_query(entries.last(), q) {
            front + seq![entries.len() - 1]
        } else {
            front
        }
    }
}

impl DesktopIndex {
    /// Searches the index: the entries in whose id or display name the
    /// query occurs, case-insensitively, in index order.
    pub fn search(&self, query: &Vec<char>) -> (r: Vec<usize>)
        ensures
            r@.len() == spec_search(self.entries@, query@).len(),
            forall|k: int|
                0 <= k < r@.len() ==> (#[trigger] r@[k]) as int == spec_search(
                    self.entries@,
                    query@,
                )[k],
    {
        let n = self.entries.len();
        let mut r: Vec<usize> = Vec::new();
        let mut i: usize = 0;
        proof {
            assert(self.entries@.subrange(0, 0) =~= Seq::<DesktopEntry>::empty());
        }
        while i < n
            invariant
                n == self.entries@.len(),
                i <= n,
                r@.len() == spec_search(self.entries@.subrange(0, i as int), query@).len(),
                forall|k: int|
                    0 <= k < r@.len() ==> (#[trigger] r@[k]) as int == spec_search(
                        self.entries@.subrange(0, i as int),
                        query@,
                    )[k],
            decreases n - i,
        {
            let e = &self.entries[i];
            let id_chars = chars_vec(e.id.as_str());
            let dn_chars = chars_vec(e.display_name.as_str());
            proof {
                let p = self.entries@.subrange(0, i + 1);
                assert(p.drop_last() =~= self.entries@.subrange(0, i as int));
                assert(p.last() == self.entries@[i as int]);
            }
            if icontains_exec(&id_chars, query) || icontains_exec(&dn_chars, query) {
                r.push(i);
            }
            i = i + 1;
        }
        proof {
            assert(self.entries@.subrange(0, n as int) =~= self.entries@);
        }
        r
    }

    /// Exact lookup by desktop-file id; the first entry in index order wins.
    pub fn lookup_by_exact_name(&self, name: &str) -> (r: Option<usize>)
        ensures
            match r {
                Some(u) => spec_lookup(self.entries@, name@) == Some(u as int),
                None => spec_lookup(self.entries@, name@) is None,
            },
    {
        let n = self.entries.len();
        let mut i: usize = 0;
        while i < n
            invariant
                n == self.entries@.len(),
                i <= n,
                forall|j: int| 0 <= j < i ==> (#[trigger] self.entries@[j]).id@ != name@,
            decreases n - i,
        {
            if str_eq(self.entries[i].id.as_str(), name) {
                proof {
                    lemma_lookup_props(self.entries@, name@);
                }
                return Some(i);
            }
            i = i + 1;
        }
        proof {
            lemma_lookup_props(self.entries@, name@);
        }
        None
    }

    /// Fuzzy search: the first entry, in index order, in whose id or display
    /// name the query occurs and that passes the role filter. An empty role
    /// filters nothing.
    pub fn fuzzy_find(&self, query: &Vec<char>, role: &Vec<char>) -> (r: Option<usize>)
        ensures
            match r {
                Some(u) => spec_fuzzy_find(self.entries@, query@, role@) == Some(u as int),
                None => spec_fuzzy_find(self.entries@, query@, role@) is None,
            },
    {
        let n = self.entries.len();
        let mut i: usize = 0;
        while i < n
            invariant
                n == self.entries@.len(),
                i <= n,
                forall|j: int|
                    0 <= j < i ==> !(entry_matches_query(#[trigger] self.entries@[j], query@)
                        && entry_role_ok(self.entries@[j], role@)),
            decreases n - i,
        {
            let e = &self.entries[i];
            let id_chars = chars_vec(e.id.as_str());
            let dn_chars = chars_vec(e.display_name.as_str());
            let matches_q = icontains_exec(&id_chars, query) || icontains_exec(&dn_chars, query);
            if matches_q {
                let role_ok = if role.len() == 0 {
                    true
                } else {
                    let joined = join_semi_chars(&e.keywords);
                    icontains_exec(&joined, role)
                };
                if role_ok {
                    proof {
                        lemma_fuzzy_find_props(self.entries@, query@, role@);
                    }
                    return Some(i);
                }
            }
            i = i + 1;
        }
        proof {
            lemma_fuzzy_find_props(self.entries@, query@, role@);
        }
        None
    }
}

} // verus!
