//! The window resolution pipeline: maps one window node to a display label
//! and an icon source by trying a sequence of fallback strategies, each
//! cheaper and more speculative than the last. Resolution never fails a
//! node: a window that matches nothing degrades to a placeholder icon and a
//! synthesized label, and one unresolvable node never fails the listing.

use vstd::prelude::*;
use crate::desktop::{DesktopEntry, DesktopIndex, spec_lookup, spec_fuzzy_find};
use crate::node::{
    WindowNode, spec_node_class, spec_node_instance, spec_node_role, spec_node_title,
    node_get_class, node_get_instance, node_get_role, node_get_title, clone_opt_string,
};
use crate::strings::{
    chars_vec, has_visible, has_visible_exec, ieq, ieq_str, i64_dec, spec_dec_i64,
};
use vstd::string::StringExecFns;

verus! {

/// The candidate names for one node, most authoritative first: `app_id`,
/// window class, executable basename, window instance. The order is an
/// authority ranking, not an incidental iteration order: the first
/// candidate that yields a match wins.
pub open spec fn spec_candidates(n: WindowNode, exe_basename: Option<String>) -> Seq<
    Option<String>,
> {
    seq![n.app_id, spec_node_class(n), exe_basename, spec_node_instance(n)]
}

/// Builds the candidate name list for one node. The executable basename is
/// handed in by the caller, which read it from the process id's `/proc`
/// entry, where there was one to read.
pub fn candidate_names(node: &WindowNode, exe_basename: &Option<String>) -> (r: Vec<
    Option<String>,
>)
    ensures
        r@ == spec_candidates(*node, *exe_basename),
{
    let mut v: Vec<Option<String>> = Vec::new();
    v.push(clone_opt_string(&node.app_id));
    v.push(node_get_class(node));
    v.push(clone_opt_string(exe_basename));
    v.push(node_get_instance(node));
    proof {
        assert(v@ =~= spec_candidates(*node, *exe_basename));
    }
    v
}

/// The exact pass: for each candidate in order, a direct lookup of
/// `<candidate>.desktop`; the first hit wins.
pub open spec fn spec_exact_pass(entries: Seq<DesktopEntry>, cands: Seq<Option<String>>) -> Option<
    int,
>
    decreases cands.len(),
{
    if cands.len() == 0 {
        None
    } else {
        let found = match cands[0] {
            Some(name) => spec_lookup(entries, name@ + ".desktop"@),
            None => None,
        };
        match found {
            Some(i) => Some(i),
            None => spec_exact_pass(entries, cands.drop_first()),
        }
    }
}

/// The fuzzy pass: for each candidate in order, a search over the index
/// filtered by the window's role; the first entry passing both wins.
pub open spec fn spec_fuzzy_pass(
    entries: Seq<DesktopEntry>,
    cands: Seq<Option<String>>,
    role: Seq<char>,
) -> Option<int>
    decreases cands.len(),
{
    if cands.len() == 0 {
        None
    } else {
        let found = match cands[0] {
            Some(q) => spec_fuzzy_find(entries, q@, role),
            None => None,
        };
        match found {
            Some(i) => Some(i),
            None => spec_fuzzy_pass(entries, cands.drop_first(), role),
        }
    }
}

/// The role string the fuzzy pass filters by: the node's role where
/// present, else empty — and an empty role filters nothing.
pub open spec fn spec_role_of(n: WindowNode) -> Seq<char> {
    match spec_node_role(n) {
        Some(r) => r@,
        None => Seq::empty(),
    }
}

fn exact_pass(index: &DesktopIndex, cands: &Vec<Option<String>>) -> (r: Option<usize>)
    ensures
        match r {
            Some(u) => spec_exact_pass(index.entries@, cands@) == Some(u as int) && u
                < index.entries@.len(),
            None => spec_exact_pass(index.entries@, cands@) is None,
        },
{
    let n = cands.len();
    let mut i: usize = 0;
    proof {
        assert(cands@.subrange(0, n as int) =~= cands@);
    }
    while i < n
        invariant
            n == cands@.len(),
            i <= n,
            spec_exact_pass(index.entries@, cands@) == spec_exact_pass(
                index.entries@,
                cands@.subrange(i as int, n as int),
            ),
        decreases n - i,
    {
        proof {
            assert(cands@.subrange(i as int, n as int)[0] == cands@[i as int]);
            assert(cands@.subrange(i as int, n as int).drop_first() =~= cands@.subrange(
                i + 1,
                n as int,
            ));
        }
        let hit: Option<usize> = match &cands[i] {
            Some(name) => {
                let query = name.clone().concat(".desktop");
                index.lookup_by_exact_name(query.as_str())
            },
            None => None,
        };
        match hit {
            Some(u) => {
                proof {
                    crate::desktop::lemma_lookup_props(index.entries@, cands@[i as int]->0@ + ".desktop"@);
                }
                return Some(u);
            },
            None => {
            },
        }
        i = i + 1;
    }
    None
}

fn fuzzy_pass(index: &DesktopIndex, cands: &Vec<Option<String>>, role: &Vec<char>) -> (r: Option<
    usize,
>)
    ensures
        match r {
            Some(u) => spec_fuzzy_pass(index.entries@, cands@, role@) == Some(u as int) && u
                < index.entries@.len(),
            None => spec_fuzzy_pass(index.entries@, cands@, role@) is None,
        },
{
    let n = cands.len();
    let mut i: usize = 0;
    proof {
        assert(cands@.subrange(0, n as int) =~= cands@);
    }
    while i < n
        invariant
            n == cands@.len(),
            i <= n,
            spec_fuzzy_pass(index.entries@, cands@, role@) == spec_fuzzy_pass(
                index.entries@,
                cands@.subrange(i as int, n as int),
                role@,
            ),
        decreases n - i,
    {
        proof {
            assert(cands@.subrange(i as int, n as int)[0] == cands@[i as int]);
            assert(cands@.subrange(i as int, n as int).drop_first() =~= cands@.subrange(
                i + 1,
                n as int,
            ));
        }
        let hit: Option<usize> = match &cands[i] {
            Some(name) => {
                let query = chars_vec(name.as_str());
                index.fuzzy_find(&query, role)
            },
            None => None,
        };
        match hit {
            Some(u) => {
                proof {
                    crate::desktop::lemma_fuzzy_find_props(index.entries@, cands@[i as int]->0@, role@);
                }
                return Some(u);
            },
            None => {
            },
        }
        i = i + 1;
    }
    None
}

/// Which desktop entry a node resolves to. No executable basename (the
/// process id was absent, or its `/proc` entry was not a readable symlink)
/// short-circuits to "no application match" — not an error. Otherwise the
/// exact pass runs first; only if it finds nothing does the fuzzy pass run.
pub open spec fn spec_resolve(
    entries: Seq<DesktopEntry>,
    n: WindowNode,
    exe_basename: Option<String>,
) -> Option<int> {
    if exe_basename is None {
        None
    } else {
        let cands = spec_candidates(n, exe_basename);
        match spec_exact_pass(entries, cands) {
            Some(i) => Some(i),
            None => spec_fuzzy_pass(entries, cands, spec_role_of(n)),
        }
    }
}

/// Finds the desktop entry for a node: the exact pass over the candidate
/// names, then the fuzzy pass filtered by the window's role.
pub fn get_desktop_file_from_node(
    index: &DesktopIndex,
    node: &WindowNode,
    exe_basename: &Option<String>,
) -> (r: Option<usize>)
    ensures
        match r {
            Some(u) => spec_resolve(index.entries@, *node, *exe_basename) == Some(u as int) && u
                < index.entries@.len(),
            None => spec_resolve(index.entries@, *node, *exe_basename) is None,
        },
{
    if exe_basename.is_none() {
        return None;
    }
    let cands = candidate_names(node, exe_basename);
    match exact_pass(index, &cands) {
        Some(u) => Some(u),
        None => {
            let role: Vec<char> = match node_get_role(node) {
                Some(r) => chars_vec(r.as_str()),
                None => Vec::new(),
            };
            fuzzy_pass(index, &cands, &role)
        },
    }
}

/// The label a node gets on its own: the window's title (or, failing that,
/// its raw name); a window with neither gets `Window ID: <id>`.
pub open spec fn spec_base_label(n: WindowNode) -> Seq<char> {
    match spec_node_title(n) {
        Some(t) => t@,
        None => "Window ID: "@ + spec_dec_i64(n.id as int),
    }
}

/// The label a node's row shows. A matched entry whose display name is not
/// blank and differs from the base label (case-insensitively) is prefixed
/// as `<display name> - <label>`.
pub open spec fn spec_label(
    entries: Seq<DesktopEntry>,
    n: WindowNode,
    exe_basename: Option<String>,
) -> Seq<char> {
    let base = spec_base_label(n);
    match spec_resolve(entries, n, exe_basename) {
        Some(i) => {
            let dn = entries[i].display_name@;
            if has_visible(dn) && !ieq(dn, base) {
                dn + " - "@ + base
            } else {
                base
            }
        },
        None => base,
    }
}

/// Where one row's icon comes from: a matched desktop entry, or a named
/// fallback icon.
#[derive(Debug, Clone)]
pub enum IconSource {
    FromDesktopEntry(usize),
    NamedFallback(String),
}

/// What one window node resolves to, consumed immediately to render one
/// list row.
#[derive(Debug, Clone)]
pub struct ResolvedEntity {
    pub label: String,
    pub icon_source: IconSource,
}

/// The resolved entity is right for its node: the label is the synthesized
/// one, and the icon comes from the matched entry where that entry declares
/// an icon, else is the generic `image-missing` fallback — which is not an
/// error condition.
pub open spec fn resolved_ok(
    entries: Seq<DesktopEntry>,
    n: WindowNode,
    exe_basename: Option<String>,
    r: ResolvedEntity,
) -> bool {
    &&& r.label@ == spec_label(entries, n, exe_basename)
    &&& match r.icon_source {
        IconSource::FromDesktopEntry(i) => spec_resolve(entries, n, exe_basename) == Some(i as int)
            && entries[i as int].icon is Some,
        IconSource::NamedFallback(s) => s@ == "image-missing"@ && (match spec_resolve(
            entries,
            n,
            exe_basename,
        ) {
            Some(j) => entries[j].icon is None,
            None => true,
        }),
    }
}

/// Resolves one node to its display label and icon source.
pub fn resolve_node(index: &DesktopIndex, node: &WindowNode, exe_basename: &Option<String>) -> (r:
    ResolvedEntity)
    ensures
        resolved_ok(index.entries@, *node, *exe_basename, r),
{
    let entry = get_desktop_file_from_node(index, node, exe_basename);
    let base: String = match node_get_title(node) {
        Some(t) => t,
        None => {
            let mut s = String::from_str("Window ID: ");
            let d = i64_dec(node.id);
            s.append(d.as_str());
            s
        },
    };
    match entry {
        Some(i) => {
            let e = &index.entries[i];
            let label: String = if has_visible_exec(e.display_name.as_str()) && !ieq_str(
                e.display_name.as_str(),
                base.as_str(),
            ) {
                let mut s = e.display_name.clone();
                s.append(" - ");
                s.append(base.as_str());
                s
            } else {
                base
            };
            let icon_source = match &e.icon {
                Some(_) => IconSource::FromDesktopEntry(i),
                None => IconSource::NamedFallback(String::from_str("image-missing")),
            };
            ResolvedEntity { label, icon_source }
        },
        None => ResolvedEntity {
            label: base,
            icon_source: IconSource::NamedFallback(String::from_str("image-missing")),
        },
    }
}

/// One row of the popup's list: a scratchpad member, or the placeholder
/// shown when the scratchpad is empty.
#[derive(Debug, Clone)]
pub enum ListRow {
    Placeholder,
    Member { node_id: i64, entity: ResolvedEntity },
}

/// A member row is right for its node: it carries the node's id and the
/// node's resolved entity.
pub open spec fn row_ok(
    entries: Seq<DesktopEntry>,
    n: WindowNode,
    exe_basename: Option<String>,
    row: ListRow,
) -> bool {
    row matches ListRow::Member { node_id, entity } && node_id == n.id && resolved_ok(
        entries,
        n,
        exe_basename,
        entity,
    )
}

/// Builds the popup's rows for one show cycle: one row per member, each
/// resolved independently, and a single placeholder row — not zero rows,
/// not an error — when the member list is empty.
pub fn build_rows(
    index: &DesktopIndex,
    nodes: &Vec<WindowNode>,
    exe_basenames: &Vec<Option<String>>,
) -> (r: Vec<ListRow>)
    requires
        nodes@.len() == exe_basenames@.len(),
    ensures
        nodes@.len() == 0 ==> r@.len() == 1 && r@[0] is Placeholder,
        nodes@.len() > 0 ==> r@.len() == nodes@.len() && (forall|i: int|
            0 <= i < nodes@.len() ==> row_ok(
                index.entries@,
                nodes@[i],
                exe_basenames@[i],
                #[trigger] r@[i],
            )),
{
    let n = nodes.len();
    if n == 0 {
        let mut v: Vec<ListRow> = Vec::new();
        v.push(ListRow::Placeholder);
        return v;
    }
    let mut v: Vec<ListRow> = Vec::new();
    let mut i: usize = 0;
    while i < n
        invariant
            n == nodes@.len(),
            n == exe_basenames@.len(),
            i <= n,
            v@.len() == i as int,
            forall|j: int|
                0 <= j < i ==> row_ok(
                    index.entries@,
                    nodes@[j],
                    exe_basenames@[j],
                    #[trigger] v@[j],
                ),
        decreases n - i,
    {
        let entity = resolve_node(index, &nodes[i], &exe_basenames[i]);
        v.push(ListRow::Member { node_id: nodes[i].id, entity });
        i = i + 1;
    }
    v
}

/// Which window an activated row targets: the member's node id, or nothing
/// for the placeholder or an out-of-range index — activating those only
/// closes the popup.
pub fn activation_target(rows: &Vec<ListRow>, idx: usize) -> (r: Option<i64>)
    ensures
        match r {
            Some(id) => idx < rows@.len() && (rows@[idx as int] matches ListRow::Member {
                node_id,
                ..
            } && node_id == id),
            None => idx >= rows@.len() || rows@[idx as int] is Placeholder,
        },
{
    if idx < rows.len() {
        match &rows[idx] {
            ListRow::Member { node_id, .. } => Some(*node_id),
            ListRow::Placeholder => None,
        }
    } else {
        None
    }
}

/// A search filtered by a role that no entry's keyword list contains finds
/// nothing, whatever the query.
proof fn lemma_fuzzy_find_none_when_role_filtered(
    entries: Seq<DesktopEntry>,
    q: Seq<char>,
    role: Seq<char>,
)
    requires
        role.len() > 0,
        forall|j: int|
            0 <= j < entries.len() ==> !crate::strings::icontains(
                crate::strings::spec_join_semi((#[trigger] entries[j]).keywords@),
                role,
            ),
    ensures
        spec_fuzzy_find(entries, q, role) is None,
    decreases entries.len(),
{
    if entries.len() > 0 {
        assert(!crate::desktop::entry_role_ok(entries[0], role));
        let rest = entries.drop_first();
        assert forall|j: int| 0 <= j < rest.len() implies !crate::strings::icontains(
            crate::strings::spec_join_semi((#[trigger] rest[j]).keywords@),
            role,
        ) by {
            assert(rest[j] == entries[j + 1]);
        }
        lemma_fuzzy_find_none_when_role_filtered(rest, q, role);
    }
}

proof fn lemma_fuzzy_pass_none_when_role_filtered(
    entries: Seq<DesktopEntry>,
    cands: Seq<Option<String>>,
    role: Seq<char>,
)
    requires
        role.len() > 0,
        forall|j: int|
            0 <= j < entries.len() ==> !crate::strings::icontains(
                crate::strings::spec_join_semi((#[trigger] entries[j]).keywords@),
                role,
            ),
    ensures
        spec_fuzzy_pass(entries, cands, role) is None,
    decreases cands.len(),
{
    if cands.len() > 0 {
        match cands[0] {
            Some(q) => {
                lemma_fuzzy_find_none_when_role_filtered(entries, q@, role);
            },
            None => {
            },
        }
        lemma_fuzzy_pass_none_when_role_filtered(entries, cands.drop_first(), role);
    }
}

/// A node whose role occurs in no entry's keyword list, and whose
/// candidates find no exact match, resolves to no entry at all — so its row
/// carries the generic fallback icon, while the listing still carries a row
/// for it (`build_rows` keeps one row per member).
pub proof fn lemma_unmatched_role_falls_back(
    entries: Seq<DesktopEntry>,
    n: WindowNode,
    exe_basename: Option<String>,
)
    requires
        spec_exact_pass(entries, spec_candidates(n, exe_basename)) is None,
        spec_role_of(n).len() > 0,
        forall|j: int|
            0 <= j < entries.len() ==> !crate::strings::icontains(
                crate::strings::spec_join_semi((#[trigger] entries[j]).keywords@),
                spec_role_of(n),
            ),
    ensures
        spec_resolve(entries, n, exe_basename) is None,
{
    if exe_basename is Some {
        lemma_fuzzy_pass_none_when_role_filtered(
            entries,
            spec_candidates(n, exe_basename),
            spec_role_of(n),
        );
    }
}

/// Label synthesis: a node with no title and no raw name gets exactly the
/// label `Window ID: <id>`.
pub proof fn lemma_label_synthesis(n: WindowNode)
    requires
        spec_node_title(n) is None,
    ensures
        spec_base_label(n) == "Window ID: "@ + spec_dec_i64(n.id as int),
{
}

/// The command that asks the compositor to surface one scratchpad member.
pub fn show_command(node_id: i64) -> (s: String)
    ensures
        s@ == "[con_id="@ + spec_dec_i64(node_id as int) + "] scratchpad show"@,
{
    let mut s = String::from_str("[con_id=");
    let d = i64_dec(node_id);
    s.append(d.as_str());
    s.append("] scratchpad show");
    s
}

} // verus!
