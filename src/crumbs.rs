//! The breadcrumb trail of a path: one item for the root and one for each named
//! component, each carrying the path up to it.
use vstd::prelude::*;
use crate::paths::{components, components_of, is_normal_component, is_normal_text, is_root_text, join, joined, root_text};

verus! {

/// One item of a breadcrumb trail.
#[derive(Clone, Debug, PartialEq, Eq)]
pub struct Crumb {
    pub label: String,
    /// The path that a click on the item navigates to.
    pub id: String,
    pub clickable: bool,
}

/// The (label, path) pairs of the trail of the components `comps`, where `base` is
/// the path that the components before them make up.
pub open spec fn trail(comps: Seq<Seq<char>>, base: Seq<char>) -> Seq<(Seq<char>, Seq<char>)>
    decreases comps.len(),
{
    if comps.len() == 0 {
        seq![]
    } else if comps[0] == root_text() {
        seq![(root_text(), root_text())] + trail(comps.drop_first(), root_text())
    } else if is_normal_text(comps[0]) {
        let id = joined(base, comps[0]);
        seq![(comps[0], id)] + trail(comps.drop_first(), id)
    } else {
        trail(comps.drop_first(), base)
    }
}

/// The trail of a path.
pub open spec fn path_trail(p: Seq<char>) -> Seq<(Seq<char>, Seq<char>)> {
    trail(components_of(p), seq![])
}

/// The breadcrumb items of a path: every item but the last, the current location, is
/// clickable.
pub fn path_to_breadcrumb_items(path: &String) -> (r: Vec<Crumb>)
    ensures
        r@.len() == path_trail(path@).len(),
        forall|i: int|
            0 <= i < r@.len() ==> (#[trigger] r@[i]).label@ == path_trail(path@)[i].0
                && r@[i].id@ == path_trail(path@)[i].1 && r@[i].clickable == (i < r@.len() - 1),
{
    let comps = components(path);
    let ghost all = components_of(path@);
    assert(comps@.map_values(|c: String| c@) =~= all);
    let mut items: Vec<Crumb> = Vec::new();
    let mut current = String::new();
    let n = comps.len();
    let mut i: usize = 0;
    assert(all.subrange(0, n as int) =~= all);
    assert(items@.map_values(|c: Crumb| (c.label@, c.id@)) =~= Seq::<(Seq<char>, Seq<char>)>::empty());
    assert(current@ =~= Seq::<char>::empty());
    while i < n
        invariant
            n == comps@.len(),
            all.len() == n,
            forall|k: int| 0 <= k < n ==> #[trigger] comps@[k]@ == all[k],
            0 <= i <= n,
            forall|k: int|
                0 <= k < items@.len() ==> (#[trigger] items@[k]).clickable,
            items@.map_values(|c: Crumb| (c.label@, c.id@)) + trail(all.subrange(i as int, n as int), current@)
                == path_trail(path@),
        decreases n - i,
    {
        let ghost before = items@.map_values(|c: Crumb| (c.label@, c.id@));
        let ghost rest = all.subrange(i as int, n as int);
        assert(rest.drop_first() =~= all.subrange(i + 1, n as int));
        let c = &comps[i];
        if is_root_text(c) {
            let root = String::from_str("/");
            proof {
                reveal_strlit("/");
            }
            assert(root@ =~= root_text());
            items.push(Crumb { label: root.clone(), id: root.clone(), clickable: true });
            current = root;
            assert(items@.map_values(|c: Crumb| (c.label@, c.id@)) =~= before + seq![(root_text(), root_text())]);
        } else if is_normal_component(c) {
            let id = join(&current, c);
            items.push(Crumb { label: c.clone(), id: id.clone(), clickable: true });
            current = id;
            assert(items@.map_values(|c: Crumb| (c.label@, c.id@)) =~= before + seq![(all[i as int], current@)]);
        }
        i = i + 1;
    }
    assert(all.subrange(n as int, n as int) =~= Seq::<Seq<char>>::empty());
    assert(items@.map_values(|c: Crumb| (c.label@, c.id@)) =~= path_trail(path@));
    let len = items.len();
    if len > 0 {
        let mut last = items.pop().unwrap();
        last.clickable = false;
        items.push(last);
    }
    items
}

} // verus!
