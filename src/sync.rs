//! Reconciliation of a display component's own path with the navigation history.
//! Each tick the canonical path is first written down into the component; after the
//! component's own update, a path that the component moved to by itself is written
//! up into the history. A displayed directory that vanished is replaced by its
//! nearest existing ancestor.
use vstd::prelude::*;
use crate::crumbs::{path_to_breadcrumb_items, path_trail, Crumb};
use crate::navigation::NavigationState;
use crate::paths::{parent, parent_of, root_text, is_root_text, texts};

verus! {

/// The reconciler of one display component. It remembers the path that the component
/// was left showing by the last write-down.
pub struct ViewSync {
    last_seen: String,
}

impl ViewSync {
    pub closed spec fn last_seen(&self) -> Seq<char> {
        self.last_seen@
    }

    pub fn new(initial: String) -> (r: ViewSync)
        ensures
            r.last_seen() == initial@,
    {
        ViewSync { last_seen: initial }
    }

    /// Before the component's own update: the path to set on the component, which is
    /// the canonical one where the two differ. Canonical writes win within a tick.
    pub fn write_down(&mut self, canonical: &String, view: &String) -> (r: Option<String>)
        ensures
            r is Some <==> canonical@ != view@,
            r is Some ==> r->0@ == canonical@,
            final(self).last_seen() == canonical@,
    {
        self.last_seen = canonical.clone();
        if *canonical != *view {
            Some(canonical.clone())
        } else {
            None
        }
    }

    /// After the component's own update: a path that differs from what the write-down
    /// left is visited in the history. Returns whether that happened.
    pub fn write_up(&mut self, nav: &mut NavigationState, view_after: &String) -> (r: bool)
        requires
            old(nav)@.wf(),
        ensures
            r == (view_after@ != old(self).last_seen()),
            r ==> final(nav)@ == old(nav)@.navigated(view_after@),
            !r ==> final(nav)@ == old(nav)@,
            final(nav)@.wf(),
            final(self).last_seen() == view_after@,
    {
        if *view_after != self.last_seen {
            nav.navigate_to(view_after.clone());
            self.last_seen = view_after.clone();
            true
        } else {
            false
        }
    }
}

/// A path, then its ancestors in turn, ending at the root or at the first path that
/// has no parent.
pub open spec fn chain(p: Seq<char>) -> Seq<Seq<char>>
    decreases p.len(),
{
    if p == root_text() {
        seq![p]
    } else {
        match parent_of(p) {
            Some(q) => if q.len() < p.len() {
                seq![p] + chain(q)
            } else {
                seq![p]
            },
            None => seq![p],
        }
    }
}

/// The candidates of a recovery walk from `path`, nearest first.
pub fn ancestor_chain(path: &String) -> (r: Vec<String>)
    ensures
        texts(r@) == chain(path@),
{
    let mut out: Vec<String> = Vec::new();
    let mut cur = path.clone();
    loop
        invariant_except_break
            texts(out@) + chain(cur@) == chain(path@),
        ensures
            texts(out@) == chain(path@),
        decreases cur@.len(),
    {
        let ghost before = texts(out@);
        out.push(cur.clone());
        assert(texts(out@) =~= before + seq![cur@]);
        if is_root_text(&cur) {
            assert(chain(cur@) == seq![cur@]);
            assert(texts(out@) =~= chain(path@));
            break;
        }
        match parent(&cur) {
            Some(q) => {
                assert(chain(cur@) == seq![cur@] + chain(q@));
                assert(texts(out@) + chain(q@) =~= before + chain(cur@));
                cur = q;
            },
            None => {
                assert(texts(out@) =~= chain(path@));
                break;
            },
        }
    }
    out
}

/// The index of the first existing candidate is `i`.
pub open spec fn first_existing_at(exists: Seq<bool>, i: int) -> bool {
    &&& 0 <= i < exists.len()
    &&& exists[i]
    &&& forall|k: int| 0 <= k < i ==> !exists[k]
}

/// Where to go from a displayed path that no longer exists: the first existing
/// candidate of its chain, where that is not the path itself. `exists` tells, for each
/// candidate, whether it exists on disk.
pub fn recovery_target(candidates: &Vec<String>, exists: &Vec<bool>) -> (r: Option<String>)
    requires
        candidates@.len() == exists@.len(),
    ensures
        match r {
            Some(t) => exists|i: int|
                0 < i && first_existing_at(exists@, i) && t@ == #[trigger] candidates@[i]@,
            None => forall|i: int| 0 < i < exists@.len() ==> !first_existing_at(exists@, i),
        },
{
    let n = candidates.len();
    let mut i: usize = 0;
    while i < n
        invariant
            n == candidates@.len() == exists@.len(),
            0 <= i <= n,
            forall|k: int| 0 <= k < i ==> !exists@[k],
        decreases n - i,
    {
        if exists[i] {
            if i == 0 {
                return None;
            }
            assert(first_existing_at(exists@, i as int));
            let t = candidates[i].clone();
            assert(t@ == candidates@[i as int]@);
            return Some(t);
        }
        i = i + 1;
    }
    None
}

/// Recovers from a vanished displayed path: visits the target of `recovery_target` in
/// the history and returns it, to be set on the component.
pub fn recover(nav: &mut NavigationState, candidates: &Vec<String>, exists: &Vec<bool>) -> (r: Option<String>)
    requires
        old(nav)@.wf(),
        candidates@.len() == exists@.len(),
    ensures
        final(nav)@.wf(),
        match r {
            Some(t) => final(nav)@ == old(nav)@.navigated(t@) && exists|i: int|
                0 < i && first_existing_at(exists@, i) && t@ == #[trigger] candidates@[i]@,
            None => final(nav)@ == old(nav)@ && forall|i: int|
                0 < i < exists@.len() ==> !first_existing_at(exists@, i),
        },
{
    let target = recovery_target(candidates, exists);
    match target {
        Some(t) => {
            nav.navigate_to(t.clone());
            Some(t)
        },
        None => None,
    }
}

/// What the location bar shows for a path: its breadcrumbs and its text.
#[derive(Clone, Debug, PartialEq, Eq)]
pub struct LocationView {
    pub crumbs: Vec<Crumb>,
    pub text: String,
}

/// Keeps the location bar in step with the canonical path. The text field is
/// rewritten only when the canonical path changes, so typing is not overwritten.
pub struct LocationSync {
    last_synced: String,
}

impl LocationSync {
    pub closed spec fn last_synced(&self) -> Seq<char> {
        self.last_synced@
    }

    pub fn new(initial: String) -> (r: LocationSync)
        ensures
            r.last_synced() == initial@,
    {
        LocationSync { last_synced: initial }
    }

    /// What to show when the canonical path has changed since the last sync.
    pub fn sync(&mut self, canonical: &String) -> (r: Option<LocationView>)
        ensures
            r is Some <==> canonical@ != old(self).last_synced(),
            final(self).last_synced() == canonical@,
            r matches Some(v) ==> v.text@ == canonical@ && v.crumbs@.len() == path_trail(canonical@).len()
                && forall|i: int|
                0 <= i < v.crumbs@.len() ==> (#[trigger] v.crumbs@[i]).label@ == path_trail(canonical@)[i].0
                    && v.crumbs@[i].id@ == path_trail(canonical@)[i].1 && v.crumbs@[i].clickable == (i
                    < v.crumbs@.len() - 1),
    {
        if *canonical != self.last_synced {
            self.last_synced = canonical.clone();
            Some(LocationView { crumbs: path_to_breadcrumb_items(canonical), text: canonical.clone() })
        } else {
            None
        }
    }
}

} // verus!
