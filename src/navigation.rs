use vstd::prelude::*;
use crate::paths::{parent, parent_of};

verus! {

/// A reactive cell that holds the current path. `written` records that the value
/// was set since the last time a consumer took notice of it.
pub struct PathSignal {
    value: String,
    written: bool,
}

impl PathSignal {
    pub closed spec fn value(&self) -> Seq<char> {
        self.value@
    }

    pub closed spec fn written(&self) -> bool {
        self.written
    }

    pub fn new(value: String) -> (r: PathSignal)
        ensures
            r.value() == value@,
            !r.written(),
    {
        PathSignal { value, written: false }
    }

    pub fn get(&self) -> (r: &String)
        ensures
            r@ == self.value(),
    {
        &self.value
    }

    pub fn set_value(&mut self, value: String)
        ensures
            final(self).value() == value@,
            final(self).written(),
    {
        self.value = value;
        self.written = true;
    }

    /// Reports whether the value was written since the last call, and clears the mark.
    pub fn take_written(&mut self) -> (r: bool)
        ensures
            r == old(self).written(),
            !final(self).written(),
            final(self).value() == old(self).value(),
    {
        let r = self.written;
        self.written = false;
        r
    }
}

/// The mathematical state of a navigation history.
pub struct HistoryModel {
    pub stack: Seq<Seq<char>>,
    pub position: int,
    /// What the canonical path signal holds.
    pub shown: Seq<char>,
    /// Whether the signal was written and nobody has taken notice yet.
    pub written: bool,
}

impl HistoryModel {
    /// The stack is non-empty, the position lies in it, no two neighbours are equal,
    /// and the signal shows the entry at the position.
    pub open spec fn wf(self) -> bool {
        &&& self.stack.len() > 0
        &&& 0 <= self.position < self.stack.len()
        &&& forall|i: int, j: int|
            0 <= i && j == i + 1 && j < self.stack.len() ==> #[trigger] self.stack[i]
                != #[trigger] self.stack[j]
        &&& self.shown == self.stack[self.position]
    }

    pub open spec fn current(self) -> Seq<char> {
        self.stack[self.position]
    }

    pub open spec fn can_go_back(self) -> bool {
        self.position > 0
    }

    pub open spec fn can_go_forward(self) -> bool {
        self.position < self.stack.len() - 1
    }

    pub open spec fn initial(path: Seq<char>) -> HistoryModel {
        HistoryModel { stack: seq![path], position: 0, shown: path, written: false }
    }

    /// Visiting `path`: nothing changes when it is the current entry; otherwise the
    /// entries after the position are dropped and `path` becomes the last one.
    pub open spec fn navigated(self, path: Seq<char>) -> HistoryModel {
        if path == self.current() {
            self
        } else {
            HistoryModel {
                stack: self.stack.take(self.position + 1).push(path),
                position: self.position + 1,
                shown: path,
                written: true,
            }
        }
    }

    pub open spec fn backed(self) -> HistoryModel {
        if self.can_go_back() {
            HistoryModel {
                position: self.position - 1,
                shown: self.stack[self.position - 1],
                written: true,
                ..self
            }
        } else {
            self
        }
    }

    pub open spec fn forwarded(self) -> HistoryModel {
        if self.can_go_forward() {
            HistoryModel {
                position: self.position + 1,
                shown: self.stack[self.position + 1],
                written: true,
                ..self
            }
        } else {
            self
        }
    }

    /// Visiting each path of `paths` in turn.
    pub open spec fn navigated_all(self, paths: Seq<Seq<char>>) -> HistoryModel
        decreases paths.len(),
    {
        if paths.len() == 0 {
            self
        } else {
            self.navigated(paths[0]).navigated_all(paths.drop_first())
        }
    }
}

/// The back/forward history of visited locations and the cursor into it: the single
/// source of truth for the current location.
pub struct NavigationState {
    path_history: Vec<String>,
    history_position: usize,
    current_path: PathSignal,
}

impl View for NavigationState {
    type V = HistoryModel;

    closed spec fn view(&self) -> HistoryModel {
        HistoryModel {
            stack: self.path_history@.map_values(|p: String| p@),
            position: self.history_position as int,
            shown: self.current_path.value(),
            written: self.current_path.written(),
        }
    }
}

impl NavigationState {
    pub fn new(initial_path: String) -> (r: NavigationState)
        ensures
            r@ == HistoryModel::initial(initial_path@),
            r@.wf(),
    {
        let current_path = PathSignal::new(initial_path.clone());
        let mut path_history: Vec<String> = Vec::new();
        path_history.push(initial_path);
        let r = NavigationState { path_history, history_position: 0, current_path };
        assert(r@.stack =~= seq![initial_path@]);
        r
    }

    /// The canonical path signal.
    pub fn current_path(&self) -> (r: &PathSignal)
        ensures
            r.value() == self@.shown,
            r.written() == self@.written,
    {
        &self.current_path
    }

    /// Reports whether the canonical signal was written since the last call, and
    /// clears the mark.
    pub fn take_signal_write(&mut self) -> (r: bool)
        ensures
            r == old(self)@.written,
            final(self)@ == (HistoryModel { written: false, ..old(self)@ }),
    {
        self.current_path.take_written()
    }

    pub fn navigate_to(&mut self, path: String)
        requires
            old(self)@.wf(),
        ensures
            final(self)@ == old(self)@.navigated(path@),
            final(self)@.wf(),
    {
        let ghost old_stack = self@.stack;
        assert(self@.stack.len() == self.path_history.len());
        let pos = self.history_position;
        if self.path_history[pos] != path {
            self.path_history.truncate(pos + 1);
            self.path_history.push(path.clone());
            self.history_position = pos + 1;
            self.current_path.set_value(path);
            assert(self@.stack =~= old_stack.take(pos + 1).push(path@));
        }
    }

    pub fn go_back(&mut self) -> (r: Option<String>)
        requires
            old(self)@.wf(),
        ensures
            final(self)@ == old(self)@.backed(),
            final(self)@.wf(),
            r is Some <==> old(self)@.can_go_back(),
            r is Some ==> r->0@ == final(self)@.current(),
    {
        if self.can_go_back() {
            self.history_position = self.history_position - 1;
            let path = self.path_history[self.history_position].clone();
            self.current_path.set_value(path.clone());
            Some(path)
        } else {
            None
        }
    }

    pub fn go_forward(&mut self) -> (r: Option<String>)
        requires
            old(self)@.wf(),
        ensures
            final(self)@ == old(self)@.forwarded(),
            final(self)@.wf(),
            r is Some <==> old(self)@.can_go_forward(),
            r is Some ==> r->0@ == final(self)@.current(),
    {
        assert(self@.stack.len() == self.path_history.len());
        if self.can_go_forward() {
            self.history_position = self.history_position + 1;
            let path = self.path_history[self.history_position].clone();
            self.current_path.set_value(path.clone());
            Some(path)
        } else {
            None
        }
    }

    pub fn can_go_back(&self) -> (r: bool)
        requires
            self@.wf(),
        ensures
            r == self@.can_go_back(),
    {
        self.history_position > 0
    }

    pub fn can_go_forward(&self) -> (r: bool)
        requires
            self@.wf(),
        ensures
            r == self@.can_go_forward(),
    {
        self.history_position < self.path_history.len() - 1
    }

    pub fn get_current_path(&self) -> (r: String)
        requires
            self@.wf(),
        ensures
            r@ == self@.current(),
    {
        self.path_history[self.history_position].clone()
    }

    /// The parent of the current entry; none at the root.
    pub fn parent_path(&self) -> (r: Option<String>)
        requires
            self@.wf(),
        ensures
            match r {
                Some(q) => parent_of(self@.current()) == Some(q@),
                None => parent_of(self@.current()) is None,
            },
    {
        parent(&self.path_history[self.history_position])
    }
}

/// A navigation request of the toolbar or the location bar.
#[derive(Clone, Debug, PartialEq, Eq)]
pub enum NavigationAction {
    Back,
    Forward,
    Up,
    Home,
    NavigateTo(String),
}

/// The home location: the given home directory, else `/home`.
pub open spec fn home_or_default(home: Option<Seq<char>>) -> Seq<char> {
    match home {
        Some(h) => h,
        None => "/home"@,
    }
}

/// Applies a navigation request; `home` is the user's home directory where one is
/// known. Returns whether the history was asked to move: back or forward when that
/// is possible, up when there is a parent, home and explicit targets always.
pub fn apply_navigation_action(
    nav: &mut NavigationState,
    action: NavigationAction,
    home: Option<String>,
) -> (r: bool)
    requires
        old(nav)@.wf(),
    ensures
        final(nav)@.wf(),
        match action {
            NavigationAction::Back => final(nav)@ == old(nav)@.backed() && r == old(nav)@.can_go_back(),
            NavigationAction::Forward => final(nav)@ == old(nav)@.forwarded() && r
                == old(nav)@.can_go_forward(),
            NavigationAction::Up => match parent_of(old(nav)@.current()) {
                Some(q) => final(nav)@ == old(nav)@.navigated(q) && r,
                None => final(nav)@ == old(nav)@ && !r,
            },
            NavigationAction::Home => final(nav)@ == old(nav)@.navigated(
                home_or_default(
                    match home {
                        Some(h) => Some(h@),
                        None => None,
                    },
                ),
            ) && r,
            NavigationAction::NavigateTo(p) => final(nav)@ == old(nav)@.navigated(p@) && r,
        },
{
    match action {
        NavigationAction::Back => nav.go_back().is_some(),
        NavigationAction::Forward => nav.go_forward().is_some(),
        NavigationAction::Up => match nav.parent_path() {
            Some(q) => {
                nav.navigate_to(q);
                true
            },
            None => false,
        },
        NavigationAction::Home => {
            let target = match home {
                Some(h) => h,
                None => String::from_str("/home"),
            };
            nav.navigate_to(target);
            true
        },
        NavigationAction::NavigateTo(p) => {
            nav.navigate_to(p);
            true
        },
    }
}

/// Visiting a path keeps a well-formed history well-formed.
pub proof fn lemma_navigated_wf(h: HistoryModel, path: Seq<char>)
    requires
        h.wf(),
    ensures
        h.navigated(path).wf(),
{
    if path != h.current() {
        let g = h.navigated(path);
        assert forall|i: int, j: int|
            0 <= i && j == i + 1 && j < g.stack.len() implies #[trigger] g.stack[i]
            != #[trigger] g.stack[j] by {
            if j < g.stack.len() - 1 {
                assert(g.stack[i] == h.stack[i] && g.stack[j] == h.stack[j]);
            } else {
                assert(g.stack[i] == h.stack[h.position]);
            }
        }
    }
}

/// Whatever paths are visited, one after another, the history never holds two equal
/// neighbouring entries and its position stays within the stack.
pub proof fn lemma_navigation_sequence_wf(h: HistoryModel, paths: Seq<Seq<char>>)
    requires
        h.wf(),
    ensures
        h.navigated_all(paths).wf(),
        0 <= h.navigated_all(paths).position < h.navigated_all(paths).stack.len(),
    decreases paths.len(),
{
    if paths.len() > 0 {
        lemma_navigated_wf(h, paths[0]);
        lemma_navigation_sequence_wf(h.navigated(paths[0]), paths.drop_first());
    }
}

/// Going back and then forward returns to the same entry of the same stack; only the
/// signal's write mark differs.
pub proof fn lemma_back_then_forward(h: HistoryModel)
    requires
        h.wf(),
        h.can_go_back(),
    ensures
        h.backed().forwarded().current() == h.current(),
        h.backed().forwarded() == (HistoryModel { written: true, ..h }),
{
}

/// Going forward and then back returns to the same entry of the same stack.
pub proof fn lemma_forward_then_back(h: HistoryModel)
    requires
        h.wf(),
        h.can_go_forward(),
    ensures
        h.forwarded().backed().current() == h.current(),
        h.forwarded().backed() == (HistoryModel { written: true, ..h }),
{
}

/// Once the start of the history is reached, going back changes nothing, however often
/// it is repeated; the same holds of going forward at the end.
pub proof fn lemma_exhausted_moves_change_nothing(h: HistoryModel)
    requires
        h.wf(),
    ensures
        !h.can_go_back() ==> h.backed() == h && h.backed().backed() == h,
        !h.can_go_forward() ==> h.forwarded() == h && h.forwarded().forwarded() == h,
{
}

/// Visiting a new path after going back drops every entry that lay ahead, so nothing
/// is left to go forward to.
pub proof fn lemma_navigate_after_back_truncates(h: HistoryModel, path: Seq<char>)
    requires
        h.wf(),
        h.can_go_back(),
        path != h.backed().current(),
    ensures
        h.backed().navigated(path).stack == h.stack.take(h.position).push(path),
        h.backed().navigated(path).position == h.position,
        h.backed().navigated(path).current() == path,
        !h.backed().navigated(path).can_go_forward(),
{
    assert(h.stack.take(h.position - 1 + 1) == h.stack.take(h.position));
}

} // verus!
