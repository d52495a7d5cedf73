//! Browser-style navigation history: a non-empty list of visited paths and a
//! cursor into it. Visiting after going back discards the forward branch.

use vstd::prelude::*;

verus! {

/// Mathematical model of a history: the visited paths and the cursor.
pub struct HistoryView {
    pub paths: Seq<Seq<char>>,
    pub cursor: int,
}

/// One navigation step on a history.
pub enum HistoryOp {
    Visit(Seq<char>),
    Back,
    Forward,
}

impl HistoryView {
    /// The cursor is a valid index, so `paths` is not empty.
    pub open spec fn wf(self) -> bool {
        0 <= self.cursor < self.paths.len()
    }

    /// The history of a fresh session.
    pub open spec fn seeded(seed: Seq<char>) -> HistoryView {
        HistoryView { paths: seq![seed], cursor: 0 }
    }

    pub open spec fn current(self) -> Seq<char> {
        self.paths[self.cursor]
    }

    pub open spec fn can_back(self) -> bool {
        self.cursor > 0
    }

    pub open spec fn can_forward(self) -> bool {
        self.cursor + 1 < self.paths.len()
    }

    /// One step towards the seed, or the same history at the first entry.
    pub open spec fn back(self) -> HistoryView {
        if self.can_back() {
            HistoryView { paths: self.paths, cursor: self.cursor - 1 }
        } else {
            self
        }
    }

    /// One step away from the seed, or the same history at the last entry.
    pub open spec fn forward(self) -> HistoryView {
        if self.can_forward() {
            HistoryView { paths: self.paths, cursor: self.cursor + 1 }
        } else {
            self
        }
    }

    /// Drops everything after the cursor, appends `path`, and moves the
    /// cursor onto it.
    pub open spec fn visit(self, path: Seq<char>) -> HistoryView {
        HistoryView { paths: self.paths.take(self.cursor + 1).push(path), cursor: self.cursor + 1 }
    }

    pub open spec fn apply(self, op: HistoryOp) -> HistoryView {
        match op {
            HistoryOp::Visit(path) => self.visit(path),
            HistoryOp::Back => self.back(),
            HistoryOp::Forward => self.forward(),
        }
    }

    /// The history after the steps `ops`, taken from left to right.
    pub open spec fn run(self, ops: Seq<HistoryOp>) -> HistoryView
        decreases ops.len(),
    {
        if ops.len() == 0 {
            self
        } else {
            self.run(ops.drop_last()).apply(ops.last())
        }
    }
}

/// The directory a session starts in.
pub open spec fn init_path() -> Seq<char> {
    "/Users/ksh2ksk4/Downloads"@
}

#[derive(Clone, Debug, PartialEq)]
pub struct NavigationHistory {
    index: usize,
    paths: Vec<String>,
}

impl View for NavigationHistory {
    type V = HistoryView;

    closed spec fn view(&self) -> HistoryView {
        HistoryView { paths: self.paths@.map_values(|p: String| p@), cursor: self.index as int }
    }
}

impl NavigationHistory {
    /// A history seeded with the initial directory.
    pub fn new() -> (h: Self)
        ensures
            h@ == HistoryView::seeded(init_path()),
            h@.wf(),
    {
        Self::with_seed("/Users/ksh2ksk4/Downloads")
    }

    /// A history whose only entry is `seed`.
    pub fn with_seed(seed: &str) -> (h: Self)
        ensures
            h@ == HistoryView::seeded(seed@),
            h@.wf(),
    {
        let mut paths: Vec<String> = Vec::new();
        paths.push(seed.to_string());
        let h = NavigationHistory { index: 0, paths };
        assert(h@.paths =~= seq![seed@]);
        h
    }

    pub fn can_back(&self) -> (b: bool)
        requires
            self@.wf(),
        ensures
            b == self@.can_back(),
    {
        self.index > 0
    }

    pub fn can_forward(&self) -> (b: bool)
        requires
            self@.wf(),
        ensures
            b == self@.can_forward(),
    {
        let n: usize = self.paths.len();
        self.index + 1 < n
    }

    /// The path under the cursor.
    pub fn current(&self) -> (p: &str)
        requires
            self@.wf(),
        ensures
            p@ == self@.current(),
    {
        self.paths[self.index].as_str()
    }

    /// How many paths the history holds.
    pub fn len(&self) -> (n: usize)
        ensures
            n == self@.paths.len(),
    {
        self.paths.len()
    }

    /// The cursor's index.
    pub fn position(&self) -> (i: usize)
        ensures
            i == self@.cursor,
    {
        self.index
    }

    /// The path at index `i`.
    pub fn path_at(&self, i: usize) -> (p: Option<&str>)
        ensures
            i < self@.paths.len() ==> p.is_some() && p.unwrap()@ == self@.paths[i as int],
            i >= self@.paths.len() ==> p.is_none(),
    {
        if i < self.paths.len() {
            Some(self.paths[i].as_str())
        } else {
            None
        }
    }

    /// The path that a step back would lead to: the current one at the
    /// first entry.
    pub fn peek_back(&self) -> (p: &str)
        requires
            self@.wf(),
        ensures
            p@ == self@.back().current(),
    {
        if self.index > 0 {
            self.paths[self.index - 1].as_str()
        } else {
            self.paths[self.index].as_str()
        }
    }

    /// The path that a step forward would lead to: the current one at the
    /// last entry.
    pub fn peek_forward(&self) -> (p: &str)
        requires
            self@.wf(),
        ensures
            p@ == self@.forward().current(),
    {
        let n: usize = self.paths.len();
        if self.index + 1 < n {
            self.paths[self.index + 1].as_str()
        } else {
            self.paths[self.index].as_str()
        }
    }

    /// Moves the cursor one entry back and returns the path now under it.
    /// At the first entry nothing changes and nothing is returned.
    pub fn back(&mut self) -> (r: Option<String>)
        requires
            old(self)@.wf(),
        ensures
            final(self)@ == old(self)@.back(),
            final(self)@.wf(),
            r.is_some() == old(self)@.can_back(),
            r.is_some() ==> r.unwrap()@ == final(self)@.current(),
            r.is_none() ==> final(self)@ == old(self)@,
    {
        if !self.can_back() {
            None
        } else {
            self.index -= 1;
            Some(self.current().to_string())
        }
    }

    /// Moves the cursor one entry forward and returns the path now under
    /// it. At the last entry nothing changes and nothing is returned.
    pub fn forward(&mut self) -> (r: Option<String>)
        requires
            old(self)@.wf(),
        ensures
            final(self)@ == old(self)@.forward(),
            final(self)@.wf(),
            r.is_some() == old(self)@.can_forward(),
            r.is_some() ==> r.unwrap()@ == final(self)@.current(),
            r.is_none() ==> final(self)@ == old(self)@,
    {
        let n: usize = self.paths.len();
        if self.index + 1 >= n {
            None
        } else {
            self.index = self.index + 1;
            Some(self.current().to_string())
        }
    }

    /// Records a visit to `path`: the entries after the cursor are
    /// discarded, `path` is appended and the cursor moves onto it.
    pub fn push(&mut self, path: &str)
        requires
            old(self)@.wf(),
        ensures
            final(self)@ == old(self)@.visit(path@),
            final(self)@.wf(),
    {
        let n: usize = self.paths.len();
        if self.index + 1 < n {
            self.paths.truncate(self.index + 1);
        }
        self.paths.push(path.to_string());
        self.index = self.paths.len() - 1;
        assert(self@.paths =~= old(self)@.visit(path@).paths);
    }

    /// Visits `path` and returns the path now under the cursor.
    pub fn visit(&mut self, path: &str) -> (r: String)
        requires
            old(self)@.wf(),
        ensures
            final(self)@ == old(self)@.visit(path@),
            final(self)@.wf(),
            r@ == path@,
    {
        self.push(path);
        self.current().to_string()
    }
}

/// Every step keeps the cursor a valid index, so no sequence of steps can
/// leave the history empty or the cursor out of range.
pub proof fn lemma_run_preserves_wf(h: HistoryView, ops: Seq<HistoryOp>)
    requires
        h.wf(),
    ensures
        h.run(ops).wf(),
    decreases ops.len(),
{
    if ops.len() > 0 {
        lemma_run_preserves_wf(h, ops.drop_last());
    }
}

/// Going back at the first entry, and forward at the last, changes nothing.
pub proof fn lemma_boundary_steps_change_nothing(h: HistoryView)
    requires
        h.wf(),
    ensures
        h.cursor == 0 ==> h.back() == h,
        h.cursor == h.paths.len() - 1 ==> h.forward() == h,
{
}

/// A visit keeps the entries up to the cursor, puts the new path right
/// after them and drops every later entry.
pub proof fn lemma_visit_truncates_branch(h: HistoryView, path: Seq<char>)
    requires
        h.wf(),
    ensures
        h.visit(path).paths.len() == h.cursor + 2,
        h.visit(path).cursor == h.cursor + 1,
        h.visit(path).current() == path,
        !h.visit(path).can_forward(),
        forall|i: int| 0 <= i <= h.cursor ==> h.visit(path).paths[i] == h.paths[i],
{
}

/// Visiting the path already under the cursor is an ordinary visit: the
/// path then stands twice in a row, and one step back leads to the entry
/// the visit started from.
pub proof fn lemma_revisit_appends_duplicate(h: HistoryView)
    requires
        h.wf(),
    ensures
        h.visit(h.current()).wf(),
        h.visit(h.current()).paths.len() == h.cursor + 2,
        h.visit(h.current()).paths[h.cursor] == h.current(),
        h.visit(h.current()).paths[h.cursor + 1] == h.current(),
        h.visit(h.current()).back().cursor == h.cursor,
{
}

} // verus!
