//! The browser controller: it turns user actions into listing requests and
//! publishes a listing together with the history step that asked for it.
//!
//! A request carries a ticket. Only the completion of the latest request is
//! published; completions of earlier requests are ignored. A listing and
//! its history step are committed together, so the published entries always
//! belong to the path under the history cursor. A failed listing commits no
//! history step: its error is kept beside the unchanged listing.

use vstd::prelude::*;
use crate::history::{HistoryView, NavigationHistory};
use crate::listing::{DirectoryEntry, EntryView, ListError, ListErrorView};

verus! {

/// A user action that may ask for a listing.
#[derive(Clone, Debug, PartialEq, Eq)]
pub enum Trigger {
    /// Show the directory under the cursor, as at the start of a session.
    Load,
    Back,
    Forward,
    /// A click on the entry at `path`.
    Open { path: String, is_dir: bool },
    /// The answer of the folder picker: nothing when it was dismissed.
    Pick { folder: Option<String> },
}

/// The history step that a request commits once its listing arrived.
pub enum Move {
    Stay,
    Back,
    Forward,
    Visit(Seq<char>),
}

#[derive(Debug)]
enum Step {
    Stay,
    Back,
    Forward,
    Visit(String),
}

impl View for Step {
    type V = Move;

    closed spec fn view(&self) -> Move {
        match *self {
            Step::Stay => Move::Stay,
            Step::Back => Move::Back,
            Step::Forward => Move::Forward,
            Step::Visit(path) => Move::Visit(path@),
        }
    }
}

#[derive(Debug)]
struct Pending {
    ticket: u64,
    step: Step,
    path: String,
}

/// A listing to fetch: `path`, and the ticket to hand back with the result.
#[derive(Clone, Debug, PartialEq, Eq)]
pub struct ListRequest {
    pub ticket: u64,
    pub path: String,
}

pub struct PendingView {
    pub ticket: u64,
    pub intent: Move,
    /// The path whose listing is awaited.
    pub path: Seq<char>,
}

/// What can happen to a session: the user acts, or a listing arrives.
pub enum Event {
    Action(Trigger),
    Arrival { ticket: u64, outcome: Result<Seq<EntryView>, ListErrorView> },
}

/// Mathematical model of a browser session.
pub struct BrowserView {
    pub history: HistoryView,
    /// The path whose listing is published; none before the first listing.
    pub listed: Option<Seq<char>>,
    /// The published listing.
    pub entries: Seq<EntryView>,
    /// The failure of the latest completed request, if it failed.
    pub error: Option<ListErrorView>,
    pub next_ticket: u64,
    /// The latest request, while its listing is awaited.
    pub pending: Option<PendingView>,
}

/// The step that a trigger asks for; none for a click on something that is
/// no directory and for a dismissed folder picker.
pub open spec fn requested(trigger: Trigger) -> Option<Move> {
    match trigger {
        Trigger::Load => Some(Move::Stay),
        Trigger::Back => Some(Move::Back),
        Trigger::Forward => Some(Move::Forward),
        Trigger::Open { path, is_dir } => if is_dir {
            Some(Move::Visit(path@))
        } else {
            None
        },
        Trigger::Pick { folder } => match folder {
            Some(path) => Some(Move::Visit(path@)),
            None => None,
        },
    }
}

/// The history after a step. Back and forward at a boundary stay put.
pub open spec fn moved(h: HistoryView, m: Move) -> HistoryView {
    match m {
        Move::Stay => h,
        Move::Back => h.back(),
        Move::Forward => h.forward(),
        Move::Visit(path) => h.visit(path),
    }
}

/// Tickets count up and start over after the largest.
pub open spec fn ticket_after(t: u64) -> u64 {
    if t == u64::MAX {
        0
    } else {
        (t + 1) as u64
    }
}

pub open spec fn entry_views(entries: Seq<DirectoryEntry>) -> Seq<EntryView> {
    entries.map_values(|e: DirectoryEntry| e@)
}

pub open spec fn outcome_view(outcome: Result<Vec<DirectoryEntry>, ListError>) -> Result<
    Seq<EntryView>,
    ListErrorView,
> {
    match outcome {
        Ok(entries) => Ok(entry_views(entries@)),
        Err(e) => Err(e@),
    }
}

impl BrowserView {
    /// The history is valid, what is published was listed for the path
    /// under the cursor, and what is awaited is the listing of the path
    /// that its step leads to.
    pub open spec fn wf(self) -> bool {
        &&& self.history.wf()
        &&& match self.listed {
            Some(path) => path == self.history.current(),
            None => self.entries.len() == 0,
        }
        &&& match self.pending {
            Some(p) => p.path == moved(self.history, p.intent).current(),
            None => true,
        }
    }

    /// A fresh session: nothing listed yet, nothing awaited.
    pub open spec fn start(seed: Seq<char>) -> BrowserView {
        BrowserView {
            history: HistoryView::seeded(seed),
            listed: None,
            entries: Seq::empty(),
            error: None,
            next_ticket: 0,
            pending: None,
        }
    }

    /// The path shown as the current one.
    pub open spec fn current_path(self) -> Seq<char> {
        self.history.current()
    }

    /// The path that a trigger asks to list, if it asks for anything.
    pub open spec fn target(self, trigger: Trigger) -> Option<Seq<char>> {
        match requested(trigger) {
            Some(m) => Some(moved(self.history, m).current()),
            None => None,
        }
    }

    /// The session after a trigger: a new latest request, or no change.
    /// History and listing stay as they are until the listing arrives.
    pub open spec fn navigate(self, trigger: Trigger) -> BrowserView {
        match requested(trigger) {
            Some(m) => BrowserView {
                history: self.history,
                listed: self.listed,
                entries: self.entries,
                error: self.error,
                next_ticket: ticket_after(self.next_ticket),
                pending: Some(
                    PendingView {
                        ticket: self.next_ticket,
                        intent: m,
                        path: moved(self.history, m).current(),
                    },
                ),
            },
            None => self,
        }
    }

    /// Whether a completion with `ticket` belongs to the latest request.
    pub open spec fn awaits(self, ticket: u64) -> bool {
        self.pending matches Some(p) && p.ticket == ticket
    }

    /// The session after the listing for `ticket` arrived. For the latest
    /// request, a listing is published together with its history step, and
    /// a failure is recorded beside the unchanged listing. Anything else
    /// changes nothing.
    pub open spec fn complete(
        self,
        ticket: u64,
        outcome: Result<Seq<EntryView>, ListErrorView>,
    ) -> BrowserView {
        if self.awaits(ticket) {
            match outcome {
                Ok(entries) => BrowserView {
                    history: moved(self.history, self.pending.unwrap().intent),
                    listed: Some(self.pending.unwrap().path),
                    entries,
                    error: None,
                    next_ticket: self.next_ticket,
                    pending: None,
                },
                Err(e) => BrowserView {
                    history: self.history,
                    listed: self.listed,
                    entries: self.entries,
                    error: Some(e),
                    next_ticket: self.next_ticket,
                    pending: None,
                },
            }
        } else {
            self
        }
    }

    pub open spec fn step(self, event: Event) -> BrowserView {
        match event {
            Event::Action(trigger) => self.navigate(trigger),
            Event::Arrival { ticket, outcome } => self.complete(ticket, outcome),
        }
    }

    /// The session after `events`, taken from left to right.
    pub open spec fn run(self, events: Seq<Event>) -> BrowserView
        decreases events.len(),
    {
        if events.len() == 0 {
            self
        } else {
            self.run(events.drop_last()).step(events.last())
        }
    }
}

#[derive(Debug)]
pub struct Browser {
    history: NavigationHistory,
    listed: Option<String>,
    entries: Vec<DirectoryEntry>,
    error: Option<ListError>,
    next_ticket: u64,
    pending: Option<Pending>,
}

impl View for Browser {
    type V = BrowserView;

    closed spec fn view(&self) -> BrowserView {
        BrowserView {
            history: self.history@,
            listed: match self.listed {
                Some(path) => Some(path@),
                None => None,
            },
            entries: entry_views(self.entries@),
            error: match self.error {
                Some(e) => Some(e@),
                None => None,
            },
            next_ticket: self.next_ticket,
            pending: match self.pending {
                Some(p) => Some(PendingView { ticket: p.ticket, intent: p.step@, path: p.path@ }),
                None => None,
            },
        }
    }
}

impl Browser {
    /// A session that starts in the initial directory.
    pub fn new() -> (b: Self)
        ensures
            b@ == BrowserView::start(crate::history::init_path()),
            b@.wf(),
    {
        let b = Browser {
            history: NavigationHistory::new(),
            listed: None,
            entries: Vec::new(),
            error: None,
            next_ticket: 0,
            pending: None,
        };
        assert(b@.entries =~= Seq::empty());
        b
    }

    /// A session that starts in `seed`.
    pub fn with_seed(seed: &str) -> (b: Self)
        ensures
            b@ == BrowserView::start(seed@),
            b@.wf(),
    {
        let b = Browser {
            history: NavigationHistory::with_seed(seed),
            listed: None,
            entries: Vec::new(),
            error: None,
            next_ticket: 0,
            pending: None,
        };
        assert(b@.entries =~= Seq::empty());
        b
    }

    /// The path under the history cursor, which the published entries
    /// belong to.
    pub fn current_path(&self) -> (p: &str)
        requires
            self@.wf(),
        ensures
            p@ == self@.current_path(),
    {
        self.history.current()
    }

    /// The path that the published entries were listed for; none before
    /// the first listing. It is the path under the history cursor.
    pub fn listed_path(&self) -> (p: Option<&str>)
        requires
            self@.wf(),
        ensures
            match p {
                Some(path) => self@.listed == Some(path@) && path@ == self@.current_path(),
                None => self@.listed.is_none() && self@.entries.len() == 0,
            },
    {
        match &self.listed {
            Some(path) => Some(path.as_str()),
            None => None,
        }
    }

    /// The published entries, in the order in which they were listed.
    pub fn entries(&self) -> (es: &Vec<DirectoryEntry>)
        ensures
            entry_views(es@) == self@.entries,
    {
        &self.entries
    }

    /// The failure of the latest completed request, if it failed.
    pub fn error(&self) -> (e: Option<&ListError>)
        ensures
            match e {
                Some(err) => self@.error == Some(err@),
                None => self@.error.is_none(),
            },
    {
        self.error.as_ref()
    }

    pub fn history(&self) -> (h: &NavigationHistory)
        ensures
            h@ == self@.history,
    {
        &self.history
    }

    /// Whether a completion with `ticket` would be taken.
    pub fn awaits(&self, ticket: u64) -> (b: bool)
        ensures
            b == self@.awaits(ticket),
    {
        match &self.pending {
            Some(p) => p.ticket == ticket,
            None => false,
        }
    }

    /// Takes a user action. Where the action asks for a listing, the
    /// result is the request to fetch, which is now the latest; a click on
    /// something that is no directory and a dismissed folder picker give
    /// nothing and change nothing.
    pub fn navigate(&mut self, trigger: Trigger) -> (r: Option<ListRequest>)
        requires
            old(self)@.wf(),
        ensures
            final(self)@ == old(self)@.navigate(trigger),
            final(self)@.wf(),
            match r {
                Some(request) => {
                    &&& old(self)@.target(trigger) == Some(request.path@)
                    &&& request.ticket == old(self)@.next_ticket
                    &&& final(self)@.awaits(request.ticket)
                },
                None => old(self)@.target(trigger).is_none() && final(self)@ == old(self)@,
            },
    {
        let step = match trigger {
            Trigger::Load => Step::Stay,
            Trigger::Back => Step::Back,
            Trigger::Forward => Step::Forward,
            Trigger::Open { path, is_dir } => {
                if !is_dir {
                    return None;
                }
                Step::Visit(path)
            },
            Trigger::Pick { folder } => match folder {
                Some(path) => Step::Visit(path),
                None => {
                    return None;
                },
            },
        };
        let path: String = match &step {
            Step::Stay => self.history.current().to_string(),
            Step::Back => self.history.peek_back().to_string(),
            Step::Forward => self.history.peek_forward().to_string(),
            Step::Visit(path) => path.clone(),
        };
        let ticket: u64 = self.next_ticket;
        self.next_ticket = if ticket == u64::MAX {
            0
        } else {
            ticket + 1
        };
        self.pending = Some(Pending { ticket, step, path: path.clone() });
        Some(ListRequest { ticket, path })
    }

    /// Takes the result of the listing that was requested under `ticket`.
    /// Returns whether it belonged to the latest request and so changed
    /// what is published.
    pub fn complete(&mut self, ticket: u64, outcome: Result<Vec<DirectoryEntry>, ListError>) -> (taken:
        bool)
        requires
            old(self)@.wf(),
        ensures
            final(self)@ == old(self)@.complete(ticket, outcome_view(outcome)),
            final(self)@.wf(),
            taken == old(self)@.awaits(ticket),
    {
        if !self.awaits(ticket) {
            return false;
        }
        let mut pending: Option<Pending> = None;
        core::mem::swap(&mut self.pending, &mut pending);
        match outcome {
            Ok(entries) => {
                if let Some(Pending { step, path, .. }) = pending {
                    match step {
                        Step::Stay => {},
                        Step::Back => {
                            self.history.back();
                        },
                        Step::Forward => {
                            self.history.forward();
                        },
                        Step::Visit(to) => {
                            self.history.push(to.as_str());
                        },
                    }
                    self.listed = Some(path);
                }
                self.entries = entries;
                self.error = None;
            },
            Err(e) => {
                self.error = Some(e);
            },
        }
        true
    }
}

/// Through every sequence of user actions and arriving listings, in any
/// order and with any tickets, what is published stays the listing of the
/// path under the history cursor.
pub proof fn lemma_run_keeps_listing_in_step(b: BrowserView, events: Seq<Event>)
    requires
        b.wf(),
    ensures
        b.run(events).wf(),
        b.run(events).listed matches Some(path) ==> path == b.run(events).current_path(),
    decreases events.len(),
{
    if events.len() > 0 {
        lemma_run_keeps_listing_in_step(b, events.drop_last());
    }
}

/// A listing that arrives for the latest request is published together
/// with the step to the path it was fetched for; a failure leaves history,
/// path and entries as they were and is recorded beside them.
pub proof fn lemma_published_entries_match_path(
    b: BrowserView,
    trigger: Trigger,
    outcome: Result<Seq<EntryView>, ListErrorView>,
)
    requires
        b.wf(),
        requested(trigger).is_some(),
    ensures
        b.navigate(trigger).history == b.history,
        b.navigate(trigger).entries == b.entries,
        b.navigate(trigger).complete(b.next_ticket, outcome).wf(),
        match outcome {
            Ok(entries) => {
                &&& Some(b.navigate(trigger).complete(b.next_ticket, outcome).current_path())
                    == b.target(trigger)
                &&& b.navigate(trigger).complete(b.next_ticket, outcome).listed == b.target(
                    trigger,
                )
                &&& b.navigate(trigger).complete(b.next_ticket, outcome).entries == entries
                &&& b.navigate(trigger).complete(b.next_ticket, outcome).error.is_none()
            },
            Err(e) => {
                &&& b.navigate(trigger).complete(b.next_ticket, outcome).history == b.history
                &&& b.navigate(trigger).complete(b.next_ticket, outcome).listed == b.listed
                &&& b.navigate(trigger).complete(b.next_ticket, outcome).entries == b.entries
                &&& b.navigate(trigger).complete(b.next_ticket, outcome).error == Some(e)
            },
        },
{
}

/// When a second request is made before the first one's listing arrived,
/// only the second one's result is published: the first one's completion
/// changes nothing, whether it arrives before or after the second's.
pub proof fn lemma_latest_request_wins(
    b: BrowserView,
    first: Trigger,
    second: Trigger,
    slow: Result<Seq<EntryView>, ListErrorView>,
    fast: Result<Seq<EntryView>, ListErrorView>,
)
    requires
        b.wf(),
        requested(first).is_some(),
        requested(second).is_some(),
    ensures
        ({
            let both = b.navigate(first).navigate(second);
            let t1 = b.next_ticket;
            let t2 = ticket_after(b.next_ticket);
            let only_second = b.navigate(second).complete(b.next_ticket, fast);
            &&& t1 != t2
            &&& both.complete(t1, slow) == both
            &&& both.complete(t2, fast).complete(t1, slow) == both.complete(t2, fast)
            &&& both.complete(t1, slow).complete(t2, fast) == both.complete(t2, fast)
            &&& both.complete(t2, fast).history == only_second.history
            &&& both.complete(t2, fast).listed == only_second.listed
            &&& both.complete(t2, fast).entries == only_second.entries
            &&& both.complete(t2, fast).error == only_second.error
        }),
{
}

/// A completion that no request awaits changes nothing.
pub proof fn lemma_stale_completion_ignored(
    b: BrowserView,
    ticket: u64,
    outcome: Result<Seq<EntryView>, ListErrorView>,
)
    requires
        !b.awaits(ticket),
    ensures
        b.complete(ticket, outcome) == b,
{
}

/// A click on something that is no directory and a dismissed folder picker
/// change nothing, and ask for nothing.
pub proof fn lemma_ignored_triggers(b: BrowserView, path: String)
    ensures
        b.navigate(Trigger::Open { path, is_dir: false }) == b,
        b.target(Trigger::Open { path, is_dir: false }).is_none(),
        b.navigate(Trigger::Pick { folder: None }) == b,
        b.target(Trigger::Pick { folder: None }).is_none(),
{
}

/// Back at the first entry and forward at the last ask for the current
/// path again, and their listing is published without a history change.
pub proof fn lemma_boundary_triggers_reload(b: BrowserView)
    requires
        b.wf(),
    ensures
        !b.history.can_back() ==> b.target(Trigger::Back) == Some(b.current_path()),
        !b.history.can_forward() ==> b.target(Trigger::Forward) == Some(b.current_path()),
        !b.history.can_back() ==> moved(b.history, Move::Back) == b.history,
        !b.history.can_forward() ==> moved(b.history, Move::Forward) == b.history,
{
}

} // verus!
