//! The browser's state machine.

use vstd::prelude::*;
use crate::cursor::{clamped, cursor_down, cursor_up, downs, law_cursor_wraps, ups};
use crate::paths::{file_name, is_plain_name, last_piece, move_target, name_of, nav_target, nav_target_spec, opt_view, parent_dir};
use crate::selection::{holds, lemma_toggled_no_duplicates, toggled, views, without};

verus! {

/// A key press, as far as the browser tells them apart.
#[derive(Clone, Copy, Debug, PartialEq, Eq, Structural)]
pub enum Input {
    /// Quit (`q`).
    Quit,
    /// Mark or unmark the entry under the cursor (space).
    Toggle,
    /// Cursor down.
    Down,
    /// Cursor up.
    Up,
    /// Arm the destination choice, or move the selection (Enter).
    Commit,
    /// Enter the entry under the cursor (Right).
    Open,
    /// Go to the parent directory (Left).
    Back,
    /// Any other key or event.
    Ignored,
}

/// Whether the next commit arms the destination choice or moves files.
#[derive(Clone, Copy, Debug, PartialEq, Eq, Structural)]
pub enum DestMode {
    Inactive,
    Armed,
}

/// What the title line reports.
#[derive(Debug, PartialEq, Eq)]
pub enum Status {
    /// Nothing done yet.
    Start,
    /// The selection has just changed: the title lists it.
    Selection,
    /// The destination choice is armed.
    ChooseDestination,
    /// A directory could not be listed, for this reason.
    ListingFailed(String),
    /// A move failed, for this reason.
    MoveFailed(String),
}

/// One selected path to move: the path it is renamed to, or nothing where
/// the path has no name to move it under.
#[derive(Debug, PartialEq, Eq)]
pub struct MoveRequest {
    pub source: String,
    pub target: Option<String>,
}

/// The outside work that a key press asks for.
#[derive(Debug, PartialEq, Eq)]
pub enum Action {
    /// Nothing: draw the state again and wait for the next key.
    Nothing,
    /// Leave the loop.
    Quit,
    /// List this directory and hand the outcome to `App::show_listing`.
    List(String),
    /// Perform these renames in order: hand the outcome of each to
    /// `App::record_move`, and each request without a target to
    /// `App::record_unmovable`.
    Move(Vec<MoveRequest>),
}

/// The (source, target) pairs of a sequence of move requests.
pub open spec fn request_views(r: Seq<MoveRequest>) -> Seq<(Seq<char>, Option<Seq<char>>)> {
    r.map_values(|m: MoveRequest| (m.source@, opt_view(m.target)))
}

/// Where `path` goes when it is moved into `dir`, if it has a name.
pub open spec fn target_in(dir: Seq<char>, path: Seq<char>) -> Option<Seq<char>> {
    match name_of(path) {
        Some(name) => Some(dir + seq!['/'] + name),
        None => None,
    }
}

/// One request for each selected path, in the order of the selection, to
/// move it into `dir`.
pub open spec fn move_plan(sel: Seq<Seq<char>>, dir: Seq<char>) -> Seq<
    (Seq<char>, Option<Seq<char>>),
> {
    sel.map_values(|p: Seq<char>| (p, target_in(dir, p)))
}

/// What `std`'s `Debug` formatting writes for a list of strings.
pub uninterp spec fn debug_of(items: Seq<Seq<char>>) -> Seq<char>;

/// The reason given for a selected path that has no name to move it under.
pub open spec fn unmovable_reason(path: Seq<char>) -> Seq<char> {
    path + ": no file name to move"@
}

/// The title line for a status and a selection.
pub open spec fn title_of(status: Status, sel: Seq<Seq<char>>) -> Seq<char> {
    match status {
        Status::Start => "Select files: "@,
        Status::Selection => "Select files: "@ + debug_of(sel),
        Status::ChooseDestination => "Use <Left> <Right> to choose destination dir: "@,
        Status::ListingFailed(reason) => "Error: "@ + reason@,
        Status::MoveFailed(reason) => "Error: "@ + reason@,
    }
}

/// Relies on `std`'s `Debug` impl for `Vec<String>` (through `format!`): the
/// text depends on the strings' characters alone.
#[verifier::external_body]
fn debug_list(v: &Vec<String>) -> (r: String)
    ensures
        r@ == debug_of(views(v@)),
{
    format!("{:?}", v)
}

/// The browser's whole state.
pub struct App {
    /// The entries of the directory on screen.
    pub list: Vec<String>,
    /// The index of the entry under the cursor, if any.
    pub cursor: Option<usize>,
    /// The paths marked for a move.
    pub selected: Vec<String>,
    /// Whether a commit moves files.
    pub dest: DestMode,
    /// What the title line reports.
    pub status: Status,
}

impl App {
    /// The cursor lies within the listing, and no path is selected twice.
    pub open spec fn wf(&self) -> bool {
        &&& match self.cursor {
            Some(i) => i < self.list.len(),
            None => true,
        }
        &&& views(self.selected@).no_duplicates()
    }

    /// The entry under the cursor, if the cursor is set.
    pub open spec fn current(&self) -> Option<Seq<char>> {
        match self.cursor {
            Some(i) => Some(self.list@[i as int]@),
            None => None,
        }
    }

    /// A browser on an empty listing, with nothing selected.
    pub fn new() -> (r: App)
        ensures
            r.wf(),
            r.list@.len() == 0,
            r.cursor is None,
            r.selected@.len() == 0,
            r.dest == DestMode::Inactive,
            r.status == Status::Start,
    {
        let r = App {
            list: Vec::new(),
            cursor: None,
            selected: Vec::new(),
            dest: DestMode::Inactive,
            status: Status::Start,
        };
        assert(views(r.selected@) =~= Seq::empty());
        r
    }

    /// Moves the cursor down one entry, wrapping to the top.
    pub fn next(&mut self)
        requires
            old(self).wf(),
        ensures
            final(self).wf(),
            final(self).cursor == cursor_down(old(self).cursor, old(self).list@.len()),
            final(self).list == old(self).list,
            final(self).selected == old(self).selected,
            final(self).dest == old(self).dest,
            final(self).status == old(self).status,
    {
        let n = self.list.len();
        if n == 0 {
            return;
        }
        let i: usize = match self.cursor {
            Some(i) => if i >= n - 1 {
                0
            } else {
                i + 1
            },
            None => 0,
        };
        self.cursor = Some(i);
    }

    /// Moves the cursor up one entry, wrapping to the last.
    pub fn previous(&mut self)
        requires
            old(self).wf(),
        ensures
            final(self).wf(),
            final(self).cursor == cursor_up(old(self).cursor, old(self).list@.len()),
            final(self).list == old(self).list,
            final(self).selected == old(self).selected,
            final(self).dest == old(self).dest,
            final(self).status == old(self).status,
    {
        let n = self.list.len();
        if n == 0 {
            return;
        }
        let i: usize = match self.cursor {
            Some(i) => if i == 0 {
                n - 1
            } else {
                i - 1
            },
            None => 0,
        };
        self.cursor = Some(i);
    }

    /// Marks the entry under the cursor, or unmarks it where it is marked.
    /// Without a cursor nothing changes.
    pub fn toggle(&mut self)
        requires
            old(self).wf(),
        ensures
            final(self).wf(),
            final(self).list == old(self).list,
            final(self).cursor == old(self).cursor,
            final(self).dest == old(self).dest,
            match old(self).current() {
                Some(e) => {
                    &&& views(final(self).selected@) == toggled(views(old(self).selected@), e)
                    &&& final(self).status == Status::Selection
                },
                None => {
                    &&& final(self).selected == old(self).selected
                    &&& final(self).status == old(self).status
                },
            },
    {
        let i = match self.cursor {
            Some(i) => i,
            None => {
                return;
            },
        };
        let entry = self.list[i].clone();
        proof {
            lemma_toggled_no_duplicates(views(self.selected@), entry@);
        }
        if holds(&self.selected, &entry) {
            self.selected = without(&self.selected, &entry);
        } else {
            let ghost before = self.selected@;
            self.selected.push(entry);
            assert(views(self.selected@) =~= views(before).push(entry@));
        }
        self.status = Status::Selection;
    }

    /// The requests that move the selection into the directory `dir`.
    pub fn plan_moves(&self, dir: &str) -> (r: Vec<MoveRequest>)
        ensures
            request_views(r@) == move_plan(views(self.selected@), dir@),
    {
        let sel = &self.selected;
        let mut out: Vec<MoveRequest> = Vec::new();
        let mut k: usize = 0;
        while k < sel.len()
            invariant
                k <= sel.len(),
                request_views(out@) == move_plan(views(sel@.subrange(0, k as int)), dir@),
            decreases sel.len() - k,
        {
            let ghost before = out@;
            let ghost next = sel@.subrange(0, k + 1);
            let ghost p = sel@[k as int]@;
            let named = file_name(sel[k].as_str());
            assert(opt_view(named) == name_of(p));
            let target = match named {
                Some(name) => Some(move_target(dir, name.as_str())),
                None => None,
            };
            assert(opt_view(target) == target_in(dir@, p));
            out.push(MoveRequest { source: sel[k].clone(), target });
            assert(request_views(out@) =~= request_views(before).push((p, target_in(dir@, p))));
            assert(views(next) =~= views(sel@.subrange(0, k as int)).push(p));
            assert(request_views(out@) =~= move_plan(views(next), dir@));
            k = k + 1;
        }
        assert(sel@.subrange(0, sel.len() as int) =~= sel@);
        out
    }

    /// Takes in what listing a directory gave: on success the new listing,
    /// with the cursor kept inside it; on failure the reason, with the
    /// listing kept. The selection stays as it was either way.
    pub fn show_listing(&mut self, outcome: Result<Vec<String>, String>)
        requires
            old(self).wf(),
        ensures
            final(self).wf(),
            final(self).selected == old(self).selected,
            final(self).dest == old(self).dest,
            match outcome {
                Ok(entries) => {
                    &&& final(self).list == entries
                    &&& final(self).cursor == clamped(old(self).cursor, entries@.len())
                    &&& final(self).status == old(self).status
                },
                Err(reason) => {
                    &&& final(self).list == old(self).list
                    &&& final(self).cursor == old(self).cursor
                    &&& final(self).status == Status::ListingFailed(reason)
                },
            },
    {
        match outcome {
            Ok(entries) => {
                let n = entries.len();
                self.list = entries;
                self.cursor = match self.cursor {
                    None => None,
                    Some(i) => if n == 0 {
                        None
                    } else if i >= n {
                        Some(n - 1)
                    } else {
                        Some(i)
                    },
                };
            },
            Err(reason) => {
                self.status = Status::ListingFailed(reason);
            },
        }
    }

    /// Takes in the outcome of one rename: a failure's reason replaces the
    /// title, a success changes nothing.
    pub fn record_move(&mut self, outcome: Result<(), String>)
        requires
            old(self).wf(),
        ensures
            final(self).wf(),
            final(self).list == old(self).list,
            final(self).cursor == old(self).cursor,
            final(self).selected == old(self).selected,
            final(self).dest == old(self).dest,
            match outcome {
                Ok(()) => final(self).status == old(self).status,
                Err(reason) => final(self).status == Status::MoveFailed(reason),
            },
    {
        match outcome {
            Ok(()) => {},
            Err(reason) => {
                self.status = Status::MoveFailed(reason);
            },
        }
    }

    /// Takes in a selected path that has no name to move it under: it is
    /// reported as a failed move.
    pub fn record_unmovable(&mut self, source: &String)
        requires
            old(self).wf(),
        ensures
            final(self).wf(),
            final(self).list == old(self).list,
            final(self).cursor == old(self).cursor,
            final(self).selected == old(self).selected,
            final(self).dest == old(self).dest,
            final(self).status is MoveFailed,
            final(self).status->MoveFailed_0@ == unmovable_reason(source@),
    {
        let mut reason = String::from_str(source.as_str());
        reason.append(": no file name to move");
        self.status = Status::MoveFailed(reason);
    }

    /// Handles one key press: changes the state and returns the outside work
    /// to do. Only `Toggle` changes the selection, and no key changes the
    /// listing: a new one comes through `show_listing`. A commit in the armed
    /// mode moves the selection into the entry under the cursor and keeps both
    /// the selection and the mode, so that a second commit tries the same
    /// moves again.
    pub fn step(&mut self, key: Input) -> (r: Action)
        requires
            old(self).wf(),
        ensures
            final(self).wf(),
            final(self).list == old(self).list,
            key != Input::Toggle ==> final(self).selected == old(self).selected,
            match key {
                Input::Quit => r is Quit && *final(self) == *old(self),
                Input::Toggle => {
                    &&& r is Nothing
                    &&& final(self).cursor == old(self).cursor
                    &&& final(self).dest == old(self).dest
                    &&& match old(self).current() {
                        Some(e) => {
                            &&& views(final(self).selected@) == toggled(
                                views(old(self).selected@),
                                e,
                            )
                            &&& final(self).status == Status::Selection
                        },
                        None => *final(self) == *old(self),
                    }
                },
                Input::Down => {
                    &&& r is Nothing
                    &&& final(self).cursor == cursor_down(old(self).cursor, old(self).list@.len())
                    &&& final(self).dest == old(self).dest
                    &&& final(self).status == old(self).status
                },
                Input::Up => {
                    &&& r is Nothing
                    &&& final(self).cursor == cursor_up(old(self).cursor, old(self).list@.len())
                    &&& final(self).dest == old(self).dest
                    &&& final(self).status == old(self).status
                },
                Input::Commit => if old(self).dest == DestMode::Inactive {
                    &&& r is Nothing
                    &&& final(self).cursor == old(self).cursor
                    &&& final(self).dest == DestMode::Armed
                    &&& final(self).status == Status::ChooseDestination
                } else {
                    &&& *final(self) == *old(self)
                    &&& match old(self).current() {
                        Some(d) => r is Move && request_views(r->Move_0@) == move_plan(
                            views(old(self).selected@),
                            d,
                        ),
                        None => r is Nothing,
                    }
                },
                Input::Open => {
                    &&& *final(self) == *old(self)
                    &&& match old(self).current() {
                        Some(e) => r is List && r->List_0@ == nav_target_spec(e),
                        None => r is Nothing,
                    }
                },
                Input::Back => {
                    &&& *final(self) == *old(self)
                    &&& r is List
                    &&& r->List_0@ == seq!['.', '.', '/']
                },
                Input::Ignored => r is Nothing && *final(self) == *old(self),
            },
    {
        match key {
            Input::Quit => Action::Quit,
            Input::Toggle => {
                self.toggle();
                Action::Nothing
            },
            Input::Down => {
                self.next();
                Action::Nothing
            },
            Input::Up => {
                self.previous();
                Action::Nothing
            },
            Input::Commit => match self.dest {
                DestMode::Inactive => {
                    self.status = Status::ChooseDestination;
                    self.dest = DestMode::Armed;
                    Action::Nothing
                },
                DestMode::Armed => match self.cursor {
                    Some(i) => Action::Move(self.plan_moves(self.list[i].as_str())),
                    None => Action::Nothing,
                },
            },
            Input::Open => match self.cursor {
                Some(i) => Action::List(nav_target(self.list[i].as_str())),
                None => Action::Nothing,
            },
            Input::Back => Action::List(parent_dir()),
            Input::Ignored => Action::Nothing,
        }
    }

    /// The title line: the selection after a toggle, as `std`'s `Debug`
    /// writes it, the destination
    /// prompt once armed, or the reason of the last failure.
    pub fn title(&self) -> (r: String)
        ensures
            r@ == title_of(self.status, views(self.selected@)),
    {
        match &self.status {
            Status::Start => String::from_str("Select files: "),
            Status::Selection => {
                let mut r = String::from_str("Select files: ");
                let listed = debug_list(&self.selected);
                r.append(listed.as_str());
                r
            },
            Status::ChooseDestination => String::from_str(
                "Use <Left> <Right> to choose destination dir: ",
            ),
            Status::ListingFailed(reason) | Status::MoveFailed(reason) => {
                let mut r = String::from_str("Error: ");
                r.append(reason.as_str());
                r
            },
        }
    }
}

/// One call of `App::next` takes `a` to `b`: same listing, cursor one down.
pub open spec fn down_step(a: App, b: App) -> bool {
    b.list == a.list && b.cursor == cursor_down(a.cursor, a.list@.len())
}

/// One call of `App::previous` takes `a` to `b`: same listing, cursor one up.
pub open spec fn up_step(a: App, b: App) -> bool {
    b.list == a.list && b.cursor == cursor_up(a.cursor, a.list@.len())
}

proof fn lemma_down_chain(states: Seq<App>, i: usize, k: int)
    requires
        0 <= k < states.len(),
        states[0].cursor == Some(i),
        forall|j: int| 0 < j < states.len() ==> #[trigger] down_step(states[j - 1], states[j]),
    ensures
        states[k].list == states[0].list,
        states[k].cursor == downs(Some(i), states[0].list@.len(), k as nat),
    decreases k,
{
    if k > 0 {
        lemma_down_chain(states, i, k - 1);
        assert(down_step(states[k - 1], states[k]));
    }
}

proof fn lemma_up_chain(states: Seq<App>, i: usize, k: int)
    requires
        0 <= k < states.len(),
        states[0].cursor == Some(i),
        forall|j: int| 0 < j < states.len() ==> #[trigger] up_step(states[j - 1], states[j]),
    ensures
        states[k].list == states[0].list,
        states[k].cursor == ups(Some(i), states[0].list@.len(), k as nat),
    decreases k,
{
    if k > 0 {
        lemma_up_chain(states, i, k - 1);
        assert(up_step(states[k - 1], states[k]));
    }
}

/// On a listing that is not empty, as many successive calls of `App::next`
/// as there are entries bring the cursor back to where it started, with the
/// listing unchanged: `states` holds the state before each call and after
/// the last one.
pub proof fn law_next_round_trip(states: Seq<App>, i: usize)
    requires
        states.len() > 0,
        states.len() == states[0].list@.len() + 1,
        i < states[0].list@.len(),
        states[0].cursor == Some(i),
        forall|j: int| 0 < j < states.len() ==> #[trigger] down_step(states[j - 1], states[j]),
    ensures
        states.last().cursor == Some(i),
        states.last().list == states[0].list,
{
    let len = states[0].list@.len();
    assert(states[0].list.len() == len);
    lemma_down_chain(states, i, len as int);
    law_cursor_wraps(i, len);
}

/// On a listing that is not empty, as many successive calls of
/// `App::previous` as there are entries bring the cursor back to where it
/// started, with the listing unchanged: `states` holds the state before each
/// call and after the last one.
pub proof fn law_previous_round_trip(states: Seq<App>, i: usize)
    requires
        states.len() > 0,
        states.len() == states[0].list@.len() + 1,
        i < states[0].list@.len(),
        states[0].cursor == Some(i),
        forall|j: int| 0 < j < states.len() ==> #[trigger] up_step(states[j - 1], states[j]),
    ensures
        states.last().cursor == Some(i),
        states.last().list == states[0].list,
{
    let len = states[0].list@.len();
    assert(states[0].list.len() == len);
    lemma_up_chain(states, i, len as int);
    law_cursor_wraps(i, len);
}

/// Moving selected paths whose last pieces are plain names into `dir`
/// renames each of them to `dir`, a `/` and that piece, in the order of the
/// selection.
pub proof fn law_plain_move_targets(sel: Seq<Seq<char>>, dir: Seq<char>)
    requires
        forall|k: int| 0 <= k < sel.len() ==> is_plain_name(#[trigger] last_piece(sel[k])),
    ensures
        move_plan(sel, dir).len() == sel.len(),
        forall|k: int|
            0 <= k < sel.len() ==> #[trigger] move_plan(sel, dir)[k] == (
                sel[k],
                Some(dir + seq!['/'] + last_piece(sel[k])),
            ),
{
    assert forall|k: int| 0 <= k < sel.len() implies #[trigger] move_plan(sel, dir)[k] == (
        sel[k],
        Some(dir + seq!['/'] + last_piece(sel[k])),
    ) by {
        assert(is_plain_name(last_piece(sel[k])));
    }
}

impl Default for App {
    /// The same as `App::new`.
    fn default() -> (r: App)
        ensures
            r.wf(),
            r.list@.len() == 0,
            r.cursor is None,
            r.selected@.len() == 0,
            r.dest == DestMode::Inactive,
            r.status == Status::Start,
    {
        App::new()
    }
}

} // verus!
