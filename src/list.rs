//! The entry list: the entries of one kind, in the order the server sent
//! them, with a selection that stays within bounds.
use crate::feed::{FeedEntry, ReadStatus};
use crate::input::{Direction, KeyCode, KeyPress};
use crate::message::Message;
use vstd::prelude::*;

verus! {

/// Which entries the list shows.
#[derive(Clone, Copy, Debug, PartialEq, Eq, Structural)]
pub enum FeedListViewType {
    UnreadEntries,
    StarredEntries,
}

impl FeedListViewType {
    /// The other kind of list.
    pub open spec fn next(self) -> FeedListViewType {
        match self {
            FeedListViewType::UnreadEntries => FeedListViewType::StarredEntries,
            FeedListViewType::StarredEntries => FeedListViewType::UnreadEntries,
        }
    }

    pub open spec fn title_text(self) -> Seq<char> {
        match self {
            FeedListViewType::UnreadEntries => " Unread Entries "@,
            FeedListViewType::StarredEntries => " Starred Entries "@,
        }
    }

    pub fn title(&self) -> (r: String)
        ensures
            r@ == self.title_text(),
    {
        match self {
            FeedListViewType::UnreadEntries => String::from_str(" Unread Entries "),
            FeedListViewType::StarredEntries => String::from_str(" Starred Entries "),
        }
    }

    pub fn cycle(&self) -> (r: FeedListViewType)
        ensures
            r == self.next(),
    {
        match self {
            FeedListViewType::UnreadEntries => FeedListViewType::StarredEntries,
            FeedListViewType::StarredEntries => FeedListViewType::UnreadEntries,
        }
    }
}

/// Cycling the kind of list twice gives back the kind one started from.
pub proof fn cycle_twice_is_identity(t: FeedListViewType)
    ensures
        t.next().next() == t,
{
}

/// An index moved into `0..n`, or 0 when there is nothing to select.
pub open spec fn clamp_index(i: int, n: int) -> int {
    if n <= 0 {
        0
    } else if i >= n {
        n - 1
    } else {
        i
    }
}

/// What a user can ask of the entry list.
#[derive(Clone, Copy, Debug, PartialEq, Eq, Structural)]
pub enum ListCommand {
    Move(Direction),
    Submit,
    ToggleRead,
    MarkAllRead,
    ToggleStarred,
    Save,
    Quit,
    Refresh,
    ForceRefresh,
    ChangeView,
    ShowHelp,
    Nothing,
}

/// The key bindings of the entry list.
pub open spec fn list_command_for(k: KeyPress) -> ListCommand {
    if k.is_char('j') || k.code == KeyCode::Down {
        ListCommand::Move(Direction::Down)
    } else if k.is_char('k') || k.code == KeyCode::Up {
        ListCommand::Move(Direction::Up)
    } else if k.code == KeyCode::Enter {
        ListCommand::Submit
    } else if k.is_char('m') {
        ListCommand::ToggleRead
    } else if k.is_char('a') {
        ListCommand::MarkAllRead
    } else if k.is_char('s') {
        ListCommand::ToggleStarred
    } else if k.is_char('e') {
        ListCommand::Save
    } else if k.is_char('q') {
        ListCommand::Quit
    } else if k.is_plain_char('r') {
        ListCommand::Refresh
    } else if k.is_shifted_char('R') {
        ListCommand::ForceRefresh
    } else if k.is_char('v') {
        ListCommand::ChangeView
    } else if k.is_char('?') {
        ListCommand::ShowHelp
    } else {
        ListCommand::Nothing
    }
}

pub fn command_for(k: KeyPress) -> (r: ListCommand)
    ensures
        r == list_command_for(k),
{
    if k.char_is('j') || k.code == KeyCode::Down {
        ListCommand::Move(Direction::Down)
    } else if k.char_is('k') || k.code == KeyCode::Up {
        ListCommand::Move(Direction::Up)
    } else if k.code == KeyCode::Enter {
        ListCommand::Submit
    } else if k.char_is('m') {
        ListCommand::ToggleRead
    } else if k.char_is('a') {
        ListCommand::MarkAllRead
    } else if k.char_is('s') {
        ListCommand::ToggleStarred
    } else if k.char_is('e') {
        ListCommand::Save
    } else if k.char_is('q') {
        ListCommand::Quit
    } else if k.plain_char_is('r') {
        ListCommand::Refresh
    } else if k.shifted_char_is('R') {
        ListCommand::ForceRefresh
    } else if k.char_is('v') {
        ListCommand::ChangeView
    } else if k.char_is('?') {
        ListCommand::ShowHelp
    } else {
        ListCommand::Nothing
    }
}

/// The entry list as a mathematical value.
pub struct ListView {
    pub entries: Seq<FeedEntry>,
    pub selected: int,
    pub view_type: FeedListViewType,
}

impl ListView {
    /// The selection points at an entry, or is 0 when there is none.
    pub open spec fn wf(self) -> bool {
        if self.entries.len() == 0 {
            self.selected == 0
        } else {
            0 <= self.selected < self.entries.len()
        }
    }

    /// With no entries the list shows an instruction in place of rows.
    pub open spec fn is_zero_state(self) -> bool {
        self.entries.len() == 0
    }

    /// The entries replaced wholesale; the selection is only clamped.
    pub open spec fn with_entries(self, entries: Seq<FeedEntry>) -> ListView {
        ListView {
            entries,
            selected: clamp_index(self.selected, entries.len() as int),
            view_type: self.view_type,
        }
    }

    /// The selection moved one step, stopping at either end.
    pub open spec fn moved(self, d: Direction) -> ListView {
        match d {
            Direction::Up => if self.selected > 0 {
                ListView { selected: self.selected - 1, ..self }
            } else {
                self
            },
            Direction::Down => if self.selected + 1 < self.entries.len() {
                ListView { selected: self.selected + 1, ..self }
            } else {
                self
            },
        }
    }

    /// The selection moved by each direction in turn.
    pub open spec fn moved_all(self, ds: Seq<Direction>) -> ListView
        decreases ds.len(),
    {
        if ds.len() == 0 {
            self
        } else {
            self.moved_all(ds.drop_last()).moved(ds.last())
        }
    }

    pub open spec fn with_entry(self, i: int, e: FeedEntry) -> ListView {
        ListView { entries: self.entries.update(i, e), ..self }
    }

    /// Flips the read status of entry `i` and asks the server to do the same.
    pub open spec fn toggle_read(self, i: int) -> (ListView, Option<Message>) {
        if 0 <= i < self.entries.len() {
            let e = self.entries[i];
            let s = e.status.flipped();
            (self.with_entry(i, e.with_status(s)), Some(Message::ChangeEntryReadStatus(e.id, s)))
        } else {
            (self, None)
        }
    }

    /// Flips the starred flag of entry `i` and asks the server to do the same.
    pub open spec fn toggle_starred(self, i: int) -> (ListView, Option<Message>) {
        if 0 <= i < self.entries.len() {
            let e = self.entries[i];
            (self.with_entry(i, e.star_flipped()), Some(Message::ToggleStarred(e.id)))
        } else {
            (self, None)
        }
    }

    /// Asks the server to save entry `i`.
    pub open spec fn save(self, i: int) -> Option<Message> {
        if 0 <= i < self.entries.len() {
            Some(Message::SaveEntry(self.entries[i].id))
        } else {
            None
        }
    }

    /// Marks entry `i` read, and asks the server to, unless it is read already.
    pub open spec fn mark_read(self, i: int) -> (ListView, Option<Message>) {
        if 0 <= i < self.entries.len() && self.entries[i].status == ReadStatus::Unread {
            let e = self.entries[i];
            (
                self.with_entry(i, e.with_status(ReadStatus::Read)),
                Some(Message::ChangeEntryReadStatus(e.id, ReadStatus::Read)),
            )
        } else {
            (self, None)
        }
    }

    pub open spec fn all_read(self) -> ListView {
        ListView {
            entries: self.entries.map_values(|e: FeedEntry| e.with_status(ReadStatus::Read)),
            ..self
        }
    }

    pub open spec fn ids(self) -> Seq<i32> {
        self.entries.map_values(|e: FeedEntry| e.id)
    }

    /// Marking all read: every entry becomes read and one request carries
    /// every id, in list order; an empty list asks nothing.
    pub open spec fn marks_all_read(self, post: ListView, r: Option<Message>) -> bool {
        if self.entries.len() == 0 {
            post == self && r is None
        } else {
            post == self.all_read() && (r matches Some(Message::MarkAllAsRead(ids)) && ids@
                == self.ids())
        }
    }

    /// Submitting: the selected entry is marked read and opened, both asked
    /// for in one batch; an empty list asks nothing.
    pub open spec fn submits(self, post: ListView, r: Option<Message>) -> bool {
        if self.entries.len() == 0 {
            post == self && r is None
        } else {
            let (l, change) = self.mark_read(self.selected);
            post == l && (r matches Some(Message::Batch(v)) && v@ == seq![
                change,
                Some(Message::EntrySelected(l.entries[self.selected])),
            ])
        }
    }

    /// What each command does to the list and which message it yields.
    pub open spec fn performs(self, cmd: ListCommand, post: ListView, r: Option<Message>) -> bool {
        match cmd {
            ListCommand::Move(d) => post == self.moved(d) && r == (if post.selected
                != self.selected {
                Some(Message::Tick)
            } else {
                None
            }),
            ListCommand::Submit => self.submits(post, r),
            ListCommand::ToggleRead => (post, r) == self.toggle_read(self.selected),
            ListCommand::ToggleStarred => (post, r) == self.toggle_starred(self.selected),
            ListCommand::Save => post == self && r == self.save(self.selected),
            ListCommand::MarkAllRead => self.marks_all_read(post, r),
            ListCommand::Quit => post == self && r == Some(Message::AppClose),
            ListCommand::Refresh => post == self && r == Some(
                Message::RefreshRequested(self.view_type),
            ),
            ListCommand::ForceRefresh => post == self && r == Some(
                Message::ForceRefreshRequested(self.view_type),
            ),
            ListCommand::ChangeView => post == ListView { view_type: self.view_type.next(), ..self }
                && r == Some(Message::RefreshRequested(self.view_type.next())),
            ListCommand::ShowHelp => post == self && r == Some(Message::ShowKeyboardHelp),
            ListCommand::Nothing => post == self && r is None,
        }
    }
}

/// Whatever moves are made, the selection stays on an entry (or at 0 when
/// the list is empty).
pub proof fn selection_stays_in_bounds(l: ListView, moves: Seq<Direction>)
    requires
        l.wf(),
    ensures
        l.moved_all(moves).wf(),
        l.moved_all(moves).entries == l.entries,
    decreases moves.len(),
{
    if moves.len() > 0 {
        selection_stays_in_bounds(l, moves.drop_last());
    }
}

/// Toggling the read status of an entry twice restores the list.
pub proof fn toggle_read_twice_restores(l: ListView, i: int)
    ensures
        l.toggle_read(i).0.toggle_read(i).0 == l,
{
    if 0 <= i < l.entries.len() {
        let e = l.entries[i];
        let once = l.toggle_read(i).0;
        let twice = once.toggle_read(i).0;
        assert(once.entries[i] == e.with_status(e.status.flipped()));
        assert(e.with_status(e.status.flipped()).with_status(e.status.flipped().flipped()) == e);
        assert(twice.entries =~= l.entries);
    }
}

/// The entries of one kind, the selected one, and which kind they are.
pub struct FeedEntryListState {
    pub entries: Vec<FeedEntry>,
    pub selected: usize,
    pub view_type: FeedListViewType,
}

impl View for FeedEntryListState {
    type V = ListView;

    open spec fn view(&self) -> ListView {
        ListView {
            entries: self.entries@,
            selected: self.selected as int,
            view_type: self.view_type,
        }
    }
}

impl FeedEntryListState {
    pub open spec fn wf(&self) -> bool {
        self@.wf()
    }

    /// A list of unread entries with the first one selected.
    pub fn new(entries: Vec<FeedEntry>) -> (r: Self)
        ensures
            r@ == (ListView {
                entries: entries@,
                selected: 0,
                view_type: FeedListViewType::UnreadEntries,
            }),
            r.wf(),
    {
        FeedEntryListState { entries, selected: 0, view_type: FeedListViewType::UnreadEntries }
    }

    pub fn is_zero_state(&self) -> (r: bool)
        ensures
            r == self@.is_zero_state(),
    {
        self.entries.len() == 0
    }

    pub fn replace_entries(&mut self, entries: Vec<FeedEntry>)
        requires
            old(self).wf(),
        ensures
            final(self)@ == old(self)@.with_entries(entries@),
            final(self).wf(),
    {
        let n = entries.len();
        self.entries = entries;
        if n == 0 {
            self.selected = 0;
        } else if self.selected >= n {
            self.selected = n - 1;
        }
    }

    pub fn move_selection(&mut self, d: Direction)
        requires
            old(self).wf(),
        ensures
            final(self)@ == old(self)@.moved(d),
            final(self).wf(),
    {
        match d {
            Direction::Up => {
                if self.selected > 0 {
                    self.selected = self.selected - 1;
                }
            },
            Direction::Down => {
                if self.entries.len() > 0 && self.selected < self.entries.len() - 1 {
                    self.selected = self.selected + 1;
                }
            },
        }
    }

    pub fn toggle_read_at(&mut self, i: usize) -> (r: Option<Message>)
        requires
            old(self).wf(),
        ensures
            (final(self)@, r) == old(self)@.toggle_read(i as int),
            final(self).wf(),
    {
        if i < self.entries.len() {
            let mut e = self.entries[i].clone();
            let status = e.status.toggle();
            e.status = status;
            let id = e.id;
            self.entries[i] = e;
            assert(self@ == old(self)@.toggle_read(i as int).0);
            Some(Message::ChangeEntryReadStatus(id, status))
        } else {
            None
        }
    }

    pub fn toggle_starred_at(&mut self, i: usize) -> (r: Option<Message>)
        requires
            old(self).wf(),
        ensures
            (final(self)@, r) == old(self)@.toggle_starred(i as int),
            final(self).wf(),
    {
        if i < self.entries.len() {
            let mut e = self.entries[i].clone();
            e.starred = !e.starred;
            let id = e.id;
            self.entries[i] = e;
            assert(self@ == old(self)@.toggle_starred(i as int).0);
            Some(Message::ToggleStarred(id))
        } else {
            None
        }
    }

    pub fn save_entry(&self, i: usize) -> (r: Option<Message>)
        ensures
            r == self@.save(i as int),
    {
        if i < self.entries.len() {
            Some(Message::SaveEntry(self.entries[i].id))
        } else {
            None
        }
    }

    pub fn mark_as_read(&mut self, i: usize) -> (r: Option<Message>)
        requires
            old(self).wf(),
        ensures
            (final(self)@, r) == old(self)@.mark_read(i as int),
            final(self).wf(),
    {
        if i < self.entries.len() && self.entries[i].status == ReadStatus::Unread {
            let mut e = self.entries[i].clone();
            e.status = ReadStatus::Read;
            let id = e.id;
            self.entries[i] = e;
            assert(self@ == old(self)@.mark_read(i as int).0);
            Some(Message::ChangeEntryReadStatus(id, ReadStatus::Read))
        } else {
            None
        }
    }

    pub fn mark_all_as_read(&mut self) -> (r: Option<Message>)
        requires
            old(self).wf(),
        ensures
            old(self)@.marks_all_read(final(self)@, r),
            final(self).wf(),
    {
        let n = self.entries.len();
        if n == 0 {
            return None;
        }
        let ghost pre = self@;
        let mut ids: Vec<i32> = Vec::new();
        let mut i: usize = 0;
        while i < n
            invariant
                self.entries@.len() == n,
                n == pre.entries.len(),
                i <= n,
                self.selected == pre.selected,
                self.view_type == pre.view_type,
                forall|j: int|
                    0 <= j < i ==> #[trigger] self.entries@[j] == pre.entries[j].with_status(
                        ReadStatus::Read,
                    ),
                forall|j: int| i <= j < n ==> #[trigger] self.entries@[j] == pre.entries[j],
                ids@ =~= pre.ids().take(i as int),
            decreases n - i,
        {
            let mut e = self.entries[i].clone();
            e.status = ReadStatus::Read;
            ids.push(e.id);
            self.entries[i] = e;
            i += 1;
        }
        assert(self@.entries =~= pre.all_read().entries);
        assert(ids@ =~= pre.ids());
        Some(Message::MarkAllAsRead(ids))
    }

    pub fn cycle_view_type(&mut self) -> (r: Message)
        requires
            old(self).wf(),
        ensures
            final(self)@ == (ListView { view_type: old(self)@.view_type.next(), ..old(self)@ }),
            r == Message::RefreshRequested(old(self)@.view_type.next()),
            final(self).wf(),
    {
        self.view_type = self.view_type.cycle();
        Message::RefreshRequested(self.view_type)
    }

    pub fn submit_selected(&mut self) -> (r: Option<Message>)
        requires
            old(self).wf(),
        ensures
            old(self)@.submits(final(self)@, r),
            final(self).wf(),
    {
        if self.entries.len() == 0 {
            return None;
        }
        let i = self.selected;
        let change = self.mark_as_read(i);
        let entry = self.entries[i].clone();
        let batch = vec![change, Some(Message::EntrySelected(entry))];
        Some(Message::Batch(batch))
    }

    pub fn perform(&mut self, cmd: ListCommand) -> (r: Option<Message>)
        requires
            old(self).wf(),
        ensures
            old(self)@.performs(cmd, final(self)@, r),
            final(self).wf(),
    {
        match cmd {
            ListCommand::Move(d) => {
                let before = self.selected;
                self.move_selection(d);
                if self.selected != before {
                    Some(Message::Tick)
                } else {
                    None
                }
            },
            ListCommand::Submit => self.submit_selected(),
            ListCommand::ToggleRead => self.toggle_read_at(self.selected),
            ListCommand::ToggleStarred => self.toggle_starred_at(self.selected),
            ListCommand::Save => self.save_entry(self.selected),
            ListCommand::MarkAllRead => self.mark_all_as_read(),
            ListCommand::Quit => Some(Message::AppClose),
            ListCommand::Refresh => Some(Message::RefreshRequested(self.view_type)),
            ListCommand::ForceRefresh => Some(Message::ForceRefreshRequested(self.view_type)),
            ListCommand::ChangeView => Some(self.cycle_view_type()),
            ListCommand::ShowHelp => Some(Message::ShowKeyboardHelp),
            ListCommand::Nothing => None,
        }
    }

    /// Handles a key press while the list is shown.
    pub fn on(&mut self, key: KeyPress) -> (r: Option<Message>)
        requires
            old(self).wf(),
        ensures
            old(self)@.performs(list_command_for(key), final(self)@, r),
            final(self).wf(),
    {
        let cmd = command_for(key);
        self.perform(cmd)
    }
}

} // verus!
