//! The reading view: one open entry, how far it is scrolled, and the actions
//! on it.
use crate::config::ThemeConfig;
use crate::feed::{FeedEntry, ReadStatus};
use crate::input::{Direction, KeyCode, KeyPress};
use crate::message::Message;
use vstd::prelude::*;

verus! {

/// The number of lines that PageUp and PageDown scroll.
pub const PAGE_SCROLL_AMOUNT: u16 = 8;

/// What a user can ask of the reading view.
#[derive(Clone, Copy, Debug, PartialEq, Eq, Structural)]
pub enum ReaderCommand {
    Scroll(Direction),
    Page(Direction),
    Back,
    ToggleRead,
    MarkUnread,
    ToggleStarred,
    Save,
    FetchOriginal,
    OpenInBrowser,
    ShowHelp,
    Quit,
    Nothing,
}

/// The key bindings of the reading view.
pub open spec fn reader_command_for(k: KeyPress) -> ReaderCommand {
    if k.is_char('?') {
        ReaderCommand::ShowHelp
    } else if k.is_char('b') || k.code == KeyCode::Esc {
        ReaderCommand::Back
    } else if k.is_char('u') {
        ReaderCommand::MarkUnread
    } else if k.is_char('m') {
        ReaderCommand::ToggleRead
    } else if k.is_char('o') {
        ReaderCommand::OpenInBrowser
    } else if k.is_char('s') {
        ReaderCommand::ToggleStarred
    } else if k.is_char('e') {
        ReaderCommand::Save
    } else if k.is_char('k') || k.code == KeyCode::Up {
        ReaderCommand::Scroll(Direction::Up)
    } else if k.is_char('j') || k.code == KeyCode::Down {
        ReaderCommand::Scroll(Direction::Down)
    } else if k.code == KeyCode::PageUp {
        ReaderCommand::Page(Direction::Up)
    } else if k.code == KeyCode::PageDown {
        ReaderCommand::Page(Direction::Down)
    } else if k.is_shifted_char('F') {
        ReaderCommand::FetchOriginal
    } else if k.is_char('q') {
        ReaderCommand::Quit
    } else {
        ReaderCommand::Nothing
    }
}

pub fn reader_command(k: KeyPress) -> (r: ReaderCommand)
    ensures
        r == reader_command_for(k),
{
    if k.char_is('?') {
        ReaderCommand::ShowHelp
    } else if k.char_is('b') || k.code == KeyCode::Esc {
        ReaderCommand::Back
    } else if k.char_is('u') {
        ReaderCommand::MarkUnread
    } else if k.char_is('m') {
        ReaderCommand::ToggleRead
    } else if k.char_is('o') {
        ReaderCommand::OpenInBrowser
    } else if k.char_is('s') {
        ReaderCommand::ToggleStarred
    } else if k.char_is('e') {
        ReaderCommand::Save
    } else if k.char_is('k') || k.code == KeyCode::Up {
        ReaderCommand::Scroll(Direction::Up)
    } else if k.char_is('j') || k.code == KeyCode::Down {
        ReaderCommand::Scroll(Direction::Down)
    } else if k.code == KeyCode::PageUp {
        ReaderCommand::Page(Direction::Up)
    } else if k.code == KeyCode::PageDown {
        ReaderCommand::Page(Direction::Down)
    } else if k.shifted_char_is('F') {
        ReaderCommand::FetchOriginal
    } else if k.char_is('q') {
        ReaderCommand::Quit
    } else {
        ReaderCommand::Nothing
    }
}

/// A scroll offset moved up by `n` lines, stopping at 0, or down by `n`,
/// stopping at the largest offset a `u16` holds.
pub open spec fn scrolled_by(offset: u16, d: Direction, n: u16) -> u16 {
    match d {
        Direction::Up => if offset > n {
            (offset - n) as u16
        } else {
            0
        },
        Direction::Down => if offset as int + n as int <= u16::MAX as int {
            (offset + n) as u16
        } else {
            u16::MAX
        },
    }
}

/// The entry open for reading (none while the view is inactive), its scroll
/// offset, and the colours its title is drawn in.
pub struct ReadEntryView {
    pub entry: Option<FeedEntry>,
    pub scroll: u16,
    pub theme_config: ThemeConfig,
}

impl ReadEntryView {
    /// The view with another entry open, scrolled to the top.
    pub open spec fn opened(self, e: FeedEntry) -> ReadEntryView {
        ReadEntryView { entry: Some(e), scroll: 0, ..self }
    }

    /// The view with nothing open.
    pub open spec fn closed(self) -> ReadEntryView {
        ReadEntryView { entry: None, scroll: 0, ..self }
    }

    /// The view once the full article of entry `id` arrived: if that entry is
    /// open, the article replaces its summary and the view returns to the top.
    pub open spec fn with_original_content(self, id: i32, content: String) -> ReadEntryView {
        match self.entry {
            Some(e) => if e.id == id {
                ReadEntryView {
                    entry: Some(FeedEntry { original_content: Some(content), ..e }),
                    scroll: 0,
                    ..self
                }
            } else {
                self
            },
            None => self,
        }
    }

    /// The view with the open entry replaced by `f(entry)`, and the message
    /// `m(entry)`; nothing happens when no entry is open.
    pub open spec fn on_entry(
        self,
        f: spec_fn(FeedEntry) -> FeedEntry,
        m: spec_fn(FeedEntry) -> Message,
    ) -> (ReadEntryView, Option<Message>) {
        match self.entry {
            Some(e) => (ReadEntryView { entry: Some(f(e)), ..self }, Some(m(e))),
            None => (self, None),
        }
    }

    /// What each command does to the view and which message it yields.
    pub open spec fn performed(self, cmd: ReaderCommand) -> (ReadEntryView, Option<Message>) {
        match cmd {
            ReaderCommand::Scroll(d) => (
                ReadEntryView { scroll: scrolled_by(self.scroll, d, 1), ..self },
                Some(Message::Tick),
            ),
            ReaderCommand::Page(d) => (
                ReadEntryView { scroll: scrolled_by(self.scroll, d, PAGE_SCROLL_AMOUNT), ..self },
                Some(Message::Tick),
            ),
            ReaderCommand::Back => (self.closed(), Some(Message::ReadEntryViewClosed)),
            ReaderCommand::ToggleRead => self.on_entry(
                |e: FeedEntry| e.with_status(e.status.flipped()),
                |e: FeedEntry| Message::ChangeEntryReadStatus(e.id, e.status.flipped()),
            ),
            ReaderCommand::MarkUnread => self.on_entry(
                |e: FeedEntry| e.with_status(ReadStatus::Unread),
                |e: FeedEntry| Message::ChangeEntryReadStatus(e.id, ReadStatus::Unread),
            ),
            ReaderCommand::ToggleStarred => self.on_entry(
                |e: FeedEntry| e.star_flipped(),
                |e: FeedEntry| Message::ToggleStarred(e.id),
            ),
            ReaderCommand::Save => self.on_entry(
                |e: FeedEntry| e,
                |e: FeedEntry| Message::SaveEntry(e.id),
            ),
            ReaderCommand::FetchOriginal => self.on_entry(
                |e: FeedEntry| e,
                |e: FeedEntry| Message::FetchOriginalEntryContentsRequested(e.id),
            ),
            ReaderCommand::OpenInBrowser => self.on_entry(
                |e: FeedEntry| e,
                |e: FeedEntry| Message::OpenEntryInBrowser(e.url),
            ),
            ReaderCommand::ShowHelp => (self, Some(Message::ShowKeyboardHelp)),
            ReaderCommand::Quit => (self, Some(Message::AppClose)),
            ReaderCommand::Nothing => (self, None),
        }
    }

    pub fn new(entry: Option<FeedEntry>, theme_config: ThemeConfig) -> (r: Self)
        ensures
            r == (ReadEntryView { entry, scroll: 0, theme_config }),
    {
        ReadEntryView { entry, scroll: 0, theme_config }
    }

    pub fn open(&mut self, entry: FeedEntry)
        ensures
            *final(self) == old(self).opened(entry),
    {
        self.entry = Some(entry);
        self.scroll = 0;
    }

    pub fn close(&mut self)
        ensures
            *final(self) == old(self).closed(),
    {
        self.entry = None;
        self.scroll = 0;
    }

    pub fn set_original_content(&mut self, id: i32, content: String)
        ensures
            *final(self) == old(self).with_original_content(id, content),
    {
        match &mut self.entry {
            Some(e) => {
                if e.id == id {
                    e.original_content = Some(content);
                    self.scroll = 0;
                }
            },
            None => {},
        }
    }

    pub fn scroll(&mut self, d: Direction, n: u16)
        ensures
            *final(self) == (ReadEntryView { scroll: scrolled_by(old(self).scroll, d, n), ..*old(self) }),
    {
        self.scroll = match d {
            Direction::Up => if self.scroll > n {
                self.scroll - n
            } else {
                0
            },
            Direction::Down => self.scroll.saturating_add(n),
        };
    }

    pub fn toggle_read(&mut self) -> (r: Option<Message>)
        ensures
            (*final(self), r) == old(self).performed(ReaderCommand::ToggleRead),
    {
        match &mut self.entry {
            Some(e) => {
                let s = e.status.toggle();
                e.status = s;
                Some(Message::ChangeEntryReadStatus(e.id, s))
            },
            None => None,
        }
    }

    pub fn mark_unread(&mut self) -> (r: Option<Message>)
        ensures
            (*final(self), r) == old(self).performed(ReaderCommand::MarkUnread),
    {
        match &mut self.entry {
            Some(e) => {
                e.status = ReadStatus::Unread;
                Some(Message::ChangeEntryReadStatus(e.id, ReadStatus::Unread))
            },
            None => None,
        }
    }

    pub fn toggle_starred(&mut self) -> (r: Option<Message>)
        ensures
            (*final(self), r) == old(self).performed(ReaderCommand::ToggleStarred),
    {
        match &mut self.entry {
            Some(e) => {
                e.starred = !e.starred;
                Some(Message::ToggleStarred(e.id))
            },
            None => None,
        }
    }

    pub fn request_save(&self) -> (r: Option<Message>)
        ensures
            (*self, r) == self.performed(ReaderCommand::Save),
    {
        match &self.entry {
            Some(e) => Some(Message::SaveEntry(e.id)),
            None => None,
        }
    }

    pub fn request_fetch_original(&self) -> (r: Option<Message>)
        ensures
            (*self, r) == self.performed(ReaderCommand::FetchOriginal),
    {
        match &self.entry {
            Some(e) => Some(Message::FetchOriginalEntryContentsRequested(e.id)),
            None => None,
        }
    }

    pub fn request_open_in_browser(&self) -> (r: Option<Message>)
        ensures
            (*self, r) == self.performed(ReaderCommand::OpenInBrowser),
    {
        match &self.entry {
            Some(e) => Some(Message::OpenEntryInBrowser(e.url.clone())),
            None => None,
        }
    }

    pub fn perform(&mut self, cmd: ReaderCommand) -> (r: Option<Message>)
        ensures
            (*final(self), r) == old(self).performed(cmd),
    {
        match cmd {
            ReaderCommand::Scroll(d) => {
                self.scroll(d, 1);
                Some(Message::Tick)
            },
            ReaderCommand::Page(d) => {
                self.scroll(d, PAGE_SCROLL_AMOUNT);
                Some(Message::Tick)
            },
            ReaderCommand::Back => {
                self.close();
                Some(Message::ReadEntryViewClosed)
            },
            ReaderCommand::ToggleRead => self.toggle_read(),
            ReaderCommand::MarkUnread => self.mark_unread(),
            ReaderCommand::ToggleStarred => self.toggle_starred(),
            ReaderCommand::Save => self.request_save(),
            ReaderCommand::FetchOriginal => self.request_fetch_original(),
            ReaderCommand::OpenInBrowser => self.request_open_in_browser(),
            ReaderCommand::ShowHelp => Some(Message::ShowKeyboardHelp),
            ReaderCommand::Quit => Some(Message::AppClose),
            ReaderCommand::Nothing => None,
        }
    }

    /// Handles a key press while the reading view is shown.
    pub fn on(&mut self, key: KeyPress) -> (r: Option<Message>)
        ensures
            (*final(self), r) == old(self).performed(reader_command_for(key)),
    {
        let cmd = reader_command(key);
        self.perform(cmd)
    }
}

} // verus!
