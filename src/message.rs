//! The messages that flow through the dispatcher, the views they navigate
//! between, and the background effects they launch.
use crate::feed::{FeedEntry, ReadStatus};
use crate::list::FeedListViewType;
use vstd::prelude::*;

verus! {

/// The views of the client; exactly one is shown at a time.
#[derive(Clone, Copy, Debug, PartialEq, Eq, Hash, Structural)]
pub enum ComponentIds {
    LoadingText,
    FeedEntryList,
    ReadEntry,
    KeyboardHelp,
    ErrorMessage,
}

impl ComponentIds {
    /// Overlays are shown over another view, to which dismissing them returns.
    pub open spec fn spec_is_overlay(self) -> bool {
        self == ComponentIds::KeyboardHelp || self == ComponentIds::ErrorMessage
    }

    pub fn is_overlay(&self) -> (r: bool)
        ensures
            r == self.spec_is_overlay(),
    {
        match self {
            ComponentIds::KeyboardHelp | ComponentIds::ErrorMessage => true,
            _ => false,
        }
    }
}

/// An intent from the user or an event from a background effect.
#[derive(Debug, PartialEq)]
pub enum Message {
    Tick,
    AppClose,
    FeedEntriesReceived(Vec<FeedEntry>),
    EntrySelected(FeedEntry),
    RefreshRequested(FeedListViewType),
    ForceRefreshRequested(FeedListViewType),
    ReadEntryViewClosed,
    ChangeEntryReadStatus(i32, ReadStatus),
    ToggleStarred(i32),
    ShowKeyboardHelp,
    HideKeyboardHelp,
    /// Several messages from one action, dispatched in order.
    Batch(Vec<Option<Message>>),
    /// A failed request: its HTTP status, if any, and a description.
    RequestErrorEncountered(Option<u16>, String),
    DismissError,
    SaveEntry(i32),
    MarkAllAsRead(Vec<i32>),
    FetchOriginalEntryContentsRequested(i32),
    /// The full article of an entry arrived.
    OriginalEntryContentsReceived(i32, String),
    OpenEntryInBrowser(String),
}

/// A background operation against the feed service (or the desktop), run
/// outside the dispatcher; its outcome comes back as a message.
#[derive(Debug, PartialEq)]
pub enum Effect {
    /// List the entries of one kind.
    FetchEntries(FeedListViewType),
    /// Refresh every feed on the server, then list the entries of one kind.
    RefreshAllFeeds(FeedListViewType),
    SetReadStatus(i32, ReadStatus),
    ToggleStarred(i32),
    SaveEntry(i32),
    MarkAllAsRead(Vec<i32>),
    FetchOriginalContent(i32),
    OpenInBrowser(String),
}

/// How a background effect ended.
#[derive(Debug, PartialEq)]
pub enum EffectOutcome {
    Done,
    Entries(Vec<FeedEntry>),
    Content(String),
    /// The request failed: its HTTP status, if any, and a description.
    Failed(Option<u16>, String),
}

/// The message, if any, that reports the outcome of an effect.
pub open spec fn outcome_report(effect: Effect, outcome: EffectOutcome) -> Option<Message> {
    match outcome {
        EffectOutcome::Failed(status, text) => Some(Message::RequestErrorEncountered(status, text)),
        EffectOutcome::Entries(entries) => match effect {
            Effect::FetchEntries(_) | Effect::RefreshAllFeeds(_) => Some(
                Message::FeedEntriesReceived(entries),
            ),
            _ => None,
        },
        EffectOutcome::Content(content) => match effect {
            Effect::FetchOriginalContent(id) => Some(
                Message::OriginalEntryContentsReceived(id, content),
            ),
            _ => None,
        },
        EffectOutcome::Done => None,
    }
}

/// Turns the outcome of a background effect into the message for the inbox:
/// a failure always becomes an error message, fetched data becomes the
/// message that carries it, and a bare success reports nothing.
pub fn outcome_message(effect: &Effect, outcome: EffectOutcome) -> (r: Option<Message>)
    ensures
        r == outcome_report(*effect, outcome),
{
    match outcome {
        EffectOutcome::Failed(status, text) => Some(Message::RequestErrorEncountered(status, text)),
        EffectOutcome::Entries(entries) => match effect {
            Effect::FetchEntries(_) | Effect::RefreshAllFeeds(_) => Some(
                Message::FeedEntriesReceived(entries),
            ),
            _ => None,
        },
        EffectOutcome::Content(content) => match effect {
            Effect::FetchOriginalContent(id) => Some(
                Message::OriginalEntryContentsReceived(*id, content),
            ),
            _ => None,
        },
        EffectOutcome::Done => None,
    }
}

} // verus!
