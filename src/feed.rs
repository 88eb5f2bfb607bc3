//! Feeds and entries as the feed service reports them.
use vstd::prelude::*;

verus! {

/// Whether an entry has been read.
#[derive(Clone, Copy, Debug, PartialEq, Eq, Structural)]
pub enum ReadStatus {
    Read,
    Unread,
}

impl ReadStatus {
    /// The other status.
    pub open spec fn flipped(self) -> ReadStatus {
        match self {
            ReadStatus::Read => ReadStatus::Unread,
            ReadStatus::Unread => ReadStatus::Read,
        }
    }

    /// The status as the feed service spells it.
    pub open spec fn name(self) -> Seq<char> {
        match self {
            ReadStatus::Read => "read"@,
            ReadStatus::Unread => "unread"@,
        }
    }

    pub fn toggle(&self) -> (r: ReadStatus)
        ensures
            r == self.flipped(),
    {
        match self {
            ReadStatus::Read => ReadStatus::Unread,
            ReadStatus::Unread => ReadStatus::Read,
        }
    }

    pub fn to_string(&self) -> (r: String)
        ensures
            r@ == self.name(),
    {
        match self {
            ReadStatus::Read => String::from_str("read"),
            ReadStatus::Unread => String::from_str("unread"),
        }
    }
}

/// The identity of a remote feed.
#[derive(Debug, PartialEq)]
pub struct Feed {
    pub id: i32,
    pub title: String,
    pub site_url: String,
    pub feed_url: String,
}

impl Clone for Feed {
    fn clone(&self) -> (r: Self)
        ensures
            r == *self,
    {
        Feed {
            id: self.id,
            title: self.title.clone(),
            site_url: self.site_url.clone(),
            feed_url: self.feed_url.clone(),
        }
    }
}

/// One syndicated item, with its read and starred flags.
#[derive(Debug, PartialEq)]
pub struct FeedEntry {
    pub id: i32,
    pub feed_id: i32,
    pub title: String,
    pub url: String,
    pub content: String,
    pub feed: Feed,
    pub status: ReadStatus,
    pub starred: bool,
    /// The full article, once fetched on demand; shown in place of `content`.
    pub original_content: Option<String>,
}

impl Clone for FeedEntry {
    fn clone(&self) -> (r: Self)
        ensures
            r == *self,
    {
        let original_content = match &self.original_content {
            Some(c) => Some(c.clone()),
            None => None,
        };
        FeedEntry {
            id: self.id,
            feed_id: self.feed_id,
            title: self.title.clone(),
            url: self.url.clone(),
            content: self.content.clone(),
            feed: self.feed.clone(),
            status: self.status,
            starred: self.starred,
            original_content,
        }
    }
}

/// The marker written before the title of a starred entry.
pub open spec fn star_marker() -> Seq<char> {
    "\u{1F7CA} "@
}

impl FeedEntry {
    /// The entry with another read status.
    pub open spec fn with_status(self, status: ReadStatus) -> FeedEntry {
        FeedEntry { status, ..self }
    }

    /// The entry with its starred flag flipped.
    pub open spec fn star_flipped(self) -> FeedEntry {
        FeedEntry { starred: !self.starred, ..self }
    }

    /// The title line of an entry: padded with one space on each side, and
    /// marked when the entry is starred.
    pub open spec fn title_line(self) -> Seq<char> {
        " "@ + (if self.starred { star_marker() } else { Seq::empty() }) + self.title@ + " "@
    }

    /// The text to show for the entry: the fetched article if there is one,
    /// else the summary that came with the entry.
    pub open spec fn body(self) -> Seq<char> {
        match self.original_content {
            Some(c) => c@,
            None => self.content@,
        }
    }

    pub fn display_title(&self) -> (r: String)
        ensures
            r@ == self.title_line(),
    {
        let mut r = String::from_str(" ");
        if self.starred {
            r.append("\u{1F7CA} ");
        }
        r.append(self.title.as_str());
        r.append(" ");
        r
    }

    pub fn body_text(&self) -> (r: &String)
        ensures
            r@ == self.body(),
    {
        match &self.original_content {
            Some(c) => c,
            None => &self.content,
        }
    }
}

} // verus!
