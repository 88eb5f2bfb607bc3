//! The dispatcher: it owns navigation and the view-models, reduces each
//! message to a new state, the background effects to launch, and an optional
//! follow-up message.
use crate::config::ThemeConfig;
use crate::input::{KeyCode, KeyPress};
use crate::list::{list_command_for, FeedEntryListState, FeedListViewType, ListView};
use crate::message::{ComponentIds, Effect, Message};
use crate::nav::Navigation;
use crate::reader::{reader_command_for, ReadEntryView};
use crate::text::{error_banner, error_banner_text};
use vstd::prelude::*;

verus! {

/// A follow-up message as a value: a redraw request, or a batch of follow-ups.
pub enum FollowUp {
    Tick,
    Batch(Seq<FollowUp>),
}

/// Whether message `m` is the follow-up `f`.
pub open spec fn is_follow_up(m: Message, f: FollowUp) -> bool
    decreases f,
{
    match f {
        FollowUp::Tick => m == Message::Tick,
        FollowUp::Batch(fs) => m matches Message::Batch(v) && v@.len() == fs.len() && forall|i: int|
            0 <= i < fs.len() ==> (#[trigger] v@[i] matches Some(x) && is_follow_up(x, fs[i])),
    }
}

/// Whether an optional message is the optional follow-up `f`.
pub open spec fn answers(r: Option<Message>, f: Option<FollowUp>) -> bool {
    match f {
        None => r is None,
        Some(f) => r matches Some(m) && is_follow_up(m, f),
    }
}

/// The follow-ups of a batch, collected: none, the only one, or a batch.
pub open spec fn collapse(fs: Seq<FollowUp>) -> Option<FollowUp> {
    if fs.len() == 0 {
        None
    } else if fs.len() == 1 {
        Some(fs[0])
    } else {
        Some(FollowUp::Batch(fs))
    }
}

/// The dispatcher's state as a mathematical value.
pub struct ModelView {
    pub quit: bool,
    pub redraw: bool,
    pub navigation: Navigation,
    pub list: ListView,
    pub reader: ReadEntryView,
    pub error_message: Option<Seq<char>>,
    /// Effects launched and not yet handed to the runner, oldest first.
    pub effects: Seq<Effect>,
}

impl ModelView {
    pub open spec fn wf(self) -> bool {
        self.navigation.wf() && self.list.wf()
    }

    pub open spec fn launching(self, e: Effect) -> ModelView {
        ModelView { effects: self.effects.push(e), ..self }
    }

    pub open spec fn showing(self, v: ComponentIds) -> ModelView {
        ModelView { navigation: self.navigation.activated(v), ..self }
    }
}

/// The state in which the client starts, before its first refresh.
pub open spec fn initial_view(theme_config: ThemeConfig) -> ModelView {
    ModelView {
        quit: false,
        redraw: false,
        navigation: Navigation { current: ComponentIds::LoadingText, previous: None },
        list: ListView {
            entries: Seq::empty(),
            selected: 0,
            view_type: FeedListViewType::UnreadEntries,
        },
        reader: ReadEntryView { entry: None, scroll: 0, theme_config },
        error_message: None,
        effects: Seq::empty(),
    }
}

/// One message reduced: the new state and the follow-up, if any. Every
/// message but `Tick` and `AppClose` is followed by `Tick`; a batch reduces
/// its messages in order and collects their follow-ups.
pub open spec fn step(s: ModelView, m: Message) -> (ModelView, Option<FollowUp>)
    decreases m,
{
    let s = ModelView { redraw: true, ..s };
    let tick = Some(FollowUp::Tick);
    match m {
        Message::Batch(v) => {
            let (t, fs) = step_all(s, v@);
            (t, collapse(fs))
        },
        Message::Tick => (s, None),
        Message::AppClose => (ModelView { quit: true, ..s }, None),
        Message::RefreshRequested(t) => (
            s.launching(Effect::FetchEntries(t)).showing(ComponentIds::LoadingText),
            tick,
        ),
        Message::ForceRefreshRequested(t) => (
            s.launching(Effect::RefreshAllFeeds(t)).showing(ComponentIds::LoadingText),
            tick,
        ),
        Message::FeedEntriesReceived(entries) => (
            ModelView { list: s.list.with_entries(entries@), ..s }.showing(
                ComponentIds::FeedEntryList,
            ),
            tick,
        ),
        Message::EntrySelected(e) => (
            ModelView { reader: s.reader.opened(e), ..s }.showing(ComponentIds::ReadEntry),
            tick,
        ),
        Message::ReadEntryViewClosed => (s.showing(ComponentIds::FeedEntryList), tick),
        Message::ChangeEntryReadStatus(id, status) => (
            s.launching(Effect::SetReadStatus(id, status)),
            tick,
        ),
        Message::ToggleStarred(id) => (s.launching(Effect::ToggleStarred(id)), tick),
        Message::SaveEntry(id) => (s.launching(Effect::SaveEntry(id)), tick),
        Message::MarkAllAsRead(ids) => (s.launching(Effect::MarkAllAsRead(ids)), tick),
        Message::FetchOriginalEntryContentsRequested(id) => (
            s.launching(Effect::FetchOriginalContent(id)),
            tick,
        ),
        Message::OpenEntryInBrowser(url) => (s.launching(Effect::OpenInBrowser(url)), tick),
        Message::OriginalEntryContentsReceived(id, content) => (
            ModelView { reader: s.reader.with_original_content(id, content), ..s },
            tick,
        ),
        Message::ShowKeyboardHelp => (
            ModelView {
                navigation: s.navigation.with_overlay(ComponentIds::KeyboardHelp),
                ..s
            },
            tick,
        ),
        Message::HideKeyboardHelp => (ModelView { navigation: s.navigation.dismissed(), ..s }, tick),
        Message::RequestErrorEncountered(status, text) => (
            ModelView {
                error_message: Some(error_banner(status, text@)),
                navigation: s.navigation.with_overlay(ComponentIds::ErrorMessage),
                ..s
            },
            tick,
        ),
        Message::DismissError => (ModelView { navigation: s.navigation.dismissed(), ..s }, tick),
    }
}

/// The slots of a batch reduced in order: an empty slot changes nothing, and
/// the follow-ups that are not empty are collected.
pub open spec fn step_all(s: ModelView, q: Seq<Option<Message>>) -> (ModelView, Seq<FollowUp>)
    decreases q,
{
    if q.len() == 0 {
        (s, Seq::empty())
    } else {
        let (t, fs) = step_all(s, q.drop_last());
        match q.last() {
            Some(m) => {
                let (u, f) = step(t, m);
                match f {
                    Some(x) => (u, fs.push(x)),
                    None => (u, fs),
                }
            },
            None => (t, fs),
        }
    }
}

/// The message, if any, that a key press yields in the loading screen.
pub open spec fn loading_key(k: KeyPress) -> Option<Message> {
    if k.is_char('q') {
        Some(Message::AppClose)
    } else {
        None
    }
}

/// The message, if any, that a key press yields over an overlay: `q` quits,
/// `b` and Esc give `dismiss`.
pub open spec fn overlay_key(k: KeyPress, dismiss: Message) -> Option<Message> {
    if k.is_char('q') {
        Some(Message::AppClose)
    } else if k.is_char('b') || k.code == KeyCode::Esc {
        Some(dismiss)
    } else {
        None
    }
}

/// A key press handled by the view that is shown.
pub open spec fn handles_key(s: ModelView, k: KeyPress, post: ModelView, r: Option<Message>) -> bool {
    match s.navigation.current {
        ComponentIds::LoadingText => post == s && r == loading_key(k),
        ComponentIds::FeedEntryList => post == ModelView { list: post.list, ..s }
            && s.list.performs(list_command_for(k), post.list, r),
        ComponentIds::ReadEntry => post == ModelView { reader: post.reader, ..s } && (
        post.reader,
        r,
        ) == s.reader.performed(reader_command_for(k)),
        ComponentIds::KeyboardHelp => post == s && r == overlay_key(k, Message::HideKeyboardHelp),
        ComponentIds::ErrorMessage => post == s && r == overlay_key(k, Message::DismissError),
    }
}

/// Reducing a follow-up changes nothing but the redraw flag, and yields no
/// further message.
pub proof fn follow_up_settles(s: ModelView, m: Message, f: FollowUp)
    requires
        is_follow_up(m, f),
    ensures
        step(s, m) == (ModelView { redraw: true, ..s }, None::<FollowUp>),
    decreases f,
{
    if let FollowUp::Batch(fs) = f {
        let v = m->Batch_0;
        follow_ups_settle(ModelView { redraw: true, ..s }, v@, fs);
    }
}

proof fn follow_ups_settle(s: ModelView, q: Seq<Option<Message>>, fs: Seq<FollowUp>)
    requires
        s.redraw,
        q.len() == fs.len(),
        forall|i: int| 0 <= i < fs.len() ==> (#[trigger] q[i] matches Some(x) && is_follow_up(x, fs[i])),
    ensures
        step_all(s, q) == (s, Seq::<FollowUp>::empty()),
    decreases fs,
{
    if q.len() > 0 {
        let n = q.len() - 1;
        assert(q[n] matches Some(x) && is_follow_up(x, fs[n]));
        follow_ups_settle(s, q.drop_last(), fs.drop_last());
        follow_up_settles(s, q[n]->Some_0, fs[n]);
    }
}

/// Every message reduced asks for a redraw.
proof fn step_redraws(s: ModelView, m: Message)
    ensures
        step(s, m).0.redraw,
    decreases m,
{
    if let Message::Batch(v) = m {
        steps_keep_redraw(ModelView { redraw: true, ..s }, v@);
    }
}

proof fn steps_keep_redraw(s: ModelView, q: Seq<Option<Message>>)
    requires
        s.redraw,
    ensures
        step_all(s, q).0.redraw,
    decreases q,
{
    if q.len() > 0 {
        steps_keep_redraw(s, q.drop_last());
        if let Some(m) = q.last() {
            step_redraws(step_all(s, q.drop_last()).0, m);
        }
    }
}

/// Empty slots in a batch are skipped: a batch of `a`, nothing and `b`
/// reduces exactly as the batch of `a` and `b`.
pub proof fn batch_skips_empty_slots(
    s: ModelView,
    a: Message,
    b: Message,
    with_gap: Vec<Option<Message>>,
    without_gap: Vec<Option<Message>>,
)
    requires
        with_gap@ == seq![Some(a), None, Some(b)],
        without_gap@ == seq![Some(a), Some(b)],
    ensures
        step(s, Message::Batch(with_gap)) == step(s, Message::Batch(without_gap)),
{
    let s1 = ModelView { redraw: true, ..s };
    assert(with_gap@.drop_last() =~= seq![Some(a), None]);
    assert(with_gap@.drop_last().drop_last() =~= seq![Some(a)]);
    assert(without_gap@.drop_last() =~= seq![Some(a)]);
    assert(seq![Some(a)].drop_last() =~= Seq::<Option<Message>>::empty());
    assert(step_all(s1, with_gap@.drop_last()) == step_all(s1, seq![Some(a)]));
}

/// Receiving no entries leaves the list in its zero state, shown, with no
/// effect launched; reducing the follow-up launches none either, so the
/// zero state never starts a refresh by itself.
pub proof fn no_entries_show_zero_state(s: ModelView, entries: Vec<crate::feed::FeedEntry>)
    requires
        entries@.len() == 0,
    ensures
        ({
            let (t, f) = step(s, Message::FeedEntriesReceived(entries));
            &&& t.list.is_zero_state()
            &&& t.navigation.current == ComponentIds::FeedEntryList
            &&& t.effects == s.effects
            &&& f == Some(FollowUp::Tick)
            &&& step(t, Message::Tick).0.effects == s.effects
            &&& step(t, Message::Tick).1 is None
        }),
{
}

/// The client's state: the shown view, the entry list, the reading view, the
/// error banner's text, and the effects waiting to be launched.
pub struct Model {
    pub quit: bool,
    pub redraw: bool,
    pub navigation: Navigation,
    pub entry_list: FeedEntryListState,
    pub reader: ReadEntryView,
    pub error_message: Option<String>,
    pub effects: Vec<Effect>,
}

impl View for Model {
    type V = ModelView;

    open spec fn view(&self) -> ModelView {
        ModelView {
            quit: self.quit,
            redraw: self.redraw,
            navigation: self.navigation,
            list: self.entry_list@,
            reader: self.reader,
            error_message: match self.error_message {
                Some(t) => Some(t@),
                None => None,
            },
            effects: self.effects@,
        }
    }
}

impl Model {
    pub open spec fn wf(&self) -> bool {
        self@.wf()
    }

    /// The client at start: the loading screen, with the unread entries
    /// being fetched.
    pub fn new(theme_config: ThemeConfig) -> (r: Model)
        ensures
            r@ == step(initial_view(theme_config), Message::RefreshRequested(FeedListViewType::UnreadEntries)).0,
            r.wf(),
    {
        let mut m = Model {
            quit: false,
            redraw: false,
            navigation: Navigation::new(),
            entry_list: FeedEntryListState::new(Vec::new()),
            reader: ReadEntryView::new(None, theme_config),
            error_message: None,
            effects: Vec::new(),
        };
        assert(m@ == initial_view(theme_config));
        m.update(Some(Message::RefreshRequested(FeedListViewType::UnreadEntries)));
        m
    }

    fn launch(&mut self, e: Effect)
        ensures
            *final(self) == (Model { effects: final(self).effects, ..*old(self) }),
            final(self).effects@ == old(self).effects@.push(e),
    {
        self.effects.push(e);
    }

    /// Reduces one message; `None` is no message, and changes nothing.
    pub fn update(&mut self, msg: Option<Message>) -> (r: Option<Message>)
        requires
            old(self).wf(),
        ensures
            final(self).wf(),
            match msg {
                None => final(self)@ == old(self)@ && r is None,
                Some(m) => final(self)@ == step(old(self)@, m).0 && answers(r, step(old(self)@, m).1),
            },
        decreases msg,
    {
        let ghost whole = msg;
        let m = match msg {
            None => return None,
            Some(m) => m,
        };
        self.redraw = true;
        match m {
            Message::Batch(mut msgs) => {
                let ghost q = msgs@;
                let ghost s0 = self@;
                let ghost mut fs: Seq<FollowUp> = Seq::empty();
                let mut results: Vec<Option<Message>> = Vec::new();
                let n = msgs.len();
                let mut i: usize = 0;
                assert(q.take(0) =~= Seq::<Option<Message>>::empty());
                while i < n
                    invariant
                        self.wf(),
                        n == q.len(),
                        i <= n,
                        msgs@ =~= q.skip(i as int),
                        whole == msg,
                        whole matches Some(Message::Batch(v)) && v@ == q,
                        (self@, fs) == step_all(s0, q.take(i as int)),
                        results@.len() == fs.len(),
                        forall|j: int|
                            0 <= j < fs.len() ==> (#[trigger] results@[j] matches Some(x)
                                && is_follow_up(x, fs[j])),
                    decreases n - i,
                {
                    assert(msgs@[0] == q[i as int]);
                    let item = msgs.remove(0);
                    proof {
                        let v = whole->Some_0->Batch_0;
                        assert(decreases_to!(whole => whole->Some_0));
                        assert(decreases_to!(whole->Some_0 => v));
                        assert(decreases_to!(v => v@));
                        assert(decreases_to!(v@ => v@[i as int]));
                        assert(q.take(i + 1).drop_last() =~= q.take(i as int));
                        assert(q.take(i + 1).last() == item);
                    }
                    let ghost before = self@;
                    let r = self.update(item);
                    match r {
                        Some(x) => {
                            proof {
                                fs = fs.push(step(before, item->Some_0).1->Some_0);
                            }
                            results.push(Some(x));
                        },
                        None => {},
                    }
                    i += 1;
                    assert(msgs@ =~= q.skip(i as int));
                }
                assert(q.take(n as int) =~= q);
                let k = results.len();
                if k == 0 {
                    None
                } else if k == 1 {
                    results.remove(0)
                } else {
                    Some(Message::Batch(results))
                }
            },
            Message::Tick => None,
            Message::AppClose => {
                self.quit = true;
                None
            },
            Message::RefreshRequested(t) => {
                self.launch(Effect::FetchEntries(t));
                self.navigation.activate(ComponentIds::LoadingText);
                Some(Message::Tick)
            },
            Message::ForceRefreshRequested(t) => {
                self.launch(Effect::RefreshAllFeeds(t));
                self.navigation.activate(ComponentIds::LoadingText);
                Some(Message::Tick)
            },
            Message::FeedEntriesReceived(entries) => {
                self.entry_list.replace_entries(entries);
                self.navigation.activate(ComponentIds::FeedEntryList);
                Some(Message::Tick)
            },
            Message::EntrySelected(e) => {
                self.reader.open(e);
                self.navigation.activate(ComponentIds::ReadEntry);
                Some(Message::Tick)
            },
            Message::ReadEntryViewClosed => {
                self.navigation.activate(ComponentIds::FeedEntryList);
                Some(Message::Tick)
            },
            Message::ChangeEntryReadStatus(id, status) => {
                self.launch(Effect::SetReadStatus(id, status));
                Some(Message::Tick)
            },
            Message::ToggleStarred(id) => {
                self.launch(Effect::ToggleStarred(id));
                Some(Message::Tick)
            },
            Message::SaveEntry(id) => {
                self.launch(Effect::SaveEntry(id));
                Some(Message::Tick)
            },
            Message::MarkAllAsRead(ids) => {
                self.launch(Effect::MarkAllAsRead(ids));
                Some(Message::Tick)
            },
            Message::FetchOriginalEntryContentsRequested(id) => {
                self.launch(Effect::FetchOriginalContent(id));
                Some(Message::Tick)
            },
            Message::OpenEntryInBrowser(url) => {
                self.launch(Effect::OpenInBrowser(url));
                Some(Message::Tick)
            },
            Message::OriginalEntryContentsReceived(id, content) => {
                self.reader.set_original_content(id, content);
                Some(Message::Tick)
            },
            Message::ShowKeyboardHelp => {
                self.navigation.show_overlay(ComponentIds::KeyboardHelp);
                Some(Message::Tick)
            },
            Message::HideKeyboardHelp => {
                self.navigation.dismiss_overlay();
                Some(Message::Tick)
            },
            Message::RequestErrorEncountered(status, text) => {
                self.error_message = Some(error_banner_text(status, text.as_str()));
                self.navigation.show_overlay(ComponentIds::ErrorMessage);
                Some(Message::Tick)
            },
            Message::DismissError => {
                self.navigation.dismiss_overlay();
                Some(Message::Tick)
            },
        }
    }

    /// Reduces a message and then its follow-up, if any. A follow-up is a
    /// redraw request or a batch of them, which settles in that one further
    /// step, so the state reached is the one the message alone leads to.
    pub fn dispatch(&mut self, msg: Message)
        requires
            old(self).wf(),
        ensures
            final(self)@ == step(old(self)@, msg).0,
            final(self).wf(),
    {
        let ghost f = step(self@, msg).1;
        let follow_up = self.update(Some(msg));
        if let Some(next) = follow_up {
            let ghost s1 = self@;
            proof {
                follow_up_settles(s1, next, f->Some_0);
                step_redraws(old(self)@, msg);
                assert(ModelView { redraw: true, ..s1 } == s1);
            }
            self.update(Some(next));
        }
    }

    /// Hands the launched effects to the runner, oldest first.
    pub fn take_effects(&mut self) -> (r: Vec<Effect>)
        ensures
            r@ == old(self).effects@,
            final(self)@ == (ModelView { effects: Seq::empty(), ..old(self)@ }),
    {
        let mut taken: Vec<Effect> = Vec::new();
        std::mem::swap(&mut taken, &mut self.effects);
        taken
    }

    /// Whether the screen is to be drawn again; the request is cleared.
    pub fn take_redraw(&mut self) -> (r: bool)
        ensures
            r == old(self).redraw,
            final(self)@ == (ModelView { redraw: false, ..old(self)@ }),
    {
        let r = self.redraw;
        self.redraw = false;
        r
    }

    /// Hands a key press to the view that is shown.
    pub fn on_key(&mut self, key: KeyPress) -> (r: Option<Message>)
        requires
            old(self).wf(),
        ensures
            handles_key(old(self)@, key, final(self)@, r),
            final(self).wf(),
    {
        match self.navigation.current {
            ComponentIds::LoadingText => {
                if key.char_is('q') {
                    Some(Message::AppClose)
                } else {
                    None
                }
            },
            ComponentIds::FeedEntryList => self.entry_list.on(key),
            ComponentIds::ReadEntry => self.reader.on(key),
            ComponentIds::KeyboardHelp => overlay_message(key, Message::HideKeyboardHelp),
            ComponentIds::ErrorMessage => overlay_message(key, Message::DismissError),
        }
    }
}

fn overlay_message(k: KeyPress, dismiss: Message) -> (r: Option<Message>)
    ensures
        r == overlay_key(k, dismiss),
{
    if k.char_is('q') {
        Some(Message::AppClose)
    } else if k.char_is('b') || k.code == KeyCode::Esc {
        Some(dismiss)
    } else {
        None
    }
}

} // verus!
