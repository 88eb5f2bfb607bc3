use cliflux::config::ThemeConfig;
use cliflux::feed::{Feed, FeedEntry, ReadStatus};
use cliflux::input::{KeyCode, KeyPress, Modifiers};
use cliflux::list::FeedListViewType;
use cliflux::message::{outcome_message, ComponentIds, Effect, EffectOutcome, Message};
use cliflux::model::Model;
use cliflux::text::error_banner_text;

fn entry(id: i32, status: ReadStatus) -> FeedEntry {
    FeedEntry {
        id,
        feed_id: 3,
        title: format!("Title {}", id),
        url: format!("https://news.example.com/{}", id),
        content: format!("summary {}", id),
        feed: Feed {
            id: 3,
            title: "News".to_string(),
            site_url: "https://news.example.com".to_string(),
            feed_url: "https://news.example.com/rss".to_string(),
        },
        status,
        starred: false,
        original_content: None,
    }
}

fn key(c: char) -> KeyPress {
    KeyPress { code: KeyCode::Char(c), modifiers: Modifiers::Plain }
}

fn code(code: KeyCode) -> KeyPress {
    KeyPress { code, modifiers: Modifiers::Plain }
}

fn press(model: &mut Model, k: KeyPress) {
    if let Some(m) = model.on_key(k) {
        model.dispatch(m);
    }
}

fn list_model(entries: Vec<FeedEntry>) -> Model {
    let mut model = Model::new(ThemeConfig::default());
    model.take_effects();
    model.dispatch(Message::FeedEntriesReceived(entries));
    model
}

#[test]
fn refresh_then_entries_received() {
    let mut model = Model::new(ThemeConfig::default());
    assert_eq!(model.navigation.current, ComponentIds::LoadingText);
    assert_eq!(model.take_effects(), vec![Effect::FetchEntries(FeedListViewType::UnreadEntries)]);
    model.dispatch(Message::RefreshRequested(FeedListViewType::UnreadEntries));
    assert_eq!(model.take_effects(), vec![Effect::FetchEntries(FeedListViewType::UnreadEntries)]);
    assert_eq!(model.navigation.current, ComponentIds::LoadingText);
    let e1 = entry(1, ReadStatus::Unread);
    let e2 = entry(2, ReadStatus::Unread);
    model.dispatch(Message::FeedEntriesReceived(vec![e1.clone(), e2.clone()]));
    assert_eq!(model.navigation.current, ComponentIds::FeedEntryList);
    assert_eq!(model.entry_list.entries, vec![e1, e2]);
    assert_eq!(model.entry_list.selected, 0);
    assert!(model.take_effects().is_empty());
}

#[test]
fn submit_marks_read_and_opens_entry() {
    let e1 = entry(1, ReadStatus::Unread);
    let e2 = entry(2, ReadStatus::Read);
    let mut model = list_model(vec![e1.clone(), e2.clone()]);
    press(&mut model, code(KeyCode::Enter));
    assert_eq!(model.entry_list.entries[0].status, ReadStatus::Read);
    assert_eq!(model.entry_list.entries[1], e2);
    assert_eq!(model.take_effects(), vec![Effect::SetReadStatus(1, ReadStatus::Read)]);
    assert_eq!(model.navigation.current, ComponentIds::ReadEntry);
    let mut opened = e1.clone();
    opened.status = ReadStatus::Read;
    assert_eq!(model.reader.entry, Some(opened));
    assert_eq!(model.reader.scroll, 0);
}

#[test]
fn scrolling_up_stops_at_zero() {
    let mut model = list_model(vec![entry(1, ReadStatus::Read)]);
    model.dispatch(Message::EntrySelected(entry(1, ReadStatus::Read)));
    for _ in 0..3 {
        press(&mut model, key('j'));
    }
    assert_eq!(model.reader.scroll, 3);
    for _ in 0..5 {
        press(&mut model, key('k'));
    }
    assert_eq!(model.reader.scroll, 0);
}

#[test]
fn page_scrolling_moves_eight_lines() {
    let mut model = list_model(vec![entry(1, ReadStatus::Read)]);
    model.dispatch(Message::EntrySelected(entry(1, ReadStatus::Read)));
    press(&mut model, code(KeyCode::PageDown));
    press(&mut model, code(KeyCode::PageDown));
    assert_eq!(model.reader.scroll, 16);
    press(&mut model, code(KeyCode::Down));
    press(&mut model, code(KeyCode::PageUp));
    assert_eq!(model.reader.scroll, 9);
    press(&mut model, code(KeyCode::PageUp));
    assert_eq!(model.reader.scroll, 1);
    press(&mut model, code(KeyCode::PageUp));
    assert_eq!(model.reader.scroll, 0);
}

#[test]
fn scroll_down_stops_at_largest_offset() {
    let mut model = list_model(vec![entry(1, ReadStatus::Read)]);
    model.dispatch(Message::EntrySelected(entry(1, ReadStatus::Read)));
    model.reader.scroll = u16::MAX - 3;
    press(&mut model, code(KeyCode::PageDown));
    assert_eq!(model.reader.scroll, u16::MAX);
    press(&mut model, key('j'));
    assert_eq!(model.reader.scroll, u16::MAX);
}

#[test]
fn error_banner_then_dismiss() {
    let mut model = list_model(vec![entry(1, ReadStatus::Unread)]);
    model.dispatch(Message::RequestErrorEncountered(Some(404), "not found".to_string()));
    assert_eq!(model.navigation.current, ComponentIds::ErrorMessage);
    assert_eq!(model.error_message.as_deref(), Some("Error 404: not found"));
    model.dispatch(Message::DismissError);
    assert_eq!(model.navigation.current, ComponentIds::FeedEntryList);
    assert_eq!(model.navigation.previous, None);
}

#[test]
fn error_banner_without_status() {
    assert_eq!(error_banner_text(None, "timed out"), "Error UNKNOWN: timed out");
    assert_eq!(error_banner_text(Some(0), "x"), "Error 0: x");
    assert_eq!(error_banner_text(Some(500), ""), "Error 500: ");
    assert_eq!(error_banner_text(Some(65535), "y"), "Error 65535: y");
}

#[test]
fn mark_all_read_from_list_launches_one_effect() {
    let mut model = list_model(vec![entry(1, ReadStatus::Unread), entry(2, ReadStatus::Unread)]);
    press(&mut model, key('a'));
    assert!(model.entry_list.entries.iter().all(|e| e.status == ReadStatus::Read));
    assert_eq!(model.take_effects(), vec![Effect::MarkAllAsRead(vec![1, 2])]);
}

#[test]
fn batch_with_empty_slot_has_same_follow_up() {
    let mut with_gap = list_model(vec![entry(1, ReadStatus::Unread)]);
    let mut without_gap = list_model(vec![entry(1, ReadStatus::Unread)]);
    let a = with_gap.update(Some(Message::Batch(vec![
        Some(Message::ToggleStarred(1)),
        None,
        Some(Message::SaveEntry(1)),
    ])));
    let b = without_gap.update(Some(Message::Batch(vec![
        Some(Message::ToggleStarred(1)),
        Some(Message::SaveEntry(1)),
    ])));
    assert_eq!(a, Some(Message::Batch(vec![Some(Message::Tick), Some(Message::Tick)])));
    assert_eq!(a, b);
    assert_eq!(with_gap.take_effects(), without_gap.take_effects());
}

#[test]
fn batch_follow_ups_collapse() {
    let mut model = list_model(vec![]);
    assert_eq!(model.update(Some(Message::Batch(vec![]))), None);
    assert_eq!(model.update(Some(Message::Batch(vec![None, Some(Message::Tick)]))), None);
    assert_eq!(
        model.update(Some(Message::Batch(vec![Some(Message::Tick), Some(Message::SaveEntry(4))]))),
        Some(Message::Tick)
    );
    assert_eq!(model.update(None), None);
}

#[test]
fn empty_entries_show_zero_state_without_refresh() {
    let mut model = list_model(vec![entry(1, ReadStatus::Unread)]);
    model.take_effects();
    model.dispatch(Message::FeedEntriesReceived(vec![]));
    assert!(model.entry_list.is_zero_state());
    assert_eq!(model.navigation.current, ComponentIds::FeedEntryList);
    assert_eq!(model.update(Some(Message::Tick)), None);
    assert!(model.take_effects().is_empty());
}

#[test]
fn quit_sets_flag_without_follow_up() {
    let mut model = list_model(vec![]);
    assert_eq!(model.on_key(key('q')), Some(Message::AppClose));
    assert_eq!(model.update(Some(Message::AppClose)), None);
    assert!(model.quit);
}

#[test]
fn help_overlay_returns_to_reading_view() {
    let mut model = list_model(vec![entry(1, ReadStatus::Read)]);
    model.dispatch(Message::EntrySelected(entry(1, ReadStatus::Read)));
    press(&mut model, key('?'));
    assert_eq!(model.navigation.current, ComponentIds::KeyboardHelp);
    assert_eq!(model.navigation.previous, Some(ComponentIds::ReadEntry));
    model.dispatch(Message::RequestErrorEncountered(None, "boom".to_string()));
    assert_eq!(model.navigation.current, ComponentIds::ErrorMessage);
    assert_eq!(model.navigation.previous, Some(ComponentIds::ReadEntry));
    press(&mut model, code(KeyCode::Esc));
    assert_eq!(model.navigation.current, ComponentIds::ReadEntry);
    press(&mut model, key('?'));
    press(&mut model, key('b'));
    assert_eq!(model.navigation.current, ComponentIds::ReadEntry);
    assert_eq!(model.navigation.previous, None);
}

#[test]
fn hide_help_without_previous_goes_to_list() {
    let mut model = Model::new(ThemeConfig::default());
    model.dispatch(Message::HideKeyboardHelp);
    assert_eq!(model.navigation.current, ComponentIds::FeedEntryList);
}

#[test]
fn refresh_keys_in_list() {
    let mut model = list_model(vec![]);
    assert_eq!(model.on_key(key('r')), Some(Message::RefreshRequested(FeedListViewType::UnreadEntries)));
    let shifted_r = KeyPress { code: KeyCode::Char('R'), modifiers: Modifiers::Shift };
    assert_eq!(model.on_key(shifted_r), Some(Message::ForceRefreshRequested(FeedListViewType::UnreadEntries)));
    let ctrl_r = KeyPress { code: KeyCode::Char('r'), modifiers: Modifiers::Other };
    assert_eq!(model.on_key(ctrl_r), None);
    assert_eq!(model.on_key(key('v')), Some(Message::RefreshRequested(FeedListViewType::StarredEntries)));
    model.dispatch(Message::ForceRefreshRequested(FeedListViewType::StarredEntries));
    assert_eq!(model.navigation.current, ComponentIds::LoadingText);
    assert_eq!(model.take_effects(), vec![Effect::RefreshAllFeeds(FeedListViewType::StarredEntries)]);
}

#[test]
fn reading_view_actions() {
    let mut model = list_model(vec![entry(5, ReadStatus::Read)]);
    model.dispatch(Message::EntrySelected(entry(5, ReadStatus::Read)));
    assert_eq!(model.on_key(key('u')), Some(Message::ChangeEntryReadStatus(5, ReadStatus::Unread)));
    assert_eq!(model.reader.entry.as_ref().unwrap().status, ReadStatus::Unread);
    assert_eq!(model.on_key(key('m')), Some(Message::ChangeEntryReadStatus(5, ReadStatus::Read)));
    assert_eq!(model.on_key(key('s')), Some(Message::ToggleStarred(5)));
    assert!(model.reader.entry.as_ref().unwrap().starred);
    assert_eq!(model.on_key(key('e')), Some(Message::SaveEntry(5)));
    let shifted_f = KeyPress { code: KeyCode::Char('F'), modifiers: Modifiers::Shift };
    assert_eq!(model.on_key(shifted_f), Some(Message::FetchOriginalEntryContentsRequested(5)));
    assert_eq!(
        model.on_key(key('o')),
        Some(Message::OpenEntryInBrowser("https://news.example.com/5".to_string()))
    );
    assert_eq!(model.on_key(key('b')), Some(Message::ReadEntryViewClosed));
    assert_eq!(model.reader.entry, None);
    assert_eq!(model.on_key(key('s')), None);
}

#[test]
fn original_content_replaces_body_of_open_entry() {
    let mut model = list_model(vec![entry(5, ReadStatus::Read)]);
    model.dispatch(Message::EntrySelected(entry(5, ReadStatus::Read)));
    press(&mut model, key('j'));
    model.dispatch(Message::FetchOriginalEntryContentsRequested(5));
    assert_eq!(model.take_effects(), vec![Effect::FetchOriginalContent(5)]);
    model.dispatch(Message::OriginalEntryContentsReceived(6, "other".to_string()));
    assert_eq!(model.reader.scroll, 1);
    assert_eq!(model.reader.entry.as_ref().unwrap().original_content, None);
    model.dispatch(Message::OriginalEntryContentsReceived(5, "full article".to_string()));
    assert_eq!(model.reader.scroll, 0);
    assert_eq!(model.reader.entry.as_ref().unwrap().body_text(), "full article");
}

#[test]
fn loading_screen_only_quits() {
    let mut model = Model::new(ThemeConfig::default());
    assert_eq!(model.on_key(key('j')), None);
    assert_eq!(model.on_key(key('q')), Some(Message::AppClose));
}

#[test]
fn redraw_is_requested_and_cleared() {
    let mut model = Model::new(ThemeConfig::default());
    assert!(model.take_redraw());
    assert!(!model.take_redraw());
    model.dispatch(Message::Tick);
    assert!(model.take_redraw());
}

#[test]
fn outcomes_become_messages() {
    let fetch = Effect::FetchEntries(FeedListViewType::UnreadEntries);
    assert_eq!(
        outcome_message(&fetch, EffectOutcome::Entries(vec![entry(1, ReadStatus::Unread)])),
        Some(Message::FeedEntriesReceived(vec![entry(1, ReadStatus::Unread)]))
    );
    assert_eq!(
        outcome_message(&Effect::SaveEntry(3), EffectOutcome::Failed(Some(500), "server error".to_string())),
        Some(Message::RequestErrorEncountered(Some(500), "server error".to_string()))
    );
    assert_eq!(outcome_message(&Effect::SaveEntry(3), EffectOutcome::Done), None);
    assert_eq!(
        outcome_message(&Effect::FetchOriginalContent(9), EffectOutcome::Content("text".to_string())),
        Some(Message::OriginalEntryContentsReceived(9, "text".to_string()))
    );
}
