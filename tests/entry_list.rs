use cliflux::feed::{Feed, FeedEntry, ReadStatus};
use cliflux::list::{FeedEntryListState, FeedListViewType};
use cliflux::input::Direction;
use cliflux::message::Message;

fn entry(id: i32, status: ReadStatus) -> FeedEntry {
    FeedEntry {
        id,
        feed_id: 7,
        title: format!("Entry {}", id),
        url: format!("https://example.org/{}", id),
        content: format!("<p>Body {}</p>", id),
        feed: Feed {
            id: 7,
            title: "Example".to_string(),
            site_url: "https://example.org".to_string(),
            feed_url: "https://example.org/feed".to_string(),
        },
        status,
        starred: false,
        original_content: None,
    }
}

#[test]
fn selection_clamps_at_both_ends() {
    let mut list = FeedEntryListState::new(vec![
        entry(1, ReadStatus::Unread),
        entry(2, ReadStatus::Unread),
        entry(3, ReadStatus::Read),
    ]);
    list.move_selection(Direction::Up);
    assert_eq!(list.selected, 0);
    for _ in 0..5 {
        list.move_selection(Direction::Down);
    }
    assert_eq!(list.selected, 2);
    list.move_selection(Direction::Up);
    assert_eq!(list.selected, 1);
}

#[test]
fn selection_of_empty_list_stays_zero() {
    let mut list = FeedEntryListState::new(vec![]);
    list.move_selection(Direction::Down);
    list.move_selection(Direction::Up);
    assert_eq!(list.selected, 0);
    assert!(list.is_zero_state());
}

#[test]
fn replacing_entries_clamps_selection() {
    let mut list = FeedEntryListState::new(vec![
        entry(1, ReadStatus::Unread),
        entry(2, ReadStatus::Unread),
        entry(3, ReadStatus::Unread),
    ]);
    list.move_selection(Direction::Down);
    list.move_selection(Direction::Down);
    list.replace_entries(vec![entry(4, ReadStatus::Unread)]);
    assert_eq!(list.selected, 0);
    assert_eq!(list.entries[0].id, 4);
    list.replace_entries(vec![]);
    assert_eq!(list.selected, 0);
}

#[test]
fn toggle_read_twice_restores_status() {
    let mut list = FeedEntryListState::new(vec![entry(1, ReadStatus::Unread), entry(2, ReadStatus::Read)]);
    let first = list.toggle_read_at(1);
    assert_eq!(first, Some(Message::ChangeEntryReadStatus(2, ReadStatus::Unread)));
    assert_eq!(list.entries[1].status, ReadStatus::Unread);
    let second = list.toggle_read_at(1);
    assert_eq!(second, Some(Message::ChangeEntryReadStatus(2, ReadStatus::Read)));
    assert_eq!(list.entries[1], entry(2, ReadStatus::Read));
}

#[test]
fn toggles_out_of_bounds_do_nothing() {
    let mut list = FeedEntryListState::new(vec![entry(1, ReadStatus::Unread)]);
    assert_eq!(list.toggle_read_at(1), None);
    assert_eq!(list.toggle_starred_at(5), None);
    assert_eq!(list.save_entry(1), None);
    assert_eq!(list.entries[0], entry(1, ReadStatus::Unread));
}

#[test]
fn toggle_starred_flips_flag() {
    let mut list = FeedEntryListState::new(vec![entry(1, ReadStatus::Unread)]);
    assert_eq!(list.toggle_starred_at(0), Some(Message::ToggleStarred(1)));
    assert!(list.entries[0].starred);
    list.toggle_starred_at(0);
    assert!(!list.entries[0].starred);
}

#[test]
fn cycle_twice_returns_to_start() {
    let t = FeedListViewType::UnreadEntries;
    assert_eq!(t.cycle(), FeedListViewType::StarredEntries);
    assert_eq!(t.cycle().cycle(), t);
    let mut list = FeedEntryListState::new(vec![]);
    assert_eq!(list.cycle_view_type(), Message::RefreshRequested(FeedListViewType::StarredEntries));
    assert_eq!(list.cycle_view_type(), Message::RefreshRequested(FeedListViewType::UnreadEntries));
    assert_eq!(list.view_type, FeedListViewType::UnreadEntries);
}

#[test]
fn view_type_titles() {
    assert_eq!(FeedListViewType::UnreadEntries.title(), " Unread Entries ");
    assert_eq!(FeedListViewType::StarredEntries.title(), " Starred Entries ");
}

#[test]
fn mark_all_as_read_carries_every_id_once() {
    let mut list = FeedEntryListState::new(vec![entry(1, ReadStatus::Unread), entry(2, ReadStatus::Unread)]);
    let r = list.mark_all_as_read();
    assert_eq!(r, Some(Message::MarkAllAsRead(vec![1, 2])));
    assert!(list.entries.iter().all(|e| e.status == ReadStatus::Read));
}

#[test]
fn mark_all_as_read_on_empty_list_asks_nothing() {
    let mut list = FeedEntryListState::new(vec![]);
    assert_eq!(list.mark_all_as_read(), None);
}

#[test]
fn submit_on_read_entry_only_opens_it() {
    let mut list = FeedEntryListState::new(vec![entry(2, ReadStatus::Read)]);
    let r = list.submit_selected();
    assert_eq!(
        r,
        Some(Message::Batch(vec![None, Some(Message::EntrySelected(entry(2, ReadStatus::Read)))]))
    );
}

#[test]
fn entry_title_line_marks_starred() {
    let mut e = entry(1, ReadStatus::Unread);
    assert_eq!(e.display_title(), " Entry 1 ");
    e.starred = true;
    assert_eq!(e.display_title(), " \u{1F7CA} Entry 1 ");
}

#[test]
fn entry_body_prefers_original_content() {
    let mut e = entry(1, ReadStatus::Unread);
    assert_eq!(e.body_text(), "<p>Body 1</p>");
    e.original_content = Some("full".to_string());
    assert_eq!(e.body_text(), "full");
}

#[test]
fn read_status_names_and_toggle() {
    assert_eq!(ReadStatus::Read.to_string(), "read");
    assert_eq!(ReadStatus::Unread.to_string(), "unread");
    assert_eq!(ReadStatus::Read.toggle(), ReadStatus::Unread);
    assert_eq!(ReadStatus::Unread.toggle(), ReadStatus::Read);
}
