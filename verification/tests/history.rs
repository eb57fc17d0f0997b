use term_cat::newtype::MessageBody;
use term_cat::tui::{ChatHistory, HistoryEntry};

fn describe(e: &HistoryEntry) -> (&'static str, String) {
    match e {
        HistoryEntry::User(b) => ("user", b.as_str().to_owned()),
        HistoryEntry::AssistantPartial(b) => ("partial", b.as_str().to_owned()),
        HistoryEntry::AssistantComplete(b) => ("complete", b.as_str().to_owned()),
        HistoryEntry::ToolInvoked(b) => ("invoked", b.as_str().to_owned()),
        HistoryEntry::ToolReturned(b) => ("returned", b.as_str().to_owned()),
        HistoryEntry::Error(b) => ("error", b.as_str().to_owned()),
    }
}

fn entries(h: &ChatHistory) -> Vec<(&'static str, String)> {
    h.entries().iter().map(describe).collect()
}

#[test]
fn tokens_extend_one_partial_then_finalize() {
    let h = ChatHistory::empty()
        .push_user(MessageBody::new("hi"))
        .extend_assistant_partial(&MessageBody::new("Hel"))
        .extend_assistant_partial(&MessageBody::new("lo"))
        .finalize_assistant();
    assert_eq!(
        entries(&h),
        vec![("user", "hi".to_owned()), ("complete", "Hello".to_owned())]
    );
}

#[test]
fn finalize_twice_is_finalize_once() {
    let h = ChatHistory::empty().start_assistant().extend_assistant_partial(&MessageBody::new("x"));
    let once = entries(&h.finalize_assistant());
    let h2 = ChatHistory::empty().start_assistant().extend_assistant_partial(&MessageBody::new("x"));
    let twice = entries(&h2.finalize_assistant().finalize_assistant());
    assert_eq!(once, twice);
}

#[test]
fn finalize_without_partial_changes_nothing() {
    let h = ChatHistory::empty().push_user(MessageBody::new("q")).finalize_assistant();
    assert_eq!(entries(&h), vec![("user", "q".to_owned())]);
}

#[test]
fn scroll_down_undoes_scroll_up_and_stops_at_bottom() {
    let h = ChatHistory::empty().scroll_up(5);
    assert_eq!(h.scroll_offset(), 5);
    let h = h.scroll_down(5);
    assert_eq!(h.scroll_offset(), 0);
    let h = h.scroll_down(3);
    assert_eq!(h.scroll_offset(), 0);
}

#[test]
fn pushing_snaps_back_to_bottom() {
    let h = ChatHistory::empty().scroll_up(4).push_error(MessageBody::new("boom"));
    assert_eq!(h.scroll_offset(), 0);
    assert_eq!(entries(&h), vec![("error", "boom".to_owned())]);
}

#[test]
fn tool_rows_are_kept_in_order() {
    let h = ChatHistory::empty()
        .push_tool_invoked(MessageBody::new("a"))
        .push_tool_returned(MessageBody::new("b"));
    assert_eq!(
        entries(&h),
        vec![("invoked", "a".to_owned()), ("returned", "b".to_owned())]
    );
}

#[test]
fn finalize_completes_the_most_recent_partial_wherever_it_stands() {
    let h = ChatHistory::empty()
        .push_user(MessageBody::new("q"))
        .extend_assistant_partial(&MessageBody::new("calling"))
        .push_tool_invoked(MessageBody::new("[tool echo invoked: {}]"))
        .scroll_up(2)
        .finalize_assistant();
    assert_eq!(
        entries(&h),
        vec![
            ("user", "q".to_owned()),
            ("complete", "calling".to_owned()),
            ("invoked", "[tool echo invoked: {}]".to_owned()),
        ]
    );
    assert_eq!(h.scroll_offset(), 2);
}

#[test]
fn finalize_picks_the_later_of_two_partials() {
    let h = ChatHistory::empty()
        .extend_assistant_partial(&MessageBody::new("one"))
        .push_error(MessageBody::new("e"))
        .extend_assistant_partial(&MessageBody::new("two"))
        .push_error(MessageBody::new("f"))
        .finalize_assistant();
    assert_eq!(
        entries(&h),
        vec![
            ("partial", "one".to_owned()),
            ("error", "e".to_owned()),
            ("complete", "two".to_owned()),
            ("error", "f".to_owned()),
        ]
    );
}
