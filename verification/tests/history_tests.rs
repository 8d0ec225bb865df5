use capture_pipeline::history::ConversationHistory;
use capture_pipeline::history::Role;

#[test]
fn new_history_is_empty() {
    let h = ConversationHistory::new();
    assert_eq!(h.len(), 0);
}

#[test]
fn push_keeps_relative_order() {
    let mut h = ConversationHistory::new();
    h.push(Role::User, String::from("first"));
    h.push(Role::Assistant, String::from("second"));
    h.push(Role::User, String::from("third"));
    assert_eq!(h.len(), 3);
    assert_eq!(h.entry(0).text, "first");
    assert_eq!(h.entry(0).role, Role::User);
    assert_eq!(h.entry(1).text, "second");
    assert_eq!(h.entry(1).role, Role::Assistant);
    assert_eq!(h.entry(2).text, "third");
    assert_eq!(h.entry(2).role, Role::User);
}

#[test]
fn forty_one_pushes_evict_the_oldest() {
    let mut h = ConversationHistory::new();
    for i in 0..41 {
        h.push(Role::User, format!("m{}", i));
    }
    assert_eq!(h.len(), 40);
    assert_eq!(h.entry(0).text, "m1");
    assert_eq!(h.entry(39).text, "m40");
}

#[test]
fn cap_holds_under_many_pushes() {
    let mut h = ConversationHistory::new();
    for i in 0..100 {
        h.push(
            if i % 2 == 0 { Role::User } else { Role::Assistant },
            format!("m{}", i),
        );
        assert!(h.len() <= 40);
    }
    assert_eq!(h.len(), 40);
    assert_eq!(h.entry(0).text, "m60");
    assert_eq!(h.entry(39).text, "m99");
}
