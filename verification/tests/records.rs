//! Tests of the domain record constructors and their flag logic.

use forum::models::category::Category;
use forum::models::message::Message;
use forum::models::message::MessageFlags;
use forum::models::message::MESSAGE_FLAG_UNDELETEABLE;
use forum::models::thread::Thread;
use forum::models::thread::ThreadFlags;
use forum::models::thread::THREAD_FLAG_LOCKED;
use forum::models::thread::THREAD_FLAG_PINNED;
use forum::models::user::User;
use forum::utils::snowflake::Snowflake;

fn author() -> User {
    User::new(Snowflake(10), "author", "Author", "pw-pw-pw-pw-pw")
}

#[test]
fn message_construction_and_flags() {
    let m = Message::new(Snowflake(1), author(), Snowflake(2), "hello", None);
    assert_eq!(m.id, Snowflake(1));
    assert_eq!(m.thread_id, Snowflake(2));
    assert_eq!(m.content, "hello");
    assert_eq!(m.flags.bits, 0);
    assert!(m.referenced_message_id.is_none());
    assert!(m.updated_at.is_none());
    assert!(!m.is(MessageFlags { bits: MESSAGE_FLAG_UNDELETEABLE }));

    let original = Message::new(
        Snowflake(1),
        author(),
        Snowflake(2),
        "first",
        Some(MessageFlags { bits: MESSAGE_FLAG_UNDELETEABLE }),
    );
    assert!(original.is(MessageFlags { bits: MESSAGE_FLAG_UNDELETEABLE }));
}

#[test]
fn thread_takes_its_author_from_the_original_message() {
    let m = Message::new(Snowflake(5), author(), Snowflake(5), "first", None);
    let t = Thread::new(Snowflake(5), Snowflake(9), m, "title", None);
    assert_eq!(t.author.id, Snowflake(10));
    assert_eq!(t.category_id, Snowflake(9));
    assert_eq!(t.title, "title");
    assert_eq!(t.flags.bits, 0);
    assert_eq!(t.original_message.content, "first");
    assert!(!t.is(ThreadFlags { bits: THREAD_FLAG_LOCKED }));

    let m = Message::new(Snowflake(6), author(), Snowflake(6), "first", None);
    let pinned = Thread::new(
        Snowflake(6),
        Snowflake(9),
        m,
        "title",
        Some(ThreadFlags { bits: THREAD_FLAG_PINNED | THREAD_FLAG_LOCKED }),
    );
    assert!(pinned.is(ThreadFlags { bits: THREAD_FLAG_PINNED }));
    assert!(pinned.is(ThreadFlags { bits: THREAD_FLAG_LOCKED }));
}

#[test]
fn category_construction() {
    let c = Category::new(Snowflake(3), author(), "general", "the general category", false);
    assert_eq!(c.id, Snowflake(3));
    assert_eq!(c.owner.id, Snowflake(10));
    assert_eq!(c.title, "general");
    assert_eq!(c.description, "the general category");
    assert!(!c.locked);
}
