//! End-to-end scenarios against the ledger model: the five operations,
//! their error kinds, and the directory bookkeeping they maintain.

use blog_dapp::Address;
use blog_dapp::BlogError;
use blog_dapp::Identity;
use blog_dapp::Ledger;

fn ident(n: u64) -> Identity {
    Identity(n, 0, 0, 0)
}

fn addr(n: u64) -> Address {
    Address(n, 0, 0, 0)
}

#[test]
fn initialize_starts_empty() {
    let mut l = Ledger::new();
    assert_eq!(l.initialize(), Ok(()));
    let (total, addrs) = l.list_posts();
    assert_eq!(total, 0);
    assert!(addrs.is_empty());
}

#[test]
fn initialize_twice_fails_and_preserves_state() {
    let mut l = Ledger::new();
    assert_eq!(l.initialize(), Ok(()));
    assert_eq!(
        l.create_post(ident(1), addr(10), String::from("Hello"), String::from("World"), 100),
        Ok(())
    );
    assert_eq!(l.initialize(), Err(BlogError::AlreadyInitialized));
    let (total, addrs) = l.list_posts();
    assert_eq!(total, 1);
    assert_eq!(addrs, vec![addr(10)]);
    assert_eq!(l.posts[0].post.title, "Hello");
}

#[test]
fn create_with_empty_title_fails() {
    let mut l = Ledger::new();
    l.initialize().unwrap();
    assert_eq!(
        l.create_post(ident(1), addr(10), String::new(), String::from("body"), 100),
        Err(BlogError::InvalidTitle)
    );
    let (total, addrs) = l.list_posts();
    assert_eq!(total, 0);
    assert!(addrs.is_empty());
}

#[test]
fn create_with_empty_content_fails() {
    let mut l = Ledger::new();
    l.initialize().unwrap();
    assert_eq!(
        l.create_post(ident(1), addr(10), String::from("title"), String::new(), 100),
        Err(BlogError::InvalidContent)
    );
    assert_eq!(l.list_posts().0, 0);
}

#[test]
fn create_with_title_at_byte_capacity_succeeds() {
    let mut l = Ledger::new();
    l.initialize().unwrap();
    let title = "x".repeat(25);
    assert_eq!(title.len(), 25);
    assert_eq!(l.create_post(ident(1), addr(10), title.clone(), String::from("body"), 100), Ok(()));
    assert_eq!(l.list_posts().0, 1);
    assert_eq!(l.posts[0].post.title, title);
}

#[test]
fn create_at_occupied_address_fails() {
    let mut l = Ledger::new();
    l.initialize().unwrap();
    assert_eq!(
        l.create_post(ident(1), addr(10), String::from("Hello"), String::from("World"), 100),
        Ok(())
    );
    assert_eq!(
        l.create_post(ident(1), addr(10), String::from("Hello"), String::from("again"), 101),
        Err(BlogError::AlreadyExists)
    );
    assert_eq!(l.list_posts().0, 1);
}

#[test]
fn capacity_bound_is_enforced() {
    let mut l = Ledger::new();
    l.initialize().unwrap();
    for i in 0..100u64 {
        assert_eq!(
            l.create_post(ident(1), addr(i), format!("post {}", i), String::from("body"), 100),
            Ok(())
        );
    }
    assert_eq!(l.list_posts().0, 100);
    assert_eq!(
        l.create_post(ident(1), addr(200), String::from("one too many"), String::from("body"), 101),
        Err(BlogError::PostLimitReached)
    );
    assert_eq!(l.list_posts().0, 100);
}

#[test]
fn scenario_create_edit_delete() {
    let mut l = Ledger::new();
    let x = ident(1);
    let a = addr(10);
    assert_eq!(l.initialize(), Ok(()));
    assert_eq!(l.create_post(x, a, String::from("Hello"), String::from("World"), 100), Ok(()));
    let (total, addrs) = l.list_posts();
    assert_eq!(total, 1);
    assert_eq!(addrs, vec![a]);
    assert_eq!(l.posts[0].post.author, x);
    assert_eq!(l.posts[0].post.title, "Hello");
    assert_eq!(l.posts[0].post.content, "World");
    assert_eq!(l.posts[0].post.timestamp, 100);
    assert_eq!(l.posts[0].post.post_id, 0);

    assert_eq!(l.edit_post(a, x, String::from("Hi"), String::from("There"), 200), Ok(()));
    assert_eq!(l.posts[0].post.title, "Hi");
    assert_eq!(l.posts[0].post.content, "There");
    assert_eq!(l.posts[0].post.author, x);
    assert!(l.posts[0].post.timestamp > 100);

    assert_eq!(l.delete_post(a, x), Ok(()));
    let (total, addrs) = l.list_posts();
    assert_eq!(total, 0);
    assert!(addrs.is_empty());
}

#[test]
fn delete_keeps_relative_order() {
    let mut l = Ledger::new();
    let x = ident(1);
    let y = ident(2);
    l.initialize().unwrap();
    assert_eq!(l.create_post(x, addr(10), String::from("A"), String::from("x"), 100), Ok(()));
    assert_eq!(l.create_post(y, addr(11), String::from("B"), String::from("y"), 101), Ok(()));
    assert_eq!(l.delete_post(addr(10), x), Ok(()));
    let (total, addrs) = l.list_posts();
    assert_eq!(total, 1);
    assert_eq!(addrs, vec![addr(11)]);
    assert_eq!(l.posts[0].post.title, "B");
}

#[test]
fn delete_order_preserving_shift() {
    let mut l = Ledger::new();
    let x = ident(1);
    l.initialize().unwrap();
    for i in 0..4u64 {
        assert_eq!(
            l.create_post(x, addr(i), format!("t{}", i), String::from("body"), 100),
            Ok(())
        );
    }
    assert_eq!(l.delete_post(addr(1), x), Ok(()));
    let (total, addrs) = l.list_posts();
    assert_eq!(total, 3);
    assert_eq!(addrs, vec![addr(0), addr(2), addr(3)]);
}

#[test]
fn delete_by_non_author_fails() {
    let mut l = Ledger::new();
    let x = ident(1);
    let z = ident(3);
    let a = addr(10);
    l.initialize().unwrap();
    assert_eq!(l.create_post(x, a, String::from("Hello"), String::from("World"), 100), Ok(()));
    assert_eq!(l.delete_post(a, z), Err(BlogError::Unauthorized));
    let (total, addrs) = l.list_posts();
    assert_eq!(total, 1);
    assert_eq!(addrs, vec![a]);
    assert_eq!(l.posts[0].post.author, x);
    assert_eq!(l.posts[0].post.title, "Hello");
}

#[test]
fn edit_by_non_author_fails() {
    let mut l = Ledger::new();
    let x = ident(1);
    let z = ident(3);
    let a = addr(10);
    l.initialize().unwrap();
    assert_eq!(l.create_post(x, a, String::from("Hello"), String::from("World"), 100), Ok(()));
    assert_eq!(
        l.edit_post(a, z, String::from("Hacked"), String::from("Gotcha"), 200),
        Err(BlogError::Unauthorized)
    );
    assert_eq!(l.posts[0].post.title, "Hello");
    assert_eq!(l.posts[0].post.content, "World");
    assert_eq!(l.posts[0].post.timestamp, 100);
}

#[test]
fn edit_with_empty_text_fails() {
    let mut l = Ledger::new();
    let x = ident(1);
    let a = addr(10);
    l.initialize().unwrap();
    assert_eq!(l.create_post(x, a, String::from("Hello"), String::from("World"), 100), Ok(()));
    assert_eq!(
        l.edit_post(a, x, String::new(), String::from("There"), 200),
        Err(BlogError::InvalidTitle)
    );
    assert_eq!(
        l.edit_post(a, x, String::from("Hi"), String::new(), 200),
        Err(BlogError::InvalidContent)
    );
    assert_eq!(l.posts[0].post.title, "Hello");
    assert_eq!(l.posts[0].post.timestamp, 100);
}

#[test]
fn operations_on_absent_address_fail() {
    let mut l = Ledger::new();
    let x = ident(1);
    l.initialize().unwrap();
    assert_eq!(l.delete_post(addr(99), x), Err(BlogError::PostNotFound));
    assert_eq!(
        l.edit_post(addr(99), x, String::from("Hi"), String::from("There"), 200),
        Err(BlogError::PostNotFound)
    );
    assert_eq!(l.list_posts().0, 0);
}
