use api::models::Post;
use api::states::AppState;
use api::{ApiError, User};

fn post(id: u128, owner: u128, title: &str) -> Post {
    Post { id, user_id: owner, title: title.to_string(), content: "text".to_string(), created_at: 0 }
}

#[test]
fn inserted_post_is_found_under_its_id() {
    let mut state = AppState::new("s".to_string());
    state.insert_post(post(3, 1, "three"));
    let found = state.find_post(3).unwrap();
    assert_eq!((found.id, found.user_id, found.title.as_str()), (3, 1, "three"));
    assert_eq!(found.content, "text");
    assert!(state.find_post(4).is_none());
}

#[test]
fn insert_overwrites_the_post_under_an_id() {
    let mut state = AppState::new("s".to_string());
    state.insert_post(post(3, 1, "first"));
    state.insert_post(post(3, 2, "second"));
    let found = state.find_post(3).unwrap();
    assert_eq!((found.user_id, found.title.as_str()), (2, "second"));
    assert_eq!(state.scan_posts().len(), 1);
}

#[test]
fn removed_post_is_gone() {
    let mut state = AppState::new("s".to_string());
    state.insert_post(post(1, 1, "one"));
    state.insert_post(post(2, 1, "two"));
    state.remove_post(1);
    assert!(state.find_post(1).is_none());
    assert_eq!(state.find_post(2).unwrap().title, "two");
    state.remove_post(1);
    state.remove_post(99);
    assert_eq!(state.scan_posts().len(), 1);
}

#[test]
fn scan_holds_every_post_once() {
    let mut state = AppState::new("s".to_string());
    for id in [5u128, 1, 9, 3, 7] {
        let title = format!("post {}", id);
        state.insert_post(post(id, 1, &title));
    }
    let scanned = state.scan_posts();
    let mut ids: Vec<u128> = scanned.iter().map(|p| p.id).collect();
    ids.sort();
    assert_eq!(ids, vec![1, 3, 5, 7, 9]);
    for p in &scanned {
        assert_eq!(p.title, format!("post {}", p.id));
    }
}

#[test]
fn users_and_posts_do_not_mix() {
    let mut state = AppState::new("s".to_string());
    let stored = state.reserve(User {
        id: 1,
        email: "a@x.com".to_string(),
        username: "alice".to_string(),
        hashed_password: "digest".to_string(),
        created_at: 0,
    });
    assert!(stored);
    state.insert_post(post(1, 1, "one"));
    state.remove_post(1);
    assert_eq!(state.get_user(1).unwrap().email, "a@x.com");
    assert_eq!(state.lookup("a@x.com"), Some(1));
    assert!(state.find_post(1).is_none());
    assert_eq!(ApiError::NotFound.into_response().message, "Not Found");
}
