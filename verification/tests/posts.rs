use api::auth::create_token_at;
use api::dto::requests::CreatePostRequest;
use api::dto::responses::PaginationParams;
use api::errors::ApiError;
use api::routes::post::{
    create_post, create_post_with, delete_post, delete_post_at, get_post, get_posts,
};
use api::states::AppState;

const SECRET: &str = "a-test-secret";
const ALICE: u128 = 0xa11ce;
const BOB: u128 = 0xb0b;
const NOW: i64 = 1_700_000_000;

fn header_for(user: u128) -> String {
    format!("Bearer {}", create_token_at(&user, "someone@x.com", SECRET, NOW).unwrap())
}

fn request(title: &str, content: &str) -> CreatePostRequest {
    CreatePostRequest { title: title.to_string(), content: content.to_string() }
}

fn store_with_posts(n: u128) -> AppState {
    let mut state = AppState::new(SECRET.to_string());
    let header = header_for(ALICE);
    for i in 1..=n {
        let title = format!("post {}", i);
        create_post_with(&mut state, Some(&header), request(&title, "text"), i, NOW + i as i64)
            .unwrap();
    }
    state
}

fn page(state: &AppState, page: usize, limit: usize) -> (Vec<u128>, usize) {
    let r = get_posts(state, PaginationParams { page, limit });
    assert_eq!((r.page, r.limit), (page, limit));
    (r.data.iter().map(|p| p.id).collect(), r.total)
}

#[test]
fn created_post_belongs_to_the_caller() {
    let mut state = AppState::new(SECRET.to_string());
    let header = header_for(ALICE);
    let (status, post) =
        create_post_with(&mut state, Some(&header), request("hello", "world"), 42, NOW).unwrap();
    assert_eq!(status, 201);
    assert_eq!(post.id, 42);
    assert_eq!(post.user_id, ALICE);
    assert_eq!(post.title, "hello");
    assert_eq!(post.content, "world");
    assert_eq!(post.created_at, NOW);
    let stored = get_post(&state, 42).unwrap();
    assert_eq!(stored.id, 42);
    assert_eq!(stored.user_id, ALICE);
    assert_eq!(stored.title, "hello");
    assert_eq!(stored.content, "world");
    assert_eq!(stored.created_at, NOW);
}

#[test]
fn create_post_now_stores_under_a_fresh_id() {
    let mut state = AppState::new(SECRET.to_string());
    let token = api::auth::create_token(&ALICE, "a@x.com", SECRET).unwrap();
    let header = format!("Bearer {}", token);
    let (status, first) = create_post(&mut state, Some(&header), request("one", "1")).unwrap();
    let (_, second) = create_post(&mut state, Some(&header), request("two", "2")).unwrap();
    assert_eq!(status, 201);
    assert_ne!(first.id, second.id);
    assert_eq!(first.user_id, ALICE);
    assert_eq!(get_post(&state, first.id).unwrap().title, "one");
    assert_eq!(get_post(&state, second.id).unwrap().title, "two");
    assert_eq!(get_posts(&state, PaginationParams { page: 1, limit: 10 }).total, 2);
}

#[test]
fn create_post_needs_a_token() {
    let mut state = AppState::new(SECRET.to_string());
    assert!(matches!(
        create_post_with(&mut state, None, request("t", "c"), 1, NOW),
        Err(ApiError::Unauthorized)
    ));
    assert!(matches!(
        create_post_with(&mut state, Some("Bearer junk"), request("t", "c"), 1, NOW),
        Err(ApiError::Unauthorized)
    ));
    let expired = header_for(ALICE);
    assert!(matches!(
        create_post_with(&mut state, Some(&expired), request("t", "c"), 1, NOW + 90_000),
        Err(ApiError::Unauthorized)
    ));
    assert!(matches!(get_post(&state, 1), Err(ApiError::NotFound)));
    assert_eq!(get_posts(&state, PaginationParams { page: 1, limit: 10 }).total, 0);
}

#[test]
fn create_post_checks_the_fields_first() {
    let mut state = AppState::new(SECRET.to_string());
    match create_post_with(&mut state, None, request("", "c"), 1, NOW) {
        Err(ApiError::ValidationError(msg)) => assert_eq!(msg, "title: Validation error: length"),
        other => panic!("unexpected: {:?}", other),
    }
    let header = header_for(ALICE);
    assert!(matches!(
        create_post_with(&mut state, Some(&header), request("t", &"c".repeat(5001)), 1, NOW),
        Err(ApiError::ValidationError(_))
    ));
    assert!(matches!(get_post(&state, 1), Err(ApiError::NotFound)));
}

#[test]
fn unknown_post_is_not_found() {
    let state = store_with_posts(3);
    assert!(matches!(get_post(&state, 4), Err(ApiError::NotFound)));
    assert!(matches!(get_post(&state, 0), Err(ApiError::NotFound)));
    assert_eq!(ApiError::NotFound.into_response().status, 404);
}

#[test]
fn listing_is_newest_first() {
    let state = store_with_posts(5);
    assert_eq!(page(&state, 1, 10), (vec![5, 4, 3, 2, 1], 5));
}

#[test]
fn pages_are_slices_of_the_listing() {
    let state = store_with_posts(25);
    assert_eq!(page(&state, 1, 10), ((16..=25).rev().collect(), 25));
    assert_eq!(page(&state, 2, 10), ((6..=15).rev().collect(), 25));
    assert_eq!(page(&state, 3, 10), ((1..=5).rev().collect(), 25));
    assert_eq!(page(&state, 2, 7), ((12..=18).rev().collect(), 25));
}

#[test]
fn page_beyond_the_posts_is_empty_with_the_total() {
    let state = store_with_posts(25);
    assert_eq!(page(&state, 4, 10), (vec![], 25));
    assert_eq!(page(&state, 1_000, 10), (vec![], 25));
    assert_eq!(page(&state, usize::MAX, usize::MAX), (vec![], 25));
}

#[test]
fn listing_of_an_empty_store_is_empty() {
    let state = AppState::new(SECRET.to_string());
    assert_eq!(page(&state, 1, 10), (vec![], 0));
}

#[test]
fn posts_of_one_second_are_all_listed() {
    let mut state = AppState::new(SECRET.to_string());
    let header = header_for(ALICE);
    for id in 1..=4u128 {
        create_post_with(&mut state, Some(&header), request("t", "c"), id, NOW).unwrap();
    }
    create_post_with(&mut state, Some(&header), request("t", "c"), 9, NOW + 1).unwrap();
    let (ids, total) = page(&state, 1, 10);
    assert_eq!(total, 5);
    assert_eq!(ids[0], 9);
    let mut rest = ids[1..].to_vec();
    rest.sort();
    assert_eq!(rest, vec![1, 2, 3, 4]);
}

#[test]
fn owner_deletes_the_post() {
    let mut state = store_with_posts(3);
    let header = header_for(ALICE);
    assert_eq!(delete_post_at(&mut state, Some(&header), 2, NOW).unwrap(), 204);
    assert!(matches!(get_post(&state, 2), Err(ApiError::NotFound)));
    assert!(get_post(&state, 1).is_ok());
    assert!(get_post(&state, 3).is_ok());
    assert_eq!(page(&state, 1, 10), (vec![3, 1], 2));
}

#[test]
fn delete_now_works_for_the_owner() {
    let mut state = AppState::new(SECRET.to_string());
    let token = api::auth::create_token(&ALICE, "a@x.com", SECRET).unwrap();
    let header = format!("Bearer {}", token);
    let (_, post) = create_post(&mut state, Some(&header), request("t", "c")).unwrap();
    assert_eq!(delete_post(&mut state, Some(&header), post.id).unwrap(), 204);
    assert!(matches!(get_post(&state, post.id), Err(ApiError::NotFound)));
}

#[test]
fn non_owner_cannot_delete() {
    let mut state = store_with_posts(3);
    let header = header_for(BOB);
    assert!(matches!(
        delete_post_at(&mut state, Some(&header), 2, NOW),
        Err(ApiError::Unauthorized)
    ));
    assert_eq!(get_post(&state, 2).unwrap().user_id, ALICE);
    assert_eq!(page(&state, 1, 10).1, 3);
}

#[test]
fn delete_needs_a_token() {
    let mut state = store_with_posts(1);
    assert!(matches!(delete_post_at(&mut state, None, 1, NOW), Err(ApiError::Unauthorized)));
    assert!(matches!(
        delete_post_at(&mut state, Some("Bearer x.y.z"), 1, NOW),
        Err(ApiError::Unauthorized)
    ));
    assert!(matches!(delete_post(&mut state, None, 1), Err(ApiError::Unauthorized)));
    assert!(matches!(
        delete_post_at(&mut state, None, 77, NOW),
        Err(ApiError::Unauthorized)
    ));
    assert!(get_post(&state, 1).is_ok());
}

#[test]
fn deleting_an_unknown_post_is_not_found() {
    let mut state = store_with_posts(2);
    let header = header_for(ALICE);
    assert!(matches!(
        delete_post_at(&mut state, Some(&header), 77, NOW),
        Err(ApiError::NotFound)
    ));
    assert_eq!(delete_post_at(&mut state, Some(&header), 1, NOW).unwrap(), 204);
    assert!(matches!(
        delete_post_at(&mut state, Some(&header), 1, NOW),
        Err(ApiError::NotFound)
    ));
    assert_eq!(page(&state, 1, 10), (vec![2], 1));
}

#[test]
fn a_post_under_a_used_id_replaces_the_old_one() {
    let mut state = store_with_posts(2);
    let header = header_for(BOB);
    create_post_with(&mut state, Some(&header), request("new", "text"), 2, NOW + 50).unwrap();
    let stored = get_post(&state, 2).unwrap();
    assert_eq!(stored.title, "new");
    assert_eq!(stored.user_id, BOB);
    assert_eq!(page(&state, 1, 10), (vec![2, 1], 2));
}

#[test]
fn pages_of_the_store_make_the_whole_listing() {
    let state = store_with_posts(23);
    let mut joined: Vec<u128> = Vec::new();
    for p in 1..=3 {
        let (ids, total) = page(&state, p, 10);
        assert_eq!(total, 23);
        if p < 3 {
            assert_eq!(ids.len(), 10);
        }
        joined.extend(ids);
    }
    assert_eq!(joined, (1..=23).rev().collect::<Vec<u128>>());
    assert_eq!(page(&state, 4, 10), (vec![], 23));
}
