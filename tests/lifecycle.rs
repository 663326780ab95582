use std::collections::HashMap;

use link_worker::lifecycle::{
    check_request, delete_finished, delete_step, details, finish_write, plan_write, resolve,
    DeleteOutcome, DeleteStep, DetailsAction, LinkWrite, Rejection, ResolveAction,
};
use link_worker::link::LinkModel;
use link_worker::messages::{
    GENERIC_LINK_CREATE_ERROR_RESPONSE, GENERIC_LINK_DELETE_ERROR_RESPONSE,
    INVALID_PAYLOAD_RESPONSE, LINK_ALREADY_EXISTS_NO_OVERWRITE, LINK_DELETE_SUCCESS_RESPONSE,
    LINK_DOESNT_EXIST_RESPONSE, NO_LINK_OWN_DOMAIN_RESPONSE,
};
use link_worker::requests::CreateLinkRequestBody;
use link_worker::responses::CreateLinkResponse;

const SERVICE: &str = "https://links.example.org/abc";

fn body(url: &str, overwrite: bool, expire_in: Option<u64>, max_views: Option<u64>) -> CreateLinkRequestBody {
    CreateLinkRequestBody {
        url: String::from(url),
        overwrite,
        expire_in,
        max_views,
        disabled: false,
    }
}

fn stored(views: u64, max_views: Option<u64>, expiry: Option<u64>, disabled: bool) -> LinkModel {
    LinkModel {
        url: String::from("https://example.com/"),
        disabled,
        views,
        max_views,
        expiry_timestamp: expiry,
        last_viewed_timestamp: Some(50),
        created_at_timestamp: 10,
        modified_at_timestamp: 20,
    }
}

/// Runs a whole create-or-update call against an in-memory store.
fn create(
    store: &mut HashMap<String, LinkModel>,
    key: &str,
    request: &CreateLinkRequestBody,
    now: u64,
) -> Result<LinkWrite, Rejection> {
    let target = check_request(request, SERVICE)?;
    let existing = store.get(key).cloned();
    let write = plan_write(existing, request, target, now)?;
    store.insert(String::from(key), write.record.clone());
    finish_write(write, true)
}

/// Runs a whole resolve call against an in-memory store.
fn visit(store: &mut HashMap<String, LinkModel>, key: &str, now: u64) -> Option<String> {
    match resolve(store.get(key).cloned(), now) {
        ResolveAction::NotFound => None,
        ResolveAction::Purge => {
            store.remove(key);
            None
        }
        ResolveAction::Redirect(link) => {
            let target = link.url.clone();
            store.insert(String::from(key), link);
            Some(target)
        }
    }
}

#[test]
fn resolve_missing_is_not_found() {
    assert_eq!(resolve(None, 5), ResolveAction::NotFound);
}

#[test]
fn resolve_valid_counts_one_view() {
    let r = resolve(Some(stored(1, Some(3), Some(1000), false)), 700);
    let mut expected = stored(2, Some(3), Some(1000), false);
    expected.last_viewed_timestamp = Some(700);
    assert_eq!(r, ResolveAction::Redirect(expected));
}

#[test]
fn resolve_invalid_purges() {
    assert_eq!(resolve(Some(stored(3, Some(3), None, false)), 0), ResolveAction::Purge);
    assert_eq!(resolve(Some(stored(0, None, Some(10), false)), 11), ResolveAction::Purge);
}

#[test]
fn resolve_disabled_purges() {
    assert_eq!(resolve(Some(stored(0, None, None, true)), 0), ResolveAction::Purge);
    assert_eq!(resolve(Some(stored(9, Some(3), Some(1), true)), 99), ResolveAction::Purge);
}

#[test]
fn scenario_disabled_link_is_removed_on_visit() {
    let mut store = HashMap::new();
    let mut request = body("https://example.com", false, None, None);
    request.disabled = true;
    create(&mut store, "d", &request, 100).unwrap();
    assert!(store["d"].disabled);
    assert_eq!(visit(&mut store, "d", 101), None);
    assert!(!store.contains_key("d"));
}

#[test]
fn details_shows_without_counting() {
    let link = stored(1, Some(3), None, false);
    assert_eq!(details(Some(link.clone()), 5), DetailsAction::Show(link));
    assert_eq!(details(None, 5), DetailsAction::NotFound);
    assert_eq!(details(Some(stored(0, None, None, true)), 5), DetailsAction::Purge);
    assert_eq!(details(Some(stored(3, Some(3), None, false)), 5), DetailsAction::Purge);
    assert_eq!(details(Some(stored(0, None, Some(4), false)), 5), DetailsAction::Purge);
}

#[test]
fn check_request_normalizes_target() {
    let r = check_request(&body("HTTPS://Example.COM", false, None, None), SERVICE);
    assert_eq!(r, Ok(String::from("https://example.com/")));
}

#[test]
fn check_request_rejects_bad_url() {
    let r = check_request(&body("not a url", false, None, None), SERVICE);
    assert_eq!(r, Err(Rejection::BadUrl));
    let r = check_request(&body("/relative/path", false, None, None), SERVICE);
    assert_eq!(r, Err(Rejection::BadUrl));
    assert_eq!(Rejection::BadUrl.status(), 400);
    assert_eq!(Rejection::BadUrl.message(), INVALID_PAYLOAD_RESPONSE);
}

#[test]
fn check_request_rejects_zero_max_views() {
    let r = check_request(&body("https://example.com", false, None, Some(0)), SERVICE);
    assert_eq!(r, Err(Rejection::InvalidPayload));
    assert_eq!(Rejection::InvalidPayload.status(), 400);
    assert_eq!(Rejection::InvalidPayload.message(), INVALID_PAYLOAD_RESPONSE);
    let r = check_request(&body("https://example.com", false, None, Some(1)), SERVICE);
    assert!(r.is_ok());
}

#[test]
fn check_request_rejects_own_domain() {
    for target in [
        "https://links.example.org/",
        "http://links.example.org/other/path?q=1",
        "https://LINKS.example.org:8443/abc#frag",
    ] {
        let r = check_request(&body(target, true, None, None), SERVICE);
        assert_eq!(r, Err(Rejection::SelfReferential));
    }
    assert_eq!(Rejection::SelfReferential.status(), 400);
    assert_eq!(Rejection::SelfReferential.message(), NO_LINK_OWN_DOMAIN_RESPONSE);
    let r = check_request(&body("https://example.org/", false, None, None), SERVICE);
    assert_eq!(r, Ok(String::from("https://example.org/")));
}

#[test]
fn plan_write_creates_new() {
    let request = body("https://example.com", false, Some(1500), Some(4));
    let w = plan_write(None, &request, String::from("https://example.com/"), 1000).unwrap();
    assert!(!w.overwritten);
    assert_eq!(w.record.views, 0);
    assert_eq!(w.record.expiry_timestamp, Some(2500));
    assert_eq!(w.record.max_views, Some(4));
    assert_eq!(w.record.created_at_timestamp, 1000);
    assert_eq!(w.record.modified_at_timestamp, 1000);
    assert_eq!(w.record.last_viewed_timestamp, None);
}

#[test]
fn plan_write_expiry_saturates() {
    let request = body("https://example.com", false, Some(10), None);
    let w = plan_write(None, &request, String::from("https://example.com/"), u64::MAX - 3).unwrap();
    assert_eq!(w.record.expiry_timestamp, Some(u64::MAX));
}

#[test]
fn plan_write_without_overwrite_conflicts() {
    let request = body("https://other.example/", false, None, None);
    let r = plan_write(Some(stored(2, None, None, false)), &request, String::from("https://other.example/"), 9);
    assert_eq!(r, Err(Rejection::Conflict));
    assert_eq!(Rejection::Conflict.status(), 409);
    assert_eq!(Rejection::Conflict.message(), LINK_ALREADY_EXISTS_NO_OVERWRITE);
}

#[test]
fn plan_write_overwrite_keeps_history() {
    let mut request = body("https://other.example/", true, Some(100), Some(8));
    request.disabled = true;
    let w = plan_write(
        Some(stored(2, None, None, false)),
        &request,
        String::from("https://other.example/"),
        900,
    )
    .unwrap();
    assert!(w.overwritten);
    assert_eq!(w.record.views, 2);
    assert_eq!(w.record.created_at_timestamp, 10);
    assert_eq!(w.record.last_viewed_timestamp, Some(50));
    assert_eq!(w.record.modified_at_timestamp, 900);
    assert_eq!(w.record.url, "https://other.example/");
    assert!(w.record.disabled);
    assert_eq!(w.record.max_views, Some(8));
    assert_eq!(w.record.expiry_timestamp, Some(1000));
}

#[test]
fn finish_write_reports_storage_failure() {
    let w = LinkWrite { record: stored(0, None, None, false), overwritten: false };
    assert_eq!(finish_write(w.clone(), true), Ok(w.clone()));
    assert_eq!(finish_write(w, false), Err(Rejection::StorageFailure));
    assert_eq!(Rejection::StorageFailure.status(), 500);
    assert_eq!(Rejection::StorageFailure.message(), GENERIC_LINK_CREATE_ERROR_RESPONSE);
}

#[test]
fn delete_steps() {
    assert_eq!(delete_step(false), DeleteStep::Finish(DeleteOutcome::NotFound));
    assert_eq!(delete_step(true), DeleteStep::Remove);
    assert_eq!(delete_finished(true), DeleteOutcome::Deleted);
    assert_eq!(delete_finished(false), DeleteOutcome::Failed);
    assert_eq!(DeleteOutcome::Deleted.status(), 200);
    assert_eq!(DeleteOutcome::Deleted.message(), LINK_DELETE_SUCCESS_RESPONSE);
    assert_eq!(DeleteOutcome::NotFound.status(), 404);
    assert_eq!(DeleteOutcome::NotFound.message(), LINK_DOESNT_EXIST_RESPONSE);
    assert_eq!(DeleteOutcome::Failed.status(), 500);
    assert_eq!(DeleteOutcome::Failed.message(), GENERIC_LINK_DELETE_ERROR_RESPONSE);
}

#[test]
fn response_from_model() {
    let mut link = stored(0, Some(2), Some(77), false);
    link.disabled = true;
    let r = CreateLinkResponse::from_model(&link, true, String::from("https://links.example.org/abc"));
    assert_eq!(r.url, "https://links.example.org/abc");
    assert_eq!(r.original_url, "https://example.com/");
    assert!(r.overwritten);
    assert_eq!(r.expiry_timestamp, Some(77));
    assert_eq!(r.max_views, Some(2));
    assert!(r.disabled);
}

#[test]
fn scenario_max_views_two() {
    let mut store = HashMap::new();
    let w = create(&mut store, "abc", &body("https://example.com", false, None, Some(2)), 1000).unwrap();
    assert!(!w.overwritten);
    assert_eq!(store["abc"].views, 0);
    assert_eq!(visit(&mut store, "abc", 1001), Some(String::from("https://example.com/")));
    assert_eq!(store["abc"].views, 1);
    assert_eq!(store["abc"].last_viewed_timestamp, Some(1001));
    assert_eq!(visit(&mut store, "abc", 1002), Some(String::from("https://example.com/")));
    assert_eq!(store["abc"].views, 2);
    assert_eq!(visit(&mut store, "abc", 1003), None);
    assert!(!store.contains_key("abc"));
}

#[test]
fn scenario_expire_in_zero() {
    let mut store = HashMap::new();
    create(&mut store, "x", &body("https://example.com", false, Some(0), None), 5000).unwrap();
    assert_eq!(store["x"].expiry_timestamp, Some(5000));
    assert_eq!(visit(&mut store, "x", 5001), None);
    assert!(!store.contains_key("x"));
}

#[test]
fn scenario_second_create_conflicts() {
    let mut store = HashMap::new();
    create(&mut store, "y", &body("https://example.com", false, None, Some(5)), 100).unwrap();
    let before = store["y"].clone();
    let r = create(&mut store, "y", &body("https://example.net/other", false, Some(10), None), 200);
    assert_eq!(r, Err(Rejection::Conflict));
    assert_eq!(store["y"], before);
}

#[test]
fn scenario_overwrite_replaces_fields() {
    let mut store = HashMap::new();
    create(&mut store, "z", &body("https://example.com", false, None, None), 100).unwrap();
    visit(&mut store, "z", 150);
    let w = create(&mut store, "z", &body("https://example.net/p", true, None, Some(3)), 200).unwrap();
    assert!(w.overwritten);
    assert_eq!(store["z"].url, "https://example.net/p");
    assert_eq!(store["z"].views, 1);
    assert_eq!(store["z"].last_viewed_timestamp, Some(150));
    assert_eq!(store["z"].created_at_timestamp, 100);
    assert_eq!(store["z"].modified_at_timestamp, 200);
    assert_eq!(store["z"].max_views, Some(3));
}
