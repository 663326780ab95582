use vstd::prelude::*;

use crate::link::{LinkBuilderArgs, LinkModel};
use crate::messages::{
    GENERIC_LINK_CREATE_ERROR_RESPONSE, GENERIC_LINK_DELETE_ERROR_RESPONSE,
    INVALID_PAYLOAD_RESPONSE, LINK_ALREADY_EXISTS_NO_OVERWRITE, LINK_DELETE_SUCCESS_RESPONSE,
    LINK_DOESNT_EXIST_RESPONSE, NO_LINK_OWN_DOMAIN_RESPONSE,
};
use crate::requests::CreateLinkRequestBody;
use crate::target::{domain_of, parse_url, parsed_url, url_domain};

verus! {

/// The records of a store, by key. A value that does not decode as a link
/// counts as no record.
pub type LinkStore = Map<Seq<char>, LinkModel>;

/// The record stored under `key`, if any.
pub open spec fn lookup(store: LinkStore, key: Seq<char>) -> Option<LinkModel> {
    if store.contains_key(key) {
        Some(store[key])
    } else {
        None
    }
}

// ---------------------------------------------------------------------------
// Reading a link: resolve and details

/// What to do after a visitor's request has read the record under a key.
#[derive(Debug, Clone, PartialEq, Eq)]
pub enum ResolveAction {
    /// Answer that no link exists; leave the store as it is.
    NotFound,
    /// Delete the key (a failure to do so is ignored), then answer that no
    /// link exists.
    Purge,
    /// Store this record under the key (a failure to do so is ignored), then
    /// redirect to its target.
    Redirect(LinkModel),
}

impl ResolveAction {
    /// The store once the action has been carried out under `key`.
    pub open spec fn applied(self, store: LinkStore, key: Seq<char>) -> LinkStore {
        match self {
            ResolveAction::NotFound => store,
            ResolveAction::Purge => store.remove(key),
            ResolveAction::Redirect(link) => store.insert(key, link),
        }
    }
}

/// The resolve decision. A missing link is not found; a link that is not
/// valid (disabled, expired or out of views) is purged; a valid one is
/// visited and served.
pub open spec fn resolve_action(stored: Option<LinkModel>, now: u64) -> ResolveAction {
    match stored {
        None => ResolveAction::NotFound,
        Some(link) => if !link.valid_at(now) {
            ResolveAction::Purge
        } else {
            ResolveAction::Redirect(link.visited(now))
        },
    }
}

/// Decides how to answer a visit, given the record read under the visited
/// key (`None` when there was none, or it did not decode) and the time.
pub fn resolve(stored: Option<LinkModel>, now: u64) -> (r: ResolveAction)
    ensures
        r == resolve_action(stored, now),
{
    match stored {
        None => ResolveAction::NotFound,
        Some(mut link) => {
            if !link.is_valid_at(now) {
                ResolveAction::Purge
            } else {
                link.increment_visits_at(now);
                ResolveAction::Redirect(link)
            }
        },
    }
}

/// What to do after a details request has read the record under a key.
#[derive(Debug, Clone, PartialEq, Eq)]
pub enum DetailsAction {
    /// Answer that no link exists; leave the store as it is.
    NotFound,
    /// Delete the key (a failure to do so is ignored), then answer that no
    /// link exists.
    Purge,
    /// Answer with this record; the store is not written.
    Show(LinkModel),
}

impl DetailsAction {
    /// The store once the action has been carried out under `key`.
    pub open spec fn applied(self, store: LinkStore, key: Seq<char>) -> LinkStore {
        match self {
            DetailsAction::Purge => store.remove(key),
            _ => store,
        }
    }
}

/// The details decision: as for resolve, but a valid link is shown as it is
/// stored and no visit is counted.
pub open spec fn details_action(stored: Option<LinkModel>, now: u64) -> DetailsAction {
    match stored {
        None => DetailsAction::NotFound,
        Some(link) => if !link.valid_at(now) {
            DetailsAction::Purge
        } else {
            DetailsAction::Show(link)
        },
    }
}

/// Decides how to answer a details request, given the record read under the
/// key and the time.
pub fn details(stored: Option<LinkModel>, now: u64) -> (r: DetailsAction)
    ensures
        r == details_action(stored, now),
{
    match stored {
        None => DetailsAction::NotFound,
        Some(link) => {
            if !link.is_valid_at(now) {
                DetailsAction::Purge
            } else {
                DetailsAction::Show(link)
            }
        },
    }
}

// ---------------------------------------------------------------------------
// Creating or updating a link

/// Why a create-or-update call was refused.
#[derive(Debug, Clone, Copy, PartialEq, Eq, Structural)]
pub enum Rejection {
    /// The payload breaks a rule of its shape: a view limit of zero.
    InvalidPayload,
    /// The target is no absolute URL.
    BadUrl,
    /// The target lies on the domain that serves the links.
    SelfReferential,
    /// A link exists under the key and overwriting was not asked for.
    Conflict,
    /// The store did not take the write.
    StorageFailure,
}

impl Rejection {
    /// The rejection is the caller's fault in the request's content.
    pub open spec fn is_bad_input(self) -> bool {
        self is InvalidPayload || self is BadUrl || self is SelfReferential
    }

    /// The HTTP status that answers the rejection.
    pub fn status(&self) -> (r: u16)
        ensures
            self.is_bad_input() ==> r == 400,
            *self is Conflict ==> r == 409,
            *self is StorageFailure ==> r == 500,
    {
        match self {
            Rejection::InvalidPayload | Rejection::BadUrl | Rejection::SelfReferential => 400,
            Rejection::Conflict => 409,
            Rejection::StorageFailure => 500,
        }
    }

    /// The message that answers the rejection.
    pub fn message(&self) -> (r: &'static str)
        ensures
            (*self is InvalidPayload || *self is BadUrl) ==> r@ == INVALID_PAYLOAD_RESPONSE@,
            *self is SelfReferential ==> r@ == NO_LINK_OWN_DOMAIN_RESPONSE@,
            *self is Conflict ==> r@ == LINK_ALREADY_EXISTS_NO_OVERWRITE@,
            *self is StorageFailure ==> r@ == GENERIC_LINK_CREATE_ERROR_RESPONSE@,
    {
        match self {
            Rejection::InvalidPayload | Rejection::BadUrl => INVALID_PAYLOAD_RESPONSE,
            Rejection::SelfReferential => NO_LINK_OWN_DOMAIN_RESPONSE,
            Rejection::Conflict => LINK_ALREADY_EXISTS_NO_OVERWRITE,
            Rejection::StorageFailure => GENERIC_LINK_CREATE_ERROR_RESPONSE,
        }
    }
}

/// The checks on a request that need no stored data, in order: the target
/// parses as an absolute URL, the view limit is not zero, and the target's
/// domain is not the domain of the request. On success, the target as
/// normalized by the URL parser.
pub open spec fn request_check(body: CreateLinkRequestBody, request_url: Seq<char>) -> Result<
    Seq<char>,
    Rejection,
> {
    match parsed_url(body.url@) {
        None => Err(Rejection::BadUrl),
        Some(target) => if body.max_views == Some(0u64) {
            Err(Rejection::InvalidPayload)
        } else if url_domain(body.url@) == url_domain(request_url) {
            Err(Rejection::SelfReferential)
        } else {
            Ok(target)
        },
    }
}

/// Whether two optional domains are the same (two absent domains are).
fn same_domain(a: &Option<String>, b: &Option<String>) -> (r: bool)
    ensures
        r == (a.deep_view() == b.deep_view()),
{
    match (a, b) {
        (Some(x), Some(y)) => x.eq(y),
        (None, None) => true,
        _ => false,
    }
}

/// Checks a create-or-update request against the URL it was sent to, before
/// any stored data is read. Returns the normalized target.
pub fn check_request(body: &CreateLinkRequestBody, request_url: &str) -> (r: Result<
    String,
    Rejection,
>)
    ensures
        match r {
            Ok(target) => request_check(*body, request_url@) == Ok::<Seq<char>, Rejection>(
                target@,
            ),
            Err(e) => request_check(*body, request_url@) == Err::<Seq<char>, Rejection>(e),
        },
{
    let target = match parse_url(body.url.as_str()) {
        Some(target) => target,
        None => return Err(Rejection::BadUrl),
    };
    if let Some(max_views) = body.max_views {
        if max_views == 0 {
            return Err(Rejection::InvalidPayload);
        }
    }
    let own = domain_of(request_url);
    let wanted = domain_of(body.url.as_str());
    if same_domain(&own, &wanted) {
        return Err(Rejection::SelfReferential);
    }
    Ok(target)
}

/// The expiry time of a link made at `now` to last `expire_in` milliseconds;
/// a time past `u64::MAX` stops there.
pub open spec fn expiry_from(expire_in: Option<u64>, now: u64) -> Option<u64> {
    match expire_in {
        Some(ms) => Some(
            if now + ms <= u64::MAX {
                (now + ms) as u64
            } else {
                u64::MAX
            },
        ),
        None => None,
    }
}

/// The fields that a request sets on a link, with its checked target.
pub open spec fn request_args(body: CreateLinkRequestBody, target: String, now: u64) -> LinkBuilderArgs {
    LinkBuilderArgs {
        url: target,
        disabled: body.disabled,
        max_views: body.max_views,
        expiry_timestamp: expiry_from(body.expire_in, now),
    }
}

/// A record to be stored under the request's key.
#[derive(Debug, Clone, PartialEq, Eq)]
pub struct LinkWrite {
    /// The record to store.
    pub record: LinkModel,
    /// Whether it replaces a record that was there.
    pub overwritten: bool,
}

/// The write decision, given the record read under the key. An existing
/// record is a conflict unless the request allows overwriting; then it is
/// updated. Without one, a new record is created.
pub open spec fn planned_write(
    existing: Option<LinkModel>,
    body: CreateLinkRequestBody,
    target: String,
    now: u64,
) -> Result<LinkWrite, Rejection> {
    match existing {
        Some(link) => if body.overwrite {
            Ok(
                LinkWrite {
                    record: link.modified(request_args(body, target, now), now),
                    overwritten: true,
                },
            )
        } else {
            Err(Rejection::Conflict)
        },
        None => Ok(
            LinkWrite { record: LinkModel::created(request_args(body, target, now), now), overwritten: false },
        ),
    }
}

/// The store once a create-or-update outcome has been carried out under
/// `key`: a refusal writes nothing.
pub open spec fn written(store: LinkStore, key: Seq<char>, outcome: Result<LinkWrite, Rejection>) -> LinkStore {
    match outcome {
        Ok(write) => store.insert(key, write.record),
        Err(_) => store,
    }
}

/// Decides what a checked create-or-update request writes, given the record
/// read under its key (`None` when there was none, or it did not decode),
/// the target that `check_request` returned, and the time.
pub fn plan_write(
    existing: Option<LinkModel>,
    body: &CreateLinkRequestBody,
    target: String,
    now: u64,
) -> (r: Result<LinkWrite, Rejection>)
    ensures
        r == planned_write(existing, *body, target, now),
{
    let expiry_timestamp = match body.expire_in {
        Some(ms) => Some(now.saturating_add(ms)),
        None => None,
    };
    let args = LinkBuilderArgs {
        url: target,
        disabled: body.disabled,
        max_views: body.max_views,
        expiry_timestamp,
    };
    match existing {
        Some(link) => {
            if body.overwrite {
                Ok(LinkWrite { record: link.modify_at(args, now), overwritten: true })
            } else {
                Err(Rejection::Conflict)
            }
        },
        None => Ok(LinkWrite { record: LinkModel::new_at(args, now), overwritten: false }),
    }
}

/// The outcome of a planned write, given whether the store took it.
pub fn finish_write(write: LinkWrite, persisted: bool) -> (r: Result<LinkWrite, Rejection>)
    ensures
        persisted ==> r == Ok::<LinkWrite, Rejection>(write),
        !persisted ==> r == Err::<LinkWrite, Rejection>(Rejection::StorageFailure),
{
    if persisted {
        Ok(write)
    } else {
        Err(Rejection::StorageFailure)
    }
}

// ---------------------------------------------------------------------------
// Deleting a link

/// How a delete call ends.
#[derive(Debug, Clone, Copy, PartialEq, Eq, Structural)]
pub enum DeleteOutcome {
    /// The key held a value and was removed.
    Deleted,
    /// The key held no value.
    NotFound,
    /// The store did not remove the key.
    Failed,
}

impl DeleteOutcome {
    /// The HTTP status that answers the outcome.
    pub fn status(&self) -> (r: u16)
        ensures
            *self is Deleted ==> r == 200,
            *self is NotFound ==> r == 404,
            *self is Failed ==> r == 500,
    {
        match self {
            DeleteOutcome::Deleted => 200,
            DeleteOutcome::NotFound => 404,
            DeleteOutcome::Failed => 500,
        }
    }

    /// The message that answers the outcome.
    pub fn message(&self) -> (r: &'static str)
        ensures
            *self is Deleted ==> r@ == LINK_DELETE_SUCCESS_RESPONSE@,
            *self is NotFound ==> r@ == LINK_DOESNT_EXIST_RESPONSE@,
            *self is Failed ==> r@ == GENERIC_LINK_DELETE_ERROR_RESPONSE@,
    {
        match self {
            DeleteOutcome::Deleted => LINK_DELETE_SUCCESS_RESPONSE,
            DeleteOutcome::NotFound => LINK_DOESNT_EXIST_RESPONSE,
            DeleteOutcome::Failed => GENERIC_LINK_DELETE_ERROR_RESPONSE,
        }
    }
}

/// The next step of a delete call.
#[derive(Debug, Clone, Copy, PartialEq, Eq, Structural)]
pub enum DeleteStep {
    /// Remove the key from the store, then report with `delete_finished`.
    Remove,
    /// Stop with this outcome.
    Finish(DeleteOutcome),
}

/// Decides the first step of a delete call, given whether the key holds a
/// raw value (whether or not it decodes).
pub fn delete_step(found: bool) -> (r: DeleteStep)
    ensures
        found ==> r == DeleteStep::Remove,
        !found ==> r == DeleteStep::Finish(DeleteOutcome::NotFound),
{
    if found {
        DeleteStep::Remove
    } else {
        DeleteStep::Finish(DeleteOutcome::NotFound)
    }
}

/// The outcome of a delete call once the store was asked to remove the key.
pub fn delete_finished(removed: bool) -> (r: DeleteOutcome)
    ensures
        removed ==> r == DeleteOutcome::Deleted,
        !removed ==> r == DeleteOutcome::Failed,
{
    if removed {
        DeleteOutcome::Deleted
    } else {
        DeleteOutcome::Failed
    }
}

// ---------------------------------------------------------------------------
// Properties of the decisions

/// Resolving a valid link stores it back with exactly one more view and the
/// visit time as its last view, and touches no other key.
pub proof fn resolve_counts_one_view(store: LinkStore, key: Seq<char>, now: u64)
    requires
        store.contains_key(key),
        store[key].valid_at(now),
        store[key].views < u64::MAX,
    ensures
        ({
            let after = resolve_action(lookup(store, key), now).applied(store, key);
            &&& after.contains_key(key)
            &&& after[key].views == store[key].views + 1
            &&& after[key].last_viewed_timestamp == Some(now)
            &&& after[key].url == store[key].url
            &&& after.remove(key) == store.remove(key)
        }),
{
}

/// Resolving a link that is not valid (disabled, expired or out of views)
/// removes its key and changes nothing else: no view is counted anywhere.
pub proof fn resolve_purges_invalid(store: LinkStore, key: Seq<char>, now: u64)
    requires
        store.contains_key(key),
        !store[key].valid_at(now),
    ensures
        resolve_action(lookup(store, key), now) == ResolveAction::Purge,
        resolve_action(lookup(store, key), now).applied(store, key) == store.remove(key),
        !resolve_action(lookup(store, key), now).applied(store, key).contains_key(key),
{
}

/// A details request on a link that is not valid (disabled, expired or out
/// of views) removes its key and changes nothing else.
pub proof fn details_purges_invalid(store: LinkStore, key: Seq<char>, now: u64)
    requires
        store.contains_key(key),
        !store[key].valid_at(now),
    ensures
        details_action(lookup(store, key), now) == DetailsAction::Purge,
        details_action(lookup(store, key), now).applied(store, key) == store.remove(key),
        !details_action(lookup(store, key), now).applied(store, key).contains_key(key),
{
}

/// Without overwrite, a create-or-update on a key that holds a link is
/// refused as a conflict and leaves the store as it was.
pub proof fn no_overwrite_conflicts(
    store: LinkStore,
    key: Seq<char>,
    body: CreateLinkRequestBody,
    target: String,
    now: u64,
)
    requires
        store.contains_key(key),
        !body.overwrite,
    ensures
        planned_write(lookup(store, key), body, target, now) == Err::<LinkWrite, Rejection>(
            Rejection::Conflict,
        ),
        written(store, key, planned_write(lookup(store, key), body, target, now)) == store,
{
}

/// With overwrite, a create-or-update on a key that holds a link keeps the
/// link's view count, creation time and last-view time, and takes its target,
/// disabled flag, view limit and expiry from the request.
pub proof fn overwrite_keeps_history(
    store: LinkStore,
    key: Seq<char>,
    body: CreateLinkRequestBody,
    target: String,
    now: u64,
)
    requires
        store.contains_key(key),
        body.overwrite,
    ensures
        ({
            let outcome = planned_write(lookup(store, key), body, target, now);
            let before = store[key];
            let after = written(store, key, outcome)[key];
            &&& outcome is Ok
            &&& outcome->Ok_0.overwritten
            &&& after.views == before.views
            &&& after.created_at_timestamp == before.created_at_timestamp
            &&& after.last_viewed_timestamp == before.last_viewed_timestamp
            &&& after.url == target
            &&& after.disabled == body.disabled
            &&& after.max_views == body.max_views
            &&& after.expiry_timestamp == expiry_from(body.expire_in, now)
            &&& after.modified_at_timestamp == now
        }),
{
}

/// A create-or-update whose target lies on the domain of the request itself
/// is refused as bad input, whatever the target's scheme or path.
pub proof fn own_domain_is_bad_input(body: CreateLinkRequestBody, request_url: Seq<char>)
    requires
        url_domain(body.url@) == url_domain(request_url),
    ensures
        request_check(body, request_url) is Err,
        request_check(body, request_url)->Err_0.is_bad_input(),
{
}

/// No decision lowers the view count stored under a key: a resolve keeps or
/// raises it (or removes the record), a details request writes nothing, and
/// a create-or-update keeps the count of a link it replaces.
pub proof fn views_never_decrease(
    store: LinkStore,
    key: Seq<char>,
    body: CreateLinkRequestBody,
    target: String,
    now: u64,
)
    requires
        store.contains_key(key),
    ensures
        resolve_action(lookup(store, key), now).applied(store, key).contains_key(key) ==> resolve_action(
            lookup(store, key),
            now,
        ).applied(store, key)[key].views >= store[key].views,
        details_action(lookup(store, key), now).applied(store, key).contains_key(key)
            ==> details_action(lookup(store, key), now).applied(store, key)[key].views
            == store[key].views,
        written(store, key, planned_write(lookup(store, key), body, target, now))[key].views
            == store[key].views,
{
}

} // verus!
