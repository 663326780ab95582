use vstd::prelude::*;

verus! {

/// A stored link: the target it redirects to plus its lifecycle metadata.
/// Timestamps are milliseconds since the Unix epoch.
#[derive(Debug, Clone, PartialEq, Eq)]
pub struct LinkModel {
    /// The URL to redirect to upon visiting this link.
    pub url: String,
    /// Whether or not this link is disabled.
    pub disabled: bool,
    /// The amount of times this link has been viewed.
    pub views: u64,
    /// The maximum amount of times this link can be viewed before it becomes invalid.
    pub max_views: Option<u64>,
    /// The timestamp after which the link is invalid.
    pub expiry_timestamp: Option<u64>,
    /// The time this link was last viewed.
    pub last_viewed_timestamp: Option<u64>,
    /// The timestamp of original creation.
    pub created_at_timestamp: u64,
    /// The timestamp of last modification.
    pub modified_at_timestamp: u64,
}

/// The fields of a link that a create or update call sets.
#[derive(Debug, Clone, PartialEq, Eq)]
pub struct LinkBuilderArgs {
    /// The URL to redirect to.
    pub url: String,
    /// Whether or not this link has been disabled.
    pub disabled: bool,
    /// The maximum amount of times this link can be viewed before it becomes invalid.
    pub max_views: Option<u64>,
    /// The timestamp after which the link is invalid.
    pub expiry_timestamp: Option<u64>,
}

/// Relies on worker::Date::now and Date::as_millis: the current time in
/// milliseconds since the Unix epoch. Nothing is promised of its value.
#[verifier::external_body]
fn now_millis() -> (r: u64) {
    worker::Date::now().as_millis()
}

impl LinkModel {
    /// The link's expiry time has passed at `now`.
    pub open spec fn expired_at(self, now: u64) -> bool {
        match self.expiry_timestamp {
            Some(expires_at) => now > expires_at,
            None => false,
        }
    }

    /// The link has been viewed as often as it may be.
    pub open spec fn views_exhausted(self) -> bool {
        match self.max_views {
            Some(max_views) => self.views >= max_views,
            None => false,
        }
    }

    /// The link may be served at `now`.
    pub open spec fn valid_at(self, now: u64) -> bool {
        !self.disabled && !self.expired_at(now) && !self.views_exhausted()
    }

    /// The link as a create call at `now` builds it from `args`.
    pub open spec fn created(args: LinkBuilderArgs, now: u64) -> LinkModel {
        LinkModel {
            url: args.url,
            disabled: args.disabled,
            views: 0,
            max_views: args.max_views,
            expiry_timestamp: args.expiry_timestamp,
            last_viewed_timestamp: None,
            created_at_timestamp: now,
            modified_at_timestamp: now,
        }
    }

    /// The link as an update call at `now` leaves it: the fields of `args`
    /// replace the old ones, the view count and the creation and last-view
    /// times stay.
    pub open spec fn modified(self, args: LinkBuilderArgs, now: u64) -> LinkModel {
        LinkModel {
            url: args.url,
            disabled: args.disabled,
            max_views: args.max_views,
            expiry_timestamp: args.expiry_timestamp,
            modified_at_timestamp: now,
            ..self
        }
    }

    /// The link after a visit at `now`. The counter stops at `u64::MAX`.
    pub open spec fn visited(self, now: u64) -> LinkModel {
        LinkModel {
            views: if self.views < u64::MAX { (self.views + 1) as u64 } else { self.views },
            last_viewed_timestamp: Some(now),
            ..self
        }
    }

    /// Creates a new link at time `now`: no views yet, created and modified at `now`.
    pub fn new_at(args: LinkBuilderArgs, now: u64) -> (r: LinkModel)
        ensures
            r == LinkModel::created(args, now),
    {
        LinkModel {
            url: args.url,
            disabled: args.disabled,
            views: 0,
            max_views: args.max_views,
            expiry_timestamp: args.expiry_timestamp,
            last_viewed_timestamp: None,
            created_at_timestamp: now,
            modified_at_timestamp: now,
        }
    }

    /// Consumes the link and returns it updated at time `now` from `args`,
    /// keeping its views, creation time and last-view time.
    pub fn modify_at(self, args: LinkBuilderArgs, now: u64) -> (r: LinkModel)
        ensures
            r == self.modified(args, now),
    {
        LinkModel {
            url: args.url,
            disabled: args.disabled,
            max_views: args.max_views,
            expiry_timestamp: args.expiry_timestamp,
            modified_at_timestamp: now,
            ..self
        }
    }

    /// Records a visit at time `now`: one more view, last viewed at `now`.
    pub fn increment_visits_at(&mut self, now: u64)
        ensures
            *final(self) == old(self).visited(now),
    {
        self.last_viewed_timestamp = Some(now);
        if self.views < u64::MAX {
            self.views = self.views + 1;
        }
    }

    /// Creates a new link at the current time.
    pub fn new(args: LinkBuilderArgs) -> (r: LinkModel)
        ensures
            exists|now: u64| r == #[trigger] LinkModel::created(args, now),
    {
        let now = now_millis();
        let r = LinkModel::new_at(args, now);
        assert(r == LinkModel::created(args, now));
        r
    }

    /// Consumes the link and returns it updated from `args` at the current time.
    pub fn modify(self, args: LinkBuilderArgs) -> (r: LinkModel)
        ensures
            exists|now: u64| r == #[trigger] self.modified(args, now),
    {
        let now = now_millis();
        let r = self.modify_at(args, now);
        assert(r == self.modified(args, now));
        r
    }

    /// Records a visit at the current time.
    pub fn increment_visits(&mut self)
        ensures
            exists|now: u64| *final(self) == #[trigger] old(self).visited(now),
    {
        let now = now_millis();
        self.increment_visits_at(now);
        assert(*self == old(self).visited(now));
    }

    /// Whether the link may be served at the current time.
    pub fn is_valid(&self) -> (r: bool)
        ensures
            exists|now: u64| r == #[trigger] self.valid_at(now),
    {
        let now = now_millis();
        self.is_valid_at(now)
    }

    /// Whether the link may be served at time `now`: it is not disabled, its
    /// expiry time (if any) has not passed, and its view limit (if any) has
    /// not been reached.
    pub fn is_valid_at(&self, now: u64) -> (r: bool)
        ensures
            r == self.valid_at(now),
            !r <==> (self.disabled || self.expired_at(now) || self.views_exhausted()),
    {
        if self.disabled {
            return false;
        }
        if let Some(expires_at) = self.expiry_timestamp {
            if now > expires_at {
                return false;
            }
        }
        if let Some(max_views) = self.max_views {
            if self.views >= max_views {
                return false;
            }
        }
        true
    }
}

} // verus!
