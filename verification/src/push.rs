//! Webhook push-notification configurations for tasks, and the rules of
//! their delivery: which events are delivered, which headers accompany
//! them, and how failed deliveries are retried.

use vstd::prelude::*;
use vstd::string::StringExecFns;

use crate::error::Error;
use crate::events::{spec_event_task, task_id_for_event, Event};
use crate::ids::{PushNotificationId, TaskId};

verus! {

/// HTTP authentication credentials used when delivering a webhook.
#[derive(Debug)]
pub struct PushNotificationAuth {
    /// HTTP authentication scheme name.
    pub scheme: String,
    /// Credential payload; its format depends on the scheme.
    pub credentials: String,
}

/// The view of authentication credentials.
pub type AuthView = (Seq<char>, Seq<char>);

impl View for PushNotificationAuth {
    type V = AuthView;

    open spec fn view(&self) -> AuthView {
        (self.scheme@, self.credentials@)
    }
}

impl Clone for PushNotificationAuth {
    fn clone(&self) -> (r: Self)
        ensures
            r@ == self@,
    {
        PushNotificationAuth { scheme: self.scheme.clone(), credentials: self.credentials.clone() }
    }
}

/// A single webhook configuration attached to a task.
#[derive(Debug)]
pub struct PushNotificationConfig {
    /// Unique identifier for this configuration.
    pub id: PushNotificationId,
    /// Task this configuration is bound to.
    pub task_id: TaskId,
    /// Absolute URL to which lifecycle events are POSTed.
    pub url: String,
    /// Opaque token forwarded as `X-Trumpet-Notification-Token`.
    pub token: String,
    /// Optional `Authorization` header credentials.
    pub authentication: Option<PushNotificationAuth>,
}

/// The view of a configuration.
pub struct PushConfigView {
    pub id: PushNotificationId,
    pub task_id: TaskId,
    pub url: Seq<char>,
    pub token: Seq<char>,
    pub authentication: Option<AuthView>,
}

/// The view of optional credentials.
pub open spec fn auth_view(a: Option<PushNotificationAuth>) -> Option<AuthView> {
    match a {
        Some(a) => Some(a@),
        None => None,
    }
}

impl View for PushNotificationConfig {
    type V = PushConfigView;

    open spec fn view(&self) -> PushConfigView {
        PushConfigView {
            id: self.id,
            task_id: self.task_id,
            url: self.url@,
            token: self.token@,
            authentication: auth_view(self.authentication),
        }
    }
}

impl Clone for PushNotificationConfig {
    fn clone(&self) -> (r: Self)
        ensures
            r@ == self@,
    {
        let authentication = match &self.authentication {
            Some(a) => Some(a.clone()),
            None => None,
        };
        PushNotificationConfig {
            id: self.id,
            task_id: self.task_id,
            url: self.url.clone(),
            token: self.token.clone(),
            authentication,
        }
    }
}

/// What the `url` crate makes of a text: the URL's scheme (lower-case),
/// or the text of its parse error.
pub uninterp spec fn url_parse(s: Seq<char>) -> Result<Seq<char>, Seq<char>>;

/// `url::Url::parse`, reporting the scheme of the parsed URL or the parse
/// error's text.
#[verifier::external_body]
fn parse_url_scheme(s: &str) -> (r: Result<String, String>)
    ensures
        match url_parse(s@) {
            Ok(scheme) => r matches Ok(x) && x@ == scheme,
            Err(m) => r matches Err(x) && x@ == m,
        },
{
    match url::Url::parse(s) {
        Ok(u) => Ok(u.scheme().to_string()),
        Err(e) => Err(e.to_string()),
    }
}

/// Why a webhook URL is refused, if it is: it does not parse, or its
/// scheme is neither `http` nor `https`.
pub open spec fn url_rejection(url: Seq<char>) -> Option<Seq<char>> {
    match url_parse(url) {
        Err(m) => Some("push notification url '"@ + url + "' is invalid: "@ + m),
        Ok(scheme) => if scheme == "http"@ || scheme == "https"@ {
            None
        } else {
            Some("push notification url '"@ + url + "' must use http or https; got '"@ + scheme + "'"@)
        },
    }
}

/// Checks a webhook URL: it must parse as an absolute URL with an `http`
/// or `https` scheme.
pub fn validate_webhook_url(url: &str) -> (r: Result<(), Error>)
    ensures
        match url_rejection(url@) {
            None => r is Ok,
            Some(m) => r matches Err(Error::InvalidInput { reason }) && reason@ == m,
        },
{
    match parse_url_scheme(url) {
        Err(m) => {
            let mut s = String::from_str("push notification url '");
            s.append(url);
            s.append("' is invalid: ");
            s.append(m.as_str());
            Err(Error::InvalidInput { reason: s })
        },
        Ok(scheme) => {
            if scheme == String::from_str("http") || scheme == String::from_str("https") {
                Ok(())
            } else {
                let mut s = String::from_str("push notification url '");
                s.append(url);
                s.append("' must use http or https; got '");
                s.append(scheme.as_str());
                s.append("'");
                Err(Error::InvalidInput { reason: s })
            }
        },
    }
}

/// The configurations of one task, in the order they were created.
pub open spec fn configs_for(s: Seq<PushConfigView>, task: TaskId) -> Seq<PushConfigView> {
    s.filter(|c: PushConfigView| c.task_id == task)
}

/// Whether configuration `c` is the one `(task, id)` names.
pub open spec fn names(c: PushConfigView, task: TaskId, id: PushNotificationId) -> bool {
    c.task_id == task && c.id == id
}

/// The configurations other than the one `(task, id)` names, in order.
pub open spec fn without(s: Seq<PushConfigView>, task: TaskId, id: PushNotificationId) -> Seq<PushConfigView> {
    s.filter(|c: PushConfigView| !names(c, task, id))
}

/// In-memory store of webhook configurations, in creation order.
#[derive(Debug)]
pub struct PushNotificationStore {
    configs: Vec<PushNotificationConfig>,
}

impl View for PushNotificationStore {
    type V = Seq<PushConfigView>;

    closed spec fn view(&self) -> Seq<PushConfigView> {
        self.configs@.map_values(|c: PushNotificationConfig| c@)
    }
}

impl Default for PushNotificationStore {
    fn default() -> (r: Self)
        ensures
            r@ == Seq::<PushConfigView>::empty(),
    {
        let r = PushNotificationStore { configs: Vec::new() };
        assert(r@ =~= Seq::<PushConfigView>::empty());
        r
    }
}

/// The views of a vector of configurations.
pub open spec fn push_configs_view(v: Seq<PushNotificationConfig>) -> Seq<PushConfigView> {
    v.map_values(|c: PushNotificationConfig| c@)
}

impl PushNotificationStore {
    /// Create an empty store.
    pub fn new() -> (r: Self)
        ensures
            r@ == Seq::<PushConfigView>::empty(),
    {
        Self::default()
    }

    /// Register a new webhook for `task_id` with a fresh identifier.
    ///
    /// # Errors
    ///
    /// [`Error::InvalidInput`] when `url` is not a parseable absolute URL
    /// with an `http` or `https` scheme.
    pub fn create(
        &mut self,
        task_id: TaskId,
        url: String,
        token: String,
        authentication: Option<PushNotificationAuth>,
    ) -> (r: Result<PushNotificationConfig, Error>)
        ensures
            match url_rejection(url@) {
                Some(m) => r matches Err(Error::InvalidInput { reason }) && reason@ == m
                    && final(self)@ == old(self)@,
                None => r matches Ok(c) && {
                    &&& c@.task_id == task_id
                    &&& c@.url == url@
                    &&& c@.token == token@
                    &&& c@.authentication == auth_view(authentication)
                    &&& final(self)@ == old(self)@.push(c@)
                },
            },
    {
        match validate_webhook_url(url.as_str()) {
            Err(e) => return Err(e),
            Ok(()) => {},
        }
        let cfg = PushNotificationConfig { id: PushNotificationId::new(), task_id, url, token, authentication };
        let ghost before = self@;
        self.configs.push(cfg.clone());
        assert(self@ =~= before.push(cfg@));
        Ok(cfg)
    }

    /// The configuration `(task_id, id)`: the first one created with that
    /// task and identifier, if any.
    pub fn get(&self, task_id: &TaskId, id: &PushNotificationId) -> (r: Option<&PushNotificationConfig>)
        ensures
            match r {
                Some(c) => exists|i: int|
                    0 <= i < self@.len() && self@[i] == c@ && names(self@[i], *task_id, *id)
                        && forall|j: int| 0 <= j < i ==> !#[trigger] names(self@[j], *task_id, *id),
                None => forall|i: int| 0 <= i < self@.len() ==> !#[trigger] names(self@[i], *task_id, *id),
            },
    {
        let mut i: usize = 0;
        while i < self.configs.len()
            invariant
                i <= self.configs@.len(),
                self@.len() == self.configs@.len(),
                forall|j: int| 0 <= j < i ==> !#[trigger] names(self@[j], *task_id, *id),
            decreases self.configs.len() - i,
        {
            assert(self@[i as int] == self.configs@[i as int]@);
            if self.configs[i].task_id == *task_id && self.configs[i].id == *id {
                return Some(&self.configs[i]);
            }
            i = i + 1;
        }
        None
    }

    /// Every configuration registered against `task_id`, oldest first.
    pub fn list(&self, task_id: &TaskId) -> (r: Vec<PushNotificationConfig>)
        ensures
            push_configs_view(r@) == configs_for(self@, *task_id),
    {
        let ghost pred = |c: PushConfigView| c.task_id == *task_id;
        let mut r: Vec<PushNotificationConfig> = Vec::new();
        let mut i: usize = 0;
        while i < self.configs.len()
            invariant
                i <= self.configs@.len(),
                self@.len() == self.configs@.len(),
                pred == (|c: PushConfigView| c.task_id == *task_id),
                push_configs_view(r@) == self@.subrange(0, i as int).filter(pred),
            decreases self.configs.len() - i,
        {
            proof {
                reveal(Seq::filter);
                assert(self@.subrange(0, i + 1).drop_last() =~= self@.subrange(0, i as int));
                assert(self@.subrange(0, i + 1).last() == self.configs@[i as int]@);
            }
            if self.configs[i].task_id == *task_id {
                let c = self.configs[i].clone();
                let ghost before = push_configs_view(r@);
                r.push(c);
                assert(push_configs_view(r@) =~= before.push(self.configs@[i as int]@));
            }
            i = i + 1;
        }
        assert(self@.subrange(0, i as int) =~= self@);
        r
    }

    /// Delete the configuration `(task_id, id)`; reports whether anything
    /// was removed. Every other configuration stays, in order.
    pub fn delete(&mut self, task_id: &TaskId, id: &PushNotificationId) -> (r: bool)
        ensures
            final(self)@ == without(old(self)@, *task_id, *id),
            r <==> exists|i: int| 0 <= i < old(self)@.len() && #[trigger] names(old(self)@[i], *task_id, *id),
    {
        let ghost pred = |c: PushConfigView| !names(c, *task_id, *id);
        let ghost before = self@;
        let mut old_configs: Vec<PushNotificationConfig> = Vec::new();
        std::mem::swap(&mut old_configs, &mut self.configs);
        assert(push_configs_view(old_configs@) == before);
        let mut kept: Vec<PushNotificationConfig> = Vec::new();
        let mut removed = false;
        let mut i: usize = 0;
        while i < old_configs.len()
            invariant
                i <= old_configs@.len(),
                before == push_configs_view(old_configs@),
                pred == (|c: PushConfigView| !names(c, *task_id, *id)),
                push_configs_view(kept@) == before.subrange(0, i as int).filter(pred),
                removed <==> exists|j: int| 0 <= j < i && #[trigger] names(before[j], *task_id, *id),
            decreases old_configs.len() - i,
        {
            proof {
                reveal(Seq::filter);
                assert(before.subrange(0, i + 1).drop_last() =~= before.subrange(0, i as int));
                assert(before.subrange(0, i + 1).last() == old_configs@[i as int]@);
            }
            assert(before[i as int] == old_configs@[i as int]@);
            if old_configs[i].task_id == *task_id && old_configs[i].id == *id {
                assert(names(before[i as int], *task_id, *id));
                removed = true;
            } else {
                assert(!names(before[i as int], *task_id, *id));
                let c = old_configs[i].clone();
                let ghost prior = push_configs_view(kept@);
                kept.push(c);
                assert(push_configs_view(kept@) =~= prior.push(old_configs@[i as int]@));
            }
            i = i + 1;
        }
        assert(before.subrange(0, i as int) =~= before);
        self.configs = kept;
        removed
    }

    /// Replace the entire store with `configs`, in order.
    pub fn restore(&mut self, configs: Vec<PushNotificationConfig>)
        ensures
            final(self)@ == push_configs_view(configs@),
    {
        self.configs = configs;
    }

    /// Every stored configuration, in creation order.
    pub fn all(&self) -> (r: Vec<PushNotificationConfig>)
        ensures
            push_configs_view(r@) == self@,
    {
        let mut r: Vec<PushNotificationConfig> = Vec::new();
        let mut i: usize = 0;
        while i < self.configs.len()
            invariant
                i <= self.configs@.len(),
                self@.len() == self.configs@.len(),
                push_configs_view(r@) == self@.subrange(0, i as int),
            decreases self.configs.len() - i,
        {
            let c = self.configs[i].clone();
            let ghost prior = push_configs_view(r@);
            r.push(c);
            assert(push_configs_view(r@) =~= prior.push(self.configs@[i as int]@));
            assert(self@.subrange(0, i + 1) =~= self@.subrange(0, i as int).push(self@[i as int]));
            i = i + 1;
        }
        assert(self@.subrange(0, i as int) =~= self@);
        r
    }
}

// ── Delivery ─────────────────────────────────────────────────────────────────

/// Seconds a single delivery attempt may take.
pub const DELIVERY_TIMEOUT_SECS: u64 = 10;

/// Retries allowed after the first failed delivery.
pub const MAX_RETRIES: u32 = 3;

/// The task a bus event is delivered for, if it is a task event; other
/// events are not delivered.
pub fn delivery_task(event: &Event) -> (r: Option<TaskId>)
    ensures
        r == spec_event_task(event@),
{
    task_id_for_event(event)
}

/// The extra headers of a delivery: the subscription token when there is
/// one, then `Authorization: <scheme> <credentials>` when credentials are
/// configured.
pub open spec fn spec_delivery_headers(c: PushConfigView) -> Seq<(Seq<char>, Seq<char>)> {
    let token_part = if c.token.len() > 0 {
        seq![("X-Trumpet-Notification-Token"@, c.token)]
    } else {
        Seq::empty()
    };
    match c.authentication {
        Some((scheme, credentials)) => token_part.push(("Authorization"@, scheme + " "@ + credentials)),
        None => token_part,
    }
}

/// The extra headers of a delivery for `cfg`.
pub fn delivery_headers(cfg: &PushNotificationConfig) -> (r: Vec<(String, String)>)
    ensures
        r@.map_values(|h: (String, String)| (h.0@, h.1@)) == spec_delivery_headers(cfg@),
{
    let mut r: Vec<(String, String)> = Vec::new();
    if !cfg.token.as_str().is_empty() {
        r.push((String::from_str("X-Trumpet-Notification-Token"), cfg.token.clone()));
    }
    let ghost first = r@.map_values(|h: (String, String)| (h.0@, h.1@));
    match &cfg.authentication {
        Some(a) => {
            let mut v = a.scheme.clone();
            v.append(" ");
            v.append(a.credentials.as_str());
            r.push((String::from_str("Authorization"), v));
            assert(r@.map_values(|h: (String, String)| (h.0@, h.1@)) =~= first.push(
                ("Authorization"@, a.scheme@ + " "@ + a.credentials@),
            ));
        },
        None => {},
    }
    assert(r@.map_values(|h: (String, String)| (h.0@, h.1@)) =~= spec_delivery_headers(cfg@));
    r
}

/// What a delivery sends besides the body: the `Authorization` header
/// (`<scheme> <credentials>`) whenever credentials are configured, whether
/// or not there is a token; the token header exactly when the token is not
/// empty, carrying the token; nothing else.
pub proof fn lemma_delivery_headers_contents(c: PushConfigView)
    ensures
        ({
            let h = spec_delivery_headers(c);
            &&& (c.authentication matches Some((scheme, credentials)) ==> h.contains(
                ("Authorization"@, scheme + " "@ + credentials),
            ))
            &&& (c.authentication is None ==> forall|i: int| 0 <= i < h.len() ==> (#[trigger] h[i]).0 != "Authorization"@)
            &&& (c.token.len() > 0 <==> h.contains(("X-Trumpet-Notification-Token"@, c.token)))
            &&& (c.token.len() == 0 ==> forall|i: int| 0 <= i < h.len() ==> (#[trigger] h[i]).0 != "X-Trumpet-Notification-Token"@)
            &&& h.len() == (if c.token.len() > 0 { 1int } else { 0int }) + (if c.authentication is Some { 1int } else { 0int })
        }),
{
    reveal_strlit("Authorization");
    reveal_strlit("X-Trumpet-Notification-Token");
    let h = spec_delivery_headers(c);
    let tok = ("X-Trumpet-Notification-Token"@, c.token);
    assert("Authorization"@.len() != "X-Trumpet-Notification-Token"@.len());
    if c.token.len() > 0 {
        assert(h[0] == tok);
    }
    match c.authentication {
        Some((scheme, credentials)) => {
            assert(h[h.len() - 1] == ("Authorization"@, scheme + " "@ + credentials));
        },
        None => {},
    }
}

/// What to do after a failed delivery attempt.
#[derive(Clone, Copy, Debug, PartialEq, Eq, Structural)]
pub enum RetryDecision {
    /// Wait this many seconds, then try again.
    RetryAfter { secs: u64 },
    /// Give up: the retry budget is spent.
    GiveUp,
}

/// The retry state of one delivery: failed attempts retried so far and
/// the wait before the next retry.
#[derive(Clone, Copy, Debug, PartialEq, Eq, Structural)]
pub struct RetryState {
    pub attempt: u32,
    pub delay_secs: u64,
}

/// After a failed attempt from state `s`: retry after the current delay
/// while fewer than [`MAX_RETRIES`] retries were made, doubling the delay
/// (saturating) for the next one; otherwise give up.
pub open spec fn spec_after_failure(s: RetryState) -> (RetryDecision, RetryState) {
    if s.attempt < MAX_RETRIES {
        (
            RetryDecision::RetryAfter { secs: s.delay_secs },
            RetryState {
                attempt: (s.attempt + 1) as u32,
                delay_secs: if s.delay_secs * 2 > u64::MAX { u64::MAX } else { (s.delay_secs * 2) as u64 },
            },
        )
    } else {
        (RetryDecision::GiveUp, s)
    }
}

impl RetryState {
    /// The state before the first attempt: no retries yet, a one-second
    /// first wait.
    pub fn start() -> (r: Self)
        ensures
            r == (RetryState { attempt: 0, delay_secs: 1 }),
    {
        RetryState { attempt: 0, delay_secs: 1 }
    }

    /// What to do after a failed attempt, and the state that follows.
    pub fn after_failure(self) -> (r: (RetryDecision, RetryState))
        ensures
            r == spec_after_failure(self),
    {
        if self.attempt < MAX_RETRIES {
            let next = if self.delay_secs > u64::MAX / 2 { u64::MAX } else { self.delay_secs * 2 };
            (RetryDecision::RetryAfter { secs: self.delay_secs }, RetryState { attempt: self.attempt + 1, delay_secs: next })
        } else {
            (RetryDecision::GiveUp, self)
        }
    }
}

/// A delivery that keeps failing is retried three times, after waits of
/// one, two and four seconds, and then given up.
pub proof fn lemma_retry_schedule()
    ensures
        ({
            let s0 = RetryState { attempt: 0, delay_secs: 1 };
            let (d1, s1) = spec_after_failure(s0);
            let (d2, s2) = spec_after_failure(s1);
            let (d3, s3) = spec_after_failure(s2);
            let (d4, s4) = spec_after_failure(s3);
            &&& d1 == RetryDecision::RetryAfter { secs: 1 }
            &&& d2 == RetryDecision::RetryAfter { secs: 2 }
            &&& d3 == RetryDecision::RetryAfter { secs: 4 }
            &&& d4 == RetryDecision::GiveUp
            &&& s4 == s3
        }),
{
}

/// A new configuration is listed for its task after every earlier one of
/// that task; the lists of other tasks do not change.
pub proof fn lemma_created_config_is_listed(s: Seq<PushConfigView>, c: PushConfigView)
    ensures
        configs_for(s.push(c), c.task_id) == configs_for(s, c.task_id).push(c),
        forall|t: TaskId| t != c.task_id ==> #[trigger] configs_for(s.push(c), t) == configs_for(s, t),
{
    reveal(Seq::filter);
    assert(s.push(c).drop_last() =~= s);
    assert forall|t: TaskId| t != c.task_id implies #[trigger] configs_for(s.push(c), t) == configs_for(s, t) by {
        assert(s.push(c).drop_last() =~= s);
    }
}

/// After deleting `(task, id)` no configuration is named by it.
pub proof fn lemma_deleted_config_is_gone(s: Seq<PushConfigView>, task: TaskId, id: PushNotificationId)
    ensures
        forall|i: int| 0 <= i < without(s, task, id).len() ==> !names(#[trigger] without(s, task, id)[i], task, id),
{
    broadcast use vstd::seq_lib::group_filter_ensures;
}

} // verus!
