//! Workspace settings: whether DeepSeek plugins are enabled for a workspace
//! account, with a short-lived cache of the last answer.

use vstd::prelude::*;
use crate::text::{str_eq, join3, owned, chars_of};
use vstd::string::*;
use vstd::utf8::encode_utf8;
use crate::path_segment::{encode_path_segment, encode_segment};
use std::time::{Duration, Instant};

verus! {

#[verifier::external_type_specification]
#[verifier::external_body]
pub struct ExInstant(Instant);

/// Seconds that the settings request may take.
pub const WORKSPACE_SETTINGS_TIMEOUT_SECS: u64 = 10;
/// Nanoseconds for which a cached answer stays valid (15 minutes).
pub const WORKSPACE_SETTINGS_CACHE_TTL_NANOS: u128 = 900_000_000_000;
/// The beta setting that switches plugins on or off.
pub const CODEX_PLUGINS_BETA_SETTING: &'static str = "enable_plugins";

/// Largest number of nanoseconds a `Duration` can hold.
pub open spec fn max_duration_nanos() -> int {
    18_446_744_073_709_551_615int * 1_000_000_000int + 999_999_999int
}

/// Calls `Instant::now`. Nothing is claimed of the reading.
#[verifier::external_body]
fn instant_now() -> (r: Instant) {
    Instant::now()
}

/// Calls `Instant::elapsed`. Nothing is claimed of the reading: it depends on
/// the clock.
#[verifier::external_body]
fn elapsed_since(origin: &Instant) -> (r: Duration) {
    origin.elapsed()
}

/// Calls `Duration::as_nanos`. Claimed: the count fits in a `Duration` (at
/// most `u64::MAX` seconds and 999 999 999 nanoseconds). Which count it is
/// is not stated: the type is opaque here.
#[verifier::external_body]
fn duration_nanos(d: &Duration) -> (r: u128)
    ensures
        r <= max_duration_nanos(),
{
    d.as_nanos()
}

/// Nanoseconds since `origin`, read from the clock.
fn nanos_since(origin: &Instant) -> (r: u128)
    ensures
        r <= max_duration_nanos(),
{
    let elapsed = elapsed_since(origin);
    duration_nanos(&elapsed)
}

/// The account a cached answer belongs to.
pub struct WorkspaceSettingsCacheKey {
    pub chatgpt_base_url: String,
    pub account_id: String,
}

impl WorkspaceSettingsCacheKey {
    /// The backend URL and the account id.
    pub open spec fn view_pair(&self) -> (Seq<char>, Seq<char>) {
        (self.chatgpt_base_url@, self.account_id@)
    }

    /// Whether two keys name the same account on the same backend.
    pub fn matches(&self, other: &WorkspaceSettingsCacheKey) -> (r: bool)
        ensures
            r == (self.view_pair() == other.view_pair()),
    {
        str_eq(self.chatgpt_base_url.as_str(), other.chatgpt_base_url.as_str()) && str_eq(
            self.account_id.as_str(),
            other.account_id.as_str(),
        )
    }
}

/// A cached answer with the moment (in nanoseconds on the cache's clock) at
/// which it expires.
pub struct CachedWorkspaceSettings {
    pub key: WorkspaceSettingsCacheKey,
    pub expires_at: u128,
    pub deepseek_plugins_enabled: bool,
}

/// Holds at most one answer, for one account, for a limited time.
pub struct WorkspaceSettingsCache {
    entry: Option<CachedWorkspaceSettings>,
    clock_origin: Instant,
    last_moment: u128,
}

/// Whether `entry` answers for `key` at moment `now`.
pub open spec fn entry_hit(entry: Option<CachedWorkspaceSettings>, key: (Seq<char>, Seq<char>), now: int) -> bool {
    entry matches Some(cached) && now < cached.expires_at && cached.key.view_pair() == key
}

/// What a lookup at moment `now` returns and leaves behind.
pub open spec fn lookup_outcome(
    old_entry: Option<CachedWorkspaceSettings>,
    key: (Seq<char>, Seq<char>),
    now: int,
    r: Option<bool>,
    new_entry: Option<CachedWorkspaceSettings>,
) -> bool {
    &&& 0 <= now <= max_duration_nanos()
    &&& entry_hit(old_entry, key, now) ==> r == Some(old_entry->0.deepseek_plugins_enabled)
        && new_entry == old_entry
    &&& !entry_hit(old_entry, key, now) ==> r is None && new_entry is None
}

/// The entry that recording `enabled` for `key` at moment `now` leaves.
pub open spec fn record_outcome(
    key: WorkspaceSettingsCacheKey,
    enabled: bool,
    now: int,
    new_entry: Option<CachedWorkspaceSettings>,
) -> bool {
    &&& 0 <= now <= max_duration_nanos()
    &&& new_entry == Some(
        CachedWorkspaceSettings {
            key,
            expires_at: (now + WORKSPACE_SETTINGS_CACHE_TTL_NANOS) as u128,
            deepseek_plugins_enabled: enabled,
        },
    )
}

/// A lookup on `before` at moment `now` of the cache's clock: the moment is
/// not earlier than the last one used, becomes the last one used, and the
/// lookup answers as `get_at` does at that moment.
pub open spec fn clock_lookup_at(
    before: WorkspaceSettingsCache,
    key: (Seq<char>, Seq<char>),
    r: Option<bool>,
    after: WorkspaceSettingsCache,
    now: int,
) -> bool {
    &&& now >= before.spec_last_moment()
    &&& after.spec_last_moment() == now
    &&& lookup_outcome(before.spec_entry(), key, now, r, after.spec_entry())
}

/// A lookup on `before` at the current moment of the cache's clock.
pub open spec fn clock_lookup(
    before: WorkspaceSettingsCache,
    key: (Seq<char>, Seq<char>),
    r: Option<bool>,
    after: WorkspaceSettingsCache,
) -> bool {
    exists|now: int| #[trigger] clock_lookup_at(before, key, r, after, now)
}

/// A recording on `before` at moment `now` of the cache's clock: the moment
/// is not earlier than the last one used, becomes the last one used, and the
/// answer is recorded as `set_at` does at that moment.
pub open spec fn clock_record_at(
    before: WorkspaceSettingsCache,
    key: WorkspaceSettingsCacheKey,
    enabled: bool,
    after: WorkspaceSettingsCache,
    now: int,
) -> bool {
    &&& now >= before.spec_last_moment()
    &&& after.spec_last_moment() == now
    &&& record_outcome(key, enabled, now, after.spec_entry())
}

/// A recording on `before` at the current moment of the cache's clock.
pub open spec fn clock_record(
    before: WorkspaceSettingsCache,
    key: WorkspaceSettingsCacheKey,
    enabled: bool,
    after: WorkspaceSettingsCache,
) -> bool {
    exists|now: int| #[trigger] clock_record_at(before, key, enabled, after, now)
}

impl WorkspaceSettingsCache {
    #[verifier::type_invariant]
    spec fn moments_fit(&self) -> bool {
        self.last_moment <= max_duration_nanos()
    }

    /// The cached answer, if any.
    pub closed spec fn spec_entry(&self) -> Option<CachedWorkspaceSettings> {
        self.entry
    }

    /// The latest moment of the cache's clock that a lookup or a recording
    /// used (0 before the first).
    pub closed spec fn spec_last_moment(&self) -> u128 {
        self.last_moment
    }

    /// Whether an answer is cached.
    pub fn has_entry(&self) -> (r: bool)
        ensures
            r == self.spec_entry() is Some,
    {
        self.entry.is_some()
    }

    /// An empty cache whose clock starts now.
    pub fn new() -> (r: Self)
        ensures
            r.spec_entry() is None,
            r.spec_last_moment() == 0,
    {
        WorkspaceSettingsCache { entry: None, clock_origin: instant_now(), last_moment: 0 }
    }

    /// Looks `key` up at moment `now`. A live entry for the same key answers;
    /// otherwise the stale or foreign entry is dropped and nothing is
    /// returned.
    pub fn get_at(&mut self, key: &WorkspaceSettingsCacheKey, now: u128) -> (r: Option<bool>)
        ensures
            entry_hit(old(self).spec_entry(), key.view_pair(), now as int) ==> r == Some(
                old(self).spec_entry()->0.deepseek_plugins_enabled,
            ) && final(self).spec_entry() == old(self).spec_entry(),
            !entry_hit(old(self).spec_entry(), key.view_pair(), now as int) ==> r is None && final(self).spec_entry() is None,
            final(self).spec_last_moment() == old(self).spec_last_moment(),
    {
        proof {
            use_type_invariant(&*self);
        }
        let hit = match &self.entry {
            Some(cached) => now < cached.expires_at && cached.key.matches(key),
            None => false,
        };
        if hit {
            match &self.entry {
                Some(cached) => Some(cached.deepseek_plugins_enabled),
                None => None,
            }
        } else {
            self.entry = None;
            None
        }
    }

    /// Records `enabled` for `key` at moment `now`; the answer lives for the
    /// cache's time to live.
    pub fn set_at(&mut self, key: WorkspaceSettingsCacheKey, enabled: bool, now: u128)
        requires
            now <= max_duration_nanos(),
        ensures
            final(self).spec_entry() == Some(
                CachedWorkspaceSettings {
                    key,
                    expires_at: (now + WORKSPACE_SETTINGS_CACHE_TTL_NANOS) as u128,
                    deepseek_plugins_enabled: enabled,
                },
            ),
            final(self).spec_last_moment() == old(self).spec_last_moment(),
    {
        proof {
            use_type_invariant(&*self);
        }
        self.entry = Some(
            CachedWorkspaceSettings {
                key,
                expires_at: now + WORKSPACE_SETTINGS_CACHE_TTL_NANOS,
                deepseek_plugins_enabled: enabled,
            },
        );
    }

    /// The current moment of the cache's clock: the clock's reading, never
    /// earlier than a moment used before (the clock is monotonic, so this is
    /// the reading itself).
    fn current_moment(&mut self) -> (now: u128)
        ensures
            now >= old(self).spec_last_moment(),
            now <= max_duration_nanos(),
            final(self).spec_last_moment() == now,
            final(self).spec_entry() == old(self).spec_entry(),
    {
        proof {
            use_type_invariant(&*self);
        }
        let reading = nanos_since(&self.clock_origin);
        let now = if reading < self.last_moment {
            self.last_moment
        } else {
            reading
        };
        self.last_moment = now;
        now
    }

    /// Looks `key` up at the current moment of the cache's clock (see
    /// `get_at`). That moment is never earlier than the moment of an earlier
    /// lookup or recording on this cache; which moment it is depends on the
    /// clock.
    pub fn get_deepseek_plugins_enabled(&mut self, key: &WorkspaceSettingsCacheKey) -> (r: Option<bool>)
        ensures
            clock_lookup(*old(self), key.view_pair(), r, *final(self)),
    {
        let ghost before = *self;
        let now = self.current_moment();
        let ghost entry_before = self.entry;
        let r = self.get_at(key, now);
        assert(lookup_outcome(entry_before, key.view_pair(), now as int, r, self.entry));
        assert(clock_lookup_at(before, key.view_pair(), r, *self, now as int));
        r
    }

    /// Records `enabled` for `key` at the current moment of the cache's clock
    /// (see `set_at`); that moment is never earlier than the moment of an
    /// earlier lookup or recording on this cache.
    pub fn set_deepseek_plugins_enabled(&mut self, key: WorkspaceSettingsCacheKey, enabled: bool)
        ensures
            clock_record(*old(self), key, enabled, *final(self)),
    {
        let ghost before = *self;
        let now = self.current_moment();
        self.set_at(key, enabled, now);
        assert(record_outcome(key, enabled, now as int, self.entry));
        assert(clock_record_at(before, key, enabled, *self, now as int));
    }
}


/// The facts of a DeepSeek login that decide workspace plugin access.
pub struct AuthFacts {
    pub is_chatgpt_auth: bool,
    pub is_workspace_account: bool,
    pub account_id: Option<String>,
    pub chatgpt_user_id: Option<String>,
}

/// What happens next when checking whether plugins are enabled.
pub enum PluginsEnabledStep {
    /// The answer is known without asking the backend.
    Decided(bool),
    /// The workspace settings must be fetched from `path`, waiting at most
    /// `timeout_secs` seconds; the answer is then recorded under
    /// `cache_key`.
    FetchSettings { path: String, timeout_secs: u64, cache_key: WorkspaceSettingsCacheKey },
}

/// The answer a step already holds.
pub open spec fn step_answer(step: PluginsEnabledStep) -> Option<bool> {
    match step {
        PluginsEnabledStep::Decided(v) => Some(v),
        PluginsEnabledStep::FetchSettings { .. } => None,
    }
}

/// `/accounts/{account}/settings`, with the account id percent-encoded.
pub open spec fn settings_path(account_id: Seq<char>) -> Seq<char> {
    "/accounts/"@ + encode_segment(encode_utf8(account_id)) + "/settings"@
}

/// The account whose workspace settings decide, if any: a ChatGPT login of
/// a workspace account with a non-empty account id.
pub open spec fn checked_account(auth: Option<&AuthFacts>) -> Option<Seq<char>> {
    match auth {
        Some(a) => if a.is_chatgpt_auth && a.is_workspace_account && a.account_id is Some
            && a.account_id->0@.len() > 0 {
            Some(a.account_id->0@)
        } else {
            None
        },
        None => None,
    }
}

/// The value of the first setting named `name`.
pub open spec fn setting_value(settings: Seq<(String, bool)>, name: Seq<char>) -> Option<bool>
    decreases settings.len(),
{
    if settings.len() == 0 {
        None
    } else if settings[0].0@ == name {
        Some(settings[0].1)
    } else {
        setting_value(settings.drop_first(), name)
    }
}

/// No setting is named twice, as in the map the backend sends.
pub open spec fn distinct_setting_names(settings: Seq<(String, bool)>) -> bool {
    forall|i: int, j: int| 0 <= i < j < settings.len() ==> settings[i].0@ != settings[j].0@
}

/// Plugins are enabled unless the plugins beta setting says otherwise.
pub open spec fn plugins_enabled_by(settings: Seq<(String, bool)>) -> bool {
    match setting_value(settings, CODEX_PLUGINS_BETA_SETTING@) {
        Some(v) => v,
        None => true,
    }
}

/// First step of deciding whether DeepSeek plugins are enabled for the
/// login `auth` against the backend at `chatgpt_base_url`. Logins that are
/// not ChatGPT workspace logins with an account id always have plugins; a
/// live cached answer is used as it is; otherwise the settings must be
/// fetched.
pub fn begin_plugins_enabled_check(
    chatgpt_base_url: &str,
    auth: Option<&AuthFacts>,
    cache: &mut Option<WorkspaceSettingsCache>,
) -> (step: PluginsEnabledStep)
    ensures
        checked_account(auth) is None ==> step
            == PluginsEnabledStep::Decided(true) && *final(cache) == *old(cache),
        checked_account(auth) matches Some(account) ==> {
            let key = (chatgpt_base_url@, account);
            &&& *old(cache) is None ==> step is FetchSettings && *final(cache) is None
            &&& *old(cache) is Some ==> *final(cache) is Some && exists|now: int|
                #[trigger] lookup_outcome(
                    old(cache)->0.spec_entry(),
                    key,
                    now,
                    step_answer(step),
                    final(cache)->0.spec_entry(),
                )
            &&& *old(cache) is Some ==> clock_lookup(old(cache)->0, key, step_answer(step), final(cache)->0)
            &&& step matches PluginsEnabledStep::FetchSettings { path, timeout_secs, cache_key } ==> path@
                == settings_path(account) && timeout_secs == WORKSPACE_SETTINGS_TIMEOUT_SECS
                && cache_key.view_pair() == key
        },
{
    let auth = match auth {
        Some(auth) => auth,
        None => return PluginsEnabledStep::Decided(true),
    };
    if !auth.is_chatgpt_auth {
        return PluginsEnabledStep::Decided(true);
    }
    if !auth.is_workspace_account {
        return PluginsEnabledStep::Decided(true);
    }
    let account_id = match &auth.account_id {
        Some(id) => id,
        None => return PluginsEnabledStep::Decided(true),
    };
    let account_chars = chars_of(account_id.as_str());
    if account_chars.len() == 0 {
        return PluginsEnabledStep::Decided(true);
    }
    let cache_key = WorkspaceSettingsCacheKey {
        chatgpt_base_url: owned(chatgpt_base_url),
        account_id: account_id.clone(),
    };
    match cache {
        Some(c) => {
            if let Some(enabled) = c.get_deepseek_plugins_enabled(&cache_key) {
                return PluginsEnabledStep::Decided(enabled);
            }
        },
        None => {},
    }
    let encoded = encode_path_segment(account_id.as_str());
    let path = join3("/accounts/", encoded.as_str(), "/settings");
    PluginsEnabledStep::FetchSettings { path, timeout_secs: WORKSPACE_SETTINGS_TIMEOUT_SECS, cache_key }
}


/// The value of the first setting named `name` in `settings`.
pub fn find_setting(settings: &Vec<(String, bool)>, name: &str) -> (r: Option<bool>)
    ensures
        r == setting_value(settings@, name@),
{
    let mut i: usize = 0;
    assert(settings@.skip(0) =~= settings@);
    while i < settings.len()
        invariant
            i <= settings@.len(),
            setting_value(settings@, name@) == setting_value(settings@.skip(i as int), name@),
        decreases settings@.len() - i,
    {
        assert(settings@.skip(i as int).drop_first() =~= settings@.skip(i + 1));
        if str_eq(settings[i].0.as_str(), name) {
            return Some(settings[i].1);
        }
        i = i + 1;
    }
    None
}

/// Last step of the check: the fetched beta settings decide, and the answer
/// is recorded in the cache, if there is one.
pub fn finish_plugins_enabled_check(
    beta_settings: &Vec<(String, bool)>,
    cache_key: WorkspaceSettingsCacheKey,
    cache: &mut Option<WorkspaceSettingsCache>,
) -> (enabled: bool)
    requires
        distinct_setting_names(beta_settings@),
    ensures
        enabled == plugins_enabled_by(beta_settings@),
        *old(cache) is None ==> *final(cache) is None,
        *old(cache) is Some ==> *final(cache) is Some && exists|now: int|
            #[trigger] record_outcome(cache_key, enabled, now, final(cache)->0.spec_entry()),
        *old(cache) is Some ==> clock_record(old(cache)->0, cache_key, enabled, final(cache)->0),
{
    let enabled = match find_setting(beta_settings, CODEX_PLUGINS_BETA_SETTING) {
        Some(v) => v,
        None => true,
    };
    match cache {
        Some(c) => c.set_deepseek_plugins_enabled(cache_key, enabled),
        None => {},
    }
    enabled
}

/// An answer that is read back before it expires, for the same account, is
/// the answer that was recorded.
pub proof fn lemma_cache_read_after_write(
    key: WorkspaceSettingsCacheKey,
    enabled: bool,
    written_at: int,
    read_at: int,
)
    requires
        0 <= written_at <= max_duration_nanos(),
        written_at <= read_at < written_at + WORKSPACE_SETTINGS_CACHE_TTL_NANOS,
    ensures
        entry_hit(
            Some(
                CachedWorkspaceSettings {
                    key,
                    expires_at: (written_at + WORKSPACE_SETTINGS_CACHE_TTL_NANOS) as u128,
                    deepseek_plugins_enabled: enabled,
                },
            ),
            key.view_pair(),
            read_at,
        ),
{
}

/// Once the time to live has passed, or for another account, the recorded
/// answer no longer answers.
pub proof fn lemma_cache_miss_after_expiry_or_other_key(
    key: WorkspaceSettingsCacheKey,
    other: WorkspaceSettingsCacheKey,
    enabled: bool,
    written_at: int,
    read_at: int,
)
    requires
        0 <= written_at <= max_duration_nanos(),
        written_at + WORKSPACE_SETTINGS_CACHE_TTL_NANOS <= read_at || key.view_pair()
            != other.view_pair(),
    ensures
        !entry_hit(
            Some(
                CachedWorkspaceSettings {
                    key,
                    expires_at: (written_at + WORKSPACE_SETTINGS_CACHE_TTL_NANOS) as u128,
                    deepseek_plugins_enabled: enabled,
                },
            ),
            other.view_pair(),
            read_at,
        ),
{
}

/// On one cache, a lookup after a recording uses a moment no earlier than
/// the recording's. For the recorded account it answers the recorded value
/// while its moment is less than the time to live after the recording; from
/// the time to live on, and for any other account, it answers nothing and
/// drops the entry.
pub proof fn lemma_clock_lookup_after_record(
    c0: WorkspaceSettingsCache,
    key: WorkspaceSettingsCacheKey,
    enabled: bool,
    c1: WorkspaceSettingsCache,
    lookup_key: (Seq<char>, Seq<char>),
    r: Option<bool>,
    c2: WorkspaceSettingsCache,
)
    requires
        clock_record(c0, key, enabled, c1),
        clock_lookup(c1, lookup_key, r, c2),
    ensures
        c2.spec_last_moment() >= c1.spec_last_moment(),
        c1.spec_last_moment() >= c0.spec_last_moment(),
        c2.spec_last_moment() < c1.spec_last_moment() + WORKSPACE_SETTINGS_CACHE_TTL_NANOS
            && lookup_key == key.view_pair() ==> r == Some(enabled) && c2.spec_entry() == c1.spec_entry(),
        c2.spec_last_moment() >= c1.spec_last_moment() + WORKSPACE_SETTINGS_CACHE_TTL_NANOS ==> r is None
            && c2.spec_entry() is None,
        lookup_key != key.view_pair() ==> r is None && c2.spec_entry() is None,
{
    let m = choose|now: int| #[trigger] clock_record_at(c0, key, enabled, c1, now);
    let n = choose|now: int| #[trigger] clock_lookup_at(c1, lookup_key, r, c2, now);
    assert(clock_record_at(c0, key, enabled, c1, m));
    assert(clock_lookup_at(c1, lookup_key, r, c2, n));
}

/// The moments that lookups and recordings on one cache use never go back.
pub proof fn lemma_clock_moments_never_go_back(
    c0: WorkspaceSettingsCache,
    k1: (Seq<char>, Seq<char>),
    r1: Option<bool>,
    c1: WorkspaceSettingsCache,
    k2: (Seq<char>, Seq<char>),
    r2: Option<bool>,
    c2: WorkspaceSettingsCache,
)
    requires
        clock_lookup(c0, k1, r1, c1),
        clock_lookup(c1, k2, r2, c2),
    ensures
        c0.spec_last_moment() <= c1.spec_last_moment() <= c2.spec_last_moment(),
{
    let m = choose|now: int| #[trigger] clock_lookup_at(c0, k1, r1, c1, now);
    let n = choose|now: int| #[trigger] clock_lookup_at(c1, k2, r2, c2, now);
    assert(clock_lookup_at(c0, k1, r1, c1, m));
    assert(clock_lookup_at(c1, k2, r2, c2, n));
}

} // verus!
