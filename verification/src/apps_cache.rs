//! Shared raw tool cache for the host-owned DeepSeek Apps MCP server.
//!
//! Entries are scoped by the DeepSeek home and the login's cache key. Each
//! entry hands out fetch tickets with increasing generations and only
//! publishes the results of the newest accepted fetch.

use vstd::prelude::*;
use crate::text::{path_join, path_join_spec, str_eq};
use crate::path_components::{path_components, same_path};
use crate::digest::{sha1_hex, sha1_digest};
use crate::text::{hex_lower, is_hex_lower_digit};
use crate::workspace_settings::AuthFacts;
use vstd::string::*;

verus! {

/// Directory, under the DeepSeek home, of the persisted tool lists.
pub const CODEX_APPS_TOOLS_CACHE_DIR: &'static str = "cache/codex_apps_tools";
/// Schema version of a persisted tool list.
pub const CODEX_APPS_TOOLS_CACHE_SCHEMA_VERSION: u8 = 4;
/// Directory, under the DeepSeek home, of the persisted server info.
pub const CODEX_APPS_SERVER_INFO_CACHE_DIR: &'static str = "cache/codex_apps_server_info";
/// Schema version of a persisted server info.
pub const CODEX_APPS_SERVER_INFO_CACHE_SCHEMA_VERSION: u8 = 1;

/// The login facts that identify a DeepSeek Apps catalog.
pub struct DeepSeekAppsToolsCacheKey {
    pub account_id: Option<String>,
    pub chatgpt_user_id: Option<String>,
    pub is_workspace_account: bool,
}

/// An optional string by its characters.
pub open spec fn opt_view(s: Option<String>) -> Option<Seq<char>> {
    match s {
        Some(v) => Some(v@),
        None => None,
    }
}

impl DeepSeekAppsToolsCacheKey {
    pub open spec fn view_triple(&self) -> (Option<Seq<char>>, Option<Seq<char>>, bool) {
        (opt_view(self.account_id), opt_view(self.chatgpt_user_id), self.is_workspace_account)
    }
}

fn clone_opt(s: &Option<String>) -> (r: Option<String>)
    ensures
        opt_view(r) == opt_view(*s),
{
    match s {
        Some(v) => Some(v.clone()),
        None => None,
    }
}

fn opt_eq(a: &Option<String>, b: &Option<String>) -> (r: bool)
    ensures
        r == (opt_view(*a) == opt_view(*b)),
{
    match (a, b) {
        (Some(x), Some(y)) => str_eq(x.as_str(), y.as_str()),
        (None, None) => true,
        _ => false,
    }
}

/// Builds the cache key of a login: its account id, user id and whether it
/// is a workspace account; without a login, none of them.
pub fn codex_apps_tools_cache_key(auth: Option<&AuthFacts>) -> (key: DeepSeekAppsToolsCacheKey)
    ensures
        match auth {
            Some(a) => key.view_triple() == (
                opt_view(a.account_id),
                opt_view(a.chatgpt_user_id),
                a.is_workspace_account,
            ),
            None => key.view_triple() == (None::<Seq<char>>, None::<Seq<char>>, false),
        },
{
    match auth {
        Some(a) => DeepSeekAppsToolsCacheKey {
            account_id: clone_opt(&a.account_id),
            chatgpt_user_id: clone_opt(&a.chatgpt_user_id),
            is_workspace_account: a.is_workspace_account,
        },
        None => DeepSeekAppsToolsCacheKey {
            account_id: None,
            chatgpt_user_id: None,
            is_workspace_account: false,
        },
    }
}

/// Everything that decides whether two clients can share tools: the home
/// that holds the persisted cache and the login's key.
pub struct DeepSeekAppsToolsCacheIdentity {
    pub deepseek_home: String,
    pub auth_key: DeepSeekAppsToolsCacheKey,
}

impl DeepSeekAppsToolsCacheIdentity {
    /// The home by its path components (as `Path` compares homes) and the
    /// login's key.
    pub open spec fn view_id(&self) -> (Seq<Seq<char>>, (Option<Seq<char>>, Option<Seq<char>>, bool)) {
        (path_components(self.deepseek_home@), self.auth_key.view_triple())
    }

    /// Whether two identities are the same: homes with the same path
    /// components and equal login keys.
    pub fn same(&self, other: &DeepSeekAppsToolsCacheIdentity) -> (r: bool)
        ensures
            r == (self.view_id() == other.view_id()),
    {
        same_path(self.deepseek_home.as_str(), other.deepseek_home.as_str()) && opt_eq(
            &self.auth_key.account_id,
            &other.auth_key.account_id,
        ) && opt_eq(&self.auth_key.chatgpt_user_id, &other.auth_key.chatgpt_user_id)
            && self.auth_key.is_workspace_account == other.auth_key.is_workspace_account
    }

    /// The file `{home}/{cache_dir}/{sha1 of identity_json}.json`, where
    /// `identity_json` is the JSON text of the auth key (the home is kept
    /// out of the hash).
    pub fn cache_path_in(&self, cache_dir: &str, identity_json: &str) -> (r: String)
        ensures
            r@ == cache_path_spec(self.deepseek_home@, cache_dir@, identity_json.spec_bytes()),
            cache_file_name(identity_json.spec_bytes()).len() == 45,
            forall|i: int|
                0 <= i < 40 ==> is_hex_lower_digit(#[trigger] cache_file_name(identity_json.spec_bytes())[i]),
            cache_file_name(identity_json.spec_bytes()).subrange(40, 45) == ".json"@,
    {
        let identity_hash = sha1_hex(identity_json);
        proof {
            reveal_strlit(".json");
            assert(cache_file_name(identity_json.spec_bytes()).subrange(40, 45) =~= ".json"@);
        }
        let mut file_name = identity_hash;
        file_name.append(".json");
        let dir = path_join(self.deepseek_home.as_str(), cache_dir);
        path_join(dir.as_str(), file_name.as_str())
    }
}

/// The name of a cache file: the SHA-1 of the identity JSON in lowercase
/// hexadecimal, then `.json`. The home plays no part in it.
pub open spec fn cache_file_name(identity_json: Seq<u8>) -> Seq<char> {
    hex_lower(sha1_digest(identity_json)) + ".json"@
}

/// Where a cache file of the given identity JSON lives.
pub open spec fn cache_path_spec(home: Seq<char>, cache_dir: Seq<char>, identity_json: Seq<u8>) -> Seq<char> {
    path_join_spec(path_join_spec(home, cache_dir), cache_file_name(identity_json))
}

/// What triggered a fetch of the tool list.
#[derive(Clone, Copy)]
pub enum DeepSeekAppsToolsFetchSource {
    Startup,
    HardRefresh,
}

impl DeepSeekAppsToolsFetchSource {
    /// The metric tag of the source.
    pub fn as_str(self) -> (r: &'static str)
        ensures
            r@ == match self {
                DeepSeekAppsToolsFetchSource::Startup => "startup"@,
                DeepSeekAppsToolsFetchSource::HardRefresh => "hard_refresh"@,
            },
    {
        match self {
            DeepSeekAppsToolsFetchSource::Startup => "startup",
            DeepSeekAppsToolsFetchSource::HardRefresh => "hard_refresh",
        }
    }
}

/// A fetch that was begun on an entry, with its generation. Only
/// `begin_fetch` makes one.
pub struct DeepSeekAppsToolsFetchTicket {
    generation: u64,
    source: DeepSeekAppsToolsFetchSource,
}

impl DeepSeekAppsToolsFetchTicket {
    /// The generation of the fetch.
    pub closed spec fn spec_generation(&self) -> u64 {
        self.generation
    }

    /// What triggered the fetch.
    pub closed spec fn spec_source(&self) -> DeepSeekAppsToolsFetchSource {
        self.source
    }

    /// The generation of the fetch.
    pub fn generation(&self) -> (r: u64)
        ensures
            r == self.spec_generation(),
    {
        self.generation
    }

    /// What triggered the fetch.
    pub fn source(&self) -> (r: DeepSeekAppsToolsFetchSource)
        ensures
            r == self.spec_source(),
    {
        self.source
    }
}

/// One shared cache entry: the current tools and the fetch generations.
pub struct DeepSeekAppsToolsCacheEntry<T> {
    identity: DeepSeekAppsToolsCacheIdentity,
    current_tools: Option<Vec<T>>,
    next_fetch_generation: u64,
    last_accepted_generation: u64,
}

impl<T> DeepSeekAppsToolsCacheEntry<T> {
    /// The identity the entry serves.
    pub closed spec fn spec_identity(&self) -> DeepSeekAppsToolsCacheIdentity {
        self.identity
    }

    /// The tools last published or seeded, if any.
    pub closed spec fn spec_current_tools(&self) -> Option<Vec<T>> {
        self.current_tools
    }

    /// The generation of the last fetch begun.
    pub closed spec fn spec_next_generation(&self) -> u64 {
        self.next_fetch_generation
    }

    /// The generation of the last fetch whose tools were published.
    pub closed spec fn spec_last_accepted(&self) -> u64 {
        self.last_accepted_generation
    }

    /// What every entry keeps while only tickets it issued are published on
    /// it: no accepted generation is ahead of the fetch counter, and once a
    /// fetch was accepted the entry holds tools.
    pub open spec fn well_formed(&self) -> bool {
        &&& self.spec_last_accepted() <= self.spec_next_generation()
        &&& self.spec_last_accepted() > 0 ==> self.spec_current_tools() is Some
    }

    /// The identity the entry serves.
    pub fn identity(&self) -> (r: &DeepSeekAppsToolsCacheIdentity)
        ensures
            *r == self.spec_identity(),
    {
        &self.identity
    }

    /// The generation of the last fetch begun.
    pub fn next_fetch_generation(&self) -> (r: u64)
        ensures
            r == self.spec_next_generation(),
    {
        self.next_fetch_generation
    }

    /// The generation of the last fetch whose tools were published.
    pub fn last_accepted_generation(&self) -> (r: u64)
        ensures
            r == self.spec_last_accepted(),
    {
        self.last_accepted_generation
    }
}

/// `copy` is a clone of `orig`, element by element.
pub open spec fn cloned_vec<T: Clone>(orig: Vec<T>, copy: Vec<T>) -> bool {
    copy.len() == orig.len() && forall|i: int| 0 <= i < orig.len() ==> cloned::<T>(orig[i], copy[i])
}

/// What a publish hands back: the tools to use, and whether the new tools
/// were accepted (and so should be persisted).
pub struct PublishedTools<T> {
    pub tools: Vec<T>,
    pub published: bool,
}

/// `e` is a new entry for `identity`, seeded with `seeded_tools`.
pub open spec fn fresh_entry<T>(
    e: DeepSeekAppsToolsCacheEntry<T>,
    identity: DeepSeekAppsToolsCacheIdentity,
    seeded_tools: Option<Vec<T>>,
) -> bool {
    &&& e.spec_identity() == identity
    &&& e.spec_current_tools() == seeded_tools
    &&& e.spec_next_generation() == 0
    &&& e.spec_last_accepted() == 0
}

/// What beginning a fetch on `before` leaves behind and hands out.
pub open spec fn begin_outcome<T>(
    before: DeepSeekAppsToolsCacheEntry<T>,
    source: DeepSeekAppsToolsFetchSource,
    after: DeepSeekAppsToolsCacheEntry<T>,
    ticket: DeepSeekAppsToolsFetchTicket,
) -> bool {
    &&& ticket.spec_generation() == before.spec_next_generation() + 1
    &&& ticket.spec_source() == source
    &&& after.spec_next_generation() == ticket.spec_generation()
    &&& after.spec_last_accepted() == before.spec_last_accepted()
    &&& after.spec_current_tools() == before.spec_current_tools()
    &&& after.spec_identity() == before.spec_identity()
}

/// A ticket is accepted when it is newer than the last accepted one.
pub open spec fn accepts<T>(entry: DeepSeekAppsToolsCacheEntry<T>, ticket: DeepSeekAppsToolsFetchTicket) -> bool {
    ticket.spec_generation() > entry.spec_last_accepted()
}

/// What publishing `tools` under `ticket` on `before` leaves behind and
/// hands back.
pub open spec fn publish_outcome<T: Clone>(
    before: DeepSeekAppsToolsCacheEntry<T>,
    ticket: DeepSeekAppsToolsFetchTicket,
    tools: Vec<T>,
    after: DeepSeekAppsToolsCacheEntry<T>,
    r: PublishedTools<T>,
) -> bool {
    &&& !accepts(before, ticket) ==> {
        &&& after == before
        &&& !r.published
        &&& match before.spec_current_tools() {
            Some(current) => cloned_vec(current, r.tools),
            None => r.tools == tools,
        }
    }
    &&& accepts(before, ticket) ==> {
        &&& r.published
        &&& r.tools == tools
        &&& after.spec_last_accepted() == ticket.spec_generation()
        &&& after.spec_current_tools() is Some
        &&& cloned_vec(tools, after.spec_current_tools()->0)
        &&& after.spec_next_generation() == before.spec_next_generation()
        &&& after.spec_identity() == before.spec_identity()
    }
}

impl<T: Clone> DeepSeekAppsToolsCacheEntry<T> {
    /// A new entry, seeded with the tools read from disk, if any.
    pub fn new(identity: DeepSeekAppsToolsCacheIdentity, seeded_tools: Option<Vec<T>>) -> (r: Self)
        ensures
            fresh_entry(r, identity, seeded_tools),
            r.well_formed(),
    {
        DeepSeekAppsToolsCacheEntry {
            identity,
            current_tools: seeded_tools,
            next_fetch_generation: 0,
            last_accepted_generation: 0,
        }
    }

    /// A clone of the current tools, if any.
    pub fn current_tools(&self) -> (r: Option<Vec<T>>)
        ensures
            r is Some <==> self.spec_current_tools() is Some,
            r is Some ==> cloned_vec(self.spec_current_tools()->0, r->0),
    {
        match &self.current_tools {
            Some(tools) => Some(tools.clone()),
            None => None,
        }
    }

    /// Whether the entry holds tools.
    pub fn has_current_tools(&self) -> (r: bool)
        ensures
            r == self.spec_current_tools() is Some,
    {
        self.current_tools.is_some()
    }

    /// Begins a fetch: the ticket gets the next generation.
    pub fn begin_fetch(&mut self, source: DeepSeekAppsToolsFetchSource) -> (ticket: DeepSeekAppsToolsFetchTicket)
        requires
            old(self).spec_next_generation() < u64::MAX,
        ensures
            begin_outcome(*old(self), source, *final(self), ticket),
            old(self).well_formed() ==> final(self).well_formed(),
    {
        self.next_fetch_generation = self.next_fetch_generation + 1;
        DeepSeekAppsToolsFetchTicket { generation: self.next_fetch_generation, source }
    }

    /// Publishes the tools of a finished fetch if no newer fetch has been
    /// accepted: a stale ticket leaves the entry as it is and gets the
    /// current tools (or its own, when there are none); an accepted ticket
    /// becomes the last accepted generation and its tools the current ones.
    /// A ticket the entry issued keeps it well formed.
    pub fn publish_if_newest_accepted(&mut self, ticket: DeepSeekAppsToolsFetchTicket, tools: Vec<T>) -> (r: PublishedTools<T>)
        ensures
            publish_outcome(*old(self), ticket, tools, *final(self), r),
            old(self).well_formed() && ticket.spec_generation() <= old(self).spec_next_generation()
                ==> final(self).well_formed(),
    {
        if ticket.generation <= self.last_accepted_generation {
            let current = self.current_tools();
            let tools = match current {
                Some(c) => c,
                None => tools,
            };
            return PublishedTools { tools, published: false };
        }
        self.last_accepted_generation = ticket.generation;
        self.current_tools = Some(tools.clone());
        PublishedTools { tools, published: true }
    }
}

/// Tickets begun one after another on an entry have increasing generations.
pub proof fn lemma_ticket_generations_increase<T>(
    e0: DeepSeekAppsToolsCacheEntry<T>,
    s1: DeepSeekAppsToolsFetchSource,
    e1: DeepSeekAppsToolsCacheEntry<T>,
    t1: DeepSeekAppsToolsFetchTicket,
    s2: DeepSeekAppsToolsFetchSource,
    e2: DeepSeekAppsToolsCacheEntry<T>,
    t2: DeepSeekAppsToolsFetchTicket,
)
    requires
        begin_outcome(e0, s1, e1, t1),
        begin_outcome(e1, s2, e2, t2),
    ensures
        t1.spec_generation() < t2.spec_generation(),
{
}

proof fn lemma_counter_after_fetches<T>(
    entries: Seq<DeepSeekAppsToolsCacheEntry<T>>,
    sources: Seq<DeepSeekAppsToolsFetchSource>,
    tickets: Seq<DeepSeekAppsToolsFetchTicket>,
    n: int,
)
    requires
        entries.len() == tickets.len() + 1,
        sources.len() == tickets.len(),
        entries[0].spec_next_generation() == 0,
        forall|i: int|
            0 <= i < tickets.len() ==> #[trigger] begin_outcome(entries[i], sources[i], entries[i + 1], tickets[i]),
        0 <= n <= tickets.len(),
    ensures
        entries[n].spec_next_generation() == n,
    decreases n,
{
    if n > 0 {
        lemma_counter_after_fetches(entries, sources, tickets, n - 1);
        assert(begin_outcome(entries[n - 1], sources[n - 1], entries[n - 1 + 1], tickets[n - 1]));
    }
}

/// On a new entry, `k` fetches begun one after another get the generations
/// 1, 2, ..., k in call order, each with the source it was begun with.
pub proof fn lemma_fetch_generations_count_up<T>(
    entries: Seq<DeepSeekAppsToolsCacheEntry<T>>,
    sources: Seq<DeepSeekAppsToolsFetchSource>,
    tickets: Seq<DeepSeekAppsToolsFetchTicket>,
)
    requires
        entries.len() == tickets.len() + 1,
        sources.len() == tickets.len(),
        entries[0].spec_next_generation() == 0,
        forall|i: int|
            0 <= i < tickets.len() ==> #[trigger] begin_outcome(entries[i], sources[i], entries[i + 1], tickets[i]),
    ensures
        forall|i: int| 0 <= i < tickets.len() ==> (#[trigger] tickets[i]).spec_generation() == i + 1,
        forall|i: int| 0 <= i < tickets.len() ==> (#[trigger] tickets[i]).spec_source() == sources[i],
{
    assert forall|i: int| 0 <= i < tickets.len() implies (#[trigger] tickets[i]).spec_generation() == i + 1
        && tickets[i].spec_source() == sources[i] by {
        lemma_counter_after_fetches(entries, sources, tickets, i);
        assert(begin_outcome(entries[i], sources[i], entries[i + 1], tickets[i]));
    }
}

/// Whether a publish is accepted depends only on the ticket's generation and
/// the last accepted one: a ticket newer than the last accepted fetch is
/// always published (its tools become current and its generation the last
/// accepted), whatever fetches were begun after it; any other ticket is
/// refused and changes nothing.
pub proof fn lemma_publish_accepts_exactly_newer_tickets<T: Clone>(
    e0: DeepSeekAppsToolsCacheEntry<T>,
    t: DeepSeekAppsToolsFetchTicket,
    tools: Vec<T>,
    e1: DeepSeekAppsToolsCacheEntry<T>,
    r: PublishedTools<T>,
)
    requires
        publish_outcome(e0, t, tools, e1, r),
    ensures
        t.spec_generation() > e0.spec_last_accepted() ==> {
            &&& r.published
            &&& r.tools == tools
            &&& e1.spec_last_accepted() == t.spec_generation()
            &&& e1.spec_current_tools() is Some
            &&& cloned_vec(tools, e1.spec_current_tools()->0)
            &&& e1.spec_next_generation() == e0.spec_next_generation()
        },
        t.spec_generation() <= e0.spec_last_accepted() ==> !r.published && e1 == e0,
{
}

/// On a new entry, two fetches are begun and the first one finishes first:
/// its tools are published with generation 1, and the second one can still
/// be published after it.
pub proof fn lemma_first_fetch_finishing_first_is_published<T: Clone>(
    e0: DeepSeekAppsToolsCacheEntry<T>,
    s1: DeepSeekAppsToolsFetchSource,
    e1: DeepSeekAppsToolsCacheEntry<T>,
    t1: DeepSeekAppsToolsFetchTicket,
    s2: DeepSeekAppsToolsFetchSource,
    e2: DeepSeekAppsToolsCacheEntry<T>,
    t2: DeepSeekAppsToolsFetchTicket,
    first_tools: Vec<T>,
    e3: DeepSeekAppsToolsCacheEntry<T>,
    r3: PublishedTools<T>,
    second_tools: Vec<T>,
    e4: DeepSeekAppsToolsCacheEntry<T>,
    r4: PublishedTools<T>,
)
    requires
        e0.spec_next_generation() == 0,
        e0.spec_last_accepted() == 0,
        begin_outcome(e0, s1, e1, t1),
        begin_outcome(e1, s2, e2, t2),
        publish_outcome(e2, t1, first_tools, e3, r3),
        publish_outcome(e3, t2, second_tools, e4, r4),
    ensures
        r3.published,
        r3.tools == first_tools,
        e3.spec_last_accepted() == 1,
        cloned_vec(first_tools, e3.spec_current_tools()->0),
        r4.published,
        e4.spec_last_accepted() == 2,
        cloned_vec(second_tools, e4.spec_current_tools()->0),
{
    lemma_publish_accepts_exactly_newer_tickets(e2, t1, first_tools, e3, r3);
    lemma_publish_accepts_exactly_newer_tickets(e3, t2, second_tools, e4, r4);
}

/// Once a ticket's tools are published, the results of that fetch and of
/// every fetch begun before it are refused and change nothing.
pub proof fn lemma_older_results_are_refused<T: Clone>(
    e0: DeepSeekAppsToolsCacheEntry<T>,
    t: DeepSeekAppsToolsFetchTicket,
    tools: Vec<T>,
    e1: DeepSeekAppsToolsCacheEntry<T>,
    r1: PublishedTools<T>,
    older: DeepSeekAppsToolsFetchTicket,
    older_tools: Vec<T>,
    e2: DeepSeekAppsToolsCacheEntry<T>,
    r2: PublishedTools<T>,
)
    requires
        publish_outcome(e0, t, tools, e1, r1),
        r1.published,
        older.spec_generation() <= t.spec_generation(),
        publish_outcome(e1, older, older_tools, e2, r2),
    ensures
        !r2.published,
        e2 == e1,
{
}

/// Two fetches begun one after the other on a well-formed entry: when the
/// newer one's tools are published first, it is accepted, and the older
/// one's tools, arriving later, are refused, change nothing and get a clone
/// of the newer tools back.
pub proof fn lemma_older_fetch_never_replaces_newer<T: Clone>(
    e0: DeepSeekAppsToolsCacheEntry<T>,
    s1: DeepSeekAppsToolsFetchSource,
    e1: DeepSeekAppsToolsCacheEntry<T>,
    t1: DeepSeekAppsToolsFetchTicket,
    s2: DeepSeekAppsToolsFetchSource,
    e2: DeepSeekAppsToolsCacheEntry<T>,
    t2: DeepSeekAppsToolsFetchTicket,
    newer_tools: Vec<T>,
    e3: DeepSeekAppsToolsCacheEntry<T>,
    r3: PublishedTools<T>,
    older_tools: Vec<T>,
    e4: DeepSeekAppsToolsCacheEntry<T>,
    r4: PublishedTools<T>,
)
    requires
        e0.well_formed(),
        begin_outcome(e0, s1, e1, t1),
        begin_outcome(e1, s2, e2, t2),
        publish_outcome(e2, t2, newer_tools, e3, r3),
        publish_outcome(e3, t1, older_tools, e4, r4),
    ensures
        r3.published,
        r3.tools == newer_tools,
        e3.spec_current_tools() is Some,
        cloned_vec(newer_tools, e3.spec_current_tools()->0),
        !r4.published,
        e4 == e3,
        cloned_vec(e3.spec_current_tools()->0, r4.tools),
{
}

/// Neither beginning a fetch nor publishing ever lowers the last accepted
/// generation.
pub proof fn lemma_last_accepted_never_decreases<T: Clone>(
    e0: DeepSeekAppsToolsCacheEntry<T>,
    source: DeepSeekAppsToolsFetchSource,
    e1: DeepSeekAppsToolsCacheEntry<T>,
    t1: DeepSeekAppsToolsFetchTicket,
    t2: DeepSeekAppsToolsFetchTicket,
    tools: Vec<T>,
    e2: DeepSeekAppsToolsCacheEntry<T>,
    r: PublishedTools<T>,
)
    requires
        begin_outcome(e0, source, e1, t1),
        publish_outcome(e1, t2, tools, e2, r),
    ensures
        e0.spec_last_accepted() <= e1.spec_last_accepted(),
        e1.spec_last_accepted() <= e2.spec_last_accepted(),
{
}

/// On a well-formed entry (as every new entry is), the newest fetch is
/// published when its results arrive before any other, and the entry stays
/// well formed.
pub proof fn lemma_newest_fetch_is_published<T: Clone>(
    e0: DeepSeekAppsToolsCacheEntry<T>,
    source: DeepSeekAppsToolsFetchSource,
    e1: DeepSeekAppsToolsCacheEntry<T>,
    t: DeepSeekAppsToolsFetchTicket,
    tools: Vec<T>,
    e2: DeepSeekAppsToolsCacheEntry<T>,
    r: PublishedTools<T>,
)
    requires
        e0.well_formed(),
        begin_outcome(e0, source, e1, t),
        publish_outcome(e1, t, tools, e2, r),
    ensures
        r.published,
        r.tools == tools,
        e2.spec_last_accepted() == t.spec_generation(),
        e2.well_formed(),
{
}

/// Whether the registry holds an entry for the identity.
pub open spec fn has_identity<T>(
    cache: DeepSeekAppsToolsCache<T>,
    id: (Seq<Seq<char>>, (Option<Seq<char>>, Option<Seq<char>>, bool)),
) -> bool {
    exists|i: int|
        0 <= i < cache.spec_entries().len() && #[trigger] cache.spec_entries()[i].spec_identity().view_id() == id
}

/// What asking the registry for the entry of `identity` leaves behind and
/// hands back: the existing entry, with nothing changed, or a new one at the
/// end, seeded with `seeded_tools`.
pub open spec fn context_outcome<T>(
    before: DeepSeekAppsToolsCache<T>,
    identity: DeepSeekAppsToolsCacheIdentity,
    seeded_tools: Option<Vec<T>>,
    after: DeepSeekAppsToolsCache<T>,
    idx: usize,
) -> bool {
    &&& idx < after.spec_entries().len()
    &&& after.spec_entries()[idx as int].spec_identity().view_id() == identity.view_id()
    &&& has_identity(before, identity.view_id()) ==> after.spec_entries() == before.spec_entries()
    &&& !has_identity(before, identity.view_id()) ==> {
        &&& idx == before.spec_entries().len()
        &&& after.spec_entries() == before.spec_entries().push(after.spec_entries().last())
        &&& fresh_entry(after.spec_entries().last(), identity, seeded_tools)
    }
}

/// No two entries share an identity.
pub open spec fn distinct_identities<T>(entries: Seq<DeepSeekAppsToolsCacheEntry<T>>) -> bool {
    forall|i: int, j: int|
        0 <= i < j < entries.len() ==> entries[i].spec_identity().view_id()
            != entries[j].spec_identity().view_id()
}

/// Process-scoped registry of shared entries, one per identity.
pub struct DeepSeekAppsToolsCache<T> {
    entries: Vec<DeepSeekAppsToolsCacheEntry<T>>,
}

impl<T> DeepSeekAppsToolsCache<T> {
    /// The entries, in the order they were made.
    pub closed spec fn spec_entries(&self) -> Seq<DeepSeekAppsToolsCacheEntry<T>> {
        self.entries@
    }

    /// No two entries share an identity.
    pub open spec fn well_formed(&self) -> bool {
        distinct_identities(self.spec_entries())
    }

    #[verifier::type_invariant]
    spec fn entries_are_distinct(&self) -> bool {
        distinct_identities(self.entries@)
    }
}

impl<T: Clone> DeepSeekAppsToolsCache<T> {
    /// An empty registry.
    pub fn new() -> (r: Self)
        ensures
            r.spec_entries().len() == 0,
            r.well_formed(),
    {
        DeepSeekAppsToolsCache { entries: Vec::new() }
    }

    /// The number of entries.
    pub fn len(&self) -> (r: usize)
        ensures
            r == self.spec_entries().len(),
    {
        self.entries.len()
    }

    /// The entry at `idx`.
    pub fn entry(&self, idx: usize) -> (r: &DeepSeekAppsToolsCacheEntry<T>)
        requires
            idx < self.spec_entries().len(),
        ensures
            *r == self.spec_entries()[idx as int],
    {
        &self.entries[idx]
    }

    /// The index of the entry for `identity`, if there is one.
    pub fn find_entry(&self, identity: &DeepSeekAppsToolsCacheIdentity) -> (r: Option<usize>)
        ensures
            r matches Some(i) ==> i < self.spec_entries().len()
                && self.spec_entries()[i as int].spec_identity().view_id() == identity.view_id(),
            r is None ==> forall|i: int|
                0 <= i < self.spec_entries().len() ==> self.spec_entries()[i].spec_identity().view_id()
                    != identity.view_id(),
    {
        let mut i: usize = 0;
        while i < self.entries.len()
            invariant
                i <= self.entries.len(),
                forall|k: int|
                    0 <= k < i ==> self.entries@[k].spec_identity().view_id() != identity.view_id(),
            decreases self.entries.len() - i,
        {
            if self.entries[i].identity().same(identity) {
                return Some(i);
            }
            i = i + 1;
        }
        None
    }

    /// The entry for `identity`: the existing one, so that clients with the
    /// same identity share it, or a new one seeded with `seeded_tools`.
    pub fn context(&mut self, identity: DeepSeekAppsToolsCacheIdentity, seeded_tools: Option<Vec<T>>) -> (idx: usize)
        ensures
            final(self).well_formed(),
            context_outcome(*old(self), identity, seeded_tools, *final(self), idx),
    {
        proof {
            use_type_invariant(&*self);
        }
        match self.find_entry(&identity) {
            Some(i) => i,
            None => {
                let idx = self.entries.len();
                let mut entries: Vec<DeepSeekAppsToolsCacheEntry<T>> = Vec::new();
                std::mem::swap(&mut entries, &mut self.entries);
                let ghost before = entries@;
                entries.push(DeepSeekAppsToolsCacheEntry::new(identity, seeded_tools));
                assert(entries@.drop_last() =~= before);
                self.entries = entries;
                idx
            },
        }
    }

    /// Begins a fetch on the entry at `idx` (see the entry's `begin_fetch`).
    pub fn begin_fetch(&mut self, idx: usize, source: DeepSeekAppsToolsFetchSource) -> (ticket: DeepSeekAppsToolsFetchTicket)
        requires
            idx < old(self).spec_entries().len(),
            old(self).spec_entries()[idx as int].spec_next_generation() < u64::MAX,
        ensures
            final(self).spec_entries() == old(self).spec_entries().update(
                idx as int,
                final(self).spec_entries()[idx as int],
            ),
            begin_outcome(old(self).spec_entries()[idx as int], source, final(self).spec_entries()[idx as int], ticket),
    {
        proof {
            use_type_invariant(&*self);
        }
        let mut entries: Vec<DeepSeekAppsToolsCacheEntry<T>> = Vec::new();
        std::mem::swap(&mut entries, &mut self.entries);
        let ghost before = entries@;
        let mut entry = entries.remove(idx);
        let ticket = entry.begin_fetch(source);
        entries.insert(idx, entry);
        assert(entries@ =~= before.update(idx as int, entries@[idx as int]));
        assert(distinct_identities(entries@)) by {
            assert forall|i: int, j: int| 0 <= i < j < entries@.len() implies entries@[i].spec_identity().view_id()
                != entries@[j].spec_identity().view_id() by {
                assert(before[i].spec_identity().view_id() != before[j].spec_identity().view_id());
            }
        }
        self.entries = entries;
        ticket
    }

    /// Publishes tools on the entry at `idx` (see the entry's
    /// `publish_if_newest_accepted`).
    pub fn publish_if_newest_accepted(
        &mut self,
        idx: usize,
        ticket: DeepSeekAppsToolsFetchTicket,
        tools: Vec<T>,
    ) -> (r: PublishedTools<T>)
        requires
            idx < old(self).spec_entries().len(),
        ensures
            final(self).spec_entries() == old(self).spec_entries().update(
                idx as int,
                final(self).spec_entries()[idx as int],
            ),
            publish_outcome(old(self).spec_entries()[idx as int], ticket, tools, final(self).spec_entries()[idx as int], r),
    {
        proof {
            use_type_invariant(&*self);
        }
        let mut entries: Vec<DeepSeekAppsToolsCacheEntry<T>> = Vec::new();
        std::mem::swap(&mut entries, &mut self.entries);
        let ghost before = entries@;
        let mut entry = entries.remove(idx);
        let r = entry.publish_if_newest_accepted(ticket, tools);
        entries.insert(idx, entry);
        assert(entries@ =~= before.update(idx as int, entries@[idx as int]));
        assert(distinct_identities(entries@)) by {
            assert forall|i: int, j: int| 0 <= i < j < entries@.len() implies entries@[i].spec_identity().view_id()
                != entries@[j].spec_identity().view_id() by {
                assert(before[i].spec_identity().view_id() != before[j].spec_identity().view_id());
            }
        }
        self.entries = entries;
        r
    }
}

/// A persisted tool list is used only when written with the current schema.
pub fn accept_cached_tools<T>(schema_version: u8, tools: Vec<T>) -> (r: Option<Vec<T>>)
    ensures
        r == if schema_version == CODEX_APPS_TOOLS_CACHE_SCHEMA_VERSION {
            Some(tools)
        } else {
            None
        },
{
    if schema_version == CODEX_APPS_TOOLS_CACHE_SCHEMA_VERSION {
        Some(tools)
    } else {
        None
    }
}

/// A persisted server info is used only when written with the current schema.
pub fn accept_cached_server_info<S>(schema_version: u8, server_info: S) -> (r: Option<S>)
    ensures
        r == if schema_version == CODEX_APPS_SERVER_INFO_CACHE_SCHEMA_VERSION {
            Some(server_info)
        } else {
            None
        },
{
    if schema_version == CODEX_APPS_SERVER_INFO_CACHE_SCHEMA_VERSION {
        Some(server_info)
    } else {
        None
    }
}

/// The status tag of a cache write: `success` when both files were
/// written, else `failure`.
pub fn cache_write_status(tools_written: bool, server_info_written: bool) -> (r: &'static str)
    ensures
        r@ == if tools_written && server_info_written {
            "success"@
        } else {
            "failure"@
        },
{
    if tools_written && server_info_written {
        "success"
    } else {
        "failure"
    }
}

/// Clients that ask for the same identity share one entry: the second
/// request finds the entry the first one made, and changes nothing.
pub proof fn lemma_same_identity_shares_entry<T: Clone>(
    c0: DeepSeekAppsToolsCache<T>,
    id1: DeepSeekAppsToolsCacheIdentity,
    seed1: Option<Vec<T>>,
    c1: DeepSeekAppsToolsCache<T>,
    i1: usize,
    id2: DeepSeekAppsToolsCacheIdentity,
    seed2: Option<Vec<T>>,
    c2: DeepSeekAppsToolsCache<T>,
    i2: usize,
)
    requires
        c1.well_formed(),
        context_outcome(c0, id1, seed1, c1, i1),
        id2.view_id() == id1.view_id(),
        context_outcome(c1, id2, seed2, c2, i2),
    ensures
        i2 == i1,
        c2.spec_entries() == c1.spec_entries(),
{
    assert(c1.spec_entries()[i1 as int].spec_identity().view_id() == id2.view_id());
    assert(has_identity(c1, id2.view_id()));
    if i1 != i2 {
        if i1 < i2 {
            assert(c1.spec_entries()[i1 as int].spec_identity().view_id() != c1.spec_entries()[i2 as int].spec_identity().view_id());
        } else {
            assert(c1.spec_entries()[i2 as int].spec_identity().view_id() != c1.spec_entries()[i1 as int].spec_identity().view_id());
        }
    }
}

/// Clients that ask for different identities (different home components or
/// login keys) get different entries, so their tools and generations stay
/// apart.
pub proof fn lemma_different_identities_get_different_entries<T: Clone>(
    c0: DeepSeekAppsToolsCache<T>,
    id1: DeepSeekAppsToolsCacheIdentity,
    seed1: Option<Vec<T>>,
    c1: DeepSeekAppsToolsCache<T>,
    i1: usize,
    id2: DeepSeekAppsToolsCacheIdentity,
    seed2: Option<Vec<T>>,
    c2: DeepSeekAppsToolsCache<T>,
    i2: usize,
)
    requires
        context_outcome(c0, id1, seed1, c1, i1),
        id2.view_id() != id1.view_id(),
        context_outcome(c1, id2, seed2, c2, i2),
    ensures
        i2 != i1,
        c2.spec_entries()[i1 as int] == c1.spec_entries()[i1 as int],
{
    if !has_identity(c1, id2.view_id()) {
        assert(c2.spec_entries()[i1 as int] == c1.spec_entries()[i1 as int]);
    }
}

} // verus!
