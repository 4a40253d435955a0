use vstd::prelude::*;

verus! {

/// The counters last reported by the bot; every page renders them.
#[derive(Clone, Copy, Debug, PartialEq, Eq, Structural)]
pub struct TemplateContext {
    pub message_count: u64,
    pub guild_count: u32,
    pub user_count: u64,
}

impl TemplateContext {
    /// All counters at zero: the value before any update arrives.
    pub fn zero() -> (r: TemplateContext)
        ensures
            r.message_count == 0,
            r.guild_count == 0,
            r.user_count == 0,
    {
        TemplateContext { message_count: 0, guild_count: 0, user_count: 0 }
    }
}

/// HTTP status of an accepted statistics update (No Content).
pub const STATUS_NO_CONTENT: u16 = 204;

/// HTTP status of a rejected statistics update (Unauthorized).
pub const STATUS_UNAUTHORIZED: u16 = 401;

/// An update is authorized when the presented credential is present and
/// equals the configured key, character for character.
pub open spec fn authorized(auth: Option<Seq<char>>, key: Seq<char>) -> bool {
    auth == Some(key)
}

/// The counters held after an update attempt: the new value when the
/// attempt is authorized, the old one otherwise.
pub open spec fn after_update(
    current: TemplateContext,
    auth: Option<Seq<char>>,
    key: Seq<char>,
    stats: TemplateContext,
) -> TemplateContext {
    if authorized(auth, key) {
        stats
    } else {
        current
    }
}

/// The status answered to an update attempt.
pub open spec fn update_status(auth: Option<Seq<char>>, key: Seq<char>) -> u16 {
    if authorized(auth, key) {
        STATUS_NO_CONTENT
    } else {
        STATUS_UNAUTHORIZED
    }
}

/// The view of an optional credential as an optional character sequence.
pub open spec fn credential_view(auth: Option<&str>) -> Option<Seq<char>> {
    match auth {
        Some(s) => Some(s@),
        None => None,
    }
}

/// Compares the credential of a request with the configured key.
/// A missing credential (absent or not valid text) never matches.
pub fn check_credential(auth: Option<&str>, key: &str) -> (r: bool)
    ensures
        r == authorized(credential_view(auth), key@),
{
    match auth {
        Some(a) => str_equal(a, key),
        None => false,
    }
}

/// Whether two strings hold the same characters.
fn str_equal(a: &str, b: &str) -> (r: bool)
    ensures
        r == (a@ == b@),
{
    a.to_owned() == b.to_owned()
}

/// The shared statistics record: all zero at start, replaced as a whole by
/// authorized updates, read by every page render.
pub struct StatsState {
    current: TemplateContext,
}

impl View for StatsState {
    type V = TemplateContext;

    closed spec fn view(&self) -> TemplateContext {
        self.current
    }
}

impl StatsState {
    /// A record with every counter at zero.
    pub fn new() -> (r: StatsState)
        ensures
            r@ == (TemplateContext { message_count: 0, guild_count: 0, user_count: 0 }),
    {
        StatsState { current: TemplateContext::zero() }
    }

    /// A copy of the counters as they stand.
    pub fn read(&self) -> (r: TemplateContext)
        ensures
            r == self@,
    {
        self.current
    }

    /// Replaces every counter at once with those of `stats`.
    pub fn replace(&mut self, stats: TemplateContext)
        ensures
            final(self)@ == stats,
    {
        self.current = stats;
    }

    /// Handles a statistics push: when `auth` equals `stats_key` the whole
    /// record is replaced by `stats` and 204 is returned; otherwise nothing
    /// changes and 401 is returned.
    pub fn update_stats(&mut self, stats_key: &str, auth: Option<&str>, stats: TemplateContext) -> (r: u16)
        ensures
            r == update_status(credential_view(auth), stats_key@),
            final(self)@ == after_update(old(self)@, credential_view(auth), stats_key@, stats),
    {
        if !check_credential(auth, stats_key) {
            return STATUS_UNAUTHORIZED;
        }
        self.replace(stats);
        STATUS_NO_CONTENT
    }
}

/// A rejected update changes nothing: when the credential does not equal the
/// key (or is missing), the counters stay as they were and 401 is answered.
pub proof fn lemma_rejected_update_keeps_state(
    current: TemplateContext,
    auth: Option<Seq<char>>,
    key: Seq<char>,
    stats: TemplateContext,
)
    requires
        auth != Some(key),
    ensures
        after_update(current, auth, key, stats) == current,
        update_status(auth, key) == STATUS_UNAUTHORIZED,
{
}

/// An update is never torn: afterwards the record is either wholly the old
/// value or wholly the pushed one, never a mix of fields from the two.
pub proof fn lemma_update_is_whole(
    current: TemplateContext,
    auth: Option<Seq<char>>,
    key: Seq<char>,
    stats: TemplateContext,
)
    ensures
        after_update(current, auth, key, stats) == current
            || after_update(current, auth, key, stats) == stats,
{
}

/// Sending the same update twice leaves the same counters, and gets the same
/// answer, as sending it once.
pub proof fn lemma_update_idempotent(
    current: TemplateContext,
    auth: Option<Seq<char>>,
    key: Seq<char>,
    stats: TemplateContext,
)
    ensures
        after_update(after_update(current, auth, key, stats), auth, key, stats)
            == after_update(current, auth, key, stats),
{
}

} // verus!
