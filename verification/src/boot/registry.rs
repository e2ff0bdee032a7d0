//! The configured accounts, and which of them a request is for.
use vstd::prelude::*;
use vstd::string::*;

use crate::account;
use crate::account::{is_before, AccountId};
use crate::error::RimapError;
use crate::text;
use crate::text::{copy_text, same_text};
use crate::tool::{Posture, ToolName};

verus! {

/// What the server knows of an account.
#[derive(Debug)]
pub struct AccountState {
    pub id: AccountId,
    pub posture: Posture,
    /// The tools that the account offers, sub-capabilities left out.
    pub advertised: Vec<ToolName>,
    pub imap_username: String,
    pub imap_host: String,
    pub smtp_configured: bool,
    /// How long one tool call may take.
    pub tool_call_timeout_secs: u64,
}

/// The names of accounts.
pub open spec fn names(accounts: Seq<AccountState>) -> Seq<Seq<char>> {
    Seq::new(accounts.len(), |i: int| accounts[i].id@)
}

/// The last account of a name: `None` where there is none.
pub open spec fn last_named(accounts: Seq<AccountState>, name: Seq<char>) -> Option<AccountState>
    decreases accounts.len(),
{
    if accounts.len() == 0 {
        None
    } else if accounts.last().id@ == name {
        Some(accounts.last())
    } else {
        last_named(accounts.drop_last(), name)
    }
}

/// In the order of their names, no name twice.
pub open spec fn in_order(accounts: Seq<AccountState>) -> bool {
    forall|i: int, j: int|
        0 <= i < j < accounts.len() ==> account::before(
            (#[trigger] accounts[i]).id@,
            (#[trigger] accounts[j]).id@,
        )
}

/// The last account of a name is one of that name, where there is any.
pub proof fn lemma_last_named(accounts: Seq<AccountState>, name: Seq<char>)
    ensures
        match last_named(accounts, name) {
            Some(state) => state.id@ == name && accounts.contains(state),
            None => forall|i: int| 0 <= i < accounts.len() ==> (#[trigger] accounts[i]).id@ != name,
        },
    decreases accounts.len(),
{
    if accounts.len() > 0 && accounts.last().id@ != name {
        let rest = accounts.drop_last();
        lemma_last_named(rest, name);
        if let Some(state) = last_named(rest, name) {
            let i = choose|i: int| 0 <= i < rest.len() && rest[i] == state;
            assert(accounts[i] == state);
        } else {
            assert forall|i: int| 0 <= i < accounts.len() implies (#[trigger] accounts[i]).id@
                != name by {
                if i < rest.len() {
                    assert(rest[i].id@ != name);
                }
            }
        }
    }
}

/// In a list without a name twice, the last account of a name is the only one.
proof fn lemma_only_named(accounts: Seq<AccountState>, i: int)
    requires
        in_order(accounts),
        0 <= i < accounts.len(),
    ensures
        last_named(accounts, accounts[i].id@) == Some(accounts[i]),
{
    let name = accounts[i].id@;
    lemma_last_named(accounts, name);
    if let Some(state) = last_named(accounts, name) {
        let j = choose|j: int| 0 <= j < accounts.len() && accounts[j] == state;
        account::law_order_is_total(name, name);
        if i < j {
            assert(account::before(accounts[i].id@, accounts[j].id@));
        } else if j < i {
            assert(account::before(accounts[j].id@, accounts[i].id@));
        }
    }
}

/// The place of a name in an ordered list: no account from there on stands before
/// the name, and every account up to there does.
fn place_of(accounts: &Vec<AccountState>, name: &str) -> (r: usize)
    requires
        in_order(accounts@),
    ensures
        r <= accounts@.len(),
        forall|i: int| 0 <= i < r ==> account::before((#[trigger] accounts@[i]).id@, name@),
        forall|i: int|
            r <= i < accounts@.len() ==> !account::before((#[trigger] accounts@[i]).id@, name@),
{
    let mut p: usize = 0;
    while p < accounts.len() && is_before(accounts[p].id.as_str(), name)
        invariant
            p <= accounts@.len(),
            forall|i: int| 0 <= i < p ==> account::before((#[trigger] accounts@[i]).id@, name@),
        decreases accounts@.len() - p,
    {
        p = p + 1;
    }
    proof {
        assert forall|i: int| p <= i < accounts@.len() implies !account::before(
            (#[trigger] accounts@[i]).id@,
            name@,
        ) by {
            if p < i && account::before(accounts@[i].id@, name@) {
                account::law_order_is_transitive(accounts@[p as int].id@, accounts@[i].id@, name@);
            }
        }
    }
    p
}

/// The account of a name in an ordered list.
fn find_named(accounts: &Vec<AccountState>, name: &str) -> (r: Option<usize>)
    requires
        in_order(accounts@),
    ensures
        match r {
            Some(i) => i < accounts@.len() && accounts@[i as int].id@ == name@ && last_named(
                accounts@,
                name@,
            ) == Some(accounts@[i as int]),
            None => last_named(accounts@, name@) is None && forall|i: int|
                0 <= i < accounts@.len() ==> (#[trigger] accounts@[i]).id@ != name@,
        },
{
    let p = place_of(accounts, name);
    if p < accounts.len() && same_text(accounts[p].id.as_str(), name) {
        proof {
            lemma_only_named(accounts@, p as int);
        }
        return Some(p);
    }
    proof {
        assert forall|i: int| 0 <= i < accounts@.len() implies (#[trigger] accounts@[i]).id@
            != name@ by {
            account::law_order_is_total(accounts@[i].id@, name@);
            if accounts@[i].id@ == name@ && i > p {
                assert(account::before(accounts@[p as int].id@, accounts@[i].id@));
            }
        }
        lemma_last_named(accounts@, name@);
        if let Some(state) = last_named(accounts@, name@) {
            let j = choose|j: int| 0 <= j < accounts@.len() && accounts@[j] == state;
            assert(accounts@[j].id@ != name@);
        }
    }
    None
}

/// Puts an account into an ordered list, in place of one of the same name.
fn put(accounts: &mut Vec<AccountState>, state: AccountState)
    requires
        in_order(old(accounts)@),
    ensures
        in_order(final(accounts)@),
        forall|name: Seq<char>| #[trigger]
            last_named(final(accounts)@, name) == if name == state.id@ {
                Some(state)
            } else {
                last_named(old(accounts)@, name)
            },
{
    let ghost before = accounts@;
    let ghost new = state;
    let p = place_of(accounts, state.id.as_str());
    let taken = p < accounts.len() && same_text(accounts[p].id.as_str(), state.id.as_str());
    if taken {
        accounts.remove(p);
    }
    accounts.insert(p, state);
    let ghost after = accounts@;
    proof {
        assert forall|i: int| 0 <= i < after.len() implies if i < p {
            #[trigger] after[i] == before[i]
        } else if i == p {
            after[i] == new
        } else if taken {
            after[i] == before[i]
        } else {
            after[i] == before[i - 1]
        } by {}
        assert forall|i: int, j: int| 0 <= i < j < after.len() implies account::before(
            (#[trigger] after[i]).id@,
            (#[trigger] after[j]).id@,
        ) by {
            if i == p {
                let b = if taken {
                    before[j]
                } else {
                    before[j - 1]
                };
                assert(after[j] == b);
                account::law_order_is_total(b.id@, new.id@);
                if b.id@ == new.id@ {
                    if !taken && j - 1 > p {
                        assert(account::before(before[p as int].id@, before[j - 1].id@));
                    }
                }
            }
        }
        assert forall|name: Seq<char>| #[trigger]
            last_named(after, name) == if name == new.id@ {
                Some(new)
            } else {
                last_named(before, name)
            } by {
            if name == new.id@ {
                lemma_only_named(after, p as int);
            } else {
                lemma_last_named(before, name);
                lemma_last_named(after, name);
                if let Some(state) = last_named(before, name) {
                    let j = choose|j: int| 0 <= j < before.len() && before[j] == state;
                    let k = if taken || j < p {
                        j
                    } else {
                        j + 1
                    };
                    assert(after[k] == before[j]);
                    lemma_only_named(after, k);
                } else if let Some(state) = last_named(after, name) {
                    let k = choose|k: int| 0 <= k < after.len() && after[k] == state;
                    let j = if taken || k < p {
                        k
                    } else {
                        k - 1
                    };
                    assert(before[j] == after[k]);
                }
            }
        }
    }
}

/// The rate limiter of the account tools, a `governor::DefaultDirectRateLimiter`.
/// Its type is bound by traits of `governor`, so that it is held as a whole.
#[verifier::external_body]
pub struct InfrastructureLimiter {
    inner: governor::DefaultDirectRateLimiter,
}

/// How many calls of the account tools a second may hold in the long run.
pub const INFRA_RATE_PER_SEC: u32 = 5;

/// How many calls of the account tools may come at once.
pub const INFRA_BURST: u32 = 10;

/// The quota that a limiter was made with: how many calls a second may hold in the
/// long run, and how many may come at once.
pub uninterp spec fn limiter_quota(limiter: InfrastructureLimiter) -> (u32, u32);

/// Calls `governor::RateLimiter::direct` with the quota of `Quota::per_second` and
/// `allow_burst`. A limiter of just that quota is all that is stated: its verdicts
/// depend on the time.
#[verifier::external_body]
fn make_limiter(rate: u32, burst: u32) -> (r: InfrastructureLimiter)
    requires
        rate > 0,
        burst > 0,
    ensures
        limiter_quota(r) == (rate, burst),
{
    let rate = std::num::NonZeroU32::new(rate).unwrap();
    let burst = std::num::NonZeroU32::new(burst).unwrap();
    let quota = governor::Quota::per_second(rate).allow_burst(burst);
    InfrastructureLimiter { inner: governor::RateLimiter::direct(quota) }
}

/// Calls `governor::RateLimiter::check`, and `NotUntil::wait_time_from` on a
/// refusal: the milliseconds to wait. Nothing is stated of the verdict, which
/// depends on the time.
#[verifier::external_body]
fn ask_limiter(limiter: &InfrastructureLimiter) -> Result<(), u128> {
    match limiter.inner.check() {
        Ok(()) => Ok(()),
        Err(refusal) => {
            let now = governor::clock::Clock::now(limiter.inner.clock());
            Err(refusal.wait_time_from(now).as_millis())
        },
    }
}

/// The milliseconds that a refused call is told to wait.
pub open spec fn retry_after(wait_ms: u128) -> u64 {
    if wait_ms <= u64::MAX {
        wait_ms as u64
    } else {
        u64::MAX
    }
}

/// The error of a call that came too soon.
pub fn infra_rate_limited(wait_ms: u128) -> (r: RimapError)
    ensures
        r == (RimapError::RateLimited { retry_after_ms: retry_after(wait_ms) }),
{
    if wait_ms <= u64::MAX as u128 {
        RimapError::RateLimited { retry_after_ms: wait_ms as u64 }
    } else {
        RimapError::RateLimited { retry_after_ms: u64::MAX }
    }
}

/// What a verdict of the limiter means for the call.
pub fn on_verdict(verdict: Result<(), u128>) -> (r: Result<(), RimapError>)
    ensures
        match verdict {
            Ok(()) => r is Ok,
            Err(wait_ms) => r == Err::<(), RimapError>(
                RimapError::RateLimited { retry_after_ms: retry_after(wait_ms) },
            ),
        },
{
    match verdict {
        Ok(()) => Ok(()),
        Err(wait_ms) => Err(infra_rate_limited(wait_ms)),
    }
}

/// The configured accounts and the one that is selected, if any.
pub struct AccountRegistry {
    accounts: Vec<AccountState>,
    active: Option<AccountId>,
    limiter: InfrastructureLimiter,
}

/// The selected account's name.
pub open spec fn name_view(id: Option<AccountId>) -> Option<Seq<char>> {
    match id {
        Some(id) => Some(id@),
        None => None,
    }
}

/// The account that a request is for: the named one, else the only one.
pub open spec fn resolved(accounts: Seq<AccountState>, explicit: Option<Seq<char>>) -> Option<
    AccountState,
> {
    match explicit {
        Some(name) => last_named(accounts, name),
        None => if accounts.len() == 1 {
            Some(accounts[0])
        } else {
            None
        },
    }
}

impl AccountRegistry {
    #[verifier::type_invariant]
    spec fn well_formed(self) -> bool {
        in_order(self.accounts@)
    }

    /// The accounts, in the order of their names.
    pub closed spec fn states(self) -> Seq<AccountState> {
        self.accounts@
    }

    /// The name of the selected account.
    pub closed spec fn selected(self) -> Option<Seq<char>> {
        name_view(self.active)
    }

    /// The quota of the account tools.
    pub closed spec fn quota(self) -> (u32, u32) {
        limiter_quota(self.limiter)
    }

    /// Builds a registry of the given accounts, none of them selected. Of two
    /// accounts of one name the later counts.
    pub fn new(accounts: Vec<AccountState>) -> (r: AccountRegistry)
        ensures
            in_order(r.states()),
            forall|name: Seq<char>| #[trigger]
                last_named(r.states(), name) == last_named(accounts@, name),
            r.selected() is None,
            r.quota() == (INFRA_RATE_PER_SEC, INFRA_BURST),
            r.quota() == (5u32, 10u32),
    {
        let ghost given = accounts@;
        let mut list: Vec<AccountState> = Vec::new();
        for state in it: accounts
            invariant
                it.seq() == given,
                in_order(list@),
                forall|name: Seq<char>| #[trigger]
                    last_named(list@, name) == last_named(given.take(it.index() as int), name),
        {
            let ghost k = it.index() as int;
            put(&mut list, state);
            assert(given.take(k + 1).drop_last() =~= given.take(k));
        }
        assert(given.take(given.len() as int) =~= given);
        AccountRegistry {
            accounts: list,
            active: None,
            limiter: make_limiter(INFRA_RATE_PER_SEC, INFRA_BURST),
        }
    }

    /// Asks the limiter of the account tools. Whether the call is admitted
    /// depends on the time; a refused one learns how long to wait.
    pub fn check_infrastructure_rate(&self) -> (r: Result<(), RimapError>)
        ensures
            r matches Err(e) ==> e is RateLimited,
    {
        on_verdict(ask_limiter(&self.limiter))
    }

    /// The account that a request is for: the named one, else the only one. The
    /// selection plays no part.
    pub fn resolve(&self, explicit: Option<&str>) -> (r: Result<&AccountState, RimapError>)
        ensures
            match resolved(
                self.states(),
                match explicit {
                    Some(name) => Some(name@),
                    None => None,
                },
            ) {
                Some(state) => r matches Ok(s) && *s == state,
                None => match explicit {
                    Some(name) => r matches Err(RimapError::UnknownAccount { name: n, available })
                        && n@ == name@ && text::texts(available@) == names(self.states()),
                    None => r matches Err(RimapError::NoAccount { available }) && text::texts(
                        available@,
                    ) == names(self.states()),
                },
            },
    {
        proof {
            use_type_invariant(self);
        }
        match explicit {
            Some(name) => match find_named(&self.accounts, name) {
                Some(i) => Ok(&self.accounts[i]),
                None => Err(
                    RimapError::UnknownAccount {
                        name: name.to_owned(),
                        available: self.account_name_strings(),
                    },
                ),
            },
            None => if self.accounts.len() == 1 {
                Ok(&self.accounts[0])
            } else {
                Err(RimapError::NoAccount { available: self.account_name_strings() })
            },
        }
    }

    /// The name of the selected account.
    pub fn active_name(&self) -> (r: Option<String>)
        ensures
            match r {
                Some(name) => self.selected() == Some(name@),
                None => self.selected() is None,
            },
    {
        match &self.active {
            Some(id) => Some(id.as_str().to_owned()),
            None => None,
        }
    }

    /// Selects an account and gives back the name of the one that was selected
    /// before. An unknown name is refused and changes nothing.
    pub fn set_active(&mut self, name: &str) -> (r: Result<Option<String>, RimapError>)
        ensures
            final(self).states() == old(self).states(),
            final(self).quota() == old(self).quota(),
            match last_named(old(self).states(), name@) {
                Some(_) => {
                    &&& r is Ok
                    &&& match r->Ok_0 {
                        Some(previous) => old(self).selected() == Some(previous@),
                        None => old(self).selected() is None,
                    }
                    &&& final(self).selected() == Some(name@)
                },
                None => {
                    &&& r matches Err(RimapError::UnknownAccount { name: n, available })
                    &&& n@ == name@
                    &&& text::texts(available@) == names(old(self).states())
                    &&& final(self).selected() == old(self).selected()
                },
            },
    {
        proof {
            use_type_invariant(&*self);
        }
        match find_named(&self.accounts, name) {
            Some(i) => {
                let previous = self.active_name();
                self.active = Some(self.accounts[i].id.clone());
                Ok(previous)
            },
            None => Err(
                RimapError::UnknownAccount {
                    name: name.to_owned(),
                    available: self.account_name_strings(),
                },
            ),
        }
    }

    /// The names of the accounts, in order.
    pub fn account_name_strings(&self) -> (r: Vec<String>)
        ensures
            text::texts(r@) == names(self.states()),
    {
        let mut r: Vec<String> = Vec::new();
        for i in 0..self.accounts.len()
            invariant
                text::texts(r@) == names(self.states()).take(i as int),
        {
            let ghost before = text::texts(r@);
            r.push(self.accounts[i].id.as_str().to_owned());
            assert(text::texts(r@) =~= before.push(self.accounts@[i as int].id@));
            assert(names(self.states()).take(i + 1) =~= names(self.states()).take(i as int).push(
                self.accounts@[i as int].id@,
            ));
        }
        assert(names(self.states()).take(self.accounts@.len() as int) =~= names(self.states()));
        r
    }

    /// The accounts, in the order of their names.
    pub fn accounts(&self) -> (r: &Vec<AccountState>)
        ensures
            r@ == self.states(),
            in_order(r@),
    {
        proof {
            use_type_invariant(self);
        }
        &self.accounts
    }

    /// The account of a name.
    pub fn find_by_name(&self, name: &str) -> (r: Option<&AccountState>)
        ensures
            match r {
                Some(state) => last_named(self.states(), name@) == Some(*state),
                None => last_named(self.states(), name@) is None,
            },
    {
        proof {
            use_type_invariant(self);
        }
        match find_named(&self.accounts, name) {
            Some(i) => Some(&self.accounts[i]),
            None => None,
        }
    }
}

/// Every configured account is found by its name, whichever is selected.
pub proof fn law_every_account_is_reachable(accounts: Seq<AccountState>, i: int)
    requires
        in_order(accounts),
        0 <= i < accounts.len(),
    ensures
        resolved(accounts, Some(accounts[i].id@)) == Some(accounts[i]),
{
    lemma_only_named(accounts, i);
}

/// How an account's server is reached. What encryption is used is for the
/// connection to know.
pub struct ImapSettings<E> {
    pub host: String,
    pub port: u16,
    pub encryption: E,
    pub username: String,
    pub connect_timeout_seconds: u32,
    pub command_timeout_seconds: u32,
    pub max_fetch_body_bytes: u64,
    pub max_append_bytes: u64,
    pub tls_fingerprint: Option<String>,
}

/// What a connection is made with.
pub struct ConnectionConfig<E> {
    pub id: AccountId,
    /// The account's name in records: `None` for the account of a configuration
    /// that names none.
    pub account: Option<String>,
    pub host: String,
    pub port: u16,
    pub encryption: E,
    pub username: String,
    pub connect_timeout_secs: u64,
    pub command_timeout_secs: u64,
    pub max_fetch_body_bytes: u64,
    pub max_append_bytes: u64,
    pub pinned_fingerprint: Option<String>,
}

/// What the connection of an account is made with.
pub fn build_account_connection<E: Copy>(
    id: &AccountId,
    imap: &ImapSettings<E>,
) -> (r: ConnectionConfig<E>)
    ensures
        r.id@ == id@,
        text::text_view(r.account) == (if id@ == account::DEFAULT_ACCOUNT_NAME@ {
            None
        } else {
            Some(id@)
        }),
        r.host@ == imap.host@,
        r.port == imap.port,
        r.encryption == imap.encryption,
        r.username@ == imap.username@,
        r.connect_timeout_secs == imap.connect_timeout_seconds,
        r.command_timeout_secs == imap.command_timeout_seconds,
        r.max_fetch_body_bytes == imap.max_fetch_body_bytes,
        r.max_append_bytes == imap.max_append_bytes,
        text::text_view(r.pinned_fingerprint) == text::text_view(imap.tls_fingerprint),
{
    let account = match id.as_optional() {
        Some(named) => Some(named.to_owned()),
        None => None,
    };
    ConnectionConfig {
        id: id.clone(),
        account,
        host: imap.host.as_str().to_owned(),
        port: imap.port,
        encryption: imap.encryption,
        username: imap.username.as_str().to_owned(),
        connect_timeout_secs: imap.connect_timeout_seconds as u64,
        command_timeout_secs: imap.command_timeout_seconds as u64,
        max_fetch_body_bytes: imap.max_fetch_body_bytes,
        max_append_bytes: imap.max_append_bytes,
        pinned_fingerprint: copy_text(&imap.tls_fingerprint),
    }
}

/// Of several accounts of one name the last counts, and an account beside them changes
/// nothing for another name.
pub proof fn law_later_account_counts(
    accounts: Seq<AccountState>,
    state: AccountState,
    name: Seq<char>,
)
    ensures
        last_named(accounts.push(state), state.id@) == Some(state),
        name != state.id@ ==> last_named(accounts.push(state), name) == last_named(accounts, name),
        last_named(Seq::empty(), name) is None,
{
    assert(accounts.push(state).drop_last() =~= accounts);
}

/// A request that names an account is never served by another one. One that names none
/// is served only where there is no choice.
pub proof fn law_no_account_is_guessed(accounts: Seq<AccountState>, name: Seq<char>)
    ensures
        resolved(accounts, Some(name)) matches Some(state) ==> state.id@ == name
            && accounts.contains(state),
        resolved(accounts, Some(name)) is None <==> forall|i: int|
            0 <= i < accounts.len() ==> (#[trigger] accounts[i]).id@ != name,
        resolved(accounts, None) is Some <==> accounts.len() == 1,
        resolved(accounts, None) matches Some(state) ==> accounts =~= seq![state],
{
    lemma_last_named(accounts, name);
    if let Some(state) = last_named(accounts, name) {
        let i = choose|i: int| 0 <= i < accounts.len() && accounts[i] == state;
        assert(accounts[i].id@ == name);
    }
}

/// A refused call is told to wait as long as the limiter says, as far as 64 bits go: no
/// shorter for a longer wait.
pub proof fn law_wait_is_not_cut_short(wait: u128, longer: u128)
    requires
        wait <= longer,
    ensures
        wait <= 0xffff_ffff_ffff_ffff ==> retry_after(wait) == wait,
        wait > 0xffff_ffff_ffff_ffff ==> retry_after(wait) == 0xffff_ffff_ffff_ffff,
        retry_after(wait) <= retry_after(longer),
{
}

/// The names of accounts are told one by one.
pub proof fn law_names_are_told_one_by_one(accounts: Seq<AccountState>, i: int, id: AccountId)
    ensures
        names(accounts).len() == accounts.len(),
        0 <= i < accounts.len() ==> names(accounts)[i] == accounts[i].id@,
        name_view(Some(id)) == Some(id@),
        name_view(None) is None,
{
}

} // verus!
