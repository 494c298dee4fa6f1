//! The endpoint registry and the connection cache: the configured address of
//! the remote processor, and either a live connection to it or the reason
//! there is none.
use vstd::prelude::*;

verus! {

/// The state of the registry and the cache as a mathematical value.
pub struct CacheState<C> {
    pub address: Seq<char>,
    pub connection: Result<C, Seq<char>>,
}

/// What can happen to the registry and the cache.
pub enum CacheEvent<C> {
    /// The configured address is set.
    Reconfigure(Seq<char>),
    /// A call on the connection failed with this diagnostic.
    CallFailed(Seq<char>),
    /// A connection to this address was established.
    ConnectSucceeded(Seq<char>, C),
    /// Connecting to this address failed with this diagnostic.
    ConnectFailed(Seq<char>, Seq<char>),
}

/// Diagnostic of a cache that has never been connected.
pub open spec fn not_yet_connected() -> Seq<char> {
    "Error_Not_Yet_Connected"@
}

/// Diagnostic stored for a failed call that gave no text of its own.
pub open spec fn call_failed() -> Seq<char> {
    "Error_Call_Failed"@
}

/// Diagnostic of an address that differs from the configured one.
pub open spec fn mismatch_message(current: Seq<char>, required: Seq<char>) -> Seq<char> {
    "connected to "@ + current + ", required "@ + required
}

/// Diagnostic of a failed connection attempt.
pub open spec fn connect_failure_message(host: Seq<char>, reason: Seq<char>) -> Seq<char> {
    "server="@ + host + ", "@ + reason
}

/// Diagnostic stored for a failed call.
pub open spec fn broken_reason(reason: Seq<char>) -> Seq<char> {
    if reason.len() > 0 {
        reason
    } else {
        call_failed()
    }
}

pub open spec fn initial_state<C>() -> CacheState<C> {
    CacheState { address: Seq::empty(), connection: Err(not_yet_connected()) }
}

/// A broken cache always says why.
pub open spec fn well_formed<C>(s: CacheState<C>) -> bool {
    s.connection matches Err(e) ==> e.len() > 0
}

pub open spec fn step<C>(s: CacheState<C>, ev: CacheEvent<C>) -> CacheState<C> {
    match ev {
        CacheEvent::Reconfigure(a) => if a == s.address {
            s
        } else {
            CacheState { address: a, connection: Err(mismatch_message(s.address, a)) }
        },
        CacheEvent::CallFailed(e) => CacheState {
            address: s.address,
            connection: Err(broken_reason(e)),
        },
        CacheEvent::ConnectSucceeded(h, c) => CacheState { address: h, connection: Ok(c) },
        CacheEvent::ConnectFailed(h, e) => CacheState {
            address: h,
            connection: Err(connect_failure_message(h, e)),
        },
    }
}

/// The state after the events, applied first to last.
pub open spec fn run<C>(s: CacheState<C>, evs: Seq<CacheEvent<C>>) -> CacheState<C>
    decreases evs.len(),
{
    if evs.len() == 0 {
        s
    } else {
        step(run(s, evs.drop_last()), evs.last())
    }
}

/// The state after reconfiguring to each address in turn.
pub open spec fn reconfigure_all<C>(s: CacheState<C>, addrs: Seq<Seq<char>>) -> CacheState<C>
    decreases addrs.len(),
{
    if addrs.len() == 0 {
        s
    } else {
        step(reconfigure_all(s, addrs.drop_last()), CacheEvent::Reconfigure(addrs.last()))
    }
}

/// `None` when `host` is the configured address and the cache is connected;
/// else the diagnostic that says why a new connection is needed.
pub open spec fn needs_reconnect<C>(s: CacheState<C>, host: Seq<char>) -> Option<Seq<char>> {
    if host == s.address {
        match s.connection {
            Ok(_) => None,
            Err(e) => Some(e),
        }
    } else {
        Some(mismatch_message(s.address, host))
    }
}

/// The registry and the cache, with a connection handle of type `C`.
pub struct MetaConfig<C> {
    server_path: String,
    server: Result<C, String>,
}

impl<C> View for MetaConfig<C> {
    type V = CacheState<C>;

    closed spec fn view(&self) -> CacheState<C> {
        CacheState {
            address: self.server_path@,
            connection: match self.server {
                Ok(c) => Ok(c),
                Err(e) => Err(e@),
            },
        }
    }
}

impl<C> MetaConfig<C> {
    /// A registry with no address and a cache that was never connected.
    pub fn new() -> (r: Self)
        ensures
            r@ == initial_state::<C>(),
            well_formed(r@),
    {
        proof {
            reveal_strlit("Error_Not_Yet_Connected");
        }
        let r = MetaConfig {
            server_path: String::new(),
            server: Err(String::from_str("Error_Not_Yet_Connected")),
        };
        assert(r@.address =~= Seq::<char>::empty());
        r
    }

    /// The configured address.
    pub fn address(&self) -> (r: &String)
        ensures
            r@ == self@.address,
    {
        &self.server_path
    }

    /// Whether a connection to `host` must be established before use, and why.
    pub fn needs_re_connect(&self, host: &String) -> (r: Option<String>)
        ensures
            match (r, needs_reconnect(self@, host@)) {
                (Some(d), Some(e)) => d@ == e,
                (None, None) => true,
                _ => false,
            },
    {
        if *host == self.server_path {
            match &self.server {
                Ok(_) => None,
                Err(e) => Some(e.clone()),
            }
        } else {
            Some(mismatch(&self.server_path, host))
        }
    }

    /// Sets the configured address; when it changes, the cached connection is
    /// dropped whatever its health. Returns whether the address changed.
    pub fn reconfigure(&mut self, new_address: &String) -> (r: bool)
        ensures
            r == (new_address@ != old(self)@.address),
            final(self)@ == step(old(self)@, CacheEvent::Reconfigure(new_address@)),
    {
        if *new_address == self.server_path {
            return false;
        }
        let reason = mismatch(&self.server_path, new_address);
        self.server_path = new_address.clone();
        self.server = Err(reason);
        true
    }

    /// Records the outcome of a connection attempt to `host`: the address is
    /// set to `host` either way, and the cache holds the new connection or the
    /// failure.
    pub fn apply_connect_result(&mut self, host: String, outcome: Result<C, String>)
        ensures
            final(self)@ == step(
                old(self)@,
                match outcome {
                    Ok(c) => CacheEvent::ConnectSucceeded(host@, c),
                    Err(e) => CacheEvent::ConnectFailed(host@, e@),
                },
            ),
    {
        let server = match outcome {
            Ok(c) => Ok(c),
            Err(e) => {
                let mut reason = String::from_str("server=");
                reason.append(host.as_str());
                reason.append(", ");
                reason.append(e.as_str());
                Err(reason)
            },
        };
        self.server_path = host;
        self.server = server;
    }

    /// Marks the cache broken after a failed call, so that the next
    /// configuration signal connects anew.
    pub fn mark_broken(&mut self, reason: String)
        ensures
            final(self)@ == step(old(self)@, CacheEvent::CallFailed(reason@)),
    {
        if !reason.as_str().is_empty() {
            self.server = Err(reason);
        } else {
            self.server = Err(String::from_str("Error_Call_Failed"));
        }
    }

    /// The connection to call through, or the reason there is none. No
    /// connection is attempted here.
    pub fn call_target(&self) -> (r: Result<&C, String>)
        ensures
            match (r, self@.connection) {
                (Ok(c), Ok(d)) => *c == d,
                (Err(e), Err(f)) => e@ == f,
                _ => false,
            },
    {
        match &self.server {
            Ok(c) => Ok(c),
            Err(e) => Err(e.clone()),
        }
    }
}

fn mismatch(current: &String, required: &String) -> (r: String)
    ensures
        r@ == mismatch_message(current@, required@),
{
    let mut m = String::from_str("connected to ");
    m.append(current.as_str());
    m.append(", required ");
    m.append(required.as_str());
    m
}

/// Reconfiguring to an address equal to the configured one changes nothing.
pub proof fn law_same_address_is_noop<C>(s: CacheState<C>, a: Seq<char>)
    requires
        a == s.address,
    ensures
        step(s, CacheEvent::Reconfigure(a)) == s,
{
}

/// After reconfiguring to a non-empty sequence of addresses, the configured
/// address is the last one.
pub proof fn law_last_address_wins<C>(s: CacheState<C>, addrs: Seq<Seq<char>>)
    requires
        addrs.len() > 0,
    ensures
        reconfigure_all(s, addrs).address == addrs.last(),
{
}

/// No event but a successful connection to `y` lets the cache go from
/// needing a connection for `y` to not needing one.
pub open spec fn connects_to<C>(ev: CacheEvent<C>, y: Seq<char>) -> bool {
    ev matches CacheEvent::ConnectSucceeded(h, _) && h == y
}

/// Once a connection to `y` is needed, it stays needed through any events that
/// do not include a successful connection to `y`.
pub proof fn law_reconnect_needed_until_connected<C>(s: CacheState<C>, y: Seq<char>, evs: Seq<CacheEvent<C>>)
    requires
        needs_reconnect(s, y) is Some,
        forall|i: int| 0 <= i < evs.len() ==> !connects_to(#[trigger] evs[i], y),
    ensures
        needs_reconnect(run(s, evs), y) is Some,
    decreases evs.len(),
{
    if evs.len() > 0 {
        let prefix = evs.drop_last();
        assert forall|i: int| 0 <= i < prefix.len() implies !connects_to(#[trigger] prefix[i], y) by {
            assert(prefix[i] == evs[i]);
        }
        law_reconnect_needed_until_connected(s, y, prefix);
        assert(!connects_to(evs[evs.len() - 1], y));
    }
}

/// Once reconfiguring changes the address to `a`, the old connection is
/// dropped, and a connection is needed for `a` after any events that do not
/// include a successful connection to `a`.
pub proof fn law_stale_connection_never_reused<C>(s: CacheState<C>, a: Seq<char>, evs: Seq<CacheEvent<C>>)
    requires
        a != s.address,
        forall|i: int| 0 <= i < evs.len() ==> !connects_to(#[trigger] evs[i], a),
    ensures
        step(s, CacheEvent::Reconfigure(a)).connection is Err,
        needs_reconnect(run(step(s, CacheEvent::Reconfigure(a)), evs), a) is Some,
{
    law_reconnect_needed_until_connected(step(s, CacheEvent::Reconfigure(a)), a, evs);
}

/// After a failed connection attempt to `y`, the address is `y`, the cache is
/// broken, and a connection is needed for `y` after any events that do not
/// include a successful connection to `y`.
pub proof fn law_failed_connect_needs_reconnect<C>(
    s: CacheState<C>,
    y: Seq<char>,
    reason: Seq<char>,
    evs: Seq<CacheEvent<C>>,
)
    requires
        forall|i: int| 0 <= i < evs.len() ==> !connects_to(#[trigger] evs[i], y),
    ensures
        step(s, CacheEvent::ConnectFailed(y, reason)).address == y,
        step(s, CacheEvent::ConnectFailed(y, reason)).connection is Err,
        needs_reconnect(run(step(s, CacheEvent::ConnectFailed(y, reason)), evs), y) is Some,
{
    law_reconnect_needed_until_connected(step(s, CacheEvent::ConnectFailed(y, reason)), y, evs);
}

/// A successful connection to `y` is what makes the cache usable for `y`.
pub proof fn law_connect_makes_usable<C>(s: CacheState<C>, y: Seq<char>, c: C)
    ensures
        needs_reconnect(step(s, CacheEvent::ConnectSucceeded(y, c)), y) is None,
        step(s, CacheEvent::ConnectSucceeded(y, c)).connection == Ok::<C, Seq<char>>(c),
{
}

/// Starting from a broken cache, a live connection always belongs to the
/// current address: some event connected exactly that handle to it.
pub proof fn law_connection_belongs_to_address<C>(s: CacheState<C>, evs: Seq<CacheEvent<C>>)
    requires
        s.connection is Err,
    ensures
        run(s, evs).connection matches Ok(h) ==> exists|i: int|
            0 <= i < evs.len() && #[trigger] evs[i] == CacheEvent::ConnectSucceeded(run(s, evs).address, h),
    decreases evs.len(),
{
    if evs.len() > 0 {
        let prefix = evs.drop_last();
        law_connection_belongs_to_address(s, prefix);
        let last = evs.last();
        let r = run(s, evs);
        if let Ok(h) = r.connection {
            match last {
                CacheEvent::ConnectSucceeded(a, c) => {
                    assert(evs[evs.len() - 1] == CacheEvent::ConnectSucceeded(r.address, h));
                },
                CacheEvent::Reconfigure(a) => {
                    assert(run(s, prefix) == r);
                    let i = choose|i: int|
                        0 <= i < prefix.len() && #[trigger] prefix[i] == CacheEvent::ConnectSucceeded(r.address, h);
                    assert(evs[i] == prefix[i]);
                },
                _ => {},
            }
        }
    }
}

/// Every event keeps the cache well formed; it is always either connected or
/// broken, never both.
pub proof fn law_cache_well_formed<C>(s: CacheState<C>, evs: Seq<CacheEvent<C>>)
    requires
        well_formed(s),
    ensures
        well_formed(run(s, evs)),
        (run(s, evs).connection is Ok) != (run(s, evs).connection is Err),
    decreases evs.len(),
{
    reveal_strlit("connected to ");
    reveal_strlit("server=");
    reveal_strlit("Error_Call_Failed");
    if evs.len() > 0 {
        law_cache_well_formed(s, evs.drop_last());
    }
}

} // verus!
