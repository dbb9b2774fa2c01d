//! The bridge's state: the running-instance registry, the protected-socket
//! ledger, the host's protection callback and the tunnel handle, with the
//! decisions taken on each of them.
//!
//! Work that only the host or the engine can do (calling the protection
//! callback, running or deleting an instance, handing an instance its tunnel
//! descriptor) is split out: a first function decides whether that work is
//! needed, and a second one takes its outcome and updates the state.

use vstd::prelude::*;
use crate::ident::{parse_uuid, parsed_uuid, uuid_text, hyphenated};
use crate::ledger::ProtectedSockets;

verus! {

/// The process-wide state of the bridge, `C` being the host's callback handle.
pub struct NetworkBridge<C> {
    running: Vec<u128>,
    protected: ProtectedSockets,
    protect_fn: Option<C>,
    tun_fd: i32,
}

/// What a protection request calls for.
#[derive(PartialEq, Eq, Structural, Debug, Clone, Copy)]
pub enum ProtectStep {
    /// The descriptor was protected before: answer `true` at once.
    AlreadyProtected,
    /// No callback is registered: answer `false`, the socket stays unprotected.
    Unavailable,
    /// Call the host's callback, wait for its acknowledgement, then confirm.
    Invoke,
}

/// Why an instance was not started.
#[derive(PartialEq, Eq, Structural, Debug, Clone, Copy)]
pub enum StartError {
    /// The configuration could not be loaded.
    InvalidConfig,
    /// An instance is running already; only one may run at a time.
    AlreadyRunning,
    /// An instance with the configuration's identifier is running.
    DuplicateId,
    /// The engine refused to run the instance.
    EngineFailure,
}

/// Why instances were not stopped.
#[derive(PartialEq, Eq, Structural, Debug, Clone, Copy)]
pub enum StopError {
    /// The engine refused to delete the instances.
    EngineFailure,
}

/// What remains to do once the engine has started an instance.
#[derive(PartialEq, Eq, Structural, Debug, Clone, Copy)]
pub struct StartPlan {
    /// The identifier now recorded as running.
    pub id: u128,
    /// The tunnel descriptor to hand to the new instance, if one is set.
    pub tunnel: Option<i32>,
}

impl<C> NetworkBridge<C> {
    /// The identifiers of the running instances, in the order they are listed.
    pub closed spec fn running_list(&self) -> Seq<u128> {
        self.running@
    }

    /// The running-instance registry.
    pub open spec fn running_ids(&self) -> Set<u128> {
        self.running_list().to_set()
    }

    /// The protected-socket ledger.
    pub closed spec fn protected_fds(&self) -> Set<i32> {
        self.protected@
    }

    /// The registered protection callback.
    pub closed spec fn callback(&self) -> Option<C> {
        self.protect_fn
    }

    /// The last tunnel handle the host set.
    pub closed spec fn tun_handle(&self) -> i32 {
        self.tun_fd
    }

    /// At most one instance runs, and a socket is only ever marked protected
    /// through a registered callback.
    pub closed spec fn wf(&self) -> bool {
        &&& self.running@.len() <= 1
        &&& self.protected.wf()
        &&& self.protect_fn is None ==> self.protected@ == Set::<i32>::empty()
    }
}

/// What a protection request for `fd` calls for in state `s`.
pub open spec fn protection_step<C>(s: NetworkBridge<C>, fd: i32) -> ProtectStep {
    if s.protected_fds().contains(fd) {
        ProtectStep::AlreadyProtected
    } else if s.callback() is None {
        ProtectStep::Unavailable
    } else {
        ProtectStep::Invoke
    }
}

/// `t` is `s` after the host answered a protection request for `fd`; `r` is
/// whether the socket now counts as protected.
pub open spec fn confirmed<C>(s: NetworkBridge<C>, t: NetworkBridge<C>, fd: i32, acknowledged: bool, r: bool) -> bool {
    &&& r == (acknowledged && s.callback() is Some)
    &&& t.protected_fds() == (if r { s.protected_fds().insert(fd) } else { s.protected_fds() })
    &&& t.running_list() == s.running_list()
    &&& t.callback() == s.callback()
    &&& t.tun_handle() == s.tun_handle()
}

/// The decision on a start request, given the identifier the configuration
/// declares (`None` where the configuration did not load).
pub open spec fn start_check(running: Seq<u128>, cfg_id: Option<u128>) -> Result<u128, StartError> {
    match cfg_id {
        None => Err(StartError::InvalidConfig),
        Some(id) => if running.len() > 0 {
            Err(StartError::AlreadyRunning)
        } else if running.contains(id) {
            Err(StartError::DuplicateId)
        } else {
            Ok(id)
        },
    }
}

/// The tunnel descriptor a new instance is handed: only a positive one.
pub open spec fn tunnel_for(tun: i32) -> Option<i32> {
    if tun > 0 {
        Some(tun)
    } else {
        None
    }
}

/// `t` is `s` after the engine's answer `engine_ok` to running instance `id`,
/// with result `r`.
pub open spec fn started<C>(s: NetworkBridge<C>, t: NetworkBridge<C>, id: u128, engine_ok: bool, r: Result<StartPlan, StartError>) -> bool {
    &&& r == (if !engine_ok {
        Err(StartError::EngineFailure)
    } else if s.running_list().len() > 0 {
        Err(StartError::AlreadyRunning)
    } else {
        Ok(StartPlan { id, tunnel: tunnel_for(s.tun_handle()) })
    })
    &&& t.running_list() == (if r is Ok { seq![id] } else { s.running_list() })
    &&& t.protected_fds() == s.protected_fds()
    &&& t.callback() == s.callback()
    &&& t.tun_handle() == s.tun_handle()
}

/// `t` is `s` after the engine's answer `engine_ok` to deleting the
/// instances `ids`, with result `r`.
pub open spec fn stopped<C>(s: NetworkBridge<C>, t: NetworkBridge<C>, ids: Seq<u128>, engine_ok: bool, r: Result<(), StopError>) -> bool {
    &&& r == (if engine_ok { Ok(()) } else { Err(StopError::EngineFailure) })
    &&& t.running_ids() == (if engine_ok { s.running_ids().difference(ids.to_set()) } else { s.running_ids() })
    &&& t.protected_fds() == (if engine_ok && t.running_ids().is_empty() {
        Set::<i32>::empty()
    } else {
        s.protected_fds()
    })
    &&& t.callback() == s.callback()
    &&& t.tun_handle() == s.tun_handle()
}

/// The identifiers among `names` that parse, in order; the others are dropped.
pub open spec fn parsed_ids(names: Seq<Seq<char>>) -> Seq<u128>
    decreases names.len(),
{
    if names.len() == 0 {
        Seq::empty()
    } else {
        let rest = parsed_ids(names.drop_last());
        match parsed_uuid(names.last()) {
            Some(v) => rest.push(v),
            None => rest,
        }
    }
}

/// The texts of a list of names.
pub open spec fn texts(names: Seq<String>) -> Seq<Seq<char>> {
    names.map_values(|s: String| s@)
}

/// A bridge with no instance, no protected socket, no callback and no
/// tunnel handle.
pub fn new_bridge<C>() -> (r: NetworkBridge<C>)
    ensures
        r.wf(),
        r.running_ids() == Set::<u128>::empty(),
        r.running_list() == Seq::<u128>::empty(),
        r.protected_fds() == Set::<i32>::empty(),
        r.callback() is None,
        r.tun_handle() == -1,
{
    let r = NetworkBridge { running: Vec::new(), protected: ProtectedSockets::new(), protect_fn: None, tun_fd: -1 };
    proof {
        assert(r.running@ =~= Seq::<u128>::empty());
    }
    r
}

/// Registers the host's protection callback, replacing any earlier one.
pub fn init_protect_fn<C>(ctx: &mut NetworkBridge<C>, func: C)
    requires
        old(ctx).wf(),
    ensures
        final(ctx).wf(),
        final(ctx).callback() == Some(func),
        final(ctx).running_list() == old(ctx).running_list(),
        final(ctx).protected_fds() == old(ctx).protected_fds(),
        final(ctx).tun_handle() == old(ctx).tun_handle(),
{
    ctx.protect_fn = Some(func);
}

/// The callback to invoke when a protection request calls for it.
pub fn protect_callback<C>(ctx: &NetworkBridge<C>) -> (r: Option<&C>)
    ensures
        r == match ctx.callback() {
            Some(c) => Some(&c),
            None => None::<&C>,
        },
{
    match &ctx.protect_fn {
        Some(c) => Some(c),
        None => None,
    }
}

/// Decides a request to protect socket `fd`: a descriptor in the ledger is
/// protected already; otherwise the callback is invoked, if there is one.
pub fn protect_socket<C>(ctx: &NetworkBridge<C>, fd: i32) -> (r: ProtectStep)
    requires
        ctx.wf(),
    ensures
        r == protection_step(*ctx, fd),
{
    if ctx.protected.is_protected(fd) {
        ProtectStep::AlreadyProtected
    } else if ctx.protect_fn.is_none() {
        ProtectStep::Unavailable
    } else {
        ProtectStep::Invoke
    }
}

/// Records the host's answer to an invoked protection request for `fd`:
/// an acknowledged request marks the descriptor protected; a timed-out one
/// leaves it unprotected. Returns whether the socket counts as protected.
pub fn confirm_protection<C>(ctx: &mut NetworkBridge<C>, fd: i32, acknowledged: bool) -> (r: bool)
    requires
        old(ctx).wf(),
    ensures
        final(ctx).wf(),
        confirmed(*old(ctx), *final(ctx), fd, acknowledged, r),
{
    if acknowledged && ctx.protect_fn.is_some() {
        ctx.protected.mark_protected(fd);
        true
    } else {
        false
    }
}

/// Stores the host's tunnel descriptor for the instances started from now on.
pub fn set_global_tun<C>(ctx: &mut NetworkBridge<C>, fd: i32)
    requires
        old(ctx).wf(),
    ensures
        final(ctx).wf(),
        final(ctx).tun_handle() == fd,
        final(ctx).running_list() == old(ctx).running_list(),
        final(ctx).protected_fds() == old(ctx).protected_fds(),
        final(ctx).callback() == old(ctx).callback(),
{
    ctx.tun_fd = fd;
}

/// Decides a start request for a configuration declaring `cfg_id` (`None`
/// where it did not load). `Ok(id)` asks the engine to run the instance;
/// its answer goes to `finish_network_instance`.
pub fn run_network_instance<C>(ctx: &NetworkBridge<C>, cfg_id: Option<u128>) -> (r: Result<u128, StartError>)
    requires
        ctx.wf(),
    ensures
        r == start_check(ctx.running_list(), cfg_id),
{
    match cfg_id {
        None => Err(StartError::InvalidConfig),
        Some(id) => {
            if ctx.running.len() > 0 {
                Err(StartError::AlreadyRunning)
            } else if contains_id(&ctx.running, id) {
                Err(StartError::DuplicateId)
            } else {
                Ok(id)
            }
        },
    }
}

/// Records the engine's answer to running instance `id`. On success the
/// instance is registered and the plan names the tunnel descriptor to hand
/// it; an engine failure changes nothing.
pub fn finish_network_instance<C>(ctx: &mut NetworkBridge<C>, id: u128, engine_ok: bool) -> (r: Result<StartPlan, StartError>)
    requires
        old(ctx).wf(),
    ensures
        final(ctx).wf(),
        started(*old(ctx), *final(ctx), id, engine_ok, r),
{
    if !engine_ok {
        Err(StartError::EngineFailure)
    } else if ctx.running.len() > 0 {
        Err(StartError::AlreadyRunning)
    } else {
        ctx.running.push(id);
        proof {
            assert(ctx.running@ =~= seq![id]);
        }
        let tunnel = if ctx.tun_fd > 0 {
            Some(ctx.tun_fd)
        } else {
            None
        };
        Ok(StartPlan { id, tunnel })
    }
}

/// The identifiers among `inst_names` that parse as UUIDs, in order; the
/// others are dropped.
pub fn stop_targets(inst_names: &Vec<String>) -> (r: Vec<u128>)
    ensures
        r@ == parsed_ids(texts(inst_names@)),
{
    let mut r: Vec<u128> = Vec::new();
    let mut i: usize = 0;
    while i < inst_names.len()
        invariant
            i <= inst_names@.len(),
            r@ == parsed_ids(texts(inst_names@).take(i as int)),
        decreases inst_names@.len() - i,
    {
        proof {
            let t = texts(inst_names@);
            assert(t.take(i + 1).drop_last() =~= t.take(i as int));
            assert(t.take(i + 1).last() == inst_names@[i as int]@);
        }
        match parse_uuid(inst_names[i].as_str()) {
            Some(v) => r.push(v),
            None => {},
        }
        i = i + 1;
    }
    proof {
        assert(texts(inst_names@).take(i as int) =~= texts(inst_names@));
    }
    r
}

/// Records the engine's answer to deleting the instances `ids`. On success
/// they leave the registry, and the ledger is cleared once no instance runs.
pub fn stop_network_instance<C>(ctx: &mut NetworkBridge<C>, ids: &Vec<u128>, engine_ok: bool) -> (r: Result<(), StopError>)
    requires
        old(ctx).wf(),
    ensures
        final(ctx).wf(),
        stopped(*old(ctx), *final(ctx), ids@, engine_ok, r),
{
    if !engine_ok {
        return Err(StopError::EngineFailure);
    }
    if ctx.running.len() > 0 && contains_id(ids, ctx.running[0]) {
        ctx.running.clear();
    }
    proof {
        let s = old(ctx).running@;
        if s.len() == 0 {
            assert(s.to_set() =~= Set::<u128>::empty());
        } else {
            assert(s =~= seq![s[0]]);
        }
        assert(ctx.running@.len() == 0 ==> ctx.running@.to_set() =~= Set::<u128>::empty());
        assert(ctx.running_ids() =~= old(ctx).running_ids().difference(ids@.to_set()));
    }
    if ctx.running.len() == 0 {
        ctx.protected.clear();
    } else {
        proof {
            assert(ctx.running_ids().contains(ctx.running@[0]));
        }
    }
    Ok(())
}

/// The hyphenated identifiers of the running instances.
pub fn collect_running_network<C>(ctx: &NetworkBridge<C>) -> (r: Vec<String>)
    requires
        ctx.wf(),
    ensures
        r@.len() == ctx.running_list().len(),
        forall|i: int| 0 <= i < r@.len() ==> #[trigger] r@[i]@ == hyphenated(ctx.running_list()[i]),
{
    let mut r: Vec<String> = Vec::new();
    let mut i: usize = 0;
    while i < ctx.running.len()
        invariant
            i <= ctx.running@.len(),
            r@.len() == i,
            forall|j: int| 0 <= j < i ==> #[trigger] r@[j]@ == hyphenated(ctx.running@[j]),
        decreases ctx.running@.len() - i,
    {
        r.push(uuid_text(ctx.running[i]));
        i = i + 1;
    }
    r
}

/// Whether `inst_id` is the identifier of a running instance; a text that
/// does not parse as a UUID names none.
pub fn is_running_network<C>(ctx: &NetworkBridge<C>, inst_id: &str) -> (r: bool)
    requires
        ctx.wf(),
    ensures
        r == match parsed_uuid(inst_id@) {
            Some(v) => ctx.running_ids().contains(v),
            None => false,
        },
{
    match parse_uuid(inst_id) {
        Some(v) => contains_id(&ctx.running, v),
        None => false,
    }
}

/// The registry is empty exactly when no identifier is listed.
proof fn lemma_running_empty<C>(s: NetworkBridge<C>)
    ensures
        s.running_ids().is_empty() <==> s.running_list().len() == 0,
{
    if s.running_list().len() == 0 {
        assert(s.running_ids() =~= Set::<u128>::empty());
    } else {
        assert(s.running_ids().contains(s.running_list()[0]));
    }
}

/// An identifier is among the parsed ones exactly when some name parses to it.
proof fn lemma_parsed_ids_contains(names: Seq<Seq<char>>, v: u128)
    ensures
        parsed_ids(names).contains(v) <==> exists|i: int| 0 <= i < names.len() && parsed_uuid(#[trigger] names[i]) == Some(v),
    decreases names.len(),
{
    if names.len() > 0 {
        let init = names.drop_last();
        lemma_parsed_ids_contains(init, v);
        if exists|i: int| 0 <= i < names.len() && parsed_uuid(#[trigger] names[i]) == Some(v) {
            let i = choose|i: int| 0 <= i < names.len() && parsed_uuid(#[trigger] names[i]) == Some(v);
            if i < names.len() - 1 {
                assert(init[i] == names[i]);
            } else {
                assert(parsed_ids(names) == parsed_ids(init).push(v));
                assert(parsed_ids(names)[parsed_ids(names).len() - 1] == v);
            }
        }
        if parsed_ids(names).contains(v) && !parsed_ids(init).contains(v) {
            assert(parsed_uuid(names[names.len() - 1]) == Some(v));
        }
        if parsed_ids(init).contains(v) {
            let i = choose|i: int| 0 <= i < init.len() && parsed_uuid(#[trigger] init[i]) == Some(v);
            assert(names[i] == init[i]);
            match parsed_uuid(names.last()) {
                Some(w) => {
                    let k = parsed_ids(init).index_of(v);
                    assert(parsed_ids(names)[k] == v);
                },
                None => {},
            }
        }
    }
}

/// At most one instance is ever registered: every reachable state lists at
/// most one identifier, and while one runs a start request is refused with
/// `AlreadyRunning`, both at the check and when the engine's answer comes
/// back, and the state is left as it was.
pub proof fn lemma_singleton<C>(
    s: NetworkBridge<C>,
    cfg_id: Option<u128>,
    t: NetworkBridge<C>,
    id: u128,
    r: Result<StartPlan, StartError>,
)
    requires
        s.wf(),
        started(s, t, id, true, r),
    ensures
        s.running_ids().len() <= 1,
        t.running_ids().len() <= 1,
        !s.running_ids().is_empty() && cfg_id is Some ==> start_check(s.running_list(), cfg_id)
            == Err::<u128, StartError>(StartError::AlreadyRunning),
        !s.running_ids().is_empty() ==> r == Err::<StartPlan, StartError>(StartError::AlreadyRunning)
            && t.running_ids() == s.running_ids() && t.protected_fds() == s.protected_fds()
            && t.callback() == s.callback() && t.tun_handle() == s.tun_handle(),
{
    lemma_running_empty(s);
    s.running@.unique_seq_to_set();
    if r is Ok {
        assert(seq![id].no_duplicates());
        seq![id].unique_seq_to_set();
    } else {
        t.running_list().unique_seq_to_set();
    }
}

/// Protection is asked of the host at most once per descriptor: once an
/// invoked request is acknowledged, a second request for the same descriptor
/// is answered from the ledger without invoking the callback.
pub proof fn lemma_protection_idempotent<C>(s: NetworkBridge<C>, t: NetworkBridge<C>, fd: i32, r: bool)
    requires
        s.wf(),
        protection_step(s, fd) == ProtectStep::Invoke,
        confirmed(s, t, fd, true, r),
    ensures
        r,
        protection_step(t, fd) == ProtectStep::AlreadyProtected,
{
}

/// Stopping the last running instance empties the ledger: a later request
/// for a descriptor protected before invokes the callback again.
pub proof fn lemma_full_stop_resets_ledger<C>(
    s: NetworkBridge<C>,
    t: NetworkBridge<C>,
    ids: Seq<u128>,
    r: Result<(), StopError>,
    fd: i32,
)
    requires
        s.wf(),
        stopped(s, t, ids, true, r),
        t.running_ids().is_empty(),
        s.callback() is Some,
    ensures
        t.protected_fds() == Set::<i32>::empty(),
        protection_step(t, fd) == ProtectStep::Invoke,
{
}

/// Without a registered callback no socket can be protected: every request
/// is answered "unavailable" and nothing is invoked.
pub proof fn lemma_no_callback_unavailable<C>(s: NetworkBridge<C>, fd: i32)
    requires
        s.wf(),
        s.callback() is None,
    ensures
        protection_step(s, fd) == ProtectStep::Unavailable,
{
}

/// A stop request survives names that are no identifiers: it succeeds, and
/// exactly the running instances named by some parsable name leave the
/// registry.
pub proof fn lemma_stop_skips_unparsable<C>(
    s: NetworkBridge<C>,
    t: NetworkBridge<C>,
    names: Seq<Seq<char>>,
    r: Result<(), StopError>,
    v: u128,
)
    requires
        s.wf(),
        stopped(s, t, parsed_ids(names), true, r),
    ensures
        r is Ok,
        t.running_ids().contains(v) <==> s.running_ids().contains(v) && !exists|i: int|
            0 <= i < names.len() && parsed_uuid(#[trigger] names[i]) == Some(v),
{
    lemma_parsed_ids_contains(names, v);
}

/// Handing the tunnel descriptor to a new instance never decides whether it
/// starts: once the engine ran it, the instance is registered whatever the
/// handle, and the descriptor handed over is exactly the handle when it is
/// positive, none otherwise.
pub proof fn lemma_tunnel_best_effort<C>(
    s: NetworkBridge<C>,
    t: NetworkBridge<C>,
    id: u128,
    r: Result<StartPlan, StartError>,
)
    requires
        s.wf(),
        s.running_ids().is_empty(),
        started(s, t, id, true, r),
    ensures
        r is Ok,
        r->Ok_0.id == id,
        t.running_ids().contains(id),
        s.tun_handle() > 0 ==> r->Ok_0.tunnel == Some(s.tun_handle()),
        s.tun_handle() <= 0 ==> r->Ok_0.tunnel is None,
{
    lemma_running_empty(s);
    assert(t.running_list()[0] == id);
}

fn contains_id(ids: &Vec<u128>, id: u128) -> (r: bool)
    ensures
        r == ids@.contains(id),
{
    let mut i: usize = 0;
    while i < ids.len()
        invariant
            i <= ids@.len(),
            forall|j: int| 0 <= j < i ==> ids@[j] != id,
        decreases ids@.len() - i,
    {
        if ids[i] == id {
            proof {
                assert(ids@.contains(ids@[i as int]));
            }
            return true;
        }
        i = i + 1;
    }
    false
}

} // verus!
