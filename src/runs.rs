use vstd::prelude::*;
use crate::keys::IDENTITY_COUNT;
use crate::lifecycle::{
    initial_state, is_done, is_provisioning, is_node_phase, lemma_next_wf, next, other, peer_starts, progress, Action,
    ChainProgress, Event, State, fund_action,
};
use crate::resources::{after_teardown, lemma_teardown_total, Chain, Resource};

verus! {

/// The state after a sequence of events from a fresh orchestrator, and every
/// action asked for along the way, in order.
pub open spec fn run(events: Seq<Event>) -> (State, Seq<Action>)
    decreases events.len(),
{
    if events.len() == 0 {
        (initial_state(), Seq::empty())
    } else {
        let prev = run(events.drop_last());
        let step = next(prev.0, events.last());
        (step.0, prev.1 + step.1)
    }
}

/// How many times `a` occurs in `acts`.
pub open spec fn occurrences(acts: Seq<Action>, a: Action) -> nat
    decreases acts.len(),
{
    if acts.len() == 0 {
        0
    } else {
        occurrences(acts.drop_last(), a) + if acts.last() == a { 1nat } else { 0nat }
    }
}

/// The identities funded on `chain` by the funding calls in `acts`, in the
/// order the calls were issued.
pub open spec fn funding_calls(acts: Seq<Action>, chain: Chain) -> Seq<usize>
    decreases acts.len(),
{
    if acts.len() == 0 {
        Seq::empty()
    } else {
        let rest = funding_calls(acts.drop_last(), chain);
        match acts.last() {
            Action::Fund { chain: c, identity, .. } => if c == chain { rest.push(identity) } else { rest },
            _ => rest,
        }
    }
}

/// How many funding calls a node with progress `p` has been asked for: one
/// per funded identity, plus the one in flight.
pub open spec fn calls_issued(p: ChainProgress) -> nat {
    if !p.started {
        0
    } else if p.funded < IDENTITY_COUNT {
        (p.funded + 1) as nat
    } else {
        IDENTITY_COUNT as nat
    }
}

/// Identities `0, 1, ..., n - 1`.
pub open spec fn in_order(n: nat) -> Seq<usize> {
    Seq::new(n, |i: int| i as usize)
}

pub open spec fn locks_taken(s: State) -> nat {
    if s.created.len() > 0 { 1 } else { 0 }
}

proof fn lemma_append(a: Seq<Action>, b: Seq<Action>, x: Action, chain: Chain)
    ensures
        occurrences(a + b, x) == occurrences(a, x) + occurrences(b, x),
        funding_calls(a + b, chain) == funding_calls(a, chain) + funding_calls(b, chain),
    decreases b.len(),
{
    if b.len() == 0 {
        assert(a + b =~= a);
        assert(funding_calls(a, chain) + funding_calls(b, chain) =~= funding_calls(a, chain));
    } else {
        assert((a + b).drop_last() =~= a + b.drop_last());
        lemma_append(a, b.drop_last(), x, chain);
        assert(funding_calls(a + b, chain) =~= funding_calls(a, chain) + funding_calls(b, chain));
    }
}

proof fn lemma_single(y: Action, x: Action, chain: Chain)
    ensures
        occurrences(seq![y], x) == if y == x { 1nat } else { 0nat },
        funding_calls(seq![y], chain) == match y {
            Action::Fund { chain: c, identity, .. } => if c == chain { seq![identity] } else { Seq::empty() },
            _ => Seq::<usize>::empty(),
        },
{
    assert(seq![y].drop_last() =~= Seq::<Action>::empty());
    assert(seq![y].last() == y);
    lemma_empty(x, chain);
    match y {
        Action::Fund { chain: c, identity, .. } => {
            assert(Seq::<usize>::empty().push(identity) =~= seq![identity]);
        },
        _ => {},
    }
}

proof fn lemma_pair(y: Action, z: Action, x: Action, chain: Chain)
    requires
        !(y is Fund),
        !(z is Fund),
    ensures
        occurrences(seq![y, z], x) == occurrences(seq![y], x) + occurrences(seq![z], x),
        funding_calls(seq![y, z], chain) == Seq::<usize>::empty(),
{
    assert(seq![y, z] =~= seq![y] + seq![z]);
    lemma_append(seq![y], seq![z], x, chain);
    lemma_single(y, x, chain);
    lemma_single(z, x, chain);
    assert(Seq::<usize>::empty() + Seq::<usize>::empty() =~= Seq::<usize>::empty());
}

proof fn lemma_empty(x: Action, chain: Chain)
    ensures
        occurrences(Seq::empty(), x) == 0,
        funding_calls(Seq::empty(), chain) == Seq::<usize>::empty(),
{
}

/// A state from which no block production has been asked for: before or
/// during provisioning, or after a provisioning failure.
pub open spec fn never_served(s: State) -> bool {
    s.stage is Idle || is_provisioning(s.stage) || s.failure is Some
}

proof fn lemma_absent(acts: Seq<Action>, x: Action)
    requires
        forall|k: int| 0 <= k < acts.len() ==> acts[k] != x,
    ensures
        occurrences(acts, x) == 0,
    decreases acts.len(),
{
    if acts.len() > 0 {
        lemma_absent(acts.drop_last(), x);
    }
}

/// A step into a state that was never served starts from one, and asks
/// neither to serve nor for a block.
proof fn lemma_step_unserved(s: State, e: Event)
    requires
        s.wf(),
        never_served(next(s, e).0),
    ensures
        never_served(s),
        occurrences(next(s, e).1, Action::Serve) == 0,
        occurrences(next(s, e).1, Action::GenerateBlock) == 0,
{
    let acts = next(s, e).1;
    assert forall|k: int| 0 <= k < acts.len() implies acts[k] != Action::Serve && acts[k] != Action::GenerateBlock by {
        if e is EnvFileWritten && s.stage is EnvFileWriting {
            assert(acts[k] == Action::StartPeer(k as usize));
        }
    }
    lemma_absent(acts, Action::Serve);
    lemma_absent(acts, Action::GenerateBlock);
}

/// What one transition adds to the counts that the run laws speak of.
proof fn lemma_step(s: State, e: Event, chain: Chain)
    requires
        s.wf(),
    ensures
        s.teardowns + occurrences(next(s, e).1, Action::Teardown) == next(s, e).0.teardowns,
        locks_taken(s) + occurrences(next(s, e).1, Action::AcquireLock) == locks_taken(next(s, e).0),
        in_order(calls_issued(progress(s, chain))) + funding_calls(next(s, e).1, chain)
            == in_order(calls_issued(progress(next(s, e).0, chain))),
{
    lemma_next_wf(s, e);
    let t = next(s, e);
    let before = in_order(calls_issued(progress(s, chain)));
    lemma_empty(Action::Teardown, chain);
    lemma_empty(Action::AcquireLock, chain);
    assert(before + Seq::<usize>::empty() =~= before);
    match e {
        Event::Launch { lock_present } => {
            if s.stage is Idle {
                if lock_present {
                    lemma_single(Action::Exit(1), Action::Teardown, chain);
                    lemma_single(Action::Exit(1), Action::AcquireLock, chain);
                } else {
                    lemma_single(Action::AcquireLock, Action::Teardown, chain);
                    lemma_single(Action::AcquireLock, Action::AcquireLock, chain);
                }
            }
        },
        Event::LockAcquired => {
            lemma_single(Action::CreateNetwork, Action::Teardown, chain);
            lemma_single(Action::CreateNetwork, Action::AcquireLock, chain);
        },
        Event::NetworkCreated => {
            if s.stage is NetworkCreating {
                let y = Action::StartNode(Chain::Bitcoin);
                let z = Action::StartNode(Chain::Ethereum);
                lemma_pair(y, z, Action::Teardown, chain);
                lemma_pair(y, z, Action::AcquireLock, chain);
                lemma_single(y, Action::Teardown, chain);
                lemma_single(z, Action::Teardown, chain);
                lemma_single(y, Action::AcquireLock, chain);
                lemma_single(z, Action::AcquireLock, chain);
            }
        },
        Event::NodeStarted(c) => {
            if is_node_phase(s.stage) && !progress(s, c).started {
                lemma_single(fund_action(c, 0), Action::Teardown, chain);
                lemma_single(fund_action(c, 0), Action::AcquireLock, chain);
                if c == chain {
                    assert(before + seq![0usize] =~= in_order(1));
                }
            }
        },
        Event::Funded(c) => {
            let p = progress(s, c);
            if is_node_phase(s.stage) && p.started && p.funded < IDENTITY_COUNT {
                let n = (p.funded + 1) as usize;
                if n < IDENTITY_COUNT {
                    lemma_single(fund_action(c, n as nat), Action::Teardown, chain);
                    lemma_single(fund_action(c, n as nat), Action::AcquireLock, chain);
                    if c == chain {
                        assert(before + seq![n] =~= in_order((n + 1) as nat));
                    }
                } else if is_done(progress(s, other(c))) {
                    lemma_single(Action::WriteEnvFile, Action::Teardown, chain);
                    lemma_single(Action::WriteEnvFile, Action::AcquireLock, chain);
                }
            }
        },
        Event::EnvFileWritten => {
            if s.stage is EnvFileWriting {
                let y = Action::StartPeer(0);
                let z = Action::StartPeer(1);
                assert(peer_starts() =~= seq![y, z]);
                lemma_pair(y, z, Action::Teardown, chain);
                lemma_pair(y, z, Action::AcquireLock, chain);
                lemma_single(y, Action::Teardown, chain);
                lemma_single(z, Action::Teardown, chain);
                lemma_single(y, Action::AcquireLock, chain);
                lemma_single(z, Action::AcquireLock, chain);
            }
        },
        Event::Tick => {
            lemma_single(Action::GenerateBlock, Action::Teardown, chain);
            lemma_single(Action::GenerateBlock, Action::AcquireLock, chain);
        },
        Event::TeardownDone => {
            lemma_single(Action::Exit(0), Action::Teardown, chain);
            lemma_single(Action::Exit(0), Action::AcquireLock, chain);
            lemma_single(Action::Exit(1), Action::Teardown, chain);
            lemma_single(Action::Exit(1), Action::AcquireLock, chain);
        },
        _ => {
            lemma_single(Action::Teardown, Action::Teardown, chain);
            lemma_single(Action::Teardown, Action::AcquireLock, chain);
            lemma_single(Action::Serve, Action::Teardown, chain);
            lemma_single(Action::Serve, Action::AcquireLock, chain);
        },
    }
}

/// The laws of every run, whatever events arrive and in whatever order:
/// - the state stays well formed;
/// - the run lock is taken at most once; when one was already present at
///   launch, nothing is created and the only action is to exit with status 1;
/// - exactly as many teardown passes are asked for as the state counts, so at
///   most one, and exactly one once shutdown has begun, once a provisioning
///   failure has been acted on, or once a launched run has terminated;
/// - no block production is asked for before provisioning has succeeded,
///   nor ever in a run where provisioning failed;
/// - the funding calls of each node name the identities in generation order,
///   0 before 1, and a call is issued only after the previous one succeeded
///   (at most one beyond the funded identities).
pub proof fn lemma_run_laws(events: Seq<Event>)
    ensures
        run(events).0.wf(),
        occurrences(run(events).1, Action::AcquireLock) == locks_taken(run(events).0),
        occurrences(run(events).1, Action::AcquireLock) <= 1,
        events.len() > 0 && events[0] == (Event::Launch { lock_present: true })
            ==> run(events).1 == seq![Action::Exit(1)] && run(events).0.created.len() == 0,
        occurrences(run(events).1, Action::Teardown) == run(events).0.teardowns,
        occurrences(run(events).1, Action::Teardown) <= 1,
        run(events).0.stage is ShuttingDown ==> occurrences(run(events).1, Action::Teardown) == 1,
        run(events).0.stage is Terminated ==> (occurrences(run(events).1, Action::Teardown) == 1
            <==> run(events).0.created.len() > 0),
        run(events).0.failure is Some && !(run(events).0.stage is PeersStarting)
            ==> occurrences(run(events).1, Action::Teardown) == 1,
        forall|c: Chain| #[trigger] funding_calls(run(events).1, c) == in_order(calls_issued(progress(run(events).0, c))),
        forall|c: Chain| #[trigger] funding_calls(run(events).1, c).len() <= progress(run(events).0, c).funded + 1,
        never_served(run(events).0) ==> occurrences(run(events).1, Action::Serve) == 0
            && occurrences(run(events).1, Action::GenerateBlock) == 0,
    decreases events.len(),
{
    if events.len() == 0 {
        lemma_empty(Action::Teardown, Chain::Bitcoin);
        lemma_empty(Action::AcquireLock, Chain::Bitcoin);
        assert forall|c: Chain| #[trigger] funding_calls(run(events).1, c) == in_order(calls_issued(progress(run(events).0, c))) by {
            assert(in_order(0) =~= Seq::<usize>::empty());
        }
        assert(initial_state().wf());
    } else {
        let prefix = events.drop_last();
        lemma_run_laws(prefix);
        let prev = run(prefix);
        let e = events.last();
        lemma_next_wf(prev.0, e);
        lemma_step(prev.0, e, Chain::Bitcoin);
        lemma_append(prev.1, next(prev.0, e).1, Action::Teardown, Chain::Bitcoin);
        lemma_append(prev.1, next(prev.0, e).1, Action::AcquireLock, Chain::Bitcoin);
        if never_served(run(events).0) {
            lemma_step_unserved(prev.0, e);
            lemma_append(prev.1, next(prev.0, e).1, Action::Serve, Chain::Bitcoin);
            lemma_append(prev.1, next(prev.0, e).1, Action::GenerateBlock, Chain::Bitcoin);
        }
        assert forall|c: Chain| #[trigger] funding_calls(run(events).1, c) == in_order(calls_issued(progress(run(events).0, c))) by {
            lemma_step(prev.0, e, c);
            lemma_append(prev.1, next(prev.0, e).1, Action::Teardown, c);
        }
        if events[0] == (Event::Launch { lock_present: true }) {
            if prefix.len() > 0 {
                assert(prefix[0] == events[0]);
            } else {
                assert(prev.0 == initial_state());
            }
            lemma_refused_stays(prefix);
        }
    }
}

/// Whatever a run has created, whichever events it took, one teardown pass
/// removes: nothing it created is left, from any set of existing resources.
pub proof fn lemma_teardown_removes_created(events: Seq<Event>, world: Set<Resource>)
    ensures
        forall|k: int| 0 <= k < run(events).0.created.len()
            ==> !after_teardown(world).contains(#[trigger] run(events).0.created[k]),
{
    lemma_run_laws(events);
    let s = run(events).0;
    assert forall|k: int| 0 <= k < s.created.len()
        implies !after_teardown(world).contains(#[trigger] s.created[k]) by {
        lemma_teardown_total(world, s.created[k]);
    }
}

/// A run whose launch found the lock present stays terminated and takes no
/// lock.
proof fn lemma_refused_stays(events: Seq<Event>)
    requires
        events.len() > 0 ==> events[0] == (Event::Launch { lock_present: true }),
    ensures
        events.len() > 0 ==> run(events).0.stage is Terminated && run(events).0.created.len() == 0,
        events.len() > 0 ==> occurrences(run(events).1, Action::AcquireLock) == 0,
        events.len() > 0 ==> run(events).1 == seq![Action::Exit(1)],
    decreases events.len(),
{
    if events.len() > 0 {
        let prefix = events.drop_last();
        if prefix.len() > 0 {
            assert(prefix[0] == events[0]);
        }
        lemma_refused_stays(prefix);
        let prev = run(prefix);
        let e = events.last();
        lemma_empty(Action::AcquireLock, Chain::Bitcoin);
        lemma_append(prev.1, next(prev.0, e).1, Action::AcquireLock, Chain::Bitcoin);
        if prefix.len() == 0 {
            assert(e == events[0]);
            lemma_single(Action::Exit(1), Action::AcquireLock, Chain::Bitcoin);
            assert(prev.1 =~= Seq::<Action>::empty());
            assert(run(events).1 =~= seq![Action::Exit(1)]);
        } else {
            assert(run(events).1 =~= prev.1);
        }
    }
}

} // verus!
