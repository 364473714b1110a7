//! What holds over whole calls of "ensure ready" and over runs of them.
//!
//! A call is `begin`, then `port_found` if asked, then `spawned` if asked.
//! The host holds the manager's lock for the whole call, so calls that
//! callers issue at the same time take effect one after another: a run of
//! sequential calls covers them too.

use vstd::prelude::*;
use crate::endpoint::{decimal, development_endpoint, digit_char, endpoint_text, loopback_prefix};
use crate::sidecar::{begin_model, port_model, reply_of, spawn_model, InfoModel, Mode, Phase, StepModel};

verus! {

/// What the outside world answers during one call: the outcome of port
/// discovery and the outcome of the spawn, each used only if asked for.
pub struct Answers {
    pub port: Result<u16, Seq<char>>,
    pub started: Result<(), Seq<char>>,
}

/// The effect of one call: the phase after it, the answer it gives, and how
/// many ports it bound and processes it spawned.
pub struct CallModel {
    pub phase: Phase,
    pub info: InfoModel,
    pub binds: nat,
    pub spawns: nat,
}

/// The effect of a run of calls: the phase after the last, each call's
/// answer in order, and the ports bound and processes spawned in all.
pub struct RunModel {
    pub phase: Phase,
    pub infos: Seq<InfoModel>,
    pub binds: nat,
    pub spawns: nat,
}

pub open spec fn call_model(mode: Mode, p: Phase, a: Answers) -> CallModel {
    let (p1, s1) = begin_model(mode, p);
    match s1 {
        StepModel::Reply(i) => CallModel { phase: p1, info: i, binds: 0, spawns: 0 },
        _ => {
            let (p2, s2) = port_model(a.port);
            match s2 {
                StepModel::Spawn(port) => {
                    let p3 = spawn_model(port, a.started);
                    CallModel { phase: p3, info: reply_of(p3), binds: 1, spawns: 1 }
                },
                StepModel::Reply(i) => CallModel { phase: p2, info: i, binds: 1, spawns: 0 },
                StepModel::FindPort => CallModel { phase: p2, info: reply_of(p2), binds: 1, spawns: 0 },
            }
        },
    }
}

pub open spec fn run_model(mode: Mode, p: Phase, world: Seq<Answers>) -> RunModel
    decreases world.len(),
{
    if world.len() == 0 {
        RunModel { phase: p, infos: seq![], binds: 0, spawns: 0 }
    } else {
        let c = call_model(mode, p, world[0]);
        let rest = run_model(mode, c.phase, world.drop_first());
        RunModel {
            phase: rest.phase,
            infos: seq![c.info] + rest.infos,
            binds: c.binds + rest.binds,
            spawns: c.spawns + rest.spawns,
        }
    }
}

/// Once the attempt has settled, every later call keeps it as it is, gives
/// its answer, and neither binds a port nor spawns a process.
pub proof fn lemma_settled_is_stable(mode: Mode, p: Phase, world: Seq<Answers>)
    requires
        !(p is Unresolved),
    ensures
        run_model(mode, p, world).phase == p,
        run_model(mode, p, world).infos.len() == world.len(),
        forall|i: int| 0 <= i < world.len() ==> run_model(mode, p, world).infos[i] == reply_of(p),
        run_model(mode, p, world).binds == 0,
        run_model(mode, p, world).spawns == 0,
    decreases world.len(),
{
    if world.len() > 0 {
        lemma_settled_is_stable(mode, p, world.drop_first());
        let r = run_model(mode, p, world);
        let rest = run_model(mode, p, world.drop_first());
        assert forall|i: int| 0 <= i < world.len() implies r.infos[i] == reply_of(p) by {
            if i > 0 {
                assert(r.infos[i] == rest.infos[i - 1]);
            }
        }
    }
}

/// A run of one or more calls: the first settles the attempt, and every
/// call answers what the first did; only the first binds or spawns.
proof fn lemma_first_call_decides(mode: Mode, world: Seq<Answers>)
    requires
        world.len() >= 1,
    ensures
        ({
            let first = call_model(mode, Phase::Unresolved, world[0]);
            let r = run_model(mode, Phase::Unresolved, world);
            &&& !(first.phase is Unresolved)
            &&& first.info == reply_of(first.phase)
            &&& r.phase == first.phase
            &&& r.infos.len() == world.len()
            &&& forall|i: int| 0 <= i < world.len() ==> r.infos[i] == first.info
            &&& r.binds == first.binds
            &&& r.spawns == first.spawns
        }),
{
    let first = call_model(mode, Phase::Unresolved, world[0]);
    lemma_settled_is_stable(mode, first.phase, world.drop_first());
    let r = run_model(mode, Phase::Unresolved, world);
    let rest = run_model(mode, first.phase, world.drop_first());
    assert forall|i: int| 0 <= i < world.len() implies r.infos[i] == first.info by {
        if i > 0 {
            assert(r.infos[i] == rest.infos[i - 1]);
        }
    }
}

/// Any number of calls in development mode give the same answer each time,
/// and none of them binds a port or spawns a process.
pub proof fn lemma_development_idempotent(p: Phase, world: Seq<Answers>)
    requires
        world.len() >= 1,
    ensures
        forall|i: int|
            0 <= i < world.len() ==> #[trigger] run_model(Mode::Development, p, world).infos[i]
                == run_model(Mode::Development, p, world).infos[0],
        run_model(Mode::Development, p, world).binds == 0,
        run_model(Mode::Development, p, world).spawns == 0,
{
    match p {
        Phase::Unresolved => lemma_first_call_decides(Mode::Development, world),
        _ => lemma_settled_is_stable(Mode::Development, p, world),
    }
}

/// In development mode no call spawns a process, and every call answers
/// with the fixed endpoint `http://127.0.0.1:1720`.
pub proof fn lemma_development_shortcut(world: Seq<Answers>)
    ensures
        run_model(Mode::Development, Phase::Unresolved, world).spawns == 0,
        forall|i: int|
            0 <= i < world.len() ==> #[trigger] run_model(Mode::Development, Phase::Unresolved, world).infos[i]
                == (InfoModel { available: true, url: Some(development_endpoint()), error: None }),
        development_endpoint() == loopback_prefix() + seq!['1', '7', '2', '0'],
{
    if world.len() >= 1 {
        lemma_first_call_decides(Mode::Development, world);
    }
    reveal_with_fuel(decimal, 5);
    assert(decimal(1720) =~= seq!['1', '7', '2', '0']);
}

/// However many calls there are in production mode, exactly one binds a
/// port, at most one spawns (exactly one when a port was found), and all
/// callers get the same answer.
pub proof fn lemma_single_spawn(world: Seq<Answers>)
    requires
        world.len() >= 1,
    ensures
        run_model(Mode::Production, Phase::Unresolved, world).binds == 1,
        run_model(Mode::Production, Phase::Unresolved, world).spawns == (if world[0].port is Ok {
            1nat
        } else {
            0nat
        }),
        forall|i: int|
            0 <= i < world.len() ==> #[trigger] run_model(Mode::Production, Phase::Unresolved, world).infos[i]
                == run_model(Mode::Production, Phase::Unresolved, world).infos[0],
{
    lemma_first_call_decides(Mode::Production, world);
}

/// When the first production call fails, in port discovery or in the spawn,
/// every later call gives the same failure, and no later call binds or
/// spawns.
pub proof fn lemma_failure_is_sticky(world: Seq<Answers>)
    requires
        world.len() >= 1,
        world[0].port is Err || world[0].started is Err,
    ensures
        ({
            let first = call_model(Mode::Production, Phase::Unresolved, world[0]);
            let r = run_model(Mode::Production, Phase::Unresolved, world);
            &&& first.phase is Failed
            &&& !first.info.available
            &&& first.info.url is None
            &&& first.info.error == Some(first.phase->Failed_0)
            &&& forall|i: int| 0 <= i < world.len() ==> r.infos[i] == first.info
            &&& r.binds == first.binds
            &&& r.spawns == first.spawns
        }),
{
    lemma_first_call_decides(Mode::Production, world);
}

/// A production call that finds port `port` and starts the sidecar answers
/// with exactly `http://127.0.0.1:<port>`.
pub proof fn lemma_production_endpoint(port: u16, world: Seq<Answers>)
    requires
        world.len() >= 1,
        world[0].port == Ok::<u16, Seq<char>>(port),
        world[0].started is Ok,
    ensures
        run_model(Mode::Production, Phase::Unresolved, world).infos[0] == (InfoModel {
            available: true,
            url: Some(loopback_prefix() + decimal(port as nat)),
            error: None,
        }),
{
}

proof fn lemma_digit_char_injective(a: nat, b: nat)
    requires
        a < 10,
        b < 10,
        digit_char(a) == digit_char(b),
    ensures
        a == b,
{
    let digits = seq!['0', '1', '2', '3', '4', '5', '6', '7', '8', '9'];
    assert(digits[0] == '0' && digits[1] == '1' && digits[2] == '2' && digits[3] == '3' && digits[4]
        == '4' && digits[5] == '5' && digits[6] == '6' && digits[7] == '7' && digits[8] == '8'
        && digits[9] == '9');
}

proof fn lemma_decimal_shape(n: nat)
    ensures
        decimal(n).len() >= 1,
        (decimal(n).len() == 1) == (n < 10),
        decimal(n).last() == digit_char(n % 10),
        n >= 10 ==> decimal(n).drop_last() == decimal(n / 10),
    decreases n,
{
    if n >= 10 {
        lemma_decimal_shape(n / 10);
        assert(decimal(n).drop_last() =~= decimal(n / 10));
    }
}

/// Distinct numbers have distinct decimal texts.
pub proof fn lemma_decimal_injective(n: nat, m: nat)
    requires
        decimal(n) == decimal(m),
    ensures
        n == m,
    decreases n,
{
    lemma_decimal_shape(n);
    lemma_decimal_shape(m);
    lemma_digit_char_injective(n % 10, m % 10);
    if n >= 10 {
        lemma_decimal_injective(n / 10, m / 10);
    }
}

/// Bootstraps that were assigned different ports answer with different
/// endpoints; that the operating system assigns different ports to separate
/// runs is its own affair.
pub proof fn lemma_endpoint_injective(p: u16, q: u16)
    requires
        p != q,
    ensures
        endpoint_text(p) != endpoint_text(q),
{
    if endpoint_text(p) == endpoint_text(q) {
        let k = loopback_prefix().len() as int;
        assert(decimal(p as nat) =~= endpoint_text(p).subrange(k, endpoint_text(p).len() as int));
        assert(decimal(q as nat) =~= endpoint_text(q).subrange(k, endpoint_text(q).len() as int));
        lemma_decimal_injective(p as nat, q as nat);
    }
}

} // verus!
