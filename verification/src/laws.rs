//! The properties the allocation protocol guarantees, stated and proved
//! over the transition table [`step_of`].

use vstd::prelude::*;

use crate::config::RequestModel;
use crate::path::default_slave_path;
use crate::path::resolved_path;
use crate::protocol::ActionModel;
use crate::protocol::Model;
use crate::protocol::Outcome;
use crate::protocol::Phase;
use crate::protocol::StepModel;
use crate::protocol::init_model;
use crate::protocol::outcome_fits;
use crate::protocol::step_of;

verus! {

/// The descriptors an outcome brings into the machine's responsibility: the
/// one a successful open yielded, nothing otherwise.
pub open spec fn opened_by(o: Outcome) -> Set<i32> {
    match o {
        Outcome::Descriptor(d) => Set::empty().insert(d),
        _ => Set::empty(),
    }
}

/// Pairing atomicity and leak freedom: at every step of the protocol, every
/// descriptor is accounted for.  A continuing step keeps tracking exactly
/// the descriptors held before plus the one an open just yielded; a
/// completing step hands the caller exactly the two distinct descriptors
/// that were opened, and the machine keeps none; a failing step orders
/// closed, without duplication, exactly the descriptors held, and the
/// machine keeps none — so no run can leak a descriptor or return a partial
/// pair.
pub proof fn lemma_pairing_atomicity(m: Model, o: Outcome)
    requires
        m.inv(),
        outcome_fits(m, o),
    ensures
        step_of(m, o).1 is Continue ==> step_of(m, o).0.tracked_fds() =~= m.tracked_fds().union(
            opened_by(o),
        ),
        step_of(m, o).1 matches StepModel::Succeed { master, slave, path } ==> {
            &&& master != slave
            &&& m.tracked_fds().union(opened_by(o)) =~= Set::empty().insert(master).insert(slave)
            &&& step_of(m, o).0.tracked_fds() =~= Set::<i32>::empty()
            &&& step_of(m, o).0.phase == Phase::Complete
        },
        step_of(m, o).1 matches StepModel::Fail { close, error } ==> {
            &&& close.no_duplicates()
            &&& close.to_set() =~= m.tracked_fds()
            &&& opened_by(o) =~= Set::<i32>::empty()
            &&& step_of(m, o).0.tracked_fds() =~= Set::<i32>::empty()
            &&& step_of(m, o).0.phase == Phase::Aborted
        },
{
    if step_of(m, o).1 is Fail {
        let cl = crate::protocol::close_list(m);
        if m.slave is Some && m.master is Some {
            assert(cl =~= seq![m.slave->0, m.master->0]);
            assert(cl.contains(m.slave->0)) by {
                assert(cl[0] == m.slave->0);
            }
            assert(cl.contains(m.master->0)) by {
                assert(cl[1] == m.master->0);
            }
            assert forall|x: i32| cl.contains(x) implies m.tracked_fds().contains(x) by {
                let i = choose|i: int| 0 <= i < cl.len() && cl[i] == x;
                assert(i == 0 || i == 1);
            }
            assert(cl.to_set() =~= m.tracked_fds());
        } else if m.master is Some {
            assert(cl =~= seq![m.master->0]);
            assert(cl.contains(m.master->0)) by {
                assert(cl[0] == m.master->0);
            }
            assert forall|x: i32| cl.contains(x) implies m.tracked_fds().contains(x) by {
                let i = choose|i: int| 0 <= i < cl.len() && cl[i] == x;
                assert(i == 0);
            }
            assert(cl.to_set() =~= m.tracked_fds());
        } else {
            assert(cl =~= Seq::<i32>::empty());
            assert forall|x: i32| !cl.contains(x) by {
                if cl.contains(x) {
                    let i = choose|i: int| 0 <= i < cl.len() && cl[i] == x;
                }
            }
            assert(cl.to_set() =~= m.tracked_fds());
        }
    }
}

/// Path correctness: a completing step reports the caller's override
/// verbatim when one was supplied, and the conventional devpts path for the
/// retrieved slave number otherwise.
pub proof fn lemma_reported_path(m: Model, o: Outcome)
    requires
        m.inv(),
        outcome_fits(m, o),
    ensures
        step_of(m, o).1 matches StepModel::Succeed { path, .. } ==> {
            &&& m.number is Some
            &&& path == resolved_path(m.number->0 as nat, m.req.path_override)
            &&& (m.req.path_override matches Some(p) ==> path == p)
            &&& (m.req.path_override is None ==> path == default_slave_path(m.number->0 as nat))
        },
{
}

/// Override honoured at the open itself: the slave-open operation aims at
/// the caller's override verbatim when one was supplied, and at the
/// conventional devpts path for the retrieved number otherwise — the same
/// path the completing step later reports.
pub proof fn lemma_opened_path(m: Model)
    requires
        m.inv(),
    ensures
        m.phase == Phase::AwaitingSlave ==> {
            &&& m.number is Some
            &&& m.pending_of() == Some(
                ActionModel::OpenSlave {
                    path: resolved_path(m.number->0 as nat, m.req.path_override),
                },
            )
            &&& (m.req.path_override matches Some(p) ==> m.pending_of() == Some(
                ActionModel::OpenSlave { path: p },
            ))
            &&& (m.req.path_override is None ==> m.pending_of() == Some(
                ActionModel::OpenSlave { path: default_slave_path(m.number->0 as nat) },
            ))
        },
{
}

/// Terminal-mode application: the mode-applying operation is pending exactly
/// in the phase reached right after the slave opens when a configuration was
/// supplied, aims at the open slave, and carries the caller's configuration
/// unchanged.  That phase is entered from no other, so the configuration is
/// applied at most once per run, and never when none was supplied.
pub proof fn lemma_modes_application(m: Model, o: Outcome)
    requires
        m.inv(),
        outcome_fits(m, o),
    ensures
        m.phase == Phase::AwaitingModes ==> {
            &&& m.req.termios is Some
            &&& m.slave is Some
            &&& m.pending_of() == Some(
                ActionModel::ApplyModes { slave: m.slave->0, modes: m.req.termios->0 },
            )
        },
        m.pending_of() matches Some(ActionModel::ApplyModes { .. }) ==> m.phase
            == Phase::AwaitingModes,
        step_of(m, o).0.phase == Phase::AwaitingModes ==> {
            &&& m.phase == Phase::AwaitingSlave
            &&& o is Descriptor
            &&& m.req.termios is Some
        },
{
}

/// Window-size application: the size-applying operation is pending exactly
/// in the phase reached once the slave is open and any terminal modes are
/// dealt with, aims at the open slave, and carries the caller's
/// configuration unchanged.  That phase is entered only from the slave-open
/// step (when no modes were supplied) or from the mode-application step, so
/// the size is applied at most once per run, after the modes and never when
/// none was supplied.
pub proof fn lemma_size_application(m: Model, o: Outcome)
    requires
        m.inv(),
        outcome_fits(m, o),
    ensures
        m.phase == Phase::AwaitingSize ==> {
            &&& m.req.winsize is Some
            &&& m.slave is Some
            &&& m.pending_of() == Some(
                ActionModel::ApplySize { slave: m.slave->0, size: m.req.winsize->0 },
            )
        },
        m.pending_of() matches Some(ActionModel::ApplySize { .. }) ==> m.phase
            == Phase::AwaitingSize,
        step_of(m, o).0.phase == Phase::AwaitingSize ==> {
            &&& m.req.winsize is Some
            &&& (m.phase == Phase::AwaitingSlave || m.phase == Phase::AwaitingModes)
            &&& (m.phase == Phase::AwaitingSlave ==> m.req.termios is None && o is Descriptor)
        },
{
}

/// The invariant holds of a freshly started allocation, whatever the
/// request.
pub proof fn lemma_init_invariant(req: RequestModel)
    ensures
        init_model(req).inv(),
{
}

/// The invariant is preserved by every fitting step, so together with
/// [`lemma_init_invariant`] the laws above apply along every run of the
/// protocol.
pub proof fn lemma_step_preserves_invariant(m: Model, o: Outcome)
    requires
        m.inv(),
        outcome_fits(m, o),
    ensures
        step_of(m, o).0.inv(),
{
}

/// The machine's state after feeding it the outcomes in `outs`, in order.
pub open spec fn run_model(m: Model, outs: Seq<Outcome>) -> Model
    decreases outs.len(),
{
    if outs.len() == 0 {
        m
    } else {
        run_model(step_of(m, outs[0]).0, outs.drop_first())
    }
}

/// Whether each outcome in `outs` fits the state it is fed to.  A terminal
/// state fits no outcome, so a fitting run stops at the first completing or
/// failing step.
pub open spec fn run_fits(m: Model, outs: Seq<Outcome>) -> bool
    decreases outs.len(),
{
    outs.len() == 0 || (outcome_fits(m, outs[0]) && run_fits(
        step_of(m, outs[0]).0,
        outs.drop_first(),
    ))
}

/// The descriptors one step gives up responsibility for: the pair handed to
/// the caller on completion, the descriptors ordered closed on failure.
pub open spec fn step_released(st: StepModel) -> Set<i32> {
    match st {
        StepModel::Continue => Set::empty(),
        StepModel::Succeed { master, slave, .. } => Set::empty().insert(master).insert(slave),
        StepModel::Fail { close, .. } => close.to_set(),
    }
}

/// The descriptors given up over a whole run.
pub open spec fn run_released(m: Model, outs: Seq<Outcome>) -> Set<i32>
    decreases outs.len(),
{
    if outs.len() == 0 {
        Set::empty()
    } else {
        step_released(step_of(m, outs[0]).1).union(
            run_released(step_of(m, outs[0]).0, outs.drop_first()),
        )
    }
}

/// The descriptors the outcomes of a run brought in.
pub open spec fn run_opened(outs: Seq<Outcome>) -> Set<i32>
    decreases outs.len(),
{
    if outs.len() == 0 {
        Set::empty()
    } else {
        opened_by(outs[0]).union(run_opened(outs.drop_first()))
    }
}

/// Leak freedom over whole runs: after any fitting run, the descriptors the
/// machine still tracks together with those it gave up — handed to the
/// caller or ordered closed — are exactly those it tracked at the start
/// together with every descriptor the kernel handed out along the way.  In
/// particular, once a run ends in a terminal phase, everything that was ever
/// opened has been given up, one way or the other: nothing leaks.
pub proof fn lemma_run_conservation(m: Model, outs: Seq<Outcome>)
    requires
        m.inv(),
        run_fits(m, outs),
    ensures
        run_model(m, outs).inv(),
        run_model(m, outs).tracked_fds().union(run_released(m, outs)) =~= m.tracked_fds().union(
            run_opened(outs),
        ),
        run_model(m, outs).phase == Phase::Complete || run_model(m, outs).phase == Phase::Aborted
            ==> run_released(m, outs) =~= m.tracked_fds().union(run_opened(outs)),
    decreases outs.len(),
{
    if outs.len() > 0 {
        let o = outs[0];
        let next = step_of(m, o).0;
        let st = step_of(m, o).1;
        let rest = outs.drop_first();
        lemma_pairing_atomicity(m, o);
        lemma_step_preserves_invariant(m, o);
        lemma_run_conservation(next, rest);
        assert(next.tracked_fds().union(step_released(st)) =~= m.tracked_fds().union(
            opened_by(o),
        ));
        assert(run_model(m, outs) == run_model(next, rest));
        assert(run_released(m, outs) =~= step_released(st).union(run_released(next, rest)));
        assert(run_opened(outs) =~= opened_by(o).union(run_opened(rest)));
        assert(run_model(next, rest).tracked_fds().union(run_released(next, rest))
            =~= next.tracked_fds().union(run_opened(rest)));
        assert forall|x: i32|
            run_model(m, outs).tracked_fds().union(run_released(m, outs)).contains(x)
                <==> m.tracked_fds().union(run_opened(outs)).contains(x) by {
            assert(run_model(m, outs).tracked_fds().union(run_released(m, outs)).contains(x)
                <==> (run_model(next, rest).tracked_fds().union(
                run_released(next, rest),
            ).contains(x) || step_released(st).contains(x)));
            assert((next.tracked_fds().union(run_opened(rest)).contains(x) || step_released(
                st,
            ).contains(x)) <==> (next.tracked_fds().union(step_released(st)).contains(x)
                || run_opened(rest).contains(x)));
        }
        assert(run_model(m, outs).tracked_fds().union(run_released(m, outs))
            =~= m.tracked_fds().union(run_opened(outs)));
    }
}

/// The whole pipeline on a run where every kernel operation succeeds: the
/// operations are performed in protocol order — open the multiplexer,
/// unlock it, retrieve the slave number, open the slave at the resolved
/// path, then apply exactly the supplied configurations, modes before size —
/// and the run completes with the two descriptors the kernel handed out and
/// the resolved path.
pub proof fn lemma_successful_run(req: RequestModel, mfd: i32, n: u32, sfd: i32)
    requires
        mfd >= 0,
        sfd >= 0,
        sfd != mfd,
    ensures
        ({
            let m0 = init_model(req);
            let m1 = step_of(m0, Outcome::Descriptor(mfd)).0;
            let m2 = step_of(m1, Outcome::Succeeded).0;
            let m3 = step_of(m2, Outcome::Number(n)).0;
            let m4 = step_of(m3, Outcome::Descriptor(sfd)).0;
            let done = StepModel::Succeed {
                master: mfd,
                slave: sfd,
                path: resolved_path(n as nat, req.path_override),
            };
            &&& m0.pending_of() == Some(ActionModel::OpenMultiplexer)
            &&& m1.pending_of() == Some(ActionModel::UnlockMaster { master: mfd })
            &&& m2.pending_of() == Some(ActionModel::RetrieveNumber { master: mfd })
            &&& m3.pending_of() == Some(
                ActionModel::OpenSlave { path: resolved_path(n as nat, req.path_override) },
            )
            &&& match (req.termios, req.winsize) {
                (None, None) => step_of(m3, Outcome::Descriptor(sfd)).1 == done,
                (Some(t), None) => {
                    &&& m4.pending_of() == Some(ActionModel::ApplyModes { slave: sfd, modes: t })
                    &&& step_of(m4, Outcome::Succeeded).1 == done
                },
                (None, Some(w)) => {
                    &&& m4.pending_of() == Some(ActionModel::ApplySize { slave: sfd, size: w })
                    &&& step_of(m4, Outcome::Succeeded).1 == done
                },
                (Some(t), Some(w)) => {
                    &&& m4.pending_of() == Some(ActionModel::ApplyModes { slave: sfd, modes: t })
                    &&& step_of(m4, Outcome::Succeeded).0.pending_of() == Some(
                        ActionModel::ApplySize { slave: sfd, size: w },
                    )
                    &&& step_of(step_of(m4, Outcome::Succeeded).0, Outcome::Succeeded).1 == done
                },
            }
        }),
{
}

} // verus!
