//! An ephemeral instance as an ownership-scoped value.
//!
//! A `Container` value stands for an instance that was successfully launched
//! and had its network probe pass. Its qualified name is fixed at creation
//! and never changes. Teardown is an explicit, consuming operation whose
//! failure is deliberately discarded, and it is only permitted once every
//! snapshot taken from the container has been released: the container keeps
//! a registry count of live snapshot handles.

use vstd::prelude::*;

use crate::cmd::{judged_run, outcome_of, run_checked, CmdOutcome, Executor, FetchOutcome};
use crate::commands;
use crate::error::LxdError;
use crate::location::{qualify_spec, Location};
use crate::snapshot::Snapshot;

verus! {

/// An ephemeral instance, addressed by its qualified name.
#[derive(Debug)]
pub struct Container {
    name: String,
    live_snapshots: u64,
}

/// A stop request is only permitted once no snapshot handle is alive.
pub open spec fn stop_permitted(c: Container) -> bool {
    c.snapshot_count() == 0
}

/// Law: a container with a live snapshot handle admits no stop request.
/// Together with the contract of snapshot release — which issues the
/// snapshot's delete invocation and is the one operation that lowers the
/// count — every snapshot's delete request precedes the container's stop
/// request.
pub proof fn lemma_live_snapshots_block_stop(c: Container)
    ensures
        c.snapshot_count() > 0 ==> !stop_permitted(c),
{
}

impl Container {
    /// The qualified name the instance is addressed by.
    pub closed spec fn name_spec(&self) -> Seq<char> {
        self.name@
    }

    /// How many snapshot handles derived from this container are alive.
    pub closed spec fn snapshot_count(&self) -> nat {
        self.live_snapshots as nat
    }

    /// Create a new ephemeral instance: launch it from `base` under the
    /// qualified form of `name`, then probe its network until an address is
    /// assigned. Both invocations must succeed; on failure the error is
    /// surfaced and no handle exists — though the instance itself may have
    /// been created when the launch succeeded and only the probe failed.
    pub fn new<F, G>(
        ex: &mut Executor<F, G>,
        location: Location,
        name: &str,
        base: &str,
    ) -> (r: Result<Container, LxdError>) where
        F: Fn(Vec<String>) -> CmdOutcome,
        G: Fn(Vec<String>) -> FetchOutcome,

        requires
            old(ex).wf(),
        ensures
            final(ex).wf(),
            final(ex).runner_spec() == old(ex).runner_spec(),
            final(ex).fetcher_spec() == old(ex).fetcher_spec(),
            ({
                let q = qualify_spec(location, name@);
                let launched = old(ex).log_view().push(commands::launch_cmd(base@, q));
                let probed = launched.push(commands::probe_cmd(q));
                match r {
                    Ok(c) => {
                        &&& c.name_spec() == q
                        &&& c.snapshot_count() == 0
                        &&& final(ex).log_view() == probed
                        &&& judged_run(old(ex).runner_spec(), commands::launch_cmd(base@, q), Ok(()))
                        &&& judged_run(old(ex).runner_spec(), commands::probe_cmd(q), Ok(()))
                    },
                    Err(e) => {
                        &&& e.is_run_failure()
                        &&& (final(ex).log_view() == launched || final(ex).log_view() == probed)
                        &&& (final(ex).log_view() == launched ==> judged_run(
                            old(ex).runner_spec(),
                            commands::launch_cmd(base@, q),
                            Err(e),
                        ))
                        &&& (final(ex).log_view() == probed ==> judged_run(
                            old(ex).runner_spec(),
                            commands::launch_cmd(base@, q),
                            Ok(()),
                        ) && judged_run(old(ex).runner_spec(), commands::probe_cmd(q), Err(e)))
                    },
                }
            }),
    {
        let ghost q = qualify_spec(location, name@);
        let ghost launched = old(ex).log_view().push(commands::launch_cmd(base@, q));
        let ghost probed = launched.push(commands::probe_cmd(q));
        proof {
            assert(launched.len() == old(ex).log_view().len() + 1);
            assert(probed.len() == launched.len() + 1);
        }
        let full_name = location.qualify(name);
        let args = commands::launch_args(base, full_name.as_str());
        match run_checked(ex, args) {
            Ok(()) => {},
            Err(e) => {
                return Err(e);
            },
        }
        let args = commands::probe_args(full_name.as_str());
        match run_checked(ex, args) {
            Ok(()) => {},
            Err(e) => {
                return Err(e);
            },
        }
        Ok(Container { name: full_name, live_snapshots: 0 })
    }

    /// The full (qualified) name of the container.
    pub fn name(&self) -> (r: &str)
        ensures
            r@ == self.name_spec(),
    {
        self.name.as_str()
    }

    /// Create a snapshot of this container under `name`.
    pub fn snapshot<F, G>(&mut self, ex: &mut Executor<F, G>, name: &str) -> (r: Result<
        Snapshot,
        LxdError,
    >) where
        F: Fn(Vec<String>) -> CmdOutcome,
        G: Fn(Vec<String>) -> FetchOutcome,

        requires
            old(ex).wf(),
            old(self).snapshot_count() < u64::MAX,
        ensures
            final(ex).wf(),
            final(ex).runner_spec() == old(ex).runner_spec(),
            final(ex).fetcher_spec() == old(ex).fetcher_spec(),
            final(self).name_spec() == old(self).name_spec(),
            final(ex).log_view() == old(ex).log_view().push(
                commands::snapshot_cmd(old(self).name_spec(), name@),
            ),
            judged_run(old(ex).runner_spec(), commands::snapshot_cmd(old(self).name_spec(), name@), outcome_of(r)),
            match r {
                Ok(s) => {
                    &&& s.name_spec() == old(self).name_spec() + "/"@ + name@
                    &&& s.parent_spec() == old(self).name_spec()
                    &&& final(self).snapshot_count() == old(self).snapshot_count() + 1
                },
                Err(e) => {
                    &&& e.is_run_failure()
                    &&& final(self).snapshot_count() == old(self).snapshot_count()
                    &&& (e matches LxdError::CommandFailure { args: a, .. } ==> a.deep_view()
                        == commands::snapshot_cmd(old(self).name_spec(), name@))
                },
            },
    {
        Snapshot::new(ex, self, name)
    }

    /// Run a command inside the instance, non-interactively. Success or
    /// failure is judged by exit status alone; no output is captured.
    pub fn exec<F, G>(&mut self, ex: &mut Executor<F, G>, command: &[&str]) -> (r: Result<
        (),
        LxdError,
    >) where
        F: Fn(Vec<String>) -> CmdOutcome,
        G: Fn(Vec<String>) -> FetchOutcome,

        requires
            old(ex).wf(),
        ensures
            final(ex).wf(),
            final(ex).runner_spec() == old(ex).runner_spec(),
            final(ex).fetcher_spec() == old(ex).fetcher_spec(),
            final(self).name_spec() == old(self).name_spec(),
            final(self).snapshot_count() == old(self).snapshot_count(),
            final(ex).log_view() == old(ex).log_view().push(
                commands::exec_cmd(old(self).name_spec(), command.deep_view()),
            ),
            judged_run(old(ex).runner_spec(), commands::exec_cmd(old(self).name_spec(), command.deep_view()), r),
            r matches Err(e) ==> e.is_run_failure(),
            r matches Err(LxdError::CommandFailure { args: a, .. }) ==> a.deep_view()
                == commands::exec_cmd(old(self).name_spec(), command.deep_view()),
    {
        let args = commands::exec_args(self.name.as_str(), command);
        run_checked(ex, args)
    }

    /// Attach a host directory as a disk device named `name`, visible inside
    /// the instance at `dest`. The device name must be unique among the
    /// instance's devices; the external tool judges that.
    pub fn mount<F, G>(
        &mut self,
        ex: &mut Executor<F, G>,
        name: &str,
        source: &str,
        dest: &str,
    ) -> (r: Result<(), LxdError>) where
        F: Fn(Vec<String>) -> CmdOutcome,
        G: Fn(Vec<String>) -> FetchOutcome,

        requires
            old(ex).wf(),
        ensures
            final(ex).wf(),
            final(ex).runner_spec() == old(ex).runner_spec(),
            final(ex).fetcher_spec() == old(ex).fetcher_spec(),
            final(self).name_spec() == old(self).name_spec(),
            final(self).snapshot_count() == old(self).snapshot_count(),
            final(ex).log_view() == old(ex).log_view().push(
                commands::mount_cmd(old(self).name_spec(), name@, source@, dest@),
            ),
            judged_run(old(ex).runner_spec(), commands::mount_cmd(old(self).name_spec(), name@, source@, dest@), r),
            r matches Err(e) ==> e.is_run_failure(),
            r matches Err(LxdError::CommandFailure { args: a, .. }) ==> a.deep_view()
                == commands::mount_cmd(old(self).name_spec(), name@, source@, dest@),
    {
        let args = commands::mount_args(self.name.as_str(), name, source, dest);
        run_checked(ex, args)
    }

    /// Transfer a host file (or, with `recursive`, a directory tree) into
    /// the instance at `dest`.
    pub fn push<F, G>(
        &mut self,
        ex: &mut Executor<F, G>,
        source: &str,
        dest: &str,
        recursive: bool,
    ) -> (r: Result<(), LxdError>) where
        F: Fn(Vec<String>) -> CmdOutcome,
        G: Fn(Vec<String>) -> FetchOutcome,

        requires
            old(ex).wf(),
        ensures
            final(ex).wf(),
            final(ex).runner_spec() == old(ex).runner_spec(),
            final(ex).fetcher_spec() == old(ex).fetcher_spec(),
            final(self).name_spec() == old(self).name_spec(),
            final(self).snapshot_count() == old(self).snapshot_count(),
            final(ex).log_view() == old(ex).log_view().push(
                commands::push_cmd(old(self).name_spec(), source@, dest@, recursive),
            ),
            judged_run(old(ex).runner_spec(), commands::push_cmd(old(self).name_spec(), source@, dest@, recursive), r),
            r matches Err(e) ==> e.is_run_failure(),
            r matches Err(LxdError::CommandFailure { args: a, .. }) ==> a.deep_view()
                == commands::push_cmd(old(self).name_spec(), source@, dest@, recursive),
    {
        let args = commands::push_args(self.name.as_str(), source, dest, recursive);
        run_checked(ex, args)
    }

    /// Transfer a file (or, with `recursive`, a directory tree) out of the
    /// instance to `dest` on the host.
    pub fn pull<F, G>(
        &mut self,
        ex: &mut Executor<F, G>,
        source: &str,
        dest: &str,
        recursive: bool,
    ) -> (r: Result<(), LxdError>) where
        F: Fn(Vec<String>) -> CmdOutcome,
        G: Fn(Vec<String>) -> FetchOutcome,

        requires
            old(ex).wf(),
        ensures
            final(ex).wf(),
            final(ex).runner_spec() == old(ex).runner_spec(),
            final(ex).fetcher_spec() == old(ex).fetcher_spec(),
            final(self).name_spec() == old(self).name_spec(),
            final(self).snapshot_count() == old(self).snapshot_count(),
            final(ex).log_view() == old(ex).log_view().push(
                commands::pull_cmd(old(self).name_spec(), source@, dest@, recursive),
            ),
            judged_run(old(ex).runner_spec(), commands::pull_cmd(old(self).name_spec(), source@, dest@, recursive), r),
            r matches Err(e) ==> e.is_run_failure(),
            r matches Err(LxdError::CommandFailure { args: a, .. }) ==> a.deep_view()
                == commands::pull_cmd(old(self).name_spec(), source@, dest@, recursive),
    {
        let args = commands::pull_args(self.name.as_str(), source, dest, recursive);
        run_checked(ex, args)
    }

    /// Tear the instance down: issue exactly one stop request for its
    /// qualified name — which, the instance being ephemeral, also deletes it
    /// — and consume the handle, so no further operation can address it.
    /// The request's outcome is deliberately discarded: teardown is
    /// best-effort and must never fail its caller.
    pub fn stop<F, G>(self, ex: &mut Executor<F, G>) where
        F: Fn(Vec<String>) -> CmdOutcome,
        G: Fn(Vec<String>) -> FetchOutcome,

        requires
            old(ex).wf(),
            stop_permitted(self),
        ensures
            final(ex).wf(),
            final(ex).runner_spec() == old(ex).runner_spec(),
            final(ex).fetcher_spec() == old(ex).fetcher_spec(),
            final(ex).log_view() == old(ex).log_view().push(
                commands::stop_cmd(self.name_spec()),
            ),
    {
        let args = commands::stop_args(self.name.as_str());
        let _ = ex.run(args);
    }

    /// Tear down the container together with all `n` of its outstanding
    /// snapshot handles, in scope-exit order.
    ///
    /// Law: every snapshot's delete request — one per handle, each under its
    /// own qualified snapshot name, in the order given — is issued strictly
    /// before the container's one stop request, which comes last; the
    /// container is never torn down while any snapshot handle is alive.
    /// Each request's outcome is discarded: teardown is best-effort.
    pub fn teardown<F, G>(self, ex: &mut Executor<F, G>, snapshots: Vec<Snapshot>) where
        F: Fn(Vec<String>) -> CmdOutcome,
        G: Fn(Vec<String>) -> FetchOutcome,

        requires
            old(ex).wf(),
            forall|i: int| 0 <= i < snapshots@.len() ==> (#[trigger] snapshots@[i]).parent_spec()
                == self.name_spec(),
            self.snapshot_count() == snapshots@.len(),
        ensures
            final(ex).wf(),
            final(ex).runner_spec() == old(ex).runner_spec(),
            final(ex).fetcher_spec() == old(ex).fetcher_spec(),
            final(ex).log_view() == old(ex).log_view() + Seq::new(
                snapshots@.len(),
                |i: int| commands::delete_cmd(snapshots@[i].name_spec()),
            ) + seq![commands::stop_cmd(self.name_spec())],
    {
        let ghost all = snapshots@;
        let ghost cname = self.name_spec();
        let ghost base = old(ex).log_view();
        let mut c = self;
        let mut snaps = snapshots;
        let total: usize = snaps.len();
        let mut k: usize = 0;
        proof {
            assert(all.len() == total);
            assert(snaps@ =~= all.skip(0));
            assert(ex.log_view() =~= base + Seq::new(
                0,
                |i: int| commands::delete_cmd(all[i].name_spec()),
            ));
        }
        while snaps.len() > 0
            invariant
                ex.wf(),
                ex.runner_spec() == old(ex).runner_spec(),
                ex.fetcher_spec() == old(ex).fetcher_spec(),
                all.len() == total,
                k + snaps@.len() == all.len(),
                snaps@ == all.skip(k as int),
                c.name_spec() == cname,
                c.snapshot_count() == snaps@.len(),
                ex.log_view() == base + Seq::new(
                    k as nat,
                    |i: int| commands::delete_cmd(all[i].name_spec()),
                ),
                forall|i: int| 0 <= i < all.len() ==> (#[trigger] all[i]).parent_spec() == cname,
            decreases snaps@.len(),
        {
            let s = snaps.remove(0);
            proof {
                assert(s == all[k as int]);
            }
            s.release(ex, &mut c);
            proof {
                assert(snaps@ =~= all.skip(k + 1 as int));
                assert(ex.log_view() =~= base + Seq::new(
                    (k + 1) as nat,
                    |i: int| commands::delete_cmd(all[i].name_spec()),
                ));
            }
            k += 1;
        }
        c.stop(ex);
        proof {
            assert(final(ex).log_view() =~= base + Seq::new(
                all.len(),
                |i: int| commands::delete_cmd(all[i].name_spec()),
            ) + seq![commands::stop_cmd(cname)]);
        }
    }

    /// How many snapshot handles are registered with this container right
    /// now; its stop request is only permitted at zero.
    pub fn live_snapshots(&self) -> (n: u64)
        ensures
            n as nat == self.snapshot_count(),
    {
        self.live_snapshots
    }

    /// Note one more live snapshot handle.
    pub(crate) fn register_snapshot(&mut self)
        requires
            old(self).snapshot_count() < u64::MAX,
        ensures
            final(self).name_spec() == old(self).name_spec(),
            final(self).snapshot_count() == old(self).snapshot_count() + 1,
    {
        self.live_snapshots = self.live_snapshots + 1;
    }

    /// Note that one snapshot handle was released.
    pub(crate) fn unregister_snapshot(&mut self)
        requires
            old(self).snapshot_count() > 0,
        ensures
            final(self).name_spec() == old(self).name_spec(),
            final(self).snapshot_count() == old(self).snapshot_count() - 1,
    {
        self.live_snapshots = self.live_snapshots - 1;
    }
}

} // verus!
