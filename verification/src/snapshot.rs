//! A point-in-time capture of a container, as an ownership-scoped value.
//!
//! A snapshot's qualified name — `<container-qualified-name>/<snapshot-name>`
//! — is computed once at creation and never recomputed. While the handle is
//! alive it is registered with its parent container, and the parent admits
//! no stop request until every registered handle has been released; release
//! issues the snapshot's delete request, best-effort.

use vstd::prelude::*;
use vstd::string::*;

use crate::cmd::{judged_run, outcome_of, run_checked, CmdOutcome, Executor, FetchOutcome};
use crate::commands;
use crate::container::Container;
use crate::error::LxdError;

verus! {

/// A live snapshot of a container.
#[derive(Debug)]
pub struct Snapshot {
    name: String,
    parent: String,
}

impl Snapshot {
    /// The qualified snapshot name, `<parent>/<snapshot-name>`.
    pub closed spec fn name_spec(&self) -> Seq<char> {
        self.name@
    }

    /// The qualified name of the parent container.
    pub closed spec fn parent_spec(&self) -> Seq<char> {
        self.parent@
    }

    /// Capture `container` under `name`: issue the snapshot invocation and,
    /// on success, hand back a handle registered with the parent.
    pub fn new<F, G>(ex: &mut Executor<F, G>, container: &mut Container, name: &str) -> (r: Result<
        Snapshot,
        LxdError,
    >) where
        F: Fn(Vec<String>) -> CmdOutcome,
        G: Fn(Vec<String>) -> FetchOutcome,

        requires
            old(ex).wf(),
            old(container).snapshot_count() < u64::MAX,
        ensures
            final(ex).wf(),
            final(ex).runner_spec() == old(ex).runner_spec(),
            final(ex).fetcher_spec() == old(ex).fetcher_spec(),
            final(container).name_spec() == old(container).name_spec(),
            final(ex).log_view() == old(ex).log_view().push(
                commands::snapshot_cmd(old(container).name_spec(), name@),
            ),
            judged_run(
                old(ex).runner_spec(),
                commands::snapshot_cmd(old(container).name_spec(), name@),
                outcome_of(r),
            ),
            match r {
                Ok(s) => {
                    &&& s.name_spec() == old(container).name_spec() + "/"@ + name@
                    &&& s.parent_spec() == old(container).name_spec()
                    &&& final(container).snapshot_count() == old(container).snapshot_count() + 1
                },
                Err(e) => {
                    &&& e.is_run_failure()
                    &&& final(container).snapshot_count() == old(container).snapshot_count()
                    &&& (e matches LxdError::CommandFailure { args: a, .. } ==> a.deep_view()
                        == commands::snapshot_cmd(old(container).name_spec(), name@))
                },
            },
    {
        let args = commands::snapshot_args(container.name(), name);
        match run_checked(ex, args) {
            Ok(()) => {},
            Err(e) => {
                return Err(e);
            },
        }
        let mut full = container.name().to_owned();
        full.append("/");
        full.append(name);
        let parent = container.name().to_owned();
        container.register_snapshot();
        Ok(Snapshot { name: full, parent })
    }

    /// Publish the snapshot as a stored image tagged `alias`.
    pub fn publish<F, G>(&self, ex: &mut Executor<F, G>, alias: &str) -> (r: Result<
        (),
        LxdError,
    >) where
        F: Fn(Vec<String>) -> CmdOutcome,
        G: Fn(Vec<String>) -> FetchOutcome,

        requires
            old(ex).wf(),
        ensures
            final(ex).wf(),
            final(ex).runner_spec() == old(ex).runner_spec(),
            final(ex).fetcher_spec() == old(ex).fetcher_spec(),
            final(ex).log_view() == old(ex).log_view().push(
                commands::publish_cmd(self.name_spec(), alias@),
            ),
            judged_run(old(ex).runner_spec(), commands::publish_cmd(self.name_spec(), alias@), r),
            r matches Err(e) ==> e.is_run_failure(),
            r matches Err(LxdError::CommandFailure { args: a, .. }) ==> a.deep_view()
                == commands::publish_cmd(self.name_spec(), alias@),
    {
        let args = commands::publish_args(self.name.as_str(), alias);
        run_checked(ex, args)
    }

    /// Release the snapshot: issue exactly one delete request for its
    /// qualified name — the outcome deliberately discarded, teardown being
    /// best-effort — and unregister the handle from its parent, consuming
    /// it.
    pub fn release<F, G>(self, ex: &mut Executor<F, G>, parent: &mut Container) where
        F: Fn(Vec<String>) -> CmdOutcome,
        G: Fn(Vec<String>) -> FetchOutcome,

        requires
            old(ex).wf(),
            self.parent_spec() == old(parent).name_spec(),
            old(parent).snapshot_count() > 0,
        ensures
            final(ex).wf(),
            final(ex).runner_spec() == old(ex).runner_spec(),
            final(ex).fetcher_spec() == old(ex).fetcher_spec(),
            final(ex).log_view() == old(ex).log_view().push(
                commands::delete_cmd(self.name_spec()),
            ),
            final(parent).name_spec() == old(parent).name_spec(),
            final(parent).snapshot_count() == old(parent).snapshot_count() - 1,
    {
        let args = commands::delete_args(self.name.as_str());
        let _ = ex.run(args);
        parent.unregister_snapshot();
    }
}

} // verus!
