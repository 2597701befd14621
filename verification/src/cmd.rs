//! The command-execution contract.
//!
//! Every operation of this library rides on one external executable, invoked
//! with an ordered argument list — each argument a discrete token, never a
//! concatenated shell line. The library itself never spawns: an [`Executor`]
//! couples the caller-supplied run functions with a log of every invocation
//! issued, and all contracts are stated over that log.

use vstd::prelude::*;

use crate::error::LxdError;
use crate::json::Json;

verus! {

/// What running an imperative (status-only) command came to.
#[derive(Debug, Clone, PartialEq, Eq)]
pub enum CmdOutcome {
    /// The process ran and exited with success.
    Success,
    /// The process ran and exited without success; the exit code, if the
    /// process left one.
    Failed(Option<i32>),
    /// The executable could not be spawned; the spawn failure's message.
    SpawnError(String),
}

/// What running an output-capturing command came to. The captured bytes are
/// handed back already shaped as a [`Json`] tree, or as the syntax parser's
/// message when they were not JSON at all.
#[derive(Debug, PartialEq, Eq)]
pub enum FetchOutcome {
    /// Exit success and well-formed JSON output.
    Parsed(Json),
    /// Exit success, but the output was not well-formed JSON; the parser's
    /// message.
    Unparsable(String),
    /// The process ran and exited without success.
    Failed(Option<i32>),
    /// The executable could not be spawned; the spawn failure's message.
    SpawnError(String),
}

/// Issues commands through caller-supplied run functions and records every
/// invocation, in order. The log is the model every lifecycle contract in
/// this library speaks of: "a stop request was issued" means the stop
/// invocation stands in the log.
pub struct Executor<F, G> where
    F: Fn(Vec<String>) -> CmdOutcome,
    G: Fn(Vec<String>) -> FetchOutcome,
{
    runner: F,
    fetcher: G,
    log: Vec<Vec<String>>,
}

impl<F, G> Executor<F, G> where
    F: Fn(Vec<String>) -> CmdOutcome,
    G: Fn(Vec<String>) -> FetchOutcome,
{
    /// The run functions accept every argument list.
    pub closed spec fn wf(&self) -> bool {
        &&& forall|a: Vec<String>| call_requires(self.runner, (a,))
        &&& forall|a: Vec<String>| call_requires(self.fetcher, (a,))
    }

    /// Every invocation issued so far, oldest first.
    pub closed spec fn log_view(&self) -> Seq<Seq<Seq<char>>> {
        self.log.deep_view()
    }

    /// The status-only run function the executor was built with.
    pub closed spec fn runner_spec(&self) -> F {
        self.runner
    }

    /// The output-capturing run function the executor was built with.
    pub closed spec fn fetcher_spec(&self) -> G {
        self.fetcher
    }

    /// Couple a status-only run function and a capturing run function into
    /// an executor with an empty log.
    pub fn new(runner: F, fetcher: G) -> (e: Self)
        requires
            forall|a: Vec<String>| call_requires(runner, (a,)),
            forall|a: Vec<String>| call_requires(fetcher, (a,)),
        ensures
            e.wf(),
            e.log_view() == Seq::<Seq<Seq<char>>>::empty(),
            e.runner_spec() == runner,
            e.fetcher_spec() == fetcher,
    {
        let e = Executor { runner, fetcher, log: Vec::new() };
        proof {
            assert(e.log_view() =~= Seq::<Seq<Seq<char>>>::empty());
        }
        e
    }

    /// The invocations issued so far, for inspection.
    pub fn history(&self) -> (r: &Vec<Vec<String>>)
        ensures
            r.deep_view() == self.log_view(),
    {
        &self.log
    }

    /// Issue one imperative invocation: log it, run it with the run
    /// function the executor was built with, and hand its outcome back
    /// unjudged.
    pub fn run(&mut self, args: Vec<String>) -> (out: CmdOutcome)
        requires
            old(self).wf(),
        ensures
            final(self).wf(),
            final(self).log_view() == old(self).log_view().push(args.deep_view()),
            final(self).runner_spec() == old(self).runner_spec(),
            final(self).fetcher_spec() == old(self).fetcher_spec(),
            call_ensures(old(self).runner_spec(), (args,), out),
    {
        let logged = args.clone();
        proof {
            lemma_cloned_tokens_view(&args, &logged);
        }
        self.log.push(logged);
        (self.runner)(args)
    }

    /// Issue one output-capturing invocation: log it, run it with the run
    /// function the executor was built with, and hand its outcome back
    /// unjudged.
    pub fn fetch(&mut self, args: Vec<String>) -> (out: FetchOutcome)
        requires
            old(self).wf(),
        ensures
            final(self).wf(),
            final(self).log_view() == old(self).log_view().push(args.deep_view()),
            final(self).runner_spec() == old(self).runner_spec(),
            final(self).fetcher_spec() == old(self).fetcher_spec(),
            call_ensures(old(self).fetcher_spec(), (args,), out),
    {
        let logged = args.clone();
        proof {
            lemma_cloned_tokens_view(&args, &logged);
        }
        self.log.push(logged);
        (self.fetcher)(args)
    }
}

/// A clone of an argument list carries the same tokens.
proof fn lemma_cloned_tokens_view(a: &Vec<String>, b: &Vec<String>)
    requires
        b.len() == a.len(),
        forall|i: int| #![all_triggers] 0 <= i < a.len() ==> cloned::<String>(a[i], b[i]),
    ensures
        b.deep_view() == a.deep_view(),
{
    assert forall|i: int| 0 <= i < a.len() implies b[i]@ == a[i]@ by {
        assert(cloned::<String>(a[i], b[i]));
    }
    assert(b.deep_view() =~= a.deep_view());
}

/// Issue one imperative invocation and judge its outcome: success exactly
/// when the process exited with success, and otherwise the error that
/// carries the full argument list and raw exit code.
pub fn run_checked<F, G>(exec: &mut Executor<F, G>, args: Vec<String>) -> (r: Result<
    (),
    LxdError,
>) where
    F: Fn(Vec<String>) -> CmdOutcome,
    G: Fn(Vec<String>) -> FetchOutcome,

    requires
        old(exec).wf(),
    ensures
        final(exec).wf(),
        final(exec).log_view() == old(exec).log_view().push(args.deep_view()),
        final(exec).runner_spec() == old(exec).runner_spec(),
        final(exec).fetcher_spec() == old(exec).fetcher_spec(),
        judged_run(old(exec).runner_spec(), args.deep_view(), r),
        r matches Err(e) ==> e.is_run_failure(),
        r matches Err(LxdError::CommandFailure { args: a, code }) ==> a.deep_view()
            == args.deep_view(),
{
    let ghost sent = args;
    let for_diag = args.clone();
    proof {
        lemma_cloned_tokens_view(&args, &for_diag);
    }
    let out = exec.run(args);
    let ghost o = out;
    let r = check_status(for_diag, out);
    proof {
        assert(call_ensures(old(exec).runner_spec(), (sent,), o));
        assert(run_result_matches(sent.deep_view(), o, r));
    }
    r
}

/// Issue one output-capturing invocation and judge its outcome: the parsed
/// tree exactly when the process exited with success and produced
/// well-formed JSON, and otherwise the one error the outcome prescribes.
pub fn fetch_checked<F, G>(exec: &mut Executor<F, G>, args: Vec<String>) -> (r: Result<
    Json,
    LxdError,
>) where
    F: Fn(Vec<String>) -> CmdOutcome,
    G: Fn(Vec<String>) -> FetchOutcome,

    requires
        old(exec).wf(),
    ensures
        final(exec).wf(),
        final(exec).log_view() == old(exec).log_view().push(args.deep_view()),
        final(exec).runner_spec() == old(exec).runner_spec(),
        final(exec).fetcher_spec() == old(exec).fetcher_spec(),
        judged_fetch(old(exec).fetcher_spec(), args.deep_view(), r),
        r matches Err(e) ==> !(e is NotFound),
        r matches Err(LxdError::CommandFailure { args: a, code }) ==> a.deep_view()
            == args.deep_view(),
{
    let ghost sent = args;
    let for_diag = args.clone();
    proof {
        lemma_cloned_tokens_view(&args, &for_diag);
    }
    let out = exec.fetch(args);
    let ghost o = out;
    let r = take_fetched(for_diag, out);
    proof {
        assert(call_ensures(old(exec).fetcher_spec(), (sent,), o));
        assert(fetch_result_matches(sent.deep_view(), o, r));
    }
    r
}

/// How the judged result of an imperative invocation relates to the
/// outcome the run function produced: success exactly on exit success, and
/// otherwise the error that the outcome prescribes, carrying the full
/// argument list and raw exit code, or the spawn failure's message.
pub open spec fn run_result_matches(
    cmd: Seq<Seq<char>>,
    out: CmdOutcome,
    r: Result<(), LxdError>,
) -> bool {
    match out {
        CmdOutcome::Success => r is Ok,
        CmdOutcome::Failed(code) => (r matches Err(LxdError::CommandFailure { args: a, code: c })
            && a.deep_view() == cmd && c == code),
        CmdOutcome::SpawnError(m) => (r matches Err(LxdError::SpawnFailure(s)) && s@ == m@),
    }
}

/// How the judged result of an output-capturing invocation relates to the
/// outcome the run function produced: the parsed tree exactly on exit
/// success with well-formed JSON, and otherwise the one error the outcome
/// prescribes.
pub open spec fn fetch_result_matches(
    cmd: Seq<Seq<char>>,
    out: FetchOutcome,
    r: Result<Json, LxdError>,
) -> bool {
    match out {
        FetchOutcome::Parsed(j) => (r matches Ok(got) && got == j),
        FetchOutcome::Unparsable(m) => (r matches Err(LxdError::ParseFailure(s)) && s@ == m@),
        FetchOutcome::Failed(code) => (r matches Err(LxdError::CommandFailure { args: a, code: c })
            && a.deep_view() == cmd && c == code),
        FetchOutcome::SpawnError(m) => (r matches Err(LxdError::SpawnFailure(s)) && s@ == m@),
    }
}

/// The result was judged, as `run_result_matches` states, from an outcome
/// that the status-only run function produced for an invocation carrying
/// exactly these tokens.
pub open spec fn judged_run<F: Fn(Vec<String>) -> CmdOutcome>(
    f: F,
    cmd: Seq<Seq<char>>,
    r: Result<(), LxdError>,
) -> bool {
    exists|sent: Vec<String>, out: CmdOutcome|
        sent.deep_view() == cmd && #[trigger] call_ensures(f, (sent,), out)
            && run_result_matches(cmd, out, r)
}

/// The result was judged, as `fetch_result_matches` states, from an outcome
/// that the capturing run function produced for an invocation carrying
/// exactly these tokens.
pub open spec fn judged_fetch<G: Fn(Vec<String>) -> FetchOutcome>(
    g: G,
    cmd: Seq<Seq<char>>,
    r: Result<Json, LxdError>,
) -> bool {
    exists|sent: Vec<String>, out: FetchOutcome|
        sent.deep_view() == cmd && #[trigger] call_ensures(g, (sent,), out)
            && fetch_result_matches(cmd, out, r)
}

/// The result with its success payload dropped.
pub open spec fn outcome_of<T>(r: Result<T, LxdError>) -> Result<(), LxdError> {
    match r {
        Ok(_) => Ok(()),
        Err(e) => Err(e),
    }
}

/// Translate the outcome of an imperative command into the operation's
/// result: success exactly on exit success, and otherwise an error carrying
/// the full argument list and the raw exit code.
pub fn check_status(args: Vec<String>, out: CmdOutcome) -> (r: Result<(), LxdError>)
    ensures
        r is Ok <==> out is Success,
        run_result_matches(args.deep_view(), out, r),
        out matches CmdOutcome::Failed(code) ==> r == Err::<(), LxdError>(
            LxdError::CommandFailure { args, code },
        ),
        out matches CmdOutcome::SpawnError(m) ==> r == Err::<(), LxdError>(
            LxdError::SpawnFailure(m),
        ),
{
    match out {
        CmdOutcome::Success => Ok(()),
        CmdOutcome::Failed(code) => Err(LxdError::CommandFailure { args, code }),
        CmdOutcome::SpawnError(m) => Err(LxdError::SpawnFailure(m)),
    }
}

/// Translate the outcome of an output-capturing command: the parsed tree on
/// success, and otherwise exactly one error of the taxonomy — the parser's
/// message as a parse failure, a non-success exit as a command failure with
/// the full argument list, a spawn failure as such.
pub fn take_fetched(args: Vec<String>, out: FetchOutcome) -> (r: Result<Json, LxdError>)
    ensures
        match out {
            FetchOutcome::Parsed(j) => r == Ok::<Json, LxdError>(j),
            FetchOutcome::Unparsable(m) => r == Err::<Json, LxdError>(LxdError::ParseFailure(m)),
            FetchOutcome::Failed(code) => r == Err::<Json, LxdError>(
                LxdError::CommandFailure { args, code },
            ),
            FetchOutcome::SpawnError(m) => r == Err::<Json, LxdError>(LxdError::SpawnFailure(m)),
        },
        fetch_result_matches(args.deep_view(), out, r),
{
    match out {
        FetchOutcome::Parsed(j) => Ok(j),
        FetchOutcome::Unparsable(m) => Err(LxdError::ParseFailure(m)),
        FetchOutcome::Failed(code) => Err(LxdError::CommandFailure { args, code }),
        FetchOutcome::SpawnError(m) => Err(LxdError::SpawnFailure(m)),
    }
}

} // verus!
