//! The sequential execution driver. The runner owns the variable store and
//! the position in the test; whoever owns the session performs each request
//! the runner hands out and gives the reply back.

use crate::command::Command;
use crate::error::{ErrorView, RunnerErrorKind};
use crate::store::VarStore;
use crate::webdriver::client::Client;
use crate::webdriver::{Reply, Request, RequestView};
use serde_json::Value;
use vstd::prelude::*;

verus! {

/// An ordered sequence of commands under a name.
#[derive(Debug)]
pub struct Test {
    pub name: String,
    pub commands: Vec<Command>,
}

/// A suite: an ordered collection of tests.
#[derive(Debug)]
pub struct File {
    pub name: String,
    pub tests: Vec<Test>,
}

/// Where a runner stands in a test.
#[derive(Debug)]
pub enum RunState {
    /// No test has been started.
    Idle,
    /// The command at this index has been handed out and awaits its reply.
    Running(usize),
    /// The command at this index failed; the rest of the test was not run.
    Failed(usize, RunnerErrorKind),
    /// Every command of the test succeeded.
    Completed,
}

/// The mathematical value of a [`RunState`].
pub enum RunStateView {
    Idle,
    Running(int),
    Failed(int, ErrorView),
    Completed,
}

impl View for RunState {
    type V = RunStateView;

    open spec fn view(&self) -> RunStateView {
        match self {
            RunState::Idle => RunStateView::Idle,
            RunState::Running(i) => RunStateView::Running(*i as int),
            RunState::Failed(i, e) => RunStateView::Failed(*i as int, e@),
            RunState::Completed => RunStateView::Completed,
        }
    }
}

/// What the owner of the session is to do next.
#[derive(Debug)]
pub enum Step {
    /// Perform the request and come back with the reply.
    Perform(Request),
    /// The test is over, with this result.
    Finished(Result<(), RunnerErrorKind>),
}

/// The mathematical value of a [`Step`].
pub enum StepView {
    Perform(RequestView),
    Finished(Result<(), ErrorView>),
}

impl View for Step {
    type V = StepView;

    open spec fn view(&self) -> StepView {
        match self {
            Step::Perform(q) => StepView::Perform(q@),
            Step::Finished(r) => StepView::Finished(crate::error::outcome_view(*r)),
        }
    }
}

/// Where a runner stands when it has started a test of these commands.
pub open spec fn start_state(cmds: Seq<Command>) -> RunStateView {
    if cmds.len() == 0 {
        RunStateView::Completed
    } else {
        RunStateView::Running(0)
    }
}

/// Where a runner stands after a reply: the command that awaited it has
/// failed, or the next one awaits its reply, or the test is completed. A
/// state in which no command awaits a reply is left as it is.
pub open spec fn next_state(state: RunStateView, cmds: Seq<Command>, reply: Reply) -> RunStateView {
    match state {
        RunStateView::Running(i) => if 0 <= i < cmds.len() {
            match cmds[i].outcome_spec(reply) {
                Err(e) => RunStateView::Failed(i, e),
                Ok(_) => if i + 1 == cmds.len() {
                    RunStateView::Completed
                } else {
                    RunStateView::Running(i + 1)
                },
            }
        } else {
            state
        },
        _ => state,
    }
}

/// Where a runner stands after it has started a test and taken the first
/// `n` of the replies.
pub open spec fn state_after(cmds: Seq<Command>, replies: Seq<Reply>, n: nat) -> RunStateView
    decreases n,
{
    if n == 0 {
        start_state(cmds)
    } else {
        next_state(state_after(cmds, replies, (n - 1) as nat), cmds, replies[n - 1])
    }
}

/// While every command so far has succeeded and commands are left, the
/// runner stands at the command whose turn it is.
pub proof fn lemma_running_while_succeeding(cmds: Seq<Command>, replies: Seq<Reply>, n: nat)
    requires
        n < cmds.len(),
        n <= replies.len(),
        forall|j: int| 0 <= j < n ==> (#[trigger] cmds[j]).outcome_spec(replies[j]) is Ok,
    ensures
        state_after(cmds, replies, n) == RunStateView::Running(n as int),
    decreases n,
{
    if n > 0 {
        lemma_running_while_succeeding(cmds, replies, (n - 1) as nat);
        assert(cmds[n - 1].outcome_spec(replies[n - 1]) is Ok);
    }
}

/// The first failure ends the test: where command `k` is the first that
/// fails, the runner stands at that failure after the reply to it and after
/// every later reply, so no command behind `k` is ever run.
pub proof fn lemma_first_failure_is_final(
    cmds: Seq<Command>,
    replies: Seq<Reply>,
    k: nat,
    n: nat,
)
    requires
        k < cmds.len(),
        k < n <= replies.len(),
        forall|j: int| 0 <= j < k ==> (#[trigger] cmds[j]).outcome_spec(replies[j]) is Ok,
        cmds[k as int].outcome_spec(replies[k as int]) is Err,
    ensures
        state_after(cmds, replies, n) == RunStateView::Failed(
            k as int,
            cmds[k as int].outcome_spec(replies[k as int])->Err_0,
        ),
    decreases n,
{
    if n == k + 1 {
        lemma_running_while_succeeding(cmds, replies, k);
    } else {
        lemma_first_failure_is_final(cmds, replies, k, (n - 1) as nat);
    }
}

/// A test whose commands all succeed is completed after the reply to the
/// last of them, and stays so whatever comes after.
pub proof fn lemma_all_succeed_completes(cmds: Seq<Command>, replies: Seq<Reply>, n: nat)
    requires
        cmds.len() <= n <= replies.len(),
        forall|j: int| 0 <= j < cmds.len() ==> (#[trigger] cmds[j]).outcome_spec(replies[j]) is Ok,
    ensures
        state_after(cmds, replies, n) == RunStateView::Completed,
    decreases n,
{
    if n > cmds.len() {
        lemma_all_succeed_completes(cmds, replies, (n - 1) as nat);
    } else if n > 0 {
        lemma_running_while_succeeding(cmds, replies, (n - 1) as nat);
        assert(cmds[n - 1].outcome_spec(replies[n - 1]) is Ok);
    }
}

/// What a runner answers to a reply that no command awaits: the result of
/// the test where it is over, else a fault.
pub open spec fn stray_result(state: RunStateView) -> Result<(), ErrorView> {
    match state {
        RunStateView::Completed => Ok(()),
        RunStateView::Failed(_, e) => Err(e),
        _ => Err(ErrorView::BackendError("no command awaits a reply"@)),
    }
}

/// The execution context of a run: the handle on the one session that the
/// runner owns, the recorded variables, and the position in the test.
#[derive(Debug)]
pub struct Runner {
    webdriver: Client,
    /// The recorded variables.
    pub data: VarStore,
    state: RunState,
}

impl Runner {
    /// The identifier of the session that the runner owns.
    pub closed spec fn spec_session(&self) -> Seq<char> {
        self.webdriver.spec_session()
    }

    /// The recorded variables.
    pub closed spec fn store(&self) -> VarStore {
        self.data
    }

    /// Where the runner stands.
    pub closed spec fn spec_state(&self) -> RunStateView {
        self.state@
    }

    /// Validity: that of the variable store.
    pub open spec fn wf(&self) -> bool {
        self.store().wf()
    }

    /// Whether a command of `test` awaits its reply.
    pub open spec fn awaiting(&self, test: &Test) -> bool {
        self.spec_state() matches RunStateView::Running(i) && i < test.commands@.len()
    }

    /// A runner around the given session, with no variables, before any
    /// test.
    pub fn new(webdriver: Client) -> (r: Self)
        ensures
            r.wf(),
            r.spec_session() == webdriver.spec_session(),
            r.store()@ == Map::<Seq<char>, Value>::empty(),
            r.store().keys() == Seq::<Seq<char>>::empty(),
            r.spec_state() == RunStateView::Idle,
    {
        Runner { webdriver, data: VarStore::new(), state: RunState::Idle }
    }

    /// The handle on the session that the runner owns.
    pub fn get_webdriver(&self) -> (r: &Client)
        ensures
            r.spec_session() == self.spec_session(),
    {
        &self.webdriver
    }

    /// The recorded variables.
    pub fn data(&self) -> (r: &VarStore)
        ensures
            *r == self.store(),
    {
        &self.data
    }

    /// Where the runner stands.
    pub fn state(&self) -> (r: &RunState)
        ensures
            r@ == self.spec_state(),
    {
        &self.state
    }

    /// Binds `name` to `value`, in place of whatever it was bound to.
    pub fn save_value(&mut self, name: String, value: Value)
        requires
            old(self).wf(),
        ensures
            final(self).wf(),
            final(self).store().is_insert_of(old(self).store(), name@, value),
            final(self).spec_state() == old(self).spec_state(),
            final(self).spec_session() == old(self).spec_session(),
    {
        self.data.insert(name, value);
    }

    /// The value bound to `name`, or `None` where nothing is bound to it.
    pub fn get(&self, name: &str) -> (r: Option<&Value>)
        requires
            self.wf(),
        ensures
            match r {
                Some(v) => self.store()@.contains_key(name@) && *v == self.store()@[name@],
                None => !self.store()@.contains_key(name@),
            },
    {
        self.data.get(name)
    }

    /// The value bound to `name`, for a step that cannot do without it: an
    /// unbound name is an error that carries the name.
    pub fn require(&self, name: &str) -> (r: Result<&Value, RunnerErrorKind>)
        requires
            self.wf(),
        ensures
            match r {
                Ok(v) => self.store()@.contains_key(name@) && *v == self.store()@[name@],
                Err(e) => !self.store()@.contains_key(name@) && e@ == ErrorView::NoSuchValue(
                    name@,
                ),
            },
    {
        match self.data.get(name) {
            Some(v) => Ok(v),
            None => Err(RunnerErrorKind::NoSuchValue(name.to_owned())),
        }
    }

    /// The request that runs `script` synchronously, with every recorded
    /// variable as a named argument.
    pub fn exec(&self, script: &str) -> (q: Request)
        requires
            self.wf(),
        ensures
            q@ == (RequestView::Execute {
                script: script@,
                names: self.store().keys(),
                args: self.store().values_in_order(),
                asynchronous: false,
            }),
    {
        let (names, args) = self.data.bindings();
        Request::Execute { script: script.to_owned(), names, args, asynchronous: false }
    }

    /// The request that runs `script` asynchronously, with every recorded
    /// variable as a named argument.
    pub fn exec_async(&self, script: &str) -> (q: Request)
        requires
            self.wf(),
        ensures
            q@ == (RequestView::Execute {
                script: script@,
                names: self.store().keys(),
                args: self.store().values_in_order(),
                asynchronous: true,
            }),
    {
        let (names, args) = self.data.bindings();
        Request::Execute { script: script.to_owned(), names, args, asynchronous: true }
    }

    /// Starts `test`, wherever the runner stood: an empty test is completed
    /// at once, any other hands out its first command's request. The
    /// variables stay as they are.
    pub fn start(&mut self, test: &Test) -> (r: Step)
        requires
            old(self).wf(),
        ensures
            final(self).wf(),
            final(self).store() == old(self).store(),
            final(self).spec_session() == old(self).spec_session(),
            final(self).spec_state() == start_state(test.commands@),
            test.commands@.len() == 0 ==> final(self).spec_state() == RunStateView::Completed
                && r@ == StepView::Finished(Ok(())),
            test.commands@.len() > 0 ==> final(self).spec_state() == RunStateView::Running(0)
                && r@ == StepView::Perform(test.commands@[0].request_spec(old(self).store())),
    {
        if test.commands.len() == 0 {
            self.state = RunState::Completed;
            Step::Finished(Ok(()))
        } else {
            self.state = RunState::Running(0);
            Step::Perform(test.commands[0].request(&self.data))
        }
    }

    /// Takes the reply to the command that awaits one. The command judges
    /// it and binds what it binds. On failure the test is over at that
    /// command and the error is handed on as it is. On success the next
    /// command's request is handed out, or the test is completed. A reply
    /// that no command awaits changes nothing.
    pub fn resume(&mut self, test: &Test, reply: Reply) -> (r: Step)
        requires
            old(self).wf(),
        ensures
            final(self).wf(),
            final(self).spec_session() == old(self).spec_session(),
            final(self).spec_state() == next_state(old(self).spec_state(), test.commands@, reply),
            !old(self).awaiting(test) ==> {
                &&& final(self).store() == old(self).store()
                &&& final(self).spec_state() == old(self).spec_state()
                &&& r@ == StepView::Finished(stray_result(old(self).spec_state()))
            },
            old(self).awaiting(test) ==> {
                let i = old(self).spec_state()->Running_0;
                let cmd = test.commands@[i];
                &&& match cmd.binding_spec(reply) {
                    Some((name, value)) => final(self).store().is_insert_of(
                        old(self).store(),
                        name,
                        value,
                    ),
                    None => final(self).store() == old(self).store(),
                }
                &&& match cmd.outcome_spec(reply) {
                    Err(e) => final(self).spec_state() == RunStateView::Failed(i, e) && r@
                        == StepView::Finished(Err(e)),
                    Ok(_) => if i + 1 == test.commands@.len() {
                        final(self).spec_state() == RunStateView::Completed && r@
                            == StepView::Finished(Ok(()))
                    } else {
                        final(self).spec_state() == RunStateView::Running(i + 1) && r@
                            == StepView::Perform(
                            test.commands@[i + 1].request_spec(final(self).store()),
                        )
                    },
                }
            },
    {
        let at: usize = match &self.state {
            RunState::Running(i) => {
                if *i < test.commands.len() {
                    *i
                } else {
                    return Step::Finished(
                        Err(RunnerErrorKind::BackendError("no command awaits a reply".to_owned())),
                    );
                }
            },
            RunState::Completed => {
                return Step::Finished(Ok(()));
            },
            RunState::Failed(_, e) => {
                return Step::Finished(Err(e.clone()));
            },
            RunState::Idle => {
                return Step::Finished(
                    Err(RunnerErrorKind::BackendError("no command awaits a reply".to_owned())),
                );
            },
        };
        match test.commands[at].finish(reply, &mut self.data) {
            Err(e) => {
                let handed = e.clone();
                self.state = RunState::Failed(at, e);
                Step::Finished(Err(handed))
            },
            Ok(()) => {
                if at + 1 == test.commands.len() {
                    self.state = RunState::Completed;
                    Step::Finished(Ok(()))
                } else {
                    self.state = RunState::Running(at + 1);
                    Step::Perform(test.commands[at + 1].request(&self.data))
                }
            },
        }
    }

    /// Ends the runner's life: the request that releases its session. The
    /// runner and its handle are consumed, so the session is released at
    /// most once; nothing releases it where this is not called.
    pub fn close(self) -> (q: Request)
        ensures
            q@ == RequestView::Close,
    {
        self.webdriver.close()
    }
}

} // verus!
