//! The updater's run as a state machine: it decides the next action, and the
//! caller performs it and reports back what a started command produced.
use vstd::prelude::*;
use crate::command::{
    help, hpatchz_app, kill_process, open_app, kill_command, open_command, patch_command,
    string_views, usage_text, Command, CommandView,
};

verus! {

/// What the command line asks for.
pub enum Request {
    /// Show the usage line and do nothing else.
    Help,
    /// Terminate, patch and relaunch the named application.
    Update { app_name: String, delta_path: String, hpatchz_path: String },
}

pub enum RequestView {
    Help,
    Update { app_name: Seq<char>, delta_path: Seq<char>, hpatchz_path: Seq<char> },
}

impl View for Request {
    type V = RequestView;

    open spec fn view(&self) -> RequestView {
        match self {
            Request::Help => RequestView::Help,
            Request::Update { app_name, delta_path, hpatchz_path } => RequestView::Update {
                app_name: app_name@,
                delta_path: delta_path@,
                hpatchz_path: hpatchz_path@,
            },
        }
    }
}

/// The request made by a full command line, program name first: an update
/// when exactly three operands follow the program name, help otherwise.
pub open spec fn request_of(args: Seq<Seq<char>>) -> RequestView {
    if args.len() == 4 {
        RequestView::Update { app_name: args[1], delta_path: args[2], hpatchz_path: args[3] }
    } else {
        RequestView::Help
    }
}

/// Reads the request from a full command line, program name first.
pub fn parse_args(args: &Vec<String>) -> (r: Request)
    ensures
        r@ == request_of(string_views(args@)),
{
    if args.len() == 4 {
        Request::Update {
            app_name: args[1].clone(),
            delta_path: args[2].clone(),
            hpatchz_path: args[3].clone(),
        }
    } else {
        Request::Help
    }
}

/// What a finished command produced, as the caller captured it.
pub struct Outcome {
    /// The exit status, if the process exited with one.
    pub status: Option<i32>,
    pub stdout: Vec<u8>,
    pub stderr: Vec<u8>,
}

pub struct OutcomeView {
    pub status: Option<i32>,
    pub stdout: Seq<u8>,
    pub stderr: Seq<u8>,
}

impl View for Outcome {
    type V = OutcomeView;

    open spec fn view(&self) -> OutcomeView {
        OutcomeView { status: self.status, stdout: self.stdout@, stderr: self.stderr@ }
    }
}

/// What the caller is to do next.
pub enum Action {
    /// Print this line.
    Print(String),
    /// Start this command, wait until it ends, and report its outcome.
    Spawn(Command),
    /// Print these bytes, the standard output of the command that just ended.
    Relay(Vec<u8>),
    /// Stop with this exit status.
    Exit(i32),
}

pub enum ActionView {
    Print(Seq<char>),
    Spawn(CommandView),
    Relay(Seq<u8>),
    Exit(i32),
}

impl View for Action {
    type V = ActionView;

    open spec fn view(&self) -> ActionView {
        match self {
            Action::Print(s) => ActionView::Print(s@),
            Action::Spawn(c) => ActionView::Spawn(c@),
            Action::Relay(b) => ActionView::Relay(b@),
            Action::Exit(code) => ActionView::Exit(*code),
        }
    }
}

/// The actions that carry out a request, in order; an exit follows them.
pub open spec fn planned(r: RequestView) -> Seq<ActionView> {
    match r {
        RequestView::Help => seq![ActionView::Print(usage_text())],
        RequestView::Update { app_name, delta_path, hpatchz_path } => seq![
            ActionView::Spawn(kill_command(app_name)),
            ActionView::Spawn(patch_command(hpatchz_path, delta_path, app_name)),
            ActionView::Spawn(open_command(app_name)),
        ],
    }
}

/// A run in progress: the request, how many planned actions were handed out,
/// and whether a started command has yet to report its outcome.
pub struct Session {
    request: Request,
    step: usize,
    awaiting: bool,
}

pub struct SessionView {
    pub request: RequestView,
    pub step: nat,
    pub awaiting: bool,
}

impl View for Session {
    type V = SessionView;

    closed spec fn view(&self) -> SessionView {
        SessionView { request: self.request@, step: self.step as nat, awaiting: self.awaiting }
    }
}

/// The state in which a run starts, for a full command line.
pub open spec fn initial(args: Seq<Seq<char>>) -> SessionView {
    SessionView { request: request_of(args), step: 0, awaiting: false }
}

/// The next action and the state after it, when no command is running: the
/// next planned action, or an exit with status zero once all were handed out.
pub open spec fn after_next(s: SessionView) -> (SessionView, ActionView) {
    let plan = planned(s.request);
    if s.step < plan.len() {
        (
            SessionView {
                step: s.step + 1,
                awaiting: plan[s.step as int] is Spawn,
                ..s
            },
            plan[s.step as int],
        )
    } else {
        (s, ActionView::Exit(0))
    }
}

/// The action and the state after a started command ended: its standard
/// output is relayed, and its status and error output change nothing.
pub open spec fn after_outcome(s: SessionView, o: OutcomeView) -> (SessionView, ActionView) {
    (SessionView { awaiting: false, ..s }, ActionView::Relay(o.stdout))
}

/// How many of the planned actions are still to be handed out.
pub open spec fn remaining(s: SessionView) -> nat {
    if s.step < planned(s.request).len() {
        (planned(s.request).len() - s.step) as nat
    } else {
        0
    }
}

/// Every action of a run from `s` when the commands it starts end with
/// `outcomes`, one after another, up to the exit or the first command whose
/// outcome is not given.
pub open spec fn trace(s: SessionView, outcomes: Seq<OutcomeView>) -> Seq<ActionView>
    decreases remaining(s),
{
    let (s1, a) = after_next(s);
    if s.step >= planned(s.request).len() {
        seq![a]
    } else if a is Spawn {
        if outcomes.len() == 0 {
            seq![a]
        } else {
            let (s2, relay) = after_outcome(s1, outcomes[0]);
            seq![a, relay] + trace(s2, outcomes.drop_first())
        }
    } else {
        seq![a] + trace(s1, outcomes)
    }
}

impl Session {
    /// A run for a full command line, program name first.
    pub fn new(args: &Vec<String>) -> (r: Session)
        ensures
            r@ == initial(string_views(args@)),
    {
        Session { request: parse_args(args), step: 0, awaiting: false }
    }

    /// Whether a started command has yet to report its outcome.
    pub fn is_awaiting(&self) -> (r: bool)
        ensures
            r == self@.awaiting,
    {
        self.awaiting
    }

    /// Hands out the next action; to be called while no command is running.
    pub fn next_action(&mut self) -> (r: Action)
        requires
            !old(self)@.awaiting,
        ensures
            (final(self)@, r@) == after_next(old(self)@),
    {
        match &self.request {
            Request::Help => {
                if self.step == 0 {
                    self.step = 1;
                    Action::Print(help())
                } else {
                    Action::Exit(0)
                }
            },
            Request::Update { app_name, delta_path, hpatchz_path } => {
                if self.step == 0 {
                    let c = kill_process(app_name.as_str());
                    self.step = 1;
                    self.awaiting = true;
                    Action::Spawn(c)
                } else if self.step == 1 {
                    let c = hpatchz_app(hpatchz_path.as_str(), delta_path.as_str(), app_name.as_str());
                    self.step = 2;
                    self.awaiting = true;
                    Action::Spawn(c)
                } else if self.step == 2 {
                    let c = open_app(app_name.as_str());
                    self.step = 3;
                    self.awaiting = true;
                    Action::Spawn(c)
                } else {
                    Action::Exit(0)
                }
            },
        }
    }

    /// Takes the outcome of the command that the last action started.
    pub fn complete(&mut self, outcome: Outcome) -> (r: Action)
        requires
            old(self)@.awaiting,
        ensures
            (final(self)@, r@) == after_outcome(old(self)@, outcome@),
    {
        self.awaiting = false;
        Action::Relay(outcome.stdout)
    }
}

/// With any number of operands but three, a run prints the usage line and
/// exits with status zero, and starts no command, whatever outcomes are given.
pub proof fn lemma_help_only(args: Seq<Seq<char>>, outcomes: Seq<OutcomeView>)
    requires
        args.len() != 4,
    ensures
        trace(initial(args), outcomes) == seq![ActionView::Print(usage_text()), ActionView::Exit(0)],
{
    let s1 = after_next(initial(args)).0;
    assert(trace(s1, outcomes) == seq![ActionView::Exit(0)]);
    assert(trace(initial(args), outcomes) =~= seq![ActionView::Print(usage_text()), ActionView::Exit(0)]);
}

/// With three operands, a run terminates the application, patches its
/// bundle, then launches it, relaying each command's standard output as it
/// ends, and exits with status zero, whatever status or error output the
/// commands ended with.
pub proof fn lemma_update_order(args: Seq<Seq<char>>, outcomes: Seq<OutcomeView>)
    requires
        args.len() == 4,
        outcomes.len() >= 3,
    ensures
        trace(initial(args), outcomes) == seq![
            ActionView::Spawn(kill_command(args[1])),
            ActionView::Relay(outcomes[0].stdout),
            ActionView::Spawn(patch_command(args[3], args[2], args[1])),
            ActionView::Relay(outcomes[1].stdout),
            ActionView::Spawn(open_command(args[1])),
            ActionView::Relay(outcomes[2].stdout),
            ActionView::Exit(0),
        ],
{
    let s0 = initial(args);
    let s1 = after_outcome(after_next(s0).0, outcomes[0]).0;
    let s2 = after_outcome(after_next(s1).0, outcomes[1]).0;
    let s3 = after_outcome(after_next(s2).0, outcomes[2]).0;
    let o1 = outcomes.drop_first();
    let o2 = o1.drop_first();
    let o3 = o2.drop_first();
    assert(trace(s3, o3) == seq![ActionView::Exit(0)]);
    assert(trace(s2, o2) =~= seq![
        ActionView::Spawn(open_command(args[1])),
        ActionView::Relay(outcomes[2].stdout),
        ActionView::Exit(0),
    ]);
    assert(trace(s1, o1) =~= seq![
        ActionView::Spawn(patch_command(args[3], args[2], args[1])),
        ActionView::Relay(outcomes[1].stdout),
        ActionView::Spawn(open_command(args[1])),
        ActionView::Relay(outcomes[2].stdout),
        ActionView::Exit(0),
    ]);
    assert(trace(s0, outcomes) =~= seq![
        ActionView::Spawn(kill_command(args[1])),
        ActionView::Relay(outcomes[0].stdout),
        ActionView::Spawn(patch_command(args[3], args[2], args[1])),
        ActionView::Relay(outcomes[1].stdout),
        ActionView::Spawn(open_command(args[1])),
        ActionView::Relay(outcomes[2].stdout),
        ActionView::Exit(0),
    ]);
}

/// The exit status and the error output of the commands change nothing in a
/// run: two runs from one state whose commands print the same standard output
/// take the same actions.
pub proof fn lemma_status_and_stderr_ignored(
    s: SessionView,
    outcomes1: Seq<OutcomeView>,
    outcomes2: Seq<OutcomeView>,
)
    requires
        outcomes1.len() == outcomes2.len(),
        forall|i: int| 0 <= i < outcomes1.len() ==> outcomes1[i].stdout == outcomes2[i].stdout,
    ensures
        trace(s, outcomes1) == trace(s, outcomes2),
    decreases remaining(s),
{
    let (s1, a) = after_next(s);
    if s.step < planned(s.request).len() {
        if a is Spawn {
            if outcomes1.len() > 0 {
                let s2 = after_outcome(s1, outcomes1[0]).0;
                assert(s2 == after_outcome(s1, outcomes2[0]).0);
                lemma_status_and_stderr_ignored(s2, outcomes1.drop_first(), outcomes2.drop_first());
            }
        } else {
            lemma_status_and_stderr_ignored(s1, outcomes1, outcomes2);
        }
    }
}

} // verus!
