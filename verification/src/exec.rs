//! Running external commands and long-lived processes.
//!
//! Everything that shells out (`mount`, `mkfs.ext4`, `blkid`, `ganesha.nfsd`) goes through
//! these traits. A runner keeps a history of what it was asked and what it answered, and
//! the functions that take one say which commands they add to it.

use vstd::prelude::*;

use crate::text;

verus! {

/// Result of running a command to completion.
#[derive(Debug, Clone, PartialEq, Eq)]
pub struct Outcome {
    pub success: bool,
    /// Exit code, `None` if the process was killed by a signal.
    pub code: Option<i32>,
    pub stdout: String,
    /// How the process ended, as the operating system words it.
    pub status: String,
}

/// Why a command did not complete successfully.
#[derive(Debug)]
pub enum ExecError {
    /// The binary could not be started at all.
    Spawn(String),
    /// The command exceeded its timeout and was killed.
    Timeout { program: String, secs: u64 },
}

/// What a runner answered: the model of `Result<Outcome, ExecError>`.
pub enum Answer {
    Finished { success: bool, code: Option<i32>, stdout: Seq<char>, status: Seq<char> },
    NotStarted { reason: Seq<char> },
    TimedOut { program: Seq<char>, secs: u64 },
}

impl Answer {
    /// Whether the command ran and exited successfully.
    pub open spec fn succeeded(self) -> bool {
        self matches Answer::Finished { success, .. } && success
    }
}

/// The model of a runner's result.
pub open spec fn answer_of(r: Result<Outcome, ExecError>) -> Answer {
    match r {
        Ok(o) => Answer::Finished {
            success: o.success,
            code: o.code,
            stdout: o.stdout@,
            status: o.status@,
        },
        Err(ExecError::Spawn(reason)) => Answer::NotStarted { reason: reason@ },
        Err(ExecError::Timeout { program, secs }) => Answer::TimedOut { program: program@, secs },
    }
}

/// One command and its answer.
pub struct Exchange {
    pub program: Seq<char>,
    pub args: Seq<Seq<char>>,
    pub timeout_ms: Option<u64>,
    pub answer: Answer,
}

/// One attempt to start a process.
pub struct Launch {
    pub program: Seq<char>,
    pub args: Seq<Seq<char>>,
    /// What kept the process from starting, where it did not.
    pub refused: Option<Seq<char>>,
}

/// One thing that was done: a command that was run, or an attempt to start a process.
pub enum Deed {
    Ran(Exchange),
    Launched(Launch),
}

impl Deed {
    /// The program and its arguments.
    pub open spec fn call(self) -> Called {
        match self {
            Deed::Ran(x) => Called { program: x.program, args: x.args },
            Deed::Launched(l) => Called { program: l.program, args: l.args },
        }
    }
}

/// One interaction with a running process.
#[derive(Debug)]
pub enum Contact {
    /// Asked whether it runs, with the answer.
    Polled(bool),
    /// Told to terminate.
    Killed,
    /// Waited for its exit, with whether it exited in time.
    Waited { timeout_ms: u64, exited: bool },
}

/// How an exit with this code is worded.
pub open spec fn exit_text(code: i32) -> Seq<char> {
    "exit status: "@ + text::signed_decimal(code as int)
}

fn exit_status(code: i32) -> (s: String)
    ensures
        s@ == exit_text(code),
{
    let digits: String = text::signed_decimal_of(code as i64);
    "exit status: ".to_owned().concat(digits.as_str())
}

impl Outcome {
    pub fn ok() -> (r: Self)
        ensures
            r.success,
            r.code == Some(0i32),
            r.stdout@ == Seq::<char>::empty(),
            r.status@ == exit_text(0),
    {
        Outcome { success: true, code: Some(0), stdout: String::new(), status: exit_status(0) }
    }

    pub fn failed(code: i32) -> (r: Self)
        ensures
            !r.success,
            r.code == Some(code),
            r.stdout@ == Seq::<char>::empty(),
            r.status@ == exit_text(code),
    {
        Outcome {
            success: false,
            code: Some(code),
            stdout: String::new(),
            status: exit_status(code),
        }
    }

    pub fn with_stdout(self, s: &str) -> (r: Self)
        ensures
            r.success == self.success,
            r.code == self.code,
            r.stdout@ == s@,
            r.status@ == self.status@,
    {
        Outcome {
            success: self.success,
            code: self.code,
            stdout: s.to_owned(),
            status: self.status,
        }
    }

    /// A copy of the outcome.
    fn copy(&self) -> (r: Self)
        ensures
            r == *self,
    {
        Outcome {
            success: self.success,
            code: self.code,
            stdout: self.stdout.clone(),
            status: self.status.clone(),
        }
    }
}

/// The message of a failed command.
pub open spec fn error_text(a: Answer) -> Seq<char> {
    match a {
        Answer::Finished { .. } => Seq::empty(),
        Answer::NotStarted { reason } => "failed to spawn: "@ + reason,
        Answer::TimedOut { program, secs } => program + " timed out after "@ + text::decimal(
            secs as nat,
        ) + "s"@,
    }
}

/// What kept a command from completing, without the words that it did not start.
pub open spec fn cause_text(a: Answer) -> Seq<char> {
    match a {
        Answer::NotStarted { reason } => reason,
        _ => error_text(a),
    }
}

impl ExecError {
    /// What kept the command from completing, without the words that it did not start.
    pub fn cause(&self) -> (s: String)
        ensures
            s@ == cause_text(answer_of(Err(*self))),
    {
        match self {
            ExecError::Spawn(e) => e.clone(),
            ExecError::Timeout { .. } => self.to_string(),
        }
    }

    /// The error as a message.
    pub fn to_string(&self) -> (s: String)
        ensures
            s@ == error_text(answer_of(Err(*self))),
    {
        match self {
            ExecError::Spawn(e) => "failed to spawn: ".to_owned().concat(e.as_str()),
            ExecError::Timeout { program, secs } => {
                let secs_text: String = text::decimal_of(*secs);
                program.clone().concat(" timed out after ").concat(secs_text.as_str()).concat("s")
            },
        }
    }
}

/// What kept a process from starting.
pub open spec fn refusal<H>(r: Result<H, ExecError>) -> Option<Seq<char>> {
    match r {
        Ok(_) => None,
        Err(e) => Some(cause_text(answer_of(Err(e)))),
    }
}

/// Runs external commands to completion. An implementation that is verified gives its own
/// `history`; nothing is known of the one that stands here.
pub trait CommandRunner {
    /// What was done so far; a command that is run is added to it, with its answer.
    open spec fn history(&self) -> Seq<Deed> {
        arbitrary()
    }

    /// Run `program` with `args`, killing it after `timeout_ms` milliseconds if set.
    fn run(&mut self, program: &str, args: &[String], timeout_ms: Option<u64>) -> (r: Result<
        Outcome,
        ExecError,
    >)
        ensures
            final(self).history() == old(self).history().push(
                Deed::Ran(
                    Exchange {
                        program: program@,
                        args: text::views(args@),
                        timeout_ms,
                        answer: answer_of(r),
                    },
                ),
            ),
    ;
}

/// A spawned process. An implementation that is verified gives its own `contacts`; nothing is
/// known of the ones that stand here.
pub trait ProcessHandle {
    /// The interactions with the process so far.
    open spec fn contacts(&self) -> Seq<Contact> {
        arbitrary()
    }

    /// True while the process has not exited.
    fn is_running(&mut self) -> (r: bool)
        ensures
            final(self).contacts() == old(self).contacts().push(Contact::Polled(r)),
    ;

    /// Request termination (SIGKILL).
    fn start_kill(&mut self)
        ensures
            final(self).contacts() == old(self).contacts().push(Contact::Killed),
    ;

    /// Wait for the process to exit, at most `timeout_ms` milliseconds; the largest number waits
    /// as long as it takes.
    fn wait_with_timeout(&mut self, timeout_ms: u64) -> (r: bool)
        ensures
            final(self).contacts() == old(self).contacts().push(
                (Contact::Waited { timeout_ms, exited: r }),
            ),
    ;
}

/// Spawns long-lived processes (ganesha.nfsd). An implementation that is verified gives its own
/// `launches`; nothing is known of the ones that stand here.
pub trait ProcessSpawner {
    type Handle: ProcessHandle;

    /// What was done so far; a process that is to be started is added to it.
    open spec fn launches(&self) -> Seq<Deed> {
        arbitrary()
    }

    fn spawn(&mut self, program: &str, args: &[String]) -> (r: Result<Self::Handle, ExecError>)
        ensures
            final(self).launches() == old(self).launches().push(
                Deed::Launched(
                    Launch { program: program@, args: text::views(args@), refused: refusal(r) },
                ),
            ),
            r matches Ok(handle) ==> handle.contacts() == Seq::<Contact>::empty(),
    ;
}

/// Stands for the commands and processes of the operating system. The program that holds it
/// carries them out.
#[derive(Debug, Default, Clone, Copy, PartialEq, Eq)]
pub struct SystemExec;

// ── Scripted double ──

/// One recorded invocation.
#[derive(Debug, Clone, PartialEq, Eq)]
pub struct Invocation {
    pub program: String,
    pub args: Vec<String>,
}

/// The model of an invocation.
pub struct Called {
    pub program: Seq<char>,
    pub args: Seq<Seq<char>>,
}

impl Called {
    /// The line `"program arg arg"`.
    pub open spec fn line(self) -> Seq<char> {
        self.program + " "@ + text::joined(self.args, " "@)
    }
}

impl View for Invocation {
    type V = Called;

    open spec fn view(&self) -> Called {
        Called { program: self.program@, args: text::views(self.args@) }
    }
}

impl Invocation {
    /// The line `"program arg arg"`.
    pub fn joined(&self) -> (r: String)
        ensures
            r@ == self@.line(),
    {
        let rest: String = text::join(&self.args, " ");
        self.program.clone().concat(" ").concat(rest.as_str())
    }
}

/// What a scripted rule answers.
#[derive(Debug)]
enum Reply {
    Finish(Outcome),
    FailToSpawn,
}

/// Answers the invocations whose line contains `needle`.
#[derive(Debug)]
struct Rule {
    needle: String,
    reply: Reply,
}

/// The model of a rule: the text it looks for and what it answers.
pub struct Scripted {
    pub needle: Seq<char>,
    pub answer: Answer,
}

/// The answer of a command that nobody scripted.
pub open spec fn plain_success() -> Answer {
    Answer::Finished {
        success: true,
        code: Some(0i32),
        stdout: Seq::empty(),
        status: exit_text(0),
    }
}

/// The answer of a command that is scripted not to start.
pub open spec fn spawn_failure() -> Answer {
    Answer::NotStarted { reason: "fake spawn failure"@ }
}

/// The answer of the first rule that matches the line, success where none does.
pub open spec fn scripted_answer(rules: Seq<Scripted>, line: Seq<char>) -> Answer
    decreases rules.len(),
{
    if rules.len() == 0 {
        plain_success()
    } else if text::contains_text(line, rules[0].needle) {
        rules[0].answer
    } else {
        scripted_answer(rules.drop_first(), line)
    }
}

impl Reply {
    spec fn answer(self) -> Answer {
        match self {
            Reply::Finish(o) => answer_of(Ok(o)),
            Reply::FailToSpawn => spawn_failure(),
        }
    }

    fn give(&self) -> (r: Result<Outcome, ExecError>)
        ensures
            answer_of(r) == self.answer(),
    {
        match self {
            Reply::Finish(o) => Ok(o.copy()),
            Reply::FailToSpawn => Err(ExecError::Spawn("fake spawn failure".to_owned())),
        }
    }
}

impl Rule {
    spec fn model(self) -> Scripted {
        Scripted { needle: self.needle@, answer: self.reply.answer() }
    }
}

spec fn models(rules: Seq<Rule>) -> Seq<Scripted> {
    Seq::new(rules.len(), |i: int| rules[i].model())
}

/// The models of a list of invocations.
pub open spec fn calls_of(calls: Seq<Invocation>) -> Seq<Called> {
    Seq::new(calls.len(), |i: int| calls[i]@)
}

/// The lines of a list of invocations.
pub open spec fn lines(calls: Seq<Called>) -> Seq<Seq<char>> {
    Seq::new(calls.len(), |i: int| calls[i].line())
}

/// What a [`FakeExec`] was asked to do, with what it answered.
#[derive(Debug)]
enum Record {
    Ran { call: Invocation, timeout_ms: Option<u64>, result: Result<Outcome, ExecError> },
    Spawned { call: Invocation, started: bool },
}

impl Record {
    spec fn deed(self) -> Deed {
        match self {
            Record::Ran { call, timeout_ms, result } => Deed::Ran(
                Exchange {
                    program: call.program@,
                    args: text::views(call.args@),
                    timeout_ms,
                    answer: answer_of(result),
                },
            ),
            Record::Spawned { call, started } => Deed::Launched(
                Launch {
                    program: call.program@,
                    args: text::views(call.args@),
                    refused: if started {
                        None
                    } else {
                        Some(cause_text(spawn_failure()))
                    },
                },
            ),
        }
    }
}

spec fn deeds(log: Seq<Record>) -> Seq<Deed> {
    Seq::new(log.len(), |i: int| log[i].deed())
}

/// The program and the arguments of each thing that was done.
pub open spec fn calls_in(deeds: Seq<Deed>) -> Seq<Called> {
    Seq::new(deeds.len(), |i: int| deeds[i].call())
}

/// Scriptable runner and spawner: records every invocation and answers from rules,
/// defaulting to success.
#[derive(Debug)]
pub struct FakeExec {
    log: Vec<Record>,
    rules: Vec<Rule>,
    spawn_fails: bool,
    /// How many polls a spawned process reports as alive.
    alive_polls: usize,
}

impl Default for FakeExec {
    /// Nothing is recorded and nothing scripted, and a spawned process has exited at once.
    fn default() -> (r: Self)
        ensures
            r.deeds() == Seq::<Deed>::empty(),
            r.script() == Seq::<Scripted>::empty(),
            !r.spawn_fails(),
            r.alive_polls() == 0,
    {
        FakeExec { log: Vec::new(), rules: Vec::new(), spawn_fails: false, alive_polls: 0 }
    }
}

impl FakeExec {
    /// Everything run and spawned so far, with what came of it.
    pub closed spec fn deeds(&self) -> Seq<Deed> {
        deeds(self.log@)
    }

    /// The calls that were recorded: one for everything run and spawned so far.
    pub open spec fn recorded(&self) -> Seq<Called> {
        calls_in(self.deeds())
    }

    /// The script.
    pub closed spec fn script(&self) -> Seq<Scripted> {
        models(self.rules@)
    }

    /// Whether `spawn` fails.
    pub closed spec fn spawn_fails(&self) -> bool {
        self.spawn_fails
    }

    /// How many polls a spawned process answers with "alive"; the largest number stands
    /// for all of them.
    pub closed spec fn alive_polls(&self) -> usize {
        self.alive_polls
    }

    pub fn new() -> (r: Self)
        ensures
            r.deeds() == Seq::<Deed>::empty(),
            r.script() == Seq::<Scripted>::empty(),
            !r.spawn_fails(),
            r.alive_polls() == usize::MAX,
    {
        FakeExec {
            log: Vec::new(),
            rules: Vec::new(),
            spawn_fails: false,
            alive_polls: usize::MAX,
        }
    }

    /// Record of every command run so far.
    pub fn calls(&self) -> (r: Vec<Invocation>)
        ensures
            calls_of(r@) == self.recorded(),
    {
        let mut r: Vec<Invocation> = Vec::new();
        for i in 0..self.log.len()
            invariant
                r.len() == i,
                forall|j: int| 0 <= j < i ==> (#[trigger] r@[j])@ == self.recorded()[j],
        {
            let call: &Invocation = match &self.log[i] {
                Record::Ran { call, .. } => call,
                Record::Spawned { call, .. } => call,
            };
            r.push(Invocation { program: call.program.clone(), args: text::copy_list(&call.args) });
        }
        r
    }

    /// Flattened `"program arg arg"` strings.
    pub fn call_lines(&self) -> (r: Vec<String>)
        ensures
            text::views(r@) == lines(self.recorded()),
    {
        let calls: Vec<Invocation> = self.calls();
        let mut r: Vec<String> = Vec::new();
        for i in 0..calls.len()
            invariant
                calls_of(calls@) == self.recorded(),
                r.len() == i,
                forall|j: int| 0 <= j < i ==> (#[trigger] r@[j])@ == self.recorded()[j].line(),
        {
            r.push(calls[i].joined());
            assert(calls_of(calls@)[i as int] == calls@[i as int]@);
        }
        r
    }

    /// Whether some recorded line contains `needle`.
    pub fn ran(&self, needle: &str) -> (r: bool)
        ensures
            r == exists|i: int|
                0 <= i < self.recorded().len() && text::contains_text(
                    (#[trigger] self.recorded()[i]).line(),
                    needle@,
                ),
    {
        let all: Vec<String> = self.call_lines();
        assert(text::views(all@).len() == self.recorded().len());
        for i in 0..all.len()
            invariant
                text::views(all@) == lines(self.recorded()),
                all.len() == self.recorded().len(),
                forall|j: int|
                    0 <= j < i ==> !text::contains_text(
                        (#[trigger] self.recorded()[j]).line(),
                        needle@,
                    ),
        {
            assert(text::views(all@)[i as int] == all@[i as int]@);
            assert(lines(self.recorded())[i as int] == self.recorded()[i as int].line());
            if text::contains(all[i].as_str(), needle) {
                return true;
            }
        }
        false
    }

    /// Answer invocations whose line contains `needle` with `outcome`.
    pub fn on(self, needle: &str, outcome: Outcome) -> (r: Self)
        ensures
            r.script() == self.script().push(
                (Scripted { needle: needle@, answer: answer_of(Ok(outcome)) }),
            ),
            r.deeds() == self.deeds(),
            r.spawn_fails() == self.spawn_fails(),
            r.alive_polls() == self.alive_polls(),
    {
        let mut rules: Vec<Rule> = self.rules;
        let ghost earlier = rules@;
        rules.push(Rule { needle: needle.to_owned(), reply: Reply::Finish(outcome) });
        assert(models(rules@) =~= models(earlier).push(
            Scripted { needle: needle@, answer: answer_of(Ok(outcome)) },
        ));
        FakeExec {
            log: self.log,
            rules,
            spawn_fails: self.spawn_fails,
            alive_polls: self.alive_polls,
        }
    }

    /// Make invocations matching `needle` fail to spawn.
    pub fn on_error(self, needle: &str) -> (r: Self)
        ensures
            r.script() == self.script().push(
                (Scripted { needle: needle@, answer: spawn_failure() }),
            ),
            r.deeds() == self.deeds(),
            r.spawn_fails() == self.spawn_fails(),
            r.alive_polls() == self.alive_polls(),
    {
        let mut rules: Vec<Rule> = self.rules;
        let ghost earlier = rules@;
        rules.push(Rule { needle: needle.to_owned(), reply: Reply::FailToSpawn });
        assert(models(rules@) =~= models(earlier).push(
            Scripted { needle: needle@, answer: spawn_failure() },
        ));
        FakeExec {
            log: self.log,
            rules,
            spawn_fails: self.spawn_fails,
            alive_polls: self.alive_polls,
        }
    }

    /// Let `spawn` fail.
    pub fn failing_spawn(self) -> (r: Self)
        ensures
            r.spawn_fails(),
            r.script() == self.script(),
            r.deeds() == self.deeds(),
            r.alive_polls() == self.alive_polls(),
    {
        FakeExec {
            log: self.log,
            rules: self.rules,
            spawn_fails: true,
            alive_polls: self.alive_polls,
        }
    }

    /// Spawned processes report "alive" for `n` polls, then exit.
    pub fn alive_for(self, n: usize) -> (r: Self)
        ensures
            r.alive_polls() == n,
            r.script() == self.script(),
            r.deeds() == self.deeds(),
            r.spawn_fails() == self.spawn_fails(),
    {
        FakeExec {
            log: self.log,
            rules: self.rules,
            spawn_fails: self.spawn_fails,
            alive_polls: n,
        }
    }

    /// The reply of the first rule that matches the line.
    fn answer_to(&self, line: &str) -> (r: Result<Outcome, ExecError>)
        ensures
            answer_of(r) == scripted_answer(self.script(), line@),
    {
        let ghost script = self.script();
        assert(script.skip(0) =~= script);
        for i in 0..self.rules.len()
            invariant
                script == models(self.rules@),
                scripted_answer(script, line@) == scripted_answer(script.skip(i as int), line@),
        {
            assert(script.skip(i as int)[0] == self.rules@[i as int].model());
            assert(script.skip(i as int).drop_first() =~= script.skip(i + 1));
            if text::contains(line, self.rules[i].needle.as_str()) {
                return self.rules[i].reply.give();
            }
        }
        Ok(Outcome::ok())
    }
}

fn invocation(program: &str, args: &[String]) -> (r: Invocation)
    ensures
        r.program@ == program@,
        text::views(r.args@) == text::views(args@),
{
    let mut copied: Vec<String> = Vec::new();
    for i in 0..args.len()
        invariant
            copied@ == args@.take(i as int),
    {
        copied.push(args[i].clone());
    }
    Invocation { program: program.to_owned(), args: copied }
}

impl CommandRunner for FakeExec {
    open spec fn history(&self) -> Seq<Deed> {
        self.deeds()
    }

    fn run(&mut self, program: &str, args: &[String], timeout_ms: Option<u64>) -> (r: Result<
        Outcome,
        ExecError,
    >)
        ensures
            answer_of(r) == scripted_answer(
                old(self).script(),
                (Called { program: program@, args: text::views(args@) }).line(),
            ),
            final(self).script() == old(self).script(),
            final(self).spawn_fails() == old(self).spawn_fails(),
            final(self).alive_polls() == old(self).alive_polls(),
    {
        let call: Invocation = invocation(program, args);
        let line: String = call.joined();
        let result: Result<Outcome, ExecError> = self.answer_to(line.as_str());
        let kept: Result<Outcome, ExecError> = self.answer_to(line.as_str());
        let ghost earlier = self.log@;
        self.log.push(Record::Ran { call, timeout_ms, result: kept });
        assert(deeds(self.log@) =~= deeds(earlier).push(self.log@.last().deed()));
        result
    }
}

/// A process of a [`FakeExec`].
#[derive(Debug)]
pub struct FakeChild {
    remaining: usize,
    killed: bool,
    contacts: Vec<Contact>,
}

impl FakeChild {
    /// How many polls are left that answer "alive"; the largest number does not run out.
    pub closed spec fn remaining(&self) -> usize {
        self.remaining
    }

    /// Whether the process was told to terminate.
    pub closed spec fn killed(&self) -> bool {
        self.killed
    }
}

impl ProcessHandle for FakeChild {
    closed spec fn contacts(&self) -> Seq<Contact> {
        self.contacts@
    }

    fn is_running(&mut self) -> (r: bool)
        ensures
            r == (!old(self).killed() && old(self).remaining() > 0),
            final(self).killed() == old(self).killed(),
            final(self).remaining() == (if r && old(self).remaining() != usize::MAX {
                (old(self).remaining() - 1) as usize
            } else {
                old(self).remaining()
            }),
    {
        let mut running: bool = true;
        if self.killed || self.remaining == 0 {
            running = false;
        } else if self.remaining != usize::MAX {
            self.remaining = self.remaining - 1;
        }
        self.contacts.push(Contact::Polled(running));
        running
    }

    fn start_kill(&mut self)
        ensures
            final(self).killed(),
            final(self).remaining() == old(self).remaining(),
    {
        self.killed = true;
        self.contacts.push(Contact::Killed);
    }

    fn wait_with_timeout(&mut self, timeout_ms: u64) -> (r: bool)
        ensures
            r,
            final(self).killed() == old(self).killed(),
            final(self).remaining() == old(self).remaining(),
    {
        self.contacts.push(Contact::Waited { timeout_ms, exited: true });
        true
    }
}

impl ProcessSpawner for FakeExec {
    type Handle = FakeChild;

    open spec fn launches(&self) -> Seq<Deed> {
        self.deeds()
    }

    fn spawn(&mut self, program: &str, args: &[String]) -> (r: Result<FakeChild, ExecError>)
        ensures
            r is Err == old(self).spawn_fails(),
            r matches Ok(child) ==> child.remaining() == old(self).alive_polls() && !child.killed(),
            r matches Err(e) ==> answer_of(Err(e)) == spawn_failure(),
            final(self).script() == old(self).script(),
            final(self).spawn_fails() == old(self).spawn_fails(),
            final(self).alive_polls() == old(self).alive_polls(),
    {
        let call: Invocation = invocation(program, args);
        let ghost earlier = self.log@;
        self.log.push(Record::Spawned { call, started: !self.spawn_fails });
        assert(deeds(self.log@) =~= deeds(earlier).push(self.log@.last().deed()));
        if self.spawn_fails {
            return Err(ExecError::Spawn("fake spawn failure".to_owned()));
        }
        Ok(FakeChild { remaining: self.alive_polls, killed: false, contacts: Vec::new() })
    }
}

/// An argument vector.
pub fn args(list: &[&str]) -> (r: Vec<String>)
    ensures
        text::views(r@) == Seq::new(list@.len(), |i: int| list@[i]@),
{
    let mut r: Vec<String> = Vec::new();
    for i in 0..list.len()
        invariant
            r.len() == i,
            forall|j: int| 0 <= j < i ==> (#[trigger] r@[j])@ == list@[j]@,
    {
        r.push(list[i].to_owned());
    }
    r
}

} // verus!
