//! What the scripted double answers and records.

use vstd::prelude::*;

use crate::exec::{
    Answer, Called, CommandRunner, Deed, ExecError, FakeChild, FakeExec, Outcome, ProcessHandle,
    ProcessSpawner, Scripted,
};
use crate::exec;
use crate::text;

verus! {

/// The line of a call is its program and its arguments, with spaces between them.
pub proof fn law_lines_are_spaced(program: Seq<char>, first: Seq<char>, second: Seq<char>)
    ensures
        (Called { program, args: seq![first] }).line() == program + " "@ + first,
        (Called { program, args: seq![first, second] }).line() == program + " "@ + first + " "@
            + second,
{
    let two = seq![first, second];
    assert(two.drop_last() =~= seq![first]);
    assert(text::joined(seq![first], " "@) == first);
    assert(text::joined(two, " "@) =~= first + " "@ + second);
    assert(program + " "@ + (first + " "@ + second) =~= program + " "@ + first + " "@ + second);
}

/// What a double was asked to run is recorded with what it answered, and its script stays.
pub proof fn law_doubles_record_what_they_run(
    double: &mut FakeExec,
    program: &str,
    args: &[String],
    timeout_ms: Option<u64>,
    r: Result<Outcome, ExecError>,
)
    requires
        call_ensures(FakeExec::run, (double, program, args, timeout_ms), r),
    ensures
        final(double).deeds() == old(double).deeds().push(final(double).deeds().last()),
        final(double).deeds().last() matches Deed::Ran(x) && x.program == program@ && x.args
            == text::views(args@) && x.timeout_ms == timeout_ms && x.answer == exec::answer_of(r),
        final(double).script() == old(double).script(),
        exec::answer_of(r) == exec::scripted_answer(
            old(double).script(),
            program@ + " "@ + text::joined(text::views(args@), " "@),
        ),
{
}

/// Of the rules of a script the first that matches answers, and where none does the command
/// succeeds.
pub proof fn law_the_first_rule_answers(rules: Seq<Scripted>, line: Seq<char>, i: int)
    requires
        0 <= i <= rules.len(),
        forall|j: int| 0 <= j < i ==> !text::contains_text(line, (#[trigger] rules[j]).needle),
        i < rules.len() ==> text::contains_text(line, rules[i].needle),
    ensures
        i < rules.len() ==> exec::scripted_answer(rules, line) == rules[i].answer,
        i == rules.len() ==> exec::scripted_answer(rules, line).succeeded(),
    decreases rules.len(),
{
    if rules.len() > 0 && i > 0 {
        assert(!text::contains_text(line, rules[0].needle));
        let rest = rules.drop_first();
        assert forall|j: int| 0 <= j < i - 1 implies !text::contains_text(
            line,
            (#[trigger] rest[j]).needle,
        ) by {
            assert(rest[j] == rules[j + 1]);
        }
        if i < rules.len() {
            assert(rest[i - 1] == rules[i]);
        }
        law_the_first_rule_answers(rest, line, i - 1);
    }
}

/// A double answers a command as it was told to, and lets any other succeed.
pub proof fn law_scripted_commands_answer(
    plain: FakeExec,
    needle: &str,
    outcome: Outcome,
    told: FakeExec,
    double: &mut FakeExec,
    program: &str,
    args: &[String],
    timeout_ms: Option<u64>,
    r: Result<Outcome, ExecError>,
)
    requires
        plain.script().len() == 0,
        call_ensures(FakeExec::on, (plain, needle, outcome), told),
        *old(double) == told,
        call_ensures(FakeExec::run, (double, program, args, timeout_ms), r),
    ensures
        ({
            let line = program@ + " "@ + text::joined(text::views(args@), " "@);
            &&& text::contains_text(line, needle@) ==> (r matches Ok(o) && o.success
                == outcome.success && o.code == outcome.code && o.stdout@ == outcome.stdout@)
            &&& !text::contains_text(line, needle@) ==> (r matches Ok(o) && o.success && o.code
                == Some(0i32))
        }),
{
    let script = told.script();
    assert(script.len() == 1);
    law_the_first_rule_answers(
        script,
        program@ + " "@ + text::joined(text::views(args@), " "@),
        if text::contains_text(
            program@ + " "@ + text::joined(text::views(args@), " "@),
            needle@,
        ) {
            0
        } else {
            1
        },
    );
    assert(script.drop_first().len() == 0);
    assert(exec::scripted_answer(script.drop_first(), program@ + " "@ + text::joined(
        text::views(args@),
        " "@,
    )) == exec::plain_success());
}

/// A double that was told so starts no process, and any other does.
pub proof fn law_failing_doubles_start_nothing(
    double: &mut FakeExec,
    program: &str,
    args: &[String],
    r: Result<FakeChild, ExecError>,
)
    requires
        call_ensures(FakeExec::spawn, (double, program, args), r),
    ensures
        r is Ok <==> !old(double).spawn_fails(),
        r matches Ok(child) ==> child.remaining() == old(double).alive_polls() && !child.killed(),
        final(double).deeds() == old(double).deeds().push(final(double).deeds().last()),
        final(double).deeds().last() matches Deed::Launched(l) && l.program == program@ && l.args
            == text::views(args@) && l.refused is Some == r is Err,
{
}

/// A process of a double says that it runs as often as it was told to, unless it was killed.
pub proof fn law_processes_run_their_time(child: &mut FakeChild, running: bool)
    requires
        call_ensures(FakeChild::is_running, (child,), running),
    ensures
        running <==> !old(child).killed() && old(child).remaining() > 0,
        final(child).killed() == old(child).killed(),
        running && old(child).remaining() < usize::MAX ==> final(child).remaining() + 1
            == old(child).remaining(),
        !running ==> final(child).remaining() == old(child).remaining(),
        old(child).remaining() == usize::MAX ==> final(child).remaining() == usize::MAX,
{
}

} // verus!
