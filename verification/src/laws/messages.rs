//! What failures say.

use vstd::prelude::*;

use crate::block;
use crate::csi::Code;
use crate::csi;
use crate::exec::Answer;
use crate::exec;
use crate::laws::words;
use crate::nfs;
use crate::provision;
use crate::sharemanager::Settings;
use crate::text;

verus! {

/// Numbers with a sign are told apart.
pub proof fn law_signed_numbers_are_told_apart(a: int, b: int)
    ensures
        a >= 0 ==> text::signed_decimal(a) == text::decimal(a as nat),
        a < 0 ==> text::signed_decimal(a) == "-"@ + text::decimal((-a) as nat),
        text::signed_decimal(a) == text::signed_decimal(b) ==> a == b,
{
    reveal_strlit("-");
    assert("-"@.len() == 1 && "-"@[0] == '-');
    if text::signed_decimal(a) == text::signed_decimal(b) {
        if a >= 0 && b >= 0 {
            words::law_decimals_are_told_apart(a as nat, b as nat);
        } else if a < 0 && b < 0 {
            words::lemma_same_tail(
                "-"@,
                text::decimal((-a) as nat),
                text::decimal((-b) as nat),
            );
            words::law_decimals_are_told_apart((-a) as nat, (-b) as nat);
        } else if a >= 0 {
            words::lemma_decimal_is_not_empty(a as nat);
            words::law_decimals_are_digits(a as nat, 0);
            assert(text::signed_decimal(b)[0] == '-');
        } else {
            words::lemma_decimal_is_not_empty(b as nat);
            words::law_decimals_are_digits(b as nat, 0);
            assert(text::signed_decimal(a)[0] == '-');
        }
    }
}

/// A step that failed says with which code its command did, and different codes differently.
pub proof fn law_exit_codes_are_told_apart(a: Option<i32>, b: Option<i32>)
    ensures
        block::code_text(a) == block::code_text(b) ==> a == b,
        a is Some ==> block::code_text(a) == "Some("@ + text::signed_decimal(a->0 as int) + ")"@,
        a is None ==> block::code_text(a) == "None"@,
{
    reveal_strlit("Some(");
    reveal_strlit("None");
    assert("Some("@[0] == 'S' && "None"@[0] == 'N');
    if block::code_text(a) == block::code_text(b) {
        if a is Some && b is Some {
            let x = text::signed_decimal(a->0 as int);
            let y = text::signed_decimal(b->0 as int);
            words::lemma_same_head("Some("@ + x, "Some("@ + y, ")"@);
            words::lemma_same_tail("Some("@, x, y);
            law_signed_numbers_are_told_apart(a->0 as int, b->0 as int);
        } else if a is Some {
            assert(block::code_text(a)[0] == 'S');
        } else if b is Some {
            assert(block::code_text(b)[0] == 'S');
        }
    }
}

/// How a command exited is worded by its code.
pub proof fn law_exits_are_told_apart(a: i32, b: i32)
    ensures
        exec::exit_text(a) == "exit status: "@ + text::signed_decimal(a as int),
        exec::exit_text(a) == exec::exit_text(b) ==> a == b,
{
    words::lemma_same_tail(
        "exit status: "@,
        text::signed_decimal(a as int),
        text::signed_decimal(b as int),
    );
    law_signed_numbers_are_told_apart(a as int, b as int);
}

/// A command that did not run to its end says why.
pub proof fn law_errors_say_why(reason: Seq<char>, program: Seq<char>, secs: u64)
    ensures
        exec::error_text(Answer::NotStarted { reason }) == "failed to spawn: "@ + reason,
        exec::cause_text(Answer::NotStarted { reason }) == reason,
        exec::error_text(Answer::TimedOut { program, secs }) == program + " timed out after "@
            + text::decimal(secs as nat) + "s"@,
        exec::cause_text(Answer::TimedOut { program, secs }) == program + " timed out after "@
            + text::decimal(secs as nat) + "s"@,
{
}

/// A step succeeds where its command did. It says otherwise how the command failed, or why it did
/// not run.
pub proof fn law_steps_say_how_they_failed(
    answer: Answer,
    unstarted: Seq<char>,
    unsuccessful: Seq<char>,
)
    ensures
        ({
            let verdict = block::step_verdict(answer, unstarted, unsuccessful);
            &&& verdict is Ok <==> (answer matches Answer::Finished { success, .. } && success)
            &&& verdict matches Err(message) ==> match answer {
                Answer::Finished { code, .. } => message == unsuccessful + block::code_text(code),
                Answer::NotStarted { reason } => message == unstarted + ("failed to spawn: "@
                    + reason),
                Answer::TimedOut { .. } => message == unstarted + exec::error_text(answer),
            }
        }),
{
}

/// A mount that failed is an internal error that says why.
pub proof fn law_failed_mounts_say_why(answer: Answer)
    ensures
        csi::mount_verdict(answer) is Ok <==> (answer matches Answer::Finished { success, .. }
            && success),
        csi::mount_verdict(answer) matches Err(e) ==> e.code == Code::Internal && match answer {
            Answer::Finished { status, .. } => e.message == "mount failed: "@ + status,
            Answer::NotStarted { reason } => e.message == reason,
            Answer::TimedOut { .. } => e.message == exec::error_text(answer),
        },
{
}

proof fn lemma_joined_holds(list: Seq<Seq<char>>, sep: Seq<char>, i: int)
    requires
        0 <= i < list.len(),
    ensures
        text::contains_text(text::joined(list, sep), list[i]),
    decreases list.len(),
{
    let none = Seq::<char>::empty();
    if list.len() == 1 {
        words::law_what_is_put_in_is_found(none, list[0], none);
        assert(none + list[0] + none =~= list[0]);
    } else {
        let earlier = text::joined(list.drop_last(), sep);
        if i == list.len() - 1 {
            words::law_what_is_put_in_is_found(earlier + sep, list[i], none);
            assert(earlier + sep + list[i] + none =~= earlier + sep + list.last());
        } else {
            lemma_joined_holds(list.drop_last(), sep, i);
            assert(list.drop_last()[i] == list[i]);
            words::lemma_found_inside(none, earlier, sep + list.last(), list[i]);
            assert(none + earlier + (sep + list.last()) =~= earlier + sep + list.last());
        }
    }
}

/// Where there is no suitable node the message names all that were to be avoided.
pub proof fn law_avoided_nodes_are_named(avoid: Seq<Seq<char>>, i: int)
    requires
        0 <= i < avoid.len(),
    ensures
        text::contains_text(provision::no_node_text(avoid), text::quoted(avoid[i])),
{
    let names = Seq::new(avoid.len(), |k: int| text::quoted(avoid[k]));
    lemma_joined_holds(names, ", "@, i);
    assert(names[i] == text::quoted(avoid[i]));
    let inner = text::joined(names, ", "@);
    words::lemma_found_inside("["@, inner, "]"@, names[i]);
    words::lemma_found_inside(
        "no suitable node found (avoid="@,
        provision::list_text(avoid),
        ")"@,
        names[i],
    );
}

/// A value that may not go into the configuration is named in the refusal, unless it is empty.
pub proof fn law_refused_values_are_named(value: Seq<char>)
    ensures
        nfs::config_value_verdict(value) is Err && value.len() > 0 ==> text::contains_text(
            nfs::config_value_verdict(value)->Err_0,
            text::quoted(value),
        ),
{
    let none = Seq::<char>::empty();
    let intro = "invalid character in ganesha config value: "@;
    words::law_what_is_put_in_is_found(intro, text::quoted(value), none);
    assert(intro + text::quoted(value) + none =~= intro + text::quoted(value));
}

/// Settings that only have a bad mode are refused with a message that names the mode.
pub proof fn law_refused_modes_are_named(settings: Settings)
    requires
        nfs::config_value_verdict(settings.volume@) is Ok,
        nfs::config_value_verdict(settings.mount_point@) is Ok,
        nfs::config_value_verdict(settings.allowed_clients@) is Ok,
        settings.verdict() is Err,
    ensures
        text::contains_text(settings.verdict()->Err_0, text::quoted(settings.export_mode@)),
{
    words::law_what_is_put_in_is_found(
        "invalid --export-mode "@,
        text::quoted(settings.export_mode@),
        ", expected octal like 0777"@,
    );
}

} // verus!
