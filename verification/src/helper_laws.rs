//! What holds of every command under way.

use vstd::prelude::*;

use crate::answer::context_documents;
use crate::cluster::{ContextsV, EventV};
use crate::codec::{line, object_line};
use crate::command::CommandV;
use crate::helper::{begun, lines, object_lines, MoveV, Phase, RunV, SourceV};
use crate::json::{text_or_null, JsonV};
use crate::kubeconfig::kubeconfig_of_text;

verus! {

/// A failure ends the program, and the fault ends with what the failure says. Only a
/// ping takes it for an answer, and only the search for a kubeconfig goes on.
pub proof fn law_failure_ends_the_program(run: RunV, message: Seq<char>)
    requires
        run.command != CommandV::Ping || run.phase != Phase::Version,
        run.phase != Phase::UsualConfig,
    ensures
        match run.next(EventV::Failed(message)).next {
            MoveV::Finish { output, fault: Some(f) } => {
                &&& output == Seq::<char>::empty()
                &&& f.len() >= message.len()
                &&& f.skip(f.len() - message.len()) == message
            },
            _ => false,
        },
{
    let f = (run.next(EventV::Failed(message)).next->fault)->0;
    assert(f.skip(f.len() - message.len()) =~= message);
}

/// A ping that was sent always answers: whether the server did.
pub proof fn law_ping_answers(run: RunV, version: JsonV, message: Seq<char>)
    requires
        run.command == CommandV::Ping,
        run.phase == Phase::Version,
    ensures
        run.next(EventV::Document(version)).next == (MoveV::Finish {
            output: line(JsonV::blank().with("ok"@, JsonV::Bool(true))),
            fault: None,
        }),
        run.next(EventV::Failed(message)).next == (MoveV::Finish {
            output: line(JsonV::blank().with("ok"@, JsonV::Bool(false))),
            fault: None,
        }),
{
}

/// The lines of two lists are those of the one and then those of the other.
pub proof fn law_lines_append(a: Seq<JsonV>, b: Seq<JsonV>)
    ensures
        lines(a + b) == lines(a) + lines(b),
    decreases b.len(),
{
    if b.len() == 0 {
        assert(a + b =~= a);
        assert(lines(a) + lines(b) =~= lines(a));
    } else {
        let front = b.drop_last();
        assert((a + b).drop_last() =~= a + front);
        law_lines_append(a, front);
        let s = line(b.last());
        assert((lines(a) + lines(front)) + s =~= lines(a) + (lines(front) + s));
    }
}

/// So are the lines of two lists of objects.
pub proof fn law_object_lines_append(a: Seq<JsonV>, b: Seq<JsonV>)
    ensures
        object_lines(a + b) == object_lines(a) + object_lines(b),
    decreases b.len(),
{
    if b.len() == 0 {
        assert(a + b =~= a);
        assert(object_lines(a) + object_lines(b) =~= object_lines(a));
    } else {
        let front = b.drop_last();
        assert((a + b).drop_last() =~= a + front);
        law_object_lines_append(a, front);
        let s = object_line(b.last());
        assert((object_lines(a) + object_lines(front)) + s =~= object_lines(a) + (object_lines(
            front,
        ) + s));
    }
}

/// How many turns at most are ahead of a command that has not come to a stream.
pub open spec fn turns_ahead(phase: Phase) -> nat {
    match phase {
        Phase::Nothing => 0,
        Phase::File => 10,
        Phase::Contexts => 10,
        Phase::CustomConfig => 9,
        Phase::UsualConfig => 8,
        Phase::InClusterConfig => 7,
        Phase::Version => 1,
        Phase::End => 1,
        Phase::Stream => 2,
        Phase::Answer => 3,
        Phase::Discovery => 4,
        Phase::Input => 5,
        Phase::Connection => 6,
    }
}

/// A command comes to its stream or its end, whatever happens: each event brings it
/// nearer. It asks for nothing more exactly when it is at its end.
pub proof fn law_comes_to_stream_or_end(run: RunV, e: EventV)
    requires
        run.phase != Phase::Nothing,
        run.phase != Phase::Stream,
    ensures
        turns_ahead(run.next(e).run.phase) < turns_ahead(run.phase),
        run.next(e).run.phase == Phase::Nothing <==> run.next(e).next is Finish,
{
}

/// On its stream a command goes on or ends.
pub proof fn law_stream_goes_on_or_ends(run: RunV, e: EventV)
    requires
        run.phase == Phase::Stream,
    ensures
        match run.next(e).next {
            MoveV::Next(_) => run.next(e).run == run,
            MoveV::Join => run.next(e).run.phase == Phase::End,
            MoveV::Finish { .. } => run.next(e).run.phase == Phase::Nothing,
            _ => false,
        },
{
    let after = run.next(e).run;
    if after.phase == Phase::Stream {
        assert(after =~= run);
    }
}

/// What a command on contexts prints for the contexts of a kubeconfig.
pub open spec fn contexts_output(command: CommandV, c: ContextsV) -> Seq<char> {
    if command == CommandV::Contexts {
        lines(context_documents(c))
    } else {
        line(JsonV::blank().with("current_context"@, text_or_null(c.current)))
    }
}

/// A listing of contexts, and that of the current one, needs no connection. With an
/// explicit kubeconfig the file is all it asks for, and it prints the contexts that the
/// text of the file holds, or the fault of the text; without one it asks for the contexts
/// in the usual places, and prints those.
pub proof fn law_contexts_need_no_connection(
    command: CommandV,
    kubeconfig: Option<Seq<char>>,
    context: Option<Seq<char>>,
    default_namespace: Option<Seq<char>>,
    text: Seq<char>,
    c: ContextsV,
)
    requires
        command == CommandV::Contexts || command == CommandV::CurrentContext,
    ensures
        ({
            let first = begun(command, kubeconfig, context, default_namespace);
            match kubeconfig {
                None => {
                    &&& first.next == MoveV::ReadContexts
                    &&& first.run.next(EventV::Contexts(c)).next == (MoveV::Finish {
                        output: contexts_output(command, c),
                        fault: None,
                    })
                },
                Some(path) => {
                    &&& first.next == MoveV::ReadFile(path)
                    &&& first.run.next(EventV::Input(text)).next == (match kubeconfig_of_text(
                        text,
                    ) {
                        Ok(held) => MoveV::Finish {
                            output: contexts_output(command, held),
                            fault: None,
                        },
                        Err(e) => MoveV::Finish {
                            output: Seq::empty(),
                            fault: Some("parsing kubeconfig: "@ + e),
                        },
                    })
                },
            }
        }),
{
}

/// With an explicit kubeconfig any other command reads the file first, and connects with
/// the text of the file and the context of the command line, or not at all.
pub proof fn law_explicit_kubeconfig(
    command: CommandV,
    path: Seq<char>,
    context: Option<Seq<char>>,
    default_namespace: Option<Seq<char>>,
    text: Seq<char>,
    message: Seq<char>,
)
    requires
        command != CommandV::Contexts && command != CommandV::CurrentContext,
    ensures
        ({
            let first = begun(command, Some(path), context, default_namespace);
            let second = first.run.next(EventV::Input(text));
            &&& first.next == MoveV::ReadFile(path)
            &&& kubeconfig_of_text(text) is Ok ==> second.next == MoveV::Configure(
                SourceV::Text { text, context },
            ) && second.run.next(EventV::Ready).next == MoveV::Connect
            &&& kubeconfig_of_text(text) is Err ==> second.next is Finish
            &&& first.run.next(EventV::Failed(message)).next is Finish
            &&& second.run.next(EventV::Failed(message)).next is Finish
        }),
{
}

/// Without an explicit kubeconfig a connection is configured from the usual places, with
/// the context of the command line, and failing that from the pod that the program runs in; the fault is that of the second.
pub proof fn law_falls_back_to_the_pod(
    command: CommandV,
    context: Option<Seq<char>>,
    default_namespace: Option<Seq<char>>,
    first_message: Seq<char>,
    second_message: Seq<char>,
)
    requires
        command != CommandV::Contexts && command != CommandV::CurrentContext,
    ensures
        ({
            let first = begun(command, None, context, default_namespace);
            let second = first.run.next(EventV::Failed(first_message));
            &&& first.next == MoveV::Configure(SourceV::UsualPlaces { context })
            &&& first.run.next(EventV::Ready).next == MoveV::Connect
            &&& second.next == MoveV::Configure(SourceV::InCluster)
            &&& second.run.next(EventV::Ready).next == MoveV::Connect
            &&& second.run.next(EventV::Failed(second_message)).next == (MoveV::Finish {
                output: Seq::empty(),
                fault: Some("no kubeconfig and not in-cluster: "@ + second_message),
            })
        }),
{
}

} // verus!
