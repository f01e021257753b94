//! What holds of every operation under way.

use vstd::prelude::*;

use crate::cluster::{CallV, DiscoveredV, EventV, FoundV};
use crate::codec::object_form_of;
use crate::json::JsonV;
use crate::plan::{planned, AimV, Op, PlanV};
use crate::resource::{first_where, is_named, kind_found};
use crate::session::{
    call_sent, evicted, started, wait_is_over, wait_reply, wait_timeout, ActionV, SessionV, Stage,
};
use crate::text::same_ignoring_case;

verus! {

/// Bad arguments answer their fault and reach nothing but the connection: either the
/// operation ends at once, or it ends as soon as the connection stands.
pub proof fn law_bad_arguments(op: Op, opts: JsonV, namespace: Seq<char>)
    requires
        planned(op, opts) is Err,
    ensures
        ({
            let fault = ActionV::Finish(Err(planned(op, opts)->Err_0));
            let first = started(op, opts);
            ||| first.action == fault
            ||| first.action is Connect && first.session.next(
                EventV::Connected { namespace },
            ).action == fault
        }),
{
}

/// A failure ends the operation, and what the failure says is the answer. Only an
/// eviction that was already sent counts as made.
pub proof fn law_failure_is_answered(s: SessionV, message: Seq<char>)
    ensures
        s.next(EventV::Unsent(message)).action == ActionV::Finish(Err(message)),
        s.stage != Stage::Receipt ==> s.next(EventV::Failed(message)).action == ActionV::Finish(
            Err(message),
        ),
        s.stage == Stage::Receipt ==> s.next(EventV::Failed(message)).action == ActionV::Finish(
            Ok(evicted(s.opts)),
        ),
{
}

/// An operation that has ended answers nothing more.
pub proof fn law_ended_stays_ended(s: SessionV, e: EventV)
    requires
        s.stage == Stage::Nothing,
    ensures
        s.next(e).session.stage == Stage::Nothing,
        s.next(e).action matches ActionV::Finish(r) && r is Err,
{
}

/// How many steps at most are ahead of an operation that does not wait.
pub open spec fn steps_ahead(stage: Stage) -> nat {
    match stage {
        Stage::Nothing => 0,
        Stage::Contexts => 1,
        Stage::Version => 1,
        Stage::Body => 1,
        Stage::Receipt => 1,
        Stage::SecondAnswer => 1,
        Stage::Check => 3,
        Stage::Answer => 2,
        Stage::Rest => 3,
        Stage::Deadline => 3,
        Stage::Clock => 3,
        Stage::Discovery => 4,
        Stage::Connection => 5,
    }
}

/// Every operation but `wait` comes to its end, whatever happens: each event brings it
/// nearer.
pub proof fn law_comes_to_an_end(s: SessionV, e: EventV)
    requires
        s.op != Op::Wait,
        s.stage != Stage::Nothing,
        s.stage != Stage::Check,
        s.stage != Stage::Rest,
        s.stage != Stage::Deadline,
    ensures
        steps_ahead(s.next(e).session.stage) < steps_ahead(s.stage),
        s.next(e).session.op == s.op,
        s.next(e).session.stage != Stage::Check,
        s.next(e).session.stage != Stage::Rest,
        s.next(e).session.stage != Stage::Deadline,
        s.next(e).session.stage == Stage::Nothing <==> s.next(e).action is Finish,
{
}

/// The operation and its arguments stay what they are.
pub proof fn law_arguments_stay(s: SessionV, e: EventV)
    ensures
        s.next(e).session.op == s.op,
        s.next(e).session.opts == s.opts,
{
}

/// A wait that has looked at its object answers exactly if what it waits for is the
/// case; else it looks at its deadline.
pub proof fn law_wait_answers_when_met(s: SessionV, obj: Option<JsonV>)
    requires
        s.op == Op::Wait,
        s.stage == Stage::Answer,
    ensures
        wait_is_over(s.opts, obj) ==> s.next(EventV::Perhaps(obj)).action == ActionV::Finish(
            Ok(wait_reply(s.opts)),
        ),
        !wait_is_over(s.opts, obj) ==> s.next(EventV::Perhaps(obj)).action
            == ActionV::CheckDeadline,
{
}

/// A wait whose deadline has passed answers that; one whose deadline has not rests for
/// two seconds and asks for its object again, with the same request.
pub proof fn law_wait_goes_on(s: SessionV, f: FoundV, obj: Option<JsonV>)
    requires
        s.op == Op::Wait,
        s.stage == Stage::Answer,
        s.target == Some(f),
        planned(s.op, s.opts) is Ok,
        !wait_is_over(s.opts, obj),
    ensures
        ({
            let unmet = s.next(EventV::Perhaps(obj)).session;
            &&& unmet.next(EventV::Overdue(true)).action == ActionV::Finish(
                Err(wait_timeout(s.opts)),
            )
            &&& unmet.next(EventV::Overdue(false)).action == ActionV::Pause(2)
            &&& unmet.next(EventV::Overdue(false)).session.next(EventV::Ready) == s.look()
            &&& s.look().session == s
            &&& s.look().action is Perform
        }),
{
    let unmet = s.next(EventV::Perhaps(obj)).session;
    let rested = unmet.next(EventV::Overdue(false)).session;
    assert(rested.look().session =~= s);
    assert(s.look().session =~= s);
}

/// The word for the kind that an operation is about, where it is to be looked up.
pub open spec fn kind_asked(op: Op, opts: JsonV) -> Option<Seq<char>> {
    match planned(op, opts) {
        Ok(PlanV::Call { aim: AimV::Kind { kind, .. }, .. }) => Some(kind),
        Ok(PlanV::Restart { kind, .. }) => Some(kind),
        _ => None,
    }
}

/// A kind that discovery does not know is answered as unknown, and nothing is asked of
/// the cluster.
pub proof fn law_unknown_kind(s: SessionV, d: DiscoveredV, kind: Seq<char>)
    requires
        s.stage == Stage::Discovery,
        kind_asked(s.op, s.opts) == Some(kind),
        kind_found(d, kind) is None,
    ensures
        s.next(EventV::Discovered(d)).action == ActionV::Finish(Err("unknown kind: "@ + kind)),
{
}

/// A document that is to be created or to replace an object, and describes none, is refused
/// with what is wrong with it once its kind is known, and nothing is sent.
pub proof fn law_no_object_is_refused(
    s: SessionV,
    d: DiscoveredV,
    kind: Seq<char>,
    namespace: Option<Seq<char>>,
    call: CallV,
    message: Seq<char>,
)
    requires
        s.stage == Stage::Discovery,
        planned(s.op, s.opts) == Ok::<PlanV, Seq<char>>(
            PlanV::Call { aim: AimV::Kind { kind, namespace }, call },
        ),
        kind_found(d, kind) is Some,
        call_sent(call) == Err::<CallV, Seq<char>>(message),
    ensures
        s.next(EventV::Discovered(d)).action == ActionV::Finish(Err(message)),
        call matches CallV::Create(doc) ==> object_form_of(doc) == Err::<JsonV, Seq<char>>(
            message,
        ),
        call matches CallV::Replace { doc, .. } ==> object_form_of(doc) == Err::<
            JsonV,
            Seq<char>,
        >(message),
{
}

proof fn lemma_first_where(found: Seq<FoundV>, p: spec_fn(FoundV) -> bool, i: int)
    requires
        0 <= i < found.len(),
        p(found[i]),
    ensures
        first_where(found, p) matches Some(f) && p(f) && found.contains(f),
    decreases found.len(),
{
    if p(found.first()) {
        assert(found[0] == found.first());
    } else {
        lemma_first_where(found.drop_first(), p, i - 1);
        let f = first_where(found.drop_first(), p)->0;
        let k = choose|k: int| 0 <= k < found.drop_first().len() && found.drop_first()[k] == f;
        assert(found[k + 1] == f);
    }
}

/// Every recommended resource is found by its kind and by its plural, in whatever
/// case they are written: what is found is recommended and has that name.
pub proof fn law_recommended_is_found(d: DiscoveredV, i: int, word: Seq<char>)
    requires
        0 <= i < d.recommended.len(),
        same_ignoring_case(d.recommended[i].resource.kind, word) || same_ignoring_case(
            d.recommended[i].resource.plural,
            word,
        ),
    ensures
        kind_found(d, word) matches Some(f) && d.recommended.contains(f) && (same_ignoring_case(
            f.resource.kind,
            word,
        ) || same_ignoring_case(f.resource.plural, word)),
{
    lemma_first_where(d.recommended, is_named(word), i);
}

} // verus!
