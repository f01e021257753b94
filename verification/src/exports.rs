//! The calls that the library answers, each on the bytes that its caller passes:
//! a JSON object, or nothing.

use vstd::prelude::*;

use crate::codec::{call_args, decode_args, encode_reply, opt_bytes, replies};
use crate::json::{Json, JsonV};
use crate::names::{
    op_valid_label_value, op_valid_name, valid_label_value_outcome, valid_name_outcome,
};
use crate::plan::Op;
use crate::quantity::{
    op_format_quantity, op_parse_quantity, quantity_text, FormatRequest, QuantityText,
    QuantityTextV,
};
use crate::resource::{op_parse_resource_ref, resource_ref_outcome};
use crate::selector::{
    build_selector_outcome, op_build_selector, op_parse_selector, op_selector_matches,
    parse_selector_outcome, selector_matches_outcome,
};
use crate::session::{begin, started, Step};
use crate::text::opt_text;

verus! {

/// Answers the version of the package, whatever the arguments are.
pub fn k8s__pkg_version(_args: Option<&[u8]>, version: &str) -> (r: String)
    ensures
        replies(r@, Ok(JsonV::blank().with("version"@, JsonV::Text(version@)))),
{
    encode_reply(Ok(Json::blank().with("version", Json::of_text(version))))
}

/// Validates an object name, and answers at once.
pub fn k8s__valid_name(args: Option<&[u8]>) -> (r: String)
    ensures
        replies(r@, valid_name_outcome(call_args(opt_bytes(args)))),
{
    encode_reply(op_valid_name(&decode_args(args)))
}

/// Validates a label value, and answers at once.
pub fn k8s__valid_label_value(args: Option<&[u8]>) -> (r: String)
    ensures
        replies(r@, valid_label_value_outcome(call_args(opt_bytes(args)))),
{
    encode_reply(op_valid_label_value(&decode_args(args)))
}

/// Parses a label selector, and answers at once.
pub fn k8s__parse_selector(args: Option<&[u8]>) -> (r: String)
    ensures
        replies(r@, parse_selector_outcome(call_args(opt_bytes(args)))),
{
    encode_reply(op_parse_selector(&decode_args(args)))
}

/// Builds a label selector, and answers at once.
pub fn k8s__build_selector(args: Option<&[u8]>) -> (r: String)
    ensures
        replies(r@, build_selector_outcome(call_args(opt_bytes(args)))),
{
    encode_reply(op_build_selector(&decode_args(args)))
}

/// Matches labels against a label selector, and answers at once.
pub fn k8s__selector_matches(args: Option<&[u8]>) -> (r: String)
    ensures
        replies(r@, selector_matches_outcome(call_args(opt_bytes(args)))),
{
    encode_reply(op_selector_matches(&decode_args(args)))
}

/// Parses a resource reference, and answers at once.
pub fn k8s__parse_resource_ref(args: Option<&[u8]>) -> (r: String)
    ensures
        replies(r@, resource_ref_outcome(call_args(opt_bytes(args)))),
{
    encode_reply(op_parse_resource_ref(&decode_args(args)))
}

/// Cuts a quantity into its number and its suffix; where that cannot be done, the
/// reply says why.
pub fn k8s__parse_quantity(args: Option<&[u8]>) -> (r: Result<QuantityText, String>)
    ensures
        match r {
            Ok(q) => quantity_text(call_args(opt_bytes(args))) == Ok::<QuantityTextV, Seq<char>>(q@),
            Err(s) => quantity_text(call_args(opt_bytes(args))) matches Err(e) && replies(
                s@,
                Err(e),
            ),
        },
{
    match op_parse_quantity(&decode_args(args)) {
        Ok(q) => Ok(q),
        Err(e) => Err(encode_reply(Err(e))),
    }
}

/// Reads the value that is to be written as a quantity; where there is none, the reply
/// says so.
pub fn k8s__format_quantity(args: Option<&[u8]>) -> (r: Result<FormatRequest, String>)
    ensures
        ({
            let opts = call_args(opt_bytes(args));
            match r {
                Ok(f) => opts.field("value"@) == JsonV::Number(crate::json::number_model(f.value))
                    && opt_text(f.suffix) == opts.field("suffix"@).text(),
                Err(s) => !(opts.field("value"@) is Number) && replies(
                    s@,
                    Err("missing value"@),
                ),
            }
        }),
{
    match op_format_quantity(&decode_args(args)) {
        Ok(f) => Ok(f),
        Err(e) => Err(encode_reply(Err(e))),
    }
}

/// The first step of reading the server's version.
pub fn k8s__version(args: Option<&[u8]>) -> (r: Step)
    ensures
        r@ == started(Op::Version, call_args(opt_bytes(args))),
{
    begin(Op::Version, args)
}

/// The first step of asking whether the server answers.
pub fn k8s__ping(args: Option<&[u8]>) -> (r: Step)
    ensures
        r@ == started(Op::Ping, call_args(opt_bytes(args))),
{
    begin(Op::Ping, args)
}

/// The first step of listing the contexts.
pub fn k8s__contexts(args: Option<&[u8]>) -> (r: Step)
    ensures
        r@ == started(Op::Contexts, call_args(opt_bytes(args))),
{
    begin(Op::Contexts, args)
}

/// The first step of reading the current context.
pub fn k8s__current_context(args: Option<&[u8]>) -> (r: Step)
    ensures
        r@ == started(Op::CurrentContext, call_args(opt_bytes(args))),
{
    begin(Op::CurrentContext, args)
}

/// The first step of listing the namespaces.
pub fn k8s__namespaces(args: Option<&[u8]>) -> (r: Step)
    ensures
        r@ == started(Op::Namespaces, call_args(opt_bytes(args))),
{
    begin(Op::Namespaces, args)
}

/// The first step of listing the resources.
pub fn k8s__api_resources(args: Option<&[u8]>) -> (r: Step)
    ensures
        r@ == started(Op::ApiResources, call_args(opt_bytes(args))),
{
    begin(Op::ApiResources, args)
}

/// The first step of listing the objects of a kind.
pub fn k8s__get(args: Option<&[u8]>) -> (r: Step)
    ensures
        r@ == started(Op::Get, call_args(opt_bytes(args))),
{
    begin(Op::Get, args)
}

/// The first step of reading one object.
pub fn k8s__get_one(args: Option<&[u8]>) -> (r: Step)
    ensures
        r@ == started(Op::GetOne, call_args(opt_bytes(args))),
{
    begin(Op::GetOne, args)
}

/// The first step of creating an object.
pub fn k8s__create(args: Option<&[u8]>) -> (r: Step)
    ensures
        r@ == started(Op::Create, call_args(opt_bytes(args))),
{
    begin(Op::Create, args)
}

/// The first step of replacing an object.
pub fn k8s__replace(args: Option<&[u8]>) -> (r: Step)
    ensures
        r@ == started(Op::Replace, call_args(opt_bytes(args))),
{
    begin(Op::Replace, args)
}

/// The first step of applying a document.
pub fn k8s__apply(args: Option<&[u8]>) -> (r: Step)
    ensures
        r@ == started(Op::Apply, call_args(opt_bytes(args))),
{
    begin(Op::Apply, args)
}

/// The first step of patching an object.
pub fn k8s__patch(args: Option<&[u8]>) -> (r: Step)
    ensures
        r@ == started(Op::Patch, call_args(opt_bytes(args))),
{
    begin(Op::Patch, args)
}

/// The first step of deleting an object.
pub fn k8s__delete(args: Option<&[u8]>) -> (r: Step)
    ensures
        r@ == started(Op::Delete, call_args(opt_bytes(args))),
{
    begin(Op::Delete, args)
}

/// The first step of scaling an object.
pub fn k8s__scale(args: Option<&[u8]>) -> (r: Step)
    ensures
        r@ == started(Op::Scale, call_args(opt_bytes(args))),
{
    begin(Op::Scale, args)
}

/// The first step of reading a pod's log.
pub fn k8s__logs(args: Option<&[u8]>) -> (r: Step)
    ensures
        r@ == started(Op::Logs, call_args(opt_bytes(args))),
{
    begin(Op::Logs, args)
}

/// The first step of labelling an object.
pub fn k8s__label(args: Option<&[u8]>) -> (r: Step)
    ensures
        r@ == started(Op::Label, call_args(opt_bytes(args))),
{
    begin(Op::Label, args)
}

/// The first step of annotating an object.
pub fn k8s__annotate(args: Option<&[u8]>) -> (r: Step)
    ensures
        r@ == started(Op::Annotate, call_args(opt_bytes(args))),
{
    begin(Op::Annotate, args)
}

/// The first step of cordoning a node.
pub fn k8s__cordon(args: Option<&[u8]>) -> (r: Step)
    ensures
        r@ == started(Op::Cordon, call_args(opt_bytes(args))),
{
    begin(Op::Cordon, args)
}

/// The first step of uncordoning a node.
pub fn k8s__uncordon(args: Option<&[u8]>) -> (r: Step)
    ensures
        r@ == started(Op::Uncordon, call_args(opt_bytes(args))),
{
    begin(Op::Uncordon, args)
}

/// The first step of setting a container's image.
pub fn k8s__set_image(args: Option<&[u8]>) -> (r: Step)
    ensures
        r@ == started(Op::SetImage, call_args(opt_bytes(args))),
{
    begin(Op::SetImage, args)
}

/// The first step of restarting a workload.
pub fn k8s__rollout_restart(args: Option<&[u8]>) -> (r: Step)
    ensures
        r@ == started(Op::RolloutRestart, call_args(opt_bytes(args))),
{
    begin(Op::RolloutRestart, args)
}

/// The first step of reading the status of a rollout.
pub fn k8s__rollout_status(args: Option<&[u8]>) -> (r: Step)
    ensures
        r@ == started(Op::RolloutStatus, call_args(opt_bytes(args))),
{
    begin(Op::RolloutStatus, args)
}

/// The first step of listing cluster events.
pub fn k8s__events(args: Option<&[u8]>) -> (r: Step)
    ensures
        r@ == started(Op::Events, call_args(opt_bytes(args))),
{
    begin(Op::Events, args)
}

/// The first step of reading the metrics of pods.
pub fn k8s__top_pods(args: Option<&[u8]>) -> (r: Step)
    ensures
        r@ == started(Op::TopPods, call_args(opt_bytes(args))),
{
    begin(Op::TopPods, args)
}

/// The first step of reading the metrics of nodes.
pub fn k8s__top_nodes(args: Option<&[u8]>) -> (r: Step)
    ensures
        r@ == started(Op::TopNodes, call_args(opt_bytes(args))),
{
    begin(Op::TopNodes, args)
}

/// The first step of evicting a pod.
pub fn k8s__evict(args: Option<&[u8]>) -> (r: Step)
    ensures
        r@ == started(Op::Evict, call_args(opt_bytes(args))),
{
    begin(Op::Evict, args)
}

/// The first step of waiting for an object.
pub fn k8s__wait(args: Option<&[u8]>) -> (r: Step)
    ensures
        r@ == started(Op::Wait, call_args(opt_bytes(args))),
{
    begin(Op::Wait, args)
}

/// The first step of reading the history of a rollout.
pub fn k8s__rollout_history(args: Option<&[u8]>) -> (r: Step)
    ensures
        r@ == started(Op::RolloutHistory, call_args(opt_bytes(args))),
{
    begin(Op::RolloutHistory, args)
}

/// The first step of making an autoscaler.
pub fn k8s__autoscale(args: Option<&[u8]>) -> (r: Step)
    ensures
        r@ == started(Op::Autoscale, call_args(opt_bytes(args))),
{
    begin(Op::Autoscale, args)
}

/// The first step of tainting a node.
pub fn k8s__taint(args: Option<&[u8]>) -> (r: Step)
    ensures
        r@ == started(Op::Taint, call_args(opt_bytes(args))),
{
    begin(Op::Taint, args)
}

} // verus!
