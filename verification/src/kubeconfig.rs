//! Kubeconfigs: what their text says of the contexts.

use vstd::prelude::*;

use crate::cluster::{ContextEntry, Contexts, ContextsV};

verus! {

/// The contexts of the kubeconfig that `serde_yaml::from_str` reads from a text, or what
/// its error says.
pub uninterp spec fn kubeconfig_of_text(text: Seq<char>) -> Result<ContextsV, Seq<char>>;

/// What reading a kubeconfig gave.
pub open spec fn contexts_read_from(r: Result<Contexts, String>) -> Result<ContextsV, Seq<char>> {
    match r {
        Ok(c) => Ok(c@),
        Err(e) => Err(e@),
    }
}

/// Calls `serde_yaml::from_str` for the `Kubeconfig` of kube: the contexts that it reads,
/// and what its error says, depend on the text alone. A context has its name and, where
/// the kubeconfig describes it, the cluster, the user and the namespace given there.
#[verifier::external_body]
pub(crate) fn parse_kubeconfig(text: &str) -> (r: Result<Contexts, String>)
    ensures
        contexts_read_from(r) == kubeconfig_of_text(text@),
{
    let read = serde_yaml::from_str::<kube::config::Kubeconfig>(text);
    let kubeconfig = read.map_err(|e| e.to_string())?;
    let entries = kubeconfig.contexts.into_iter().map(|c| ContextEntry {
        name: c.name,
        cluster: c.context.as_ref().map(|x| x.cluster.clone()),
        user: c.context.as_ref().and_then(|x| x.user.clone()),
        namespace: c.context.as_ref().and_then(|x| x.namespace.clone()),
    });
    Ok(Contexts { entries: entries.collect(), current: kubeconfig.current_context })
}

} // verus!
