//! Process-wide configuration: prompt targets and the routing policy.

use vstd::prelude::*;

verus! {

/// One parameter of a prompt target's schema.
pub struct ParamSpec {
    pub name: String,
    pub required: bool,
}

/// A configured destination a request may be routed to.
pub struct PromptTarget {
    pub name: String,
    /// The natural-language description that routing compares against.
    pub description: String,
    pub parameters: Vec<ParamSpec>,
    /// The upstream cluster and path that serve this target.
    pub upstream: String,
    pub path: String,
}

/// The gateway's immutable configuration.
pub struct GatewayConfig {
    /// The targets, in declaration order; scores come in this order too.
    pub targets: Vec<PromptTarget>,
    /// Whether messages are screened for jailbreak attempts first.
    pub jailbreak_guard: bool,
    /// Whether a failed guard call lets the request go on (true) or fails it.
    pub guard_fail_open: bool,
    /// The least similarity score at which embeddings choose a target.
    pub similarity_threshold: i64,
    /// Whether zero-shot intent classification is asked when embeddings choose nothing.
    pub intent_enabled: bool,
    /// The least classifier confidence at which intent chooses a target.
    pub intent_threshold: i64,
    /// The target used when no signal chooses one.
    pub default_target: Option<usize>,
}

impl GatewayConfig {
    /// The default target, if any, is one of the targets.
    pub open spec fn wf(&self) -> bool {
        self.default_target matches Some(d) ==> d < self.targets@.len()
    }

    /// Checks `wf`.
    pub fn is_valid(&self) -> (r: bool)
        ensures
            r == self.wf(),
    {
        match self.default_target {
            Some(d) => d < self.targets.len(),
            None => true,
        }
    }
}

} // verus!
