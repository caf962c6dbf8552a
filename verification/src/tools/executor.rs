//! Running the tool calls of the model.

use vstd::prelude::*;
use crate::types::{ToolCall, ToolCallView, ToolResult, ToolResultView, call_views, result_views};
use crate::tools::{AnyTool, ToolRegistry, has_name, position_of};
use crate::tools::shell::result_view;

verus! {

/// Finds the tools that the model calls and records what they report.
#[derive(Debug)]
pub struct ToolExecutor {
    registry: ToolRegistry,
}

/// What a call reports: the tool's answer, or its failure as an error answer.
pub open spec fn reported(outcome: Result<ToolResultView, Seq<char>>) -> ToolResultView {
    match outcome {
        Ok(t) => t,
        Err(e) => ToolResultView::Error(e),
    }
}

/// The answers to `calls`, one per call and in order, each under its call's
/// id: `outcomes[i]` is what running `calls[i]` came to.
pub open spec fn collected(
    calls: Seq<ToolCallView>,
    outcomes: Seq<Result<ToolResultView, Seq<char>>>,
) -> Seq<(Seq<char>, ToolResultView)> {
    Seq::new(calls.len(), |i: int| (calls[i].id, reported(outcomes[i])))
}

/// The views of the outcomes of tool calls.
pub open spec fn outcome_views(outcomes: Seq<Result<ToolResult, String>>) -> Seq<
    Result<ToolResultView, Seq<char>>,
> {
    outcomes.map_values(|o: Result<ToolResult, String>| result_view(o))
}

impl ToolExecutor {
    /// An executor over `registry`.
    pub fn new(registry: ToolRegistry) -> (e: ToolExecutor)
        ensures
            e.spec_registry() == registry,
    {
        ToolExecutor { registry }
    }

    /// The registry of tools.
    pub closed spec fn spec_registry(&self) -> ToolRegistry {
        self.registry
    }

    /// The registry of tools.
    pub fn registry(&self) -> (r: &ToolRegistry)
        ensures
            *r == self.spec_registry(),
    {
        &self.registry
    }

    /// The tool that `call` names, or the error reported when no tool has that name.
    pub fn tool_for(&self, call: &ToolCall) -> (r: Result<&AnyTool, String>)
        ensures
            match r {
                Ok(t) => has_name(self.spec_registry()@, call.function.name@) && *t
                    == self.spec_registry()@[position_of(
                    self.spec_registry()@,
                    call.function.name@,
                )->0],
                Err(e) => !has_name(self.spec_registry()@, call.function.name@) && e@ == "Tool '"@
                    + call.function.name@ + "' not found"@,
            },
    {
        match self.registry.get(call.function.name.as_str()) {
            Some(t) => Ok(t),
            None => {
                let mut msg = String::from_str("Tool '");
                msg.append(call.function.name.as_str());
                msg.append("' not found");
                Err(msg)
            },
        }
    }

    /// The answers to `calls`, in their order, each under its call's id:
    /// `outcomes[i]` is what running `calls[i]` came to, and a failure
    /// becomes an error answer.
    pub fn collect_results(calls: &[ToolCall], outcomes: Vec<Result<ToolResult, String>>) -> (r: Vec<
        (String, ToolResult),
    >)
        requires
            outcomes@.len() == calls@.len(),
        ensures
            result_views(r@) == collected(call_views(calls@), outcome_views(outcomes@)),
    {
        let mut r: Vec<(String, ToolResult)> = Vec::new();
        let n = calls.len();
        let mut i: usize = 0;
        while i < n
            invariant
                n == calls@.len(),
                outcomes@.len() == n,
                i <= n,
                r@.len() == i,
                forall|j: int|
                    0 <= j < i ==> #[trigger] r@[j].0@ == calls@[j].id@ && r@[j].1@ == reported(
                        result_view(outcomes@[j]),
                    ),
            decreases n - i,
        {
            let answer = match &outcomes[i] {
                Ok(t) => t.clone(),
                Err(e) => ToolResult::Error(e.clone()),
            };
            assert(answer@ == reported(result_view(outcomes@[i as int])));
            let ghost before = r@;
            r.push((calls[i].id.clone(), answer));
            assert(forall|j: int| 0 <= j < i ==> r@[j] == before[j]);
            i = i + 1;
        }
        assert(result_views(r@) =~= collected(call_views(calls@), outcome_views(outcomes@)));
        r
    }
}

} // verus!
