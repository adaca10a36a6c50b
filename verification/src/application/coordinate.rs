//! The coordination analysis: how a new change request relates to the
//! workspace's other active executions. It implements nothing itself and
//! runs read-only, under the coordinator's own system prompt.
use vstd::prelude::*;

use crate::agent::executor::{AgentError, AgentRequest, OutputSchema, PermissionMode};
use crate::domain::change_request::ChangeRequest;
use crate::domain::error::KsforgeError;
use crate::domain::execution::{opt_str, status_text, Execution, ExecutionStatus, ExecutionView};
use crate::text::{copy_str, first_line, first_line_str, push_str};

verus! {

/// Running or waiting executions are work a new change request could
/// still collide with; completed, failed and cancelled ones are not.
pub open spec fn is_active(s: ExecutionStatus) -> bool {
    s == ExecutionStatus::Running || s == ExecutionStatus::WaitingForHuman
}

/// The active executions among `all`, in order.
pub open spec fn active_spec(all: Seq<ExecutionView>) -> Seq<ExecutionView>
    decreases all.len(),
{
    if all.len() == 0 {
        seq![]
    } else if is_active(all.last().status) {
        active_spec(all.drop_last()).push(all.last())
    } else {
        active_spec(all.drop_last())
    }
}

pub open spec fn views_of(v: Seq<Execution>) -> Seq<ExecutionView> {
    v.map_values(|e: Execution| e@)
}

pub fn active_executions(all: Vec<Execution>) -> (r: Vec<Execution>)
    ensures
        views_of(r@) == active_spec(views_of(all@)),
{
    let ghost av = views_of(all@);
    let mut all = all;
    let mut kept: Vec<Execution> = Vec::new();
    // Drain from the back, then restore the order.
    let mut rev: Vec<Execution> = Vec::new();
    while all.len() > 0
        invariant
            av == views_of(all@) + views_of(rev@).reverse(),
        decreases all@.len(),
    {
        let e = all.pop().unwrap();
        let ghost before_all = all@;
        proof {
            assert(views_of(all@.push(e)) =~= views_of(all@).push(e@));
        }
        let ghost old_rev = views_of(rev@);
        rev.push(e);
        proof {
            assert(views_of(rev@) =~= old_rev.push(e@));
            assert(views_of(rev@).reverse() =~= seq![e@] + old_rev.reverse());
        }
    }
    proof {
        assert(views_of(all@) =~= Seq::<ExecutionView>::empty());
        assert(av =~= views_of(rev@).reverse());
    }
    let ghost total = rev@.len();
    proof {
        assert(av.skip(0) =~= av);
        assert(av.len() == total);
    }
    while rev.len() > 0
        invariant
            rev@.len() <= total,
            av.len() == total,
            av.skip(total - rev@.len()) == views_of(rev@).reverse(),
            views_of(kept@) == active_spec(av.take(total - rev@.len())),
        decreases rev@.len(),
    {
        let ghost idx = total - rev@.len();
        let ghost old_rev = views_of(rev@);
        let e = rev.pop().unwrap();
        proof {
            assert(old_rev =~= views_of(rev@).push(e@));
            assert(old_rev.reverse()[0] == e@);
            assert(av.skip(idx)[0] == av[idx]);
            assert(av[idx] == e@);
            assert(av.skip(idx + 1) =~= av.skip(idx).drop_first());
            assert(old_rev.reverse().drop_first() =~= views_of(rev@).reverse());
            assert(av.take(idx + 1).drop_last() =~= av.take(idx));
            assert(av.take(idx + 1).last() == e@);
        }
        if e.status == ExecutionStatus::Running || e.status == ExecutionStatus::WaitingForHuman {
            let ghost old_kept = views_of(kept@);
            kept.push(e);
            proof {
                assert(views_of(kept@) =~= old_kept.push(av[idx]));
            }
        }
    }
    proof {
        assert(av.take(total as int) =~= av);
    }
    kept
}

/// The coordinator's user prompt: the new change request, the workspace,
/// and each active execution with its id, capability, status and the
/// first line of its change request.
pub open spec fn active_lines(active: Seq<ExecutionView>) -> Seq<char>
    decreases active.len(),
{
    if active.len() == 0 {
        seq![]
    } else {
        let e = active.last();
        active_lines(active.drop_last()) + "- "@ + e.id + " capability="@ + e.capability + " status="@
            + status_text(e.status) + "\n  change request: "@ + first_line(e.change_request) + "\n"@
    }
}

pub open spec fn coordination_prompt(change_request: Seq<char>, active: Seq<ExecutionView>, root: Seq<char>) -> Seq<char> {
    "New change request:\n"@ + change_request + "\n\nWorkspace: "@ + root + "\n\n"@ + (if active.len() == 0 {
        "Active executions: none.\n"@
    } else {
        "Active executions:\n"@ + active_lines(active)
    })
}

pub fn build_user_prompt(change_request: &ChangeRequest, active: &Vec<Execution>, workspace_root: &str) -> (r: String)
    ensures
        r@ == coordination_prompt(change_request@, views_of(active@), workspace_root@),
{
    let ghost av = views_of(active@);
    let mut s = copy_str("New change request:\n");
    push_str(&mut s, change_request.text.as_str());
    push_str(&mut s, "\n\nWorkspace: ");
    push_str(&mut s, workspace_root);
    push_str(&mut s, "\n\n");
    let ghost head = s@;
    if active.len() == 0 {
        push_str(&mut s, "Active executions: none.\n");
    } else {
        push_str(&mut s, "Active executions:\n");
        let ghost base = s@;
        let mut i: usize = 0;
        while i < active.len()
            invariant
                i <= active@.len(),
                av == views_of(active@),
                s@ == base + active_lines(av.take(i as int)),
            decreases active@.len() - i,
        {
            let e = &active[i];
            push_str(&mut s, "- ");
            push_str(&mut s, e.id.0.as_str());
            push_str(&mut s, " capability=");
            push_str(&mut s, e.capability.as_str());
            push_str(&mut s, " status=");
            push_str(&mut s, e.status.as_str());
            push_str(&mut s, "\n  change request: ");
            let l = first_line_str(e.change_request.text.as_str());
            push_str(&mut s, l.as_str());
            push_str(&mut s, "\n");
            proof {
                assert(av.take(i + 1).drop_last() =~= av.take(i as int));
                assert(av.take(i + 1).last() == e@);
            }
            i = i + 1;
        }
        proof {
            assert(av.take(i as int) =~= av);
        }
    }
    proof {
        assert(s@ =~= coordination_prompt(change_request@, av, workspace_root@));
    }
    s
}

/// The coordination turn's request: the coordinator's system prompt,
/// read-only tools, the coordination schema, no session to continue and
/// no MCP servers.
pub fn coordination_request(
    user_prompt: String,
    system_prompt: String,
    workspace_root: &str,
    model: Option<String>,
    max_budget_usd: Option<String>,
) -> (r: AgentRequest)
    ensures
        r@.prompt == user_prompt@,
        r@.system_prompt == Some(system_prompt@),
        r@.working_directory == workspace_root@,
        r@.tools == seq!["Read"@, "Grep"@, "Glob"@],
        r@.model == opt_str(model),
        r@.permission_mode == PermissionMode::ReadOnly,
        r@.json_schema == Some(OutputSchema::Coordination),
        r@.max_budget_usd == opt_str(max_budget_usd),
        r@.resume_session_id is None,
        r@.mcp_config is None,
{
    let mut tools: Vec<String> = Vec::new();
    tools.push(copy_str("Read"));
    tools.push(copy_str("Grep"));
    tools.push(copy_str("Glob"));
    proof {
        assert(tools.deep_view() =~= seq!["Read"@, "Grep"@, "Glob"@]);
    }
    AgentRequest {
        prompt: user_prompt,
        system_prompt: Some(system_prompt),
        working_directory: copy_str(workspace_root),
        tools,
        model,
        permission_mode: PermissionMode::ReadOnly,
        json_schema: Some(OutputSchema::Coordination),
        max_budget_usd,
        resume_session_id: None,
        mcp_config: None,
    }
}

/// A failed coordination call, as the run's error: the executor's message
/// tagged with the command.
pub fn coordination_failure(e: &AgentError) -> (r: KsforgeError)
    ensures
        r matches KsforgeError::ExecutorFailed(m) && (!(e is Io) ==> m@ == crate::agent::executor::agent_error_prefix(
            *e,
        ) + match e {
            AgentError::NotFound(d) | AgentError::NonZeroExit(d) | AgentError::MalformedOutput(d)
            | AgentError::Unsupported(d) => d@,
            AgentError::Io(_) => seq![],
        } + " (coordinate)"@),
{
    let mut m = e.message();
    push_str(&mut m, " (coordinate)");
    KsforgeError::ExecutorFailed(m)
}

} // verus!
