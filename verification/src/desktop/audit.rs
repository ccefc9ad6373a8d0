//! The behavior audit contract: what the shipped behavior runtime covers and
//! what remains target-only.
use vstd::prelude::*;

use super::types::{
    DesktopBehaviorAuditContract, DesktopBehaviorAuditCoverageItem, DesktopBehaviorAuditGraphEdge,
    DesktopBehaviorAuditGraphNode,
};
use crate::behavior::{page_archetype_names, page_archetypes, supported_primitive_names, supported_primitives};
use crate::clock::now_ts_string;
use crate::numtext::{decimal_digits, u64_to_text};
use crate::text::{concat3, join_strings, joined, owned, owned_strings, strings_view, strs_view};

verus! {

fn node(id: &str, label: &str, primitives: Vec<&str>, phase: &str) -> (n: DesktopBehaviorAuditGraphNode)
    ensures
        n.id@ == id@,
        n.label@ == label@,
        n.primitive@ == joined(strs_view(primitives@), "|"@),
        n.phase@ == phase@,
{
    let names = owned_strings(&primitives);
    DesktopBehaviorAuditGraphNode { id: owned(id), label: owned(label), primitive: join_strings(&names, "|"), phase: owned(phase) }
}

fn edge(from: &str, to: &str, condition: &str) -> (e: DesktopBehaviorAuditGraphEdge)
    ensures
        e.from@ == from@,
        e.to@ == to@,
        e.condition@ == condition@,
{
    DesktopBehaviorAuditGraphEdge { from: owned(from), to: owned(to), condition: owned(condition) }
}

fn coverage_item(id: &str, label: &str, status: &str, evidence: &str) -> (c: DesktopBehaviorAuditCoverageItem)
    ensures
        c.id@ == id@,
        c.label@ == label@,
        c.status@ == status@,
        c.evidence@ == evidence@,
{
    DesktopBehaviorAuditCoverageItem {
        id: owned(id),
        label: owned(label),
        status: owned(status),
        evidence: owned(evidence),
    }
}

/// The primitives each workflow node runs, node by node.
pub open spec fn workflow_node_primitives() -> Seq<Seq<Seq<char>>> {
    seq![
        seq!["wait_for_readiness"@],
        seq!["idle"@, "wait_for_content_stable"@],
        seq!["scroll_progressive"@, "scroll_to_ratio"@],
        seq!["hover_candidate"@, "focus_element"@, "type_with_rhythm"@],
        seq!["persist_session_state"@, "soft_abort_if_budget_exceeded"@],
    ]
}

/// The workflow nodes: id, label, phase, node by node.
pub open spec fn workflow_node_names() -> Seq<(Seq<char>, Seq<char>, Seq<char>)> {
    seq![
        ("readiness"@, "Readiness"@, "readiness"@),
        ("settle"@, "Settle"@, "settle"@),
        ("scan"@, "Scan"@, "scan"@),
        ("focus_input"@, "Focus and input"@, "focus/input"@),
        ("persist_recover"@, "Persist and recover"@, "persist/recover"@),
    ]
}

/// Every primitive a workflow node names is a shipped primitive.
pub proof fn lemma_workflow_nodes_use_shipped_primitives()
    ensures
        forall|i: int, j: int| 0 <= i < workflow_node_primitives().len() && 0 <= j < workflow_node_primitives()[i].len()
            ==> supported_primitive_names().contains(#[trigger] workflow_node_primitives()[i][j]),
{
    let sp = supported_primitive_names();
    let np = workflow_node_primitives();
    assert forall|i: int, j: int| 0 <= i < np.len() && 0 <= j < np[i].len()
        implies sp.contains(#[trigger] np[i][j]) by {
        if i == 0 {
            assert(np[i][j] == sp[1]);
        } else if i == 1 {
            if j == 0 { assert(np[i][j] == sp[0]); } else { assert(np[i][j] == sp[2]); }
        } else if i == 2 {
            if j == 0 { assert(np[i][j] == sp[3]); } else { assert(np[i][j] == sp[4]); }
        } else if i == 3 {
            if j == 0 { assert(np[i][j] == sp[8]); } else if j == 1 { assert(np[i][j] == sp[6]); } else { assert(np[i][j] == sp[9]); }
        } else {
            if j == 0 { assert(np[i][j] == sp[11]); } else { assert(np[i][j] == sp[12]); }
        }
    }
}

/// The summary line of the audit contract.
pub open spec fn audit_summary(primitive_count: nat, archetype_count: nat) -> Seq<char> {
    "Behavior audit: "@ + decimal_digits(primitive_count) + " shipped primitives across "@ + decimal_digits(
        archetype_count,
    ) + " page archetypes; 450+ event taxonomy remains target-only."@
}

/// The behavior audit contract: the shipped primitives and archetypes, the
/// phased workflow graph, what is evidence-backed and what stays a taxonomy
/// seed rather than a delivered 450+ event taxonomy.
pub fn read_desktop_behavior_audit_contract() -> (c: DesktopBehaviorAuditContract)
    ensures
        c.shipped_primitive_count == 13,
        c.page_archetype_count == 8,
        strings_view(c.supported_primitives@) == supported_primitive_names(),
        strings_view(c.page_archetypes@) == page_archetype_names(),
        c.target_event_taxonomy_label@ == "450+"@,
        c.target_event_taxonomy_status@ == "taxonomy_seed_not_full_replay_runtime"@,
        c.target_event_family_count == 11,
        c.target_event_taxonomy_path@ == "docs/taxonomy/behavior-event-taxonomy.json"@,
        c.replay_debugger_status@ == "behavior_trace_artifact_visible"@,
        c.deterministic_replay_evidence_status@ == "shipped_primitives_runtime_evidence"@,
        c.workflow_graph_nodes@.len() == 5,
        forall|i: int| 0 <= i < 5 ==> {
            let n = #[trigger] c.workflow_graph_nodes@[i];
            &&& (n.id@, n.label@, n.phase@) == workflow_node_names()[i]
            &&& n.primitive@ == joined(workflow_node_primitives()[i], "|"@)
        },
        c.workflow_graph_edges@.len() == 4,
        forall|i: int| 0 <= i < 4 ==> #[trigger] c.workflow_graph_edges@[i].from@ == c.workflow_graph_nodes@[i].id@
            && c.workflow_graph_edges@[i].to@ == c.workflow_graph_nodes@[i + 1].id@,
        c.coverage@.len() == 5,
        c.coverage@[4].id@ == "target_taxonomy"@,
        c.coverage@[4].status@ == "taxonomy_seed"@,
        c.warnings@.len() == 2,
        c.warnings@[0]@ == "13 shipped primitives are not the 450+ target taxonomy"@,
        c.summary@ == audit_summary(13, 8),
{
    let primitives = supported_primitives();
    let archetypes = page_archetypes();
    let supported = owned_strings(&primitives);
    let page_archetype_list = owned_strings(&archetypes);
    let taxonomy_path = owned("docs/taxonomy/behavior-event-taxonomy.json");
    let p0 = vec!["wait_for_readiness"];
    let p1 = vec!["idle", "wait_for_content_stable"];
    let p2 = vec!["scroll_progressive", "scroll_to_ratio"];
    let p3 = vec!["hover_candidate", "focus_element", "type_with_rhythm"];
    let p4 = vec!["persist_session_state", "soft_abort_if_budget_exceeded"];
    proof {
        let np = workflow_node_primitives();
        assert(strs_view(p0@) =~= np[0]);
        assert(strs_view(p1@) =~= np[1]);
        assert(strs_view(p2@) =~= np[2]);
        assert(strs_view(p3@) =~= np[3]);
        assert(strs_view(p4@) =~= np[4]);
    }
    let nodes = vec![
        node("readiness", "Readiness", p0, "readiness"),
        node("settle", "Settle", p1, "settle"),
        node("scan", "Scan", p2, "scan"),
        node("focus_input", "Focus and input", p3, "focus/input"),
        node("persist_recover", "Persist and recover", p4, "persist/recover"),
    ];
    let edges = vec![
        edge("readiness", "settle", "page_ready_or_timeout"),
        edge("settle", "scan", "stable_or_budget_clipped"),
        edge("scan", "focus_input", "interactive_target_available"),
        edge("focus_input", "persist_recover", "task_step_completed_or_recovery_required"),
    ];
    let taxonomy_evidence = concat3(
        "Machine-readable taxonomy seed exists at ",
        taxonomy_path.as_str(),
        "; only shipped primitives are counted as delivered",
    );
    let coverage = vec![
        coverage_item(
            "workflow_graph",
            "Workflow graph",
            "runtime_evidence_backed",
            "compile_behavior_plan produces deterministic phased steps per page archetype and runner artifacts store behavior_trace_summary/behavior_trace_lines",
        ),
        coverage_item(
            "debug_trace",
            "Debug trace",
            "runtime_evidence_backed",
            "BehaviorTraceSummary tracks planned/executed/failed/aborted/session_persisted fields and raw behavior_trace can be persisted as an artifact",
        ),
        coverage_item(
            "manual_gate",
            "Manual gate",
            "partial",
            "Automation run detail exposes manual gate confirm/reject commands, but behavior taxonomy does not yet require gate semantics per event",
        ),
        coverage_item(
            "recovery_semantics",
            "Recovery semantics",
            "partial",
            "soft_abort_if_budget_exceeded and run retry/cancel exist, but replay recovery taxonomy is not complete",
        ),
        DesktopBehaviorAuditCoverageItem {
            id: owned("target_taxonomy"),
            label: owned("450+ event taxonomy"),
            status: owned("taxonomy_seed"),
            evidence: taxonomy_evidence,
        },
    ];
    let warnings = vec![
        owned("13 shipped primitives are not the 450+ target taxonomy"),
        owned(
            "workflow/debug deterministic replay evidence exists for shipped primitives, but manual-gate/recovery coverage is not full 450+ replay taxonomy closure",
        ),
    ];
    let primitive_count = primitives.len();
    let archetype_count = archetypes.len();
    let mut summary = owned("Behavior audit: ");
    let pc = u64_to_text(primitive_count as u64);
    summary.append(pc.as_str());
    summary.append(" shipped primitives across ");
    let ac = u64_to_text(archetype_count as u64);
    summary.append(ac.as_str());
    summary.append(" page archetypes; 450+ event taxonomy remains target-only.");
    proof {
        assert(strs_view_len(primitives@) == 13);
        assert(strs_view_len(archetypes@) == 8);
        assert(summary@ =~= audit_summary(13, 8));
    }
    DesktopBehaviorAuditContract {
        generated_at: now_ts_string(),
        shipped_primitive_count: primitive_count,
        target_event_taxonomy_label: owned("450+"),
        target_event_taxonomy_status: owned("taxonomy_seed_not_full_replay_runtime"),
        target_event_family_count: 11,
        target_event_taxonomy_path: taxonomy_path,
        page_archetype_count: archetype_count,
        supported_primitives: supported,
        page_archetypes: page_archetype_list,
        workflow_graph_nodes: nodes,
        workflow_graph_edges: edges,
        replay_debugger_status: owned("behavior_trace_artifact_visible"),
        deterministic_replay_evidence_status: owned("shipped_primitives_runtime_evidence"),
        coverage,
        warnings,
        summary,
    }
}

spec fn strs_view_len(v: Seq<&str>) -> nat {
    crate::text::strs_view(v).len()
}

} // verus!
