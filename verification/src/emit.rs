use vstd::prelude::*;
use vstd::string::StringExecFns;

use crate::model::{ClusterStatus, InstanceStatus, NodeStatus};
use crate::numfmt::{dec_seq, push_dec_u128, severity_seq, severity_str};
use crate::status::{get_status_as_value, severity_spec};

verus! {

/// A string field value surrounded by double quotes, as it appears in a
/// line record.
pub open spec fn quote(s: Seq<char>) -> Seq<char> {
    seq!['"'] + s + seq!['"']
}

/// The view of an optional string field, the empty sequence when absent.
pub open spec fn opt_field_view(o: Option<String>) -> Seq<char> {
    match o {
        Some(s) => s@,
        None => Seq::empty(),
    }
}

/// Appends `t` surrounded by double quotes to `s`.
fn push_quoted(s: &mut String, t: &str)
    ensures
        final(s)@ == old(s)@ + quote(t@),
{
    proof {
        reveal_strlit("\"");
    }
    s.append("\"");
    s.append(t);
    s.append("\"");
    proof {
        assert(s@ =~= old(s)@ + quote(t@));
    }
}

/// Appends the quoted value of an optional field, `""` when absent.
fn push_quoted_opt(s: &mut String, t: &Option<String>)
    ensures
        final(s)@ == old(s)@ + quote(opt_field_view(*t)),
{
    match t {
        Some(v) => push_quoted(s, v.as_str()),
        None => {
            proof {
                reveal_strlit("\"\"");
            }
            s.append("\"\"");
            proof {
                assert(s@ =~= old(s)@ + quote(opt_field_view(*t)));
            }
        },
    }
}

/// Appends one rendered line, relating the deep views.
pub(crate) fn push_line(out: &mut Vec<String>, line: String)
    ensures
        final(out).deep_view() == old(out).deep_view() + seq![line@],
{
    let ghost d0 = out.deep_view();
    let ghost l = line@;
    out.push(line);
    proof {
        assert(out.deep_view() =~= d0 + seq![l]);
    }
}

/// The cluster-aggregate record of the status check.
pub open spec fn cluster_line_spec(cs: ClusterStatus, elapsed: u128, ts: u128) -> Seq<char> {
    "tableau_tsm_status,node=all,service=all,instance=all status_code="@
        + severity_seq(severity_spec(cs.rollup_status@, Some(cs.rollup_requested_deployment_state@)))
        + "i,status="@ + quote(cs.rollup_status@) + ",requested_deployment_state="@
        + quote(cs.rollup_requested_deployment_state@) + ",elapsed="@ + dec_seq(elapsed as int)
        + "i "@ + dec_seq(ts as int)
}

/// Renders the cluster-aggregate record.
pub fn cluster_line(cs: &ClusterStatus, elapsed: u128, ts: u128) -> (r: String)
    ensures
        r@ == cluster_line_spec(*cs, elapsed, ts),
{
    let sev = get_status_as_value(&cs.rollup_status, Some(&cs.rollup_requested_deployment_state));
    let mut s = String::from_str("tableau_tsm_status,node=all,service=all,instance=all status_code=");
    s.append(severity_str(sev));
    s.append("i,status=");
    push_quoted(&mut s, cs.rollup_status.as_str());
    s.append(",requested_deployment_state=");
    push_quoted(&mut s, cs.rollup_requested_deployment_state.as_str());
    s.append(",elapsed=");
    push_dec_u128(&mut s, elapsed);
    s.append("i ");
    push_dec_u128(&mut s, ts);
    s
}

/// The per-node record of the status check.
pub open spec fn node_line_spec(n: NodeStatus, ts: u128) -> Seq<char> {
    "tableau_tsm_status,node="@ + n.node_id@ + ",service=all,instance=all status_code="@
        + severity_seq(severity_spec(n.rollup_status@, Some(n.rollup_requested_deployment_state@)))
        + "i,status="@ + quote(n.rollup_status@) + ",requested_deployment_state="@
        + quote(n.rollup_requested_deployment_state@) + " "@ + dec_seq(ts as int)
}

/// Renders one per-node record.
pub fn node_line(n: &NodeStatus, ts: u128) -> (r: String)
    ensures
        r@ == node_line_spec(*n, ts),
{
    let sev = get_status_as_value(&n.rollup_status, Some(&n.rollup_requested_deployment_state));
    let mut s = String::from_str("tableau_tsm_status,node=");
    s.append(n.node_id.as_str());
    s.append(",service=all,instance=all status_code=");
    s.append(severity_str(sev));
    s.append("i,status=");
    push_quoted(&mut s, n.rollup_status.as_str());
    s.append(",requested_deployment_state=");
    push_quoted(&mut s, n.rollup_requested_deployment_state.as_str());
    s.append(" ");
    push_dec_u128(&mut s, ts);
    s
}

/// The per-instance record of the status check.
pub open spec fn instance_line_spec(
    node_id: Seq<char>,
    service: Seq<char>,
    inst: InstanceStatus,
    ts: u128,
) -> Seq<char> {
    "tableau_tsm_status,node="@ + node_id + ",service="@ + service + ",instance="@
        + inst.instance_id@ + " status_code="@
        + severity_seq(severity_spec(inst.process_status@, Some(inst.current_deployment_state@)))
        + "i,status="@ + quote(inst.process_status@) + ",deployment_state="@
        + quote(inst.current_deployment_state@) + ",message="@ + quote(opt_field_view(inst.message))
        + ",code="@ + quote(opt_field_view(inst.code)) + ",timestamp_utc="@
        + dec_seq(inst.timestamp_utc as int) + "i "@ + dec_seq(ts as int)
}

/// Renders one per-instance record.
pub fn instance_line(node_id: &str, service: &str, inst: &InstanceStatus, ts: u128) -> (r: String)
    ensures
        r@ == instance_line_spec(node_id@, service@, *inst, ts),
{
    let sev = get_status_as_value(&inst.process_status, Some(&inst.current_deployment_state));
    let mut s = String::from_str("tableau_tsm_status,node=");
    s.append(node_id);
    s.append(",service=");
    s.append(service);
    s.append(",instance=");
    s.append(inst.instance_id.as_str());
    s.append(" status_code=");
    s.append(severity_str(sev));
    s.append("i,status=");
    push_quoted(&mut s, inst.process_status.as_str());
    s.append(",deployment_state=");
    push_quoted(&mut s, inst.current_deployment_state.as_str());
    s.append(",message=");
    push_quoted_opt(&mut s, &inst.message);
    s.append(",code=");
    push_quoted_opt(&mut s, &inst.code);
    s.append(",timestamp_utc=");
    push_dec_u128(&mut s, inst.timestamp_utc as u128);
    s.append("i ");
    push_dec_u128(&mut s, ts);
    s
}

/// The aggregate record emitted for a diagnostics node tagged "service".
pub open spec fn diag_service_line_spec(status: Seq<char>, elapsed: u128, ts: u128) -> Seq<char> {
    "tableau_systeminfo,worker=all status_code="@ + severity_seq(severity_spec(status, None))
        + "i,status="@ + quote(status) + ",elapsed="@ + dec_seq(elapsed as int) + "i "@
        + dec_seq(ts as int)
}

/// Renders the diagnostics aggregate record.
pub fn diag_service_line(status: &String, elapsed: u128, ts: u128) -> (r: String)
    ensures
        r@ == diag_service_line_spec(status@, elapsed, ts),
{
    let sev = get_status_as_value(status, None);
    let mut s = String::from_str("tableau_systeminfo,worker=all status_code=");
    s.append(severity_str(sev));
    s.append("i,status=");
    push_quoted(&mut s, status.as_str());
    s.append(",elapsed=");
    push_dec_u128(&mut s, elapsed);
    s.append("i ");
    push_dec_u128(&mut s, ts);
    s
}

/// The record emitted for any other meaningful diagnostics node.
pub open spec fn diag_process_line_spec(
    tag: Seq<char>,
    worker: Seq<char>,
    status: Seq<char>,
    ts: u128,
) -> Seq<char> {
    "tableau_systeminfo,process="@ + tag + ",worker="@ + worker + " status_code="@
        + severity_seq(severity_spec(status, None)) + "i,status="@ + quote(status) + " "@
        + dec_seq(ts as int)
}

/// Renders one per-process diagnostics record.
pub fn diag_process_line(tag: &str, worker: &str, status: &String, ts: u128) -> (r: String)
    ensures
        r@ == diag_process_line_spec(tag@, worker@, status@, ts),
{
    let sev = get_status_as_value(status, None);
    let mut s = String::from_str("tableau_systeminfo,process=");
    s.append(tag);
    s.append(",worker=");
    s.append(worker);
    s.append(" status_code=");
    s.append(severity_str(sev));
    s.append("i,status=");
    push_quoted(&mut s, status.as_str());
    s.append(" ");
    push_dec_u128(&mut s, ts);
    s
}

/// The degraded fallback record of the status check: severity is pinned
/// at the unavailable sentinel, distinct from the unknown severity.
pub open spec fn tsm_fallback_line_spec(ts: u128) -> Seq<char> {
    "tableau_tsm_status,node=all,service=all,instance=all status_code=3i,status=\"Unavailable\",requested_deployment_state=\"Unknown\" "@
        + dec_seq(ts as int)
}

/// Renders the status-check fallback record.
pub fn tsm_fallback_line(ts: u128) -> (r: String)
    ensures
        r@ == tsm_fallback_line_spec(ts),
{
    let mut s = String::from_str(
        "tableau_tsm_status,node=all,service=all,instance=all status_code=3i,status=\"Unavailable\",requested_deployment_state=\"Unknown\" ",
    );
    push_dec_u128(&mut s, ts);
    s
}

/// The degraded fallback record of the diagnostics check.
pub open spec fn diag_fallback_line_spec(ts: u128) -> Seq<char> {
    "tableau_systeminfo,worker=all status_code=3i,status=\"Unavailable\" "@ + dec_seq(ts as int)
}

/// Renders the diagnostics-check fallback record.
pub fn diag_fallback_line(ts: u128) -> (r: String)
    ensures
        r@ == diag_fallback_line_spec(ts),
{
    let mut s = String::from_str(
        "tableau_systeminfo,worker=all status_code=3i,status=\"Unavailable\" ",
    );
    push_dec_u128(&mut s, ts);
    s
}

} // verus!
