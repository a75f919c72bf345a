use vstd::prelude::*;

use crate::emit::{
    cluster_line, cluster_line_spec, instance_line, instance_line_spec, node_line, node_line_spec,
    push_line,
};
use crate::model::{ClusterStatus, InstanceStatus, NodeStatus, ServiceStatus};

verus! {

/// The per-instance records of the instances `insts[i..]` of one service.
pub open spec fn instance_lines_spec(
    node_id: Seq<char>,
    service: Seq<char>,
    insts: Seq<InstanceStatus>,
    i: int,
    ts: u128,
) -> Seq<Seq<char>>
    decreases insts.len() - i,
{
    if i < 0 || i >= insts.len() {
        Seq::empty()
    } else {
        seq![instance_line_spec(node_id, service, insts[i], ts)]
            + instance_lines_spec(node_id, service, insts, i + 1, ts)
    }
}

/// The per-instance records of the services `svcs[i..]` of one node.
pub open spec fn service_lines_spec(
    node_id: Seq<char>,
    svcs: Seq<ServiceStatus>,
    i: int,
    ts: u128,
) -> Seq<Seq<char>>
    decreases svcs.len() - i,
{
    if i < 0 || i >= svcs.len() {
        Seq::empty()
    } else {
        instance_lines_spec(node_id, svcs[i].service_name@, svcs[i].instances@, 0, ts)
            + service_lines_spec(node_id, svcs, i + 1, ts)
    }
}

/// The records of the nodes `nodes[i..]`: for each node its own record
/// followed immediately by the records of all its instances.
pub open spec fn node_lines_spec(nodes: Seq<NodeStatus>, i: int, ts: u128) -> Seq<Seq<char>>
    decreases nodes.len() - i,
{
    if i < 0 || i >= nodes.len() {
        Seq::empty()
    } else {
        seq![node_line_spec(nodes[i], ts)]
            + service_lines_spec(nodes[i].node_id@, nodes[i].services@, 0, ts)
            + node_lines_spec(nodes, i + 1, ts)
    }
}

/// All records of one status check, in emission order: the cluster
/// aggregate first, then each node with its instances grouped under it.
pub open spec fn tsm_lines_spec(cs: ClusterStatus, elapsed: u128, ts: u128) -> Seq<Seq<char>> {
    seq![cluster_line_spec(cs, elapsed, ts)] + node_lines_spec(cs.nodes@, 0, ts)
}

/// Appends the per-instance records of one service.
fn push_instance_lines(
    out: &mut Vec<String>,
    node_id: &str,
    service: &str,
    insts: &Vec<InstanceStatus>,
    ts: u128,
)
    ensures
        final(out).deep_view() == old(out).deep_view()
            + instance_lines_spec(node_id@, service@, insts@, 0, ts),
{
    let ghost d0 = old(out).deep_view();
    let ghost full = instance_lines_spec(node_id@, service@, insts@, 0, ts);
    let mut i: usize = 0;
    while i < insts.len()
        invariant
            i <= insts.len(),
            out.deep_view() + instance_lines_spec(node_id@, service@, insts@, i as int, ts) == d0
                + full,
        decreases insts.len() - i,
    {
        let line = instance_line(node_id, service, &insts[i], ts);
        let ghost before = out.deep_view();
        push_line(out, line);
        proof {
            assert(out.deep_view() + instance_lines_spec(
                node_id@,
                service@,
                insts@,
                i as int + 1,
                ts,
            ) =~= before + instance_lines_spec(node_id@, service@, insts@, i as int, ts));
        }
        i = i + 1;
    }
    proof {
        assert(out.deep_view() =~= out.deep_view() + instance_lines_spec(
            node_id@,
            service@,
            insts@,
            insts@.len() as int,
            ts,
        ));
    }
}

/// Appends the per-instance records of all services of one node.
fn push_service_lines(out: &mut Vec<String>, node_id: &str, svcs: &Vec<ServiceStatus>, ts: u128)
    ensures
        final(out).deep_view() == old(out).deep_view()
            + service_lines_spec(node_id@, svcs@, 0, ts),
{
    let ghost d0 = old(out).deep_view();
    let ghost full = service_lines_spec(node_id@, svcs@, 0, ts);
    let mut i: usize = 0;
    while i < svcs.len()
        invariant
            i <= svcs.len(),
            out.deep_view() + service_lines_spec(node_id@, svcs@, i as int, ts) == d0 + full,
        decreases svcs.len() - i,
    {
        let ghost before = out.deep_view();
        push_instance_lines(out, node_id, svcs[i].service_name.as_str(), &svcs[i].instances, ts);
        proof {
            assert(out.deep_view() + service_lines_spec(node_id@, svcs@, i as int + 1, ts)
                =~= before + service_lines_spec(node_id@, svcs@, i as int, ts));
        }
        i = i + 1;
    }
    proof {
        assert(out.deep_view() =~= out.deep_view() + service_lines_spec(
            node_id@,
            svcs@,
            svcs@.len() as int,
            ts,
        ));
    }
}

/// Renders all records of one status check, in the order the collector
/// expects: cluster aggregate, then each node followed by its instances.
pub fn tsm_status_lines(cs: &ClusterStatus, elapsed: u128, ts: u128) -> (out: Vec<String>)
    ensures
        out.deep_view() == tsm_lines_spec(*cs, elapsed, ts),
{
    let mut out: Vec<String> = Vec::new();
    proof {
        assert(out.deep_view() =~= Seq::<Seq<char>>::empty());
    }
    push_line(&mut out, cluster_line(cs, elapsed, ts));
    proof {
        assert(out.deep_view() =~= seq![cluster_line_spec(*cs, elapsed, ts)]);
    }
    let ghost head = out.deep_view();
    let mut i: usize = 0;
    while i < cs.nodes.len()
        invariant
            i <= cs.nodes.len(),
            out.deep_view() + node_lines_spec(cs.nodes@, i as int, ts) == head
                + node_lines_spec(cs.nodes@, 0, ts),
        decreases cs.nodes.len() - i,
    {
        let ghost before = out.deep_view();
        push_line(&mut out, node_line(&cs.nodes[i], ts));
        push_service_lines(&mut out, cs.nodes[i].node_id.as_str(), &cs.nodes[i].services, ts);
        proof {
            assert(out.deep_view() + node_lines_spec(cs.nodes@, i as int + 1, ts) =~= before
                + node_lines_spec(cs.nodes@, i as int, ts));
        }
        i = i + 1;
    }
    proof {
        assert(out.deep_view() =~= out.deep_view() + node_lines_spec(
            cs.nodes@,
            cs.nodes@.len() as int,
            ts,
        ));
        assert(out.deep_view() =~= tsm_lines_spec(*cs, elapsed, ts));
    }
    out
}

/// Number of instances across the services `svcs[i..]` of one node.
pub open spec fn service_instance_total(svcs: Seq<ServiceStatus>, i: int) -> nat
    decreases svcs.len() - i,
{
    if i < 0 || i >= svcs.len() {
        0
    } else {
        svcs[i].instances@.len() + service_instance_total(svcs, i + 1)
    }
}

/// Number of instances across all services of the nodes `nodes[i..]`.
pub open spec fn instance_total(nodes: Seq<NodeStatus>, i: int) -> nat
    decreases nodes.len() - i,
{
    if i < 0 || i >= nodes.len() {
        0
    } else {
        service_instance_total(nodes[i].services@, 0) + instance_total(nodes, i + 1)
    }
}

proof fn lemma_instance_lines_len(
    node_id: Seq<char>,
    service: Seq<char>,
    insts: Seq<InstanceStatus>,
    i: int,
    ts: u128,
)
    requires
        0 <= i <= insts.len(),
    ensures
        instance_lines_spec(node_id, service, insts, i, ts).len() == insts.len() - i,
    decreases insts.len() - i,
{
    if i < insts.len() {
        lemma_instance_lines_len(node_id, service, insts, i + 1, ts);
    }
}

proof fn lemma_service_lines_len(node_id: Seq<char>, svcs: Seq<ServiceStatus>, i: int, ts: u128)
    requires
        0 <= i <= svcs.len(),
    ensures
        service_lines_spec(node_id, svcs, i, ts).len() == service_instance_total(svcs, i),
    decreases svcs.len() - i,
{
    if i < svcs.len() {
        lemma_instance_lines_len(node_id, svcs[i].service_name@, svcs[i].instances@, 0, ts);
        lemma_service_lines_len(node_id, svcs, i + 1, ts);
    }
}

proof fn lemma_node_lines_len(nodes: Seq<NodeStatus>, i: int, ts: u128)
    requires
        0 <= i <= nodes.len(),
    ensures
        node_lines_spec(nodes, i, ts).len() == (nodes.len() - i) + instance_total(nodes, i),
    decreases nodes.len() - i,
{
    if i < nodes.len() {
        lemma_service_lines_len(nodes[i].node_id@, nodes[i].services@, 0, ts);
        lemma_node_lines_len(nodes, i + 1, ts);
    }
}

/// For a cluster of N nodes holding M instances in all, one status check
/// emits exactly 1 + N + M records.
pub proof fn lemma_tsm_record_count(cs: ClusterStatus, elapsed: u128, ts: u128)
    ensures
        tsm_lines_spec(cs, elapsed, ts).len() == 1 + cs.nodes@.len() + instance_total(
            cs.nodes@,
            0,
        ),
{
    lemma_node_lines_len(cs.nodes@, 0, ts);
}

} // verus!
