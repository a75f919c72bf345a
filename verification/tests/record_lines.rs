use tableau_monitoring_execd::cluster::tsm_status_lines;
use tableau_monitoring_execd::diagnostics::parse_system_info;
use tableau_monitoring_execd::diagnostics::systeminfo_lines;
use tableau_monitoring_execd::model::CheckError;
use tableau_monitoring_execd::model::ClusterStatus;
use tableau_monitoring_execd::model::DiagnosticsNode;
use tableau_monitoring_execd::model::InstanceStatus;
use tableau_monitoring_execd::model::NodeStatus;
use tableau_monitoring_execd::model::ServiceStatus;

fn sample_cluster() -> ClusterStatus {
    ClusterStatus {
        nodes: vec![
            NodeStatus {
                services: vec![ServiceStatus {
                    service_name: "vizportal".to_string(),
                    instances: vec![
                        InstanceStatus {
                            code: Some("0".to_string()),
                            process_status: "Active".to_string(),
                            instance_id: "0".to_string(),
                            message: None,
                            timestamp_utc: 111,
                            current_deployment_state: "Enabled".to_string(),
                        },
                        InstanceStatus {
                            code: None,
                            process_status: "Stopped".to_string(),
                            instance_id: "1".to_string(),
                            message: Some("down".to_string()),
                            timestamp_utc: 222,
                            current_deployment_state: "Disabled".to_string(),
                        },
                    ],
                }],
                node_id: "node1".to_string(),
                rollup_status: "Running".to_string(),
                rollup_requested_deployment_state: "Enabled".to_string(),
            },
            NodeStatus {
                services: vec![
                    ServiceStatus {
                        service_name: "backgrounder".to_string(),
                        instances: vec![InstanceStatus {
                            code: None,
                            process_status: "Busy".to_string(),
                            instance_id: "0".to_string(),
                            message: None,
                            timestamp_utc: 333,
                            current_deployment_state: "Disabled".to_string(),
                        }],
                    },
                    ServiceStatus {
                        service_name: "gateway".to_string(),
                        instances: vec![],
                    },
                ],
                node_id: "node2".to_string(),
                rollup_status: "Degraded".to_string(),
                rollup_requested_deployment_state: "Disabled".to_string(),
            },
        ],
        rollup_status: "Running".to_string(),
        rollup_requested_deployment_state: "Enabled".to_string(),
    }
}

#[test]
fn tsm_walk_emits_cluster_then_nodes_then_instances() {
    let lines = tsm_status_lines(&sample_cluster(), 1500, 42);
    let expected = vec![
        "tableau_tsm_status,node=all,service=all,instance=all status_code=0i,status=\"Running\",requested_deployment_state=\"Enabled\",elapsed=1500i 42",
        "tableau_tsm_status,node=node1,service=all,instance=all status_code=0i,status=\"Running\",requested_deployment_state=\"Enabled\" 42",
        "tableau_tsm_status,node=node1,service=vizportal,instance=0 status_code=0i,status=\"Active\",deployment_state=\"Enabled\",message=\"\",code=\"0\",timestamp_utc=111i 42",
        "tableau_tsm_status,node=node1,service=vizportal,instance=1 status_code=-1i,status=\"Stopped\",deployment_state=\"Disabled\",message=\"down\",code=\"\",timestamp_utc=222i 42",
        "tableau_tsm_status,node=node2,service=all,instance=all status_code=-1i,status=\"Degraded\",requested_deployment_state=\"Disabled\" 42",
        "tableau_tsm_status,node=node2,service=backgrounder,instance=0 status_code=1i,status=\"Busy\",deployment_state=\"Disabled\",message=\"\",code=\"\",timestamp_utc=333i 42",
    ];
    assert_eq!(lines, expected);
}

#[test]
fn tsm_walk_count_is_one_plus_nodes_plus_instances() {
    // two nodes, three instances in all: 1 + 2 + 3 records
    let lines = tsm_status_lines(&sample_cluster(), 1500, 42);
    assert_eq!(lines.len(), 6);

    let empty = ClusterStatus {
        nodes: vec![],
        rollup_status: "Active".to_string(),
        rollup_requested_deployment_state: "Enabled".to_string(),
    };
    let lines = tsm_status_lines(&empty, 9, 1);
    assert_eq!(lines.len(), 1);
    assert_eq!(
        lines[0],
        "tableau_tsm_status,node=all,service=all,instance=all status_code=0i,status=\"Active\",requested_deployment_state=\"Enabled\",elapsed=9i 1"
    );
}

fn leaf(tag: &str, status: Option<&str>, worker: Option<&str>) -> DiagnosticsNode {
    DiagnosticsNode {
        tag_name: tag.to_string(),
        status: status.map(|s| s.to_string()),
        worker: worker.map(|w| w.to_string()),
        children: vec![],
    }
}

fn wrapper(tag: &str, children: Vec<DiagnosticsNode>) -> DiagnosticsNode {
    DiagnosticsNode {
        tag_name: tag.to_string(),
        status: None,
        worker: None,
        children,
    }
}

#[test]
fn diagnostics_walk_skips_structural_wrappers_at_any_depth() {
    let root = wrapper(
        "",
        vec![wrapper(
            "systeminfo",
            vec![
                wrapper(
                    "machines",
                    vec![wrapper(
                        "machine",
                        vec![
                            leaf("webserver", Some("Active"), Some("host1")),
                            leaf("unknownproc", None, None),
                        ],
                    )],
                ),
                leaf("service", Some("Active"), None),
            ],
        )],
    );
    let lines = systeminfo_lines(&root, 900, 7);
    let expected = vec![
        "tableau_systeminfo,process=webserver,worker=host1 status_code=0i,status=\"Active\" 7",
        "tableau_systeminfo,process=unknownproc,worker=Unknown status_code=2i,status=\"Unknown\" 7",
        "tableau_systeminfo,worker=all status_code=0i,status=\"Active\",elapsed=900i 7",
    ];
    assert_eq!(lines, expected);
}

#[test]
fn diagnostics_walk_of_structural_nodes_alone_is_silent() {
    let root = wrapper(
        "",
        vec![wrapper(
            "systeminfo",
            vec![wrapper("machines", vec![wrapper("machine", vec![])])],
        )],
    );
    let lines = systeminfo_lines(&root, 1, 2);
    assert!(lines.is_empty());
}

#[test]
fn parse_system_info_walks_a_real_document() {
    let xml = "<systeminfo><machines><machine><webserver worker=\"host1\" status=\"Active\"/><backgrounder worker=\"host1\" status=\"Busy\"/></machine></machines><service status=\"Active\"/></systeminfo>".to_string();
    let lines = parse_system_info(&xml, 900, 7).unwrap();
    let expected = vec![
        "tableau_systeminfo,process=webserver,worker=host1 status_code=0i,status=\"Active\" 7",
        "tableau_systeminfo,process=backgrounder,worker=host1 status_code=1i,status=\"Busy\" 7",
        "tableau_systeminfo,worker=all status_code=0i,status=\"Active\",elapsed=900i 7",
    ];
    assert_eq!(lines, expected);
}

#[test]
fn parse_system_info_ignores_text_between_tags() {
    let xml = "<systeminfo>\n  <machines>\n    <machine>\n      <webserver worker=\"w\" status=\"Passive\"/>\n    </machine>\n  </machines>\n</systeminfo>".to_string();
    let lines = parse_system_info(&xml, 3, 4).unwrap();
    assert_eq!(
        lines,
        vec!["tableau_systeminfo,process=webserver,worker=w status_code=1i,status=\"Passive\" 4"]
    );
}

#[test]
fn malformed_markup_is_a_decode_error() {
    let xml = "<systeminfo><machines>".to_string();
    let r = parse_system_info(&xml, 1, 2);
    assert_eq!(r, Err(CheckError::Decode));
}
