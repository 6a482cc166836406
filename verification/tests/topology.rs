use bombay_entity::{
    lifecycle_model, lifecycle_topology, validate_lifecycle_topology, LifecycleEdge,
    LifecyclePhase, LifecycleTrigger,
    LifecycleTopologyError, RenderError, Topology, TopologyError, Transition, TriggerId, Vertex,
    VertexId,
};

const A: VertexId = VertexId(0);
const B: VertexId = VertexId(1);
const C: VertexId = VertexId(2);

const CHAIN_VERTICES: &[Vertex] = &[
    Vertex { id: A, label: "a" },
    Vertex { id: B, label: "b" },
    Vertex { id: C, label: "c" },
];

// Reaching `c` needs edges declared after the edge that uses them.
const BACKWARD_EDGES: &[Transition] = &[
    Transition { from: B, trigger: TriggerId(0), to: C, label: "second" },
    Transition { from: A, trigger: TriggerId(0), to: B, label: "first" },
];

#[test]
fn reachability_follows_edges_declared_in_any_order() {
    let topology = Topology {
        name: "chain",
        initial: A,
        vertices: CHAIN_VERTICES,
        transitions: BACKWARD_EDGES,
    };
    assert_eq!(topology.validate(), Ok(()));
    let validated = topology.validated().unwrap();
    assert_eq!(validated.topology(), topology);
}

#[test]
fn validation_reports_the_first_defect_in_declaration_order() {
    const BAD_EDGES: &[Transition] = &[
        Transition { from: A, trigger: TriggerId(0), to: VertexId(7), label: "lost" },
        Transition { from: A, trigger: TriggerId(0), to: B, label: "repeat" },
    ];
    let topology = Topology {
        name: "bad",
        initial: A,
        vertices: CHAIN_VERTICES,
        transitions: BAD_EDGES,
    };
    assert_eq!(topology.validate(), Err(TopologyError::UnknownVertex(VertexId(7))));
    const UNKNOWN_SOURCE: &[Transition] = &[Transition {
        from: VertexId(8),
        trigger: TriggerId(0),
        to: VertexId(9),
        label: "both",
    }];
    let topology = Topology {
        name: "source",
        initial: A,
        vertices: CHAIN_VERTICES,
        transitions: UNKNOWN_SOURCE,
    };
    assert_eq!(topology.validate(), Err(TopologyError::UnknownVertex(VertexId(8))));
    assert!(topology.validated().is_err());
}

#[test]
fn rendering_stops_at_an_unknown_vertex() {
    const EDGES: &[Transition] = &[
        Transition { from: A, trigger: TriggerId(0), to: B, label: "go" },
        Transition { from: B, trigger: TriggerId(1), to: VertexId(9), label: "lost" },
        Transition { from: B, trigger: TriggerId(2), to: C, label: "never" },
    ];
    let topology = Topology {
        name: "partial",
        initial: A,
        vertices: CHAIN_VERTICES,
        transitions: EDGES,
    };
    let mut text = String::from("prefix\n");
    assert_eq!(topology.write_mermaid(&mut text), Err(RenderError));
    assert_eq!(text, "prefix\nstateDiagram-v2\n    [*] --> a\n    a --> b: go\n");

    let unknown_initial = Topology {
        name: "initial",
        initial: VertexId(5),
        vertices: CHAIN_VERTICES,
        transitions: EDGES,
    };
    let mut text = String::new();
    assert_eq!(unknown_initial.write_mermaid(&mut text), Err(RenderError));
    assert_eq!(text, "stateDiagram-v2\n");
}

#[test]
fn edge_labels_must_match_for_containment() {
    let model = lifecycle_model();
    for edge in LifecycleEdge::ALL {
        assert!(model.contains(edge));
    }
    let renamed = Transition {
        from: VertexId(0),
        trigger: TriggerId(0),
        to: VertexId(1),
        label: "claim",
    };
    assert!(!lifecycle_topology().contains_transition(&renamed));
    let exact = Transition {
        from: VertexId(0),
        trigger: TriggerId(0),
        to: VertexId(1),
        label: "claim_activation",
    };
    assert!(lifecycle_topology().contains_transition(&exact));
}

#[test]
fn lifecycle_validation_reports_each_lifecycle_defect() {
    let full = lifecycle_topology();
    assert_eq!(validate_lifecycle_topology(full), Ok(()));

    let missing = Topology {
        transitions: &full.transitions[..3],
        ..full
    };
    assert_eq!(
        validate_lifecycle_topology(missing),
        Err(LifecycleTopologyError::Structure(TopologyError::UnreachableVertex(VertexId(3))))
    );

    const WITHOUT_FAILURE: &[Transition] = &[
        Transition { from: VertexId(0), trigger: TriggerId(0), to: VertexId(1), label: "claim_activation" },
        Transition { from: VertexId(1), trigger: TriggerId(3), to: VertexId(2), label: "activation_succeeded" },
        Transition { from: VertexId(2), trigger: TriggerId(6), to: VertexId(3), label: "begin_drain" },
        Transition { from: VertexId(3), trigger: TriggerId(7), to: VertexId(4), label: "fence_acknowledged" },
        Transition { from: VertexId(3), trigger: TriggerId(8), to: VertexId(4), label: "force_drain" },
        Transition { from: VertexId(4), trigger: TriggerId(9), to: VertexId(0), label: "terminated" },
    ];
    assert_eq!(
        validate_lifecycle_topology(Topology { transitions: WITHOUT_FAILURE, ..full }),
        Err(LifecycleTopologyError::Missing(LifecycleEdge::ActivationFailed))
    );

    const REOPENING: &[Transition] = &[
        Transition { from: VertexId(0), trigger: TriggerId(0), to: VertexId(1), label: "claim_activation" },
        Transition { from: VertexId(1), trigger: TriggerId(3), to: VertexId(2), label: "activation_succeeded" },
        Transition { from: VertexId(1), trigger: TriggerId(4), to: VertexId(0), label: "activation_failed" },
        Transition { from: VertexId(2), trigger: TriggerId(6), to: VertexId(3), label: "begin_drain" },
        Transition { from: VertexId(3), trigger: TriggerId(7), to: VertexId(4), label: "fence_acknowledged" },
        Transition { from: VertexId(3), trigger: TriggerId(8), to: VertexId(4), label: "force_drain" },
        Transition { from: VertexId(4), trigger: TriggerId(9), to: VertexId(0), label: "terminated" },
        Transition { from: VertexId(4), trigger: TriggerId(1), to: VertexId(2), label: "reopen" },
    ];
    assert_eq!(
        validate_lifecycle_topology(Topology { transitions: REOPENING, ..full }),
        Err(LifecycleTopologyError::RetiringToActive)
    );
}

#[test]
fn lifecycle_edges_name_their_endpoints() {
    assert_eq!(
        LifecycleEdge::ForceDrain.endpoints(),
        (LifecyclePhase::Draining, LifecycleTrigger::ForceDrain, LifecyclePhase::Retiring)
    );
    assert_eq!(
        LifecycleEdge::Terminated.endpoints(),
        (LifecyclePhase::Retiring, LifecycleTrigger::Terminated, LifecyclePhase::Inactive)
    );
    assert_eq!(LifecycleEdge::ALL.len(), 7);
}
