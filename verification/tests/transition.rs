use bombay_entity::{
    Base, Compose, Decision, Either, Machine, Reducer, Structure, Topology, TopologyError,
    Transition, TriggerId, Vertex, VertexId,
};

struct Sum;

impl Reducer<u32, u32> for Sum {
    type Effects = u32;

    fn reduce(&self, state: u32, event: u32) -> Decision<u32, Self::Effects> {
        Decision::new(state + event, event)
    }
}

#[test]
fn reducer_returns_owned_state_and_effects() {
    assert_eq!(Sum.reduce(1, 2), Decision::new(3, 2));
}

const READY: VertexId = VertexId(0);
const VERTICES: &[Vertex] = &[Vertex {
    id: READY,
    label: "ready",
}];

const EDGES: &[Transition] = &[Transition {
    from: READY,
    trigger: TriggerId(0),
    to: READY,
    label: "advance",
}];
const UNKNOWN: VertexId = VertexId(9);
const UNKNOWN_EDGE: &[Transition] = &[Transition {
    from: READY,
    trigger: TriggerId(1),
    to: UNKNOWN,
    label: "lost",
}];
const STRANDED: VertexId = VertexId(1);
const STRANDED_VERTICES: &[Vertex] = &[
    VERTICES[0],
    Vertex {
        id: STRANDED,
        label: "stranded",
    },
];
const DUPLICATE_EDGES: &[Transition] = &[EDGES[0], EDGES[0]];
const AMBIGUOUS: &[Transition] = &[
    EDGES[0],
    Transition {
        from: READY,
        trigger: TriggerId(0),
        to: STRANDED,
        label: "different presentation",
    },
];

fn topology(name: &'static str) -> Topology {
    Topology {
        name,
        initial: READY,
        vertices: VERTICES,
        transitions: EDGES,
    }
}

#[test]
fn topology_error_reports_each_defect() {
    assert_eq!(
        TopologyError::DuplicateVertex(READY).to_string(),
        "two vertices share an identity"
    );
    assert_eq!(
        TopologyError::UnknownInitial(READY).to_string(),
        "initial identity is not a declared vertex"
    );
    assert_eq!(
        TopologyError::UnknownVertex(READY).to_string(),
        "transition refers to an undeclared vertex"
    );
    assert_eq!(
        TopologyError::UnreachableVertex(READY).to_string(),
        "declared vertex is unreachable from the initial vertex"
    );
    assert_eq!(
        TopologyError::DuplicateTransition(EDGES[0]).to_string(),
        "two transitions share a source and trigger"
    );
}

#[derive(Debug, PartialEq, Eq)]
struct Shape {
    bases: usize,
    sequences: usize,
    products: usize,
    choices: usize,
}

struct Count;

impl Structure for Count {
    type Output = Shape;

    fn base(&mut self, _topology: Topology) -> Self::Output {
        Shape {
            bases: 1,
            sequences: 0,
            products: 0,
            choices: 0,
        }
    }

    fn and_then(&mut self, first: Self::Output, second: Self::Output) -> Self::Output {
        Shape {
            bases: first.bases + second.bases,
            sequences: first.sequences + second.sequences + 1,
            products: first.products + second.products,
            choices: first.choices + second.choices,
        }
    }

    fn product(&mut self, left: Self::Output, right: Self::Output) -> Self::Output {
        Shape {
            bases: left.bases + right.bases,
            sequences: left.sequences + right.sequences,
            products: left.products + right.products + 1,
            choices: left.choices + right.choices,
        }
    }

    fn routed(&mut self, left: Self::Output, right: Self::Output) -> Self::Output {
        Shape {
            bases: left.bases + right.bases,
            sequences: left.sequences + right.sequences,
            products: left.products + right.products,
            choices: left.choices + right.choices + 1,
        }
    }
}

#[test]
fn sequential_machine_executes_and_retains_its_structure() {
    let increment = Base::new(
        0_u8,
        topology("increment").validated().unwrap(),
        |state: u8, input: u8| {
            let state = state + input;
            (state, state)
        },
    );
    let double = Base::new(
        (),
        topology("double").validated().unwrap(),
        |(), input: u8| (input * 2, ()),
    );
    let machine = increment.and_then(double);

    let (output, machine) = machine.step(3);
    assert_eq!(output, 6);
    let (output, machine) = machine.step(1);
    assert_eq!(output, 8);
    assert_eq!(
        machine.describe(&mut Count),
        Shape {
            bases: 2,
            sequences: 1,
            products: 0,
            choices: 0,
        }
    );
}

#[test]
fn topology_validation_rejects_each_structural_defect() {
    const DUPLICATE_VERTICES: &[Vertex] = &[
        Vertex {
            id: READY,
            label: "ready",
        },
        Vertex {
            id: READY,
            label: "again",
        },
    ];
    assert_eq!(
        Topology {
            name: "duplicate",
            initial: READY,
            vertices: DUPLICATE_VERTICES,
            transitions: &[]
        }
        .validate(),
        Err(TopologyError::DuplicateVertex(READY))
    );

    assert_eq!(
        Topology {
            name: "initial",
            initial: UNKNOWN,
            vertices: VERTICES,
            transitions: &[]
        }
        .validate(),
        Err(TopologyError::UnknownInitial(UNKNOWN))
    );

    assert_eq!(
        Topology {
            name: "reference",
            initial: READY,
            vertices: VERTICES,
            transitions: UNKNOWN_EDGE
        }
        .validate(),
        Err(TopologyError::UnknownVertex(UNKNOWN))
    );

    assert_eq!(
        Topology {
            name: "reachability",
            initial: READY,
            vertices: STRANDED_VERTICES,
            transitions: &[]
        }
        .validate(),
        Err(TopologyError::UnreachableVertex(STRANDED))
    );

    assert_eq!(
        Topology {
            name: "edge",
            initial: READY,
            vertices: VERTICES,
            transitions: DUPLICATE_EDGES
        }
        .validate(),
        Err(TopologyError::DuplicateTransition(EDGES[0]))
    );

    assert_eq!(
        Topology {
            name: "ambiguous",
            initial: READY,
            vertices: STRANDED_VERTICES,
            transitions: AMBIGUOUS,
        }
        .validate(),
        Err(TopologyError::DuplicateTransition(AMBIGUOUS[1]))
    );
}

#[test]
fn product_and_routed_composition_preserve_untouched_affine_state() {
    struct Affine(u8);

    let left = Base::new(
        Affine(1),
        topology("left").validated().unwrap(),
        |state: Affine, input: u8| (state.0 + input, Affine(state.0 + input)),
    );
    let right = Base::new(
        Affine(10),
        topology("right").validated().unwrap(),
        |state: Affine, input: u8| (state.0 + input, Affine(state.0 + input)),
    );
    let (output, product) = left.product(right).step((2, 3));
    assert_eq!(output, (3, 13));

    let left = Base::new(
        Affine(1),
        topology("left").validated().unwrap(),
        |state: Affine, input: u8| (state.0 + input, Affine(state.0 + input)),
    );
    let right = Base::new(
        Affine(10),
        topology("right").validated().unwrap(),
        |state: Affine, input: u8| (state.0 + input, Affine(state.0 + input)),
    );
    let (output, routed) = left.routed(right).step(Either::Left(2));
    assert_eq!(output, Either::Left(3));
    let (output, _) = routed.step(Either::Right(3));
    assert_eq!(output, Either::Right(13));
    assert_eq!(product.describe(&mut Count).products, 1);
}
