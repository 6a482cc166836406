use bombay_entity::{Base, Compose, Decision, Either, Machine, Topology, Vertex, VertexId};

const VERTICES: &[Vertex] = &[Vertex { id: VertexId(0), label: "ready" }];

fn topology() -> Topology {
    Topology {
        name: "counter",
        initial: VertexId(0),
        vertices: VERTICES,
        transitions: &[],
    }
}

#[test]
fn base_machine_retains_its_state_between_steps() {
    let machine = Base::new(5_u32, topology().validated().unwrap(), |state: u32, input: u32| {
        (state * input, state + input)
    });
    assert_eq!(*machine.state(), 5);
    let (output, machine) = machine.step(3);
    assert_eq!(output, 15);
    assert_eq!(*machine.state(), 8);
}

#[test]
fn routed_machine_leaves_the_other_branch_untouched() {
    let left = Base::new(0_u32, topology().validated().unwrap(), |state: u32, input: u32| {
        (state + input, state + input)
    });
    let right = Base::new(100_u32, topology().validated().unwrap(), |state: u32, input: u32| {
        (state - input, state - input)
    });
    let (output, routed) = left.routed(right).step(Either::Left(4));
    assert_eq!(output, Either::Left(4));
    let (output, routed) = routed.step(Either::Left(4));
    assert_eq!(output, Either::Left(8));
    let (output, _) = routed.step(Either::Right(1));
    assert_eq!(output, Either::Right(99));
}

#[test]
fn decision_maps_transform_one_component() {
    let decision = Decision::new(2_u8, "effects");
    assert_eq!(decision.map_state(|state| state * 10), Decision::new(20, "effects"));
    assert_eq!(decision.map_effects(|effects| effects.len()), Decision::new(2, 7));
    assert_eq!(
        decision.map(|state| u32::from(state) + 1, |effects| effects.is_empty()),
        Decision::new(3_u32, false)
    );
}
