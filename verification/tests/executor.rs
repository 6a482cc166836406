use bombay_entity::PoisonedInput;

#[test]
fn poisoned_input_reports_the_rejection() {
    assert_eq!(
        PoisonedInput(7_u8).to_string(),
        "executor was poisoned by a previous panic"
    );
}

use bombay_entity::{
    Base, LinearizedExecution, Machine, OutputEvidence, SerializedExecution, Topology, TurnState,
    Vertex, VertexId,
};

const VERTICES: &[Vertex] = &[Vertex {
    id: VertexId(0),
    label: "ready",
}];
const TOPOLOGY: Topology = Topology {
    name: "test",
    initial: VertexId(0),
    vertices: VERTICES,
    transitions: &[],
};

#[derive(Debug, PartialEq)]
struct Output(u8);

impl OutputEvidence for Output {
    type Evidence = u8;

    fn evidence(&self) -> u8 {
        self.0
    }
}

fn summing(state: u8, input: u8) -> (Output, u8) {
    (Output(state + input), state + input)
}

type Summing = Base<u8, fn(u8, u8) -> (Output, u8), u8, Output>;

fn machine() -> Summing {
    Base::new(0, TOPOLOGY.validated().unwrap(), summing as fn(u8, u8) -> (Output, u8))
}

#[test]
fn serialized_turns_run_in_submission_order() {
    let mut execution: SerializedExecution<Summing, &str> = SerializedExecution::new(machine());
    assert_eq!(execution.enqueue(1, "first").ok(), Some(true));
    assert_eq!(execution.enqueue(2, "second").ok(), Some(false));
    let (machine, input, receipt) = execution.take_turn().unwrap();
    assert_eq!((input, receipt), (1, "first"));
    let (output, machine) = machine.step(input);
    assert_eq!(output, Output(1));
    execution.install(machine);
    let (machine, input, receipt) = execution.take_turn().unwrap();
    assert_eq!((input, receipt), (2, "second"));
    let (output, machine) = machine.step(input);
    assert_eq!(output, Output(3));
    execution.install(machine);
    assert!(execution.take_turn().is_none());
    assert_eq!(execution.enqueue(3, "third").ok(), Some(true));
}

#[test]
fn poisoning_returns_every_queued_receipt_and_refuses_input() {
    let mut execution: SerializedExecution<Summing, &str> = SerializedExecution::new(machine());
    assert_eq!(execution.enqueue(1, "a").ok(), Some(true));
    assert_eq!(execution.enqueue(2, "b").ok(), Some(false));
    assert_eq!(execution.enqueue(3, "c").ok(), Some(false));
    assert!(execution.take_turn().is_some());
    assert_eq!(execution.poison(), ["b", "c"]);
    let Err(rejected) = execution.enqueue(4, "d") else {
        panic!("poisoned execution accepted input")
    };
    assert_eq!(rejected.0, 4);
    assert_eq!(TurnState::Poisoned, TurnState::Poisoned);
}

#[test]
fn linearized_outputs_dispatch_in_transition_order() {
    let mut execution = LinearizedExecution::new(machine());
    assert_eq!(execution.evidence(), None);
    assert_eq!(execution.submit(1), 1);
    assert_eq!(execution.submit(2), 3);
    assert_eq!(execution.evidence(), Some(3));
    assert!(execution.acquire());
    assert!(!execution.acquire());
    assert_eq!(execution.next(), Some(Output(1)));
    execution.release();
    assert!(execution.acquire());
    assert_eq!(execution.next(), Some(Output(3)));
    assert_eq!(execution.next(), None);
    assert!(execution.acquire());
}
