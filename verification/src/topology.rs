//! Inspectable topology of a state machine: named vertices, declared edges,
//! structural validation, and deterministic Mermaid rendering.

use vstd::prelude::*;

verus! {

/// Compact identity of a topology vertex.
#[derive(Debug, Clone, Copy, PartialEq, Eq, Structural, PartialOrd, Ord, Hash)]
pub struct VertexId(pub u8);

/// Compact identity of an input trigger.
#[derive(Debug, Clone, Copy, PartialEq, Eq, Structural, PartialOrd, Ord, Hash)]
pub struct TriggerId(pub u8);

/// One named topology vertex.
#[derive(Debug, Clone, Copy, PartialEq, Eq)]
pub struct Vertex {
    /// Identity used by execution and structural interpreters.
    pub id: VertexId,
    /// Human-readable label used only by renderers.
    pub label: &'static str,
}

/// One declared edge in a base machine's topology.
#[derive(Debug, Clone, Copy, PartialEq, Eq)]
pub struct Transition {
    /// Source vertex identity.
    pub from: VertexId,
    /// Input identity selecting the edge.
    pub trigger: TriggerId,
    /// Destination vertex identity.
    pub to: VertexId,
    /// Human-readable trigger label used only by renderers.
    pub label: &'static str,
}

/// Inspectable metadata for one indivisible machine.
#[derive(Debug, Clone, Copy, PartialEq, Eq)]
pub struct Topology {
    /// Stable component name.
    pub name: &'static str,
    /// Initial vertex.
    pub initial: VertexId,
    /// Declared vertices.
    pub vertices: &'static [Vertex],
    /// Declared transition graph.
    pub transitions: &'static [Transition],
}

/// Topology whose identities, references, and reachability were validated.
#[derive(Debug, Clone, Copy, PartialEq, Eq)]
pub struct ValidatedTopology(Topology);

impl View for ValidatedTopology {
    type V = Topology;

    closed spec fn view(&self) -> Topology {
        self.0
    }
}

impl ValidatedTopology {
    /// Every validated topology is valid.
    #[verifier::type_invariant]
    closed spec fn valid(self) -> bool {
        topology_valid(self.0)
    }

    /// Borrow the validated descriptive topology.
    pub fn topology(self) -> (topology: Topology)
        ensures
            topology == self@,
            topology_valid(topology),
    {
        proof {
            use_type_invariant(&self);
        }
        self.0
    }
}

/// Structural defect found in a topology.
#[derive(Debug, Clone, Copy, PartialEq, Eq)]
pub enum TopologyError {
    /// Two vertices have the same identity.
    DuplicateVertex(VertexId),
    /// Two edges share a source vertex and trigger.
    DuplicateTransition(Transition),
    /// The initial identity is not a declared vertex.
    UnknownInitial(VertexId),
    /// An edge refers to an undeclared vertex.
    UnknownVertex(VertexId),
    /// A declared vertex cannot be reached from the initial vertex.
    UnreachableVertex(VertexId),
}

impl TopologyError {
    /// Human-readable description of the defect.
    pub fn to_string(&self) -> (message: String)
        ensures
            message@ == topology_error_message(*self)@,
    {
        let message = match self {
            TopologyError::DuplicateVertex(_) => "two vertices share an identity",
            TopologyError::DuplicateTransition(_) => "two transitions share a source and trigger",
            TopologyError::UnknownInitial(_) => "initial identity is not a declared vertex",
            TopologyError::UnknownVertex(_) => "transition refers to an undeclared vertex",
            TopologyError::UnreachableVertex(_) => "declared vertex is unreachable from the initial vertex",
        };
        String::from_str(message)
    }
}

/// Description of each defect.
pub open spec fn topology_error_message(error: TopologyError) -> &'static str {
    match error {
        TopologyError::DuplicateVertex(_) => "two vertices share an identity",
        TopologyError::DuplicateTransition(_) => "two transitions share a source and trigger",
        TopologyError::UnknownInitial(_) => "initial identity is not a declared vertex",
        TopologyError::UnknownVertex(_) => "transition refers to an undeclared vertex",
        TopologyError::UnreachableVertex(_) => "declared vertex is unreachable from the initial vertex",
    }
}

/// Failure to render a topology: an edge or the initial identity names an
/// undeclared vertex.
#[derive(Debug, Clone, Copy, PartialEq, Eq, Structural)]
pub struct RenderError;

/// Some declared vertex carries this identity.
pub open spec fn declares(t: Topology, id: VertexId) -> bool {
    exists|i: int| 0 <= i < t.vertices@.len() && #[trigger] t.vertices@[i].id == id
}

/// Vertex `i` repeats the identity of an earlier vertex.
pub open spec fn vertex_repeats(t: Topology, i: int) -> bool {
    exists|j: int| 0 <= j < i && #[trigger] t.vertices@[j].id == t.vertices@[i].id
}

/// Edge `k` repeats the source and trigger of an earlier edge.
pub open spec fn transition_repeats(t: Topology, k: int) -> bool {
    exists|j: int|
        0 <= j < k && (#[trigger] t.transitions@[j]).from == t.transitions@[k].from
            && t.transitions@[j].trigger == t.transitions@[k].trigger
}

/// Edge `k` repeats an earlier edge or names an undeclared vertex.
pub open spec fn transition_defect(t: Topology, k: int) -> bool {
    ||| transition_repeats(t, k)
    ||| !declares(t, t.transitions@[k].from)
    ||| !declares(t, t.transitions@[k].to)
}

/// The error reported for a defective edge: repetition first, then the
/// source, then the destination.
pub open spec fn transition_error(t: Topology, k: int) -> TopologyError {
    if transition_repeats(t, k) {
        TopologyError::DuplicateTransition(t.transitions@[k])
    } else if !declares(t, t.transitions@[k].from) {
        TopologyError::UnknownVertex(t.transitions@[k].from)
    } else {
        TopologyError::UnknownVertex(t.transitions@[k].to)
    }
}

/// Some declared edge leads from `a` to `b`.
pub open spec fn edge_between(t: Topology, a: VertexId, b: VertexId) -> bool {
    exists|k: int| 0 <= k < t.transitions@.len() && #[trigger] t.transitions@[k].from == a && t.transitions@[k].to == b
}

/// A walk along declared edges that starts at the initial vertex.
pub open spec fn is_path(t: Topology, p: Seq<VertexId>) -> bool {
    &&& p.len() >= 1
    &&& p[0] == t.initial
    &&& forall|i: int| 0 <= i < p.len() - 1 ==> #[trigger] edge_between(t, p[i], p[i + 1])
}

/// Some walk from the initial vertex ends at `id`.
pub open spec fn reachable(t: Topology, id: VertexId) -> bool {
    exists|p: Seq<VertexId>| #[trigger] is_path(t, p) && p.last() == id
}

/// No two vertices share an identity.
pub open spec fn identities_unique(t: Topology) -> bool {
    forall|i: int| 0 <= i < t.vertices@.len() ==> !#[trigger] vertex_repeats(t, i)
}

/// No edge is defective.
pub open spec fn transitions_sound(t: Topology) -> bool {
    forall|k: int| 0 <= k < t.transitions@.len() ==> !#[trigger] transition_defect(t, k)
}

/// Every declared vertex is reachable from the initial vertex.
pub open spec fn all_reachable(t: Topology) -> bool {
    forall|i: int| 0 <= i < t.vertices@.len() ==> #[trigger] reachable(t, t.vertices@[i].id)
}

/// Identities are unique, the initial vertex and every edge endpoint are
/// declared, no two edges share a source and trigger, and every vertex is
/// reachable.
pub open spec fn topology_valid(t: Topology) -> bool {
    &&& identities_unique(t)
    &&& declares(t, t.initial)
    &&& transitions_sound(t)
    &&& all_reachable(t)
}

/// `error` is the first defect of `t` in declaration order: repeated vertex
/// identities first, then the initial identity, then the edges in order, then
/// reachability of the vertices in order.
pub open spec fn first_defect(t: Topology, error: TopologyError) -> bool {
    ||| exists|i: int|
        0 <= i < t.vertices@.len() && #[trigger] vertex_repeats(t, i) && (forall|j: int|
            0 <= j < i ==> !#[trigger] vertex_repeats(t, j)) && error == TopologyError::DuplicateVertex(
            t.vertices@[i].id,
        )
    ||| identities_unique(t) && !declares(t, t.initial) && error == TopologyError::UnknownInitial(t.initial)
    ||| identities_unique(t) && declares(t, t.initial) && exists|k: int|
        0 <= k < t.transitions@.len() && #[trigger] transition_defect(t, k) && (forall|j: int|
            0 <= j < k ==> !#[trigger] transition_defect(t, j)) && error == transition_error(t, k)
    ||| identities_unique(t) && declares(t, t.initial) && transitions_sound(t) && exists|i: int|
        0 <= i < t.vertices@.len() && !#[trigger] reachable(t, t.vertices@[i].id) && (forall|j: int|
            0 <= j < i ==> #[trigger] reachable(t, t.vertices@[j].id)) && error
            == TopologyError::UnreachableVertex(t.vertices@[i].id)
}

/// Label of the first vertex carrying `id`.
pub open spec fn find_label(vertices: Seq<Vertex>, id: VertexId) -> Option<&'static str>
    decreases vertices.len(),
{
    if vertices.len() == 0 {
        None
    } else if vertices[0].id == id {
        Some(vertices[0].label)
    } else {
        find_label(vertices.drop_first(), id)
    }
}

/// Rendered line of edge `k`, when both endpoints have labels.
pub open spec fn edge_line(t: Topology, k: int) -> Option<Seq<char>> {
    match (find_label(t.vertices@, t.transitions@[k].from), find_label(t.vertices@, t.transitions@[k].to)) {
        (Some(from), Some(to)) => Some(
            "    "@ + from@ + " --> "@ + to@ + ": "@ + t.transitions@[k].label@ + "\n"@,
        ),
        _ => None,
    }
}

/// Text written for the first `n` edges, and whether every one rendered;
/// rendering stops at the first edge that does not.
pub open spec fn edges_text(t: Topology, n: nat) -> (Seq<char>, bool)
    decreases n,
{
    if n == 0 {
        (Seq::empty(), true)
    } else {
        let (text, ok) = edges_text(t, (n - 1) as nat);
        if !ok {
            (text, false)
        } else {
            match edge_line(t, n - 1) {
                Some(line) => (text + line, true),
                None => (text, false),
            }
        }
    }
}

/// Complete text written by rendering, and whether rendering succeeded.
pub open spec fn mermaid_text(t: Topology) -> (Seq<char>, bool) {
    let header = "stateDiagram-v2\n"@;
    match find_label(t.vertices@, t.initial) {
        None => (header, false),
        Some(initial) => {
            let (edges, ok) = edges_text(t, t.transitions@.len());
            (header + "    [*] --> "@ + initial@ + "\n"@ + edges, ok)
        },
    }
}

impl Topology {
    /// Validate and retain this topology for executable machine construction.
    ///
    /// Returns the first structural defect in declaration order.
    pub fn validated(self) -> (result: Result<ValidatedTopology, TopologyError>)
        ensures
            result is Ok <==> topology_valid(self),
            result matches Ok(v) ==> v@ == self,
            result matches Err(e) ==> first_defect(self, e),
    {
        match self.validate() {
            Ok(()) => Ok(ValidatedTopology(self)),
            Err(error) => Err(error),
        }
    }

    /// Validate identity uniqueness, references, initial state, and reachability.
    ///
    /// Returns the first uniqueness, reference, initial-state, or reachability
    /// defect encountered in deterministic declaration order.
    pub fn validate(self) -> (result: Result<(), TopologyError>)
        ensures
            result is Ok <==> topology_valid(self),
            result matches Err(e) ==> first_defect(self, e),
    {
        let vertices = self.vertices;
        let transitions = self.transitions;
        let nv = vertices.len();
        let ne = transitions.len();
        let mut index: usize = 0;
        while index < nv
            invariant
                nv == self.vertices@.len(),
                vertices == self.vertices,
                0 <= index <= nv,
                forall|i: int| 0 <= i < index ==> !#[trigger] vertex_repeats(self, i),
            decreases nv - index,
        {
            let id = vertices[index].id;
            let mut j: usize = 0;
            while j < index
                invariant
                    nv == self.vertices@.len(),
                    vertices == self.vertices,
                    0 <= j <= index < nv,
                    id == self.vertices@[index as int].id,
                    forall|k: int| 0 <= k < j ==> self.vertices@[k].id != id,
                    forall|i: int| 0 <= i < index ==> !#[trigger] vertex_repeats(self, i),
                decreases index - j,
            {
                if vertices[j].id.0 == id.0 {
                    proof {
                        assert(vertex_repeats(self, index as int));
                        lemma_duplicate_vertex_first(self, index as int);
                    }
                    return Err(TopologyError::DuplicateVertex(id));
                }
                j = j + 1;
            }
            index = index + 1;
        }
        if !self.has_vertex(self.initial) {
            proof {
                lemma_unknown_initial_first(self);
            }
            return Err(TopologyError::UnknownInitial(self.initial));
        }
        let mut k: usize = 0;
        while k < ne
            invariant
                ne == self.transitions@.len(),
                transitions == self.transitions,
                0 <= k <= ne,
                identities_unique(self),
                declares(self, self.initial),
                forall|i: int| 0 <= i < k ==> !#[trigger] transition_defect(self, i),
            decreases ne - k,
        {
            let edge = transitions[k];
            let mut j: usize = 0;
            while j < k
                invariant
                    ne == self.transitions@.len(),
                    transitions == self.transitions,
                    0 <= j <= k < ne,
                    edge == self.transitions@[k as int],
                    identities_unique(self),
                    declares(self, self.initial),
                    forall|i: int| 0 <= i < k ==> !#[trigger] transition_defect(self, i),
                    forall|i: int|
                        0 <= i < j ==> !((#[trigger] self.transitions@[i]).from == edge.from
                            && self.transitions@[i].trigger == edge.trigger),
                decreases k - j,
            {
                let known = transitions[j];
                if known.from.0 == edge.from.0 && known.trigger.0 == edge.trigger.0 {
                    proof {
                        assert(transition_repeats(self, k as int));
                        lemma_transition_first(self, k as int);
                    }
                    return Err(TopologyError::DuplicateTransition(edge));
                }
                j = j + 1;
            }
            if !self.has_vertex(edge.from) {
                proof {
                    assert(transition_defect(self, k as int));
                    lemma_transition_first(self, k as int);
                }
                return Err(TopologyError::UnknownVertex(edge.from));
            }
            if !self.has_vertex(edge.to) {
                proof {
                    assert(transition_defect(self, k as int));
                    lemma_transition_first(self, k as int);
                }
                return Err(TopologyError::UnknownVertex(edge.to));
            }
            k = k + 1;
        }
        let marked = self.mark_reachable();
        let mut i: usize = 0;
        while i < nv
            invariant
                nv == self.vertices@.len(),
                vertices == self.vertices,
                0 <= i <= nv,
                marked@.len() == 256,
                identities_unique(self),
                declares(self, self.initial),
                transitions_sound(self),
                forall|id: u8| marked@[id as int] <==> reachable(self, VertexId(id)),
                forall|j: int| 0 <= j < i ==> #[trigger] reachable(self, self.vertices@[j].id),
            decreases nv - i,
        {
            let id = vertices[i].id;
            if !marked[id.0 as usize] {
                proof {
                    assert(!reachable(self, self.vertices@[i as int].id));
                    lemma_unreachable_first(self, i as int);
                }
                return Err(TopologyError::UnreachableVertex(id));
            }
            i = i + 1;
        }
        proof {
            assert(all_reachable(self));
        }
        Ok(())
    }

    /// Whether some declared vertex carries `id`.
    fn has_vertex(self, id: VertexId) -> (found: bool)
        ensures
            found == declares(self, id),
    {
        let vertices = self.vertices;
        let mut i: usize = 0;
        while i < vertices.len()
            invariant
                vertices == self.vertices,
                0 <= i <= vertices@.len(),
                forall|j: int| 0 <= j < i ==> self.vertices@[j].id != id,
            decreases vertices@.len() - i,
        {
            if vertices[i].id.0 == id.0 {
                return true;
            }
            i = i + 1;
        }
        false
    }

    /// Mark every identity reachable from the initial vertex, relaxing every
    /// edge once per declared vertex, in a fixed array without allocating.
    fn mark_reachable(self) -> (marked: [bool; 256])
        requires
            identities_unique(self),
            declares(self, self.initial),
            transitions_sound(self),
        ensures
            marked@.len() == 256,
            forall|id: u8| marked@[id as int] <==> reachable(self, VertexId(id)),
    {
        let transitions = self.transitions;
        let rounds = self.vertices.len();
        let mut marked: [bool; 256] = [false; 256];
        marked[self.initial.0 as usize] = true;
        proof {
            let p = seq![self.initial];
            assert(is_path(self, p));
            assert forall|id: u8| marked@[id as int] implies reachable(self, VertexId(id)) by {
                assert(id == self.initial.0);
                assert(p.last() == VertexId(id));
            }
        }
        let mut round: usize = 0;
        while round < rounds
            invariant
                transitions == self.transitions,
                rounds == self.vertices@.len(),
                0 <= round <= rounds,
                marked@.len() == 256,
                forall|id: u8| marked@[id as int] ==> reachable(self, VertexId(id)),
                forall|p: Seq<VertexId>|
                    #[trigger] is_path(self, p) && p.len() <= round + 1 ==> marked@[p.last().0 as int],
            decreases rounds - round,
        {
            let ghost start = marked@;
            let mut k: usize = 0;
            while k < transitions.len()
                invariant
                    transitions == self.transitions,
                    0 <= k <= transitions@.len(),
                    marked@.len() == 256,
                    start.len() == 256,
                    forall|id: u8| marked@[id as int] ==> reachable(self, VertexId(id)),
                    forall|id: u8| start[id as int] ==> marked@[id as int],
                    forall|j: int|
                        0 <= j < k && start[(#[trigger] self.transitions@[j]).from.0 as int]
                            ==> marked@[self.transitions@[j].to.0 as int],
                decreases transitions@.len() - k,
            {
                let edge = transitions[k];
                if marked[edge.from.0 as usize] {
                    proof {
                        assert(reachable(self, edge.from));
                        let p = choose|p: Seq<VertexId>| #[trigger] is_path(self, p) && p.last() == edge.from;
                        let q = p.push(edge.to);
                        assert(edge_between(self, edge.from, edge.to));
                        assert forall|i: int| 0 <= i < q.len() - 1 implies #[trigger] edge_between(self, q[i], q[i + 1]) by {
                            if i < p.len() - 1 {
                                assert(q[i] == p[i] && q[i + 1] == p[i + 1]);
                            }
                        }
                        assert(is_path(self, q));
                        assert(q.last() == edge.to);
                    }
                    marked[edge.to.0 as usize] = true;
                }
                k = k + 1;
            }
            proof {
                assert forall|p: Seq<VertexId>|
                    #[trigger] is_path(self, p) && p.len() <= round + 2 implies marked@[p.last().0 as int] by {
                    if p.len() <= round + 1 {
                        assert(start[p.last().0 as int]);
                    } else {
                        let q = p.drop_last();
                        assert forall|i: int| 0 <= i < q.len() - 1 implies #[trigger] edge_between(self, q[i], q[i + 1]) by {
                            assert(edge_between(self, p[i], p[i + 1]));
                        }
                        assert(is_path(self, q));
                        assert(start[q.last().0 as int]);
                        let h = p.len() - 2;
                        assert(edge_between(self, p[h], p[h + 1]));
                        let j = choose|j: int| 0 <= j < self.transitions@.len() && #[trigger] self.transitions@[j].from == p[p.len() - 2] && self.transitions@[j].to == p[p.len() - 1];
                        assert(q.last() == p[p.len() - 2]);
                    }
                }
            }
            round = round + 1;
        }
        proof {
            assert forall|id: u8| reachable(self, VertexId(id)) implies marked@[id as int] by {
                let p = choose|p: Seq<VertexId>| #[trigger] is_path(self, p) && p.last() == VertexId(id);
                lemma_short_path(self, p);
                let q = choose|q: Seq<VertexId>| #[trigger] is_path(self, q) && q.last() == p.last() && q.len() <= self.vertices@.len();
            }
        }
        marked
    }

    /// Render a deterministic Mermaid state diagram into `output`.
    ///
    /// Returns an error when the initial identity or an edge references an
    /// unknown vertex; [`Self::validate`] diagnoses the latter precisely. The
    /// text written before the failing line stays in `output`.
    pub fn write_mermaid(self, output: &mut String) -> (result: Result<(), RenderError>)
        ensures
            final(output)@ == old(output)@ + mermaid_text(self).0,
            result is Ok <==> mermaid_text(self).1,
    {
        output.append("stateDiagram-v2\n");
        let initial = match self.label(self.initial) {
            Some(label) => label,
            None => return Err(RenderError),
        };
        output.append("    [*] --> ");
        output.append(initial);
        output.append("\n");
        let ghost prefix = output@;
        let transitions = self.transitions;
        let mut k: usize = 0;
        proof {
            reveal_with_fuel(edges_text, 1);
            assert(prefix + Seq::<char>::empty() =~= prefix);
        }
        while k < transitions.len()
            invariant
                transitions == self.transitions,
                0 <= k <= transitions@.len(),
                edges_text(self, k as nat).1,
                output@ == prefix + edges_text(self, k as nat).0,
                prefix == old(output)@ + "stateDiagram-v2\n"@ + "    [*] --> "@ + initial@ + "\n"@,
                find_label(self.vertices@, self.initial) == Some(initial),
            decreases transitions@.len() - k,
        {
            let edge = transitions[k];
            let from = match self.label(edge.from) {
                Some(label) => label,
                None => {
                    proof {
                        lemma_edges_text_stops(self, (k + 1) as nat, transitions@.len());
                    }
                    return Err(RenderError);
                },
            };
            let to = match self.label(edge.to) {
                Some(label) => label,
                None => {
                    proof {
                        lemma_edges_text_stops(self, (k + 1) as nat, transitions@.len());
                    }
                    return Err(RenderError);
                },
            };
            output.append("    ");
            output.append(from);
            output.append(" --> ");
            output.append(to);
            output.append(": ");
            output.append(edge.label);
            output.append("\n");
            proof {
                let line = "    "@ + from@ + " --> "@ + to@ + ": "@ + edge.label@ + "\n"@;
                assert(edge_line(self, k as int) == Some(line));
                assert(output@ =~= prefix + edges_text(self, k as nat).0 + line);
            }
            k = k + 1;
        }
        proof {
            assert(old(output)@ + mermaid_text(self).0 =~= output@);
        }
        Ok(())
    }

    /// Label of the first vertex that carries `id`.
    fn label(self, id: VertexId) -> (label: Option<&'static str>)
        ensures
            label == find_label(self.vertices@, id),
    {
        let vertices = self.vertices;
        let mut i: usize = 0;
        assert(vertices@.subrange(0, vertices@.len() as int) =~= vertices@);
        while i < vertices.len()
            invariant
                vertices == self.vertices,
                0 <= i <= vertices@.len(),
                find_label(vertices@, id) == find_label(vertices@.subrange(i as int, vertices@.len() as int), id),
            decreases vertices@.len() - i,
        {
            proof {
                let rest = vertices@.subrange(i as int, vertices@.len() as int);
                assert(rest.drop_first() =~= vertices@.subrange(i + 1, vertices@.len() as int));
            }
            if vertices[i].id.0 == id.0 {
                return Some(vertices[i].label);
            }
            i = i + 1;
        }
        None
    }
}

/// A repeated identity with no earlier repetition is the first defect.
proof fn lemma_duplicate_vertex_first(t: Topology, i: int)
    requires
        0 <= i < t.vertices@.len(),
        vertex_repeats(t, i),
        forall|j: int| 0 <= j < i ==> !#[trigger] vertex_repeats(t, j),
    ensures
        first_defect(t, TopologyError::DuplicateVertex(t.vertices@[i].id)),
        !topology_valid(t),
{
}

/// An undeclared initial identity after unique identities is the first defect.
proof fn lemma_unknown_initial_first(t: Topology)
    requires
        identities_unique(t),
        !declares(t, t.initial),
    ensures
        first_defect(t, TopologyError::UnknownInitial(t.initial)),
        !topology_valid(t),
{
}

/// A defective edge with no earlier defective edge is the first defect.
proof fn lemma_transition_first(t: Topology, k: int)
    requires
        identities_unique(t),
        declares(t, t.initial),
        0 <= k < t.transitions@.len(),
        transition_defect(t, k),
        forall|j: int| 0 <= j < k ==> !#[trigger] transition_defect(t, j),
    ensures
        first_defect(t, transition_error(t, k)),
        !topology_valid(t),
{
}

/// An unreachable vertex with every earlier vertex reachable is the first
/// defect of an otherwise sound topology.
proof fn lemma_unreachable_first(t: Topology, i: int)
    requires
        identities_unique(t),
        declares(t, t.initial),
        transitions_sound(t),
        0 <= i < t.vertices@.len(),
        !reachable(t, t.vertices@[i].id),
        forall|j: int| 0 <= j < i ==> #[trigger] reachable(t, t.vertices@[j].id),
    ensures
        first_defect(t, TopologyError::UnreachableVertex(t.vertices@[i].id)),
        !topology_valid(t),
{
}

/// Once rendering of edge `n - 1` fails, every longer prefix reports failure
/// with the same text.
proof fn lemma_edges_text_stops(t: Topology, n: nat, m: nat)
    requires
        0 < n <= m,
        edges_text(t, (n - 1) as nat).1,
        edge_line(t, n - 1) is None,
    ensures
        edges_text(t, m) == (edges_text(t, (n - 1) as nat).0, false),
    decreases m - n,
{
    if m > n {
        lemma_edges_text_stops(t, n, (m - 1) as nat);
    }
}

/// Every vertex on a walk along sound edges from a declared initial vertex is
/// declared.
proof fn lemma_path_declared(t: Topology, p: Seq<VertexId>, i: int)
    requires
        declares(t, t.initial),
        transitions_sound(t),
        is_path(t, p),
        0 <= i < p.len(),
    ensures
        declares(t, p[i]),
{
    if i > 0 {
        let h = i - 1;
        assert(edge_between(t, p[h], p[h + 1]));
        let k = choose|k: int| 0 <= k < t.transitions@.len() && #[trigger] t.transitions@[k].from == p[i - 1] && t.transitions@[k].to == p[i];
        assert(!transition_defect(t, k));
    }
}

/// A vertex reachable at all is reachable by a walk that visits no more
/// vertices than are declared.
proof fn lemma_short_path(t: Topology, p: Seq<VertexId>)
    requires
        identities_unique(t),
        declares(t, t.initial),
        transitions_sound(t),
        is_path(t, p),
    ensures
        exists|q: Seq<VertexId>| #[trigger] is_path(t, q) && q.last() == p.last() && q.len() <= t.vertices@.len(),
    decreases p.len(),
{
    let n = t.vertices@.len();
    if p.len() <= n {
        assert(is_path(t, p) && p.last() == p.last() && p.len() <= n);
    } else {
        let ids = t.vertices@.map_values(|v: Vertex| v.id);
        assert forall|x: VertexId| p.to_set().contains(x) implies ids.to_set().contains(x) by {
            let i = choose|i: int| 0 <= i < p.len() && p[i] == x;
            lemma_path_declared(t, p, i);
            let j = choose|j: int| 0 <= j < t.vertices@.len() && #[trigger] t.vertices@[j].id == p[i];
            assert(ids[j] == x);
        }
        ids.lemma_cardinality_of_set();
        vstd::set_lib::lemma_len_subset(p.to_set(), ids.to_set());
        if p.no_duplicates() {
            p.unique_seq_to_set();
            assert(false);
        }
        let (i, j) = choose|i: int, j: int| 0 <= i < p.len() && 0 <= j < p.len() && i != j && p[i] == p[j];
        let (a, b) = if i < j { (i, j) } else { (j, i) };
        let q = p.subrange(0, a + 1) + p.subrange(b + 1, p.len() as int);
        assert forall|k: int| 0 <= k < q.len() - 1 implies #[trigger] edge_between(t, q[k], q[k + 1]) by {
            if k < a {
                assert(q[k] == p[k] && q[k + 1] == p[k + 1]);
                assert(edge_between(t, p[k], p[k + 1]));
            } else if k == a {
                assert(q[k] == p[b] && q[k + 1] == p[b + 1]);
                assert(edge_between(t, p[b], p[b + 1]));
            } else {
                let m = k - a - 1 + b + 1;
                assert(q[k] == p[m] && q[k + 1] == p[m + 1]);
                assert(edge_between(t, p[m], p[m + 1]));
            }
        }
        assert(q[0] == p[0]);
        assert(is_path(t, q));
        assert(q.last() == p.last());
        lemma_short_path(t, q);
    }
}

/// Two edges agree on endpoints, trigger, and label text.
pub open spec fn transition_matches(a: Transition, b: Transition) -> bool {
    &&& a.from == b.from
    &&& a.trigger == b.trigger
    &&& a.to == b.to
    &&& a.label@ == b.label@
}

/// Some declared edge of `t` matches `edge`.
pub open spec fn has_transition(t: Topology, edge: Transition) -> bool {
    exists|k: int| 0 <= k < t.transitions@.len() && #[trigger] transition_matches(t.transitions@[k], edge)
}

/// An edge is contained in a topology only when some declared edge agrees
/// with it in source, trigger, destination and label text, and every such
/// declared edge makes it contained.
pub proof fn lemma_contained_edges_agree_exactly(t: Topology, edge: Transition)
    ensures
        has_transition(t, edge) <==> exists|k: int|
            0 <= k < t.transitions@.len() && #[trigger] t.transitions@[k].from == edge.from
                && t.transitions@[k].trigger == edge.trigger && t.transitions@[k].to == edge.to
                && t.transitions@[k].label@ == edge.label@,
{
    if has_transition(t, edge) {
        let k = choose|k: int| 0 <= k < t.transitions@.len() && #[trigger] transition_matches(t.transitions@[k], edge);
        assert(t.transitions@[k].from == edge.from);
    }
    if exists|k: int|
        0 <= k < t.transitions@.len() && #[trigger] t.transitions@[k].from == edge.from
            && t.transitions@[k].trigger == edge.trigger && t.transitions@[k].to == edge.to
            && t.transitions@[k].label@ == edge.label@ {
        let k = choose|k: int|
            0 <= k < t.transitions@.len() && #[trigger] t.transitions@[k].from == edge.from
                && t.transitions@[k].trigger == edge.trigger && t.transitions@[k].to == edge.to
                && t.transitions@[k].label@ == edge.label@;
        assert(transition_matches(t.transitions@[k], edge));
    }
}

/// Rendering writes one line per declared edge, self-loops included: once
/// the first `k` edges rendered, edge `k` with labelled endpoints appends
/// exactly `    {from} --> {to}: {label}` and a newline.
pub proof fn lemma_each_edge_renders_its_line(t: Topology, k: nat, from: &'static str, to: &'static str)
    requires
        k < t.transitions@.len(),
        edges_text(t, k).1,
        find_label(t.vertices@, t.transitions@[k as int].from) == Some(from),
        find_label(t.vertices@, t.transitions@[k as int].to) == Some(to),
    ensures
        edges_text(t, k + 1) == (
            edges_text(t, k).0 + "    "@ + from@ + " --> "@ + to@ + ": "@ + t.transitions@[k as int].label@ + "\n"@,
            true,
        ),
{
}

/// Every declared edge whose endpoints are labelled renders, so a topology
/// whose vertices label every endpoint renders completely, with text that
/// grows by one line per edge.
pub proof fn lemma_labelled_edges_render(t: Topology, n: nat)
    requires
        n <= t.transitions@.len(),
        forall|k: int|
            0 <= k < n ==> find_label(t.vertices@, (#[trigger] t.transitions@[k]).from) is Some
                && find_label(t.vertices@, t.transitions@[k].to) is Some,
    ensures
        edges_text(t, n).1,
    decreases n,
{
    if n > 0 {
        lemma_labelled_edges_render(t, (n - 1) as nat);
        assert(find_label(t.vertices@, t.transitions@[n - 1].from) is Some);
    }
}

/// Rendering opens with the diagram header and an arrow into the initial
/// state, followed by the edge lines; without a labelled initial vertex it
/// writes only the header and fails.
pub proof fn lemma_rendering_opens_with_the_initial_state(t: Topology)
    ensures
        find_label(t.vertices@, t.initial) matches Some(initial) ==> mermaid_text(t) == (
            "stateDiagram-v2\n"@ + "    [*] --> "@ + initial@ + "\n"@ + edges_text(t, t.transitions@.len()).0,
            edges_text(t, t.transitions@.len()).1,
        ),
        find_label(t.vertices@, t.initial) is None ==> mermaid_text(t) == ("stateDiagram-v2\n"@, false),
{
}

/// Equality of two string slices.
#[verifier::external_body]
fn str_eq(a: &str, b: &str) -> (equal: bool)
    ensures
        equal == (a@ == b@),
{
    a == b
}

/// Whether two edges agree on endpoints, trigger, and label text.
pub fn transitions_match(a: &Transition, b: &Transition) -> (matched: bool)
    ensures
        matched == transition_matches(*a, *b),
{
    a.from.0 == b.from.0 && a.trigger.0 == b.trigger.0 && a.to.0 == b.to.0 && str_eq(a.label, b.label)
}

impl Topology {
    /// Whether some declared edge matches `edge`.
    pub fn contains_transition(self, edge: &Transition) -> (found: bool)
        ensures
            found == has_transition(self, *edge),
    {
        let transitions = self.transitions;
        let mut k: usize = 0;
        while k < transitions.len()
            invariant
                transitions == self.transitions,
                0 <= k <= transitions@.len(),
                forall|j: int| 0 <= j < k ==> !#[trigger] transition_matches(self.transitions@[j], *edge),
            decreases transitions@.len() - k,
        {
            if transitions_match(&transitions[k], edge) {
                return true;
            }
            k = k + 1;
        }
        false
    }
}

} // verus!
