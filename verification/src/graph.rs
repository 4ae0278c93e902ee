//! The node's position in the host's render graphs.
//!
//! The effect registers itself in two independent graphs — one for layered
//! (3D) scenes, one for flat (2D) scenes — as a static list of ordering
//! edges. The two graphs deliberately put tone mapping on opposite sides of
//! the effect: the layered graph runs the effect after tone mapping, the
//! flat graph before it. The host's executor resolves each graph to some
//! total order; the lemmas here show that any order consistent with the
//! declared edges brackets the effect as the contract demands.

use vstd::prelude::*;

verus! {

/// The named stages this effect's edges speak of. `VideoGlitch` is the
/// effect's own stable node name; the others are stages the host defines.
#[derive(Clone, Copy, PartialEq, Eq, Structural, Debug)]
pub enum StageLabel {
    /// End of the flat graph's main scene pass.
    EndMainPass,
    /// The scene's tone-mapping stage.
    Tonemapping,
    /// This effect's node.
    VideoGlitch,
    /// The layered graph's end-of-post-processing marker.
    EndMainPassPostProcessing,
}

/// Which of the two render graphs an edge list is declared for.
#[derive(Clone, Copy, PartialEq, Eq, Structural, Debug)]
pub enum GraphMode {
    /// The layered (3D) scene graph.
    Layered,
    /// The flat (2D) scene graph.
    Flat,
}

/// A declared ordering constraint: `runs_before` must execute strictly
/// before `runs_after` within one frame.
#[derive(Clone, Copy, PartialEq, Eq, Structural, Debug)]
pub struct OrderingEdge {
    pub runs_before: StageLabel,
    pub runs_after: StageLabel,
}

/// The edges the effect declares for a graph mode. Layered scenes run the
/// effect after tone mapping and before the end-of-post-processing marker;
/// flat scenes run it after the main pass and before tone mapping.
pub open spec fn spec_registration_edges(mode: GraphMode) -> Seq<OrderingEdge> {
    match mode {
        GraphMode::Layered => seq![
            OrderingEdge {
                runs_before: StageLabel::Tonemapping,
                runs_after: StageLabel::VideoGlitch,
            },
            OrderingEdge {
                runs_before: StageLabel::VideoGlitch,
                runs_after: StageLabel::EndMainPassPostProcessing,
            },
        ],
        GraphMode::Flat => seq![
            OrderingEdge {
                runs_before: StageLabel::EndMainPass,
                runs_after: StageLabel::VideoGlitch,
            },
            OrderingEdge { runs_before: StageLabel::VideoGlitch, runs_after: StageLabel::Tonemapping },
        ],
    }
}

/// Builds the static edge list registered for the given graph mode. This is
/// declared topology, decided when the plugin is built: no runtime logic
/// chooses edges.
pub fn registration_edges(mode: GraphMode) -> (r: Vec<OrderingEdge>)
    ensures
        r@ == spec_registration_edges(mode),
{
    let mut r: Vec<OrderingEdge> = Vec::new();
    match mode {
        GraphMode::Layered => {
            r.push(
                OrderingEdge {
                    runs_before: StageLabel::Tonemapping,
                    runs_after: StageLabel::VideoGlitch,
                },
            );
            r.push(
                OrderingEdge {
                    runs_before: StageLabel::VideoGlitch,
                    runs_after: StageLabel::EndMainPassPostProcessing,
                },
            );
        },
        GraphMode::Flat => {
            r.push(
                OrderingEdge {
                    runs_before: StageLabel::EndMainPass,
                    runs_after: StageLabel::VideoGlitch,
                },
            );
            r.push(
                OrderingEdge {
                    runs_before: StageLabel::VideoGlitch,
                    runs_after: StageLabel::Tonemapping,
                },
            );
        },
    }
    proof {
        assert(r@ =~= spec_registration_edges(mode));
    }
    r
}

/// A scheduled order respects an edge when every occurrence of the edge's
/// first stage comes strictly before every occurrence of its second.
pub open spec fn respects_edge(order: Seq<StageLabel>, e: OrderingEdge) -> bool {
    forall|i: int, j: int|
        0 <= i < order.len() && 0 <= j < order.len() && order[i] == e.runs_before && order[j]
            == e.runs_after ==> i < j
}

/// A scheduled order respects a whole edge list.
pub open spec fn respects_edges(order: Seq<StageLabel>, edges: Seq<OrderingEdge>) -> bool {
    forall|k: int| 0 <= k < edges.len() ==> respects_edge(order, #[trigger] edges[k])
}

/// In the layered-scene graph, any schedule consistent with the declared
/// edges runs the effect strictly after tone mapping and strictly before
/// the end-of-post-processing marker.
pub proof fn lemma_layered_schedule_brackets_effect(order: Seq<StageLabel>, t: int, g: int, e: int)
    requires
        respects_edges(order, spec_registration_edges(GraphMode::Layered)),
        0 <= t < order.len(),
        order[t] == StageLabel::Tonemapping,
        0 <= g < order.len(),
        order[g] == StageLabel::VideoGlitch,
        0 <= e < order.len(),
        order[e] == StageLabel::EndMainPassPostProcessing,
    ensures
        t < g,
        g < e,
{
    let edges = spec_registration_edges(GraphMode::Layered);
    assert(respects_edge(order, edges[0]));
    assert(respects_edge(order, edges[1]));
}

/// In the flat-scene graph, any schedule consistent with the declared edges
/// runs the effect strictly after the end of the main pass and strictly
/// before tone mapping.
pub proof fn lemma_flat_schedule_brackets_effect(order: Seq<StageLabel>, m: int, g: int, t: int)
    requires
        respects_edges(order, spec_registration_edges(GraphMode::Flat)),
        0 <= m < order.len(),
        order[m] == StageLabel::EndMainPass,
        0 <= g < order.len(),
        order[g] == StageLabel::VideoGlitch,
        0 <= t < order.len(),
        order[t] == StageLabel::Tonemapping,
    ensures
        m < g,
        g < t,
{
    let edges = spec_registration_edges(GraphMode::Flat);
    assert(respects_edge(order, edges[0]));
    assert(respects_edge(order, edges[1]));
}

} // verus!
