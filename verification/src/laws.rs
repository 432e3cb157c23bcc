//! Global properties of the engine, stated over the spec model that the
//! engine's contracts use and proved once and for all.

use vstd::prelude::*;

use crate::constants::PlayField;
use crate::constants::Type;
use crate::snake::tick_rel;
use crate::snake::Snake;

verus! {

/// Projection is deterministic: any two grids that satisfy
/// `draw_elements`' contract for one engine state agree cell for cell. The
/// grid is a pure function of the state, with no hidden state of its own.
pub proof fn lemma_projection_deterministic(
    s: Snake,
    g1: Seq<Seq<PlayField>>,
    g2: Seq<Seq<PlayField>>,
)
    requires
        g1.len() == 40,
        g2.len() == 40,
        forall|i: int| 0 <= i < 40 ==> (#[trigger] g1[i]).len() == 40,
        forall|i: int| 0 <= i < 40 ==> (#[trigger] g2[i]).len() == 40,
        forall|i: int, j: int|
            0 <= i < 40 && 0 <= j < 40 ==> (#[trigger] g1[i][j]) == s.projected_cell(i, j),
        forall|i: int, j: int|
            0 <= i < 40 && 0 <= j < 40 ==> (#[trigger] g2[i][j]) == s.projected_cell(i, j),
    ensures
        g1 =~~= g2,
{
    assert forall|i: int| 0 <= i < 40 implies (#[trigger] g1[i]) =~= g2[i] by {
        assert(forall|j: int| 0 <= j < 40 ==> (#[trigger] g1[i][j]) == g2[i][j]);
    }
}

/// The border invariant of the projection: while the body and the apple
/// stay inside the interior of the playfield, a projected cell shows a wall
/// exactly on the border rows and columns. (An apple rolled onto the far
/// wall column 39 — which `set_apple` permits — would overwrite one wall
/// cell, so the interior premise is needed.)
pub proof fn lemma_border_walls(s: Snake, i: int, j: int)
    requires
        0 <= i < 40,
        0 <= j < 40,
        forall|k: int|
            0 <= k < s.snake_vec@.len() ==> 1 <= (#[trigger] s.snake_vec@[k]).x <= 38 && 1
                <= s.snake_vec@[k].y <= 38,
        1 <= s.apple.x <= 38,
        1 <= s.apple.y <= 38,
    ensures
        s.cell_type_at(i, j) == Type::Wall <==> (i == 0 || i == 39 || j == 0 || j == 39),
{
}

/// How many ticks of a trace eat the apple while the snake is in motion —
/// the ticks on which the body grows.
pub open spec fn growth_events(trace: Seq<Snake>) -> nat
    decreases trace.len(),
{
    if trace.len() <= 1 {
        0
    } else {
        (if trace[0].eats() && trace[0].moving() {
            1nat
        } else {
            0nat
        }) + growth_events(trace.drop_first())
    }
}

/// Growth monotonicity: along any run of consecutive ticks, the body ends
/// exactly as many segments longer than it began as there were apple-eaten
/// events with a non-zero velocity.
pub proof fn lemma_growth_monotonic(trace: Seq<Snake>)
    requires
        trace.len() >= 1,
        forall|i: int| 0 <= i < trace.len() - 1 ==> tick_rel(#[trigger] trace[i], trace[i + 1]),
    ensures
        trace.last().snake_vec@.len() == trace[0].snake_vec@.len() + growth_events(trace),
    decreases trace.len(),
{
    if trace.len() > 1 {
        let sub = trace.drop_first();
        assert forall|i: int| 0 <= i < sub.len() - 1 implies tick_rel(
            #[trigger] sub[i],
            sub[i + 1],
        ) by {
            assert(tick_rel(trace[i + 1], trace[i + 2]));
        }
        lemma_growth_monotonic(sub);
        assert(tick_rel(trace[0], trace[1]));
        assert(trace[1].snake_vec@.len() == trace[0].snake_vec@.len() + (
        if trace[0].eats() && trace[0].moving() {
            1nat
        } else {
            0nat
        }));
    }
}

/// Wrap correctness at the left edge: from column 1 moving left, one tick
/// teleports the head to column 38 and latches the wrap flag; the latch
/// suppresses the wrap check on the next tick, which therefore steps
/// ordinarily to column 37 and clears the flag.
pub proof fn lemma_wrap_latches(s: Snake, t: Snake, u: Snake)
    requires
        tick_rel(s, t),
        tick_rel(t, u),
        s.head().x == 1,
        s.velocity_x == -1,
        !s.wrap,
    ensures
        t.head().x == 38,
        t.wrap,
        u.head().x == 37,
        !u.wrap,
{
    assert(s.velocity_y == 0);
    assert(t.head() == s.next_head());
    assert(u.head() == t.next_head());
}

} // verus!
