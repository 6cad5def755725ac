//! Laws of the compiler, stated and proved over the spec functions that the
//! public contracts use.

use vstd::prelude::*;

use crate::cuts::arc::arc_spec;
use crate::cuts::area::area_spec;
use crate::cuts::circle::{circle_layers, circle_passes, circle_spec, cut_radius_spec};
use crate::cuts::frame::frame_spec;
use crate::cuts::path::{
    arc2d_ok, arc2d_radius, first_arc_error, path_bounds_upto, path_spec, PathV,
};
use crate::cuts::{cut_bounds, cut_wf, Circle, CutV};
use crate::errors::CncError;
use crate::instructions::{gcode, InstrV};
use crate::program::{dedup_from, dedup_spec, is_plane, program_spec, ProgramV};
use crate::tools::{
    keep_explicit, lookup, next_auto, next_free_from, rebuild_from, rebuilt, uses_order, Tool,
};
use crate::types::{dist3, Axis, Units};

verus! {

/// The magnitude of a difference.
pub open spec fn abs_diff(a: int, b: int) -> int {
    if a >= b {
        a - b
    } else {
        b - a
    }
}

/// Every cut's bounds are ordered: the minimum corner is at or below the
/// maximum on every axis the cut's geometry touches.  A circle, frame or
/// area needs its radius and depths declared the right way around; a path
/// needs at least one segment for its footprint axes to be touched at all.
/// `bounds()` itself is deterministic: its exact contracts pin it as a
/// function of the cut alone.
pub proof fn lemma_cut_bounds_ordered(c: CutV)
    requires
        cut_wf(c),
        c matches CutV::Circle(x) ==> x.radius >= 0 && x.end_z <= x.start.z,
        c matches CutV::Frame(x) ==> x.end_z <= x.start.z,
        c matches CutV::Area(x) ==> x.end_z <= x.start.z && x.end_z_stop <= x.start.z,
        c matches CutV::Path(x) ==> x.segments.len() > 0,
    ensures
        cut_bounds(c).min.x <= cut_bounds(c).max.x,
        cut_bounds(c).min.y <= cut_bounds(c).max.y,
        cut_bounds(c).min.z <= cut_bounds(c).max.z,
{
    reveal(crate::cuts::cut_bounds);
    match c {
        CutV::Path(p) => {
            lemma_path_bounds_ordered(p, p.segments.len() as int);
        },
        _ => {},
    }
}

/// The bounds folded from a path's first `i` segments are ordered once at
/// least one segment has been folded.
proof fn lemma_path_bounds_ordered(p: PathV, i: int)
    requires
        p.wf(),
        1 <= i <= p.segments.len(),
    ensures
        path_bounds_upto(p, i).min.x <= path_bounds_upto(p, i).max.x,
        path_bounds_upto(p, i).min.y <= path_bounds_upto(p, i).max.y,
        path_bounds_upto(p, i).min.z <= path_bounds_upto(p, i).max.z,
    decreases i,
{
    assert(p.segments[i - 1].wf());
    match p.segments[i - 1] {
        crate::cuts::Segment::Arc(a) => {
            lemma_arc2d_radius_bounds(a);
        },
        _ => {},
    }
    if i > 1 {
        lemma_path_bounds_ordered(p, i - 1);
    }
}

/// The radius of a well-formed arc segment stays inside three working
/// ranges, so the segment's folded extent fits the coordinate type.
proof fn lemma_arc2d_radius_bounds(a: crate::cuts::Arc2D)
    requires
        a.from.wf(),
        a.to.wf(),
        a.center.wf(),
    ensures
        0 <= arc2d_radius(a) <= 3 * crate::types::MAX_COORD,
{
    lemma_dist2_bounds(a.from, a.center);
    lemma_dist2_bounds(a.to, a.center);
}

/// The distance of two well-formed 2D points stays inside three working
/// ranges.
proof fn lemma_dist2_bounds(u: crate::types::Vector2, v: crate::types::Vector2)
    requires
        u.wf(),
        v.wf(),
    ensures
        0 <= crate::types::dist2(u, v) <= 3 * crate::types::MAX_COORD,
{
    let sq = crate::types::dist2_sq(u, v);
    assert(0 <= sq <= 800_000_000_000_000_000_000_000_000) by (nonlinear_arith)
        requires
            -2 * crate::types::MAX_COORD <= u.x - v.x <= 2 * crate::types::MAX_COORD,
            -2 * crate::types::MAX_COORD <= u.y - v.y <= 2 * crate::types::MAX_COORD,
            sq == (u.x - v.x) * (u.x - v.x) + (u.y - v.y) * (u.y - v.y),
            crate::types::MAX_COORD == 10_000_000_000_000,
    ;
    crate::types::lemma_isqrt_bounds(sq as nat);
    assert(crate::types::isqrt(sq as nat) <= 3 * crate::types::MAX_COORD) by (nonlinear_arith)
        requires
            crate::types::isqrt(sq as nat) * crate::types::isqrt(sq as nat) <= sq,
            sq <= 800_000_000_000_000_000_000_000_000,
            crate::types::MAX_COORD == 10_000_000_000_000,
    ;
}

/// An arc cut fails exactly when its endpoints' distances to the center
/// differ by more than one ten-thousandth of a unit.
pub proof fn lemma_arc_fails_iff(
    a: crate::cuts::Arc,
    tool: Tool,
    units: Units,
    z_safe: i64,
)
    ensures
        arc_spec(a, tool, units, z_safe) is Err <==> abs_diff(
            dist3(a.from, a.center),
            dist3(a.to, a.center),
        ) > 1,
{
}

/// An invalid arc exists at or after `i` exactly when the scan reports one.
proof fn lemma_first_arc_error_iff(segs: Seq<crate::cuts::Segment>, i: int, units: Units)
    requires
        0 <= i <= segs.len(),
    ensures
        first_arc_error(segs, i, units) is Some <==> exists|j: int|
            i <= j < segs.len() && ((#[trigger] segs[j]) matches crate::cuts::Segment::Arc(a)
                && !arc2d_ok(a)),
    decreases segs.len() - i,
{
    if i < segs.len() {
        lemma_first_arc_error_iff(segs, i + 1, units);
    }
}

/// A path cut fails exactly when one of its arc segments' endpoints are not
/// equidistant from that arc's center, to the same tolerance of one
/// ten-thousandth of a unit.
pub proof fn lemma_path_fails_iff(p: PathV, tool: Tool, units: Units, z_safe: i64)
    ensures
        path_spec(p, tool, units, z_safe) is Err <==> exists|j: int|
            0 <= j < p.segments.len() && ((#[trigger] p.segments[j]) matches
                crate::cuts::Segment::Arc(a) && !arc2d_ok(a)),
{
    lemma_first_arc_error_iff(p.segments, 0, units);
}

/// The spiral passes of a circle number exactly the layer count.
pub proof fn lemma_circle_passes_len(c: Circle, tool: Tool, n: int)
    requires
        n >= 0,
    ensures
        circle_passes(c, tool, n).len() == n,
    decreases n,
{
    if n > 0 {
        lemma_circle_passes_len(c, tool, n - 1);
    }
}

/// A circle whose effective radius is under one thousandth of a unit
/// compiles to exactly one plunge sequence, with no arc moves in it.
pub proof fn lemma_circle_plunge(c: Circle, tool: Tool, units: Units, z_safe: i64)
    requires
        0 <= cut_radius_spec(c, tool) < 10,
    ensures
        circle_spec(c, tool, units, z_safe) is Ok,
        circle_spec(c, tool, units, z_safe)->Ok_0.len() == 6,
        forall|i: int|
            0 <= i < 6 ==> !(#[trigger] circle_spec(c, tool, units, z_safe)->Ok_0[i] is G2)
                && !(circle_spec(c, tool, units, z_safe)->Ok_0[i] is G3),
{
}

/// A circle whose effective radius is negative fails: the tool is wider
/// than the requested hole.
pub proof fn lemma_circle_too_narrow(c: Circle, tool: Tool, units: Units, z_safe: i64)
    requires
        cut_radius_spec(c, tool) < 0,
    ensures
        circle_spec(c, tool, units, z_safe) is Err,
        circle_spec(c, tool, units, z_safe)->Err_0 matches CncError::CircleTooNarrow { .. },
{
}

/// A spiral bore compiles to eight fixed instructions plus one pass per
/// layer, so its instruction count grows exactly with the layer count.
pub proof fn lemma_circle_count(c: Circle, tool: Tool, units: Units, z_safe: i64)
    requires
        cut_radius_spec(c, tool) >= 10,
    ensures
        circle_spec(c, tool, units, z_safe) is Ok,
        circle_spec(c, tool, units, z_safe)->Ok_0.len() == 8 + circle_layers(c),
{
    lemma_circle_passes_len(c, tool, circle_layers(c));
}

/// The instruction count of a spiral bore grows monotonically with the
/// layer count.
pub proof fn lemma_circle_count_monotonic(
    c1: Circle,
    c2: Circle,
    tool: Tool,
    units: Units,
    z_safe: i64,
)
    requires
        cut_radius_spec(c1, tool) >= 10,
        cut_radius_spec(c2, tool) >= 10,
        circle_layers(c1) <= circle_layers(c2),
    ensures
        circle_spec(c1, tool, units, z_safe)->Ok_0.len() <= circle_spec(
            c2,
            tool,
            units,
            z_safe,
        )->Ok_0.len(),
{
    lemma_circle_count(c1, tool, units, z_safe);
    lemma_circle_count(c2, tool, units, z_safe);
}

/// A frame fails exactly when its declared size is under the tool diameter
/// on either axis, and the failure names the axis and the shortfall.
pub proof fn lemma_frame_too_narrow(
    f: crate::cuts::Frame,
    tool: Tool,
    units: Units,
    z_safe: i64,
)
    ensures
        frame_spec(f, tool, units, z_safe) is Err <==> f.size.x < tool.spec_diameter() || f.size.y
            < tool.spec_diameter(),
        f.size.x < tool.spec_diameter() ==> frame_spec(f, tool, units, z_safe) == Err::<
            Seq<InstrV>,
            CncError,
        >(
            CncError::FrameTooNarrow {
                axis: Axis::X,
                shortfall: (tool.spec_diameter() - f.size.x) as i64,
                tool_diameter: tool.spec_diameter() as i64,
                units: tool.spec_units(),
            },
        ),
        f.size.x >= tool.spec_diameter() && f.size.y < tool.spec_diameter() ==> frame_spec(
            f,
            tool,
            units,
            z_safe,
        ) == Err::<Seq<InstrV>, CncError>(
            CncError::FrameTooNarrow {
                axis: Axis::Y,
                shortfall: (tool.spec_diameter() - f.size.y) as i64,
                tool_diameter: tool.spec_diameter() as i64,
                units: tool.spec_units(),
            },
        ),
{
}

/// An area fails exactly when its declared size is under the tool diameter
/// on either axis, and the failure names the axis and the shortfall.
pub proof fn lemma_area_too_narrow(
    a: crate::cuts::Area,
    tool: Tool,
    units: Units,
    z_safe: i64,
)
    ensures
        area_spec(a, tool, units, z_safe) is Err <==> a.size.x < tool.spec_diameter() || a.size.y
            < tool.spec_diameter(),
        a.size.x < tool.spec_diameter() ==> area_spec(a, tool, units, z_safe) == Err::<
            Seq<InstrV>,
            CncError,
        >(
            CncError::AreaTooNarrow {
                axis: Axis::X,
                shortfall: (tool.spec_diameter() - a.size.x) as i64,
                tool_diameter: tool.spec_diameter() as i64,
                units: tool.spec_units(),
            },
        ),
        a.size.x >= tool.spec_diameter() && a.size.y < tool.spec_diameter() ==> area_spec(
            a,
            tool,
            units,
            z_safe,
        ) == Err::<Seq<InstrV>, CncError>(
            CncError::AreaTooNarrow {
                axis: Axis::Y,
                shortfall: (tool.spec_diameter() - a.size.y) as i64,
                tool_diameter: tool.spec_diameter() as i64,
                units: tool.spec_units(),
            },
        ),
{
}

/// Emission is a pure function of the program: two compilations of one
/// unmodified program are the same instruction stream (or the same failure).
/// The exact contract of `Program::to_instructions` pins each compilation to
/// `program_spec`, so re-running a compile reproduces its output.
pub proof fn lemma_emission_deterministic(
    p: ProgramV,
    r1: Result<Seq<InstrV>, CncError>,
    r2: Result<Seq<InstrV>, CncError>,
)
    requires
        r1 == program_spec(p),
        r2 == program_spec(p),
    ensures
        r1 == r2,
{
}

/// Two consecutive instructions with identical text collapse to one: of a
/// textual run the last is kept.  (Stated for non-plane-select instructions;
/// plane selections follow the plane rule below.)
pub proof fn lemma_dedup_collapses_pair(x: InstrV)
    requires
        !is_plane(x),
    ensures
        dedup_spec(seq![x, x]) == seq![x],
{
    let s = seq![x, x];
    assert(dedup_from(s, 2, InstrV::Empty) =~= Seq::<InstrV>::empty());
    assert(dedup_from(s, 1, InstrV::Empty) =~= seq![x] + Seq::<InstrV>::empty());
    assert(dedup_spec(s) == dedup_from(s, 1, InstrV::Empty));
    assert(seq![x] + Seq::<InstrV>::empty() =~= seq![x]);
}

/// Re-asserting the active plane selection is dropped.
pub proof fn lemma_dedup_drops_reasserted_plane(y: InstrV)
    requires
        !is_plane(y),
        gcode(y) != gcode(InstrV::G17),
    ensures
        dedup_spec(seq![InstrV::G17, y, InstrV::G17]) == seq![InstrV::G17, y],
{
    let s = seq![InstrV::G17, y, InstrV::G17];
    assert(dedup_from(s, 3, InstrV::G17) =~= Seq::<InstrV>::empty());
    assert(dedup_from(s, 2, InstrV::G17) =~= Seq::<InstrV>::empty());
    assert(dedup_from(s, 1, InstrV::G17) =~= seq![y] + Seq::<InstrV>::empty());
    assert(dedup_spec(s) =~= seq![InstrV::G17] + (seq![y] + Seq::<InstrV>::empty()));
    assert(seq![InstrV::G17] + (seq![y] + Seq::<InstrV>::empty()) =~= seq![InstrV::G17, y]);
}

/// Switching to a different plane is kept.
pub proof fn lemma_dedup_keeps_plane_switch(y: InstrV)
    requires
        !is_plane(y),
        gcode(y) != gcode(InstrV::G17),
        gcode(y) != gcode(InstrV::G18),
    ensures
        dedup_spec(seq![InstrV::G17, y, InstrV::G18]) == seq![InstrV::G17, y, InstrV::G18],
{
    let s = seq![InstrV::G17, y, InstrV::G18];
    assert(dedup_from(s, 3, InstrV::G18) =~= Seq::<InstrV>::empty());
    assert(dedup_from(s, 2, InstrV::G17) =~= seq![InstrV::G18] + Seq::<InstrV>::empty());
    assert(dedup_from(s, 1, InstrV::G17) =~= seq![y] + (seq![InstrV::G18] + Seq::<
        InstrV,
    >::empty()));
    assert(dedup_spec(s) =~= seq![InstrV::G17] + (seq![y] + (seq![InstrV::G18] + Seq::<
        InstrV,
    >::empty())));
    assert(seq![InstrV::G17] + (seq![y] + (seq![InstrV::G18] + Seq::<InstrV>::empty()))
        =~= seq![InstrV::G17, y, InstrV::G18]);
}

/// Whether `a` is an in-order selection of `b`.
pub open spec fn subsequence_of(a: Seq<InstrV>, b: Seq<InstrV>) -> bool
    decreases b.len(),
{
    if a.len() == 0 {
        true
    } else if b.len() == 0 {
        false
    } else if a[0] == b[0] {
        subsequence_of(a.skip(1), b.skip(1))
    } else {
        subsequence_of(a, b.skip(1))
    }
}

/// Dropping the head of the selection preserves it.
proof fn lemma_subsequence_tail(a: Seq<InstrV>, b: Seq<InstrV>)
    requires
        subsequence_of(a, b),
        a.len() > 0,
    ensures
        subsequence_of(a.skip(1), b),
    decreases b.len(), 1int,
{
    if b.len() > 0 {
        if a[0] == b[0] {
            lemma_subsequence_weaken(a.skip(1), b);
        } else {
            lemma_subsequence_tail(a, b.skip(1));
            lemma_subsequence_weaken(a.skip(1), b);
        }
    }
}

/// A selection from the tail of a stream is a selection from the stream.
proof fn lemma_subsequence_weaken(a: Seq<InstrV>, b: Seq<InstrV>)
    requires
        b.len() > 0,
        subsequence_of(a, b.skip(1)),
    ensures
        subsequence_of(a, b),
    decreases b.len(), 0int,
{
    if a.len() > 0 {
        if a[0] == b[0] {
            if b.skip(1).len() > 0 {
                lemma_subsequence_tail(a, b.skip(1));
            }
            assert(subsequence_of(a.skip(1), b.skip(1)));
        }
    }
}

/// Prefixing both the selection and the stream with the same element
/// preserves the selection.
proof fn lemma_subsequence_cons(x: InstrV, a: Seq<InstrV>, b: Seq<InstrV>)
    requires
        subsequence_of(a, b),
    ensures
        subsequence_of(seq![x] + a, seq![x] + b),
{
    let a2 = seq![x] + a;
    let b2 = seq![x] + b;
    assert(a2[0] == b2[0]);
    assert(a2.skip(1) =~= a);
    assert(b2.skip(1) =~= b);
}

/// Deduplication only removes lines: over every raw stream and every scan
/// state, the output is an in-order selection of the remaining input.  With
/// the exact contract of `Program::to_instructions`, every emitted stream is
/// the raw stream with redundant lines removed and nothing else changed.
pub proof fn lemma_dedup_subsequence(s: Seq<InstrV>, i: int, wp: InstrV)
    requires
        0 <= i <= s.len(),
    ensures
        subsequence_of(dedup_from(s, i, wp), s.skip(i)),
    decreases s.len() - i,
{
    if i < s.len() {
        let x = s[i];
        assert(s.skip(i)[0] == x);
        assert(s.skip(i).skip(1) =~= s.skip(i + 1));
        if is_plane(x) && x == wp {
            lemma_dedup_subsequence(s, i + 1, wp);
            lemma_subsequence_weaken(dedup_from(s, i, wp), s.skip(i));
        } else {
            let wp2 = if is_plane(x) {
                x
            } else {
                wp
            };
            if i + 1 < s.len() && gcode(x) == gcode(s[i + 1]) {
                lemma_dedup_subsequence(s, i + 1, wp2);
                lemma_subsequence_weaken(dedup_from(s, i, wp), s.skip(i));
            } else {
                lemma_dedup_subsequence(s, i + 1, wp2);
                lemma_subsequence_cons(x, dedup_from(s, i + 1, wp2), s.skip(i + 1));
                assert(seq![x] + s.skip(i + 1) =~= s.skip(i));
            }
        }
    }
}

/// Appending an entry leaves earlier matches in place, and resolves a miss
/// to the new entry when its tool matches.
proof fn lemma_lookup_push(s: Seq<(Tool, u8)>, e: (Tool, u8), t: Tool)
    ensures
        lookup(s, t) is Some ==> lookup(s.push(e), t) == lookup(s, t),
        lookup(s, t) is None && e.0 == t ==> lookup(s.push(e), t) == Some(e.1),
        lookup(s, t) is None && e.0 != t ==> lookup(s.push(e), t) is None,
    decreases s.len(),
{
    if s.len() > 0 {
        lemma_lookup_push(s.skip(1), e, t);
        assert(s.push(e)[0] == s[0]);
        assert(s.push(e).skip(1) =~= s.skip(1).push(e));
        if s[0].0 == t {
            assert(lookup(s.push(e), t) == Some(s[0].1));
        } else {
            assert(lookup(s.push(e), t) == lookup(s.skip(1).push(e), t));
            assert(lookup(s, t) == lookup(s.skip(1), t));
        }
    } else {
        assert(s.push(e)[0] == e);
        assert(s.push(e).skip(1) =~= Seq::<(Tool, u8)>::empty());
        if e.0 != t {
            assert(lookup(s.push(e), t) == lookup(s.push(e).skip(1), t));
            assert(lookup(Seq::<(Tool, u8)>::empty(), t) is None);
        }
    }
}

/// The filtered explicit table never maps the reassigned tool, nor any tool
/// whose entries all held the reassigned position.
proof fn lemma_keep_explicit_lookup(s: Seq<(Tool, u8)>, i: int, t: Tool, o: u8, t2: Tool)
    requires
        0 <= i <= s.len(),
    ensures
        lookup(keep_explicit(s, i, t, o), t) is None,
        (forall|j: int| 0 <= j < i && (#[trigger] s[j]).0 == t2 ==> s[j].1 == o) ==> lookup(
            keep_explicit(s, i, t, o),
            t2,
        ) is None || t2 == t,
    decreases i,
{
    if i > 0 {
        lemma_keep_explicit_lookup(s, i - 1, t, o, t2);
        if s[i - 1].0 != t && s[i - 1].1 != o {
            lemma_lookup_push(keep_explicit(s, i - 1, t, o), s[i - 1], t);
            lemma_lookup_push(keep_explicit(s, i - 1, t, o), s[i - 1], t2);
        }
    }
}

/// Rebuilding the merged table only appends, so a tool already placed keeps
/// its position.
proof fn lemma_rebuild_preserves_lookup(
    tools: Seq<Tool>,
    expl: Seq<(Tool, u8)>,
    i: int,
    acc: Seq<(Tool, u8)>,
    t: Tool,
)
    requires
        0 <= i <= tools.len(),
        lookup(acc, t) is Some,
    ensures
        lookup(rebuild_from(tools, expl, i, acc), t) == lookup(acc, t),
    decreases tools.len() - i,
{
    if i < tools.len() {
        let acc2 = if lookup(acc, tools[i]) is Some {
            acc
        } else {
            acc.push((tools[i], next_free_from(acc, expl, 1) as u8))
        };
        if !(lookup(acc, tools[i]) is Some) {
            lemma_lookup_push(acc, (tools[i], next_free_from(acc, expl, 1) as u8), t);
        }
        lemma_rebuild_preserves_lookup(tools, expl, i + 1, acc2, t);
    }
}

/// After an explicit assignment the tool holds exactly the requested
/// position (with a floor of one): `set_ordering(t, n)` makes
/// `ordering(t) == max(n, 1)`.
pub proof fn lemma_set_ordering_takes_position(
    tools: Seq<Tool>,
    expl: Seq<(Tool, u8)>,
    t: Tool,
    order: u8,
)
    requires
        order >= 1,
    ensures
        ({
            let tools2 = tools.push(t);
            let expl2 = keep_explicit(expl, expl.len() as int, t, order).push((t, order));
            lookup(rebuilt(tools2, expl2), t) == Some(order)
        }),
{
    let kept = keep_explicit(expl, expl.len() as int, t, order);
    lemma_keep_explicit_lookup(expl, expl.len() as int, t, order, t);
    lemma_lookup_push(kept, (t, order), t);
    let expl2 = kept.push((t, order));
    lemma_rebuild_preserves_lookup(tools.push(t), expl2, 0, expl2, t);
}

/// An explicit assignment evicts any other tool that held the position
/// explicitly: its entries leave the explicit table, and the rebuild gives
/// it the lowest free position instead.
pub proof fn lemma_set_ordering_evicts_collision(
    expl: Seq<(Tool, u8)>,
    t: Tool,
    order: u8,
    t2: Tool,
)
    requires
        t2 != t,
        forall|j: int| 0 <= j < expl.len() && (#[trigger] expl[j]).0 == t2 ==> expl[j].1 == order,
    ensures
        lookup(keep_explicit(expl, expl.len() as int, t, order), t2) is None,
{
    lemma_keep_explicit_lookup(expl, expl.len() as int, t, order, t2);
}

/// Whether the positions of a table are pairwise distinct.
pub open spec fn distinct_orders(s: Seq<(Tool, u8)>) -> bool {
    forall|i: int, j: int| 0 <= i < j < s.len() ==> (#[trigger] s[i]).1 != (#[trigger] s[j]).1
}

/// Whether every position of a table lies below a budget.
pub open spec fn orders_below(s: Seq<(Tool, u8)>, m: int) -> bool {
    forall|i: int| 0 <= i < s.len() ==> (#[trigger] s[i]).1 < m
}

/// A position is used in a grown table exactly when it was used before or
/// the new entry holds it.
proof fn lemma_uses_push(s: Seq<(Tool, u8)>, e: (Tool, u8), o: int)
    ensures
        uses_order(s.push(e), o) <==> (uses_order(s, o) || e.1 == o),
{
    if uses_order(s, o) {
        let i = choose|i: int| 0 <= i < s.len() && s[i].1 == o;
        assert(s.push(e)[i].1 == o);
    }
    if e.1 == o {
        assert(s.push(e)[s.len() as int].1 == o);
    }
    if uses_order(s.push(e), o) {
        let i = choose|i: int| 0 <= i < s.push(e).len() && s.push(e)[i].1 == o;
        if i < s.len() {
            assert(s[i].1 == o);
        } else {
            assert(s.push(e)[i] == e);
        }
    }
}

/// The scan for a free position never passes an unused one.
proof fn lemma_next_free_at_most(a: Seq<(Tool, u8)>, b: Seq<(Tool, u8)>, i: int, free: int)
    requires
        1 <= i <= free <= 255,
        !uses_order(a, free),
        !uses_order(b, free),
    ensures
        next_free_from(a, b, i) <= free,
    decreases free - i,
{
    if i < free && (uses_order(a, i) || uses_order(b, i)) {
        lemma_next_free_at_most(a, b, i + 1, free);
    }
}

/// The scan for a free position never returns less than where it started.
proof fn lemma_next_free_ge(a: Seq<(Tool, u8)>, b: Seq<(Tool, u8)>, i: int)
    requires
        1 <= i <= 255,
    ensures
        i <= next_free_from(a, b, i) <= 255,
    decreases 255 - i,
{
    if i < 255 && (uses_order(a, i) || uses_order(b, i)) {
        lemma_next_free_ge(a, b, i + 1);
    }
}

/// The rebuild keeps positions pairwise distinct: each automatic slot is
/// unused at its turn, as long as the position budget keeps the scan below
/// the cap.
proof fn lemma_rebuild_distinct(
    tools: Seq<Tool>,
    expl: Seq<(Tool, u8)>,
    i: int,
    acc: Seq<(Tool, u8)>,
    m: int,
)
    requires
        0 <= i <= tools.len(),
        distinct_orders(acc),
        orders_below(acc, m),
        orders_below(expl, m),
        1 <= m,
        m + tools.len() - i <= 255,
    ensures
        distinct_orders(rebuild_from(tools, expl, i, acc)),
        orders_below(rebuild_from(tools, expl, i, acc), m + tools.len() - i),
    decreases tools.len() - i,
{
    if i < tools.len() {
        if lookup(acc, tools[i]) is Some {
            lemma_rebuild_distinct(tools, expl, i + 1, acc, m);
            assert(orders_below(rebuild_from(tools, expl, i, acc), m + tools.len() - i));
        } else {
            let o = next_free_from(acc, expl, 1);
            assert(!uses_order(acc, m) && !uses_order(expl, m));
            lemma_next_free_at_most(acc, expl, 1, m);
            lemma_next_free_ge(acc, expl, 1);
            lemma_next_free_lowest(acc, expl, 1);
            assert(1 <= o <= m);
            assert(!uses_order(acc, o));
            let e = (tools[i], o as u8);
            assert(e.1 as int == o);
            let acc2 = acc.push(e);
            assert(distinct_orders(acc2)) by {
                assert forall|x: int, y: int| 0 <= x < y < acc2.len() implies (#[trigger] acc2[x]).1
                    != (#[trigger] acc2[y]).1 by {
                    if y < acc.len() {
                        assert(acc2[x] == acc[x] && acc2[y] == acc[y]);
                    } else {
                        assert(acc2[y] == e);
                        assert(acc2[x] == acc[x]);
                        assert(acc[x].1 as int != o);
                    }
                }
            }
            assert(orders_below(acc2, m + 1)) by {
                assert forall|x: int| 0 <= x < acc2.len() implies (#[trigger] acc2[x]).1 < m
                    + 1 by {
                    if x < acc.len() {
                        assert(acc2[x] == acc[x]);
                    } else {
                        assert(acc2[x] == e);
                    }
                }
            }
            lemma_rebuild_distinct(tools, expl, i + 1, acc2, m + 1);
        }
    }
}

/// The filtered explicit table keeps pairwise-distinct positions, never
/// holds the reassigned one, and stays below any budget the full table was
/// below.
proof fn lemma_keep_explicit_distinct(s: Seq<(Tool, u8)>, i: int, t: Tool, o: u8, m: int)
    requires
        0 <= i <= s.len(),
        distinct_orders(s),
        orders_below(s, m),
    ensures
        distinct_orders(keep_explicit(s, i, t, o)),
        !uses_order(keep_explicit(s, i, t, o), o as int),
        orders_below(keep_explicit(s, i, t, o), m),
        forall|oo: int|
            #[trigger] uses_order(keep_explicit(s, i, t, o), oo) ==> exists|j: int|
                0 <= j < i && (#[trigger] s[j]).1 == oo,
    decreases i,
{
    if i > 0 {
        lemma_keep_explicit_distinct(s, i - 1, t, o, m);
        let kept = keep_explicit(s, i - 1, t, o);
        let e = s[i - 1];
        if e.0 != t && e.1 != o {
            let kept2 = kept.push(e);
            assert forall|oo: int| #[trigger] uses_order(kept2, oo) implies exists|j: int|
                0 <= j < i && (#[trigger] s[j]).1 == oo by {
                lemma_uses_push(kept, e, oo);
                if uses_order(kept, oo) {
                    let j = choose|j: int| 0 <= j < i - 1 && (#[trigger] s[j]).1 == oo;
                    assert(s[j].1 == oo);
                } else {
                    assert(s[i - 1].1 == oo);
                }
            }
            assert(distinct_orders(kept2)) by {
                assert(!uses_order(kept, e.1 as int)) by {
                    if uses_order(kept, e.1 as int) {
                        let j = choose|j: int| 0 <= j < i - 1 && (#[trigger] s[j]).1 == e.1 as int;
                        assert(s[j].1 == s[i - 1].1);
                    }
                }
                assert forall|x: int, y: int| 0 <= x < y < kept2.len() implies (
                #[trigger] kept2[x]).1 != (#[trigger] kept2[y]).1 by {
                    if y < kept.len() {
                        assert(kept2[x] == kept[x] && kept2[y] == kept[y]);
                    } else {
                        assert(kept2[y] == e);
                        assert(kept2[x] == kept[x]);
                        assert(uses_order(kept, kept[x].1 as int)) by {
                            assert(kept[x].1 == kept[x].1);
                        }
                    }
                }
            }
            lemma_uses_push(kept, e, o as int);
            assert(orders_below(kept2, m)) by {
                assert forall|x: int| 0 <= x < kept2.len() implies (#[trigger] kept2[x]).1 < m by {
                    if x < kept.len() {
                        assert(kept2[x] == kept[x]);
                    } else {
                        assert(kept2[x] == e);
                        assert(orders_below(s, m) && 0 <= i - 1 < s.len());
                        assert(s[i - 1].1 < m);
                    }
                }
            }
        }
    }
}

/// After an explicit assignment the whole rebuilt table holds pairwise
/// distinct positions, provided the explicit positions and the tool count
/// fit the position range together.  With the lowest-free law below this is
/// the density invariant: automatic slots fill the lowest holes, and no two
/// tools share a position.
pub proof fn lemma_set_ordering_distinct_positions(
    tools: Seq<Tool>,
    expl: Seq<(Tool, u8)>,
    t: Tool,
    order: u8,
    m: int,
)
    requires
        1 <= order < m,
        distinct_orders(expl),
        orders_below(expl, m),
        m + tools.len() + 1 <= 255,
    ensures
        ({
            let tools2 = tools.push(t);
            let expl2 = keep_explicit(expl, expl.len() as int, t, order).push((t, order));
            distinct_orders(rebuilt(tools2, expl2))
        }),
{
    let kept = keep_explicit(expl, expl.len() as int, t, order);
    lemma_keep_explicit_distinct(expl, expl.len() as int, t, order, m);
    let e = (t, order);
    let expl2 = kept.push(e);
    assert(distinct_orders(expl2)) by {
        assert forall|x: int, y: int| 0 <= x < y < expl2.len() implies (#[trigger] expl2[x]).1 != (
        #[trigger] expl2[y]).1 by {
            if y < kept.len() {
                assert(expl2[x] == kept[x] && expl2[y] == kept[y]);
            } else {
                assert(expl2[y] == e);
                assert(expl2[x] == kept[x]);
                assert(uses_order(kept, kept[x].1 as int)) by {
                    assert(kept[x].1 == kept[x].1);
                }
            }
        }
    }
    assert(orders_below(expl2, m)) by {
        assert forall|x: int| 0 <= x < expl2.len() implies (#[trigger] expl2[x]).1 < m by {
            if x < kept.len() {
                assert(expl2[x] == kept[x]);
            } else {
                assert(expl2[x] == e);
            }
        }
    }
    lemma_rebuild_distinct(tools.push(t), expl2, 0, expl2, m);
}

/// A table with pairwise-distinct positions, each between one and the entry
/// count, holds exactly the dense position set from one through the count.
/// Together with the distinctness of the rebuilt table and the lowest-free
/// law below, this is the density invariant of the ordering: as long as
/// positions stay within the entry count, every position from one up is
/// taken.
pub proof fn lemma_distinct_bounded_positions_dense(s: Seq<(Tool, u8)>)
    requires
        distinct_orders(s),
        forall|i: int| 0 <= i < s.len() ==> 1 <= (#[trigger] s[i]).1 <= s.len(),
    ensures
        forall|o: int| 1 <= o <= s.len() ==> uses_order(s, o),
{
    broadcast use vstd::set::group_set_axioms;

    let n = s.len() as int;
    let orders = Seq::new(s.len(), |i: int| s[i].1 as int);
    assert(orders.no_duplicates()) by {
        assert forall|i: int, j: int|
            0 <= i < orders.len() && 0 <= j < orders.len() && i != j implies orders[i]
            != orders[j] by {
            assert(s[i].1 != s[j].1);
        }
    }
    orders.unique_seq_to_set();
    let used = orders.to_set();
    let range = vstd::set_lib::set_int_range(1, n + 1);
    vstd::set_lib::lemma_int_range(1, n + 1);
    assert(used.subset_of(range)) by {
        assert forall|x: int| used.contains(x) implies range.contains(x) by {
            let i = choose|i: int| 0 <= i < orders.len() && orders[i] == x;
            assert(1 <= s[i].1 <= n);
        }
    }
    assert forall|o: int| 1 <= o <= n implies uses_order(s, o) by {
        if !uses_order(s, o) {
            assert(!used.contains(o)) by {
                if used.contains(o) {
                    let i = choose|i: int| 0 <= i < orders.len() && orders[i] == o;
                    assert(s[i].1 == o);
                }
            }
            let smaller = range.remove(o);
            assert(used.subset_of(smaller));
            assert(smaller.len() == n - 1);
            vstd::set_lib::lemma_len_subset(used, smaller);
            assert(used.len() == n);
        }
    }
}

/// An automatically assigned position is the lowest free one: every
/// position below it is already used, so automatic assignment keeps the
/// position set dense from one.
pub proof fn lemma_next_auto_lowest(a: Seq<(Tool, u8)>, b: Seq<(Tool, u8)>)
    ensures
        forall|o: int| 1 <= o < next_auto(a, b) ==> uses_order(a, o) || uses_order(b, o),
        next_auto(a, b) < 255 ==> !uses_order(a, next_auto(a, b)) && !uses_order(
            b,
            next_auto(a, b),
        ),
{
    lemma_next_free_lowest(a, b, 1);
}

/// Every position between the scan start and the first free one is used.
proof fn lemma_next_free_lowest(a: Seq<(Tool, u8)>, b: Seq<(Tool, u8)>, i: int)
    requires
        1 <= i <= 255,
    ensures
        forall|o: int| i <= o < next_free_from(a, b, i) ==> uses_order(a, o) || uses_order(b, o),
        next_free_from(a, b, i) < 255 ==> !uses_order(a, next_free_from(a, b, i)) && !uses_order(
            b,
            next_free_from(a, b, i),
        ),
    decreases 255 - i,
{
    if i < 255 && (uses_order(a, i) || uses_order(b, i)) {
        lemma_next_free_lowest(a, b, i + 1);
    }
}

} // verus!
