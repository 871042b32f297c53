//! The lines that tools draw over the scene.
//!
//! A vertex that projects outside the view is `None`, and it keeps its place in
//! the list: a line is drawn only between neighbours that are both visible, so a
//! clipped vertex never joins the ones around it.
use crate::number::Pixel;
use crate::state::geometry::PickedPair;
use vstd::prelude::*;

verus! {

/// A straight line on screen.
#[derive(Clone, Copy, Debug, PartialEq, Eq, Structural)]
pub struct Segment {
    pub from: Pixel,
    pub to: Pixel,
}

/// The line between two vertices, where both are visible.
pub open spec fn joined(a: Option<Pixel>, b: Option<Pixel>) -> Seq<Segment> {
    match (a, b) {
        (Some(from), Some(to)) => seq![Segment { from, to }],
        _ => Seq::empty(),
    }
}

/// The lines that leave the first `count` vertices of a ring.
pub open spec fn ring_part(points: Seq<Option<Pixel>>, count: nat) -> Seq<Segment>
    decreases count,
{
    if count == 0 {
        Seq::empty()
    } else {
        ring_part(points, (count - 1) as nat) + joined(points[count - 1], points[count as int % points.len() as int])
    }
}

/// The lines of a closed chain of vertices.
pub open spec fn ring(points: Seq<Option<Pixel>>) -> Seq<Segment> {
    ring_part(points, points.len())
}

/// The lines that leave the first `count` vertices of an open chain.
pub open spec fn path_part(points: Seq<Option<Pixel>>, count: nat) -> Seq<Segment>
    decreases count,
{
    if count == 0 {
        Seq::empty()
    } else {
        path_part(points, (count - 1) as nat) + joined(points[count - 1], points[count as int])
    }
}

/// The lines of an open chain of vertices.
pub open spec fn path(points: Seq<Option<Pixel>>) -> Seq<Segment> {
    if points.len() == 0 {
        Seq::empty()
    } else {
        path_part(points, (points.len() - 1) as nat)
    }
}

/// The lines of one chain within a list of vertices. A range that is empty or
/// that leaves the list draws nothing.
pub open spec fn chain(points: Seq<Option<Pixel>>, range: (usize, usize, bool)) -> Seq<Segment> {
    if range.0 >= range.1 || range.1 > points.len() {
        Seq::empty()
    } else if range.2 {
        ring(points.subrange(range.0 as int, range.1 as int))
    } else {
        path(points.subrange(range.0 as int, range.1 as int))
    }
}

/// The lines of several chains within a list of vertices.
pub open spec fn chains(points: Seq<Option<Pixel>>, ranges: Seq<(usize, usize, bool)>) -> Seq<Segment>
    decreases ranges.len(),
{
    if ranges.len() == 0 {
        Seq::empty()
    } else {
        chains(points, ranges.drop_last()) + chain(points, ranges.last())
    }
}

/// The lines between vertices that stand at the same place in two lists.
pub open spec fn links(sources: Seq<Option<Pixel>>, targets: Seq<Option<Pixel>>, count: nat) -> Seq<Segment>
    decreases count,
{
    if count == 0 {
        Seq::empty()
    } else {
        links(sources, targets, (count - 1) as nat) + joined(sources[count - 1], targets[count - 1])
    }
}

pub open spec fn smaller(a: nat, b: nat) -> nat {
    if a <= b {
        a
    } else {
        b
    }
}

/// The visible vertices, in order.
pub open spec fn visible(points: Seq<Option<Pixel>>) -> Seq<Pixel>
    decreases points.len(),
{
    if points.len() == 0 {
        Seq::empty()
    } else {
        match points.last() {
            Some(point) => visible(points.drop_last()).push(point),
            None => visible(points.drop_last()),
        }
    }
}

/// Where a picked vertex stands on screen, if it is in the list and visible.
pub open spec fn marker(points: Seq<Option<Pixel>>, picked: Option<usize>) -> Option<Pixel> {
    match picked {
        Some(index) if index < points.len() => points[index as int],
        _ => None,
    }
}

fn push_joined(out: &mut Vec<Segment>, a: Option<Pixel>, b: Option<Pixel>)
    ensures
        final(out)@ == old(out)@ + joined(a, b),
{
    if let (Some(from), Some(to)) = (a, b) {
        out.push(Segment { from, to });
        assert(out@ =~= old(out)@ + joined(a, b));
    } else {
        assert(out@ =~= old(out)@ + joined(a, b));
    }
}

/// Add the lines of one chain.
fn push_chain(out: &mut Vec<Segment>, points: &Vec<Option<Pixel>>, start: usize, end: usize, closed: bool)
    requires
        start < end <= points@.len(),
    ensures
        final(out)@ == old(out)@ + chain(points@, (start, end, closed)),
{
    let ghost part = points@.subrange(start as int, end as int);
    let mut i: usize = start;
    assert(out@ =~= old(out)@ + Seq::<Segment>::empty());
    while i < end
        invariant
            start <= i <= end <= points@.len(),
            start < end,
            part == points@.subrange(start as int, end as int),
            closed ==> out@ == old(out)@ + ring_part(part, (i - start) as nat),
            !closed ==> out@ == old(out)@ + path_part(part, smaller((i - start) as nat, (end - start - 1) as nat)),
        decreases end - i,
    {
        let next: usize = if closed {
            start + (i - start + 1) % (end - start)
        } else {
            i + 1
        };
        let ghost before = out@;
        if next < end {
            assert(part[i - start] == points@[i as int]);
            assert(part[next - start] == points@[next as int]);
            push_joined(out, points[i], points[next]);
            proof {
                if closed {
                    let count = (i - start + 1) as nat;
                    assert(ring_part(part, count) == ring_part(part, (count - 1) as nat) + joined(part[count - 1], part[count as int % part.len() as int]));
                    assert(out@ =~= old(out)@ + ring_part(part, count));
                } else {
                    let count = (i - start + 1) as nat;
                    assert(path_part(part, count) == path_part(part, (count - 1) as nat) + joined(part[count - 1], part[count as int]));
                    assert(out@ =~= old(out)@ + path_part(part, count));
                }
            }
        }
        i = i + 1;
    }
}

/// The lines of a closed preview.
pub fn ring_segments(points: &Vec<Option<Pixel>>) -> (r: Vec<Segment>)
    ensures
        r@ == ring(points@),
{
    let mut r: Vec<Segment> = Vec::new();
    if points.len() > 0 {
        push_chain(&mut r, points, 0, points.len(), true);
        assert(points@.subrange(0, points@.len() as int) =~= points@);
    }
    assert(r@ =~= ring(points@));
    r
}

/// The lines of an open preview.
pub fn path_segments(points: &Vec<Option<Pixel>>) -> (r: Vec<Segment>)
    ensures
        r@ == path(points@),
{
    let mut r: Vec<Segment> = Vec::new();
    if points.len() > 0 {
        push_chain(&mut r, points, 0, points.len(), false);
        assert(points@.subrange(0, points@.len() as int) =~= points@);
    }
    assert(r@ =~= path(points@));
    r
}

/// The lines of a preview made of several chains.
pub fn chain_segments(points: &Vec<Option<Pixel>>, ranges: &Vec<(usize, usize, bool)>) -> (r: Vec<Segment>)
    ensures
        r@ == chains(points@, ranges@),
{
    let mut r: Vec<Segment> = Vec::new();
    let mut i: usize = 0;
    assert(ranges@.take(0) =~= Seq::empty());
    while i < ranges.len()
        invariant
            i <= ranges@.len(),
            r@ == chains(points@, ranges@.take(i as int)),
        decreases ranges@.len() - i,
    {
        let (start, end, closed) = ranges[i];
        assert(ranges@.take(i + 1).drop_last() =~= ranges@.take(i as int));
        let ghost before = r@;
        if start < end && end <= points.len() {
            push_chain(&mut r, points, start, end, closed);
        }
        assert(r@ =~= before + chain(points@, ranges@[i as int]));
        i = i + 1;
    }
    assert(ranges@.take(i as int) =~= ranges@);
    r
}

/// The guides from source vertices to where they would go.
pub fn guide_segments(sources: &Vec<Option<Pixel>>, targets: &Vec<Option<Pixel>>) -> (r: Vec<Segment>)
    ensures
        r@ == links(sources@, targets@, smaller(sources@.len(), targets@.len())),
{
    let mut r: Vec<Segment> = Vec::new();
    let mut i: usize = 0;
    while i < sources.len() && i < targets.len()
        invariant
            i <= sources@.len(),
            i <= targets@.len(),
            r@ == links(sources@, targets@, i as nat),
        decreases sources@.len() - i,
    {
        push_joined(&mut r, sources[i], targets[i]);
        i = i + 1;
    }
    r
}

/// The visible vertices, in order.
pub fn visible_points(points: &Vec<Option<Pixel>>) -> (r: Vec<Pixel>)
    ensures
        r@ == visible(points@),
{
    let mut r: Vec<Pixel> = Vec::new();
    let mut i: usize = 0;
    assert(points@.take(0) =~= Seq::empty());
    while i < points.len()
        invariant
            i <= points@.len(),
            r@ == visible(points@.take(i as int)),
        decreases points@.len() - i,
    {
        assert(points@.take(i + 1).drop_last() =~= points@.take(i as int));
        if let Some(point) = points[i] {
            r.push(point);
        }
        i = i + 1;
    }
    assert(points@.take(i as int) =~= points@);
    r
}

/// Where a picked vertex stands on screen.
pub fn vertex_marker(points: &Vec<Option<Pixel>>, picked: Option<usize>) -> (r: Option<Pixel>)
    ensures
        r == marker(points@, picked),
{
    if let Some(index) = picked {
        if index < points.len() {
            return points[index];
        }
    }
    None
}

/// Where the two picked vertices stand on screen, first one first.
pub fn pair_markers(points: &Vec<Option<Pixel>>, picked: PickedPair) -> (r: Vec<Pixel>)
    ensures
        r@ == visible(seq![marker(points@, picked.first), marker(points@, picked.second)]),
{
    let first = vertex_marker(points, picked.first);
    let second = vertex_marker(points, picked.second);
    let mut both: Vec<Option<Pixel>> = Vec::new();
    both.push(first);
    both.push(second);
    assert(both@ =~= seq![marker(points@, picked.first), marker(points@, picked.second)]);
    visible_points(&both)
}

/// The lines between pairs of points, where both of a pair are visible.
pub open spec fn pairs(list: Seq<(Option<Pixel>, Option<Pixel>)>) -> Seq<Segment>
    decreases list.len(),
{
    if list.len() == 0 {
        Seq::empty()
    } else {
        pairs(list.drop_last()) + joined(list.last().0, list.last().1)
    }
}

/// The lines that mark contributing breaklines.
pub fn pair_segments(list: &Vec<(Option<Pixel>, Option<Pixel>)>) -> (r: Vec<Segment>)
    ensures
        r@ == pairs(list@),
{
    let mut r: Vec<Segment> = Vec::new();
    let mut i: usize = 0;
    assert(list@.take(0) =~= Seq::empty());
    while i < list.len()
        invariant
            i <= list@.len(),
            r@ == pairs(list@.take(i as int)),
        decreases list@.len() - i,
    {
        let (a, b) = list[i];
        assert(list@.take(i + 1).drop_last() =~= list@.take(i as int));
        push_joined(&mut r, a, b);
        i = i + 1;
    }
    assert(list@.take(i as int) =~= list@);
    r
}

/// The line from a picked vertex to its control point.
pub fn tangent(points: &Vec<Option<Pixel>>, picked: Option<usize>, control: Pixel) -> (r: Option<Segment>)
    ensures
        r == (match marker(points@, picked) {
            Some(from) => Some(Segment { from, to: control }),
            None => None,
        }),
{
    match vertex_marker(points, picked) {
        Some(from) => Some(Segment { from, to: control }),
        None => None,
    }
}

/// The line from a vertex of a chain to its neighbour.
pub open spec fn is_line_at(points: Seq<Option<Pixel>>, place: int, next: int, line: Segment) -> bool {
    &&& 0 <= place < points.len()
    &&& 0 <= next < points.len()
    &&& points[place] == Some(line.from)
    &&& points[next] == Some(line.to)
}

/// A vertex follows another in a ring.
pub open spec fn follows_in_ring(points: Seq<Option<Pixel>>, place: int) -> int {
    (place + 1) % (points.len() as int)
}

/// A closed preview holds a line exactly for each visible neighbouring pair.
pub proof fn ring_joins_neighbours(points: Seq<Option<Pixel>>, line: Segment)
    ensures
        ring(points).contains(line) <==> exists|place: int| #[trigger]
            is_line_at(points, place, follows_in_ring(points, place), line),
{
    lemma_ring_part(points, points.len(), line);
}

proof fn lemma_ring_part(points: Seq<Option<Pixel>>, count: nat, line: Segment)
    requires
        count <= points.len(),
    ensures
        ring_part(points, count).contains(line) <==> exists|place: int|
            place < count && #[trigger] is_line_at(points, place, follows_in_ring(points, place), line),
    decreases count,
{
    if count > 0 {
        let rest = ring_part(points, (count - 1) as nat);
        let last = joined(points[count - 1], points[count as int % points.len() as int]);
        lemma_ring_part(points, (count - 1) as nat, line);
        lemma_contains_sum(rest, last, line);
        lemma_joined(points[count - 1], points[count as int % points.len() as int], line);
        assert(follows_in_ring(points, count - 1) == count as int % points.len() as int);
        assert(last.contains(line) <==> is_line_at(points, count - 1, follows_in_ring(points, count - 1), line));
    }
}

/// An open preview holds a line exactly for each visible neighbouring pair.
pub proof fn path_joins_neighbours(points: Seq<Option<Pixel>>, line: Segment)
    ensures
        path(points).contains(line) <==> exists|place: int| #[trigger] is_line_at(points, place, place + 1, line),
{
    if points.len() > 0 {
        lemma_path_part(points, (points.len() - 1) as nat, line);
    }
}

proof fn lemma_path_part(points: Seq<Option<Pixel>>, count: nat, line: Segment)
    requires
        count < points.len(),
    ensures
        path_part(points, count).contains(line) <==> exists|place: int|
            place < count && #[trigger] is_line_at(points, place, place + 1, line),
    decreases count,
{
    if count > 0 {
        let rest = path_part(points, (count - 1) as nat);
        let last = joined(points[count - 1], points[count as int]);
        lemma_path_part(points, (count - 1) as nat, line);
        lemma_contains_sum(rest, last, line);
        lemma_joined(points[count - 1], points[count as int], line);
        assert(last.contains(line) <==> is_line_at(points, count - 1, (count - 1) + 1, line));
    }
}

proof fn lemma_joined(a: Option<Pixel>, b: Option<Pixel>, line: Segment)
    ensures
        joined(a, b).contains(line) <==> a == Some(line.from) && b == Some(line.to),
{
    if a == Some(line.from) && b == Some(line.to) {
        assert(joined(a, b)[0] == line);
    }
}

proof fn lemma_contains_sum(a: Seq<Segment>, b: Seq<Segment>, line: Segment)
    ensures
        (a + b).contains(line) <==> a.contains(line) || b.contains(line),
{
    if a.contains(line) {
        let k = choose|k: int| 0 <= k < a.len() && a[k] == line;
        assert((a + b)[k] == line);
    }
    if b.contains(line) {
        let k = choose|k: int| 0 <= k < b.len() && b[k] == line;
        assert((a + b)[a.len() + k] == line);
    }
}

/// Where every vertex is visible, an open preview has the line from each vertex to the next
/// in order, and a closed one also the line from the last back to the first.
pub proof fn visible_chains_are_drawn_whole(points: Seq<Option<Pixel>>, place: int)
    requires
        forall|i: int| 0 <= i < points.len() ==> #[trigger] points[i] is Some,
        points.len() > 0,
    ensures
        path(points).len() == points.len() - 1,
        0 <= place < points.len() - 1 ==> path(points)[place] == (Segment { from: points[place]->0, to: points[place + 1]->0 }),
        ring(points).len() == points.len(),
        0 <= place < points.len() ==> ring(points)[place] == (Segment {
            from: points[place]->0,
            to: points[(place + 1) % (points.len() as int)]->0,
        }),
{
    lemma_whole_path(points, (points.len() - 1) as nat, place);
    lemma_whole_ring(points, points.len(), place);
}

proof fn lemma_whole_path(points: Seq<Option<Pixel>>, count: nat, place: int)
    requires
        forall|i: int| 0 <= i < points.len() ==> #[trigger] points[i] is Some,
        count < points.len(),
    ensures
        path_part(points, count).len() == count,
        0 <= place < count ==> path_part(points, count)[place] == (Segment { from: points[place]->0, to: points[place + 1]->0 }),
    decreases count,
{
    if count > 0 {
        lemma_whole_path(points, (count - 1) as nat, place);
        assert(points[count - 1] is Some && points[count as int] is Some);
    }
}

proof fn lemma_whole_ring(points: Seq<Option<Pixel>>, count: nat, place: int)
    requires
        forall|i: int| 0 <= i < points.len() ==> #[trigger] points[i] is Some,
        count <= points.len(),
        points.len() > 0,
    ensures
        ring_part(points, count).len() == count,
        0 <= place < count ==> ring_part(points, count)[place] == (Segment {
            from: points[place]->0,
            to: points[(place + 1) % (points.len() as int)]->0,
        }),
    decreases count,
{
    if count > 0 {
        lemma_whole_ring(points, (count - 1) as nat, place);
        let next = count as int % points.len() as int;
        assert(0 <= next < points.len()) by {
            vstd::arithmetic::div_mod::lemma_mod_bound(count as int, points.len() as int);
        }
        assert(points[count - 1] is Some && points[next] is Some);
    }
}

/// A clipped vertex parts an open preview in two: the lines before it and the lines after it,
/// and none across.
pub proof fn clipped_vertices_part_the_path(before: Seq<Option<Pixel>>, after: Seq<Option<Pixel>>)
    ensures
        path(before.push(None) + after) == path(before) + path(after),
{
    let points = before.push(None) + after;
    lemma_path_prefix(before, points, if before.len() == 0 { 0nat } else { (before.len() - 1) as nat });
    if before.len() > 0 {
        lemma_path_gap(before, after, before.len());
    } else {
        assert(path(before) =~= Seq::<Segment>::empty());
    }
    lemma_path_after_gap(before, after, after.len());
}

proof fn lemma_path_prefix(before: Seq<Option<Pixel>>, points: Seq<Option<Pixel>>, count: nat)
    requires
        count < before.len() || count == 0,
        before.len() <= points.len(),
        forall|i: int| 0 <= i < before.len() ==> before[i] == #[trigger] points[i],
    ensures
        path_part(points, count) == path_part(before, count),
    decreases count,
{
    if count > 0 {
        lemma_path_prefix(before, points, (count - 1) as nat);
        assert(before[count - 1] == points[count - 1] && before[count as int] == points[count as int]);
    }
}

proof fn lemma_path_gap(before: Seq<Option<Pixel>>, after: Seq<Option<Pixel>>, count: nat)
    requires
        count == before.len(),
        before.len() > 0,
    ensures
        path_part(before.push(None) + after, count) == path(before),
{
    let points = before.push(None) + after;
    lemma_path_prefix(before, points, (before.len() - 1) as nat);
    assert(points[count as int] is None);
    assert(path_part(points, count) =~= path_part(points, (count - 1) as nat));
}

proof fn lemma_path_after_gap(before: Seq<Option<Pixel>>, after: Seq<Option<Pixel>>, count: nat)
    requires
        count <= after.len(),
    ensures
        ({
            let points = before.push(None) + after;
            let lines = if count == 0 { Seq::<Segment>::empty() } else { path_part(after, (count - 1) as nat) };
            path_part(points, (before.len() + count) as nat) == path(before) + lines
        }),
    decreases count,
{
    let points = before.push(None) + after;
    if count == 0 {
        if before.len() > 0 {
            lemma_path_gap(before, after, before.len());
        }
        assert(path_part(points, before.len()) =~= path(before) + Seq::<Segment>::empty());
    } else {
        lemma_path_after_gap(before, after, (count - 1) as nat);
        let k = (before.len() + count) as nat;
        assert(points[k as int] == after[count - 1]);
        if count == 1 {
            assert(points[k - 1] is None);
            assert(path_part(points, k) =~= path_part(points, (k - 1) as nat));
        } else {
            assert(points[k - 1] == after[count - 2]);
            assert(path_part(points, k) =~= path(before) + path_part(after, (count - 1) as nat));
        }
    }
}

/// Several chains are drawn one after the other, each as it would be by itself.
pub proof fn chains_are_drawn_one_by_one(
    points: Seq<Option<Pixel>>,
    first: Seq<(usize, usize, bool)>,
    second: Seq<(usize, usize, bool)>,
    range: (usize, usize, bool),
)
    ensures
        chains(points, first + second) == chains(points, first) + chains(points, second),
        chains(points, seq![range]) == chain(points, range),
        range.0 < range.1 <= points.len() ==> chain(points, range) == (if range.2 {
            ring(points.subrange(range.0 as int, range.1 as int))
        } else {
            path(points.subrange(range.0 as int, range.1 as int))
        }),
        !(range.0 < range.1 <= points.len()) ==> chain(points, range).len() == 0,
    decreases second.len(),
{
    let one = seq![range];
    assert(one.drop_last() =~= Seq::<(usize, usize, bool)>::empty());
    assert(chains(points, one.drop_last()) =~= Seq::<Segment>::empty());
    assert(chains(points, one) =~= chain(points, range));
    if second.len() == 0 {
        assert(first + second =~= first);
        assert(chains(points, first) + chains(points, second) =~= chains(points, first));
    } else {
        chains_are_drawn_one_by_one(points, first, second.drop_last(), range);
        assert((first + second).drop_last() =~= first + second.drop_last());
        assert(chains(points, first + second) =~= chains(points, first) + chains(points, second));
    }
}

/// A guide is drawn from a source to the target at the same place, exactly where both are
/// visible.
pub proof fn guides_join_the_same_place(sources: Seq<Option<Pixel>>, targets: Seq<Option<Pixel>>, count: nat, line: Segment)
    requires
        count <= sources.len(),
        count <= targets.len(),
    ensures
        links(sources, targets, count).contains(line) <==> exists|place: int|
            0 <= place < count && #[trigger] sources[place] == Some(line.from) && targets[place] == Some(line.to),
        smaller(sources.len(), targets.len()) <= sources.len(),
        smaller(sources.len(), targets.len()) <= targets.len(),
        smaller(sources.len(), targets.len()) == sources.len() || smaller(sources.len(), targets.len()) == targets.len(),
    decreases count,
{
    if count > 0 {
        guides_join_the_same_place(sources, targets, (count - 1) as nat, line);
        lemma_contains_sum(links(sources, targets, (count - 1) as nat), joined(sources[count - 1], targets[count - 1]), line);
        lemma_joined(sources[count - 1], targets[count - 1], line);
    }
}

/// The visible points of a list are those of it that are visible, in its order.
pub proof fn visible_points_keep_their_order(first: Seq<Option<Pixel>>, second: Seq<Option<Pixel>>, point: Pixel)
    ensures
        visible(first + second) == visible(first) + visible(second),
        visible(seq![Some(point)]) == seq![point],
        visible(seq![None]) == Seq::<Pixel>::empty(),
    decreases second.len(),
{
    let shown = seq![Some(point)];
    let hidden: Seq<Option<Pixel>> = seq![None];
    assert(shown.drop_last() =~= Seq::<Option<Pixel>>::empty());
    assert(hidden.drop_last() =~= Seq::<Option<Pixel>>::empty());
    assert(visible(shown.drop_last()) =~= Seq::<Pixel>::empty());
    assert(visible(shown) =~= seq![point]);
    assert(visible(hidden) =~= Seq::<Pixel>::empty());
    if second.len() == 0 {
        assert(first + second =~= first);
        assert(visible(first) + visible(second) =~= visible(first));
    } else {
        visible_points_keep_their_order(first, second.drop_last(), point);
        assert((first + second).drop_last() =~= first + second.drop_last());
        assert(visible(first + second) =~= visible(first) + visible(second));
    }
}

/// A marker stands on the picked vertex, while there is one and it shows.
pub proof fn markers_stand_on_the_pick(points: Seq<Option<Pixel>>, picked: usize)
    ensures
        picked < points.len() ==> marker(points, Some(picked)) == points[picked as int],
        picked >= points.len() ==> marker(points, Some(picked)) is None,
        marker(points, None) is None,
{
}

/// Pairs are joined one by one, in their order.
pub proof fn pairs_are_joined_one_by_one(
    first: Seq<(Option<Pixel>, Option<Pixel>)>,
    second: Seq<(Option<Pixel>, Option<Pixel>)>,
    a: Option<Pixel>,
    b: Option<Pixel>,
)
    ensures
        pairs(first + second) == pairs(first) + pairs(second),
        a is Some && b is Some ==> pairs(seq![(a, b)]) == seq![Segment { from: a->0, to: b->0 }],
        a is None || b is None ==> pairs(seq![(a, b)]).len() == 0,
    decreases second.len(),
{
    let one = seq![(a, b)];
    assert(one.drop_last() =~= Seq::<(Option<Pixel>, Option<Pixel>)>::empty());
    assert(pairs(one.drop_last()) =~= Seq::<Segment>::empty());
    assert(pairs(one) =~= joined(a, b));
    if second.len() == 0 {
        assert(first + second =~= first);
        assert(pairs(first) + pairs(second) =~= pairs(first));
    } else {
        pairs_are_joined_one_by_one(first, second.drop_last(), a, b);
        assert((first + second).drop_last() =~= first + second.drop_last());
        assert(pairs(first + second) =~= pairs(first) + pairs(second));
    }
}

} // verus!
