//! Dragging rows in the sidebar.

use vstd::prelude::*;

verus! {

/// An edge of a group of rows, as the pointer sees it.
#[derive(Clone, Copy, PartialEq, Eq, Structural, Debug)]
pub struct SidebarBoundary {
    /// The edge is near enough to what the sidebar shows.
    pub in_reach: bool,
    /// Bits of the distance to the pointer; a larger distance has larger bits.
    pub distance: u32,
    /// The pointer is near enough to drop there.
    pub droppable: bool,
}

/// The edge nearest to the pointer; the first of several.
pub open spec fn is_nearest(boundaries: Seq<SidebarBoundary>, index: int) -> bool {
    &&& 0 <= index < boundaries.len()
    &&& boundaries[index].in_reach
    &&& forall|i: int|
        0 <= i < boundaries.len() && (#[trigger] boundaries[i]).in_reach
            ==> boundaries[index].distance <= boundaries[i].distance
    &&& forall|i: int|
        0 <= i < index && (#[trigger] boundaries[i]).in_reach ==> boundaries[index].distance
            < boundaries[i].distance
}

/// The edge is the nearest one, and the pointer is near enough to it.
pub open spec fn takes_the_drop(boundaries: Seq<SidebarBoundary>, index: int) -> bool {
    is_nearest(boundaries, index) && boundaries[index].droppable
}

/// The edge at which a group would be dropped, if the pointer is inside the
/// sidebar.
pub open spec fn drop_boundary(pointer_inside: bool, boundaries: Seq<SidebarBoundary>) -> Option<
    int,
> {
    if pointer_inside && exists|index: int| takes_the_drop(boundaries, index) {
        Some(choose|index: int| takes_the_drop(boundaries, index))
    } else {
        None
    }
}

/// The edge at which a dragged group would be dropped: the nearest one, if the
/// pointer is inside the sidebar and near enough to it.
pub fn sidebar_drop_boundary(pointer_inside: bool, boundaries: &Vec<SidebarBoundary>) -> (boundary:
    Option<usize>)
    ensures
        match boundary {
            Some(index) => pointer_inside && takes_the_drop(boundaries@, index as int)
                && drop_boundary(pointer_inside, boundaries@) == Some(index as int),
            None => drop_boundary(pointer_inside, boundaries@) is None,
        },
{
    let found = find_drop_boundary(pointer_inside, boundaries);
    proof {
        if let Some(index) = found {
            assert(takes_the_drop(boundaries@, index as int));
            let chosen = choose|index: int| takes_the_drop(boundaries@, index);
            law_nearest_is_unique(boundaries@, index as int, chosen);
        }
    }
    found
}

fn find_drop_boundary(pointer_inside: bool, boundaries: &Vec<SidebarBoundary>) -> (boundary:
    Option<usize>)
    ensures
        match boundary {
            Some(index) => pointer_inside && is_nearest(boundaries@, index as int)
                && boundaries@[index as int].droppable,
            None => !pointer_inside || forall|index: int| #[trigger]
                is_nearest(boundaries@, index) ==> !boundaries@[index].droppable,
        },
{
    if !pointer_inside {
        return None;
    }
    let mut nearest: Option<usize> = None;
    let mut i: usize = 0;
    while i < boundaries.len()
        invariant
            i <= boundaries.len(),
            match nearest {
                Some(index) => index < i && is_nearest(boundaries@.take(i as int), index as int),
                None => forall|j: int|
                    0 <= j < i ==> !(#[trigger] boundaries@[j]).in_reach,
            },
        decreases boundaries.len() - i,
    {
        let candidate = boundaries[i];
        let ghost seen = boundaries@.take(i as int);
        let ghost more = boundaries@.take(i + 1);
        assert(forall|j: int| 0 <= j < i ==> #[trigger] more[j] == seen[j]);
        assert(more[i as int] == candidate);
        if candidate.in_reach {
            let closer: bool = match nearest {
                Some(index) => candidate.distance < boundaries[index].distance,
                None => true,
            };
            if closer {
                proof {
                    assert forall|j: int| 0 <= j < i && (#[trigger] more[j]).in_reach implies more[
                    i as int].distance < more[j].distance by {
                        if let Some(index) = nearest {
                            assert(seen[j].in_reach);
                            assert(seen[index as int].distance <= seen[j].distance);
                        } else {
                            assert(!boundaries@[j].in_reach);
                        }
                    }
                }
                nearest = Some(i);
                assert(is_nearest(more, i as int));
            } else {
                proof {
                    let index = nearest->0 as int;
                    assert forall|j: int| 0 <= j < more.len() && (
                    #[trigger] more[j]).in_reach implies more[index].distance
                        <= more[j].distance by {
                        if j < i {
                            assert(seen[j].in_reach);
                        }
                    }
                    assert forall|j: int| 0 <= j < index && (
                    #[trigger] more[j]).in_reach implies more[index].distance
                        < more[j].distance by {
                        assert(seen[j].in_reach);
                    }
                    assert(is_nearest(more, index));
                }
            }
        } else {
            proof {
                if let Some(index) = nearest {
                    let index = index as int;
                    assert forall|j: int| 0 <= j < more.len() && (
                    #[trigger] more[j]).in_reach implies more[index].distance
                        <= more[j].distance by {
                        assert(seen[j].in_reach);
                    }
                    assert forall|j: int| 0 <= j < index && (
                    #[trigger] more[j]).in_reach implies more[index].distance
                        < more[j].distance by {
                        assert(seen[j].in_reach);
                    }
                    assert(is_nearest(more, index));
                }
            }
        }
        i += 1;
    }
    assert(boundaries@.take(i as int) =~= boundaries@);
    match nearest {
        Some(index) => {
            proof {
                assert forall|other: int| #[trigger] is_nearest(boundaries@, other) implies other
                    == index by {
                    law_nearest_is_unique(boundaries@, other, index as int);
                }
            }
            if boundaries[index].droppable {
                Some(index)
            } else {
                None
            }
        },
        None => None,
    }
}

/// There is at most one nearest edge.
pub proof fn law_nearest_is_unique(boundaries: Seq<SidebarBoundary>, first: int, second: int)
    requires
        is_nearest(boundaries, first),
        is_nearest(boundaries, second),
    ensures
        first == second,
{
    if first < second {
        assert(boundaries[first].in_reach);
    } else if second < first {
        assert(boundaries[second].in_reach);
    }
}

/// Where a group ends up that is taken out and put back at an edge. Edges are
/// counted before it is taken out, places afterwards.
pub open spec fn final_index(source: int, boundary: int, count: int) -> int {
    if count <= 0 || source >= count {
        0
    } else {
        let slot = crate::arith::smaller_of(boundary, count);
        if slot <= source {
            slot
        } else {
            slot - 1
        }
    }
}

pub fn sidebar_reorder_final_index(source_index: usize, boundary_index: usize, count: usize) -> (index:
    usize)
    ensures
        index == final_index(source_index as int, boundary_index as int, count as int),
        count > 0 ==> index < count,
{
    if count == 0 || source_index >= count {
        return 0;
    }
    let slot: usize = if boundary_index <= count {
        boundary_index
    } else {
        count
    };
    if slot <= source_index {
        slot
    } else {
        slot - 1
    }
}

/// A sequence with one item moved to another place.
pub open spec fn reordered<T>(items: Seq<T>, source: int, target: int) -> Seq<T> {
    items.remove(source).insert(target, items[source])
}

/// Where the other items go when one is moved.
pub open spec fn place_of_other(other: int, source: int, target: int) -> int {
    let shifted = if other < source {
        other
    } else {
        other - 1
    };
    if shifted < target {
        shifted
    } else {
        shifted + 1
    }
}

/// Dropping a group at an edge puts it between the groups on its two sides:
/// those before the edge stay before it, those after stay after.
pub proof fn law_dropping_keeps_the_edge<T>(
    items: Seq<T>,
    source: int,
    boundary: int,
    other: int,
)
    requires
        0 <= source < items.len(),
        0 <= boundary <= items.len(),
        0 <= other < items.len(),
        other != source,
    ensures
        ({
            let target = final_index(source, boundary, items.len() as int);
            let place = place_of_other(other, source, target);
            let result = reordered(items, source, target);
            &&& 0 <= target < items.len()
            &&& result.len() == items.len()
            &&& result[target] == items[source]
            &&& 0 <= place < items.len()
            &&& result[place] == items[other]
            &&& place < target <==> other < boundary
        }),
{
    let target = final_index(source, boundary, items.len() as int);
    let removed = items.remove(source);
    let result = reordered(items, source, target);
    assert(result.len() == items.len());
    assert(result[target] == items[source]);
    let shifted = if other < source {
        other
    } else {
        other - 1
    };
    assert(removed[shifted] == items[other]);
}

/// Dropping a group at one of its own edges changes nothing.
pub proof fn law_own_edges_change_nothing(source: int, count: int)
    requires
        0 <= source < count,
    ensures
        final_index(source, source, count) == source,
        final_index(source, source + 1, count) == source,
{
}

/// A drop goes to the nearest edge in reach, the upper one of two that are as
/// near, where the pointer is inside and near enough; otherwise nowhere.
pub proof fn law_drops_go_to_the_nearest_edge(
    pointer_inside: bool,
    boundaries: Seq<SidebarBoundary>,
    index: int,
)
    requires
        0 <= index < boundaries.len(),
        boundaries[index].in_reach,
        forall|i: int|
            0 <= i < index && (#[trigger] boundaries[i]).in_reach ==> boundaries[i].distance
                > boundaries[index].distance,
        forall|i: int|
            index < i < boundaries.len() && (#[trigger] boundaries[i]).in_reach
                ==> boundaries[i].distance >= boundaries[index].distance,
    ensures
        pointer_inside && boundaries[index].droppable ==> drop_boundary(pointer_inside, boundaries)
            == Some(index),
        !pointer_inside || !boundaries[index].droppable ==> drop_boundary(
            pointer_inside,
            boundaries,
        ) is None,
{
    assert(is_nearest(boundaries, index));
    if exists|other: int| takes_the_drop(boundaries, other) {
        let other = choose|other: int| takes_the_drop(boundaries, other);
        law_nearest_is_unique(boundaries, index, other);
    }
    if boundaries[index].droppable {
        assert(takes_the_drop(boundaries, index));
    }
}

/// Without an edge in reach nothing is dropped.
pub proof fn law_drops_need_an_edge(pointer_inside: bool, boundaries: Seq<SidebarBoundary>)
    requires
        forall|i: int| 0 <= i < boundaries.len() ==> !(#[trigger] boundaries[i]).in_reach,
    ensures
        drop_boundary(pointer_inside, boundaries) is None,
{
}

} // verus!
