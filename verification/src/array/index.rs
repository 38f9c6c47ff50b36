//! Where the elements of an array stand, by their indices.

use vstd::prelude::*;

use vstd::arithmetic::div_mod::lemma_fundamental_div_mod;
use vstd::arithmetic::div_mod::lemma_fundamental_div_mod_converse;

verus! {

/// The number of elements of an array with the given axis lengths.
pub open spec fn element_count(shape: Seq<usize>) -> nat
    decreases shape.len(),
{
    if shape.len() == 0 {
        1
    } else {
        element_count(shape.drop_last()) * shape.last() as nat
    }
}

/// `index` names an element of an array with the given axis lengths: it has one
/// position on each axis, none beyond the axis.
pub open spec fn valid_index(shape: Seq<usize>, index: Seq<usize>) -> bool {
    &&& index.len() == shape.len()
    &&& forall|k: int| 0 <= k < shape.len() ==> #[trigger] index[k] < shape[k]
}

/// How many elements come before the one at `index` in logical order, in which the
/// last position varies the fastest.
pub open spec fn logical_position(shape: Seq<usize>, index: Seq<usize>) -> int
    decreases shape.len(),
{
    if shape.len() == 0 {
        0
    } else {
        logical_position(shape.drop_last(), index.drop_last()) * shape.last() + index.last()
    }
}

/// Strides as integers.
pub open spec fn stride_values(strides: Seq<isize>) -> Seq<int> {
    strides.map_values(|stride: isize| stride as int)
}

/// The distance, in elements, from the first element of an array to the one at
/// `index`.
pub open spec fn element_offset(strides: Seq<int>, index: Seq<usize>) -> int
    decreases strides.len(),
{
    if strides.len() == 0 {
        0
    } else {
        element_offset(strides.drop_last(), index.drop_last()) + strides.last() * index.last()
    }
}

/// The elements of an array with this layout stand in memory in logical order and
/// without gaps. The stride of an axis with a single position plays no part.
pub open spec fn is_row_major(shape: Seq<usize>, strides: Seq<int>) -> bool {
    element_count(shape) == 0 || forall|k: int|
        0 <= k < shape.len() && shape[k] != 1 ==> #[trigger] strides[k] == element_count(
            shape.skip(k + 1),
        )
}

/// The position of an element in logical order is below the number of elements.
pub proof fn positions_are_in_range(shape: Seq<usize>, index: Seq<usize>)
    requires
        valid_index(shape, index),
    ensures
        0 <= logical_position(shape, index) < element_count(shape),
    decreases shape.len(),
{
    if shape.len() > 0 {
        let outer = shape.drop_last();
        assert(valid_index(outer, index.drop_last()));
        positions_are_in_range(outer, index.drop_last());
        let position = logical_position(outer, index.drop_last());
        let count = element_count(outer);
        let length = shape.last() as int;
        let last = index.last() as int;
        assert(0 <= position * length + last < count * length) by (nonlinear_arith)
            requires
                0 <= position < count,
                0 <= last < length,
        ;
    }
}

/// Elements at different indices have different positions in logical order.
pub proof fn positions_are_distinct(shape: Seq<usize>, a: Seq<usize>, b: Seq<usize>)
    requires
        valid_index(shape, a),
        valid_index(shape, b),
        logical_position(shape, a) == logical_position(shape, b),
    ensures
        a == b,
    decreases shape.len(),
{
    if shape.len() > 0 {
        let outer = shape.drop_last();
        let length = shape.last() as int;
        let position = logical_position(shape, a);
        assert(valid_index(outer, a.drop_last()));
        assert(valid_index(outer, b.drop_last()));
        lemma_fundamental_div_mod_converse(
            position,
            length,
            logical_position(outer, a.drop_last()),
            a.last() as int,
        );
        lemma_fundamental_div_mod_converse(
            position,
            length,
            logical_position(outer, b.drop_last()),
            b.last() as int,
        );
        positions_are_distinct(outer, a.drop_last(), b.drop_last());
        assert(a == a.drop_last().push(a.last()));
        assert(b == b.drop_last().push(b.last()));
    }
    assert(a == b);
}

/// Every position in logical order that is below the number of elements is that
/// of an element.
pub proof fn positions_are_taken(shape: Seq<usize>, position: int) -> (index: Seq<usize>)
    requires
        0 <= position < element_count(shape),
    ensures
        valid_index(shape, index),
        logical_position(shape, index) == position,
    decreases shape.len(),
{
    if shape.len() == 0 {
        Seq::empty()
    } else {
        let outer = shape.drop_last();
        let count = element_count(outer) as int;
        let length = shape.last() as int;
        assert(length > 0) by (nonlinear_arith)
            requires
                0 < count * length,
                0 <= count,
        ;
        let rest = position / length;
        let last = position % length;
        lemma_fundamental_div_mod(position, length);
        assert(0 <= rest < count && 0 <= last < length) by (nonlinear_arith)
            requires
                rest == position / length,
                last == position % length,
                position == length * rest + last,
                0 <= position < count * length,
                0 < length,
        ;
        let inner = positions_are_taken(outer, rest);
        let index = inner.push(last as usize);
        assert(index.drop_last() == inner);
        assert(rest * length == length * rest) by (nonlinear_arith);
        assert forall|k: int| 0 <= k < shape.len() implies #[trigger] index[k] < shape[k] by {
            if k < outer.len() {
                assert(inner[k] < outer[k]);
            }
        }
        index
    }
}

/// From any axis on, the number of elements is that on the other axes times the
/// length of the last axis.
proof fn count_of_the_rest(shape: Seq<usize>, k: int)
    requires
        0 <= k < shape.len(),
    ensures
        element_count(shape.skip(k)) == element_count(shape.drop_last().skip(k))
            * shape.last() as nat,
{
    assert(shape.skip(k).drop_last() == shape.drop_last().skip(k));
    assert(shape.skip(k).last() == shape.last());
}

/// Strides that are `unit` times those of the logical order lead to `unit` times
/// the position in that order.
proof fn scaled_offset(shape: Seq<usize>, strides: Seq<int>, index: Seq<usize>, unit: int)
    requires
        strides.len() == shape.len(),
        valid_index(shape, index),
        forall|k: int|
            0 <= k < shape.len() && shape[k] != 1 ==> #[trigger] strides[k] == element_count(
                shape.skip(k + 1),
            ) * unit,
    ensures
        element_offset(strides, index) == logical_position(shape, index) * unit,
    decreases shape.len(),
{
    if shape.len() > 0 {
        let outer = shape.drop_last();
        let length = shape.last() as int;
        let last = index.last() as int;
        let n = shape.len() - 1;
        assert forall|k: int| 0 <= k < outer.len() && outer[k] != 1 implies #[trigger]
        strides.drop_last()[k] == element_count(outer.skip(k + 1)) * (length * unit) by {
            assert(strides[k] == element_count(shape.skip(k + 1)) * unit);
            count_of_the_rest(shape, k + 1);
            let count = element_count(outer.skip(k + 1)) as int;
            assert((count * length) * unit == count * (length * unit)) by (nonlinear_arith);
        }
        assert(valid_index(outer, index.drop_last()));
        scaled_offset(outer, strides.drop_last(), index.drop_last(), length * unit);
        let position = logical_position(outer, index.drop_last());
        assert(index[n] < shape[n]);
        assert(strides.last() * last == unit * last) by {
            if length != 1 {
                assert(strides[n] == element_count(shape.skip(n + 1)) * unit);
                assert(shape.skip(n + 1).len() == 0);
                assert(strides.last() == 1 * unit);
            } else {
                assert(last == 0);
                assert(strides.last() * 0 == unit * 0);
            }
        }
        assert(position * (length * unit) + unit * last == (position * length + last) * unit)
            by (nonlinear_arith);
    } else {
        assert(0 * unit == 0);
    }
}

/// Where elements stand in memory in logical order and without gaps, the strides
/// lead to the element at an index as its position in that order does.
pub proof fn row_major_offset(shape: Seq<usize>, strides: Seq<int>, index: Seq<usize>)
    requires
        strides.len() == shape.len(),
        is_row_major(shape, strides),
        valid_index(shape, index),
    ensures
        element_offset(strides, index) == logical_position(shape, index),
{
    positions_are_in_range(shape, index);
    scaled_offset(shape, strides, index, 1);
}

/// The first element stands at the start, in memory and in logical order.
pub proof fn first_element_is_at_the_start(shape: Seq<usize>, strides: Seq<int>, index: Seq<usize>)
    requires
        index.len() == shape.len(),
        strides.len() == shape.len(),
        forall|k: int| 0 <= k < index.len() ==> #[trigger] index[k] == 0,
    ensures
        element_offset(strides, index) == 0,
        logical_position(shape, index) == 0,
    decreases shape.len(),
{
    if shape.len() > 0 {
        first_element_is_at_the_start(shape.drop_last(), strides.drop_last(), index.drop_last());
        assert(index[index.len() - 1] == 0);
        assert(strides.last() * 0 == 0);
        assert(0 * shape.last() == 0);
    }
}

/// One step along an axis leads one stride further in memory, and past as many
/// elements in logical order as the axes after it have together.
pub proof fn step_along_an_axis(
    shape: Seq<usize>,
    strides: Seq<int>,
    index: Seq<usize>,
    k: int,
    next: usize,
)
    requires
        index.len() == shape.len(),
        strides.len() == shape.len(),
        0 <= k < index.len(),
        next == index[k] + 1,
    ensures
        element_offset(strides, index.update(k, next)) == element_offset(strides, index)
            + strides[k],
        logical_position(shape, index.update(k, next)) == logical_position(shape, index)
            + element_count(shape.skip(k + 1)),
    decreases shape.len(),
{
    let outer = shape.drop_last();
    let length = shape.last() as int;
    let before = logical_position(outer, index.drop_last());
    if k == index.len() - 1 {
        assert(index.update(k, next).drop_last() == index.drop_last());
        assert(shape.skip(k + 1).len() == 0);
        let stride = strides.last();
        let last = index.last() as int;
        assert(stride * (last + 1) == stride * last + stride) by (nonlinear_arith);
    } else {
        assert(index.update(k, next).drop_last() == index.drop_last().update(k, next));
        step_along_an_axis(outer, strides.drop_last(), index.drop_last(), k, next);
        count_of_the_rest(shape, k + 1);
        let rest = element_count(outer.skip(k + 1)) as int;
        assert((before + rest) * length == before * length + rest * length) by (nonlinear_arith);
    }
}

/// An array that has elements has none of its axes empty.
proof fn axes_have_positions(shape: Seq<usize>, k: int)
    requires
        element_count(shape) > 0,
        0 <= k < shape.len(),
    ensures
        shape[k] > 0,
    decreases shape.len(),
{
    let outer = element_count(shape.drop_last()) as int;
    let length = shape.last() as int;
    assert(outer > 0 && length > 0) by (nonlinear_arith)
        requires
            outer * length > 0,
            outer >= 0,
            length >= 0,
    ;
    if k < shape.len() - 1 {
        axes_have_positions(shape.drop_last(), k);
        assert(shape.drop_last()[k] == shape[k]);
    }
}

/// A layout is row-major exactly where its strides lead to every element by its
/// position in logical order.
pub proof fn row_major_is_logical_order(shape: Seq<usize>, strides: Seq<int>)
    requires
        strides.len() == shape.len(),
    ensures
        is_row_major(shape, strides) <==> forall|index: Seq<usize>|
            valid_index(shape, index) ==> #[trigger] element_offset(strides, index)
                == logical_position(shape, index),
{
    if is_row_major(shape, strides) {
        assert forall|index: Seq<usize>|
            valid_index(shape, index) implies #[trigger] element_offset(strides, index)
            == logical_position(shape, index) by {
            row_major_offset(shape, strides, index);
        }
    }
    if element_count(shape) > 0 && (forall|index: Seq<usize>|
        valid_index(shape, index) ==> #[trigger] element_offset(strides, index)
            == logical_position(shape, index)) {
        let first = Seq::new(shape.len(), |k: int| 0usize);
        first_element_is_at_the_start(shape, strides, first);
        assert forall|k: int| 0 <= k < shape.len() && shape[k] != 1 implies #[trigger] strides[k]
            == element_count(shape.skip(k + 1)) by {
            let neighbour = first.update(k, 1);
            assert forall|j: int| 0 <= j < shape.len() implies #[trigger] neighbour[j]
                < shape[j] by {
                axes_have_positions(shape, j);
            }
            step_along_an_axis(shape, strides, first, k, 1);
            assert(valid_index(shape, neighbour));
        }
    }
}

/// An array with one more axis has as many times the elements as that axis has
/// positions, and a single element where it has no axis.
pub proof fn axes_multiply_the_elements(shape: Seq<usize>, length: usize)
    ensures
        element_count(Seq::empty()) == 1,
        element_count(shape.push(length)) == element_count(shape) * length,
{
    assert(shape.push(length).drop_last() == shape);
}

} // verus!
