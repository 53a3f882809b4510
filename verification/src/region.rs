//! Copying a rectangle of items inside a buffer that is stored row after row.
//!
//! The character grid and the pixel buffer are both stored this way, and a
//! scroll moves a rectangle inside either. Source and destination may
//! overlap, so the order in which rows and columns are copied is chosen such
//! that no item is overwritten before it has been read.

use vstd::prelude::*;

verus! {

/// The place of the item `(x, y)` in a buffer whose rows hold `width` items.
pub open spec fn offset(width: int, x: int, y: int) -> int {
    y * width + x
}

/// The item `(x, y)` of a buffer whose rows hold `width` items.
pub open spec fn item_at<T>(items: Seq<T>, width: int, x: int, y: int) -> T {
    items[offset(width, x, y)]
}

/// How many rows of a move of `h` rows from row `from_y` to row `to_y` lie
/// inside a buffer of `height` rows, at the source and at the destination.
pub open spec fn rows_moved(height: int, from_y: int, to_y: int, h: int) -> int {
    let lower = if from_y > to_y {
        from_y
    } else {
        to_y
    };
    if lower >= height {
        0
    } else if h <= height - lower {
        h
    } else {
        height - lower
    }
}

/// Whether `w` columns starting at `from_x`, and `w` columns starting at
/// `to_x`, lie inside a row of `width` items.
pub open spec fn columns_fit(width: int, from_x: int, to_x: int, w: int) -> bool {
    from_x + w <= width && to_x + w <= width
}

/// Whether a move writes the item `(x, y)`.
pub open spec fn is_written(
    width: int,
    height: int,
    from_x: int,
    from_y: int,
    to_x: int,
    to_y: int,
    w: int,
    h: int,
    x: int,
    y: int,
) -> bool {
    &&& columns_fit(width, from_x, to_x, w)
    &&& to_x <= x < to_x + w
    &&& to_y <= y < to_y + rows_moved(height, from_y, to_y, h)
}

/// What stands at `(x, y)` once a rectangle of `w` by `h` items has moved
/// from `(from_x, from_y)` to `(to_x, to_y)` in `items`: every written item
/// holds what stood at its source before the move, every other item is left
/// as it was. Rows that lie outside the buffer at either end are not moved,
/// and nothing is moved where the columns do not fit into a row.
pub open spec fn moved_item<T>(
    items: Seq<T>,
    width: int,
    height: int,
    from_x: int,
    from_y: int,
    to_x: int,
    to_y: int,
    w: int,
    h: int,
    x: int,
    y: int,
) -> T {
    if is_written(width, height, from_x, from_y, to_x, to_y, w, h, x, y) {
        item_at(items, width, x - to_x + from_x, y - to_y + from_y)
    } else {
        item_at(items, width, x, y)
    }
}

/// An item inside the buffer has its place inside the buffer's storage.
pub proof fn lemma_offset_in_range(width: int, height: int, x: int, y: int)
    requires
        0 <= x < width,
        0 <= y < height,
    ensures
        0 <= offset(width, x, y) < width * height,
        y * width <= offset(width, x, y) < (y + 1) * width,
{
    assert(0 <= y * width) by (nonlinear_arith)
        requires
            0 <= y,
            0 <= width,
    ;
    assert((y + 1) * width <= height * width) by (nonlinear_arith)
        requires
            y + 1 <= height,
            0 <= width,
    ;
    assert((y + 1) * width == y * width + width) by (nonlinear_arith);
    assert(height * width == width * height) by (nonlinear_arith);
}

/// Items of different rows never share a place.
pub proof fn lemma_rows_apart(width: int, x1: int, y1: int, x2: int, y2: int)
    requires
        0 <= x1 < width,
        0 <= x2 <= width,
        y1 < y2,
    ensures
        offset(width, x1, y1) < offset(width, x2, y2),
{
    assert((y1 + 1) * width <= y2 * width) by (nonlinear_arith)
        requires
            y1 + 1 <= y2,
            0 <= width,
    ;
    assert((y1 + 1) * width == y1 * width + width) by (nonlinear_arith);
}

/// Two items of a buffer share a place only if they are the same item.
pub proof fn lemma_offset_injective(width: int, x1: int, y1: int, x2: int, y2: int)
    requires
        0 <= x1 < width,
        0 <= x2 < width,
        offset(width, x1, y1) == offset(width, x2, y2),
    ensures
        x1 == x2,
        y1 == y2,
{
    if y1 < y2 {
        lemma_rows_apart(width, x1, y1, x2, y2);
    } else if y2 < y1 {
        lemma_rows_apart(width, x2, y2, x1, y1);
    }
}

/// Copies `len` items from `src` to `dst` inside `items`, as if all of them
/// were read before any is written. The ranges may overlap: the copy runs
/// upwards where the destination lies below the source, and downwards where
/// it lies above.
pub fn copy_within<T: Copy>(items: &mut Vec<T>, src: usize, dst: usize, len: usize)
    requires
        src + len <= old(items)@.len(),
        dst + len <= old(items)@.len(),
    ensures
        final(items)@.len() == old(items)@.len(),
        forall|k: int|
            0 <= k < old(items)@.len() ==> #[trigger] final(items)@[k] == if dst <= k < dst + len {
                old(items)@[k - dst + src]
            } else {
                old(items)@[k]
            },
{
    let ghost before = items@;
    let total: usize = items.len();
    if dst <= src {
        let mut i: usize = 0;
        while i < len
            invariant
                i <= len,
                src + len <= before.len(),
                dst + len <= before.len(),
                dst <= src,
                items@.len() == before.len(),
                before.len() == total,
                forall|k: int|
                    0 <= k < before.len() ==> #[trigger] items@[k] == if dst <= k < dst + i {
                        before[k - dst + src]
                    } else {
                        before[k]
                    },
            decreases len - i,
        {
            let item = items[src + i];
            items.set(dst + i, item);
            i = i + 1;
        }
    } else {
        let mut i: usize = len;
        while i > 0
            invariant
                i <= len,
                src + len <= before.len(),
                dst + len <= before.len(),
                src < dst,
                items@.len() == before.len(),
                before.len() == total,
                forall|k: int|
                    0 <= k < before.len() ==> #[trigger] items@[k] == if dst + i <= k < dst + len {
                        before[k - dst + src]
                    } else {
                        before[k]
                    },
            decreases i,
        {
            i = i - 1;
            let item = items[src + i];
            items.set(dst + i, item);
        }
    }
}

/// One row of a move: the buffer after `copy_within` has copied `w` items
/// of the row `sy` to the row `dy`, told item by item.
proof fn lemma_row_copied<T>(
    mid: Seq<T>,
    after: Seq<T>,
    width: int,
    height: int,
    from_x: int,
    sy: int,
    to_x: int,
    dy: int,
    w: int,
)
    requires
        mid.len() == width * height,
        after.len() == mid.len(),
        0 < w,
        0 <= from_x,
        0 <= to_x,
        columns_fit(width, from_x, to_x, w),
        0 <= sy < height,
        0 <= dy < height,
        forall|k: int|
            0 <= k < mid.len() ==> #[trigger] after[k] == if offset(width, to_x, dy) <= k < offset(
                width,
                to_x,
                dy,
            ) + w {
                mid[k - offset(width, to_x, dy) + offset(width, from_x, sy)]
            } else {
                mid[k]
            },
    ensures
        forall|x: int, y: int|
            0 <= x < width && 0 <= y < height ==> #[trigger] item_at(after, width, x, y) == if y
                == dy && to_x <= x < to_x + w {
                item_at(mid, width, x - to_x + from_x, sy)
            } else {
                item_at(mid, width, x, y)
            },
{
    assert forall|x: int, y: int| 0 <= x < width && 0 <= y < height implies #[trigger] item_at(
        after,
        width,
        x,
        y,
    ) == if y == dy && to_x <= x < to_x + w {
        item_at(mid, width, x - to_x + from_x, sy)
    } else {
        item_at(mid, width, x, y)
    } by {
        lemma_offset_in_range(width, height, x, y);
        lemma_offset_in_range(width, height, to_x, dy);
        let k = offset(width, x, y);
        let dst = offset(width, to_x, dy);
        if y < dy {
            lemma_rows_apart(width, x, y, to_x, dy);
        } else if y > dy {
            lemma_rows_apart(width, to_x + w - 1, dy, x, y);
        }
    }
}

/// The buffer after a move: [`moved_item`] at every place.
pub open spec fn moved_items<T>(
    items: Seq<T>,
    width: int,
    height: int,
    from_x: int,
    from_y: int,
    to_x: int,
    to_y: int,
    w: int,
    h: int,
) -> Seq<T> {
    grid_of(
        width,
        height,
        |x: int, y: int|
            moved_item(items, width, height, from_x, from_y, to_x, to_y, w, h, x, y),
    )
}

/// Moves a rectangle of `w` by `h` items from `(from_x, from_y)` to
/// `(to_x, to_y)` inside a buffer of `width` by `height` items, as
/// [`moved_items`] tells.
pub fn move_block<T: Copy>(
    items: &mut Vec<T>,
    width: usize,
    height: usize,
    from_x: usize,
    from_y: usize,
    to_x: usize,
    to_y: usize,
    w: usize,
    h: usize,
)
    requires
        old(items)@.len() == width * height,
    ensures
        final(items)@ == moved_items(
            old(items)@,
            width as int,
            height as int,
            from_x as int,
            from_y as int,
            to_x as int,
            to_y as int,
            w as int,
            h as int,
        ),
        final(items)@.len() == old(items)@.len(),
{
    move_rows(items, width, height, from_x, from_y, to_x, to_y, w, h);
    proof {
        let before = old(items)@;
        let f = |x: int, y: int|
            moved_item(
                before,
                width as int,
                height as int,
                from_x as int,
                from_y as int,
                to_x as int,
                to_y as int,
                w as int,
                h as int,
                x,
                y,
            );
        lemma_is_grid_of(items@, width as int, height as int, f);
    }
}

/// The work of [`move_block`], told item by item. Rows are copied from the
/// top down where the destination lies above the source, and from the bottom
/// up otherwise, so that an overlap of source and destination loses nothing.
fn move_rows<T: Copy>(
    items: &mut Vec<T>,
    width: usize,
    height: usize,
    from_x: usize,
    from_y: usize,
    to_x: usize,
    to_y: usize,
    w: usize,
    h: usize,
)
    requires
        old(items)@.len() == width * height,
    ensures
        final(items)@.len() == old(items)@.len(),
        forall|x: int, y: int|
            0 <= x < width && 0 <= y < height ==> #[trigger] item_at(
                final(items)@,
                width as int,
                x,
                y,
            ) == moved_item(
                old(items)@,
                width as int,
                height as int,
                from_x as int,
                from_y as int,
                to_x as int,
                to_y as int,
                w as int,
                h as int,
                x,
                y,
            ),
{
    if w == 0 || w > width || from_x > width - w || to_x > width - w {
        return ;
    }
    let lower: usize = if from_y > to_y {
        from_y
    } else {
        to_y
    };
    if lower >= height {
        return ;
    }
    let rows: usize = if h <= height - lower {
        h
    } else {
        height - lower
    };
    let ghost before = items@;
    let total: usize = items.len();
    if from_y > to_y {
        let mut j: usize = 0;
        while j < rows
            invariant
                j <= rows,
                rows <= height - from_y,
                to_y < from_y < height,
                0 < w,
                columns_fit(width as int, from_x as int, to_x as int, w as int),
                items@.len() == before.len(),
                before.len() == width * height,
                before.len() == total,
                forall|x: int, y: int|
                    0 <= x < width && 0 <= y < height ==> #[trigger] item_at(
                        items@,
                        width as int,
                        x,
                        y,
                    ) == if to_x <= x < to_x + w && to_y <= y < to_y + j {
                        item_at(before, width as int, x - to_x + from_x, y - to_y + from_y)
                    } else {
                        item_at(before, width as int, x, y)
                    },
            decreases rows - j,
        {
            proof {
                lemma_offset_in_range(width as int, height as int, from_x as int, from_y + j);
                lemma_offset_in_range(width as int, height as int, to_x as int, to_y + j);
                lemma_offset_in_range(
                    width as int,
                    height as int,
                    from_x + w - 1,
                    from_y + j,
                );
                lemma_offset_in_range(width as int, height as int, to_x + w - 1, to_y + j);
            }
            let src: usize = (from_y + j) * width + from_x;
            let dst: usize = (to_y + j) * width + to_x;
            let ghost mid = items@;
            copy_within(items, src, dst, w);
            proof {
                lemma_row_copied(
                    mid,
                    items@,
                    width as int,
                    height as int,
                    from_x as int,
                    from_y + j,
                    to_x as int,
                    to_y + j,
                    w as int,
                );
                assert forall|x: int, y: int|
                    0 <= x < width && 0 <= y < height implies #[trigger] item_at(
                    items@,
                    width as int,
                    x,
                    y,
                ) == if to_x <= x < to_x + w && to_y <= y < to_y + j + 1 {
                    item_at(before, width as int, x - to_x + from_x, y - to_y + from_y)
                } else {
                    item_at(before, width as int, x, y)
                } by {
                    if y == to_y + j && to_x <= x < to_x + w {
                        assert(item_at(mid, width as int, x - to_x + from_x, from_y + j)
                            == item_at(before, width as int, x - to_x + from_x, from_y + j));
                    } else {
                        assert(item_at(items@, width as int, x, y) == item_at(
                            mid,
                            width as int,
                            x,
                            y,
                        ));
                    }
                }
            }
            j = j + 1;
        }
    } else {
        let mut j: usize = rows;
        while j > 0
            invariant
                j <= rows,
                rows <= height - to_y,
                from_y <= to_y < height,
                0 < w,
                columns_fit(width as int, from_x as int, to_x as int, w as int),
                items@.len() == before.len(),
                before.len() == width * height,
                before.len() == total,
                forall|x: int, y: int|
                    0 <= x < width && 0 <= y < height ==> #[trigger] item_at(
                        items@,
                        width as int,
                        x,
                        y,
                    ) == if to_x <= x < to_x + w && to_y + j <= y < to_y + rows {
                        item_at(before, width as int, x - to_x + from_x, y - to_y + from_y)
                    } else {
                        item_at(before, width as int, x, y)
                    },
            decreases j,
        {
            j = j - 1;
            proof {
                lemma_offset_in_range(width as int, height as int, from_x as int, from_y + j);
                lemma_offset_in_range(width as int, height as int, to_x as int, to_y + j);
                lemma_offset_in_range(
                    width as int,
                    height as int,
                    from_x + w - 1,
                    from_y + j,
                );
                lemma_offset_in_range(width as int, height as int, to_x + w - 1, to_y + j);
            }
            let src: usize = (from_y + j) * width + from_x;
            let dst: usize = (to_y + j) * width + to_x;
            let ghost mid = items@;
            copy_within(items, src, dst, w);
            proof {
                lemma_row_copied(
                    mid,
                    items@,
                    width as int,
                    height as int,
                    from_x as int,
                    from_y + j,
                    to_x as int,
                    to_y + j,
                    w as int,
                );
                assert forall|x: int, y: int|
                    0 <= x < width && 0 <= y < height implies #[trigger] item_at(
                    items@,
                    width as int,
                    x,
                    y,
                ) == if to_x <= x < to_x + w && to_y + j <= y < to_y + rows {
                    item_at(before, width as int, x - to_x + from_x, y - to_y + from_y)
                } else {
                    item_at(before, width as int, x, y)
                } by {
                    if y == to_y + j && to_x <= x < to_x + w {
                        assert(item_at(mid, width as int, x - to_x + from_x, from_y + j)
                            == item_at(before, width as int, x - to_x + from_x, from_y + j));
                    } else {
                        assert(item_at(items@, width as int, x, y) == item_at(
                            mid,
                            width as int,
                            x,
                            y,
                        ));
                    }
                }
            }
        }
    }
}

/// The buffer of `width` by `height` items that holds `f(x, y)` at `(x, y)`.
pub open spec fn grid_of<T>(width: int, height: int, f: spec_fn(int, int) -> T) -> Seq<T> {
    Seq::new((width * height) as nat, |k: int| f(k % width, k / width))
}

/// Every place of a buffer is the place of exactly one item `(x, y)`.
pub proof fn lemma_place_is_item(width: int, height: int, k: int)
    requires
        0 <= k < width * height,
        0 <= height,
        0 <= width,
    ensures
        0 <= k % width < width,
        0 <= k / width < height,
        offset(width, k % width, k / width) == k,
{
    assert(width > 0) by (nonlinear_arith)
        requires
            0 <= k < width * height,
            0 <= height,
            0 <= width,
    ;
    vstd::arithmetic::div_mod::lemma_fundamental_div_mod(k, width);
    vstd::arithmetic::div_mod::lemma_mod_bound(k, width);
    let q = k / width;
    let r = k % width;
    assert(width * q == q * width) by (nonlinear_arith);
    assert(0 <= q < height) by (nonlinear_arith)
        requires
            0 <= r < width,
            0 <= q * width + r < width * height,
            0 <= height,
    ;
}

/// The item `(x, y)` lies at a place from which `x` and `y` can be read back.
pub proof fn lemma_item_is_place(width: int, height: int, x: int, y: int)
    requires
        0 <= x < width,
        0 <= y < height,
    ensures
        0 <= offset(width, x, y) < width * height,
        offset(width, x, y) % width == x,
        offset(width, x, y) / width == y,
{
    lemma_offset_in_range(width, height, x, y);
    let k = offset(width, x, y);
    lemma_place_is_item(width, height, k);
    lemma_offset_injective(width, x, y, k % width, k / width);
}

/// `grid_of` holds `f(x, y)` at `(x, y)`.
pub proof fn lemma_grid_of_item<T>(
    width: int,
    height: int,
    f: spec_fn(int, int) -> T,
    x: int,
    y: int,
)
    requires
        0 <= x < width,
        0 <= y < height,
    ensures
        item_at(grid_of(width, height, f), width, x, y) == f(x, y),
{
    lemma_item_is_place(width, height, x, y);
}

/// A buffer that holds `f(x, y)` at every `(x, y)` is `grid_of` of `f`.
pub proof fn lemma_is_grid_of<T>(
    items: Seq<T>,
    width: int,
    height: int,
    f: spec_fn(int, int) -> T,
)
    requires
        0 <= width,
        0 <= height,
        items.len() == width * height,
        forall|x: int, y: int|
            0 <= x < width && 0 <= y < height ==> #[trigger] item_at(items, width, x, y) == f(
                x,
                y,
            ),
    ensures
        items == grid_of(width, height, f),
{
    let other = grid_of(width, height, f);
    assert forall|k: int| 0 <= k < items.len() implies items[k] == other[k] by {
        lemma_place_is_item(width, height, k);
        assert(item_at(items, width, k % width, k / width) == items[k]);
    }
    assert(items =~= other);
}

/// The item `(x, y)` of a buffer.
pub fn get_item<T: Copy>(items: &Vec<T>, width: usize, height: usize, x: usize, y: usize) -> (item:
    T)
    requires
        items@.len() == width * height,
        x < width,
        y < height,
    ensures
        item == item_at(items@, width as int, x as int, y as int),
{
    let total: usize = items.len();
    proof {
        lemma_offset_in_range(width as int, height as int, x as int, y as int);
        assert(offset(width as int, x as int, y as int) < total);
    }
    items[y * width + x]
}

/// Puts `item` at `(x, y)` and leaves every other item as it was.
pub fn set_item<T: Copy>(
    items: &mut Vec<T>,
    width: usize,
    height: usize,
    x: usize,
    y: usize,
    item: T,
)
    requires
        old(items)@.len() == width * height,
        x < width,
        y < height,
    ensures
        final(items)@ == old(items)@.update(offset(width as int, x as int, y as int), item),
        0 <= offset(width as int, x as int, y as int) < old(items)@.len(),
        forall|a: int, b: int|
            0 <= a < width && 0 <= b < height ==> #[trigger] item_at(
                final(items)@,
                width as int,
                a,
                b,
            ) == if a == x && b == y {
                item
            } else {
                item_at(old(items)@, width as int, a, b)
            },
{
    let total: usize = items.len();
    proof {
        lemma_offset_in_range(width as int, height as int, x as int, y as int);
        assert(offset(width as int, x as int, y as int) < total);
    }
    items.set(y * width + x, item);
    proof {
        assert forall|a: int, b: int| 0 <= a < width && 0 <= b < height implies #[trigger] item_at(
            items@,
            width as int,
            a,
            b,
        ) == if a == x && b == y {
            item
        } else {
            item_at(old(items)@, width as int, a, b)
        } by {
            lemma_offset_in_range(width as int, height as int, a, b);
            if !(a == x && b == y) {
                if offset(width as int, a, b) == offset(width as int, x as int, y as int) {
                    lemma_offset_injective(width as int, a, b, x as int, y as int);
                }
            }
        }
    }
}

/// A buffer of `len` items, each of them `item`.
pub fn filled<T: Copy>(len: usize, item: T) -> (items: Vec<T>)
    ensures
        items@ == Seq::new(len as nat, |k: int| item),
{
    let mut items: Vec<T> = Vec::new();
    let mut i: usize = 0;
    while i < len
        invariant
            i <= len,
            items@.len() == i,
            forall|k: int| 0 <= k < i ==> items@[k] == item,
        decreases len - i,
    {
        items.push(item);
        i = i + 1;
    }
    assert(items@ =~= Seq::new(len as nat, |k: int| item));
    items
}

/// What `resized` makes of `items`: the items that both sizes have are kept
/// in place, every other item is `fill`.
pub open spec fn resized_items<T>(
    items: Seq<T>,
    width: int,
    height: int,
    new_width: int,
    new_height: int,
    fill: T,
) -> Seq<T> {
    grid_of(
        new_width,
        new_height,
        |x: int, y: int|
            if x < width && y < height {
                item_at(items, width, x, y)
            } else {
                fill
            },
    )
}

/// A buffer of `new_width` by `new_height` items with the contents of
/// `items`, as [`resized_items`] tells.
pub fn resized<T: Copy>(
    items: &Vec<T>,
    width: usize,
    height: usize,
    new_width: usize,
    new_height: usize,
    fill: T,
) -> (out: Vec<T>)
    requires
        items@.len() == width * height,
        new_width * new_height <= usize::MAX,
    ensures
        out@ == resized_items(
            items@,
            width as int,
            height as int,
            new_width as int,
            new_height as int,
            fill,
        ),
        out@.len() == new_width * new_height,
{
    let mut out: Vec<T> = filled(new_width * new_height, fill);
    let columns: usize = if width < new_width {
        width
    } else {
        new_width
    };
    let rows: usize = if height < new_height {
        height
    } else {
        new_height
    };
    proof {
        assert forall|a: int, b: int|
            0 <= a < new_width && 0 <= b < new_height implies #[trigger] item_at(
            out@,
            new_width as int,
            a,
            b,
        ) == fill by {
            lemma_offset_in_range(new_width as int, new_height as int, a, b);
        }
    }
    let mut y: usize = 0;
    while y < rows
        invariant
            y <= rows,
            rows <= height,
            rows <= new_height,
            columns <= width,
            columns <= new_width,
            items@.len() == width * height,
            out@.len() == new_width * new_height,
            forall|a: int, b: int|
                0 <= a < new_width && 0 <= b < new_height ==> #[trigger] item_at(
                    out@,
                    new_width as int,
                    a,
                    b,
                ) == if a < columns && b < y {
                    item_at(items@, width as int, a, b)
                } else {
                    fill
                },
        decreases rows - y,
    {
        let mut x: usize = 0;
        while x < columns
            invariant
                x <= columns,
                y < rows,
                rows <= height,
                rows <= new_height,
                columns <= width,
                columns <= new_width,
                items@.len() == width * height,
                out@.len() == new_width * new_height,
                forall|a: int, b: int|
                    0 <= a < new_width && 0 <= b < new_height ==> #[trigger] item_at(
                        out@,
                        new_width as int,
                        a,
                        b,
                    ) == if a < columns && (b < y || (b == y && a < x)) {
                        item_at(items@, width as int, a, b)
                    } else {
                        fill
                    },
            decreases columns - x,
        {
            let item = get_item(items, width, height, x, y);
            set_item(&mut out, new_width, new_height, x, y, item);
            x = x + 1;
        }
        y = y + 1;
    }
    proof {
        let f = |x: int, y: int|
            if x < width as int && y < height as int {
                item_at(items@, width as int, x, y)
            } else {
                fill
            };
        lemma_is_grid_of(out@, new_width as int, new_height as int, f);
    }
    out
}

} // verus!
