//! The dynamic map: a grid of cells, sent as runs of occupied and of inflated cells.

use vstd::prelude::*;

use crate::json::{
    flag_in, item_views, items_in, opt_json, unsigned_in, Json, JsonView, NumberView,
};
use crate::status::{flag_value, unsigned_value};

verus! {

/// The class of a cell next to an obstacle.
pub const INFLATED: u8 = 1;

/// The class of a cell with an obstacle in it.
pub const OCCUPIED: u8 = 2;

/// A number of the stream as an index, 0 where there is none.
pub open spec fn index_of(value: Option<u64>) -> usize {
    match value {
        Some(n) => n as usize,
        None => 0,
    }
}

/// The part of a run at position `k`: 0 for the first cell, 1 for the number of cells.
pub open spec fn run_part(parts: Seq<JsonView>, k: int) -> usize {
    if k < parts.len() {
        index_of(parts[k].unsigned())
    } else {
        0
    }
}

/// Whether a run covers a cell.
pub open spec fn run_covers(run: JsonView, cell: int) -> bool {
    match run.items() {
        Some(parts) => run_part(parts, 0) <= cell < run_part(parts, 0) + run_part(parts, 1),
        None => false,
    }
}

/// Whether one of some runs covers a cell.
pub open spec fn covered(runs: Option<JsonView>, cell: int) -> bool {
    match items_in(runs) {
        Some(items) => exists|k: int| 0 <= k < items.len() && run_covers(#[trigger] items[k], cell),
        None => false,
    }
}

/// Gives a class to the cells that some runs cover; the other cells keep theirs.
pub fn apply_runs(mask: &mut Vec<u8>, runs: Option<&Json>, class_id: u8)
    ensures
        final(mask)@ == old(mask)@.map(
            |cell: int, class: u8|
                if covered(opt_json(runs), cell) {
                    class_id
                } else {
                    class
                },
        ),
{
    let ghost before = mask@;
    let ghost told = opt_json(runs);
    let items = match runs {
        Some(value) => value.as_items(),
        None => None,
    };
    match items {
        Some(items) => {
            let ghost views = item_views(items@);
            assert(items_in(told) == Some(views));
            let mut k: usize = 0;
            while k < items.len()
                invariant
                    k <= items.len(),
                    views == item_views(items@),
                    mask@.len() == before.len(),
                    forall|i: int|
                        0 <= i < before.len() ==> #[trigger] mask@[i] == (if exists|j: int|
                            0 <= j < k && run_covers(#[trigger] views[j], i) {
                            class_id
                        } else {
                            before[i]
                        }),
                decreases items.len() - k,
            {
                let ghost run = views[k as int];
                let ghost earlier = mask@;
                match items[k].as_items() {
                    Some(parts) => {
                        let ghost part_views = item_views(parts@);
                        let start: usize = if parts.len() > 0 {
                            to_index(parts[0].as_unsigned())
                        } else {
                            0
                        };
                        let length: usize = if parts.len() > 1 {
                            to_index(parts[1].as_unsigned())
                        } else {
                            0
                        };
                        let sum = start.saturating_add(length);
                        let end: usize = if sum <= mask.len() {
                            sum
                        } else {
                            mask.len()
                        };
                        assert(run.items() == Some(part_views));
                        assert(start == run_part(part_views, 0) && length == run_part(part_views, 1));
                        let mut i: usize = start;
                        while i < end
                            invariant
                                end <= mask@.len(),
                                mask@.len() == earlier.len(),
                                start <= i,
                                start <= end ==> i <= end,
                                forall|c: int|
                                    0 <= c < earlier.len() ==> #[trigger] mask@[c] == (if start <= c < i {
                                        class_id
                                    } else {
                                        earlier[c]
                                    }),
                            decreases end - i,
                        {
                            mask.set(i, class_id);
                            i = i + 1;
                        }
                        assert forall|c: int| 0 <= c < before.len() implies #[trigger] mask@[c] == (if run_covers(
                            run,
                            c,
                        ) {
                            class_id
                        } else {
                            earlier[c]
                        }) by {}
                    },
                    None => {},
                }
                assert forall|i: int| 0 <= i < before.len() implies #[trigger] mask@[i] == (if exists|j: int|
                    0 <= j < k + 1 && run_covers(#[trigger] views[j], i) {
                    class_id
                } else {
                    before[i]
                }) by {
                    assert(mask@[i] == (if run_covers(run, i) {
                        class_id
                    } else {
                        earlier[i]
                    }));
                    if exists|j: int| 0 <= j < k + 1 && run_covers(#[trigger] views[j], i) {
                        let j = choose|j: int| 0 <= j < k + 1 && run_covers(#[trigger] views[j], i);
                        assert(run_covers(views[j], i));
                    }
                }
                k = k + 1;
            }
        },
        None => {
            assert(items_in(told) is None);
        },
    }
    assert(mask@ == before.map(
        |cell: int, class: u8|
            if covered(told, cell) {
                class_id
            } else {
                class
            },
    ));
}

fn to_index(value: Option<u64>) -> (r: usize)
    ensures
        r == index_of(value),
{
    match value {
        Some(n) => n as usize,
        None => 0,
    }
}

/// The grid's width and height.
pub open spec fn map_width(m: JsonView) -> usize {
    index_of(unsigned_in(m.get("width"@)))
}

pub open spec fn map_height(m: JsonView) -> usize {
    index_of(unsigned_in(m.get("height"@)))
}

/// Whether a message clears the dynamic map.
pub open spec fn clears_map(m: JsonView) -> bool {
    flag_in(m.get("clear"@)) == Some(true)
}

/// The class of a cell: an obstacle counts before an inflated cell.
pub open spec fn cell_class(m: JsonView, cell: int) -> u8 {
    if covered(m.get("occupied_runs"@), cell) {
        OCCUPIED
    } else if covered(m.get("inflated_runs"@), cell) {
        INFLATED
    } else {
        0
    }
}

/// The classes of all cells, row by row.
pub open spec fn map_cells(m: JsonView) -> Seq<u8> {
    Seq::new((map_width(m) * map_height(m)) as nat, |cell: int| cell_class(m, cell))
}

/// What a message does to the dynamic map that is shown.
#[derive(Debug)]
pub enum DynamicMap {
    /// The map that is shown stays.
    Keep,
    /// Nothing is shown any more.
    Clear,
    /// A grid is shown.
    Grid { width: usize, height: usize, cells: Vec<u8> },
}

pub enum DynamicMapView {
    Keep,
    Clear,
    Grid { width: usize, height: usize, cells: Seq<u8> },
}

impl View for DynamicMap {
    type V = DynamicMapView;

    open spec fn view(&self) -> DynamicMapView {
        match *self {
            DynamicMap::Keep => DynamicMapView::Keep,
            DynamicMap::Clear => DynamicMapView::Clear,
            DynamicMap::Grid { width, height, cells } => DynamicMapView::Grid {
                width,
                height,
                cells: cells@,
            },
        }
    }
}

pub open spec fn dynamic_map_of(m: JsonView) -> DynamicMapView {
    let size = map_width(m) * map_height(m);
    if clears_map(m) {
        DynamicMapView::Clear
    } else if size == 0 || size > usize::MAX {
        DynamicMapView::Keep
    } else {
        DynamicMapView::Grid { width: map_width(m), height: map_height(m), cells: map_cells(m) }
    }
}

/// Whether the grid of a message, if it has one, can be held in memory at all.
pub open spec fn grid_fits(m: JsonView) -> bool {
    dynamic_map_of(m) matches DynamicMapView::Grid { cells, .. } ==> cells.len() <= isize::MAX
}

/// Tells whether `dynamic_map` can be asked for the grid of a message.
pub fn can_hold_grid(message: &Json) -> (r: bool)
    ensures
        r == grid_fits(message.view()),
{
    if flag_value(message.get("clear")) == Some(true) {
        return true;
    }
    let width = to_index(unsigned_value(message.get("width")));
    let height = to_index(unsigned_value(message.get("height")));
    match width.checked_mul(height) {
        Some(length) => length <= isize::MAX as usize,
        None => true,
    }
}

/// Builds the grid that a message describes.
pub fn dynamic_map(message: &Json) -> (r: DynamicMap)
    requires
        grid_fits(message.view()),
    ensures
        r@ == dynamic_map_of(message.view()),
{
    if flag_value(message.get("clear")) == Some(true) {
        return DynamicMap::Clear;
    }
    let width = to_index(unsigned_value(message.get("width")));
    let height = to_index(unsigned_value(message.get("height")));
    match width.checked_mul(height) {
        Some(length) => {
            if length == 0 {
                return DynamicMap::Keep;
            }
            let mut cells: Vec<u8> = vec![0u8; length];
            apply_runs(&mut cells, message.get("inflated_runs"), INFLATED);
            apply_runs(&mut cells, message.get("occupied_runs"), OCCUPIED);
            assert(cells@ == map_cells(message.view()));
            DynamicMap::Grid { width, height, cells }
        },
        None => DynamicMap::Keep,
    }
}

/// A grid has as many cells as its width and height make up.
pub proof fn law_grid_is_full(m: JsonView)
    ensures
        dynamic_map_of(m) matches DynamicMapView::Grid { width, height, cells } ==> cells.len() == width
            * height && cells.len() > 0,
{
}

/// A cell that is reported both occupied and inflated is shown as occupied.
pub proof fn law_obstacles_win(m: JsonView, cell: int)
    requires
        covered(m.get("occupied_runs"@), cell),
    ensures
        cell_class(m, cell) == OCCUPIED,
{
}

/// The width and the height of a grid are those that the message tells, and its cells
/// are as many: that in row `y` and column `x` is number `y * width + x`.
pub proof fn law_grid_has_the_told_shape(m: JsonView, x: int, y: int)
    ensures
        dynamic_map_of(m) matches DynamicMapView::Grid { width, height, cells } ==> {
            &&& m.get("width"@) matches Some(w) && w.unsigned() matches Some(n) && width == n as usize
            &&& m.get("height"@) matches Some(h) && h.unsigned() matches Some(n) && height
                == n as usize
            &&& cells.len() == width * height
            &&& 0 <= x < width && 0 <= y < height ==> 0 <= y * width + x < cells.len()
        },
{
    if dynamic_map_of(m) is Grid {
        let w = map_width(m) as int;
        let h = map_height(m) as int;
        assert(w * h != 0);
        assert(w > 0 && h > 0) by (nonlinear_arith)
            requires
                w * h != 0,
                w >= 0,
                h >= 0,
        ;
        if 0 <= x < w && 0 <= y < h {
            assert(0 <= y * w + x < w * h) by (nonlinear_arith)
                requires
                    0 <= x < w,
                    0 <= y < h,
            ;
        }
    }
}

/// A message that says so clears the map. Another one shows a grid where it tells a
/// width and a height that make up a number of cells, and else leaves the map as it is.
pub proof fn law_when_a_grid_is_shown(m: JsonView, width: u64, height: u64)
    ensures
        dynamic_map_of(m) is Clear <==> m.get("clear"@) == Some(JsonView::Bool(true)),
        m.get("width"@) is None || m.get("height"@) is None ==> !(dynamic_map_of(m) is Grid),
        m.get("clear"@) != Some(JsonView::Bool(true)) && (m.get("width"@) matches Some(w)
            && w.unsigned() == Some(width)) && (m.get("height"@) matches Some(h) && h.unsigned()
            == Some(height)) && width <= usize::MAX && height <= usize::MAX ==> {
            &&& dynamic_map_of(m) is Grid <==> 0 < width * height <= usize::MAX
            &&& dynamic_map_of(m) is Keep <==> !(0 < width * height <= usize::MAX)
        },
{
    let w = map_width(m) as int;
    let h = map_height(m) as int;
    assert(w * h >= 0) by (nonlinear_arith)
        requires
            w >= 0,
            h >= 0,
    ;
    assert(0 * h == 0 && w * 0 == 0) by (nonlinear_arith);
}

/// Whether two messages tell the same of a member.
pub open spec fn agree_on(m: JsonView, n: JsonView, name: Seq<char>) -> bool {
    m.get(name) == n.get(name)
}

proof fn lemma_one_more_run(items: Seq<JsonView>, run: JsonView, cell: int)
    ensures
        covered(Some(JsonView::Array(items.push(run))), cell) <==> covered(
            Some(JsonView::Array(items)),
            cell,
        ) || run_covers(run, cell),
{
    let more = items.push(run);
    assert(items_in(Some(JsonView::Array(items))) == Some(items));
    assert(items_in(Some(JsonView::Array(more))) == Some(more));
    if covered(Some(JsonView::Array(items)), cell) {
        let k = choose|k: int| 0 <= k < items.len() && run_covers(#[trigger] items[k], cell);
        assert(more[k] == items[k]);
        assert(run_covers(more[k], cell));
    }
    if run_covers(run, cell) {
        assert(run_covers(more[items.len() as int], cell));
    }
    if covered(Some(JsonView::Array(more)), cell) {
        let k = choose|k: int| 0 <= k < more.len() && run_covers(#[trigger] more[k], cell);
        if k < items.len() {
            assert(more[k] == items[k]);
            assert(run_covers(items[k], cell));
        } else {
            assert(more[k] == run);
        }
    }
}

/// What one more run of occupied cells does to a grid: its cells are occupied, whatever
/// they were, and all others stay as they are. Without runs no cell is occupied. `n` is
/// the message `m` with one more run, of `length` cells from `start` on.
pub proof fn law_occupied_runs_are_drawn(
    m: JsonView,
    n: JsonView,
    items: Seq<JsonView>,
    start: NumberView,
    length: NumberView,
    cell: int,
)
    requires
        agree_on(m, n, "width"@),
        agree_on(m, n, "height"@),
        agree_on(m, n, "clear"@),
        agree_on(m, n, "inflated_runs"@),
        m.get("occupied_runs"@) == Some(JsonView::Array(items)),
        n.get("occupied_runs"@) == Some(
            JsonView::Array(
                items.push(
                    JsonView::Array(seq![JsonView::Number(start), JsonView::Number(length)]),
                ),
            ),
        ),
        start.unsigned matches Some(a) && a <= usize::MAX,
        length.unsigned matches Some(b) && b <= usize::MAX,
    ensures
        dynamic_map_of(m) is Grid <==> dynamic_map_of(n) is Grid,
        dynamic_map_of(m) is Grid && 0 <= cell < dynamic_map_of(m)->cells.len() ==> {
            let a = start.unsigned->Some_0;
            let b = length.unsigned->Some_0;
            &&& dynamic_map_of(n)->cells[cell] == if a <= cell < a + b {
                2
            } else {
                dynamic_map_of(m)->cells[cell]
            }
            &&& items.len() == 0 ==> dynamic_map_of(m)->cells[cell] != 2
        },
{
    let run = JsonView::Array(seq![JsonView::Number(start), JsonView::Number(length)]);
    lemma_one_more_run(items, run, cell);
    assert(run.items() == Some(seq![JsonView::Number(start), JsonView::Number(length)]));
}

/// What one more run of inflated cells does to a grid: its cells are inflated but for
/// the occupied ones, and all others stay as they are. Without runs no cell is inflated.
/// `n` is the message `m` with one more run, of `length` cells from `start` on.
pub proof fn law_inflated_runs_are_drawn(
    m: JsonView,
    n: JsonView,
    items: Seq<JsonView>,
    start: NumberView,
    length: NumberView,
    cell: int,
)
    requires
        agree_on(m, n, "width"@),
        agree_on(m, n, "height"@),
        agree_on(m, n, "clear"@),
        agree_on(m, n, "occupied_runs"@),
        m.get("inflated_runs"@) == Some(JsonView::Array(items)),
        n.get("inflated_runs"@) == Some(
            JsonView::Array(
                items.push(
                    JsonView::Array(seq![JsonView::Number(start), JsonView::Number(length)]),
                ),
            ),
        ),
        start.unsigned matches Some(a) && a <= usize::MAX,
        length.unsigned matches Some(b) && b <= usize::MAX,
    ensures
        dynamic_map_of(m) is Grid <==> dynamic_map_of(n) is Grid,
        dynamic_map_of(m) is Grid && 0 <= cell < dynamic_map_of(m)->cells.len() ==> {
            let a = start.unsigned->Some_0;
            let b = length.unsigned->Some_0;
            let before = dynamic_map_of(m)->cells[cell];
            &&& dynamic_map_of(n)->cells[cell] == if a <= cell < a + b && before != 2 {
                1
            } else {
                before
            }
            &&& items.len() == 0 ==> before != 1
        },
{
    let run = JsonView::Array(seq![JsonView::Number(start), JsonView::Number(length)]);
    lemma_one_more_run(items, run, cell);
    assert(run.items() == Some(seq![JsonView::Number(start), JsonView::Number(length)]));
}

/// A message without a list of runs shows a free grid, and what is no list among the
/// runs covers no cell. `n` is the message `m` with one more element among its runs.
pub proof fn law_what_is_no_run_covers_nothing(
    m: JsonView,
    n: JsonView,
    occupied: Seq<JsonView>,
    inflated: Seq<JsonView>,
    other: JsonView,
)
    requires
        !(other is Array),
        agree_on(m, n, "width"@),
        agree_on(m, n, "height"@),
        agree_on(m, n, "clear"@),
        m.get("occupied_runs"@) == Some(JsonView::Array(occupied)),
        m.get("inflated_runs"@) == Some(JsonView::Array(inflated)),
        n.get("occupied_runs"@) == Some(JsonView::Array(occupied.push(other))),
        n.get("inflated_runs"@) == Some(JsonView::Array(inflated.push(other))),
    ensures
        dynamic_map_of(m) == dynamic_map_of(n),
{
    assert forall|cell: int| #[trigger] cell_class(m, cell) == cell_class(n, cell) by {
        lemma_one_more_run(occupied, other, cell);
        lemma_one_more_run(inflated, other, cell);
    }
    assert(map_cells(m) == map_cells(n));
}

/// Without runs, or with something else in their place, all cells are free.
pub proof fn law_without_runs_the_grid_is_free(m: JsonView, cell: int)
    requires
        m.get("occupied_runs"@) matches Some(v) ==> !(v is Array),
        m.get("inflated_runs"@) matches Some(v) ==> !(v is Array),
    ensures
        dynamic_map_of(m) matches DynamicMapView::Grid { cells, .. } ==> (0 <= cell < cells.len()
            ==> cells[cell] == 0),
{
}

/// A grid can be held where its cells are no more than a list can have.
pub proof fn law_when_a_grid_fits(m: JsonView)
    ensures
        grid_fits(m) <==> (dynamic_map_of(m) matches DynamicMapView::Grid { width, height, .. }
            ==> width * height <= isize::MAX),
{
}

/// A grid is what its fields say.
pub proof fn law_grids_are_their_fields(g: DynamicMap)
    ensures
        g matches DynamicMap::Grid { width, height, cells } ==> g@ == (DynamicMapView::Grid {
            width,
            height,
            cells: cells@,
        }),
        g is Keep <==> g@ is Keep,
        g is Clear <==> g@ is Clear,
{
}

/// A run of fewer than two elements covers nothing, and neither does one whose length is
/// no number; one whose first cell is no number begins with the first of all. `n` is the
/// message `m` with one more run among its occupied cells.
pub proof fn law_incomplete_runs(
    m: JsonView,
    n: JsonView,
    items: Seq<JsonView>,
    parts: Seq<JsonView>,
    cell: int,
)
    requires
        agree_on(m, n, "width"@),
        agree_on(m, n, "height"@),
        agree_on(m, n, "clear"@),
        agree_on(m, n, "inflated_runs"@),
        m.get("occupied_runs"@) == Some(JsonView::Array(items)),
        n.get("occupied_runs"@) == Some(JsonView::Array(items.push(JsonView::Array(parts)))),
        dynamic_map_of(m) is Grid,
        0 <= cell < dynamic_map_of(m)->cells.len(),
    ensures
        dynamic_map_of(n) is Grid,
        parts.len() < 2 || parts[1].unsigned() is None ==> dynamic_map_of(n)->cells[cell]
            == dynamic_map_of(m)->cells[cell],
        parts.len() >= 2 && parts[0].unsigned() is None ==> (parts[1].unsigned() matches Some(b)
            ==> (b <= usize::MAX ==> dynamic_map_of(n)->cells[cell] == if cell < b {
            2
        } else {
            dynamic_map_of(m)->cells[cell]
        })),
{
    let run = JsonView::Array(parts);
    lemma_one_more_run(items, run, cell);
    assert(run.items() == Some(parts));
}

} // verus!
