//! The geometry of the grid: where each cell of each row lies, which cells
//! the camera shows, and what is to be drawn for them.

use vstd::prelude::*;
use crate::cache::{
    lemma_mark_all_keeps_the_rest, lemma_mark_all_push, lemma_only_marked_are_pending,
    CacheState, TextureCache, TextureHandle, Url,
};
use crate::camera::Camera2D;
use crate::catalog::{catalog_view, Collection, CollectionView};
use crate::geometry::{clamp_coord, saturate, Rect, Region, Vec2};
use crate::tween::UNIT;

verus! {

/// How far from the left edge of the grid the title of a row begins.
pub const TITLE_INSET: i64 = 30;

/// How far the highlight of the selected cell reaches beyond the cell.
pub const SELECTION_BORDER: i64 = 8;

/// A viewport extent as the layout uses it: a negative one counts as none.
pub open spec fn extent(v: int) -> int {
    if v < 0 {
        0
    } else {
        v
    }
}

/// A row takes a quarter of the viewport's height.
pub open spec fn row_height(viewport_height: int) -> int {
    extent(viewport_height) / 4
}

/// The title of a row takes the upper fifth of the row.
pub open spec fn title_height(viewport_height: int) -> int {
    row_height(viewport_height) / 5
}

/// A thumbnail takes a sixth of the viewport's width.
pub open spec fn cell_width(viewport_width: int) -> int {
    extent(viewport_width) / 6
}

/// The margin on either side of a thumbnail is a sixth of its width.
pub open spec fn cell_margin(viewport_width: int) -> int {
    cell_width(viewport_width) / 6
}

/// From one column to the next: a thumbnail and both its margins.
pub open spec fn column_width(viewport_width: int) -> int {
    cell_width(viewport_width) + 2 * cell_margin(viewport_width)
}

/// The measures of the grid for one viewport.
#[derive(Clone, Copy, Debug, PartialEq, Eq, Structural)]
pub struct Metrics {
    pub row_height: i64,
    pub title_height: i64,
    pub cell_width: i64,
    pub cell_margin: i64,
    pub column_width: i64,
}

impl Metrics {
    /// The measures are those that the viewport `(width, height)` gives.
    pub open spec fn of(self, width: int, height: int) -> bool {
        &&& self.row_height == row_height(height)
        &&& self.title_height == title_height(height)
        &&& self.cell_width == cell_width(width)
        &&& self.cell_margin == cell_margin(width)
        &&& self.column_width == column_width(width)
    }

    /// Measures the grid for a viewport.
    pub fn new(viewport: Vec2) -> (r: Metrics)
        ensures
            r.of(viewport.x as int, viewport.y as int),
    {
        let width: i64 = if viewport.x < 0 {
            0
        } else {
            viewport.x
        };
        let height: i64 = if viewport.y < 0 {
            0
        } else {
            viewport.y
        };
        let row_height: i64 = height / 4;
        let title_height: i64 = row_height / 5;
        let cell_width: i64 = width / 6;
        let cell_margin: i64 = cell_width / 6;
        Metrics {
            row_height,
            title_height,
            cell_width,
            cell_margin,
            column_width: cell_width + 2 * cell_margin,
        }
    }
}

/// The title of a row is to be written at `position`, in screen space.
#[derive(Clone, Copy, Debug, PartialEq, Eq, Structural)]
pub struct TitleRequest {
    pub row: usize,
    pub position: Vec2,
}

/// A cell that the camera shows is to be drawn at `position`, in screen
/// space: with its texture where it has one, else as a placeholder with a
/// loading indicator; with a highlight around it where it is the selected
/// cell.
#[derive(Clone, Copy, Debug, PartialEq, Eq, Structural)]
pub struct CellRequest {
    pub row: usize,
    pub column: usize,
    pub position: Vec2,
    pub size: Vec2,
    pub selected: bool,
    pub texture: Option<TextureHandle>,
}

/// What is to be drawn for one frame.
#[derive(Debug)]
pub struct Frame {
    /// One title per row, in the order of the rows.
    pub titles: Vec<TitleRequest>,
    /// The cells that the camera shows, row by row, each row from its first
    /// column on.
    pub cells: Vec<CellRequest>,
}

/// What the layout starts from.
pub ghost struct Grid {
    pub rows: Seq<CollectionView>,
    pub camera: Camera2D,
    pub selected_row: nat,
    pub live_column: int,
}

impl Grid {
    pub open spec fn width(self) -> int {
        self.camera.viewport.x as int
    }

    pub open spec fn height(self) -> int {
        self.camera.viewport.y as int
    }

    /// How far row `row` is shifted to the left: the selected row by the live
    /// column, which a tween may be moving; any other row by the place that
    /// it remembers.
    pub open spec fn shift(self, row: int) -> int {
        if row == self.selected_row {
            (self.live_column * column_width(self.width())) / (UNIT as int)
        } else {
            self.rows[row].selected_index * column_width(self.width())
        }
    }

    /// The cell at `(row, column)`, on the grid.
    pub open spec fn cell(self, row: int, column: int) -> Region {
        Region {
            x: column * column_width(self.width()) - self.shift(row),
            y: row * row_height(self.height()) + title_height(self.height()),
            width: cell_margin(self.width()) + cell_width(self.width()),
            height: row_height(self.height()) - title_height(self.height()),
        }
    }

    /// Whether there is a cell at `(row, column)`.
    pub open spec fn has(self, row: int, column: int) -> bool {
        0 <= row < self.rows.len() && 0 <= column < self.rows[row].videos.len()
    }

    /// Whether the camera shows the cell at `(row, column)`.
    pub open spec fn shows(self, row: int, column: int) -> bool {
        self.has(row, column) && self.cell(row, column).overlaps(self.camera.region())
    }

    /// The URL of the thumbnail at `(row, column)`.
    pub open spec fn url(self, row: int, column: int) -> Url {
        self.rows[row].videos[column].thumbnail_url
    }

    /// Where the title of `row` is written, in screen space.
    pub open spec fn title(self, row: int) -> TitleRequest {
        TitleRequest {
            row: row as usize,
            position: Vec2 {
                x: clamp_coord(TITLE_INSET - self.camera.position.x),
                y: clamp_coord(row * row_height(self.height()) - self.camera.position.y),
            },
        }
    }

    /// What is to be drawn for the cell at `(row, column)`, with the textures
    /// that `resolved` holds.
    pub open spec fn request(
        self,
        row: int,
        column: int,
        resolved: Map<Url, TextureHandle>,
    ) -> CellRequest {
        CellRequest {
            row: row as usize,
            column: column as usize,
            position: Vec2 {
                x: (self.cell(row, column).x - self.camera.position.x) as i64,
                y: (self.cell(row, column).y - self.camera.position.y) as i64,
            },
            size: Vec2 {
                x: self.cell(row, column).width as i64,
                y: self.cell(row, column).height as i64,
            },
            selected: row == self.selected_row && column == self.rows[row].selected_index,
            texture: if resolved.contains_key(self.url(row, column)) {
                Some(resolved[self.url(row, column)])
            } else {
                None
            },
        }
    }

    /// The URLs of the cells of `cells`, in their order.
    pub open spec fn urls(self, cells: Seq<CellRequest>) -> Seq<Url> {
        Seq::new(cells.len(), |k: int| self.url(cells[k].row as int, cells[k].column as int))
    }

    /// `cells` is the frame of this grid: exactly the cells that the camera
    /// shows, each once, row by row and column by column, each with the
    /// request that is due for it.
    pub open spec fn framed(self, cells: Seq<CellRequest>, resolved: Map<Url, TextureHandle>) -> bool {
        &&& forall|k: int|
            0 <= k < cells.len() ==> self.shows(
                (#[trigger] cells[k]).row as int,
                cells[k].column as int,
            ) && cells[k] == self.request(cells[k].row as int, cells[k].column as int, resolved)
        &&& forall|j: int, k: int|
            0 <= j < k < cells.len() ==> precedes(#[trigger] cells[j], #[trigger] cells[k])
        &&& forall|row: int, column: int| #[trigger]
            self.shows(row, column) ==> exists|k: int|
                0 <= k < cells.len() && (#[trigger] cells[k]).row == row && cells[k].column
                    == column
    }
}

/// `a` comes before `b` in the order of the frame.
pub open spec fn precedes(a: CellRequest, b: CellRequest) -> bool {
    a.row < b.row || (a.row == b.row && a.column < b.column)
}

impl CellRequest {
    /// The rectangle of the cell, in screen space.
    pub fn rect(&self) -> (r: Rect)
        ensures
            r == (Rect { origin: self.position, size: self.size }),
    {
        Rect { origin: self.position, size: self.size }
    }

    /// The rectangle of the highlight that is drawn behind the selected
    /// cell: the cell, grown by [`SELECTION_BORDER`] on every side. At the
    /// ends of the coordinate range it saturates.
    pub fn highlight(&self) -> (r: Rect)
        ensures
            r.origin.x == clamp_coord(self.position.x - SELECTION_BORDER),
            r.origin.y == clamp_coord(self.position.y - SELECTION_BORDER),
            r.size.x == clamp_coord(self.size.x + 2 * SELECTION_BORDER),
            r.size.y == clamp_coord(self.size.y + 2 * SELECTION_BORDER),
    {
        Rect {
            origin: Vec2 {
                x: saturate(self.position.x as i128 - SELECTION_BORDER as i128),
                y: saturate(self.position.y as i128 - SELECTION_BORDER as i128),
            },
            size: Vec2 {
                x: saturate(self.size.x as i128 + 2 * SELECTION_BORDER as i128),
                y: saturate(self.size.y as i128 + 2 * SELECTION_BORDER as i128),
            },
        }
    }

    /// The middle of the cell, where the loading indicator turns.
    pub fn center(&self) -> (r: Vec2)
        ensures
            r.x == clamp_coord(self.position.x + self.size.x / 2),
            r.y == clamp_coord(self.position.y + self.size.y / 2),
    {
        Vec2 {
            x: saturate(self.position.x as i128 + floor_div(self.size.x as i128, 2)),
            y: saturate(self.position.y as i128 + floor_div(self.size.y as i128, 2)),
        }
    }
}

/// Lays out one frame.
///
/// Every row gets a title. Every cell that the camera shows gets a request,
/// and its thumbnail is marked as wanted; interest in thumbnails that were
/// wanted for an earlier frame and have not been begun is withdrawn first, so
/// that only what is on screen now can be fetched next.
pub fn layout(
    collections: &Vec<Collection>,
    camera: &Camera2D,
    selected_row: usize,
    live_column: i64,
    cache: &mut TextureCache,
) -> (frame: Frame)
    requires
        old(cache).wf(),
    ensures
        final(cache).wf(),
        ({
            let grid = Grid {
                rows: catalog_view(collections@),
                camera: *camera,
                selected_row: selected_row as nat,
                live_column: live_column as int,
            };
            &&& frame.titles@.len() == collections.len()
            &&& forall|r: int| 0 <= r < collections.len() ==> frame.titles@[r] == grid.title(r)
            &&& grid.framed(frame.cells@, old(cache)@.resolved)
            &&& final(cache)@ == old(cache)@.forget().mark_all(grid.urls(frame.cells@))
        }),
{
    let metrics = Metrics::new(camera.viewport);
    let ghost grid = Grid {
        rows: catalog_view(collections@),
        camera: *camera,
        selected_row: selected_row as nat,
        live_column: live_column as int,
    };
    let ghost start = cache@;
    cache.forget_pending();
    let mut titles: Vec<TitleRequest> = Vec::new();
    let mut cells: Vec<CellRequest> = Vec::new();
    let width: i64 = metrics.cell_margin + metrics.cell_width;
    let height: i64 = metrics.row_height - metrics.title_height;
    let far_x: i128 = camera.position.x as i128 + camera.viewport.x as i128;
    let far_y: i128 = camera.position.y as i128 + camera.viewport.y as i128;
    let mut r: usize = 0;
    while r < collections.len()
        invariant
            cache.wf(),
            metrics.of(camera.viewport.x as int, camera.viewport.y as int),
            grid == (Grid {
                rows: catalog_view(collections@),
                camera: *camera,
                selected_row: selected_row as nat,
                live_column: live_column as int,
            }),
            width == metrics.cell_margin + metrics.cell_width,
            height == metrics.row_height - metrics.title_height,
            far_x == camera.position.x + camera.viewport.x,
            far_y == camera.position.y + camera.viewport.y,
            r <= collections.len(),
            titles@.len() == r,
            forall|k: int| 0 <= k < r ==> titles@[k] == grid.title(k),
            forall|k: int|
                0 <= k < cells.len() ==> (#[trigger] cells@[k]).row < r && grid.shows(
                    cells@[k].row as int,
                    cells@[k].column as int,
                ) && cells@[k] == grid.request(
                    cells@[k].row as int,
                    cells@[k].column as int,
                    start.resolved,
                ),
            forall|j: int, k: int|
                0 <= j < k < cells.len() ==> precedes(#[trigger] cells@[j], #[trigger] cells@[k]),
            forall|row: int, column: int| #[trigger]
                grid.shows(row, column) && row < r ==> exists|k: int|
                    0 <= k < cells.len() && (#[trigger] cells@[k]).row == row && cells@[k].column
                        == column,
            cache@ == start.forget().mark_all(grid.urls(cells@)),
        decreases collections.len() - r,
    {
        let collection = &collections[r];
        assert(0 <= r * metrics.row_height <= usize::MAX * i64::MAX) by (nonlinear_arith)
            requires
                0 <= r <= usize::MAX,
                0 <= metrics.row_height <= i64::MAX,
        ;
        let row_y: i128 = r as i128 * metrics.row_height as i128;
        titles.push(
            TitleRequest {
                row: r,
                position: Vec2 {
                    x: saturate(TITLE_INSET as i128 - camera.position.x as i128),
                    y: saturate(row_y - camera.position.y as i128),
                },
            },
        );
        let shift: i128 = if r == selected_row {
            assert(-0x2000_0000_0000_0000_0000_0000_0000_0000 < live_column * metrics.column_width
                < 0x2000_0000_0000_0000_0000_0000_0000_0000) by (nonlinear_arith)
                requires
                    -0x8000_0000_0000_0000 <= live_column < 0x8000_0000_0000_0000,
                    0 <= metrics.column_width < 0x2000_0000_0000_0000,
            ;
            floor_div(live_column as i128 * metrics.column_width as i128, UNIT as i128)
        } else {
            assert(0 <= collection.selected_index * metrics.column_width
                < 0x2000_0000_0000_0000_0000_0000_0000_0000) by (nonlinear_arith)
                requires
                    0 <= collection.selected_index <= 0xffff_ffff_ffff_ffff,
                    0 <= metrics.column_width < 0x2000_0000_0000_0000,
            ;
            collection.selected_index as i128 * metrics.column_width as i128
        };
        assert(-0x2000_0000_0000_0000_0000_0000_0000_0000 < shift
            < 0x2000_0000_0000_0000_0000_0000_0000_0000) by {
            if r == selected_row {
                let n = live_column * metrics.column_width;
                vstd::arithmetic::div_mod::lemma_fundamental_div_mod(n, UNIT as int);
                vstd::arithmetic::div_mod::lemma_mod_bound(n, UNIT as int);
            }
        }
        let y: i128 = row_y + metrics.title_height as i128;
        let mut c: usize = 0;
        while c < collection.videos.len()
            invariant
                cache.wf(),
                metrics.of(camera.viewport.x as int, camera.viewport.y as int),
                grid == (Grid {
                    rows: catalog_view(collections@),
                    camera: *camera,
                    selected_row: selected_row as nat,
                    live_column: live_column as int,
                }),
                width == metrics.cell_margin + metrics.cell_width,
                height == metrics.row_height - metrics.title_height,
                far_x == camera.position.x + camera.viewport.x,
                far_y == camera.position.y + camera.viewport.y,
                r < collections.len(),
                collection == &collections[r as int],
                grid.rows[r as int] == collection@,
                shift == grid.shift(r as int),
                -0x2000_0000_0000_0000_0000_0000_0000_0000 < shift
                    < 0x2000_0000_0000_0000_0000_0000_0000_0000,
                y == r * metrics.row_height + metrics.title_height,
                0 <= r * metrics.row_height <= usize::MAX * i64::MAX,
                c <= collection.videos.len(),
                forall|k: int|
                    0 <= k < cells.len() ==> ((#[trigger] cells@[k]).row < r || (cells@[k].row == r
                        && cells@[k].column < c)) && grid.shows(
                        cells@[k].row as int,
                        cells@[k].column as int,
                    ) && cells@[k] == grid.request(
                        cells@[k].row as int,
                        cells@[k].column as int,
                        start.resolved,
                    ),
                forall|j: int, k: int|
                    0 <= j < k < cells.len() ==> precedes(
                        #[trigger] cells@[j],
                        #[trigger] cells@[k],
                    ),
                forall|row: int, column: int| #[trigger]
                    grid.shows(row, column) && (row < r || (row == r && column < c))
                        ==> exists|k: int|
                        0 <= k < cells.len() && (#[trigger] cells@[k]).row == row
                            && cells@[k].column == column,
                cache@ == start.forget().mark_all(grid.urls(cells@)),
            decreases collection.videos.len() - c,
        {
            assert(0 <= c * metrics.column_width < 0x2000_0000_0000_0000_0000_0000_0000_0000)
                by (nonlinear_arith)
                requires
                    0 <= c <= 0xffff_ffff_ffff_ffff,
                    0 <= metrics.column_width < 0x2000_0000_0000_0000,
            ;
            let x: i128 = c as i128 * metrics.column_width as i128 - shift;
            let visible: bool = x <= far_x && x + width as i128 >= camera.position.x as i128 && y
                <= far_y && y + height as i128 >= camera.position.y as i128;
            let ghost earlier = cells@;
            if visible {
                let url: &str = collection.videos[c].thumbnail_url.as_str();
                proof {
                    lemma_mark_all_keeps_the_rest(start.forget(), grid.urls(cells@));
                }
                let texture = cache.get(url);
                cache.mark_of_interest(url);
                let request = CellRequest {
                    row: r,
                    column: c,
                    position: Vec2 {
                        x: (x - camera.position.x as i128) as i64,
                        y: (y - camera.position.y as i128) as i64,
                    },
                    size: Vec2 { x: width, y: height },
                    selected: r == selected_row && c == collection.selected_index,
                    texture,
                };
                cells.push(request);
                proof {
                    assert(grid.urls(cells@) =~= grid.urls(earlier).push(url@));
                    lemma_mark_all_push(start.forget(), grid.urls(earlier), url@);
                }
            }
            assert forall|row: int, column: int| #[trigger]
                grid.shows(row, column) && (row < r || (row == r && column < c + 1))
                    implies exists|k: int|
                0 <= k < cells.len() && (#[trigger] cells@[k]).row == row && cells@[k].column
                    == column by {
                if row == r && column == c {
                    assert(cells@[earlier.len() as int].row == r);
                } else {
                    let k = choose|k: int|
                        0 <= k < earlier.len() && (#[trigger] earlier[k]).row == row
                            && earlier[k].column == column;
                    assert(cells@[k] == earlier[k]);
                }
            }
            c += 1;
        }
        r += 1;
    }
    Frame { titles, cells }
}

/// After a frame has been laid out, a thumbnail that is on none of the cells
/// on screen is not waiting to be fetched, whatever was wanted before.
pub proof fn lemma_offscreen_is_not_pending(
    grid: Grid,
    cells: Seq<CellRequest>,
    resolved: Map<Url, TextureHandle>,
    before: CacheState,
    url: Url,
)
    requires
        grid.framed(cells, resolved),
        forall|row: int, column: int| #[trigger]
            grid.shows(row, column) ==> grid.url(row, column) != url,
    ensures
        !before.forget().mark_all(grid.urls(cells)).pending.contains(url),
{
    let urls = grid.urls(cells);
    assert(!urls.contains(url)) by {
        if urls.contains(url) {
            let k = choose|k: int| 0 <= k < urls.len() && urls[k] == url;
            assert(grid.shows(cells[k].row as int, cells[k].column as int));
        }
    }
    lemma_only_marked_are_pending(before, urls, url);
}

/// The quotient of `n` by `d`, rounded down.
fn floor_div(n: i128, d: i128) -> (q: i128)
    requires
        0 < d <= i64::MAX,
        -0x4000_0000_0000_0000_0000_0000_0000_0000 < n < 0x4000_0000_0000_0000_0000_0000_0000_0000,
    ensures
        q == n as int / d as int,
{
    if n >= 0 {
        n / d
    } else {
        let m: i128 = -n;
        let q0: i128 = m / d;
        let r0: i128 = m % d;
        proof {
            vstd::arithmetic::div_mod::lemma_fundamental_div_mod(m as int, d as int);
            vstd::arithmetic::div_mod::lemma_div_pos_is_pos(m as int, d as int);
            vstd::arithmetic::div_mod::lemma_div_is_ordered_by_denominator(m as int, 1, d as int);
            vstd::arithmetic::div_mod::lemma_div_basics(m as int);
        }
        if r0 == 0 {
            proof {
                assert(n as int == (-q0) * d + 0) by (nonlinear_arith)
                    requires
                        m == d * q0 + r0,
                        r0 == 0,
                        n == -m,
                ;
                vstd::arithmetic::div_mod::lemma_fundamental_div_mod_converse(
                    n as int,
                    d as int,
                    -q0 as int,
                    0,
                );
            }
            -q0
        } else {
            proof {
                assert(n as int == (-q0 - 1) * d + (d - r0)) by (nonlinear_arith)
                    requires
                        m == d * q0 + r0,
                        n == -m,
                ;
                vstd::arithmetic::div_mod::lemma_fundamental_div_mod_converse(
                    n as int,
                    d as int,
                    -q0 - 1,
                    d - r0,
                );
            }
            -q0 - 1
        }
    }
}

} // verus!
