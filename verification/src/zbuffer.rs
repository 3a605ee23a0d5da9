use vstd::prelude::*;

verus! {

/// A depth buffer: one depth per pixel, rows indexed first.
///
/// Depths are ordered keys: a smaller key is nearer to the camera.
pub struct ZBuffer {
    rows: Vec<Vec<u64>>,
}

impl View for ZBuffer {
    type V = Seq<Seq<u64>>;

    closed spec fn view(&self) -> Seq<Seq<u64>> {
        Seq::new(self.rows@.len(), |r: int| self.rows@[r]@)
    }
}

/// The buffer `old` with the cell at (`row`, `col`) replaced by `value`.
pub open spec fn cell_updated(old: Seq<Seq<u64>>, row: int, col: int, value: u64) -> Seq<Seq<u64>> {
    old.update(row, old[row].update(col, value))
}

/// Whether (`row`, `col`) names a cell of `buf`.
pub open spec fn in_bounds(buf: Seq<Seq<u64>>, row: int, col: int) -> bool {
    0 <= row < buf.len() && 0 <= col < buf[row].len()
}

/// The depth test on the buffer `old`: whether `depth` is nearer than the
/// cell (`row`, `col`), and the buffer after it, which keeps the nearer of the
/// two at that cell.
pub open spec fn depth_test(old: Seq<Seq<u64>>, row: int, col: int, depth: u64) -> (bool, Seq<Seq<u64>>) {
    if depth < old[row][col] {
        (true, cell_updated(old, row, col, depth))
    } else {
        (false, old)
    }
}

/// Reading a cell gives back the last depth written there, and a write
/// leaves every other cell as it was.
pub proof fn law_read_after_write(buf: Seq<Seq<u64>>, row: int, col: int, depth: u64, r: int, c: int)
    requires
        in_bounds(buf, row, col),
        in_bounds(buf, r, c),
    ensures
        in_bounds(cell_updated(buf, row, col, depth), r, c),
        cell_updated(buf, row, col, depth)[r][c] == if r == row && c == col { depth } else { buf[r][c] },
{
}

/// After the depth test the cell holds the nearer of the old depth and the
/// tested one, and no other cell changes: a cell's depth never grows.
pub proof fn law_depth_test_keeps_nearest(buf: Seq<Seq<u64>>, row: int, col: int, depth: u64, r: int, c: int)
    requires
        in_bounds(buf, row, col),
        in_bounds(buf, r, c),
    ensures
        depth_test(buf, row, col, depth).1.len() == buf.len(),
        in_bounds(depth_test(buf, row, col, depth).1, r, c),
        depth_test(buf, row, col, depth).1[r][c] == if r == row && c == col {
            if depth < buf[r][c] { depth } else { buf[r][c] }
        } else {
            buf[r][c]
        },
        depth_test(buf, row, col, depth).1[r][c] <= buf[r][c],
{
}

/// Testing the same depth at the same cell twice: the second test never
/// passes and changes nothing.
pub proof fn law_depth_test_idempotent(buf: Seq<Seq<u64>>, row: int, col: int, depth: u64)
    requires
        in_bounds(buf, row, col),
    ensures
        !depth_test(depth_test(buf, row, col, depth).1, row, col, depth).0,
        depth_test(depth_test(buf, row, col, depth).1, row, col, depth).1 == depth_test(buf, row, col, depth).1,
{
}

/// The depth test passes exactly when the tested depth is strictly nearer
/// than the cell, and then the cell holds the tested depth.
pub proof fn law_depth_test_answer(buf: Seq<Seq<u64>>, row: int, col: int, depth: u64)
    requires
        in_bounds(buf, row, col),
    ensures
        depth_test(buf, row, col, depth).0 == (depth < buf[row][col]),
        depth_test(buf, row, col, depth).0 ==> depth_test(buf, row, col, depth).1[row][col] == depth,
        !depth_test(buf, row, col, depth).0 ==> depth_test(buf, row, col, depth).1 == buf,
{
}

/// Whether a hit at `depth` for `pixel` stands against `old`, and the buffer
/// after it: with no pixel the hit stands and nothing changes; with a pixel
/// it is the depth test there.
pub open spec fn hit_test(old: Seq<Seq<u64>>, pixel: Option<(usize, usize)>, depth: u64) -> (bool, Seq<Seq<u64>>) {
    match pixel {
        None => (true, old),
        Some(p) => depth_test(old, p.0 as int, p.1 as int, depth),
    }
}

/// A hit with no pixel to test always stands and leaves the buffer alone; a
/// hit for a pixel stands exactly when it is strictly nearer than that pixel's
/// depth.
pub proof fn law_hit_test_answer(buf: Seq<Seq<u64>>, pixel: Option<(usize, usize)>, depth: u64)
    requires
        pixel matches Some(p) ==> in_bounds(buf, p.0 as int, p.1 as int),
    ensures
        pixel is None ==> hit_test(buf, pixel, depth) == (true, buf),
        pixel matches Some(p) ==> hit_test(buf, pixel, depth).0 == (depth < buf[p.0 as int][p.1 as int]),
{
}

/// Testing a hit never raises a depth and never touches a cell other than
/// the hit's pixel: the buffer keeps its shape, every cell afterwards is at
/// most what it was, and every cell but the pixel's is unchanged.
pub proof fn law_hit_test_only_lowers(buf: Seq<Seq<u64>>, pixel: Option<(usize, usize)>, depth: u64)
    requires
        pixel matches Some(p) ==> in_bounds(buf, p.0 as int, p.1 as int),
    ensures
        hit_test(buf, pixel, depth).1.len() == buf.len(),
        forall|i: int| 0 <= i < buf.len() ==> #[trigger] hit_test(buf, pixel, depth).1[i].len() == buf[i].len(),
        forall|i: int, j: int| #![trigger hit_test(buf, pixel, depth).1[i][j]] in_bounds(buf, i, j) ==> {
            &&& hit_test(buf, pixel, depth).1[i][j] <= buf[i][j]
            &&& !(pixel matches Some(p) && p.0 == i && p.1 == j) ==> hit_test(buf, pixel, depth).1[i][j] == buf[i][j]
        },
{
}

impl ZBuffer {
    /// A buffer of `height` rows of `width` cells, each holding `fill`.
    pub fn new(width: usize, height: usize, fill: u64) -> (z: ZBuffer)
        ensures
            z@.len() == height,
            forall|r: int| 0 <= r < height ==> #[trigger] z@[r] == Seq::new(width as nat, |c: int| fill),
    {
        let mut rows: Vec<Vec<u64>> = Vec::new();
        let mut r: usize = 0;
        while r < height
            invariant
                r <= height,
                rows@.len() == r,
                forall|k: int| 0 <= k < r ==> #[trigger] rows@[k]@ == Seq::new(width as nat, |c: int| fill),
            decreases height - r,
        {
            let mut row: Vec<u64> = Vec::new();
            let mut c: usize = 0;
            while c < width
                invariant
                    c <= width,
                    row@ == Seq::new(c as nat, |i: int| fill),
                decreases width - c,
            {
                row.push(fill);
                c = c + 1;
            }
            rows.push(row);
            r = r + 1;
        }
        ZBuffer { rows }
    }

    /// The number of rows.
    pub fn height(&self) -> (h: usize)
        ensures
            h == self@.len(),
    {
        self.rows.len()
    }

    /// The number of cells in row `row`.
    pub fn row_len(&self, row: usize) -> (w: usize)
        requires
            row < self@.len(),
        ensures
            w == self@[row as int].len(),
    {
        self.rows[row].len()
    }

    /// The depth held at (`row`, `col`).
    pub fn get(&self, row: usize, col: usize) -> (d: u64)
        requires
            in_bounds(self@, row as int, col as int),
        ensures
            d == self@[row as int][col as int],
    {
        self.rows[row][col]
    }

    /// Overwrites the depth at (`row`, `col`) with `depth`.
    pub fn set(&mut self, row: usize, col: usize, depth: u64)
        requires
            in_bounds(old(self)@, row as int, col as int),
        ensures
            final(self)@ == cell_updated(old(self)@, row as int, col as int, depth),
    {
        self.rows[row][col] = depth;
        assert(self@ =~= cell_updated(old(self)@, row as int, col as int, depth));
    }

    /// The depth test: when `depth` is nearer than what (`row`, `col`)
    /// holds, records it there and answers `true`; otherwise leaves the
    /// buffer as it was and answers `false`.
    pub fn record_if_nearer(&mut self, row: usize, col: usize, depth: u64) -> (nearer: bool)
        requires
            in_bounds(old(self)@, row as int, col as int),
        ensures
            (nearer, final(self)@) == depth_test(old(self)@, row as int, col as int, depth),
            nearer == (depth < old(self)@[row as int][col as int]),
            final(self)@[row as int][col as int] == if nearer { depth } else { old(self)@[row as int][col as int] },
    {
        if depth < self.rows[row][col] {
            self.set(row, col, depth);
            true
        } else {
            false
        }
    }

    /// Whether a surface hit at `depth` stands. A hit with no pixel to test
    /// always stands and leaves the buffer alone; a hit for `pixel` stands
    /// exactly when it passes the depth test there, which records it.
    pub fn keep_hit(&mut self, pixel: Option<(usize, usize)>, depth: u64) -> (keep: bool)
        requires
            pixel matches Some(p) ==> in_bounds(old(self)@, p.0 as int, p.1 as int),
        ensures
            (keep, final(self)@) == hit_test(old(self)@, pixel, depth),
            pixel is None ==> keep && final(self)@ == old(self)@,
            pixel matches Some(p) ==> keep == (depth < old(self)@[p.0 as int][p.1 as int]),
    {
        match pixel {
            None => true,
            Some(p) => self.record_if_nearer(p.0, p.1, depth),
        }
    }
}

} // verus!
