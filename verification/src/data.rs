//! The matrix of samples of one series, and its binary encoding.

use vstd::prelude::*;
use vstd::arithmetic::div_mod::lemma_fundamental_div_mod_converse;
use vstd::bytes::{
    lemma_auto_spec_u64_to_from_le_bytes, spec_u64_from_le_bytes, spec_u64_to_le_bytes,
    u64_to_le_bytes,
};

verus! {

/// The samples of one series: `nrows` rows of `ncols` doubles each, held as
/// the bytes that are sent to gnuplot.
///
/// The bytes are the cells in row-major order, each as the eight bytes of its
/// bit pattern, least significant first, with nothing before, between or
/// after them.
#[derive(Debug)]
pub struct Matrix {
    bytes: Vec<u8>,
    ncols: usize,
    nrows: usize,
}

/// What a [`Matrix`] holds.
pub struct MatrixView {
    /// The number of rows.
    pub nrows: nat,
    /// The number of columns.
    pub ncols: nat,
    /// The encoded cells.
    pub bytes: Seq<u8>,
}

impl MatrixView {
    /// The bit pattern of the cell in row `row` and column `col`, decoded
    /// from its eight bytes.
    pub open spec fn cell(self, row: int, col: int) -> u64 {
        spec_u64_from_le_bytes(
            self.bytes.subrange(
                8 * (row * self.ncols + col),
                8 * (row * self.ncols + col) + 8,
            ),
        )
    }

    /// The bytes are eight for each cell.
    pub open spec fn well_formed(self) -> bool {
        self.bytes.len() == self.nrows * self.ncols * 8
    }
}

/// The length of the shortest of `columns`, and zero where there is no
/// column: the number of rows that the columns make.
pub open spec fn shortest(columns: Seq<Seq<u64>>) -> nat
    decreases columns.len(),
{
    if columns.len() == 0 {
        0
    } else if columns.len() == 1 {
        columns[0].len()
    } else if columns.last().len() < shortest(columns.drop_last()) {
        columns.last().len()
    } else {
        shortest(columns.drop_last())
    }
}

/// `matrix` holds the samples of `columns`, the samples of each column scaled
/// by the factor at its position in `factors`: it has one column for each of
/// `columns` and as many rows as the shortest of them has samples, and the
/// cell in row `r` and column `c` is, by `product`, a product of sample `r`
/// of column `c` and the factor of that column.
pub open spec fn holds_scaled(
    matrix: MatrixView,
    columns: Seq<Seq<u64>>,
    factors: Seq<u64>,
    product: spec_fn(u64, u64, u64) -> bool,
) -> bool {
    &&& matrix.ncols == columns.len()
    &&& matrix.nrows == shortest(columns)
    &&& matrix.well_formed()
    &&& forall|c: int| 0 <= c < columns.len() ==> matrix.nrows <= (#[trigger] columns[c]).len()
    &&& forall|r: int, c: int|
        0 <= r < matrix.nrows && 0 <= c < matrix.ncols ==> product(
            columns[c][r],
            factors[c],
            #[trigger] matrix.cell(r, c),
        )
}

/// The triples of a sample, a factor and a result of `scale` for them.
pub open spec fn product_of<S: Fn(u64, u64) -> u64>(scale: S) -> spec_fn(u64, u64, u64) -> bool {
    |sample: u64, factor: u64, scaled: u64| scale.ensures((sample, factor), scaled)
}

/// The views of the columns of a series.
pub open spec fn column_views(columns: Seq<Vec<u64>>) -> Seq<Seq<u64>> {
    columns.map_values(|column: Vec<u64>| column@)
}

/// The encoding of a sequence of cells: the eight bytes of each, in order.
pub open spec fn encoded(cells: Seq<u64>) -> Seq<u8>
    decreases cells.len(),
{
    if cells.len() == 0 {
        Seq::empty()
    } else {
        encoded(cells.drop_last()) + spec_u64_to_le_bytes(cells.last())
    }
}

/// The encoding of `cells` has eight bytes for each cell, and the eight
/// bytes of a cell decode to that cell.
pub proof fn lemma_encoded_cell(cells: Seq<u64>, i: int)
    requires
        0 <= i < cells.len(),
    ensures
        encoded(cells).len() == 8 * cells.len(),
        encoded(cells).subrange(8 * i, 8 * i + 8) == spec_u64_to_le_bytes(cells[i]),
        spec_u64_from_le_bytes(encoded(cells).subrange(8 * i, 8 * i + 8)) == cells[i],
    decreases cells.len(),
{
    lemma_auto_spec_u64_to_from_le_bytes();
    lemma_encoded_len(cells);
    let front = cells.drop_last();
    lemma_encoded_len(front);
    if i == cells.len() - 1 {
        assert(encoded(cells).subrange(8 * i, 8 * i + 8) =~= spec_u64_to_le_bytes(cells[i]));
    } else {
        lemma_encoded_cell(front, i);
        assert(encoded(cells).subrange(8 * i, 8 * i + 8) =~= encoded(front).subrange(
            8 * i,
            8 * i + 8,
        ));
    }
}

/// The encoding of `cells` has eight bytes for each cell.
pub proof fn lemma_encoded_len(cells: Seq<u64>)
    ensures
        encoded(cells).len() == 8 * cells.len(),
    decreases cells.len(),
{
    lemma_auto_spec_u64_to_from_le_bytes();
    if cells.len() > 0 {
        lemma_encoded_len(cells.drop_last());
    }
}

/// What [`itertools::multizip`] yields for a list of rows and a column: the
/// pairs of a row and the sample at the same position in the column, for as
/// many positions as both have.  What the longer of the two holds beyond the
/// length of the shorter is left out.
#[verifier::external_body]
fn zip_rows(rows: Vec<Vec<u64>>, column: &Vec<u64>) -> (pairs: Vec<(Vec<u64>, u64)>)
    ensures
        pairs@.len() <= rows@.len(),
        pairs@.len() <= column@.len(),
        pairs@.len() == rows@.len() || pairs@.len() == column@.len(),
        forall|i: int|
            0 <= i < pairs@.len() ==> (#[trigger] pairs@[i]).0@ == rows@[i]@ && pairs@[i].1
                == column@[i],
{
    itertools::multizip((rows, column.iter().copied())).collect()
}

/// One row for each sample of `column`, holding that sample alone.
fn single_cell_rows(column: &Vec<u64>) -> (rows: Vec<Vec<u64>>)
    ensures
        rows@.len() == column@.len(),
        forall|r: int| 0 <= r < rows@.len() ==> (#[trigger] rows@[r])@ == seq![column@[r]],
{
    let mut rows: Vec<Vec<u64>> = Vec::new();
    let mut r: usize = 0;
    while r < column.len()
        invariant
            r <= column@.len(),
            rows@.len() == r,
            forall|i: int| 0 <= i < r ==> (#[trigger] rows@[i])@ == seq![column@[i]],
        decreases column@.len() - r,
    {
        let mut row: Vec<u64> = Vec::new();
        row.push(column[r]);
        rows.push(row);
        r = r + 1;
    }
    rows
}

/// The rows of `pairs`, each with the sample of its pair as one more cell.
fn widened_rows(pairs: &Vec<(Vec<u64>, u64)>) -> (rows: Vec<Vec<u64>>)
    ensures
        rows@.len() == pairs@.len(),
        forall|r: int|
            0 <= r < rows@.len() ==> (#[trigger] rows@[r])@ == pairs@[r].0@.push(pairs@[r].1),
{
    let mut rows: Vec<Vec<u64>> = Vec::new();
    let mut r: usize = 0;
    while r < pairs.len()
        invariant
            r <= pairs@.len(),
            rows@.len() == r,
            forall|i: int|
                0 <= i < r ==> (#[trigger] rows@[i])@ == pairs@[i].0@.push(pairs@[i].1),
        decreases pairs@.len() - r,
    {
        let mut row: Vec<u64> = Vec::new();
        let mut c: usize = 0;
        while c < pairs[r].0.len()
            invariant
                r < pairs@.len(),
                c <= pairs@[r as int].0@.len(),
                row@ == pairs@[r as int].0@.take(c as int),
            decreases pairs@[r as int].0@.len() - c,
        {
            row.push(pairs[r].0[c]);
            c = c + 1;
        }
        row.push(pairs[r].1);
        rows.push(row);
        r = r + 1;
    }
    rows
}

/// The rows that `columns` make: row `r` holds sample `r` of every column,
/// in the order of the columns.  There are as many rows as the shortest
/// column has samples.
pub fn rows_of(columns: &Vec<Vec<u64>>) -> (rows: Vec<Vec<u64>>)
    ensures
        rows@.len() == shortest(column_views(columns@)),
        forall|r: int| 0 <= r < rows@.len() ==> (#[trigger] rows@[r])@.len() == columns@.len(),
        forall|c: int| 0 <= c < columns@.len() ==> rows@.len() <= (#[trigger] columns@[c])@.len(),
        forall|r: int, c: int|
            0 <= r < rows@.len() && 0 <= c < columns@.len() ==> (#[trigger] rows@[r]@[c])
                == columns@[c]@[r],
{
    if columns.len() == 0 {
        return Vec::new();
    }
    let ghost views = column_views(columns@);
    let mut rows = single_cell_rows(&columns[0]);
    let mut k: usize = 1;
    while k < columns.len()
        invariant
            1 <= k <= columns@.len(),
            views == column_views(columns@),
            rows@.len() == shortest(views.take(k as int)),
            forall|r: int| 0 <= r < rows@.len() ==> (#[trigger] rows@[r])@.len() == k,
            forall|c: int| 0 <= c < k ==> rows@.len() <= (#[trigger] columns@[c])@.len(),
            forall|r: int, c: int|
                0 <= r < rows@.len() && 0 <= c < k ==> (#[trigger] rows@[r]@[c])
                    == columns@[c]@[r],
        decreases columns@.len() - k,
    {
        let pairs = zip_rows(rows, &columns[k]);
        rows = widened_rows(&pairs);
        assert(views.take(k as int + 1).drop_last() =~= views.take(k as int));
        k = k + 1;
    }
    assert(views.take(k as int) =~= views);
    rows
}

impl View for Matrix {
    type V = MatrixView;

    closed spec fn view(&self) -> MatrixView {
        MatrixView { nrows: self.nrows as nat, ncols: self.ncols as nat, bytes: self.bytes@ }
    }
}

impl Clone for Matrix {
    fn clone(&self) -> (matrix: Matrix)
        ensures
            matrix@ == self@,
    {
        proof {
            use_type_invariant(self);
        }
        let bytes = self.bytes.clone();
        Matrix { bytes, ncols: self.ncols, nrows: self.nrows }
    }
}

impl Matrix {
    #[verifier::type_invariant]
    spec fn eight_bytes_a_cell(&self) -> bool {
        self.bytes@.len() == self.nrows * self.ncols * 8
    }

    /// The matrix of the samples in `columns`, each column scaled by the
    /// factor at its position in `factors`.
    ///
    /// Samples and factors are bit patterns of doubles, and `scale` is asked
    /// for the product of each sample and the factor of its column.  The
    /// matrix has one column for each of `columns` and as many rows as the
    /// shortest of them has samples: what the longer columns hold beyond
    /// that is left out.
    pub fn new<F: Fn(u64, u64) -> u64>(
        columns: &Vec<Vec<u64>>,
        factors: &Vec<u64>,
        scale: &F,
    ) -> (matrix: Matrix)
        requires
            columns@.len() == factors@.len(),
            forall|sample: u64, factor: u64| scale.requires((sample, factor)),
        ensures
            holds_scaled(matrix@, column_views(columns@), factors@, product_of(*scale)),
    {
        let rows = rows_of(columns);
        let ncols: usize = columns.len();
        let nrows: usize = rows.len();
        let mut bytes: Vec<u8> = Vec::new();
        let ghost mut cells: Seq<u64> = Seq::empty();
        let mut r: usize = 0;
        while r < nrows
            invariant
                r <= nrows,
                nrows == rows@.len(),
                ncols == columns@.len(),
                ncols == factors@.len(),
                forall|sample: u64, factor: u64| scale.requires((sample, factor)),
                forall|i: int| 0 <= i < rows@.len() ==> (#[trigger] rows@[i])@.len() == ncols,
                cells.len() == r * ncols,
                bytes@ == encoded(cells),
                forall|i: int|
                    0 <= i < cells.len() ==> scale.ensures(
                        (rows@[i / ncols as int]@[i % ncols as int], factors@[i % ncols as int]),
                        #[trigger] cells[i],
                    ),
            decreases nrows - r,
        {
            let mut c: usize = 0;
            while c < ncols
                invariant
                    r < nrows,
                    c <= ncols,
                    nrows == rows@.len(),
                    ncols == factors@.len(),
                    rows@[r as int]@.len() == ncols,
                    forall|sample: u64, factor: u64| scale.requires((sample, factor)),
                    cells.len() == r * ncols + c,
                    bytes@ == encoded(cells),
                    forall|i: int|
                        0 <= i < cells.len() ==> scale.ensures(
                            (
                                rows@[i / ncols as int]@[i % ncols as int],
                                factors@[i % ncols as int],
                            ),
                            #[trigger] cells[i],
                        ),
                decreases ncols - c,
            {
                let cell: u64 = scale(rows[r][c], factors[c]);
                let mut eight = u64_to_le_bytes(cell);
                bytes.append(&mut eight);
                proof {
                    let index = cells.len() as int;
                    lemma_fundamental_div_mod_converse(index, ncols as int, r as int, c as int);
                    let longer = cells.push(cell);
                    assert(longer.drop_last() =~= cells);
                    cells = longer;
                }
                c = c + 1;
            }
            assert(r * ncols + ncols == (r + 1) * ncols) by (nonlinear_arith);
            r = r + 1;
        }
        proof {
            lemma_encoded_len(cells);
            assert(nrows * ncols * 8 == 8 * (nrows * ncols)) by (nonlinear_arith);
        }
        let matrix = Matrix { bytes, ncols, nrows };
        proof {
            assert forall|r: int, c: int| 0 <= r < nrows && 0 <= c < ncols implies scale.ensures(
                (columns@[c]@[r], factors@[c]),
                #[trigger] matrix@.cell(r, c),
            ) by {
                let index = r * ncols + c;
                assert(0 <= index < nrows * ncols) by (nonlinear_arith)
                    requires
                        0 <= r < nrows,
                        0 <= c < ncols,
                        index == r * ncols + c,
                ;
                lemma_fundamental_div_mod_converse(index, ncols as int, r, c);
                lemma_encoded_cell(cells, index);
            }
        }
        matrix
    }

    /// The encoded cells: eight bytes for each.
    pub fn bytes(&self) -> (bytes: &[u8])
        ensures
            bytes@ == self@.bytes,
            bytes@.len() == self@.nrows * self@.ncols * 8,
            self@.well_formed(),
    {
        proof {
            use_type_invariant(self);
        }
        self.bytes.as_slice()
    }

    /// The number of columns.
    pub fn ncols(&self) -> (ncols: usize)
        ensures
            ncols == self@.ncols,
    {
        self.ncols
    }

    /// The number of rows.
    pub fn nrows(&self) -> (nrows: usize)
        ensures
            nrows == self@.nrows,
    {
        self.nrows
    }
}


/// Where every column has `n` samples, so many rows do the columns make,
/// if there is a column at all.
pub proof fn lemma_shortest_of_equal_columns(columns: Seq<Seq<u64>>, n: nat)
    requires
        columns.len() > 0,
        forall|c: int| 0 <= c < columns.len() ==> (#[trigger] columns[c]).len() == n,
    ensures
        shortest(columns) == n,
    decreases columns.len(),
{
    if columns.len() > 1 {
        lemma_shortest_of_equal_columns(columns.drop_last(), n);
    }
}

/// A matrix made of `k` columns of `n` samples each holds `n * k * 8` bytes,
/// and the eight bytes of each cell decode to the product of the sample and
/// the factor of its column, where `times` is what the scaling computes.
pub proof fn lemma_matrix_of_equal_columns(
    matrix: MatrixView,
    columns: Seq<Seq<u64>>,
    factors: Seq<u64>,
    times: spec_fn(u64, u64) -> u64,
    n: nat,
)
    requires
        columns.len() > 0,
        forall|c: int| 0 <= c < columns.len() ==> (#[trigger] columns[c]).len() == n,
        holds_scaled(
            matrix,
            columns,
            factors,
            |sample: u64, factor: u64, scaled: u64| scaled == times(sample, factor),
        ),
    ensures
        matrix.bytes.len() == n * columns.len() * 8,
        forall|r: int, c: int|
            0 <= r < n && 0 <= c < columns.len() ==> #[trigger] matrix.cell(r, c) == times(
                columns[c][r],
                factors[c],
            ),
{
    lemma_shortest_of_equal_columns(columns, n);
}

} // verus!
