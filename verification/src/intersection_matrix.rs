//! The DE-9IM intersection matrix.

use crate::dimensions::Dimensions;
use crate::location::Location;
use vstd::prelude::*;
use vstd::string::{StrSliceExecFns, StringExecFns};

verus! {

/// Why a string is no pattern of an intersection matrix.
#[derive(Clone, Copy, Debug, PartialEq, Eq, Structural, Hash)]
pub enum MalformedPatternString {
    /// The string does not have exactly nine characters.
    WrongLength,
    /// The string has nine characters, and the one at `position` is the first
    /// that is none of `F`, `0`, `1`, `2`.
    UnrecognizedCharacter { position: usize },
}

/// The 3×3 matrix of the dimensions in which the interior, boundary and
/// exterior of one geometry meet the interior, boundary and exterior of
/// another.
///
/// The view of a matrix is the sequence of its nine cells, row by row: the
/// cell for the locations `a` in the first geometry and `b` in the second
/// stands at `cell_index(a, b)`.
///
/// The textual form of a matrix is its pattern, which [`render`](Self::render)
/// gives; the type has no other.
#[derive(Clone, Copy, PartialEq, Eq, Hash)]
pub struct IntersectionMatrix {
    rows: [[Dimensions; 3]; 3],
}

/// The place of the cell for the locations `a` and `b` in the row-major
/// sequence of the nine cells.
pub open spec fn cell_index(a: Location, b: Location) -> int {
    3 * a.index() + b.index()
}

/// Whether `pattern` is made of exactly nine characters out of `F`, `0`, `1`
/// and `2`.
pub open spec fn is_pattern(pattern: Seq<char>) -> bool {
    &&& pattern.len() == 9
    &&& forall|i: int| 0 <= i < 9 ==> Dimensions::spec_from_char(#[trigger] pattern[i]) is Some
}

/// The nine dimensions that a well-formed pattern stands for.
pub open spec fn parse_pattern(pattern: Seq<char>) -> Seq<Dimensions> {
    Seq::new(9, |i: int| Dimensions::spec_from_char(pattern[i]).unwrap())
}

/// The pattern that stands for nine dimensions.
pub open spec fn render_cells(cells: Seq<Dimensions>) -> Seq<char> {
    Seq::new(cells.len(), |i: int| cells[i].to_char())
}

/// The cells after the one at `index` has been raised to at least
/// `minimum`: it holds the larger of its old value and `minimum`, the others
/// are unchanged.
pub open spec fn raise_cell(cells: Seq<Dimensions>, index: int, minimum: Dimensions) -> Seq<
    Dimensions,
> {
    cells.update(index, cells[index].spec_max(minimum))
}

/// The cells after each has been raised to at least the dimension at the same
/// place in `minimums`.
pub open spec fn raise_cells(cells: Seq<Dimensions>, minimums: Seq<Dimensions>) -> Seq<
    Dimensions,
> {
    Seq::new(cells.len(), |i: int| cells[i].spec_max(minimums[i]))
}

impl View for IntersectionMatrix {
    type V = Seq<Dimensions>;

    closed spec fn view(&self) -> Seq<Dimensions> {
        Seq::new(9, |i: int| self.rows[i / 3][i % 3])
    }
}

impl IntersectionMatrix {
    /// The dimension in the cell for the locations `a` and `b`.
    pub open spec fn cell(&self, a: Location, b: Location) -> Dimensions {
        self@[cell_index(a, b)]
    }

    /// A matrix always has nine cells.
    pub proof fn lemma_nine_cells(&self)
        ensures
            self@.len() == 9,
    {
    }

    /// The matrix in which every cell is `Empty`.
    pub fn empty() -> (matrix: IntersectionMatrix)
        ensures
            matrix@ == Seq::new(9, |i: int| Dimensions::Empty),
    {
        let matrix = IntersectionMatrix { rows: [[Dimensions::Empty; 3]; 3] };
        assert(matrix@ =~= Seq::new(9, |i: int| Dimensions::Empty));
        matrix
    }

    /// The matrix with the given rows.
    pub fn new(dimensions: [[Dimensions; 3]; 3]) -> (matrix: IntersectionMatrix)
        ensures
            matrix@.len() == 9,
            forall|a: int, b: int|
                0 <= a < 3 && 0 <= b < 3 ==> matrix@[3 * a + b] == #[trigger] dimensions[a][b],
    {
        IntersectionMatrix { rows: dimensions }
    }

    /// The dimension in the cell for the locations `a` and `b`.
    pub fn get(&self, location_a: Location, location_b: Location) -> (dimensionality: Dimensions)
        ensures
            dimensionality == self.cell(location_a, location_b),
    {
        self.rows[location_a.to_index()][location_b.to_index()]
    }

    /// Overwrites the cell for the locations `a` and `b`.
    pub fn set(&mut self, location_a: Location, location_b: Location, dimensionality: Dimensions)
        ensures
            final(self)@ == old(self)@.update(cell_index(location_a, location_b), dimensionality),
    {
        let a: usize = location_a.to_index();
        let b: usize = location_b.to_index();
        self.rows[a][b] = dimensionality;
        assert(self@ =~= old(self)@.update(cell_index(location_a, location_b), dimensionality));
    }

    /// Raises the cell for the locations `a` and `b` to at least
    /// `minimum_dimension_value`: the cell is overwritten only if it holds a
    /// smaller dimension, and never lowered.
    pub fn set_at_least(
        &mut self,
        location_a: Location,
        location_b: Location,
        minimum_dimension_value: Dimensions,
    )
        ensures
            final(self)@ == raise_cell(
                old(self)@,
                cell_index(location_a, location_b),
                minimum_dimension_value,
            ),
            final(self).cell(location_a, location_b) == old(self).cell(
                location_a,
                location_b,
            ).spec_max(minimum_dimension_value),
    {
        let a: usize = location_a.to_index();
        let b: usize = location_b.to_index();
        if self.rows[a][b] < minimum_dimension_value {
            self.rows[a][b] = minimum_dimension_value;
        }
        assert(self@ =~= raise_cell(
            old(self)@,
            cell_index(location_a, location_b),
            minimum_dimension_value,
        ));
    }

    /// Raises the cell for the two locations to at least
    /// `minimum_dimension_value` where both locations are determined, and does
    /// nothing where one of them is not.
    pub fn set_at_least_if_valid(
        &mut self,
        location_a: Option<Location>,
        location_b: Option<Location>,
        minimum_dimension_value: Dimensions,
    )
        ensures
            final(self)@ == raise_cell_if_valid(
                old(self)@,
                location_a,
                location_b,
                minimum_dimension_value,
            ),
    {
        if let Some(location_a) = location_a {
            if let Some(location_b) = location_b {
                self.set_at_least(location_a, location_b, minimum_dimension_value);
            }
        }
    }

    /// Raises each cell to at least the dimension that the character at its
    /// place in `dimensions` stands for, row by row.
    ///
    /// A string that is no pattern is refused, and the matrix is then left
    /// untouched.
    pub fn set_at_least_from_string(&mut self, dimensions: &str) -> (result: Result<
        (),
        MalformedPatternString,
    >)
        ensures
            result is Ok <==> is_pattern(dimensions@),
            result is Ok ==> final(self)@ == raise_cells(old(self)@, parse_pattern(dimensions@)),
            result is Err ==> *final(self) == *old(self),
            result == Err::<(), _>(MalformedPatternString::WrongLength) <==> dimensions@.len()
                != 9,
            result matches Err(MalformedPatternString::UnrecognizedCharacter { position }) ==> {
                &&& dimensions@.len() == 9
                &&& position < 9
                &&& Dimensions::spec_from_char(dimensions@[position as int]) is None
                &&& forall|i: int|
                    0 <= i < position ==> Dimensions::spec_from_char(
                        #[trigger] dimensions@[i],
                    ) is Some
            },
    {
        if dimensions.unicode_len() != 9 {
            return Err(MalformedPatternString::WrongLength);
        }
        let mut minimums: [Dimensions; 9] = [Dimensions::Empty; 9];
        let mut i: usize = 0;
        while i < 9
            invariant
                i <= 9,
                dimensions@.len() == 9,
                *self == *old(self),
                forall|j: int|
                    0 <= j < i ==> Dimensions::spec_from_char(#[trigger] dimensions@[j]) == Some(
                        minimums[j],
                    ),
            decreases 9 - i,
        {
            match Dimensions::from_char(dimensions.get_char(i)) {
                Some(d) => {
                    minimums[i] = d;
                },
                None => {
                    return Err(MalformedPatternString::UnrecognizedCharacter { position: i });
                },
            }
            i += 1;
        }
        assert(minimums@ =~= parse_pattern(dimensions@));
        let mut k: usize = 0;
        while k < 9
            invariant
                k <= 9,
                self@.len() == 9,
                forall|j: int| 0 <= j < k ==> self@[j] == old(self)@[j].spec_max(minimums[j]),
                forall|j: int| k <= j < 9 ==> self@[j] == old(self)@[j],
            decreases 9 - k,
        {
            let a: usize = k / 3;
            let b: usize = k % 3;
            let ghost before = self@;
            if self.rows[a][b] < minimums[k] {
                self.rows[a][b] = minimums[k];
            }
            assert(self@ =~= before.update(k as int, before[k as int].spec_max(minimums[k as int])));
            k += 1;
        }
        assert(self@ =~= raise_cells(old(self)@, parse_pattern(dimensions@)));
        Ok(())
    }

    /// The matrix that a pattern stands for.
    pub fn from_str(str: &str) -> (result: Result<IntersectionMatrix, MalformedPatternString>)
        ensures
            result is Ok <==> is_pattern(str@),
            result matches Ok(matrix) ==> matrix@ == parse_pattern(str@),
            result == Err::<IntersectionMatrix, _>(MalformedPatternString::WrongLength)
                <==> str@.len() != 9,
            result matches Err(MalformedPatternString::UnrecognizedCharacter { position }) ==> {
                &&& str@.len() == 9
                &&& position < 9
                &&& Dimensions::spec_from_char(str@[position as int]) is None
                &&& forall|i: int|
                    0 <= i < position ==> Dimensions::spec_from_char(#[trigger] str@[i]) is Some
            },
    {
        let mut im = IntersectionMatrix::empty();
        match im.set_at_least_from_string(str) {
            Ok(()) => {
                assert(im@ =~= parse_pattern(str@));
                Ok(im)
            },
            Err(e) => Err(e),
        }
    }

    /// The pattern of the matrix: nine characters, row by row, `F` for an
    /// empty cell and `0`, `1`, `2` for the others.
    pub fn render(&self) -> (text: String)
        ensures
            text@ == render_cells(self@),
            is_pattern(text@),
    {
        let mut text = String::new();
        let mut k: usize = 0;
        while k < 9
            invariant
                k <= 9,
                text@ == render_cells(self@.take(k as int)),
            decreases 9 - k,
        {
            let a: usize = k / 3;
            let b: usize = k % 3;
            text.append(self.rows[a][b].to_str());
            assert(text@ =~= render_cells(self@.take(k + 1)));
            k += 1;
        }
        assert(self@.take(9) =~= self@);
        text
    }
}

/// The cells after the one for the two locations has been raised to at least
/// `minimum`, where both locations are determined; the cells as they were,
/// where one of them is not.
pub open spec fn raise_cell_if_valid(
    cells: Seq<Dimensions>,
    a: Option<Location>,
    b: Option<Location>,
    minimum: Dimensions,
) -> Seq<Dimensions> {
    match (a, b) {
        (Some(a), Some(b)) => raise_cell(cells, cell_index(a, b), minimum),
        _ => cells,
    }
}

/// Raising cells is a commutative merge: two calls of `set_at_least`, on the
/// same cell or on two different ones, leave the same matrix in either order.
pub proof fn lemma_set_at_least_commutes(
    matrix: IntersectionMatrix,
    a1: Location,
    b1: Location,
    d1: Dimensions,
    a2: Location,
    b2: Location,
    d2: Dimensions,
)
    ensures
        raise_cell(raise_cell(matrix@, cell_index(a1, b1), d1), cell_index(a2, b2), d2)
            == raise_cell(raise_cell(matrix@, cell_index(a2, b2), d2), cell_index(a1, b1), d1),
{
    let first = raise_cell(raise_cell(matrix@, cell_index(a1, b1), d1), cell_index(a2, b2), d2);
    let second = raise_cell(raise_cell(matrix@, cell_index(a2, b2), d2), cell_index(a1, b1), d1);
    assert(first =~= second);
}

/// Two calls of `set_at_least` on one cell, with the dimensions `d1 <= d2`,
/// leave `d2` in the cell in either order, provided that the cell held at
/// most `d2` before.
pub proof fn lemma_set_at_least_yields_larger(
    matrix: IntersectionMatrix,
    a: Location,
    b: Location,
    d1: Dimensions,
    d2: Dimensions,
)
    requires
        d1.rank() <= d2.rank(),
        matrix.cell(a, b).rank() <= d2.rank(),
    ensures
        raise_cell(raise_cell(matrix@, cell_index(a, b), d1), cell_index(a, b), d2)[cell_index(
            a,
            b,
        )] == d2,
        raise_cell(raise_cell(matrix@, cell_index(a, b), d2), cell_index(a, b), d1)[cell_index(
            a,
            b,
        )] == d2,
{
}

/// `set_at_least` never lowers a cell: every cell holds afterwards at least
/// what it held before, and the cell that was named holds at least the
/// minimum.
pub proof fn lemma_set_at_least_never_lowers(
    matrix: IntersectionMatrix,
    a: Location,
    b: Location,
    minimum: Dimensions,
)
    ensures
        forall|i: int|
            0 <= i < 9 ==> (#[trigger] raise_cell(matrix@, cell_index(a, b), minimum)[i]).rank()
                >= matrix@[i].rank(),
        raise_cell(matrix@, cell_index(a, b), minimum)[cell_index(a, b)].rank() >= minimum.rank(),
{
}

/// Rendering the cells that a well-formed pattern stands for gives the
/// pattern back.
pub proof fn lemma_render_parse_round_trip(pattern: Seq<char>)
    requires
        is_pattern(pattern),
    ensures
        render_cells(parse_pattern(pattern)) == pattern,
{
    assert(render_cells(parse_pattern(pattern)) =~= pattern);
}

/// The pattern of a matrix is well formed, and parsing it gives the cells of
/// the matrix back.
pub proof fn lemma_parse_render_round_trip(matrix: IntersectionMatrix)
    ensures
        is_pattern(render_cells(matrix@)),
        parse_pattern(render_cells(matrix@)) == matrix@,
{
    assert(parse_pattern(render_cells(matrix@)) =~= matrix@);
}

} // verus!
