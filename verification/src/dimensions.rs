//! The dimension of a point set, as recorded in a cell of the intersection matrix.

use std::cmp::Ordering;
use vstd::prelude::*;
use vstd::std_specs::cmp::PartialOrdSpecImpl;

verus! {

/// The dimension of the intersection of two point sets.
///
/// The variants are totally ordered: `Empty < ZeroDimensional < OneDimensional
/// < TwoDimensional`.
#[derive(Clone, Copy, Debug, PartialEq, Eq, Structural, Ord, Hash)]
pub enum Dimensions {
    /// The point sets do not meet.
    Empty,
    /// They meet in isolated points.
    ZeroDimensional,
    /// They meet along lines.
    OneDimensional,
    /// They share an area.
    TwoDimensional,
}

impl Dimensions {
    /// Position in the total order, from 0 for `Empty` to 3 for `TwoDimensional`.
    pub open spec fn rank(self) -> nat {
        match self {
            Dimensions::Empty => 0,
            Dimensions::ZeroDimensional => 1,
            Dimensions::OneDimensional => 2,
            Dimensions::TwoDimensional => 3,
        }
    }

    /// The character that stands for this dimension in a matrix pattern:
    /// `F` for `Empty`, then `0`, `1` and `2`.
    pub open spec fn to_char(self) -> char {
        match self {
            Dimensions::Empty => 'F',
            Dimensions::ZeroDimensional => '0',
            Dimensions::OneDimensional => '1',
            Dimensions::TwoDimensional => '2',
        }
    }

    /// The dimension that a character of a matrix pattern stands for; `None`
    /// for a character outside `F`, `0`, `1`, `2`.
    pub open spec fn spec_from_char(c: char) -> Option<Dimensions> {
        if c == 'F' {
            Some(Dimensions::Empty)
        } else if c == '0' {
            Some(Dimensions::ZeroDimensional)
        } else if c == '1' {
            Some(Dimensions::OneDimensional)
        } else if c == '2' {
            Some(Dimensions::TwoDimensional)
        } else {
            None
        }
    }

    /// The dimension that a character of a matrix pattern stands for.
    #[verifier::when_used_as_spec(spec_from_char)]
    pub fn from_char(c: char) -> (r: Option<Dimensions>)
        ensures
            r == Self::spec_from_char(c),
            r matches Some(d) ==> d.to_char() == c,
    {
        if c == 'F' {
            Some(Dimensions::Empty)
        } else if c == '0' {
            Some(Dimensions::ZeroDimensional)
        } else if c == '1' {
            Some(Dimensions::OneDimensional)
        } else if c == '2' {
            Some(Dimensions::TwoDimensional)
        } else {
            None
        }
    }

    /// The one-character string that stands for this dimension in a matrix
    /// pattern.
    pub fn to_str(self) -> (s: &'static str)
        ensures
            s@ == seq![self.to_char()],
    {
        proof {
            reveal_strlit("F");
            reveal_strlit("0");
            reveal_strlit("1");
            reveal_strlit("2");
        }
        let s = match self {
            Dimensions::Empty => "F",
            Dimensions::ZeroDimensional => "0",
            Dimensions::OneDimensional => "1",
            Dimensions::TwoDimensional => "2",
        };
        assert(s@ =~= seq![self.to_char()]);
        s
    }

    /// The larger of two dimensions.
    pub open spec fn spec_max(self, other: Dimensions) -> Dimensions {
        if self.rank() < other.rank() {
            other
        } else {
            self
        }
    }

    /// The larger of two dimensions.
    pub fn max(self, other: Dimensions) -> (r: Dimensions)
        ensures
            r == self.spec_max(other),
    {
        if self < other {
            other
        } else {
            self
        }
    }
}

impl PartialOrd for Dimensions {
    fn partial_cmp(&self, other: &Dimensions) -> (r: Option<Ordering>) {
        let a: u8 = match self {
            Dimensions::Empty => 0,
            Dimensions::ZeroDimensional => 1,
            Dimensions::OneDimensional => 2,
            Dimensions::TwoDimensional => 3,
        };
        let b: u8 = match other {
            Dimensions::Empty => 0,
            Dimensions::ZeroDimensional => 1,
            Dimensions::OneDimensional => 2,
            Dimensions::TwoDimensional => 3,
        };
        if a < b {
            Some(Ordering::Less)
        } else if a > b {
            Some(Ordering::Greater)
        } else {
            Some(Ordering::Equal)
        }
    }
}

impl PartialOrdSpecImpl for Dimensions {
    open spec fn obeys_partial_cmp_spec() -> bool {
        true
    }

    open spec fn partial_cmp_spec(&self, other: &Dimensions) -> Option<Ordering> {
        if self.rank() < other.rank() {
            Some(Ordering::Less)
        } else if self.rank() > other.rank() {
            Some(Ordering::Greater)
        } else {
            Some(Ordering::Equal)
        }
    }
}

/// Reading the character of a dimension gives the dimension back, and the
/// character of a dimension read from a pattern character is that character.
pub proof fn lemma_char_round_trip(d: Dimensions, c: char)
    ensures
        Dimensions::spec_from_char(d.to_char()) == Some(d),
        Dimensions::spec_from_char(c) matches Some(e) ==> e.to_char() == c,
{
}

/// The order of the dimensions is total: of two dimensions exactly one is
/// below the other unless they are equal, and `spec_max` is the upper one of
/// the two, whichever comes first.
pub proof fn lemma_max_is_upper_bound(a: Dimensions, b: Dimensions)
    ensures
        a.rank() == b.rank() <==> a == b,
        a.spec_max(b) == b.spec_max(a),
        a.spec_max(b).rank() >= a.rank(),
        a.spec_max(b).rank() >= b.rank(),
        a.spec_max(b) == a || a.spec_max(b) == b,
{
}

} // verus!
