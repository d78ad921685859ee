//! The radicals that a kanji is made of, looked up in the table of
//! decompositions that `kradical_static` holds.

use vstd::prelude::*;
use vstd::slice::slice_to_vec;

verus! {

/// The row of `kradical_static::DECOMPOSITIONS` at `index`: its kanji, and its
/// radicals in the order of the table. `None` where the table has no row at
/// `index`.
pub uninterp spec fn table_row(index: usize) -> Option<(char, Seq<char>)>;

/// Reads the row of `kradical_static::DECOMPOSITIONS` at `index`: the fields
/// `kanji` and `radicals` of that element of the slice. The table is a constant,
/// so the row at an index is the same at every call, and there is no row at an
/// index exactly where the index is not below the slice's length.
#[verifier::external_body]
fn row(index: usize) -> (r: Option<(char, &'static [char])>)
    ensures
        match r {
            Some((kanji, radicals)) => table_row(index) == Some((kanji, radicals@)),
            None => table_row(index) is None,
        },
{
    kradical_static::DECOMPOSITIONS.get(index).map(|row| (row.kanji, row.radicals))
}

/// Whether the row at `index` is the first row of the table for `literal`.
pub open spec fn is_first_row(literal: char, index: usize) -> bool {
    &&& table_row(index) matches Some((kanji, _)) && kanji == literal
    &&& forall|j: usize|
        j < index ==> (#[trigger] table_row(j) matches Some((kanji, _)) && kanji != literal)
}

/// The radicals of `literal`: those of the first row of the table for it, and
/// none where the table has no row for it.
pub open spec fn spec_decomposition(literal: char) -> Seq<char> {
    if exists|i: usize| is_first_row(literal, i) {
        match table_row(choose|i: usize| is_first_row(literal, i)) {
            Some((_, radicals)) => radicals,
            None => Seq::empty(),
        }
    } else {
        Seq::empty()
    }
}

/// At most one row is the first row for a kanji.
pub proof fn lemma_first_row_unique(literal: char, i: usize, j: usize)
    requires
        is_first_row(literal, i),
        is_first_row(literal, j),
    ensures
        i == j,
{
    if i < j {
        assert(table_row(i) is Some);
    } else if j < i {
        assert(table_row(j) is Some);
    }
}

/// Looks up the radicals that `literal` is made of.
pub fn decomposition(literal: char) -> (r: Vec<char>)
    ensures
        r@ == spec_decomposition(literal),
{
    let mut i: usize = 0;
    loop
        invariant
            forall|j: usize|
                j < i ==> (#[trigger] table_row(j) matches Some((kanji, _)) && kanji != literal),
        decreases usize::MAX - i,
    {
        match row(i) {
            None => {
                assert forall|h: usize| !is_first_row(literal, h) by {
                    if h > i {
                        assert(table_row(i) is None);
                    }
                }
                return Vec::new();
            },
            Some((kanji, radicals)) => {
                if kanji == literal {
                    proof {
                        assert(is_first_row(literal, i));
                        lemma_first_row_unique(
                            literal,
                            i,
                            choose|h: usize| is_first_row(literal, h),
                        );
                    }
                    return slice_to_vec(radicals);
                }
            },
        }
        if i == usize::MAX {
            assert forall|h: usize| !is_first_row(literal, h) by {
                assert(table_row(h) is Some);
            }
            return Vec::new();
        }
        i += 1;
    }
}

} // verus!
