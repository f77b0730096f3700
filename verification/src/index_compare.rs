//! Holding two indexes against each other.

use vstd::prelude::*;
use crate::index_data::{find_text, TestIndex};
use crate::text::texts;

verus! {

/// A file that one of two indexes touches and the other does not.
#[derive(Debug, Clone)]
pub enum TouchSameFilesDifference {
    /// The first index touches the file, the second does not.
    TouchedByFirstOnly(String),
    /// The second index touches the file, the first does not.
    TouchedBySecondOnly(String),
}

/// A difference as a plain value.
pub enum DifferenceView {
    /// The first index touches the file, the second does not.
    TouchedByFirstOnly(Seq<char>),
    /// The second index touches the file, the first does not.
    TouchedBySecondOnly(Seq<char>),
}

impl View for TouchSameFilesDifference {
    type V = DifferenceView;

    open spec fn view(&self) -> DifferenceView {
        match *self {
            TouchSameFilesDifference::TouchedByFirstOnly(f) => DifferenceView::TouchedByFirstOnly(
                f@,
            ),
            TouchSameFilesDifference::TouchedBySecondOnly(f) => DifferenceView::TouchedBySecondOnly(
                f@,
            ),
        }
    }
}

/// The differences between two indexes.
#[derive(Debug)]
pub struct IndexCompareDifferences {
    differences: Vec<TouchSameFilesDifference>,
}

/// The differences as plain values, in order.
pub open spec fn difference_views(d: Seq<TouchSameFilesDifference>) -> Seq<DifferenceView> {
    d.map_values(|x: TouchSameFilesDifference| x@)
}

impl IndexCompareDifferences {
    /// The differences, as plain values.
    pub closed spec fn view_differences(self) -> Seq<DifferenceView> {
        difference_views(self.differences@)
    }

    /// The differences, handed over.
    pub fn into_differences(self) -> (r: Vec<TouchSameFilesDifference>)
        ensures
            difference_views(r@) == self.view_differences(),
    {
        self.differences
    }

    /// The differences.
    pub fn differences(&self) -> (r: &Vec<TouchSameFilesDifference>)
        ensures
            difference_views(r@) == self.view_differences(),
    {
        &self.differences
    }
}

/// The files of `files` that are not among `others`, in order.
pub open spec fn only_in(files: Seq<Seq<char>>, others: Seq<Seq<char>>) -> Seq<Seq<char>>
    decreases files.len(),
{
    if files.len() == 0 {
        Seq::empty()
    } else {
        let before = only_in(files.drop_last(), others);
        if others.contains(files.last()) {
            before
        } else {
            before.push(files.last())
        }
    }
}

/// The differences between indexes with the files `a` and `b`: the files that
/// only the first touches, then those that only the second touches, each in
/// the order of its index.
pub open spec fn differences_between(a: Seq<Seq<char>>, b: Seq<Seq<char>>) -> Seq<DifferenceView> {
    only_in(a, b).map_values(|f: Seq<char>| DifferenceView::TouchedByFirstOnly(f)) + only_in(
        b,
        a,
    ).map_values(|f: Seq<char>| DifferenceView::TouchedBySecondOnly(f))
}

/// Holds the files of two indexes against each other. Succeeds where both
/// touch the same files; otherwise gives the differences.
pub fn compare_indexes_touch_same_files(index_a: &TestIndex, index_b: &TestIndex) -> (r: Result<
    (),
    IndexCompareDifferences,
>)
    ensures
        r.is_ok() == (differences_between(texts(index_a.files@), texts(index_b.files@)).len()
            == 0),
        match r {
            Ok(_) => true,
            Err(d) => d.view_differences() == differences_between(
                texts(index_a.files@),
                texts(index_b.files@),
            ),
        },
{
    let ghost a = texts(index_a.files@);
    let ghost b = texts(index_b.files@);
    let mut differences: Vec<TouchSameFilesDifference> = Vec::new();
    let mut i: usize = 0;
    assert(difference_views(differences@) =~= only_in(a.take(0), b).map_values(
        |f: Seq<char>| DifferenceView::TouchedByFirstOnly(f),
    ));
    while i < index_a.files.len()
        invariant
            i <= index_a.files.len(),
            a == texts(index_a.files@),
            b == texts(index_b.files@),
            difference_views(differences@) == only_in(a.take(i as int), b).map_values(
                |f: Seq<char>| DifferenceView::TouchedByFirstOnly(f),
            ),
        decreases index_a.files.len() - i,
    {
        assert(a.take(i + 1).drop_last() =~= a.take(i as int));
        assert(a.take(i + 1).last() == index_a.files@[i as int]@);
        if find_text(&index_b.files, index_a.files[i].as_str()).is_none() {
            let ghost before = differences@;
            differences.push(
                TouchSameFilesDifference::TouchedByFirstOnly(index_a.files[i].clone()),
            );
            assert(difference_views(differences@) =~= difference_views(before).push(
                DifferenceView::TouchedByFirstOnly(index_a.files@[i as int]@),
            ));
            assert(only_in(a.take(i + 1), b).map_values(
                |f: Seq<char>| DifferenceView::TouchedByFirstOnly(f),
            ) =~= only_in(a.take(i as int), b).map_values(
                |f: Seq<char>| DifferenceView::TouchedByFirstOnly(f),
            ).push(DifferenceView::TouchedByFirstOnly(index_a.files@[i as int]@)));
        }
        i += 1;
    }
    assert(a.take(a.len() as int) =~= a);
    let ghost first = difference_views(differences@);
    let mut j: usize = 0;
    assert(difference_views(differences@) =~= first + only_in(b.take(0), a).map_values(
        |f: Seq<char>| DifferenceView::TouchedBySecondOnly(f),
    ));
    while j < index_b.files.len()
        invariant
            j <= index_b.files.len(),
            a == texts(index_a.files@),
            b == texts(index_b.files@),
            difference_views(differences@) == first + only_in(b.take(j as int), a).map_values(
                |f: Seq<char>| DifferenceView::TouchedBySecondOnly(f),
            ),
        decreases index_b.files.len() - j,
    {
        assert(b.take(j + 1).drop_last() =~= b.take(j as int));
        assert(b.take(j + 1).last() == index_b.files@[j as int]@);
        if find_text(&index_a.files, index_b.files[j].as_str()).is_none() {
            let ghost before = differences@;
            differences.push(
                TouchSameFilesDifference::TouchedBySecondOnly(index_b.files[j].clone()),
            );
            assert(difference_views(differences@) =~= difference_views(before).push(
                DifferenceView::TouchedBySecondOnly(index_b.files@[j as int]@),
            ));
            assert(only_in(b.take(j + 1), a).map_values(
                |f: Seq<char>| DifferenceView::TouchedBySecondOnly(f),
            ) =~= only_in(b.take(j as int), a).map_values(
                |f: Seq<char>| DifferenceView::TouchedBySecondOnly(f),
            ).push(DifferenceView::TouchedBySecondOnly(index_b.files@[j as int]@)));
        }
        j += 1;
    }
    assert(b.take(b.len() as int) =~= b);
    assert(difference_views(differences@).len() == differences@.len());
    if differences.len() == 0 {
        Ok(())
    } else {
        Err(IndexCompareDifferences { differences })
    }
}

} // verus!
