//! The local mirror of the remote file list: one row per remote file, each
//! with a selection mark, and the search filter that decides which rows show.

use crate::sequences::{
    lemma_filter_agrees, lemma_filter_keeps_all, lemma_filter_members, lemma_filter_take_step,
    lemma_filter_twice,
};
use crate::text::{contains, lemma_empty_occurs, lowercase, occurs_in, to_lowercase};
use vstd::prelude::*;

verus! {

/// One remote file as the client lists it.
#[derive(Debug, Clone, PartialEq, Eq)]
pub struct PackageRow {
    /// Whether the user has marked the file for a batch action.
    pub checked: bool,
    /// The name under which the server knows the file.
    pub filename: String,
}

/// The mathematical value of a [`PackageRow`].
pub struct RowView {
    pub checked: bool,
    pub filename: Seq<char>,
}

impl View for PackageRow {
    type V = RowView;

    open spec fn view(&self) -> RowView {
        RowView { checked: self.checked, filename: self.filename@ }
    }
}

impl DeepView for PackageRow {
    type V = RowView;

    open spec fn deep_view(&self) -> RowView {
        self@
    }
}

/// One unmarked row for each name, in the order of the names.
pub open spec fn fresh_rows(names: Seq<Seq<char>>) -> Seq<RowView> {
    names.map_values(|name: Seq<char>| RowView { checked: false, filename: name })
}

/// The same rows with every mark set to `checked`.
pub open spec fn with_all_checked(rows: Seq<RowView>, checked: bool) -> Seq<RowView> {
    rows.map_values(|row: RowView| RowView { checked, filename: row.filename })
}

/// The same rows with the mark of row `index` flipped; the rows unchanged
/// where there is no such row.
pub open spec fn with_toggled(rows: Seq<RowView>, index: int) -> Seq<RowView> {
    if 0 <= index < rows.len() {
        rows.update(
            index,
            RowView { checked: !rows[index].checked, filename: rows[index].filename },
        )
    } else {
        rows
    }
}

/// The names of the marked rows, in the order of the rows.
pub open spec fn checked_names(rows: Seq<RowView>) -> Seq<Seq<char>> {
    rows.filter(|row: RowView| row.checked).map_values(|row: RowView| row.filename)
}

/// The rows that are not named `filename`, in their order.
pub open spec fn without_file(rows: Seq<RowView>, filename: Seq<char>) -> Seq<RowView> {
    rows.filter(|row: RowView| row.filename != filename)
}

/// Whether a file named `filename` shows under the stored filter
/// `search_text`: the empty filter shows every file, another one those whose
/// lower-cased name holds it.
pub open spec fn name_shown(filename: Seq<char>, search_text: Seq<char>) -> bool {
    search_text.len() == 0 || occurs_in(search_text, lowercase(filename))
}

/// The positions of the rows that show under the filter, ascending.
pub open spec fn shown_indices(rows: Seq<RowView>, search_text: Seq<char>) -> Seq<int> {
    Seq::new(rows.len(), |i: int| i).filter(|i: int| name_shown(rows[i].filename, search_text))
}

impl PackageRow {
    /// An unmarked row for the file `filename`.
    pub fn new(filename: String) -> (row: Self)
        ensures
            row@ == (RowView { checked: false, filename: filename@ }),
    {
        PackageRow { checked: false, filename }
    }
}

/// Sets the mark of every row to `checked`, whatever the filter shows.
pub fn select_all(packages: &mut Vec<PackageRow>, checked: bool)
    ensures
        final(packages).deep_view() == with_all_checked(old(packages).deep_view(), checked),
{
    let mut i: usize = 0;
    while i < packages.len()
        invariant
            i <= packages.len(),
            packages.len() == old(packages).len(),
            forall|j: int|
                0 <= j < i ==> (#[trigger] packages@[j]).checked == checked && packages@[j].filename
                    == old(packages)@[j].filename,
            forall|j: int| i <= j < packages.len() ==> packages@[j] == old(packages)@[j],
        decreases packages.len() - i,
    {
        packages[i].checked = checked;
        i = i + 1;
    }
    assert(final(packages).deep_view() =~= with_all_checked(old(packages).deep_view(), checked));
}

/// Flips the mark of the row at `index`. An index past the last row changes
/// nothing.
pub fn toggle_check(packages: &mut Vec<PackageRow>, index: usize)
    ensures
        final(packages).deep_view() == with_toggled(old(packages).deep_view(), index as int),
{
    if index < packages.len() {
        let flipped = !packages[index].checked;
        packages[index].checked = flipped;
    }
    assert(final(packages).deep_view() =~= with_toggled(old(packages).deep_view(), index as int));
}

/// The rows of a fresh listing: one unmarked row for each name, in the order
/// in which the server gave the names.
pub fn rows_from(names: Vec<String>) -> (packages: Vec<PackageRow>)
    ensures
        packages.deep_view() == fresh_rows(names.deep_view()),
{
    let mut packages: Vec<PackageRow> = Vec::new();
    let mut i: usize = 0;
    while i < names.len()
        invariant
            i <= names.len(),
            packages.len() == i,
            forall|j: int|
                0 <= j < i ==> !(#[trigger] packages@[j]).checked && packages@[j].filename@
                    == names@[j]@,
        decreases names.len() - i,
    {
        packages.push(PackageRow::new(names[i].clone()));
        i = i + 1;
    }
    assert(packages.deep_view() =~= fresh_rows(names.deep_view()));
    packages
}

/// The names of the marked rows, in the order of the rows.
pub fn selected_filenames(packages: &Vec<PackageRow>) -> (names: Vec<String>)
    ensures
        names.deep_view() == checked_names(packages.deep_view()),
{
    let ghost rows = packages.deep_view();
    let mut names: Vec<String> = Vec::new();
    let mut i: usize = 0;
    while i < packages.len()
        invariant
            i <= packages.len(),
            rows == packages.deep_view(),
            names.deep_view() == checked_names(rows.take(i as int)),
        decreases packages.len() - i,
    {
        proof {
            lemma_filter_take_step(rows, |row: RowView| row.checked, i as int);
        }
        let ghost before = names.deep_view();
        let ghost marked = rows.take(i as int).filter(|row: RowView| row.checked);
        assert(rows[i as int] == packages@[i as int]@);
        if packages[i].checked {
            names.push(packages[i].filename.clone());
            assert(names.deep_view() =~= before.push(rows[i as int].filename));
            assert(marked.push(rows[i as int]).map_values(|row: RowView| row.filename)
                =~= before.push(rows[i as int].filename));
        }
        assert(names.deep_view() == checked_names(rows.take(i + 1)));
        i = i + 1;
    }
    assert(rows.take(i as int) =~= rows);
    names
}

/// Drops every row named `filename` and keeps the others in their order.
pub fn remove_file(packages: &mut Vec<PackageRow>, filename: &str)
    ensures
        final(packages).deep_view() == without_file(old(packages).deep_view(), filename@),
{
    let ghost rows = packages.deep_view();
    let gone: String = filename.to_owned();
    let mut kept: Vec<PackageRow> = Vec::new();
    let mut i: usize = 0;
    while i < packages.len()
        invariant
            i <= packages.len(),
            rows == packages.deep_view(),
            gone@ == filename@,
            kept.deep_view() == without_file(rows.take(i as int), filename@),
        decreases packages.len() - i,
    {
        proof {
            lemma_filter_take_step(rows, |row: RowView| row.filename != filename@, i as int);
        }
        let ghost before = kept.deep_view();
        assert(rows[i as int] == packages@[i as int]@);
        if !(packages[i].filename == gone) {
            kept.push(
                PackageRow { checked: packages[i].checked, filename: packages[i].filename.clone() },
            );
            assert(kept.deep_view() =~= before.push(rows[i as int]));
        }
        assert(kept.deep_view() == without_file(rows.take(i + 1), filename@));
        i = i + 1;
    }
    assert(rows.take(i as int) =~= rows);
    *packages = kept;
}

/// Whether `row` shows under the stored filter `search_text`.
pub fn is_shown(row: &PackageRow, search_text: &str) -> (shown: bool)
    ensures
        shown == name_shown(row@.filename, search_text@),
{
    search_text.is_empty() || contains(to_lowercase(row.filename.as_str()).as_str(), search_text)
}

/// The positions of the rows that show under the stored filter
/// `search_text`, ascending. Each is the position of a row.
pub fn visible_rows(packages: &Vec<PackageRow>, search_text: &str) -> (shown: Vec<usize>)
    ensures
        shown@.map_values(|i: usize| i as int) == shown_indices(packages.deep_view(), search_text@),
        forall|k: int| 0 <= k < shown.len() ==> shown[k] < packages.len(),
        forall|j: int, k: int| 0 <= j < k < shown.len() ==> shown[j] < shown[k],
{
    let ghost rows = packages.deep_view();
    let ghost all = Seq::new(rows.len(), |i: int| i);
    let ghost keep = |i: int| name_shown(rows[i].filename, search_text@);
    let mut shown: Vec<usize> = Vec::new();
    let mut i: usize = 0;
    while i < packages.len()
        invariant
            i <= packages.len(),
            rows == packages.deep_view(),
            all == Seq::new(rows.len(), |i: int| i),
            keep == |i: int| name_shown(rows[i].filename, search_text@),
            shown@.map_values(|i: usize| i as int) == all.take(i as int).filter(keep),
            forall|k: int| 0 <= k < shown.len() ==> shown[k] < i,
            forall|j: int, k: int| 0 <= j < k < shown.len() ==> shown[j] < shown[k],
        decreases packages.len() - i,
    {
        proof {
            lemma_filter_take_step(all, keep, i as int);
        }
        if is_shown(&packages[i], search_text) {
            shown.push(i);
        }
        assert(shown@.map_values(|i: usize| i as int) =~= all.take(i + 1).filter(keep));
        i = i + 1;
    }
    assert(all.take(i as int) =~= all);
    shown
}

/// Stores the lower-cased `text` as the filter and clears every mark: a new
/// search invalidates the selection.
pub fn set_filter(packages: &mut Vec<PackageRow>, search_text: &mut String, text: &str)
    ensures
        final(search_text)@ == lowercase(text@),
        final(packages).deep_view() == with_all_checked(old(packages).deep_view(), false),
{
    *search_text = to_lowercase(text);
    select_all(packages, false);
}

/// After the filter is set to `text`, the rows that show are exactly those
/// whose lower-cased name holds the lower-cased `text`, and no row is
/// marked.
pub proof fn lemma_filter_change(rows: Seq<RowView>, text: Seq<char>)
    ensures
        shown_indices(with_all_checked(rows, false), lowercase(text)) == Seq::new(
            rows.len(),
            |i: int| i,
        ).filter(|i: int| occurs_in(lowercase(text), lowercase(rows[i].filename))),
        forall|i: int|
            0 <= i < rows.len() ==> !(#[trigger] with_all_checked(rows, false)[i]).checked,
        checked_names(with_all_checked(rows, false)) == Seq::<Seq<char>>::empty(),
{
    let cleared = with_all_checked(rows, false);
    let all = Seq::new(rows.len(), |i: int| i);
    let by_cleared = |i: int| name_shown(cleared[i].filename, lowercase(text));
    let by_rows = |i: int| occurs_in(lowercase(text), lowercase(rows[i].filename));
    assert forall|k: int| 0 <= k < all.len() implies by_cleared(#[trigger] all[k]) == by_rows(
        all[k],
    ) by {
        if lowercase(text).len() == 0 {
            lemma_empty_occurs(lowercase(text), lowercase(rows[k].filename));
        }
    }
    lemma_filter_agrees(all, by_cleared, by_rows);
    assert(Seq::new(cleared.len(), |i: int| i) =~= all);
    lemma_select_all_names(rows);
}

/// Toggling one position twice gives the rows back, and toggling a position
/// past the last row changes nothing.
pub proof fn lemma_toggle_twice(rows: Seq<RowView>, index: int)
    ensures
        with_toggled(with_toggled(rows, index), index) == rows,
        !(0 <= index < rows.len()) ==> with_toggled(rows, index) == rows,
{
    assert(with_toggled(with_toggled(rows, index), index) =~= rows);
}

/// With every row marked, the marked names are all the names in their order;
/// with every mark cleared, there are none.
pub proof fn lemma_select_all_names(rows: Seq<RowView>)
    ensures
        checked_names(with_all_checked(rows, true)) == rows.map_values(
            |row: RowView| row.filename,
        ),
        checked_names(with_all_checked(rows, false)) == Seq::<Seq<char>>::empty(),
    decreases rows.len(),
{
    reveal(Seq::filter);
    let marked = |row: RowView| row.checked;
    let name = |row: RowView| row.filename;
    if rows.len() > 0 {
        let front = rows.drop_last();
        lemma_select_all_names(front);
        assert(with_all_checked(rows, true).drop_last() =~= with_all_checked(front, true));
        assert(with_all_checked(rows, false).drop_last() =~= with_all_checked(front, false));
        let all_marked = with_all_checked(rows, true);
        let front_marked = with_all_checked(front, true).filter(marked);
        assert(all_marked.filter(marked) == front_marked.push(all_marked.last()));
        assert(front_marked.push(all_marked.last()).map_values(name) =~= front_marked.map_values(
            name,
        ).push(rows.last().filename));
        assert(front.map_values(name).push(rows.last().filename) =~= rows.map_values(name));
    } else {
        assert(checked_names(with_all_checked(rows, true)) =~= rows.map_values(name));
    }
}

/// Where no other row shares the name of row `index`, removing the file of
/// that name removes that one row and nothing else.
pub proof fn lemma_remove_unique(rows: Seq<RowView>, index: int)
    requires
        0 <= index < rows.len(),
        forall|j: int|
            0 <= j < rows.len() && j != index ==> (#[trigger] rows[j]).filename
                != rows[index].filename,
    ensures
        without_file(rows, rows[index].filename) == rows.remove(index),
    decreases rows.len(),
{
    reveal(Seq::filter);
    let name = rows[index].filename;
    let other = |row: RowView| row.filename != name;
    let front = rows.drop_last();
    if index == rows.len() - 1 {
        assert forall|k: int| 0 <= k < front.len() implies other(#[trigger] front[k]) by {
            assert(front[k] == rows[k]);
        }
        lemma_filter_keeps_all(front, other);
        assert(rows.remove(index) =~= front);
    } else {
        assert forall|j: int| 0 <= j < front.len() && j != index implies (
        #[trigger] front[j]).filename != front[index].filename by {
            assert(front[j] == rows[j]);
        }
        lemma_remove_unique(front, index);
        assert(other(rows.last()));
        assert(front.remove(index).push(rows.last()) =~= rows.remove(index));
    }
}

/// Removing the file `first` and then the file `second` leaves no row with
/// either name, keeps every other row with its mark and in its order, and
/// gives the same rows as removing them in the other order.
pub proof fn lemma_remove_two(rows: Seq<RowView>, first: Seq<char>, second: Seq<char>)
    ensures
        without_file(without_file(rows, first), second) == rows.filter(
            |row: RowView| row.filename != first && row.filename != second,
        ),
        without_file(without_file(rows, first), second) == without_file(
            without_file(rows, second),
            first,
        ),
        forall|k: int|
            0 <= k < without_file(without_file(rows, first), second).len() ==> {
                let row = #[trigger] without_file(without_file(rows, first), second)[k];
                row.filename != first && row.filename != second && rows.contains(row)
            },
        forall|k: int|
            0 <= k < rows.len() && rows[k].filename != first && rows[k].filename != second
                ==> without_file(without_file(rows, first), second).contains(#[trigger] rows[k]),
{
    let not_first = |row: RowView| row.filename != first;
    let not_second = |row: RowView| row.filename != second;
    let neither = |row: RowView| row.filename != first && row.filename != second;
    lemma_filter_twice(rows, not_first, not_second);
    lemma_filter_twice(rows, not_second, not_first);
    assert(rows.filter(|row: RowView| not_first(row) && not_second(row)) == rows.filter(neither))
        by {
        lemma_filter_agrees(rows, |row: RowView| not_first(row) && not_second(row), neither);
    }
    assert(rows.filter(|row: RowView| not_second(row) && not_first(row)) == rows.filter(neither))
        by {
        lemma_filter_agrees(rows, |row: RowView| not_second(row) && not_first(row), neither);
    }
    lemma_filter_members(rows, neither);
}

} // verus!
