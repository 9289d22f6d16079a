//! The column layout of a table, as mathematics: which columns a stream of
//! records gives, in which order, and how wide each one is.

use crate::model::MemberView;
use vstd::prelude::*;
use vstd::utf8::encode_utf8;

verus! {

/// A column: the key it shows, its position among the columns, and the least
/// width that fits everything seen in it.
pub struct ColumnView {
    pub key: Seq<char>,
    pub index: nat,
    pub min_width: nat,
}

/// The length of a string in bytes, as `String::len` counts it.
pub open spec fn byte_len(s: Seq<char>) -> nat {
    encode_utf8(s).len()
}

/// The width that one member asks of its column: enough for its text and for
/// the column's heading.
pub open spec fn member_width(m: MemberView) -> nat {
    if byte_len(m.text) >= byte_len(m.key) {
        byte_len(m.text)
    } else {
        byte_len(m.key)
    }
}

/// Whether some column shows `key`.
pub open spec fn has_column(cols: Seq<ColumnView>, key: Seq<char>) -> bool {
    exists|i: int| 0 <= i < cols.len() && (#[trigger] cols[i]).key == key
}

/// The position of a column that shows `key`, where there is one.
pub open spec fn column_of(cols: Seq<ColumnView>, key: Seq<char>) -> int {
    choose|i: int| 0 <= i < cols.len() && (#[trigger] cols[i]).key == key
}

/// A well-formed schema: column `i` carries index `i`, no key has two columns,
/// and every column is at least as wide as its heading.
pub open spec fn schema_wf(cols: Seq<ColumnView>) -> bool {
    &&& forall|i: int| 0 <= i < cols.len() ==> (#[trigger] cols[i]).index == i
    &&& forall|i: int, j: int|
        0 <= i < j < cols.len() ==> (#[trigger] cols[i]).key != (#[trigger] cols[j]).key
    &&& forall|i: int| 0 <= i < cols.len() ==> (#[trigger] cols[i]).min_width >= byte_len(cols[i].key)
}

/// The schema after one more member was seen. A key that has a column widens
/// it where the member needs more; a new key gets the next column.
pub open spec fn observe(cols: Seq<ColumnView>, m: MemberView) -> Seq<ColumnView> {
    if has_column(cols, m.key) {
        let i = column_of(cols, m.key);
        if member_width(m) > cols[i].min_width {
            cols.update(i, ColumnView { min_width: member_width(m), ..cols[i] })
        } else {
            cols
        }
    } else {
        cols.push(ColumnView { key: m.key, index: cols.len(), min_width: member_width(m) })
    }
}

/// The schema after the members of one record were seen, in their order.
pub open spec fn scan(cols: Seq<ColumnView>, members: Seq<MemberView>) -> Seq<ColumnView>
    decreases members.len(),
{
    if members.len() == 0 {
        cols
    } else {
        observe(scan(cols, members.drop_last()), members.last())
    }
}

/// The schema of a stream of records, each given by its members: the records
/// are scanned in order, starting from no columns.
pub open spec fn schema_of(rows: Seq<Seq<MemberView>>) -> Seq<ColumnView>
    decreases rows.len(),
{
    if rows.len() == 0 {
        Seq::empty()
    } else {
        scan(schema_of(rows.drop_last()), rows.last())
    }
}

/// Whether member `i` is the first of `members` under `key`.
pub open spec fn first_under(members: Seq<MemberView>, key: Seq<char>, i: int) -> bool {
    &&& 0 <= i < members.len()
    &&& members[i].key == key
    &&& forall|j: int| 0 <= j < i ==> (#[trigger] members[j]).key != key
}

/// The text that a record shows in the column of `key`: that of its first
/// member under the key, and nothing where it has no such member.
pub open spec fn cell_text(members: Seq<MemberView>, key: Seq<char>) -> Seq<char> {
    if exists|i: int| first_under(members, key, i) {
        members[choose|i: int| first_under(members, key, i)].text
    } else {
        Seq::empty()
    }
}

/// The row of a record under a schema: one cell for each column, in the
/// order of the columns.
pub open spec fn row_of(cols: Seq<ColumnView>, members: Seq<MemberView>) -> Seq<Seq<char>> {
    Seq::new(cols.len(), |i: int| cell_text(members, cols[i].key))
}

/// The headings of a schema, in the order of the columns.
pub open spec fn header_of(cols: Seq<ColumnView>) -> Seq<Seq<char>> {
    Seq::new(cols.len(), |i: int| cols[i].key)
}

/// `later` continues `earlier`: every column is still there, at its place and
/// under its key, and none has become narrower.
pub open spec fn extends(earlier: Seq<ColumnView>, later: Seq<ColumnView>) -> bool {
    &&& earlier.len() <= later.len()
    &&& forall|i: int|
        0 <= i < earlier.len() ==> {
            &&& (#[trigger] later[i]).key == earlier[i].key
            &&& later[i].index == earlier[i].index
            &&& later[i].min_width >= earlier[i].min_width
        }
}

/// In a well-formed schema a key names one column only.
pub proof fn lemma_column_unique(cols: Seq<ColumnView>, i: int)
    requires
        schema_wf(cols),
        0 <= i < cols.len(),
    ensures
        has_column(cols, cols[i].key),
        column_of(cols, cols[i].key) == i,
{
}

/// Seeing a member keeps a schema well-formed, keeps every column in place
/// and no narrower, and leaves a column for the member's key that is wide
/// enough for it.
pub proof fn lemma_observe(cols: Seq<ColumnView>, m: MemberView)
    requires
        schema_wf(cols),
    ensures
        schema_wf(observe(cols, m)),
        extends(cols, observe(cols, m)),
        has_column(observe(cols, m), m.key),
        observe(cols, m)[column_of(observe(cols, m), m.key)].min_width >= member_width(m),
{
    let next = observe(cols, m);
    if has_column(cols, m.key) {
        let i = column_of(cols, m.key);
        lemma_column_unique(next, i);
    } else {
        let n = cols.len() as int;
        lemma_column_unique(next, n);
    }
}

/// `extends` is transitive.
pub proof fn lemma_extends_trans(a: Seq<ColumnView>, b: Seq<ColumnView>, c: Seq<ColumnView>)
    requires
        extends(a, b),
        extends(b, c),
    ensures
        extends(a, c),
{
}

/// Scanning a record keeps a schema well-formed and continues it.
pub proof fn lemma_scan(cols: Seq<ColumnView>, members: Seq<MemberView>)
    requires
        schema_wf(cols),
    ensures
        schema_wf(scan(cols, members)),
        extends(cols, scan(cols, members)),
    decreases members.len(),
{
    if members.len() > 0 {
        let before = scan(cols, members.drop_last());
        lemma_scan(cols, members.drop_last());
        lemma_observe(before, members.last());
        lemma_extends_trans(cols, before, scan(cols, members));
    }
}

/// The schema of any stream of records is well-formed.
pub proof fn lemma_schema_wf(rows: Seq<Seq<MemberView>>)
    ensures
        schema_wf(schema_of(rows)),
    decreases rows.len(),
{
    if rows.len() > 0 {
        lemma_schema_wf(rows.drop_last());
        lemma_scan(schema_of(rows.drop_last()), rows.last());
    }
}

/// No column's width ever decreases as more records are scanned, and no
/// column moves or changes its key: the schema of all the records continues
/// the schema of any first `n` of them. Every column is at least as wide as
/// its heading throughout.
pub proof fn lemma_width_monotone(rows: Seq<Seq<MemberView>>, n: int)
    requires
        0 <= n <= rows.len(),
    ensures
        extends(schema_of(rows.take(n)), schema_of(rows)),
        schema_wf(schema_of(rows.take(n))),
        schema_wf(schema_of(rows)),
    decreases rows.len(),
{
    lemma_schema_wf(rows);
    lemma_schema_wf(rows.take(n));
    if n == rows.len() {
        assert(rows.take(n) =~= rows);
    } else {
        let fewer = rows.drop_last();
        assert(fewer.take(n) =~= rows.take(n));
        lemma_width_monotone(fewer, n);
        lemma_scan(schema_of(fewer), rows.last());
        lemma_extends_trans(schema_of(rows.take(n)), schema_of(fewer), schema_of(rows));
    }
}

/// A column that is wide enough for a member stays so in every schema that
/// continues its own.
pub proof fn lemma_extends_keeps_room(
    earlier: Seq<ColumnView>,
    later: Seq<ColumnView>,
    key: Seq<char>,
    width: nat,
)
    requires
        schema_wf(later),
        extends(earlier, later),
        has_column(earlier, key),
        earlier[column_of(earlier, key)].min_width >= width,
    ensures
        has_column(later, key),
        later[column_of(later, key)].min_width >= width,
{
    let i = column_of(earlier, key);
    lemma_column_unique(later, i);
}

/// After a record was scanned, each of its members has a column under its
/// key, wide enough for it.
pub proof fn lemma_scan_makes_room(cols: Seq<ColumnView>, members: Seq<MemberView>, j: int)
    requires
        schema_wf(cols),
        0 <= j < members.len(),
    ensures
        has_column(scan(cols, members), members[j].key),
        scan(cols, members)[column_of(scan(cols, members), members[j].key)].min_width
            >= member_width(members[j]),
    decreases members.len(),
{
    let before = scan(cols, members.drop_last());
    lemma_scan(cols, members.drop_last());
    lemma_observe(before, members.last());
    if j < members.len() - 1 {
        lemma_scan_makes_room(cols, members.drop_last(), j);
        lemma_extends_keeps_room(
            before,
            scan(cols, members),
            members[j].key,
            member_width(members[j]),
        );
    }
}

/// The schema of a stream of records has, for every member of every record,
/// a column under the member's key that is wide enough for the member's text
/// and for the key.
pub proof fn lemma_schema_makes_room(rows: Seq<Seq<MemberView>>, r: int, j: int)
    requires
        0 <= r < rows.len(),
        0 <= j < rows[r].len(),
    ensures
        has_column(schema_of(rows), rows[r][j].key),
        schema_of(rows)[column_of(schema_of(rows), rows[r][j].key)].min_width >= member_width(
            rows[r][j],
        ),
    decreases rows.len(),
{
    let fewer = rows.drop_last();
    lemma_schema_wf(fewer);
    lemma_schema_wf(rows);
    if r == rows.len() - 1 {
        lemma_scan_makes_room(schema_of(fewer), rows.last(), j);
    } else {
        lemma_schema_makes_room(fewer, r, j);
        lemma_scan(schema_of(fewer), rows.last());
        lemma_extends_keeps_room(
            schema_of(fewer),
            schema_of(rows),
            rows[r][j].key,
            member_width(rows[r][j]),
        );
    }
}

/// Whether some member of the record asks exactly the width that `col` has,
/// under the key of `col`.
pub open spec fn asked_by(members: Seq<MemberView>, col: ColumnView) -> bool {
    exists|j: int|
        0 <= j < members.len() && (#[trigger] members[j]).key == col.key && member_width(
            members[j],
        ) == col.min_width
}

/// Whether some member of some record asks exactly the width that `col`
/// has, under the key of `col`.
pub open spec fn asked_in(rows: Seq<Seq<MemberView>>, col: ColumnView) -> bool {
    exists|r: int| 0 <= r < rows.len() && asked_by(#[trigger] rows[r], col)
}

/// Scanning a record leaves a column as it was, or gives it the width that
/// one of the record's members asks under its key.
pub proof fn lemma_scan_tight(cols: Seq<ColumnView>, members: Seq<MemberView>, c: int)
    requires
        schema_wf(cols),
        0 <= c < scan(cols, members).len(),
    ensures
        (c < cols.len() && scan(cols, members)[c] == cols[c]) || asked_by(
            members,
            scan(cols, members)[c],
        ),
    decreases members.len(),
{
    if members.len() > 0 {
        let fewer = members.drop_last();
        let before = scan(cols, fewer);
        let m = members.last();
        let next = observe(before, m);
        lemma_scan(cols, fewer);
        if c < before.len() && next[c] == before[c] {
            lemma_scan_tight(cols, fewer, c);
        }
    }
}

/// The width of a column is the greatest that any member under its key
/// asks: some member of some record asks exactly that width, and no member
/// under the key asks more.
pub proof fn lemma_min_width_is_maximum(rows: Seq<Seq<MemberView>>, c: int)
    requires
        0 <= c < schema_of(rows).len(),
    ensures
        asked_in(rows, schema_of(rows)[c]),
        forall|r: int, j: int|
            0 <= r < rows.len() && 0 <= j < rows[r].len() && (#[trigger] rows[r][j]).key
                == schema_of(rows)[c].key ==> member_width(rows[r][j]) <= schema_of(
                rows,
            )[c].min_width,
    decreases rows.len(),
{
    let cols = schema_of(rows);
    lemma_schema_wf(rows);
    assert forall|r: int, j: int|
        0 <= r < rows.len() && 0 <= j < rows[r].len() && (#[trigger] rows[r][j]).key
            == cols[c].key implies member_width(rows[r][j]) <= cols[c].min_width by {
        lemma_schema_makes_room(rows, r, j);
        lemma_column_unique(cols, c);
    }
    let fewer = rows.drop_last();
    lemma_schema_wf(fewer);
    lemma_scan_tight(schema_of(fewer), rows.last(), c);
    if c < schema_of(fewer).len() && cols[c] == schema_of(fewer)[c] {
        lemma_min_width_is_maximum(fewer, c);
    }
}

/// A key under which a record has a member has a first such member.
pub proof fn lemma_first_under_exists(members: Seq<MemberView>, key: Seq<char>, j: int)
    requires
        0 <= j < members.len(),
        members[j].key == key,
    ensures
        exists|i: int| first_under(members, key, i),
    decreases j,
{
    if exists|k: int| 0 <= k < j && (#[trigger] members[k]).key == key {
        let k = choose|k: int| 0 <= k < j && (#[trigger] members[k]).key == key;
        lemma_first_under_exists(members, key, k);
    } else {
        assert(first_under(members, key, j));
    }
}

/// A cell holds the text of a member under the column's key, and is empty
/// only where the record has no such member or that member's text is empty.
pub proof fn lemma_cell_text(members: Seq<MemberView>, key: Seq<char>)
    ensures
        (forall|j: int| 0 <= j < members.len() ==> (#[trigger] members[j]).key != key)
            ==> cell_text(members, key) == Seq::<char>::empty(),
        (exists|j: int| 0 <= j < members.len() && (#[trigger] members[j]).key == key) ==> (
        exists|i: int|
            0 <= i < members.len() && (#[trigger] members[i]).key == key && cell_text(members, key)
                == members[i].text),
{
    if exists|j: int| 0 <= j < members.len() && (#[trigger] members[j]).key == key {
        let j = choose|j: int| 0 <= j < members.len() && (#[trigger] members[j]).key == key;
        lemma_first_under_exists(members, key, j);
    }
}

/// Row alignment: a row has exactly one cell for each column, and cell `i`
/// is the record's text under the key of column `i`, whatever the order of
/// the record's own members and whichever keys it lacks.
pub proof fn lemma_row_aligned(cols: Seq<ColumnView>, members: Seq<MemberView>)
    ensures
        row_of(cols, members).len() == cols.len(),
        row_of(cols, members).len() == header_of(cols).len(),
        forall|i: int|
            0 <= i < cols.len() ==> #[trigger] row_of(cols, members)[i] == cell_text(
                members,
                header_of(cols)[i],
            ),
{
}

/// No member has the key of another.
pub open spec fn distinct_keys(members: Seq<MemberView>) -> bool {
    forall|i: int, j: int|
        0 <= i < j < members.len() ==> (#[trigger] members[i]).key != (#[trigger] members[j]).key
}

/// The order of a record's own members does not show in its row: two lists
/// of members with distinct keys that hold the same members give the same
/// row under every schema.
pub proof fn lemma_row_ignores_member_order(
    cols: Seq<ColumnView>,
    a: Seq<MemberView>,
    b: Seq<MemberView>,
)
    requires
        distinct_keys(a),
        distinct_keys(b),
        forall|m: MemberView| a.contains(m) <==> b.contains(m),
    ensures
        row_of(cols, a) == row_of(cols, b),
{
    assert forall|key: Seq<char>| cell_text(a, key) == cell_text(b, key) by {
        lemma_cell_agrees(a, b, key);
    }
}

/// Under one key, two lists with distinct keys that hold the same members
/// show the same text.
proof fn lemma_cell_agrees(a: Seq<MemberView>, b: Seq<MemberView>, key: Seq<char>)
    requires
        distinct_keys(a),
        distinct_keys(b),
        forall|m: MemberView| a.contains(m) <==> b.contains(m),
    ensures
        cell_text(a, key) == cell_text(b, key),
{
    if exists|i: int| first_under(a, key, i) {
        let i = choose|i: int| first_under(a, key, i);
        assert(b.contains(a[i]));
        let j = choose|j: int| 0 <= j < b.len() && b[j] == a[i];
        lemma_first_under_exists(b, key, j);
    } else if exists|k: int| first_under(b, key, k) {
        let k = choose|k: int| first_under(b, key, k);
        assert(a.contains(b[k]));
        let j = choose|j: int| 0 <= j < a.len() && a[j] == b[k];
        lemma_first_under_exists(a, key, j);
    }
}

/// Every cell fits its column: in the table of a stream of records, no
/// record's text under a column's key is longer than the column is wide.
pub proof fn lemma_cells_fit(rows: Seq<Seq<MemberView>>, r: int, c: int)
    requires
        0 <= r < rows.len(),
        0 <= c < schema_of(rows).len(),
    ensures
        byte_len(row_of(schema_of(rows), rows[r])[c]) <= schema_of(rows)[c].min_width,
{
    let cols = schema_of(rows);
    let key = cols[c].key;
    lemma_schema_wf(rows);
    if exists|i: int| first_under(rows[r], key, i) {
        let i = choose|i: int| first_under(rows[r], key, i);
        lemma_schema_makes_room(rows, r, i);
        lemma_column_unique(cols, c);
    }
}

} // verus!
