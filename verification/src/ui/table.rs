//! The table view: the column configuration and the rows laid out by it.

use crate::model::{members_view, rows_of, Member, MemberView, Record, RecordSource};
use crate::text::strings_view;
use crate::ui::key::Key;
use crate::ui::schema::{
    byte_len, cell_text, column_of, first_under, has_column, header_of, lemma_column_unique,
    lemma_observe, lemma_schema_wf, observe, row_of, scan, schema_of, schema_wf, ColumnView,
};
use vstd::prelude::*;

verus! {

/// How a record is turned into a row.
#[derive(Clone, Copy, Debug, PartialEq, Eq, Structural)]
pub enum RowViewType {
    /// Each top-level key is one cell.
    ObjSimple,
}

/// What the table keeps for one column, beside its key.
#[derive(Clone, Copy, Debug, PartialEq, Eq, Structural)]
pub struct ColumnConfig {
    /// The least width, in bytes, that fits the heading and every cell seen.
    pub min_width: usize,
    /// The column's position, counted from 0 in the order of first sight.
    pub index: usize,
}

/// The columns of a table, each key with its configuration, held in the
/// order of their indices.
pub struct TableViewConfig {
    columns: Vec<(String, ColumnConfig)>,
}

/// The length of `s` in bytes.
pub fn str_len(s: &str) -> (n: usize)
    ensures
        n == byte_len(s@),
{
    s.as_bytes().len()
}

impl View for TableViewConfig {
    type V = Seq<ColumnView>;

    closed spec fn view(&self) -> Seq<ColumnView> {
        Seq::new(
            self.columns@.len(),
            |i: int|
                ColumnView {
                    key: self.columns@[i].0@,
                    index: self.columns@[i].1.index as nat,
                    min_width: self.columns@[i].1.min_width as nat,
                },
        )
    }
}

impl TableViewConfig {
    #[verifier::type_invariant]
    spec fn inv(self) -> bool {
        schema_wf(self@)
    }

    /// A configuration without columns.
    pub fn new() -> (config: TableViewConfig)
        ensures
            config@ == Seq::<ColumnView>::empty(),
    {
        TableViewConfig { columns: Vec::new() }
    }

    /// The position of the column for `key`, if there is one.
    pub fn find(&self, key: &String) -> (found: Option<usize>)
        ensures
            found.is_some() == has_column(self@, key@),
            found matches Some(i) ==> i == column_of(self@, key@),
    {
        proof {
            use_type_invariant(self);
        }
        let mut i: usize = 0;
        while i < self.columns.len()
            invariant
                i <= self.columns@.len(),
                schema_wf(self@),
                forall|j: int| 0 <= j < i ==> (#[trigger] self@[j]).key != key@,
            decreases self.columns@.len() - i,
        {
            if self.columns[i].0 == *key {
                proof {
                    lemma_column_unique(self@, i as int);
                }
                return Some(i);
            }
            i += 1;
        }
        None
    }

    /// Takes one member into account: widens the column of its key where the
    /// member needs more room, or opens the next column for a key not seen
    /// before.
    pub fn observe(&mut self, member: &Member)
        ensures
            final(self)@ == observe(old(self)@, member@),
    {
        proof {
            use_type_invariant(&*self);
            lemma_observe(self@, member@);
        }
        let text_len = str_len(member.text.as_str());
        let key_len = str_len(member.key.as_str());
        let width = if text_len >= key_len { text_len } else { key_len };
        let found = self.find(&member.key);
        let mut columns: Vec<(String, ColumnConfig)> = Vec::new();
        core::mem::swap(&mut self.columns, &mut columns);
        match found {
            Some(i) => {
                if width > columns[i].1.min_width {
                    columns[i].1.min_width = width;
                }
            },
            None => {
                let index = columns.len();
                columns.push((member.key.clone(), ColumnConfig { min_width: width, index }));
            },
        }
        proof {
            let next = TableViewConfig { columns };
            assert(next@ =~= observe(old(self)@, member@));
        }
        self.columns = columns;
    }

    /// Takes the members of one record into account, in their order.
    pub fn scan(&mut self, members: &Vec<Member>)
        ensures
            final(self)@ == scan(old(self)@, members_view(members@)),
    {
        let ghost seen = members_view(members@);
        let mut i: usize = 0;
        while i < members.len()
            invariant
                i <= members@.len(),
                seen == members_view(members@),
                self@ == scan(old(self)@, seen.take(i as int)),
            decreases members@.len() - i,
        {
            proof {
                let upto = seen.take(i + 1);
                assert(upto.drop_last() =~= seen.take(i as int));
            }
            self.observe(&members[i]);
            i += 1;
        }
        assert(seen.take(i as int) =~= seen);
    }

    /// The number of columns.
    pub fn len(&self) -> (n: usize)
        ensures
            n == self@.len(),
    {
        self.columns.len()
    }

    /// The columns in order: position `i` holds the key and the configuration
    /// of the column with index `i`.
    pub fn ordered_columns(&self) -> (cols: Vec<(&String, &ColumnConfig)>)
        ensures
            schema_wf(self@),
            cols@.len() == self@.len(),
            forall|i: int|
                0 <= i < cols@.len() ==> {
                    &&& (#[trigger] cols@[i]).0@ == self@[i].key
                    &&& cols@[i].1.index == i
                    &&& cols@[i].1.min_width == self@[i].min_width
                },
    {
        proof {
            use_type_invariant(self);
        }
        let mut cols: Vec<(&String, &ColumnConfig)> = Vec::new();
        let mut i: usize = 0;
        while i < self.columns.len()
            invariant
                i <= self.columns@.len(),
                schema_wf(self@),
                cols@.len() == i,
                forall|j: int|
                    0 <= j < i ==> {
                        &&& (#[trigger] cols@[j]).0@ == self@[j].key
                        &&& cols@[j].1.index == j
                        &&& cols@[j].1.min_width == self@[j].min_width
                    },
            decreases self.columns@.len() - i,
        {
            cols.push((&self.columns[i].0, &self.columns[i].1));
            i += 1;
        }
        cols
    }

    /// The width of each column, in the order of the columns.
    pub fn widths(&self) -> (widths: Vec<usize>)
        ensures
            widths@.len() == self@.len(),
            forall|i: int| 0 <= i < widths@.len() ==> (#[trigger] widths@[i]) == self@[i].min_width,
    {
        let mut widths: Vec<usize> = Vec::new();
        let mut i: usize = 0;
        while i < self.columns.len()
            invariant
                i <= self.columns@.len(),
                widths@.len() == i,
                forall|j: int| 0 <= j < i ==> (#[trigger] widths@[j]) == self@[j].min_width,
            decreases self.columns@.len() - i,
        {
            widths.push(self.columns[i].1.min_width);
            i += 1;
        }
        widths
    }

    /// The heading of each column, in the order of the columns.
    pub fn header(&self) -> (header: Vec<String>)
        ensures
            strings_view(header@) == header_of(self@),
    {
        let mut header: Vec<String> = Vec::new();
        let mut i: usize = 0;
        while i < self.columns.len()
            invariant
                i <= self.columns@.len(),
                header@.len() == i,
                forall|j: int| 0 <= j < i ==> (#[trigger] header@[j])@ == self@[j].key,
            decreases self.columns@.len() - i,
        {
            header.push(self.columns[i].0.clone());
            i += 1;
        }
        header
    }

    /// The cells of a record with the given members: one for each column, in
    /// the order of the columns, whatever the order of the members.
    pub fn row(&self, members: &Vec<Member>) -> (cells: Vec<String>)
        ensures
            strings_view(cells@) == row_of(self@, members_view(members@)),
    {
        let mut cells: Vec<String> = Vec::new();
        let mut i: usize = 0;
        while i < self.columns.len()
            invariant
                i <= self.columns@.len(),
                cells@.len() == i,
                forall|j: int|
                    0 <= j < i ==> (#[trigger] cells@[j])@ == cell_text(
                        members_view(members@),
                        self@[j].key,
                    ),
            decreases self.columns@.len() - i,
        {
            cells.push(cell(members, &self.columns[i].0));
            i += 1;
        }
        cells
    }
}

/// The text that a record with the given members shows under `key`.
pub fn cell(members: &Vec<Member>, key: &String) -> (text: String)
    ensures
        text@ == cell_text(members_view(members@), key@),
{
    let ghost seen = members_view(members@);
    let mut i: usize = 0;
    while i < members.len()
        invariant
            i <= members@.len(),
            seen == members_view(members@),
            forall|j: int| 0 <= j < i ==> (#[trigger] seen[j]).key != key@,
        decreases members@.len() - i,
    {
        if members[i].key == *key {
            assert(first_under(seen, key@, i as int));
            return members[i].text.clone();
        }
        i += 1;
    }
    String::new()
}

/// The column configuration of `records`: their schema.
pub fn build_config(records: &[Record]) -> (config: TableViewConfig)
    ensures
        config@ == schema_of(rows_of(records@)),
{
    let ghost rows = rows_of(records@);
    let mut config = TableViewConfig::new();
    let mut i: usize = 0;
    while i < records.len()
        invariant
            i <= records@.len(),
            rows == rows_of(records@),
            config@ == schema_of(rows.take(i as int)),
        decreases records@.len() - i,
    {
        proof {
            let upto = rows.take(i + 1);
            assert(upto.drop_last() =~= rows.take(i as int));
        }
        let members = records[i].members();
        config.scan(&members);
        i += 1;
    }
    assert(rows.take(i as int) =~= rows);
    config
}

/// What the table shows: the headings, the column widths, one row of cells
/// for each record, and which row is selected.
#[derive(Debug, Clone, PartialEq, Eq)]
pub struct TableFrame {
    pub header: Vec<String>,
    pub widths: Vec<usize>,
    pub rows: Vec<Vec<String>>,
    pub selected: usize,
}

/// The table of `records` with row `selected` marked, as mathematics.
pub struct TableFrameView {
    pub header: Seq<Seq<char>>,
    pub widths: Seq<nat>,
    pub rows: Seq<Seq<Seq<char>>>,
    pub selected: nat,
}

impl View for TableFrame {
    type V = TableFrameView;

    open spec fn view(&self) -> TableFrameView {
        TableFrameView {
            header: strings_view(self.header@),
            widths: self.widths@.map_values(|w: usize| w as nat),
            rows: self.rows@.map_values(|cells: Vec<String>| strings_view(cells@)),
            selected: self.selected as nat,
        }
    }
}

/// The table that a schema gives for the records with the given members: the
/// headings and widths of the columns, and each record's row under them.
pub open spec fn table_of(cols: Seq<ColumnView>, rows: Seq<Seq<MemberView>>, selected: nat)
    -> TableFrameView {
    TableFrameView {
        header: header_of(cols),
        widths: Seq::new(cols.len(), |i: int| cols[i].min_width),
        rows: Seq::new(rows.len(), |r: int| row_of(cols, rows[r])),
        selected,
    }
}

/// The row on which the cursor stands after `key`, among `count` rows. Down
/// stops at the last row and up at the first; no other key moves it.
pub open spec fn moved(selected: nat, count: nat, key: Key) -> nat {
    match key {
        Key::Down => if selected + 1 < count { selected + 1 } else { selected },
        Key::Up => if selected > 0 { (selected - 1) as nat } else { selected },
        _ => selected,
    }
}

/// The row nearest to `row` among `count` rows: `row` itself where there is
/// such a row, else the last one, and 0 where there is none.
pub open spec fn clamped(row: nat, count: nat) -> nat {
    if row < count {
        row
    } else if count > 0 {
        (count - 1) as nat
    } else {
        0
    }
}

/// The cursor stays on a row: a move from a row that the table has, or from
/// row 0 of a table without rows, leads to such a row.
pub proof fn lemma_moved_stays(selected: nat, count: nat, key: Key)
    requires
        selected == clamped(selected, count),
    ensures
        moved(selected, count, key) == clamped(moved(selected, count, key), count),
{
}

/// Schema stability: the schema depends on nothing but the members of the
/// records, in their order. Two streams whose records agree in their members
/// have the same columns in the same order with the same widths, and the
/// same table.
pub proof fn lemma_schema_stable(a: Seq<Record>, b: Seq<Record>, selected: nat)
    requires
        a.len() == b.len(),
        forall|i: int| 0 <= i < a.len() ==> (#[trigger] a[i]).spec_members() == b[i].spec_members(),
    ensures
        schema_of(rows_of(a)) == schema_of(rows_of(b)),
        table_of(schema_of(rows_of(a)), rows_of(a), selected) == table_of(
            schema_of(rows_of(b)),
            rows_of(b),
            selected,
        ),
{
    assert(rows_of(a) =~= rows_of(b));
}

/// What can be laid out as a row of a table.
pub trait RowAble {
    /// The members from which the row is made.
    spec fn spec_row_members(&self) -> Seq<MemberView>;

    /// The cells of the row under `config`: one for each column, in the order
    /// of the columns.
    fn to_row(&self, r: RowViewType, config: &TableViewConfig) -> (cells: Vec<String>)
        ensures
            strings_view(cells@) == row_of(config@, self.spec_row_members()),
    ;
}

impl RowAble for Record {
    open spec fn spec_row_members(&self) -> Seq<MemberView> {
        self.spec_members()
    }

    fn to_row(&self, r: RowViewType, config: &TableViewConfig) -> (cells: Vec<String>) {
        match r {
            RowViewType::ObjSimple => {
                let members = self.members();
                config.row(&members)
            },
        }
    }
}

/// The records of a source as a table, with a cursor on one row.
pub struct TableView<S: RecordSource> {
    record_source: S,
    table_view_config: Option<TableViewConfig>,
    selected: usize,
}

impl<S: RecordSource> TableView<S> {
    #[verifier::type_invariant]
    spec fn inv(self) -> bool {
        &&& self.selected == clamped(self.selected as nat, self.record_source.spec_records().len())
        &&& self.table_view_config matches Some(config) ==> config@ == schema_of(
            rows_of(self.record_source.spec_records()),
        )
    }

    /// The records shown.
    pub closed spec fn spec_records(&self) -> Seq<Record> {
        self.record_source.spec_records()
    }

    /// The title of the source.
    pub closed spec fn spec_title(&self) -> Seq<char> {
        self.record_source.spec_title()
    }

    /// The row on which the cursor stands.
    pub closed spec fn spec_selected(&self) -> nat {
        self.selected as nat
    }

    /// Whether the column configuration has been computed.
    pub closed spec fn configured(&self) -> bool {
        self.table_view_config.is_some()
    }

    /// The schema of the records shown.
    pub open spec fn spec_schema(&self) -> Seq<ColumnView> {
        schema_of(rows_of(self.spec_records()))
    }

    /// A view of `record_source` with the cursor on the first row. The column
    /// configuration is computed when it is first asked for.
    pub fn new(record_source: S) -> (view: TableView<S>)
        ensures
            view.spec_records() == record_source.spec_records(),
            view.spec_title() == record_source.spec_title(),
            view.spec_selected() == 0,
            !view.configured(),
    {
        TableView { record_source, table_view_config: None, selected: 0 }
    }

    /// The same view with the cursor on `row`, or on the nearest row there is.
    pub fn with_selected(self, row: usize) -> (view: TableView<S>)
        ensures
            view.spec_records() == self.spec_records(),
            view.spec_title() == self.spec_title(),
            view.configured() == self.configured(),
            view.spec_selected() == clamped(row as nat, self.spec_records().len()),
    {
        proof {
            use_type_invariant(&self);
        }
        let count = self.record_source.records().len();
        let selected = if row < count {
            row
        } else if count > 0 {
            count - 1
        } else {
            0
        };
        TableView {
            record_source: self.record_source,
            table_view_config: self.table_view_config,
            selected,
        }
    }

    /// Computes the column configuration, if it has not been computed yet:
    /// the schema of the records, scanned once in their order. A later call
    /// finds it and computes nothing.
    pub fn update_config(&mut self) -> (config: &TableViewConfig)
        ensures
            config@ == old(self).spec_schema(),
            schema_wf(config@),
            final(self).configured(),
            final(self).spec_records() == old(self).spec_records(),
            final(self).spec_title() == old(self).spec_title(),
            final(self).spec_selected() == old(self).spec_selected(),
    {
        proof {
            use_type_invariant(&*self);
            lemma_schema_wf(rows_of(self.spec_records()));
        }
        if self.table_view_config.is_none() {
            let config = build_config(self.record_source.records());
            self.table_view_config = Some(config);
        }
        self.table_view_config.as_ref().unwrap()
    }

    /// The table as it is to be drawn: headings, widths and rows all laid
    /// out by the one schema of the records, so that cell `i` of every row
    /// stands under heading `i`. Computes the column configuration if that
    /// has not been done.
    pub fn render(&mut self) -> (frame: TableFrame)
        ensures
            frame@ == table_of(
                old(self).spec_schema(),
                rows_of(old(self).spec_records()),
                old(self).spec_selected(),
            ),
            final(self).configured(),
            final(self).spec_records() == old(self).spec_records(),
            final(self).spec_title() == old(self).spec_title(),
            final(self).spec_selected() == old(self).spec_selected(),
    {
        self.update_config();
        proof {
            use_type_invariant(&*self);
        }
        let config = self.table_view_config.as_ref().unwrap();
        let records = self.record_source.records();
        let ghost cols = config@;
        let ghost all = rows_of(records@);
        let mut rows: Vec<Vec<String>> = Vec::new();
        let mut i: usize = 0;
        while i < records.len()
            invariant
                i <= records@.len(),
                cols == config@,
                all == rows_of(records@),
                rows@.len() == i,
                forall|r: int|
                    0 <= r < i ==> strings_view((#[trigger] rows@[r])@) == row_of(cols, all[r]),
            decreases records@.len() - i,
        {
            rows.push(records[i].to_row(RowViewType::ObjSimple, config));
            i += 1;
        }
        let frame = TableFrame {
            header: config.header(),
            widths: config.widths(),
            rows,
            selected: self.selected,
        };
        proof {
            let want = table_of(cols, all, self.selected as nat);
            assert(frame@.widths =~= want.widths);
            assert(frame@.rows =~= want.rows);
        }
        frame
    }

    /// Moves the cursor: down by one row, but not past the last; up by one
    /// row, but not before the first. Any other key is ignored.
    pub fn handle_keypress(&mut self, key: Key)
        ensures
            final(self).spec_selected() == moved(
                old(self).spec_selected(),
                old(self).spec_records().len(),
                key,
            ),
            final(self).configured() == old(self).configured(),
            final(self).spec_records() == old(self).spec_records(),
            final(self).spec_title() == old(self).spec_title(),
    {
        proof {
            use_type_invariant(&*self);
        }
        let count = self.record_source.records().len();
        match key {
            Key::Down => {
                if self.selected < usize::MAX && self.selected + 1 < count {
                    self.selected = self.selected + 1;
                }
            },
            Key::Up => {
                if self.selected > 0 {
                    self.selected = self.selected - 1;
                }
            },
            _ => {},
        }
    }

    /// The record under the cursor. Only a source without records has none.
    pub fn selected_record(&self) -> (record: Option<&Record>)
        ensures
            record.is_some() == (self.spec_records().len() > 0),
            record matches Some(r) ==> *r == self.spec_records()[self.spec_selected() as int],
    {
        proof {
            use_type_invariant(self);
        }
        let records = self.record_source.records();
        if self.selected < records.len() {
            Some(&records[self.selected])
        } else {
            None
        }
    }

    /// The source of the records.
    pub fn source(&self) -> (source: &S)
        ensures
            source.spec_records() == self.spec_records(),
            source.spec_title() == self.spec_title(),
    {
        &self.record_source
    }

    /// The row on which the cursor stands.
    pub fn selected(&self) -> (row: usize)
        ensures
            row == self.spec_selected(),
            row == clamped(row as nat, self.spec_records().len()),
    {
        proof {
            use_type_invariant(self);
        }
        self.selected
    }
}

} // verus!
