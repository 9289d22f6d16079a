//! Records and where they come from.

use crate::input::{records_from_lines, records_of_lines};
use crate::json::{clone_value, object_members, parse_value, parsed, value_members};
use serde_json::Value;
use vstd::prelude::*;

verus! {

/// One top-level member of a JSON object: its key, and the compact JSON text
/// of its value.
#[derive(Debug, Clone, PartialEq, Eq)]
pub struct Member {
    pub key: String,
    pub text: String,
}

/// A member as two character sequences.
pub struct MemberView {
    pub key: Seq<char>,
    pub text: Seq<char>,
}

impl View for Member {
    type V = MemberView;

    open spec fn view(&self) -> MemberView {
        MemberView { key: self.key@, text: self.text@ }
    }
}

/// The members of a list, each by its view.
pub open spec fn members_view(members: Seq<Member>) -> Seq<MemberView> {
    members.map_values(|m: Member| m@)
}

/// One line of input: its position, its text, and the JSON value it parses
/// to, if it is valid JSON.
#[derive(Debug)]
pub struct Record {
    pub seq_no: usize,
    pub raw: String,
    pub value: Option<Value>,
}

impl Record {
    /// The top-level members that the table shows for this record. A record
    /// without a value, or whose value is not an object, has none.
    pub open spec fn spec_members(&self) -> Seq<MemberView> {
        match self.value {
            Some(v) => match object_members(v) {
                Some(list) => list,
                None => Seq::empty(),
            },
            None => Seq::empty(),
        }
    }

    /// The record for line `i` with text `str`. A line that does not parse
    /// still gives a record, without a value.
    pub fn from_str(i: usize, str: &str) -> (r: Record)
        ensures
            r.seq_no == i,
            r.raw@ == str@,
            r.value == parsed(str@),
    {
        let value = match parse_value(str) {
            Ok(v) => Some(v),
            Err(_) => None,
        };
        Record { seq_no: i, raw: str.to_owned(), value }
    }

    /// The record's top-level members as plain strings.
    pub fn members(&self) -> (out: Vec<Member>)
        ensures
            members_view(out@) == self.spec_members(),
    {
        match &self.value {
            Some(v) => match value_members(v) {
                Some(list) => list,
                None => Vec::new(),
            },
            None => Vec::new(),
        }
    }
}

/// Whether each record sits at the position that its number gives.
pub open spec fn numbered(records: Seq<Record>) -> bool {
    forall|i: int| 0 <= i < records.len() ==> (#[trigger] records[i]).seq_no == i
}

/// The members of each record, in the order of the records.
pub open spec fn rows_of(records: Seq<Record>) -> Seq<Seq<MemberView>> {
    records.map_values(|r: Record| r.spec_members())
}

/// An ordered, read-only collection of records under a title.
pub trait RecordSource {
    /// The records, in source order.
    spec fn spec_records(&self) -> Seq<Record>;

    /// The title under which the records are shown.
    spec fn spec_title(&self) -> Seq<char>;

    /// All the records, each at the position that its number gives.
    fn records(&self) -> (records: &[Record])
        ensures
            records@ == self.spec_records(),
            numbered(records@),
    ;

    /// The display title.
    fn title(&self) -> (title: String)
        ensures
            title@ == self.spec_title(),
    ;
}

/// The records of one file, under the file's name.
pub struct FileRecordSource {
    title: String,
    records: Vec<Record>,
}

impl FileRecordSource {
    #[verifier::type_invariant]
    spec fn inv(self) -> bool {
        numbered(self.records@)
    }

    /// The source that holds the records of `lines` under `title`.
    pub fn from_lines(title: &str, lines: &Vec<String>) -> (source: FileRecordSource)
        ensures
            source.spec_title() == title@,
            records_of_lines(source.spec_records(), lines@),
    {
        FileRecordSource { title: title.to_owned(), records: records_from_lines(lines) }
    }
}

impl RecordSource for FileRecordSource {
    closed spec fn spec_records(&self) -> Seq<Record> {
        self.records@
    }

    closed spec fn spec_title(&self) -> Seq<char> {
        self.title@
    }

    fn records(&self) -> (records: &[Record]) {
        proof {
            use_type_invariant(self);
        }
        self.records.as_slice()
    }

    fn title(&self) -> (title: String) {
        self.title.clone()
    }
}

impl Clone for Record {
    fn clone(&self) -> (r: Record)
        ensures
            r == *self,
    {
        let value = match &self.value {
            Some(v) => Some(clone_value(v)),
            None => None,
        };
        Record { seq_no: self.seq_no, raw: self.raw.clone(), value }
    }
}

} // verus!
