//! From lines of text to records.

use crate::json::parsed;
use crate::model::Record;
use vstd::prelude::*;

verus! {

/// Whether `records` are the records of `lines`: as many, each with its
/// position, its line's text, and the value that the line parses to.
pub open spec fn records_of_lines(records: Seq<Record>, lines: Seq<String>) -> bool {
    &&& records.len() == lines.len()
    &&& forall|i: int|
        0 <= i < records.len() ==> {
            &&& (#[trigger] records[i]).seq_no == i
            &&& records[i].raw@ == lines[i]@
            &&& records[i].value == parsed(lines[i]@)
        }
}

/// One record for each line, in the order of the lines. A line that is not
/// valid JSON gives a record without a value, and the records after it are
/// made all the same.
pub fn records_from_lines(lines: &Vec<String>) -> (records: Vec<Record>)
    ensures
        records_of_lines(records@, lines@),
{
    let mut records: Vec<Record> = Vec::new();
    let mut i: usize = 0;
    while i < lines.len()
        invariant
            i <= lines@.len(),
            records_of_lines(records@, lines@.take(i as int)),
        decreases lines@.len() - i,
    {
        records.push(Record::from_str(i, lines[i].as_str()));
        i += 1;
    }
    records
}

} // verus!
