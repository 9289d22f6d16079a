//! The detail view: one record, shown as indented JSON.

use crate::json::{pretty, pretty_text};
use crate::model::Record;
use crate::ui::key::Key;
use vstd::prelude::*;
use vstd::string::StringExecFns;

verus! {

/// The text that the detail view shows for `record`: its value as indented
/// JSON, `null` for a record without a value, and nothing where the value
/// cannot be written.
pub open spec fn detail_text(record: Record) -> Seq<char> {
    match record.value {
        Some(v) => match pretty(v) {
            Some(text) => text,
            None => Seq::empty(),
        },
        None => "null"@,
    }
}

/// A view of one record.
pub struct DetailView {
    record: Record,
}

impl DetailView {
    /// The record shown.
    pub closed spec fn spec_record(&self) -> Record {
        self.record
    }

    /// A view of `record`.
    pub fn new(record: Record) -> (view: DetailView)
        ensures
            view.spec_record() == record,
    {
        DetailView { record }
    }

    /// The record shown.
    pub fn record(&self) -> (record: &Record)
        ensures
            *record == self.spec_record(),
    {
        &self.record
    }

    /// The text to draw.
    pub fn render(&self) -> (text: String)
        ensures
            text@ == detail_text(self.spec_record()),
    {
        match &self.record.value {
            Some(v) => match pretty_text(v) {
                Ok(text) => text,
                Err(_) => String::new(),
            },
            None => String::from_str("null"),
        }
    }

    /// A detail view has nothing to navigate: every key leaves it as it is.
    pub fn handle_keypress(&mut self, _key: Key)
        ensures
            final(self).spec_record() == old(self).spec_record(),
    {
    }
}

} // verus!
