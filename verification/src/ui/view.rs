//! The application around the multiplexer: what a key press does to it, and
//! the whole screen that it shows.

use crate::model::{Record, RecordSource};
use crate::text::framed;
use crate::ui::key::Key;
use crate::ui::mux::{frame_of, mux_wf, stepped, Mux, MuxFrame, MuxState};
use crate::ui::table::TableView;
use vstd::prelude::*;

verus! {

/// The key that ends the session, whatever view is shown.
pub const QUIT_KEY: char = 'q';

/// What the input loop does after a key press.
#[derive(Clone, Copy, Debug, PartialEq, Eq, Structural)]
pub enum Action {
    /// Draw again and wait for the next key.
    Continue,
    /// Leave the loop.
    Quit,
}

/// The screen: the title of the frame around everything, and the
/// multiplexer's frame inside it.
#[derive(Debug, Clone, PartialEq, Eq)]
pub struct AppFrame {
    pub title: String,
    pub mux: MuxFrame,
}

/// The title line for a source with the given title.
pub open spec fn title_line(title: Seq<char>) -> Seq<char> {
    " jlv - "@ + title + " "@
}

/// The composition root: it owns the multiplexer, and through it the table
/// and the source.
pub struct App<S: RecordSource> {
    mux: Mux<S>,
}

impl<S: RecordSource> View for App<S> {
    type V = MuxState;

    closed spec fn view(&self) -> MuxState {
        self.mux@
    }
}

impl<S: RecordSource> App<S> {
    /// The records shown.
    pub closed spec fn spec_records(&self) -> Seq<Record> {
        self.mux.spec_records()
    }

    /// The title of the source.
    pub closed spec fn spec_title(&self) -> Seq<char> {
        self.mux.spec_title()
    }

    /// The application over `record_source`: the table is shown, with its
    /// cursor on the first row, and no tab is open.
    pub fn new(record_source: S) -> (app: App<S>)
        ensures
            app@ == (MuxState { tabs: Seq::empty(), focus: -1, selected: 0 }),
            app.spec_records() == record_source.spec_records(),
            app.spec_title() == record_source.spec_title(),
    {
        App { mux: Mux::new(TableView::new(record_source)) }
    }

    /// The multiplexer.
    pub fn mux(&self) -> (mux: &Mux<S>)
        ensures
            mux@ == self@,
            mux.spec_records() == self.spec_records(),
            mux.spec_title() == self.spec_title(),
    {
        &self.mux
    }

    /// Handles one key press and says whether the loop goes on. The quit key
    /// ends it from every view and changes nothing; what any other key does
    /// is the multiplexer's affair.
    pub fn handle_keypress(&mut self, key: Key) -> (action: Action)
        ensures
            action == (if key == Key::Char(QUIT_KEY) {
                Action::Quit
            } else {
                Action::Continue
            }),
            final(self)@ == stepped(old(self)@, old(self).spec_records(), key),
            key == Key::Char(QUIT_KEY) ==> final(self)@ == old(self)@,
            mux_wf(final(self)@),
            final(self).spec_records() == old(self).spec_records(),
            final(self).spec_title() == old(self).spec_title(),
    {
        self.mux.handle_keypress(key);
        if key == Key::Char(QUIT_KEY) {
            Action::Quit
        } else {
            Action::Continue
        }
    }

    /// The screen to draw.
    pub fn render(&mut self) -> (frame: AppFrame)
        ensures
            frame.title@ == title_line(old(self).spec_title()),
            frame.mux@ == frame_of(old(self)@, old(self).spec_records()),
            final(self)@ == old(self)@,
            final(self).spec_records() == old(self).spec_records(),
            final(self).spec_title() == old(self).spec_title(),
    {
        let title = self.mux.title();
        let mux = self.mux.render();
        AppFrame { title: framed(" jlv - ", title.as_str(), " "), mux }
    }
}

} // verus!
