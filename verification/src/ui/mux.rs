//! The view multiplexer: one table, any number of detail tabs, and the focus
//! that says which of them is shown.

use crate::model::{rows_of, Record, RecordSource};
use crate::text::{decimal, decimal_of, strings_view};
use crate::ui::detail::{detail_text, DetailView};
use crate::ui::key::Key;
use crate::ui::schema::schema_of;
use crate::ui::table::{moved, table_of, TableFrame, TableFrameView, TableView};
use vstd::prelude::*;
use vstd::string::StringExecFns;

verus! {

/// Where a tab switch leads.
#[derive(Clone, Copy, Debug, PartialEq, Eq, Structural)]
pub enum TabDestination {
    /// To the next detail tab, if there is one.
    Forward,
    /// To the previous tab, and from the first tab to the table.
    Backward,
    /// Straight to the table.
    Home,
}

/// The function key that moves to the table.
pub const HOME_KEY: u8 = 5;

/// The function key that moves one tab back.
pub const PREV_KEY: u8 = 6;

/// The function key that moves one tab on.
pub const NEXT_KEY: u8 = 8;

/// The state of the multiplexer: the records of the open tabs in their
/// order, the focus (-1 for the table, else the position of a tab), and the
/// row on which the table's cursor stands.
pub struct MuxState {
    pub tabs: Seq<Record>,
    pub focus: int,
    pub selected: nat,
}

/// The focus names the table or an open tab.
pub open spec fn mux_wf(s: MuxState) -> bool {
    -1 <= s.focus < s.tabs.len()
}

/// The state after a tab for `record` was opened: the tab is the last one,
/// and it has the focus.
pub open spec fn opened(s: MuxState, record: Record) -> MuxState {
    MuxState { tabs: s.tabs.push(record), focus: s.tabs.len() as int, ..s }
}

/// The state after the focused tab was closed: the tab is gone and the focus
/// moves one step towards the table. With the focus on the table nothing
/// changes.
pub open spec fn closed(s: MuxState) -> MuxState {
    if 0 <= s.focus < s.tabs.len() {
        MuxState { tabs: s.tabs.remove(s.focus), focus: s.focus - 1, ..s }
    } else {
        s
    }
}

/// The focus after a tab switch among `tabs` open tabs: one step on, but
/// not past the last tab; one step back, but not before the table; or
/// straight to the table.
pub open spec fn switched_focus(focus: int, tabs: nat, direction: TabDestination) -> int {
    match direction {
        TabDestination::Forward => if focus + 1 < tabs {
            focus + 1
        } else {
            focus
        },
        TabDestination::Backward => if focus > -1 {
            focus - 1
        } else {
            focus
        },
        TabDestination::Home => -1,
    }
}

/// The state after a tab switch: only the focus moves.
pub open spec fn switched(s: MuxState, direction: TabDestination) -> MuxState {
    MuxState { focus: switched_focus(s.focus, s.tabs.len(), direction), ..s }
}

/// The state after one key press, over a table of `records`. Confirm opens a
/// tab for the selected record from the table, and closes the focused tab
/// from a tab; the three tab keys switch; any other key goes to the view
/// that has the focus, where the table moves its cursor and a tab does
/// nothing.
pub open spec fn stepped(s: MuxState, records: Seq<Record>, key: Key) -> MuxState {
    if key == Key::Enter {
        if s.focus == -1 {
            if records.len() > 0 {
                opened(s, records[s.selected as int])
            } else {
                s
            }
        } else {
            closed(s)
        }
    } else if key == Key::F(NEXT_KEY) {
        switched(s, TabDestination::Forward)
    } else if key == Key::F(PREV_KEY) {
        switched(s, TabDestination::Backward)
    } else if key == Key::F(HOME_KEY) {
        switched(s, TabDestination::Home)
    } else if s.focus == -1 {
        MuxState { selected: moved(s.selected, records.len(), key), ..s }
    } else {
        s
    }
}

/// The state after a sequence of key presses, taken in order.
pub open spec fn ran(s: MuxState, records: Seq<Record>, keys: Seq<Key>) -> MuxState
    decreases keys.len(),
{
    if keys.len() == 0 {
        s
    } else {
        stepped(ran(s, records, keys.drop_last()), records, keys.last())
    }
}

/// The multiplexer's invariant: a key press from a state whose focus names
/// the table or an open tab leads to such a state.
pub proof fn lemma_step_keeps_focus(s: MuxState, records: Seq<Record>, key: Key)
    requires
        mux_wf(s),
    ensures
        mux_wf(stepped(s, records, key)),
{
}

/// The multiplexer's invariant over time: after any sequence of key presses
/// the focus names the table or an open tab.
pub proof fn lemma_run_keeps_focus(s: MuxState, records: Seq<Record>, keys: Seq<Key>)
    requires
        mux_wf(s),
    ensures
        mux_wf(ran(s, records, keys)),
    decreases keys.len(),
{
    if keys.len() > 0 {
        lemma_run_keeps_focus(s, records, keys.drop_last());
        lemma_step_keeps_focus(ran(s, records, keys.drop_last()), records, keys.last());
    }
}

/// Opening a tab lands on it: the new tab is the last one, it shows the
/// record it was opened for, and it has the focus.
pub proof fn lemma_open_lands_on_new_tab(s: MuxState, record: Record)
    ensures
        opened(s, record).tabs.len() == s.tabs.len() + 1,
        opened(s, record).tabs.last() == record,
        opened(s, record).focus == opened(s, record).tabs.len() - 1,
{
}

/// Confirm on the table, over a table that has records, opens a tab for the
/// record under the cursor and lands on it.
pub proof fn lemma_confirm_opens(s: MuxState, records: Seq<Record>)
    requires
        s.focus == -1,
        records.len() > 0,
    ensures
        stepped(s, records, Key::Enter) == opened(s, records[s.selected as int]),
        stepped(s, records, Key::Enter).focus == stepped(s, records, Key::Enter).tabs.len() - 1,
{
}

/// Closing the only open tab returns to the table, by the close itself and
/// by Confirm on that tab.
pub proof fn lemma_close_only_tab(s: MuxState, records: Seq<Record>)
    requires
        s.tabs.len() == 1,
        s.focus == 0,
    ensures
        closed(s).focus == -1,
        closed(s).tabs.len() == 0,
        stepped(s, records, Key::Enter) == closed(s),
{
}

/// Confirm on the table and Confirm again, with no tab open before: the tab
/// that the first opened is closed by the second, and the table is shown as
/// it was.
pub proof fn lemma_confirm_twice(s: MuxState, records: Seq<Record>)
    requires
        s.focus == -1,
        s.tabs.len() == 0,
        records.len() > 0,
    ensures
        stepped(stepped(s, records, Key::Enter), records, Key::Enter) == s,
{
    let once = stepped(s, records, Key::Enter);
    assert(once.tabs.remove(0) =~= s.tabs);
}

/// The open tabs and the focus among them.
struct TabStrip {
    tabs: Vec<DetailView>,
    focus: Option<usize>,
}

impl TabStrip {
    #[verifier::type_invariant]
    spec fn inv(self) -> bool {
        self.focus matches Some(i) ==> i < self.tabs@.len()
    }

    spec fn records(self) -> Seq<Record> {
        Seq::new(self.tabs@.len(), |i: int| self.tabs@[i].spec_record())
    }

    spec fn position(self) -> int {
        match self.focus {
            Some(i) => i as int,
            None => -1,
        }
    }

    fn new() -> (strip: TabStrip)
        ensures
            strip.records() == Seq::<Record>::empty(),
            strip.position() == -1,
    {
        TabStrip { tabs: Vec::new(), focus: None }
    }

    fn open(&mut self, record: Record)
        ensures
            final(self).records() == old(self).records().push(record),
            final(self).position() == old(self).records().len(),
    {
        let mut tabs: Vec<DetailView> = Vec::new();
        self.focus = None;
        core::mem::swap(&mut self.tabs, &mut tabs);
        let at = tabs.len();
        tabs.push(DetailView::new(record));
        self.tabs = tabs;
        self.focus = Some(at);
    }

    fn close(&mut self)
        ensures
            old(self).position() >= 0 ==> final(self).records() == old(self).records().remove(
                old(self).position(),
            ) && final(self).position() == old(self).position() - 1,
            old(self).position() < 0 ==> final(self).records() == old(self).records()
                && final(self).position() == old(self).position(),
    {
        proof {
            use_type_invariant(&*self);
        }
        match self.focus {
            Some(i) => {
                let mut tabs: Vec<DetailView> = Vec::new();
                self.focus = None;
                core::mem::swap(&mut self.tabs, &mut tabs);
                tabs.remove(i);
                self.tabs = tabs;
                if i > 0 {
                    self.focus = Some(i - 1);
                }
            },
            None => {},
        }
    }

    fn switch(&mut self, direction: TabDestination)
        ensures
            final(self).records() == old(self).records(),
            final(self).position() == switched_focus(
                old(self).position(),
                old(self).records().len(),
                direction,
            ),
    {
        proof {
            use_type_invariant(&*self);
        }
        let count = self.tabs.len();
        match direction {
            TabDestination::Forward => {
                match self.focus {
                    Some(i) => {
                        if i + 1 < count {
                            self.focus = Some(i + 1);
                        }
                    },
                    None => {
                        if count > 0 {
                            self.focus = Some(0);
                        }
                    },
                }
            },
            TabDestination::Backward => {
                match self.focus {
                    Some(i) => {
                        if i > 0 {
                            self.focus = Some(i - 1);
                        } else {
                            self.focus = None;
                        }
                    },
                    None => {},
                }
            },
            TabDestination::Home => {
                self.focus = None;
            },
        }
    }
}

/// What fills the area above the tab strip.
#[derive(Debug, Clone, PartialEq, Eq)]
pub enum MuxBody {
    /// The table.
    Table(TableFrame),
    /// The text of the focused detail tab.
    Detail(String),
}

/// What the multiplexer shows: the focused view, the labels of the tab
/// strip, and which label is marked as active.
#[derive(Debug, Clone, PartialEq, Eq)]
pub struct MuxFrame {
    pub body: MuxBody,
    pub labels: Vec<String>,
    pub active: usize,
}

/// The body of a frame, as mathematics.
pub enum MuxBodyView {
    Table(TableFrameView),
    Detail(Seq<char>),
}

/// A frame, as mathematics.
pub struct MuxFrameView {
    pub body: MuxBodyView,
    pub labels: Seq<Seq<char>>,
    pub active: nat,
}

impl View for MuxBody {
    type V = MuxBodyView;

    open spec fn view(&self) -> MuxBodyView {
        match self {
            MuxBody::Table(frame) => MuxBodyView::Table(frame@),
            MuxBody::Detail(text) => MuxBodyView::Detail(text@),
        }
    }
}

impl View for MuxFrame {
    type V = MuxFrameView;

    open spec fn view(&self) -> MuxFrameView {
        MuxFrameView {
            body: self.body@,
            labels: strings_view(self.labels@),
            active: self.active as nat,
        }
    }
}

/// The number of labels that stand before the first tab's label.
pub const LEADING_LABELS: usize = 4;

/// The label of tab `i`: the tabs are counted from 1.
pub open spec fn tab_label(i: int) -> Seq<char> {
    "Detail "@ + decimal_of((i + 1) as nat)
}

/// The labels of the strip with `tabs` open tabs: the key hints, with the
/// table's label last among them, then one label for each tab, then the hint
/// for leaving.
pub open spec fn strip_labels(tabs: nat) -> Seq<Seq<char>> {
    seq!["F1"@, "Prev (F6)"@, "Next (F8)"@, "Table (F5)"@] + Seq::new(
        tabs,
        |i: int| tab_label(i),
    ) + seq!["Exit (q)"@]
}

/// The frame of a state over a table of `records`: the focused view, the
/// strip's labels, and the active label, which is the table's label for the
/// table and the tab's own label for a tab.
pub open spec fn frame_of(s: MuxState, records: Seq<Record>) -> MuxFrameView {
    MuxFrameView {
        body: if s.focus == -1 {
            MuxBodyView::Table(table_of(schema_of(rows_of(records)), rows_of(records), s.selected))
        } else {
            MuxBodyView::Detail(detail_text(s.tabs[s.focus]))
        },
        labels: strip_labels(s.tabs.len()),
        active: (s.focus + LEADING_LABELS) as nat,
    }
}

/// The table and the detail tabs, of which one is shown.
pub struct Mux<S: RecordSource> {
    table_view: TableView<S>,
    strip: TabStrip,
}

impl<S: RecordSource> View for Mux<S> {
    type V = MuxState;

    closed spec fn view(&self) -> MuxState {
        MuxState {
            tabs: self.strip.records(),
            focus: self.strip.position(),
            selected: self.table_view.spec_selected(),
        }
    }
}

impl<S: RecordSource> Mux<S> {
    /// The records of the table.
    pub closed spec fn spec_records(&self) -> Seq<Record> {
        self.table_view.spec_records()
    }

    /// The title of the table's source.
    pub closed spec fn spec_title(&self) -> Seq<char> {
        self.table_view.spec_title()
    }

    /// A multiplexer over `table_view`, with no tab open and the table shown.
    pub fn new(table_view: TableView<S>) -> (mux: Mux<S>)
        ensures
            mux@ == (MuxState {
                tabs: Seq::empty(),
                focus: -1,
                selected: table_view.spec_selected(),
            }),
            mux.spec_records() == table_view.spec_records(),
            mux.spec_title() == table_view.spec_title(),
    {
        Mux { table_view, strip: TabStrip::new() }
    }

    /// Handles one key press: see [`stepped`]. Whatever the key, the focus
    /// names the table or an open tab afterwards.
    pub fn handle_keypress(&mut self, key: Key)
        ensures
            final(self)@ == stepped(old(self)@, old(self).spec_records(), key),
            mux_wf(final(self)@),
            final(self).spec_records() == old(self).spec_records(),
            final(self).spec_title() == old(self).spec_title(),
    {
        proof {
            use_type_invariant(&self.strip);
        }
        match key {
            Key::Enter => {
                if self.on_table() {
                    match self.table_view.selected_record() {
                        Some(record) => {
                            let record = record.clone();
                            self.strip.open(record);
                        },
                        None => {},
                    }
                } else {
                    self.strip.close();
                }
            },
            Key::F(n) => {
                if n == NEXT_KEY {
                    self.strip.switch(TabDestination::Forward);
                } else if n == PREV_KEY {
                    self.strip.switch(TabDestination::Backward);
                } else if n == HOME_KEY {
                    self.strip.switch(TabDestination::Home);
                } else if self.on_table() {
                    self.table_view.handle_keypress(key);
                }
            },
            _ => {
                if self.on_table() {
                    self.table_view.handle_keypress(key);
                }
            },
        }
        proof {
            use_type_invariant(&self.strip);
        }
    }

    /// Opens a tab for `record` and moves the focus to it.
    pub fn add_detail_view(&mut self, record: Record)
        ensures
            final(self)@ == opened(old(self)@, record),
            mux_wf(final(self)@),
            final(self)@.focus == final(self)@.tabs.len() - 1,
            final(self).spec_records() == old(self).spec_records(),
            final(self).spec_title() == old(self).spec_title(),
    {
        self.strip.open(record);
    }

    /// Closes the focused tab and moves the focus one step towards the
    /// table. With the table shown there is nothing to close.
    pub fn close_current_tab(&mut self)
        ensures
            final(self)@ == closed(old(self)@),
            mux_wf(final(self)@),
            final(self).spec_records() == old(self).spec_records(),
            final(self).spec_title() == old(self).spec_title(),
    {
        proof {
            use_type_invariant(&self.strip);
        }
        self.strip.close();
        proof {
            use_type_invariant(&self.strip);
        }
    }

    /// The focus: `None` for the table, else the position of the focused tab
    /// among the open tabs.
    pub fn focus(&self) -> (focus: Option<usize>)
        ensures
            mux_wf(self@),
            match focus {
                Some(i) => self@.focus == i,
                None => self@.focus == -1,
            },
    {
        proof {
            use_type_invariant(&self.strip);
        }
        self.strip.focus
    }

    /// The table.
    pub fn table_view(&self) -> (table_view: &TableView<S>)
        ensures
            table_view.spec_records() == self.spec_records(),
            table_view.spec_title() == self.spec_title(),
            table_view.spec_selected() == self@.selected,
    {
        &self.table_view
    }

    /// The title of the table's source.
    pub fn title(&self) -> (title: String)
        ensures
            title@ == self.spec_title(),
    {
        self.table_view.source().title()
    }

    /// The number of views: the table and the open tabs.
    pub fn num_tabs(&self) -> (n: usize)
        requires
            self@.tabs.len() < usize::MAX,
        ensures
            n == 1 + self@.tabs.len(),
    {
        1 + self.strip.tabs.len()
    }

    /// Whether the table is shown.
    pub fn on_table(&self) -> (on_table: bool)
        ensures
            on_table == (self@.focus == -1),
            mux_wf(self@),
    {
        proof {
            use_type_invariant(&self.strip);
        }
        self.strip.focus.is_none()
    }

    /// The frame to draw: the table while the table has the focus, else the
    /// focused tab; below it the strip with one label for each open tab, of
    /// which the label of the focused view is the active one.
    pub fn render(&mut self) -> (frame: MuxFrame)
        ensures
            frame@ == frame_of(old(self)@, old(self).spec_records()),
            final(self)@ == old(self)@,
            mux_wf(final(self)@),
            final(self).spec_records() == old(self).spec_records(),
            final(self).spec_title() == old(self).spec_title(),
    {
        proof {
            use_type_invariant(&self.strip);
        }
        let body = match self.strip.focus {
            None => MuxBody::Table(self.table_view.render()),
            Some(i) => MuxBody::Detail(self.strip.tabs[i].render()),
        };
        let mut labels: Vec<String> = Vec::new();
        labels.push(String::from_str("F1"));
        labels.push(String::from_str("Prev (F6)"));
        labels.push(String::from_str("Next (F8)"));
        labels.push(String::from_str("Table (F5)"));
        let mut active: usize = LEADING_LABELS - 1;
        let count = self.strip.tabs.len();
        let ghost focus = self.strip.position();
        let mut i: usize = 0;
        while i < count
            invariant
                i <= count,
                -1 <= focus < count,
                focus == self.strip.position(),
                labels@.len() == LEADING_LABELS + i,
                labels@[0]@ == "F1"@,
                labels@[1]@ == "Prev (F6)"@,
                labels@[2]@ == "Next (F8)"@,
                labels@[3]@ == "Table (F5)"@,
                forall|j: int| 0 <= j < i ==> (#[trigger] labels@[LEADING_LABELS + j])@ == tab_label(j),
                active == (if focus < i { focus + LEADING_LABELS } else { LEADING_LABELS - 1 }),
            decreases count - i,
        {
            if self.strip.focus == Some(i) {
                active = labels.len();
            }
            let number = decimal(i + 1);
            labels.push(String::from_str("Detail ").concat(number.as_str()));
            i += 1;
        }
        labels.push(String::from_str("Exit (q)"));
        let frame = MuxFrame { body, labels, active };
        proof {
            let want = strip_labels(count as nat);
            assert forall|j: int| 0 <= j < want.len() implies frame@.labels[j] == want[j] by {
                if LEADING_LABELS <= j < LEADING_LABELS + count {
                    let k = j - LEADING_LABELS;
                    assert(frame.labels@[LEADING_LABELS + k]@ == tab_label(k));
                }
            }
            assert(frame@.labels =~= want);
        }
        frame
    }

    /// Moves the focus among the views, stopping at the last tab and at the
    /// table.
    pub fn switch_tab(&mut self, direction: TabDestination)
        ensures
            final(self)@ == switched(old(self)@, direction),
            mux_wf(final(self)@),
            final(self).spec_records() == old(self).spec_records(),
            final(self).spec_title() == old(self).spec_title(),
    {
        self.strip.switch(direction);
        proof {
            use_type_invariant(&self.strip);
        }
    }
}

} // verus!
