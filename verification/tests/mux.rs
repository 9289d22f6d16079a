use jlv::model::{FileRecordSource, Record};
use jlv::ui::detail::DetailView;
use jlv::ui::key::Key;
use jlv::ui::mux::{Mux, MuxBody, TabDestination};
use jlv::ui::table::TableView;
use jlv::ui::view::{Action, App};

fn source(texts: &[&str]) -> FileRecordSource {
    let lines: Vec<String> = texts.iter().map(|t| t.to_string()).collect();
    FileRecordSource::from_lines("events.jsonl", &lines)
}

fn mux(texts: &[&str]) -> Mux<FileRecordSource> {
    Mux::new(TableView::new(source(texts)))
}

const THREE: [&str; 3] = ["{\"a\":1}", "{\"a\":2}", "{\"a\":3}"];

#[test]
fn detail_view_renders_indented_json() {
    let view = DetailView::new(Record::from_str(0, "{\"a\":1,\"b\":[true,\"x\"]}"));
    assert_eq!(view.render(), "{\n  \"a\": 1,\n  \"b\": [\n    true,\n    \"x\"\n  ]\n}");
}

#[test]
fn detail_view_of_a_scalar() {
    assert_eq!(DetailView::new(Record::from_str(0, "  42 ")).render(), "42");
    assert_eq!(DetailView::new(Record::from_str(0, "\"s\"")).render(), "\"s\"");
}

#[test]
fn detail_of_invalid_line_is_null() {
    let record = Record::from_str(4, "definitely not json");
    assert!(record.value.is_none());
    assert_eq!(DetailView::new(record).render(), "null");
}

#[test]
fn detail_view_ignores_keys() {
    let mut view = DetailView::new(Record::from_str(2, "{\"a\":1}"));
    let before = view.render();
    for key in [Key::Enter, Key::Up, Key::Down, Key::F(8), Key::Char('x'), Key::Other] {
        view.handle_keypress(key);
    }
    assert_eq!(view.render(), before);
    assert_eq!(view.record().seq_no, 2);
}

#[test]
fn new_mux_shows_the_table() {
    let m = mux(&THREE);
    assert!(m.on_table());
    assert_eq!(m.focus(), None);
    assert_eq!(m.num_tabs(), 1);
}

#[test]
fn confirm_opens_and_confirm_closes() {
    let mut m = mux(&THREE);
    m.handle_keypress(Key::Down);
    m.handle_keypress(Key::Down);
    m.handle_keypress(Key::Enter);
    assert!(!m.on_table());
    assert_eq!(m.focus(), Some(0));
    assert_eq!(m.num_tabs(), 2);
    assert_eq!(m.render().body, MuxBody::Detail("{\n  \"a\": 3\n}".to_string()));
    m.handle_keypress(Key::Enter);
    assert!(m.on_table());
    assert_eq!(m.focus(), None);
    assert_eq!(m.num_tabs(), 1);
    assert_eq!(m.table_view().selected(), 2);
}

#[test]
fn two_tabs_next_and_home() {
    let mut m = mux(&THREE);
    m.add_detail_view(Record::from_str(0, "{\"a\":1}"));
    m.add_detail_view(Record::from_str(1, "{\"a\":2}"));
    m.switch_tab(TabDestination::Home);
    m.handle_keypress(Key::F(8));
    assert_eq!(m.focus(), Some(0));
    m.handle_keypress(Key::F(8));
    assert_eq!(m.focus(), Some(1));
    m.handle_keypress(Key::F(8));
    assert_eq!(m.focus(), Some(1));
    m.handle_keypress(Key::F(5));
    assert_eq!(m.focus(), None);
    m.handle_keypress(Key::F(8));
    assert_eq!(m.focus(), Some(0));
    m.handle_keypress(Key::F(5));
    assert_eq!(m.focus(), None);
    assert_eq!(m.num_tabs(), 3);
}

#[test]
fn opening_a_tab_lands_on_it() {
    let mut m = mux(&THREE);
    for n in 0..5 {
        m.add_detail_view(Record::from_str(n, "{}"));
        assert_eq!(m.focus(), Some(n));
        assert_eq!(m.num_tabs(), n + 2);
    }
    m.switch_tab(TabDestination::Home);
    m.handle_keypress(Key::Enter);
    assert_eq!(m.focus(), Some(5));
}

#[test]
fn closing_the_only_tab_returns_to_the_table() {
    let mut m = mux(&THREE);
    m.add_detail_view(Record::from_str(0, "1"));
    assert_eq!(m.focus(), Some(0));
    m.close_current_tab();
    assert_eq!(m.focus(), None);
    assert_eq!(m.num_tabs(), 1);
}

#[test]
fn closing_a_tab_moves_one_step_towards_the_table() {
    let mut m = mux(&THREE);
    m.add_detail_view(Record::from_str(0, "\"first\""));
    m.add_detail_view(Record::from_str(1, "\"second\""));
    m.add_detail_view(Record::from_str(2, "\"third\""));
    m.switch_tab(TabDestination::Backward);
    assert_eq!(m.focus(), Some(1));
    m.close_current_tab();
    assert_eq!(m.focus(), Some(0));
    assert_eq!(m.num_tabs(), 3);
    assert_eq!(m.render().body, MuxBody::Detail("\"first\"".to_string()));
    m.switch_tab(TabDestination::Forward);
    assert_eq!(m.render().body, MuxBody::Detail("\"third\"".to_string()));
}

#[test]
fn closing_on_the_table_does_nothing() {
    let mut m = mux(&THREE);
    m.close_current_tab();
    assert_eq!(m.focus(), None);
    assert_eq!(m.num_tabs(), 1);
    m.add_detail_view(Record::from_str(0, "1"));
    m.switch_tab(TabDestination::Home);
    m.close_current_tab();
    assert_eq!(m.focus(), None);
    assert_eq!(m.num_tabs(), 2);
}

#[test]
fn backward_stops_at_the_table() {
    let mut m = mux(&THREE);
    m.add_detail_view(Record::from_str(0, "1"));
    m.add_detail_view(Record::from_str(1, "2"));
    m.handle_keypress(Key::F(6));
    assert_eq!(m.focus(), Some(0));
    m.handle_keypress(Key::F(6));
    assert_eq!(m.focus(), None);
    m.handle_keypress(Key::F(6));
    assert_eq!(m.focus(), None);
}

#[test]
fn forward_without_tabs_stays_on_the_table() {
    let mut m = mux(&THREE);
    m.switch_tab(TabDestination::Forward);
    assert_eq!(m.focus(), None);
}

#[test]
fn focus_stays_in_range_over_a_long_run() {
    let mut m = mux(&THREE);
    let keys = [
        Key::Enter, Key::F(5), Key::Down, Key::Enter, Key::F(6), Key::F(6), Key::F(6), Key::F(8),
        Key::F(8), Key::F(8), Key::Enter, Key::Enter, Key::Enter, Key::Enter, Key::Up, Key::Other,
        Key::F(8), Key::Char('x'), Key::F(7), Key::Enter, Key::F(5), Key::F(8), Key::Enter,
        Key::Enter, Key::Enter,
    ];
    for key in keys {
        m.handle_keypress(key);
        let tabs = m.num_tabs() - 1;
        match m.focus() {
            None => assert!(m.on_table()),
            Some(i) => {
                assert!(i < tabs);
                assert!(!m.on_table());
            }
        }
    }
}

#[test]
fn keys_reach_the_table_only_while_it_is_shown() {
    let mut m = mux(&THREE);
    m.handle_keypress(Key::Down);
    assert_eq!(m.table_view().selected(), 1);
    m.handle_keypress(Key::Enter);
    m.handle_keypress(Key::Down);
    m.handle_keypress(Key::Up);
    m.handle_keypress(Key::Up);
    assert_eq!(m.table_view().selected(), 1);
    m.handle_keypress(Key::F(5));
    m.handle_keypress(Key::Up);
    assert_eq!(m.table_view().selected(), 0);
}

#[test]
fn unbound_function_keys_do_nothing() {
    let mut m = mux(&THREE);
    m.add_detail_view(Record::from_str(0, "1"));
    for n in [0u8, 1, 2, 3, 4, 7, 9, 12, 255] {
        m.handle_keypress(Key::F(n));
        assert_eq!(m.focus(), Some(0));
    }
}

#[test]
fn confirm_on_an_empty_table_opens_nothing() {
    let mut m = mux(&[]);
    m.handle_keypress(Key::Enter);
    assert_eq!(m.focus(), None);
    assert_eq!(m.num_tabs(), 1);
}

#[test]
fn frame_of_the_table_marks_the_table_label() {
    let mut m = mux(&["{\"a\":1}"]);
    let frame = m.render();
    assert_eq!(
        frame.labels,
        vec!["F1", "Prev (F6)", "Next (F8)", "Table (F5)", "Exit (q)"]
    );
    assert_eq!(frame.active, 3);
    match frame.body {
        MuxBody::Table(table) => {
            assert_eq!(table.header, vec!["a"]);
            assert_eq!(table.rows, vec![vec!["1"]]);
        }
        MuxBody::Detail(_) => panic!("the table has the focus"),
    }
}

#[test]
fn frame_of_a_tab_marks_the_tab_label() {
    let mut m = mux(&THREE);
    for n in 0..11 {
        m.add_detail_view(Record::from_str(n, "{\"n\":0}"));
    }
    m.switch_tab(TabDestination::Home);
    m.switch_tab(TabDestination::Forward);
    m.switch_tab(TabDestination::Forward);
    let frame = m.render();
    assert_eq!(frame.labels.len(), 16);
    assert_eq!(frame.labels[3], "Table (F5)");
    assert_eq!(frame.labels[4], "Detail 1");
    assert_eq!(frame.labels[5], "Detail 2");
    assert_eq!(frame.labels[13], "Detail 10");
    assert_eq!(frame.labels[14], "Detail 11");
    assert_eq!(frame.labels[15], "Exit (q)");
    assert_eq!(frame.active, 5);
    assert_eq!(frame.labels[frame.active], "Detail 2");
    assert_eq!(frame.body, MuxBody::Detail("{\n  \"n\": 0\n}".to_string()));
}

#[test]
fn rendering_changes_nothing() {
    let mut m = mux(&THREE);
    m.handle_keypress(Key::Down);
    m.handle_keypress(Key::Enter);
    let first = m.render();
    let second = m.render();
    assert_eq!(first, second);
    assert_eq!(m.focus(), Some(0));
    assert_eq!(m.table_view().selected(), 1);
}

#[test]
fn mux_knows_the_title() {
    assert_eq!(mux(&THREE).title(), "events.jsonl");
}

#[test]
fn app_starts_on_the_table() {
    let mut app = App::new(source(&THREE));
    assert!(app.mux().on_table());
    let frame = app.render();
    assert_eq!(frame.title, " jlv - events.jsonl ");
    assert_eq!(frame.mux.active, 3);
}

#[test]
fn app_quits_on_q_from_every_view() {
    let mut app = App::new(source(&THREE));
    assert_eq!(app.handle_keypress(Key::Char('q')), Action::Quit);
    assert!(app.mux().on_table());
    assert_eq!(app.handle_keypress(Key::Enter), Action::Continue);
    assert_eq!(app.mux().focus(), Some(0));
    assert_eq!(app.handle_keypress(Key::Char('q')), Action::Quit);
    assert_eq!(app.mux().focus(), Some(0));
}

#[test]
fn app_hands_other_keys_to_the_mux() {
    let mut app = App::new(source(&THREE));
    assert_eq!(app.handle_keypress(Key::Down), Action::Continue);
    assert_eq!(app.handle_keypress(Key::Char('Q')), Action::Continue);
    assert_eq!(app.handle_keypress(Key::Enter), Action::Continue);
    assert_eq!(app.handle_keypress(Key::Other), Action::Continue);
    let frame = app.render();
    assert_eq!(frame.mux.body, MuxBody::Detail("{\n  \"a\": 2\n}".to_string()));
    assert_eq!(frame.mux.active, 4);
    assert_eq!(app.handle_keypress(Key::F(5)), Action::Continue);
    assert!(app.mux().on_table());
}
