use bazed_core::buffer::{Buffer, EditOp, MovementOp};
use bazed_core::keymap::{interpret_key_input, DocumentOp, Operation};
use bazed_core::proto::{CaretPosition, KeyCode, KeyInput, RequestId, ToBackend, ToFrontend};
use bazed_core::session::{App, Effect, Error};

fn chars(s: &str) -> Vec<char> {
    s.chars().collect()
}

fn key(code: KeyCode) -> KeyInput {
    KeyInput { ctrl: false, alt: false, code }
}

fn ctrl(c: char) -> KeyInput {
    KeyInput { ctrl: true, alt: false, code: KeyCode::Char(c) }
}

fn opened_id(effs: &[Effect]) -> u128 {
    assert_eq!(effs.len(), 1);
    match &effs[0] {
        Effect::Send(ToFrontend::OpenDocument { document_id, .. }) => *document_id,
        other => panic!("expected OpenDocument, got {other:?}"),
    }
}

fn open_view(app: &mut App, doc: u128, height: usize, width: usize) -> u128 {
    let effs = app
        .handle_rpc_call(ToBackend::ViewOpened {
            request_id: RequestId(7),
            document_id: doc,
            height,
            width,
        })
        .unwrap();
    assert_eq!(effs.len(), 1);
    match &effs[0] {
        Effect::Send(ToFrontend::ViewOpenedResponse { request_id, view_id }) => {
            assert_eq!(*request_id, RequestId(7));
            *view_id
        },
        other => panic!("expected ViewOpenedResponse, got {other:?}"),
    }
}

fn press(app: &mut App, view: u128, input: KeyInput) -> Result<Vec<Effect>, Error> {
    app.handle_rpc_call(ToBackend::KeyPressed { view_id: view, input })
}

fn viewport(
    app: &mut App,
    view: u128,
    height: usize,
    first_line: usize,
) -> Result<Vec<Effect>, Error> {
    app.handle_rpc_call(ToBackend::ViewportChanged {
        view_id: view,
        height,
        width: 80,
        first_line,
        first_col: 0,
    })
}

fn text_of(app: &App, doc: u128) -> String {
    app.document(doc).unwrap().buffer.content().into_iter().collect()
}

#[test]
fn ephemeral_document_view_and_key_press() {
    let mut app = App::new();
    let effs = app.open_ephemeral().unwrap();
    assert_eq!(effs.len(), 1);
    let doc = match &effs[0] {
        Effect::Send(ToFrontend::OpenDocument { document_id, path, text }) => {
            assert!(path.is_none());
            assert!(text.is_empty());
            *document_id
        },
        other => panic!("unexpected {other:?}"),
    };
    let view = open_view(&mut app, doc, 10, 80);
    assert_ne!(view, doc);
    let effs = press(&mut app, view, key(KeyCode::Char('a'))).unwrap();
    assert_eq!(effs.len(), 1);
    match &effs[0] {
        Effect::Send(ToFrontend::UpdateView { view_id, first_line, height, text, carets }) => {
            assert_eq!(*view_id, view);
            assert_eq!(*first_line, 0);
            assert_eq!(*height, 10);
            assert_eq!(text, &vec![vec!['a']]);
            assert_eq!(carets, &vec![CaretPosition { line: 0, col: 1 }]);
        },
        other => panic!("unexpected {other:?}"),
    }
    assert_eq!(text_of(&app, doc), "a");
}

#[test]
fn viewport_shrink_sends_nothing() {
    let mut app = App::new();
    let doc = opened_id(&app.open_ephemeral().unwrap());
    let view = open_view(&mut app, doc, 10, 80);
    let first = viewport(&mut app, view, 10, 0).unwrap();
    assert!(first.is_empty());
    let second = viewport(&mut app, view, 8, 0).unwrap();
    assert!(second.is_empty());
    assert_eq!(app.views()[&view].height, 8);
}

#[test]
fn viewport_growth_or_scroll_sends_one_update() {
    let mut app = App::new();
    let doc = opened_id(&app.open_file("f.txt".to_string(), chars("l0\nl1\nl2\nl3")).unwrap());
    let view = open_view(&mut app, doc, 2, 80);
    let grown = viewport(&mut app, view, 3, 0).unwrap();
    assert_eq!(grown.len(), 1);
    match &grown[0] {
        Effect::Send(ToFrontend::UpdateView { text, height, .. }) => {
            assert_eq!(*height, 3);
            assert_eq!(text, &vec![chars("l0"), chars("l1"), chars("l2")]);
        },
        other => panic!("unexpected {other:?}"),
    }
    let scrolled = viewport(&mut app, view, 3, 2).unwrap();
    assert_eq!(scrolled.len(), 1);
    match &scrolled[0] {
        Effect::Send(ToFrontend::UpdateView { text, first_line, .. }) => {
            assert_eq!(*first_line, 2);
            assert_eq!(text, &vec![chars("l2"), chars("l3")]);
        },
        other => panic!("unexpected {other:?}"),
    }
    let v = app.views()[&view];
    assert_eq!((v.height, v.first_line, v.width), (3, 2, 80));
}

#[test]
fn unknown_view_ids_are_rejected() {
    let mut app = App::new();
    let doc = opened_id(&app.open_ephemeral().unwrap());
    assert_eq!(press(&mut app, 99, key(KeyCode::Char('x'))).unwrap_err(), Error::InvalidViewId(99));
    assert_eq!(viewport(&mut app, 99, 5, 0).unwrap_err(), Error::InvalidViewId(99));
    let click = app.handle_rpc_call(ToBackend::MouseInput {
        view_id: 99,
        position: CaretPosition { line: 0, col: 0 },
    });
    assert_eq!(click.unwrap_err(), Error::InvalidViewId(99));
    let scroll = app.handle_rpc_call(ToBackend::MouseScroll { view_id: 99, line_delta: 3 });
    assert_eq!(scroll.unwrap_err(), Error::InvalidViewId(99));
    assert!(app.views().is_empty());
    assert_eq!(text_of(&app, doc), "");
}

#[test]
fn unknown_document_ids_are_rejected() {
    let mut app = App::new();
    let opened = app.handle_rpc_call(ToBackend::ViewOpened {
        request_id: RequestId(1),
        document_id: 5,
        height: 10,
        width: 80,
    });
    assert_eq!(opened.unwrap_err(), Error::InvalidDocumentId(5));
    let saved = app.handle_rpc_call(ToBackend::SaveDocument { document_id: 5 });
    assert_eq!(saved.unwrap_err(), Error::InvalidDocumentId(5));
    assert!(app.views().is_empty());
}

#[test]
fn mouse_input_on_a_view_does_nothing() {
    let mut app = App::new();
    let doc = opened_id(&app.open_ephemeral().unwrap());
    let view = open_view(&mut app, doc, 10, 80);
    let click = app.handle_rpc_call(ToBackend::MouseInput {
        view_id: view,
        position: CaretPosition { line: 3, col: 4 },
    });
    assert!(click.unwrap().is_empty());
    let scroll = app.handle_rpc_call(ToBackend::MouseScroll { view_id: view, line_delta: -2 });
    assert!(scroll.unwrap().is_empty());
    assert_eq!(app.views()[&view].first_line, 0);
}

#[test]
fn saving_an_ephemeral_document_fails() {
    let mut app = App::new();
    let doc = opened_id(&app.open_ephemeral().unwrap());
    let saved = app.handle_rpc_call(ToBackend::SaveDocument { document_id: doc });
    assert_eq!(saved.unwrap_err(), Error::NoPath(doc));
    let view = open_view(&mut app, doc, 10, 80);
    assert_eq!(press(&mut app, view, ctrl('s')).unwrap_err(), Error::NoPath(doc));
}

#[test]
fn saving_a_file_writes_its_text() {
    let mut app = App::new();
    let effs = app.open_file("notes.txt".to_string(), chars("ab\ncd")).unwrap();
    let doc = opened_id(&effs);
    match &effs[0] {
        Effect::Send(ToFrontend::OpenDocument { path, text, .. }) => {
            assert_eq!(path.as_deref(), Some("notes.txt"));
            assert_eq!(text, &chars("ab\ncd"));
        },
        other => panic!("unexpected {other:?}"),
    }
    let saved = app.handle_rpc_call(ToBackend::SaveDocument { document_id: doc }).unwrap();
    assert_eq!(saved.len(), 1);
    match &saved[0] {
        Effect::WriteFile { path, text } => {
            assert_eq!(path, "notes.txt");
            assert_eq!(text, &chars("ab\ncd"));
        },
        other => panic!("unexpected {other:?}"),
    }
}

#[test]
fn ctrl_s_saves_and_sends_one_update() {
    let mut app = App::new();
    let doc = opened_id(&app.open_file("a.txt".to_string(), chars("x")).unwrap());
    let view = open_view(&mut app, doc, 4, 80);
    let effs = press(&mut app, view, ctrl('s')).unwrap();
    assert_eq!(effs.len(), 2);
    assert!(matches!(&effs[0], Effect::WriteFile { path, .. } if path == "a.txt"));
    assert!(matches!(&effs[1], Effect::Send(ToFrontend::UpdateView { view_id, .. }) if *view_id == view));
}

#[test]
fn unbound_keys_send_nothing_and_change_nothing() {
    let mut app = App::new();
    let doc = opened_id(&app.open_file("a.txt".to_string(), chars("abc")).unwrap());
    let view = open_view(&mut app, doc, 4, 80);
    assert!(press(&mut app, view, key(KeyCode::Escape)).unwrap().is_empty());
    assert!(press(&mut app, view, ctrl('q')).unwrap().is_empty());
    let alt = KeyInput { ctrl: false, alt: true, code: KeyCode::Char('a') };
    assert!(press(&mut app, view, alt).unwrap().is_empty());
    assert_eq!(text_of(&app, doc), "abc");
    let caret = app.document(doc).unwrap().buffer.caret_position();
    assert_eq!(caret, CaretPosition { line: 0, col: 0 });
}

#[test]
fn enter_splits_and_backspace_joins_lines() {
    let mut app = App::new();
    let doc = opened_id(&app.open_file("a.txt".to_string(), chars("abcd")).unwrap());
    let view = open_view(&mut app, doc, 4, 80);
    press(&mut app, view, key(KeyCode::Right)).unwrap();
    press(&mut app, view, key(KeyCode::Right)).unwrap();
    let effs = press(&mut app, view, key(KeyCode::Enter)).unwrap();
    match &effs[0] {
        Effect::Send(ToFrontend::UpdateView { text, carets, .. }) => {
            assert_eq!(text, &vec![chars("ab"), chars("cd")]);
            assert_eq!(carets, &vec![CaretPosition { line: 1, col: 0 }]);
        },
        other => panic!("unexpected {other:?}"),
    }
    assert_eq!(text_of(&app, doc), "ab\ncd");
    press(&mut app, view, key(KeyCode::Backspace)).unwrap();
    assert_eq!(text_of(&app, doc), "abcd");
    let caret = app.document(doc).unwrap().buffer.caret_position();
    assert_eq!(caret, CaretPosition { line: 0, col: 2 });
    press(&mut app, view, key(KeyCode::Backspace)).unwrap();
    assert_eq!(text_of(&app, doc), "acd");
}

#[test]
fn movement_keeps_caret_on_the_text() {
    let mut app = App::new();
    let doc = opened_id(&app.open_file("a.txt".to_string(), chars("abc\nx")).unwrap());
    let view = open_view(&mut app, doc, 4, 80);
    let caret = |app: &App| app.document(doc).unwrap().buffer.caret_position();
    press(&mut app, view, key(KeyCode::Left)).unwrap();
    assert_eq!(caret(&app), CaretPosition { line: 0, col: 0 });
    press(&mut app, view, key(KeyCode::Up)).unwrap();
    assert_eq!(caret(&app), CaretPosition { line: 0, col: 0 });
    for _ in 0..3 {
        press(&mut app, view, key(KeyCode::Right)).unwrap();
    }
    assert_eq!(caret(&app), CaretPosition { line: 0, col: 3 });
    press(&mut app, view, key(KeyCode::Down)).unwrap();
    assert_eq!(caret(&app), CaretPosition { line: 1, col: 1 });
    press(&mut app, view, key(KeyCode::Right)).unwrap();
    assert_eq!(caret(&app), CaretPosition { line: 1, col: 1 });
    press(&mut app, view, key(KeyCode::Left)).unwrap();
    press(&mut app, view, key(KeyCode::Left)).unwrap();
    assert_eq!(caret(&app), CaretPosition { line: 0, col: 3 });
    assert_eq!(text_of(&app, doc), "abc\nx");
}

#[test]
fn view_ids_are_fresh_and_checked() {
    let mut app = App::new();
    let a = opened_id(&app.open_ephemeral().unwrap());
    let b = opened_id(&app.open_ephemeral().unwrap());
    assert_ne!(a, b);
    let v1 = open_view(&mut app, a, 10, 80);
    let v2 = open_view(&mut app, a, 10, 80);
    assert!(v1 != v2 && v1 != a && v1 != b && v2 != a && v2 != b);
    assert_eq!(app.handle_view_opened(a, 5, 5, b), Err(Error::IdInUse(b)));
    assert_eq!(app.handle_view_opened(a, 5, 5, v1), Err(Error::IdInUse(v1)));
    assert_eq!(app.handle_view_opened(a, 5, 5, 42), Ok(42));
    assert_eq!(app.views()[&42].document_id, a);
    assert_eq!(app.views().len(), 3);
    assert!(app.id_in_use(42) && app.id_in_use(a) && !app.id_in_use(43));
}

#[test]
fn open_document_with_a_taken_id_fails() {
    let mut app = App::new();
    let first = app.open_document(None, chars("one"), 3).unwrap();
    assert_eq!(opened_id(&first), 3);
    let again = app.open_document(Some("p".to_string()), chars("two"), 3);
    assert_eq!(again.unwrap_err(), Error::IdInUse(3));
    assert_eq!(text_of(&app, 3), "one");
}

#[test]
fn buffer_splits_text_into_lines() {
    let b = Buffer::from_text(&chars("a\n\nbc\n"));
    let all = b.visible_lines(0, 100);
    assert_eq!(all, vec![chars("a"), vec![], chars("bc"), vec![]]);
    assert_eq!(b.visible_lines(2, 1), vec![chars("bc")]);
    assert!(b.visible_lines(9, 3).is_empty());
    assert_eq!(b.content(), chars("a\n\nbc\n"));
    let empty = Buffer::from_text(&Vec::new());
    assert_eq!(empty.visible_lines(0, usize::MAX), vec![Vec::<char>::new()]);
}

#[test]
fn buffer_edits_at_the_caret() {
    let mut b = Buffer::from_text(&chars("xy"));
    b.apply_movement_op(MovementOp::Right);
    b.apply_edit_op(EditOp::Insert('-'));
    assert_eq!(b.content(), chars("x-y"));
    b.apply_edit_op(EditOp::Insert('\n'));
    assert_eq!(b.content(), chars("x-\ny"));
    assert_eq!(b.caret_position(), CaretPosition::new(1, 0));
    b.apply_movement_op(MovementOp::Up);
    assert_eq!(b.caret_position(), CaretPosition::new(0, 0));
    b.apply_edit_op(EditOp::Backspace);
    assert_eq!(b.content(), chars("x-\ny"));
}

#[test]
fn key_map_binds_the_expected_operations() {
    assert_eq!(interpret_key_input(&ctrl('s')), Some(Operation::Document(DocumentOp::Save)));
    assert_eq!(interpret_key_input(&key(KeyCode::Char('s'))), Some(Operation::Edit(EditOp::Insert('s'))));
    assert_eq!(interpret_key_input(&key(KeyCode::Enter)), Some(Operation::Edit(EditOp::Insert('\n'))));
    assert_eq!(interpret_key_input(&key(KeyCode::Backspace)), Some(Operation::Edit(EditOp::Backspace)));
    assert_eq!(interpret_key_input(&key(KeyCode::Down)), Some(Operation::Movement(MovementOp::Down)));
    assert_eq!(interpret_key_input(&key(KeyCode::Escape)), None);
    let both = KeyInput { ctrl: true, alt: true, code: KeyCode::Char('s') };
    assert_eq!(interpret_key_input(&both), None);
}
