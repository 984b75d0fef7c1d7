use txtgrind::{
    finish_load, finish_pick, finish_save, resolve_save_path, EditAction, Editor, Effect, Error,
    IoErrorKind, Message, Theme, WindowTheme,
};

fn chars(s: &str) -> Vec<char> {
    s.chars().collect()
}

fn string_of(v: Vec<char>) -> String {
    v.into_iter().collect()
}

#[test]
fn new_session_defaults() {
    let (ed, eff) = Editor::new();
    assert_eq!(ed.current_path(), None);
    assert_eq!(ed.last_error(), None);
    assert_eq!(ed.selected_theme(), Theme::SolarizedDark);
    assert_eq!(ed.title(), "TxtGrind");
    assert_eq!(ed.status_text(), "New file");
    match eff {
        Effect::Load(p) => assert_eq!(p, "src/main.rs"),
        other => panic!("expected a load effect, got {:?}", other),
    }
}

#[test]
fn open_then_save_round_trips_the_contents() {
    let (mut ed, _) = Editor::new();
    let msg = Message::FileOpened(Ok(("/tmp/a.txt".to_string(), chars("hello\n"))));
    ed.update(msg);
    assert_eq!(ed.current_path(), Some("/tmp/a.txt".to_string()));
    assert_eq!(string_of(ed.text_chars()), "hello\n");
    match ed.update(Message::Save) {
        Effect::Save { path, text } => {
            assert_eq!(path, Some("/tmp/a.txt".to_string()));
            assert_eq!(string_of(text), "hello\n");
        }
        other => panic!("expected a save effect, got {:?}", other),
    }
}

#[test]
fn open_requests_the_dialog() {
    let (mut ed, _) = Editor::new();
    match ed.update(Message::Open) {
        Effect::Pick => {}
        other => panic!("expected the dialog effect, got {:?}", other),
    }
}

#[test]
fn cancelled_dialog_changes_nothing() {
    let (mut ed, _) = Editor::new();
    ed.update(Message::FileOpened(Ok(("/tmp/a.txt".to_string(), chars("abc")))));
    let path_before = ed.current_path();
    let text_before = ed.text_chars();
    let error_before = ed.last_error();
    match ed.update(Message::FileOpened(Err(Error::DialogClosed))) {
        Effect::Nothing => {}
        other => panic!("expected no effect, got {:?}", other),
    }
    assert_eq!(ed.current_path(), path_before);
    assert_eq!(ed.text_chars(), text_before);
    assert_eq!(ed.last_error(), error_before);
}

#[test]
fn failed_read_sets_the_error_and_keeps_the_buffer() {
    let (mut ed, _) = Editor::new();
    ed.update(Message::FileOpened(Ok(("/tmp/a.txt".to_string(), chars("abc")))));
    ed.update(Message::FileOpened(Err(Error::IO(IoErrorKind::NotFound))));
    assert_eq!(ed.last_error(), Some(Error::IO(IoErrorKind::NotFound)));
    assert_eq!(string_of(ed.text_chars()), "abc");
    assert_eq!(ed.current_path(), Some("/tmp/a.txt".to_string()));
    assert_eq!(ed.status_text(), "entity not found");
}

#[test]
fn failed_save_sets_the_error_and_keeps_the_buffer() {
    let (mut ed, _) = Editor::new();
    ed.update(Message::Edit(EditAction::Paste(chars("draft"))));
    ed.update(Message::FileSaved(Err(Error::IO(IoErrorKind::PermissionDenied))));
    assert_eq!(ed.last_error(), Some(Error::IO(IoErrorKind::PermissionDenied)));
    assert_eq!(string_of(ed.text_chars()), "draft");
    assert_eq!(ed.status_text(), "permission denied");
}

#[test]
fn theme_selection_changes_the_theme_alone() {
    let (mut ed, _) = Editor::new();
    ed.update(Message::FileOpened(Ok(("/tmp/a.txt".to_string(), chars("abc")))));
    ed.update(Message::ThemeSelected(Theme::Base16Mocha));
    assert_eq!(ed.selected_theme(), Theme::Base16Mocha);
    assert_eq!(ed.current_path(), Some("/tmp/a.txt".to_string()));
    assert_eq!(string_of(ed.text_chars()), "abc");
    assert_eq!(ed.last_error(), None);
    assert_eq!(ed.theme(), WindowTheme::Dark);
    ed.update(Message::ThemeSelected(Theme::InspiredGitHub));
    assert_eq!(ed.theme(), WindowTheme::Light);
}

#[test]
fn edit_clears_the_error() {
    let (mut ed, _) = Editor::new();
    ed.update(Message::FileOpened(Err(Error::IO(IoErrorKind::Other))));
    assert_eq!(ed.last_error(), Some(Error::IO(IoErrorKind::Other)));
    ed.update(Message::Edit(EditAction::Insert('x')));
    assert_eq!(ed.last_error(), None);
}

#[test]
fn successful_open_clears_the_error() {
    let (mut ed, _) = Editor::new();
    ed.update(Message::FileOpened(Err(Error::IO(IoErrorKind::NotFound))));
    ed.update(Message::FileOpened(Ok(("/tmp/b.txt".to_string(), chars("b")))));
    assert_eq!(ed.last_error(), None);
    assert_eq!(ed.status_text(), "/tmp/b.txt");
}

#[test]
fn new_document_resets_path_and_buffer() {
    let (mut ed, _) = Editor::new();
    ed.update(Message::FileOpened(Ok(("/tmp/a.txt".to_string(), chars("abc")))));
    ed.update(Message::New);
    assert_eq!(ed.current_path(), None);
    assert_eq!(string_of(ed.text_chars()), "");
    assert_eq!(ed.status_text(), "New file");
}

#[test]
fn saved_scenario_records_the_chosen_path() {
    // Starting from an empty buffer: type "hi", save without a prior path,
    // let the dialog pick /tmp/x.txt, and let the write succeed.
    let (mut ed, _) = Editor::new();
    ed.update(Message::Edit(EditAction::Paste(chars("hi"))));
    assert_eq!(string_of(ed.text_chars()), "hi");
    assert_eq!(ed.cursor_position(), (0, 2));
    let (path, text) = match ed.update(Message::Save) {
        Effect::Save { path, text } => (path, text),
        other => panic!("expected a save effect, got {:?}", other),
    };
    assert_eq!(path, None);
    assert_eq!(string_of(text.clone()), "hi");
    let resolved = resolve_save_path(path, Some("/tmp/x.txt".to_string()));
    assert_eq!(resolved, Ok("/tmp/x.txt".to_string()));
    let outcome = finish_save(resolved.unwrap(), Ok(()));
    ed.update(Message::FileSaved(outcome));
    assert_eq!(ed.current_path(), Some("/tmp/x.txt".to_string()));
    assert_eq!(string_of(ed.text_chars()), "hi");
    assert_eq!(ed.last_error(), None);
}

#[test]
fn save_with_known_path_skips_the_dialog() {
    assert_eq!(
        resolve_save_path(Some("/tmp/kept.txt".to_string()), None),
        Ok("/tmp/kept.txt".to_string())
    );
    assert_eq!(
        resolve_save_path(Some("/tmp/kept.txt".to_string()), Some("/tmp/other.txt".to_string())),
        Ok("/tmp/kept.txt".to_string())
    );
}

#[test]
fn cancelled_save_dialog_reports_dialog_closed() {
    assert_eq!(resolve_save_path(None, None), Err(Error::DialogClosed));
}

#[test]
fn pick_outcomes() {
    assert_eq!(finish_pick(Some("/tmp/p.txt".to_string())), Ok("/tmp/p.txt".to_string()));
    assert_eq!(finish_pick(None), Err(Error::DialogClosed));
}

#[test]
fn load_outcomes() {
    assert_eq!(
        finish_load("/tmp/p.txt".to_string(), Ok(chars("xy"))),
        Ok(("/tmp/p.txt".to_string(), chars("xy")))
    );
    assert_eq!(
        finish_load("/tmp/p.txt".to_string(), Err(IoErrorKind::NotFound)),
        Err(Error::IO(IoErrorKind::NotFound))
    );
}

#[test]
fn save_outcomes() {
    assert_eq!(finish_save("/tmp/p.txt".to_string(), Ok(())), Ok("/tmp/p.txt".to_string()));
    assert_eq!(
        finish_save("/tmp/p.txt".to_string(), Err(IoErrorKind::AlreadyExists)),
        Err(Error::IO(IoErrorKind::AlreadyExists))
    );
}

#[test]
fn error_descriptions_are_exact() {
    assert_eq!(IoErrorKind::NotFound.describe(), "entity not found");
    assert_eq!(IoErrorKind::PermissionDenied.describe(), "permission denied");
    assert_eq!(IoErrorKind::AlreadyExists.describe(), "entity already exists");
    assert_eq!(IoErrorKind::InvalidData.describe(), "invalid data");
    assert_eq!(IoErrorKind::Other.describe(), "other error");
}

#[test]
fn highlight_extension_follows_the_path() {
    let (mut ed, _) = Editor::new();
    assert_eq!(ed.highlight_extension(), "rs");
    ed.update(Message::FileOpened(Ok(("/tmp/x.txt".to_string(), chars("")))));
    assert_eq!(ed.highlight_extension(), "txt");
    ed.update(Message::FileOpened(Ok(("/tmp/archive.tar.gz".to_string(), chars("")))));
    assert_eq!(ed.highlight_extension(), "gz");
    ed.update(Message::FileOpened(Ok(("/tmp/.gitignore".to_string(), chars("")))));
    assert_eq!(ed.highlight_extension(), "rs");
    ed.update(Message::FileOpened(Ok(("/tmp/Makefile".to_string(), chars("")))));
    assert_eq!(ed.highlight_extension(), "rs");
    ed.update(Message::FileOpened(Ok(("noslash.toml".to_string(), chars("")))));
    assert_eq!(ed.highlight_extension(), "toml");
}

#[test]
fn themes_offer_the_full_palette_set() {
    let all = Theme::all();
    assert_eq!(
        all,
        vec![
            Theme::SolarizedDark,
            Theme::Base16Eighties,
            Theme::Base16Mocha,
            Theme::Base16Ocean,
            Theme::InspiredGitHub,
        ]
    );
    assert_eq!(Theme::SolarizedDark.name(), "Solarized Dark");
    assert_eq!(Theme::InspiredGitHub.name(), "Inspired GitHub");
    assert!(Theme::SolarizedDark.is_dark());
    assert!(!Theme::InspiredGitHub.is_dark());
}
