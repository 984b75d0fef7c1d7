//! The editor controller: three pieces of state (file path, text buffer, last
//! error) plus the chosen palette, a message-driven update function, and the
//! descriptions of the asynchronous effects it asks the host runtime to run.

use crate::buffer::{apply_edit, Buffer, BufferModel, EditAction, EditModel};
use crate::error::{Error, IoErrorKind};
use crate::path::path_extension;
use crate::theme::{Theme, WindowTheme};
use vstd::prelude::*;

verus! {

/// A discrete event handed to the controller: a user action, or the completed
/// outcome of an effect it requested earlier.
#[derive(Debug)]
pub enum Message {
    /// The user edited the text.
    Edit(EditAction),
    /// The user asked for a fresh, untitled document.
    New,
    /// The user asked to open a file.
    Open,
    /// The user asked to save the document.
    Save,
    /// A requested open finished: the chosen path and its contents, or a failure.
    FileOpened(Result<(String, Vec<char>), Error>),
    /// A requested save finished: the path written to, or a failure.
    FileSaved(Result<String, Error>),
    /// The user chose a highlighting palette.
    ThemeSelected(Theme),
}

/// The mathematical counterpart of `Message`.
pub enum MessageModel {
    Edit(EditModel),
    New,
    Open,
    Save,
    FileOpened(Result<(Seq<char>, Seq<char>), Error>),
    FileSaved(Result<Seq<char>, Error>),
    ThemeSelected(Theme),
}

impl View for Message {
    type V = MessageModel;

    open spec fn view(&self) -> MessageModel {
        match self {
            Message::Edit(a) => MessageModel::Edit(a@),
            Message::New => MessageModel::New,
            Message::Open => MessageModel::Open,
            Message::Save => MessageModel::Save,
            Message::FileOpened(res) => MessageModel::FileOpened(
                match res {
                    Ok((p, c)) => Ok((p@, c@)),
                    Err(e) => Err(*e),
                },
            ),
            Message::FileSaved(res) => MessageModel::FileSaved(
                match res {
                    Ok(p) => Ok(p@),
                    Err(e) => Err(*e),
                },
            ),
            Message::ThemeSelected(t) => MessageModel::ThemeSelected(*t),
        }
    }
}

/// What the controller asks the host runtime to do next. Each effect resolves
/// into exactly one follow-up message.
#[derive(Debug)]
pub enum Effect {
    /// Nothing to run.
    Nothing,
    /// Read this file, then report the outcome as `FileOpened`.
    Load(String),
    /// Show the open dialog, read the chosen file, report as `FileOpened`.
    Pick,
    /// Write the text, asking the save dialog for a path first when none is
    /// given, then report the outcome as `FileSaved`.
    Save { path: Option<String>, text: Vec<char> },
}

/// The mathematical counterpart of `Effect`.
pub enum EffectModel {
    Nothing,
    Load(Seq<char>),
    Pick,
    Save { path: Option<Seq<char>>, text: Seq<char> },
}

impl View for Effect {
    type V = EffectModel;

    open spec fn view(&self) -> EffectModel {
        match self {
            Effect::Nothing => EffectModel::Nothing,
            Effect::Load(p) => EffectModel::Load(p@),
            Effect::Pick => EffectModel::Pick,
            Effect::Save { path, text } => EffectModel::Save {
                path: match path {
                    Some(p) => Some(p@),
                    None => None,
                },
                text: text@,
            },
        }
    }
}

/// The mathematical state of the controller.
#[verifier::ext_equal]
pub struct EditorModel {
    pub path: Option<Seq<char>>,
    pub buffer: BufferModel,
    pub error: Option<Error>,
    pub theme: Theme,
}

impl EditorModel {
    pub open spec fn wf(&self) -> bool {
        self.buffer.wf()
    }

    /// The state every session starts in: untitled, empty, no error, the
    /// initial palette.
    pub open spec fn init() -> EditorModel {
        EditorModel {
            path: None,
            buffer: BufferModel::empty(),
            error: None,
            theme: Theme::initial_spec(),
        }
    }
}

/// The controller's transition function: how one message changes the state,
/// and which effect it requests.
pub open spec fn step(m: EditorModel, msg: MessageModel) -> (EditorModel, EffectModel) {
    match msg {
        MessageModel::Edit(a) => (
            EditorModel { buffer: apply_edit(m.buffer, a), error: None, ..m },
            EffectModel::Nothing,
        ),
        MessageModel::New => (
            EditorModel { path: None, buffer: BufferModel::empty(), ..m },
            EffectModel::Nothing,
        ),
        MessageModel::Open => (m, EffectModel::Pick),
        MessageModel::Save => (
            m,
            EffectModel::Save { path: m.path, text: m.buffer.text },
        ),
        MessageModel::FileOpened(res) => match res {
            Ok((p, c)) => (
                EditorModel {
                    path: Some(p),
                    buffer: BufferModel { text: c, cursor: 0 },
                    error: None,
                    ..m
                },
                EffectModel::Nothing,
            ),
            Err(e) => match e {
                Error::DialogClosed => (m, EffectModel::Nothing),
                Error::IO(k) => (
                    EditorModel { error: Some(Error::IO(k)), ..m },
                    EffectModel::Nothing,
                ),
            },
        },
        MessageModel::FileSaved(res) => match res {
            Ok(p) => (
                EditorModel { path: Some(p), error: None, ..m },
                EffectModel::Nothing,
            ),
            Err(e) => match e {
                Error::DialogClosed => (m, EffectModel::Nothing),
                Error::IO(k) => (
                    EditorModel { error: Some(Error::IO(k)), ..m },
                    EffectModel::Nothing,
                ),
            },
        },
        MessageModel::ThemeSelected(t) => (
            EditorModel { theme: t, ..m },
            EffectModel::Nothing,
        ),
    }
}

/// What the status bar shows: the last I/O failure if there is one, else the
/// current file path, else the placeholder for an untitled document.
pub open spec fn status_spec(m: EditorModel) -> Seq<char> {
    match m.error {
        Some(Error::IO(k)) => k.describe_spec(),
        _ => match m.path {
            Some(p) => p,
            None => "New file"@,
        },
    }
}

/// The highlighting language for the current document: the path's extension,
/// with Rust as the fallback for untitled documents and extension-less paths.
pub open spec fn highlight_ext_spec(m: EditorModel) -> Seq<char> {
    match m.path {
        Some(p) => match path_extension(p) {
            Some(e) => e,
            None => "rs"@,
        },
        None => "rs"@,
    }
}

/// The path loaded when a session starts.
pub open spec fn default_path_spec() -> Seq<char> {
    "src/main.rs"@
}

/// The path loaded when a session starts.
pub fn default_file() -> (r: String)
    ensures
        r@ == default_path_spec(),
{
    String::from_str("src/main.rs")
}

/// Outcome of the open dialog: the chosen path, or cancellation when it was
/// closed without a choice.
pub fn finish_pick(choice: Option<String>) -> (r: Result<String, Error>)
    ensures
        r == (match choice {
            Some(p) => Ok::<String, Error>(p),
            None => Err::<String, Error>(Error::DialogClosed),
        }),
{
    match choice {
        Some(p) => Ok(p),
        None => Err(Error::DialogClosed),
    }
}

/// Where a save goes: an already-known file path wins; otherwise the save
/// dialog's choice; cancellation when the dialog was closed without one.
pub fn resolve_save_path(path: Option<String>, choice: Option<String>) -> (r: Result<
    String,
    Error,
>)
    ensures
        r == (match path {
            Some(p) => Ok::<String, Error>(p),
            None => match choice {
                Some(c) => Ok::<String, Error>(c),
                None => Err::<String, Error>(Error::DialogClosed),
            },
        }),
{
    match path {
        Some(p) => Ok(p),
        None => match choice {
            Some(c) => Ok(c),
            None => Err(Error::DialogClosed),
        },
    }
}

/// Fold a file read's outcome into the payload of a `FileOpened` message:
/// the path paired with the contents read, or the I/O classification.
pub fn finish_load(path: String, read: Result<Vec<char>, IoErrorKind>) -> (r: Result<
    (String, Vec<char>),
    Error,
>)
    ensures
        r == (match read {
            Ok(c) => Ok::<(String, Vec<char>), Error>((path, c)),
            Err(k) => Err::<(String, Vec<char>), Error>(Error::IO(k)),
        }),
{
    match read {
        Ok(c) => Ok((path, c)),
        Err(k) => Err(Error::IO(k)),
    }
}

/// Fold a file write's outcome into the payload of a `FileSaved` message:
/// the path written to, or the I/O classification.
pub fn finish_save(path: String, write: Result<(), IoErrorKind>) -> (r: Result<String, Error>)
    ensures
        r == (match write {
            Ok(_) => Ok::<String, Error>(path),
            Err(k) => Err::<String, Error>(Error::IO(k)),
        }),
{
    match write {
        Ok(_) => Ok(path),
        Err(k) => Err(Error::IO(k)),
    }
}

/// The editor controller: the single owner of all mutable state.
#[derive(Clone, Debug)]
pub struct Editor {
    path: Option<String>,
    buffer: Buffer,
    error: Option<Error>,
    theme: Theme,
}

impl View for Editor {
    type V = EditorModel;

    closed spec fn view(&self) -> EditorModel {
        EditorModel {
            path: match &self.path {
                Some(p) => Some(p@),
                None => None,
            },
            buffer: self.buffer@,
            error: self.error,
            theme: self.theme,
        }
    }
}

impl Editor {
    pub open spec fn wf(&self) -> bool {
        self@.wf()
    }

    /// A fresh session: the initial state, and the request to load the
    /// default file.
    pub fn new() -> (r: (Editor, Effect))
        ensures
            r.0@ == EditorModel::init(),
            r.0.wf(),
            r.1@ == EffectModel::Load(default_path_spec()),
    {
        let editor = Editor {
            path: None,
            buffer: Buffer::new(),
            error: None,
            theme: Theme::initial(),
        };
        (editor, Effect::Load(default_file()))
    }

    /// The window title.
    pub fn title(&self) -> (r: String)
        ensures
            r@ == "TxtGrind"@,
    {
        String::from_str("TxtGrind")
    }

    /// Fold one message into the state and hand back the effect to run.
    pub fn update(&mut self, msg: Message) -> (eff: Effect)
        requires
            old(self).wf(),
        ensures
            final(self).wf(),
            final(self)@ == step(old(self)@, msg@).0,
            eff@ == step(old(self)@, msg@).1,
    {
        match msg {
            Message::Edit(a) => {
                self.buffer.edit(a);
                self.error = None;
                Effect::Nothing
            },
            Message::New => {
                self.path = None;
                self.buffer = Buffer::new();
                Effect::Nothing
            },
            Message::Open => Effect::Pick,
            Message::Save => {
                let text = self.buffer.text_chars();
                let path = match &self.path {
                    Some(p) => Some(p.clone()),
                    None => None,
                };
                Effect::Save { path, text }
            },
            Message::FileOpened(res) => match res {
                Ok((p, c)) => {
                    self.path = Some(p);
                    self.buffer = Buffer::from_chars(c);
                    self.error = None;
                    Effect::Nothing
                },
                Err(e) => match e {
                    Error::DialogClosed => Effect::Nothing,
                    Error::IO(k) => {
                        self.error = Some(Error::IO(k));
                        Effect::Nothing
                    },
                },
            },
            Message::FileSaved(res) => match res {
                Ok(p) => {
                    self.path = Some(p);
                    self.error = None;
                    Effect::Nothing
                },
                Err(e) => match e {
                    Error::DialogClosed => Effect::Nothing,
                    Error::IO(k) => {
                        self.error = Some(Error::IO(k));
                        Effect::Nothing
                    },
                },
            },
            Message::ThemeSelected(t) => {
                self.theme = t;
                Effect::Nothing
            },
        }
    }

    /// The status bar's text: the last I/O failure, else the file path, else
    /// the untitled placeholder.
    pub fn status_text(&self) -> (r: String)
        ensures
            r@ == status_spec(self@),
    {
        match self.error {
            Some(Error::IO(k)) => k.describe(),
            _ => match &self.path {
                Some(p) => p.clone(),
                None => String::from_str("New file"),
            },
        }
    }

    /// The extension handed to the highlighter for the current document.
    pub fn highlight_extension(&self) -> (r: String)
        ensures
            r@ == highlight_ext_spec(self@),
    {
        match &self.path {
            Some(p) => match crate::path::extension_of_path(p.as_str()) {
                Some(e) => e,
                None => String::from_str("rs"),
            },
            None => String::from_str("rs"),
        }
    }

    /// The cursor's position as a (line, column) pair, both counted from zero.
    pub fn cursor_position(&self) -> (r: (usize, usize))
        requires
            self.wf(),
        ensures
            r.0 == crate::buffer::line_of(self@.buffer.text.take(self@.buffer.cursor)),
            r.1 == crate::buffer::column_of(self@.buffer.text.take(self@.buffer.cursor)),
    {
        self.buffer.cursor_position()
    }

    /// The window appearance the chosen palette calls for.
    pub fn theme(&self) -> (r: WindowTheme)
        ensures
            r == (if self@.theme.is_dark_spec() {
                WindowTheme::Dark
            } else {
                WindowTheme::Light
            }),
    {
        self.theme.window_theme()
    }

    /// A snapshot of the buffer's text.
    pub fn text_chars(&self) -> (r: Vec<char>)
        ensures
            r@ == self@.buffer.text,
    {
        self.buffer.text_chars()
    }

    /// The path of the file backing the document, if any.
    pub fn current_path(&self) -> (r: Option<String>)
        ensures
            match r {
                Some(p) => self@.path == Some(p@),
                None => self@.path is None,
            },
    {
        match &self.path {
            Some(p) => Some(p.clone()),
            None => None,
        }
    }

    /// The last recoverable failure, if any.
    pub fn last_error(&self) -> (r: Option<Error>)
        ensures
            r == self@.error,
    {
        self.error
    }

    /// The chosen highlighting palette.
    pub fn selected_theme(&self) -> (r: Theme)
        ensures
            r == self@.theme,
    {
        self.theme
    }
}

/// The state after a whole sequence of edit messages, delivered one at a time.
pub open spec fn step_edits(m: EditorModel, actions: Seq<EditModel>) -> EditorModel
    decreases actions.len(),
{
    if actions.len() == 0 {
        m
    } else {
        step(step_edits(m, actions.drop_last()), MessageModel::Edit(actions.last())).0
    }
}

/// Edit law, at the controller: delivering any sequence of edit messages
/// leaves the buffer exactly as the sequential application of the actions'
/// textual effects, and touches neither the file path nor the palette.
pub proof fn lemma_step_edits_fold(m: EditorModel, actions: Seq<EditModel>)
    ensures
        step_edits(m, actions).buffer == crate::buffer::apply_edits(m.buffer, actions),
        step_edits(m, actions).path == m.path,
        step_edits(m, actions).theme == m.theme,
        actions.len() > 0 ==> step_edits(m, actions).error is None,
    decreases actions.len(),
{
    if actions.len() > 0 {
        lemma_step_edits_fold(m, actions.drop_last());
    }
}

/// Round trip: opening a file and then saving, with no edit in between, hands
/// the very contents back to be written, at the very path they were read from,
/// and the save request leaves the state as it was.
pub proof fn lemma_open_then_save_round_trip(m: EditorModel, path: Seq<char>, contents: Seq<char>)
    ensures
        ({
            let opened = step(m, MessageModel::FileOpened(Ok((path, contents)))).0;
            &&& step(opened, MessageModel::Save).1 == (EffectModel::Save {
                path: Some(path),
                text: contents,
            })
            &&& step(opened, MessageModel::Save).0 == opened
        }),
{
}

/// Cancelling the open dialog is a no-op: buffer, file path and error state
/// all keep their previous values, and nothing further is requested.
pub proof fn lemma_open_cancelled_unchanged(m: EditorModel)
    ensures
        step(m, MessageModel::FileOpened(Err(Error::DialogClosed))).0 == m,
        step(m, MessageModel::FileOpened(Err(Error::DialogClosed))).1 == EffectModel::Nothing,
{
}

/// A failed read only records the I/O classification: buffer, file path and
/// palette keep their previous values.
pub proof fn lemma_failed_read(m: EditorModel, k: IoErrorKind)
    ensures
        ({
            let s = step(m, MessageModel::FileOpened(Err(Error::IO(k))));
            &&& s.0.error == Some(Error::IO(k))
            &&& s.0.buffer == m.buffer
            &&& s.0.path == m.path
            &&& s.0.theme == m.theme
            &&& s.1 == EffectModel::Nothing
        }),
{
}

/// Selecting a palette changes the palette alone: buffer, file path and error
/// state keep their previous values.
pub proof fn lemma_theme_selected(m: EditorModel, t: Theme)
    ensures
        ({
            let s = step(m, MessageModel::ThemeSelected(t));
            &&& s.0.theme == t
            &&& s.0.buffer == m.buffer
            &&& s.0.path == m.path
            &&& s.0.error == m.error
            &&& s.1 == EffectModel::Nothing
        }),
{
}

} // verus!
