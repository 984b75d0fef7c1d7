//! A minimal text-editor controller: a text buffer with a cursor, a
//! message-driven update function, and descriptions of the asynchronous
//! effects (file dialogs, reads, writes) that a host runtime carries out.

use vstd::prelude::*;

mod buffer;
mod editor;
mod error;
mod path;
mod theme;

pub use buffer::apply_edit;
pub use buffer::apply_edits;
pub use buffer::column_of;
pub use buffer::lemma_apply_edit_wf;
pub use buffer::lemma_apply_edits_push;
pub use buffer::lemma_apply_edits_wf;
pub use buffer::line_of;
pub use editor::default_path_spec;
pub use editor::default_file;
pub use editor::finish_load;
pub use editor::finish_pick;
pub use editor::finish_save;
pub use editor::lemma_failed_read;
pub use editor::lemma_open_cancelled_unchanged;
pub use editor::lemma_open_then_save_round_trip;
pub use editor::lemma_theme_selected;
pub use editor::lemma_step_edits_fold;
pub use editor::resolve_save_path;
pub use editor::step_edits;
pub use editor::highlight_ext_spec;
pub use editor::status_spec;
pub use editor::step;
pub use editor::Editor;
pub use editor::EditorModel;
pub use editor::Effect;
pub use editor::EffectModel;
pub use editor::Message;
pub use editor::MessageModel;
pub use path::extension_of_path;
pub use path::file_name_start;
pub use path::last_dot;
pub use path::name_extension;
pub use path::path_extension;
pub use buffer::Buffer;
pub use buffer::BufferModel;
pub use buffer::EditAction;
pub use buffer::EditModel;
pub use error::Error;
pub use error::IoErrorKind;
pub use theme::Theme;
pub use theme::WindowTheme;

verus! {

} // verus!
