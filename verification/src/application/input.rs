use crate::application::app::App;
use crate::application::modes::is_close;
use crate::application::state::AppAction;
use crate::application::state::AppMode;
use crate::keys::KeyCode;
use crate::keys::KeyEvent;
use vstd::prelude::*;

verus! {

/// Whether a key skips the decorative sequence.
pub fn is_skip(key: &KeyEvent) -> (r: bool)
    ensures
        r == crate::application::model::is_skip_key(*key),
{
    match key.code {
        KeyCode::Enter => true,
        KeyCode::Char(c) => c == ' ',
        _ => false,
    }
}

impl App {
    /// Handles a key press while the decorative sequence runs.
    pub fn handle_loading_keys(&mut self, key: KeyEvent) -> (action: AppAction)
        ensures
            final(self)@ == old(self)@.after_loading_key(key).state,
            action@ == old(self)@.after_loading_key(key).action,
    {
        if is_close(&key) {
            self.should_quit = true;
        }
        if !self.startup_complete && is_skip(&key) {
            let plan = self.spawn_startup_tasks();
            self.matrix_animation = None;
            AppAction::RunStartup(plan)
        } else {
            AppAction::Nothing
        }
    }

    /// Handles a key press: what the key means depends on the mode.
    pub fn handle_key_event(&mut self, key: KeyEvent) -> (action: AppAction)
        ensures
            final(self)@ == old(self)@.after_key(key).state,
            action@ == old(self)@.after_key(key).action,
    {
        match self.current_mode {
            AppMode::FileView => self.handle_file_view_keys(key),
            AppMode::TableViewer => self.handle_table_viewer_keys(key),
            AppMode::ForeignKeyView => self.handle_foreign_key_viewer_keys(key),
            AppMode::Searching => {
                self.handle_searching_keys(key);
                AppAction::Nothing
            },
            AppMode::CellInfoView => self.handle_cell_info_keys(key),
            AppMode::MatrixLoading => self.handle_loading_keys(key),
            AppMode::Help => {
                self.handle_help_keys(key);
                AppAction::Nothing
            },
        }
    }
}

} // verus!
