use crate::application::app::App;
use crate::text::str_concat;
use crate::ui::toast::ToastType;
use vstd::prelude::*;

verus! {

impl App {
    /// Takes in a file that the host has read, or could not read: its text
    /// becomes the content of the session and is parsed into blocks, with the
    /// cursor on its first line; a file that could not be read changes
    /// nothing and is reported.
    pub fn load_file(&mut self, file_path: &str, read: Result<String, String>)
        ensures
            final(self)@ == old(self)@.after_file_read(file_path@, read),
    {
        match read {
            Ok(content) => {
                self.query_blocks = self.query_parser.parse_query_blocks(content.as_str());
                self.file_content = content;
                self.current_file = Some(file_path.to_owned());
                self.cursor_line = 0;
                self.scroll_offset = 0;
                if self.startup_complete || !self.config.matrix.enabled {
                    self.notify(str_concat("Loaded file ", file_path), ToastType::Info);
                }
            },
            Err(e) => {
                self.notify(str_concat("Failed to load file: ", e.as_str()), ToastType::Error);
            },
        }
    }
}

} // verus!
