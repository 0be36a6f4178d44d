//! User preferences of the editor around the engine.

use vstd::prelude::*;
use vstd::string::StringExecFns;

verus! {

pub struct Config {
    pub show_shortcuts_on_open: bool,
    pub editor: EditorConfig,
}

pub struct EditorConfig {
    pub colour_scheme_id: String,
}

impl Default for EditorConfig {
    fn default() -> (r: EditorConfig)
        ensures
            r.colour_scheme_id@ == "classic"@,
    {
        EditorConfig { colour_scheme_id: String::from_str("classic") }
    }
}

impl Default for Config {
    fn default() -> (r: Config)
        ensures
            !r.show_shortcuts_on_open,
            r.editor.colour_scheme_id@ == "classic"@,
    {
        Config { show_shortcuts_on_open: false, editor: EditorConfig::default() }
    }
}

impl Config {
    pub fn set_show_shortcuts_on_open(&mut self, enable: bool)
        ensures
            final(self).show_shortcuts_on_open == enable,
            final(self).editor == old(self).editor,
    {
        self.show_shortcuts_on_open = enable;
    }
}

impl EditorConfig {
    pub fn set_colour_scheme_id(&mut self, id: &str)
        ensures
            final(self).colour_scheme_id@ == id@,
    {
        self.colour_scheme_id = String::from_str(id);
    }
}

} // verus!
