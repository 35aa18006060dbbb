//! Color and user configuration as plain values.
//!
//! The session itself never reads a file: the shell loads the theme
//! from disk and hands these structs over.  The defaults below are the
//! built-in theme used when no configuration can be read.

use vstd::prelude::*;

verus! {

/// User configuration: the name of the color theme to load.
pub struct UserConfig {
    pub theme: String,
}

impl Default for UserConfig {
    /// The built-in theme name.
    fn default() -> (r: Self)
        ensures
            r.theme@ == "catppuccin-mocha"@,
    {
        UserConfig { theme: String::from_str("catppuccin-mocha") }
    }
}

/// Colors configuration.
pub struct Colors {
    pub ui: UI,
    pub text: Text,
    pub input: InputColors,
}

/// UI colors.
pub struct UI {
    pub background: u32,
    pub border: u32,
    pub key: u32,
}

/// Text colors.
pub struct Text {
    pub title: u32,
    pub text: u32,
}

/// Input box colors.
pub struct InputColors {
    pub typing: u32,
    pub normal: u32,
}

impl Default for Colors {
    /// The built-in color palette.
    fn default() -> (r: Self)
        ensures
            r.ui.background == 0x1e1e2e,
            r.ui.border == 0x6c7086,
            r.ui.key == 0x94e2d5,
            r.text.title == 0xa6e3a1,
            r.text.text == 0xf5e0dc,
            r.input.typing == 0x94e2d4,
            r.input.normal == 0x6c7086,
    {
        Colors {
            ui: UI { background: 0x1e1e2e, border: 0x6c7086, key: 0x94e2d5 },
            text: Text { title: 0xa6e3a1, text: 0xf5e0dc },
            input: InputColors { typing: 0x94e2d4, normal: 0x6c7086 },
        }
    }
}

} // verus!
