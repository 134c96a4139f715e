use crate::text::str_chars;
use vstd::prelude::*;

verus! {

/// The loading animation: whether it runs, for how long, with which
/// characters, and on how large a screen.
#[derive(Debug)]
pub struct MatrixConfig {
    pub enabled: bool,
    pub duration_ms: u64,
    pub chars: String,
    pub width: u16,
    pub height: u16,
}

/// The characters of the animation where none are configured.
pub open spec fn default_chars() -> Seq<char> {
    "ﾊﾐﾋｰｳｼﾅﾓﾆｻﾜﾂｵﾘｱﾎﾃﾏｹﾒｴｶｷﾑﾕﾗｾﾈｽﾀﾇﾍ01"@
}

/// The characters of an animation that fills the screen.
pub open spec fn full_screen_chars() -> Seq<char> {
    "アイウエオカキクケコサシスセソタチツテトナニヌネノハヒフヘホマミムメモヤユヨラリルレロワヲンabcdefghijklmnopqrstuvwxyzABCDEFGHIJKLMNOPQRSTUVWXYZ0123456789!@#$%^&*()←↑→↓∞§¤"@
}

/// Why a configuration cannot be used, if it cannot.
pub open spec fn validation_error(c: MatrixConfig) -> Option<Seq<char>> {
    if c.width == 0 || c.height == 0 {
        Some("Width and height must be greater than 0"@)
    } else if c.chars@.len() == 0 {
        Some("Character set cannot be empty"@)
    } else {
        None
    }
}

impl Default for MatrixConfig {
    fn default() -> (r: Self)
        ensures
            r.enabled,
            r.duration_ms == 6000,
            r.chars@ == default_chars(),
            r.width == 50,
            r.height == 12,
    {
        Self {
            enabled: true,
            duration_ms: 6000,
            chars: "ﾊﾐﾋｰｳｼﾅﾓﾆｻﾜﾂｵﾘｱﾎﾃﾏｹﾒｴｶｷﾑﾕﾗｾﾈｽﾀﾇﾍ01".to_owned(),
            width: 50,
            height: 12,
        }
    }
}

impl Clone for MatrixConfig {
    fn clone(&self) -> (r: Self)
        ensures
            r == *self,
    {
        Self {
            enabled: self.enabled,
            duration_ms: self.duration_ms,
            chars: self.chars.clone(),
            width: self.width,
            height: self.height,
        }
    }
}

impl MatrixConfig {
    /// The configuration with another duration.
    pub fn with_duration(self, duration_ms: u64) -> (r: Self)
        ensures
            r == (MatrixConfig { duration_ms, ..self }),
    {
        let mut r = self;
        r.duration_ms = duration_ms;
        r
    }

    /// The configuration with other characters.
    pub fn with_chars(self, chars: String) -> (r: Self)
        ensures
            r == (MatrixConfig { chars, ..self }),
    {
        let mut r = self;
        r.chars = chars;
        r
    }

    /// The configuration with the animation switched off.
    pub fn disable(self) -> (r: Self)
        ensures
            r == (MatrixConfig { enabled: false, ..self }),
    {
        let mut r = self;
        r.enabled = false;
        r
    }

    /// An enabled animation of four seconds over the whole terminal.
    pub fn for_full_screen(terminal_width: u16, terminal_height: u16) -> (r: Self)
        ensures
            r.enabled,
            r.duration_ms == 4000,
            r.chars@ == full_screen_chars(),
            r.width == terminal_width,
            r.height == terminal_height,
    {
        Self {
            width: terminal_width,
            height: terminal_height,
            duration_ms: 4000,
            chars: Self::default_matrix_chars(),
            enabled: true,
        }
    }

    /// An enabled animation of the given size and duration.
    pub fn for_size(width: u16, height: u16, duration_ms: u64) -> (r: Self)
        ensures
            r.enabled,
            r.duration_ms == duration_ms,
            r.chars@ == full_screen_chars(),
            r.width == width,
            r.height == height,
    {
        Self { width, height, duration_ms, chars: Self::default_matrix_chars(), enabled: true }
    }

    /// The characters of an animation that fills the screen.
    pub fn default_matrix_chars() -> (r: String)
        ensures
            r@ == full_screen_chars(),
    {
        "アイウエオカキクケコサシスセソタチツテトナニヌネノハヒフヘホマミムメモヤユヨラリルレロワヲンabcdefghijklmnopqrstuvwxyzABCDEFGHIJKLMNOPQRSTUVWXYZ0123456789!@#$%^&*()←↑→↓∞§¤".to_owned()
    }

    /// The configured characters, one by one.
    pub fn get_character_set(&self) -> (r: Vec<char>)
        ensures
            r@ == self.chars@,
    {
        str_chars(self.chars.as_str())
    }

    /// Accepts a configuration with a screen of at least one cell and at least
    /// one character.
    pub fn validate(&self) -> (r: Result<(), String>)
        ensures
            match r {
                Ok(_) => validation_error(*self) is None,
                Err(message) => validation_error(*self) == Some(message@),
            },
    {
        if self.width == 0 || self.height == 0 {
            return Err("Width and height must be greater than 0".to_owned());
        }
        if self.chars.as_str().is_empty() {
            return Err("Character set cannot be empty".to_owned());
        }
        Ok(())
    }
}

} // verus!
