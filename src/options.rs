use vstd::prelude::*;

verus! {

/// Line-ending policy chosen by the host for every formatter it drives.
#[derive(Clone, Copy, Debug, PartialEq, Eq, Structural)]
pub enum NewLineKind {
    Auto,
    LineFeed,
    CarriageReturnLineFeed,
    System,
}

/// The engine's own newline-style setting.
#[derive(Clone, Copy, Debug, PartialEq, Eq, Structural)]
pub enum NewlineStyle {
    Auto,
    Unix,
    Windows,
    Native,
}

/// Cross-tool preferences supplied by the host; an absent field means
/// "no preference, keep the engine default".
#[derive(Clone, Copy, Debug)]
pub struct GlobalOptions {
    pub line_width: Option<u32>,
    pub use_tabs: Option<bool>,
    pub indent_width: Option<u8>,
    pub new_line_kind: Option<NewLineKind>,
}

impl GlobalOptions {
    /// Options with every field absent.
    pub fn empty() -> (r: GlobalOptions)
        ensures
            r.line_width.is_none(),
            r.use_tabs.is_none(),
            r.indent_width.is_none(),
            r.new_line_kind.is_none(),
    {
        GlobalOptions { line_width: None, use_tabs: None, indent_width: None, new_line_kind: None }
    }
}

/// The engine style that a host newline kind stands for.
pub open spec fn style_of_kind(k: NewLineKind) -> NewlineStyle {
    match k {
        NewLineKind::Auto => NewlineStyle::Auto,
        NewLineKind::LineFeed => NewlineStyle::Unix,
        NewLineKind::CarriageReturnLineFeed => NewlineStyle::Windows,
        NewLineKind::System => NewlineStyle::Native,
    }
}

/// Maps a host newline kind to the engine's newline style.
pub fn newline_style_of(k: NewLineKind) -> (r: NewlineStyle)
    ensures
        r == style_of_kind(k),
{
    match k {
        NewLineKind::Auto => NewlineStyle::Auto,
        NewLineKind::LineFeed => NewlineStyle::Unix,
        NewLineKind::CarriageReturnLineFeed => NewlineStyle::Windows,
        NewLineKind::System => NewlineStyle::Native,
    }
}

/// The newline style named by an override value, if it names one.
pub open spec fn parse_newline_spec(v: Seq<char>) -> Option<NewlineStyle> {
    if v == "auto"@ {
        Some(NewlineStyle::Auto)
    } else if v == "lf"@ {
        Some(NewlineStyle::Unix)
    } else if v == "crlf"@ {
        Some(NewlineStyle::Windows)
    } else if v == "system"@ {
        Some(NewlineStyle::Native)
    } else {
        None
    }
}

/// Reads the value of a `newLineKind` override.
pub fn parse_newline_kind(value: &String) -> (r: Option<NewlineStyle>)
    ensures
        r == parse_newline_spec(value@),
{
    if *value == String::from_str("auto") {
        Some(NewlineStyle::Auto)
    } else if *value == String::from_str("lf") {
        Some(NewlineStyle::Unix)
    } else if *value == String::from_str("crlf") {
        Some(NewlineStyle::Windows)
    } else if *value == String::from_str("system") {
        Some(NewlineStyle::Native)
    } else {
        None
    }
}

} // verus!
