use vstd::prelude::*;

use crate::options::{
    GlobalOptions, NewlineStyle, newline_style_of, parse_newline_kind, parse_newline_spec,
    style_of_kind,
};

verus! {

/// One field assignment to be made on the engine's configuration, in order.
#[derive(Clone, Debug, PartialEq, Eq)]
pub enum Setting {
    /// The language edition the engine parses with; never chosen by the user.
    Edition2018,
    MaxWidth(u32),
    HardTabs(bool),
    TabSpaces(u8),
    Newline(NewlineStyle),
    /// A user key, already in the engine's own spelling, with its text value.
    Raw { key: String, value: String },
    /// Output captured in memory; always the last assignment.
    EmitStdout,
}

/// Mathematical form of a [`Setting`].
pub enum SettingView {
    Edition2018,
    MaxWidth(u32),
    HardTabs(bool),
    TabSpaces(u8),
    Newline(NewlineStyle),
    Raw(Seq<char>, Seq<char>),
    EmitStdout,
}

impl View for Setting {
    type V = SettingView;

    open spec fn view(&self) -> SettingView {
        match self {
            Setting::Edition2018 => SettingView::Edition2018,
            Setting::MaxWidth(w) => SettingView::MaxWidth(*w),
            Setting::HardTabs(b) => SettingView::HardTabs(*b),
            Setting::TabSpaces(n) => SettingView::TabSpaces(*n),
            Setting::Newline(s) => SettingView::Newline(*s),
            Setting::Raw { key, value } => SettingView::Raw(key@, value@),
            Setting::EmitStdout => SettingView::EmitStdout,
        }
    }
}

/// The engine field that a setting assigns.
pub open spec fn field_of(s: SettingView) -> Seq<char> {
    match s {
        SettingView::Edition2018 => "edition"@,
        SettingView::MaxWidth(_) => "max_width"@,
        SettingView::HardTabs(_) => "hard_tabs"@,
        SettingView::TabSpaces(_) => "tab_spaces"@,
        SettingView::Newline(_) => "newline_style"@,
        SettingView::Raw(k, _) => k,
        SettingView::EmitStdout => "emit_mode"@,
    }
}

/// The assignment that decides `field` after all of `s` is applied in order.
pub open spec fn last_assignment(s: Seq<SettingView>, field: Seq<char>) -> Option<SettingView>
    decreases s.len(),
{
    if s.len() == 0 {
        None
    } else if field_of(s.last()) == field {
        Some(s.last())
    } else {
        last_assignment(s.drop_last(), field)
    }
}

/// A configuration problem found on one override entry.
#[derive(Clone, Debug, PartialEq, Eq)]
pub struct Diagnostic {
    pub property_name: String,
    pub message: String,
}

impl View for Diagnostic {
    type V = (Seq<char>, Seq<char>);

    open spec fn view(&self) -> (Seq<char>, Seq<char>) {
        (self.property_name@, self.message@)
    }
}

/// The key under which the newline kind is given in overrides.
pub open spec fn newline_key() -> Seq<char> {
    "newLineKind"@
}

/// The engine's spelling of an override key.
pub open spec fn engine_key_spec(key: Seq<char>) -> Seq<char> {
    if key == "lineWidth"@ {
        "max_width"@
    } else if key == "useTabs"@ {
        "hard_tabs"@
    } else if key == "indentWidth"@ {
        "tab_spaces"@
    } else {
        key
    }
}

pub open spec fn newline_message(value: Seq<char>) -> Seq<char> {
    "Invalid newline kind: "@ + value
}

pub open spec fn invalid_entry_message(engine_key: Seq<char>, value: Seq<char>) -> Seq<char> {
    "Invalid key or value in configuration. Key: "@ + engine_key + ", Value: "@ + value
}

/// The assignment that one override entry makes, given whether the engine
/// accepts its translated key and value.
pub open spec fn entry_setting(key: Seq<char>, value: Seq<char>, accepted: bool) -> Option<
    SettingView,
> {
    if key == newline_key() {
        match parse_newline_spec(value) {
            Some(s) => Some(SettingView::Newline(s)),
            None => None,
        }
    } else if accepted {
        Some(SettingView::Raw(engine_key_spec(key), value))
    } else {
        None
    }
}

/// The diagnostic that one override entry yields, if any.
pub open spec fn entry_diagnostic(key: Seq<char>, value: Seq<char>, accepted: bool) -> Option<
    (Seq<char>, Seq<char>),
> {
    if key == newline_key() {
        match parse_newline_spec(value) {
            Some(_) => None,
            None => Some((key, newline_message(value))),
        }
    } else if accepted {
        None
    } else {
        Some((key, invalid_entry_message(engine_key_spec(key), value)))
    }
}

pub open spec fn opt_seq<A>(o: Option<A>) -> Seq<A> {
    match o {
        Some(a) => seq![a],
        None => Seq::empty(),
    }
}

/// The assignments that the host's global options make.
pub open spec fn global_settings(g: GlobalOptions) -> Seq<SettingView> {
    seq![SettingView::Edition2018] + opt_seq(
        match g.line_width {
            Some(w) => Some(SettingView::MaxWidth(w)),
            None => None,
        },
    ) + opt_seq(
        match g.use_tabs {
            Some(b) => Some(SettingView::HardTabs(b)),
            None => None,
        },
    ) + opt_seq(
        match g.indent_width {
            Some(n) => Some(SettingView::TabSpaces(n)),
            None => None,
        },
    ) + opt_seq(
        match g.new_line_kind {
            Some(k) => Some(SettingView::Newline(style_of_kind(k))),
            None => None,
        },
    )
}

/// Override entries as pairs of character sequences.
pub open spec fn entries_view(o: Seq<(String, String)>) -> Seq<(Seq<char>, Seq<char>)> {
    o.map_values(|e: (String, String)| (e.0@, e.1@))
}

/// The assignments made by the first `n` override entries.
pub open spec fn override_settings(
    o: Seq<(Seq<char>, Seq<char>)>,
    ok: Seq<bool>,
    n: int,
) -> Seq<SettingView>
    decreases n,
{
    if n <= 0 {
        Seq::empty()
    } else {
        override_settings(o, ok, n - 1) + opt_seq(entry_setting(o[n - 1].0, o[n - 1].1, ok[n - 1]))
    }
}

/// The diagnostics of the first `n` override entries.
pub open spec fn override_diagnostics(
    o: Seq<(Seq<char>, Seq<char>)>,
    ok: Seq<bool>,
    n: int,
) -> Seq<(Seq<char>, Seq<char>)>
    decreases n,
{
    if n <= 0 {
        Seq::empty()
    } else {
        override_diagnostics(o, ok, n - 1) + opt_seq(
            entry_diagnostic(o[n - 1].0, o[n - 1].1, ok[n - 1]),
        )
    }
}

/// Every assignment of a resolution, in the order the engine receives them.
pub open spec fn resolved_settings(
    g: GlobalOptions,
    o: Seq<(Seq<char>, Seq<char>)>,
    ok: Seq<bool>,
) -> Seq<SettingView> {
    global_settings(g) + override_settings(o, ok, o.len() as int) + seq![SettingView::EmitStdout]
}

/// Every diagnostic of a resolution, in entry order.
pub open spec fn resolved_diagnostics(
    o: Seq<(Seq<char>, Seq<char>)>,
    ok: Seq<bool>,
) -> Seq<(Seq<char>, Seq<char>)> {
    override_diagnostics(o, ok, o.len() as int)
}

pub open spec fn settings_view(s: Seq<Setting>) -> Seq<SettingView> {
    s.map_values(|x: Setting| x@)
}

pub open spec fn diagnostics_view(d: Seq<Diagnostic>) -> Seq<(Seq<char>, Seq<char>)> {
    d.map_values(|x: Diagnostic| x@)
}

/// The engine configuration to build, kept beside the overrides it came from.
#[derive(Clone, Debug)]
pub struct ResolvedConfiguration {
    pub overrides: Vec<(String, String)>,
    pub settings: Vec<Setting>,
}

/// A resolved configuration with the diagnostics found on the way.
#[derive(Clone, Debug)]
pub struct ResolveResult {
    pub config: ResolvedConfiguration,
    pub diagnostics: Vec<Diagnostic>,
}

/// `r` is what resolving `g` with overrides `o`, whose translated entries the
/// engine accepts as `ok` says, gives.
pub open spec fn is_resolution_of(
    r: ResolveResult,
    g: GlobalOptions,
    o: Seq<(Seq<char>, Seq<char>)>,
    ok: Seq<bool>,
) -> bool {
    &&& entries_view(r.config.overrides@) == o
    &&& settings_view(r.config.settings@) == resolved_settings(g, o, ok)
    &&& diagnostics_view(r.diagnostics@) == resolved_diagnostics(o, ok)
}

/// Translates the three camel-case aliases to the engine's field names.
pub fn engine_key(key: &String) -> (r: String)
    ensures
        r@ == engine_key_spec(key@),
{
    if *key == String::from_str("lineWidth") {
        String::from_str("max_width")
    } else if *key == String::from_str("useTabs") {
        String::from_str("hard_tabs")
    } else if *key == String::from_str("indentWidth") {
        String::from_str("tab_spaces")
    } else {
        key.clone()
    }
}

/// Handles one override entry: the assignment it makes and the diagnostic it
/// yields.
pub fn resolve_entry(key: &String, value: &String, accepted: bool) -> (r: (
    Option<Setting>,
    Option<Diagnostic>,
))
    ensures
        r.0 matches Some(s) ==> entry_setting(key@, value@, accepted) == Some(s@),
        r.0 is None ==> entry_setting(key@, value@, accepted) is None,
        r.1 matches Some(d) ==> entry_diagnostic(key@, value@, accepted) == Some(d@),
        r.1 is None ==> entry_diagnostic(key@, value@, accepted) is None,
{
    if *key == String::from_str("newLineKind") {
        match parse_newline_kind(value) {
            Some(s) => (Some(Setting::Newline(s)), None),
            None => {
                let mut message = String::from_str("Invalid newline kind: ");
                message.append(value.as_str());
                (None, Some(Diagnostic { property_name: key.clone(), message }))
            },
        }
    } else {
        let ek = engine_key(key);
        if accepted {
            (Some(Setting::Raw { key: ek, value: value.clone() }), None)
        } else {
            let mut message = String::from_str("Invalid key or value in configuration. Key: ");
            message.append(ek.as_str());
            message.append(", Value: ");
            message.append(value.as_str());
            (None, Some(Diagnostic { property_name: key.clone(), message }))
        }
    }
}

/// Merges the host's global options and the user's overrides into the list of
/// engine assignments, collecting a diagnostic for every rejected entry.
/// `accepted[i]` is the engine's verdict on entry `i` with its key translated
/// by [`engine_key`].
pub fn resolve_config(
    overrides: Vec<(String, String)>,
    accepted: Vec<bool>,
    global: &GlobalOptions,
) -> (r: ResolveResult)
    requires
        accepted@.len() == overrides@.len(),
    ensures
        is_resolution_of(r, *global, entries_view(overrides@), accepted@),
{
    let ghost o = entries_view(overrides@);
    let mut settings: Vec<Setting> = Vec::new();
    let mut diagnostics: Vec<Diagnostic> = Vec::new();
    settings.push(Setting::Edition2018);
    if let Some(w) = global.line_width {
        settings.push(Setting::MaxWidth(w));
    }
    if let Some(b) = global.use_tabs {
        settings.push(Setting::HardTabs(b));
    }
    if let Some(n) = global.indent_width {
        settings.push(Setting::TabSpaces(n));
    }
    if let Some(k) = global.new_line_kind {
        settings.push(Setting::Newline(newline_style_of(k)));
    }
    assert(settings_view(settings@) =~= global_settings(*global));
    let mut i: usize = 0;
    while i < overrides.len()
        invariant
            accepted@.len() == overrides@.len(),
            o == entries_view(overrides@),
            i <= overrides@.len(),
            settings_view(settings@) == global_settings(*global) + override_settings(
                o,
                accepted@,
                i as int,
            ),
            diagnostics_view(diagnostics@) == override_diagnostics(o, accepted@, i as int),
        decreases overrides@.len() - i,
    {
        let (setting, diagnostic) = resolve_entry(&overrides[i].0, &overrides[i].1, accepted[i]);
        assert(o[i as int] == (overrides@[i as int].0@, overrides@[i as int].1@));
        let ghost before = settings@;
        let ghost dbefore = diagnostics@;
        match setting {
            Some(s) => {
                settings.push(s);
            },
            None => {},
        }
        match diagnostic {
            Some(d) => {
                diagnostics.push(d);
            },
            None => {},
        }
        assert(settings_view(settings@) =~= settings_view(before) + opt_seq(
            entry_setting(o[i as int].0, o[i as int].1, accepted@[i as int]),
        ));
        assert(diagnostics_view(diagnostics@) =~= diagnostics_view(dbefore) + opt_seq(
            entry_diagnostic(o[i as int].0, o[i as int].1, accepted@[i as int]),
        ));
        i = i + 1;
    }
    settings.push(Setting::EmitStdout);
    assert(settings_view(settings@) =~= resolved_settings(*global, o, accepted@));
    ResolveResult { config: ResolvedConfiguration { overrides, settings }, diagnostics }
}

} // verus!
