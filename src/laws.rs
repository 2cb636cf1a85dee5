use vstd::prelude::*;

use crate::options::{GlobalOptions, NewlineStyle, parse_newline_spec};
use crate::resolve::{
    ResolveResult, SettingView, diagnostics_view, engine_key_spec, entries_view, entry_setting,
    field_of, global_settings, invalid_entry_message, is_resolution_of, last_assignment, newline_key,
    newline_message, override_diagnostics, override_settings, resolved_diagnostics, resolved_settings, settings_view,
};

verus! {

/// Entry `j` of the overrides assigns engine field `f`.
pub open spec fn entry_assigns(
    o: Seq<(Seq<char>, Seq<char>)>,
    ok: Seq<bool>,
    j: int,
    f: Seq<char>,
) -> bool {
    entry_setting(o[j].0, o[j].1, ok[j]) matches Some(x) && field_of(x) == f
}

/// Resolving the same inputs twice gives the same assignments, the same
/// diagnostics and the same retained overrides.
pub proof fn lemma_resolution_deterministic(
    r1: ResolveResult,
    r2: ResolveResult,
    g: GlobalOptions,
    o: Seq<(Seq<char>, Seq<char>)>,
    ok: Seq<bool>,
)
    requires
        is_resolution_of(r1, g, o, ok),
        is_resolution_of(r2, g, o, ok),
    ensures
        settings_view(r1.config.settings@) == settings_view(r2.config.settings@),
        diagnostics_view(r1.diagnostics@) == diagnostics_view(r2.diagnostics@),
        entries_view(r1.config.overrides@) == entries_view(
            r2.config.overrides@,
        ),
{
}

proof fn lemma_later_entries_keep(
    g: GlobalOptions,
    o: Seq<(Seq<char>, Seq<char>)>,
    ok: Seq<bool>,
    i: int,
    n: int,
    s: SettingView,
)
    requires
        ok.len() == o.len(),
        0 <= i < n <= o.len(),
        entry_setting(o[i].0, o[i].1, ok[i]) == Some(s),
        forall|j: int| i < j < o.len() ==> !entry_assigns(o, ok, j, field_of(s)),
    ensures
        last_assignment(global_settings(g) + override_settings(o, ok, n), field_of(s))
            == Some(s),
    decreases n,
{
    let f = field_of(s);
    let x = global_settings(g) + override_settings(o, ok, n);
    let prev = global_settings(g) + override_settings(o, ok, n - 1);
    if n == i + 1 {
        assert(x =~= prev + seq![s]);
        assert(x.last() == s);
    } else {
        lemma_later_entries_keep(g, o, ok, i, n - 1, s);
        assert(!entry_assigns(o, ok, n - 1, f));
        match entry_setting(o[n - 1].0, o[n - 1].1, ok[n - 1]) {
            Some(y) => {
                assert(x =~= prev + seq![y]);
                assert(x.drop_last() =~= prev);
            },
            None => {
                assert(x =~= prev);
            },
        }
    }
}

/// An override entry decides the engine field it assigns, over the global
/// options and over every earlier entry, unless a later entry assigns the same
/// field. The output mode is the one field no entry can decide.
pub proof fn lemma_last_entry_decides(
    g: GlobalOptions,
    o: Seq<(Seq<char>, Seq<char>)>,
    ok: Seq<bool>,
    i: int,
    s: SettingView,
)
    requires
        ok.len() == o.len(),
        0 <= i < o.len(),
        entry_setting(o[i].0, o[i].1, ok[i]) == Some(s),
        field_of(s) != "emit_mode"@,
        forall|j: int| i < j < o.len() ==> !entry_assigns(o, ok, j, field_of(s)),
    ensures
        last_assignment(resolved_settings(g, o, ok), field_of(s)) == Some(s),
{
    lemma_later_entries_keep(g, o, ok, i, o.len() as int, s);
    let x = resolved_settings(g, o, ok);
    assert(x.drop_last() =~= global_settings(g) + override_settings(o, ok, o.len() as int));
}

/// A `lineWidth` override the engine accepts decides the maximum width,
/// whatever line width the global options give.
pub proof fn lemma_line_width_override_wins(g: GlobalOptions, value: Seq<char>)
    ensures
        last_assignment(
            resolved_settings(g, seq![("lineWidth"@, value)], seq![true]),
            "max_width"@,
        ) == Some(SettingView::Raw("max_width"@, value)),
{
    reveal_strlit("lineWidth");
    reveal_strlit("newLineKind");
    reveal_strlit("max_width");
    reveal_strlit("emit_mode");
    let o = seq![("lineWidth"@, value)];
    let ok = seq![true];
    assert("lineWidth"@.len() == 9 && "newLineKind"@.len() == 11);
    assert("max_width"@.len() == 9 && "emit_mode"@[0] == 'e' && "max_width"@[0] == 'm');
    assert(engine_key_spec("lineWidth"@) == "max_width"@);
    lemma_last_entry_decides(g, o, ok, 0, SettingView::Raw("max_width"@, value));
}

/// A `newLineKind` override with a known value decides the newline style,
/// whatever newline kind the global options give.
pub proof fn lemma_newline_kind_override_wins(g: GlobalOptions, value: Seq<char>, s: NewlineStyle)
    requires
        parse_newline_spec(value) == Some(s),
    ensures
        last_assignment(
            resolved_settings(g, seq![(newline_key(), value)], seq![true]),
            "newline_style"@,
        ) == Some(SettingView::Newline(s)),
{
    reveal_strlit("newline_style");
    reveal_strlit("emit_mode");
    assert("newline_style"@.len() == 13 && "emit_mode"@.len() == 9);
    let o = seq![(newline_key(), value)];
    let ok = seq![true];
    lemma_last_entry_decides(g, o, ok, 0, SettingView::Newline(s));
}

/// A `newLineKind` override with an unknown value changes no setting and
/// yields exactly one diagnostic, on `newLineKind`, that quotes the value.
pub proof fn lemma_bad_newline_kind(g: GlobalOptions, value: Seq<char>, accepted: bool)
    requires
        parse_newline_spec(value) is None,
    ensures
        resolved_settings(g, seq![(newline_key(), value)], seq![accepted]) == global_settings(g)
            + seq![SettingView::EmitStdout],
        resolved_diagnostics(seq![(newline_key(), value)], seq![accepted]) == seq![
            (newline_key(), newline_message(value)),
        ],
{
    let o = seq![(newline_key(), value)];
    let ok = seq![accepted];
    assert(override_settings(o, ok, 0) =~= Seq::<SettingView>::empty());
    assert(override_diagnostics(o, ok, 0) =~= Seq::<(Seq<char>, Seq<char>)>::empty());
    assert(override_settings(o, ok, 1) =~= Seq::<SettingView>::empty());
    assert(resolved_settings(g, o, ok) =~= global_settings(g) + seq![SettingView::EmitStdout]);
    assert(resolved_diagnostics(o, ok) =~= seq![(newline_key(), newline_message(value))]);
}

/// An entry the engine rejects changes no setting and yields exactly one
/// diagnostic, named by the key as the user wrote it and quoting the key as
/// the engine spells it.
pub proof fn lemma_rejected_entry(g: GlobalOptions, key: Seq<char>, value: Seq<char>)
    requires
        key != newline_key(),
    ensures
        resolved_settings(g, seq![(key, value)], seq![false]) == global_settings(g) + seq![
            SettingView::EmitStdout,
        ],
        resolved_diagnostics(seq![(key, value)], seq![false]) == seq![
            (key, invalid_entry_message(engine_key_spec(key), value)),
        ],
{
    let o = seq![(key, value)];
    let ok = seq![false];
    assert(override_settings(o, ok, 0) =~= Seq::<SettingView>::empty());
    assert(override_diagnostics(o, ok, 0) =~= Seq::<(Seq<char>, Seq<char>)>::empty());
    assert(override_settings(o, ok, 1) =~= Seq::<SettingView>::empty());
    assert(resolved_settings(g, o, ok) =~= global_settings(g) + seq![SettingView::EmitStdout]);
    assert(resolved_diagnostics(o, ok) =~= seq![
        (key, invalid_entry_message(engine_key_spec(key), value)),
    ]);
}

/// A rejected `useTabs` entry is reported under `useTabs`, with `hard_tabs`
/// in its message.
pub proof fn lemma_rejected_alias_reports_both_names(g: GlobalOptions, value: Seq<char>)
    ensures
        resolved_diagnostics(seq![("useTabs"@, value)], seq![false]) == seq![
            ("useTabs"@, invalid_entry_message("hard_tabs"@, value)),
        ],
{
    reveal_strlit("useTabs");
    reveal_strlit("newLineKind");
    reveal_strlit("lineWidth");
    assert("useTabs"@.len() == 7 && "newLineKind"@.len() == 11 && "lineWidth"@.len() == 9);
    assert("useTabs"@ != newline_key());
    assert(engine_key_spec("useTabs"@) == "hard_tabs"@);
    lemma_rejected_entry(g, "useTabs"@, value);
}

/// Without overrides nothing is diagnosed, and the assignments are the global
/// options framed by the fixed edition and output mode; with no global option
/// either, those two are all.
pub proof fn lemma_no_overrides(g: GlobalOptions)
    ensures
        resolved_diagnostics(Seq::empty(), Seq::empty()) == Seq::<(Seq<char>, Seq<char>)>::empty(),
        resolved_settings(g, Seq::empty(), Seq::empty()) == global_settings(g) + seq![
            SettingView::EmitStdout,
        ],
        (g.line_width is None && g.use_tabs is None && g.indent_width is None
            && g.new_line_kind is None) ==> resolved_settings(g, Seq::empty(), Seq::empty())
            == seq![SettingView::Edition2018, SettingView::EmitStdout],
{
    assert(resolved_settings(g, Seq::empty(), Seq::empty()) =~= global_settings(g) + seq![
        SettingView::EmitStdout,
    ]);
    if g.line_width is None && g.use_tabs is None && g.indent_width is None
        && g.new_line_kind is None {
        assert(resolved_settings(g, Seq::empty(), Seq::empty()) =~= seq![
            SettingView::Edition2018,
            SettingView::EmitStdout,
        ]);
    }
}

} // verus!
