//! The built-in static utilities: class names with fixed declarations.
use vstd::prelude::*;
use crate::context::{Context, UtilityValue, UtilityValueView, lemma_values_view_register, register_view, values_view};
use crate::css::{Decl, decls_view};

verus! {

/// A table of static utilities: each has at least one declaration.
pub open spec fn static_table_wf(t: Seq<(String, Vec<Decl>)>) -> bool {
    forall|i: int| 0 <= i < t.len() ==> (#[trigger] t[i]).1@.len() > 0
}

/// The class names and declarations of a table, as name-value pairs.
pub open spec fn static_view(t: Seq<(String, Vec<Decl>)>) -> Seq<(Seq<char>, Seq<(Seq<char>, Seq<char>)>)> {
    t.map_values(|e: (String, Vec<Decl>)| (e.0@, decls_view(e.1@)))
}

/// No declarations yet.
fn decls() -> (r: Vec<Decl>)
    ensures
        r@.len() == 0,
        decls_view(r@) == Seq::<(Seq<char>, Seq<char>)>::empty(),
{
    let r: Vec<Decl> = Vec::new();
    assert(decls_view(r@) =~= Seq::<(Seq<char>, Seq<char>)>::empty());
    r
}

/// `d` with the declaration `name: value` after the others.
fn decl(d: Vec<Decl>, name: &str, value: &str) -> (r: Vec<Decl>)
    ensures
        r@.len() == d@.len() + 1,
        decls_view(r@) == decls_view(d@).push((name@, value@)),
{
    let mut d = d;
    let ghost before = d@;
    d.push(Decl { name: name.to_owned(), value: value.to_owned() });
    assert(decls_view(d@) =~= decls_view(before).push((name@, value@)));
    d
}

fn rule(out: &mut Vec<(String, Vec<Decl>)>, key: &str, decls: Vec<Decl>)
    requires
        static_table_wf(old(out)@),
        decls@.len() > 0,
    ensures
        static_table_wf(final(out)@),
        final(out)@.len() == old(out)@.len() + 1,
        static_view(final(out)@) == static_view(old(out)@).push((key@, decls_view(decls@))),
{
    let ghost before = out@;
    let ghost dv = decls_view(decls@);
    out.push((key.to_owned(), decls));
    proof {
        assert(static_view(out@) =~= static_view(before).push((key@, dv)));
    }
}

fn chain(out: &mut Vec<(String, Vec<Decl>)>, more: Vec<(String, Vec<Decl>)>)
    requires
        static_table_wf(old(out)@),
        static_table_wf(more@),
    ensures
        static_table_wf(final(out)@),
        final(out)@ == old(out)@ + more@,
        static_view(final(out)@) == static_view(old(out)@) + static_view(more@),
{
    let ghost added = more@;
    let mut more = more;
    out.append(&mut more);
    proof {
        assert forall|i: int| 0 <= i < out@.len() implies (#[trigger] out@[i]).1@.len() > 0 by {
            if i >= old(out)@.len() {
                assert(out@[i] == added[i - old(out)@.len()]);
            }
        }
        assert(static_view(out@) =~= static_view(old(out)@) + static_view(added));
    }
}

/// The `accessibility` utilities.
pub open spec fn accessibility_rules() -> Seq<(Seq<char>, Seq<(Seq<char>, Seq<char>)>)> {
    seq![
        ("sr-only"@, seq![("position"@, "absolute"@), ("width"@, "1px"@), ("height"@, "1px"@), ("padding"@, "0"@), ("margin"@, "-1px"@), ("overflow"@, "hidden"@), ("clip"@, "rect(0, 0, 0, 0)"@), ("white-space"@, "nowrap"@), ("border-width"@, "0"@)]),
        ("not-sr-only"@, seq![("position"@, "static"@), ("width"@, "auto"@), ("height"@, "auto"@), ("padding"@, "0"@), ("margin"@, "0"@), ("overflow"@, "visible"@), ("clip"@, "auto"@), ("white-space"@, "normal"@)]),
    ]
}

/// The `accessibility` utilities.
pub fn accessibility() -> (r: Vec<(String, Vec<Decl>)>)
    ensures
        static_table_wf(r@),
        r@.len() == 2,
        static_view(r@) == accessibility_rules(),
{
    let mut r: Vec<(String, Vec<Decl>)> = Vec::new();
    proof {
        assert(static_view(r@) =~= Seq::<(Seq<char>, Seq<(Seq<char>, Seq<char>)>)>::empty());
    }
    let d = decl(decl(decl(decl(decl(decl(decl(decl(decl(decls(), "position", "absolute"), "width", "1px"), "height", "1px"), "padding", "0"), "margin", "-1px"), "overflow", "hidden"), "clip", "rect(0, 0, 0, 0)"), "white-space", "nowrap"), "border-width", "0");
    assert(decls_view(d@) == seq![("position"@, "absolute"@), ("width"@, "1px"@), ("height"@, "1px"@), ("padding"@, "0"@), ("margin"@, "-1px"@), ("overflow"@, "hidden"@), ("clip"@, "rect(0, 0, 0, 0)"@), ("white-space"@, "nowrap"@), ("border-width"@, "0"@)]);
    rule(&mut r, "sr-only", d);
    let d = decl(decl(decl(decl(decl(decl(decl(decl(decls(), "position", "static"), "width", "auto"), "height", "auto"), "padding", "0"), "margin", "0"), "overflow", "visible"), "clip", "auto"), "white-space", "normal");
    assert(decls_view(d@) == seq![("position"@, "static"@), ("width"@, "auto"@), ("height"@, "auto"@), ("padding"@, "0"@), ("margin"@, "0"@), ("overflow"@, "visible"@), ("clip"@, "auto"@), ("white-space"@, "normal"@)]);
    rule(&mut r, "not-sr-only", d);
    r
}

/// The `pointer-events` utilities.
pub open spec fn pointer_events_rules() -> Seq<(Seq<char>, Seq<(Seq<char>, Seq<char>)>)> {
    seq![
        ("pointer-events-none"@, seq![("pointer-events"@, "none"@)]),
        ("pointer-events-auto"@, seq![("pointer-events"@, "auto"@)]),
    ]
}

/// The `pointer-events` utilities.
pub fn pointer_events() -> (r: Vec<(String, Vec<Decl>)>)
    ensures
        static_table_wf(r@),
        r@.len() == 2,
        static_view(r@) == pointer_events_rules(),
{
    let mut r: Vec<(String, Vec<Decl>)> = Vec::new();
    proof {
        assert(static_view(r@) =~= Seq::<(Seq<char>, Seq<(Seq<char>, Seq<char>)>)>::empty());
    }
    rule(&mut r, "pointer-events-none", decl(decls(), "pointer-events", "none"));
    rule(&mut r, "pointer-events-auto", decl(decls(), "pointer-events", "auto"));
    r
}

/// The `visibility` utilities.
pub open spec fn visibility_rules() -> Seq<(Seq<char>, Seq<(Seq<char>, Seq<char>)>)> {
    seq![
        ("visible"@, seq![("visibility"@, "visible"@)]),
        ("invisible"@, seq![("visibility"@, "hidden"@)]),
        ("collapse"@, seq![("visibility"@, "collapse"@)]),
    ]
}

/// The `visibility` utilities.
pub fn visibility() -> (r: Vec<(String, Vec<Decl>)>)
    ensures
        static_table_wf(r@),
        r@.len() == 3,
        static_view(r@) == visibility_rules(),
{
    let mut r: Vec<(String, Vec<Decl>)> = Vec::new();
    proof {
        assert(static_view(r@) =~= Seq::<(Seq<char>, Seq<(Seq<char>, Seq<char>)>)>::empty());
    }
    rule(&mut r, "visible", decl(decls(), "visibility", "visible"));
    rule(&mut r, "invisible", decl(decls(), "visibility", "hidden"));
    rule(&mut r, "collapse", decl(decls(), "visibility", "collapse"));
    r
}

/// The `position` utilities.
pub open spec fn position_rules() -> Seq<(Seq<char>, Seq<(Seq<char>, Seq<char>)>)> {
    seq![
        ("static"@, seq![("position"@, "static"@)]),
        ("fixed"@, seq![("position"@, "fixed"@)]),
        ("absolute"@, seq![("position"@, "absolute"@)]),
        ("relative"@, seq![("position"@, "relative"@)]),
        ("sticky"@, seq![("position"@, "sticky"@)]),
    ]
}

/// The `position` utilities.
pub fn position() -> (r: Vec<(String, Vec<Decl>)>)
    ensures
        static_table_wf(r@),
        r@.len() == 5,
        static_view(r@) == position_rules(),
{
    let mut r: Vec<(String, Vec<Decl>)> = Vec::new();
    proof {
        assert(static_view(r@) =~= Seq::<(Seq<char>, Seq<(Seq<char>, Seq<char>)>)>::empty());
    }
    rule(&mut r, "static", decl(decls(), "position", "static"));
    rule(&mut r, "fixed", decl(decls(), "position", "fixed"));
    rule(&mut r, "absolute", decl(decls(), "position", "absolute"));
    rule(&mut r, "relative", decl(decls(), "position", "relative"));
    rule(&mut r, "sticky", decl(decls(), "position", "sticky"));
    r
}

/// The `isolation` utilities.
pub open spec fn isolation_rules() -> Seq<(Seq<char>, Seq<(Seq<char>, Seq<char>)>)> {
    seq![
        ("isolate"@, seq![("isolation"@, "isolate"@)]),
        ("isolation-auto"@, seq![("isolation"@, "auto"@)]),
    ]
}

/// The `isolation` utilities.
pub fn isolation() -> (r: Vec<(String, Vec<Decl>)>)
    ensures
        static_table_wf(r@),
        r@.len() == 2,
        static_view(r@) == isolation_rules(),
{
    let mut r: Vec<(String, Vec<Decl>)> = Vec::new();
    proof {
        assert(static_view(r@) =~= Seq::<(Seq<char>, Seq<(Seq<char>, Seq<char>)>)>::empty());
    }
    rule(&mut r, "isolate", decl(decls(), "isolation", "isolate"));
    rule(&mut r, "isolation-auto", decl(decls(), "isolation", "auto"));
    r
}

/// The `float` utilities.
pub open spec fn float_rules() -> Seq<(Seq<char>, Seq<(Seq<char>, Seq<char>)>)> {
    seq![
        ("float-right"@, seq![("float"@, "right"@)]),
        ("float-left"@, seq![("float"@, "left"@)]),
        ("float-none"@, seq![("float"@, "none"@)]),
    ]
}

/// The `float` utilities.
pub fn float() -> (r: Vec<(String, Vec<Decl>)>)
    ensures
        static_table_wf(r@),
        r@.len() == 3,
        static_view(r@) == float_rules(),
{
    let mut r: Vec<(String, Vec<Decl>)> = Vec::new();
    proof {
        assert(static_view(r@) =~= Seq::<(Seq<char>, Seq<(Seq<char>, Seq<char>)>)>::empty());
    }
    rule(&mut r, "float-right", decl(decls(), "float", "right"));
    rule(&mut r, "float-left", decl(decls(), "float", "left"));
    rule(&mut r, "float-none", decl(decls(), "float", "none"));
    r
}

/// The `clear` utilities.
pub open spec fn clear_rules() -> Seq<(Seq<char>, Seq<(Seq<char>, Seq<char>)>)> {
    seq![
        ("clear-start"@, seq![("clear"@, "inline-start"@)]),
        ("clear-end"@, seq![("clear"@, "inline-end"@)]),
        ("clear-left"@, seq![("clear"@, "left"@)]),
        ("clear-right"@, seq![("clear"@, "right"@)]),
        ("clear-both"@, seq![("clear"@, "both"@)]),
        ("clear-none"@, seq![("clear"@, "none"@)]),
    ]
}

/// The `clear` utilities.
pub fn clear() -> (r: Vec<(String, Vec<Decl>)>)
    ensures
        static_table_wf(r@),
        r@.len() == 6,
        static_view(r@) == clear_rules(),
{
    let mut r: Vec<(String, Vec<Decl>)> = Vec::new();
    proof {
        assert(static_view(r@) =~= Seq::<(Seq<char>, Seq<(Seq<char>, Seq<char>)>)>::empty());
    }
    rule(&mut r, "clear-start", decl(decls(), "clear", "inline-start"));
    rule(&mut r, "clear-end", decl(decls(), "clear", "inline-end"));
    rule(&mut r, "clear-left", decl(decls(), "clear", "left"));
    rule(&mut r, "clear-right", decl(decls(), "clear", "right"));
    rule(&mut r, "clear-both", decl(decls(), "clear", "both"));
    rule(&mut r, "clear-none", decl(decls(), "clear", "none"));
    r
}

/// The `box-sizing` utilities.
pub open spec fn box_sizing_rules() -> Seq<(Seq<char>, Seq<(Seq<char>, Seq<char>)>)> {
    seq![
        ("box-border"@, seq![("box-sizing"@, "border-box"@)]),
        ("box-content"@, seq![("box-sizing"@, "content-box"@)]),
    ]
}

/// The `box-sizing` utilities.
pub fn box_sizing() -> (r: Vec<(String, Vec<Decl>)>)
    ensures
        static_table_wf(r@),
        r@.len() == 2,
        static_view(r@) == box_sizing_rules(),
{
    let mut r: Vec<(String, Vec<Decl>)> = Vec::new();
    proof {
        assert(static_view(r@) =~= Seq::<(Seq<char>, Seq<(Seq<char>, Seq<char>)>)>::empty());
    }
    rule(&mut r, "box-border", decl(decls(), "box-sizing", "border-box"));
    rule(&mut r, "box-content", decl(decls(), "box-sizing", "content-box"));
    r
}

/// The `display` utilities of the flex and block kinds.
pub open spec fn display_rules() -> Seq<(Seq<char>, Seq<(Seq<char>, Seq<char>)>)> {
    seq![
        ("block"@, seq![("display"@, "block"@)]),
        ("inline-block"@, seq![("display"@, "inline-block"@)]),
        ("flex"@, seq![("display"@, "flex"@)]),
        ("inline-flex"@, seq![("display"@, "inline-flex"@)]),
    ]
}

/// The `display` utilities of the flex and block kinds.
pub fn display() -> (r: Vec<(String, Vec<Decl>)>)
    ensures
        static_table_wf(r@),
        r@.len() == 4,
        static_view(r@) == display_rules(),
{
    let mut r: Vec<(String, Vec<Decl>)> = Vec::new();
    proof {
        assert(static_view(r@) =~= Seq::<(Seq<char>, Seq<(Seq<char>, Seq<char>)>)>::empty());
    }
    rule(&mut r, "block", decl(decls(), "display", "block"));
    rule(&mut r, "inline-block", decl(decls(), "display", "inline-block"));
    rule(&mut r, "flex", decl(decls(), "display", "flex"));
    rule(&mut r, "inline-flex", decl(decls(), "display", "inline-flex"));
    r
}

/// The other `display` utilities: tables, grids, lists and the rest.
pub open spec fn display_layout_rules() -> Seq<(Seq<char>, Seq<(Seq<char>, Seq<char>)>)> {
    seq![
        ("table"@, seq![("display"@, "table"@)]),
        ("inline-table"@, seq![("display"@, "inline-table"@)]),
        ("table-caption"@, seq![("display"@, "table-caption"@)]),
        ("table-cell"@, seq![("display"@, "table-cell"@)]),
        ("table-column"@, seq![("display"@, "table-column"@)]),
        ("table-column-group"@, seq![("display"@, "table-column-group"@)]),
        ("table-footer-group"@, seq![("display"@, "table-footer-group"@)]),
        ("table-header-group"@, seq![("display"@, "table-header-group"@)]),
        ("table-row-group"@, seq![("display"@, "table-row-group"@)]),
        ("table-row"@, seq![("display"@, "table-row"@)]),
        ("flow-root"@, seq![("display"@, "flow-root"@)]),
        ("grid"@, seq![("display"@, "grid"@)]),
        ("inline-grid"@, seq![("display"@, "inline-grid"@)]),
        ("contents"@, seq![("display"@, "contents"@)]),
        ("list-item"@, seq![("display"@, "list-item"@)]),
        ("hidden"@, seq![("display"@, "none"@)]),
    ]
}

/// The other `display` utilities: tables, grids, lists and the rest.
pub fn display_layout() -> (r: Vec<(String, Vec<Decl>)>)
    ensures
        static_table_wf(r@),
        r@.len() == 16,
        static_view(r@) == display_layout_rules(),
{
    let mut r: Vec<(String, Vec<Decl>)> = Vec::new();
    proof {
        assert(static_view(r@) =~= Seq::<(Seq<char>, Seq<(Seq<char>, Seq<char>)>)>::empty());
    }
    rule(&mut r, "table", decl(decls(), "display", "table"));
    rule(&mut r, "inline-table", decl(decls(), "display", "inline-table"));
    rule(&mut r, "table-caption", decl(decls(), "display", "table-caption"));
    rule(&mut r, "table-cell", decl(decls(), "display", "table-cell"));
    rule(&mut r, "table-column", decl(decls(), "display", "table-column"));
    rule(&mut r, "table-column-group", decl(decls(), "display", "table-column-group"));
    rule(&mut r, "table-footer-group", decl(decls(), "display", "table-footer-group"));
    rule(&mut r, "table-header-group", decl(decls(), "display", "table-header-group"));
    rule(&mut r, "table-row-group", decl(decls(), "display", "table-row-group"));
    rule(&mut r, "table-row", decl(decls(), "display", "table-row"));
    rule(&mut r, "flow-root", decl(decls(), "display", "flow-root"));
    rule(&mut r, "grid", decl(decls(), "display", "grid"));
    rule(&mut r, "inline-grid", decl(decls(), "display", "inline-grid"));
    rule(&mut r, "contents", decl(decls(), "display", "contents"));
    rule(&mut r, "list-item", decl(decls(), "display", "list-item"));
    rule(&mut r, "hidden", decl(decls(), "display", "none"));
    r
}

/// The `table-layout` utilities.
pub open spec fn table_layout_rules() -> Seq<(Seq<char>, Seq<(Seq<char>, Seq<char>)>)> {
    seq![
        ("table-auto"@, seq![("table-layout"@, "auto"@)]),
        ("table-fixed"@, seq![("table-layout"@, "fixed"@)]),
    ]
}

/// The `table-layout` utilities.
pub fn table_layout() -> (r: Vec<(String, Vec<Decl>)>)
    ensures
        static_table_wf(r@),
        r@.len() == 2,
        static_view(r@) == table_layout_rules(),
{
    let mut r: Vec<(String, Vec<Decl>)> = Vec::new();
    proof {
        assert(static_view(r@) =~= Seq::<(Seq<char>, Seq<(Seq<char>, Seq<char>)>)>::empty());
    }
    rule(&mut r, "table-auto", decl(decls(), "table-layout", "auto"));
    rule(&mut r, "table-fixed", decl(decls(), "table-layout", "fixed"));
    r
}

/// The `caption-side` utilities.
pub open spec fn caption_side_rules() -> Seq<(Seq<char>, Seq<(Seq<char>, Seq<char>)>)> {
    seq![
        ("caption-top"@, seq![("caption-side"@, "top"@)]),
        ("caption-bottom"@, seq![("caption-side"@, "bottom"@)]),
    ]
}

/// The `caption-side` utilities.
pub fn caption_side() -> (r: Vec<(String, Vec<Decl>)>)
    ensures
        static_table_wf(r@),
        r@.len() == 2,
        static_view(r@) == caption_side_rules(),
{
    let mut r: Vec<(String, Vec<Decl>)> = Vec::new();
    proof {
        assert(static_view(r@) =~= Seq::<(Seq<char>, Seq<(Seq<char>, Seq<char>)>)>::empty());
    }
    rule(&mut r, "caption-top", decl(decls(), "caption-side", "top"));
    rule(&mut r, "caption-bottom", decl(decls(), "caption-side", "bottom"));
    r
}

/// The `border-collapse` utilities.
pub open spec fn border_collapse_rules() -> Seq<(Seq<char>, Seq<(Seq<char>, Seq<char>)>)> {
    seq![
        ("border-collapse"@, seq![("border-collapse"@, "collapse"@)]),
        ("border-separate"@, seq![("border-collapse"@, "separate"@)]),
    ]
}

/// The `border-collapse` utilities.
pub fn border_collapse() -> (r: Vec<(String, Vec<Decl>)>)
    ensures
        static_table_wf(r@),
        r@.len() == 2,
        static_view(r@) == border_collapse_rules(),
{
    let mut r: Vec<(String, Vec<Decl>)> = Vec::new();
    proof {
        assert(static_view(r@) =~= Seq::<(Seq<char>, Seq<(Seq<char>, Seq<char>)>)>::empty());
    }
    rule(&mut r, "border-collapse", decl(decls(), "border-collapse", "collapse"));
    rule(&mut r, "border-separate", decl(decls(), "border-collapse", "separate"));
    r
}

/// The `user-select` utilities.
pub open spec fn user_select_rules() -> Seq<(Seq<char>, Seq<(Seq<char>, Seq<char>)>)> {
    seq![
        ("select-none"@, seq![("user-select"@, "none"@)]),
        ("select-text"@, seq![("user-select"@, "text"@)]),
        ("select-all"@, seq![("user-select"@, "all"@)]),
        ("select-auto"@, seq![("user-select"@, "auto"@)]),
    ]
}

/// The `user-select` utilities.
pub fn user_select() -> (r: Vec<(String, Vec<Decl>)>)
    ensures
        static_table_wf(r@),
        r@.len() == 4,
        static_view(r@) == user_select_rules(),
{
    let mut r: Vec<(String, Vec<Decl>)> = Vec::new();
    proof {
        assert(static_view(r@) =~= Seq::<(Seq<char>, Seq<(Seq<char>, Seq<char>)>)>::empty());
    }
    rule(&mut r, "select-none", decl(decls(), "user-select", "none"));
    rule(&mut r, "select-text", decl(decls(), "user-select", "text"));
    rule(&mut r, "select-all", decl(decls(), "user-select", "all"));
    rule(&mut r, "select-auto", decl(decls(), "user-select", "auto"));
    r
}

/// The `resize` utilities.
pub open spec fn resize_rules() -> Seq<(Seq<char>, Seq<(Seq<char>, Seq<char>)>)> {
    seq![
        ("resize-none"@, seq![("resize"@, "none"@)]),
        ("resize-y"@, seq![("resize"@, "vertical"@)]),
        ("resize-x"@, seq![("resize"@, "horizontal"@)]),
        ("resize"@, seq![("resize"@, "both"@)]),
    ]
}

/// The `resize` utilities.
pub fn resize() -> (r: Vec<(String, Vec<Decl>)>)
    ensures
        static_table_wf(r@),
        r@.len() == 4,
        static_view(r@) == resize_rules(),
{
    let mut r: Vec<(String, Vec<Decl>)> = Vec::new();
    proof {
        assert(static_view(r@) =~= Seq::<(Seq<char>, Seq<(Seq<char>, Seq<char>)>)>::empty());
    }
    rule(&mut r, "resize-none", decl(decls(), "resize", "none"));
    rule(&mut r, "resize-y", decl(decls(), "resize", "vertical"));
    rule(&mut r, "resize-x", decl(decls(), "resize", "horizontal"));
    rule(&mut r, "resize", decl(decls(), "resize", "both"));
    r
}

/// The `scroll-snap-align` utilities.
pub open spec fn scroll_snap_align_rules() -> Seq<(Seq<char>, Seq<(Seq<char>, Seq<char>)>)> {
    seq![
        ("snap-start"@, seq![("scroll-snap-align"@, "start"@)]),
        ("snap-end"@, seq![("scroll-snap-align"@, "end"@)]),
        ("snap-center"@, seq![("scroll-snap-align"@, "center"@)]),
        ("snap-align-none"@, seq![("scroll-snap-align"@, "none"@)]),
    ]
}

/// The `scroll-snap-align` utilities.
pub fn scroll_snap_align() -> (r: Vec<(String, Vec<Decl>)>)
    ensures
        static_table_wf(r@),
        r@.len() == 4,
        static_view(r@) == scroll_snap_align_rules(),
{
    let mut r: Vec<(String, Vec<Decl>)> = Vec::new();
    proof {
        assert(static_view(r@) =~= Seq::<(Seq<char>, Seq<(Seq<char>, Seq<char>)>)>::empty());
    }
    rule(&mut r, "snap-start", decl(decls(), "scroll-snap-align", "start"));
    rule(&mut r, "snap-end", decl(decls(), "scroll-snap-align", "end"));
    rule(&mut r, "snap-center", decl(decls(), "scroll-snap-align", "center"));
    rule(&mut r, "snap-align-none", decl(decls(), "scroll-snap-align", "none"));
    r
}

/// The `scroll-snap-stop` utilities.
pub open spec fn scroll_snap_stop_rules() -> Seq<(Seq<char>, Seq<(Seq<char>, Seq<char>)>)> {
    seq![
        ("snap-normal"@, seq![("scroll-snap-stop"@, "normal"@)]),
        ("snap-always"@, seq![("scroll-snap-stop"@, "always"@)]),
    ]
}

/// The `scroll-snap-stop` utilities.
pub fn scroll_snap_stop() -> (r: Vec<(String, Vec<Decl>)>)
    ensures
        static_table_wf(r@),
        r@.len() == 2,
        static_view(r@) == scroll_snap_stop_rules(),
{
    let mut r: Vec<(String, Vec<Decl>)> = Vec::new();
    proof {
        assert(static_view(r@) =~= Seq::<(Seq<char>, Seq<(Seq<char>, Seq<char>)>)>::empty());
    }
    rule(&mut r, "snap-normal", decl(decls(), "scroll-snap-stop", "normal"));
    rule(&mut r, "snap-always", decl(decls(), "scroll-snap-stop", "always"));
    r
}

/// The `list-style-position` utilities.
pub open spec fn list_style_position_rules() -> Seq<(Seq<char>, Seq<(Seq<char>, Seq<char>)>)> {
    seq![
        ("list-inside"@, seq![("list-style-position"@, "inside"@)]),
        ("list-outside"@, seq![("list-style-position"@, "outside"@)]),
    ]
}

/// The `list-style-position` utilities.
pub fn list_style_position() -> (r: Vec<(String, Vec<Decl>)>)
    ensures
        static_table_wf(r@),
        r@.len() == 2,
        static_view(r@) == list_style_position_rules(),
{
    let mut r: Vec<(String, Vec<Decl>)> = Vec::new();
    proof {
        assert(static_view(r@) =~= Seq::<(Seq<char>, Seq<(Seq<char>, Seq<char>)>)>::empty());
    }
    rule(&mut r, "list-inside", decl(decls(), "list-style-position", "inside"));
    rule(&mut r, "list-outside", decl(decls(), "list-style-position", "outside"));
    r
}

/// The `list-style-type` utilities.
pub open spec fn list_style_type_rules() -> Seq<(Seq<char>, Seq<(Seq<char>, Seq<char>)>)> {
    seq![
        ("list-none"@, seq![("list-style-type"@, "none"@)]),
        ("list-disc"@, seq![("list-style-type"@, "disc"@)]),
        ("list-decimal"@, seq![("list-style-type"@, "decimal"@)]),
    ]
}

/// The `list-style-type` utilities.
pub fn list_style_type() -> (r: Vec<(String, Vec<Decl>)>)
    ensures
        static_table_wf(r@),
        r@.len() == 3,
        static_view(r@) == list_style_type_rules(),
{
    let mut r: Vec<(String, Vec<Decl>)> = Vec::new();
    proof {
        assert(static_view(r@) =~= Seq::<(Seq<char>, Seq<(Seq<char>, Seq<char>)>)>::empty());
    }
    rule(&mut r, "list-none", decl(decls(), "list-style-type", "none"));
    rule(&mut r, "list-disc", decl(decls(), "list-style-type", "disc"));
    rule(&mut r, "list-decimal", decl(decls(), "list-style-type", "decimal"));
    r
}

/// The `list-image` utilities.
pub open spec fn list_image_rules() -> Seq<(Seq<char>, Seq<(Seq<char>, Seq<char>)>)> {
    seq![
        ("list-image-none"@, seq![("list-style-image"@, "none"@)]),
    ]
}

/// The `list-image` utilities.
pub fn list_image() -> (r: Vec<(String, Vec<Decl>)>)
    ensures
        static_table_wf(r@),
        r@.len() == 1,
        static_view(r@) == list_image_rules(),
{
    let mut r: Vec<(String, Vec<Decl>)> = Vec::new();
    proof {
        assert(static_view(r@) =~= Seq::<(Seq<char>, Seq<(Seq<char>, Seq<char>)>)>::empty());
    }
    rule(&mut r, "list-image-none", decl(decls(), "list-style-image", "none"));
    r
}

/// The `appearance` utilities.
pub open spec fn appearance_rules() -> Seq<(Seq<char>, Seq<(Seq<char>, Seq<char>)>)> {
    seq![
        ("appearance-none"@, seq![("appearance"@, "none"@)]),
        ("appearance-auto"@, seq![("appearance"@, "auto"@)]),
    ]
}

/// The `appearance` utilities.
pub fn appearance() -> (r: Vec<(String, Vec<Decl>)>)
    ensures
        static_table_wf(r@),
        r@.len() == 2,
        static_view(r@) == appearance_rules(),
{
    let mut r: Vec<(String, Vec<Decl>)> = Vec::new();
    proof {
        assert(static_view(r@) =~= Seq::<(Seq<char>, Seq<(Seq<char>, Seq<char>)>)>::empty());
    }
    rule(&mut r, "appearance-none", decl(decls(), "appearance", "none"));
    rule(&mut r, "appearance-auto", decl(decls(), "appearance", "auto"));
    r
}

/// The `columns` utilities.
pub open spec fn columns_rules() -> Seq<(Seq<char>, Seq<(Seq<char>, Seq<char>)>)> {
    seq![
        ("columns-auto"@, seq![("columns"@, "auto"@)]),
    ]
}

/// The `columns` utilities.
pub fn columns() -> (r: Vec<(String, Vec<Decl>)>)
    ensures
        static_table_wf(r@),
        r@.len() == 1,
        static_view(r@) == columns_rules(),
{
    let mut r: Vec<(String, Vec<Decl>)> = Vec::new();
    proof {
        assert(static_view(r@) =~= Seq::<(Seq<char>, Seq<(Seq<char>, Seq<char>)>)>::empty());
    }
    rule(&mut r, "columns-auto", decl(decls(), "columns", "auto"));
    r
}

/// The `break-before` utilities.
pub open spec fn break_before_rules() -> Seq<(Seq<char>, Seq<(Seq<char>, Seq<char>)>)> {
    seq![
        ("break-before-auto"@, seq![("break-before"@, "auto"@)]),
        ("break-before-avoid"@, seq![("break-before"@, "avoid"@)]),
        ("break-before-always"@, seq![("break-before"@, "always"@)]),
        ("break-before-all"@, seq![("break-before"@, "all"@)]),
        ("break-before-avoid-page"@, seq![("break-before"@, "avoid-page"@)]),
        ("break-before-page"@, seq![("break-before"@, "page"@)]),
        ("break-before-left"@, seq![("break-before"@, "left"@)]),
        ("break-before-right"@, seq![("break-before"@, "right"@)]),
        ("break-before-recto"@, seq![("break-before"@, "recto"@)]),
        ("break-before-verso"@, seq![("break-before"@, "verso"@)]),
        ("break-before-avoid-column"@, seq![("break-before"@, "avoid-column"@)]),
        ("break-before-column"@, seq![("break-before"@, "column"@)]),
        ("break-before-avoid-region"@, seq![("break-before"@, "avoid-region"@)]),
        ("break-before-region"@, seq![("break-before"@, "region"@)]),
    ]
}

/// The `break-before` utilities.
pub fn break_before() -> (r: Vec<(String, Vec<Decl>)>)
    ensures
        static_table_wf(r@),
        r@.len() == 14,
        static_view(r@) == break_before_rules(),
{
    let mut r: Vec<(String, Vec<Decl>)> = Vec::new();
    proof {
        assert(static_view(r@) =~= Seq::<(Seq<char>, Seq<(Seq<char>, Seq<char>)>)>::empty());
    }
    rule(&mut r, "break-before-auto", decl(decls(), "break-before", "auto"));
    rule(&mut r, "break-before-avoid", decl(decls(), "break-before", "avoid"));
    rule(&mut r, "break-before-always", decl(decls(), "break-before", "always"));
    rule(&mut r, "break-before-all", decl(decls(), "break-before", "all"));
    rule(&mut r, "break-before-avoid-page", decl(decls(), "break-before", "avoid-page"));
    rule(&mut r, "break-before-page", decl(decls(), "break-before", "page"));
    rule(&mut r, "break-before-left", decl(decls(), "break-before", "left"));
    rule(&mut r, "break-before-right", decl(decls(), "break-before", "right"));
    rule(&mut r, "break-before-recto", decl(decls(), "break-before", "recto"));
    rule(&mut r, "break-before-verso", decl(decls(), "break-before", "verso"));
    rule(&mut r, "break-before-avoid-column", decl(decls(), "break-before", "avoid-column"));
    rule(&mut r, "break-before-column", decl(decls(), "break-before", "column"));
    rule(&mut r, "break-before-avoid-region", decl(decls(), "break-before", "avoid-region"));
    rule(&mut r, "break-before-region", decl(decls(), "break-before", "region"));
    r
}

/// The `break-inside` utilities.
pub open spec fn break_inside_rules() -> Seq<(Seq<char>, Seq<(Seq<char>, Seq<char>)>)> {
    seq![
        ("break-inside-auto"@, seq![("break-inside"@, "auto"@)]),
        ("break-inside-avoid"@, seq![("break-inside"@, "avoid"@)]),
        ("break-inside-avoid-page"@, seq![("break-inside"@, "avoid-page"@)]),
        ("break-inside-avoid-column"@, seq![("break-inside"@, "avoid-column"@)]),
        ("break-inside-avoid-region"@, seq![("break-inside"@, "avoid-region"@)]),
    ]
}

/// The `break-inside` utilities.
pub fn break_inside() -> (r: Vec<(String, Vec<Decl>)>)
    ensures
        static_table_wf(r@),
        r@.len() == 5,
        static_view(r@) == break_inside_rules(),
{
    let mut r: Vec<(String, Vec<Decl>)> = Vec::new();
    proof {
        assert(static_view(r@) =~= Seq::<(Seq<char>, Seq<(Seq<char>, Seq<char>)>)>::empty());
    }
    rule(&mut r, "break-inside-auto", decl(decls(), "break-inside", "auto"));
    rule(&mut r, "break-inside-avoid", decl(decls(), "break-inside", "avoid"));
    rule(&mut r, "break-inside-avoid-page", decl(decls(), "break-inside", "avoid-page"));
    rule(&mut r, "break-inside-avoid-column", decl(decls(), "break-inside", "avoid-column"));
    rule(&mut r, "break-inside-avoid-region", decl(decls(), "break-inside", "avoid-region"));
    r
}

/// The `break-after` utilities.
pub open spec fn break_after_rules() -> Seq<(Seq<char>, Seq<(Seq<char>, Seq<char>)>)> {
    seq![
        ("break-after-auto"@, seq![("break-after"@, "auto"@)]),
        ("break-after-avoid"@, seq![("break-after"@, "avoid"@)]),
        ("break-after-all"@, seq![("break-after"@, "all"@)]),
        ("break-after-avoid-page"@, seq![("break-after"@, "avoid-page"@)]),
        ("break-after-page"@, seq![("break-after"@, "page"@)]),
        ("break-after-left"@, seq![("break-after"@, "left"@)]),
        ("break-after-right"@, seq![("break-after"@, "right"@)]),
        ("break-after-column"@, seq![("break-after"@, "column"@)]),
        ("break-after-always"@, seq![("break-after"@, "always"@)]),
        ("break-after-recto"@, seq![("break-after"@, "recto"@)]),
        ("break-after-verso"@, seq![("break-after"@, "verso"@)]),
        ("break-after-avoid-column"@, seq![("break-after"@, "avoid-column"@)]),
        ("break-after-avoid-region"@, seq![("break-after"@, "avoid-region"@)]),
        ("break-after-region"@, seq![("break-after"@, "region"@)]),
    ]
}

/// The `break-after` utilities.
pub fn break_after() -> (r: Vec<(String, Vec<Decl>)>)
    ensures
        static_table_wf(r@),
        r@.len() == 14,
        static_view(r@) == break_after_rules(),
{
    let mut r: Vec<(String, Vec<Decl>)> = Vec::new();
    proof {
        assert(static_view(r@) =~= Seq::<(Seq<char>, Seq<(Seq<char>, Seq<char>)>)>::empty());
    }
    rule(&mut r, "break-after-auto", decl(decls(), "break-after", "auto"));
    rule(&mut r, "break-after-avoid", decl(decls(), "break-after", "avoid"));
    rule(&mut r, "break-after-all", decl(decls(), "break-after", "all"));
    rule(&mut r, "break-after-avoid-page", decl(decls(), "break-after", "avoid-page"));
    rule(&mut r, "break-after-page", decl(decls(), "break-after", "page"));
    rule(&mut r, "break-after-left", decl(decls(), "break-after", "left"));
    rule(&mut r, "break-after-right", decl(decls(), "break-after", "right"));
    rule(&mut r, "break-after-column", decl(decls(), "break-after", "column"));
    rule(&mut r, "break-after-always", decl(decls(), "break-after", "always"));
    rule(&mut r, "break-after-recto", decl(decls(), "break-after", "recto"));
    rule(&mut r, "break-after-verso", decl(decls(), "break-after", "verso"));
    rule(&mut r, "break-after-avoid-column", decl(decls(), "break-after", "avoid-column"));
    rule(&mut r, "break-after-avoid-region", decl(decls(), "break-after", "avoid-region"));
    rule(&mut r, "break-after-region", decl(decls(), "break-after", "region"));
    r
}

/// The `grid-auto-flow` utilities.
pub open spec fn grid_auto_flow_rules() -> Seq<(Seq<char>, Seq<(Seq<char>, Seq<char>)>)> {
    seq![
        ("grid-flow-row"@, seq![("grid-auto-flow"@, "row"@)]),
        ("grid-flow-col"@, seq![("grid-auto-flow"@, "column"@)]),
        ("grid-flow-dense"@, seq![("grid-auto-flow"@, "dense"@)]),
        ("grid-flow-row-dense"@, seq![("grid-auto-flow"@, "row dense"@)]),
        ("grid-flow-col-dense"@, seq![("grid-auto-flow"@, "column dense"@)]),
    ]
}

/// The `grid-auto-flow` utilities.
pub fn grid_auto_flow() -> (r: Vec<(String, Vec<Decl>)>)
    ensures
        static_table_wf(r@),
        r@.len() == 5,
        static_view(r@) == grid_auto_flow_rules(),
{
    let mut r: Vec<(String, Vec<Decl>)> = Vec::new();
    proof {
        assert(static_view(r@) =~= Seq::<(Seq<char>, Seq<(Seq<char>, Seq<char>)>)>::empty());
    }
    rule(&mut r, "grid-flow-row", decl(decls(), "grid-auto-flow", "row"));
    rule(&mut r, "grid-flow-col", decl(decls(), "grid-auto-flow", "column"));
    rule(&mut r, "grid-flow-dense", decl(decls(), "grid-auto-flow", "dense"));
    rule(&mut r, "grid-flow-row-dense", decl(decls(), "grid-auto-flow", "row dense"));
    rule(&mut r, "grid-flow-col-dense", decl(decls(), "grid-auto-flow", "column dense"));
    r
}

/// The `flex` utilities.
pub open spec fn flex_rules() -> Seq<(Seq<char>, Seq<(Seq<char>, Seq<char>)>)> {
    seq![
        ("flex-row"@, seq![("flex-direction"@, "row"@)]),
        ("flex-row-reverse"@, seq![("flex-direction"@, "row-reverse"@)]),
        ("flex-col"@, seq![("flex-direction"@, "column"@)]),
        ("flex-col-reverse"@, seq![("flex-direction"@, "column-reverse"@)]),
        ("flex-wrap"@, seq![("flex-wrap"@, "wrap"@)]),
        ("flex-wrap-reverse"@, seq![("flex-wrap"@, "wrap-reverse"@)]),
        ("flex-nowrap"@, seq![("flex-wrap"@, "nowrap"@)]),
    ]
}

/// The `flex` utilities.
pub fn flex() -> (r: Vec<(String, Vec<Decl>)>)
    ensures
        static_table_wf(r@),
        r@.len() == 7,
        static_view(r@) == flex_rules(),
{
    let mut r: Vec<(String, Vec<Decl>)> = Vec::new();
    proof {
        assert(static_view(r@) =~= Seq::<(Seq<char>, Seq<(Seq<char>, Seq<char>)>)>::empty());
    }
    rule(&mut r, "flex-row", decl(decls(), "flex-direction", "row"));
    rule(&mut r, "flex-row-reverse", decl(decls(), "flex-direction", "row-reverse"));
    rule(&mut r, "flex-col", decl(decls(), "flex-direction", "column"));
    rule(&mut r, "flex-col-reverse", decl(decls(), "flex-direction", "column-reverse"));
    rule(&mut r, "flex-wrap", decl(decls(), "flex-wrap", "wrap"));
    rule(&mut r, "flex-wrap-reverse", decl(decls(), "flex-wrap", "wrap-reverse"));
    rule(&mut r, "flex-nowrap", decl(decls(), "flex-wrap", "nowrap"));
    r
}

/// The `place-content` utilities.
pub open spec fn place_content_rules() -> Seq<(Seq<char>, Seq<(Seq<char>, Seq<char>)>)> {
    seq![
        ("place-content-center"@, seq![("place-content"@, "center"@)]),
        ("place-content-start"@, seq![("place-content"@, "start"@)]),
        ("place-content-end"@, seq![("place-content"@, "end"@)]),
        ("place-content-space-between"@, seq![("place-content"@, "space-between"@)]),
        ("place-content-space-around"@, seq![("place-content"@, "space-around"@)]),
        ("place-content-space-evenly"@, seq![("place-content"@, "space-evenly"@)]),
        ("place-content-baseline"@, seq![("place-content"@, "baseline"@)]),
        ("place-content-stretch"@, seq![("place-content"@, "stretch"@)]),
    ]
}

/// The `place-content` utilities.
pub fn place_content() -> (r: Vec<(String, Vec<Decl>)>)
    ensures
        static_table_wf(r@),
        r@.len() == 8,
        static_view(r@) == place_content_rules(),
{
    let mut r: Vec<(String, Vec<Decl>)> = Vec::new();
    proof {
        assert(static_view(r@) =~= Seq::<(Seq<char>, Seq<(Seq<char>, Seq<char>)>)>::empty());
    }
    rule(&mut r, "place-content-center", decl(decls(), "place-content", "center"));
    rule(&mut r, "place-content-start", decl(decls(), "place-content", "start"));
    rule(&mut r, "place-content-end", decl(decls(), "place-content", "end"));
    rule(&mut r, "place-content-space-between", decl(decls(), "place-content", "space-between"));
    rule(&mut r, "place-content-space-around", decl(decls(), "place-content", "space-around"));
    rule(&mut r, "place-content-space-evenly", decl(decls(), "place-content", "space-evenly"));
    rule(&mut r, "place-content-baseline", decl(decls(), "place-content", "baseline"));
    rule(&mut r, "place-content-stretch", decl(decls(), "place-content", "stretch"));
    r
}

/// The `place-items` utilities.
pub open spec fn place_items_rules() -> Seq<(Seq<char>, Seq<(Seq<char>, Seq<char>)>)> {
    seq![
        ("place-items-center"@, seq![("place-items"@, "center"@)]),
        ("place-items-start"@, seq![("place-items"@, "start"@)]),
        ("place-items-end"@, seq![("place-items"@, "end"@)]),
        ("place-items-baseline"@, seq![("place-items"@, "baseline"@)]),
        ("place-items-stretch"@, seq![("place-items"@, "stretch"@)]),
    ]
}

/// The `place-items` utilities.
pub fn place_items() -> (r: Vec<(String, Vec<Decl>)>)
    ensures
        static_table_wf(r@),
        r@.len() == 5,
        static_view(r@) == place_items_rules(),
{
    let mut r: Vec<(String, Vec<Decl>)> = Vec::new();
    proof {
        assert(static_view(r@) =~= Seq::<(Seq<char>, Seq<(Seq<char>, Seq<char>)>)>::empty());
    }
    rule(&mut r, "place-items-center", decl(decls(), "place-items", "center"));
    rule(&mut r, "place-items-start", decl(decls(), "place-items", "start"));
    rule(&mut r, "place-items-end", decl(decls(), "place-items", "end"));
    rule(&mut r, "place-items-baseline", decl(decls(), "place-items", "baseline"));
    rule(&mut r, "place-items-stretch", decl(decls(), "place-items", "stretch"));
    r
}

/// The `align-content` utilities.
pub open spec fn align_content_rules() -> Seq<(Seq<char>, Seq<(Seq<char>, Seq<char>)>)> {
    seq![
        ("content-normal"@, seq![("align-content"@, "normal"@)]),
        ("content-center"@, seq![("align-content"@, "center"@)]),
        ("content-start"@, seq![("align-content"@, "start"@)]),
        ("content-end"@, seq![("align-content"@, "end"@)]),
        ("content-between"@, seq![("align-content"@, "space-between"@)]),
        ("content-around"@, seq![("align-content"@, "space-around"@)]),
        ("content-evenly"@, seq![("align-content"@, "space-evenly"@)]),
        ("content-baseline"@, seq![("align-content"@, "baseline"@)]),
        ("content-stretch"@, seq![("align-content"@, "stretch"@)]),
    ]
}

/// The `align-content` utilities.
pub fn align_content() -> (r: Vec<(String, Vec<Decl>)>)
    ensures
        static_table_wf(r@),
        r@.len() == 9,
        static_view(r@) == align_content_rules(),
{
    let mut r: Vec<(String, Vec<Decl>)> = Vec::new();
    proof {
        assert(static_view(r@) =~= Seq::<(Seq<char>, Seq<(Seq<char>, Seq<char>)>)>::empty());
    }
    rule(&mut r, "content-normal", decl(decls(), "align-content", "normal"));
    rule(&mut r, "content-center", decl(decls(), "align-content", "center"));
    rule(&mut r, "content-start", decl(decls(), "align-content", "start"));
    rule(&mut r, "content-end", decl(decls(), "align-content", "end"));
    rule(&mut r, "content-between", decl(decls(), "align-content", "space-between"));
    rule(&mut r, "content-around", decl(decls(), "align-content", "space-around"));
    rule(&mut r, "content-evenly", decl(decls(), "align-content", "space-evenly"));
    rule(&mut r, "content-baseline", decl(decls(), "align-content", "baseline"));
    rule(&mut r, "content-stretch", decl(decls(), "align-content", "stretch"));
    r
}

/// The `align-items` utilities.
pub open spec fn align_items_rules() -> Seq<(Seq<char>, Seq<(Seq<char>, Seq<char>)>)> {
    seq![
        ("items-center"@, seq![("align-items"@, "center"@)]),
        ("items-start"@, seq![("align-items"@, "start"@)]),
        ("items-end"@, seq![("align-items"@, "end"@)]),
        ("items-baseline"@, seq![("align-items"@, "baseline"@)]),
        ("items-stretch"@, seq![("align-items"@, "stretch"@)]),
    ]
}

/// The `align-items` utilities.
pub fn align_items() -> (r: Vec<(String, Vec<Decl>)>)
    ensures
        static_table_wf(r@),
        r@.len() == 5,
        static_view(r@) == align_items_rules(),
{
    let mut r: Vec<(String, Vec<Decl>)> = Vec::new();
    proof {
        assert(static_view(r@) =~= Seq::<(Seq<char>, Seq<(Seq<char>, Seq<char>)>)>::empty());
    }
    rule(&mut r, "items-center", decl(decls(), "align-items", "center"));
    rule(&mut r, "items-start", decl(decls(), "align-items", "start"));
    rule(&mut r, "items-end", decl(decls(), "align-items", "end"));
    rule(&mut r, "items-baseline", decl(decls(), "align-items", "baseline"));
    rule(&mut r, "items-stretch", decl(decls(), "align-items", "stretch"));
    r
}

/// The `justify-content` utilities.
pub open spec fn justify_content_rules() -> Seq<(Seq<char>, Seq<(Seq<char>, Seq<char>)>)> {
    seq![
        ("justify-normal"@, seq![("justify-content"@, "normal"@)]),
        ("justify-center"@, seq![("justify-content"@, "center"@)]),
        ("justify-start"@, seq![("justify-content"@, "start"@)]),
        ("justify-end"@, seq![("justify-content"@, "end"@)]),
        ("justify-between"@, seq![("justify-content"@, "space-between"@)]),
        ("justify-around"@, seq![("justify-content"@, "space-around"@)]),
        ("justify-evenly"@, seq![("justify-content"@, "space-evenly"@)]),
        ("justify-baseline"@, seq![("justify-content"@, "baseline"@)]),
        ("justify-stretch"@, seq![("justify-content"@, "stretch"@)]),
    ]
}

/// The `justify-content` utilities.
pub fn justify_content() -> (r: Vec<(String, Vec<Decl>)>)
    ensures
        static_table_wf(r@),
        r@.len() == 9,
        static_view(r@) == justify_content_rules(),
{
    let mut r: Vec<(String, Vec<Decl>)> = Vec::new();
    proof {
        assert(static_view(r@) =~= Seq::<(Seq<char>, Seq<(Seq<char>, Seq<char>)>)>::empty());
    }
    rule(&mut r, "justify-normal", decl(decls(), "justify-content", "normal"));
    rule(&mut r, "justify-center", decl(decls(), "justify-content", "center"));
    rule(&mut r, "justify-start", decl(decls(), "justify-content", "start"));
    rule(&mut r, "justify-end", decl(decls(), "justify-content", "end"));
    rule(&mut r, "justify-between", decl(decls(), "justify-content", "space-between"));
    rule(&mut r, "justify-around", decl(decls(), "justify-content", "space-around"));
    rule(&mut r, "justify-evenly", decl(decls(), "justify-content", "space-evenly"));
    rule(&mut r, "justify-baseline", decl(decls(), "justify-content", "baseline"));
    rule(&mut r, "justify-stretch", decl(decls(), "justify-content", "stretch"));
    r
}

/// The `justify-items` utilities.
pub open spec fn justify_items_rules() -> Seq<(Seq<char>, Seq<(Seq<char>, Seq<char>)>)> {
    seq![
        ("items-normal"@, seq![("justify-items"@, "normal"@)]),
        ("items-center"@, seq![("justify-items"@, "center"@)]),
        ("items-start"@, seq![("justify-items"@, "start"@)]),
        ("items-end"@, seq![("justify-items"@, "end"@)]),
        ("items-stretch"@, seq![("justify-items"@, "stretch"@)]),
    ]
}

/// The `justify-items` utilities.
pub fn justify_items() -> (r: Vec<(String, Vec<Decl>)>)
    ensures
        static_table_wf(r@),
        r@.len() == 5,
        static_view(r@) == justify_items_rules(),
{
    let mut r: Vec<(String, Vec<Decl>)> = Vec::new();
    proof {
        assert(static_view(r@) =~= Seq::<(Seq<char>, Seq<(Seq<char>, Seq<char>)>)>::empty());
    }
    rule(&mut r, "items-normal", decl(decls(), "justify-items", "normal"));
    rule(&mut r, "items-center", decl(decls(), "justify-items", "center"));
    rule(&mut r, "items-start", decl(decls(), "justify-items", "start"));
    rule(&mut r, "items-end", decl(decls(), "justify-items", "end"));
    rule(&mut r, "items-stretch", decl(decls(), "justify-items", "stretch"));
    r
}

/// The `object-fit` utilities.
pub open spec fn object_fit_rules() -> Seq<(Seq<char>, Seq<(Seq<char>, Seq<char>)>)> {
    seq![
        ("object-contain"@, seq![("object-fit"@, "contain"@)]),
        ("object-cover"@, seq![("object-fit"@, "cover"@)]),
        ("object-fill"@, seq![("object-fit"@, "fill"@)]),
        ("object-none"@, seq![("object-fit"@, "none"@)]),
        ("object-scale-down"@, seq![("object-fit"@, "scale-down"@)]),
    ]
}

/// The `object-fit` utilities.
pub fn object_fit() -> (r: Vec<(String, Vec<Decl>)>)
    ensures
        static_table_wf(r@),
        r@.len() == 5,
        static_view(r@) == object_fit_rules(),
{
    let mut r: Vec<(String, Vec<Decl>)> = Vec::new();
    proof {
        assert(static_view(r@) =~= Seq::<(Seq<char>, Seq<(Seq<char>, Seq<char>)>)>::empty());
    }
    rule(&mut r, "object-contain", decl(decls(), "object-fit", "contain"));
    rule(&mut r, "object-cover", decl(decls(), "object-fit", "cover"));
    rule(&mut r, "object-fill", decl(decls(), "object-fit", "fill"));
    rule(&mut r, "object-none", decl(decls(), "object-fit", "none"));
    rule(&mut r, "object-scale-down", decl(decls(), "object-fit", "scale-down"));
    r
}

/// The `object-position` utilities.
pub open spec fn object_position_rules() -> Seq<(Seq<char>, Seq<(Seq<char>, Seq<char>)>)> {
    seq![
        ("object-bottom"@, seq![("object-position"@, "bottom"@)]),
        ("object-center"@, seq![("object-position"@, "center"@)]),
        ("object-left"@, seq![("object-position"@, "left"@)]),
        ("object-left-bottom"@, seq![("object-position"@, "left bottom"@)]),
        ("object-left-top"@, seq![("object-position"@, "left top"@)]),
        ("object-right"@, seq![("object-position"@, "right"@)]),
        ("object-right-bottom"@, seq![("object-position"@, "right bottom"@)]),
        ("object-right-top"@, seq![("object-position"@, "right top"@)]),
        ("object-top"@, seq![("object-position"@, "top"@)]),
    ]
}

/// The `object-position` utilities.
pub fn object_position() -> (r: Vec<(String, Vec<Decl>)>)
    ensures
        static_table_wf(r@),
        r@.len() == 9,
        static_view(r@) == object_position_rules(),
{
    let mut r: Vec<(String, Vec<Decl>)> = Vec::new();
    proof {
        assert(static_view(r@) =~= Seq::<(Seq<char>, Seq<(Seq<char>, Seq<char>)>)>::empty());
    }
    rule(&mut r, "object-bottom", decl(decls(), "object-position", "bottom"));
    rule(&mut r, "object-center", decl(decls(), "object-position", "center"));
    rule(&mut r, "object-left", decl(decls(), "object-position", "left"));
    rule(&mut r, "object-left-bottom", decl(decls(), "object-position", "left bottom"));
    rule(&mut r, "object-left-top", decl(decls(), "object-position", "left top"));
    rule(&mut r, "object-right", decl(decls(), "object-position", "right"));
    rule(&mut r, "object-right-bottom", decl(decls(), "object-position", "right bottom"));
    rule(&mut r, "object-right-top", decl(decls(), "object-position", "right top"));
    rule(&mut r, "object-top", decl(decls(), "object-position", "top"));
    r
}

/// The `text-align` utilities.
pub open spec fn text_align_rules() -> Seq<(Seq<char>, Seq<(Seq<char>, Seq<char>)>)> {
    seq![
        ("text-left"@, seq![("text-align"@, "left"@)]),
        ("text-center"@, seq![("text-align"@, "center"@)]),
        ("text-right"@, seq![("text-align"@, "right"@)]),
        ("text-justify"@, seq![("text-align"@, "justify"@)]),
        ("text-start"@, seq![("text-align"@, "start"@)]),
        ("text-end"@, seq![("text-align"@, "end"@)]),
    ]
}

/// The `text-align` utilities.
pub fn text_align() -> (r: Vec<(String, Vec<Decl>)>)
    ensures
        static_table_wf(r@),
        r@.len() == 6,
        static_view(r@) == text_align_rules(),
{
    let mut r: Vec<(String, Vec<Decl>)> = Vec::new();
    proof {
        assert(static_view(r@) =~= Seq::<(Seq<char>, Seq<(Seq<char>, Seq<char>)>)>::empty());
    }
    rule(&mut r, "text-left", decl(decls(), "text-align", "left"));
    rule(&mut r, "text-center", decl(decls(), "text-align", "center"));
    rule(&mut r, "text-right", decl(decls(), "text-align", "right"));
    rule(&mut r, "text-justify", decl(decls(), "text-align", "justify"));
    rule(&mut r, "text-start", decl(decls(), "text-align", "start"));
    rule(&mut r, "text-end", decl(decls(), "text-align", "end"));
    r
}

/// The `vertical-align` utilities.
pub open spec fn vertical_align_rules() -> Seq<(Seq<char>, Seq<(Seq<char>, Seq<char>)>)> {
    seq![
        ("align-baseline"@, seq![("vertical-align"@, "baseline"@)]),
        ("align-top"@, seq![("vertical-align"@, "top"@)]),
        ("align-middle"@, seq![("vertical-align"@, "middle"@)]),
        ("align-bottom"@, seq![("vertical-align"@, "bottom"@)]),
        ("align-text-top"@, seq![("vertical-align"@, "text-top"@)]),
        ("align-text-bottom"@, seq![("vertical-align"@, "text-bottom"@)]),
        ("align-sub"@, seq![("vertical-align"@, "sub"@)]),
        ("align-super"@, seq![("vertical-align"@, "super"@)]),
    ]
}

/// The `vertical-align` utilities.
pub fn vertical_align() -> (r: Vec<(String, Vec<Decl>)>)
    ensures
        static_table_wf(r@),
        r@.len() == 8,
        static_view(r@) == vertical_align_rules(),
{
    let mut r: Vec<(String, Vec<Decl>)> = Vec::new();
    proof {
        assert(static_view(r@) =~= Seq::<(Seq<char>, Seq<(Seq<char>, Seq<char>)>)>::empty());
    }
    rule(&mut r, "align-baseline", decl(decls(), "vertical-align", "baseline"));
    rule(&mut r, "align-top", decl(decls(), "vertical-align", "top"));
    rule(&mut r, "align-middle", decl(decls(), "vertical-align", "middle"));
    rule(&mut r, "align-bottom", decl(decls(), "vertical-align", "bottom"));
    rule(&mut r, "align-text-top", decl(decls(), "vertical-align", "text-top"));
    rule(&mut r, "align-text-bottom", decl(decls(), "vertical-align", "text-bottom"));
    rule(&mut r, "align-sub", decl(decls(), "vertical-align", "sub"));
    rule(&mut r, "align-super", decl(decls(), "vertical-align", "super"));
    r
}

/// The `text-transform` utilities.
pub open spec fn text_transform_rules() -> Seq<(Seq<char>, Seq<(Seq<char>, Seq<char>)>)> {
    seq![
        ("uppercase"@, seq![("text-transform"@, "uppercase"@)]),
        ("lowercase"@, seq![("text-transform"@, "lowercase"@)]),
        ("capitalize"@, seq![("text-transform"@, "capitalize"@)]),
        ("normal-case"@, seq![("text-transform"@, "none"@)]),
    ]
}

/// The `text-transform` utilities.
pub fn text_transform() -> (r: Vec<(String, Vec<Decl>)>)
    ensures
        static_table_wf(r@),
        r@.len() == 4,
        static_view(r@) == text_transform_rules(),
{
    let mut r: Vec<(String, Vec<Decl>)> = Vec::new();
    proof {
        assert(static_view(r@) =~= Seq::<(Seq<char>, Seq<(Seq<char>, Seq<char>)>)>::empty());
    }
    rule(&mut r, "uppercase", decl(decls(), "text-transform", "uppercase"));
    rule(&mut r, "lowercase", decl(decls(), "text-transform", "lowercase"));
    rule(&mut r, "capitalize", decl(decls(), "text-transform", "capitalize"));
    rule(&mut r, "normal-case", decl(decls(), "text-transform", "none"));
    r
}

/// The `text-italic` utilities.
pub open spec fn text_italic_rules() -> Seq<(Seq<char>, Seq<(Seq<char>, Seq<char>)>)> {
    seq![
        ("italic"@, seq![("font-style"@, "italic"@)]),
        ("not-italic"@, seq![("font-style"@, "normal"@)]),
    ]
}

/// The `text-italic` utilities.
pub fn text_italic() -> (r: Vec<(String, Vec<Decl>)>)
    ensures
        static_table_wf(r@),
        r@.len() == 2,
        static_view(r@) == text_italic_rules(),
{
    let mut r: Vec<(String, Vec<Decl>)> = Vec::new();
    proof {
        assert(static_view(r@) =~= Seq::<(Seq<char>, Seq<(Seq<char>, Seq<char>)>)>::empty());
    }
    rule(&mut r, "italic", decl(decls(), "font-style", "italic"));
    rule(&mut r, "not-italic", decl(decls(), "font-style", "normal"));
    r
}

/// The `font-stretch` utilities.
pub open spec fn font_stretch_rules() -> Seq<(Seq<char>, Seq<(Seq<char>, Seq<char>)>)> {
    seq![
        ("font-stretch-normal"@, seq![("font-stretch"@, "normal"@)]),
        ("font-stretch-ultra-condensed"@, seq![("font-stretch"@, "ultra-condensed"@)]),
        ("font-stretch-extra-condensed"@, seq![("font-stretch"@, "extra-condensed"@)]),
        ("font-stretch-condensed"@, seq![("font-stretch"@, "condensed"@)]),
        ("font-stretch-semi-condensed"@, seq![("font-stretch"@, "semi-condensed"@)]),
        ("font-stretch-semi-expanded"@, seq![("font-stretch"@, "semi-expanded"@)]),
        ("font-stretch-expanded"@, seq![("font-stretch"@, "expanded"@)]),
        ("font-stretch-extra-expanded"@, seq![("font-stretch"@, "extra-expanded"@)]),
        ("font-stretch-ultra-expanded"@, seq![("font-stretch"@, "ultra-expanded"@)]),
    ]
}

/// The `font-stretch` utilities.
pub fn font_stretch() -> (r: Vec<(String, Vec<Decl>)>)
    ensures
        static_table_wf(r@),
        r@.len() == 9,
        static_view(r@) == font_stretch_rules(),
{
    let mut r: Vec<(String, Vec<Decl>)> = Vec::new();
    proof {
        assert(static_view(r@) =~= Seq::<(Seq<char>, Seq<(Seq<char>, Seq<char>)>)>::empty());
    }
    rule(&mut r, "font-stretch-normal", decl(decls(), "font-stretch", "normal"));
    rule(&mut r, "font-stretch-ultra-condensed", decl(decls(), "font-stretch", "ultra-condensed"));
    rule(&mut r, "font-stretch-extra-condensed", decl(decls(), "font-stretch", "extra-condensed"));
    rule(&mut r, "font-stretch-condensed", decl(decls(), "font-stretch", "condensed"));
    rule(&mut r, "font-stretch-semi-condensed", decl(decls(), "font-stretch", "semi-condensed"));
    rule(&mut r, "font-stretch-semi-expanded", decl(decls(), "font-stretch", "semi-expanded"));
    rule(&mut r, "font-stretch-expanded", decl(decls(), "font-stretch", "expanded"));
    rule(&mut r, "font-stretch-extra-expanded", decl(decls(), "font-stretch", "extra-expanded"));
    rule(&mut r, "font-stretch-ultra-expanded", decl(decls(), "font-stretch", "ultra-expanded"));
    r
}

/// The `text-decoration` utilities.
pub open spec fn text_decoration_rules() -> Seq<(Seq<char>, Seq<(Seq<char>, Seq<char>)>)> {
    seq![
        ("underline"@, seq![("text-decoration"@, "underline"@)]),
        ("overline"@, seq![("text-decoration"@, "overline"@)]),
        ("line-through"@, seq![("text-decoration"@, "line-through"@)]),
        ("no-underline"@, seq![("text-decoration"@, "none"@)]),
    ]
}

/// The `text-decoration` utilities.
pub fn text_decoration() -> (r: Vec<(String, Vec<Decl>)>)
    ensures
        static_table_wf(r@),
        r@.len() == 4,
        static_view(r@) == text_decoration_rules(),
{
    let mut r: Vec<(String, Vec<Decl>)> = Vec::new();
    proof {
        assert(static_view(r@) =~= Seq::<(Seq<char>, Seq<(Seq<char>, Seq<char>)>)>::empty());
    }
    rule(&mut r, "underline", decl(decls(), "text-decoration", "underline"));
    rule(&mut r, "overline", decl(decls(), "text-decoration", "overline"));
    rule(&mut r, "line-through", decl(decls(), "text-decoration", "line-through"));
    rule(&mut r, "no-underline", decl(decls(), "text-decoration", "none"));
    r
}

/// The `text-decoration-style` utilities.
pub open spec fn text_decoration_style_rules() -> Seq<(Seq<char>, Seq<(Seq<char>, Seq<char>)>)> {
    seq![
        ("decoration-solid"@, seq![("text-decoration-style"@, "solid"@)]),
        ("decoration-double"@, seq![("text-decoration-style"@, "double"@)]),
        ("decoration-dotted"@, seq![("text-decoration-style"@, "dotted"@)]),
        ("decoration-dashed"@, seq![("text-decoration-style"@, "dashed"@)]),
        ("decoration-wavy"@, seq![("text-decoration-style"@, "wavy"@)]),
    ]
}

/// The `text-decoration-style` utilities.
pub fn text_decoration_style() -> (r: Vec<(String, Vec<Decl>)>)
    ensures
        static_table_wf(r@),
        r@.len() == 5,
        static_view(r@) == text_decoration_style_rules(),
{
    let mut r: Vec<(String, Vec<Decl>)> = Vec::new();
    proof {
        assert(static_view(r@) =~= Seq::<(Seq<char>, Seq<(Seq<char>, Seq<char>)>)>::empty());
    }
    rule(&mut r, "decoration-solid", decl(decls(), "text-decoration-style", "solid"));
    rule(&mut r, "decoration-double", decl(decls(), "text-decoration-style", "double"));
    rule(&mut r, "decoration-dotted", decl(decls(), "text-decoration-style", "dotted"));
    rule(&mut r, "decoration-dashed", decl(decls(), "text-decoration-style", "dashed"));
    rule(&mut r, "decoration-wavy", decl(decls(), "text-decoration-style", "wavy"));
    r
}

/// The `text-decoration-thickness` utilities.
pub open spec fn text_decoration_thickness_rules() -> Seq<(Seq<char>, Seq<(Seq<char>, Seq<char>)>)> {
    seq![
        ("decoration-auto"@, seq![("text-decoration-thickness"@, "auto"@)]),
        ("decoration-from-font"@, seq![("text-decoration-thickness"@, "from-font"@)]),
    ]
}

/// The `text-decoration-thickness` utilities.
pub fn text_decoration_thickness() -> (r: Vec<(String, Vec<Decl>)>)
    ensures
        static_table_wf(r@),
        r@.len() == 2,
        static_view(r@) == text_decoration_thickness_rules(),
{
    let mut r: Vec<(String, Vec<Decl>)> = Vec::new();
    proof {
        assert(static_view(r@) =~= Seq::<(Seq<char>, Seq<(Seq<char>, Seq<char>)>)>::empty());
    }
    rule(&mut r, "decoration-auto", decl(decls(), "text-decoration-thickness", "auto"));
    rule(&mut r, "decoration-from-font", decl(decls(), "text-decoration-thickness", "from-font"));
    r
}

/// The `animate` utilities.
pub open spec fn animate_rules() -> Seq<(Seq<char>, Seq<(Seq<char>, Seq<char>)>)> {
    seq![
        ("animate-none"@, seq![("animation"@, "none"@)]),
    ]
}

/// The `animate` utilities.
pub fn animate() -> (r: Vec<(String, Vec<Decl>)>)
    ensures
        static_table_wf(r@),
        r@.len() == 1,
        static_view(r@) == animate_rules(),
{
    let mut r: Vec<(String, Vec<Decl>)> = Vec::new();
    proof {
        assert(static_view(r@) =~= Seq::<(Seq<char>, Seq<(Seq<char>, Seq<char>)>)>::empty());
    }
    rule(&mut r, "animate-none", decl(decls(), "animation", "none"));
    r
}

/// The `filter` utilities.
pub open spec fn filter_rules() -> Seq<(Seq<char>, Seq<(Seq<char>, Seq<char>)>)> {
    seq![
        ("filter"@, seq![("filter"@, "var(--tw-blur,) var(--tw-brightness,) var(--tw-contrast,) var(--tw-grayscale,) var(--tw-hue-rotate,) var(--tw-invert,) var(--tw-saturate,) var(--tw-sepia,) var(--tw-drop-shadow,)"@)]),
        ("filter-none"@, seq![("filter"@, "none"@)]),
    ]
}

/// The `filter` utilities.
pub fn filter() -> (r: Vec<(String, Vec<Decl>)>)
    ensures
        static_table_wf(r@),
        r@.len() == 2,
        static_view(r@) == filter_rules(),
{
    let mut r: Vec<(String, Vec<Decl>)> = Vec::new();
    proof {
        assert(static_view(r@) =~= Seq::<(Seq<char>, Seq<(Seq<char>, Seq<char>)>)>::empty());
    }
    rule(&mut r, "filter", decl(decls(), "filter", "var(--tw-blur,) var(--tw-brightness,) var(--tw-contrast,) var(--tw-grayscale,) var(--tw-hue-rotate,) var(--tw-invert,) var(--tw-saturate,) var(--tw-sepia,) var(--tw-drop-shadow,)"));
    rule(&mut r, "filter-none", decl(decls(), "filter", "none"));
    r
}

/// The `backdrop-filter` utilities.
pub open spec fn backdrop_filter_rules() -> Seq<(Seq<char>, Seq<(Seq<char>, Seq<char>)>)> {
    seq![
        ("backdrop-filter"@, seq![("-webkit-backdrop-filter"@, "var(--tw-backdrop-blur,) var(--tw-backdrop-brightness,) var(--tw-backdrop-contrast,) var(--tw-backdrop-grayscale,) var(--tw-backdrop-hue-rotate,) var(--tw-backdrop-invert,) var(--tw-backdrop-opacity,) var(--tw-backdrop-saturate,) var(--tw-backdrop-sepia,)"@), ("backdrop-filter"@, "var(--tw-backdrop-blur,) var(--tw-backdrop-brightness,) var(--tw-backdrop-contrast,) var(--tw-backdrop-grayscale,) var(--tw-backdrop-hue-rotate,) var(--tw-backdrop-invert,) var(--tw-backdrop-opacity,) var(--tw-backdrop-saturate,) var(--tw-backdrop-sepia,)"@)]),
        ("backdrop-filter-none"@, seq![("-webkit-backdrop-filter"@, "none"@), ("backdrop-filter"@, "none"@)]),
    ]
}

/// The `backdrop-filter` utilities.
pub fn backdrop_filter() -> (r: Vec<(String, Vec<Decl>)>)
    ensures
        static_table_wf(r@),
        r@.len() == 2,
        static_view(r@) == backdrop_filter_rules(),
{
    let mut r: Vec<(String, Vec<Decl>)> = Vec::new();
    proof {
        assert(static_view(r@) =~= Seq::<(Seq<char>, Seq<(Seq<char>, Seq<char>)>)>::empty());
    }
    let d = decl(decl(decls(), "-webkit-backdrop-filter", "var(--tw-backdrop-blur,) var(--tw-backdrop-brightness,) var(--tw-backdrop-contrast,) var(--tw-backdrop-grayscale,) var(--tw-backdrop-hue-rotate,) var(--tw-backdrop-invert,) var(--tw-backdrop-opacity,) var(--tw-backdrop-saturate,) var(--tw-backdrop-sepia,)"), "backdrop-filter", "var(--tw-backdrop-blur,) var(--tw-backdrop-brightness,) var(--tw-backdrop-contrast,) var(--tw-backdrop-grayscale,) var(--tw-backdrop-hue-rotate,) var(--tw-backdrop-invert,) var(--tw-backdrop-opacity,) var(--tw-backdrop-saturate,) var(--tw-backdrop-sepia,)");
    assert(decls_view(d@) == seq![("-webkit-backdrop-filter"@, "var(--tw-backdrop-blur,) var(--tw-backdrop-brightness,) var(--tw-backdrop-contrast,) var(--tw-backdrop-grayscale,) var(--tw-backdrop-hue-rotate,) var(--tw-backdrop-invert,) var(--tw-backdrop-opacity,) var(--tw-backdrop-saturate,) var(--tw-backdrop-sepia,)"@), ("backdrop-filter"@, "var(--tw-backdrop-blur,) var(--tw-backdrop-brightness,) var(--tw-backdrop-contrast,) var(--tw-backdrop-grayscale,) var(--tw-backdrop-hue-rotate,) var(--tw-backdrop-invert,) var(--tw-backdrop-opacity,) var(--tw-backdrop-saturate,) var(--tw-backdrop-sepia,)"@)]);
    rule(&mut r, "backdrop-filter", d);
    let d = decl(decl(decls(), "-webkit-backdrop-filter", "none"), "backdrop-filter", "none");
    assert(decls_view(d@) == seq![("-webkit-backdrop-filter"@, "none"@), ("backdrop-filter"@, "none"@)]);
    rule(&mut r, "backdrop-filter-none", d);
    r
}

/// The `transform-origin` utilities.
pub open spec fn transform_origin_rules() -> Seq<(Seq<char>, Seq<(Seq<char>, Seq<char>)>)> {
    seq![
        ("origin-center"@, seq![("transform-origin"@, "center"@)]),
        ("origin-top"@, seq![("transform-origin"@, "top"@)]),
        ("origin-top-right"@, seq![("transform-origin"@, "top right"@)]),
        ("origin-right"@, seq![("transform-origin"@, "right"@)]),
        ("origin-bottom-right"@, seq![("transform-origin"@, "bottom right"@)]),
        ("origin-bottom"@, seq![("transform-origin"@, "bottom"@)]),
        ("origin-bottom-left"@, seq![("transform-origin"@, "bottom left"@)]),
        ("origin-left"@, seq![("transform-origin"@, "left"@)]),
        ("origin-top-left"@, seq![("transform-origin"@, "top left"@)]),
    ]
}

/// The `transform-origin` utilities.
pub fn transform_origin() -> (r: Vec<(String, Vec<Decl>)>)
    ensures
        static_table_wf(r@),
        r@.len() == 9,
        static_view(r@) == transform_origin_rules(),
{
    let mut r: Vec<(String, Vec<Decl>)> = Vec::new();
    proof {
        assert(static_view(r@) =~= Seq::<(Seq<char>, Seq<(Seq<char>, Seq<char>)>)>::empty());
    }
    rule(&mut r, "origin-center", decl(decls(), "transform-origin", "center"));
    rule(&mut r, "origin-top", decl(decls(), "transform-origin", "top"));
    rule(&mut r, "origin-top-right", decl(decls(), "transform-origin", "top right"));
    rule(&mut r, "origin-right", decl(decls(), "transform-origin", "right"));
    rule(&mut r, "origin-bottom-right", decl(decls(), "transform-origin", "bottom right"));
    rule(&mut r, "origin-bottom", decl(decls(), "transform-origin", "bottom"));
    rule(&mut r, "origin-bottom-left", decl(decls(), "transform-origin", "bottom left"));
    rule(&mut r, "origin-left", decl(decls(), "transform-origin", "left"));
    rule(&mut r, "origin-top-left", decl(decls(), "transform-origin", "top left"));
    r
}

/// The `perspective-origin` utilities.
pub open spec fn perspective_origin_rules() -> Seq<(Seq<char>, Seq<(Seq<char>, Seq<char>)>)> {
    seq![
        ("perspective-origin-center"@, seq![("perspective-origin"@, "center"@)]),
        ("perspective-origin-top"@, seq![("perspective-origin"@, "top"@)]),
        ("perspective-origin-top-right"@, seq![("perspective-origin"@, "top right"@)]),
        ("perspective-origin-right"@, seq![("perspective-origin"@, "right"@)]),
        ("perspective-origin-bottom-right"@, seq![("perspective-origin"@, "bottom right"@)]),
        ("perspective-origin-bottom"@, seq![("perspective-origin"@, "bottom"@)]),
        ("perspective-origin-bottom-left"@, seq![("perspective-origin"@, "bottom left"@)]),
        ("perspective-origin-left"@, seq![("perspective-origin"@, "left"@)]),
        ("perspective-origin-top-left"@, seq![("perspective-origin"@, "top left"@)]),
    ]
}

/// The `perspective-origin` utilities.
pub fn perspective_origin() -> (r: Vec<(String, Vec<Decl>)>)
    ensures
        static_table_wf(r@),
        r@.len() == 9,
        static_view(r@) == perspective_origin_rules(),
{
    let mut r: Vec<(String, Vec<Decl>)> = Vec::new();
    proof {
        assert(static_view(r@) =~= Seq::<(Seq<char>, Seq<(Seq<char>, Seq<char>)>)>::empty());
    }
    rule(&mut r, "perspective-origin-center", decl(decls(), "perspective-origin", "center"));
    rule(&mut r, "perspective-origin-top", decl(decls(), "perspective-origin", "top"));
    rule(&mut r, "perspective-origin-top-right", decl(decls(), "perspective-origin", "top right"));
    rule(&mut r, "perspective-origin-right", decl(decls(), "perspective-origin", "right"));
    rule(&mut r, "perspective-origin-bottom-right", decl(decls(), "perspective-origin", "bottom right"));
    rule(&mut r, "perspective-origin-bottom", decl(decls(), "perspective-origin", "bottom"));
    rule(&mut r, "perspective-origin-bottom-left", decl(decls(), "perspective-origin", "bottom left"));
    rule(&mut r, "perspective-origin-left", decl(decls(), "perspective-origin", "left"));
    rule(&mut r, "perspective-origin-top-left", decl(decls(), "perspective-origin", "top left"));
    r
}

/// The `perspective` utilities.
pub open spec fn perspective_rules() -> Seq<(Seq<char>, Seq<(Seq<char>, Seq<char>)>)> {
    seq![
        ("perspective-none"@, seq![("perspective"@, "none"@)]),
    ]
}

/// The `perspective` utilities.
pub fn perspective() -> (r: Vec<(String, Vec<Decl>)>)
    ensures
        static_table_wf(r@),
        r@.len() == 1,
        static_view(r@) == perspective_rules(),
{
    let mut r: Vec<(String, Vec<Decl>)> = Vec::new();
    proof {
        assert(static_view(r@) =~= Seq::<(Seq<char>, Seq<(Seq<char>, Seq<char>)>)>::empty());
    }
    rule(&mut r, "perspective-none", decl(decls(), "perspective", "none"));
    r
}

/// The `translate` utilities.
pub open spec fn translate_rules() -> Seq<(Seq<char>, Seq<(Seq<char>, Seq<char>)>)> {
    seq![
        ("translate-3d"@, seq![("translate"@, "var(--tw-translate-x) var(--tw-translate-y) var(--tw-translate-z)"@)]),
    ]
}

/// The `translate` utilities.
pub fn translate() -> (r: Vec<(String, Vec<Decl>)>)
    ensures
        static_table_wf(r@),
        r@.len() == 1,
        static_view(r@) == translate_rules(),
{
    let mut r: Vec<(String, Vec<Decl>)> = Vec::new();
    proof {
        assert(static_view(r@) =~= Seq::<(Seq<char>, Seq<(Seq<char>, Seq<char>)>)>::empty());
    }
    rule(&mut r, "translate-3d", decl(decls(), "translate", "var(--tw-translate-x) var(--tw-translate-y) var(--tw-translate-z)"));
    r
}

/// The `scale` utilities.
pub open spec fn scale_rules() -> Seq<(Seq<char>, Seq<(Seq<char>, Seq<char>)>)> {
    seq![
        ("scale-3d"@, seq![("scale"@, "var(--tw-scale-x) var(--tw-scale-y) var(--tw-scale-z)"@)]),
    ]
}

/// The `scale` utilities.
pub fn scale() -> (r: Vec<(String, Vec<Decl>)>)
    ensures
        static_table_wf(r@),
        r@.len() == 1,
        static_view(r@) == scale_rules(),
{
    let mut r: Vec<(String, Vec<Decl>)> = Vec::new();
    proof {
        assert(static_view(r@) =~= Seq::<(Seq<char>, Seq<(Seq<char>, Seq<char>)>)>::empty());
    }
    rule(&mut r, "scale-3d", decl(decls(), "scale", "var(--tw-scale-x) var(--tw-scale-y) var(--tw-scale-z)"));
    r
}

/// The `cursor` utilities.
pub open spec fn cursor_rules() -> Seq<(Seq<char>, Seq<(Seq<char>, Seq<char>)>)> {
    seq![
        ("cursor-auto"@, seq![("cursor"@, "auto"@)]),
        ("cursor-default"@, seq![("cursor"@, "default"@)]),
        ("cursor-pointer"@, seq![("cursor"@, "pointer"@)]),
        ("cursor-wait"@, seq![("cursor"@, "wait"@)]),
        ("cursor-text"@, seq![("cursor"@, "text"@)]),
        ("cursor-move"@, seq![("cursor"@, "move"@)]),
        ("cursor-help"@, seq![("cursor"@, "help"@)]),
        ("cursor-not-allowed"@, seq![("cursor"@, "not-allowed"@)]),
        ("cursor-none"@, seq![("cursor"@, "none"@)]),
        ("cursor-context-menu"@, seq![("cursor"@, "context-menu"@)]),
        ("cursor-progress"@, seq![("cursor"@, "progress"@)]),
        ("cursor-cell"@, seq![("cursor"@, "cell"@)]),
        ("cursor-crosshair"@, seq![("cursor"@, "crosshair"@)]),
        ("cursor-vertical-text"@, seq![("cursor"@, "vertical-text"@)]),
        ("cursor-alias"@, seq![("cursor"@, "alias"@)]),
        ("cursor-copy"@, seq![("cursor"@, "copy"@)]),
        ("cursor-no-drop"@, seq![("cursor"@, "no-drop"@)]),
        ("cursor-grab"@, seq![("cursor"@, "grab"@)]),
        ("cursor-grabbing"@, seq![("cursor"@, "grabbing"@)]),
        ("cursor-all-scroll"@, seq![("cursor"@, "all-scroll"@)]),
        ("cursor-col-resize"@, seq![("cursor"@, "col-resize"@)]),
        ("cursor-row-resize"@, seq![("cursor"@, "row-resize"@)]),
        ("cursor-n-resize"@, seq![("cursor"@, "n-resize"@)]),
        ("cursor-e-resize"@, seq![("cursor"@, "e-resize"@)]),
        ("cursor-s-resize"@, seq![("cursor"@, "s-resize"@)]),
        ("cursor-w-resize"@, seq![("cursor"@, "w-resize"@)]),
        ("cursor-ne-resize"@, seq![("cursor"@, "ne-resize"@)]),
        ("cursor-nw-resize"@, seq![("cursor"@, "nw-resize"@)]),
        ("cursor-se-resize"@, seq![("cursor"@, "se-resize"@)]),
        ("cursor-sw-resize"@, seq![("cursor"@, "sw-resize"@)]),
        ("cursor-ew-resize"@, seq![("cursor"@, "ew-resize"@)]),
        ("cursor-ns-resize"@, seq![("cursor"@, "ns-resize"@)]),
        ("cursor-nesw-resize"@, seq![("cursor"@, "nesw-resize"@)]),
        ("cursor-nwse-resize"@, seq![("cursor"@, "nwse-resize"@)]),
        ("cursor-zoom-in"@, seq![("cursor"@, "zoom-in"@)]),
        ("cursor-zoom-out"@, seq![("cursor"@, "zoom-out"@)]),
    ]
}

/// The `cursor` utilities.
pub fn cursor() -> (r: Vec<(String, Vec<Decl>)>)
    ensures
        static_table_wf(r@),
        r@.len() == 36,
        static_view(r@) == cursor_rules(),
{
    let mut r: Vec<(String, Vec<Decl>)> = Vec::new();
    proof {
        assert(static_view(r@) =~= Seq::<(Seq<char>, Seq<(Seq<char>, Seq<char>)>)>::empty());
    }
    rule(&mut r, "cursor-auto", decl(decls(), "cursor", "auto"));
    rule(&mut r, "cursor-default", decl(decls(), "cursor", "default"));
    rule(&mut r, "cursor-pointer", decl(decls(), "cursor", "pointer"));
    rule(&mut r, "cursor-wait", decl(decls(), "cursor", "wait"));
    rule(&mut r, "cursor-text", decl(decls(), "cursor", "text"));
    rule(&mut r, "cursor-move", decl(decls(), "cursor", "move"));
    rule(&mut r, "cursor-help", decl(decls(), "cursor", "help"));
    rule(&mut r, "cursor-not-allowed", decl(decls(), "cursor", "not-allowed"));
    rule(&mut r, "cursor-none", decl(decls(), "cursor", "none"));
    rule(&mut r, "cursor-context-menu", decl(decls(), "cursor", "context-menu"));
    rule(&mut r, "cursor-progress", decl(decls(), "cursor", "progress"));
    rule(&mut r, "cursor-cell", decl(decls(), "cursor", "cell"));
    rule(&mut r, "cursor-crosshair", decl(decls(), "cursor", "crosshair"));
    rule(&mut r, "cursor-vertical-text", decl(decls(), "cursor", "vertical-text"));
    rule(&mut r, "cursor-alias", decl(decls(), "cursor", "alias"));
    rule(&mut r, "cursor-copy", decl(decls(), "cursor", "copy"));
    rule(&mut r, "cursor-no-drop", decl(decls(), "cursor", "no-drop"));
    rule(&mut r, "cursor-grab", decl(decls(), "cursor", "grab"));
    rule(&mut r, "cursor-grabbing", decl(decls(), "cursor", "grabbing"));
    rule(&mut r, "cursor-all-scroll", decl(decls(), "cursor", "all-scroll"));
    rule(&mut r, "cursor-col-resize", decl(decls(), "cursor", "col-resize"));
    rule(&mut r, "cursor-row-resize", decl(decls(), "cursor", "row-resize"));
    rule(&mut r, "cursor-n-resize", decl(decls(), "cursor", "n-resize"));
    rule(&mut r, "cursor-e-resize", decl(decls(), "cursor", "e-resize"));
    rule(&mut r, "cursor-s-resize", decl(decls(), "cursor", "s-resize"));
    rule(&mut r, "cursor-w-resize", decl(decls(), "cursor", "w-resize"));
    rule(&mut r, "cursor-ne-resize", decl(decls(), "cursor", "ne-resize"));
    rule(&mut r, "cursor-nw-resize", decl(decls(), "cursor", "nw-resize"));
    rule(&mut r, "cursor-se-resize", decl(decls(), "cursor", "se-resize"));
    rule(&mut r, "cursor-sw-resize", decl(decls(), "cursor", "sw-resize"));
    rule(&mut r, "cursor-ew-resize", decl(decls(), "cursor", "ew-resize"));
    rule(&mut r, "cursor-ns-resize", decl(decls(), "cursor", "ns-resize"));
    rule(&mut r, "cursor-nesw-resize", decl(decls(), "cursor", "nesw-resize"));
    rule(&mut r, "cursor-nwse-resize", decl(decls(), "cursor", "nwse-resize"));
    rule(&mut r, "cursor-zoom-in", decl(decls(), "cursor", "zoom-in"));
    rule(&mut r, "cursor-zoom-out", decl(decls(), "cursor", "zoom-out"));
    r
}

/// The `touch-action` utilities.
pub open spec fn touch_action_rules() -> Seq<(Seq<char>, Seq<(Seq<char>, Seq<char>)>)> {
    seq![
        ("touch-auto"@, seq![("touch-action"@, "auto"@)]),
        ("touch-none"@, seq![("touch-action"@, "none"@)]),
        ("manipulation"@, seq![("touch-action"@, "manipulation"@)]),
    ]
}

/// The `touch-action` utilities.
pub fn touch_action() -> (r: Vec<(String, Vec<Decl>)>)
    ensures
        static_table_wf(r@),
        r@.len() == 3,
        static_view(r@) == touch_action_rules(),
{
    let mut r: Vec<(String, Vec<Decl>)> = Vec::new();
    proof {
        assert(static_view(r@) =~= Seq::<(Seq<char>, Seq<(Seq<char>, Seq<char>)>)>::empty());
    }
    rule(&mut r, "touch-auto", decl(decls(), "touch-action", "auto"));
    rule(&mut r, "touch-none", decl(decls(), "touch-action", "none"));
    rule(&mut r, "manipulation", decl(decls(), "touch-action", "manipulation"));
    r
}

/// The `transform` utilities.
pub open spec fn transform_rules() -> Seq<(Seq<char>, Seq<(Seq<char>, Seq<char>)>)> {
    seq![
        ("transform-cpu"@, seq![("transform"@, "var(--tw-rotate-x) var(--tw-rotate-y) var(--tw-rotate-z) var(--tw-skew-x) var(--tw-skew-y)"@)]),
        ("transform-gpu"@, seq![("transform"@, "translateZ(0) var(--tw-rotate-x) var(--tw-rotate-y) var(--tw-rotate-z) var(--tw-skew-x) var(--tw-skew-y)"@)]),
        ("transform-none"@, seq![("transform"@, "none"@)]),
    ]
}

/// The `transform` utilities.
pub fn transform() -> (r: Vec<(String, Vec<Decl>)>)
    ensures
        static_table_wf(r@),
        r@.len() == 3,
        static_view(r@) == transform_rules(),
{
    let mut r: Vec<(String, Vec<Decl>)> = Vec::new();
    proof {
        assert(static_view(r@) =~= Seq::<(Seq<char>, Seq<(Seq<char>, Seq<char>)>)>::empty());
    }
    rule(&mut r, "transform-cpu", decl(decls(), "transform", "var(--tw-rotate-x) var(--tw-rotate-y) var(--tw-rotate-z) var(--tw-skew-x) var(--tw-skew-y)"));
    rule(&mut r, "transform-gpu", decl(decls(), "transform", "translateZ(0) var(--tw-rotate-x) var(--tw-rotate-y) var(--tw-rotate-z) var(--tw-skew-x) var(--tw-skew-y)"));
    rule(&mut r, "transform-none", decl(decls(), "transform", "none"));
    r
}

/// The `transform-style` utilities.
pub open spec fn transform_style_rules() -> Seq<(Seq<char>, Seq<(Seq<char>, Seq<char>)>)> {
    seq![
        ("transform-flat"@, seq![("transform-style"@, "flat"@)]),
        ("transform-preserve-3d"@, seq![("transform-style"@, "preserve-3d"@)]),
    ]
}

/// The `transform-style` utilities.
pub fn transform_style() -> (r: Vec<(String, Vec<Decl>)>)
    ensures
        static_table_wf(r@),
        r@.len() == 2,
        static_view(r@) == transform_style_rules(),
{
    let mut r: Vec<(String, Vec<Decl>)> = Vec::new();
    proof {
        assert(static_view(r@) =~= Seq::<(Seq<char>, Seq<(Seq<char>, Seq<char>)>)>::empty());
    }
    rule(&mut r, "transform-flat", decl(decls(), "transform-style", "flat"));
    rule(&mut r, "transform-preserve-3d", decl(decls(), "transform-style", "preserve-3d"));
    r
}

/// The `transform-box` utilities.
pub open spec fn transform_box_rules() -> Seq<(Seq<char>, Seq<(Seq<char>, Seq<char>)>)> {
    seq![
        ("transform-content"@, seq![("transform-box"@, "content-box"@)]),
        ("transform-border"@, seq![("transform-box"@, "border-box"@)]),
        ("transform-fill"@, seq![("transform-box"@, "fill-box"@)]),
        ("transform-stroke"@, seq![("transform-box"@, "stroke-box"@)]),
        ("transform-view"@, seq![("transform-box"@, "view-box"@)]),
    ]
}

/// The `transform-box` utilities.
pub fn transform_box() -> (r: Vec<(String, Vec<Decl>)>)
    ensures
        static_table_wf(r@),
        r@.len() == 5,
        static_view(r@) == transform_box_rules(),
{
    let mut r: Vec<(String, Vec<Decl>)> = Vec::new();
    proof {
        assert(static_view(r@) =~= Seq::<(Seq<char>, Seq<(Seq<char>, Seq<char>)>)>::empty());
    }
    rule(&mut r, "transform-content", decl(decls(), "transform-box", "content-box"));
    rule(&mut r, "transform-border", decl(decls(), "transform-box", "border-box"));
    rule(&mut r, "transform-fill", decl(decls(), "transform-box", "fill-box"));
    rule(&mut r, "transform-stroke", decl(decls(), "transform-box", "stroke-box"));
    rule(&mut r, "transform-view", decl(decls(), "transform-box", "view-box"));
    r
}

/// The `backface-visibility` utilities.
pub open spec fn backface_visibility_rules() -> Seq<(Seq<char>, Seq<(Seq<char>, Seq<char>)>)> {
    seq![
        ("backface-visible"@, seq![("backface-visibility"@, "visible"@)]),
        ("backface-hidden"@, seq![("backface-visibility"@, "hidden"@)]),
    ]
}

/// The `backface-visibility` utilities.
pub fn backface_visibility() -> (r: Vec<(String, Vec<Decl>)>)
    ensures
        static_table_wf(r@),
        r@.len() == 2,
        static_view(r@) == backface_visibility_rules(),
{
    let mut r: Vec<(String, Vec<Decl>)> = Vec::new();
    proof {
        assert(static_view(r@) =~= Seq::<(Seq<char>, Seq<(Seq<char>, Seq<char>)>)>::empty());
    }
    rule(&mut r, "backface-visible", decl(decls(), "backface-visibility", "visible"));
    rule(&mut r, "backface-hidden", decl(decls(), "backface-visibility", "hidden"));
    r
}

/// The `scroll-snap` utilities.
pub open spec fn scroll_snap_rules() -> Seq<(Seq<char>, Seq<(Seq<char>, Seq<char>)>)> {
    seq![
        ("snap-none"@, seq![("scroll-snap-type"@, "none"@)]),
        ("snap-x"@, seq![("scroll-snap-type"@, "x var(--tw-scroll-snap-strictness)"@)]),
        ("snap-y"@, seq![("scroll-snap-type"@, "y var(--tw-scroll-snap-strictness)"@)]),
        ("snap-both"@, seq![("scroll-snap-type"@, "both var(--tw-scroll-snap-strictness)"@)]),
        ("snap-mandatory"@, seq![("scroll-snap-type"@, "mandatory"@)]),
        ("snap-proximity"@, seq![("scroll-snap-type"@, "proximity"@)]),
    ]
}

/// The `scroll-snap` utilities.
pub fn scroll_snap() -> (r: Vec<(String, Vec<Decl>)>)
    ensures
        static_table_wf(r@),
        r@.len() == 6,
        static_view(r@) == scroll_snap_rules(),
{
    let mut r: Vec<(String, Vec<Decl>)> = Vec::new();
    proof {
        assert(static_view(r@) =~= Seq::<(Seq<char>, Seq<(Seq<char>, Seq<char>)>)>::empty());
    }
    rule(&mut r, "snap-none", decl(decls(), "scroll-snap-type", "none"));
    rule(&mut r, "snap-x", decl(decls(), "scroll-snap-type", "x var(--tw-scroll-snap-strictness)"));
    rule(&mut r, "snap-y", decl(decls(), "scroll-snap-type", "y var(--tw-scroll-snap-strictness)"));
    rule(&mut r, "snap-both", decl(decls(), "scroll-snap-type", "both var(--tw-scroll-snap-strictness)"));
    rule(&mut r, "snap-mandatory", decl(decls(), "scroll-snap-type", "mandatory"));
    rule(&mut r, "snap-proximity", decl(decls(), "scroll-snap-type", "proximity"));
    r
}

/// The `touch-pan` utilities.
pub open spec fn touch_pan_rules() -> Seq<(Seq<char>, Seq<(Seq<char>, Seq<char>)>)> {
    seq![
        ("touch-pan-x"@, seq![("--tw-pan-x"@, "pan-x"@), ("touch-action"@, "var(--tw-pan-x,) var(--tw-pan-y,) var(--tw-pinch-zoom,)"@)]),
        ("touch-pan-left"@, seq![("--tw-pan-x"@, "pan-left"@), ("touch-action"@, "var(--tw-pan-x,) var(--tw-pan-y,) var(--tw-pinch-zoom,)"@)]),
        ("touch-pan-right"@, seq![("--tw-pan-x"@, "pan-right"@), ("touch-action"@, "var(--tw-pan-x,) var(--tw-pan-y,) var(--tw-pinch-zoom,)"@)]),
        ("touch-pan-y"@, seq![("--tw-pan-y"@, "pan-y"@), ("touch-action"@, "var(--tw-pan-x,) var(--tw-pan-y,) var(--tw-pinch-zoom,)"@)]),
        ("touch-pan-up"@, seq![("--tw-pan-y"@, "pan-up"@), ("touch-action"@, "var(--tw-pan-x,) var(--tw-pan-y,) var(--tw-pinch-zoom,)"@)]),
        ("touch-pan-down"@, seq![("--tw-pan-y"@, "pan-down"@), ("touch-action"@, "var(--tw-pan-x,) var(--tw-pan-y,) var(--tw-pinch-zoom,)"@)]),
        ("touch-pinch-zoom"@, seq![("--tw-pinch-zoom"@, "pinch-zoom"@), ("touch-action"@, "var(--tw-pan-x,) var(--tw-pan-y,) var(--tw-pinch-zoom,)"@)]),
    ]
}

/// The `touch-pan` utilities.
pub fn touch_pan() -> (r: Vec<(String, Vec<Decl>)>)
    ensures
        static_table_wf(r@),
        r@.len() == 7,
        static_view(r@) == touch_pan_rules(),
{
    let mut r: Vec<(String, Vec<Decl>)> = Vec::new();
    proof {
        assert(static_view(r@) =~= Seq::<(Seq<char>, Seq<(Seq<char>, Seq<char>)>)>::empty());
    }
    let d = decl(decl(decls(), "--tw-pan-x", "pan-x"), "touch-action", "var(--tw-pan-x,) var(--tw-pan-y,) var(--tw-pinch-zoom,)");
    assert(decls_view(d@) == seq![("--tw-pan-x"@, "pan-x"@), ("touch-action"@, "var(--tw-pan-x,) var(--tw-pan-y,) var(--tw-pinch-zoom,)"@)]);
    rule(&mut r, "touch-pan-x", d);
    let d = decl(decl(decls(), "--tw-pan-x", "pan-left"), "touch-action", "var(--tw-pan-x,) var(--tw-pan-y,) var(--tw-pinch-zoom,)");
    assert(decls_view(d@) == seq![("--tw-pan-x"@, "pan-left"@), ("touch-action"@, "var(--tw-pan-x,) var(--tw-pan-y,) var(--tw-pinch-zoom,)"@)]);
    rule(&mut r, "touch-pan-left", d);
    let d = decl(decl(decls(), "--tw-pan-x", "pan-right"), "touch-action", "var(--tw-pan-x,) var(--tw-pan-y,) var(--tw-pinch-zoom,)");
    assert(decls_view(d@) == seq![("--tw-pan-x"@, "pan-right"@), ("touch-action"@, "var(--tw-pan-x,) var(--tw-pan-y,) var(--tw-pinch-zoom,)"@)]);
    rule(&mut r, "touch-pan-right", d);
    let d = decl(decl(decls(), "--tw-pan-y", "pan-y"), "touch-action", "var(--tw-pan-x,) var(--tw-pan-y,) var(--tw-pinch-zoom,)");
    assert(decls_view(d@) == seq![("--tw-pan-y"@, "pan-y"@), ("touch-action"@, "var(--tw-pan-x,) var(--tw-pan-y,) var(--tw-pinch-zoom,)"@)]);
    rule(&mut r, "touch-pan-y", d);
    let d = decl(decl(decls(), "--tw-pan-y", "pan-up"), "touch-action", "var(--tw-pan-x,) var(--tw-pan-y,) var(--tw-pinch-zoom,)");
    assert(decls_view(d@) == seq![("--tw-pan-y"@, "pan-up"@), ("touch-action"@, "var(--tw-pan-x,) var(--tw-pan-y,) var(--tw-pinch-zoom,)"@)]);
    rule(&mut r, "touch-pan-up", d);
    let d = decl(decl(decls(), "--tw-pan-y", "pan-down"), "touch-action", "var(--tw-pan-x,) var(--tw-pan-y,) var(--tw-pinch-zoom,)");
    assert(decls_view(d@) == seq![("--tw-pan-y"@, "pan-down"@), ("touch-action"@, "var(--tw-pan-x,) var(--tw-pan-y,) var(--tw-pinch-zoom,)"@)]);
    rule(&mut r, "touch-pan-down", d);
    let d = decl(decl(decls(), "--tw-pinch-zoom", "pinch-zoom"), "touch-action", "var(--tw-pan-x,) var(--tw-pan-y,) var(--tw-pinch-zoom,)");
    assert(decls_view(d@) == seq![("--tw-pinch-zoom"@, "pinch-zoom"@), ("touch-action"@, "var(--tw-pan-x,) var(--tw-pan-y,) var(--tw-pinch-zoom,)"@)]);
    rule(&mut r, "touch-pinch-zoom", d);
    r
}

/// The `space` utilities.
pub open spec fn space_rules() -> Seq<(Seq<char>, Seq<(Seq<char>, Seq<char>)>)> {
    seq![
        ("space-x-reverse"@, seq![("--tw-space-x-reverse"@, "0"@)]),
        ("space-y-reverse"@, seq![("--tw-space-y-reverse"@, "0"@)]),
    ]
}

/// The `space` utilities.
pub fn space() -> (r: Vec<(String, Vec<Decl>)>)
    ensures
        static_table_wf(r@),
        r@.len() == 2,
        static_view(r@) == space_rules(),
{
    let mut r: Vec<(String, Vec<Decl>)> = Vec::new();
    proof {
        assert(static_view(r@) =~= Seq::<(Seq<char>, Seq<(Seq<char>, Seq<char>)>)>::empty());
    }
    rule(&mut r, "space-x-reverse", decl(decls(), "--tw-space-x-reverse", "0"));
    rule(&mut r, "space-y-reverse", decl(decls(), "--tw-space-y-reverse", "0"));
    r
}

/// The `overflow` utilities.
pub open spec fn overflow_rules() -> Seq<(Seq<char>, Seq<(Seq<char>, Seq<char>)>)> {
    seq![
        ("overflow-auto"@, seq![("overflow"@, "auto"@)]),
        ("overflow-hidden"@, seq![("overflow"@, "hidden"@)]),
        ("overflow-clip"@, seq![("overflow"@, "clip"@)]),
        ("overflow-visible"@, seq![("overflow"@, "visible"@)]),
        ("overflow-scroll"@, seq![("overflow"@, "scroll"@)]),
    ]
}

/// The `overflow` utilities.
pub fn overflow() -> (r: Vec<(String, Vec<Decl>)>)
    ensures
        static_table_wf(r@),
        r@.len() == 5,
        static_view(r@) == overflow_rules(),
{
    let mut r: Vec<(String, Vec<Decl>)> = Vec::new();
    proof {
        assert(static_view(r@) =~= Seq::<(Seq<char>, Seq<(Seq<char>, Seq<char>)>)>::empty());
    }
    rule(&mut r, "overflow-auto", decl(decls(), "overflow", "auto"));
    rule(&mut r, "overflow-hidden", decl(decls(), "overflow", "hidden"));
    rule(&mut r, "overflow-clip", decl(decls(), "overflow", "clip"));
    rule(&mut r, "overflow-visible", decl(decls(), "overflow", "visible"));
    rule(&mut r, "overflow-scroll", decl(decls(), "overflow", "scroll"));
    r
}

/// The `overscroll-behavior` utilities.
pub open spec fn overscroll_behavior_rules() -> Seq<(Seq<char>, Seq<(Seq<char>, Seq<char>)>)> {
    seq![
        ("overscroll-auto"@, seq![("overscroll-behavior"@, "auto"@)]),
        ("overscroll-contain"@, seq![("overscroll-behavior"@, "contain"@)]),
        ("overscroll-none"@, seq![("overscroll-behavior"@, "none"@)]),
    ]
}

/// The `overscroll-behavior` utilities.
pub fn overscroll_behavior() -> (r: Vec<(String, Vec<Decl>)>)
    ensures
        static_table_wf(r@),
        r@.len() == 3,
        static_view(r@) == overscroll_behavior_rules(),
{
    let mut r: Vec<(String, Vec<Decl>)> = Vec::new();
    proof {
        assert(static_view(r@) =~= Seq::<(Seq<char>, Seq<(Seq<char>, Seq<char>)>)>::empty());
    }
    rule(&mut r, "overscroll-auto", decl(decls(), "overscroll-behavior", "auto"));
    rule(&mut r, "overscroll-contain", decl(decls(), "overscroll-behavior", "contain"));
    rule(&mut r, "overscroll-none", decl(decls(), "overscroll-behavior", "none"));
    r
}

/// The `scroll-behavior` utilities.
pub open spec fn scroll_behavior_rules() -> Seq<(Seq<char>, Seq<(Seq<char>, Seq<char>)>)> {
    seq![
        ("scroll-auto"@, seq![("scroll-behavior"@, "auto"@)]),
        ("scroll-smooth"@, seq![("scroll-behavior"@, "smooth"@)]),
    ]
}

/// The `scroll-behavior` utilities.
pub fn scroll_behavior() -> (r: Vec<(String, Vec<Decl>)>)
    ensures
        static_table_wf(r@),
        r@.len() == 2,
        static_view(r@) == scroll_behavior_rules(),
{
    let mut r: Vec<(String, Vec<Decl>)> = Vec::new();
    proof {
        assert(static_view(r@) =~= Seq::<(Seq<char>, Seq<(Seq<char>, Seq<char>)>)>::empty());
    }
    rule(&mut r, "scroll-auto", decl(decls(), "scroll-behavior", "auto"));
    rule(&mut r, "scroll-smooth", decl(decls(), "scroll-behavior", "smooth"));
    r
}

/// The `truncate` utilities.
pub open spec fn truncate_rules() -> Seq<(Seq<char>, Seq<(Seq<char>, Seq<char>)>)> {
    seq![
        ("truncate"@, seq![("overflow"@, "hidden"@), ("text-overflow"@, "ellipsis"@), ("white-space"@, "nowrap"@)]),
    ]
}

/// The `truncate` utilities.
pub fn truncate() -> (r: Vec<(String, Vec<Decl>)>)
    ensures
        static_table_wf(r@),
        r@.len() == 1,
        static_view(r@) == truncate_rules(),
{
    let mut r: Vec<(String, Vec<Decl>)> = Vec::new();
    proof {
        assert(static_view(r@) =~= Seq::<(Seq<char>, Seq<(Seq<char>, Seq<char>)>)>::empty());
    }
    let d = decl(decl(decl(decls(), "overflow", "hidden"), "text-overflow", "ellipsis"), "white-space", "nowrap");
    assert(decls_view(d@) == seq![("overflow"@, "hidden"@), ("text-overflow"@, "ellipsis"@), ("white-space"@, "nowrap"@)]);
    rule(&mut r, "truncate", d);
    r
}

/// The `text-overflow` utilities.
pub open spec fn text_overflow_rules() -> Seq<(Seq<char>, Seq<(Seq<char>, Seq<char>)>)> {
    seq![
        ("text-ellipsis"@, seq![("text-overflow"@, "ellipsis"@)]),
        ("text-clip"@, seq![("text-overflow"@, "clip"@)]),
    ]
}

/// The `text-overflow` utilities.
pub fn text_overflow() -> (r: Vec<(String, Vec<Decl>)>)
    ensures
        static_table_wf(r@),
        r@.len() == 2,
        static_view(r@) == text_overflow_rules(),
{
    let mut r: Vec<(String, Vec<Decl>)> = Vec::new();
    proof {
        assert(static_view(r@) =~= Seq::<(Seq<char>, Seq<(Seq<char>, Seq<char>)>)>::empty());
    }
    rule(&mut r, "text-ellipsis", decl(decls(), "text-overflow", "ellipsis"));
    rule(&mut r, "text-clip", decl(decls(), "text-overflow", "clip"));
    r
}

/// The `hyphens` utilities.
pub open spec fn hyphens_rules() -> Seq<(Seq<char>, Seq<(Seq<char>, Seq<char>)>)> {
    seq![
        ("hyphens-none"@, seq![("-webkit-hyphens"@, "none"@), ("hyphens"@, "none"@)]),
        ("hyphens-manual"@, seq![("-webkit-hyphens"@, "manual"@), ("hyphens"@, "manual"@)]),
        ("hyphens-auto"@, seq![("-webkit-hyphens"@, "auto"@), ("hyphens"@, "auto"@)]),
    ]
}

/// The `hyphens` utilities.
pub fn hyphens() -> (r: Vec<(String, Vec<Decl>)>)
    ensures
        static_table_wf(r@),
        r@.len() == 3,
        static_view(r@) == hyphens_rules(),
{
    let mut r: Vec<(String, Vec<Decl>)> = Vec::new();
    proof {
        assert(static_view(r@) =~= Seq::<(Seq<char>, Seq<(Seq<char>, Seq<char>)>)>::empty());
    }
    let d = decl(decl(decls(), "-webkit-hyphens", "none"), "hyphens", "none");
    assert(decls_view(d@) == seq![("-webkit-hyphens"@, "none"@), ("hyphens"@, "none"@)]);
    rule(&mut r, "hyphens-none", d);
    let d = decl(decl(decls(), "-webkit-hyphens", "manual"), "hyphens", "manual");
    assert(decls_view(d@) == seq![("-webkit-hyphens"@, "manual"@), ("hyphens"@, "manual"@)]);
    rule(&mut r, "hyphens-manual", d);
    let d = decl(decl(decls(), "-webkit-hyphens", "auto"), "hyphens", "auto");
    assert(decls_view(d@) == seq![("-webkit-hyphens"@, "auto"@), ("hyphens"@, "auto"@)]);
    rule(&mut r, "hyphens-auto", d);
    r
}

/// The `white-space` utilities.
pub open spec fn white_space_rules() -> Seq<(Seq<char>, Seq<(Seq<char>, Seq<char>)>)> {
    seq![
        ("whitespace-normal"@, seq![("white-space"@, "normal"@)]),
        ("whitespace-nowrap"@, seq![("white-space"@, "nowrap"@)]),
        ("whitespace-pre"@, seq![("white-space"@, "pre"@)]),
        ("whitespace-pre-line"@, seq![("white-space"@, "pre-line"@)]),
        ("whitespace-pre-wrap"@, seq![("white-space"@, "pre-wrap"@)]),
        ("whitespace-break-spaces"@, seq![("white-space"@, "break-spaces"@)]),
    ]
}

/// The `white-space` utilities.
pub fn white_space() -> (r: Vec<(String, Vec<Decl>)>)
    ensures
        static_table_wf(r@),
        r@.len() == 6,
        static_view(r@) == white_space_rules(),
{
    let mut r: Vec<(String, Vec<Decl>)> = Vec::new();
    proof {
        assert(static_view(r@) =~= Seq::<(Seq<char>, Seq<(Seq<char>, Seq<char>)>)>::empty());
    }
    rule(&mut r, "whitespace-normal", decl(decls(), "white-space", "normal"));
    rule(&mut r, "whitespace-nowrap", decl(decls(), "white-space", "nowrap"));
    rule(&mut r, "whitespace-pre", decl(decls(), "white-space", "pre"));
    rule(&mut r, "whitespace-pre-line", decl(decls(), "white-space", "pre-line"));
    rule(&mut r, "whitespace-pre-wrap", decl(decls(), "white-space", "pre-wrap"));
    rule(&mut r, "whitespace-break-spaces", decl(decls(), "white-space", "break-spaces"));
    r
}

/// The `text-wrap` utilities.
pub open spec fn text_wrap_rules() -> Seq<(Seq<char>, Seq<(Seq<char>, Seq<char>)>)> {
    seq![
        ("text-wrap"@, seq![("overflow-wrap"@, "break-word"@)]),
        ("text-nowrap"@, seq![("overflow-wrap"@, "normal"@)]),
        ("text-balance"@, seq![("overflow-wrap"@, "balance"@)]),
        ("text-pretty"@, seq![("overflow-wrap"@, "pretty"@)]),
    ]
}

/// The `text-wrap` utilities.
pub fn text_wrap() -> (r: Vec<(String, Vec<Decl>)>)
    ensures
        static_table_wf(r@),
        r@.len() == 4,
        static_view(r@) == text_wrap_rules(),
{
    let mut r: Vec<(String, Vec<Decl>)> = Vec::new();
    proof {
        assert(static_view(r@) =~= Seq::<(Seq<char>, Seq<(Seq<char>, Seq<char>)>)>::empty());
    }
    rule(&mut r, "text-wrap", decl(decls(), "overflow-wrap", "break-word"));
    rule(&mut r, "text-nowrap", decl(decls(), "overflow-wrap", "normal"));
    rule(&mut r, "text-balance", decl(decls(), "overflow-wrap", "balance"));
    rule(&mut r, "text-pretty", decl(decls(), "overflow-wrap", "pretty"));
    r
}

/// The `word-break` utilities.
pub open spec fn word_break_rules() -> Seq<(Seq<char>, Seq<(Seq<char>, Seq<char>)>)> {
    seq![
        ("break-normal"@, seq![("overflow-wrap"@, "normal"@), ("word-break"@, "normal"@)]),
        ("break-words"@, seq![("overflow-wrap"@, "break-word"@)]),
        ("break-all"@, seq![("word-break"@, "break-all"@)]),
        ("break-keep"@, seq![("word-break"@, "break-keep"@)]),
    ]
}

/// The `word-break` utilities.
pub fn word_break() -> (r: Vec<(String, Vec<Decl>)>)
    ensures
        static_table_wf(r@),
        r@.len() == 4,
        static_view(r@) == word_break_rules(),
{
    let mut r: Vec<(String, Vec<Decl>)> = Vec::new();
    proof {
        assert(static_view(r@) =~= Seq::<(Seq<char>, Seq<(Seq<char>, Seq<char>)>)>::empty());
    }
    let d = decl(decl(decls(), "overflow-wrap", "normal"), "word-break", "normal");
    assert(decls_view(d@) == seq![("overflow-wrap"@, "normal"@), ("word-break"@, "normal"@)]);
    rule(&mut r, "break-normal", d);
    rule(&mut r, "break-words", decl(decls(), "overflow-wrap", "break-word"));
    rule(&mut r, "break-all", decl(decls(), "word-break", "break-all"));
    rule(&mut r, "break-keep", decl(decls(), "word-break", "break-keep"));
    r
}

/// The `border-style` utilities.
pub open spec fn border_style_rules() -> Seq<(Seq<char>, Seq<(Seq<char>, Seq<char>)>)> {
    seq![
        ("border-solid"@, seq![("--tw-border-style"@, "solid"@), ("border-style"@, "solid"@)]),
        ("border-dashed"@, seq![("--tw-border-style"@, "dashed"@), ("border-style"@, "dashed"@)]),
        ("border-dotted"@, seq![("--tw-border-style"@, "dotted"@), ("border-style"@, "dotted"@)]),
        ("border-double"@, seq![("--tw-border-style"@, "double"@), ("border-style"@, "double"@)]),
        ("border-hidden"@, seq![("--tw-border-style"@, "hidden"@), ("border-style"@, "hidden"@)]),
        ("border-none"@, seq![("--tw-border-style"@, "none"@), ("border-style"@, "none"@)]),
    ]
}

/// The `border-style` utilities.
pub fn border_style() -> (r: Vec<(String, Vec<Decl>)>)
    ensures
        static_table_wf(r@),
        r@.len() == 6,
        static_view(r@) == border_style_rules(),
{
    let mut r: Vec<(String, Vec<Decl>)> = Vec::new();
    proof {
        assert(static_view(r@) =~= Seq::<(Seq<char>, Seq<(Seq<char>, Seq<char>)>)>::empty());
    }
    let d = decl(decl(decls(), "--tw-border-style", "solid"), "border-style", "solid");
    assert(decls_view(d@) == seq![("--tw-border-style"@, "solid"@), ("border-style"@, "solid"@)]);
    rule(&mut r, "border-solid", d);
    let d = decl(decl(decls(), "--tw-border-style", "dashed"), "border-style", "dashed");
    assert(decls_view(d@) == seq![("--tw-border-style"@, "dashed"@), ("border-style"@, "dashed"@)]);
    rule(&mut r, "border-dashed", d);
    let d = decl(decl(decls(), "--tw-border-style", "dotted"), "border-style", "dotted");
    assert(decls_view(d@) == seq![("--tw-border-style"@, "dotted"@), ("border-style"@, "dotted"@)]);
    rule(&mut r, "border-dotted", d);
    let d = decl(decl(decls(), "--tw-border-style", "double"), "border-style", "double");
    assert(decls_view(d@) == seq![("--tw-border-style"@, "double"@), ("border-style"@, "double"@)]);
    rule(&mut r, "border-double", d);
    let d = decl(decl(decls(), "--tw-border-style", "hidden"), "border-style", "hidden");
    assert(decls_view(d@) == seq![("--tw-border-style"@, "hidden"@), ("border-style"@, "hidden"@)]);
    rule(&mut r, "border-hidden", d);
    let d = decl(decl(decls(), "--tw-border-style", "none"), "border-style", "none");
    assert(decls_view(d@) == seq![("--tw-border-style"@, "none"@), ("border-style"@, "none"@)]);
    rule(&mut r, "border-none", d);
    r
}

/// The `background-attachment` utilities.
pub open spec fn background_attachment_rules() -> Seq<(Seq<char>, Seq<(Seq<char>, Seq<char>)>)> {
    seq![
        ("bg-fixed"@, seq![("background-attachment"@, "fixed"@)]),
        ("bg-local"@, seq![("background-attachment"@, "local"@)]),
        ("bg-scroll"@, seq![("background-attachment"@, "scroll"@)]),
    ]
}

/// The `background-attachment` utilities.
pub fn background_attachment() -> (r: Vec<(String, Vec<Decl>)>)
    ensures
        static_table_wf(r@),
        r@.len() == 3,
        static_view(r@) == background_attachment_rules(),
{
    let mut r: Vec<(String, Vec<Decl>)> = Vec::new();
    proof {
        assert(static_view(r@) =~= Seq::<(Seq<char>, Seq<(Seq<char>, Seq<char>)>)>::empty());
    }
    rule(&mut r, "bg-fixed", decl(decls(), "background-attachment", "fixed"));
    rule(&mut r, "bg-local", decl(decls(), "background-attachment", "local"));
    rule(&mut r, "bg-scroll", decl(decls(), "background-attachment", "scroll"));
    r
}

/// The `background-repeat` utilities.
pub open spec fn background_repeat_rules() -> Seq<(Seq<char>, Seq<(Seq<char>, Seq<char>)>)> {
    seq![
        ("bg-repeat"@, seq![("background-repeat"@, "repeat"@)]),
        ("bg-no-repeat"@, seq![("background-repeat"@, "no-repeat"@)]),
        ("bg-repeat-x"@, seq![("background-repeat"@, "repeat-x"@)]),
        ("bg-repeat-y"@, seq![("background-repeat"@, "repeat-y"@)]),
        ("bg-round"@, seq![("background-repeat"@, "round"@)]),
        ("bg-space"@, seq![("background-repeat"@, "space"@)]),
    ]
}

/// The `background-repeat` utilities.
pub fn background_repeat() -> (r: Vec<(String, Vec<Decl>)>)
    ensures
        static_table_wf(r@),
        r@.len() == 6,
        static_view(r@) == background_repeat_rules(),
{
    let mut r: Vec<(String, Vec<Decl>)> = Vec::new();
    proof {
        assert(static_view(r@) =~= Seq::<(Seq<char>, Seq<(Seq<char>, Seq<char>)>)>::empty());
    }
    rule(&mut r, "bg-repeat", decl(decls(), "background-repeat", "repeat"));
    rule(&mut r, "bg-no-repeat", decl(decls(), "background-repeat", "no-repeat"));
    rule(&mut r, "bg-repeat-x", decl(decls(), "background-repeat", "repeat-x"));
    rule(&mut r, "bg-repeat-y", decl(decls(), "background-repeat", "repeat-y"));
    rule(&mut r, "bg-round", decl(decls(), "background-repeat", "round"));
    rule(&mut r, "bg-space", decl(decls(), "background-repeat", "space"));
    r
}

/// The `background-image` utilities.
pub open spec fn background_image_rules() -> Seq<(Seq<char>, Seq<(Seq<char>, Seq<char>)>)> {
    seq![
        ("bg-none"@, seq![("background-image"@, "none"@)]),
    ]
}

/// The `background-image` utilities.
pub fn background_image() -> (r: Vec<(String, Vec<Decl>)>)
    ensures
        static_table_wf(r@),
        r@.len() == 1,
        static_view(r@) == background_image_rules(),
{
    let mut r: Vec<(String, Vec<Decl>)> = Vec::new();
    proof {
        assert(static_view(r@) =~= Seq::<(Seq<char>, Seq<(Seq<char>, Seq<char>)>)>::empty());
    }
    rule(&mut r, "bg-none", decl(decls(), "background-image", "none"));
    r
}

/// Every built-in static utility, group by group.
#[verifier::opaque]
pub open spec fn static_rules() -> Seq<(Seq<char>, Seq<(Seq<char>, Seq<char>)>)> {
    Seq::empty()
        + accessibility_rules()
        + pointer_events_rules()
        + visibility_rules()
        + position_rules()
        + isolation_rules()
        + float_rules()
        + clear_rules()
        + box_sizing_rules()
        + display_rules()
        + display_layout_rules()
        + table_layout_rules()
        + caption_side_rules()
        + border_collapse_rules()
        + user_select_rules()
        + resize_rules()
        + scroll_snap_align_rules()
        + scroll_snap_stop_rules()
        + list_style_position_rules()
        + list_style_type_rules()
        + list_image_rules()
        + appearance_rules()
        + columns_rules()
        + break_before_rules()
        + break_inside_rules()
        + break_after_rules()
        + grid_auto_flow_rules()
        + flex_rules()
        + place_content_rules()
        + place_items_rules()
        + align_content_rules()
        + align_items_rules()
        + justify_content_rules()
        + justify_items_rules()
        + object_fit_rules()
        + object_position_rules()
        + text_align_rules()
        + vertical_align_rules()
        + text_transform_rules()
        + text_italic_rules()
        + font_stretch_rules()
        + text_decoration_rules()
        + text_decoration_style_rules()
        + text_decoration_thickness_rules()
        + animate_rules()
        + filter_rules()
        + backdrop_filter_rules()
        + transform_origin_rules()
        + perspective_origin_rules()
        + perspective_rules()
        + translate_rules()
        + scale_rules()
        + cursor_rules()
        + touch_action_rules()
        + transform_rules()
        + transform_style_rules()
        + transform_box_rules()
        + backface_visibility_rules()
        + scroll_snap_rules()
        + touch_pan_rules()
        + space_rules()
        + overflow_rules()
        + overscroll_behavior_rules()
        + scroll_behavior_rules()
        + truncate_rules()
        + text_overflow_rules()
        + hyphens_rules()
        + white_space_rules()
        + text_wrap_rules()
        + word_break_rules()
        + border_style_rules()
        + background_attachment_rules()
        + background_repeat_rules()
        + background_image_rules()
}

/// Every built-in static utility, group by group.
pub fn get_all() -> (r: Vec<(String, Vec<Decl>)>)
    ensures
        static_table_wf(r@),
        r@.len() == 352,
        static_view(r@) == static_rules(),
{
    let mut r: Vec<(String, Vec<Decl>)> = Vec::new();
    proof {
        assert(static_view(r@) =~= Seq::<(Seq<char>, Seq<(Seq<char>, Seq<char>)>)>::empty());
    }
    chain(&mut r, accessibility());
    chain(&mut r, pointer_events());
    chain(&mut r, visibility());
    chain(&mut r, position());
    chain(&mut r, isolation());
    chain(&mut r, float());
    chain(&mut r, clear());
    chain(&mut r, box_sizing());
    chain(&mut r, display());
    chain(&mut r, display_layout());
    chain(&mut r, table_layout());
    chain(&mut r, caption_side());
    chain(&mut r, border_collapse());
    chain(&mut r, user_select());
    chain(&mut r, resize());
    chain(&mut r, scroll_snap_align());
    chain(&mut r, scroll_snap_stop());
    chain(&mut r, list_style_position());
    chain(&mut r, list_style_type());
    chain(&mut r, list_image());
    chain(&mut r, appearance());
    chain(&mut r, columns());
    chain(&mut r, break_before());
    chain(&mut r, break_inside());
    chain(&mut r, break_after());
    chain(&mut r, grid_auto_flow());
    chain(&mut r, flex());
    chain(&mut r, place_content());
    chain(&mut r, place_items());
    chain(&mut r, align_content());
    chain(&mut r, align_items());
    chain(&mut r, justify_content());
    chain(&mut r, justify_items());
    chain(&mut r, object_fit());
    chain(&mut r, object_position());
    chain(&mut r, text_align());
    chain(&mut r, vertical_align());
    chain(&mut r, text_transform());
    chain(&mut r, text_italic());
    chain(&mut r, font_stretch());
    chain(&mut r, text_decoration());
    chain(&mut r, text_decoration_style());
    chain(&mut r, text_decoration_thickness());
    chain(&mut r, animate());
    chain(&mut r, filter());
    chain(&mut r, backdrop_filter());
    chain(&mut r, transform_origin());
    chain(&mut r, perspective_origin());
    chain(&mut r, perspective());
    chain(&mut r, translate());
    chain(&mut r, scale());
    chain(&mut r, cursor());
    chain(&mut r, touch_action());
    chain(&mut r, transform());
    chain(&mut r, transform_style());
    chain(&mut r, transform_box());
    chain(&mut r, backface_visibility());
    chain(&mut r, scroll_snap());
    chain(&mut r, touch_pan());
    chain(&mut r, space());
    chain(&mut r, overflow());
    chain(&mut r, overscroll_behavior());
    chain(&mut r, scroll_behavior());
    chain(&mut r, truncate());
    chain(&mut r, text_overflow());
    chain(&mut r, hyphens());
    chain(&mut r, white_space());
    chain(&mut r, text_wrap());
    chain(&mut r, word_break());
    chain(&mut r, border_style());
    chain(&mut r, background_attachment());
    chain(&mut r, background_repeat());
    chain(&mut r, background_image());
    proof {
        reveal(static_rules);
    }
    r
}
/// The utility table after registering `rules` in order as static utilities.
pub open spec fn add_statics(
    m: Map<Seq<char>, Seq<UtilityValue>>,
    rules: Seq<(String, Vec<Decl>)>,
) -> Map<Seq<char>, Seq<UtilityValue>>
    decreases rules.len(),
{
    if rules.len() == 0 {
        m
    } else {
        let before = add_statics(m, rules.drop_last());
        let k = rules.last().0@;
        before.insert(
            k,
            (if before.contains_key(k) { before[k] } else { Seq::empty() }).push(UtilityValue::Static(rules.last().1)),
        )
    }
}

/// Registers each of `rules` as a static utility, in order.
pub fn load_static_rules(ctx: &mut Context, rules: Vec<(String, Vec<Decl>)>)
    requires
        old(ctx).wf(),
    ensures
        final(ctx).wf(),
        final(ctx).theme == old(ctx).theme,
        final(ctx).variants == old(ctx).variants,
        final(ctx).utilities.spec_map() == add_statics(old(ctx).utilities.spec_map(), rules@),
{
    let ghost start = ctx.utilities.spec_map();
    let ghost all = rules@;
    let mut rest = rules;
    let ghost mut taken: int = 0;
    proof {
        assert(all.take(0) =~= Seq::<(String, Vec<Decl>)>::empty());
        assert(all.skip(0) =~= all);
    }
    while rest.len() > 0
        invariant
            0 <= taken <= all.len(),
            rest@ == all.skip(taken),
            ctx.wf(),
            ctx.theme == old(ctx).theme,
            ctx.variants == old(ctx).variants,
            ctx.utilities.spec_map() == add_statics(start, all.take(taken)),
        decreases rest.len(),
    {
        let ghost old_rest = rest@;
        let (key, decls) = rest.remove(0);
        proof {
            assert(rest@ =~= all.skip(taken + 1));
            assert(all.take(taken + 1).drop_last() =~= all.take(taken));
            assert(all.take(taken + 1).last() == old_rest[0]);
        }
        ctx.add_static(key.as_str(), decls);
        proof {
            taken = taken + 1;
        }
    }
    proof {
        assert(all.take(taken) =~= all);
    }
}

/// The class names of a table of static utilities.
pub open spec fn static_keys(rules: Seq<(String, Vec<Decl>)>) -> Set<Seq<char>>
    decreases rules.len(),
{
    if rules.len() == 0 {
        Set::empty()
    } else {
        static_keys(rules.drop_last()).insert(rules.last().0@)
    }
}

/// Registering static utilities keeps every key registered before, and
/// registers each of theirs.
pub proof fn lemma_add_statics_dom(m: Map<Seq<char>, Seq<UtilityValue>>, rules: Seq<(String, Vec<Decl>)>)
    ensures
        add_statics(m, rules).dom() == m.dom().union(static_keys(rules)),
    decreases rules.len(),
{
    if rules.len() > 0 {
        lemma_add_statics_dom(m, rules.drop_last());
    }
    assert(add_statics(m, rules).dom() =~= m.dom().union(static_keys(rules)));
}

/// The class names of a table given as name-value pairs.
pub open spec fn view_keys(v: Seq<(Seq<char>, Seq<(Seq<char>, Seq<char>)>)>) -> Set<Seq<char>>
    decreases v.len(),
{
    if v.len() == 0 {
        Set::empty()
    } else {
        view_keys(v.drop_last()).insert(v.last().0)
    }
}

proof fn lemma_static_keys_view(rules: Seq<(String, Vec<Decl>)>)
    ensures
        static_keys(rules) == view_keys(static_view(rules)),
    decreases rules.len(),
{
    if rules.len() > 0 {
        lemma_static_keys_view(rules.drop_last());
        assert(static_view(rules).drop_last() =~= static_view(rules.drop_last()));
    } else {
        assert(static_view(rules) =~= Seq::<(Seq<char>, Seq<(Seq<char>, Seq<char>)>)>::empty());
    }
}

/// The abstract table after registering the static utilities `v` in order.
pub open spec fn add_statics_view(
    m: Map<Seq<char>, Seq<UtilityValueView>>,
    v: Seq<(Seq<char>, Seq<(Seq<char>, Seq<char>)>)>,
) -> Map<Seq<char>, Seq<UtilityValueView>>
    decreases v.len(),
{
    if v.len() == 0 {
        m
    } else {
        register_view(add_statics_view(m, v.drop_last()), v.last().0, UtilityValueView::Static(v.last().1))
    }
}

proof fn lemma_add_statics_view(m: Map<Seq<char>, Seq<UtilityValue>>, rules: Seq<(String, Vec<Decl>)>)
    ensures
        values_view(add_statics(m, rules)) == add_statics_view(values_view(m), static_view(rules)),
    decreases rules.len(),
{
    if rules.len() > 0 {
        lemma_add_statics_view(m, rules.drop_last());
        assert(static_view(rules).drop_last() =~= static_view(rules.drop_last()));
        lemma_values_view_register(add_statics(m, rules.drop_last()), rules.last().0@, UtilityValue::Static(rules.last().1));
    } else {
        assert(static_view(rules) =~= Seq::<(Seq<char>, Seq<(Seq<char>, Seq<char>)>)>::empty());
    }
}

/// Registers every built-in static utility: the class names of
/// [`static_rules`] join those registered before.
pub fn load_static_utilities(ctx: &mut Context)
    requires
        old(ctx).wf(),
    ensures
        final(ctx).wf(),
        final(ctx).theme == old(ctx).theme,
        final(ctx).variants == old(ctx).variants,
        final(ctx).utilities.spec_map().dom() == old(ctx).utilities.spec_map().dom().union(view_keys(static_rules())),
        values_view(final(ctx).utilities.spec_map()) == add_statics_view(values_view(old(ctx).utilities.spec_map()), static_rules()),
{
    let rules = get_all();
    let ghost all = rules@;
    load_static_rules(ctx, rules);
    proof {
        lemma_add_statics_dom(old(ctx).utilities.spec_map(), all);
        lemma_static_keys_view(all);
        lemma_add_statics_view(old(ctx).utilities.spec_map(), all);
    }
}

} // verus!
