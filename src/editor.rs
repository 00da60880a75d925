use vstd::prelude::*;
use crate::error::OpenError;
use crate::path::{given, opt_view};

verus! {

/// The editor chosen from the three candidate variables, highest priority
/// first: the first one that is present and non-empty.
pub open spec fn chosen_editor(
    cargo_editor: Option<Seq<char>>,
    visual: Option<Seq<char>>,
    editor: Option<Seq<char>>,
) -> Option<Seq<char>> {
    if given(cargo_editor) {
        cargo_editor
    } else if given(visual) {
        visual
    } else if given(editor) {
        editor
    } else {
        None
    }
}

/// Selects the editor command from the values of `CARGO_EDITOR`, `VISUAL`
/// and `EDITOR`, in that order; an empty value counts as absent.
pub fn cargo_editor(cargo_editor_var: Option<&str>, visual: Option<&str>, editor: Option<&str>) -> (r:
    Result<String, OpenError>)
    ensures
        r is Ok <==> chosen_editor(opt_view(cargo_editor_var), opt_view(visual), opt_view(editor)) is Some,
        r matches Ok(cmd) ==> cmd@ == chosen_editor(
            opt_view(cargo_editor_var),
            opt_view(visual),
            opt_view(editor),
        )->0,
        r is Err ==> r == Err::<String, OpenError>(OpenError::NoEditorConfigured),
{
    if let Some(c) = cargo_editor_var {
        if !c.is_empty() {
            return Ok(String::from_str(c));
        }
    }
    if let Some(v) = visual {
        if !v.is_empty() {
            return Ok(String::from_str(v));
        }
    }
    if let Some(e) = editor {
        if !e.is_empty() {
            return Ok(String::from_str(e));
        }
    }
    Err(OpenError::NoEditorConfigured)
}

} // verus!
