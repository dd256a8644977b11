//! The `anytype template` commands.
use vstd::prelude::*;
use crate::api::Template;
use crate::text::owned;
use crate::value::AnytypeValue;

verus! {

/// Command: anytype template list
pub struct TemplateList;

/// Whether `v` is the template `t`, in the given space and type.
pub open spec fn template_value_of(v: AnytypeValue, t: Template, space_id: Seq<char>, type_id: Seq<char>) -> bool {
    v matches AnytypeValue::Template { id, name, markdown, snippet, space_id: s, type_id: ty }
        && id == t.id && name == t.name && markdown == t.markdown && snippet == t.snippet && s@ == space_id
        && ty@ == type_id
}

impl TemplateList {
    /// The name the shell calls the command by.
    pub fn name(&self) -> (r: &'static str)
        ensures
            r@ == "anytype template list"@,
    {
        "anytype template list"
    }

    /// The description the shell shows for the command.
    pub fn description(&self) -> (r: &'static str)
        ensures
            r@ == "List templates for a specific type in a space"@,
    {
        "List templates for a specific type in a space"
    }

    /// The templates listed, each in the space and type it was listed for.
    pub fn values(templates: Vec<Template>, space_id: &str, type_id: &str) -> (r: Vec<AnytypeValue>)
        ensures
            r@.len() == templates@.len(),
            forall|i: int| 0 <= i < templates@.len()
                ==> template_value_of(#[trigger] r@[i], templates@[i], space_id@, type_id@),
    {
        let mut out: Vec<AnytypeValue> = Vec::new();
        let mut rest = templates;
        let ghost all = rest@;
        while rest.len() > 0
            invariant
                out@.len() + rest@.len() == all.len(),
                rest@ == all.subrange(out@.len() as int, all.len() as int),
                forall|i: int| 0 <= i < out@.len() ==> template_value_of(#[trigger] out@[i], all[i], space_id@, type_id@),
            decreases rest.len(),
        {
            let t = rest.remove(0);
            proof {
                assert(t == all[out@.len() as int]);
            }
            out.push(AnytypeValue::from_template(t, owned(space_id), owned(type_id)));
        }
        out
    }
}

} // verus!
