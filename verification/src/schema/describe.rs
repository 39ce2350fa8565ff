//! The one-line text of a resolved field type, as it is left in generated
//! code for a field that the codec does not cover yet.

use vstd::prelude::*;
use vstd::string::StringExecFns;
use crate::schema::field_type::{
    ArrayCount, CountModel, FieldSwitch, FieldType, SwitchModel, TypeModel, VoidableModel,
    VoidableType, cases_model, fields_model, type_label,
};
use crate::schema::render::{debug_str, quoted, wrap, wrapped};
use crate::text::{decimal_text, push_decimal};

verus! {

/// The text of a field type: the name of its variant, then what it holds,
/// fields by name in braces and other contents in parentheses.
pub open spec fn type_text(ty: TypeModel) -> Seq<char>
    decreases ty, 0nat,
{
    match ty {
        TypeModel::Buffer { count_ty } => "Buffer { count_ty: "@ + type_text(*count_ty) + " }"@,
        TypeModel::Array { count, elem_ty } => "Array { count: "@ + count_text(count)
            + ", elem_ty: "@ + type_text(*elem_ty) + " }"@,
        TypeModel::Switch(switch) => wrapped("Switch"@, switch_text(switch)),
        TypeModel::Option(inner) => wrapped("Option"@, type_text(*inner)),
        TypeModel::Container(fields) => "Container(["@ + fields_text(fields, fields.len())
            + "])"@,
        _ => type_label(ty),
    }
}

/// The text of a switch put together from the texts of its parts: its
/// name, then its fields by name in braces.
pub open spec fn switch_parts(shown_field: Seq<char>, cases: Seq<char>, default: Seq<char>) -> Seq<
    char,
> {
    "FieldSwitch { predicate_field: "@ + shown_field + ", cases: ["@ + cases + "], default: "@
        + default + " }"@
}

/// The text of a switch.
pub open spec fn switch_text(switch: SwitchModel) -> Seq<char>
    decreases switch, 0nat,
{
    switch_parts(
        quoted(switch.predicate_field),
        cases_text(switch.cases, switch.cases.len()),
        match switch.default {
            Some(v) => wrapped("Some"@, voidable_text(v)),
            None => "None"@,
        },
    )
}

/// The text of one case of a switch or one field of a container: a pair
/// of its name as it is shown and the text of what it holds.
pub open spec fn pair_text(shown_name: Seq<char>, held: Seq<char>) -> Seq<char> {
    "("@ + shown_name + ", "@ + held + ")"@
}

/// The text of an array count.
pub open spec fn count_text(count: CountModel) -> Seq<char>
    decreases count, 0nat,
{
    match count {
        CountModel::Prefixed(ty) => wrapped("Prefixed"@, type_text(*ty)),
        CountModel::Constant(n) => wrapped("Constant"@, decimal_text(n)),
        CountModel::Field(name) => wrapped("Field"@, quoted(name)),
    }
}

/// The text of a voidable type.
pub open spec fn voidable_text(ty: VoidableModel) -> Seq<char>
    decreases ty, 0nat,
{
    match ty {
        VoidableModel::Void => "Void"@,
        VoidableModel::Present(inner) => wrapped("Present"@, type_text(*inner)),
    }
}

/// The texts of the first `n` cases of a switch, each as a pair, separated
/// by a comma and a space.
pub open spec fn cases_text(cases: Seq<(Seq<char>, VoidableModel)>, n: nat) -> Seq<char>
    decreases cases, n,
{
    if n == 0 || n > cases.len() {
        Seq::empty()
    } else if n == 1 {
        pair_text(quoted(cases[0].0), voidable_text(cases[0].1))
    } else {
        cases_text(cases, (n - 1) as nat) + ", "@ + pair_text(
            quoted(cases[n - 1].0),
            voidable_text(cases[n - 1].1),
        )
    }
}

/// The texts of the first `n` fields of a container, each as a pair,
/// separated by a comma and a space.
pub open spec fn fields_text(fields: Seq<(Seq<char>, TypeModel)>, n: nat) -> Seq<char>
    decreases fields, n,
{
    if n == 0 || n > fields.len() {
        Seq::empty()
    } else if n == 1 {
        pair_text(quoted(fields[0].0), type_text(fields[0].1))
    } else {
        fields_text(fields, (n - 1) as nat) + ", "@ + pair_text(
            quoted(fields[n - 1].0),
            type_text(fields[n - 1].1),
        )
    }
}

impl VoidableType {
    /// The text of the type.
    pub fn debug_text(&self) -> (text: String)
        ensures
            text@ == voidable_text(self@),
        decreases self,
    {
        match self {
            VoidableType::Void => "Void".to_owned(),
            VoidableType::Present(inner) => {
                let shown = inner.debug_text();
                wrap("Present", shown.as_str())
            },
        }
    }
}

impl ArrayCount {
    /// The text of the count.
    pub fn debug_text(&self) -> (text: String)
        ensures
            text@ == count_text(self@),
        decreases self,
    {
        match self {
            ArrayCount::Prefixed(ty) => {
                let shown = ty.debug_text();
                wrap("Prefixed", shown.as_str())
            },
            ArrayCount::Constant(n) => {
                let mut shown = String::new();
                push_decimal(&mut shown, *n as u64);
                assert(shown@ =~= decimal_text(*n as nat));
                wrap("Constant", shown.as_str())
            },
            ArrayCount::Field(name) => {
                let shown = debug_str(name.as_str());
                wrap("Field", shown.as_str())
            },
        }
    }
}

/// Shows one case of a switch or one field of a container, given its name
/// as it is shown and the text of what it holds.
pub fn pair(shown_name: &str, held: &str) -> (text: String)
    ensures
        text@ == pair_text(shown_name@, held@),
{
    "(".to_owned().concat(shown_name).concat(", ").concat(held).concat(")")
}

/// Shows a switch, given the texts of its parts.
pub fn switch_shown(shown_field: &str, cases: &str, default: &str) -> (text: String)
    ensures
        text@ == switch_parts(shown_field@, cases@, default@),
{
    "FieldSwitch { predicate_field: ".to_owned().concat(shown_field).concat(", cases: [").concat(
        cases,
    ).concat("], default: ").concat(default).concat(" }")
}

impl FieldSwitch {
    /// The model of the switch.
    pub open spec fn model(&self) -> SwitchModel {
        SwitchModel {
            predicate_field: self.predicate_field@,
            cases: cases_model(self.cases@),
            default: match self.default {
                Some(v) => Some(v@),
                None => None,
            },
        }
    }

    /// The text of the switch.
    pub fn debug_text(&self) -> (text: String)
        ensures
            text@ == switch_text(self.model()),
        decreases self,
    {
        let name = debug_str(self.predicate_field.as_str());
        let mut cases = String::new();
        let ghost model = cases_model(self.cases@);
        let mut i: usize = 0;
        assert(cases@ =~= cases_text(model, 0));
        while i < self.cases.len()
            invariant
                i <= self.cases.len(),
                model == cases_model(self.cases@),
                cases@ == cases_text(model, i as nat),
            decreases self.cases.len() - i,
        {
            proof {
                assert(decreases_to!(*self => self.cases@[i as int].1));
                assert(model[i as int] == (self.cases@[i as int].0@, self.cases@[i as int].1@));
            }
            let held = self.cases[i].1.debug_text();
            let key = debug_str(self.cases[i].0.as_str());
            let shown = pair(key.as_str(), held.as_str());
            if i > 0 {
                cases.append(", ");
            }
            cases.append(shown.as_str());
            i = i + 1;
            assert(cases@ =~= cases_text(model, i as nat));
        }
        let default = match &self.default {
            Some(v) => {
                let shown = v.debug_text();
                wrap("Some", shown.as_str())
            },
            None => "None".to_owned(),
        };
        switch_shown(name.as_str(), cases.as_str(), default.as_str())
    }
}

impl FieldType {
    /// The text of the field type, on one line.
    pub fn debug_text(&self) -> (text: String)
        ensures
            text@ == type_text(self@),
        decreases self,
    {
        match self {
            FieldType::Buffer { count_ty } => {
                let shown = count_ty.debug_text();
                "Buffer { count_ty: ".to_owned().concat(shown.as_str()).concat(" }")
            },
            FieldType::Array { count, elem_ty } => {
                let counted = count.debug_text();
                let shown = elem_ty.debug_text();
                "Array { count: ".to_owned().concat(counted.as_str()).concat(", elem_ty: ").concat(
                    shown.as_str(),
                ).concat(" }")
            },
            FieldType::Switch(switch) => {
                let shown = switch.debug_text();
                proof {
                    let model = self@->Switch_0;
                    assert(model.cases =~= cases_model(switch.cases@));
                    assert(model == switch.model());
                }
                wrap("Switch", shown.as_str())
            },
            FieldType::Option(inner) => {
                let shown = inner.debug_text();
                wrap("Option", shown.as_str())
            },
            FieldType::Container(fields) => {
                let mut out = "Container([".to_owned();
                let ghost model = fields_model(fields@);
                assert(self@->Container_0 =~= model);
                let mut i: usize = 0;
                assert(out@ =~= "Container(["@ + fields_text(model, 0));
                while i < fields.len()
                    invariant
                        i <= fields.len(),
                        *self == FieldType::Container(*fields),
                        model == fields_model(fields@),
                        out@ == "Container(["@ + fields_text(model, i as nat),
                    decreases fields.len() - i,
                {
                    proof {
                        assert(decreases_to!(*self => (self->Container_0)@[i as int].1));
                        assert(model[i as int] == (fields@[i as int].0@, fields@[i as int].1@));
                    }
                    let held = fields[i].1.debug_text();
                    let key = debug_str(fields[i].0.as_str());
                    let shown = pair(key.as_str(), held.as_str());
                    if i > 0 {
                        out.append(", ");
                    }
                    out.append(shown.as_str());
                    i = i + 1;
                    assert(out@ =~= "Container(["@ + fields_text(model, i as nat));
                }
                out.append("])");
                out
            },
            _ => self.name(),
        }
    }
}

} // verus!
