//! Parameter lists and initializer lists, built from the fields of a record
//! with some names left out.

use crate::declaration::{field_views, Field, FieldView};
use crate::text::{is_listed, str_views, string_views};
use vstd::prelude::*;
use vstd::string::*;

verus! {

/// What stands between the name and the type of a parameter.
pub const TYPED_AS: &'static str = " : ";

/// The fields whose name is not one of `excluded`, in their order.
pub open spec fn retained(fields: Seq<FieldView>, excluded: Seq<Seq<char>>) -> Seq<FieldView> {
    fields.filter(|field: FieldView| !excluded.contains(field.name))
}

/// A field as a parameter of a function: its name, a colon, its type.
pub open spec fn parameter_text(field: FieldView) -> Seq<char> {
    field.name + TYPED_AS@ + field.ty
}

/// The parameters that stand for `fields`, in their order.
pub open spec fn parameter_texts(fields: Seq<FieldView>) -> Seq<Seq<char>> {
    fields.map_values(|field: FieldView| parameter_text(field))
}

/// The names of `fields`, in their order.
pub open spec fn field_names(fields: Seq<FieldView>) -> Seq<Seq<char>> {
    fields.map_values(|field: FieldView| field.name)
}

/// One step of [`retained`]: what the first `count + 1` fields keep, from
/// what the first `count` fields keep.
proof fn lemma_retained_step(fields: Seq<FieldView>, excluded: Seq<Seq<char>>, count: int)
    requires
        0 <= count < fields.len(),
    ensures
        excluded.contains(fields[count].name) ==> retained(fields.take(count + 1), excluded)
            == retained(fields.take(count), excluded),
        !excluded.contains(fields[count].name) ==> retained(fields.take(count + 1), excluded)
            == retained(fields.take(count), excluded).push(fields[count]),
{
    reveal(Seq::filter);
    assert(fields.take(count + 1).drop_last() =~= fields.take(count));
}

/// Builds the parameter list of a function from the fields of a record: one
/// parameter `name : type` for each field whose name is not in `excluded`,
/// in declaration order.
pub fn field_args(fields: &Vec<Field>, excluded: &[&str]) -> (args: Vec<String>)
    ensures
        string_views(args@) == parameter_texts(
            retained(field_views(fields@), str_views(excluded@)),
        ),
{
    let mut args: Vec<String> = Vec::new();
    let mut i: usize = 0;
    while i < fields.len()
        invariant
            i <= fields.len(),
            string_views(args@) == parameter_texts(
                retained(field_views(fields@).take(i as int), str_views(excluded@)),
            ),
        decreases fields.len() - i,
    {
        proof {
            lemma_retained_step(field_views(fields@), str_views(excluded@), i as int);
        }
        let ghost before = string_views(args@);
        if !is_listed(excluded, fields[i].name.as_str()) {
            let mut arg = fields[i].name.clone();
            arg.append(TYPED_AS);
            arg.append(fields[i].ty.as_str());
            args.push(arg);
            assert(string_views(args@) =~= before.push(
                parameter_text(field_views(fields@)[i as int]),
            ));
        }
        i += 1;
        assert(string_views(args@) =~= parameter_texts(
            retained(field_views(fields@).take(i as int), str_views(excluded@)),
        ));
    }
    assert(field_views(fields@).take(fields.len() as int) =~= field_views(fields@));
    args
}

/// Builds the initializer list that goes with [`field_args`]: the name of each
/// field whose name is not in `excluded`, in declaration order. Each name
/// initializes the field from the parameter of the same name, and passes
/// that parameter on where the list is used as the arguments of a call.
pub fn field_initializers(fields: &Vec<Field>, excluded: &[&str]) -> (initializers: Vec<String>)
    ensures
        string_views(initializers@) == field_names(
            retained(field_views(fields@), str_views(excluded@)),
        ),
{
    let mut initializers: Vec<String> = Vec::new();
    let mut i: usize = 0;
    while i < fields.len()
        invariant
            i <= fields.len(),
            string_views(initializers@) == field_names(
                retained(field_views(fields@).take(i as int), str_views(excluded@)),
            ),
        decreases fields.len() - i,
    {
        proof {
            lemma_retained_step(field_views(fields@), str_views(excluded@), i as int);
        }
        let ghost before = string_views(initializers@);
        if !is_listed(excluded, fields[i].name.as_str()) {
            initializers.push(fields[i].name.clone());
            assert(string_views(initializers@) =~= before.push(
                field_views(fields@)[i as int].name,
            ));
        }
        i += 1;
        assert(string_views(initializers@) =~= field_names(
            retained(field_views(fields@).take(i as int), str_views(excluded@)),
        ));
    }
    assert(field_views(fields@).take(fields.len() as int) =~= field_views(fields@));
    initializers
}

} // verus!
