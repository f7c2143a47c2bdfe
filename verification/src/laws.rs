//! What holds of every derivation, stated over the descriptions that the
//! contracts of the library use.

use crate::category::{category_of, MESSAGE_SUFFIX};
use crate::constructors::{
    convenience_constructor, default_role_initializer, excluded_names, full_constructor, BASE,
};
use crate::declaration::{
    distinct_names, names_field, role_field, role_name, DeclarationView, FieldView, Shape,
};
use crate::fields::{field_names, parameter_texts, retained, TYPED_AS};
use crate::interface::{interface_block, ROLE_FROM_FIELD, ROLE_FROM_KIND};
use crate::text::{ends_with, SPACE};
use vstd::prelude::*;

verus! {

/// A name that does not end in `Message` is its own category.
pub proof fn lemma_category_without_suffix(name: Seq<char>)
    requires
        !ends_with(name, MESSAGE_SUFFIX@),
    ensures
        category_of(name) == name,
{
}

/// A name made of a stem and `Message` has the stem as its category.
pub proof fn lemma_category_of_suffixed(stem: Seq<char>)
    ensures
        category_of(stem + MESSAGE_SUFFIX@) == stem,
{
    let name = stem + MESSAGE_SUFFIX@;
    assert(name.subrange(name.len() - MESSAGE_SUFFIX@.len(), name.len() as int)
        =~= MESSAGE_SUFFIX@);
    assert(name.subrange(0, name.len() - MESSAGE_SUFFIX@.len()) =~= stem);
}

/// The reserved names `role` and `base` differ, so `role` is never left out
/// of the parameters.
pub proof fn lemma_role_is_not_excluded()
    ensures
        role_name() != BASE@,
        !excluded_names().contains(role_name()),
{
    reveal_strlit("role");
    reveal_strlit("base");
    assert(role_name().len() == 4);
    assert(role_name()[0] == 'r');
    assert(BASE@[0] == 'b');
}

/// Every field that is kept was a field, in an earlier or the same place, and
/// its name is not excluded.
proof fn lemma_retained_from(fields: Seq<FieldView>, excluded: Seq<Seq<char>>)
    ensures
        retained(fields, excluded).len() <= fields.len(),
        forall|i: int|
            0 <= i < retained(fields, excluded).len() ==> {
                &&& fields.contains(#[trigger] retained(fields, excluded)[i])
                &&& !excluded.contains(retained(fields, excluded)[i].name)
            },
    decreases fields.len(),
{
    reveal(Seq::filter);
    if fields.len() > 0 {
        let front = fields.drop_last();
        lemma_retained_from(front, excluded);
        assert forall|i: int| 0 <= i < retained(fields, excluded).len() implies {
            &&& fields.contains(#[trigger] retained(fields, excluded)[i])
            &&& !excluded.contains(retained(fields, excluded)[i].name)
        } by {
            if i < retained(front, excluded).len() {
                let kept = retained(front, excluded)[i];
                assert(front.contains(kept));
                let j = choose|j: int| 0 <= j < front.len() && front[j] == kept;
                assert(fields[j] == kept);
            } else {
                assert(fields[fields.len() - 1] == retained(fields, excluded)[i]);
            }
        }
    }
}

/// Where no name is excluded, every field is kept.
proof fn lemma_retained_all(fields: Seq<FieldView>, excluded: Seq<Seq<char>>)
    requires
        forall|i: int| 0 <= i < fields.len() ==> !excluded.contains((#[trigger] fields[i]).name),
    ensures
        retained(fields, excluded) == fields,
    decreases fields.len(),
{
    reveal(Seq::filter);
    if fields.len() > 0 {
        let front = fields.drop_last();
        assert forall|i: int| 0 <= i < front.len() implies !excluded.contains(
            (#[trigger] front[i]).name,
        ) by {
            assert(front[i] == fields[i]);
        }
        lemma_retained_all(front, excluded);
        assert(front.push(fields.last()) =~= fields);
    } else {
        assert(retained(fields, excluded) =~= fields);
    }
}

/// Fields with distinct names keep distinct names when some are left out.
proof fn lemma_retained_distinct(fields: Seq<FieldView>, excluded: Seq<Seq<char>>)
    requires
        distinct_names(fields),
    ensures
        distinct_names(retained(fields, excluded)),
    decreases fields.len(),
{
    reveal(Seq::filter);
    if fields.len() > 0 {
        let front = fields.drop_last();
        assert(distinct_names(front)) by {
            assert forall|i: int, j: int| 0 <= i < j < front.len() implies (#[trigger] front[i]).name
                != (#[trigger] front[j]).name by {
                assert(front[i] == fields[i] && front[j] == fields[j]);
            }
        }
        lemma_retained_distinct(front, excluded);
        lemma_retained_from(front, excluded);
        let kept = retained(fields, excluded);
        let before = retained(front, excluded);
        assert forall|i: int, j: int| 0 <= i < j < kept.len() implies (#[trigger] kept[i]).name != (
        #[trigger] kept[j]).name by {
            if j < before.len() {
                assert(kept[i] == before[i] && kept[j] == before[j]);
            } else {
                assert(kept[j] == fields.last());
                assert(kept[i] == before[i]);
                assert(front.contains(before[i]));
                let at = choose|at: int| 0 <= at < front.len() && front[at] == before[i];
                assert(fields[at] == before[i]);
                assert(fields[fields.len() - 1] == fields.last());
            }
        }
    }
}

/// A name that is not excluded is the name of a kept field exactly if it is
/// the name of a field.
proof fn lemma_retained_names(fields: Seq<FieldView>, excluded: Seq<Seq<char>>, name: Seq<char>)
    requires
        !excluded.contains(name),
    ensures
        names_field(retained(fields, excluded), name) == names_field(fields, name),
{
    let kept = retained(fields, excluded);
    lemma_retained_from(fields, excluded);
    if names_field(kept, name) {
        let i = choose|i: int| 0 <= i < kept.len() && #[trigger] kept[i].name == name;
        assert(fields.contains(kept[i]));
        let j = choose|j: int| 0 <= j < fields.len() && fields[j] == kept[i];
        assert(fields[j].name == name);
    }
    if names_field(fields, name) {
        let j = choose|j: int| 0 <= j < fields.len() && #[trigger] fields[j].name == name;
        fields.lemma_filter_contains(|field: FieldView| !excluded.contains(field.name), j);
        assert(kept.contains(fields[j]));
        let i = choose|i: int| 0 <= i < kept.len() && kept[i] == fields[j];
        assert(kept[i].name == name);
    }
}

/// The role accessor follows the declaration: the interface of a record that
/// declares a field `role` returns that field, and the interface of every
/// other declaration returns the string form of the message kind that the
/// base record holds, which the constructors set to the category of the
/// type's name. The two accessors are not the same text.
pub proof fn lemma_role_accessor(declaration: DeclarationView)
    ensures
        ROLE_FROM_FIELD@ != ROLE_FROM_KIND@,
        declaration.has_role() ==> declaration.interface_text() == interface_block(
            declaration.name,
            ROLE_FROM_FIELD@,
        ),
        !declaration.has_role() ==> declaration.interface_text() == interface_block(
            declaration.name,
            ROLE_FROM_KIND@,
        ),
        declaration.message_kind() == category_of(declaration.name),
        declaration.constructors_text() == convenience_constructor(
            declaration.parameters(),
            declaration.forwarded(),
        ) + SPACE@ + full_constructor(
            declaration.parameters(),
            category_of(declaration.name),
            declaration.initializers(),
        ),
{
    reveal_strlit("fn role (& self) -> & str { & self . role }");
    reveal_strlit("fn role (& self) -> & str { self . base . message_type . as_str () }");
    assert(ROLE_FROM_FIELD@.len() != ROLE_FROM_KIND@.len());
}

/// `new` is `new_with_example` with `example` set to `false`: both take the
/// same extra parameters, `new` hands each of them on under its name and in
/// its place, after `content` and `false`, and `new_with_example` begins the
/// initializers of the record with those same names.
pub proof fn lemma_new_hands_its_parameters_on(declaration: DeclarationView)
    ensures
        declaration.parameters().len() == declaration.extra_fields().len(),
        declaration.forwarded().len() == declaration.extra_fields().len(),
        forall|i: int|
            0 <= i < declaration.extra_fields().len() ==> #[trigger] declaration.parameters()[i]
                == declaration.forwarded()[i] + TYPED_AS@ + declaration.extra_fields()[i].ty,
        declaration.initializers().take(declaration.forwarded().len() as int)
            == declaration.forwarded(),
        declaration.constructors_text() == convenience_constructor(
            declaration.parameters(),
            declaration.forwarded(),
        ) + SPACE@ + full_constructor(
            declaration.parameters(),
            declaration.message_kind(),
            declaration.initializers(),
        ),
{
    assert(declaration.initializers().take(declaration.forwarded().len() as int)
        =~= declaration.forwarded());
}

/// Where the record declares no `role`, the last initializer gives `role` the
/// string form of the very message kind that the base record is built with,
/// and the initializers before it are those of the extra fields.
pub proof fn lemma_default_role_is_the_stored_kind(declaration: DeclarationView)
    requires
        !declaration.has_role(),
    ensures
        declaration.initializers().len() == declaration.forwarded().len() + 1,
        declaration.initializers().last() == default_role_initializer(declaration.message_kind()),
        declaration.initializers().drop_last() == declaration.forwarded(),
        declaration.constructors_text() == convenience_constructor(
            declaration.parameters(),
            declaration.forwarded(),
        ) + SPACE@ + full_constructor(
            declaration.parameters(),
            declaration.message_kind(),
            declaration.forwarded().push(default_role_initializer(declaration.message_kind())),
        ),
{
    assert(declaration.initializers().drop_last() =~= declaration.forwarded());
}

/// The constructors keep the order of the fields: for a record made of the
/// extra fields `extras` and of `base` at any place among them, the
/// parameters and the initializers are those of `extras`, in the order of
/// `extras`; the default of `role` follows where none of `extras` is called
/// `role`.
pub proof fn lemma_constructors_keep_field_order(
    name: Seq<char>,
    extras: Seq<FieldView>,
    base: FieldView,
    at: int,
)
    requires
        0 <= at <= extras.len(),
        base.name == BASE@,
        forall|i: int| 0 <= i < extras.len() ==> (#[trigger] extras[i]).name != BASE@,
    ensures
        ({
            let declaration = DeclarationView {
                name,
                shape: Shape::NamedStruct,
                fields: extras.insert(at, base),
            };
            &&& declaration.extra_fields() == extras
            &&& declaration.parameters() == parameter_texts(extras)
            &&& declaration.forwarded() == field_names(extras)
            &&& declaration.has_role() == names_field(extras, role_name())
            &&& declaration.initializers() == if names_field(extras, role_name()) {
                field_names(extras)
            } else {
                field_names(extras).push(default_role_initializer(category_of(name)))
            }
        }),
{
    let excluded = excluded_names();
    let keep = |field: FieldView| !excluded.contains(field.name);
    let head = extras.subrange(0, at);
    let tail = extras.subrange(at, extras.len() as int);
    let fields = extras.insert(at, base);
    assert(excluded[0] == BASE@);
    assert(excluded.contains(base.name));
    assert forall|i: int| 0 <= i < head.len() implies !excluded.contains(
        (#[trigger] head[i]).name,
    ) by {
        assert(head[i] == extras[i]);
    }
    assert forall|i: int| 0 <= i < tail.len() implies !excluded.contains(
        (#[trigger] tail[i]).name,
    ) by {
        assert(tail[i] == extras[at + i]);
    }
    lemma_retained_all(head, excluded);
    lemma_retained_all(tail, excluded);
    assert(head.push(base).filter(keep) == head.filter(keep)) by {
        reveal(Seq::filter);
        assert(head.push(base).drop_last() =~= head);
    }
    Seq::filter_distributes_over_add(head.push(base), tail, keep);
    assert(head + tail =~= extras);
    assert(retained(fields, excluded) == extras);

    lemma_role_is_not_excluded();
    lemma_retained_names(fields, excluded, role_name());
}

/// `role` is initialized once: in a record with distinct field names that
/// declares `role`, exactly one parameter is called `role` and no default is
/// added to the initializers; in one that declares none, no parameter is
/// called `role`, and the default alone initializes it.
pub proof fn lemma_role_is_initialized_once(declaration: DeclarationView)
    requires
        declaration.is_record(),
        distinct_names(declaration.fields),
    ensures
        declaration.has_role() ==> {
            &&& declaration.initializers() == declaration.forwarded()
            &&& exists|i: int|
                0 <= i < declaration.forwarded().len() && #[trigger] declaration.forwarded()[i]
                    == role_name() && forall|j: int|
                    0 <= j < declaration.forwarded().len() && j != i
                        ==> #[trigger] declaration.forwarded()[j] != role_name()
        },
        !declaration.has_role() ==> forall|i: int|
            0 <= i < declaration.forwarded().len() ==> #[trigger] declaration.forwarded()[i]
                != role_name(),
{
    let kept = declaration.extra_fields();
    lemma_role_is_not_excluded();
    lemma_retained_names(declaration.fields, excluded_names(), role_name());
    lemma_retained_distinct(declaration.fields, excluded_names());
    if declaration.has_role() {
        let i = choose|i: int| 0 <= i < kept.len() && #[trigger] kept[i].name == role_name();
        assert(declaration.forwarded()[i] == role_name());
        assert forall|j: int| 0 <= j < declaration.forwarded().len() && j != i implies (
        #[trigger] declaration.forwarded()[j]) != role_name() by {
            assert(kept[j].name == declaration.forwarded()[j]);
            if j < i {
                assert(kept[j].name != kept[i].name);
            } else {
                assert(kept[i].name != kept[j].name);
            }
        }
    } else {
        assert forall|i: int| 0 <= i < declaration.forwarded().len() implies (
        #[trigger] declaration.forwarded()[i]) != role_name() by {
            assert(kept[i].name == declaration.forwarded()[i]);
        }
    }
}

/// A record with distinct field names and without `role` has `role` once
/// [`crate::declaration::add_role_field`] has appended it, and its names are
/// still distinct.
pub proof fn lemma_added_role_is_present(declaration: DeclarationView)
    requires
        declaration.is_record(),
        !declaration.has_role(),
        distinct_names(declaration.fields),
    ensures
        ({
            let added = DeclarationView {
                name: declaration.name,
                shape: declaration.shape,
                fields: declaration.fields.push(role_field()),
            };
            added.has_role() && distinct_names(added.fields)
        }),
{
    let fields = declaration.fields.push(role_field());
    assert(fields[fields.len() - 1].name == role_name());
}

} // verus!
