use vstd::prelude::*;
use vstd::string::StringExecFns;

use crate::parser::{Field, Struct};

verus! {

/// The initializer clause emitted for one field: the field's own name,
/// followed by a call of the default constructor.
pub open spec fn initializer_clause(f: Field) -> Seq<char> {
    f.name@ + ": Default::default()"@
}

/// The initializer clauses emitted for a field list: one clause per field,
/// in field order.
pub open spec fn initializer_clauses(fields: Seq<Field>) -> Seq<Seq<char>> {
    fields.map_values(|f: Field| initializer_clause(f))
}

/// The given parts joined by the given separator: nothing for no parts,
/// and the separator between each adjacent pair otherwise.
pub open spec fn join_with_separator(parts: Seq<Seq<char>>, separator: Seq<char>) -> Seq<char>
    decreases parts.len(),
{
    if parts.len() == 0 {
        Seq::empty()
    } else if parts.len() == 1 {
        parts[0]
    } else {
        parts[0] + separator + join_with_separator(parts.drop_first(), separator)
    }
}

/// The full initializer list emitted for a field list.
pub open spec fn initializer_list(fields: Seq<Field>) -> Seq<char> {
    join_with_separator(initializer_clauses(fields), "\n,"@)
}

/// The whole text the emitter produces for a record: a generated function
/// that constructs an instance of the record with every field set by a
/// default-constructor call.
pub open spec fn emitted_text(name: Seq<char>, fields: Seq<Field>) -> Seq<char> {
    "#[automatically_derived] impl crate::OurDefault for "@ + name
        + " { fn our_default() -> Self { "@ + name + " { "@ + initializer_list(fields)
        + " } } }"@
}

/// Appending one more field to a list extends its joined initializer list
/// by that field's clause, behind a separator unless the list was empty.
proof fn lemma_initializer_list_push(fields: Seq<Field>, f: Field)
    ensures
        fields.len() == 0 ==> initializer_list(fields.push(f)) == initializer_clause(f),
        fields.len() > 0 ==> initializer_list(fields.push(f)) == initializer_list(fields) + "\n,"@
            + initializer_clause(f),
    decreases fields.len(),
{
    let pushed = initializer_clauses(fields.push(f));
    assert(pushed =~= initializer_clauses(fields).push(initializer_clause(f)));
    if fields.len() == 0 {
        assert(initializer_list(fields.push(f)) == pushed[0]);
    } else if fields.len() == 1 {
        assert(pushed.drop_first() =~= seq![initializer_clause(f)]);
        assert(join_with_separator(seq![initializer_clause(f)], "\n,"@) == initializer_clause(f));
        assert(initializer_list(fields.push(f)) == pushed[0] + "\n,"@ + initializer_clause(f));
        assert(initializer_list(fields) == initializer_clauses(fields)[0]);
        assert(pushed[0] == initializer_clauses(fields)[0]);
    } else {
        lemma_initializer_list_push(fields.drop_first(), f);
        assert(fields.drop_first().push(f) =~= fields.push(f).drop_first());
        assert(pushed.drop_first() =~= initializer_clauses(fields.drop_first().push(f)));
        assert(initializer_list(fields.drop_first().push(f)) == initializer_list(
            fields.drop_first(),
        ) + "\n,"@ + initializer_clause(f));
        assert(fields.push(f)[0] == fields[0]);
        assert(initializer_clauses(fields).drop_first() =~= initializer_clauses(
            fields.drop_first(),
        ));
        assert(initializer_list(fields) == initializer_clause(fields[0]) + "\n,"@
            + initializer_list(fields.drop_first()));
        assert(initializer_list(fields.push(f)) == initializer_clause(fields[0]) + "\n,"@
            + (initializer_list(fields.drop_first()) + "\n,"@ + initializer_clause(f)));
        assert(initializer_clause(fields[0]) + "\n,"@ + (initializer_list(fields.drop_first())
            + "\n,"@ + initializer_clause(f)) =~= (initializer_clause(fields[0]) + "\n,"@
            + initializer_list(fields.drop_first())) + "\n,"@ + initializer_clause(f));
    }
}

/// Every parsed field list is emitted with exactly one initializer clause
/// per field: clause `i` is built from field `i`'s own name, so the
/// initializer list keeps the declaration's field order, whatever that
/// order is; and a record with no fields is emitted with an empty
/// initializer list.
pub proof fn lemma_one_initializer_per_field(fields: Seq<Field>)
    ensures
        initializer_clauses(fields).len() == fields.len(),
        forall|i: int|
            0 <= i < fields.len() ==> #[trigger] initializer_clauses(fields)[i]
                == initializer_clause(fields[i]),
        forall|i: int|
            0 <= i < fields.len() ==> (#[trigger] initializer_clauses(fields)[i]).take(
                fields[i].name@.len() as int,
            ) == fields[i].name@,
        fields.len() == 0 ==> initializer_list(fields) == Seq::<char>::empty(),
{
    assert forall|i: int| 0 <= i < fields.len() implies (#[trigger] initializer_clauses(
        fields,
    )[i]).take(fields[i].name@.len() as int) == fields[i].name@ by {
        assert(initializer_clause(fields[i]).take(fields[i].name@.len() as int)
            =~= fields[i].name@);
    }
}

/// Produces the generated-code text for a parsed record: the emitter of
/// the parse-and-emit pipeline.
pub fn emit_default_impl(s: &Struct) -> (r: String)
    ensures
        r@ == emitted_text(s.name@, s.fields@),
{
    // Map each field to the form `field_name: Default::default()`, joined
    // by the separator.
    let mut initializers = String::new();
    let mut i: usize = 0;
    while i < s.fields.len()
        invariant
            i <= s.fields.len(),
            initializers@ == initializer_list(s.fields@.take(i as int)),
        decreases s.fields.len() - i,
    {
        let ghost prev = s.fields@.take(i as int);
        if i > 0 {
            initializers.append("\n,");
        }
        initializers.append(s.fields[i].name.as_str());
        initializers.append(": Default::default()");
        proof {
            lemma_initializer_list_push(prev, s.fields@[i as int]);
            assert(prev.push(s.fields@[i as int]) =~= s.fields@.take(i as int + 1));
            if i > 0 {
                assert(initializer_list(prev) + "\n,"@ + initializer_clause(s.fields@[i as int])
                    =~= initializer_list(prev) + "\n,"@ + (s.fields@[i as int].name@
                    + ": Default::default()"@));
            } else {
                assert(initializer_clause(s.fields@[i as int]) =~= Seq::<char>::empty()
                    + s.fields@[i as int].name@ + ": Default::default()"@);
            }
        }
        i = i + 1;
    }
    proof {
        assert(s.fields@.take(s.fields@.len() as int) =~= s.fields@);
    }
    let mut text = String::new();
    text.append("#[automatically_derived] impl crate::OurDefault for ");
    text.append(s.name.as_str());
    text.append(" { fn our_default() -> Self { ");
    text.append(s.name.as_str());
    text.append(" { ");
    text.append(initializers.as_str());
    text.append(" } } }");
    proof {
        assert(text@ =~= emitted_text(s.name@, s.fields@));
    }
    text
}

} // verus!
