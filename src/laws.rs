//! Laws of the builder, stated over the models that its operations' own
//! contracts use.
use vstd::prelude::*;

use crate::fields::{
    claims_name_of, exposes, find_field, has_collision, range_name, FieldDescriptor, FieldKind,
};
use crate::query::{
    built, field_clause, joined, range_clause, serialized, with_nested, with_proximity, written,
    Operator, Pair,
};
use crate::text::{decimal, has_whitespace, quoted, spaces_escaped};

verus! {

proof fn lemma_serialized_push(q: Seq<Pair>, p: Pair)
    ensures
        serialized(q.push(p)) == serialized(q) + p.0 + p.1.spec_text(),
{
    assert(q.push(p).drop_last() =~= q);
}

/// A fresh builder builds `query=`.
pub proof fn law_empty_builder()
    ensures
        built(Seq::empty()) == "query="@,
{
    assert("query="@ + Seq::<char>::empty() =~= "query="@);
}

/// A value holding a space is written in double quotes; one with no
/// whitespace at all is written as it is.
pub proof fn law_quoting(f: Seq<char>, v: Seq<char>)
    ensures
        v.contains(' ') ==> built(written(Seq::empty(), field_clause(f, v))) == "query="@ + f
            + seq![':', '"'] + v + seq!['"'],
        !has_whitespace(v) ==> built(written(Seq::empty(), field_clause(f, v))) == "query="@ + f
            + seq![':'] + v,
{
    let q = written(Seq::<Pair>::empty(), field_clause(f, v));
    lemma_serialized_push(Seq::empty(), q[0]);
    assert(Seq::<Pair>::empty().push(q[0]) =~= q);
    if v.contains(' ') {
        let i = choose|i: int| 0 <= i < v.len() && v[i] == ' ';
        assert(has_whitespace(v) && v[i] == ' ');
        assert(built(q) =~= "query="@ + f + seq![':', '"'] + v + seq!['"']);
    }
    if !has_whitespace(v) {
        assert(built(q) =~= "query="@ + f + seq![':'] + v);
    }
}

/// Two values of one field joined by `or` build `query=F:a OR F:b`.
pub proof fn law_or_of_two_values(f: Seq<char>, a: Seq<char>, b: Seq<char>)
    ensures
        built(
            written(joined(written(Seq::empty(), field_clause(f, a)), Operator::Or), field_clause(f, b)),
        ) == "query="@ + f + seq![':'] + quoted(a) + " OR "@ + f + seq![':'] + quoted(b),
{
    let q0 = written(Seq::<Pair>::empty(), field_clause(f, a));
    let q = written(joined(q0, Operator::Or), field_clause(f, b));
    assert(q =~= Seq::<Pair>::empty().push((field_clause(f, a), Operator::Or)).push(
        (field_clause(f, b), Operator::End),
    ));
    lemma_serialized_push(Seq::empty(), (field_clause(f, a), Operator::Or));
    lemma_serialized_push(
        Seq::<Pair>::empty().push((field_clause(f, a), Operator::Or)),
        (field_clause(f, b), Operator::End),
    );
    reveal_strlit(" OR ");
    assert(built(q) =~= "query="@ + f + seq![':'] + quoted(a) + " OR "@ + f + seq![':'] + quoted(
        b,
    ));
}

/// A nested expression followed by `and` and a field builds
/// `({nested}) AND F:v` after whatever the outer builder held (nothing, for a
/// fresh one).
pub proof fn law_nested_expression(
    outer: Seq<Pair>,
    inner: Seq<Pair>,
    f: Seq<char>,
    v: Seq<char>,
)
    ensures
        built(written(joined(with_nested(outer, inner), Operator::And), field_clause(f, v)))
            == "query="@ + serialized(outer) + seq!['('] + serialized(inner) + seq![')']
            + " AND "@ + f + seq![':'] + quoted(v),
        outer.len() == 0 ==> built(
            written(joined(with_nested(outer, inner), Operator::And), field_clause(f, v)),
        ) == "query="@ + seq!['('] + serialized(inner) + seq![')'] + " AND "@ + f + seq![':']
            + quoted(v),
{
    let nested = seq!['('] + serialized(inner) + seq![')'];
    let q = written(joined(with_nested(outer, inner), Operator::And), field_clause(f, v));
    assert(q =~= outer.push((nested, Operator::And)).push((field_clause(f, v), Operator::End)));
    lemma_serialized_push(outer, (nested, Operator::And));
    lemma_serialized_push(outer.push((nested, Operator::And)), (field_clause(f, v), Operator::End));
    reveal_strlit(" AND ");
    assert(built(q) =~= "query="@ + serialized(outer) + nested + " AND "@ + f + seq![':']
        + quoted(v));
    if outer.len() == 0 {
        assert(serialized(outer) =~= Seq::empty());
        assert(built(q) =~= "query="@ + nested + " AND "@ + f + seq![':'] + quoted(v));
    }
}

/// `proximity(n)` after `F:a AND F:b` attaches to the clause written last:
/// `query=F:a AND F:b~n`.
pub proof fn law_proximity_on_last_clause(f: Seq<char>, a: Seq<char>, b: Seq<char>, n: int)
    ensures
        built(
            with_proximity(
                written(
                    joined(written(Seq::empty(), field_clause(f, a)), Operator::And),
                    field_clause(f, b),
                ),
                n,
            ),
        ) == "query="@ + f + seq![':'] + quoted(a) + " AND "@ + f + seq![':'] + quoted(b)
            + seq!['~'] + decimal(n),
        decimal(4) == seq!['4'],
{
    let last = field_clause(f, b) + seq!['~'] + decimal(n);
    let q = with_proximity(
        written(joined(written(Seq::empty(), field_clause(f, a)), Operator::And), field_clause(f, b)),
        n,
    );
    assert(q =~= Seq::<Pair>::empty().push((field_clause(f, a), Operator::And)).push(
        (last, Operator::End),
    ));
    lemma_serialized_push(Seq::empty(), (field_clause(f, a), Operator::And));
    lemma_serialized_push(
        Seq::<Pair>::empty().push((field_clause(f, a), Operator::And)),
        (last, Operator::End),
    );
    reveal_strlit(" AND ");
    assert(built(q) =~= "query="@ + f + seq![':'] + quoted(a) + " AND "@ + f + seq![':']
        + quoted(b) + seq!['~'] + decimal(n));
    assert(decimal(4) =~= seq!['4']);
}

/// A range on a fresh builder builds `query=F:[a TO b]`.
pub proof fn law_range(f: Seq<char>, a: Seq<char>, b: Seq<char>)
    ensures
        built(written(Seq::empty(), range_clause(f, a, b))) == "query="@ + f + seq![':', '[']
            + quoted(a) + " TO "@ + quoted(b) + seq![']'],
{
    let q = written(Seq::<Pair>::empty(), range_clause(f, a, b));
    assert(q =~= Seq::<Pair>::empty().push((range_clause(f, a, b), Operator::End)));
    lemma_serialized_push(Seq::empty(), (range_clause(f, a, b), Operator::End));
    assert(built(q) =~= "query="@ + f + seq![':', '['] + quoted(a) + " TO "@ + quoted(b) + seq![
        ']',
    ]);
}

/// A second field call with no `or`/`and` in between replaces the first:
/// `f(a).f(b)` leaves the clauses as `f(b)` alone does, and on a fresh builder
/// builds `query=F:b`.
pub proof fn law_overwrite(q: Seq<Pair>, f: Seq<char>, a: Seq<char>, b: Seq<char>)
    ensures
        written(written(q, field_clause(f, a)), field_clause(f, b)) == written(
            q,
            field_clause(f, b),
        ),
        built(written(written(Seq::empty(), field_clause(f, a)), field_clause(f, b))) == "query="@
            + f + seq![':'] + quoted(b),
{
    assert(written(written(q, field_clause(f, a)), field_clause(f, b)) =~= written(
        q,
        field_clause(f, b),
    ));
    let e = Seq::<Pair>::empty();
    assert(written(written(e, field_clause(f, a)), field_clause(f, b)) =~= e.push(
        (field_clause(f, b), Operator::End),
    ));
    lemma_serialized_push(e, (field_clause(f, b), Operator::End));
    assert(built(e.push((field_clause(f, b), Operator::End))) =~= "query="@ + f + seq![':']
        + quoted(b));
}

proof fn lemma_range_name_injective(a: Seq<char>, b: Seq<char>)
    requires
        range_name(a) == range_name(b),
    ensures
        a == b,
{
    assert(a =~= range_name(a).take(a.len() as int));
    assert(b =~= range_name(b).take(b.len() as int));
}

proof fn lemma_find_unique(ds: Seq<FieldDescriptor>, name: Seq<char>, range: bool, i: int)
    requires
        0 <= i < ds.len(),
        exposes(ds[i], name, range),
        forall|j: int| 0 <= j < ds.len() && j != i ==> !exposes(#[trigger] ds[j], name, range),
    ensures
        find_field(ds, name, range) == Some(ds[i].external_name@),
    decreases ds.len(),
{
    if i > 0 {
        let rest = ds.drop_first();
        assert forall|j: int| 0 <= j < rest.len() && j != i - 1 implies !exposes(
            #[trigger] rest[j],
            name,
            range,
        ) by {
            assert(rest[j] == ds[j + 1]);
        }
        lemma_find_unique(rest, name, range, i - 1);
    }
}

proof fn lemma_find_none(ds: Seq<FieldDescriptor>, name: Seq<char>, range: bool)
    requires
        forall|j: int| 0 <= j < ds.len() ==> !exposes(#[trigger] ds[j], name, range),
    ensures
        find_field(ds, name, range) is None,
    decreases ds.len(),
{
    if ds.len() > 0 {
        let rest = ds.drop_first();
        assert forall|j: int| 0 <= j < rest.len() implies !exposes(#[trigger] rest[j], name, range) by {
            assert(rest[j] == ds[j + 1]);
        }
        lemma_find_none(rest, name, range);
    }
}

/// In an accepted registration, a queryable field's method name `m` reaches
/// its external field name, whatever `m` is, and so does `m_range`.
pub proof fn law_renamed_field(ds: Seq<FieldDescriptor>, i: int)
    requires
        !has_collision(ds),
        0 <= i < ds.len(),
        ds[i].kind == FieldKind::Scalar,
    ensures
        find_field(ds, ds[i].method_name@, false) == Some(ds[i].external_name@),
        find_field(ds, range_name(ds[i].method_name@), true) == Some(ds[i].external_name@),
{
    let m = ds[i].method_name@;
    assert forall|j: int| 0 <= j < ds.len() && j != i implies !exposes(#[trigger] ds[j], m, false) by {
        if exposes(ds[j], m, false) {
            assert(claims_name_of(ds[i], ds[j]));
        }
    }
    lemma_find_unique(ds, m, false, i);
    assert forall|j: int| 0 <= j < ds.len() && j != i implies !exposes(
        #[trigger] ds[j],
        range_name(m),
        true,
    ) by {
        if exposes(ds[j], range_name(m), true) {
            lemma_range_name_injective(ds[j].method_name@, m);
            assert(claims_name_of(ds[i], ds[j]));
        }
    }
    lemma_find_unique(ds, range_name(m), true, i);
}

/// In an accepted registration, an ignored field's method name reaches no
/// entry point, neither as a scalar setter nor as a range setter.
pub proof fn law_ignored_field(ds: Seq<FieldDescriptor>, i: int)
    requires
        !has_collision(ds),
        0 <= i < ds.len(),
        ds[i].kind == FieldKind::Ignored,
    ensures
        find_field(ds, ds[i].method_name@, false) is None,
        find_field(ds, range_name(ds[i].method_name@), true) is None,
{
    let m = ds[i].method_name@;
    assert forall|j: int| 0 <= j < ds.len() implies !exposes(#[trigger] ds[j], m, false) by {
        if exposes(ds[j], m, false) {
            assert(claims_name_of(ds[i], ds[j]));
        }
    }
    lemma_find_none(ds, m, false);
    assert forall|j: int| 0 <= j < ds.len() implies !exposes(#[trigger] ds[j], range_name(m), true) by {
        if exposes(ds[j], range_name(m), true) {
            lemma_range_name_injective(ds[j].method_name@, m);
            assert(claims_name_of(ds[i], ds[j]));
        }
    }
    lemma_find_none(ds, range_name(m), true);
}

/// Escaping works piece by piece: escaping `a + b` escapes `a` and `b` in
/// turn, so the spaces of the ` OR ` and ` AND ` joiners are encoded where they
/// stand.
pub proof fn law_escape_concat(a: Seq<char>, b: Seq<char>)
    ensures
        spaces_escaped(a + b) == spaces_escaped(a) + spaces_escaped(b),
        spaces_escaped(" OR "@) == "%20OR%20"@,
        spaces_escaped(" AND "@) == "%20AND%20"@,
    decreases b.len(),
{
    if b.len() > 0 {
        assert((a + b).drop_last() =~= a + b.drop_last());
        law_escape_concat(a, b.drop_last());
        assert(spaces_escaped(a + b) =~= spaces_escaped(a) + spaces_escaped(b));
    } else {
        assert(a + b =~= a);
        assert(spaces_escaped(a) + spaces_escaped(b) =~= spaces_escaped(a));
    }
    reveal_strlit(" OR ");
    reveal_strlit("%20OR%20");
    reveal_strlit(" AND ");
    reveal_strlit("%20AND%20");
    assert(spaces_escaped(" OR "@) =~= "%20OR%20"@) by {
        reveal_with_fuel(spaces_escaped, 5);
    }
    assert(spaces_escaped(" AND "@) =~= "%20AND%20"@) by {
        reveal_with_fuel(spaces_escaped, 6);
    }
}

/// Escaped text holds no space, and a text without spaces is left as it is.
pub proof fn law_escape_removes_spaces(s: Seq<char>)
    ensures
        !spaces_escaped(s).contains(' '),
        !s.contains(' ') ==> spaces_escaped(s) == s,
    decreases s.len(),
{
    if s.len() > 0 {
        law_escape_removes_spaces(s.drop_last());
        let head = spaces_escaped(s.drop_last());
        let tail = if s.last() == ' ' {
            seq!['%', '2', '0']
        } else {
            seq![s.last()]
        };
        assert(spaces_escaped(s) == head + tail);
        assert forall|k: int| 0 <= k < (head + tail).len() implies (head + tail)[k] != ' ' by {
            if k < head.len() {
                assert((head + tail)[k] == head[k]);
            } else {
                assert((head + tail)[k] == tail[k - head.len()]);
            }
        }
        if !s.contains(' ') {
            assert(!s.drop_last().contains(' ')) by {
                if s.drop_last().contains(' ') {
                    let k = choose|k: int| 0 <= k < s.drop_last().len() && s.drop_last()[k] == ' ';
                    assert(s[k] == ' ');
                }
            }
            assert(s[s.len() - 1] != ' ');
            assert(spaces_escaped(s) =~= s);
        }
    } else {
        assert(spaces_escaped(s) =~= s);
    }
}

} // verus!
