//! The query-construction engine: clauses joined by operators, built up by
//! fluent calls and serialized to `query=<expression>`.
use vstd::prelude::*;

use crate::fields::{FieldSetter, RangeSetter};
use crate::text::{
    decimal, escape_spaces, push_char, push_decimal, push_quoted, quoted, spaces_escaped,
};

verus! {

/// How a clause joins the clause after it.
#[derive(Clone, Copy, Debug, PartialEq, Eq, Structural)]
pub enum Operator {
    Or,
    And,
    End,
}

impl Operator {
    /// The separator printed after a clause that carries this operator.
    pub open spec fn spec_text(self) -> Seq<char> {
        match self {
            Operator::Or => seq![' ', 'O', 'R', ' '],
            Operator::And => seq![' ', 'A', 'N', 'D', ' '],
            Operator::End => Seq::empty(),
        }
    }

    pub fn render(&self) -> (r: String)
        ensures
            r@ == self.spec_text(),
    {
        proof {
            reveal_strlit(" OR ");
            reveal_strlit(" AND ");
            reveal_strlit("");
        }
        match self {
            Operator::Or => String::from_str(" OR "),
            Operator::And => String::from_str(" AND "),
            Operator::End => String::from_str(""),
        }
    }
}

/// A raw value as it is written into a clause.
#[derive(Debug, Clone)]
pub struct QueryString(pub String);

impl QueryString {
    /// The value, wrapped in double quotes when it holds whitespace.
    pub fn render(&self) -> (r: String)
        ensures
            r@ == quoted(self.0@),
    {
        let mut r = String::new();
        push_quoted(&mut r, self.0.as_str());
        r
    }
}

/// A clause's text and the operator that follows it.
pub type Pair = (Seq<char>, Operator);

/// The text of a clause sequence: each clause followed by its operator's
/// separator, in order.
pub open spec fn serialized(q: Seq<Pair>) -> Seq<char>
    decreases q.len(),
{
    if q.len() == 0 {
        Seq::empty()
    } else {
        serialized(q.drop_last()) + q.last().0 + q.last().1.spec_text()
    }
}

/// The full query text of a clause sequence.
pub open spec fn built(q: Seq<Pair>) -> Seq<char> {
    "query="@ + serialized(q)
}

/// `field:value`, with the value quoted.
pub open spec fn field_clause(field: Seq<char>, value: Seq<char>) -> Seq<char> {
    field + seq![':'] + quoted(value)
}

/// `field:[from TO to]`, with both bounds quoted.
pub open spec fn range_clause(field: Seq<char>, from: Seq<char>, to: Seq<char>) -> Seq<char> {
    field + seq![':', '['] + quoted(from) + " TO "@ + quoted(to) + seq![']']
}

/// Writes `text` into the open (last) clause, keeping its operator; on an
/// empty sequence, starts one.
pub open spec fn written(q: Seq<Pair>, text: Seq<char>) -> Seq<Pair> {
    if q.len() == 0 {
        seq![(text, Operator::End)]
    } else {
        q.update(q.len() - 1, (text, q.last().1))
    }
}

/// Fixes the last clause's operator to `op` and opens a new empty clause.
pub open spec fn joined(q: Seq<Pair>, op: Operator) -> Seq<Pair> {
    let fixed = if q.len() == 0 {
        q
    } else {
        q.update(q.len() - 1, (q.last().0, op))
    };
    fixed.push((Seq::empty(), Operator::End))
}

/// Appends `~n` to the last clause's text; nothing on an empty sequence.
pub open spec fn with_proximity(q: Seq<Pair>, n: int) -> Seq<Pair> {
    if q.len() == 0 {
        q
    } else {
        q.update(q.len() - 1, (q.last().0 + seq!['~'] + decimal(n), q.last().1))
    }
}

/// Pushes the parenthesized text of `inner` as a new clause.
pub open spec fn with_nested(q: Seq<Pair>, inner: Seq<Pair>) -> Seq<Pair> {
    q.push((seq!['('] + serialized(inner) + seq![')'], Operator::End))
}

/// Builds one query. Each fluent call consumes the builder and hands it back
/// changed, so calls chain.
pub struct LuceneQueryBuilder {
    query: Vec<(String, Operator)>,
}

impl View for LuceneQueryBuilder {
    type V = Seq<Pair>;

    closed spec fn view(&self) -> Seq<Pair> {
        self.query@.map_values(|p: (String, Operator)| (p.0@, p.1))
    }
}

impl LuceneQueryBuilder {
    /// A builder with no clauses.
    pub fn new() -> (r: Self)
        ensures
            r@ == Seq::<Pair>::empty(),
    {
        let r = LuceneQueryBuilder { query: Vec::new() };
        assert(r@ =~= Seq::<Pair>::empty());
        r
    }

    /// Writes `text` into the open clause, or starts the first clause.
    fn write_clause(&mut self, text: String)
        ensures
            final(self)@ == written(old(self)@, text@),
    {
        match self.query.pop() {
            Some(last) => {
                self.query.push((text, last.1));
            },
            None => {
                self.query.push((text, Operator::End));
            },
        }
        assert(final(self)@ =~= written(old(self)@, text@));
    }

    /// Writes `field:value` into the open clause; a second call without a
    /// joining `or`/`and` in between replaces the first.
    pub fn set_field(self, field: &str, value: &str) -> (r: Self)
        ensures
            r@ == written(self@, field_clause(field@, value@)),
    {
        let mut b = self;
        let mut text = String::from_str(field);
        push_char(&mut text, ':');
        push_quoted(&mut text, value);
        assert(text@ =~= field_clause(field@, value@));
        b.write_clause(text);
        b
    }

    /// Writes `field:[from TO to]` into the open clause, by the same rule as
    /// [`LuceneQueryBuilder::set_field`].
    pub fn set_range(self, field: &str, from: &str, to: &str) -> (r: Self)
        ensures
            r@ == written(self@, range_clause(field@, from@, to@)),
    {
        let mut b = self;
        let mut text = String::from_str(field);
        text.append(":[");
        push_quoted(&mut text, from);
        text.append(" TO ");
        push_quoted(&mut text, to);
        push_char(&mut text, ']');
        proof {
            reveal_strlit(":[");
        }
        assert(text@ =~= range_clause(field@, from@, to@));
        b.write_clause(text);
        b
    }

    /// Calls a registered scalar entry point: [`LuceneQueryBuilder::set_field`]
    /// on the field it writes.
    pub fn apply(self, setter: &FieldSetter, value: &str) -> (r: Self)
        ensures
            r@ == written(self@, field_clause(setter@, value@)),
    {
        self.set_field(setter.field(), value)
    }

    /// Calls a registered range entry point: [`LuceneQueryBuilder::set_range`]
    /// on the field it writes.
    pub fn apply_range(self, setter: &RangeSetter, from: &str, to: &str) -> (r: Self)
        ensures
            r@ == written(self@, range_clause(setter@, from@, to@)),
    {
        self.set_range(setter.field(), from, to)
    }

    fn join(&mut self, op: Operator)
        ensures
            final(self)@ == joined(old(self)@, op),
    {
        match self.query.pop() {
            Some(last) => {
                self.query.push((last.0, op));
            },
            None => {},
        }
        self.query.push((String::new(), Operator::End));
        assert(final(self)@ =~= joined(old(self)@, op));
    }

    /// Joins the last clause to the next one with ` OR `, and opens the next.
    pub fn or(self) -> (r: Self)
        ensures
            r@ == joined(self@, Operator::Or),
    {
        let mut b = self;
        b.join(Operator::Or);
        b
    }

    /// Joins the last clause to the next one with ` AND `, and opens the next.
    pub fn and(self) -> (r: Self)
        ensures
            r@ == joined(self@, Operator::And),
    {
        let mut b = self;
        b.join(Operator::And);
        b
    }

    /// Appends `~n` to the last clause written; does nothing when there is
    /// none.
    pub fn proximity(self, n: i32) -> (r: Self)
        ensures
            r@ == with_proximity(self@, n as int),
    {
        let mut b = self;
        match b.query.pop() {
            Some(last) => {
                let (mut text, op) = last;
                let ghost before = text@;
                push_char(&mut text, '~');
                push_decimal(&mut text, n);
                assert(text@ =~= before + seq!['~'] + decimal(n as int));
                b.query.push((text, op));
            },
            None => {},
        }
        assert(b@ =~= with_proximity(self@, n as int));
        b
    }

    /// Adds the parenthesized text of `nested` as a new clause; it never
    /// overwrites the open one.
    pub fn expr(self, nested: &LuceneQueryBuilder) -> (r: Self)
        ensures
            r@ == with_nested(self@, nested@),
    {
        let mut b = self;
        let mut text = String::new();
        push_char(&mut text, '(');
        let inner = nested.to_string_query();
        text.append(inner.as_str());
        push_char(&mut text, ')');
        assert(text@ =~= seq!['('] + serialized(nested@) + seq![')']);
        b.query.push((text, Operator::End));
        assert(b@ =~= with_nested(self@, nested@));
        b
    }

    /// The clauses' text: each followed by its operator's separator.
    pub fn to_string_query(&self) -> (r: String)
        ensures
            r@ == serialized(self@),
    {
        let mut r = String::new();
        let mut i: usize = 0;
        while i < self.query.len()
            invariant
                i <= self.query.len(),
                r@ == serialized(self@.take(i as int)),
            decreases self.query.len() - i,
        {
            let ghost q = self@;
            assert(q.take(i + 1).drop_last() =~= q.take(i as int));
            r.append(self.query[i].0.as_str());
            let sep = self.query[i].1.render();
            r.append(sep.as_str());
            i = i + 1;
        }
        assert(self@.take(self.query.len() as int) =~= self@);
        r
    }

    /// `query=` followed by the clauses' text.
    pub fn build(&self) -> (r: String)
        ensures
            r@ == built(self@),
    {
        let mut r = String::from_str("query=");
        let body = self.to_string_query();
        r.append(body.as_str());
        r
    }

    /// [`LuceneQueryBuilder::build`], with every space written `%20`.
    pub fn build_escaped(&self) -> (r: String)
        ensures
            r@ == spaces_escaped(built(self@)),
    {
        let text = self.build();
        escape_spaces(text.as_str())
    }
}

} // verus!
