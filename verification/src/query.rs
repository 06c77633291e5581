//! The query that is paginated: a query builder of sqlx for SQLite, and what
//! the library writes into it.

use vstd::prelude::*;
use vstd::string::StringExecFns;
use sqlx::QueryBuilder;
use sqlx::Sqlite;

verus! {

/// A query builder of sqlx for SQLite.
///
/// Verus does not look inside: what the builder holds is known by the four
/// names below, and through the methods of this type alone. The field is
/// public so that a caller can hand a builder in and run the query that the
/// library has written into it.
#[verifier::external_body]
pub struct BaseQuery<'q> {
    pub builder: QueryBuilder<'q, Sqlite>,
}

/// The SQL text that the builder holds.
pub uninterp spec fn query_text(query: &BaseQuery) -> Seq<char>;

/// The SQL text that the builder was made with, to which a reset returns it.
pub uninterp spec fn base_text(query: &BaseQuery) -> Seq<char>;

/// The arguments bound so far, in their order: `Some(v)` for one that is the
/// 64-bit integer `v`, `None` for any other.
pub uninterp spec fn bound_values(query: &BaseQuery) -> Seq<Option<i64>>;

/// Whether the builder takes text and arguments: it does until a query is
/// built from it, and again after a reset.
pub uninterp spec fn takes_pushes(query: &BaseQuery) -> bool;

/// The rows to ask the data source for: at most `limit` of them, after the
/// first `offset`, which make up the page `page`.
#[derive(Clone, Copy, Debug, PartialEq, Eq)]
pub struct PageWindow {
    pub page: usize,
    pub limit: i64,
    pub offset: i64,
}

/// A count as it is bound to a query, a 64-bit signed integer: itself where
/// it fits, else its low 64 bits.
pub open spec fn bound_integer(value: nat) -> i64 {
    value as i64
}

/// The window of the page `page` at `size` rows a page: `size` rows at most,
/// after the `page * size` rows of the pages before it.
pub open spec fn window_of(page: usize, size: nat) -> PageWindow {
    PageWindow {
        page,
        limit: bound_integer(size),
        offset: bound_integer((page as nat) * size),
    }
}

/// The query that counts the rows of the query `text`.
pub open spec fn count_text(text: Seq<char>) -> Seq<char> {
    "select count(*) from ("@ + text + ")"@
}

/// `fresh` holds the whole text of `query` and was made with it, so that a
/// reset returns it to that text. It holds no bound argument.
pub open spec fn rebased_on(query: &BaseQuery, fresh: &BaseQuery) -> bool {
    &&& query_text(fresh) == query_text(query)
    &&& base_text(fresh) == query_text(query)
    &&& bound_values(fresh) == Seq::<Option<i64>>::empty()
    &&& takes_pushes(fresh)
}

/// `after` is `before` cut down to its first text, with `window` written
/// behind it: a limit and an offset, both bound as arguments.
pub open spec fn windowed(before: &BaseQuery, after: &BaseQuery, window: PageWindow) -> bool {
    &&& query_text(after) == base_text(before) + " LIMIT ? OFFSET ?"@
    &&& base_text(after) == base_text(before)
    &&& bound_values(after) == seq![Some(window.limit), Some(window.offset)]
    &&& takes_pushes(after)
}

impl<'q> BaseQuery<'q> {
    /// `QueryBuilder::sql`, copied into a `String`: the text that the builder
    /// holds.
    #[verifier::external_body]
    fn sql(&self) -> (text: String)
        ensures
            text@ == query_text(self),
    {
        self.builder.sql().to_string()
    }

    /// `QueryBuilder::new` with a `String`: a builder that holds `text` and
    /// was made with it, with no argument bound, and that takes pushes.
    #[verifier::external_body]
    fn with_text(text: String) -> (fresh: BaseQuery<'q>)
        ensures
            query_text(&fresh) == text@,
            base_text(&fresh) == text@,
            bound_values(&fresh) == Seq::<Option<i64>>::empty(),
            takes_pushes(&fresh),
    {
        BaseQuery { builder: QueryBuilder::new(text) }
    }

    /// `QueryBuilder::reset`: the text is cut back to what the builder was
    /// made with, no argument stays bound, and the builder takes pushes.
    #[verifier::external_body]
    fn reset(&mut self)
        ensures
            query_text(final(self)) == base_text(old(self)),
            base_text(final(self)) == base_text(old(self)),
            bound_values(final(self)) == Seq::<Option<i64>>::empty(),
            takes_pushes(final(self)),
    {
        self.builder.reset();
    }

    /// `QueryBuilder::push` with a string: `sql` is written behind the text.
    /// It panics on a builder that a query was built from and that was not
    /// reset since.
    #[verifier::external_body]
    fn push(&mut self, sql: &str)
        requires
            takes_pushes(old(self)),
        ensures
            query_text(final(self)) == query_text(old(self)) + sql@,
            base_text(final(self)) == base_text(old(self)),
            bound_values(final(self)) == bound_values(old(self)),
            takes_pushes(final(self)),
    {
        self.builder.push(sql);
    }

    /// `QueryBuilder::push_bind` with an `i64`: `value` is bound behind the
    /// other arguments, and SQLite's placeholder, a question mark, is written
    /// behind the text. It panics as `push` does.
    #[verifier::external_body]
    fn push_bind(&mut self, value: i64)
        requires
            takes_pushes(old(self)),
        ensures
            query_text(final(self)) == query_text(old(self)).push('?'),
            base_text(final(self)) == base_text(old(self)),
            bound_values(final(self)) == bound_values(old(self)).push(Some(value)),
            takes_pushes(final(self)),
    {
        self.builder.push_bind(value);
    }

    /// A builder of its own for the whole text that this one holds: what was
    /// pushed behind the first text is part of the first text of the new
    /// builder, and stays through every reset. Bound arguments are not taken
    /// over.
    pub fn rebased(self) -> (fresh: BaseQuery<'q>)
        ensures
            rebased_on(&self, &fresh),
    {
        let text = self.sql();
        BaseQuery::with_text(text)
    }

    /// The query that counts the rows of this one, over the whole text that
    /// it holds. Bound arguments are not part of it.
    pub fn count_query(&self) -> (sql: String)
        ensures
            sql@ == count_text(query_text(self)),
    {
        let inner = self.sql();
        let mut sql = String::from_str("select count(*) from (");
        sql.append(inner.as_str());
        sql.append(")");
        sql
    }

    /// Writes `window` into the query, in place of what was written behind
    /// its first text before.
    pub(crate) fn set_window(&mut self, window: &PageWindow)
        ensures
            windowed(old(self), final(self), *window),
    {
        self.reset();
        self.push(" LIMIT ");
        self.push_bind(window.limit);
        self.push(" OFFSET ");
        self.push_bind(window.offset);
        proof {
            reveal_strlit(" LIMIT ");
            reveal_strlit(" OFFSET ");
            reveal_strlit(" LIMIT ? OFFSET ?");
            assert(query_text(self) =~= base_text(old(self)) + " LIMIT ? OFFSET ?"@);
            assert(bound_values(self) =~= seq![Some(window.limit), Some(window.offset)]);
        }
    }
}

/// Where the size and the offset fit into a 64-bit signed integer, the
/// window holds them as they are.
pub proof fn lemma_window_is_exact(page: usize, size: nat)
    requires
        size <= i64::MAX,
        page * size <= i64::MAX,
    ensures
        window_of(page, size).page == page,
        window_of(page, size).limit == size,
        window_of(page, size).offset == page * size,
{
}

/// The count `value` as it is bound to a query.
pub fn to_bound(value: usize) -> (bound: i64)
    ensures
        bound == bound_integer(value as nat),
        value <= i64::MAX ==> bound == value,
{
    #[verifier::truncate]
    (value as i64)
}

} // verus!
