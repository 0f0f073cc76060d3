//! SurrealQL statements that the account store sends to the database.
use vstd::prelude::*;
use crate::text::{chars_of, decimal, decimal_text, push_char};

verus! {

/// The table that holds the accounts.
pub const USER_TABLE: &'static str = "user";

/// `SELECT * FROM user LIMIT {limit} START {start}`.
pub open spec fn page_query_text(limit: nat, start: nat) -> Seq<char> {
    "SELECT * FROM user LIMIT "@ + decimal(limit) + " START "@ + decimal(start)
}

/// How a character stands inside a quoted SurrealQL string: a backslash
/// or a single quote is preceded by a backslash.
pub open spec fn quoted_char(c: char) -> Seq<char> {
    if c == '\\' || c == '\'' {
        seq!['\\', c]
    } else {
        seq![c]
    }
}

/// The text of `value` inside a single-quoted SurrealQL string.
pub open spec fn quoted(value: Seq<char>) -> Seq<char>
    decreases value.len(),
{
    if value.len() == 0 {
        seq![]
    } else {
        quoted_char(value[0]) + quoted(value.drop_first())
    }
}

/// How a quoted SurrealQL string is read back: a backslash stands for the
/// character after it; any other character stands for itself.
pub open spec fn unquote(text: Seq<char>) -> Seq<char>
    decreases text.len(),
{
    if text.len() == 0 {
        seq![]
    } else if text[0] == '\\' && text.len() >= 2 {
        seq![text[1]] + unquote(text.skip(2))
    } else {
        seq![text[0]] + unquote(text.drop_first())
    }
}

/// A quoted value reads back as the value itself: every character of it,
/// ASCII or not, in order, and nothing else.
pub proof fn lemma_unquote_quoted(value: Seq<char>)
    ensures
        unquote(quoted(value)) == value,
    decreases value.len(),
{
    if value.len() > 0 {
        let c = value[0];
        let rest = value.drop_first();
        lemma_unquote_quoted(rest);
        let q = quoted(value);
        if c == '\\' || c == '\'' {
            assert(q == seq!['\\', c] + quoted(rest));
            assert(q.skip(2) =~= quoted(rest));
            assert(unquote(q) == seq![c] + unquote(quoted(rest)));
        } else {
            assert(q == seq![c] + quoted(rest));
            assert(q.drop_first() =~= quoted(rest));
            assert(unquote(q) == seq![c] + unquote(quoted(rest)));
        }
        assert(seq![c] + rest =~= value);
    } else {
        assert(quoted(value) =~= Seq::<char>::empty());
        assert(value =~= Seq::<char>::empty());
    }
}

/// Inside a quoted value, every single quote follows a backslash: the value
/// cannot end the string early.
pub proof fn lemma_quoted_quote_is_escaped(value: Seq<char>, i: int)
    requires
        0 <= i < quoted(value).len(),
        quoted(value)[i] == '\'',
    ensures
        i > 0 && quoted(value)[i - 1] == '\\',
    decreases value.len(),
{
    if value.len() > 0 {
        let c = value[0];
        let rest = value.drop_first();
        let head = quoted_char(c);
        assert(quoted(value) == head + quoted(rest));
        if i >= head.len() {
            lemma_quoted_quote_is_escaped(rest, i - head.len());
        }
    }
}

/// The lookup statement is its head, `SELECT * FROM user WHERE {field} = '`,
/// then text that reads back as exactly the value looked up, then the
/// closing quote.
pub proof fn lemma_lookup_reads_back_value(field: Seq<char>, value: Seq<char>)
    ensures
        ({
            let q = lookup_query_text(field, value);
            let head = "SELECT * FROM user WHERE "@ + field + " = '"@;
            &&& q.take(head.len() as int) == head
            &&& q.len() == head.len() + quoted(value).len() + 1
            &&& q.last() == '\''
            &&& unquote(q.subrange(head.len() as int, q.len() - 1)) == value
        }),
{
    reveal_strlit("'");
    let q = lookup_query_text(field, value);
    let head = "SELECT * FROM user WHERE "@ + field + " = '"@;
    assert(q == head + quoted(value) + "'"@);
    assert(q.take(head.len() as int) =~= head);
    assert(q.subrange(head.len() as int, q.len() - 1) =~= quoted(value));
    lemma_unquote_quoted(value);
}

/// `SELECT * FROM user WHERE {field} = '{value}'`, the value quoted.
pub open spec fn lookup_query_text(field: Seq<char>, value: Seq<char>) -> Seq<char> {
    "SELECT * FROM user WHERE "@ + field + " = '"@ + quoted(value) + "'"@
}

/// Appends `value` as it stands inside a single-quoted string.
fn push_quoted(out: &mut String, value: &str)
    ensures
        final(out)@ == old(out)@ + quoted(value@),
        unquote(final(out)@.skip(old(out)@.len() as int)) == value@,
{
    let cs = chars_of(value);
    let n = cs.len();
    let mut i: usize = 0;
    assert(cs@.skip(0) =~= value@);
    while i < n
        invariant
            i <= n,
            n == cs@.len(),
            cs@ == value@,
            out@ + quoted(cs@.skip(i as int)) == old(out)@ + quoted(value@),
        decreases n - i,
    {
        let c = cs[i];
        let ghost rest = cs@.skip(i as int);
        assert(rest[0] == c);
        assert(rest.drop_first() =~= cs@.skip(i + 1));
        if c == '\\' || c == '\'' {
            push_char(out, '\\');
        }
        push_char(out, c);
        assert(out@ + quoted(cs@.skip(i + 1)) =~= old(out)@ + quoted(value@));
        i = i + 1;
    }
    assert(cs@.skip(n as int) =~= Seq::<char>::empty());
    assert(out@ + Seq::<char>::empty() =~= out@);
    proof {
        lemma_unquote_quoted(value@);
        assert(out@.skip(old(out)@.len() as int) =~= quoted(value@));
    }
}

/// The statement that reads `limit` accounts from position `start` on.
pub fn users_page_query(limit: u64, start: u64) -> (q: String)
    ensures
        q@ == page_query_text(limit as nat, start as nat),
{
    let mut q = String::new();
    q.append("SELECT * FROM user LIMIT ");
    let l = decimal_text(limit);
    q.append(l.as_str());
    q.append(" START ");
    let s = decimal_text(start);
    q.append(s.as_str());
    q
}

/// The most accounts that the listing of all accounts gives.
pub const LISTING_LIMIT: u64 = 100;

/// The statement that lists the accounts: the first page of 100.
pub fn all_users_query() -> (q: String)
    ensures
        q@ == page_query_text(LISTING_LIMIT as nat, 0),
{
    users_page_query(LISTING_LIMIT, 0)
}

fn lookup_query(field: &str, value: &str) -> (q: String)
    ensures
        q@ == lookup_query_text(field@, value@),
{
    let mut q = String::new();
    q.append("SELECT * FROM user WHERE ");
    q.append(field);
    q.append(" = '");
    push_quoted(&mut q, value);
    q.append("'");
    q
}

/// The statement that reads the account whose record id is `user_id`; the
/// id reads back from between the quotes unchanged.
pub fn user_by_id_query(user_id: &str) -> (q: String)
    ensures
        q@ == lookup_query_text("id"@, user_id@),
        q@.last() == '\'',
        unquote(q@.subrange(("SELECT * FROM user WHERE "@ + "id"@ + " = '"@).len() as int, q@.len() - 1))
            == user_id@,
{
    proof {
        lemma_lookup_reads_back_value("id"@, user_id@);
    }
    lookup_query("id", user_id)
}

/// The statement that reads the account named `username`; the name reads
/// back from between the quotes unchanged.
pub fn user_by_username_query(username: &str) -> (q: String)
    ensures
        q@ == lookup_query_text("username"@, username@),
        q@.last() == '\'',
        unquote(q@.subrange(("SELECT * FROM user WHERE "@ + "username"@ + " = '"@).len() as int, q@.len() - 1))
            == username@,
{
    proof {
        lemma_lookup_reads_back_value("username"@, username@);
    }
    lookup_query("username", username)
}

} // verus!
