//! The SQL text that a cursor session sends: its cursor's name and the
//! `DECLARE`, `FETCH` and `CLOSE` statements.
use vstd::prelude::*;
use vstd::string::StringExecFns;

verus! {

/// The character that writes the decimal digit `d`.
pub open spec fn digit_char(d: nat) -> char {
    if d == 0 {
        '0'
    } else if d == 1 {
        '1'
    } else if d == 2 {
        '2'
    } else if d == 3 {
        '3'
    } else if d == 4 {
        '4'
    } else if d == 5 {
        '5'
    } else if d == 6 {
        '6'
    } else if d == 7 {
        '7'
    } else if d == 8 {
        '8'
    } else {
        '9'
    }
}

/// `n` written in base ten, without leading zeros.
pub open spec fn decimal(n: nat) -> Seq<char>
    decreases n,
{
    if n < 10 {
        seq![digit_char(n)]
    } else {
        decimal(n / 10).push(digit_char(n % 10))
    }
}

fn digit_str(d: u64) -> (r: &'static str)
    requires
        d < 10,
    ensures
        r@ == seq![digit_char(d as nat)],
{
    proof {
        reveal_strlit("0");
        reveal_strlit("1");
        reveal_strlit("2");
        reveal_strlit("3");
        reveal_strlit("4");
        reveal_strlit("5");
        reveal_strlit("6");
        reveal_strlit("7");
        reveal_strlit("8");
        reveal_strlit("9");
    }
    if d == 0 {
        "0"
    } else if d == 1 {
        "1"
    } else if d == 2 {
        "2"
    } else if d == 3 {
        "3"
    } else if d == 4 {
        "4"
    } else if d == 5 {
        "5"
    } else if d == 6 {
        "6"
    } else if d == 7 {
        "7"
    } else if d == 8 {
        "8"
    } else {
        "9"
    }
}

/// Appends `n` in base ten to `out`.
pub fn push_decimal(out: &mut String, n: u64)
    ensures
        final(out)@ == old(out)@ + decimal(n as nat),
    decreases n,
{
    if n >= 10 {
        push_decimal(out, n / 10);
    }
    out.append(digit_str(n % 10));
    proof {
        assert(out@ =~= old(out)@ + decimal(n as nat));
    }
}

/// Distinct numbers are written differently.
pub proof fn lemma_decimal_injective(a: nat, b: nat)
    requires
        decimal(a) == decimal(b),
    ensures
        a == b,
    decreases a,
{
    if a < 10 && b < 10 {
        assert(decimal(a)[0] == digit_char(a));
        assert(decimal(b)[0] == digit_char(b));
    } else if a < 10 {
        lemma_decimal_len(b / 10);
        assert(decimal(b).len() == decimal(b / 10).len() + 1);
    } else if b < 10 {
        lemma_decimal_len(a / 10);
        assert(decimal(a).len() == decimal(a / 10).len() + 1);
    } else {
        assert(decimal(a / 10) =~= decimal(a).drop_last());
        assert(decimal(b / 10) =~= decimal(b).drop_last());
        assert(decimal(a).last() == digit_char(a % 10));
        assert(decimal(b).last() == digit_char(b % 10));
        lemma_decimal_injective(a / 10, b / 10);
        assert(a % 10 == b % 10);
        assert(a == (a / 10) * 10 + a % 10);
        assert(b == (b / 10) * 10 + b % 10);
    }
}

/// A number is written with at least one digit.
pub proof fn lemma_decimal_len(n: nat)
    ensures
        decimal(n).len() >= 1,
    decreases n,
{
    if n >= 10 {
        lemma_decimal_len(n / 10);
    }
}

/// The name of the cursor that carries the number `id`: `cursor_<id>`.
pub open spec fn cursor_name_text(id: nat) -> Seq<char> {
    "cursor_"@ + decimal(id)
}

/// `DECLARE <name> NO SCROLL CURSOR FOR <query>`.
pub open spec fn declare_text(name: Seq<char>, query: Seq<char>) -> Seq<char> {
    "DECLARE "@ + name + " NO SCROLL CURSOR FOR "@ + query
}

/// `FETCH FORWARD <batch_size> FROM <name>`.
pub open spec fn fetch_text(batch_size: nat, name: Seq<char>) -> Seq<char> {
    "FETCH FORWARD "@ + decimal(batch_size) + " FROM "@ + name
}

/// `CLOSE <name>`.
pub open spec fn close_text(name: Seq<char>) -> Seq<char> {
    "CLOSE "@ + name
}

/// Builds the name of the cursor numbered `id`.
pub fn cursor_name(id: u64) -> (r: String)
    ensures
        r@ == cursor_name_text(id as nat),
{
    let mut r = String::from_str("cursor_");
    push_decimal(&mut r, id);
    r
}

/// Cursors with different numbers get different names, so numbering the
/// cursors of a transaction one by one never reuses a name in it.
pub proof fn lemma_cursor_names_distinct(a: nat, b: nat)
    requires
        a != b,
    ensures
        cursor_name_text(a) != cursor_name_text(b),
{
    let p = "cursor_"@;
    if cursor_name_text(a) == cursor_name_text(b) {
        assert(decimal(a) =~= cursor_name_text(a).subrange(p.len() as int, cursor_name_text(a).len() as int));
        assert(decimal(b) =~= cursor_name_text(b).subrange(p.len() as int, cursor_name_text(b).len() as int));
        lemma_decimal_injective(a, b);
    }
}

/// The statement that declares the cursor `name` over `query`. The query is
/// embedded as it is: keeping it free of injected SQL is up to the caller.
pub fn declare_statement(name: &str, query: &str) -> (r: String)
    ensures
        r@ == declare_text(name@, query@),
{
    let mut r = String::from_str("DECLARE ");
    r.append(name);
    r.append(" NO SCROLL CURSOR FOR ");
    r.append(query);
    r
}

/// The statement that asks for the next `batch_size` rows of the cursor `name`.
pub fn fetch_statement(batch_size: usize, name: &str) -> (r: String)
    ensures
        r@ == fetch_text(batch_size as nat, name@),
{
    let mut r = String::from_str("FETCH FORWARD ");
    push_decimal(&mut r, batch_size as u64);
    r.append(" FROM ");
    r.append(name);
    r
}

/// The statement that closes the cursor `name`.
pub fn close_statement(name: &str) -> (r: String)
    ensures
        r@ == close_text(name@),
{
    let mut r = String::from_str("CLOSE ");
    r.append(name);
    r
}

} // verus!
