use vstd::prelude::*;

verus! {

/// The decimal digit character for `d < 10`.
pub open spec fn digit_char(d: nat) -> char {
    if d == 0 { '0' }
    else if d == 1 { '1' }
    else if d == 2 { '2' }
    else if d == 3 { '3' }
    else if d == 4 { '4' }
    else if d == 5 { '5' }
    else if d == 6 { '6' }
    else if d == 7 { '7' }
    else if d == 8 { '8' }
    else { '9' }
}

/// Decimal notation of `n`, most significant digit first, no leading zeros.
pub open spec fn decimal(n: nat) -> Seq<char>
    decreases n,
{
    if n < 10 {
        seq![digit_char(n)]
    } else {
        decimal(n / 10).push(digit_char(n % 10))
    }
}

/// Query listing every registered dataset with its kind.
pub open spec fn list_text() -> Seq<char> {
    "select table_name, table_type from information_schema.tables where table_schema = 'public'"@
}

/// Query giving the column names and types of a dataset.
pub open spec fn schema_text(name: Seq<char>) -> Seq<char> {
    "DESCRIBE "@ + name
}

/// Query selecting every row of a dataset.
pub open spec fn select_all_text(name: Seq<char>) -> Seq<char> {
    "select * from "@ + name
}

/// Query selecting the first `n` rows of a dataset.
pub open spec fn head_text(name: Seq<char>, n: nat) -> Seq<char> {
    "SELECT * FROM "@ + name + " LIMIT "@ + decimal(n)
}

fn digit_str(d: usize) -> (r: &'static str)
    requires
        d < 10,
    ensures
        r@ == seq![digit_char(d as nat)],
{
    proof {
        reveal_strlit("0");
        reveal_strlit("1");
        reveal_strlit("2");
        reveal_strlit("3");
        reveal_strlit("4");
        reveal_strlit("5");
        reveal_strlit("6");
        reveal_strlit("7");
        reveal_strlit("8");
        reveal_strlit("9");
    }
    let r = if d == 0 { "0" }
    else if d == 1 { "1" }
    else if d == 2 { "2" }
    else if d == 3 { "3" }
    else if d == 4 { "4" }
    else if d == 5 { "5" }
    else if d == 6 { "6" }
    else if d == 7 { "7" }
    else if d == 8 { "8" }
    else { "9" };
    assert(r@ =~= seq![digit_char(d as nat)]);
    r
}

/// Decimal rendering of a row count.
pub fn decimal_string(n: usize) -> (r: String)
    ensures
        r@ == decimal(n as nat),
    decreases n,
{
    if n < 10 {
        String::from_str(digit_str(n))
    } else {
        let mut s = decimal_string(n / 10);
        s.append(digit_str(n % 10));
        s
    }
}

pub fn list_query() -> (r: String)
    ensures
        r@ == list_text(),
{
    String::from_str("select table_name, table_type from information_schema.tables where table_schema = 'public'")
}

pub fn schema_query(name: &str) -> (r: String)
    ensures
        r@ == schema_text(name@),
{
    let s = String::from_str("DESCRIBE ");
    s.concat(name)
}

pub fn select_all_query(name: &str) -> (r: String)
    ensures
        r@ == select_all_text(name@),
{
    let s = String::from_str("select * from ");
    s.concat(name)
}

pub fn head_query(name: &str, n: usize) -> (r: String)
    ensures
        r@ == head_text(name@, n as nat),
{
    let digits = decimal_string(n);
    let mut s = String::from_str("SELECT * FROM ");
    s.append(name);
    s.append(" LIMIT ");
    s.append(digits.as_str());
    s
}

} // verus!
