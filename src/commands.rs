use vstd::prelude::*;
use vstd::string::StringExecFns;

verus! {

/// The character of a decimal digit.
pub open spec fn digit_char(d: nat) -> char {
    if d == 0 { '0' }
    else if d == 1 { '1' }
    else if d == 2 { '2' }
    else if d == 3 { '3' }
    else if d == 4 { '4' }
    else if d == 5 { '5' }
    else if d == 6 { '6' }
    else if d == 7 { '7' }
    else if d == 8 { '8' }
    else { '9' }
}

/// The decimal digits of a natural number, without leading zeros.
pub open spec fn digits(n: nat) -> Seq<char>
    decreases n,
{
    if n < 10 {
        seq![digit_char(n)]
    } else {
        digits(n / 10) + seq![digit_char(n % 10)]
    }
}

/// The decimal text of an integer, with a leading minus sign when negative.
pub open spec fn decimal(k: int) -> Seq<char> {
    if k < 0 {
        seq!['-'] + digits((-k) as nat)
    } else {
        digits(k as nat)
    }
}

/// The flag that makes `sort` order by one column: columns are numbered from
/// zero here and from one by `sort`, and the order letters follow.
pub open spec fn key_flag(column: i32, order: Seq<char>) -> Seq<char> {
    "--key="@ + decimal(column + 1) + ","@ + decimal(column + 1) + order
}

/// The arguments of a stable, tab-separated, four-way parallel `sort` that
/// orders by the given columns, in turn.
pub open spec fn sort_args(columns: Seq<(i32, &str)>) -> Seq<Seq<char>> {
    seq!["--stable"@, "--field-separator"@, "\t"@, "--parallel"@, "4"@]
        + columns.map_values(|c: (i32, &str)| key_flag(c.0, c.1@))
}

/// The text of each string.
pub open spec fn string_views(v: Seq<String>) -> Seq<Seq<char>> {
    v.map_values(|s: String| s@)
}

fn append_digit(s: &mut String, d: u64)
    requires
        d < 10,
    ensures
        final(s)@ == old(s)@ + seq![digit_char(d as nat)],
{
    let t = if d == 0 { "0" }
        else if d == 1 { "1" }
        else if d == 2 { "2" }
        else if d == 3 { "3" }
        else if d == 4 { "4" }
        else if d == 5 { "5" }
        else if d == 6 { "6" }
        else if d == 7 { "7" }
        else if d == 8 { "8" }
        else { "9" };
    proof {
        reveal_strlit("0");
        reveal_strlit("1");
        reveal_strlit("2");
        reveal_strlit("3");
        reveal_strlit("4");
        reveal_strlit("5");
        reveal_strlit("6");
        reveal_strlit("7");
        reveal_strlit("8");
        reveal_strlit("9");
    }
    assert(t@ =~= seq![digit_char(d as nat)]);
    s.append(t);
}

fn append_digits(s: &mut String, n: u64)
    ensures
        final(s)@ == old(s)@ + digits(n as nat),
    decreases n,
{
    if n >= 10 {
        append_digits(s, n / 10);
    }
    append_digit(s, n % 10);
    assert(final(s)@ =~= old(s)@ + digits(n as nat)) by {
        if n >= 10 {
            assert(old(s)@ + digits(n as nat) =~= old(s)@ + digits((n / 10) as nat) + seq![digit_char((n % 10) as nat)]);
        }
    }
}

fn append_decimal(s: &mut String, k: i64)
    requires
        k > i64::MIN,
    ensures
        final(s)@ == old(s)@ + decimal(k as int),
{
    if k < 0 {
        s.append("-");
        proof { reveal_strlit("-"); }
        append_digits(s, (-k) as u64);
        assert(final(s)@ =~= old(s)@ + decimal(k as int));
    } else {
        append_digits(s, k as u64);
    }
}

/// The flag that orders `sort` by one column.
fn key_arg(column: i32, order: &str) -> (r: String)
    requires
        column < i32::MAX,
    ensures
        r@ == key_flag(column, order@),
{
    let number: i32 = column + 1;
    let k: i64 = number as i64;
    let mut flag = "--key=".to_owned();
    append_decimal(&mut flag, k);
    flag.append(",");
    append_decimal(&mut flag, k);
    flag.append(order);
    assert(flag@ =~= key_flag(column, order@));
    flag
}

/// The command line of a stable, tab-separated, four-way parallel `sort` that
/// orders by the given columns, each a zero-based column number with the
/// order letters of `sort` (such as `"n"` or `"r"`).
pub fn sort_cmd(columns: &Vec<(i32, &str)>) -> (r: (String, Vec<String>))
    requires
        forall|i: int| 0 <= i < columns@.len() ==> columns@[i].0 < i32::MAX,
    ensures
        r.0@ == "sort"@,
        string_views(r.1@) == sort_args(columns@),
{
    let mut cmd: Vec<String> = Vec::new();
    cmd.push("--stable".to_owned());
    cmd.push("--field-separator".to_owned());
    cmd.push("\t".to_owned());
    cmd.push("--parallel".to_owned());
    cmd.push("4".to_owned());
    let ghost base = seq!["--stable"@, "--field-separator"@, "\t"@, "--parallel"@, "4"@];
    assert(string_views(cmd@) =~= base);
    let mut i: usize = 0;
    while i < columns.len()
        invariant
            i <= columns.len(),
            forall|j: int| 0 <= j < columns@.len() ==> columns@[j].0 < i32::MAX,
            string_views(cmd@) == base + columns@.take(i as int).map_values(
                |c: (i32, &str)| key_flag(c.0, c.1@),
            ),
        decreases columns.len() - i,
    {
        let (n, order) = columns[i];
        let flag = key_arg(n, order);
        let ghost before = cmd@;
        cmd.push(flag);
        assert(columns@.take(i + 1) =~= columns@.take(i as int).push(columns@[i as int]));
        assert(string_views(cmd@) =~= string_views(before).push(flag@));
        i = i + 1;
        assert(string_views(cmd@) =~= base + columns@.take(i as int).map_values(
            |c: (i32, &str)| key_flag(c.0, c.1@),
        ));
    }
    assert(columns@.take(i as int) =~= columns@);
    ("sort".to_owned(), cmd)
}

} // verus!
