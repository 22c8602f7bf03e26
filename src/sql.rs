//! Statement text for the store helpers: names are spliced in as given, values
//! travel as numbered parameters.
use vstd::prelude::*;

verus! {

/// The decimal digits of `n`.
pub open spec fn decimal(n: nat) -> Seq<char>
    decreases n,
{
    if n < 10 {
        seq![digit_char(n)]
    } else {
        decimal(n / 10).push(digit_char(n % 10))
    }
}

pub open spec fn digit_char(d: nat) -> char {
    if d == 0 { '0' } else if d == 1 { '1' } else if d == 2 { '2' } else if d == 3 { '3' }
    else if d == 4 { '4' } else if d == 5 { '5' } else if d == 6 { '6' } else if d == 7 { '7' }
    else if d == 8 { '8' } else { '9' }
}

fn digit_text(d: usize) -> (r: &'static str)
    requires
        d < 10,
    ensures
        r@ == seq![digit_char(d as nat)],
{
    proof {
        reveal_strlit("0"); reveal_strlit("1"); reveal_strlit("2"); reveal_strlit("3");
        reveal_strlit("4"); reveal_strlit("5"); reveal_strlit("6"); reveal_strlit("7");
        reveal_strlit("8"); reveal_strlit("9");
    }
    let r = if d == 0 { "0" } else if d == 1 { "1" } else if d == 2 { "2" } else if d == 3 { "3" }
        else if d == 4 { "4" } else if d == 5 { "5" } else if d == 6 { "6" } else if d == 7 { "7" }
        else if d == 8 { "8" } else { "9" };
    assert(r@ =~= seq![digit_char(d as nat)]);
    r
}

/// Appends the decimal digits of `n` to `out`.
pub(crate) fn push_decimal(out: &mut String, n: usize)
    ensures
        final(out)@ == old(out)@ + decimal(n as nat),
    decreases n,
{
    if n < 10 {
        out.append(digit_text(n));
    } else {
        push_decimal(out, n / 10);
        out.append(digit_text(n % 10));
        assert(decimal(n as nat) == decimal((n / 10) as nat).push(digit_char((n % 10) as nat)));
        assert(final(out)@ =~= old(out)@ + decimal(n as nat));
    }
}

/// `items` separated by ", ".
pub open spec fn comma_list(items: Seq<Seq<char>>) -> Seq<char>
    decreases items.len(),
{
    if items.len() == 0 {
        Seq::empty()
    } else if items.len() == 1 {
        items[0]
    } else {
        comma_list(items.drop_last()) + ", "@ + items.last()
    }
}

/// The placeholders `$1` to `$n`.
pub open spec fn placeholders(n: nat) -> Seq<Seq<char>>
    decreases n,
{
    if n == 0 {
        Seq::empty()
    } else {
        placeholders((n - 1) as nat).push("$"@ + decimal(n))
    }
}

/// The text of an insert of one row into `table`, one parameter per column.
pub open spec fn insert_text(table: Seq<char>, columns: Seq<Seq<char>>) -> Seq<char> {
    "INSERT INTO "@ + table + " ("@ + comma_list(columns) + ") VALUES ("@
        + comma_list(placeholders(columns.len())) + ")"@
}

/// The insert statement for one row of `columns` into `table`.
pub fn insert_statement(table: &str, columns: &Vec<String>) -> (r: String)
    ensures
        r@ == insert_text(table@, columns@.map_values(|c: String| c@)),
{
    let ghost names = columns@.map_values(|c: String| c@);
    let mut cols = String::from_str("");
    let mut marks = String::from_str("");
    let mut i: usize = 0;
    proof { reveal_strlit(""); }
    assert(names.subrange(0, 0) =~= Seq::<Seq<char>>::empty());
    while i < columns.len()
        invariant
            i <= columns@.len(),
            names == columns@.map_values(|c: String| c@),
            cols@ == comma_list(names.subrange(0, i as int)),
            marks@ == comma_list(placeholders(i as nat)),
            placeholders(i as nat).len() == i,
        decreases columns@.len() - i,
    {
        let ghost before = names.subrange(0, i as int);
        let ghost after = names.subrange(0, i as int + 1);
        assert(after.drop_last() =~= before);
        assert(after.last() == columns@[i as int]@);
        let ghost pb = placeholders(i as nat);
        let ghost pa = placeholders((i + 1) as nat);
        assert(pa.drop_last() =~= pb);
        if i > 0 {
            cols.append(", ");
            marks.append(", ");
        }
        cols.append(columns[i].as_str());
        marks.append("$");
        let ghost mark_before = marks@;
        push_decimal(&mut marks, i + 1);
        i = i + 1;
        proof {
            if i == 1 {
                assert(after.len() == 1);
                assert(cols@ =~= after[0]);
                assert(marks@ =~= pa[0]);
            } else {
                assert(cols@ =~= comma_list(after.drop_last()) + ", "@ + after.last());
                assert(marks@ =~= comma_list(pa.drop_last()) + ", "@ + pa.last());
            }
        }
    }
    assert(names.subrange(0, i as int) =~= names);
    let mut r = String::from_str("INSERT INTO ");
    r.append(table);
    r.append(" (");
    r.append(cols.as_str());
    r.append(") VALUES (");
    r.append(marks.as_str());
    r.append(")");
    assert(r@ =~= insert_text(table@, names));
    r
}

/// The delete statement for the rows of `table` whose `column` equals the one parameter.
pub fn delete_statement(table: &str, column: &str) -> (r: String)
    ensures
        r@ == "DELETE FROM "@ + table@ + " WHERE "@ + column@ + " = $1"@,
{
    let mut r = String::from_str("DELETE FROM ");
    r.append(table);
    r.append(" WHERE ");
    r.append(column);
    r.append(" = $1");
    r
}

} // verus!
