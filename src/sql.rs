use vstd::prelude::*;

verus! {

/// The decimal digits, in order.
pub open spec fn digits() -> Seq<char> {
    "0123456789"@
}

/// The decimal notation of `n`, without leading zeros.
pub open spec fn decimal(n: nat) -> Seq<char>
    decreases n,
{
    let last = seq![digits()[(n % 10) as int]];
    if n >= 10 {
        decimal(n / 10) + last
    } else {
        last
    }
}

/// Appends the decimal notation of `n` to `out`.
pub fn push_decimal(n: u64, out: &mut String)
    ensures
        final(out)@ == old(out)@ + decimal(n as nat),
    decreases n,
{
    let table = "0123456789";
    proof {
        reveal_strlit("0123456789");
    }
    if n >= 10 {
        push_decimal(n / 10, out);
    }
    let d = (n % 10) as usize;
    let digit = table.substring_char(d, d + 1);
    assert(digit@ =~= seq![digits()[d as int]]);
    out.append(digit);
    assert(out@ =~= old(out)@ + decimal(n as nat));
}

/// `SELECT <column> FROM <table> LIMIT <limit> OFFSET <offset>;`: one page
/// of a column, in the table's scan order.
pub open spec fn select_column_text(column: Seq<char>, table: Seq<char>, limit: nat, offset: nat) -> Seq<
    char,
> {
    "SELECT "@ + column + " FROM "@ + table + " LIMIT "@ + decimal(limit) + " OFFSET "@ + decimal(offset)
        + ";"@
}

pub fn select_column_sql(column: &str, table: &str, limit: u64, offset: u64) -> (r: String)
    ensures
        r@ == select_column_text(column@, table@, limit as nat, offset as nat),
{
    let mut r = String::from_str("SELECT ");
    r.append(column);
    r.append(" FROM ");
    r.append(table);
    r.append(" LIMIT ");
    push_decimal(limit, &mut r);
    r.append(" OFFSET ");
    push_decimal(offset, &mut r);
    r.append(";");
    r
}

/// `SELECT COUNT(*) FROM <table>;`
pub fn count_rows_sql(table: &str) -> (r: String)
    ensures
        r@ == "SELECT COUNT(*) FROM "@ + table@ + ";"@,
{
    let mut r = String::from_str("SELECT COUNT(*) FROM ");
    r.append(table);
    r.append(";");
    r
}

/// File formats that rows are imported from.
#[derive(Clone, Copy, Debug, PartialEq, Eq, Structural)]
pub enum ImportFormat {
    Jsonl,
    Parquet,
}

/// The reader function of the database that reads a format, schema
/// inferred.
pub open spec fn reader_of(format: ImportFormat) -> Seq<char> {
    match format {
        ImportFormat::Jsonl => "read_json_auto"@,
        ImportFormat::Parquet => "read_parquet"@,
    }
}

/// `CREATE TABLE <table> AS SELECT * FROM <reader>('<path>');`: makes the
/// table of a collection from a file.
pub fn import_sql(table: &str, path: &str, format: ImportFormat) -> (r: String)
    ensures
        r@ == "CREATE TABLE "@ + table@ + " AS SELECT * FROM "@ + reader_of(format) + "('"@ + path@
            + "');"@,
{
    let mut r = String::from_str("CREATE TABLE ");
    r.append(table);
    r.append(" AS SELECT * FROM ");
    match format {
        ImportFormat::Jsonl => r.append("read_json_auto"),
        ImportFormat::Parquet => r.append("read_parquet"),
    }
    r.append("('");
    r.append(path);
    r.append("');");
    r
}

} // verus!
