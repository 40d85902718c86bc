//! Laws on column types: what a writer spells is read back by the type readers as
//! the type it was written for, and the readers of the minimal IR and of IR v2 agree
//! on the names of the common types. The v2 readers decide a type by the keywords its
//! lower-cased text contains; `contains` is decided here over literal texts by
//! `absent_from`.

use vstd::prelude::*;
use crate::cli::{ascii_lowercase, Dialect};
use crate::emit::{mysql_type_text, sqlite_column_line, sqlite_type_text, text_if};
use crate::emit_postgres::postgres_type_text;
use crate::emit_v2::v2_type_text;
use crate::ir::{ColumnView, DataType};
use crate::parse::{v1_type, v2_type_from_lower};
use crate::sqlmodel::{SqlDialect, SqlType};
use crate::text::{
    ascii_lower, contains, decimal, digit_run_len, digit_text, digit_value, digits_value,
    first_u32_run, is_digit, lemma_digit_run_len_bound, occurs_at,
};
use crate::v2::V2DataTypeView;

verus! {

/// `needle` differs from `hay` at position `i`, at or after its `j`-th character.
pub open spec fn differs_at(hay: Seq<char>, needle: Seq<char>, i: int, j: int) -> bool
    decreases needle.len() - j,
{
    if j < 0 || j >= needle.len() {
        false
    } else if i + j < 0 || i + j >= hay.len() {
        true
    } else {
        hay[i + j] != needle[j] || differs_at(hay, needle, i, j + 1)
    }
}

/// `needle` occurs in `hay` at no position from `i` on.
pub open spec fn absent_from(hay: Seq<char>, needle: Seq<char>, i: int) -> bool
    decreases hay.len() - i,
{
    if i < 0 || i + needle.len() > hay.len() {
        true
    } else {
        differs_at(hay, needle, i, 0) && absent_from(hay, needle, i + 1)
    }
}

proof fn lemma_differs(hay: Seq<char>, needle: Seq<char>, i: int, j: int)
    requires
        0 <= i,
        i + needle.len() <= hay.len(),
        0 <= j <= needle.len(),
    ensures
        differs_at(hay, needle, i, j) <==> exists|k: int| j <= k < needle.len() && hay[i + k] != needle[k],
    decreases needle.len() - j,
{
    if j < needle.len() {
        lemma_differs(hay, needle, i, j + 1);
        if differs_at(hay, needle, i, j) && hay[i + j] != needle[j] {
            assert(exists|k: int| j <= k < needle.len() && hay[i + k] != needle[k]);
        }
    }
}

proof fn lemma_absent(hay: Seq<char>, needle: Seq<char>, i: int)
    requires
        0 <= i,
    ensures
        absent_from(hay, needle, i) <==> forall|m: int| i <= m && m + needle.len() <= hay.len() ==> !occurs_at(hay, needle, m),
    decreases hay.len() - i,
{
    if i + needle.len() <= hay.len() {
        if i < hay.len() {
            lemma_absent(hay, needle, i + 1);
        } else {
            assert(hay.subrange(i, i) =~= needle);
        }
        lemma_differs(hay, needle, i, 0);
        if occurs_at(hay, needle, i) {
            assert forall|k: int| 0 <= k < needle.len() implies hay[i + k] == needle[k] by {
                assert(hay.subrange(i, i + needle.len())[k] == hay[i + k]);
            }
        } else {
            assert(!(hay.subrange(i, i + needle.len()) =~= needle));
            let k = choose|k: int| 0 <= k < needle.len() && hay.subrange(i, i + needle.len())[k] != needle[k];
            assert(hay.subrange(i, i + needle.len())[k] == hay[i + k]);
        }
    }
}

pub broadcast proof fn lemma_contains_decided(hay: Seq<char>, needle: Seq<char>)
    ensures
        #[trigger] contains(hay, needle) == !absent_from(hay, needle, 0),
{
    lemma_absent(hay, needle, 0);
}

// ---------------------------------------------------------------------------
// Numbers in type texts

proof fn lemma_digit_text(d: nat)
    requires
        d < 10,
    ensures
        digit_text(d).len() == 1,
        is_digit(digit_text(d)[0]),
        digit_value(digit_text(d)[0]) == d,
{
    reveal_strlit("0");
    reveal_strlit("1");
    reveal_strlit("2");
    reveal_strlit("3");
    reveal_strlit("4");
    reveal_strlit("5");
    reveal_strlit("6");
    reveal_strlit("7");
    reveal_strlit("8");
    reveal_strlit("9");
}

/// The decimal text of `n` is a non-empty run of digits whose value is `n`.
pub proof fn lemma_decimal(n: nat)
    ensures
        decimal(n).len() >= 1,
        forall|k: int| 0 <= k < decimal(n).len() ==> is_digit(#[trigger] decimal(n)[k]),
        digits_value(decimal(n)) == n,
    decreases n,
{
    if n < 10 {
        lemma_digit_text(n);
        let s = decimal(n);
        assert(s.drop_last() =~= Seq::<char>::empty());
        assert(digits_value(s.drop_last()) == 0);
        assert(s.last() == s[0]);
        assert(digits_value(s) == digits_value(s.drop_last()) * 10 + digit_value(s.last()));
    } else {
        lemma_decimal(n / 10);
        lemma_digit_text(n % 10);
        let a = decimal(n / 10);
        let b = digit_text(n % 10);
        let s = decimal(n);
        assert(s == a + b);
        assert(s.drop_last() =~= a);
        assert(s.last() == b[0]);
        assert(digits_value(s) == digits_value(a) * 10 + digit_value(b[0]));
        assert(n == (n / 10) * 10 + n % 10);
        assert forall|k: int| 0 <= k < s.len() implies is_digit(#[trigger] s[k]) by {
            if k < a.len() {
                assert(s[k] == a[k]);
            }
        }
    }
}

/// A prefix without digits does not change the first number found.
proof fn lemma_first_u32_skip(p: Seq<char>, r: Seq<char>)
    requires
        forall|k: int| 0 <= k < p.len() ==> !is_digit(#[trigger] p[k]),
    ensures
        first_u32_run(p + r) == first_u32_run(r),
    decreases p.len(),
{
    if p.len() > 0 {
        assert((p + r)[0] == p[0]);
        assert((p + r).drop_first() =~= p.drop_first() + r);
        assert forall|k: int| 0 <= k < p.drop_first().len() implies !is_digit(#[trigger] p.drop_first()[k]) by {
            assert(p.drop_first()[k] == p[k + 1]);
        }
        lemma_first_u32_skip(p.drop_first(), r);
    } else {
        assert(p + r =~= r);
    }
}

/// The digit run at the start of `d + r`, when `r` does not start with a digit.
proof fn lemma_digit_run(d: Seq<char>, r: Seq<char>)
    requires
        forall|k: int| 0 <= k < d.len() ==> is_digit(#[trigger] d[k]),
        r.len() == 0 || !is_digit(r[0]),
    ensures
        digit_run_len(d + r) == d.len(),
    decreases d.len(),
{
    if d.len() > 0 {
        assert((d + r)[0] == d[0]);
        assert((d + r).drop_first() =~= d.drop_first() + r);
        assert forall|k: int| 0 <= k < d.drop_first().len() implies is_digit(#[trigger] d.drop_first()[k]) by {
            assert(d.drop_first()[k] == d[k + 1]);
        }
        lemma_digit_run(d.drop_first(), r);
    } else {
        assert(d + r =~= r);
    }
}

/// The number in `prefix` + decimal(`n`) + `)` is `n`, when the prefix holds no digit.
proof fn lemma_number_in_text(prefix: Seq<char>, n: u32)
    requires
        forall|k: int| 0 <= k < prefix.len() ==> !is_digit(#[trigger] prefix[k]),
    ensures
        first_u32_run(prefix + decimal(n as nat) + ")"@) == Some(n),
{
    reveal_strlit(")");
    let d = decimal(n as nat);
    lemma_decimal(n as nat);
    let r = d + ")"@;
    assert(prefix + d + ")"@ =~= prefix + r);
    lemma_first_u32_skip(prefix, r);
    lemma_digit_run(d, ")"@);
    assert(r[0] == d[0]);
    assert(r.take(d.len() as int) =~= d);
}

/// A letter pair that does not occur in `p` does not occur in `p` + digits + `)`.
proof fn lemma_not_in_number_text(p: Seq<char>, d: Seq<char>, needle: Seq<char>)
    requires
        needle.len() >= 2,
        'a' <= needle[0] <= 'z',
        'a' <= needle[1] <= 'z',
        forall|k: int| 0 <= k < d.len() ==> is_digit(#[trigger] d[k]),
        absent_from(p, needle.take(2), 0),
    ensures
        !contains(p + d + ")"@, needle),
{
    reveal_strlit(")");
    let hay = p + d + ")"@;
    lemma_absent(p, needle.take(2), 0);
    if contains(hay, needle) {
        let i = choose|i: int| occurs_at(hay, needle, i);
        assert(hay.subrange(i, i + needle.len())[0] == hay[i]);
        assert(hay.subrange(i, i + needle.len())[1] == hay[i + 1]);
        assert(hay[i] == needle[0]);
        assert(hay[i + 1] == needle[1]);
        if i + 1 >= p.len() {
            if i + 1 < p.len() + d.len() {
                assert(hay[i + 1] == d[i + 1 - p.len()]);
            } else {
                assert(hay[i + 1] == ")"@[i + 1 - p.len() - d.len()]);
            }
            assert(false);
        }
        assert(p.subrange(i, i + 2) =~= needle.take(2)) by {
            assert(p[i] == hay[i]);
            assert(p[i + 1] == hay[i + 1]);
        }
        assert(occurs_at(p, needle.take(2), i));
    }
}

/// The lower-cased `VARCHAR(n)` is read as `Varchar(Some(n))` by the MySQL and
/// PostgreSQL readers.
proof fn lemma_varchar_n(d: SqlDialect, n: u32, text: Seq<char>)
    requires
        d is MySql || d is Postgres,
    ensures
        v2_type_from_lower(d, "varchar("@ + decimal(n as nat) + ")"@, text) == V2DataTypeView::Varchar(Some(n)),
{
    let d = decimal(n as nat);
    lemma_decimal(n as nat);
    let hay = "varchar("@ + d + ")"@;
    assert(absent_from("varchar("@, "tinyint(1)"@.take(2), 0)) by {
        reveal_strlit("varchar(");
        reveal_strlit("tinyint(1)");
        reveal_with_fuel(absent_from, 10);
        reveal_with_fuel(differs_at, 4);
    }
    assert('a' <= "tinyint(1)"@[0] <= 'z' && 'a' <= "tinyint(1)"@[1] <= 'z' && "tinyint(1)"@.len() >= 2) by {
        reveal_strlit("tinyint(1)");
    }
    lemma_not_in_number_text("varchar("@, d, "tinyint(1)"@);
    assert(absent_from("varchar("@, "bigint"@.take(2), 0)) by {
        reveal_strlit("varchar(");
        reveal_strlit("bigint");
        reveal_with_fuel(absent_from, 10);
        reveal_with_fuel(differs_at, 4);
    }
    assert('a' <= "bigint"@[0] <= 'z' && 'a' <= "bigint"@[1] <= 'z' && "bigint"@.len() >= 2) by {
        reveal_strlit("bigint");
    }
    lemma_not_in_number_text("varchar("@, d, "bigint"@);
    assert(absent_from("varchar("@, "smallint"@.take(2), 0)) by {
        reveal_strlit("varchar(");
        reveal_strlit("smallint");
        reveal_with_fuel(absent_from, 10);
        reveal_with_fuel(differs_at, 4);
    }
    assert('a' <= "smallint"@[0] <= 'z' && 'a' <= "smallint"@[1] <= 'z' && "smallint"@.len() >= 2) by {
        reveal_strlit("smallint");
    }
    lemma_not_in_number_text("varchar("@, d, "smallint"@);
    assert(absent_from("varchar("@, "int"@.take(2), 0)) by {
        reveal_strlit("varchar(");
        reveal_strlit("int");
        reveal_with_fuel(absent_from, 10);
        reveal_with_fuel(differs_at, 4);
    }
    assert('a' <= "int"@[0] <= 'z' && 'a' <= "int"@[1] <= 'z' && "int"@.len() >= 2) by {
        reveal_strlit("int");
    }
    lemma_not_in_number_text("varchar("@, d, "int"@);
    assert(absent_from("varchar("@, "double"@.take(2), 0)) by {
        reveal_strlit("varchar(");
        reveal_strlit("double");
        reveal_with_fuel(absent_from, 10);
        reveal_with_fuel(differs_at, 4);
    }
    assert('a' <= "double"@[0] <= 'z' && 'a' <= "double"@[1] <= 'z' && "double"@.len() >= 2) by {
        reveal_strlit("double");
    }
    lemma_not_in_number_text("varchar("@, d, "double"@);
    assert(absent_from("varchar("@, "float8"@.take(2), 0)) by {
        reveal_strlit("varchar(");
        reveal_strlit("float8");
        reveal_with_fuel(absent_from, 10);
        reveal_with_fuel(differs_at, 4);
    }
    assert('a' <= "float8"@[0] <= 'z' && 'a' <= "float8"@[1] <= 'z' && "float8"@.len() >= 2) by {
        reveal_strlit("float8");
    }
    lemma_not_in_number_text("varchar("@, d, "float8"@);
    assert(absent_from("varchar("@, "double precision"@.take(2), 0)) by {
        reveal_strlit("varchar(");
        reveal_strlit("double precision");
        reveal_with_fuel(absent_from, 10);
        reveal_with_fuel(differs_at, 4);
    }
    assert('a' <= "double precision"@[0] <= 'z' && 'a' <= "double precision"@[1] <= 'z' && "double precision"@.len() >= 2) by {
        reveal_strlit("double precision");
    }
    lemma_not_in_number_text("varchar("@, d, "double precision"@);
    assert(absent_from("varchar("@, "float"@.take(2), 0)) by {
        reveal_strlit("varchar(");
        reveal_strlit("float");
        reveal_with_fuel(absent_from, 10);
        reveal_with_fuel(differs_at, 4);
    }
    assert('a' <= "float"@[0] <= 'z' && 'a' <= "float"@[1] <= 'z' && "float"@.len() >= 2) by {
        reveal_strlit("float");
    }
    lemma_not_in_number_text("varchar("@, d, "float"@);
    assert(absent_from("varchar("@, "real"@.take(2), 0)) by {
        reveal_strlit("varchar(");
        reveal_strlit("real");
        reveal_with_fuel(absent_from, 10);
        reveal_with_fuel(differs_at, 4);
    }
    assert('a' <= "real"@[0] <= 'z' && 'a' <= "real"@[1] <= 'z' && "real"@.len() >= 2) by {
        reveal_strlit("real");
    }
    lemma_not_in_number_text("varchar("@, d, "real"@);
    assert(occurs_at(hay, "varchar"@, 0)) by {
        reveal_strlit("varchar(");
        reveal_strlit("varchar");
        assert(hay.subrange(0, 7) =~= "varchar"@);
    }
    assert forall|k: int| 0 <= k < "varchar("@.len() implies !is_digit(#[trigger] "varchar("@[k]) by {
        reveal_strlit("varchar(");
        if k == 0 {}
        else if k == 1 {}
        else if k == 2 {}
        else if k == 3 {}
        else if k == 4 {}
        else if k == 5 {}
        else if k == 6 {}
        else if k == 7 {}
    }
    lemma_number_in_text("varchar("@, n);
}

/// Lower-casing `VARCHAR(n)` gives `varchar(n)`.
proof fn lemma_lower_varchar_n(n: u32)
    ensures
        ascii_lowercase("VARCHAR("@ + decimal(n as nat) + ")"@) == "varchar("@ + decimal(n as nat) + ")"@,
{
    reveal_strlit("VARCHAR(");
    reveal_strlit("varchar(");
    reveal_strlit(")");
    lemma_decimal(n as nat);
    let d = decimal(n as nat);
    let a = "VARCHAR("@ + d + ")"@;
    let b = "varchar("@ + d + ")"@;
    assert forall|k: int| 0 <= k < a.len() implies #[trigger] ascii_lower(a[k]) == b[k] by {
        if k >= 8 && k < 8 + d.len() {
            assert(a[k] == d[k - 8]);
            assert(b[k] == d[k - 8]);
        }
    }
    assert(ascii_lowercase(a) =~= b);
}


/// The IR v2 type that stands for a minimal-IR type.
pub open spec fn v2_of(t: DataType) -> V2DataTypeView {
    match t {
        DataType::Int => V2DataTypeView::Integer { bits: Some(32) },
        DataType::BigInt => V2DataTypeView::Integer { bits: Some(64) },
        DataType::Boolean => V2DataTypeView::Boolean,
        DataType::Float => V2DataTypeView::Float,
        DataType::Double => V2DataTypeView::Double,
        DataType::Varchar(l) => V2DataTypeView::Varchar(l),
        DataType::Text => V2DataTypeView::Text,
        DataType::Timestamp => V2DataTypeView::Timestamp,
    }
}

/// `VARCHAR(255)` is `VARCHAR(` and the decimal text of 255 and `)`.
proof fn lemma_varchar_255()
    ensures
        "VARCHAR(255)"@ == "VARCHAR("@ + decimal(255) + ")"@,
{
    reveal_strlit("VARCHAR(255)");
    reveal_strlit("VARCHAR(");
    reveal_strlit(")");
    reveal_strlit("2");
    reveal_strlit("5");
    reveal_with_fuel(decimal, 3);
    assert("VARCHAR(255)"@ =~= "VARCHAR("@ + decimal(255) + ")"@);
}

/// The MySQL writer spells every column type so that the MySQL type reader reads it
/// back as the same type: a 64-bit integer as a 64-bit integer, a double as a double,
/// and so on; only a `VARCHAR` without length comes back with the length 255 it is
/// written with.
pub proof fn law_mysql_type_reads_back(t: DataType)
    ensures
        v2_type_from_lower(SqlDialect::MySql, ascii_lowercase(mysql_type_text(t)), mysql_type_text(t))
            == v2_of(match t {
                DataType::Varchar(None) => DataType::Varchar(Some(255)),
                _ => t,
            }),
{
    match t {
        DataType::Int => reads_mysql_int(),
        DataType::BigInt => reads_mysql_bigint(),
        DataType::Boolean => reads_mysql_tinyint_1(),
        DataType::Float => reads_mysql_float(),
        DataType::Double => reads_mysql_double(),
        DataType::Text => reads_mysql_text(),
        DataType::Timestamp => reads_mysql_datetime(),
        DataType::Varchar(Some(n)) => {
            lemma_lower_varchar_n(n);
            lemma_varchar_n(SqlDialect::MySql, n, mysql_type_text(t));
        },
        DataType::Varchar(None) => {
            lemma_varchar_255();
            lemma_lower_varchar_n(255);
            lemma_varchar_n(SqlDialect::MySql, 255, mysql_type_text(t));
        },
    }
}

/// The PostgreSQL writer of the minimal IR spells every column type so that the
/// PostgreSQL type reader reads it back as the same type, but for `BOOLEAN`, which
/// that reader keeps as written.
pub proof fn law_postgres_type_reads_back(t: DataType)
    ensures
        v2_type_from_lower(SqlDialect::Postgres, ascii_lowercase(postgres_type_text(t)), postgres_type_text(t))
            == (if t is Boolean { V2DataTypeView::Custom("BOOLEAN"@) } else { v2_of(t) }),
{
    match t {
        DataType::Int => reads_postgres_integer(),
        DataType::BigInt => reads_postgres_bigint(),
        DataType::Boolean => reads_postgres_boolean(),
        DataType::Float => reads_postgres_real(),
        DataType::Double => reads_postgres_double_precision(),
        DataType::Varchar(None) => reads_postgres_varchar(),
        DataType::Text => reads_postgres_text(),
        DataType::Timestamp => reads_postgres_timestamp(),
        DataType::Varchar(Some(n)) => {
            lemma_lower_varchar_n(n);
            lemma_varchar_n(SqlDialect::Postgres, n, postgres_type_text(t));
        },
    }
}

/// The SQLite writer of the minimal IR spells integers and booleans as a type the
/// SQLite type reader reads as an integer, and every other type as one it reads as
/// text.
pub proof fn law_sqlite_type_reads_back(t: DataType)
    ensures
        v2_type_from_lower(SqlDialect::Sqlite, ascii_lowercase(sqlite_type_text(t)), sqlite_type_text(t))
            == (if t is Int || t is BigInt || t is Boolean { (V2DataTypeView::Integer { bits: Some(32) }) } else { V2DataTypeView::Text }),
{
    match t {
        DataType::Int | DataType::BigInt | DataType::Boolean => reads_sqlite_integer(),
        DataType::Float | DataType::Double | DataType::Varchar(_) | DataType::Text | DataType::Timestamp => reads_sqlite_text(),
    }
}

/// How the v2 type readers read back what the v2 writer wrote: the same type, except
/// where a dialect has no spelling for it. MySQL writes 8- and 16-bit integers as
/// `TINYINT`/`SMALLINT`, read as 32-bit, and a `VARCHAR` without length as
/// `VARCHAR(255)`; the PostgreSQL reader knows no boolean type and keeps `BOOLEAN` as
/// written; SQLite writes integers and booleans as `INTEGER`, floating types as
/// `REAL` and all others as `TEXT`.
pub open spec fn v2_read_back(d: Dialect, t: V2DataTypeView) -> V2DataTypeView {
    match d {
        Dialect::Mysql => match t {
            V2DataTypeView::Integer { bits: Some(64) } => t,
            V2DataTypeView::Integer { .. } => V2DataTypeView::Integer { bits: Some(32) },
            V2DataTypeView::Varchar(None) => V2DataTypeView::Varchar(Some(255)),
            _ => t,
        },
        Dialect::Postgres => match t {
            V2DataTypeView::Integer { bits: Some(64) } => t,
            V2DataTypeView::Integer { bits: Some(16) } => t,
            V2DataTypeView::Integer { .. } => V2DataTypeView::Integer { bits: Some(32) },
            V2DataTypeView::Boolean => V2DataTypeView::Custom("BOOLEAN"@),
            _ => t,
        },
        Dialect::Sqlite => match t {
            V2DataTypeView::Integer { .. } | V2DataTypeView::Boolean => V2DataTypeView::Integer { bits: Some(32) },
            V2DataTypeView::Float | V2DataTypeView::Double => V2DataTypeView::Float,
            V2DataTypeView::Custom(_) => t,
            _ => V2DataTypeView::Text,
        },
    }
}

pub open spec fn sql_dialect(d: Dialect) -> SqlDialect {
    match d {
        Dialect::Mysql => SqlDialect::MySql,
        Dialect::Postgres => SqlDialect::Postgres,
        Dialect::Sqlite => SqlDialect::Sqlite,
    }
}

/// Whatever the dialect, the v2 writer spells every type other than a custom one so
/// that the dialect's v2 type reader reads it back as `v2_read_back` says: a 64-bit
/// integer stays 64-bit (but in SQLite), a double stays a double (but in SQLite), a
/// varchar keeps its length.
pub proof fn law_v2_type_reads_back(d: Dialect, t: V2DataTypeView)
    requires
        !(t is Custom),
    ensures
        v2_type_from_lower(sql_dialect(d), ascii_lowercase(v2_type_text(d, t)), v2_type_text(d, t)) == v2_read_back(d, t),
{
    match d {
        Dialect::Mysql => {
            match t {
                V2DataTypeView::Integer { bits: Some(64) } => reads_mysql_bigint(),
                V2DataTypeView::Integer { bits: Some(16) } => reads_mysql_smallint(),
                V2DataTypeView::Integer { bits: Some(8) } => reads_mysql_tinyint(),
                V2DataTypeView::Integer { .. } => reads_mysql_int(),
                V2DataTypeView::Boolean => reads_mysql_tinyint_1(),
                V2DataTypeView::Float => reads_mysql_float(),
                V2DataTypeView::Double => reads_mysql_double(),
                V2DataTypeView::Text => reads_mysql_text(),
                V2DataTypeView::Timestamp => reads_mysql_datetime(),
                V2DataTypeView::Varchar(Some(n)) => {
                    lemma_lower_varchar_n(n);
                    lemma_varchar_n(SqlDialect::MySql, n, v2_type_text(d, t));
                },
                V2DataTypeView::Varchar(None) => {
                    lemma_varchar_255();
                    lemma_lower_varchar_n(255);
                    lemma_varchar_n(SqlDialect::MySql, 255, v2_type_text(d, t));
                },
                V2DataTypeView::Custom(_) => {},
            }
        },
        Dialect::Postgres => {
            match t {
                V2DataTypeView::Integer { bits: Some(64) } => reads_postgres_bigint(),
                V2DataTypeView::Integer { bits: Some(16) } => reads_postgres_smallint(),
                V2DataTypeView::Integer { .. } => reads_postgres_integer(),
                V2DataTypeView::Boolean => reads_postgres_boolean(),
                V2DataTypeView::Float => reads_postgres_real(),
                V2DataTypeView::Double => reads_postgres_double_precision(),
                V2DataTypeView::Varchar(None) => reads_postgres_varchar(),
                V2DataTypeView::Text => reads_postgres_text(),
                V2DataTypeView::Timestamp => reads_postgres_timestamp(),
                V2DataTypeView::Varchar(Some(n)) => {
                    lemma_lower_varchar_n(n);
                    lemma_varchar_n(SqlDialect::Postgres, n, v2_type_text(d, t));
                },
                V2DataTypeView::Custom(_) => {},
            }
        },
        Dialect::Sqlite => {
            match t {
                V2DataTypeView::Integer { .. } | V2DataTypeView::Boolean => reads_sqlite_integer(),
                V2DataTypeView::Float | V2DataTypeView::Double => reads_sqlite_real(),
                V2DataTypeView::Varchar(_) | V2DataTypeView::Text | V2DataTypeView::Timestamp => reads_sqlite_text(),
                V2DataTypeView::Custom(_) => {},
            }
        },
    }
}

/// The name of a column type, lower-cased, as `sqlparser` writes it.
pub open spec fn column_type_name(t: SqlType) -> Seq<char> {
    match t {
        SqlType::Int => "int"@,
        SqlType::Integer => "integer"@,
        SqlType::BigInt => "bigint"@,
        SqlType::Float => "float"@,
        SqlType::Real => "real"@,
        SqlType::Double => "double"@,
        SqlType::DoublePrecision => "double precision"@,
        SqlType::Text => "text"@,
        SqlType::Timestamp => "timestamp"@,
        SqlType::Datetime => "datetime"@,
        SqlType::Boolean => "boolean"@,
        SqlType::Bool => "bool"@,
        SqlType::Varchar(None) => "varchar"@,
        _ => Seq::empty(),
    }
}

/// The column types that both type readers know in a dialect: the integer, floating,
/// text and time types and a `VARCHAR` without length, and (but in PostgreSQL, whose v2
/// reader knows no boolean) the booleans.
pub open spec fn common_type(d: SqlDialect, t: SqlType) -> bool {
    match t {
        SqlType::Int | SqlType::Integer | SqlType::BigInt | SqlType::Float | SqlType::Real | SqlType::Double
        | SqlType::DoublePrecision | SqlType::Text | SqlType::Timestamp | SqlType::Datetime
        | SqlType::Varchar(None) => true,
        SqlType::Boolean | SqlType::Bool => !(d is Postgres),
        _ => false,
    }
}

/// The reader of the minimal IR and the reader of IR v2 agree on every common column
/// type: the type the first reads from the parsed type is the one the second reads
/// from its name (so `DOUBLE` is a double and never a float, `BIGINT` is 64-bit, in
/// every dialect).
pub proof fn law_type_readers_agree(d: SqlDialect, t: SqlType)
    requires
        common_type(d, t),
    ensures
        v2_of(v1_type(d, t)) == v2_type_from_lower(d, column_type_name(t), column_type_name(t)),
{
    match d {
        SqlDialect::MySql => {
            match t {
                SqlType::Int => reads_mysql_int_name(),
                SqlType::Integer => reads_mysql_integer_name(),
                SqlType::BigInt => reads_mysql_bigint_name(),
                SqlType::Float => reads_mysql_float_name(),
                SqlType::Real => reads_mysql_real_name(),
                SqlType::Double => reads_mysql_double_name(),
                SqlType::DoublePrecision => reads_mysql_double_precision_name(),
                SqlType::Text => reads_mysql_text_name(),
                SqlType::Timestamp => reads_mysql_timestamp_name(),
                SqlType::Datetime => reads_mysql_datetime_name(),
                SqlType::Boolean => reads_mysql_boolean_name(),
                SqlType::Bool => reads_mysql_bool_name(),
                SqlType::Varchar(None) => reads_mysql_varchar_name(),
                _ => {},
            }
        },
        SqlDialect::Postgres => {
            match t {
                SqlType::Int => reads_postgres_int_name(),
                SqlType::Integer => reads_postgres_integer_name(),
                SqlType::BigInt => reads_postgres_bigint_name(),
                SqlType::Float => reads_postgres_float_name(),
                SqlType::Real => reads_postgres_real_name(),
                SqlType::Double => reads_postgres_double_name(),
                SqlType::DoublePrecision => reads_postgres_double_precision_name(),
                SqlType::Text => reads_postgres_text_name(),
                SqlType::Timestamp => reads_postgres_timestamp_name(),
                SqlType::Datetime => reads_postgres_datetime_name(),
                SqlType::Varchar(None) => reads_postgres_varchar_name(),
                _ => {},
            }
        },
        SqlDialect::Sqlite => {
            match t {
                SqlType::Int => reads_sqlite_int_name(),
                SqlType::Integer => reads_sqlite_integer_name(),
                SqlType::BigInt => reads_sqlite_bigint_name(),
                SqlType::Float => reads_sqlite_float_name(),
                SqlType::Real => reads_sqlite_real_name(),
                SqlType::Double => reads_sqlite_double_name(),
                SqlType::DoublePrecision => reads_sqlite_double_precision_name(),
                SqlType::Text => reads_sqlite_text_name(),
                SqlType::Timestamp => reads_sqlite_timestamp_name(),
                SqlType::Datetime => reads_sqlite_datetime_name(),
                SqlType::Boolean => reads_sqlite_boolean_name(),
                SqlType::Bool => reads_sqlite_bool_name(),
                SqlType::Varchar(None) => reads_sqlite_varchar_name(),
                _ => {},
            }
        },
    }
}

// ---------------------------------------------------------------------------
// Reading single type names

#[verifier::spinoff_prover]
proof fn reads_mysql_int()
    ensures
        v2_type_from_lower(SqlDialect::MySql, ascii_lowercase("INT"@), "INT"@) == (V2DataTypeView::Integer { bits: Some(32) }),
{
    broadcast use lemma_contains_decided;
    assert(ascii_lowercase("INT"@) =~= "int"@) by {
        reveal_strlit("INT");
        reveal_strlit("int");
    }
    assert(absent_from("int"@, "tinyint(1)"@, 0)) by {
        reveal_strlit("int");
        reveal_strlit("tinyint(1)");
    }
    assert(absent_from("int"@, "bigint"@, 0)) by {
        reveal_strlit("int");
        reveal_strlit("bigint");
    }
    assert(occurs_at("int"@, "int"@, 0)) by {
        reveal_strlit("int");
        reveal_strlit("int");
        assert("int"@.subrange(0, 3) =~= "int"@);
    }
}

#[verifier::spinoff_prover]
proof fn reads_mysql_bigint()
    ensures
        v2_type_from_lower(SqlDialect::MySql, ascii_lowercase("BIGINT"@), "BIGINT"@) == (V2DataTypeView::Integer { bits: Some(64) }),
{
    broadcast use lemma_contains_decided;
    assert(ascii_lowercase("BIGINT"@) =~= "bigint"@) by {
        reveal_strlit("BIGINT");
        reveal_strlit("bigint");
    }
    assert(absent_from("bigint"@, "tinyint(1)"@, 0)) by {
        reveal_strlit("bigint");
        reveal_strlit("tinyint(1)");
    }
    assert(occurs_at("bigint"@, "bigint"@, 0)) by {
        reveal_strlit("bigint");
        reveal_strlit("bigint");
        assert("bigint"@.subrange(0, 6) =~= "bigint"@);
    }
}

#[verifier::spinoff_prover]
proof fn reads_mysql_tinyint_1()
    ensures
        v2_type_from_lower(SqlDialect::MySql, ascii_lowercase("TINYINT(1)"@), "TINYINT(1)"@) == V2DataTypeView::Boolean,
{
    broadcast use lemma_contains_decided;
    assert(ascii_lowercase("TINYINT(1)"@) =~= "tinyint(1)"@) by {
        reveal_strlit("TINYINT(1)");
        reveal_strlit("tinyint(1)");
    }
    assert(occurs_at("tinyint(1)"@, "tinyint(1)"@, 0)) by {
        reveal_strlit("tinyint(1)");
        reveal_strlit("tinyint(1)");
        assert("tinyint(1)"@.subrange(0, 10) =~= "tinyint(1)"@);
    }
}

#[verifier::spinoff_prover]
proof fn reads_mysql_float()
    ensures
        v2_type_from_lower(SqlDialect::MySql, ascii_lowercase("FLOAT"@), "FLOAT"@) == V2DataTypeView::Float,
{
    broadcast use lemma_contains_decided;
    assert(ascii_lowercase("FLOAT"@) =~= "float"@) by {
        reveal_strlit("FLOAT");
        reveal_strlit("float");
    }
    assert(absent_from("float"@, "tinyint(1)"@, 0)) by {
        reveal_strlit("float");
        reveal_strlit("tinyint(1)");
    }
    assert(absent_from("float"@, "bigint"@, 0)) by {
        reveal_strlit("float");
        reveal_strlit("bigint");
    }
    assert(absent_from("float"@, "int"@, 0)) by {
        reveal_strlit("float");
        reveal_strlit("int");
        reveal_with_fuel(absent_from, 7);
        reveal_with_fuel(differs_at, 5);
    }
    assert(absent_from("float"@, "varchar"@, 0)) by {
        reveal_strlit("float");
        reveal_strlit("varchar");
    }
    assert(absent_from("float"@, "text"@, 0)) by {
        reveal_strlit("float");
        reveal_strlit("text");
        reveal_with_fuel(absent_from, 7);
        reveal_with_fuel(differs_at, 6);
    }
    assert(absent_from("float"@, "timestamp"@, 0)) by {
        reveal_strlit("float");
        reveal_strlit("timestamp");
    }
    assert(absent_from("float"@, "datetime"@, 0)) by {
        reveal_strlit("float");
        reveal_strlit("datetime");
    }
    assert(absent_from("float"@, "double"@, 0)) by {
        reveal_strlit("float");
        reveal_strlit("double");
    }
    assert(occurs_at("float"@, "float"@, 0)) by {
        reveal_strlit("float");
        reveal_strlit("float");
        assert("float"@.subrange(0, 5) =~= "float"@);
    }
}

#[verifier::spinoff_prover]
proof fn reads_mysql_double()
    ensures
        v2_type_from_lower(SqlDialect::MySql, ascii_lowercase("DOUBLE"@), "DOUBLE"@) == V2DataTypeView::Double,
{
    broadcast use lemma_contains_decided;
    assert(ascii_lowercase("DOUBLE"@) =~= "double"@) by {
        reveal_strlit("DOUBLE");
        reveal_strlit("double");
    }
    assert(absent_from("double"@, "tinyint(1)"@, 0)) by {
        reveal_strlit("double");
        reveal_strlit("tinyint(1)");
    }
    assert(absent_from("double"@, "bigint"@, 0)) by {
        reveal_strlit("double");
        reveal_strlit("bigint");
        reveal_with_fuel(absent_from, 8);
        reveal_with_fuel(differs_at, 8);
    }
    assert(absent_from("double"@, "int"@, 0)) by {
        reveal_strlit("double");
        reveal_strlit("int");
        reveal_with_fuel(absent_from, 8);
        reveal_with_fuel(differs_at, 5);
    }
    assert(absent_from("double"@, "varchar"@, 0)) by {
        reveal_strlit("double");
        reveal_strlit("varchar");
    }
    assert(absent_from("double"@, "text"@, 0)) by {
        reveal_strlit("double");
        reveal_strlit("text");
        reveal_with_fuel(absent_from, 8);
        reveal_with_fuel(differs_at, 6);
    }
    assert(absent_from("double"@, "timestamp"@, 0)) by {
        reveal_strlit("double");
        reveal_strlit("timestamp");
    }
    assert(absent_from("double"@, "datetime"@, 0)) by {
        reveal_strlit("double");
        reveal_strlit("datetime");
    }
    assert(occurs_at("double"@, "double"@, 0)) by {
        reveal_strlit("double");
        reveal_strlit("double");
        assert("double"@.subrange(0, 6) =~= "double"@);
    }
}

#[verifier::spinoff_prover]
proof fn reads_mysql_text()
    ensures
        v2_type_from_lower(SqlDialect::MySql, ascii_lowercase("TEXT"@), "TEXT"@) == V2DataTypeView::Text,
{
    broadcast use lemma_contains_decided;
    assert(ascii_lowercase("TEXT"@) =~= "text"@) by {
        reveal_strlit("TEXT");
        reveal_strlit("text");
    }
    assert(absent_from("text"@, "tinyint(1)"@, 0)) by {
        reveal_strlit("text");
        reveal_strlit("tinyint(1)");
    }
    assert(absent_from("text"@, "bigint"@, 0)) by {
        reveal_strlit("text");
        reveal_strlit("bigint");
    }
    assert(absent_from("text"@, "int"@, 0)) by {
        reveal_strlit("text");
        reveal_strlit("int");
        reveal_with_fuel(absent_from, 6);
        reveal_with_fuel(differs_at, 5);
    }
    assert(absent_from("text"@, "varchar"@, 0)) by {
        reveal_strlit("text");
        reveal_strlit("varchar");
    }
    assert(occurs_at("text"@, "text"@, 0)) by {
        reveal_strlit("text");
        reveal_strlit("text");
        assert("text"@.subrange(0, 4) =~= "text"@);
    }
}

#[verifier::spinoff_prover]
proof fn reads_mysql_datetime()
    ensures
        v2_type_from_lower(SqlDialect::MySql, ascii_lowercase("DATETIME"@), "DATETIME"@) == V2DataTypeView::Timestamp,
{
    broadcast use lemma_contains_decided;
    assert(ascii_lowercase("DATETIME"@) =~= "datetime"@) by {
        reveal_strlit("DATETIME");
        reveal_strlit("datetime");
    }
    assert(absent_from("datetime"@, "tinyint(1)"@, 0)) by {
        reveal_strlit("datetime");
        reveal_strlit("tinyint(1)");
    }
    assert(absent_from("datetime"@, "bigint"@, 0)) by {
        reveal_strlit("datetime");
        reveal_strlit("bigint");
        reveal_with_fuel(absent_from, 10);
        reveal_with_fuel(differs_at, 8);
    }
    assert(absent_from("datetime"@, "int"@, 0)) by {
        reveal_strlit("datetime");
        reveal_strlit("int");
        reveal_with_fuel(absent_from, 10);
        reveal_with_fuel(differs_at, 5);
    }
    assert(absent_from("datetime"@, "varchar"@, 0)) by {
        reveal_strlit("datetime");
        reveal_strlit("varchar");
        reveal_with_fuel(absent_from, 10);
        reveal_with_fuel(differs_at, 9);
    }
    assert(absent_from("datetime"@, "text"@, 0)) by {
        reveal_strlit("datetime");
        reveal_strlit("text");
        reveal_with_fuel(absent_from, 10);
        reveal_with_fuel(differs_at, 6);
    }
    assert(absent_from("datetime"@, "timestamp"@, 0)) by {
        reveal_strlit("datetime");
        reveal_strlit("timestamp");
    }
    assert(occurs_at("datetime"@, "datetime"@, 0)) by {
        reveal_strlit("datetime");
        reveal_strlit("datetime");
        assert("datetime"@.subrange(0, 8) =~= "datetime"@);
    }
}

#[verifier::spinoff_prover]
proof fn reads_postgres_integer()
    ensures
        v2_type_from_lower(SqlDialect::Postgres, ascii_lowercase("INTEGER"@), "INTEGER"@) == (V2DataTypeView::Integer { bits: Some(32) }),
{
    broadcast use lemma_contains_decided;
    assert(ascii_lowercase("INTEGER"@) =~= "integer"@) by {
        reveal_strlit("INTEGER");
        reveal_strlit("integer");
    }
    assert(absent_from("integer"@, "tinyint(1)"@, 0)) by {
        reveal_strlit("integer");
        reveal_strlit("tinyint(1)");
    }
    assert(absent_from("integer"@, "bigint"@, 0)) by {
        reveal_strlit("integer");
        reveal_strlit("bigint");
        reveal_with_fuel(absent_from, 9);
        reveal_with_fuel(differs_at, 8);
    }
    assert(absent_from("integer"@, "smallint"@, 0)) by {
        reveal_strlit("integer");
        reveal_strlit("smallint");
    }
    assert(occurs_at("integer"@, "int"@, 0)) by {
        reveal_strlit("integer");
        reveal_strlit("int");
        assert("integer"@.subrange(0, 3) =~= "int"@);
    }
}

#[verifier::spinoff_prover]
proof fn reads_postgres_bigint()
    ensures
        v2_type_from_lower(SqlDialect::Postgres, ascii_lowercase("BIGINT"@), "BIGINT"@) == (V2DataTypeView::Integer { bits: Some(64) }),
{
    broadcast use lemma_contains_decided;
    assert(ascii_lowercase("BIGINT"@) =~= "bigint"@) by {
        reveal_strlit("BIGINT");
        reveal_strlit("bigint");
    }
    assert(absent_from("bigint"@, "tinyint(1)"@, 0)) by {
        reveal_strlit("bigint");
        reveal_strlit("tinyint(1)");
    }
    assert(occurs_at("bigint"@, "bigint"@, 0)) by {
        reveal_strlit("bigint");
        reveal_strlit("bigint");
        assert("bigint"@.subrange(0, 6) =~= "bigint"@);
    }
}

#[verifier::spinoff_prover]
proof fn reads_postgres_boolean()
    ensures
        v2_type_from_lower(SqlDialect::Postgres, ascii_lowercase("BOOLEAN"@), "BOOLEAN"@) == V2DataTypeView::Custom("BOOLEAN"@),
{
    broadcast use lemma_contains_decided;
    assert(ascii_lowercase("BOOLEAN"@) =~= "boolean"@) by {
        reveal_strlit("BOOLEAN");
        reveal_strlit("boolean");
    }
    assert(absent_from("boolean"@, "tinyint(1)"@, 0)) by {
        reveal_strlit("boolean");
        reveal_strlit("tinyint(1)");
    }
    assert(absent_from("boolean"@, "bigint"@, 0)) by {
        reveal_strlit("boolean");
        reveal_strlit("bigint");
        reveal_with_fuel(absent_from, 9);
        reveal_with_fuel(differs_at, 8);
    }
    assert(absent_from("boolean"@, "smallint"@, 0)) by {
        reveal_strlit("boolean");
        reveal_strlit("smallint");
    }
    assert(absent_from("boolean"@, "int"@, 0)) by {
        reveal_strlit("boolean");
        reveal_strlit("int");
        reveal_with_fuel(absent_from, 9);
        reveal_with_fuel(differs_at, 5);
    }
    assert(absent_from("boolean"@, "double"@, 0)) by {
        reveal_strlit("boolean");
        reveal_strlit("double");
        reveal_with_fuel(absent_from, 9);
        reveal_with_fuel(differs_at, 8);
    }
    assert(absent_from("boolean"@, "float8"@, 0)) by {
        reveal_strlit("boolean");
        reveal_strlit("float8");
        reveal_with_fuel(absent_from, 9);
        reveal_with_fuel(differs_at, 8);
    }
    assert(absent_from("boolean"@, "double precision"@, 0)) by {
        reveal_strlit("boolean");
        reveal_strlit("double precision");
    }
    assert(absent_from("boolean"@, "float"@, 0)) by {
        reveal_strlit("boolean");
        reveal_strlit("float");
        reveal_with_fuel(absent_from, 9);
        reveal_with_fuel(differs_at, 7);
    }
    assert(absent_from("boolean"@, "real"@, 0)) by {
        reveal_strlit("boolean");
        reveal_strlit("real");
        reveal_with_fuel(absent_from, 9);
        reveal_with_fuel(differs_at, 6);
    }
    assert(absent_from("boolean"@, "varchar"@, 0)) by {
        reveal_strlit("boolean");
        reveal_strlit("varchar");
        reveal_with_fuel(absent_from, 9);
        reveal_with_fuel(differs_at, 9);
    }
    assert(absent_from("boolean"@, "character varying"@, 0)) by {
        reveal_strlit("boolean");
        reveal_strlit("character varying");
    }
    assert(absent_from("boolean"@, "char"@, 0)) by {
        reveal_strlit("boolean");
        reveal_strlit("char");
        reveal_with_fuel(absent_from, 9);
        reveal_with_fuel(differs_at, 6);
    }
    assert(absent_from("boolean"@, "text"@, 0)) by {
        reveal_strlit("boolean");
        reveal_strlit("text");
        reveal_with_fuel(absent_from, 9);
        reveal_with_fuel(differs_at, 6);
    }
    assert(absent_from("boolean"@, "timestamp"@, 0)) by {
        reveal_strlit("boolean");
        reveal_strlit("timestamp");
    }
    assert(absent_from("boolean"@, "datetime"@, 0)) by {
        reveal_strlit("boolean");
        reveal_strlit("datetime");
    }
}

#[verifier::spinoff_prover]
proof fn reads_postgres_real()
    ensures
        v2_type_from_lower(SqlDialect::Postgres, ascii_lowercase("REAL"@), "REAL"@) == V2DataTypeView::Float,
{
    broadcast use lemma_contains_decided;
    assert(ascii_lowercase("REAL"@) =~= "real"@) by {
        reveal_strlit("REAL");
        reveal_strlit("real");
    }
    assert(absent_from("real"@, "tinyint(1)"@, 0)) by {
        reveal_strlit("real");
        reveal_strlit("tinyint(1)");
    }
    assert(absent_from("real"@, "bigint"@, 0)) by {
        reveal_strlit("real");
        reveal_strlit("bigint");
    }
    assert(absent_from("real"@, "smallint"@, 0)) by {
        reveal_strlit("real");
        reveal_strlit("smallint");
    }
    assert(absent_from("real"@, "int"@, 0)) by {
        reveal_strlit("real");
        reveal_strlit("int");
        reveal_with_fuel(absent_from, 6);
        reveal_with_fuel(differs_at, 5);
    }
    assert(absent_from("real"@, "double"@, 0)) by {
        reveal_strlit("real");
        reveal_strlit("double");
    }
    assert(absent_from("real"@, "float8"@, 0)) by {
        reveal_strlit("real");
        reveal_strlit("float8");
    }
    assert(absent_from("real"@, "double precision"@, 0)) by {
        reveal_strlit("real");
        reveal_strlit("double precision");
    }
    assert(absent_from("real"@, "float"@, 0)) by {
        reveal_strlit("real");
        reveal_strlit("float");
    }
    assert(occurs_at("real"@, "real"@, 0)) by {
        reveal_strlit("real");
        reveal_strlit("real");
        assert("real"@.subrange(0, 4) =~= "real"@);
    }
}

#[verifier::spinoff_prover]
proof fn reads_postgres_double_precision()
    ensures
        v2_type_from_lower(SqlDialect::Postgres, ascii_lowercase("DOUBLE PRECISION"@), "DOUBLE PRECISION"@) == V2DataTypeView::Double,
{
    broadcast use lemma_contains_decided;
    assert(ascii_lowercase("DOUBLE PRECISION"@) =~= "double precision"@) by {
        reveal_strlit("DOUBLE PRECISION");
        reveal_strlit("double precision");
    }
    assert(absent_from("double precision"@, "tinyint(1)"@, 0)) by {
        reveal_strlit("double precision");
        reveal_strlit("tinyint(1)");
        reveal_with_fuel(absent_from, 18);
        reveal_with_fuel(differs_at, 12);
    }
    assert(absent_from("double precision"@, "bigint"@, 0)) by {
        reveal_strlit("double precision");
        reveal_strlit("bigint");
        reveal_with_fuel(absent_from, 18);
        reveal_with_fuel(differs_at, 8);
    }
    assert(absent_from("double precision"@, "smallint"@, 0)) by {
        reveal_strlit("double precision");
        reveal_strlit("smallint");
        reveal_with_fuel(absent_from, 18);
        reveal_with_fuel(differs_at, 10);
    }
    assert(absent_from("double precision"@, "int"@, 0)) by {
        reveal_strlit("double precision");
        reveal_strlit("int");
        reveal_with_fuel(absent_from, 18);
        reveal_with_fuel(differs_at, 5);
    }
    assert(occurs_at("double precision"@, "double"@, 0)) by {
        reveal_strlit("double precision");
        reveal_strlit("double");
        assert("double precision"@.subrange(0, 6) =~= "double"@);
    }
}

#[verifier::spinoff_prover]
proof fn reads_postgres_varchar()
    ensures
        v2_type_from_lower(SqlDialect::Postgres, ascii_lowercase("VARCHAR"@), "VARCHAR"@) == V2DataTypeView::Varchar(None),
{
    broadcast use lemma_contains_decided;
    assert(ascii_lowercase("VARCHAR"@) =~= "varchar"@) by {
        reveal_strlit("VARCHAR");
        reveal_strlit("varchar");
    }
    assert(absent_from("varchar"@, "tinyint(1)"@, 0)) by {
        reveal_strlit("varchar");
        reveal_strlit("tinyint(1)");
    }
    assert(absent_from("varchar"@, "bigint"@, 0)) by {
        reveal_strlit("varchar");
        reveal_strlit("bigint");
        reveal_with_fuel(absent_from, 9);
        reveal_with_fuel(differs_at, 8);
    }
    assert(absent_from("varchar"@, "smallint"@, 0)) by {
        reveal_strlit("varchar");
        reveal_strlit("smallint");
    }
    assert(absent_from("varchar"@, "int"@, 0)) by {
        reveal_strlit("varchar");
        reveal_strlit("int");
        reveal_with_fuel(absent_from, 9);
        reveal_with_fuel(differs_at, 5);
    }
    assert(absent_from("varchar"@, "double"@, 0)) by {
        reveal_strlit("varchar");
        reveal_strlit("double");
        reveal_with_fuel(absent_from, 9);
        reveal_with_fuel(differs_at, 8);
    }
    assert(absent_from("varchar"@, "float8"@, 0)) by {
        reveal_strlit("varchar");
        reveal_strlit("float8");
        reveal_with_fuel(absent_from, 9);
        reveal_with_fuel(differs_at, 8);
    }
    assert(absent_from("varchar"@, "double precision"@, 0)) by {
        reveal_strlit("varchar");
        reveal_strlit("double precision");
    }
    assert(absent_from("varchar"@, "float"@, 0)) by {
        reveal_strlit("varchar");
        reveal_strlit("float");
        reveal_with_fuel(absent_from, 9);
        reveal_with_fuel(differs_at, 7);
    }
    assert(absent_from("varchar"@, "real"@, 0)) by {
        reveal_strlit("varchar");
        reveal_strlit("real");
        reveal_with_fuel(absent_from, 9);
        reveal_with_fuel(differs_at, 6);
    }
    assert(occurs_at("varchar"@, "varchar"@, 0)) by {
        reveal_strlit("varchar");
        reveal_strlit("varchar");
        assert("varchar"@.subrange(0, 7) =~= "varchar"@);
    }
    assert forall|k: int| 0 <= k < "varchar"@.len() implies !is_digit(#[trigger] "varchar"@[k]) by {
        reveal_strlit("varchar");
        if k == 0 {}
        else if k == 1 {}
        else if k == 2 {}
        else if k == 3 {}
        else if k == 4 {}
        else if k == 5 {}
        else if k == 6 {}
    }
    lemma_first_u32_skip("varchar"@, Seq::empty());
    assert("varchar"@ + Seq::<char>::empty() =~= "varchar"@);
}

#[verifier::spinoff_prover]
proof fn reads_postgres_text()
    ensures
        v2_type_from_lower(SqlDialect::Postgres, ascii_lowercase("TEXT"@), "TEXT"@) == V2DataTypeView::Text,
{
    broadcast use lemma_contains_decided;
    assert(ascii_lowercase("TEXT"@) =~= "text"@) by {
        reveal_strlit("TEXT");
        reveal_strlit("text");
    }
    assert(absent_from("text"@, "tinyint(1)"@, 0)) by {
        reveal_strlit("text");
        reveal_strlit("tinyint(1)");
    }
    assert(absent_from("text"@, "bigint"@, 0)) by {
        reveal_strlit("text");
        reveal_strlit("bigint");
    }
    assert(absent_from("text"@, "smallint"@, 0)) by {
        reveal_strlit("text");
        reveal_strlit("smallint");
    }
    assert(absent_from("text"@, "int"@, 0)) by {
        reveal_strlit("text");
        reveal_strlit("int");
        reveal_with_fuel(absent_from, 6);
        reveal_with_fuel(differs_at, 5);
    }
    assert(absent_from("text"@, "double"@, 0)) by {
        reveal_strlit("text");
        reveal_strlit("double");
    }
    assert(absent_from("text"@, "float8"@, 0)) by {
        reveal_strlit("text");
        reveal_strlit("float8");
    }
    assert(absent_from("text"@, "double precision"@, 0)) by {
        reveal_strlit("text");
        reveal_strlit("double precision");
    }
    assert(absent_from("text"@, "float"@, 0)) by {
        reveal_strlit("text");
        reveal_strlit("float");
    }
    assert(absent_from("text"@, "real"@, 0)) by {
        reveal_strlit("text");
        reveal_strlit("real");
        reveal_with_fuel(absent_from, 6);
        reveal_with_fuel(differs_at, 6);
    }
    assert(absent_from("text"@, "varchar"@, 0)) by {
        reveal_strlit("text");
        reveal_strlit("varchar");
    }
    assert(absent_from("text"@, "character varying"@, 0)) by {
        reveal_strlit("text");
        reveal_strlit("character varying");
    }
    assert(absent_from("text"@, "char"@, 0)) by {
        reveal_strlit("text");
        reveal_strlit("char");
        reveal_with_fuel(absent_from, 6);
        reveal_with_fuel(differs_at, 6);
    }
    assert(occurs_at("text"@, "text"@, 0)) by {
        reveal_strlit("text");
        reveal_strlit("text");
        assert("text"@.subrange(0, 4) =~= "text"@);
    }
}

#[verifier::spinoff_prover]
proof fn reads_postgres_timestamp()
    ensures
        v2_type_from_lower(SqlDialect::Postgres, ascii_lowercase("TIMESTAMP"@), "TIMESTAMP"@) == V2DataTypeView::Timestamp,
{
    broadcast use lemma_contains_decided;
    assert(ascii_lowercase("TIMESTAMP"@) =~= "timestamp"@) by {
        reveal_strlit("TIMESTAMP");
        reveal_strlit("timestamp");
    }
    assert(absent_from("timestamp"@, "tinyint(1)"@, 0)) by {
        reveal_strlit("timestamp");
        reveal_strlit("tinyint(1)");
    }
    assert(absent_from("timestamp"@, "bigint"@, 0)) by {
        reveal_strlit("timestamp");
        reveal_strlit("bigint");
        reveal_with_fuel(absent_from, 11);
        reveal_with_fuel(differs_at, 8);
    }
    assert(absent_from("timestamp"@, "smallint"@, 0)) by {
        reveal_strlit("timestamp");
        reveal_strlit("smallint");
        reveal_with_fuel(absent_from, 11);
        reveal_with_fuel(differs_at, 10);
    }
    assert(absent_from("timestamp"@, "int"@, 0)) by {
        reveal_strlit("timestamp");
        reveal_strlit("int");
        reveal_with_fuel(absent_from, 11);
        reveal_with_fuel(differs_at, 5);
    }
    assert(absent_from("timestamp"@, "double"@, 0)) by {
        reveal_strlit("timestamp");
        reveal_strlit("double");
        reveal_with_fuel(absent_from, 11);
        reveal_with_fuel(differs_at, 8);
    }
    assert(absent_from("timestamp"@, "float8"@, 0)) by {
        reveal_strlit("timestamp");
        reveal_strlit("float8");
        reveal_with_fuel(absent_from, 11);
        reveal_with_fuel(differs_at, 8);
    }
    assert(absent_from("timestamp"@, "double precision"@, 0)) by {
        reveal_strlit("timestamp");
        reveal_strlit("double precision");
    }
    assert(absent_from("timestamp"@, "float"@, 0)) by {
        reveal_strlit("timestamp");
        reveal_strlit("float");
        reveal_with_fuel(absent_from, 11);
        reveal_with_fuel(differs_at, 7);
    }
    assert(absent_from("timestamp"@, "real"@, 0)) by {
        reveal_strlit("timestamp");
        reveal_strlit("real");
        reveal_with_fuel(absent_from, 11);
        reveal_with_fuel(differs_at, 6);
    }
    assert(absent_from("timestamp"@, "varchar"@, 0)) by {
        reveal_strlit("timestamp");
        reveal_strlit("varchar");
        reveal_with_fuel(absent_from, 11);
        reveal_with_fuel(differs_at, 9);
    }
    assert(absent_from("timestamp"@, "character varying"@, 0)) by {
        reveal_strlit("timestamp");
        reveal_strlit("character varying");
    }
    assert(absent_from("timestamp"@, "char"@, 0)) by {
        reveal_strlit("timestamp");
        reveal_strlit("char");
        reveal_with_fuel(absent_from, 11);
        reveal_with_fuel(differs_at, 6);
    }
    assert(absent_from("timestamp"@, "text"@, 0)) by {
        reveal_strlit("timestamp");
        reveal_strlit("text");
        reveal_with_fuel(absent_from, 11);
        reveal_with_fuel(differs_at, 6);
    }
    assert(occurs_at("timestamp"@, "timestamp"@, 0)) by {
        reveal_strlit("timestamp");
        reveal_strlit("timestamp");
        assert("timestamp"@.subrange(0, 9) =~= "timestamp"@);
    }
}

#[verifier::spinoff_prover]
proof fn reads_sqlite_integer()
    ensures
        v2_type_from_lower(SqlDialect::Sqlite, ascii_lowercase("INTEGER"@), "INTEGER"@) == (V2DataTypeView::Integer { bits: Some(32) }),
{
    broadcast use lemma_contains_decided;
    assert(ascii_lowercase("INTEGER"@) =~= "integer"@) by {
        reveal_strlit("INTEGER");
        reveal_strlit("integer");
    }
    assert(absent_from("integer"@, "bigint"@, 0)) by {
        reveal_strlit("integer");
        reveal_strlit("bigint");
        reveal_with_fuel(absent_from, 9);
        reveal_with_fuel(differs_at, 8);
    }
    assert(occurs_at("integer"@, "int"@, 0)) by {
        reveal_strlit("integer");
        reveal_strlit("int");
        assert("integer"@.subrange(0, 3) =~= "int"@);
    }
}

#[verifier::spinoff_prover]
proof fn reads_sqlite_text()
    ensures
        v2_type_from_lower(SqlDialect::Sqlite, ascii_lowercase("TEXT"@), "TEXT"@) == V2DataTypeView::Text,
{
    broadcast use lemma_contains_decided;
    assert(ascii_lowercase("TEXT"@) =~= "text"@) by {
        reveal_strlit("TEXT");
        reveal_strlit("text");
    }
    assert(absent_from("text"@, "bigint"@, 0)) by {
        reveal_strlit("text");
        reveal_strlit("bigint");
    }
    assert(absent_from("text"@, "int"@, 0)) by {
        reveal_strlit("text");
        reveal_strlit("int");
        reveal_with_fuel(absent_from, 6);
        reveal_with_fuel(differs_at, 5);
    }
    assert(absent_from("text"@, "bool"@, 0)) by {
        reveal_strlit("text");
        reveal_strlit("bool");
        reveal_with_fuel(absent_from, 6);
        reveal_with_fuel(differs_at, 6);
    }
    assert(absent_from("text"@, "tinyint(1)"@, 0)) by {
        reveal_strlit("text");
        reveal_strlit("tinyint(1)");
    }
    assert(absent_from("text"@, "double"@, 0)) by {
        reveal_strlit("text");
        reveal_strlit("double");
    }
    assert(absent_from("text"@, "float"@, 0)) by {
        reveal_strlit("text");
        reveal_strlit("float");
    }
    assert(absent_from("text"@, "real"@, 0)) by {
        reveal_strlit("text");
        reveal_strlit("real");
        reveal_with_fuel(absent_from, 6);
        reveal_with_fuel(differs_at, 6);
    }
    assert(absent_from("text"@, "varchar"@, 0)) by {
        reveal_strlit("text");
        reveal_strlit("varchar");
    }
    assert(absent_from("text"@, "character varying"@, 0)) by {
        reveal_strlit("text");
        reveal_strlit("character varying");
    }
    assert(occurs_at("text"@, "text"@, 0)) by {
        reveal_strlit("text");
        reveal_strlit("text");
        assert("text"@.subrange(0, 4) =~= "text"@);
    }
}

#[verifier::spinoff_prover]
proof fn reads_mysql_smallint()
    ensures
        v2_type_from_lower(SqlDialect::MySql, ascii_lowercase("SMALLINT"@), "SMALLINT"@) == (V2DataTypeView::Integer { bits: Some(32) }),
{
    broadcast use lemma_contains_decided;
    assert(ascii_lowercase("SMALLINT"@) =~= "smallint"@) by {
        reveal_strlit("SMALLINT");
        reveal_strlit("smallint");
    }
    assert(absent_from("smallint"@, "tinyint(1)"@, 0)) by {
        reveal_strlit("smallint");
        reveal_strlit("tinyint(1)");
    }
    assert(absent_from("smallint"@, "bigint"@, 0)) by {
        reveal_strlit("smallint");
        reveal_strlit("bigint");
        reveal_with_fuel(absent_from, 10);
        reveal_with_fuel(differs_at, 8);
    }
    assert(occurs_at("smallint"@, "int"@, 5)) by {
        reveal_strlit("smallint");
        reveal_strlit("int");
        assert("smallint"@.subrange(5, 8) =~= "int"@);
    }
}

#[verifier::spinoff_prover]
proof fn reads_mysql_tinyint()
    ensures
        v2_type_from_lower(SqlDialect::MySql, ascii_lowercase("TINYINT"@), "TINYINT"@) == (V2DataTypeView::Integer { bits: Some(32) }),
{
    broadcast use lemma_contains_decided;
    assert(ascii_lowercase("TINYINT"@) =~= "tinyint"@) by {
        reveal_strlit("TINYINT");
        reveal_strlit("tinyint");
    }
    assert(absent_from("tinyint"@, "tinyint(1)"@, 0)) by {
        reveal_strlit("tinyint");
        reveal_strlit("tinyint(1)");
    }
    assert(absent_from("tinyint"@, "bigint"@, 0)) by {
        reveal_strlit("tinyint");
        reveal_strlit("bigint");
        reveal_with_fuel(absent_from, 9);
        reveal_with_fuel(differs_at, 8);
    }
    assert(occurs_at("tinyint"@, "int"@, 4)) by {
        reveal_strlit("tinyint");
        reveal_strlit("int");
        assert("tinyint"@.subrange(4, 7) =~= "int"@);
    }
}

#[verifier::spinoff_prover]
proof fn reads_postgres_smallint()
    ensures
        v2_type_from_lower(SqlDialect::Postgres, ascii_lowercase("SMALLINT"@), "SMALLINT"@) == (V2DataTypeView::Integer { bits: Some(16) }),
{
    broadcast use lemma_contains_decided;
    assert(ascii_lowercase("SMALLINT"@) =~= "smallint"@) by {
        reveal_strlit("SMALLINT");
        reveal_strlit("smallint");
    }
    assert(absent_from("smallint"@, "tinyint(1)"@, 0)) by {
        reveal_strlit("smallint");
        reveal_strlit("tinyint(1)");
    }
    assert(absent_from("smallint"@, "bigint"@, 0)) by {
        reveal_strlit("smallint");
        reveal_strlit("bigint");
        reveal_with_fuel(absent_from, 10);
        reveal_with_fuel(differs_at, 8);
    }
    assert(occurs_at("smallint"@, "smallint"@, 0)) by {
        reveal_strlit("smallint");
        reveal_strlit("smallint");
        assert("smallint"@.subrange(0, 8) =~= "smallint"@);
    }
}

#[verifier::spinoff_prover]
proof fn reads_sqlite_real()
    ensures
        v2_type_from_lower(SqlDialect::Sqlite, ascii_lowercase("REAL"@), "REAL"@) == V2DataTypeView::Float,
{
    broadcast use lemma_contains_decided;
    assert(ascii_lowercase("REAL"@) =~= "real"@) by {
        reveal_strlit("REAL");
        reveal_strlit("real");
    }
    assert(absent_from("real"@, "bigint"@, 0)) by {
        reveal_strlit("real");
        reveal_strlit("bigint");
    }
    assert(absent_from("real"@, "int"@, 0)) by {
        reveal_strlit("real");
        reveal_strlit("int");
        reveal_with_fuel(absent_from, 6);
        reveal_with_fuel(differs_at, 5);
    }
    assert(absent_from("real"@, "bool"@, 0)) by {
        reveal_strlit("real");
        reveal_strlit("bool");
        reveal_with_fuel(absent_from, 6);
        reveal_with_fuel(differs_at, 6);
    }
    assert(absent_from("real"@, "tinyint(1)"@, 0)) by {
        reveal_strlit("real");
        reveal_strlit("tinyint(1)");
    }
    assert(absent_from("real"@, "double"@, 0)) by {
        reveal_strlit("real");
        reveal_strlit("double");
    }
    assert(absent_from("real"@, "float"@, 0)) by {
        reveal_strlit("real");
        reveal_strlit("float");
    }
    assert(occurs_at("real"@, "real"@, 0)) by {
        reveal_strlit("real");
        reveal_strlit("real");
        assert("real"@.subrange(0, 4) =~= "real"@);
    }
}

#[verifier::spinoff_prover]
proof fn reads_mysql_int_name()
    ensures
        v2_type_from_lower(SqlDialect::MySql, "int"@, "int"@) == (V2DataTypeView::Integer { bits: Some(32) }),
{
    broadcast use lemma_contains_decided;
    assert(absent_from("int"@, "tinyint(1)"@, 0)) by {
        reveal_strlit("int");
        reveal_strlit("tinyint(1)");
    }
    assert(absent_from("int"@, "bigint"@, 0)) by {
        reveal_strlit("int");
        reveal_strlit("bigint");
    }
    assert(occurs_at("int"@, "int"@, 0)) by {
        reveal_strlit("int");
        reveal_strlit("int");
        assert("int"@.subrange(0, 3) =~= "int"@);
    }
}

#[verifier::spinoff_prover]
proof fn reads_mysql_integer_name()
    ensures
        v2_type_from_lower(SqlDialect::MySql, "integer"@, "integer"@) == (V2DataTypeView::Integer { bits: Some(32) }),
{
    broadcast use lemma_contains_decided;
    assert(absent_from("integer"@, "tinyint(1)"@, 0)) by {
        reveal_strlit("integer");
        reveal_strlit("tinyint(1)");
    }
    assert(absent_from("integer"@, "bigint"@, 0)) by {
        reveal_strlit("integer");
        reveal_strlit("bigint");
        reveal_with_fuel(absent_from, 9);
        reveal_with_fuel(differs_at, 8);
    }
    assert(occurs_at("integer"@, "int"@, 0)) by {
        reveal_strlit("integer");
        reveal_strlit("int");
        assert("integer"@.subrange(0, 3) =~= "int"@);
    }
}

#[verifier::spinoff_prover]
proof fn reads_mysql_bigint_name()
    ensures
        v2_type_from_lower(SqlDialect::MySql, "bigint"@, "bigint"@) == (V2DataTypeView::Integer { bits: Some(64) }),
{
    broadcast use lemma_contains_decided;
    assert(absent_from("bigint"@, "tinyint(1)"@, 0)) by {
        reveal_strlit("bigint");
        reveal_strlit("tinyint(1)");
    }
    assert(occurs_at("bigint"@, "bigint"@, 0)) by {
        reveal_strlit("bigint");
        reveal_strlit("bigint");
        assert("bigint"@.subrange(0, 6) =~= "bigint"@);
    }
}

#[verifier::spinoff_prover]
proof fn reads_mysql_float_name()
    ensures
        v2_type_from_lower(SqlDialect::MySql, "float"@, "float"@) == V2DataTypeView::Float,
{
    broadcast use lemma_contains_decided;
    assert(absent_from("float"@, "tinyint(1)"@, 0)) by {
        reveal_strlit("float");
        reveal_strlit("tinyint(1)");
    }
    assert(absent_from("float"@, "bigint"@, 0)) by {
        reveal_strlit("float");
        reveal_strlit("bigint");
    }
    assert(absent_from("float"@, "int"@, 0)) by {
        reveal_strlit("float");
        reveal_strlit("int");
        reveal_with_fuel(absent_from, 7);
        reveal_with_fuel(differs_at, 5);
    }
    assert(absent_from("float"@, "varchar"@, 0)) by {
        reveal_strlit("float");
        reveal_strlit("varchar");
    }
    assert(absent_from("float"@, "text"@, 0)) by {
        reveal_strlit("float");
        reveal_strlit("text");
        reveal_with_fuel(absent_from, 7);
        reveal_with_fuel(differs_at, 6);
    }
    assert(absent_from("float"@, "timestamp"@, 0)) by {
        reveal_strlit("float");
        reveal_strlit("timestamp");
    }
    assert(absent_from("float"@, "datetime"@, 0)) by {
        reveal_strlit("float");
        reveal_strlit("datetime");
    }
    assert(absent_from("float"@, "double"@, 0)) by {
        reveal_strlit("float");
        reveal_strlit("double");
    }
    assert(occurs_at("float"@, "float"@, 0)) by {
        reveal_strlit("float");
        reveal_strlit("float");
        assert("float"@.subrange(0, 5) =~= "float"@);
    }
}

#[verifier::spinoff_prover]
proof fn reads_mysql_real_name()
    ensures
        v2_type_from_lower(SqlDialect::MySql, "real"@, "real"@) == V2DataTypeView::Float,
{
    broadcast use lemma_contains_decided;
    assert(absent_from("real"@, "tinyint(1)"@, 0)) by {
        reveal_strlit("real");
        reveal_strlit("tinyint(1)");
    }
    assert(absent_from("real"@, "bigint"@, 0)) by {
        reveal_strlit("real");
        reveal_strlit("bigint");
    }
    assert(absent_from("real"@, "int"@, 0)) by {
        reveal_strlit("real");
        reveal_strlit("int");
        reveal_with_fuel(absent_from, 6);
        reveal_with_fuel(differs_at, 5);
    }
    assert(absent_from("real"@, "varchar"@, 0)) by {
        reveal_strlit("real");
        reveal_strlit("varchar");
    }
    assert(absent_from("real"@, "text"@, 0)) by {
        reveal_strlit("real");
        reveal_strlit("text");
        reveal_with_fuel(absent_from, 6);
        reveal_with_fuel(differs_at, 6);
    }
    assert(absent_from("real"@, "timestamp"@, 0)) by {
        reveal_strlit("real");
        reveal_strlit("timestamp");
    }
    assert(absent_from("real"@, "datetime"@, 0)) by {
        reveal_strlit("real");
        reveal_strlit("datetime");
    }
    assert(absent_from("real"@, "double"@, 0)) by {
        reveal_strlit("real");
        reveal_strlit("double");
    }
    assert(absent_from("real"@, "float"@, 0)) by {
        reveal_strlit("real");
        reveal_strlit("float");
    }
    assert(occurs_at("real"@, "real"@, 0)) by {
        reveal_strlit("real");
        reveal_strlit("real");
        assert("real"@.subrange(0, 4) =~= "real"@);
    }
}

#[verifier::spinoff_prover]
proof fn reads_mysql_double_name()
    ensures
        v2_type_from_lower(SqlDialect::MySql, "double"@, "double"@) == V2DataTypeView::Double,
{
    broadcast use lemma_contains_decided;
    assert(absent_from("double"@, "tinyint(1)"@, 0)) by {
        reveal_strlit("double");
        reveal_strlit("tinyint(1)");
    }
    assert(absent_from("double"@, "bigint"@, 0)) by {
        reveal_strlit("double");
        reveal_strlit("bigint");
        reveal_with_fuel(absent_from, 8);
        reveal_with_fuel(differs_at, 8);
    }
    assert(absent_from("double"@, "int"@, 0)) by {
        reveal_strlit("double");
        reveal_strlit("int");
        reveal_with_fuel(absent_from, 8);
        reveal_with_fuel(differs_at, 5);
    }
    assert(absent_from("double"@, "varchar"@, 0)) by {
        reveal_strlit("double");
        reveal_strlit("varchar");
    }
    assert(absent_from("double"@, "text"@, 0)) by {
        reveal_strlit("double");
        reveal_strlit("text");
        reveal_with_fuel(absent_from, 8);
        reveal_with_fuel(differs_at, 6);
    }
    assert(absent_from("double"@, "timestamp"@, 0)) by {
        reveal_strlit("double");
        reveal_strlit("timestamp");
    }
    assert(absent_from("double"@, "datetime"@, 0)) by {
        reveal_strlit("double");
        reveal_strlit("datetime");
    }
    assert(occurs_at("double"@, "double"@, 0)) by {
        reveal_strlit("double");
        reveal_strlit("double");
        assert("double"@.subrange(0, 6) =~= "double"@);
    }
}

#[verifier::spinoff_prover]
proof fn reads_mysql_double_precision_name()
    ensures
        v2_type_from_lower(SqlDialect::MySql, "double precision"@, "double precision"@) == V2DataTypeView::Double,
{
    broadcast use lemma_contains_decided;
    assert(absent_from("double precision"@, "tinyint(1)"@, 0)) by {
        reveal_strlit("double precision");
        reveal_strlit("tinyint(1)");
        reveal_with_fuel(absent_from, 18);
        reveal_with_fuel(differs_at, 12);
    }
    assert(absent_from("double precision"@, "bigint"@, 0)) by {
        reveal_strlit("double precision");
        reveal_strlit("bigint");
        reveal_with_fuel(absent_from, 18);
        reveal_with_fuel(differs_at, 8);
    }
    assert(absent_from("double precision"@, "int"@, 0)) by {
        reveal_strlit("double precision");
        reveal_strlit("int");
        reveal_with_fuel(absent_from, 18);
        reveal_with_fuel(differs_at, 5);
    }
    assert(absent_from("double precision"@, "varchar"@, 0)) by {
        reveal_strlit("double precision");
        reveal_strlit("varchar");
        reveal_with_fuel(absent_from, 18);
        reveal_with_fuel(differs_at, 9);
    }
    assert(absent_from("double precision"@, "text"@, 0)) by {
        reveal_strlit("double precision");
        reveal_strlit("text");
        reveal_with_fuel(absent_from, 18);
        reveal_with_fuel(differs_at, 6);
    }
    assert(absent_from("double precision"@, "timestamp"@, 0)) by {
        reveal_strlit("double precision");
        reveal_strlit("timestamp");
        reveal_with_fuel(absent_from, 18);
        reveal_with_fuel(differs_at, 11);
    }
    assert(absent_from("double precision"@, "datetime"@, 0)) by {
        reveal_strlit("double precision");
        reveal_strlit("datetime");
        reveal_with_fuel(absent_from, 18);
        reveal_with_fuel(differs_at, 10);
    }
    assert(occurs_at("double precision"@, "double"@, 0)) by {
        reveal_strlit("double precision");
        reveal_strlit("double");
        assert("double precision"@.subrange(0, 6) =~= "double"@);
    }
}

#[verifier::spinoff_prover]
proof fn reads_mysql_text_name()
    ensures
        v2_type_from_lower(SqlDialect::MySql, "text"@, "text"@) == V2DataTypeView::Text,
{
    broadcast use lemma_contains_decided;
    assert(absent_from("text"@, "tinyint(1)"@, 0)) by {
        reveal_strlit("text");
        reveal_strlit("tinyint(1)");
    }
    assert(absent_from("text"@, "bigint"@, 0)) by {
        reveal_strlit("text");
        reveal_strlit("bigint");
    }
    assert(absent_from("text"@, "int"@, 0)) by {
        reveal_strlit("text");
        reveal_strlit("int");
        reveal_with_fuel(absent_from, 6);
        reveal_with_fuel(differs_at, 5);
    }
    assert(absent_from("text"@, "varchar"@, 0)) by {
        reveal_strlit("text");
        reveal_strlit("varchar");
    }
    assert(occurs_at("text"@, "text"@, 0)) by {
        reveal_strlit("text");
        reveal_strlit("text");
        assert("text"@.subrange(0, 4) =~= "text"@);
    }
}

#[verifier::spinoff_prover]
proof fn reads_mysql_timestamp_name()
    ensures
        v2_type_from_lower(SqlDialect::MySql, "timestamp"@, "timestamp"@) == V2DataTypeView::Timestamp,
{
    broadcast use lemma_contains_decided;
    assert(absent_from("timestamp"@, "tinyint(1)"@, 0)) by {
        reveal_strlit("timestamp");
        reveal_strlit("tinyint(1)");
    }
    assert(absent_from("timestamp"@, "bigint"@, 0)) by {
        reveal_strlit("timestamp");
        reveal_strlit("bigint");
        reveal_with_fuel(absent_from, 11);
        reveal_with_fuel(differs_at, 8);
    }
    assert(absent_from("timestamp"@, "int"@, 0)) by {
        reveal_strlit("timestamp");
        reveal_strlit("int");
        reveal_with_fuel(absent_from, 11);
        reveal_with_fuel(differs_at, 5);
    }
    assert(absent_from("timestamp"@, "varchar"@, 0)) by {
        reveal_strlit("timestamp");
        reveal_strlit("varchar");
        reveal_with_fuel(absent_from, 11);
        reveal_with_fuel(differs_at, 9);
    }
    assert(absent_from("timestamp"@, "text"@, 0)) by {
        reveal_strlit("timestamp");
        reveal_strlit("text");
        reveal_with_fuel(absent_from, 11);
        reveal_with_fuel(differs_at, 6);
    }
    assert(occurs_at("timestamp"@, "timestamp"@, 0)) by {
        reveal_strlit("timestamp");
        reveal_strlit("timestamp");
        assert("timestamp"@.subrange(0, 9) =~= "timestamp"@);
    }
}

#[verifier::spinoff_prover]
proof fn reads_mysql_datetime_name()
    ensures
        v2_type_from_lower(SqlDialect::MySql, "datetime"@, "datetime"@) == V2DataTypeView::Timestamp,
{
    broadcast use lemma_contains_decided;
    assert(absent_from("datetime"@, "tinyint(1)"@, 0)) by {
        reveal_strlit("datetime");
        reveal_strlit("tinyint(1)");
    }
    assert(absent_from("datetime"@, "bigint"@, 0)) by {
        reveal_strlit("datetime");
        reveal_strlit("bigint");
        reveal_with_fuel(absent_from, 10);
        reveal_with_fuel(differs_at, 8);
    }
    assert(absent_from("datetime"@, "int"@, 0)) by {
        reveal_strlit("datetime");
        reveal_strlit("int");
        reveal_with_fuel(absent_from, 10);
        reveal_with_fuel(differs_at, 5);
    }
    assert(absent_from("datetime"@, "varchar"@, 0)) by {
        reveal_strlit("datetime");
        reveal_strlit("varchar");
        reveal_with_fuel(absent_from, 10);
        reveal_with_fuel(differs_at, 9);
    }
    assert(absent_from("datetime"@, "text"@, 0)) by {
        reveal_strlit("datetime");
        reveal_strlit("text");
        reveal_with_fuel(absent_from, 10);
        reveal_with_fuel(differs_at, 6);
    }
    assert(absent_from("datetime"@, "timestamp"@, 0)) by {
        reveal_strlit("datetime");
        reveal_strlit("timestamp");
    }
    assert(occurs_at("datetime"@, "datetime"@, 0)) by {
        reveal_strlit("datetime");
        reveal_strlit("datetime");
        assert("datetime"@.subrange(0, 8) =~= "datetime"@);
    }
}

#[verifier::spinoff_prover]
proof fn reads_mysql_boolean_name()
    ensures
        v2_type_from_lower(SqlDialect::MySql, "boolean"@, "boolean"@) == V2DataTypeView::Boolean,
{
    broadcast use lemma_contains_decided;
    assert(absent_from("boolean"@, "tinyint(1)"@, 0)) by {
        reveal_strlit("boolean");
        reveal_strlit("tinyint(1)");
    }
    assert(absent_from("boolean"@, "bigint"@, 0)) by {
        reveal_strlit("boolean");
        reveal_strlit("bigint");
        reveal_with_fuel(absent_from, 9);
        reveal_with_fuel(differs_at, 8);
    }
    assert(absent_from("boolean"@, "int"@, 0)) by {
        reveal_strlit("boolean");
        reveal_strlit("int");
        reveal_with_fuel(absent_from, 9);
        reveal_with_fuel(differs_at, 5);
    }
    assert(absent_from("boolean"@, "varchar"@, 0)) by {
        reveal_strlit("boolean");
        reveal_strlit("varchar");
        reveal_with_fuel(absent_from, 9);
        reveal_with_fuel(differs_at, 9);
    }
    assert(absent_from("boolean"@, "text"@, 0)) by {
        reveal_strlit("boolean");
        reveal_strlit("text");
        reveal_with_fuel(absent_from, 9);
        reveal_with_fuel(differs_at, 6);
    }
    assert(absent_from("boolean"@, "timestamp"@, 0)) by {
        reveal_strlit("boolean");
        reveal_strlit("timestamp");
    }
    assert(absent_from("boolean"@, "datetime"@, 0)) by {
        reveal_strlit("boolean");
        reveal_strlit("datetime");
    }
    assert(absent_from("boolean"@, "double"@, 0)) by {
        reveal_strlit("boolean");
        reveal_strlit("double");
        reveal_with_fuel(absent_from, 9);
        reveal_with_fuel(differs_at, 8);
    }
    assert(absent_from("boolean"@, "float"@, 0)) by {
        reveal_strlit("boolean");
        reveal_strlit("float");
        reveal_with_fuel(absent_from, 9);
        reveal_with_fuel(differs_at, 7);
    }
    assert(absent_from("boolean"@, "real"@, 0)) by {
        reveal_strlit("boolean");
        reveal_strlit("real");
        reveal_with_fuel(absent_from, 9);
        reveal_with_fuel(differs_at, 6);
    }
    assert(occurs_at("boolean"@, "bool"@, 0)) by {
        reveal_strlit("boolean");
        reveal_strlit("bool");
        assert("boolean"@.subrange(0, 4) =~= "bool"@);
    }
}

#[verifier::spinoff_prover]
proof fn reads_mysql_bool_name()
    ensures
        v2_type_from_lower(SqlDialect::MySql, "bool"@, "bool"@) == V2DataTypeView::Boolean,
{
    broadcast use lemma_contains_decided;
    assert(absent_from("bool"@, "tinyint(1)"@, 0)) by {
        reveal_strlit("bool");
        reveal_strlit("tinyint(1)");
    }
    assert(absent_from("bool"@, "bigint"@, 0)) by {
        reveal_strlit("bool");
        reveal_strlit("bigint");
    }
    assert(absent_from("bool"@, "int"@, 0)) by {
        reveal_strlit("bool");
        reveal_strlit("int");
        reveal_with_fuel(absent_from, 6);
        reveal_with_fuel(differs_at, 5);
    }
    assert(absent_from("bool"@, "varchar"@, 0)) by {
        reveal_strlit("bool");
        reveal_strlit("varchar");
    }
    assert(absent_from("bool"@, "text"@, 0)) by {
        reveal_strlit("bool");
        reveal_strlit("text");
        reveal_with_fuel(absent_from, 6);
        reveal_with_fuel(differs_at, 6);
    }
    assert(absent_from("bool"@, "timestamp"@, 0)) by {
        reveal_strlit("bool");
        reveal_strlit("timestamp");
    }
    assert(absent_from("bool"@, "datetime"@, 0)) by {
        reveal_strlit("bool");
        reveal_strlit("datetime");
    }
    assert(absent_from("bool"@, "double"@, 0)) by {
        reveal_strlit("bool");
        reveal_strlit("double");
    }
    assert(absent_from("bool"@, "float"@, 0)) by {
        reveal_strlit("bool");
        reveal_strlit("float");
    }
    assert(absent_from("bool"@, "real"@, 0)) by {
        reveal_strlit("bool");
        reveal_strlit("real");
        reveal_with_fuel(absent_from, 6);
        reveal_with_fuel(differs_at, 6);
    }
    assert(occurs_at("bool"@, "bool"@, 0)) by {
        reveal_strlit("bool");
        reveal_strlit("bool");
        assert("bool"@.subrange(0, 4) =~= "bool"@);
    }
}

#[verifier::spinoff_prover]
proof fn reads_mysql_varchar_name()
    ensures
        v2_type_from_lower(SqlDialect::MySql, "varchar"@, "varchar"@) == V2DataTypeView::Varchar(None),
{
    broadcast use lemma_contains_decided;
    assert(absent_from("varchar"@, "tinyint(1)"@, 0)) by {
        reveal_strlit("varchar");
        reveal_strlit("tinyint(1)");
    }
    assert(absent_from("varchar"@, "bigint"@, 0)) by {
        reveal_strlit("varchar");
        reveal_strlit("bigint");
        reveal_with_fuel(absent_from, 9);
        reveal_with_fuel(differs_at, 8);
    }
    assert(absent_from("varchar"@, "int"@, 0)) by {
        reveal_strlit("varchar");
        reveal_strlit("int");
        reveal_with_fuel(absent_from, 9);
        reveal_with_fuel(differs_at, 5);
    }
    assert(occurs_at("varchar"@, "varchar"@, 0)) by {
        reveal_strlit("varchar");
        reveal_strlit("varchar");
        assert("varchar"@.subrange(0, 7) =~= "varchar"@);
    }
    assert forall|k: int| 0 <= k < "varchar"@.len() implies !is_digit(#[trigger] "varchar"@[k]) by {
        reveal_strlit("varchar");
        if k == 0 {}
        else if k == 1 {}
        else if k == 2 {}
        else if k == 3 {}
        else if k == 4 {}
        else if k == 5 {}
        else if k == 6 {}
    }
    lemma_first_u32_skip("varchar"@, Seq::empty());
    assert("varchar"@ + Seq::<char>::empty() =~= "varchar"@);
}

#[verifier::spinoff_prover]
proof fn reads_postgres_int_name()
    ensures
        v2_type_from_lower(SqlDialect::Postgres, "int"@, "int"@) == (V2DataTypeView::Integer { bits: Some(32) }),
{
    broadcast use lemma_contains_decided;
    assert(absent_from("int"@, "tinyint(1)"@, 0)) by {
        reveal_strlit("int");
        reveal_strlit("tinyint(1)");
    }
    assert(absent_from("int"@, "bigint"@, 0)) by {
        reveal_strlit("int");
        reveal_strlit("bigint");
    }
    assert(absent_from("int"@, "smallint"@, 0)) by {
        reveal_strlit("int");
        reveal_strlit("smallint");
    }
    assert(occurs_at("int"@, "int"@, 0)) by {
        reveal_strlit("int");
        reveal_strlit("int");
        assert("int"@.subrange(0, 3) =~= "int"@);
    }
}

#[verifier::spinoff_prover]
proof fn reads_postgres_integer_name()
    ensures
        v2_type_from_lower(SqlDialect::Postgres, "integer"@, "integer"@) == (V2DataTypeView::Integer { bits: Some(32) }),
{
    broadcast use lemma_contains_decided;
    assert(absent_from("integer"@, "tinyint(1)"@, 0)) by {
        reveal_strlit("integer");
        reveal_strlit("tinyint(1)");
    }
    assert(absent_from("integer"@, "bigint"@, 0)) by {
        reveal_strlit("integer");
        reveal_strlit("bigint");
        reveal_with_fuel(absent_from, 9);
        reveal_with_fuel(differs_at, 8);
    }
    assert(absent_from("integer"@, "smallint"@, 0)) by {
        reveal_strlit("integer");
        reveal_strlit("smallint");
    }
    assert(occurs_at("integer"@, "int"@, 0)) by {
        reveal_strlit("integer");
        reveal_strlit("int");
        assert("integer"@.subrange(0, 3) =~= "int"@);
    }
}

#[verifier::spinoff_prover]
proof fn reads_postgres_bigint_name()
    ensures
        v2_type_from_lower(SqlDialect::Postgres, "bigint"@, "bigint"@) == (V2DataTypeView::Integer { bits: Some(64) }),
{
    broadcast use lemma_contains_decided;
    assert(absent_from("bigint"@, "tinyint(1)"@, 0)) by {
        reveal_strlit("bigint");
        reveal_strlit("tinyint(1)");
    }
    assert(occurs_at("bigint"@, "bigint"@, 0)) by {
        reveal_strlit("bigint");
        reveal_strlit("bigint");
        assert("bigint"@.subrange(0, 6) =~= "bigint"@);
    }
}

#[verifier::spinoff_prover]
proof fn reads_postgres_float_name()
    ensures
        v2_type_from_lower(SqlDialect::Postgres, "float"@, "float"@) == V2DataTypeView::Float,
{
    broadcast use lemma_contains_decided;
    assert(absent_from("float"@, "tinyint(1)"@, 0)) by {
        reveal_strlit("float");
        reveal_strlit("tinyint(1)");
    }
    assert(absent_from("float"@, "bigint"@, 0)) by {
        reveal_strlit("float");
        reveal_strlit("bigint");
    }
    assert(absent_from("float"@, "smallint"@, 0)) by {
        reveal_strlit("float");
        reveal_strlit("smallint");
    }
    assert(absent_from("float"@, "int"@, 0)) by {
        reveal_strlit("float");
        reveal_strlit("int");
        reveal_with_fuel(absent_from, 7);
        reveal_with_fuel(differs_at, 5);
    }
    assert(absent_from("float"@, "double"@, 0)) by {
        reveal_strlit("float");
        reveal_strlit("double");
    }
    assert(absent_from("float"@, "float8"@, 0)) by {
        reveal_strlit("float");
        reveal_strlit("float8");
    }
    assert(absent_from("float"@, "double precision"@, 0)) by {
        reveal_strlit("float");
        reveal_strlit("double precision");
    }
    assert(occurs_at("float"@, "float"@, 0)) by {
        reveal_strlit("float");
        reveal_strlit("float");
        assert("float"@.subrange(0, 5) =~= "float"@);
    }
}

#[verifier::spinoff_prover]
proof fn reads_postgres_real_name()
    ensures
        v2_type_from_lower(SqlDialect::Postgres, "real"@, "real"@) == V2DataTypeView::Float,
{
    broadcast use lemma_contains_decided;
    assert(absent_from("real"@, "tinyint(1)"@, 0)) by {
        reveal_strlit("real");
        reveal_strlit("tinyint(1)");
    }
    assert(absent_from("real"@, "bigint"@, 0)) by {
        reveal_strlit("real");
        reveal_strlit("bigint");
    }
    assert(absent_from("real"@, "smallint"@, 0)) by {
        reveal_strlit("real");
        reveal_strlit("smallint");
    }
    assert(absent_from("real"@, "int"@, 0)) by {
        reveal_strlit("real");
        reveal_strlit("int");
        reveal_with_fuel(absent_from, 6);
        reveal_with_fuel(differs_at, 5);
    }
    assert(absent_from("real"@, "double"@, 0)) by {
        reveal_strlit("real");
        reveal_strlit("double");
    }
    assert(absent_from("real"@, "float8"@, 0)) by {
        reveal_strlit("real");
        reveal_strlit("float8");
    }
    assert(absent_from("real"@, "double precision"@, 0)) by {
        reveal_strlit("real");
        reveal_strlit("double precision");
    }
    assert(absent_from("real"@, "float"@, 0)) by {
        reveal_strlit("real");
        reveal_strlit("float");
    }
    assert(occurs_at("real"@, "real"@, 0)) by {
        reveal_strlit("real");
        reveal_strlit("real");
        assert("real"@.subrange(0, 4) =~= "real"@);
    }
}

#[verifier::spinoff_prover]
proof fn reads_postgres_double_name()
    ensures
        v2_type_from_lower(SqlDialect::Postgres, "double"@, "double"@) == V2DataTypeView::Double,
{
    broadcast use lemma_contains_decided;
    assert(absent_from("double"@, "tinyint(1)"@, 0)) by {
        reveal_strlit("double");
        reveal_strlit("tinyint(1)");
    }
    assert(absent_from("double"@, "bigint"@, 0)) by {
        reveal_strlit("double");
        reveal_strlit("bigint");
        reveal_with_fuel(absent_from, 8);
        reveal_with_fuel(differs_at, 8);
    }
    assert(absent_from("double"@, "smallint"@, 0)) by {
        reveal_strlit("double");
        reveal_strlit("smallint");
    }
    assert(absent_from("double"@, "int"@, 0)) by {
        reveal_strlit("double");
        reveal_strlit("int");
        reveal_with_fuel(absent_from, 8);
        reveal_with_fuel(differs_at, 5);
    }
    assert(occurs_at("double"@, "double"@, 0)) by {
        reveal_strlit("double");
        reveal_strlit("double");
        assert("double"@.subrange(0, 6) =~= "double"@);
    }
}

#[verifier::spinoff_prover]
proof fn reads_postgres_double_precision_name()
    ensures
        v2_type_from_lower(SqlDialect::Postgres, "double precision"@, "double precision"@) == V2DataTypeView::Double,
{
    broadcast use lemma_contains_decided;
    assert(absent_from("double precision"@, "tinyint(1)"@, 0)) by {
        reveal_strlit("double precision");
        reveal_strlit("tinyint(1)");
        reveal_with_fuel(absent_from, 18);
        reveal_with_fuel(differs_at, 12);
    }
    assert(absent_from("double precision"@, "bigint"@, 0)) by {
        reveal_strlit("double precision");
        reveal_strlit("bigint");
        reveal_with_fuel(absent_from, 18);
        reveal_with_fuel(differs_at, 8);
    }
    assert(absent_from("double precision"@, "smallint"@, 0)) by {
        reveal_strlit("double precision");
        reveal_strlit("smallint");
        reveal_with_fuel(absent_from, 18);
        reveal_with_fuel(differs_at, 10);
    }
    assert(absent_from("double precision"@, "int"@, 0)) by {
        reveal_strlit("double precision");
        reveal_strlit("int");
        reveal_with_fuel(absent_from, 18);
        reveal_with_fuel(differs_at, 5);
    }
    assert(occurs_at("double precision"@, "double"@, 0)) by {
        reveal_strlit("double precision");
        reveal_strlit("double");
        assert("double precision"@.subrange(0, 6) =~= "double"@);
    }
}

#[verifier::spinoff_prover]
proof fn reads_postgres_text_name()
    ensures
        v2_type_from_lower(SqlDialect::Postgres, "text"@, "text"@) == V2DataTypeView::Text,
{
    broadcast use lemma_contains_decided;
    assert(absent_from("text"@, "tinyint(1)"@, 0)) by {
        reveal_strlit("text");
        reveal_strlit("tinyint(1)");
    }
    assert(absent_from("text"@, "bigint"@, 0)) by {
        reveal_strlit("text");
        reveal_strlit("bigint");
    }
    assert(absent_from("text"@, "smallint"@, 0)) by {
        reveal_strlit("text");
        reveal_strlit("smallint");
    }
    assert(absent_from("text"@, "int"@, 0)) by {
        reveal_strlit("text");
        reveal_strlit("int");
        reveal_with_fuel(absent_from, 6);
        reveal_with_fuel(differs_at, 5);
    }
    assert(absent_from("text"@, "double"@, 0)) by {
        reveal_strlit("text");
        reveal_strlit("double");
    }
    assert(absent_from("text"@, "float8"@, 0)) by {
        reveal_strlit("text");
        reveal_strlit("float8");
    }
    assert(absent_from("text"@, "double precision"@, 0)) by {
        reveal_strlit("text");
        reveal_strlit("double precision");
    }
    assert(absent_from("text"@, "float"@, 0)) by {
        reveal_strlit("text");
        reveal_strlit("float");
    }
    assert(absent_from("text"@, "real"@, 0)) by {
        reveal_strlit("text");
        reveal_strlit("real");
        reveal_with_fuel(absent_from, 6);
        reveal_with_fuel(differs_at, 6);
    }
    assert(absent_from("text"@, "varchar"@, 0)) by {
        reveal_strlit("text");
        reveal_strlit("varchar");
    }
    assert(absent_from("text"@, "character varying"@, 0)) by {
        reveal_strlit("text");
        reveal_strlit("character varying");
    }
    assert(absent_from("text"@, "char"@, 0)) by {
        reveal_strlit("text");
        reveal_strlit("char");
        reveal_with_fuel(absent_from, 6);
        reveal_with_fuel(differs_at, 6);
    }
    assert(occurs_at("text"@, "text"@, 0)) by {
        reveal_strlit("text");
        reveal_strlit("text");
        assert("text"@.subrange(0, 4) =~= "text"@);
    }
}

#[verifier::spinoff_prover]
proof fn reads_postgres_timestamp_name()
    ensures
        v2_type_from_lower(SqlDialect::Postgres, "timestamp"@, "timestamp"@) == V2DataTypeView::Timestamp,
{
    broadcast use lemma_contains_decided;
    assert(absent_from("timestamp"@, "tinyint(1)"@, 0)) by {
        reveal_strlit("timestamp");
        reveal_strlit("tinyint(1)");
    }
    assert(absent_from("timestamp"@, "bigint"@, 0)) by {
        reveal_strlit("timestamp");
        reveal_strlit("bigint");
        reveal_with_fuel(absent_from, 11);
        reveal_with_fuel(differs_at, 8);
    }
    assert(absent_from("timestamp"@, "smallint"@, 0)) by {
        reveal_strlit("timestamp");
        reveal_strlit("smallint");
        reveal_with_fuel(absent_from, 11);
        reveal_with_fuel(differs_at, 10);
    }
    assert(absent_from("timestamp"@, "int"@, 0)) by {
        reveal_strlit("timestamp");
        reveal_strlit("int");
        reveal_with_fuel(absent_from, 11);
        reveal_with_fuel(differs_at, 5);
    }
    assert(absent_from("timestamp"@, "double"@, 0)) by {
        reveal_strlit("timestamp");
        reveal_strlit("double");
        reveal_with_fuel(absent_from, 11);
        reveal_with_fuel(differs_at, 8);
    }
    assert(absent_from("timestamp"@, "float8"@, 0)) by {
        reveal_strlit("timestamp");
        reveal_strlit("float8");
        reveal_with_fuel(absent_from, 11);
        reveal_with_fuel(differs_at, 8);
    }
    assert(absent_from("timestamp"@, "double precision"@, 0)) by {
        reveal_strlit("timestamp");
        reveal_strlit("double precision");
    }
    assert(absent_from("timestamp"@, "float"@, 0)) by {
        reveal_strlit("timestamp");
        reveal_strlit("float");
        reveal_with_fuel(absent_from, 11);
        reveal_with_fuel(differs_at, 7);
    }
    assert(absent_from("timestamp"@, "real"@, 0)) by {
        reveal_strlit("timestamp");
        reveal_strlit("real");
        reveal_with_fuel(absent_from, 11);
        reveal_with_fuel(differs_at, 6);
    }
    assert(absent_from("timestamp"@, "varchar"@, 0)) by {
        reveal_strlit("timestamp");
        reveal_strlit("varchar");
        reveal_with_fuel(absent_from, 11);
        reveal_with_fuel(differs_at, 9);
    }
    assert(absent_from("timestamp"@, "character varying"@, 0)) by {
        reveal_strlit("timestamp");
        reveal_strlit("character varying");
    }
    assert(absent_from("timestamp"@, "char"@, 0)) by {
        reveal_strlit("timestamp");
        reveal_strlit("char");
        reveal_with_fuel(absent_from, 11);
        reveal_with_fuel(differs_at, 6);
    }
    assert(absent_from("timestamp"@, "text"@, 0)) by {
        reveal_strlit("timestamp");
        reveal_strlit("text");
        reveal_with_fuel(absent_from, 11);
        reveal_with_fuel(differs_at, 6);
    }
    assert(occurs_at("timestamp"@, "timestamp"@, 0)) by {
        reveal_strlit("timestamp");
        reveal_strlit("timestamp");
        assert("timestamp"@.subrange(0, 9) =~= "timestamp"@);
    }
}

#[verifier::spinoff_prover]
proof fn reads_postgres_datetime_name()
    ensures
        v2_type_from_lower(SqlDialect::Postgres, "datetime"@, "datetime"@) == V2DataTypeView::Timestamp,
{
    broadcast use lemma_contains_decided;
    assert(absent_from("datetime"@, "tinyint(1)"@, 0)) by {
        reveal_strlit("datetime");
        reveal_strlit("tinyint(1)");
    }
    assert(absent_from("datetime"@, "bigint"@, 0)) by {
        reveal_strlit("datetime");
        reveal_strlit("bigint");
        reveal_with_fuel(absent_from, 10);
        reveal_with_fuel(differs_at, 8);
    }
    assert(absent_from("datetime"@, "smallint"@, 0)) by {
        reveal_strlit("datetime");
        reveal_strlit("smallint");
        reveal_with_fuel(absent_from, 10);
        reveal_with_fuel(differs_at, 10);
    }
    assert(absent_from("datetime"@, "int"@, 0)) by {
        reveal_strlit("datetime");
        reveal_strlit("int");
        reveal_with_fuel(absent_from, 10);
        reveal_with_fuel(differs_at, 5);
    }
    assert(absent_from("datetime"@, "double"@, 0)) by {
        reveal_strlit("datetime");
        reveal_strlit("double");
        reveal_with_fuel(absent_from, 10);
        reveal_with_fuel(differs_at, 8);
    }
    assert(absent_from("datetime"@, "float8"@, 0)) by {
        reveal_strlit("datetime");
        reveal_strlit("float8");
        reveal_with_fuel(absent_from, 10);
        reveal_with_fuel(differs_at, 8);
    }
    assert(absent_from("datetime"@, "double precision"@, 0)) by {
        reveal_strlit("datetime");
        reveal_strlit("double precision");
    }
    assert(absent_from("datetime"@, "float"@, 0)) by {
        reveal_strlit("datetime");
        reveal_strlit("float");
        reveal_with_fuel(absent_from, 10);
        reveal_with_fuel(differs_at, 7);
    }
    assert(absent_from("datetime"@, "real"@, 0)) by {
        reveal_strlit("datetime");
        reveal_strlit("real");
        reveal_with_fuel(absent_from, 10);
        reveal_with_fuel(differs_at, 6);
    }
    assert(absent_from("datetime"@, "varchar"@, 0)) by {
        reveal_strlit("datetime");
        reveal_strlit("varchar");
        reveal_with_fuel(absent_from, 10);
        reveal_with_fuel(differs_at, 9);
    }
    assert(absent_from("datetime"@, "character varying"@, 0)) by {
        reveal_strlit("datetime");
        reveal_strlit("character varying");
    }
    assert(absent_from("datetime"@, "char"@, 0)) by {
        reveal_strlit("datetime");
        reveal_strlit("char");
        reveal_with_fuel(absent_from, 10);
        reveal_with_fuel(differs_at, 6);
    }
    assert(absent_from("datetime"@, "text"@, 0)) by {
        reveal_strlit("datetime");
        reveal_strlit("text");
        reveal_with_fuel(absent_from, 10);
        reveal_with_fuel(differs_at, 6);
    }
    assert(absent_from("datetime"@, "timestamp"@, 0)) by {
        reveal_strlit("datetime");
        reveal_strlit("timestamp");
    }
    assert(occurs_at("datetime"@, "datetime"@, 0)) by {
        reveal_strlit("datetime");
        reveal_strlit("datetime");
        assert("datetime"@.subrange(0, 8) =~= "datetime"@);
    }
}

#[verifier::spinoff_prover]
proof fn reads_postgres_varchar_name()
    ensures
        v2_type_from_lower(SqlDialect::Postgres, "varchar"@, "varchar"@) == V2DataTypeView::Varchar(None),
{
    broadcast use lemma_contains_decided;
    assert(absent_from("varchar"@, "tinyint(1)"@, 0)) by {
        reveal_strlit("varchar");
        reveal_strlit("tinyint(1)");
    }
    assert(absent_from("varchar"@, "bigint"@, 0)) by {
        reveal_strlit("varchar");
        reveal_strlit("bigint");
        reveal_with_fuel(absent_from, 9);
        reveal_with_fuel(differs_at, 8);
    }
    assert(absent_from("varchar"@, "smallint"@, 0)) by {
        reveal_strlit("varchar");
        reveal_strlit("smallint");
    }
    assert(absent_from("varchar"@, "int"@, 0)) by {
        reveal_strlit("varchar");
        reveal_strlit("int");
        reveal_with_fuel(absent_from, 9);
        reveal_with_fuel(differs_at, 5);
    }
    assert(absent_from("varchar"@, "double"@, 0)) by {
        reveal_strlit("varchar");
        reveal_strlit("double");
        reveal_with_fuel(absent_from, 9);
        reveal_with_fuel(differs_at, 8);
    }
    assert(absent_from("varchar"@, "float8"@, 0)) by {
        reveal_strlit("varchar");
        reveal_strlit("float8");
        reveal_with_fuel(absent_from, 9);
        reveal_with_fuel(differs_at, 8);
    }
    assert(absent_from("varchar"@, "double precision"@, 0)) by {
        reveal_strlit("varchar");
        reveal_strlit("double precision");
    }
    assert(absent_from("varchar"@, "float"@, 0)) by {
        reveal_strlit("varchar");
        reveal_strlit("float");
        reveal_with_fuel(absent_from, 9);
        reveal_with_fuel(differs_at, 7);
    }
    assert(absent_from("varchar"@, "real"@, 0)) by {
        reveal_strlit("varchar");
        reveal_strlit("real");
        reveal_with_fuel(absent_from, 9);
        reveal_with_fuel(differs_at, 6);
    }
    assert(occurs_at("varchar"@, "varchar"@, 0)) by {
        reveal_strlit("varchar");
        reveal_strlit("varchar");
        assert("varchar"@.subrange(0, 7) =~= "varchar"@);
    }
    assert forall|k: int| 0 <= k < "varchar"@.len() implies !is_digit(#[trigger] "varchar"@[k]) by {
        reveal_strlit("varchar");
        if k == 0 {}
        else if k == 1 {}
        else if k == 2 {}
        else if k == 3 {}
        else if k == 4 {}
        else if k == 5 {}
        else if k == 6 {}
    }
    lemma_first_u32_skip("varchar"@, Seq::empty());
    assert("varchar"@ + Seq::<char>::empty() =~= "varchar"@);
}

#[verifier::spinoff_prover]
proof fn reads_sqlite_int_name()
    ensures
        v2_type_from_lower(SqlDialect::Sqlite, "int"@, "int"@) == (V2DataTypeView::Integer { bits: Some(32) }),
{
    broadcast use lemma_contains_decided;
    assert(absent_from("int"@, "bigint"@, 0)) by {
        reveal_strlit("int");
        reveal_strlit("bigint");
    }
    assert(occurs_at("int"@, "int"@, 0)) by {
        reveal_strlit("int");
        reveal_strlit("int");
        assert("int"@.subrange(0, 3) =~= "int"@);
    }
}

#[verifier::spinoff_prover]
proof fn reads_sqlite_integer_name()
    ensures
        v2_type_from_lower(SqlDialect::Sqlite, "integer"@, "integer"@) == (V2DataTypeView::Integer { bits: Some(32) }),
{
    broadcast use lemma_contains_decided;
    assert(absent_from("integer"@, "bigint"@, 0)) by {
        reveal_strlit("integer");
        reveal_strlit("bigint");
        reveal_with_fuel(absent_from, 9);
        reveal_with_fuel(differs_at, 8);
    }
    assert(occurs_at("integer"@, "int"@, 0)) by {
        reveal_strlit("integer");
        reveal_strlit("int");
        assert("integer"@.subrange(0, 3) =~= "int"@);
    }
}

#[verifier::spinoff_prover]
proof fn reads_sqlite_bigint_name()
    ensures
        v2_type_from_lower(SqlDialect::Sqlite, "bigint"@, "bigint"@) == (V2DataTypeView::Integer { bits: Some(64) }),
{
    broadcast use lemma_contains_decided;
    assert(occurs_at("bigint"@, "bigint"@, 0)) by {
        reveal_strlit("bigint");
        reveal_strlit("bigint");
        assert("bigint"@.subrange(0, 6) =~= "bigint"@);
    }
}

#[verifier::spinoff_prover]
proof fn reads_sqlite_float_name()
    ensures
        v2_type_from_lower(SqlDialect::Sqlite, "float"@, "float"@) == V2DataTypeView::Float,
{
    broadcast use lemma_contains_decided;
    assert(absent_from("float"@, "bigint"@, 0)) by {
        reveal_strlit("float");
        reveal_strlit("bigint");
    }
    assert(absent_from("float"@, "int"@, 0)) by {
        reveal_strlit("float");
        reveal_strlit("int");
        reveal_with_fuel(absent_from, 7);
        reveal_with_fuel(differs_at, 5);
    }
    assert(absent_from("float"@, "bool"@, 0)) by {
        reveal_strlit("float");
        reveal_strlit("bool");
        reveal_with_fuel(absent_from, 7);
        reveal_with_fuel(differs_at, 6);
    }
    assert(absent_from("float"@, "tinyint(1)"@, 0)) by {
        reveal_strlit("float");
        reveal_strlit("tinyint(1)");
    }
    assert(absent_from("float"@, "double"@, 0)) by {
        reveal_strlit("float");
        reveal_strlit("double");
    }
    assert(occurs_at("float"@, "float"@, 0)) by {
        reveal_strlit("float");
        reveal_strlit("float");
        assert("float"@.subrange(0, 5) =~= "float"@);
    }
}

#[verifier::spinoff_prover]
proof fn reads_sqlite_real_name()
    ensures
        v2_type_from_lower(SqlDialect::Sqlite, "real"@, "real"@) == V2DataTypeView::Float,
{
    broadcast use lemma_contains_decided;
    assert(absent_from("real"@, "bigint"@, 0)) by {
        reveal_strlit("real");
        reveal_strlit("bigint");
    }
    assert(absent_from("real"@, "int"@, 0)) by {
        reveal_strlit("real");
        reveal_strlit("int");
        reveal_with_fuel(absent_from, 6);
        reveal_with_fuel(differs_at, 5);
    }
    assert(absent_from("real"@, "bool"@, 0)) by {
        reveal_strlit("real");
        reveal_strlit("bool");
        reveal_with_fuel(absent_from, 6);
        reveal_with_fuel(differs_at, 6);
    }
    assert(absent_from("real"@, "tinyint(1)"@, 0)) by {
        reveal_strlit("real");
        reveal_strlit("tinyint(1)");
    }
    assert(absent_from("real"@, "double"@, 0)) by {
        reveal_strlit("real");
        reveal_strlit("double");
    }
    assert(absent_from("real"@, "float"@, 0)) by {
        reveal_strlit("real");
        reveal_strlit("float");
    }
    assert(occurs_at("real"@, "real"@, 0)) by {
        reveal_strlit("real");
        reveal_strlit("real");
        assert("real"@.subrange(0, 4) =~= "real"@);
    }
}

#[verifier::spinoff_prover]
proof fn reads_sqlite_double_name()
    ensures
        v2_type_from_lower(SqlDialect::Sqlite, "double"@, "double"@) == V2DataTypeView::Double,
{
    broadcast use lemma_contains_decided;
    assert(absent_from("double"@, "bigint"@, 0)) by {
        reveal_strlit("double");
        reveal_strlit("bigint");
        reveal_with_fuel(absent_from, 8);
        reveal_with_fuel(differs_at, 8);
    }
    assert(absent_from("double"@, "int"@, 0)) by {
        reveal_strlit("double");
        reveal_strlit("int");
        reveal_with_fuel(absent_from, 8);
        reveal_with_fuel(differs_at, 5);
    }
    assert(absent_from("double"@, "bool"@, 0)) by {
        reveal_strlit("double");
        reveal_strlit("bool");
        reveal_with_fuel(absent_from, 8);
        reveal_with_fuel(differs_at, 6);
    }
    assert(absent_from("double"@, "tinyint(1)"@, 0)) by {
        reveal_strlit("double");
        reveal_strlit("tinyint(1)");
    }
    assert(occurs_at("double"@, "double"@, 0)) by {
        reveal_strlit("double");
        reveal_strlit("double");
        assert("double"@.subrange(0, 6) =~= "double"@);
    }
}

#[verifier::spinoff_prover]
proof fn reads_sqlite_double_precision_name()
    ensures
        v2_type_from_lower(SqlDialect::Sqlite, "double precision"@, "double precision"@) == V2DataTypeView::Double,
{
    broadcast use lemma_contains_decided;
    assert(absent_from("double precision"@, "bigint"@, 0)) by {
        reveal_strlit("double precision");
        reveal_strlit("bigint");
        reveal_with_fuel(absent_from, 18);
        reveal_with_fuel(differs_at, 8);
    }
    assert(absent_from("double precision"@, "int"@, 0)) by {
        reveal_strlit("double precision");
        reveal_strlit("int");
        reveal_with_fuel(absent_from, 18);
        reveal_with_fuel(differs_at, 5);
    }
    assert(absent_from("double precision"@, "bool"@, 0)) by {
        reveal_strlit("double precision");
        reveal_strlit("bool");
        reveal_with_fuel(absent_from, 18);
        reveal_with_fuel(differs_at, 6);
    }
    assert(absent_from("double precision"@, "tinyint(1)"@, 0)) by {
        reveal_strlit("double precision");
        reveal_strlit("tinyint(1)");
        reveal_with_fuel(absent_from, 18);
        reveal_with_fuel(differs_at, 12);
    }
    assert(occurs_at("double precision"@, "double"@, 0)) by {
        reveal_strlit("double precision");
        reveal_strlit("double");
        assert("double precision"@.subrange(0, 6) =~= "double"@);
    }
}

#[verifier::spinoff_prover]
proof fn reads_sqlite_text_name()
    ensures
        v2_type_from_lower(SqlDialect::Sqlite, "text"@, "text"@) == V2DataTypeView::Text,
{
    broadcast use lemma_contains_decided;
    assert(absent_from("text"@, "bigint"@, 0)) by {
        reveal_strlit("text");
        reveal_strlit("bigint");
    }
    assert(absent_from("text"@, "int"@, 0)) by {
        reveal_strlit("text");
        reveal_strlit("int");
        reveal_with_fuel(absent_from, 6);
        reveal_with_fuel(differs_at, 5);
    }
    assert(absent_from("text"@, "bool"@, 0)) by {
        reveal_strlit("text");
        reveal_strlit("bool");
        reveal_with_fuel(absent_from, 6);
        reveal_with_fuel(differs_at, 6);
    }
    assert(absent_from("text"@, "tinyint(1)"@, 0)) by {
        reveal_strlit("text");
        reveal_strlit("tinyint(1)");
    }
    assert(absent_from("text"@, "double"@, 0)) by {
        reveal_strlit("text");
        reveal_strlit("double");
    }
    assert(absent_from("text"@, "float"@, 0)) by {
        reveal_strlit("text");
        reveal_strlit("float");
    }
    assert(absent_from("text"@, "real"@, 0)) by {
        reveal_strlit("text");
        reveal_strlit("real");
        reveal_with_fuel(absent_from, 6);
        reveal_with_fuel(differs_at, 6);
    }
    assert(absent_from("text"@, "varchar"@, 0)) by {
        reveal_strlit("text");
        reveal_strlit("varchar");
    }
    assert(absent_from("text"@, "character varying"@, 0)) by {
        reveal_strlit("text");
        reveal_strlit("character varying");
    }
    assert(occurs_at("text"@, "text"@, 0)) by {
        reveal_strlit("text");
        reveal_strlit("text");
        assert("text"@.subrange(0, 4) =~= "text"@);
    }
}

#[verifier::spinoff_prover]
proof fn reads_sqlite_timestamp_name()
    ensures
        v2_type_from_lower(SqlDialect::Sqlite, "timestamp"@, "timestamp"@) == V2DataTypeView::Timestamp,
{
    broadcast use lemma_contains_decided;
    assert(absent_from("timestamp"@, "bigint"@, 0)) by {
        reveal_strlit("timestamp");
        reveal_strlit("bigint");
        reveal_with_fuel(absent_from, 11);
        reveal_with_fuel(differs_at, 8);
    }
    assert(absent_from("timestamp"@, "int"@, 0)) by {
        reveal_strlit("timestamp");
        reveal_strlit("int");
        reveal_with_fuel(absent_from, 11);
        reveal_with_fuel(differs_at, 5);
    }
    assert(absent_from("timestamp"@, "bool"@, 0)) by {
        reveal_strlit("timestamp");
        reveal_strlit("bool");
        reveal_with_fuel(absent_from, 11);
        reveal_with_fuel(differs_at, 6);
    }
    assert(absent_from("timestamp"@, "tinyint(1)"@, 0)) by {
        reveal_strlit("timestamp");
        reveal_strlit("tinyint(1)");
    }
    assert(absent_from("timestamp"@, "double"@, 0)) by {
        reveal_strlit("timestamp");
        reveal_strlit("double");
        reveal_with_fuel(absent_from, 11);
        reveal_with_fuel(differs_at, 8);
    }
    assert(absent_from("timestamp"@, "float"@, 0)) by {
        reveal_strlit("timestamp");
        reveal_strlit("float");
        reveal_with_fuel(absent_from, 11);
        reveal_with_fuel(differs_at, 7);
    }
    assert(absent_from("timestamp"@, "real"@, 0)) by {
        reveal_strlit("timestamp");
        reveal_strlit("real");
        reveal_with_fuel(absent_from, 11);
        reveal_with_fuel(differs_at, 6);
    }
    assert(absent_from("timestamp"@, "varchar"@, 0)) by {
        reveal_strlit("timestamp");
        reveal_strlit("varchar");
        reveal_with_fuel(absent_from, 11);
        reveal_with_fuel(differs_at, 9);
    }
    assert(absent_from("timestamp"@, "character varying"@, 0)) by {
        reveal_strlit("timestamp");
        reveal_strlit("character varying");
    }
    assert(absent_from("timestamp"@, "text"@, 0)) by {
        reveal_strlit("timestamp");
        reveal_strlit("text");
        reveal_with_fuel(absent_from, 11);
        reveal_with_fuel(differs_at, 6);
    }
    assert(absent_from("timestamp"@, "string"@, 0)) by {
        reveal_strlit("timestamp");
        reveal_strlit("string");
        reveal_with_fuel(absent_from, 11);
        reveal_with_fuel(differs_at, 8);
    }
    assert(occurs_at("timestamp"@, "timestamp"@, 0)) by {
        reveal_strlit("timestamp");
        reveal_strlit("timestamp");
        assert("timestamp"@.subrange(0, 9) =~= "timestamp"@);
    }
}

#[verifier::spinoff_prover]
proof fn reads_sqlite_datetime_name()
    ensures
        v2_type_from_lower(SqlDialect::Sqlite, "datetime"@, "datetime"@) == V2DataTypeView::Timestamp,
{
    broadcast use lemma_contains_decided;
    assert(absent_from("datetime"@, "bigint"@, 0)) by {
        reveal_strlit("datetime");
        reveal_strlit("bigint");
        reveal_with_fuel(absent_from, 10);
        reveal_with_fuel(differs_at, 8);
    }
    assert(absent_from("datetime"@, "int"@, 0)) by {
        reveal_strlit("datetime");
        reveal_strlit("int");
        reveal_with_fuel(absent_from, 10);
        reveal_with_fuel(differs_at, 5);
    }
    assert(absent_from("datetime"@, "bool"@, 0)) by {
        reveal_strlit("datetime");
        reveal_strlit("bool");
        reveal_with_fuel(absent_from, 10);
        reveal_with_fuel(differs_at, 6);
    }
    assert(absent_from("datetime"@, "tinyint(1)"@, 0)) by {
        reveal_strlit("datetime");
        reveal_strlit("tinyint(1)");
    }
    assert(absent_from("datetime"@, "double"@, 0)) by {
        reveal_strlit("datetime");
        reveal_strlit("double");
        reveal_with_fuel(absent_from, 10);
        reveal_with_fuel(differs_at, 8);
    }
    assert(absent_from("datetime"@, "float"@, 0)) by {
        reveal_strlit("datetime");
        reveal_strlit("float");
        reveal_with_fuel(absent_from, 10);
        reveal_with_fuel(differs_at, 7);
    }
    assert(absent_from("datetime"@, "real"@, 0)) by {
        reveal_strlit("datetime");
        reveal_strlit("real");
        reveal_with_fuel(absent_from, 10);
        reveal_with_fuel(differs_at, 6);
    }
    assert(absent_from("datetime"@, "varchar"@, 0)) by {
        reveal_strlit("datetime");
        reveal_strlit("varchar");
        reveal_with_fuel(absent_from, 10);
        reveal_with_fuel(differs_at, 9);
    }
    assert(absent_from("datetime"@, "character varying"@, 0)) by {
        reveal_strlit("datetime");
        reveal_strlit("character varying");
    }
    assert(absent_from("datetime"@, "text"@, 0)) by {
        reveal_strlit("datetime");
        reveal_strlit("text");
        reveal_with_fuel(absent_from, 10);
        reveal_with_fuel(differs_at, 6);
    }
    assert(absent_from("datetime"@, "string"@, 0)) by {
        reveal_strlit("datetime");
        reveal_strlit("string");
        reveal_with_fuel(absent_from, 10);
        reveal_with_fuel(differs_at, 8);
    }
    assert(absent_from("datetime"@, "timestamp"@, 0)) by {
        reveal_strlit("datetime");
        reveal_strlit("timestamp");
    }
    assert(occurs_at("datetime"@, "datetime"@, 0)) by {
        reveal_strlit("datetime");
        reveal_strlit("datetime");
        assert("datetime"@.subrange(0, 8) =~= "datetime"@);
    }
}

#[verifier::spinoff_prover]
proof fn reads_sqlite_boolean_name()
    ensures
        v2_type_from_lower(SqlDialect::Sqlite, "boolean"@, "boolean"@) == V2DataTypeView::Boolean,
{
    broadcast use lemma_contains_decided;
    assert(absent_from("boolean"@, "bigint"@, 0)) by {
        reveal_strlit("boolean");
        reveal_strlit("bigint");
        reveal_with_fuel(absent_from, 9);
        reveal_with_fuel(differs_at, 8);
    }
    assert(absent_from("boolean"@, "int"@, 0)) by {
        reveal_strlit("boolean");
        reveal_strlit("int");
        reveal_with_fuel(absent_from, 9);
        reveal_with_fuel(differs_at, 5);
    }
    assert(occurs_at("boolean"@, "bool"@, 0)) by {
        reveal_strlit("boolean");
        reveal_strlit("bool");
        assert("boolean"@.subrange(0, 4) =~= "bool"@);
    }
}

#[verifier::spinoff_prover]
proof fn reads_sqlite_bool_name()
    ensures
        v2_type_from_lower(SqlDialect::Sqlite, "bool"@, "bool"@) == V2DataTypeView::Boolean,
{
    broadcast use lemma_contains_decided;
    assert(absent_from("bool"@, "bigint"@, 0)) by {
        reveal_strlit("bool");
        reveal_strlit("bigint");
    }
    assert(absent_from("bool"@, "int"@, 0)) by {
        reveal_strlit("bool");
        reveal_strlit("int");
        reveal_with_fuel(absent_from, 6);
        reveal_with_fuel(differs_at, 5);
    }
    assert(occurs_at("bool"@, "bool"@, 0)) by {
        reveal_strlit("bool");
        reveal_strlit("bool");
        assert("bool"@.subrange(0, 4) =~= "bool"@);
    }
}

#[verifier::spinoff_prover]
proof fn reads_sqlite_varchar_name()
    ensures
        v2_type_from_lower(SqlDialect::Sqlite, "varchar"@, "varchar"@) == V2DataTypeView::Varchar(None),
{
    broadcast use lemma_contains_decided;
    assert(absent_from("varchar"@, "bigint"@, 0)) by {
        reveal_strlit("varchar");
        reveal_strlit("bigint");
        reveal_with_fuel(absent_from, 9);
        reveal_with_fuel(differs_at, 8);
    }
    assert(absent_from("varchar"@, "int"@, 0)) by {
        reveal_strlit("varchar");
        reveal_strlit("int");
        reveal_with_fuel(absent_from, 9);
        reveal_with_fuel(differs_at, 5);
    }
    assert(absent_from("varchar"@, "bool"@, 0)) by {
        reveal_strlit("varchar");
        reveal_strlit("bool");
        reveal_with_fuel(absent_from, 9);
        reveal_with_fuel(differs_at, 6);
    }
    assert(absent_from("varchar"@, "tinyint(1)"@, 0)) by {
        reveal_strlit("varchar");
        reveal_strlit("tinyint(1)");
    }
    assert(absent_from("varchar"@, "double"@, 0)) by {
        reveal_strlit("varchar");
        reveal_strlit("double");
        reveal_with_fuel(absent_from, 9);
        reveal_with_fuel(differs_at, 8);
    }
    assert(absent_from("varchar"@, "float"@, 0)) by {
        reveal_strlit("varchar");
        reveal_strlit("float");
        reveal_with_fuel(absent_from, 9);
        reveal_with_fuel(differs_at, 7);
    }
    assert(absent_from("varchar"@, "real"@, 0)) by {
        reveal_strlit("varchar");
        reveal_strlit("real");
        reveal_with_fuel(absent_from, 9);
        reveal_with_fuel(differs_at, 6);
    }
    assert(occurs_at("varchar"@, "varchar"@, 0)) by {
        reveal_strlit("varchar");
        reveal_strlit("varchar");
        assert("varchar"@.subrange(0, 7) =~= "varchar"@);
    }
    assert forall|k: int| 0 <= k < "varchar"@.len() implies !is_digit(#[trigger] "varchar"@[k]) by {
        reveal_strlit("varchar");
        if k == 0 {}
        else if k == 1 {}
        else if k == 2 {}
        else if k == 3 {}
        else if k == 4 {}
        else if k == 5 {}
        else if k == 6 {}
    }
    lemma_first_u32_skip("varchar"@, Seq::empty());
    assert("varchar"@ + Seq::<char>::empty() =~= "varchar"@);
}


// ---------------------------------------------------------------------------
// NOT NULL in SQLite column lines

pub open spec fn ends_with(s: Seq<char>, suffix: Seq<char>) -> bool {
    s.len() >= suffix.len() && s.subrange(s.len() - suffix.len(), s.len() as int) == suffix
}

/// A SQLite column line ends with a newline, after a comma when one is asked for, and
/// what comes before ends with ` NOT NULL` exactly when the column is not nullable,
/// whatever its type, default or auto-increment flag.
#[verifier::spinoff_prover]
pub proof fn law_sqlite_not_null(c: ColumnView, comma: bool)
    ensures
        ({
            let line = sqlite_column_line(c, comma);
            let tail = if comma { ",\n"@ } else { "\n"@ };
            &&& ends_with(line, tail)
            &&& (ends_with(line.take(line.len() - tail.len()), " NOT NULL"@) <==> !c.nullable)
        }),
{
    reveal_strlit(",\n");
    reveal_strlit("\n");
    reveal_strlit(",");
    reveal_strlit(" NOT NULL");
    reveal_strlit("INTEGER");
    reveal_strlit("TEXT");
    reveal_strlit(" PRIMARY KEY AUTOINCREMENT");
    let ty = crate::emit::sqlite_type_text(c.data_type);
    let x = "  "@ + c.name + " "@ + ty + text_if(c.auto_increment, " PRIMARY KEY AUTOINCREMENT"@);
    let nn = text_if(!c.nullable, " NOT NULL"@);
    let tail = if comma { ",\n"@ } else { "\n"@ };
    let line = sqlite_column_line(c, comma);
    assert(line =~= (x + nn) + tail);
    assert(line.subrange(line.len() - tail.len(), line.len() as int) =~= tail);
    assert(line.take(line.len() - tail.len()) =~= x + nn);
    let body = x + nn;
    if !c.nullable {
        assert(body.subrange(body.len() - 9, body.len() as int) =~= " NOT NULL"@);
    } else {
        assert(body =~= x);
        assert(x.last() != 'L') by {
            if c.auto_increment {
                assert(x.last() == " PRIMARY KEY AUTOINCREMENT"@.last());
            } else {
                assert(x.last() == ty.last());
            }
        }
        if ends_with(body, " NOT NULL"@) {
            assert(body.subrange(body.len() - 9, body.len() as int)[8] == body.last());
            assert(" NOT NULL"@[8] == 'L');
        }
    }
}


// ---------------------------------------------------------------------------
// Column lines of MySQL and PostgreSQL

proof fn lemma_not_ends_with(x: Seq<char>, suffix: Seq<char>, k: int)
    requires
        0 < k <= suffix.len(),
        k <= x.len(),
        x[x.len() - k] != suffix[suffix.len() - k],
    ensures
        !ends_with(x, suffix),
{
    if ends_with(x, suffix) {
        assert(x.subrange(x.len() - suffix.len(), x.len() as int)[suffix.len() - k] == x[x.len() - k]);
    }
}

/// The last characters of `p + t` are those of `t`.
proof fn lemma_tail_char(p: Seq<char>, t: Seq<char>, k: int)
    requires
        0 < k <= t.len(),
    ensures
        (p + t)[(p + t).len() - k] == t[t.len() - k],
{
}

/// Peels the parts of a column line from its end: the tail (comma and newline), then
/// the default when there is one, then ` NOT NULL` exactly when the column is not
/// nullable, then the auto-increment mark exactly when the column has it; what is
/// left is the column's name and type.
pub open spec fn column_line_reads(line: Seq<char>, c: ColumnView, comma: bool, auto_mark: Seq<char>, head: Seq<char>) -> bool {
    let tail = if comma { ",\n"@ } else { "\n"@ };
    let body = line.take(line.len() - tail.len());
    let d_len: int = match c.default { Some(d) => 9 + d.len() as int, None => 0int };
    let b2 = body.take(body.len() - d_len);
    let b3 = b2.take(b2.len() - (if c.nullable { 0int } else { 9int }));
    let b4 = b3.take(b3.len() - (if c.auto_increment { auto_mark.len() as int } else { 0int }));
    &&& ends_with(line, tail)
    &&& (c.default matches Some(d) ==> ends_with(body, " DEFAULT "@ + d))
    &&& (ends_with(b2, " NOT NULL"@) <==> !c.nullable)
    &&& (ends_with(b3, auto_mark) <==> c.auto_increment)
    &&& b4 == head
}

/// Appending `t` to `x` gives a text that ends with `t` and whose front is `x`.
proof fn lemma_append(x: Seq<char>, t: Seq<char>)
    ensures
        ends_with(x + t, t),
        (x + t).take((x + t).len() - t.len()) == x,
{
    assert((x + t).subrange(x.len() as int, (x + t).len() as int) =~= t);
    assert((x + t).take(x.len() as int) =~= x);
}

#[verifier::spinoff_prover]
proof fn lemma_column_line_reads(c: ColumnView, comma: bool, ty: Seq<char>, auto_mark: Seq<char>)
    requires
        ty.len() >= 1,
        ty.last() != 'L' || (ty.len() >= 2 && ty[ty.len() - 2] != 'L'),
        auto_mark.len() >= 3,
        auto_mark.last() != 'L',
        auto_mark.last() == ty.last() ==> ty.len() >= 3 && (ty[ty.len() - 2] != auto_mark[auto_mark.len() - 2]
            || ty[ty.len() - 3] != auto_mark[auto_mark.len() - 3]),
    ensures
        ({
            let line = "  "@ + c.name + " "@ + ty
                + text_if(c.auto_increment, auto_mark)
                + text_if(!c.nullable, " NOT NULL"@)
                + (match c.default { Some(d) => " DEFAULT "@ + d, None => Seq::empty() })
                + text_if(comma, ","@)
                + "\n"@;
            column_line_reads(line, c, comma, auto_mark, "  "@ + c.name + " "@ + ty)
        }),
{
    reveal_strlit(",\n");
    reveal_strlit("\n");
    reveal_strlit(",");
    reveal_strlit(" NOT NULL");
    reveal_strlit(" DEFAULT ");
    let h = "  "@ + c.name + " "@;
    let x0 = h + ty;
    let am = text_if(c.auto_increment, auto_mark);
    let x1 = x0 + am;
    let nn = text_if(!c.nullable, " NOT NULL"@);
    let x2 = x1 + nn;
    let dp: Seq<char> = match c.default { Some(d) => " DEFAULT "@ + d, None => Seq::empty() };
    let x3 = x2 + dp;
    let tail = if comma { ",\n"@ } else { "\n"@ };
    assert(x3 + text_if(comma, ","@) + "\n"@ =~= x3 + tail);
    lemma_append(x3, tail);
    lemma_append(x2, dp);
    lemma_append(x1, nn);
    lemma_append(x0, am);
    assert(dp.len() == (match c.default { Some(d) => 9 + d.len() as int, None => 0int }));
    if c.nullable {
        assert(x1 + nn =~= x1);
        if c.auto_increment {
            lemma_tail_char(x0, auto_mark, 1);
            lemma_not_ends_with(x1, " NOT NULL"@, 1);
        } else {
            assert(x0 + am =~= x0);
            lemma_tail_char(h, ty, 1);
            if ty.last() != 'L' {
                lemma_not_ends_with(x0, " NOT NULL"@, 1);
            } else {
                lemma_tail_char(h, ty, 2);
                lemma_not_ends_with(x0, " NOT NULL"@, 2);
            }
        }
    }
    if !c.auto_increment {
        assert(x0 + am =~= x0);
        lemma_tail_char(h, ty, 1);
        if auto_mark.last() != ty.last() {
            lemma_not_ends_with(x0, auto_mark, 1);
        } else {
            lemma_tail_char(h, ty, 2);
            lemma_tail_char(h, ty, 3);
            if ty[ty.len() - 2] != auto_mark[auto_mark.len() - 2] {
                lemma_not_ends_with(x0, auto_mark, 2);
            } else {
                lemma_not_ends_with(x0, auto_mark, 3);
            }
        }
    }
}


/// Every MySQL column line reads back as the column it was written for: peeled
/// from the end, it holds the default when there is one, ` NOT NULL` exactly when the
/// column is not nullable (whatever its default or type), the auto-increment mark
/// exactly when the column has it, and before these the name and the type.
pub proof fn law_mysql_column_line(c: ColumnView, comma: bool)
    ensures
        column_line_reads(crate::emit::mysql_column_line(c, comma), c, comma, " AUTO_INCREMENT"@, "  "@ + c.name + " "@ + mysql_type_text(c.data_type)),
{
    reveal_strlit(" AUTO_INCREMENT");
    reveal_strlit(")");
    match c.data_type {
        DataType::Int => {
            reveal_strlit("INT");
        },
        DataType::BigInt => {
            reveal_strlit("BIGINT");
        },
        DataType::Boolean => {
            reveal_strlit("TINYINT(1)");
        },
        DataType::Float => {
            reveal_strlit("FLOAT");
        },
        DataType::Double => {
            reveal_strlit("DOUBLE");
        },
        DataType::Varchar(None) => {
            reveal_strlit("VARCHAR(255)");
        },
        DataType::Text => {
            reveal_strlit("TEXT");
        },
        DataType::Timestamp => {
            reveal_strlit("DATETIME");
        },
        DataType::Varchar(Some(n)) => {
            lemma_decimal(n as nat);
        },
    }
    lemma_column_line_reads(c, comma, mysql_type_text(c.data_type), " AUTO_INCREMENT"@);
}

/// Every PostgreSQL column line reads back as the column it was written for: peeled
/// from the end, it holds the default when there is one, ` NOT NULL` exactly when the
/// column is not nullable (whatever its default or type), the auto-increment mark
/// exactly when the column has it, and before these the name and the type.
pub proof fn law_postgres_column_line(c: ColumnView, comma: bool)
    ensures
        column_line_reads(crate::emit_postgres::postgres_column_line(c, comma), c, comma, " GENERATED BY DEFAULT AS IDENTITY"@, "  "@ + c.name + " "@ + postgres_type_text(c.data_type)),
{
    reveal_strlit(" GENERATED BY DEFAULT AS IDENTITY");
    reveal_strlit(")");
    match c.data_type {
        DataType::Int => {
            reveal_strlit("INTEGER");
        },
        DataType::BigInt => {
            reveal_strlit("BIGINT");
        },
        DataType::Boolean => {
            reveal_strlit("BOOLEAN");
        },
        DataType::Float => {
            reveal_strlit("REAL");
        },
        DataType::Double => {
            reveal_strlit("DOUBLE PRECISION");
        },
        DataType::Varchar(None) => {
            reveal_strlit("VARCHAR");
        },
        DataType::Text => {
            reveal_strlit("TEXT");
        },
        DataType::Timestamp => {
            reveal_strlit("TIMESTAMP");
        },
        DataType::Varchar(Some(n)) => {
            lemma_decimal(n as nat);
        },
    }
    lemma_column_line_reads(c, comma, postgres_type_text(c.data_type), " GENERATED BY DEFAULT AS IDENTITY"@);
}

} // verus!
