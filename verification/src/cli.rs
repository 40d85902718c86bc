//! The decisions of the command-line converter: dialect names, which files are SQL,
//! where converted files go, and the conversion of one script.

use vstd::prelude::*;
use crate::emit::{emit_mysql, emit_sqlite, mysql_schema_text, sqlite_schema_text};
use crate::emit_postgres::{emit_postgres, postgres_schema_text};
use crate::ir::{Schema, TableView};
use crate::parse::{parse_mysql_schema, parse_postgres_schema, parse_sqlite_schema, v1_tables};
use crate::sqlmodel::{parse_error_message, sqlparser_error, sqlparser_statements, SqlDialect};
use crate::text::{ascii_lower, eq_ignore_ascii_case, str_eq_ignore_ascii_case};

verus! {

#[derive(Debug, Clone, Copy, PartialEq, Eq, Structural)]
pub enum Dialect {
    Mysql,
    Postgres,
    Sqlite,
}

/// Calls `String::push`. Trusted: the character is appended.
#[verifier::external_body]
pub(crate) fn push_char(s: &mut String, c: char)
    ensures
        final(s)@ == old(s)@.push(c),
{
    s.push(c);
}

/// ASCII lower-casing of a whole string (`str::to_ascii_lowercase`).
pub open spec fn ascii_lowercase(s: Seq<char>) -> Seq<char> {
    s.map_values(|c: char| ascii_lower(c))
}

pub fn to_ascii_lowercase(s: &str) -> (r: String)
    ensures
        r@ == ascii_lowercase(s@),
{
    let cs = crate::text::chars_of(s);
    let mut r = String::new();
    for i in 0..cs.len()
        invariant
            cs@ == s@,
            r@ == ascii_lowercase(s@).take(i as int),
    {
        let c = cs[i];
        let l = if 'A' <= c && c <= 'Z' { ((c as u8) + 32) as char } else { c };
        push_char(&mut r, l);
        proof {
            assert(r@ =~= ascii_lowercase(s@).take(i + 1));
        }
    }
    proof {
        assert(ascii_lowercase(s@).take(cs@.len() as int) =~= ascii_lowercase(s@));
    }
    r
}

/// The message for a dialect name that is not known.
pub open spec fn unknown_dialect_message(name: Seq<char>) -> Seq<char> {
    "unknown dialect '"@ + ascii_lowercase(name) + "'. Supported: mysql, postgres, sqlite"@
}

/// The dialect a name stands for, up to ASCII case: `mysql`; `postgres`, `postgresql`
/// or `pg`; `sqlite` or `sqlite3`.
pub open spec fn dialect_named(s: Seq<char>) -> Option<Dialect> {
    if eq_ignore_ascii_case(s, "mysql"@) {
        Some(Dialect::Mysql)
    } else if eq_ignore_ascii_case(s, "postgres"@) || eq_ignore_ascii_case(s, "postgresql"@) || eq_ignore_ascii_case(s, "pg"@) {
        Some(Dialect::Postgres)
    } else if eq_ignore_ascii_case(s, "sqlite"@) || eq_ignore_ascii_case(s, "sqlite3"@) {
        Some(Dialect::Sqlite)
    } else {
        None
    }
}

impl Dialect {
    /// Reads a dialect name, ignoring ASCII case; an unknown name is refused with a
    /// message that names it (lower-cased) and lists the supported dialects.
    pub fn parse(s: &str) -> (r: Result<Dialect, String>)
        ensures
            dialect_named(s@) matches Some(d) ==> r == Ok::<Dialect, String>(d),
            dialect_named(s@) is None ==> (r matches Err(m) && m@ == unknown_dialect_message(s@)),
    {
        if str_eq_ignore_ascii_case(s, "mysql") {
            Ok(Dialect::Mysql)
        } else if str_eq_ignore_ascii_case(s, "postgres") || str_eq_ignore_ascii_case(s, "postgresql")
            || str_eq_ignore_ascii_case(s, "pg") {
            Ok(Dialect::Postgres)
        } else if str_eq_ignore_ascii_case(s, "sqlite") || str_eq_ignore_ascii_case(s, "sqlite3") {
            Ok(Dialect::Sqlite)
        } else {
            let mut m = String::new();
            m.append("unknown dialect '");
            let lower = to_ascii_lowercase(s);
            m.append(lower.as_str());
            m.append("'. Supported: mysql, postgres, sqlite");
            Err(m)
        }
    }
}

pub open spec fn label_of(d: Dialect) -> Seq<char> {
    match d {
        Dialect::Mysql => "mysql"@,
        Dialect::Postgres => "postgres"@,
        Dialect::Sqlite => "sqlite"@,
    }
}

/// The short name of a dialect.
pub fn dialect_label(d: Dialect) -> (r: &'static str)
    ensures
        r@ == label_of(d),
{
    match d {
        Dialect::Mysql => "mysql",
        Dialect::Postgres => "postgres",
        Dialect::Sqlite => "sqlite",
    }
}

/// Reading a dialect's own label gives back that dialect.
pub proof fn law_label_reads_back(d: Dialect)
    ensures
        dialect_named(label_of(d)) == Some(d),
{
    reveal_strlit("mysql");
    reveal_strlit("postgres");
    reveal_strlit("sqlite");
    match d {
        Dialect::Mysql => {},
        Dialect::Postgres => {
            assert(!eq_ignore_ascii_case("postgres"@, "mysql"@));
        },
        Dialect::Sqlite => {
            assert(!eq_ignore_ascii_case("sqlite"@, "mysql"@));
            assert(!eq_ignore_ascii_case("sqlite"@, "postgres"@));
            reveal_strlit("postgresql");
            reveal_strlit("pg");
            assert(!eq_ignore_ascii_case("sqlite"@, "postgresql"@));
            assert(!eq_ignore_ascii_case("sqlite"@, "pg"@));
        },
    }
}

/// The `sqlparser` dialect a schema dialect is read with.
pub open spec fn sql_dialect(d: Dialect) -> SqlDialect {
    match d {
        Dialect::Mysql => SqlDialect::MySql,
        Dialect::Postgres => SqlDialect::Postgres,
        Dialect::Sqlite => SqlDialect::Sqlite,
    }
}

/// The minimal-IR schema of a script in the given dialect; fails, with `sqlparser`'s
/// message, exactly when the script is refused
/// (`sqlguard`) or `sqlparser` rejects it.
pub fn parse_schema(from: Dialect, sql: &str) -> (r: Result<Schema, String>)
    ensures
        r is Ok <==> sqlparser_statements(sql_dialect(from), sql@) is Some,
        r matches Ok(s) ==> ({
            let st = sqlparser_statements(sql_dialect(from), sql@)->0;
            s@ == v1_tables(sql_dialect(from), st, st.len())
        }),
        r matches Err(m) ==> m@ == parse_error_message(sqlparser_error(sql_dialect(from), sql@)),
{
    let parsed = match from {
        Dialect::Mysql => parse_mysql_schema(sql),
        Dialect::Postgres => parse_postgres_schema(sql),
        Dialect::Sqlite => parse_sqlite_schema(sql),
    };
    match parsed {
        Ok(s) => Ok(s),
        Err(e) => Err(e.message()),
    }
}

/// The DDL of a schema in the given dialect.
pub open spec fn schema_text(to: Dialect, tables: Seq<TableView>) -> Seq<char> {
    match to {
        Dialect::Mysql => mysql_schema_text(tables, tables.len()),
        Dialect::Postgres => postgres_schema_text(tables, tables.len()),
        Dialect::Sqlite => sqlite_schema_text(tables, tables.len()),
    }
}

pub fn emit_schema(to: Dialect, schema: &Schema) -> (r: String)
    ensures
        r@ == schema_text(to, schema@),
{
    match to {
        Dialect::Mysql => emit_mysql(schema),
        Dialect::Postgres => emit_postgres(schema),
        Dialect::Sqlite => emit_sqlite(schema),
    }
}

/// Converts one script: reads it in `from` and writes its tables in `to`. Fails, with
/// `sqlparser`'s message, exactly when the script is refused
/// (`sqlguard`) or `sqlparser` rejects it.
pub fn convert_sql(from: Dialect, to: Dialect, sql: &str) -> (r: Result<String, String>)
    ensures
        r is Ok <==> sqlparser_statements(sql_dialect(from), sql@) is Some,
        r matches Ok(out) ==> ({
            let st = sqlparser_statements(sql_dialect(from), sql@)->0;
            out@ == schema_text(to, v1_tables(sql_dialect(from), st, st.len()))
        }),
        r matches Err(m) ==> m@ == parse_error_message(sqlparser_error(sql_dialect(from), sql@)),
{
    match parse_schema(from, sql) {
        Ok(schema) => Ok(emit_schema(to, &schema)),
        Err(m) => Err(m),
    }
}

/// The part of a file name after its last dot, as `Path::extension` gives it: none when
/// the name has no dot or its only dot comes first.
pub open spec fn extension_of(name: Seq<char>) -> Option<Seq<char>> {
    if exists|i: int| 0 < i < name.len() && name[i] == '.' {
        let i = choose|i: int| 0 < i < name.len() && name[i] == '.' && forall|j: int| i < j < name.len() ==> name[j] != '.';
        Some(name.skip(i + 1))
    } else {
        None
    }
}

/// A file counts as SQL when its extension is `sql` in any ASCII case.
pub open spec fn is_sql_name(name: Seq<char>) -> bool {
    extension_of(name) matches Some(ext) && eq_ignore_ascii_case(ext, "sql"@)
}

/// Whether a file name (the last component of a path) has the extension `sql`, in any
/// ASCII case.
pub fn is_sql_file(file_name: &str) -> (r: bool)
    ensures
        r == is_sql_name(file_name@),
{
    let cs = crate::text::chars_of(file_name);
    let n = cs.len();
    let mut i = n;
    while i > 0 && cs[i - 1] != '.'
        invariant
            cs@ == file_name@,
            n == cs@.len(),
            i <= n,
            forall|j: int| i <= j < n ==> cs@[j] != '.',
        decreases i,
    {
        i = i - 1;
    }
    // now i == 0 or cs[i - 1] is the last dot
    if i <= 1 {
        proof {
            if exists|k: int| 0 < k < n && file_name@[k] == '.' {
                let k = choose|k: int| 0 < k < n && file_name@[k] == '.';
                if i == 1 {
                    assert(k >= 1);
                }
                assert(false);
            }
        }
        return false;
    }
    let mut ext = String::new();
    let mut j = i;
    while j < n
        invariant
            cs@ == file_name@,
            n == cs@.len(),
            i <= j <= n,
            ext@ == file_name@.subrange(i as int, j as int),
        decreases n - j,
    {
        push_char(&mut ext, cs[j]);
        proof {
            assert(ext@ =~= file_name@.subrange(i as int, j + 1));
        }
        j = j + 1;
    }
    proof {
        let d = (i - 1) as int;
        assert(0 < d < n && file_name@[d] == '.');
        let c = choose|k: int| 0 < k < file_name@.len() && file_name@[k] == '.' && forall|m: int| k < m < file_name@.len() ==> file_name@[m] != '.';
        if c < d {
            assert(file_name@[d] != '.');
        }
        if c > d {
            assert(cs@[c] != '.');
        }
        assert(file_name@.skip(d + 1) =~= ext@);
    }
    str_eq_ignore_ascii_case(ext.as_str(), "sql")
}

/// The file-related arguments of a conversion.
#[derive(Debug, Clone)]
pub struct ConvertArgs {
    /// Input SQL file or a directory to convert recursively
    pub input: Option<String>,
    /// Output SQL file or a directory where results will be written
    pub output: Option<String>,
    /// Source dialect: mysql | postgres | sqlite
    pub from: String,
    /// Destination dialect: mysql | postgres | sqlite
    pub to: String,
}

/// The input and output paths; each is required, the input first.
pub fn convert_args_to_paths(args: &ConvertArgs) -> (r: Result<(String, String), String>)
    ensures
        args.input is None ==> (r matches Err(m) && m@ == "--input is required"@),
        args.input is Some && args.output is None ==> (r matches Err(m) && m@ == "--output is required"@),
        args.input is Some && args.output is Some ==> (r matches Ok((i, o)) && i@ == args.input->0@ && o@ == args.output->0@),
{
    let input = match &args.input {
        Some(i) => i.clone(),
        None => return Err(String::from_str("--input is required")),
    };
    let output = match &args.output {
        Some(o) => o.clone(),
        None => return Err(String::from_str("--output is required")),
    };
    Ok((input, output))
}

/// The name of the file a single converted script is written to:
/// `<stem>.<dialect>.sql`, with `schema` standing in for a missing stem.
pub open spec fn converted_name(stem: Option<Seq<char>>, to: Dialect) -> Seq<char> {
    (match stem {
        Some(s) => s,
        None => "schema"@,
    }) + "."@ + label_of(to) + ".sql"@
}

pub fn converted_file_name(stem: &Option<String>, to: Dialect) -> (r: String)
    ensures
        r@ == converted_name(crate::ir::opt_string_view(*stem), to),
{
    let mut r = String::new();
    match stem {
        Some(s) => r.append(s.as_str()),
        None => r.append("schema"),
    }
    r.append(".");
    r.append(dialect_label(to));
    r.append(".sql");
    proof {
        assert(r@ =~= converted_name(crate::ir::opt_string_view(*stem), to));
    }
    r
}

/// The outcome of converting a folder: success when no file failed, otherwise the
/// message `converted <n> files, <m> failed`.
pub fn folder_outcome(converted: u64, failed: u64) -> (r: Result<(), String>)
    ensures
        failed == 0 ==> r is Ok,
        failed > 0 ==> (r matches Err(m) && m@ == "converted "@ + crate::text::decimal(converted as nat)
            + " files, "@ + crate::text::decimal(failed as nat) + " failed"@),
{
    if failed > 0 {
        let mut m = String::new();
        m.append("converted ");
        crate::text::append_decimal(&mut m, converted);
        m.append(" files, ");
        crate::text::append_decimal(&mut m, failed);
        m.append(" failed");
        return Err(m);
    }
    Ok(())
}

} // verus!
