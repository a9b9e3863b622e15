//! Database initialization: which SQL files to apply, and how a script is
//! cut into statements.
use vstd::prelude::*;
use vstd::string::*;
use crate::query::{clean_item, items_of_pieces, lemma_items_of_pieces_clean, split_trimmed, strings_view};
use crate::text::{lemma_split_char_pieces, split_char, str_eq, str_trim, trim};

verus! {

/// The statements of a script: its pieces between `;`, trimmed, leaving out
/// empty ones.
pub fn sql_statements(sql: &str) -> (r: Vec<String>)
    ensures
        strings_view(r@) == items_of_pieces(split_char(sql@, ';')),
{
    proof {
        reveal_strlit(";");
    }
    assert(";"@ =~= seq![';']);
    split_trimmed(sql, ";")
}

/// The SQL files to apply: the configured comma-separated list, trimmed and
/// without empty entries, or `sql/schema.sql` when nothing is configured.
pub open spec fn sql_file_list(config: Option<Seq<char>>) -> Seq<Seq<char>> {
    match config {
        Some(v) => items_of_pieces(split_char(v, ',')),
        None => seq!["sql/schema.sql"@],
    }
}

/// The SQL files to apply: the configured comma-separated list, trimmed and
/// without empty entries, or `sql/schema.sql` when nothing is configured.
pub fn resolve_sql_files(config: Option<&str>) -> (r: Vec<String>)
    ensures
        strings_view(r@) == sql_file_list(crate::text::opt_view(config)),
{
    match config {
        Some(v) => {
            proof {
                reveal_strlit(",");
            }
            assert(","@ =~= seq![',']);
            split_trimmed(v, ",")
        },
        None => {
            let mut files: Vec<String> = Vec::new();
            files.push(String::from_str("sql/schema.sql"));
            assert(strings_view(files@) =~= seq!["sql/schema.sql"@]);
            files
        },
    }
}

/// Whether an inline script holds anything besides whitespace.
pub fn has_statements(sql: &str) -> (r: bool)
    ensures
        r == (trim(sql@).len() > 0),
{
    str_trim(sql).unicode_len() > 0
}

/// Whether a request method, by name, asks to initialize: only `POST`
/// does.
pub fn is_init_method(method: &str) -> (r: bool)
    ensures
        r == (method@ == "POST"@),
{
    str_eq(method, "POST")
}

/// Every statement that a script is cut into is non-empty, has no
/// whitespace at either end and holds no `;`.
pub proof fn lemma_statements_clean(sql: Seq<char>)
    ensures
        forall|i: int|
            0 <= i < items_of_pieces(split_char(sql, ';')).len() ==> clean_item(
                #[trigger] items_of_pieces(split_char(sql, ';'))[i],
                ';',
            ),
{
    lemma_split_char_pieces(sql, ';');
    lemma_items_of_pieces_clean(split_char(sql, ';'), ';');
}
} // verus!
