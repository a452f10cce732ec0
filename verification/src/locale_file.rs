//! Locale files: TOML documents that declare a language and override interface
//! texts in their `strings` table.
use vstd::prelude::*;

use crate::localization::{entry_views, lemma_saved_tag_selects_its_language, UiLanguage};
use crate::text::str_eq;

verus! {

/// A top-level value of a TOML document, as far as a locale file reads it.
#[derive(Clone, Debug)]
pub enum TomlEntry {
    /// A string.
    Text(String),
    /// A table: each key with its value where that is a string, else `None`.
    Table(Vec<(String, Option<String>)>),
    /// Any other value.
    Other,
}

/// What a [`TomlEntry`] holds, as text.
pub enum TomlEntryView {
    Text(Seq<char>),
    Table(Seq<(Seq<char>, Option<Seq<char>>)>),
    Other,
}

/// A table's keys with their string values, as text.
pub open spec fn table_view(table: Seq<(String, Option<String>)>) -> Seq<(Seq<char>, Option<Seq<char>>)> {
    table.map_values(
        |e: (String, Option<String>)|
            (
                e.0@,
                match e.1 {
                    Some(value) => Some(value@),
                    None => None,
                },
            ),
    )
}

impl View for TomlEntry {
    type V = TomlEntryView;

    open spec fn view(&self) -> TomlEntryView {
        match self {
            TomlEntry::Text(text) => TomlEntryView::Text(text@),
            TomlEntry::Table(table) => TomlEntryView::Table(table_view(table@)),
            TomlEntry::Other => TomlEntryView::Other,
        }
    }
}

/// A document's top-level keys with their values, as text.
pub open spec fn document_view(entries: Seq<(String, TomlEntry)>) -> Seq<(Seq<char>, TomlEntryView)> {
    entries.map_values(|e: (String, TomlEntry)| (e.0@, e.1@))
}

/// A parsed document as text, `None` where there is none.
pub open spec fn parsed_view(document: Option<Vec<(String, TomlEntry)>>) -> Option<Seq<(Seq<char>, TomlEntryView)>> {
    match document {
        Some(entries) => Some(document_view(entries@)),
        None => None,
    }
}

/// What the `toml` crate reads from `text` as a document: its top-level keys, in
/// the order in which its table yields them, each with its value; `None` where
/// `text` is not a TOML document.
pub uninterp spec fn toml_document(text: Seq<char>) -> Option<Seq<(Seq<char>, TomlEntryView)>>;

/// Parses `text` with `toml::Table`'s `FromStr` and hands each top-level entry
/// out in the table's order, strings and tables of strings as their text.
/// Trusted: the result is what `toml` reads from `text` (`toml_document`); what
/// that is on given text is not stated here.
#[verifier::external_body]
fn parse_toml_document(text: &str) -> (r: Option<Vec<(String, TomlEntry)>>)
    ensures
        parsed_view(r) == toml_document(text@),
{
    let mut entries = Vec::new();
    for (key, value) in text.parse::<toml::Table>().ok()? {
        entries.push((key, match value {
            toml::Value::String(text) => TomlEntry::Text(text),
            toml::Value::Table(table) => {
                let mut strings = Vec::new();
                for (k, v) in table {
                    strings.push((k, if let toml::Value::String(s) = v { Some(s) } else { None }));
                }
                TomlEntry::Table(strings)
            },
            _ => TomlEntry::Other,
        }));
    }
    Some(entries)
}

/// The value of the first entry with key `key`.
pub open spec fn lookup(entries: Seq<(Seq<char>, TomlEntryView)>, key: Seq<char>) -> Option<TomlEntryView>
    decreases entries.len(),
{
    if entries.len() == 0 {
        None
    } else if entries[0].0 == key {
        Some(entries[0].1)
    } else {
        lookup(entries.drop_first(), key)
    }
}

/// The entries of a table whose value is a string, in order.
pub open spec fn string_values(table: Seq<(Seq<char>, Option<Seq<char>>)>) -> Seq<(Seq<char>, Seq<char>)>
    decreases table.len(),
{
    if table.len() == 0 {
        Seq::empty()
    } else {
        let rest = string_values(table.drop_last());
        match table.last().1 {
            Some(value) => rest.push((table.last().0, value)),
            None => rest,
        }
    }
}

/// The texts that a locale document overrides for `language`: the string entries
/// of its `strings` table, where its `language` key holds that language's tag;
/// none where there is no document, it declares another language or nothing, or
/// `strings` is no table.
pub open spec fn locale_strings(
    language: UiLanguage,
    document: Option<Seq<(Seq<char>, TomlEntryView)>>,
) -> Seq<(Seq<char>, Seq<char>)> {
    match document {
        Some(entries) => if lookup(entries, "language"@) == Some(
            TomlEntryView::Text(language.tag_text()),
        ) {
            match lookup(entries, "strings"@) {
                Some(TomlEntryView::Table(table)) => string_values(table),
                _ => Seq::empty(),
            }
        } else {
            Seq::empty()
        },
        None => Seq::empty(),
    }
}

/// A locale file overrides texts for at most one language: the one whose tag it
/// declares.
pub proof fn lemma_locale_file_serves_one_language(
    document: Option<Seq<(Seq<char>, TomlEntryView)>>,
    a: UiLanguage,
    b: UiLanguage,
)
    requires
        a != b,
    ensures
        locale_strings(a, document).len() == 0 || locale_strings(b, document).len() == 0,
{
    lemma_saved_tag_selects_its_language(a, Seq::empty());
    lemma_saved_tag_selects_its_language(b, Seq::empty());
}

/// The value of the first entry of `entries` with key `key`.
fn find_entry<'a>(entries: &'a Vec<(String, TomlEntry)>, key: &str) -> (r: Option<&'a TomlEntry>)
    ensures
        match r {
            Some(entry) => lookup(document_view(entries@), key@) == Some(entry@),
            None => lookup(document_view(entries@), key@) is None,
        },
{
    let ghost all = document_view(entries@);
    let mut i: usize = 0;
    assert(all.subrange(0, all.len() as int) =~= all);
    while i < entries.len()
        invariant
            i <= entries@.len(),
            all == document_view(entries@),
            lookup(all, key@) == lookup(all.subrange(i as int, all.len() as int), key@),
        decreases entries@.len() - i,
    {
        let ghost rest = all.subrange(i as int, all.len() as int);
        assert(rest.drop_first() =~= all.subrange(i + 1, all.len() as int));
        if str_eq(entries[i].0.as_str(), key) {
            return Some(&entries[i].1);
        }
        i = i + 1;
    }
    assert(all.subrange(i as int, all.len() as int).len() == 0);
    None
}

/// The entries of `table` whose value is a string, in order.
fn string_entries(table: &Vec<(String, Option<String>)>) -> (r: Vec<(String, String)>)
    ensures
        entry_views(r@) == string_values(table_view(table@)),
{
    let mut r: Vec<(String, String)> = Vec::new();
    let mut i: usize = 0;
    while i < table.len()
        invariant
            i <= table@.len(),
            entry_views(r@) == string_values(
                table_view(table@.subrange(0, i as int)),
            ),
        decreases table@.len() - i,
    {
        let ghost before = r@;
        assert(table_view(table@.subrange(0, i + 1)).drop_last() =~= table_view(
            table@.subrange(0, i as int),
        ));
        match &table[i].1 {
            Some(value) => {
                r.push((table[i].0.clone(), value.clone()));
                assert(entry_views(r@) =~= entry_views(before).push((table[i as int].0@, value@)));
            },
            None => {},
        }
        i = i + 1;
    }
    assert(table@.subrange(0, i as int) =~= table@);
    r
}

/// The texts that the locale `document` overrides for `language`, as
/// [`locale_strings`] states.
pub fn locale_document_strings(
    language: UiLanguage,
    document: &Option<Vec<(String, TomlEntry)>>,
) -> (r: Vec<(String, String)>)
    ensures
        entry_views(r@) == locale_strings(
            language,
            parsed_view(*document),
        ),
{
    let none: Vec<(String, String)> = Vec::new();
    assert(entry_views(none@) =~= Seq::empty());
    match document {
        None => none,
        Some(entries) => {
            let declares = match find_entry(entries, "language") {
                Some(TomlEntry::Text(declared)) => str_eq(declared.as_str(), language.tag()),
                _ => false,
            };
            if !declares {
                return none;
            }
            match find_entry(entries, "strings") {
                Some(TomlEntry::Table(table)) => string_entries(table),
                _ => none,
            }
        },
    }
}

/// The texts that the locale file `text` overrides for `language`: `text` is read
/// as a TOML document, then as [`locale_strings`] states.
pub fn locale_text_strings(language: UiLanguage, text: &str) -> (r: Vec<(String, String)>)
    ensures
        entry_views(r@) == locale_strings(
            language,
            toml_document(text@),
        ),
{
    let document = parse_toml_document(text);
    locale_document_strings(language, &document)
}

} // verus!
