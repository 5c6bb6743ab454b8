//! The table that gives each token symbol its identifier.

use vstd::prelude::*;
use crate::config::{names, ConfigError};

verus! {

/// The table that a JSON text spells out, where the text is a JSON object
/// whose values are all texts: each key with its value.
pub uninterp spec fn token_table_of(data: Seq<char>) -> Option<Map<Seq<char>, Seq<char>>>;

/// Each entry as the two texts it holds.
pub open spec fn entry_texts(entries: Seq<(String, String)>) -> Seq<(Seq<char>, Seq<char>)> {
    Seq::new(entries.len(), |i: int| (entries[i].0@, entries[i].1@))
}

/// No symbol stands in two entries.
pub open spec fn distinct_symbols(entries: Seq<(Seq<char>, Seq<char>)>) -> bool {
    forall|i: int, j: int| 0 <= i < j < entries.len() ==> entries[i].0 != entries[j].0
}

/// The entry at `i` is the first for `symbol`.
pub open spec fn first_entry_for(entries: Seq<(Seq<char>, Seq<char>)>, symbol: Seq<char>, i: int) -> bool {
    &&& 0 <= i < entries.len()
    &&& entries[i].0 == symbol
    &&& forall|k: int| 0 <= k < i ==> (#[trigger] entries[k]).0 != symbol
}

/// The table that a list of entries makes: each symbol in the list with the
/// identifier of its first entry.
pub open spec fn table_of(entries: Seq<(Seq<char>, Seq<char>)>) -> Map<Seq<char>, Seq<char>> {
    Map::new(
        |symbol: Seq<char>| exists|i: int| first_entry_for(entries, symbol, i),
        |symbol: Seq<char>| entries[choose|i: int| first_entry_for(entries, symbol, i)].1,
    )
}

/// Parses `data` with `serde_json::from_str` into a
/// `HashMap<String, String>` and lists the map's entries.
///
/// Not proved: that the text fails to parse exactly where `token_table_of`
/// names no table, and that otherwise the entries, in whatever order the map
/// hands them out, are the named table's, each symbol once.
#[verifier::external_body]
fn parse_entries(data: &str) -> (r: Result<Vec<(String, String)>, serde_json::Error>)
    ensures
        match r {
            Ok(entries) => {
                &&& distinct_symbols(entry_texts(entries@))
                &&& token_table_of(data@) == Some(table_of(entry_texts(entries@)))
            },
            Err(_) => token_table_of(data@).is_none(),
        },
{
    let table: std::collections::HashMap<String, String> = serde_json::from_str(data)?;
    Ok(table.into_iter().collect())
}

/// Token identifiers by symbol.
#[derive(Debug)]
pub struct TokenTable {
    pub entries: Vec<(String, String)>,
}

impl View for TokenTable {
    type V = Map<Seq<char>, Seq<char>>;

    open spec fn view(&self) -> Map<Seq<char>, Seq<char>> {
        table_of(entry_texts(self.entries@))
    }
}

/// What resolving a list of symbols against a table comes to: the position
/// of the first symbol that the table lacks, or the identifiers.
pub open spec fn first_unknown(table: Map<Seq<char>, Seq<char>>, symbols: Seq<Seq<char>>, p: int) -> bool {
    &&& 0 <= p < symbols.len()
    &&& !table.contains_key(symbols[p])
    &&& forall|k: int| 0 <= k < p ==> table.contains_key(#[trigger] symbols[k])
}

/// Every symbol of the list is in the table.
pub open spec fn all_known(table: Map<Seq<char>, Seq<char>>, symbols: Seq<Seq<char>>) -> bool {
    forall|k: int| 0 <= k < symbols.len() ==> table.contains_key(#[trigger] symbols[k])
}

/// The identifiers of a list of symbols.
pub open spec fn identifiers(table: Map<Seq<char>, Seq<char>>, symbols: Seq<Seq<char>>) -> Seq<Seq<char>> {
    Seq::new(symbols.len(), |k: int| table[symbols[k]])
}

/// The symbols of each list of a list of lists.
pub open spec fn symbol_lists(triples: Seq<Vec<String>>) -> Seq<Seq<Seq<char>>> {
    Seq::new(triples.len(), |t: int| names(triples[t]@))
}

impl TokenTable {
    /// Reads a table from a JSON object that maps each symbol to its
    /// identifier.
    pub fn parse(data: &str) -> (r: Result<TokenTable, ConfigError>)
        ensures
            match r {
                Ok(table) => token_table_of(data@) == Some(table@),
                Err(error) => error == ConfigError::UnreadableTokenTable && token_table_of(
                    data@,
                ).is_none(),
            },
    {
        match parse_entries(data) {
            Ok(entries) => Ok(TokenTable { entries }),
            Err(_) => Err(ConfigError::UnreadableTokenTable),
        }
    }

    /// The identifier of a symbol, if the table has the symbol.
    pub fn lookup(&self, symbol: &String) -> (r: Option<&String>)
        ensures
            match r {
                Some(identifier) => self@.contains_key(symbol@) && identifier@ == self@[symbol@],
                None => !self@.contains_key(symbol@),
            },
    {
        let ghost texts = entry_texts(self.entries@);
        let mut i: usize = 0;
        while i < self.entries.len()
            invariant
                i <= self.entries@.len(),
                texts == entry_texts(self.entries@),
                forall|k: int| 0 <= k < i ==> (#[trigger] texts[k]).0 != symbol@,
            decreases self.entries@.len() - i,
        {
            if self.entries[i].0 == *symbol {
                proof {
                    assert(texts[i as int].0 == symbol@);
                    assert(first_entry_for(texts, symbol@, i as int));
                    let chosen = choose|k: int| first_entry_for(texts, symbol@, k);
                    if chosen < i {
                        assert(texts[chosen].0 != symbol@);
                    } else if i < chosen {
                        assert(texts[i as int].0 != symbol@);
                    }
                }
                return Some(&self.entries[i].1);
            }
            assert(texts[i as int].0 != symbol@);
            i += 1;
        }
        proof {
            if exists|k: int| first_entry_for(texts, symbol@, k) {
                let k = choose|k: int| first_entry_for(texts, symbol@, k);
                assert(texts[k].0 != symbol@);
            }
        }
        None
    }

    /// The identifiers of a list of symbols, or the position of the first
    /// symbol that the table lacks.
    pub fn resolve(&self, symbols: &Vec<String>) -> (r: Result<Vec<String>, usize>)
        ensures
            match r {
                Ok(found) => all_known(self@, names(symbols@)) && names(found@) == identifiers(
                    self@,
                    names(symbols@),
                ),
                Err(position) => first_unknown(self@, names(symbols@), position as int),
            },
    {
        let mut found: Vec<String> = Vec::new();
        let mut p: usize = 0;
        while p < symbols.len()
            invariant
                p <= symbols@.len(),
                found@.len() == p,
                forall|k: int| 0 <= k < p ==> self@.contains_key(#[trigger] names(symbols@)[k]),
                forall|k: int| 0 <= k < p ==> (#[trigger] found@[k])@ == self@[names(symbols@)[k]],
            decreases symbols@.len() - p,
        {
            assert(names(symbols@)[p as int] == symbols@[p as int]@);
            match self.lookup(&symbols[p]) {
                Some(identifier) => {
                    found.push(identifier.clone());
                },
                None => {
                    return Err(p);
                },
            }
            p += 1;
        }
        assert(names(found@) =~= identifiers(self@, names(symbols@)));
        Ok(found)
    }

    /// Replaces every symbol of every triple by its identifier. Fails at
    /// the first symbol, triple by triple, that the table lacks.
    pub fn resolve_all(&self, triples: &Vec<Vec<String>>) -> (r: Result<Vec<Vec<String>>, ConfigError>)
        ensures
            match r {
                Ok(found) => {
                    &&& found@.len() == triples@.len()
                    &&& forall|t: int|
                        0 <= t < triples@.len() ==> all_known(self@, #[trigger] symbol_lists(triples@)[t])
                    &&& forall|t: int|
                        0 <= t < triples@.len() ==> names((#[trigger] found@[t])@) == identifiers(
                            self@,
                            symbol_lists(triples@)[t],
                        )
                },
                Err(ConfigError::UnknownSymbol { triple, position }) => {
                    &&& triple < triples@.len()
                    &&& first_unknown(self@, symbol_lists(triples@)[triple as int], position as int)
                    &&& forall|t: int|
                        0 <= t < triple ==> all_known(self@, #[trigger] symbol_lists(triples@)[t])
                },
                Err(_) => false,
            },
    {
        let mut found: Vec<Vec<String>> = Vec::new();
        let mut t: usize = 0;
        while t < triples.len()
            invariant
                t <= triples@.len(),
                found@.len() == t,
                forall|k: int| 0 <= k < t ==> all_known(self@, #[trigger] symbol_lists(triples@)[k]),
                forall|k: int|
                    0 <= k < t ==> names((#[trigger] found@[k])@) == identifiers(
                        self@,
                        symbol_lists(triples@)[k],
                    ),
            decreases triples@.len() - t,
        {
            assert(symbol_lists(triples@)[t as int] == names(triples@[t as int]@));
            match self.resolve(&triples[t]) {
                Ok(identifiers) => {
                    found.push(identifiers);
                },
                Err(position) => {
                    return Err(ConfigError::UnknownSymbol { triple: t, position });
                },
            }
            t += 1;
        }
        Ok(found)
    }
}

} // verus!
