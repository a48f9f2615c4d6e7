//! ELF symbol reader.
//!
//! Parses an ELF image and returns the address (`st_value`) of the first
//! symbol whose resolved name exactly matches the one requested. A malformed
//! ELF or a missing symbol is a soft failure (`None`), never an error.

use vstd::prelude::*;

use crate::configuration::RTT_SYMBOL;

verus! {

/// The symbol table an ELF image parses to: for each symbol, its name as
/// resolved through the string table (`None` where the name offset does not
/// resolve) and its `st_value`, in table order; `None` where the bytes do not
/// parse as ELF. The table is a function of the bytes alone; its exact value
/// is left to the parser.
pub uninterp spec fn elf_symbol_table(b: Seq<u8>) -> Option<Seq<(Option<Seq<char>>, u64)>>;

/// The view of a parsed table: each resolved name as a character sequence.
pub open spec fn table_view(s: Seq<(Option<String>, u64)>) -> Seq<(Option<Seq<char>>, u64)> {
    s.map(
        |i: int, e: (Option<String>, u64)|
            (
                match e.0 {
                    Some(n) => Some(n@),
                    None => None,
                },
                e.1,
            ),
    )
}

/// Relies on `goblin::elf::Elf::parse` and `goblin::strtab::Strtab::get_at`:
/// the parsed symbol table — each symbol's resolved name and `st_value`, in
/// table order — is a function of the input bytes alone, and parsing fails
/// exactly when the bytes are not well-formed ELF.
#[verifier::external_body]
fn parse_elf_symbol_table(data: &[u8]) -> (r: Option<Vec<(Option<String>, u64)>>)
    ensures
        match r {
            Some(v) => elf_symbol_table(data@) == Some(table_view(v@)),
            None => elf_symbol_table(data@) is None,
        },
{
    match goblin::elf::Elf::parse(data) {
        Ok(elf) => Some(
            elf.syms
                .iter()
                .map(|sym| (elf.strtab.get_at(sym.st_name).map(|n| n.to_owned()), sym.st_value))
                .collect(),
        ),
        Err(_) => None,
    }
}

/// First match wins: the `st_value` of the first entry whose resolved name
/// equals `name`, searching the table front to back.
pub open spec fn spec_table_lookup(
    tab: Seq<(Option<Seq<char>>, u64)>,
    name: Seq<char>,
) -> Option<u64>
    decreases tab.len(),
{
    if tab.len() == 0 {
        None
    } else if tab[0].0 == Some(name) {
        Some(tab[0].1)
    } else {
        spec_table_lookup(tab.drop_first(), name)
    }
}

/// What a symbol lookup on an ELF image returns: `None` when the bytes do not
/// parse, else the first matching symbol's address.
pub open spec fn spec_symbol_lookup(b: Seq<u8>, name: Seq<char>) -> Option<u64> {
    match elf_symbol_table(b) {
        Some(tab) => spec_table_lookup(tab, name),
        None => None,
    }
}

/// Reads `data` as ELF and returns the address of the first symbol named
/// `symbol`, resolved through the string table; `None` on any parse failure
/// or when no symbol matches.
pub fn get_symbol(data: &[u8], symbol: &str) -> (r: Option<u64>)
    ensures
        r == spec_symbol_lookup(data@, symbol@),
{
    match parse_elf_symbol_table(data) {
        None => None,
        Some(tab) => {
            let target: String = symbol.to_owned();
            let n = tab.len();
            let mut i: usize = 0;
            proof {
                assert(table_view(tab@).skip(0) =~= table_view(tab@));
            }
            while i < n
                invariant
                    n == tab@.len(),
                    i <= n,
                    target@ == symbol@,
                    elf_symbol_table(data@) == Some(table_view(tab@)),
                    spec_table_lookup(table_view(tab@), symbol@) == spec_table_lookup(
                        table_view(tab@).skip(i as int),
                        symbol@,
                    ),
                decreases n - i,
            {
                let entry = &tab[i];
                if let Some(sym_name) = &entry.0 {
                    if *sym_name == target {
                        proof {
                            assert(table_view(tab@).skip(i as int)[0] == table_view(
                                tab@,
                            )[i as int]);
                            assert(table_view(tab@)[i as int].0 == Some(symbol@));
                            assert(spec_table_lookup(table_view(tab@).skip(i as int), symbol@)
                                == Some(tab@[i as int].1));
                        }
                        return Some(entry.1);
                    }
                }
                proof {
                    assert(table_view(tab@).skip(i as int)[0] == table_view(tab@)[i as int]);
                    assert(table_view(tab@)[i as int].0 != Some(symbol@));
                    assert(table_view(tab@).skip(i as int).drop_first() =~= table_view(tab@).skip(
                        i as int + 1,
                    ));
                    assert(spec_table_lookup(table_view(tab@).skip(i as int), symbol@)
                        == spec_table_lookup(table_view(tab@).skip(i as int + 1), symbol@));
                }
                i = i + 1;
            }
            proof {
                assert(table_view(tab@).skip(n as int) =~= Seq::empty());
            }
            None
        },
    }
}

/// The specialized entry used to seed the RTT scan region: looks up the
/// conventional control-block symbol.
pub fn get_rtt_symbol(data: &[u8]) -> (r: Option<u64>)
    ensures
        r == spec_symbol_lookup(data@, RTT_SYMBOL@),
{
    get_symbol(data, RTT_SYMBOL)
}

} // verus!
