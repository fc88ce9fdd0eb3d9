//! Embedder-supplied configuration: the set of disabled built-in symbol
//! spellings and the table of custom keywords with their precedences. Both
//! are small association lists looked up by linear scan, viewed as a `Set`
//! and a `Map` over character sequences.

use crate::chars::str_eq;
use vstd::prelude::*;

verus! {

/// A set of canonical syntax spellings.
pub struct SymbolSet {
    pub entries: Vec<String>,
}

/// The set of spellings an entry list holds.
pub open spec fn spec_symbol_set(entries: Seq<String>) -> Set<Seq<char>> {
    Set::new(|x: Seq<char>| exists|i: int| 0 <= i < entries.len() && entries[i]@ == x)
}

impl View for SymbolSet {
    type V = Set<Seq<char>>;

    open spec fn view(&self) -> Set<Seq<char>> {
        spec_symbol_set(self.entries@)
    }
}

impl SymbolSet {
    /// An empty set of spellings.
    pub fn new() -> (r: Self)
        ensures
            r@ == Set::<Seq<char>>::empty(),
    {
        let r = SymbolSet { entries: Vec::new() };
        proof {
            assert(r@ =~= Set::<Seq<char>>::empty());
        }
        r
    }

    /// Add a spelling to the set.
    pub fn insert(&mut self, s: String)
        ensures
            final(self)@ == old(self)@.insert(s@),
    {
        let ghost s0 = self.entries@;
        self.entries.push(s);
        proof {
            assert forall|x: Seq<char>| spec_symbol_set(s0.push(s)).contains(x)
                == spec_symbol_set(s0).insert(s@).contains(x) by {
                if spec_symbol_set(s0).insert(s@).contains(x) {
                    if x == s@ {
                        assert(s0.push(s)[s0.len() as int]@ == x);
                    } else {
                        let i = choose|i: int| 0 <= i < s0.len() && s0[i]@ == x;
                        assert(s0.push(s)[i]@ == x);
                    }
                }
            }
            assert(final(self)@ =~= old(self)@.insert(s@));
        }
    }

    /// Is the spelling in the set?
    pub fn contains(&self, s: &str) -> (r: bool)
        ensures
            r == self@.contains(s@),
    {
        let mut i: usize = 0;
        while i < self.entries.len()
            invariant
                i <= self.entries@.len(),
                forall|j: int| 0 <= j < i ==> self.entries@[j]@ != s@,
            decreases self.entries@.len() - i,
        {
            if str_eq(self.entries[i].as_str(), s) {
                return true;
            }
            i += 1;
        }
        false
    }
}

/// A mapping from custom keyword names to their declared precedence.
pub struct CustomKeywords {
    pub entries: Vec<(String, u8)>,
}

/// The mapping an entry list holds; an entry nearer the front of the list
/// shadows one further back.
pub open spec fn spec_keyword_map(entries: Seq<(String, u8)>) -> Map<Seq<char>, u8>
    decreases entries.len(),
{
    if entries.len() == 0 {
        Map::empty()
    } else {
        spec_keyword_map(entries.drop_first()).insert(entries[0].0@, entries[0].1)
    }
}

impl View for CustomKeywords {
    type V = Map<Seq<char>, u8>;

    open spec fn view(&self) -> Map<Seq<char>, u8> {
        spec_keyword_map(self.entries@)
    }
}

/// One step of reading an entry list as a mapping.
proof fn lemma_keyword_map_step(entries: Seq<(String, u8)>, i: int)
    requires
        0 <= i < entries.len(),
    ensures
        spec_keyword_map(entries.skip(i)) == spec_keyword_map(entries.skip(i + 1)).insert(
            entries[i].0@,
            entries[i].1,
        ),
{
    assert(entries.skip(i).len() > 0);
    assert(entries.skip(i)[0] == entries[i]);
    assert(entries.skip(i).drop_first() =~= entries.skip(i + 1));
}

impl CustomKeywords {
    /// An empty keyword table.
    pub fn new() -> (r: Self)
        ensures
            r@ == Map::<Seq<char>, u8>::empty(),
    {
        CustomKeywords { entries: Vec::new() }
    }

    /// Declare a custom keyword with its precedence. A later declaration
    /// of the same name overrides an earlier one.
    pub fn insert(&mut self, name: String, precedence: u8)
        ensures
            final(self)@ == old(self)@.insert(name@, precedence),
    {
        let ghost s0 = self.entries@;
        let ghost key = name@;
        self.entries.insert(0, (name, precedence));
        proof {
            assert(self.entries@.drop_first() =~= s0);
            assert(self.entries@[0].0@ == key);
        }
    }

    /// The precedence declared for a name, if any.
    pub fn get(&self, s: &str) -> (r: Option<u8>)
        ensures
            r == if self@.contains_key(s@) {
                Option::<u8>::Some(self@[s@])
            } else {
                Option::<u8>::None
            },
    {
        let mut i: usize = 0;
        proof {
            assert(self.entries@.skip(0) =~= self.entries@);
        }
        while i < self.entries.len()
            invariant
                i <= self.entries@.len(),
                spec_keyword_map(self.entries@).contains_key(s@) == spec_keyword_map(
                    self.entries@.skip(i as int),
                ).contains_key(s@),
                spec_keyword_map(self.entries@).contains_key(s@)
                    ==> spec_keyword_map(self.entries@)[s@] == spec_keyword_map(
                    self.entries@.skip(i as int),
                )[s@],
            decreases self.entries@.len() - i,
        {
            proof {
                lemma_keyword_map_step(self.entries@, i as int);
            }
            if str_eq(self.entries[i].0.as_str(), s) {
                return Some(self.entries[i].1);
            }
            i += 1;
        }
        proof {
            assert(self.entries@.skip(self.entries@.len() as int) =~= Seq::<(String, u8)>::empty());
        }
        None
    }

    /// Is the name declared as a custom keyword?
    pub fn contains_key(&self, s: &str) -> (r: bool)
        ensures
            r == self@.contains_key(s@),
    {
        match self.get(s) {
            Some(_) => true,
            None => false,
        }
    }
}

/// A snapshot of the embedder configuration the lexer reads: which
/// built-in spellings are disabled, which names are custom keywords, and
/// the maximum string literal length (zero meaning unlimited).
pub struct LexConfig {
    pub disabled_symbols: Option<SymbolSet>,
    pub custom_keywords: Option<CustomKeywords>,
    pub max_string_size: usize,
}

impl LexConfig {
    /// The disabled-symbol spellings, if any were configured.
    pub open spec fn spec_disabled(&self) -> Option<Set<Seq<char>>> {
        match self.disabled_symbols {
            Some(ref s) => Some(s@),
            None => None,
        }
    }

    /// The custom-keyword table, if one was configured.
    pub open spec fn spec_custom(&self) -> Option<Map<Seq<char>, u8>> {
        match self.custom_keywords {
            Some(ref m) => Some(m@),
            None => None,
        }
    }

    /// A configuration with no overrides and no string length limit.
    pub fn new() -> (r: Self)
        ensures
            r.spec_disabled() is None,
            r.spec_custom() is None,
            r.max_string_size == 0,
    {
        LexConfig { disabled_symbols: None, custom_keywords: None, max_string_size: 0 }
    }
}

} // verus!
