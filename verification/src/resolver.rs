//! Identity reconciliation: a name-to-identifier reference table and
//! the rule that decides the trustworthy foreign key of a record from
//! a candidate identifier and a candidate company name.

use vstd::prelude::*;

verus! {

/// Names the class of characters that the `regex` crate's `\w` matches
/// (the Unicode word characters); the ASCII letters, digits and the
/// underscore are among them.
pub uninterp spec fn word_char(c: char) -> bool;

/// Whether a run of 24 word characters starts at position `i` of `s`.
pub open spec fn word_run_at(s: Seq<char>, i: int) -> bool {
    0 <= i && i + 24 <= s.len() && (forall|j: int| i <= j < i + 24 ==> word_char(#[trigger] s[j]))
}

/// The identifier validity policy: the text contains a run of 24
/// consecutive word characters somewhere (it need not consist of one).
pub open spec fn valid_identifier(s: Seq<char>) -> bool {
    exists|i: int| word_run_at(s, i)
}

/// Decides whether a candidate identifier satisfies the validity
/// pattern.
///
/// Relies on `regex::Regex::is_match` with the pattern `[\w]{24}`,
/// which reports whether some substring of 24 consecutive word
/// characters occurs in the text.
#[verifier::external_body]
pub(crate) fn identifier_matches(s: &str) -> (r: bool)
    ensures
        r == valid_identifier(s@),
        r ==> exists|i: int| 0 <= i && i + 24 <= s@.len() && word_char(#[trigger] s@[i]),
{
    regex::Regex::new(r"[\w]{24}").unwrap().is_match(s)
}

/// A mapping from company name to company identifier, built once per
/// job from the reference dataset.  Every binding ever inserted is
/// retained; a lookup sees the most recent binding of its name, so the
/// table presents map semantics with last-write-wins on duplicates.
pub struct ReferenceTable {
    entries: Vec<(String, String)>,
}

/// The mapping denoted by a sequence of `(name, identifier)` bindings:
/// each binding overwrites any earlier binding of the same name.
pub open spec fn bindings_map(entries: Seq<(String, String)>) -> Map<Seq<char>, Seq<char>>
    decreases entries.len(),
{
    if entries.len() == 0 {
        Map::empty()
    } else {
        bindings_map(entries.drop_last()).insert(entries.last().0@, entries.last().1@)
    }
}

impl View for ReferenceTable {
    type V = Map<Seq<char>, Seq<char>>;

    closed spec fn view(&self) -> Map<Seq<char>, Seq<char>> {
        bindings_map(self.entries@)
    }
}

impl ReferenceTable {
    /// An empty table.
    pub fn new() -> (t: Self)
        ensures
            t@ == Map::<Seq<char>, Seq<char>>::empty(),
    {
        ReferenceTable { entries: Vec::new() }
    }

    /// Binds `name` to `id`, overwriting any earlier binding of the
    /// same name.
    pub fn insert(&mut self, name: String, id: String)
        ensures
            final(self)@ == old(self)@.insert(name@, id@),
    {
        let ghost prev = self.entries@;
        self.entries.push((name, id));
        proof {
            assert(self.entries@.drop_last() =~= prev);
        }
    }

    /// Looks `name` up: the identifier of its most recent binding, or
    /// `None` when the name was never bound.
    pub fn get(&self, name: &str) -> (r: Option<&String>)
        ensures
            match r {
                Some(id) => self@.contains_key(name@) && self@[name@] == id@,
                None => !self@.contains_key(name@),
            },
    {
        let key = name.to_owned();
        let n = self.entries.len();
        let mut j: usize = n;
        proof {
            assert(self.entries@.subrange(0, n as int) =~= self.entries@);
        }
        while j > 0
            invariant
                j <= n,
                n == self.entries@.len(),
                key@ == name@,
                self@.contains_key(name@) == bindings_map(
                    self.entries@.subrange(0, j as int),
                ).contains_key(name@),
                self@.contains_key(name@) ==> self@[name@] == bindings_map(
                    self.entries@.subrange(0, j as int),
                )[name@],
            decreases j,
        {
            let ghost prefix = self.entries@.subrange(0, j as int);
            proof {
                assert(prefix.drop_last() =~= self.entries@.subrange(0, j - 1));
                assert(prefix.last() == self.entries@[j - 1]);
            }
            if self.entries[j - 1].0 == key {
                return Some(&self.entries[j - 1].1);
            }
            j = j - 1;
        }
        None
    }
}

/// The resolved foreign key of a record: a valid candidate identifier
/// is trusted as it stands; otherwise the candidate name's entry in
/// the table decides; a record with neither has no resolvable
/// identifier.
pub open spec fn spec_resolve(
    candidate_id: Seq<char>,
    candidate_name: Seq<char>,
    table: Map<Seq<char>, Seq<char>>,
) -> Option<Seq<char>> {
    if valid_identifier(candidate_id) {
        Some(candidate_id)
    } else if table.contains_key(candidate_name) {
        Some(table[candidate_name])
    } else {
        None
    }
}

/// Resolves the trustworthy foreign key of a record carrying a
/// candidate identifier and a candidate company name.  `None` signals
/// the normal business outcome of an unresolvable record, never a
/// failure.
pub fn resolve(candidate_id: &str, candidate_name: &str, table: &ReferenceTable) -> (r: Option<
    String,
>)
    ensures
        match r {
            Some(id) => spec_resolve(candidate_id@, candidate_name@, table@) == Some(id@),
            None => spec_resolve(candidate_id@, candidate_name@, table@) is None,
        },
{
    if identifier_matches(candidate_id) {
        Some(candidate_id.to_owned())
    } else {
        match table.get(candidate_name) {
            Some(id) => Some(id.clone()),
            None => None,
        }
    }
}

/// The resolver's three cases, stated once over every input: a valid
/// candidate identifier is returned unchanged whatever the table
/// holds; an invalid one falls back to the table entry of the name;
/// with neither, resolution signals unresolved.
pub proof fn lemma_resolver_cases(
    candidate_id: Seq<char>,
    candidate_name: Seq<char>,
    table: Map<Seq<char>, Seq<char>>,
)
    ensures
        valid_identifier(candidate_id) ==> spec_resolve(candidate_id, candidate_name, table)
            == Some(candidate_id),
        !valid_identifier(candidate_id) && table.contains_key(candidate_name) ==> spec_resolve(
            candidate_id,
            candidate_name,
            table,
        ) == Some(table[candidate_name]),
        !valid_identifier(candidate_id) && !table.contains_key(candidate_name) ==> spec_resolve(
            candidate_id,
            candidate_name,
            table,
        ) is None,
{
}

/// Last write wins: binding a name twice leaves the table exactly as
/// if only the second binding had been made.
pub proof fn lemma_last_write_wins(
    table: Map<Seq<char>, Seq<char>>,
    name: Seq<char>,
    id1: Seq<char>,
    id2: Seq<char>,
)
    ensures
        table.insert(name, id1).insert(name, id2) == table.insert(name, id2),
{
    assert(table.insert(name, id1).insert(name, id2) =~= table.insert(name, id2));
}

} // verus!
