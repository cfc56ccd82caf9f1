//! The player's standings with companies, found again by company name.
//! The reputation earned with each company is kept by the caller, at the
//! same position as the company's name here.

use vstd::prelude::*;
use vstd::string::*;
use crate::terminal::texts;
use crate::text::same_text;
use crate::search::{first_index_of, lemma_first_index_of_absent, lemma_first_index_of_found, lemma_first_index_of_is};

verus! {

/// The companies the player has standing with, in the order the player
/// first earned reputation with them.
pub struct CompanyStandings {
    names: Vec<String>,
}

impl View for CompanyStandings {
    type V = Seq<Seq<char>>;

    closed spec fn view(&self) -> Seq<Seq<char>> {
        texts(self.names@)
    }
}

/// No company is listed twice.
pub open spec fn distinct_names(names: Seq<Seq<char>>) -> bool {
    forall|i: int, j: int| 0 <= i < j < names.len() ==> names[i] != names[j]
}

impl CompanyStandings {
    /// No standings yet.
    pub fn new() -> (standings: CompanyStandings)
        ensures
            standings@ == Seq::<Seq<char>>::empty(),
    {
        let standings = CompanyStandings { names: Vec::new() };
        assert(texts(standings.names@) =~= Seq::<Seq<char>>::empty());
        standings
    }

    /// Standings with these companies, in this order (as a save file holds
    /// them).
    pub fn from_names(names: Vec<String>) -> (standings: CompanyStandings)
        ensures
            standings@ == texts(names@),
    {
        CompanyStandings { names }
    }

    /// The number of companies.
    pub fn len(&self) -> (n: usize)
        ensures
            n == self@.len(),
    {
        self.names.len()
    }

    /// The name of the company at `index`.
    pub fn name(&self, index: usize) -> (name: &str)
        requires
            index < self@.len(),
        ensures
            name@ == self@[index as int],
    {
        self.names[index].as_str()
    }

    /// Where the standing with `company_name` is: the first company of that
    /// name.
    pub fn position(&self, company_name: &str) -> (index: Option<usize>)
        ensures
            index matches Some(i) ==> i < self@.len() && first_index_of(self@, company_name@) == Some(
                i as int,
            ),
            index is None ==> first_index_of(self@, company_name@) is None,
    {
        let ghost names = self@;
        let n = self.names.len();
        let mut i: usize = 0;
        while i < n
            invariant
                n == names.len(),
                names == texts(self.names@),
                i <= n,
                forall|j: int| 0 <= j < i ==> names[j] != company_name@,
            decreases n - i,
        {
            if same_text(self.names[i].as_str(), company_name) {
                proof {
                    lemma_first_index_of_is(names, company_name@, i as int);
                }
                return Some(i);
            }
            i = i + 1;
        }
        proof {
            lemma_first_index_of_absent(names, company_name@);
        }
        None
    }

    /// The position at which reputation with `company_name` is earned: the
    /// company's standing if there is one, else a new standing added last.
    /// Returns the position and whether the standing is new.
    pub fn slot_for(&mut self, company_name: &str) -> (slot: (usize, bool))
        ensures
            first_index_of(old(self)@, company_name@) matches Some(i) ==> slot == (i as usize, false)
                && final(self)@ == old(self)@,
            slot.0 < final(self)@.len(),
            final(self)@[slot.0 as int] == company_name@,
            first_index_of(old(self)@, company_name@) is None ==> slot == (old(self)@.len() as usize,
            true) && final(self)@ == old(self)@.push(company_name@),
    {
        match self.position(company_name) {
            Some(i) => {
                proof {
                    lemma_first_index_of_found(self@, company_name@);
                }
                (i, false)
            },
            None => {
                let n = self.names.len();
                self.names.push(String::from_str(company_name));
                assert(texts(self.names@) =~= texts(old(self).names@).push(company_name@));
                (n, true)
            },
        }
    }

    /// Forgets every standing.
    pub fn clear(&mut self)
        ensures
            final(self)@ == Seq::<Seq<char>>::empty(),
    {
        self.names = Vec::new();
        assert(texts(self.names@) =~= Seq::<Seq<char>>::empty());
    }
}

/// Earning reputation with a company gives it a standing that is then found
/// again at the same position, leaves every other company where it was,
/// and never lists a company twice.
pub proof fn lemma_slot_is_found_again(names: Seq<Seq<char>>, name: Seq<char>)
    ensures
        ({
            let after = match first_index_of(names, name) {
                Some(_) => names,
                None => names.push(name),
            };
            let slot = match first_index_of(names, name) {
                Some(i) => i,
                None => names.len() as int,
            };
            &&& first_index_of(after, name) == Some(slot)
            &&& names.is_prefix_of(after)
            &&& distinct_names(names) ==> distinct_names(after)
        }),
{
    lemma_first_index_of_found(names, name);
    match first_index_of(names, name) {
        Some(i) => {
            lemma_first_index_of_is(names, name, i);
        },
        None => {
            let after = names.push(name);
            assert forall|j: int| 0 <= j < names.len() implies after[j] != name by {
                assert(after[j] == names[j]);
            }
            lemma_first_index_of_is(after, name, names.len() as int);
        },
    }
}

} // verus!
