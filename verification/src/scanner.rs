//! Inline contracts: modules in text format that a source file holds as
//! string constants, found by their naming convention and kept by name.

use vstd::prelude::*;
use vstd::slice::{slice_subrange, slice_to_vec};
use vstd::utf8::encode_utf8;
use crate::pattern::{
    contract_marker, find_contracts, has_match, is_match, lemma_match_has_next,
    lemma_matches_in_order, lemma_no_marker_no_match, matches_from, occurs_at, places_of,
};
use crate::text::{chars_of, lowercase, text_between, to_lowercase};

verus! {

/// What a [`WatContract`] holds.
pub struct WatContractView {
    pub name: Seq<char>,
    pub code: Seq<char>,
}

/// A smart contract in text format, as it was found in a source file: the
/// name of its component, and its body between the raw-string delimiters, the
/// two quotes included.
#[derive(Debug, Clone)]
pub struct WatContract {
    code: String,
    name: String,
}

impl View for WatContract {
    type V = WatContractView;

    closed spec fn view(&self) -> WatContractView {
        WatContractView { name: self.name@, code: self.code@ }
    }
}

/// The text of a module inside an inline body: the body without its first and
/// its last byte, where it has both.
pub open spec fn module_text_of(code: Seq<char>) -> Option<Seq<u8>> {
    let bytes = encode_utf8(code);
    if bytes.len() >= 2 {
        Some(bytes.subrange(1, bytes.len() - 1))
    } else {
        None
    }
}

impl WatContract {
    /// The name of the component.
    pub fn name(&self) -> (name: &str)
        ensures
            name@ == self@.name,
    {
        self.name.as_str()
    }

    /// The body as it stood between the delimiters.
    pub fn code(&self) -> (code: &str)
        ensures
            code@ == self@.code,
    {
        self.code.as_str()
    }

    /// The module text to compile: the body without the quote before it and
    /// the quote behind it. A body of less than two bytes holds no text.
    pub fn module_text(&self) -> (text: Option<Vec<u8>>)
        ensures
            match (text, module_text_of(self@.code)) {
                (Some(text), Some(expected)) => text@ == expected,
                (None, None) => true,
                _ => false,
            },
    {
        let bytes = self.code.as_str().as_bytes();
        if bytes.len() < 2 {
            None
        } else {
            Some(slice_to_vec(slice_subrange(bytes, 1, bytes.len() - 1)))
        }
    }
}

/// The contract that a match of the naming convention declares: the
/// identifier in lowercase, and all that stands between marker and terminator.
pub open spec fn contract_at(text: Seq<char>, start: int, mark: int, end: int) -> WatContractView {
    WatContractView {
        name: lowercase(text.subrange(start, mark)),
        code: text.subrange(mark + contract_marker().len(), end),
    }
}

/// What a scan of `text` finds: the contract of each match of the naming
/// convention, in the order in which the matches stand in the text. The body
/// of a contract ends at the first terminator behind its marker, and the next
/// contract is looked for behind that terminator.
pub open spec fn all_matches(text: Seq<char>) -> Seq<WatContractView> {
    matches_from(text, 0).map_values(
        |place: (int, int, int)| contract_at(text, place.0, place.1, place.2),
    )
}

/// The first of `contracts` that goes by `name`.
pub open spec fn is_first_named(contracts: Seq<WatContractView>, name: Seq<char>, i: int) -> bool {
    &&& 0 <= i < contracts.len()
    &&& contracts[i].name == name
    &&& forall|j: int| 0 <= j < i ==> (#[trigger] contracts[j]).name != name
}

/// One of `contracts` goes by `name`.
pub open spec fn has_named(contracts: Seq<WatContractView>, name: Seq<char>) -> bool {
    exists|i: int| 0 <= i < contracts.len() && (#[trigger] contracts[i]).name == name
}

/// Scanner for contracts in text format.
///
/// A contract is a string constant whose name ends in `_WAT_CONTRACT`, as in
/// `static EXAMPLE_WAT_CONTRACT: &str = r#"(module)"#;`, which declares the
/// component `example`. The scanner keeps the contracts in the order in which
/// they were found or added, and finds them again by name.
#[derive(Debug)]
pub struct WatContractsScanner {
    contracts: Vec<WatContract>,
}

impl View for WatContractsScanner {
    type V = Seq<WatContractView>;

    closed spec fn view(&self) -> Seq<WatContractView> {
        Seq::new(self.contracts@.len(), |i: int| self.contracts@[i]@)
    }
}

impl WatContractsScanner {
    /// A scanner that holds no contract.
    pub fn new_empty() -> (scanner: WatContractsScanner)
        ensures
            scanner@ == Seq::<WatContractView>::empty(),
    {
        let scanner = WatContractsScanner { contracts: Vec::new() };
        assert(scanner@ =~= Seq::<WatContractView>::empty());
        scanner
    }

    /// The number of contracts held.
    pub fn len(&self) -> (len: usize)
        ensures
            len == self@.len(),
    {
        self.contracts.len()
    }

    /// The contract at `index`, counted from the first that came in.
    pub fn get(&self, index: usize) -> (contract: Option<&WatContract>)
        ensures
            match contract {
                Some(contract) => index < self@.len() && contract@ == self@[index as int],
                None => index >= self@.len(),
            },
    {
        if index < self.contracts.len() {
            Some(&self.contracts[index])
        } else {
            None
        }
    }

    /// Looks for every match of the naming convention in `text`, keeps the
    /// contracts that they declare behind those already held, in the order of
    /// the text, and says whether there was one.
    pub fn scan_from_text(&mut self, text: &str) -> (found: bool)
        ensures
            final(self)@ == old(self)@ + all_matches(text@),
            found == (all_matches(text@).len() > 0),
    {
        let chars = chars_of(text);
        let places = find_contracts(&chars);
        let marker_len = chars_of("_WAT_CONTRACT: &str = r#").len();
        let ghost held = self@;
        let mut i: usize = 0;
        assert(self@ =~= held + all_matches(text@).take(0));
        while i < places.len()
            invariant
                i <= places.len(),
                chars@ == text@,
                marker_len == contract_marker().len(),
                places@.map_values(|place: (usize, usize, usize)| places_of(place))
                    == matches_from(text@, 0),
                self@ == held + all_matches(text@).take(i as int),
            decreases places.len() - i,
        {
            let (start, mark, end) = places[i];
            proof {
                assert(places@.map_values(|place: (usize, usize, usize)| places_of(place))[i as int]
                    == places_of(places@[i as int]));
                lemma_matches_in_order(text@, 0, i as int);
                assert(matches_from(text@, 0)[i as int] == (start as int, mark as int, end as int));
                assert(is_match(text@, start as int, mark as int, end as int));
            }
            let name = to_lowercase(text_between(&chars, start, mark).as_str());
            let code = text_between(&chars, mark + marker_len, end);
            let ghost before = self@;
            self.contracts.push(WatContract { name, code });
            proof {
                let added = contract_at(text@, start as int, mark as int, end as int);
                assert(self@ =~= before.push(added));
                assert(all_matches(text@)[i as int] == added);
                assert(all_matches(text@).take(i + 1) =~= all_matches(text@).take(i as int).push(
                    added,
                ));
                assert(held + all_matches(text@).take(i + 1) =~= (held + all_matches(text@).take(
                    i as int,
                )).push(added));
            }
            i += 1;
        }
        assert(all_matches(text@).take(i as int) =~= all_matches(text@));
        places.len() > 0
    }

    /// Keeps a contract under `name`, behind those already held.
    pub fn add_contract(&mut self, name: &str, code: &str)
        ensures
            final(self)@ == old(self)@.push(WatContractView { name: name@, code: code@ }),
    {
        self.contracts.push(WatContract { name: name.to_owned(), code: code.to_owned() });
        assert(self@ =~= old(self)@.push(WatContractView { name: name@, code: code@ }));
    }

    /// The first contract that goes by exactly `name`, in the order in which
    /// the contracts came in.
    pub fn find_by_name(&self, name: String) -> (found: Option<&WatContract>)
        ensures
            match found {
                Some(contract) => exists|i: int| #[trigger]
                    is_first_named(self@, name@, i) && contract@ == self@[i],
                None => !has_named(self@, name@),
            },
    {
        let mut i: usize = 0;
        while i < self.contracts.len()
            invariant
                i <= self.contracts.len(),
                forall|j: int| 0 <= j < i ==> (#[trigger] self@[j]).name != name@,
            decreases self.contracts.len() - i,
        {
            if self.contracts[i].name == name {
                assert(is_first_named(self@, name@, i as int));
                return Some(&self.contracts[i]);
            }
            i += 1;
        }
        None
    }
}

/// A text in which the marker of the naming convention stands nowhere
/// declares no contract: a scan of it finds none and keeps none.
pub proof fn lemma_no_marker_no_contract(text: Seq<char>)
    requires
        forall|at: int| !occurs_at(text, contract_marker(), at),
    ensures
        !has_match(text, 0),
        all_matches(text) == Seq::<WatContractView>::empty(),
{
    lemma_no_marker_no_match(text, 0);
    assert(all_matches(text) =~= Seq::<WatContractView>::empty());
}

/// A scan finds a contract exactly where the naming convention matches the
/// text, and it finds one contract for each match that it comes to: the
/// first is that of the first match of the text, and each other is that of
/// the first match behind the terminator of the one before it.
pub proof fn lemma_scan_keeps_every_match(text: Seq<char>)
    ensures
        all_matches(text).len() > 0 <==> has_match(text, 0),
        all_matches(text).len() == matches_from(text, 0).len(),
        forall|i: int|
            0 <= i < all_matches(text).len() ==> {
                let place = matches_from(text, 0)[i];
                &&& #[trigger] all_matches(text)[i] == contract_at(text, place.0, place.1, place.2)
                &&& is_match(text, place.0, place.1, place.2)
                &&& i > 0 ==> matches_from(text, 0)[i - 1].2 < place.0
            },
{
    lemma_match_has_next(text, 0);
    assert forall|i: int| 0 <= i < all_matches(text).len() implies {
        let place = matches_from(text, 0)[i];
        &&& #[trigger] all_matches(text)[i] == contract_at(text, place.0, place.1, place.2)
        &&& is_match(text, place.0, place.1, place.2)
        &&& i > 0 ==> matches_from(text, 0)[i - 1].2 < place.0
    } by {
        reveal_strlit("#;");
        lemma_matches_in_order(text, 0, i);
    }
}

/// The contract that a name finds is not displaced by one that comes in
/// later: of two contracts of one name, the one that came first is found.
pub proof fn lemma_first_named_stays(
    contracts: Seq<WatContractView>,
    name: Seq<char>,
    i: int,
    later: WatContractView,
)
    requires
        is_first_named(contracts, name, i),
    ensures
        is_first_named(contracts.push(later), name, i),
        contracts.push(later)[i] == contracts[i],
{
}

/// A name that found nothing finds the contract that comes in under it.
pub proof fn lemma_new_name_is_found(
    contracts: Seq<WatContractView>,
    name: Seq<char>,
    later: WatContractView,
)
    requires
        !has_named(contracts, name),
        later.name == name,
    ensures
        is_first_named(contracts.push(later), name, contracts.len() as int),
{
}

} // verus!
