//! Names and identifiers, and the order in which named entries are kept.
use vstd::prelude::*;
use vstd::string::*;

verus! {

/// A name bound in a contract: a variable, a function, a map, a trait, a tuple field.
pub struct ClarityName {
    pub text: String,
}

impl View for ClarityName {
    type V = Seq<char>;

    open spec fn view(&self) -> Seq<char> {
        self.text@
    }
}

impl Clone for ClarityName {
    fn clone(&self) -> (copy: Self)
        ensures
            copy@ == self@,
    {
        ClarityName { text: self.text.clone() }
    }
}

impl ClarityName {
    pub fn new(text: &str) -> (name: ClarityName)
        ensures
            name@ == text@,
    {
        ClarityName { text: text.to_owned() }
    }

    pub fn as_str(&self) -> (text: &str)
        ensures
            text@ == self@,
    {
        self.text.as_str()
    }

    /// The name as an owned string.
    pub fn to_text(&self) -> (text: String)
        ensures
            text@ == self@,
    {
        self.text.clone()
    }
}

/// The model of a contract identifier.
pub struct ContractId {
    pub issuer: Seq<char>,
    pub name: Seq<char>,
}

impl ContractId {
    /// How the identifier is written: the issuer's address, a dot, the contract's name.
    pub open spec fn text(self) -> Seq<char> {
        self.issuer + "."@ + self.name
    }
}

/// A contract: the address that published it, and its name under that address.
pub struct QualifiedContractIdentifier {
    pub issuer: String,
    pub name: String,
}

impl View for QualifiedContractIdentifier {
    type V = ContractId;

    open spec fn view(&self) -> ContractId {
        ContractId { issuer: self.issuer@, name: self.name@ }
    }
}

impl Clone for QualifiedContractIdentifier {
    fn clone(&self) -> (copy: Self)
        ensures
            copy@ == self@,
    {
        QualifiedContractIdentifier { issuer: self.issuer.clone(), name: self.name.clone() }
    }
}

impl QualifiedContractIdentifier {
    pub fn new(issuer: &str, name: &str) -> (id: QualifiedContractIdentifier)
        ensures
            id@ == (ContractId { issuer: issuer@, name: name@ }),
    {
        QualifiedContractIdentifier { issuer: issuer.to_owned(), name: name.to_owned() }
    }

    pub fn same(&self, other: &QualifiedContractIdentifier) -> (equal: bool)
        ensures
            equal == (self@ == other@),
    {
        self.issuer == other.issuer && self.name == other.name
    }

    /// The identifier as it is written in a contract.
    pub fn to_text(&self) -> (text: String)
        ensures
            text@ == self@.text(),
    {
        self.issuer.clone().concat(".").concat(self.name.as_str())
    }
}

/// The model of a trait identifier.
pub struct TraitId {
    pub contract: ContractId,
    pub name: Seq<char>,
}

/// A trait: its name, and the contract that defines it.
pub struct TraitIdentifier {
    pub name: ClarityName,
    pub contract_identifier: QualifiedContractIdentifier,
}

impl View for TraitIdentifier {
    type V = TraitId;

    open spec fn view(&self) -> TraitId {
        TraitId { contract: self.contract_identifier@, name: self.name@ }
    }
}

impl Clone for TraitIdentifier {
    fn clone(&self) -> (copy: Self)
        ensures
            copy@ == self@,
    {
        TraitIdentifier {
            name: self.name.clone(),
            contract_identifier: self.contract_identifier.clone(),
        }
    }
}

impl TraitIdentifier {
    pub fn new(contract_identifier: QualifiedContractIdentifier, name: ClarityName) -> (id:
        TraitIdentifier)
        ensures
            id@ == (TraitId { contract: contract_identifier@, name: name@ }),
    {
        TraitIdentifier { name, contract_identifier }
    }

    pub fn same(&self, other: &TraitIdentifier) -> (equal: bool)
        ensures
            equal == (self@ == other@),
    {
        self.contract_identifier.same(&other.contract_identifier) && self.name.text
            == other.name.text
    }
}

/// Whether two texts are the same.
pub fn same_text(left: &str, right: &str) -> (equal: bool)
    ensures
        equal == (left@ == right@),
{
    left.to_owned() == right.to_owned()
}

/// Whether `left` stands before `right` in dictionary order, character by character.
pub open spec fn text_less(left: Seq<char>, right: Seq<char>) -> bool
    decreases left.len(),
{
    if right.len() == 0 {
        false
    } else if left.len() == 0 {
        true
    } else if left[0] != right[0] {
        (left[0] as int) < (right[0] as int)
    } else {
        text_less(left.drop_first(), right.drop_first())
    }
}

/// Whether `left` stands before `right` in dictionary order.
pub fn precedes(left: &str, right: &str) -> (less: bool)
    ensures
        less == text_less(left@, right@),
{
    let left_len: usize = left.unicode_len();
    let right_len: usize = right.unicode_len();
    let mut i: usize = 0;
    assert(left@.skip(0) =~= left@);
    assert(right@.skip(0) =~= right@);
    while i < left_len && i < right_len
        invariant
            left_len == left@.len(),
            right_len == right@.len(),
            i <= left_len,
            i <= right_len,
            text_less(left@, right@) == text_less(left@.skip(i as int), right@.skip(i as int)),
        decreases left_len - i,
    {
        let l: char = left.get_char(i);
        let r: char = right.get_char(i);
        proof {
            assert(left@.skip(i as int).drop_first() =~= left@.skip(i + 1));
            assert(right@.skip(i as int).drop_first() =~= right@.skip(i + 1));
        }
        if l != r {
            return (l as u32) < (r as u32);
        }
        i += 1;
    }
    i < right_len
}

/// No text stands before itself.
pub proof fn text_less_irreflexive(text: Seq<char>)
    ensures
        !text_less(text, text),
    decreases text.len(),
{
    if text.len() > 0 {
        text_less_irreflexive(text.drop_first());
    }
}

/// Dictionary order is transitive.
pub proof fn text_less_transitive(a: Seq<char>, b: Seq<char>, c: Seq<char>)
    requires
        text_less(a, b),
        text_less(b, c),
    ensures
        text_less(a, c),
    decreases a.len(),
{
    if a.len() > 0 && a[0] == b[0] && b[0] == c[0] {
        text_less_transitive(a.drop_first(), b.drop_first(), c.drop_first());
    }
}

/// Of two different texts, one stands before the other.
pub proof fn text_less_total(a: Seq<char>, b: Seq<char>)
    requires
        a != b,
    ensures
        text_less(a, b) || text_less(b, a),
    decreases a.len(),
{
    if a.len() > 0 && b.len() > 0 && a[0] == b[0] {
        if a.drop_first() == b.drop_first() {
            assert(a =~= seq![a[0]] + a.drop_first());
            assert(b =~= seq![b[0]] + b.drop_first());
        }
        text_less_total(a.drop_first(), b.drop_first());
    } else if a.len() == 0 && b.len() == 0 {
        assert(a =~= b);
    }
}

/// The traits that a list of identifiers names.
pub open spec fn trait_ids(ids: Seq<TraitIdentifier>) -> Seq<TraitId> {
    Seq::new(ids.len(), |i: int| ids[i]@)
}

/// A set of traits.
pub struct TraitSet {
    ids: Vec<TraitIdentifier>,
}

impl View for TraitSet {
    type V = Set<TraitId>;

    closed spec fn view(&self) -> Set<TraitId> {
        trait_ids(self.ids@).to_set()
    }
}

impl TraitSet {
    pub fn new() -> (set: TraitSet)
        ensures
            set@ == Set::<TraitId>::empty(),
    {
        let set = TraitSet { ids: Vec::new() };
        assert(set@ =~= Set::<TraitId>::empty());
        set
    }

    pub fn contains(&self, id: &TraitIdentifier) -> (present: bool)
        ensures
            present == self@.contains(id@),
    {
        let ghost ids = trait_ids(self.ids@);
        let mut i: usize = 0;
        while i < self.ids.len()
            invariant
                i <= self.ids@.len(),
                ids == trait_ids(self.ids@),
                forall|j: int| 0 <= j < i ==> #[trigger] ids[j] != id@,
            decreases self.ids@.len() - i,
        {
            assert(ids[i as int] == self.ids@[i as int]@);
            if self.ids[i].same(id) {
                return true;
            }
            i += 1;
        }
        false
    }

    pub fn insert(&mut self, id: TraitIdentifier)
        ensures
            final(self)@ == old(self)@.insert(id@),
    {
        if self.contains(&id) {
            assert(self@ =~= old(self)@.insert(id@));
            return;
        }
        self.ids.push(id);
        let ghost before = trait_ids(old(self).ids@);
        let ghost after = trait_ids(self.ids@);
        assert(after =~= before.push(id@));
        assert forall|other: TraitId| after.contains(other) == (before.contains(other) || other
            == id@) by {
            if before.contains(other) {
                let at = choose|at: int| 0 <= at < before.len() && before[at] == other;
                assert(after[at] == other);
            }
            assert(after[before.len() as int] == id@);
        }
        assert(self@ =~= old(self)@.insert(id@));
    }

    /// Puts every trait of `other` into the set.
    pub fn absorb(&mut self, other: &TraitSet)
        ensures
            final(self)@ == old(self)@.union(other@),
    {
        let ghost ids = trait_ids(other.ids@);
        let ghost before = self@;
        assert(before.union(ids.take(0).to_set()) =~= before);
        let mut i: usize = 0;
        while i < other.ids.len()
            invariant
                i <= other.ids@.len(),
                ids == trait_ids(other.ids@),
                self@ == before.union(ids.take(i as int).to_set()),
            decreases other.ids@.len() - i,
        {
            let ghost taken = ids.take(i as int);
            let ghost more = ids.take(i + 1);
            assert(more =~= taken.push(ids[i as int]));
            assert forall|id: TraitId| more.contains(id) == (taken.contains(id) || id
                == ids[i as int]) by {
                if taken.contains(id) {
                    let at = choose|at: int| 0 <= at < taken.len() && taken[at] == id;
                    assert(more[at] == id);
                }
                assert(more[i as int] == ids[i as int]);
            }
            self.insert(other.ids[i].clone());
            assert(self@ =~= before.union(more.to_set()));
            i += 1;
        }
        assert(ids.take(i as int) =~= ids);
    }
}

} // verus!
