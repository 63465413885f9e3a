//! An insertion-ordered set of texts, kept in an `indexmap::IndexSet`.
//!
//! Verus does not look into the set. What it holds goes by the name
//! [`set_items`], and the functions marked as trusted say what each
//! method of the set does to that sequence.
use vstd::prelude::*;
use vstd::string::*;
use indexmap::IndexSet;

verus! {

#[verifier::external_type_specification]
#[verifier::external_body]
#[verifier::reject_recursive_types(T)]
#[verifier::reject_recursive_types(S)]
pub struct ExIndexSet<T, S>(IndexSet<T, S>);

/// The texts that a set holds, in the order in which they were first
/// inserted.
pub uninterp spec fn set_items(set: IndexSet<String>) -> Seq<Seq<char>>;

/// Calls `IndexSet::new`. Trusted: the new set holds nothing.
#[verifier::external_body]
fn set_new() -> (set: IndexSet<String>)
    ensures
        set_items(set) == Seq::<Seq<char>>::empty(),
{
    IndexSet::new()
}

/// Calls `IndexSet::insert`. Trusted: a text that the set already holds
/// leaves the set as it was and gives `false`; any other text goes to
/// the end and gives `true`.
#[verifier::external_body]
fn set_insert(set: &mut IndexSet<String>, value: String) -> (inserted: bool)
    ensures
        inserted == !set_items(*old(set)).contains(value@),
        inserted ==> set_items(*final(set)) == set_items(*old(set)).push(value@),
        !inserted ==> set_items(*final(set)) == set_items(*old(set)),
{
    set.insert(value)
}

/// Calls `IndexSet::len`. Trusted: the number of texts held.
#[verifier::external_body]
fn set_len(set: &IndexSet<String>) -> (n: usize)
    ensures
        n == set_items(*set).len(),
{
    set.len()
}

/// Calls `IndexSet::get_index`. Trusted: the text at position `index`
/// in insertion order, or `None` past the end.
#[verifier::external_body]
fn set_get_index(set: &IndexSet<String>, index: usize) -> (item: Option<&String>)
    ensures
        item is Some <==> index < set_items(*set).len(),
        item matches Some(text) ==> text@ == set_items(*set)[index as int],
{
    set.get_index(index)
}

/// Calls `IndexSet::get_index_of`. Trusted: the position of `value` in
/// insertion order, or `None` if the set does not hold it.
#[verifier::external_body]
fn set_get_index_of(set: &IndexSet<String>, value: &str) -> (index: Option<usize>)
    ensures
        index is Some <==> set_items(*set).contains(value@),
        index matches Some(i) ==> i < set_items(*set).len() && set_items(*set)[i as int] == value@,
{
    set.get_index_of(value)
}

/// The texts of `items` in order of first appearance, each once.
pub open spec fn distinct(items: Seq<Seq<char>>) -> Seq<Seq<char>>
    decreases items.len(),
{
    if items.len() == 0 {
        Seq::empty()
    } else {
        let before = distinct(items.drop_last());
        if before.contains(items.last()) {
            before
        } else {
            before.push(items.last())
        }
    }
}

/// The distinct texts are the texts of `items`: no more, no fewer.
pub proof fn lemma_distinct_contains(items: Seq<Seq<char>>, text: Seq<char>)
    ensures
        distinct(items).contains(text) <==> items.contains(text),
    decreases items.len(),
{
    if items.len() > 0 {
        let front = items.drop_last();
        let last = items.last();
        let before = distinct(front);
        lemma_distinct_contains(front, text);
        lemma_distinct_contains(front, last);
        if items.contains(text) {
            let i = choose|i: int| 0 <= i < items.len() && items[i] == text;
            if i < items.len() - 1 {
                assert(front[i] == text);
                assert(front.contains(text));
                let k = choose|k: int| 0 <= k < before.len() && before[k] == text;
                assert(distinct(items)[k] == text);
            } else {
                if before.contains(last) {
                } else {
                    assert(distinct(items)[before.len() as int] == text);
                }
            }
        }
        if distinct(items).contains(text) {
            let k = choose|k: int| 0 <= k < distinct(items).len() && distinct(items)[k] == text;
            if k < before.len() {
                assert(before[k] == text);
                assert(before.contains(text));
                assert(front.contains(text));
                let i = choose|i: int| 0 <= i < front.len() && front[i] == text;
                assert(items[i] == text);
            } else {
                assert(items[items.len() - 1] == text);
            }
        }
    }
}

/// Nothing occurs twice among the distinct texts.
pub proof fn lemma_distinct_no_duplicates(items: Seq<Seq<char>>)
    ensures
        distinct(items).no_duplicates(),
    decreases items.len(),
{
    if items.len() > 0 {
        lemma_distinct_no_duplicates(items.drop_last());
    }
}

/// Texts that come later never move the earlier ones: the distinct
/// texts of `first` open the distinct texts of `first + more`.
pub proof fn lemma_distinct_prefix(first: Seq<Seq<char>>, more: Seq<Seq<char>>)
    ensures
        distinct(first).len() <= distinct(first + more).len(),
        distinct(first + more).take(distinct(first).len() as int) == distinct(first),
    decreases more.len(),
{
    if more.len() == 0 {
        assert(first + more == first);
        assert(distinct(first).take(distinct(first).len() as int) == distinct(first));
    } else {
        let all = first + more;
        assert(all.drop_last() == first + more.drop_last());
        lemma_distinct_prefix(first, more.drop_last());
        let before = distinct(all.drop_last());
        let n = distinct(first).len() as int;
        if !before.contains(all.last()) {
            assert(before.push(all.last()).take(n) == before.take(n));
        }
    }
}

/// An insertion-ordered set of texts.
pub struct OrderedSet {
    set: IndexSet<String>,
}

impl View for OrderedSet {
    type V = Seq<Seq<char>>;

    closed spec fn view(&self) -> Seq<Seq<char>> {
        set_items(self.set)
    }
}

impl OrderedSet {
    /// An empty set.
    pub fn new() -> (s: Self)
        ensures
            s@ == Seq::<Seq<char>>::empty(),
    {
        Self { set: set_new() }
    }

    /// Inserts `text` at the end unless the set holds it already, and
    /// says whether it was inserted.
    pub fn insert(&mut self, text: String) -> (inserted: bool)
        ensures
            inserted == !old(self)@.contains(text@),
            inserted ==> final(self)@ == old(self)@.push(text@),
            !inserted ==> final(self)@ == old(self)@,
    {
        set_insert(&mut self.set, text)
    }

    /// The number of texts held.
    pub fn len(&self) -> (n: usize)
        ensures
            n == self@.len(),
    {
        set_len(&self.set)
    }

    /// The text at position `index` in insertion order.
    pub fn get(&self, index: usize) -> (item: Option<&String>)
        ensures
            item is Some <==> index < self@.len(),
            item matches Some(text) ==> text@ == self@[index as int],
    {
        set_get_index(&self.set, index)
    }

    /// The position of `text` in insertion order.
    pub fn position(&self, text: &str) -> (index: Option<usize>)
        ensures
            index is Some <==> self@.contains(text@),
            index matches Some(i) ==> i < self@.len() && self@[i as int] == text@,
    {
        set_get_index_of(&self.set, text)
    }

    /// The texts held, in insertion order.
    pub fn to_vec(&self) -> (items: Vec<String>)
        ensures
            items.deep_view() == self@,
    {
        let mut items: Vec<String> = Vec::new();
        let n = self.len();
        let mut i: usize = 0;
        while i < n
            invariant
                0 <= i <= n,
                n == self@.len(),
                items.deep_view() == self@.take(i as int),
            decreases n - i,
        {
            match self.get(i) {
                Some(text) => {
                    let ghost before = items.deep_view();
                    items.push(text.clone());
                    assert(items.deep_view() =~= before.push(text@));
                    assert(self@.take(i + 1) =~= self@.take(i as int).push(self@[i as int]));
                },
                None => {},
            }
            i = i + 1;
        }
        assert(self@.take(n as int) =~= self@);
        items
    }
}

/// The texts of `items` in order of first appearance, each once.
pub fn unique(items: &Vec<String>) -> (kept: Vec<String>)
    ensures
        kept.deep_view() == distinct(items.deep_view()),
{
    let mut set = OrderedSet::new();
    let mut i: usize = 0;
    while i < items.len()
        invariant
            0 <= i <= items.len(),
            set@ == distinct(items.deep_view().take(i as int)),
        decreases items.len() - i,
    {
        let ghost next = items.deep_view().take(i + 1);
        assert(next.drop_last() =~= items.deep_view().take(i as int));
        assert(next.last() == items[i as int]@);
        set.insert(items[i].clone());
        i = i + 1;
    }
    assert(items.deep_view().take(items.len() as int) =~= items.deep_view());
    set.to_vec()
}

} // verus!
