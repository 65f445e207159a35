//! The words by which a principal is found, and what a change of a
//! principal does to the index of those words.
//!
//! A principal is indexed under each word of its name, its description and
//! its addresses. Splitting a text into words is left to the caller, which
//! hands in the words of the stored principal and of the new one.
use ahash::{AHashSet, RandomState};
use vstd::prelude::*;
use vstd::string::*;
use vstd::utf8::encode_utf8;
use super::principal::{Principal, PrincipalView};
use crate::text::{clone_strings, lemma_strs_push, strs};

verus! {

/// The hash set of `ahash`, opaque to the verifier.
#[verifier::external_type_specification]
#[verifier::external_body]
#[verifier::reject_recursive_types(K)]
#[verifier::reject_recursive_types(H)]
pub struct ExAHashSet<K, H>(AHashSet<K, H>);

/// The hasher state of `ahash`, opaque to the verifier.
#[verifier::external_type_specification]
#[verifier::external_body]
pub struct ExRandomState(RandomState);

/// The strings that a set of words holds.
pub uninterp spec fn words_of(set: AHashSet<String, RandomState>) -> Set<Seq<char>>;

/// `AHashSet::new` makes an empty set.
#[verifier::external_body]
fn word_set_new() -> (set: AHashSet<String, RandomState>)
    ensures
        words_of(set) == Set::<Seq<char>>::empty(),
{
    AHashSet::new()
}

/// `AHashSet::extend` hands each item to the `extend` of the standard hash
/// set, which inserts it: afterwards the set holds what it held and every
/// item given.
#[verifier::external_body]
fn word_set_extend(set: &mut AHashSet<String, RandomState>, words: Vec<String>)
    ensures
        words_of(*final(set)) == words_of(*old(set)).union(strs(words@).to_set()),
{
    set.extend(words)
}

/// `HashSet::difference`, reached through the set's `Deref`, visits the
/// items of the first set that the second does not hold, each once and in
/// no particular order. The items are copied out as they are visited.
#[verifier::external_body]
fn word_set_difference(
    a: &AHashSet<String, RandomState>,
    b: &AHashSet<String, RandomState>,
) -> (words: Vec<String>)
    ensures
        strs(words@).to_set() == words_of(*a).difference(words_of(*b)),
        strs(words@).no_duplicates(),
{
    a.difference(b).cloned().collect()
}

/// A change to the index of words.
#[derive(Debug, Clone, PartialEq, Eq)]
pub enum IndexOp {
    /// The principal is to be found under the word.
    Add { word: Vec<u8>, principal_id: u32 },
    /// The principal is no longer to be found under the word.
    Clear { word: Vec<u8>, principal_id: u32 },
}

/// An `IndexOp` as a mathematical value.
pub enum IndexOpView {
    Add { word: Seq<u8>, principal_id: u32 },
    Clear { word: Seq<u8>, principal_id: u32 },
}

impl View for IndexOp {
    type V = IndexOpView;

    open spec fn view(&self) -> IndexOpView {
        match self {
            IndexOp::Add { word, principal_id } => IndexOpView::Add {
                word: word@,
                principal_id: *principal_id,
            },
            IndexOp::Clear { word, principal_id } => IndexOpView::Clear {
                word: word@,
                principal_id: *principal_id,
            },
        }
    }
}

/// The changes of a list, as mathematical values in the same order.
pub open spec fn op_views(ops: Seq<IndexOp>) -> Seq<IndexOpView> {
    ops.map_values(|op: IndexOp| op@)
}

/// The texts whose words a principal is indexed under: its name, its
/// description if it has one, and its addresses.
pub open spec fn index_texts(p: PrincipalView) -> Seq<Seq<char>> {
    seq![p.name] + (match p.description {
        Some(d) => seq![d],
        None => Seq::<Seq<char>>::empty(),
    }) + p.emails
}

/// The changes that put a principal under each of the words, in their
/// order. A word is indexed by its bytes.
pub open spec fn add_ops(words: Seq<Seq<char>>, principal_id: u32) -> Seq<IndexOpView> {
    words.map_values(|w: Seq<char>| IndexOpView::Add { word: encode_utf8(w), principal_id })
}

/// The changes that take a principal away from each of the words, in their
/// order.
pub open spec fn clear_ops(words: Seq<Seq<char>>, principal_id: u32) -> Seq<IndexOpView> {
    words.map_values(|w: Seq<char>| IndexOpView::Clear { word: encode_utf8(w), principal_id })
}

/// The words that a change of a principal adds to the index: those of the
/// new principal that the stored one does not have.
pub open spec fn added_words(current: Set<Seq<char>>, new: Set<Seq<char>>) -> Set<Seq<char>> {
    new.difference(current)
}

/// The words that a change of a principal takes out of the index: those of
/// the stored principal that the new one does not have.
pub open spec fn cleared_words(current: Set<Seq<char>>, new: Set<Seq<char>>) -> Set<Seq<char>> {
    current.difference(new)
}

/// What `build_search_index` adds to a batch: the principal is put under
/// each added word once, then taken away from each cleared word once. The
/// order among the added words, and among the cleared ones, is open.
pub open spec fn index_delta(
    ops: Seq<IndexOpView>,
    principal_id: u32,
    current: Set<Seq<char>>,
    new: Set<Seq<char>>,
) -> bool {
    exists|added: Seq<Seq<char>>, cleared: Seq<Seq<char>>|
        {
            &&& added.no_duplicates()
            &&& added.to_set() == added_words(current, new)
            &&& cleared.no_duplicates()
            &&& cleared.to_set() == cleared_words(current, new)
            &&& ops == #[trigger] add_ops(added, principal_id) + #[trigger] clear_ops(
                cleared,
                principal_id,
            )
        }
}

/// The words of an index after the changes for a principal that went from
/// the words `current` to the words `new`.
pub open spec fn apply_delta(
    index: Set<Seq<char>>,
    current: Set<Seq<char>>,
    new: Set<Seq<char>>,
) -> Set<Seq<char>> {
    index.union(added_words(current, new)).difference(cleared_words(current, new))
}

impl Principal {
    /// The texts whose words the principal is indexed under.
    pub fn index_texts(&self) -> (texts: Vec<String>)
        ensures
            strs(texts@) == index_texts(self@),
    {
        let mut texts: Vec<String> = Vec::new();
        texts.push(self.name.clone());
        if let Some(d) = &self.description {
            texts.push(d.clone());
        }
        let ghost head = strs(texts@);
        assert(head =~= seq![self@.name] + (match self@.description {
            Some(d) => seq![d],
            None => Seq::<Seq<char>>::empty(),
        }));
        let mut i: usize = 0;
        while i < self.emails.len()
            invariant
                i <= self.emails@.len(),
                strs(texts@) =~= head + strs(self.emails@).take(i as int),
            decreases self.emails@.len() - i,
        {
            let s = self.emails[i].clone();
            proof {
                lemma_strs_push(texts@, s);
            }
            texts.push(s);
            i += 1;
        }
        assert(strs(self.emails@).take(i as int) =~= strs(self.emails@));
        texts
    }
}

/// Adds to `batch` the changes of the index for a principal whose words
/// went from `current_words` to `new_words`. A word that both have leads to
/// no change. The words of a principal that is not stored yet, or is
/// removed, are none.
pub fn build_search_index(
    batch: &mut Vec<IndexOp>,
    principal_id: u32,
    current_words: &Vec<String>,
    new_words: &Vec<String>,
)
    ensures
        exists|ops: Seq<IndexOpView>|
            {
                &&& op_views(final(batch)@) == op_views(old(batch)@) + ops
                &&& #[trigger] index_delta(
                    ops,
                    principal_id,
                    strs(current_words@).to_set(),
                    strs(new_words@).to_set(),
                )
            },
{
    let mut current = word_set_new();
    word_set_extend(&mut current, clone_strings(current_words));
    let mut new = word_set_new();
    word_set_extend(&mut new, clone_strings(new_words));
    let ghost current_set = strs(current_words@).to_set();
    let ghost new_set = strs(new_words@).to_set();
    assert(words_of(current) =~= current_set);
    assert(words_of(new) =~= new_set);

    let added = word_set_difference(&new, &current);
    let cleared = word_set_difference(&current, &new);
    let ghost before = op_views(batch@);

    let mut i: usize = 0;
    while i < added.len()
        invariant
            i <= added@.len(),
            op_views(batch@) =~= before + add_ops(strs(added@), principal_id).take(i as int),
        decreases added@.len() - i,
    {
        let ghost ops = op_views(batch@);
        let op = IndexOp::Add { word: added[i].as_str().as_bytes_vec(), principal_id };
        batch.push(op);
        proof {
            let all = add_ops(strs(added@), principal_id);
            assert(op_views(batch@) =~= ops.push(op@));
            assert(all.take(i as int + 1) =~= all.take(i as int).push(all[i as int]));
        }
        i += 1;
    }
    let ghost middle = op_views(batch@);
    assert(middle =~= before + add_ops(strs(added@), principal_id));

    let mut j: usize = 0;
    while j < cleared.len()
        invariant
            j <= cleared@.len(),
            op_views(batch@) =~= middle + clear_ops(strs(cleared@), principal_id).take(j as int),
        decreases cleared@.len() - j,
    {
        let ghost ops = op_views(batch@);
        let op = IndexOp::Clear { word: cleared[j].as_str().as_bytes_vec(), principal_id };
        batch.push(op);
        proof {
            let all = clear_ops(strs(cleared@), principal_id);
            assert(op_views(batch@) =~= ops.push(op@));
            assert(all.take(j as int + 1) =~= all.take(j as int).push(all[j as int]));
        }
        j += 1;
    }
    proof {
        let ops = add_ops(strs(added@), principal_id) + clear_ops(strs(cleared@), principal_id);
        assert(op_views(batch@) =~= before + ops);
        assert(index_delta(ops, principal_id, current_set, new_set));
    }
}

/// The words that a change of a principal adds are those that the change
/// back takes out, and the other way round.
pub proof fn lemma_delta_mirrors(a: Set<Seq<char>>, b: Set<Seq<char>>)
    ensures
        added_words(a, b) == cleared_words(b, a),
        cleared_words(a, b) == added_words(b, a),
{
}

/// A change of a principal followed by the change back leaves the index as
/// it was, if the index was in step with the principal before: it held
/// the words that only the first state has, and none that only the second
/// has.
pub proof fn lemma_delta_round_trip(index: Set<Seq<char>>, a: Set<Seq<char>>, b: Set<Seq<char>>)
    requires
        a.difference(b).subset_of(index),
        b.difference(a).disjoint(index),
    ensures
        apply_delta(apply_delta(index, a, b), b, a) == index,
{
    assert(apply_delta(apply_delta(index, a, b), b, a) =~= index);
}

} // verus!
