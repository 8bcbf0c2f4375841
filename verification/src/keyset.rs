//! The set of keys that are held down.

use vstd::prelude::*;
use vstd::seq_lib::lemma_seq_contains_after_push;

verus! {

/// Number of keys that can be held down at once.
pub const KEY_SET_CAPACITY: usize = 32;

/// `heapless::Vec`, the vector of fixed capacity that holds the keys. Proofs
/// see nothing of its inside: what it holds is known through `stored_keys`.
#[verifier::external_type_specification]
#[verifier::external_body]
#[verifier::reject_recursive_types(T)]
pub struct ExHeaplessVec<T, const N: usize>(heapless::Vec<T, N>);

/// The items of a `heapless::Vec` of key identifiers, first pushed first.
pub uninterp spec fn stored_keys(v: heapless::Vec<u16, 32>) -> Seq<u16>;

/// The predicate that holds of every key but `key`.
pub open spec fn other_than(key: u16) -> spec_fn(u16) -> bool {
    |k: u16| k != key
}

/// Whether `key` is another key than `other`.
pub fn is_other_key(key: u16, other: u16) -> (differs: bool)
    ensures
        differs == (key != other),
{
    key != other
}

/// `heapless::Vec::new`: a vector without items.
#[verifier::external_body]
fn keys_new() -> (v: heapless::Vec<u16, 32>)
    ensures
        stored_keys(v) == Seq::<u16>::empty(),
{
    heapless::Vec::new()
}

/// `heapless::Vec::as_slice`: the items in the order in which they are stored.
#[verifier::external_body]
fn keys_as_slice(v: &heapless::Vec<u16, 32>) -> (items: &[u16])
    ensures
        items@ == stored_keys(*v),
{
    v.as_slice()
}

/// `heapless::Vec::push`: appends `key` and reports success while the vector
/// holds fewer items than its capacity of 32; once it is full, the call
/// reports failure and leaves the vector as it was. The call never panics.
#[verifier::external_body]
fn keys_push(v: &mut heapless::Vec<u16, 32>, key: u16) -> (pushed: bool)
    ensures
        pushed == (stored_keys(*old(v)).len() < 32),
        pushed ==> stored_keys(*final(v)) == stored_keys(*old(v)).push(key),
        !pushed ==> stored_keys(*final(v)) == stored_keys(*old(v)),
    no_unwind
{
    v.push(key).is_ok()
}

/// `heapless::Vec::retain` with a predicate that keeps every item but `key`:
/// the items that stay keep their order. The call never panics, as the
/// predicate does not.
#[verifier::external_body]
fn keys_retain_other(v: &mut heapless::Vec<u16, 32>, key: u16)
    ensures
        stored_keys(*final(v)) == stored_keys(*old(v)).filter(other_than(key)),
    no_unwind
{
    v.retain(|k| is_other_key(*k, key))
}

/// The keys that are held down, in the order in which they were pressed.
///
/// No key occurs twice, and at most `KEY_SET_CAPACITY` keys are held.
pub struct KeySet {
    keys: heapless::Vec<u16, 32>,
}

impl KeySet {
    #[verifier::type_invariant]
    spec fn distinct_and_bounded(self) -> bool {
        &&& stored_keys(self.keys).no_duplicates()
        &&& stored_keys(self.keys).len() <= KEY_SET_CAPACITY
    }

    /// The held keys, first pressed first.
    pub closed spec fn view(&self) -> Seq<u16> {
        stored_keys(self.keys)
    }

    /// The set without keys.
    pub fn new() -> (set: Self)
        ensures
            set@ == Seq::<u16>::empty(),
    {
        KeySet { keys: keys_new() }
    }

    /// The held keys as a slice, first pressed first.
    pub fn as_slice(&self) -> (keys: &[u16])
        ensures
            keys@ == self@,
            keys@.no_duplicates(),
            keys@.len() <= KEY_SET_CAPACITY,
    {
        proof {
            use_type_invariant(self);
        }
        keys_as_slice(&self.keys)
    }

    /// Number of held keys.
    pub fn len(&self) -> (n: usize)
        ensures
            n == self@.len(),
            n <= KEY_SET_CAPACITY,
    {
        self.as_slice().len()
    }

    /// Whether `key` is held.
    pub fn contains(&self, key: u16) -> (held: bool)
        ensures
            held == self@.contains(key),
    {
        let keys = self.as_slice();
        let mut i: usize = 0;
        while i < keys.len()
            invariant
                keys@ == self@,
                i <= keys@.len(),
                forall|j: int| 0 <= j < i ==> keys@[j] != key,
            decreases keys@.len() - i,
        {
            if keys[i] == key {
                assert(self@[i as int] == key);
                return true;
            }
            i = i + 1;
        }
        false
    }

    /// Records that `key` went down.
    ///
    /// A key that is already held stays where it is, and a key for which the
    /// set has no room is dropped.
    pub fn press(&mut self, key: u16)
        ensures
            final(self)@ == pressed(old(self)@, key),
    {
        proof {
            use_type_invariant(&*self);
        }
        if !self.contains(key) {
            let _ = keys_push(&mut self.keys, key);
        }
    }

    /// Records that `key` went up. A key that is not held changes nothing.
    pub fn release(&mut self, key: u16)
        ensures
            final(self)@ == released(old(self)@, key),
    {
        proof {
            use_type_invariant(&*self);
            lemma_released(self@, key);
        }
        keys_retain_other(&mut self.keys, key);
    }
}

/// The held keys after `key` went down.
pub open spec fn pressed(keys: Seq<u16>, key: u16) -> Seq<u16> {
    if keys.contains(key) || keys.len() >= KEY_SET_CAPACITY {
        keys
    } else {
        keys.push(key)
    }
}

/// The held keys after `key` went up.
pub open spec fn released(keys: Seq<u16>, key: u16) -> Seq<u16> {
    keys.filter(other_than(key))
}

/// Releasing a key takes exactly that key out of a set without duplicates
/// and leaves a set without duplicates.
pub proof fn lemma_released(keys: Seq<u16>, key: u16)
    requires
        keys.no_duplicates(),
    ensures
        released(keys, key).no_duplicates(),
        released(keys, key).len() <= keys.len(),
        forall|k: u16| released(keys, key).contains(k) <==> keys.contains(k) && k != key,
    decreases keys.len(),
{
    reveal(Seq::filter);
    if keys.len() > 0 {
        let front = keys.drop_last();
        let last = keys.last();
        lemma_released(front, key);
        let kept = released(front, key);
        assert(keys =~= front.push(last));
        assert(!front.contains(last)) by {
            if front.contains(last) {
                let i = front.index_of(last);
                assert(keys[i] == keys[keys.len() - 1]);
            }
        }
        assert forall|k: u16| keys.contains(k) <==> front.contains(k) || k == last by {
            lemma_seq_contains_after_push(front, last, k);
        }
        if last != key {
            assert forall|k: u16| kept.push(last).contains(k) <==> kept.contains(k) || k
                == last by {
                lemma_seq_contains_after_push(kept, last, k);
            }
        }
    }
}

/// Pressing a key adds exactly that key, if there is room for it, and leaves
/// a set without duplicates that is within the capacity.
pub proof fn lemma_pressed(keys: Seq<u16>, key: u16)
    requires
        keys.no_duplicates(),
        keys.len() <= KEY_SET_CAPACITY,
    ensures
        pressed(keys, key).no_duplicates(),
        pressed(keys, key).len() <= KEY_SET_CAPACITY,
        forall|k: u16|
            pressed(keys, key).contains(k) <==> keys.contains(k) || (k == key && keys.len()
                < KEY_SET_CAPACITY),
{
    if !keys.contains(key) && keys.len() < KEY_SET_CAPACITY {
        assert forall|k: u16| keys.push(key).contains(k) <==> keys.contains(k) || k == key by {
            lemma_seq_contains_after_push(keys, key, k);
        }
    }
}

/// Pressing a key that is held changes nothing, so pressing a key twice is
/// the same as pressing it once, and the number of held keys stays.
pub proof fn law_press_is_idempotent(keys: Seq<u16>, key: u16)
    ensures
        keys.contains(key) ==> pressed(keys, key) == keys,
        pressed(pressed(keys, key), key) == pressed(keys, key),
        pressed(pressed(keys, key), key).len() == pressed(keys, key).len(),
{
    lemma_seq_contains_after_push(keys, key, key);
}

/// Releasing a key that is not held changes nothing.
pub proof fn law_release_of_absent_key(keys: Seq<u16>, key: u16)
    requires
        !keys.contains(key),
    ensures
        released(keys, key) == keys,
    decreases keys.len(),
{
    reveal(Seq::filter);
    if keys.len() > 0 {
        let front = keys.drop_last();
        assert(keys =~= front.push(keys.last()));
        lemma_seq_contains_after_push(front, keys.last(), key);
        law_release_of_absent_key(front, key);
    }
    assert(released(keys, key) =~= keys);
}

} // verus!
