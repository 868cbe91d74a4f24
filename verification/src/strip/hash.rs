//! Metadata-blind hashing.

use vstd::prelude::*;
use vstd::string::*;

use crate::meta::Meta;
use crate::strip::partial_eq::StrippedPartialEq;
use crate::strip::Stripped;

verus! {

/// Multiplier of the word-mixing step.
pub const HASH_PRIME: u64 = 0x100000001b3;

/// Initial state of the word-stream hasher.
pub const HASH_SEED: u64 = 0xcbf29ce484222325;

/// Mixes one word into a running hash state, Fowler–Noll–Vo style.
pub open spec fn spec_mix(state: u64, w: u64) -> u64 {
    vstd::wrapping::u64_specs::wrapping_mul(state ^ w, HASH_PRIME)
}

/// The hash of a whole word stream: the seed with every word mixed in, in
/// order.
pub open spec fn spec_hash_of(ws: Seq<u64>) -> u64
    decreases ws.len(),
{
    if ws.len() == 0 {
        HASH_SEED
    } else {
        spec_mix(spec_hash_of(ws.drop_last()), ws.last())
    }
}

/// Word-stream hasher used by [`StrippedHash`].
///
/// The hasher absorbs a stream of words; its final value is a function of
/// that stream alone, so two values contributing equal streams hash
/// identically.
pub struct StripHasher {
    state: u64,
    words: Ghost<Seq<u64>>,
}

impl StripHasher {
    /// The stream of words absorbed so far.
    pub closed spec fn words(self) -> Seq<u64> {
        self.words@
    }

    /// The hasher state faithfully reflects the absorbed stream.
    pub closed spec fn wf(self) -> bool {
        self.state == spec_hash_of(self.words@)
    }

    /// Creates a hasher that has absorbed nothing.
    pub fn new() -> (h: StripHasher)
        ensures
            h.wf(),
            h.words() == Seq::<u64>::empty(),
    {
        StripHasher { state: HASH_SEED, words: Ghost(Seq::empty()) }
    }

    /// Absorbs one word.
    pub fn write_u64(&mut self, w: u64)
        requires
            old(self).wf(),
        ensures
            final(self).wf(),
            final(self).words() == old(self).words().push(w),
    {
        self.state = (self.state ^ w).wrapping_mul(HASH_PRIME);
        proof {
            self.words@ = self.words@.push(w);
            assert(self.words@.drop_last() =~= old(self).words@);
            assert(self.words@.last() == w);
        }
    }

    /// The hash of everything absorbed so far: a function of the word
    /// stream alone.
    pub fn finish(&self) -> (r: u64)
        requires
            self.wf(),
        ensures
            r == spec_hash_of(self.words()),
    {
        self.state
    }
}

/// Defines the hash of values without considering metadata.
///
/// Every implementation states the stream of words it feeds to the hasher
/// and carries the consistency law: stripped-equal values feed identical
/// streams, so they hash identically.
pub trait StrippedHash: StrippedPartialEq<Self> + Sized {
    /// The stream of words this value contributes to a hasher.
    spec fn stripped_hash_words(&self) -> Seq<u64>;

    /// Feeds the value, metadata ignored, to the hasher.
    fn stripped_hash(&self, state: &mut StripHasher)
        requires
            old(state).wf(),
        ensures
            final(state).wf(),
            final(state).words() == old(state).words() + self.stripped_hash_words(),
    ;

    /// Hashing is consistent with stripped equality: stripped-equal values
    /// contribute identical word streams.
    proof fn stripped_hash_consistency(&self, other: &Self)
        requires
            self.stripped_eq_spec(other),
        ensures
            self.stripped_hash_words() == other.stripped_hash_words(),
    ;
}

impl<T: StrippedHash> StrippedHash for Stripped<T> {
    open spec fn stripped_hash_words(&self) -> Seq<u64> {
        self.0.stripped_hash_words()
    }

    fn stripped_hash(&self, state: &mut StripHasher) {
        self.0.stripped_hash(state);
    }

    proof fn stripped_hash_consistency(&self, other: &Stripped<T>) {
        self.0.stripped_hash_consistency(&other.0);
    }
}

impl<'t, T: StrippedHash> StrippedHash for &'t T {
    open spec fn stripped_hash_words(&self) -> Seq<u64> {
        T::stripped_hash_words(*self)
    }

    fn stripped_hash(&self, state: &mut StripHasher) {
        T::stripped_hash(*self, state);
    }

    proof fn stripped_hash_consistency(&self, other: &&'t T) {
        T::stripped_hash_consistency(*self, *other);
    }
}

impl<T: StrippedHash, M> StrippedHash for Meta<T, M> {
    open spec fn stripped_hash_words(&self) -> Seq<u64> {
        self.0.stripped_hash_words()
    }

    fn stripped_hash(&self, state: &mut StripHasher) {
        self.value().stripped_hash(state);
    }

    proof fn stripped_hash_consistency(&self, other: &Meta<T, M>) {
        self.0.stripped_hash_consistency(&other.0);
    }
}

impl<T: StrippedHash> StrippedHash for Box<T> {
    open spec fn stripped_hash_words(&self) -> Seq<u64> {
        (**self).stripped_hash_words()
    }

    fn stripped_hash(&self, state: &mut StripHasher) {
        (**self).stripped_hash(state);
    }

    proof fn stripped_hash_consistency(&self, other: &Box<T>) {
        (**self).stripped_hash_consistency(&**other);
    }
}

impl<T: StrippedHash> StrippedHash for Option<T> {
    /// An absent value and a present one feed distinct discriminant words,
    /// so they cannot collide by construction.
    open spec fn stripped_hash_words(&self) -> Seq<u64> {
        match self {
            None => seq![0u64],
            Some(t) => seq![0xffu64] + t.stripped_hash_words(),
        }
    }

    fn stripped_hash(&self, state: &mut StripHasher) {
        match self {
            None => {
                state.write_u64(0x00);
                proof {
                    assert(state.words() =~= old(state).words() + seq![0u64]);
                }
            },
            Some(t) => {
                state.write_u64(0xff);
                t.stripped_hash(state);
                proof {
                    assert(state.words() =~= old(state).words() + (seq![0xffu64]
                        + t.stripped_hash_words()));
                }
            },
        }
    }

    proof fn stripped_hash_consistency(&self, other: &Option<T>) {
        match (self, other) {
            (Some(a), Some(b)) => a.stripped_hash_consistency(b),
            _ => (),
        }
    }
}

/// The concatenated word streams of a sequence of values, first to last.
pub open spec fn seq_hash_words<T: StrippedHash>(s: Seq<T>) -> Seq<u64>
    decreases s.len(),
{
    if s.len() == 0 {
        Seq::empty()
    } else {
        s[0].stripped_hash_words() + seq_hash_words(s.skip(1))
    }
}

/// Appending one value to a sequence appends its words to the sequence's
/// stream.
pub proof fn lemma_seq_hash_words_push<T: StrippedHash>(s: Seq<T>, x: T)
    ensures
        seq_hash_words(s.push(x)) == seq_hash_words(s) + x.stripped_hash_words(),
    decreases s.len(),
{
    if s.len() == 0 {
        let p = s.push(x);
        assert(p[0] == x);
        assert(p.skip(1) =~= Seq::<T>::empty());
        assert(seq_hash_words(p.skip(1)) =~= Seq::<u64>::empty());
        assert(seq_hash_words(p) =~= x.stripped_hash_words() + Seq::<u64>::empty());
        assert(seq_hash_words(p) =~= x.stripped_hash_words());
        assert(seq_hash_words(s) =~= Seq::<u64>::empty());
        assert(seq_hash_words(s) + x.stripped_hash_words() =~= x.stripped_hash_words());
    } else {
        assert(s.push(x)[0] == s[0]);
        assert(s.push(x).skip(1) =~= s.skip(1).push(x));
        lemma_seq_hash_words_push(s.skip(1), x);
        assert(seq_hash_words(s.push(x)) =~= seq_hash_words(s) + x.stripped_hash_words());
    }
}

/// Element-wise stripped-equal sequences of equal length have equal word
/// streams.
pub proof fn lemma_seq_hash_words_congruence<T: StrippedHash>(a: Seq<T>, b: Seq<T>)
    requires
        a.len() == b.len(),
        forall|i: int| 0 <= i < a.len() ==> #[trigger] a[i].stripped_eq_spec(&b[i]),
    ensures
        seq_hash_words(a) == seq_hash_words(b),
    decreases a.len(),
{
    if a.len() > 0 {
        a[0].stripped_hash_consistency(&b[0]);
        assert forall|i: int| 0 <= i < a.skip(1).len() implies #[trigger] a.skip(
            1,
        )[i].stripped_eq_spec(&b.skip(1)[i]) by {
            assert(a.skip(1)[i] == a[i + 1]);
            assert(b.skip(1)[i] == b[i + 1]);
        }
        lemma_seq_hash_words_congruence(a.skip(1), b.skip(1));
    }
}

impl<T: StrippedHash> StrippedHash for Vec<T> {
    /// A discriminant word, then every element's stream, first to last.
    open spec fn stripped_hash_words(&self) -> Seq<u64> {
        seq![0xffu64] + seq_hash_words(self@)
    }

    fn stripped_hash(&self, state: &mut StripHasher) {
        state.write_u64(0xff);
        let mut i: usize = 0;
        proof {
            assert(self@.take(0) =~= Seq::<T>::empty());
            assert(state.words() =~= old(state).words() + seq![0xffu64] + seq_hash_words(
                self@.take(0),
            ));
        }
        while i < self.len()
            invariant
                i <= self@.len(),
                state.wf(),
                state.words() == old(state).words() + seq![0xffu64] + seq_hash_words(
                    self@.take(i as int),
                ),
            decreases self@.len() - i,
        {
            self[i].stripped_hash(state);
            proof {
                assert(self@.take(i as int).push(self@[i as int]) =~= self@.take(i as int + 1));
                lemma_seq_hash_words_push(self@.take(i as int), self@[i as int]);
            }
            i = i + 1;
        }
        proof {
            assert(self@.take(self@.len() as int) =~= self@);
            assert(state.words() =~= old(state).words() + (seq![0xffu64] + seq_hash_words(
                self@,
            )));
        }
    }

    proof fn stripped_hash_consistency(&self, other: &Vec<T>) {
        lemma_seq_hash_words_congruence(self@, other@);
    }
}

impl StrippedHash for bool {
    open spec fn stripped_hash_words(&self) -> Seq<u64> {
        seq![
            if *self {
                1u64
            } else {
                0u64
            },
        ]
    }

    fn stripped_hash(&self, state: &mut StripHasher) {
        if *self {
            state.write_u64(1);
        } else {
            state.write_u64(0);
        }
        proof {
            assert(state.words() =~= old(state).words() + self.stripped_hash_words());
        }
    }

    proof fn stripped_hash_consistency(&self, other: &bool) {
    }
}

impl StrippedHash for u32 {
    open spec fn stripped_hash_words(&self) -> Seq<u64> {
        seq![*self as u64]
    }

    fn stripped_hash(&self, state: &mut StripHasher) {
        state.write_u64(*self as u64);
        proof {
            assert(state.words() =~= old(state).words() + self.stripped_hash_words());
        }
    }

    proof fn stripped_hash_consistency(&self, other: &u32) {
    }
}

impl StrippedHash for u64 {
    open spec fn stripped_hash_words(&self) -> Seq<u64> {
        seq![*self]
    }

    fn stripped_hash(&self, state: &mut StripHasher) {
        state.write_u64(*self);
        proof {
            assert(state.words() =~= old(state).words() + self.stripped_hash_words());
        }
    }

    proof fn stripped_hash_consistency(&self, other: &u64) {
    }
}

impl StrippedHash for usize {
    open spec fn stripped_hash_words(&self) -> Seq<u64> {
        seq![*self as u64]
    }

    fn stripped_hash(&self, state: &mut StripHasher) {
        state.write_u64(*self as u64);
        proof {
            assert(state.words() =~= old(state).words() + self.stripped_hash_words());
        }
    }

    proof fn stripped_hash_consistency(&self, other: &usize) {
    }
}

/// The word a single character contributes to a hash stream.
pub open spec fn char_word(c: char) -> u64 {
    c as u64
}

impl StrippedHash for String {
    /// A discriminant word, then one word per character, first to last.
    open spec fn stripped_hash_words(&self) -> Seq<u64> {
        seq![0xffu64] + self@.map_values(|c: char| char_word(c))
    }

    fn stripped_hash(&self, state: &mut StripHasher) {
        state.write_u64(0xff);
        let n = self.as_str().unicode_len();
        let mut i: usize = 0;
        proof {
            assert(self@.take(0).map_values(|c: char| char_word(c)) =~= Seq::<u64>::empty());
            assert(state.words() =~= old(state).words() + seq![0xffu64] + self@.take(
                0,
            ).map_values(|c: char| char_word(c)));
        }
        while i < n
            invariant
                n == self@.len(),
                i <= n,
                state.wf(),
                state.words() == old(state).words() + seq![0xffu64] + self@.take(
                    i as int,
                ).map_values(|c: char| char_word(c)),
            decreases n - i,
        {
            let c = self.as_str().get_char(i);
            state.write_u64(c as u64);
            proof {
                assert(self@.take(i as int + 1) =~= self@.take(i as int).push(self@[i as int]));
                assert(self@.take(i as int + 1).map_values(|c: char| char_word(c)) =~= self@.take(
                    i as int,
                ).map_values(|c: char| char_word(c)).push(char_word(self@[i as int])));
            }
            i = i + 1;
        }
        proof {
            assert(self@.take(self@.len() as int) =~= self@);
            assert(state.words() =~= old(state).words() + (seq![0xffu64] + self@.map_values(
                |c: char| char_word(c),
            )));
        }
    }

    proof fn stripped_hash_consistency(&self, other: &String) {
    }
}

impl StrippedHash for char {
    open spec fn stripped_hash_words(&self) -> Seq<u64> {
        seq![*self as u64]
    }

    fn stripped_hash(&self, state: &mut StripHasher) {
        state.write_u64(*self as u64);
        proof {
            assert(state.words() =~= old(state).words() + self.stripped_hash_words());
        }
    }

    proof fn stripped_hash_consistency(&self, other: &char) {
    }
}

} // verus!
