//! Deterministic structural content hashing.
//!
//! A precondition token asserts the expected prior value of a field before a
//! conditional change is honored. The token is computed once by a reader and
//! compared later by a writer that may run in a different process, so the
//! hash must be a stable function of the logical value alone: a value
//! flattens to a canonical stream of integer tokens over all of its
//! sub-fields, and the stream is folded with the 64-bit FNV-1a step.

use vstd::prelude::*;

use crate::text::dec_digits;

verus! {

/// Seed of the content hash (the 64-bit FNV-1a offset basis).
pub const HASH_SEED: u64 = 0xcbf29ce484222325;

/// Multiplier of the content hash (the 64-bit FNV-1a prime).
pub const HASH_PRIME: u64 = 0x100000001b3;

/// One mixing step of the content hash.
pub open spec fn mix(h: u64, t: u64) -> u64 {
    vstd::wrapping::u64_specs::wrapping_mul(h ^ t, HASH_PRIME)
}

/// The content hash of a token stream: a left fold of `mix` from the seed.
pub open spec fn fold_tokens(ts: Seq<u64>) -> u64
    decreases ts.len(),
{
    if ts.len() == 0 {
        HASH_SEED
    } else {
        mix(fold_tokens(ts.drop_last()), ts.last())
    }
}

/// A value that can be content-hashed: it flattens to a canonical stream of
/// integer tokens covering all of its sub-fields.
pub trait ContentHash: Sized {
    /// The canonical token stream of the value.
    spec fn tokens(&self) -> Seq<u64>;

    /// Append the token stream of `self` to `out`.
    fn append_tokens(&self, out: &mut Vec<u64>)
        ensures
            final(out)@ == old(out)@ + self.tokens(),
    ;
}

/// The precondition token of a value: the decimal rendering of its content
/// hash.
pub open spec fn token_of<S: ContentHash>(v: S) -> Seq<char> {
    dec_digits(fold_tokens(v.tokens()) as nat)
}

/// Fold a collected token stream into the 64-bit content hash.
pub fn hash_tokens(ts: &Vec<u64>) -> (h: u64)
    ensures
        h == fold_tokens(ts@),
{
    let mut h: u64 = HASH_SEED;
    let mut i: usize = 0;
    proof {
        assert(ts@.take(0) =~= Seq::<u64>::empty());
    }
    while i < ts.len()
        invariant
            i <= ts@.len(),
            h == fold_tokens(ts@.take(i as int)),
        decreases ts@.len() - i,
    {
        let t = ts[i];
        h = (h ^ t).wrapping_mul(HASH_PRIME);
        proof {
            assert(ts@.take(i as int + 1).drop_last() =~= ts@.take(i as int));
            assert(ts@.take(i as int + 1).last() == ts@[i as int]);
        }
        i += 1;
    }
    proof {
        assert(ts@.take(ts@.len() as int) =~= ts@);
    }
    h
}

/// The precondition token of `v`, as an owned string.
pub fn hash_token<S: ContentHash>(v: &S) -> (r: String)
    ensures
        r@ == token_of(*v),
{
    let mut ts: Vec<u64> = Vec::new();
    v.append_tokens(&mut ts);
    proof {
        assert(ts@ =~= v.tokens());
    }
    let h = hash_tokens(&ts);
    crate::text::u64_to_dec(h)
}

/// A field value together with its precondition token, handed out so that
/// a later conditional mutation can assert this exact prior state.
pub struct WithHash<T> {
    pub value: T,
    pub hash: String,
}

/// The precondition token of an optional field's content; an absent value
/// hashes to the bare seed.
pub open spec fn opt_token_or_seed<T: ContentHash>(v: Option<T>) -> Seq<char> {
    match v {
        Some(x) => token_of(x),
        None => dec_digits(HASH_SEED as nat),
    }
}

/// Hand out an optional scalar field's value with its precondition token.
pub fn opt_with_hash<T: ContentHash + crate::atoms::DupValue>(v: &Option<T>) -> (r: WithHash<
    Option<T>,
>)
    ensures
        r.value == *v,
        r.hash@ == opt_token_or_seed(*v),
{
    WithHash {
        value: crate::delta::dup_opt(v),
        hash: (match v {
            Some(x) => hash_token(x),
            None => crate::text::u64_to_dec(HASH_SEED),
        }),
    }
}

/// Hand out an array field's content with its precondition token.
pub fn vec_with_hash<T: ContentHash + crate::atoms::DupValue>(v: &Vec<T>) -> (r: WithHash<Vec<T>>)
    ensures
        r.value@ == v@,
        r.hash@ == token_of(*v),
{
    WithHash { value: crate::delta::dup_vec(v), hash: hash_token(v) }
}

/// The tokens of a character sequence, one token per character.
pub open spec fn char_tokens(s: Seq<char>) -> Seq<u64>
    decreases s.len(),
{
    if s.len() == 0 {
        Seq::empty()
    } else {
        char_tokens(s.drop_last()).push(s.last() as u64)
    }
}

impl ContentHash for String {
    open spec fn tokens(&self) -> Seq<u64> {
        seq![self@.len() as u64] + char_tokens(self@)
    }

    fn append_tokens(&self, out: &mut Vec<u64>) {
        let s = self.as_str();
        let len = s.unicode_len();
        out.push(len as u64);
        proof {
            assert(self@.take(0) =~= Seq::<char>::empty());
            assert(out@ =~= old(out)@ + seq![len as u64] + char_tokens(self@.take(0)));
        }
        let mut i: usize = 0;
        while i < len
            invariant
                len == self@.len(),
                s@ == self@,
                i <= len,
                out@ == old(out)@ + seq![len as u64] + char_tokens(self@.take(i as int)),
            decreases len - i,
        {
            let c = s.get_char(i);
            out.push(c as u64);
            proof {
                assert(self@.take(i as int + 1).drop_last() =~= self@.take(i as int));
                assert(self@.take(i as int + 1).last() == self@[i as int]);
                assert(out@ =~= old(out)@ + seq![len as u64] + char_tokens(
                    self@.take(i as int + 1),
                ));
            }
            i += 1;
        }
        proof {
            assert(self@.take(len as int) =~= self@);
            assert(out@ =~= old(out)@ + self.tokens());
        }
    }
}

impl ContentHash for u32 {
    open spec fn tokens(&self) -> Seq<u64> {
        seq![*self as u64]
    }

    fn append_tokens(&self, out: &mut Vec<u64>) {
        out.push(*self as u64);
        proof {
            assert(out@ =~= old(out)@ + self.tokens());
        }
    }
}

impl ContentHash for u64 {
    open spec fn tokens(&self) -> Seq<u64> {
        seq![*self]
    }

    fn append_tokens(&self, out: &mut Vec<u64>) {
        out.push(*self);
        proof {
            assert(out@ =~= old(out)@ + self.tokens());
        }
    }
}

impl ContentHash for bool {
    open spec fn tokens(&self) -> Seq<u64> {
        seq![if *self { 1u64 } else { 0u64 }]
    }

    fn append_tokens(&self, out: &mut Vec<u64>) {
        if *self {
            out.push(1);
        } else {
            out.push(0);
        }
        proof {
            assert(out@ =~= old(out)@ + self.tokens());
        }
    }
}

/// The concatenated tokens of a sequence of values.
pub open spec fn seq_tokens<T: ContentHash>(s: Seq<T>) -> Seq<u64>
    decreases s.len(),
{
    if s.len() == 0 {
        Seq::empty()
    } else {
        seq_tokens(s.drop_last()) + s.last().tokens()
    }
}

impl<T: ContentHash> ContentHash for Vec<T> {
    open spec fn tokens(&self) -> Seq<u64> {
        seq![self@.len() as u64] + seq_tokens(self@)
    }

    fn append_tokens(&self, out: &mut Vec<u64>) {
        let len = self.len();
        out.push(len as u64);
        proof {
            assert(self@.take(0) =~= Seq::<T>::empty());
            assert(out@ =~= old(out)@ + seq![len as u64] + seq_tokens(self@.take(0)));
        }
        let mut i: usize = 0;
        while i < len
            invariant
                len == self@.len(),
                i <= len,
                out@ == old(out)@ + seq![len as u64] + seq_tokens(self@.take(i as int)),
            decreases len - i,
        {
            let x = &self[i];
            x.append_tokens(out);
            proof {
                assert(self@.take(i as int + 1).drop_last() =~= self@.take(i as int));
                assert(self@.take(i as int + 1).last() == self@[i as int]);
                assert(out@ =~= old(out)@ + seq![len as u64] + seq_tokens(
                    self@.take(i as int + 1),
                ));
            }
            i += 1;
        }
        proof {
            assert(self@.take(len as int) =~= self@);
            assert(out@ =~= old(out)@ + self.tokens());
        }
    }
}

impl<T: ContentHash> ContentHash for Option<T> {
    open spec fn tokens(&self) -> Seq<u64> {
        match *self {
            Option::None => seq![0u64],
            Option::Some(v) => seq![1u64] + v.tokens(),
        }
    }

    fn append_tokens(&self, out: &mut Vec<u64>) {
        match self {
            Option::None => {
                out.push(0);
                proof {
                    assert(out@ =~= old(out)@ + self.tokens());
                }
            },
            Option::Some(v) => {
                out.push(1);
                v.append_tokens(out);
                proof {
                    assert(out@ =~= old(out)@ + self.tokens());
                }
            },
        }
    }
}

} // verus!
