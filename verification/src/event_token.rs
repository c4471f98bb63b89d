use mio::Token;
use vstd::prelude::*;

verus! {

#[verifier::external_type_specification]
#[verifier::external_body]
pub struct ExToken(Token);

/// The token that `mio` builds from an index (`Token(index)`).
pub uninterp spec fn mio_token(index: usize) -> Token;

/// The index that `usize::from` reads back out of a token (mio's
/// `impl From<Token> for usize` returns the token's field `.0`).
pub uninterp spec fn token_index(t: Token) -> usize;

/// Calls `mio::Token(index)`. The contract says that the token is the one
/// built from `index` and that `usize::from` gives `index` back from it,
/// as `Token(pub usize)` and mio's `From<Token> for usize` show.
#[verifier::external_body]
fn token_from_index(index: usize) -> (t: Token)
    ensures
        t == mio_token(index),
        token_index(t) == index,
{
    Token(index)
}

/// Hands out the tokens by which event sources are registered with the
/// reactor: each from the next index, counting up from zero and wrapping
/// around at the end of `usize`.
pub struct EventToken {
    current: usize,
}

/// The index after `i`, wrapping around.
pub open spec fn next_index(i: usize) -> usize {
    if i == usize::MAX {
        0
    } else {
        (i + 1) as usize
    }
}

impl View for EventToken {
    type V = usize;

    /// The index of the next token.
    closed spec fn view(&self) -> usize {
        self.current
    }
}

impl EventToken {
    /// A generator whose first token is built from index 0.
    pub fn new() -> (g: EventToken)
        ensures
            g@ == 0,
    {
        EventToken { current: 0 }
    }

    /// The token from the current index; the index moves on by one.
    pub fn next(&mut self) -> (t: Token)
        ensures
            t == mio_token(old(self)@),
            token_index(t) == old(self)@,
            final(self)@ == next_index(old(self)@),
    {
        let index = self.current;
        self.current = if self.current == usize::MAX {
            0
        } else {
            self.current + 1
        };
        token_from_index(index)
    }
}

/// The index that a generator at index `i` reaches after handing out `k`
/// tokens.
pub open spec fn index_after(i: usize, k: nat) -> usize
    decreases k,
{
    if k == 0 {
        i
    } else {
        next_index(index_after(i, (k - 1) as nat))
    }
}

/// After `k` tokens a generator at index `i` is at index `i + k`, modulo the
/// size of `usize`.
pub proof fn lemma_index_after(i: usize, k: nat)
    requires
        k <= usize::MAX,
    ensures
        index_after(i, k) as int == (i + k) % (usize::MAX as int + 1),
    decreases k,
{
    if k > 0 {
        lemma_index_after(i, (k - 1) as nat);
        let m = usize::MAX as int + 1;
        let prev = (i + k - 1) % m;
        assert(index_after(i, (k - 1) as nat) as int == prev);
        vstd::arithmetic::div_mod::lemma_add_mod_noop(i + k - 1, 1, m);
        vstd::arithmetic::div_mod::lemma_mod_self_0(m);
        vstd::arithmetic::div_mod::lemma_small_mod(1, m as nat);
        if prev != usize::MAX {
            vstd::arithmetic::div_mod::lemma_small_mod((prev + 1) as nat, m as nat);
        }
    } else {
        vstd::arithmetic::div_mod::lemma_small_mod(i as nat, usize::MAX as nat + 1);
    }
}

/// No two of the first `usize::MAX + 1` tokens that a generator hands out
/// are built from the same index.
pub proof fn lemma_token_indices_distinct(i: usize, j: nat, k: nat)
    requires
        j < k <= usize::MAX,
    ensures
        index_after(i, j) != index_after(i, k),
{
    let m = usize::MAX as int + 1;
    lemma_index_after(i, j);
    lemma_index_after(i, k);
    vstd::arithmetic::div_mod::lemma_mod_equivalence(i + k, i + j, m);
    vstd::arithmetic::div_mod::lemma_small_mod((k - j) as nat, m as nat);
}

/// Tokens that read back different indices are different tokens; with
/// `lemma_token_indices_distinct` and the contract of `EventToken::next`, no
/// two of the first `usize::MAX + 1` tokens of a generator are equal.
pub proof fn lemma_tokens_from_distinct_indices_differ(t1: Token, t2: Token)
    requires
        token_index(t1) != token_index(t2),
    ensures
        t1 != t2,
{
}

} // verus!
