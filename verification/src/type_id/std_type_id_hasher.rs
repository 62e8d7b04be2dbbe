//! A SipHash 2-4 hasher with a 128-bit result, for type identifiers.
//!
//! The hasher is a stream: what it returns depends on the bytes it was
//! given and on its two keys, not on how the bytes were cut into writes.
use vstd::prelude::*;

verus! {

/// The four words of the hasher's internal state.
#[derive(Debug, Clone, Copy)]
pub struct State {
    pub v0: u64,
    pub v1: u64,
    pub v2: u64,
    pub v3: u64,
}

/// `x` rotated to the left by `n` bits, for `0 < n < 64`.
pub open spec fn rotate_left(x: u64, n: u64) -> u64 {
    (x << n) | (x >> ((64 - n) as u64))
}

/// The sum of `x` and `y` modulo 2^64.
pub open spec fn wrapping_sum(x: u64, y: u64) -> u64 {
    vstd::wrapping::u64_specs::wrapping_add(x, y)
}

/// The number that `bytes` spell, least significant byte first. It is
/// meant for at most eight bytes.
#[verifier::opaque]
pub open spec fn le_word(bytes: Seq<u8>) -> u64
    decreases bytes.len(),
{
    if bytes.len() == 0 {
        0
    } else {
        le_word(bytes.drop_last()) | ((bytes.last() as u64) << ((8 * (bytes.len() - 1)) as u64))
    }
}

fn rotl(x: u64, n: u32) -> (r: u64)
    requires
        0 < n < 64,
    ensures
        r == rotate_left(x, n as u64),
{
    (x << n) | (x >> (64 - n))
}

/// The smaller of `a` and `b`.
pub fn min(a: usize, b: usize) -> (m: usize)
    ensures
        m == if a < b {
            a
        } else {
            b
        },
{
    if a < b {
        a
    } else {
        b
    }
}

impl State {
    /// The state of a hasher with the keys `k0` and `k1` that was given
    /// nothing yet.
    pub open spec fn initial(k0: u64, k1: u64) -> State {
        State {
            v0: k0 ^ 0x736f6d6570736575,
            v1: k1 ^ 0x646f72616e646f83,
            v2: k0 ^ 0x6c7967656e657261,
            v3: k1 ^ 0x7465646279746573,
        }
    }

    /// One round of the SipHash permutation.
    #[verifier::opaque]
    pub open spec fn round(self) -> State {
        let v0 = wrapping_sum(self.v0, self.v1);
        let v1 = rotate_left(self.v1, 13) ^ v0;
        let v0 = rotate_left(v0, 32);
        let v2 = wrapping_sum(self.v2, self.v3);
        let v3 = rotate_left(self.v3, 16) ^ v2;
        let v0 = wrapping_sum(v0, v3);
        let v3 = rotate_left(v3, 21) ^ v0;
        let v2 = wrapping_sum(v2, v1);
        let v1 = rotate_left(v1, 17) ^ v2;
        let v2 = rotate_left(v2, 32);
        State { v0, v1, v2, v3 }
    }

    /// The two rounds that follow each word of input.
    pub open spec fn compression(self) -> State {
        self.round().round()
    }

    /// The four rounds that end the hash.
    pub open spec fn finalization(self) -> State {
        self.round().round().round().round()
    }

    /// The state after the eight-byte word `word` was taken in.
    pub open spec fn absorb(self, word: u64) -> State {
        let mixed = State { v3: self.v3 ^ word, ..self }.compression();
        State { v0: mixed.v0 ^ word, ..mixed }
    }

    pub fn new(k0: u64, k1: u64) -> (state: State)
        ensures
            state == State::initial(k0, k1),
    {
        State {
            v0: k0 ^ 0x736f6d6570736575,
            v1: k1 ^ 0x646f72616e646f83,
            v2: k0 ^ 0x6c7967656e657261,
            v3: k1 ^ 0x7465646279746573,
        }
    }

    fn compress(self) -> (state: State)
        ensures
            state == self.round(),
    {
        reveal(State::round);
        let v0 = self.v0.wrapping_add(self.v1);
        let v1 = rotl(self.v1, 13) ^ v0;
        let v0 = rotl(v0, 32);
        let v2 = self.v2.wrapping_add(self.v3);
        let v3 = rotl(self.v3, 16) ^ v2;
        let v0 = v0.wrapping_add(v3);
        let v3 = rotl(v3, 21) ^ v0;
        let v2 = v2.wrapping_add(v1);
        let v1 = rotl(v1, 17) ^ v2;
        let v2 = rotl(v2, 32);
        State { v0, v1, v2, v3 }
    }

    pub fn c_rounds(self) -> (state: State)
        ensures
            state == self.compression(),
    {
        self.compress().compress()
    }

    pub fn d_rounds(self) -> (state: State)
        ensures
            state == self.finalization(),
    {
        self.compress().compress().compress().compress()
    }

    fn absorb_word(self, word: u64) -> (state: State)
        ensures
            state == self.absorb(word),
    {
        let mixed = State { v0: self.v0, v1: self.v1, v2: self.v2, v3: self.v3 ^ word }.c_rounds();
        State { v0: mixed.v0 ^ word, v1: mixed.v1, v2: mixed.v2, v3: mixed.v3 }
    }
}

/// The `len` bytes of `buf` from `start` on as one number, least
/// significant byte first.
fn u8to64_le(buf: &[u8], start: usize, len: usize) -> (out: u64)
    requires
        len <= 8,
        start + len <= buf@.len(),
    ensures
        out == le_word(buf@.subrange(start as int, start + len)),
{
    let end: usize = buf.len();
    let mut i: usize = 0;
    let mut out: u64 = 0;
    proof {
        reveal_with_fuel(le_word, 1);
    }
    while i < len
        invariant
            i <= len <= 8,
            start + len <= end,
            end == buf@.len(),
            out == le_word(buf@.subrange(start as int, start + i)),
        decreases len - i,
    {
        proof {
            reveal_with_fuel(le_word, 1);
            let next = buf@.subrange(start as int, start + i + 1);
            assert(next.drop_last() =~= buf@.subrange(start as int, start + i));
        }
        out = out | ((buf[start + i] as u64) << (8 * i));
        i += 1;
    }
    out
}

/// The length of the longest prefix of `bytes` that is made of whole
/// eight-byte words.
pub open spec fn whole(bytes: Seq<u8>) -> int {
    8 * (bytes.len() as int / 8)
}

/// What is left of `bytes` after its whole eight-byte words: fewer than
/// eight bytes.
#[verifier::opaque]
pub open spec fn tail_of(bytes: Seq<u8>) -> Seq<u8> {
    bytes.skip(whole(bytes))
}

/// The state of a hasher with the keys `k0` and `k1` after it took in the
/// whole eight-byte words of `bytes`, the first word first.
#[verifier::opaque]
pub open spec fn state_after(k0: u64, k1: u64, bytes: Seq<u8>) -> State
    decreases bytes.len(),
{
    if bytes.len() < 8 {
        State::initial(k0, k1)
    } else {
        let done = whole(bytes);
        state_after(k0, k1, bytes.take(done - 8)).absorb(le_word(bytes.subrange(done - 8, done)))
    }
}

/// The hash that ends a stream of `len` bytes, given the state after its
/// whole words and its last, incomplete word.
pub open spec fn finish_of(state: State, tail: u64, len: nat) -> u128 {
    let last = (((len % 256) as u64) << 56) | tail;
    let state = state.absorb(last);
    let state = State { v2: state.v2 ^ 0xee, ..state }.finalization();
    let h1 = state.v0 ^ state.v1 ^ state.v2 ^ state.v3;
    let state = State { v1: state.v1 ^ 0xdd, ..state }.finalization();
    let h2 = state.v0 ^ state.v1 ^ state.v2 ^ state.v3;
    ((h1 as u128) << 64) | (h2 as u128)
}

/// The 128-bit SipHash 2-4 of `bytes` under the keys `k0` and `k1`.
pub open spec fn sip_hash_128(k0: u64, k1: u64, bytes: Seq<u8>) -> u128 {
    finish_of(state_after(k0, k1, bytes), le_word(tail_of(bytes)), bytes.len())
}

/// Two byte strings with the same whole words lead to the same state.
pub proof fn lemma_state_ignores_tail(k0: u64, k1: u64, a: Seq<u8>, b: Seq<u8>)
    requires
        whole(a) == whole(b),
        a.take(whole(a)) == b.take(whole(b)),
    ensures
        state_after(k0, k1, a) == state_after(k0, k1, b),
{
    reveal(state_after);
    if a.len() >= 8 {
        let done = whole(a);
        assert(a.take(done - 8) =~= a.take(done).take(done - 8));
        assert(b.take(done - 8) =~= b.take(done).take(done - 8));
        assert(a.subrange(done - 8, done) =~= a.take(done).subrange(done - 8, done));
        assert(b.subrange(done - 8, done) =~= b.take(done).subrange(done - 8, done));
    }
}

/// One more whole word after a string of whole words is one more step of
/// the state.
pub proof fn lemma_state_after_word(k0: u64, k1: u64, a: Seq<u8>, word: Seq<u8>)
    requires
        a.len() % 8 == 0,
        word.len() == 8,
    ensures
        state_after(k0, k1, a + word) == state_after(k0, k1, a).absorb(le_word(word)),
{
    reveal(state_after);
    let all = a + word;
    assert(whole(all) == all.len());
    assert(all.take(whole(all) - 8) =~= a);
    assert(all.subrange(whole(all) - 8, whole(all)) =~= word);
}

/// The word that two strings spell together, when they have no more than
/// eight bytes between them.
pub proof fn lemma_le_word_concat(a: Seq<u8>, b: Seq<u8>)
    requires
        a.len() + b.len() <= 8,
    ensures
        le_word(a + b) == le_word(a) | (le_word(b) << ((8 * a.len()) as u64)),
    decreases b.len(),
{
    reveal_with_fuel(le_word, 1);
    let shift = (8 * a.len()) as u64;
    if b.len() == 0 {
        assert(a + b =~= a);
        let w = le_word(a);
        assert(w | (0u64 << shift) == w) by (bit_vector);
    } else {
        let front = b.drop_last();
        let last = b.last() as u64;
        let inner = (8 * (b.len() - 1)) as u64;
        lemma_le_word_concat(a, front);
        assert((a + b).drop_last() =~= a + front);
        assert((a + b).last() == b.last());
        let wa = le_word(a);
        let wf = le_word(front);
        let high = last << inner;
        let both = (shift + inner) as u64;
        assert(shift <= 56 && inner <= 56 && both == shift + inner ==> (last << inner) << shift
            == last << both) by (bit_vector);
        assert((wf | high) << shift == (wf << shift) | (high << shift)) by (bit_vector);
        let low = wf << shift;
        let top = high << shift;
        assert((wa | low) | top == wa | (low | top)) by (bit_vector);
    }
}

/// The tail is what does not fill a word.
pub proof fn lemma_tail_len(a: Seq<u8>)
    ensures
        tail_of(a).len() == a.len() % 8,
{
    reveal(tail_of);
}

/// Bytes that do not fill the current word leave the state as it is and
/// lengthen the tail.
pub proof fn lemma_tail_grows(k0: u64, k1: u64, a: Seq<u8>, more: Seq<u8>)
    requires
        a.len() % 8 + more.len() < 8,
    ensures
        whole(a + more) == whole(a),
        tail_of(a + more) == tail_of(a) + more,
        state_after(k0, k1, a + more) == state_after(k0, k1, a),
{
    reveal(tail_of);
    assert(tail_of(a + more) =~= tail_of(a) + more);
    assert((a + more).take(whole(a + more)) =~= a.take(whole(a)));
    lemma_state_ignores_tail(k0, k1, a + more, a);
}

/// Bytes that fill the current word exactly take the state one step on,
/// by the word that the tail and they spell together.
pub proof fn lemma_tail_fills(k0: u64, k1: u64, a: Seq<u8>, more: Seq<u8>)
    requires
        a.len() % 8 + more.len() == 8,
    ensures
        state_after(k0, k1, a + more) == state_after(k0, k1, a).absorb(
            le_word(tail_of(a) + more),
        ),
{
    reveal(tail_of);
    let head = a.take(whole(a));
    let word = tail_of(a) + more;
    assert(head + word =~= a + more);
    assert(whole(head) == whole(a));
    assert(head.take(whole(head)) =~= a.take(whole(a)));
    lemma_state_ignores_tail(k0, k1, head, a);
    lemma_state_after_word(k0, k1, head, word);
}

/// Where whole words end at `cut` in `more`, what follows `cut` is the
/// tail, and the state is the one after the bytes before `cut`.
pub proof fn lemma_last_bytes(k0: u64, k1: u64, a: Seq<u8>, more: Seq<u8>, cut: int)
    requires
        0 <= cut <= more.len(),
        more.len() - cut < 8,
        (a.len() + cut) % 8 == 0,
    ensures
        (a + more).len() % 8 == more.len() - cut,
        tail_of(a + more) == more.subrange(cut, more.len() as int),
        state_after(k0, k1, a + more) == state_after(k0, k1, a + more.subrange(0, cut)),
{
    reveal(tail_of);
    let sofar = a + more.subrange(0, cut);
    let rest = more.subrange(cut, more.len() as int);
    assert(sofar + rest =~= a + more);
    assert(whole(sofar) == sofar.len());
    assert(tail_of(sofar) =~= Seq::<u8>::empty());
    assert(tail_of(sofar) + rest =~= rest);
    lemma_tail_grows(k0, k1, sofar, rest);
}

/// Adding to a length modulo the range of `usize` keeps the length right
/// modulo 256.
pub proof fn lemma_wrapped_length(len: nat, old_length: usize, more: usize)
    requires
        old_length % 256 == len % 256,
    ensures
        old_length.wrapping_add(more) % 256 == (len + more) % 256,
{
    assert(usize::MAX == 0xffff_ffff || usize::MAX == 0xffff_ffff_ffff_ffff);
}

/// The state after the whole words of `bytes` from `start` up to `end`
/// were taken in, one after the other.
fn absorb_words(
    state: State,
    bytes: &[u8],
    start: usize,
    end: usize,
    Ghost(keys): Ghost<(u64, u64)>,
    Ghost(before): Ghost<Seq<u8>>,
) -> (out: State)
    requires
        start <= end <= bytes@.len(),
        (end - start) % 8 == 0,
        (before.len() + start) % 8 == 0,
        state == state_after(keys.0, keys.1, before + bytes@.subrange(0, start as int)),
    ensures
        out == state_after(keys.0, keys.1, before + bytes@.subrange(0, end as int)),
{
    let mut state = state;
    let mut i = start;
    while i < end
        invariant
            start <= i <= end <= bytes@.len(),
            (end - i) % 8 == 0,
            (before.len() + i) % 8 == 0,
            state == state_after(keys.0, keys.1, before + bytes@.subrange(0, i as int)),
        decreases end - i,
    {
        let mi = u8to64_le(bytes, i, 8);
        proof {
            let sofar = before + bytes@.subrange(0, i as int);
            let word = bytes@.subrange(i as int, i + 8);
            assert(sofar + word =~= before + bytes@.subrange(0, i + 8));
            lemma_state_after_word(keys.0, keys.1, sofar, word);
        }
        state = state.absorb_word(mi);
        i += 8;
    }
    state
}

/// A SipHash 2-4 hasher with a 128-bit result.
///
/// It takes its input in any number of writes, and keeps the bytes that do
/// not fill a word yet.
#[derive(Clone, Copy)]
pub struct TypeIDHasher {
    k0: u64,
    k1: u64,
    length: usize,
    state: State,
    tail: u64,
    ntail: usize,
    absorbed: Ghost<Seq<u8>>,
}

impl TypeIDHasher {
    #[verifier::type_invariant]
    spec fn well_formed(self) -> bool {
        &&& self.state == state_after(self.k0, self.k1, self.absorbed@)
        &&& self.ntail == self.absorbed@.len() % 8
        &&& self.tail == le_word(tail_of(self.absorbed@))
        &&& self.length % 256 == self.absorbed@.len() % 256
    }

    /// The two keys that this hasher was made with.
    pub closed spec fn keys(self) -> (u64, u64) {
        (self.k0, self.k1)
    }

    /// All bytes that this hasher was given, in the order in which they
    /// came.
    pub closed spec fn absorbed(self) -> Seq<u8> {
        self.absorbed@
    }

    /// A hasher with both keys zero that was given nothing yet.
    pub fn new() -> (hasher: TypeIDHasher)
        ensures
            hasher.keys() == (0u64, 0u64),
            hasher.absorbed() == Seq::<u8>::empty(),
    {
        TypeIDHasher::new_with_keys(0, 0)
    }

    /// A hasher with the given keys that was given nothing yet.
    pub fn new_with_keys(key0: u64, key1: u64) -> (hasher: TypeIDHasher)
        ensures
            hasher.keys() == (key0, key1),
            hasher.absorbed() == Seq::<u8>::empty(),
    {
        proof {
            reveal(tail_of);
            reveal_with_fuel(le_word, 1);
            assert(tail_of(Seq::<u8>::empty()) =~= Seq::<u8>::empty());
            assert(le_word(Seq::<u8>::empty()) == 0);
            assert(state_after(key0, key1, Seq::<u8>::empty()) == State::initial(key0, key1)) by {
                reveal(state_after);
            }
        }
        TypeIDHasher {
            k0: key0,
            k1: key1,
            length: 0,
            state: State::new(key0, key1),
            tail: 0,
            ntail: 0,
            absorbed: Ghost(Seq::empty()),
        }
    }

    fn assemble(
        k0: u64,
        k1: u64,
        length: usize,
        state: State,
        tail: u64,
        ntail: usize,
        Ghost(absorbed): Ghost<Seq<u8>>,
    ) -> (hasher: TypeIDHasher)
        requires
            state == state_after(k0, k1, absorbed),
            ntail == absorbed.len() % 8,
            tail == le_word(tail_of(absorbed)),
            length % 256 == absorbed.len() % 256,
        ensures
            hasher.keys() == (k0, k1),
            hasher.absorbed() == absorbed,
    {
        TypeIDHasher { k0, k1, length, state, tail, ntail, absorbed: Ghost(absorbed) }
    }

    /// The hasher after `bytes`, which do not fill the current word, joined
    /// its tail.
    fn extend_tail(self, bytes: &[u8], total: usize) -> (hasher: TypeIDHasher)
        requires
            self.ntail != 0,
            bytes@.len() < 8 - self.ntail,
            total % 256 == (self.absorbed@.len() + bytes@.len()) % 256,
        ensures
            hasher.keys() == self.keys(),
            hasher.absorbed() == self.absorbed() + bytes@,
    {
        proof {
            use_type_invariant(&self);
            lemma_tail_len(self.absorbed@);
        }
        let length = bytes.len();
        let word = u8to64_le(bytes, 0, length);
        let tail = self.tail | (word << (8 * self.ntail));
        proof {
            assert(bytes@.subrange(0, length as int) =~= bytes@);
            lemma_le_word_concat(tail_of(self.absorbed@), bytes@);
            lemma_tail_grows(self.k0, self.k1, self.absorbed@, bytes@);
        }
        TypeIDHasher::assemble(
            self.k0,
            self.k1,
            total,
            self.state,
            tail,
            self.ntail + length,
            Ghost(self.absorbed@ + bytes@),
        )
    }

    /// The state after the first `needed` bytes of `bytes` filled the
    /// current word.
    fn fill_tail(self, bytes: &[u8], needed: usize) -> (state: State)
        requires
            self.ntail != 0,
            needed == 8 - self.ntail,
            needed <= bytes@.len(),
        ensures
            state == state_after(
                self.keys().0,
                self.keys().1,
                self.absorbed() + bytes@.subrange(0, needed as int),
            ),
    {
        proof {
            use_type_invariant(&self);
            lemma_tail_len(self.absorbed@);
        }
        let word = u8to64_le(bytes, 0, needed);
        let tail = self.tail | (word << (8 * self.ntail));
        proof {
            let filling = bytes@.subrange(0, needed as int);
            lemma_le_word_concat(tail_of(self.absorbed@), filling);
            lemma_tail_fills(self.k0, self.k1, self.absorbed@, filling);
        }
        self.state.absorb_word(tail)
    }

    /// The hasher after the whole words of `bytes` from `needed` on were
    /// taken in and what follows them became the tail.
    #[verifier::spinoff_prover]
    fn absorb_rest(
        self,
        state: State,
        bytes: &[u8],
        needed: usize,
        total: usize,
    ) -> (hasher: TypeIDHasher)
        requires
            needed <= bytes@.len(),
            needed < 8,
            (self.absorbed@.len() + needed) % 8 == 0,
            state == state_after(
                self.k0,
                self.k1,
                self.absorbed@ + bytes@.subrange(0, needed as int),
            ),
            total % 256 == (self.absorbed@.len() + bytes@.len()) % 256,
        ensures
            hasher.keys() == self.keys(),
            hasher.absorbed() == self.absorbed() + bytes@,
    {
        let length = bytes.len();
        let len = length - needed;
        let left = len & 0x7;
        assert(left == len % 8) by (bit_vector)
            requires
                left == len & 0x7,
        ;
        let end = length - left;
        assert((end - needed) % 8 == 0);
        let state = absorb_words(
            state,
            bytes,
            needed,
            end,
            Ghost((self.k0, self.k1)),
            Ghost(self.absorbed@),
        );
        let tail = u8to64_le(bytes, end, left);
        let ghost after = self.absorbed@ + bytes@;
        proof {
            lemma_last_bytes(self.k0, self.k1, self.absorbed@, bytes@, end as int);
            assert(bytes@.subrange(end as int, end + left) == bytes@.subrange(
                end as int,
                bytes@.len() as int,
            ));
            assert(tail == le_word(tail_of(after)));
            assert(state == state_after(self.k0, self.k1, after));
            assert(left == after.len() % 8);
        }
        TypeIDHasher::assemble(self.k0, self.k1, total, state, tail, left, Ghost(after))
    }

    /// The hasher after it took in `bytes` as well.
    pub fn write(self, bytes: &[u8]) -> (hasher: TypeIDHasher)
        ensures
            hasher.keys() == self.keys(),
            hasher.absorbed() == self.absorbed() + bytes@,
    {
        proof {
            use_type_invariant(&self);
            lemma_wrapped_length(self.absorbed@.len(), self.length, bytes@.len() as usize);
        }
        let length = bytes.len();
        let total = self.length.wrapping_add(length);
        if self.ntail != 0 {
            let needed = 8 - self.ntail;
            if length < needed {
                self.extend_tail(bytes, total)
            } else {
                let state = self.fill_tail(bytes, needed);
                self.absorb_rest(state, bytes, needed, total)
            }
        } else {
            proof {
                assert(self.absorbed@ + bytes@.subrange(0, 0) =~= self.absorbed@);
            }
            self.absorb_rest(self.state, bytes, 0, total)
        }
    }

    /// The hash of all bytes that this hasher was given.
    pub fn finish(self) -> (id: u128)
        ensures
            id == sip_hash_128(self.keys().0, self.keys().1, self.absorbed()),
    {
        proof {
            use_type_invariant(&self);
            let length = self.length;
            assert((length as u64) & 0xff == length % 256) by (bit_vector);
        }
        let last: u64 = ((self.length as u64 & 0xff) << 56) | self.tail;
        let state = self.state.absorb_word(last);
        let state = State { v0: state.v0, v1: state.v1, v2: state.v2 ^ 0xee, v3: state.v3 }.d_rounds();
        let h1 = state.v0 ^ state.v1 ^ state.v2 ^ state.v3;
        let state = State { v0: state.v0, v1: state.v1 ^ 0xdd, v2: state.v2, v3: state.v3 }.d_rounds();
        let h2 = state.v0 ^ state.v1 ^ state.v2 ^ state.v3;
        ((h1 as u128) << 64) | (h2 as u128)
    }
}

} // verus!
