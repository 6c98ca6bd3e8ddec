//! The value pool: a fixed number of messages, each holding one random value
//! per channel, drawn once and then replayed by cycling through the pool.
use vstd::prelude::*;
use rand::rngs::ThreadRng;
use crate::channels::Channel;

verus! {

/// How many messages the pool holds.
pub const POOL_SIZE: usize = 100;

/// The smallest value a channel can carry.
pub const VALUE_MIN: i64 = 1;

/// One past the largest value a channel can carry.
pub const VALUE_END: i64 = 100;

#[verifier::external_type_specification]
#[verifier::external_body]
pub struct ExThreadRng(ThreadRng);

/// Relies on `rand::rng`, which hands out a handle to the thread-local
/// generator, seeded from the operating system.
pub assume_specification[ rand::rng ]() -> ThreadRng;

/// Relies on rand's `IndexedRandom::choose`: on an empty slice it returns
/// `None`, otherwise one of the slice's elements.
#[verifier::external_body]
fn choose_value(values: &[i64], rng: &mut ThreadRng) -> (r: Option<i64>)
    ensures
        r is Some <==> values@.len() > 0,
        r matches Some(v) ==> values@.contains(v),
{
    rand::seq::IndexedRandom::choose(values, rng).copied()
}

/// Whether a value lies in the range the pool draws from.
pub open spec fn in_value_range(v: i64) -> bool {
    VALUE_MIN <= v < VALUE_END
}

/// Whether `messages` is a pool for `width` channels: `POOL_SIZE` messages,
/// one value per channel in each, every value in range.
pub open spec fn is_pool(messages: Seq<Seq<i64>>, width: nat) -> bool {
    &&& messages.len() == POOL_SIZE
    &&& forall|m: int| 0 <= m < messages.len() ==> (#[trigger] messages[m]).len() == width
    &&& forall|m: int, c: int|
        0 <= m < messages.len() && 0 <= c < messages[m].len() ==> in_value_range(
            #[trigger] messages[m][c],
        )
}

/// A fixed pool of messages; a message holds one value per channel of the
/// matrix, in the matrix's order.
pub struct ValuePool {
    messages: Vec<Vec<i64>>,
    width: usize,
}

impl View for ValuePool {
    type V = Seq<Seq<i64>>;

    closed spec fn view(&self) -> Seq<Seq<i64>> {
        self.messages@.map_values(|m: Vec<i64>| m@)
    }
}

/// The values `VALUE_MIN .. VALUE_END`, in order.
fn value_choices() -> (r: Vec<i64>)
    ensures
        r@.len() == VALUE_END - VALUE_MIN,
        forall|k: int| 0 <= k < r@.len() ==> #[trigger] r@[k] == VALUE_MIN + k,
{
    let mut r: Vec<i64> = Vec::new();
    let mut v: i64 = VALUE_MIN;
    while v < VALUE_END
        invariant
            VALUE_MIN <= v <= VALUE_END,
            r@.len() == v - VALUE_MIN,
            forall|k: int| 0 <= k < r@.len() ==> #[trigger] r@[k] == VALUE_MIN + k,
        decreases VALUE_END - v,
    {
        r.push(v);
        v = v + 1;
    }
    r
}

impl ValuePool {
    /// The number of channels each message covers.
    pub closed spec fn spec_width(&self) -> nat {
        self.width as nat
    }

    /// The pool's invariant.
    pub closed spec fn wf(&self) -> bool {
        is_pool(self@, self.width as nat)
    }

    /// Draws a pool for `channels`: `POOL_SIZE` messages, each with one value
    /// per channel, each value drawn uniformly from `VALUE_MIN .. VALUE_END`.
    pub fn generate(channels: &Vec<Channel>) -> (r: ValuePool)
        ensures
            r.wf(),
            r.spec_width() == channels@.len(),
            is_pool(r@, channels@.len()),
    {
        let choices = value_choices();
        let mut rng = rand::rng();
        let width = channels.len();
        let mut messages: Vec<Vec<i64>> = Vec::new();
        let mut m: usize = 0;
        while m < POOL_SIZE
            invariant
                m <= POOL_SIZE,
                width == channels@.len(),
                choices@.len() == VALUE_END - VALUE_MIN,
                forall|k: int| 0 <= k < choices@.len() ==> #[trigger] choices@[k] == VALUE_MIN + k,
                messages@.len() == m,
                forall|i: int| 0 <= i < m ==> (#[trigger] messages@[i])@.len() == width,
                forall|i: int, c: int|
                    0 <= i < m && 0 <= c < messages@[i]@.len() ==> in_value_range(
                        #[trigger] messages@[i]@[c],
                    ),
            decreases POOL_SIZE - m,
        {
            let mut message: Vec<i64> = Vec::new();
            let mut c: usize = 0;
            while c < width
                invariant
                    c <= width,
                    choices@.len() == VALUE_END - VALUE_MIN,
                    forall|k: int|
                        0 <= k < choices@.len() ==> #[trigger] choices@[k] == VALUE_MIN + k,
                    message@.len() == c,
                    forall|k: int| 0 <= k < c ==> in_value_range(#[trigger] message@[k]),
                decreases width - c,
            {
                let v = choose_value(choices.as_slice(), &mut rng).unwrap();
                message.push(v);
                c = c + 1;
            }
            messages.push(message);
            m = m + 1;
        }
        let pool = ValuePool { messages, width };
        assert(is_pool(pool@, width as nat));
        pool
    }

    /// The number of messages in the pool.
    pub fn len(&self) -> (r: usize)
        requires
            self.wf(),
        ensures
            r == self@.len(),
            r == POOL_SIZE,
    {
        self.messages.len()
    }

    /// The number of values in each message.
    pub fn width(&self) -> (r: usize)
        ensures
            r == self.spec_width(),
    {
        self.width
    }

    /// The message at `index`.
    pub fn message(&self, index: usize) -> (r: &Vec<i64>)
        requires
            index < self@.len(),
        ensures
            r@ == self@[index as int],
    {
        &self.messages[index]
    }
}

/// The message found at position `k` of the endless sequence that repeats
/// `messages` from the start each time its end is reached.
pub open spec fn cycled<A>(messages: Seq<A>, k: nat) -> A
    recommends
        messages.len() > 0,
{
    messages[(k % messages.len()) as int]
}

/// Cycling is periodic: position `k + n * len` repeats position `k`, which is
/// message `k mod len`.
pub proof fn lemma_cycle_repeats<A>(messages: Seq<A>, k: nat, n: nat)
    requires
        messages.len() > 0,
    ensures
        cycled(messages, k + n * messages.len()) == cycled(messages, k),
        cycled(messages, k) == messages[(k % messages.len()) as int],
{
    vstd::arithmetic::div_mod::lemma_mod_multiples_vanish(
        n as int,
        k as int,
        messages.len() as int,
    );
    assert(k + n * messages.len() == n * messages.len() + k) by (nonlinear_arith);
}

/// A restartable position in a cycle over `len` messages: it hands out the
/// indices `0, 1, .., len - 1, 0, 1, ..` in turn.
pub struct PoolCycle {
    len: usize,
    index: usize,
    taken: Ghost<nat>,
}

impl PoolCycle {
    /// The length of the cycle.
    pub closed spec fn spec_len(&self) -> nat {
        self.len as nat
    }

    /// How many indices have been handed out since the cycle started.
    pub closed spec fn taken(&self) -> nat {
        self.taken@
    }

    /// The cycle's invariant: the next index is `taken mod len`.
    pub closed spec fn wf(&self) -> bool {
        &&& self.len > 0
        &&& self.index < self.len
        &&& self.index == self.taken@ % (self.len as nat)
    }

    /// A cycle over `len` messages, at its start.
    pub fn new(len: usize) -> (r: PoolCycle)
        requires
            len > 0,
        ensures
            r.wf(),
            r.spec_len() == len,
            r.taken() == 0,
    {
        proof {
            vstd::arithmetic::div_mod::lemma_small_mod(0, len as nat);
        }
        PoolCycle { len, index: 0, taken: Ghost(0) }
    }

    /// The index the next call of `next` hands out.
    pub fn peek(&self) -> (r: usize)
        requires
            self.wf(),
        ensures
            r == self.taken() % self.spec_len(),
    {
        self.index
    }

    /// Hands out the index of position `taken` of the cycle, `taken mod len`,
    /// and moves on.
    pub fn next(&mut self) -> (r: usize)
        requires
            old(self).wf(),
        ensures
            final(self).wf(),
            r == old(self).taken() % old(self).spec_len(),
            r < old(self).spec_len(),
            final(self).spec_len() == old(self).spec_len(),
            final(self).taken() == old(self).taken() + 1,
    {
        let r = self.index;
        proof {
            let t = self.taken@ as int;
            let n = self.len as int;
            let q = t / n;
            vstd::arithmetic::div_mod::lemma_fundamental_div_mod(t, n);
            if self.index + 1 == self.len {
                assert(t + 1 == (q + 1) * n + 0) by (nonlinear_arith)
                    requires
                        t == n * q + (n - 1),
                ;
                vstd::arithmetic::div_mod::lemma_fundamental_div_mod_converse(t + 1, n, q + 1, 0);
            } else {
                assert(t + 1 == q * n + (self.index + 1)) by (nonlinear_arith)
                    requires
                        t == n * q + self.index,
                ;
                vstd::arithmetic::div_mod::lemma_fundamental_div_mod_converse(
                    t + 1,
                    n,
                    q,
                    self.index + 1,
                );
            }
        }
        if self.index + 1 == self.len {
            self.index = 0;
        } else {
            self.index = self.index + 1;
        }
        self.taken = Ghost(self.taken@ + 1);
        r
    }
}

impl ValuePool {
    /// A cycle over this pool, at its start.
    pub fn cycle(&self) -> (r: PoolCycle)
        requires
            self.wf(),
        ensures
            r.wf(),
            r.spec_len() == self@.len(),
            r.taken() == 0,
    {
        PoolCycle::new(self.messages.len())
    }

    /// The message at position `k` of the endless cycle over the pool.
    pub fn message_at(&self, k: u64) -> (r: &Vec<i64>)
        requires
            self.wf(),
        ensures
            r@ == cycled(self@, k as nat),
    {
        let i = (k % (self.messages.len() as u64)) as usize;
        &self.messages[i]
    }
}

} // verus!
