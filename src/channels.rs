//! The channel matrix: one channel per (component, channel) pair, named
//! `sensor<i>.channel<j>` and laid out component-major.
use vstd::prelude::*;
use vstd::arithmetic::div_mod::lemma_fundamental_div_mod;
use vstd::arithmetic::div_mod::lemma_fundamental_div_mod_converse;
use vstd::arithmetic::mul::lemma_mul_inequality;
use crate::decimal::dec;
use crate::decimal::is_digit;
use crate::decimal::lemma_dec_digits;
use crate::decimal::lemma_dec_injective;
use crate::decimal::push_decimal;

verus! {

/// The value type of a channel. Every channel of the matrix carries 64-bit
/// signed integers.
#[derive(Clone, Copy, Debug, PartialEq, Eq, Structural)]
pub enum DataType {
    Int64,
}

/// A named, typed measurement stream.
#[derive(Debug)]
pub struct Channel {
    pub name: String,
    pub data_type: DataType,
}

pub open spec fn sensor_prefix() -> Seq<char> {
    seq!['s', 'e', 'n', 's', 'o', 'r']
}

pub open spec fn channel_infix() -> Seq<char> {
    seq!['.', 'c', 'h', 'a', 'n', 'n', 'e', 'l']
}

/// The name of channel `j` of component `i`: `sensor<i>.channel<j>`.
pub open spec fn channel_name(i: nat, j: nat) -> Seq<char> {
    sensor_prefix() + dec(i) + channel_infix() + dec(j)
}

/// The name that the matrix gives to position `k` when each component has
/// `per` channels.
pub open spec fn name_at(k: nat, per: nat) -> Seq<char> {
    channel_name(k / per, k % per)
}

/// Two channels have the same name only when they are the same channel of the
/// same component.
pub proof fn lemma_channel_name_injective(i1: nat, j1: nat, i2: nat, j2: nat)
    requires
        channel_name(i1, j1) == channel_name(i2, j2),
    ensures
        i1 == i2,
        j1 == j2,
{
    let p = sensor_prefix();
    let c = channel_infix();
    let a = dec(i1);
    let b = dec(i2);
    let n1 = channel_name(i1, j1);
    let n2 = channel_name(i2, j2);
    lemma_dec_digits(i1);
    lemma_dec_digits(i2);
    assert(n1 =~= p + (a + (c + dec(j1))));
    assert(n2 =~= p + (b + (c + dec(j2))));
    // The first '.' after the prefix ends the component number.
    if a.len() < b.len() {
        assert(n1[(p.len() + a.len()) as int] == '.');
        assert(n2[(p.len() + a.len()) as int] == b[a.len() as int]);
        assert(is_digit(b[a.len() as int]));
        assert(false);
    }
    if b.len() < a.len() {
        assert(n2[(p.len() + b.len()) as int] == '.');
        assert(n1[(p.len() + b.len()) as int] == a[b.len() as int]);
        assert(is_digit(a[b.len() as int]));
        assert(false);
    }
    assert(a.len() == b.len());
    let start = p.len() as int;
    let mid = start + a.len() + c.len();
    assert(a =~= n1.subrange(start, start + a.len()));
    assert(b =~= n2.subrange(start, start + b.len()));
    lemma_dec_injective(i1, i2);
    assert(dec(j1) =~= n1.subrange(mid, n1.len() as int));
    assert(dec(j2) =~= n2.subrange(mid, n2.len() as int));
    lemma_dec_injective(j1, j2);
}

/// Distinct positions of the matrix carry distinct names.
pub proof fn lemma_names_distinct(k1: nat, k2: nat, per: nat)
    requires
        per > 0,
        k1 != k2,
    ensures
        name_at(k1, per) != name_at(k2, per),
{
    if name_at(k1, per) == name_at(k2, per) {
        lemma_channel_name_injective(k1 / per, k1 % per, k2 / per, k2 % per);
        lemma_fundamental_div_mod(k1 as int, per as int);
        lemma_fundamental_div_mod(k2 as int, per as int);
    }
}

/// Builds the name `sensor<i>.channel<j>`.
pub fn make_channel_name(i: usize, j: usize) -> (r: String)
    ensures
        r@ == channel_name(i as nat, j as nat),
{
    proof {
        reveal_strlit("sensor");
        reveal_strlit(".channel");
    }
    let mut s = String::new();
    s.append("sensor");
    push_decimal(&mut s, i as u128);
    s.append(".channel");
    push_decimal(&mut s, j as u128);
    assert(s@ =~= channel_name(i as nat, j as nat));
    s
}

/// Builds the channel matrix: `num_components * channels_per_component`
/// channels, component-major, each of type `Int64`, with distinct names.
pub fn build_channels(num_components: usize, channels_per_component: usize) -> (r: Vec<Channel>)
    requires
        num_components * channels_per_component <= usize::MAX,
    ensures
        r@.len() == num_components * channels_per_component,
        forall|k: int|
            0 <= k < r@.len() ==> (#[trigger] r@[k]).name@ == name_at(
                k as nat,
                channels_per_component as nat,
            ) && r@[k].data_type == DataType::Int64,
        forall|k1: int, k2: int|
            0 <= k1 < r@.len() && 0 <= k2 < r@.len() && k1 != k2 ==> (#[trigger] r@[k1]).name@
                != (#[trigger] r@[k2]).name@,
{
    let per = channels_per_component;
    let mut channels: Vec<Channel> = Vec::new();
    let mut i: usize = 0;
    while i < num_components
        invariant
            i <= num_components,
            num_components * per <= usize::MAX,
            channels@.len() == i * per,
            forall|k: int|
                0 <= k < channels@.len() ==> (#[trigger] channels@[k]).name@ == name_at(
                    k as nat,
                    per as nat,
                ) && channels@[k].data_type == DataType::Int64,
        decreases num_components - i,
    {
        proof {
            lemma_mul_inequality(i as int + 1, num_components as int, per as int);
            assert((i + 1) * per == i * per + per) by (nonlinear_arith);
        }
        let mut j: usize = 0;
        while j < per
            invariant
                i < num_components,
                j <= per,
                (i + 1) * per <= usize::MAX,
                (i + 1) * per == i * per + per,
                channels@.len() == i * per + j,
                forall|k: int|
                    0 <= k < channels@.len() ==> (#[trigger] channels@[k]).name@ == name_at(
                        k as nat,
                        per as nat,
                    ) && channels@[k].data_type == DataType::Int64,
            decreases per - j,
        {
            let name = make_channel_name(i, j);
            proof {
                lemma_fundamental_div_mod_converse(
                    (i * per + j) as int,
                    per as int,
                    i as int,
                    j as int,
                );
            }
            channels.push(Channel { name, data_type: DataType::Int64 });
            j = j + 1;
        }
        i = i + 1;
    }
    proof {
        assert forall|k1: int, k2: int|
            0 <= k1 < channels@.len() && 0 <= k2 < channels@.len() && k1 != k2 implies (
            #[trigger] channels@[k1]).name@ != (#[trigger] channels@[k2]).name@ by {
            lemma_names_distinct(k1 as nat, k2 as nat, per as nat);
        }
    }
    channels
}

} // verus!
