//! Summation of a vector of `u32`, and the fixed sequence the address demo
//! feeds to it.

use vstd::prelude::*;

verus! {

/// The sum of the integers in `s`, as a mathematical integer.
pub open spec fn sum_of(s: Seq<u32>) -> int
    decreases s.len(),
{
    if s.len() == 0 {
        0
    } else {
        sum_of(s.drop_last()) + s.last()
    }
}

/// Extending a prefix by one element adds that element to its sum.
proof fn lemma_sum_take_step(s: Seq<u32>, i: int)
    requires
        0 <= i < s.len(),
    ensures
        sum_of(s.take(i + 1)) == sum_of(s.take(i)) + s[i],
{
    assert(s.take(i + 1).drop_last() =~= s.take(i));
}

/// The sum of a prefix never exceeds the sum of the whole sequence.
proof fn lemma_sum_take_le(s: Seq<u32>, i: int)
    requires
        0 <= i <= s.len(),
    ensures
        sum_of(s.take(i)) <= sum_of(s),
    decreases s.len() - i,
{
    if i < s.len() {
        lemma_sum_take_step(s, i);
        lemma_sum_take_le(s, i + 1);
    } else {
        assert(s.take(i) =~= s);
    }
}

/// Adds up the elements of `data`.
///
/// The total must fit in a `u32`; on any other input the demo would abort on
/// overflow, so such inputs are excluded here.
pub fn sum(data: &Vec<u32>) -> (total: u32)
    requires
        sum_of(data@) <= u32::MAX,
    ensures
        total == sum_of(data@),
{
    let mut total: u32 = 0;
    let mut i: usize = 0;
    while i < data.len()
        invariant
            i <= data.len(),
            total == sum_of(data@.take(i as int)),
            sum_of(data@) <= u32::MAX,
        decreases data.len() - i,
    {
        proof {
            lemma_sum_take_step(data@, i as int);
            lemma_sum_take_le(data@, i + 1);
        }
        total = total + data[i];
        i = i + 1;
    }
    proof {
        assert(data@.take(data.len() as int) =~= data@);
    }
    total
}

/// Builds the fixed input sequence of the address demo.
pub fn demo_data() -> (v: Vec<u32>)
    ensures
        v@ == seq![1u32, 2u32, 3u32, 4u32],
{
    let mut v: Vec<u32> = Vec::new();
    v.push(1);
    v.push(2);
    v.push(3);
    v.push(4);
    proof {
        assert(v@ =~= seq![1u32, 2u32, 3u32, 4u32]);
    }
    v
}

} // verus!
