use vstd::prelude::*;

verus! {

/// `s` with `x` appended, the oldest element evicted once the length passes `cap`.
pub open spec fn windowed<T>(s: Seq<T>, x: T, cap: nat) -> Seq<T> {
    let t = s.push(x);
    if t.len() > cap {
        t.drop_first()
    } else {
        t
    }
}

/// Appends `x` to the rolling window `v` of capacity `cap`.
pub fn push_window<T>(v: &mut Vec<T>, x: T, cap: usize)
    requires
        old(v)@.len() <= cap,
    ensures
        final(v)@ == windowed(old(v)@, x, cap as nat),
        final(v)@.len() <= cap,
{
    let ghost pre = v@;
    v.push(x);
    if v.len() > cap {
        v.remove(0);
        assert(v@ =~= pre.push(x).drop_first());
    }
}

/// Sum of a sequence of samples.
pub open spec fn sum_of(s: Seq<u64>) -> nat
    decreases s.len(),
{
    if s.len() == 0 {
        0
    } else {
        (sum_of(s.drop_last()) + s.last()) as nat
    }
}

proof fn lemma_sum_of_take(s: Seq<u64>, i: int)
    requires
        0 <= i < s.len(),
    ensures
        sum_of(s.take(i + 1)) == sum_of(s.take(i)) + s[i],
{
    assert(s.take(i + 1).drop_last() =~= s.take(i));
}

/// The sum of the samples, computed without overflow.
pub(crate) fn total_of(v: &Vec<u64>) -> (r: u128)
    ensures
        r == sum_of(v@),
        r <= v@.len() * u64::MAX,
{
    let n: usize = v.len();
    let mut sum: u128 = 0;
    let mut i: usize = 0;
    while i < n
        invariant
            i <= n,
            n == v@.len(),
            sum == sum_of(v@.take(i as int)),
            sum <= i * u64::MAX,
        decreases n - i,
    {
        proof {
            lemma_sum_of_take(v@, i as int);
        }
        sum = sum + v[i] as u128;
        i = i + 1;
    }
    assert(v@.take(n as int) =~= v@);
    sum
}

} // verus!
