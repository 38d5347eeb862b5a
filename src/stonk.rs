//! Helpers for stock charts.

use vstd::prelude::*;

verus! {

/// `m` is the least present value, or none is present and `m` is none.
pub open spec fn is_min(numbers: Seq<Option<i64>>, m: Option<i64>) -> bool {
    match m {
        Some(x) => numbers.contains(Some(x)) && forall|i: int| 0 <= i < numbers.len() && numbers[i] is Some ==> x <= numbers[i].unwrap(),
        None => forall|i: int| 0 <= i < numbers.len() ==> numbers[i] is None,
    }
}

/// `m` is the greatest present value, or none is present and `m` is none.
pub open spec fn is_max(numbers: Seq<Option<i64>>, m: Option<i64>) -> bool {
    match m {
        Some(x) => numbers.contains(Some(x)) && forall|i: int| 0 <= i < numbers.len() && numbers[i] is Some ==> numbers[i].unwrap() <= x,
        None => forall|i: int| 0 <= i < numbers.len() ==> numbers[i] is None,
    }
}

/// The least and the greatest of the values present, skipping gaps.
pub fn find_min_max_i64(numbers: &Vec<Option<i64>>) -> (r: (Option<i64>, Option<i64>))
    ensures
        is_min(numbers@, r.0),
        is_max(numbers@, r.1),
{
    let mut lo: Option<i64> = None;
    let mut hi: Option<i64> = None;
    let mut i: usize = 0;
    while i < numbers.len()
        invariant
            i <= numbers@.len(),
            is_min(numbers@.take(i as int), lo),
            is_max(numbers@.take(i as int), hi),
        decreases numbers.len() - i,
    {
        let ghost before = numbers@.take(i as int);
        let ghost after = numbers@.take(i + 1);
        assert(after =~= before.push(numbers@[i as int]));
        if let Some(x) = numbers[i] {
            match lo {
                Some(m) => if x < m { lo = Some(x); },
                None => { lo = Some(x); },
            }
            match hi {
                Some(m) => if x > m { hi = Some(x); },
                None => { hi = Some(x); },
            }
        }
        proof {
            assert(forall|j: int| 0 <= j < i ==> after[j] == before[j]);
            if let Some(m) = lo {
                assert(after.contains(Some(m))) by {
                    if after[i as int] != Some(m) {
                        let j = choose|j: int| 0 <= j < before.len() && before[j] == Some(m);
                        assert(after[j] == Some(m));
                    }
                }
            }
            if let Some(m) = hi {
                assert(after.contains(Some(m))) by {
                    if after[i as int] != Some(m) {
                        let j = choose|j: int| 0 <= j < before.len() && before[j] == Some(m);
                        assert(after[j] == Some(m));
                    }
                }
            }
        }
        i = i + 1;
    }
    assert(numbers@.take(numbers@.len() as int) =~= numbers@);
    (lo, hi)
}

} // verus!
