//! Element-wise updates of integer vectors.

use vstd::prelude::*;

verus! {

/// Doubles every element in place; each doubled value must fit in `i32`.
pub fn double_all(numbers: &mut Vec<i32>)
    requires
        forall|i: int| 0 <= i < old(numbers)@.len() ==> i32::MIN <= 2 * #[trigger] old(numbers)@[i] <= i32::MAX,
    ensures
        final(numbers)@.len() == old(numbers)@.len(),
        forall|i: int| 0 <= i < old(numbers)@.len() ==> #[trigger] final(numbers)@[i] == 2 * old(numbers)@[i],
{
    let n = numbers.len();
    let mut k: usize = 0;
    while k < n
        invariant
            n == old(numbers)@.len(),
            numbers@.len() == n,
            k <= n,
            forall|i: int| 0 <= i < n ==> i32::MIN <= 2 * #[trigger] old(numbers)@[i] <= i32::MAX,
            forall|i: int| 0 <= i < k ==> #[trigger] numbers@[i] == 2 * old(numbers)@[i],
            forall|i: int| k <= i < n ==> #[trigger] numbers@[i] == old(numbers)@[i],
        decreases n - k,
    {
        let v = numbers[k];
        numbers.set(k, v * 2);
        k = k + 1;
    }
}

} // verus!
