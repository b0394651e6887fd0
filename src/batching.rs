use vstd::prelude::*;

verus! {

/// Number of batches a data source of `num_samples` items yields with
/// batches of `batch_size`: the last batch keeps the remaining items even
/// when fewer than `batch_size` are left.
pub open spec fn batch_count_spec(num_samples: nat, batch_size: nat) -> nat
    recommends
        batch_size > 0,
{
    if num_samples % batch_size == 0 {
        num_samples / batch_size
    } else {
        num_samples / batch_size + 1
    }
}

/// The number of batches, with the last one possibly short.
pub fn batch_count(num_samples: usize, batch_size: usize) -> (r: usize)
    requires
        batch_size > 0,
    ensures
        r == batch_count_spec(num_samples as nat, batch_size as nat),
        (r as int - 1) * batch_size < num_samples <= r * batch_size,
{
    let q: usize = num_samples / batch_size;
    let r: usize = if num_samples % batch_size == 0 {
        q
    } else {
        assert(q < num_samples) by (nonlinear_arith)
            requires
                q == num_samples as int / batch_size as int,
                num_samples as int % batch_size as int != 0,
                batch_size > 0,
        {
            assert(batch_size >= 2);
        }
        q + 1
    };
    proof {
        let n = num_samples as int;
        let b = batch_size as int;
        assert(n == b * (n / b) + n % b) by (nonlinear_arith)
            requires b > 0;
        assert(0 <= n % b < b) by (nonlinear_arith)
            requires b > 0;
        assert((r as int - 1) * b == r as int * b - b) by (nonlinear_arith);
        if n % b == 0 {
            assert(r as int * b == (n / b) * b) by (nonlinear_arith)
                requires r as int == n / b;
        } else {
            assert(r as int * b == (n / b) * b + b) by (nonlinear_arith)
                requires r as int == n / b + 1;
        }
    }
    r
}

} // verus!
