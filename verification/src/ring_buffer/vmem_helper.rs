//! Size arithmetic for storage backings whose allocation must be a whole
//! number of host pages.  Reading the page size itself is host work and is
//! left to the caller.

use vstd::prelude::*;
use vstd::arithmetic::div_mod::lemma_fundamental_div_mod;
use vstd::arithmetic::div_mod::lemma_mod_multiples_basic;

verus! {

/// The least multiple of `page_size` that is at least `min_size`.
pub fn get_page_size_mul(min_size: usize, page_size: usize) -> (r: usize)
    requires
        page_size >= 1,
        min_size + page_size <= usize::MAX,
    ensures
        r as int % page_size as int == 0,
        min_size <= r,
        r < min_size + page_size,
{
    let rem = min_size % page_size;
    if rem == 0 {
        proof {
            lemma_fundamental_div_mod(min_size as int, page_size as int);
            lemma_mod_multiples_basic(
                min_size as int / page_size as int,
                page_size as int,
            );
        }
        min_size
    } else {
        proof {
            lemma_fundamental_div_mod(min_size as int, page_size as int);
            assert(rem <= min_size) by (nonlinear_arith)
                requires
                    min_size as int == page_size as int * (min_size as int / page_size as int)
                        + rem as int,
                    page_size as int >= 1,
                    min_size as int / page_size as int >= 0,
                    rem as int >= 0,
            ;
        }
        let r = min_size - rem + page_size;
        proof {
            lemma_mod_multiples_basic(
                min_size as int / page_size as int + 1,
                page_size as int,
            );
            assert(r as int == (min_size as int / page_size as int + 1) * page_size as int)
                by (nonlinear_arith)
                requires
                    min_size as int == page_size as int * (min_size as int / page_size as int)
                        + rem as int,
                    r as int == min_size as int - rem as int + page_size as int,
            ;
        }
        r
    }
}

} // verus!
