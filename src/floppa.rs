//! The floppa image collection: picking an image by number, and telling a
//! new image from one that is already stored.

use vstd::prelude::*;
use crate::text::same_text;

verus! {

/// The stored image a requested number names, among `count` images
/// numbered from 1: numbers wrap around in both directions.
pub open spec fn wrapped_number(n: int, count: int) -> int {
    (n - 1) % count + 1
}

/// The stored image a requested number names, among `count` images.
pub fn floppa_number(n: i64, count: i64) -> (r: i64)
    requires
        count > 0,
    ensures
        r == wrapped_number(n as int, count as int),
        1 <= r <= count,
{
    let c = count as u64;
    if n >= 1 {
        let k = ((n - 1) as u64) % c;
        (k + 1) as i64
    } else {
        let m: u64 = (1i128 - n as i128) as u64;
        let k = m % c;
        proof {
            let ci = c as int;
            let mi = m as int;
            let ki = k as int;
            assert(mi == ki + (mi / ci) * ci) by (nonlinear_arith)
                requires
                    ki == mi % ci,
                    ci > 0,
            ;
            let q = mi / ci;
            assert((n as int) - 1 == -mi);
            if ki == 0 {
                assert(-mi == (-q) * ci) by (nonlinear_arith)
                    requires
                        mi == ki + q * ci,
                        ki == 0,
                ;
                vstd::arithmetic::div_mod::lemma_mod_multiples_basic(-q, ci);
            } else {
                assert(-mi == (-q - 1) * ci + (ci - ki)) by (nonlinear_arith)
                    requires
                        mi == ki + q * ci,
                ;
                vstd::arithmetic::div_mod::lemma_fundamental_div_mod_converse(
                    -mi,
                    ci,
                    -q - 1,
                    ci - ki,
                );
            }
        }
        if k == 0 {
            1
        } else {
            (c - k + 1) as i64
        }
    }
}

/// Whether `url` is not among the stored images.
pub fn is_new_image(images: &Vec<String>, url: &str) -> (r: bool)
    ensures
        r == (forall|i: int| 0 <= i < images@.len() ==> images@[i]@ != url@),
{
    let mut i: usize = 0;
    while i < images.len()
        invariant
            i <= images.len(),
            forall|j: int| 0 <= j < i ==> images@[j]@ != url@,
        decreases images.len() - i,
    {
        if same_text(images[i].as_str(), url) {
            return false;
        }
        i = i + 1;
    }
    true
}

} // verus!
