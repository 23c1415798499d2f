//! Pallets that are left out of a runtime's configuration.

use vstd::prelude::*;

verus! {

/// The name of the one pallet that is left out: the bytes of
/// `frame_support`.
pub open spec fn excluded_name() -> Seq<u8> {
    seq![102u8, 114u8, 97u8, 109u8, 101u8, 95u8, 115u8, 117u8, 112u8, 112u8, 111u8, 114u8, 116u8]
}

/// The set of pallet names that are left out.
pub struct ExcludedPallets;

impl ExcludedPallets {
    /// Whether the pallet with the name `i` is left out.
    pub fn contains(i: &Vec<u8>) -> (excluded: bool)
        ensures
            excluded == (i@ == excluded_name()),
    {
        let name: Vec<u8> = vec![102u8, 114u8, 97u8, 109u8, 101u8, 95u8, 115u8, 117u8, 112u8, 112u8, 111u8, 114u8, 116u8];
        assert(name@ =~= excluded_name());
        if i.len() != name.len() {
            return false;
        }
        let mut k: usize = 0;
        while k < name.len()
            invariant
                k <= name.len(),
                i@.len() == name@.len(),
                name@ == excluded_name(),
                forall|j: int| 0 <= j < k ==> i@[j] == name@[j],
            decreases name.len() - k,
        {
            if i[k] != name[k] {
                return false;
            }
            k += 1;
        }
        assert(i@ =~= name@);
        true
    }
}

} // verus!
