//! Choice of a device memory type for an allocation.
use vstd::prelude::*;

verus! {

/// Whether memory type `i` may back the resource (its bit is set in
/// `type_bits`) and has every property flag in `required`.
pub open spec fn memory_type_suitable(
    property_flags: Seq<u32>,
    type_bits: u32,
    required: u32,
    i: int,
) -> bool {
    &&& 0 <= i < property_flags.len()
    &&& type_bits & (1u32 << (i as u32)) != 0
    &&& property_flags[i] & required == required
}

/// The first memory type that may back a resource with the given
/// `memory_type_bits` requirement and has all the `required` property flags.
/// `property_flags` holds the property flags of each of the device's memory
/// types, in order; a device has at most 32 of them.
pub fn find_memory_type(property_flags: &[u32], type_bits: u32, required: u32) -> (r: Option<u32>)
    requires
        property_flags@.len() <= 32,
    ensures
        match r {
            Some(i) => {
                &&& memory_type_suitable(property_flags@, type_bits, required, i as int)
                &&& forall|j: int|
                    0 <= j < i ==> !memory_type_suitable(property_flags@, type_bits, required, j)
            },
            None => forall|j: int|
                0 <= j < property_flags@.len() ==> !memory_type_suitable(
                    property_flags@,
                    type_bits,
                    required,
                    j,
                ),
        },
{
    let count = property_flags.len() as u32;
    let mut i: u32 = 0;
    while i < count
        invariant
            count as int == property_flags@.len(),
            count <= 32,
            i <= count,
            forall|j: int|
                0 <= j < i ==> !memory_type_suitable(property_flags@, type_bits, required, j),
        decreases count - i,
    {
        if (type_bits & (1u32 << i)) != 0 && property_flags[i as usize] & required == required {
            return Some(i);
        }
        i += 1;
    }
    None
}

} // verus!
