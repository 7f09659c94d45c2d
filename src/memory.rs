//! Choosing a memory type for an allocation.
use vstd::prelude::*;

verus! {

/// `VK_MAX_MEMORY_TYPES`: a device reports at most this many memory types.
pub const MAX_MEMORY_TYPES: usize = 32;

/// Memory type `i` is allowed by the requirement bits and has every wanted
/// property flag.
pub open spec fn memory_type_fits(
    property_flags: Seq<u32>,
    type_bits: u32,
    properties: u32,
    i: int,
) -> bool {
    &&& 0 <= i < property_flags.len()
    &&& type_bits & (1u32 << (i as u32)) != 0
    &&& property_flags[i] & properties == properties
}

/// The first memory type, among those whose property flags are listed in
/// `property_flags`, that the requirement bits allow and that has all of
/// `properties`; `None` when there is none.
pub fn get_memory_type_index(property_flags: &Vec<u32>, type_bits: u32, properties: u32) -> (r:
    Option<u32>)
    requires
        property_flags@.len() <= MAX_MEMORY_TYPES,
    ensures
        r is None <==> forall|i: int|
            0 <= i < property_flags@.len() ==> !#[trigger] memory_type_fits(
                property_flags@,
                type_bits,
                properties,
                i,
            ),
        r matches Some(i) ==> {
            &&& memory_type_fits(property_flags@, type_bits, properties, i as int)
            &&& forall|j: int|
                0 <= j < i ==> !#[trigger] memory_type_fits(
                    property_flags@,
                    type_bits,
                    properties,
                    j,
                )
        },
{
    let mut i: usize = 0;
    while i < property_flags.len()
        invariant
            i <= property_flags@.len() <= MAX_MEMORY_TYPES,
            forall|j: int|
                0 <= j < i ==> !#[trigger] memory_type_fits(
                    property_flags@,
                    type_bits,
                    properties,
                    j,
                ),
        decreases property_flags@.len() - i,
    {
        let bit = 1u32 << (i as u32);
        if type_bits & bit != 0 && property_flags[i] & properties == properties {
            assert(memory_type_fits(property_flags@, type_bits, properties, i as int));
            return Some(i as u32);
        }
        i += 1;
    }
    None
}

} // verus!
