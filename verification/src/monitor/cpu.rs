//! Processor identification.
use vstd::prelude::*;

verus! {

/// The processor brand and the number of logical cores, given the brand
/// string that each logical core reports: the first core's brand, or
/// "Unknown" when no core is reported, and the core count as `u32`.
pub fn get_cpu_info(brands: &Vec<String>) -> (r: (String, u32))
    ensures
        brands.len() > 0 ==> r.0@ == brands[0]@,
        brands.len() == 0 ==> r.0@ == "Unknown"@,
        r.1 == brands.len() as u32,
{
    let brand = if brands.len() > 0 {
        brands[0].clone()
    } else {
        String::from_str("Unknown")
    };
    (brand, brands.len() as u32)
}

} // verus!
