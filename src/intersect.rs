use vstd::prelude::*;

verus! {

/// One of the two roots of a ray's quadratic against a sphere, the nearer
/// one being the smaller ray parameter.
#[derive(Clone, Copy, Debug, PartialEq, Eq, Structural)]
pub enum Root {
    Near,
    Far,
}

/// Which root a sphere reports, given whether the discriminant is negative
/// and whether each root lies strictly inside the accepted interval of ray
/// parameters: none when the ray misses the sphere, else the first of the
/// two, in ascending order, that lies inside.
pub open spec fn root_spec(discriminant_negative: bool, near_inside: bool, far_inside: bool) -> Option<Root> {
    if discriminant_negative {
        None
    } else if near_inside {
        Some(Root::Near)
    } else if far_inside {
        Some(Root::Far)
    } else {
        None
    }
}

/// Picks the root that a sphere reports as its hit.
pub fn pick_root(discriminant_negative: bool, near_inside: bool, far_inside: bool) -> (r: Option<Root>)
    ensures
        r == root_spec(discriminant_negative, near_inside, far_inside),
        r is None <==> discriminant_negative || (!near_inside && !far_inside),
        !discriminant_negative && near_inside ==> r == Some(Root::Near),
{
    if discriminant_negative {
        None
    } else if near_inside {
        Some(Root::Near)
    } else if far_inside {
        Some(Root::Far)
    } else {
        None
    }
}

} // verus!
