//! The local poster cache: under which file name a fetched poster is kept.
use vstd::prelude::*;

verus! {

/// The file name a poster is cached under: the last segment of the path of
/// the address it was fetched from. `None` when the address has no path
/// segments (it cannot be a base), and then the poster is not cached.
pub fn poster_file_name(segments: Option<Vec<String>>) -> (r: Option<String>)
    ensures
        match segments {
            None => r is None,
            Some(v) => if v@.len() == 0 {
                r is None
            } else {
                r matches Some(name) && name@ == v@.last()@
            },
        },
{
    match segments {
        None => None,
        Some(v) => {
            let n = v.len();
            if n == 0 {
                None
            } else {
                Some(v[n - 1].clone())
            }
        },
    }
}

} // verus!
