//! Choosing the port to connect to. Opening the port is left to the caller.
use vstd::prelude::*;

verus! {

/// Whether a port whose name was read as `name` is the device `device`; a
/// port whose name could not be read matches nothing.
pub open spec fn names_device(name: Option<String>, device: Seq<char>) -> bool {
    match name {
        Some(n) => n@ == device,
        None => false,
    }
}

/// Index of the first port named `device`, given the names read from the
/// ports in their order (`None` where a name could not be read).
pub fn find_port(names: &Vec<Option<String>>, device: &str) -> (r: Option<usize>)
    ensures
        r matches Some(i) ==> i < names@.len() && names_device(names@[i as int], device@),
        forall|j: int|
            0 <= j < names@.len() && (r matches Some(i) ==> j < i) ==> !names_device(
                #[trigger] names@[j],
                device@,
            ),
{
    let wanted = device.to_owned();
    let mut i: usize = 0;
    while i < names.len()
        invariant
            i <= names@.len(),
            wanted@ == device@,
            forall|j: int| 0 <= j < i ==> !names_device(#[trigger] names@[j], device@),
        decreases names@.len() - i,
    {
        match &names[i] {
            Some(name) => {
                if *name == wanted {
                    return Some(i);
                }
            },
            None => {},
        }
        i = i + 1;
    }
    None
}

} // verus!
