use vstd::prelude::*;

verus! {

/// `lights` lists, in increasing order, exactly the positions at which `emissive` is true.
pub open spec fn lists_emitters(lights: Seq<usize>, emissive: Seq<bool>) -> bool {
    &&& forall|k: int| 0 <= k < lights.len() ==> (#[trigger] lights[k]) < emissive.len() && emissive[lights[k] as int]
    &&& forall|k1: int, k2: int| 0 <= k1 < k2 < lights.len() ==> (#[trigger] lights[k1]) < (#[trigger] lights[k2])
    &&& forall|i: int| 0 <= i < emissive.len() && (#[trigger] emissive[i]) ==> lights.contains(i as usize)
}

/// Collects the indices of the scene's objects that emit light, given for each object
/// whether its material's emittance is positive.
pub fn light_indices(emissive: &Vec<bool>) -> (r: Vec<usize>)
    ensures
        lists_emitters(r@, emissive@),
{
    let mut lights: Vec<usize> = Vec::new();
    let mut i: usize = 0;
    while i < emissive.len()
        invariant
            0 <= i <= emissive@.len(),
            forall|k: int| 0 <= k < lights@.len() ==> (#[trigger] lights@[k]) < i && emissive@[lights@[k] as int],
            forall|k1: int, k2: int| 0 <= k1 < k2 < lights@.len() ==> (#[trigger] lights@[k1]) < (#[trigger] lights@[k2]),
            forall|j: int| 0 <= j < i && (#[trigger] emissive@[j]) ==> lights@.contains(j as usize),
        decreases emissive@.len() - i,
    {
        if emissive[i] {
            let ghost before = lights@;
            lights.push(i);
            proof {
                assert forall|j: int| 0 <= j < i + 1 && (#[trigger] emissive@[j]) implies lights@.contains(j as usize) by {
                    if j < i {
                        let w = choose|w: int| 0 <= w < before.len() && before[w] == j as usize;
                        assert(lights@[w] == j as usize);
                    } else {
                        assert(lights@[lights@.len() - 1] == i);
                    }
                }
            }
        }
        i = i + 1;
    }
    lights
}

} // verus!
