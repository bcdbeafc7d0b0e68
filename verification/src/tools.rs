use vstd::prelude::*;

verus! {

/// Whether two byte strings hold the same bytes.
pub fn bytes_eq(a: &Vec<u8>, b: &Vec<u8>) -> (r: bool)
    ensures
        r == (a@ == b@),
{
    if a.len() != b.len() {
        return false;
    }
    let mut i: usize = 0;
    while i < a.len()
        invariant
            i <= a@.len(),
            a@.len() == b@.len(),
            forall|j: int| 0 <= j < i ==> a@[j] == b@[j],
        decreases a@.len() - i,
    {
        if a[i] != b[i] {
            return false;
        }
        i += 1;
    }
    proof {
        assert(a@ =~= b@);
    }
    true
}

/// Whether one of the byte strings in `names` holds exactly `name`.
pub open spec fn contains_bytes(names: Seq<Vec<u8>>, name: Seq<u8>) -> bool {
    exists|i: int| 0 <= i < names.len() && names[i]@ == name
}

pub fn contains_name(names: &Vec<Vec<u8>>, name: &Vec<u8>) -> (r: bool)
    ensures
        r == contains_bytes(names@, name@),
{
    let mut i: usize = 0;
    while i < names.len()
        invariant
            i <= names@.len(),
            forall|j: int| 0 <= j < i ==> names@[j]@ != name@,
        decreases names@.len() - i,
    {
        if bytes_eq(&names[i], name) {
            return true;
        }
        i += 1;
    }
    false
}

/// Whether every byte string in `required` also stands in `available`.
pub open spec fn all_contained(required: Seq<Vec<u8>>, available: Seq<Vec<u8>>) -> bool {
    forall|i: int| 0 <= i < required.len() ==> contains_bytes(available, required[i]@)
}

/// The characters of a driver-reported name: the bytes of `raw` before
/// its first terminating zero.
pub fn vk_to_string(raw: &Vec<u8>) -> (s: Vec<u8>)
    requires
        exists|k: int| 0 <= k < raw@.len() && raw@[k] == 0,
    ensures
        s@.len() < raw@.len(),
        s@ == raw@.take(s@.len() as int),
        forall|j: int| 0 <= j < s@.len() ==> raw@[j] != 0,
        raw@[s@.len() as int] == 0,
{
    let n: usize = raw.len();
    let mut s: Vec<u8> = Vec::new();
    let mut i: usize = 0;
    proof {
        let k = choose|k: int| 0 <= k < raw@.len() && raw@[k] == 0;
        assert(i <= k < raw@.len());
    }
    while raw[i] != 0
        invariant
            n == raw@.len(),
            i < n,
            s@ =~= raw@.take(i as int),
            forall|j: int| 0 <= j < i ==> raw@[j] != 0,
            exists|k: int| 0 <= k < raw@.len() && raw@[k] == 0,
        decreases raw@.len() - i,
    {
        s.push(raw[i]);
        proof {
            let k = choose|k: int| 0 <= k < raw@.len() && raw@[k] == 0;
            assert(k > i);
        }
        i += 1;
        proof {
            assert(s@ =~= raw@.take(i as int));
        }
    }
    s
}

} // verus!
