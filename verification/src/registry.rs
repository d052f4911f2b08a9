//! The static registry of downstream services to probe.

use vstd::prelude::*;

verus! {

/// Every name in a registry occurs at most once: a target's identity is its
/// name.
pub open spec fn unique_names(r: Seq<(&'static str, &'static str)>) -> bool {
    forall|i: int, j: int| 0 <= i < j < r.len() ==> r[i].0@ != r[j].0@
}

/// Service endpoints to check, as (name, URL) pairs, using the compose
/// network's service names. Fixed at startup; names are pairwise distinct.
pub fn get_service_endpoints() -> (r: Vec<(&'static str, &'static str)>)
    ensures
        r@.len() == 4,
        r@[0].0@ == "python"@ && r@[0].1@ == "http://metrics:8000/health"@,
        r@[1].0@ == "go"@ && r@[1].1@ == "http://load:8002/health"@,
        r@[2].0@ == "cpp"@ && r@[2].1@ == "http://chaos:8003/health"@,
        r@[3].0@ == "java"@ && r@[3].1@ == "http://rules:8080/health"@,
        unique_names(r@),
{
    let mut r: Vec<(&'static str, &'static str)> = Vec::new();
    r.push(("python", "http://metrics:8000/health"));
    r.push(("go", "http://load:8002/health"));
    r.push(("cpp", "http://chaos:8003/health"));
    r.push(("java", "http://rules:8080/health"));
    proof {
        reveal_strlit("python");
        reveal_strlit("go");
        reveal_strlit("cpp");
        reveal_strlit("java");
        assert("python"@.len() == 6);
        assert("go"@.len() == 2);
        assert("cpp"@.len() == 3);
        assert("java"@.len() == 4);
        assert(r@[0].0@ == "python"@);
        assert(r@[0].0@ != r@[1].0@ && r@[0].0@ != r@[2].0@ && r@[0].0@ != r@[3].0@);
        assert(r@[1].0@ != r@[2].0@ && r@[1].0@ != r@[3].0@);
        assert(r@[2].0@ != r@[3].0@);
        assert(unique_names(r@));
    }
    r
}

} // verus!
