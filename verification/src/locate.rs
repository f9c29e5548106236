//! Installation Locator: resolves the launcher executable's path from an
//! environment-supplied override and a fixed ordered candidate list.
//!
//! The filesystem itself is out of reach here: the driver performs the
//! existence checks and hands in their results. Resolution is then a pure,
//! deterministic first-match scan, proved to honour the declared precedence:
//! override first, then the candidates in order.

use vstd::prelude::*;

verus! {

/// First candidate whose existence flag is set, scanning in order.
pub open spec fn spec_first_existing(cands: Seq<Seq<char>>, present: Seq<bool>) -> Option<
    Seq<char>,
>
    decreases cands.len(),
{
    if cands.len() == 0 {
        None
    } else if present[0] {
        Some(cands[0])
    } else {
        spec_first_existing(cands.drop_first(), present.drop_first())
    }
}

/// The resolved installation path: the override when it is set and its
/// filesystem entry exists, else the first existing candidate, else none.
pub open spec fn spec_resolve(
    ov: Option<Seq<char>>,
    ov_exists: bool,
    cands: Seq<Seq<char>>,
    present: Seq<bool>,
) -> Option<Seq<char>> {
    if ov is Some && ov_exists {
        Some(ov->0)
    } else {
        spec_first_existing(cands, present)
    }
}

/// Override precedence: whenever the override is set and exists, resolution
/// returns exactly the override path, whatever the candidate flags say.
pub proof fn lemma_override_precedence(
    ov: Seq<char>,
    cands: Seq<Seq<char>>,
    present: Seq<bool>,
)
    ensures
        spec_resolve(Some(ov), true, cands, present) == Some(ov),
{
}

/// First-match-wins: when no override applies, the result is the candidate
/// at the least index whose existence flag is set, and resolution fails only
/// when no flag is set at all.
pub proof fn lemma_first_match(cands: Seq<Seq<char>>, present: Seq<bool>)
    requires
        present.len() == cands.len(),
    ensures
        (spec_first_existing(cands, present) is None <==> forall|i: int|
            0 <= i < cands.len() ==> !present[i]),
        spec_first_existing(cands, present) matches Some(p) ==> exists|i: int|
            {
                &&& 0 <= i < cands.len()
                &&& present[i]
                &&& p == cands[i]
                &&& forall|j: int| 0 <= j < i ==> !present[j]
            },
    decreases cands.len(),
{
    if cands.len() == 0 {
    } else if present[0] {
        let i = 0int;
        assert({
            &&& 0 <= i < cands.len()
            &&& present[i]
            &&& cands[0] == cands[i]
            &&& forall|j: int| 0 <= j < i ==> !present[j]
        });
    } else {
        lemma_first_match(cands.drop_first(), present.drop_first());
        assert(spec_first_existing(cands, present) == spec_first_existing(
            cands.drop_first(),
            present.drop_first(),
        ));
        if spec_first_existing(cands, present) is None {
            assert forall|i: int| 0 <= i < cands.len() implies !present[i] by {
                if i > 0 {
                    assert(!present.drop_first()[i - 1]);
                }
            }
        } else {
            let p = spec_first_existing(cands, present)->0;
            let i = choose|i: int|
                {
                    &&& 0 <= i < cands.drop_first().len()
                    &&& present.drop_first()[i]
                    &&& p == cands.drop_first()[i]
                    &&& forall|j: int| 0 <= j < i ==> !present.drop_first()[j]
                };
            assert(present[i + 1] == present.drop_first()[i]);
            assert(p == cands.drop_first()[i]);
            assert(cands.drop_first()[i] == cands[i + 1]);
            assert forall|j: int| 0 <= j < i + 1 implies !present[j] by {
                if j > 0 {
                    assert(!present.drop_first()[j - 1]);
                }
            }
            assert({
                &&& 0 <= i + 1 < cands.len()
                &&& present[i + 1]
                &&& p == cands[i + 1]
                &&& forall|j: int| 0 <= j < i + 1 ==> !present[j]
            });
        }
    }
}

/// Resolve an installation path from the override and the candidate list,
/// given the driver's existence check for the override and for each
/// candidate (`present[i]` reports on `candidates[i]`).
pub fn resolve_install_path(
    override_path: Option<String>,
    override_exists: bool,
    candidates: &Vec<String>,
    present: &Vec<bool>,
) -> (r: Option<String>)
    requires
        present@.len() == candidates@.len(),
    ensures
        r.deep_view() == spec_resolve(
            override_path.deep_view(),
            override_exists,
            candidates.deep_view(),
            present@,
        ),
{
    if override_exists && override_path.is_some() {
        return override_path;
    }
    proof {
        assert(candidates.deep_view().skip(0) =~= candidates.deep_view());
        assert(present@.skip(0) =~= present@);
    }
    let mut i: usize = 0;
    while i < candidates.len()
        invariant
            0 <= i <= candidates@.len(),
            present@.len() == candidates@.len(),
            !(override_exists && override_path is Some),
            spec_first_existing(candidates.deep_view(), present@) == spec_first_existing(
                candidates.deep_view().skip(i as int),
                present@.skip(i as int),
            ),
            forall|j: int| 0 <= j < i ==> !present@[j],
        decreases candidates@.len() - i,
    {
        proof {
            assert(candidates.deep_view().skip(i as int)[0] == candidates@[i as int]@);
            assert(present@.skip(i as int)[0] == present@[i as int]);
        }
        if present[i] {
            let p = candidates[i].clone();
            proof {
                assert(spec_first_existing(
                    candidates.deep_view().skip(i as int),
                    present@.skip(i as int),
                ) == Some(candidates@[i as int]@));
                assert(spec_resolve(
                    override_path.deep_view(),
                    override_exists,
                    candidates.deep_view(),
                    present@,
                ) == Some(candidates@[i as int]@));
            }
            return Some(p);
        }
        proof {
            assert(candidates.deep_view().skip(i as int).drop_first() =~= candidates.deep_view()
                .skip(i as int + 1));
            assert(present@.skip(i as int).drop_first() =~= present@.skip(i as int + 1));
        }
        i += 1;
    }
    proof {
        assert(candidates.deep_view().skip(i as int).len() == 0);
    }
    None
}

/// The fixed, ordered list of platform-conventional installation
/// candidates for the client's launcher executable.
pub open spec fn spec_install_candidates() -> Seq<Seq<char>> {
    seq![
        "C:\\Riot Games\\Riot Client\\RiotClientServices.exe"@,
        "C:\\Program Files\\Riot Games\\Riot Client\\RiotClientServices.exe"@,
        "/Applications/Riot Client.app/Contents/MacOS/Riot Client"@,
    ]
}

/// The candidate list as runtime values, in the declared order.
pub fn install_candidates() -> (r: Vec<String>)
    ensures
        r.deep_view() == spec_install_candidates(),
{
    let mut r: Vec<String> = Vec::new();
    r.push(String::from_str("C:\\Riot Games\\Riot Client\\RiotClientServices.exe"));
    r.push(String::from_str("C:\\Program Files\\Riot Games\\Riot Client\\RiotClientServices.exe"));
    r.push(String::from_str("/Applications/Riot Client.app/Contents/MacOS/Riot Client"));
    proof {
        assert(r.deep_view() =~= spec_install_candidates());
    }
    r
}

/// The Locator's decision over the built-in candidate list: `present[i]`
/// reports whether `install_candidates()[i]` exists on the filesystem.
pub fn find_riot_client_path(
    override_path: Option<String>,
    override_exists: bool,
    present: &Vec<bool>,
) -> (r: Option<String>)
    requires
        present@.len() == spec_install_candidates().len(),
    ensures
        r.deep_view() == spec_resolve(
            override_path.deep_view(),
            override_exists,
            spec_install_candidates(),
            present@,
        ),
{
    let candidates = install_candidates();
    resolve_install_path(override_path, override_exists, &candidates, present)
}

} // verus!
