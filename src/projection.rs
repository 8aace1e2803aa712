//! Turning cached attacks into map line segments between the countries'
//! coordinates.

use vstd::prelude::*;
use crate::feed::{AttackView, DDOSAttack};

verus! {

#[verifier::external_type_specification]
#[verifier::external_body]
pub struct ExCountry(nationify::Country);

/// The entry of the country table for an ISO alpha-2 code, if it has one.
pub uninterp spec fn country_for(code: Seq<char>) -> Option<&'static nationify::Country>;

/// Whether the country table knows an ISO alpha-2 code.
pub open spec fn iso_code_known(code: Seq<char>) -> bool {
    country_for(code) is Some
}

/// Relies on `nationify::by_iso_code`: a lookup of the code in the crate's
/// fixed country table, so the entry depends on the code alone.
#[verifier::external_body]
fn lookup_country(code: &str) -> (r: Option<&'static nationify::Country>)
    ensures
        r == country_for(code@),
{
    nationify::by_iso_code(code)
}

/// A line from the origin country to the target country of one cached
/// attack, which stays at its world position whatever region is focused.
#[derive(Clone, Copy, Debug)]
pub struct Segment {
    /// Position of the attack in the cache.
    pub record: usize,
    pub origin: &'static nationify::Country,
    pub target: &'static nationify::Country,
}

/// The positions, in order, whose flag is set.
pub open spec fn kept_indices(ok: Seq<bool>) -> Seq<int>
    decreases ok.len(),
{
    if ok.len() == 0 {
        Seq::empty()
    } else {
        let rest = kept_indices(ok.drop_last());
        if ok.last() {
            rest.push(ok.len() - 1)
        } else {
            rest
        }
    }
}

/// How many flags are clear.
pub open spec fn unresolved_count(ok: Seq<bool>) -> nat
    decreases ok.len(),
{
    if ok.len() == 0 {
        0
    } else {
        unresolved_count(ok.drop_last()) + if ok.last() {
            0nat
        } else {
            1nat
        }
    }
}

/// Whether both endpoints of a lookup pair were found.
pub open spec fn both_found(p: (Option<&'static nationify::Country>, Option<&'static nationify::Country>)) -> bool {
    p.0 is Some && p.1 is Some
}

/// Whether both country codes of an attack are known.
pub open spec fn both_known(a: AttackView) -> bool {
    iso_code_known(a.origin_code) && iso_code_known(a.target_code)
}

/// The flags of a sequence of lookup pairs.
pub open spec fn found_flags(
    lookups: Seq<(Option<&'static nationify::Country>, Option<&'static nationify::Country>)>,
) -> Seq<bool> {
    lookups.map_values(|p: (Option<&'static nationify::Country>, Option<&'static nationify::Country>)| both_found(p))
}

/// The flags of a sequence of attacks.
pub open spec fn known_flags(attacks: Seq<DDOSAttack>) -> Seq<bool> {
    attacks.map_values(|a: DDOSAttack| both_known(a@))
}

proof fn lemma_kept_indices_bounds(ok: Seq<bool>)
    ensures
        forall|k: int|
            0 <= k < kept_indices(ok).len() ==> 0 <= #[trigger] kept_indices(ok)[k] < ok.len()
                && ok[kept_indices(ok)[k]],
    decreases ok.len(),
{
    if ok.len() > 0 {
        let rest = ok.drop_last();
        lemma_kept_indices_bounds(rest);
        assert forall|k: int| 0 <= k < kept_indices(ok).len() implies 0 <= #[trigger] kept_indices(
            ok,
        )[k] < ok.len() && ok[kept_indices(ok)[k]] by {
            if k < kept_indices(rest).len() {
                assert(rest[kept_indices(rest)[k]] == ok[kept_indices(rest)[k]]);
            }
        }
    }
}

/// One segment per lookup pair whose two countries were found, in the order
/// of the pairs; a pair with a missing country is skipped.
pub fn pair_endpoints(lookups: Vec<(Option<&'static nationify::Country>, Option<&'static nationify::Country>)>) -> (r:
    Vec<Segment>)
    ensures
        r@.len() == kept_indices(found_flags(lookups@)).len(),
        forall|k: int|
            0 <= k < r@.len() ==> {
                let i = kept_indices(found_flags(lookups@))[k];
                &&& (#[trigger] r@[k]).record == i
                &&& Some(r@[k].origin) == lookups@[i].0
                &&& Some(r@[k].target) == lookups@[i].1
            },
{
    let mut r: Vec<Segment> = Vec::new();
    let mut i: usize = 0;
    let ghost flags = found_flags(lookups@);
    while i < lookups.len()
        invariant
            i <= lookups@.len(),
            flags == found_flags(lookups@),
            r@.len() == kept_indices(flags.subrange(0, i as int)).len(),
            forall|k: int|
                0 <= k < r@.len() ==> {
                    let j = kept_indices(flags.subrange(0, i as int))[k];
                    &&& (#[trigger] r@[k]).record == j
                    &&& Some(r@[k].origin) == lookups@[j].0
                    &&& Some(r@[k].target) == lookups@[j].1
                },
        decreases lookups@.len() - i,
    {
        proof {
            assert(flags.subrange(0, i as int + 1).drop_last() =~= flags.subrange(0, i as int));
        }
        let pair = &lookups[i];
        match (&pair.0, &pair.1) {
            (Some(o), Some(t)) => {
                r.push(Segment { record: i, origin: *o, target: *t });
            },
            _ => {},
        }
        i = i + 1;
    }
    proof {
        assert(flags.subrange(0, i as int) =~= flags);
    }
    r
}

/// The line segments of the cached attacks: one for each attack whose two
/// country codes are known, in cache order, from its origin country to its
/// target country; an attack with an unknown code is skipped and the others
/// are still drawn.
pub fn project_lines(attacks: &Vec<DDOSAttack>) -> (r: Vec<Segment>)
    ensures
        r@.len() == kept_indices(known_flags(attacks@)).len(),
        forall|k: int|
            0 <= k < r@.len() ==> {
                let i = kept_indices(known_flags(attacks@))[k];
                &&& (#[trigger] r@[k]).record == i
                &&& Some(r@[k].origin) == country_for(attacks@[i]@.origin_code)
                &&& Some(r@[k].target) == country_for(attacks@[i]@.target_code)
            },
{
    let mut lookups: Vec<(Option<&'static nationify::Country>, Option<&'static nationify::Country>)> = Vec::new();
    let mut i: usize = 0;
    while i < attacks.len()
        invariant
            i <= attacks@.len(),
            lookups@.len() == i,
            forall|k: int|
                0 <= k < i ==> #[trigger] lookups@[k] == (
                    country_for(attacks@[k]@.origin_code),
                    country_for(attacks@[k]@.target_code),
                ),
        decreases attacks@.len() - i,
    {
        let (origin, target) = attacks[i].get_codes();
        lookups.push((lookup_country(origin), lookup_country(target)));
        i = i + 1;
    }
    proof {
        assert(found_flags(lookups@) =~= known_flags(attacks@));
    }
    let r = pair_endpoints(lookups);
    proof {
        lemma_kept_indices_bounds(known_flags(attacks@));
    }
    r
}

proof fn lemma_kept_and_unresolved(ok: Seq<bool>)
    ensures
        kept_indices(ok).len() + unresolved_count(ok) == ok.len(),
        forall|k: int|
            0 <= k < kept_indices(ok).len() ==> 0 <= #[trigger] kept_indices(ok)[k] < ok.len()
                && ok[kept_indices(ok)[k]],
        forall|i: int| 0 <= i < ok.len() && #[trigger] ok[i] ==> kept_indices(ok).contains(i),
    decreases ok.len(),
{
    lemma_kept_indices_bounds(ok);
    if ok.len() > 0 {
        let rest = ok.drop_last();
        lemma_kept_and_unresolved(rest);
        assert forall|i: int| 0 <= i < ok.len() && #[trigger] ok[i] implies kept_indices(ok).contains(i) by {
            if i < ok.len() - 1 {
                assert(rest[i] == ok[i]);
                let k = choose|k: int| 0 <= k < kept_indices(rest).len() && kept_indices(rest)[k] == i;
                if ok.last() {
                    assert(kept_indices(ok)[k] == i);
                } else {
                    assert(kept_indices(ok)[k] == i);
                }
            } else {
                assert(kept_indices(ok).last() == i);
            }
        }
    }
}

/// Of the attacks in a cache, as many segments are drawn as there are
/// attacks with both codes known, that is the cache's length less the
/// attacks with an unknown code; each segment comes from an attack with both
/// codes known, and every such attack gets its segment whatever the others
/// hold.
pub proof fn lemma_projection_counts(cache: Seq<DDOSAttack>)
    ensures
        kept_indices(known_flags(cache)).len() == cache.len() - unresolved_count(known_flags(cache)),
        forall|k: int|
            0 <= k < kept_indices(known_flags(cache)).len() ==> {
                let i = #[trigger] kept_indices(known_flags(cache))[k];
                0 <= i < cache.len() && both_known(cache[i]@)
            },
        forall|i: int|
            0 <= i < cache.len() && both_known(#[trigger] cache[i]@) ==> kept_indices(
                known_flags(cache),
            ).contains(i),
{
    let ok = known_flags(cache);
    lemma_kept_and_unresolved(ok);
    assert forall|i: int| 0 <= i < cache.len() && both_known(#[trigger] cache[i]@) implies kept_indices(
        ok,
    ).contains(i) by {
        assert(ok[i]);
    }
}

} // verus!
