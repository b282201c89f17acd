//! Resolution of a setting along a chain of `source_profile` links.
use crate::profile::{Profile, ProfileSet};
use aws_types::region::Region;
use vstd::prelude::*;

verus! {

broadcast use vstd::seq_lib::group_seq_properties;

/// `aws_types`' region, carried as an opaque value.
#[verifier::external_type_specification]
#[verifier::external_body]
pub struct ExRegion(Region);

/// The region that `aws_types` builds from a region name.
pub uninterp spec fn region_named(name: Seq<char>) -> Region;

/// Relies on `aws_types::region::Region::new`: the region holds the given
/// name and nothing else, so it is a function of the name alone.
#[verifier::external_body]
fn region_from_name(name: String) -> (r: Region)
    ensures
        r == region_named(name@),
{
    Region::new(name)
}

/// The setting through which a profile names the profile it inherits from.
pub open spec fn source_profile_key() -> Seq<char> {
    "source_profile"@
}

/// The names of `visited`, when held as strings.
pub open spec fn names_view(visited: Seq<String>) -> Seq<Seq<char>> {
    visited.map_values(|s: String| s@)
}

/// The value of `key` found by walking from the profile named `current`,
/// having already walked through the profiles named in `visited`.
///
/// The walk stops with nothing when the profile does not exist, when it was
/// already visited, when it neither holds `key` nor names a source profile,
/// or when it names itself as its source.
pub open spec fn chain_value(
    set: ProfileSet,
    current: Seq<char>,
    key: Seq<char>,
    visited: Seq<Seq<char>>,
) -> Option<Seq<char>>
    decreases set.names().difference(visited.to_set()).len(),
{
    match set.spec_profile(current) {
        None => None,
        Some(p) => {
            if visited.contains(current) {
                None
            } else {
                match p.spec_get(key) {
                    Some(v) => Some(v),
                    None => match p.spec_get(source_profile_key()) {
                        None => None,
                        Some(source) => {
                            if source == current {
                                None
                            } else {
                                proof {
                                    lemma_unvisited_shrinks(set, current, visited);
                                }
                                chain_value(set, source, key, visited.push(current))
                            }
                        },
                    },
                }
            }
        },
    }
}

/// The name of the profile a resolution starts from.
pub open spec fn start_name(set: ProfileSet, profile_override: Option<Seq<char>>) -> Seq<char> {
    match profile_override {
        Some(o) => o,
        None => set.spec_selected(),
    }
}

/// The value of `key` for `set`, starting at the override if one is given and
/// at the selected profile otherwise. An empty set resolves nothing.
pub open spec fn resolved(
    set: ProfileSet,
    profile_override: Option<Seq<char>>,
    key: Seq<char>,
) -> Option<Seq<char>> {
    if set.members().len() == 0 {
        None
    } else {
        chain_value(set, start_name(set, profile_override), key, Seq::empty())
    }
}

/// The view of an optional borrowed name.
pub open spec fn opt_str_view(o: Option<&str>) -> Option<Seq<char>> {
    match o {
        Some(s) => Some(s@),
        None => None,
    }
}

/// The view of an optional owned string.
pub open spec fn opt_string_view(o: Option<String>) -> Option<Seq<char>> {
    match o {
        Some(s) => Some(s@),
        None => None,
    }
}

/// Visiting a profile of the set that was not yet visited leaves one name fewer
/// to visit.
pub proof fn lemma_unvisited_shrinks(set: ProfileSet, current: Seq<char>, visited: Seq<Seq<char>>)
    requires
        set.spec_profile(current) is Some,
        !visited.contains(current),
    ensures
        set.names().difference(visited.push(current).to_set()).len()
            < set.names().difference(visited.to_set()).len(),
{
    let names_seq = set.members().map_values(|p: Profile| p.spec_name());
    let i = choose|i: int|
        0 <= i < set.members().len() && (#[trigger] set.members()[i]).spec_name() == current;
    assert(names_seq[i] == current);
    assert(set.names().contains(current));
    let before = set.names().difference(visited.to_set());
    let after = set.names().difference(visited.push(current).to_set());
    assert(after =~= before.remove(current));
    assert(before.contains(current));
    vstd::set_lib::lemma_len_difference(set.names(), visited.to_set());
    assert(set.names().finite());
    vstd::set_lib::lemma_len_subset(before, set.names());
}

/// Whether `name` occurs in `names`.
fn contains_name(names: &Vec<String>, name: &String) -> (r: bool)
    ensures
        r == names_view(names@).contains(name@),
{
    let mut i: usize = 0;
    while i < names.len()
        invariant
            0 <= i <= names@.len(),
            forall|j: int| 0 <= j < i ==> (#[trigger] names@[j])@ != name@,
        decreases names@.len() - i,
    {
        if names[i] == *name {
            assert(names_view(names@)[i as int] == name@);
            return true;
        }
        i = i + 1;
    }
    assert(!names_view(names@).contains(name@)) by {
        if names_view(names@).contains(name@) {
            let j = choose|j: int| 0 <= j < names_view(names@).len() && names_view(names@)[j] == name@;
            assert(names@[j]@ == name@);
        }
    };
    false
}

/// The value of `key` for `profile_set`, following `source_profile` links from
/// the override if one is given and from the selected profile otherwise.
///
/// Missing profiles, self references and cycles all resolve to `None`.
pub fn resolve_profile_chain(
    profile_set: &ProfileSet,
    profile_override: Option<&str>,
    key: &str,
) -> (r: Option<String>)
    requires
        profile_set.wf(),
    ensures
        opt_string_view(r) == resolved(*profile_set, opt_str_view(profile_override), key@),
{
    if profile_set.is_empty() {
        return None;
    }
    let ghost target = resolved(*profile_set, opt_str_view(profile_override), key@);
    let mut selected: String = match profile_override {
        Some(o) => o.to_owned(),
        None => profile_set.selected_profile().to_owned(),
    };
    let mut visited: Vec<String> = Vec::new();
    assert(names_view(visited@) =~= Seq::<Seq<char>>::empty());
    loop
        invariant
            profile_set.wf(),
            target == resolved(*profile_set, opt_str_view(profile_override), key@),
            chain_value(*profile_set, selected@, key@, names_view(visited@)) == target,
        decreases profile_set.names().difference(names_view(visited@).to_set()).len(),
    {
        let profile = match profile_set.get_profile(selected.as_str()) {
            Some(p) => p,
            None => {
                return None;
            },
        };
        if contains_name(&visited, &selected) {
            return None;
        }
        proof {
            lemma_unvisited_shrinks(*profile_set, selected@, names_view(visited@));
            assert(profile.wf());
        }
        let ghost before = names_view(visited@);
        visited.push(selected.clone());
        assert(names_view(visited@) =~= before.push(selected@));
        match profile.get(key) {
            Some(v) => {
                return Some(v.to_owned());
            },
            None => {},
        }
        match profile.get("source_profile") {
            None => {
                return None;
            },
            Some(source) => {
                let source = source.to_owned();
                if source == selected {
                    return None;
                }
                selected = source;
            },
        }
    }
}

/// The region for `profile_set`: the `region` setting resolved along the
/// profile chain, as an `aws_types` region.
pub fn resolve_profile_chain_for_region(
    profile_set: &ProfileSet,
    profile_override: Option<&str>,
) -> (r: Option<Region>)
    requires
        profile_set.wf(),
    ensures
        r == match resolved(*profile_set, opt_str_view(profile_override), "region"@) {
            Some(v) => Some(region_named(v)),
            None => None,
        },
{
    match resolve_profile_chain(profile_set, profile_override, "region") {
        Some(name) => Some(region_from_name(name)),
        None => None,
    }
}

} // verus!
