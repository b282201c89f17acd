//! Properties of chain resolution, stated over the resolution model.
use crate::profile::ProfileSet;
use crate::resolve::{chain_value, resolved, source_profile_key, start_name};
use vstd::prelude::*;

verus! {

/// An empty set resolves no key, whatever the override.
pub proof fn lemma_empty_set_resolves_nothing(
    set: ProfileSet,
    profile_override: Option<Seq<char>>,
    key: Seq<char>,
)
    requires
        set.members().len() == 0,
    ensures
        resolved(set, profile_override, key) is None,
{
}

/// When the starting profile holds `key` itself, its value is the result,
/// whatever its `source_profile` says.
pub proof fn lemma_starting_profile_value_wins(
    set: ProfileSet,
    profile_override: Option<Seq<char>>,
    key: Seq<char>,
)
    requires
        set.spec_profile(start_name(set, profile_override)) is Some,
        set.spec_profile(start_name(set, profile_override))->0.spec_get(key) is Some,
    ensures
        resolved(set, profile_override, key) == set.spec_profile(
            start_name(set, profile_override),
        )->0.spec_get(key),
{
    let start = start_name(set, profile_override);
    let i = choose|i: int|
        0 <= i < set.members().len() && (#[trigger] set.members()[i]).spec_name() == start;
    assert(set.members().len() > 0);
    assert(!Seq::<Seq<char>>::empty().contains(start));
}

/// A starting profile without `key` takes the value from its source profile
/// when that profile holds `key`.
pub proof fn lemma_source_profile_supplies_value(
    set: ProfileSet,
    profile_override: Option<Seq<char>>,
    key: Seq<char>,
    source: Seq<char>,
)
    requires
        set.spec_profile(start_name(set, profile_override)) is Some,
        set.spec_profile(start_name(set, profile_override))->0.spec_get(key) is None,
        set.spec_profile(start_name(set, profile_override))->0.spec_get(source_profile_key())
            == Some(source),
        source != start_name(set, profile_override),
        set.spec_profile(source) is Some,
        set.spec_profile(source)->0.spec_get(key) is Some,
    ensures
        resolved(set, profile_override, key) == set.spec_profile(source)->0.spec_get(key),
{
    let start = start_name(set, profile_override);
    let i = choose|i: int|
        0 <= i < set.members().len() && (#[trigger] set.members()[i]).spec_name() == start;
    assert(set.members().len() > 0);
    let visited = Seq::<Seq<char>>::empty().push(start);
    assert(!Seq::<Seq<char>>::empty().contains(start));
    assert(!visited.contains(source)) by {
        assert(visited =~= seq![start]);
    };
    assert(chain_value(set, start, key, Seq::empty()) == chain_value(set, source, key, visited));
}

/// A starting profile without `key` whose `source_profile` names itself
/// resolves to nothing.
pub proof fn lemma_self_reference_resolves_nothing(
    set: ProfileSet,
    profile_override: Option<Seq<char>>,
    key: Seq<char>,
)
    requires
        set.spec_profile(start_name(set, profile_override)) is Some,
        set.spec_profile(start_name(set, profile_override))->0.spec_get(key) is None,
        set.spec_profile(start_name(set, profile_override))->0.spec_get(source_profile_key())
            == Some(start_name(set, profile_override)),
    ensures
        resolved(set, profile_override, key) is None,
{
    let start = start_name(set, profile_override);
    assert(!Seq::<Seq<char>>::empty().contains(start));
}

/// Two profiles that name each other as source, neither holding `key`,
/// resolve to nothing.
pub proof fn lemma_cycle_resolves_nothing(
    set: ProfileSet,
    profile_override: Option<Seq<char>>,
    key: Seq<char>,
    other: Seq<char>,
)
    requires
        other != start_name(set, profile_override),
        set.spec_profile(start_name(set, profile_override)) is Some,
        set.spec_profile(start_name(set, profile_override))->0.spec_get(key) is None,
        set.spec_profile(start_name(set, profile_override))->0.spec_get(source_profile_key())
            == Some(other),
        set.spec_profile(other) is Some,
        set.spec_profile(other)->0.spec_get(key) is None,
        set.spec_profile(other)->0.spec_get(source_profile_key()) == Some(
            start_name(set, profile_override),
        ),
    ensures
        resolved(set, profile_override, key) is None,
{
    let start = start_name(set, profile_override);
    let i = choose|i: int|
        0 <= i < set.members().len() && (#[trigger] set.members()[i]).spec_name() == start;
    assert(set.members().len() > 0);
    let one = Seq::<Seq<char>>::empty().push(start);
    let two = one.push(other);
    assert(!Seq::<Seq<char>>::empty().contains(start));
    assert(!one.contains(other)) by {
        assert(one =~= seq![start]);
    };
    assert(two.contains(start)) by {
        assert(two[0] == start);
    };
    assert(chain_value(set, start, key, Seq::empty()) == chain_value(set, other, key, one));
    assert(chain_value(set, other, key, one) == chain_value(set, start, key, two));
}

/// An override is where the chain starts: when the override names a profile
/// holding `key` and the selected profile holds neither `key` nor a source,
/// resolving with the override finds the value and resolving without finds
/// nothing.
pub proof fn lemma_override_precedes_selected(
    set: ProfileSet,
    profile_override: Seq<char>,
    key: Seq<char>,
)
    requires
        set.spec_profile(profile_override) is Some,
        set.spec_profile(profile_override)->0.spec_get(key) is Some,
        set.spec_profile(set.spec_selected()) is Some,
        set.spec_profile(set.spec_selected())->0.spec_get(key) is None,
        set.spec_profile(set.spec_selected())->0.spec_get(source_profile_key()) is None,
    ensures
        resolved(set, Some(profile_override), key) == set.spec_profile(
            profile_override,
        )->0.spec_get(key),
        resolved(set, None, key) is None,
{
    lemma_starting_profile_value_wins(set, Some(profile_override), key);
    let start = set.spec_selected();
    assert(!Seq::<Seq<char>>::empty().contains(start));
}

/// An override that names no profile of the set resolves to nothing, whatever
/// the other profiles hold.
pub proof fn lemma_missing_override_resolves_nothing(
    set: ProfileSet,
    profile_override: Seq<char>,
    key: Seq<char>,
)
    requires
        set.spec_profile(profile_override) is None,
    ensures
        resolved(set, Some(profile_override), key) is None,
{
}

} // verus!
