//! Profiles and sets of profiles.
use vstd::prelude::*;

verus! {

/// A named bag of string settings.
///
/// Keys are unique: setting a key that is present replaces its value.
#[derive(Debug, Clone)]
pub struct Profile {
    name: String,
    properties: Vec<(String, String)>,
}

impl Profile {
    /// The profile's name.
    pub closed spec fn spec_name(&self) -> Seq<char> {
        self.name@
    }

    /// The settings as (key, value) views, in the order they were added.
    pub closed spec fn entries(&self) -> Seq<(Seq<char>, Seq<char>)> {
        self.properties@.map_values(|e: (String, String)| (e.0@, e.1@))
    }

    /// No key occurs twice.
    pub open spec fn wf(&self) -> bool {
        forall|i: int, j: int|
            0 <= i < self.entries().len() && 0 <= j < self.entries().len() && i != j
                ==> #[trigger] self.entries()[i].0 != #[trigger] self.entries()[j].0
    }

    /// The value stored under `key`, if any.
    pub open spec fn spec_get(&self, key: Seq<char>) -> Option<Seq<char>> {
        if exists|i: int| 0 <= i < self.entries().len() && #[trigger] self.entries()[i].0 == key {
            let i = choose|i: int| 0 <= i < self.entries().len() && #[trigger] self.entries()[i].0 == key;
            Some(self.entries()[i].1)
        } else {
            None
        }
    }

    /// A profile named `name` with no settings.
    pub fn new(name: &str) -> (r: Profile)
        ensures
            r.wf(),
            r.spec_name() == name@,
            forall|k: Seq<char>| #[trigger] r.spec_get(k) is None,
    {
        Profile { name: name.to_owned(), properties: Vec::new() }
    }

    /// This profile with `key` set to `value`, replacing any earlier value of `key`.
    pub fn with_property(self, key: &str, value: &str) -> (r: Profile)
        requires
            self.wf(),
        ensures
            r.wf(),
            r.spec_name() == self.spec_name(),
            r.spec_get(key@) == Some(value@),
            forall|k: Seq<char>| k != key@ ==> #[trigger] r.spec_get(k) == self.spec_get(k),
    {
        let k = key.to_owned();
        let v = value.to_owned();
        let ghost old_p = self;
        let mut p = self;
        let mut i: usize = 0;
        while i < p.properties.len()
            invariant
                0 <= i <= p.properties@.len(),
                p == old_p,
                old_p == self,
                old_p.wf(),
                k@ == key@,
                v@ == value@,
                forall|j: int| 0 <= j < i ==> #[trigger] p.entries()[j].0 != key@,
            decreases p.properties@.len() - i,
        {
            if p.properties[i].0 == k {
                assert(old_p.entries()[i as int].0 == key@);
                p.properties[i] = (k, v);
                assert(p.entries() =~= old_p.entries().update(i as int, (key@, value@)));
                assert(p.wf());
                assert forall|k: Seq<char>| k != key@ implies #[trigger] p.spec_get(k)
                    == old_p.spec_get(k) by {
                    if old_p.spec_get(k) is Some {
                        let j = choose|j: int|
                            0 <= j < old_p.entries().len() && #[trigger] old_p.entries()[j].0 == k;
                        lemma_get_at(p, j);
                        lemma_get_at(old_p, j);
                    }
                };
                proof { lemma_get_at(p, i as int); }
                return p;
            }
            i = i + 1;
        }
        p.properties.push((k, v));
        let ghost n = old_p.entries().len() as int;
        assert(p.entries() =~= old_p.entries().push((key@, value@)));
        assert(p.wf());
        assert forall|k: Seq<char>| k != key@ implies #[trigger] p.spec_get(k)
            == old_p.spec_get(k) by {
            if old_p.spec_get(k) is Some {
                let j = choose|j: int|
                    0 <= j < old_p.entries().len() && #[trigger] old_p.entries()[j].0 == k;
                lemma_get_at(p, j);
                lemma_get_at(old_p, j);
            }
        };
        proof { lemma_get_at(p, n); }
        p
    }

    /// The value stored under `key`, if any.
    pub fn get(&self, key: &str) -> (r: Option<&str>)
        requires
            self.wf(),
        ensures
            match r {
                Some(v) => self.spec_get(key@) == Some(v@),
                None => self.spec_get(key@) is None,
            },
    {
        let k = key.to_owned();
        let mut i: usize = 0;
        while i < self.properties.len()
            invariant
                0 <= i <= self.properties@.len(),
                self.wf(),
                k@ == key@,
                forall|j: int| 0 <= j < i ==> #[trigger] self.entries()[j].0 != key@,
            decreases self.properties@.len() - i,
        {
            if self.properties[i].0 == k {
                proof { lemma_get_at(*self, i as int); }
                return Some(self.properties[i].1.as_str());
            }
            i = i + 1;
        }
        None
    }
}

/// A collection of uniquely named profiles, with the name of the profile
/// selected by default.
#[derive(Debug, Clone)]
pub struct ProfileSet {
    profiles: Vec<Profile>,
    selected_profile: String,
}

impl ProfileSet {
    /// The profiles, in the order they were added.
    pub closed spec fn members(&self) -> Seq<Profile> {
        self.profiles@
    }

    /// The name of the profile selected by default.
    pub closed spec fn spec_selected(&self) -> Seq<char> {
        self.selected_profile@
    }

    /// Every profile is well formed and no two profiles share a name.
    pub open spec fn wf(&self) -> bool {
        &&& forall|i: int| 0 <= i < self.members().len() ==> (#[trigger] self.members()[i]).wf()
        &&& forall|i: int, j: int|
            0 <= i < self.members().len() && 0 <= j < self.members().len() && i != j
                ==> (#[trigger] self.members()[i]).spec_name() != (#[trigger] self.members()[j]).spec_name()
    }

    /// The names of the profiles.
    pub open spec fn names(&self) -> Set<Seq<char>> {
        self.members().map_values(|p: Profile| p.spec_name()).to_set()
    }

    /// The profile named `name`, if any.
    pub open spec fn spec_profile(&self, name: Seq<char>) -> Option<Profile> {
        if exists|i: int| 0 <= i < self.members().len() && (#[trigger] self.members()[i]).spec_name() == name {
            let i = choose|i: int|
                0 <= i < self.members().len() && (#[trigger] self.members()[i]).spec_name() == name;
            Some(self.members()[i])
        } else {
            None
        }
    }

    /// An empty set whose selected profile is `selected_profile`.
    pub fn new(selected_profile: &str) -> (r: ProfileSet)
        ensures
            r.wf(),
            r.spec_selected() == selected_profile@,
            r.members().len() == 0,
    {
        ProfileSet { profiles: Vec::new(), selected_profile: selected_profile.to_owned() }
    }

    /// This set with `profile` added, replacing any profile of the same name.
    pub fn with_profile(self, profile: Profile) -> (r: ProfileSet)
        requires
            self.wf(),
            profile.wf(),
        ensures
            r.wf(),
            r.spec_selected() == self.spec_selected(),
            r.members().len() > 0,
            r.spec_profile(profile.spec_name()) == Some(profile),
            forall|n: Seq<char>| n != profile.spec_name() ==> #[trigger] r.spec_profile(n) == self.spec_profile(n),
    {
        let ghost old_s = self;
        let ghost name = profile.spec_name();
        let mut s = self;
        let mut i: usize = 0;
        while i < s.profiles.len()
            invariant
                0 <= i <= s.profiles@.len(),
                s == old_s,
                old_s == self,
                old_s.wf(),
                name == profile.spec_name(),
                profile.wf(),
                forall|j: int| 0 <= j < i ==> (#[trigger] s.members()[j]).spec_name() != name,
            decreases s.profiles@.len() - i,
        {
            if s.profiles[i].name == profile.name {
                assert(old_s.members()[i as int].spec_name() == name);
                s.profiles[i] = profile;
                assert(s.members() =~= old_s.members().update(i as int, profile));
                assert(s.wf());
                assert forall|n: Seq<char>| n != name implies #[trigger] s.spec_profile(n)
                    == old_s.spec_profile(n) by {
                    if old_s.spec_profile(n) is Some {
                        let j = choose|j: int|
                            0 <= j < old_s.members().len() && (#[trigger] old_s.members()[j]).spec_name() == n;
                        lemma_profile_at(s, j);
                        lemma_profile_at(old_s, j);
                    }
                };
                proof { lemma_profile_at(s, i as int); }
                return s;
            }
            i = i + 1;
        }
        s.profiles.push(profile);
        let ghost n = old_s.members().len() as int;
        assert(s.members() =~= old_s.members().push(profile));
        assert(s.wf());
        assert forall|m: Seq<char>| m != name implies #[trigger] s.spec_profile(m)
            == old_s.spec_profile(m) by {
            if old_s.spec_profile(m) is Some {
                let j = choose|j: int|
                    0 <= j < old_s.members().len() && (#[trigger] old_s.members()[j]).spec_name() == m;
                lemma_profile_at(s, j);
                lemma_profile_at(old_s, j);
            }
        };
        proof { lemma_profile_at(s, n); }
        s
    }

    /// True when the set holds no profile.
    pub fn is_empty(&self) -> (r: bool)
        ensures
            r == (self.members().len() == 0),
    {
        self.profiles.len() == 0
    }

    /// The name of the profile selected by default.
    pub fn selected_profile(&self) -> (r: &str)
        ensures
            r@ == self.spec_selected(),
    {
        self.selected_profile.as_str()
    }

    /// The profile named `name`, if any.
    pub fn get_profile(&self, name: &str) -> (r: Option<&Profile>)
        requires
            self.wf(),
        ensures
            match r {
                Some(p) => self.spec_profile(name@) == Some(*p),
                None => self.spec_profile(name@) is None,
            },
    {
        let n = name.to_owned();
        let mut i: usize = 0;
        while i < self.profiles.len()
            invariant
                0 <= i <= self.profiles@.len(),
                self.wf(),
                n@ == name@,
                forall|j: int| 0 <= j < i ==> (#[trigger] self.members()[j]).spec_name() != name@,
            decreases self.profiles@.len() - i,
        {
            if self.profiles[i].name == n {
                proof { lemma_profile_at(*self, i as int); }
                return Some(&self.profiles[i]);
            }
            i = i + 1;
        }
        None
    }
}

/// In a well-formed set each profile is what a lookup of its name finds.
proof fn lemma_profile_at(s: ProfileSet, i: int)
    requires
        s.wf(),
        0 <= i < s.members().len(),
    ensures
        s.spec_profile(s.members()[i].spec_name()) == Some(s.members()[i]),
{
    assert(s.members()[i].spec_name() == s.members()[i].spec_name());
}

/// In a well-formed profile each entry is what a lookup of its key finds.
proof fn lemma_get_at(p: Profile, i: int)
    requires
        p.wf(),
        0 <= i < p.entries().len(),
    ensures
        p.spec_get(p.entries()[i].0) == Some(p.entries()[i].1),
{
    assert(p.entries()[i].0 == p.entries()[i].0);
}

} // verus!
