use aws_types::os_shim_internal::{Env, Fs};
use aws_types::region::Region;
use profile_region::{
    resolve_profile_chain, resolve_profile_chain_for_region, ProfileFileRegionProvider, Profile,
    ProfileSet, ProviderConfig,
};

fn provider_config() -> ProviderConfig {
    ProviderConfig::new(Fs::from_slice(&[]), Env::from_slice(&[("HOME", "/home")]))
}

/// The profiles of the `region_override` configuration, with `selected` as the
/// selected profile.
fn region_override_profiles(selected: &str) -> ProfileSet {
    ProfileSet::new(selected)
        .with_profile(Profile::new("default").with_property("region", "us-east-1"))
        .with_profile(Profile::new("base").with_property("region", "us-east-1"))
}

#[test]
fn load_region() {
    let provider = ProfileFileRegionProvider::builder()
        .configure(&provider_config())
        .build();
    let set = region_override_profiles("default");
    assert_eq!(
        provider.region_from(Some(&set)),
        Some(Region::from_static("us-east-1"))
    );
}

#[test]
fn load_region_env_profile_override() {
    let conf = provider_config().with_env(Env::from_slice(&[
        ("HOME", "/home"),
        ("AWS_PROFILE", "base"),
    ]));
    let provider = ProfileFileRegionProvider::builder().configure(&conf).build();
    let set = region_override_profiles("base");
    assert_eq!(
        provider.region_from(Some(&set)),
        Some(Region::from_static("us-east-1"))
    );
}

#[test]
fn load_region_nonexistent_profile() {
    let conf = provider_config().with_env(Env::from_slice(&[
        ("HOME", "/home"),
        ("AWS_PROFILE", "doesnotexist"),
    ]));
    let provider = ProfileFileRegionProvider::builder().configure(&conf).build();
    let set = region_override_profiles("doesnotexist");
    assert_eq!(provider.region_from(Some(&set)), None);
}

#[test]
fn load_region_explicit_override() {
    let conf = provider_config();
    let provider = ProfileFileRegionProvider::builder()
        .configure(&conf)
        .profile_name("base")
        .build();
    let set = ProfileSet::new("default")
        .with_profile(Profile::new("default"))
        .with_profile(Profile::new("base").with_property("region", "us-east-1"));
    assert_eq!(
        provider.region_from(Some(&set)),
        Some(Region::from_static("us-east-1"))
    );
}

fn source_profile_set() -> ProfileSet {
    ProfileSet::new("default")
        .with_profile(
            Profile::new("credentials")
                .with_property("aws_access_key_id", "test-access-key-id")
                .with_property("aws_secret_access_key", "test-secret-access-key")
                .with_property("aws_session_token", "test-session-token")
                .with_property("region", "us-east-1"),
        )
        .with_profile(
            Profile::new("needs-source")
                .with_property("source_profile", "credentials")
                .with_property("role_arn", "arn:aws:iam::123456789012:role/test"),
        )
}

#[test]
fn load_region_from_source_profile() {
    let set = source_profile_set();
    let provider = ProfileFileRegionProvider::builder()
        .profile_name("needs-source")
        .configure(&provider_config())
        .build();
    assert_eq!(Some(Region::new("us-east-1")), provider.region_from(Some(&set)));
}

#[test]
fn failed_load_gives_no_region() {
    let provider = ProfileFileRegionProvider::builder()
        .configure(&provider_config())
        .profile_name("base")
        .build();
    assert_eq!(provider.region_from(None), None);
}

#[test]
fn empty_set_resolves_nothing() {
    let set = ProfileSet::new("default");
    assert!(set.is_empty());
    assert_eq!(resolve_profile_chain(&set, None, "region"), None);
    assert_eq!(resolve_profile_chain(&set, Some("default"), "region"), None);
    assert_eq!(resolve_profile_chain(&set, Some("other"), "output"), None);
}

#[test]
fn direct_value_wins_over_source_profile() {
    let set = ProfileSet::new("a")
        .with_profile(
            Profile::new("a")
                .with_property("source_profile", "b")
                .with_property("region", "eu-west-1"),
        )
        .with_profile(Profile::new("b").with_property("region", "us-east-1"));
    assert_eq!(
        resolve_profile_chain(&set, None, "region"),
        Some("eu-west-1".to_string())
    );
}

#[test]
fn chain_follows_source_profile() {
    let set = source_profile_set();
    assert_eq!(
        resolve_profile_chain(&set, Some("needs-source"), "region"),
        Some("us-east-1".to_string())
    );
    assert_eq!(
        resolve_profile_chain_for_region(&set, Some("needs-source")),
        Some(Region::new("us-east-1"))
    );
}

#[test]
fn chain_of_three_profiles() {
    let set = ProfileSet::new("a")
        .with_profile(Profile::new("a").with_property("source_profile", "b"))
        .with_profile(Profile::new("b").with_property("source_profile", "c"))
        .with_profile(Profile::new("c").with_property("output", "json"));
    assert_eq!(
        resolve_profile_chain(&set, None, "output"),
        Some("json".to_string())
    );
    assert_eq!(resolve_profile_chain(&set, None, "region"), None);
}

#[test]
fn source_profile_naming_missing_profile() {
    let set = ProfileSet::new("a")
        .with_profile(Profile::new("a").with_property("source_profile", "missing"));
    assert_eq!(resolve_profile_chain(&set, None, "region"), None);
}

#[test]
fn self_reference_resolves_nothing() {
    let set = ProfileSet::new("p")
        .with_profile(Profile::new("p").with_property("source_profile", "p"));
    assert_eq!(resolve_profile_chain(&set, None, "region"), None);
}

#[test]
fn cycle_resolves_nothing() {
    let set = ProfileSet::new("a")
        .with_profile(Profile::new("a").with_property("source_profile", "b"))
        .with_profile(Profile::new("b").with_property("source_profile", "a"));
    assert_eq!(resolve_profile_chain(&set, None, "region"), None);
    assert_eq!(resolve_profile_chain(&set, Some("b"), "region"), None);
}

#[test]
fn longer_cycle_resolves_nothing() {
    let set = ProfileSet::new("a")
        .with_profile(Profile::new("a").with_property("source_profile", "b"))
        .with_profile(Profile::new("b").with_property("source_profile", "c"))
        .with_profile(Profile::new("c").with_property("source_profile", "b"));
    assert_eq!(resolve_profile_chain(&set, None, "region"), None);
}

#[test]
fn override_takes_precedence() {
    let set = ProfileSet::new("default")
        .with_profile(Profile::new("default"))
        .with_profile(Profile::new("base").with_property("region", "us-east-1"));
    assert_eq!(
        resolve_profile_chain_for_region(&set, Some("base")),
        Some(Region::new("us-east-1"))
    );
    assert_eq!(resolve_profile_chain_for_region(&set, None), None);
}

#[test]
fn nonexistent_override_resolves_nothing() {
    let set = region_override_profiles("default");
    assert_eq!(resolve_profile_chain_for_region(&set, Some("doesnotexist")), None);
    assert_eq!(
        resolve_profile_chain_for_region(&set, None),
        Some(Region::new("us-east-1"))
    );
}

#[test]
fn later_property_replaces_earlier() {
    let p = Profile::new("a")
        .with_property("region", "us-west-2")
        .with_property("region", "eu-central-1");
    assert_eq!(p.get("region"), Some("eu-central-1"));
    assert_eq!(p.get("output"), None);
}

#[test]
fn later_profile_replaces_earlier() {
    let set = ProfileSet::new("a")
        .with_profile(Profile::new("a").with_property("region", "us-west-2"))
        .with_profile(Profile::new("a"));
    assert!(!set.is_empty());
    assert_eq!(set.selected_profile(), "a");
    assert_eq!(set.get_profile("a").unwrap().get("region"), None);
    assert!(set.get_profile("b").is_none());
    assert_eq!(resolve_profile_chain(&set, None, "region"), None);
}
