//! The region provider that reads the `region` setting from profiles, and its
//! builder.
use crate::profile::ProfileSet;
use crate::resolve::{opt_string_view, region_named, resolve_profile_chain_for_region, resolved};
use aws_types::os_shim_internal::{Env, Fs};
use aws_types::region::Region;
use vstd::prelude::*;

verus! {

/// `aws_types`' file-system shim, carried as an opaque value.
#[verifier::external_type_specification]
#[verifier::external_body]
pub struct ExFs(Fs);

/// `aws_types`' environment shim, carried as an opaque value.
#[verifier::external_type_specification]
#[verifier::external_body]
pub struct ExEnv(Env);

/// Relies on `Fs::clone`: the file-system shim is a shared handle, and its
/// clone is the same handle.
pub assume_specification[ <Fs as Clone>::clone ](fs: &Fs) -> (r: Fs)
    ensures
        r == *fs,
;

/// Relies on `Env::clone`: the environment shim is a shared handle, and its
/// clone is the same handle.
pub assume_specification[ <Env as Clone>::clone ](env: &Env) -> (r: Env)
    ensures
        r == *env,
;

/// Relies on `Fs::real`: a shim over the process's real file system.
pub assume_specification[ Fs::real ]() -> Fs;

/// Relies on `Env::real`: a shim over the process's real environment.
pub assume_specification[ Env::real ]() -> Env;

/// The shims a provider reads its configuration through.
#[derive(Debug)]
pub struct ProviderConfig {
    fs: Fs,
    env: Env,
}

impl ProviderConfig {
    /// The file-system shim.
    pub closed spec fn spec_fs(&self) -> Fs {
        self.fs
    }

    /// The environment shim.
    pub closed spec fn spec_env(&self) -> Env {
        self.env
    }

    /// A configuration reading through `fs` and `env`.
    pub fn new(fs: Fs, env: Env) -> (r: ProviderConfig)
        ensures
            r.spec_fs() == fs,
            r.spec_env() == env,
    {
        ProviderConfig { fs, env }
    }

    /// This configuration with its file-system shim replaced.
    pub fn with_fs(self, fs: Fs) -> (r: ProviderConfig)
        ensures
            r.spec_fs() == fs,
            r.spec_env() == self.spec_env(),
    {
        ProviderConfig { fs, env: self.env }
    }

    /// This configuration with its environment shim replaced.
    pub fn with_env(self, env: Env) -> (r: ProviderConfig)
        ensures
            r.spec_fs() == self.spec_fs(),
            r.spec_env() == env,
    {
        ProviderConfig { fs: self.fs, env }
    }

    /// The file-system shim.
    pub fn fs(&self) -> (r: Fs)
        ensures
            r == self.spec_fs(),
    {
        self.fs.clone()
    }

    /// The environment shim.
    pub fn env(&self) -> (r: Env)
        ensures
            r == self.spec_env(),
    {
        self.env.clone()
    }
}

impl Clone for ProviderConfig {
    fn clone(&self) -> (r: Self)
        ensures
            r == *self,
    {
        ProviderConfig { fs: self.fs.clone(), env: self.env.clone() }
    }
}

impl Default for ProviderConfig {
    /// A configuration over the real file system and environment.
    fn default() -> Self {
        ProviderConfig { fs: Fs::real(), env: Env::real() }
    }
}

/// Builder for [`ProfileFileRegionProvider`].
pub struct Builder {
    config: Option<ProviderConfig>,
    profile_override: Option<String>,
}

impl Builder {
    /// The configuration set on the builder, if any.
    pub closed spec fn spec_config(&self) -> Option<ProviderConfig> {
        self.config
    }

    /// The profile name override, if any.
    pub closed spec fn spec_profile_override(&self) -> Option<Seq<char>> {
        opt_string_view(self.profile_override)
    }

    /// Override the configuration for this provider.
    pub fn configure(self, config: &ProviderConfig) -> (r: Self)
        ensures
            r.spec_config() == Some(*config),
            r.spec_profile_override() == self.spec_profile_override(),
    {
        Builder { config: Some(config.clone()), profile_override: self.profile_override }
    }

    /// Override the profile name used by the provider.
    pub fn profile_name(self, profile_name: &str) -> (r: Self)
        ensures
            r.spec_config() == self.spec_config(),
            r.spec_profile_override() == Some(profile_name@),
    {
        Builder { config: self.config, profile_override: Some(profile_name.to_owned()) }
    }

    /// Build a [`ProfileFileRegionProvider`] from this builder; without a
    /// configuration it reads the real file system and environment.
    pub fn build(self) -> (r: ProfileFileRegionProvider)
        ensures
            r.spec_profile_override() == self.spec_profile_override(),
            self.spec_config() is Some ==> r.spec_fs() == self.spec_config()->0.spec_fs()
                && r.spec_env() == self.spec_config()->0.spec_env(),
    {
        let conf = match self.config {
            Some(c) => c,
            None => ProviderConfig::default(),
        };
        ProfileFileRegionProvider {
            env: conf.env(),
            fs: conf.fs(),
            profile_override: self.profile_override,
        }
    }
}

impl Default for Builder {
    fn default() -> (r: Self)
        ensures
            r.spec_config() is None,
            r.spec_profile_override() is None,
    {
        Builder { config: None, profile_override: None }
    }
}

/// Loads a region from the `region` setting of the active profile, following
/// `source_profile` links.
#[derive(Debug)]
pub struct ProfileFileRegionProvider {
    fs: Fs,
    env: Env,
    profile_override: Option<String>,
}

impl ProfileFileRegionProvider {
    /// The file-system shim profiles are loaded through.
    pub closed spec fn spec_fs(&self) -> Fs {
        self.fs
    }

    /// The environment shim profiles are loaded through.
    pub closed spec fn spec_env(&self) -> Env {
        self.env
    }

    /// The profile name override, if any.
    pub closed spec fn spec_profile_override(&self) -> Option<Seq<char>> {
        opt_string_view(self.profile_override)
    }

    /// A provider over the real file system and environment, with no override.
    pub fn new() -> (r: Self)
        ensures
            r.spec_profile_override() is None,
    {
        ProfileFileRegionProvider { fs: Fs::real(), env: Env::real(), profile_override: None }
    }

    /// A [`Builder`] for a provider.
    pub fn builder() -> (r: Builder)
        ensures
            r.spec_config() is None,
            r.spec_profile_override() is None,
    {
        Builder::default()
    }

    /// The file-system shim profiles are loaded through.
    pub fn fs(&self) -> (r: Fs)
        ensures
            r == self.spec_fs(),
    {
        self.fs.clone()
    }

    /// The environment shim profiles are loaded through.
    pub fn env(&self) -> (r: Env)
        ensures
            r == self.spec_env(),
    {
        self.env.clone()
    }

    /// The region given the outcome of loading profiles: a failed load
    /// (`None`) gives no region, a loaded set gives the region resolved from
    /// the override, or the selected profile when there is none.
    pub fn region_from(&self, loaded: Option<&ProfileSet>) -> (r: Option<Region>)
        requires
            loaded matches Some(set) ==> set.wf(),
        ensures
            r == match loaded {
                None => None,
                Some(set) => match resolved(*set, self.spec_profile_override(), "region"@) {
                    Some(v) => Some(region_named(v)),
                    None => None,
                },
            },
    {
        match loaded {
            None => None,
            Some(set) => {
                let profile_override = match &self.profile_override {
                    Some(s) => Some(s.as_str()),
                    None => None,
                };
                resolve_profile_chain_for_region(set, profile_override)
            },
        }
    }
}

impl Default for ProfileFileRegionProvider {
    fn default() -> (r: Self)
        ensures
            r.spec_profile_override() is None,
    {
        ProfileFileRegionProvider::new()
    }
}

} // verus!
