//! The bundled release hooks: Cargo, npm and GitHub Releases.

use crate::plugin::{Plugin, PluginResult, ReleaseContext, ReleaseHook, PACKAGE_VERSION};
use crate::text::{opt_text, texts};
use vstd::prelude::*;

verus! {

/// Cargo hook for Rust projects.
pub struct CargoHook {
    /// Publish to crates.io after release.
    publish: bool,
    /// Registry to publish to.
    registry: Option<String>,
}

impl CargoHook {
    /// Whether publishing is enabled.
    pub closed spec fn publishes(&self) -> bool {
        self.publish
    }

    /// The registry to publish to, if one is set.
    pub closed spec fn target(&self) -> Option<Seq<char>> {
        opt_text(self.registry)
    }

    /// Creates a new Cargo hook.
    pub fn new() -> (r: CargoHook)
        ensures
            !r.publishes(),
            r.target() is None,
    {
        CargoHook { publish: false, registry: None }
    }

    /// Enables publishing to crates.io.
    pub fn with_publish(self, publish: bool) -> (r: CargoHook)
        ensures
            r.publishes() == publish,
            r.target() == self.target(),
    {
        CargoHook { publish, registry: self.registry }
    }

    /// Sets the registry to publish to.
    pub fn with_registry(self, registry: &str) -> (r: CargoHook)
        ensures
            r.target() == Some(registry@),
            r.publishes() == self.publishes(),
    {
        CargoHook { publish: self.publish, registry: Some(String::from_str(registry)) }
    }

    /// Returns whether publishing is enabled.
    pub fn publish(&self) -> (r: bool)
        ensures
            r == self.publishes(),
    {
        self.publish
    }

    /// Returns the registry, if set.
    pub fn registry(&self) -> (r: Option<&str>)
        ensures
            match r {
                Some(name) => self.target() == Some(name@),
                None => self.target() is None,
            },
    {
        match &self.registry {
            Some(name) => Some(name.as_str()),
            None => None,
        }
    }
}

impl Default for CargoHook {
    fn default() -> (r: CargoHook)
        ensures
            !r.publishes(),
            r.target() is None,
    {
        CargoHook::new()
    }
}

impl Plugin for CargoHook {
    fn name(&self) -> (r: &'static str)
        ensures
            r@ == "cargo"@,
    {
        "cargo"
    }

    fn version(&self) -> (r: &'static str)
        ensures
            r@ == PACKAGE_VERSION@,
    {
        PACKAGE_VERSION
    }

    fn description(&self) -> (r: &'static str)
        ensures
            r@ == "Updates Cargo.toml version and optionally publishes to crates.io"@,
    {
        "Updates Cargo.toml version and optionally publishes to crates.io"
    }
}

impl ReleaseHook for CargoHook {
    fn on_post_bump(&self, ctx: &mut ReleaseContext) -> (r: PluginResult<()>)
        ensures
            r is Ok,
            *final(ctx) == *old(ctx),
    {
        Ok(())
    }

    fn on_post_tag(&self, ctx: &mut ReleaseContext) -> (r: PluginResult<()>)
        ensures
            r is Ok,
            *final(ctx) == *old(ctx),
    {
        Ok(())
    }
}

/// npm hook for Node.js projects.
pub struct NpmHook {
    /// Publish to npm after release.
    publish: bool,
    /// Registry to publish to.
    registry: Option<String>,
}

impl NpmHook {
    /// Whether publishing is enabled.
    pub closed spec fn publishes(&self) -> bool {
        self.publish
    }

    /// The registry to publish to, if one is set.
    pub closed spec fn target(&self) -> Option<Seq<char>> {
        opt_text(self.registry)
    }

    /// Creates a new npm hook.
    pub fn new() -> (r: NpmHook)
        ensures
            !r.publishes(),
            r.target() is None,
    {
        NpmHook { publish: false, registry: None }
    }

    /// Enables publishing to npm.
    pub fn with_publish(self, publish: bool) -> (r: NpmHook)
        ensures
            r.publishes() == publish,
            r.target() == self.target(),
    {
        NpmHook { publish, registry: self.registry }
    }

    /// Sets the registry to publish to.
    pub fn with_registry(self, registry: &str) -> (r: NpmHook)
        ensures
            r.target() == Some(registry@),
            r.publishes() == self.publishes(),
    {
        NpmHook { publish: self.publish, registry: Some(String::from_str(registry)) }
    }

    /// Returns whether publishing is enabled.
    pub fn publish(&self) -> (r: bool)
        ensures
            r == self.publishes(),
    {
        self.publish
    }

    /// Returns the registry, if set.
    pub fn registry(&self) -> (r: Option<&str>)
        ensures
            match r {
                Some(name) => self.target() == Some(name@),
                None => self.target() is None,
            },
    {
        match &self.registry {
            Some(name) => Some(name.as_str()),
            None => None,
        }
    }
}

impl Default for NpmHook {
    fn default() -> (r: NpmHook)
        ensures
            !r.publishes(),
            r.target() is None,
    {
        NpmHook::new()
    }
}

impl Plugin for NpmHook {
    fn name(&self) -> (r: &'static str)
        ensures
            r@ == "npm"@,
    {
        "npm"
    }

    fn version(&self) -> (r: &'static str)
        ensures
            r@ == PACKAGE_VERSION@,
    {
        PACKAGE_VERSION
    }

    fn description(&self) -> (r: &'static str)
        ensures
            r@ == "Updates package.json version and optionally publishes to npm"@,
    {
        "Updates package.json version and optionally publishes to npm"
    }
}

impl ReleaseHook for NpmHook {
    fn on_post_bump(&self, ctx: &mut ReleaseContext) -> (r: PluginResult<()>)
        ensures
            r is Ok,
            *final(ctx) == *old(ctx),
    {
        Ok(())
    }

    fn on_post_tag(&self, ctx: &mut ReleaseContext) -> (r: PluginResult<()>)
        ensures
            r is Ok,
            *final(ctx) == *old(ctx),
    {
        Ok(())
    }
}

/// GitHub Release hook.
pub struct GithubReleaseHook {
    /// Create release as draft.
    draft: bool,
    /// Mark release as prerelease.
    prerelease: bool,
    /// Assets to upload.
    assets: Vec<String>,
}

impl GithubReleaseHook {
    /// Whether the release is created as a draft.
    pub closed spec fn drafts(&self) -> bool {
        self.draft
    }

    /// Whether the release is marked as a prerelease.
    pub closed spec fn prereleases(&self) -> bool {
        self.prerelease
    }

    /// The assets to upload.
    pub closed spec fn uploads(&self) -> Seq<Seq<char>> {
        texts(self.assets@)
    }

    /// Creates a new GitHub Release hook.
    pub fn new() -> (r: GithubReleaseHook)
        ensures
            !r.drafts(),
            !r.prereleases(),
            r.uploads().len() == 0,
    {
        GithubReleaseHook { draft: false, prerelease: false, assets: Vec::new() }
    }

    /// Creates release as draft.
    pub fn with_draft(self, draft: bool) -> (r: GithubReleaseHook)
        ensures
            r.drafts() == draft,
            r.prereleases() == self.prereleases(),
            r.uploads() == self.uploads(),
    {
        GithubReleaseHook { draft, prerelease: self.prerelease, assets: self.assets }
    }

    /// Marks release as prerelease.
    pub fn with_prerelease(self, prerelease: bool) -> (r: GithubReleaseHook)
        ensures
            r.prereleases() == prerelease,
            r.drafts() == self.drafts(),
            r.uploads() == self.uploads(),
    {
        GithubReleaseHook { draft: self.draft, prerelease, assets: self.assets }
    }

    /// Sets assets to upload.
    pub fn with_assets(self, assets: Vec<String>) -> (r: GithubReleaseHook)
        ensures
            r.uploads() == texts(assets@),
            r.drafts() == self.drafts(),
            r.prereleases() == self.prereleases(),
    {
        GithubReleaseHook { draft: self.draft, prerelease: self.prerelease, assets }
    }

    /// Returns whether this is a draft release.
    pub fn is_draft(&self) -> (r: bool)
        ensures
            r == self.drafts(),
    {
        self.draft
    }

    /// Returns whether this is a prerelease.
    pub fn is_prerelease(&self) -> (r: bool)
        ensures
            r == self.prereleases(),
    {
        self.prerelease
    }

    /// Returns the assets to upload.
    pub fn assets(&self) -> (r: &Vec<String>)
        ensures
            texts(r@) == self.uploads(),
    {
        &self.assets
    }
}

impl Default for GithubReleaseHook {
    fn default() -> (r: GithubReleaseHook)
        ensures
            !r.drafts(),
            !r.prereleases(),
            r.uploads().len() == 0,
    {
        GithubReleaseHook::new()
    }
}

impl Plugin for GithubReleaseHook {
    fn name(&self) -> (r: &'static str)
        ensures
            r@ == "github-release"@,
    {
        "github-release"
    }

    fn version(&self) -> (r: &'static str)
        ensures
            r@ == PACKAGE_VERSION@,
    {
        PACKAGE_VERSION
    }

    fn description(&self) -> (r: &'static str)
        ensures
            r@ == "Creates GitHub Releases and uploads assets"@,
    {
        "Creates GitHub Releases and uploads assets"
    }
}

impl ReleaseHook for GithubReleaseHook {
    fn on_post_tag(&self, ctx: &mut ReleaseContext) -> (r: PluginResult<()>)
        ensures
            r is Ok,
            *final(ctx) == *old(ctx),
    {
        Ok(())
    }
}

} // verus!
