//! What the user asks for.

use cargo_util_schemas::manifest::TomlDependency;
use vstd::prelude::*;

use crate::address::Address;
use crate::error::CraterError;
use crate::outside::{address_of, parse_address, parse_patches, patch_table};
use crate::requirement::TargetVersion;
use crate::text::{opt_text, opt_texts};

verus! {

/// Where the registry answers questions.
pub const API_BASE: &'static str = "https://crates.io/api/v1/";

/// One crate to build from elsewhere, as a `[patch]` entry of a manifest names it.
///
/// What a `[patch]` entry cannot hold, and so has to be moved elsewhere, stands beside the
/// entry: `dep` is the entry without its `features` and its `default-features`.
#[derive(Debug)]
pub struct PatchArg {
    pub name: String,
    pub default_features: Option<bool>,
    pub features: Option<Vec<String>>,
    pub dep: TomlDependency,
}

/// The model of a [`PatchArg`].
pub struct PatchArgView {
    pub name: Seq<char>,
    pub default_features: Option<bool>,
    pub features: Option<Seq<Seq<char>>>,
    pub dep: TomlDependency,
}

impl View for PatchArg {
    type V = PatchArgView;

    open spec fn view(&self) -> PatchArgView {
        PatchArgView {
            name: self.name@,
            default_features: self.default_features,
            features: opt_texts(self.features),
            dep: self.dep,
        }
    }
}

/// The models of a list of patches.
pub open spec fn patch_views(patches: Seq<PatchArg>) -> Seq<PatchArgView> {
    patches.map_values(|p: PatchArg| p@)
}

/// The only patch of a list, or what is wrong with the list.
pub fn single_patch(patches: Vec<PatchArg>) -> (r: Result<PatchArg, CraterError>)
    ensures
        is_single(r, patch_views(patches@)),
{
    let mut patches = patches;
    match patches.pop() {
        None => Err(CraterError::NoPatch),
        Some(patch) => if patches.len() > 0 {
            Err(CraterError::TooManyPatches)
        } else {
            Ok(patch)
        },
    }
}

/// The only patch of a list, or what is wrong with the list.
pub open spec fn is_single(
    r: Result<PatchArg, CraterError>,
    patches: Seq<PatchArgView>,
) -> bool {
    if patches.len() == 0 {
        r matches Err(CraterError::NoPatch)
    } else if patches.len() > 1 {
        r matches Err(CraterError::TooManyPatches)
    } else {
        r matches Ok(patch) && patch@ == patches[0]
    }
}

impl PatchArg {
    /// Reads a patch from the text of a `[patch]` entry.
    pub fn from_str(s: &str) -> (r: Result<PatchArg, CraterError>)
        ensures
            match patch_table(s@) {
                Some(patches) => is_single(r, patches),
                None => r matches Err(CraterError::TomlRead(_)),
            },
    {
        match parse_patches(s) {
            Ok(patches) => single_patch(patches),
            Err(e) => Err(CraterError::TomlRead(e)),
        }
    }
}

/// What the user wrote on the command line.
#[derive(Debug)]
pub struct CommandLineOpts<P> {
    pub crate_name: String,
    pub version: TargetVersion,
    pub patch: Vec<PatchArg>,
    pub working_dir: P,
    pub use_git: bool,
    pub pre_command: Option<String>,
    pub post_command: Option<String>,
    pub select: Option<String>,
}

/// What the user asked for.
#[derive(Debug)]
pub struct Opts<P> {
    /// Where the registry answers questions.
    pub api_base: Address,
    /// The crate whose dependents are tried.
    pub crate_name: String,
    /// The version of it that the dependents have to admit.
    pub version: TargetVersion,
    /// What to build in place of published crates.
    pub patch: Vec<PatchArg>,
    /// Where everything is kept.
    pub working_dir: P,
    /// Take the crates from their repositories and not from the registry.
    pub use_git: bool,
    /// What to run as the first step, in place of a build.
    pub pre_command: Option<String>,
    /// What to run as the second step, in place of a build.
    pub post_command: Option<String>,
    /// A regular expression for the names of the crates to try.
    pub select: Option<String>,
}

/// What of an [`Opts`] decides how the experiments go.
pub struct SettingsView {
    pub patch: Seq<PatchArgView>,
    pub use_git: bool,
    pub pre_command: Option<Seq<char>>,
    pub post_command: Option<Seq<char>>,
    pub select: Option<Seq<char>>,
}

impl<P> Opts<P> {
    /// What the user wrote on the command line, and where the registry is.
    pub fn enhance(cmd: CommandLineOpts<P>) -> (r: Result<Opts<P>, CraterError>)
        ensures
            match address_of(API_BASE@) {
                Some(api_base) => r == Ok::<Opts<P>, CraterError>(Opts {
                    api_base,
                    crate_name: cmd.crate_name,
                    version: cmd.version,
                    patch: cmd.patch,
                    working_dir: cmd.working_dir,
                    use_git: cmd.use_git,
                    pre_command: cmd.pre_command,
                    post_command: cmd.post_command,
                    select: cmd.select,
                }),
                None => r matches Err(CraterError::Url(_)),
            },
    {
        let api_base = match parse_address(API_BASE) {
            Ok(address) => address,
            Err(e) => {
                return Err(CraterError::Url(e));
            },
        };
        let CommandLineOpts {
            crate_name,
            version,
            patch,
            working_dir,
            use_git,
            pre_command,
            post_command,
            select,
        } = cmd;
        Ok(
            Opts {
                api_base,
                crate_name,
                version,
                patch,
                working_dir,
                use_git,
                pre_command,
                post_command,
                select,
            },
        )
    }

    /// What decides how the experiments go.
    pub open spec fn settings(&self) -> SettingsView {
        SettingsView {
            patch: patch_views(self.patch@),
            use_git: self.use_git,
            pre_command: opt_text(self.pre_command),
            post_command: opt_text(self.post_command),
            select: opt_text(self.select),
        }
    }
}

} // verus!
