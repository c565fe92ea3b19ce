//! Mod records, their nested sub-records, and the metadata version gate.

use vstd::prelude::*;
use vstd::string::StringExecFns;
use crate::MIN_METADATA_VERSION;
use crate::render::{dec_digits, render_u32};

verus! {

/// The text reported for metadata that carries no version.
pub open spec fn missing_version_message() -> Seq<char> {
    "Missing required metadata_version field"@
}

/// The text reported for metadata whose version lies below the
/// minimum.
pub open spec fn version_too_low_message(provided: u32, minimum: u32) -> Seq<char> {
    "Metadata version "@ + dec_digits(provided as nat)
        + " is too old. Minimum supported version is "@ + dec_digits(minimum as nat)
}

/// Why a mod record's on-disk metadata was rejected by the version gate.
#[derive(Debug, PartialEq)]
pub enum MetadataError {
    /// The record carries no `metadata_version` at all: it predates the
    /// versioning scheme and must not be silently upgraded.
    MissingVersion,
    /// The record carries a version below the minimum this core supports.
    VersionTooLow { provided: u32, minimum: u32 },
}

impl MetadataError {
    /// A human-readable description of the rejection.
    pub fn message(&self) -> (r: String)
        ensures
            *self is MissingVersion ==> r@ == missing_version_message(),
            *self matches MetadataError::VersionTooLow { provided, minimum } ==> r@
                == version_too_low_message(provided, minimum),
    {
        match self {
            MetadataError::MissingVersion => String::from_str(
                "Missing required metadata_version field",
            ),
            MetadataError::VersionTooLow { provided, minimum } => {
                let r = String::from_str("Metadata version ").concat(
                    render_u32(*provided).as_str(),
                ).concat(" is too old. Minimum supported version is ").concat(
                    render_u32(*minimum).as_str(),
                );
                proof {
                    assert(r@ =~= version_too_low_message(*provided, *minimum));
                }
                r
            },
        }
    }
}

impl Clone for MetadataError {
    fn clone(&self) -> (r: Self)
        ensures
            r == *self,
    {
        match self {
            MetadataError::MissingVersion => MetadataError::MissingVersion,
            MetadataError::VersionTooLow { provided, minimum } => MetadataError::VersionTooLow {
                provided: *provided,
                minimum: *minimum,
            },
        }
    }
}

/// Extended engine information nested inside a mod record.
#[derive(Debug, PartialEq)]
pub struct Engine {
    pub engine_type: Option<String>,
    pub engine_name: Option<String>,
    /// Opaque encoded engine icon payload.
    pub engine_icon: Option<String>,
    pub mods_folder: Option<bool>,
    pub mods_folder_path: Option<String>,
}

/// One credited contributor.
#[derive(Debug, PartialEq)]
pub struct Contributor {
    pub name: String,
    /// Path to the contributor icon, or an opaque encoded payload.
    pub icon: Option<String>,
    /// Role description of the contributor.
    pub role: Option<String>,
}

/// A named group of contributors, kept in credited order.
#[derive(Debug, PartialEq)]
pub struct ContributorGroup {
    pub group: String,
    pub members: Vec<Contributor>,
}

/// One installed mod: identity, paths, versioned metadata and
/// presentation fields, plus the optional running-process link.
#[derive(Debug, PartialEq)]
pub struct ModInfo {
    pub id: String,
    pub name: String,
    pub path: String,
    pub metadata_version: Option<u32>,
    pub description: Option<String>,
    pub executable_path: Option<String>,
    /// Opaque encoded icon payload.
    pub icon_data: Option<String>,
    /// Opaque encoded banner image payload.
    pub banner_data: Option<String>,
    /// Opaque encoded logo image payload.
    pub logo_data: Option<String>,
    /// Position of the logo in the banner: left_bottom, left_middle or
    /// middle; unrecognized values pass through uninterpreted.
    pub logo_position: Option<String>,
    pub version: Option<String>,
    pub engine: Option<Engine>,
    /// Sort key for listings; ties fall back to insertion order.
    pub display_order: Option<i64>,
    /// Id of the currently running process, present only while launched.
    pub process_id: Option<u32>,
    pub contributors: Option<Vec<ContributorGroup>>,
    /// Unix timestamp of the last launch.
    pub last_played: Option<i64>,
    /// Unix timestamp of installation.
    pub date_added: Option<i64>,
}

/// Mathematical image of an [`Engine`]: every text field as a
/// sequence of characters.
#[verifier::ext_equal]
pub struct EngineV {
    pub engine_type: Option<Seq<char>>,
    pub engine_name: Option<Seq<char>>,
    pub engine_icon: Option<Seq<char>>,
    pub mods_folder: Option<bool>,
    pub mods_folder_path: Option<Seq<char>>,
}

/// Mathematical image of a [`Contributor`].
#[verifier::ext_equal]
pub struct ContributorV {
    pub name: Seq<char>,
    pub icon: Option<Seq<char>>,
    pub role: Option<Seq<char>>,
}

/// Mathematical image of a [`ContributorGroup`].
#[verifier::ext_equal]
pub struct ContributorGroupV {
    pub group: Seq<char>,
    pub members: Seq<ContributorV>,
}

/// Mathematical image of a [`ModInfo`]: what "equal in all fields"
/// means for mod records throughout the contracts of this crate.
#[verifier::ext_equal]
pub struct ModInfoV {
    pub id: Seq<char>,
    pub name: Seq<char>,
    pub path: Seq<char>,
    pub metadata_version: Option<u32>,
    pub description: Option<Seq<char>>,
    pub executable_path: Option<Seq<char>>,
    pub icon_data: Option<Seq<char>>,
    pub banner_data: Option<Seq<char>>,
    pub logo_data: Option<Seq<char>>,
    pub logo_position: Option<Seq<char>>,
    pub version: Option<Seq<char>>,
    pub engine: Option<EngineV>,
    pub display_order: Option<i64>,
    pub process_id: Option<u32>,
    pub contributors: Option<Seq<ContributorGroupV>>,
    pub last_played: Option<i64>,
    pub date_added: Option<i64>,
}

impl DeepView for Engine {
    type V = EngineV;

    open spec fn deep_view(&self) -> EngineV {
        EngineV {
            engine_type: self.engine_type.deep_view(),
            engine_name: self.engine_name.deep_view(),
            engine_icon: self.engine_icon.deep_view(),
            mods_folder: self.mods_folder,
            mods_folder_path: self.mods_folder_path.deep_view(),
        }
    }
}

impl DeepView for Contributor {
    type V = ContributorV;

    open spec fn deep_view(&self) -> ContributorV {
        ContributorV {
            name: self.name.deep_view(),
            icon: self.icon.deep_view(),
            role: self.role.deep_view(),
        }
    }
}

impl DeepView for ContributorGroup {
    type V = ContributorGroupV;

    open spec fn deep_view(&self) -> ContributorGroupV {
        ContributorGroupV { group: self.group.deep_view(), members: self.members.deep_view() }
    }
}

impl DeepView for ModInfo {
    type V = ModInfoV;

    open spec fn deep_view(&self) -> ModInfoV {
        ModInfoV {
            id: self.id.deep_view(),
            name: self.name.deep_view(),
            path: self.path.deep_view(),
            metadata_version: self.metadata_version,
            description: self.description.deep_view(),
            executable_path: self.executable_path.deep_view(),
            icon_data: self.icon_data.deep_view(),
            banner_data: self.banner_data.deep_view(),
            logo_data: self.logo_data.deep_view(),
            logo_position: self.logo_position.deep_view(),
            version: self.version.deep_view(),
            engine: self.engine.deep_view(),
            display_order: self.display_order,
            process_id: self.process_id,
            contributors: self.contributors.deep_view(),
            last_played: self.last_played,
            date_added: self.date_added,
        }
    }
}

/// Copies an optional owned string; the copy is equal to the source.
fn clone_opt_string(o: &Option<String>) -> (r: Option<String>)
    ensures
        r == *o,
{
    match o {
        Some(s) => Some(s.clone()),
        None => None,
    }
}

impl Clone for Engine {
    fn clone(&self) -> (r: Self)
        ensures
            r == *self,
    {
        Engine {
            engine_type: clone_opt_string(&self.engine_type),
            engine_name: clone_opt_string(&self.engine_name),
            engine_icon: clone_opt_string(&self.engine_icon),
            mods_folder: self.mods_folder,
            mods_folder_path: clone_opt_string(&self.mods_folder_path),
        }
    }
}

impl Clone for Contributor {
    fn clone(&self) -> (r: Self)
        ensures
            r == *self,
    {
        Contributor {
            name: self.name.clone(),
            icon: clone_opt_string(&self.icon),
            role: clone_opt_string(&self.role),
        }
    }
}

/// Copies a contributor list element by element, keeping the order.
fn clone_contributors(v: &Vec<Contributor>) -> (r: Vec<Contributor>)
    ensures
        r@ == v@,
{
    let mut r: Vec<Contributor> = Vec::new();
    let mut i: usize = 0;
    while i < v.len()
        invariant
            0 <= i <= v.len(),
            r@ =~= v@.subrange(0, i as int),
        decreases v.len() - i,
    {
        r.push(v[i].clone());
        i += 1;
    }
    proof {
        assert(r@ =~= v@);
    }
    r
}

impl Clone for ContributorGroup {
    fn clone(&self) -> (r: Self)
        ensures
            r.deep_view() == self.deep_view(),
    {
        let r = ContributorGroup {
            group: self.group.clone(),
            members: clone_contributors(&self.members),
        };
        proof {
            assert(r.deep_view() =~= self.deep_view());
        }
        r
    }
}

/// Copies a list of contributor groups, keeping the order; the copy
/// has the same mathematical image as the source.
fn clone_groups(v: &Vec<ContributorGroup>) -> (r: Vec<ContributorGroup>)
    ensures
        r.deep_view() == v.deep_view(),
{
    let mut r: Vec<ContributorGroup> = Vec::new();
    let mut i: usize = 0;
    while i < v.len()
        invariant
            0 <= i <= v.len(),
            r@.len() == i,
            forall|j: int| 0 <= j < i ==> r@[j].deep_view() == v@[j].deep_view(),
        decreases v.len() - i,
    {
        r.push(v[i].clone());
        i += 1;
    }
    proof {
        assert(r.deep_view() =~= v.deep_view());
    }
    r
}

impl Clone for ModInfo {
    fn clone(&self) -> (r: Self)
        ensures
            r.deep_view() == self.deep_view(),
    {
        let r = ModInfo {
            id: self.id.clone(),
            name: self.name.clone(),
            path: self.path.clone(),
            metadata_version: self.metadata_version,
            description: clone_opt_string(&self.description),
            executable_path: clone_opt_string(&self.executable_path),
            icon_data: clone_opt_string(&self.icon_data),
            banner_data: clone_opt_string(&self.banner_data),
            logo_data: clone_opt_string(&self.logo_data),
            logo_position: clone_opt_string(&self.logo_position),
            version: clone_opt_string(&self.version),
            engine: (match &self.engine {
                Some(e) => Some(e.clone()),
                None => None,
            }),
            display_order: self.display_order,
            process_id: self.process_id,
            contributors: (match &self.contributors {
                Some(v) => Some(clone_groups(v)),
                None => None,
            }),
            last_played: self.last_played,
            date_added: self.date_added,
        };
        proof {
            assert(r.deep_view() =~= self.deep_view());
        }
        r
    }
}

impl ModInfo {
    /// The metadata version gate: a pure floor check on
    /// `metadata_version`. Versions newer than the current one are
    /// accepted so that older binaries keep reading newer metadata.
    pub fn validate_metadata_version(&self) -> (r: Result<(), MetadataError>)
        ensures
            self.metadata_version is None ==> r == Err::<(), MetadataError>(
                MetadataError::MissingVersion,
            ),
            forall|v: u32|
                self.metadata_version == Some(v) && v < MIN_METADATA_VERSION ==> r == Err::<
                    (),
                    MetadataError,
                >(MetadataError::VersionTooLow { provided: v, minimum: MIN_METADATA_VERSION }),
            forall|v: u32|
                self.metadata_version == Some(v) && v >= MIN_METADATA_VERSION ==> r == Ok::<
                    (),
                    MetadataError,
                >(()),
    {
        match self.metadata_version {
            None => Err(MetadataError::MissingVersion),
            Some(version) => if version < MIN_METADATA_VERSION {
                Err(MetadataError::VersionTooLow {
                    provided: version,
                    minimum: MIN_METADATA_VERSION,
                })
            } else {
                Ok(())
            },
        }
    }
}

} // verus!
