//! Read-only mirror types for the external mod catalog and the
//! projections exchanged with the scanner and the UI layer.
//!
//! Catalog records are constructed fresh per query, displayed and
//! discarded; this core never merges them into the mods registry
//! directly. Field names follow the wire shape of the catalog API.

use vstd::prelude::*;

verus! {

/// One catalog listing of the external mod-hosting API, keyed by its
/// numeric id.
#[allow(non_snake_case)]
#[derive(Debug, Clone, PartialEq)]
pub struct GameBananaMod {
    pub id: i64,
    pub name: String,
    pub owner: String,
    pub description: String,
    pub thumbnailUrl: String,
    pub downloadUrl: String,
    pub views: i64,
    pub downloads: i64,
    pub likes: i64,
    pub modelName: String,
    pub profileUrl: String,
    pub imageUrl: String,
    pub initialVisibility: String,
    pub period: String,
    pub submitterId: i64,
    pub submitterName: String,
    pub submitterIsOnline: bool,
    pub submitterHasRipe: bool,
    pub submitterProfileUrl: String,
    pub submitterAvatarUrl: String,
    pub submitterMoreByUrl: String,
    pub submitterUPic: Option<String>,
    pub postCount: i64,
    pub categoryName: String,
    pub categoryProfileUrl: String,
    pub categoryIconUrl: String,
    pub singularTitle: String,
    pub iconClasses: String,
    pub dateAdded: i64,
    pub dateModified: i64,
    pub dateUpdated: i64,
    pub hasFiles: bool,
    pub tags: Vec<String>,
    pub previewImages: Vec<GameBananaModImage>,
    pub version: String,
    pub isObsolete: bool,
    pub hasContentRatings: bool,
    pub viewCount: i64,
    pub isOwnedByAccessor: bool,
    pub wasFeatured: bool,
}

/// One preview image of a catalog listing: a base URL and file name
/// plus up to four resolution variants with explicit dimensions.
#[allow(non_snake_case)]
#[derive(Debug, Clone, PartialEq)]
pub struct GameBananaModImage {
    pub imageType: String,
    pub baseUrl: String,
    pub fileName: String,
    pub file100: String,
    pub file220: Option<String>,
    pub file530: Option<String>,
    pub file800: Option<String>,
    pub height100: Option<i64>,
    pub width100: Option<i64>,
    pub height220: Option<i64>,
    pub width220: Option<i64>,
    pub height530: Option<i64>,
    pub width530: Option<i64>,
    pub height800: Option<i64>,
    pub width800: Option<i64>,
}

/// Answer of the catalog query interface: one page of listings and
/// the total count of matches.
#[derive(Debug)]
pub struct GameBananaResponse {
    pub mods: Vec<GameBananaMod>,
    pub total: i64,
}

/// Mod metadata as read from disk by the scanner, before it is
/// merged into a full mod record.
#[derive(Debug, Clone, PartialEq)]
pub struct ModMetadataFile {
    pub name: String,
    pub description: Option<String>,
    pub folder_path: String,
    pub config_file_path: Option<String>,
    pub icon_file_path: Option<String>,
    /// Opaque encoded icon payload.
    pub icon_data: Option<String>,
    /// Whether the mod is enabled.
    pub enabled: Option<bool>,
}

/// Synchronous answer of a disable/enable toggle: no partial
/// success states.
#[derive(Debug, Clone, PartialEq)]
pub struct ModDisableResult {
    pub success: bool,
    pub enabled: bool,
    pub message: String,
}

/// Grouping view handed to the UI layer: the mods that one engine
/// owns; not persisted.
#[derive(Debug, Clone, PartialEq)]
pub struct EngineModsResponse {
    pub engine_type: String,
    pub executable_path: String,
    pub mods: Vec<ModMetadataFile>,
}

} // verus!
