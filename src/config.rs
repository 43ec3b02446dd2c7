use vstd::prelude::*;

verus! {

/// A package that the engine exports under a named export preset.
#[derive(Debug, Clone, PartialEq, Eq)]
pub struct GodotPCKInfo {
    pub name: String,
    pub export_preset_name: String,
}

/// A file copied before upload; both paths are templates over the build context.
#[derive(Debug, Clone, PartialEq, Eq)]
pub struct GodotGameInfoExtraFile {
    pub from: String,
    pub to: String,
}

/// The release configuration of a Godot project.
#[derive(Debug, Clone, PartialEq, Eq)]
pub struct GodotGameInfo {
    pub steam_app_id: i32,
    pub steam_depot_id: i32,
    pub steam_branch: String,
    pub steam_account_name: String,
    pub engine_binaries_path: String,
    pub extra_files: Vec<GodotGameInfoExtraFile>,
    pub editor_path: String,
    pub files: Vec<String>,
    pub pcks: Vec<GodotPCKInfo>,
}

/// The kinds of project that can be released, keyed by `game_type`.
#[derive(Debug, Clone, PartialEq, Eq)]
pub enum GameInfoType {
    Godot(GodotGameInfo),
}

/// A project's release configuration.
#[derive(Debug, Clone, PartialEq, Eq)]
pub struct GameConfig {
    pub game_info: GameInfoType,
}

} // verus!
