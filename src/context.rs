use vstd::prelude::*;
use crate::config::GodotGameInfo;
use crate::decimal::{decimal, decimal_string};
use crate::error::LowlyError;
use crate::template::{
    check_plain, expand, fields_view, has_key, lemma_expand_restrict, lemma_lookup_suffix, lookup,
    plain, render_template, Fields,
};

verus! {

pub const APP_BUILD_TEMPLATE: &'static str = r#"
"AppBuild"
\{
	"AppID" "{steam_app_id}" // Your AppID
	"Desc" "Lowly build" // internal description for this build
	"SetLive" "{steam_branch}" // set this build live on beta branch AlphaTest
	"ContentRoot" "{game_output_path}" // content root folder relative to this script file
	"Depots"
	\{
		// file mapping instructions for each depot are in separate script files
		"{steam_depot_id}" "lowly_depot_build.vdf"
	}
}
"#;

pub const APP_DEPOT_BUILD_TEMPLATE: &'static str = r#"
"DepotBuild"
\{
	// Set your assigned depot ID here
	"DepotID" "{steam_depot_id}"

	// include all files recursivley
	"FileMapping"
	\{
		// This can be a full path, or a path relative to ContentRoot
		"LocalPath" "*"

		// This is a path relative to the install folder of your game
		"DepotPath" "."
		
		// If LocalPath contains wildcards, setting this means that all
		// matching files within subdirectories of LocalPath will also
		// be included.
		"Recursive" "1"
  }
}
"#;
pub const STEAM_APP_ID: &'static str = "steam_app_id";
pub const STEAM_DEPOT_ID: &'static str = "steam_depot_id";
pub const STEAM_BRANCH: &'static str = "steam_branch";
pub const STEAM_ACCOUNT_NAME: &'static str = "steam_account_name";
pub const ENGINE_BINARIES_PATH: &'static str = "engine_binaries_path";
pub const EDITOR_PATH: &'static str = "editor_path";
pub const GAME_PATH: &'static str = "game_path";
pub const GAME_OUTPUT_PATH: &'static str = "game_output_path";

/// The fields that the depot descriptor is filled from.
pub open spec fn depot_fields(depot_id: i32) -> Fields {
    seq![(STEAM_DEPOT_ID@, decimal(depot_id as int))]
}

/// The fields that the app descriptor is filled from.
pub open spec fn app_fields(app_id: i32, branch: Seq<char>, output: Seq<char>, depot_id: i32) -> Fields {
    seq![(STEAM_APP_ID@, decimal(app_id as int)), (STEAM_BRANCH@, branch), (GAME_OUTPUT_PATH@, output)]
        + depot_fields(depot_id)
}

/// Every scalar field of a build context, as its templates see them.
pub open spec fn context_fields(c: GodotBuildContext) -> Fields {
    seq![
        (STEAM_ACCOUNT_NAME@, c.game_info.steam_account_name@),
        (ENGINE_BINARIES_PATH@, c.game_info.engine_binaries_path@),
        (EDITOR_PATH@, c.game_info.editor_path@),
        (GAME_PATH@, c.game_path@),
    ] + app_fields(
        c.game_info.steam_app_id,
        c.game_info.steam_branch@,
        c.game_output_path@,
        c.game_info.steam_depot_id,
    )
}

/// The app descriptor: its template with the app id, branch, output path and depot id filled in.
pub open spec fn app_descriptor(app_id: i32, branch: Seq<char>, output: Seq<char>, depot_id: i32) -> Seq<char> {
    expand(APP_BUILD_TEMPLATE@, app_fields(app_id, branch, output, depot_id))
}

/// The depot descriptor: its template with the depot id filled in.
pub open spec fn depot_descriptor(depot_id: i32) -> Seq<char> {
    expand(APP_DEPOT_BUILD_TEMPLATE@, depot_fields(depot_id))
}

/// Both fixed templates are plain over the fields they are filled from.
pub open spec fn catalog_plain(app_id: i32, branch: Seq<char>, output: Seq<char>, depot_id: i32) -> bool {
    plain(APP_BUILD_TEMPLATE@, app_fields(app_id, branch, output, depot_id))
        && plain(APP_DEPOT_BUILD_TEMPLATE@, depot_fields(depot_id))
}

/// The `from` and `to` paths of the extra file at `index`, rendered over the
/// context's fields, or `None` where either template is not plain.
pub open spec fn extra_file_paths(c: GodotBuildContext, index: int) -> Option<(Seq<char>, Seq<char>)> {
    let e = c.game_info.extra_files@[index];
    let f = context_fields(c);
    if plain(e.from@, f) && plain(e.to@, f) {
        Some((expand(e.from@, f), expand(e.to@, f)))
    } else {
        None
    }
}

/// A project's configuration together with its project and output paths, from
/// which the upload descriptors and extra-file paths are rendered.
pub struct GodotBuildContext {
    pub game_info: GodotGameInfo,
    pub game_path: String,
    pub game_output_path: String,
}

fn pair(key: &str, value: &String) -> (r: (String, String))
    ensures
        r.0@ == key@,
        r.1@ == value@,
{
    (String::from_str(key), value.clone())
}

fn depot_field_list(depot_id: i32) -> (v: Vec<(String, String)>)
    ensures
        fields_view(v@) == depot_fields(depot_id),
{
    let mut v: Vec<(String, String)> = Vec::new();
    v.push((String::from_str(STEAM_DEPOT_ID), decimal_string(depot_id)));
    assert(fields_view(v@) =~= depot_fields(depot_id));
    v
}

fn app_field_list(app_id: i32, branch: &String, output: &String, depot_id: i32) -> (v: Vec<(String, String)>)
    ensures
        fields_view(v@) == app_fields(app_id, branch@, output@, depot_id),
{
    let mut v: Vec<(String, String)> = Vec::new();
    v.push((String::from_str(STEAM_APP_ID), decimal_string(app_id)));
    v.push(pair(STEAM_BRANCH, branch));
    v.push(pair(GAME_OUTPUT_PATH, output));
    v.push((String::from_str(STEAM_DEPOT_ID), decimal_string(depot_id)));
    assert(fields_view(v@) =~= app_fields(app_id, branch@, output@, depot_id));
    v
}

/// Over every field of a context, the fixed templates render as over their own fields.
proof fn lemma_context_fields(c: GodotBuildContext)
    requires
        catalog_plain(
            c.game_info.steam_app_id,
            c.game_info.steam_branch@,
            c.game_output_path@,
            c.game_info.steam_depot_id,
        ),
    ensures
        plain(APP_BUILD_TEMPLATE@, context_fields(c)),
        plain(APP_DEPOT_BUILD_TEMPLATE@, context_fields(c)),
        expand(APP_BUILD_TEMPLATE@, context_fields(c)) == app_descriptor(
            c.game_info.steam_app_id,
            c.game_info.steam_branch@,
            c.game_output_path@,
            c.game_info.steam_depot_id,
        ),
        expand(APP_DEPOT_BUILD_TEMPLATE@, context_fields(c)) == depot_descriptor(c.game_info.steam_depot_id),
{
    let af = app_fields(c.game_info.steam_app_id, c.game_info.steam_branch@, c.game_output_path@, c.game_info.steam_depot_id);
    let df = depot_fields(c.game_info.steam_depot_id);
    let full = context_fields(c);
    let before_app = full.subrange(0, 4);
    let before_depot = full.subrange(0, 7);
    assert(full =~= before_app + af);
    assert(full =~= before_depot + df);
    assert forall|k: Seq<char>| has_key(af, k) implies has_key(full, k) && lookup(full, k) == lookup(af, k) by {
        lemma_lookup_suffix(before_app, af, k);
    }
    assert forall|k: Seq<char>| has_key(df, k) implies has_key(full, k) && lookup(full, k) == lookup(df, k) by {
        lemma_lookup_suffix(before_depot, df, k);
    }
    lemma_expand_restrict(APP_BUILD_TEMPLATE@, 0, af, full);
    lemma_expand_restrict(APP_DEPOT_BUILD_TEMPLATE@, 0, df, full);
}

impl GodotBuildContext {
    /// The fixed templates are plain over the fields they are filled from, as
    /// `new` checks.
    pub open spec fn wf(&self) -> bool {
        catalog_plain(
            self.game_info.steam_app_id,
            self.game_info.steam_branch@,
            self.game_output_path@,
            self.game_info.steam_depot_id,
        )
    }

    fn field_list(&self) -> (v: Vec<(String, String)>)
        ensures
            fields_view(v@) == context_fields(*self),
    {
        let mut v: Vec<(String, String)> = Vec::new();
        v.push(pair(STEAM_ACCOUNT_NAME, &self.game_info.steam_account_name));
        v.push(pair(ENGINE_BINARIES_PATH, &self.game_info.engine_binaries_path));
        v.push(pair(EDITOR_PATH, &self.game_info.editor_path));
        v.push(pair(GAME_PATH, &self.game_path));
        v.push((String::from_str(STEAM_APP_ID), decimal_string(self.game_info.steam_app_id)));
        v.push(pair(STEAM_BRANCH, &self.game_info.steam_branch));
        v.push(pair(GAME_OUTPUT_PATH, &self.game_output_path));
        v.push((String::from_str(STEAM_DEPOT_ID), decimal_string(self.game_info.steam_depot_id)));
        assert(fields_view(v@) =~= context_fields(*self));
        v
    }

    /// Binds a configuration and its paths to the fixed descriptor templates.
    /// Fails with `LowlyError::Template` exactly when a fixed template is not
    /// plain over the fields it is filled from.
    pub fn new(game_info: GodotGameInfo, game_path: String, game_output_path: String) -> (r: Result<Self, LowlyError>)
        ensures
            catalog_plain(game_info.steam_app_id, game_info.steam_branch@, game_output_path@, game_info.steam_depot_id)
                ==> (r matches Ok(c) && c.wf() && c.game_info == game_info && c.game_path == game_path
                && c.game_output_path == game_output_path),
            !catalog_plain(game_info.steam_app_id, game_info.steam_branch@, game_output_path@, game_info.steam_depot_id)
                ==> r == Err::<Self, LowlyError>(LowlyError::Template),
    {
        let app = app_field_list(
            game_info.steam_app_id,
            &game_info.steam_branch,
            &game_output_path,
            game_info.steam_depot_id,
        );
        let depot = depot_field_list(game_info.steam_depot_id);
        if !check_plain(APP_BUILD_TEMPLATE, &app) || !check_plain(APP_DEPOT_BUILD_TEMPLATE, &depot) {
            return Err(LowlyError::Template);
        }
        Ok(GodotBuildContext { game_info, game_path, game_output_path })
    }

    /// Renders the app descriptor.
    pub fn compile_app_build(&self) -> (r: Result<String, LowlyError>)
        requires
            self.wf(),
        ensures
            r matches Ok(s) && s@ == app_descriptor(
                self.game_info.steam_app_id,
                self.game_info.steam_branch@,
                self.game_output_path@,
                self.game_info.steam_depot_id,
            ),
    {
        proof {
            lemma_context_fields(*self);
        }
        let fields = self.field_list();
        match render_template(APP_BUILD_TEMPLATE, &fields) {
            Ok(s) => Ok(s),
            Err(_) => Err(LowlyError::Template),
        }
    }

    /// Renders the depot descriptor.
    pub fn compile_depot_build(&self) -> (r: Result<String, LowlyError>)
        requires
            self.wf(),
        ensures
            r matches Ok(s) && s@ == depot_descriptor(self.game_info.steam_depot_id),
    {
        proof {
            lemma_context_fields(*self);
        }
        let fields = self.field_list();
        match render_template(APP_DEPOT_BUILD_TEMPLATE, &fields) {
            Ok(s) => Ok(s),
            Err(_) => Err(LowlyError::Template),
        }
    }

    /// Renders the `from` and `to` paths of the extra file at `index` over the
    /// context's fields; fails with `LowlyError::ExtraFileTemplate` where either
    /// is not a plain template.
    pub fn render_extra_file(&self, index: usize) -> (r: Result<(String, String), LowlyError>)
        requires
            index < self.game_info.extra_files.len(),
        ensures
            match r {
                Ok(p) => extra_file_paths(*self, index as int) == Some((p.0@, p.1@)),
                Err(e) => extra_file_paths(*self, index as int) is None
                    && e == LowlyError::ExtraFileTemplate { index },
            },
    {
        let fields = self.field_list();
        let file = &self.game_info.extra_files[index];
        if !check_plain(file.from.as_str(), &fields) || !check_plain(file.to.as_str(), &fields) {
            return Err(LowlyError::ExtraFileTemplate { index });
        }
        let from = match render_template(file.from.as_str(), &fields) {
            Ok(s) => s,
            Err(_) => return Err(LowlyError::ExtraFileTemplate { index }),
        };
        let to = match render_template(file.to.as_str(), &fields) {
            Ok(s) => s,
            Err(_) => return Err(LowlyError::ExtraFileTemplate { index }),
        };
        Ok((from, to))
    }
}

/// The app descriptor is its fixed template with exactly the app id, branch,
/// output path and depot id filled in: contexts that agree on those four render
/// the same app descriptor, whatever their other fields.
pub proof fn lemma_app_descriptor_fields(c1: GodotBuildContext, c2: GodotBuildContext)
    requires
        c1.wf(),
        c2.wf(),
        c1.game_info.steam_app_id == c2.game_info.steam_app_id,
        c1.game_info.steam_branch@ == c2.game_info.steam_branch@,
        c1.game_output_path@ == c2.game_output_path@,
        c1.game_info.steam_depot_id == c2.game_info.steam_depot_id,
    ensures
        expand(APP_BUILD_TEMPLATE@, context_fields(c1)) == expand(APP_BUILD_TEMPLATE@, context_fields(c2)),
        expand(APP_BUILD_TEMPLATE@, context_fields(c1)) == app_descriptor(
            c1.game_info.steam_app_id,
            c1.game_info.steam_branch@,
            c1.game_output_path@,
            c1.game_info.steam_depot_id,
        ),
{
    lemma_context_fields(c1);
    lemma_context_fields(c2);
}

/// The depot descriptor depends on the depot id alone: contexts with the same
/// depot id render the same depot descriptor, whatever their app id and branch.
pub proof fn lemma_depot_descriptor_fields(c1: GodotBuildContext, c2: GodotBuildContext)
    requires
        c1.wf(),
        c2.wf(),
        c1.game_info.steam_depot_id == c2.game_info.steam_depot_id,
    ensures
        expand(APP_DEPOT_BUILD_TEMPLATE@, context_fields(c1)) == expand(
            APP_DEPOT_BUILD_TEMPLATE@,
            context_fields(c2),
        ),
        expand(APP_DEPOT_BUILD_TEMPLATE@, context_fields(c1)) == depot_descriptor(c1.game_info.steam_depot_id),
{
    lemma_context_fields(c1);
    lemma_context_fields(c2);
}

} // verus!
