use lowly::config::{GameConfig, GameInfoType, GodotGameInfo, GodotGameInfoExtraFile, GodotPCKInfo};
use lowly::context::{GodotBuildContext, APP_BUILD_TEMPLATE, APP_DEPOT_BUILD_TEMPLATE};
use lowly::decimal::decimal_string;
use lowly::error::{Descriptor, LowlyError};
use lowly::release::{start_release, Action, Phase, Release, Warning};
use lowly::template::check_plain;

fn info(app: i32, depot: i32, branch: &str) -> GodotGameInfo {
    GodotGameInfo {
        steam_app_id: app,
        steam_depot_id: depot,
        steam_branch: branch.to_string(),
        steam_account_name: "builder".to_string(),
        engine_binaries_path: "/opt/godot/bin".to_string(),
        extra_files: Vec::new(),
        editor_path: "/opt/godot/godot".to_string(),
        files: Vec::new(),
        pcks: Vec::new(),
    }
}

fn demo_info() -> GodotGameInfo {
    let mut i = info(10, 11, "beta");
    i.pcks.push(GodotPCKInfo { name: "demo.pck".to_string(), export_preset_name: "Linux".to_string() });
    i
}

fn context(i: GodotGameInfo, output: &str) -> GodotBuildContext {
    GodotBuildContext::new(i, "/game".to_string(), output.to_string()).unwrap()
}

fn filled(template: &str, pairs: &[(&str, &str)]) -> String {
    let mut s = template.replace("\\{", "{");
    for (k, v) in pairs {
        s = s.replace(&format!("{{{}}}", k), v);
    }
    s
}

#[test]
fn app_descriptor_scenario() {
    let c = context(demo_info(), "/tmp/out");
    let app = c.compile_app_build().unwrap();
    assert!(app.contains("\"AppID\" \"10\""));
    assert!(app.contains("\"SetLive\" \"beta\""));
    assert!(app.contains("\"ContentRoot\" \"/tmp/out\""));
    assert!(app.contains("\"11\" \"lowly_depot_build.vdf\""));
}

#[test]
fn app_descriptor_is_filled_skeleton() {
    let c = context(demo_info(), "/tmp/out");
    let expected = filled(
        APP_BUILD_TEMPLATE,
        &[
            ("steam_app_id", "10"),
            ("steam_branch", "beta"),
            ("game_output_path", "/tmp/out"),
            ("steam_depot_id", "11"),
        ],
    );
    assert_eq!(c.compile_app_build().unwrap(), expected);
    assert_eq!(c.compile_app_build().unwrap().matches("\"AppID\" \"10\"").count(), 1);
    assert_eq!(c.compile_app_build().unwrap().matches("/tmp/out").count(), 1);
}

#[test]
fn depot_descriptor_holds_depot_id() {
    let c = context(demo_info(), "/tmp/out");
    let depot = c.compile_depot_build().unwrap();
    assert!(depot.contains("\"DepotID\" \"11\""));
    assert_eq!(depot, filled(APP_DEPOT_BUILD_TEMPLATE, &[("steam_depot_id", "11")]));
}

#[test]
fn depot_descriptor_ignores_app_id_and_branch() {
    let a = context(info(10, 11, "beta"), "/tmp/out");
    let b = context(info(99, 11, "release"), "/tmp/other");
    assert_eq!(a.compile_depot_build().unwrap(), b.compile_depot_build().unwrap());
    assert_ne!(a.compile_app_build().unwrap(), b.compile_app_build().unwrap());
}

#[test]
fn values_are_inserted_verbatim() {
    let c = context(info(10, 11, "a&b"), "/tmp/it's<out>");
    let app = c.compile_app_build().unwrap();
    assert!(app.contains("\"SetLive\" \"a&b\""));
    assert!(app.contains("\"ContentRoot\" \"/tmp/it's<out>\""));
    let expected = filled(
        APP_BUILD_TEMPLATE,
        &[
            ("steam_app_id", "10"),
            ("steam_branch", "a&b"),
            ("game_output_path", "/tmp/it's<out>"),
            ("steam_depot_id", "11"),
        ],
    );
    assert_eq!(app, expected);
    let placeholders = "{steam_app_id}{steam_branch}{game_output_path}{steam_depot_id}".len();
    assert_eq!(app.len(), APP_BUILD_TEMPLATE.len() - 2 - placeholders + 2 + 3 + "/tmp/it's<out>".len() + 2);
}

#[test]
fn extra_file_placeholders_may_be_padded() {
    let mut i = demo_info();
    i.extra_files.push(GodotGameInfoExtraFile {
        from: "{ game_output_path }/x".to_string(),
        to: "{\tsteam_branch  }&{game_path }".to_string(),
    });
    let c = context(i, "/tmp/out");
    assert_eq!(
        c.render_extra_file(0).unwrap(),
        ("/tmp/out/x".to_string(), "beta&/game".to_string())
    );
}

#[test]
fn negative_ids_render_with_sign() {
    let c = context(info(-5, 7, "beta"), "/tmp/out");
    assert!(c.compile_app_build().unwrap().contains("\"AppID\" \"-5\""));
}

#[test]
fn decimal_strings() {
    assert_eq!(decimal_string(0), "0");
    assert_eq!(decimal_string(10), "10");
    assert_eq!(decimal_string(-42), "-42");
    assert_eq!(decimal_string(i32::MAX), "2147483647");
    assert_eq!(decimal_string(i32::MIN), "-2147483648");
}

#[test]
fn extra_file_rendering_is_repeatable() {
    let mut i = demo_info();
    i.extra_files.push(GodotGameInfoExtraFile {
        from: "{game_path}/steam_appid.txt".to_string(),
        to: "{game_output_path}/steam_appid_{steam_app_id}.txt".to_string(),
    });
    let c = context(i, "/tmp/out");
    let first = c.render_extra_file(0).unwrap();
    let second = c.render_extra_file(0).unwrap();
    assert_eq!(first, second);
    assert_eq!(first.0, "/game/steam_appid.txt");
    assert_eq!(first.1, "/tmp/out/steam_appid_10.txt");
}

#[test]
fn extra_file_escaped_brace_and_plain_text() {
    let mut i = demo_info();
    i.extra_files.push(GodotGameInfoExtraFile { from: "a\\{b}".to_string(), to: "plain".to_string() });
    let c = context(i, "/tmp/out");
    assert_eq!(c.render_extra_file(0).unwrap(), ("a{b}".to_string(), "plain".to_string()));
}

#[test]
fn malformed_extra_file_templates_fail() {
    let bad = ["{unknown_field}", "{{ if steam_branch }}x{{ endif }}", "trailing\\", "{game_path", "{ }", "{game_path | unescaped}"];
    for b in bad.iter() {
        let mut i = demo_info();
        i.extra_files.push(GodotGameInfoExtraFile { from: "ok".to_string(), to: "ok".to_string() });
        i.extra_files.push(GodotGameInfoExtraFile { from: b.to_string(), to: "ok".to_string() });
        let c = context(i, "/tmp/out");
        assert!(c.render_extra_file(0).is_ok());
        assert_eq!(c.render_extra_file(1), Err(LowlyError::ExtraFileTemplate { index: 1 }));
    }
}

#[test]
fn plain_template_check() {
    let fields = vec![("name".to_string(), "v".to_string())];
    assert!(check_plain("x {name} y", &fields));
    assert!(check_plain("\\{ {name} }", &fields));
    assert!(check_plain("", &fields));
    assert!(check_plain("{ name }", &fields));
    assert!(check_plain("{\tname}", &fields));
    assert!(!check_plain("{ na me }", &fields));
    assert!(!check_plain("{other}", &fields));
    assert!(!check_plain("{Name}", &fields));
    assert!(!check_plain("x\\", &fields));
    assert!(!check_plain("{", &fields));
}

fn expect_run(a: &Action) -> (String, Vec<String>) {
    match a {
        Action::Run(c) => (c.program.clone(), c.args.clone()),
        _ => panic!("expected a run action"),
    }
}

#[test]
fn scenario_with_one_package() {
    let mut r = Release::new(context(demo_info(), "/tmp/out"), "/scratch".to_string());
    let s = r.step(true);
    let (program, args) = expect_run(&s.action);
    assert_eq!(program, "/opt/godot/godot");
    assert_eq!(args, vec!["--headless", "--path", "/game", "--export-pack", "Linux", "/tmp/out/demo.pck"]);
    let s = r.step(true);
    match s.action {
        Action::Write { path, contents } => {
            assert_eq!(path, "/scratch/lowly_build.vdf");
            assert!(contents.contains("\"AppID\" \"10\""));
        }
        _ => panic!("expected the app descriptor"),
    }
    assert_eq!(s.warning, None);
}

#[test]
fn export_failure_does_not_stop_release() {
    let mut i = demo_info();
    i.pcks.push(GodotPCKInfo { name: "extra.pck".to_string(), export_preset_name: "Windows".to_string() });
    i.extra_files.push(GodotGameInfoExtraFile { from: "/a".to_string(), to: "/b".to_string() });
    let mut r = Release::new(context(i, "/tmp/out"), "/scratch".to_string());
    r.step(true);
    let s = r.step(false);
    assert_eq!(s.warning, Some(Warning::ExportFailed { package: 0 }));
    assert_eq!(expect_run(&s.action).1[4], "Windows");
    let s = r.step(false);
    assert_eq!(s.warning, Some(Warning::ExportFailed { package: 1 }));
    assert!(matches!(s.action, Action::Copy { .. }));
    assert!(matches!(r.step(true).action, Action::Write { .. }));
    assert!(matches!(r.step(true).action, Action::Write { .. }));
    let s = r.step(true);
    assert_eq!(expect_run(&s.action).0, "steamcmd");
    let s = r.step(false);
    assert_eq!(s.warning, Some(Warning::UploadFailed));
    assert!(matches!(s.action, Action::Finish));
}

#[test]
fn copy_failure_aborts_before_descriptors() {
    let mut i = info(10, 11, "beta");
    i.extra_files.push(GodotGameInfoExtraFile { from: "/missing".to_string(), to: "/b".to_string() });
    let mut r = Release::new(context(i, "/tmp/out"), "/scratch".to_string());
    match r.step(true).action {
        Action::Copy { from, to } => {
            assert_eq!(from, "/missing");
            assert_eq!(to, "/b");
        }
        _ => panic!("expected a copy"),
    }
    let s = r.step(false);
    assert!(matches!(s.action, Action::Abort(LowlyError::CopyFailed { index: 0 })));
    for _ in 0..3 {
        assert!(matches!(r.step(true).action, Action::Abort(LowlyError::CopyFailed { index: 0 })));
    }
    assert_eq!(r.phase, Phase::Aborted(LowlyError::CopyFailed { index: 0 }));
}

#[test]
fn write_failure_aborts() {
    let mut r = Release::new(context(info(10, 11, "beta"), "/tmp/out"), "/scratch".to_string());
    r.step(true);
    let s = r.step(false);
    assert!(matches!(
        s.action,
        Action::Abort(LowlyError::WriteFailed { descriptor: Descriptor::AppBuild })
    ));
}

#[test]
fn empty_release_writes_both_and_uploads_once() {
    let mut r = Release::new(context(info(10, 11, "beta"), "/tmp/out"), "/scratch".to_string());
    let mut writes = Vec::new();
    let mut uploads = Vec::new();
    for _ in 0..10 {
        let s = r.step(true);
        match s.action {
            Action::Write { path, .. } => writes.push(path),
            Action::Run(c) => uploads.push(c.args),
            Action::Finish => break,
            _ => panic!("unexpected action"),
        }
    }
    assert_eq!(writes, vec!["/scratch/lowly_build.vdf", "/scratch/lowly_depot_build.vdf"]);
    assert_eq!(uploads.len(), 1);
    assert_eq!(
        uploads[0],
        vec!["+login", "builder", "+run_app_build", "/scratch/lowly_build.vdf", "+exit"]
    );
    assert_eq!(r.phase, Phase::Finished);
}

#[test]
fn start_release_dispatches_on_kind() {
    let config = GameConfig { game_info: GameInfoType::Godot(demo_info()) };
    let r = start_release(config, "/game".to_string(), "/tmp/out".to_string(), "/scratch".to_string()).unwrap();
    assert_eq!(r.phase, Phase::Start);
    assert_eq!(r.context.game_info, demo_info());
    assert_eq!(r.temp_dir, "/scratch");
}
