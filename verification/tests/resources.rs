use ivrigst::resources::{ShaderKind, WatchPoll, contains_nul, model_names,
    resource_name_to_path, shader_kind_for_name, shader_stage_paths, str_ends_with, str_eq,
    updated_paths};

#[test]
fn resource_name_to_path_joins() {
    let p = resource_name_to_path("assets", "shaders/model");
    assert_eq!(p, "assets/shaders/model");
    let p = resource_name_to_path("root", "model.obj");
    assert_eq!(p, "root/model.obj");
}

#[test]
fn shader_stage_paths_add_extensions() {
    let (vert, frag) = shader_stage_paths("shaders/model");
    assert_eq!(vert, "shaders/model.vert");
    assert_eq!(frag, "shaders/model.frag");
}

#[test]
fn shader_kind_from_extension() {
    assert_eq!(shader_kind_for_name("shaders/model.vert"), Some(ShaderKind::Vertex));
    assert_eq!(shader_kind_for_name("shaders/model.frag"), Some(ShaderKind::Fragment));
    assert_eq!(shader_kind_for_name("shaders/model.txt"), None);
    assert_eq!(shader_kind_for_name(""), None);
}

#[test]
fn nul_detection() {
    assert!(!contains_nul(&vec![1, 2, 3]));
    assert!(contains_nul(&vec![1, 0, 3]));
    assert!(!contains_nul(&vec![]));
}

#[test]
fn updated_paths_reports_modify_events() {
    let paths = updated_paths(WatchPoll::Modified(vec![
        "a/model.vert".to_string(),
        "a/model.frag".to_string(),
    ]));
    assert_eq!(paths, vec!["a/model.vert".to_string(), "a/model.frag".to_string()]);
}

#[test]
fn updated_paths_ignores_everything_else() {
    assert!(updated_paths(WatchPoll::Empty).is_empty());
    assert!(updated_paths(WatchPoll::OtherEvent).is_empty());
    assert!(updated_paths(WatchPoll::ChannelError).is_empty());
}

#[test]
fn model_names_filter_and_strip() {
    let entries = vec![
        "skull.obj".to_string(),
        "readme.txt".to_string(),
        "heart.obj".to_string(),
        "notes.obj.bak".to_string(),
        "double.obj.obj".to_string(),
    ];
    let names = model_names(&entries);
    assert_eq!(
        names,
        vec!["skull".to_string(), "heart".to_string(), "double".to_string()]
    );
}

#[test]
fn string_helpers() {
    assert!(str_eq("model", "model"));
    assert!(!str_eq("model", "models"));
    assert!(!str_eq("model", "modes"));
    assert!(str_eq("", ""));
    assert!(str_ends_with("model.vert", ".vert"));
    assert!(!str_ends_with("model.vert", ".frag"));
    assert!(!str_ends_with("rt", ".vert"));
}
