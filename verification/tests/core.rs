use pic_od::config::{Config, Profile};
use pic_od::error::UploadError;
use pic_od::template::{render_filename, TemplateContext};
use pic_od::uploader::build_public_url;

fn profile(scheme: &str, base_url: &str) -> Profile {
    Profile {
        scheme: scheme.to_string(),
        base_url: base_url.to_string(),
        filename_format: None,
        options: Vec::new(),
    }
}

#[test]
fn render_without_template_is_basename() {
    assert_eq!(render_filename(None, "/a/b/photo.jpg"), "photo.jpg");
}

#[test]
fn render_date_stem_ext() {
    let ctx = TemplateContext::with_date("/a/b/photo.jpg", "20240501".to_string());
    assert_eq!(ctx.render("{date}/{stem}.{ext}"), "20240501/photo.jpg");
}

#[test]
fn render_name_keeps_full_extension() {
    let ctx = TemplateContext::with_date("/a/b/archive.tar.gz", "20240501".to_string());
    assert_eq!(ctx.render("{name}"), "archive.tar.gz");
    assert_eq!(ctx.stem, "archive.tar");
    assert_eq!(ctx.ext, "gz");
}

#[test]
fn render_is_pure() {
    let ctx = TemplateContext::with_date("/a/b/photo.jpg", "20240501".to_string());
    let first = ctx.render("{date}/{stem}.{ext}");
    let second = ctx.render("{date}/{stem}.{ext}");
    assert_eq!(first, second);
}

#[test]
fn unrecognized_placeholders_stay_verbatim() {
    let ctx = TemplateContext::with_date("/a/b/photo.jpg", "20240501".to_string());
    assert_eq!(ctx.render("{foo}/{name}"), "{foo}/photo.jpg");
    assert_eq!(ctx.render("plain text"), "plain text");
}

#[test]
fn substituted_text_is_not_rescanned() {
    let ctx = TemplateContext::with_date("/a/{stem}.txt", "20240501".to_string());
    assert_eq!(ctx.name, "{stem}.txt");
    assert_eq!(ctx.render("{name}"), "{stem}.txt");
}

#[test]
fn render_filename_with_template_uses_name() {
    assert_eq!(render_filename(Some("{name}"), "/a/b.txt"), "b.txt");
    assert_eq!(render_filename(Some("x/{stem}"), "/a/b.txt"), "x/b");
}

#[test]
fn hidden_files_have_no_extension() {
    let ctx = TemplateContext::with_date("/a/.gitignore", "20240501".to_string());
    assert_eq!(ctx.name, ".gitignore");
    assert_eq!(ctx.stem, ".gitignore");
    assert_eq!(ctx.ext, "");
}

#[test]
fn degenerate_paths_fall_back() {
    assert_eq!(render_filename(None, "/a/b/"), "b");
    assert_eq!(render_filename(None, "/"), "file");
    assert_eq!(render_filename(None, ".."), "file");
    assert_eq!(render_filename(None, ""), "file");
}

#[test]
fn url_join_strips_separators() {
    assert_eq!(
        build_public_url("https://cdn.example.com/", "/images/", "20240501/x.jpg"),
        "https://cdn.example.com/images/20240501/x.jpg"
    );
}

#[test]
fn url_join_with_empty_root() {
    assert_eq!(
        build_public_url("https://cdn.example.com", "", "x.jpg"),
        "https://cdn.example.com/x.jpg"
    );
    assert_eq!(
        build_public_url("https://cdn.example.com", "/", "/x.jpg"),
        "https://cdn.example.com/x.jpg"
    );
}

#[test]
fn resolve_without_any_profile_fails() {
    let config = Config { current_profile: None, profiles: Vec::new() };
    let r = config.get_profile(None);
    assert!(matches!(r, Err(UploadError::NoProfileSelected)));
}

#[test]
fn resolve_unknown_explicit_name_fails() {
    let config = Config {
        current_profile: None,
        profiles: vec![("main".to_string(), profile("memory", "https://cdn.example.com"))],
    };
    let r = config.get_profile(Some("other"));
    match r {
        Err(UploadError::ProfileNotFound(name)) => assert_eq!(name, "other"),
        _ => panic!("expected ProfileNotFound"),
    }
}

#[test]
fn resolve_uses_explicit_name_then_current() {
    let config = Config {
        current_profile: Some("main".to_string()),
        profiles: vec![
            ("main".to_string(), profile("memory", "https://a.example.com")),
            ("alt".to_string(), profile("memory", "https://b.example.com")),
        ],
    };
    assert_eq!(config.get_profile(Some("alt")).unwrap().base_url, "https://b.example.com");
    assert_eq!(config.get_profile(None).unwrap().base_url, "https://a.example.com");
}

#[test]
fn resolve_stale_current_profile_fails() {
    let config = Config {
        current_profile: Some("gone".to_string()),
        profiles: vec![("main".to_string(), profile("memory", "https://a.example.com"))],
    };
    let r = config.get_profile(None);
    match r {
        Err(UploadError::ProfileNotFound(name)) => assert_eq!(name, "gone"),
        _ => panic!("expected ProfileNotFound"),
    }
}

#[test]
fn set_current_profile_to_unknown_name_leaves_state() {
    let mut config = Config {
        current_profile: Some("main".to_string()),
        profiles: vec![("main".to_string(), profile("memory", "https://a.example.com"))],
    };
    let r = config.set_current_profile("other");
    assert!(matches!(r, Err(UploadError::ProfileNotFound(_))));
    assert_eq!(config.current_profile.as_deref(), Some("main"));
}

#[test]
fn set_current_profile_updates() {
    let mut config = Config {
        current_profile: None,
        profiles: vec![
            ("main".to_string(), profile("memory", "https://a.example.com")),
            ("alt".to_string(), profile("memory", "https://b.example.com")),
        ],
    };
    assert!(config.set_current_profile("alt").is_ok());
    assert_eq!(config.current_profile.as_deref(), Some("alt"));
}

#[test]
fn list_marks_the_current_profile() {
    let config = Config {
        current_profile: Some("alt".to_string()),
        profiles: vec![
            ("main".to_string(), profile("memory", "https://a.example.com")),
            ("alt".to_string(), profile("memory", "https://b.example.com")),
        ],
    };
    let listed = config.list();
    assert_eq!(listed.len(), 2);
    assert_eq!(listed[0], ("main".to_string(), false));
    assert_eq!(listed[1], ("alt".to_string(), true));
}

#[test]
fn error_messages_name_the_cause() {
    assert_eq!(
        UploadError::NoProfileSelected.message(),
        "No profile specified and no current profile set"
    );
    assert_eq!(
        UploadError::ProfileNotFound("x".to_string()).message(),
        "Profile 'x' not found"
    );
    assert_eq!(
        UploadError::LocalReadError("gone".to_string()).message(),
        "Failed to read file: gone"
    );
}
