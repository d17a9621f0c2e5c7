use serve_control::error::ControlError;
use serve_control::template::{
    plan_template, Destination, FileStep, Target, TEMPLATE, TEMPLATE_MODE, TEMPLATE_NAME,
};

fn target(path: &str, is_directory: bool, missing_parent: Option<&str>) -> Destination {
    Destination::Named(Target {
        path: path.to_string(),
        is_directory,
        missing_parent: missing_parent.map(|p| p.to_string()),
    })
}

fn write(path: &str) -> FileStep {
    FileStep::WriteFile { path: path.to_string(), mode: 0o755, content: TEMPLATE.to_string() }
}

#[test]
fn scaffold_text_is_fixed() {
    assert_eq!(
        TEMPLATE,
        "host=\"0.0.0.0\"\nport=7999\nworkers=1\n#proxies=[]\ntimeout=600\nconnect_timeout=60\ntcp_keepalive=60\n#tls_cert=\n#tls_key=\n#api_prefix=\ntb_enable=false\ntb_store_strategy=\"mem\"\ntb_redis_url=[\"redis://127.0.0.1:6379\"]\ntb_capacity=60\ntb_fill_rate=1\ntb_expired=86400\n#sign_secret_key=\n#cf_site_key=\n#cf_secret_key=\n"
    );
    assert_eq!(TEMPLATE_NAME, "opengpt-serve.toml");
    assert_eq!(TEMPLATE_MODE, 0o755);
}

#[test]
fn without_overwrite_nothing_is_planned() {
    assert_eq!(plan_template(false, target("/tmp/x.toml", false, None)), Ok(vec![]));
    assert_eq!(plan_template(false, Destination::Default("/srv".to_string())), Ok(vec![]));
}

#[test]
fn without_overwrite_no_directory_is_created_either() {
    assert_eq!(plan_template(false, target("/tmp/new/x.toml", false, Some("/tmp/new"))), Ok(vec![]));
}

#[test]
fn directory_target_is_refused() {
    assert_eq!(
        plan_template(true, target("/tmp", true, None)),
        Err(ControlError::TargetIsDirectory)
    );
}

#[test]
fn directory_target_is_refused_without_overwrite_too() {
    assert_eq!(
        plan_template(false, target("/tmp", true, None)),
        Err(ControlError::TargetIsDirectory)
    );
    assert_eq!(
        plan_template(false, target("/tmp", true, Some("/"))),
        Err(ControlError::TargetIsDirectory)
    );
}

#[test]
fn overwrite_writes_the_scaffold() {
    assert_eq!(
        plan_template(true, target("/tmp/x.toml", false, None)),
        Ok(vec![write("/tmp/x.toml")])
    );
}

#[test]
fn missing_parent_is_created_first() {
    assert_eq!(
        plan_template(true, target("/tmp/a/b/x.toml", false, Some("/tmp/a/b"))),
        Ok(vec![FileStep::CreateDirectories("/tmp/a/b".to_string()), write("/tmp/a/b/x.toml")])
    );
}

#[test]
fn default_target_is_in_the_working_directory() {
    assert_eq!(
        plan_template(true, Destination::Default("/srv/app".to_string())),
        Ok(vec![write("/srv/app/opengpt-serve.toml")])
    );
    assert_eq!(
        plan_template(true, Destination::Default("/".to_string())),
        Ok(vec![write("/opengpt-serve.toml")])
    );
}

#[test]
fn relative_target_is_written_as_given() {
    assert_eq!(plan_template(true, target("x.toml", false, None)), Ok(vec![write("x.toml")]));
}
