use orbiton::args::TestCommand;
use orbiton::components::{Component, PropType};
use orbiton::project_templates::{ComponentFormat, TemplateManager, TemplateType};
use orbiton::templates::get_template;
use orbiton::test_component::TestComponent;

#[test]
fn test_command_creation() {
    let cmd = TestCommand {
        watch: true,
        unit: false,
        integration: true,
        performance: false,
        coverage: true,
        report: true,
        update_snapshots: false,
        verbose: true,
        project_dir: None,
    };

    assert!(cmd.watch);
    assert!(!cmd.unit);
    assert!(cmd.integration);
    assert!(!cmd.performance);
    assert!(cmd.coverage);
    assert!(cmd.report);
    assert!(!cmd.update_snapshots);
    assert!(cmd.verbose);
    assert_eq!(cmd.project_dir, None);
}

fn build_test_command_args(cmd: &TestCommand) -> Vec<String> {
    cmd.cargo_test_args()
}

#[test]
fn test_build_cmd_args() {
    let cmd = TestCommand {
        watch: false,
        unit: true,
        integration: false,
        performance: false,
        coverage: false,
        report: false,
        update_snapshots: false,
        verbose: true,
        project_dir: None,
    };

    let args = build_test_command_args(&cmd);

    assert!(args.contains(&"test".to_string()));
    assert!(args.contains(&"--verbose".to_string()));
    assert!(args.contains(&"--lib".to_string()));
    assert!(!args.contains(&"--test".to_string()));
}

#[test]
fn test_simple_component() {
    let mut component = Component::new(
        "Button".to_string(),
        "button".to_string(),
        Vec::new(),
        "A simple button component".to_string(),
    );
    component.add_prop("disabled".to_string(), PropType::Boolean);
    component.add_prop("label".to_string(), PropType::String);

    let code = component.generate_code();
    assert!(code.contains("disabled"));
    assert!(code.contains("label"));
}

#[test]
fn test_complex_component() {
    let mut user_type = Vec::new();
    user_type.push(("name".to_string(), PropType::String));
    user_type.push(("age".to_string(), PropType::Number));

    let mut component = Component::new(
        "UserCard".to_string(),
        "user-card".to_string(),
        Vec::new(),
        "A user card component".to_string(),
    );
    component.add_prop("tags".to_string(), PropType::Array(Box::new(PropType::String)));
    component.add_prop("user".to_string(), PropType::Object(user_type));

    let code = component.generate_code();
    assert!(code.contains("tags"));
    assert!(code.contains("user"));
}

#[test]
fn generate_code_exact_output() {
    let mut component = Component::new(
        "Button".to_string(),
        "button".to_string(),
        Vec::new(),
        "desc".to_string(),
    );
    component.add_prop("disabled".to_string(), PropType::Boolean);
    component.add_prop("label".to_string(), PropType::String);
    assert_eq!(component.generate_code(), "Component { name: Button, props: [disabled, label] }");
}

#[test]
fn test_template_type_from_str() {
    assert!(matches!(TemplateType::from_str("basic"), Ok(TemplateType::Basic)));
    assert!(matches!(TemplateType::from_str("advanced"), Ok(TemplateType::Advanced)));
    assert!(matches!(
        TemplateType::from_str("component-library"),
        Ok(TemplateType::ComponentLibrary)
    ));
    assert!(TemplateType::from_str("invalid").is_err());
}

#[test]
fn test_component_creation() {
    let component = TestComponent::new();
    assert_eq!(component.value, 42);
    assert_eq!(component.message, "Hello from Orbit HMR!");
}

#[test]
fn test_component_update() {
    let mut component = TestComponent::new();
    component.update(100);
    assert_eq!(component.value, 100);
}

#[test]
fn test_test_component_functionality() {
    let mut component = TestComponent::new();
    assert_eq!(
        component.render(),
        "TestComponent { value: 42, message: 'Hello from Orbit HMR!' }"
    );

    component.update(100);
    assert_eq!(
        component.render(),
        "TestComponent { value: 100, message: 'Hello from Orbit HMR!' }"
    );

    component.update(-10);
    assert_eq!(
        component.render(),
        "TestComponent { value: -10, message: 'Hello from Orbit HMR!' }"
    );
}

#[test]
fn get_template_known_and_unknown() {
    let basic = get_template("basic").unwrap();
    assert_eq!(basic.len(), 7);
    assert_eq!(basic[0].path, "Cargo.toml");
    assert!(basic.iter().any(|f| f.path == "src/components/counter.orbitrs"));

    let library = get_template("component-library").unwrap();
    assert_eq!(library.len(), 8);
    assert!(library.iter().any(|f| f.path == "src/components/button.orbitrs"));

    let app = get_template("full-app").unwrap();
    assert_eq!(app.len(), 8);
    assert!(app.iter().any(|f| f.path == "src/components/app.orbitrs"));

    let err = match get_template("bogus") {
        Err(m) => m,
        Ok(_) => panic!("expected an unknown-template error"),
    };
    assert_eq!(err, "Unknown template: bogus");
}

#[test]
fn parse_legacy_sections() {
    let content = "<template>\n<div/>\n</template>\n<script>\nfn x() {}\n</script>\n";
    let sections = TemplateManager::parse_component_sections(content, ComponentFormat::Legacy);
    assert_eq!(sections.len(), 2);
    assert_eq!(sections[0].name, "template");
    assert_eq!(sections[0].lang, "html");
    assert_eq!(sections[0].content, "<div/>\n");
    assert_eq!(sections[1].name, "code");
    assert_eq!(sections[1].lang, "rust");
    assert_eq!(sections[1].content, "fn x() {}\n");
}

#[test]
fn parse_modern_sections() {
    let content = "<template>\nhello\n<rust>\nfn x() {}\n";
    let sections = TemplateManager::parse_component_sections(content, ComponentFormat::Modern);
    assert_eq!(sections.len(), 2);
    assert_eq!(sections[0].name, "template");
    assert_eq!(sections[0].lang, "template");
    assert_eq!(sections[0].content, "hello\n");
    assert_eq!(sections[1].name, "code");
    assert_eq!(sections[1].lang, "rust");
    assert_eq!(sections[1].content, "fn x() {}\n");
}

#[test]
fn parse_markdown_sections() {
    let content = "# Title\n\n```rust\nfn f() {}\n```\n";
    let sections = TemplateManager::parse_component_sections(content, ComponentFormat::Markdown);
    assert_eq!(sections.len(), 2);
    assert_eq!(sections[0].name, "markdown");
    assert_eq!(sections[0].content, "# Title");
    assert_eq!(sections[1].name, "code");
    assert_eq!(sections[1].lang, "rust");
    assert_eq!(sections[1].content, "fn f() {}\n");
}

#[test]
fn determine_section_names() {
    assert_eq!(TemplateManager::determine_section_name("html"), "template");
    assert_eq!(TemplateManager::determine_section_name("css"), "style");
    assert_eq!(TemplateManager::determine_section_name("rust"), "code");
    assert_eq!(TemplateManager::determine_section_name("md"), "markdown");
    assert_eq!(TemplateManager::determine_section_name("toml"), "toml");
}

#[test]
fn list_templates_order() {
    let manager = TemplateManager::new("templates".to_string());
    let templates = manager.list_templates();
    assert_eq!(templates.len(), 3);
    assert!(matches!(templates[0], TemplateType::Basic));
    assert!(matches!(templates[1], TemplateType::ComponentLibrary));
    assert!(matches!(templates[2], TemplateType::Advanced));
}
