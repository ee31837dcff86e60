use ospv::config::{BuildTarget, Compiler, IoFormat, Path, Spvconfig};

fn compiler() -> Compiler {
    Compiler {
        name: "glslc".to_string(),
        executable: "/usr/bin/glslc".to_string(),
        spawn: "glslc {options} {debug_options}{release_options} {input} {output}".to_string(),
        input: IoFormat::Empty,
        output: IoFormat::Prefix { prefix: "-o".to_string() },
        options: Some("--target-env=vulkan".to_string()),
        debug_options: Some("-g".to_string()),
        release_options: None,
    }
}

fn path(name: &str, dir: &str) -> Path {
    Path { name: name.to_string(), dir: dir.to_string() }
}

fn config() -> Spvconfig {
    Spvconfig {
        target_dir: "out".to_string(),
        work_dir: "work".to_string(),
        paths: vec![path("shaders", "src/shaders"), path("extra", "src/extra")],
        compilers: Some(vec![compiler()]),
    }
}

#[test]
fn valid_configuration_passes() {
    assert_eq!(config().validate(), Ok(()));
    assert_eq!(compiler().validate(), Ok(()));
}

#[test]
fn missing_directories_are_reported() {
    let mut c = config();
    c.target_dir = String::new();
    assert_eq!(c.validate(), Err("'target_dir' is empty".to_string()));
    let mut c = config();
    c.work_dir = String::new();
    assert_eq!(c.validate(), Err("'work_dir' is empty".to_string()));
}

#[test]
fn path_list_errors() {
    let mut c = config();
    c.paths = vec![];
    assert_eq!(c.validate(), Err("there's no paths listed".to_string()));

    let mut c = config();
    c.paths.push(path("", "x"));
    assert_eq!(c.validate(), Err("path 2 has empty name".to_string()));

    let mut c = config();
    c.paths.push(path("y", ""));
    assert_eq!(c.validate(), Err("path 2 has empty directory".to_string()));

    let mut c = config();
    c.paths.push(path("z", "a"));
    c.paths.push(path("extra", "b"));
    assert_eq!(
        c.validate(),
        Err("paths 3 and 1 both uses the same name extra".to_string())
    );
    assert_eq!(path("n", "d").validate(), Ok(()));
}

#[test]
fn compiler_errors() {
    let mut c = compiler();
    c.name = String::new();
    assert_eq!(c.validate(), Err("compiler has empty name".to_string()));

    let mut c = compiler();
    c.executable = String::new();
    assert_eq!(c.validate(), Err("compiler glslc has empty executable".to_string()));

    let mut c = compiler();
    c.spawn = String::new();
    assert_eq!(c.validate(), Err("compiler glslc spawn is_empty".to_string()));

    let mut c = compiler();
    c.spawn = "glslc {output}".to_string();
    assert_eq!(c.validate(), Err("compiler glslc spawn missing '{input}'".to_string()));

    let mut c = compiler();
    c.spawn = "glslc {input} {input} {output}".to_string();
    assert_eq!(
        c.validate(),
        Err("compiler glslc spawn contains multiple '{input}'".to_string())
    );

    let mut c = compiler();
    c.spawn = "glslc {input} {output} {options}{options}".to_string();
    assert_eq!(
        c.validate(),
        Err("compiler glslc spawn contains multiple '{options}'".to_string())
    );

    let mut c = compiler();
    c.output = IoFormat::Prefix { prefix: String::new() };
    assert_eq!(c.validate(), Err("compiler glslc prefix is empty".to_string()));

    let mut c = compiler();
    c.input = IoFormat::Format { format: "-i={}.{}".to_string() };
    assert_eq!(
        c.validate(),
        Err("compiler glslc format contains multiple '{}'".to_string())
    );

    let mut c = compiler();
    c.input = IoFormat::Format { format: "-i".to_string() };
    assert_eq!(c.validate(), Err("compiler glslc format missing '{}'".to_string()));

    let mut cfg = config();
    cfg.compilers = Some(vec![compiler(), c]);
    assert_eq!(cfg.validate(), Err("compiler glslc format missing '{}'".to_string()));
}

#[test]
fn prepare_fills_option_slots() {
    let debug = compiler().prepare(BuildTarget::Debug);
    assert_eq!(debug.spawn, "glslc --target-env=vulkan -g{release_options} {input} {output}");
    assert_eq!(debug.options, None);
    assert_eq!(debug.debug_options, None);
    assert_eq!(debug.release_options, None);
    assert_eq!(debug.name, "glslc");
    assert_eq!(debug.output, IoFormat::Prefix { prefix: "-o".to_string() });

    let release = compiler().prepare(BuildTarget::Release);
    assert_eq!(release.spawn, "glslc --target-env=vulkan {debug_options} {input} {output}");
}

#[test]
fn format_puts_in_file_names() {
    let c = compiler();
    assert_eq!(c.format("a.vert", "a.spv"), "glslc {options} {debug_options}{release_options} a.vert -o a.spv");

    let mut f = compiler();
    f.spawn = "cc {input} {output}".to_string();
    f.input = IoFormat::Format { format: "--in={}".to_string() };
    assert_eq!(f.format("x.frag", "x.spv"), "cc --in=x.frag -o x.spv");
}

#[test]
fn io_format_validate_and_format() {
    assert_eq!(IoFormat::Empty.validate(), Ok(()));
    assert_eq!(IoFormat::Empty.format("f"), "f");
    let p = IoFormat::Prefix { prefix: "-I".to_string() };
    assert_eq!(p.format("dir"), "-I dir");
    let f = IoFormat::Format { format: "<{}>".to_string() };
    assert_eq!(f.validate(), Ok(()));
    assert_eq!(f.format("n"), "<n>");
}
