use base64::prelude::BASE64_URL_SAFE_NO_PAD;
use base64::Engine;
use jg_launcher::args_parser::{
    classify_arg, init_launcher, ArgAction, ArgKind, ArgsParser, LaunchTarget, LauncherArg, Waiting,
};
use jg_launcher::jar_info::JarInfo;

fn signed_comment(signature: &[u8]) -> Vec<u8> {
    let encoded = BASE64_URL_SAFE_NO_PAD.encode(signature);
    let mut comment = b"jgs-v1:".to_vec();
    comment.extend_from_slice(encoded.as_bytes());
    comment.extend_from_slice(hex::encode((encoded.len() as u16).to_le_bytes()).as_bytes());
    comment
}

fn jar(path: &str) -> JarInfo {
    let comment = signed_comment(&[9u8; 64]);
    JarInfo::parse(path, 1000, "Manifest-Version: 1.0\nMain-Class: app.Main\n", &comment).unwrap()
}

#[derive(Debug, PartialEq)]
enum Outcome {
    Launch(Vec<String>, Vec<String>, bool, String),
    Usage,
    Version,
    FullVersion,
    JgVersion,
    Rejected(String),
    NoTarget,
}

fn args(list: &[&str]) -> Vec<String> {
    list.iter().map(|s| s.to_string()).collect()
}

fn run(list: &[&str], files: &[(&str, &str)]) -> (Outcome, Vec<String>) {
    let mut parser = ArgsParser::new(args(list));
    let mut read = Vec::new();
    loop {
        match parser.step() {
            ArgAction::Continue => {}
            ArgAction::ReadCfgFile(name) => {
                let content = files
                    .iter()
                    .find(|(n, _)| *n == name)
                    .map(|(_, c)| *c)
                    .expect("test file exists");
                read.push(name);
                parser.cfg_file_loaded(content);
            }
            ArgAction::LoadJar(path) => parser.jar_loaded(jar(&path)),
            ArgAction::ShowVersion => return (Outcome::Version, read),
            ArgAction::ShowFullVersion => return (Outcome::FullVersion, read),
            ArgAction::ShowJgVersion => return (Outcome::JgVersion, read),
            ArgAction::ShowUsage => return (Outcome::Usage, read),
            ArgAction::Reject(m) => return (Outcome::Rejected(m), read),
            ArgAction::Finished => break,
        }
    }
    match parser.finish(4242) {
        None => (Outcome::NoTarget, read),
        Some(a) => {
            let target = a.target().target_value().to_string();
            (
                Outcome::Launch(a.vm_args().clone(), a.app_args().clone(), a.server(), target),
                read,
            )
        }
    }
}

fn launch(list: &[&str]) -> LauncherArg {
    let mut parser = ArgsParser::new(args(list));
    loop {
        match parser.step() {
            ArgAction::Continue => {}
            ArgAction::LoadJar(path) => parser.jar_loaded(jar(&path)),
            ArgAction::Finished => break,
            other => panic!("unexpected {other:?}"),
        }
    }
    parser.finish(7).unwrap()
}

#[test]
fn jar_launch_collects_options_and_application_arguments() {
    let (outcome, _) = run(
        &["jg", "-server", "-Dfoo=bar", "-Xmx1g", "-jar", "app.jar", "a", "-Xdebug", "@x"],
        &[],
    );
    assert_eq!(
        outcome,
        Outcome::Launch(
            args(&[
                "-Dfoo=bar",
                "-Xmx1g",
                "-Dsun.java.command=app.jar ",
                "-Dsun.java.launcher=SUN_STANDARD",
                "-Dsun.java.launcher.pid=4242",
                "-XX:+DisableAttachMechanism",
            ]),
            args(&["a", "-Xdebug", "@x"]),
            true,
            "app.jar".to_string()
        )
    );
}

#[test]
fn debugging_attach_and_class_path_options_are_dropped_verbose_kept() {
    let (outcome, _) = run(
        &[
            "jg",
            "-XDEBUG",
            "-xx:-disableattachmechanism",
            "-Xrunjdwp:transport=dt_socket",
            "-Djava.class.path=evil.jar",
            "-verbose:gc",
            "-noverify",
            "-jar",
            "app.jar",
        ],
        &[],
    );
    match outcome {
        Outcome::Launch(vm, app, server, _) => {
            assert_eq!(vm.len(), 5);
            assert_eq!(vm[0], "-verbose:gc");
            assert!(app.is_empty());
            assert!(!server);
        }
        other => panic!("unexpected {other:?}"),
    }
}

#[test]
fn agent_and_unknown_options_are_refused() {
    assert_eq!(
        run(&["jg", "-javaagent:a.jar", "-jar", "x.jar"], &[]).0,
        Outcome::Rejected("agent options are not allowed".to_string())
    );
    assert_eq!(
        run(&["jg", "-agentlib:jdwp"], &[]).0,
        Outcome::Rejected("agent options are not allowed".to_string())
    );
    assert_eq!(
        run(&["jg", "-foo"], &[]).0,
        Outcome::Rejected("not support vm arg: -foo".to_string())
    );
}

#[test]
fn unsupported_options_are_refused() {
    assert_eq!(
        run(&["jg", "-cp"], &[]).0,
        Outcome::Rejected("classpath arg not found".to_string())
    );
    assert_eq!(
        run(&["jg", "-classpath", "a:b"], &[]).0,
        Outcome::Rejected("Not currently supported class path".to_string())
    );
    assert_eq!(
        run(&["jg", "--module-path"], &[]).0,
        Outcome::Rejected("arg --module-path not found value".to_string())
    );
    assert_eq!(
        run(&["jg", "-p", "mods"], &[]).0,
        Outcome::Rejected("Not currently supported -p".to_string())
    );
    assert_eq!(
        run(&["jg", "--list-modules"], &[]).0,
        Outcome::Rejected("Not currently supported --list-modules".to_string())
    );
    assert_eq!(
        run(&["jg", "-esa"], &[]).0,
        Outcome::Rejected("Not currently supported -esa".to_string())
    );
    assert_eq!(
        run(&["jg", "-ea:com.x"], &[]).0,
        Outcome::Rejected("Not currently supported -ea:com.x".to_string())
    );
    assert_eq!(
        run(&["jg", "--add-opens=a/b=c"], &[]).0,
        Outcome::Rejected("Not currently supported --add-opens=a/b=c".to_string())
    );
    assert_eq!(
        run(&["jg", "-jar"], &[]).0,
        Outcome::Rejected("not set jar file: -jar <jar file>".to_string())
    );
}

#[test]
fn informational_options_stop_parsing() {
    assert_eq!(run(&["jg", "-version"], &[]).0, Outcome::Version);
    assert_eq!(run(&["jg", "-fullversion"], &[]).0, Outcome::FullVersion);
    assert_eq!(run(&["jg", "-jgv"], &[]).0, Outcome::JgVersion);
    assert_eq!(run(&["jg", "-?"], &[]).0, Outcome::Usage);
    assert_eq!(run(&["jg", "-h"], &[]).0, Outcome::Usage);
    assert_eq!(run(&["jg", "-help"], &[]).0, Outcome::Usage);
    assert_eq!(run(&["jg", "-jar", "a.jar", "-help"], &[]).0, Outcome::Launch(
        args(&[
            "-Dsun.java.command=a.jar ",
            "-Dsun.java.launcher=SUN_STANDARD",
            "-Dsun.java.launcher.pid=4242",
            "-XX:+DisableAttachMechanism",
        ]),
        args(&["-help"]),
        false,
        "a.jar".to_string(),
    ));
}

#[test]
fn no_target_finishes_without_launch() {
    assert_eq!(run(&["jg"], &[]).0, Outcome::NoTarget);
    assert_eq!(run(&["jg", "-server", "-Dx=1"], &[]).0, Outcome::NoTarget);
}

#[test]
fn class_target_is_taken_by_name() {
    let (outcome, _) = run(&["jg", "com.example.Main", "x"], &[]);
    assert_eq!(
        outcome,
        Outcome::Launch(
            args(&[
                "-Dsun.java.command=com.example.Main ",
                "-Dsun.java.launcher=SUN_STANDARD",
                "-Dsun.java.launcher.pid=4242",
                "-XX:+DisableAttachMechanism",
            ]),
            args(&["x"]),
            false,
            "com.example.Main".to_string()
        )
    );
}

#[test]
fn argument_files_are_expanded_once_and_in_place() {
    let files = [
        ("opts.cfg", "# options\n-Xmx2g -Dk=v\n@opts.cfg\n@more.cfg\n"),
        ("more.cfg", "-jar 'my app.jar' first\n"),
    ];
    let (outcome, read) = run(&["jg", "@opts.cfg", "last"], &files);
    assert_eq!(read, args(&["opts.cfg", "more.cfg"]));
    assert_eq!(
        outcome,
        Outcome::Launch(
            args(&[
                "-Xmx2g",
                "-Dk=v",
                "-Dsun.java.command=my app.jar ",
                "-Dsun.java.launcher=SUN_STANDARD",
                "-Dsun.java.launcher.pid=4242",
                "-XX:+DisableAttachMechanism",
            ]),
            args(&["first", "last"]),
            false,
            "my app.jar".to_string()
        )
    );
}

#[test]
fn jar_value_comes_from_the_same_argument_file() {
    let files = [("a.cfg", "-jar\n")];
    assert_eq!(
        run(&["jg", "@a.cfg", "x.jar"], &files).0,
        Outcome::Rejected("not set jar file: -jar <jar file>".to_string())
    );
}

#[test]
fn disabling_argument_files_makes_at_an_ordinary_name() {
    let (outcome, read) = run(&["jg", "--disable-@files", "@opts"], &[]);
    assert!(read.is_empty());
    match outcome {
        Outcome::Launch(_, _, _, target) => assert_eq!(target, "@opts"),
        other => panic!("unexpected {other:?}"),
    }
}

#[test]
fn parser_waits_for_the_requested_file() {
    let mut parser = ArgsParser::new(args(&["jg", "@f"]));
    assert_eq!(parser.waiting(), Waiting::Nothing);
    match parser.step() {
        ArgAction::ReadCfgFile(name) => assert_eq!(name, "f"),
        other => panic!("unexpected {other:?}"),
    }
    assert_eq!(parser.waiting(), Waiting::CfgFile);
    parser.cfg_file_loaded("");
    assert_eq!(parser.waiting(), Waiting::Nothing);
}

#[test]
fn classify_examples() {
    let c = |s: &str, cfg: bool| classify_arg(&s.chars().collect::<Vec<_>>(), cfg);
    assert_eq!(c("-server", true), ArgKind::Server);
    assert_eq!(c("@x", true), ArgKind::CfgFile);
    assert_eq!(c("@x", false), ArgKind::ClassName);
    assert_eq!(c("-Dsun.x=1", true), ArgKind::VmOption);
    assert_eq!(c("-Djava.class.pathology", true), ArgKind::Dropped);
    assert_eq!(c("-Xss1m", true), ArgKind::VmOption);
    assert_eq!(c("-XDebug", true), ArgKind::Dropped);
    assert_eq!(c("-noverify", true), ArgKind::Dropped);
    assert_eq!(c("-verbose:gc", true), ArgKind::VmOption);
    assert_eq!(c("-agentpath:/x", true), ArgKind::Agent);
    assert_eq!(c("-d", true), ArgKind::ModuleOption);
    assert_eq!(c("--disable-@files", true), ArgKind::DisableCfgFiles);
    assert_eq!(c("-disableassertions:x", true), ArgKind::UnsupportedPrefix);
}

#[test]
fn launch_target_accessors() {
    let class = LaunchTarget::Class("a/b/C".to_string());
    assert_eq!(class.sun_mode(), 1);
    assert_eq!(class.main_class(), "a/b/C");
    assert_eq!(class.target_value(), "a/b/C");
    assert!(!class.is_jar());
    let j = LaunchTarget::Jar(jar("/tmp/app.jar"));
    assert_eq!(j.sun_mode(), 2);
    assert_eq!(j.main_class(), "app.Main");
    assert_eq!(j.target_value(), "/tmp/app.jar");
    assert!(j.is_jar());
}

#[test]
fn init_launcher_joins_application_arguments() {
    let mut vm = args(&["-Xmx1g"]);
    init_launcher(&LaunchTarget::Class("Main".to_string()), &mut vm, &args(&["a", "b c"]), 0);
    assert_eq!(
        vm,
        args(&[
            "-Xmx1g",
            "-Dsun.java.command=Main a b c",
            "-Dsun.java.launcher=SUN_STANDARD",
            "-Dsun.java.launcher.pid=0",
            "-XX:+DisableAttachMechanism",
        ])
    );
}

#[test]
fn jvm_options_trim_and_end_with_class_path() {
    let a = launch(&["jg", "-server", "-Dx= 1 ", "-jar", "app.jar"]);
    assert_eq!(a.app_execute_cmd(), "jg");
    assert!(a.classpath().is_none());
    assert_eq!(
        a.jvm_options(),
        args(&[
            "-server",
            "-Dx= 1",
            "-Dsun.java.command=app.jar",
            "-Dsun.java.launcher=SUN_STANDARD",
            "-Dsun.java.launcher.pid=7",
            "-XX:+DisableAttachMechanism",
            "-Djava.class.path=app.jar",
        ])
    );
}

#[test]
fn class_path_reaching_the_jvm_is_the_jar() {
    let a = launch(&[
        "jg",
        "-Djava.class.path=evil.jar",
        "-Djava.class.path.extra=1",
        "-jar",
        "app.jar",
    ]);
    let opts = a.jvm_options();
    let class_paths: Vec<&String> = opts.iter().filter(|o| o.starts_with("-Djava.class.path")).collect();
    assert_eq!(class_paths, vec!["-Djava.class.path=app.jar"]);
    assert_eq!(opts.last().unwrap(), "-Djava.class.path=app.jar");
}

#[test]
fn nested_argument_files_pass_no_forbidden_option() {
    let files = [
        ("a.cfg", "-Xdebug -verbose:class @b.cfg -Dk=v\n"),
        ("b.cfg", "-XX:-DISABLEATTACHMECHANISM -Djava.class.path=evil.jar -noverify -Xrunjdwp:x\n"),
    ];
    let (outcome, read) = run(&["jg", "@a.cfg", "-jar", "app.jar"], &files);
    assert_eq!(read, args(&["a.cfg", "b.cfg"]));
    match outcome {
        Outcome::Launch(vm, _, _, _) => {
            assert_eq!(vm[0], "-verbose:class");
            assert_eq!(vm[1], "-Dk=v");
            assert_eq!(vm.last().unwrap(), "-XX:+DisableAttachMechanism");
            for o in &vm {
                assert!(!o.eq_ignore_ascii_case("-Xdebug"));
                assert!(!o.eq_ignore_ascii_case("-XX:-DisableAttachMechanism"));
                assert!(!o.starts_with("-Djava.class.path") && !o.starts_with("-Xrunjdwp:"));
                assert_ne!(o, "-noverify");
            }
        }
        other => panic!("unexpected {other:?}"),
    }
}

#[test]
fn agent_option_inside_an_argument_file_is_refused() {
    let files = [("a.cfg", "-javaagent:x.jar\n")];
    assert_eq!(
        run(&["jg", "@a.cfg", "-jar", "app.jar"], &files).0,
        Outcome::Rejected("agent options are not allowed".to_string())
    );
}

#[test]
fn disabled_argument_files_stay_disabled_in_later_files() {
    let files = [("a.cfg", "--disable-@files\n@b.cfg\n")];
    let (outcome, read) = run(&["jg", "@a.cfg"], &files);
    assert_eq!(read, args(&["a.cfg"]));
    match outcome {
        Outcome::Launch(_, _, _, target) => assert_eq!(target, "@b.cfg"),
        other => panic!("unexpected {other:?}"),
    }
}
