use vstd::prelude::*;
use crate::jar_info::{JarInfo, JarInfoView};
use crate::text::{
    chars_of, decimal, eq_ignore_ascii_case, equals_str, equals_str_ignore_ascii_case, join,
    push_decimal, push_str, starts_with, starts_with_str, string_of_chars, string_views, trim,
    trim_chars, trim_start, trim_end, is_unicode_whitespace,
};
use crate::cfg_parser::{cfg_tokens, parser};

verus! {

pub const SERVER_ARG_KEY: &'static str = "-server";
pub const CP_ARG_KEY: &'static str = "-cp";
pub const CLASSPATH_ARG_KEY: &'static str = "-classpath";
pub const CLASS_PATH_ARG_KEY: &'static str = "--class-path";
pub const MODULES_PATH_ARG_KEY: &'static str = "--module-path";
pub const MODULES_PATH_SHORT_ARG_KEY: &'static str = "-p";
pub const ADD_MODULES_ARG_KEY: &'static str = "--add-modules";
pub const ENABLE_NATIVE_ACCESS_ARG_KEY: &'static str = "--enable-native-access";
pub const UPGRADE_MODULE_PATH_ARG_KEY: &'static str = "--upgrade-module-path";
pub const ADD_OPENS_ARG_KEY: &'static str = "--add-opens";
pub const ADD_OPENS_PREFIX_ARG_KEY: &'static str = "--add-opens=";
pub const LIST_MODULES_ARG_KEY: &'static str = "--list-modules";
pub const DESCRIBE_MODULE_SHORT_ARG_KEY: &'static str = "-d";
pub const DESCRIBE_MODULE_ARG_KEY: &'static str = "--describe-module";
pub const VALIDATE_MODULES_ARG_KEY: &'static str = "--validate-modules";
pub const SHOW_MODULE_RESOLUTION_ARG_KEY: &'static str = "--show-module-resolution";
pub const DISABLE_CFG_FILES_ARG_KEY: &'static str = "--disable-@files";
pub const JAR_ARG_KEY: &'static str = "-jar";
pub const VERSION_ARG_KEY: &'static str = "-version";
pub const FULL_VERSION_ARG_KEY: &'static str = "-fullversion";
pub const JG_VERSION_ARG_KEY: &'static str = "-jgv";
pub const HELP_ARG_KEY: &'static str = "-help";
pub const HELP_H_ARG_KEY: &'static str = "-h";
pub const HELP_C_ARG_KEY: &'static str = "-?";
pub const VERBOSE_ARG_PREFIX: &'static str = "-verbose:";
pub const SYSTEM_PROPERTY_ARG_PREFIX: &'static str = "-D";
pub const CLASS_PATH_PROPERTY_PREFIX: &'static str = "-Djava.class.path";
pub const VM_ARG_PREFIX: &'static str = "-X";
pub const CFG_FILE_PREFIX: &'static str = "@";
pub const AGENTLIB_ARG_PREFIX: &'static str = "-agentlib:";
pub const AGENTPATH_ARG_PREFIX: &'static str = "-agentpath:";
pub const JAVAAGENT_ARG_PREFIX: &'static str = "-javaagent:";
pub const DEBUG_ARG: &'static str = "-Xdebug";
pub const RUNJDWP_ARG_PREFIX: &'static str = "-Xrunjdwp:";
pub const NOVERIFY_ARG_PREFIX: &'static str = "-noverify";
pub const RE_DISABLE_ATTACH_MECHANISM: &'static str = "-XX:-DisableAttachMechanism";
pub const DISABLE_ATTACH_MECHANISM: &'static str = "-XX:+DisableAttachMechanism";
pub const JAVA_COMMAND_VM_ARG_PREFIX: &'static str = "-Dsun.java.command=";
pub const JAVA_LAUNCHER_ARG: &'static str = "-Dsun.java.launcher=SUN_STANDARD";
pub const JAVA_LAUNCHER_PID_ARG_PREFIX: &'static str = "-Dsun.java.launcher.pid=";
pub const JAVA_CLASS_PATH_VM_ARG_PREFIX: &'static str = "-Djava.class.path=";
pub const EA_ARG_KEY: &'static str = "-ea";
pub const EA_ARG_PREFIX: &'static str = "-ea:";
pub const ENABLEASSERTIONS_ARG_KEY: &'static str = "-enableassertions";
pub const ENABLEASSERTIONS_ARG_PREFIX: &'static str = "-enableassertions:";
pub const DA_ARG_KEY: &'static str = "-da";
pub const DA_ARG_PREFIX: &'static str = "-da:";
pub const DISABLEASSERTIONS_ARG_KEY: &'static str = "-disableassertions";
pub const DISABLEASSERTIONS_ARG_PREFIX: &'static str = "-disableassertions:";
pub const ESA_ARG_KEY: &'static str = "-esa";
pub const ENABLESYSTEMASSERTIONS_ARG_KEY: &'static str = "-enablesystemassertions";
pub const DSA_ARG_KEY: &'static str = "-dsa";
pub const DISABLESYSTEMASSERTIONS_ARG_KEY: &'static str = "-disablesystemassertions";

/// How an argument is treated while no launch target has been chosen.
#[derive(Debug, Clone, Copy, PartialEq, Eq, Structural)]
pub enum ArgKind {
    /// `-server`.
    Server,
    /// A class path option; class paths are not supported.
    ClassPath,
    /// `-version`.
    Version,
    /// `-fullversion`.
    FullVersion,
    /// `-jgv`.
    JgVersion,
    /// A help option.
    Help,
    /// `-jar`, followed by the JAR to launch.
    Jar,
    /// A module option that takes a value; not supported.
    ModuleOption,
    /// A module option without a value; not supported.
    ModuleFlag,
    /// An assertion option; not supported.
    AssertionFlag,
    /// `--disable-@files`.
    DisableCfgFiles,
    /// An unsupported option with a value after its name.
    UnsupportedPrefix,
    /// `@` followed by the name of an argument file.
    CfgFile,
    /// An option that is silently left out.
    Dropped,
    /// An agent option, which is refused.
    Agent,
    /// An option that is not a JVM option.
    UnknownOption,
    /// A JVM option that is passed on.
    VmOption,
    /// The name of a class to launch.
    ClassName,
}

/// How the argument `arg` is treated while no target has been chosen,
/// where argument files may be read when `can_load_cfg` holds.
pub open spec fn spec_classify(arg: Seq<char>, can_load_cfg: bool) -> ArgKind {
    if arg == SERVER_ARG_KEY@ {
        ArgKind::Server
    } else if arg == CP_ARG_KEY@ || arg == CLASSPATH_ARG_KEY@ || arg == CLASS_PATH_ARG_KEY@ {
        ArgKind::ClassPath
    } else if arg == VERSION_ARG_KEY@ {
        ArgKind::Version
    } else if arg == FULL_VERSION_ARG_KEY@ {
        ArgKind::FullVersion
    } else if arg == JG_VERSION_ARG_KEY@ {
        ArgKind::JgVersion
    } else if arg == HELP_ARG_KEY@ || arg == HELP_H_ARG_KEY@ || arg == HELP_C_ARG_KEY@ {
        ArgKind::Help
    } else if arg == JAR_ARG_KEY@ {
        ArgKind::Jar
    } else if arg == MODULES_PATH_ARG_KEY@ || arg == MODULES_PATH_SHORT_ARG_KEY@ || arg
        == ADD_MODULES_ARG_KEY@ || arg == ENABLE_NATIVE_ACCESS_ARG_KEY@ || arg
        == UPGRADE_MODULE_PATH_ARG_KEY@ || arg == DESCRIBE_MODULE_ARG_KEY@ || arg
        == DESCRIBE_MODULE_SHORT_ARG_KEY@ || arg == ADD_OPENS_ARG_KEY@ {
        ArgKind::ModuleOption
    } else if arg == LIST_MODULES_ARG_KEY@ || arg == VALIDATE_MODULES_ARG_KEY@ || arg
        == SHOW_MODULE_RESOLUTION_ARG_KEY@ {
        ArgKind::ModuleFlag
    } else if arg == EA_ARG_KEY@ || arg == ENABLEASSERTIONS_ARG_KEY@ || arg == DA_ARG_KEY@ || arg
        == DISABLEASSERTIONS_ARG_KEY@ || arg == ESA_ARG_KEY@ || arg
        == ENABLESYSTEMASSERTIONS_ARG_KEY@ || arg == DSA_ARG_KEY@ || arg
        == DISABLESYSTEMASSERTIONS_ARG_KEY@ {
        ArgKind::AssertionFlag
    } else if arg == DISABLE_CFG_FILES_ARG_KEY@ {
        ArgKind::DisableCfgFiles
    } else if starts_with(arg, ADD_OPENS_PREFIX_ARG_KEY@) || starts_with(arg, EA_ARG_PREFIX@)
        || starts_with(arg, ENABLEASSERTIONS_ARG_PREFIX@) || starts_with(arg, DA_ARG_PREFIX@)
        || starts_with(arg, DISABLEASSERTIONS_ARG_PREFIX@) {
        ArgKind::UnsupportedPrefix
    } else if can_load_cfg && starts_with(arg, CFG_FILE_PREFIX@) {
        ArgKind::CfgFile
    } else if starts_with(arg, VERBOSE_ARG_PREFIX@) {
        ArgKind::VmOption
    } else if starts_with(arg, SYSTEM_PROPERTY_ARG_PREFIX@) {
        if starts_with(arg, CLASS_PATH_PROPERTY_PREFIX@) {
            ArgKind::Dropped
        } else {
            ArgKind::VmOption
        }
    } else if eq_ignore_ascii_case(arg, RE_DISABLE_ATTACH_MECHANISM@) || eq_ignore_ascii_case(
        arg,
        DEBUG_ARG@,
    ) || starts_with(arg, RUNJDWP_ARG_PREFIX@) {
        ArgKind::Dropped
    } else if arg == NOVERIFY_ARG_PREFIX@ {
        ArgKind::Dropped
    } else if starts_with(arg, AGENTLIB_ARG_PREFIX@) || starts_with(arg, AGENTPATH_ARG_PREFIX@)
        || starts_with(arg, JAVAAGENT_ARG_PREFIX@) {
        ArgKind::Agent
    } else if starts_with(arg, "-"@) {
        if !starts_with(arg, VM_ARG_PREFIX@) {
            ArgKind::UnknownOption
        } else {
            ArgKind::VmOption
        }
    } else {
        ArgKind::ClassName
    }
}

/// How the argument `arg` is treated, as `spec_classify` says.
pub fn classify_arg(arg: &[char], can_load_cfg: bool) -> (k: ArgKind)
    ensures
        k == spec_classify(arg@, can_load_cfg),
{
    if equals_str(arg, SERVER_ARG_KEY) {
        ArgKind::Server
    } else if equals_str(arg, CP_ARG_KEY) || equals_str(arg, CLASSPATH_ARG_KEY) || equals_str(
        arg,
        CLASS_PATH_ARG_KEY,
    ) {
        ArgKind::ClassPath
    } else if equals_str(arg, VERSION_ARG_KEY) {
        ArgKind::Version
    } else if equals_str(arg, FULL_VERSION_ARG_KEY) {
        ArgKind::FullVersion
    } else if equals_str(arg, JG_VERSION_ARG_KEY) {
        ArgKind::JgVersion
    } else if equals_str(arg, HELP_ARG_KEY) || equals_str(arg, HELP_H_ARG_KEY) || equals_str(
        arg,
        HELP_C_ARG_KEY,
    ) {
        ArgKind::Help
    } else if equals_str(arg, JAR_ARG_KEY) {
        ArgKind::Jar
    } else if equals_str(arg, MODULES_PATH_ARG_KEY) || equals_str(arg, MODULES_PATH_SHORT_ARG_KEY)
        || equals_str(arg, ADD_MODULES_ARG_KEY) || equals_str(arg, ENABLE_NATIVE_ACCESS_ARG_KEY)
        || equals_str(arg, UPGRADE_MODULE_PATH_ARG_KEY) || equals_str(arg, DESCRIBE_MODULE_ARG_KEY)
        || equals_str(arg, DESCRIBE_MODULE_SHORT_ARG_KEY) || equals_str(arg, ADD_OPENS_ARG_KEY) {
        ArgKind::ModuleOption
    } else if equals_str(arg, LIST_MODULES_ARG_KEY) || equals_str(arg, VALIDATE_MODULES_ARG_KEY)
        || equals_str(arg, SHOW_MODULE_RESOLUTION_ARG_KEY) {
        ArgKind::ModuleFlag
    } else if equals_str(arg, EA_ARG_KEY) || equals_str(arg, ENABLEASSERTIONS_ARG_KEY) || equals_str(
        arg,
        DA_ARG_KEY,
    ) || equals_str(arg, DISABLEASSERTIONS_ARG_KEY) || equals_str(arg, ESA_ARG_KEY) || equals_str(
        arg,
        ENABLESYSTEMASSERTIONS_ARG_KEY,
    ) || equals_str(arg, DSA_ARG_KEY) || equals_str(arg, DISABLESYSTEMASSERTIONS_ARG_KEY) {
        ArgKind::AssertionFlag
    } else if equals_str(arg, DISABLE_CFG_FILES_ARG_KEY) {
        ArgKind::DisableCfgFiles
    } else if starts_with_str(arg, ADD_OPENS_PREFIX_ARG_KEY) || starts_with_str(arg, EA_ARG_PREFIX)
        || starts_with_str(arg, ENABLEASSERTIONS_ARG_PREFIX) || starts_with_str(arg, DA_ARG_PREFIX)
        || starts_with_str(arg, DISABLEASSERTIONS_ARG_PREFIX) {
        ArgKind::UnsupportedPrefix
    } else if can_load_cfg && starts_with_str(arg, CFG_FILE_PREFIX) {
        ArgKind::CfgFile
    } else if starts_with_str(arg, VERBOSE_ARG_PREFIX) {
        ArgKind::VmOption
    } else if starts_with_str(arg, SYSTEM_PROPERTY_ARG_PREFIX) {
        if starts_with_str(arg, CLASS_PATH_PROPERTY_PREFIX) {
            ArgKind::Dropped
        } else {
            ArgKind::VmOption
        }
    } else if equals_str_ignore_ascii_case(arg, RE_DISABLE_ATTACH_MECHANISM)
        || equals_str_ignore_ascii_case(arg, DEBUG_ARG) || starts_with_str(arg, RUNJDWP_ARG_PREFIX) {
        ArgKind::Dropped
    } else if equals_str(arg, NOVERIFY_ARG_PREFIX) {
        ArgKind::Dropped
    } else if starts_with_str(arg, AGENTLIB_ARG_PREFIX) || starts_with_str(arg, AGENTPATH_ARG_PREFIX)
        || starts_with_str(arg, JAVAAGENT_ARG_PREFIX) {
        ArgKind::Agent
    } else if starts_with_str(arg, "-") {
        if !starts_with_str(arg, VM_ARG_PREFIX) {
            ArgKind::UnknownOption
        } else {
            ArgKind::VmOption
        }
    } else {
        ArgKind::ClassName
    }
}

/// What to launch: a class by name, or a JAR.
#[derive(Debug)]
pub enum LaunchTarget {
    Class(String),
    Jar(JarInfo),
}

/// The content of a [`LaunchTarget`].
#[verifier::ext_equal]
pub enum TargetView {
    Class(Seq<char>),
    Jar(JarInfoView),
}

impl View for LaunchTarget {
    type V = TargetView;

    open spec fn view(&self) -> TargetView {
        match self {
            LaunchTarget::Class(name) => TargetView::Class(name@),
            LaunchTarget::Jar(jar) => TargetView::Jar(jar@),
        }
    }
}

/// The name by which the target is handed to the JVM: the class name or the
/// path of the JAR.
pub open spec fn target_value_of(t: TargetView) -> Seq<char> {
    match t {
        TargetView::Class(name) => name,
        TargetView::Jar(jar) => jar.path,
    }
}

/// The main class of the target: the class itself or the one that the JAR
/// names.
pub open spec fn main_class_of(t: TargetView) -> Seq<char> {
    match t {
        TargetView::Class(name) => name,
        TargetView::Jar(jar) => jar.main_class,
    }
}

impl LaunchTarget {
    /// The launch mode number that `sun.launcher.LauncherHelper` expects:
    /// 1 for a class, 2 for a JAR.
    pub fn sun_mode(&self) -> (m: i32)
        ensures
            m == (match self@ {
                TargetView::Class(_) => 1i32,
                TargetView::Jar(_) => 2i32,
            }),
    {
        match self {
            LaunchTarget::Class(_) => 1,
            LaunchTarget::Jar(_) => 2,
        }
    }

    /// The main class of the target.
    pub fn main_class(&self) -> (c: &str)
        ensures
            c@ == main_class_of(self@),
    {
        match self {
            LaunchTarget::Class(name) => name.as_str(),
            LaunchTarget::Jar(jar) => jar.main_class().as_str(),
        }
    }

    /// The class name or the JAR path.
    pub fn target_value(&self) -> (v: &str)
        ensures
            v@ == target_value_of(self@),
    {
        match self {
            LaunchTarget::Class(name) => name.as_str(),
            LaunchTarget::Jar(jar) => jar.path().as_str(),
        }
    }

    /// Whether the target is a JAR.
    pub fn is_jar(&self) -> (b: bool)
        ensures
            b == (self@ is Jar),
    {
        match self {
            LaunchTarget::Class(_) => false,
            LaunchTarget::Jar(_) => true,
        }
    }
}

/// The JVM options that the launcher adds after the parsed ones for the
/// target named `name`, the application arguments `app_args` and the process
/// id `pid`; the last one disables the attach mechanism.
pub open spec fn launcher_options(name: Seq<char>, app_args: Seq<Seq<char>>, pid: nat) -> Seq<Seq<char>> {
    seq![
        JAVA_COMMAND_VM_ARG_PREFIX@ + name + " "@ + join(app_args, " "@),
        JAVA_LAUNCHER_ARG@,
        JAVA_LAUNCHER_PID_ARG_PREFIX@ + decimal(pid),
        DISABLE_ATTACH_MECHANISM@,
    ]
}

/// Appends the words of `list`, separated by single spaces, to `s`.
fn push_joined(s: &mut String, list: &[String])
    ensures
        final(s)@ == old(s)@ + join(string_views(list@), " "@),
{
    let ghost start = s@;
    let mut i: usize = 0;
    while i < list.len()
        invariant
            i <= list.len(),
            s@ == start + join(string_views(list@.take(i as int)), " "@),
        decreases list.len() - i,
    {
        let ghost before = string_views(list@.take(i as int));
        assert(string_views(list@.take(i + 1)) =~= before.push(list@[i as int]@));
        assert(string_views(list@.take(i + 1)).drop_last() =~= before);
        if i > 0 {
            push_str(s, " ");
        }
        push_str(s, list[i].as_str());
        proof {
            if i == 0 {
                assert(before =~= Seq::<Seq<char>>::empty());
                assert(s@ =~= start + join(string_views(list@.take(i + 1)), " "@));
            } else {
                assert(s@ =~= start + join(string_views(list@.take(i + 1)), " "@));
            }
        }
        i = i + 1;
    }
    assert(list@.take(list.len() as int) =~= list@);
}

/// Appends the options that announce the launch of `target` with the
/// application arguments `app_args` in process `pid`, as `launcher_options` says.
pub fn init_launcher(target: &LaunchTarget, vm_args: &mut Vec<String>, app_args: &[String], pid: u32)
    ensures
        string_views(final(vm_args)@) == string_views(old(vm_args)@) + launcher_options(
            target_value_of(target@),
            string_views(app_args@),
            pid as nat,
        ),
{
    let ghost before = string_views(vm_args@);
    let mut command = String::new();
    push_str(&mut command, JAVA_COMMAND_VM_ARG_PREFIX);
    push_str(&mut command, target.target_value());
    push_str(&mut command, " ");
    push_joined(&mut command, app_args);
    vm_args.push(command);
    vm_args.push(JAVA_LAUNCHER_ARG.to_owned());
    let mut pid_arg = String::new();
    push_str(&mut pid_arg, JAVA_LAUNCHER_PID_ARG_PREFIX);
    push_decimal(&mut pid_arg, pid as u64);
    vm_args.push(pid_arg);
    vm_args.push(DISABLE_ATTACH_MECHANISM.to_owned());
    assert(string_views(vm_args@) =~= before + launcher_options(
        target_value_of(target@),
        string_views(app_args@),
        pid as nat,
    ));
}

/// The parsed command line of the launcher.
#[derive(Debug)]
pub struct LauncherArg {
    app_execute_cmd: String,
    server: bool,
    classpath: Option<Vec<String>>,
    vm_args: Vec<String>,
    target: LaunchTarget,
    app_args: Vec<String>,
}

/// The content of a [`LauncherArg`].
#[verifier::ext_equal]
pub struct LauncherArgView {
    pub app_execute_cmd: Seq<char>,
    pub server: bool,
    pub classpath: Option<Seq<Seq<char>>>,
    pub vm_args: Seq<Seq<char>>,
    pub target: TargetView,
    pub app_args: Seq<Seq<char>>,
}

impl View for LauncherArg {
    type V = LauncherArgView;

    closed spec fn view(&self) -> LauncherArgView {
        LauncherArgView {
            app_execute_cmd: self.app_execute_cmd@,
            server: self.server,
            classpath: match self.classpath {
                Some(v) => Some(string_views(v@)),
                None => None,
            },
            vm_args: string_views(self.vm_args@),
            target: self.target@,
            app_args: string_views(self.app_args@),
        }
    }
}

impl LauncherArg {
    /// The command that started the launcher.
    pub fn app_execute_cmd(&self) -> (c: &str)
        ensures
            c@ == self@.app_execute_cmd,
    {
        self.app_execute_cmd.as_str()
    }

    /// Whether the server JVM was asked for.
    pub fn server(&self) -> (b: bool)
        ensures
            b == self@.server,
    {
        self.server
    }

    /// The class path given on the command line, if any.
    pub fn classpath(&self) -> (c: &Option<Vec<String>>)
        ensures
            match *c {
                Some(v) => self@.classpath == Some(string_views(v@)),
                None => self@.classpath is None,
            },
    {
        &self.classpath
    }

    /// The options for the JVM.
    pub fn vm_args(&self) -> (v: &Vec<String>)
        ensures
            string_views(v@) == self@.vm_args,
    {
        &self.vm_args
    }

    /// What to launch.
    pub fn target(&self) -> (t: &LaunchTarget)
        ensures
            t@ == self@.target,
    {
        &self.target
    }

    /// The arguments for the application's `main` method.
    pub fn app_args(&self) -> (v: &Vec<String>)
        ensures
            string_views(v@) == self@.app_args,
    {
        &self.app_args
    }

    /// The options that create the JVM: `-server` when asked for, each
    /// parsed option without surrounding white space, and the class path,
    /// which is the path of the JAR.
    pub fn jvm_options(&self) -> (opts: Vec<String>)
        requires
            self@.target is Jar,
        ensures
            string_views(opts@) == jvm_options_of(self@),
    {
        let mut opts: Vec<String> = Vec::new();
        if self.server {
            opts.push(SERVER_ARG_KEY.to_owned());
        }
        let ghost first = string_views(opts@);
        let mut i: usize = 0;
        while i < self.vm_args.len()
            invariant
                i <= self.vm_args.len(),
                string_views(opts@) == first + string_views(self.vm_args@.take(i as int)).map_values(
                    |a: Seq<char>| trim(a),
                ),
            decreases self.vm_args.len() - i,
        {
            let chars = chars_of(self.vm_args[i].as_str());
            let trimmed = trim_chars(chars.as_slice());
            let ghost old_opts = opts@;
            let item = string_of_chars(trimmed.as_slice());
            assert(item@ == trim(self.vm_args@[i as int]@));
            opts.push(item);
            assert(string_views(opts@) =~= string_views(old_opts).push(item@));
            assert(string_views(self.vm_args@.take(i + 1)) =~= string_views(
                self.vm_args@.take(i as int),
            ).push(self.vm_args@[i as int]@));
            assert(string_views(self.vm_args@.take(i + 1)).map_values(|a: Seq<char>| trim(a))
                =~= string_views(self.vm_args@.take(i as int)).map_values(|a: Seq<char>| trim(a)).push(
                trim(self.vm_args@[i as int]@),
            ));
            assert(string_views(opts@) =~= first + string_views(self.vm_args@.take(i + 1)).map_values(
                |a: Seq<char>| trim(a),
            ));
            i = i + 1;
        }
        assert(self.vm_args@.take(self.vm_args.len() as int) =~= self.vm_args@);
        assert(string_views(opts@) =~= first + self@.vm_args.map_values(|a: Seq<char>| trim(a)));
        let mut class_path = String::new();
        push_str(&mut class_path, JAVA_CLASS_PATH_VM_ARG_PREFIX);
        push_str(&mut class_path, self.target.target_value());
        let ghost old_opts = opts@;
        opts.push(class_path);
        assert(string_views(opts@) =~= string_views(old_opts).push(class_path@));
        assert(string_views(opts@) =~= jvm_options_of(self@));
        opts
    }
}

/// The options that create the JVM for the parsed command line `a`.
pub open spec fn jvm_options_of(a: LauncherArgView) -> Seq<Seq<char>> {
    (if a.server {
        seq![SERVER_ARG_KEY@]
    } else {
        seq![]
    }) + a.vm_args.map_values(|v: Seq<char>| trim(v)) + seq![
        JAVA_CLASS_PATH_VM_ARG_PREFIX@ + target_value_of(a.target),
    ]
}

/// What the command-line parser waits for before it can go on.
#[derive(Debug, Clone, Copy, PartialEq, Eq, Structural)]
pub enum Waiting {
    /// Nothing: the next argument can be taken.
    Nothing,
    /// The JAR that was asked for with [`ArgAction::LoadJar`].
    Jar,
    /// The content of the argument file asked for with [`ArgAction::ReadCfgFile`].
    CfgFile,
}

/// What the caller of [`ArgsParser::step`] is to do next.
#[derive(Debug)]
pub enum ArgAction {
    /// Call `step` again.
    Continue,
    /// Read the argument file with this name and hand its content to
    /// [`ArgsParser::cfg_file_loaded`].
    ReadCfgFile(String),
    /// Read and verify the JAR at this path and hand it to
    /// [`ArgsParser::jar_loaded`].
    LoadJar(String),
    /// Print the Java version and stop.
    ShowVersion,
    /// Print the full Java version and stop.
    ShowFullVersion,
    /// Print the launcher version and stop.
    ShowJgVersion,
    /// Print the usage and stop.
    ShowUsage,
    /// Refuse the command line with this message.
    Reject(String),
    /// All arguments are parsed: call [`ArgsParser::finish`].
    Finished,
}

/// The content of an [`ArgAction`].
pub enum ArgActionView {
    Continue,
    ReadCfgFile(Seq<char>),
    LoadJar(Seq<char>),
    ShowVersion,
    ShowFullVersion,
    ShowJgVersion,
    ShowUsage,
    Reject(Seq<char>),
    Finished,
}

impl View for ArgAction {
    type V = ArgActionView;

    open spec fn view(&self) -> ArgActionView {
        match self {
            ArgAction::Continue => ArgActionView::Continue,
            ArgAction::ReadCfgFile(n) => ArgActionView::ReadCfgFile(n@),
            ArgAction::LoadJar(p) => ArgActionView::LoadJar(p@),
            ArgAction::ShowVersion => ArgActionView::ShowVersion,
            ArgAction::ShowFullVersion => ArgActionView::ShowFullVersion,
            ArgAction::ShowJgVersion => ArgActionView::ShowJgVersion,
            ArgAction::ShowUsage => ArgActionView::ShowUsage,
            ArgAction::Reject(m) => ArgActionView::Reject(m@),
            ArgAction::Finished => ArgActionView::Finished,
        }
    }
}

/// A command-line parser that reads the arguments one at a time and asks its
/// caller for the files that they name.
pub struct ArgsParser {
    app_execute_cmd: String,
    frames: Vec<Vec<String>>,
    server: bool,
    vm_args: Vec<String>,
    app_args: Vec<String>,
    can_load_cfg_file: bool,
    cfg_files: Vec<String>,
    target: Option<LaunchTarget>,
    waiting: Waiting,
}

/// The content of an [`ArgsParser`].
#[verifier::ext_equal]
pub struct ParserView {
    /// The command that started the launcher.
    pub app_execute_cmd: Seq<char>,
    /// The arguments still to read: the command line at the bottom and one
    /// entry for each argument file being read above it, each in order.
    pub frames: Seq<Seq<Seq<char>>>,
    pub server: bool,
    pub vm_args: Seq<Seq<char>>,
    pub app_args: Seq<Seq<char>>,
    pub can_load_cfg_file: bool,
    /// The names of the argument files read so far.
    pub cfg_files: Seq<Seq<char>>,
    pub target: Option<TargetView>,
    pub waiting: Waiting,
}

/// The parser before it has read anything of the command line `args`,
/// whose first item is the command that started the launcher.
pub open spec fn initial_parser(args: Seq<Seq<char>>) -> ParserView {
    ParserView {
        app_execute_cmd: args[0],
        frames: seq![args.drop_first()],
        server: false,
        vm_args: seq![],
        app_args: seq![],
        can_load_cfg_file: true,
        cfg_files: seq![],
        target: None,
        waiting: Waiting::Nothing,
    }
}

/// What the caller of the parser does: take a step, hand over the content
/// of the argument file that was asked for, or hand over the JAR that was
/// asked for.
pub enum ParserEvent {
    Step,
    CfgFileRead(Seq<char>),
    JarRead(JarInfoView),
}

/// The parser after the event `e`, as `ArgsParser::step`, `cfg_file_loaded`
/// and `jar_loaded` say; an event that the parser does not wait for changes
/// nothing.
pub open spec fn apply_event(s: ParserView, e: ParserEvent) -> ParserView {
    match e {
        ParserEvent::Step => if s.waiting == Waiting::Nothing {
            spec_step(s).0
        } else {
            s
        },
        ParserEvent::CfgFileRead(text) => if s.waiting == Waiting::CfgFile {
            ParserView { frames: s.frames.push(cfg_tokens(text)), waiting: Waiting::Nothing, ..s }
        } else {
            s
        },
        ParserEvent::JarRead(j) => if s.waiting == Waiting::Jar {
            ParserView { target: Some(TargetView::Jar(j)), waiting: Waiting::Nothing, ..s }
        } else {
            s
        },
    }
}

/// The parser after the events `es`, in order.
pub open spec fn run_events(s: ParserView, es: Seq<ParserEvent>) -> ParserView
    decreases es.len(),
{
    if es.len() == 0 {
        s
    } else {
        apply_event(run_events(s, es.drop_last()), es.last())
    }
}

/// The arguments of a frame that is stored with its next argument last.
pub open spec fn frame_view(f: Vec<String>) -> Seq<Seq<char>> {
    string_views(f@).reverse()
}

impl View for ArgsParser {
    type V = ParserView;

    closed spec fn view(&self) -> ParserView {
        ParserView {
            app_execute_cmd: self.app_execute_cmd@,
            frames: self.frames@.map_values(|f: Vec<String>| frame_view(f)),
            server: self.server,
            vm_args: string_views(self.vm_args@),
            app_args: string_views(self.app_args@),
            can_load_cfg_file: self.can_load_cfg_file,
            cfg_files: string_views(self.cfg_files@),
            target: match self.target {
                Some(t) => Some(t@),
                None => None,
            },
            waiting: self.waiting,
        }
    }
}

/// The effect of the argument `arg`, read while no target is chosen, on the
/// state `s` in which it has been taken off the top frame `rest`.
pub open spec fn spec_handle(s: ParserView, arg: Seq<char>, rest: Seq<Seq<char>>) -> (ParserView, ArgActionView) {
    let below = s.frames.drop_last();
    let skip_value = ParserView { frames: below.push(rest.drop_first()), ..s };
    match spec_classify(arg, s.can_load_cfg_file) {
        ArgKind::Server => (ParserView { server: true, ..s }, ArgActionView::Continue),
        ArgKind::ClassPath => if rest.len() == 0 {
            (s, ArgActionView::Reject("classpath arg not found"@))
        } else {
            (skip_value, ArgActionView::Reject("Not currently supported class path"@))
        },
        ArgKind::Version => (s, ArgActionView::ShowVersion),
        ArgKind::FullVersion => (s, ArgActionView::ShowFullVersion),
        ArgKind::JgVersion => (s, ArgActionView::ShowJgVersion),
        ArgKind::Help => (s, ArgActionView::ShowUsage),
        ArgKind::Jar => if rest.len() == 0 {
            (s, ArgActionView::Reject("not set jar file: -jar <jar file>"@))
        } else {
            (ParserView { waiting: Waiting::Jar, ..skip_value }, ArgActionView::LoadJar(rest[0]))
        },
        ArgKind::ModuleOption => if rest.len() == 0 {
            (s, ArgActionView::Reject("arg "@ + arg + " not found value"@))
        } else {
            (skip_value, ArgActionView::Reject("Not currently supported "@ + arg))
        },
        ArgKind::ModuleFlag => (s, ArgActionView::Reject("Not currently supported "@ + arg)),
        ArgKind::AssertionFlag => (s, ArgActionView::Reject("Not currently supported "@ + arg)),
        ArgKind::UnsupportedPrefix => (s, ArgActionView::Reject("Not currently supported "@ + arg)),
        ArgKind::DisableCfgFiles => (ParserView { can_load_cfg_file: false, ..s }, ArgActionView::Continue),
        ArgKind::CfgFile => if s.cfg_files.contains(arg.drop_first()) {
            (s, ArgActionView::Continue)
        } else {
            (
                ParserView {
                    cfg_files: s.cfg_files.push(arg.drop_first()),
                    waiting: Waiting::CfgFile,
                    ..s
                },
                ArgActionView::ReadCfgFile(arg.drop_first()),
            )
        },
        ArgKind::Dropped => (s, ArgActionView::Continue),
        ArgKind::Agent => (s, ArgActionView::Reject("agent options are not allowed"@)),
        ArgKind::UnknownOption => (s, ArgActionView::Reject("not support vm arg: "@ + arg)),
        ArgKind::VmOption => (ParserView { vm_args: s.vm_args.push(arg), ..s }, ArgActionView::Continue),
        ArgKind::ClassName => (
            ParserView { target: Some(TargetView::Class(arg)), ..s },
            ArgActionView::Continue,
        ),
    }
}

/// One step of the parser: the state after it and what its caller is to do.
///
/// Without frames the parse is finished; an empty top frame is dropped;
/// otherwise its next argument is taken.  Once a target is chosen every
/// further argument is an application argument; before that the argument is
/// handled as `spec_handle` says.
pub open spec fn spec_step(s: ParserView) -> (ParserView, ArgActionView) {
    if s.frames.len() == 0 {
        (s, ArgActionView::Finished)
    } else if s.frames.last().len() == 0 {
        (ParserView { frames: s.frames.drop_last(), ..s }, ArgActionView::Continue)
    } else {
        let top = s.frames.last();
        let arg = top[0];
        let rest = top.drop_first();
        let s1 = ParserView { frames: s.frames.drop_last().push(rest), ..s };
        match s.target {
            Some(_) => (ParserView { app_args: s.app_args.push(arg), ..s1 }, ArgActionView::Continue),
            None => spec_handle(s1, arg, rest),
        }
    }
}

/// The parsed command line once the parse in state `s` is finished, for the
/// process `pid`, or `None` without a target.  The options that announce the
/// launch are built with no application arguments.
pub open spec fn spec_finish(s: ParserView, pid: nat) -> Option<LauncherArgView> {
    match s.target {
        None => None,
        Some(t) => Some(
            LauncherArgView {
                app_execute_cmd: s.app_execute_cmd,
                server: s.server,
                classpath: None,
                vm_args: s.vm_args + launcher_options(target_value_of(t), seq![], pid),
                target: t,
                app_args: s.app_args,
            },
        ),
    }
}

proof fn lemma_frame_pop(f: Seq<String>)
    requires
        f.len() > 0,
    ensures
        string_views(f).reverse()[0] == f.last()@,
        string_views(f).reverse().drop_first() =~= string_views(f.drop_last()).reverse(),
        string_views(f).reverse().len() == f.len(),
{
}

/// A list of strings in the opposite order.
fn reversed(v: Vec<String>) -> (r: Vec<String>)
    ensures
        string_views(r@) == string_views(v@).reverse(),
{
    let mut v = v;
    let ghost orig = v@;
    let mut r: Vec<String> = Vec::new();
    while v.len() > 0
        invariant
            v@ == orig.take(v@.len() as int),
            v@.len() <= orig.len(),
            string_views(r@) =~= string_views(orig.skip(v@.len() as int)).reverse(),
        decreases v.len(),
    {
        let ghost before = r@;
        let ghost n = v@.len();
        let x = v.pop().unwrap();
        assert(x == orig[n - 1]);
        r.push(x);
        let ghost k = n - 1;
        assert(v@ =~= orig.take(k));
        assert(orig.skip(k) =~= seq![orig[k]] + orig.skip(n as int));
        assert(string_views(orig.skip(k)) =~= seq![orig[k]@] + string_views(orig.skip(n as int)));
        assert(string_views(r@) =~= string_views(before).push(x@));
        assert(string_views(r@) =~= string_views(orig.skip(k)).reverse());
    }
    assert(orig.skip(0) =~= orig);
    r
}

fn contains_string(list: &Vec<String>, s: &String) -> (r: bool)
    ensures
        r == string_views(list@).contains(s@),
{
    let mut i: usize = 0;
    while i < list.len()
        invariant
            i <= list.len(),
            forall|j: int| 0 <= j < i ==> list@[j]@ != s@,
        decreases list.len() - i,
    {
        if list[i] == *s {
            assert(string_views(list@)[i as int] == s@);
            return true;
        }
        i = i + 1;
    }
    proof {
        if string_views(list@).contains(s@) {
            let k = choose|k: int| 0 <= k < string_views(list@).len() && string_views(list@)[k] == s@;
            assert(list@[k]@ == s@);
        }
    }
    false
}

fn message2(a: &str, b: &str) -> (m: String)
    ensures
        m@ == a@ + b@,
{
    let mut m = a.to_owned();
    push_str(&mut m, b);
    m
}

impl ArgsParser {
    /// A parser for the command line `args`, whose first item is the command
    /// that started the launcher.
    pub fn new(args: Vec<String>) -> (p: ArgsParser)
        requires
            args@.len() >= 1,
        ensures
            p@ == initial_parser(string_views(args@)),
    {
        let ghost orig = args@;
        let mut rest = reversed(args);
        let ghost full = rest@;
        assert(string_views(rest@).len() == rest@.len());
        assert(string_views(orig).reverse().len() == orig.len());
        assert(rest@.len() == orig.len());
        let cmd = rest.pop().unwrap();
        proof {
            assert(full =~= rest@.push(cmd));
            lemma_frame_pop(full);
            assert(string_views(full).reverse() =~= string_views(orig));
            assert(frame_view(rest) =~= string_views(orig).drop_first());
            assert(cmd@ == orig[0]@);
        }
        let mut frames: Vec<Vec<String>> = Vec::new();
        frames.push(rest);
        let p = ArgsParser {
            app_execute_cmd: cmd,
            frames,
            server: false,
            vm_args: Vec::new(),
            app_args: Vec::new(),
            can_load_cfg_file: true,
            cfg_files: Vec::new(),
            target: None,
            waiting: Waiting::Nothing,
        };
        assert(p@.frames =~= seq![string_views(args@).drop_first()]);
        assert(p@.vm_args =~= seq![]);
        assert(p@.app_args =~= seq![]);
        assert(p@.cfg_files =~= seq![]);
        p
    }

    /// Reads the next argument, as `spec_step` says.
    pub fn step(&mut self) -> (a: ArgAction)
        requires
            old(self)@.waiting == Waiting::Nothing,
        ensures
            (final(self)@, a@) == spec_step(old(self)@),
    {
        let ghost s0 = self@;
        let mut top = match self.frames.pop() {
            Some(t) => t,
            None => return ArgAction::Finished,
        };
        proof {
            assert(self.frames@.push(top) =~= old(self).frames@);
            assert(s0.frames.last() == frame_view(top));
            assert(self@.frames =~= s0.frames.drop_last());
        }
        let ghost full = top@;
        let arg = match top.pop() {
            Some(a) => a,
            None => {
                assert(frame_view(top).len() == 0);
                return ArgAction::Continue;
            },
        };
        proof {
            assert(full =~= top@.push(arg));
            lemma_frame_pop(full);
            assert(s0.frames.last()[0] == arg@);
            assert(s0.frames.last().drop_first() =~= frame_view(top));
        }
        if self.target.is_some() {
            self.app_args.push(arg);
            self.frames.push(top);
            assert(self@.frames =~= s0.frames.drop_last().push(s0.frames.last().drop_first()));
            assert(self@.app_args =~= s0.app_args.push(arg@));
            return ArgAction::Continue;
        }
        let chars = chars_of(arg.as_str());
        let kind = classify_arg(chars.as_slice(), self.can_load_cfg_file);
        let ghost rest = frame_view(top);
        let ghost below = s0.frames.drop_last();
        let action = match kind {
            ArgKind::Server => {
                self.server = true;
                ArgAction::Continue
            },
            ArgKind::ClassPath => {
                let ghost before = top@;
                match top.pop() {
                    None => ArgAction::Reject("classpath arg not found".to_owned()),
                    Some(v) => {
                        proof {
                            lemma_frame_pop(before);
                        }
                        ArgAction::Reject("Not currently supported class path".to_owned())
                    },
                }
            },
            ArgKind::Version => ArgAction::ShowVersion,
            ArgKind::FullVersion => ArgAction::ShowFullVersion,
            ArgKind::JgVersion => ArgAction::ShowJgVersion,
            ArgKind::Help => ArgAction::ShowUsage,
            ArgKind::Jar => {
                let ghost before = top@;
                match top.pop() {
                    None => ArgAction::Reject("not set jar file: -jar <jar file>".to_owned()),
                    Some(path) => {
                        proof {
                            assert(before =~= top@.push(path));
                            lemma_frame_pop(before);
                        }
                        self.waiting = Waiting::Jar;
                        ArgAction::LoadJar(path)
                    },
                }
            },
            ArgKind::ModuleOption => {
                let ghost before = top@;
                match top.pop() {
                    None => {
                        let mut m = message2("arg ", arg.as_str());
                        push_str(&mut m, " not found value");
                        ArgAction::Reject(m)
                    },
                    Some(v) => {
                        proof {
                            assert(before =~= top@.push(v));
                            lemma_frame_pop(before);
                        }
                        ArgAction::Reject(message2("Not currently supported ", arg.as_str()))
                    },
                }
            },
            ArgKind::ModuleFlag | ArgKind::AssertionFlag | ArgKind::UnsupportedPrefix => {
                ArgAction::Reject(message2("Not currently supported ", arg.as_str()))
            },
            ArgKind::DisableCfgFiles => {
                self.can_load_cfg_file = false;
                ArgAction::Continue
            },
            ArgKind::CfgFile => {
                proof {
                    reveal_strlit("@");
                    assert(chars@.len() >= 1);
                }
                let name = string_of_chars(&chars.as_slice()[1..chars.len()]);
                assert(name@ =~= arg@.drop_first());
                if contains_string(&self.cfg_files, &name) {
                    ArgAction::Continue
                } else {
                    let ghost before = self.cfg_files@;
                    self.cfg_files.push(name.clone());
                    assert(string_views(self.cfg_files@) =~= string_views(before).push(name@));
                    self.waiting = Waiting::CfgFile;
                    ArgAction::ReadCfgFile(name)
                }
            },
            ArgKind::Dropped => ArgAction::Continue,
            ArgKind::Agent => ArgAction::Reject("agent options are not allowed".to_owned()),
            ArgKind::UnknownOption => ArgAction::Reject(message2("not support vm arg: ", arg.as_str())),
            ArgKind::VmOption => {
                let ghost before = self.vm_args@;
                self.vm_args.push(arg);
                assert(string_views(self.vm_args@) =~= string_views(before).push(arg@));
                ArgAction::Continue
            },
            ArgKind::ClassName => {
                self.target = Some(LaunchTarget::Class(arg));
                ArgAction::Continue
            },
        };
        self.frames.push(top);
        assert(self@.frames =~= below.push(frame_view(top)));
        action
    }

    /// Hands over the JAR that [`ArgAction::LoadJar`] asked for; it becomes
    /// the launch target.
    pub fn jar_loaded(&mut self, jar: JarInfo)
        requires
            old(self)@.waiting == Waiting::Jar,
        ensures
            final(self)@ == (ParserView {
                target: Some(TargetView::Jar(jar@)),
                waiting: Waiting::Nothing,
                ..old(self)@
            }),
    {
        self.target = Some(LaunchTarget::Jar(jar));
        self.waiting = Waiting::Nothing;
    }

    /// Hands over the content of the argument file that
    /// [`ArgAction::ReadCfgFile`] asked for; its items are read next.
    pub fn cfg_file_loaded(&mut self, content: &str)
        requires
            old(self)@.waiting == Waiting::CfgFile,
        ensures
            final(self)@ == (ParserView {
                frames: old(self)@.frames.push(cfg_tokens(content@)),
                waiting: Waiting::Nothing,
                ..old(self)@
            }),
    {
        let ghost s0 = self@;
        let items = parser(content);
        let frame = reversed(items);
        assert(frame_view(frame) =~= cfg_tokens(content@)) by {
            assert(string_views(frame@) =~= cfg_tokens(content@).reverse());
        }
        self.frames.push(frame);
        self.waiting = Waiting::Nothing;
        assert(self@.frames =~= s0.frames.push(cfg_tokens(content@)));
    }

    /// The parsed command line for the process `pid`, as `spec_finish` says;
    /// `None` when no target was given.  It is called once `step` answers
    /// [`ArgAction::Finished`]; arguments not read by then are not part of it.
    pub fn finish(self, pid: u32) -> (r: Option<LauncherArg>)
        ensures
            match r {
                Some(a) => spec_finish(self@, pid as nat) == Some(a@),
                None => spec_finish(self@, pid as nat) is None,
            },
    {
        let ghost s0 = self@;
        let ArgsParser { app_execute_cmd, server, mut vm_args, app_args, target, .. } = self;
        match target {
            None => None,
            Some(target) => {
                let no_args: Vec<String> = Vec::new();
                init_launcher(&target, &mut vm_args, no_args.as_slice(), pid);
                assert(string_views(no_args@) =~= Seq::<Seq<char>>::empty());
                Some(LauncherArg { app_execute_cmd, server, classpath: None, vm_args, target, app_args })
            },
        }
    }

    /// What the parser waits for.
    pub fn waiting(&self) -> (w: Waiting)
        ensures
            w == self@.waiting,
    {
        self.waiting
    }
}

/// An option that may reach the JVM: a detailed-output option, a system
/// property other than the class path, or an extended option that neither
/// re-enables the attach mechanism nor turns on debugging.
pub open spec fn permitted_vm_arg(a: Seq<char>) -> bool {
    ||| starts_with(a, VERBOSE_ARG_PREFIX@)
    ||| (starts_with(a, SYSTEM_PROPERTY_ARG_PREFIX@) && !starts_with(a, CLASS_PATH_PROPERTY_PREFIX@))
    ||| (starts_with(a, VM_ARG_PREFIX@) && !eq_ignore_ascii_case(a, RE_DISABLE_ATTACH_MECHANISM@)
        && !eq_ignore_ascii_case(a, DEBUG_ARG@) && !starts_with(a, RUNJDWP_ARG_PREFIX@))
}

/// Every option of `v` may reach the JVM.
pub open spec fn all_permitted(v: Seq<Seq<char>>) -> bool {
    forall|i: int| 0 <= i < v.len() ==> permitted_vm_arg(#[trigger] v[i])
}

/// A step of the parser only ever adds options that may reach the JVM: an
/// option re-enabling attach, a debugging option, an agent option or a class
/// path property is dropped or refused, never passed on.
pub proof fn lemma_step_keeps_options_permitted(s: ParserView)
    requires
        all_permitted(s.vm_args),
    ensures
        all_permitted(spec_step(s).0.vm_args),
{
    let next = spec_step(s).0;
    assert forall|i: int| 0 <= i < next.vm_args.len() implies permitted_vm_arg(#[trigger] next.vm_args[i]) by {
        if i < s.vm_args.len() {
            assert(permitted_vm_arg(s.vm_args[i]));
        }
    }
}

/// No option that may reach the JVM loads an agent or turns off verification.
pub proof fn lemma_permitted_options_load_no_agent(a: Seq<char>)
    requires
        permitted_vm_arg(a),
    ensures
        !starts_with(a, AGENTLIB_ARG_PREFIX@),
        !starts_with(a, AGENTPATH_ARG_PREFIX@),
        !starts_with(a, JAVAAGENT_ARG_PREFIX@),
        a != NOVERIFY_ARG_PREFIX@,
{
    reveal_strlit("-D");
    reveal_strlit("-X");
    reveal_strlit("-agentlib:");
    reveal_strlit("-agentpath:");
    reveal_strlit("-javaagent:");
    reveal_strlit("-noverify");
    reveal_strlit("-verbose:");
    assert(SYSTEM_PROPERTY_ARG_PREFIX@ == "-D"@);
    assert(VM_ARG_PREFIX@ == "-X"@);
    if starts_with(a, VERBOSE_ARG_PREFIX@) {
        assert(a.take(9)[1] == a[1]);
    } else {
        assert(a.take(2)[1] == a[1]);
    }
    assert(a[1] == 'v' || a[1] == 'D' || a[1] == 'X');
    if starts_with(a, AGENTLIB_ARG_PREFIX@) {
        assert(a[1] == AGENTLIB_ARG_PREFIX@[1]);
    }
    if starts_with(a, AGENTPATH_ARG_PREFIX@) {
        assert(a[1] == AGENTPATH_ARG_PREFIX@[1]);
    }
    if starts_with(a, JAVAAGENT_ARG_PREFIX@) {
        assert(a[1] == JAVAAGENT_ARG_PREFIX@[1]);
    }
    if a == NOVERIFY_ARG_PREFIX@ {
        assert(a[1] == 'n');
    }
}

/// Once `--disable-@files` has been read, no argument file is read any more:
/// the switch stays off and no step asks for a file.
pub proof fn lemma_disabled_cfg_files_stay_disabled(s: ParserView)
    requires
        !s.can_load_cfg_file,
    ensures
        !spec_step(s).0.can_load_cfg_file,
        !(spec_step(s).1 is ReadCfgFile),
{
}

/// The options of a finished parse all may reach the JVM, when those the
/// parse collected may, and the last of them disables the attach mechanism.
pub proof fn lemma_finish_disables_attach(s: ParserView, pid: nat)
    requires
        all_permitted(s.vm_args),
        s.target is Some,
    ensures
        spec_finish(s, pid) is Some,
        all_permitted(spec_finish(s, pid)->Some_0.vm_args),
        spec_finish(s, pid)->Some_0.vm_args.last() == DISABLE_ATTACH_MECHANISM@,
{
    let v = spec_finish(s, pid)->Some_0.vm_args;
    let extra = launcher_options(target_value_of(s.target->Some_0), seq![], pid);
    reveal_strlit("-D");
    reveal_strlit("-X");
    reveal_strlit("-Djava.class.path");
    reveal_strlit("-Dsun.java.command=");
    reveal_strlit("-Dsun.java.launcher=SUN_STANDARD");
    reveal_strlit("-Dsun.java.launcher.pid=");
    reveal_strlit("-XX:+DisableAttachMechanism");
    reveal_strlit("-XX:-DisableAttachMechanism");
    reveal_strlit("-Xdebug");
    reveal_strlit("-Xrunjdwp:");
    assert forall|k: int| 0 <= k < extra.len() implies permitted_vm_arg(#[trigger] extra[k]) by {
        let a = extra[k];
        if k == 0 || k == 1 || k == 2 {
            assert(a[0] == '-' && a[1] == 'D' && a[2] == 's');
            assert(a.take(2) =~= "-D"@);
            assert(a[2] != CLASS_PATH_PROPERTY_PREFIX@[2]);
        } else {
            assert(a =~= DISABLE_ATTACH_MECHANISM@);
            assert(DISABLE_ATTACH_MECHANISM@ == "-XX:+DisableAttachMechanism"@);
            assert(RE_DISABLE_ATTACH_MECHANISM@ == "-XX:-DisableAttachMechanism"@);
            assert(a[4] == '+');
            assert(RE_DISABLE_ATTACH_MECHANISM@[4] == '-');
            assert(a.take(2) =~= "-X"@);
            assert(ascii_lower_at(a, 4) != ascii_lower_at(RE_DISABLE_ATTACH_MECHANISM@, 4));
            assert(a.len() != DEBUG_ARG@.len());
            assert(a[2] != RUNJDWP_ARG_PREFIX@[2]);
        }
    }
    assert forall|i: int| 0 <= i < v.len() implies permitted_vm_arg(#[trigger] v[i]) by {
        if i < s.vm_args.len() {
            assert(v[i] == s.vm_args[i]);
        } else {
            assert(v[i] == extra[i - s.vm_args.len()]);
        }
    }
}

/// The ASCII-folded code of the character at `i` of `a`.
pub open spec fn ascii_lower_at(a: Seq<char>, i: int) -> u32 {
    crate::text::ascii_lower(a[i])
}

/// Once the launch target is chosen, every further argument goes to the
/// application unchanged and in order, and the target stays.
pub proof fn lemma_args_after_target_go_to_application(s: ParserView)
    requires
        s.target is Some,
        s.frames.len() > 0,
        s.frames.last().len() > 0,
    ensures
        spec_step(s).0.app_args == s.app_args.push(s.frames.last()[0]),
        spec_step(s).0.target == s.target,
        spec_step(s).0.vm_args == s.vm_args,
        spec_step(s).1 == ArgActionView::Continue,
{
}

/// An argument file is asked for only under a name that was not read
/// before, and that name is recorded; the recorded names only grow.
pub proof fn lemma_cfg_file_read_once(s: ParserView)
    ensures
        spec_step(s).0.cfg_files.len() >= s.cfg_files.len(),
        spec_step(s).0.cfg_files.take(s.cfg_files.len() as int) == s.cfg_files,
        spec_step(s).1 matches ArgActionView::ReadCfgFile(n) ==> !s.cfg_files.contains(n)
            && spec_step(s).0.cfg_files == s.cfg_files.push(n),
{
    assert(s.cfg_files.take(s.cfg_files.len() as int) =~= s.cfg_files);
    if let ArgActionView::ReadCfgFile(n) = spec_step(s).1 {
        assert(s.cfg_files.push(n).take(s.cfg_files.len() as int) =~= s.cfg_files);
    }
}


proof fn lemma_trim_end_is_prefix(s: Seq<char>)
    ensures
        trim_end(s).len() <= s.len(),
        trim_end(s) == s.take(trim_end(s).len() as int),
    decreases s.len(),
{
    if s.len() > 0 && is_unicode_whitespace(s.last()) {
        lemma_trim_end_is_prefix(s.drop_last());
        assert(s.drop_last().take(trim_end(s).len() as int) =~= s.take(trim_end(s).len() as int));
    } else {
        assert(s.take(s.len() as int) =~= s);
    }
}

/// The class path that reaches the JVM is the path of the JAR: it is the
/// last option, and no option before it sets the class path, whatever the
/// command line asked for.
pub proof fn lemma_class_path_is_the_jar(a: LauncherArgView)
    requires
        a.target is Jar,
        all_permitted(a.vm_args),
    ensures
        jvm_options_of(a).last() == JAVA_CLASS_PATH_VM_ARG_PREFIX@ + target_value_of(a.target),
        forall|i: int|
            0 <= i < jvm_options_of(a).len() - 1 ==> !starts_with(
                #[trigger] jvm_options_of(a)[i],
                CLASS_PATH_PROPERTY_PREFIX@,
            ),
{
    reveal_strlit("-server");
    reveal_strlit("-D");
    reveal_strlit("-X");
    reveal_strlit("-verbose:");
    reveal_strlit("-Djava.class.path");
    let opts = jvm_options_of(a);
    let head: Seq<Seq<char>> = if a.server {
        seq![SERVER_ARG_KEY@]
    } else {
        seq![]
    };
    let mid = a.vm_args.map_values(|v: Seq<char>| trim(v));
    assert forall|i: int| 0 <= i < opts.len() - 1 implies !starts_with(
        #[trigger] opts[i],
        CLASS_PATH_PROPERTY_PREFIX@,
    ) by {
        if i < head.len() {
            assert(opts[i] == SERVER_ARG_KEY@);
            assert(opts[i][1] == 's');
            assert(CLASS_PATH_PROPERTY_PREFIX@[1] == 'D');
        } else {
            let k = i - head.len();
            let v = a.vm_args[k];
            assert(opts[i] == mid[k]);
            assert(permitted_vm_arg(v));
            if starts_with(v, VERBOSE_ARG_PREFIX@) {
                assert(v[0] == v.take(9)[0]);
                assert(v[1] == v.take(9)[1]);
                assert(v[1] == 'v');
            } else if starts_with(v, SYSTEM_PROPERTY_ARG_PREFIX@) {
                assert(v[0] == v.take(2)[0]);
                assert(v[1] == v.take(2)[1]);
                assert(v[1] == 'D');
                assert(!starts_with(v, CLASS_PATH_PROPERTY_PREFIX@));
            } else {
                assert(starts_with(v, VM_ARG_PREFIX@));
                assert(v[0] == v.take(2)[0]);
                assert(v[1] == v.take(2)[1]);
                assert(v[1] == 'X');
            }
            assert(v[0] == '-');
            assert(trim_start(v) == v);
            lemma_trim_end_is_prefix(v);
            let t = trim(v);
            if starts_with(t, CLASS_PATH_PROPERTY_PREFIX@) {
                let n = CLASS_PATH_PROPERTY_PREFIX@.len() as int;
                assert(t.take(n) =~= v.take(n));
                assert(CLASS_PATH_PROPERTY_PREFIX@[1] == 'D');
                assert(t[1] == t.take(n)[1]);
                assert(t[1] == v[1]);
                assert(starts_with(v, CLASS_PATH_PROPERTY_PREFIX@));
            }
        }
    }
}


/// An option that must never reach the JVM: one that re-enables the attach
/// mechanism, turns on debugging, turns off verification, loads an agent or
/// sets the class path.
pub open spec fn forbidden_vm_arg(a: Seq<char>) -> bool {
    ||| eq_ignore_ascii_case(a, RE_DISABLE_ATTACH_MECHANISM@)
    ||| eq_ignore_ascii_case(a, DEBUG_ARG@)
    ||| a == NOVERIFY_ARG_PREFIX@
    ||| starts_with(a, RUNJDWP_ARG_PREFIX@)
    ||| starts_with(a, AGENTLIB_ARG_PREFIX@)
    ||| starts_with(a, AGENTPATH_ARG_PREFIX@)
    ||| starts_with(a, JAVAAGENT_ARG_PREFIX@)
    ||| starts_with(a, CLASS_PATH_PROPERTY_PREFIX@)
}

/// An option that may reach the JVM is none that must not.
pub proof fn lemma_permitted_is_not_forbidden(a: Seq<char>)
    requires
        permitted_vm_arg(a),
    ensures
        !forbidden_vm_arg(a),
{
    lemma_permitted_options_load_no_agent(a);
    reveal_strlit("-D");
    reveal_strlit("-X");
    reveal_strlit("-verbose:");
    reveal_strlit("-XX:-DisableAttachMechanism");
    reveal_strlit("-Xdebug");
    reveal_strlit("-Djava.class.path");
    reveal_strlit("-Xrunjdwp:");
    if starts_with(a, VERBOSE_ARG_PREFIX@) {
        assert(a.take(9)[1] == a[1]);
    } else {
        assert(a.take(2)[1] == a[1]);
    }
    if starts_with(a, VERBOSE_ARG_PREFIX@) || starts_with(a, SYSTEM_PROPERTY_ARG_PREFIX@) {
        if eq_ignore_ascii_case(a, RE_DISABLE_ATTACH_MECHANISM@) {
            assert(ascii_lower_at(a, 1) == ascii_lower_at(RE_DISABLE_ATTACH_MECHANISM@, 1));
        }
        if eq_ignore_ascii_case(a, DEBUG_ARG@) {
            assert(ascii_lower_at(a, 1) == ascii_lower_at(DEBUG_ARG@, 1));
        }
        if starts_with(a, RUNJDWP_ARG_PREFIX@) {
            assert(a.take(10)[1] == a[1]);
        }
        if starts_with(a, CLASS_PATH_PROPERTY_PREFIX@) {
            assert(a.take(17)[1] == a[1]);
            assert(a.take(17)[2] == a[2]);
            if starts_with(a, VERBOSE_ARG_PREFIX@) {
                assert(a.take(9)[1] == a[1]);
            }
        }
    }
}

/// Whatever the command line holds, whatever the argument files it names
/// hold (nested ones too) and whatever JARs are handed over, every option
/// that the parser has collected may reach the JVM, and none of them
/// re-enables attaching, turns on debugging, turns off verification, loads
/// an agent or sets the class path.  A finished parse adds only permitted
/// options and ends with the option that disables attaching.
pub proof fn lemma_no_forbidden_option_reaches_the_jvm(args: Seq<Seq<char>>, es: Seq<ParserEvent>, pid: nat)
    requires
        args.len() >= 1,
    ensures
        all_permitted(run_events(initial_parser(args), es).vm_args),
        forall|i: int|
            0 <= i < run_events(initial_parser(args), es).vm_args.len() ==> !forbidden_vm_arg(
                #[trigger] run_events(initial_parser(args), es).vm_args[i],
            ),
        run_events(initial_parser(args), es).target is Some ==> ({
            let a = spec_finish(run_events(initial_parser(args), es), pid)->Some_0;
            &&& all_permitted(a.vm_args)
            &&& forall|i: int| 0 <= i < a.vm_args.len() ==> !forbidden_vm_arg(#[trigger] a.vm_args[i])
            &&& a.vm_args.last() == DISABLE_ATTACH_MECHANISM@
        }),
    decreases es.len(),
{
    let s = run_events(initial_parser(args), es);
    if es.len() > 0 {
        lemma_no_forbidden_option_reaches_the_jvm(args, es.drop_last(), pid);
        let prev = run_events(initial_parser(args), es.drop_last());
        if es.last() is Step && prev.waiting == Waiting::Nothing {
            lemma_step_keeps_options_permitted(prev);
        }
    }
    assert forall|i: int| 0 <= i < s.vm_args.len() implies !forbidden_vm_arg(#[trigger] s.vm_args[i]) by {
        lemma_permitted_is_not_forbidden(s.vm_args[i]);
    }
    if s.target is Some {
        lemma_finish_disables_attach(s, pid);
        let a = spec_finish(s, pid)->Some_0;
        assert forall|i: int| 0 <= i < a.vm_args.len() implies !forbidden_vm_arg(#[trigger] a.vm_args[i]) by {
            lemma_permitted_is_not_forbidden(a.vm_args[i]);
        }
    }
}

/// After `--disable-@files` no argument file is ever read again, whatever
/// events follow: the switch stays off, no file is asked for and the names
/// of the files read stay as they are.
pub proof fn lemma_disabled_cfg_files_over_events(s: ParserView, es: Seq<ParserEvent>)
    requires
        !s.can_load_cfg_file,
        s.waiting != Waiting::CfgFile,
    ensures
        !run_events(s, es).can_load_cfg_file,
        run_events(s, es).waiting != Waiting::CfgFile,
        run_events(s, es).cfg_files == s.cfg_files,
    decreases es.len(),
{
    if es.len() > 0 {
        lemma_disabled_cfg_files_over_events(s, es.drop_last());
        let prev = run_events(s, es.drop_last());
        if es.last() is Step && prev.waiting == Waiting::Nothing {
            lemma_disabled_cfg_files_stay_disabled(prev);
        }
    }
}


proof fn lemma_differs_at(a: Seq<char>, p: Seq<char>, k: int)
    requires
        0 <= k < a.len(),
        k < p.len(),
        a[k] != p[k],
    ensures
        !starts_with(a, p),
        a != p,
{
    if starts_with(a, p) {
        assert(a.take(p.len() as int)[k] == a[k]);
    }
}

proof fn lemma_lower_differs_at(a: Seq<char>, p: Seq<char>, k: int)
    requires
        0 <= k < a.len(),
        k < p.len(),
        crate::text::ascii_lower(a[k]) != crate::text::ascii_lower(p[k]),
    ensures
        !eq_ignore_ascii_case(a, p),
{
}

/// Once argument files are switched off, an argument that starts with `@`
/// is taken as the name of the class to launch; no file is read.
pub proof fn lemma_at_argument_is_a_class_when_disabled(s: ParserView)
    requires
        !s.can_load_cfg_file,
        s.target is None,
        s.frames.len() > 0,
        s.frames.last().len() > 0,
        s.frames.last()[0].len() > 0,
        s.frames.last()[0][0] == '@',
    ensures
        spec_step(s).0.target == Some(TargetView::Class(s.frames.last()[0])),
        spec_step(s).0.cfg_files == s.cfg_files,
        spec_step(s).0.can_load_cfg_file == s.can_load_cfg_file,
        spec_step(s).1 == ArgActionView::Continue,
{
    let arg = s.frames.last()[0];
    reveal_strlit("--add-modules");
    lemma_differs_at(arg, ADD_MODULES_ARG_KEY@, 0);
    reveal_strlit("--add-opens");
    lemma_differs_at(arg, ADD_OPENS_ARG_KEY@, 0);
    reveal_strlit("--add-opens=");
    lemma_differs_at(arg, ADD_OPENS_PREFIX_ARG_KEY@, 0);
    reveal_strlit("-agentlib:");
    lemma_differs_at(arg, AGENTLIB_ARG_PREFIX@, 0);
    reveal_strlit("-agentpath:");
    lemma_differs_at(arg, AGENTPATH_ARG_PREFIX@, 0);
    reveal_strlit("-classpath");
    lemma_differs_at(arg, CLASSPATH_ARG_KEY@, 0);
    reveal_strlit("--class-path");
    lemma_differs_at(arg, CLASS_PATH_ARG_KEY@, 0);
    reveal_strlit("-Djava.class.path");
    lemma_differs_at(arg, CLASS_PATH_PROPERTY_PREFIX@, 0);
    reveal_strlit("-cp");
    lemma_differs_at(arg, CP_ARG_KEY@, 0);
    reveal_strlit("-da");
    lemma_differs_at(arg, DA_ARG_KEY@, 0);
    reveal_strlit("-da:");
    lemma_differs_at(arg, DA_ARG_PREFIX@, 0);
    reveal_strlit("-Xdebug");
    lemma_lower_differs_at(arg, DEBUG_ARG@, 0);
    lemma_differs_at(arg, DEBUG_ARG@, 0);
    reveal_strlit("--describe-module");
    lemma_differs_at(arg, DESCRIBE_MODULE_ARG_KEY@, 0);
    reveal_strlit("-d");
    lemma_differs_at(arg, DESCRIBE_MODULE_SHORT_ARG_KEY@, 0);
    reveal_strlit("-disableassertions");
    lemma_differs_at(arg, DISABLEASSERTIONS_ARG_KEY@, 0);
    reveal_strlit("-disableassertions:");
    lemma_differs_at(arg, DISABLEASSERTIONS_ARG_PREFIX@, 0);
    reveal_strlit("-disablesystemassertions");
    lemma_differs_at(arg, DISABLESYSTEMASSERTIONS_ARG_KEY@, 0);
    reveal_strlit("--disable-@files");
    lemma_differs_at(arg, DISABLE_CFG_FILES_ARG_KEY@, 0);
    reveal_strlit("-dsa");
    lemma_differs_at(arg, DSA_ARG_KEY@, 0);
    reveal_strlit("-ea");
    lemma_differs_at(arg, EA_ARG_KEY@, 0);
    reveal_strlit("-ea:");
    lemma_differs_at(arg, EA_ARG_PREFIX@, 0);
    reveal_strlit("-enableassertions");
    lemma_differs_at(arg, ENABLEASSERTIONS_ARG_KEY@, 0);
    reveal_strlit("-enableassertions:");
    lemma_differs_at(arg, ENABLEASSERTIONS_ARG_PREFIX@, 0);
    reveal_strlit("-enablesystemassertions");
    lemma_differs_at(arg, ENABLESYSTEMASSERTIONS_ARG_KEY@, 0);
    reveal_strlit("--enable-native-access");
    lemma_differs_at(arg, ENABLE_NATIVE_ACCESS_ARG_KEY@, 0);
    reveal_strlit("-esa");
    lemma_differs_at(arg, ESA_ARG_KEY@, 0);
    reveal_strlit("-fullversion");
    lemma_differs_at(arg, FULL_VERSION_ARG_KEY@, 0);
    reveal_strlit("-help");
    lemma_differs_at(arg, HELP_ARG_KEY@, 0);
    reveal_strlit("-?");
    lemma_differs_at(arg, HELP_C_ARG_KEY@, 0);
    reveal_strlit("-h");
    lemma_differs_at(arg, HELP_H_ARG_KEY@, 0);
    reveal_strlit("-jar");
    lemma_differs_at(arg, JAR_ARG_KEY@, 0);
    reveal_strlit("-javaagent:");
    lemma_differs_at(arg, JAVAAGENT_ARG_PREFIX@, 0);
    reveal_strlit("-jgv");
    lemma_differs_at(arg, JG_VERSION_ARG_KEY@, 0);
    reveal_strlit("--list-modules");
    lemma_differs_at(arg, LIST_MODULES_ARG_KEY@, 0);
    reveal_strlit("--module-path");
    lemma_differs_at(arg, MODULES_PATH_ARG_KEY@, 0);
    reveal_strlit("-p");
    lemma_differs_at(arg, MODULES_PATH_SHORT_ARG_KEY@, 0);
    reveal_strlit("-noverify");
    lemma_differs_at(arg, NOVERIFY_ARG_PREFIX@, 0);
    reveal_strlit("-XX:-DisableAttachMechanism");
    lemma_lower_differs_at(arg, RE_DISABLE_ATTACH_MECHANISM@, 0);
    lemma_differs_at(arg, RE_DISABLE_ATTACH_MECHANISM@, 0);
    reveal_strlit("-Xrunjdwp:");
    lemma_differs_at(arg, RUNJDWP_ARG_PREFIX@, 0);
    reveal_strlit("-server");
    lemma_differs_at(arg, SERVER_ARG_KEY@, 0);
    reveal_strlit("--show-module-resolution");
    lemma_differs_at(arg, SHOW_MODULE_RESOLUTION_ARG_KEY@, 0);
    reveal_strlit("-D");
    lemma_differs_at(arg, SYSTEM_PROPERTY_ARG_PREFIX@, 0);
    reveal_strlit("--upgrade-module-path");
    lemma_differs_at(arg, UPGRADE_MODULE_PATH_ARG_KEY@, 0);
    reveal_strlit("--validate-modules");
    lemma_differs_at(arg, VALIDATE_MODULES_ARG_KEY@, 0);
    reveal_strlit("-verbose:");
    lemma_differs_at(arg, VERBOSE_ARG_PREFIX@, 0);
    reveal_strlit("-version");
    lemma_differs_at(arg, VERSION_ARG_KEY@, 0);
    reveal_strlit("-X");
    lemma_differs_at(arg, VM_ARG_PREFIX@, 0);
    reveal_strlit("-");
    lemma_differs_at(arg, "-"@, 0);
    assert(spec_classify(arg, false) == ArgKind::ClassName);
}

/// An agent option read before the target is refused with the message
/// `agent options are not allowed`; it never reaches the JVM options.
pub proof fn lemma_agent_options_are_refused(s: ParserView)
    requires
        s.target is None,
        s.frames.len() > 0,
        s.frames.last().len() > 0,
        starts_with(s.frames.last()[0], AGENTLIB_ARG_PREFIX@) || starts_with(
            s.frames.last()[0],
            AGENTPATH_ARG_PREFIX@,
        ) || starts_with(s.frames.last()[0], JAVAAGENT_ARG_PREFIX@),
    ensures
        spec_step(s).1 == ArgActionView::Reject("agent options are not allowed"@),
        spec_step(s).0.vm_args == s.vm_args,
{
    let arg = s.frames.last()[0];
    reveal_strlit("--add-modules");
    reveal_strlit("--add-opens");
    reveal_strlit("--add-opens=");
    reveal_strlit("-agentlib:");
    reveal_strlit("-agentpath:");
    reveal_strlit("-classpath");
    reveal_strlit("--class-path");
    reveal_strlit("-Djava.class.path");
    reveal_strlit("-cp");
    reveal_strlit("-da");
    reveal_strlit("-da:");
    reveal_strlit("-Xdebug");
    reveal_strlit("--describe-module");
    reveal_strlit("-d");
    reveal_strlit("-disableassertions");
    reveal_strlit("-disableassertions:");
    reveal_strlit("-disablesystemassertions");
    reveal_strlit("--disable-@files");
    reveal_strlit("-dsa");
    reveal_strlit("-ea");
    reveal_strlit("-ea:");
    reveal_strlit("-enableassertions");
    reveal_strlit("-enableassertions:");
    reveal_strlit("-enablesystemassertions");
    reveal_strlit("--enable-native-access");
    reveal_strlit("-esa");
    reveal_strlit("-fullversion");
    reveal_strlit("-help");
    reveal_strlit("-?");
    reveal_strlit("-h");
    reveal_strlit("-jar");
    reveal_strlit("-javaagent:");
    reveal_strlit("-jgv");
    reveal_strlit("--list-modules");
    reveal_strlit("--module-path");
    reveal_strlit("-p");
    reveal_strlit("-noverify");
    reveal_strlit("-XX:-DisableAttachMechanism");
    reveal_strlit("-Xrunjdwp:");
    reveal_strlit("-server");
    reveal_strlit("--show-module-resolution");
    reveal_strlit("-D");
    reveal_strlit("--upgrade-module-path");
    reveal_strlit("--validate-modules");
    reveal_strlit("-verbose:");
    reveal_strlit("-version");
    reveal_strlit("-X");
    reveal_strlit("@");
    if starts_with(arg, AGENTLIB_ARG_PREFIX@) {
        assert(arg.take(10) == AGENTLIB_ARG_PREFIX@);
        assert(arg[1] == arg.take(10)[1]);
        lemma_differs_at(arg, ADD_MODULES_ARG_KEY@, 1);
        assert(arg[1] == arg.take(10)[1]);
        lemma_differs_at(arg, ADD_OPENS_ARG_KEY@, 1);
        assert(arg[1] == arg.take(10)[1]);
        lemma_differs_at(arg, ADD_OPENS_PREFIX_ARG_KEY@, 1);
        assert(arg[1] == arg.take(10)[1]);
        lemma_differs_at(arg, CLASSPATH_ARG_KEY@, 1);
        assert(arg[1] == arg.take(10)[1]);
        lemma_differs_at(arg, CLASS_PATH_ARG_KEY@, 1);
        assert(arg[1] == arg.take(10)[1]);
        lemma_differs_at(arg, CLASS_PATH_PROPERTY_PREFIX@, 1);
        assert(arg[1] == arg.take(10)[1]);
        lemma_differs_at(arg, CP_ARG_KEY@, 1);
        assert(arg[1] == arg.take(10)[1]);
        lemma_differs_at(arg, DA_ARG_KEY@, 1);
        assert(arg[1] == arg.take(10)[1]);
        lemma_differs_at(arg, DA_ARG_PREFIX@, 1);
        assert(arg[1] == arg.take(10)[1]);
        lemma_lower_differs_at(arg, DEBUG_ARG@, 1);
        lemma_differs_at(arg, DEBUG_ARG@, 1);
        assert(arg[1] == arg.take(10)[1]);
        lemma_differs_at(arg, DESCRIBE_MODULE_ARG_KEY@, 1);
        assert(arg[1] == arg.take(10)[1]);
        lemma_differs_at(arg, DESCRIBE_MODULE_SHORT_ARG_KEY@, 1);
        assert(arg[1] == arg.take(10)[1]);
        lemma_differs_at(arg, DISABLEASSERTIONS_ARG_KEY@, 1);
        assert(arg[1] == arg.take(10)[1]);
        lemma_differs_at(arg, DISABLEASSERTIONS_ARG_PREFIX@, 1);
        assert(arg[1] == arg.take(10)[1]);
        lemma_differs_at(arg, DISABLESYSTEMASSERTIONS_ARG_KEY@, 1);
        assert(arg[1] == arg.take(10)[1]);
        lemma_differs_at(arg, DISABLE_CFG_FILES_ARG_KEY@, 1);
        assert(arg[1] == arg.take(10)[1]);
        lemma_differs_at(arg, DSA_ARG_KEY@, 1);
        assert(arg[1] == arg.take(10)[1]);
        lemma_differs_at(arg, EA_ARG_KEY@, 1);
        assert(arg[1] == arg.take(10)[1]);
        lemma_differs_at(arg, EA_ARG_PREFIX@, 1);
        assert(arg[1] == arg.take(10)[1]);
        lemma_differs_at(arg, ENABLEASSERTIONS_ARG_KEY@, 1);
        assert(arg[1] == arg.take(10)[1]);
        lemma_differs_at(arg, ENABLEASSERTIONS_ARG_PREFIX@, 1);
        assert(arg[1] == arg.take(10)[1]);
        lemma_differs_at(arg, ENABLESYSTEMASSERTIONS_ARG_KEY@, 1);
        assert(arg[1] == arg.take(10)[1]);
        lemma_differs_at(arg, ENABLE_NATIVE_ACCESS_ARG_KEY@, 1);
        assert(arg[1] == arg.take(10)[1]);
        lemma_differs_at(arg, ESA_ARG_KEY@, 1);
        assert(arg[1] == arg.take(10)[1]);
        lemma_differs_at(arg, FULL_VERSION_ARG_KEY@, 1);
        assert(arg[1] == arg.take(10)[1]);
        lemma_differs_at(arg, HELP_ARG_KEY@, 1);
        assert(arg[1] == arg.take(10)[1]);
        lemma_differs_at(arg, HELP_C_ARG_KEY@, 1);
        assert(arg[1] == arg.take(10)[1]);
        lemma_differs_at(arg, HELP_H_ARG_KEY@, 1);
        assert(arg[1] == arg.take(10)[1]);
        lemma_differs_at(arg, JAR_ARG_KEY@, 1);
        assert(arg[1] == arg.take(10)[1]);
        lemma_differs_at(arg, JG_VERSION_ARG_KEY@, 1);
        assert(arg[1] == arg.take(10)[1]);
        lemma_differs_at(arg, LIST_MODULES_ARG_KEY@, 1);
        assert(arg[1] == arg.take(10)[1]);
        lemma_differs_at(arg, MODULES_PATH_ARG_KEY@, 1);
        assert(arg[1] == arg.take(10)[1]);
        lemma_differs_at(arg, MODULES_PATH_SHORT_ARG_KEY@, 1);
        assert(arg[1] == arg.take(10)[1]);
        lemma_differs_at(arg, NOVERIFY_ARG_PREFIX@, 1);
        assert(arg[1] == arg.take(10)[1]);
        lemma_lower_differs_at(arg, RE_DISABLE_ATTACH_MECHANISM@, 1);
        lemma_differs_at(arg, RE_DISABLE_ATTACH_MECHANISM@, 1);
        assert(arg[1] == arg.take(10)[1]);
        lemma_differs_at(arg, RUNJDWP_ARG_PREFIX@, 1);
        assert(arg[1] == arg.take(10)[1]);
        lemma_differs_at(arg, SERVER_ARG_KEY@, 1);
        assert(arg[1] == arg.take(10)[1]);
        lemma_differs_at(arg, SHOW_MODULE_RESOLUTION_ARG_KEY@, 1);
        assert(arg[1] == arg.take(10)[1]);
        lemma_differs_at(arg, SYSTEM_PROPERTY_ARG_PREFIX@, 1);
        assert(arg[1] == arg.take(10)[1]);
        lemma_differs_at(arg, UPGRADE_MODULE_PATH_ARG_KEY@, 1);
        assert(arg[1] == arg.take(10)[1]);
        lemma_differs_at(arg, VALIDATE_MODULES_ARG_KEY@, 1);
        assert(arg[1] == arg.take(10)[1]);
        lemma_differs_at(arg, VERBOSE_ARG_PREFIX@, 1);
        assert(arg[1] == arg.take(10)[1]);
        lemma_differs_at(arg, VERSION_ARG_KEY@, 1);
        assert(arg[1] == arg.take(10)[1]);
        lemma_differs_at(arg, VM_ARG_PREFIX@, 1);
        assert(arg[0] == arg.take(10)[0]);
        lemma_differs_at(arg, CFG_FILE_PREFIX@, 0);
    } else if starts_with(arg, AGENTPATH_ARG_PREFIX@) {
        assert(arg.take(11) == AGENTPATH_ARG_PREFIX@);
        assert(arg[1] == arg.take(11)[1]);
        lemma_differs_at(arg, ADD_MODULES_ARG_KEY@, 1);
        assert(arg[1] == arg.take(11)[1]);
        lemma_differs_at(arg, ADD_OPENS_ARG_KEY@, 1);
        assert(arg[1] == arg.take(11)[1]);
        lemma_differs_at(arg, ADD_OPENS_PREFIX_ARG_KEY@, 1);
        assert(arg[1] == arg.take(11)[1]);
        lemma_differs_at(arg, CLASSPATH_ARG_KEY@, 1);
        assert(arg[1] == arg.take(11)[1]);
        lemma_differs_at(arg, CLASS_PATH_ARG_KEY@, 1);
        assert(arg[1] == arg.take(11)[1]);
        lemma_differs_at(arg, CLASS_PATH_PROPERTY_PREFIX@, 1);
        assert(arg[1] == arg.take(11)[1]);
        lemma_differs_at(arg, CP_ARG_KEY@, 1);
        assert(arg[1] == arg.take(11)[1]);
        lemma_differs_at(arg, DA_ARG_KEY@, 1);
        assert(arg[1] == arg.take(11)[1]);
        lemma_differs_at(arg, DA_ARG_PREFIX@, 1);
        assert(arg[1] == arg.take(11)[1]);
        lemma_lower_differs_at(arg, DEBUG_ARG@, 1);
        lemma_differs_at(arg, DEBUG_ARG@, 1);
        assert(arg[1] == arg.take(11)[1]);
        lemma_differs_at(arg, DESCRIBE_MODULE_ARG_KEY@, 1);
        assert(arg[1] == arg.take(11)[1]);
        lemma_differs_at(arg, DESCRIBE_MODULE_SHORT_ARG_KEY@, 1);
        assert(arg[1] == arg.take(11)[1]);
        lemma_differs_at(arg, DISABLEASSERTIONS_ARG_KEY@, 1);
        assert(arg[1] == arg.take(11)[1]);
        lemma_differs_at(arg, DISABLEASSERTIONS_ARG_PREFIX@, 1);
        assert(arg[1] == arg.take(11)[1]);
        lemma_differs_at(arg, DISABLESYSTEMASSERTIONS_ARG_KEY@, 1);
        assert(arg[1] == arg.take(11)[1]);
        lemma_differs_at(arg, DISABLE_CFG_FILES_ARG_KEY@, 1);
        assert(arg[1] == arg.take(11)[1]);
        lemma_differs_at(arg, DSA_ARG_KEY@, 1);
        assert(arg[1] == arg.take(11)[1]);
        lemma_differs_at(arg, EA_ARG_KEY@, 1);
        assert(arg[1] == arg.take(11)[1]);
        lemma_differs_at(arg, EA_ARG_PREFIX@, 1);
        assert(arg[1] == arg.take(11)[1]);
        lemma_differs_at(arg, ENABLEASSERTIONS_ARG_KEY@, 1);
        assert(arg[1] == arg.take(11)[1]);
        lemma_differs_at(arg, ENABLEASSERTIONS_ARG_PREFIX@, 1);
        assert(arg[1] == arg.take(11)[1]);
        lemma_differs_at(arg, ENABLESYSTEMASSERTIONS_ARG_KEY@, 1);
        assert(arg[1] == arg.take(11)[1]);
        lemma_differs_at(arg, ENABLE_NATIVE_ACCESS_ARG_KEY@, 1);
        assert(arg[1] == arg.take(11)[1]);
        lemma_differs_at(arg, ESA_ARG_KEY@, 1);
        assert(arg[1] == arg.take(11)[1]);
        lemma_differs_at(arg, FULL_VERSION_ARG_KEY@, 1);
        assert(arg[1] == arg.take(11)[1]);
        lemma_differs_at(arg, HELP_ARG_KEY@, 1);
        assert(arg[1] == arg.take(11)[1]);
        lemma_differs_at(arg, HELP_C_ARG_KEY@, 1);
        assert(arg[1] == arg.take(11)[1]);
        lemma_differs_at(arg, HELP_H_ARG_KEY@, 1);
        assert(arg[1] == arg.take(11)[1]);
        lemma_differs_at(arg, JAR_ARG_KEY@, 1);
        assert(arg[1] == arg.take(11)[1]);
        lemma_differs_at(arg, JG_VERSION_ARG_KEY@, 1);
        assert(arg[1] == arg.take(11)[1]);
        lemma_differs_at(arg, LIST_MODULES_ARG_KEY@, 1);
        assert(arg[1] == arg.take(11)[1]);
        lemma_differs_at(arg, MODULES_PATH_ARG_KEY@, 1);
        assert(arg[1] == arg.take(11)[1]);
        lemma_differs_at(arg, MODULES_PATH_SHORT_ARG_KEY@, 1);
        assert(arg[1] == arg.take(11)[1]);
        lemma_differs_at(arg, NOVERIFY_ARG_PREFIX@, 1);
        assert(arg[1] == arg.take(11)[1]);
        lemma_lower_differs_at(arg, RE_DISABLE_ATTACH_MECHANISM@, 1);
        lemma_differs_at(arg, RE_DISABLE_ATTACH_MECHANISM@, 1);
        assert(arg[1] == arg.take(11)[1]);
        lemma_differs_at(arg, RUNJDWP_ARG_PREFIX@, 1);
        assert(arg[1] == arg.take(11)[1]);
        lemma_differs_at(arg, SERVER_ARG_KEY@, 1);
        assert(arg[1] == arg.take(11)[1]);
        lemma_differs_at(arg, SHOW_MODULE_RESOLUTION_ARG_KEY@, 1);
        assert(arg[1] == arg.take(11)[1]);
        lemma_differs_at(arg, SYSTEM_PROPERTY_ARG_PREFIX@, 1);
        assert(arg[1] == arg.take(11)[1]);
        lemma_differs_at(arg, UPGRADE_MODULE_PATH_ARG_KEY@, 1);
        assert(arg[1] == arg.take(11)[1]);
        lemma_differs_at(arg, VALIDATE_MODULES_ARG_KEY@, 1);
        assert(arg[1] == arg.take(11)[1]);
        lemma_differs_at(arg, VERBOSE_ARG_PREFIX@, 1);
        assert(arg[1] == arg.take(11)[1]);
        lemma_differs_at(arg, VERSION_ARG_KEY@, 1);
        assert(arg[1] == arg.take(11)[1]);
        lemma_differs_at(arg, VM_ARG_PREFIX@, 1);
        assert(arg[0] == arg.take(11)[0]);
        lemma_differs_at(arg, CFG_FILE_PREFIX@, 0);
    } else {
        assert(arg.take(11) == JAVAAGENT_ARG_PREFIX@);
        assert(arg[1] == arg.take(11)[1]);
        lemma_differs_at(arg, ADD_MODULES_ARG_KEY@, 1);
        assert(arg[1] == arg.take(11)[1]);
        lemma_differs_at(arg, ADD_OPENS_ARG_KEY@, 1);
        assert(arg[1] == arg.take(11)[1]);
        lemma_differs_at(arg, ADD_OPENS_PREFIX_ARG_KEY@, 1);
        assert(arg[1] == arg.take(11)[1]);
        lemma_differs_at(arg, CLASSPATH_ARG_KEY@, 1);
        assert(arg[1] == arg.take(11)[1]);
        lemma_differs_at(arg, CLASS_PATH_ARG_KEY@, 1);
        assert(arg[1] == arg.take(11)[1]);
        lemma_differs_at(arg, CLASS_PATH_PROPERTY_PREFIX@, 1);
        assert(arg[1] == arg.take(11)[1]);
        lemma_differs_at(arg, CP_ARG_KEY@, 1);
        assert(arg[1] == arg.take(11)[1]);
        lemma_differs_at(arg, DA_ARG_KEY@, 1);
        assert(arg[1] == arg.take(11)[1]);
        lemma_differs_at(arg, DA_ARG_PREFIX@, 1);
        assert(arg[1] == arg.take(11)[1]);
        lemma_lower_differs_at(arg, DEBUG_ARG@, 1);
        lemma_differs_at(arg, DEBUG_ARG@, 1);
        assert(arg[1] == arg.take(11)[1]);
        lemma_differs_at(arg, DESCRIBE_MODULE_ARG_KEY@, 1);
        assert(arg[1] == arg.take(11)[1]);
        lemma_differs_at(arg, DESCRIBE_MODULE_SHORT_ARG_KEY@, 1);
        assert(arg[1] == arg.take(11)[1]);
        lemma_differs_at(arg, DISABLEASSERTIONS_ARG_KEY@, 1);
        assert(arg[1] == arg.take(11)[1]);
        lemma_differs_at(arg, DISABLEASSERTIONS_ARG_PREFIX@, 1);
        assert(arg[1] == arg.take(11)[1]);
        lemma_differs_at(arg, DISABLESYSTEMASSERTIONS_ARG_KEY@, 1);
        assert(arg[1] == arg.take(11)[1]);
        lemma_differs_at(arg, DISABLE_CFG_FILES_ARG_KEY@, 1);
        assert(arg[1] == arg.take(11)[1]);
        lemma_differs_at(arg, DSA_ARG_KEY@, 1);
        assert(arg[1] == arg.take(11)[1]);
        lemma_differs_at(arg, EA_ARG_KEY@, 1);
        assert(arg[1] == arg.take(11)[1]);
        lemma_differs_at(arg, EA_ARG_PREFIX@, 1);
        assert(arg[1] == arg.take(11)[1]);
        lemma_differs_at(arg, ENABLEASSERTIONS_ARG_KEY@, 1);
        assert(arg[1] == arg.take(11)[1]);
        lemma_differs_at(arg, ENABLEASSERTIONS_ARG_PREFIX@, 1);
        assert(arg[1] == arg.take(11)[1]);
        lemma_differs_at(arg, ENABLESYSTEMASSERTIONS_ARG_KEY@, 1);
        assert(arg[1] == arg.take(11)[1]);
        lemma_differs_at(arg, ENABLE_NATIVE_ACCESS_ARG_KEY@, 1);
        assert(arg[1] == arg.take(11)[1]);
        lemma_differs_at(arg, ESA_ARG_KEY@, 1);
        assert(arg[1] == arg.take(11)[1]);
        lemma_differs_at(arg, FULL_VERSION_ARG_KEY@, 1);
        assert(arg[1] == arg.take(11)[1]);
        lemma_differs_at(arg, HELP_ARG_KEY@, 1);
        assert(arg[1] == arg.take(11)[1]);
        lemma_differs_at(arg, HELP_C_ARG_KEY@, 1);
        assert(arg[1] == arg.take(11)[1]);
        lemma_differs_at(arg, HELP_H_ARG_KEY@, 1);
        assert(arg[3] == arg.take(11)[3]);
        lemma_differs_at(arg, JAR_ARG_KEY@, 3);
        assert(arg[2] == arg.take(11)[2]);
        lemma_differs_at(arg, JG_VERSION_ARG_KEY@, 2);
        assert(arg[1] == arg.take(11)[1]);
        lemma_differs_at(arg, LIST_MODULES_ARG_KEY@, 1);
        assert(arg[1] == arg.take(11)[1]);
        lemma_differs_at(arg, MODULES_PATH_ARG_KEY@, 1);
        assert(arg[1] == arg.take(11)[1]);
        lemma_differs_at(arg, MODULES_PATH_SHORT_ARG_KEY@, 1);
        assert(arg[1] == arg.take(11)[1]);
        lemma_differs_at(arg, NOVERIFY_ARG_PREFIX@, 1);
        assert(arg[1] == arg.take(11)[1]);
        lemma_lower_differs_at(arg, RE_DISABLE_ATTACH_MECHANISM@, 1);
        lemma_differs_at(arg, RE_DISABLE_ATTACH_MECHANISM@, 1);
        assert(arg[1] == arg.take(11)[1]);
        lemma_differs_at(arg, RUNJDWP_ARG_PREFIX@, 1);
        assert(arg[1] == arg.take(11)[1]);
        lemma_differs_at(arg, SERVER_ARG_KEY@, 1);
        assert(arg[1] == arg.take(11)[1]);
        lemma_differs_at(arg, SHOW_MODULE_RESOLUTION_ARG_KEY@, 1);
        assert(arg[1] == arg.take(11)[1]);
        lemma_differs_at(arg, SYSTEM_PROPERTY_ARG_PREFIX@, 1);
        assert(arg[1] == arg.take(11)[1]);
        lemma_differs_at(arg, UPGRADE_MODULE_PATH_ARG_KEY@, 1);
        assert(arg[1] == arg.take(11)[1]);
        lemma_differs_at(arg, VALIDATE_MODULES_ARG_KEY@, 1);
        assert(arg[1] == arg.take(11)[1]);
        lemma_differs_at(arg, VERBOSE_ARG_PREFIX@, 1);
        assert(arg[1] == arg.take(11)[1]);
        lemma_differs_at(arg, VERSION_ARG_KEY@, 1);
        assert(arg[1] == arg.take(11)[1]);
        lemma_differs_at(arg, VM_ARG_PREFIX@, 1);
        assert(arg[0] == arg.take(11)[0]);
        lemma_differs_at(arg, CFG_FILE_PREFIX@, 0);
    }
    assert(spec_classify(arg, s.can_load_cfg_file) == ArgKind::Agent);
}


/// Before the target is chosen, an extended option (one that starts with
/// `-X`) that neither re-enables the attach mechanism nor turns on debugging
/// (`-XX:-DisableAttachMechanism`, `-Xdebug`, ignoring ASCII case, or
/// `-Xrunjdwp:...`) is appended unchanged to the JVM options.
pub proof fn lemma_extended_options_reach_the_jvm(s: ParserView)
    requires
        s.target is None,
        s.frames.len() > 0,
        s.frames.last().len() > 0,
        starts_with(s.frames.last()[0], VM_ARG_PREFIX@),
        !eq_ignore_ascii_case(s.frames.last()[0], RE_DISABLE_ATTACH_MECHANISM@),
        !eq_ignore_ascii_case(s.frames.last()[0], DEBUG_ARG@),
        !starts_with(s.frames.last()[0], RUNJDWP_ARG_PREFIX@),
    ensures
        spec_step(s).0.vm_args == s.vm_args.push(s.frames.last()[0]),
        spec_step(s).1 == ArgActionView::Continue,
        spec_step(s).0.target is None,
        spec_step(s).0.app_args == s.app_args,
{
    let arg = s.frames.last()[0];
    reveal_strlit("-server");
    reveal_strlit("-cp");
    reveal_strlit("-classpath");
    reveal_strlit("--class-path");
    reveal_strlit("-version");
    reveal_strlit("-fullversion");
    reveal_strlit("-jgv");
    reveal_strlit("-help");
    reveal_strlit("-h");
    reveal_strlit("-?");
    reveal_strlit("-jar");
    reveal_strlit("--module-path");
    reveal_strlit("-p");
    reveal_strlit("--add-modules");
    reveal_strlit("--enable-native-access");
    reveal_strlit("--upgrade-module-path");
    reveal_strlit("--describe-module");
    reveal_strlit("-d");
    reveal_strlit("--add-opens");
    reveal_strlit("--list-modules");
    reveal_strlit("--validate-modules");
    reveal_strlit("--show-module-resolution");
    reveal_strlit("-ea");
    reveal_strlit("-enableassertions");
    reveal_strlit("-da");
    reveal_strlit("-disableassertions");
    reveal_strlit("-esa");
    reveal_strlit("-enablesystemassertions");
    reveal_strlit("-dsa");
    reveal_strlit("-disablesystemassertions");
    reveal_strlit("--disable-@files");
    reveal_strlit("--add-opens=");
    reveal_strlit("-ea:");
    reveal_strlit("-enableassertions:");
    reveal_strlit("-da:");
    reveal_strlit("-disableassertions:");
    reveal_strlit("@");
    reveal_strlit("-verbose:");
    reveal_strlit("-D");
    reveal_strlit("-Djava.class.path");
    reveal_strlit("-noverify");
    reveal_strlit("-agentlib:");
    reveal_strlit("-agentpath:");
    reveal_strlit("-javaagent:");
    reveal_strlit("-X");
    reveal_strlit("-Xdebug");
    reveal_strlit("-XX:-DisableAttachMechanism");
    reveal_strlit("-Xrunjdwp:");
    reveal_strlit("-");
    assert(arg.take(2)[0] == arg[0]);
    assert(arg.take(2)[1] == arg[1]);
    assert(arg[0] == '-' && arg[1] == 'X');
    assert(arg.take(1) =~= "-"@);
    lemma_differs_at(arg, SERVER_ARG_KEY@, 1);
    lemma_differs_at(arg, CP_ARG_KEY@, 1);
    lemma_differs_at(arg, CLASSPATH_ARG_KEY@, 1);
    lemma_differs_at(arg, CLASS_PATH_ARG_KEY@, 1);
    lemma_differs_at(arg, VERSION_ARG_KEY@, 1);
    lemma_differs_at(arg, FULL_VERSION_ARG_KEY@, 1);
    lemma_differs_at(arg, JG_VERSION_ARG_KEY@, 1);
    lemma_differs_at(arg, HELP_ARG_KEY@, 1);
    lemma_differs_at(arg, HELP_H_ARG_KEY@, 1);
    lemma_differs_at(arg, HELP_C_ARG_KEY@, 1);
    lemma_differs_at(arg, JAR_ARG_KEY@, 1);
    lemma_differs_at(arg, MODULES_PATH_ARG_KEY@, 1);
    lemma_differs_at(arg, MODULES_PATH_SHORT_ARG_KEY@, 1);
    lemma_differs_at(arg, ADD_MODULES_ARG_KEY@, 1);
    lemma_differs_at(arg, ENABLE_NATIVE_ACCESS_ARG_KEY@, 1);
    lemma_differs_at(arg, UPGRADE_MODULE_PATH_ARG_KEY@, 1);
    lemma_differs_at(arg, DESCRIBE_MODULE_ARG_KEY@, 1);
    lemma_differs_at(arg, DESCRIBE_MODULE_SHORT_ARG_KEY@, 1);
    lemma_differs_at(arg, ADD_OPENS_ARG_KEY@, 1);
    lemma_differs_at(arg, LIST_MODULES_ARG_KEY@, 1);
    lemma_differs_at(arg, VALIDATE_MODULES_ARG_KEY@, 1);
    lemma_differs_at(arg, SHOW_MODULE_RESOLUTION_ARG_KEY@, 1);
    lemma_differs_at(arg, EA_ARG_KEY@, 1);
    lemma_differs_at(arg, ENABLEASSERTIONS_ARG_KEY@, 1);
    lemma_differs_at(arg, DA_ARG_KEY@, 1);
    lemma_differs_at(arg, DISABLEASSERTIONS_ARG_KEY@, 1);
    lemma_differs_at(arg, ESA_ARG_KEY@, 1);
    lemma_differs_at(arg, ENABLESYSTEMASSERTIONS_ARG_KEY@, 1);
    lemma_differs_at(arg, DSA_ARG_KEY@, 1);
    lemma_differs_at(arg, DISABLESYSTEMASSERTIONS_ARG_KEY@, 1);
    lemma_differs_at(arg, DISABLE_CFG_FILES_ARG_KEY@, 1);
    lemma_differs_at(arg, ADD_OPENS_PREFIX_ARG_KEY@, 1);
    lemma_differs_at(arg, EA_ARG_PREFIX@, 1);
    lemma_differs_at(arg, ENABLEASSERTIONS_ARG_PREFIX@, 1);
    lemma_differs_at(arg, DA_ARG_PREFIX@, 1);
    lemma_differs_at(arg, DISABLEASSERTIONS_ARG_PREFIX@, 1);
    lemma_differs_at(arg, CFG_FILE_PREFIX@, 0);
    lemma_differs_at(arg, VERBOSE_ARG_PREFIX@, 1);
    lemma_differs_at(arg, SYSTEM_PROPERTY_ARG_PREFIX@, 1);
    lemma_differs_at(arg, CLASS_PATH_PROPERTY_PREFIX@, 1);
    lemma_differs_at(arg, NOVERIFY_ARG_PREFIX@, 1);
    lemma_differs_at(arg, AGENTLIB_ARG_PREFIX@, 1);
    lemma_differs_at(arg, AGENTPATH_ARG_PREFIX@, 1);
    lemma_differs_at(arg, JAVAAGENT_ARG_PREFIX@, 1);
    assert(spec_classify(arg, s.can_load_cfg_file) == ArgKind::VmOption);
}

/// Before the target is chosen, each assertion option (`-ea`,
/// `-enableassertions`, `-da`, `-disableassertions`, `-esa`,
/// `-enablesystemassertions`, `-dsa`, `-disablesystemassertions`) is refused
/// with the message `Not currently supported ` and the option; it reaches
/// neither the JVM options nor the application.
pub proof fn lemma_assertion_options_are_refused(s: ParserView)
    requires
        s.target is None,
        s.frames.len() > 0,
        s.frames.last().len() > 0,
        ({
            let arg = s.frames.last()[0];
            arg == EA_ARG_KEY@ || arg == ENABLEASSERTIONS_ARG_KEY@ || arg == DA_ARG_KEY@ || arg == DISABLEASSERTIONS_ARG_KEY@ || arg == ESA_ARG_KEY@ || arg == ENABLESYSTEMASSERTIONS_ARG_KEY@ || arg == DSA_ARG_KEY@ || arg == DISABLESYSTEMASSERTIONS_ARG_KEY@
        }),
    ensures
        spec_step(s).1 == ArgActionView::Reject("Not currently supported "@ + s.frames.last()[0]),
        spec_step(s).0.vm_args == s.vm_args,
        spec_step(s).0.app_args == s.app_args,
        spec_step(s).0.target is None,
{
    let arg = s.frames.last()[0];
    reveal_strlit("-server");
    reveal_strlit("-cp");
    reveal_strlit("-classpath");
    reveal_strlit("--class-path");
    reveal_strlit("-version");
    reveal_strlit("-fullversion");
    reveal_strlit("-jgv");
    reveal_strlit("-help");
    reveal_strlit("-h");
    reveal_strlit("-?");
    reveal_strlit("-jar");
    reveal_strlit("--module-path");
    reveal_strlit("-p");
    reveal_strlit("--add-modules");
    reveal_strlit("--enable-native-access");
    reveal_strlit("--upgrade-module-path");
    reveal_strlit("--describe-module");
    reveal_strlit("-d");
    reveal_strlit("--add-opens");
    reveal_strlit("--list-modules");
    reveal_strlit("--validate-modules");
    reveal_strlit("--show-module-resolution");
    reveal_strlit("-ea");
    reveal_strlit("-enableassertions");
    reveal_strlit("-da");
    reveal_strlit("-disableassertions");
    reveal_strlit("-esa");
    reveal_strlit("-enablesystemassertions");
    reveal_strlit("-dsa");
    reveal_strlit("-disablesystemassertions");
    reveal_strlit("--disable-@files");
    reveal_strlit("--add-opens=");
    reveal_strlit("-ea:");
    reveal_strlit("-enableassertions:");
    reveal_strlit("-da:");
    reveal_strlit("-disableassertions:");
    reveal_strlit("@");
    reveal_strlit("-verbose:");
    reveal_strlit("-D");
    reveal_strlit("-Djava.class.path");
    reveal_strlit("-noverify");
    reveal_strlit("-agentlib:");
    reveal_strlit("-agentpath:");
    reveal_strlit("-javaagent:");
    reveal_strlit("-X");
    reveal_strlit("-Xdebug");
    reveal_strlit("-XX:-DisableAttachMechanism");
    reveal_strlit("-Xrunjdwp:");
    if arg == EA_ARG_KEY@ {
        assert(spec_classify(arg, s.can_load_cfg_file) == ArgKind::AssertionFlag) by {
            assert(arg.len() == EA_ARG_KEY@.len());
            lemma_differs_at(arg, SERVER_ARG_KEY@, 1);
            lemma_differs_at(arg, CP_ARG_KEY@, 1);
            lemma_differs_at(arg, CLASSPATH_ARG_KEY@, 1);
            lemma_differs_at(arg, CLASS_PATH_ARG_KEY@, 1);
            lemma_differs_at(arg, VERSION_ARG_KEY@, 1);
            lemma_differs_at(arg, FULL_VERSION_ARG_KEY@, 1);
            lemma_differs_at(arg, JG_VERSION_ARG_KEY@, 1);
            lemma_differs_at(arg, HELP_ARG_KEY@, 1);
            lemma_differs_at(arg, HELP_H_ARG_KEY@, 1);
            lemma_differs_at(arg, HELP_C_ARG_KEY@, 1);
            lemma_differs_at(arg, JAR_ARG_KEY@, 1);
            lemma_differs_at(arg, MODULES_PATH_ARG_KEY@, 1);
            lemma_differs_at(arg, MODULES_PATH_SHORT_ARG_KEY@, 1);
            lemma_differs_at(arg, ADD_MODULES_ARG_KEY@, 1);
            lemma_differs_at(arg, ENABLE_NATIVE_ACCESS_ARG_KEY@, 1);
            lemma_differs_at(arg, UPGRADE_MODULE_PATH_ARG_KEY@, 1);
            lemma_differs_at(arg, DESCRIBE_MODULE_ARG_KEY@, 1);
            lemma_differs_at(arg, DESCRIBE_MODULE_SHORT_ARG_KEY@, 1);
            lemma_differs_at(arg, ADD_OPENS_ARG_KEY@, 1);
            lemma_differs_at(arg, LIST_MODULES_ARG_KEY@, 1);
            lemma_differs_at(arg, VALIDATE_MODULES_ARG_KEY@, 1);
            lemma_differs_at(arg, SHOW_MODULE_RESOLUTION_ARG_KEY@, 1);
        }
    }
    if arg == ENABLEASSERTIONS_ARG_KEY@ {
        assert(spec_classify(arg, s.can_load_cfg_file) == ArgKind::AssertionFlag) by {
            assert(arg.len() == ENABLEASSERTIONS_ARG_KEY@.len());
            lemma_differs_at(arg, SERVER_ARG_KEY@, 1);
            lemma_differs_at(arg, CP_ARG_KEY@, 1);
            lemma_differs_at(arg, CLASSPATH_ARG_KEY@, 1);
            lemma_differs_at(arg, CLASS_PATH_ARG_KEY@, 1);
            lemma_differs_at(arg, VERSION_ARG_KEY@, 1);
            lemma_differs_at(arg, FULL_VERSION_ARG_KEY@, 1);
            lemma_differs_at(arg, JG_VERSION_ARG_KEY@, 1);
            lemma_differs_at(arg, HELP_ARG_KEY@, 1);
            lemma_differs_at(arg, HELP_H_ARG_KEY@, 1);
            lemma_differs_at(arg, HELP_C_ARG_KEY@, 1);
            lemma_differs_at(arg, JAR_ARG_KEY@, 1);
            lemma_differs_at(arg, MODULES_PATH_ARG_KEY@, 1);
            lemma_differs_at(arg, MODULES_PATH_SHORT_ARG_KEY@, 1);
            lemma_differs_at(arg, ADD_MODULES_ARG_KEY@, 1);
            lemma_differs_at(arg, ENABLE_NATIVE_ACCESS_ARG_KEY@, 1);
            lemma_differs_at(arg, UPGRADE_MODULE_PATH_ARG_KEY@, 1);
            lemma_differs_at(arg, DESCRIBE_MODULE_ARG_KEY@, 1);
            lemma_differs_at(arg, DESCRIBE_MODULE_SHORT_ARG_KEY@, 1);
            lemma_differs_at(arg, ADD_OPENS_ARG_KEY@, 1);
            lemma_differs_at(arg, LIST_MODULES_ARG_KEY@, 1);
            lemma_differs_at(arg, VALIDATE_MODULES_ARG_KEY@, 1);
            lemma_differs_at(arg, SHOW_MODULE_RESOLUTION_ARG_KEY@, 1);
            lemma_differs_at(arg, EA_ARG_KEY@, 2);
        }
    }
    if arg == DA_ARG_KEY@ {
        assert(spec_classify(arg, s.can_load_cfg_file) == ArgKind::AssertionFlag) by {
            assert(arg.len() == DA_ARG_KEY@.len());
            lemma_differs_at(arg, SERVER_ARG_KEY@, 1);
            lemma_differs_at(arg, CP_ARG_KEY@, 1);
            lemma_differs_at(arg, CLASSPATH_ARG_KEY@, 1);
            lemma_differs_at(arg, CLASS_PATH_ARG_KEY@, 1);
            lemma_differs_at(arg, VERSION_ARG_KEY@, 1);
            lemma_differs_at(arg, FULL_VERSION_ARG_KEY@, 1);
            lemma_differs_at(arg, JG_VERSION_ARG_KEY@, 1);
            lemma_differs_at(arg, HELP_ARG_KEY@, 1);
            lemma_differs_at(arg, HELP_H_ARG_KEY@, 1);
            lemma_differs_at(arg, HELP_C_ARG_KEY@, 1);
            lemma_differs_at(arg, JAR_ARG_KEY@, 1);
            lemma_differs_at(arg, MODULES_PATH_ARG_KEY@, 1);
            lemma_differs_at(arg, MODULES_PATH_SHORT_ARG_KEY@, 1);
            lemma_differs_at(arg, ADD_MODULES_ARG_KEY@, 1);
            lemma_differs_at(arg, ENABLE_NATIVE_ACCESS_ARG_KEY@, 1);
            lemma_differs_at(arg, UPGRADE_MODULE_PATH_ARG_KEY@, 1);
            lemma_differs_at(arg, DESCRIBE_MODULE_ARG_KEY@, 1);
            lemma_differs_at(arg, ADD_OPENS_ARG_KEY@, 1);
            lemma_differs_at(arg, LIST_MODULES_ARG_KEY@, 1);
            lemma_differs_at(arg, VALIDATE_MODULES_ARG_KEY@, 1);
            lemma_differs_at(arg, SHOW_MODULE_RESOLUTION_ARG_KEY@, 1);
            lemma_differs_at(arg, EA_ARG_KEY@, 1);
            lemma_differs_at(arg, ENABLEASSERTIONS_ARG_KEY@, 1);
        }
    }
    if arg == DISABLEASSERTIONS_ARG_KEY@ {
        assert(spec_classify(arg, s.can_load_cfg_file) == ArgKind::AssertionFlag) by {
            assert(arg.len() == DISABLEASSERTIONS_ARG_KEY@.len());
            lemma_differs_at(arg, SERVER_ARG_KEY@, 1);
            lemma_differs_at(arg, CP_ARG_KEY@, 1);
            lemma_differs_at(arg, CLASSPATH_ARG_KEY@, 1);
            lemma_differs_at(arg, CLASS_PATH_ARG_KEY@, 1);
            lemma_differs_at(arg, VERSION_ARG_KEY@, 1);
            lemma_differs_at(arg, FULL_VERSION_ARG_KEY@, 1);
            lemma_differs_at(arg, JG_VERSION_ARG_KEY@, 1);
            lemma_differs_at(arg, HELP_ARG_KEY@, 1);
            lemma_differs_at(arg, HELP_H_ARG_KEY@, 1);
            lemma_differs_at(arg, HELP_C_ARG_KEY@, 1);
            lemma_differs_at(arg, JAR_ARG_KEY@, 1);
            lemma_differs_at(arg, MODULES_PATH_ARG_KEY@, 1);
            lemma_differs_at(arg, MODULES_PATH_SHORT_ARG_KEY@, 1);
            lemma_differs_at(arg, ADD_MODULES_ARG_KEY@, 1);
            lemma_differs_at(arg, ENABLE_NATIVE_ACCESS_ARG_KEY@, 1);
            lemma_differs_at(arg, UPGRADE_MODULE_PATH_ARG_KEY@, 1);
            lemma_differs_at(arg, DESCRIBE_MODULE_ARG_KEY@, 1);
            lemma_differs_at(arg, ADD_OPENS_ARG_KEY@, 1);
            lemma_differs_at(arg, LIST_MODULES_ARG_KEY@, 1);
            lemma_differs_at(arg, VALIDATE_MODULES_ARG_KEY@, 1);
            lemma_differs_at(arg, SHOW_MODULE_RESOLUTION_ARG_KEY@, 1);
            lemma_differs_at(arg, EA_ARG_KEY@, 1);
            lemma_differs_at(arg, ENABLEASSERTIONS_ARG_KEY@, 1);
            lemma_differs_at(arg, DA_ARG_KEY@, 2);
        }
    }
    if arg == ESA_ARG_KEY@ {
        assert(spec_classify(arg, s.can_load_cfg_file) == ArgKind::AssertionFlag) by {
            assert(arg.len() == ESA_ARG_KEY@.len());
            lemma_differs_at(arg, SERVER_ARG_KEY@, 1);
            lemma_differs_at(arg, CP_ARG_KEY@, 1);
            lemma_differs_at(arg, CLASSPATH_ARG_KEY@, 1);
            lemma_differs_at(arg, CLASS_PATH_ARG_KEY@, 1);
            lemma_differs_at(arg, VERSION_ARG_KEY@, 1);
            lemma_differs_at(arg, FULL_VERSION_ARG_KEY@, 1);
            lemma_differs_at(arg, JG_VERSION_ARG_KEY@, 1);
            lemma_differs_at(arg, HELP_ARG_KEY@, 1);
            lemma_differs_at(arg, HELP_H_ARG_KEY@, 1);
            lemma_differs_at(arg, HELP_C_ARG_KEY@, 1);
            lemma_differs_at(arg, JAR_ARG_KEY@, 1);
            lemma_differs_at(arg, MODULES_PATH_ARG_KEY@, 1);
            lemma_differs_at(arg, MODULES_PATH_SHORT_ARG_KEY@, 1);
            lemma_differs_at(arg, ADD_MODULES_ARG_KEY@, 1);
            lemma_differs_at(arg, ENABLE_NATIVE_ACCESS_ARG_KEY@, 1);
            lemma_differs_at(arg, UPGRADE_MODULE_PATH_ARG_KEY@, 1);
            lemma_differs_at(arg, DESCRIBE_MODULE_ARG_KEY@, 1);
            lemma_differs_at(arg, DESCRIBE_MODULE_SHORT_ARG_KEY@, 1);
            lemma_differs_at(arg, ADD_OPENS_ARG_KEY@, 1);
            lemma_differs_at(arg, LIST_MODULES_ARG_KEY@, 1);
            lemma_differs_at(arg, VALIDATE_MODULES_ARG_KEY@, 1);
            lemma_differs_at(arg, SHOW_MODULE_RESOLUTION_ARG_KEY@, 1);
            lemma_differs_at(arg, EA_ARG_KEY@, 2);
            lemma_differs_at(arg, ENABLEASSERTIONS_ARG_KEY@, 2);
            lemma_differs_at(arg, DA_ARG_KEY@, 1);
            lemma_differs_at(arg, DISABLEASSERTIONS_ARG_KEY@, 1);
        }
    }
    if arg == ENABLESYSTEMASSERTIONS_ARG_KEY@ {
        assert(spec_classify(arg, s.can_load_cfg_file) == ArgKind::AssertionFlag) by {
            assert(arg.len() == ENABLESYSTEMASSERTIONS_ARG_KEY@.len());
            lemma_differs_at(arg, SERVER_ARG_KEY@, 1);
            lemma_differs_at(arg, CP_ARG_KEY@, 1);
            lemma_differs_at(arg, CLASSPATH_ARG_KEY@, 1);
            lemma_differs_at(arg, CLASS_PATH_ARG_KEY@, 1);
            lemma_differs_at(arg, VERSION_ARG_KEY@, 1);
            lemma_differs_at(arg, FULL_VERSION_ARG_KEY@, 1);
            lemma_differs_at(arg, JG_VERSION_ARG_KEY@, 1);
            lemma_differs_at(arg, HELP_ARG_KEY@, 1);
            lemma_differs_at(arg, HELP_H_ARG_KEY@, 1);
            lemma_differs_at(arg, HELP_C_ARG_KEY@, 1);
            lemma_differs_at(arg, JAR_ARG_KEY@, 1);
            lemma_differs_at(arg, MODULES_PATH_ARG_KEY@, 1);
            lemma_differs_at(arg, MODULES_PATH_SHORT_ARG_KEY@, 1);
            lemma_differs_at(arg, ADD_MODULES_ARG_KEY@, 1);
            lemma_differs_at(arg, ENABLE_NATIVE_ACCESS_ARG_KEY@, 1);
            lemma_differs_at(arg, UPGRADE_MODULE_PATH_ARG_KEY@, 1);
            lemma_differs_at(arg, DESCRIBE_MODULE_ARG_KEY@, 1);
            lemma_differs_at(arg, DESCRIBE_MODULE_SHORT_ARG_KEY@, 1);
            lemma_differs_at(arg, ADD_OPENS_ARG_KEY@, 1);
            lemma_differs_at(arg, LIST_MODULES_ARG_KEY@, 1);
            lemma_differs_at(arg, VALIDATE_MODULES_ARG_KEY@, 1);
            lemma_differs_at(arg, SHOW_MODULE_RESOLUTION_ARG_KEY@, 1);
            lemma_differs_at(arg, EA_ARG_KEY@, 2);
            lemma_differs_at(arg, ENABLEASSERTIONS_ARG_KEY@, 7);
            lemma_differs_at(arg, DA_ARG_KEY@, 1);
            lemma_differs_at(arg, DISABLEASSERTIONS_ARG_KEY@, 1);
            lemma_differs_at(arg, ESA_ARG_KEY@, 2);
        }
    }
    if arg == DSA_ARG_KEY@ {
        assert(spec_classify(arg, s.can_load_cfg_file) == ArgKind::AssertionFlag) by {
            assert(arg.len() == DSA_ARG_KEY@.len());
            lemma_differs_at(arg, SERVER_ARG_KEY@, 1);
            lemma_differs_at(arg, CP_ARG_KEY@, 1);
            lemma_differs_at(arg, CLASSPATH_ARG_KEY@, 1);
            lemma_differs_at(arg, CLASS_PATH_ARG_KEY@, 1);
            lemma_differs_at(arg, VERSION_ARG_KEY@, 1);
            lemma_differs_at(arg, FULL_VERSION_ARG_KEY@, 1);
            lemma_differs_at(arg, JG_VERSION_ARG_KEY@, 1);
            lemma_differs_at(arg, HELP_ARG_KEY@, 1);
            lemma_differs_at(arg, HELP_H_ARG_KEY@, 1);
            lemma_differs_at(arg, HELP_C_ARG_KEY@, 1);
            lemma_differs_at(arg, JAR_ARG_KEY@, 1);
            lemma_differs_at(arg, MODULES_PATH_ARG_KEY@, 1);
            lemma_differs_at(arg, MODULES_PATH_SHORT_ARG_KEY@, 1);
            lemma_differs_at(arg, ADD_MODULES_ARG_KEY@, 1);
            lemma_differs_at(arg, ENABLE_NATIVE_ACCESS_ARG_KEY@, 1);
            lemma_differs_at(arg, UPGRADE_MODULE_PATH_ARG_KEY@, 1);
            lemma_differs_at(arg, DESCRIBE_MODULE_ARG_KEY@, 1);
            lemma_differs_at(arg, ADD_OPENS_ARG_KEY@, 1);
            lemma_differs_at(arg, LIST_MODULES_ARG_KEY@, 1);
            lemma_differs_at(arg, VALIDATE_MODULES_ARG_KEY@, 1);
            lemma_differs_at(arg, SHOW_MODULE_RESOLUTION_ARG_KEY@, 1);
            lemma_differs_at(arg, EA_ARG_KEY@, 1);
            lemma_differs_at(arg, ENABLEASSERTIONS_ARG_KEY@, 1);
            lemma_differs_at(arg, DA_ARG_KEY@, 2);
            lemma_differs_at(arg, DISABLEASSERTIONS_ARG_KEY@, 2);
            lemma_differs_at(arg, ESA_ARG_KEY@, 1);
            lemma_differs_at(arg, ENABLESYSTEMASSERTIONS_ARG_KEY@, 1);
        }
    }
    if arg == DISABLESYSTEMASSERTIONS_ARG_KEY@ {
        assert(spec_classify(arg, s.can_load_cfg_file) == ArgKind::AssertionFlag) by {
            assert(arg.len() == DISABLESYSTEMASSERTIONS_ARG_KEY@.len());
            lemma_differs_at(arg, SERVER_ARG_KEY@, 1);
            lemma_differs_at(arg, CP_ARG_KEY@, 1);
            lemma_differs_at(arg, CLASSPATH_ARG_KEY@, 1);
            lemma_differs_at(arg, CLASS_PATH_ARG_KEY@, 1);
            lemma_differs_at(arg, VERSION_ARG_KEY@, 1);
            lemma_differs_at(arg, FULL_VERSION_ARG_KEY@, 1);
            lemma_differs_at(arg, JG_VERSION_ARG_KEY@, 1);
            lemma_differs_at(arg, HELP_ARG_KEY@, 1);
            lemma_differs_at(arg, HELP_H_ARG_KEY@, 1);
            lemma_differs_at(arg, HELP_C_ARG_KEY@, 1);
            lemma_differs_at(arg, JAR_ARG_KEY@, 1);
            lemma_differs_at(arg, MODULES_PATH_ARG_KEY@, 1);
            lemma_differs_at(arg, MODULES_PATH_SHORT_ARG_KEY@, 1);
            lemma_differs_at(arg, ADD_MODULES_ARG_KEY@, 1);
            lemma_differs_at(arg, ENABLE_NATIVE_ACCESS_ARG_KEY@, 1);
            lemma_differs_at(arg, UPGRADE_MODULE_PATH_ARG_KEY@, 1);
            lemma_differs_at(arg, DESCRIBE_MODULE_ARG_KEY@, 1);
            lemma_differs_at(arg, ADD_OPENS_ARG_KEY@, 1);
            lemma_differs_at(arg, LIST_MODULES_ARG_KEY@, 1);
            lemma_differs_at(arg, VALIDATE_MODULES_ARG_KEY@, 1);
            lemma_differs_at(arg, SHOW_MODULE_RESOLUTION_ARG_KEY@, 1);
            lemma_differs_at(arg, EA_ARG_KEY@, 1);
            lemma_differs_at(arg, ENABLEASSERTIONS_ARG_KEY@, 1);
            lemma_differs_at(arg, DA_ARG_KEY@, 2);
            lemma_differs_at(arg, DISABLEASSERTIONS_ARG_KEY@, 8);
            lemma_differs_at(arg, ESA_ARG_KEY@, 1);
            lemma_differs_at(arg, ENABLESYSTEMASSERTIONS_ARG_KEY@, 1);
            lemma_differs_at(arg, DSA_ARG_KEY@, 2);
        }
    }
}

} // verus!
