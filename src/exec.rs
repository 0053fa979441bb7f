use vstd::prelude::*;

use crate::config::{opt_view, QemuConfig};
use crate::error::VexError;
use crate::subst::{env_view, strings_view, substitute_all, substitute_params};

verus! {

/// What `exec` is asked to do.
#[derive(Debug, Clone)]
pub struct ExecArgs {
    /// Configuration name to execute.
    pub name: String,
    /// Start QEMU with its GDB stub enabled and the CPU frozen at startup.
    pub debug: bool,
    /// Show the binary and the full argument list before starting.
    pub full: bool,
}

/// The outcome of comparing the recorded QEMU version with the installed one.
#[derive(Debug, Clone)]
pub enum VersionCheck {
    /// The record carries no version: nothing to compare.
    NotRecorded,
    /// The installed version is the recorded one.
    Match,
    /// The installed version differs from the recorded one.
    Mismatch { saved: String, current: String },
    /// The installed version could not be determined.
    Undetected,
}

/// The two tokens that enable the GDB stub on the default port (`-s`) and
/// freeze the CPU at startup (`-S`).
pub open spec fn debug_tokens() -> Seq<Seq<char>> {
    seq!["-s"@, "-S"@]
}

/// The effective argument list: the stored arguments substituted from the
/// environment, then the debug tokens when debugging is asked for.
pub open spec fn effective_args_spec(
    args: Seq<Seq<char>>,
    env: Seq<(Seq<char>, Seq<char>)>,
    debug: bool,
) -> Seq<Seq<char>> {
    substitute_all(args, env) + if debug {
        debug_tokens()
    } else {
        Seq::empty()
    }
}

/// The arguments QEMU is launched with.
pub fn effective_args(args: &Vec<String>, env: &Vec<(String, String)>, debug: bool) -> (r: Vec<
    String,
>)
    ensures
        strings_view(r@) == effective_args_spec(strings_view(args@), env_view(env@), debug),
{
    let mut r = substitute_params(args, env);
    let ghost subst = strings_view(r@);
    if debug {
        r.push(String::from_str("-s"));
        r.push(String::from_str("-S"));
        assert(strings_view(r@) =~= subst + debug_tokens());
    } else {
        assert(subst + Seq::<Seq<char>>::empty() =~= subst);
    }
    r
}

/// With the debug flag the effective list is the one without it followed by
/// exactly the two debug tokens.
pub proof fn law_debug_appends_two_tokens(
    args: Seq<Seq<char>>,
    env: Seq<(Seq<char>, Seq<char>)>,
)
    ensures
        effective_args_spec(args, env, true) == effective_args_spec(args, env, false)
            + debug_tokens(),
        effective_args_spec(args, env, true).len() == args.len() + 2,
        effective_args_spec(args, env, true)[args.len() as int] == "-s"@,
        effective_args_spec(args, env, true)[args.len() + 1int] == "-S"@,
{
    let plain = substitute_all(args, env);
    assert(plain + Seq::<Seq<char>>::empty() =~= plain);
}

pub open spec fn version_check_spec(
    saved: Option<Seq<char>>,
    current: Option<Seq<char>>,
    r: VersionCheck,
) -> bool {
    match (saved, current) {
        (None, _) => r is NotRecorded,
        (Some(_), None) => r is Undetected,
        (Some(s), Some(c)) => if s == c {
            r is Match
        } else {
            r matches VersionCheck::Mismatch { saved, current } && saved@ == s && current@ == c
        },
    }
}

/// Compares the version recorded in a configuration with the installed one
/// (`current`, absent when it could not be determined).
pub fn check_version(saved: &Option<String>, current: Option<String>) -> (r: VersionCheck)
    ensures
        version_check_spec(opt_view(*saved), opt_view(current), r),
{
    match saved {
        None => VersionCheck::NotRecorded,
        Some(s) => match current {
            None => VersionCheck::Undetected,
            Some(c) => {
                if *s == c {
                    VersionCheck::Match
                } else {
                    VersionCheck::Mismatch { saved: s.clone(), current: c }
                }
            },
        },
    }
}

/// `a` followed by `b`.
pub fn join2(a: &str, b: &str) -> (r: String)
    ensures
        r@ == a@ + b@,
{
    let mut r = String::from_str(a);
    r.append(b);
    r
}

/// `a`, `b` and `c` one after the other.
pub fn join3(a: &str, b: &str, c: &str) -> (r: String)
    ensures
        r@ == a@ + b@ + c@,
{
    let mut r = String::from_str(a);
    r.append(b);
    r.append(c);
    r
}

pub open spec fn version_warning_spec(check: VersionCheck) -> Seq<Seq<char>> {
    match check {
        VersionCheck::Mismatch { saved, current } => seq![
            "WARNING: Version mismatch!"@,
            "   Configuration saved with QEMU "@ + saved@,
            "   Current system has QEMU "@ + current@,
            "   Some features might not work as expected."@,
            Seq::empty(),
        ],
        VersionCheck::Undetected => seq!["WARNING: Could not detect current QEMU version."@, Seq::empty()],
        _ => Seq::empty(),
    }
}

/// The advisory lines printed for a version check; none when the versions
/// match or no version was recorded.
pub fn version_warning(check: &VersionCheck) -> (r: Vec<String>)
    ensures
        strings_view(r@) == version_warning_spec(*check),
{
    let mut r: Vec<String> = Vec::new();
    match check {
        VersionCheck::Mismatch { saved, current } => {
            r.push(String::from_str("WARNING: Version mismatch!"));
            r.push(join2("   Configuration saved with QEMU ", saved.as_str()));
            r.push(join2("   Current system has QEMU ", current.as_str()));
            r.push(String::from_str("   Some features might not work as expected."));
            r.push(String::new());
        },
        VersionCheck::Undetected => {
            r.push(String::from_str("WARNING: Could not detect current QEMU version."));
            r.push(String::new());
        },
        _ => {},
    }
    assert(strings_view(r@) =~= version_warning_spec(*check));
    r
}

/// What std's `Debug` formatting makes of a list of strings.
pub uninterp spec fn debug_list_of(items: Seq<Seq<char>>) -> Seq<char>;

/// Relies on std's `Debug` implementation for `Vec<String>`: the text
/// depends on the strings alone.
#[verifier::external_body]
pub(crate) fn debug_list(items: &Vec<String>) -> (r: String)
    ensures
        r@ == debug_list_of(strings_view(items@)),
{
    format!("{:?}", items)
}

pub open spec fn startup_header_spec(name: Seq<char>, desc: Option<Seq<char>>) -> Seq<char> {
    match desc {
        Some(d) => "Starting configuration '"@ + name + "' ("@ + d + ")"@,
        None => "Starting configuration '"@ + name + "'"@,
    }
}

pub open spec fn startup_message_spec(
    name: Seq<char>,
    config: QemuConfig,
    args: Seq<Seq<char>>,
    debug: bool,
    full: bool,
) -> Seq<Seq<char>> {
    seq![startup_header_spec(name, opt_view(config.desc))] + (if full {
        seq!["  QEMU: "@ + config.qemu_bin@, "  Args: "@ + debug_list_of(args)]
    } else {
        Seq::empty()
    }) + (if debug {
        seq![
            "  Mode: DEBUG"@,
            "  GDB server: localhost:1234"@,
            Seq::empty(),
            "You can connect with: gdb -ex 'target remote localhost:1234'"@,
        ]
    } else {
        Seq::empty()
    })
}

/// The banner printed before launching the configuration `name` with the
/// effective arguments `args`.
pub fn startup_message(
    name: &str,
    config: &QemuConfig,
    args: &Vec<String>,
    debug: bool,
    full: bool,
) -> (r: Vec<String>)
    ensures
        strings_view(r@) == startup_message_spec(name@, *config, strings_view(args@), debug, full),
{
    let mut r: Vec<String> = Vec::new();
    match &config.desc {
        Some(d) => {
            let mut h = join3("Starting configuration '", name, "' (");
            h.append(d.as_str());
            h.append(")");
            r.push(h);
        },
        None => r.push(join3("Starting configuration '", name, "'")),
    }
    if full {
        r.push(join2("  QEMU: ", config.qemu_bin.as_str()));
        let listed = debug_list(args);
        r.push(join2("  Args: ", listed.as_str()));
    }
    if debug {
        r.push(String::from_str("  Mode: DEBUG"));
        r.push(String::from_str("  GDB server: localhost:1234"));
        r.push(String::new());
        r.push(String::from_str("You can connect with: gdb -ex 'target remote localhost:1234'"));
    }
    assert(strings_view(r@) =~= startup_message_spec(name@, *config, strings_view(args@), debug, full));
    r
}

/// The result of `exec` once the launched binary has exited: success, or
/// `ExecutionFailed` with its exit code (`-1` when it had none).
pub fn exit_result(success: bool, code: Option<i32>) -> (r: Result<(), VexError>)
    ensures
        success ==> r is Ok,
        !success ==> r == Err::<(), VexError>(
            VexError::ExecutionFailed(
                match code {
                    Some(c) => c,
                    None => -1i32,
                },
            ),
        ),
{
    if success {
        Ok(())
    } else {
        match code {
            Some(c) => Err(VexError::ExecutionFailed(c)),
            None => Err(VexError::ExecutionFailed(-1)),
        }
    }
}

} // verus!
