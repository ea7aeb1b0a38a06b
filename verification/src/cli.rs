//! Values supplied at invocation time.

use vstd::prelude::*;

verus! {

/// What the operator passed on the command line. A present value takes
/// precedence over the persisted record when the two are merged.
#[derive(Debug, Clone, PartialEq, Eq)]
pub struct CliArgs {
    /// Path of the configuration file.
    pub config: String,
    /// Names of the binaries to upload; empty when none was named.
    pub binaries: Vec<String>,
    /// Whether the debug profile is used.
    pub debug: bool,
    /// Directory on the target host that receives the binaries.
    pub remote_folder: Option<String>,
    /// Host name or address of the target.
    pub host: Option<String>,
    /// User to log in as.
    pub username: Option<String>,
    /// Password, or passphrase of the key.
    pub password: Option<String>,
    /// Path of the private key file.
    pub key: Option<String>,
    /// Port of the target host.
    pub port: Option<u16>,
    /// Target triple to build for.
    pub target: Option<String>,
    /// Local directory that holds the build output.
    pub target_folder: Option<String>,
    /// Where to write a template configuration file, if one was asked for.
    pub init: Option<String>,
    /// Whether a build was explicitly asked for.
    pub build: bool,
    /// Name of the build profile; empty when none was named.
    pub profile: String,
}

/// The mathematical content of [`CliArgs`].
pub struct CliArgsView {
    pub config: Seq<char>,
    pub binaries: Seq<Seq<char>>,
    pub debug: bool,
    pub remote_folder: Option<Seq<char>>,
    pub host: Option<Seq<char>>,
    pub username: Option<Seq<char>>,
    pub password: Option<Seq<char>>,
    pub key: Option<Seq<char>>,
    pub port: Option<u16>,
    pub target: Option<Seq<char>>,
    pub target_folder: Option<Seq<char>>,
    pub init: Option<Seq<char>>,
    pub build: bool,
    pub profile: Seq<char>,
}

impl View for CliArgs {
    type V = CliArgsView;

    open spec fn view(&self) -> CliArgsView {
        CliArgsView {
            config: self.config@,
            binaries: self.binaries.deep_view(),
            debug: self.debug,
            remote_folder: self.remote_folder.deep_view(),
            host: self.host.deep_view(),
            username: self.username.deep_view(),
            password: self.password.deep_view(),
            key: self.key.deep_view(),
            port: self.port,
            target: self.target.deep_view(),
            target_folder: self.target_folder.deep_view(),
            init: self.init.deep_view(),
            build: self.build,
            profile: self.profile@,
        }
    }
}

impl CliArgs {
    /// Whether the names of the binaries have to be discovered, because none
    /// was given.
    pub fn needs_detection(&self) -> (r: bool)
        ensures
            r == (self@.binaries.len() == 0),
    {
        self.binaries.len() == 0
    }
}

/// The arguments without the name of the subcommand: when the program is
/// run through the build tool, the word `shipit` comes second and is left
/// out; any other list of arguments stays as it is.
pub open spec fn without_subcommand(args: Seq<Seq<char>>) -> Seq<Seq<char>> {
    if args.len() > 1 && args[1] == "shipit"@ {
        args.remove(1)
    } else {
        args
    }
}

/// Leaves the name of the subcommand out of the arguments.
pub fn strip_subcommand(args: Vec<String>) -> (r: Vec<String>)
    ensures
        r.deep_view() == without_subcommand(args.deep_view()),
{
    let mut args = args;
    let ghost given = args.deep_view();
    if args.len() > 1 && args[1] == String::from_str("shipit") {
        args.remove(1);
        assert(args.deep_view() =~= given.remove(1));
    }
    args
}

} // verus!
