use vstd::prelude::*;

use crate::config::{clone_string_vec, spec_resolution, Config, Profile, ProfileView};
use crate::error::{Error, ErrorView};
use crate::launch::{spec_launch_args, spec_launch_envs, spec_launch_ok, LaunchDescriptor};

verus! {

/// One invocation's inputs, already parsed off the command line by the host
/// program.
#[derive(Debug)]
pub struct Args {
    /// The main configuration file to read from.
    pub config: String,
    /// The directory to read additional configuration files from.
    pub config_dir: String,
    /// The profile to resolve and launch.
    pub profile: String,
    /// What to do with the resolved profile.
    pub subcommand: Option<Subcommand>,
}

/// What the invocation asks the program to do.
#[derive(Debug)]
pub enum Subcommand {
    /// Launch the profile, optionally overriding its executable (first
    /// element) and argument list (the rest).
    Run { args: Vec<String> },
}

/// Model of the parsed command line.
#[verifier::ext_equal]
pub struct ArgsView {
    pub config: Seq<char>,
    pub config_dir: Seq<char>,
    pub profile: Seq<char>,
    pub subcommand: Option<SubcommandView>,
}

/// Model of the subcommand.
#[verifier::ext_equal]
pub enum SubcommandView {
    Run { args: Seq<Seq<char>> },
}

impl View for Subcommand {
    type V = SubcommandView;

    open spec fn view(&self) -> SubcommandView {
        match self {
            Subcommand::Run { args } => SubcommandView::Run { args: args.deep_view() },
        }
    }
}

impl DeepView for Subcommand {
    type V = SubcommandView;

    open spec fn deep_view(&self) -> SubcommandView {
        self.view()
    }
}

impl View for Args {
    type V = ArgsView;

    open spec fn view(&self) -> ArgsView {
        ArgsView {
            config: self.config@,
            config_dir: self.config_dir@,
            profile: self.profile@,
            subcommand: self.subcommand.deep_view(),
        }
    }
}

/// A resolved profile with the trailing raw argument list applied: a
/// non-empty list replaces the executable with its first element and the
/// argument list with the remainder, wholesale; an empty list changes
/// nothing.
pub open spec fn spec_apply_override(p: ProfileView, over: Seq<Seq<char>>) -> ProfileView {
    if over.len() == 0 {
        p
    } else {
        ProfileView { exe: over[0], args: Some(over.skip(1)), ..p }
    }
}

impl Args {
    /// Decide one invocation against an already-loaded fragment store:
    /// resolve the requested profile, apply the trailing-argument override,
    /// and build the launch descriptor. Loading the store and spawning the
    /// launcher are the host program's part.
    pub fn run(&self, config: &Config) -> (r: Result<LaunchDescriptor, Error>)
        ensures
            self@.subcommand is None ==> (r matches Err(e) && e@ is NoSubcommand),
            self@.subcommand matches Some(SubcommandView::Run { args: over }) ==> (match spec_resolution(
                config@,
                self@.profile,
            ) {
                Err(ev) => r matches Err(e) && e@ == ev,
                Ok(p) => {
                    let q = spec_apply_override(p, over);
                    &&& (r is Ok <==> spec_launch_ok(q))
                    &&& (r matches Ok(d) ==> d@.envs == spec_launch_envs(q) && d@.exe == q.exe
                        && d@.args == spec_launch_args(q))
                    &&& (r matches Err(e) ==> e@ is MissingEngine)
                },
            }),
    {
        match &self.subcommand {
            None => Err(Error::NoSubcommand),
            Some(Subcommand::Run { args }) => {
                let mut profile = match config.resolve_profile(self.profile.as_str()) {
                    Ok(p) => p,
                    Err(e) => {
                        return Err(e);
                    },
                };
                if args.len() > 0 {
                    profile.exe = args[0].clone();
                    profile.args = Some(clone_string_tail(args));
                    proof {
                        assert(profile.deep_view() =~= spec_apply_override(
                            spec_resolution(config@, self@.profile)->Ok_0,
                            args.deep_view(),
                        ));
                    }
                }
                profile.build_launch()
            },
        }
    }
}

/// Clone of everything after the first element of a string list.
fn clone_string_tail(v: &Vec<String>) -> (r: Vec<String>)
    requires
        v@.len() >= 1,
    ensures
        r.deep_view() == v.deep_view().skip(1),
{
    let n = v.len();
    let mut r: Vec<String> = Vec::new();
    let mut i: usize = 1;
    while i < n
        invariant
            1 <= i <= n,
            n == v.len(),
            r@.len() == i - 1,
            forall|j: int| 0 <= j < i - 1 ==> r@[j]@ == v@[j + 1]@,
        decreases n - i,
    {
        r.push(v[i].clone());
        i += 1;
    }
    proof {
        assert(r.deep_view() =~= v.deep_view().skip(1));
    }
    r
}

} // verus!
