use vstd::prelude::*;

use crate::config::{
    bool_to_umu_bool, clone_string_vec, generate_prefix_dir, spec_prefix_dir, spec_resolve_profile,
    spec_resolve_template, spec_umu_bool, GlobalView, Profile, ProfileView, TemplateView,
};
use crate::error::{Error, ErrorView};

verus! {

// ---------------------------------------------------------------------------
// The launcher's invocation contract
// ---------------------------------------------------------------------------

/// Everything the external launcher consumes: an ordered list of environment
/// entries, the executable to start, and its argument list.
#[derive(Debug)]
pub struct LaunchDescriptor {
    /// Environment entries, in emission order.
    pub envs: Vec<(String, String)>,
    /// The executable handed to the launcher.
    pub exe: String,
    /// The arguments handed to the launcher.
    pub args: Vec<String>,
}

/// Model of a launch descriptor.
#[verifier::ext_equal]
pub struct LaunchDescriptorView {
    pub envs: Seq<(Seq<char>, Seq<char>)>,
    pub exe: Seq<char>,
    pub args: Seq<Seq<char>>,
}

impl View for LaunchDescriptor {
    type V = LaunchDescriptorView;

    open spec fn view(&self) -> LaunchDescriptorView {
        LaunchDescriptorView {
            envs: self.envs@.map_values(|e: (String, String)| (e.0@, e.1@)),
            exe: self.exe@,
            args: self.args.deep_view(),
        }
    }
}

/// Whether the profile asks to run without the engine.
pub open spec fn spec_skip_engine(p: ProfileView) -> bool {
    p.no_proton == Some(true)
}

/// Whether a launch descriptor can be built from the profile: either the
/// engine is skipped, or an engine path is present.
pub open spec fn spec_launch_ok(p: ProfileView) -> bool {
    spec_skip_engine(p) || p.proton is Some
}

/// The exact environment entries emitted for a profile, in order: the game
/// identifier always; the store when present; then either the skip-engine
/// marker alone, or the verb (when present), the engine path, and the prefix
/// (re-synthesized from the game identifier when absent).
pub open spec fn spec_launch_envs(p: ProfileView) -> Seq<(Seq<char>, Seq<char>)>
    recommends
        p.game_id is Some,
{
    let with_game = seq![("GAMEID"@, p.game_id->0)];
    let with_store = if p.store is Some {
        with_game.push(("STORE"@, p.store->0))
    } else {
        with_game
    };
    if spec_skip_engine(p) {
        with_store.push(("NO_PROTON"@, spec_umu_bool(true)))
    } else {
        let with_verb = if p.proton_verb is Some {
            with_store.push(("PROTON_VERB"@, p.proton_verb->0))
        } else {
            with_store
        };
        let with_engine = with_verb.push(("PROTONPATH"@, p.proton->0));
        let prefix = if p.prefix is Some {
            p.prefix->0
        } else {
            spec_prefix_dir(p.game_id->0)
        };
        with_engine.push(("WINEPREFIX"@, prefix))
    }
}

/// The argument list handed to the launcher: the profile's, or empty.
pub open spec fn spec_launch_args(p: ProfileView) -> Seq<Seq<char>> {
    if p.args is Some {
        p.args->0
    } else {
        Seq::empty()
    }
}

impl Profile {
    /// Validate a resolved profile and translate it into the launcher's
    /// invocation contract. The game identifier must already be resolved;
    /// `MissingEngine` is returned exactly when the engine is not skipped
    /// and no engine path is present.
    pub fn build_launch(&self) -> (r: Result<LaunchDescriptor, Error>)
        requires
            self@.game_id is Some,
        ensures
            r is Ok <==> spec_launch_ok(self@),
            r matches Ok(d) ==> d@.envs == spec_launch_envs(self@) && d@.exe == self@.exe
                && d@.args == spec_launch_args(self@),
            r matches Err(e) ==> e@ is MissingEngine,
    {
        let mut envs: Vec<(String, String)> = Vec::new();
        let game_id = self.game_id.as_ref().unwrap();
        envs.push(("GAMEID".to_owned(), game_id.clone()));
        if let Some(store) = &self.store {
            envs.push(("STORE".to_owned(), store.clone()));
        }
        let no_proton = self.no_proton.unwrap_or(false);
        if no_proton {
            envs.push(("NO_PROTON".to_owned(), bool_to_umu_bool(no_proton)));
        } else {
            if let Some(proton_verb) = &self.proton_verb {
                envs.push(("PROTON_VERB".to_owned(), proton_verb.clone()));
            }
            match &self.proton {
                Some(proton) => envs.push(("PROTONPATH".to_owned(), proton.clone())),
                None => {
                    return Err(Error::MissingEngine);
                },
            }
            match &self.prefix {
                Some(prefix) => envs.push(("WINEPREFIX".to_owned(), prefix.clone())),
                None => envs.push(("WINEPREFIX".to_owned(), generate_prefix_dir(game_id.as_str()))),
            }
        }
        let args = match &self.args {
            Some(a) => clone_string_vec(a),
            None => Vec::new(),
        };
        let d = LaunchDescriptor { envs, exe: self.exe.clone(), args };
        proof {
            assert(d@.envs =~= spec_launch_envs(self@));
        }
        Ok(d)
    }
}

// ---------------------------------------------------------------------------
// Laws of the builder
// ---------------------------------------------------------------------------

/// Over a fully layered profile, the engine path is missing if and only if
/// the resolved skip-engine flag is off and no layer — profile, template or
/// global — supplies an engine path.
pub proof fn lemma_missing_engine_iff(g: GlobalView, p: ProfileView, t: TemplateView)
    ensures
        ({
            let rp = spec_resolve_profile(g, p, spec_resolve_template(g, t));
            !spec_launch_ok(rp) <==> (!spec_skip_engine(rp) && p.proton is None && t.proton is None
                && g.proton is None)
        }),
{
}

/// The two fixed values of the boolean encoding: the skip-engine marker is
/// `"_1_"` for a set flag and `"_0_"` for a cleared one.
pub proof fn lemma_umu_bool_encoding()
    ensures
        spec_umu_bool(true) == "_1_"@,
        spec_umu_bool(false) == "_0_"@,
{
}

} // verus!
