use vstd::prelude::*;
use vstd::string::*;

use crate::error::{EntityKind, Error, ErrorView};

verus! {

// ---------------------------------------------------------------------------
// Mathematical model of the three configuration layers
// ---------------------------------------------------------------------------

/// Model of the global-defaults layer.
#[verifier::ext_equal]
pub struct GlobalView {
    pub proton: Option<Seq<char>>,
    pub prefix: Option<Seq<char>>,
    pub game_id: Seq<char>,
    pub proton_verb: Option<Seq<char>>,
    pub store: Option<Seq<char>>,
    pub default_template: Option<Seq<char>>,
}

/// Model of one template record.
#[verifier::ext_equal]
pub struct TemplateView {
    pub name: Seq<char>,
    pub prefix: Option<Seq<char>>,
    pub proton: Option<Seq<char>>,
    pub proton_verb: Option<Seq<char>>,
    pub store: Option<Seq<char>>,
    pub no_proton: Option<bool>,
}

/// Model of one profile record.
#[verifier::ext_equal]
pub struct ProfileView {
    pub template: Option<Seq<char>>,
    pub name: Seq<char>,
    pub game_id: Option<Seq<char>>,
    pub store: Option<Seq<char>>,
    pub proton: Option<Seq<char>>,
    pub proton_verb: Option<Seq<char>>,
    pub prefix: Option<Seq<char>>,
    pub exe: Seq<char>,
    pub args: Option<Seq<Seq<char>>>,
    pub no_proton: Option<bool>,
}

/// Model of a whole fragment store.
#[verifier::ext_equal]
pub struct ConfigView {
    pub global: GlobalView,
    pub templates: Seq<TemplateView>,
    pub profiles: Seq<ProfileView>,
}

/// First present value over an ordered pair of optional sources: the one
/// precedence rule that every per-field fallback chain is built from.
pub open spec fn coalesce(a: Option<Seq<char>>, b: Option<Seq<char>>) -> Option<Seq<char>> {
    if a is Some {
        a
    } else {
        b
    }
}

/// The prefix directory synthesized from a game identifier, the terminal
/// default of the prefix fallback chain.
pub open spec fn spec_prefix_dir(game_id: Seq<char>) -> Seq<char> {
    "~/Games/umu/"@ + game_id
}

/// The launcher's fixed two-value boolean encoding.
pub open spec fn spec_umu_bool(b: bool) -> Seq<char> {
    if b {
        "_1_"@
    } else {
        "_0_"@
    }
}

/// A template after its global fallbacks: every unset global-eligible field
/// (prefix, engine path, verb, store) is filled from the global layer; the
/// skip-engine flag has no global level.
pub open spec fn spec_resolve_template(g: GlobalView, t: TemplateView) -> TemplateView {
    TemplateView {
        name: t.name,
        prefix: coalesce(t.prefix, g.prefix),
        proton: coalesce(t.proton, g.proton),
        proton_verb: coalesce(t.proton_verb, g.proton_verb),
        store: coalesce(t.store, g.store),
        no_proton: t.no_proton,
    }
}

/// First template with the given name, in insertion order.
pub open spec fn spec_find_template(ts: Seq<TemplateView>, name: Seq<char>) -> Option<TemplateView>
    decreases ts.len(),
{
    if ts.len() == 0 {
        None
    } else if ts[0].name == name {
        Some(ts[0])
    } else {
        spec_find_template(ts.skip(1), name)
    }
}

/// First profile with the given name, in insertion order.
pub open spec fn spec_find_profile(ps: Seq<ProfileView>, name: Seq<char>) -> Option<ProfileView>
    decreases ps.len(),
{
    if ps.len() == 0 {
        None
    } else if ps[0].name == name {
        Some(ps[0])
    } else {
        spec_find_profile(ps.skip(1), name)
    }
}

/// The name of the template a profile derives from: its own `template`
/// field if set, else the global default template.
pub open spec fn spec_template_name(g: GlobalView, p: ProfileView) -> Option<Seq<char>> {
    coalesce(p.template, g.default_template)
}

/// The game identifier a profile resolves to: its own if set, else the
/// global one; it always resolves.
pub open spec fn spec_game_id(g: GlobalView, p: ProfileView) -> Seq<char> {
    if p.game_id is Some {
        p.game_id->0
    } else {
        g.game_id
    }
}

/// A profile after its fallbacks against an already-resolved template `t`:
/// engine path, verb, store and skip-engine fall back to the template, the
/// game identifier to the global layer, and the prefix to the first layer
/// that sets one, else it is synthesized from the resolved game identifier.
pub open spec fn spec_resolve_profile(g: GlobalView, p: ProfileView, t: TemplateView) -> ProfileView {
    ProfileView {
        template: p.template,
        name: p.name,
        game_id: Some(spec_game_id(g, p)),
        store: coalesce(p.store, t.store),
        proton: coalesce(p.proton, t.proton),
        proton_verb: coalesce(p.proton_verb, t.proton_verb),
        prefix: coalesce(
            coalesce(p.prefix, t.prefix),
            Some(spec_prefix_dir(spec_game_id(g, p))),
        ),
        exe: p.exe,
        args: p.args,
        no_proton: if p.no_proton is Some {
            p.no_proton
        } else {
            t.no_proton
        },
    }
}

/// The specified outcome of template resolution against a fragment store.
pub open spec fn spec_template_resolution(c: ConfigView, name: Seq<char>) -> Result<
    TemplateView,
    ErrorView,
> {
    match spec_find_template(c.templates, name) {
        None => Err(ErrorView::NotFound { kind: EntityKind::Template, name: name }),
        Some(t) => Ok(spec_resolve_template(c.global, t)),
    }
}

/// The specified outcome of profile resolution against a fragment store,
/// including every failure.
pub open spec fn spec_resolution(c: ConfigView, name: Seq<char>) -> Result<ProfileView, ErrorView> {
    match spec_find_profile(c.profiles, name) {
        None => Err(ErrorView::NotFound { kind: EntityKind::Profile, name: name }),
        Some(p) => match spec_template_name(c.global, p) {
            None => Err(ErrorView::NoDefaultTemplate),
            Some(tn) => match spec_find_template(c.templates, tn) {
                None => Err(ErrorView::NotFound { kind: EntityKind::Template, name: tn }),
                Some(t) => Ok(
                    spec_resolve_profile(c.global, p, spec_resolve_template(c.global, t)),
                ),
            },
        },
    }
}

// ---------------------------------------------------------------------------
// The configuration data itself
// ---------------------------------------------------------------------------

/// The global-defaults layer: last-resort values for every profile.
#[derive(Debug, Clone)]
pub struct Global {
    /// Fallback engine (Proton) installation path.
    pub proton: Option<String>,
    /// Fallback WINE prefix location.
    pub prefix: Option<String>,
    /// Fallback game identifier; `"0"` when nothing supplies one.
    pub game_id: String,
    /// Fallback verb to launch the game with.
    pub proton_verb: Option<String>,
    /// Fallback store the game is from.
    pub store: Option<String>,
    /// The template profiles derive from when they name none themselves.
    pub default_template: Option<String>,
}

impl View for Global {
    type V = GlobalView;

    open spec fn view(&self) -> GlobalView {
        GlobalView {
            proton: self.proton.deep_view(),
            prefix: self.prefix.deep_view(),
            game_id: self.game_id@,
            proton_verb: self.proton_verb.deep_view(),
            store: self.store.deep_view(),
            default_template: self.default_template.deep_view(),
        }
    }
}

impl Default for Global {
    /// A global layer that sets nothing and leaves the game identifier at
    /// its default `"0"`.
    fn default() -> (r: Global)
        ensures
            r@.proton is None,
            r@.prefix is None,
            r@.game_id == "0"@,
            r@.proton_verb is None,
            r@.store is None,
            r@.default_template is None,
    {
        Global {
            proton: None,
            prefix: None,
            game_id: default_game_id(),
            proton_verb: None,
            store: None,
            default_template: None,
        }
    }
}

/// A reusable, named bundle of launch settings that profiles derive from.
#[derive(Debug, Clone)]
pub struct Template {
    /// Name the template is looked up under.
    pub name: String,
    /// WINE prefix location for deriving profiles.
    pub prefix: Option<String>,
    /// Engine (Proton) installation path for deriving profiles.
    pub proton: Option<String>,
    /// Verb to launch the game with.
    pub proton_verb: Option<String>,
    /// The store the game is from.
    pub store: Option<String>,
    /// Skip the engine and run inside the plain runtime instead.
    pub no_proton: Option<bool>,
}

impl View for Template {
    type V = TemplateView;

    open spec fn view(&self) -> TemplateView {
        TemplateView {
            name: self.name@,
            prefix: self.prefix.deep_view(),
            proton: self.proton.deep_view(),
            proton_verb: self.proton_verb.deep_view(),
            store: self.store.deep_view(),
            no_proton: self.no_proton,
        }
    }
}

impl DeepView for Template {
    type V = TemplateView;

    open spec fn deep_view(&self) -> TemplateView {
        self.view()
    }
}

/// A concrete, named launch target that resolves its settings through a
/// template and the global defaults.
#[derive(Debug, Clone)]
pub struct Profile {
    /// The template to derive the profile from; when unset, the global
    /// default template is used instead.
    pub template: Option<String>,
    /// Name the profile is looked up under.
    pub name: String,
    /// The identifier of the game to launch; also determines the prefix
    /// location when no prefix is set anywhere.
    pub game_id: Option<String>,
    /// The store the game is from.
    pub store: Option<String>,
    /// Engine (Proton) installation path.
    pub proton: Option<String>,
    /// Verb to launch the game with.
    pub proton_verb: Option<String>,
    /// WINE prefix location.
    pub prefix: Option<String>,
    /// Path to the game's executable.
    pub exe: String,
    /// Arguments to pass to the game.
    pub args: Option<Vec<String>>,
    /// Skip the engine and run inside the plain runtime instead.
    pub no_proton: Option<bool>,
}

impl View for Profile {
    type V = ProfileView;

    open spec fn view(&self) -> ProfileView {
        ProfileView {
            template: self.template.deep_view(),
            name: self.name@,
            game_id: self.game_id.deep_view(),
            store: self.store.deep_view(),
            proton: self.proton.deep_view(),
            proton_verb: self.proton_verb.deep_view(),
            prefix: self.prefix.deep_view(),
            exe: self.exe@,
            args: self.args.deep_view(),
            no_proton: self.no_proton,
        }
    }
}

impl DeepView for Profile {
    type V = ProfileView;

    open spec fn deep_view(&self) -> ProfileView {
        self.view()
    }
}

/// The fragment store: one global-defaults record and the accumulated
/// template and profile lists.
#[derive(Debug)]
pub struct Config {
    /// The global-defaults layer.
    pub global: Global,
    /// All loaded templates, in load order.
    pub template: Vec<Template>,
    /// All loaded profiles, in load order.
    pub profile: Vec<Profile>,
}

impl View for Config {
    type V = ConfigView;

    open spec fn view(&self) -> ConfigView {
        ConfigView {
            global: self.global@,
            templates: self.template.deep_view(),
            profiles: self.profile.deep_view(),
        }
    }
}

// ---------------------------------------------------------------------------
// Small executable building blocks
// ---------------------------------------------------------------------------

/// The game identifier used when no layer supplies one.
pub fn default_game_id() -> (r: String)
    ensures
        r@ == "0"@,
{
    "0".to_owned()
}

/// The prefix directory derived from a game identifier.
pub fn generate_prefix_dir(game_id: &str) -> (r: String)
    ensures
        r@ == spec_prefix_dir(game_id@),
{
    let base: String = "~/Games/umu/".to_owned();
    base.concat(game_id)
}

/// Encode a flag in the launcher's fixed two-value form.
pub fn bool_to_umu_bool(b: bool) -> (r: String)
    ensures
        r@ == spec_umu_bool(b),
{
    if b {
        "_1_".to_owned()
    } else {
        "_0_".to_owned()
    }
}

/// Clone of an optional string.
fn clone_opt_string(a: &Option<String>) -> (r: Option<String>)
    ensures
        r.deep_view() == a.deep_view(),
{
    match a {
        Some(s) => Some(s.clone()),
        None => None,
    }
}

/// First present value of two optional strings, cloned.
fn coalesce_clone(a: &Option<String>, b: &Option<String>) -> (r: Option<String>)
    ensures
        r.deep_view() == coalesce(a.deep_view(), b.deep_view()),
{
    match a {
        Some(s) => Some(s.clone()),
        None => match b {
            Some(s) => Some(s.clone()),
            None => None,
        },
    }
}

/// Element-wise clone of a string list.
pub(crate) fn clone_string_vec(v: &Vec<String>) -> (r: Vec<String>)
    ensures
        r.deep_view() == v.deep_view(),
{
    let n = v.len();
    let mut r: Vec<String> = Vec::new();
    let mut i: usize = 0;
    while i < n
        invariant
            i <= n,
            n == v.len(),
            r@.len() == i,
            forall|j: int| 0 <= j < i ==> r@[j]@ == v@[j]@,
        decreases n - i,
    {
        r.push(v[i].clone());
        i += 1;
    }
    proof {
        assert(r.deep_view() =~= v.deep_view());
    }
    r
}

/// Clone of an optional string list.
fn clone_opt_string_vec(a: &Option<Vec<String>>) -> (r: Option<Vec<String>>)
    ensures
        r.deep_view() == a.deep_view(),
{
    match a {
        Some(v) => Some(clone_string_vec(v)),
        None => None,
    }
}

// ---------------------------------------------------------------------------
// Resolution
// ---------------------------------------------------------------------------

impl Config {
    /// Append another fragment set's templates and profiles to this store,
    /// in order and without deduplication; the other set's global layer is
    /// discarded.
    pub fn merge(&mut self, other: Config)
        ensures
            final(self)@.global == old(self)@.global,
            final(self)@.templates == old(self)@.templates + other@.templates,
            final(self)@.profiles == old(self)@.profiles + other@.profiles,
    {
        let Config { global: _, template: mut ts, profile: mut ps } = other;
        self.template.append(&mut ts);
        self.profile.append(&mut ps);
        proof {
            assert(self.template.deep_view() =~= old(self).template.deep_view()
                + other.template.deep_view());
            assert(self.profile.deep_view() =~= old(self).profile.deep_view()
                + other.profile.deep_view());
        }
    }

    /// Look the named template up (first match in insertion order wins) and
    /// fill its unset global-eligible fields from the global layer.
    pub fn resolve_template(&self, name: &str) -> (r: Result<Template, Error>)
        ensures
            r matches Ok(t) ==> spec_template_resolution(self@, name@) == Ok::<
                TemplateView,
                ErrorView,
            >(t.deep_view()),
            r matches Err(e) ==> spec_template_resolution(self@, name@) == Err::<
                TemplateView,
                ErrorView,
            >(e@),
    {
        let owned: String = name.to_owned();
        let n = self.template.len();
        let mut i: usize = 0;
        proof {
            assert(self@.templates.skip(0) =~= self@.templates);
        }
        while i < n
            invariant
                i <= n,
                n == self.template.len(),
                owned@ == name@,
                spec_find_template(self@.templates, name@) == spec_find_template(
                    self@.templates.skip(i as int),
                    name@,
                ),
            decreases n - i,
        {
            proof {
                assert(self@.templates.skip(i as int)[0] == self@.templates[i as int]);
            }
            if self.template[i].name == owned {
                let t = &self.template[i];
                let resolved = Template {
                    name: t.name.clone(),
                    prefix: coalesce_clone(&t.prefix, &self.global.prefix),
                    proton: coalesce_clone(&t.proton, &self.global.proton),
                    proton_verb: coalesce_clone(&t.proton_verb, &self.global.proton_verb),
                    store: coalesce_clone(&t.store, &self.global.store),
                    no_proton: t.no_proton,
                };
                proof {
                    assert(spec_find_template(self@.templates, name@) == Some(
                        self@.templates[i as int],
                    ));
                    assert(resolved.deep_view() =~= spec_resolve_template(
                        self@.global,
                        self@.templates[i as int],
                    ));
                }
                return Ok(resolved);
            }
            proof {
                assert(self@.templates.skip(i as int).skip(1) =~= self@.templates.skip(
                    i as int + 1,
                ));
            }
            i += 1;
        }
        proof {
            assert(self@.templates.skip(n as int).len() == 0);
        }
        Err(Error::NotFound { kind: EntityKind::Template, name: owned })
    }

    /// Resolve the named profile (first match in insertion order wins):
    /// determine its template, resolve that template, fill the profile's
    /// unset fields from it and from the global layer, and synthesize a
    /// prefix when none is set anywhere.
    pub fn resolve_profile(&self, name: &str) -> (r: Result<Profile, Error>)
        ensures
            r matches Ok(p) ==> spec_resolution(self@, name@) == Ok::<ProfileView, ErrorView>(
                p.deep_view(),
            ),
            r matches Err(e) ==> spec_resolution(self@, name@) == Err::<ProfileView, ErrorView>(
                e@,
            ),
    {
        let owned: String = name.to_owned();
        let n = self.profile.len();
        let mut i: usize = 0;
        proof {
            assert(self@.profiles.skip(0) =~= self@.profiles);
        }
        while i < n
            invariant
                i <= n,
                n == self.profile.len(),
                owned@ == name@,
                spec_find_profile(self@.profiles, name@) == spec_find_profile(
                    self@.profiles.skip(i as int),
                    name@,
                ),
            decreases n - i,
        {
            proof {
                assert(self@.profiles.skip(i as int)[0] == self@.profiles[i as int]);
            }
            if self.profile[i].name == owned {
                return self.resolve_profile_found(i, name);
            }
            proof {
                assert(self@.profiles.skip(i as int).skip(1) =~= self@.profiles.skip(
                    i as int + 1,
                ));
            }
            i += 1;
        }
        proof {
            assert(self@.profiles.skip(n as int).len() == 0);
        }
        Err(Error::NotFound { kind: EntityKind::Profile, name: owned })
    }

    /// The layering steps of profile resolution, once the profile at index
    /// `i` has been found to be the first match for `name`.
    fn resolve_profile_found(&self, i: usize, name: &str) -> (r: Result<Profile, Error>)
        requires
            i < self@.profiles.len(),
            spec_find_profile(self@.profiles, name@) == Some(self@.profiles[i as int]),
        ensures
            r matches Ok(p) ==> spec_resolution(self@, name@) == Ok::<ProfileView, ErrorView>(
                p.deep_view(),
            ),
            r matches Err(e) ==> spec_resolution(self@, name@) == Err::<ProfileView, ErrorView>(
                e@,
            ),
    {
        let prof = &self.profile[i];
        let tmpl_name: &String = match &prof.template {
            Some(t) => t,
            None => match &self.global.default_template {
                Some(t) => t,
                None => {
                    return Err(Error::NoDefaultTemplate);
                },
            },
        };
        let tmpl = match self.resolve_template(tmpl_name.as_str()) {
            Ok(t) => t,
            Err(e) => {
                return Err(e);
            },
        };
        let game_id: String = match &prof.game_id {
            Some(g) => g.clone(),
            None => self.global.game_id.clone(),
        };
        let prefix: Option<String> = match &prof.prefix {
            Some(p) => Some(p.clone()),
            None => match &tmpl.prefix {
                Some(p) => Some(p.clone()),
                None => Some(generate_prefix_dir(game_id.as_str())),
            },
        };
        let resolved = Profile {
            template: clone_opt_string(&prof.template),
            name: prof.name.clone(),
            game_id: Some(game_id),
            store: coalesce_clone(&prof.store, &tmpl.store),
            proton: coalesce_clone(&prof.proton, &tmpl.proton),
            proton_verb: coalesce_clone(&prof.proton_verb, &tmpl.proton_verb),
            prefix: prefix,
            exe: prof.exe.clone(),
            args: clone_opt_string_vec(&prof.args),
            no_proton: if prof.no_proton.is_some() {
                prof.no_proton
            } else {
                tmpl.no_proton
            },
        };
        proof {
            assert(resolved.deep_view() =~= spec_resolve_profile(
                self@.global,
                self@.profiles[i as int],
                tmpl.deep_view(),
            ));
        }
        Ok(resolved)
    }
}

// ---------------------------------------------------------------------------
// Laws of the resolution rules
// ---------------------------------------------------------------------------

/// A profile's explicit template always wins: when its `template` field is
/// set, resolution derives from that template even if a global default
/// template is also set.
pub proof fn lemma_explicit_template_wins(g: GlobalView, p: ProfileView)
    requires
        p.template is Some,
    ensures
        spec_template_name(g, p) == p.template,
{
}

/// A profile with no template of its own, in a store whose global defaults
/// name none either, fails to resolve with `NoDefaultTemplate`.
pub proof fn lemma_no_default_template(c: ConfigView, name: Seq<char>)
    requires
        spec_find_profile(c.profiles, name) matches Some(p) && p.template is None,
        c.global.default_template is None,
    ensures
        spec_resolution(c, name) == Err::<ProfileView, ErrorView>(ErrorView::NoDefaultTemplate),
{
}

/// A field set at the template level is never overwritten by a global value.
pub proof fn lemma_template_fields_win(g: GlobalView, t: TemplateView)
    ensures
        t.prefix is Some ==> spec_resolve_template(g, t).prefix == t.prefix,
        t.proton is Some ==> spec_resolve_template(g, t).proton == t.proton,
        t.proton_verb is Some ==> spec_resolve_template(g, t).proton_verb == t.proton_verb,
        t.store is Some ==> spec_resolve_template(g, t).store == t.store,
        spec_resolve_template(g, t).no_proton == t.no_proton,
{
}

/// A field set at the profile level is never overwritten by a template or
/// global value: the most specific layer wins.
pub proof fn lemma_profile_fields_win(g: GlobalView, p: ProfileView, t: TemplateView)
    ensures
        p.proton is Some ==> spec_resolve_profile(g, p, t).proton == p.proton,
        p.proton_verb is Some ==> spec_resolve_profile(g, p, t).proton_verb == p.proton_verb,
        p.store is Some ==> spec_resolve_profile(g, p, t).store == p.store,
        p.game_id is Some ==> spec_resolve_profile(g, p, t).game_id == p.game_id,
        p.prefix is Some ==> spec_resolve_profile(g, p, t).prefix == p.prefix,
        p.no_proton is Some ==> spec_resolve_profile(g, p, t).no_proton == p.no_proton,
{
}

/// Prefix resolution always yields a value; when no layer sets one, it is
/// the directory synthesized from the resolved game identifier.
pub proof fn lemma_prefix_always_resolves(g: GlobalView, p: ProfileView, t: TemplateView)
    ensures
        spec_resolve_profile(g, p, t).prefix is Some,
        p.prefix is None && t.prefix is None ==> spec_resolve_profile(g, p, t).prefix == Some(
            spec_prefix_dir(spec_game_id(g, p)),
        ),
{
}

/// The game identifier always resolves; when the profile sets none, the
/// global one (itself defaulting to `"0"`) is used.
pub proof fn lemma_game_id_always_resolves(g: GlobalView, p: ProfileView, t: TemplateView)
    ensures
        spec_resolve_profile(g, p, t).game_id == Some(spec_game_id(g, p)),
        p.game_id is None ==> spec_resolve_profile(g, p, t).game_id == Some(g.game_id),
{
}

} // verus!
