//! Computes the argument lists and encoded flag strings handed to the build
//! tool. These are pure functions of the caller's switches; spawning the tool
//! itself is the caller's business.

use vstd::prelude::*;
use vstd::string::*;
use crate::text::{find_char_from, push_char};

verus! {

/// When the build tool should color its output.
#[derive(Clone, Copy, Debug, PartialEq, Eq, Structural)]
pub enum ColorChoice {
    Auto,
    Always,
    Never,
}

impl ColorChoice {
    /// The word the build tool expects for this choice.
    pub open spec fn spec_word(self) -> Seq<char> {
        match self {
            ColorChoice::Auto => "auto"@,
            ColorChoice::Always => "always"@,
            ColorChoice::Never => "never"@,
        }
    }

    /// The word the build tool expects for this choice.
    pub fn word(&self) -> (r: String)
        ensures
            r@ == self.spec_word(),
    {
        match self {
            ColorChoice::Auto => "auto".to_owned(),
            ColorChoice::Always => "always".to_owned(),
            ColorChoice::Never => "never".to_owned(),
        }
    }
}

/// The switches passed through to every build-tool invocation.
#[derive(Clone, Debug, PartialEq, Eq)]
pub struct CargoArgs {
    pub color: ColorChoice,
    pub frozen: bool,
    pub locked: bool,
    pub offline: bool,
    pub workspace: bool,
    pub config: Vec<String>,
    pub target_dir: Option<String>,
    pub manifest_path: Option<String>,
}

/// Mathematical contents of a `CargoArgs`.
#[verifier::ext_equal]
pub ghost struct CargoArgsView {
    pub color: ColorChoice,
    pub frozen: bool,
    pub locked: bool,
    pub offline: bool,
    pub workspace: bool,
    pub config: Seq<Seq<char>>,
    pub target_dir: Option<Seq<char>>,
    pub manifest_path: Option<Seq<char>>,
}

impl View for CargoArgs {
    type V = CargoArgsView;

    open spec fn view(&self) -> CargoArgsView {
        CargoArgsView {
            color: self.color,
            frozen: self.frozen,
            locked: self.locked,
            offline: self.offline,
            workspace: self.workspace,
            config: self.config.deep_view(),
            target_dir: match self.target_dir {
                Some(ref t) => Some(t@),
                None => None,
            },
            manifest_path: match self.manifest_path {
                Some(ref m) => Some(m@),
                None => None,
            },
        }
    }
}

/// Which platform one pass compiles for: the host, or a named target. Build
/// scripts can only be audited when the target is the host.
#[derive(Clone, Debug, PartialEq, Eq)]
pub enum CheckTarget {
    /// Run the build tool without naming a target.
    Host,
    /// Run the build tool with this target.
    Target(String),
}

/// Which features one pass selects.
#[derive(Clone, Debug, PartialEq, Eq)]
pub enum Features {
    Specified(Vec<String>),
    Default,
    All,
}

/// The `--config` pairs of an argument list.
pub open spec fn config_args(config: Seq<Seq<char>>, i: int) -> Seq<Seq<char>>
    decreases config.len() - i,
{
    if i < 0 || i >= config.len() {
        Seq::empty()
    } else {
        seq!["--config"@, config[i]] + config_args(config, i + 1)
    }
}

/// The argument list every invocation gets: coloring, lock-file discipline,
/// workspace selection, configuration pairs, and the two optional paths.
pub open spec fn spec_compute_cargo_args(a: CargoArgsView) -> Seq<Seq<char>> {
    let base = seq!["--color"@, a.color.spec_word()];
    let base = if a.frozen {
        base.push("--frozen"@)
    } else {
        base
    };
    let base = if a.locked {
        base.push("--locked"@)
    } else {
        base
    };
    let base = if a.offline {
        base.push("--offline"@)
    } else {
        base
    };
    let base = if a.workspace {
        base.push("--workspace"@)
    } else {
        base
    };
    let base = base + config_args(a.config, 0);
    let base = match a.target_dir {
        Some(t) => base.push("--target-dir"@).push(t),
        None => base,
    };
    match a.manifest_path {
        Some(m) => base.push("--manifest-path"@).push(m),
        None => base,
    }
}

/// Computes the argument list every invocation gets.
pub fn compute_cargo_args(cargo_args: &CargoArgs) -> (r: Vec<String>)
    ensures
        r.deep_view() == spec_compute_cargo_args(cargo_args@),
{
    let ghost av = cargo_args@;
    let mut args: Vec<String> = Vec::new();
    args.push("--color".to_owned());
    args.push(cargo_args.color.word());
    if cargo_args.frozen {
        args.push("--frozen".to_owned());
    }
    if cargo_args.locked {
        args.push("--locked".to_owned());
    }
    if cargo_args.offline {
        args.push("--offline".to_owned());
    }
    if cargo_args.workspace {
        args.push("--workspace".to_owned());
    }
    let ghost pre_config = args.deep_view();
    proof {
        assert(pre_config =~= {
            let base = seq!["--color"@, av.color.spec_word()];
            let base = if av.frozen {
                base.push("--frozen"@)
            } else {
                base
            };
            let base = if av.locked {
                base.push("--locked"@)
            } else {
                base
            };
            let base = if av.offline {
                base.push("--offline"@)
            } else {
                base
            };
            if av.workspace {
                base.push("--workspace"@)
            } else {
                base
            }
        });
    }
    let n = cargo_args.config.len();
    let mut i: usize = 0;
    while i < n
        invariant
            n == cargo_args.config.len(),
            av == cargo_args@,
            i <= n,
            args.deep_view() + config_args(av.config, i as int) =~= pre_config + config_args(
                av.config,
                0,
            ),
        decreases n - i,
    {
        let ghost before = args.deep_view();
        args.push("--config".to_owned());
        args.push(cargo_args.config[i].clone());
        proof {
            assert(args.deep_view() =~= before + seq!["--config"@, av.config[i as int]]);
        }
        i = i + 1;
    }
    match cargo_args.target_dir {
        Some(ref t) => {
            let ghost before = args.deep_view();
            args.push("--target-dir".to_owned());
            args.push(t.clone());
            proof {
                assert(args.deep_view() =~= before.push("--target-dir"@).push(av.target_dir.unwrap()));
            }
        },
        None => {},
    }
    match cargo_args.manifest_path {
        Some(ref m) => {
            let ghost before = args.deep_view();
            args.push("--manifest-path".to_owned());
            args.push(m.clone());
            proof {
                assert(args.deep_view() =~= before.push("--manifest-path"@).push(
                    av.manifest_path.unwrap(),
                ));
            }
        },
        None => {},
    }
    proof {
        assert(args.deep_view() =~= spec_compute_cargo_args(av));
    }
    args
}

/// `parts` joined with `sep` between them, from position `i` on.
pub open spec fn join_from(parts: Seq<Seq<char>>, i: int, sep: char) -> Seq<char>
    decreases parts.len() - i,
{
    if i < 0 || i >= parts.len() {
        Seq::empty()
    } else if i == parts.len() - 1 {
        parts[i]
    } else {
        parts[i] + seq![sep] + join_from(parts, i + 1, sep)
    }
}

/// Joins strings with one separator character between them.
pub fn join_with(parts: &Vec<String>, sep: char) -> (r: String)
    ensures
        r@ == join_from(parts.deep_view(), 0, sep),
{
    let ghost pv = parts.deep_view();
    let n = parts.len();
    let mut out = String::new();
    let mut i: usize = 0;
    while i < n
        invariant
            n == parts.len(),
            pv == parts.deep_view(),
            i <= n,
            out@ + join_from(pv, i as int, sep) =~= join_from(pv, 0, sep),
        decreases n - i,
    {
        out.append(parts[i].as_str());
        if i + 1 < n {
            push_char(&mut out, sep);
        }
        proof {
            assert(out@ + join_from(pv, i + 1, sep) =~= join_from(pv, 0, sep));
        }
        i = i + 1;
    }
    proof {
        assert(out@ =~= join_from(pv, 0, sep));
    }
    out
}

/// The feature-selection arguments: named features are announced and then
/// passed joined by commas, the default selection passes nothing, and the
/// full selection passes one switch.
pub open spec fn spec_compute_feature_args(features: Seq<Seq<char>>, all: bool, default: bool) -> Seq<
    Seq<char>,
> {
    if default {
        Seq::empty()
    } else if all {
        seq!["--all-features"@]
    } else {
        seq!["--features"@, "--features"@, join_from(features, 0, ',')]
    }
}

/// Computes the feature-selection arguments.
pub fn compute_feature_args(features: &Features) -> (r: Vec<String>)
    ensures
        match features {
            Features::Specified(fs) => r.deep_view() == spec_compute_feature_args(
                fs.deep_view(),
                false,
                false,
            ),
            Features::Default => r.deep_view() == spec_compute_feature_args(
                Seq::empty(),
                false,
                true,
            ),
            Features::All => r.deep_view() == spec_compute_feature_args(Seq::empty(), true, false),
        },
{
    let mut args: Vec<String> = Vec::new();
    match features {
        Features::Specified(fs) => {
            args.push("--features".to_owned());
            let joined = join_with(fs, ',');
            args.push("--features".to_owned());
            args.push(joined);
            proof {
                assert(args.deep_view() =~= seq!["--features"@, "--features"@, join_from(
                    fs.deep_view(),
                    0,
                    ',',
                )]);
            }
        },
        Features::Default => {
            proof {
                assert(args.deep_view() =~= Seq::<Seq<char>>::empty());
            }
        },
        Features::All => {
            args.push("--all-features".to_owned());
            proof {
                assert(args.deep_view() =~= seq!["--all-features"@]);
            }
        },
    }
    args
}

/// The platform arguments: nothing for the host, the switch and the name for
/// a named target.
pub fn compute_target_args(check_target: &CheckTarget) -> (r: Vec<String>)
    ensures
        match check_target {
            CheckTarget::Host => r.deep_view() == Seq::<Seq<char>>::empty(),
            CheckTarget::Target(t) => r.deep_view() == seq!["--target"@, t@],
        },
{
    let mut args: Vec<String> = Vec::new();
    match check_target {
        CheckTarget::Host => {
            proof {
                assert(args.deep_view() =~= Seq::<Seq<char>>::empty());
            }
        },
        CheckTarget::Target(t) => {
            args.push("--target".to_owned());
            args.push(t.clone());
            proof {
                assert(args.deep_view() =~= seq!["--target"@, t@]);
            }
        },
    }
    args
}

/// The unit separator that joins encoded flags.
pub open spec fn unit_sep() -> char {
    '\u{1f}'
}

/// Encodes a flag list into the one string the build tool reads from its
/// environment: the flags joined by the unit separator, which therefore may
/// occur in none of them.
pub fn compute_encoded_flags(flags: &Vec<String>) -> (r: String)
    requires
        forall|i: int|
            0 <= i < flags.deep_view().len() ==> find_char_from(
                #[trigger] flags.deep_view()[i],
                0,
                unit_sep(),
            ) is None,
    ensures
        r@ == join_from(flags.deep_view(), 0, unit_sep()),
{
    join_with(flags, '\u{1f}')
}

} // verus!
