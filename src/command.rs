//! Records of `nix` subcommands: each holds the already rendered arguments
//! of its option groups and names the subcommand words it runs.
use vstd::prelude::*;

use crate::text::views;

verus! {

fn words(first: &str, second: Option<&str>) -> (r: Vec<String>)
    ensures
        second is None ==> views(r@) == seq![first@],
        second matches Some(s) ==> views(r@) == seq![first@, s@],
{
    let mut r: Vec<String> = Vec::new();
    r.push(String::from_str(first));
    if let Some(s) = second {
        r.push(String::from_str(s));
    }
    assert(views(r@) =~= if second is None { seq![first@] } else { seq![first@, second->0@] });
    r
}

/// `nix build`
#[derive(Debug, Default, Clone)]
pub struct Build {
    pub flake: Vec<String>,
    pub eval: Vec<String>,
    pub source: Vec<String>,
    pub installables: Vec<String>,
}

impl Build {
    /// The subcommand words.
    pub fn subcommand() -> (r: Vec<String>)
        ensures
            views(r@) == seq!["build"@],
    {
        words("build", None)
    }
}

/// The template that `nix flake init` starts from.
#[derive(Debug, Clone)]
pub struct TemplateFlag(pub String);

impl TemplateFlag {
    /// The flag's name.
    pub fn flag() -> (r: &'static str)
        ensures
            r@ == "--template"@,
    {
        "--template"
    }

    /// The flag followed by the template.
    pub fn args(&self) -> (r: Vec<String>)
        ensures
            views(r@) == seq!["--template"@, self.0@],
    {
        words(TemplateFlag::flag(), Some(self.0.as_str()))
    }
}

/// `nix flake init`
#[derive(Debug, Default, Clone)]
pub struct FlakeInit {
    pub flake: Vec<String>,
    pub eval: Vec<String>,
    pub installables: Vec<String>,
    pub template: Option<TemplateFlag>,
}

impl FlakeInit {
    /// The subcommand words.
    pub fn subcommand() -> (r: Vec<String>)
        ensures
            views(r@) == seq!["flake"@, "init"@],
    {
        words("flake", Some("init"))
    }
}

/// `nix develop`
#[derive(Debug, Default, Clone)]
pub struct Develop {
    pub flake: Vec<String>,
    pub eval: Vec<String>,
    pub source: Vec<String>,
    pub installable: Vec<String>,
    pub develop_args: Vec<String>,
}

impl Develop {
    /// The subcommand words.
    pub fn subcommand() -> (r: Vec<String>)
        ensures
            views(r@) == seq!["develop"@],
    {
        words("develop", None)
    }
}

/// `nix eval`
#[derive(Debug, Default, Clone)]
pub struct Eval {
    pub flake: Vec<String>,
    pub eval: Vec<String>,
    pub installable: Vec<String>,
    pub eval_args: Vec<String>,
}

impl Eval {
    /// The subcommand words.
    pub fn subcommand() -> (r: Vec<String>)
        ensures
            views(r@) == seq!["eval"@],
    {
        words("eval", None)
    }
}

/// `nix run`
#[derive(Debug, Default, Clone)]
pub struct Run {
    pub flake: Vec<String>,
    pub eval: Vec<String>,
    pub source: Vec<String>,
    pub installable: Vec<String>,
}

impl Run {
    /// The subcommand words.
    pub fn subcommand() -> (r: Vec<String>)
        ensures
            views(r@) == seq!["run"@],
    {
        words("run", None)
    }
}

/// `nix shell`
#[derive(Debug, Default, Clone)]
pub struct Shell {
    pub flake: Vec<String>,
    pub eval: Vec<String>,
    pub source: Vec<String>,
    pub installables: Vec<String>,
}

impl Shell {
    /// The subcommand words.
    pub fn subcommand() -> (r: Vec<String>)
        ensures
            views(r@) == seq!["shell"@],
    {
        words("shell", None)
    }
}

/// `nix bundle`
#[derive(Debug, Default, Clone)]
pub struct Bundle {
    pub flake: Vec<String>,
    pub eval: Vec<String>,
    pub source: Vec<String>,
    pub installable: Vec<String>,
    pub bundle_args: Vec<String>,
}

impl Bundle {
    /// The subcommand words.
    pub fn subcommand() -> (r: Vec<String>)
        ensures
            views(r@) == seq!["bundle"@],
    {
        words("bundle", None)
    }
}

} // verus!
