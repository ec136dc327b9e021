//! Which shells completions are installed for.

use vstd::prelude::*;

verus! {

/// Which shell(s) to target when installing completions.
#[derive(Clone, Copy, Debug, PartialEq, Eq, Structural)]
pub enum ShellTarget {
    /// The shell the user runs, or all supported shells when it is unknown.
    Auto,
    Bash,
    Zsh,
    Fish,
    /// Bash, Zsh and Fish.
    All,
}

/// The supported shell whose program is called `name`.
pub open spec fn shell_named(name: Seq<char>) -> Option<ShellTarget> {
    if name == "bash"@ {
        Some(ShellTarget::Bash)
    } else if name == "zsh"@ {
        Some(ShellTarget::Zsh)
    } else if name == "fish"@ {
        Some(ShellTarget::Fish)
    } else {
        None
    }
}

/// Every supported shell.
pub open spec fn every_shell() -> Seq<ShellTarget> {
    seq![ShellTarget::Bash, ShellTarget::Zsh, ShellTarget::Fish]
}

/// The concrete shells a target stands for, given the shell detected from
/// the environment (if any).
pub open spec fn shells_for(t: ShellTarget, detected: Option<ShellTarget>) -> Seq<ShellTarget> {
    match t {
        ShellTarget::Bash => seq![ShellTarget::Bash],
        ShellTarget::Zsh => seq![ShellTarget::Zsh],
        ShellTarget::Fish => seq![ShellTarget::Fish],
        ShellTarget::All => every_shell(),
        ShellTarget::Auto => match detected {
            Some(ShellTarget::Bash) => seq![ShellTarget::Bash],
            Some(ShellTarget::Zsh) => seq![ShellTarget::Zsh],
            Some(ShellTarget::Fish) => seq![ShellTarget::Fish],
            _ => every_shell(),
        },
    }
}

impl ShellTarget {
    /// The supported shell whose program file is called `name` (the last
    /// component of `$SHELL`).
    pub fn from_shell_name(name: &str) -> (r: Option<ShellTarget>)
        ensures
            r == shell_named(name@),
    {
        if crate::text::same_text(name, "bash") {
            Some(ShellTarget::Bash)
        } else if crate::text::same_text(name, "zsh") {
            Some(ShellTarget::Zsh)
        } else if crate::text::same_text(name, "fish") {
            Some(ShellTarget::Fish)
        } else {
            None
        }
    }

    /// The concrete shells this target stands for; `detected` is the shell
    /// found in the environment, used by `Auto`.
    pub fn concrete_shells(&self, detected: Option<ShellTarget>) -> (r: Vec<ShellTarget>)
        ensures
            r@ == shells_for(*self, detected),
    {
        let all = vec![ShellTarget::Bash, ShellTarget::Zsh, ShellTarget::Fish];
        let r = match self {
            ShellTarget::Bash => vec![ShellTarget::Bash],
            ShellTarget::Zsh => vec![ShellTarget::Zsh],
            ShellTarget::Fish => vec![ShellTarget::Fish],
            ShellTarget::All => all,
            ShellTarget::Auto => match detected {
                Some(ShellTarget::Bash) => vec![ShellTarget::Bash],
                Some(ShellTarget::Zsh) => vec![ShellTarget::Zsh],
                Some(ShellTarget::Fish) => vec![ShellTarget::Fish],
                _ => all,
            },
        };
        assert(r@ =~= shells_for(*self, detected));
        r
    }
}

} // verus!
