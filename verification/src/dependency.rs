//! Required binaries and the command that installs one of them.

use crate::command::{texts, CommandLine, CommandLineView};
use vstd::prelude::*;

verus! {

/// How a version reference pins a repository: by a release tag or by an
/// exact revision. Never by a branch.
#[derive(Clone, Copy, Debug, PartialEq, Eq)]
pub enum GitInstallType {
    Tag,
    CommitHash,
}

/// Where to install a binary from when it does not come from the default
/// package channel.
#[derive(Debug, PartialEq, Eq)]
pub struct GitOptions {
    pub url: String,
    pub tag_or_hash: String,
    pub install_type: GitInstallType,
}

/// The mathematical content of a [`GitOptions`].
pub struct GitOptionsView {
    pub url: Seq<char>,
    pub tag_or_hash: Seq<char>,
    pub install_type: GitInstallType,
}

impl View for GitOptions {
    type V = GitOptionsView;

    open spec fn view(&self) -> GitOptionsView {
        GitOptionsView {
            url: self.url@,
            tag_or_hash: self.tag_or_hash@,
            install_type: self.install_type,
        }
    }
}

impl Clone for GitOptions {
    fn clone(&self) -> (copy: Self)
        ensures
            copy@ == self@,
    {
        GitOptions {
            url: self.url.clone(),
            tag_or_hash: self.tag_or_hash.clone(),
            install_type: self.install_type,
        }
    }
}

impl GitOptions {
    pub fn new(url: &str, tag: &str, install_type: GitInstallType) -> (options: Self)
        ensures
            options@ == (GitOptionsView { url: url@, tag_or_hash: tag@, install_type }),
    {
        GitOptions {
            url: String::from_str(url),
            tag_or_hash: String::from_str(tag),
            install_type,
        }
    }
}

/// A binary the stack needs: the executable that is started to see whether
/// it is present, the name under which it is installed (the two may differ),
/// and where to install it from.
#[derive(Debug, PartialEq, Eq)]
pub struct Dependency {
    pub bin: String,
    pub install_bin: String,
    pub git: Option<GitOptions>,
}

/// The mathematical content of a [`Dependency`].
pub struct DependencyView {
    pub bin: Seq<char>,
    pub install_bin: Seq<char>,
    pub git: Option<GitOptionsView>,
}

impl View for Dependency {
    type V = DependencyView;

    open spec fn view(&self) -> DependencyView {
        DependencyView {
            bin: self.bin@,
            install_bin: self.install_bin@,
            git: match self.git {
                Some(git) => Some(git@),
                None => None,
            },
        }
    }
}

impl Clone for Dependency {
    fn clone(&self) -> (copy: Self)
        ensures
            copy@ == self@,
    {
        Dependency {
            bin: self.bin.clone(),
            install_bin: self.install_bin.clone(),
            git: match &self.git {
                Some(git) => Some(git.clone()),
                None => None,
            },
        }
    }
}

impl Dependency {
    pub fn new(bin: &str, install_bin: &str, git: Option<GitOptions>) -> (dependency: Self)
        ensures
            dependency.bin@ == bin@,
            dependency.install_bin@ == install_bin@,
            dependency.git == git,
            dependency@ == (DependencyView {
                bin: bin@,
                install_bin: install_bin@,
                git: match git {
                    Some(options) => Some(options@),
                    None => None,
                },
            }),
    {
        Dependency { bin: String::from_str(bin), install_bin: String::from_str(install_bin), git }
    }
}

/// The contents of each dependency of a list, in order.
pub open spec fn dependency_views(list: Seq<Dependency>) -> Seq<DependencyView> {
    list.map_values(|d: Dependency| d@)
}

/// The argument that announces which kind of reference follows.
pub open spec fn pin_flag(kind: GitInstallType) -> Seq<char> {
    match kind {
        GitInstallType::Tag => "--tag"@,
        GitInstallType::CommitHash => "--rev"@,
    }
}

/// The command that installs a dependency: by name through the default
/// package channel, or from its repository pinned to the tag or the revision.
pub open spec fn install_command(dependency: DependencyView) -> CommandLineView {
    CommandLineView {
        program: "cargo"@,
        args: match dependency.git {
            None => seq!["install"@, dependency.install_bin],
            Some(git) => seq![
                "install"@,
                "--git"@,
                git.url,
                pin_flag(git.install_type),
                git.tag_or_hash,
                dependency.install_bin,
            ],
        },
    }
}

/// The form of the install command follows the source of the dependency:
/// without a source it installs by name and pins nothing; with a source it
/// names the repository and pins it with `--tag` where the reference is a
/// tag and with `--rev` where it is a revision. The two pinning arguments
/// are different words.
pub proof fn law_install_command_pins_by_kind(dependency: DependencyView)
    ensures
        install_command(dependency).program == "cargo"@,
        dependency.git is None ==> install_command(dependency).args == seq![
            "install"@,
            dependency.install_bin,
        ],
        dependency.git matches Some(git) ==> install_command(dependency).args == seq![
            "install"@,
            "--git"@,
            git.url,
            if git.install_type is Tag {
                "--tag"@
            } else {
                "--rev"@
            },
            git.tag_or_hash,
            dependency.install_bin,
        ],
        "--tag"@ == seq!['-', '-', 't', 'a', 'g'],
        "--rev"@ == seq!['-', '-', 'r', 'e', 'v'],
        "--tag"@ != "--rev"@,
{
    reveal_strlit("--tag");
    reveal_strlit("--rev");
    assert("--tag"@ =~= seq!['-', '-', 't', 'a', 'g']);
    assert("--rev"@ =~= seq!['-', '-', 'r', 'e', 'v']);
    assert("--tag"@[2] != "--rev"@[2]);
}

/// Builds the command that installs a dependency.
pub fn install_dependency(dep: Dependency) -> (command: CommandLine)
    ensures
        command@ == install_command(dep@),
{
    let ghost wanted = install_command(dep@);
    let Dependency { bin: _, install_bin, git } = dep;
    let mut args: Vec<String> = Vec::new();
    args.push(String::from_str("install"));
    match git {
        Some(git) => {
            args.push(String::from_str("--git"));
            args.push(git.url);
            match git.install_type {
                GitInstallType::Tag => args.push(String::from_str("--tag")),
                GitInstallType::CommitHash => args.push(String::from_str("--rev")),
            }
            args.push(git.tag_or_hash);
        },
        None => {},
    }
    args.push(install_bin);
    assert(texts(args@) =~= wanted.args);
    CommandLine { program: String::from_str("cargo"), args }
}

} // verus!
