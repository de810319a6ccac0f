//! The command-line actions and the routine that each one runs.

use vstd::prelude::*;
use crate::config::{home_of, home_path, Config, ConfigView};
use crate::plan::{
    arch_packages_plan,
    arch_packages_steps,
    build_apps_plan,
    build_apps_steps,
    dotfiles_plan,
    dotfiles_steps,
    fonts_plan,
    fonts_steps,
};
use crate::step::{join, step_views, Step, StepView};

verus! {

/// What `install` provisions.
#[derive(Clone, Copy, Debug, PartialEq, Eq, Structural)]
pub enum Target {
    ArchPackages,
    Dotfiles,
    Fonts,
    BuildApps,
}

/// An action asked for on the command line.
#[derive(Clone, Copy, Debug, PartialEq, Eq, Structural)]
pub enum Action {
    Install(Target),
    /// Declared, with no behaviour: it runs nothing.
    Uninstall,
}

/// The account whose password the action asks for, if any.
pub open spec fn account_of(action: Action) -> Option<Seq<char>> {
    match action {
        Action::Install(Target::ArchPackages) => Some("root"@),
        Action::Install(Target::BuildApps) => Some("root"@),
        Action::Install(Target::Dotfiles) => Some("github ssh key"@),
        _ => None,
    }
}

/// The prompt for the password of `account`.
pub open spec fn prompt_of(account: Seq<char>) -> Seq<char> {
    "Enter password for "@ + account + ": "@
}

/// The line shown when the action starts.
pub open spec fn banner_of(action: Action) -> Seq<char> {
    match action {
        Action::Install(_) => "installing..."@,
        Action::Uninstall => "uninstalling..."@,
    }
}

/// The steps that the action runs, given the configuration and the password
/// asked for (ignored by actions that ask for none).
pub open spec fn plan_of(action: Action, config: ConfigView, secret: Seq<char>) -> Seq<StepView> {
    let home = home_of(config.user);
    match action {
        Action::Install(Target::ArchPackages) => arch_packages_plan(config.arch_packages, secret),
        Action::Install(Target::Dotfiles) => dotfiles_plan(config.dotfiles_repo, secret, home),
        Action::Install(Target::Fonts) => fonts_plan(config.font_url, home),
        Action::Install(Target::BuildApps) => build_apps_plan(
            config.eww_repo,
            config.swww_repo,
            home,
            secret,
        ),
        Action::Uninstall => Seq::empty(),
    }
}

/// The account whose password the action asks for, if any.
pub fn secret_account(action: Action) -> (r: Option<String>)
    ensures
        match r {
            Some(a) => account_of(action) == Some(a@),
            None => account_of(action) is None,
        },
{
    match action {
        Action::Install(Target::ArchPackages) => Some(String::from_str("root")),
        Action::Install(Target::BuildApps) => Some(String::from_str("root")),
        Action::Install(Target::Dotfiles) => Some(String::from_str("github ssh key")),
        _ => None,
    }
}

/// The prompt for the password of `account`.
pub fn password_prompt(account: &str) -> (r: String)
    ensures
        r@ == prompt_of(account@),
{
    join(join("Enter password for ", account).as_str(), ": ")
}

/// The line shown when the action starts.
pub fn banner(action: Action) -> (r: String)
    ensures
        r@ == banner_of(action),
{
    match action {
        Action::Install(_) => String::from_str("installing..."),
        Action::Uninstall => String::from_str("uninstalling..."),
    }
}

/// The steps that the action runs, given the configuration and the password
/// asked for.
pub fn plan(action: Action, config: &Config, secret: &str) -> (r: Vec<Step>)
    ensures
        step_views(r@) == plan_of(action, config@, secret@),
{
    let home = home_path(config.user.as_str());
    match action {
        Action::Install(Target::ArchPackages) => arch_packages_steps(&config.arch_packages, secret),
        Action::Install(Target::Dotfiles) => dotfiles_steps(
            config.dotfiles_repo.as_str(),
            secret,
            home.as_str(),
        ),
        Action::Install(Target::Fonts) => fonts_steps(config.font_url.as_str(), home.as_str()),
        Action::Install(Target::BuildApps) => build_apps_steps(
            config.eww_repo.as_str(),
            config.swww_repo.as_str(),
            home.as_str(),
            secret,
        ),
        Action::Uninstall => {
            let r: Vec<Step> = Vec::new();
            assert(step_views(r@) =~= Seq::<StepView>::empty());
            r
        },
    }
}

} // verus!
