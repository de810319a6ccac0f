//! The provisioning configuration.

use vstd::prelude::*;
use crate::step::join;
use crate::text::views;

verus! {

/// What is provisioned: the user, the packages and the sources to fetch.
#[derive(Clone, Debug)]
pub struct Config {
    /// The user whose home directory is provisioned.
    pub user: String,
    /// The packages to install, in order.
    pub arch_packages: Vec<String>,
    /// Where the eww sources are cloned from.
    pub eww_repo: String,
    /// Where the swww sources are cloned from.
    pub swww_repo: String,
    /// Where the dotfiles are cloned from; `{password}` stands for the
    /// credential.
    pub dotfiles_repo: String,
    /// Where the font archive is downloaded from.
    pub font_url: String,
}

/// A configuration as plain values.
pub struct ConfigView {
    pub user: Seq<char>,
    pub arch_packages: Seq<Seq<char>>,
    pub eww_repo: Seq<char>,
    pub swww_repo: Seq<char>,
    pub dotfiles_repo: Seq<char>,
    pub font_url: Seq<char>,
}

impl View for Config {
    type V = ConfigView;

    open spec fn view(&self) -> ConfigView {
        ConfigView {
            user: self.user@,
            arch_packages: views(self.arch_packages@),
            eww_repo: self.eww_repo@,
            swww_repo: self.swww_repo@,
            dotfiles_repo: self.dotfiles_repo@,
            font_url: self.font_url@,
        }
    }
}

/// The home directory of `user`.
pub open spec fn home_of(user: Seq<char>) -> Seq<char> {
    "/home/"@ + user
}

/// The home directory of `user`.
pub fn home_path(user: &str) -> (r: String)
    ensures
        r@ == home_of(user@),
{
    join("/home/", user)
}

} // verus!
