//! The steps of each provisioning routine.

use vstd::prelude::*;
use vstd::string::*;
use crate::step::{opt_view, announced, collected, fed, join, run, run_in, step_views, Step, StepView};
use crate::text::{archive_name, archive_name_of, replace_all, replace_text, views};

verus! {

/// The directory that fonts are installed into, under `home`.
pub open spec fn fonts_dir(home: Seq<char>) -> Seq<char> {
    home + "/.local/share/fonts"@
}

/// Install a font: create the fonts directory, download the archive into it,
/// unpack it into a directory named after the archive, and remove the licence,
/// the readme and the archive.
pub open spec fn fonts_plan(url: Seq<char>, home: Seq<char>) -> Seq<StepView> {
    let name = archive_name_of(url);
    let fonts = fonts_dir(home);
    seq![
        announced(run("mkdir"@, seq!["-p"@, fonts]), "Installing font: "@ + name + "."@),
        run_in("wget"@, seq![url], fonts),
        run_in("unzip"@, seq![name + ".zip"@, "-d"@, name], fonts),
        run_in(
            "rm"@,
            seq!["LICENSE.txt"@, "README.md"@, "../"@ + name + ".zip"@],
            fonts + "/"@ + name,
        ),
    ]
}

/// The steps that install the font whose archive is at `font_url`.
pub fn fonts_steps(font_url: &str, home: &str) -> (r: Vec<Step>)
    ensures
        step_views(r@) == fonts_plan(font_url@, home@),
{
    let name = archive_name(font_url);
    let fonts = join(home, "/.local/share/fonts");
    let zip = join(name.as_str(), ".zip");
    let notice = join(join("Installing font: ", name.as_str()).as_str(), ".");
    let unpacked = join(join(fonts.as_str(), "/").as_str(), name.as_str());
    let old_zip = join(join("../", name.as_str()).as_str(), ".zip");
    let make_args = vec![String::from_str("-p"), fonts.clone()];
    assert(views(make_args@) =~= seq!["-p"@, fonts@]);
    let make = Step::new("mkdir", make_args).announced(notice.as_str());
    let fetch_args = vec![String::from_str(font_url)];
    assert(views(fetch_args@) =~= seq![font_url@]);
    let fetch = Step::new("wget", fetch_args).in_dir(fonts.clone());
    let unpack_args = vec![zip, String::from_str("-d"), name.clone()];
    assert(views(unpack_args@) =~= seq![name@ + ".zip"@, "-d"@, name@]);
    let unpack = Step::new("unzip", unpack_args).in_dir(fonts);
    let tidy_args = vec![String::from_str("LICENSE.txt"), String::from_str("README.md"), old_zip];
    assert(views(tidy_args@) =~= seq!["LICENSE.txt"@, "README.md"@, "../"@ + name@ + ".zip"@]);
    let tidy = Step::new("rm", tidy_args).in_dir(unpacked);
    let r = vec![make, fetch, unpack, tidy];
    assert(step_views(r@) =~= fonts_plan(font_url@, home@));
    r
}

/// The text piped to a program that reads a password from its input.
pub open spec fn password_input(secret: Seq<char>) -> Seq<char> {
    secret + "\n"@
}

/// Install the configured packages in one elevated package-manager call fed
/// with the root password, then add the language server component.
pub open spec fn arch_packages_plan(packages: Seq<Seq<char>>, secret: Seq<char>) -> Seq<StepView> {
    seq![
        announced(
            fed(run("sudo"@, seq!["-S"@, "pacman"@, "-S"@] + packages), password_input(secret)),
            "Installing Arch packages."@,
        ),
        announced(
            run("rustup"@, seq!["component"@, "add"@, "rust-analyzer"@]),
            "Installing rust-analyzer for text editor's LSP."@,
        ),
    ]
}

/// The text piped to a password-reading program.
fn password_text(secret: &str) -> (r: String)
    ensures
        r@ == password_input(secret@),
{
    join(secret, "\n")
}

/// The steps that install `packages`, with `secret` as the root password.
pub fn arch_packages_steps(packages: &Vec<String>, secret: &str) -> (r: Vec<Step>)
    ensures
        step_views(r@) == arch_packages_plan(views(packages@), secret@),
{
    let mut args = vec![String::from_str("-S"), String::from_str("pacman"), String::from_str("-S")];
    let ghost head = seq!["-S"@, "pacman"@, "-S"@];
    assert(views(args@) =~= head);
    let mut i: usize = 0;
    while i < packages.len()
        invariant
            i <= packages.len(),
            views(args@) == head + views(packages@).take(i as int),
        decreases packages.len() - i,
    {
        proof {
            assert(views(packages@).take(i + 1) =~= views(packages@).take(i as int).push(
                packages@[i as int]@,
            ));
            assert(views(args@.push(packages@[i as int])) =~= views(args@).push(
                packages@[i as int]@,
            ));
        }
        args.push(packages[i].clone());
        i = i + 1;
    }
    assert(views(packages@).take(packages.len() as int) =~= views(packages@));
    let install = Step::new("sudo", args).fed(password_text(secret)).announced(
        "Installing Arch packages.",
    );
    let lsp_args = vec![
        String::from_str("component"),
        String::from_str("add"),
        String::from_str("rust-analyzer"),
    ];
    assert(views(lsp_args@) =~= seq!["component"@, "add"@, "rust-analyzer"@]);
    let lsp = Step::new("rustup", lsp_args).announced(
        "Installing rust-analyzer for text editor's LSP.",
    );
    let r = vec![install, lsp];
    assert(step_views(r@) =~= arch_packages_plan(views(packages@), secret@));
    r
}

/// The placeholder in the dotfiles repository URL that the credential fills.
pub open spec fn placeholder() -> Seq<char> {
    "{password}"@
}

/// The dotfiles repository URL with every placeholder replaced by `secret`.
pub open spec fn dotfiles_url(repo: Seq<char>, secret: Seq<char>) -> Seq<char> {
    replace_all(repo, placeholder(), secret)
}

/// The directory that the dotfiles repository is cloned into, under `home`.
pub open spec fn config_dir(home: Seq<char>) -> Seq<char> {
    home + "/.config"@
}

/// The clone of the dotfiles repository, under `home`.
pub open spec fn dotfiles_dir(home: Seq<char>) -> Seq<char> {
    home + "/.config/.dotfiles"@
}

/// Clone the dotfiles repository with the credential filled in, then list the
/// clone; the listing decides which directories are linked.
pub open spec fn dotfiles_plan(repo: Seq<char>, secret: Seq<char>, home: Seq<char>) -> Seq<StepView> {
    seq![
        announced(
            run_in("git"@, seq!["clone"@, dotfiles_url(repo, secret)], config_dir(home)),
            "Applying personal settings."@,
        ),
        collected(run_in("ls"@, seq![], dotfiles_dir(home))),
    ]
}

/// Link each directory of a dotfiles clone, one symlink-manager call each, in
/// the order given, from `dir`.
pub open spec fn link_plan(dirs: Seq<Seq<char>>, dir: Option<Seq<char>>) -> Seq<StepView> {
    Seq::new(
        dirs.len(),
        |i: int|
            StepView {
                program: "stow"@,
                args: seq![dirs[i]],
                dir,
                input: None,
                capture: false,
                notice: None,
            },
    )
}

/// `repo` with every placeholder replaced by the credential `secret`.
pub fn substitute_password(repo: &str, secret: &str) -> (r: String)
    ensures
        r@ == dotfiles_url(repo@, secret@),
{
    let token = "{password}";
    proof {
        reveal_strlit("{password}");
    }
    replace_text(repo, token, secret)
}

/// The steps that clone and list the dotfiles repository `repo`, with
/// `secret` as its credential.
pub fn dotfiles_steps(repo: &str, secret: &str, home: &str) -> (r: Vec<Step>)
    ensures
        step_views(r@) == dotfiles_plan(repo@, secret@, home@),
{
    let clone_args = vec![String::from_str("clone"), substitute_password(repo, secret)];
    assert(views(clone_args@) =~= seq!["clone"@, dotfiles_url(repo@, secret@)]);
    let clone = Step::new("git", clone_args).in_dir(join(home, "/.config")).announced(
        "Applying personal settings.",
    );
    let list_args: Vec<String> = Vec::new();
    assert(views(list_args@) =~= Seq::<Seq<char>>::empty());
    let list = Step::new("ls", list_args).in_dir(join(home, "/.config/.dotfiles")).collected();
    let r = vec![clone, list];
    assert(step_views(r@) =~= dotfiles_plan(repo@, secret@, home@));
    r
}

/// One symlink-manager call for each of `dirs`, in order, run from `dir`.
pub fn link_steps(dirs: &Vec<String>, dir: &Option<String>) -> (r: Vec<Step>)
    ensures
        step_views(r@) == link_plan(views(dirs@), opt_view(*dir)),
{
    let mut r: Vec<Step> = Vec::new();
    let mut i: usize = 0;
    while i < dirs.len()
        invariant
            i <= dirs.len(),
            step_views(r@) == link_plan(views(dirs@), opt_view(*dir)).take(i as int),
        decreases dirs.len() - i,
    {
        let args = vec![dirs[i].clone()];
        assert(views(args@) =~= seq![dirs@[i as int]@]);
        let d = match dir {
            Some(d) => Some(d.clone()),
            None => None,
        };
        let s = Step {
            program: String::from_str("stow"),
            args,
            dir: d,
            input: None,
            capture: false,
            notice: None,
        };
        proof {
            assert(step_views(r@.push(s)) =~= step_views(r@).push(s@));
            assert(link_plan(views(dirs@), opt_view(*dir)).take(i + 1) =~= link_plan(
                views(dirs@),
                opt_view(*dir),
            ).take(i as int).push(s@));
        }
        r.push(s);
        i = i + 1;
    }
    assert(link_plan(views(dirs@), opt_view(*dir)).take(dirs.len() as int) =~= link_plan(
        views(dirs@),
        opt_view(*dir),
    ));
    r
}

/// The directory that applications are built in, under `home`.
pub open spec fn apps_dir(home: Seq<char>) -> Seq<char> {
    home + "/apps"@
}

/// The release build of one application's checkout.
pub open spec fn release_dir(checkout: Seq<char>) -> Seq<char> {
    checkout + "/target/release"@
}

/// The arguments of a release build with only the `wayland` feature.
pub open spec fn build_args() -> Seq<Seq<char>> {
    seq!["build"@, "--release"@, "--no-default-features"@, "--features=wayland"@]
}

/// Build eww and swww from source under `home`, and move their binaries into
/// `/usr/local/bin` as root, fed with the root password. eww is built with the
/// nightly toolchain.
pub open spec fn build_apps_plan(
    eww_repo: Seq<char>,
    swww_repo: Seq<char>,
    home: Seq<char>,
    secret: Seq<char>,
) -> Seq<StepView> {
    let apps = apps_dir(home);
    let eww = apps + "/eww"@;
    let swww = apps + "/swww"@;
    seq![
        announced(
            run("mkdir"@, seq!["-p"@, apps]),
            "Creating apps directory. eww and swww will be installed here."@,
        ),
        announced(run_in("git"@, seq!["clone"@, eww_repo], apps), "Building eww binary."@),
        run_in("rustup"@, seq!["override"@, "set"@, "nightly"@], eww),
        run_in("cargo"@, build_args(), eww),
        run_in("chmod"@, seq!["+x"@, "eww"@], release_dir(eww)),
        announced(
            fed(
                run_in("sudo"@, seq!["-S"@, "mv"@, "eww"@, "/usr/local/bin/"@], release_dir(eww)),
                password_input(secret),
            ),
            "Installing eww binary."@,
        ),
        announced(
            run_in("git"@, seq!["clone"@, swww_repo], apps),
            "Building swww and swww-daemon binaries."@,
        ),
        run_in("cargo"@, build_args(), swww),
        run_in("chmod"@, seq!["+x"@, "swww"@, "swww-daemon"@], release_dir(swww)),
        announced(
            fed(
                run_in(
                    "sudo"@,
                    seq!["-S"@, "mv"@, "swww"@, "swww-daemon"@, "/usr/local/bin/"@],
                    release_dir(swww),
                ),
                password_input(secret),
            ),
            "Installing swww and swww-daemon binaries."@,
        ),
    ]
}

/// A fresh release build of one checkout.
fn build_step(checkout: &String) -> (r: Step)
    ensures
        r@ == run_in("cargo"@, build_args(), checkout@),
{
    let args = vec![
        String::from_str("build"),
        String::from_str("--release"),
        String::from_str("--no-default-features"),
        String::from_str("--features=wayland"),
    ];
    assert(views(args@) =~= build_args());
    Step::new("cargo", args).in_dir(checkout.clone())
}

/// A fresh clone of `repo` into `apps`.
fn clone_step(repo: &str, apps: &String) -> (r: Step)
    ensures
        r@ == run_in("git"@, seq!["clone"@, repo@], apps@),
{
    let args = vec![String::from_str("clone"), String::from_str(repo)];
    assert(views(args@) =~= seq!["clone"@, repo@]);
    Step::new("git", args).in_dir(apps.clone())
}

/// The steps that build and install eww and swww, with `secret` as the root
/// password.
pub fn build_apps_steps(
    eww_repo: &str,
    swww_repo: &str,
    home: &str,
    secret: &str,
) -> (r: Vec<Step>)
    ensures
        step_views(r@) == build_apps_plan(eww_repo@, swww_repo@, home@, secret@),
{
    let apps = join(home, "/apps");
    let eww = join(apps.as_str(), "/eww");
    let swww = join(apps.as_str(), "/swww");
    let eww_release = join(eww.as_str(), "/target/release");
    let swww_release = join(swww.as_str(), "/target/release");

    let make_args = vec![String::from_str("-p"), apps.clone()];
    assert(views(make_args@) =~= seq!["-p"@, apps@]);
    let make = Step::new("mkdir", make_args).announced(
        "Creating apps directory. eww and swww will be installed here.",
    );

    let eww_clone = clone_step(eww_repo, &apps).announced("Building eww binary.");
    let nightly_args = vec![
        String::from_str("override"),
        String::from_str("set"),
        String::from_str("nightly"),
    ];
    assert(views(nightly_args@) =~= seq!["override"@, "set"@, "nightly"@]);
    let nightly = Step::new("rustup", nightly_args).in_dir(eww.clone());
    let eww_build = build_step(&eww);
    let eww_mode_args = vec![String::from_str("+x"), String::from_str("eww")];
    assert(views(eww_mode_args@) =~= seq!["+x"@, "eww"@]);
    let eww_mode = Step::new("chmod", eww_mode_args).in_dir(eww_release.clone());
    let eww_move_args = vec![
        String::from_str("-S"),
        String::from_str("mv"),
        String::from_str("eww"),
        String::from_str("/usr/local/bin/"),
    ];
    assert(views(eww_move_args@) =~= seq!["-S"@, "mv"@, "eww"@, "/usr/local/bin/"@]);
    let eww_move = Step::new("sudo", eww_move_args).in_dir(eww_release).fed(
        password_text(secret),
    ).announced("Installing eww binary.");

    let swww_clone = clone_step(swww_repo, &apps).announced(
        "Building swww and swww-daemon binaries.",
    );
    let swww_build = build_step(&swww);
    let swww_mode_args = vec![
        String::from_str("+x"),
        String::from_str("swww"),
        String::from_str("swww-daemon"),
    ];
    assert(views(swww_mode_args@) =~= seq!["+x"@, "swww"@, "swww-daemon"@]);
    let swww_mode = Step::new("chmod", swww_mode_args).in_dir(swww_release.clone());
    let swww_move_args = vec![
        String::from_str("-S"),
        String::from_str("mv"),
        String::from_str("swww"),
        String::from_str("swww-daemon"),
        String::from_str("/usr/local/bin/"),
    ];
    assert(views(swww_move_args@) =~= seq![
        "-S"@,
        "mv"@,
        "swww"@,
        "swww-daemon"@,
        "/usr/local/bin/"@,
    ]);
    let swww_move = Step::new("sudo", swww_move_args).in_dir(swww_release).fed(
        password_text(secret),
    ).announced("Installing swww and swww-daemon binaries.");

    let r = vec![
        make,
        eww_clone,
        nightly,
        eww_build,
        eww_mode,
        eww_move,
        swww_clone,
        swww_build,
        swww_mode,
        swww_move,
    ];
    assert(step_views(r@) =~= build_apps_plan(eww_repo@, swww_repo@, home@, secret@));
    r
}

} // verus!
