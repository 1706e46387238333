use boxunbox::cli::ExistingFileStrategy;
use boxunbox::package::{LinkType, PackageConfig};
use boxunbox::path::ComponentPath;
use boxunbox::plan::{PlannedLink, UnboxPlan};

fn path(s: &str) -> ComponentPath {
    ComponentPath::from_components(
        std::path::Path::new(s)
            .components()
            .map(|c| c.as_os_str().to_string_lossy().into_owned())
            .collect(),
    )
}

fn link(src: &str, dest: &str, ty: LinkType) -> PlannedLink {
    PlannedLink {
        src: path(src),
        dest: path(dest),
        ty,
    }
}

#[test]
fn plan_is_written_out() {
    let config = PackageConfig::new(path("/home/me/dots/vim"), path("/home/me"));
    let mut plan = UnboxPlan::from_links(vec![
        link("/home/me/dots/vim/.vimrc", "/home/me/.vimrc", LinkType::SymlinkAbsolute),
        link(
            "/home/me/dots/vim/.vim/colors/a.vim",
            "/home/me/.vim/colors/a.vim",
            LinkType::SymlinkRelative,
        ),
        link("/home/me/dots/vim/x", "/elsewhere/x", LinkType::HardLink),
    ]);
    plan.efs = ExistingFileStrategy::Move;

    let shown = plan.display(&config, &path("/home/me"));

    assert_eq!(shown.package, "~/dots/vim");
    assert_eq!(shown.target, "~/");
    assert_eq!(shown.efs_verb, "be moved to <target_file>.bak");
    assert!(shown.create_dirs);
    assert_eq!(shown.lines.len(), 3);
    assert_eq!(shown.lines[0].dest, ".vimrc");
    assert_eq!(shown.lines[0].src, ".vimrc");
    assert_eq!(shown.lines[0].ty, LinkType::SymlinkAbsolute);
    assert_eq!(shown.lines[0].path, path("/home/me/.vimrc"));
    assert_eq!(shown.lines[1].dest, ".vim/colors/a.vim");
    assert_eq!(shown.lines[1].src, "../../dots/vim/.vim/colors/a.vim");
    assert_eq!(shown.lines[2].dest, "/elsewhere/x");
    assert_eq!(shown.lines[2].src, "x");
    assert_eq!(shown.lines[2].ty, LinkType::HardLink);
}

#[test]
fn linked_root_is_written_out_in_full() {
    let mut config = PackageConfig::new(path("/home/me/dots/vim"), path("/home/me/.vim"));
    config.link_root = true;
    let plan = UnboxPlan::from_links(vec![link(
        "/home/me/dots/vim",
        "/home/me/.vim",
        LinkType::SymlinkAbsolute,
    )]);

    let shown = plan.display(&config, &path("/home/me"));

    assert_eq!(shown.lines.len(), 1);
    assert_eq!(shown.lines[0].dest, "~/.vim");
    assert_eq!(shown.lines[0].src, "~/dots/vim");
}

#[test]
fn strategies_have_their_verbs() {
    assert_eq!(ExistingFileStrategy::Adopt.as_verb(), "be adopted");
    assert_eq!(ExistingFileStrategy::Ignore.as_verb(), "be ignored");
    assert_eq!(ExistingFileStrategy::Move.as_verb(), "be moved to <target_file>.bak");
    assert_eq!(ExistingFileStrategy::Overwrite.as_verb(), "be overwritten");
    assert_eq!(ExistingFileStrategy::ThrowError.as_verb(), "throw an error");
}
