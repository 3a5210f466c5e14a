use gitstat::flags::{GitStatus, PathStatus, INDEX_NEW, WT_DELETED, WT_MODIFIED};
use gitstat::git::Git;
use gitstat::path::RepoPath;

fn path(s: &str) -> RepoPath {
    let mut parts: Vec<String> = Vec::new();
    if s.starts_with('/') {
        parts.push("/".to_string());
    }
    for c in s.split('/').filter(|c| !c.is_empty()) {
        parts.push(c.to_string());
    }
    RepoPath::new(parts)
}

#[test]
fn scan_finds_a_fresh_repository() {
    let root = "/tmp/gitstat-scan-fresh";
    git2::Repository::init(root).unwrap();
    let git = Git::scan(&path(root)).expect("a repository");
    assert!(git.workdir().same_as(&path(root)));
    assert_eq!(git.dir_status(&path(root)), PathStatus::unmodified());
    assert_eq!(git.status(&path("/tmp/gitstat-scan-fresh/a.txt")), PathStatus::unmodified());
}

#[test]
fn scan_from_below_the_root_finds_it() {
    let root = "/tmp/gitstat-scan-below";
    git2::Repository::init(root).unwrap();
    let git = Git::scan(&path("/tmp/gitstat-scan-below/.git/objects"));
    assert!(git.expect("a repository").workdir().same_as(&path(root)));
    let git = Git::scan(&path("/tmp/gitstat-scan-below/.git"));
    assert!(git.expect("a repository").workdir().same_as(&path(root)));
}

#[test]
fn opened_handle_answers_from_its_snapshot() {
    let root = "/tmp/gitstat-open";
    let repo = git2::Repository::init(root).unwrap();
    let raw = vec![
        (path("d/new.txt"), INDEX_NEW),
        (path("d/sub/gone.txt"), WT_DELETED),
        (path("top.txt"), WT_MODIFIED),
    ];
    let git = Git::open(repo, path(root), raw);
    let top = git.status(&path("/tmp/gitstat-open/top.txt"));
    assert_eq!(top, PathStatus { staged: GitStatus::NotModified, unstaged: GitStatus::Modified });
    assert_eq!(git.status(&path("/tmp/gitstat-open/top.txt")), top);
    let d = git.dir_status(&path("/tmp/gitstat-open/d"));
    assert_eq!(d, PathStatus { staged: GitStatus::New, unstaged: GitStatus::Deleted });
    assert_eq!(git.status(&path("/tmp/gitstat-open/d")), PathStatus::unmodified());
    assert_eq!(git.dir_status(&path("/tmp/gitstat-open/e")), PathStatus::unmodified());
}

#[test]
fn ignore_rules_are_asked_of_the_repository() {
    let root = "/tmp/gitstat-ignore";
    let repo = git2::Repository::init(root).unwrap();
    repo.add_ignore_rule("*.log").unwrap();
    let git = Git::open(repo, path(root), Vec::new());
    assert!(git.should_ignore(&path("debug.log")));
    assert!(!git.should_ignore(&path("main.rs")));
    assert!(git.should_ignore(&path("/tmp/gitstat-ignore/debug.log")));
}

#[test]
fn failed_listing_gives_no_handle() {
    let repo = git2::Repository::init("/tmp/gitstat-assemble-err").unwrap();
    let listing = Err(git2::Error::from_str("listing failed"));
    assert!(Git::assemble(repo, path("/tmp/gitstat-assemble-err"), listing).is_none());
}

#[test]
fn successful_listing_gives_joined_handle() {
    let root = "/tmp/gitstat-assemble-ok";
    let repo = git2::Repository::init(root).unwrap();
    let listing = Ok(vec![(path("src/a.rs"), WT_MODIFIED), (path("b.txt"), INDEX_NEW)]);
    let git = Git::assemble(repo, path(root), listing).expect("a handle");
    assert!(git.workdir().same_as(&path(root)));
    assert_eq!(
        git.status(&path("/tmp/gitstat-assemble-ok/src/a.rs")),
        PathStatus { staged: GitStatus::NotModified, unstaged: GitStatus::Modified }
    );
    assert_eq!(
        git.status(&path("/tmp/gitstat-assemble-ok/b.txt")),
        PathStatus { staged: GitStatus::New, unstaged: GitStatus::NotModified }
    );
    assert_eq!(git.status(&path("src/a.rs")), PathStatus::unmodified());
}

#[test]
fn scan_reports_an_untracked_file() {
    let root = "/tmp/gitstat-scan-untracked";
    let repo = git2::Repository::init(root).unwrap();
    let blob = repo.blob(b"hello\n").unwrap();
    let mut builder = repo.treebuilder(None).unwrap();
    builder.insert("notes.txt", blob, 0o100644).unwrap();
    let tree_id = builder.write().unwrap();
    let tree = repo.find_tree(tree_id).unwrap();
    let mut checkout = git2::build::CheckoutBuilder::new();
    checkout.force();
    repo.checkout_tree(tree.as_object(), Some(&mut checkout)).unwrap();
    let mut index = repo.index().unwrap();
    let _ = index.remove_path(std::path::Path::new("notes.txt"));
    index.write().unwrap();

    let git = Git::scan(&path(root)).expect("a repository");
    let query = RepoPath::new(vec![
        "/".to_string(),
        "tmp".to_string(),
        "gitstat-scan-untracked".to_string(),
        "notes.txt".to_string(),
    ]);
    assert_eq!(
        git.status(&query),
        PathStatus { staged: GitStatus::NotModified, unstaged: GitStatus::New }
    );
    assert_eq!(
        git.dir_status(&path(root)),
        PathStatus { staged: GitStatus::NotModified, unstaged: GitStatus::New }
    );
}
