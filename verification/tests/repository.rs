use std::cell::RefCell;
use std::collections::HashMap;

use git2::call::{Arg, Call, Op};
use git2::error::{LastError, EXISTS, NOT_FAST_FORWARD, NOT_FOUND};
use git2::handle::{Child, Commit, Handle, Signature, Tree};
use git2::kinds::{BranchType, ObjectKind, RepositoryState, ResetType};
use git2::oid::Oid;
use git2::ptr::Ptr;
use git2::reply::{Found, Out, Reply};
use git2::repository::Repository;

// A small engine that lives in memory. It keeps directories, repositories,
// commits and references, hands out addresses, and writes down every call.

struct Repo {
    dir: Vec<u8>,
    bare: bool,
    refs: HashMap<Vec<u8>, Oid>,
    commits: Vec<Oid>,
    namespace: Option<Vec<u8>>,
    remotes: Vec<Vec<u8>>,
    submodules: Vec<Vec<u8>>,
    state: i32,
    index: Vec<u8>,
    worktree: Vec<u8>,
}

enum Thing {
    Repo(usize),
    Object(Oid),
    Other,
}

struct World {
    dirs: Vec<Vec<u8>>,
    repos: Vec<Repo>,
    things: HashMap<usize, Thing>,
    next: usize,
    serial: u8,
    log: Vec<Call>,
}

fn ok(out: Out) -> Reply {
    Reply { code: 0, error: None, out }
}

fn fail(code: i32, class: i32, message: &str) -> Reply {
    Reply {
        code,
        error: Some(LastError { class, message: message.to_string() }),
        out: Out::Nothing,
    }
}

fn text(arg: &Arg) -> Vec<u8> {
    match arg {
        Arg::Text(t) => {
            assert_eq!(t.last(), Some(&0u8));
            t[..t.len() - 1].to_vec()
        }
        _ => panic!("text expected"),
    }
}

fn handle(arg: &Arg) -> Ptr {
    match arg {
        Arg::Handle(p) => *p,
        _ => panic!("address expected"),
    }
}

fn number(arg: &Arg) -> i32 {
    match arg {
        Arg::Number(n) => *n,
        _ => panic!("number expected"),
    }
}

fn join(dir: &[u8], name: &[u8]) -> Vec<u8> {
    let mut p = dir.to_vec();
    p.push(b'/');
    p.extend_from_slice(name);
    p
}

impl World {
    fn new() -> World {
        World {
            dirs: Vec::new(),
            repos: Vec::new(),
            things: HashMap::new(),
            next: 0x1000,
            serial: 0,
            log: Vec::new(),
        }
    }

    fn mkdir(&mut self, dir: &[u8]) {
        self.dirs.push(dir.to_vec());
    }

    fn give(&mut self, thing: Thing) -> Ptr {
        self.next += 0x10;
        self.things.insert(self.next, thing);
        Ptr::new(self.next)
    }

    fn fresh_oid(&mut self) -> Oid {
        self.serial += 1;
        Oid::from_bytes([self.serial; 20])
    }

    fn repo_of(&self, p: Ptr) -> usize {
        match self.things.get(&p.addr()) {
            Some(Thing::Repo(i)) => *i,
            _ => panic!("not a repository"),
        }
    }

    fn object_of(&self, p: Ptr) -> Oid {
        match self.things.get(&p.addr()) {
            Some(Thing::Object(id)) => *id,
            _ => panic!("not an object"),
        }
    }

    fn head_target(&self, repo: usize) -> Option<Oid> {
        self.repos[repo].refs.get(&b"refs/heads/master"[..]).copied()
    }

    fn resolve(&self, repo: usize, name: &[u8]) -> Option<Oid> {
        if name == b"HEAD" {
            self.head_target(repo)
        } else {
            self.repos[repo].refs.get(name).copied()
        }
    }

    fn perform(&mut self, call: Call) -> Reply {
        self.log.push(Call { op: call.op, args: call.args.iter().map(copy_arg).collect() });
        let a = &call.args;
        match call.op {
            Op::RepositoryInit => {
                let dir = text(&a[0]);
                if !self.dirs.contains(&dir) {
                    return fail(NOT_FOUND, 2, "failed to make directory");
                }
                let bare = number(&a[1]) == 1;
                self.repos.push(Repo {
                    dir,
                    bare,
                    refs: HashMap::new(),
                    commits: Vec::new(),
                    namespace: None,
                    remotes: Vec::new(),
                    submodules: Vec::new(),
                    state: 0,
                    index: Vec::new(),
                    worktree: Vec::new(),
                });
                let i = self.repos.len() - 1;
                ok(Out::Handle(self.give(Thing::Repo(i))))
            }
            Op::RepositoryOpen => {
                let dir = text(&a[0]);
                match self.repos.iter().position(|r| r.dir == dir) {
                    Some(i) => ok(Out::Handle(self.give(Thing::Repo(i)))),
                    None => fail(NOT_FOUND, 6, "could not find repository"),
                }
            }
            Op::RepositoryFree => ok(Out::Nothing),
            Op::RepositoryIsBare => {
                let r = self.repo_of(handle(&a[0]));
                Reply { code: self.repos[r].bare as i32, error: None, out: Out::Nothing }
            }
            Op::RepositoryIsShallow => Reply { code: 0, error: None, out: Out::Nothing },
            Op::RepositoryIsEmpty => {
                let r = self.repo_of(handle(&a[0]));
                Reply {
                    code: self.repos[r].commits.is_empty() as i32,
                    error: None,
                    out: Out::Nothing,
                }
            }
            Op::RepositoryState => {
                let r = self.repo_of(handle(&a[0]));
                Reply { code: self.repos[r].state, error: None, out: Out::Nothing }
            }
            Op::RepositoryPath => {
                let r = self.repo_of(handle(&a[0]));
                let repo = &self.repos[r];
                let path = if repo.bare { repo.dir.clone() } else { join(&repo.dir, b".git") };
                ok(Out::Text(Some(path)))
            }
            Op::RepositoryWorkdir => {
                let r = self.repo_of(handle(&a[0]));
                let repo = &self.repos[r];
                ok(Out::Text(if repo.bare { None } else { Some(repo.dir.clone()) }))
            }
            Op::RepositoryNamespace => {
                let r = self.repo_of(handle(&a[0]));
                ok(Out::Text(self.repos[r].namespace.clone()))
            }
            Op::RemoteList => {
                let r = self.repo_of(handle(&a[0]));
                ok(Out::Texts(self.repos[r].remotes.clone()))
            }
            Op::SubmoduleForeach => {
                let r = self.repo_of(handle(&a[0]));
                let n = self.repos[r].submodules.len();
                let mut found = Vec::new();
                for _ in 0..n {
                    found.push(Found { code: 0, handle: self.give(Thing::Other) });
                }
                ok(Out::Found(found))
            }
            Op::Revparse | Op::RevparseSingle => {
                let r = self.repo_of(handle(&a[0]));
                let spec = text(&a[1]);
                match self.resolve(r, &spec) {
                    Some(id) => {
                        let p = self.give(Thing::Object(id));
                        if call.op == Op::Revparse {
                            ok(Out::Range { from: p, to: Ptr::null(), flags: 1 })
                        } else {
                            ok(Out::Handle(p))
                        }
                    }
                    None => fail(NOT_FOUND, 4, "revspec not found"),
                }
            }
            Op::ObjectId => ok(Out::Id(self.object_of(handle(&a[0])))),
            Op::ObjectLookup | Op::CommitLookup => {
                let r = self.repo_of(handle(&a[0]));
                let id = match &a[1] {
                    Arg::Id(id) => *id,
                    _ => panic!("hash expected"),
                };
                if self.repos[r].commits.contains(&id) {
                    ok(Out::Handle(self.give(Thing::Object(id))))
                } else {
                    fail(NOT_FOUND, 9, "object not found")
                }
            }
            Op::SignatureDefault => ok(Out::Handle(self.give(Thing::Other))),
            Op::Reset => {
                let r = self.repo_of(handle(&a[0]));
                let target = self.object_of(handle(&a[1]));
                let kind = number(&a[2]);
                self.repos[r].refs.insert(b"refs/heads/master".to_vec(), target);
                if kind >= 2 {
                    self.repos[r].index = target.as_bytes().to_vec();
                }
                if kind == 3 {
                    self.repos[r].worktree = self.repos[r].index.clone();
                }
                ok(Out::Nothing)
            }
            Op::ReferenceNameToId => {
                let r = self.repo_of(handle(&a[0]));
                match self.resolve(r, &text(&a[1])) {
                    Some(id) => ok(Out::Id(id)),
                    None => fail(NOT_FOUND, 4, "reference not found"),
                }
            }
            Op::CommitCreate => {
                let r = self.repo_of(handle(&a[0]));
                let update = match &a[1] {
                    Arg::OptText(Some(t)) => Some(t[..t.len() - 1].to_vec()),
                    Arg::OptText(None) => None,
                    _ => panic!("optional text expected"),
                };
                let parents: Vec<Oid> = match &a[8] {
                    Arg::Handles(ps) => ps.iter().map(|p| self.object_of(*p)).collect(),
                    _ => panic!("addresses expected"),
                };
                assert_eq!(a[7], Arg::Size(parents.len()));
                if let Some(name) = &update {
                    if let Some(current) = self.resolve(r, name) {
                        if parents.first() != Some(&current) {
                            return fail(
                                NOT_FAST_FORWARD,
                                4,
                                "failed to create commit: current tip is not the first parent",
                            );
                        }
                    }
                }
                let id = self.fresh_oid();
                self.repos[r].commits.push(id);
                if let Some(name) = update {
                    let name = if name == b"HEAD" { b"refs/heads/master".to_vec() } else { name };
                    self.repos[r].refs.insert(name, id);
                }
                ok(Out::Id(id))
            }
            Op::BranchCreate => {
                let r = self.repo_of(handle(&a[0]));
                let name = join(b"refs/heads", &text(&a[1]));
                let target = self.object_of(handle(&a[2]));
                let force = number(&a[3]) == 1;
                if self.repos[r].refs.contains_key(&name) && !force {
                    return fail(EXISTS, 4, "a branch with that name already exists");
                }
                self.repos[r].refs.insert(name, target);
                ok(Out::Handle(self.give(Thing::Object(target))))
            }
            Op::BranchLookup => {
                let r = self.repo_of(handle(&a[0]));
                let name = join(b"refs/heads", &text(&a[1]));
                match self.repos[r].refs.get(&name).copied() {
                    Some(id) => ok(Out::Handle(self.give(Thing::Object(id)))),
                    None => fail(NOT_FOUND, 4, "cannot locate branch"),
                }
            }
            _ => ok(Out::Handle(self.give(Thing::Other))),
        }
    }
}

fn copy_arg(arg: &Arg) -> Arg {
    match arg {
        Arg::Handle(p) => Arg::Handle(*p),
        Arg::Text(t) => Arg::Text(t.clone()),
        Arg::OptText(t) => Arg::OptText(t.clone()),
        Arg::Number(n) => Arg::Number(*n),
        Arg::Size(n) => Arg::Size(*n),
        Arg::Id(id) => Arg::Id(*id),
        Arg::Handles(ps) => Arg::Handles(ps.clone()),
        Arg::Texts(ts) => Arg::Texts(ts.clone()),
        Arg::Data(d) => Arg::Data(d.clone()),
    }
}

fn last_call(world: &RefCell<World>) -> Call {
    let w = world.borrow();
    let c = w.log.last().unwrap();
    Call { op: c.op, args: c.args.iter().map(copy_arg).collect() }
}

// A repository with one commit at its head, as the engine leaves it after a
// first commit.
fn repo_init(
    world: &RefCell<World>,
    engine: &impl Fn(Call) -> Reply,
    dir: &[u8],
) -> (Repository, Oid) {
    world.borrow_mut().mkdir(dir);
    let repo = Repository::init(engine, dir).unwrap();
    let sig = repo.signature(engine).unwrap();
    let first = {
        let tree = Tree::from_raw(&repo, Ptr::new(0x7000));
        repo.commit(engine, Some("HEAD"), &sig, &sig, "initial", &tree, &[]).unwrap()
    };
    (repo, first)
}

#[test]
fn smoke_init() {
    let world = RefCell::new(World::new());
    let engine = |call: Call| world.borrow_mut().perform(call);
    world.borrow_mut().mkdir(b"/tmp/test");
    let path = b"/tmp/test";

    let repo = Repository::init(&engine, path).unwrap();
    assert!(!repo.is_bare(&engine));
}

#[test]
fn smoke_init_bare() {
    let world = RefCell::new(World::new());
    let engine = |call: Call| world.borrow_mut().perform(call);
    world.borrow_mut().mkdir(b"/tmp/test");
    let path = b"/tmp/test";

    let repo = Repository::init_bare(&engine, path).unwrap();
    assert!(repo.is_bare(&engine));
    assert!(repo.namespace(&engine).is_none());
}

#[test]
fn smoke_open() {
    let world = RefCell::new(World::new());
    let engine = |call: Call| world.borrow_mut().perform(call);
    world.borrow_mut().mkdir(b"/tmp/test");
    let path = b"/tmp/test";
    Repository::init(&engine, path).unwrap();
    let repo = Repository::open(&engine, path).unwrap();
    assert!(!repo.is_bare(&engine));
    assert!(!repo.is_shallow(&engine));
    assert!(repo.is_empty(&engine).unwrap());
    assert!(repo.path(&engine) == join(path, b".git"));
    assert_eq!(repo.state(&engine), RepositoryState::Clean);
}

#[test]
fn smoke_open_bare() {
    let world = RefCell::new(World::new());
    let engine = |call: Call| world.borrow_mut().perform(call);
    world.borrow_mut().mkdir(b"/tmp/test");
    let path = b"/tmp/test";
    Repository::init_bare(&engine, path).unwrap();

    let repo = Repository::open(&engine, path).unwrap();
    assert!(repo.is_bare(&engine));
    assert!(repo.path(&engine) == path.to_vec());
}

#[test]
fn smoke_revparse() {
    let world = RefCell::new(World::new());
    let engine = |call: Call| world.borrow_mut().perform(call);
    let (repo, _first) = repo_init(&world, &engine, b"/tmp/test");
    let rev = repo.revparse(&engine, "HEAD").unwrap();
    assert!(rev.to().is_none());
    let from = rev.from().unwrap();
    assert!(rev.from().is_some());

    assert!(repo.revparse_single(&engine, "HEAD").unwrap().id(&engine) == from.id(&engine));
    let obj = repo.find_object(&engine, from.id(&engine), None).unwrap();
    let sig = repo.signature(&engine).unwrap();
    repo.reset(&engine, &obj, ResetType::Hard, None, None).unwrap();
    repo.reset(&engine, &obj, ResetType::Soft, Some(&sig), Some("foo")).unwrap();
}

#[test]
fn init_then_open_both_report_a_working_tree() {
    let world = RefCell::new(World::new());
    let engine = |call: Call| world.borrow_mut().perform(call);
    for dir in [&b"/a"[..], &b"/b/c"[..], &b"/tmp/with space"[..]] {
        world.borrow_mut().mkdir(dir);
        let made = Repository::init(&engine, dir).unwrap();
        let opened = Repository::open(&engine, dir).unwrap();
        assert!(!made.is_bare(&engine));
        assert!(!opened.is_bare(&engine));
        assert_eq!(opened.workdir(&engine), Some(dir.to_vec()));
    }
}

#[test]
fn init_hands_the_engine_the_path_and_the_bare_flag() {
    let world = RefCell::new(World::new());
    let engine = |call: Call| world.borrow_mut().perform(call);
    world.borrow_mut().mkdir(b"/r");
    Repository::init(&engine, b"/r").unwrap();
    assert_eq!(
        last_call(&world),
        Call { op: Op::RepositoryInit, args: vec![Arg::Text(b"/r\0".to_vec()), Arg::Number(0)] }
    );
    Repository::init_bare(&engine, b"/r").unwrap();
    assert_eq!(
        last_call(&world),
        Call { op: Op::RepositoryInit, args: vec![Arg::Text(b"/r\0".to_vec()), Arg::Number(1)] }
    );
    Repository::open(&engine, b"/r").unwrap();
    assert_eq!(
        last_call(&world),
        Call { op: Op::RepositoryOpen, args: vec![Arg::Text(b"/r\0".to_vec())] }
    );
}

#[test]
fn init_in_a_missing_directory_fails_without_a_handle() {
    let world = RefCell::new(World::new());
    let engine = |call: Call| world.borrow_mut().perform(call);
    let e = Repository::init(&engine, b"/nowhere").unwrap_err();
    assert_eq!(e.code(), NOT_FOUND);
    assert_eq!(e.class(), 2);
    assert_eq!(e.message(), "failed to make directory");
    let e = Repository::open(&engine, b"/nowhere").unwrap_err();
    assert_eq!((e.code(), e.class()), (NOT_FOUND, 6));
}

#[test]
fn clone_hands_the_engine_the_address_and_the_destination() {
    let world = RefCell::new(World::new());
    let engine = |call: Call| world.borrow_mut().perform(call);
    let failing = |_call: Call| fail(-1, 12, "failed to resolve address");
    let e = Repository::clone(&failing, "https://example.invalid/r.git", b"/dst").unwrap_err();
    assert_eq!((e.code(), e.class(), e.message()), (-1, 12, "failed to resolve address"));
    let _ = Repository::clone(&engine, "https://example.invalid/r.git", b"/dst");
    assert_eq!(
        last_call(&world),
        Call {
            op: Op::RepositoryClone,
            args: vec![
                Arg::Text(b"https://example.invalid/r.git\0".to_vec()),
                Arg::Text(b"/dst\0".to_vec()),
            ],
        }
    );
}

#[test]
fn a_fresh_repository_is_empty_and_clean() {
    let world = RefCell::new(World::new());
    let engine = |call: Call| world.borrow_mut().perform(call);
    world.borrow_mut().mkdir(b"/fresh");
    let repo = Repository::init(&engine, b"/fresh").unwrap();
    assert_eq!(repo.is_empty(&engine).map_err(|e| e.code()), Ok(true));
    assert_eq!(repo.state(&engine), RepositoryState::Clean);
    let (repo, _) = repo_init(&world, &engine, b"/used");
    assert_eq!(repo.is_empty(&engine).map_err(|e| e.code()), Ok(false));
}

#[test]
fn is_empty_reports_what_the_engine_could_not_determine() {
    let failing = |_call: Call| fail(-1, 6, "corrupted HEAD");
    let repo = Repository::from_raw(Ptr::new(0x1000));
    let e = repo.is_empty(&failing).unwrap_err();
    assert_eq!((e.code(), e.class(), e.message()), (-1, 6, "corrupted HEAD"));
}

#[test]
fn every_state_of_the_engine_maps_to_its_own_state() {
    let world = RefCell::new(World::new());
    let engine = |call: Call| world.borrow_mut().perform(call);
    world.borrow_mut().mkdir(b"/s");
    let repo = Repository::init(&engine, b"/s").unwrap();
    let table = [
        (0, RepositoryState::Clean),
        (1, RepositoryState::Merge),
        (2, RepositoryState::Revert),
        (4, RepositoryState::CherryPick),
        (6, RepositoryState::Bisect),
        (7, RepositoryState::Rebase),
        (8, RepositoryState::RebaseInteractive),
        (9, RepositoryState::RebaseMerge),
        (10, RepositoryState::ApplyMailbox),
        (11, RepositoryState::ApplyMailboxOrRebase),
    ];
    for (code, state) in table {
        world.borrow_mut().repos[0].state = code;
        assert_eq!(repo.state(&engine), state);
    }
}

#[test]
fn namespace_is_text_only_when_its_bytes_are() {
    let world = RefCell::new(World::new());
    let engine = |call: Call| world.borrow_mut().perform(call);
    world.borrow_mut().mkdir(b"/n");
    let repo = Repository::init(&engine, b"/n").unwrap();
    assert_eq!(repo.namespace_bytes(&engine), None);
    assert_eq!(repo.namespace(&engine), None);

    world.borrow_mut().repos[0].namespace = Some(b"team".to_vec());
    assert_eq!(repo.namespace_bytes(&engine), Some(b"team".to_vec()));
    assert_eq!(repo.namespace(&engine), Some("team".to_string()));

    world.borrow_mut().repos[0].namespace = Some(vec![0xc3, 0xa9]);
    assert_eq!(repo.namespace(&engine), Some("\u{e9}".to_string()));

    world.borrow_mut().repos[0].namespace = Some(Vec::new());
    assert_eq!(repo.namespace(&engine), Some(String::new()));

    for bad in [vec![b't', 0xff], vec![0xff, 0xfe], vec![b'a', 0xc3], vec![0xed, 0xa0, 0x80]] {
        world.borrow_mut().repos[0].namespace = Some(bad.clone());
        assert_eq!(repo.namespace_bytes(&engine), Some(bad));
        assert_eq!(repo.namespace(&engine), None);
    }
}

#[test]
fn workdir_is_absent_for_a_bare_repository() {
    let world = RefCell::new(World::new());
    let engine = |call: Call| world.borrow_mut().perform(call);
    world.borrow_mut().mkdir(b"/bare");
    world.borrow_mut().mkdir(b"/full");
    let bare = Repository::init_bare(&engine, b"/bare").unwrap();
    let full = Repository::init(&engine, b"/full").unwrap();
    assert_eq!(bare.workdir(&engine), None);
    assert_eq!(full.workdir(&engine), Some(b"/full".to_vec()));
}

#[test]
fn remotes_come_in_the_order_of_the_engine() {
    let world = RefCell::new(World::new());
    let engine = |call: Call| world.borrow_mut().perform(call);
    world.borrow_mut().mkdir(b"/r");
    let repo = Repository::init(&engine, b"/r").unwrap();
    assert_eq!(repo.remotes(&engine).unwrap().len(), 0);
    world.borrow_mut().repos[0].remotes = vec![b"origin".to_vec(), b"backup".to_vec()];
    let names = repo.remotes(&engine).unwrap();
    assert_eq!(names.len(), 2);
    assert_eq!(names.get(0), Some(&b"origin"[..]));
    assert_eq!(names.get(1), Some(&b"backup"[..]));
    assert_eq!(names.get(2), None);
}

#[test]
fn submodules_come_in_the_order_of_the_listing() {
    let world = RefCell::new(World::new());
    let engine = |call: Call| world.borrow_mut().perform(call);
    world.borrow_mut().mkdir(b"/r");
    let repo = Repository::init(&engine, b"/r").unwrap();
    assert!(repo.submodules(&engine).unwrap().is_empty());
    world.borrow_mut().repos[0].submodules = vec![b"a".to_vec(), b"b".to_vec(), b"c".to_vec()];
    let before = world.borrow().next;
    let subs = repo.submodules(&engine).unwrap();
    let raws: Vec<usize> = subs.iter().map(|s| s.raw().addr()).collect();
    assert_eq!(raws, vec![before + 0x10, before + 0x20, before + 0x30]);

    let failing = |_call: Call| fail(-1, 17, "cannot read .gitmodules");
    let e = match repo.submodules(&failing) {
        Ok(_) => panic!("the listing failed"),
        Err(e) => e,
    };
    assert_eq!((e.code(), e.class()), (-1, 17));
}

#[test]
fn revparse_gives_both_ends_of_a_range() {
    let range = |call: Call| {
        assert_eq!(call.op, Op::Revparse);
        Reply {
            code: 0,
            error: None,
            out: Out::Range { from: Ptr::new(0x100), to: Ptr::new(0x200), flags: 2 },
        }
    };
    let repo = Repository::from_raw(Ptr::new(0x1000));
    let rev = repo.revparse(&range, "HEAD~2..HEAD").unwrap();
    assert_eq!(rev.from().unwrap().raw(), Ptr::new(0x100));
    assert_eq!(rev.to().unwrap().raw(), Ptr::new(0x200));
}

#[test]
fn revparse_of_an_unknown_revision_fails() {
    let world = RefCell::new(World::new());
    let engine = |call: Call| world.borrow_mut().perform(call);
    let (repo, _) = repo_init(&world, &engine, b"/r");
    let e = repo.revparse(&engine, "no-such-branch").unwrap_err();
    assert_eq!(e.code(), NOT_FOUND);
    let e = repo.revparse_single(&engine, "no-such-branch").unwrap_err();
    assert_eq!(e.code(), NOT_FOUND);
    assert_eq!(
        last_call(&world),
        Call {
            op: Op::RevparseSingle,
            args: vec![Arg::Handle(repo.raw()), Arg::Text(b"no-such-branch\0".to_vec())],
        }
    );
}

#[test]
fn reset_hands_over_the_kind_and_the_optional_parts() {
    let world = RefCell::new(World::new());
    let engine = |call: Call| world.borrow_mut().perform(call);
    let (repo, first) = repo_init(&world, &engine, b"/r");
    let obj = repo.find_object(&engine, first, Some(ObjectKind::Commit)).unwrap();
    assert_eq!(
        last_call(&world),
        Call {
            op: Op::ObjectLookup,
            args: vec![Arg::Handle(repo.raw()), Arg::Id(first), Arg::Number(1)],
        }
    );
    let sig = Signature::from_raw(Ptr::new(0x9000));

    repo.reset(&engine, &obj, ResetType::Soft, Some(&sig), Some("foo")).unwrap();
    assert_eq!(
        last_call(&world),
        Call {
            op: Op::Reset,
            args: vec![
                Arg::Handle(repo.raw()),
                Arg::Handle(obj.raw()),
                Arg::Number(1),
                Arg::Handle(Ptr::new(0x9000)),
                Arg::OptText(Some(b"foo\0".to_vec())),
            ],
        }
    );
    // A soft reset leaves index and working tree as they were.
    assert!(world.borrow().repos[0].index.is_empty());
    assert!(world.borrow().repos[0].worktree.is_empty());

    repo.reset(&engine, &obj, ResetType::Mixed, None, None).unwrap();
    assert_eq!(
        last_call(&world),
        Call {
            op: Op::Reset,
            args: vec![
                Arg::Handle(repo.raw()),
                Arg::Handle(obj.raw()),
                Arg::Number(2),
                Arg::Handle(Ptr::null()),
                Arg::OptText(None),
            ],
        }
    );
    assert_eq!(world.borrow().repos[0].index, first.as_bytes().to_vec());
    assert!(world.borrow().repos[0].worktree.is_empty());

    repo.reset(&engine, &obj, ResetType::Hard, None, None).unwrap();
    assert_eq!(number(&last_call(&world).args[2]), 3);
    assert_eq!(world.borrow().repos[0].worktree, first.as_bytes().to_vec());
}

#[test]
fn reset_default_hands_over_exactly_the_given_paths() {
    let world = RefCell::new(World::new());
    let recording = |call: Call| {
        world.borrow_mut().log.push(call);
        ok(Out::Nothing)
    };
    let repo = Repository::from_raw(Ptr::new(0x1000));
    let target = git2::handle::Object::from_raw(&repo, Ptr::new(0x2000));
    repo.reset_default(&recording, Some(&target), &["src/a.rs", "README"]).unwrap();
    assert_eq!(
        last_call(&world),
        Call {
            op: Op::ResetDefault,
            args: vec![
                Arg::Handle(Ptr::new(0x1000)),
                Arg::Handle(Ptr::new(0x2000)),
                Arg::Texts(vec![b"src/a.rs\0".to_vec(), b"README\0".to_vec()]),
            ],
        }
    );
    // Without a target the engine gets the null address: the paths leave the index.
    repo.reset_default(&recording, None, &["gone"]).unwrap();
    assert_eq!(
        last_call(&world),
        Call {
            op: Op::ResetDefault,
            args: vec![
                Arg::Handle(Ptr::new(0x1000)),
                Arg::Handle(Ptr::null()),
                Arg::Texts(vec![b"gone\0".to_vec()]),
            ],
        }
    );
    repo.reset_default(&recording, None, &[]).unwrap();
    assert_eq!(last_call(&world).args[2], Arg::Texts(Vec::new()));
}

#[test]
fn branch_on_a_taken_name_fails_unless_forced() {
    let world = RefCell::new(World::new());
    let engine = |call: Call| world.borrow_mut().perform(call);
    let (repo, first) = repo_init(&world, &engine, b"/r");
    let sig = repo.signature(&engine).unwrap();
    let tree = Tree::from_raw(&repo, Ptr::new(0x7000));
    let c1 = repo.find_commit(&engine, first).unwrap();
    let second = repo.commit(&engine, None, &sig, &sig, "side", &tree, &[&c1]).unwrap();
    let c2 = repo.find_commit(&engine, second).unwrap();

    repo.branch(&engine, "topic", &c1, false, None, "new").unwrap();
    let e = match repo.branch(&engine, "topic", &c2, false, None, "again") {
        Ok(_) => panic!("the name is taken"),
        Err(e) => e,
    };
    assert_eq!(e.code(), EXISTS);
    assert_eq!(e.message(), "a branch with that name already exists");
    assert!(repo.refname_to_id(&engine, "refs/heads/topic").unwrap() == first);

    let forced = repo.branch(&engine, "topic", &c2, true, Some(&sig), "moved").unwrap();
    assert_eq!(
        last_call(&world),
        Call {
            op: Op::BranchCreate,
            args: vec![
                Arg::Handle(repo.raw()),
                Arg::Text(b"topic\0".to_vec()),
                Arg::Handle(c2.raw()),
                Arg::Number(1),
                Arg::Handle(sig.raw()),
                Arg::Text(b"moved\0".to_vec()),
            ],
        }
    );
    assert!(!forced.raw().is_null());
    assert!(repo.refname_to_id(&engine, "refs/heads/topic").unwrap() == second);
    assert!(repo.find_branch(&engine, "topic", BranchType::Local).is_ok());
    assert_eq!(
        repo.find_branch(&engine, "nope", BranchType::Local).map(|_| ()).unwrap_err().code(),
        NOT_FOUND
    );
}

#[test]
fn commit_on_head_moves_head_to_the_new_commit() {
    let world = RefCell::new(World::new());
    let engine = |call: Call| world.borrow_mut().perform(call);
    let (repo, first) = repo_init(&world, &engine, b"/r");
    let author = repo.signature(&engine).unwrap();
    let committer = repo.signature(&engine).unwrap();
    let tree2 = Tree::from_raw(&repo, Ptr::new(0x7100));
    let c1 = repo.find_commit(&engine, first).unwrap();

    let c2 = repo
        .commit(&engine, Some("HEAD"), &author, &committer, "second", &tree2, &[&c1])
        .unwrap();
    assert_eq!(
        last_call(&world),
        Call {
            op: Op::CommitCreate,
            args: vec![
                Arg::Handle(repo.raw()),
                Arg::OptText(Some(b"HEAD\0".to_vec())),
                Arg::Handle(author.raw()),
                Arg::Handle(committer.raw()),
                Arg::OptText(None),
                Arg::Text(b"second\0".to_vec()),
                Arg::Handle(Ptr::new(0x7100)),
                Arg::Size(1),
                Arg::Handles(vec![c1.raw()]),
            ],
        }
    );
    assert!(c2 != first);
    assert!(repo.find_commit(&engine, c2).is_ok());
    assert!(repo.refname_to_id(&engine, "HEAD").unwrap() == c2);
}

#[test]
fn commit_on_head_with_a_stale_parent_is_refused() {
    let world = RefCell::new(World::new());
    let engine = |call: Call| world.borrow_mut().perform(call);
    let (repo, first) = repo_init(&world, &engine, b"/r");
    let author = repo.signature(&engine).unwrap();
    let committer = repo.signature(&engine).unwrap();
    let tree2 = Tree::from_raw(&repo, Ptr::new(0x7100));
    let c0 = repo.find_commit(&engine, first).unwrap();
    let head = repo
        .commit(&engine, Some("HEAD"), &author, &committer, "second", &tree2, &[&c0])
        .unwrap();

    // The head has moved on; the first commit is no longer its tip.
    let e = repo
        .commit(&engine, Some("HEAD"), &author, &committer, "conflict", &tree2, &[&c0])
        .unwrap_err();
    assert_eq!(e.code(), NOT_FAST_FORWARD);
    assert!(repo.refname_to_id(&engine, "HEAD").unwrap() == head);
}

#[test]
fn commit_hands_over_the_parents_in_order() {
    let world = RefCell::new(World::new());
    let recording = |call: Call| {
        world.borrow_mut().log.push(call);
        ok(Out::Id(Oid::from_bytes([7u8; 20])))
    };
    let repo = Repository::from_raw(Ptr::new(0x1000));
    let sig = Signature::from_raw(Ptr::new(0x2000));
    let tree = Tree::from_raw(&repo, Ptr::new(0x3000));
    let a = Commit::from_raw(&repo, Ptr::new(0x30));
    let b = Commit::from_raw(&repo, Ptr::new(0x10));
    let c = Commit::from_raw(&repo, Ptr::new(0x20));
    let id = repo.commit(&recording, None, &sig, &sig, "merge", &tree, &[&a, &b, &c]).unwrap();
    assert!(id == Oid::from_bytes([7u8; 20]));
    let call = last_call(&world);
    assert_eq!(call.args[1], Arg::OptText(None));
    assert_eq!(call.args[7], Arg::Size(3));
    assert_eq!(call.args[8], Arg::Handles(vec![Ptr::new(0x30), Ptr::new(0x10), Ptr::new(0x20)]));
    repo.commit(&recording, None, &sig, &sig, "root", &tree, &[]).unwrap();
    let call = last_call(&world);
    assert_eq!(call.args[7], Arg::Size(0));
    assert_eq!(call.args[8], Arg::Handles(Vec::new()));
}

#[test]
fn every_lookup_hands_over_its_arguments_in_the_order_of_the_engine() {
    let world = RefCell::new(World::new());
    let recording = |call: Call| {
        let reply = match call.op {
            Op::BlobCreateFromBuffer | Op::BlobCreateFromDisk | Op::ReferenceNameToId => {
                ok(Out::Id(Oid::from_bytes([5u8; 20])))
            }
            _ => ok(Out::Handle(Ptr::new(0x5000))),
        };
        world.borrow_mut().log.push(call);
        reply
    };
    let repo = Repository::from_raw(Ptr::new(0x1000));
    let me = Arg::Handle(Ptr::new(0x1000));
    let id = Oid::from_bytes([5u8; 20]);
    let sig = Signature::from_raw(Ptr::new(0x2000));
    let t = |s: &str| {
        let mut v = s.as_bytes().to_vec();
        v.push(0);
        Arg::Text(v)
    };
    let expect = |op: Op, rest: Vec<Arg>| {
        let mut args = vec![Arg::Handle(Ptr::new(0x1000))];
        args.extend(rest);
        assert_eq!(last_call(&world), Call { op, args });
    };

    assert_eq!(repo.find_remote(&recording, "origin").unwrap().raw(), Ptr::new(0x5000));
    expect(Op::RemoteLoad, vec![t("origin")]);
    repo.remote(&recording, "origin", "git://h/r").unwrap();
    expect(Op::RemoteCreate, vec![t("origin"), t("git://h/r")]);
    repo.remote_anonymous(&recording, "git://h/r", "+refs/*:refs/*").unwrap();
    expect(Op::RemoteCreateAnonymous, vec![t("git://h/r"), t("+refs/*:refs/*")]);
    repo.head(&recording).unwrap();
    expect(Op::RepositoryHead, vec![]);
    repo.references(&recording).unwrap();
    expect(Op::ReferenceIteratorNew, vec![]);
    repo.references_glob(&recording, "refs/tags/*").unwrap();
    expect(Op::ReferenceIteratorGlobNew, vec![t("refs/tags/*")]);
    repo.branches(&recording, None).unwrap();
    expect(Op::BranchIteratorNew, vec![Arg::Number(3)]);
    repo.branches(&recording, Some(BranchType::Remote)).unwrap();
    expect(Op::BranchIteratorNew, vec![Arg::Number(2)]);
    repo.index(&recording).unwrap();
    expect(Op::RepositoryIndex, vec![]);
    repo.config(&recording).unwrap();
    expect(Op::RepositoryConfig, vec![]);
    assert!(repo.blob(&recording, b"hello\0world").unwrap() == id);
    expect(Op::BlobCreateFromBuffer, vec![Arg::Data(b"hello\0world".to_vec()), Arg::Size(11)]);
    repo.blob_path(&recording, b"/r/file").unwrap();
    expect(Op::BlobCreateFromDisk, vec![t("/r/file")]);
    repo.find_blob(&recording, id).unwrap();
    expect(Op::BlobLookup, vec![Arg::Id(id)]);
    repo.find_branch(&recording, "master", BranchType::Local).unwrap();
    expect(Op::BranchLookup, vec![t("master"), Arg::Number(1)]);
    repo.find_commit(&recording, id).unwrap();
    expect(Op::CommitLookup, vec![Arg::Id(id)]);
    repo.find_object(&recording, id, None).unwrap();
    expect(Op::ObjectLookup, vec![Arg::Id(id), Arg::Number(-2)]);
    repo.find_tree(&recording, id).unwrap();
    expect(Op::TreeLookup, vec![Arg::Id(id)]);
    repo.reference(&recording, "refs/x", id, true, Some(&sig), "log").unwrap();
    expect(
        Op::ReferenceCreate,
        vec![t("refs/x"), Arg::Id(id), Arg::Number(1), Arg::Handle(Ptr::new(0x2000)), t("log")],
    );
    repo.reference_symbolic(&recording, "HEAD", "refs/heads/x", false, None, "log").unwrap();
    expect(
        Op::ReferenceSymbolicCreate,
        vec![t("HEAD"), t("refs/heads/x"), Arg::Number(0), Arg::Handle(Ptr::null()), t("log")],
    );
    repo.find_reference(&recording, "refs/x").unwrap();
    expect(Op::ReferenceLookup, vec![t("refs/x")]);
    repo.refname_to_id(&recording, "refs/x").unwrap();
    expect(Op::ReferenceNameToId, vec![t("refs/x")]);
    repo.signature(&recording).unwrap();
    expect(Op::SignatureDefault, vec![]);
    repo.submodule(&recording, "git://h/sub", b"vendor/sub", true).unwrap();
    expect(Op::SubmoduleAddSetup, vec![t("git://h/sub"), t("vendor/sub"), Arg::Number(1)]);
    repo.find_submodule(&recording, "vendor/sub").unwrap();
    expect(Op::SubmoduleLookup, vec![t("vendor/sub")]);
    let addr = repo.raw();
    assert_eq!(me, Arg::Handle(addr));
    repo.free(&recording);
    assert_eq!(last_call(&world), Call { op: Op::RepositoryFree, args: vec![Arg::Handle(addr)] });
}

#[test]
fn every_failing_operation_hands_the_error_on_unchanged() {
    let failing = |_call: Call| fail(-14, 4, "locked");
    let repo = Repository::from_raw(Ptr::new(0x1000));
    let id = Oid::from_bytes([5u8; 20]);
    let check = |e: git2::error::Error| {
        assert_eq!((e.code(), e.class(), e.message()), (-14, 4, "locked"));
    };
    check(repo.find_remote(&failing, "o").map(|_| ()).unwrap_err());
    check(repo.head(&failing).map(|_| ()).unwrap_err());
    check(repo.references(&failing).map(|_| ()).unwrap_err());
    check(repo.branches(&failing, None).map(|_| ()).unwrap_err());
    check(repo.index(&failing).map(|_| ()).unwrap_err());
    check(repo.config(&failing).map(|_| ()).unwrap_err());
    check(repo.blob(&failing, b"x").map(|_| ()).unwrap_err());
    check(repo.find_blob(&failing, id).map(|_| ()).unwrap_err());
    check(repo.find_tree(&failing, id).map(|_| ()).unwrap_err());
    check(repo.find_reference(&failing, "r").map(|_| ()).unwrap_err());
    check(repo.refname_to_id(&failing, "r").map(|_| ()).unwrap_err());
    check(repo.signature(&failing).map(|_| ()).unwrap_err());
    check(repo.remotes(&failing).map(|_| ()).unwrap_err());
    check(repo.reset_default(&failing, None, &["a"]).unwrap_err());
    check(repo.reference(&failing, "r", id, false, None, "m").map(|_| ()).unwrap_err());
}
