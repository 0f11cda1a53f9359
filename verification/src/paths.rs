//! Where the launcher and the worker keep their files.

use vstd::prelude::*;
use vstd::string::*;
use crate::namespace::{lemma_namespace_is_one_segment, namespace_of, session_namespace};

verus! {

/// The path of the entry `name` below `base`.
///
/// An absolute `name` stands for itself; otherwise it follows `base`, after
/// one separator unless `base` is empty or already ends in one.
pub open spec fn joined_path(base: Seq<char>, name: Seq<char>) -> Seq<char> {
    if name.len() > 0 && name[0] == '/' {
        name
    } else if base.len() == 0 || base.last() == '/' {
        base + name
    } else {
        base + seq!['/'] + name
    }
}

/// Computes the path of the entry `name` below `base`.
pub fn join_path(base: &str, name: &str) -> (p: String)
    ensures
        p@ == joined_path(base@, name@),
{
    let base_len: usize = base.unicode_len();
    let name_len: usize = name.unicode_len();
    if name_len > 0 && name.get_char(0) == '/' {
        return String::from_str(name);
    }
    let mut p = String::from_str(base);
    if base_len > 0 && base.get_char(base_len - 1) != '/' {
        proof {
            reveal_strlit("/");
        }
        p.append("/");
        assert(p@ =~= base@ + seq!['/']);
    }
    p.append(name);
    p
}

/// The directory that holds the lock file and every session directory:
/// `.cache/rubocop-daemon` below `home`.
pub open spec fn cache_dir_of(home: Seq<char>) -> Seq<char> {
    joined_path(joined_path(home, ".cache"@), "rubocop-daemon"@)
}

/// Computes the global cache directory for the home directory `home`.
pub fn cache_dir(home: &str) -> (dir: String)
    ensures
        dir@ == cache_dir_of(home@),
{
    let dot_cache = join_path(home, ".cache");
    join_path(dot_cache.as_str(), "rubocop-daemon")
}

/// The files of one project's session, and the lock file that all sessions
/// share.
#[derive(PartialEq, Eq, Debug)]
pub struct Session {
    /// The global cache directory.
    pub cache_dir: String,
    /// The lock file, shared by all projects.
    pub lock: String,
    /// The directory of this project's session.
    pub dir: String,
    /// The shared secret that authorizes requests.
    pub token: String,
    /// The port on which the worker listens, as text.
    pub port: String,
    /// Reserved for handing a payload to the worker.
    pub stdin: String,
    /// The exit status of the most recent request.
    pub status: String,
}

impl Session {
    /// The session is the one of the project at `root`, kept below
    /// `cache_dir`.
    pub open spec fn is_session_of(&self, cache_dir: Seq<char>, root: Seq<char>) -> bool {
        &&& self.cache_dir@ == cache_dir
        &&& self.dir@ == joined_path(cache_dir, namespace_of(root))
        &&& self.wf()
    }

    /// Each file lies where the layout puts it: the lock file directly in
    /// the cache directory, the four session files in the session directory.
    pub open spec fn wf(&self) -> bool {
        &&& self.lock@ == joined_path(self.cache_dir@, "running.lock"@)
        &&& self.token@ == joined_path(self.dir@, "token"@)
        &&& self.port@ == joined_path(self.dir@, "port"@)
        &&& self.stdin@ == joined_path(self.dir@, "stdin"@)
        &&& self.status@ == joined_path(self.dir@, "status"@)
    }

    /// Lays out the session of the project at `root` below `cache_dir`.
    pub fn new(cache_dir: &str, root: &str) -> (s: Session)
        ensures
            s.is_session_of(cache_dir@, root@),
    {
        let namespace = session_namespace(root);
        let dir = join_path(cache_dir, namespace.as_str());
        Session {
            cache_dir: String::from_str(cache_dir),
            lock: join_path(cache_dir, "running.lock"),
            token: join_path(dir.as_str(), "token"),
            port: join_path(dir.as_str(), "port"),
            stdin: join_path(dir.as_str(), "stdin"),
            status: join_path(dir.as_str(), "status"),
            dir,
        }
    }

    /// The variables that tell the worker where its files are, in the order
    /// in which they are set.
    pub open spec fn environment(&self) -> Seq<(Seq<char>, Seq<char>)> {
        seq![
            ("CACHE_DIR"@, self.cache_dir@),
            ("PROJECT_CACHE_DIR"@, self.dir@),
            ("TOKEN_PATH"@, self.token@),
            ("PORT_PATH"@, self.port@),
            ("STDIN_PATH"@, self.stdin@),
            ("STATUS_PATH"@, self.status@),
            ("LOCK_PATH"@, self.lock@),
        ]
    }

    /// Builds the environment with which the worker is started.
    pub fn worker_environment(&self) -> (env: Vec<(String, String)>)
        ensures
            env.deep_view() == self.environment(),
    {
        let mut env: Vec<(String, String)> = Vec::new();
        env.push((String::from_str("CACHE_DIR"), self.cache_dir.clone()));
        env.push((String::from_str("PROJECT_CACHE_DIR"), self.dir.clone()));
        env.push((String::from_str("TOKEN_PATH"), self.token.clone()));
        env.push((String::from_str("PORT_PATH"), self.port.clone()));
        env.push((String::from_str("STDIN_PATH"), self.stdin.clone()));
        env.push((String::from_str("STATUS_PATH"), self.status.clone()));
        env.push((String::from_str("LOCK_PATH"), self.lock.clone()));
        assert(env.deep_view() =~= self.environment());
        env
    }
}

/// What stands in front of a relative name in a path below `base`: `base`
/// itself, closed by a separator unless it is empty or ends in one.
pub open spec fn opened(base: Seq<char>) -> Seq<char> {
    if base.len() == 0 || base.last() == '/' {
        base
    } else {
        base + seq!['/']
    }
}

/// A name that holds no separator follows the opened base as it is.
pub proof fn lemma_joined_relative(base: Seq<char>, name: Seq<char>)
    requires
        !name.contains('/'),
    ensures
        joined_path(base, name) == opened(base) + name,
{
    if name.len() > 0 {
        assert(name.contains(name[0]));
    }
    assert(joined_path(base, name) =~= opened(base) + name);
}

/// Two texts that follow the same text are equal where the wholes are.
proof fn lemma_same_front(front: Seq<char>, a: Seq<char>, b: Seq<char>)
    requires
        front + a == front + b,
    ensures
        a == b,
{
    assert((front + a).len() == front.len() + a.len());
    assert((front + b).len() == front.len() + b.len());
    assert forall|i: int| 0 <= i < a.len() implies a[i] == b[i] by {
        assert((front + a)[front.len() + i] == a[i]);
        assert((front + b)[front.len() + i] == b[i]);
    }
    assert(a =~= b);
}

/// Below one directory, entries with different names, neither holding a
/// separator, have different paths.
pub proof fn lemma_join_is_injective(base: Seq<char>, a: Seq<char>, b: Seq<char>)
    requires
        !a.contains('/'),
        !b.contains('/'),
        joined_path(base, a) == joined_path(base, b),
    ensures
        a == b,
{
    lemma_joined_relative(base, a);
    lemma_joined_relative(base, b);
    lemma_same_front(opened(base), a, b);
}

/// The same file name, below the directories of two different namespaces
/// in one cache directory, gives two different paths.
pub proof fn lemma_session_files_differ(
    cache: Seq<char>,
    a: Seq<char>,
    b: Seq<char>,
    name: Seq<char>,
)
    requires
        !a.contains('/'),
        !b.contains('/'),
        a != b,
        !name.contains('/'),
        name.len() > 0,
    ensures
        joined_path(joined_path(cache, a), name) != joined_path(joined_path(cache, b), name),
{
    let front = opened(cache);
    let da = joined_path(cache, a);
    let db = joined_path(cache, b);
    lemma_joined_relative(cache, a);
    lemma_joined_relative(cache, b);
    lemma_joined_relative(da, name);
    lemma_joined_relative(db, name);
    // The directory of a namespace, opened: the front, the namespace, and a
    // separator after a namespace that is not empty.
    let ta = if a.len() == 0 {
        a
    } else {
        a + seq!['/']
    };
    let tb = if b.len() == 0 {
        b
    } else {
        b + seq!['/']
    };
    assert(opened(da) =~= front + ta) by {
        if a.len() > 0 {
            assert(a.contains(a.last()));
            assert(da.last() == a.last());
        } else {
            assert(da =~= front);
        }
    }
    assert(opened(db) =~= front + tb) by {
        if b.len() > 0 {
            assert(b.contains(b.last()));
            assert(db.last() == b.last());
        } else {
            assert(db =~= front);
        }
    }
    if opened(da) + name == opened(db) + name {
        assert(front + (ta + name) =~= front + ta + name);
        assert(front + (tb + name) =~= front + tb + name);
        lemma_same_front(front, ta + name, tb + name);
        let wa = ta + name;
        let wb = tb + name;
        assert(wa.len() == wb.len());
        if a.len() == 0 || b.len() == 0 {
            // Only one of the two is empty, so one text is the longer one.
            if a.len() == b.len() {
                assert(a =~= b);
            }
            assert(false);
        } else {
            assert(a.len() == b.len());
            assert forall|i: int| 0 <= i < a.len() implies a[i] == b[i] by {
                assert(wa[i] == a[i]);
                assert(wb[i] == b[i]);
            }
            assert(a =~= b);
        }
    }
}

/// Projects with different namespaces are kept apart: in one cache
/// directory their sessions share the lock file and nothing else.
pub proof fn lemma_sessions_are_isolated(
    first: Session,
    second: Session,
    cache: Seq<char>,
    a: Seq<char>,
    b: Seq<char>,
)
    requires
        first.is_session_of(cache, a),
        second.is_session_of(cache, b),
        namespace_of(a) != namespace_of(b),
    ensures
        first.lock@ == second.lock@,
        first.dir@ != second.dir@,
        first.token@ != second.token@,
        first.port@ != second.port@,
        first.stdin@ != second.stdin@,
        first.status@ != second.status@,
{
    let na = namespace_of(a);
    let nb = namespace_of(b);
    lemma_namespace_is_one_segment(a);
    lemma_namespace_is_one_segment(b);
    if first.dir@ == second.dir@ {
        lemma_join_is_injective(cache, na, nb);
    }
    reveal_strlit("token");
    reveal_strlit("port");
    reveal_strlit("stdin");
    reveal_strlit("status");
    lemma_no_separator("token"@);
    lemma_no_separator("port"@);
    lemma_no_separator("stdin"@);
    lemma_no_separator("status"@);
    lemma_session_files_differ(cache, na, nb, "token"@);
    lemma_session_files_differ(cache, na, nb, "port"@);
    lemma_session_files_differ(cache, na, nb, "stdin"@);
    lemma_session_files_differ(cache, na, nb, "status"@);
}

/// A text whose characters all differ from the separator does not contain
/// it.
proof fn lemma_no_separator(name: Seq<char>)
    requires
        forall|i: int| 0 <= i < name.len() ==> name[i] != '/',
    ensures
        !name.contains('/'),
{
}

} // verus!
