//! The saved session and where it is kept.

use vstd::prelude::*;

verus! {

/// What the client keeps of a logged-in session.
#[derive(Debug, Clone)]
pub struct SessionConfig {
    pub username: Option<String>,
    pub session_id: Option<String>,
    pub csrf_token: Option<String>,
    pub user_id: Option<String>,
    pub cookies: Option<String>,
}

/// The characters of an optional string.
pub open spec fn opt_view(o: Option<String>) -> Option<Seq<char>> {
    match o {
        Some(s) => Some(s@),
        None => None,
    }
}

/// The characters of a `SessionConfig`.
pub struct SessionSummary {
    pub username: Option<Seq<char>>,
    pub session_id: Option<Seq<char>>,
    pub csrf_token: Option<Seq<char>>,
    pub user_id: Option<Seq<char>>,
    pub cookies: Option<Seq<char>>,
}

impl View for SessionConfig {
    type V = SessionSummary;

    open spec fn view(&self) -> SessionSummary {
        SessionSummary {
            username: opt_view(self.username),
            session_id: opt_view(self.session_id),
            csrf_token: opt_view(self.csrf_token),
            user_id: opt_view(self.user_id),
            cookies: opt_view(self.cookies),
        }
    }
}

impl Default for SessionConfig {
    /// A session with nothing known.
    fn default() -> (s: Self)
        ensures
            s.username is None,
            s.session_id is None,
            s.csrf_token is None,
            s.user_id is None,
            s.cookies is None,
    {
        SessionConfig { username: None, session_id: None, csrf_token: None, user_id: None, cookies: None }
    }
}

/// A session with nothing known.
pub open spec fn empty_session(s: SessionConfig) -> bool {
    &&& s.username is None
    &&& s.session_id is None
    &&& s.csrf_token is None
    &&& s.user_id is None
    &&& s.cookies is None
}

/// The session to resume at start-up: a saved session counts only when it
/// holds a session id.
pub fn restore_session(saved: Option<SessionConfig>) -> (r: Option<SessionConfig>)
    ensures
        r == (match saved {
            Some(s) => if s.session_id is Some { Some(s) } else { None },
            None => None,
        }),
{
    match saved {
        Some(s) => if s.session_id.is_some() { Some(s) } else { None },
        None => None,
    }
}

/// The directory where the session file is kept, as the bytes of its path.
pub struct ConfigStore {
    pub config_dir: Vec<u8>,
}

/// `dir.join(name)` for a relative `name` on Unix: a `/` goes between them
/// unless `dir` is empty or already ends with one.
pub open spec fn path_join(dir: Seq<u8>, name: Seq<u8>) -> Seq<u8> {
    if dir.len() > 0 && dir.last() != 0x2f {
        dir.push(0x2f) + name
    } else {
        dir + name
    }
}

/// The bytes of `session.json`.
pub open spec fn session_file_name() -> Seq<u8> {
    seq![0x73u8, 0x65, 0x73, 0x73, 0x69, 0x6f, 0x6e, 0x2e, 0x6a, 0x73, 0x6f, 0x6e]
}

impl ConfigStore {
    /// A store kept in the given directory.
    pub fn new(config_dir: Vec<u8>) -> (s: Self)
        ensures
            s.config_dir@ == config_dir@,
    {
        ConfigStore { config_dir }
    }

    /// The path of the session file: `session.json` in the store's directory.
    pub fn session_path(&self) -> (p: Vec<u8>)
        ensures
            p@ == path_join(self.config_dir@, session_file_name()),
    {
        let mut p: Vec<u8> = Vec::new();
        let n = self.config_dir.len();
        let mut i: usize = 0;
        while i < n
            invariant
                n == self.config_dir@.len(),
                i <= n,
                p@ == self.config_dir@.take(i as int),
            decreases n - i,
        {
            p.push(self.config_dir[i]);
            i = i + 1;
            assert(p@ =~= self.config_dir@.take(i as int));
        }
        assert(self.config_dir@.take(n as int) =~= self.config_dir@);
        if n > 0 && self.config_dir[n - 1] != 0x2f {
            p.push(0x2f);
        }
        let name: [u8; 12] = [0x73, 0x65, 0x73, 0x73, 0x69, 0x6f, 0x6e, 0x2e, 0x6a, 0x73, 0x6f, 0x6e];
        let ghost start = p@;
        let mut k: usize = 0;
        while k < 12
            invariant
                k <= 12,
                name@ == session_file_name(),
                p@ == start + session_file_name().take(k as int),
            decreases 12 - k,
        {
            p.push(name[k]);
            k = k + 1;
            assert(p@ =~= start + session_file_name().take(k as int));
        }
        assert(session_file_name().take(12) =~= session_file_name());
        p
    }
}

} // verus!
