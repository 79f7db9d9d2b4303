//! Capture sessions: unique session identifiers and the paths of the
//! files a session writes.  Creating and removing the directories is the
//! caller's concern; the naming rules live here.

use vstd::prelude::*;

use vstd::string::StringExecFns;
use crate::clock::utc_millis;
use crate::clock::utc_timestamp_compact;
use crate::config::DEFAULT_SESSION_DIR;
use crate::text::push_dec;
use crate::text::spec_dec;

verus! {

/// How one character is sanitized for use in a file name: letters, digits,
/// dashes and underscores stay; everything else becomes an underscore.
pub open spec fn spec_sanitize_char(c: char) -> char {
    if ('a' <= c && c <= 'z') || ('A' <= c && c <= 'Z') || ('0' <= c && c <= '9') || c == '-'
        || c == '_' {
        c
    } else {
        '_'
    }
}

/// A name sanitized for use in a file name.
pub open spec fn spec_sanitize(s: Seq<char>) -> Seq<char> {
    Seq::new(s.len(), |i: int| spec_sanitize_char(s[i]))
}

/// Sanitize a name for use in file names.
pub fn sanitize_name(name: &str) -> (r: String)
    ensures
        r@ == spec_sanitize(name@),
{
    let n = name.unicode_len();
    let mut r = String::new();
    let mut i: usize = 0;
    while i < n
        invariant
            n == name@.len(),
            0 <= i <= n,
            r@ =~= spec_sanitize(name@).take(i as int),
        decreases n - i,
    {
        let c = name.get_char(i);
        let kept: char = if (c >= 'a' && c <= 'z') || (c >= 'A' && c <= 'Z') || (c >= '0' && c
            <= '9') || c == '-' || c == '_' {
            c
        } else {
            '_'
        };
        r.push(kept);
        i = i + 1;
        proof {
            assert(r@ =~= spec_sanitize(name@).take(i as int));
        }
    }
    proof {
        assert(spec_sanitize(name@).take(n as int) =~= spec_sanitize(name@));
    }
    r
}

/// A capture session: a unique identifier, the directory its files live
/// in, and whether they outlive the session.
#[derive(Debug, Clone)]
pub struct Session {
    /// Unique session identifier.
    pub id: String,
    /// Root directory of this session.
    pub dir: String,
    /// Whether files are kept after the session ends.
    pub keep: bool,
    /// The terminal size used for this session, if any.
    pub terminal_size: Option<(u16, u16)>,
}

/// A fresh identifier built from the clock.
fn generate_session_id() -> (id: String)
    ensures
        exists|m: int| 0 <= m && id@ == "session_"@ + spec_dec(m),
{
    let millis = utc_millis();
    let m: u64 = if millis < 0 {
        0
    } else {
        millis as u64
    };
    let mut id = "session_".to_owned();
    push_dec(&mut id, m);
    proof {
        assert(id@ == "session_"@ + spec_dec(m as int));
    }
    id
}

impl Session {
    /// A new session with a unique identifier under the session base
    /// directory, cleaned up by default.
    pub fn new() -> (s: Session)
        ensures
            exists|m: int| 0 <= m && s.id@ == "session_"@ + spec_dec(m),
            s.dir@ == DEFAULT_SESSION_DIR@ + "/"@ + s.id@,
            !s.keep,
            s.terminal_size is None,
    {
        let id = generate_session_id();
        let dir = DEFAULT_SESSION_DIR.to_owned().concat("/").concat(id.as_str());
        proof {
            assert(dir@ == DEFAULT_SESSION_DIR@ + "/"@ + id@);
        }
        Session { id, dir, keep: false, terminal_size: None }
    }

    /// A session whose identifier begins with the sanitized name, a
    /// timestamp appended.
    pub fn with_name(name: &str) -> (s: Session)
        ensures
            exists|suffix: Seq<char>|
                s.id@ == spec_sanitize(name@) + "_"@ + suffix,
            s.dir@ == DEFAULT_SESSION_DIR@ + "/"@ + s.id@,
            !s.keep,
            s.terminal_size is None,
    {
        let stamp = utc_timestamp_compact();
        let id = sanitize_name(name).concat("_").concat(stamp.as_str());
        let dir = DEFAULT_SESSION_DIR.to_owned().concat("/").concat(id.as_str());
        proof {
            assert(id@ == spec_sanitize(name@) + "_"@ + stamp@);
            assert(dir@ == DEFAULT_SESSION_DIR@ + "/"@ + id@);
        }
        Session { id, dir, keep: false, terminal_size: None }
    }

    /// A session over an explicit directory, kept by default; the
    /// identifier is the directory's last path component, or a fresh one
    /// when the path has none.
    pub fn in_dir(dir: &str) -> (s: Session)
        ensures
            s.dir@ == dir@,
            s.keep,
            s.terminal_size is None,
    {
        let n = dir.unicode_len();
        let mut end: usize = n;
        while end > 0 && dir.get_char(end - 1) == '/'
            invariant
                n == dir@.len(),
                0 <= end <= n,
            decreases end,
        {
            end = end - 1;
        }
        let mut start: usize = end;
        while start > 0 && dir.get_char(start - 1) != '/'
            invariant
                n == dir@.len(),
                0 <= start <= end <= n,
            decreases start,
        {
            start = start - 1;
        }
        let id = if start < end {
            dir.substring_char(start, end).to_owned()
        } else {
            generate_session_id()
        };
        Session { id, dir: dir.to_owned(), keep: true, terminal_size: None }
    }

    /// Set whether files are kept after the session ends.
    pub fn keep(self, keep: bool) -> (s: Session)
        ensures
            s.keep == keep,
            s.id == self.id,
            s.dir == self.dir,
            s.terminal_size == self.terminal_size,
    {
        let mut s = self;
        s.keep = keep;
        s
    }

    /// Record the terminal size used by this session.
    pub fn with_terminal_size(self, cols: u16, rows: u16) -> (s: Session)
        ensures
            s.terminal_size == Some((cols, rows)),
            s.id == self.id,
            s.dir == self.dir,
            s.keep == self.keep,
    {
        let mut s = self;
        s.terminal_size = Some((cols, rows));
        s
    }

    /// The path of the capture file for one step: `state_0_initial.png`
    /// for the initial state, else `state_<step>[_<input>].png` with the
    /// input sanitized.
    pub fn state_path(&self, step: usize, input: Option<&str>) -> (p: String)
        ensures
            p@ == self.dir@ + "/"@ + spec_state_file(step as int, match input {
                Some(s) => Some(s@),
                None => None,
            }),
    {
        let mut name = String::new();
        if step == 0 {
            name.append("state_0_initial.png");
        } else {
            name.append("state_");
            push_dec(&mut name, step as u64);
            match input {
                Some(s) => {
                    name.append("_");
                    let cleaned = sanitize_name(s);
                    name.append(cleaned.as_str());
                },
                None => {},
            }
            name.append(".png");
        }
        proof {
            assert(name@ == spec_state_file(step as int, match input {
                Some(s) => Some(s@),
                None => None,
            }));
        }
        let p = self.dir.clone().concat("/").concat(name.as_str());
        proof {
            assert(p@ == self.dir@ + "/"@ + name@);
        }
        p
    }

    /// The path of a single named capture file.
    pub fn capture_path(&self, name: &str) -> (p: String)
        ensures
            p@ == self.dir@ + "/"@ + spec_sanitize(name@) + ".png"@,
    {
        let cleaned = sanitize_name(name);
        let file = cleaned.concat(".png");
        let p = self.dir.clone().concat("/").concat(file.as_str());
        proof {
            assert(p@ == self.dir@ + "/"@ + spec_sanitize(name@) + ".png"@);
        }
        p
    }

    /// The subdirectory for captures at one terminal size, named `WxH`.
    pub fn size_subdir(&self, cols: u16, rows: u16) -> (p: String)
        ensures
            p@ == self.dir@ + "/"@ + spec_dec(cols as int) + "x"@ + spec_dec(rows as int),
    {
        let mut name = String::new();
        push_dec(&mut name, cols as u64);
        name.append("x");
        push_dec(&mut name, rows as u64);
        let p = self.dir.clone().concat("/").concat(name.as_str());
        proof {
            assert(p@ == self.dir@ + "/"@ + spec_dec(cols as int) + "x"@ + spec_dec(rows as int));
        }
        p
    }
}

/// The file name of one capture step.
pub open spec fn spec_state_file(step: int, input: Option<Seq<char>>) -> Seq<char> {
    if step == 0 {
        "state_0_initial.png"@
    } else {
        "state_"@ + spec_dec(step) + (match input {
            Some(s) => "_"@ + spec_sanitize(s),
            None => Seq::empty(),
        }) + ".png"@
    }
}

} // verus!
