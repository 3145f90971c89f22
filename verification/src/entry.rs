//! Entry state: which document is the active compilation root.
//!
//! An entry names an optional project root and an optional main document.
//! A requested main path must be absolute (here: rooted at the path
//! separator) or use the reserved untitled scheme; anything else fails
//! validation before any state is touched. An entry without a main
//! document is inactive: compilation has nothing to build and diagnostics
//! for it are suppressed.

use vstd::prelude::*;

verus! {

/// The reserved pseudo-root for documents that exist only in memory.
pub const UNTITLED_ROOT: &'static str = "/untitled";

/// View of an optional owned string as an optional character sequence.
pub open spec fn opt_view(o: Option<String>) -> Option<Seq<char>> {
    match o {
        Some(s) => Some(s@),
        None => None,
    }
}

/// A path is absolute when it is rooted at the path separator.
pub open spec fn is_absolute_path(s: Seq<char>) -> bool {
    s.len() > 0 && s[0] == '/'
}

/// A path uses the untitled scheme when it begins with the reserved root.
pub open spec fn is_untitled_path(s: Seq<char>) -> bool {
    UNTITLED_ROOT@.is_prefix_of(s)
}

/// A requested entry path is accepted when it is absolute or untitled.
pub open spec fn is_valid_entry_path(s: Seq<char>) -> bool {
    is_absolute_path(s) || is_untitled_path(s)
}

/// A requested entry is accepted when it names no path, or a valid one.
pub open spec fn requested_valid(path: Option<Seq<char>>) -> bool {
    match path {
        Some(p) => is_valid_entry_path(p),
        None => true,
    }
}

/// The untitled scheme itself begins with the separator, so an untitled
/// path is in particular absolute.
pub proof fn lemma_untitled_is_absolute(s: Seq<char>)
    requires
        is_untitled_path(s),
    ensures
        is_absolute_path(s),
{
    reveal_strlit("/untitled");
    assert(UNTITLED_ROOT@[0] == '/');
    assert(s[0] == UNTITLED_ROOT@[0]);
}

/// Decides `is_valid_entry_path` for a requested path.
pub fn check_entry_path(p: &String) -> (r: bool)
    ensures
        r == is_valid_entry_path(p@),
{
    let n = p.as_str().unicode_len();
    if n == 0 {
        proof {
            if is_untitled_path(p@) {
                lemma_untitled_is_absolute(p@);
            }
        }
        return false;
    }
    let rooted = p.as_str().get_char(0) == '/';
    proof {
        if !rooted && is_untitled_path(p@) {
            lemma_untitled_is_absolute(p@);
        }
    }
    rooted
}

/// Index of the last path separator in `s`, or -1 when there is none.
pub open spec fn last_slash(s: Seq<char>) -> int
    decreases s.len(),
{
    if s.len() == 0 {
        -1
    } else if s[s.len() - 1] == '/' {
        s.len() - 1
    } else {
        last_slash(s.drop_last())
    }
}

/// `last_slash` points at a separator and nothing after it is one.
pub proof fn lemma_last_slash(s: Seq<char>)
    ensures
        -1 <= last_slash(s) < s.len(),
        last_slash(s) >= 0 ==> s[last_slash(s)] == '/',
        forall|j: int| last_slash(s) < j < s.len() ==> s[j] != '/',
    decreases s.len(),
{
    if s.len() == 0 {
    } else if s[s.len() - 1] == '/' {
    } else {
        lemma_last_slash(s.drop_last());
        assert(forall|j: int| 0 <= j < s.len() - 1 ==> s[j] == s.drop_last()[j]);
    }
}

/// The directory part of a path: everything before the last separator,
/// keeping the root itself when the separator is the first character.
/// A path without a separator has an empty directory part.
pub open spec fn parent_dir_spec(s: Seq<char>) -> Seq<char> {
    let i = last_slash(s);
    if i < 0 {
        Seq::<char>::empty()
    } else if i == 0 {
        s.subrange(0, 1)
    } else {
        s.subrange(0, i)
    }
}

/// Computes the directory part of a path.
pub fn parent_dir(p: &String) -> (r: String)
    ensures
        r@ == parent_dir_spec(p@),
{
    let n = p.as_str().unicode_len();
    let mut i = n;
    while i > 0
        invariant
            i <= n,
            n == p@.len(),
            forall|j: int| i <= j < n ==> p@[j] != '/',
        decreases i,
    {
        let c = p.as_str().get_char(i - 1);
        if c == '/' {
            proof {
                lemma_last_slash(p@);
                // the separator at i - 1 with none after it is the last one
                assert(last_slash(p@) == i - 1) by {
                    if last_slash(p@) > i - 1 {
                        assert(p@[last_slash(p@)] != '/');
                    }
                    if last_slash(p@) < i - 1 {
                        assert(p@[i - 1] != '/');
                    }
                }
            }
            let k: usize = if i - 1 == 0 {
                1
            } else {
                i - 1
            };
            let part = p.as_str().substring_char(0, k);
            return part.to_owned();
        }
        i = i - 1;
    }
    proof {
        lemma_last_slash(p@);
        assert(last_slash(p@) == -1) by {
            if last_slash(p@) >= 0 {
                assert(p@[last_slash(p@)] != '/');
            }
        }
    }
    String::new()
}

/// Identifies the active root document and its project root.
pub struct EntryState {
    /// The project root directory, when one is known.
    pub root: Option<String>,
    /// The active main document; `None` means no document is active.
    pub main: Option<String>,
}

/// Mathematical view of an entry state.
pub struct EntryStateV {
    pub root: Option<Seq<char>>,
    pub main: Option<Seq<char>>,
}

impl View for EntryState {
    type V = EntryStateV;

    open spec fn view(&self) -> EntryStateV {
        EntryStateV {
            root: match self.root {
                Some(r) => Some(r@),
                None => None,
            },
            main: match self.main {
                Some(m) => Some(m@),
                None => None,
            },
        }
    }
}

/// An entry is inactive when no main document is active.
pub open spec fn is_inactive_spec(e: EntryStateV) -> bool {
    e.main is None
}

/// Decides whether an entry has no resolvable main document.
pub fn is_inactive(e: &EntryState) -> (r: bool)
    ensures
        r == is_inactive_spec(e@),
{
    e.main.is_none()
}

pub fn opt_string_clone(o: &Option<String>) -> (r: Option<String>)
    ensures
        r == *o,
{
    match o {
        Some(s) => Some(s.clone()),
        None => None,
    }
}

fn opt_string_eq(a: &Option<String>, b: &Option<String>) -> (r: bool)
    ensures
        r == (opt_view(*a) == opt_view(*b)),
{
    match a {
        Some(x) => match b {
            Some(y) => x.eq(y),
            None => false,
        },
        None => b.is_none(),
    }
}

impl EntryState {
    /// An entry with neither root nor main document.
    pub fn detached() -> (e: EntryState)
        ensures
            e@ == (EntryStateV { root: None, main: None }),
    {
        EntryState { root: None, main: None }
    }

    /// A copy with the same root and main document.
    pub fn duplicate(&self) -> (e: EntryState)
        ensures
            e == *self,
    {
        EntryState { root: opt_string_clone(&self.root), main: opt_string_clone(&self.main) }
    }

    /// Equality of entry states, as the change protocol compares them.
    pub fn same_as(&self, other: &EntryState) -> (r: bool)
        ensures
            r == (self@ == other@),
    {
        let roots = opt_string_eq(&self.root, &other.root);
        let mains = opt_string_eq(&self.main, &other.main);
        roots && mains
    }
}

/// Configuration from which the next entry state is computed.
pub struct CompileConfig {
    /// A configured project root; when absent, the root of a concrete
    /// entry is the directory of its main document.
    pub root_path: Option<String>,
}

/// Mathematical view of a configuration.
pub struct CompileConfigV {
    pub root_path: Option<Seq<char>>,
}

impl View for CompileConfig {
    type V = CompileConfigV;

    open spec fn view(&self) -> CompileConfigV {
        CompileConfigV {
            root_path: match self.root_path {
                Some(r) => Some(r@),
                None => None,
            },
        }
    }
}

/// The next entry state for a requested path under a configuration: no
/// path gives an entry without a main document; a concrete path becomes
/// the main document, rooted at the configured root when one is set and
/// at the document's directory otherwise.
pub open spec fn determine_entry_spec(c: CompileConfigV, p: Option<Seq<char>>) -> EntryStateV {
    match p {
        None => EntryStateV { root: c.root_path, main: None },
        Some(m) => EntryStateV {
            root: match c.root_path {
                Some(r) => Some(r),
                None => Some(parent_dir_spec(m)),
            },
            main: Some(m),
        },
    }
}

impl CompileConfig {
    /// Computes the next entry state for a requested path.
    pub fn determine_entry(&self, path: Option<String>) -> (e: EntryState)
        ensures
            e@ == determine_entry_spec(self@, opt_view(path)),
    {
        match path {
            None => EntryState { root: opt_string_clone(&self.root_path), main: None },
            Some(m) => {
                let root = match &self.root_path {
                    Some(r) => Some(r.clone()),
                    None => Some(parent_dir(&m)),
                };
                EntryState { root, main: Some(m) }
            },
        }
    }

    /// A copy with the same configured root.
    pub fn duplicate(&self) -> (c: CompileConfig)
        ensures
            c == *self,
    {
        CompileConfig { root_path: opt_string_clone(&self.root_path) }
    }
}

} // verus!
