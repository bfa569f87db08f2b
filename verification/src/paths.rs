//! A UTF-8 path value and the few path operations the launch logic needs.
//!
//! A path is modelled as its character sequence. The operations follow the
//! usual Unix conventions: a path is absolute when it starts with `/`, joining
//! an absolute child replaces the base, and the file name is the part after
//! the last separator. Callers that work with real directories canonicalize
//! paths before handing them in, so these simple rules match what the
//! filesystem would do.

use vstd::prelude::*;
use vstd::string::*;

verus! {

/// True when the path begins with a separator.
pub open spec fn spec_is_absolute(s: Seq<char>) -> bool {
    s.len() > 0 && s[0] == '/'
}

/// The character sequence of `base` extended with child `child`:
/// an absolute child replaces the base, otherwise the two are joined
/// with exactly one separator between them.
pub open spec fn spec_join(base: Seq<char>, child: Seq<char>) -> Seq<char> {
    if spec_is_absolute(child) {
        child
    } else if base.len() == 0 {
        child
    } else if base[base.len() - 1] == '/' {
        base + child
    } else {
        base + seq!['/'] + child
    }
}

/// The characters after the last separator of `s`; empty when `s` is empty
/// or ends with a separator.
pub open spec fn spec_after_last_slash(s: Seq<char>) -> Seq<char>
    decreases s.len(),
{
    if s.len() == 0 {
        Seq::empty()
    } else if s[s.len() - 1] == '/' {
        Seq::empty()
    } else {
        spec_after_last_slash(s.drop_last()).push(s[s.len() - 1])
    }
}

/// The file name of `s`: the non-empty part after the last separator,
/// or nothing when the path is empty or ends with a separator.
pub open spec fn spec_file_name(s: Seq<char>) -> Option<Seq<char>> {
    if spec_after_last_slash(s).len() == 0 {
        None
    } else {
        Some(spec_after_last_slash(s))
    }
}

/// A UTF-8 path, viewed as its character sequence.
#[derive(Debug, PartialEq)]
pub struct EmuPath {
    inner: String,
}

impl View for EmuPath {
    type V = Seq<char>;

    closed spec fn view(&self) -> Seq<char> {
        self.inner@
    }
}

impl Clone for EmuPath {
    fn clone(&self) -> (r: Self)
        ensures
            r@ == self@,
    {
        EmuPath { inner: self.inner.clone() }
    }
}

impl EmuPath {
    /// Wraps an owned string as a path.
    pub fn from_string(s: String) -> (r: Self)
        ensures
            r@ == s@,
    {
        EmuPath { inner: s }
    }

    /// Copies a string slice into a new path.
    pub fn from_str_ref(s: &str) -> (r: Self)
        ensures
            r@ == s@,
    {
        EmuPath { inner: s.to_owned() }
    }

    /// The path as a string slice.
    pub fn as_str(&self) -> (r: &str)
        ensures
            r@ == self@,
    {
        self.inner.as_str()
    }

    /// The path as an owned string.
    pub fn into_string(self) -> (r: String)
        ensures
            r@ == self@,
    {
        self.inner
    }

    /// Whether the path begins with a separator.
    pub fn is_absolute(&self) -> (r: bool)
        ensures
            r == spec_is_absolute(self@),
    {
        let s = self.inner.as_str();
        if s.unicode_len() == 0 {
            false
        } else {
            s.get_char(0) == '/'
        }
    }

    /// The path extended with `child`; an absolute child replaces the base.
    pub fn join(&self, child: &str) -> (r: EmuPath)
        ensures
            r@ == spec_join(self@, child@),
    {
        let child_len = child.unicode_len();
        let child_abs = child_len > 0 && child.get_char(0) == '/';
        if child_abs {
            EmuPath { inner: child.to_owned() }
        } else {
            let base = self.inner.as_str();
            let base_len = base.unicode_len();
            if base_len == 0 {
                EmuPath { inner: child.to_owned() }
            } else if base.get_char(base_len - 1) == '/' {
                let mut out = self.inner.clone();
                out.append(child);
                EmuPath { inner: out }
            } else {
                let mut out = self.inner.clone();
                out.append("/");
                out.append(child);
                proof {
                    reveal_strlit("/");
                    assert(out@ =~= self@ + seq!['/'] + child@);
                }
                EmuPath { inner: out }
            }
        }
    }

    /// The file name of the path, when it has one.
    pub fn file_name(&self) -> (r: Option<String>)
        ensures
            match r {
                Some(n) => spec_file_name(self@) matches Some(m) && n@ == m,
                None => spec_file_name(self@) is None,
            },
    {
        let s = self.inner.as_str();
        let len = s.unicode_len();
        let mut i: usize = len;
        while i > 0 && s.get_char(i - 1) != '/'
            invariant
                i <= len,
                len == s@.len(),
                s@ == self@,
                forall|j: int| i <= j < s@.len() ==> s@[j] != '/',
            decreases i,
        {
            i = i - 1;
        }
        proof {
            lemma_after_last_slash_is_suffix(self@, i as int);
        }
        if i == len {
            None
        } else {
            let tail = s.substring_char(i, len);
            Some(tail.to_owned())
        }
    }

    /// The file name of a path known to have one.
    pub fn file_name_present(&self) -> (r: String)
        requires
            spec_file_name(self@) is Some,
        ensures
            r@ == spec_file_name(self@)->Some_0,
    {
        match self.file_name() {
            Some(n) => n,
            None => String::new(),
        }
    }
}

/// The view of an optional path.
pub open spec fn opt_path_view(o: Option<EmuPath>) -> Option<Seq<char>> {
    match o {
        Option::Some(p) => Option::Some(p@),
        Option::None => Option::None,
    }
}

/// When every character from `i` on differs from the separator and `i` is
/// either the start of the path or just after a separator, the part after the
/// last separator is exactly the suffix starting at `i`.
proof fn lemma_after_last_slash_is_suffix(s: Seq<char>, i: int)
    requires
        0 <= i <= s.len(),
        forall|j: int| i <= j < s.len() ==> s[j] != '/',
        i == 0 || s[i - 1] == '/',
    ensures
        spec_after_last_slash(s) == s.subrange(i, s.len() as int),
    decreases s.len(),
{
    if i == s.len() {
        assert(s.subrange(i, s.len() as int) =~= Seq::empty());
        if s.len() > 0 {
            assert(s[s.len() - 1] == '/');
        }
    } else {
        assert(s[s.len() - 1] != '/');
        let t = s.drop_last();
        assert(forall|j: int| i <= j < t.len() ==> t[j] == s[j]);
        lemma_after_last_slash_is_suffix(t, i);
        assert(spec_after_last_slash(s) == t.subrange(i, t.len() as int).push(s[s.len() - 1]));
        assert(t.subrange(i, t.len() as int).push(s[s.len() - 1]) =~= s.subrange(
            i,
            s.len() as int,
        ));
    }
}

} // verus!
