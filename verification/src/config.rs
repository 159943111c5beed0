//! The configuration value: an immutable snapshot of user-settable parameters
//! with a canonical textual form.
//!
//! The settings inside a configuration are opaque to the runtime core; it only
//! ever checks the structural envelope of the text (a single brace-delimited
//! object), keeps the text as the canonical serialization, and hands whole
//! snapshots around by value.

use vstd::prelude::*;
use vstd::string::StrSliceExecFns;
use vstd::string::StringExecFns;

verus! {

/// Brace depth of the first `i` characters of `s`: the number of opening
/// braces minus the number of closing braces seen so far.
pub open spec fn brace_depth(s: Seq<char>, i: int) -> int
    decreases i,
{
    if i <= 0 {
        0
    } else {
        brace_depth(s, i - 1) + if s[i - 1] == '{' {
            1
        } else if s[i - 1] == '}' {
            -1
        } else {
            0
        }
    }
}

/// A well-formed configuration text: a single brace-delimited object.  The
/// braces balance out exactly at the end, and every proper non-empty prefix is
/// still inside the object (depth at least one), so the text is one object and
/// not, say, two concatenated ones.
pub open spec fn valid_config_text(s: Seq<char>) -> bool {
    &&& s.len() >= 2
    &&& brace_depth(s, s.len() as int) == 0
    &&& forall|i: int| 0 < i < s.len() ==> brace_depth(s, i) >= 1
}

/// The canonical text of the default configuration: the empty object.
pub open spec fn default_text() -> Seq<char> {
    "{}"@
}

/// The default configuration text is well formed.
pub proof fn lemma_default_text_valid()
    ensures
        valid_config_text(default_text()),
{
    reveal_strlit("{}");
    let s = default_text();
    assert(s.len() == 2);
    assert(brace_depth(s, 0) == 0);
    assert(brace_depth(s, 1) == 1);
    assert(brace_depth(s, 2) == 0);
    assert forall|i: int| 0 < i < s.len() implies brace_depth(s, i) >= 1 by {
        assert(i == 1);
    }
}

/// Decides [`valid_config_text`] by a single left-to-right scan, keeping the
/// running brace depth.
fn text_is_valid(text: &str) -> (r: bool)
    ensures
        r == valid_config_text(text@),
{
    let n = text.unicode_len();
    if n < 2 {
        return false;
    }
    let mut depth: i128 = 0;
    let mut i: usize = 0;
    while i < n
        invariant
            2 <= n,
            n == text@.len(),
            i <= n,
            depth == brace_depth(text@, i as int),
            0 <= depth <= i,
            0 < i < n ==> depth >= 1,
            forall|j: int| 0 < j <= i && j < n ==> brace_depth(text@, j) >= 1,
        decreases n - i,
    {
        let c = text.get_char(i);
        let delta: i128 = if c == '{' {
            1
        } else if c == '}' {
            -1
        } else {
            0
        };
        depth = depth + delta;
        i = i + 1;
        proof {
            assert(depth == brace_depth(text@, i as int));
        }
        if i < n && depth < 1 {
            // Some proper prefix already left the object: the text cannot be a
            // single brace-delimited object.
            return false;
        }
    }
    depth == 0
}

/// An immutable configuration snapshot.  The held text is its canonical
/// serialization; it is well formed by construction.
pub struct Config {
    text: String,
}

impl View for Config {
    type V = Seq<char>;

    closed spec fn view(&self) -> Seq<char> {
        self.text@
    }
}

impl Config {
    /// Every configuration value carries a well-formed canonical text.
    pub open spec fn wf(&self) -> bool {
        valid_config_text(self@)
    }

    /// Parses a textual representation into a configuration value.  Returns
    /// `None` exactly when the text is not a single brace-delimited object;
    /// on success the canonical serialization is the given text itself.
    pub fn parse(text: &str) -> (r: Option<Config>)
        ensures
            r is Some <==> valid_config_text(text@),
            r is Some ==> r->Some_0@ == text@ && r->Some_0.wf(),
    {
        if text_is_valid(text) {
            Some(Config { text: text.to_owned() })
        } else {
            None
        }
    }

    /// Serializes the snapshot back to its canonical text.
    pub fn to_text(&self) -> (t: String)
        ensures
            t@ == self@,
    {
        self.text.clone()
    }
}

impl Default for Config {
    /// The default configuration: the empty object.
    fn default() -> (c: Config)
        ensures
            c@ == default_text(),
            c.wf(),
    {
        proof {
            lemma_default_text_valid();
        }
        Config { text: String::from_str("{}") }
    }
}

impl Clone for Config {
    /// Cloning preserves the canonical text.
    fn clone(&self) -> (c: Config)
        ensures
            c@ == self@,
    {
        Config { text: self.text.clone() }
    }
}

} // verus!
