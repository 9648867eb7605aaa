//! The sidecar descriptor: `key = value` lines naming the target program,
//! one extra argument, and an optional log file prefix.
use vstd::prelude::*;

verus! {

/// Unicode `White_Space`, the set that `char::is_whitespace` documents.
pub open spec fn is_ws(c: char) -> bool {
    let u = c as u32;
    (9 <= u <= 13) || u == 32 || u == 0x85 || u == 0xa0 || u == 0x1680 || (0x2000 <= u <= 0x200a)
        || u == 0x2028 || u == 0x2029 || u == 0x202f || u == 0x205f || u == 0x3000
}

pub open spec fn trim_start(s: Seq<char>) -> Seq<char>
    decreases s.len(),
{
    if s.len() > 0 && is_ws(s[0]) {
        trim_start(s.drop_first())
    } else {
        s
    }
}

pub open spec fn trim_end(s: Seq<char>) -> Seq<char>
    decreases s.len(),
{
    if s.len() > 0 && is_ws(s.last()) {
        trim_end(s.drop_last())
    } else {
        s
    }
}

/// Leading and trailing whitespace removed.
pub open spec fn trim(s: Seq<char>) -> Seq<char> {
    trim_end(trim_start(s))
}

/// One pair of surrounding double quotes removed, where there is one.
pub open spec fn unquote(s: Seq<char>) -> Seq<char> {
    if s.len() >= 2 && s[0] == '"' && s.last() == '"' {
        s.subrange(1, s.len() - 1)
    } else {
        s
    }
}

/// `i` is the position of the first `c` in `s`.
pub open spec fn is_first(s: Seq<char>, c: char, i: int) -> bool {
    0 <= i < s.len() && s[i] == c && forall|j: int| 0 <= j < i ==> s[j] != c
}

/// The key and the value of a line, split at its first `=`.
pub open spec fn entry_of(line: Seq<char>) -> Option<(Seq<char>, Seq<char>)> {
    if exists|i: int| is_first(line, '=', i) {
        let i = choose|i: int| is_first(line, '=', i);
        Some((trim(line.subrange(0, i)), unquote(trim(line.subrange(i + 1, line.len() as int)))))
    } else {
        None
    }
}

/// What a descriptor holds, as character sequences.
pub struct ConfigModel {
    pub path: Seq<char>,
    pub args: Option<Seq<char>>,
    pub log: Option<Seq<char>>,
}

pub open spec fn empty_model() -> ConfigModel {
    ConfigModel { path: Seq::empty(), args: None, log: None }
}

/// The effect of one line: a recognised key sets its field, anything else is ignored.
pub open spec fn apply_line(m: ConfigModel, line: Seq<char>) -> ConfigModel {
    match entry_of(line) {
        Some((k, v)) => if k == "path"@ {
            ConfigModel { path: v, ..m }
        } else if k == "args"@ {
            ConfigModel { args: Some(v), ..m }
        } else if k == "log"@ {
            ConfigModel { log: Some(v), ..m }
        } else {
            m
        },
        None => m,
    }
}

/// The descriptor that a sequence of lines describes; a later line wins.
pub open spec fn model_of_lines(lines: Seq<Seq<char>>) -> ConfigModel
    decreases lines.len(),
{
    if lines.len() == 0 {
        empty_model()
    } else {
        apply_line(model_of_lines(lines.drop_last()), lines.last())
    }
}

pub open spec fn string_views(v: Seq<String>) -> Seq<Seq<char>> {
    v.map_values(|s: String| s@)
}

pub proof fn lemma_string_views_push(v: Seq<String>, x: String)
    ensures
        string_views(v.push(x)) == string_views(v).push(x@),
{
    assert(string_views(v.push(x)) =~= string_views(v).push(x@));
}

pub open spec fn opt_view(o: Option<String>) -> Option<Seq<char>> {
    match o {
        Some(s) => Some(s@),
        None => None,
    }
}

/// The launch descriptor: the program to run, one extra argument, and the
/// prefix of the two log files.
pub struct ShimConfig {
    pub path: String,
    pub args: Option<String>,
    pub log: Option<String>,
}

impl View for ShimConfig {
    type V = ConfigModel;

    open spec fn view(&self) -> ConfigModel {
        ConfigModel { path: self.path@, args: opt_view(self.args), log: opt_view(self.log) }
    }
}

#[derive(Debug, PartialEq, Eq, Structural)]
pub enum ConfigError {
    /// No line of the descriptor sets a non-empty `path`.
    MissingPath,
}

fn is_ws_char(c: char) -> (r: bool)
    ensures
        r == is_ws(c),
{
    let u = c as u32;
    (9 <= u && u <= 13) || u == 32 || u == 0x85 || u == 0xa0 || u == 0x1680 || (0x2000 <= u && u
        <= 0x200a) || u == 0x2028 || u == 0x2029 || u == 0x202f || u == 0x205f || u == 0x3000
}

proof fn lemma_trim_start_step(s: Seq<char>, lo: int, hi: int)
    requires
        0 <= lo < hi <= s.len(),
        is_ws(s[lo]),
    ensures
        trim_start(s.subrange(lo, hi)) == trim_start(s.subrange(lo + 1, hi)),
{
    assert(s.subrange(lo, hi).drop_first() =~= s.subrange(lo + 1, hi));
}

proof fn lemma_trim_end_step(s: Seq<char>, lo: int, hi: int)
    requires
        0 <= lo < hi <= s.len(),
        is_ws(s[hi - 1]),
    ensures
        trim_end(s.subrange(lo, hi)) == trim_end(s.subrange(lo, hi - 1)),
{
    assert(s.subrange(lo, hi).drop_last() =~= s.subrange(lo, hi - 1));
}

/// The bounds of the trimmed part of `s[lo..hi]`.
fn trim_bounds(s: &str, lo: usize, hi: usize) -> (r: (usize, usize))
    requires
        lo <= hi <= s@.len(),
    ensures
        lo <= r.0 <= r.1 <= hi,
        s@.subrange(r.0 as int, r.1 as int) == trim(s@.subrange(lo as int, hi as int)),
{
    let mut a = lo;
    while a < hi && is_ws_char(s.get_char(a))
        invariant
            lo <= a <= hi <= s@.len(),
            trim_start(s@.subrange(lo as int, hi as int)) == trim_start(
                s@.subrange(a as int, hi as int),
            ),
        decreases hi - a,
    {
        proof {
            lemma_trim_start_step(s@, a as int, hi as int);
        }
        a = a + 1;
    }
    assert(trim_start(s@.subrange(a as int, hi as int)) == s@.subrange(a as int, hi as int));
    let mut b = hi;
    while b > a && is_ws_char(s.get_char(b - 1))
        invariant
            lo <= a <= b <= hi <= s@.len(),
            trim_end(s@.subrange(a as int, hi as int)) == trim_end(
                s@.subrange(a as int, b as int),
            ),
        decreases b - a,
    {
        proof {
            lemma_trim_end_step(s@, a as int, b as int);
        }
        b = b - 1;
    }
    (a, b)
}

/// The first `=` of `s`, if any.
fn find_eq(s: &str) -> (r: Option<usize>)
    ensures
        match r {
            Some(i) => is_first(s@, '=', i as int),
            None => !exists|i: int| is_first(s@, '=', i),
        },
{
    let n = s.unicode_len();
    let mut i: usize = 0;
    while i < n
        invariant
            n == s@.len(),
            i <= n,
            forall|j: int| 0 <= j < i ==> s@[j] != '=',
        decreases n - i,
    {
        if s.get_char(i) == '=' {
            return Some(i);
        }
        i = i + 1;
    }
    assert forall|k: int| !is_first(s@, '=', k) by {
        if 0 <= k < s@.len() {
            assert(s@[k] != '=');
        }
    }
    None
}

/// Whether `s[lo..hi]` spells `w`.
fn spells(s: &str, lo: usize, hi: usize, w: &str) -> (r: bool)
    requires
        lo <= hi <= s@.len(),
    ensures
        r == (s@.subrange(lo as int, hi as int) == w@),
{
    let n = w.unicode_len();
    if hi - lo != n {
        return false;
    }
    let mut i: usize = 0;
    while i < n
        invariant
            n == w@.len(),
            hi - lo == n,
            lo <= hi <= s@.len(),
            i <= n,
            forall|j: int| 0 <= j < i ==> s@[lo + j] == w@[j],
        decreases n - i,
    {
        if s.get_char(lo + i) != w.get_char(i) {
            assert(s@.subrange(lo as int, hi as int)[i as int] != w@[i as int]);
            return false;
        }
        i = i + 1;
    }
    assert(s@.subrange(lo as int, hi as int) =~= w@);
    true
}

impl ShimConfig {
    /// A descriptor with no fields set.
    pub fn empty() -> (r: ShimConfig)
        ensures
            r@ == empty_model(),
    {
        ShimConfig { path: String::new(), args: None, log: None }
    }

    /// Applies one line of the descriptor: a line without `=` and a line
    /// with an unknown key change nothing.
    pub fn apply_line(&mut self, line: &str)
        ensures
            final(self)@ == apply_line(old(self)@, line@),
    {
        let s = line;
        match find_eq(s) {
            None => {},
            Some(i) => {
                let n = s.unicode_len();
                let (ka, kb) = trim_bounds(s, 0, i);
                let (va, vb) = trim_bounds(s, i + 1, n);
                let (qa, qb) = if vb - va >= 2 && s.get_char(va) == '"' && s.get_char(vb - 1)
                    == '"' {
                    (va + 1, vb - 1)
                } else {
                    (va, vb)
                };
                let ghost key = s@.subrange(ka as int, kb as int);
                let ghost value = s@.subrange(qa as int, qb as int);
                proof {
                    let v = s@.subrange(va as int, vb as int);
                    if qa != va {
                        assert(v.subrange(1, v.len() - 1) =~= s@.subrange(va + 1, vb - 1));
                    }
                    assert(value == unquote(v));
                    assert(entry_of(s@) == Some((key, value)));
                }
                if spells(s, ka, kb, "path") {
                    self.path = String::from_str(s.substring_char(qa, qb));
                } else if spells(s, ka, kb, "args") {
                    self.args = Some(String::from_str(s.substring_char(qa, qb)));
                } else if spells(s, ka, kb, "log") {
                    self.log = Some(String::from_str(s.substring_char(qa, qb)));
                }
            },
        }
    }
}

/// Reads a descriptor from its lines; fails when no line sets a non-empty `path`.
pub fn parse_shim_config(lines: &Vec<String>) -> (r: Result<ShimConfig, ConfigError>)
    ensures
        match r {
            Ok(c) => c@ == model_of_lines(string_views(lines@)) && c@.path.len() > 0,
            Err(e) => e == ConfigError::MissingPath && model_of_lines(
                string_views(lines@),
            ).path.len() == 0,
        },
{
    let mut config = ShimConfig::empty();
    let mut i: usize = 0;
    while i < lines.len()
        invariant
            i <= lines@.len(),
            config@ == model_of_lines(string_views(lines@).subrange(0, i as int)),
        decreases lines.len() - i,
    {
        proof {
            let vs = string_views(lines@);
            assert(vs.subrange(0, i + 1).drop_last() =~= vs.subrange(0, i as int));
        }
        config.apply_line(lines[i].as_str());
        i = i + 1;
    }
    assert(string_views(lines@).subrange(0, lines@.len() as int) =~= string_views(lines@));
    if config.path.as_str().unicode_len() == 0 {
        Err(ConfigError::MissingPath)
    } else {
        Ok(config)
    }
}

} // verus!
