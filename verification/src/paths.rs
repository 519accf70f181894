//! The on-disk naming conventions of a download: the temp-path layout
//! derived from a destination, and the filesystem-safe file name derived
//! from a URL.
use crate::strutil::push_char;
use crate::strutil::str_len;
use vstd::prelude::*;
use vstd::string::StrSliceExecFns;
use vstd::string::StringExecFns;

verus! {

/// Whether the file-name builder replaces `c` with an escape.
pub open spec fn is_escaped_char(c: char) -> bool {
    c == '\\' || c == '/' || c == ':' || c == 'x' || c == '?' || c == '"' || c == '<' || c == '>'
}

/// The three-character escape, `x` plus two upper-case hex digits of the
/// code point, that stands for an escaped character.
pub open spec fn escape_of(c: char) -> Seq<char> {
    if c == '\\' {
        "x5C"@
    } else if c == '/' {
        "x2F"@
    } else if c == ':' {
        "x3A"@
    } else if c == 'x' {
        "x78"@
    } else if c == '?' {
        "x3F"@
    } else if c == '"' {
        "x22"@
    } else if c == '<' {
        "x3C"@
    } else {
        "x3E"@
    }
}

/// How many bytes the UTF-8 encoding of `c` takes.
pub open spec fn char_utf8_len(c: char) -> nat {
    if (c as nat) < 0x80 {
        1
    } else if (c as nat) < 0x800 {
        2
    } else if (c as nat) < 0x10000 {
        3
    } else {
        4
    }
}

/// How many bytes the UTF-8 encoding of `s` takes.
pub open spec fn utf8_len(s: Seq<char>) -> nat
    decreases s.len(),
{
    if s.len() == 0 {
        0
    } else {
        utf8_len(s.drop_last()) + char_utf8_len(s.last())
    }
}

/// The byte length of a concatenation is the sum of the byte lengths.
pub proof fn lemma_utf8_len_append(s: Seq<char>, t: Seq<char>)
    ensures
        utf8_len(s + t) == utf8_len(s) + utf8_len(t),
    decreases t.len(),
{
    if t.len() == 0 {
        assert(s + t =~= s);
    } else {
        lemma_utf8_len_append(s, t.drop_last());
        assert((s + t).drop_last() =~= s + t.drop_last());
        assert((s + t).last() == t.last());
    }
}

/// How many bytes the UTF-8 encoding of `c` takes.
pub fn char_len_utf8(c: char) -> (r: usize)
    ensures
        r == char_utf8_len(c),
{
    let u = c as u32;
    if u < 0x80 {
        1
    } else if u < 0x800 {
        2
    } else if u < 0x10000 {
        3
    } else {
        4
    }
}

/// The file name built from `url[i..]` onto `acc`: path separators and
/// other unsafe characters become escapes, and building stops once the name
/// reaches 248 bytes.
pub open spec fn spec_file_name(url: Seq<char>, i: int, acc: Seq<char>) -> Seq<char>
    decreases url.len() - i,
{
    if i < 0 || i >= url.len() || utf8_len(acc) >= 248 {
        acc
    } else if is_escaped_char(url[i]) {
        spec_file_name(url, i + 1, acc + escape_of(url[i]))
    } else {
        spec_file_name(url, i + 1, acc.push(url[i]))
    }
}

/// Every escape is three ASCII characters, so three bytes.
proof fn lemma_escape_len(c: char)
    requires
        is_escaped_char(c),
    ensures
        utf8_len(escape_of(c)) == 3,
{
    reveal_strlit("x5C");
    reveal_strlit("x2F");
    reveal_strlit("x3A");
    reveal_strlit("x78");
    reveal_strlit("x3F");
    reveal_strlit("x22");
    reveal_strlit("x3C");
    reveal_strlit("x3E");
    let e = escape_of(c);
    assert(e.len() == 3);
    assert(utf8_len(Seq::<char>::empty()) == 0);
    assert(seq![e[0]].drop_last() =~= Seq::<char>::empty());
    assert(utf8_len(seq![e[0]]) == char_utf8_len(e[0]));
    assert(e.drop_last().drop_last() =~= seq![e[0]]);
    assert(e.drop_last().last() == e[1]);
    assert(utf8_len(e.drop_last()) == char_utf8_len(e[0]) + char_utf8_len(e[1]));
    assert(e.last() == e[2]);
    assert(utf8_len(e) == char_utf8_len(e[0]) + char_utf8_len(e[1]) + char_utf8_len(e[2]));
}

/// Derives a filesystem-safe file name from a URL: unsafe characters are
/// replaced by `x`-escapes, and the name is cut off at 248 bytes to stay
/// within path-length limits.
pub fn url_to_file_name(url: &str) -> (r: String)
    ensures
        r@ == spec_file_name(url@, 0, Seq::empty()),
{
    let n = str_len(url);
    let mut name = String::new();
    let mut len: usize = 0;
    let mut i: usize = 0;
    proof {
        assert(name@ =~= Seq::<char>::empty());
    }
    while i < n && len < 248
        invariant
            n == url@.len(),
            0 <= i <= n,
            len == utf8_len(name@),
            len < 252,
            spec_file_name(url@, i as int, name@) == spec_file_name(url@, 0, Seq::empty()),
        decreases n - i,
    {
        let c = crate::strutil::char_at(url, i);
        let ghost before = name@;
        if c == '\\' {
            name.append("x5C");
            len += 3;
        } else if c == '/' {
            name.append("x2F");
            len += 3;
        } else if c == ':' {
            name.append("x3A");
            len += 3;
        } else if c == 'x' {
            name.append("x78");
            len += 3;
        } else if c == '?' {
            name.append("x3F");
            len += 3;
        } else if c == '"' {
            name.append("x22");
            len += 3;
        } else if c == '<' {
            name.append("x3C");
            len += 3;
        } else if c == '>' {
            name.append("x3E");
            len += 3;
        } else {
            push_char(&mut name, c);
            len += char_len_utf8(c);
        }
        proof {
            if is_escaped_char(c) {
                lemma_escape_len(c);
                lemma_utf8_len_append(before, escape_of(c));
            } else {
                assert(name@ =~= before + seq![c]);
                lemma_utf8_len_append(before, seq![c]);
                assert(seq![c].drop_last() =~= Seq::<char>::empty());
            }
        }
        i += 1;
    }
    name
}

/// The fixed on-disk layout that one destination path determines.
#[derive(Debug, PartialEq, Eq, Clone)]
pub struct DownloadPaths {
    /// The final output path; only ever created by the last atomic rename.
    pub destination: String,
    /// The in-progress remux output, `<destination>.part`.
    pub temp_out: String,
    /// The temp segment directory, `<destination>.dir.part`.
    pub temp_dir: String,
    /// The lock file inside the temp directory.
    pub lock_file: String,
}

impl DownloadPaths {
    /// The layout is exactly the one derived from the destination.
    pub open spec fn wf(self) -> bool {
        &&& self.temp_out@ == self.destination@ + ".part"@
        &&& self.temp_dir@ == self.destination@ + ".dir.part"@
        &&& self.lock_file@ == self.destination@ + ".dir.part"@ + "/lockfile"@
    }

    /// Derives the temp-path layout from a destination path.
    pub fn new(destination: &str) -> (r: DownloadPaths)
        ensures
            r.destination@ == destination@,
            r.wf(),
    {
        let temp_out = destination.to_owned().concat(".part");
        let temp_dir = destination.to_owned().concat(".dir.part");
        let lock_file = temp_dir.clone().concat("/lockfile");
        DownloadPaths { destination: destination.to_owned(), temp_out, temp_dir, lock_file }
    }
}

/// Joins a directory and a file name with a path separator.
pub fn join_dir(dir: &str, file: &str) -> (r: String)
    ensures
        r@ == dir@ + "/"@ + file@,
{
    dir.to_owned().concat("/").concat(file)
}

} // verus!
