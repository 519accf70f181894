//! Pure pieces of the Debian sysroot tooling: the builder's configuration,
//! the architecture tables, and the package-list text parser.
use crate::strutil::char_at;
use crate::strutil::split_char;
use crate::strutil::split_on_char;
use crate::strutil::str_eq;
use crate::strutil::str_len;
use crate::strutil::substring;
use crate::tag::is_space_char;
use crate::tag::spec_space_char;
use vstd::prelude::*;
use vstd::string::StrSliceExecFns;

verus! {

/// The index of the first occurrence of the two-character sequence `ab` in
/// `s`, or `s.len()` if it does not occur.
pub open spec fn find_pair(s: Seq<char>, a: char, b: char) -> int
    decreases s.len(),
{
    if s.len() < 2 {
        s.len() as int
    } else if s[0] == a && s[1] == b {
        0
    } else {
        1 + find_pair(s.drop_first(), a, b)
    }
}

pub proof fn lemma_find_pair(s: Seq<char>, a: char, b: char)
    ensures
        0 <= find_pair(s, a, b) <= s.len(),
        find_pair(s, a, b) == s.len() || find_pair(s, a, b) + 1 < s.len(),
        find_pair(s, a, b) + 1 < s.len() ==> s[find_pair(s, a, b)] == a && s[find_pair(s, a, b)
            + 1] == b,
        forall|j: int|
            0 <= j < find_pair(s, a, b) && j + 1 < s.len() ==> !(s[j] == a && #[trigger] s[j + 1]
                == b),
    decreases s.len(),
{
    if s.len() >= 2 && !(s[0] == a && s[1] == b) {
        lemma_find_pair(s.drop_first(), a, b);
        assert forall|j: int|
            0 <= j < find_pair(s, a, b) && j + 1 < s.len() implies !(s[j] == a && #[trigger] s[j
            + 1] == b) by {
            if j > 0 {
                assert(!(s.drop_first()[j - 1] == a && s.drop_first()[j] == b));
            }
        }
    }
}

/// If no `ab` pair starts before `k` and either `k` is past the last pair
/// position or a pair starts at `k`, then `k` is exactly the first pair.
pub proof fn lemma_find_pair_found(s: Seq<char>, a: char, b: char, k: int)
    requires
        0 <= k <= s.len(),
        forall|j: int| 0 <= j < k && j + 1 < s.len() ==> !(s[j] == a && #[trigger] s[j + 1] == b),
        k < s.len() ==> k + 1 < s.len() && s[k] == a && s[k + 1] == b,
    ensures
        find_pair(s, a, b) == k,
    decreases s.len(),
{
    if s.len() < 2 {
        if k < s.len() {
            assert(k + 1 < s.len());
            assert(false);
        }
    } else if s[0] == a && s[1] == b {
        if k > 0 {
            assert(!(s[0int] == a && s[0int + 1] == b));
            assert(false);
        }
    } else {
        if k == 0 {
            assert(false);
        }
        let d = s.drop_first();
        assert forall|j: int| 0 <= j < k - 1 && j + 1 < d.len() implies !(d[j] == a
            && #[trigger] d[j + 1] == b) by {
            assert(!(s[j + 1] == a && s[j + 1 + 1] == b));
        }
        lemma_find_pair_found(d, a, b, k - 1);
    }
}

/// The pieces of `s` cut at every occurrence of the pair `ab`, left to
/// right without overlap; the separators are dropped.
pub open spec fn split_pair(s: Seq<char>, a: char, b: char) -> Seq<Seq<char>>
    decreases s.len(),
{
    let i = find_pair(s, a, b);
    if i < 0 || i + 1 >= s.len() {
        seq![s]
    } else {
        seq![s.take(i)] + split_pair(s.skip(i + 2), a, b)
    }
}

/// The index of the first occurrence of the pair `ab` in `s`, or the length
/// of `s`.
pub fn str_find_pair(s: &str, a: char, b: char) -> (r: usize)
    ensures
        r == find_pair(s@, a, b),
{
    let n = str_len(s);
    if n < 2 {
        proof {
            lemma_find_pair_found(s@, a, b, n as int);
        }
        return n;
    }
    let mut j: usize = 0;
    while j + 1 < n && !(char_at(s, j) == a && char_at(s, j + 1) == b)
        invariant
            n == s@.len(),
            0 <= j <= n - 1,
            forall|i: int| 0 <= i < j && i + 1 < n ==> !(s@[i] == a && #[trigger] s@[i + 1] == b),
        decreases n - j,
    {
        j += 1;
    }
    if j + 1 < n {
        proof {
            lemma_find_pair_found(s@, a, b, j as int);
        }
        j
    } else {
        proof {
            lemma_find_pair_found(s@, a, b, n as int);
        }
        n
    }
}

/// Splits `s` at every occurrence of the pair `ab`, dropping the
/// separators.
pub fn split_pair_on(s: &str, a: char, b: char) -> (r: Vec<String>)
    ensures
        r@.map_values(|l: String| l@) == split_pair(s@, a, b),
    decreases s@.len(),
{
    let n = str_len(s);
    let i = str_find_pair(s, a, b);
    if n == 0 || i >= n - 1 {
        let mut r: Vec<String> = Vec::new();
        r.push(s.to_owned());
        proof {
            assert(r@.map_values(|l: String| l@) =~= split_pair(s@, a, b));
        }
        r
    } else {
        let head = substring(s, 0, i);
        let tail = substring(s, i + 2, n);
        proof {
            assert(head@ =~= s@.take(i as int));
            assert(tail@ =~= s@.skip(i + 2));
        }
        let rest = split_pair_on(tail.as_str(), a, b);
        let mut r: Vec<String> = Vec::new();
        r.push(head);
        let mut k: usize = 0;
        while k < rest.len()
            invariant
                0 <= k <= rest@.len(),
                r@.len() == k + 1,
                r@[0] == head,
                forall|j: int| 0 <= j < k ==> r@[j + 1] == #[trigger] rest@[j],
            decreases rest@.len() - k,
        {
            let piece = rest[k].clone();
            proof {
                assert(piece@ == rest@[k as int]@);
            }
            r.push(piece);
            k += 1;
        }
        proof {
            assert(r@.map_values(|l: String| l@) =~= split_pair(s@, a, b));
        }
        r
    }
}

/// `s` with every trailing white-space character removed.
pub open spec fn trim_end_ws(s: Seq<char>) -> Seq<char>
    decreases s.len(),
{
    if s.len() > 0 && spec_space_char(s.last()) {
        trim_end_ws(s.drop_last())
    } else {
        s
    }
}

proof fn lemma_trim_end_found(s: Seq<char>, e: int)
    requires
        0 <= e <= s.len(),
        forall|j: int| e <= j < s.len() ==> spec_space_char(#[trigger] s[j]),
        e > 0 ==> !spec_space_char(s[e - 1]),
    ensures
        trim_end_ws(s) == s.take(e),
    decreases s.len(),
{
    if s.len() > e {
        lemma_trim_end_found(s.drop_last(), e);
        assert(s.drop_last().take(e) =~= s.take(e));
    } else {
        assert(s.take(e) =~= s);
    }
}

/// A builder for a debian sysroot: the base path and repository
/// coordinates the sysroot is built from.
#[derive(Debug, PartialEq, Eq, Clone)]
pub struct DebianSysrootBuilder {
    /// The base path
    pub base_path: String,
    /// The repository url
    pub repository_url: String,
    /// The repository release
    pub release: String,
    /// The arch
    pub arch: String,
}

impl DebianSysrootBuilder {
    /// Create a new builder for a debian sysroot, at the given path.
    ///
    /// The repository defaults to `https://ftp.debian.org/debian`, the
    /// release to `bookworm` and the arch to `amd64`.
    pub fn new(base_path: String) -> (r: DebianSysrootBuilder)
        ensures
            r.base_path@ == base_path@,
            r.repository_url@ == "https://ftp.debian.org/debian"@,
            r.release@ == "bookworm"@,
            r.arch@ == "amd64"@,
    {
        DebianSysrootBuilder {
            base_path,
            repository_url: "https://ftp.debian.org/debian".to_owned(),
            release: "bookworm".to_owned(),
            arch: "amd64".to_owned(),
        }
    }

    /// Set the repository url.
    pub fn repository_url(self, repository_url: String) -> (r: DebianSysrootBuilder)
        ensures
            r.repository_url@ == repository_url@,
            r.base_path == self.base_path,
            r.release == self.release,
            r.arch == self.arch,
    {
        DebianSysrootBuilder { repository_url, ..self }
    }

    /// Set the repository release.
    pub fn release(self, release: String) -> (r: DebianSysrootBuilder)
        ensures
            r.release@ == release@,
            r.base_path == self.base_path,
            r.repository_url == self.repository_url,
            r.arch == self.arch,
    {
        DebianSysrootBuilder { release, ..self }
    }

    /// Set the repository arch.
    pub fn arch(self, arch: String) -> (r: DebianSysrootBuilder)
        ensures
            r.arch@ == arch@,
            r.base_path == self.base_path,
            r.repository_url == self.repository_url,
            r.release == self.release,
    {
        DebianSysrootBuilder { arch, ..self }
    }
}

/// The Debian architecture name for a Rust target triple, if it has one.
pub open spec fn debian_arch_of(triple: Seq<char>) -> Option<Seq<char>> {
    if triple == "x86_64-unknown-linux-gnu"@ {
        Some("amd64"@)
    } else if triple == "aarch64-unknown-linux-gnu"@ {
        Some("arm64"@)
    } else if triple == "armv7-unknown-linux-gnueabihf"@ {
        Some("armhf"@)
    } else {
        None
    }
}

/// Get the debian arch for a given triple
pub fn get_debian_arch(triple: &str) -> (r: Option<&'static str>)
    ensures
        match r {
            Some(a) => debian_arch_of(triple@) == Some(a@),
            None => debian_arch_of(triple@) is None,
        },
{
    if str_eq(triple, "x86_64-unknown-linux-gnu") {
        Some("amd64")
    } else if str_eq(triple, "aarch64-unknown-linux-gnu") {
        Some("arm64")
    } else if str_eq(triple, "armv7-unknown-linux-gnueabihf") {
        Some("armhf")
    } else {
        None
    }
}

/// The GCC triple for a Rust target triple, if it has one.
pub open spec fn gcc_triple_of(triple: Seq<char>) -> Option<Seq<char>> {
    if triple == "x86_64-unknown-linux-gnu"@ {
        Some("x86_64-linux-gnu"@)
    } else if triple == "aarch64-unknown-linux-gnu"@ {
        Some("aarch64-linux-gnu"@)
    } else {
        None
    }
}

/// Get the gcc triple for a given Rust triple
pub fn get_gcc_triple(triple: &str) -> (r: Option<&'static str>)
    ensures
        match r {
            Some(a) => gcc_triple_of(triple@) == Some(a@),
            None => gcc_triple_of(triple@) is None,
        },
{
    if str_eq(triple, "x86_64-unknown-linux-gnu") {
        Some("x86_64-linux-gnu")
    } else if str_eq(triple, "aarch64-unknown-linux-gnu") {
        Some("aarch64-linux-gnu")
    } else {
        None
    }
}

/// A package-list entry at the view level.
pub struct SpecPackageInfo {
    /// The name of the package.
    pub name: Seq<char>,
    /// The package file name.
    pub file_name: Seq<char>,
    /// Package dependencies.
    pub depends: Seq<Seq<char>>,
}

/// An error that may occur while reading one package-list block.
#[derive(Debug, PartialEq, Eq, Clone, Copy, Structural)]
pub enum PackageListError {
    /// A `Package` field appeared twice
    DuplicateName,
    /// A `Filename` field appeared twice
    DuplicateFileName,
    /// A `Depends` field appeared twice
    DuplicateDepends,
    /// The block has no `Package` field
    MissingName,
    /// The block has no `Filename` field
    MissingFileName,
}

/// Info about a package
#[derive(Debug, PartialEq, Eq, Clone)]
pub struct PackageInfo {
    /// The name of the package
    pub name: String,
    /// The package file name
    pub file_name: String,
    /// Package dependencies
    pub depends: Vec<String>,
}

impl View for PackageInfo {
    type V = SpecPackageInfo;

    open spec fn view(&self) -> SpecPackageInfo {
        SpecPackageInfo {
            name: self.name@,
            file_name: self.file_name@,
            depends: self.depends@.map_values(|d: String| d@),
        }
    }
}

/// The lines of one block from index `i` on, folded over the fields found
/// so far: each `Key: value` line fills its field, duplicates are refused,
/// and other lines are ignored.
pub open spec fn spec_package_lines(
    lines: Seq<Seq<char>>,
    i: int,
    name: Option<Seq<char>>,
    file_name: Option<Seq<char>>,
    depends: Option<Seq<char>>,
) -> Result<(Option<Seq<char>>, Option<Seq<char>>, Option<Seq<char>>), PackageListError>
    decreases lines.len() - i,
{
    if i < 0 || i >= lines.len() {
        Ok((name, file_name, depends))
    } else {
        let line = lines[i];
        let p = find_pair(line, ':', ' ');
        if p < 0 || p >= line.len() {
            spec_package_lines(lines, i + 1, name, file_name, depends)
        } else {
            let key = line.take(p);
            let value = line.skip(p + 2);
            if key == "Package"@ {
                if name is Some {
                    Err(PackageListError::DuplicateName)
                } else {
                    spec_package_lines(lines, i + 1, Some(value), file_name, depends)
                }
            } else if key == "Filename"@ {
                if file_name is Some {
                    Err(PackageListError::DuplicateFileName)
                } else {
                    spec_package_lines(lines, i + 1, name, Some(value), depends)
                }
            } else if key == "Depends"@ {
                if depends is Some {
                    Err(PackageListError::DuplicateDepends)
                } else {
                    spec_package_lines(lines, i + 1, name, file_name, Some(value))
                }
            } else {
                spec_package_lines(lines, i + 1, name, file_name, depends)
            }
        }
    }
}

/// One package block: its `Package` and `Filename` fields are required, and
/// its `Depends` field splits at every `, `.
pub open spec fn spec_parse_package(block: Seq<char>) -> Result<SpecPackageInfo, PackageListError> {
    match spec_package_lines(split_char(block, '\n'), 0, None, None, None) {
        Err(e) => Err(e),
        Ok((name, file_name, depends)) => match name {
            None => Err(PackageListError::MissingName),
            Some(name) => match file_name {
                None => Err(PackageListError::MissingFileName),
                Some(file_name) => Ok(
                    SpecPackageInfo {
                        name,
                        file_name,
                        depends: match depends {
                            None => Seq::empty(),
                            Some(d) => split_pair(d, ',', ' '),
                        },
                    },
                ),
            },
        },
    }
}

/// A whole package list: trailing white space dropped, blocks cut at every
/// blank line, each block read on its own.
pub open spec fn spec_parse_package_list(input: Seq<char>) -> Seq<
    Result<SpecPackageInfo, PackageListError>,
> {
    split_pair(trim_end_ws(input), '\n', '\n').map_values(|b: Seq<char>| spec_parse_package(b))
}

/// Reads one package block.
fn parse_package(block: &str) -> (r: Result<PackageInfo, PackageListError>)
    ensures
        match r {
            Ok(p) => spec_parse_package(block@) matches Ok(sp) && p@ == sp,
            Err(e) => spec_parse_package(block@) == Err::<SpecPackageInfo, PackageListError>(e),
        },
{
    let lines = split_on_char(block, '\n');
    let ghost lv = lines@.map_values(|l: String| l@);
    let mut name: Option<String> = None;
    let mut file_name: Option<String> = None;
    let mut depends: Option<String> = None;
    let mut i: usize = 0;
    while i < lines.len()
        invariant
            lv == lines@.map_values(|l: String| l@),
            lv == split_char(block@, '\n'),
            0 <= i <= lines@.len(),
            spec_package_lines(
                lv,
                i as int,
                crate::tag::view_opt_str(name),
                crate::tag::view_opt_str(file_name),
                crate::tag::view_opt_str(depends),
            ) == spec_package_lines(lv, 0, None, None, None),
        decreases lines@.len() - i,
    {
        let line: &String = &lines[i];
        let n = str_len(line.as_str());
        let p = str_find_pair(line.as_str(), ':', ' ');
        proof {
            lemma_find_pair(line@, ':', ' ');
        }
        if p < n {
            assert(p + 1 < n);
            let key = substring(line.as_str(), 0, p);
            let value = substring(line.as_str(), p + 2, n);
            proof {
                assert(key@ =~= lv[i as int].take(p as int));
                assert(value@ =~= lv[i as int].skip(p + 2));
            }
            if str_eq(key.as_str(), "Package") {
                if name.is_some() {
                    return Err(PackageListError::DuplicateName);
                }
                name = Some(value);
            } else if str_eq(key.as_str(), "Filename") {
                if file_name.is_some() {
                    return Err(PackageListError::DuplicateFileName);
                }
                file_name = Some(value);
            } else if str_eq(key.as_str(), "Depends") {
                if depends.is_some() {
                    return Err(PackageListError::DuplicateDepends);
                }
                depends = Some(value);
            }
        }
        i += 1;
    }
    let name = match name {
        Some(name) => name,
        None => {
            return Err(PackageListError::MissingName);
        },
    };
    let file_name = match file_name {
        Some(file_name) => file_name,
        None => {
            return Err(PackageListError::MissingFileName);
        },
    };
    let depends: Vec<String> = match depends {
        Some(d) => split_pair_on(d.as_str(), ',', ' '),
        None => Vec::new(),
    };
    proof {
        assert(depends@.map_values(|d: String| d@) =~= spec_parse_package(block@)->Ok_0.depends);
    }
    Ok(PackageInfo { name, file_name, depends })
}

/// Parse a package list.
///
/// Each blank-line-separated block yields one entry, read exactly as the
/// block grammar says: a required `Package` and `Filename`, an optional
/// comma-separated `Depends`, duplicates refused.
pub fn parse_package_list(input: &str) -> (r: Vec<Result<PackageInfo, PackageListError>>)
    ensures
        r@.len() == spec_parse_package_list(input@).len(),
        forall|k: int|
            0 <= k < r@.len() ==> match #[trigger] r@[k] {
                Ok(p) => spec_parse_package_list(input@)[k] matches Ok(sp) && p@ == sp,
                Err(e) => spec_parse_package_list(input@)[k] == Err::<
                    SpecPackageInfo,
                    PackageListError,
                >(e),
            },
{
    let n = str_len(input);
    let mut e: usize = n;
    while e > 0 && is_space_char(char_at(input, e - 1))
        invariant
            n == input@.len(),
            0 <= e <= n,
            forall|j: int| e <= j < n ==> spec_space_char(#[trigger] input@[j]),
        decreases e,
    {
        e -= 1;
    }
    let trimmed = substring(input, 0, e);
    proof {
        lemma_trim_end_found(input@, e as int);
        assert(trimmed@ =~= trim_end_ws(input@));
    }
    let blocks = split_pair_on(trimmed.as_str(), '\n', '\n');
    let ghost bv = blocks@.map_values(|b: String| b@);
    let mut out: Vec<Result<PackageInfo, PackageListError>> = Vec::new();
    let mut k: usize = 0;
    while k < blocks.len()
        invariant
            bv == blocks@.map_values(|b: String| b@),
            bv == split_pair(trim_end_ws(input@), '\n', '\n'),
            0 <= k <= blocks@.len(),
            out@.len() == k,
            forall|j: int|
                0 <= j < k ==> match #[trigger] out@[j] {
                    Ok(p) => spec_parse_package(bv[j]) matches Ok(sp) && p@ == sp,
                    Err(e) => spec_parse_package(bv[j]) == Err::<SpecPackageInfo, PackageListError>(
                        e,
                    ),
                },
        decreases blocks@.len() - k,
    {
        let block: &String = &blocks[k];
        out.push(parse_package(block.as_str()));
        k += 1;
    }
    out
}

} // verus!
