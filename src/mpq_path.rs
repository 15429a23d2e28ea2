use vstd::prelude::*;
use crate::byte_utils::string_views;
use crate::chunk_types::non_empty;
use crate::wmo::chars_of;

verus! {

/// What `str::trim` leaves of a string: the string without leading and trailing whitespace.
pub uninterp spec fn trimmed(s: Seq<char>) -> Seq<char>;

/// What `str::to_uppercase` makes of a string.
pub uninterp spec fn upper_of(s: Seq<char>) -> Seq<char>;

/// `r` is a contiguous part of `s`.
pub open spec fn is_part_of(r: Seq<char>, s: Seq<char>) -> bool {
    exists|i: int, j: int| 0 <= i <= j <= s.len() && r == #[trigger] s.subrange(i, j)
}

/// Relies on `str::trim`: leading and trailing whitespace is removed, so what is left is a
/// contiguous part of the string.
#[verifier::external_body]
fn trim(s: &str) -> (r: String)
    ensures
        r@ == trimmed(s@),
        s@.len() == 0 ==> r@.len() == 0,
        is_part_of(r@, s@),
{
    s.trim().to_string()
}

/// Relies on `str::to_uppercase`: the result depends on the characters alone.
#[verifier::external_body]
fn to_uppercase(s: &str) -> (r: String)
    ensures
        r@ == upper_of(s@),
{
    s.to_uppercase()
}

/// A path inside an archive: its components, and whether it names a directory.
#[derive(Debug, Clone)]
pub struct MpqPath {
    is_dir: bool,
    components: Vec<String>,
}

/// Helpers over archive paths.
pub struct MpqPathUtil;

/// Forward slashes turned into backslashes.
pub open spec fn with_backslashes(s: Seq<char>) -> Seq<char> {
    Seq::new(s.len(), |i: int| if s[i] == '/' { '\\' } else { s[i] })
}

/// Splitting on `sep`: the finished pieces and the characters after the last separator.
pub open spec fn split_state(s: Seq<char>, sep: char) -> (Seq<Seq<char>>, Seq<char>)
    decreases s.len(),
{
    if s.len() == 0 {
        (seq![], seq![])
    } else {
        let (done, cur) = split_state(s.drop_last(), sep);
        if s.last() == sep {
            (done.push(cur), seq![])
        } else {
            (done, cur.push(s.last()))
        }
    }
}

/// The pieces of `s` between separators, empty ones included.
pub open spec fn split_on(s: Seq<char>, sep: char) -> Seq<Seq<char>> {
    split_state(s, sep).0.push(split_state(s, sep).1)
}

/// Each string upper-cased.
pub open spec fn all_upper(s: Seq<Seq<char>>) -> Seq<Seq<char>> {
    Seq::new(s.len(), |i: int| upper_of(s[i]))
}

/// The components of a path: the non-empty pieces between separators, upper-cased.
pub open spec fn components_of(normalized: Seq<char>) -> Seq<Seq<char>> {
    all_upper(non_empty(split_on(normalized, '\\')))
}

/// How many dots a name holds.
pub open spec fn dots(s: Seq<char>) -> nat
    decreases s.len(),
{
    if s.len() == 0 {
        0
    } else {
        dots(s.drop_last()) + if s.last() == '.' {
            1nat
        } else {
            0nat
        }
    }
}

/// The name of the archive's file list.
pub open spec fn listfile_name() -> Seq<char> {
    seq!['(', 'l', 'i', 's', 't', 'f', 'i', 'l', 'e', ')']
}

/// The name of the archive's file list in capitals.
pub open spec fn listfile_upper() -> Seq<char> {
    seq!['(', 'L', 'I', 'S', 'T', 'F', 'I', 'L', 'E', ')']
}

/// `s` is the file list's name, each letter in either case.
pub open spec fn is_listfile(s: Seq<char>) -> bool {
    s.len() == listfile_name().len() && forall|i: int|
        0 <= i < s.len() ==> #[trigger] s[i] == listfile_name()[i] || s[i] == listfile_upper()[i]
}

/// A leaf names a directory: it has no extension and is not the file list.
pub open spec fn names_directory(leaf: Seq<char>) -> bool {
    dots(leaf) == 0 && !is_listfile(leaf)
}

fn count_dots(s: &str) -> (r: usize)
    ensures
        r == dots(s@),
{
    let c = chars_of(s);
    let mut n: usize = 0;
    let mut i: usize = 0;
    while i < c.len()
        invariant
            i <= c@.len(),
            n == dots(c@.subrange(0, i as int)),
            n <= i,
        decreases c@.len() - i,
    {
        assert(c@.subrange(0, i + 1).drop_last() =~= c@.subrange(0, i as int));
        if c[i] == '.' {
            n = n + 1;
        }
        i = i + 1;
    }
    assert(c@.subrange(0, c@.len() as int) =~= c@);
    n
}

fn eq_listfile(s: &str) -> (r: bool)
    ensures
        r == is_listfile(s@),
{
    let c = chars_of(s);
    let lower: [char; 10] = ['(', 'l', 'i', 's', 't', 'f', 'i', 'l', 'e', ')'];
    let upper: [char; 10] = ['(', 'L', 'I', 'S', 'T', 'F', 'I', 'L', 'E', ')'];
    assert(lower@ =~= listfile_name());
    assert(listfile_name().len() == 10);
    assert(upper@ =~= listfile_upper());
    if c.len() != 10 {
        return false;
    }
    let mut i: usize = 0;
    while i < 10
        invariant
            i <= 10,
            c@.len() == 10,
            c@ == s@,
            lower@ == listfile_name(),
            upper@ == listfile_upper(),
            forall|k: int|
                0 <= k < i ==> #[trigger] c@[k] == listfile_name()[k] || c@[k] == listfile_upper()[k],
        decreases 10 - i,
    {
        if c[i] != lower[i] && c[i] != upper[i] {
            assert(c@[i as int] != listfile_name()[i as int] && c@[i as int] != listfile_upper()[
                i as int
            ]);
            return false;
        }
        i = i + 1;
    }
    true
}

/// Whether a leaf names a directory, or `None` when it holds more than one dot.
fn is_directory(leaf_component: &String) -> (r: Option<bool>)
    ensures
        r is Some <==> dots(leaf_component@) <= 1,
        r matches Some(d) ==> d == names_directory(leaf_component@),
{
    let n = count_dots(leaf_component.as_str());
    if n == 0 {
        Some(!eq_listfile(leaf_component.as_str()))
    } else if n == 1 {
        Some(false)
    } else {
        None
    }
}

fn split_components(s: &Vec<char>) -> (r: Vec<String>)
    ensures
        string_views(r@) == components_of(s@),
{
    let mut pieces: Vec<String> = Vec::new();
    let mut cur = String::new();
    let mut i: usize = 0;
    while i < s.len()
        invariant
            i <= s@.len(),
            cur@ == split_state(s@.subrange(0, i as int), '\\').1,
            string_views(pieces@) == non_empty(split_state(s@.subrange(0, i as int), '\\').0),
        decreases s@.len() - i,
    {
        let ghost prev = s@.subrange(0, i as int);
        let ghost next = s@.subrange(0, i + 1);
        assert(next.drop_last() =~= prev);
        assert(next.last() == s@[i as int]);
        let ghost done = split_state(prev, '\\').0;
        if s[i] == '\\' {
            assert(split_state(next, '\\').0 == done.push(cur@));
            assert(done.push(cur@).drop_last() =~= done);
            if !cur.as_str().is_empty() {
                let ghost before = string_views(pieces@);
                pieces.push(cur);
                assert(string_views(pieces@) =~= before.push(split_state(prev, '\\').1));
            }
            cur = String::new();
        } else {
            cur.push(s[i]);
        }
        i = i + 1;
    }
    assert(s@.subrange(0, s@.len() as int) =~= s@);
    let ghost done = split_state(s@, '\\').0;
    assert(split_on(s@, '\\').drop_last() =~= done);
    if !cur.as_str().is_empty() {
        let ghost before = string_views(pieces@);
        pieces.push(cur);
        assert(string_views(pieces@) =~= before.push(split_state(s@, '\\').1));
    }
    let ghost raw = non_empty(split_on(s@, '\\'));
    assert(string_views(pieces@) == raw);
    let mut out: Vec<String> = Vec::new();
    let mut k: usize = 0;
    while k < pieces.len()
        invariant
            k <= pieces@.len(),
            string_views(pieces@) == raw,
            string_views(out@) == all_upper(raw).subrange(0, k as int),
        decreases pieces@.len() - k,
    {
        assert(string_views(pieces@)[k as int] == pieces@[k as int]@);
        let u = to_uppercase(pieces[k].as_str());
        let ghost before = string_views(out@);
        out.push(u);
        assert(string_views(out@) =~= before.push(u@));
        assert(all_upper(raw)[k as int] == upper_of(raw[k as int]));
        k = k + 1;
        assert(string_views(out@) =~= all_upper(raw).subrange(0, k as int));
    }
    assert(all_upper(raw).subrange(0, raw.len() as int) =~= all_upper(raw));
    out
}

/// The path's text: the components joined by backslashes.
pub open spec fn joined(parts: Seq<Seq<char>>) -> Seq<char>
    decreases parts.len(),
{
    if parts.len() == 0 {
        seq![]
    } else if parts.len() == 1 {
        parts[0]
    } else {
        joined(parts.drop_last()) + seq!['\\'] + parts.last()
    }
}

/// `other` begins with the components of `entry`: it lies at or under `entry`.
pub open spec fn starts_with(entry: Seq<Seq<char>>, other: Seq<Seq<char>>) -> bool {
    entry.len() <= other.len() && forall|i: int| 0 <= i < entry.len() ==> #[trigger] other[i] == entry[i]
}

/// The paths of `s` that lie at or under `entry`, in order.
pub open spec fn kept(entry: Seq<Seq<char>>, s: Seq<MpqPath>) -> Seq<MpqPath>
    decreases s.len(),
{
    if s.len() == 0 {
        s
    } else if starts_with(entry, s[0].spec_components()) {
        seq![s[0]] + kept(entry, s.drop_first())
    } else {
        kept(entry, s.drop_first())
    }
}

fn copy_strings(v: &Vec<String>, n: usize) -> (r: Vec<String>)
    requires
        n <= v@.len(),
    ensures
        string_views(r@) == string_views(v@).subrange(0, n as int),
{
    let mut out: Vec<String> = Vec::new();
    let mut i: usize = 0;
    while i < n
        invariant
            i <= n <= v@.len(),
            string_views(out@) == string_views(v@).subrange(0, i as int),
        decreases n - i,
    {
        let ghost before = string_views(out@);
        out.push(v[i].clone());
        assert(string_views(out@) =~= before.push(v@[i as int]@));
        i = i + 1;
        assert(string_views(out@) =~= string_views(v@).subrange(0, i as int));
    }
    out
}

fn lies_under(entry: &MpqPath, other: &MpqPath) -> (r: bool)
    ensures
        r == starts_with(entry.spec_components(), other.spec_components()),
{
    if other.components.len() < entry.components.len() {
        return false;
    }
    let mut i: usize = 0;
    while i < entry.components.len()
        invariant
            i <= entry.components@.len() <= other.components@.len(),
            forall|k: int|
                0 <= k < i ==> #[trigger] other.spec_components()[k] == entry.spec_components()[k],
        decreases entry.components@.len() - i,
    {
        assert(other.spec_components()[i as int] == other.components@[i as int]@);
        assert(entry.spec_components()[i as int] == entry.components@[i as int]@);
        if other.components[i] != entry.components[i] {
            return false;
        }
        i = i + 1;
    }
    true
}

impl MpqPath {
    /// The components, each as characters.
    pub closed spec fn spec_components(&self) -> Seq<Seq<char>> {
        string_views(self.components@)
    }

    /// The path names a directory.
    pub closed spec fn spec_is_dir(&self) -> bool {
        self.is_dir
    }

    /// Parses a path: whitespace around it is dropped, forward slashes count as
    /// backslashes, empty components are skipped and the others upper-cased. The leaf
    /// tells a directory (no extension, and not the file list) from a file. A blank path,
    /// a path of separators only, and a leaf with more than one dot give nothing; a lone
    /// backslash is the root.
    pub fn from_string(src: &String) -> (r: Option<MpqPath>)
        ensures
            ({
                let n = with_backslashes(trimmed(src@));
                let c = components_of(n);
                &&& n.len() == 0 ==> r is None
                &&& n == seq!['\\'] ==> (r matches Some(p) && p.spec_is_dir() && p.spec_components().len() == 0)
                &&& n.len() > 0 && n != seq!['\\'] ==> {
                    &&& r is Some <==> c.len() > 0 && dots(c.last()) <= 1
                    &&& r matches Some(p) ==> p.spec_components() == c && p.spec_is_dir() == names_directory(c.last())
                }
            }),
    {
        let t = trim(src.as_str());
        let chars = chars_of(t.as_str());
        let mut normalized: Vec<char> = Vec::new();
        let mut i: usize = 0;
        while i < chars.len()
            invariant
                i <= chars@.len(),
                normalized@ == with_backslashes(chars@).subrange(0, i as int),
            decreases chars@.len() - i,
        {
            if chars[i] == '/' {
                normalized.push('\\');
            } else {
                normalized.push(chars[i]);
            }
            i = i + 1;
            assert(normalized@ =~= with_backslashes(chars@).subrange(0, i as int));
        }
        assert(normalized@ =~= with_backslashes(trimmed(src@)));
        if normalized.len() == 0 {
            return None;
        }
        if normalized.len() == 1 && normalized[0] == '\\' {
            assert(normalized@ =~= seq!['\\']);
            let root = MpqPath { is_dir: true, components: Vec::new() };
            assert(root.spec_components() =~= seq![]);
            return Some(root);
        }
        proof {
            if normalized@ == seq!['\\'] {
                assert(normalized@[0] == '\\');
            }
        }
        let components = split_components(&normalized);
        if components.len() == 0 {
            return None;
        }
        let last = components.len() - 1;
        assert(string_views(components@)[last as int] == components@[last as int]@);
        match is_directory(&components[last]) {
            Some(d) => Some(MpqPath { components, is_dir: d }),
            None => None,
        }
    }

    /// The path of `path_component` inside this directory.
    pub fn push(&self, path_component: &String) -> (r: MpqPath)
        requires
            self.spec_is_dir(),
            dots(path_component@) <= 1,
        ensures
            r.spec_components() == self.spec_components().push(path_component@),
            r.spec_is_dir() == names_directory(path_component@),
    {
        let mut cmps = copy_strings(&self.components, self.components.len());
        let ghost before = string_views(cmps@);
        cmps.push(path_component.clone());
        assert(string_views(cmps@) =~= before.push(path_component@));
        assert(string_views(self.components@).subrange(0, self.components@.len() as int) =~= string_views(self.components@));
        let is_dir = match is_directory(path_component) {
            Some(d) => d,
            None => false,
        };
        MpqPath { is_dir, components: cmps }
    }

    /// The path names a directory.
    pub fn is_dir(&self) -> (r: bool)
        ensures
            r == self.spec_is_dir(),
    {
        self.is_dir
    }

    /// The path names a file.
    pub fn is_file(&self) -> (r: bool)
        ensures
            r == !self.spec_is_dir(),
    {
        !self.is_dir
    }

    /// The path is the archive's root: it has no components.
    pub fn is_root(&self) -> (r: bool)
        ensures
            r == (self.spec_components().len() == 0),
    {
        self.components.len() == 0
    }

    /// The components joined by backslashes.
    pub fn to_string_path(&self) -> (r: String)
        ensures
            r@ == joined(self.spec_components()),
    {
        let parts = &self.components;
        let mut out = String::new();
        let mut i: usize = 0;
        while i < parts.len()
            invariant
                i <= parts@.len(),
                out@ == joined(string_views(parts@).subrange(0, i as int)),
            decreases parts@.len() - i,
        {
            let ghost prefix = string_views(parts@).subrange(0, i + 1);
            assert(prefix.drop_last() =~= string_views(parts@).subrange(0, i as int));
            assert(prefix.last() == parts@[i as int]@);
            let ghost before = out@;
            if i > 0 {
                out.push('\\');
            }
            let c = chars_of(parts[i].as_str());
            let mut k: usize = 0;
            let ghost base = out@;
            while k < c.len()
                invariant
                    k <= c@.len(),
                    out@ == base + c@.subrange(0, k as int),
                decreases c@.len() - k,
            {
                out.push(c[k]);
                k = k + 1;
                assert(out@ =~= base + c@.subrange(0, k as int));
            }
            assert(c@.subrange(0, c@.len() as int) =~= c@);
            proof {
                if i == 0 {
                    assert(prefix.len() == 1);
                    assert(out@ =~= prefix[0]);
                } else {
                    assert(out@ =~= before + seq!['\\'] + prefix.last());
                }
            }
            i = i + 1;
        }
        assert(string_views(parts@).subrange(0, parts@.len() as int) =~= string_views(parts@));
        out
    }

    /// The directory that holds this path.
    pub fn parent(&self) -> (r: MpqPath)
        requires
            self.spec_components().len() > 0,
        ensures
            r.spec_components() == self.spec_components().drop_last(),
            r.spec_is_dir(),
    {
        let n = self.components.len();
        let components = copy_strings(&self.components, n - 1);
        assert(string_views(self.components@).subrange(0, n - 1) =~= string_views(self.components@).drop_last());
        MpqPath { components, is_dir: true }
    }
}

impl MpqPathUtil {
    /// The paths of `matches_source` that lie at or under `entry`: those whose components
    /// begin with all of `entry`'s, in order.
    pub fn matching(entry: MpqPath, matches_source: Vec<MpqPath>) -> (r: Vec<MpqPath>)
        ensures
            r@ == kept(entry.spec_components(), matches_source@),
    {
        let mut rest = matches_source;
        let mut out: Vec<MpqPath> = Vec::new();
        while rest.len() > 0
            invariant
                out@ + kept(entry.spec_components(), rest@) == kept(entry.spec_components(), matches_source@),
            decreases rest@.len(),
        {
            let ghost before_rest = rest@;
            let ghost before_out = out@;
            let p = rest.remove(0);
            assert(before_rest.drop_first() =~= rest@);
            if lies_under(&entry, &p) {
                out.push(p);
                assert(out@ + kept(entry.spec_components(), rest@) =~= before_out + kept(entry.spec_components(), before_rest));
            }
        }
        assert(out@ + kept(entry.spec_components(), rest@) =~= out@);
        out
    }
}

} // verus!
