use vstd::prelude::*;
use vstd::string::*;

verus! {

/// The decimal digit for a value below ten.
pub open spec fn digit(d: int) -> char {
    seq!['0', '1', '2', '3', '4', '5', '6', '7', '8', '9'][d]
}

/// The decimal digits of `n`, without leading zeros.
pub open spec fn decimal(n: nat) -> Seq<char>
    decreases n,
{
    if n < 10 {
        seq![digit(n as int)]
    } else {
        decimal(n / 10).push(digit((n % 10) as int))
    }
}

/// Digits padded with zeros on the left to at least three.
pub open spec fn pad3(d: Seq<char>) -> Seq<char> {
    if d.len() >= 3 {
        d
    } else {
        Seq::new((3 - d.len()) as nat, |i: int| '0') + d
    }
}

/// Where the part after the last separator (`/` or `\`) starts.
pub open spec fn after_last_slash(s: Seq<char>) -> int
    decreases s.len(),
{
    if s.len() == 0 {
        0
    } else if is_separator(s.last()) {
        s.len() as int
    } else {
        after_last_slash(s.drop_last())
    }
}

/// A path separator: forward slash or backslash.
pub open spec fn is_separator(c: char) -> bool {
    c == '/' || c == '\\'
}

/// `t` is the extension `.wmo`, each letter in either case.
pub open spec fn is_marker(t: Seq<char>) -> bool {
    &&& t.len() == 4
    &&& t[0] == '.'
    &&& (t[1] == 'w' || t[1] == 'W')
    &&& (t[2] == 'm' || t[2] == 'M')
    &&& (t[3] == 'o' || t[3] == 'O')
}

/// The extension given to group file names.
pub open spec fn wmo_marker() -> Seq<char> {
    seq!['.', 'w', 'm', 'o']
}

/// Where the first `.wmo` (in any case) from `i` on starts, or the length if there is none.
pub open spec fn marker_from(s: Seq<char>, i: int) -> int
    decreases s.len() - i,
{
    if i < 0 || i + 4 > s.len() {
        s.len() as int
    } else if is_marker(s.subrange(i, i + 4)) {
        i
    } else {
        marker_from(s, i + 1)
    }
}

/// The stem of a file name: the part after the last separator (`/` or `\`), up to the
/// first `.wmo` in any case.
pub open spec fn stem(path: Seq<char>) -> Seq<char> {
    let tail = path.subrange(after_last_slash(path), path.len() as int);
    tail.subrange(0, marker_from(tail, 0))
}

/// The name of group file `i` of the root file `path`: stem, `_`, the index in at least
/// three digits, `.wmo`.
pub open spec fn group_name(path: Seq<char>, i: nat) -> Seq<char> {
    stem(path) + seq!['_'] + pad3(decimal(i)) + wmo_marker()
}

proof fn lemma_after_last_slash_bounds(s: Seq<char>)
    ensures
        0 <= after_last_slash(s) <= s.len(),
    decreases s.len(),
{
    if s.len() > 0 && !is_separator(s.last()) {
        lemma_after_last_slash_bounds(s.drop_last());
    }
}

proof fn lemma_after_last_slash_prefix(d: Seq<char>, q: Seq<char>)
    requires
        d.len() > 0,
        is_separator(d.last()),
    ensures
        after_last_slash(d + q) == d.len() + after_last_slash(q),
    decreases q.len(),
{
    let s = d + q;
    if q.len() == 0 {
        assert(s =~= d);
    } else {
        assert(s.last() == q.last());
        if !is_separator(q.last()) {
            assert(s.drop_last() =~= d + q.drop_last());
            lemma_after_last_slash_prefix(d, q.drop_last());
        }
    }
}

/// The names of a root file's groups do not depend on the directories in front of its
/// name: a root named `dir` + `name`, where `dir` ends with `/` or `\`, has the same group names
/// as one named `name`.
pub proof fn lemma_group_names_ignore_directories(dir: Seq<char>, name: Seq<char>, i: nat)
    requires
        dir.len() > 0,
        is_separator(dir.last()),
    ensures
        group_name(dir + name, i) == group_name(name, i),
{
    lemma_after_last_slash_prefix(dir, name);
    lemma_after_last_slash_bounds(name);
    let p = dir + name;
    assert(p.subrange(after_last_slash(p), p.len() as int) =~= name.subrange(
        after_last_slash(name),
        name.len() as int,
    ));
}

proof fn lemma_decimal_len(n: nat)
    ensures
        n < 10 ==> decimal(n).len() == 1,
        10 <= n < 100 ==> decimal(n).len() == 2,
        100 <= n ==> decimal(n).len() >= 3,
    decreases n,
{
    if n >= 10 {
        lemma_decimal_len(n / 10);
    }
}

fn push_digit(s: &mut String, d: u32)
    requires
        d < 10,
    ensures
        final(s)@ == old(s)@.push(digit(d as int)),
{
    let table: [char; 10] = ['0', '1', '2', '3', '4', '5', '6', '7', '8', '9'];
    assert(table@ =~= seq!['0', '1', '2', '3', '4', '5', '6', '7', '8', '9']);
    s.push(table[d as usize]);
}

fn push_decimal(s: &mut String, n: u32)
    ensures
        final(s)@ == old(s)@ + decimal(n as nat),
    decreases n,
{
    if n < 10 {
        push_digit(s, n);
    } else {
        push_decimal(s, n / 10);
        push_digit(s, n % 10);
    }
    assert(final(s)@ =~= old(s)@ + decimal(n as nat));
}

fn push_padded_index(s: &mut String, n: u32)
    ensures
        final(s)@ == old(s)@ + pad3(decimal(n as nat)),
{
    let ghost before = s@;
    proof {
        lemma_decimal_len(n as nat);
    }
    if n < 10 {
        s.push('0');
        s.push('0');
    } else if n < 100 {
        s.push('0');
    }
    push_decimal(s, n);
    assert(s@ =~= before + pad3(decimal(n as nat)));
}

fn marker_at(c: &Vec<char>, i: usize) -> (r: bool)
    requires
        i + 4 <= c@.len(),
    ensures
        r == is_marker(c@.subrange(i as int, i + 4)),
{
    let n = c.len();
    let ghost t = c@.subrange(i as int, i + 4);
    assert(t[0] == c@[i as int] && t[1] == c@[i + 1] && t[2] == c@[i + 2] && t[3] == c@[i + 3]);
    c[i] == '.' && (c[i + 1] == 'w' || c[i + 1] == 'W') && (c[i + 2] == 'm' || c[i + 2] == 'M') && (
    c[i + 3] == 'o' || c[i + 3] == 'O')
}

/// The characters of `s`.
pub fn chars_of(s: &str) -> (r: Vec<char>)
    ensures
        r@ == s@,
{
    let n = s.unicode_len();
    let mut v: Vec<char> = Vec::new();
    let mut i: usize = 0;
    while i < n
        invariant
            i <= n == s@.len(),
            v@ == s@.subrange(0, i as int),
        decreases n - i,
    {
        v.push(s.get_char(i));
        i = i + 1;
        assert(v@ =~= s@.subrange(0, i as int));
    }
    assert(v@ =~= s@);
    v
}

/// The stem of a root file's name: after the last separator, before the first `.wmo` in any case.
pub fn file_stem(path: &str) -> (r: Vec<char>)
    ensures
        r@ == stem(path@),
{
    let c = chars_of(path);
    let n = c.len();
    let mut j: usize = n;
    assert(c@.subrange(0, n as int) =~= c@);
    while j > 0 && c[j - 1] != '/' && c[j - 1] != '\\'
        invariant
            j <= n == c@.len(),
            after_last_slash(c@) == after_last_slash(c@.subrange(0, j as int)),
        decreases j,
    {
        assert(c@.subrange(0, j as int).drop_last() =~= c@.subrange(0, j - 1));
        j = j - 1;
    }
    proof {
        assert(c@.subrange(0, n as int) =~= c@);
        if j > 0 {
            assert(is_separator(c@.subrange(0, j as int).last()));
        }
    }
    let ghost tail = c@.subrange(j as int, n as int);
    let mut tail_chars: Vec<char> = Vec::new();
    let mut k: usize = j;
    while k < n
        invariant
            j <= k <= n == c@.len(),
            tail_chars@ == c@.subrange(j as int, k as int),
        decreases n - k,
    {
        tail_chars.push(c[k]);
        k = k + 1;
        assert(tail_chars@ =~= c@.subrange(j as int, k as int));
    }
    let m = tail_chars.len();
    let mut i: usize = 0;
    while i < m && m - i >= 4 && !marker_at(&tail_chars, i)
        invariant
            i <= m == tail.len(),
            tail_chars@ == tail,
            marker_from(tail, 0) == marker_from(tail, i as int),
        decreases m - i,
    {
        i = i + 1;
    }
    let end = if i < m && m - i >= 4 {
        i
    } else {
        m
    };
    assert(end == marker_from(tail, 0));
    let mut out: Vec<char> = Vec::new();
    let mut p: usize = 0;
    while p < end
        invariant
            p <= end <= m == tail.len(),
            tail_chars@ == tail,
            out@ == tail.subrange(0, p as int),
        decreases end - p,
    {
        out.push(tail_chars[p]);
        p = p + 1;
        assert(out@ =~= tail.subrange(0, p as int));
    }
    out
}

/// The names of the group files that belong to the root file `root_file_name`; none
/// when the root declares no groups. Directories in the name play no part.
pub fn get_group_names(n_groups: u32, root_file_name: &str) -> (r: Vec<String>)
    ensures
        r@.len() == n_groups,
        forall|i: int| 0 <= i < n_groups ==> (#[trigger] r@[i])@ == group_name(root_file_name@, i as nat),
{
    let file_name = file_stem(root_file_name);
    let mut names: Vec<String> = Vec::new();
    let mut index: u32 = 0;
    while index < n_groups
        invariant
            index <= n_groups,
            file_name@ == stem(root_file_name@),
            names@.len() == index,
            forall|i: int| 0 <= i < index ==> (#[trigger] names@[i])@ == group_name(root_file_name@, i as nat),
        decreases n_groups - index,
    {
        let mut s = String::new();
        let mut k: usize = 0;
        while k < file_name.len()
            invariant
                k <= file_name@.len(),
                s@ == file_name@.subrange(0, k as int),
            decreases file_name@.len() - k,
        {
            s.push(file_name[k]);
            k = k + 1;
            assert(s@ =~= file_name@.subrange(0, k as int));
        }
        assert(file_name@.subrange(0, file_name@.len() as int) =~= file_name@);
        s.push('_');
        push_padded_index(&mut s, index);
        s.push('.');
        s.push('w');
        s.push('m');
        s.push('o');
        assert(s@ =~= group_name(root_file_name@, index as nat));
        names.push(s);
        index = index + 1;
    }
    names
}

} // verus!
