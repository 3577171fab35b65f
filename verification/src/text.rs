use vstd::prelude::*;
use vstd::string::StrSliceExecFns;

verus! {

/// The Unicode `White_Space` characters, the set that trimming removes
/// from the ends of a string.
pub open spec fn is_ws(c: char) -> bool {
    ||| c as u32 == 0x20
    ||| c as u32 == 0x09
    ||| c as u32 == 0x0A
    ||| c as u32 == 0x0B
    ||| c as u32 == 0x0C
    ||| c as u32 == 0x0D
    ||| c as u32 == 0x85
    ||| c as u32 == 0xA0
    ||| c as u32 == 0x1680
    ||| (0x2000 <= c as u32 && c as u32 <= 0x200A)
    ||| c as u32 == 0x2028
    ||| c as u32 == 0x2029
    ||| c as u32 == 0x202F
    ||| c as u32 == 0x205F
    ||| c as u32 == 0x3000
}

/// Decides `is_ws` on a single character.
pub fn is_whitespace_char(c: char) -> (r: bool)
    ensures
        r == is_ws(c),
{
    let n = c as u32;
    n == 0x20 || n == 0x09 || n == 0x0A || n == 0x0B || n == 0x0C || n == 0x0D || n == 0x85
        || n == 0xA0 || n == 0x1680 || (0x2000 <= n && n <= 0x200A) || n == 0x2028 || n == 0x2029
        || n == 0x202F || n == 0x205F || n == 0x3000
}

/// The sequence with its leading whitespace removed.
pub open spec fn drop_leading_ws(s: Seq<char>) -> Seq<char>
    decreases s.len(),
{
    if s.len() > 0 && is_ws(s[0]) {
        drop_leading_ws(s.drop_first())
    } else {
        s
    }
}

/// The sequence with its trailing whitespace removed.
pub open spec fn drop_trailing_ws(s: Seq<char>) -> Seq<char>
    decreases s.len(),
{
    if s.len() > 0 && is_ws(s.last()) {
        drop_trailing_ws(s.drop_last())
    } else {
        s
    }
}

/// The sequence with whitespace removed from both ends, as `str::trim`
/// returns it.
pub open spec fn trim_spec(s: Seq<char>) -> Seq<char> {
    drop_trailing_ws(drop_leading_ws(s))
}

proof fn lemma_drop_leading_ws(s: Seq<char>, i: int)
    requires
        0 <= i <= s.len(),
        forall|k: int| 0 <= k < i ==> is_ws(s[k]),
        i < s.len() ==> !is_ws(s[i]),
    ensures
        drop_leading_ws(s) == s.subrange(i, s.len() as int),
    decreases i,
{
    if i == 0 {
        assert(s.subrange(0, s.len() as int) =~= s);
    } else {
        let t = s.drop_first();
        assert(forall|k: int| 0 <= k < i - 1 ==> is_ws(#[trigger] t[k]));
        lemma_drop_leading_ws(t, i - 1);
        assert(t.subrange(i - 1, t.len() as int) =~= s.subrange(i, s.len() as int));
    }
}

proof fn lemma_drop_trailing_ws(s: Seq<char>, j: int)
    requires
        0 <= j <= s.len(),
        forall|k: int| j <= k < s.len() ==> is_ws(s[k]),
        j > 0 ==> !is_ws(s[j - 1]),
    ensures
        drop_trailing_ws(s) == s.subrange(0, j),
    decreases s.len() - j,
{
    if j == s.len() {
        assert(s.subrange(0, j) =~= s);
    } else {
        let t = s.drop_last();
        assert(forall|k: int| j <= k < t.len() ==> is_ws(#[trigger] t[k]));
        lemma_drop_trailing_ws(t, j);
        assert(t.subrange(0, j) =~= s.subrange(0, j));
    }
}

/// Index of the first non-whitespace character at or after `i`, or `n`
/// if only whitespace remains.
fn scan_leading_ws(s: &str, i: usize, n: usize) -> (r: usize)
    requires
        n == s@.len(),
        i <= n,
    ensures
        i <= r <= n,
        forall|k: int| i <= k < r ==> is_ws(s@[k]),
        r < n ==> !is_ws(s@[r as int]),
    decreases n - i,
{
    if i < n {
        if is_whitespace_char(s.get_char(i)) {
            scan_leading_ws(s, i + 1, n)
        } else {
            i
        }
    } else {
        n
    }
}

/// Index one past the last non-whitespace character before `j`, or `i`
/// if only whitespace lies between `i` and `j`.
fn scan_trailing_ws(s: &str, i: usize, j: usize) -> (r: usize)
    requires
        j <= s@.len(),
        i <= j,
    ensures
        i <= r <= j,
        forall|k: int| r <= k < j ==> is_ws(s@[k]),
        r > i ==> !is_ws(s@[r - 1]),
    decreases j - i,
{
    if j > i {
        if is_whitespace_char(s.get_char(j - 1)) {
            scan_trailing_ws(s, i, j - 1)
        } else {
            j
        }
    } else {
        i
    }
}

/// The text with its trailing `/` separators and trailing `.` components
/// removed; neither takes part in naming a file.
pub open spec fn strip_non_name(s: Seq<char>) -> Seq<char>
    decreases s.len(),
{
    if s.len() == 0 {
        s
    } else if s.last() == '/' {
        strip_non_name(s.drop_last())
    } else if s.last() == '.' && (s.len() == 1 || s[s.len() - 2] == '/') {
        strip_non_name(s.drop_last())
    } else {
        s
    }
}

/// The text after the last `/`, or the whole text when no `/` occurs.
pub open spec fn last_component(s: Seq<char>) -> Seq<char>
    decreases s.len(),
{
    if s.len() == 0 {
        s
    } else if s.last() == '/' {
        Seq::<char>::empty()
    } else {
        last_component(s.drop_last()).push(s.last())
    }
}

/// The parent-directory component, which never names a file.
pub open spec fn is_dot_dot(n: Seq<char>) -> bool {
    n.len() == 2 && n[0] == '.' && n[1] == '.'
}

/// The name a path refers to, as `std::path::Path::file_name` yields it:
/// trailing `/` separators and `.` components are ignored, the text after
/// the last remaining `/` is the component, and a path terminating in the
/// parent component `..` has no name.
pub open spec fn file_name_part(s: Seq<char>) -> Seq<char> {
    let n = last_component(strip_non_name(s));
    if is_dot_dot(n) {
        Seq::<char>::empty()
    } else {
        n
    }
}

/// Whether the path's name carries a file extension: some `.` after the
/// name's first character.
pub open spec fn has_extension(s: Seq<char>) -> bool {
    let n = file_name_part(s);
    exists|i: int| 1 <= i < n.len() && n[i] == '.'
}

/// The filename normalization rule: a name without an extension gets
/// `.` and the default extension appended; any other name is unchanged.
pub open spec fn with_default_ext_spec(s: Seq<char>, ext: Seq<char>) -> Seq<char> {
    if has_extension(s) {
        s
    } else {
        s + seq!['.'] + ext
    }
}

proof fn lemma_last_component(s: Seq<char>, r: int)
    requires
        0 <= r <= s.len(),
        forall|k: int| r <= k < s.len() ==> s[k] != '/',
        r > 0 ==> s[r - 1] == '/',
    ensures
        last_component(s) == s.subrange(r, s.len() as int),
    decreases s.len(),
{
    if s.len() == 0 {
        assert(s.subrange(0, 0) =~= s);
    } else if r == s.len() {
        assert(s.last() == '/');
        assert(s.subrange(r, s.len() as int) =~= Seq::<char>::empty());
    } else {
        assert(s.last() != '/');
        let t = s.drop_last();
        lemma_last_component(t, r);
        assert(t.subrange(r, t.len() as int).push(s.last()) =~= s.subrange(r, s.len() as int));
    }
}

/// Appending characters that are not `/` extends the last component.
proof fn lemma_last_component_append(s: Seq<char>, u: Seq<char>)
    requires
        forall|k: int| 0 <= k < u.len() ==> u[k] != '/',
    ensures
        last_component(s + u) == last_component(s) + u,
    decreases u.len(),
{
    if u.len() == 0 {
        assert(s + u =~= s);
        assert(last_component(s) + u =~= last_component(s));
    } else {
        let su = s + u;
        assert(su.last() == u.last());
        assert(su.drop_last() =~= s + u.drop_last());
        lemma_last_component_append(s, u.drop_last());
        assert(last_component(s + u.drop_last()).push(u.last()) =~= last_component(s) + u);
    }
}

/// Normalizing a filename twice gives the same result as normalizing it
/// once, for every non-empty name not ending in `/` and every non-empty
/// default extension free of `/`.
pub proof fn lemma_with_default_ext_idempotent(s: Seq<char>, ext: Seq<char>)
    requires
        s.len() > 0,
        s.last() != '/',
        ext.len() > 0,
        forall|k: int| 0 <= k < ext.len() ==> ext[k] != '/',
    ensures
        with_default_ext_spec(with_default_ext_spec(s, ext), ext) == with_default_ext_spec(s, ext),
{
    if !has_extension(s) {
        let u = seq!['.'] + ext;
        let t = s + seq!['.'] + ext;
        assert(t =~= s + u);
        assert(forall|k: int| 0 <= k < u.len() ==> u[k] != '/');
        lemma_last_component_append(s, u);
        let n = last_component(t);
        assert(n == last_component(s) + u);
        assert(last_component(s).len() > 0);
        assert(n.len() >= 3);
        assert(t.last() == ext.last());
        if ext.len() == 1 {
            assert(t[t.len() - 2] == '.');
        } else {
            assert(t[t.len() - 2] == ext[ext.len() - 2]);
        }
        assert(strip_non_name(t) == t);
        assert(!is_dot_dot(n));
        assert(file_name_part(t) == n);
        assert(n[last_component(s).len() as int] == '.');
        assert(has_extension(t));
    }
}

/// Index one past the last character of `s[..j]` that survives the
/// stripping of trailing `/` separators and `.` components.
fn strip_non_name_end(s: &str, j: usize) -> (r: usize)
    requires
        j <= s@.len(),
    ensures
        r <= j,
        s@.subrange(0, r as int) == strip_non_name(s@.subrange(0, j as int)),
    decreases j,
{
    let ghost t = s@.subrange(0, j as int);
    if j == 0 {
        proof {
            assert(s@.subrange(0, 0) =~= t);
        }
        0
    } else {
        let c = s.get_char(j - 1);
        proof {
            assert(t.last() == s@[j - 1]);
            assert(t.drop_last() =~= s@.subrange(0, j - 1));
        }
        if c == '/' {
            strip_non_name_end(s, j - 1)
        } else if c == '.' && (j == 1 || s.get_char(j - 2) == '/') {
            proof {
                if j > 1 {
                    assert(t[t.len() - 2] == s@[j - 2]);
                }
            }
            strip_non_name_end(s, j - 1)
        } else {
            proof {
                if j > 1 {
                    assert(t[t.len() - 2] == s@[j - 2]);
                }
                assert(strip_non_name(t) == t);
            }
            j
        }
    }
}

/// Index of the start of the final path component within `s[..j]`: the
/// position after the last `/`, or 0 when no `/` occurs.
fn file_name_start(s: &str, j: usize) -> (r: usize)
    requires
        j <= s@.len(),
    ensures
        r <= j,
        forall|k: int| r <= k < j ==> s@[k] != '/',
        r > 0 ==> s@[r - 1] == '/',
    decreases j,
{
    if j > 0 {
        if s.get_char(j - 1) == '/' {
            j
        } else {
            file_name_start(s, j - 1)
        }
    } else {
        0
    }
}

/// The bounds of the path's name within `s`: the name is
/// `s[r.0 .. r.1]`, empty when the path names nothing.
fn file_name_bounds(s: &str) -> (r: (usize, usize))
    ensures
        r.0 <= r.1 <= s@.len(),
        file_name_part(s@) == s@.subrange(r.0 as int, r.1 as int),
    decreases s@.len(),
{
    let n = s.unicode_len();
    let end = strip_non_name_end(s, n);
    let start = file_name_start(s, end);
    proof {
        assert(s@.subrange(0, n as int) =~= s@);
        let t = s@.subrange(0, end as int);
        lemma_last_component(t, start as int);
        assert(t.subrange(start as int, t.len() as int) =~= s@.subrange(
            start as int,
            end as int,
        ));
    }
    let ghost component = s@.subrange(start as int, end as int);
    if end - start == 2 && s.get_char(start) == '.' && s.get_char(start + 1) == '.' {
        proof {
            assert(is_dot_dot(component));
            assert(s@.subrange(end as int, end as int) =~= Seq::<char>::empty());
        }
        (end, end)
    } else {
        proof {
            assert(!is_dot_dot(component));
        }
        (start, end)
    }
}

/// Extracts the name a path refers to, ignoring trailing `/` separators
/// and `.` components; empty when the path names nothing.
pub fn file_name_part_exec(s: &str) -> (r: &str)
    ensures
        r@ == file_name_part(s@),
{
    let (start, end) = file_name_bounds(s);
    s.substring_char(start, end)
}

/// Whether some character in `s[i..e]` is a `.`.
fn find_dot(s: &str, i: usize, e: usize) -> (r: bool)
    requires
        i <= e <= s@.len(),
    ensures
        r == exists|k: int| i <= k < e && s@[k] == '.',
    decreases e - i,
{
    if i < e {
        if s.get_char(i) == '.' {
            true
        } else {
            find_dot(s, i + 1, e)
        }
    } else {
        false
    }
}

/// Decides `has_extension`.
pub fn has_extension_exec(s: &str) -> (r: bool)
    ensures
        r == has_extension(s@),
{
    let (start, end) = file_name_bounds(s);
    let ghost part = file_name_part(s@);
    if start < end {
        let found = find_dot(s, start + 1, end);
        proof {
            if found {
                let k = choose|k: int| start + 1 <= k < end && s@[k] == '.';
                assert(part[k - start] == '.');
            }
            if exists|i: int| 1 <= i < part.len() && part[i] == '.' {
                let i = choose|i: int| 1 <= i < part.len() && part[i] == '.';
                assert(s@[i + start] == '.');
            }
        }
        found
    } else {
        false
    }
}

fn chars_eq(a: &str, b: &str, i: usize, n: usize) -> (r: bool)
    requires
        i <= n,
        n == a@.len(),
        n == b@.len(),
    ensures
        r == (forall|k: int| i <= k < n ==> a@[k] == b@[k]),
    decreases n - i,
{
    if i < n {
        if a.get_char(i) == b.get_char(i) {
            chars_eq(a, b, i + 1, n)
        } else {
            false
        }
    } else {
        true
    }
}

/// Whether two string slices hold the same characters.
pub fn str_eq(a: &str, b: &str) -> (r: bool)
    ensures
        r == (a@ == b@),
{
    let n = a.unicode_len();
    let m = b.unicode_len();
    if n != m {
        return false;
    }
    let r = chars_eq(a, b, 0, n);
    proof {
        if r {
            assert(a@ =~= b@);
        }
    }
    r
}

/// The concatenation of two string slices.
pub fn concat2(a: &str, b: &str) -> (r: String)
    ensures
        r@ == a@ + b@,
{
    let mut r = a.to_owned();
    r.append(b);
    r
}

/// The concatenation of three string slices.
pub fn concat3(a: &str, b: &str, c: &str) -> (r: String)
    ensures
        r@ == a@ + b@ + c@,
{
    let mut r = a.to_owned();
    r.append(b);
    r.append(c);
    r
}

/// The concatenation of four string slices.
pub fn concat4(a: &str, b: &str, c: &str, d: &str) -> (r: String)
    ensures
        r@ == a@ + b@ + c@ + d@,
{
    let mut r = a.to_owned();
    r.append(b);
    r.append(c);
    r.append(d);
    r
}

/// Appends `.` and the default extension when the name has no extension,
/// and returns the name unchanged otherwise.
pub fn with_default_extension(name: &str, ext: &str) -> (r: String)
    ensures
        r@ == with_default_ext_spec(name@, ext@),
{
    if has_extension_exec(name) {
        name.to_owned()
    } else {
        let r = concat3(name, ".", ext);
        proof {
            reveal_strlit(".");
            assert("."@ =~= seq!['.']);
        }
        r
    }
}

/// Removes leading and trailing whitespace, as `str::trim` does.
pub fn trim(s: &str) -> (r: &str)
    ensures
        r@ == trim_spec(s@),
{
    let n = s.unicode_len();
    let i = scan_leading_ws(s, 0, n);
    let j = scan_trailing_ws(s, i, n);
    let r = s.substring_char(i, j);
    proof {
        lemma_drop_leading_ws(s@, i as int);
        let t = s@.subrange(i as int, s@.len() as int);
        assert(forall|k: int|
            j - i <= k < t.len() ==> is_ws(#[trigger] t[k]));
        lemma_drop_trailing_ws(t, j - i);
        assert(t.subrange(0, j - i) =~= s@.subrange(i as int, j as int));
    }
    r
}

} // verus!
