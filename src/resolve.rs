//! Reconciles the server's content type, the sniffed content and the URL into
//! one MIME type, and the content disposition and the URL into one file name
//! whose extension agrees with that type.
use crate::text::{eq_ignore_ascii_case, equals_ignore_ascii_case, trim, trimmed};
use vstd::prelude::*;

verus! {

// ---- what the outside crates compute ----

/// The text of the MIME type that `mime::Mime`'s parser reads from `s`.
pub uninterp spec fn parsed_mime(s: Seq<char>) -> Option<Seq<char>>;

/// The MIME type that `mime_guess` guesses from the extension of `path`.
pub uninterp spec fn path_guess(path: Seq<char>) -> Seq<char>;

/// The MIME type that `infer` recognizes from the leading bytes of `data`.
pub uninterp spec fn sniffed_type(data: Seq<u8>) -> Option<Seq<char>>;

/// The extensions that `mime_guess` knows for a MIME type, canonical one first.
pub uninterp spec fn extensions_of(mime: Seq<char>) -> Option<Seq<Seq<char>>>;

/// Relies on `<mime::Mime as FromStr>::from_str` and the parsed type's `Display`.
#[verifier::external_body]
fn parse_mime(s: &str) -> (r: Option<String>)
    ensures
        r matches Some(m) ==> parsed_mime(s@) == Some(m@),
        r is None ==> parsed_mime(s@) is None,
{
    match s.parse::<mime_guess::Mime>() {
        Ok(m) => Some(m.to_string()),
        Err(_) => None,
    }
}

/// Relies on `mime_guess::from_path(..).first_or_octet_stream()`: the first
/// type known for the path's extension, else `application/octet-stream`.
#[verifier::external_body]
fn guess_from_path(path: &str) -> (r: String)
    ensures
        r@ == path_guess(path@),
{
    mime_guess::from_path(path).first_or_octet_stream().to_string()
}

/// Relies on `infer::get` and `infer::Type::mime_type`: the type recognized
/// from the content's signature, if any.
#[verifier::external_body]
fn sniff_mime(data: &[u8]) -> (r: Option<String>)
    ensures
        r matches Some(m) ==> sniffed_type(data@) == Some(m@),
        r is None ==> sniffed_type(data@) is None,
{
    match infer::get(data) {
        Some(kind) => Some(kind.mime_type().to_string()),
        None => None,
    }
}

/// Relies on `mime_guess::get_mime_extensions_str`: the known extensions of a
/// type, looked up by `<type>/<subtype>` without parameters.
#[verifier::external_body]
fn mime_extensions(mime: &str) -> (r: Option<Vec<String>>)
    ensures
        r matches Some(v) ==> extensions_of(mime@) == Some(v.deep_view()),
        r is None ==> extensions_of(mime@) is None,
{
    match mime_guess::get_mime_extensions_str(mime) {
        Some(exts) => Some(exts.iter().map(|e| e.to_string()).collect()),
        None => None,
    }
}

// ---- the MIME type ----

/// The type the server claims: its content type when that parses, else a
/// guess from the URL path's extension (generic binary when there is none).
pub open spec fn declared_mime(content_type: Option<Seq<char>>, url_path: Seq<char>) -> Seq<char> {
    match content_type {
        Some(c) => match parsed_mime(c) {
            Some(m) => m,
            None => path_guess(url_path),
        },
        None => path_guess(url_path),
    }
}

/// The final type: the content's signature outranks what the server claims.
pub open spec fn resolved_mime(
    content_type: Option<Seq<char>>,
    url_path: Seq<char>,
    data: Seq<u8>,
) -> Seq<char> {
    match sniffed_type(data) {
        Some(s) => match parsed_mime(s) {
            Some(m) => m,
            None => declared_mime(content_type, url_path),
        },
        None => declared_mime(content_type, url_path),
    }
}

pub open spec fn opt_view(o: Option<&str>) -> Option<Seq<char>> {
    match o {
        Some(s) => Some(s@),
        None => None,
    }
}

/// Resolves the MIME type of downloaded content.
pub fn resolve_mime_type(content_type: Option<&str>, url_path: &str, data: &[u8]) -> (r: String)
    ensures
        r@ == resolved_mime(opt_view(content_type), url_path@, data@),
{
    let declared = match content_type {
        Some(c) => match parse_mime(c) {
            Some(m) => m,
            None => guess_from_path(url_path),
        },
        None => guess_from_path(url_path),
    };
    match sniff_mime(data) {
        Some(s) => match parse_mime(s.as_str()) {
            Some(m) => m,
            None => declared,
        },
        None => declared,
    }
}

// ---- positions of characters ----

/// Index of the first `c` in `s`, or `s.len()` when there is none.
pub open spec fn index_of(s: Seq<char>, c: char) -> int
    decreases s.len(),
{
    if s.len() == 0 {
        0
    } else if s[0] == c {
        0
    } else {
        1 + index_of(s.drop_first(), c)
    }
}

/// Index of the last `c` in `s`, or -1 when there is none.
pub open spec fn last_index_of(s: Seq<char>, c: char) -> int
    decreases s.len(),
{
    if s.len() == 0 {
        -1
    } else if s.last() == c {
        s.len() - 1
    } else {
        last_index_of(s.drop_last(), c)
    }
}

proof fn lemma_index_of(s: Seq<char>, c: char, i: int)
    requires
        0 <= i <= s.len(),
        forall|j: int| 0 <= j < i ==> s[j] != c,
        i == s.len() || s[i] == c,
    ensures
        index_of(s, c) == i,
    decreases i,
{
    if i > 0 {
        lemma_index_of(s.drop_first(), c, i - 1);
    }
}

proof fn lemma_last_index_of(s: Seq<char>, c: char, i: int)
    requires
        -1 <= i < s.len(),
        forall|j: int| i < j < s.len() ==> s[j] != c,
        i == -1 || s[i] == c,
    ensures
        last_index_of(s, c) == i,
    decreases s.len(),
{
    if s.len() > 0 && i < s.len() - 1 {
        lemma_last_index_of(s.drop_last(), c, i);
    }
}

proof fn lemma_last_index_of_bounds(s: Seq<char>, c: char)
    ensures
        -1 <= last_index_of(s, c) < s.len(),
        last_index_of(s, c) >= 0 ==> s[last_index_of(s, c)] == c,
        forall|j: int| last_index_of(s, c) < j < s.len() ==> s[j] != c,
    decreases s.len(),
{
    if s.len() > 0 && s.last() != c {
        lemma_last_index_of_bounds(s.drop_last(), c);
        assert forall|j: int| last_index_of(s, c) < j < s.len() implies s[j] != c by {
            if j < s.len() - 1 {
                assert(s.drop_last()[j] == s[j]);
            }
        }
    }
}

/// The first `c` in `s` at or after `from`, or `s.len()`.
pub(crate) fn find_from(s: &str, from: usize, c: char) -> (r: usize)
    requires
        from <= s@.len(),
    ensures
        from <= r <= s@.len(),
        r == from + index_of(s@.subrange(from as int, s@.len() as int), c),
{
    let n = s.unicode_len();
    let mut i = from;
    while i < n && s.get_char(i) != c
        invariant
            from <= i <= n,
            n == s@.len(),
            forall|j: int| from <= j < i ==> s@[j] != c,
        decreases n - i,
    {
        i = i + 1;
    }
    proof {
        let t = s@.subrange(from as int, n as int);
        lemma_index_of(t, c, i - from);
    }
    i
}

/// The last `c` in `s` before `end`.
fn find_last_before(s: &str, end: usize, c: char) -> (r: Option<usize>)
    requires
        end <= s@.len(),
    ensures
        r matches Some(k) ==> k == last_index_of(s@.subrange(0, end as int), c) && k < end,
        r is None ==> last_index_of(s@.subrange(0, end as int), c) == -1,
{
    let mut j = end;
    while j > 0 && s.get_char(j - 1) != c
        invariant
            j <= end <= s@.len(),
            forall|k: int| j <= k < end ==> s@[k] != c,
        decreases j,
    {
        j = j - 1;
    }
    proof {
        lemma_last_index_of(s@.subrange(0, end as int), c, j - 1);
    }
    if j == 0 {
        None
    } else {
        Some(j - 1)
    }
}

// ---- candidate names ----

/// The value of a `filename=` parameter (name matched without regard to ASCII
/// case), trimmed and stripped of one pair of surrounding double quotes;
/// `None` when the part is no such parameter, or the value is empty or ends in
/// `/` (a directory, not a file name).
pub open spec fn filename_param(part: Seq<char>) -> Option<Seq<char>> {
    if part.len() >= 9 && eq_ignore_ascii_case(part.subrange(0, 9), "filename="@) {
        let v = trimmed(part.subrange(9, part.len() as int));
        let name = if v.len() >= 2 && v[0] == '"' && v.last() == '"' {
            v.subrange(1, v.len() - 1)
        } else {
            v
        };
        if name.len() > 0 && name.last() != '/' {
            Some(name)
        } else {
            None
        }
    } else {
        None
    }
}

/// The first non-empty `filename=` value among the `;`-separated parts of a
/// content disposition.
pub open spec fn disposition_name(cd: Seq<char>) -> Option<Seq<char>>
    decreases cd.len(),
{
    let k = index_of(cd, ';');
    let found = filename_param(trimmed(cd.subrange(0, k)));
    if found is Some {
        found
    } else if 0 <= k < cd.len() {
        disposition_name(cd.subrange(k + 1, cd.len() as int))
    } else {
        None
    }
}

proof fn lemma_index_of_bounds(s: Seq<char>, c: char)
    ensures
        0 <= index_of(s, c) <= s.len(),
    decreases s.len(),
{
    if s.len() > 0 && s[0] != c {
        lemma_index_of_bounds(s.drop_first(), c);
    }
}

fn filename_in_part(part: &str) -> (r: Option<String>)
    ensures
        r matches Some(n) ==> filename_param(part@) == Some(n@),
        r is None ==> filename_param(part@) is None,
{
    let n = part.unicode_len();
    if n < 9 {
        return None;
    }
    if !equals_ignore_ascii_case(part.substring_char(0, 9), "filename=") {
        return None;
    }
    let v = trim(part.substring_char(9, n));
    let m = v.unicode_len();
    let name = if m >= 2 && v.get_char(0) == '"' && v.get_char(m - 1) == '"' {
        v.substring_char(1, m - 1)
    } else {
        v
    };
    let len = name.unicode_len();
    if len > 0 && name.get_char(len - 1) != '/' {
        Some(String::from_str(name))
    } else {
        None
    }
}

/// The file name that a content disposition gives, if any.
pub fn disposition_filename(cd: &str) -> (r: Option<String>)
    ensures
        r matches Some(n) ==> disposition_name(cd@) == Some(n@),
        r is None ==> disposition_name(cd@) is None,
{
    let n = cd.unicode_len();
    let mut pos: usize = 0;
    assert(cd@.subrange(0, n as int) =~= cd@);
    loop
        invariant
            pos <= n,
            n == cd@.len(),
            disposition_name(cd@) == disposition_name(cd@.subrange(pos as int, n as int)),
        decreases n - pos,
    {
        let k = find_from(cd, pos, ';');
        let ghost rest = cd@.subrange(pos as int, n as int);
        proof {
            lemma_index_of_bounds(rest, ';');
        }
        assert(rest.subrange(0, k - pos) =~= cd@.subrange(pos as int, k as int));
        let part = trim(cd.substring_char(pos, k));
        let found = filename_in_part(part);
        if found.is_some() {
            return found;
        }
        if k == n {
            return None;
        }
        assert(rest.subrange(k - pos + 1, rest.len() as int) =~= cd@.subrange(k + 1, n as int));
        pos = k + 1;
    }
}

/// The last segment of a URL path, as `url::Url::path_segments` splits it,
/// when it is not empty.
pub open spec fn path_last_segment(path: Seq<char>) -> Option<Seq<char>> {
    if path.len() > 0 && path[0] == '/' {
        let seg = path.subrange(last_index_of(path, '/') + 1, path.len() as int);
        if seg.len() > 0 {
            Some(seg)
        } else {
            None
        }
    } else {
        None
    }
}

/// The last segment of a URL path, if it is not empty.
pub fn url_file_name(path: &str) -> (r: Option<String>)
    ensures
        r matches Some(n) ==> path_last_segment(path@) == Some(n@),
        r is None ==> path_last_segment(path@) is None,
{
    let n = path.unicode_len();
    if n == 0 || path.get_char(0) != '/' {
        return None;
    }
    assert(path@.subrange(0, n as int) =~= path@);
    let k = match find_last_before(path, n, '/') {
        Some(k) => k,
        None => {
            assert(path@[0] == '/');
            proof {
                lemma_last_index_of_bounds(path@, '/');
                lemma_last_index_of(path@, '/', last_index_of(path@, '/'));
            }
            return None;
        },
    };
    if k + 1 == n {
        return None;
    }
    Some(String::from_str(path.substring_char(k + 1, n)))
}

// ---- extensions ----

/// The final component of a `/`-separated path as `Path::file_name` reads it
/// on Unix: empty and `.` components are skipped, `..` has no file name.
pub open spec fn file_name(s: Seq<char>) -> Option<Seq<char>>
    decreases s.len(),
{
    let k = last_index_of(s, '/');
    let last = s.subrange(k + 1, s.len() as int);
    if 0 <= k < s.len() && (last.len() == 0 || last == seq!['.']) {
        file_name(s.subrange(0, k))
    } else if last.len() == 0 || last == seq!['.'] || last == seq!['.', '.'] {
        None
    } else {
        Some(last)
    }
}

/// The extension of a file name as `Path::extension` reads it: the text after
/// the final `.`, unless that `.` starts the name; empty when there is none.
pub open spec fn name_extension(f: Seq<char>) -> Seq<char> {
    let k = last_index_of(f, '.');
    if k <= 0 {
        Seq::empty()
    } else {
        f.subrange(k + 1, f.len() as int)
    }
}

pub open spec fn path_extension(s: Seq<char>) -> Seq<char> {
    match file_name(s) {
        Some(f) => name_extension(f),
        None => Seq::empty(),
    }
}

/// The extension of a file name or path, empty when it has none.
pub fn file_extension(name: &str) -> (r: String)
    ensures
        r@ == path_extension(name@),
{
    let n = name.unicode_len();
    let mut end: usize = n;
    assert(name@.subrange(0, n as int) =~= name@);
    loop
        invariant
            end <= n,
            n == name@.len(),
            file_name(name@) == file_name(name@.subrange(0, end as int)),
        decreases end,
    {
        let ghost s = name@.subrange(0, end as int);
        let found = find_last_before(name, end, '/');
        let start = match found {
            Some(k) => k + 1,
            None => 0,
        };
        proof {
            lemma_last_index_of_bounds(s, '/');
        }
        let last = name.substring_char(start, end);
        assert(last@ =~= s.subrange(last_index_of(s, '/') + 1, s.len() as int));
        let len = end - start;
        let is_dot = len == 1 && last.get_char(0) == '.';
        let is_dots = len == 2 && last.get_char(0) == '.' && last.get_char(1) == '.';
        assert(is_dot <==> last@ == seq!['.']) by {
            if len == 1 && last@[0] == '.' {
                assert(last@ =~= seq!['.']);
            }
        }
        assert(is_dots <==> last@ == seq!['.', '.']) by {
            if len == 2 && last@[0] == '.' && last@[1] == '.' {
                assert(last@ =~= seq!['.', '.']);
            }
        }
        if found.is_some() && (len == 0 || is_dot) {
            assert(s.subrange(0, start - 1) =~= name@.subrange(0, start - 1));
            end = start - 1;
        } else if len == 0 || is_dot || is_dots {
            return String::new();
        } else {
            let dot = find_last_before(last, len, '.');
            assert(last@.subrange(0, len as int) =~= last@);
            return match dot {
                Some(d) => if d == 0 {
                    String::new()
                } else {
                    String::from_str(last.substring_char(d + 1, len))
                },
                None => String::new(),
            };
        }
    }
}

/// `ext` is among `exts`, ignoring ASCII case.
pub open spec fn accepted_extension(exts: Seq<Seq<char>>, ext: Seq<char>) -> bool {
    exists|i: int| 0 <= i < exts.len() && eq_ignore_ascii_case(#[trigger] exts[i], ext)
}

/// A name taken from the response keeps its extension when the type accepts
/// it; otherwise the type's canonical extension is appended.
pub open spec fn with_canonical_extension(name: Seq<char>, exts: Option<Seq<Seq<char>>>) -> Seq<
    char,
> {
    match exts {
        Some(e) => if e.len() > 0 && !accepted_extension(e, path_extension(name)) {
            name + "."@ + e[0]
        } else {
            name
        },
        None => name,
    }
}

/// The name a download gets when the response offers none.
pub open spec fn fallback_name(exts: Option<Seq<Seq<char>>>) -> Seq<char> {
    match exts {
        Some(e) => if e.len() > 0 {
            "media."@ + e[0]
        } else {
            "media"@
        },
        None => "media"@,
    }
}

/// The name the response offers: its content disposition's, else the last
/// segment of the final URL's path.
pub open spec fn offered_name(cd: Option<Seq<char>>, url_path: Seq<char>) -> Option<Seq<char>> {
    let from_cd = match cd {
        Some(c) => disposition_name(c),
        None => None,
    };
    if from_cd is Some {
        from_cd
    } else {
        path_last_segment(url_path)
    }
}

pub open spec fn name_from(offered: Option<Seq<char>>, exts: Option<Seq<Seq<char>>>) -> Seq<char> {
    match offered {
        Some(n) => with_canonical_extension(n, exts),
        None => fallback_name(exts),
    }
}

pub open spec fn resolved_filename(mime: Seq<char>, cd: Option<Seq<char>>, url_path: Seq<char>) -> Seq<
    char,
> {
    name_from(offered_name(cd, url_path), extensions_of(mime))
}

pub open spec fn exts_view(exts: &Option<Vec<String>>) -> Option<Seq<Seq<char>>> {
    match exts {
        Some(v) => Some(v.deep_view()),
        None => None,
    }
}

fn is_accepted(exts: &Vec<String>, ext: &str) -> (r: bool)
    ensures
        r == accepted_extension(exts.deep_view(), ext@),
{
    let mut i: usize = 0;
    while i < exts.len()
        invariant
            i <= exts@.len(),
            forall|j: int| 0 <= j < i ==> !eq_ignore_ascii_case(#[trigger] exts.deep_view()[j], ext@),
        decreases exts@.len() - i,
    {
        if equals_ignore_ascii_case(exts[i].as_str(), ext) {
            assert(exts.deep_view()[i as int] == exts@[i as int]@);
            return true;
        }
        assert(exts.deep_view()[i as int] == exts@[i as int]@);
        i = i + 1;
    }
    false
}

/// The final file name, from the offered name (if any) and the extensions
/// known for the resolved type.
pub fn name_with_extensions(offered: Option<String>, exts: &Option<Vec<String>>) -> (r: String)
    ensures
        r@ == name_from(
            match offered {
                Some(n) => Some(n@),
                None => None,
            },
            exts_view(exts),
        ),
{
    match offered {
        Some(name) => match exts {
            Some(e) => {
                if e.len() > 0 {
                    let cur = file_extension(name.as_str());
                    if !is_accepted(e, cur.as_str()) {
                        let mut full = name;
                        full.append(".");
                        full.append(e[0].as_str());
                        return full;
                    }
                }
                name
            },
            None => name,
        },
        None => match exts {
            Some(e) => {
                if e.len() > 0 {
                    let mut full = String::from_str("media.");
                    full.append(e[0].as_str());
                    full
                } else {
                    String::from_str("media")
                }
            },
            None => String::from_str("media"),
        },
    }
}

/// The file name of a download whose type is `mime`.
pub fn resolve_filename(mime: &str, content_disposition: Option<&str>, url_path: &str) -> (r: String)
    ensures
        r@ == resolved_filename(mime@, opt_view(content_disposition), url_path@),
{
    let from_cd = match content_disposition {
        Some(c) => disposition_filename(c),
        None => None,
    };
    let offered = if from_cd.is_some() {
        from_cd
    } else {
        url_file_name(url_path)
    };
    let exts = mime_extensions(mime);
    name_with_extensions(offered, &exts)
}

// ---- the agreement of name and type ----

/// An extension that can follow a dot on its own: non-empty, with no `.` or `/`.
pub open spec fn plain_extension(e: Seq<char>) -> bool {
    e.len() > 0 && forall|i: int| 0 <= i < e.len() ==> #[trigger] e[i] != '.' && e[i] != '/'
}

proof fn lemma_disposition_name_nonempty(cd: Seq<char>)
    ensures
        disposition_name(cd) matches Some(n) ==> n.len() > 0 && n.last() != '/',
    decreases cd.len(),
{
    let k = index_of(cd, ';');
    if filename_param(trimmed(cd.subrange(0, k))) is None && 0 <= k < cd.len() {
        lemma_disposition_name_nonempty(cd.subrange(k + 1, cd.len() as int));
    }
}

/// Appending `.` and a plain extension to a non-empty name that does not end
/// in `/` gives a name with that extension.
proof fn lemma_appended_extension(n: Seq<char>, e: Seq<char>)
    requires
        n.len() > 0,
        n.last() != '/',
        plain_extension(e),
    ensures
        path_extension(n + seq!['.'] + e) == e,
{
    let full = n + seq!['.'] + e;
    lemma_last_index_of_bounds(n, '/');
    let k = last_index_of(n, '/');
    assert(k < n.len() - 1);
    assert forall|j: int| k < j < full.len() implies full[j] != '/' by {
        if j < n.len() {
            assert(full[j] == n[j]);
        } else if j > n.len() {
            assert(full[j] == e[j - n.len() - 1]);
        }
    }
    lemma_last_index_of(full, '/', k);
    let last = full.subrange(k + 1, full.len() as int);
    assert(last.len() >= 3);
    assert(last != seq!['.']);
    assert(file_name(full) == Some(last));
    let p = n.len() - k - 1;
    assert(last[p] == '.');
    assert forall|j: int| p < j < last.len() implies last[j] != '.' by {
        assert(last[j] == e[j - p - 1]);
    }
    lemma_last_index_of(last, '.', p);
    assert(last.subrange(p + 1, last.len() as int) =~= e);
}

/// Whenever the resolved type's canonical extension is a plain word, the final
/// file name carries an extension that the type accepts (ignoring ASCII case).
pub proof fn filename_extension_is_consistent(
    mime: Seq<char>,
    cd: Option<Seq<char>>,
    url_path: Seq<char>,
)
    requires
        extensions_of(mime) matches Some(e) && e.len() > 0 && plain_extension(e[0]),
    ensures
        accepted_extension(
            extensions_of(mime).unwrap(),
            path_extension(resolved_filename(mime, cd, url_path)),
        ),
{
    let e = extensions_of(mime).unwrap();
    let name = resolved_filename(mime, cd, url_path);
    reveal_strlit(".");
    reveal_strlit("media.");
    assert("."@ =~= seq!['.']);
    match offered_name(cd, url_path) {
        Some(n) => {
            if let Some(c) = cd {
                lemma_disposition_name_nonempty(c);
            }
            lemma_last_index_of_bounds(url_path, '/');
            if url_path.len() > 0 {
                assert(url_path[url_path.len() - 1] == url_path.last());
            }
            if !accepted_extension(e, path_extension(n)) {
                lemma_appended_extension(n, e[0]);
                assert(eq_ignore_ascii_case(e[0], path_extension(name)));
            }
        },
        None => {
            let stem = seq!['m', 'e', 'd', 'i', 'a'];
            assert("media."@ =~= stem + seq!['.']);
            lemma_appended_extension(stem, e[0]);
            assert(eq_ignore_ascii_case(e[0], path_extension(name)));
        },
    }
}

} // verus!
