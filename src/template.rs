use vstd::prelude::*;

verus! {

/// Named values that a template's placeholders are filled from, as `(name, value)` pairs.
pub type Fields = Seq<(Seq<char>, Seq<char>)>;

pub open spec fn fields_view(f: Seq<(String, String)>) -> Fields {
    f.map_values(|p: (String, String)| (p.0@, p.1@))
}

/// Characters that a placeholder name may hold.
pub open spec fn is_name_char(c: char) -> bool {
    ('a' <= c && c <= 'z') || c == '_'
}

pub open spec fn is_name(s: Seq<char>) -> bool {
    s.len() > 0 && forall|i: int| 0 <= i < s.len() ==> is_name_char(#[trigger] s[i])
}

pub open spec fn has_key(f: Fields, k: Seq<char>) -> bool {
    exists|i: int| 0 <= i < f.len() && (#[trigger] f[i]).0 == k
}

/// The value of `k` in `f`; the last pair wins where a name occurs twice.
pub open spec fn lookup(f: Fields, k: Seq<char>) -> Seq<char>
    decreases f.len(),
{
    if f.len() == 0 {
        Seq::empty()
    } else if f.last().0 == k {
        f.last().1
    } else {
        lookup(f.drop_last(), k)
    }
}

/// Blanks that may pad a placeholder's name inside its braces.
pub open spec fn is_pad(c: char) -> bool {
    c == ' ' || c == '\t'
}

/// The first index in `[j, k)` that holds no blank, or `k`.
pub open spec fn skip_pad(t: Seq<char>, j: int, k: int) -> int
    decreases k - j,
{
    if j >= k {
        k
    } else if is_pad(t[j]) {
        skip_pad(t, j + 1, k)
    } else {
        j
    }
}

/// The end of `[a, k)` once trailing blanks are cut off.
pub open spec fn trim_pad(t: Seq<char>, a: int, k: int) -> int
    decreases k - a,
{
    if k <= a {
        a
    } else if is_pad(t[k - 1]) {
        trim_pad(t, a, k - 1)
    } else {
        k
    }
}

/// The name of the placeholder whose braces stand at `i` and `k`, blanks cut off.
pub open spec fn tag_name(t: Seq<char>, i: int, k: int) -> Seq<char> {
    let a = skip_pad(t, i + 1, k);
    t.subrange(a, trim_pad(t, a, k))
}

/// Index of the first `}` at or after `j`, or the length of `t` if there is none.
pub open spec fn close_from(t: Seq<char>, j: int) -> int
    decreases t.len() - j,
{
    if j >= t.len() {
        t.len() as int
    } else if t[j] == '}' {
        j
    } else {
        close_from(t, j + 1)
    }
}

/// The text of `t` from index `i` on is a plain template over `f`: literal text,
/// `\{` for a literal `{`, and placeholders `{name}` or `{ name }` whose names
/// `f` holds. A backslash never ends the text.
pub open spec fn plain_from(t: Seq<char>, i: int, f: Fields) -> bool
    decreases t.len() - i,
{
    if i < 0 || i >= t.len() {
        i >= t.len()
    } else if t[i] == '\\' {
        i + 1 < t.len() && (if t[i + 1] == '{' {
            plain_from(t, i + 2, f)
        } else {
            plain_from(t, i + 1, f)
        })
    } else if t[i] == '{' {
        let k = close_from(t, i + 1);
        i < k && k < t.len() && is_name(tag_name(t, i, k)) && has_key(f, tag_name(t, i, k))
            && plain_from(t, k + 1, f)
    } else {
        plain_from(t, i + 1, f)
    }
}

pub open spec fn plain(t: Seq<char>, f: Fields) -> bool {
    plain_from(t, 0, f)
}

/// What a plain template renders to from index `i` on: literal text as it is,
/// `\{` as `{`, and each placeholder as its value, verbatim.
pub open spec fn expand_from(t: Seq<char>, i: int, f: Fields) -> Seq<char>
    decreases t.len() - i,
{
    if i < 0 || i >= t.len() {
        Seq::empty()
    } else if t[i] == '\\' && i + 1 < t.len() && t[i + 1] == '{' {
        seq!['{'] + expand_from(t, i + 2, f)
    } else if t[i] == '{' {
        let k = close_from(t, i + 1);
        if i < k && k < t.len() {
            lookup(f, tag_name(t, i, k)) + expand_from(t, k + 1, f)
        } else {
            Seq::empty()
        }
    } else {
        seq![t[i]] + expand_from(t, i + 1, f)
    }
}

pub open spec fn expand(t: Seq<char>, f: Fields) -> Seq<char> {
    expand_from(t, 0, f)
}


/// A name of `q` keeps its value when pairs are put before `q`.
pub proof fn lemma_lookup_suffix(p: Fields, q: Fields, k: Seq<char>)
    requires
        has_key(q, k),
    ensures
        has_key(p + q, k),
        lookup(p + q, k) == lookup(q, k),
    decreases q.len(),
{
    let i = choose|i: int| 0 <= i < q.len() && (#[trigger] q[i]).0 == k;
    assert((p + q)[p.len() + i].0 == k);
    if q.last().0 != k {
        assert(i < q.len() - 1);
        assert(q.drop_last()[i] == q[i]);
        lemma_lookup_suffix(p, q.drop_last(), k);
        assert((p + q).drop_last() =~= p + q.drop_last());
    }
}

/// A plain template stays plain, and renders the same, over fields that hold
/// every name of the first fields with the same value.
pub proof fn lemma_expand_restrict(t: Seq<char>, i: int, f1: Fields, f2: Fields)
    requires
        plain_from(t, i, f1),
        forall|k: Seq<char>| has_key(f1, k) ==> has_key(f2, k) && lookup(f2, k) == lookup(f1, k),
    ensures
        plain_from(t, i, f2),
        expand_from(t, i, f2) == expand_from(t, i, f1),
    decreases t.len() - i,
{
    if 0 <= i < t.len() {
        if t[i] == '\\' {
            if t[i + 1] == '{' {
                lemma_expand_restrict(t, i + 2, f1, f2);
            } else {
                lemma_expand_restrict(t, i + 1, f1, f2);
            }
        } else if t[i] == '{' {
            let k = close_from(t, i + 1);
            lemma_expand_restrict(t, k + 1, f1, f2);
        } else {
            lemma_expand_restrict(t, i + 1, f1, f2);
        }
    }
}

/// Index of the first `}` in `t` at or after `j`, or the length of `t`.
fn find_close(t: &str, j: usize) -> (k: usize)
    requires
        j <= t@.len(),
    ensures
        k == close_from(t@, j as int),
        j <= k <= t@.len(),
{
    let n = t.unicode_len();
    let mut k: usize = j;
    while k < n
        invariant
            n == t@.len(),
            j <= k <= n,
            close_from(t@, j as int) == close_from(t@, k as int),
        decreases n - k,
    {
        if t.get_char(k) == '}' {
            return k;
        }
        k = k + 1;
    }
    k
}

/// The first index in `[j, k)` of `t` that holds no blank, or `k`.
fn skip_blanks(t: &str, j: usize, k: usize) -> (a: usize)
    requires
        j <= k <= t@.len(),
    ensures
        a == skip_pad(t@, j as int, k as int),
        j <= a <= k,
{
    let mut a: usize = j;
    while a < k
        invariant
            j <= a <= k <= t@.len(),
            skip_pad(t@, j as int, k as int) == skip_pad(t@, a as int, k as int),
        decreases k - a,
    {
        let c = t.get_char(a);
        if !(c == ' ' || c == '\t') {
            return a;
        }
        a = a + 1;
    }
    a
}

/// The end of `[a, k)` of `t` once trailing blanks are cut off.
fn trim_blanks(t: &str, a: usize, k: usize) -> (b: usize)
    requires
        a <= k <= t@.len(),
    ensures
        b == trim_pad(t@, a as int, k as int),
        a <= b <= k,
{
    let mut b: usize = k;
    while b > a
        invariant
            a <= b <= k <= t@.len(),
            trim_pad(t@, a as int, k as int) == trim_pad(t@, a as int, b as int),
        decreases b - a,
    {
        let c = t.get_char(b - 1);
        if !(c == ' ' || c == '\t') {
            return b;
        }
        b = b - 1;
    }
    b
}

/// Whether the characters of `t` in `[from, to)` form a placeholder name.
fn name_at(t: &str, from: usize, to: usize) -> (r: bool)
    requires
        from <= to <= t@.len(),
    ensures
        r == is_name(t@.subrange(from as int, to as int)),
{
    let ghost s = t@.subrange(from as int, to as int);
    if from == to {
        return false;
    }
    let mut i: usize = from;
    while i < to
        invariant
            from <= i <= to <= t@.len(),
            s == t@.subrange(from as int, to as int),
            forall|m: int| 0 <= m < i - from ==> is_name_char(#[trigger] s[m]),
        decreases to - i,
    {
        let c = t.get_char(i);
        if !(('a' <= c && c <= 'z') || c == '_') {
            assert(s[i - from] == c);
            return false;
        }
        i = i + 1;
    }
    true
}

/// Whether `key` equals the characters of `t` in `[from, to)`.
fn same_text(key: &str, t: &str, from: usize, to: usize) -> (r: bool)
    requires
        from <= to <= t@.len(),
    ensures
        r == (key@ == t@.subrange(from as int, to as int)),
{
    let ghost s = t@.subrange(from as int, to as int);
    let n = key.unicode_len();
    if n != to - from {
        return false;
    }
    let mut i: usize = 0;
    while i < n
        invariant
            n == key@.len(),
            n == to - from,
            from <= to <= t@.len(),
            s == t@.subrange(from as int, to as int),
            0 <= i <= n,
            forall|m: int| 0 <= m < i ==> key@[m] == s[m],
        decreases n - i,
    {
        if key.get_char(i) != t.get_char(from + i) {
            return false;
        }
        i = i + 1;
    }
    assert(key@ =~= s);
    true
}

/// Whether some pair of `fields` is named by the characters of `t` in `[from, to)`.
fn has_field(fields: &Vec<(String, String)>, t: &str, from: usize, to: usize) -> (r: bool)
    requires
        from <= to <= t@.len(),
    ensures
        r == has_key(fields_view(fields@), t@.subrange(from as int, to as int)),
{
    let ghost f = fields_view(fields@);
    let ghost k = t@.subrange(from as int, to as int);
    let mut j: usize = 0;
    while j < fields.len()
        invariant
            f == fields_view(fields@),
            k == t@.subrange(from as int, to as int),
            from <= to <= t@.len(),
            0 <= j <= fields.len(),
            forall|m: int| 0 <= m < j ==> (#[trigger] f[m]).0 != k,
        decreases fields.len() - j,
    {
        if same_text(fields[j].0.as_str(), t, from, to) {
            assert(f[j as int].0 == k);
            return true;
        }
        j = j + 1;
    }
    false
}

/// Whether `t` is a plain template over `fields`.
pub fn check_plain(t: &str, fields: &Vec<(String, String)>) -> (r: bool)
    ensures
        r == plain(t@, fields_view(fields@)),
{
    let ghost f = fields_view(fields@);
    let n = t.unicode_len();
    let mut i: usize = 0;
    while i < n
        invariant
            n == t@.len(),
            f == fields_view(fields@),
            0 <= i <= n,
            plain(t@, f) == plain_from(t@, i as int, f),
        decreases n - i,
    {
        let c = t.get_char(i);
        if c == '\\' {
            if i + 1 >= n {
                return false;
            }
            if t.get_char(i + 1) == '{' {
                i = i + 2;
            } else {
                i = i + 1;
            }
        } else if c == '{' {
            let k = find_close(t, i + 1);
            if k >= n {
                return false;
            }
            let a = skip_blanks(t, i + 1, k);
            let b = trim_blanks(t, a, k);
            if !name_at(t, a, b) {
                return false;
            }
            if !has_field(fields, t, a, b) {
                return false;
            }
            i = k + 1;
        } else {
            i = i + 1;
        }
    }
    true
}

#[verifier::external_type_specification]
#[verifier::external_body]
pub struct ExTemplateError(tinytemplate::error::Error);

/// Relies on tinytemplate's `TinyTemplate::add_template`, `set_default_formatter`
/// with `format_unescaped`, and `TinyTemplate::render`: a plain template compiles,
/// and renders to its literal text with `\{` read as `{` and each placeholder
/// replaced by the string value of its name in the context object, unescaped. The context is a
/// map built by inserting the pairs in order, so the last pair of a name wins.
#[verifier::external_body]
pub(crate) fn render_template(template: &str, fields: &Vec<(String, String)>) -> (r: Result<
    String,
    tinytemplate::error::Error,
>)
    requires
        plain(template@, fields_view(fields@)),
    ensures
        r is Ok,
        r matches Ok(s) ==> s@ == expand(template@, fields_view(fields@)),
{
    let mut context = std::collections::BTreeMap::new();
    for (name, value) in fields.iter() {
        context.insert(name.as_str(), value.as_str());
    }
    let mut engine = tinytemplate::TinyTemplate::new();
    engine.set_default_formatter(&tinytemplate::format_unescaped);
    engine.add_template("template", template)?;
    engine.render("template", &context)
}

} // verus!
