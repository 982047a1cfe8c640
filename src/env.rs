use vstd::prelude::*;
use vstd::string::{axiom_spec_iter, next_postcondition};
use vstd::std_specs::iter::IteratorSpec;

verus! {

/// `char::is_whitespace`: the characters of Unicode's `White_Space` property.
pub open spec fn is_space(c: char) -> bool {
    ('\u{9}' <= c <= '\u{d}') || c == ' ' || c == '\u{85}' || c == '\u{a0}' || c == '\u{1680}'
        || ('\u{2000}' <= c <= '\u{200a}') || c == '\u{2028}' || c == '\u{2029}' || c == '\u{202f}'
        || c == '\u{205f}' || c == '\u{3000}'
}

pub open spec fn is_quote(c: char) -> bool {
    c == '"'
}

/// The position of the first `c` in `s`, or the length of `s` when there is none.
pub open spec fn index_of(s: Seq<char>, c: char) -> nat
    decreases s.len(),
{
    if s.len() == 0 || s[0] == c {
        0
    } else {
        1 + index_of(s.drop_first(), c)
    }
}

/// `s` without the characters that meet `p` at its front.
pub open spec fn strip_front(s: Seq<char>, p: spec_fn(char) -> bool) -> Seq<char>
    decreases s.len(),
{
    if s.len() > 0 && p(s[0]) {
        strip_front(s.drop_first(), p)
    } else {
        s
    }
}

/// `s` without the characters that meet `p` at its back.
pub open spec fn strip_back(s: Seq<char>, p: spec_fn(char) -> bool) -> Seq<char>
    decreases s.len(),
{
    if s.len() > 0 && p(s.last()) {
        strip_back(s.drop_last(), p)
    } else {
        s
    }
}

/// `s` without white space at either end.
pub open spec fn trim(s: Seq<char>) -> Seq<char> {
    strip_back(strip_front(s, |c: char| is_space(c)), |c: char| is_space(c))
}

/// `s` without double quotes at either end.
pub open spec fn unquote(s: Seq<char>) -> Seq<char> {
    strip_back(strip_front(s, |c: char| is_quote(c)), |c: char| is_quote(c))
}

/// The setting that one line holds: text before the first `=` is the key,
/// text after it the value; both are trimmed, the value also loses its
/// quotes, and a line with an empty key or value holds none.
pub open spec fn line_entry(l: Seq<char>) -> Option<(Seq<char>, Seq<char>)> {
    let p = index_of(l, '=');
    if p >= l.len() {
        None
    } else {
        let key = trim(l.subrange(0, p as int));
        let value = unquote(trim(l.subrange(p + 1 as int, l.len() as int)));
        if key.len() > 0 && value.len() > 0 {
            Some((key, value))
        } else {
            None
        }
    }
}

/// The settings of a `KEY=value` text, line by line, in order.
pub open spec fn entries_of(s: Seq<char>) -> Seq<(Seq<char>, Seq<char>)>
    decreases s.len(),
{
    if s.len() == 0 {
        seq![]
    } else {
        let k = index_of(s, '\n');
        let here = match line_entry(s.subrange(0, k as int)) {
            Some(e) => seq![e],
            None => seq![],
        };
        let rest = if k < s.len() { s.subrange(k + 1 as int, s.len() as int) } else { seq![] };
        here + entries_of(rest)
    }
}

/// One `KEY=value` setting.
#[derive(Debug, Clone, PartialEq, Eq)]
pub struct EnvEntry {
    pub key: String,
    pub value: String,
}

impl View for EnvEntry {
    type V = (Seq<char>, Seq<char>);

    open spec fn view(&self) -> (Seq<char>, Seq<char>) {
        (self.key@, self.value@)
    }
}

pub open spec fn entry_views(v: Seq<EnvEntry>) -> Seq<(Seq<char>, Seq<char>)> {
    v.map_values(|e: EnvEntry| e@)
}

proof fn lemma_index_of_bound(s: Seq<char>, c: char)
    ensures
        index_of(s, c) <= s.len(),
        index_of(s, c) < s.len() ==> s[index_of(s, c) as int] == c,
        forall|i: int| 0 <= i < index_of(s, c) ==> s[i] != c,
    decreases s.len(),
{
    if s.len() > 0 && s[0] != c {
        lemma_index_of_bound(s.drop_first(), c);
        assert forall|i: int| 0 <= i < index_of(s, c) implies s[i] != c by {
            if i > 0 {
                assert(s[i] == s.drop_first()[i - 1]);
            }
        }
    }
}

/// Relies on `String::push`: appends one character.
#[verifier::external_body]
fn push_char(s: &mut String, c: char)
    ensures
        final(s)@ == old(s)@.push(c),
{
    s.push(c);
}

fn char_vec(s: &str) -> (r: Vec<char>)
    ensures
        r@ == s@,
{
    broadcast use axiom_spec_iter, next_postcondition;
    let mut it = s.chars();
    let mut r: Vec<char> = Vec::new();
    loop
        invariant
            it.remaining() == s@.skip(r@.len() as int),
            r@ == s@.take(r@.len() as int),
            r@.len() <= s@.len(),
        decreases s@.len() - r@.len(),
    {
        match it.next() {
            Some(c) => {
                r.push(c);
                assert(r@ =~= s@.take(r@.len() as int));
            },
            None => {
                assert(r@ =~= s@);
                return r;
            },
        }
    }
}

/// The characters that trimming removes: quotes, or else white space.
pub open spec fn class(quote: bool) -> spec_fn(char) -> bool {
    if quote {
        |c: char| is_quote(c)
    } else {
        |c: char| is_space(c)
    }
}

fn in_class(c: char, quote: bool) -> (r: bool)
    ensures
        r == class(quote)(c),
{
    if quote {
        c == '"'
    } else {
        ('\u{9}' <= c && c <= '\u{d}') || c == ' ' || c == '\u{85}' || c == '\u{a0}' || c == '\u{1680}'
            || ('\u{2000}' <= c && c <= '\u{200a}') || c == '\u{2028}' || c == '\u{2029}'
            || c == '\u{202f}' || c == '\u{205f}' || c == '\u{3000}'
    }
}

/// The first position of `c` in `v[lo..hi]`, or `hi`.
fn find_char(v: &Vec<char>, lo: usize, hi: usize, c: char) -> (r: usize)
    requires
        lo <= hi <= v@.len(),
    ensures
        lo <= r <= hi,
        r - lo == index_of(v@.subrange(lo as int, hi as int), c),
{
    let mut i: usize = lo;
    while i < hi
        invariant
            lo <= i <= hi <= v@.len(),
            index_of(v@.subrange(lo as int, hi as int), c) == (i - lo) + index_of(
                v@.subrange(i as int, hi as int),
                c,
            ),
        decreases hi - i,
    {
        if v[i] == c {
            return i;
        }
        assert(v@.subrange(i as int, hi as int).drop_first() =~= v@.subrange(i + 1, hi as int));
        i = i + 1;
    }
    i
}

/// The start of `v[lo..hi]` once the characters of the class are stripped
/// from its front.
fn skip_front(v: &Vec<char>, lo: usize, hi: usize, quote: bool) -> (r: usize)
    requires
        lo <= hi <= v@.len(),
    ensures
        lo <= r <= hi,
        v@.subrange(r as int, hi as int) == strip_front(v@.subrange(lo as int, hi as int), class(quote)),
{
    let mut i: usize = lo;
    while i < hi && in_class(v[i], quote)
        invariant
            lo <= i <= hi <= v@.len(),
            strip_front(v@.subrange(lo as int, hi as int), class(quote)) == strip_front(
                v@.subrange(i as int, hi as int),
                class(quote),
            ),
        decreases hi - i,
    {
        assert(v@.subrange(i as int, hi as int).drop_first() =~= v@.subrange(i + 1, hi as int));
        i = i + 1;
    }
    i
}

/// The end of `v[lo..hi]` once the characters of the class are stripped
/// from its back.
fn skip_back(v: &Vec<char>, lo: usize, hi: usize, quote: bool) -> (r: usize)
    requires
        lo <= hi <= v@.len(),
    ensures
        lo <= r <= hi,
        v@.subrange(lo as int, r as int) == strip_back(v@.subrange(lo as int, hi as int), class(quote)),
{
    let mut j: usize = hi;
    while j > lo && in_class(v[j - 1], quote)
        invariant
            lo <= j <= hi <= v@.len(),
            strip_back(v@.subrange(lo as int, hi as int), class(quote)) == strip_back(
                v@.subrange(lo as int, j as int),
                class(quote),
            ),
        decreases j - lo,
    {
        assert(v@.subrange(lo as int, j as int).drop_last() =~= v@.subrange(lo as int, j - 1));
        j = j - 1;
    }
    j
}

fn text_of(v: &Vec<char>, lo: usize, hi: usize) -> (r: String)
    requires
        lo <= hi <= v@.len(),
    ensures
        r@ == v@.subrange(lo as int, hi as int),
{
    let mut r = String::new();
    let mut i: usize = lo;
    while i < hi
        invariant
            lo <= i <= hi <= v@.len(),
            r@ == v@.subrange(lo as int, i as int),
        decreases hi - i,
    {
        push_char(&mut r, v[i]);
        assert(r@ =~= v@.subrange(lo as int, i + 1));
        i = i + 1;
    }
    r
}

/// The setting held by the line `v[lo..hi]`, if any.
fn parse_line(v: &Vec<char>, lo: usize, hi: usize) -> (r: Option<EnvEntry>)
    requires
        lo <= hi <= v@.len(),
    ensures
        line_entry(v@.subrange(lo as int, hi as int)) == match r {
            Some(e) => Some(e@),
            None => None::<(Seq<char>, Seq<char>)>,
        },
{
    let ghost l = v@.subrange(lo as int, hi as int);
    let p = find_char(v, lo, hi, '=');
    proof {
        lemma_index_of_bound(l, '=');
    }
    if p == hi {
        return None;
    }
    assert(l.subrange(0, p - lo) =~= v@.subrange(lo as int, p as int));
    assert(l.subrange(p - lo + 1, l.len() as int) =~= v@.subrange(p + 1, hi as int));
    let a = skip_front(v, lo, p, false);
    let b = skip_back(v, a, p, false);
    let c = skip_front(v, p + 1, hi, false);
    let d = skip_back(v, c, hi, false);
    let e = skip_front(v, c, d, true);
    let f = skip_back(v, e, d, true);
    if a < b && e < f {
        Some(EnvEntry { key: text_of(v, a, b), value: text_of(v, e, f) })
    } else {
        None
    }
}

/// The settings of a `KEY=value` text, in the order of its lines.
pub fn parse_env(content: &str) -> (r: Vec<EnvEntry>)
    ensures
        entry_views(r@) == entries_of(content@),
{
    let v = char_vec(content);
    let n = v.len();
    let mut out: Vec<EnvEntry> = Vec::new();
    let mut i: usize = 0;
    assert(v@.subrange(0, n as int) =~= v@);
    assert(entry_views(out@) + entries_of(v@) =~= entries_of(v@));
    while i < n
        invariant
            n == v@.len(),
            v@ == content@,
            i <= n,
            entries_of(v@) == entry_views(out@) + entries_of(v@.subrange(i as int, n as int)),
        decreases n - i,
    {
        let ghost s = v@.subrange(i as int, n as int);
        let k = find_char(&v, i, n, '\n');
        proof {
            lemma_index_of_bound(s, '\n');
        }
        assert(s.subrange(0, k - i) =~= v@.subrange(i as int, k as int));
        let ghost before = entry_views(out@);
        match parse_line(&v, i, k) {
            Some(e) => {
                out.push(e);
                assert(entry_views(out@) =~= before + seq![e@]);
            },
            None => {},
        }
        if k < n {
            assert(s.subrange(k - i + 1, s.len() as int) =~= v@.subrange(k + 1, n as int));
            i = k + 1;
        } else {
            assert(v@.subrange(n as int, n as int) =~= seq![]);
            i = n;
        }
        assert(entries_of(v@) == entry_views(out@) + entries_of(v@.subrange(i as int, n as int)));
    }
    assert(v@.subrange(n as int, n as int) =~= seq![]);
    assert(entry_views(out@) + seq![] =~= entry_views(out@));
    out
}

/// The value of the last setting of `name`, as setting them in order
/// would leave it.
pub open spec fn lookup(entries: Seq<(Seq<char>, Seq<char>)>, name: Seq<char>) -> Option<Seq<char>>
    decreases entries.len(),
{
    if entries.len() == 0 {
        None
    } else if entries.last().0 == name {
        Some(entries.last().1)
    } else {
        lookup(entries.drop_last(), name)
    }
}

/// Provider credentials and other settings, loaded once at start-up.
#[derive(Debug, Clone, PartialEq, Eq)]
pub struct Credentials {
    pub entries: Vec<EnvEntry>,
}

impl Credentials {
    pub open spec fn spec_entries(&self) -> Seq<(Seq<char>, Seq<char>)> {
        entry_views(self.entries@)
    }

    /// Reads the settings of a `KEY=value` text.
    pub fn from_env_text(content: &str) -> (r: Credentials)
        ensures
            r.spec_entries() == entries_of(content@),
    {
        Credentials { entries: parse_env(content) }
    }

    /// The value last given to `name`, if any.
    pub fn get_credential(&self, name: &str) -> (r: Option<String>)
        ensures
            match r {
                Some(v) => lookup(self.spec_entries(), name@) == Some(v@),
                None => lookup(self.spec_entries(), name@) is None,
            },
    {
        let key = String::from_str(name);
        let mut j: usize = self.entries.len();
        assert(self.spec_entries().take(j as int) =~= self.spec_entries());
        while j > 0
            invariant
                j <= self.entries@.len(),
                key@ == name@,
                lookup(self.spec_entries(), name@) == lookup(self.spec_entries().take(j as int), name@),
            decreases j,
        {
            let ghost t = self.spec_entries().take(j as int);
            if self.entries[j - 1].key == key {
                return Some(self.entries[j - 1].value.clone());
            }
            assert(t.drop_last() =~= self.spec_entries().take(j - 1));
            j = j - 1;
        }
        None
    }
}

} // verus!
