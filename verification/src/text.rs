use vstd::prelude::*;

verus! {

/// The characters of a string, in order.
pub fn chars_of(s: &str) -> (cs: Vec<char>)
    ensures
        cs@ == s@,
{
    broadcast use vstd::string::group_string_axioms;

    let mut cs: Vec<char> = Vec::new();
    for c in it: s.chars()
        invariant
            it.seq() == s@,
            cs@ == it.seq().take(it.index() as int),
    {
        assert(it.seq().take(it.index() + 1) =~= cs@.push(c));
        cs.push(c);
    }
    assert(s@.take(s@.len() as int) =~= s@);
    cs
}

/// `String::push` from std: appends one character.
#[verifier::external_body]
fn push_char(s: &mut String, c: char)
    ensures
        final(s)@ == old(s)@.push(c),
{
    s.push(c);
}

/// The string of the given characters.
pub fn string_of(cs: &Vec<char>) -> (s: String)
    ensures
        s@ == cs@,
{
    let mut s = String::new();
    let mut i: usize = 0;
    while i < cs.len()
        invariant
            i <= cs.len(),
            s@ == cs@.subrange(0, i as int),
        decreases cs.len() - i,
    {
        push_char(&mut s, cs[i]);
        i = i + 1;
    }
    assert(cs@.subrange(0, cs.len() as int) =~= cs@);
    s
}


/// The HTML entity that stands for an ampersand.
pub open spec fn amp_entity() -> Seq<char> {
    seq!['&', 'a', 'm', 'p', ';']
}

/// `s` with every `&amp;`, read from left to right without overlap, replaced
/// by `&`.
pub open spec fn decode_amp_entities(s: Seq<char>) -> Seq<char>
    decreases s.len(),
{
    if s.len() == 0 {
        Seq::empty()
    } else if s.len() >= 5 && s.take(5) == amp_entity() {
        seq!['&'] + decode_amp_entities(s.skip(5))
    } else {
        seq![s[0]] + decode_amp_entities(s.skip(1))
    }
}

/// Replaces each `&amp;` in `s` by `&`, so that callers may write either.
pub fn decode_amp(s: &str) -> (r: String)
    ensures
        r@ == decode_amp_entities(s@),
{
    let cs = chars_of(s);
    let n = cs.len();
    let mut out: Vec<char> = Vec::new();
    let mut i: usize = 0;
    assert(cs@.skip(0) =~= cs@);
    while i < n
        invariant
            n == cs@.len(),
            i <= n,
            out@ + decode_amp_entities(cs@.skip(i as int)) == decode_amp_entities(cs@),
        decreases n - i,
    {
        let rest = Ghost(cs@.skip(i as int));
        if n - i >= 5 && cs[i] == '&' && cs[i + 1] == 'a' && cs[i + 2] == 'm' && cs[i + 3] == 'p'
            && cs[i + 4] == ';' {
            assert(rest@.take(5) =~= amp_entity());
            assert(rest@.skip(5) =~= cs@.skip(i + 5));
            out.push('&');
            i = i + 5;
            assert(out@ + decode_amp_entities(cs@.skip(i as int)) =~= decode_amp_entities(cs@));
        } else {
            assert(!(rest@.len() >= 5 && rest@.take(5) == amp_entity())) by {
                if rest@.len() >= 5 && rest@.take(5) == amp_entity() {
                    assert(rest@.take(5)[0] == cs[i as int]);
                    assert(rest@.take(5)[1] == cs[i + 1]);
                    assert(rest@.take(5)[2] == cs[i + 2]);
                    assert(rest@.take(5)[3] == cs[i + 3]);
                    assert(rest@.take(5)[4] == cs[i + 4]);
                }
            }
            assert(rest@.skip(1) =~= cs@.skip(i + 1));
            out.push(cs[i]);
            i = i + 1;
            assert(out@ + decode_amp_entities(cs@.skip(i as int)) =~= decode_amp_entities(cs@));
        }
    }
    assert(cs@.skip(n as int) =~= Seq::<char>::empty());
    assert(out@ =~= out@ + decode_amp_entities(cs@.skip(n as int)));
    string_of(&out)
}


/// Whether `char::is_whitespace` holds of a character (Unicode's
/// `White_Space` property).
pub uninterp spec fn unicode_white_space(c: char) -> bool;

/// `char::is_whitespace` from std. The contract names its result: it is a
/// function of the character alone, fixed by the Unicode tables of std.
#[verifier::external_body]
fn is_white_space(c: char) -> (b: bool)
    ensures
        b == unicode_white_space(c),
{
    c.is_whitespace()
}

/// `s` without its leading white space.
pub open spec fn trim_start_white_space(s: Seq<char>) -> Seq<char>
    decreases s.len(),
{
    if s.len() > 0 && unicode_white_space(s[0]) {
        trim_start_white_space(s.skip(1))
    } else {
        s
    }
}

/// `s` without its trailing white space.
pub open spec fn trim_end_white_space(s: Seq<char>) -> Seq<char>
    decreases s.len(),
{
    if s.len() > 0 && unicode_white_space(s.last()) {
        trim_end_white_space(s.drop_last())
    } else {
        s
    }
}

/// `s` without leading and trailing white space, as `str::trim` gives it.
pub open spec fn trim_white_space(s: Seq<char>) -> Seq<char> {
    trim_end_white_space(trim_start_white_space(s))
}

/// Removes leading and trailing white space.
pub fn trim(s: &str) -> (r: String)
    ensures
        r@ == trim_white_space(s@),
{
    let cs = chars_of(s);
    let n = cs.len();
    let mut i: usize = 0;
    assert(cs@.skip(0) =~= cs@);
    while i < n && is_white_space(cs[i])
        invariant
            n == cs@.len(),
            i <= n,
            trim_start_white_space(cs@.skip(i as int)) == trim_start_white_space(cs@),
        decreases n - i,
    {
        assert(cs@.skip(i as int).skip(1) =~= cs@.skip(i + 1));
        i = i + 1;
    }
    assert(trim_start_white_space(cs@) == cs@.subrange(i as int, n as int)) by {
        assert(cs@.skip(i as int) =~= cs@.subrange(i as int, n as int));
    }
    let mut j: usize = n;
    while j > i && is_white_space(cs[j - 1])
        invariant
            n == cs@.len(),
            i <= j <= n,
            trim_end_white_space(cs@.subrange(i as int, j as int)) == trim_white_space(cs@),
        decreases j - i,
    {
        assert(cs@.subrange(i as int, j as int).drop_last() =~= cs@.subrange(i as int, j - 1));
        j = j - 1;
    }
    let mut out: Vec<char> = Vec::new();
    let mut k: usize = i;
    while k < j
        invariant
            n == cs@.len(),
            i <= k <= j <= n,
            out@ == cs@.subrange(i as int, k as int),
        decreases j - k,
    {
        out.push(cs[k]);
        k = k + 1;
    }
    string_of(&out)
}

/// What `str::to_lowercase` gives for a string: a function of the string
/// alone, fixed by the Unicode tables of std.
pub uninterp spec fn lowercase(s: Seq<char>) -> Seq<char>;

/// `str::to_lowercase` from std.
#[verifier::external_body]
fn to_lowercase(s: &str) -> (r: String)
    ensures
        r@ == lowercase(s@),
{
    s.to_lowercase()
}

/// A label in the form in which labels are compared loosely: lower case,
/// without surrounding white space.
pub open spec fn loose_label(s: Seq<char>) -> Seq<char> {
    trim_white_space(lowercase(s))
}

/// Whether a stored label answers a requested one: equal, or equal once both
/// are lower-cased and trimmed.
pub open spec fn label_answers(label: Seq<char>, wanted: Seq<char>) -> bool {
    label == wanted || loose_label(label) == loose_label(wanted)
}

/// Whether a stored domain label answers a requested domain. Domains are
/// matched loosely, not exactly: a label that differs from the request only
/// in letter case or in surrounding white space answers it too.
pub fn label_matches(label: &String, wanted: &String) -> (b: bool)
    ensures
        b == label_answers(label@, wanted@),
{
    if *label == *wanted {
        return true;
    }
    let l = trim(to_lowercase(label.as_str()).as_str());
    let w = trim(to_lowercase(wanted.as_str()).as_str());
    l == w
}


/// `serde_json::Error`, the error of serialisation.
#[verifier::external_type_specification]
#[verifier::external_body]
pub struct ExJsonError(serde_json::Error);

/// The views of a list of strings.
pub open spec fn string_views(ss: Seq<String>) -> Seq<Seq<char>> {
    ss.map_values(|s: String| s@)
}

/// The JSON text that `serde_json::to_string` writes for a list of strings:
/// a function of the strings alone.
pub uninterp spec fn json_string_array(items: Seq<Seq<char>>) -> Seq<char>;

/// `serde_json::to_string` on a list of strings. Its documentation says that
/// serialisation fails only where a value's `Serialize` impl fails or a map
/// has keys that are not strings; neither can happen for a `Vec<String>`, so
/// the contract states success and names the text written.
#[verifier::external_body]
fn serialize_strings(items: &Vec<String>) -> (r: Result<String, serde_json::Error>)
    ensures
        r is Ok,
        r matches Ok(text) ==> text@ == json_string_array(string_views(items@)),
{
    serde_json::to_string(items)
}

/// The JSON array of the given strings, in order, as the databases' `json_each`
/// reads it back.
pub fn json_list(items: &Vec<String>) -> (text: String)
    ensures
        text@ == json_string_array(string_views(items@)),
{
    match serialize_strings(items) {
        Ok(text) => text,
        Err(_) => {
            proof {
                assert(false);
            }
            String::new()
        },
    }
}


/// A copy of an optional string.
pub fn copy_opt_string(o: &Option<String>) -> (r: Option<String>)
    ensures
        r == *o,
{
    match o {
        Some(s) => Some(s.clone()),
        None => None,
    }
}

/// A copy of a list of strings.
pub fn copy_strings(v: &Vec<String>) -> (r: Vec<String>)
    ensures
        r@ == v@,
{
    let mut r: Vec<String> = Vec::new();
    let mut i: usize = 0;
    while i < v.len()
        invariant
            i <= v.len(),
            r@ == v@.subrange(0, i as int),
        decreases v.len() - i,
    {
        r.push(v[i].clone());
        i = i + 1;
    }
    assert(v@.subrange(0, v.len() as int) =~= v@);
    r
}


/// `s` with every `&` written as `&amp;`.
pub open spec fn escape_amp(s: Seq<char>) -> Seq<char>
    decreases s.len(),
{
    if s.len() == 0 {
        Seq::empty()
    } else if s[0] == '&' {
        amp_entity() + escape_amp(s.skip(1))
    } else {
        seq![s[0]] + escape_amp(s.skip(1))
    }
}

pub proof fn lemma_decode_escaped(s: Seq<char>)
    ensures
        decode_amp_entities(escape_amp(s)) == s,
    decreases s.len(),
{
    if s.len() > 0 {
        lemma_decode_escaped(s.skip(1));
        let e = escape_amp(s);
        let rest = escape_amp(s.skip(1));
        if s[0] == '&' {
            assert(e.take(5) =~= amp_entity());
            assert(e.skip(5) =~= rest);
            assert(seq!['&'] + s.skip(1) =~= s);
        } else {
            assert(e[0] == s[0]);
            assert(!(e.len() >= 5 && e.take(5) == amp_entity())) by {
                if e.len() >= 5 && e.take(5) == amp_entity() {
                    assert(e.take(5)[0] == e[0]);
                }
            }
            assert(e.skip(1) =~= rest);
            assert(seq![s[0]] + s.skip(1) =~= s);
        }
    }
}

pub proof fn lemma_decode_without_ampersand(s: Seq<char>)
    requires
        !s.contains('&'),
    ensures
        decode_amp_entities(s) == s,
    decreases s.len(),
{
    if s.len() > 0 {
        assert(!s.skip(1).contains('&')) by {
            if s.skip(1).contains('&') {
                let k = choose|k: int| 0 <= k < s.skip(1).len() && s.skip(1)[k] == '&';
                assert(s[k + 1] == '&');
            }
        }
        lemma_decode_without_ampersand(s.skip(1));
        assert(s[0] != '&');
        assert(!(s.len() >= 5 && s.take(5) == amp_entity())) by {
            if s.len() >= 5 && s.take(5) == amp_entity() {
                assert(s.take(5)[0] == s[0]);
            }
        }
        assert(seq![s[0]] + s.skip(1) =~= s);
    }
}

} // verus!
