use vstd::prelude::*;

verus! {

/// Whether `c` is white space in the sense of Unicode's `White_Space`
/// property, which is what `char::is_whitespace` tests.
pub open spec fn is_white_space(c: char) -> bool {
    ||| ('\u{9}' <= c && c <= '\u{d}')
    ||| c == ' '
    ||| c == '\u{85}'
    ||| c == '\u{a0}'
    ||| c == '\u{1680}'
    ||| ('\u{2000}' <= c && c <= '\u{200a}')
    ||| c == '\u{2028}'
    ||| c == '\u{2029}'
    ||| c == '\u{202f}'
    ||| c == '\u{205f}'
    ||| c == '\u{3000}'
}

/// Whether a text is empty once surrounding white space is trimmed, that is,
/// whether it holds nothing but white space.
pub open spec fn is_blank_text(s: Seq<char>) -> bool {
    forall|i: int| 0 <= i < s.len() ==> is_white_space(#[trigger] s[i])
}

/// Whether `c` may stay in an identifier: an ASCII letter or digit, `-` or `_`.
pub open spec fn is_identifier_char(c: char) -> bool {
    ||| ('a' <= c && c <= 'z')
    ||| ('A' <= c && c <= 'Z')
    ||| ('0' <= c && c <= '9')
    ||| c == '-'
    ||| c == '_'
}

/// The characters of `s` that may stay in an identifier, in their order.
pub open spec fn identifier_chars(s: Seq<char>) -> Seq<char> {
    s.filter(|c: char| is_identifier_char(c))
}

/// Whether `c` is white space.
pub fn is_white_space_char(c: char) -> (r: bool)
    ensures
        r == is_white_space(c),
{
    ('\u{9}' <= c && c <= '\u{d}') || c == ' ' || c == '\u{85}' || c == '\u{a0}' || c
        == '\u{1680}' || ('\u{2000}' <= c && c <= '\u{200a}') || c == '\u{2028}' || c
        == '\u{2029}' || c == '\u{202f}' || c == '\u{205f}' || c == '\u{3000}'
}

/// Whether `c` may stay in an identifier.
pub fn is_identifier_character(c: char) -> (r: bool)
    ensures
        r == is_identifier_char(c),
{
    ('a' <= c && c <= 'z') || ('A' <= c && c <= 'Z') || ('0' <= c && c <= '9') || c == '-' || c
        == '_'
}

/// Whether `s` holds nothing but white space.
pub fn is_blank(s: &str) -> (r: bool)
    ensures
        r == is_blank_text(s@),
{
    let n = s.unicode_len();
    let mut i: usize = 0;
    while i < n
        invariant
            n == s@.len(),
            0 <= i <= n,
            forall|k: int| 0 <= k < i ==> is_white_space(#[trigger] s@[k]),
        decreases n - i,
    {
        let c = s.get_char(i);
        if !is_white_space_char(c) {
            return false;
        }
        i = i + 1;
    }
    true
}

/// Whether two texts are equal.
pub fn str_equal(a: &str, b: &str) -> (r: bool)
    ensures
        r == (a@ == b@),
{
    let n = a.unicode_len();
    let m = b.unicode_len();
    if n != m {
        return false;
    }
    let mut i: usize = 0;
    while i < n
        invariant
            n == a@.len(),
            m == b@.len(),
            n == m,
            0 <= i <= n,
            forall|k: int| 0 <= k < i ==> a@[k] == b@[k],
        decreases n - i,
    {
        if a.get_char(i) != b.get_char(i) {
            return false;
        }
        i = i + 1;
    }
    assert(a@ =~= b@);
    true
}

/// Appends `c` to `s` (`String::push`).
#[verifier::external_body]
fn push_char(s: &mut String, c: char)
    ensures
        final(s)@ == old(s)@.push(c),
{
    s.push(c);
}

/// The identifier that `raw` names, keeping only ASCII letters, digits, `-`
/// and `_` (surrounding white space is never kept); `None` when nothing is
/// left.
pub fn sanitize_identifier(raw: &str, _field_name: &str) -> (r: Option<String>)
    ensures
        identifier_chars(raw@).len() == 0 ==> r.is_none(),
        identifier_chars(raw@).len() > 0 ==> r.is_some() && r.unwrap()@ == identifier_chars(
            raw@,
        ),
{
    let ghost pred = |c: char| is_identifier_char(c);
    let n = raw.unicode_len();
    let mut out = String::new();
    let mut i: usize = 0;
    while i < n
        invariant
            n == raw@.len(),
            0 <= i <= n,
            pred == (|c: char| is_identifier_char(c)),
            out@ == raw@.take(i as int).filter(pred),
        decreases n - i,
    {
        let c = raw.get_char(i);
        proof {
            let s = raw@;
            assert(s.take(i + 1) == s.take(i as int).push(c));
            s.take(i as int).lemma_filter_push(c, pred);
        }
        if is_identifier_character(c) {
            push_char(&mut out, c);
        }
        i = i + 1;
    }
    proof {
        assert(raw@.take(n as int) == raw@);
    }
    if out.unicode_len() == 0 {
        None
    } else {
        Some(out)
    }
}

/// A sanitized identifier holds only ASCII letters, digits, `-` and `_`,
/// and is never longer than the text it came from.
pub proof fn law_identifier_keeps_only_safe_chars(s: Seq<char>)
    ensures
        forall|i: int|
            0 <= i < identifier_chars(s).len() ==> is_identifier_char(
                #[trigger] identifier_chars(s)[i],
            ),
        identifier_chars(s).len() <= s.len(),
{
    let pred = |c: char| is_identifier_char(c);
    assert forall|i: int| 0 <= i < identifier_chars(s).len() implies is_identifier_char(
        #[trigger] identifier_chars(s)[i],
    ) by {
        s.lemma_filter_pred(pred, i);
    }
    s.lemma_filter_len(pred);
}

/// Sanitizing is idempotent: an identifier that is already safe is kept as it is.
pub proof fn law_identifier_sanitizing_is_idempotent(s: Seq<char>)
    ensures
        identifier_chars(identifier_chars(s)) == identifier_chars(s),
    decreases s.len(),
{
    let pred = |c: char| is_identifier_char(c);
    if s.len() == 0 {
        assert(identifier_chars(s) =~= Seq::<char>::empty());
        assert(identifier_chars(Seq::<char>::empty()) =~= Seq::<char>::empty());
    } else {
        let init = s.drop_last();
        let last = s.last();
        law_identifier_sanitizing_is_idempotent(init);
        assert(s == init.push(last));
        init.lemma_filter_push(last, pred);
        if pred(last) {
            identifier_chars(init).lemma_filter_push(last, pred);
        }
    }
}

} // verus!
