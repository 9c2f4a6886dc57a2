//! Character-level string helpers used by the rest of the library.
use vstd::prelude::*;

verus! {

/// Compares two string slices character by character.
pub fn str_eq(a: &str, b: &str) -> (r: bool)
    ensures
        r == (a@ == b@),
{
    let n = a.unicode_len();
    let m = b.unicode_len();
    if n != m {
        return false;
    }
    let mut i: usize = 0;
    while i < n
        invariant
            n == a@.len(),
            m == b@.len(),
            n == m,
            i <= n,
            forall|j: int| 0 <= j < i ==> a@[j] == b@[j],
        decreases n - i,
    {
        if a.get_char(i) != b.get_char(i) {
            return false;
        }
        i = i + 1;
    }
    assert(a@ =~= b@);
    true
}


/// `String::push`, which std documents as appending the given character to
/// the end of the string; the contract claims exactly that.
#[verifier::external_body]
fn string_push(s: &mut String, c: char)
    ensures
        final(s)@ == old(s)@.push(c),
{
    s.push(c);
}

/// The text with every underscore turned into a space.
pub open spec fn underscores_to_spaces(s: Seq<char>) -> Seq<char> {
    s.map_values(|c: char| if c == '_' { ' ' } else { c })
}

/// Replaces every `_` of `s` by a space, keeping every other character.
pub fn replace_underscores(s: &str) -> (r: String)
    ensures
        r@ == underscores_to_spaces(s@),
{
    let n = s.unicode_len();
    let mut out = String::new();
    let mut i: usize = 0;
    while i < n
        invariant
            n == s@.len(),
            i <= n,
            out@ == underscores_to_spaces(s@.subrange(0, i as int)),
        decreases n - i,
    {
        let c = s.get_char(i);
        let ghost before = out@;
        if c == '_' {
            string_push(&mut out, ' ');
        } else {
            string_push(&mut out, c);
        }
        assert(s@.subrange(0, i + 1) =~= s@.subrange(0, i as int).push(c));
        assert(underscores_to_spaces(s@.subrange(0, i + 1)) =~= before.push(
            if c == '_' { ' ' } else { c },
        ));
        i = i + 1;
    }
    assert(s@.subrange(0, n as int) =~= s@);
    out
}

/// `prefix` followed by `s`, as a new string.
pub fn prefixed(prefix: &str, s: &str) -> (r: String)
    ensures
        r@ == prefix@ + s@,
{
    let mut out = String::from_str(prefix);
    out.append(s);
    out
}

/// `prefix`, then `s`, then `suffix`, as a new string.
pub fn surrounded(prefix: &str, s: &str, suffix: &str) -> (r: String)
    ensures
        r@ == prefix@ + s@ + suffix@,
{
    let mut out = String::from_str(prefix);
    out.append(s);
    out.append(suffix);
    out
}

/// The text without its double quotes.
pub open spec fn without_double_quotes(s: Seq<char>) -> Seq<char>
    decreases s.len(),
{
    if s.len() == 0 {
        s
    } else if s[0] == '"' {
        without_double_quotes(s.skip(1))
    } else {
        seq![s[0]] + without_double_quotes(s.skip(1))
    }
}

/// The text with every escaped single quote `\'` turned into `'`, the
/// occurrences taken from left to right.
pub open spec fn unescape_single_quotes(s: Seq<char>) -> Seq<char>
    decreases s.len(),
{
    if s.len() == 0 {
        s
    } else if s.len() >= 2 && s[0] == '\\' && s[1] == '\'' {
        seq!['\''] + unescape_single_quotes(s.skip(2))
    } else {
        seq![s[0]] + unescape_single_quotes(s.skip(1))
    }
}

/// Removes every double quote of `s`.
pub fn remove_double_quotes(s: &str) -> (r: String)
    ensures
        r@ == without_double_quotes(s@),
{
    let n = s.unicode_len();
    let mut out = String::new();
    let mut i: usize = 0;
    assert(s@.skip(0) =~= s@);
    while i < n
        invariant
            n == s@.len(),
            i <= n,
            without_double_quotes(s@) == out@ + without_double_quotes(s@.skip(i as int)),
        decreases n - i,
    {
        let c = s.get_char(i);
        let ghost rest = s@.skip(i as int);
        assert(rest.skip(1) =~= s@.skip(i + 1));
        if c != '"' {
            let ghost before = out@;
            string_push(&mut out, c);
            assert(before + (seq![c] + without_double_quotes(rest.skip(1))) =~= out@
                + without_double_quotes(rest.skip(1)));
        }
        i = i + 1;
    }
    assert(s@.skip(n as int) =~= Seq::<char>::empty());
    assert(out@ + Seq::<char>::empty() =~= out@);
    out
}

/// Turns every `\'` of `s` into `'`.
pub fn unescape_quotes(s: &str) -> (r: String)
    ensures
        r@ == unescape_single_quotes(s@),
{
    let n = s.unicode_len();
    let mut out = String::new();
    let mut i: usize = 0;
    assert(s@.skip(0) =~= s@);
    while i < n
        invariant
            n == s@.len(),
            i <= n,
            unescape_single_quotes(s@) == out@ + unescape_single_quotes(s@.skip(i as int)),
        decreases n - i,
    {
        let c = s.get_char(i);
        let ghost rest = s@.skip(i as int);
        let ghost before = out@;
        if c == '\\' && i + 1 < n && s.get_char(i + 1) == '\'' {
            assert(rest.skip(2) =~= s@.skip(i + 2));
            string_push(&mut out, '\'');
            assert(before + (seq!['\''] + unescape_single_quotes(rest.skip(2))) =~= out@
                + unescape_single_quotes(rest.skip(2)));
            i = i + 2;
        } else {
            assert(rest.skip(1) =~= s@.skip(i + 1));
            string_push(&mut out, c);
            assert(before + (seq![c] + unescape_single_quotes(rest.skip(1))) =~= out@
                + unescape_single_quotes(rest.skip(1)));
            i = i + 1;
        }
    }
    assert(s@.skip(n as int) =~= Seq::<char>::empty());
    assert(out@ + Seq::<char>::empty() =~= out@);
    out
}

} // verus!
