//! Escaping of the five reserved XML characters in free-form text.

use vstd::prelude::*;
use vstd::string::*;

verus! {

/// True of the five characters that XML reserves in content and attributes.
pub open spec fn is_reserved_char(c: char) -> bool {
    c == '\'' || c == '"' || c == '&' || c == '<' || c == '>'
}

/// The replacement for a single character: a named entity for each reserved
/// character, the character itself otherwise.
pub open spec fn escape_char(c: char) -> Seq<char> {
    if c == '\'' {
        "&apos;"@
    } else if c == '"' {
        "&quot;"@
    } else if c == '&' {
        "&amp;"@
    } else if c == '<' {
        "&lt;"@
    } else if c == '>' {
        "&gt;"@
    } else {
        seq![c]
    }
}

/// The escaped form of a whole string: each character replaced by
/// `escape_char`, in order.
pub open spec fn escape_seq(s: Seq<char>) -> Seq<char>
    decreases s.len(),
{
    if s.len() == 0 {
        Seq::empty()
    } else {
        escape_seq(s.drop_last()) + escape_char(s.last())
    }
}

/// Escapes the five reserved XML characters; all other characters pass
/// through unchanged.
pub fn escape_string(value: &str) -> (r: String)
    ensures
        r@ == escape_seq(value@),
{
    let n = value.unicode_len();
    let mut out = String::new();
    let mut i: usize = 0;
    while i < n
        invariant
            i <= n,
            n == value@.len(),
            out@ == escape_seq(value@.subrange(0, i as int)),
        decreases n - i,
    {
        let c = value.get_char(i);
        if c == '\'' {
            out.append("&apos;");
        } else if c == '"' {
            out.append("&quot;");
        } else if c == '&' {
            out.append("&amp;");
        } else if c == '<' {
            out.append("&lt;");
        } else if c == '>' {
            out.append("&gt;");
        } else {
            let piece = value.substring_char(i, i + 1);
            out.append(piece);
        }
        proof {
            let pre = value@.subrange(0, i as int);
            let cur = value@.subrange(0, i + 1 as int);
            assert(cur.drop_last() =~= pre);
            assert(cur.last() == value@[i as int]);
            assert(value@.subrange(i as int, i + 1 as int) =~= seq![value@[i as int]]);
        }
        i = i + 1;
    }
    proof {
        assert(value@.subrange(0, n as int) =~= value@);
    }
    out
}

/// Escaped text holds no angle bracket: every `<` and `>` in a serialized
/// document comes from a literal tag the serializers emit, never from
/// free-form text, so each document holds exactly the tags its structure
/// says.
pub proof fn lemma_escape_no_angle(s: Seq<char>)
    ensures
        forall|i: int|
            0 <= i < escape_seq(s).len() ==> escape_seq(s)[i] != '<' && escape_seq(s)[i] != '>',
    decreases s.len(),
{
    reveal_strlit("&apos;");
    reveal_strlit("&quot;");
    reveal_strlit("&amp;");
    reveal_strlit("&lt;");
    reveal_strlit("&gt;");
    if s.len() > 0 {
        lemma_escape_no_angle(s.drop_last());
        let pre = escape_seq(s.drop_last());
        let e = escape_char(s.last());
        assert(forall|j: int| 0 <= j < e.len() ==> e[j] != '<' && e[j] != '>');
        assert(escape_seq(s) == pre + e);
        assert forall|i: int| 0 <= i < escape_seq(s).len() implies escape_seq(s)[i] != '<'
            && escape_seq(s)[i] != '>' by {
            if i < pre.len() {
                assert(escape_seq(s)[i] == pre[i]);
            } else {
                assert(escape_seq(s)[i] == e[i - pre.len()]);
            }
        }
    }
}

/// A string free of reserved characters escapes to itself.
pub proof fn lemma_escape_plain_identity(s: Seq<char>)
    requires
        forall|i: int| 0 <= i < s.len() ==> !is_reserved_char(s[i]),
    ensures
        escape_seq(s) == s,
    decreases s.len(),
{
    if s.len() == 0 {
        assert(escape_seq(s) =~= s);
    } else {
        lemma_escape_plain_identity(s.drop_last());
        assert(escape_char(s.last()) =~= seq![s.last()]);
        assert(escape_seq(s) =~= s);
    }
}

} // verus!
