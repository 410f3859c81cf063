use vstd::prelude::*;
use vstd::string::StrSliceExecFns;
use vstd::string::StringExecFns;

verus! {

/// How one character of a device name appears inside the quoted literal of a
/// management query: a single quote is doubled, every other character stands
/// as it is.
pub open spec fn escaped_char(c: char) -> Seq<char> {
    if c == '\'' {
        seq!['\'', '\'']
    } else {
        seq![c]
    }
}

/// The text with every single quote doubled, so that it can stand inside a
/// single-quoted literal of a management query.
pub open spec fn escape_quotes_model(s: Seq<char>) -> Seq<char>
    decreases s.len(),
{
    if s.len() == 0 {
        Seq::empty()
    } else {
        escaped_char(s[0]) + escape_quotes_model(s.skip(1))
    }
}

proof fn lemma_escape_quotes_snoc(s: Seq<char>, c: char)
    ensures
        escape_quotes_model(s.push(c)) == escape_quotes_model(s) + escaped_char(c),
    decreases s.len(),
{
    if s.len() == 0 {
        let t = s.push(c);
        assert(t[0] == c);
        assert(t.skip(1) =~= Seq::<char>::empty());
        assert(escape_quotes_model(t.skip(1)) == Seq::<char>::empty());
        assert(escape_quotes_model(t) == escaped_char(c) + Seq::<char>::empty());
        assert(escape_quotes_model(s) == Seq::<char>::empty());
        assert(escaped_char(c) + Seq::<char>::empty() =~= Seq::<char>::empty() + escaped_char(c));
    } else {
        assert(s.push(c).skip(1) =~= s.skip(1).push(c));
        lemma_escape_quotes_snoc(s.skip(1), c);
        assert(s.push(c)[0] == s[0]);
        assert(escape_quotes_model(s.push(c)) == escaped_char(s[0]) + (escape_quotes_model(
            s.skip(1),
        ) + escaped_char(c)));
        assert(escaped_char(s[0]) + (escape_quotes_model(s.skip(1)) + escaped_char(c)) =~= (
        escaped_char(s[0]) + escape_quotes_model(s.skip(1))) + escaped_char(c));
    }
}

/// Relies on `String::push`: appends the one character at the end.
#[verifier::external_body]
fn push_char(s: &mut String, c: char)
    ensures
        final(s)@ == old(s)@ + seq![c],
{
    s.push(c)
}

/// Doubles every single quote of `s`, leaving all other characters in place.
pub fn escape_quotes(s: &str) -> (r: String)
    ensures
        r@ == escape_quotes_model(s@),
{
    let n = s.unicode_len();
    let mut out = String::new();
    let mut i: usize = 0;
    while i < n
        invariant
            i <= n,
            n == s@.len(),
            out@ == escape_quotes_model(s@.take(i as int)),
        decreases n - i,
    {
        let c = s.get_char(i);
        proof {
            lemma_escape_quotes_snoc(s@.take(i as int), c);
            assert(s@.take(i + 1) =~= s@.take(i as int).push(c));
        }
        if c == '\'' {
            out.append("''");
            proof {
                reveal_strlit("''");
                assert(("''")@ =~= escaped_char(c));
            }
        } else {
            push_char(&mut out, c);
            proof {
                assert(seq![c] =~= escaped_char(c));
            }
        }
        i = i + 1;
    }
    proof {
        assert(s@.take(n as int) =~= s@);
    }
    out
}

/// The text of the read query that resolves a device name to its
/// plug-and-play instance identifier: the name stands, quote-escaped, inside
/// a single-quoted literal.
pub open spec fn pnp_entity_query_model(name: Seq<char>) -> Seq<char> {
    ("SELECT Name, PNPDeviceID FROM Win32_PnPEntity WHERE Name = '")@ + escape_quotes_model(name)
        + ("'")@
}

/// Builds the lookup query for the given device name.
pub fn pnp_entity_query(name: &str) -> (r: String)
    ensures
        r@ == pnp_entity_query_model(name@),
{
    let mut q = String::from_str("SELECT Name, PNPDeviceID FROM Win32_PnPEntity WHERE Name = '");
    let escaped = escape_quotes(name);
    q.append(escaped.as_str());
    q.append("'");
    proof {
        assert(q@ =~= pnp_entity_query_model(name@));
    }
    q
}

} // verus!
