//! Feed listings double-escape query-string separators, so a listed URL must
//! have every `&amp;` sequence decoded back to `&` before it is used.
use vstd::prelude::*;
use vstd::string::StrSliceExecFns;
use vstd::string::StringExecFns;

verus! {

/// The one HTML entity the feeds are known to emit.
pub open spec fn amp_entity() -> Seq<char> {
    seq!['&', 'a', 'm', 'p', ';']
}

/// `s` with every occurrence of `&amp;` replaced by `&`, scanning left to
/// right.
pub open spec fn decode_entities(s: Seq<char>) -> Seq<char>
    decreases s.len(),
{
    if s.len() >= 5 && s.subrange(0, 5) == amp_entity() {
        seq!['&'] + decode_entities(s.skip(5))
    } else if s.len() == 0 {
        Seq::<char>::empty()
    } else {
        seq![s[0]] + decode_entities(s.skip(1))
    }
}

/// Replaces every `&amp;` in `url` by `&`.
pub fn decode_url_entities(url: &str) -> (r: String)
    ensures
        r@ == decode_entities(url@),
{
    let n = url.unicode_len();
    let mut out = String::new();
    let mut i: usize = 0;
    proof {
        assert(url@.skip(0) =~= url@);
    }
    while i < n
        invariant
            i <= n,
            n == url@.len(),
            out@ + decode_entities(url@.skip(i as int)) == decode_entities(url@),
        decreases n - i,
    {
        let ghost t = url@.skip(i as int);
        let is_amp = n >= 5 && i <= n - 5 && url.get_char(i) == '&' && url.get_char(i + 1) == 'a'
            && url.get_char(i + 2) == 'm' && url.get_char(i + 3) == 'p' && url.get_char(i + 4)
            == ';';
        if is_amp {
            out.append("&");
            proof {
                reveal_strlit("&");
                assert(t.subrange(0, 5) =~= amp_entity());
                assert(decode_entities(t) == seq!['&'] + decode_entities(t.skip(5)));
                assert(t.skip(5) =~= url@.skip(i as int + 5));
                assert("&"@ =~= seq!['&']);
                assert(out@ + decode_entities(url@.skip(i as int + 5)) =~= decode_entities(url@));
            }
            i += 5;
        } else {
            let c = url.substring_char(i, i + 1);
            out.append(c);
            proof {
                if i + 5 <= n && t.subrange(0, 5) == amp_entity() {
                    assert(t.subrange(0, 5)[0] == url@[i as int]);
                    assert(t.subrange(0, 5)[1] == url@[i as int + 1]);
                    assert(t.subrange(0, 5)[2] == url@[i as int + 2]);
                    assert(t.subrange(0, 5)[3] == url@[i as int + 3]);
                    assert(t.subrange(0, 5)[4] == url@[i as int + 4]);
                    assert(false);
                }
                assert(decode_entities(t) == seq![t[0]] + decode_entities(t.skip(1)));
                assert(c@ =~= seq![t[0]]);
                assert(t.skip(1) =~= url@.skip(i as int + 1));
                assert(out@ + decode_entities(url@.skip(i as int + 1)) =~= decode_entities(url@));
            }
            i += 1;
        }
    }
    proof {
        assert(url@.skip(n as int) =~= Seq::<char>::empty());
        assert(out@ =~= decode_entities(url@));
    }
    out
}

} // verus!
