//! Space-separated word lists.
//!
//! The API encodes lists of words — most prominently the granted OAuth
//! scopes — as one string with the words separated by spaces. These two
//! functions convert between that wire form and a list of words: joining
//! puts exactly one space between consecutive words, and splitting collects
//! the maximal space-free runs, so runs of spaces and spaces at either end
//! are ignored.

use vstd::prelude::*;

verus! {

broadcast use vstd::string::group_string_axioms;

/// The words of `ws` joined with a single space between consecutive words.
pub open spec fn join_spaces(ws: Seq<Seq<char>>) -> Seq<char>
    decreases ws.len(),
{
    if ws.len() == 0 {
        Seq::empty()
    } else if ws.len() == 1 {
        ws[0]
    } else {
        join_spaces(ws.drop_last()) + seq![' '] + ws.last()
    }
}

/// Splitting `s` at spaces, with `cur` the space-free run read so far: the
/// list of maximal space-free runs, in order.
pub open spec fn split_spaces_from(s: Seq<char>, cur: Seq<char>) -> Seq<Seq<char>>
    decreases s.len(),
{
    if s.len() == 0 {
        if cur.len() == 0 {
            Seq::empty()
        } else {
            seq![cur]
        }
    } else if s[0] == ' ' {
        if cur.len() == 0 {
            split_spaces_from(s.drop_first(), cur)
        } else {
            seq![cur] + split_spaces_from(s.drop_first(), Seq::empty())
        }
    } else {
        split_spaces_from(s.drop_first(), cur.push(s[0]))
    }
}

/// The maximal space-free runs of `s`, in order.
pub open spec fn split_spaces(s: Seq<char>) -> Seq<Seq<char>> {
    split_spaces_from(s, Seq::empty())
}

/// Join a list of words into one string with a single space between
/// consecutive words.
pub fn join_space_separated(words: &Vec<String>) -> (r: String)
    ensures
        r@ == join_spaces(words@.map_values(|w: String| w@)),
{
    let ghost mapped = words@.map_values(|w: String| w@);
    let mut out = String::new();
    let mut i: usize = 0;
    proof {
        reveal_strlit(" ");
        assert(mapped.take(0) =~= Seq::<Seq<char>>::empty());
    }
    while i < words.len()
        invariant
            0 <= i <= words.len(),
            mapped == words@.map_values(|w: String| w@),
            mapped.len() == words@.len(),
            out@ == join_spaces(mapped.take(i as int)),
            " "@ == seq![' '],
        decreases words.len() - i,
    {
        if i > 0 {
            out.append(" ");
        }
        out.append(words[i].as_str());
        proof {
            let t = mapped.take(i + 1);
            assert(t.drop_last() =~= mapped.take(i as int));
            assert(t.last() == mapped[i as int]);
            assert(mapped[i as int] == words@[i as int]@);
        }
        i = i + 1;
    }
    proof {
        assert(mapped.take(words@.len() as int) =~= mapped);
    }
    out
}

/// Split a string into its maximal space-free runs, dropping all spaces.
pub fn split_space_separated(s: &str) -> (r: Vec<String>)
    ensures
        r@.map_values(|w: String| w@) == split_spaces(s@),
{
    let n = s.unicode_len();
    let mut out: Vec<String> = Vec::new();
    let mut cur = String::new();
    let mut i: usize = 0;
    proof {
        assert(s@.skip(0) =~= s@);
        assert(out@.map_values(|w: String| w@) =~= Seq::<Seq<char>>::empty());
    }
    while i < n
        invariant
            0 <= i <= n,
            n == s@.len(),
            out@.map_values(|w: String| w@) + split_spaces_from(s@.skip(i as int), cur@)
                == split_spaces(s@),
        decreases n - i,
    {
        let ghost rest = s@.skip(i as int);
        proof {
            assert(rest.drop_first() =~= s@.skip(i + 1));
            assert(rest[0] == s@[i as int]);
        }
        let c = s.get_char(i);
        if c == ' ' {
            if !cur.as_str().is_empty() {
                let word = cur;
                cur = String::new();
                proof {
                    let f = |w: String| w@;
                    assert((out@.push(word)).map_values(f) =~= out@.map_values(f).push(word@));
                    assert(out@.map_values(f).push(word@) + split_spaces_from(
                        s@.skip(i + 1),
                        cur@,
                    ) =~= out@.map_values(f) + (seq![word@] + split_spaces_from(
                        s@.skip(i + 1),
                        cur@,
                    )));
                }
                out.push(word);
            }
        } else {
            let piece = s.substring_char(i, i + 1);
            proof {
                assert(piece@ =~= seq![s@[i as int]]);
                assert(cur@ + piece@ =~= cur@.push(s@[i as int]));
            }
            cur.append(piece);
        }
        i = i + 1;
    }
    proof {
        assert(s@.skip(n as int) =~= Seq::<char>::empty());
    }
    if !cur.as_str().is_empty() {
        let word = cur;
        proof {
            let f = |w: String| w@;
            assert((out@.push(word)).map_values(f) =~= out@.map_values(f).push(word@));
            assert(out@.map_values(f).push(word@) =~= out@.map_values(f) + seq![word@]);
        }
        out.push(word);
    }
    out
}

} // verus!
