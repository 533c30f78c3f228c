use vstd::prelude::*;
use vstd::string::*;

verus! {

/// The characters of `s`, in order.
pub fn chars_of(s: &str) -> (res: Vec<char>)
    ensures
        res@ == s@,
{
    let mut res: Vec<char> = Vec::new();
    for c in it: s.chars()
        invariant
            res@ == it.seq().take(it.index() as int),
    {
        res.push(c);
    }
    res
}

/// Whether two character sequences are equal.
pub fn chars_eq(a: &Vec<char>, b: &Vec<char>) -> (res: bool)
    ensures
        res == (a@ == b@),
{
    if a.len() != b.len() {
        return false;
    }
    let mut i: usize = 0;
    while i < a.len()
        invariant
            a.len() == b.len(),
            i <= a.len(),
            forall|j: int| 0 <= j < i ==> a@[j] == b@[j],
        decreases a.len() - i,
    {
        if a[i] != b[i] {
            return false;
        }
        i = i + 1;
    }
    assert(a@ =~= b@);
    true
}

/// Whether two strings are equal.
pub fn str_eq(a: &str, b: &str) -> (res: bool)
    ensures
        res == (a@ == b@),
{
    let ca = chars_of(a);
    let cb = chars_of(b);
    chars_eq(&ca, &cb)
}

/// Whether two optional strings are equal.
pub fn opt_string_eq(a: &Option<String>, b: &Option<String>) -> (res: bool)
    ensures
        res == (opt_view(*a) == opt_view(*b)),
{
    match (a, b) {
        (None, None) => true,
        (Some(x), Some(y)) => str_eq(x.as_str(), y.as_str()),
        _ => false,
    }
}

/// The characters of an optional string.
pub open spec fn opt_view(a: Option<String>) -> Option<Seq<char>> {
    match a {
        Some(s) => Some(s@),
        None => None,
    }
}

/// A string made of the given characters.
pub fn string_of(cs: &Vec<char>) -> (res: String)
    ensures
        res@ == cs@,
{
    let mut res = String::new();
    let mut i: usize = 0;
    while i < cs.len()
        invariant
            i <= cs.len(),
            res@ == cs@.take(i as int),
        decreases cs.len() - i,
    {
        push_char(&mut res, cs[i]);
        assert(cs@.take(i + 1) =~= cs@.take(i as int).push(cs@[i as int]));
        i = i + 1;
    }
    assert(cs@.take(cs@.len() as int) =~= cs@);
    res
}

/// Appends one character to a string: `String::push`, whose documentation
/// says it appends the character to the end of the string.
#[verifier::external_body]
fn push_char(s: &mut String, c: char)
    ensures
        final(s)@ == old(s)@.push(c),
{
    s.push(c)
}

/// The pieces of `s` between occurrences of `sep`, as `str::split` gives
/// them: one more piece than there are separators, empty pieces included.
pub open spec fn split_on(s: Seq<char>, sep: char) -> Seq<Seq<char>>
    decreases s.len(),
{
    if s.len() == 0 {
        seq![Seq::<char>::empty()]
    } else {
        let init = split_on(s.drop_last(), sep);
        if s.last() == sep {
            init.push(Seq::<char>::empty())
        } else {
            init.update(init.len() - 1, init.last().push(s.last()))
        }
    }
}

proof fn lemma_split_nonempty(s: Seq<char>, sep: char)
    ensures
        split_on(s, sep).len() >= 1,
    decreases s.len(),
{
    if s.len() > 0 {
        lemma_split_nonempty(s.drop_last(), sep);
    }
}

/// Splits `s` at every occurrence of `sep`.
pub fn split_chars(s: &Vec<char>, sep: char) -> (res: Vec<Vec<char>>)
    ensures
        res@.len() == split_on(s@, sep).len(),
        forall|i: int| 0 <= i < res@.len() ==> #[trigger] res@[i]@ == split_on(s@, sep)[i],
{
    let mut done: Vec<Vec<char>> = Vec::new();
    let mut cur: Vec<char> = Vec::new();
    let mut i: usize = 0;
    while i < s.len()
        invariant
            i <= s.len(),
            done@.len() + 1 == split_on(s@.take(i as int), sep).len(),
            forall|k: int| 0 <= k < done@.len() ==> #[trigger] done@[k]@ == split_on(s@.take(i as int), sep)[k],
            cur@ == split_on(s@.take(i as int), sep).last(),
        decreases s.len() - i,
    {
        proof {
            let t = s@.take(i + 1);
            assert(t.drop_last() =~= s@.take(i as int));
            assert(t.last() == s@[i as int]);
            lemma_split_nonempty(s@.take(i as int), sep);
        }
        let c = s[i];
        if c == sep {
            let piece = cur;
            done.push(piece);
            cur = Vec::new();
        } else {
            cur.push(c);
        }
        i = i + 1;
    }
    proof {
        assert(s@.take(s@.len() as int) =~= s@);
    }
    done.push(cur);
    proof {
        assert forall|k: int| 0 <= k < done@.len() implies #[trigger] done@[k]@ == split_on(s@, sep)[k] by {
        }
    }
    done
}

/// The pieces of `list` joined with `sep` between each two.
pub open spec fn join_with(list: Seq<Seq<char>>, sep: Seq<char>) -> Seq<char>
    decreases list.len(),
{
    if list.len() == 0 {
        Seq::empty()
    } else if list.len() == 1 {
        list[0]
    } else {
        join_with(list.drop_last(), sep) + sep + list.last()
    }
}

/// The views of a list of strings.
pub open spec fn views(list: Seq<String>) -> Seq<Seq<char>> {
    list.map_values(|s: String| s@)
}

/// Joins strings with `sep` between each two.
pub fn join_strings(list: &Vec<String>, sep: &str) -> (res: String)
    ensures
        res@ == join_with(views(list@), sep@),
{
    let mut res = String::new();
    let mut i: usize = 0;
    while i < list.len()
        invariant
            i <= list.len(),
            res@ == join_with(views(list@).take(i as int), sep@),
        decreases list.len() - i,
    {
        proof {
            assert(views(list@).take(i + 1).drop_last() =~= views(list@).take(i as int));
        }
        if i != 0 {
            res.append(sep);
        }
        res.append(list[i].as_str());
        i = i + 1;
    }
    proof {
        assert(views(list@).take(list@.len() as int) =~= views(list@));
    }
    res
}

} // verus!
