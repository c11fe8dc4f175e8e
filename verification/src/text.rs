//! Small string operations with exact contracts.

use vstd::prelude::*;

verus! {

/// The rest of `s` after `prefix`, when `s` begins with `prefix`.
pub open spec fn spec_strip_prefix(s: Seq<char>, prefix: Seq<char>) -> Option<Seq<char>> {
    if prefix.is_prefix_of(s) {
        Some(s.skip(prefix.len() as int))
    } else {
        None
    }
}

/// The start of `s` before `suffix`, when `s` ends with `suffix`.
pub open spec fn spec_strip_suffix(s: Seq<char>, suffix: Seq<char>) -> Option<Seq<char>> {
    if suffix.is_suffix_of(s) {
        Some(s.take(s.len() - suffix.len()))
    } else {
        None
    }
}

/// `str::strip_prefix`: `Some` of the remainder exactly when `s` starts with `prefix`.
#[verifier::external_body]
pub(crate) fn strip_prefix<'a>(s: &'a str, prefix: &str) -> (r: Option<&'a str>)
    ensures
        match r {
            Some(rest) => spec_strip_prefix(s@, prefix@) == Some(rest@),
            None => spec_strip_prefix(s@, prefix@) is None,
        },
{
    s.strip_prefix(prefix)
}

/// `str::strip_suffix`: `Some` of the start exactly when `s` ends with `suffix`.
#[verifier::external_body]
pub(crate) fn strip_suffix<'a>(s: &'a str, suffix: &str) -> (r: Option<&'a str>)
    ensures
        match r {
            Some(rest) => spec_strip_suffix(s@, suffix@) == Some(rest@),
            None => spec_strip_suffix(s@, suffix@) is None,
        },
{
    s.strip_suffix(suffix)
}

/// `<str as PartialEq>::eq`: equality of the characters.
#[verifier::external_body]
pub(crate) fn str_eq(a: &str, b: &str) -> (r: bool)
    ensures
        r == (a@ == b@),
{
    a == b
}

/// `String::push`: appends one character.
#[verifier::external_body]
pub(crate) fn push_char(s: &mut String, c: char)
    ensures
        final(s)@ == old(s)@.push(c),
{
    s.push(c)
}

/// The pieces of `s` between occurrences of `sep`, as `str::split` yields them:
/// one piece more than there are separators, empty pieces included.
pub open spec fn split_on(s: Seq<char>, sep: char) -> Seq<Seq<char>>
    decreases s.len(),
{
    if s.len() == 0 {
        seq![Seq::<char>::empty()]
    } else {
        let pieces = split_on(s.drop_last(), sep);
        if s.last() == sep {
            pieces.push(Seq::<char>::empty())
        } else {
            pieces.update(pieces.len() - 1, pieces.last().push(s.last()))
        }
    }
}

/// The pieces joined with `sep` between each two of them.
pub open spec fn join_with(pieces: Seq<Seq<char>>, sep: char) -> Seq<char>
    decreases pieces.len(),
{
    if pieces.len() == 0 {
        Seq::<char>::empty()
    } else if pieces.len() == 1 {
        pieces[0]
    } else {
        join_with(pieces.drop_last(), sep).push(sep) + pieces.last()
    }
}

/// `split_on` never yields an empty list of pieces.
pub proof fn lemma_split_on_nonempty(s: Seq<char>, sep: char)
    ensures
        split_on(s, sep).len() >= 1,
    decreases s.len(),
{
    if s.len() > 0 {
        lemma_split_on_nonempty(s.drop_last(), sep);
    }
}

/// Splitting text that holds no separator gives the text as the only piece.
pub proof fn lemma_split_on_without_sep(s: Seq<char>, sep: char)
    requires
        !s.contains(sep),
    ensures
        split_on(s, sep) == seq![s],
    decreases s.len(),
{
    if s.len() > 0 {
        let t = s.drop_last();
        assert(!t.contains(sep)) by {
            if t.contains(sep) {
                let k = choose|k: int| 0 <= k < t.len() && t[k] == sep;
                assert(s[k] == sep);
            }
        }
        lemma_split_on_without_sep(t, sep);
        assert(s.last() != sep) by {
            assert(s[s.len() - 1] == s.last());
        }
        assert(s =~= t.push(s.last()));
        assert(split_on(s, sep) =~= seq![s]);
    } else {
        assert(s =~= Seq::<char>::empty());
    }
}

/// Splitting text made of two parts joined by the separator gives the pieces of
/// the first part followed by those of the second.
pub proof fn lemma_split_on_concat(a: Seq<char>, b: Seq<char>, sep: char)
    ensures
        split_on(a.push(sep) + b, sep) == split_on(a, sep) + split_on(b, sep),
    decreases b.len(),
{
    lemma_split_on_nonempty(a, sep);
    if b.len() == 0 {
        assert(a.push(sep) + b =~= a.push(sep));
        assert((a.push(sep)).drop_last() =~= a);
        assert(split_on(a, sep) + split_on(b, sep) =~= split_on(a, sep).push(Seq::<char>::empty()));
    } else {
        let b1 = b.drop_last();
        let c = b.last();
        lemma_split_on_concat(a, b1, sep);
        lemma_split_on_nonempty(b1, sep);
        let s = a.push(sep) + b;
        assert(s.drop_last() =~= a.push(sep) + b1);
        assert(s.last() == c);
        let (pa, pb) = (split_on(a, sep), split_on(b1, sep));
        if c == sep {
            assert((pa + pb).push(Seq::<char>::empty()) =~= pa + pb.push(Seq::<char>::empty()));
        } else {
            assert((pa + pb).update((pa + pb).len() - 1, (pa + pb).last().push(c)) =~= pa + pb.update(
                pb.len() - 1,
                pb.last().push(c),
            ));
        }
    }
}

/// Splitting on a separator and joining the pieces with it gives the text back,
/// and no piece holds the separator.
pub proof fn lemma_split_join_roundtrip(s: Seq<char>, sep: char)
    ensures
        join_with(split_on(s, sep), sep) == s,
        forall|i: int| 0 <= i < split_on(s, sep).len() ==> !(#[trigger] split_on(s, sep)[i]).contains(sep),
    decreases s.len(),
{
    if s.len() > 0 {
        let t = s.drop_last();
        lemma_split_on_nonempty(t, sep);
        lemma_split_join_roundtrip(t, sep);
        let p = split_on(t, sep);
        let q = split_on(s, sep);
        if s.last() == sep {
            assert(q.drop_last() =~= p);
            assert(q.last() =~= Seq::<char>::empty());
            if p.len() == 1 {
                assert(join_with(p, sep) == p[0]);
            }
            assert(join_with(q, sep) =~= join_with(p, sep).push(sep));
            assert(s =~= t.push(sep));
            assert forall|i: int| 0 <= i < q.len() implies !(#[trigger] q[i]).contains(sep) by {
                if i < p.len() {
                    assert(q[i] == p[i]);
                }
            }
        } else {
            let last = p.last().push(s.last());
            assert(q.last() == last);
            assert(q.drop_last() =~= p.drop_last());
            if p.len() == 1 {
                assert(join_with(q, sep) == q[0]);
                assert(q[0] =~= s);
            } else {
                assert(join_with(p, sep) == join_with(p.drop_last(), sep).push(sep) + p.last());
                assert(join_with(q, sep) =~= join_with(p, sep).push(s.last()));
                assert(s =~= t.push(s.last()));
            }
            assert forall|i: int| 0 <= i < q.len() implies !(#[trigger] q[i]).contains(sep) by {
                if i < p.len() - 1 {
                    assert(q[i] == p[i]);
                } else {
                    assert(q[i] == last);
                    assert(!p[p.len() - 1].contains(sep));
                    if last.contains(sep) {
                        let k = choose|k: int| 0 <= k < last.len() && last[k] == sep;
                        if k < p.last().len() {
                            assert(p.last()[k] == sep);
                        }
                    }
                }
            }
        }
    }
}


/// The views of a list of strings.
pub open spec fn views(v: Seq<String>) -> Seq<Seq<char>> {
    v.map_values(|p: String| p@)
}

/// Splits `s` at every occurrence of `sep`, as `s.split(sep).map(str::to_string).collect()`.
pub fn split_on_char(s: &str, sep: char) -> (pieces: Vec<String>)
    ensures
        views(pieces@) == split_on(s@, sep),
{
    broadcast use vstd::string::group_string_axioms;

    let mut pieces: Vec<String> = Vec::new();
    let mut current = String::new();
    let mut it = s.chars();
    let ghost all = s@;
    let ghost mut done: Seq<char> = Seq::empty();
    assert(views(pieces@).push(current@) =~= seq![Seq::<char>::empty()]);
    assert(all.skip(0) =~= all);
    loop
        invariant
            vstd::std_specs::iter::IteratorSpec::obeys_prophetic_iter_laws(&it),
            vstd::std_specs::iter::IteratorSpec::remaining(&it) == all.skip(done.len() as int),
            done.len() <= all.len(),
            done =~= all.take(done.len() as int),
            split_on(done, sep) == views(pieces@).push(current@),
        ensures
            done =~= all,
            split_on(done, sep) == views(pieces@).push(current@),
        decreases all.len() - done.len(),
    {
        let ghost before = done;
        let ghost old_pieces = pieces@;
        let ghost old_current = current@;
        match it.next() {
            Some(c) => {
                proof {
                    done = before.push(c);
                    assert(all.skip(before.len() as int)[0] == all[before.len() as int]);
                    assert(done =~= all.take(done.len() as int));
                    assert(done.drop_last() =~= before);
                    assert(all.skip(before.len() as int).drop_first() =~= all.skip(done.len() as int));
                }
                if c == sep {
                    pieces.push(current);
                    current = String::new();
                    assert(views(pieces@) =~= views(old_pieces).push(old_current));
                    assert(views(pieces@).push(current@) =~= views(old_pieces).push(old_current).push(Seq::<char>::empty()));
                } else {
                    push_char(&mut current, c);
                    assert(views(pieces@).push(current@) =~= views(old_pieces).push(old_current).update(
                        views(old_pieces).push(old_current).len() - 1,
                        old_current.push(c),
                    ));
                }
            },
            None => {
                assert(all.skip(done.len() as int).len() == 0);
                break;
            },
        }
    }
    let ghost old_pieces = pieces@;
    pieces.push(current);
    assert(views(pieces@) =~= views(old_pieces).push(current@));
    pieces
}


/// The text of an optional string, empty when absent.
pub open spec fn text_or_empty(o: Option<String>) -> Seq<char> {
    match o {
        Some(s) => s@,
        None => Seq::empty(),
    }
}

/// An optional string, empty when absent.
pub fn string_or_empty(o: Option<String>) -> (s: String)
    ensures
        s@ == text_or_empty(o),
{
    match o {
        Some(s) => s,
        None => String::new(),
    }
}

/// The decimal digit character of a number below ten.
pub open spec fn digit_char(d: nat) -> char {
    seq!['0', '1', '2', '3', '4', '5', '6', '7', '8', '9'][d as int]
}

/// The decimal representation of a natural number, as `Display` writes integers.
pub open spec fn decimal(n: nat) -> Seq<char>
    decreases n,
{
    if n < 10 {
        seq![digit_char(n)]
    } else {
        decimal(n / 10).push(digit_char(n % 10))
    }
}

fn digit(d: u16) -> (c: char)
    requires
        d < 10,
    ensures
        c == digit_char(d as nat),
{
    match d {
        0 => '0',
        1 => '1',
        2 => '2',
        3 => '3',
        4 => '4',
        5 => '5',
        6 => '6',
        7 => '7',
        8 => '8',
        _ => '9',
    }
}

/// The decimal text of a number, as `Display` writes it.
pub fn decimal_string(n: u16) -> (s: String)
    ensures
        s@ == decimal(n as nat),
    decreases n,
{
    if n < 10 {
        let mut s = String::new();
        push_char(&mut s, digit(n));
        assert(s@ =~= decimal(n as nat));
        s
    } else {
        let mut s = decimal_string(n / 10);
        push_char(&mut s, digit(n % 10));
        s
    }
}

/// The message "HTTP {status}: {content}".
pub fn format_http_status(status: u16, content: &str) -> (s: String)
    ensures
        s@ == "HTTP "@ + decimal(status as nat) + ": "@ + content@,
{
    let mut s = "HTTP ".to_string();
    let number = decimal_string(status);
    s.append(number.as_str());
    s.append(": ");
    s.append(content);
    s
}

/// The message "Server returned an unexpected response: {value}.".
pub fn format_unexpected_response(value: &str) -> (s: String)
    ensures
        s@ == "Server returned an unexpected response: "@ + value@ + "."@,
{
    let mut s = "Server returned an unexpected response: ".to_string();
    s.append(value);
    s.append(".");
    s
}

} // verus!
