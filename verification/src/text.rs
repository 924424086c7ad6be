//! Text helpers the triage workflow builds on: case folding behind a named
//! result, UTF-8 decoding of branch names, a verified substring search, and
//! a verified decimal rendering of counts.
use vstd::prelude::*;

verus! {

/// The lowercase form of a character sequence, as Unicode case folding
/// defines it.
pub uninterp spec fn lower_of(s: Seq<char>) -> Seq<char>;

/// Relies on str::to_lowercase: the result depends on the characters alone.
#[verifier::external_body]
pub(crate) fn lowercase(s: &str) -> (r: String)
    ensures
        r@ == lower_of(s@),
{
    s.to_lowercase()
}

/// Relies on String::from_utf8: Some exactly when the bytes are valid
/// UTF-8, and then the decoded characters.
#[verifier::external_body]
pub(crate) fn utf8_to_string(bytes: Vec<u8>) -> (r: Option<String>)
    ensures
        r matches Some(s) ==> vstd::utf8::valid_utf8(bytes@) && s@ == vstd::utf8::decode_utf8(
            bytes@,
        ),
        r is None ==> !vstd::utf8::valid_utf8(bytes@),
{
    String::from_utf8(bytes).ok()
}

/// Relies on char::to_string: the string holding exactly that character.
#[verifier::external_body]
pub(crate) fn char_text(c: char) -> (r: String)
    ensures
        r@ == seq![c],
{
    c.to_string()
}

/// The needle `n` occurs in `h` starting at position `i`.
pub open spec fn match_at(h: Seq<char>, n: Seq<char>, i: int) -> bool {
    0 <= i && i + n.len() <= h.len() && h.subrange(i, i + n.len()) == n
}

/// The needle `n` occurs somewhere in `h`; an empty needle occurs in
/// every sequence.
pub open spec fn contains_chars(h: Seq<char>, n: Seq<char>) -> bool {
    exists|i: int| match_at(h, n, i)
}

/// Substring search: whether `n` occurs in `h`, by characters.
pub fn contains_sub(h: &str, n: &str) -> (r: bool)
    ensures
        r == contains_chars(h@, n@),
{
    let hl: usize = h.unicode_len();
    let nl: usize = n.unicode_len();
    if nl > hl {
        assert(forall|i: int| !match_at(h@, n@, i));
        return false;
    }
    let mut i: usize = 0;
    while i <= hl - nl
        invariant
            nl <= hl,
            hl == h@.len(),
            nl == n@.len(),
            i <= hl - nl + 1,
            forall|k: int| 0 <= k < i ==> !match_at(h@, n@, k),
        decreases hl - nl - i + 1,
    {
        let mut j: usize = 0;
        let mut ok = true;
        while j < nl && ok
            invariant
                nl <= hl,
                hl == h@.len(),
                nl == n@.len(),
                i <= hl - nl,
                j <= nl,
                ok ==> forall|m: int| 0 <= m < j ==> h@[i + m] == n@[m],
                !ok ==> !match_at(h@, n@, i as int),
            decreases nl - j + (if ok { 1int } else { 0int }),
        {
            let hc = h.get_char(i + j);
            let nc = n.get_char(j);
            if hc != nc {
                proof {
                    assert(!match_at(h@, n@, i as int)) by {
                        if h@.subrange(i as int, i + n@.len()) == n@ {
                            assert(h@.subrange(i as int, i + n@.len())[j as int] == h@[i + j]);
                        }
                    }
                }
                ok = false;
            } else {
                j = j + 1;
            }
        }
        if ok {
            proof {
                assert(h@.subrange(i as int, i + n@.len()) =~= n@);
                assert(match_at(h@, n@, i as int));
            }
            return true;
        }
        proof {
            if nl == 0 {
                assert(h@.subrange(i as int, i as int) =~= n@);
                assert(match_at(h@, n@, i as int));
            }
        }
        i = i + 1;
    }
    proof {
        assert forall|k: int| !match_at(h@, n@, k) by {
            if 0 <= k && k + n@.len() <= h@.len() {
                assert(k < i);
            }
        }
    }
    false
}

/// One decimal digit as a character.
pub open spec fn digit_char(d: nat) -> char {
    if d == 0 {
        '0'
    } else if d == 1 {
        '1'
    } else if d == 2 {
        '2'
    } else if d == 3 {
        '3'
    } else if d == 4 {
        '4'
    } else if d == 5 {
        '5'
    } else if d == 6 {
        '6'
    } else if d == 7 {
        '7'
    } else if d == 8 {
        '8'
    } else {
        '9'
    }
}

/// The usual decimal rendering of a number, most significant digit first.
pub open spec fn dec_of(n: nat) -> Seq<char>
    decreases n,
{
    if n < 10 {
        seq![digit_char(n)]
    } else {
        dec_of(n / 10).push(digit_char(n % 10))
    }
}

fn digit_text(d: usize) -> (r: String)
    requires
        d < 10,
    ensures
        r@ == seq![digit_char(d as nat)],
{
    let s: &str = match d {
        0 => "0",
        1 => "1",
        2 => "2",
        3 => "3",
        4 => "4",
        5 => "5",
        6 => "6",
        7 => "7",
        8 => "8",
        _ => "9",
    };
    proof {
        reveal_strlit("0");
        reveal_strlit("1");
        reveal_strlit("2");
        reveal_strlit("3");
        reveal_strlit("4");
        reveal_strlit("5");
        reveal_strlit("6");
        reveal_strlit("7");
        reveal_strlit("8");
        reveal_strlit("9");
        assert(s@ =~= seq![digit_char(d as nat)]);
    }
    String::from_str(s)
}

/// Renders a count in decimal.
pub fn usize_text(n: usize) -> (r: String)
    ensures
        r@ == dec_of(n as nat),
    decreases n,
{
    if n < 10 {
        digit_text(n)
    } else {
        let mut s = usize_text(n / 10);
        let d = digit_text(n % 10);
        s.append(d.as_str());
        proof {
            assert(s@ =~= dec_of((n as nat) / 10).push(digit_char((n as nat) % 10)));
        }
        s
    }
}

} // verus!
