//! Text helpers shared by the command handlers: comparing and cutting chat
//! text, looking names up in lists, and writing numbers.

use vstd::prelude::*;
use vstd::string::*;

verus! {

/// The characters of each entry of a list of strings.
pub open spec fn texts(v: Seq<String>) -> Seq<Seq<char>> {
    Seq::new(v.len(), |i: int| v[i]@)
}

/// Whether two pieces of text hold the same characters.
pub fn same(a: &str, b: &str) -> (r: bool)
    ensures
        r == (a@ == b@),
{
    let x = a.to_owned();
    let y = b.to_owned();
    x == y
}

/// `a` followed by `b`.
pub fn joined(a: &str, b: &str) -> (r: String)
    ensures
        r@ == a@ + b@,
{
    let mut r = a.to_owned();
    r.append(b);
    r
}

/// Whether `s` starts with `prefix`.
pub fn begins_with(s: &str, prefix: &str) -> (r: bool)
    ensures
        r == prefix@.is_prefix_of(s@),
{
    let n = prefix.unicode_len();
    if n > s.unicode_len() {
        return false;
    }
    let head = s.substring_char(0, n);
    same(head, prefix)
}

/// What is left of `s` after its first `n` characters.
pub fn after(s: &str, n: usize) -> (r: String)
    requires
        n <= s@.len(),
    ensures
        r@ == s@.skip(n as int),
{
    let len = s.unicode_len();
    let rest = s.substring_char(n, len);
    rest.to_owned()
}

/// The position of the first entry of `list` that reads `name`, if any.
pub fn position(list: &Vec<String>, name: &str) -> (r: Option<usize>)
    ensures
        match r {
            Some(i) => {
                &&& i < list.len()
                &&& list[i as int]@ == name@
                &&& forall|j: int| 0 <= j < i ==> list[j]@ != name@
            },
            None => !texts(list@).contains(name@),
        },
{
    let mut i: usize = 0;
    while i < list.len()
        invariant
            i <= list.len(),
            forall|j: int| 0 <= j < i ==> list[j]@ != name@,
        decreases list.len() - i,
    {
        if same(list[i].as_str(), name) {
            return Some(i);
        }
        i = i + 1;
    }
    None
}

/// Whether some entry of `list` reads `name`.
pub fn holds(list: &Vec<String>, name: &str) -> (r: bool)
    ensures
        r == texts(list@).contains(name@),
{
    match position(list, name) {
        Some(i) => {
            assert(texts(list@)[i as int] == name@);
            true
        },
        None => false,
    }
}

/// A copy of a list of names.
pub fn copied(list: &Vec<String>) -> (r: Vec<String>)
    ensures
        texts(r@) == texts(list@),
{
    let mut r: Vec<String> = Vec::new();
    let mut i: usize = 0;
    while i < list.len()
        invariant
            i <= list.len(),
            r.len() == i,
            forall|j: int| 0 <= j < i ==> r[j]@ == list[j]@,
        decreases list.len() - i,
    {
        r.push(list[i].clone());
        i = i + 1;
    }
    r
}

/// The test that a name differs from `name`.
pub open spec fn differs_from(name: Seq<char>) -> spec_fn(Seq<char>) -> bool {
    |other: Seq<char>| other != name
}

/// The list without the entries that read `name`.
pub fn without(list: &Vec<String>, name: &str) -> (r: Vec<String>)
    ensures
        texts(r@) == texts(list@).filter(differs_from(name@)),
{
    let ghost keep = differs_from(name@);
    let mut r: Vec<String> = Vec::new();
    let mut i: usize = 0;
    while i < list.len()
        invariant
            i <= list.len(),
            keep == differs_from(name@),
            texts(r@) == texts(list@).take(i as int).filter(keep),
        decreases list.len() - i,
    {
        proof {
            let upto = texts(list@).take(i + 1);
            assert(upto.drop_last() =~= texts(list@).take(i as int));
            reveal(Seq::filter);
        }
        if !same(list[i].as_str(), name) {
            let kept = list[i].clone();
            r.push(kept);
        }
        i = i + 1;
    }
    assert(texts(list@).take(list.len() as int) =~= texts(list@));
    r
}

/// The pieces between the single spaces of a text. A space always ends one
/// piece and starts the next, so two spaces in a row enclose an empty piece,
/// and the empty text is one empty piece.
pub open spec fn split_spaces(s: Seq<char>) -> Seq<Seq<char>>
    decreases s.len(),
{
    if s.len() == 0 {
        seq![Seq::<char>::empty()]
    } else {
        let before = split_spaces(s.drop_last());
        if s.last() == ' ' {
            before.push(Seq::<char>::empty())
        } else {
            before.update(before.len() - 1, before.last().push(s.last()))
        }
    }
}

/// There is always at least one piece.
pub proof fn split_spaces_nonempty(s: Seq<char>)
    ensures
        split_spaces(s).len() >= 1,
    decreases s.len(),
{
    if s.len() > 0 {
        split_spaces_nonempty(s.drop_last());
    }
}

/// Cuts a text at every space.
pub fn pieces(s: &str) -> (r: Vec<String>)
    ensures
        texts(r@) == split_spaces(s@),
{
    let n = s.unicode_len();
    let mut done: Vec<String> = Vec::new();
    let mut start: usize = 0;
    let mut i: usize = 0;
    assert(s@.take(0) =~= Seq::<char>::empty());
    while i < n
        invariant
            n == s@.len(),
            start <= i <= n,
            texts(done@).push(s@.subrange(start as int, i as int)) == split_spaces(
                s@.take(i as int),
            ),
        decreases n - i,
    {
        let c = s.get_char(i);
        proof {
            let upto = s@.take(i + 1);
            assert(upto.drop_last() =~= s@.take(i as int));
            split_spaces_nonempty(s@.take(i as int));
        }
        if c == ' ' {
            let piece = s.substring_char(start, i).to_owned();
            proof {
                assert(s@.subrange(i + 1, i + 1) =~= Seq::<char>::empty());
            }
            done.push(piece);
            start = i + 1;
        } else {
            proof {
                assert(s@.subrange(start as int, i + 1) =~= s@.subrange(
                    start as int,
                    i as int,
                ).push(c));
            }
        }
        i = i + 1;
    }
    let piece = s.substring_char(start, n).to_owned();
    proof {
        assert(s@.take(n as int) =~= s@);
    }
    done.push(piece);
    done
}

/// The entries of a list that are not empty, in their order.
pub open spec fn nonempty(list: Seq<Seq<char>>) -> Seq<Seq<char>> {
    list.filter(|p: Seq<char>| p.len() > 0)
}

/// The words of a text: its pieces between spaces, without the empty ones.
pub open spec fn split_words(s: Seq<char>) -> Seq<Seq<char>> {
    nonempty(split_spaces(s))
}

/// Cuts a text into its words.
pub fn words(s: &str) -> (r: Vec<String>)
    ensures
        texts(r@) == split_words(s@),
{
    let all = pieces(s);
    let ghost keep = |p: Seq<char>| p.len() > 0;
    let mut out: Vec<String> = Vec::new();
    let mut i: usize = 0;
    while i < all.len()
        invariant
            i <= all.len(),
            keep == |p: Seq<char>| p.len() > 0,
            texts(out@) == texts(all@).take(i as int).filter(keep),
        decreases all.len() - i,
    {
        proof {
            let upto = texts(all@).take(i + 1);
            assert(upto.drop_last() =~= texts(all@).take(i as int));
            reveal(Seq::filter);
        }
        if all[i].unicode_len() > 0 {
            let w = all[i].clone();
            out.push(w);
        }
        i = i + 1;
    }
    assert(texts(all@).take(all.len() as int) =~= texts(all@));
    out
}

/// The character that writes a digit.
pub open spec fn digit_char(d: nat) -> char {
    if d == 0 {
        '0'
    } else if d == 1 {
        '1'
    } else if d == 2 {
        '2'
    } else if d == 3 {
        '3'
    } else if d == 4 {
        '4'
    } else if d == 5 {
        '5'
    } else if d == 6 {
        '6'
    } else if d == 7 {
        '7'
    } else if d == 8 {
        '8'
    } else {
        '9'
    }
}

/// A number written in decimal, without leading zeros.
pub open spec fn decimal_text(n: nat) -> Seq<char>
    decreases n,
{
    if n < 10 {
        seq![digit_char(n)]
    } else {
        decimal_text(n / 10).push(digit_char(n % 10))
    }
}

fn digit(d: usize) -> (r: &'static str)
    requires
        d < 10,
    ensures
        r@ == seq![digit_char(d as nat)],
{
    proof {
        reveal_strlit("0");
        reveal_strlit("1");
        reveal_strlit("2");
        reveal_strlit("3");
        reveal_strlit("4");
        reveal_strlit("5");
        reveal_strlit("6");
        reveal_strlit("7");
        reveal_strlit("8");
        reveal_strlit("9");
    }
    let r = if d == 0 {
        "0"
    } else if d == 1 {
        "1"
    } else if d == 2 {
        "2"
    } else if d == 3 {
        "3"
    } else if d == 4 {
        "4"
    } else if d == 5 {
        "5"
    } else if d == 6 {
        "6"
    } else if d == 7 {
        "7"
    } else if d == 8 {
        "8"
    } else {
        "9"
    };
    r
}

/// Writes a number in decimal.
pub fn decimal(n: usize) -> (r: String)
    ensures
        r@ == decimal_text(n as nat),
    decreases n,
{
    if n < 10 {
        digit(n).to_owned()
    } else {
        let mut r = decimal(n / 10);
        r.append(digit(n % 10));
        r
    }
}

/// The value of a decimal digit, or -1 for any other character.
pub open spec fn digit_value(c: char) -> int {
    if c == '0' {
        0
    } else if c == '1' {
        1
    } else if c == '2' {
        2
    } else if c == '3' {
        3
    } else if c == '4' {
        4
    } else if c == '5' {
        5
    } else if c == '6' {
        6
    } else if c == '7' {
        7
    } else if c == '8' {
        8
    } else if c == '9' {
        9
    } else {
        -1
    }
}

/// Whether a text is made of decimal digits only.
pub open spec fn all_digits(s: Seq<char>) -> bool {
    forall|i: int| 0 <= i < s.len() ==> digit_value(#[trigger] s[i]) >= 0
}

/// The number that a text of decimal digits writes.
pub open spec fn decimal_value(s: Seq<char>) -> int
    decreases s.len(),
{
    if s.len() == 0 {
        0
    } else {
        decimal_value(s.drop_last()) * 10 + digit_value(s.last())
    }
}

/// A text without the plus sign that it may start with.
pub open spec fn unsigned(s: Seq<char>) -> Seq<char> {
    if s.len() > 0 && s[0] == '+' {
        s.skip(1)
    } else {
        s
    }
}

/// The number below 256 that a text writes: one or more decimal digits,
/// which a plus sign may precede. Any other text writes none.
pub open spec fn u8_of(s: Seq<char>) -> Option<u8> {
    let d = unsigned(s);
    if d.len() > 0 && all_digits(d) && decimal_value(d) <= 255 {
        Some(decimal_value(d) as u8)
    } else {
        None
    }
}

proof fn decimal_value_grows(s: Seq<char>)
    requires
        s.len() > 0,
        all_digits(s),
    ensures
        decimal_value(s) >= decimal_value(s.drop_last()) >= 0,
    decreases s.len(),
{
    let t = s.drop_last();
    if t.len() > 0 {
        decimal_value_grows(t);
    }
}

fn digit_of(c: char) -> (r: Option<usize>)
    ensures
        match r {
            Some(v) => v == digit_value(c),
            None => digit_value(c) < 0,
        },
{
    if c == '0' {
        Some(0)
    } else if c == '1' {
        Some(1)
    } else if c == '2' {
        Some(2)
    } else if c == '3' {
        Some(3)
    } else if c == '4' {
        Some(4)
    } else if c == '5' {
        Some(5)
    } else if c == '6' {
        Some(6)
    } else if c == '7' {
        Some(7)
    } else if c == '8' {
        Some(8)
    } else if c == '9' {
        Some(9)
    } else {
        None
    }
}

/// Reads a number below 256.
pub fn parse_u8(s: &str) -> (r: Option<u8>)
    ensures
        r == u8_of(s@),
{
    let n = s.unicode_len();
    let start: usize = if n > 0 && s.get_char(0) == '+' {
        1
    } else {
        0
    };
    let ghost d = unsigned(s@);
    if start == n {
        return None;
    }
    let mut acc: usize = 0;
    let mut big = false;
    let mut i: usize = start;
    while i < n
        invariant
            start <= i <= n,
            n == s@.len(),
            d == s@.skip(start as int),
            d == unsigned(s@),
            all_digits(d.take(i - start)),
            big ==> decimal_value(d.take(i - start)) > 255,
            !big ==> acc == decimal_value(d.take(i - start)) && acc <= 255,
        decreases n - i,
    {
        let c = s.get_char(i);
        let ghost upto = d.take(i - start + 1);
        proof {
            assert(upto.drop_last() =~= d.take(i - start));
            assert(upto.last() == c);
        }
        match digit_of(c) {
            None => {
                return None;
            },
            Some(v) => {
                proof {
                    decimal_value_grows(upto);
                }
                if !big {
                    acc = acc * 10 + v;
                    if acc > 255 {
                        big = true;
                    }
                }
            },
        }
        i = i + 1;
    }
    assert(d.take(n - start) =~= d);
    if big {
        None
    } else {
        Some(acc as u8)
    }
}

/// The lines of a list one after the other, each followed by a carriage
/// return and a line feed.
pub open spec fn joined_lines(list: Seq<Seq<char>>) -> Seq<char>
    decreases list.len(),
{
    if list.len() == 0 {
        Seq::empty()
    } else {
        joined_lines(list.drop_last()) + list.last() + "\r\n"@
    }
}

/// Strings the lines of a list together, ending each with a carriage
/// return and a line feed.
pub fn join_lines(list: &Vec<String>) -> (r: String)
    ensures
        r@ == joined_lines(texts(list@)),
{
    let mut r = String::new();
    let mut i: usize = 0;
    while i < list.len()
        invariant
            i <= list.len(),
            r@ == joined_lines(texts(list@).take(i as int)),
        decreases list.len() - i,
    {
        proof {
            assert(texts(list@).take(i + 1).drop_last() =~= texts(list@).take(i as int));
        }
        r.append(list[i].as_str());
        r.append("\r\n");
        i = i + 1;
    }
    assert(texts(list@).take(i as int) =~= texts(list@));
    r
}

/// What `str::to_uppercase` makes of a text.
pub uninterp spec fn uppercase_of(s: Seq<char>) -> Seq<char>;

/// Calls `str::to_uppercase` of the standard library, which follows the
/// Unicode case tables. The contract only names its result.
#[verifier::external_body]
pub(crate) fn to_uppercase(string: &str) -> (r: String)
    ensures
        r@ == uppercase_of(string@),
{
    string.to_uppercase()
}

/// What the `Debug` format of the standard library makes of a list of
/// strings: the entries quoted and escaped, between square brackets.
pub uninterp spec fn debug_of(list: Seq<Seq<char>>) -> Seq<char>;

/// Calls `format!` of the standard library with `{:?}`, the `Debug` form of
/// a `Vec<String>`. The contract only names its result, which depends on
/// the entries alone.
#[verifier::external_body]
pub(crate) fn debug_list(list: &Vec<String>) -> (r: String)
    ensures
        r@ == debug_of(texts(list@)),
{
    format!("{:?}", list)
}

} // verus!
