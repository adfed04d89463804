use vstd::prelude::*;

verus! {

/// The characters that a backslash escapes.
pub open spec fn is_special(c: char) -> bool {
    c == '=' || c == '@' || c == ':' || c == ';' || c == '\\'
}

/// The text with every backslash-escape of a special character resolved.
/// A backslash before any other character, or at the end, stays as it is,
/// and the character after it is taken over unchanged.
pub open spec fn unescape_spec(s: Seq<char>) -> Seq<char>
    decreases s.len(),
{
    if s.len() == 0 {
        Seq::empty()
    } else if s[0] == '\\' && s.len() >= 2 {
        if is_special(s[1]) {
            seq![s[1]] + unescape_spec(s.skip(2))
        } else {
            seq!['\\', s[1]] + unescape_spec(s.skip(2))
        }
    } else {
        seq![s[0]] + unescape_spec(s.skip(1))
    }
}

/// Resolves the escapes in `s[from..to]`.
pub fn unescape(s: &Vec<char>, from: usize, to: usize) -> (r: String)
    requires
        from <= to <= s@.len(),
    ensures
        r@ == unescape_spec(s@.subrange(from as int, to as int)),
{
    let ghost whole = s@.subrange(from as int, to as int);
    let mut out = String::new();
    let mut i = from;
    while i < to
        invariant
            from <= i <= to <= s@.len(),
            whole == s@.subrange(from as int, to as int),
            out@ + unescape_spec(s@.subrange(i as int, to as int)) == unescape_spec(whole),
        decreases to - i,
    {
        let ghost rest = s@.subrange(i as int, to as int);
        let ch = s[i];
        if ch == '\\' && i + 1 < to {
            let next = s[i + 1];
            assert(rest.skip(2) =~= s@.subrange(i + 2, to as int));
            if next == '=' || next == '@' || next == ':' || next == ';' || next == '\\' {
                out.push(next);
            } else {
                out.push(ch);
                out.push(next);
            }
            i = i + 2;
        } else {
            assert(rest.skip(1) =~= s@.subrange(i + 1, to as int));
            out.push(ch);
            i = i + 1;
        }
    }
    assert(s@.subrange(to as int, to as int) =~= Seq::<char>::empty());
    out
}

/// The separators of the item syntax.
#[derive(Clone, Copy, Debug, PartialEq, Eq, Structural)]
pub enum Separator {
    /// `=@`: data field read from a file
    DataFile,
    /// `:=@`: JSON field read from a file
    JsonFile,
    /// `==`: URL query parameter
    Param,
    /// `:=`: JSON field
    Json,
    /// `=`: data field
    Data,
    /// `@`: file upload
    File,
    /// `:`: header
    Header,
}

pub open spec fn sep_text(sep: Separator) -> Seq<char> {
    match sep {
        Separator::DataFile => seq!['=', '@'],
        Separator::JsonFile => seq![':', '=', '@'],
        Separator::Param => seq!['=', '='],
        Separator::Json => seq![':', '='],
        Separator::Data => seq!['='],
        Separator::File => seq!['@'],
        Separator::Header => seq![':'],
    }
}

/// `t` occurs in `s` starting at index `i`.
pub open spec fn occurs_at(s: Seq<char>, i: int, t: Seq<char>) -> bool {
    0 <= i && i + t.len() <= s.len() && s.subrange(i, i + t.len()) == t
}

/// The first separator, in the fixed order `=@ :=@ == := = @ :`, that occurs at `i`.
pub open spec fn sep_at(s: Seq<char>, i: int) -> Option<Separator> {
    if occurs_at(s, i, sep_text(Separator::DataFile)) {
        Some(Separator::DataFile)
    } else if occurs_at(s, i, sep_text(Separator::JsonFile)) {
        Some(Separator::JsonFile)
    } else if occurs_at(s, i, sep_text(Separator::Param)) {
        Some(Separator::Param)
    } else if occurs_at(s, i, sep_text(Separator::Json)) {
        Some(Separator::Json)
    } else if occurs_at(s, i, sep_text(Separator::Data)) {
        Some(Separator::Data)
    } else if occurs_at(s, i, sep_text(Separator::File)) {
        Some(Separator::File)
    } else if occurs_at(s, i, sep_text(Separator::Header)) {
        Some(Separator::Header)
    } else {
        None
    }
}

/// Scanning from `i`, the first position not protected by a backslash where a
/// separator occurs, with that separator. A backslash protects the character
/// after it, whatever that character is.
pub open spec fn find_sep(s: Seq<char>, i: int) -> Option<(int, Separator)>
    decreases s.len() - i,
{
    if i < 0 || i >= s.len() {
        None
    } else if s[i] == '\\' {
        if i + 1 < s.len() {
            find_sep(s, i + 2)
        } else {
            None
        }
    } else if sep_at(s, i) is Some {
        Some((i, sep_at(s, i)->Some_0))
    } else {
        find_sep(s, i + 1)
    }
}

/// A scan that starts at `i` stops at `j`: the character at `j` is not
/// protected by a backslash, seen from `i`.
pub open spec fn reaches(s: Seq<char>, i: int, j: int) -> bool
    decreases j - i,
{
    if i > j {
        false
    } else if i == j {
        true
    } else if s[i] == '\\' {
        i + 2 <= j && reaches(s, i + 2, j)
    } else {
        reaches(s, i + 1, j)
    }
}

/// The token ends with a `;` that no backslash protects.
pub open spec fn ends_with_open_semicolon(s: Seq<char>) -> bool {
    s.len() > 0 && s.last() == ';' && reaches(s, 0, s.len() - 1)
}

/// Two stops of one scan: the scan from the earlier one reaches the later one.
pub proof fn lemma_reaches_from_stop(s: Seq<char>, a: int, b: int, c: int)
    requires
        reaches(s, a, b),
        reaches(s, a, c),
        b <= c,
    ensures
        reaches(s, b, c),
    decreases b - a,
{
    if a < b {
        if s[a] == '\\' {
            reveal_with_fuel(reaches, 2);
            lemma_reaches_from_stop(s, a + 2, b, c);
        } else {
            lemma_reaches_from_stop(s, a + 1, b, c);
        }
    }
}

/// The result of scanning a token for its separator.
pub enum Split {
    /// key and value (both unescaped) around the first separator
    Found(String, Separator, String),
    /// no separator; the token ends with an unprotected `;`, and this is the
    /// unescaped text before it
    EmptyHeader(String),
    /// neither
    Invalid,
}

pub open spec fn split_spec(s: Seq<char>) -> (Seq<char>, Option<Separator>, Seq<char>, bool) {
    match find_sep(s, 0) {
        Some((i, sep)) => (
            unescape_spec(s.subrange(0, i)),
            Some(sep),
            unescape_spec(s.subrange(i + sep_text(sep).len(), s.len() as int)),
            true,
        ),
        None => if ends_with_open_semicolon(s) {
            (unescape_spec(s.subrange(0, s.len() - 1)), None, Seq::empty(), true)
        } else {
            (Seq::empty(), None, Seq::empty(), false)
        },
    }
}

impl Split {
    pub open spec fn view(&self) -> (Seq<char>, Option<Separator>, Seq<char>, bool) {
        match self {
            Split::Found(k, sep, v) => (k@, Some(*sep), v@, true),
            Split::EmptyHeader(k) => (k@, None, Seq::empty(), true),
            Split::Invalid => (Seq::empty(), None, Seq::empty(), false),
        }
    }
}

proof fn lemma_occurs1(s: Seq<char>, i: int, x: char)
    requires
        0 <= i < s.len(),
    ensures
        occurs_at(s, i, seq![x]) <==> s[i] == x,
{
    if s[i] == x {
        assert(s.subrange(i, i + 1) =~= seq![x]);
    }
    if occurs_at(s, i, seq![x]) {
        assert(s.subrange(i, i + 1)[0] == s[i]);
    }
}

proof fn lemma_occurs2(s: Seq<char>, i: int, x: char, y: char)
    requires
        0 <= i < s.len(),
    ensures
        occurs_at(s, i, seq![x, y]) <==> (i + 1 < s.len() && s[i] == x && s[i + 1] == y),
{
    if i + 1 < s.len() && s[i] == x && s[i + 1] == y {
        assert(s.subrange(i, i + 2) =~= seq![x, y]);
    }
    if occurs_at(s, i, seq![x, y]) {
        assert(s.subrange(i, i + 2)[0] == s[i]);
        assert(s.subrange(i, i + 2)[1] == s[i + 1]);
    }
}

proof fn lemma_occurs3(s: Seq<char>, i: int, x: char, y: char, z: char)
    requires
        0 <= i < s.len(),
    ensures
        occurs_at(s, i, seq![x, y, z]) <==> (i + 2 < s.len() && s[i] == x && s[i + 1] == y
            && s[i + 2] == z),
{
    if i + 2 < s.len() && s[i] == x && s[i + 1] == y && s[i + 2] == z {
        assert(s.subrange(i, i + 3) =~= seq![x, y, z]);
    }
    if occurs_at(s, i, seq![x, y, z]) {
        assert(s.subrange(i, i + 3)[0] == s[i]);
        assert(s.subrange(i, i + 3)[1] == s[i + 1]);
        assert(s.subrange(i, i + 3)[2] == s[i + 2]);
    }
}

/// The separator that occurs at `i`, if any.
fn sep_at_exec(s: &Vec<char>, i: usize) -> (r: Option<Separator>)
    requires
        i < s@.len(),
    ensures
        r == sep_at(s@, i as int),
{
    let n = s.len();
    let c0 = s[i];
    let has1 = n - i > 1;
    let has2 = n - i > 2;
    let c1 = if has1 { s[i + 1] } else { ' ' };
    let c2 = if has2 { s[i + 2] } else { ' ' };
    proof {
        let t = s@;
        let k = i as int;
        lemma_occurs2(t, k, '=', '@');
        lemma_occurs3(t, k, ':', '=', '@');
        lemma_occurs2(t, k, '=', '=');
        lemma_occurs2(t, k, ':', '=');
        lemma_occurs1(t, k, '=');
        lemma_occurs1(t, k, '@');
        lemma_occurs1(t, k, ':');
    }
    if has1 && c0 == '=' && c1 == '@' {
        Some(Separator::DataFile)
    } else if has2 && c0 == ':' && c1 == '=' && c2 == '@' {
        Some(Separator::JsonFile)
    } else if has1 && c0 == '=' && c1 == '=' {
        Some(Separator::Param)
    } else if has1 && c0 == ':' && c1 == '=' {
        Some(Separator::Json)
    } else if c0 == '=' {
        Some(Separator::Data)
    } else if c0 == '@' {
        Some(Separator::File)
    } else if c0 == ':' {
        Some(Separator::Header)
    } else {
        None
    }
}

/// Splits a token at its first unprotected separator, unescaping key and value.
pub fn split(s: &Vec<char>) -> (r: Split)
    ensures
        r.view() == split_spec(s@),
{
    let n = s.len();
    let mut i: usize = 0;
    let mut semicolon_end = false;
    while i < n
        invariant
            n == s@.len(),
            find_sep(s@, 0) == find_sep(s@, i as int),
            i < n ==> reaches(s@, 0, i as int),
            semicolon_end == (n > 0 && n - 1 < i && ends_with_open_semicolon(s@)),
        decreases n - i,
    {
        if s[i] == '\\' {
            proof {
                if i + 1 == n - 1 && reaches(s@, 0, i + 1) {
                    lemma_reaches_from_stop(s@, 0, i as int, i + 1);
                }
                if i + 2 < n {
                    assert(reaches(s@, i + 2, i + 2));
                    assert(reaches(s@, i as int, i + 2));
                    lemma_reaches_trans(s@, 0, i as int, i + 2);
                }
            }
            proof {
                reveal_with_fuel(find_sep, 2);
            }
            i = if i + 1 < n { i + 2 } else { n };
        } else {
            match sep_at_exec(s, i) {
                Some(sep) => {
                    let len: usize = match sep {
                        Separator::DataFile => 2,
                        Separator::JsonFile => 3,
                        Separator::Param => 2,
                        Separator::Json => 2,
                        Separator::Data => 1,
                        Separator::File => 1,
                        Separator::Header => 1,
                    };
                    let key = unescape(s, 0, i);
                    let value = unescape(s, i + len, n);
                    return Split::Found(key, sep, value);
                },
                None => {
                    if i == n - 1 && s[i] == ';' {
                        semicolon_end = true;
                    }
                    proof {
                        if i + 1 < n {
                            assert(reaches(s@, i + 1, i + 1));
                            assert(reaches(s@, i as int, i + 1));
                            lemma_reaches_trans(s@, 0, i as int, i + 1);
                        }
                    }
                    i = i + 1;
                },
            }
        }
    }
    if semicolon_end {
        Split::EmptyHeader(unescape(s, 0, n - 1))
    } else {
        Split::Invalid
    }
}

/// A scan that reaches `b`, then `c` from there, reaches `c`.
pub proof fn lemma_reaches_trans(s: Seq<char>, a: int, b: int, c: int)
    requires
        reaches(s, a, b),
        reaches(s, b, c),
    ensures
        reaches(s, a, c),
    decreases b - a,
{
    if a < b {
        if s[a] == '\\' {
            reveal_with_fuel(reaches, 2);
            lemma_reaches_trans(s, a + 2, b, c);
        } else {
            lemma_reaches_trans(s, a + 1, b, c);
        }
    }
}

} // verus!
