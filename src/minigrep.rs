//! Searching the lines of a text for a query.
use vstd::prelude::*;
use vstd::string::*;

verus! {

/// The pieces of `s` between newline characters, in order; a text without
/// a newline is one piece, and an empty text is one empty piece.
pub open spec fn split_newlines(s: Seq<char>) -> Seq<Seq<char>>
    decreases s.len(),
{
    if s.len() == 0 {
        seq![Seq::<char>::empty()]
    } else {
        let p = split_newlines(s.drop_last());
        if s.last() == '\n' {
            p.push(Seq::empty())
        } else {
            p.update(p.len() - 1, p.last().push(s.last()))
        }
    }
}

/// Drops one carriage return at the end of `l`, if there is one.
pub open spec fn strip_cr(l: Seq<char>) -> Seq<char> {
    if l.len() > 0 && l.last() == '\r' {
        l.drop_last()
    } else {
        l
    }
}

/// The lines of `s`: the pieces between newlines, each without the carriage
/// return that ended it, and without an empty piece after a final newline.
pub open spec fn text_lines(s: Seq<char>) -> Seq<Seq<char>> {
    let p = split_newlines(s);
    let ended = Seq::new((p.len() - 1) as nat, |i: int| strip_cr(p[i]));
    if p.last().len() == 0 {
        ended
    } else {
        ended.push(p.last())
    }
}

/// The characters with the Unicode `White_Space` property.
pub open spec fn is_white_space(c: char) -> bool {
    let u = c as u32;
    ||| 0x09 <= u <= 0x0d
    ||| u == 0x20
    ||| u == 0x85
    ||| u == 0xa0
    ||| u == 0x1680
    ||| 0x2000 <= u <= 0x200a
    ||| u == 0x2028
    ||| u == 0x2029
    ||| u == 0x202f
    ||| u == 0x205f
    ||| u == 0x3000
}

pub open spec fn trim_start(s: Seq<char>) -> Seq<char>
    decreases s.len(),
{
    if s.len() > 0 && is_white_space(s[0]) {
        trim_start(s.drop_first())
    } else {
        s
    }
}

pub open spec fn trim_end(s: Seq<char>) -> Seq<char>
    decreases s.len(),
{
    if s.len() > 0 && is_white_space(s.last()) {
        trim_end(s.drop_last())
    } else {
        s
    }
}

/// `s` without white space at either end.
pub open spec fn trim_of(s: Seq<char>) -> Seq<char> {
    trim_end(trim_start(s))
}

/// Whether `q` occurs in `t` as a run of consecutive characters.
pub open spec fn is_infix(q: Seq<char>, t: Seq<char>) -> bool {
    exists|i: int| 0 <= i <= t.len() - q.len() && #[trigger] t.subrange(i, i + q.len()) == q
}

/// What the strings of `v` hold.
pub open spec fn views(v: Seq<&str>) -> Seq<Seq<char>> {
    v.map_values(|p: &str| p@)
}

/// The entries of `lines` whose entry at the same place in `keys` holds `q`.
pub open spec fn selected(lines: Seq<Seq<char>>, keys: Seq<Seq<char>>, q: Seq<char>) -> Seq<
    Seq<char>,
>
    decreases lines.len(),
{
    if lines.len() == 0 {
        Seq::empty()
    } else {
        let rest = selected(lines.drop_last(), keys.drop_last(), q);
        if is_infix(q, keys[lines.len() - 1]) {
            rest.push(lines.last())
        } else {
            rest
        }
    }
}

/// The upper-case form of a text, as Unicode case mapping gives it.
pub uninterp spec fn upper_of(s: Seq<char>) -> Seq<char>;

/// Relies on `str::split` with the pattern '\n': the pieces between
/// newlines, in order.
#[verifier::external_body]
fn split_newline_pieces<'a>(s: &'a str) -> (r: Vec<&'a str>)
    ensures
        views(r@) == split_newlines(s@),
{
    s.split('\n').collect()
}

/// Relies on `str::lines`: lines end at "\n" or "\r\n", and a final line
/// ending is optional.
#[verifier::external_body]
fn text_line_pieces<'a>(s: &'a str) -> (r: Vec<&'a str>)
    ensures
        views(r@) == text_lines(s@),
{
    s.lines().collect()
}

/// Relies on `str::trim`: white space, as Unicode's `White_Space` property
/// defines it, is removed from both ends.
#[verifier::external_body]
fn trimmed<'a>(s: &'a str) -> (r: &'a str)
    ensures
        r@ == trim_of(s@),
{
    s.trim()
}

/// Relies on `str::contains` with a string pattern: whether `q` occurs in `t`.
#[verifier::external_body]
fn holds(t: &str, q: &str) -> (r: bool)
    ensures
        r == is_infix(q@, t@),
{
    t.contains(q)
}

/// Relies on `str::to_uppercase`: the result depends on the text alone.
#[verifier::external_body]
fn upper(s: &str) -> (r: String)
    ensures
        r@ == upper_of(s@),
{
    s.to_uppercase()
}

/// The lines of `lines` whose key, at the same place in `keys`, holds `query`.
pub fn select_lines<'a>(lines: &Vec<&'a str>, keys: &Vec<String>, query: &str) -> (r: Vec<&'a str>)
    requires
        lines@.len() == keys@.len(),
    ensures
        views(r@) == selected(views(lines@), keys@.map_values(|k: String| k@), query@),
{
    let ghost ls = views(lines@);
    let ghost ks = keys@.map_values(|k: String| k@);
    let mut r: Vec<&'a str> = Vec::new();
    let mut i: usize = 0;
    while i < lines.len()
        invariant
            i <= lines@.len(),
            lines@.len() == keys@.len(),
            ls == views(lines@),
            ks == keys@.map_values(|k: String| k@),
            views(r@) == selected(ls.subrange(0, i as int), ks.subrange(0, i as int), query@),
        decreases lines@.len() - i,
    {
        let keep = holds(keys[i].as_str(), query);
        proof {
            let l1 = ls.subrange(0, i + 1);
            let k1 = ks.subrange(0, i + 1);
            assert(l1.drop_last() =~= ls.subrange(0, i as int));
            assert(k1.drop_last() =~= ks.subrange(0, i as int));
            assert(k1[i as int] == keys@[i as int]@);
            assert(l1.last() == lines@[i as int]@);
        }
        if keep {
            r.push(lines[i]);
            proof {
                assert(views(r@) =~= views(r@.drop_last()).push(lines@[i as int]@));
            }
        }
        i = i + 1;
    }
    proof {
        assert(ls.subrange(0, i as int) =~= ls);
        assert(ks.subrange(0, i as int) =~= ks);
    }
    r
}

/// The lines of `contents`, split at newlines and trimmed of white space,
/// that hold `query`, in order.
pub fn search<'a>(query: &str, contents: &'a str) -> (r: Vec<&'a str>)
    ensures
        views(r@) == selected(
            split_newlines(contents@).map_values(|l: Seq<char>| trim_of(l)),
            split_newlines(contents@).map_values(|l: Seq<char>| trim_of(l)),
            query@,
        ),
{
    let pieces = split_newline_pieces(contents);
    let ghost ts = split_newlines(contents@).map_values(|l: Seq<char>| trim_of(l));
    let mut r: Vec<&'a str> = Vec::new();
    let mut i: usize = 0;
    while i < pieces.len()
        invariant
            i <= pieces@.len(),
            views(pieces@) == split_newlines(contents@),
            ts == split_newlines(contents@).map_values(|l: Seq<char>| trim_of(l)),
            views(r@) == selected(ts.subrange(0, i as int), ts.subrange(0, i as int), query@),
        decreases pieces@.len() - i,
    {
        let l = trimmed(pieces[i]);
        let keep = holds(l, query);
        proof {
            let t1 = ts.subrange(0, i + 1);
            assert(t1.drop_last() =~= ts.subrange(0, i as int));
            assert(views(pieces@)[i as int] == pieces@[i as int]@);
            assert(t1.last() == l@);
        }
        if keep {
            r.push(l);
            proof {
                assert(views(r@) =~= views(r@.drop_last()).push(l@));
            }
        }
        i = i + 1;
    }
    proof {
        assert(ts.subrange(0, i as int) =~= ts);
    }
    r
}

/// The lines of `contents` whose upper-case form holds the upper-case form
/// of `query`, in order and as they stand in `contents`.
pub fn search_case_insensitive<'a>(query: &str, contents: &'a str) -> (r: Vec<&'a str>)
    ensures
        views(r@) == selected(
            text_lines(contents@),
            text_lines(contents@).map_values(|l: Seq<char>| upper_of(l)),
            upper_of(query@),
        ),
{
    let lines = text_line_pieces(contents);
    let mut keys: Vec<String> = Vec::new();
    let mut i: usize = 0;
    while i < lines.len()
        invariant
            i <= lines@.len(),
            keys@.len() == i,
            forall|k: int| 0 <= k < i ==> #[trigger] keys@[k]@ == upper_of(lines@[k]@),
        decreases lines@.len() - i,
    {
        keys.push(upper(lines[i]));
        i = i + 1;
    }
    let q = upper(query);
    let r = select_lines(&lines, &keys, q.as_str());
    proof {
        assert(keys@.map_values(|k: String| k@) =~= views(lines@).map_values(
            |l: Seq<char>| upper_of(l),
        ));
    }
    r
}

/// What a search is asked to do.
pub struct Config {
    pub query: String,
    pub filename: String,
    pub case_insensitive: bool,
}

impl Config {
    /// Reads the query and the file name from the second and third of
    /// `args`; fewer than three arguments is an error.
    pub fn new(args: &[String], case_insensitive: bool) -> (r: Result<Config, &'static str>)
        ensures
            match r {
                Ok(c) => {
                    &&& args@.len() >= 3
                    &&& c.query@ == args@[1]@
                    &&& c.filename@ == args@[2]@
                    &&& c.case_insensitive == case_insensitive
                },
                Err(e) => args@.len() < 3 && e@ == "not enough arguments"@,
            },
    {
        if args.len() < 3 {
            return Err("not enough arguments");
        }
        let query = args[1].clone();
        let filename = args[2].clone();
        Ok(Config { query, filename, case_insensitive })
    }
}

} // verus!
