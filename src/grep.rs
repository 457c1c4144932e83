//! Finding the lines of a text that contain a query.
use vstd::prelude::*;

verus! {

/// `s` cut at every `'\n'`, the newlines dropped: one piece more than `s`
/// has newlines.
pub open spec fn split_at_newlines(s: Seq<char>) -> Seq<Seq<char>>
    decreases s.len(),
{
    if s.len() == 0 {
        seq![Seq::empty()]
    } else {
        let rest = split_at_newlines(s.drop_last());
        if s.last() == '\n' {
            rest.push(Seq::empty())
        } else {
            rest.update(rest.len() - 1, rest.last().push(s.last()))
        }
    }
}

/// A line that ended in `"\r\n"`, without its `'\r'`.
pub open spec fn without_cr(l: Seq<char>) -> Seq<char> {
    if l.len() > 0 && l.last() == '\r' {
        l.drop_last()
    } else {
        l
    }
}

/// The lines of `s`: split at `'\n'` or `"\r\n"`, the last line ending
/// optional, a lone `'\r'` kept.
pub open spec fn lines_of(s: Seq<char>) -> Seq<Seq<char>> {
    let pieces = split_at_newlines(s);
    let ended = pieces.drop_last().map_values(|l: Seq<char>| without_cr(l));
    if pieces.last().len() == 0 {
        ended
    } else {
        ended.push(pieces.last())
    }
}

/// Whether `needle` occurs in `hay` as a contiguous run.
pub open spec fn contains_seq(hay: Seq<char>, needle: Seq<char>) -> bool {
    exists|i: int|
        0 <= i && i + needle.len() <= hay.len() && #[trigger] hay.subrange(i, i + needle.len())
            == needle
}

/// What `str::to_lowercase` makes of a text.
pub uninterp spec fn lower_of(s: Seq<char>) -> Seq<char>;

/// The texts that a sequence of string slices holds.
pub open spec fn views_of(s: Seq<&str>) -> Seq<Seq<char>> {
    s.map_values(|l: &str| l@)
}

/// The lines, in order, whose key contains `query`; `keys[i]` is the key of
/// `lines[i]`.
pub open spec fn selected(lines: Seq<Seq<char>>, keys: Seq<Seq<char>>, query: Seq<char>) -> Seq<
    Seq<char>,
>
    decreases lines.len(),
{
    if lines.len() == 0 {
        Seq::empty()
    } else {
        let rest = selected(lines.drop_last(), keys.drop_last(), query);
        if contains_seq(keys[lines.len() - 1], query) {
            rest.push(lines.last())
        } else {
            rest
        }
    }
}

/// The lines of `content` that contain `query`.
pub open spec fn matching_lines(content: Seq<char>, query: Seq<char>) -> Seq<Seq<char>> {
    selected(lines_of(content), lines_of(content), query)
}

/// The lines of `content` whose lower-case form contains `query`.
pub open spec fn matching_lines_folded(content: Seq<char>, query: Seq<char>) -> Seq<Seq<char>> {
    selected(lines_of(content), lines_of(content).map_values(|l: Seq<char>| lower_of(l)), query)
}

/// Relies on `str::lines`: the lines of `content`, as slices of it.
#[verifier::external_body]
fn lines_in<'a>(content: &'a str) -> (r: Vec<&'a str>)
    ensures
        views_of(r@) == lines_of(content@),
{
    content.lines().collect()
}

/// Relies on `str::contains` with a `&str` pattern: whether `needle` occurs
/// in `hay`.
#[verifier::external_body]
fn has_substring(hay: &str, needle: &str) -> (r: bool)
    ensures
        r == contains_seq(hay@, needle@),
{
    hay.contains(needle)
}

/// Relies on `str::to_lowercase`: the result depends on the text alone.
#[verifier::external_body]
fn lowercase(s: &str) -> (r: String)
    ensures
        r@ == lower_of(s@),
{
    s.to_lowercase()
}

/// Keeps, in order, each of `lines` whose key contains `query`, where
/// `keys[i]` is the key of `lines[i]`.
pub fn select_by_key<'a>(lines: &Vec<&'a str>, keys: &Vec<&str>, query: &str) -> (r: Vec<&'a str>)
    requires
        lines.len() == keys.len(),
    ensures
        views_of(r@) == selected(views_of(lines@), views_of(keys@), query@),
{
    let mut kept: Vec<&'a str> = Vec::new();
    let mut i: usize = 0;
    while i < lines.len()
        invariant
            lines.len() == keys.len(),
            i <= lines.len(),
            views_of(kept@) == selected(views_of(lines@).take(i as int), views_of(keys@).take(i as int), query@),
        decreases lines.len() - i,
    {
        let ghost before = kept@;
        if has_substring(keys[i], query) {
            kept.push(lines[i]);
            assert(views_of(kept@) =~= views_of(before).push(lines@[i as int]@));
        }
        assert(views_of(lines@).take(i + 1).drop_last() =~= views_of(lines@).take(i as int));
        assert(views_of(keys@).take(i + 1).drop_last() =~= views_of(keys@).take(i as int));
        i = i + 1;
    }
    assert(views_of(lines@).take(lines.len() as int) =~= views_of(lines@));
    assert(views_of(keys@).take(keys.len() as int) =~= views_of(keys@));
    kept
}

/// The lines of `content` that contain `query`, in order.
pub fn search<'a>(query: &str, content: &'a str) -> (r: Vec<&'a str>)
    ensures
        views_of(r@) == matching_lines(content@, query@),
{
    let lines = lines_in(content);
    select_by_key(&lines, &lines, query)
}

/// The lines of `content` whose lower-case form contains `query`, in order.
/// `query` itself is taken as it is.
pub fn search_insensitive<'a>(query: &str, content: &'a str) -> (r: Vec<&'a str>)
    ensures
        views_of(r@) == matching_lines_folded(content@, query@),
{
    let lines = lines_in(content);
    let mut folded: Vec<String> = Vec::new();
    let mut i: usize = 0;
    while i < lines.len()
        invariant
            i <= lines.len(),
            folded.len() == i,
            forall|j: int| 0 <= j < i ==> #[trigger] folded@[j]@ == lower_of(lines@[j]@),
        decreases lines.len() - i,
    {
        folded.push(lowercase(lines[i]));
        i = i + 1;
    }
    let mut keys: Vec<&str> = Vec::new();
    let mut k: usize = 0;
    while k < folded.len()
        invariant
            k <= folded.len(),
            keys.len() == k,
            forall|j: int| 0 <= j < k ==> #[trigger] keys@[j]@ == folded@[j]@,
        decreases folded.len() - k,
    {
        keys.push(folded[k].as_str());
        k = k + 1;
    }
    assert(views_of(keys@) =~= lines_of(content@).map_values(|l: Seq<char>| lower_of(l)));
    select_by_key(&lines, &keys, query)
}

/// What to search for, and where.
pub struct Config {
    pub query: String,
    pub file_path: String,
    pub ignore_case: bool,
}

impl Config {
    /// A search from the command line `args`, whose first item is the
    /// program's name, the second the query and the third the file to search.
    /// Items after the third are ignored.
    pub fn new(args: &Vec<String>, ignore_case: bool) -> (r: Result<Config, &'static str>)
        ensures
            args.len() < 2 ==> (r matches Err(e) && e@ == "[x] Failed to get query"@),
            args.len() == 2 ==> (r matches Err(e) && e@ == "[x] Failed to get file_path"@),
            args.len() >= 3 ==> (r matches Ok(c) && c.query@ == args[1]@ && c.file_path@
                == args[2]@ && c.ignore_case == ignore_case),
    {
        if args.len() < 2 {
            return Err("[x] Failed to get query");
        }
        if args.len() < 3 {
            return Err("[x] Failed to get file_path");
        }
        let query = args[1].clone();
        let file_path = args[2].clone();
        Ok(Config { query, file_path, ignore_case })
    }

    /// The lines of `content` that this search finds, in order.
    pub fn search_in<'a>(&self, content: &'a str) -> (r: Vec<&'a str>)
        ensures
            self.ignore_case ==> views_of(r@) == matching_lines_folded(content@, self.query@),
            !self.ignore_case ==> views_of(r@) == matching_lines(content@, self.query@),
    {
        if self.ignore_case {
            search_insensitive(self.query.as_str(), content)
        } else {
            search(self.query.as_str(), content)
        }
    }
}

} // verus!
